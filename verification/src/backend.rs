//! The state backend union: a blank local store or a forked
//! fetch-through cache, behind one read-only query contract.

use vstd::prelude::*;

use crate::fork::{Fork, SharedBackend};
use crate::mem_cache::{CacheModel, SharedMemCache};
use crate::remote::{connect_provider, endpoint_accepted};
use crate::types::{AccountInfo, Address, B256, SlotKey, U256};

verus! {

/// The blank state universe: every query has its inert default answer,
/// whatever the inputs.
#[derive(Clone, Copy, PartialEq, Eq, Structural, Debug)]
pub struct EmptyDb {}

impl EmptyDb {
    /// The zero hash, for any block number.
    pub fn block_hash(&self, _number: U256) -> (r: B256)
        ensures
            r == B256::zero_spec(),
    {
        B256::zero()
    }

    /// The empty account record, for any address.
    pub fn basic(&self, _address: Address) -> (r: AccountInfo)
        ensures
            r == AccountInfo::empty_spec(),
    {
        AccountInfo::empty()
    }

    /// Empty bytes, for any code hash.
    pub fn code_by_hash(&self, _hash: B256) -> (r: Vec<u8>)
        ensures
            r@ == Seq::<u8>::empty(),
    {
        Vec::new()
    }

    /// The zero word, for any slot.
    pub fn storage(&self, _address: Address, _index: U256) -> (r: U256)
        ensures
            r == U256::zero_spec(),
    {
        U256::zero()
    }
}

/// Why backend construction was refused.
#[derive(Clone, Copy, PartialEq, Eq, Structural, Debug)]
pub enum ConfigError {
    /// The fork endpoint was not accepted by the remote-client
    /// constructor.
    InvalidEndpoint,
}

impl ConfigError {
    /// The diagnostic for this configuration error.
    pub fn message(&self) -> (r: &'static str)
        ensures
            r@ == "invalid fork endpoint: not a valid node address"@,
    {
        "invalid fork endpoint: not a valid node address"
    }
}

/// The pinned block of a fork descriptor, widened to a word, as the
/// forked backend stores it.
pub open spec fn pin_model(pin: Option<u64>) -> Option<U256> {
    match pin {
        Some(v) => Some(U256::from_u64_spec(v)),
        None => None,
    }
}

/// The backend union: a blank local store, or forked state served
/// through the shared fetch-through cache. The variant is fixed at
/// construction; every query dispatches on it and forwards verbatim.
pub enum Backend {
    Simple(EmptyDb),
    Forked(SharedBackend),
}

impl Backend {
    /// The forked variant keeps its cache well formed.
    pub open spec fn wf(&self) -> bool {
        match self {
            Backend::Simple(_) => true,
            Backend::Forked(inner) => inner.wf(),
        }
    }

    /// The answer owed for a block-hash query.
    pub open spec fn spec_block_hash(self, number: U256) -> Option<B256> {
        match self {
            Backend::Simple(_) => Some(B256::zero_spec()),
            Backend::Forked(inner) => inner.spec_block_hash(number),
        }
    }

    /// The answer owed for an account query.
    pub open spec fn spec_basic(self, address: Address) -> Option<AccountInfo> {
        match self {
            Backend::Simple(_) => Some(AccountInfo::empty_spec()),
            Backend::Forked(inner) => inner.spec_basic(address),
        }
    }

    /// The answer owed for a code query.
    pub open spec fn spec_code_by_hash(self, hash: B256) -> Option<Seq<u8>> {
        match self {
            Backend::Simple(_) => Some(Seq::<u8>::empty()),
            Backend::Forked(inner) => inner.spec_code_by_hash(hash),
        }
    }

    /// The answer owed for a storage query.
    pub open spec fn spec_storage(self, key: SlotKey) -> Option<U256> {
        match self {
            Backend::Simple(_) => Some(U256::zero_spec()),
            Backend::Forked(inner) => inner.spec_storage(key),
        }
    }

    /// Instantiates a new backend union based on whether or not a fork
    /// was specified: no descriptor gives the blank store, a descriptor
    /// with an accepted endpoint gives forked state pinned at its block
    /// over an empty cache, and a refused endpoint is a configuration
    /// error — never a silently blank backend.
    pub fn new(fork: Option<Fork>) -> (r: Result<Backend, ConfigError>)
        ensures
            (match fork {
                Option::None => r matches Ok(b) && b is Simple,
                Option::Some(f) => {
                    if endpoint_accepted(f.url@) {
                        &&& r matches Ok(b)
                        &&& b matches Backend::Forked(inner)
                        &&& inner.wf()
                        &&& inner@.cache == CacheModel::empty_spec()
                        &&& inner@.pin_block == pin_model(f.pin_block)
                    } else {
                        r == Err::<Backend, ConfigError>(ConfigError::InvalidEndpoint)
                    }
                },
            }),
            r matches Ok(b) ==> b.wf(),
    {
        match fork {
            Some(f) => {
                match connect_provider(f.url.as_str()) {
                    Some(provider) => {
                        let pin: Option<U256> = match f.pin_block {
                            Some(v) => Some(U256::from_u64(v)),
                            None => None,
                        };
                        Ok(Backend::Forked(SharedBackend::new(provider, SharedMemCache::new(), pin)))
                    },
                    None => Err(ConfigError::InvalidEndpoint),
                }
            },
            None => Ok(Backend::Simple(EmptyDb {  })),
        }
    }

    /// Whether this is the blank local variant.
    pub fn is_simple(&self) -> (r: bool)
        ensures
            r == (self is Simple),
    {
        match self {
            Backend::Simple(_) => true,
            Backend::Forked(_) => false,
        }
    }

    /// Whether this is the forked variant.
    pub fn is_forked(&self) -> (r: bool)
        ensures
            r == (self is Forked),
    {
        match self {
            Backend::Simple(_) => false,
            Backend::Forked(_) => true,
        }
    }

    /// The canonical hash for a block number; `None` only on a forked
    /// cache miss, to be filled by a fetch.
    pub fn block_hash(&self, number: U256) -> (r: Option<B256>)
        requires
            self.wf(),
        ensures
            r == self.spec_block_hash(number),
    {
        match self {
            Backend::Simple(inner) => Some(inner.block_hash(number)),
            Backend::Forked(inner) => inner.block_hash(number),
        }
    }

    /// Account metadata for an address; `None` only on a forked cache
    /// miss.
    pub fn basic(&self, address: Address) -> (r: Option<AccountInfo>)
        requires
            self.wf(),
        ensures
            r == self.spec_basic(address),
    {
        match self {
            Backend::Simple(inner) => Some(inner.basic(address)),
            Backend::Forked(inner) => inner.basic(address),
        }
    }

    /// The bytecode under a code hash; `None` only on a forked cache
    /// miss.
    pub fn code_by_hash(&self, hash: B256) -> (r: Option<Vec<u8>>)
        requires
            self.wf(),
        ensures
            r matches Some(c) ==> self.spec_code_by_hash(hash) == Some(c@),
            r is None ==> self.spec_code_by_hash(hash) is None,
    {
        match self {
            Backend::Simple(inner) => Some(inner.code_by_hash(hash)),
            Backend::Forked(inner) => inner.code_by_hash(hash),
        }
    }

    /// One storage slot of an account; `None` only on a forked cache
    /// miss.
    pub fn storage(&self, address: Address, index: U256) -> (r: Option<U256>)
        requires
            self.wf(),
        ensures
            r == self.spec_storage(SlotKey { address, index }),
    {
        match self {
            Backend::Simple(inner) => Some(inner.storage(address, index)),
            Backend::Forked(inner) => inner.storage(address, index),
        }
    }
}

/// A blank local backend answers every query with the same inert
/// default, whatever the key: no query depends on its input and none
/// leaves state behind.
pub proof fn lemma_local_answers_uniform(
    b: Backend,
    n1: U256,
    n2: U256,
    a1: Address,
    a2: Address,
    h1: B256,
    h2: B256,
    k1: SlotKey,
    k2: SlotKey,
)
    requires
        b is Simple,
    ensures
        b.spec_block_hash(n1) == b.spec_block_hash(n2),
        b.spec_block_hash(n1) == Some(B256::zero_spec()),
        b.spec_basic(a1) == b.spec_basic(a2),
        b.spec_basic(a1) == Some(AccountInfo::empty_spec()),
        b.spec_code_by_hash(h1) == b.spec_code_by_hash(h2),
        b.spec_code_by_hash(h1) == Some(Seq::<u8>::empty()),
        b.spec_storage(k1) == b.spec_storage(k2),
        b.spec_storage(k1) == Some(U256::zero_spec()),
{
}

/// Variant selection is exclusive and total: a backend is the blank
/// store or the forked one, never both and never neither.
pub proof fn lemma_variants_exclusive(b: Backend)
    ensures
        b is Simple <==> !(b is Forked),
{
}

} // verus!
