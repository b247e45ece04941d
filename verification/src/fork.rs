//! Forked state: the fork descriptor and the fetch-through backend that
//! answers queries from the shared cache, pinned at a block.

use vstd::prelude::*;

use crate::mem_cache::{CacheModel, SharedMemCache};
use crate::types::{u256_val, AccountInfo, Address, B256, SlotKey, U256};
use ethers::providers::{Http, Provider};

verus! {

/// Descriptor of a remote state source: the node endpoint and an
/// optional block to pin queries at. Pure data; the endpoint is checked
/// when a backend is built from it, not here.
#[derive(Clone, Debug)]
pub struct Fork {
    /// The URL to a node for fetching remote state
    pub url: String,
    /// The block to fork against
    pub pin_block: Option<u64>,
}

/// The mathematical content of a forked backend: the cached bindings and
/// the pinned block.
pub struct ForkModel {
    pub cache: CacheModel,
    pub pin_block: Option<U256>,
}

/// The fetch-through collaborator behind forked state: a remote client
/// handle, the shared in-memory cache, and the pinned block. Queries
/// answer from the cache alone; whoever performs the remote fetches
/// records their results through the insert operations, and a recorded
/// binding is never overwritten.
pub struct SharedBackend {
    provider: Provider<Http>,
    cache: SharedMemCache,
    pin_block: Option<U256>,
}

impl View for SharedBackend {
    type V = ForkModel;

    closed spec fn view(&self) -> ForkModel {
        ForkModel { cache: self.cache@, pin_block: self.pin_block }
    }
}

impl SharedBackend {
    /// The cache keeps its keys unique.
    pub closed spec fn wf(&self) -> bool {
        self.cache.wf()
    }

    /// A block number past the pin. Such a block is never queried
    /// remotely; its hash is answered as the zero hash.
    pub open spec fn beyond_pin(self, number: U256) -> bool {
        self@.pin_block matches Some(p) && u256_val(number) > u256_val(p)
    }

    /// The answer a forked backend owes for a block-hash query.
    pub open spec fn spec_block_hash(self, number: U256) -> Option<B256> {
        if self.beyond_pin(number) {
            Some(B256::zero_spec())
        } else if self@.cache.block_hashes.dom().contains(number) {
            Some(self@.cache.block_hashes[number])
        } else {
            None
        }
    }

    /// The answer a forked backend owes for an account query.
    pub open spec fn spec_basic(self, address: Address) -> Option<AccountInfo> {
        if self@.cache.accounts.dom().contains(address) {
            Some(self@.cache.accounts[address])
        } else {
            None
        }
    }

    /// The answer a forked backend owes for a code query.
    pub open spec fn spec_code_by_hash(self, hash: B256) -> Option<Seq<u8>> {
        if self@.cache.code.dom().contains(hash) {
            Some(self@.cache.code[hash])
        } else {
            None
        }
    }

    /// The answer a forked backend owes for a storage query.
    pub open spec fn spec_storage(self, key: SlotKey) -> Option<U256> {
        if self@.cache.storage.dom().contains(key) {
            Some(self@.cache.storage[key])
        } else {
            None
        }
    }

    /// Wires a fetch-through backend from a remote client handle, a
    /// cache store, and an optional pinned block.
    pub fn new(provider: Provider<Http>, cache: SharedMemCache, pin_block: Option<U256>) -> (r:
        SharedBackend)
        requires
            cache.wf(),
        ensures
            r.wf(),
            r@ == (ForkModel { cache: cache@, pin_block }),
    {
        SharedBackend { provider, cache, pin_block }
    }

    /// The remote client handle, for whoever performs the fetches.
    pub fn provider(&self) -> &Provider<Http> {
        &self.provider
    }

    /// The pinned block, if the fork was pinned.
    pub fn pin_block(&self) -> (r: &Option<U256>)
        ensures
            *r == self@.pin_block,
    {
        &self.pin_block
    }

    /// The cached hash of a block at or under the pin; the zero hash
    /// past the pin; nothing on a cache miss.
    pub fn block_hash(&self, number: U256) -> (r: Option<B256>)
        requires
            self.wf(),
        ensures
            r == self.spec_block_hash(number),
    {
        match &self.pin_block {
            Some(p) => {
                if !number.le(p) {
                    return Some(B256::zero());
                }
            },
            None => {},
        }
        self.cache.get_block_hash(number)
    }

    /// The cached record of an account; nothing on a cache miss.
    pub fn basic(&self, address: Address) -> (r: Option<AccountInfo>)
        requires
            self.wf(),
        ensures
            r == self.spec_basic(address),
    {
        self.cache.get_account(address)
    }

    /// The cached code under a code hash; nothing on a cache miss.
    pub fn code_by_hash(&self, hash: B256) -> (r: Option<Vec<u8>>)
        requires
            self.wf(),
        ensures
            r matches Some(c) ==> self.spec_code_by_hash(hash) == Some(c@),
            r is None ==> self.spec_code_by_hash(hash) is None,
    {
        self.cache.get_code(hash)
    }

    /// The cached value of a storage slot; nothing on a cache miss.
    pub fn storage(&self, address: Address, index: U256) -> (r: Option<U256>)
        requires
            self.wf(),
        ensures
            r == self.spec_storage(SlotKey { address, index }),
    {
        self.cache.get_storage(SlotKey { address, index })
    }

    /// Records a fetched account record; an address already cached is
    /// left as it is.
    pub fn insert_account(&mut self, address: Address, info: AccountInfo)
        requires
            old(self).wf(),
        ensures
            final(self).wf(),
            final(self)@.pin_block == old(self)@.pin_block,
            old(self)@.cache.submodel_of(final(self)@.cache),
            final(self)@.cache.accounts.dom().contains(address),
            old(self)@.cache.accounts.dom().contains(address) ==> final(self)@.cache.accounts
                == old(self)@.cache.accounts,
            !old(self)@.cache.accounts.dom().contains(address) ==> final(self)@.cache.accounts
                == old(self)@.cache.accounts.insert(address, info),
            final(self)@.cache.storage == old(self)@.cache.storage,
            final(self)@.cache.code == old(self)@.cache.code,
            final(self)@.cache.block_hashes == old(self)@.cache.block_hashes,
    {
        self.cache.insert_account(address, info);
    }

    /// Records a fetched storage value; a slot already cached is left
    /// as it is.
    pub fn insert_storage(&mut self, address: Address, index: U256, value: U256)
        requires
            old(self).wf(),
        ensures
            final(self).wf(),
            final(self)@.pin_block == old(self)@.pin_block,
            old(self)@.cache.submodel_of(final(self)@.cache),
            final(self)@.cache.storage.dom().contains((SlotKey { address, index })),
            old(self)@.cache.storage.dom().contains((SlotKey { address, index }))
                ==> final(self)@.cache.storage == old(self)@.cache.storage,
            !old(self)@.cache.storage.dom().contains((SlotKey { address, index }))
                ==> final(self)@.cache.storage == old(self)@.cache.storage.insert(
                (SlotKey { address, index }),
                value,
            ),
            final(self)@.cache.accounts == old(self)@.cache.accounts,
            final(self)@.cache.code == old(self)@.cache.code,
            final(self)@.cache.block_hashes == old(self)@.cache.block_hashes,
    {
        self.cache.insert_storage(SlotKey { address, index }, value);
    }

    /// Records fetched code; a hash already cached is left as it is.
    pub fn insert_code(&mut self, hash: B256, code: Vec<u8>)
        requires
            old(self).wf(),
        ensures
            final(self).wf(),
            final(self)@.pin_block == old(self)@.pin_block,
            old(self)@.cache.submodel_of(final(self)@.cache),
            final(self)@.cache.code.dom().contains(hash),
            old(self)@.cache.code.dom().contains(hash) ==> final(self)@.cache.code
                == old(self)@.cache.code,
            !old(self)@.cache.code.dom().contains(hash)
                ==> final(self)@.cache.code == old(self)@.cache.code.insert(hash, code@),
            final(self)@.cache.accounts == old(self)@.cache.accounts,
            final(self)@.cache.storage == old(self)@.cache.storage,
            final(self)@.cache.block_hashes == old(self)@.cache.block_hashes,
    {
        self.cache.insert_code(hash, code);
    }

    /// Records a fetched block hash; a number already cached is left as
    /// it is.
    pub fn insert_block_hash(&mut self, number: U256, hash: B256)
        requires
            old(self).wf(),
        ensures
            final(self).wf(),
            final(self)@.pin_block == old(self)@.pin_block,
            old(self)@.cache.submodel_of(final(self)@.cache),
            final(self)@.cache.block_hashes.dom().contains(number),
            old(self)@.cache.block_hashes.dom().contains(number) ==> final(self)@.cache.block_hashes
                == old(self)@.cache.block_hashes,
            !old(self)@.cache.block_hashes.dom().contains(number)
                ==> final(self)@.cache.block_hashes == old(self)@.cache.block_hashes.insert(
                number,
                hash,
            ),
            final(self)@.cache.accounts == old(self)@.cache.accounts,
            final(self)@.cache.storage == old(self)@.cache.storage,
            final(self)@.cache.code == old(self)@.cache.code,
    {
        self.cache.insert_block_hash(number, hash);
    }
}

/// Point-in-time consistency of forked state: cache fills never
/// overwrite a binding and the pin never moves, so once a forked
/// backend owes a value for a key, it owes that same value after any
/// further fills. Queries take the backend immutably, so within one
/// state repeated queries for one key are equal outright.
pub proof fn lemma_forked_answers_stable(pre: SharedBackend, post: SharedBackend)
    requires
        pre@.pin_block == post@.pin_block,
        pre@.cache.submodel_of(post@.cache),
    ensures
        forall|n: U256| #[trigger] pre.spec_block_hash(n) is Some ==> post.spec_block_hash(n)
            == pre.spec_block_hash(n),
        forall|a: Address| #[trigger] pre.spec_basic(a) is Some ==> post.spec_basic(a)
            == pre.spec_basic(a),
        forall|h: B256| #[trigger] pre.spec_code_by_hash(h) is Some ==> post.spec_code_by_hash(h)
            == pre.spec_code_by_hash(h),
        forall|k: SlotKey| #[trigger] pre.spec_storage(k) is Some ==> post.spec_storage(k)
            == pre.spec_storage(k),
{
    assert forall|n: U256| #[trigger] pre.spec_block_hash(n) is Some implies post.spec_block_hash(
        n,
    ) == pre.spec_block_hash(n) by {
        if !pre.beyond_pin(n) && pre@.cache.block_hashes.dom().contains(n) {
            assert(post@.cache.block_hashes.dom().contains(n) && post@.cache.block_hashes[n]
                == pre@.cache.block_hashes[n]);
        }
    }
    assert forall|a: Address| #[trigger] pre.spec_basic(a) is Some implies post.spec_basic(a)
        == pre.spec_basic(a) by {
        assert(post@.cache.accounts.dom().contains(a) && post@.cache.accounts[a]
            == pre@.cache.accounts[a]);
    }
    assert forall|h: B256| #[trigger] pre.spec_code_by_hash(h) is Some implies post.spec_code_by_hash(
        h,
    ) == pre.spec_code_by_hash(h) by {
        assert(post@.cache.code.dom().contains(h) && post@.cache.code[h] == pre@.cache.code[h]);
    }
    assert forall|k: SlotKey| #[trigger] pre.spec_storage(k) is Some implies post.spec_storage(k)
        == pre.spec_storage(k) by {
        assert(post@.cache.storage.dom().contains(k) && post@.cache.storage[k]
            == pre@.cache.storage[k]);
    }
}

} // verus!
