//! The shared in-memory store behind the forked backend: four key/value
//! stores (accounts, storage slots, code, block hashes) kept as entry
//! lists with unique keys, modelled as maps.

use vstd::prelude::*;

use crate::types::{AccountInfo, Address, B256, SlotKey, U256};

verus! {

/// The map held by a sequence of key/value entries.
pub open spec fn entries_map<K, V>(s: Seq<(K, V)>) -> Map<K, V>
    decreases s.len(),
{
    if s.len() == 0 {
        Map::empty()
    } else {
        entries_map(s.drop_last()).insert(s.last().0, s.last().1)
    }
}

/// The map held by a sequence of code entries, each value seen as a
/// byte sequence.
pub open spec fn code_entries_map(s: Seq<(B256, Vec<u8>)>) -> Map<B256, Seq<u8>>
    decreases s.len(),
{
    if s.len() == 0 {
        Map::empty()
    } else {
        code_entries_map(s.drop_last()).insert(s.last().0, s.last().1@)
    }
}

/// No key occurs twice among the entries.
pub open spec fn keys_unique<K, V>(s: Seq<(K, V)>) -> bool {
    forall|i: int, j: int|
        0 <= i < j < s.len() ==> (#[trigger] s[i]).0 != (#[trigger] s[j]).0
}

/// A key is in the entries' map exactly when some entry holds it.
pub proof fn lemma_entries_map_dom<K, V>(s: Seq<(K, V)>, k: K)
    ensures
        entries_map(s).dom().contains(k) <==> exists|i: int|
            0 <= i < s.len() && (#[trigger] s[i]).0 == k,
    decreases s.len(),
{
    if s.len() == 0 {
    } else {
        lemma_entries_map_dom(s.drop_last(), k);
        if s.last().0 == k {
            assert((s[s.len() - 1]).0 == k);
        } else {
            if exists|i: int| 0 <= i < s.len() && (#[trigger] s[i]).0 == k {
                let i = choose|i: int| 0 <= i < s.len() && (#[trigger] s[i]).0 == k;
                assert(i < s.len() - 1);
                assert((s.drop_last()[i]).0 == k);
            }
            if exists|i: int| 0 <= i < s.drop_last().len() && (#[trigger] s.drop_last()[i]).0
                == k {
                let i = choose|i: int|
                    0 <= i < s.drop_last().len() && (#[trigger] s.drop_last()[i]).0 == k;
                assert((s[i]).0 == k);
            }
        }
    }
}

/// Same, for the code entries.
pub proof fn lemma_code_entries_map_dom(s: Seq<(B256, Vec<u8>)>, k: B256)
    ensures
        code_entries_map(s).dom().contains(k) <==> exists|i: int|
            0 <= i < s.len() && (#[trigger] s[i]).0 == k,
    decreases s.len(),
{
    if s.len() == 0 {
    } else {
        lemma_code_entries_map_dom(s.drop_last(), k);
        if s.last().0 == k {
            assert((s[s.len() - 1]).0 == k);
        } else {
            if exists|i: int| 0 <= i < s.len() && (#[trigger] s[i]).0 == k {
                let i = choose|i: int| 0 <= i < s.len() && (#[trigger] s[i]).0 == k;
                assert(i < s.len() - 1);
                assert((s.drop_last()[i]).0 == k);
            }
            if exists|i: int| 0 <= i < s.drop_last().len() && (#[trigger] s.drop_last()[i]).0
                == k {
                let i = choose|i: int|
                    0 <= i < s.drop_last().len() && (#[trigger] s.drop_last()[i]).0 == k;
                assert((s[i]).0 == k);
            }
        }
    }
}

/// Uniqueness restricts to a prefix of the entries.
proof fn lemma_keys_unique_drop_last<K, V>(s: Seq<(K, V)>)
    requires
        keys_unique(s),
        s.len() > 0,
    ensures
        keys_unique(s.drop_last()),
{
    assert forall|i: int, j: int| 0 <= i < j < s.drop_last().len() implies (#[trigger] s.drop_last()[i]).0
        != (#[trigger] s.drop_last()[j]).0 by {
        assert(s.drop_last()[i] == s[i]);
        assert(s.drop_last()[j] == s[j]);
    }
}

/// With unique keys, the entry at an index gives the map's value at its key.
pub proof fn lemma_entries_map_index<K, V>(s: Seq<(K, V)>, i: int)
    requires
        keys_unique(s),
        0 <= i < s.len(),
    ensures
        entries_map(s).dom().contains((s[i]).0),
        entries_map(s)[(s[i]).0] == (s[i]).1,
    decreases s.len(),
{
    if i == s.len() - 1 {
    } else {
        lemma_keys_unique_drop_last(s);
        lemma_entries_map_index(s.drop_last(), i);
        assert(s.drop_last()[i] == s[i]);
        assert((s[i]).0 != (s[s.len() - 1]).0);
    }
}

/// Same, for the code entries.
pub proof fn lemma_code_entries_map_index(s: Seq<(B256, Vec<u8>)>, i: int)
    requires
        keys_unique(s),
        0 <= i < s.len(),
    ensures
        code_entries_map(s).dom().contains((s[i]).0),
        code_entries_map(s)[(s[i]).0] == (s[i]).1@,
    decreases s.len(),
{
    if i == s.len() - 1 {
    } else {
        lemma_keys_unique_drop_last(s);
        lemma_code_entries_map_index(s.drop_last(), i);
        assert(s.drop_last()[i] == s[i]);
        assert((s[i]).0 != (s[s.len() - 1]).0);
    }
}

/// Appending an entry inserts its binding into the map.
pub proof fn lemma_entries_map_push<K, V>(s: Seq<(K, V)>, k: K, v: V)
    ensures
        entries_map(s.push((k, v))) == entries_map(s).insert(k, v),
{
    assert(s.push((k, v)).drop_last() =~= s);
    assert(s.push((k, v)).last() == (k, v));
}

/// Same, for the code entries.
pub proof fn lemma_code_entries_map_push(s: Seq<(B256, Vec<u8>)>, k: B256, v: Vec<u8>)
    ensures
        code_entries_map(s.push((k, v))) == code_entries_map(s).insert(k, v@),
{
    assert(s.push((k, v)).drop_last() =~= s);
    assert(s.push((k, v)).last() == (k, v));
}

/// Appending a fresh key keeps the keys unique.
pub proof fn lemma_keys_unique_push<K, V>(s: Seq<(K, V)>, k: K, v: V)
    requires
        keys_unique(s),
        forall|i: int| 0 <= i < s.len() ==> (#[trigger] s[i]).0 != k,
    ensures
        keys_unique(s.push((k, v))),
{
    let t = s.push((k, v));
    assert forall|i: int, j: int| 0 <= i < j < t.len() implies (#[trigger] t[i]).0
        != (#[trigger] t[j]).0 by {
        if j < s.len() {
            assert(t[i] == s[i]);
            assert(t[j] == s[j]);
        } else {
            assert(t[i] == s[i]);
            assert(t[j] == (k, v));
        }
    }
}

/// The mathematical content of the cache: one map per query kind.
pub struct CacheModel {
    pub accounts: Map<Address, AccountInfo>,
    pub storage: Map<SlotKey, U256>,
    pub code: Map<B256, Seq<u8>>,
    pub block_hashes: Map<U256, B256>,
}

impl CacheModel {
    /// The empty cache.
    pub open spec fn empty_spec() -> CacheModel {
        CacheModel {
            accounts: Map::empty(),
            storage: Map::empty(),
            code: Map::empty(),
            block_hashes: Map::empty(),
        }
    }

    /// Every binding of `self` also stands in `other`.
    pub open spec fn submodel_of(self, other: CacheModel) -> bool {
        &&& self.accounts.submap_of(other.accounts)
        &&& self.storage.submap_of(other.storage)
        &&& self.code.submap_of(other.code)
        &&& self.block_hashes.submap_of(other.block_hashes)
    }
}

/// The shared in-memory state store, filled by whoever performs the
/// remote fetches and read by the forked backend's queries.
pub struct SharedMemCache {
    accounts: Vec<(Address, AccountInfo)>,
    storage: Vec<(SlotKey, U256)>,
    code: Vec<(B256, Vec<u8>)>,
    block_hashes: Vec<(U256, B256)>,
}

impl View for SharedMemCache {
    type V = CacheModel;

    closed spec fn view(&self) -> CacheModel {
        CacheModel {
            accounts: entries_map(self.accounts@),
            storage: entries_map(self.storage@),
            code: code_entries_map(self.code@),
            block_hashes: entries_map(self.block_hashes@),
        }
    }
}

/// Finds the entry holding an address, if any.
fn find_account(entries: &Vec<(Address, AccountInfo)>, address: Address) -> (r: Option<usize>)
    ensures
        match r {
            Some(i) => i < entries@.len() && (entries@[i as int]).0 == address,
            None => forall|i: int| 0 <= i < entries@.len() ==> (#[trigger] entries@[i]).0 != address,
        },
{
    let n = entries.len();
    let mut idx: usize = 0;
    while idx < n
        invariant
            n == entries@.len(),
            idx <= n,
            forall|i: int| 0 <= i < idx ==> (#[trigger] entries@[i]).0 != address,
        decreases n - idx,
    {
        if entries[idx].0 == address {
            return Some(idx);
        }
        idx = idx + 1;
    }
    None
}

/// Finds the entry holding a slot key, if any.
fn find_slot(entries: &Vec<(SlotKey, U256)>, key: SlotKey) -> (r: Option<usize>)
    ensures
        match r {
            Some(i) => i < entries@.len() && (entries@[i as int]).0 == key,
            None => forall|i: int| 0 <= i < entries@.len() ==> (#[trigger] entries@[i]).0 != key,
        },
{
    let n = entries.len();
    let mut idx: usize = 0;
    while idx < n
        invariant
            n == entries@.len(),
            idx <= n,
            forall|i: int| 0 <= i < idx ==> (#[trigger] entries@[i]).0 != key,
        decreases n - idx,
    {
        if entries[idx].0 == key {
            return Some(idx);
        }
        idx = idx + 1;
    }
    None
}

/// Finds the entry holding a code hash, if any.
fn find_code(entries: &Vec<(B256, Vec<u8>)>, hash: B256) -> (r: Option<usize>)
    ensures
        match r {
            Some(i) => i < entries@.len() && (entries@[i as int]).0 == hash,
            None => forall|i: int| 0 <= i < entries@.len() ==> (#[trigger] entries@[i]).0 != hash,
        },
{
    let n = entries.len();
    let mut idx: usize = 0;
    while idx < n
        invariant
            n == entries@.len(),
            idx <= n,
            forall|i: int| 0 <= i < idx ==> (#[trigger] entries@[i]).0 != hash,
        decreases n - idx,
    {
        if entries[idx].0 == hash {
            return Some(idx);
        }
        idx = idx + 1;
    }
    None
}

/// Finds the entry holding a block number, if any.
fn find_block_hash(entries: &Vec<(U256, B256)>, number: U256) -> (r: Option<usize>)
    ensures
        match r {
            Some(i) => i < entries@.len() && (entries@[i as int]).0 == number,
            None => forall|i: int| 0 <= i < entries@.len() ==> (#[trigger] entries@[i]).0 != number,
        },
{
    let n = entries.len();
    let mut idx: usize = 0;
    while idx < n
        invariant
            n == entries@.len(),
            idx <= n,
            forall|i: int| 0 <= i < idx ==> (#[trigger] entries@[i]).0 != number,
        decreases n - idx,
    {
        if entries[idx].0 == number {
            return Some(idx);
        }
        idx = idx + 1;
    }
    None
}

/// Copies a byte vector.
fn copy_bytes(src: &Vec<u8>) -> (r: Vec<u8>)
    ensures
        r@ == src@,
{
    let n = src.len();
    let mut out: Vec<u8> = Vec::new();
    let mut idx: usize = 0;
    while idx < n
        invariant
            n == src@.len(),
            idx <= n,
            out@ == src@.subrange(0, idx as int),
        decreases n - idx,
    {
        out.push(src[idx]);
        proof {
            assert(out@ =~= src@.subrange(0, idx + 1));
        }
        idx = idx + 1;
    }
    proof {
        assert(src@.subrange(0, n as int) =~= src@);
    }
    out
}

impl SharedMemCache {
    /// Keys are unique in every store, so each store is its map.
    pub closed spec fn wf(&self) -> bool {
        &&& keys_unique(self.accounts@)
        &&& keys_unique(self.storage@)
        &&& keys_unique(self.code@)
        &&& keys_unique(self.block_hashes@)
    }

    /// Builds an empty cache.
    pub fn new() -> (r: SharedMemCache)
        ensures
            r.wf(),
            r@ == CacheModel::empty_spec(),
    {
        SharedMemCache {
            accounts: Vec::new(),
            storage: Vec::new(),
            code: Vec::new(),
            block_hashes: Vec::new(),
        }
    }

    /// The cached record of an account, if one is cached.
    pub fn get_account(&self, address: Address) -> (r: Option<AccountInfo>)
        requires
            self.wf(),
        ensures
            match r {
                Some(info) => self@.accounts.dom().contains(address) && info
                    == self@.accounts[address],
                None => !self@.accounts.dom().contains(address),
            },
    {
        match find_account(&self.accounts, address) {
            Some(i) => {
                proof {
                    lemma_entries_map_index(self.accounts@, i as int);
                }
                Some(self.accounts[i].1)
            },
            None => {
                proof {
                    lemma_entries_map_dom(self.accounts@, address);
                }
                None
            },
        }
    }

    /// The cached value of a storage slot, if one is cached.
    pub fn get_storage(&self, key: SlotKey) -> (r: Option<U256>)
        requires
            self.wf(),
        ensures
            match r {
                Some(value) => self@.storage.dom().contains(key) && value == self@.storage[key],
                None => !self@.storage.dom().contains(key),
            },
    {
        match find_slot(&self.storage, key) {
            Some(i) => {
                proof {
                    lemma_entries_map_index(self.storage@, i as int);
                }
                Some(self.storage[i].1)
            },
            None => {
                proof {
                    lemma_entries_map_dom(self.storage@, key);
                }
                None
            },
        }
    }

    /// The cached code under a code hash, if any is cached.
    pub fn get_code(&self, hash: B256) -> (r: Option<Vec<u8>>)
        requires
            self.wf(),
        ensures
            match r {
                Some(code) => self@.code.dom().contains(hash) && code@ == self@.code[hash],
                None => !self@.code.dom().contains(hash),
            },
    {
        match find_code(&self.code, hash) {
            Some(i) => {
                proof {
                    lemma_code_entries_map_index(self.code@, i as int);
                }
                Some(copy_bytes(&self.code[i].1))
            },
            None => {
                proof {
                    lemma_code_entries_map_dom(self.code@, hash);
                }
                None
            },
        }
    }

    /// The cached hash of a block number, if one is cached.
    pub fn get_block_hash(&self, number: U256) -> (r: Option<B256>)
        requires
            self.wf(),
        ensures
            match r {
                Some(hash) => self@.block_hashes.dom().contains(number) && hash
                    == self@.block_hashes[number],
                None => !self@.block_hashes.dom().contains(number),
            },
    {
        match find_block_hash(&self.block_hashes, number) {
            Some(i) => {
                proof {
                    lemma_entries_map_index(self.block_hashes@, i as int);
                }
                Some(self.block_hashes[i].1)
            },
            None => {
                proof {
                    lemma_entries_map_dom(self.block_hashes@, number);
                }
                None
            },
        }
    }

    /// Caches an account record. The first cached record for an address
    /// wins: a later insert under the same address changes nothing.
    pub fn insert_account(&mut self, address: Address, info: AccountInfo)
        requires
            old(self).wf(),
        ensures
            final(self).wf(),
            old(self)@.accounts.dom().contains(address) ==> final(self)@ == old(self)@,
            !old(self)@.accounts.dom().contains(address) ==> final(self)@ == (CacheModel {
                accounts: old(self)@.accounts.insert(address, info),
                storage: old(self)@.storage,
                code: old(self)@.code,
                block_hashes: old(self)@.block_hashes,
            }),
            old(self)@.submodel_of(final(self)@),
    {
        match find_account(&self.accounts, address) {
            Some(i) => {
                proof {
                    assert(0 <= i < self.accounts@.len() && (self.accounts@[i as int]).0
                        == address);
                    lemma_entries_map_dom(self.accounts@, address);
                }
            },
            None => {
                proof {
                    lemma_entries_map_dom(self.accounts@, address);
                    lemma_keys_unique_push(self.accounts@, address, info);
                    lemma_entries_map_push(self.accounts@, address, info);
                }
                self.accounts.push((address, info));
            },
        }
    }

    /// Caches a storage slot value, first value winning.
    pub fn insert_storage(&mut self, key: SlotKey, value: U256)
        requires
            old(self).wf(),
        ensures
            final(self).wf(),
            old(self)@.storage.dom().contains(key) ==> final(self)@ == old(self)@,
            !old(self)@.storage.dom().contains(key) ==> final(self)@ == (CacheModel {
                accounts: old(self)@.accounts,
                storage: old(self)@.storage.insert(key, value),
                code: old(self)@.code,
                block_hashes: old(self)@.block_hashes,
            }),
            old(self)@.submodel_of(final(self)@),
    {
        match find_slot(&self.storage, key) {
            Some(i) => {
                proof {
                    assert(0 <= i < self.storage@.len() && (self.storage@[i as int]).0 == key);
                    lemma_entries_map_dom(self.storage@, key);
                }
            },
            None => {
                proof {
                    lemma_entries_map_dom(self.storage@, key);
                    lemma_keys_unique_push(self.storage@, key, value);
                    lemma_entries_map_push(self.storage@, key, value);
                }
                self.storage.push((key, value));
            },
        }
    }

    /// Caches the code under a code hash, first value winning.
    pub fn insert_code(&mut self, hash: B256, code: Vec<u8>)
        requires
            old(self).wf(),
        ensures
            final(self).wf(),
            old(self)@.code.dom().contains(hash) ==> final(self)@ == old(self)@,
            !old(self)@.code.dom().contains(hash) ==> final(self)@ == (CacheModel {
                accounts: old(self)@.accounts,
                storage: old(self)@.storage,
                code: old(self)@.code.insert(hash, code@),
                block_hashes: old(self)@.block_hashes,
            }),
            old(self)@.submodel_of(final(self)@),
    {
        match find_code(&self.code, hash) {
            Some(i) => {
                proof {
                    assert(0 <= i < self.code@.len() && (self.code@[i as int]).0 == hash);
                    lemma_code_entries_map_dom(self.code@, hash);
                }
            },
            None => {
                proof {
                    lemma_code_entries_map_dom(self.code@, hash);
                    lemma_keys_unique_push(self.code@, hash, code);
                    lemma_code_entries_map_push(self.code@, hash, code);
                }
                self.code.push((hash, code));
            },
        }
    }

    /// Caches the hash of a block number, first value winning.
    pub fn insert_block_hash(&mut self, number: U256, hash: B256)
        requires
            old(self).wf(),
        ensures
            final(self).wf(),
            old(self)@.block_hashes.dom().contains(number) ==> final(self)@ == old(self)@,
            !old(self)@.block_hashes.dom().contains(number) ==> final(self)@ == (CacheModel {
                accounts: old(self)@.accounts,
                storage: old(self)@.storage,
                code: old(self)@.code,
                block_hashes: old(self)@.block_hashes.insert(number, hash),
            }),
            old(self)@.submodel_of(final(self)@),
    {
        match find_block_hash(&self.block_hashes, number) {
            Some(i) => {
                proof {
                    assert(0 <= i < self.block_hashes@.len() && (self.block_hashes@[i as int]).0
                        == number);
                    lemma_entries_map_dom(self.block_hashes@, number);
                }
            },
            None => {
                proof {
                    lemma_entries_map_dom(self.block_hashes@, number);
                    lemma_keys_unique_push(self.block_hashes@, number, hash);
                    lemma_entries_map_push(self.block_hashes@, number, hash);
                }
                self.block_hashes.push((number, hash));
            },
        }
    }
}

impl Default for SharedMemCache {
    /// Builds an empty cache.
    fn default() -> (r: SharedMemCache)
        ensures
            r.wf(),
            r@ == CacheModel::empty_spec(),
    {
        SharedMemCache::new()
    }
}

} // verus!
