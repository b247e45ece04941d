//! Plain-value chain types: addresses, 256-bit words, hashes, and the
//! account record that state queries answer with.

use vstd::prelude::*;

verus! {

/// A 256-bit unsigned word, four 64-bit limbs, most significant first.
#[derive(Clone, Copy, PartialEq, Eq, Structural, Debug)]
pub struct U256 {
    pub limb3: u64,
    pub limb2: u64,
    pub limb1: u64,
    pub limb0: u64,
}

/// The numeric value of a 256-bit word.
pub open spec fn u256_val(a: U256) -> int {
    a.limb3 * 0x1000000000000000000000000000000000000000000000000
        + a.limb2 * 0x100000000000000000000000000000000
        + a.limb1 * 0x10000000000000000 + a.limb0
}

/// The low 192 bits of a word, as a number.
pub open spec fn u256_low192(a: U256) -> int {
    a.limb2 * 0x100000000000000000000000000000000 + a.limb1 * 0x10000000000000000 + a.limb0
}

/// Limbwise comparison agrees with the numeric value.
pub proof fn lemma_u256_cmp(a: U256, b: U256)
    ensures
        a.limb3 < b.limb3 ==> u256_val(a) < u256_val(b),
        a.limb3 == b.limb3 && a.limb2 < b.limb2 ==> u256_val(a) < u256_val(b),
        a.limb3 == b.limb3 && a.limb2 == b.limb2 && a.limb1 < b.limb1 ==> u256_val(a)
            < u256_val(b),
        a.limb3 == b.limb3 && a.limb2 == b.limb2 && a.limb1 == b.limb1 ==> (u256_val(a) <= u256_val(
            b,
        ) <==> a.limb0 <= b.limb0),
{
    assert(0 <= u256_low192(a) < 0x1000000000000000000000000000000000000000000000000);
    assert(0 <= u256_low192(b) < 0x1000000000000000000000000000000000000000000000000);
    assert(0 <= a.limb1 * 0x10000000000000000 + a.limb0 < 0x100000000000000000000000000000000);
    assert(0 <= b.limb1 * 0x10000000000000000 + b.limb0 < 0x100000000000000000000000000000000);
}

impl U256 {
    /// The zero word.
    pub open spec fn zero_spec() -> U256 {
        U256 { limb3: 0, limb2: 0, limb1: 0, limb0: 0 }
    }

    /// Builds the zero word.
    pub fn zero() -> (r: U256)
        ensures
            r == U256::zero_spec(),
    {
        U256 { limb3: 0, limb2: 0, limb1: 0, limb0: 0 }
    }

    /// The word holding a 64-bit number.
    pub open spec fn from_u64_spec(v: u64) -> U256 {
        U256 { limb3: 0, limb2: 0, limb1: 0, limb0: v }
    }

    /// Widens a 64-bit number into a word.
    pub fn from_u64(v: u64) -> (r: U256)
        ensures
            r == U256::from_u64_spec(v),
            u256_val(r) == v,
    {
        U256 { limb3: 0, limb2: 0, limb1: 0, limb0: v }
    }

    /// Numeric less-or-equal on words.
    pub fn le(&self, other: &U256) -> (r: bool)
        ensures
            r == (u256_val(*self) <= u256_val(*other)),
    {
        proof {
            lemma_u256_cmp(*self, *other);
            lemma_u256_cmp(*other, *self);
        }
        if self.limb3 != other.limb3 {
            self.limb3 < other.limb3
        } else if self.limb2 != other.limb2 {
            self.limb2 < other.limb2
        } else if self.limb1 != other.limb1 {
            self.limb1 < other.limb1
        } else {
            self.limb0 <= other.limb0
        }
    }
}

/// A 256-bit hash, four 64-bit limbs, most significant first.
#[derive(Clone, Copy, PartialEq, Eq, Structural, Debug)]
pub struct B256 {
    pub limb3: u64,
    pub limb2: u64,
    pub limb1: u64,
    pub limb0: u64,
}

impl B256 {
    /// The all-zero hash.
    pub open spec fn zero_spec() -> B256 {
        B256 { limb3: 0, limb2: 0, limb1: 0, limb0: 0 }
    }

    /// Builds the all-zero hash.
    pub fn zero() -> (r: B256)
        ensures
            r == B256::zero_spec(),
    {
        B256 { limb3: 0, limb2: 0, limb1: 0, limb0: 0 }
    }
}

/// A 160-bit account address: 32 high bits, then two 64-bit limbs.
#[derive(Clone, Copy, PartialEq, Eq, Structural, Debug)]
pub struct Address {
    pub hi: u32,
    pub mid: u64,
    pub lo: u64,
}

impl Address {
    /// The zero address.
    pub open spec fn zero_spec() -> Address {
        Address { hi: 0, mid: 0, lo: 0 }
    }

    /// Builds the zero address.
    pub fn zero() -> (r: Address)
        ensures
            r == Address::zero_spec(),
    {
        Address { hi: 0, mid: 0, lo: 0 }
    }
}

/// Account metadata: balance, nonce, and the hash of the account's code.
/// The code itself is answered separately, keyed by that hash.
#[derive(Clone, Copy, PartialEq, Eq, Structural, Debug)]
pub struct AccountInfo {
    pub balance: U256,
    pub nonce: u64,
    pub code_hash: B256,
}

impl AccountInfo {
    /// The empty account: zero balance, zero nonce, the zero code hash
    /// (which stands for "no code" in this store).
    pub open spec fn empty_spec() -> AccountInfo {
        AccountInfo { balance: U256::zero_spec(), nonce: 0, code_hash: B256::zero_spec() }
    }

    /// Builds the empty account record.
    pub fn empty() -> (r: AccountInfo)
        ensures
            r == AccountInfo::empty_spec(),
    {
        AccountInfo { balance: U256::zero(), nonce: 0, code_hash: B256::zero() }
    }
}

/// The key of one storage slot: the owning account and the slot index.
#[derive(Clone, Copy, PartialEq, Eq, Structural, Debug)]
pub struct SlotKey {
    pub address: Address,
    pub index: U256,
}

} // verus!
