//! Plain values shared by all programs: addresses and token balances.

use vstd::prelude::*;

verus! {

broadcast use vstd::array::axiom_array_ext_equal;

/// A 32-byte account address.
#[derive(Clone, Copy, Debug, Eq)]
pub struct Pubkey {
    pub bytes: [u8; 32],
}

impl PartialEq for Pubkey {
    fn eq(&self, other: &Self) -> (r: bool) {
        let mut i: usize = 0;
        while i < 32
            invariant
                i <= 32,
                forall|j: int| 0 <= j < i ==> self.bytes[j] == other.bytes[j],
            decreases 32 - i,
        {
            if self.bytes[i] != other.bytes[i] {
                return false;
            }
            i = i + 1;
        }
        assert(self.bytes =~= other.bytes);
        true
    }
}

impl vstd::std_specs::cmp::PartialEqSpecImpl for Pubkey {
    open spec fn obeys_eq_spec() -> bool {
        true
    }

    open spec fn eq_spec(&self, other: &Self) -> bool {
        *self == *other
    }
}

impl Pubkey {
    /// The all-zero address, used to mark a slot that has not been set.
    pub open spec fn spec_zero() -> Pubkey {
        Pubkey { bytes: vstd::array::spec_array_fill_for_copy_type::<u8, 32>(0u8) }
    }

    pub fn new(bytes: [u8; 32]) -> (key: Pubkey)
        ensures
            key.bytes == bytes,
    {
        Pubkey { bytes }
    }

    pub fn zero() -> (key: Pubkey)
        ensures
            key == Self::spec_zero(),
    {
        Pubkey { bytes: [0u8; 32] }
    }
}

/// Whether `key` occurs in `keys`.
pub fn contains_key(keys: &Vec<Pubkey>, key: Pubkey) -> (found: bool)
    ensures
        found == keys@.contains(key),
{
    let mut i: usize = 0;
    while i < keys.len()
        invariant
            i <= keys.len(),
            forall|j: int| 0 <= j < i ==> keys@[j] != key,
        decreases keys.len() - i,
    {
        if keys[i] == key {
            return true;
        }
        i = i + 1;
    }
    false
}

/// Whether an optional address is set and equal to `key`.
pub fn is_some_key(slot: Option<Pubkey>, key: Pubkey) -> (r: bool)
    ensures
        r == (slot == Some(key)),
{
    match slot {
        Some(k) => k == key,
        None => false,
    }
}

/// What the programs read of a token account: its mint, its owner and its balance.
#[derive(Clone, Copy, Debug, PartialEq, Eq)]
pub struct TokenAccount {
    pub mint: Pubkey,
    pub owner: Pubkey,
    pub amount: u64,
}

/// The cluster clock as one transaction sees it.
#[derive(Clone, Copy, Debug, PartialEq, Eq)]
pub struct Clock {
    pub slot: u64,
    pub epoch: u64,
    pub unix_timestamp: i64,
}

impl Pubkey {
    /// Whether this is the all-zero address.
    pub fn is_zero(&self) -> (r: bool)
        ensures
            r == (*self == Self::spec_zero()),
    {
        *self == Pubkey::zero()
    }
}

/// Whether every byte of a 32-byte buffer is zero.
pub open spec fn all_zero(buf: [u8; 32]) -> bool {
    forall|i: int| 0 <= i < 32 ==> buf[i] == 0
}

/// Whether every byte of a 32-byte buffer is zero.
pub fn is_all_zero(buf: &[u8; 32]) -> (r: bool)
    ensures
        r == all_zero(*buf),
{
    let mut i: usize = 0;
    while i < 32
        invariant
            i <= 32,
            forall|j: int| 0 <= j < i ==> buf[j] == 0,
        decreases 32 - i,
    {
        if buf[i] != 0 {
            return false;
        }
        i = i + 1;
    }
    true
}

/// The bytes of a text in UTF-8.
pub open spec fn text_bytes(text: Seq<char>) -> Seq<u8> {
    vstd::utf8::encode_utf8(text)
}

/// The length of a text in bytes of UTF-8.
pub open spec fn text_len(text: Seq<char>) -> usize {
    text_bytes(text).len() as usize
}

/// The length of a text in bytes.
pub fn byte_len(text: &String) -> (len: usize)
    ensures
        len == text_len(text@),
{
    text.as_str().len()
}

/// `a + b`, or `None` when the sum leaves the range of `i64`.
pub fn add_seconds(a: i64, b: i64) -> (sum: Option<i64>)
    ensures
        sum is Some <==> i64::MIN <= a + b <= i64::MAX,
        sum is Some ==> sum->0 == a + b,
{
    a.checked_add(b)
}

} // verus!
