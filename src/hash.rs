//! Block hashes and transaction ids.
//!
//! Both hold 32 bytes in the order of the bitcoin crate's `to_byte_array`. On the
//! wire Bitcoin Core sends them reversed.

use vstd::prelude::*;

use crate::text::{hex, push_hex};

verus! {

broadcast use vstd::array::group_array_axioms;

/// `s` reversed, as an array. `s` must be 32 bytes long.
pub fn reversed_array(s: &[u8]) -> (r: [u8; 32])
    requires
        s@.len() == 32,
    ensures
        r@ == s@.reverse(),
{
    let mut r: [u8; 32] = [0u8; 32];
    let mut i: usize = 0;
    while i < 32
        invariant
            s@.len() == 32,
            i <= 32,
            forall|j: int| 0 <= j < i ==> r@[j] == s@[31 - j],
        decreases 32 - i,
    {
        r[i] = s[31 - i];
        i = i + 1;
    }
    assert(r@ =~= s@.reverse());
    r
}

/// `a` reversed, appended to `out`.
pub fn push_reversed(out: &mut Vec<u8>, a: &[u8; 32])
    ensures
        final(out)@ == old(out)@ + a@.reverse(),
{
    let ghost start = out@;
    let mut i: usize = 0;
    while i < 32
        invariant
            i <= 32,
            out@ == start + a@.reverse().take(i as int),
        decreases 32 - i,
    {
        out.push(a[31 - i]);
        i = i + 1;
        assert(out@ =~= start + a@.reverse().take(i as int));
    }
    assert(a@.reverse().take(32) =~= a@.reverse());
}

/// The hash of a block.
#[derive(Debug, Clone, Copy, PartialEq, Eq, Hash)]
pub struct BlockHash(pub [u8; 32]);

/// The id of a transaction.
#[derive(Debug, Clone, Copy, PartialEq, Eq, Hash)]
pub struct Txid(pub [u8; 32]);

impl BlockHash {
    /// The text of the hash: its bytes reversed, in lowercase hexadecimal, as
    /// Bitcoin Core and the bitcoin crate show it.
    pub open spec fn text(self) -> Seq<char> {
        hex(self.bytes().reverse())
    }

    /// The text of the hash.
    pub fn to_string(&self) -> (r: String)
        ensures
            r@ == self.text(),
    {
        let mut s = String::new();
        let reversed = reversed_array(self.0.as_slice());
        push_hex(&mut s, reversed.as_slice());
        s
    }

    /// The hash's bytes, in the bitcoin crate's order.
    pub open spec fn bytes(self) -> Seq<u8> {
        self.0@
    }

    /// Makes a hash of its 32 bytes.
    pub fn from_byte_array(bytes: [u8; 32]) -> (r: Self)
        ensures
            r.bytes() == bytes@,
    {
        BlockHash(bytes)
    }

    /// The hash's 32 bytes.
    pub fn to_byte_array(self) -> (r: [u8; 32])
        ensures
            r@ == self.bytes(),
    {
        self.0
    }
}

impl Txid {
    /// The text of the hash: its bytes reversed, in lowercase hexadecimal, as
    /// Bitcoin Core and the bitcoin crate show it.
    pub open spec fn text(self) -> Seq<char> {
        hex(self.bytes().reverse())
    }

    /// The text of the hash.
    pub fn to_string(&self) -> (r: String)
        ensures
            r@ == self.text(),
    {
        let mut s = String::new();
        let reversed = reversed_array(self.0.as_slice());
        push_hex(&mut s, reversed.as_slice());
        s
    }

    /// The id's bytes, in the bitcoin crate's order.
    pub open spec fn bytes(self) -> Seq<u8> {
        self.0@
    }

    /// Makes an id of its 32 bytes.
    pub fn from_byte_array(bytes: [u8; 32]) -> (r: Self)
        ensures
            r.bytes() == bytes@,
    {
        Txid(bytes)
    }

    /// The id's 32 bytes.
    pub fn to_byte_array(self) -> (r: [u8; 32])
        ensures
            r@ == self.bytes(),
    {
        self.0
    }
}

/// Two block hashes with the same bytes are the same hash; so are two ids.
pub proof fn lemma_hash_bytes_injective()
    ensures
        forall|a: BlockHash, b: BlockHash| a.bytes() == b.bytes() ==> a == b,
        forall|a: Txid, b: Txid| a.bytes() == b.bytes() ==> a == b,
{
    assert forall|a: BlockHash, b: BlockHash| a.bytes() == b.bytes() implies a == b by {
        assert(a.0 =~= b.0);
    }
    assert forall|a: Txid, b: Txid| a.bytes() == b.bytes() implies a == b by {
        assert(a.0 =~= b.0);
    }
}

/// Reversing twice gives the sequence back.
pub proof fn lemma_reverse_reverse(s: Seq<u8>)
    ensures
        s.reverse().reverse() == s,
        s.reverse().len() == s.len(),
{
    assert(s.reverse().reverse() =~= s);
}

} // verus!
