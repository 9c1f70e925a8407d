//! Order ids and priority keys of a limit-order book.
//!
//! A priority key is 16 bytes: a price word followed by an order id, both big
//! endian, so that ordering keys byte by byte orders orders by price first
//! and by id second.

use vstd::prelude::*;

verus! {

/// The id of a limit order.
#[derive(Clone, Copy, Debug, PartialEq, Eq, Structural)]
pub struct LimitOrderId {
    /// The raw id.
    pub raw_id: u64,
}

impl LimitOrderId {
    /// The first id handed out.
    pub fn initial_id() -> (r: Self)
        ensures
            r.raw_id == 0,
    {
        LimitOrderId { raw_id: 0 }
    }

    /// The id after this one. Every id up to `u64::MAX` is handed out once,
    /// so the last one has no successor.
    pub fn next(&self) -> (r: Self)
        requires
            self.raw_id < u64::MAX,
        ensures
            r.raw_id == self.raw_id + 1,
    {
        LimitOrderId { raw_id: self.raw_id + 1 }
    }
}

/// The big-endian bytes of `x`, most significant first.
pub open spec fn be_bytes(x: u64) -> Seq<u8> {
    Seq::new(8, |i: int| (x >> ((8 * (7 - i)) as u64)) as u8)
}

/// The sort key of an order in a book.
#[derive(Clone, Copy, Debug)]
pub struct Priority {
    /// The raw key.
    pub key: [u8; 16],
}

/// Writes the big-endian bytes of `x` into `key` from position `offset` on.
fn write_be_u64(key: &mut [u8; 16], offset: usize, x: u64)
    requires
        offset == 0 || offset == 8,
    ensures
        forall|i: int| 0 <= i < 8 ==> #[trigger] final(key)@[offset + i] == be_bytes(x)[i],
        forall|i: int|
            0 <= i < 16 && !(offset <= i < offset + 8) ==> #[trigger] final(key)@[i] == old(key)@[i],
{
    let mut i: usize = 0;
    while i < 8
        invariant
            offset == 0 || offset == 8,
            0 <= i <= 8,
            forall|j: int| 0 <= j < i ==> #[trigger] key@[offset + j] == be_bytes(x)[j],
            forall|j: int|
                0 <= j < 16 && !(offset <= j < offset + i) ==> #[trigger] key@[j] == old(key)@[j],
        decreases 8 - i,
    {
        key[offset + i] = (x >> (8 * (7 - i) as u64)) as u8;
        i = i + 1;
    }
}

proof fn lemma_key_halves(first: Seq<u8>, key: Seq<u8>, high: u64, low: u64)
    requires
        first.len() == 16,
        key.len() == 16,
        forall|i: int| 0 <= i < 8 ==> #[trigger] first[0 + i] == be_bytes(high)[i],
        forall|i: int| 0 <= i < 8 ==> #[trigger] key[8 + i] == be_bytes(low)[i],
        forall|i: int| 0 <= i < 16 && !(8 <= i < 8 + 8) ==> #[trigger] key[i] == first[i],
    ensures
        key == be_bytes(high) + be_bytes(low),
{
    assert forall|i: int| 0 <= i < 16 implies #[trigger] key[i] == (be_bytes(high) + be_bytes(
        low,
    ))[i] by {
        if i < 8 {
            assert(first[0 + i] == be_bytes(high)[i]);
        } else {
            assert(key[8 + (i - 8)] == be_bytes(low)[i - 8]);
        }
    }
    assert(key =~= be_bytes(high) + be_bytes(low));
}

impl Priority {
    /// The key under which cheap prices come first, and among equal prices
    /// lower ids.
    pub fn cheap_early(price: u64, id: LimitOrderId) -> (r: Self)
        ensures
            r.key@ == be_bytes(price) + be_bytes(id.raw_id),
    {
        let mut key: [u8; 16] = [0u8; 16];
        write_be_u64(&mut key, 0, price);
        let ghost first = key@;
        write_be_u64(&mut key, 8, id.raw_id);
        proof {
            lemma_key_halves(first, key@, price, id.raw_id);
        }
        Priority { key }
    }

    /// The key under which expensive prices come first, and among equal
    /// prices lower ids: the price word is complemented.
    pub fn expensive_early(price: u64, id: LimitOrderId) -> (r: Self)
        ensures
            r.key@ == be_bytes(!price) + be_bytes(id.raw_id),
    {
        let mut key: [u8; 16] = [0u8; 16];
        write_be_u64(&mut key, 0, !price);
        let ghost first = key@;
        write_be_u64(&mut key, 8, id.raw_id);
        proof {
            lemma_key_halves(first, key@, !price, id.raw_id);
        }
        Priority { key }
    }
}

} // verus!
