use vstd::prelude::*;

verus! {

/// The header of a definite-length CBOR item with the given major-type base
/// byte: the minimal-width big-endian length encoding, as the ledger's
/// canonical form requires.
pub open spec fn cbor_len_header(base: u8, n: nat) -> Seq<u8> {
    if n < 24 {
        seq![(base + n) as u8]
    } else if n < 0x100 {
        seq![(base + 24) as u8, n as u8]
    } else if n < 0x10000 {
        seq![(base + 25) as u8, (n / 0x100) as u8, (n % 0x100) as u8]
    } else if n < 0x100000000 {
        seq![
            (base + 26) as u8,
            (n / 0x1000000) as u8,
            ((n / 0x10000) % 0x100) as u8,
            ((n / 0x100) % 0x100) as u8,
            (n % 0x100) as u8,
        ]
    } else {
        seq![
            (base + 27) as u8,
            ((n / 0x100000000000000) % 0x100) as u8,
            ((n / 0x1000000000000) % 0x100) as u8,
            ((n / 0x10000000000) % 0x100) as u8,
            ((n / 0x100000000) % 0x100) as u8,
            ((n / 0x1000000) % 0x100) as u8,
            ((n / 0x10000) % 0x100) as u8,
            ((n / 0x100) % 0x100) as u8,
            (n % 0x100) as u8,
        ]
    }
}

/// One script envelope layer: the payload serialized as a definite-length
/// CBOR byte string (major type 2) with minimal header.
pub open spec fn wrap_script(b: Seq<u8>) -> Seq<u8> {
    cbor_len_header(0x40, b.len()) + b
}

/// The header of a definite-length CBOR array (major type 4) of `n` items.
pub open spec fn array_header(n: nat) -> Seq<u8> {
    cbor_len_header(0x80, n)
}

/// All the sequences, joined in order.
pub open spec fn concat_bytes(items: Seq<Seq<u8>>) -> Seq<u8>
    decreases items.len(),
{
    if items.len() == 0 {
        Seq::empty()
    } else {
        items[0] + concat_bytes(items.skip(1))
    }
}

/// Joining one more sequence appends it at the end.
pub proof fn lemma_concat_bytes_push(items: Seq<Seq<u8>>, x: Seq<u8>)
    ensures
        concat_bytes(items.push(x)) == concat_bytes(items) + x,
    decreases items.len(),
{
    if items.len() == 0 {
        assert(items.push(x).skip(1) =~= Seq::<Seq<u8>>::empty());
        assert(concat_bytes(Seq::<Seq<u8>>::empty()) == Seq::<u8>::empty());
        assert(items.push(x)[0] == x);
        assert(concat_bytes(items.push(x)) =~= concat_bytes(items) + x);
    } else {
        assert(items.push(x).skip(1) =~= items.skip(1).push(x));
        lemma_concat_bytes_push(items.skip(1), x);
        assert(concat_bytes(items.push(x)) =~= concat_bytes(items) + x);
    }
}

/// Builds the canonical CBOR array header for `n` items.
pub fn cbor_array_header(n: usize) -> (r: Vec<u8>)
    ensures
        r@ == array_header(n as nat),
{
    let m: u64 = n as u64;
    let mut v: Vec<u8> = Vec::new();
    if m < 24 {
        v.push(0x80 + m as u8);
    } else if m < 0x100 {
        v.push(0x98);
        v.push(m as u8);
    } else if m < 0x10000 {
        v.push(0x99);
        v.push((m / 0x100) as u8);
        v.push((m % 0x100) as u8);
    } else if m < 0x100000000 {
        v.push(0x9a);
        v.push((m / 0x1000000) as u8);
        v.push(((m / 0x10000) % 0x100) as u8);
        v.push(((m / 0x100) % 0x100) as u8);
        v.push((m % 0x100) as u8);
    } else {
        v.push(0x9b);
        v.push(((m / 0x100000000000000) % 0x100) as u8);
        v.push(((m / 0x1000000000000) % 0x100) as u8);
        v.push(((m / 0x10000000000) % 0x100) as u8);
        v.push(((m / 0x100000000) % 0x100) as u8);
        v.push(((m / 0x1000000) % 0x100) as u8);
        v.push(((m / 0x10000) % 0x100) as u8);
        v.push(((m / 0x100) % 0x100) as u8);
        v.push((m % 0x100) as u8);
    }
    proof {
        assert(v@ =~= array_header(n as nat));
    }
    v
}

} // verus!
