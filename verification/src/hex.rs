use vstd::prelude::*;

verus! {

/// The value of one hexadecimal digit, or `None` for any other character.
/// Upper- and lower-case digits are both accepted, as the textual form of
/// script bytes is case-insensitive on input.
pub open spec fn hex_char_val(c: char) -> Option<u8> {
    if c == '0' { Some(0u8) }
    else if c == '1' { Some(1u8) }
    else if c == '2' { Some(2u8) }
    else if c == '3' { Some(3u8) }
    else if c == '4' { Some(4u8) }
    else if c == '5' { Some(5u8) }
    else if c == '6' { Some(6u8) }
    else if c == '7' { Some(7u8) }
    else if c == '8' { Some(8u8) }
    else if c == '9' { Some(9u8) }
    else if c == 'a' || c == 'A' { Some(10u8) }
    else if c == 'b' || c == 'B' { Some(11u8) }
    else if c == 'c' || c == 'C' { Some(12u8) }
    else if c == 'd' || c == 'D' { Some(13u8) }
    else if c == 'e' || c == 'E' { Some(14u8) }
    else if c == 'f' || c == 'F' { Some(15u8) }
    else { None }
}

/// The lower-case digit that encodes one nibble.
pub open spec fn hex_char(v: u8) -> char {
    if v == 0 { '0' }
    else if v == 1 { '1' }
    else if v == 2 { '2' }
    else if v == 3 { '3' }
    else if v == 4 { '4' }
    else if v == 5 { '5' }
    else if v == 6 { '6' }
    else if v == 7 { '7' }
    else if v == 8 { '8' }
    else if v == 9 { '9' }
    else if v == 10 { 'a' }
    else if v == 11 { 'b' }
    else if v == 12 { 'c' }
    else if v == 13 { 'd' }
    else if v == 14 { 'e' }
    else { 'f' }
}

/// The bytes denoted by a hex string: `None` unless the string has even
/// length and every character is a hexadecimal digit.
pub open spec fn hex_decode(s: Seq<char>) -> Option<Seq<u8>>
    decreases s.len(),
{
    if s.len() % 2 != 0 {
        None
    } else if s.len() == 0 {
        Some(Seq::empty())
    } else {
        match (hex_char_val(s[0]), hex_char_val(s[1]), hex_decode(s.skip(2))) {
            (Some(h), Some(l), Some(rest)) => Some(seq![(h * 16 + l) as u8] + rest),
            _ => None,
        }
    }
}

/// The lower-case hex string that denotes the given bytes: two digits per
/// byte, high nibble first.
pub open spec fn hex_encode(b: Seq<u8>) -> Seq<char>
    decreases b.len(),
{
    if b.len() == 0 {
        Seq::empty()
    } else {
        seq![hex_char((b[0] / 16) as u8), hex_char((b[0] % 16) as u8)] + hex_encode(b.skip(1))
    }
}

pub proof fn lemma_hex_encode_len(b: Seq<u8>)
    ensures
        hex_encode(b).len() == 2 * b.len(),
    decreases b.len(),
{
    if b.len() > 0 {
        lemma_hex_encode_len(b.skip(1));
    }
}

/// Appending one byte appends its two digits.
pub proof fn lemma_hex_encode_push(b: Seq<u8>, x: u8)
    ensures
        hex_encode(b.push(x)) == hex_encode(b) + seq![
            hex_char((x / 16) as u8),
            hex_char((x % 16) as u8),
        ],
    decreases b.len(),
{
    let pair = seq![hex_char((x / 16) as u8), hex_char((x % 16) as u8)];
    if b.len() == 0 {
        assert(b.push(x).skip(1) =~= Seq::<u8>::empty());
        assert(hex_encode(Seq::<u8>::empty()) == Seq::<char>::empty());
        assert(b.push(x)[0] == x);
        assert(hex_encode(b.push(x)) =~= hex_encode(b) + pair);
    } else {
        assert(b.push(x).skip(1) =~= b.skip(1).push(x));
        lemma_hex_encode_push(b.skip(1), x);
        assert(hex_encode(b.push(x)) =~= hex_encode(b) + pair);
    }
}

/// Decoding inverts encoding: every byte sequence is recovered exactly from
/// its hex form.
pub proof fn lemma_hex_decode_encode(b: Seq<u8>)
    ensures
        hex_decode(hex_encode(b)) == Some(b),
    decreases b.len(),
{
    lemma_hex_encode_len(b);
    if b.len() == 0 {
        assert(hex_decode(hex_encode(b)) =~= Some(Seq::<u8>::empty()));
        assert(b =~= Seq::<u8>::empty());
    } else {
        let e = hex_encode(b);
        let h: u8 = (b[0] / 16) as u8;
        let l: u8 = (b[0] % 16) as u8;
        assert(e[0] == hex_char(h));
        assert(e[1] == hex_char(l));
        assert(hex_char_val(hex_char(h)) == Some(h));
        assert(hex_char_val(hex_char(l)) == Some(l));
        assert(h * 16 + l == b[0]);
        assert(e.skip(2) =~= hex_encode(b.skip(1)));
        lemma_hex_decode_encode(b.skip(1));
        assert(hex_decode(e) == Some(seq![b[0]] + b.skip(1)));
        assert(seq![b[0]] + b.skip(1) =~= b);
    }
}

/// The exec mirror of `hex_char_val`.
fn hex_val(c: char) -> (r: Option<u8>)
    ensures
        r == hex_char_val(c),
{
    match c {
        '0' => Some(0u8),
        '1' => Some(1u8),
        '2' => Some(2u8),
        '3' => Some(3u8),
        '4' => Some(4u8),
        '5' => Some(5u8),
        '6' => Some(6u8),
        '7' => Some(7u8),
        '8' => Some(8u8),
        '9' => Some(9u8),
        'a' | 'A' => Some(10u8),
        'b' | 'B' => Some(11u8),
        'c' | 'C' => Some(12u8),
        'd' | 'D' => Some(13u8),
        'e' | 'E' => Some(14u8),
        'f' | 'F' => Some(15u8),
        _ => None,
    }
}

/// A one-character string slice holding the digit of one nibble.
fn nibble_str(v: u8) -> (r: &'static str)
    requires
        v < 16,
    ensures
        r@ == seq![hex_char(v)],
{
    proof {
        reveal_strlit("0");
        reveal_strlit("1");
        reveal_strlit("2");
        reveal_strlit("3");
        reveal_strlit("4");
        reveal_strlit("5");
        reveal_strlit("6");
        reveal_strlit("7");
        reveal_strlit("8");
        reveal_strlit("9");
        reveal_strlit("a");
        reveal_strlit("b");
        reveal_strlit("c");
        reveal_strlit("d");
        reveal_strlit("e");
        reveal_strlit("f");
    }
    let r: &'static str = match v {
        0 => "0",
        1 => "1",
        2 => "2",
        3 => "3",
        4 => "4",
        5 => "5",
        6 => "6",
        7 => "7",
        8 => "8",
        9 => "9",
        10 => "a",
        11 => "b",
        12 => "c",
        13 => "d",
        14 => "e",
        _ => "f",
    };
    proof {
        assert(r@ =~= seq![hex_char(v)]);
    }
    r
}

/// Decodes a hex string to bytes, returning `None` exactly on malformed
/// input (odd length or a character that is no hexadecimal digit).
pub fn hex_to_bytes(s: &str) -> (r: Option<Vec<u8>>)
    ensures
        r is Some <==> hex_decode(s@) is Some,
        r matches Some(b) ==> hex_decode(s@) == Some(b@),
{
    let n: usize = s.unicode_len();
    if n % 2 != 0 {
        return None;
    }
    let mut out: Vec<u8> = Vec::new();
    let mut i: usize = 0;
    proof {
        assert(s@.skip(0) =~= s@);
        if hex_decode(s@) is Some {
            assert(Seq::<u8>::empty() + hex_decode(s@).unwrap() =~= hex_decode(s@).unwrap());
        }
    }
    while i < n
        invariant
            s@.len() == n,
            n % 2 == 0,
            i % 2 == 0,
            i <= n,
            out@.len() == i / 2,
            hex_decode(s@) == match hex_decode(s@.skip(i as int)) {
                Some(rest) => Some(out@ + rest),
                None => None::<Seq<u8>>,
            },
        decreases n - i,
    {
        let c0: char = s.get_char(i);
        let c1: char = s.get_char(i + 1);
        proof {
            assert(s@.skip(i as int).len() == n - i);
            assert(s@.skip(i as int)[0] == s@[i as int]);
            assert(s@.skip(i as int)[1] == s@[i as int + 1]);
            assert(s@.skip(i as int).skip(2) =~= s@.skip(i as int + 2));
        }
        let h: u8 = match hex_val(c0) {
            Some(h) => h,
            None => {
                return None;
            },
        };
        let l: u8 = match hex_val(c1) {
            Some(l) => l,
            None => {
                return None;
            },
        };
        let ghost prev = out@;
        let ghost at = i as int;
        out.push(h * 16 + l);
        i = i + 2;
        proof {
            let v = (h * 16 + l) as u8;
            assert(out@ =~= prev + seq![v]);
            if hex_decode(s@.skip(at + 2)) is Some {
                let rest = hex_decode(s@.skip(at + 2)).unwrap();
                assert(hex_decode(s@.skip(at)) == Some(seq![v] + rest));
                assert((prev + seq![v]) + rest =~= prev + (seq![v] + rest));
            } else {
                assert(hex_decode(s@.skip(at)) is None);
            }
        }
    }
    proof {
        assert(s@.skip(n as int) =~= Seq::<char>::empty());
    }
    Some(out)
}

/// Encodes bytes as a lower-case hex string, two digits per byte.
pub fn bytes_to_hex(bytes: &Vec<u8>) -> (r: String)
    ensures
        r@ == hex_encode(bytes@),
{
    let mut out = String::new();
    let mut i: usize = 0;
    while i < bytes.len()
        invariant
            i <= bytes@.len(),
            out@ == hex_encode(bytes@.take(i as int)),
        decreases bytes@.len() - i,
    {
        let b: u8 = bytes[i];
        out.append(nibble_str(b / 16));
        out.append(nibble_str(b % 16));
        i = i + 1;
        proof {
            assert(bytes@.take(i as int) =~= bytes@.take(i as int - 1).push(bytes@[i as int - 1]));
            lemma_hex_encode_push(bytes@.take(i as int - 1), bytes@[i as int - 1]);
            assert(out@ =~= hex_encode(bytes@.take(i as int)));
        }
    }
    proof {
        assert(bytes@.take(bytes@.len() as int) =~= bytes@);
    }
    out
}

} // verus!
