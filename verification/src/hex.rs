use vstd::prelude::*;
use vstd::string::StringExecFns;

verus! {

/// ASCII code of the lowercase hex digit for a nibble.
pub open spec fn nibble_ascii(n: u8) -> u8
    recommends
        n < 16,
{
    if n < 10 {
        (0x30 + n) as u8
    } else {
        (0x57 + n) as u8
    }
}

/// Lowercase hex digits (as ASCII bytes) of a byte string, two per byte,
/// high nibble first.
pub open spec fn hex_ascii(b: Seq<u8>) -> Seq<u8>
    decreases b.len(),
{
    if b.len() == 0 {
        Seq::empty()
    } else {
        hex_ascii(b.drop_last()) + seq![
            nibble_ascii(b.last() / 16),
            nibble_ascii(b.last() % 16),
        ]
    }
}

/// The characters that a sequence of ASCII bytes stands for.
pub open spec fn chars_of_ascii(s: Seq<u8>) -> Seq<char> {
    s.map_values(|b: u8| b as char)
}

/// Lowercase hex characters of a byte string, two per byte.
pub open spec fn hex_of(b: Seq<u8>) -> Seq<char> {
    chars_of_ascii(hex_ascii(b))
}

/// `0x`-prefixed fixed-width hex rendering of a byte string: this is the
/// wire form of topics, call data and hash-shaped values.
pub open spec fn data_chars(b: Seq<u8>) -> Seq<char> {
    seq!['0', 'x'] + hex_of(b)
}

/// A byte string with its leading zero bytes removed.
pub open spec fn strip_zeros(b: Seq<u8>) -> Seq<u8>
    decreases b.len(),
{
    if b.len() == 0 {
        b
    } else if b.first() == 0 {
        strip_zeros(b.drop_first())
    } else {
        b
    }
}

/// Quantity-form hex digits (ASCII) of a byte string: no leading zero
/// digits at all, and a single `0` for the value zero.
pub open spec fn quantity_ascii(b: Seq<u8>) -> Seq<u8> {
    let s = strip_zeros(b);
    if s.len() == 0 {
        seq![0x30u8]
    } else if s.first() < 16 {
        seq![nibble_ascii(s.first())] + hex_ascii(s.drop_first())
    } else {
        hex_ascii(s)
    }
}

/// `0x`-prefixed quantity-form hex rendering: the wire form of block
/// numbers, filter handles and other numeric quantities.
pub open spec fn quantity_chars(b: Seq<u8>) -> Seq<char> {
    seq!['0', 'x'] + chars_of_ascii(quantity_ascii(b))
}

/// The fixed-width form always spells out every byte: a hash-shaped value
/// round-trips through its full width and never loses leading zeros.
pub proof fn lemma_data_chars_width(b: Seq<u8>)
    ensures
        data_chars(b).len() == 2 + 2 * b.len(),
{
    lemma_hex_ascii_bounded(b);
}

proof fn lemma_strip_zeros_head(b: Seq<u8>)
    ensures
        strip_zeros(b).len() > 0 ==> strip_zeros(b).first() != 0,
    decreases b.len(),
{
    if b.len() > 0 && b.first() == 0 {
        lemma_strip_zeros_head(b.drop_first());
    }
}

/// The quantity form never carries a spurious leading zero digit: its
/// digits start with `0` only for the single-digit rendering of zero.
pub proof fn lemma_quantity_no_leading_zero(b: Seq<u8>)
    ensures
        quantity_ascii(b).len() >= 1,
        quantity_ascii(b).len() > 1 ==> quantity_ascii(b)[0] != 0x30,
{
    let s = strip_zeros(b);
    lemma_strip_zeros_head(b);
    if s.len() > 0 {
        lemma_hex_ascii_bounded(s.drop_first());
        if s.first() < 16 {
            assert(quantity_ascii(b)[0] == nibble_ascii(s.first()));
        } else {
            lemma_hex_head(s);
            lemma_hex_ascii_bounded(s);
            assert(quantity_ascii(b)[0] == nibble_ascii(s.first() / 16));
        }
    }
}

/// Big-endian unsigned value of a byte string.
pub open spec fn be_nat(s: Seq<u8>) -> nat
    decreases s.len(),
{
    if s.len() == 0 {
        0
    } else {
        (be_nat(s.drop_last()) * 256 + s.last()) as nat
    }
}

pub proof fn lemma_be_nat_all_zeros(z: Seq<u8>)
    requires
        forall|i: int| 0 <= i < z.len() ==> z[i] == 0,
    ensures
        be_nat(z) == 0,
    decreases z.len(),
{
    if z.len() > 0 {
        lemma_be_nat_all_zeros(z.drop_last());
    }
}

/// Leading zero bytes do not change the big-endian value.
pub proof fn lemma_be_nat_zero_prefix(z: Seq<u8>, t: Seq<u8>)
    requires
        forall|i: int| 0 <= i < z.len() ==> z[i] == 0,
    ensures
        be_nat(z + t) == be_nat(t),
    decreases t.len(),
{
    if t.len() == 0 {
        assert(z + t =~= z);
        lemma_be_nat_all_zeros(z);
    } else {
        assert((z + t).drop_last() =~= z + t.drop_last());
        lemma_be_nat_zero_prefix(z, t.drop_last());
    }
}

/// Every hex digit is an ASCII byte.
pub proof fn lemma_hex_ascii_bounded(b: Seq<u8>)
    ensures
        forall|i: int| 0 <= i < hex_ascii(b).len() ==> hex_ascii(b)[i] < 0x80,
        hex_ascii(b).len() == 2 * b.len(),
    decreases b.len(),
{
    if b.len() > 0 {
        lemma_hex_ascii_bounded(b.drop_last());
    }
}

fn nibble_to_ascii(n: u8) -> (r: u8)
    requires
        n < 16,
    ensures
        r == nibble_ascii(n),
{
    if n < 10 {
        0x30 + n
    } else {
        0x57 + n
    }
}

/// Relies on String::from_utf8: bytes below 0x80 are ASCII and decode to
/// one identical-code-point char each.
#[verifier::external_body]
fn ascii_to_string(v: Vec<u8>) -> (r: String)
    requires
        forall|i: int| 0 <= i < v@.len() ==> v@[i] < 0x80,
    ensures
        r@ == chars_of_ascii(v@),
{
    String::from_utf8(v).unwrap_or_default()
}

/// The hex digits of a byte string as ASCII bytes, two per input byte.
pub fn bytes_to_hex_ascii(b: &Vec<u8>) -> (r: Vec<u8>)
    ensures
        r@ == hex_ascii(b@),
{
    let mut r: Vec<u8> = Vec::new();
    let mut i: usize = 0;
    while i < b.len()
        invariant
            i <= b@.len(),
            r@ == hex_ascii(b@.take(i as int)),
        decreases b@.len() - i,
    {
        let byte = b[i];
        r.push(nibble_to_ascii(byte / 16));
        r.push(nibble_to_ascii(byte % 16));
        i = i + 1;
        proof {
            let t = b@.take(i as int);
            assert(t.drop_last() =~= b@.take(i - 1));
            assert(r@ =~= hex_ascii(t.drop_last()) + seq![
                nibble_ascii(t.last() / 16),
                nibble_ascii(t.last() % 16),
            ]);
        }
    }
    proof {
        assert(b@.take(b@.len() as int) =~= b@);
    }
    r
}

/// Lowercase hex rendering of a byte string, without a prefix.
pub fn bytes_to_hex_str(b: &Vec<u8>) -> (r: String)
    ensures
        r@ == hex_of(b@),
{
    let ascii = bytes_to_hex_ascii(b);
    proof {
        lemma_hex_ascii_bounded(b@);
    }
    ascii_to_string(ascii)
}

/// `0x`-prefixed fixed-width hex rendering of a byte string.
pub fn bytes_to_data(b: &Vec<u8>) -> (r: String)
    ensures
        r@ == data_chars(b@),
{
    let mut s = "0x".to_owned();
    proof {
        reveal_strlit("0x");
    }
    let h = bytes_to_hex_str(b);
    s.append(h.as_str());
    proof {
        assert(s@ =~= data_chars(b@));
    }
    s
}

/// `0x`-prefixed quantity-form hex rendering of a big-endian byte string:
/// leading zeros are stripped, and zero renders as `0x0`.
pub fn bytes_to_quantity(b: &Vec<u8>) -> (r: String)
    ensures
        r@ == quantity_chars(b@),
{
    let mut k: usize = 0;
    proof {
        assert(b@.skip(0) =~= b@);
    }
    while k < b.len() && b[k] == 0
        invariant
            k <= b@.len(),
            strip_zeros(b@) == strip_zeros(b@.skip(k as int)),
            forall|i: int| 0 <= i < k ==> b@[i] == 0,
        decreases b@.len() - k,
    {
        proof {
            let s = b@.skip(k as int);
            assert(s.first() == b@[k as int]);
            assert(s.drop_first() =~= b@.skip(k + 1));
        }
        k = k + 1;
    }
    proof {
        let s = b@.skip(k as int);
        if k < b@.len() {
            assert(s.first() == b@[k as int]);
            assert(strip_zeros(s) == s);
        } else {
            assert(s.len() == 0);
        }
    }
    let mut ascii: Vec<u8> = Vec::new();
    if k == b.len() {
        ascii.push(0x30);
        proof {
            assert(ascii@ =~= quantity_ascii(b@));
        }
    } else {
        let first = b[k];
        let mut rest: Vec<u8> = Vec::new();
        let mut i: usize = k + 1;
        while i < b.len()
            invariant
                k < i <= b@.len(),
                rest@ == b@.subrange(k + 1, i as int),
            decreases b@.len() - i,
        {
            rest.push(b[i]);
            i = i + 1;
            proof {
                assert(rest@ =~= b@.subrange(k + 1, i as int));
            }
        }
        proof {
            assert(rest@ =~= b@.skip(k as int).drop_first());
        }
        if first < 16 {
            ascii.push(nibble_to_ascii(first));
        } else {
            ascii.push(nibble_to_ascii(first / 16));
            ascii.push(nibble_to_ascii(first % 16));
        }
        let tail = bytes_to_hex_ascii(&rest);
        let mut j: usize = 0;
        while j < tail.len()
            invariant
                j <= tail@.len(),
                ascii@ == ascii@.take(ascii@.len() - j) + tail@.take(j as int),
                ascii@.len() - j == (if b@[k as int] < 16 { 1int } else { 2int }),
                tail@ == hex_ascii(b@.skip(k as int).drop_first()),
                ascii@.take(ascii@.len() - j) == (if b@[k as int] < 16 {
                    seq![nibble_ascii(b@[k as int])]
                } else {
                    seq![
                        nibble_ascii(b@[k as int] / 16),
                        nibble_ascii(b@[k as int] % 16),
                    ]
                }),
            decreases tail@.len() - j,
        {
            ascii.push(tail[j]);
            j = j + 1;
            proof {
                assert(ascii@.take(ascii@.len() - j) =~= ascii@.take(ascii@.len() - j));
                assert(ascii@ =~= ascii@.take(ascii@.len() - j) + tail@.take(j as int));
            }
        }
        proof {
            let s = b@.skip(k as int);
            assert(tail@.take(tail@.len() as int) =~= tail@);
            if s.first() < 16 {
                assert(ascii@ =~= seq![nibble_ascii(s.first())] + hex_ascii(s.drop_first()));
            } else {
                assert(hex_ascii(s).drop_last().drop_last() =~= hex_ascii(s.drop_last()));
                assert(s.drop_last().len() == s.len() - 1);
                lemma_hex_head(s);
                assert(ascii@ =~= hex_ascii(s));
            }
            assert(ascii@ =~= quantity_ascii(b@));
        }
    }
    proof {
        lemma_quantity_ascii_bounded(b@);
    }
    let mut out = "0x".to_owned();
    proof {
        reveal_strlit("0x");
    }
    let body = ascii_to_string(ascii);
    out.append(body.as_str());
    proof {
        assert(out@ =~= quantity_chars(b@));
    }
    out
}

/// For a nonempty byte string, the hex digits are those of the first byte
/// followed by the digits of the rest.
proof fn lemma_hex_head(s: Seq<u8>)
    requires
        s.len() > 0,
    ensures
        hex_ascii(s) == seq![nibble_ascii(s.first() / 16), nibble_ascii(s.first() % 16)]
            + hex_ascii(s.drop_first()),
    decreases s.len(),
{
    if s.len() == 1 {
        assert(s.drop_last() =~= Seq::<u8>::empty());
        assert(s.drop_first() =~= Seq::<u8>::empty());
        assert(s.last() == s.first());
        assert(hex_ascii(s) =~= seq![
            nibble_ascii(s.first() / 16),
            nibble_ascii(s.first() % 16),
        ] + hex_ascii(s.drop_first()));
    } else {
        lemma_hex_head(s.drop_last());
        assert(s.drop_last().first() == s.first());
        assert(s.drop_last().drop_first() =~= s.drop_first().drop_last());
        assert(s.drop_first().last() == s.last());
        assert(hex_ascii(s) =~= seq![
            nibble_ascii(s.first() / 16),
            nibble_ascii(s.first() % 16),
        ] + hex_ascii(s.drop_first()));
    }
}

proof fn lemma_quantity_ascii_bounded(b: Seq<u8>)
    ensures
        forall|i: int| 0 <= i < quantity_ascii(b).len() ==> quantity_ascii(b)[i] < 0x80,
{
    let s = strip_zeros(b);
    lemma_hex_ascii_bounded(s);
    if s.len() > 0 {
        lemma_hex_ascii_bounded(s.drop_first());
    }
}

} // verus!
