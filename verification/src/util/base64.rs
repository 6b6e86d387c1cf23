use vstd::prelude::*;

verus! {

/// The ASCII code of a six-bit value's character in the standard base64 alphabet.
pub open spec fn base64_char(v: u8) -> u8 {
    if v < 26 {
        (65 + v) as u8
    } else if v < 52 {
        (97 + v - 26) as u8
    } else if v < 62 {
        (48 + v - 52) as u8
    } else if v == 62 {
        43
    } else {
        47
    }
}

/// The standard base64 encoding of `b`, padded with `=`.
pub open spec fn base64_text(b: Seq<u8>) -> Seq<u8>
    decreases b.len(),
{
    if b.len() == 0 {
        seq![]
    } else if b.len() == 1 {
        seq![base64_char(b[0] >> 2), base64_char((b[0] & 3) << 4), 61, 61]
    } else if b.len() == 2 {
        seq![
            base64_char(b[0] >> 2),
            base64_char(((b[0] & 3) << 4) | (b[1] >> 4)),
            base64_char((b[1] & 15) << 2),
            61,
        ]
    } else {
        seq![
            base64_char(b[0] >> 2),
            base64_char(((b[0] & 3) << 4) | (b[1] >> 4)),
            base64_char(((b[1] & 15) << 2) | (b[2] >> 6)),
            base64_char(b[2] & 63),
        ] + base64_text(b.skip(3))
    }
}

fn base64_char_of(v: u8) -> (r: u8)
    requires
        v < 64,
    ensures
        r == base64_char(v),
{
    if v < 26 {
        65 + v
    } else if v < 52 {
        97 + v - 26
    } else if v < 62 {
        48 + v - 52
    } else if v == 62 {
        43
    } else {
        47
    }
}

/// Encodes bytes in standard base64 with `=` padding, as ASCII bytes.
pub fn base64_encode(b: &[u8]) -> (r: Vec<u8>)
    ensures
        r@ == base64_text(b@),
{
    let mut out: Vec<u8> = Vec::new();
    let n = b.len();
    let mut i: usize = 0;
    assert(b@.skip(0) =~= b@);
    while i < n
        invariant
            i <= n == b@.len(),
            out@ + base64_text(b@.skip(i as int)) == base64_text(b@),
        decreases n - i,
    {
        let rest = n - i;
        let b0 = b[i];
        let ghost tail = b@.skip(i as int);
        assert(tail[0] == b0);
        assert(b0 >> 2 < 64) by (bit_vector);
        assert((b0 & 3) << 4 < 64) by (bit_vector);
        if rest == 1 {
            out.push(base64_char_of(b0 >> 2));
            out.push(base64_char_of((b0 & 3) << 4));
            out.push(61);
            out.push(61);
            assert(b@.skip(n as int) =~= Seq::<u8>::empty());
            i = n;
        } else {
            let b1 = b[i + 1];
            assert(tail[1] == b1);
            assert(((b0 & 3) << 4) | (b1 >> 4) < 64) by (bit_vector);
            assert((b1 & 15) << 2 < 64) by (bit_vector);
            if rest == 2 {
                out.push(base64_char_of(b0 >> 2));
                out.push(base64_char_of(((b0 & 3) << 4) | (b1 >> 4)));
                out.push(base64_char_of((b1 & 15) << 2));
                out.push(61);
                assert(b@.skip(n as int) =~= Seq::<u8>::empty());
                i = n;
            } else {
                let b2 = b[i + 2];
                assert(tail[2] == b2);
                assert(((b1 & 15) << 2) | (b2 >> 6) < 64) by (bit_vector);
                assert(b2 & 63 < 64) by (bit_vector);
                out.push(base64_char_of(b0 >> 2));
                out.push(base64_char_of(((b0 & 3) << 4) | (b1 >> 4)));
                out.push(base64_char_of(((b1 & 15) << 2) | (b2 >> 6)));
                out.push(base64_char_of(b2 & 63));
                assert(tail.skip(3) =~= b@.skip(i + 3));
                i = i + 3;
            }
        }
    }
    assert(b@.skip(n as int) =~= Seq::<u8>::empty());
    out
}

} // verus!
