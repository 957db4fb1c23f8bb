use base64::Engine;
use vstd::prelude::*;

verus! {

/// The character of a 6-bit value in the URL-safe base64 alphabet.
pub open spec fn symbol(v: u8) -> char {
    if v < 26 {
        ((65 + v) as u8) as char
    } else if v < 52 {
        ((71 + v) as u8) as char
    } else if v < 62 {
        ((v - 4) as u8) as char
    } else if v == 62 {
        '-'
    } else {
        '_'
    }
}

/// URL-safe base64 without padding: each group of three bytes becomes four
/// characters, and a last group of one or two bytes becomes two or three.
pub open spec fn base64url(b: Seq<u8>) -> Seq<char>
    decreases b.len(),
{
    if b.len() == 0 {
        Seq::empty()
    } else if b.len() == 1 {
        seq![symbol(b[0] >> 2), symbol((b[0] & 3) << 4)]
    } else if b.len() == 2 {
        seq![symbol(b[0] >> 2), symbol(((b[0] & 3) << 4) | (b[1] >> 4)), symbol((b[1] & 15) << 2)]
    } else {
        seq![
            symbol(b[0] >> 2),
            symbol(((b[0] & 3) << 4) | (b[1] >> 4)),
            symbol(((b[1] & 15) << 2) | (b[2] >> 6)),
            symbol(b[2] & 63),
        ] + base64url(b.skip(3))
    }
}

pub open spec fn is_symbol(c: char) -> bool {
    ('A' <= c <= 'Z') || ('a' <= c <= 'z') || ('0' <= c <= '9') || c == '-' || c == '_'
}

proof fn lemma_symbol(v1: u8, v2: u8)
    requires
        v1 < 64,
        v2 < 64,
    ensures
        is_symbol(symbol(v1)),
        symbol(v1) == symbol(v2) ==> v1 == v2,
{
}

/// Base64 text holds only alphabet characters.
pub proof fn lemma_base64url_symbols(b: Seq<u8>)
    ensures
        forall|i: int| 0 <= i < base64url(b).len() ==> is_symbol(#[trigger] base64url(b)[i]),
    decreases b.len(),
{
    if b.len() > 0 {
        let b0 = b[0];
        assert(b0 >> 2 < 64 && (b0 & 3) << 4 < 64) by (bit_vector);
        lemma_symbol(b0 >> 2, 0);
        lemma_symbol((b0 & 3) << 4, 0);
        if b.len() >= 2 {
            let b1 = b[1];
            assert(((b0 & 3) << 4) | (b1 >> 4) < 64 && (b1 & 15) << 2 < 64) by (bit_vector);
            lemma_symbol(((b0 & 3) << 4) | (b1 >> 4), 0);
            lemma_symbol((b1 & 15) << 2, 0);
        }
        if b.len() >= 3 {
            let b1 = b[1];
            let b2 = b[2];
            assert(((b1 & 15) << 2) | (b2 >> 6) < 64 && b2 & 63 < 64) by (bit_vector);
            lemma_symbol(((b1 & 15) << 2) | (b2 >> 6), 0);
            lemma_symbol(b2 & 63, 0);
            lemma_base64url_symbols(b.skip(3));
        }
        assert forall|i: int| 0 <= i < base64url(b).len() implies is_symbol(
            #[trigger] base64url(b)[i],
        ) by {
            if i >= 4 && b.len() >= 3 {
                assert(base64url(b)[i] == base64url(b.skip(3))[i - 4]);
            }
        }
    }
}

pub proof fn lemma_base64url_len(b: Seq<u8>)
    ensures
        base64url(b).len() == 4 * (b.len() / 3) + (if b.len() % 3 == 0 {
            0int
        } else {
            (b.len() % 3 + 1) as int
        }),
    decreases b.len(),
{
    if b.len() >= 3 {
        lemma_base64url_len(b.skip(3));
    }
}

/// Distinct byte strings have distinct encodings.
pub proof fn lemma_base64url_injective(b1: Seq<u8>, b2: Seq<u8>)
    requires
        base64url(b1) == base64url(b2),
    ensures
        b1 == b2,
    decreases b1.len(),
{
    lemma_base64url_len(b1);
    lemma_base64url_len(b2);
    let e = base64url(b1);
    assert(b1.len() == b2.len());
    if b1.len() == 0 {
        assert(b1 =~= b2);
    } else {
        let (x0, y0) = (b1[0], b2[0]);
        assert(x0 >> 2 < 64 && (x0 & 3) << 4 < 64 && y0 >> 2 < 64 && (y0 & 3) << 4 < 64)
            by (bit_vector);
        lemma_symbol(x0 >> 2, y0 >> 2);
        assert(e[0] == symbol(x0 >> 2) && e[0] == symbol(y0 >> 2));
        if b1.len() == 1 {
            lemma_symbol((x0 & 3) << 4, (y0 & 3) << 4);
            assert(e[1] == symbol((x0 & 3) << 4) && e[1] == symbol((y0 & 3) << 4));
            assert(x0 >> 2 == y0 >> 2 && (x0 & 3) << 4 == (y0 & 3) << 4 ==> x0 == y0)
                by (bit_vector);
            assert(b1 =~= b2);
        } else {
            let (x1, y1) = (b1[1], b2[1]);
            assert(((x0 & 3) << 4) | (x1 >> 4) < 64 && ((y0 & 3) << 4) | (y1 >> 4) < 64 && (x1
                & 15) << 2 < 64 && (y1 & 15) << 2 < 64) by (bit_vector);
            lemma_symbol(((x0 & 3) << 4) | (x1 >> 4), ((y0 & 3) << 4) | (y1 >> 4));
            assert(e[1] == symbol(((x0 & 3) << 4) | (x1 >> 4)));
            assert(e[1] == symbol(((y0 & 3) << 4) | (y1 >> 4)));
            assert(x0 >> 2 == y0 >> 2 && ((x0 & 3) << 4) | (x1 >> 4) == ((y0 & 3) << 4) | (y1
                >> 4) ==> x0 == y0 && x1 >> 4 == y1 >> 4) by (bit_vector);
            if b1.len() == 2 {
                lemma_symbol((x1 & 15) << 2, (y1 & 15) << 2);
                assert(e[2] == symbol((x1 & 15) << 2) && e[2] == symbol((y1 & 15) << 2));
                assert(x1 >> 4 == y1 >> 4 && (x1 & 15) << 2 == (y1 & 15) << 2 ==> x1 == y1)
                    by (bit_vector);
                assert(b1 =~= b2);
            } else {
                let (x2, y2) = (b1[2], b2[2]);
                assert(((x1 & 15) << 2) | (x2 >> 6) < 64 && ((y1 & 15) << 2) | (y2 >> 6) < 64
                    && x2 & 63 < 64 && y2 & 63 < 64) by (bit_vector);
                lemma_symbol(((x1 & 15) << 2) | (x2 >> 6), ((y1 & 15) << 2) | (y2 >> 6));
                lemma_symbol(x2 & 63, y2 & 63);
                assert(e[2] == symbol(((x1 & 15) << 2) | (x2 >> 6)));
                assert(e[2] == symbol(((y1 & 15) << 2) | (y2 >> 6)));
                assert(e[3] == symbol(x2 & 63) && e[3] == symbol(y2 & 63));
                assert(x1 >> 4 == y1 >> 4 && ((x1 & 15) << 2) | (x2 >> 6) == ((y1 & 15) << 2) | (
                y2 >> 6) ==> x1 == y1 && x2 >> 6 == y2 >> 6) by (bit_vector);
                assert(x2 >> 6 == y2 >> 6 && x2 & 63 == y2 & 63 ==> x2 == y2) by (bit_vector);
                let r1 = base64url(b1.skip(3));
                let r2 = base64url(b2.skip(3));
                assert(r1 =~= e.skip(4));
                assert(r2 =~= e.skip(4));
                lemma_base64url_injective(b1.skip(3), b2.skip(3));
                assert(b1 =~= b2.take(3) + b2.skip(3));
                assert(b2 =~= b2.take(3) + b2.skip(3));
            }
        }
    }
}

/// Relies on the `URL_SAFE_NO_PAD` engine of base64: `encode` writes the
/// unpadded URL-safe encoding of its input. A slice never exceeds
/// `isize::MAX` bytes, so its length computation cannot overflow.
#[verifier::external_body]
pub(crate) fn base64url_encode(b: &[u8]) -> (r: String)
    ensures
        r@ == base64url(b@),
{
    base64::engine::general_purpose::URL_SAFE_NO_PAD.encode(b)
}

/// Relies on the `URL_SAFE_NO_PAD` engine of base64: `decode` accepts
/// exactly the canonical unpadded encodings (trailing bits must be zero,
/// padding is refused) and returns the bytes that they encode.
#[verifier::external_body]
pub(crate) fn base64url_decode(s: &str) -> (r: Option<Vec<u8>>)
    ensures
        r matches Some(b) ==> base64url(b@) == s@,
        forall|b: Seq<u8>| #[trigger] base64url(b) == s@ ==> r is Some,
{
    base64::engine::general_purpose::URL_SAFE_NO_PAD.decode(s).ok()
}

/// The bytes whose encoding is `s`, if there are any.
pub open spec fn base64url_decoded(s: Seq<char>) -> Option<Seq<u8>> {
    if exists|b: Seq<u8>| base64url(b) == s {
        Some(choose|b: Seq<u8>| base64url(b) == s)
    } else {
        None
    }
}

/// Decoding an encoding gives back the bytes.
pub proof fn lemma_decoded_of_encoded(b: Seq<u8>)
    ensures
        base64url_decoded(base64url(b)) == Some(b),
{
    let s = base64url(b);
    assert(base64url(b) == s);
    let c = choose|c: Seq<u8>| base64url(c) == s;
    lemma_base64url_injective(c, b);
}

/// Decodes one base64 segment.
pub fn decode_segment(s: &str) -> (r: Option<Vec<u8>>)
    ensures
        match r {
            Some(b) => base64url_decoded(s@) == Some(b@),
            None => base64url_decoded(s@) is None,
        },
{
    let r = base64url_decode(s);
    proof {
        if r is Some {
            lemma_decoded_of_encoded(r->0@);
        } else {
            if exists|b: Seq<u8>| base64url(b) == s@ {
                let b = choose|b: Seq<u8>| base64url(b) == s@;
                assert(base64url(b) == s@);
            }
        }
    }
    r
}

} // verus!
