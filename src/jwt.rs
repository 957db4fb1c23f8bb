use crate::claims::{claims_json, lemma_claims_json_injective, render_claims, Claims, ClaimsView};
use crate::encoding::{
    base64url, base64url_decoded, base64url_encode, decode_segment, is_symbol,
    lemma_base64url_injective, lemma_base64url_symbols, lemma_decoded_of_encoded,
};
use crate::error::ApiError;
use vstd::prelude::*;
use vstd::string::{StrSliceExecFns, StringExecFns};
use vstd::utf8::encode_utf8;

verus! {

/// Seconds during which a token stays valid: twelve hours.
pub const TOKEN_LIFETIME: i64 = 43200;

/// Latest issue time whose expiry still fits in an `i64`.
pub const LATEST_ISSUE_TIME: i64 = 9223372036854732607;

/// The URL-safe base64 text of the HMAC-SHA256 of `message` under `secret`.
pub uninterp spec fn hs256_signature(message: Seq<u8>, secret: Seq<u8>) -> Seq<char>;

/// Relies on jsonwebtoken's `crypto::sign` with HS256: it returns the
/// URL-safe base64 text of the HMAC-SHA256 of `message` keyed by `secret`,
/// which depends on the two alone. For the HMAC algorithms the call always
/// returns `Ok`.
#[verifier::external_body]
fn hs256_sign(message: &[u8], secret: &[u8]) -> (r: String)
    ensures
        r@ == hs256_signature(message@, secret@),
{
    let key = jsonwebtoken::EncodingKey::from_secret(secret);
    jsonwebtoken::crypto::sign(message, &key, jsonwebtoken::Algorithm::HS256).unwrap()
}

/// Relies on jsonwebtoken's `crypto::verify` with HS256: it signs `message`
/// again as `crypto::sign` does and compares that text with `signature` in
/// constant time. For the HMAC algorithms the call always returns `Ok`.
/// What `sign` returns is URL-safe base64 without padding, so a signature
/// that matches holds only symbols of that alphabet.
#[verifier::external_body]
fn hs256_matches(signature: &str, message: &[u8], secret: &[u8]) -> (r: bool)
    ensures
        r == (signature@ == hs256_signature(message@, secret@)),
        r ==> forall|i: int| 0 <= i < signature@.len() ==> is_symbol(#[trigger] signature@[i]),
{
    let key = jsonwebtoken::DecodingKey::from_secret(secret);
    jsonwebtoken::crypto::verify(signature, message, &key, jsonwebtoken::Algorithm::HS256).unwrap_or(
        false,
    )
}

/// The token header: `{"typ":"JWT","alg":"HS256"}`.
pub open spec fn header_json() -> Seq<u8> {
    seq![123u8, 34u8, 116u8, 121u8, 112u8, 34u8, 58u8, 34u8, 74u8, 87u8, 84u8, 34u8, 44u8, 34u8, 97u8, 108u8, 103u8, 34u8, 58u8, 34u8, 72u8, 83u8, 50u8, 53u8, 54u8, 34u8, 125u8]
}

fn header_bytes() -> (r: Vec<u8>)
    ensures
        r@ == header_json(),
{
    let mut v: Vec<u8> = Vec::new();
    v.push(123);
    v.push(34);
    v.push(116);
    v.push(121);
    v.push(112);
    v.push(34);
    v.push(58);
    v.push(34);
    v.push(74);
    v.push(87);
    v.push(84);
    v.push(34);
    v.push(44);
    v.push(34);
    v.push(97);
    v.push(108);
    v.push(103);
    v.push(34);
    v.push(58);
    v.push(34);
    v.push(72);
    v.push(83);
    v.push(50);
    v.push(53);
    v.push(54);
    v.push(34);
    v.push(125);
    assert(v@ =~= header_json());
    v
}

/// The signed part of a token: header and payload, each in base64, joined
/// by a dot.
pub open spec fn signing_input(c: ClaimsView) -> Seq<char> {
    base64url(header_json()) + (seq!['.'] + base64url(claims_json(c)))
}

/// The token that this codec issues for `c` under `secret`.
pub open spec fn issued_token(c: ClaimsView, secret: Seq<char>) -> Seq<char> {
    signing_input(c) + (seq!['.'] + hs256_signature(encode_utf8(signing_input(c)), encode_utf8(secret)))
}

/// Claims issued at `now` for a user.
pub open spec fn claims_at(user_id: i32, email: Seq<char>, permission: i8, now: i64) -> ClaimsView {
    ClaimsView { user_id, email, permission, exp: (now + TOKEN_LIFETIME) as i64, iat: now }
}

/// Position of the first dot at or after `from`, or the length of `t`.
pub open spec fn find_dot(t: Seq<char>, from: int) -> int
    decreases t.len() - from,
{
    if from < 0 || from >= t.len() {
        t.len() as int
    } else if t[from] == '.' {
        from
    } else {
        find_dot(t, from + 1)
    }
}

proof fn lemma_find_dot_bounds(t: Seq<char>, from: int)
    requires
        0 <= from <= t.len(),
    ensures
        from <= find_dot(t, from) <= t.len(),
        find_dot(t, from) < t.len() ==> t[find_dot(t, from)] == '.',
    decreases t.len() - from,
{
    if from < t.len() && t[from] != '.' {
        lemma_find_dot_bounds(t, from + 1);
    }
}

proof fn lemma_no_dot(t: Seq<char>, from: int)
    requires
        0 <= from <= t.len(),
        forall|i: int| from <= i < t.len() ==> t[i] != '.',
    ensures
        find_dot(t, from) == t.len(),
    decreases t.len() - from,
{
    if from < t.len() {
        lemma_no_dot(t, from + 1);
    }
}

proof fn lemma_find_dot(t: Seq<char>, from: int, a: Seq<char>)
    requires
        0 <= from,
        from + a.len() < t.len(),
        t.subrange(from, from + a.len()) == a,
        forall|i: int| 0 <= i < a.len() ==> a[i] != '.',
        t[from + a.len()] == '.',
    ensures
        find_dot(t, from) == from + a.len(),
    decreases a.len(),
{
    if a.len() > 0 {
        assert(t[from] == a[0]);
        assert(t.subrange(from + 1, from + a.len()) =~= a.skip(1));
        lemma_find_dot(t, from + 1, a.skip(1));
    }
}

proof fn lemma_dot_free(b: Seq<u8>)
    ensures
        forall|i: int| 0 <= i < base64url(b).len() ==> base64url(b)[i] != '.',
{
    lemma_base64url_symbols(b);
    assert forall|i: int| 0 <= i < base64url(b).len() implies base64url(b)[i] != '.' by {
        assert(is_symbol(base64url(b)[i]));
    }
}

/// Where the dots of an issued token stand, and what lies between them.
proof fn lemma_token_parts(c: ClaimsView, k: Seq<char>)
    ensures
        ({
            let t = issued_token(c, k);
            let hl = base64url(header_json()).len() as int;
            let pl = base64url(claims_json(c)).len() as int;
            &&& find_dot(t, 0) == hl
            &&& find_dot(t, hl + 1) == hl + 1 + pl
            &&& t.subrange(0, hl) == base64url(header_json())
            &&& t.subrange(hl + 1, hl + 1 + pl) == base64url(claims_json(c))
            &&& t.subrange(0, hl + 1 + pl) == signing_input(c)
            &&& t.subrange(hl + 2 + pl, t.len() as int) == hs256_signature(
                encode_utf8(signing_input(c)),
                encode_utf8(k),
            )
        }),
{
    let t = issued_token(c, k);
    let hh = base64url(header_json());
    let pp = base64url(claims_json(c));
    let hl = hh.len() as int;
    let pl = pp.len() as int;
    lemma_dot_free(header_json());
    lemma_dot_free(claims_json(c));
    assert(t.subrange(0, hl) =~= hh);
    assert(t[hl] == '.');
    lemma_find_dot(t, 0, hh);
    assert(t.subrange(hl + 1, hl + 1 + pl) =~= pp);
    assert(t[hl + 1 + pl] == '.');
    lemma_find_dot(t, hl + 1, pp);
    assert(t.subrange(0, hl + 1 + pl) =~= signing_input(c));
    assert(t.subrange(hl + 2 + pl, t.len() as int) =~= hs256_signature(
        encode_utf8(signing_input(c)),
        encode_utf8(k),
    ));
}

/// Distinct claims give distinct tokens under one secret.
pub proof fn lemma_issued_token_injective(c1: ClaimsView, c2: ClaimsView, k: Seq<char>)
    requires
        issued_token(c1, k) == issued_token(c2, k),
    ensures
        c1 == c2,
{
    lemma_token_parts(c1, k);
    lemma_token_parts(c2, k);
    lemma_base64url_injective(claims_json(c1), claims_json(c2));
    lemma_claims_json_injective(c1, c2);
}

/// Signs `c` into a token.
pub fn issue_token(c: &Claims, secret: &str) -> (r: String)
    ensures
        r@ == issued_token(c@, secret@),
{
    let header = header_bytes();
    let mut input = base64url_encode(header.as_slice());
    input.append(".");
    let payload = render_claims(c);
    let p = base64url_encode(payload.as_slice());
    input.append(p.as_str());
    proof {
        reveal_strlit(".");
        assert(input@ =~= signing_input(c@));
    }
    let sig = hs256_sign(input.as_str().as_bytes(), secret.as_bytes());
    let mut token = input;
    token.append(".");
    token.append(sig.as_str());
    assert(token@ =~= issued_token(c@, secret@));
    token
}

fn find_dot_from(t: &str, len: usize, from: usize) -> (r: usize)
    requires
        len == t@.len(),
        from <= len,
    ensures
        r == find_dot(t@, from as int),
{
    let mut i: usize = from;
    while i < len
        invariant
            from <= i <= len,
            len == t@.len(),
            find_dot(t@, i as int) == find_dot(t@, from as int),
        decreases len - i,
    {
        if t.get_char(i) == '.' {
            return i;
        }
        i = i + 1;
    }
    i
}

/// `HS256`, the name of the signing algorithm.
pub open spec fn hs256_name() -> Seq<char> {
    seq!['H', 'S', '2', '5', '6']
}

/// The text of the `alg` member of a JSON header, as serde_json reads it.
pub uninterp spec fn header_alg(header: Seq<u8>) -> Option<Seq<char>>;

/// Relies on serde_json's `from_slice` into a `Value`: it reads any JSON
/// text, and `get("alg")` with `as_str` gives the `alg` member when the
/// text is an object whose `alg` is a string. The outcome depends on the
/// bytes alone, and the header this codec writes has `alg` `HS256`.
#[verifier::external_body]
fn read_header_alg(header: &[u8]) -> (r: Option<String>)
    ensures
        r matches Some(a) ==> header_alg(header@) == Some(a@),
        r is None ==> header_alg(header@) is None,
        header@ == header_json() ==> r is Some,
        r matches Some(a) ==> (header@ == header_json() ==> a@ == hs256_name()),
{
    let v: serde_json::Value = serde_json::from_slice(header).ok()?;
    Some(v.get("alg")?.as_str()?.to_string())
}

/// The claims that serde_json reads from a JSON payload: an object with
/// integer members `user_id`, `permission`, `exp`, `iat` that fit their
/// types and a string member `email`; other members are ignored.
pub uninterp spec fn payload_claims(payload: Seq<u8>) -> Option<ClaimsView>;

/// Relies on serde_json's `from_slice` into a `Value` and its accessors
/// `get`, `as_i64` and `as_str`, which read the members as a derived
/// deserializer would. The outcome depends on the bytes alone; the payload
/// that `render_claims` writes is valid JSON holding exactly the claims.
#[verifier::external_body]
fn read_claims(payload: &[u8]) -> (r: Option<Claims>)
    ensures
        r matches Some(c) ==> payload_claims(payload@) == Some(c@),
        r is None ==> payload_claims(payload@) is None,
        forall|c: ClaimsView| #[trigger] claims_json(c) == payload@ ==> r is Some,
        r matches Some(x) ==> forall|c: ClaimsView| #[trigger] claims_json(c) == payload@ ==> x@ == c,
{
    let v: serde_json::Value = serde_json::from_slice(payload).ok()?;
    Some(Claims {
        user_id: i32::try_from(v.get("user_id")?.as_i64()?).ok()?,
        email: v.get("email")?.as_str()?.to_string(),
        permission: i8::try_from(v.get("permission")?.as_i64()?).ok()?,
        exp: v.get("exp")?.as_i64()?,
        iat: v.get("iat")?.as_i64()?,
    })
}

fn is_hs256(a: &str) -> (r: bool)
    ensures
        r == (a@ == hs256_name()),
{
    let expected = "HS256".to_owned();
    proof {
        reveal_strlit("HS256");
        assert(expected@ =~= hs256_name());
    }
    let owned = a.to_owned();
    owned == expected
}

/// What verification of `t` under `secret` at time `now` yields. The token
/// must hold exactly two dots, which split it into header, payload and
/// signature. It
/// is accepted when the signature is the HMAC-SHA256 of the text before the
/// second dot, the header decodes to JSON whose `alg` is `HS256`, the
/// payload decodes to JSON claims, and `now` is not past their expiry.
pub open spec fn token_verdict(t: Seq<char>, secret: Seq<char>, now: i64) -> Result<ClaimsView, ApiError> {
    let i1 = find_dot(t, 0);
    let i2 = find_dot(t, i1 + 1);
    if i1 >= t.len() || i2 >= t.len() || find_dot(t, i2 + 1) < t.len() {
        Err(ApiError::Unauthenticated)
    } else if t.subrange(i2 + 1, t.len() as int) != hs256_signature(
        encode_utf8(t.subrange(0, i2)),
        encode_utf8(secret),
    ) {
        Err(ApiError::Unauthenticated)
    } else {
        match base64url_decoded(t.subrange(0, i1)) {
            None => Err(ApiError::Unauthenticated),
            Some(hb) => if header_alg(hb) != Some(hs256_name()) {
                Err(ApiError::Unauthenticated)
            } else {
                match base64url_decoded(t.subrange(i1 + 1, i2)) {
                    None => Err(ApiError::Unauthenticated),
                    Some(pb) => match payload_claims(pb) {
                        None => Err(ApiError::Unauthenticated),
                        Some(c) => if now <= c.exp {
                            Ok(c)
                        } else {
                            Err(ApiError::Unauthenticated)
                        },
                    },
                }
            },
        }
    }
}

/// Replacing one character of the signature segment of an issued token
/// breaks the signature check: what follows the second dot is no longer
/// the HMAC of what precedes it.
pub proof fn lemma_tampered_signature(c: ClaimsView, k: Seq<char>, i: int, ch: char)
    requires
        signing_input(c).len() < i < issued_token(c, k).len(),
        ch != issued_token(c, k)[i],
    ensures
        ({
            let t = issued_token(c, k).update(i, ch);
            let i1 = find_dot(t, 0);
            let i2 = find_dot(t, i1 + 1);
            i2 < t.len() && t.subrange(i2 + 1, t.len() as int) != hs256_signature(
                encode_utf8(t.subrange(0, i2)),
                encode_utf8(k),
            )
        }),
{
    let tt = issued_token(c, k);
    let t = tt.update(i, ch);
    let hh = base64url(header_json());
    let pp = base64url(claims_json(c));
    let hl = hh.len() as int;
    let pl = pp.len() as int;
    lemma_token_parts(c, k);
    lemma_dot_free(header_json());
    lemma_dot_free(claims_json(c));
    assert(t.subrange(0, hl) =~= tt.subrange(0, hl));
    assert(t[hl] == '.');
    lemma_find_dot(t, 0, hh);
    assert(t.subrange(hl + 1, hl + 1 + pl) =~= tt.subrange(hl + 1, hl + 1 + pl));
    assert(t[hl + 1 + pl] == tt[hl + 1 + pl]);
    lemma_find_dot(t, hl + 1, pp);
    assert(t.subrange(0, hl + 1 + pl) =~= tt.subrange(0, hl + 1 + pl));
    let sig = t.subrange(hl + 2 + pl, t.len() as int);
    let orig = tt.subrange(hl + 2 + pl, tt.len() as int);
    assert(sig[i - hl - 2 - pl] == t[i]);
    assert(orig[i - hl - 2 - pl] == tt[i]);
}

/// Checks a token under `secret` at time `now` and returns its claims. A
/// token that this codec issued verifies to exactly its claims until its
/// expiry and fails after it; one with a changed signature character fails.
pub fn decode_jwt(token: &str, secret: &str, now: i64) -> (r: Result<Claims, ApiError>)
    ensures
        r matches Ok(x) ==> token_verdict(token@, secret@, now) == Ok::<ClaimsView, ApiError>(x@),
        r is Err ==> r == Err::<Claims, ApiError>(ApiError::Unauthenticated) && token_verdict(
            token@,
            secret@,
            now,
        ) == Err::<ClaimsView, ApiError>(ApiError::Unauthenticated),
        forall|c: ClaimsView| #[trigger]
            issued_token(c, secret@) == token@ ==> if now <= c.exp {
                r matches Ok(x) && x@ == c
            } else {
                r is Err
            },
        forall|c: ClaimsView, i: int, ch: char|
            #[trigger] issued_token(c, secret@).update(i, ch) == token@ && signing_input(c).len() < i
                < issued_token(c, secret@).len() && ch != issued_token(c, secret@)[i] ==> r is Err,
{
    let ghost t = token@;
    let ghost k = secret@;
    let ghost found = exists|c: ClaimsView| issued_token(c, k) == t;
    let ghost c0 = choose|c: ClaimsView| issued_token(c, k) == t;
    proof {
        if found {
            lemma_token_parts(c0, k);
            lemma_decoded_of_encoded(header_json());
            lemma_decoded_of_encoded(claims_json(c0));
            assert forall|c: ClaimsView| #[trigger] issued_token(c, k) == t implies c == c0 by {
                lemma_issued_token_injective(c, c0, k);
            }
        }
    }
    let len = token.unicode_len();
    let i1 = find_dot_from(token, len, 0);
    proof {
        lemma_find_dot_bounds(t, 0);
    }
    if i1 >= len {
        return Err(ApiError::Unauthenticated);
    }
    let i2 = find_dot_from(token, len, i1 + 1);
    proof {
        lemma_find_dot_bounds(t, i1 + 1);
    }
    if i2 >= len {
        return Err(ApiError::Unauthenticated);
    }
    let h = token.substring_char(0, i1);
    let p = token.substring_char(i1 + 1, i2);
    let s = token.substring_char(i2 + 1, len);
    let input = token.substring_char(0, i2);
    if !hs256_matches(s, input.as_bytes(), secret.as_bytes()) {
        return Err(ApiError::Unauthenticated);
    }
    proof {
        assert forall|i: int| i2 + 1 <= i < t.len() implies t[i] != '.' by {
            assert(t[i] == s@[i - i2 - 1]);
            assert(is_symbol(s@[i - i2 - 1]));
        }
        lemma_no_dot(t, i2 + 1);
    }
    proof {
        assert forall|c: ClaimsView, i: int, ch: char|
            #[trigger] issued_token(c, k).update(i, ch) == t && signing_input(c).len() < i
                < issued_token(c, k).len() && ch != issued_token(c, k)[i] implies false by {
            lemma_tampered_signature(c, k, i, ch);
        }
    }
    let header = match decode_segment(h) {
        Some(b) => b,
        None => return Err(ApiError::Unauthenticated),
    };
    let alg = match read_header_alg(header.as_slice()) {
        Some(a) => a,
        None => return Err(ApiError::Unauthenticated),
    };
    if !is_hs256(alg.as_str()) {
        return Err(ApiError::Unauthenticated);
    }
    let payload = match decode_segment(p) {
        Some(b) => b,
        None => return Err(ApiError::Unauthenticated),
    };
    let x = match read_claims(payload.as_slice()) {
        Some(x) => x,
        None => return Err(ApiError::Unauthenticated),
    };
    if now > x.exp {
        return Err(ApiError::Unauthenticated);
    }
    Ok(x)
}

/// Issues a token for a user at time `now`: it expires `TOKEN_LIFETIME`
/// seconds later.
pub fn encode_jwt(user_id: i32, email: &str, permission_level: i8, now: i64, secret: &str) -> (r:
    String)
    requires
        now <= LATEST_ISSUE_TIME,
    ensures
        r@ == issued_token(claims_at(user_id, email@, permission_level, now), secret@),
{
    let c = Claims {
        user_id,
        email: email.to_owned(),
        permission: permission_level,
        exp: now + TOKEN_LIFETIME,
        iat: now,
    };
    issue_token(&c, secret)
}

} // verus!
