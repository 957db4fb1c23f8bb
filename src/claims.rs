use crate::text::{
    escape, int_text, lemma_escape_injective, lemma_int_text_unique, push_escaped, push_int,
};
use vstd::prelude::*;
use vstd::utf8::{encode_utf8, encode_utf8_decode_utf8};

verus! {

/// Identity, permission tier and validity window carried by a session
/// token. Times are seconds since the Unix epoch.
pub struct Claims {
    pub user_id: i32,
    pub email: String,
    pub permission: i8,
    pub exp: i64,
    pub iat: i64,
}

/// What a `Claims` value holds.
pub struct ClaimsView {
    pub user_id: i32,
    pub email: Seq<char>,
    pub permission: i8,
    pub exp: i64,
    pub iat: i64,
}

impl View for Claims {
    type V = ClaimsView;

    open spec fn view(&self) -> ClaimsView {
        ClaimsView {
            user_id: self.user_id,
            email: self.email@,
            permission: self.permission,
            exp: self.exp,
            iat: self.iat,
        }
    }
}

/// The bytes of `{"user_id":`.
pub open spec fn lit_head() -> Seq<u8> {
    seq![123u8, 34u8, 117u8, 115u8, 101u8, 114u8, 95u8, 105u8, 100u8, 34u8, 58u8]
}

/// The bytes of `,"permission":`.
pub open spec fn lit_perm() -> Seq<u8> {
    seq![44u8, 34u8, 112u8, 101u8, 114u8, 109u8, 105u8, 115u8, 115u8, 105u8, 111u8, 110u8, 34u8, 58u8]
}

/// The bytes of `,"exp":`.
pub open spec fn lit_exp() -> Seq<u8> {
    seq![44u8, 34u8, 101u8, 120u8, 112u8, 34u8, 58u8]
}

/// The bytes of `,"iat":`.
pub open spec fn lit_iat() -> Seq<u8> {
    seq![44u8, 34u8, 105u8, 97u8, 116u8, 34u8, 58u8]
}

/// The bytes of `,"email":"`.
pub open spec fn lit_email() -> Seq<u8> {
    seq![44u8, 34u8, 101u8, 109u8, 97u8, 105u8, 108u8, 34u8, 58u8, 34u8]
}

/// The bytes of `"}`.
pub open spec fn lit_tail() -> Seq<u8> {
    seq![34u8, 125u8]
}

/// The JSON payload of a token:
/// `{"user_id":U,"permission":P,"exp":E,"iat":I,"email":"M"}`.
pub open spec fn claims_json(c: ClaimsView) -> Seq<u8> {
    lit_head() + (int_text(c.user_id as int) + (lit_perm() + (int_text(c.permission as int) + (
    lit_exp() + (int_text(c.exp as int) + (lit_iat() + (int_text(c.iat as int) + (lit_email() + (
    escape(encode_utf8(c.email)) + lit_tail())))))))))
}

fn push_lit_head(out: &mut Vec<u8>)
    ensures
        final(out)@ == old(out)@ + lit_head(),
{
    out.push(123);
    out.push(34);
    out.push(117);
    out.push(115);
    out.push(101);
    out.push(114);
    out.push(95);
    out.push(105);
    out.push(100);
    out.push(34);
    out.push(58);
    assert(final(out)@ =~= old(out)@ + lit_head());
}

fn push_lit_perm(out: &mut Vec<u8>)
    ensures
        final(out)@ == old(out)@ + lit_perm(),
{
    out.push(44);
    out.push(34);
    out.push(112);
    out.push(101);
    out.push(114);
    out.push(109);
    out.push(105);
    out.push(115);
    out.push(115);
    out.push(105);
    out.push(111);
    out.push(110);
    out.push(34);
    out.push(58);
    assert(final(out)@ =~= old(out)@ + lit_perm());
}

fn push_lit_exp(out: &mut Vec<u8>)
    ensures
        final(out)@ == old(out)@ + lit_exp(),
{
    out.push(44);
    out.push(34);
    out.push(101);
    out.push(120);
    out.push(112);
    out.push(34);
    out.push(58);
    assert(final(out)@ =~= old(out)@ + lit_exp());
}

fn push_lit_iat(out: &mut Vec<u8>)
    ensures
        final(out)@ == old(out)@ + lit_iat(),
{
    out.push(44);
    out.push(34);
    out.push(105);
    out.push(97);
    out.push(116);
    out.push(34);
    out.push(58);
    assert(final(out)@ =~= old(out)@ + lit_iat());
}

fn push_lit_email(out: &mut Vec<u8>)
    ensures
        final(out)@ == old(out)@ + lit_email(),
{
    out.push(44);
    out.push(34);
    out.push(101);
    out.push(109);
    out.push(97);
    out.push(105);
    out.push(108);
    out.push(34);
    out.push(58);
    out.push(34);
    assert(final(out)@ =~= old(out)@ + lit_email());
}

fn push_lit_tail(out: &mut Vec<u8>)
    ensures
        final(out)@ == old(out)@ + lit_tail(),
{
    out.push(34);
    out.push(125);
    assert(final(out)@ =~= old(out)@ + lit_tail());
}

/// Renders the JSON payload of `c`.
#[verifier::rlimit(50)]
pub fn render_claims(c: &Claims) -> (r: Vec<u8>)
    ensures
        r@ == claims_json(c@),
{
    let mut out: Vec<u8> = Vec::new();
    push_lit_head(&mut out);
    push_int(c.user_id as i64, &mut out);
    push_lit_perm(&mut out);
    push_int(c.permission as i64, &mut out);
    push_lit_exp(&mut out);
    push_int(c.exp, &mut out);
    push_lit_iat(&mut out);
    push_int(c.iat, &mut out);
    push_lit_email(&mut out);
    push_escaped(c.email.as_str().as_bytes(), &mut out);
    push_lit_tail(&mut out);
    assert(out@ =~= claims_json(c@));
    out
}

/// Distinct claims have distinct payloads.
pub proof fn lemma_claims_json_injective(c1: ClaimsView, c2: ClaimsView)
    requires
        claims_json(c1) == claims_json(c2),
    ensures
        c1 == c2,
{
    let e1 = escape(encode_utf8(c1.email));
    let e2 = escape(encode_utf8(c2.email));
    let t1 = claims_json(c1).skip(lit_head().len() as int);
    let t2 = claims_json(c2).skip(lit_head().len() as int);
    assert(t1 =~= int_text(c1.user_id as int) + (lit_perm() + (int_text(c1.permission as int) + (
    lit_exp() + (int_text(c1.exp as int) + (lit_iat() + (int_text(c1.iat as int) + (lit_email() + (
    e1 + lit_tail())))))))));
    assert(t2 =~= int_text(c2.user_id as int) + (lit_perm() + (int_text(c2.permission as int) + (
    lit_exp() + (int_text(c2.exp as int) + (lit_iat() + (int_text(c2.iat as int) + (lit_email() + (
    e2 + lit_tail())))))))));
    let a1 = lit_perm() + (int_text(c1.permission as int) + (lit_exp() + (int_text(c1.exp as int) + (
    lit_iat() + (int_text(c1.iat as int) + (lit_email() + (e1 + lit_tail())))))));
    let a2 = lit_perm() + (int_text(c2.permission as int) + (lit_exp() + (int_text(c2.exp as int) + (
    lit_iat() + (int_text(c2.iat as int) + (lit_email() + (e2 + lit_tail())))))));
    lemma_int_text_unique(c1.user_id as int, a1, c2.user_id as int, a2);
    let b1 = a1.skip(lit_perm().len() as int);
    let b2 = a2.skip(lit_perm().len() as int);
    let q1 = lit_exp() + (int_text(c1.exp as int) + (lit_iat() + (int_text(c1.iat as int) + (
    lit_email() + (e1 + lit_tail())))));
    let q2 = lit_exp() + (int_text(c2.exp as int) + (lit_iat() + (int_text(c2.iat as int) + (
    lit_email() + (e2 + lit_tail())))));
    assert(b1 =~= int_text(c1.permission as int) + q1);
    assert(b2 =~= int_text(c2.permission as int) + q2);
    lemma_int_text_unique(c1.permission as int, q1, c2.permission as int, q2);
    let w1 = lit_iat() + (int_text(c1.iat as int) + (lit_email() + (e1 + lit_tail())));
    let w2 = lit_iat() + (int_text(c2.iat as int) + (lit_email() + (e2 + lit_tail())));
    assert(q1.skip(lit_exp().len() as int) =~= int_text(c1.exp as int) + w1);
    assert(q2.skip(lit_exp().len() as int) =~= int_text(c2.exp as int) + w2);
    lemma_int_text_unique(c1.exp as int, w1, c2.exp as int, w2);
    let z1 = lit_email() + (e1 + lit_tail());
    let z2 = lit_email() + (e2 + lit_tail());
    assert(w1.skip(lit_iat().len() as int) =~= int_text(c1.iat as int) + z1);
    assert(w2.skip(lit_iat().len() as int) =~= int_text(c2.iat as int) + z2);
    lemma_int_text_unique(c1.iat as int, z1, c2.iat as int, z2);
    let y1 = z1.skip(lit_email().len() as int);
    let y2 = z2.skip(lit_email().len() as int);
    assert(y1 =~= e1 + lit_tail());
    assert(y2 =~= e2 + lit_tail());
    assert(e1 =~= y1.subrange(0, y1.len() - 2));
    assert(e2 =~= y2.subrange(0, y2.len() - 2));
    lemma_escape_injective(encode_utf8(c1.email), encode_utf8(c2.email));
    encode_utf8_decode_utf8(c1.email);
    encode_utf8_decode_utf8(c2.email);
}

} // verus!
