use vstd::prelude::*;

verus! {

/// The byte of the decimal digit `d`.
pub open spec fn digit_byte(d: nat) -> u8 {
    (48 + d) as u8
}

pub open spec fn is_digit(b: u8) -> bool {
    48 <= b <= 57
}

/// Decimal digits of `n`, most significant first, without leading zeros.
pub open spec fn decimal(n: nat) -> Seq<u8>
    decreases n,
{
    if n < 10 {
        seq![digit_byte(n)]
    } else {
        decimal(n / 10).push(digit_byte(n % 10))
    }
}

/// Text of an integer: a minus sign for negative values, then its digits.
pub open spec fn int_text(v: int) -> Seq<u8> {
    if v < 0 {
        seq![45u8] + decimal((-v) as nat)
    } else {
        decimal(v as nat)
    }
}

/// Value of a run of digit bytes.
pub open spec fn digits_value(s: Seq<u8>) -> nat
    decreases s.len(),
{
    if s.len() == 0 {
        0
    } else {
        digits_value(s.drop_last()) * 10 + (s.last() - 48) as nat
    }
}

pub proof fn lemma_decimal(n: nat)
    ensures
        decimal(n).len() >= 1,
        forall|i: int| 0 <= i < decimal(n).len() ==> is_digit(#[trigger] decimal(n)[i]),
        digits_value(decimal(n)) == n,
        forall|k: int| 0 <= k <= decimal(n).len() ==> digits_value(#[trigger] decimal(n).take(k)) <= n,
    decreases n,
{
    if n < 10 {
        let d = decimal(n);
        assert(d.drop_last() =~= Seq::<u8>::empty());
        assert(digits_value(Seq::<u8>::empty()) == 0);
        assert(digits_value(d) == n);
        assert forall|k: int| 0 <= k <= d.len() implies digits_value(#[trigger] d.take(k)) <= n by {
            if k == 0 {
                assert(d.take(k) =~= Seq::<u8>::empty());
            } else {
                assert(d.take(k) =~= d);
            }
        }
    } else {
        lemma_decimal(n / 10);
        let p = decimal(n / 10);
        let d = decimal(n);
        assert(d.drop_last() =~= p);
        assert(d.last() == digit_byte(n % 10));
        assert(digits_value(d) == digits_value(p) * 10 + (d.last() - 48) as nat);
        assert(digits_value(d) == n);
        assert forall|k: int| 0 <= k <= d.len() implies digits_value(#[trigger] d.take(k)) <= n by {
            if k < d.len() {
                assert(d.take(k) =~= p.take(k));
                assert(digits_value(p.take(k)) <= n / 10);
            } else {
                assert(d.take(k) =~= d);
            }
        }
    }
}

/// Appends the decimal digits of `n`.
pub fn push_decimal(n: u64, out: &mut Vec<u8>)
    ensures
        final(out)@ == old(out)@ + decimal(n as nat),
    decreases n,
{
    if n >= 10 {
        push_decimal(n / 10, out);
    }
    out.push(48 + (n % 10) as u8);
    proof {
        if n >= 10 {
            assert(decimal(n as nat) == decimal((n / 10) as nat).push(digit_byte((n % 10) as nat)));
        }
        assert(final(out)@ =~= old(out)@ + decimal(n as nat));
    }
}

/// Appends the text of `v`.
pub fn push_int(v: i64, out: &mut Vec<u8>)
    ensures
        final(out)@ == old(out)@ + int_text(v as int),
{
    if v < 0 {
        out.push(45);
        let m: u64 = (-(v + 1)) as u64 + 1;
        push_decimal(m, out);
        assert(final(out)@ =~= old(out)@ + int_text(v as int));
    } else {
        push_decimal(v as u64, out);
    }
}

/// Lower-case hexadecimal digit of `d`.
pub open spec fn hex_digit(d: nat) -> u8 {
    if d < 10 {
        (48 + d) as u8
    } else {
        (87 + d) as u8
    }
}

/// How one byte stands inside a JSON string literal: the quote and the
/// backslash get a backslash, control bytes become `\u00XX`.
pub open spec fn escape_byte(x: u8) -> Seq<u8> {
    if x == 34 {
        seq![92u8, 34u8]
    } else if x == 92 {
        seq![92u8, 92u8]
    } else if x < 32 {
        seq![92u8, 117u8, 48u8, 48u8, hex_digit((x / 16) as nat), hex_digit((x % 16) as nat)]
    } else {
        seq![x]
    }
}

/// The body of a JSON string literal holding `s`.
pub open spec fn escape(s: Seq<u8>) -> Seq<u8>
    decreases s.len(),
{
    if s.len() == 0 {
        Seq::empty()
    } else {
        escape(s.drop_last()) + escape_byte(s.last())
    }
}

pub proof fn lemma_escape_concat(a: Seq<u8>, b: Seq<u8>)
    ensures
        escape(a + b) == escape(a) + escape(b),
    decreases b.len(),
{
    if b.len() == 0 {
        assert(a + b =~= a);
        assert(escape(a) + escape(b) =~= escape(a));
    } else {
        assert((a + b).drop_last() =~= a + b.drop_last());
        lemma_escape_concat(a, b.drop_last());
        assert(escape(a + b) =~= escape(a) + escape(b));
    }
}

pub proof fn lemma_escape_split(s: Seq<u8>, k: int)
    requires
        0 <= k < s.len(),
    ensures
        escape(s) == escape(s.take(k)) + (escape_byte(s[k]) + escape(s.skip(k + 1))),
        escape(s.take(k + 1)) == escape(s.take(k)) + escape_byte(s[k]),
{
    let one = seq![s[k]];
    assert(one.drop_last() =~= Seq::<u8>::empty());
    assert(escape(Seq::<u8>::empty()) =~= Seq::<u8>::empty());
    assert(escape(one) == escape(one.drop_last()) + escape_byte(one.last()));
    assert(escape(one) =~= escape_byte(s[k]));
    assert(s =~= s.take(k) + (one + s.skip(k + 1)));
    lemma_escape_concat(s.take(k), one + s.skip(k + 1));
    lemma_escape_concat(one, s.skip(k + 1));
    assert(s.take(k + 1) =~= s.take(k) + one);
    lemma_escape_concat(s.take(k), one);
}

fn hex_byte(d: u8) -> (r: u8)
    requires
        d < 16,
    ensures
        r == hex_digit(d as nat),
{
    if d < 10 {
        48 + d
    } else {
        87 + d
    }
}

/// Appends the body of a JSON string literal holding `s`.
pub fn push_escaped(s: &[u8], out: &mut Vec<u8>)
    ensures
        final(out)@ == old(out)@ + escape(s@),
{
    let mut i: usize = 0;
    proof {
        assert(s@.take(0) =~= Seq::<u8>::empty());
        assert(out@ =~= old(out)@ + escape(s@.take(0)));
    }
    while i < s.len()
        invariant
            i <= s@.len(),
            out@ == old(out)@ + escape(s@.take(i as int)),
        decreases s@.len() - i,
    {
        let x = s[i];
        proof {
            lemma_escape_split(s@, i as int);
        }
        let ghost before = out@;
        if x == 34 {
            out.push(92);
            out.push(34);
        } else if x == 92 {
            out.push(92);
            out.push(92);
        } else if x < 32 {
            out.push(92);
            out.push(117);
            out.push(48);
            out.push(48);
            out.push(hex_byte(x / 16));
            out.push(hex_byte(x % 16));
        } else {
            out.push(x);
        }
        assert(out@ =~= before + escape_byte(x));
        i = i + 1;
    }
    assert(s@.take(i as int) =~= s@);
}

pub proof fn lemma_int_text(v: int)
    ensures
        int_text(v).len() >= 1,
        forall|i: int| 1 <= i < int_text(v).len() ==> is_digit(#[trigger] int_text(v)[i]),
        v < 0 <==> int_text(v)[0] == 45,
        v >= 0 ==> is_digit(int_text(v)[0]) && int_text(v) == decimal(v as nat),
        v < 0 ==> int_text(v).skip(1) == decimal((-v) as nat),
{
    if v < 0 {
        lemma_decimal((-v) as nat);
        let d = decimal((-v) as nat);
        assert(int_text(v).skip(1) =~= d);
        assert forall|i: int| 1 <= i < int_text(v).len() implies is_digit(#[trigger] int_text(v)[i]) by {
            assert(int_text(v)[i] == d[i - 1]);
        }
    } else {
        lemma_decimal(v as nat);
    }
}

/// Two integer texts that are each followed by a byte that is no digit can
/// only be read one way.
pub proof fn lemma_int_text_unique(v1: int, r1: Seq<u8>, v2: int, r2: Seq<u8>)
    requires
        int_text(v1) + r1 == int_text(v2) + r2,
        r1.len() > 0,
        r2.len() > 0,
        !is_digit(r1[0]),
        !is_digit(r2[0]),
    ensures
        v1 == v2,
        r1 == r2,
{
    let t1 = int_text(v1);
    let t2 = int_text(v2);
    let s = t1 + r1;
    lemma_int_text(v1);
    lemma_int_text(v2);
    if t1.len() < t2.len() {
        assert(s[t1.len() as int] == r1[0]);
        assert(s[t1.len() as int] == t2[t1.len() as int]);
        assert(false);
    }
    if t2.len() < t1.len() {
        assert(s[t2.len() as int] == r2[0]);
        assert(s[t2.len() as int] == t1[t2.len() as int]);
        assert(false);
    }
    assert(t1 =~= s.subrange(0, t1.len() as int));
    assert(t2 =~= s.subrange(0, t1.len() as int));
    assert(r1 =~= s.skip(t1.len() as int));
    assert(r2 =~= s.skip(t1.len() as int));
    if v1 < 0 {
        lemma_decimal((-v1) as nat);
        lemma_decimal((-v2) as nat);
    } else {
        lemma_decimal(v1 as nat);
        lemma_decimal(v2 as nat);
    }
}

pub proof fn lemma_escape_byte_unique(x1: u8, t1: Seq<u8>, x2: u8, t2: Seq<u8>)
    requires
        escape_byte(x1) + t1 == escape_byte(x2) + t2,
    ensures
        x1 == x2,
        t1 == t2,
{
    let e1 = escape_byte(x1);
    let e2 = escape_byte(x2);
    let s = e1 + t1;
    assert(s[0] == e1[0] && s[0] == e2[0]);
    if e1.len() >= 2 && e2.len() >= 2 {
        assert(s[1] == e1[1] && s[1] == e2[1]);
    }
    if e1.len() == 6 && e2.len() == 6 {
        assert(s[4] == e1[4] && s[4] == e2[4]);
        assert(s[5] == e1[5] && s[5] == e2[5]);
        assert(x1 / 16 == x2 / 16);
        assert(x1 % 16 == x2 % 16);
    }
    assert(x1 == x2);
    assert(t1 =~= s.skip(e1.len() as int));
    assert(t2 =~= s.skip(e1.len() as int));
}

pub proof fn lemma_escape_injective(s1: Seq<u8>, s2: Seq<u8>)
    requires
        escape(s1) == escape(s2),
    ensures
        s1 == s2,
    decreases s1.len(),
{
    assert(escape(Seq::<u8>::empty()) =~= Seq::<u8>::empty());
    if s1.len() > 0 {
        lemma_escape_split(s1, 0);
        assert(s1.take(0) =~= Seq::<u8>::empty());
    }
    if s2.len() > 0 {
        lemma_escape_split(s2, 0);
        assert(s2.take(0) =~= Seq::<u8>::empty());
    }
    if s1.len() == 0 && s2.len() == 0 {
        assert(s1 =~= s2);
    } else if s1.len() == 0 || s2.len() == 0 {
        assert(false);
    } else {
        assert(escape(s1) =~= escape_byte(s1[0]) + escape(s1.skip(1)));
        assert(escape(s2) =~= escape_byte(s2[0]) + escape(s2.skip(1)));
        lemma_escape_byte_unique(s1[0], escape(s1.skip(1)), s2[0], escape(s2.skip(1)));
        lemma_escape_injective(s1.skip(1), s2.skip(1));
        assert(s1 =~= seq![s1[0]] + s1.skip(1));
        assert(s2 =~= seq![s2[0]] + s2.skip(1));
    }
}

} // verus!
