//! Exact decimal numbers as benchmark tools print them (`5599.21`, `110`, `.5`).
use vstd::prelude::*;
use crate::text::{push_char, chars_between};

verus! {

pub open spec fn is_digit(c: char) -> bool {
    '0' <= c && c <= '9'
}

pub open spec fn all_digits(s: Seq<char>) -> bool {
    forall|i: int| 0 <= i < s.len() ==> is_digit(#[trigger] s[i])
}

/// The natural number written by the decimal digits `s` (empty is zero).
pub open spec fn digits_value(s: Seq<char>) -> nat
    decreases s.len(),
{
    if s.len() == 0 {
        0
    } else {
        digits_value(s.drop_last()) * 10 + ((s.last() as int) - ('0' as int)) as nat
    }
}

/// The mathematical content of a [`Decimal`]: digits before and after the point.
pub struct DecimalView {
    pub whole: Seq<char>,
    pub frac: Seq<char>,
}

impl DecimalView {
    /// Both parts are digit strings and at least one digit is present.
    pub open spec fn wf(self) -> bool {
        &&& all_digits(self.whole)
        &&& all_digits(self.frac)
        &&& self.whole.len() + self.frac.len() > 0
    }

    /// The number written, as a numerator over `10^scale()`.
    pub open spec fn numerator(self) -> nat {
        digits_value(self.whole + self.frac)
    }

    pub open spec fn scale(self) -> nat {
        self.frac.len()
    }
}

/// `s` is `d.` then digits: the point sits at index `k`.
pub open spec fn point_at(s: Seq<char>, k: int) -> bool {
    &&& 0 <= k < s.len()
    &&& s[k] == '.'
    &&& all_digits(s.take(k))
    &&& all_digits(s.skip(k + 1))
    &&& s.len() >= 2
}

/// What `str::parse::<f64>` accepts among strings of digits and points, and the
/// number it reads, kept exact: digits with at most one point and at least one digit.
pub open spec fn spec_parse_decimal(s: Seq<char>) -> Option<DecimalView> {
    if s.len() > 0 && all_digits(s) {
        Some(DecimalView { whole: s, frac: Seq::empty() })
    } else if exists|k: int| point_at(s, k) {
        let k = choose|k: int| point_at(s, k);
        Some(DecimalView { whole: s.take(k), frac: s.skip(k + 1) })
    } else {
        None
    }
}

/// A non-negative decimal number held exactly as its digits.
#[derive(Debug, PartialEq, Eq)]
pub struct Decimal {
    pub whole: String,
    pub frac: String,
}

impl View for Decimal {
    type V = DecimalView;

    open spec fn view(&self) -> DecimalView {
        DecimalView { whole: self.whole@, frac: self.frac@ }
    }
}

proof fn lemma_point_unique(s: Seq<char>, k1: int, k2: int)
    requires
        point_at(s, k1),
        point_at(s, k2),
    ensures
        k1 == k2,
{
    if k1 < k2 {
        assert(s.skip(k1 + 1)[k2 - k1 - 1] == s[k2]);
    } else if k2 < k1 {
        assert(s.skip(k2 + 1)[k1 - k2 - 1] == s[k1]);
    }
}

fn is_digit_exec(c: char) -> (r: bool)
    ensures
        r == is_digit(c),
{
    '0' <= c && c <= '9'
}

/// Whether every character in `v[from..to]` is a digit.
fn digits_between(v: &Vec<char>, from: usize, to: usize) -> (r: bool)
    requires
        from <= to <= v.len(),
    ensures
        r == all_digits(v@.subrange(from as int, to as int)),
{
    let mut i = from;
    while i < to
        invariant
            from <= i <= to <= v.len(),
            all_digits(v@.subrange(from as int, i as int)),
        decreases to - i,
    {
        if !is_digit_exec(v[i]) {
            assert(v@.subrange(from as int, to as int)[i - from] == v@[i as int]);
            return false;
        }
        assert(v@.subrange(from as int, i + 1) =~= v@.subrange(from as int, i as int).push(v@[i as int]));
        i = i + 1;
    }
    true
}

/// Reads a decimal number from digits and at most one point.
pub fn parse_decimal(s: &str) -> (r: Option<Decimal>)
    ensures
        match r {
            Some(d) => spec_parse_decimal(s@) == Some(d@),
            None => spec_parse_decimal(s@).is_none(),
        },
{
    let v = crate::text::chars_of(s);
    let n = v.len();
    // index of the first point, if any
    let mut k: usize = 0;
    while k < n && v[k] != '.'
        invariant
            k <= n == v.len(),
            forall|j: int| 0 <= j < k ==> v@[j] != '.',
        decreases n - k,
    {
        k = k + 1;
    }
    if k == n {
        // no point at all
        assert(forall|j: int| 0 <= j < n ==> v@[j] != '.');
        assert(v@.subrange(0, n as int) == v@);
        if n > 0 && digits_between(&v, 0, n) {
            return Some(Decimal { whole: chars_between(&v, 0, n), frac: String::new() });
        }
        assert(forall|j: int| !point_at(v@, j));
        return None;
    }
    assert(v@[k as int] == '.');
    assert(v@.take(k as int) == v@.subrange(0, k as int));
    assert(v@.skip(k + 1) == v@.subrange(k + 1, n as int));
    assert(!all_digits(v@)) by {
        assert(!is_digit(v@[k as int]));
    }
    if n >= 2 && digits_between(&v, 0, k) && digits_between(&v, k + 1, n) {
        assert(point_at(v@, k as int));
        proof {
            let c = choose|j: int| point_at(v@, j);
            lemma_point_unique(v@, c, k as int);
        }
        return Some(Decimal { whole: chars_between(&v, 0, k), frac: chars_between(&v, k + 1, n) });
    }
    assert forall|j: int| !point_at(v@, j) by {
        if point_at(v@, j) {
            if j > k {
                assert(v@.take(j)[k as int] == v@[k as int]);
            } else if j < k {
                assert(v@[j] != '.');
            }
        }
    }
    None
}

impl Decimal {
    /// The number as decimal text with a point, e.g. `25.2` or `110.`, which
    /// `str::parse::<f64>` reads back.
    pub fn to_text(&self) -> (t: String)
        ensures
            t@ == self.whole@ + seq!['.'] + self.frac@,
    {
        let mut t = self.whole.clone();
        push_char(&mut t, '.');
        t.append(self.frac.as_str());
        t
    }

    /// The same number times one thousand, by moving the point three places right.
    pub fn times_thousand(&self) -> (r: Decimal)
        ensures
            r@ == spec_times_thousand(self@),
    {
        let f = crate::text::chars_of(self.frac.as_str());
        let moved: usize = if f.len() < 3 { f.len() } else { 3 };
        let mut whole = self.whole.clone();
        let mut i: usize = 0;
        while i < moved
            invariant
                moved <= 3,
                moved <= f.len(),
                f@ == self.frac@,
                i <= moved,
                whole@ == self.whole@ + f@.take(i as int),
            decreases moved - i,
        {
            push_char(&mut whole, f[i]);
            assert(f@.take(i + 1) == f@.take(i as int).push(f@[i as int]));
            i = i + 1;
        }
        let mut z: usize = moved;
        while z < 3
            invariant
                moved <= z <= 3,
                whole@ == self.whole@ + f@.take(moved as int) + zeros((z - moved) as nat),
            decreases 3 - z,
        {
            push_char(&mut whole, '0');
            assert(zeros((z + 1 - moved) as nat) == zeros((z - moved) as nat).push('0'));
            z = z + 1;
        }
        let frac = chars_between(&f, moved, f.len());
        assert(f@.subrange(moved as int, f.len() as int) == f@.skip(moved as int));
        Decimal { whole, frac }
    }
}

/// `n` zero digits.
pub open spec fn zeros(n: nat) -> Seq<char> {
    Seq::new(n, |i: int| '0')
}

/// The point moved three places to the right, padding with zeros.
pub open spec fn spec_times_thousand(d: DecimalView) -> DecimalView {
    let m: int = if d.frac.len() < 3 { d.frac.len() as int } else { 3 };
    DecimalView { whole: d.whole + d.frac.take(m) + zeros((3 - m) as nat), frac: d.frac.skip(m) }
}

/// Ten to the power `n`.
pub open spec fn pow10(n: nat) -> nat
    decreases n,
{
    if n == 0 {
        1
    } else {
        10 * pow10((n - 1) as nat)
    }
}

proof fn lemma_pow10_adds(a: nat, b: nat)
    ensures
        pow10(a + b) == pow10(a) * pow10(b),
    decreases a,
{
    if a > 0 {
        lemma_pow10_adds((a - 1) as nat, b);
        let x = pow10((a - 1) as nat);
        let y = pow10(b);
        let pa = pow10(a);
        let pab = pow10(a + b);
        assert(pab == 10 * pow10(((a - 1) as nat + b) as nat));
        assert(pab == pa * y) by (nonlinear_arith)
            requires
                pa == 10 * x,
                pab == 10 * (x * y),
        ;
    } else {
        let y = pow10(b);
        assert(pow10(0) == 1);
        assert(1 * y == y);
    }
}

/// Appending `n` zero digits multiplies the value by `10^n`.
proof fn lemma_digits_append_zeros(s: Seq<char>, n: nat)
    ensures
        digits_value(s + zeros(n)) == digits_value(s) * pow10(n),
    decreases n,
{
    if n == 0 {
        assert(s + zeros(0) =~= s);
        let v = digits_value(s);
        assert(pow10(0) == 1);
        assert(v * 1 == v);
    } else {
        let x = s + zeros(n);
        assert(x.drop_last() =~= s + zeros((n - 1) as nat));
        assert(x.last() == '0');
        lemma_digits_append_zeros(s, (n - 1) as nat);
        let v = digits_value(s);
        let p = pow10((n - 1) as nat);
        let dx = digits_value(x);
        let pn = pow10(n);
        assert(dx == digits_value(x.drop_last()) * 10);
        assert(dx == v * pn) by (nonlinear_arith)
            requires
                dx == (v * p) * 10,
                pn == 10 * p,
        ;
    }
}

/// Reading back the text of a decimal gives the same decimal: `to_text` and
/// `parse_decimal` undo each other.
pub proof fn law_decimal_text_round_trip(d: DecimalView)
    requires
        d.wf(),
    ensures
        spec_parse_decimal(d.whole + seq!['.'] + d.frac) == Some(d),
{
    let s = d.whole + seq!['.'] + d.frac;
    let k = d.whole.len() as int;
    assert(s[k] == '.');
    assert(s.take(k) =~= d.whole);
    assert(s.skip(k + 1) =~= d.frac);
    assert(point_at(s, k));
    assert(!is_digit(s[k]));
    let c = choose|j: int| point_at(s, j);
    lemma_point_unique(s, c, k);
    assert(spec_parse_decimal(s) == Some(DecimalView { whole: s.take(k), frac: s.skip(k + 1) }));
}

/// Moving the point three places right multiplies the number by a thousand:
/// `numerator / 10^scale` of the result is a thousand times that of `d`.
pub proof fn law_times_thousand_value(d: DecimalView)
    ensures
        spec_times_thousand(d).numerator() * pow10(d.scale()) == 1000 * d.numerator() * pow10(spec_times_thousand(d).scale()),
{
    let t = spec_times_thousand(d);
    let n = d.numerator();
    let sc = d.scale();
    assert(pow10(3) == 1000) by {
        reveal_with_fuel(pow10, 4);
    }
    if d.frac.len() >= 3 {
        assert(t.whole + t.frac =~= d.whole + d.frac) by {
            assert(zeros(0) =~= Seq::<char>::empty());
            assert(d.frac.take(3) + d.frac.skip(3) =~= d.frac);
        }
        lemma_pow10_adds(3, (sc - 3) as nat);
        let q = pow10((sc - 3) as nat);
        let ps = pow10(sc);
        assert(t.numerator() == n);
        assert(t.scale() == sc - 3);
        assert(ps == 1000 * q);
        assert(n * ps == 1000 * n * q) by (nonlinear_arith)
            requires
                ps == 1000 * q,
        ;
    } else {
        let m = d.frac.len();
        assert(t.whole + t.frac =~= (d.whole + d.frac) + zeros((3 - m) as nat)) by {
            assert(d.frac.take(m as int) =~= d.frac);
            assert(d.frac.skip(m as int) =~= Seq::<char>::empty());
        }
        lemma_digits_append_zeros(d.whole + d.frac, (3 - m) as nat);
        lemma_pow10_adds((3 - m) as nat, m);
        assert(t.scale() == 0);
        let a = pow10((3 - m) as nat);
        let b = pow10(m);
        let tn = t.numerator();
        assert(tn == n * a);
        assert(a * b == 1000);
        assert(tn * b == 1000 * n * pow10(0)) by (nonlinear_arith)
            requires
                tn == n * a,
                a * b == 1000,
                pow10(0) == 1,
        ;
    }
}

} // verus!
