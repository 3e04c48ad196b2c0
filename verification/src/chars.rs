use vstd::prelude::*;

verus! {

/// The digit character for a value below sixteen, lower or upper case.
pub open spec fn spec_digit(d: nat, upper: bool) -> char {
    if d < 10 {
        ((48 + d) as u8) as char
    } else if upper {
        ((55 + d) as u8) as char
    } else {
        ((87 + d) as u8) as char
    }
}

/// The digits of `n` in the given base, most significant first, with no sign
/// and no leading zeros (zero itself is the single digit `0`).
pub open spec fn spec_radix(n: nat, base: nat, upper: bool) -> Seq<char>
    decreases n,
    via spec_radix_dec
{
    if n < base || base < 2 {
        seq![spec_digit(n, upper)]
    } else {
        spec_radix(n / base, base, upper) + seq![spec_digit(n % base, upper)]
    }
}

#[via_fn]
proof fn spec_radix_dec(n: nat, base: nat, upper: bool) {
    if !(n < base || base < 2) {
        vstd::arithmetic::div_mod::lemma_div_is_strictly_smaller(n as int, base as int);
    }
}

/// The decimal rendering of a signed value: a `-` sign for negative values,
/// then the digits of the magnitude.
pub open spec fn spec_decimal(n: int) -> Seq<char> {
    if n < 0 {
        seq!['-'] + spec_radix((-n) as nat, 10, false)
    } else {
        spec_radix(n as nat, 10, false)
    }
}

/// The digits with their trailing zeros removed.
pub open spec fn spec_trim_zeros(s: Seq<char>) -> Seq<char>
    decreases s.len(),
{
    if s.len() > 0 && s.last() == '0' {
        spec_trim_zeros(s.drop_last())
    } else {
        s
    }
}

/// The scientific form built from decimal digits: the leading digit, the
/// remaining digits with trailing zeros removed behind a decimal point (if
/// any remain), the exponent marker, and the exponent — one less than the
/// number of digits.
pub open spec fn spec_exp_digits(ds: Seq<char>, upper: bool) -> Seq<char> {
    let m = spec_trim_zeros(ds);
    let head = if m.len() == 0 {
        seq!['0']
    } else {
        seq![m[0]]
    };
    let tail = if m.len() >= 2 {
        seq!['.'] + m.subrange(1, m.len() as int)
    } else {
        Seq::<char>::empty()
    };
    let marker = if upper {
        seq!['E']
    } else {
        seq!['e']
    };
    head + tail + marker + spec_radix((ds.len() - 1) as nat, 10, false)
}

/// The scientific form of an unsigned value.
pub open spec fn spec_exp_nat(n: nat, upper: bool) -> Seq<char> {
    spec_exp_digits(spec_radix(n, 10, false), upper)
}

/// The scientific form of a signed value: a `-` sign for negative values,
/// then the scientific form of the magnitude.
pub open spec fn spec_exp_int(n: int, upper: bool) -> Seq<char> {
    if n < 0 {
        seq!['-'] + spec_exp_nat((-n) as nat, upper)
    } else {
        spec_exp_nat(n as nat, upper)
    }
}

/// A value's digits are never more numerous than the value itself plus one.
pub proof fn lemma_radix_len(n: nat, base: nat, upper: bool)
    requires
        2 <= base,
    ensures
        spec_radix(n, base, upper).len() <= n + 1,
    decreases n,
{
    if n >= base {
        vstd::arithmetic::div_mod::lemma_div_is_strictly_smaller(n as int, base as int);
        lemma_radix_len(n / base, base, upper);
    }
}

/// The scientific form of an unsigned value.
pub fn exp_chars_u64(n: u64, upper: bool) -> (r: Vec<char>)
    ensures
        r@ == spec_exp_nat(n as nat, upper),
{
    let ds = radix_chars(n, 10, false);
    let mut k = ds.len();
    proof {
        assert(ds@.subrange(0, k as int) =~= ds@);
    }
    while k > 0 && ds[k - 1] == '0'
        invariant
            k <= ds@.len(),
            spec_trim_zeros(ds@.subrange(0, k as int)) == spec_trim_zeros(ds@),
        decreases k,
    {
        proof {
            assert(ds@.subrange(0, k as int).drop_last() =~= ds@.subrange(0, k - 1));
        }
        k = k - 1;
    }
    let ghost m = spec_trim_zeros(ds@);
    proof {
        assert(ds@.subrange(0, k as int) =~= m);
    }
    let mut out: Vec<char> = Vec::new();
    if k == 0 {
        out.push('0');
    } else {
        out.push(ds[0]);
        proof {
            assert(m[0] == ds@[0]);
        }
    }
    let ghost head_tail = if m.len() == 0 {
        seq!['0']
    } else {
        seq![m[0]]
    };
    if k >= 2 {
        out.push('.');
        let mut i: usize = 1;
        while i < k
            invariant
                1 <= i <= k,
                k <= ds@.len(),
                m == ds@.subrange(0, k as int),
                head_tail == seq![m[0]],
                out@ == head_tail + seq!['.'] + ds@.subrange(1, i as int),
            decreases k - i,
        {
            out.push(ds[i]);
            proof {
                assert(out@ =~= head_tail + seq!['.'] + ds@.subrange(1, i + 1));
            }
            i = i + 1;
        }
        proof {
            assert(ds@.subrange(1, k as int) =~= m.subrange(1, m.len() as int));
        }
    }
    out.push(if upper {
        'E'
    } else {
        'e'
    });
    proof {
        lemma_radix_len(n as nat, 10, false);
    }
    let e = ds.len() - 1;
    let mut ev = radix_chars(e as u64, 10, false);
    out.append(&mut ev);
    proof {
        assert(out@ =~= spec_exp_nat(n as nat, upper));
    }
    out
}

/// The scientific form of a signed 64-bit value.
pub fn exp_chars_i64(n: i64, upper: bool) -> (r: Vec<char>)
    ensures
        r@ == spec_exp_int(n as int, upper),
{
    if n < 0 {
        let mag: u64 = (-(n as i128)) as u64;
        let mut tail = exp_chars_u64(mag, upper);
        let mut out: Vec<char> = Vec::new();
        out.push('-');
        out.append(&mut tail);
        proof {
            assert(out@ =~= spec_exp_int(n as int, upper));
        }
        out
    } else {
        exp_chars_u64(n as u64, upper)
    }
}

/// The escape of one character inside a debug-form string: backslash escapes
/// for newline, tab, carriage return, the double quote and the backslash;
/// every other character stands for itself.
pub open spec fn spec_escape_char(c: char) -> Seq<char> {
    if c == '\n' {
        seq!['\\', 'n']
    } else if c == '\t' {
        seq!['\\', 't']
    } else if c == '\r' {
        seq!['\\', 'r']
    } else if c == '"' {
        seq!['\\', '"']
    } else if c == '\\' {
        seq!['\\', '\\']
    } else {
        seq![c]
    }
}

/// The escaped body of a text, character by character.
pub open spec fn spec_escape(s: Seq<char>) -> Seq<char>
    decreases s.len(),
{
    if s.len() == 0 {
        Seq::empty()
    } else {
        spec_escape_char(s[0]) + spec_escape(s.drop_first())
    }
}

/// The debug form of a text: the escaped body between double quotes.
pub open spec fn spec_quoted(s: Seq<char>) -> Seq<char> {
    seq!['"'] + spec_escape(s) + seq!['"']
}

/// The digit character for `d`, lower or upper case.
pub fn digit_char(d: u32, upper: bool) -> (r: char)
    requires
        d < 16,
    ensures
        r == spec_digit(d as nat, upper),
{
    if d < 10 {
        (48 + d as u8) as char
    } else if upper {
        (55 + d as u8) as char
    } else {
        (87 + d as u8) as char
    }
}

/// The digits of `n` in the given base, most significant first.
pub fn radix_chars(n: u64, base: u64, upper: bool) -> (r: Vec<char>)
    requires
        2 <= base <= 16,
    ensures
        r@ == spec_radix(n as nat, base as nat, upper),
{
    let mut out: Vec<char> = Vec::new();
    let mut cur = n;
    while cur >= base
        invariant
            2 <= base <= 16,
            spec_radix(n as nat, base as nat, upper) == spec_radix(
                cur as nat,
                base as nat,
                upper,
            ) + out@,
        decreases cur,
    {
        let d = digit_char((cur % base) as u32, upper);
        let ghost prev = out@;
        out.insert(0, d);
        proof {
            assert(out@ =~= seq![d] + prev);
            assert(spec_radix(n as nat, base as nat, upper) =~= spec_radix(
                (cur / base) as nat,
                base as nat,
                upper,
            ) + out@);
        }
        cur = cur / base;
    }
    let d = digit_char(cur as u32, upper);
    let ghost prev = out@;
    out.insert(0, d);
    proof {
        assert(out@ =~= seq![d] + prev);
        assert(out@ =~= spec_radix(n as nat, base as nat, upper));
    }
    out
}

/// The decimal rendering of a signed 64-bit value.
pub fn decimal_i64(n: i64) -> (r: Vec<char>)
    ensures
        r@ == spec_decimal(n as int),
{
    if n < 0 {
        let mag: u64 = (-(n as i128)) as u64;
        let mut digits = radix_chars(mag, 10, false);
        let mut out: Vec<char> = Vec::new();
        out.push('-');
        out.append(&mut digits);
        proof {
            assert(out@ =~= spec_decimal(n as int));
        }
        out
    } else {
        radix_chars(n as u64, 10, false)
    }
}

/// Push the escape of one character onto a character vector.
pub(crate) fn push_escaped(out: &mut Vec<char>, c: char)
    ensures
        final(out)@ == old(out)@ + spec_escape_char(c),
{
    if c == '\n' {
        out.push('\\');
        out.push('n');
    } else if c == '\t' {
        out.push('\\');
        out.push('t');
    } else if c == '\r' {
        out.push('\\');
        out.push('r');
    } else if c == '"' {
        out.push('\\');
        out.push('"');
    } else if c == '\\' {
        out.push('\\');
        out.push('\\');
    } else {
        out.push(c);
    }
    proof {
        assert(final(out)@ =~= old(out)@ + spec_escape_char(c));
    }
}

/// One text is a prefix of another, and that of a third: the first is a
/// prefix of the third.
pub proof fn lemma_prefix_trans(a: Seq<char>, b: Seq<char>, c: Seq<char>)
    requires
        a.is_prefix_of(b),
        b.is_prefix_of(c),
    ensures
        a.is_prefix_of(c),
{
    assert(a =~= c.subrange(0, a.len() as int));
}

/// A text is a prefix of itself.
pub proof fn lemma_prefix_refl(a: Seq<char>)
    ensures
        a.is_prefix_of(a),
{
    assert(a =~= a.subrange(0, a.len() as int));
}

/// Escaping distributes over concatenation.
pub proof fn lemma_escape_concat(a: Seq<char>, b: Seq<char>)
    ensures
        spec_escape(a + b) == spec_escape(a) + spec_escape(b),
    decreases a.len(),
{
    if a.len() == 0 {
        assert(a + b =~= b);
        assert(spec_escape(a) + spec_escape(b) =~= spec_escape(b));
    } else {
        assert((a + b)[0] == a[0]);
        assert((a + b).drop_first() =~= a.drop_first() + b);
        lemma_escape_concat(a.drop_first(), b);
        assert(spec_escape(a + b) =~= spec_escape(a) + spec_escape(b));
    }
}

/// The escape of a single character's text is that character's escape.
pub proof fn lemma_escape_one(c: char)
    ensures
        spec_escape(seq![c]) == spec_escape_char(c),
{
    assert(seq![c].drop_first() =~= Seq::<char>::empty());
    assert(seq![c][0] == c);
    assert(spec_escape(seq![c]) == spec_escape_char(c) + spec_escape(Seq::<char>::empty()));
    assert(spec_escape_char(c) + spec_escape(Seq::<char>::empty()) =~= spec_escape_char(c));
}

/// The debug form of a string: its escaped body between double quotes.
pub fn quoted_chars(s: &str) -> (r: Vec<char>)
    ensures
        r@ == spec_quoted(s@),
{
    let n = s.unicode_len();
    let mut out: Vec<char> = Vec::new();
    out.push('"');
    let mut i: usize = 0;
    while i < n
        invariant
            i <= n,
            n == s@.len(),
            out@ == seq!['"'] + spec_escape(s@.subrange(0, i as int)),
        decreases n - i,
    {
        push_escaped(&mut out, s.get_char(i));
        proof {
            assert(s@.subrange(0, i + 1) =~= s@.subrange(0, i as int) + seq![s@[i as int]]);
            lemma_escape_concat(s@.subrange(0, i as int), seq![s@[i as int]]);
            lemma_escape_one(s@[i as int]);
            assert(out@ =~= seq!['"'] + spec_escape(s@.subrange(0, i + 1)));
        }
        i = i + 1;
    }
    out.push('"');
    proof {
        assert(s@.subrange(0, n as int) =~= s@);
        assert(out@ =~= spec_quoted(s@));
    }
    out
}

} // verus!
