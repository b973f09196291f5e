use vstd::prelude::*;

verus! {

// ---------------------------------------------------------------------------
// Characters
// ---------------------------------------------------------------------------

/// The ASCII character of a decimal digit.
pub open spec fn digit_char(d: int) -> char {
    ((48 + d) as u8) as char
}

/// Whether `c` is one of `0`..`9`.
pub open spec fn is_digit(c: char) -> bool {
    '0' <= c && c <= '9'
}

/// The value of a decimal digit character.
pub open spec fn digit_value(c: char) -> int {
    c as int - 48
}

/// The character of decimal digit `d`.
pub fn exec_digit_char(d: u64) -> (c: char)
    requires
        d < 10,
    ensures
        c == digit_char(d as int),
        is_digit(c),
        digit_value(c) == d,
{
    ((d as u8) + 48u8) as char
}

// ---------------------------------------------------------------------------
// Decimal text of natural numbers
// ---------------------------------------------------------------------------

/// The shortest decimal text of `n` (no sign, no leading zeros except for 0).
pub open spec fn decimal(n: nat) -> Seq<char>
    decreases n,
{
    if n < 10 {
        seq![digit_char(n as int)]
    } else {
        decimal(n / 10).push(digit_char((n % 10) as int))
    }
}

/// `10^k`.
pub open spec fn pow10(k: nat) -> nat
    decreases k,
{
    if k == 0 {
        1
    } else {
        10 * pow10((k - 1) as nat)
    }
}

/// The number a text of decimal digits denotes.
pub open spec fn digits_value(s: Seq<char>) -> int
    decreases s.len(),
{
    if s.len() == 0 {
        0
    } else {
        digits_value(s.drop_last()) * 10 + digit_value(s.last())
    }
}

/// Whether every character of `s` is a decimal digit.
pub open spec fn all_digits(s: Seq<char>) -> bool {
    forall|i: int| 0 <= i < s.len() ==> is_digit(#[trigger] s[i])
}

/// `s` with `'0'` prepended until it is at least `width` long.
pub open spec fn zero_pad(s: Seq<char>, width: nat) -> Seq<char> {
    if s.len() >= width {
        s
    } else {
        Seq::new((width - s.len()) as nat, |i: int| '0') + s
    }
}

/// `s` without its trailing `'0'` characters.
pub open spec fn strip_trailing_zeros(s: Seq<char>) -> Seq<char>
    decreases s.len(),
{
    if s.len() > 0 && s.last() == '0' {
        strip_trailing_zeros(s.drop_last())
    } else {
        s
    }
}

/// The decimal text of `n` is made of digits and reads back as `n`.
pub proof fn lemma_decimal_digits(n: nat)
    ensures
        decimal(n).len() >= 1,
        all_digits(decimal(n)),
        digits_value(decimal(n)) == n,
    decreases n,
{
    if n >= 10 {
        lemma_decimal_digits(n / 10);
        let s = decimal(n);
        assert(s.drop_last() =~= decimal(n / 10));
        assert(digit_value(digit_char((n % 10) as int)) == n % 10);
        assert(n == (n / 10) * 10 + n % 10);
        assert(s.last() == digit_char((n % 10) as int));
        assert(digits_value(s) == digits_value(s.drop_last()) * 10 + digit_value(s.last()));
        assert(forall|i: int| 0 <= i < s.len() - 1 ==> s[i] == decimal(n / 10)[i]);
    } else {
        assert(decimal(n).drop_last() =~= Seq::<char>::empty());
        assert(digit_value(digit_char(n as int)) == n);
        assert(digits_value(Seq::<char>::empty()) == 0);
        let s = decimal(n);
        assert(digits_value(s) == digits_value(s.drop_last()) * 10 + digit_value(s.last()));
    }
}

/// `n` zero characters.
pub open spec fn zeros(n: nat) -> Seq<char> {
    Seq::new(n, |i: int| '0')
}

/// Zero characters are digits and read as zero.
pub proof fn lemma_zeros_value(n: nat)
    ensures
        all_digits(zeros(n)),
        digits_value(zeros(n)) == 0,
    decreases n,
{
    if n > 0 {
        lemma_zeros_value((n - 1) as nat);
        assert(zeros(n).drop_last() =~= zeros((n - 1) as nat));
        assert(zeros(n).last() == '0');
    }
}

/// Digits written after other digits shift them by as many places.
pub proof fn lemma_digits_value_concat(a: Seq<char>, b: Seq<char>)
    ensures
        digits_value(a + b) == digits_value(a) * pow10(b.len()) + digits_value(b),
    decreases b.len(),
{
    if b.len() == 0 {
        assert(a + b =~= a);
        assert(pow10(0) == 1);
        assert(digits_value(b) == 0);
        assert(digits_value(a) * 1 == digits_value(a));
    } else {
        let b0 = b.drop_last();
        lemma_digits_value_concat(a, b0);
        assert((a + b).drop_last() =~= a + b0);
        assert((a + b).last() == b.last());
        let x = digits_value(a);
        let y = pow10(b0.len());
        let z = digits_value(b0);
        let d = digit_value(b.last());
        assert(pow10(b.len()) == 10 * y);
        assert(digits_value(a + b) == digits_value(a + b0) * 10 + d);
        assert(digits_value(b) == z * 10 + d);
        assert(digits_value(a + b0) == x * y + z);
        assert((x * y + z) * 10 + d == x * (10 * y) + (z * 10 + d)) by (nonlinear_arith);
        assert(x * pow10(b.len()) == x * (10 * y));
    }
}

/// All characters of a text made of digits are digits in any part of it.
pub proof fn lemma_all_digits_subrange(s: Seq<char>, i: int, j: int)
    requires
        all_digits(s),
        0 <= i <= j <= s.len(),
    ensures
        all_digits(s.subrange(i, j)),
{
    assert forall|k: int| 0 <= k < j - i implies is_digit(#[trigger] s.subrange(i, j)[k]) by {
        assert(s.subrange(i, j)[k] == s[i + k]);
    }
}

/// A number below `10^width`, padded with zeros to `width` digits, is
/// `width` digits long and reads back as the number.
pub proof fn lemma_zero_pad_value(n: nat, width: nat)
    requires
        width >= 1,
        n < pow10(width),
    ensures
        zero_pad(decimal(n), width).len() == width,
        all_digits(zero_pad(decimal(n), width)),
        digits_value(zero_pad(decimal(n), width)) == n,
{
    let d = decimal(n);
    lemma_decimal_digits(n);
    lemma_decimal_len_bound(n, width);
    let pad = (width - d.len()) as nat;
    let padded = zero_pad(d, width);
    assert(padded =~= zeros(pad) + d);
    lemma_zeros_value(pad);
    lemma_digits_value_concat(zeros(pad), d);
    assert forall|i: int| 0 <= i < padded.len() implies is_digit(#[trigger] padded[i]) by {
        if i < pad {
            assert(padded[i] == zeros(pad)[i]);
        } else {
            assert(padded[i] == d[i - pad]);
        }
    }
}

/// A text is what `strip_trailing_zeros` leaves of it followed by zeros, and
/// what is left does not end in a zero.
pub proof fn lemma_strip_trailing_zeros_split(s: Seq<char>)
    ensures
        strip_trailing_zeros(s).len() <= s.len(),
        s =~= strip_trailing_zeros(s) + zeros((s.len() - strip_trailing_zeros(s).len()) as nat),
        strip_trailing_zeros(s).len() > 0 ==> strip_trailing_zeros(s).last() != '0',
    decreases s.len(),
{
    if s.len() > 0 && s.last() == '0' {
        let s0 = s.drop_last();
        lemma_strip_trailing_zeros_split(s0);
        let t = strip_trailing_zeros(s0);
        let k = (s0.len() - t.len()) as nat;
        assert(zeros(k).push('0') =~= zeros(k + 1));
        assert(s =~= s0.push('0'));
        assert(s0.push('0') =~= t + zeros(k).push('0'));
    } else {
        assert(zeros(0) =~= Seq::<char>::empty());
    }
}

/// A number below `10^k` has at most `k` digits.
pub proof fn lemma_decimal_len_bound(n: nat, k: nat)
    requires
        k >= 1,
        n < pow10(k),
    ensures
        decimal(n).len() <= k,
    decreases k,
{
    if n >= 10 {
        assert(k >= 2) by {
            if k == 1 {
                assert(pow10(1) == 10 * pow10(0));
            }
        }
        assert(pow10(k) == 10 * pow10((k - 1) as nat));
        assert(n / 10 < pow10((k - 1) as nat));
        lemma_decimal_len_bound(n / 10, (k - 1) as nat);
    }
}

/// Appends the decimal text of `n` to `out`.
pub fn push_decimal(out: &mut Vec<char>, n: u64)
    ensures
        final(out)@ == old(out)@ + decimal(n as nat),
    decreases n,
{
    if n >= 10 {
        push_decimal(out, n / 10);
    }
    let d = exec_digit_char(n % 10);
    out.push(d);
    proof {
        if n >= 10 {
            assert(decimal(n as nat) == decimal((n / 10) as nat).push(digit_char((n % 10) as int)));
        }
    }
}

/// The number of characters in the decimal text of `n`.
pub fn decimal_len(n: u64) -> (r: usize)
    ensures
        r == decimal(n as nat).len(),
        1 <= r <= 20,
    decreases n,
{
    proof {
        reveal_with_fuel(pow10, 21);
        assert(pow10(20) == 100000000000000000000nat);
        lemma_decimal_len_bound(n as nat, 20);
    }
    if n >= 10 {
        1 + decimal_len(n / 10)
    } else {
        1
    }
}

// ---------------------------------------------------------------------------
// Strings
// ---------------------------------------------------------------------------

/// Appends one character to a string (`String::push`).
#[verifier::external_body]
pub(crate) fn push_char(s: &mut String, c: char)
    ensures
        final(s)@ == old(s)@.push(c),
{
    s.push(c);
}

/// The string made of the characters of `v`.
pub fn string_of(v: &Vec<char>) -> (s: String)
    ensures
        s@ == v@,
{
    let mut s = String::new();
    let mut i: usize = 0;
    while i < v.len()
        invariant
            i <= v.len(),
            s@ == v@.subrange(0, i as int),
        decreases v.len() - i,
    {
        push_char(&mut s, v[i]);
        proof {
            assert(v@.subrange(0, i as int).push(v@[i as int]) =~= v@.subrange(0, i + 1));
        }
        i = i + 1;
    }
    proof {
        assert(v@.subrange(0, v.len() as int) =~= v@);
    }
    s
}

/// The characters of `s`, in order.
pub fn chars_of(s: &str) -> (v: Vec<char>)
    ensures
        v@ == s@,
{
    let n = s.unicode_len();
    let mut v: Vec<char> = Vec::new();
    let mut i: usize = 0;
    while i < n
        invariant
            n == s@.len(),
            i <= n,
            v@ == s@.subrange(0, i as int),
        decreases n - i,
    {
        let c = s.get_char(i);
        v.push(c);
        proof {
            assert(s@.subrange(0, i as int).push(c) =~= s@.subrange(0, i + 1));
        }
        i = i + 1;
    }
    proof {
        assert(s@.subrange(0, n as int) =~= s@);
    }
    v
}

/// Appends the characters of `s` to `out`.
pub fn push_str(out: &mut Vec<char>, s: &str)
    ensures
        final(out)@ == old(out)@ + s@,
{
    let cs = chars_of(s);
    let mut i: usize = 0;
    let ghost start = out@;
    while i < cs.len()
        invariant
            i <= cs.len(),
            cs@ == s@,
            out@ == start + cs@.subrange(0, i as int),
        decreases cs.len() - i,
    {
        out.push(cs[i]);
        proof {
            assert(cs@.subrange(0, i as int).push(cs@[i as int]) =~= cs@.subrange(0, i + 1));
        }
        i = i + 1;
    }
    proof {
        assert(cs@.subrange(0, cs.len() as int) =~= cs@);
    }
}

} // verus!

verus! {

/// Appends `count` copies of `c` to `out`.
pub fn push_repeated(out: &mut Vec<char>, c: char, count: usize)
    ensures
        final(out)@ == old(out)@ + Seq::new(count as nat, |i: int| c),
{
    let ghost start = out@;
    let mut i: usize = 0;
    while i < count
        invariant
            i <= count,
            out@ == start + Seq::new(i as nat, |j: int| c),
        decreases count - i,
    {
        out.push(c);
        proof {
            assert(Seq::new(i as nat, |j: int| c).push(c) =~= Seq::new((i + 1) as nat, |j: int| c));
        }
        i = i + 1;
    }
}

/// Appends the characters `v[from..to]` to `out`.
pub fn push_range(out: &mut Vec<char>, v: &Vec<char>, from: usize, to: usize)
    requires
        from <= to <= v.len(),
    ensures
        final(out)@ == old(out)@ + v@.subrange(from as int, to as int),
{
    let ghost start = out@;
    let mut i: usize = from;
    while i < to
        invariant
            from <= i <= to,
            to <= v.len(),
            out@ == start + v@.subrange(from as int, i as int),
        decreases to - i,
    {
        out.push(v[i]);
        proof {
            assert(v@.subrange(from as int, i as int).push(v@[i as int]) =~= v@.subrange(from as int, i + 1));
        }
        i = i + 1;
    }
}

} // verus!

verus! {

// ---------------------------------------------------------------------------
// Whitespace and trimming
// ---------------------------------------------------------------------------

/// Whether `c` has the Unicode `White_Space` property, as `char::is_whitespace`
/// documents.
pub open spec fn is_whitespace(c: char) -> bool {
    ||| ('\t' <= c && c <= '\r')
    ||| c == ' '
    ||| c == '\u{85}'
    ||| c == '\u{a0}'
    ||| c == '\u{1680}'
    ||| ('\u{2000}' <= c && c <= '\u{200a}')
    ||| c == '\u{2028}'
    ||| c == '\u{2029}'
    ||| c == '\u{202f}'
    ||| c == '\u{205f}'
    ||| c == '\u{3000}'
}

/// Whether `c` is whitespace (`char::is_whitespace`).
pub fn exec_is_whitespace(c: char) -> (r: bool)
    ensures
        r == is_whitespace(c),
{
    ('\t' <= c && c <= '\r') || c == ' ' || c == '\u{85}' || c == '\u{a0}' || c == '\u{1680}'
        || ('\u{2000}' <= c && c <= '\u{200a}') || c == '\u{2028}' || c == '\u{2029}' || c
        == '\u{202f}' || c == '\u{205f}' || c == '\u{3000}'
}

/// `s` without leading whitespace.
pub open spec fn trim_start(s: Seq<char>) -> Seq<char>
    decreases s.len(),
{
    if s.len() > 0 && is_whitespace(s[0]) {
        trim_start(s.drop_first())
    } else {
        s
    }
}

/// `s` without trailing whitespace.
pub open spec fn trim_end(s: Seq<char>) -> Seq<char>
    decreases s.len(),
{
    if s.len() > 0 && is_whitespace(s.last()) {
        trim_end(s.drop_last())
    } else {
        s
    }
}

/// `s` without leading and trailing whitespace (`str::trim`).
pub open spec fn trim(s: Seq<char>) -> Seq<char> {
    trim_end(trim_start(s))
}

proof fn lemma_trim_start_step(s: Seq<char>, i: int)
    requires
        0 <= i < s.len(),
        is_whitespace(s[i]),
        trim_start(s) == trim_start(s.subrange(i, s.len() as int)),
    ensures
        trim_start(s) == trim_start(s.subrange(i + 1, s.len() as int)),
{
    assert(s.subrange(i, s.len() as int).drop_first() =~= s.subrange(i + 1, s.len() as int));
}

proof fn lemma_trim_end_step(s: Seq<char>, j: int)
    requires
        0 < j <= s.len(),
        is_whitespace(s[j - 1]),
        trim_end(s) == trim_end(s.subrange(0, j)),
    ensures
        trim_end(s) == trim_end(s.subrange(0, j - 1)),
{
    assert(s.subrange(0, j).drop_last() =~= s.subrange(0, j - 1));
}

/// What `trim_start` leaves starts with no whitespace and is a suffix.
proof fn lemma_trim_start_shape(s: Seq<char>)
    ensures
        trim_start(s).len() <= s.len(),
        trim_start(s) =~= s.subrange(s.len() - trim_start(s).len(), s.len() as int),
        trim_start(s).len() > 0 ==> !is_whitespace(trim_start(s)[0]),
    decreases s.len(),
{
    if s.len() > 0 && is_whitespace(s[0]) {
        lemma_trim_start_shape(s.drop_first());
    }
}

/// What `trim_end` leaves ends with no whitespace and is a prefix.
proof fn lemma_trim_end_shape(s: Seq<char>)
    ensures
        trim_end(s).len() <= s.len(),
        trim_end(s) =~= s.subrange(0, trim_end(s).len() as int),
        trim_end(s).len() > 0 ==> !is_whitespace(trim_end(s).last()),
    decreases s.len(),
{
    if s.len() > 0 && is_whitespace(s.last()) {
        lemma_trim_end_shape(s.drop_last());
    }
}

/// A trimmed text has no whitespace at either end.
pub proof fn lemma_trim_ends(s: Seq<char>)
    ensures
        trim(s).len() > 0 ==> !is_whitespace(trim(s)[0]) && !is_whitespace(trim(s).last()),
{
    lemma_trim_start_shape(s);
    lemma_trim_end_shape(trim_start(s));
    if trim(s).len() > 0 {
        assert(trim(s)[0] == trim_start(s)[0]);
    }
}

/// A text with no whitespace at either end is its own trim.
pub proof fn lemma_trim_of_trimmed(t: Seq<char>)
    requires
        t.len() > 0 ==> !is_whitespace(t[0]) && !is_whitespace(t.last()),
    ensures
        trim(t) == t,
{
}

/// The characters of `v` without leading and trailing whitespace.
pub fn trim_chars(v: &Vec<char>) -> (r: Vec<char>)
    ensures
        r@ == trim(v@),
{
    let n = v.len();
    let mut i: usize = 0;
    proof {
        assert(v@.subrange(0, n as int) =~= v@);
    }
    while i < n && exec_is_whitespace(v[i])
        invariant
            i <= n,
            n == v.len(),
            trim_start(v@) == trim_start(v@.subrange(i as int, n as int)),
        decreases n - i,
    {
        proof {
            lemma_trim_start_step(v@, i as int);
        }
        i = i + 1;
    }
    let ghost t = v@.subrange(i as int, n as int);
    proof {
        if i < n {
            assert(t[0] == v@[i as int]);
        }
        assert(trim_start(t) == t);
    }
    let mut j: usize = n;
    proof {
        assert(t.subrange(0, (j - i) as int) =~= t);
    }
    while j > i && exec_is_whitespace(v[j - 1])
        invariant
            i <= j <= n,
            n == v.len(),
            t == v@.subrange(i as int, n as int),
            trim_end(t) == trim_end(t.subrange(0, (j - i) as int)),
        decreases j,
    {
        proof {
            lemma_trim_end_step(t, (j - i) as int);
            assert(t.subrange(0, (j - i - 1) as int) =~= v@.subrange(i as int, (j - 1) as int));
        }
        j = j - 1;
    }
    proof {
        let u = t.subrange(0, (j - i) as int);
        if j > i {
            assert(u.last() == v@[j - 1]);
        }
        assert(trim_end(u) == u);
        assert(u =~= v@.subrange(i as int, j as int));
    }
    let mut r: Vec<char> = Vec::new();
    push_range(&mut r, v, i, j);
    proof {
        assert(r@ =~= v@.subrange(i as int, j as int));
    }
    r
}

/// `s` without leading and trailing whitespace.
pub fn trim_str(s: &str) -> (r: String)
    ensures
        r@ == trim(s@),
{
    let v = chars_of(s);
    let t = trim_chars(&v);
    string_of(&t)
}

// ---------------------------------------------------------------------------
// ASCII case
// ---------------------------------------------------------------------------

/// `c` in ASCII upper case (`char::to_ascii_uppercase`).
pub open spec fn ascii_upper(c: char) -> char {
    if 'a' <= c && c <= 'z' {
        ((c as int) - 32) as char
    } else {
        c
    }
}

/// `c` in ASCII lower case (`char::to_ascii_lowercase`).
pub open spec fn ascii_lower(c: char) -> char {
    if 'A' <= c && c <= 'Z' {
        ((c as int) + 32) as char
    } else {
        c
    }
}

/// `s` with each ASCII letter in upper case (`str::to_ascii_uppercase`).
pub open spec fn ascii_upper_seq(s: Seq<char>) -> Seq<char> {
    s.map_values(|c: char| ascii_upper(c))
}

/// `s` with each ASCII letter in lower case (`str::to_ascii_lowercase`).
pub open spec fn ascii_lower_seq(s: Seq<char>) -> Seq<char> {
    s.map_values(|c: char| ascii_lower(c))
}

/// `c` in ASCII upper case.
pub fn exec_ascii_upper(c: char) -> (r: char)
    ensures
        r == ascii_upper(c),
{
    if 'a' <= c && c <= 'z' {
        ((c as u8) - 32) as char
    } else {
        c
    }
}

/// `c` in ASCII lower case.
pub fn exec_ascii_lower(c: char) -> (r: char)
    ensures
        r == ascii_lower(c),
{
    if 'A' <= c && c <= 'Z' {
        ((c as u8) + 32) as char
    } else {
        c
    }
}

/// The characters of `v` with each ASCII letter in upper case.
pub fn ascii_upper_chars(v: &Vec<char>) -> (r: Vec<char>)
    ensures
        r@ == ascii_upper_seq(v@),
{
    let mut r: Vec<char> = Vec::new();
    let mut i: usize = 0;
    while i < v.len()
        invariant
            i <= v.len(),
            r@ == ascii_upper_seq(v@.subrange(0, i as int)),
        decreases v.len() - i,
    {
        let c = exec_ascii_upper(v[i]);
        r.push(c);
        proof {
            assert(ascii_upper_seq(v@.subrange(0, i + 1)) =~= ascii_upper_seq(
                v@.subrange(0, i as int),
            ).push(c));
        }
        i = i + 1;
    }
    proof {
        assert(v@.subrange(0, v.len() as int) =~= v@);
    }
    r
}

/// The characters of `v` with each ASCII letter in lower case.
pub fn ascii_lower_chars(v: &Vec<char>) -> (r: Vec<char>)
    ensures
        r@ == ascii_lower_seq(v@),
{
    let mut r: Vec<char> = Vec::new();
    let mut i: usize = 0;
    while i < v.len()
        invariant
            i <= v.len(),
            r@ == ascii_lower_seq(v@.subrange(0, i as int)),
        decreases v.len() - i,
    {
        let c = exec_ascii_lower(v[i]);
        r.push(c);
        proof {
            assert(ascii_lower_seq(v@.subrange(0, i + 1)) =~= ascii_lower_seq(
                v@.subrange(0, i as int),
            ).push(c));
        }
        i = i + 1;
    }
    proof {
        assert(v@.subrange(0, v.len() as int) =~= v@);
    }
    r
}

// ---------------------------------------------------------------------------
// Unicode case mapping
// ---------------------------------------------------------------------------

/// What `str::to_uppercase` returns for a text: its Unicode upper-case mapping.
pub uninterp spec fn unicode_upper(s: Seq<char>) -> Seq<char>;

/// What `str::to_lowercase` returns for a text: its Unicode lower-case mapping.
pub uninterp spec fn unicode_lower(s: Seq<char>) -> Seq<char>;

/// Calls `str::to_uppercase`, the Unicode upper-case mapping of the whole text
/// (which may change its length, as `ß` becoming `SS`). Claimed: the result
/// depends on the text alone and is named `unicode_upper` of it.
#[verifier::external_body]
pub(crate) fn to_uppercase(s: &str) -> (r: String)
    ensures
        r@ == unicode_upper(s@),
{
    s.to_uppercase()
}

/// Calls `str::to_lowercase`, the Unicode lower-case mapping of the whole text.
/// Claimed: the result depends on the text alone and is named `unicode_lower`
/// of it.
#[verifier::external_body]
pub(crate) fn to_lowercase(s: &str) -> (r: String)
    ensures
        r@ == unicode_lower(s@),
{
    s.to_lowercase()
}

} // verus!

verus! {

// ---------------------------------------------------------------------------
// Integers in text
// ---------------------------------------------------------------------------

/// The integer a text denotes in the syntax of `i64::from_str`: an optional
/// `+` or `-`, then one or more ASCII digits; `None` when the text is not
/// of that shape or the number lies outside `i64`.
pub open spec fn parse_i64_text(s: Seq<char>) -> Option<int> {
    let signed = s.len() > 0 && (s[0] == '+' || s[0] == '-');
    let digits = if signed { s.drop_first() } else { s };
    if digits.len() == 0 || !all_digits(digits) {
        None
    } else {
        let v = if signed && s[0] == '-' { -digits_value(digits) } else { digits_value(digits) };
        if i64::MIN <= v <= i64::MAX { Some(v) } else { None }
    }
}

proof fn lemma_digits_value_nonneg(s: Seq<char>)
    requires
        all_digits(s),
    ensures
        digits_value(s) >= 0,
    decreases s.len(),
{
    if s.len() > 0 {
        assert(all_digits(s.drop_last())) by {
            assert forall|i: int| 0 <= i < s.drop_last().len() implies is_digit(
                #[trigger] s.drop_last()[i],
            ) by {
                assert(s.drop_last()[i] == s[i]);
            }
        }
        lemma_digits_value_nonneg(s.drop_last());
        assert(is_digit(s[s.len() - 1]));
    }
}

proof fn lemma_digits_value_mono(s: Seq<char>, k: int)
    requires
        all_digits(s),
        0 <= k <= s.len(),
    ensures
        digits_value(s.subrange(0, k)) <= digits_value(s),
    decreases s.len() - k,
{
    if k < s.len() {
        let t = s.subrange(0, k + 1);
        assert(t.drop_last() =~= s.subrange(0, k));
        assert(all_digits(t)) by {
            assert forall|i: int| 0 <= i < t.len() implies is_digit(#[trigger] t[i]) by {
                assert(t[i] == s[i]);
            }
        }
        lemma_digits_value_nonneg(s.subrange(0, k));
        assert(is_digit(t.last()));
        assert(digits_value(t) == digits_value(s.subrange(0, k)) * 10 + digit_value(t.last()));
        lemma_digits_value_mono(s, k + 1);
    } else {
        assert(s.subrange(0, k) =~= s);
    }
}

/// Parses a text as `i64::from_str` does.
pub fn parse_i64(v: &Vec<char>) -> (r: Option<i64>)
    ensures
        r matches Some(x) ==> parse_i64_text(v@) == Some(x as int),
        r is None ==> parse_i64_text(v@) is None,
{
    let n = v.len();
    let signed = n > 0 && (v[0] == '+' || v[0] == '-');
    let negative = signed && v[0] == '-';
    let start: usize = if signed { 1 } else { 0 };
    let ghost digits = if signed { v@.drop_first() } else { v@ };
    proof {
        assert(digits =~= v@.subrange(start as int, n as int));
        assert(signed == (v@.len() > 0 && (v@[0] == '+' || v@[0] == '-')));
    }
    if start >= n {
        return None;
    }
    let limit: u128 = 0x8000_0000_0000_0000;
    let mut acc: u128 = 0;
    let mut i: usize = start;
    proof {
        assert(v@.subrange(start as int, start as int) =~= Seq::<char>::empty());
    }
    while i < n
        invariant
            start <= i <= n,
            n == v.len(),
            start < n,
            digits == v@.subrange(start as int, n as int),
            all_digits(v@.subrange(start as int, i as int)),
            acc == digits_value(v@.subrange(start as int, i as int)),
            acc <= limit,
            limit == 0x8000_0000_0000_0000,
            signed == (v@.len() > 0 && (v@[0] == '+' || v@[0] == '-')),
            digits == (if signed { v@.drop_first() } else { v@ }),
        decreases n - i,
    {
        let c = v[i];
        if !('0' <= c && c <= '9') {
            proof {
                assert(digits[i - start] == c);
                assert(!is_digit(digits[i - start]));
                assert(!all_digits(digits));
            }
            return None;
        }
        let d = (c as u32 - 48) as u128;
        let ghost prev = v@.subrange(start as int, i as int);
        let ghost next = v@.subrange(start as int, i + 1);
        proof {
            assert(next.drop_last() =~= prev);
            assert(next.last() == c);
            assert(all_digits(next)) by {
                assert forall|j: int| 0 <= j < next.len() implies is_digit(#[trigger] next[j]) by {
                    if j < prev.len() {
                        assert(next[j] == prev[j]);
                    }
                }
            }
        }
        acc = acc * 10 + d;
        i = i + 1;
        if acc > limit {
            proof {
                assert(digits.subrange(0, (i - start) as int) =~= next);
                if all_digits(digits) {
                    lemma_digits_value_mono(digits, (i - start) as int);
                }
            }
            return None;
        }
    }
    proof {
        assert(v@.subrange(start as int, n as int) == digits);
    }
    if negative {
        if acc == limit {
            Some(i64::MIN)
        } else {
            Some(-(acc as i64))
        }
    } else {
        if acc == limit {
            None
        } else {
            Some(acc as i64)
        }
    }
}

// ---------------------------------------------------------------------------
// Searching
// ---------------------------------------------------------------------------

/// `i` is the first position of `c` in `s`.
pub open spec fn is_first_index(s: Seq<char>, c: char, i: int) -> bool {
    &&& 0 <= i < s.len()
    &&& s[i] == c
    &&& forall|j: int| 0 <= j < i ==> s[j] != c
}

/// The first position of `c` in `v`, if any.
pub fn find_char(v: &Vec<char>, c: char) -> (r: Option<usize>)
    ensures
        r matches Some(i) ==> is_first_index(v@, c, i as int),
        r is None ==> !v@.contains(c),
{
    let mut i: usize = 0;
    while i < v.len()
        invariant
            i <= v.len(),
            forall|j: int| 0 <= j < i ==> v@[j] != c,
        decreases v.len() - i,
    {
        if v[i] == c {
            return Some(i);
        }
        i = i + 1;
    }
    None
}

} // verus!

verus! {

/// An owned copy of `s`.
pub fn owned(s: &str) -> (r: String)
    ensures
        r@ == s@,
{
    let v = chars_of(s);
    string_of(&v)
}

/// The concatenation of `a` and `b`.
pub fn concat(a: &str, b: &str) -> (r: String)
    ensures
        r@ == a@ + b@,
{
    let mut v = chars_of(a);
    push_str(&mut v, b);
    string_of(&v)
}

} // verus!

verus! {

/// The view of an optional string.
pub open spec fn opt_view(s: Option<String>) -> Option<Seq<char>> {
    match s {
        Some(t) => Some(t@),
        None => None,
    }
}

/// `s` with every occurrence of the two-character text `ab` removed, left to
/// right (`str::replace(.., "")` for such a pattern).
pub open spec fn remove_pair(s: Seq<char>, a: char, b: char) -> Seq<char>
    decreases s.len(),
{
    if s.len() == 0 {
        s
    } else if s.len() >= 2 && s[0] == a && s[1] == b {
        remove_pair(s.subrange(2, s.len() as int), a, b)
    } else {
        seq![s[0]] + remove_pair(s.drop_first(), a, b)
    }
}

/// The characters of `v` with every `ab` removed.
pub fn remove_pair_chars(v: &Vec<char>, a: char, b: char) -> (r: Vec<char>)
    ensures
        r@ == remove_pair(v@, a, b),
{
    let mut r: Vec<char> = Vec::new();
    let mut i: usize = 0;
    let n = v.len();
    proof {
        assert(v@.subrange(0, n as int) =~= v@);
    }
    while i < n
        invariant
            i <= n,
            n == v.len(),
            r@ + remove_pair(v@.subrange(i as int, n as int), a, b) == remove_pair(v@, a, b),
        decreases n - i,
    {
        let ghost rest = v@.subrange(i as int, n as int);
        if i + 1 < n && v[i] == a && v[i + 1] == b {
            proof {
                assert(rest.subrange(2, rest.len() as int) =~= v@.subrange(i + 2, n as int));
            }
            i = i + 2;
        } else {
            r.push(v[i]);
            proof {
                assert(rest.drop_first() =~= v@.subrange(i + 1, n as int));
                assert(r@ + remove_pair(v@.subrange(i + 1, n as int), a, b) =~= r@.drop_last() + (
                seq![v@[i as int]] + remove_pair(rest.drop_first(), a, b)));
            }
            i = i + 1;
        }
    }
    proof {
        assert(v@.subrange(n as int, n as int) =~= Seq::<char>::empty());
        assert(r@ + Seq::<char>::empty() =~= r@);
    }
    r
}

} // verus!

verus! {

/// Whether two texts are the same.
pub fn str_eq(a: &str, b: &str) -> (r: bool)
    ensures
        r == (a@ == b@),
{
    let x = owned(a);
    let y = owned(b);
    x.eq(&y)
}

} // verus!

verus! {

/// The texts of a sequence of strings.
pub open spec fn texts(s: Seq<String>) -> Seq<Seq<char>> {
    s.map_values(|t: String| t@)
}

} // verus!

verus! {

/// Whether text `a` comes strictly before text `b` in the order in which
/// `String` compares: character by character, a proper prefix first.
pub open spec fn text_lt(a: Seq<char>, b: Seq<char>) -> bool
    decreases a.len(),
{
    if a.len() == 0 {
        b.len() > 0
    } else if b.len() == 0 {
        false
    } else if a[0] != b[0] {
        a[0] < b[0]
    } else {
        text_lt(a.drop_first(), b.drop_first())
    }
}

/// No text comes before itself.
pub proof fn lemma_text_lt_irreflexive(a: Seq<char>)
    ensures
        !text_lt(a, a),
    decreases a.len(),
{
    if a.len() > 0 {
        lemma_text_lt_irreflexive(a.drop_first());
    }
}

/// Of two different texts, one comes before the other, and never both.
pub proof fn lemma_text_lt_total(a: Seq<char>, b: Seq<char>)
    ensures
        a != b ==> (text_lt(a, b) || text_lt(b, a)),
        !(text_lt(a, b) && text_lt(b, a)),
    decreases a.len(),
{
    if a.len() > 0 && b.len() > 0 && a[0] == b[0] {
        lemma_text_lt_total(a.drop_first(), b.drop_first());
        if a.drop_first() == b.drop_first() {
            assert(a =~= seq![a[0]] + a.drop_first());
            assert(b =~= seq![b[0]] + b.drop_first());
        }
    } else if a.len() == 0 && b.len() == 0 {
        assert(a =~= b);
    }
}

/// The order of texts is transitive.
pub proof fn lemma_text_lt_transitive(a: Seq<char>, b: Seq<char>, c: Seq<char>)
    requires
        text_lt(a, b),
        text_lt(b, c),
    ensures
        text_lt(a, c),
    decreases a.len(),
{
    if a.len() > 0 && a[0] == b[0] && b[0] == c[0] {
        lemma_text_lt_transitive(a.drop_first(), b.drop_first(), c.drop_first());
    }
}

/// Whether text `a` comes strictly before text `b`.
pub fn precedes(a: &Vec<char>, b: &Vec<char>) -> (r: bool)
    ensures
        r == text_lt(a@, b@),
{
    let mut i: usize = 0;
    proof {
        assert(a@.subrange(0, a.len() as int) =~= a@);
        assert(b@.subrange(0, b.len() as int) =~= b@);
    }
    while i < a.len() && i < b.len() && a[i] == b[i]
        invariant
            i <= a.len(),
            i <= b.len(),
            text_lt(a@, b@) == text_lt(a@.subrange(i as int, a.len() as int), b@.subrange(
                i as int,
                b.len() as int,
            )),
        decreases a.len() - i,
    {
        proof {
            let sa = a@.subrange(i as int, a.len() as int);
            let sb = b@.subrange(i as int, b.len() as int);
            assert(sa.drop_first() =~= a@.subrange(i + 1, a.len() as int));
            assert(sb.drop_first() =~= b@.subrange(i + 1, b.len() as int));
        }
        i = i + 1;
    }
    if i == a.len() {
        i < b.len()
    } else if i == b.len() {
        false
    } else {
        a[i] < b[i]
    }
}

/// Whether two texts are the same.
pub fn chars_eq(a: &Vec<char>, b: &Vec<char>) -> (r: bool)
    ensures
        r == (a@ == b@),
{
    if a.len() != b.len() {
        return false;
    }
    let mut i: usize = 0;
    while i < a.len()
        invariant
            a.len() == b.len(),
            i <= a.len(),
            forall|j: int| 0 <= j < i ==> a@[j] == b@[j],
        decreases a.len() - i,
    {
        if a[i] != b[i] {
            return false;
        }
        i = i + 1;
    }
    proof {
        assert(a@ =~= b@);
    }
    true
}

} // verus!
