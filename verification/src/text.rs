//! Character-level helpers: decimal numbers, substring search and replacement.
use vstd::prelude::*;

verus! {

/// Why the text of an unsigned integer was rejected (the kinds std's `ParseIntError` reports).
#[derive(Debug, Clone, Copy, PartialEq, Eq, Structural)]
pub enum IntErrorKind {
    /// The text is empty.
    Empty,
    /// The text holds a character that is not a decimal digit where one is expected.
    InvalidDigit,
    /// The value does not fit the target type.
    PosOverflow,
}

pub open spec fn is_digit(c: char) -> bool {
    '0' <= c && c <= '9'
}

pub open spec fn digit_value(c: char) -> nat {
    (c as int - '0' as int) as nat
}

pub open spec fn digit_char(d: nat) -> char {
    if d == 0 { '0' }
    else if d == 1 { '1' }
    else if d == 2 { '2' }
    else if d == 3 { '3' }
    else if d == 4 { '4' }
    else if d == 5 { '5' }
    else if d == 6 { '6' }
    else if d == 7 { '7' }
    else if d == 8 { '8' }
    else { '9' }
}

/// The decimal representation of `n`, most significant digit first, without leading zeros.
pub open spec fn decimal(n: nat) -> Seq<char>
    decreases n,
{
    if n < 10 {
        seq![digit_char(n)]
    } else {
        decimal(n / 10).push(digit_char(n % 10))
    }
}

/// Reads a run of decimal digits left to right, reporting the first failure:
/// a non-digit, or a value above `max`.
pub open spec fn digits_result(s: Seq<char>, max: nat) -> Result<nat, IntErrorKind>
    decreases s.len(),
{
    if s.len() == 0 {
        Ok(0)
    } else {
        match digits_result(s.drop_last(), max) {
            Err(e) => Err(e),
            Ok(v) => if !is_digit(s.last()) {
                Err(IntErrorKind::InvalidDigit)
            } else if v * 10 + digit_value(s.last()) > max {
                Err(IntErrorKind::PosOverflow)
            } else {
                Ok(v * 10 + digit_value(s.last()))
            },
        }
    }
}

/// What std's `from_str` gives for an unsigned type whose largest value is `max`:
/// an optional `+`, then one or more decimal digits.
pub open spec fn parse_unsigned(s: Seq<char>, max: nat) -> Result<nat, IntErrorKind> {
    if s.len() == 0 {
        Err(IntErrorKind::Empty)
    } else if (s[0] == '+' || s[0] == '-') && s.len() == 1 {
        Err(IntErrorKind::InvalidDigit)
    } else if s[0] == '+' {
        digits_result(s.drop_first(), max)
    } else {
        digits_result(s, max)
    }
}

/// `s` begins with `p`.
pub open spec fn starts_with(s: Seq<char>, p: Seq<char>) -> bool {
    p.len() <= s.len() && s.take(p.len() as int) == p
}

/// `p` occurs in `s` at position `i`.
pub open spec fn occurs_at(s: Seq<char>, p: Seq<char>, i: int) -> bool {
    0 <= i && i + p.len() <= s.len() && s.subrange(i, i + p.len()) == p
}

/// `p` occurs somewhere in `s`.
pub open spec fn contains(s: Seq<char>, p: Seq<char>) -> bool {
    exists|i: int| occurs_at(s, p, i)
}

/// Left-to-right replacement of every non-overlapping occurrence of `from` by `to`
/// (what std's `str::replace` does for a non-empty pattern).
pub open spec fn replace_all(s: Seq<char>, from: Seq<char>, to: Seq<char>) -> Seq<char>
    decreases s.len(),
{
    if from.len() == 0 || s.len() < from.len() {
        s
    } else if s.take(from.len() as int) == from {
        to + replace_all(s.skip(from.len() as int), from, to)
    } else {
        seq![s[0]] + replace_all(s.skip(1), from, to)
    }
}

/// Copies the characters of a string slice into a vector.
pub fn chars_of(s: &str) -> (r: Vec<char>)
    ensures
        r@ == s@,
{
    let mut r: Vec<char> = Vec::new();
    for c in it: s.chars()
        invariant
            r@ == it.seq().take(it.index() as int),
    {
        r.push(c);
    }
    r
}

/// Appends one character to a string (std's `String::push`).
#[verifier::external_body]
pub(crate) fn push_char(s: &mut String, c: char)
    ensures
        final(s)@ == old(s)@.push(c),
{
    s.push(c);
}

/// Appends a string slice to a string (std's `String::push_str`).
#[verifier::external_body]
pub(crate) fn push_str(s: &mut String, t: &str)
    ensures
        final(s)@ == old(s)@ + t@,
{
    s.push_str(t);
}

/// Builds a string from characters.
pub fn string_from_chars(v: &[char]) -> (r: String)
    ensures
        r@ == v@,
{
    let mut r = String::new();
    let n = v.len();
    for i in 0..n
        invariant
            n == v@.len(),
            r@ == v@.take(i as int),
    {
        push_char(&mut r, v[i]);
        assert(v@.take(i as int).push(v@[i as int]) =~= v@.take(i + 1));
    }
    assert(v@.take(n as int) =~= v@);
    r
}

/// Joins two string slices into a new string.
pub fn concat(a: &str, b: &str) -> (r: String)
    ensures
        r@ == a@ + b@,
{
    let mut r = a.to_owned();
    push_str(&mut r, b);
    r
}

fn digit_to_char(d: u64) -> (c: char)
    requires
        d < 10,
    ensures
        c == digit_char(d as nat),
        is_digit(c),
        digit_value(c) == d,
{
    if d == 0 { '0' }
    else if d == 1 { '1' }
    else if d == 2 { '2' }
    else if d == 3 { '3' }
    else if d == 4 { '4' }
    else if d == 5 { '5' }
    else if d == 6 { '6' }
    else if d == 7 { '7' }
    else if d == 8 { '8' }
    else { '9' }
}

/// The decimal digits of `n`.
pub fn decimal_chars(n: u64) -> (r: Vec<char>)
    ensures
        r@ == decimal(n as nat),
    decreases n,
{
    if n < 10 {
        let mut r = Vec::new();
        r.push(digit_to_char(n));
        assert(r@ =~= seq![digit_char(n as nat)]);
        r
    } else {
        let mut r = decimal_chars(n / 10);
        r.push(digit_to_char(n % 10));
        r
    }
}

/// The decimal text of `n` (what `Display` writes for an unsigned integer).
pub fn decimal_string(n: u64) -> (r: String)
    ensures
        r@ == decimal(n as nat),
{
    let v = decimal_chars(n);
    string_from_chars(v.as_slice())
}

proof fn lemma_digit_char(d: nat)
    requires
        d < 10,
    ensures
        is_digit(digit_char(d)),
        digit_value(digit_char(d)) == d,
{
    assert('0' as int == 48);
    assert('9' as int == 57);
}

pub proof fn lemma_decimal_digits(n: nat)
    ensures
        decimal(n).len() >= 1,
        forall|i: int| 0 <= i < decimal(n).len() ==> is_digit(#[trigger] decimal(n)[i]),
        decimal(n)[0] != '+' && decimal(n)[0] != '-' && decimal(n)[0] != '/',
    decreases n,
{
    if n >= 10 {
        lemma_decimal_digits(n / 10);
        assert forall|i: int| 0 <= i < decimal(n).len() implies is_digit(#[trigger] decimal(n)[i]) by {
            if i < decimal(n / 10).len() {
                assert(decimal(n)[i] == decimal(n / 10)[i]);
            }
        }
    }
}

/// Reading back the decimal text of a number gives the number.
pub proof fn lemma_digits_result_decimal(n: nat, max: nat)
    requires
        n <= max,
    ensures
        digits_result(decimal(n), max) == Ok::<nat, IntErrorKind>(n),
    decreases n,
{
    lemma_digit_char(n % 10);
    if n < 10 {
        let s = decimal(n);
        assert(s.drop_last() =~= Seq::<char>::empty());
        assert(digits_result(Seq::<char>::empty(), max) == Ok::<nat, IntErrorKind>(0));
        assert(s.last() == digit_char(n % 10));
    } else {
        lemma_digits_result_decimal(n / 10, max);
        assert(decimal(n).drop_last() =~= decimal(n / 10));
        assert(decimal(n).last() == digit_char(n % 10));
        assert((n / 10) * 10 + n % 10 == n);
    }
}

/// The decimal text of a number parses back to that number.
pub proof fn lemma_parse_decimal(n: nat, max: nat)
    requires
        n <= max,
    ensures
        parse_unsigned(decimal(n), max) == Ok::<nat, IntErrorKind>(n),
{
    lemma_decimal_digits(n);
    lemma_digits_result_decimal(n, max);
}

proof fn lemma_digits_error_extends(s: Seq<char>, i: int, max: nat)
    requires
        0 <= i <= s.len(),
        digits_result(s.take(i), max) is Err,
    ensures
        digits_result(s, max) == digits_result(s.take(i), max),
    decreases s.len() - i,
{
    if i < s.len() {
        assert(s.take(i + 1).drop_last() =~= s.take(i));
        lemma_digits_error_extends(s, i + 1, max);
    } else {
        assert(s.take(i) =~= s);
    }
}

/// Reads the decimal digits `s[start..end]` as a number no greater than `max`.
fn digits_value(s: &[char], start: usize, end: usize, max: u64) -> (r: Result<u64, IntErrorKind>)
    requires
        start <= end <= s@.len(),
    ensures
        r matches Ok(v) ==> digits_result(s@.subrange(start as int, end as int), max as nat)
            == Ok::<nat, IntErrorKind>(v as nat),
        r matches Err(e) ==> digits_result(s@.subrange(start as int, end as int), max as nat)
            == Err::<nat, IntErrorKind>(e),
{
    let ghost t = s@.subrange(start as int, end as int);
    let mut acc: u64 = 0;
    let mut i: usize = start;
    assert(t.take(0) =~= Seq::<char>::empty());
    while i < end
        invariant
            start <= i <= end <= s@.len(),
            t == s@.subrange(start as int, end as int),
            digits_result(t.take(i - start), max as nat) == Ok::<nat, IntErrorKind>(acc as nat),
            acc <= max,
        decreases end - i,
    {
        let c = s[i];
        assert(t.take(i - start + 1).drop_last() =~= t.take(i - start));
        assert(t.take(i - start + 1).last() == c);
        if !('0' <= c && c <= '9') {
            proof {
                lemma_digits_error_extends(t, i - start + 1, max as nat);
            }
            return Err(IntErrorKind::InvalidDigit);
        }
        let d: u64 = (c as u32 - '0' as u32) as u64;
        let v: u128 = (acc as u128) * 10 + (d as u128);
        if v > max as u128 {
            proof {
                lemma_digits_error_extends(t, i - start + 1, max as nat);
            }
            return Err(IntErrorKind::PosOverflow);
        }
        acc = v as u64;
        i = i + 1;
    }
    assert(t.take(i - start) =~= t);
    Ok(acc)
}

/// Parses `s[start..end]` as an unsigned integer no greater than `max`, as std's `from_str` does.
pub fn parse_unsigned_range(s: &[char], start: usize, end: usize, max: u64) -> (r: Result<u64, IntErrorKind>)
    requires
        start <= end <= s@.len(),
    ensures
        r matches Ok(v) ==> parse_unsigned(s@.subrange(start as int, end as int), max as nat)
            == Ok::<nat, IntErrorKind>(v as nat),
        r matches Err(e) ==> parse_unsigned(s@.subrange(start as int, end as int), max as nat)
            == Err::<nat, IntErrorKind>(e),
{
    let ghost t = s@.subrange(start as int, end as int);
    if start == end {
        return Err(IntErrorKind::Empty);
    }
    if (s[start] == '+' || s[start] == '-') && end - start == 1 {
        return Err(IntErrorKind::InvalidDigit);
    }
    if s[start] == '+' {
        assert(s@.subrange(start + 1, end as int) =~= t.drop_first());
        digits_value(s, start + 1, end, max)
    } else {
        digits_value(s, start, end, max)
    }
}

/// Parses an unsigned integer no greater than `max`, as std's `from_str` does.
pub fn parse_unsigned_chars(s: &[char], max: u64) -> (r: Result<u64, IntErrorKind>)
    ensures
        r matches Ok(v) ==> parse_unsigned(s@, max as nat) == Ok::<nat, IntErrorKind>(v as nat),
        r matches Err(e) ==> parse_unsigned(s@, max as nat) == Err::<nat, IntErrorKind>(e),
{
    assert(s@.subrange(0, s@.len() as int) =~= s@);
    parse_unsigned_range(s, 0, s.len(), max)
}

/// Whether `s` begins with `p`.
pub fn starts_with_chars(s: &[char], p: &[char]) -> (r: bool)
    ensures
        r == starts_with(s@, p@),
{
    if p.len() > s.len() {
        return false;
    }
    let n = p.len();
    for i in 0..n
        invariant
            n == p@.len(),
            n <= s@.len(),
            forall|j: int| 0 <= j < i ==> s@[j] == p@[j],
    {
        if s[i] != p[i] {
            assert(s@.take(n as int)[i as int] != p@[i as int]);
            return false;
        }
    }
    assert(s@.take(n as int) =~= p@);
    true
}

/// Whether `p` occurs in `s` at position `i`.
pub fn occurs_at_chars(s: &[char], p: &[char], i: usize) -> (r: bool)
    ensures
        r == occurs_at(s@, p@, i as int),
{
    if i > s.len() || p.len() > s.len() - i {
        return false;
    }
    let n = p.len();
    let mut k: usize = 0;
    while k < n
        invariant
            n == p@.len(),
            i + n <= s@.len(),
            s@.len() == s.len(),
            k <= n,
            forall|j: int| 0 <= j < k ==> s@[i + j] == p@[j],
        decreases n - k,
    {
        if s[i + k] != p[k] {
            assert(s@.subrange(i as int, i + n)[k as int] != p@[k as int]);
            return false;
        }
        k = k + 1;
    }
    assert(s@.subrange(i as int, i + n) =~= p@);
    true
}

/// Whether `p` occurs anywhere in `s`.
pub fn contains_chars(s: &[char], p: &[char]) -> (r: bool)
    ensures
        r == contains(s@, p@),
{
    if p.len() > s.len() {
        assert forall|i: int| !occurs_at(s@, p@, i) by {}
        return false;
    }
    let last = s.len() - p.len();
    let mut i: usize = 0;
    while i <= last
        invariant
            last == s@.len() - p@.len(),
            forall|j: int| 0 <= j < i ==> !occurs_at(s@, p@, j),
        decreases last + 1 - i,
    {
        if occurs_at_chars(s, p, i) {
            return true;
        }
        if i == last {
            assert forall|j: int| !occurs_at(s@, p@, j) by {
                if 0 <= j && j < i {
                } else if j == i {
                } else {
                }
            }
            return false;
        }
        i = i + 1;
    }
    false
}

proof fn lemma_replace_all_skip(s: Seq<char>, from: Seq<char>, to: Seq<char>, n: int)
    requires
        from.len() > 0,
        0 <= n < s.len(),
    ensures
        occurs_at(s, from, n) ==> replace_all(s.skip(n), from, to) == to + replace_all(
            s.skip(n + from.len()),
            from,
            to,
        ),
        !occurs_at(s, from, n) ==> replace_all(s.skip(n), from, to) == seq![s[n]] + replace_all(
            s.skip(n + 1),
            from,
            to,
        ),
{
    let t = s.skip(n);
    assert(t.skip(1) =~= s.skip(n + 1));
    if n + from.len() <= s.len() {
        assert(t.take(from.len() as int) =~= s.subrange(n, n + from.len()));
        assert(t.skip(from.len() as int) =~= s.skip(n + from.len()));
    }
}

/// Appends all of `to` to `out`.
pub fn extend_chars(out: &mut Vec<char>, to: &[char])
    ensures
        final(out)@ == old(out)@ + to@,
{
    let ghost before = out@;
    let m = to.len();
    for k in 0..m
        invariant
            m == to@.len(),
            out@ == before + to@.take(k as int),
    {
        out.push(to[k]);
        assert(before + to@.take(k + 1) =~= (before + to@.take(k as int)).push(to@[k as int]));
    }
    assert(to@.take(m as int) =~= to@);
}

/// Replaces every non-overlapping occurrence of a non-empty `from`, left to right.
pub fn replace_chars(s: &[char], from: &[char], to: &[char]) -> (r: Vec<char>)
    requires
        from@.len() > 0,
    ensures
        r@ == replace_all(s@, from@, to@),
{
    let mut out: Vec<char> = Vec::new();
    let mut i: usize = 0;
    assert(s@.skip(0) =~= s@);
    while i < s.len()
        invariant
            from@.len() > 0,
            i <= s@.len(),
            out@ + replace_all(s@.skip(i as int), from@, to@) == replace_all(s@, from@, to@),
        decreases s@.len() - i,
    {
        proof {
            lemma_replace_all_skip(s@, from@, to@, i as int);
        }
        let ghost before = out@;
        if occurs_at_chars(s, from, i) {
            extend_chars(&mut out, to);
            assert(out@ + replace_all(s@.skip(i + from@.len()), from@, to@) =~= before + (to@
                + replace_all(s@.skip(i + from@.len()), from@, to@)));
            i = i + from.len();
        } else {
            out.push(s[i]);
            assert(out@ + replace_all(s@.skip(i + 1), from@, to@) =~= before + (seq![s@[i as int]]
                + replace_all(s@.skip(i + 1), from@, to@)));
            i = i + 1;
        }
    }
    assert(s@.skip(i as int) =~= Seq::<char>::empty());
    assert(out@ + Seq::<char>::empty() =~= out@);
    out
}

/// Three-way comparison of texts character by character (negative, zero or
/// positive); a proper prefix comes first.
pub open spec fn text_compare(a: Seq<char>, b: Seq<char>) -> int
    decreases a.len(),
{
    if a.len() == 0 {
        if b.len() == 0 {
            0
        } else {
            -1
        }
    } else if b.len() == 0 {
        1
    } else if a[0] < b[0] {
        -1
    } else if b[0] < a[0] {
        1
    } else {
        text_compare(a.drop_first(), b.drop_first())
    }
}

/// Compares two texts character by character.
pub fn compare_chars(a: &[char], b: &[char]) -> (r: i8)
    ensures
        r == text_compare(a@, b@),
{
    let mut i: usize = 0;
    assert(a@.skip(0) =~= a@);
    assert(b@.skip(0) =~= b@);
    while i < a.len() && i < b.len()
        invariant
            i <= a@.len(),
            i <= b@.len(),
            text_compare(a@, b@) == text_compare(a@.skip(i as int), b@.skip(i as int)),
        decreases a@.len() - i,
    {
        if a[i] < b[i] {
            return -1;
        }
        if b[i] < a[i] {
            return 1;
        }
        assert(a@.skip(i as int).drop_first() =~= a@.skip(i + 1));
        assert(b@.skip(i as int).drop_first() =~= b@.skip(i + 1));
        i = i + 1;
    }
    if i == a.len() {
        if i == b.len() {
            0
        } else {
            -1
        }
    } else {
        1
    }
}

/// Text comparison is a strict order: a text equals itself, swapping the
/// texts flips the sign, and "comes before" is transitive.
pub proof fn lemma_text_compare_order(a: Seq<char>, b: Seq<char>, c: Seq<char>)
    ensures
        text_compare(a, a) == 0,
        text_compare(a, b) == -text_compare(b, a),
        text_compare(a, b) < 0 && text_compare(b, c) < 0 ==> text_compare(a, c) < 0,
    decreases a.len(),
{
    if a.len() > 0 && b.len() > 0 && c.len() > 0 {
        lemma_text_compare_order(a.drop_first(), b.drop_first(), c.drop_first());
    } else if a.len() > 0 && b.len() > 0 {
        lemma_text_compare_order(a.drop_first(), b.drop_first(), b.drop_first());
    } else if a.len() > 0 {
        lemma_text_compare_order(a.drop_first(), a.drop_first(), a.drop_first());
    }
}

/// The text std's `ParseIntError` displays for each kind.
pub open spec fn int_error_text(k: IntErrorKind) -> Seq<char> {
    match k {
        IntErrorKind::Empty => "cannot parse integer from empty string"@,
        IntErrorKind::InvalidDigit => "invalid digit found in string"@,
        IntErrorKind::PosOverflow => "number too large to fit in target type"@,
    }
}

impl IntErrorKind {
    /// The text of the error (what `Display` writes).
    pub fn to_string(&self) -> (r: String)
        ensures
            r@ == int_error_text(*self),
    {
        match self {
            IntErrorKind::Empty => "cannot parse integer from empty string".to_owned(),
            IntErrorKind::InvalidDigit => "invalid digit found in string".to_owned(),
            IntErrorKind::PosOverflow => "number too large to fit in target type".to_owned(),
        }
    }
}

/// The decimal text of an integer, with a minus sign when it is negative.
pub open spec fn signed_decimal(i: int) -> Seq<char> {
    if i < 0 {
        seq!['-'] + decimal((-i) as nat)
    } else {
        decimal(i as nat)
    }
}

/// The decimal text of a signed integer (what `Display` writes).
pub fn signed_decimal_string(i: i64) -> (r: String)
    ensures
        r@ == signed_decimal(i as int),
{
    if i < 0 {
        let magnitude: u64 = (-(i + 1)) as u64 + 1;
        let digits = decimal_string(magnitude);
        proof {
            reveal_strlit("-");
            assert("-"@ =~= seq!['-']);
        }
        concat("-", digits.as_str())
    } else {
        decimal_string(i as u64)
    }
}

} // verus!
