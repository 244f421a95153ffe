//! Character-level string helpers shared by the rest of the library:
//! whitespace trimming, decimal parsing and printing, and building strings
//! from characters.

use vstd::prelude::*;

verus! {

broadcast use vstd::string::group_string_axioms;

/// Appends one character to a string (`String::push`).
#[verifier::external_body]
pub(crate) fn push_char(s: &mut String, c: char)
    ensures
        final(s)@ == old(s)@.push(c),
{
    s.push(c);
}

/// The characters of `s`, in order.
pub fn chars_of(s: &str) -> (out: Vec<char>)
    ensures
        out@ == s@,
{
    let mut out: Vec<char> = Vec::new();
    for c in it: s.chars()
        invariant
            out@ == it.seq().take(it.index() as int),
            it.seq() == s@,
    {
        out.push(c);
    }
    out
}

/// Appends every character of `chars` to `s`.
pub fn push_chars(s: &mut String, chars: &Vec<char>)
    ensures
        final(s)@ == old(s)@ + chars@,
{
    let ghost start = s@;
    let mut i: usize = 0;
    while i < chars.len()
        invariant
            i <= chars.len(),
            s@ == start + chars@.take(i as int),
        decreases chars.len() - i,
    {
        push_char(s, chars[i]);
        assert(chars@.take(i + 1) =~= chars@.take(i as int).push(chars@[i as int]));
        i = i + 1;
    }
    assert(chars@.take(chars.len() as int) =~= chars@);
}

/// Appends a string slice to `s`.
pub fn push_str(s: &mut String, t: &str)
    ensures
        final(s)@ == old(s)@ + t@,
{
    let chars = chars_of(t);
    push_chars(s, &chars);
}

/// A new string holding exactly `chars`.
pub fn string_from_chars(chars: &Vec<char>) -> (s: String)
    ensures
        s@ == chars@,
{
    let mut s = String::new();
    push_chars(&mut s, chars);
    assert(s@ =~= chars@);
    s
}

/// A new string holding the characters of `t`.
pub fn string_of(t: &str) -> (s: String)
    ensures
        s@ == t@,
{
    let mut s = String::new();
    push_str(&mut s, t);
    assert(s@ =~= t@);
    s
}

/// Whether two strings hold the same characters.
pub fn str_eq(a: &str, b: &str) -> (r: bool)
    ensures
        r == (a@ == b@),
{
    let x = chars_of(a);
    let y = chars_of(b);
    if x.len() != y.len() {
        return false;
    }
    let mut i: usize = 0;
    while i < x.len()
        invariant
            x@ == a@,
            y@ == b@,
            x.len() == y.len(),
            i <= x.len(),
            forall|k: int| 0 <= k < i ==> x@[k] == y@[k],
        decreases x.len() - i,
    {
        if x[i] != y[i] {
            return false;
        }
        i = i + 1;
    }
    assert(x@ =~= y@);
    true
}

/// The Unicode `White_Space` property, as `char::is_whitespace` documents it.
pub open spec fn is_white_space(c: char) -> bool {
    let u = c as u32;
    ||| 0x9 <= u <= 0xD
    ||| u == 0x20
    ||| u == 0x85
    ||| u == 0xA0
    ||| u == 0x1680
    ||| 0x2000 <= u <= 0x200A
    ||| u == 0x2028
    ||| u == 0x2029
    ||| u == 0x202F
    ||| u == 0x205F
    ||| u == 0x3000
}

pub fn is_whitespace(c: char) -> (b: bool)
    ensures
        b == is_white_space(c),
{
    let u = c as u32;
    (0x9 <= u && u <= 0xD) || u == 0x20 || u == 0x85 || u == 0xA0 || u == 0x1680 || (0x2000 <= u
        && u <= 0x200A) || u == 0x2028 || u == 0x2029 || u == 0x202F || u == 0x205F || u == 0x3000
}

/// `s` without its leading whitespace.
pub open spec fn trim_start_seq(s: Seq<char>) -> Seq<char>
    decreases s.len(),
{
    if s.len() > 0 && is_white_space(s[0]) {
        trim_start_seq(s.drop_first())
    } else {
        s
    }
}

/// `s` without its trailing whitespace.
pub open spec fn trim_end_seq(s: Seq<char>) -> Seq<char>
    decreases s.len(),
{
    if s.len() > 0 && is_white_space(s.last()) {
        trim_end_seq(s.drop_last())
    } else {
        s
    }
}

/// `s` without leading and trailing whitespace (`str::trim`).
pub open spec fn trim_seq(s: Seq<char>) -> Seq<char> {
    trim_end_seq(trim_start_seq(s))
}

pub(crate) proof fn lemma_trim_start_first(s: Seq<char>)
    ensures
        trim_start_seq(s).len() > 0 ==> !is_white_space(trim_start_seq(s)[0]),
        trim_start_seq(s).len() <= s.len(),
    decreases s.len(),
{
    if s.len() > 0 && is_white_space(s[0]) {
        lemma_trim_start_first(s.drop_first());
    }
}

pub(crate) proof fn lemma_trim_end_prefix(s: Seq<char>)
    ensures
        trim_end_seq(s).len() <= s.len(),
        trim_end_seq(s) == s.take(trim_end_seq(s).len() as int),
        trim_end_seq(s).len() > 0 ==> !is_white_space(trim_end_seq(s).last()),
    decreases s.len(),
{
    if s.len() > 0 && is_white_space(s.last()) {
        lemma_trim_end_prefix(s.drop_last());
        let t = trim_end_seq(s.drop_last());
        assert(s.drop_last().take(t.len() as int) =~= s.take(t.len() as int));
    } else {
        assert(s.take(s.len() as int) =~= s);
    }
}

/// A trimmed, non-empty text starts and ends with a character that is not
/// whitespace.
pub(crate) proof fn lemma_trimmed_ends(v: Seq<char>)
    requires
        trim_seq(v) == v,
        v.len() > 0,
    ensures
        !is_white_space(v[0]),
        !is_white_space(v.last()),
{
    let u = trim_start_seq(v);
    lemma_trim_start_first(v);
    lemma_trim_end_prefix(u);
    assert(trim_end_seq(u)[0] == u[0]);
}

/// A text that starts and ends with non-whitespace is its own trim.
pub(crate) proof fn lemma_trim_fixed(s: Seq<char>)
    requires
        s.len() > 0,
        !is_white_space(s[0]),
        !is_white_space(s.last()),
    ensures
        trim_seq(s) == s,
{
    assert(trim_start_seq(s) == s);
    assert(trim_end_seq(s) == s);
}

/// Trimming twice is trimming once.
pub proof fn lemma_trim_idempotent(s: Seq<char>)
    ensures
        trim_seq(trim_seq(s)) == trim_seq(s),
{
    let u = trim_start_seq(s);
    let t = trim_end_seq(u);
    lemma_trim_start_first(s);
    lemma_trim_end_prefix(u);
    if t.len() > 0 {
        assert(t[0] == u[0]);
        assert(trim_start_seq(t) == t);
        assert(trim_end_seq(t) == t);
    } else {
        assert(trim_start_seq(t) == t);
    }
}

proof fn lemma_trim_start_skip(s: Seq<char>, k: int)
    requires
        0 <= k <= s.len(),
        forall|i: int| 0 <= i < k ==> is_white_space(#[trigger] s[i]),
    ensures
        trim_start_seq(s) == trim_start_seq(s.skip(k)),
    decreases k,
{
    if k > 0 {
        assert(s.skip(1).skip(k - 1) =~= s.skip(k));
        assert(s.drop_first() =~= s.skip(1));
        lemma_trim_start_skip(s.drop_first(), k - 1);
    } else {
        assert(s.skip(0) =~= s);
    }
}

proof fn lemma_trim_end_take(s: Seq<char>, k: int)
    requires
        0 <= k <= s.len(),
        forall|i: int| k <= i < s.len() ==> is_white_space(#[trigger] s[i]),
    ensures
        trim_end_seq(s) == trim_end_seq(s.take(k)),
    decreases s.len() - k,
{
    if k < s.len() {
        assert(s.drop_last().take(k) =~= s.take(k));
        lemma_trim_end_take(s.drop_last(), k);
    } else {
        assert(s.take(k) =~= s);
    }
}

/// The characters of `s` without leading and trailing whitespace.
pub fn trim_chars(s: &Vec<char>) -> (out: Vec<char>)
    ensures
        out@ == trim_seq(s@),
{
    let n = s.len();
    let mut start: usize = 0;
    while start < n && is_whitespace(s[start])
        invariant
            start <= n == s.len(),
            forall|i: int| 0 <= i < start ==> is_white_space(#[trigger] s@[i]),
        decreases n - start,
    {
        start = start + 1;
    }
    proof {
        lemma_trim_start_skip(s@, start as int);
    }
    let ghost rest = s@.skip(start as int);
    assert(trim_start_seq(rest) == rest);
    let mut end: usize = n;
    while end > start && is_whitespace(s[end - 1])
        invariant
            start <= end <= n == s.len(),
            rest == s@.skip(start as int),
            forall|i: int| end - start <= i < rest.len() ==> is_white_space(#[trigger] rest[i]),
        decreases end,
    {
        end = end - 1;
    }
    proof {
        lemma_trim_end_take(rest, end - start);
        let t = rest.take(end - start);
        if t.len() > 0 {
            assert(t.last() == s@[end - 1]);
        }
        assert(trim_end_seq(t) == t);
    }
    let mut out: Vec<char> = Vec::new();
    let mut i = start;
    while i < end
        invariant
            start <= i <= end <= n == s.len(),
            out@ == s@.subrange(start as int, i as int),
        decreases end - i,
    {
        out.push(s[i]);
        assert(s@.subrange(start as int, i + 1) =~= s@.subrange(start as int, i as int).push(
            s@[i as int],
        ));
        i = i + 1;
    }
    assert(out@ =~= rest.take(end - start));
    out
}

/// `s` without leading and trailing whitespace (`str::trim`).
pub fn trim(s: &str) -> (out: String)
    ensures
        out@ == trim_seq(s@),
{
    let chars = chars_of(s);
    let t = trim_chars(&chars);
    string_from_chars(&t)
}

pub open spec fn is_digit(c: char) -> bool {
    '0' <= c <= '9'
}

pub open spec fn digit_value(c: char) -> nat {
    (c as u32 - '0' as u32) as nat
}

/// The number written by a run of decimal digits.
pub open spec fn digits_value(d: Seq<char>) -> nat
    decreases d.len(),
{
    if d.len() == 0 {
        0
    } else {
        digits_value(d.drop_last()) * 10 + digit_value(d.last())
    }
}

/// The digits that `u64::from_str` reads: everything after an optional `+`.
pub open spec fn unsigned_digits(s: Seq<char>) -> Seq<char> {
    if s.len() > 0 && s[0] == '+' {
        s.drop_first()
    } else {
        s
    }
}

/// What `s.parse::<u64>().ok()` gives: an optional `+` followed by at least
/// one decimal digit, with a value that fits in a `u64`.
pub open spec fn parse_u64_spec(s: Seq<char>) -> Option<u64> {
    let d = unsigned_digits(s);
    if d.len() > 0 && (forall|i: int| 0 <= i < d.len() ==> is_digit(#[trigger] d[i])) && digits_value(d)
        <= u64::MAX {
        Some(digits_value(d) as u64)
    } else {
        None
    }
}

proof fn lemma_digits_take(d: Seq<char>, i: int)
    requires
        0 <= i < d.len(),
    ensures
        digits_value(d.take(i + 1)) == digits_value(d.take(i)) * 10 + digit_value(d[i]),
{
    assert(d.take(i + 1).drop_last() =~= d.take(i));
}

proof fn lemma_digits_prefix_le(d: Seq<char>, i: int)
    requires
        0 <= i <= d.len(),
    ensures
        digits_value(d.take(i)) <= digits_value(d),
    decreases d.len() - i,
{
    if i < d.len() {
        lemma_digits_prefix_le(d, i + 1);
        lemma_digits_take(d, i);
    } else {
        assert(d.take(i) =~= d);
    }
}

/// Parses an unsigned decimal number exactly as `str::parse::<u64>` does.
pub fn parse_u64(s: &str) -> (r: Option<u64>)
    ensures
        r == parse_u64_spec(s@),
{
    let chars = chars_of(s);
    let mut i: usize = 0;
    if chars.len() > 0 && chars[0] == '+' {
        i = 1;
    }
    let ghost d = unsigned_digits(s@);
    assert(d =~= chars@.skip(i as int));
    if i >= chars.len() {
        return None;
    }
    let start = i;
    let mut value: u64 = 0;
    while i < chars.len()
        invariant
            chars@ == s@,
            d == unsigned_digits(s@),
            d == chars@.skip(start as int),
            start <= i <= chars.len(),
            start < chars.len(),
            forall|k: int| 0 <= k < i - start ==> is_digit(#[trigger] d[k]),
            value == digits_value(d.take(i - start)),
        decreases chars.len() - i,
    {
        let c = chars[i];
        assert(c == d[i - start]);
        if c < '0' || c > '9' {
            assert(!is_digit(d[i - start]));
            return None;
        }
        proof {
            lemma_digits_take(d, i - start);
        }
        let digit = (c as u32 - '0' as u32) as u64;
        match value.checked_mul(10) {
            None => {
                proof {
                    lemma_digits_prefix_le(d, i - start + 1);
                    assert(digits_value(d) > u64::MAX);
                }
                return None;
            },
            Some(v) => match v.checked_add(digit) {
                None => {
                    proof {
                        lemma_digits_prefix_le(d, i - start + 1);
                        assert(digits_value(d) > u64::MAX);
                    }
                    return None;
                },
                Some(w) => {
                    value = w;
                },
            },
        }
        i = i + 1;
    }
    assert(d.take(i - start) =~= d);
    Some(value)
}

pub open spec fn digit_char(n: nat) -> char
    recommends
        n < 10,
{
    ((n + '0' as u32) as u32) as char
}

/// The decimal digits of `n`, as `{}` prints an unsigned integer.
pub open spec fn decimal_seq(n: nat) -> Seq<char>
    decreases n,
{
    if n < 10 {
        seq![digit_char(n)]
    } else {
        decimal_seq(n / 10).push(digit_char(n % 10))
    }
}

/// `decimal_seq(n)` left-padded with zeros to at least two characters (`{:02}`).
pub open spec fn decimal2_seq(n: nat) -> Seq<char> {
    if n < 10 {
        seq!['0'] + decimal_seq(n)
    } else {
        decimal_seq(n)
    }
}

pub fn digit_to_char(n: u64) -> (c: char)
    requires
        n < 10,
    ensures
        c == digit_char(n as nat),
{
    let c = match n {
        0 => '0',
        1 => '1',
        2 => '2',
        3 => '3',
        4 => '4',
        5 => '5',
        6 => '6',
        7 => '7',
        8 => '8',
        _ => '9',
    };
    c
}

/// Appends the decimal digits of `n` to `s`.
pub fn push_decimal(s: &mut String, n: u64)
    ensures
        final(s)@ == old(s)@ + decimal_seq(n as nat),
    decreases n,
{
    if n >= 10 {
        push_decimal(s, n / 10);
        push_char(s, digit_to_char(n % 10));
        assert(s@ =~= old(s)@ + decimal_seq(n as nat));
    } else {
        push_char(s, digit_to_char(n));
        assert(s@ =~= old(s)@ + decimal_seq(n as nat));
    }
}

/// Appends `n` zero-padded to two digits (`{:02}`).
pub fn push_decimal2(s: &mut String, n: u64)
    ensures
        final(s)@ == old(s)@ + decimal2_seq(n as nat),
{
    if n < 10 {
        push_char(s, '0');
    }
    push_decimal(s, n);
    assert(s@ =~= old(s)@ + decimal2_seq(n as nat));
}

/// The decimal form of `n` (`n.to_string()`).
pub fn decimal_string(n: u64) -> (s: String)
    ensures
        s@ == decimal_seq(n as nat),
{
    let mut s = String::new();
    push_decimal(&mut s, n);
    assert(s@ =~= decimal_seq(n as nat));
    s
}

/// ASCII lowercasing of one character (`char::to_ascii_lowercase`).
pub open spec fn ascii_lower(c: char) -> char {
    if 'A' <= c <= 'Z' {
        ((c as u32 + 32) as u32) as char
    } else {
        c
    }
}

pub open spec fn ascii_lower_seq(s: Seq<char>) -> Seq<char> {
    Seq::new(s.len(), |i: int| ascii_lower(s[i]))
}

pub fn to_ascii_lower(c: char) -> (r: char)
    ensures
        r == ascii_lower(c),
{
    if 'A' <= c && c <= 'Z' {
        let u = (c as u32 + 32) as u8;
        u as char
    } else {
        c
    }
}

/// ASCII lowercasing of a whole string (`str::to_ascii_lowercase`).
pub fn ascii_lowercase(s: &Vec<char>) -> (out: Vec<char>)
    ensures
        out@ == ascii_lower_seq(s@),
{
    let mut out: Vec<char> = Vec::new();
    let mut i: usize = 0;
    while i < s.len()
        invariant
            i <= s.len(),
            out@.len() == i,
            forall|k: int| 0 <= k < i ==> out@[k] == ascii_lower(s@[k]),
        decreases s.len() - i,
    {
        out.push(to_ascii_lower(s[i]));
        i = i + 1;
    }
    assert(out@ =~= ascii_lower_seq(s@));
    out
}

/// Whether `pat` occurs in `s` starting at index `i`.
pub open spec fn occurs_at(s: Seq<char>, pat: Seq<char>, i: int) -> bool {
    0 <= i && i + pat.len() <= s.len() && s.subrange(i, i + pat.len()) == pat
}

/// Whether `pat` occurs anywhere in `s` (`str::contains`).
pub open spec fn contains_seq(s: Seq<char>, pat: Seq<char>) -> bool {
    exists|i: int| occurs_at(s, pat, i)
}

pub fn occurs_at_exec(s: &Vec<char>, pat: &Vec<char>, i: usize) -> (r: bool)
    ensures
        r == occurs_at(s@, pat@, i as int),
{
    if i > s.len() || pat.len() > s.len() - i {
        return false;
    }
    let mut k: usize = 0;
    while k < pat.len()
        invariant
            i + pat.len() <= s.len(),
            k <= pat.len(),
            forall|j: int| 0 <= j < k ==> s@[i + j] == pat@[j],
        decreases pat.len() - k,
    {
        if s[i + k] != pat[k] {
            assert(s@.subrange(i as int, i + pat.len())[k as int] != pat@[k as int]);
            return false;
        }
        k = k + 1;
    }
    assert(s@.subrange(i as int, i + pat.len()) =~= pat@);
    true
}

/// Whether `s` starts with `pat` (`str::starts_with`).
pub fn starts_with(s: &Vec<char>, pat: &Vec<char>) -> (r: bool)
    ensures
        r == occurs_at(s@, pat@, 0),
{
    occurs_at_exec(s, pat, 0)
}

/// Whether `pat` occurs in `s` (`str::contains`).
pub fn contains(s: &Vec<char>, pat: &Vec<char>) -> (r: bool)
    ensures
        r == contains_seq(s@, pat@),
{
    let mut i: usize = 0;
    while i < s.len()
        invariant
            i <= s.len(),
            forall|j: int| 0 <= j < i ==> !occurs_at(s@, pat@, j),
        decreases s.len() - i,
    {
        if occurs_at_exec(s, pat, i) {
            return true;
        }
        i = i + 1;
    }
    if occurs_at_exec(s, pat, i) {
        return true;
    }
    i = i;
    assert forall|j: int| !occurs_at(s@, pat@, j) by {
        if 0 <= j && j <= i {
        }
    }
    false
}

/// The first index at or after `i` where `pat` occurs in `s`.
pub open spec fn find_from(s: Seq<char>, pat: Seq<char>, i: int) -> Option<int>
    decreases s.len() + 1 - i,
{
    if i < 0 || i > s.len() {
        None
    } else if occurs_at(s, pat, i) {
        Some(i)
    } else {
        find_from(s, pat, i + 1)
    }
}

/// The first index where `pat` occurs in `s` (`str::find`).
pub open spec fn find_seq(s: Seq<char>, pat: Seq<char>) -> Option<int> {
    find_from(s, pat, 0)
}

/// What `find_from` gives: the first occurrence at or after `i`, or none.
pub proof fn lemma_find_from(s: Seq<char>, pat: Seq<char>, i: int)
    requires
        0 <= i,
    ensures
        match find_from(s, pat, i) {
            Some(j) => i <= j && occurs_at(s, pat, j) && forall|k: int| i <= k < j ==> !occurs_at(s, pat, k),
            None => forall|k: int| i <= k ==> !occurs_at(s, pat, k),
        },
    decreases s.len() + 1 - i,
{
    if i > s.len() {
    } else if occurs_at(s, pat, i) {
    } else {
        lemma_find_from(s, pat, i + 1);
    }
}

/// The first occurrence is determined by where the pattern occurs.
pub proof fn lemma_find_unique(s: Seq<char>, pat: Seq<char>, j: Option<int>)
    requires
        match j {
            Some(j) => 0 <= j && occurs_at(s, pat, j) && forall|k: int| 0 <= k < j ==> !occurs_at(s, pat, k),
            None => forall|k: int| 0 <= k ==> !occurs_at(s, pat, k),
        },
    ensures
        find_seq(s, pat) == j,
{
    lemma_find_from(s, pat, 0);
    match find_seq(s, pat) {
        Some(f) => {
            match j {
                Some(jj) => {
                    if f < jj {
                        assert(!occurs_at(s, pat, f));
                    } else if jj < f {
                        assert(!occurs_at(s, pat, jj));
                    }
                },
                None => {
                    assert(!occurs_at(s, pat, f));
                },
            }
        },
        None => {
            match j {
                Some(jj) => {
                    assert(!occurs_at(s, pat, jj));
                },
                None => {},
            }
        },
    }
}

pub fn find(s: &Vec<char>, pat: &Vec<char>) -> (r: Option<usize>)
    ensures
        r matches Some(i) ==> find_seq(s@, pat@) == Some(i as int) && occurs_at(s@, pat@, i as int),
        r is None ==> find_seq(s@, pat@) is None,
{
    let mut i: usize = 0;
    while i < s.len()
        invariant
            i <= s.len(),
            find_seq(s@, pat@) == find_from(s@, pat@, i as int),
        decreases s.len() - i,
    {
        if occurs_at_exec(s, pat, i) {
            return Some(i);
        }
        i = i + 1;
    }
    if occurs_at_exec(s, pat, i) {
        return Some(i);
    }
    assert(find_from(s@, pat@, i + 1) is None);
    None
}

/// The last index of `c` in `s`, or `-1` when it does not occur.
pub open spec fn last_index_of(s: Seq<char>, c: char) -> int
    decreases s.len(),
{
    if s.len() == 0 {
        -1
    } else if s.last() == c {
        s.len() - 1
    } else {
        last_index_of(s.drop_last(), c)
    }
}

pub fn rfind_char(s: &Vec<char>, c: char) -> (r: Option<usize>)
    ensures
        r matches Some(i) ==> last_index_of(s@, c) == i && i < s.len(),
        r is None ==> last_index_of(s@, c) == -1,
{
    let mut n = s.len();
    assert(s@.take(n as int) =~= s@);
    while n > 0
        invariant
            n <= s.len(),
            last_index_of(s@, c) == last_index_of(s@.take(n as int), c),
        decreases n,
    {
        assert(s@.take(n as int).drop_last() =~= s@.take(n - 1));
        if s[n - 1] == c {
            return Some(n - 1);
        }
        n = n - 1;
    }
    None
}

/// The characters of `s` from index `from` up to (not including) `to`.
pub fn slice_chars(s: &Vec<char>, from: usize, to: usize) -> (out: Vec<char>)
    requires
        from <= to <= s.len(),
    ensures
        out@ == s@.subrange(from as int, to as int),
{
    let mut out: Vec<char> = Vec::new();
    let mut i = from;
    while i < to
        invariant
            from <= i <= to <= s.len(),
            out@ == s@.subrange(from as int, i as int),
        decreases to - i,
    {
        out.push(s[i]);
        assert(s@.subrange(from as int, i + 1) =~= s@.subrange(from as int, i as int).push(
            s@[i as int],
        ));
        i = i + 1;
    }
    out
}

/// Parses the characters of `s` as `str::parse::<u64>` does.
pub fn parse_u64_chars(s: &Vec<char>) -> (r: Option<u64>)
    ensures
        r == parse_u64_spec(s@),
{
    let t = string_from_chars(s);
    parse_u64(t.as_str())
}

/// Whether two character vectors are equal.
pub fn chars_eq(a: &Vec<char>, b: &Vec<char>) -> (r: bool)
    ensures
        r == (a@ == b@),
{
    if a.len() != b.len() {
        return false;
    }
    let mut i: usize = 0;
    while i < a.len()
        invariant
            a.len() == b.len(),
            i <= a.len(),
            forall|k: int| 0 <= k < i ==> a@[k] == b@[k],
        decreases a.len() - i,
    {
        if a[i] != b[i] {
            return false;
        }
        i = i + 1;
    }
    assert(a@ =~= b@);
    true
}

/// The character sequences of a vector of character vectors.
pub open spec fn nested_view(v: Seq<Vec<char>>) -> Seq<Seq<char>> {
    v.map_values(|x: Vec<char>| x@)
}

/// The character sequences of a vector of strings.
pub open spec fn strings_view(v: Seq<String>) -> Seq<Seq<char>> {
    v.map_values(|x: String| x@)
}

/// Whether `item` is one of `v`.
pub fn contains_chars(v: &Vec<Vec<char>>, item: &Vec<char>) -> (r: bool)
    ensures
        r == nested_view(v@).contains(item@),
{
    let mut i: usize = 0;
    while i < v.len()
        invariant
            i <= v.len(),
            forall|k: int| 0 <= k < i ==> v@[k]@ != item@,
        decreases v.len() - i,
    {
        if chars_eq(&v[i], item) {
            assert(nested_view(v@)[i as int] == item@);
            return true;
        }
        i = i + 1;
    }
    assert forall|k: int| 0 <= k < nested_view(v@).len() implies nested_view(v@)[k] != item@ by {
        assert(nested_view(v@)[k] == v@[k]@);
    }
    false
}

/// Strings holding the given character vectors.
pub fn strings_from_nested(v: &Vec<Vec<char>>) -> (out: Vec<String>)
    ensures
        strings_view(out@) == nested_view(v@),
{
    let mut out: Vec<String> = Vec::new();
    let mut i: usize = 0;
    while i < v.len()
        invariant
            i <= v.len(),
            out@.len() == i,
            forall|k: int| 0 <= k < i ==> (#[trigger] out@[k])@ == v@[k]@,
        decreases v.len() - i,
    {
        out.push(string_from_chars(&v[i]));
        i = i + 1;
    }
    assert(strings_view(out@) =~= nested_view(v@));
    out
}

/// Splitting `s` at every `sep`, from the left: the pieces finished so far
/// and the piece being read.
pub open spec fn split_fold(s: Seq<char>, sep: char) -> (Seq<Seq<char>>, Seq<char>)
    decreases s.len(),
{
    if s.len() == 0 {
        (Seq::empty(), Seq::empty())
    } else {
        let (done, cur) = split_fold(s.drop_last(), sep);
        if s.last() == sep {
            (done.push(cur), Seq::empty())
        } else {
            (done, cur.push(s.last()))
        }
    }
}

/// The pieces of `s` between occurrences of `sep` (`str::split` with a
/// character): always at least one, possibly empty.
pub open spec fn split_spec(s: Seq<char>, sep: char) -> Seq<Seq<char>> {
    split_fold(s, sep).0.push(split_fold(s, sep).1)
}

/// The first piece of a split is empty exactly when the text is empty or
/// starts with the separator; the piece being built holds no separator, and
/// while none was met it is the whole text.
pub(crate) proof fn lemma_split_first(s: Seq<char>, sep: char)
    ensures
        split_spec(s, sep)[0].len() == 0 <==> (s.len() == 0 || s[0] == sep),
        forall|k: int| 0 <= k < split_fold(s, sep).1.len() ==> split_fold(s, sep).1[k] != sep,
        split_fold(s, sep).0.len() == 0 ==> split_fold(s, sep).1 == s,
    decreases s.len(),
{
    if s.len() > 0 {
        let sp = s.drop_last();
        lemma_split_first(sp, sep);
        let (done, cur) = split_fold(sp, sep);
        assert(s == sp.push(s.last()));
        if done.len() == 0 {
            assert(cur == sp);
            if sp.len() > 0 {
                assert(sp[0] == cur[0]);
                assert(s[0] == sp[0]);
            }
        } else {
            assert(split_spec(sp, sep)[0] == done[0]);
            if sp.len() > 0 {
                assert(s[0] == sp[0]);
            }
            if sp.len() == 0 {
                assert(split_fold(sp, sep).0 =~= Seq::<Seq<char>>::empty());
            }
        }
        if s.last() != sep {
            let c2 = cur.push(s.last());
            assert forall|k: int| 0 <= k < c2.len() implies c2[k] != sep by {
                if k < cur.len() {
                    assert(c2[k] == cur[k]);
                }
            }
        }
    }
}

/// The pieces of `s` between occurrences of `sep`.
pub fn split_char(s: &Vec<char>, sep: char) -> (out: Vec<Vec<char>>)
    ensures
        nested_view(out@) == split_spec(s@, sep),
{
    let mut done: Vec<Vec<char>> = Vec::new();
    let mut cur: Vec<char> = Vec::new();
    let mut i: usize = 0;
    assert(s@.take(0) =~= Seq::<char>::empty());
    while i < s.len()
        invariant
            i <= s.len(),
            (nested_view(done@), cur@) == split_fold(s@.take(i as int), sep),
        decreases s.len() - i,
    {
        assert(s@.take(i + 1).drop_last() =~= s@.take(i as int));
        assert(s@.take(i + 1).last() == s@[i as int]);
        if s[i] == sep {
            let piece = cur;
            cur = Vec::new();
            let ghost before = done@;
            done.push(piece);
            assert(nested_view(done@) =~= nested_view(before).push(piece@));
            assert(cur@ =~= Seq::<char>::empty());
        } else {
            cur.push(s[i]);
        }
        i = i + 1;
    }
    assert(s@.take(i as int) =~= s@);
    let ghost before = done@;
    done.push(cur);
    assert(nested_view(done@) =~= nested_view(before).push(cur@));
    done
}

/// `parts` joined with `sep` between neighbours.
pub open spec fn join_spec(parts: Seq<Seq<char>>, sep: Seq<char>) -> Seq<char>
    decreases parts.len(),
{
    if parts.len() == 0 {
        Seq::empty()
    } else if parts.len() == 1 {
        parts[0]
    } else {
        join_spec(parts.drop_last(), sep) + sep + parts.last()
    }
}

/// No piece of a split holds the separator.
pub(crate) proof fn lemma_split_pieces(s: Seq<char>, sep: char)
    ensures
        forall|i: int, k: int|
            0 <= i < split_spec(s, sep).len() && 0 <= k < split_spec(s, sep)[i].len() ==> #[trigger] split_spec(
                s,
                sep,
            )[i][k] != sep,
    decreases s.len(),
{
    lemma_split_first(s, sep);
    if s.len() > 0 {
        let sp = s.drop_last();
        lemma_split_pieces(sp, sep);
        lemma_split_first(sp, sep);
        let (done, cur) = split_fold(sp, sep);
        assert(split_spec(sp, sep) == done.push(cur));
        assert forall|i: int, k: int| 0 <= i < done.len() && 0 <= k < done[i].len() implies done[i][k] != sep by {
            assert(split_spec(sp, sep)[i] == done[i]);
            assert(split_spec(sp, sep)[i][k] == done[i][k]);
        }
        let pieces = split_spec(s, sep);
        assert forall|i: int, k: int| 0 <= i < pieces.len() && 0 <= k < pieces[i].len() implies #[trigger] pieces[i][k]
            != sep by {
            if s.last() == sep {
                if i < done.len() {
                    assert(pieces[i] == done[i]);
                } else if i == done.len() {
                    assert(pieces[i] == cur);
                }
            } else {
                if i < done.len() {
                    assert(pieces[i] == done[i]);
                } else {
                    assert(pieces[i] == cur.push(s.last()));
                    if k < cur.len() {
                        assert(pieces[i][k] == cur[k]);
                    }
                }
            }
        }
    }
}

/// Appending text without the separator extends the piece being built.
pub(crate) proof fn lemma_split_append(x: Seq<char>, b: Seq<char>, sep: char)
    requires
        forall|k: int| 0 <= k < b.len() ==> b[k] != sep,
    ensures
        split_fold(x + b, sep) == (split_fold(x, sep).0, split_fold(x, sep).1 + b),
    decreases b.len(),
{
    if b.len() == 0 {
        assert(x + b =~= x);
        assert(split_fold(x, sep).1 + b =~= split_fold(x, sep).1);
    } else {
        let bp = b.drop_last();
        lemma_split_append(x, bp, sep);
        assert((x + b).drop_last() =~= x + bp);
        assert((x + b).last() == b.last());
        assert(split_fold(x, sep).1 + bp.push(b.last()) =~= split_fold(x, sep).1 + b);
        assert(bp.push(b.last()) =~= b);
        assert((split_fold(x, sep).1 + bp).push(b.last()) =~= split_fold(x, sep).1 + b);
    }
}

/// Splitting pieces joined by the separator gives the pieces back, when no
/// piece holds the separator.
pub(crate) proof fn lemma_split_join(parts: Seq<Seq<char>>, sep: char)
    requires
        parts.len() > 0,
        forall|i: int, k: int| 0 <= i < parts.len() && 0 <= k < parts[i].len() ==> #[trigger] parts[i][k] != sep,
    ensures
        split_spec(join_spec(parts, seq![sep]), sep) == parts,
    decreases parts.len(),
{
    if parts.len() == 1 {
        assert forall|k: int| 0 <= k < parts[0].len() implies parts[0][k] != sep by {
            assert(parts[0][k] != sep);
        }
        lemma_split_append(Seq::empty(), parts[0], sep);
        assert(Seq::<char>::empty() + parts[0] =~= parts[0]);
        assert(split_fold(Seq::<char>::empty(), sep).1 + parts[0] =~= parts[0]);
        assert(split_spec(parts[0], sep) =~= seq![parts[0]]);
        assert(parts =~= seq![parts[0]]);
    } else {
        let pre = parts.drop_last();
        assert forall|i: int, k: int| 0 <= i < pre.len() && 0 <= k < pre[i].len() implies #[trigger] pre[i][k] != sep by {
            assert(pre[i] == parts[i]);
            assert(parts[i][k] != sep);
        }
        lemma_split_join(pre, sep);
        let j = join_spec(pre, seq![sep]);
        let last = parts.last();
        assert forall|k: int| 0 <= k < last.len() implies last[k] != sep by {
            assert(parts[parts.len() - 1][k] != sep);
        }
        assert(j + seq![sep] == j.push(sep));
        assert(split_fold(j.push(sep), sep) == (split_fold(j, sep).0.push(split_fold(j, sep).1), Seq::<char>::empty()))
            by {
            assert(j.push(sep).drop_last() =~= j);
        }
        lemma_split_append(j.push(sep), last, sep);
        assert(join_spec(parts, seq![sep]) == j + seq![sep] + last);
        assert(Seq::<char>::empty() + last =~= last);
        assert(split_spec(join_spec(parts, seq![sep]), sep) =~= split_spec(j, sep).push(last));
        assert(parts =~= pre.push(last));
    }
}

proof fn lemma_split_fold_after_sep(a: Seq<char>, b: Seq<char>, sep: char)
    ensures
        split_fold(a + seq![sep] + b, sep) == (split_spec(a, sep) + split_fold(b, sep).0, split_fold(b, sep).1),
    decreases b.len(),
{
    if b.len() == 0 {
        assert(a + seq![sep] + b =~= a.push(sep));
        assert(a.push(sep).drop_last() =~= a);
        assert(split_spec(a, sep) + Seq::<Seq<char>>::empty() =~= split_spec(a, sep));
    } else {
        let bp = b.drop_last();
        lemma_split_fold_after_sep(a, bp, sep);
        let y = a + seq![sep] + bp;
        assert((a + seq![sep] + b).drop_last() =~= y);
        assert((a + seq![sep] + b).last() == b.last());
        let (d, c) = split_fold(bp, sep);
        if b.last() == sep {
            assert((split_spec(a, sep) + d).push(c) =~= split_spec(a, sep) + d.push(c));
        }
    }
}

/// Splitting at a separator that joins two texts splits each of them.
pub(crate) proof fn lemma_split_concat(a: Seq<char>, b: Seq<char>, sep: char)
    ensures
        split_spec(a + seq![sep] + b, sep) == split_spec(a, sep) + split_spec(b, sep),
{
    lemma_split_fold_after_sep(a, b, sep);
    let (d, c) = split_fold(b, sep);
    assert((split_spec(a, sep) + d).push(c) =~= split_spec(a, sep) + d.push(c));
}

/// Joining a first piece and the rest puts the separator between them.
pub(crate) proof fn lemma_join_cons(h: Seq<char>, rest: Seq<Seq<char>>, sep: Seq<char>)
    requires
        rest.len() > 0,
    ensures
        join_spec(seq![h] + rest, sep) == h + sep + join_spec(rest, sep),
    decreases rest.len(),
{
    let all = seq![h] + rest;
    if rest.len() == 1 {
        assert(all.drop_last() =~= seq![h]);
        assert(all.last() == rest[0]);
        assert(join_spec(seq![h], sep) == h);
        assert(join_spec(rest, sep) == rest[0]);
        assert(join_spec(all, sep) == join_spec(all.drop_last(), sep) + sep + all.last());
    } else {
        lemma_join_cons(h, rest.drop_last(), sep);
        assert(all.drop_last() =~= seq![h] + rest.drop_last());
        assert(all.last() == rest.last());
        assert(join_spec(all, sep) == join_spec(all.drop_last(), sep) + sep + all.last());
        assert(join_spec(rest, sep) == join_spec(rest.drop_last(), sep) + sep + rest.last());
        assert(h + sep + join_spec(rest.drop_last(), sep) + sep + rest.last() =~= h + sep + (join_spec(
            rest.drop_last(),
            sep,
        ) + sep + rest.last()));
    }
}

/// The first character of joined pieces is the first piece's.
pub(crate) proof fn lemma_join_first(parts: Seq<Seq<char>>, sep: Seq<char>)
    requires
        parts.len() > 0,
        parts[0].len() > 0,
    ensures
        join_spec(parts, sep).len() > 0,
        join_spec(parts, sep)[0] == parts[0][0],
    decreases parts.len(),
{
    if parts.len() > 1 {
        lemma_join_first(parts.drop_last(), sep);
    }
}

/// `parts` joined with `sep` between neighbours (`[String]::join`).
pub fn join_chars(parts: &Vec<Vec<char>>, sep: &str) -> (out: String)
    ensures
        out@ == join_spec(nested_view(parts@), sep@),
{
    let mut out = String::new();
    let mut i: usize = 0;
    assert(nested_view(parts@).take(0) =~= Seq::<Seq<char>>::empty());
    while i < parts.len()
        invariant
            i <= parts.len(),
            out@ == join_spec(nested_view(parts@).take(i as int), sep@),
        decreases parts.len() - i,
    {
        let ghost prev = nested_view(parts@).take(i as int);
        let ghost next = nested_view(parts@).take(i + 1);
        assert(next.drop_last() =~= prev);
        assert(next.last() == parts@[i as int]@);
        if i > 0 {
            push_str(&mut out, sep);
        } else {
            assert(next =~= seq![parts@[0]@]);
        }
        push_chars(&mut out, &parts[i]);
        i = i + 1;
    }
    assert(nested_view(parts@).take(i as int) =~= nested_view(parts@));
    out
}

} // verus!
