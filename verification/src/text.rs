use vstd::prelude::*;

verus! {

/// Appends one character to a string (`String::push`).
#[verifier::external_body]
pub(crate) fn push_char(s: &mut String, c: char)
    ensures
        final(s)@ == old(s)@.push(c),
{
    s.push(c);
}

/// The characters of a string slice, in order.
pub fn to_chars(s: &str) -> (r: Vec<char>)
    ensures
        r@ == s@,
{
    let mut r: Vec<char> = Vec::new();
    for c in it: s.chars()
        invariant
            it.seq() == s@,
            r@ == it.seq().take(it.index() as int),
    {
        r.push(c);
    }
    r
}

/// A string made of the given characters.
pub fn from_chars(v: &[char]) -> (r: String)
    ensures
        r@ == v@,
{
    let mut r = String::new();
    let mut i: usize = 0;
    while i < v.len()
        invariant
            i <= v@.len(),
            r@ == v@.take(i as int),
        decreases v@.len() - i,
    {
        push_char(&mut r, v[i]);
        i = i + 1;
        proof {
            assert(v@.take(i as int) == v@.take(i - 1).push(v@[i - 1]));
        }
    }
    proof {
        assert(v@.take(v@.len() as int) == v@);
    }
    r
}

} // verus!

verus! {

/* Character classes */

/// `char::is_whitespace`: the Unicode `White_Space` property.
pub open spec fn is_whitespace(c: char) -> bool {
    let u = c as u32;
    (0x9 <= u && u <= 0xd) || u == 0x20 || u == 0x85 || u == 0xa0 || u == 0x1680 || (0x2000
        <= u && u <= 0x200a) || u == 0x2028 || u == 0x2029 || u == 0x202f || u == 0x205f || u
        == 0x3000
}

/// `char::is_control`: the Unicode general category `Cc`.
pub open spec fn is_control(c: char) -> bool {
    let u = c as u32;
    u <= 0x1f || (0x7f <= u && u <= 0x9f)
}

pub open spec fn is_ascii_digit(c: char) -> bool {
    '0' <= c && c <= '9'
}

pub open spec fn is_ascii_alphanumeric(c: char) -> bool {
    ('0' <= c && c <= '9') || ('a' <= c && c <= 'z') || ('A' <= c && c <= 'Z')
}

/// Lowercase hexadecimal digit: `0-9` or `a-f`.
pub open spec fn is_lower_hex_digit(c: char) -> bool {
    ('0' <= c && c <= '9') || ('a' <= c && c <= 'f')
}

pub fn char_is_whitespace(c: char) -> (r: bool)
    ensures
        r == is_whitespace(c),
{
    let u = c as u32;
    (0x9 <= u && u <= 0xd) || u == 0x20 || u == 0x85 || u == 0xa0 || u == 0x1680 || (0x2000
        <= u && u <= 0x200a) || u == 0x2028 || u == 0x2029 || u == 0x202f || u == 0x205f || u
        == 0x3000
}

pub fn char_is_control(c: char) -> (r: bool)
    ensures
        r == is_control(c),
{
    let u = c as u32;
    u <= 0x1f || (0x7f <= u && u <= 0x9f)
}

pub fn char_is_ascii_digit(c: char) -> (r: bool)
    ensures
        r == is_ascii_digit(c),
{
    '0' <= c && c <= '9'
}

pub fn char_is_ascii_alphanumeric(c: char) -> (r: bool)
    ensures
        r == is_ascii_alphanumeric(c),
{
    ('0' <= c && c <= '9') || ('a' <= c && c <= 'z') || ('A' <= c && c <= 'Z')
}

pub fn char_is_lower_hex_digit(c: char) -> (r: bool)
    ensures
        r == is_lower_hex_digit(c),
{
    ('0' <= c && c <= '9') || ('a' <= c && c <= 'f')
}

/* Trimming */

/// Number of leading whitespace characters.
pub open spec fn ws_prefix_len(s: Seq<char>) -> nat
    decreases s.len(),
{
    if s.len() > 0 && is_whitespace(s[0]) {
        1 + ws_prefix_len(s.drop_first())
    } else {
        0
    }
}

/// Number of trailing whitespace characters.
pub open spec fn ws_suffix_len(s: Seq<char>) -> nat
    decreases s.len(),
{
    if s.len() > 0 && is_whitespace(s.last()) {
        1 + ws_suffix_len(s.drop_last())
    } else {
        0
    }
}

pub open spec fn trim_start(s: Seq<char>) -> Seq<char> {
    s.skip(ws_prefix_len(s) as int)
}

pub open spec fn trim_end(s: Seq<char>) -> Seq<char> {
    s.take(s.len() - ws_suffix_len(s))
}

/// `str::trim`: the text without leading and trailing whitespace.
pub open spec fn trim(s: Seq<char>) -> Seq<char> {
    trim_end(trim_start(s))
}

pub proof fn lemma_ws_prefix_len(s: Seq<char>, i: int)
    requires
        0 <= i <= s.len(),
        forall|k: int| 0 <= k < i ==> is_whitespace(#[trigger] s[k]),
        i == s.len() || !is_whitespace(s[i]),
    ensures
        ws_prefix_len(s) == i,
    decreases i,
{
    if i > 0 {
        assert(is_whitespace(s[0]));
        let t = s.drop_first();
        assert forall|k: int| 0 <= k < i - 1 implies is_whitespace(#[trigger] t[k]) by {
            assert(t[k] == s[k + 1]);
        }
        if i < s.len() {
            assert(t[i - 1] == s[i]);
        }
        lemma_ws_prefix_len(t, i - 1);
    }
}

pub proof fn lemma_ws_suffix_len(s: Seq<char>, i: int)
    requires
        0 <= i <= s.len(),
        forall|k: int| s.len() - i <= k < s.len() ==> is_whitespace(#[trigger] s[k]),
        i == s.len() || !is_whitespace(s[s.len() - i - 1]),
    ensures
        ws_suffix_len(s) == i,
    decreases i,
{
    if i > 0 {
        assert(is_whitespace(s[s.len() - 1]));
        let t = s.drop_last();
        assert forall|k: int| t.len() - (i - 1) <= k < t.len() implies is_whitespace(
            #[trigger] t[k],
        ) by {
            assert(t[k] == s[k]);
        }
        if i < s.len() {
            assert(t[t.len() - (i - 1) - 1] == s[s.len() - i - 1]);
        }
        lemma_ws_suffix_len(t, i - 1);
    }
}

pub proof fn lemma_ws_prefix_bound(s: Seq<char>)
    ensures
        ws_prefix_len(s) <= s.len(),
    decreases s.len(),
{
    if s.len() > 0 && is_whitespace(s[0]) {
        lemma_ws_prefix_bound(s.drop_first());
    }
}

pub proof fn lemma_ws_suffix_bound(s: Seq<char>)
    ensures
        ws_suffix_len(s) <= s.len(),
    decreases s.len(),
{
    if s.len() > 0 && is_whitespace(s.last()) {
        lemma_ws_suffix_bound(s.drop_last());
    }
}

/// Copies `v[from..to]`.
pub fn slice_chars(v: &Vec<char>, from: usize, to: usize) -> (r: Vec<char>)
    requires
        from <= to <= v@.len(),
    ensures
        r@ == v@.subrange(from as int, to as int),
{
    let mut r: Vec<char> = Vec::new();
    let mut i = from;
    while i < to
        invariant
            from <= i <= to,
            to <= v@.len(),
            r@ == v@.subrange(from as int, i as int),
        decreases to - i,
    {
        r.push(v[i]);
        i = i + 1;
    }
    r
}

/// `str::trim` over characters.
pub fn trim_chars(s: &Vec<char>) -> (r: Vec<char>)
    ensures
        r@ == trim(s@),
{
    let n = s.len();
    let mut i: usize = 0;
    while i < n && char_is_whitespace(s[i])
        invariant
            i <= n,
            n == s@.len(),
            forall|k: int| 0 <= k < i ==> is_whitespace(#[trigger] s@[k]),
        decreases n - i,
    {
        i = i + 1;
    }
    proof {
        lemma_ws_prefix_len(s@, i as int);
    }
    let ghost t = s@.skip(i as int);
    let mut j: usize = n;
    while j > i && char_is_whitespace(s[j - 1])
        invariant
            i <= j <= n,
            n == s@.len(),
            t == s@.skip(i as int),
            forall|k: int| j <= k < n ==> is_whitespace(#[trigger] s@[k]),
        decreases j,
    {
        j = j - 1;
    }
    proof {
        let m = (n - j) as int;
        assert forall|k: int| t.len() - m <= k < t.len() implies is_whitespace(#[trigger] t[k]) by {
            assert(t[k] == s@[k + i]);
        }
        if m < t.len() {
            assert(t[t.len() - m - 1] == s@[j - 1]);
        }
        lemma_ws_suffix_len(t, m);
        assert(s@.subrange(i as int, j as int) == t.take(t.len() - m));
    }
    slice_chars(s, i, j)
}

/// `str::trim` on a string slice.
pub fn trim_str(s: &str) -> (r: Vec<char>)
    ensures
        r@ == trim(s@),
{
    let v = to_chars(s);
    trim_chars(&v)
}

/* Prefixes, suffixes and searching */

pub open spec fn has_prefix(s: Seq<char>, p: Seq<char>) -> bool {
    p.len() <= s.len() && s.subrange(0, p.len() as int) == p
}

pub open spec fn has_suffix(s: Seq<char>, p: Seq<char>) -> bool {
    p.len() <= s.len() && s.subrange(s.len() - p.len(), s.len() as int) == p
}

/// `p` occurs in `s` starting at index `i`.
pub open spec fn occurs_at(s: Seq<char>, p: Seq<char>, i: int) -> bool {
    0 <= i && i + p.len() <= s.len() && s.subrange(i, i + p.len()) == p
}

/// The first index at or after `from` where `p` occurs in `s`.
pub open spec fn find_from(s: Seq<char>, p: Seq<char>, from: int) -> Option<int>
    decreases s.len() + 1 - from,
{
    if from < 0 || from + p.len() > s.len() {
        None
    } else if occurs_at(s, p, from) {
        Some(from)
    } else {
        find_from(s, p, from + 1)
    }
}

/// `str::find`: the first index where `p` occurs in `s`.
pub open spec fn find(s: Seq<char>, p: Seq<char>) -> Option<int> {
    find_from(s, p, 0)
}

/// The last index of character `c` in `s`.
pub open spec fn rfind_char_from(s: Seq<char>, c: char, end: int) -> Option<int>
    decreases end,
{
    if end <= 0 {
        None
    } else if s[end - 1] == c {
        Some(end - 1)
    } else {
        rfind_char_from(s, c, end - 1)
    }
}

/// `str::rfind` for one character.
pub open spec fn rfind_char(s: Seq<char>, c: char) -> Option<int> {
    rfind_char_from(s, c, s.len() as int)
}

/// `str::find` for one character.
pub open spec fn find_char(s: Seq<char>, c: char) -> Option<int> {
    find(s, seq![c])
}

pub proof fn lemma_find_from_none(s: Seq<char>, p: Seq<char>, from: int)
    requires
        0 <= from,
        forall|k: int| from <= k ==> !occurs_at(s, p, k),
    ensures
        find_from(s, p, from) is None,
    decreases s.len() + 1 - from,
{
    if from + p.len() <= s.len() {
        lemma_find_from_none(s, p, from + 1);
    }
}

pub proof fn lemma_find_from_some(s: Seq<char>, p: Seq<char>, from: int, i: int)
    requires
        0 <= from <= i,
        occurs_at(s, p, i),
        forall|k: int| from <= k < i ==> !occurs_at(s, p, k),
    ensures
        find_from(s, p, from) == Some(i),
    decreases i - from,
{
    if from < i {
        lemma_find_from_some(s, p, from + 1, i);
    }
}

pub proof fn lemma_find_from_result(s: Seq<char>, p: Seq<char>, from: int)
    requires
        0 <= from,
    ensures
        find_from(s, p, from) matches Some(i) ==> from <= i && occurs_at(s, p, i) && forall|k: int|
            from <= k < i ==> !occurs_at(s, p, k),
        find_from(s, p, from) is None ==> forall|k: int| from <= k ==> !occurs_at(s, p, k),
    decreases s.len() + 1 - from,
{
    if from + p.len() <= s.len() && !occurs_at(s, p, from) {
        lemma_find_from_result(s, p, from + 1);
    }
}

/// Whether `p` occurs at index `i` of `s`.
pub fn chars_occur_at(s: &Vec<char>, p: &Vec<char>, i: usize) -> (r: bool)
    ensures
        r == occurs_at(s@, p@, i as int),
{
    let sl = s.len();
    if i > sl || p.len() > sl - i {
        return false;
    }
    let mut k: usize = 0;
    while k < p.len()
        invariant
            sl == s@.len(),
            k <= p@.len(),
            i + p@.len() <= s@.len(),
            forall|m: int| 0 <= m < k ==> s@[i + m] == p@[m],
        decreases p@.len() - k,
    {
        if s[i + k] != p[k] {
            proof {
                assert(s@.subrange(i as int, i + p@.len())[k as int] != p@[k as int]);
            }
            return false;
        }
        k = k + 1;
    }
    proof {
        assert(s@.subrange(i as int, i + p@.len()) =~= p@);
    }
    true
}

/// `str::find` over characters.
pub fn find_chars(s: &Vec<char>, p: &Vec<char>) -> (r: Option<usize>)
    ensures
        r matches Some(i) ==> find(s@, p@) == Some(i as int),
        r is None ==> find(s@, p@) is None,
{
    let n = s.len();
    let mut i: usize = 0;
    loop
        invariant
            n == s@.len(),
            i <= n,
            forall|k: int| 0 <= k < i ==> !occurs_at(s@, p@, k),
        decreases n - i,
    {
        if chars_occur_at(s, p, i) {
            proof {
                lemma_find_from_some(s@, p@, 0, i as int);
            }
            return Some(i);
        }
        if i == n {
            proof {
                assert forall|k: int| 0 <= k implies !occurs_at(s@, p@, k) by {
                    if k > i {
                        assert(k + p@.len() > s@.len());
                    }
                }
                lemma_find_from_none(s@, p@, 0);
            }
            return None;
        }
        i = i + 1;
    }
}

pub proof fn lemma_rfind_char(s: Seq<char>, c: char, end: int)
    requires
        0 <= end <= s.len(),
    ensures
        rfind_char_from(s, c, end) matches Some(i) ==> 0 <= i < end && s[i] == c && forall|k: int|
            i < k < end ==> s[k] != c,
        rfind_char_from(s, c, end) is None ==> forall|k: int| 0 <= k < end ==> s[k] != c,
    decreases end,
{
    if end > 0 && s[end - 1] != c {
        lemma_rfind_char(s, c, end - 1);
    }
}

/// `str::rfind` for one character.
pub fn rfind_char_exec(s: &Vec<char>, c: char) -> (r: Option<usize>)
    ensures
        r matches Some(i) ==> rfind_char(s@, c) == Some(i as int),
        r is None ==> rfind_char(s@, c) is None,
{
    let mut end: usize = s.len();
    while end > 0
        invariant
            end <= s@.len(),
            rfind_char_from(s@, c, s@.len() as int) == rfind_char_from(s@, c, end as int),
        decreases end,
    {
        if s[end - 1] == c {
            return Some(end - 1);
        }
        end = end - 1;
    }
    None
}

/// Whether `s` starts with `p`.
pub fn chars_start_with(s: &Vec<char>, p: &Vec<char>) -> (r: bool)
    ensures
        r == has_prefix(s@, p@),
{
    let r = chars_occur_at(s, p, 0);
    proof {
        if p@.len() <= s@.len() {
            assert(s@.subrange(0, p@.len() as int) == s@.subrange(0, 0 + p@.len() as int));
        }
    }
    r
}

/// Whether `s` ends with `p`.
pub fn chars_end_with(s: &Vec<char>, p: &Vec<char>) -> (r: bool)
    ensures
        r == has_suffix(s@, p@),
{
    if p.len() > s.len() {
        return false;
    }
    let r = chars_occur_at(s, p, s.len() - p.len());
    proof {
        assert(s@.len() - p@.len() + p@.len() == s@.len());
    }
    r
}

/// Whether `s` contains the character `c`.
pub fn chars_contain(s: &Vec<char>, c: char) -> (r: bool)
    ensures
        r == s@.contains(c),
{
    let mut i: usize = 0;
    while i < s.len()
        invariant
            i <= s@.len(),
            forall|k: int| 0 <= k < i ==> s@[k] != c,
        decreases s@.len() - i,
    {
        if s[i] == c {
            return true;
        }
        i = i + 1;
    }
    false
}

/// Whether two character sequences are equal.
pub fn chars_equal(a: &Vec<char>, b: &Vec<char>) -> (r: bool)
    ensures
        r == (a@ == b@),
{
    if a.len() != b.len() {
        return false;
    }
    let mut i: usize = 0;
    while i < a.len()
        invariant
            i <= a@.len(),
            a@.len() == b@.len(),
            forall|k: int| 0 <= k < i ==> a@[k] == b@[k],
        decreases a@.len() - i,
    {
        if a[i] != b[i] {
            return false;
        }
        i = i + 1;
    }
    proof {
        assert(a@ =~= b@);
    }
    true
}

/// Appends all of `b` to `a`.
pub fn append_chars(a: &mut Vec<char>, b: &Vec<char>)
    ensures
        final(a)@ == old(a)@ + b@,
{
    let mut i: usize = 0;
    while i < b.len()
        invariant
            i <= b@.len(),
            a@ == old(a)@ + b@.take(i as int),
        decreases b@.len() - i,
    {
        a.push(b[i]);
        i = i + 1;
        proof {
            assert(b@.take(i as int) == b@.take(i - 1).push(b@[i - 1]));
        }
    }
    proof {
        assert(b@.take(b@.len() as int) == b@);
    }
}

/// Appends all characters of `s` to `a`.
pub fn append_str(a: &mut Vec<char>, s: &str)
    ensures
        final(a)@ == old(a)@ + s@,
{
    let v = to_chars(s);
    append_chars(a, &v);
}

/* Decimal numbers */

pub open spec fn digit_char(d: nat) -> char {
    if d == 0 {
        '0'
    } else if d == 1 {
        '1'
    } else if d == 2 {
        '2'
    } else if d == 3 {
        '3'
    } else if d == 4 {
        '4'
    } else if d == 5 {
        '5'
    } else if d == 6 {
        '6'
    } else if d == 7 {
        '7'
    } else if d == 8 {
        '8'
    } else {
        '9'
    }
}

pub open spec fn digit_value(c: char) -> nat {
    ((c as u32) - ('0' as u32)) as nat
}

/// The decimal representation of `n`, without sign or leading zeros.
pub open spec fn decimal(n: nat) -> Seq<char>
    decreases n,
{
    if n < 10 {
        seq![digit_char(n)]
    } else {
        decimal(n / 10).push(digit_char(n % 10))
    }
}

/// The value of a run of ASCII digits.
pub open spec fn digits_value(s: Seq<char>) -> nat
    decreases s.len(),
{
    if s.len() == 0 {
        0
    } else {
        digits_value(s.drop_last()) * 10 + digit_value(s.last())
    }
}

pub open spec fn all_digits(s: Seq<char>) -> bool {
    forall|i: int| 0 <= i < s.len() ==> is_ascii_digit(#[trigger] s[i])
}

/// `str::parse` for an unsigned integer type whose largest value is `max`:
/// an optional `+`, then one or more ASCII digits whose value is at most `max`.
pub open spec fn parse_unsigned(s: Seq<char>, max: nat) -> Option<nat> {
    let d = if s.len() > 0 && s[0] == '+' {
        s.drop_first()
    } else {
        s
    };
    if d.len() > 0 && all_digits(d) && digits_value(d) <= max {
        Some(digits_value(d))
    } else {
        None
    }
}

fn digit_to_char(d: u64) -> (c: char)
    requires
        d < 10,
    ensures
        c == digit_char(d as nat),
{
    if d == 0 {
        '0'
    } else if d == 1 {
        '1'
    } else if d == 2 {
        '2'
    } else if d == 3 {
        '3'
    } else if d == 4 {
        '4'
    } else if d == 5 {
        '5'
    } else if d == 6 {
        '6'
    } else if d == 7 {
        '7'
    } else if d == 8 {
        '8'
    } else {
        '9'
    }
}

/// The decimal representation of `n` (`u64::to_string`).
pub fn decimal_chars(n: u64) -> (r: Vec<char>)
    ensures
        r@ == decimal(n as nat),
    decreases n,
{
    if n < 10 {
        let mut r: Vec<char> = Vec::new();
        r.push(digit_to_char(n));
        proof {
            assert(r@ =~= seq![digit_char(n as nat)]);
        }
        r
    } else {
        let mut r = decimal_chars(n / 10);
        r.push(digit_to_char(n % 10));
        r
    }
}

pub proof fn lemma_decimal_all_digits(n: nat)
    ensures
        all_digits(decimal(n)),
        decimal(n).len() >= 1,
        digits_value(decimal(n)) == n,
    decreases n,
{
    if n < 10 {
        let s = decimal(n);
        assert(s == seq![digit_char(n)]);
        assert(s.drop_last() =~= Seq::<char>::empty());
        assert(digit_value(digit_char(n)) == n);
        assert(digits_value(s) == digits_value(s.drop_last()) * 10 + digit_value(s.last()));
    } else {
        lemma_decimal_all_digits(n / 10);
        let s = decimal(n);
        assert(s.drop_last() == decimal(n / 10));
        let d = n % 10;
        assert(digit_value(digit_char(d)) == d);
        vstd::arithmetic::div_mod::lemma_fundamental_div_mod(n as int, 10);
        assert(s.last() == digit_char(d));
        assert(digits_value(s) == digits_value(s.drop_last()) * 10 + digit_value(s.last()));
        assert forall|i: int| 0 <= i < s.len() implies is_ascii_digit(#[trigger] s[i]) by {
            if i < s.len() - 1 {
                assert(s[i] == decimal(n / 10)[i]);
            }
        }
    }
}

pub proof fn lemma_digits_value_prefix_monotone(s: Seq<char>, i: int)
    requires
        0 <= i <= s.len(),
        all_digits(s),
    ensures
        digits_value(s.take(i)) <= digits_value(s),
    decreases s.len() - i,
{
    if i < s.len() {
        let t = s.take(i + 1);
        assert(t.drop_last() == s.take(i));
        let a = digits_value(s.take(i));
        let b = digit_value(t.last());
        assert(a <= a * 10 + b) by (nonlinear_arith);
        lemma_digits_value_prefix_monotone(s, i + 1);
    } else {
        assert(s.take(i) == s);
    }
}

/// `str::parse` for an unsigned integer type whose largest value is `max`.
pub fn parse_unsigned_chars(s: &Vec<char>, max: u64) -> (r: Option<u64>)
    ensures
        r matches Some(v) ==> parse_unsigned(s@, max as nat) == Some(v as nat),
        r is None ==> parse_unsigned(s@, max as nat) is None,
{
    let start: usize = if s.len() > 0 && s[0] == '+' {
        1
    } else {
        0
    };
    let ghost d = if s@.len() > 0 && s@[0] == '+' {
        s@.drop_first()
    } else {
        s@
    };
    proof {
        assert(d == s@.skip(start as int));
    }
    if start >= s.len() {
        return None;
    }
    let mut acc: u64 = 0;
    let mut i: usize = start;
    while i < s.len()
        invariant
            start <= i <= s@.len(),
            d == s@.skip(start as int),
            d == (if s@.len() > 0 && s@[0] == '+' {
                s@.drop_first()
            } else {
                s@
            }),
            acc <= max,
            all_digits(d.take(i - start)),
            acc as nat == digits_value(d.take(i - start)),
        decreases s@.len() - i,
    {
        let c = s[i];
        if !char_is_ascii_digit(c) {
            proof {
                assert(d[i - start] == c);
                assert(!all_digits(d));
                assert(parse_unsigned(s@, max as nat) is None);
            }
            return None;
        }
        let dv = (c as u32 - '0' as u32) as u64;
        let next: u128 = (acc as u128) * 10 + (dv as u128);
        proof {
            let t = d.take(i - start + 1);
            assert(t.drop_last() == d.take(i - start));
            assert(t.last() == c);
            assert(all_digits(t)) by {
                assert forall|k: int| 0 <= k < t.len() implies is_ascii_digit(#[trigger] t[k]) by {
                    if k < t.len() - 1 {
                        assert(t[k] == d.take(i - start)[k]);
                    }
                }
            }
            assert(digits_value(t) == next);
        }
        if next > max as u128 {
            proof {
                let t = d.take(i - start + 1);
                if all_digits(d) {
                    lemma_digits_value_prefix_monotone(d, i - start + 1);
                    assert(digits_value(d) > max);
                }
                assert(parse_unsigned(s@, max as nat) is None);
            }
            return None;
        }
        acc = next as u64;
        i = i + 1;
    }
    proof {
        assert(d.take(i - start) == d);
    }
    Some(acc)
}

} // verus!

verus! {

/// Number of bytes of the UTF-8 encoding of one character.
pub open spec fn utf8_width(c: char) -> nat {
    let u = c as u32;
    if u <= 0x7f {
        1
    } else if u <= 0x7ff {
        2
    } else if u <= 0xffff {
        3
    } else {
        4
    }
}

pub proof fn lemma_encode_scalar_len(c: char)
    ensures
        vstd::utf8::encode_scalar(c as u32).len() == utf8_width(c),
{
    vstd::utf8::char_is_scalar(c);
}

/// Whether the UTF-8 encoding of `v` is longer than `limit` bytes.
pub fn utf8_len_exceeds(v: &Vec<char>, limit: usize) -> (r: bool)
    requires
        limit < usize::MAX - 4,
    ensures
        r == (vstd::utf8::encode_utf8(v@).len() > limit),
{
    let mut acc: usize = 0;
    let mut i: usize = v.len();
    proof {
        assert(v@.skip(i as int) =~= Seq::<char>::empty());
    }
    while i > 0
        invariant
            i <= v@.len(),
            acc <= limit,
            limit < usize::MAX - 4,
            acc as nat == vstd::utf8::encode_utf8(v@.skip(i as int)).len(),
        decreases i,
    {
        let c = v[i - 1];
        let u = c as u32;
        let w: usize = if u <= 0x7f {
            1
        } else if u <= 0x7ff {
            2
        } else if u <= 0xffff {
            3
        } else {
            4
        };
        proof {
            lemma_encode_scalar_len(c);
            let s = v@.skip(i - 1);
            assert(s.drop_first() =~= v@.skip(i as int));
            assert(s[0] == c);
        }
        acc = acc + w;
        i = i - 1;
        if acc > limit {
            proof {
                lemma_encode_utf8_prefix_grows(v@, i as int);
            }
            return true;
        }
    }
    proof {
        assert(v@.skip(0) == v@);
    }
    false
}

/// The encoding of a sequence is at least as long as that of any suffix.
pub proof fn lemma_encode_utf8_prefix_grows(s: Seq<char>, i: int)
    requires
        0 <= i <= s.len(),
    ensures
        vstd::utf8::encode_utf8(s).len() >= vstd::utf8::encode_utf8(s.skip(i)).len(),
    decreases i,
{
    if i > 0 {
        lemma_encode_utf8_prefix_grows(s.drop_first(), i - 1);
        assert(s.drop_first().skip(i - 1) =~= s.skip(i));
    } else {
        assert(s.skip(0) == s);
    }
}

} // verus!

verus! {

/// Number of leading copies of `c`.
pub open spec fn char_prefix_len(s: Seq<char>, c: char) -> nat
    decreases s.len(),
{
    if s.len() > 0 && s[0] == c {
        1 + char_prefix_len(s.drop_first(), c)
    } else {
        0
    }
}

/// Number of trailing copies of `c`.
pub open spec fn char_suffix_len(s: Seq<char>, c: char) -> nat
    decreases s.len(),
{
    if s.len() > 0 && s.last() == c {
        1 + char_suffix_len(s.drop_last(), c)
    } else {
        0
    }
}

/// `str::trim_end_matches(c)`.
pub open spec fn trim_end_char(s: Seq<char>, c: char) -> Seq<char> {
    s.take(s.len() - char_suffix_len(s, c))
}

/// `str::trim_matches(c)`.
pub open spec fn trim_char(s: Seq<char>, c: char) -> Seq<char> {
    let a = s.skip(char_prefix_len(s, c) as int);
    trim_end_char(a, c)
}

pub proof fn lemma_char_prefix_len(s: Seq<char>, c: char, i: int)
    requires
        0 <= i <= s.len(),
        forall|k: int| 0 <= k < i ==> #[trigger] s[k] == c,
        i == s.len() || s[i] != c,
    ensures
        char_prefix_len(s, c) == i,
    decreases i,
{
    if i > 0 {
        let t = s.drop_first();
        assert forall|k: int| 0 <= k < i - 1 implies #[trigger] t[k] == c by {
            assert(t[k] == s[k + 1]);
        }
        if i < s.len() {
            assert(t[i - 1] == s[i]);
        }
        lemma_char_prefix_len(t, c, i - 1);
    }
}

pub proof fn lemma_char_suffix_len(s: Seq<char>, c: char, i: int)
    requires
        0 <= i <= s.len(),
        forall|k: int| s.len() - i <= k < s.len() ==> #[trigger] s[k] == c,
        i == s.len() || s[s.len() - i - 1] != c,
    ensures
        char_suffix_len(s, c) == i,
    decreases i,
{
    if i > 0 {
        let t = s.drop_last();
        assert forall|k: int| t.len() - (i - 1) <= k < t.len() implies #[trigger] t[k] == c by {
            assert(t[k] == s[k]);
        }
        if i < s.len() {
            assert(t[t.len() - (i - 1) - 1] == s[s.len() - i - 1]);
        }
        lemma_char_suffix_len(t, c, i - 1);
    }
}

/// `str::trim_end_matches(c)` over characters.
pub fn trim_end_char_exec(s: &Vec<char>, c: char) -> (r: Vec<char>)
    ensures
        r@ == trim_end_char(s@, c),
{
    let n = s.len();
    let mut j: usize = n;
    while j > 0 && s[j - 1] == c
        invariant
            j <= n,
            n == s@.len(),
            forall|k: int| j <= k < n ==> #[trigger] s@[k] == c,
        decreases j,
    {
        j = j - 1;
    }
    proof {
        lemma_char_suffix_len(s@, c, (n - j) as int);
    }
    slice_chars(s, 0, j)
}

/// `str::trim_matches(c)` over characters.
pub fn trim_char_exec(s: &Vec<char>, c: char) -> (r: Vec<char>)
    ensures
        r@ == trim_char(s@, c),
{
    let n = s.len();
    let mut i: usize = 0;
    while i < n && s[i] == c
        invariant
            i <= n,
            n == s@.len(),
            forall|k: int| 0 <= k < i ==> #[trigger] s@[k] == c,
        decreases n - i,
    {
        i = i + 1;
    }
    proof {
        lemma_char_prefix_len(s@, c, i as int);
    }
    let a = slice_chars(s, i, n);
    proof {
        assert(a@ == s@.skip(i as int));
    }
    trim_end_char_exec(&a, c)
}

/// `v[..n]`, or all of `v` when it is shorter (as `chars().take(n)`).
pub fn take_chars(v: &Vec<char>, n: usize) -> (r: Vec<char>)
    ensures
        r@ == v@.take(if n <= v@.len() {
            n as int
        } else {
            v@.len() as int
        }),
{
    let end = if n <= v.len() {
        n
    } else {
        v.len()
    };
    slice_chars(v, 0, end)
}

} // verus!

verus! {

/// The last occurrence of `c` is at `i` when `s[i] == c` and no later character is `c`.
pub proof fn lemma_rfind_char_at(s: Seq<char>, c: char, i: int)
    requires
        0 <= i < s.len(),
        s[i] == c,
        forall|k: int| i < k < s.len() ==> s[k] != c,
    ensures
        rfind_char(s, c) == Some(i),
{
    lemma_rfind_char_at_from(s, c, i, s.len() as int);
}

proof fn lemma_rfind_char_at_from(s: Seq<char>, c: char, i: int, end: int)
    requires
        0 <= i < end <= s.len(),
        s[i] == c,
        forall|k: int| i < k < end ==> s[k] != c,
    ensures
        rfind_char_from(s, c, end) == Some(i),
    decreases end,
{
    if end - 1 > i {
        lemma_rfind_char_at_from(s, c, i, end - 1);
    }
}

/// A text without `c` has no last occurrence of it.
pub proof fn lemma_rfind_char_absent(s: Seq<char>, c: char)
    requires
        !s.contains(c),
    ensures
        rfind_char(s, c) is None,
{
    lemma_rfind_char(s, c, s.len() as int);
    if rfind_char(s, c) is Some {
        let i = rfind_char(s, c)->0;
        assert(s[i] == c);
    }
}

/// `decimal(n)` parses back to `n` when `n` fits.
pub proof fn lemma_parse_decimal(n: nat, max: nat)
    requires
        n <= max,
    ensures
        parse_unsigned(decimal(n), max) == Some(n),
{
    lemma_decimal_all_digits(n);
    let d = decimal(n);
    assert(is_ascii_digit(d[0]));
}

} // verus!

verus! {

/// Whether the UTF-8 encoding of `v` is exactly `n` bytes long.
pub fn utf8_len_is(v: &Vec<char>, n: usize) -> (r: bool)
    requires
        1 <= n < usize::MAX - 4,
    ensures
        r == (vstd::utf8::encode_utf8(v@).len() == n),
{
    !utf8_len_exceeds(v, n) && utf8_len_exceeds(v, n - 1)
}

} // verus!

verus! {

/// The message of `std::str::from_utf8`'s error for invalid bytes.
pub uninterp spec fn spec_utf8_error(bytes: Seq<u8>) -> Seq<char>;

/// `std::str::from_utf8`: the text of valid UTF-8 bytes, or the error's
/// message. Validity is stated by vstd's UTF-8 specification.
#[verifier::external_body]
pub(crate) fn from_utf8(bytes: &[u8]) -> (r: Result<String, String>)
    ensures
        r is Ok <==> vstd::utf8::valid_utf8(bytes@),
        r matches Ok(s) ==> s@ == vstd::utf8::decode_utf8(bytes@),
        r matches Err(m) ==> m@ == spec_utf8_error(bytes@),
{
    match std::str::from_utf8(bytes) {
        Ok(s) => Ok(s.to_owned()),
        Err(e) => Err(e.to_string()),
    }
}

} // verus!

verus! {

/* Splitting on a separator (`slice::split` / `str::split`) */

/// `r` with `c` put in front of its first piece.
pub open spec fn prefix_first<T>(c: Seq<T>, r: Seq<Seq<T>>) -> Seq<Seq<T>> {
    r.update(0, c + r[0])
}

/// The pieces of `s` between occurrences of `sep`, as `split` yields them:
/// one more piece than there are separators, empty pieces included.
pub open spec fn split_on<T>(s: Seq<T>, sep: T) -> Seq<Seq<T>>
    decreases s.len(),
{
    if s.len() == 0 {
        seq![Seq::empty()]
    } else if s[0] == sep {
        seq![Seq::empty()] + split_on(s.drop_first(), sep)
    } else {
        prefix_first(seq![s[0]], split_on(s.drop_first(), sep))
    }
}

pub proof fn lemma_split_on_nonempty<T>(s: Seq<T>, sep: T)
    ensures
        split_on(s, sep).len() >= 1,
    decreases s.len(),
{
    if s.len() > 0 {
        lemma_split_on_nonempty(s.drop_first(), sep);
    }
}

/// One step of a left-to-right scan: the piece being built, `cur`, either
/// ends at a separator or grows by the next element.
pub proof fn lemma_split_on_step<T>(s: Seq<T>, sep: T, i: int, cur: Seq<T>)
    requires
        0 <= i < s.len(),
    ensures
        s[i] == sep ==> prefix_first(cur, split_on(s.skip(i), sep)) == seq![cur] + split_on(s.skip(i + 1), sep),
        s[i] != sep ==> prefix_first(cur, split_on(s.skip(i), sep)) == prefix_first(cur.push(s[i]), split_on(s.skip(i + 1), sep)),
{
    let t = s.skip(i);
    assert(t[0] == s[i]);
    assert(t.drop_first() =~= s.skip(i + 1));
    lemma_split_on_nonempty(s.skip(i + 1), sep);
    let r = split_on(s.skip(i + 1), sep);
    if s[i] == sep {
        assert(Seq::<T>::empty() + r[0] =~= r[0]);
        assert(prefix_first(cur, split_on(t, sep)) =~= seq![cur] + r);
    } else {
        assert(cur + (seq![s[i]] + r[0]) =~= cur.push(s[i]) + r[0]);
        assert(prefix_first(cur, split_on(t, sep)) =~= prefix_first(cur.push(s[i]), r));
    }
}

/// The pieces of `s` between occurrences of the byte `sep`.
pub fn split_bytes(s: &[u8], sep: u8) -> (r: Vec<Vec<u8>>)
    ensures
        r@.map_values(|v: Vec<u8>| v@) == split_on(s@, sep),
{
    let mut done: Vec<Vec<u8>> = Vec::new();
    let mut cur: Vec<u8> = Vec::new();
    let mut i: usize = 0;
    proof {
        lemma_split_on_nonempty(s@, sep);
        assert(Seq::<u8>::empty() + split_on(s@, sep)[0] =~= split_on(s@, sep)[0]);
        assert(s@.skip(0) =~= s@);
        assert(done@.map_values(|v: Vec<u8>| v@) + prefix_first(cur@, split_on(s@.skip(0), sep)) =~= split_on(s@, sep));
    }
    while i < s.len()
        invariant
            i <= s@.len(),
            done@.map_values(|v: Vec<u8>| v@) + prefix_first(cur@, split_on(s@.skip(i as int), sep)) == split_on(s@, sep),
        decreases s@.len() - i,
    {
        proof {
            lemma_split_on_step(s@, sep, i as int, cur@);
        }
        if s[i] == sep {
            let ghost old_done = done@.map_values(|v: Vec<u8>| v@);
            let ghost old_cur = cur@;
            done.push(cur);
            cur = Vec::new();
            proof {
                lemma_split_on_nonempty(s@.skip(i + 1), sep);
                let r = split_on(s@.skip(i + 1), sep);
                assert(done@.map_values(|v: Vec<u8>| v@) =~= old_done.push(old_cur));
                assert(Seq::<u8>::empty() + r[0] =~= r[0]);
                assert(prefix_first(cur@, r) =~= r);
                assert(old_done + (seq![old_cur] + r) =~= old_done.push(old_cur) + r);
            }
        } else {
            cur.push(s[i]);
        }
        i = i + 1;
    }
    proof {
        assert(s@.skip(i as int) =~= Seq::<u8>::empty());
        assert(split_on(Seq::<u8>::empty(), sep) =~= seq![Seq::<u8>::empty()]);
        assert(cur@ + Seq::<u8>::empty() =~= cur@);
        assert(prefix_first(cur@, seq![Seq::<u8>::empty()]) =~= seq![cur@]);
    }
    let ghost old_done = done@.map_values(|v: Vec<u8>| v@);
    done.push(cur);
    proof {
        assert(done@.map_values(|v: Vec<u8>| v@) =~= old_done.push(cur@));
    }
    done
}

/// The text `String::from_utf8_lossy` makes of `bytes`.
pub uninterp spec fn spec_utf8_lossy(bytes: Seq<u8>) -> Seq<char>;

/// `String::from_utf8_lossy`: the result is named as a function of the bytes;
/// for valid UTF-8 it is the decoded text, as the documentation states.
#[verifier::external_body]
pub(crate) fn from_utf8_lossy(bytes: &[u8]) -> (r: String)
    ensures
        r@ == spec_utf8_lossy(bytes@),
        vstd::utf8::valid_utf8(bytes@) ==> r@ == vstd::utf8::decode_utf8(bytes@),
{
    String::from_utf8_lossy(bytes).into_owned()
}

} // verus!

verus! {

/// `a` followed by `b`.
pub fn concat_str(a: &str, b: &str) -> (r: String)
    ensures
        r@ == a@ + b@,
{
    let mut chars = to_chars(a);
    append_str(&mut chars, b);
    from_chars(chars.as_slice())
}

/// Whether two byte slices are equal.
pub fn bytes_equal(a: &[u8], b: &[u8]) -> (r: bool)
    ensures
        r == (a@ == b@),
{
    if a.len() != b.len() {
        return false;
    }
    let mut i: usize = 0;
    while i < a.len()
        invariant
            i <= a@.len(),
            a@.len() == b@.len(),
            forall|k: int| 0 <= k < i ==> a@[k] == b@[k],
        decreases a@.len() - i,
    {
        if a[i] != b[i] {
            return false;
        }
        i = i + 1;
    }
    proof {
        assert(a@ =~= b@);
    }
    true
}

} // verus!

verus! {

/// Whether a string slice is empty.
pub fn str_is_empty(s: &str) -> (r: bool)
    ensures
        r == (s@.len() == 0),
{
    s.unicode_len() == 0
}

} // verus!

verus! {

/// The pieces of `s` between occurrences of the character `sep` (`str::split`).
pub fn split_chars(s: &Vec<char>, sep: char) -> (r: Vec<Vec<char>>)
    ensures
        r@.map_values(|v: Vec<char>| v@) == split_on(s@, sep),
{
    let mut done: Vec<Vec<char>> = Vec::new();
    let mut cur: Vec<char> = Vec::new();
    let mut i: usize = 0;
    proof {
        lemma_split_on_nonempty(s@, sep);
        assert(Seq::<char>::empty() + split_on(s@, sep)[0] =~= split_on(s@, sep)[0]);
        assert(s@.skip(0) =~= s@);
        assert(done@.map_values(|v: Vec<char>| v@) + prefix_first(cur@, split_on(s@.skip(0), sep)) =~= split_on(s@, sep));
    }
    while i < s.len()
        invariant
            i <= s@.len(),
            done@.map_values(|v: Vec<char>| v@) + prefix_first(cur@, split_on(s@.skip(i as int), sep)) == split_on(s@, sep),
        decreases s@.len() - i,
    {
        proof {
            lemma_split_on_step(s@, sep, i as int, cur@);
        }
        if s[i] == sep {
            let ghost old_done = done@.map_values(|v: Vec<char>| v@);
            let ghost old_cur = cur@;
            done.push(cur);
            cur = Vec::new();
            proof {
                lemma_split_on_nonempty(s@.skip(i + 1), sep);
                let r = split_on(s@.skip(i + 1), sep);
                assert(done@.map_values(|v: Vec<char>| v@) =~= old_done.push(old_cur));
                assert(Seq::<char>::empty() + r[0] =~= r[0]);
                assert(prefix_first(cur@, r) =~= r);
                assert(old_done + (seq![old_cur] + r) =~= old_done.push(old_cur) + r);
            }
        } else {
            cur.push(s[i]);
        }
        i = i + 1;
    }
    proof {
        assert(s@.skip(i as int) =~= Seq::<char>::empty());
        assert(split_on(Seq::<char>::empty(), sep) =~= seq![Seq::<char>::empty()]);
        assert(cur@ + Seq::<char>::empty() =~= cur@);
        assert(prefix_first(cur@, seq![Seq::<char>::empty()]) =~= seq![cur@]);
    }
    let ghost old_done = done@.map_values(|v: Vec<char>| v@);
    done.push(cur);
    proof {
        assert(done@.map_values(|v: Vec<char>| v@) =~= old_done.push(cur@));
    }
    done
}

/// `cur` as a finished word, if it is not empty.
pub open spec fn word_if_any(cur: Seq<char>) -> Seq<Seq<char>> {
    if cur.len() > 0 {
        seq![cur]
    } else {
        Seq::empty()
    }
}

/// The words of `s` after the partial word `cur`: maximal runs of
/// non-whitespace characters.
pub open spec fn words_from(s: Seq<char>, cur: Seq<char>) -> Seq<Seq<char>>
    decreases s.len(),
{
    if s.len() == 0 {
        word_if_any(cur)
    } else if is_whitespace(s[0]) {
        word_if_any(cur) + words_from(s.drop_first(), Seq::empty())
    } else {
        words_from(s.drop_first(), cur.push(s[0]))
    }
}

/// `str::split_whitespace`: the maximal runs of non-whitespace characters.
pub open spec fn words(s: Seq<char>) -> Seq<Seq<char>> {
    words_from(s, Seq::empty())
}

/// `str::split_whitespace` over characters.
pub fn split_whitespace_chars(s: &Vec<char>) -> (r: Vec<Vec<char>>)
    ensures
        r@.map_values(|v: Vec<char>| v@) == words(s@),
{
    let mut done: Vec<Vec<char>> = Vec::new();
    let mut cur: Vec<char> = Vec::new();
    let mut i: usize = 0;
    proof {
        assert(s@.skip(0) =~= s@);
        assert(done@.map_values(|v: Vec<char>| v@) + words_from(s@.skip(0), cur@) =~= words(s@));
    }
    while i < s.len()
        invariant
            i <= s@.len(),
            done@.map_values(|v: Vec<char>| v@) + words_from(s@.skip(i as int), cur@) == words(s@),
        decreases s@.len() - i,
    {
        let ghost d = done@.map_values(|v: Vec<char>| v@);
        let ghost t = s@.skip(i as int);
        proof {
            assert(t[0] == s@[i as int]);
            assert(t.drop_first() =~= s@.skip(i + 1));
        }
        if char_is_whitespace(s[i]) {
            if cur.len() > 0 {
                let ghost c = cur@;
                done.push(cur);
                proof {
                    assert(done@.map_values(|v: Vec<char>| v@) =~= d.push(c));
                    assert(d + (word_if_any(c) + words_from(s@.skip(i + 1), Seq::empty())) =~= d.push(c)
                        + words_from(s@.skip(i + 1), Seq::empty()));
                }
            } else {
                proof {
                    assert(d + (word_if_any(cur@) + words_from(s@.skip(i + 1), Seq::empty())) =~= d
                        + words_from(s@.skip(i + 1), Seq::empty()));
                }
            }
            cur = Vec::new();
            proof {
                assert(cur@ =~= Seq::<char>::empty());
            }
        } else {
            cur.push(s[i]);
        }
        i = i + 1;
    }
    proof {
        assert(s@.skip(i as int) =~= Seq::<char>::empty());
    }
    if cur.len() > 0 {
        let ghost d = done@.map_values(|v: Vec<char>| v@);
        let ghost c = cur@;
        done.push(cur);
        proof {
            assert(done@.map_values(|v: Vec<char>| v@) =~= d + word_if_any(c));
        }
    } else {
        proof {
            assert(done@.map_values(|v: Vec<char>| v@) + word_if_any(cur@) =~= done@.map_values(|v: Vec<char>| v@));
        }
    }
    done
}

/// `str::trim_start_matches(c)`.
pub open spec fn trim_start_char(s: Seq<char>, c: char) -> Seq<char> {
    s.skip(char_prefix_len(s, c) as int)
}

pub fn trim_start_char_exec(s: &Vec<char>, c: char) -> (r: Vec<char>)
    ensures
        r@ == trim_start_char(s@, c),
{
    let n = s.len();
    let mut i: usize = 0;
    while i < n && s[i] == c
        invariant
            i <= n,
            n == s@.len(),
            forall|k: int| 0 <= k < i ==> #[trigger] s@[k] == c,
        decreases n - i,
    {
        i = i + 1;
    }
    proof {
        lemma_char_prefix_len(s@, c, i as int);
    }
    slice_chars(s, i, n)
}

} // verus!
