//! Character-level text operations with exact specifications.
//!
//! Strings are modelled by their view, a `Seq<char>`. The executable functions
//! work on `Vec<char>` buffers obtained with [`to_chars`] and turned back into
//! `String`s with [`string_of`].

use vstd::prelude::*;
use vstd::string::StringExecFns;

verus! {

/// `String::push` appends one character to the end of the string.
pub assume_specification[ String::push ](s: &mut String, c: char)
    ensures
        final(s)@ == old(s)@.push(c),
;

// ---------------------------------------------------------------------------
// Specifications
// ---------------------------------------------------------------------------
/// Index of the first occurrence of `c` in `s`, or `s.len()` when `c` does not occur.
pub open spec fn index_of(s: Seq<char>, c: char) -> nat
    decreases s.len(),
{
    if s.len() == 0 {
        0
    } else if s[0] == c {
        0
    } else {
        1 + index_of(s.drop_first(), c)
    }
}

/// The pieces of `s` between occurrences of `sep`, in order. There is always at
/// least one piece; adjacent separators yield empty pieces.
pub open spec fn split_on(s: Seq<char>, sep: char) -> Seq<Seq<char>>
    decreases s.len(),
{
    let k = index_of(s, sep) as int;
    if k >= s.len() {
        seq![s]
    } else {
        seq![s.take(k)] + split_on(s.skip(k + 1), sep)
    }
}

/// The part of `s` before the first `sep` and the part after it, when `sep` occurs.
pub open spec fn split_once(s: Seq<char>, sep: char) -> Option<(Seq<char>, Seq<char>)> {
    let k = index_of(s, sep) as int;
    if k >= s.len() {
        None
    } else {
        Some((s.take(k), s.skip(k + 1)))
    }
}

/// Whether `c` is white space in the sense of Unicode's `White_Space` property.
pub open spec fn is_space(c: char) -> bool {
    let n = c as u32;
    ||| 0x09 <= n <= 0x0D
    ||| n == 0x20
    ||| n == 0x85
    ||| n == 0xA0
    ||| n == 0x1680
    ||| 0x2000 <= n <= 0x200A
    ||| n == 0x2028
    ||| n == 0x2029
    ||| n == 0x202F
    ||| n == 0x205F
    ||| n == 0x3000
}

/// Number of white-space characters at the start of `s`.
pub open spec fn leading_spaces(s: Seq<char>) -> int
    decreases s.len(),
{
    if s.len() > 0 && is_space(s[0]) {
        1 + leading_spaces(s.drop_first())
    } else {
        0
    }
}

/// Number of white-space characters at the end of `s`.
pub open spec fn trailing_spaces(s: Seq<char>) -> int
    decreases s.len(),
{
    if s.len() > 0 && is_space(s.last()) {
        1 + trailing_spaces(s.drop_last())
    } else {
        0
    }
}

/// `s` without its leading and trailing white space.
pub open spec fn trimmed(s: Seq<char>) -> Seq<char> {
    let rest = s.skip(leading_spaces(s));
    rest.take(rest.len() - trailing_spaces(rest))
}

/// Whether `needle` occurs in `s` starting at index `at`.
pub open spec fn occurs_at(s: Seq<char>, needle: Seq<char>, at: int) -> bool {
    0 <= at && at + needle.len() <= s.len() && s.subrange(at, at + needle.len()) == needle
}

/// Whether `needle` occurs somewhere in `s`.
pub open spec fn contains_text(s: Seq<char>, needle: Seq<char>) -> bool {
    exists|at: int| occurs_at(s, needle, at)
}

/// Whether `at` is the first index at which `needle` occurs in `s`.
pub open spec fn first_occurrence(s: Seq<char>, needle: Seq<char>, at: int) -> bool {
    occurs_at(s, needle, at) && forall|j: int| 0 <= j < at ==> !occurs_at(s, needle, j)
}

/// The first index at which `needle` occurs in `s`, if it occurs.
pub open spec fn text_position(s: Seq<char>, needle: Seq<char>) -> Option<int> {
    if contains_text(s, needle) {
        Some(choose|at: int| first_occurrence(s, needle, at))
    } else {
        None
    }
}

/// Whether `s` begins with `prefix`.
pub open spec fn starts_with(s: Seq<char>, prefix: Seq<char>) -> bool {
    prefix.len() <= s.len() && s.take(prefix.len() as int) == prefix
}

/// The items of `parts` in order, with `sep` between each two neighbours.
pub open spec fn joined(parts: Seq<Seq<char>>, sep: Seq<char>) -> Seq<char>
    decreases parts.len(),
{
    if parts.len() == 0 {
        Seq::empty()
    } else if parts.len() == 1 {
        parts[0]
    } else {
        joined(parts.drop_last(), sep) + sep + parts.last()
    }
}

/// The text of an optional string.
pub open spec fn text_of(o: Option<String>) -> Option<Seq<char>> {
    match o {
        Some(s) => Some(s@),
        None => None,
    }
}

/// The views of the items of `parts`, in order.
pub open spec fn views_of(parts: Seq<Vec<char>>) -> Seq<Seq<char>> {
    parts.map_values(|p: Vec<char>| p@)
}

/// A name and a value, as texts.
pub type TextPair = (Seq<char>, Seq<char>);

/// A named value: a cookie, a request header or a query parameter.
#[derive(Debug)]
pub struct Pair {
    pub name: String,
    pub value: String,
}

impl View for Pair {
    type V = TextPair;

    open spec fn view(&self) -> TextPair {
        (self.name@, self.value@)
    }
}

impl Clone for Pair {
    fn clone(&self) -> (r: Self)
        ensures
            r@ == self@,
    {
        Pair { name: self.name.clone(), value: self.value.clone() }
    }
}

/// The views of a list of pairs.
pub open spec fn pair_views(pairs: Seq<Pair>) -> Seq<TextPair> {
    pairs.map_values(|p: Pair| p@)
}

/// `name=value` for each pair.
pub open spec fn rendered(pairs: Seq<TextPair>) -> Seq<Seq<char>> {
    pairs.map_values(|p: TextPair| p.0 + seq!['='] + p.1)
}

/// The text of an optional text, empty when there is none.
pub open spec fn or_empty(o: Option<Seq<char>>) -> Seq<char> {
    match o {
        Some(s) => s,
        None => Seq::empty(),
    }
}

/// The upper-case form of an ASCII letter; any other character as it is.
pub open spec fn ascii_upper(c: char) -> char {
    if 'a' <= c <= 'z' {
        ((c as u8) - 32) as char
    } else {
        c
    }
}

/// Whether `a` and `b` are equal up to the case of ASCII letters.
pub open spec fn same_ignoring_ascii_case(a: Seq<char>, b: Seq<char>) -> bool {
    a.map_values(|c: char| ascii_upper(c)) == b.map_values(|c: char| ascii_upper(c))
}

/// The lower-case form of an ASCII letter; any other character as it is.
pub open spec fn ascii_lower(c: char) -> char {
    if 'A' <= c <= 'Z' {
        ((c as u8) + 32) as char
    } else {
        c
    }
}

/// Whether `c` is an ASCII letter or digit.
pub open spec fn is_ascii_alphanumeric(c: char) -> bool {
    ('0' <= c <= '9') || ('a' <= c <= 'z') || ('A' <= c <= 'Z')
}

/// Whether `c` is an ASCII digit or lower-case letter.
pub open spec fn is_lower_alphanumeric(c: char) -> bool {
    ('0' <= c <= '9') || ('a' <= c <= 'z')
}

/// The decimal digit for `d`, which is below ten.
pub open spec fn digit_char(d: nat) -> char {
    ((('0' as u8) + d) as u8) as char
}

/// The decimal notation of `n`, without leading zeros.
pub open spec fn decimal(n: nat) -> Seq<char>
    decreases n,
{
    if n < 10 {
        seq![digit_char(n)]
    } else {
        decimal(n / 10).push(digit_char(n % 10))
    }
}

/// The decimal notation of `n`, with a minus sign if it is negative.
pub open spec fn signed_decimal(n: int) -> Seq<char> {
    if n < 0 {
        seq!['-'] + decimal((-n) as nat)
    } else {
        decimal(n as nat)
    }
}

// ---------------------------------------------------------------------------
// Lemmas
// ---------------------------------------------------------------------------
/// An index below which `c` does not occur and at which it does, or which is
/// the length, is the index of `c`.
pub proof fn lemma_index_of_is(s: Seq<char>, c: char, k: int)
    requires
        0 <= k <= s.len(),
        forall|i: int| 0 <= i < k ==> s[i] != c,
        k < s.len() ==> s[k] == c,
    ensures
        index_of(s, c) == k,
    decreases s.len(),
{
    if s.len() > 0 && s[0] != c {
        let t = s.drop_first();
        assert forall|i: int| 0 <= i < k - 1 implies t[i] != c by {
            assert(t[i] == s[i + 1]);
        }
        if k - 1 < t.len() {
            assert(t[k - 1] == s[k]);
        }
        lemma_index_of_is(t, c, k - 1);
    }
}

/// There is one first occurrence at most.
pub proof fn lemma_text_position_is(s: Seq<char>, needle: Seq<char>, at: int)
    requires
        first_occurrence(s, needle, at),
    ensures
        text_position(s, needle) == Some(at),
{
    assert(occurs_at(s, needle, at));
    let other = choose|k: int| first_occurrence(s, needle, k);
    assert(first_occurrence(s, needle, other));
    if other < at {
        assert(!occurs_at(s, needle, other));
    }
    if at < other {
        assert(!occurs_at(s, needle, at));
    }
}

/// The number of leading spaces is the first index that holds no space.
pub proof fn lemma_leading_spaces_is(s: Seq<char>, k: int)
    requires
        0 <= k <= s.len(),
        forall|i: int| 0 <= i < k ==> is_space(s[i]),
        k < s.len() ==> !is_space(s[k]),
    ensures
        leading_spaces(s) == k,
    decreases s.len(),
{
    if s.len() > 0 && is_space(s[0]) {
        let t = s.drop_first();
        assert forall|i: int| 0 <= i < k - 1 implies is_space(t[i]) by {
            assert(t[i] == s[i + 1]);
        }
        if k - 1 < t.len() {
            assert(t[k - 1] == s[k]);
        }
        lemma_leading_spaces_is(t, k - 1);
    }
}

/// The number of trailing spaces is the length of the run of spaces at the end.
pub proof fn lemma_trailing_spaces_is(s: Seq<char>, k: int)
    requires
        0 <= k <= s.len(),
        forall|i: int| s.len() - k <= i < s.len() ==> is_space(s[i]),
        k < s.len() ==> !is_space(s[s.len() - k - 1]),
    ensures
        trailing_spaces(s) == k,
    decreases s.len(),
{
    if s.len() > 0 && is_space(s.last()) {
        let t = s.drop_last();
        assert forall|i: int| t.len() - (k - 1) <= i < t.len() implies is_space(t[i]) by {
            assert(t[i] == s[i]);
        }
        if k - 1 < t.len() {
            assert(t[t.len() - (k - 1) - 1] == s[s.len() - k - 1]);
        }
        lemma_trailing_spaces_is(t, k - 1);
    }
}

// ---------------------------------------------------------------------------
// Executable functions
// ---------------------------------------------------------------------------
/// The characters of `s`.
pub fn to_chars(s: &str) -> (r: Vec<char>)
    ensures
        r@ == s@,
{
    let mut out: Vec<char> = Vec::new();
    for c in it: s.chars()
        invariant
            it.seq() == s@,
            out.len() == it.index(),
            forall|i: int| 0 <= i < out.len() ==> out@[i] == it.seq()[i],
    {
        out.push(c);
    }
    assert(out@ =~= s@);
    out
}

/// The string made of the characters of `v`.
pub fn string_of(v: &Vec<char>) -> (r: String)
    ensures
        r@ == v@,
{
    let mut out = String::new();
    let mut i: usize = 0;
    while i < v.len()
        invariant
            i <= v.len(),
            out@ == v@.take(i as int),
        decreases v.len() - i,
    {
        out.push(v[i]);
        assert(v@.take(i as int + 1) =~= v@.take(i as int).push(v@[i as int]));
        i += 1;
    }
    assert(v@.take(v.len() as int) =~= v@);
    out
}

/// The characters of `v` from index `from` up to, not including, index `to`.
pub fn sub_chars(v: &Vec<char>, from: usize, to: usize) -> (r: Vec<char>)
    requires
        from <= to <= v.len(),
    ensures
        r@ == v@.subrange(from as int, to as int),
{
    let mut out: Vec<char> = Vec::new();
    let mut i: usize = from;
    while i < to
        invariant
            from <= i <= to <= v.len(),
            out@ == v@.subrange(from as int, i as int),
        decreases to - i,
    {
        out.push(v[i]);
        assert(v@.subrange(from as int, i as int + 1) =~= v@.subrange(from as int, i as int).push(
            v@[i as int],
        ));
        i += 1;
    }
    out
}

/// A copy of an optional string.
pub fn clone_text(o: &Option<String>) -> (r: Option<String>)
    ensures
        text_of(r) == text_of(*o),
{
    match o {
        Some(s) => Some(s.clone()),
        None => None,
    }
}

/// The string of an optional string, empty when there is none.
pub fn text_or_empty(o: &Option<String>) -> (r: String)
    ensures
        r@ == or_empty(text_of(*o)),
{
    match o {
        Some(s) => s.clone(),
        None => String::new(),
    }
}

/// `a` followed by `b`.
pub fn followed_by(a: &str, b: &str) -> (r: String)
    ensures
        r@ == a@ + b@,
{
    let mut out = a.to_owned();
    out.append(b);
    out
}

/// Appends the pair of `name` and `value`.
pub fn push_pair(pairs: &mut Vec<Pair>, name: &str, value: &str)
    ensures
        pair_views(final(pairs)@) == pair_views(old(pairs)@).push((name@, value@)),
{
    let ghost before = pairs@;
    pairs.push(Pair { name: String::from_str(name), value: String::from_str(value) });
    assert(pair_views(pairs@) =~= pair_views(before).push((name@, value@)));
}

/// The pairs as `name=value`, joined by `sep`.
pub fn join_pairs(pairs: &Vec<Pair>, sep: &str) -> (r: String)
    ensures
        r@ == joined(rendered(pair_views(pairs@)), sep@),
{
    let ghost all = pair_views(pairs@);
    let mut out = String::new();
    let mut i: usize = 0;
    while i < pairs.len()
        invariant
            i <= pairs.len(),
            all == pair_views(pairs@),
            out@ == joined(rendered(all.take(i as int)), sep@),
        decreases pairs.len() - i,
    {
        let ghost done = all.take(i as int);
        let ghost next = all.take(i as int + 1);
        proof {
            assert(rendered(next).drop_last() =~= rendered(done));
            assert(rendered(next).last() == all[i as int].0 + seq!['='] + all[i as int].1);
        }
        if i > 0 {
            out.append(sep);
        }
        let ghost start = out@;
        out.append(pairs[i].name.as_str());
        out.push('=');
        out.append(pairs[i].value.as_str());
        proof {
            let item = all[i as int].0 + seq!['='] + all[i as int].1;
            assert(out@ =~= start + item);
            if i > 0 {
                assert(start =~= joined(rendered(done), sep@) + sep@);
            } else {
                assert(rendered(next).len() == 1);
                assert(start =~= Seq::<char>::empty());
            }
        }
        i += 1;
    }
    assert(all.take(pairs.len() as int) =~= all);
    out
}

/// The text `v` with its ASCII letters in lower case.
pub fn to_ascii_lower(v: &Vec<char>) -> (r: Vec<char>)
    ensures
        r@ == v@.map_values(|c: char| ascii_lower(c)),
{
    let mut out: Vec<char> = Vec::new();
    let mut i: usize = 0;
    while i < v.len()
        invariant
            i <= v.len(),
            out.len() == i,
            forall|j: int| 0 <= j < i ==> out@[j] == ascii_lower(v@[j]),
        decreases v.len() - i,
    {
        let c = v[i];
        if 'A' <= c && c <= 'Z' {
            out.push(((c as u8) + 32) as char);
        } else {
            out.push(c);
        }
        i += 1;
    }
    assert(out@ =~= v@.map_values(|c: char| ascii_lower(c)));
    out
}

/// The decimal notation of `n`.
pub fn u128_to_decimal(n: u128) -> (r: Vec<char>)
    ensures
        r@ == decimal(n as nat),
{
    let mut digits: Vec<char> = Vec::new();
    let mut rest: u128 = n;
    // `digits` holds the digits below `rest`, lowest first.
    while rest >= 10
        invariant
            decimal(n as nat) == decimal(rest as nat) + digits@.reverse(),
        decreases rest,
    {
        let d: u8 = (rest % 10) as u8;
        let ghost before = digits@;
        digits.push((48u8 + d) as char);
        proof {
            assert(digits@.reverse() =~= seq![digit_char((rest % 10) as nat)] + before.reverse());
            assert(decimal(rest as nat) == decimal((rest / 10) as nat).push(
                digit_char((rest % 10) as nat),
            ));
            assert(decimal(rest as nat) + before.reverse() =~= decimal((rest / 10) as nat)
                + digits@.reverse());
        }
        rest = rest / 10;
    }
    let mut out: Vec<char> = Vec::new();
    out.push((48u8 + (rest as u8)) as char);
    let mut i: usize = digits.len();
    while i > 0
        invariant
            i <= digits.len(),
            rest < 10,
            out@ == decimal(rest as nat) + digits@.reverse().take(digits.len() - i),
        decreases i,
    {
        i -= 1;
        let ghost before = out@;
        out.push(digits[i]);
        proof {
            let rev = digits@.reverse();
            assert(rev[digits.len() - 1 - i] == digits@[i as int]);
            assert(rev.take(digits.len() - i) =~= rev.take(digits.len() - i - 1).push(
                digits@[i as int],
            ));
            assert(out@ =~= decimal(rest as nat) + rev.take(digits.len() - i));
        }
    }
    assert(digits@.reverse().take(digits.len() as int) =~= digits@.reverse());
    out
}

/// The decimal notation of `n`, with a minus sign if it is negative.
pub fn i64_to_decimal(n: i64) -> (r: String)
    ensures
        r@ == signed_decimal(n as int),
{
    if n < 0 {
        let magnitude: u128 = (-(n as i128)) as u128;
        let digits = u128_to_decimal(magnitude);
        let mut out = String::new();
        out.push('-');
        let rest = string_of(&digits);
        out.append(rest.as_str());
        assert(out@ =~= seq!['-'] + digits@);
        out
    } else {
        let digits = u128_to_decimal(n as u128);
        string_of(&digits)
    }
}

/// The upper-case form of an ASCII letter; any other character as it is.
pub fn to_ascii_upper(c: char) -> (r: char)
    ensures
        r == ascii_upper(c),
{
    if 'a' <= c && c <= 'z' {
        ((c as u8) - 32) as char
    } else {
        c
    }
}

/// Whether `a` and `b` are equal up to the case of ASCII letters.
pub fn eq_ignoring_ascii_case(a: &str, b: &str) -> (r: bool)
    ensures
        r == same_ignoring_ascii_case(a@, b@),
{
    let x = to_chars(a);
    let y = to_chars(b);
    let ghost ux = a@.map_values(|c: char| ascii_upper(c));
    let ghost uy = b@.map_values(|c: char| ascii_upper(c));
    if x.len() != y.len() {
        assert(ux.len() != uy.len());
        return false;
    }
    let mut i: usize = 0;
    while i < x.len()
        invariant
            x@ == a@,
            y@ == b@,
            x.len() == y.len(),
            i <= x.len(),
            ux == a@.map_values(|c: char| ascii_upper(c)),
            uy == b@.map_values(|c: char| ascii_upper(c)),
            forall|j: int| 0 <= j < i ==> ux[j] == uy[j],
        decreases x.len() - i,
    {
        if to_ascii_upper(x[i]) != to_ascii_upper(y[i]) {
            assert(ux[i as int] != uy[i as int]);
            return false;
        }
        i += 1;
    }
    assert(ux =~= uy);
    true
}

/// Whether two strings hold the same characters.
pub fn same_text(a: &str, b: &str) -> (r: bool)
    ensures
        r == (a@ == b@),
{
    a.to_owned() == b.to_owned()
}

/// Whether two character buffers hold the same characters.
pub fn same_chars(a: &Vec<char>, b: &Vec<char>) -> (r: bool)
    ensures
        r == (a@ == b@),
{
    if a.len() != b.len() {
        return false;
    }
    let mut i: usize = 0;
    while i < a.len()
        invariant
            a.len() == b.len(),
            i <= a.len(),
            a@.take(i as int) == b@.take(i as int),
        decreases a.len() - i,
    {
        if a[i] != b[i] {
            assert(a@[i as int] != b@[i as int]);
            return false;
        }
        assert(a@.take(i as int + 1) =~= a@.take(i as int).push(a@[i as int]));
        assert(b@.take(i as int + 1) =~= b@.take(i as int).push(b@[i as int]));
        i += 1;
    }
    assert(a@.take(a.len() as int) =~= a@);
    assert(b@.take(b.len() as int) =~= b@);
    true
}

/// Index of the first occurrence of `c` at or after `from`, or `v.len()`.
pub fn find_char_from(v: &Vec<char>, from: usize, c: char) -> (k: usize)
    requires
        from <= v.len(),
    ensures
        from <= k <= v.len(),
        k == from + index_of(v@.skip(from as int), c),
{
    let mut i: usize = from;
    while i < v.len() && v[i] != c
        invariant
            from <= i <= v.len(),
            forall|j: int| from <= j < i ==> v@[j] != c,
        decreases v.len() - i,
    {
        i += 1;
    }
    proof {
        lemma_index_of_is(v@.skip(from as int), c, i - from);
    }
    i
}

/// Index of the first occurrence of `c`, or `v.len()` when there is none.
pub fn find_char(v: &Vec<char>, c: char) -> (k: usize)
    ensures
        k == index_of(v@, c),
        k <= v.len(),
{
    let k = find_char_from(v, 0, c);
    assert(v@.skip(0) =~= v@);
    k
}

/// Splits `v` at every occurrence of `sep`.
pub fn split_chars(v: &Vec<char>, sep: char) -> (parts: Vec<Vec<char>>)
    ensures
        views_of(parts@) == split_on(v@, sep),
        parts.len() >= 1,
{
    let mut parts: Vec<Vec<char>> = Vec::new();
    let mut start: usize = 0;
    proof {
        assert(v@.skip(0) =~= v@);
        assert(views_of(parts@) + split_on(v@, sep) =~= split_on(v@, sep));
    }
    loop
        invariant
            start <= v.len(),
            split_on(v@, sep) == views_of(parts@) + split_on(v@.skip(start as int), sep),
        decreases v.len() - start,
    {
        let ghost rest = v@.skip(start as int);
        let ghost before = parts@;
        let k = find_char_from(v, start, sep);
        let piece = sub_chars(v, start, k);
        parts.push(piece);
        proof {
            assert(views_of(parts@) =~= views_of(before).push(piece@));
            assert(piece@ =~= rest.take(k - start));
        }
        if k >= v.len() {
            proof {
                assert(rest.take(rest.len() as int) =~= rest);
                assert(split_on(rest, sep) =~= seq![rest]);
                assert(views_of(before) + seq![rest] =~= views_of(parts@));
            }
            return parts;
        }
        proof {
            assert(rest.skip(k - start + 1) =~= v@.skip(k + 1));
            assert(split_on(rest, sep) == seq![rest.take(k - start)] + split_on(
                v@.skip(k + 1),
                sep,
            ));
            assert(views_of(before) + (seq![piece@] + split_on(v@.skip(k + 1), sep)) =~= views_of(
                parts@,
            ) + split_on(v@.skip(k + 1), sep));
        }
        start = k + 1;
    }
}

/// Splits `v` at the first occurrence of `sep`, if there is one.
pub fn split_once_chars(v: &Vec<char>, sep: char) -> (r: Option<(Vec<char>, Vec<char>)>)
    ensures
        match r {
            Some((a, b)) => split_once(v@, sep) == Some((a@, b@)),
            None => split_once(v@, sep).is_none(),
        },
{
    let k = find_char(v, sep);
    if k >= v.len() {
        None
    } else {
        let a = sub_chars(v, 0, k);
        let b = sub_chars(v, k + 1, v.len());
        Some((a, b))
    }
}

/// Whether `c` is white space.
pub fn is_space_char(c: char) -> (r: bool)
    ensures
        r == is_space(c),
{
    let n: u32 = c as u32;
    (0x09 <= n && n <= 0x0D) || n == 0x20 || n == 0x85 || n == 0xA0 || n == 0x1680 || (0x2000 <= n
        && n <= 0x200A) || n == 0x2028 || n == 0x2029 || n == 0x202F || n == 0x205F || n == 0x3000
}

/// `v` without its leading and trailing white space.
pub fn trim_chars(v: &Vec<char>) -> (r: Vec<char>)
    ensures
        r@ == trimmed(v@),
{
    let mut a: usize = 0;
    while a < v.len() && is_space_char(v[a])
        invariant
            a <= v.len(),
            forall|j: int| 0 <= j < a ==> is_space(v@[j]),
        decreases v.len() - a,
    {
        a += 1;
    }
    let mut b: usize = v.len();
    while b > a && is_space_char(v[b - 1])
        invariant
            a <= b <= v.len(),
            forall|j: int| b <= j < v.len() ==> is_space(v@[j]),
        decreases b,
    {
        b -= 1;
    }
    proof {
        lemma_leading_spaces_is(v@, a as int);
        let rest = v@.skip(a as int);
        assert forall|i: int| rest.len() - (v.len() - b) <= i < rest.len() implies is_space(
            rest[i],
        ) by {
            assert(rest[i] == v@[i + a]);
        }
        if v.len() - b < rest.len() {
            assert(rest[rest.len() - (v.len() - b) - 1] == v@[b - 1]);
        }
        lemma_trailing_spaces_is(rest, (v.len() - b) as int);
        assert(rest.take(rest.len() - (v.len() - b)) =~= v@.subrange(a as int, b as int));
    }
    sub_chars(v, a, b)
}

/// Whether `needle` occurs in `v` starting at index `at`.
pub fn matches_at(v: &Vec<char>, needle: &Vec<char>, at: usize) -> (r: bool)
    ensures
        r == occurs_at(v@, needle@, at as int),
{
    if needle.len() > v.len() || at > v.len() - needle.len() {
        return false;
    }
    let mut i: usize = 0;
    while i < needle.len()
        invariant
            at + needle.len() <= v.len(),
            i <= needle.len(),
            forall|j: int| 0 <= j < i ==> v@[at + j] == needle@[j],
        decreases needle.len() - i,
    {
        if v[at + i] != needle[i] {
            proof {
                let w = v@.subrange(at as int, at + needle.len());
                assert(w[i as int] == v@[at + i]);
            }
            return false;
        }
        i += 1;
    }
    assert(v@.subrange(at as int, at + needle.len()) =~= needle@);
    true
}

/// Whether `v` begins with `prefix`.
pub fn has_prefix(v: &Vec<char>, prefix: &Vec<char>) -> (r: bool)
    ensures
        r == starts_with(v@, prefix@),
{
    let r = matches_at(v, prefix, 0);
    proof {
        if prefix.len() <= v.len() {
            assert(v@.subrange(0, prefix.len() as int) =~= v@.take(prefix.len() as int));
        }
    }
    r
}

/// Index of the first occurrence of `needle` in `v`, if it occurs.
pub fn find_text(v: &Vec<char>, needle: &Vec<char>) -> (r: Option<usize>)
    ensures
        match r {
            Some(at) => first_occurrence(v@, needle@, at as int) && text_position(v@, needle@)
                == Some(at as int) && at + needle.len() <= v.len(),
            None => !contains_text(v@, needle@) && text_position(v@, needle@) is None,
        },
{
    if needle.len() > v.len() {
        return None;
    }
    let last: usize = v.len() - needle.len();
    let mut at: usize = 0;
    loop
        invariant
            last == v.len() - needle.len(),
            at <= last,
            forall|j: int| 0 <= j < at ==> !occurs_at(v@, needle@, j),
        decreases last - at,
    {
        if matches_at(v, needle, at) {
            proof {
                lemma_text_position_is(v@, needle@, at as int);
            }
            return Some(at);
        }
        if at == last {
            return None;
        }
        at += 1;
    }
}

} // verus!
