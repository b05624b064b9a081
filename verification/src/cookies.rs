//! Cookie sets: an ordered list of name/value pairs in which no name occurs twice.

use crate::text::{
    find_char, index_of, joined, rendered, split_chars, split_on, split_once, split_once_chars,
    string_of, sub_chars, to_chars, trim_chars, trimmed, views_of, Pair, TextPair,
};
use vstd::prelude::*;
use vstd::string::StringExecFns;

verus! {

/// A cookie as a pair of texts: its name and its value.
pub type CookiePair = TextPair;

/// One cookie.
pub type Cookie = Pair;

/// Index of the first pair named `name`, or `pairs.len()` when there is none.
pub open spec fn position(pairs: Seq<CookiePair>, name: Seq<char>) -> nat
    decreases pairs.len(),
{
    if pairs.len() == 0 {
        0
    } else if pairs[0].0 == name {
        0
    } else {
        1 + position(pairs.drop_first(), name)
    }
}

/// The value stored under `name`, if any.
pub open spec fn lookup(pairs: Seq<CookiePair>, name: Seq<char>) -> Option<Seq<char>> {
    let k = position(pairs, name) as int;
    if k < pairs.len() {
        Some(pairs[k].1)
    } else {
        None
    }
}

/// `pairs` after storing `value` under `name`: an existing pair keeps its place
/// and takes the new value, a new name goes to the end.
pub open spec fn with_cookie(pairs: Seq<CookiePair>, name: Seq<char>, value: Seq<char>) -> Seq<
    CookiePair,
> {
    let k = position(pairs, name) as int;
    if k < pairs.len() {
        pairs.update(k, (name, value))
    } else {
        pairs.push((name, value))
    }
}

/// `base` after storing every pair of `extra`, in order.
pub open spec fn merged(base: Seq<CookiePair>, extra: Seq<CookiePair>) -> Seq<CookiePair>
    decreases extra.len(),
{
    if extra.len() == 0 {
        base
    } else {
        with_cookie(merged(base, extra.drop_last()), extra.last().0, extra.last().1)
    }
}

/// No name occurs twice.
pub open spec fn distinct_names(pairs: Seq<CookiePair>) -> bool {
    forall|i: int, j: int| 0 <= i < j < pairs.len() ==> pairs[i].0 != pairs[j].0
}

/// The value of a `Cookie` request header: the pairs as `name=value`, joined by `; `.
pub open spec fn cookie_header(pairs: Seq<CookiePair>) -> Seq<char> {
    joined(rendered(pairs), seq![';', ' '])
}

/// The pair that one item of a cookie string stands for: the item is trimmed
/// and split at its first `=`. An item without `=` stands for nothing.
pub open spec fn cookie_of_item(item: Seq<char>) -> Option<CookiePair> {
    split_once(trimmed(item), '=')
}

/// The pairs that a list of items stands for, later items overriding earlier ones.
pub open spec fn cookies_of_items(items: Seq<Seq<char>>) -> Seq<CookiePair>
    decreases items.len(),
{
    if items.len() == 0 {
        Seq::empty()
    } else {
        let before = cookies_of_items(items.drop_last());
        match cookie_of_item(items.last()) {
            Some(p) => with_cookie(before, p.0, p.1),
            None => before,
        }
    }
}

/// The pairs that a cookie string such as `a=1; b=2` stands for.
pub open spec fn parsed_cookies(text: Seq<char>) -> Seq<CookiePair> {
    cookies_of_items(split_on(text, ';'))
}

/// The cookie that a `Set-Cookie` header value offers: what stands before the
/// first `;`, split at its first `=`, name and value trimmed.
pub open spec fn offered_cookie(header: Seq<char>) -> Option<CookiePair> {
    let main = header.take(index_of(header, ';') as int);
    match split_once(main, '=') {
        Some(p) => Some((trimmed(p.0), trimmed(p.1))),
        None => None,
    }
}

/// The cookies that a list of `Set-Cookie` header values offers, later ones overriding.
pub open spec fn offered_cookies(headers: Seq<Seq<char>>) -> Seq<CookiePair>
    decreases headers.len(),
{
    if headers.len() == 0 {
        Seq::empty()
    } else {
        let before = offered_cookies(headers.drop_last());
        match offered_cookie(headers.last()) {
            Some(p) => with_cookie(before, p.0, p.1),
            None => before,
        }
    }
}

/// The position is within bounds, names a pair of that name if it names any,
/// and no pair before it has that name.
pub proof fn lemma_position(pairs: Seq<CookiePair>, name: Seq<char>)
    ensures
        position(pairs, name) <= pairs.len(),
        position(pairs, name) < pairs.len() ==> pairs[position(pairs, name) as int].0 == name,
        forall|i: int| 0 <= i < position(pairs, name) ==> pairs[i].0 != name,
    decreases pairs.len(),
{
    if pairs.len() > 0 && pairs[0].0 != name {
        let t = pairs.drop_first();
        lemma_position(t, name);
        assert forall|i: int| 0 <= i < position(pairs, name) implies pairs[i].0 != name by {
            if i > 0 {
                assert(pairs[i] == t[i - 1]);
            }
        }
    }
}

/// An index below which no pair is named `name` and at which one is, or which
/// is the length, is the position of `name`.
pub proof fn lemma_position_is(pairs: Seq<CookiePair>, name: Seq<char>, k: int)
    requires
        0 <= k <= pairs.len(),
        forall|i: int| 0 <= i < k ==> pairs[i].0 != name,
        k < pairs.len() ==> pairs[k].0 == name,
    ensures
        position(pairs, name) == k,
    decreases pairs.len(),
{
    if pairs.len() > 0 && pairs[0].0 != name {
        let t = pairs.drop_first();
        assert forall|i: int| 0 <= i < k - 1 implies t[i].0 != name by {
            assert(t[i] == pairs[i + 1]);
        }
        if k - 1 < t.len() {
            assert(t[k - 1] == pairs[k]);
        }
        lemma_position_is(t, name, k - 1);
    }
}

/// Storing a cookie keeps names distinct, makes the name map to the value and
/// leaves every other name as it was.
pub proof fn lemma_with_cookie(pairs: Seq<CookiePair>, name: Seq<char>, value: Seq<char>)
    requires
        distinct_names(pairs),
    ensures
        distinct_names(with_cookie(pairs, name, value)),
        lookup(with_cookie(pairs, name, value), name) == Some(value),
        forall|other: Seq<char>|
            other != name ==> lookup(with_cookie(pairs, name, value), other) == lookup(
                pairs,
                other,
            ),
{
    let k = position(pairs, name) as int;
    let after = with_cookie(pairs, name, value);
    lemma_position(pairs, name);
    assert forall|i: int, j: int| 0 <= i < j < after.len() implies after[i].0 != after[j].0 by {
        if k < pairs.len() {
            assert(after[i].0 == pairs[i].0);
            assert(after[j].0 == pairs[j].0);
        } else if j < pairs.len() {
            assert(after[i] == pairs[i] && after[j] == pairs[j]);
        } else {
            assert(after[i] == pairs[i]);
        }
    }
    lemma_position_is(after, name, k);
    assert forall|other: Seq<char>| other != name implies lookup(after, other) == lookup(
        pairs,
        other,
    ) by {
        lemma_position(pairs, other);
        let m = position(pairs, other) as int;
        assert forall|i: int| 0 <= i < m implies after[i].0 != other by {
            if i < pairs.len() {
                assert(after[i].0 == pairs[i].0);
            }
        }
        if m < pairs.len() {
            assert(after[m] == pairs[m]);
            lemma_position_is(after, other, m);
        } else {
            assert forall|i: int| 0 <= i < after.len() implies after[i].0 != other by {
                if i < pairs.len() {
                    assert(after[i].0 == pairs[i].0);
                }
            }
            lemma_position_is(after, other, after.len() as int);
        }
    }
}

/// Merging keeps names distinct; a name of `extra` maps to what `extra` holds
/// for it, every other name to what `base` holds.
pub proof fn lemma_merged(base: Seq<CookiePair>, extra: Seq<CookiePair>)
    requires
        distinct_names(base),
        distinct_names(extra),
    ensures
        distinct_names(merged(base, extra)),
        forall|name: Seq<char>|
            lookup(merged(base, extra), name) == match lookup(extra, name) {
                Some(v) => Some(v),
                None => lookup(base, name),
            },
    decreases extra.len(),
{
    if extra.len() > 0 {
        let front = extra.drop_last();
        let last = extra.last();
        assert forall|i: int, j: int| 0 <= i < j < front.len() implies front[i].0 != front[j].0 by {
            assert(front[i] == extra[i] && front[j] == extra[j]);
        }
        lemma_merged(base, front);
        lemma_with_cookie(merged(base, front), last.0, last.1);
        assert forall|name: Seq<char>|
            lookup(merged(base, extra), name) == match lookup(extra, name) {
                Some(v) => Some(v),
                None => lookup(base, name),
            } by {
            lemma_position(front, name);
            let m = position(front, name) as int;
            let inner = merged(base, front);
            assert(merged(base, extra) == with_cookie(inner, last.0, last.1));
            if name == last.0 {
                assert forall|i: int| 0 <= i < extra.len() - 1 implies extra[i].0 != name by {
                    assert(extra[i].0 != extra[extra.len() - 1].0);
                }
                lemma_position_is(extra, name, extra.len() - 1);
                assert(lookup(extra, name) == Some(last.1));
            } else {
                assert(lookup(merged(base, extra), name) == lookup(inner, name));
                assert forall|i: int| 0 <= i < m implies extra[i].0 != name by {
                    assert(extra[i] == front[i]);
                }
                if m < front.len() {
                    assert(extra[m] == front[m]);
                    lemma_position_is(extra, name, m);
                } else {
                    assert forall|i: int| 0 <= i < extra.len() implies extra[i].0 != name by {
                        if i < front.len() {
                            assert(extra[i] == front[i]);
                        }
                    }
                    lemma_position_is(extra, name, extra.len() as int);
                }
                assert(lookup(extra, name) == lookup(front, name));
            }
        }
    }
}

/// A set of cookies. No name occurs twice; the order is that of first insertion.
#[derive(Debug)]
pub struct CookieJar {
    entries: Vec<Cookie>,
}

impl View for CookieJar {
    type V = Seq<CookiePair>;

    closed spec fn view(&self) -> Seq<CookiePair> {
        self.entries@.map_values(|c: Cookie| c@)
    }
}

impl CookieJar {
    #[verifier::type_invariant]
    spec fn names_are_distinct(&self) -> bool {
        distinct_names(self@)
    }

    /// Validity of a jar: no name occurs twice. Every jar that executable code
    /// can hold is valid.
    pub open spec fn wf(&self) -> bool {
        distinct_names(self@)
    }

    /// An empty jar.
    pub fn new() -> (r: Self)
        ensures
            r@ == Seq::<CookiePair>::empty(),
            r.wf(),
    {
        let r = CookieJar { entries: Vec::new() };
        assert(r@ =~= Seq::<CookiePair>::empty());
        r
    }

    /// Number of cookies.
    pub fn len(&self) -> (n: usize)
        ensures
            n == self@.len(),
            self.wf(),
    {
        proof {
            use_type_invariant(self);
        }
        self.entries.len()
    }

    /// Whether the jar holds no cookie.
    pub fn is_empty(&self) -> (r: bool)
        ensures
            r == (self@.len() == 0),
            self.wf(),
    {
        proof {
            use_type_invariant(self);
        }
        self.entries.len() == 0
    }

    fn find(&self, name: &String) -> (k: usize)
        ensures
            k == position(self@, name@),
            k <= self.entries.len(),
    {
        let mut i: usize = 0;
        while i < self.entries.len() && !(self.entries[i].name == *name)
            invariant
                i <= self.entries.len(),
                forall|j: int| 0 <= j < i ==> self@[j].0 != name@,
            decreases self.entries.len() - i,
        {
            i += 1;
        }
        proof {
            lemma_position_is(self@, name@, i as int);
        }
        i
    }

    /// The value stored under `name`, if any.
    pub fn get(&self, name: &str) -> (r: Option<String>)
        ensures
            match r {
                Some(v) => lookup(self@, name@) == Some(v@),
                None => lookup(self@, name@).is_none(),
            },
    {
        let key = name.to_owned();
        let k = self.find(&key);
        if k < self.entries.len() {
            Some(self.entries[k].value.clone())
        } else {
            None
        }
    }

    /// Whether a cookie named `name` is stored.
    pub fn contains(&self, name: &str) -> (r: bool)
        ensures
            r == lookup(self@, name@).is_some(),
    {
        let key = name.to_owned();
        let k = self.find(&key);
        k < self.entries.len()
    }

    /// Stores `value` under `name`, replacing what was stored under that name.
    pub fn insert(&mut self, name: String, value: String)
        ensures
            final(self)@ == with_cookie(old(self)@, name@, value@),
            final(self).wf(),
    {
        proof {
            use_type_invariant(&*self);
            lemma_with_cookie(self@, name@, value@);
        }
        let k = self.find(&name);
        let ghost before = self@;
        let mut next: Vec<Cookie> = Vec::new();
        let mut i: usize = 0;
        while i < self.entries.len()
            invariant
                i <= self.entries.len(),
                k <= self.entries.len(),
                self@ == before,
                next.len() == i,
                forall|j: int| 0 <= j < i && j != k ==> next@[j]@ == before[j],
                k < i ==> next@[k as int]@ == (name@, value@),
            decreases self.entries.len() - i,
        {
            if i == k {
                next.push(Cookie { name: name.clone(), value: value.clone() });
            } else {
                next.push(self.entries[i].clone());
            }
            i += 1;
        }
        if k >= self.entries.len() {
            next.push(Cookie { name, value });
        }
        proof {
            let after = next@.map_values(|c: Cookie| c@);
            if k < before.len() {
                assert(after =~= before.update(k as int, (name@, value@)));
            } else {
                assert(after =~= before.push((name@, value@)));
            }
        }
        self.entries = next;
    }

    /// Stores every cookie of `other`, replacing what was stored under the same names.
    pub fn extend(&mut self, other: &CookieJar)
        ensures
            final(self)@ == merged(old(self)@, other@),
            final(self).wf(),
    {
        proof {
            use_type_invariant(&*self);
        }
        let mut i: usize = 0;
        while i < other.entries.len()
            invariant
                i <= other.entries.len(),
                self@ == merged(old(self)@, other@.take(i as int)),
                self.wf(),
            decreases other.entries.len() - i,
        {
            let c = other.entries[i].clone();
            proof {
                assert(other@.take(i as int + 1).drop_last() =~= other@.take(i as int));
                assert(other@.take(i as int + 1).last() == other@[i as int]);
            }
            self.insert(c.name, c.value);
            i += 1;
        }
        assert(other@.take(other.entries.len() as int) =~= other@);
    }

    /// The cookies as a list of pairs, in the jar's order.
    pub fn to_pairs(&self) -> (r: Vec<Cookie>)
        ensures
            r@.map_values(|c: Cookie| c@) == self@,
    {
        let mut out: Vec<Cookie> = Vec::new();
        let mut i: usize = 0;
        while i < self.entries.len()
            invariant
                i <= self.entries.len(),
                out@.map_values(|c: Cookie| c@) == self@.take(i as int),
            decreases self.entries.len() - i,
        {
            let ghost before = out@;
            out.push(self.entries[i].clone());
            assert(out@.map_values(|c: Cookie| c@) =~= before.map_values(|c: Cookie| c@).push(
                self@[i as int],
            ));
            assert(self@.take(i as int + 1) =~= self@.take(i as int).push(self@[i as int]));
            i += 1;
        }
        assert(self@.take(self.entries.len() as int) =~= self@);
        out
    }

    /// The jar that holds the given cookies, later ones replacing earlier ones
    /// of the same name.
    pub fn from_pairs(pairs: Vec<Cookie>) -> (r: Self)
        ensures
            r@ == merged(Seq::empty(), pairs@.map_values(|c: Cookie| c@)),
            r.wf(),
    {
        let mut jar = CookieJar::new();
        let ghost all = pairs@.map_values(|c: Cookie| c@);
        let mut i: usize = 0;
        while i < pairs.len()
            invariant
                i <= pairs.len(),
                all == pairs@.map_values(|c: Cookie| c@),
                jar@ == merged(Seq::empty(), all.take(i as int)),
                jar.wf(),
            decreases pairs.len() - i,
        {
            let c = pairs[i].clone();
            proof {
                assert(all.take(i as int + 1).drop_last() =~= all.take(i as int));
                assert(all.take(i as int + 1).last() == all[i as int]);
            }
            jar.insert(c.name, c.value);
            i += 1;
        }
        assert(all.take(pairs.len() as int) =~= all);
        jar
    }
}

impl Clone for CookieJar {
    fn clone(&self) -> (r: Self)
        ensures
            r@ == self@,
            r.wf(),
    {
        proof {
            use_type_invariant(self);
        }
        let mut out: Vec<Cookie> = Vec::new();
        let mut i: usize = 0;
        while i < self.entries.len()
            invariant
                i <= self.entries.len(),
                out@.map_values(|c: Cookie| c@) == self@.take(i as int),
            decreases self.entries.len() - i,
        {
            let ghost before = out@;
            out.push(self.entries[i].clone());
            assert(out@.map_values(|c: Cookie| c@) =~= before.map_values(|c: Cookie| c@).push(
                self@[i as int],
            ));
            assert(self@.take(i as int + 1) =~= self@.take(i as int).push(self@[i as int]));
            i += 1;
        }
        assert(self@.take(self.entries.len() as int) =~= self@);
        CookieJar { entries: out }
    }
}

/// The value of the `Cookie` request header for `cookies`: `name=value` pairs joined by `; `.
pub fn cookies_to_string(cookies: &CookieJar) -> (r: String)
    ensures
        r@ == cookie_header(cookies@),
{
    let mut out = String::new();
    let mut i: usize = 0;
    while i < cookies.entries.len()
        invariant
            i <= cookies.entries.len(),
            out@ == cookie_header(cookies@.take(i as int)),
        decreases cookies.entries.len() - i,
    {
        let ghost done = cookies@.take(i as int);
        let ghost next = cookies@.take(i as int + 1);
        proof {
            assert(next.drop_last() =~= done);
            assert(rendered(next).drop_last() =~= rendered(done));
            assert(rendered(next).last() == cookies@[i as int].0 + seq!['='] + cookies@[i as int].1);
        }
        if i > 0 {
            out.push(';');
            out.push(' ');
        }
        let ghost sep = out@;
        out.append(cookies.entries[i].name.as_str());
        out.push('=');
        out.append(cookies.entries[i].value.as_str());
        proof {
            let item = cookies@[i as int].0 + seq!['='] + cookies@[i as int].1;
            assert(out@ =~= sep + item);
            if i > 0 {
                assert(sep =~= cookie_header(done) + seq![';', ' ']);
            } else {
                assert(rendered(next).len() == 1);
                assert(sep =~= Seq::<char>::empty());
            }
        }
        i += 1;
    }
    assert(cookies@.take(cookies.entries.len() as int) =~= cookies@);
    out
}

/// Reads a cookie string such as `a=1; b=2`: the items between `;` are trimmed
/// and split at their first `=`; items without `=` are skipped; a later item
/// replaces an earlier one of the same name.
pub fn parse_cookie_string(cookie_str: &str) -> (r: CookieJar)
    ensures
        r@ == parsed_cookies(cookie_str@),
        r.wf(),
{
    let chars = to_chars(cookie_str);
    let items = split_chars(&chars, ';');
    let ghost all = split_on(cookie_str@, ';');
    let mut jar = CookieJar::new();
    let mut i: usize = 0;
    while i < items.len()
        invariant
            i <= items.len(),
            views_of(items@) == all,
            jar@ == cookies_of_items(all.take(i as int)),
            jar.wf(),
        decreases items.len() - i,
    {
        proof {
            assert(all.take(i as int + 1).drop_last() =~= all.take(i as int));
            assert(all.take(i as int + 1).last() == items@[i as int]@);
        }
        let item = trim_chars(&items[i]);
        match split_once_chars(&item, '=') {
            Some((name, value)) => {
                jar.insert(string_of(&name), string_of(&value));
            },
            None => {},
        }
        i += 1;
    }
    assert(all.take(items.len() as int) =~= all);
    jar
}

/// The cookie that one `Set-Cookie` header value offers, if it has the form
/// `name=value` before its first `;`.
pub fn parse_set_cookie(header: &str) -> (r: Option<Cookie>)
    ensures
        match r {
            Some(c) => offered_cookie(header@) == Some(c@),
            None => offered_cookie(header@).is_none(),
        },
{
    let chars = to_chars(header);
    let end = find_char(&chars, ';');
    let main = sub_chars(&chars, 0, end);
    match split_once_chars(&main, '=') {
        Some((name, value)) => {
            let n = trim_chars(&name);
            let v = trim_chars(&value);
            Some(Cookie { name: string_of(&n), value: string_of(&v) })
        },
        None => None,
    }
}

/// The cookies that the `Set-Cookie` header values of one response offer.
pub fn collect_set_cookies(headers: &Vec<String>) -> (r: CookieJar)
    ensures
        r@ == offered_cookies(headers@.map_values(|h: String| h@)),
        r.wf(),
{
    let ghost all = headers@.map_values(|h: String| h@);
    let mut jar = CookieJar::new();
    let mut i: usize = 0;
    while i < headers.len()
        invariant
            i <= headers.len(),
            all == headers@.map_values(|h: String| h@),
            jar@ == offered_cookies(all.take(i as int)),
            jar.wf(),
        decreases headers.len() - i,
    {
        proof {
            assert(all.take(i as int + 1).drop_last() =~= all.take(i as int));
            assert(all.take(i as int + 1).last() == headers@[i as int]@);
        }
        match parse_set_cookie(headers[i].as_str()) {
            Some(c) => {
                jar.insert(c.name, c.value);
            },
            None => {},
        }
        i += 1;
    }
    assert(all.take(headers.len() as int) =~= all);
    jar
}

} // verus!
