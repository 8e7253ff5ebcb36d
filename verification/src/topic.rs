//! Topic patterns and the table that matches topics against them.
//!
//! The table is that of `ntex_router`. Its types are carried through as they
//! are; nothing is proved of what its functions do: each contract states
//! what the source of `ntex_router` shows, and gives a name to what takes
//! pages to state.
use vstd::prelude::*;

verus! {

/// `ntex_router::Path`: a topic and what a match against a pattern has
/// captured of it.
#[verifier::external_type_specification]
#[verifier::external_body]
#[verifier::reject_recursive_types(T)]
pub struct ExPath<T>(ntex_router::Path<T>);

/// A finished table of `ntex_router`, with `usize` values. Verus sees
/// nothing inside it.
#[verifier::external_body]
pub struct Table {
    inner: ntex_router::Router<usize>,
}

/// `ntex_router::RouterBuilder`: a table under construction.
#[verifier::external_type_specification]
#[verifier::external_body]
#[verifier::reject_recursive_types(T)]
#[verifier::reject_recursive_types(U)]
pub struct ExRouterBuilder<T, U>(ntex_router::RouterBuilder<T, U>);

/// What a table under construction holds: the resources registered so far,
/// in the order of their registration, each as its patterns and the value
/// registered for it.
pub uninterp spec fn builder_table(builder: ntex_router::RouterBuilder<usize>) -> Seq<
    (Seq<Seq<char>>, usize),
>;

/// What a finished table holds: its resources in the order of their
/// registration, each as its patterns and the value registered for it.
pub uninterp spec fn router_table(table: Table) -> Seq<(Seq<Seq<char>>, usize)>;

/// The texts of `patterns`.
pub open spec fn texts(patterns: Seq<String>) -> Seq<Seq<char>> {
    Seq::new(patterns.len(), |i: int| patterns[i]@)
}

/// What `Router::recognize` finds for `topic` in a table that holds
/// `table`, if it finds a pattern that matches: the value registered for
/// the pattern, and what the match leaves in the path, as `Path::iter`
/// yields it, each parameter's name with the text captured for it.
pub uninterp spec fn table_match(table: Seq<(Seq<Seq<char>>, usize)>, topic: Seq<char>) -> Option<
    (usize, Seq<(Seq<char>, Seq<char>)>),
>;

/// The topic that a path was made of: what `Path::get_ref` returns for it.
pub uninterp spec fn path_topic(path: ntex_router::Path<String>) -> Seq<char>;

/// What a match has left in a path: what `Path::iter` yields for it, each
/// parameter's name with the text captured for it.
pub uninterp spec fn path_items(path: ntex_router::Path<String>) -> Seq<(Seq<char>, Seq<char>)>;

/// Whether the table tells rightly where in `topic` a match has captured
/// what: it keeps the places in 16 bits, so the topic has at most 65 535
/// bytes, which is also the longest that a packet can carry.
pub open spec fn is_topic(topic: Seq<char>) -> bool {
    vstd::utf8::encode_utf8(topic).len() <= 65535
}

/// The value of the pattern that matches `topic`, if one does.
pub open spec fn match_value(table: Seq<(Seq<Seq<char>>, usize)>, topic: Seq<char>) -> Option<usize> {
    match table_match(table, topic) {
        Some(found) => Some(found.0),
        None => None,
    }
}

/// What the match of `topic` captures; nothing, if no pattern matches.
pub open spec fn match_items(table: Seq<(Seq<Seq<char>>, usize)>, topic: Seq<char>) -> Seq<
    (Seq<char>, Seq<char>),
> {
    match table_match(table, topic) {
        Some(found) => found.1,
        None => Seq::empty(),
    }
}

/// `Router::build`: a table under construction that holds no pattern.
#[verifier::external_body]
pub(crate) fn builder() -> (b: ntex_router::RouterBuilder<usize>)
    ensures
        builder_table(b) == Seq::<(Seq<Seq<char>>, usize)>::empty(),
{
    ntex_router::Router::build()
}

/// `RouterBuilder::path`: registers `value` for a resource with the
/// patterns `patterns`, behind what is registered already. Patterns outside
/// `is_pattern` are left out: on a malformed one the parser of
/// `ntex_router` panics, and so does the compiler of regular expressions on
/// one that it cannot take.
#[verifier::external_body]
pub(crate) fn add_path(
    b: &mut ntex_router::RouterBuilder<usize>,
    patterns: Vec<String>,
    value: usize,
)
    requires
        forall|i: int| 0 <= i < patterns@.len() ==> is_pattern(#[trigger] patterns@[i]@),
    ensures
        builder_table(*final(b)) == builder_table(*old(b)).push((texts(patterns@), value)),
{
    b.path(patterns, value);
}

/// `RouterBuilder::finish`: the finished table holds what was registered.
/// A table whose first resource has no pattern is left out: on it
/// `ntex_router` panics.
#[verifier::external_body]
pub(crate) fn finish(b: ntex_router::RouterBuilder<usize>) -> (r: Table)
    requires
        builder_table(b).len() > 0 ==> builder_table(b)[0].0.len() > 0,
    ensures
        router_table(r) == builder_table(b),
{
    Table { inner: b.finish() }
}

/// `Router::clone`: the copy holds what the table holds.
#[verifier::external_body]
pub(crate) fn clone_router(router: &Table) -> (r: Table)
    ensures
        router_table(r) == router_table(*router),
{
    Table { inner: router.inner.clone() }
}

/// `Path::new`: a path of `topic` that has not been matched yet. The topic
/// is what `Path::get_ref` returns for it, and `Path::iter` yields nothing.
#[verifier::external_body]
pub(crate) fn new_path(topic: &str) -> (p: ntex_router::Path<String>)
    ensures
        path_topic(p) == topic@,
        path_items(p) == Seq::<(Seq<char>, Seq<char>)>::empty(),
{
    ntex_router::Path::new(topic.to_string())
}

/// `Path::clone`: the copy is equal to the path.
#[verifier::external_body]
pub(crate) fn clone_path(path: &ntex_router::Path<String>) -> (p: ntex_router::Path<String>)
    ensures
        p == *path,
{
    path.clone()
}

/// `Router::recognize`, on a new path of `topic`: the value of the pattern
/// that matches, if one does, and the path, in which the match has left
/// what it captured; without a match the path holds nothing. The value is
/// one of those that the table holds. Of what the path holds nothing is
/// claimed for a topic of more than 65 535 bytes.
#[verifier::external_body]
pub(crate) fn recognize(router: &Table, topic: &str) -> (r: (
    Option<usize>,
    ntex_router::Path<String>,
))
    ensures
        r.0 == (match table_match(router_table(*router), topic@) {
            Some(found) => Some(found.0),
            None => None,
        }),
        r.0 matches Some(v) ==> exists|i: int|
            0 <= i < router_table(*router).len() && (#[trigger] router_table(*router)[i]).1 == v,
        path_topic(r.1) == topic@,
        is_topic(topic@) ==> path_items(r.1) == (match table_match(
            router_table(*router),
            topic@,
        ) {
            Some(found) => found.1,
            None => Seq::empty(),
        }),
{
    let mut path = ntex_router::Path::new(topic.to_string());
    let found = router.inner.recognize(&mut path).map(|(value, _)| *value);
    (found, path)
}

/// Whether `c` may stand in the name of a parameter.
pub open spec fn is_name_char(c: char) -> bool {
    ||| 'a' <= c <= 'z'
    ||| 'A' <= c <= 'Z'
    ||| '0' <= c <= '9'
    ||| c == '_'
}

/// Whether `s` is the name of a parameter: a letter or an underscore, then
/// letters, digits and underscores.
pub open spec fn is_name(s: Seq<char>) -> bool {
    &&& s.len() > 0
    &&& !('0' <= s[0] <= '9')
    &&& forall|i: int| 0 <= i < s.len() ==> is_name_char(#[trigger] s[i])
}

/// Whether `c` stands for itself where the table takes text as it is
/// written: it is none of the characters with a meaning of their own in a
/// regular expression, but for `.` and `-`.
pub open spec fn is_raw_char(c: char) -> bool {
    &&& c != '\\'
    &&& c != '+'
    &&& c != '*'
    &&& c != '?'
    &&& c != '('
    &&& c != ')'
    &&& c != '|'
    &&& c != '['
    &&& c != ']'
    &&& c != '{'
    &&& c != '}'
    &&& c != '^'
    &&& c != '$'
    &&& c != '#'
    &&& c != '&'
    &&& c != '~'
}

/// Whether every character of `s` stands for itself.
pub open spec fn is_raw(s: Seq<char>) -> bool {
    forall|i: int| 0 <= i < s.len() ==> is_raw_char(#[trigger] s[i])
}

/// The longest that a segment may be which the table turns into a regular
/// expression: one with a parameter, or one that ends the pattern with `*`.
pub const MAX_SEGMENT: usize = 4096;

/// The first place at or after `from` where `c` stands in `s`; the length of
/// `s` if there is none.
pub open spec fn next_index(s: Seq<char>, from: int, c: char) -> int
    decreases s.len() - from,
{
    if from < 0 || from >= s.len() {
        s.len() as int
    } else if s[from] == c {
        from
    } else {
        next_index(s, from + 1, c)
    }
}

/// Whether `s[from..]` is the rest of a segment with parameters: text, then
/// a parameter in braces, and so on, then text. The name of a parameter is
/// none of `seen`, the names before it in the segment. In the segment that
/// ends the pattern, the text after the last parameter stands for itself,
/// or it is `*`, which lets the parameter take the rest of a topic.
pub open spec fn is_params(s: Seq<char>, from: int, seen: Seq<Seq<char>>, last: bool) -> bool
    decreases s.len() - from,
{
    let open = next_index(s, from, '{');
    let close = next_index(s, open + 1, '}');
    if from < 0 || from > s.len() {
        false
    } else if open >= s.len() {
        ||| !last
        ||| is_raw(s.subrange(from, s.len() as int))
        ||| s.subrange(from, s.len() as int) == seq!['*']
    } else {
        &&& from <= open < close < s.len()
        &&& is_name(s.subrange(open + 1, close))
        &&& !seen.contains(s.subrange(open + 1, close))
        &&& is_params(s, close + 1, seen.push(s.subrange(open + 1, close)), last)
    }
}

/// Whether `s` is a segment of a pattern; `last` tells whether it ends the
/// pattern. A segment without `{` is literal text; if it ends the pattern
/// with `*`, it matches what begins with the text before the `*`, which
/// stands for itself. A segment with `{` is made of text and parameters.
/// What the table turns into a regular expression is no longer than
/// `MAX_SEGMENT`.
pub open spec fn is_segment(s: Seq<char>, last: bool) -> bool {
    if next_index(s, 0, '{') >= s.len() {
        last && s.len() > 0 && s[s.len() - 1] == '*' ==> s.len() <= MAX_SEGMENT && is_raw(
            s.subrange(0, s.len() - 1),
        )
    } else {
        s.len() <= MAX_SEGMENT && is_params(s, 0, Seq::empty(), last)
    }
}

/// Whether `p[from..to]` is a segment of `p`: a longest stretch without a
/// separator.
pub open spec fn segment_at(p: Seq<char>, from: int, to: int) -> bool {
    &&& 0 <= from <= to <= p.len()
    &&& from == 0 || p[from - 1] == '/'
    &&& to == p.len() || p[to] == '/'
    &&& forall|i: int| from <= i < to ==> #[trigger] p[i] != '/'
}

/// Whether `p` is a topic pattern: segments that `/` separates, each of
/// them literal text or text with parameters.
pub open spec fn is_pattern(p: Seq<char>) -> bool {
    forall|from: int, to: int| #[trigger]
        segment_at(p, from, to) ==> is_segment(p.subrange(from, to), to == p.len())
}

/// The characters of `s`.
fn chars_of(s: &str) -> (v: Vec<char>)
    ensures
        v@ == s@,
{
    let mut v: Vec<char> = Vec::new();
    for c in iter: s.chars()
        invariant
            iter.seq() == s@,
            v@ == iter.seq().take(iter.index() as int),
    {
        v.push(c);
        proof {
            assert(v@ =~= iter.seq().take(iter.index() + 1));
        }
    }
    proof {
        assert(v@ =~= s@);
    }
    v
}

/// Whether `c` may stand in the name of a parameter.
fn name_char(c: char) -> (ok: bool)
    ensures
        ok == is_name_char(c),
{
    ('a' <= c && c <= 'z') || ('A' <= c && c <= 'Z') || ('0' <= c && c <= '9') || c == '_'
}

/// Whether `c` stands for itself.
fn raw_char(c: char) -> (ok: bool)
    ensures
        ok == is_raw_char(c),
{
    c != '\\' && c != '+' && c != '*' && c != '?' && c != '(' && c != ')' && c != '|' && c != '['
        && c != ']' && c != '{' && c != '}' && c != '^' && c != '$' && c != '#' && c != '&' && c
        != '~'
}

/// The first place at or after `from` where `c` stands in `s`.
fn find_char(s: &Vec<char>, from: usize, c: char) -> (at: usize)
    requires
        from <= s@.len(),
    ensures
        at == next_index(s@, from as int, c),
        from <= at <= s@.len(),
        at < s@.len() ==> s@[at as int] == c,
{
    let mut i: usize = from;
    while i < s.len() && s[i] != c
        invariant
            from <= i <= s@.len(),
            next_index(s@, from as int, c) == next_index(s@, i as int, c),
        decreases s@.len() - i,
    {
        i = i + 1;
    }
    i
}

/// Whether every character of `s[from..to]` stands for itself.
fn check_raw(s: &Vec<char>, from: usize, to: usize) -> (ok: bool)
    requires
        from <= to <= s@.len(),
    ensures
        ok == is_raw(s@.subrange(from as int, to as int)),
{
    let ghost text = s@.subrange(from as int, to as int);
    let mut k: usize = from;
    while k < to
        invariant
            from <= k <= to <= s@.len(),
            text == s@.subrange(from as int, to as int),
            forall|i: int| 0 <= i < k - from ==> is_raw_char(#[trigger] text[i]),
        decreases to - k,
    {
        if !raw_char(s[k]) {
            assert(text[k - from] == s@[k as int]);
            return false;
        }
        assert(text[k - from] == s@[k as int]);
        k = k + 1;
    }
    true
}

/// Whether `s[from..to]` is the name of a parameter.
fn check_name(s: &Vec<char>, from: usize, to: usize) -> (ok: bool)
    requires
        from <= to <= s@.len(),
    ensures
        ok == is_name(s@.subrange(from as int, to as int)),
{
    let ghost name = s@.subrange(from as int, to as int);
    if from == to {
        return false;
    }
    assert(name[0] == s@[from as int]);
    if '0' <= s[from] && s[from] <= '9' {
        return false;
    }
    let mut k: usize = from;
    while k < to
        invariant
            from <= k <= to <= s@.len(),
            name == s@.subrange(from as int, to as int),
            forall|i: int| 0 <= i < k - from ==> is_name_char(#[trigger] name[i]),
        decreases to - k,
    {
        if !name_char(s[k]) {
            assert(name[k - from] == s@[k as int]);
            return false;
        }
        assert(name[k - from] == s@[k as int]);
        k = k + 1;
    }
    true
}

/// Whether `s[a..b]` and `s[c..d]` are the same text.
fn same_text(s: &Vec<char>, a: usize, b: usize, c: usize, d: usize) -> (ok: bool)
    requires
        a <= b <= s@.len(),
        c <= d <= s@.len(),
    ensures
        ok == (s@.subrange(a as int, b as int) == s@.subrange(c as int, d as int)),
{
    let ghost x = s@.subrange(a as int, b as int);
    let ghost y = s@.subrange(c as int, d as int);
    if b - a != d - c {
        assert(x.len() != y.len());
        return false;
    }
    let mut k: usize = 0;
    while k < b - a
        invariant
            a <= b <= s@.len(),
            c <= d <= s@.len(),
            b - a == d - c,
            0 <= k <= b - a,
            x == s@.subrange(a as int, b as int),
            y == s@.subrange(c as int, d as int),
            forall|i: int| 0 <= i < k ==> x[i] == y[i],
        decreases b - a - k,
    {
        if s[a + k] != s[c + k] {
            assert(x[k as int] != y[k as int]);
            return false;
        }
        k = k + 1;
    }
    assert(x =~= y);
    true
}

/// The names that stand at the places `seen` of `s`.
pub open spec fn names_at(s: Seq<char>, seen: Seq<(usize, usize)>) -> Seq<Seq<char>> {
    Seq::new(seen.len(), |i: int| s.subrange(seen[i].0 as int, seen[i].1 as int))
}

/// Whether the name `s[from..to]` is one of those at the places `seen`.
fn name_seen(s: &Vec<char>, seen: &Vec<(usize, usize)>, from: usize, to: usize) -> (ok: bool)
    requires
        from <= to <= s@.len(),
        forall|i: int| 0 <= i < seen@.len() ==> (#[trigger] seen@[i]).0 <= seen@[i].1 <= s@.len(),
    ensures
        ok == names_at(s@, seen@).contains(s@.subrange(from as int, to as int)),
{
    let ghost names = names_at(s@, seen@);
    let ghost name = s@.subrange(from as int, to as int);
    let mut k: usize = 0;
    while k < seen.len()
        invariant
            0 <= k <= seen@.len(),
            from <= to <= s@.len(),
            names == names_at(s@, seen@),
            name == s@.subrange(from as int, to as int),
            forall|i: int| 0 <= i < seen@.len() ==> (#[trigger] seen@[i]).0 <= seen@[i].1 <= s@.len(),
            forall|i: int| 0 <= i < k ==> names[i] != name,
        decreases seen@.len() - k,
    {
        let place = seen[k];
        if same_text(s, place.0, place.1, from, to) {
            assert(names[k as int] == name);
            return true;
        }
        assert(names[k as int] != name);
        k = k + 1;
    }
    false
}

/// Whether `s` is a segment with parameters.
fn check_params(s: &Vec<char>, last: bool) -> (ok: bool)
    ensures
        ok == is_params(s@, 0, Seq::empty(), last),
{
    let n: usize = s.len();
    let mut from: usize = 0;
    let mut seen: Vec<(usize, usize)> = Vec::new();
    proof {
        assert(names_at(s@, seen@) =~= Seq::<Seq<char>>::empty());
    }
    loop
        invariant
            n == s@.len(),
            0 <= from <= n,
            forall|i: int| 0 <= i < seen@.len() ==> (#[trigger] seen@[i]).0 <= seen@[i].1 <= s@.len(),
            is_params(s@, 0, Seq::empty(), last) == is_params(
                s@,
                from as int,
                names_at(s@, seen@),
                last,
            ),
        decreases n - from,
    {
        let open = find_char(s, from, '{');
        if open >= n {
            // the text after the last parameter
            if !last {
                return true;
            }
            if n - from == 1 && s[from] == '*' {
                assert(s@.subrange(from as int, n as int) =~= seq!['*']);
                return true;
            }
            proof {
                if s@.subrange(from as int, n as int) == seq!['*'] {
                    assert(s@.subrange(from as int, n as int).len() == 1);
                    assert(s@.subrange(from as int, n as int)[0] == '*');
                }
            }
            return check_raw(s, from, n);
        }
        let close = find_char(s, open + 1, '}');
        if close >= n {
            return false;
        }
        if !check_name(s, open + 1, close) {
            return false;
        }
        if name_seen(s, &seen, open + 1, close) {
            return false;
        }
        let ghost before = names_at(s@, seen@);
        seen.push((open + 1, close));
        proof {
            assert(names_at(s@, seen@) =~= before.push(s@.subrange(open + 1, close as int)));
        }
        from = close + 1;
    }
}

/// Whether `s` is a segment of a pattern; `last` tells whether it ends the
/// pattern.
fn check_segment(s: &Vec<char>, last: bool) -> (ok: bool)
    ensures
        ok == is_segment(s@, last),
{
    let n: usize = s.len();
    let open = find_char(s, 0, '{');
    if open >= n {
        if last && n > 0 && s[n - 1] == '*' {
            return n <= MAX_SEGMENT && check_raw(s, 0, n - 1);
        }
        return true;
    }
    if n > MAX_SEGMENT {
        return false;
    }
    check_params(s, last)
}

/// The characters `p[from..to]`.
fn part(p: &Vec<char>, from: usize, to: usize) -> (v: Vec<char>)
    requires
        from <= to <= p@.len(),
    ensures
        v@ == p@.subrange(from as int, to as int),
{
    let mut v: Vec<char> = Vec::new();
    let mut k: usize = from;
    while k < to
        invariant
            from <= k <= to <= p@.len(),
            v@ == p@.subrange(from as int, k as int),
        decreases to - k,
    {
        v.push(p[k]);
        k = k + 1;
        proof {
            assert(v@ =~= p@.subrange(from as int, k as int));
        }
    }
    v
}

/// Whether `pattern` is a topic pattern.
pub fn check_pattern(pattern: &str) -> (ok: bool)
    ensures
        ok == is_pattern(pattern@),
{
    let p = chars_of(pattern);
    let n: usize = p.len();
    let mut start: usize = 0;
    let mut i: usize = 0;
    while i < n
        invariant
            0 <= start <= i <= n,
            n == p@.len(),
            p@ == pattern@,
            start == 0 || p@[start - 1] == '/',
            forall|k: int| start <= k < i ==> #[trigger] p@[k] != '/',
            forall|from: int, to: int| #[trigger]
                segment_at(p@, from, to) && to < start ==> is_segment(
                    p@.subrange(from, to),
                    to == p@.len(),
                ),
        decreases n - i,
    {
        if p[i] == '/' {
            let segment = part(&p, start, i);
            if !check_segment(&segment, false) {
                assert(segment_at(p@, start as int, i as int));
                return false;
            }
            proof {
                assert forall|from: int, to: int| #[trigger]
                    segment_at(p@, from, to) && to < i + 1 implies is_segment(
                    p@.subrange(from, to),
                    to == p@.len(),
                ) by {
                    if to >= start {
                        lemma_segment_unique(p@, start as int, i as int, from, to);
                    }
                }
            }
            start = i + 1;
        }
        i = i + 1;
    }
    let segment = part(&p, start, n);
    if !check_segment(&segment, true) {
        assert(segment_at(p@, start as int, n as int));
        return false;
    }
    proof {
        assert forall|from: int, to: int| #[trigger] segment_at(p@, from, to) implies is_segment(
            p@.subrange(from, to),
            to == p@.len(),
        ) by {
            if to >= start {
                lemma_segment_unique(p@, start as int, n as int, from, to);
            }
        }
    }
    true
}

/// Two segments of a pattern that overlap or touch are one segment.
proof fn lemma_segment_unique(p: Seq<char>, a: int, b: int, from: int, to: int)
    requires
        segment_at(p, a, b),
        segment_at(p, from, to),
        a <= to <= b,
    ensures
        from == a,
        to == b,
{
    if to < b {
        assert(p[to] == '/');
    }
    if from < a {
        assert(p[a - 1] == '/');
    }
    if from > a {
        assert(p[from - 1] == '/');
    }
}

} // verus!
