//! Character-level text utilities: substring search, splitting into fields,
//! whitespace trimming and removal of enclosing brackets, each stated over `Seq<char>`.
use vstd::prelude::*;
use vstd::std_specs::iter::IteratorSpec;

verus! {

broadcast use vstd::string::group_string_axioms;

/// `p` occurs in `s` starting at index `i`.
pub open spec fn occurs_at(s: Seq<char>, p: Seq<char>, i: int) -> bool {
    0 <= i && i + p.len() <= s.len() && s.subrange(i, i + p.len()) == p
}

/// The first index at or after `i` where `p` occurs in `s`.
pub open spec fn find_from(s: Seq<char>, p: Seq<char>, i: int) -> Option<int>
    decreases s.len() + 1 - i,
{
    if i < 0 || i + p.len() > s.len() {
        None
    } else if s.subrange(i, i + p.len()) == p {
        Some(i)
    } else {
        find_from(s, p, i + 1)
    }
}

/// The first index where `p` occurs in `s`.
pub open spec fn find(s: Seq<char>, p: Seq<char>) -> Option<int> {
    find_from(s, p, 0)
}

pub open spec fn contains(s: Seq<char>, p: Seq<char>) -> bool {
    find(s, p) is Some
}

/// The text of `s` before the first occurrence of `p`, or all of `s`:
/// the first field when `s` is split on `p`.
pub open spec fn field_first(s: Seq<char>, p: Seq<char>) -> Seq<char> {
    match find(s, p) {
        Some(k) => s.subrange(0, k),
        None => s,
    }
}

/// The text of `s` between the first and the second occurrence of `p`
/// (or the end of `s`): the second field when `s` is split on `p`.
/// `None` when `p` does not occur.
pub open spec fn field_second(s: Seq<char>, p: Seq<char>) -> Option<Seq<char>> {
    match find(s, p) {
        Some(k) => {
            let start = k + p.len();
            match find_from(s, p, start) {
                Some(m) => Some(s.subrange(start, m)),
                None => Some(s.subrange(start, s.len() as int)),
            }
        },
        None => None,
    }
}

/// Unicode white space, as `char::is_whitespace` defines it.
pub open spec fn is_space(c: char) -> bool {
    let u = c as u32;
    (0x09 <= u && u <= 0x0d) || u == 0x20 || u == 0x85 || u == 0xa0 || u == 0x1680 || (0x2000
        <= u && u <= 0x200a) || u == 0x2028 || u == 0x2029 || u == 0x202f || u == 0x205f || u
        == 0x3000
}

pub open spec fn trim_start(s: Seq<char>) -> Seq<char>
    decreases s.len(),
{
    if s.len() > 0 && is_space(s[0]) {
        trim_start(s.drop_first())
    } else {
        s
    }
}

pub open spec fn trim_end(s: Seq<char>) -> Seq<char>
    decreases s.len(),
{
    if s.len() > 0 && is_space(s.last()) {
        trim_end(s.drop_last())
    } else {
        s
    }
}

/// `s` without leading and trailing white space.
pub open spec fn trim(s: Seq<char>) -> Seq<char> {
    trim_end(trim_start(s))
}

/// `s` without a leading `[` and without a trailing `]`, where present.
pub open spec fn unbracket(s: Seq<char>) -> Seq<char> {
    let a = if s.len() > 0 && s[0] == '[' { 1int } else { 0int };
    let b = if s.len() > a && s.last() == ']' { s.len() - 1 } else { s.len() as int };
    s.subrange(a, b)
}

/// The text of `s` between the first and the second occurrence of `p`;
/// `None` unless `p` occurs twice.
pub open spec fn field_enclosed(s: Seq<char>, p: Seq<char>) -> Option<Seq<char>> {
    match find(s, p) {
        Some(k) => match find_from(s, p, k + p.len()) {
            Some(m) => Some(s.subrange(k + p.len(), m)),
            None => None,
        },
        None => None,
    }
}

/// The characters of `s`, in order.
pub(crate) fn chars_of(s: &str) -> (r: Vec<char>)
    ensures
        r@ == s@,
{
    let mut it = s.chars();
    let mut r: Vec<char> = Vec::new();
    loop
        invariant
            r@ + IteratorSpec::remaining(&it) == s@,
            IteratorSpec::decrease(&it) is Some,
        ensures
            r@ == s@,
        decreases IteratorSpec::decrease(&it)->0,
    {
        let ghost before = IteratorSpec::remaining(&it);
        match it.next() {
            Some(c) => {
                r.push(c);
                assert(r@ + IteratorSpec::remaining(&it) =~= s@) by {
                    assert(before == seq![c] + before.drop_first());
                }
            },
            None => {
                assert(r@ =~= s@);
                break ;
            },
        }
    }
    r
}

/// Relies on `String: FromIterator<&char>`: the string made of `v`'s characters, in order.
#[verifier::external_body]
pub(crate) fn string_of(v: &Vec<char>) -> (r: String)
    ensures
        r@ == v@,
{
    v.iter().collect()
}

/// Whether `p` occurs in `s` at index `i`.
fn matches_at(s: &Vec<char>, p: &Vec<char>, i: usize) -> (r: bool)
    requires
        i + p@.len() <= s@.len(),
    ensures
        r == (s@.subrange(i as int, i + p@.len()) == p@),
{
    let n = s.len();
    let mut j: usize = 0;
    while j < p.len()
        invariant
            n == s@.len(),
            j <= p@.len(),
            i + p@.len() <= s@.len(),
            forall|k: int| 0 <= k < j ==> s@[i + k] == p@[k],
        decreases p@.len() - j,
    {
        if s[i + j] != p[j] {
            assert(s@.subrange(i as int, i + p@.len())[j as int] != p@[j as int]);
            return false;
        }
        j = j + 1;
    }
    assert(s@.subrange(i as int, i + p@.len()) =~= p@);
    true
}

/// The first index at or after `start` where `p` occurs in `s`.
pub fn find_exec(s: &Vec<char>, p: &Vec<char>, start: usize) -> (r: Option<usize>)
    ensures
        r matches Some(k) ==> find_from(s@, p@, start as int) == Some(k as int),
        r is None ==> find_from(s@, p@, start as int) is None,
{
    if p.len() == 0 {
        if start <= s.len() {
            assert(s@.subrange(start as int, start as int) =~= p@);
            return Some(start);
        }
        return None;
    }
    let mut i: usize = start;
    while i <= s.len() && p.len() <= s.len() - i
        invariant
            start <= i,
            p@.len() > 0,
            find_from(s@, p@, start as int) == find_from(s@, p@, i as int),
        decreases s@.len() - i,
    {
        if matches_at(s, p, i) {
            return Some(i);
        }
        i = i + 1;
    }
    None
}

/// The characters of `s` from `a` up to `b`.
pub fn slice(s: &Vec<char>, a: usize, b: usize) -> (r: Vec<char>)
    requires
        a <= b <= s@.len(),
    ensures
        r@ == s@.subrange(a as int, b as int),
{
    let mut r: Vec<char> = Vec::new();
    let mut i: usize = a;
    while i < b
        invariant
            a <= i <= b <= s@.len(),
            r@ == s@.subrange(a as int, i as int),
        decreases b - i,
    {
        r.push(s[i]);
        assert(r@ =~= s@.subrange(a as int, i + 1));
        i = i + 1;
    }
    r
}

/// The first field of `s` split on `p`.
pub fn first_field(s: &Vec<char>, p: &Vec<char>) -> (r: Vec<char>)
    ensures
        r@ == field_first(s@, p@),
{
    match find_exec(s, p, 0) {
        Some(k) => {
            proof {
                lemma_find_from_occurs(s@, p@, 0);
            }
            slice(s, 0, k)
        },
        None => slice(s, 0, s.len()),
    }
}

/// The second field of `s` split on `p`, if `p` occurs.
pub fn second_field(s: &Vec<char>, p: &Vec<char>) -> (r: Option<Vec<char>>)
    ensures
        r matches Some(v) ==> field_second(s@, p@) == Some(v@),
        r is None ==> field_second(s@, p@) is None,
{
    match find_exec(s, p, 0) {
        Some(k) => {
            let n = s.len();
            assert(occurs_at(s@, p@, k as int)) by {
                lemma_find_from_occurs(s@, p@, 0);
            }
            let start = k + p.len();
            match find_exec(s, p, start) {
                Some(m) => {
                    assert(occurs_at(s@, p@, m as int) && start <= m) by {
                        lemma_find_from_occurs(s@, p@, start as int);
                    }
                    Some(slice(s, start, m))
                },
                None => Some(slice(s, start, s.len())),
            }
        },
        None => None,
    }
}

/// What `find_from` returns is an occurrence at or after where the search began.
pub proof fn lemma_find_from_occurs(s: Seq<char>, p: Seq<char>, i: int)
    ensures
        find_from(s, p, i) matches Some(k) ==> i <= k && occurs_at(s, p, k),
    decreases s.len() + 1 - i,
{
    if i < 0 || i + p.len() > s.len() {
    } else if s.subrange(i, i + p.len()) == p {
    } else {
        lemma_find_from_occurs(s, p, i + 1);
    }
}

/// Whether `c` is white space.
pub fn is_space_exec(c: char) -> (r: bool)
    ensures
        r == is_space(c),
{
    let u = c as u32;
    (0x09 <= u && u <= 0x0d) || u == 0x20 || u == 0x85 || u == 0xa0 || u == 0x1680 || (0x2000
        <= u && u <= 0x200a) || u == 0x2028 || u == 0x2029 || u == 0x202f || u == 0x205f || u
        == 0x3000
}

/// `s` without leading and trailing white space.
pub fn trim_exec(s: &Vec<char>) -> (r: Vec<char>)
    ensures
        r@ == trim(s@),
{
    let n = s.len();
    assert(s@.subrange(0, n as int) =~= s@);
    let mut a: usize = 0;
    while a < n && is_space_exec(s[a])
        invariant
            a <= n == s@.len(),
            trim_start(s@) == trim_start(s@.subrange(a as int, n as int)),
        decreases n - a,
    {
        assert(s@.subrange(a as int, n as int).drop_first() =~= s@.subrange(a + 1, n as int));
        a = a + 1;
    }
    assert(trim_start(s@) == s@.subrange(a as int, n as int));
    let mut b: usize = n;
    while b > a && is_space_exec(s[b - 1])
        invariant
            a <= b <= n == s@.len(),
            trim(s@) == trim_end(s@.subrange(a as int, b as int)),
        decreases b,
    {
        assert(s@.subrange(a as int, b as int).drop_last() =~= s@.subrange(a as int, b - 1));
        b = b - 1;
    }
    slice(s, a, b)
}

/// `s` without a leading `[` and without a trailing `]`, where present.
pub fn unbracket_exec(s: &Vec<char>) -> (r: Vec<char>)
    ensures
        r@ == unbracket(s@),
{
    let n = s.len();
    let a: usize = if n > 0 && s[0] == '[' { 1 } else { 0 };
    let b: usize = if n > a && s[n - 1] == ']' { n - 1 } else { n };
    slice(s, a, b)
}

/// The text of `s` between the first and the second occurrence of `p`, if
/// `p` occurs twice.
pub fn enclosed_field(s: &Vec<char>, p: &Vec<char>) -> (r: Option<Vec<char>>)
    ensures
        r matches Some(v) ==> field_enclosed(s@, p@) == Some(v@),
        r is None ==> field_enclosed(s@, p@) is None,
{
    match find_exec(s, p, 0) {
        Some(k) => {
            let n = s.len();
            assert(occurs_at(s@, p@, k as int)) by {
                lemma_find_from_occurs(s@, p@, 0);
            }
            let start = k + p.len();
            match find_exec(s, p, start) {
                Some(m) => {
                    assert(occurs_at(s@, p@, m as int) && start <= m) by {
                        lemma_find_from_occurs(s@, p@, start as int);
                    }
                    Some(slice(s, start, m))
                },
                None => None,
            }
        },
        None => None,
    }
}

} // verus!
