//! Small string routines, with their meaning over sequences of characters.

use vstd::prelude::*;

verus! {

/// `String::push` appends one character to the end of the string.
pub assume_specification[ String::push ](s: &mut String, c: char)
    ensures
        final(s)@ == old(s)@.push(c),
;

/// The upper-case form of an ASCII letter; any other character stays as it is.
pub open spec fn upper_char(c: char) -> char {
    if 'a' <= c <= 'z' {
        ((c as u8) - 32) as u8 as char
    } else {
        c
    }
}

/// A word with its ASCII letters in upper case.
pub open spec fn upper(s: Seq<char>) -> Seq<char> {
    s.map_values(|c: char| upper_char(c))
}

/// Two words that differ in the case of ASCII letters at most.
pub open spec fn same_word(a: Seq<char>, b: Seq<char>) -> bool {
    upper(a) == upper(b)
}

/// A word in upper case stays as it is.
pub proof fn law_upper_twice(s: Seq<char>)
    ensures
        upper(upper(s)) == upper(s),
{
    assert(upper(upper(s)) =~= upper(s));
}

/// The upper-case form of a word has its letters in their places: each small ASCII letter becomes
/// the capital one, which stands 32 places before it, and no other character changes.
pub proof fn law_upper_letters(s: Seq<char>, i: int)
    requires
        0 <= i < s.len(),
    ensures
        upper(s).len() == s.len(),
        'a' <= s[i] <= 'z' ==> upper(s)[i] as int == s[i] as int - 32,
        !('a' <= s[i] <= 'z') ==> upper(s)[i] == s[i],
        same_word(s, upper(s)),
{
    law_upper_twice(s);
}

/// The characters of a string, in order.
pub fn chars_of(s: &str) -> (v: Vec<char>)
    ensures
        v@ == s@,
{
    let mut v: Vec<char> = Vec::new();
    let mut it = s.chars();
    loop
        invariant
            s@ == v@ + vstd::std_specs::iter::IteratorSpec::remaining(&it),
            vstd::std_specs::iter::IteratorSpec::decrease(&it) is Some,
        ensures
            v@ == s@,
        decreases vstd::std_specs::iter::IteratorSpec::decrease(&it)->0,
    {
        match it.next() {
            Some(c) => {
                v.push(c);
            },
            None => {
                break;
            },
        }
    }
    v
}

/// Whether two strings hold the same characters.
pub fn str_eq(a: &str, b: &str) -> (r: bool)
    ensures
        r == (a@ == b@),
{
    let mut ia = a.chars();
    let mut ib = b.chars();
    let ghost mut done: Seq<char> = Seq::empty();
    loop
        invariant
            a@ == done + vstd::std_specs::iter::IteratorSpec::remaining(&ia),
            b@ == done + vstd::std_specs::iter::IteratorSpec::remaining(&ib),
            vstd::std_specs::iter::IteratorSpec::decrease(&ia) is Some,
        decreases vstd::std_specs::iter::IteratorSpec::decrease(&ia)->0,
    {
        let x = ia.next();
        let y = ib.next();
        match (x, y) {
            (Some(c), Some(d)) => {
                if c != d {
                    assert(a@[done.len() as int] == c);
                    assert(b@[done.len() as int] == d);
                    return false;
                }
                proof {
                    done = done.push(c);
                }
            },
            (None, None) => {
                return true;
            },
            (Some(_), None) => {
                assert(a@.len() > b@.len());
                return false;
            },
            (None, Some(_)) => {
                assert(a@.len() < b@.len());
                return false;
            },
        }
    }
}

/// The upper-case form of one character.
pub fn to_upper_char(c: char) -> (r: char)
    ensures
        r == upper_char(c),
{
    if 'a' <= c && c <= 'z' {
        ((c as u8) - 32) as char
    } else {
        c
    }
}

/// A string with its ASCII letters in upper case.
pub fn to_upper(s: &str) -> (r: String)
    ensures
        r@ == upper(s@),
{
    let v = chars_of(s);
    let mut r = String::new();
    for i in 0..v.len()
        invariant
            v@ == s@,
            r@ == upper(s@.take(i as int)),
    {
        r.push(to_upper_char(v[i]));
        assert(s@.take(i + 1) == s@.take(i as int).push(s@[i as int]));
    }
    assert(s@.take(s@.len() as int) == s@);
    r
}

/// Whether two strings are the same word, the case of ASCII letters aside.
pub fn eq_ignore_case(a: &str, b: &str) -> (r: bool)
    ensures
        r == same_word(a@, b@),
{
    let x = to_upper(a);
    let y = to_upper(b);
    str_eq(x.as_str(), y.as_str())
}

/// Whether a run of characters stands at a place of a text.
pub open spec fn stands_at(s: Seq<char>, i: nat, w: Seq<char>) -> bool {
    i + w.len() <= s.len() && s.subrange(i as int, (i + w.len()) as int) == w
}

/// Whether a run of characters stands anywhere in a text.
pub open spec fn stands_in(s: Seq<char>, w: Seq<char>) -> bool {
    exists|i: nat| stands_at(s, i, w)
}

/// Whether a run of characters stands at a place of a text.
pub fn is_at(s: &Vec<char>, i: usize, w: &Vec<char>) -> (r: bool)
    ensures
        r == stands_at(s@, i as nat, w@),
{
    if i > s.len() || s.len() - i < w.len() {
        return false;
    }
    for k in 0..w.len()
        invariant
            i + w.len() <= s.len(),
            forall|j: int| 0 <= j < k ==> s@[i + j] == w@[j],
    {
        if s[i + k] != w[k] {
            assert(s@.subrange(i as int, i + w.len())[k as int] != w@[k as int]);
            return false;
        }
    }
    assert(s@.subrange(i as int, i + w.len()) =~= w@);
    true
}

/// Whether a run of characters stands anywhere in a text.
pub fn is_in(s: &Vec<char>, w: &Vec<char>) -> (r: bool)
    ensures
        r == stands_in(s@, w@),
{
    let mut i: usize = 0;
    while i < s.len()
        invariant
            i <= s.len(),
            forall|j: nat| j < i ==> !stands_at(s@, j, w@),
        decreases s.len() - i,
    {
        if is_at(s, i, w) {
            return true;
        }
        i = i + 1;
    }
    is_at(s, i, w)
}

/// The string made of a run of characters.
pub fn string_of(v: &Vec<char>, from: usize, to: usize) -> (r: String)
    requires
        from <= to <= v.len(),
    ensures
        r@ == v@.subrange(from as int, to as int),
{
    let mut r = String::new();
    for i in from..to
        invariant
            to <= v@.len(),
            from <= to,
            r@ == v@.subrange(from as int, i as int),
    {
        r.push(v[i]);
        assert(v@.subrange(from as int, i + 1) == v@.subrange(from as int, i as int).push(
            v@[i as int],
        ));
    }
    r
}

} // verus!
