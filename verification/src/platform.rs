//! Recognising the platform from its identification string.
//!
//! One mobile browser shifts the viewport when its virtual keyboard opens, and
//! the proxy control has to be anchored differently there. It is recognised
//! by the tokens that its identification string carries. The test is a
//! heuristic, kept apart from everything else so that it can be replaced.

use vstd::prelude::*;

verus! {

/// Whether `needle` occurs in `hay` starting at position `i`.
pub open spec fn occurs_at(needle: Seq<char>, hay: Seq<char>, i: int) -> bool {
    &&& 0 <= i
    &&& i + needle.len() <= hay.len()
    &&& hay.subrange(i, i + needle.len()) == needle
}

/// Whether `needle` occurs in `hay` as a run of consecutive characters.
pub open spec fn occurs_in(needle: Seq<char>, hay: Seq<char>) -> bool {
    exists|i: int| occurs_at(needle, hay, i)
}

/// Whether the string names one of the mobile device families.
pub open spec fn names_mobile_device(user_agent: Seq<char>) -> bool {
    ||| occurs_in("iPhone"@, user_agent)
    ||| occurs_in("iPad"@, user_agent)
    ||| occurs_in("iPod"@, user_agent)
}

/// Whether the string names the browser.
pub open spec fn names_safari(user_agent: Seq<char>) -> bool {
    occurs_in("Safari"@, user_agent)
}

/// Whether an identification string is that of the mobile browser: it names
/// a device family and the browser, both.
pub open spec fn mobile_safari_agent(user_agent: Seq<char>) -> bool {
    names_mobile_device(user_agent) && names_safari(user_agent)
}

/// The same for a string that may not have been readable: an unreadable one
/// is no match.
pub open spec fn mobile_safari(user_agent: Option<&str>) -> bool {
    match user_agent {
        Some(s) => mobile_safari_agent(s@),
        None => false,
    }
}

/// The characters of a string.
fn chars_of(s: &str) -> (v: Vec<char>)
    ensures
        v@ == s@,
{
    let mut v: Vec<char> = Vec::new();
    for c in it: s.chars()
        invariant
            it.seq() == s@,
            v@ == it.seq().take(it.index() as int),
    {
        v.push(c);
    }
    v
}

/// Compares `needle` with the characters of `hay` from position `i` on.
fn matches_at(needle: &Vec<char>, hay: &Vec<char>, i: usize) -> (r: bool)
    requires
        i + needle.len() <= hay.len(),
    ensures
        r == occurs_at(needle@, hay@, i as int),
{
    let n = needle.len();
    let mut j: usize = 0;
    while j < n
        invariant
            n == needle.len(),
            j <= n,
            i + n <= hay.len(),
            forall|k: int| 0 <= k < j ==> hay@[i + k] == needle@[k],
        decreases n - j,
    {
        if hay[i + j] != needle[j] {
            assert(hay@.subrange(i as int, i + n)[j as int] != needle@[j as int]);
            return false;
        }
        j += 1;
    }
    assert(hay@.subrange(i as int, i + n) =~= needle@);
    true
}

/// Searches `hay` for `needle`, position by position.
fn occurs(needle: &Vec<char>, hay: &Vec<char>) -> (r: bool)
    ensures
        r == occurs_in(needle@, hay@),
{
    let n = needle.len();
    let h = hay.len();
    if n > h {
        return false;
    }
    let last = h - n;
    let mut i: usize = 0;
    loop
        invariant
            n == needle.len(),
            h == hay.len(),
            n <= h,
            last == h - n,
            i <= last,
            forall|k: int| 0 <= k < i ==> !occurs_at(needle@, hay@, k),
        decreases last - i,
    {
        if matches_at(needle, hay, i) {
            return true;
        }
        if i == last {
            return false;
        }
        i += 1;
    }
}

/// Whether `token` occurs in `text`.
pub fn contains_token(text: &str, token: &str) -> (r: bool)
    ensures
        r == occurs_in(token@, text@),
{
    let hay = chars_of(text);
    let needle = chars_of(token);
    occurs(&needle, &hay)
}

/// Whether the application is likely running on a mobile device in Safari,
/// judged by the identification string that the platform reported, if it
/// reported one.
pub fn is_mobile_safari(user_agent: Option<&str>) -> (r: bool)
    ensures
        r == mobile_safari(user_agent),
        user_agent is None ==> !r,
        user_agent matches Some(s) ==> (r <==> names_mobile_device(s@) && names_safari(s@)),
{
    match user_agent {
        None => false,
        Some(s) => {
            let hay = chars_of(s);
            let is_ios = occurs(&chars_of("iPhone"), &hay) || occurs(&chars_of("iPad"), &hay)
                || occurs(&chars_of("iPod"), &hay);
            let is_safari = occurs(&chars_of("Safari"), &hay);
            is_ios && is_safari
        },
    }
}

} // verus!
