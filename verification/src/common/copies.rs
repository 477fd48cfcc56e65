//! Copies of strings, lists of strings and maps, and how the view of a list
//! grows when the list does.

use crate::common::string_map::StringMap;
use vstd::prelude::*;

verus! {

/// Pushing an element onto a list pushes its view onto the view of the list.
pub proof fn lemma_deep_view_push<T: DeepView>(before: Vec<T>, after: Vec<T>, last: T)
    requires
        after@ == before@.push(last),
    ensures
        after.deep_view() == before.deep_view().push(last.deep_view()),
{
    assert(after.deep_view() =~= before.deep_view().push(last.deep_view()));
}

/// A prefix of a sequence, extended by the element that follows it, is the
/// prefix that is longer by one.
pub proof fn lemma_take_next<A>(s: Seq<A>, n: int)
    requires
        0 <= n < s.len(),
    ensures
        s.take(n + 1) == s.take(n).push(s[n]),
        s.take(n + 1).drop_last() == s.take(n),
        s.take(n + 1).last() == s[n],
{
    assert(s.take(n + 1) =~= s.take(n).push(s[n]));
    assert(s.take(n + 1).drop_last() =~= s.take(n));
}

/// A copy of an optional string.
pub fn copy_opt_string(source: &Option<String>) -> (copy: Option<String>)
    ensures
        copy.deep_view() == source.deep_view(),
{
    match source {
        Some(text) => Some(text.clone()),
        None => None,
    }
}

/// A copy of a list of strings.
pub fn copy_strings(source: &Vec<String>) -> (copy: Vec<String>)
    ensures
        copy.deep_view() == source.deep_view(),
{
    let mut copy: Vec<String> = Vec::new();
    let mut i: usize = 0;
    while i < source.len()
        invariant
            i <= source.len(),
            copy.len() == i,
            forall|j: int| 0 <= j < i ==> copy[j]@ == source[j]@,
        decreases source.len() - i,
    {
        copy.push(source[i].clone());
        i += 1;
    }
    assert(copy.deep_view() =~= source.deep_view());
    copy
}

/// A copy of an optional list of strings.
pub fn copy_opt_strings(source: &Option<Vec<String>>) -> (copy: Option<Vec<String>>)
    ensures
        copy.deep_view() == source.deep_view(),
{
    match source {
        Some(list) => Some(copy_strings(list)),
        None => None,
    }
}

/// A copy of an optional map.
pub fn copy_opt_map(source: &Option<StringMap>) -> (copy: Option<StringMap>)
    ensures
        copy.deep_view() == source.deep_view(),
{
    match source {
        Some(map) => Some(map.clone()),
        None => None,
    }
}

} // verus!
