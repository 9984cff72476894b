//! Copies of strings and of lists of strings, with their content stated.
use vstd::prelude::*;

verus! {

/// Copies a list of strings.
pub fn copy_strings(list: &Vec<String>) -> (copy: Vec<String>)
    ensures
        copy.deep_view() == list.deep_view(),
{
    let mut copy: Vec<String> = Vec::new();
    let mut i: usize = 0;
    while i < list.len()
        invariant
            i <= list.len(),
            copy.len() == i,
            forall|j: int| 0 <= j < i ==> copy[j]@ == list[j]@,
        decreases list.len() - i,
    {
        copy.push(list[i].clone());
        i = i + 1;
    }
    assert(copy.deep_view() =~= list.deep_view());
    copy
}

/// Copies a string that may be absent.
pub fn copy_text(text: &Option<String>) -> (copy: Option<String>)
    ensures
        copy.deep_view() == text.deep_view(),
{
    match text {
        Some(text) => Some(text.clone()),
        None => None,
    }
}

/// The string, or `default` where it is absent.
pub open spec fn text_or_view(text: Option<Seq<char>>, default: Seq<char>) -> Seq<char> {
    match text {
        Some(text) => text,
        None => default,
    }
}

/// The string, or `default` where it is absent.
pub fn text_or(text: &Option<String>, default: &str) -> (chosen: String)
    ensures
        chosen@ == text_or_view(text.deep_view(), default@),
{
    match text {
        Some(text) => text.clone(),
        None => default.to_owned(),
    }
}

/// Copies a list of pairs of strings.
pub fn copy_pairs(list: &Vec<(String, String)>) -> (copy: Vec<(String, String)>)
    ensures
        copy.deep_view() == list.deep_view(),
{
    let mut copy: Vec<(String, String)> = Vec::new();
    let mut i: usize = 0;
    while i < list.len()
        invariant
            i <= list.len(),
            copy.len() == i,
            forall|j: int| 0 <= j < i ==> copy[j].deep_view() == list[j].deep_view(),
        decreases list.len() - i,
    {
        let pair = &list[i];
        copy.push((pair.0.clone(), pair.1.clone()));
        i = i + 1;
    }
    assert(copy.deep_view() =~= list.deep_view());
    copy
}

/// Copies a list of pairs of strings that may be absent.
pub fn copy_entries(entries: &Option<Vec<(String, String)>>) -> (copy: Option<
    Vec<(String, String)>,
>)
    ensures
        copy.deep_view() == entries.deep_view(),
{
    match entries {
        Some(list) => Some(copy_pairs(list)),
        None => None,
    }
}

} // verus!
