//! Names of the per-thread files.
//!
//! A thread's file is named by the caller's prefix followed by the thread's
//! label, from which every character is taken out that is neither
//! alphanumeric nor `-` nor `_`. Two labels that differ only in such
//! characters (`worker-1` and `worker-1!`) give the same file name, and the
//! two threads then write to one file: nothing here tells them apart.

use vstd::prelude::*;

verus! {

/// Whether a character is alphanumeric in Unicode's sense, as
/// `char::is_alphanumeric` decides it.
pub uninterp spec fn alphanumeric(c: char) -> bool;

/// `char::is_alphanumeric`: a function of the character alone.
pub assume_specification[ char::is_alphanumeric ](c: char) -> (yes: bool)
    ensures
        yes == alphanumeric(c),
;

/// `String::push`: appends the character to the end of the string.
pub assume_specification[ String::push ](text: &mut String, c: char)
    ensures
        final(text)@ == old(text)@.push(c),
;

/// Whether a character of a thread's label stays in the file name.
pub open spec fn kept(c: char) -> bool {
    alphanumeric(c) || c == '-' || c == '_'
}

/// A label without the characters that are not kept.
pub open spec fn sanitized(label: Seq<char>) -> Seq<char> {
    label.filter(|c: char| kept(c))
}

/// The text of a string that may be absent.
pub open spec fn text_of(text: Option<&str>) -> Option<Seq<char>> {
    match text {
        Some(text) => Some(text@),
        None => None,
    }
}

/// What a thread is called: its name where it has one, else the rendering
/// of its numeric identity.
pub open spec fn thread_label(name: Option<Seq<char>>, id: Seq<char>) -> Seq<char> {
    match name {
        Some(name) => name,
        None => id,
    }
}

/// Takes out of `label` every character that is not kept.
pub fn sanitize(label: &str) -> (clean: String)
    ensures
        clean@ == sanitized(label@),
{
    let mut clean = String::new();
    for c in it: label.chars()
        invariant
            it.seq() == label@,
            clean@ == sanitized(label@.take(it.index())),
    {
        proof {
            let seen = label@.take(it.index() + 1);
            assert(seen.drop_last() =~= label@.take(it.index()));
            reveal(Seq::filter);
        }
        if c.is_alphanumeric() || c == '-' || c == '_' {
            clean.push(c);
        }
    }
    proof {
        assert(label@.take(label@.len() as int) =~= label@);
    }
    clean
}

/// The name of a thread's file: the prefix, then the sanitized label.
pub open spec fn file_name_of(
    prefix: Seq<char>,
    name: Option<Seq<char>>,
    id: Seq<char>,
) -> Seq<char> {
    prefix + sanitized(thread_label(name, id))
}

/// Every character of a sanitized label is kept, and sanitizing it again
/// changes nothing.
pub proof fn lemma_sanitized_is_clean(label: Seq<char>)
    ensures
        forall|i: int| 0 <= i < sanitized(label).len() ==> kept(#[trigger] sanitized(label)[i]),
        sanitized(sanitized(label)) == sanitized(label),
    decreases label.len(),
{
    reveal(Seq::filter);
    if label.len() > 0 {
        let front = label.drop_last();
        lemma_sanitized_is_clean(front);
        if kept(label.last()) {
            let clean = sanitized(front).push(label.last());
            assert(clean.drop_last() =~= sanitized(front));
        }
    }
}

/// Computes the name of the file of a thread called `thread_name`, or
/// `thread_id` where it has no name, under `prefix`.
///
/// Labels that are equal once sanitized share a file name.
pub fn file_name(prefix: &str, thread_name: Option<&str>, thread_id: &str) -> (path: String)
    ensures
        path@ == file_name_of(prefix@, text_of(thread_name), thread_id@),
        prefix@.is_prefix_of(path@),
        forall|i: int| prefix@.len() <= i < path@.len() ==> kept(#[trigger] path@[i]),
{
    let label = match thread_name {
        Some(name) => name,
        None => thread_id,
    };
    let clean = sanitize(label);
    proof {
        lemma_sanitized_is_clean(label@);
    }
    prefix.to_owned().concat(clean.as_str())
}

} // verus!
