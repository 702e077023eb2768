//! Writing titles and descriptions into snapshots.
use vstd::prelude::*;

use crate::snapshot::{has_key, ItemKind, ItemValue, Snapshot};
use crate::{opt_str_view, Descriptive};

verus! {

/// Pushing an element makes a sequence one longer. The solver does not find
/// this by itself for sequences of boxed trait objects; instantiating this
/// lemma at such a type gives it.
pub proof fn lemma_push_len<A>(s: Seq<A>, a: A)
    ensures
        s.push(a).len() == s.len() + 1,
{
}

/// Removing the first element of a sequence shifts the others forward.
/// Like `lemma_push_len`, for sequences of boxed trait objects.
pub proof fn lemma_remove_first<A>(s: Seq<A>)
    requires
        s.len() > 0,
    ensures
        s.remove(0).len() == s.len() - 1,
        forall|k: int| 0 <= k < s.len() - 1 ==> s.remove(0)[k] == s[k + 1],
{
}

/// `a + b`, or `usize::MAX` where the sum does not fit.
pub open spec fn saturating_usize_add(a: usize, b: usize) -> usize {
    if a + b <= usize::MAX {
        (a + b) as usize
    } else {
        usize::MAX
    }
}

/// The numbers `s` added up in order, each sum cut at `usize::MAX`.
pub open spec fn saturating_total(s: Seq<usize>) -> usize
    decreases s.len(),
{
    if s.len() == 0 {
        0
    } else {
        saturating_usize_add(saturating_total(s.drop_last()), s.last())
    }
}

/// `v` with the entry `key` -> `text` appended, unless there is no text or
/// `v` already has an entry with that key.
pub open spec fn with_text_if_absent(
    v: Seq<(Seq<char>, ItemValue)>,
    key: Seq<char>,
    text: Option<Seq<char>>,
) -> Seq<(Seq<char>, ItemValue)> {
    match text {
        Some(t) => if has_key(v, key) {
            v
        } else {
            v.push((key, ItemValue::Text(t)))
        },
        None => v,
    }
}

/// `v` with a title under `title_key` and a description under
/// `description_key` where each is given and its key is not taken yet.
pub open spec fn with_descriptives(
    v: Seq<(Seq<char>, ItemValue)>,
    title_key: Seq<char>,
    description_key: Seq<char>,
    title: Option<Seq<char>>,
    description: Option<Seq<char>>,
) -> Seq<(Seq<char>, ItemValue)> {
    with_text_if_absent(with_text_if_absent(v, title_key, title), description_key, description)
}

/// The key under which the title of an item called `name` is written: the
/// name followed by `_title`.
pub open spec fn postfixed_title_key(name: Seq<char>) -> Seq<char> {
    name + "_title"@
}

/// The key under which the description of an item called `name` is
/// written: the name followed by `_description`.
pub open spec fn postfixed_description_key(name: Seq<char>) -> Seq<char> {
    name + "_description"@
}

/// `v` after an instrument called `name` put its title and description
/// into it (only where `descriptive` is set).
pub open spec fn instrument_descriptives(
    v: Seq<(Seq<char>, ItemValue)>,
    name: Seq<char>,
    title: Option<Seq<char>>,
    description: Option<Seq<char>>,
    descriptive: bool,
) -> Seq<(Seq<char>, ItemValue)> {
    if descriptive {
        with_descriptives(
            v,
            postfixed_title_key(name),
            postfixed_description_key(name),
            title,
            description,
        )
    } else {
        v
    }
}

/// Appends `key` -> `text` unless `into` has an entry with that key.
fn put_text_if_absent(key: String, text: Option<&str>, into: &mut Snapshot)
    ensures
        final(into)@ == with_text_if_absent(old(into)@, key@, opt_str_view(text)),
{
    if let Some(t) = text {
        if !into.contains_key(key.as_str()) {
            into.push(key, ItemKind::Text(String::from_str(t)));
        }
    }
}

/// Writes the title and the description of `what` under `_title` and
/// `_description` if `add_descriptive_parts` is set.
pub fn put_default_descriptives<T: Descriptive>(
    what: &T,
    into: &mut Snapshot,
    add_descriptive_parts: bool,
)
    ensures
        final(into)@ == if add_descriptive_parts {
            with_descriptives(
                old(into)@,
                "_title"@,
                "_description"@,
                what.title_spec(),
                what.description_spec(),
            )
        } else {
            old(into)@
        },
{
    if add_descriptive_parts {
        put_descriptives(what, "_title", "_description", into);
    }
}

/// Writes the title and the description of `what` under `<name>_title`
/// and `<name>_description` if `add_descriptive_parts` is set.
pub fn put_postfixed_descriptives<T: Descriptive>(
    what: &T,
    field_label_postfix: &str,
    into: &mut Snapshot,
    add_descriptive_parts: bool,
)
    ensures
        final(into)@ == if add_descriptive_parts {
            with_descriptives(
                old(into)@,
                postfixed_title_key(field_label_postfix@),
                postfixed_description_key(field_label_postfix@),
                what.title_spec(),
                what.description_spec(),
            )
        } else {
            old(into)@
        },
{
    if !add_descriptive_parts {
        return ;
    }
    let title_label = String::from_str(field_label_postfix).concat("_title");
    put_text_if_absent(title_label, what.title(), into);
    let description_label = String::from_str(field_label_postfix).concat("_description");
    put_text_if_absent(description_label, what.description(), into);
}

/// Writes the title and the description of `what` under the given keys,
/// each where it is given and its key is not taken yet.
pub fn put_descriptives<T: Descriptive>(
    what: &T,
    title_field_label: &str,
    description_field_label: &str,
    into: &mut Snapshot,
)
    ensures
        final(into)@ == with_descriptives(
            old(into)@,
            title_field_label@,
            description_field_label@,
            what.title_spec(),
            what.description_spec(),
        ),
{
    put_text_if_absent(String::from_str(title_field_label), what.title(), into);
    put_text_if_absent(String::from_str(description_field_label), what.description(), into);
}


/// A title or description already there is not overwritten: writing the
/// descriptives into entries that hold both keys leaves them as they are.
pub proof fn law_descriptives_do_not_overwrite(
    v: Seq<(Seq<char>, ItemValue)>,
    title_key: Seq<char>,
    description_key: Seq<char>,
    title: Option<Seq<char>>,
    description: Option<Seq<char>>,
)
    requires
        has_key(v, title_key),
        has_key(v, description_key),
    ensures
        with_descriptives(v, title_key, description_key, title, description) == v,
{
}

/// Writing the descriptives twice is writing them once.
pub proof fn law_descriptives_are_written_once(
    v: Seq<(Seq<char>, ItemValue)>,
    title_key: Seq<char>,
    description_key: Seq<char>,
    title: Option<Seq<char>>,
    description: Option<Seq<char>>,
)
    ensures
        with_descriptives(
            with_descriptives(v, title_key, description_key, title, description),
            title_key,
            description_key,
            title,
            description,
        ) == with_descriptives(v, title_key, description_key, title, description),
{
    let w1 = with_text_if_absent(v, title_key, title);
    let w = with_text_if_absent(w1, description_key, description);
    if title is Some {
        assert(has_key(w1, title_key)) by {
            if !has_key(v, title_key) {
                assert(w1[w1.len() - 1].0 == title_key);
            }
        }
        assert(has_key(w, title_key)) by {
            let i = choose|i: int| 0 <= i < w1.len() && (#[trigger] w1[i]).0 == title_key;
            assert(w[i] == w1[i]);
        }
    }
    if description is Some {
        assert(has_key(w, description_key)) by {
            if !has_key(w1, description_key) {
                assert(w[w.len() - 1].0 == description_key);
            }
        }
    }
}

} // verus!
