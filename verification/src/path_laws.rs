//! What holds of path containment for all inputs.

use vstd::prelude::*;
use crate::paths::{
    component_prefix, components, folded_verdict, is_absolute, is_separator, quick_verdict,
    sub_path_verdict, trim_separators, with_trailing_separator,
};
use crate::text::lowercase;

verus! {

/// A path that ends in a character other than a separator has a component.
pub proof fn lemma_open_run_is_component(s: Seq<char>)
    requires
        s.len() > 0,
        !is_separator(s.last()),
    ensures
        components(s).len() > 0,
    decreases s.len(),
{
    if s.len() >= 2 && !is_separator(s[s.len() - 2]) {
        lemma_open_run_is_component(s.drop_last());
    }
}

/// A run: one character or more, none of them a separator.
pub open spec fn is_run(c: Seq<char>) -> bool {
    &&& c.len() > 0
    &&& forall|j: int| 0 <= j < c.len() ==> !is_separator(#[trigger] c[j])
}

/// No component is empty, and none holds a separator.
pub proof fn law_components_are_runs(s: Seq<char>)
    ensures
        forall|k: int| 0 <= k < components(s).len() ==> is_run(#[trigger] components(s)[k]),
    decreases s.len(),
{
    if s.len() > 0 {
        let before = components(s.drop_last());
        law_components_are_runs(s.drop_last());
        if !is_separator(s.last()) {
            if s.len() >= 2 && !is_separator(s[s.len() - 2]) {
                lemma_open_run_is_component(s.drop_last());
                let grown = before.last().push(s.last());
                assert forall|j: int| 0 <= j < grown.len() implies !is_separator(#[trigger] grown[j]) by {
                    if j < before.last().len() {
                        assert(grown[j] == before.last()[j]);
                    }
                }
            }
            assert forall|k: int| 0 <= k < components(s).len() implies is_run(
                #[trigger] components(s)[k],
            ) by {
                if k < before.len() - 1 {
                    assert(components(s)[k] == before[k]);
                }
            }
        }
    }
}

/// Separators at the end of a path add no component.
pub proof fn lemma_trailing_separators_add_nothing(s: Seq<char>)
    ensures
        components(trim_separators(s)) == components(s),
    decreases s.len(),
{
    if s.len() > 0 && is_separator(s.last()) {
        lemma_trailing_separators_add_nothing(s.drop_last());
    }
}

/// The components of two texts joined by a separator are those of the first
/// followed by those of the second.
pub proof fn lemma_components_of_joined(a: Seq<char>, sep: char, b: Seq<char>)
    requires
        is_separator(sep),
    ensures
        components(a.push(sep) + b) == components(a) + components(b),
    decreases b.len(),
{
    let whole = a.push(sep) + b;
    if b.len() == 0 {
        assert(whole.drop_last() == a);
    } else {
        let shorter = b.drop_last();
        let x = b.last();
        lemma_components_of_joined(a, sep, shorter);
        assert(whole.drop_last() == a.push(sep) + shorter);
        let first = components(a);
        let second = components(shorter);
        if !is_separator(x) && b.len() >= 2 && !is_separator(b[b.len() - 2]) {
            lemma_open_run_is_component(shorter);
            assert((first + second).update((first + second).len() - 1, (first + second).last().push(x))
                == first + second.update(second.len() - 1, second.last().push(x)));
        }
    }
}

/// The quick test on the text agrees with the comparison by components: where
/// a path begins with the parent and its closing separator, the parent's
/// components are the path's first components.
pub proof fn law_text_prefix_is_component_prefix(path: Seq<char>, parent: Seq<char>)
    requires
        with_trailing_separator(parent).is_prefix_of(path),
    ensures
        components(parent).is_prefix_of(components(path)),
{
    let stem = trim_separators(parent);
    let prefix = stem.push('\\');
    let rest = path.subrange(prefix.len() as int, path.len() as int);
    assert(path == prefix + rest);
    lemma_components_of_joined(stem, '\\', rest);
    lemma_trailing_separators_add_nothing(parent);
}

/// A yes of the quick test on case-folded strings is a yes of the comparison
/// by components on the same strings.
pub proof fn law_quick_yes_is_component_prefix(path: Seq<char>, parent: Seq<char>)
    requires
        folded_verdict(path, parent) == Some(true),
    ensures
        components(parent).is_prefix_of(components(path)),
{
    law_text_prefix_is_component_prefix(path, parent);
}

/// Where the two strings settle nothing by themselves and both expand to
/// absolute paths, a path lies inside a parent exactly if the case-folded
/// components of the canonical parent are the first components of the
/// canonical path.
pub proof fn law_containment_is_component_prefix(
    path: Seq<char>,
    parent: Seq<char>,
    expanded_path: Seq<char>,
    expanded_parent: Seq<char>,
    canonical_path: Seq<char>,
    canonical_parent: Seq<char>,
)
    requires
        parent.len() > 0,
        is_absolute(expanded_path),
        is_absolute(expanded_parent),
        quick_verdict(path, parent) is None,
    ensures
        sub_path_verdict(
            path,
            parent,
            expanded_path,
            expanded_parent,
            canonical_path,
            canonical_parent,
        ) == components(lowercase(canonical_parent)).is_prefix_of(components(lowercase(canonical_path))),
{
}

/// An empty argument is never contained and contains nothing.
pub proof fn law_empty_is_never_contained(
    path: Seq<char>,
    parent: Seq<char>,
    expanded_path: Seq<char>,
    expanded_parent: Seq<char>,
    canonical_path: Seq<char>,
    canonical_parent: Seq<char>,
)
    requires
        path.len() == 0 || parent.len() == 0,
    ensures
        !sub_path_verdict(path, parent, expanded_path, expanded_parent, canonical_path, canonical_parent),
{
}

/// Unless the quick test on the text has said yes, a path that is relative
/// once expanded is not contained, and a relative parent contains nothing.
pub proof fn law_relative_is_never_contained(
    path: Seq<char>,
    parent: Seq<char>,
    expanded_path: Seq<char>,
    expanded_parent: Seq<char>,
    canonical_path: Seq<char>,
    canonical_parent: Seq<char>,
)
    requires
        !is_absolute(expanded_path) || !is_absolute(expanded_parent),
        quick_verdict(path, parent) != Some(true),
    ensures
        !sub_path_verdict(path, parent, expanded_path, expanded_parent, canonical_path, canonical_parent),
{
}

/// Two canonical paths that differ in case alone contain each other.
pub proof fn law_case_is_ignored(canonical_path: Seq<char>, canonical_parent: Seq<char>)
    requires
        lowercase(canonical_path) == lowercase(canonical_parent),
    ensures
        component_prefix(canonical_path, canonical_parent),
{
}

} // verus!
