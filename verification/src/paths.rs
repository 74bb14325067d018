//! Path containment: whether one Windows path lies inside another.
//!
//! The decision runs in three steps, and the host works between them. The
//! first step looks at the two strings as they are. Where that does not
//! settle the matter, the host expands environment references and the second
//! step rejects relative paths. The host then brings both paths into
//! canonical form and the third step compares them component by component.

use vstd::prelude::*;
use crate::error::{OsCall, PlatformError};
use crate::text::{chars_of, lowercase, string_of, views};

verus! {

/// What follows the first step of deciding containment.
#[derive(Debug, PartialEq, Eq)]
pub enum SubPathStep {
    /// The answer is known.
    Decided(bool),
    /// Expand environment references in both strings, then call
    /// `is_sub_path_expanded`.
    Expand { path: String, parent: String },
}

/// What follows the second step.
#[derive(Debug, PartialEq, Eq)]
pub enum ExpandedStep {
    /// The answer is known.
    Decided(bool),
    /// Bring both paths into canonical form, then call `is_sub_path_canonical`.
    Canonicalize { path: String, parent: String },
}

/// Either slash separates path components.
pub open spec fn is_separator(c: char) -> bool {
    c == '\\' || c == '/'
}

/// `s` without the separators at its end.
pub open spec fn trim_separators(s: Seq<char>) -> Seq<char>
    decreases s.len(),
{
    if s.len() > 0 && is_separator(s.last()) {
        trim_separators(s.drop_last())
    } else {
        s
    }
}

/// `s` made to end in exactly one separator, a backslash.
pub open spec fn with_trailing_separator(s: Seq<char>) -> Seq<char> {
    trim_separators(s).push('\\')
}

/// The length of `s` in bytes of UTF-8.
pub open spec fn utf8_len(s: Seq<char>) -> nat {
    vstd::utf8::encode_utf8(s).len()
}

/// What two case-folded strings settle by themselves: `false` where one of
/// them is empty or the path is the shorter one once the parent ends in a
/// separator, `true` where the path begins with the parent and its separator,
/// and `None` where the host has to be asked.
pub open spec fn folded_verdict(path: Seq<char>, parent: Seq<char>) -> Option<bool> {
    let prefix = with_trailing_separator(parent);
    if path.len() == 0 || parent.len() == 0 {
        Some(false)
    } else if utf8_len(path) < utf8_len(prefix) {
        Some(false)
    } else if prefix.is_prefix_of(path) {
        Some(true)
    } else {
        None
    }
}

/// What the two strings settle by themselves: nothing is inside an empty
/// parent and an empty path is inside nothing; otherwise, what their
/// case-folded forms settle.
pub open spec fn quick_verdict(path: Seq<char>, parent: Seq<char>) -> Option<bool> {
    if path.len() == 0 || parent.len() == 0 {
        Some(false)
    } else {
        folded_verdict(lowercase(path), lowercase(parent))
    }
}

pub open spec fn is_drive_letter(c: char) -> bool {
    ('a' <= c && c <= 'z') || ('A' <= c && c <= 'Z')
}

/// The number of characters of `s` before its first separator.
pub open spec fn name_len(s: Seq<char>) -> nat
    decreases s.len(),
{
    if s.len() == 0 || is_separator(s[0]) {
        0
    } else {
        1 + name_len(s.skip(1))
    }
}

/// `s` begins with a drive letter, a colon and a separator.
pub open spec fn is_drive_rooted(s: Seq<char>) -> bool {
    s.len() >= 3 && is_drive_letter(s[0]) && s[1] == ':' && is_separator(s[2])
}

/// `s` begins with two separators, a server's name, one separator and a
/// share's name, neither name empty.
pub open spec fn is_network_share(s: Seq<char>) -> bool {
    let server = name_len(s.skip(2)) as int;
    &&& s.len() >= 2 && is_separator(s[0]) && is_separator(s[1])
    &&& server > 0
    &&& s.len() > 2 + server + 1
    &&& !is_separator(s[2 + server + 1])
}

/// A path is absolute where it names a drive and its root, or a network
/// share. A device namespace reads as a share of the server `?` or `.`.
pub open spec fn is_absolute(s: Seq<char>) -> bool {
    is_drive_rooted(s) || is_network_share(s)
}

/// The components of a path: its runs of characters between separators, in
/// order. Separators at either end, or several in a row, add nothing.
pub open spec fn components(s: Seq<char>) -> Seq<Seq<char>>
    decreases s.len(),
{
    if s.len() == 0 {
        Seq::<Seq<char>>::empty()
    } else {
        let before = components(s.drop_last());
        if is_separator(s.last()) {
            before
        } else if s.len() >= 2 && !is_separator(s[s.len() - 2]) {
            before.update(before.len() - 1, before.last().push(s.last()))
        } else {
            before.push(seq![s.last()])
        }
    }
}

/// The comparison of two canonical paths: every component of `parent`, in
/// order and after case folding, is the component of `path` at the same place.
pub open spec fn component_prefix(path: Seq<char>, parent: Seq<char>) -> bool {
    components(lowercase(parent)).is_prefix_of(components(lowercase(path)))
}

/// The whole decision, given what the host returned at each step.
pub open spec fn sub_path_verdict(
    path: Seq<char>,
    parent: Seq<char>,
    expanded_path: Seq<char>,
    expanded_parent: Seq<char>,
    canonical_path: Seq<char>,
    canonical_parent: Seq<char>,
) -> bool {
    match quick_verdict(path, parent) {
        Some(b) => b,
        None => is_absolute(expanded_path) && is_absolute(expanded_parent) && component_prefix(
            canonical_path,
            canonical_parent,
        ),
    }
}

fn separator(c: char) -> (r: bool)
    ensures
        r == is_separator(c),
{
    c == '\\' || c == '/'
}

fn end_with_separator(s: &Vec<char>) -> (r: Vec<char>)
    ensures
        r@ == with_trailing_separator(s@),
{
    let mut n: usize = s.len();
    assert(s@.take(n as int) == s@);
    while n > 0 && separator(s[n - 1])
        invariant
            n <= s.len(),
            trim_separators(s@) == trim_separators(s@.take(n as int)),
        decreases n,
    {
        proof {
            assert(s@.take(n as int).drop_last() == s@.take(n - 1));
        }
        n -= 1;
    }
    let mut r: Vec<char> = Vec::new();
    let mut i: usize = 0;
    while i < n
        invariant
            i <= n <= s.len(),
            r@ == s@.take(i as int),
        decreases n - i,
    {
        r.push(s[i]);
        i += 1;
    }
    r.push('\\');
    r
}

fn starts_with(s: &Vec<char>, prefix: &Vec<char>) -> (r: bool)
    ensures
        r == prefix@.is_prefix_of(s@),
{
    if prefix.len() > s.len() {
        return false;
    }
    let mut i: usize = 0;
    while i < prefix.len()
        invariant
            i <= prefix.len() <= s.len(),
            forall|j: int| 0 <= j < i ==> prefix@[j] == s@[j],
        decreases prefix.len() - i,
    {
        if prefix[i] != s[i] {
            return false;
        }
        i += 1;
    }
    true
}

/// The first step on strings that are case-folded already. Decides what the
/// two strings settle by themselves, and otherwise hands out the strings whose
/// environment references the host must expand: the path as it is, the parent
/// with exactly one separator at its end.
pub fn is_sub_path_folded(path: String, parent: String) -> (r: SubPathStep)
    ensures
        match folded_verdict(path@, parent@) {
            Some(b) => r == SubPathStep::Decided(b),
            None => r matches SubPathStep::Expand { path: p, parent: q } && p@ == path@ && q@
                == with_trailing_separator(parent@),
        },
{
    if path.as_str().is_empty() || parent.as_str().is_empty() {
        return SubPathStep::Decided(false);
    }
    let prefix_chars = end_with_separator(&chars_of(parent.as_str()));
    let prefix = string_of(&prefix_chars);
    if path.as_str().as_bytes().len() < prefix.as_str().as_bytes().len() {
        return SubPathStep::Decided(false);
    }
    if starts_with(&chars_of(path.as_str()), &prefix_chars) {
        return SubPathStep::Decided(true);
    }
    SubPathStep::Expand { path, parent: prefix }
}

/// The first step of deciding whether `path` lies inside `parent`. An empty
/// argument decides `false`; otherwise both strings are case-folded and
/// `is_sub_path_folded` goes on.
pub fn is_sub_path(path: &str, parent: &str) -> (r: SubPathStep)
    ensures
        match quick_verdict(path@, parent@) {
            Some(b) => r == SubPathStep::Decided(b),
            None => r matches SubPathStep::Expand { path: p, parent: q } && p@ == lowercase(path@) && q@
                == with_trailing_separator(lowercase(parent@)),
        },
        path@.len() == 0 || parent@.len() == 0 ==> r == SubPathStep::Decided(false),
{
    if path.is_empty() || parent.is_empty() {
        return SubPathStep::Decided(false);
    }
    is_sub_path_folded(path.to_lowercase(), parent.to_lowercase())
}

fn name_end(s: &Vec<char>, from: usize) -> (end: usize)
    requires
        from <= s.len(),
    ensures
        end == from + name_len(s@.skip(from as int)),
        end <= s.len(),
{
    let mut i: usize = from;
    while i < s.len() && !separator(s[i])
        invariant
            from <= i <= s.len(),
            name_len(s@.skip(from as int)) == (i - from) + name_len(s@.skip(i as int)),
        decreases s.len() - i,
    {
        proof {
            assert(s@.skip(i as int).skip(1) == s@.skip(i + 1));
        }
        i += 1;
    }
    i
}

fn absolute(s: &Vec<char>) -> (r: bool)
    ensures
        r == is_absolute(s@),
{
    if s.len() < 3 {
        return false;
    }
    let a = s[0];
    let drive = ('a' <= a && a <= 'z') || ('A' <= a && a <= 'Z');
    if drive && s[1] == ':' && separator(s[2]) {
        return true;
    }
    if !(separator(a) && separator(s[1])) {
        return false;
    }
    let end = name_end(s, 2);
    end > 2 && end < s.len() - 1 && !separator(s[end + 1])
}

/// The second step, on what the host's expansion of environment references
/// returned for each string: the text, or the host's error code. A failed
/// expansion is an error, that of the path first. A relative path on either
/// side decides `false`; two absolute paths go on to be made canonical.
pub fn is_sub_path_expanded(path: Result<String, u32>, parent: Result<String, u32>) -> (r: Result<
    ExpandedStep,
    PlatformError,
>)
    ensures
        match (path, parent) {
            (Err(code), _) => r == Err::<ExpandedStep, PlatformError>(
                PlatformError::OsApiError { context: OsCall::ExpandEnvironment, code },
            ),
            (Ok(_), Err(code)) => r == Err::<ExpandedStep, PlatformError>(
                PlatformError::OsApiError { context: OsCall::ExpandEnvironment, code },
            ),
            (Ok(p), Ok(q)) => if is_absolute(p@) && is_absolute(q@) {
                r == Ok::<ExpandedStep, PlatformError>(ExpandedStep::Canonicalize { path: p, parent: q })
            } else {
                r == Ok::<ExpandedStep, PlatformError>(ExpandedStep::Decided(false))
            },
        },
{
    let p = match path {
        Ok(p) => p,
        Err(code) => {
            return Err(PlatformError::OsApiError { context: OsCall::ExpandEnvironment, code });
        },
    };
    let q = match parent {
        Ok(q) => q,
        Err(code) => {
            return Err(PlatformError::OsApiError { context: OsCall::ExpandEnvironment, code });
        },
    };
    if absolute(&chars_of(p.as_str())) && absolute(&chars_of(q.as_str())) {
        Ok(ExpandedStep::Canonicalize { path: p, parent: q })
    } else {
        Ok(ExpandedStep::Decided(false))
    }
}

fn split_components(s: &Vec<char>) -> (r: Vec<Vec<char>>)
    ensures
        views(r@) == components(s@),
{
    let mut done: Vec<Vec<char>> = Vec::new();
    let mut cur: Vec<char> = Vec::new();
    let mut i: usize = 0;
    while i < s.len()
        invariant
            i <= s.len(),
            cur@.len() > 0 <==> i > 0 && !is_separator(s@[i - 1]),
            components(s@.take(i as int)) == if cur@.len() > 0 {
                views(done@).push(cur@)
            } else {
                views(done@)
            },
        decreases s.len() - i,
    {
        let c = s[i];
        proof {
            assert(s@.take(i + 1).drop_last() == s@.take(i as int));
        }
        if separator(c) {
            if cur.len() > 0 {
                done.push(cur);
                cur = Vec::new();
            }
        } else {
            cur.push(c);
            assert(cur@.len() == 1 ==> cur@ == seq![c]);
        }
        i += 1;
    }
    assert(s@.take(i as int) == s@);
    if cur.len() > 0 {
        done.push(cur);
    }
    done
}

fn same_text(a: &Vec<char>, b: &Vec<char>) -> (r: bool)
    ensures
        r == (a@ == b@),
{
    if a.len() != b.len() {
        return false;
    }
    let mut i: usize = 0;
    while i < a.len()
        invariant
            i <= a.len(),
            a.len() == b.len(),
            forall|j: int| 0 <= j < i ==> a@[j] == b@[j],
        decreases a.len() - i,
    {
        if a[i] != b[i] {
            return false;
        }
        i += 1;
    }
    assert(a@ =~= b@);
    true
}

fn components_start_with(path: &Vec<Vec<char>>, parent: &Vec<Vec<char>>) -> (r: bool)
    ensures
        r == views(parent@).is_prefix_of(views(path@)),
{
    if parent.len() > path.len() {
        return false;
    }
    let mut i: usize = 0;
    while i < parent.len()
        invariant
            i <= parent.len() <= path.len(),
            forall|j: int| 0 <= j < i ==> parent@[j]@ == path@[j]@,
        decreases parent.len() - i,
    {
        if !same_text(&parent[i], &path[i]) {
            assert(views(parent@)[i as int] != views(path@).subrange(0, parent@.len() as int)[i as int]);
            return false;
        }
        i += 1;
    }
    true
}

/// Whether every component of `parent`, in order, is the component of `path`
/// at the same place. Both are compared as they are.
pub fn has_component_prefix(path: &str, parent: &str) -> (r: bool)
    ensures
        r == components(parent@).is_prefix_of(components(path@)),
{
    let path_parts = split_components(&chars_of(path));
    let parent_parts = split_components(&chars_of(parent));
    components_start_with(&path_parts, &parent_parts)
}

/// The third step, on what the host's canonicalization returned for each
/// path: the canonical text, or the host's error code. A failed
/// canonicalization is an error that carries the host's code, that of the
/// path first. Otherwise both texts are case-folded and the answer is the
/// comparison by components.
pub fn is_sub_path_canonical(path: Result<String, u32>, parent: Result<String, u32>) -> (r: Result<
    bool,
    PlatformError,
>)
    ensures
        r == match (path, parent) {
            (Err(code), _) => Err::<bool, PlatformError>(
                PlatformError::OsApiError { context: OsCall::Canonicalize, code },
            ),
            (Ok(_), Err(code)) => Err(PlatformError::OsApiError { context: OsCall::Canonicalize, code }),
            (Ok(p), Ok(q)) => Ok(component_prefix(p@, q@)),
        },
{
    let p = match path {
        Ok(p) => p,
        Err(code) => {
            return Err(PlatformError::OsApiError { context: OsCall::Canonicalize, code });
        },
    };
    let q = match parent {
        Ok(q) => q,
        Err(code) => {
            return Err(PlatformError::OsApiError { context: OsCall::Canonicalize, code });
        },
    };
    let folded = p.as_str().to_lowercase();
    let folded_parent = q.as_str().to_lowercase();
    Ok(has_component_prefix(folded.as_str(), folded_parent.as_str()))
}

} // verus!
