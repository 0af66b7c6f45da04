//! How a system-prompt selector is resolved into the prompt's text.
//!
//! A selector without a path separator first names a prompt kept in the
//! configuration directory; failing that, the selector is read as a file
//! path; failing that too, it is the prompt itself. The caller does the
//! reading and reports each outcome.
use vstd::prelude::*;

verus! {

/// The character that separates the parts of a path.
pub open spec fn separator() -> char {
    '/'
}

/// Where a prompt is looked for.
#[derive(PartialEq, Eq, Structural, Clone, Copy, Debug)]
pub enum PromptSource {
    /// `prompts/<selector>/system.md` in the configuration directory.
    Named,
    /// The selector itself, read as a file path.
    Path,
}

/// The outcome of reading a prompt from a source.
#[derive(Clone, Debug, PartialEq, Eq)]
pub enum Lookup {
    /// The source was read; this is its text.
    Found(String),
    /// The source does not exist.
    NotFound,
    /// The source exists but could not be read, for this reason.
    Unreadable(String),
}

/// What follows an outcome.
#[derive(Clone, Debug, PartialEq, Eq)]
pub enum Resolution {
    /// Read the prompt from this source next.
    LookIn(PromptSource),
    /// This is the prompt.
    Resolved(String),
    /// Resolution fails, for this reason.
    Failed(String),
}

/// Whether a selector holds a path separator.
pub fn has_separator(selector: &str) -> (r: bool)
    ensures
        r == selector@.contains(separator()),
{
    for c in it: selector.chars()
        invariant
            it.seq() == selector@,
            forall|k: int| 0 <= k < it.index() ==> selector@[k] != separator(),
    {
        if c == '/' {
            return true;
        }
    }
    false
}

/// The source that a selector is first looked for in: the configuration
/// directory, unless the selector holds a path separator (which keeps it from
/// reaching outside that directory).
pub open spec fn first_source_of(selector: Seq<char>) -> PromptSource {
    if selector.contains(separator()) {
        PromptSource::Path
    } else {
        PromptSource::Named
    }
}

/// The source that a selector is looked for in first.
pub fn first_source(selector: &str) -> (s: PromptSource)
    ensures
        s == first_source_of(selector@),
{
    if has_separator(selector) {
        PromptSource::Path
    } else {
        PromptSource::Named
    }
}

/// What follows the outcome of looking for `selector`'s prompt in `source`:
/// found text is the prompt; a source that does not exist passes the search
/// on, from the configuration directory to the file path, and from the file
/// path to the selector itself; any other failure to read ends it.
pub fn after_lookup(selector: &str, source: PromptSource, lookup: Lookup) -> (r: Resolution)
    ensures
        lookup is Found ==> r is Resolved && r->Resolved_0 == lookup->Found_0,
        lookup is Unreadable ==> r is Failed && r->Failed_0 == lookup->Unreadable_0,
        lookup is NotFound && source == PromptSource::Named ==> r == Resolution::LookIn(
            PromptSource::Path,
        ),
        lookup is NotFound && source == PromptSource::Path ==> r is Resolved
            && r->Resolved_0@ == selector@,
{
    match lookup {
        Lookup::Found(text) => Resolution::Resolved(text),
        Lookup::Unreadable(reason) => Resolution::Failed(reason),
        Lookup::NotFound => match source {
            PromptSource::Named => Resolution::LookIn(PromptSource::Path),
            PromptSource::Path => Resolution::Resolved(selector.to_string()),
        },
    }
}

} // verus!
