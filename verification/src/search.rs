//! Searching file names: the options and their defaults, the expression
//! that a pattern is compiled to, and which entries are selected.

use crate::foreign::{regex_accepts, regex_error_text, regex_is_match, regex_new};
use crate::sandbox::{failed, step_prefix, FileSystemResult, FsStep};
use vstd::prelude::*;

verus! {

/// The options of a search as the caller gives them.
#[derive(Clone, Copy, Debug, PartialEq, Eq)]
pub struct SearchOptions {
    /// Whether directories below the first are searched; yes by default.
    pub recursive: Option<bool>,
    /// Whether letter case counts; no by default.
    pub case_sensitive: Option<bool>,
    /// Whether only files are reported; yes by default.
    pub file_only: Option<bool>,
}

/// The options of a search with the defaults filled in.
#[derive(Clone, Copy, Debug, PartialEq, Eq, Structural)]
pub struct SearchPlan {
    pub recursive: bool,
    pub case_sensitive: bool,
    pub file_only: bool,
}

impl SearchOptions {
    /// The options with the defaults filled in.
    pub open spec fn plan(self) -> SearchPlan {
        SearchPlan {
            recursive: match self.recursive {
                Some(b) => b,
                None => true,
            },
            case_sensitive: match self.case_sensitive {
                Some(b) => b,
                None => false,
            },
            file_only: match self.file_only {
                Some(b) => b,
                None => true,
            },
        }
    }

    /// Fills in the defaults.
    pub fn resolve(&self) -> (r: SearchPlan)
        ensures
            r == self.plan(),
    {
        SearchPlan {
            recursive: match self.recursive {
                Some(b) => b,
                None => true,
            },
            case_sensitive: match self.case_sensitive {
                Some(b) => b,
                None => false,
            },
            file_only: match self.file_only {
                Some(b) => b,
                None => true,
            },
        }
    }
}

/// The expression that is compiled for a pattern: the pattern itself
/// where letter case counts, the pattern behind the flag `(?i)` where it
/// does not.
pub open spec fn search_expression(pattern: Seq<char>, case_sensitive: bool) -> Seq<char> {
    if case_sensitive {
        pattern
    } else {
        "(?i)"@ + pattern
    }
}

/// Writes the expression that is compiled for a pattern.
pub fn expression_for(pattern: &str, case_sensitive: bool) -> (r: String)
    ensures
        r@ == search_expression(pattern@, case_sensitive),
{
    if case_sensitive {
        String::from_str(pattern)
    } else {
        let mut out = String::from_str("(?i)");
        out.append(pattern);
        out
    }
}

/// Compiles the expression for a pattern. Where the expression is not
/// accepted, the failed outcome of the search is returned instead.
pub fn compile_pattern(pattern: &str, case_sensitive: bool) -> (r: Result<
    regex::Regex,
    FileSystemResult,
>)
    ensures
        r is Ok <==> regex_accepts(search_expression(pattern@, case_sensitive)),
        r matches Err(outcome) ==> exists|cause: Seq<char>|
            outcome@ == failed(step_prefix(FsStep::Pattern) + cause),
{
    let expression = expression_for(pattern, case_sensitive);
    match regex_new(expression.as_str()) {
        Ok(regex) => Ok(regex),
        Err(e) => {
            let cause = regex_error_text(&e);
            Err(FileSystemResult::step_failed(FsStep::Pattern, cause.as_str()))
        },
    }
}

/// What an entry of a directory is.
#[derive(Clone, Copy, Debug, PartialEq, Eq, Structural)]
pub enum EntryKind {
    File,
    Directory,
    /// Neither a regular file nor a directory.
    Other,
}

/// Whether an entry is reported: a file whose name matches, or, unless
/// only files are asked for, a directory whose name matches.
pub open spec fn selected(kind: EntryKind, name_matches: bool, file_only: bool) -> bool {
    match kind {
        EntryKind::File => name_matches,
        EntryKind::Directory => !file_only && name_matches,
        EntryKind::Other => false,
    }
}

/// Whether the search goes down into an entry: a directory, in a
/// recursive search, whether or not it is reported itself.
pub open spec fn descended(kind: EntryKind, recursive: bool) -> bool {
    kind == EntryKind::Directory && recursive
}

/// Tests [`selected`].
pub fn is_selected(kind: EntryKind, name_matches: bool, file_only: bool) -> (r: bool)
    ensures
        r == selected(kind, name_matches, file_only),
{
    match kind {
        EntryKind::File => name_matches,
        EntryKind::Directory => !file_only && name_matches,
        EntryKind::Other => false,
    }
}

/// What the search does with one entry.
#[derive(Clone, Copy, Debug, PartialEq, Eq, Structural)]
pub struct EntryVerdict {
    /// The entry is reported.
    pub report: bool,
    /// The search goes on inside the entry.
    pub descend: bool,
}

/// Decides what the search does with the entry `name` of kind `kind`.
/// Whether the name matches is the expression's to say; whatever it
/// says, an entry that is neither file nor directory is not reported, a
/// directory is not reported where only files are asked for, and the
/// search goes down into exactly the directories of a recursive search.
pub fn visit_entry(regex: &regex::Regex, name: &str, kind: EntryKind, plan: SearchPlan) -> (r:
    EntryVerdict)
    ensures
        r.descend == descended(kind, plan.recursive),
        r.report ==> selected(kind, true, plan.file_only),
{
    let descend = match kind {
        EntryKind::Directory => plan.recursive,
        _ => false,
    };
    let report = if is_selected(kind, true, plan.file_only) {
        is_selected(kind, regex_is_match(regex, name), plan.file_only)
    } else {
        false
    };
    EntryVerdict { report, descend }
}

} // verus!
