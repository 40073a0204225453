//! The classifier: given one directory entry and the configuration, decides
//! whether the entry is skipped (subdirectory, hidden file) and, if not,
//! which destination subdirectory it is routed to.
//!
//! The hidden-file rule is evaluated before the extension rule, so a dotfile
//! without a further suffix (such as `.gitignore`) is never treated as having
//! an extension.

use vstd::prelude::*;
use vstd::string::StrSliceExecFns;
use crate::text::ascii_lowercase;
use crate::text::lower_seq;
use crate::Config;

verus! {

/// One filesystem object observed during a single directory enumeration:
/// its final path component and whether it is a directory.
#[derive(Debug, Clone)]
pub struct Entry {
    /// The entry's name (final path component), without any parent path.
    pub name: String,
    /// True when the entry is itself a directory.
    pub is_directory: bool,
}

/// The mathematical form of an [`Entry`].
pub struct EntryModel {
    pub name: Seq<char>,
    pub is_directory: bool,
}

impl View for Entry {
    type V = EntryModel;

    open spec fn view(&self) -> EntryModel {
        EntryModel { name: self.name@, is_directory: self.is_directory }
    }
}

impl DeepView for Entry {
    type V = EntryModel;

    open spec fn deep_view(&self) -> EntryModel {
        self@
    }
}

/// What the classifier decides for one entry.
#[derive(Debug, Clone, PartialEq, Eq)]
pub enum Classification {
    /// The entry is a directory: left in place, not recursed into.
    SkipDirectory,
    /// The entry is a hidden file and hidden files are excluded.
    SkipHidden,
    /// The entry has an extension: it is routed to the subdirectory named
    /// by the lowercased extension.
    RouteToExtensionDir(String),
    /// The entry has no extension: it is routed to the catch-all
    /// subdirectory named by the configuration.
    RouteToOthersDir,
}

/// The mathematical form of a [`Classification`].
pub enum ClassificationModel {
    SkipDirectory,
    SkipHidden,
    RouteToExtensionDir(Seq<char>),
    RouteToOthersDir,
}

impl View for Classification {
    type V = ClassificationModel;

    open spec fn view(&self) -> ClassificationModel {
        match self {
            Classification::SkipDirectory => ClassificationModel::SkipDirectory,
            Classification::SkipHidden => ClassificationModel::SkipHidden,
            Classification::RouteToExtensionDir(ext) => ClassificationModel::RouteToExtensionDir(
                ext@,
            ),
            Classification::RouteToOthersDir => ClassificationModel::RouteToOthersDir,
        }
    }
}

/// A name is hidden when it starts with a dot.
pub open spec fn is_hidden(name: Seq<char>) -> bool {
    name.len() > 0 && name[0] == '.'
}

/// The index of the last dot in a name, or -1 when the name has none.
pub open spec fn last_dot(name: Seq<char>) -> int
    decreases name.len(),
{
    if name.len() == 0 {
        -1
    } else if name[name.len() - 1] == '.' {
        name.len() - 1
    } else {
        last_dot(name.drop_last())
    }
}

/// The last dot of a name, when there is one, stands at an index of the name.
pub proof fn lemma_last_dot_bound(name: Seq<char>)
    ensures
        -1 <= last_dot(name) < name.len(),
    decreases name.len(),
{
    if name.len() == 0 {
    } else if name[name.len() - 1] == '.' {
    } else {
        lemma_last_dot_bound(name.drop_last());
    }
}

/// A name has an extension when a dot stands somewhere after its first
/// character. A leading dot alone (a hidden name such as `.secret`) does not
/// make an extension, while `.tar.gz` has the extension `gz`.
pub open spec fn has_extension(name: Seq<char>) -> bool {
    last_dot(name) >= 1
}

/// The extension of a name: the characters after its last dot, not yet
/// lowercased. Meaningful only when `has_extension(name)` holds.
pub open spec fn extension_of(name: Seq<char>) -> Seq<char> {
    name.subrange(last_dot(name) + 1, name.len() as int)
}

/// What the classifier decides for one entry, as a function of the entry and
/// of the `include_hidden` setting: directories are skipped; then hidden
/// files are skipped unless included; then names with an extension are routed
/// to the directory named by the ASCII-lowercased extension; every other name
/// is routed to the catch-all directory.
pub open spec fn spec_classify(e: EntryModel, include_hidden: bool) -> ClassificationModel {
    if e.is_directory {
        ClassificationModel::SkipDirectory
    } else if !include_hidden && is_hidden(e.name) {
        ClassificationModel::SkipHidden
    } else if has_extension(e.name) {
        ClassificationModel::RouteToExtensionDir(lower_seq(extension_of(e.name)))
    } else {
        ClassificationModel::RouteToOthersDir
    }
}

/// Whether a name starts with a dot.
pub fn is_hidden_name(s: &str) -> (r: bool)
    ensures
        r == is_hidden(s@),
{
    if s.unicode_len() == 0 {
        false
    } else {
        s.get_char(0) == '.'
    }
}

/// Finds the last dot in a name, scanning from the end.
fn find_last_dot(s: &str) -> (r: Option<usize>)
    ensures
        match r {
            Some(i) => last_dot(s@) == i as int,
            None => last_dot(s@) == -1,
        },
{
    let n: usize = s.unicode_len();
    proof {
        assert(s@.subrange(0, n as int) =~= s@);
    }
    let mut i: usize = n;
    while i > 0
        invariant
            n == s@.len(),
            i <= n,
            last_dot(s@) == last_dot(s@.subrange(0, i as int)),
        decreases i,
    {
        i = i - 1;
        let c = s.get_char(i);
        if c == '.' {
            proof {
                let t = s@.subrange(0, i + 1 as int);
                assert(t[t.len() - 1] == '.');
            }
            return Some(i);
        }
        proof {
            let t = s@.subrange(0, i + 1 as int);
            assert(t[t.len() - 1] != '.');
            assert(t.drop_last() =~= s@.subrange(0, i as int));
        }
    }
    proof {
        assert(s@.subrange(0, 0).len() == 0);
    }
    None
}

/// Classifies one entry under the given configuration, as spelled out by
/// [`spec_classify`].
pub fn classify(entry: &Entry, config: &Config) -> (c: Classification)
    ensures
        c@ == spec_classify(entry@, config.include_hidden),
{
    if entry.is_directory {
        Classification::SkipDirectory
    } else if !config.include_hidden && is_hidden_name(entry.name.as_str()) {
        Classification::SkipHidden
    } else {
        let name = entry.name.as_str();
        match find_last_dot(name) {
            Some(i) => {
                if i >= 1 {
                    proof {
                        lemma_last_dot_bound(name@);
                    }
                    let n: usize = name.unicode_len();
                    let ext = name.substring_char(i + 1, n);
                    Classification::RouteToExtensionDir(ascii_lowercase(ext))
                } else {
                    Classification::RouteToOthersDir
                }
            },
            None => Classification::RouteToOthersDir,
        }
    }
}

} // verus!
