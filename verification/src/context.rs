//! The context of one render: a snapshot of everything the modules look at.

use crate::command::Execution;
use crate::config::{ConfigValue, find_entry, lookup};
use crate::module::{Module, empty_module};
use crate::modules::battery::Battery;
use crate::text::{chars_after, chars_of, count_after, lemma_count_after, text_view};
use vstd::prelude::*;
use vstd::string::*;

verus! {

/// The extension of a file name: what stands behind its last dot. A name
/// without a dot has none, nor has a name whose only dot is its first
/// character.
pub open spec fn extension_of(name: Seq<char>) -> Option<Seq<char>> {
    let after = count_after(name, '.');
    if after + 1 < name.len() {
        Some(name.skip(name.len() - after))
    } else {
        None
    }
}

/// The extension of a file name.
pub fn file_extension(name: &str) -> (extension: Option<String>)
    ensures
        text_view(extension) == extension_of(name@),
{
    let chars = chars_of(name);
    let after = chars_after(&chars, '.');
    proof {
        lemma_count_after(name@, '.');
    }
    if after < chars.len() && after + 1 < chars.len() {
        let from = chars.len() - after;
        assert(name@.subrange(from as int, chars.len() as int) =~= name@.skip(from as int));
        Some(name.substring_char(from, chars.len()).to_owned())
    } else {
        None
    }
}

/// The texts that a list of strings holds.
pub open spec fn text_views(list: Seq<String>) -> Seq<Seq<char>> {
    list.map_values(|text: String| text@)
}

/// The texts that a list of string slices holds.
pub open spec fn slice_views(list: Seq<&str>) -> Seq<Seq<char>> {
    list.map_values(|text: &str| text@)
}

/// Some text of `list` is among those of `wanted`.
pub open spec fn holds_any(list: Seq<Seq<char>>, wanted: Seq<Seq<char>>) -> bool {
    exists|i: int, j: int|
        0 <= i < list.len() && 0 <= j < wanted.len() && #[trigger] list[i] == #[trigger] wanted[j]
}

/// Whether some text of the list is the given one.
pub fn contains_text(list: &Vec<String>, text: &String) -> (found: bool)
    ensures
        found == text_views(list@).contains(text@),
{
    let mut i: usize = 0;
    while i < list.len()
        invariant
            i <= list.len(),
            forall|j: int| 0 <= j < i ==> (#[trigger] text_views(list@)[j]) != text@,
        decreases list.len() - i,
    {
        if list[i] == *text {
            assert(text_views(list@)[i as int] == text@);
            return true;
        }
        i += 1;
    }
    false
}

/// Whether some text of the one list is among those of the other.
pub fn shares_text(list: &Vec<String>, wanted: &Vec<String>) -> (found: bool)
    ensures
        found == holds_any(text_views(list@), text_views(wanted@)),
{
    let mut i: usize = 0;
    while i < list.len()
        invariant
            i <= list.len(),
            forall|j: int, k: int|
                0 <= j < i && 0 <= k < wanted@.len() ==> #[trigger] text_views(list@)[j]
                    != #[trigger] text_views(wanted@)[k],
        decreases list.len() - i,
    {
        if contains_text(wanted, &list[i]) {
            let ghost k = choose|k: int|
                0 <= k < wanted@.len() && text_views(wanted@)[k] == list@[i as int]@;
            assert(text_views(list@)[i as int] == text_views(wanted@)[k]);
            return true;
        }
        i += 1;
    }
    false
}

/// The entries of a directory, read once: their names and the extensions of
/// their names.
#[derive(Debug, PartialEq, Eq)]
pub struct DirContents {
    pub file_names: Vec<String>,
    pub extensions: Vec<String>,
}

impl DirContents {
    /// The extensions on record are those that the names on record have.
    pub open spec fn well_formed(&self) -> bool {
        forall|extension: Seq<char>|
            text_views(self.extensions@).contains(extension) <==> exists|i: int|
                0 <= i < self.file_names@.len() && extension_of((#[trigger] self.file_names@[i])@)
                    == Some(extension)
    }

    /// The contents of a directory with entries of the given names.
    pub fn from_entries(names: Vec<String>) -> (contents: DirContents)
        ensures
            contents.file_names@ == names@,
            contents.well_formed(),
    {
        let mut extensions: Vec<String> = Vec::new();
        let mut i: usize = 0;
        while i < names.len()
            invariant
                i <= names.len(),
                forall|extension: Seq<char>|
                    text_views(extensions@).contains(extension) <==> exists|j: int|
                        0 <= j < i && extension_of((#[trigger] names@[j])@) == Some(extension),
            decreases names.len() - i,
        {
            let ghost before = text_views(extensions@);
            let found = file_extension(names[i].as_str());
            if let Some(extension) = found {
                extensions.push(extension);
            }
            proof {
                let after = text_views(extensions@);
                let latest = extension_of(names@[i as int]@);
                assert(latest is Some ==> after == before.push(latest.unwrap()));
                assert(latest is None ==> after == before);
                assert forall|text: Seq<char>|
                    after.contains(text) <==> exists|j: int|
                        0 <= j < i + 1 && extension_of((#[trigger] names@[j])@) == Some(text) by {
                    if after.contains(text) {
                        let k = choose|k: int| 0 <= k < after.len() && after[k] == text;
                        if k < before.len() {
                            assert(before[k] == text);
                            assert(before.contains(text));
                            let j = choose|j: int|
                                0 <= j < i && extension_of((#[trigger] names@[j])@) == Some(
                                    text,
                                );
                            assert(0 <= j < i + 1 && extension_of(names@[j]@) == Some(text));
                        } else {
                            assert(extension_of(names@[i as int]@) == Some(text));
                        }
                    }
                    if exists|j: int|
                        0 <= j < i + 1 && extension_of((#[trigger] names@[j])@) == Some(text) {
                        let j = choose|j: int|
                            0 <= j < i + 1 && extension_of((#[trigger] names@[j])@) == Some(text);
                        if j < i {
                            assert(before.contains(text));
                            let k = choose|k: int| 0 <= k < before.len() && before[k] == text;
                            assert(after[k] == text);
                        } else {
                            assert(after[before.len() as int] == text);
                        }
                    }
                }
            }
            i += 1;
        }
        DirContents { file_names: names, extensions }
    }
}

/// A question put to the contents of a directory: is there an entry with one
/// of these names, or with one of these extensions?
#[derive(Debug, PartialEq, Eq)]
pub struct ScanDir<'a> {
    /// The contents of the directory, or `None` where it could not be read.
    pub dir_contents: Option<&'a DirContents>,
    /// The names asked for.
    pub files: Vec<String>,
    /// The extensions asked for.
    pub extensions: Vec<String>,
}

/// The texts of a list of string slices, as owned strings.
pub fn owned_texts(texts: &Vec<&str>) -> (owned: Vec<String>)
    ensures
        text_views(owned@) == slice_views(texts@),
{
    let mut owned: Vec<String> = Vec::new();
    let mut i: usize = 0;
    while i < texts.len()
        invariant
            i <= texts.len(),
            owned@.len() == i,
            forall|j: int| 0 <= j < i ==> (#[trigger] owned@[j])@ == texts@[j]@,
        decreases texts.len() - i,
    {
        owned.push(texts[i].to_owned());
        i += 1;
    }
    assert(text_views(owned@) =~= slice_views(texts@));
    owned
}

/// Whether a directory with the given contents, if it could be read, holds
/// an entry with one of the names or one of the extensions.
pub open spec fn dir_matches(
    contents: Option<&DirContents>,
    files: Seq<Seq<char>>,
    extensions: Seq<Seq<char>>,
) -> bool {
    match contents {
        Some(contents) => holds_any(text_views(contents.file_names@), files) || holds_any(
            text_views(contents.extensions@),
            extensions,
        ),
        None => false,
    }
}

impl<'a> ScanDir<'a> {
    /// Whether the directory answers the question with yes: it could be read
    /// and holds an entry with one of the names or one of the extensions
    /// asked for.
    pub open spec fn matches(&self) -> bool {
        dir_matches(self.dir_contents, text_views(self.files@), text_views(self.extensions@))
    }

    /// Asks for entries with one of the given names.
    pub fn set_files(self, files: Vec<&str>) -> (scan: ScanDir<'a>)
        ensures
            scan.dir_contents == self.dir_contents,
            scan.extensions == self.extensions,
            text_views(scan.files@) == slice_views(files@),
    {
        ScanDir {
            dir_contents: self.dir_contents,
            files: owned_texts(&files),
            extensions: self.extensions,
        }
    }

    /// Asks for entries with one of the given extensions.
    pub fn set_extensions(self, extensions: Vec<&str>) -> (scan: ScanDir<'a>)
        ensures
            scan.dir_contents == self.dir_contents,
            scan.files == self.files,
            text_views(scan.extensions@) == slice_views(extensions@),
    {
        ScanDir {
            dir_contents: self.dir_contents,
            files: self.files,
            extensions: owned_texts(&extensions),
        }
    }

    /// Answers the question. Nothing is read for it: the contents were read
    /// when the snapshot was taken. A directory that could not be read
    /// matches nothing.
    pub fn is_match(&self) -> (found: bool)
        ensures
            found == self.matches(),
    {
        match self.dir_contents {
            Some(contents) => shares_text(&contents.file_names, &self.files) || shares_text(
                &contents.extensions,
                &self.extensions,
            ),
            None => false,
        }
    }
}

/// Whatever is asked of a directory that could not be read, the answer is no.
pub proof fn lemma_unreadable_never_matches(scan: ScanDir)
    requires
        scan.dir_contents is None,
    ensures
        !scan.matches(),
{
}

/// The snapshot that one render works on. It is taken once, before the first
/// module runs, and no module changes it.
#[derive(Debug, PartialEq, Eq)]
pub struct Context {
    /// The directory that the prompt is rendered for.
    pub target_path: String,
    /// The variables of the process environment with their values.
    pub environment: Vec<(String, String)>,
    /// The contents of the target directory, or `None` where it could not
    /// be read.
    pub dir_contents: Option<DirContents>,
    /// The root of the settings tree.
    pub config: ConfigValue,
    /// The external commands that were run, with what they printed.
    pub executions: Vec<Execution>,
    /// What each battery source reported, `None` for a source that failed;
    /// or `None` where the batteries could not be queried at all.
    pub batteries: Option<Vec<Option<Battery>>>,
}

impl Context {
    /// The value of an environment variable in the snapshot.
    pub open spec fn env(&self, name: Seq<char>) -> Option<Seq<char>> {
        text_view(lookup(self.environment@, name))
    }

    /// The subtree of the settings that belongs to the module of the given
    /// name.
    pub open spec fn module_settings(&self, name: Seq<char>) -> Option<&ConfigValue> {
        match self.config.field(name) {
            Some(tree) => Some(&tree),
            None => None,
        }
    }

    /// The value of an environment variable in the snapshot.
    pub fn get_env(&self, name: &str) -> (value: Option<&String>)
        ensures
            match value {
                Some(value) => self.env(name@) == Some(value@),
                None => self.env(name@) is None,
            },
    {
        find_entry(&self.environment, name)
    }

    /// The subtree of the settings that belongs to the module of the given
    /// name, if there is one.
    pub fn module_config(&self, name: &str) -> (config: Option<&ConfigValue>)
        ensures
            config == self.module_settings(name@),
    {
        self.config.get(name)
    }

    /// A module of the given name, with nothing in it yet.
    pub fn new_module(&self, name: &str) -> (module: Module)
        ensures
            module@ == empty_module(name@),
    {
        Module::new(name)
    }

    /// Begins a question to the contents of the target directory.
    pub fn begin_scan(&self) -> (scan: ScanDir<'_>)
        ensures
            scan.dir_contents == match self.dir_contents {
                Some(contents) => Some(&contents),
                None => None,
            },
            scan.files@.len() == 0,
            scan.extensions@.len() == 0,
    {
        ScanDir { dir_contents: self.dir_contents.as_ref(), files: Vec::new(), extensions: Vec::new() }
    }
}

} // verus!
