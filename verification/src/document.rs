//! The record of the document that is open: its text, its path, its name
//! and its size class. It changes as a whole or not at all.

use crate::paths::{
    directory, directory_of, display_name, display_name_of, is_diagram_path, kind_of_path,
    window_title, window_title_of, FileKind, APP_TITLE,
};
use crate::sections::{extract_sections, section_models, sections_of, MarkdownSection};
use crate::settings::ExtensionsConfig;
use crate::text::{is_blank, is_blank_text, same_text};
use vstd::prelude::*;
use vstd::string::StringExecFns;

verus! {

/// A file of more than this many bytes is large: 500 KiB.
pub const LARGE_FILE_THRESHOLD: u64 = 500 * 1024;

/// Whether a document is shown whole or by sections.
#[derive(Clone, Copy, PartialEq, Eq, Debug, Structural)]
pub enum SizeClass {
    Normal,
    Large,
}

/// The size class of a file of `byte_size` bytes: large above the threshold,
/// unless documents are to be shown whole.
pub open spec fn size_class_of(byte_size: u64, no_truncate: bool) -> SizeClass {
    if byte_size > LARGE_FILE_THRESHOLD && !no_truncate {
        SizeClass::Large
    } else {
        SizeClass::Normal
    }
}

/// Classifies a file of `byte_size` bytes.
pub fn classify_size(byte_size: u64, no_truncate: bool) -> (r: SizeClass)
    ensures
        r == size_class_of(byte_size, no_truncate),
{
    if byte_size > LARGE_FILE_THRESHOLD && !no_truncate {
        SizeClass::Large
    } else {
        SizeClass::Normal
    }
}

/// Why a file was not opened.
#[derive(Clone, Copy, PartialEq, Eq, Debug, Structural)]
pub enum LoadError {
    /// The path does not exist.
    NotFound,
    /// The file holds nothing but white space.
    EmptyFile,
    /// The file exists and could not be read.
    ReadFailure,
    /// The path's extension is none of those that the viewer opens.
    UnsupportedType,
}

/// What the error says of `path`, in words.
pub open spec fn message_of(error: LoadError, path: Seq<char>) -> Seq<char> {
    match error {
        LoadError::NotFound => "File not found: "@ + path,
        LoadError::EmptyFile => "File is empty: "@ + path,
        LoadError::ReadFailure => "Failed to read file: "@ + path,
        LoadError::UnsupportedType => "Only markdown and PlantUML files are supported"@,
    }
}

impl LoadError {
    /// The error in words, for the file at `path`.
    pub fn message(&self, path: &str) -> (r: String)
        ensures
            r@ == message_of(*self, path@),
    {
        match self {
            LoadError::NotFound => "File not found: ".to_owned().concat(path),
            LoadError::EmptyFile => "File is empty: ".to_owned().concat(path),
            LoadError::ReadFailure => "Failed to read file: ".to_owned().concat(path),
            LoadError::UnsupportedType => "Only markdown and PlantUML files are supported"
                .to_owned(),
        }
    }
}

/// What an attempt to read a file gave.
#[derive(Debug)]
pub enum ReadOutcome {
    /// There is no file at the path.
    Missing,
    /// The file could not be read.
    Failed,
    /// The file's text, and the file's size in bytes.
    Text { content: String, byte_size: u64 },
}

/// A file that was read and found fit to show.
#[derive(Debug)]
pub struct LoadedDocument {
    pub content: String,
    pub display_name: String,
    pub size_class: SizeClass,
}

/// What a loaded document is, in mathematical terms.
pub struct LoadedModel {
    pub content: Seq<char>,
    pub display_name: Seq<char>,
    pub size_class: SizeClass,
}

impl View for LoadedDocument {
    type V = LoadedModel;

    open spec fn view(&self) -> LoadedModel {
        LoadedModel {
            content: self.content@,
            display_name: self.display_name@,
            size_class: self.size_class,
        }
    }
}

/// The model of what a load returned.
pub open spec fn loaded_model(result: Result<LoadedDocument, LoadError>) -> Result<
    LoadedModel,
    LoadError,
> {
    match result {
        Ok(document) => Ok(document@),
        Err(error) => Err(error),
    }
}

/// What loading gives for a file that is to be shown as `name`.
///
/// A missing file is `NotFound`, a file that could not be read is
/// `ReadFailure`, and one that holds nothing but white space is `EmptyFile`.
/// Any other file is loaded, with its size class.
pub open spec fn load_result_named(name: Seq<char>, outcome: ReadOutcome, no_truncate: bool)
    -> Result<LoadedModel, LoadError> {
    match outcome {
        ReadOutcome::Missing => Err(LoadError::NotFound),
        ReadOutcome::Failed => Err(LoadError::ReadFailure),
        ReadOutcome::Text { content, byte_size } => if is_blank(content@) {
            Err(LoadError::EmptyFile)
        } else {
            Ok(
                LoadedModel {
                    content: content@,
                    display_name: name,
                    size_class: size_class_of(byte_size, no_truncate),
                },
            )
        },
    }
}

/// What loading gives for the file at `path`: it is shown under the name
/// that its path gives it.
pub open spec fn load_result(path: Seq<char>, outcome: ReadOutcome, no_truncate: bool) -> Result<
    LoadedModel,
    LoadError,
> {
    load_result_named(display_name_of(path), outcome, no_truncate)
}

/// Judges what was read of a file that is to be shown as `name`.
pub fn load_named(name: String, outcome: ReadOutcome, no_truncate: bool) -> (r: Result<
    LoadedDocument,
    LoadError,
>)
    ensures
        loaded_model(r) == load_result_named(name@, outcome, no_truncate),
{
    match outcome {
        ReadOutcome::Missing => Err(LoadError::NotFound),
        ReadOutcome::Failed => Err(LoadError::ReadFailure),
        ReadOutcome::Text { content, byte_size } => {
            if is_blank_text(content.as_str()) {
                Err(LoadError::EmptyFile)
            } else {
                Ok(
                    LoadedDocument {
                        content,
                        display_name: name,
                        size_class: classify_size(byte_size, no_truncate),
                    },
                )
            }
        },
    }
}

/// Judges what was read of the file at `path`.
pub fn load(path: &str, outcome: ReadOutcome, no_truncate: bool) -> (r: Result<
    LoadedDocument,
    LoadError,
>)
    ensures
        loaded_model(r) == load_result(path@, outcome, no_truncate),
{
    load_named(display_name(path), outcome, no_truncate)
}

/// What is to follow a document's replacement: the watcher turns to the new
/// path, and the window shows the new name.
#[derive(Debug)]
pub struct Refresh {
    pub watch_target: String,
    pub display_name: String,
    pub window_title: String,
}

/// What the presentation layer is given of the open document.
#[derive(Debug)]
pub struct MarkdownContent {
    pub content: String,
    pub file_path: String,
    pub file_name: String,
    /// The directory of the file, against which relative links are resolved.
    pub file_dir: String,
    pub is_large_file: bool,
    /// The sections of a large document; empty for any other.
    pub sections: Vec<MarkdownSection>,
    pub extensions: ExtensionsConfig,
    pub is_plantuml_file: bool,
}

/// The record of the open document.
#[derive(Debug)]
pub struct DocumentState {
    content: String,
    canonical_path: String,
    display_name: String,
    size_class: SizeClass,
    no_truncate: bool,
}

/// What the record holds, in mathematical terms.
pub struct DocumentModel {
    pub content: Seq<char>,
    /// Empty while no file is open.
    pub canonical_path: Seq<char>,
    pub display_name: Seq<char>,
    pub size_class: SizeClass,
    pub no_truncate: bool,
}

/// The record before any file is open.
pub open spec fn empty_model(no_truncate: bool) -> DocumentModel {
    DocumentModel {
        content: Seq::empty(),
        canonical_path: Seq::empty(),
        display_name: APP_TITLE@,
        size_class: SizeClass::Normal,
        no_truncate,
    }
}

/// The record once `loaded` has replaced what `before` held.
pub open spec fn replaced_model(before: DocumentModel, path: Seq<char>, loaded: LoadedModel)
    -> DocumentModel {
    DocumentModel {
        content: loaded.content,
        canonical_path: path,
        display_name: loaded.display_name,
        size_class: loaded.size_class,
        no_truncate: before.no_truncate,
    }
}

/// What the record must be to be valid: while no file is open it is the
/// empty record, and the text of an open file is never blank.
pub open spec fn model_wf(m: DocumentModel) -> bool {
    if m.canonical_path.len() == 0 {
        m == empty_model(m.no_truncate)
    } else {
        !is_blank(m.content)
    }
}

/// What committing a load at `path` returns, and leaves in the record.
///
/// A load that failed fails the commit with the same error. So does, as
/// `NotFound`, a commit at the empty path, which names no file. Neither
/// changes the record. Any other commit replaces text, path, name and size
/// class together.
pub open spec fn commit_result(
    before: DocumentModel,
    path: Seq<char>,
    loaded: Result<LoadedModel, LoadError>,
) -> Result<DocumentModel, LoadError> {
    match loaded {
        Err(error) => Err(error),
        Ok(document) => if path.len() == 0 || is_blank(document.content) {
            Err(
                if path.len() == 0 {
                    LoadError::NotFound
                } else {
                    LoadError::EmptyFile
                },
            )
        } else {
            Ok(replaced_model(before, path, document))
        },
    }
}

impl View for DocumentState {
    type V = DocumentModel;

    closed spec fn view(&self) -> DocumentModel {
        DocumentModel {
            content: self.content@,
            canonical_path: self.canonical_path@,
            display_name: self.display_name@,
            size_class: self.size_class,
            no_truncate: self.no_truncate,
        }
    }
}

impl DocumentState {
    /// Whether the record is valid.
    pub open spec fn wf(&self) -> bool {
        model_wf(self@)
    }

    /// The record of a viewer that has no file open.
    pub fn new(no_truncate: bool) -> (r: Self)
        ensures
            r.wf(),
            r@ == empty_model(no_truncate),
    {
        DocumentState {
            content: String::new(),
            canonical_path: String::new(),
            display_name: APP_TITLE.to_owned(),
            size_class: SizeClass::Normal,
            no_truncate,
        }
    }

    /// The record of a viewer that starts with a file: the file asked for
    /// as `requested`, whose canonical path and whose reading are given. It
    /// is shown under the name that `requested` gives it.
    pub fn open(requested: &str, canonical_path: String, outcome: ReadOutcome, no_truncate: bool)
        -> (r: Result<DocumentState, LoadError>)
        ensures
            match commit_result(
                empty_model(no_truncate),
                canonical_path@,
                load_result(requested@, outcome, no_truncate),
            ) {
                Ok(after) => r matches Ok(state) && state.wf() && state@ == after,
                Err(error) => r matches Err(e) && e == error,
            },
    {
        let mut state = DocumentState::new(no_truncate);
        let loaded = load(requested, outcome, no_truncate);
        match state.commit(canonical_path, loaded) {
            Ok(_) => Ok(state),
            Err(error) => Err(error),
        }
    }

    /// The text of the open document.
    pub fn content(&self) -> (r: &String)
        ensures
            r@ == self@.content,
    {
        &self.content
    }

    /// The path of the open document; empty while none is open.
    pub fn canonical_path(&self) -> (r: &String)
        ensures
            r@ == self@.canonical_path,
    {
        &self.canonical_path
    }

    /// The name under which the open document is shown.
    pub fn display_name(&self) -> (r: &String)
        ensures
            r@ == self@.display_name,
    {
        &self.display_name
    }

    /// The size class of the open document.
    pub fn size_class(&self) -> (r: SizeClass)
        ensures
            r == self@.size_class,
    {
        self.size_class
    }

    /// Whether large documents are shown whole.
    pub fn no_truncate(&self) -> (r: bool)
        ensures
            r == self@.no_truncate,
    {
        self.no_truncate
    }

    /// Whether a file is open.
    pub fn has_file(&self) -> (r: bool)
        ensures
            r == (self@.canonical_path.len() > 0),
    {
        !self.canonical_path.as_str().is_empty()
    }

    /// Puts a loaded document in the place of the open one, or leaves the
    /// record as it is where the load failed.
    pub fn commit(&mut self, canonical_path: String, loaded: Result<LoadedDocument, LoadError>)
        -> (r: Result<Refresh, LoadError>)
        requires
            old(self).wf(),
        ensures
            final(self).wf(),
            match commit_result(old(self)@, canonical_path@, loaded_model(loaded)) {
                Ok(after) => {
                    &&& final(self)@ == after
                    &&& r matches Ok(refresh)
                    &&& refresh.watch_target@ == canonical_path@
                    &&& refresh.display_name@ == after.display_name
                    &&& refresh.window_title@ == window_title_of(after.display_name)
                },
                Err(error) => r == Err::<Refresh, LoadError>(error) && final(self)@ == old(self)@,
            },
    {
        match loaded {
            Err(error) => Err(error),
            Ok(document) => {
                if canonical_path.as_str().is_empty() {
                    return Err(LoadError::NotFound);
                }
                if is_blank_text(document.content.as_str()) {
                    return Err(LoadError::EmptyFile);
                }
                let refresh = Refresh {
                    watch_target: canonical_path.clone(),
                    display_name: document.display_name.clone(),
                    window_title: window_title(document.display_name.as_str()),
                };
                *self = DocumentState {
                    content: document.content,
                    canonical_path,
                    display_name: document.display_name,
                    size_class: document.size_class,
                    no_truncate: self.no_truncate,
                };
                Ok(refresh)
            },
        }
    }

    /// Opens the file at `canonical_path` in place of the open one, given
    /// what reading it gave; the record is left as it is where the load
    /// fails.
    pub fn replace(&mut self, canonical_path: String, outcome: ReadOutcome) -> (r: Result<
        Refresh,
        LoadError,
    >)
        requires
            old(self).wf(),
        ensures
            final(self).wf(),
            match commit_result(
                old(self)@,
                canonical_path@,
                load_result(canonical_path@, outcome, old(self)@.no_truncate),
            ) {
                Ok(after) => {
                    &&& final(self)@ == after
                    &&& r matches Ok(refresh)
                    &&& refresh.watch_target@ == canonical_path@
                    &&& refresh.display_name@ == after.display_name
                    &&& refresh.window_title@ == window_title_of(after.display_name)
                },
                Err(error) => r == Err::<Refresh, LoadError>(error) && final(self)@ == old(self)@,
            },
    {
        let loaded = load(canonical_path.as_str(), outcome, self.no_truncate);
        self.commit(canonical_path, loaded)
    }

    /// Takes up the text of the open file as it was read again after a
    /// change, at `path`. Says whether the text was taken up. It is not, and
    /// the record is left as it is, where `path` is not the path of the open
    /// file or the load fails.
    pub fn refresh(&mut self, path: &str, outcome: ReadOutcome) -> (changed: bool)
        requires
            old(self).wf(),
        ensures
            final(self).wf(),
            changed == (old(self)@.canonical_path.len() > 0 && path@ == old(self)@.canonical_path
                && load_result(path@, outcome, old(self)@.no_truncate) is Ok),
            changed ==> final(self)@ == (DocumentModel {
                content: load_result(path@, outcome, old(self)@.no_truncate)->Ok_0.content,
                ..old(self)@
            }),
            !changed ==> final(self)@ == old(self)@,
    {
        if !self.has_file() || !same_text(path, self.canonical_path.as_str()) {
            return false;
        }
        match load(path, outcome, self.no_truncate) {
            Ok(document) => {
                *self = DocumentState {
                    content: document.content,
                    canonical_path: self.canonical_path.clone(),
                    display_name: self.display_name.clone(),
                    size_class: self.size_class,
                    no_truncate: self.no_truncate,
                };
                true
            },
            Err(_) => false,
        }
    }

    /// What the presentation layer is given: a copy of the record, the
    /// directory of the file, and the sections of a large document.
    pub fn describe(&self, extensions: ExtensionsConfig) -> (r: MarkdownContent)
        ensures
            r.content@ == self@.content,
            r.file_path@ == self@.canonical_path,
            r.file_name@ == self@.display_name,
            r.file_dir@ == directory_of(self@.canonical_path),
            r.is_large_file == (self@.size_class == SizeClass::Large),
            section_models(r.sections@) == (if self@.size_class == SizeClass::Large {
                sections_of(self@.content)
            } else {
                Seq::empty()
            }),
            r.extensions == extensions,
            r.is_plantuml_file == (kind_of_path(self@.canonical_path) == Some(FileKind::Diagram)),
    {
        let is_large_file = match self.size_class {
            SizeClass::Large => true,
            SizeClass::Normal => false,
        };
        let sections = if is_large_file {
            extract_sections(self.content.as_str())
        } else {
            Vec::new()
        };
        proof {
            if !is_large_file {
                assert(section_models(sections@) =~= Seq::<crate::sections::SectionModel>::empty());
            }
        }
        MarkdownContent {
            content: self.content.clone(),
            file_path: self.canonical_path.clone(),
            file_name: self.display_name.clone(),
            file_dir: directory(self.canonical_path.as_str()),
            is_large_file,
            sections,
            extensions,
            is_plantuml_file: is_diagram_path(self.canonical_path.as_str()),
        }
    }
}

} // verus!
