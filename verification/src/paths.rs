//! What the library reads off a path given as text: the file's name, its
//! extension and the kind of file that the extension stands for, the
//! directory it lies in, and the names under which a document is shown.

use crate::text::{chars_of, same_text, string_of, trailing_run, trailing_start, CharClass};
use std::path::Path;
use vstd::prelude::*;
use vstd::string::StringExecFns;

verus! {

/// The name under which the application shows itself, and a document that
/// has no name of its own.
pub const APP_TITLE: &'static str = "Glance";

/// The final component of a path, if it has one: what `Path::file_name`
/// gives for it, by the path syntax of the platform that the library is
/// built for.
pub uninterp spec fn path_file_name(path: Seq<char>) -> Option<Seq<char>>;

/// A path without its final component, if it has one: what `Path::parent`
/// gives for it, by the same syntax.
pub uninterp spec fn path_parent(path: Seq<char>) -> Option<Seq<char>>;

/// A path with another joined to it: what `Path::join` gives for the two, by
/// the same syntax.
pub uninterp spec fn path_join(base: Seq<char>, path: Seq<char>) -> Seq<char>;

/// The lowercase equivalent of a text: what `str::to_lowercase` gives for it.
pub uninterp spec fn lowercase_of(text: Seq<char>) -> Seq<char>;

/// The text that an optional string holds.
pub open spec fn text_of(value: Option<String>) -> Option<Seq<char>> {
    match value {
        Some(s) => Some(s@),
        None => None,
    }
}

/// `Path::file_name`, for a path given as text. The contract only gives the
/// result its name: the same path has the same final component.
#[verifier::external_body]
fn file_name_of(path: &str) -> (r: Option<String>)
    ensures
        text_of(r) == path_file_name(path@),
{
    match Path::new(path).file_name() {
        Some(name) => Some(name.to_string_lossy().into_owned()),
        None => None,
    }
}

/// `Path::parent`, for a path given as text. The contract only gives the
/// result its name: the same path has the same parent.
#[verifier::external_body]
fn parent_of(path: &str) -> (r: Option<String>)
    ensures
        text_of(r) == path_parent(path@),
{
    match Path::new(path).parent() {
        Some(dir) => Some(dir.to_string_lossy().into_owned()),
        None => None,
    }
}

/// `Path::join`, for paths given as text. The contract only gives the result
/// its name: the same two paths join to the same path.
#[verifier::external_body]
pub(crate) fn join_path(base: &str, path: &str) -> (r: String)
    ensures
        r@ == path_join(base@, path@),
{
    Path::new(base).join(path).to_string_lossy().into_owned()
}

/// `str::to_lowercase`. The contract only gives the result its name: the
/// same text has the same lowercase equivalent.
#[verifier::external_body]
fn lowercase(text: &str) -> (r: String)
    ensures
        r@ == lowercase_of(text@),
{
    text.to_lowercase()
}

/// The extension of a file name: what follows its last dot, provided that it
/// has a dot and that its last dot is not its first character.
pub open spec fn extension_of_name(name: Seq<char>) -> Option<Seq<char>> {
    let dot = name.len() - trailing_run(name, CharClass::ExtensionBody) - 1;
    if dot <= 0 {
        None
    } else {
        Some(name.skip(dot + 1))
    }
}

/// The extension of a path: that of its final component.
pub open spec fn extension_of_path(path: Seq<char>) -> Option<Seq<char>> {
    match path_file_name(path) {
        Some(name) => extension_of_name(name),
        None => None,
    }
}

/// The kinds of file that the viewer opens.
#[derive(Clone, Copy, PartialEq, Eq, Debug, Structural)]
pub enum FileKind {
    /// A document to render: `md` or `markdown`.
    Document,
    /// A description of a diagram: `puml` or `plantuml`.
    Diagram,
}

/// The kind of file that an extension, already in lower case, stands for.
pub open spec fn kind_of_extension(lowered: Seq<char>) -> Option<FileKind> {
    if lowered == "md"@ || lowered == "markdown"@ {
        Some(FileKind::Document)
    } else if lowered == "puml"@ || lowered == "plantuml"@ {
        Some(FileKind::Diagram)
    } else {
        None
    }
}

/// The kind of file that a path names, going by its extension without regard
/// to case. A path without an extension names none.
pub open spec fn kind_of_path(path: Seq<char>) -> Option<FileKind> {
    match extension_of_path(path) {
        Some(extension) => kind_of_extension(lowercase_of(extension)),
        None => None,
    }
}

/// The name under which the file at `path` is shown: its final component,
/// or the application's own name where it has none.
pub open spec fn display_name_of(path: Seq<char>) -> Seq<char> {
    match path_file_name(path) {
        Some(name) => name,
        None => APP_TITLE@,
    }
}

/// The directory in which the file at `path` lies, or the empty text where
/// the path has no parent.
pub open spec fn directory_of(path: Seq<char>) -> Seq<char> {
    match path_parent(path) {
        Some(dir) => dir,
        None => Seq::empty(),
    }
}

/// The title of the window that shows the document called `name`.
pub open spec fn window_title_of(name: Seq<char>) -> Seq<char> {
    name + " - "@ + APP_TITLE@
}

/// The extension of the file name `name`.
pub fn name_extension(name: &str) -> (r: Option<String>)
    ensures
        text_of(r) == extension_of_name(name@),
{
    let cs = chars_of(name);
    proof {
        assert(cs@.subrange(0, cs@.len() as int) =~= cs@);
    }
    let after_dot = trailing_start(&cs, 0, cs.len(), CharClass::ExtensionBody);
    if after_dot <= 1 {
        None
    } else {
        proof {
            assert(cs@.subrange(after_dot as int, cs@.len() as int) =~= cs@.skip(after_dot as int));
        }
        Some(string_of(&cs, after_dot, cs.len()))
    }
}

/// The extension of `path`.
pub fn extension(path: &str) -> (r: Option<String>)
    ensures
        text_of(r) == extension_of_path(path@),
{
    match file_name_of(path) {
        Some(name) => name_extension(name.as_str()),
        None => None,
    }
}

/// The kind of file that the extension `lowered`, already in lower case,
/// stands for.
pub fn classify_extension(lowered: &str) -> (r: Option<FileKind>)
    ensures
        r == kind_of_extension(lowered@),
{
    if same_text(lowered, "md") || same_text(lowered, "markdown") {
        Some(FileKind::Document)
    } else if same_text(lowered, "puml") || same_text(lowered, "plantuml") {
        Some(FileKind::Diagram)
    } else {
        None
    }
}

/// The kind of file that `path` names.
pub fn classify_path(path: &str) -> (r: Option<FileKind>)
    ensures
        r == kind_of_path(path@),
{
    match extension(path) {
        Some(found) => {
            let lowered = lowercase(found.as_str());
            classify_extension(lowered.as_str())
        },
        None => None,
    }
}

/// Whether `path` names a description of a diagram.
pub fn is_diagram_path(path: &str) -> (r: bool)
    ensures
        r == (kind_of_path(path@) == Some(FileKind::Diagram)),
{
    match classify_path(path) {
        Some(FileKind::Diagram) => true,
        _ => false,
    }
}

/// The name to show for a file whose path has the final component
/// `file_name`.
pub fn display_name_from(file_name: Option<String>) -> (r: String)
    ensures
        r@ == (match file_name {
            Some(name) => name@,
            None => APP_TITLE@,
        }),
{
    match file_name {
        Some(name) => name,
        None => APP_TITLE.to_owned(),
    }
}

/// The name under which the file at `path` is shown.
pub fn display_name(path: &str) -> (r: String)
    ensures
        r@ == display_name_of(path@),
{
    display_name_from(file_name_of(path))
}

/// The directory in which the file at `path` lies.
pub fn directory(path: &str) -> (r: String)
    ensures
        r@ == directory_of(path@),
{
    match parent_of(path) {
        Some(dir) => dir,
        None => String::new(),
    }
}

/// The title of the window that shows the document called `name`.
pub fn window_title(name: &str) -> (r: String)
    ensures
        r@ == window_title_of(name@),
{
    let mut title = name.to_owned();
    title.append(" - ");
    title.append(APP_TITLE);
    title
}

/// The title of the window at startup: the application's own name while no
/// document has a name of its own, else the document's window title.
pub fn initial_window_title(name: &str) -> (r: String)
    ensures
        r@ == (if name@ == APP_TITLE@ {
            APP_TITLE@
        } else {
            window_title_of(name@)
        }),
{
    if same_text(name, APP_TITLE) {
        APP_TITLE.to_owned()
    } else {
        window_title(name)
    }
}

} // verus!
