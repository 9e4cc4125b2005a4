//! What the stages share with their host: exit codes and sources.

use crate::error::{Error, ErrorKind};
use crate::unicode::concat_all;
use std::path::PathBuf;
use vstd::prelude::*;
use vstd::string::*;
use vstd::std_specs::convert::FromSpecImpl;

verus! {

/// A path of the file system. What is inside is the standard library's
/// matter; the front end only hands paths on.
#[verifier::external_type_specification]
#[verifier::external_body]
pub struct ExPathBuf(PathBuf);

/// `Clone::clone` of a path gives an equal path.
pub assume_specification[ <PathBuf as Clone>::clone ](path: &PathBuf) -> (copy: PathBuf)
    ensures
        copy == *path,
;

/// The last component of a path as text, where the path has one.
pub uninterp spec fn path_file_name(path: PathBuf) -> Option<Seq<char>>;

/// A path as text.
pub uninterp spec fn path_text(path: PathBuf) -> Seq<char>;

/// Calls `Path::file_name` and turns the name into text with
/// `to_string_lossy`. The result is only named.
#[verifier::external_body]
fn file_name_of(path: &PathBuf) -> (name: Option<String>)
    ensures
        name.deep_view() == path_file_name(*path),
{
    path.file_name().map(|name| name.to_string_lossy().to_string())
}

/// Turns a path into text with `Path::to_string_lossy`. The result is
/// only named.
#[verifier::external_body]
fn text_of(path: &PathBuf) -> (text: String)
    ensures
        text@ == path_text(*path),
{
    path.to_string_lossy().to_string()
}

/// The `file` URL of a path, where `Url::from_file_path` gives one.
pub uninterp spec fn file_url_of(path: PathBuf) -> Option<Seq<char>>;

/// Calls `std::path::absolute`, which makes a path absolute by the
/// current directory without looking at the file system. What it gives
/// depends on where the program runs and is not stated. Relied upon: the
/// empty path, which is the path whose text is empty, is an error.
#[verifier::external_body]
fn absolute(path: &PathBuf) -> (result: Result<PathBuf, std::io::Error>)
    ensures
        path_text(*path).len() == 0 ==> result is Err,
{
    std::path::absolute(path)
}

/// Calls `Url::from_file_path` of `url` and writes the URL out with
/// `to_string`. The result is only named.
#[verifier::external_body]
fn file_url(path: &PathBuf) -> (url: Option<String>)
    ensures
        url.deep_view() == file_url_of(*path),
{
    url::Url::from_file_path(path).ok().map(|url| url.to_string())
}

/// Calls `std::io::Error::new` with the kind `InvalidInput`.
#[verifier::external_body]
fn invalid_input(message: &str) -> (error: std::io::Error) {
    std::io::Error::new(std::io::ErrorKind::InvalidInput, message)
}

/// The content that the lines of a reader make: the lines one after
/// the other, without the line breaks that stood between them.
pub fn read_content_from_lines(lines: Vec<String>) -> (content: String)
    ensures
        content@ == concat_all(lines.deep_view()),
{
    let mut content = String::new();
    let mut i: usize = 0;
    while i < lines.len()
        invariant
            i <= lines.len(),
            content@ == concat_all(lines.deep_view().take(i as int)),
        decreases lines.len() - i,
    {
        proof {
            assert(lines.deep_view().take(i as int + 1).drop_last() =~= lines.deep_view().take(
                i as int,
            ));
        }
        content.append(lines[i].as_str());
        i += 1;
    }
    proof {
        assert(lines.deep_view().take(lines.len() as int) =~= lines.deep_view());
    }
    content
}

/// What making a path absolute comes to, given what the operating
/// system answered: the path it gave, or its error together with the
/// text of the path that was asked about and the exit code for input and
/// output.
pub fn absolute_path_result(path: &PathBuf, outcome: Result<PathBuf, std::io::Error>) -> (result:
    Result<PathBuf, Error>)
    ensures
        match outcome {
            Ok(absolute_path) => result == Ok::<PathBuf, Error>(absolute_path),
            Err(io_error) => {
                &&& result matches Err(error)
                &&& error.exit_code == ExitCode(3)
                &&& error.kind matches ErrorKind::IOError(inner, text)
                &&& inner == io_error
                &&& text@ == path_text(*path)
            },
        },
{
    match outcome {
        Ok(absolute_path) => Ok(absolute_path),
        Err(error) => Err(Error::new(ErrorKind::IOError(error, text_of(path)), ExitCode::IO_ERROR())),
    }
}

/// The absolute form of a path, or the error of the operating system
/// with the path it is about. The operating system decides; the empty
/// path is always an error.
pub fn get_absolute_path(path: PathBuf) -> (result: Result<PathBuf, Error>)
    ensures
        path_text(path).len() == 0 ==> result is Err,
        result matches Err(error) ==> error.is_io_error_at(path_text(path)),
{
    let outcome = absolute(&path);
    absolute_path_result(&path, outcome)
}

/// The `file` URL of a path. A path without one is an error about
/// invalid input whose text is the key of the catalogue entry for it.
pub fn path_to_file_url(path: PathBuf) -> (result: Result<String, Error>)
    ensures
        match file_url_of(path) {
            Some(url) => result matches Ok(text) && text@ == url,
            None => result matches Err(error) && error.is_io_error_at(path_text(path)),
        },
{
    match file_url(&path) {
        Some(url) => Ok(url),
        None => Err(
            Error::new(
                ErrorKind::IOError(
                    invalid_input("utils-path-to-file-url.cannot-convert"),
                    text_of(&path),
                ),
                ExitCode::IO_ERROR(),
            ),
        ),
    }
}

/// The code with which the program ends.
#[derive(Debug, Clone, Copy, PartialEq, Eq, Structural)]
pub struct ExitCode(pub i32);

impl ExitCode {
    /// Something went wrong.
    #[allow(non_snake_case)]
    pub fn ERROR() -> (code: ExitCode)
        ensures
            code == ExitCode(1),
    {
        ExitCode(1)
    }

    /// The input or the way the program was called is not valid.
    #[allow(non_snake_case)]
    pub fn INVALID_INPUT_OR_USAGE() -> (code: ExitCode)
        ensures
            code == ExitCode(2),
    {
        ExitCode(2)
    }

    /// Reading or writing failed.
    #[allow(non_snake_case)]
    pub fn IO_ERROR() -> (code: ExitCode)
        ensures
            code == ExitCode(3),
    {
        ExitCode(3)
    }

    /// The source does not mean anything.
    #[allow(non_snake_case)]
    pub fn SEMANTIC_ERROR() -> (code: ExitCode)
        ensures
            code == ExitCode(12),
    {
        ExitCode(12)
    }

    /// All went well.
    #[allow(non_snake_case)]
    pub fn SUCCESS() -> (code: ExitCode)
        ensures
            code == ExitCode(0),
    {
        ExitCode(0)
    }

    /// The source is not well formed.
    #[allow(non_snake_case)]
    pub fn SYNTAX_ERROR() -> (code: ExitCode)
        ensures
            code == ExitCode(11),
    {
        ExitCode(11)
    }
}

impl From<i32> for ExitCode {
    /// The exit code with a number.
    fn from(value: i32) -> (code: ExitCode) {
        ExitCode(value)
    }
}

impl FromSpecImpl<i32> for ExitCode {
    open spec fn obeys_from_spec() -> bool {
        true
    }

    open spec fn from_spec(value: i32) -> ExitCode {
        ExitCode(value)
    }
}

impl From<ExitCode> for i32 {
    /// The number of an exit code.
    fn from(code: ExitCode) -> (value: i32) {
        code.0
    }
}

impl FromSpecImpl<ExitCode> for i32 {
    open spec fn obeys_from_spec() -> bool {
        true
    }

    open spec fn from_spec(code: ExitCode) -> i32 {
        code.0
    }
}

/// Where a source comes from.
#[derive(Debug, PartialEq, Eq)]
pub enum SourceOrigin {
    /// From a string in the program.
    String,
    /// From the standard input.
    Stdin,
    /// From a line typed at the prompt.
    REPL,
    /// From a file.
    File(PathBuf),
}

impl Clone for SourceOrigin {
    /// The same origin.
    fn clone(&self) -> (origin: SourceOrigin)
        ensures
            origin == *self,
    {
        match self {
            SourceOrigin::String => SourceOrigin::String,
            SourceOrigin::Stdin => SourceOrigin::Stdin,
            SourceOrigin::REPL => SourceOrigin::REPL,
            SourceOrigin::File(path) => SourceOrigin::File(path.clone()),
        }
    }
}

impl SourceOrigin {
    /// Whether the origin has a file name: every origin but a file whose
    /// path has no last component.
    pub open spec fn has_filename(&self) -> bool {
        self matches SourceOrigin::File(path) ==> path_file_name(*path) is Some
    }

    /// The path of the origin: the file's path as text, `stdin` for the
    /// standard input, else the name of the origin.
    pub open spec fn path(&self) -> Seq<char> {
        match self {
            SourceOrigin::File(path) => path_text(*path),
            SourceOrigin::Stdin => "stdin"@,
            SourceOrigin::String => "String"@,
            SourceOrigin::REPL => "REPL"@,
        }
    }

    /// The file name of the origin: the last component of a file's
    /// path, else the path of the origin.
    pub open spec fn filename(&self) -> Seq<char> {
        match self {
            SourceOrigin::File(path) => path_file_name(*path)->0,
            _ => self.path(),
        }
    }

    /// The file name of the origin, or nothing for a file whose path has
    /// no last component.
    pub fn try_get_filename(&self) -> (name: Option<String>)
        ensures
            name is Some == self.has_filename(),
            name matches Some(text) ==> text@ == self.filename(),
    {
        match self {
            SourceOrigin::File(file) => file_name_of(file),
            _ => Some(self.get_path()),
        }
    }

    /// The file name of the origin.
    pub fn get_filename(&self) -> (name: String)
        requires
            self.has_filename(),
        ensures
            name@ == self.filename(),
    {
        match self {
            SourceOrigin::File(file) => {
                match file_name_of(file) {
                    Some(name) => name,
                    None => String::new(),
                }
            },
            _ => self.get_path(),
        }
    }

    /// The path of the origin.
    pub fn get_path(&self) -> (path: String)
        ensures
            path@ == self.path(),
    {
        match self {
            SourceOrigin::File(file) => text_of(file),
            SourceOrigin::Stdin => "stdin".to_string(),
            SourceOrigin::String => "String".to_string(),
            SourceOrigin::REPL => "REPL".to_string(),
        }
    }
}

/// A source: its text and where it comes from.
#[derive(Debug)]
pub struct Source {
    /// Where the text comes from.
    pub origin: SourceOrigin,
    /// The text.
    pub code: String,
}

impl Clone for Source {
    /// The same source.
    fn clone(&self) -> (source: Source)
        ensures
            source == *self,
    {
        Source { origin: self.origin.clone(), code: self.code.clone() }
    }
}

impl Source {
    /// A source with an origin and a text.
    pub fn new(origin: SourceOrigin, code: String) -> (source: Source)
        ensures
            source.origin == origin,
            source.code == code,
    {
        Source { origin, code }
    }

    /// The same text with another origin.
    pub fn with_origin(&self, origin: SourceOrigin) -> (source: Source)
        ensures
            source.origin == origin,
            source.code@ == self.code@,
    {
        Source::new(origin, self.code.clone())
    }

    /// The file name of the source's origin.
    pub fn get_filename(&self) -> (name: String)
        requires
            self.origin.has_filename(),
        ensures
            name@ == self.origin.filename(),
    {
        self.origin.get_filename()
    }

    /// The path of the source's origin.
    pub fn get_path(&self) -> (path: String)
        ensures
            path@ == self.origin.path(),
    {
        self.origin.get_path()
    }

    /// The source that was read from an origin, or the error of the
    /// operating system with the path of the origin.
    pub fn from_read(origin: SourceOrigin, content: Result<String, std::io::Error>) -> (result:
        Result<Source, Error>)
        ensures
            match content {
                Ok(code) => result matches Ok(source) && source.origin == origin && source.code
                    == code,
                Err(_) => result matches Err(error) && error.is_io_error_at(origin.path()),
            },
    {
        match content {
            Ok(code) => Ok(Source::new(origin, code)),
            Err(error) => Err(
                Error::new(ErrorKind::IOError(error, origin.get_path()), ExitCode::IO_ERROR()),
            ),
        }
    }

    /// The identifier of the source: `mabel://stdin` for a string and
    /// for the standard input, `mabel://REPL` for the prompt, and for a
    /// file the `file` URL of its absolute path. A file with the empty
    /// path has no identifier, and neither has one whose absolute path
    /// cannot be found or has no `file` URL: each is an error of input and
    /// output.
    pub fn source_id(&self) -> (result: Result<String, Error>)
        ensures
            match self.origin {
                SourceOrigin::String | SourceOrigin::Stdin => result matches Ok(id) && id@
                    == "mabel://stdin"@,
                SourceOrigin::REPL => result matches Ok(id) && id@ == "mabel://REPL"@,
                SourceOrigin::File(path) => {
                    &&& path_text(path).len() == 0 ==> result is Err
                    &&& result matches Ok(id) ==> exists|absolute_path: PathBuf| #[trigger]
                        file_url_of(absolute_path) == Some(id@)
                    &&& result matches Err(error) ==> error.exit_code == ExitCode(3)
                        && error.kind is IOError
                },
            },
    {
        match &self.origin {
            SourceOrigin::String | SourceOrigin::Stdin => Ok("mabel://stdin".to_string()),
            SourceOrigin::REPL => Ok("mabel://REPL".to_string()),
            SourceOrigin::File(path) => {
                match get_absolute_path(path.clone()) {
                    Ok(abs_path) => path_to_file_url(abs_path),
                    Err(error) => Err(error),
                }
            },
        }
    }
}

impl Default for Source {
    /// The empty text, from a string.
    fn default() -> (source: Source)
        ensures
            source.origin == SourceOrigin::String,
            source.code@ == Seq::<char>::empty(),
    {
        Source { origin: SourceOrigin::String, code: String::new() }
    }
}

impl From<&str> for Source {
    /// The text as a source, from a string.
    fn from(code: &str) -> (source: Source)
        ensures
            source.origin == SourceOrigin::String,
            source.code@ == code@,
    {
        Source::new(SourceOrigin::String, code.to_string())
    }
}

impl FromSpecImpl<&str> for Source {
    open spec fn obeys_from_spec() -> bool {
        false
    }

    open spec fn from_spec(code: &str) -> Source {
        arbitrary()
    }
}

impl From<String> for Source {
    /// The text as a source, from a string.
    fn from(code: String) -> (source: Source) {
        Source::new(SourceOrigin::String, code)
    }
}

impl FromSpecImpl<String> for Source {
    open spec fn obeys_from_spec() -> bool {
        true
    }

    open spec fn from_spec(code: String) -> Source {
        Source { origin: SourceOrigin::String, code }
    }
}

} // verus!
