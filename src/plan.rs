//! What a creation request amounts to: where the launcher goes, what it holds,
//! or why nothing is written, and the notice that reports the outcome.

use vstd::prelude::*;
use crate::entry::{contents_of, validation_of, DesktopData, Field, ValidationError};
use crate::text::{
    is_white_space, lower_of, lowercase, regex_compiles, regex_replaced, trim_str, trimmed, Pattern,
    PatternError,
};

verus! {

/// The pattern of a run of one or more whitespace characters.
pub const WHITESPACE_RUNS: &'static str = "\\s+";

/// The base of the file name: the trimmed name in lower case, each run of
/// whitespace replaced by one hyphen.
pub open spec fn slug_of(name: Seq<char>) -> Seq<char> {
    regex_replaced(WHITESPACE_RUNS@, lower_of(trimmed(name)), "-"@)
}

/// The launcher's file name for an application name.
pub open spec fn file_name_of(name: Seq<char>) -> Seq<char> {
    slug_of(name) + ".desktop"@
}

/// The launcher's path under a local data directory.
pub open spec fn path_of(data_dir: Seq<char>, file_name: Seq<char>) -> Seq<char> {
    data_dir + "/applications/"@ + file_name
}

/// Why a creation request wrote nothing.
#[derive(Debug, Clone, Copy, PartialEq, Eq, Structural)]
pub enum CreateError {
    /// A required field is blank.
    MissingField(Field),
    /// The local data directory could not be found.
    LocationUnavailable,
    /// The whitespace pattern could not be compiled.
    InvalidPattern,
    /// Writing the file failed.
    WriteFailed,
}

/// A file to be written: its full path and its text.
#[derive(Debug, Clone)]
pub struct FileWrite {
    pub path: String,
    pub contents: String,
}

/// A notification: its summary, its body and the name of its icon.
#[derive(Debug, Clone)]
pub struct Notice {
    pub summary: String,
    pub body: String,
    pub icon: String,
}

/// The icon of every notification.
pub const NOTICE_ICON: &'static str = "document-new";

/// The sentence that reports an error.
pub open spec fn message_of(e: CreateError) -> Seq<char> {
    match e {
        CreateError::MissingField(Field::Name) => "Missing app name"@,
        CreateError::MissingField(Field::ExecCommand) => "Missing exec command"@,
        CreateError::MissingField(Field::IconPath) => "Missing icon"@,
        CreateError::LocationUnavailable => "Could not find the local directory for .desktop files"@,
        CreateError::InvalidPattern => "Could not derive a file name from the app name"@,
        CreateError::WriteFailed => "Could not write the .desktop file"@,
    }
}

impl CreateError {
    /// The sentence that reports this error.
    pub fn message(&self) -> (r: &'static str)
        ensures
            r@ == message_of(*self),
    {
        match self {
            CreateError::MissingField(Field::Name) => "Missing app name",
            CreateError::MissingField(Field::ExecCommand) => "Missing exec command",
            CreateError::MissingField(Field::IconPath) => "Missing icon",
            CreateError::LocationUnavailable => "Could not find the local directory for .desktop files",
            CreateError::InvalidPattern => "Could not derive a file name from the app name",
            CreateError::WriteFailed => "Could not write the .desktop file",
        }
    }
}

impl From<ValidationError> for CreateError {
    fn from(e: ValidationError) -> (r: CreateError) {
        match e {
            ValidationError::MissingField(f) => CreateError::MissingField(f),
        }
    }
}

impl vstd::std_specs::convert::FromSpecImpl<ValidationError> for CreateError {
    open spec fn obeys_from_spec() -> bool {
        true
    }

    open spec fn from_spec(e: ValidationError) -> CreateError {
        match e {
            ValidationError::MissingField(f) => CreateError::MissingField(f),
        }
    }
}

/// Compiles the whitespace-run pattern.
pub fn whitespace_runs() -> (r: Result<Pattern, PatternError>)
    ensures
        r is Ok <==> regex_compiles(WHITESPACE_RUNS@),
        r matches Ok(p) ==> p.source() == WHITESPACE_RUNS@,
{
    Pattern::new(WHITESPACE_RUNS)
}

/// `stem` with the `.desktop` extension appended.
pub fn desktop_file_name(stem: &str) -> (r: String)
    ensures
        r@ == stem@ + ".desktop"@,
{
    let mut r = stem.to_string();
    r.append(".desktop");
    r
}

/// The launcher's file name for an application name: trimmed, lower-cased,
/// whitespace runs collapsed to a hyphen, `.desktop` appended. The base holds
/// no whitespace.
pub fn file_name(name: &str, runs: &Pattern) -> (r: String)
    requires
        runs.source() == WHITESPACE_RUNS@,
    ensures
        r@ == file_name_of(name@),
        forall|i: int| 0 <= i < slug_of(name@).len() ==> !is_white_space(#[trigger] slug_of(name@)[i]),
{
    let lowered = lowercase(trim_str(name));
    proof {
        reveal_strlit("-");
        reveal_strlit("\\s+");
        assert(WHITESPACE_RUNS@ == "\\s+"@);
    }
    let stem = runs.replace_all(lowered.as_str(), "-");
    desktop_file_name(stem.as_str())
}

/// The launcher's path: the `applications` directory under `data_dir`.
pub fn file_path(data_dir: &str, file_name: &str) -> (r: String)
    ensures
        r@ == path_of(data_dir@, file_name@),
{
    let mut r = data_dir.to_string();
    r.append("/applications/");
    r.append(file_name);
    r
}

impl DesktopData {
    /// Decides what a creation request does. A blank required field is
    /// reported first, then a missing data directory; otherwise the launcher
    /// is written under `data_dir`, unless the whitespace pattern does not
    /// compile.
    pub fn plan(&self, data_dir: Option<String>) -> (r: Result<FileWrite, CreateError>)
        ensures
            validation_of(self@) matches Err(ValidationError::MissingField(f))
                ==> r == Err::<FileWrite, CreateError>(CreateError::MissingField(f)),
            validation_of(self@) is Ok && data_dir is None
                ==> r == Err::<FileWrite, CreateError>(CreateError::LocationUnavailable),
            validation_of(self@) is Ok && data_dir is Some ==> (r matches Ok(w) ==> (
                w.path@ == path_of(data_dir->0@, file_name_of(self.app_name@))
                && w.contents@ == contents_of(self@))),
            validation_of(self@) is Ok && data_dir is Some ==> (r is Ok
                <==> regex_compiles(WHITESPACE_RUNS@)),
            validation_of(self@) is Ok && data_dir is Some && !regex_compiles(WHITESPACE_RUNS@)
                ==> r == Err::<FileWrite, CreateError>(CreateError::InvalidPattern),
    {
        match self.validate() {
            Err(e) => Err(CreateError::from(e)),
            Ok(()) => match data_dir {
                None => Err(CreateError::LocationUnavailable),
                Some(dir) => match whitespace_runs() {
                    Err(_) => Err(CreateError::InvalidPattern),
                    Ok(runs) => {
                        let name = file_name(self.app_name.as_str(), &runs);
                        Ok(FileWrite {
                            path: file_path(dir.as_str(), name.as_str()),
                            contents: self.contents(),
                        })
                    },
                },
            },
        }
    }
}

/// The body of the notice for a file written at `path`.
pub open spec fn created_body(path: Seq<char>) -> Seq<char> {
    "The file has been created at "@ + path
}

/// The notice that reports an outcome: the path of the written file, or the
/// error.
pub fn notice_for(outcome: &Result<String, CreateError>) -> (r: Notice)
    ensures
        r.icon@ == NOTICE_ICON@,
        outcome matches Ok(path) ==> r.summary@ == "Desktop file created"@
            && r.body@ == created_body(path@),
        outcome matches Err(e) ==> r.summary@ == "Error"@ && r.body@ == message_of(*e),
{
    match outcome {
        Ok(path) => {
            let mut body = "The file has been created at ".to_string();
            body.append(path.as_str());
            Notice {
                summary: "Desktop file created".to_string(),
                body,
                icon: NOTICE_ICON.to_string(),
            }
        },
        Err(e) => Notice {
            summary: "Error".to_string(),
            body: e.message().to_string(),
            icon: NOTICE_ICON.to_string(),
        },
    }
}

} // verus!
