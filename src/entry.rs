//! The launcher entry: its fields, its validation rule and the text of the
//! file it becomes.

use vstd::prelude::*;
use crate::text::{trim_str, trimmed};

verus! {

/// A required field of an entry.
#[derive(Debug, Clone, Copy, PartialEq, Eq, Structural)]
pub enum Field {
    Name,
    ExecCommand,
    IconPath,
}

/// Why an entry cannot be written.
#[derive(Debug, Clone, Copy, PartialEq, Eq, Structural)]
pub enum ValidationError {
    MissingField(Field),
}

/// The values of the form, as one launcher definition.
#[derive(Debug, Clone)]
pub struct DesktopData {
    pub app_name: String,
    pub comment: String,
    pub exec_command: String,
    pub icon_filename: String,
    pub categories: String,
    pub extensions: String,
    pub app_type: String,
    pub terminal: bool,
}

/// The fields of an entry as character sequences.
pub ghost struct EntryView {
    pub app_name: Seq<char>,
    pub comment: Seq<char>,
    pub exec_command: Seq<char>,
    pub icon_filename: Seq<char>,
    pub categories: Seq<char>,
    pub extensions: Seq<char>,
    pub app_type: Seq<char>,
    pub terminal: bool,
}

impl View for DesktopData {
    type V = EntryView;

    open spec fn view(&self) -> EntryView {
        EntryView {
            app_name: self.app_name@,
            comment: self.comment@,
            exec_command: self.exec_command@,
            icon_filename: self.icon_filename@,
            categories: self.categories@,
            extensions: self.extensions@,
            app_type: self.app_type@,
            terminal: self.terminal,
        }
    }
}

/// A string is blank when nothing is left of it after trimming.
pub open spec fn blank(s: Seq<char>) -> bool {
    trimmed(s).len() == 0
}

/// The first of three required values that is empty, in the order name, exec
/// command, icon.
pub open spec fn required_result(
    name: Seq<char>,
    exec: Seq<char>,
    icon: Seq<char>,
) -> Result<(), ValidationError> {
    if name.len() == 0 {
        Err(ValidationError::MissingField(Field::Name))
    } else if exec.len() == 0 {
        Err(ValidationError::MissingField(Field::ExecCommand))
    } else if icon.len() == 0 {
        Err(ValidationError::MissingField(Field::IconPath))
    } else {
        Ok(())
    }
}

/// The outcome of validation: the first required field that is blank, in the
/// order name, exec command, icon.
pub open spec fn validation_of(d: EntryView) -> Result<(), ValidationError> {
    required_result(trimmed(d.app_name), trimmed(d.exec_command), trimmed(d.icon_filename))
}

/// The text of a flag in the file.
pub open spec fn bool_text(b: bool) -> Seq<char> {
    if b { "true"@ } else { "false"@ }
}

/// One `key=value` line.
pub open spec fn key_line(key: Seq<char>, value: Seq<char>) -> Seq<char> {
    key + "="@ + value
}

/// A line that is present only when its value is not empty.
pub open spec fn optional_line(key: Seq<char>, value: Seq<char>) -> Seq<Seq<char>> {
    if value.len() > 0 { seq![key_line(key, value)] } else { Seq::empty() }
}

/// The lines of the file for an entry whose fields are written as they stand.
pub open spec fn entry_lines(d: EntryView) -> Seq<Seq<char>> {
    seq!["[Desktop Entry]"@, key_line("Type"@, d.app_type), key_line("Name"@, d.app_name)]
        + optional_line("Comment"@, d.comment)
        + optional_line("Icon"@, d.icon_filename)
        + optional_line("Categories"@, d.categories)
        + optional_line("MimeType"@, d.extensions)
        + seq![key_line("Exec"@, d.exec_command), key_line("Terminal"@, bool_text(d.terminal))]
}

/// Lines separated by a newline, with none after the last.
pub open spec fn join_lines(lines: Seq<Seq<char>>) -> Seq<char>
    decreases lines.len(),
{
    if lines.len() == 0 {
        Seq::empty()
    } else if lines.len() == 1 {
        lines[0]
    } else {
        join_lines(lines.drop_last()) + "\n"@ + lines.last()
    }
}

/// The entry with every field trimmed but the type and the flag, which are
/// written as they stand.
pub open spec fn trimmed_view(v: EntryView) -> EntryView {
    EntryView {
        app_name: trimmed(v.app_name),
        comment: trimmed(v.comment),
        exec_command: trimmed(v.exec_command),
        icon_filename: trimmed(v.icon_filename),
        categories: trimmed(v.categories),
        extensions: trimmed(v.extensions),
        app_type: v.app_type,
        terminal: v.terminal,
    }
}

/// The exact text of the file written for an entry.
pub open spec fn contents_of(v: EntryView) -> Seq<char> {
    join_lines(entry_lines(trimmed_view(v)))
}

/// `join_lines` grows by a newline and the new line when a line is added.
proof fn lemma_join_push(lines: Seq<Seq<char>>, line: Seq<char>)
    requires
        lines.len() >= 1,
    ensures
        join_lines(lines.push(line)) == join_lines(lines) + "\n"@ + line,
{
    assert(lines.push(line).drop_last() =~= lines);
}

/// Appends a newline and the line `key=value` to the text of `lines`.
fn push_line(s: &mut String, key: &str, value: &str, Ghost(lines): Ghost<Seq<Seq<char>>>)
    requires
        lines.len() >= 1,
        old(s)@ == join_lines(lines),
    ensures
        final(s)@ == join_lines(lines.push(key_line(key@, value@))),
{
    s.append("\n");
    s.append(key);
    s.append("=");
    s.append(value);
    proof {
        lemma_join_push(lines, key_line(key@, value@));
        assert(s@ =~= join_lines(lines) + "\n"@ + key_line(key@, value@));
    }
}

/// Reports the first of the already trimmed name, exec command and icon that
/// is empty.
pub fn check_required(name: &str, exec: &str, icon: &str) -> (r: Result<(), ValidationError>)
    ensures
        r == required_result(name@, exec@, icon@),
{
    if name.is_empty() {
        Err(ValidationError::MissingField(Field::Name))
    } else if exec.is_empty() {
        Err(ValidationError::MissingField(Field::ExecCommand))
    } else if icon.is_empty() {
        Err(ValidationError::MissingField(Field::IconPath))
    } else {
        Ok(())
    }
}

impl DesktopData {
    /// An entry with every text field empty and the flag off.
    pub fn new() -> (r: DesktopData)
        ensures
            r@.app_name.len() == 0,
            r@.comment.len() == 0,
            r@.exec_command.len() == 0,
            r@.icon_filename.len() == 0,
            r@.categories.len() == 0,
            r@.extensions.len() == 0,
            r@.app_type.len() == 0,
            !r@.terminal,
    {
        proof {
            reveal_strlit("");
        }
        DesktopData {
            app_name: "".to_string(),
            comment: "".to_string(),
            exec_command: "".to_string(),
            icon_filename: "".to_string(),
            categories: "".to_string(),
            extensions: "".to_string(),
            app_type: "".to_string(),
            terminal: false,
        }
    }

    /// Checks, in order, that the name, the exec command and the icon are not
    /// blank, and reports the first that is.
    pub fn validate(&self) -> (r: Result<(), ValidationError>)
        ensures
            r == validation_of(self@),
    {
        check_required(
            trim_str(self.app_name.as_str()),
            trim_str(self.exec_command.as_str()),
            trim_str(self.icon_filename.as_str()),
        )
    }

    /// The entry with every field trimmed but the type and the flag.
    pub fn trimmed_fields(&self) -> (r: DesktopData)
        ensures
            r@ == trimmed_view(self@),
    {
        DesktopData {
            app_name: trim_str(self.app_name.as_str()).to_string(),
            comment: trim_str(self.comment.as_str()).to_string(),
            exec_command: trim_str(self.exec_command.as_str()).to_string(),
            icon_filename: trim_str(self.icon_filename.as_str()).to_string(),
            categories: trim_str(self.categories.as_str()).to_string(),
            extensions: trim_str(self.extensions.as_str()).to_string(),
            app_type: self.app_type.clone(),
            terminal: self.terminal,
        }
    }

    /// The file text for the fields exactly as they stand: the header, then
    /// `Type`, `Name`, the optional lines whose value is not empty, `Exec` and
    /// `Terminal`, separated by newlines.
    pub fn render(&self) -> (r: String)
        ensures
            r@ == join_lines(entry_lines(self@)),
    {
        let mut s = "[Desktop Entry]".to_string();
        let ghost mut lines: Seq<Seq<char>> = seq!["[Desktop Entry]"@];
        push_line(&mut s, "Type", self.app_type.as_str(), Ghost(lines));
        proof { lines = lines.push(key_line("Type"@, self.app_type@)); }
        push_line(&mut s, "Name", self.app_name.as_str(), Ghost(lines));
        proof { lines = lines.push(key_line("Name"@, self.app_name@)); }
        let ghost fixed = lines;
        if !self.comment.as_str().is_empty() {
            push_line(&mut s, "Comment", self.comment.as_str(), Ghost(lines));
            proof { lines = lines.push(key_line("Comment"@, self.comment@)); }
        }
        assert(lines =~= fixed + optional_line("Comment"@, self.comment@));
        let ghost fixed = lines;
        if !self.icon_filename.as_str().is_empty() {
            push_line(&mut s, "Icon", self.icon_filename.as_str(), Ghost(lines));
            proof { lines = lines.push(key_line("Icon"@, self.icon_filename@)); }
        }
        assert(lines =~= fixed + optional_line("Icon"@, self.icon_filename@));
        let ghost fixed = lines;
        if !self.categories.as_str().is_empty() {
            push_line(&mut s, "Categories", self.categories.as_str(), Ghost(lines));
            proof { lines = lines.push(key_line("Categories"@, self.categories@)); }
        }
        assert(lines =~= fixed + optional_line("Categories"@, self.categories@));
        let ghost fixed = lines;
        if !self.extensions.as_str().is_empty() {
            push_line(&mut s, "MimeType", self.extensions.as_str(), Ghost(lines));
            proof { lines = lines.push(key_line("MimeType"@, self.extensions@)); }
        }
        assert(lines =~= fixed + optional_line("MimeType"@, self.extensions@));
        push_line(&mut s, "Exec", self.exec_command.as_str(), Ghost(lines));
        proof { lines = lines.push(key_line("Exec"@, self.exec_command@)); }
        let flag: &str = if self.terminal { "true" } else { "false" };
        push_line(&mut s, "Terminal", flag, Ghost(lines));
        proof {
            lines = lines.push(key_line("Terminal"@, bool_text(self.terminal)));
            assert(lines =~= entry_lines(self@));
        }
        s
    }

    /// The exact text of the launcher file for this entry: the trimmed fields
    /// rendered, the type as it stands.
    pub fn contents(&self) -> (r: String)
        ensures
            r@ == contents_of(self@),
    {
        self.trimmed_fields().render()
    }
}

} // verus!
