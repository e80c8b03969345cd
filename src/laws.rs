//! Properties of validation and of the file text, proved over the models that
//! the functions' contracts use.

use vstd::prelude::*;
use crate::text::trimmed;
use crate::entry::{
    blank, contents_of, entry_lines, key_line, trimmed_view, validation_of, EntryView, Field,
    ValidationError,
};

verus! {

/// `s` begins with `prefix`.
pub open spec fn starts_with(s: Seq<char>, prefix: Seq<char>) -> bool {
    prefix.len() <= s.len() && s.subrange(0, prefix.len() as int) == prefix
}

/// Some line of `lines` is a `key=` line.
pub open spec fn has_key(lines: Seq<Seq<char>>, key: Seq<char>) -> bool {
    exists|i: int| 0 <= i < lines.len() && #[trigger] starts_with(lines[i], key + "="@)
}

/// An entry whose name is blank fails on the name, whatever its other fields.
pub proof fn law_blank_name(v: EntryView)
    requires
        blank(v.app_name),
    ensures
        validation_of(v) == Err::<(), ValidationError>(ValidationError::MissingField(Field::Name)),
{
}

/// An entry whose name is empty, such as one with every field empty, fails on
/// the name.
pub proof fn law_empty_name(v: EntryView)
    requires
        v.app_name.len() == 0,
    ensures
        validation_of(v) == Err::<(), ValidationError>(ValidationError::MissingField(Field::Name)),
{
    assert(trimmed(v.app_name).len() == 0);
    law_blank_name(v);
}

/// An entry with a name and a blank exec command fails on the exec command,
/// never on the name.
pub proof fn law_blank_exec(v: EntryView)
    requires
        !blank(v.app_name),
        blank(v.exec_command),
    ensures
        validation_of(v) == Err::<(), ValidationError>(
            ValidationError::MissingField(Field::ExecCommand),
        ),
{
}

/// An entry with a name and an exec command but a blank icon fails on the icon.
pub proof fn law_blank_icon(v: EntryView)
    requires
        !blank(v.app_name),
        !blank(v.exec_command),
        blank(v.icon_filename),
    ensures
        validation_of(v) == Err::<(), ValidationError>(ValidationError::MissingField(Field::IconPath)),
{
}

/// A `key=value` line begins with `key=`.
proof fn lemma_key_line_prefix(key: Seq<char>, value: Seq<char>)
    ensures
        starts_with(key_line(key, value), key + "="@),
{
    assert(key_line(key, value).subrange(0, (key + "="@).len() as int) =~= key + "="@);
}

/// The first two characters of each line of the file name the line's key; an
/// optional line is there only when its value is not empty.
proof fn lemma_line_lead(t: EntryView, i: int)
    requires
        0 <= i < entry_lines(t).len(),
    ensures
        ({
            let l = entry_lines(t)[i];
            &&& l.len() >= 2
            &&& {
                ||| l[0] == '['
                ||| l[0] == 'T' && l[1] == 'y'
                ||| l[0] == 'N'
                ||| l[0] == 'C' && l[1] == 'o' && t.comment.len() > 0
                ||| l[0] == 'I' && t.icon_filename.len() > 0
                ||| l[0] == 'C' && l[1] == 'a' && t.categories.len() > 0
                ||| l[0] == 'M' && t.extensions.len() > 0
                ||| l[0] == 'E'
                ||| l[0] == 'T' && l[1] == 'e'
            }
        }),
{
    reveal_strlit("[Desktop Entry]");
    reveal_strlit("Type");
    reveal_strlit("Name");
    reveal_strlit("Comment");
    reveal_strlit("Icon");
    reveal_strlit("Categories");
    reveal_strlit("MimeType");
    reveal_strlit("Exec");
    reveal_strlit("Terminal");
}

/// A line that begins with `key=` begins with the first two characters of
/// `key`.
proof fn lemma_prefix_lead(l: Seq<char>, key: Seq<char>)
    requires
        key.len() >= 2,
        starts_with(l, key + "="@),
    ensures
        l[0] == key[0],
        l[1] == key[1],
{
    assert(l.subrange(0, (key + "="@).len() as int)[0] == (key + "="@)[0]);
    assert(l.subrange(0, (key + "="@).len() as int)[1] == (key + "="@)[1]);
}

/// No line of the file is a `key=` line when no line begins with the first two
/// characters of `key`.
proof fn lemma_no_line_with_lead(t: EntryView, key: Seq<char>)
    requires
        key.len() >= 2,
        forall|i: int| 0 <= i < entry_lines(t).len() ==> {
            let l = #[trigger] entry_lines(t)[i];
            !(l[0] == key[0] && l[1] == key[1])
        },
    ensures
        !has_key(entry_lines(t), key),
{
    if has_key(entry_lines(t), key) {
        let i = choose|i: int|
            0 <= i < entry_lines(t).len() && #[trigger] starts_with(entry_lines(t)[i], key + "="@);
        lemma_prefix_lead(entry_lines(t)[i], key);
    }
}

/// The file text of every entry is its lines joined by newlines; it always
/// holds the `Type`, `Name`, `Exec` and `Terminal` lines, and it holds a
/// `Comment`, `Icon`, `Categories` or `MimeType` line exactly when that field is
/// not blank.
pub proof fn law_file_lines(v: EntryView)
    ensures
        ({
            let lines = entry_lines(trimmed_view(v));
            &&& contents_of(v) == crate::entry::join_lines(lines)
            &&& has_key(lines, "Type"@)
            &&& has_key(lines, "Name"@)
            &&& has_key(lines, "Exec"@)
            &&& has_key(lines, "Terminal"@)
            &&& has_key(lines, "Comment"@) <==> !blank(v.comment)
            &&& has_key(lines, "Icon"@) <==> !blank(v.icon_filename)
            &&& has_key(lines, "Categories"@) <==> !blank(v.categories)
            &&& has_key(lines, "MimeType"@) <==> !blank(v.extensions)
        }),
{
    let t = trimmed_view(v);
    let lines = entry_lines(t);
    reveal_strlit("Type");
    reveal_strlit("Name");
    reveal_strlit("Comment");
    reveal_strlit("Icon");
    reveal_strlit("Categories");
    reveal_strlit("MimeType");
    reveal_strlit("Exec");
    reveal_strlit("Terminal");
    let n = lines.len() as int;
    lemma_key_line_prefix("Type"@, t.app_type);
    lemma_key_line_prefix("Name"@, t.app_name);
    lemma_key_line_prefix("Exec"@, t.exec_command);
    lemma_key_line_prefix("Terminal"@, crate::entry::bool_text(t.terminal));
    assert(lines[1] == key_line("Type"@, t.app_type));
    assert(lines[2] == key_line("Name"@, t.app_name));
    assert(lines[n - 2] == key_line("Exec"@, t.exec_command));
    assert(lines[n - 1] == key_line("Terminal"@, crate::entry::bool_text(t.terminal)));
    assert(starts_with(lines[1], "Type"@ + "="@));
    assert(starts_with(lines[2], "Name"@ + "="@));
    assert(starts_with(lines[n - 2], "Exec"@ + "="@));
    assert(starts_with(lines[n - 1], "Terminal"@ + "="@));
    let oc = if t.comment.len() > 0 { 1int } else { 0int };
    let oi = if t.icon_filename.len() > 0 { 1int } else { 0int };
    let oca = if t.categories.len() > 0 { 1int } else { 0int };
    if t.comment.len() > 0 {
        lemma_key_line_prefix("Comment"@, t.comment);
        assert(lines[3] == key_line("Comment"@, t.comment));
        assert(starts_with(lines[3], "Comment"@ + "="@));
    } else {
        assert forall|i: int| 0 <= i < lines.len() implies {
            let l = #[trigger] lines[i];
            !(l[0] == "Comment"@[0] && l[1] == "Comment"@[1])
        } by {
            lemma_line_lead(t, i);
        }
        lemma_no_line_with_lead(t, "Comment"@);
    }
    if t.icon_filename.len() > 0 {
        lemma_key_line_prefix("Icon"@, t.icon_filename);
        assert(lines[3 + oc] == key_line("Icon"@, t.icon_filename));
        assert(starts_with(lines[3 + oc], "Icon"@ + "="@));
    } else {
        assert forall|i: int| 0 <= i < lines.len() implies {
            let l = #[trigger] lines[i];
            !(l[0] == "Icon"@[0] && l[1] == "Icon"@[1])
        } by {
            lemma_line_lead(t, i);
        }
        lemma_no_line_with_lead(t, "Icon"@);
    }
    if t.categories.len() > 0 {
        lemma_key_line_prefix("Categories"@, t.categories);
        assert(lines[3 + oc + oi] == key_line("Categories"@, t.categories));
        assert(starts_with(lines[3 + oc + oi], "Categories"@ + "="@));
    } else {
        assert forall|i: int| 0 <= i < lines.len() implies {
            let l = #[trigger] lines[i];
            !(l[0] == "Categories"@[0] && l[1] == "Categories"@[1])
        } by {
            lemma_line_lead(t, i);
        }
        lemma_no_line_with_lead(t, "Categories"@);
    }
    if t.extensions.len() > 0 {
        lemma_key_line_prefix("MimeType"@, t.extensions);
        assert(lines[3 + oc + oi + oca] == key_line("MimeType"@, t.extensions));
        assert(starts_with(lines[3 + oc + oi + oca], "MimeType"@ + "="@));
    } else {
        assert forall|i: int| 0 <= i < lines.len() implies {
            let l = #[trigger] lines[i];
            !(l[0] == "MimeType"@[0] && l[1] == "MimeType"@[1])
        } by {
            lemma_line_lead(t, i);
        }
        lemma_no_line_with_lead(t, "MimeType"@);
    }
}

/// The file text depends on the entry's fields alone: two entries with the
/// same fields, or one entry serialized twice, give the same text.
pub proof fn law_contents_deterministic(a: EntryView, b: EntryView)
    requires
        a == b,
    ensures
        contents_of(a) == contents_of(b),
{
}

} // verus!
