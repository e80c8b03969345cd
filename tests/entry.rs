use desktop_entry::entry::{check_required, DesktopData, Field, ValidationError};

fn entry(name: &str, exec: &str, icon: &str) -> DesktopData {
    let mut d = DesktopData::new();
    d.app_name = name.to_string();
    d.exec_command = exec.to_string();
    d.icon_filename = icon.to_string();
    d.app_type = "Application".to_string();
    d
}

fn notes() -> DesktopData {
    entry("Notes", "notes-app %f", "/usr/share/icons/notes.png")
}

#[test]
fn new_entry_is_empty() {
    let d = DesktopData::new();
    assert_eq!(d.app_name, "");
    assert_eq!(d.comment, "");
    assert_eq!(d.exec_command, "");
    assert_eq!(d.icon_filename, "");
    assert_eq!(d.categories, "");
    assert_eq!(d.extensions, "");
    assert_eq!(d.app_type, "");
    assert!(!d.terminal);
}

#[test]
fn blank_name_fails_on_name_whatever_else() {
    let missing_name = Err(ValidationError::MissingField(Field::Name));
    assert_eq!(entry("", "run", "/i.png").validate(), missing_name);
    assert_eq!(entry("   \t\n", "run", "/i.png").validate(), missing_name);
    assert_eq!(entry("", "", "").validate(), missing_name);
    assert_eq!(entry(" ", " ", " ").validate(), missing_name);
}

#[test]
fn blank_exec_fails_on_exec() {
    let missing_exec = Err(ValidationError::MissingField(Field::ExecCommand));
    assert_eq!(entry("App", "", "/i.png").validate(), missing_exec);
    assert_eq!(entry("App", "  \t", "").validate(), missing_exec);
}

#[test]
fn blank_icon_fails_on_icon() {
    let missing_icon = Err(ValidationError::MissingField(Field::IconPath));
    assert_eq!(entry("App", "run", "").validate(), missing_icon);
    assert_eq!(entry("App", "run", "   ").validate(), missing_icon);
}

#[test]
fn complete_entry_validates() {
    assert_eq!(notes().validate(), Ok(()));
    let mut d = entry("  App ", " run ", " /i.png ");
    d.app_type = String::new();
    assert_eq!(d.validate(), Ok(()));
}

#[test]
fn check_required_reports_first_empty() {
    assert_eq!(check_required("", "", ""), Err(ValidationError::MissingField(Field::Name)));
    assert_eq!(check_required("a", "", ""), Err(ValidationError::MissingField(Field::ExecCommand)));
    assert_eq!(check_required("a", "b", ""), Err(ValidationError::MissingField(Field::IconPath)));
    assert_eq!(check_required("a", "b", "c"), Ok(()));
    assert_eq!(check_required(" ", "b", "c"), Ok(()));
}

#[test]
fn all_empty_entry_fails_on_name() {
    assert_eq!(DesktopData::new().validate(), Err(ValidationError::MissingField(Field::Name)));
}

#[test]
fn notes_entry_serializes_exactly() {
    let d = notes();
    assert_eq!(d.validate(), Ok(()));
    assert_eq!(
        d.contents(),
        "[Desktop Entry]\nType=Application\nName=Notes\nIcon=/usr/share/icons/notes.png\nExec=notes-app %f\nTerminal=false"
    );
}

#[test]
fn every_line_in_order() {
    let mut d = entry(" Editor ", " edit %u ", " /icons/e.svg ");
    d.comment = "  Edits text ".to_string();
    d.categories = " Utility;TextEditor; ".to_string();
    d.extensions = "text/plain;".to_string();
    d.terminal = true;
    assert_eq!(
        d.contents(),
        "[Desktop Entry]\nType=Application\nName=Editor\nComment=Edits text\nIcon=/icons/e.svg\nCategories=Utility;TextEditor;\nMimeType=text/plain;\nExec=edit %u\nTerminal=true"
    );
}

#[test]
fn blank_optional_fields_are_omitted() {
    let mut d = notes();
    d.comment = "   ".to_string();
    d.categories = "\t".to_string();
    d.extensions = " \n ".to_string();
    let text = d.contents();
    assert!(!text.contains("Comment="));
    assert!(!text.contains("Categories="));
    assert!(!text.contains("MimeType="));
    assert!(text.contains("\nType=Application\n"));
    assert!(text.contains("\nName=Notes\n"));
    assert!(text.contains("\nExec=notes-app %f\n"));
    assert!(text.ends_with("\nTerminal=false"));
}

#[test]
fn type_is_written_as_it_stands() {
    let mut d = notes();
    d.app_type = " Link".to_string();
    assert!(d.contents().starts_with("[Desktop Entry]\nType= Link\nName=Notes\n"));
}

#[test]
fn required_lines_are_always_written() {
    let mut d = DesktopData::new();
    d.terminal = true;
    assert_eq!(d.contents(), "[Desktop Entry]\nType=\nName=\nExec=\nTerminal=true");
}

#[test]
fn render_keeps_fields_untrimmed() {
    let mut d = entry(" A ", "b", "");
    d.comment = " ".to_string();
    assert_eq!(d.render(), "[Desktop Entry]\nType=Application\nName= A \nComment= \nExec=b\nTerminal=false");
}

#[test]
fn trimmed_fields_trims_all_but_type() {
    let mut d = entry(" A ", "\tb\t", " c ");
    d.comment = " x ".to_string();
    d.categories = " y ".to_string();
    d.extensions = " z ".to_string();
    d.app_type = " T ".to_string();
    d.terminal = true;
    let t = d.trimmed_fields();
    assert_eq!(t.app_name, "A");
    assert_eq!(t.exec_command, "b");
    assert_eq!(t.icon_filename, "c");
    assert_eq!(t.comment, "x");
    assert_eq!(t.categories, "y");
    assert_eq!(t.extensions, "z");
    assert_eq!(t.app_type, " T ");
    assert!(t.terminal);
}

#[test]
fn serializing_twice_gives_same_bytes() {
    let mut d = notes();
    d.comment = "Take notes".to_string();
    let first = d.contents();
    let second = d.contents();
    assert_eq!(first.as_bytes(), second.as_bytes());
}

#[test]
fn unicode_whitespace_name_is_blank() {
    assert_eq!(
        entry("\u{3000}\u{a0}\u{2009}", "run", "/i.png").validate(),
        Err(ValidationError::MissingField(Field::Name))
    );
    assert_eq!(entry("\u{200b}", "run", "/i.png").validate(), Ok(()));
}
