//! String operations that the entry logic relies on, each behind one trusted
//! item, and the compiled pattern used to collapse whitespace.

use vstd::prelude::*;

verus! {

/// A character of Unicode's White_Space property.
pub open spec fn is_white_space(c: char) -> bool {
    let u = c as u32;
    ||| 0x09 <= u <= 0x0d
    ||| u == 0x20
    ||| u == 0x85
    ||| u == 0xa0
    ||| u == 0x1680
    ||| 0x2000 <= u <= 0x200a
    ||| u == 0x2028
    ||| u == 0x2029
    ||| u == 0x202f
    ||| u == 0x205f
    ||| u == 0x3000
}

/// `s` without its leading whitespace.
pub open spec fn trim_start_of(s: Seq<char>) -> Seq<char>
    decreases s.len(),
{
    if s.len() > 0 && is_white_space(s[0]) {
        trim_start_of(s.drop_first())
    } else {
        s
    }
}

/// `s` without its trailing whitespace.
pub open spec fn trim_end_of(s: Seq<char>) -> Seq<char>
    decreases s.len(),
{
    if s.len() > 0 && is_white_space(s.last()) {
        trim_end_of(s.drop_last())
    } else {
        s
    }
}

/// `s` without its leading and trailing whitespace.
pub open spec fn trimmed(s: Seq<char>) -> Seq<char> {
    trim_end_of(trim_start_of(s))
}

/// Whether `regex::Regex::new` accepts `pattern`.
pub uninterp spec fn regex_compiles(pattern: Seq<char>) -> bool;

/// What `str::to_lowercase` returns for a string.
pub uninterp spec fn lower_of(s: Seq<char>) -> Seq<char>;

/// What `regex::Regex::replace_all` returns when a regex compiled from
/// `pattern` replaces every match in `hay` with `rep`.
pub uninterp spec fn regex_replaced(pattern: Seq<char>, hay: Seq<char>, rep: Seq<char>) -> Seq<char>;

/// Relies on `str::trim`: leading and trailing characters of the White_Space
/// property are removed.
#[verifier::external_body]
pub(crate) fn trim_str(s: &str) -> (r: &str)
    ensures
        r@ == trimmed(s@),
{
    s.trim()
}

/// Relies on `str::to_lowercase`: the result depends on the characters alone.
#[verifier::external_body]
pub(crate) fn lowercase(s: &str) -> (r: String)
    ensures
        r@ == lower_of(s@),
{
    s.to_lowercase()
}

#[verifier::external_type_specification]
#[verifier::external_body]
pub struct ExRegex(regex::Regex);

#[verifier::external_type_specification]
#[verifier::external_body]
pub struct ExRegexError(regex::Error);

/// Relies on `regex::Regex::new`: whether it succeeds depends on the pattern
/// alone.
#[verifier::external_body]
fn compile_regex(pattern: &str) -> (r: Result<regex::Regex, regex::Error>)
    ensures
        r is Ok <==> regex_compiles(pattern@),
{
    regex::Regex::new(pattern)
}

/// The pattern could not be compiled.
#[derive(Debug, Clone, Copy, PartialEq, Eq, Structural)]
pub enum PatternError {
    Invalid,
}

/// A regular expression together with the pattern it was compiled from.
pub struct Pattern {
    re: regex::Regex,
    source: Ghost<Seq<char>>,
}

impl Pattern {
    /// The text of the pattern this value was compiled from.
    pub closed spec fn source(&self) -> Seq<char> {
        self.source@
    }

    /// Compiles `pattern`; fails when the regex engine refuses it.
    pub fn new(pattern: &str) -> (r: Result<Pattern, PatternError>)
        ensures
            r is Ok <==> regex_compiles(pattern@),
            r matches Ok(p) ==> p.source() == pattern@,
            r matches Err(e) ==> e == PatternError::Invalid,
    {
        match compile_regex(pattern) {
            Ok(re) => Ok(Pattern { re, source: Ghost(pattern@) }),
            Err(_) => Err(PatternError::Invalid),
        }
    }

    /// Relies on `regex::Regex::replace_all`: every non-overlapping match in
    /// `hay` is replaced by `rep`. The regex was compiled from `source()`,
    /// which only `new` sets. `\s` is the White_Space class, so with `\s+`
    /// every whitespace character is inside a match, and a replacement without
    /// whitespace or `$` leaves none.
    #[verifier::external_body]
    pub(crate) fn replace_all(&self, hay: &str, rep: &str) -> (r: String)
        ensures
            r@ == regex_replaced(self.source(), hay@, rep@),
            self.source() == "\\s+"@
                && (forall|i: int| 0 <= i < rep@.len()
                    ==> !is_white_space(#[trigger] rep@[i]) && rep@[i] != '$')
                ==> (forall|i: int| 0 <= i < r@.len() ==> !is_white_space(#[trigger] r@[i])),
    {
        self.re.replace_all(hay, rep).into_owned()
    }
}

} // verus!
