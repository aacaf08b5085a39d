//! Scaffolding of Pinocchio program repositories.
//!
//! The crate holds the rules of the scaffolder: which project names are
//! accepted, what every emitted file contains, in which order directories and
//! files are laid down, and how a run moves from stage to stage while outside
//! tools succeed or fail. It performs no input or output itself; a driver
//! carries out the actions it asks for and reports what happened.

use vstd::prelude::*;

pub mod content;
pub mod initializer;
pub mod project;
pub mod report;
pub mod scaffold;
pub mod text;

verus! {

/// What `char::is_alphanumeric` answers for a code point outside ASCII: whether
/// the Unicode character database lists it as alphabetic or numeric.
pub uninterp spec fn unicode_alphanumeric(c: char) -> bool;

/// The ASCII letters and digits.
pub open spec fn is_ascii_alphanumeric(c: char) -> bool {
    ('a' <= c && c <= 'z') || ('A' <= c && c <= 'Z') || ('0' <= c && c <= '9')
}

/// Alphanumeric in the sense of `char::is_alphanumeric`: decided by the ASCII
/// ranges below U+0080 and by the Unicode tables above.
pub open spec fn is_alphanumeric(c: char) -> bool {
    if c <= '\u{7f}' {
        is_ascii_alphanumeric(c)
    } else {
        unicode_alphanumeric(c)
    }
}

/// A character that may occur in a project name.
pub open spec fn is_name_char(c: char) -> bool {
    c == '_' || is_alphanumeric(c)
}

/// A project name is valid when it is not empty and consists of alphanumeric
/// characters and underscores only. Case is kept and nothing is normalised.
pub open spec fn valid_project_name(name: Seq<char>) -> bool {
    name.len() > 0 && forall|i: int| 0 <= i < name.len() ==> #[trigger] is_name_char(name[i])
}

/// Calls `char::is_alphanumeric`. Trusted: for an ASCII character the answer
/// is membership in `a-z`, `A-Z`, `0-9` (the only ASCII code points that
/// Unicode classes as alphabetic or numeric); for any other character the
/// answer is whatever the Unicode tables of std hold, named
/// `unicode_alphanumeric`.
#[verifier::external_body]
fn char_is_alphanumeric(c: char) -> (r: bool)
    ensures
        r == (if c <= '\u{7f}' {
            is_ascii_alphanumeric(c)
        } else {
            unicode_alphanumeric(c)
        }),
{
    c.is_alphanumeric()
}

/// Validates that a project name only contains alphanumeric characters and
/// underscores.
///
/// Valid names: `my_project`, `MyProject`, `project_123`, `_project`.
/// Invalid names: `my-project`, `my project` and the empty string.
pub fn is_valid_project_name(name: &str) -> (ok: bool)
    ensures
        ok == valid_project_name(name@),
{
    if name.is_empty() {
        return false;
    }
    let mut ok = true;
    for c in it: name.chars()
        invariant
            it.seq() == name@,
            ok == (forall|i: int| 0 <= i < it.index() ==> #[trigger] is_name_char(name@[i])),
    {
        let good = c == '_' || char_is_alphanumeric(c);
        assert(good == is_name_char(name@[it.index() as int]));
        if !good {
            ok = false;
        }
    }
    ok
}

/// Every ASCII character of a valid name is a letter, a digit or an
/// underscore: a valid name holds no quote, brace, slash, dot, hyphen or
/// white space, so it can be spliced into generated source text and into
/// paths as it is.
pub proof fn lemma_valid_name_ascii(name: Seq<char>, i: int)
    requires
        valid_project_name(name),
        0 <= i < name.len(),
        name[i] <= '\u{7f}',
    ensures
        name[i] == '_' || is_ascii_alphanumeric(name[i]),
{
    assert(is_name_char(name[i]));
}

} // verus!
