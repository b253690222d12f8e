//! Resolving a command-line token into a source name, and the error lines for
//! sources that cannot be read.
//!
//! The token `-` stands for standard input and is displayed as `stdin`; any
//! other token is displayed as itself. A path that exists but is a directory,
//! or that the operating system refuses to access, makes the whole run fail
//! with a single line on the error channel.

use vstd::prelude::*;

verus! {

/// Why a source could not be read.
pub enum ResolveError {
    /// The path exists but denotes a directory.
    DirectoryNotFile,
    /// The operating system refused access; the field carries its error text.
    IoFailure(String),
}

impl ResolveError {
    /// The reason text that the error line shows.
    pub open spec fn reason_view(&self) -> Seq<char> {
        match self {
            ResolveError::DirectoryNotFile => "File is directory"@,
            ResolveError::IoFailure(m) => m@,
        }
    }

    /// Render the reason text.
    pub fn reason(&self) -> (r: String)
        ensures
            r@ == self.reason_view(),
    {
        match self {
            ResolveError::DirectoryNotFile => String::from_str("File is directory"),
            ResolveError::IoFailure(m) => m.clone(),
        }
    }
}

/// The line written to the error channel when a source fails:
/// `Error! <reason>: <path>`, newline-terminated.
pub open spec fn error_report(reason: Seq<char>, path: Seq<char>) -> Seq<char> {
    "Error! "@ + reason + ": "@ + path + "\n"@
}

/// Format the error line for a failed source.
pub fn format_error(error_message: &str, path: &str) -> (r: String)
    ensures
        r@ == error_report(error_message@, path@),
{
    let mut s = String::from_str("Error! ");
    s.append(error_message);
    s.append(": ");
    s.append(path);
    s.append("\n");
    s
}

/// The name under which a source is reported: `stdin` for the token `-`,
/// otherwise the token itself.
pub open spec fn display_name_view(token: Seq<char>) -> Seq<char> {
    if token == "-"@ {
        "stdin"@
    } else {
        token
    }
}

/// Resolve a command-line token to the source's display name.
pub fn display_name(token: &str) -> (r: String)
    ensures
        r@ == display_name_view(token@),
{
    proof {
        reveal_strlit("-");
    }
    let len = token.unicode_len();
    if len == 1 && token.get_char(0) == '-' {
        proof {
            assert(token@ =~= "-"@);
        }
        String::from_str("stdin")
    } else {
        String::from_str(token)
    }
}

} // verus!
