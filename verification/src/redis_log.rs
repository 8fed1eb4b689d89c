//! Rendering of packed Redis commands for request logging.
//!
//! A packed command is a sequence of lines separated by CR LF: the argument count, then for
//! each argument its size and its content. The rendering keeps only the contents, separated
//! by spaces.

use vstd::prelude::*;
use vstd::string::*;
use vstd::utf8::{decode_utf8, valid_utf8};

verus! {

/// Which line of a packed command is being read.
#[derive(Debug, Clone, Copy, PartialEq, Eq, Structural)]
pub enum CommandParseMode {
    /// The line holding the number of arguments
    ArgumentCount,
    /// A line holding the size of the next argument
    ArgumentSize,
    /// A line holding an argument
    Argument,
}

/// Line kind after a line of the given kind.
pub open spec fn next_mode(mode: CommandParseMode) -> CommandParseMode {
    match mode {
        CommandParseMode::ArgumentCount => CommandParseMode::ArgumentSize,
        CommandParseMode::ArgumentSize => CommandParseMode::Argument,
        CommandParseMode::Argument => CommandParseMode::ArgumentSize,
    }
}

/// Rendering of `s` from index `i` on, reading a line of kind `mode`: argument characters
/// are kept, every CR LF ends a line, and the end of an argument line emits a space.
pub open spec fn render_from(s: Seq<char>, i: int, mode: CommandParseMode) -> Seq<char>
    decreases s.len() - i,
{
    if i < 0 || i >= s.len() {
        Seq::empty()
    } else if i + 1 < s.len() && s[i] == '\r' && s[i + 1] == '\n' {
        (if mode == CommandParseMode::Argument { seq![' '] } else { Seq::empty() }) + render_from(s, i + 2, next_mode(mode))
    } else {
        (if mode == CommandParseMode::Argument { seq![s[i]] } else { Seq::empty() }) + render_from(s, i + 1, mode)
    }
}

/// The log line of a packed command: `REDIS -> `, the rendered arguments and a line feed.
pub open spec fn spec_command_log_line(s: Seq<char>) -> Seq<char> {
    "REDIS -> "@ + render_from(s, 0, CommandParseMode::ArgumentCount) + seq!['\n']
}

/// What `String::from_utf8_lossy` gives back for bytes (invalid sequences replaced).
pub uninterp spec fn utf8_lossy_text(bytes: Seq<u8>) -> Seq<char>;

/// Calls `String::from_utf8_lossy`, which decodes valid UTF-8 unchanged and replaces each
/// invalid sequence with U+FFFD; the contract states the valid case and names the rest.
#[verifier::external_body]
pub(crate) fn utf8_lossy(bytes: &[u8]) -> (r: String)
    ensures
        r@ == utf8_lossy_text(bytes@),
        valid_utf8(bytes@) ==> r@ == decode_utf8(bytes@),
{
    String::from_utf8_lossy(bytes).into_owned()
}

/// Renders the text of a packed command as a log line.
pub fn command_log_line(text: &str) -> (r: String)
    ensures
        r@ == spec_command_log_line(text@),
{
    proof {
        reveal_strlit("REDIS -> ");
        reveal_strlit(" ");
        reveal_strlit("\n");
    }
    let n = text.unicode_len();
    let mut out = String::from_str("REDIS -> ");
    let mut mode = CommandParseMode::ArgumentCount;
    let mut i: usize = 0;
    let ghost s = text@;
    while i < n
        invariant
            n == s.len(),
            s == text@,
            i <= n,
            out@ + render_from(s, i as int, mode) == "REDIS -> "@ + render_from(s, 0, CommandParseMode::ArgumentCount),
        decreases n - i,
    {
        let c = text.get_char(i);
        if c == '\r' && i + 1 < n && text.get_char(i + 1) == '\n' {
            let ghost before = out@;
            let ghost old_mode = mode;
            if mode == CommandParseMode::Argument {
                out.append(" ");
                proof {
                    reveal_strlit(" ");
                }
                assert(" "@ =~= seq![' ']);
            }
            mode = match mode {
                CommandParseMode::ArgumentCount => CommandParseMode::ArgumentSize,
                CommandParseMode::ArgumentSize => CommandParseMode::Argument,
                CommandParseMode::Argument => CommandParseMode::ArgumentSize,
            };
            assert(out@ + render_from(s, i + 2, mode) =~= before + render_from(s, i as int, old_mode));
            i = i + 2;
        } else {
            let ghost before = out@;
            if mode == CommandParseMode::Argument {
                out.append(text.substring_char(i, i + 1));
            }
            assert(out@ + render_from(s, i + 1, mode) =~= before + render_from(s, i as int, mode));
            i = i + 1;
        }
    }
    out.append("\n");
    assert("\n"@ =~= seq!['\n']);
    out
}

/// Renders packed command bytes (decoded leniently as UTF-8) as a log line.
pub fn packed_command_log_line(bytes: &[u8]) -> (r: String)
    ensures
        r@ == spec_command_log_line(utf8_lossy_text(bytes@)),
{
    let text = utf8_lossy(bytes);
    command_log_line(text.as_str())
}

} // verus!
