//! The console's commands.

use vstd::prelude::*;
use vstd::string::StrSliceExecFns;
use crate::chat::{replace_char, substituted};

verus! {

/// What a line of console input asks for.
#[derive(Clone, Copy, Debug, PartialEq, Eq, Structural)]
pub enum Command {
    /// Stop the server.
    Stop,
    /// Nothing that the server knows: the line is only logged.
    Other,
}

/// How long a stop may take before the process is ended, in seconds.
pub const FORCED_EXIT_SECS: u64 = 6;

/// How often the console looks whether the network loop has stopped, in
/// milliseconds.
pub const RUN_STATE_POLL_MS: u64 = 25;

/// A line without its line feeds.
pub open spec fn command_text(line: Seq<char>) -> Seq<char> {
    substituted(line, '\n', Seq::<char>::empty())
}

/// Whether `text` begins with the word `stop`.
pub open spec fn begins_with_stop(text: Seq<char>) -> bool {
    text.len() >= 4 && text[0] == 's' && text[1] == 't' && text[2] == 'o' && text[3] == 'p'
}

/// Reads a line of console input: it asks to stop when, line feeds taken
/// out, it begins with `stop`.
pub fn parse_command(line: &str) -> (command: Command)
    ensures
        command == (if begins_with_stop(command_text(line@)) {
            Command::Stop
        } else {
            Command::Other
        }),
{
    proof {
        reveal_strlit("");
        assert(""@ =~= Seq::<char>::empty());
    }
    let cleaned: String = replace_char(line, '\n', "");
    let text: &str = cleaned.as_str();
    if text.unicode_len() >= 4 && text.get_char(0) == 's' && text.get_char(1) == 't'
        && text.get_char(2) == 'o' && text.get_char(3) == 'p' {
        Command::Stop
    } else {
        Command::Other
    }
}

} // verus!
