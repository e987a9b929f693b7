//! The control client's command words. The client takes a command word and a
//! service name, sends one encoded request, and prints the decoded reply;
//! only the mapping from word to command is logic, and it is decided here.

use vstd::prelude::*;
use vstd::string::StringExecFns;
use crate::protocol::ServiceCommands;

verus! {

/// The command a word on the command line stands for, if any.
pub open spec fn spec_command_from_word(w: Seq<char>) -> Option<ServiceCommands> {
    if w == "down"@ {
        Some(ServiceCommands::Down)
    } else if w == "kill"@ {
        Some(ServiceCommands::Kill)
    } else if w == "up"@ {
        Some(ServiceCommands::Up)
    } else if w == "restart"@ {
        Some(ServiceCommands::Restart)
    } else if w == "status"@ {
        Some(ServiceCommands::Status)
    } else {
        None
    }
}

/// Parse one command word: exactly the five words `down`, `kill`, `up`,
/// `restart` and `status` name a command.
pub fn command_from_word(word: &String) -> (r: Option<ServiceCommands>)
    ensures
        r == spec_command_from_word(word@),
{
    if *word == String::from_str("down") {
        Some(ServiceCommands::Down)
    } else if *word == String::from_str("kill") {
        Some(ServiceCommands::Kill)
    } else if *word == String::from_str("up") {
        Some(ServiceCommands::Up)
    } else if *word == String::from_str("restart") {
        Some(ServiceCommands::Restart)
    } else if *word == String::from_str("status") {
        Some(ServiceCommands::Status)
    } else {
        None
    }
}

} // verus!
