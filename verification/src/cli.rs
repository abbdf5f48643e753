//! The command line: no options beyond help and version.

use vstd::prelude::*;
use crate::profile::str_eq;

verus! {

/// What the first command-line argument asks for.
#[derive(Debug)]
pub enum Command {
    Run,
    Help,
    Version,
    Unexpected(String),
}


/// No argument runs the manager; `-h`/`--help` and `-V`/`--version` answer
/// and leave; anything else is refused.
pub fn parse_args(first: Option<&str>) -> (c: Command)
    ensures
        first is None ==> c is Run,
        first matches Some(a) ==> if a@ == "-h"@ || a@ == "--help"@ {
            c is Help
        } else if a@ == "-V"@ || a@ == "--version"@ {
            c is Version
        } else {
            c matches Command::Unexpected(s) && s@ == a@
        },
{
    match first {
        None => Command::Run,
        Some(a) => if str_eq(a, "-h") || str_eq(a, "--help") {
            Command::Help
        } else if str_eq(a, "-V") || str_eq(a, "--version") {
            Command::Version
        } else {
            Command::Unexpected(a.to_string())
        },
    }
}

/// The text `--help` prints.
pub fn usage() -> (s: &'static str)
    ensures
        s@ == "wifimanager \u{2014} a terminal Wi-Fi manager for NetworkManager\n\nusage: wifimanager\n\nTalks to NetworkManager over D-Bus. Takes no options; press ? inside for keys.\nChanging anything (joining, scanning, toggling the radio) goes through polkit,\nso run it from a local login session or as root."@,
{
    "wifimanager \u{2014} a terminal Wi-Fi manager for NetworkManager\n\nusage: wifimanager\n\nTalks to NetworkManager over D-Bus. Takes no options; press ? inside for keys.\nChanging anything (joining, scanning, toggling the radio) goes through polkit,\nso run it from a local login session or as root."
}

} // verus!
