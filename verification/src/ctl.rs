//! Operator commands and the total mapping from wire tags onto them.

use vstd::prelude::*;

verus! {

/// A command the operator can send over the control channel.  Anything that
/// is not one of the four literal tags arrives as `Invalid`.
#[derive(Clone, Copy, Debug, PartialEq, Eq, Structural)]
pub enum ArunCtrlCmd {
    Start,
    Stop,
    Remove,
    Quit,
    Invalid,
}

/// The command named by a wire tag; every unrecognized tag maps to
/// `Invalid`.
pub open spec fn command_of_tag(s: Seq<char>) -> ArunCtrlCmd {
    if s == "Start"@ {
        ArunCtrlCmd::Start
    } else if s == "Stop"@ {
        ArunCtrlCmd::Stop
    } else if s == "Remove"@ {
        ArunCtrlCmd::Remove
    } else if s == "Quit"@ {
        ArunCtrlCmd::Quit
    } else {
        ArunCtrlCmd::Invalid
    }
}

impl ArunCtrlCmd {
    /// The total mapping from wire tags to commands.
    pub fn from_tag(s: &str) -> (r: ArunCtrlCmd)
        ensures
            r == command_of_tag(s@),
    {
        let owned = s.to_owned();
        if owned == String::from_str("Start") {
            ArunCtrlCmd::Start
        } else if owned == String::from_str("Stop") {
            ArunCtrlCmd::Stop
        } else if owned == String::from_str("Remove") {
            ArunCtrlCmd::Remove
        } else if owned == String::from_str("Quit") {
            ArunCtrlCmd::Quit
        } else {
            ArunCtrlCmd::Invalid
        }
    }

    /// The display name of the command.
    pub fn name(&self) -> (r: String)
        ensures
            *self is Start ==> r@ == "ArunCtrlCmd::Start"@,
            *self is Stop ==> r@ == "ArunCtrlCmd::Stop"@,
            *self is Remove ==> r@ == "ArunCtrlCmd::Remove"@,
            *self is Quit ==> r@ == "ArunCtrlCmd::Quit"@,
            *self is Invalid ==> r@ == "ArunCtrlCmd::Invalid"@,
    {
        match self {
            ArunCtrlCmd::Start => String::from_str("ArunCtrlCmd::Start"),
            ArunCtrlCmd::Stop => String::from_str("ArunCtrlCmd::Stop"),
            ArunCtrlCmd::Remove => String::from_str("ArunCtrlCmd::Remove"),
            ArunCtrlCmd::Quit => String::from_str("ArunCtrlCmd::Quit"),
            ArunCtrlCmd::Invalid => String::from_str("ArunCtrlCmd::Invalid"),
        }
    }
}

} // verus!
