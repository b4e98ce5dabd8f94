//! The command vocabulary of the control channel and the translator
//! that maps one raw command string to typed messages.
//!
//! Translation is total: every string yields either the commands of the
//! known vocabulary or a passthrough carrying the text unchanged.

use vstd::prelude::*;

use crate::text::str_eq;

verus! {

/// One overlay surface of the shell.
#[derive(Clone, Copy, PartialEq, Eq, Structural, Debug)]
pub enum Component {
    Top,
    Right,
    Launcher,
}

/// One typed state-change request, applied by the state actor.
///
/// `HideLauncher` is internal: it is re-enqueued through the same
/// ordered queue after a fixed delay when a launcher hide is requested,
/// and performs the deferred physical teardown if the hide is still
/// wanted when it fires.
#[derive(Clone, Copy, PartialEq, Eq, Structural, Debug)]
pub enum Message {
    Toggle { component: Component },
    On { component: Component },
    Off { component: Component },
    HideLauncher,
}

/// What one command string translates to: messages of the known
/// vocabulary, or the text itself, forwarded verbatim to the
/// passthrough target which owns the single reply of the connection.
#[derive(Debug)]
pub enum Translation {
    Commands(Vec<Message>),
    Passthrough(String),
}

/// The known vocabulary: the messages a command string stands for,
/// or `None` where the string is not a known command.
pub open spec fn known_commands(s: Seq<char>) -> Option<Seq<Message>> {
    if s == "launcher"@ {
        Some(seq![Message::Toggle { component: Component::Launcher }])
    } else if s == "toggle top"@ {
        Some(seq![Message::Toggle { component: Component::Top }])
    } else if s == "toggle right"@ {
        Some(seq![Message::Toggle { component: Component::Right }])
    } else if s == "toggle all"@ {
        Some(
            seq![
                Message::Toggle { component: Component::Top },
                Message::Toggle { component: Component::Right },
            ],
        )
    } else if s == "on all"@ {
        Some(
            seq![
                Message::On { component: Component::Top },
                Message::On { component: Component::Right },
            ],
        )
    } else if s == "off all"@ {
        Some(
            seq![
                Message::Off { component: Component::Top },
                Message::Off { component: Component::Right },
            ],
        )
    } else {
        None
    }
}

/// Maps a raw command string to its translation.  Total: a string
/// outside the vocabulary is never an error, it becomes a passthrough
/// carrying the text unchanged.
pub fn translate(msg: &str) -> (r: Translation)
    ensures
        known_commands(msg@) matches Some(cmds) ==> (r matches Translation::Commands(v) && v@
            == cmds),
        known_commands(msg@) is None ==> (r matches Translation::Passthrough(t) && t@ == msg@),
{
    if str_eq(msg, "launcher") {
        let v = vec![Message::Toggle { component: Component::Launcher }];
        proof {
            assert(v@ =~= known_commands(msg@)->Some_0);
        }
        Translation::Commands(v)
    } else if str_eq(msg, "toggle top") {
        let v = vec![Message::Toggle { component: Component::Top }];
        proof {
            assert(v@ =~= known_commands(msg@)->Some_0);
        }
        Translation::Commands(v)
    } else if str_eq(msg, "toggle right") {
        let v = vec![Message::Toggle { component: Component::Right }];
        proof {
            assert(v@ =~= known_commands(msg@)->Some_0);
        }
        Translation::Commands(v)
    } else if str_eq(msg, "toggle all") {
        let v = vec![
            Message::Toggle { component: Component::Top },
            Message::Toggle { component: Component::Right },
        ];
        proof {
            assert(v@ =~= known_commands(msg@)->Some_0);
        }
        Translation::Commands(v)
    } else if str_eq(msg, "on all") {
        let v = vec![
            Message::On { component: Component::Top },
            Message::On { component: Component::Right },
        ];
        proof {
            assert(v@ =~= known_commands(msg@)->Some_0);
        }
        Translation::Commands(v)
    } else if str_eq(msg, "off all") {
        let v = vec![
            Message::Off { component: Component::Top },
            Message::Off { component: Component::Right },
        ];
        proof {
            assert(v@ =~= known_commands(msg@)->Some_0);
        }
        Translation::Commands(v)
    } else {
        Translation::Passthrough(String::from_str(msg))
    }
}

} // verus!
