//! Script events: the host-agnostic projection of things that happen in the
//! client (an IRC event, a timer firing, a script being loaded).

use vstd::prelude::*;

verus! {

/// The kind of event, used to look up which handlers should run.
#[derive(Debug, Clone, Copy, PartialEq, Eq, Hash, Structural)]
pub enum EventKind {
    // Script lifecycle
    Load,
    Unload,
    // Connection lifecycle
    Connect,
    Disconnect,
    // Messages
    Message,
    Private,
    Notice,
    Action,
    // Channel
    Join,
    Part,
    Quit,
    Nick,
    // Client
    Timer,
    Input,
}

/// The stable lowercase identifier of each event kind.
pub open spec fn event_kind_name(k: EventKind) -> Seq<char> {
    match k {
        EventKind::Load => "load"@,
        EventKind::Unload => "unload"@,
        EventKind::Connect => "connect"@,
        EventKind::Disconnect => "disconnect"@,
        EventKind::Message => "message"@,
        EventKind::Private => "private"@,
        EventKind::Notice => "notice"@,
        EventKind::Action => "action"@,
        EventKind::Join => "join"@,
        EventKind::Part => "part"@,
        EventKind::Quit => "quit"@,
        EventKind::Nick => "nick"@,
        EventKind::Timer => "timer"@,
        EventKind::Input => "input"@,
    }
}

impl EventKind {
    /// Stable lowercase identifier, used when binding handlers.
    pub fn as_str(self) -> (res: &'static str)
        ensures
            res@ == event_kind_name(self),
    {
        match self {
            EventKind::Load => "load",
            EventKind::Unload => "unload",
            EventKind::Connect => "connect",
            EventKind::Disconnect => "disconnect",
            EventKind::Message => "message",
            EventKind::Private => "private",
            EventKind::Notice => "notice",
            EventKind::Action => "action",
            EventKind::Join => "join",
            EventKind::Part => "part",
            EventKind::Quit => "quit",
            EventKind::Nick => "nick",
            EventKind::Timer => "timer",
            EventKind::Input => "input",
        }
    }
}

/// Each event kind has its own name, and names are made of lowercase ASCII
/// letters, so a name identifies its kind.
pub proof fn lemma_event_kind_names_identify_kinds(a: EventKind, b: EventKind)
    ensures
        event_kind_name(a) == event_kind_name(b) ==> a == b,
        0 < event_kind_name(a).len(),
        forall|i: int|
            0 <= i < event_kind_name(a).len() ==> 'a' <= #[trigger] event_kind_name(a)[i] <= 'z',
{
    reveal_strlit("load");
    reveal_strlit("unload");
    reveal_strlit("connect");
    reveal_strlit("disconnect");
    reveal_strlit("message");
    reveal_strlit("private");
    reveal_strlit("notice");
    reveal_strlit("action");
    reveal_strlit("join");
    reveal_strlit("part");
    reveal_strlit("quit");
    reveal_strlit("nick");
    reveal_strlit("timer");
    reveal_strlit("input");
    if event_kind_name(a) == event_kind_name(b) && a != b {
        let x = event_kind_name(a);
        let y = event_kind_name(b);
        assert(x.len() == y.len());
        assert(x[0] == y[0]);
        assert(x[x.len() - 1] == y[y.len() - 1]);
        assert(x[1] == y[1]);
    }
}

} // verus!
