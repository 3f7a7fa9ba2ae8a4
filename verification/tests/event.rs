use gouda::event::EventKind;

const ALL: [EventKind; 14] = [
    EventKind::Load,
    EventKind::Unload,
    EventKind::Connect,
    EventKind::Disconnect,
    EventKind::Message,
    EventKind::Private,
    EventKind::Notice,
    EventKind::Action,
    EventKind::Join,
    EventKind::Part,
    EventKind::Quit,
    EventKind::Nick,
    EventKind::Timer,
    EventKind::Input,
];

#[test]
fn event_kind_names() {
    let names: Vec<&str> = ALL.iter().map(|k| k.as_str()).collect();
    assert_eq!(
        names,
        vec![
            "load",
            "unload",
            "connect",
            "disconnect",
            "message",
            "private",
            "notice",
            "action",
            "join",
            "part",
            "quit",
            "nick",
            "timer",
            "input"
        ]
    );
}

#[test]
fn event_kind_names_are_distinct_lowercase_identifiers() {
    for a in ALL {
        let n = a.as_str();
        assert!(!n.is_empty());
        assert!(n.chars().all(|c| c.is_ascii_lowercase()));
        for b in ALL {
            assert_eq!(a.as_str() == b.as_str(), a == b);
        }
    }
}
