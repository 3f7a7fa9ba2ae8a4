use gouda::effect::{
    ChannelName, InvalidPayload, ModeString, ScriptEffect, Target, TargetName, Text, TimerName,
    MAX_NAME_LEN, MAX_TEXT_LEN,
};

fn s(x: &str) -> String {
    x.to_string()
}

#[test]
fn text_accepts_plain_text() {
    let t = Text::parse(s("hello world")).unwrap();
    assert_eq!(t.as_str(), "hello world");
}

#[test]
fn text_accepts_empty() {
    let t = Text::parse(s("")).unwrap();
    assert_eq!(t.as_str(), "");
}

#[test]
fn text_accepts_formatting_control_codes() {
    let raw = "\x02bold\x02 \x0304red\x0f \x1ditalic\x1d \x1funder\x1f \x16rev\x16";
    let t = Text::parse(s(raw)).unwrap();
    assert_eq!(t.as_str(), raw);
}

#[test]
fn text_rejects_cr_lf_nul() {
    assert_eq!(Text::parse(s("a\rb")), Err(InvalidPayload::ProtocolChar));
    assert_eq!(Text::parse(s("a\nb")), Err(InvalidPayload::ProtocolChar));
    assert_eq!(Text::parse(s("a\0b")), Err(InvalidPayload::ProtocolChar));
    assert_eq!(Text::parse(s("hi\r\nQUIT :bye")), Err(InvalidPayload::ProtocolChar));
}

#[test]
fn text_length_cap_is_in_bytes() {
    assert_eq!(MAX_TEXT_LEN, 8192);
    let at_cap = "a".repeat(8192);
    assert!(Text::parse(at_cap).is_ok());
    let over = "a".repeat(8193);
    assert_eq!(Text::parse(over), Err(InvalidPayload::TooLong { max: 8192 }));
    // 2731 three-byte characters: fewer than 8192 characters, 8193 bytes.
    let wide = "\u{20ac}".repeat(2731);
    assert_eq!(wide.chars().count(), 2731);
    assert_eq!(Text::parse(wide), Err(InvalidPayload::TooLong { max: 8192 }));
    let wide_ok = "\u{20ac}".repeat(2730);
    assert!(Text::parse(wide_ok).is_ok());
}

#[test]
fn text_length_is_checked_before_protocol_chars() {
    let mut over = "a".repeat(9000);
    over.push('\n');
    assert_eq!(Text::parse(over), Err(InvalidPayload::TooLong { max: 8192 }));
}

#[test]
fn target_name_accepts_nicks_and_channels() {
    assert_eq!(TargetName::parse(s("alice")).unwrap().as_str(), "alice");
    assert_eq!(TargetName::parse(s("#rust")).unwrap().as_str(), "#rust");
    assert_eq!(TargetName::parse(s("[bot]_|x")).unwrap().as_str(), "[bot]_|x");
}

#[test]
fn target_name_rejects_empty() {
    assert_eq!(TargetName::parse(s("")), Err(InvalidPayload::Empty));
}

#[test]
fn target_name_rejects_separators() {
    assert_eq!(TargetName::parse(s("a,b")), Err(InvalidPayload::ForbiddenChar(',')));
    assert_eq!(TargetName::parse(s("a b")), Err(InvalidPayload::ForbiddenChar(' ')));
    assert_eq!(TargetName::parse(s("a\tb")), Err(InvalidPayload::ForbiddenChar('\t')));
    assert_eq!(
        TargetName::parse(s("a\u{3000}b")),
        Err(InvalidPayload::ForbiddenChar('\u{3000}'))
    );
}

#[test]
fn target_name_reports_first_offender() {
    assert_eq!(TargetName::parse(s("a b,c")), Err(InvalidPayload::ForbiddenChar(' ')));
    assert_eq!(TargetName::parse(s("a,b c")), Err(InvalidPayload::ForbiddenChar(',')));
}

#[test]
fn target_name_protocol_chars_come_before_separators() {
    assert_eq!(TargetName::parse(s("a b\r\n")), Err(InvalidPayload::ProtocolChar));
}

#[test]
fn target_name_length_cap() {
    assert_eq!(MAX_NAME_LEN, 256);
    assert!(TargetName::parse("n".repeat(256)).is_ok());
    assert_eq!(
        TargetName::parse("n".repeat(257)),
        Err(InvalidPayload::TooLong { max: 256 })
    );
    // 129 two-byte characters are 258 bytes.
    assert_eq!(
        TargetName::parse("\u{e9}".repeat(129)),
        Err(InvalidPayload::TooLong { max: 256 })
    );
}

#[test]
fn channel_name_accepts_all_prefixes() {
    for name in ["#rust", "&local", "+modeless", "!12345safe"] {
        assert_eq!(ChannelName::parse(s(name)).unwrap().as_str(), name);
    }
}

#[test]
fn channel_name_rejects_bare_nick() {
    assert_eq!(ChannelName::parse(s("rust")), Err(InvalidPayload::ForbiddenChar('r')));
    assert_eq!(ChannelName::parse(s("@ops")), Err(InvalidPayload::ForbiddenChar('@')));
}

#[test]
fn channel_name_rejects_separators_and_empty() {
    assert_eq!(ChannelName::parse(s("")), Err(InvalidPayload::Empty));
    assert_eq!(ChannelName::parse(s("#a b")), Err(InvalidPayload::ForbiddenChar(' ')));
    assert_eq!(ChannelName::parse(s("#a,#b")), Err(InvalidPayload::ForbiddenChar(',')));
    assert_eq!(ChannelName::parse(s("#a\n")), Err(InvalidPayload::ProtocolChar));
    assert_eq!(
        ChannelName::parse(format!("#{}", "c".repeat(256))),
        Err(InvalidPayload::TooLong { max: 256 })
    );
}

#[test]
fn channel_name_prefix_checked_before_separators() {
    assert_eq!(ChannelName::parse(s("x y")), Err(InvalidPayload::ForbiddenChar('x')));
}

#[test]
fn mode_string_accepts_flags_and_parameters() {
    for m in ["+o", "-b", "+mnt", "+o alice", "+ov  alice bob"] {
        assert_eq!(ModeString::parse(s(m)).unwrap().as_str(), m);
    }
}

#[test]
fn mode_string_rejects_exotic_whitespace() {
    assert_eq!(ModeString::parse(s("+o\talice")), Err(InvalidPayload::ForbiddenChar('\t')));
    assert_eq!(
        ModeString::parse(s("+o\u{a0}alice")),
        Err(InvalidPayload::ForbiddenChar('\u{a0}'))
    );
    assert_eq!(ModeString::parse(s("+o\x0balice")), Err(InvalidPayload::ForbiddenChar('\x0b')));
}

#[test]
fn mode_string_rejects_empty_long_and_protocol() {
    assert_eq!(ModeString::parse(s("")), Err(InvalidPayload::Empty));
    assert_eq!(ModeString::parse(s("+o\r\n")), Err(InvalidPayload::ProtocolChar));
    assert_eq!(
        ModeString::parse("o".repeat(257)),
        Err(InvalidPayload::TooLong { max: 256 })
    );
}

#[test]
fn timer_name_accepts_key_alphabet() {
    for n in ["t", "my_timer-1", "ABC_xyz-09"] {
        assert_eq!(TimerName::parse(s(n)).unwrap().as_str(), n);
    }
}

#[test]
fn timer_name_rejects_other_characters() {
    assert_eq!(TimerName::parse(s("my timer")), Err(InvalidPayload::ForbiddenChar(' ')));
    assert_eq!(TimerName::parse(s("t\u{ef}mer")), Err(InvalidPayload::ForbiddenChar('\u{ef}')));
    assert_eq!(TimerName::parse(s("a.b")), Err(InvalidPayload::ForbiddenChar('.')));
    // Timer names reject CR/LF/NUL as forbidden characters.
    assert_eq!(TimerName::parse(s("a\r")), Err(InvalidPayload::ForbiddenChar('\r')));
    assert_eq!(TimerName::parse(s("a\0")), Err(InvalidPayload::ForbiddenChar('\0')));
}

#[test]
fn timer_name_rejects_empty_and_long() {
    assert_eq!(TimerName::parse(s("")), Err(InvalidPayload::Empty));
    assert_eq!(
        TimerName::parse("t".repeat(257)),
        Err(InvalidPayload::TooLong { max: 256 })
    );
    assert!(TimerName::parse("t".repeat(256)).is_ok());
}

#[test]
fn payload_clones_keep_content() {
    let t = Text::parse(s("hi")).unwrap();
    let c = t.clone();
    assert_eq!(c.as_str(), "hi");
    assert_eq!(c, t);
    let n = TargetName::parse(s("bob")).unwrap();
    assert_eq!(n.clone().as_str(), "bob");
    let ch = ChannelName::parse(s("#c")).unwrap();
    assert_eq!(ch.clone().as_str(), "#c");
    let m = ModeString::parse(s("+v x")).unwrap();
    assert_eq!(m.clone().as_str(), "+v x");
    let tm = TimerName::parse(s("tick")).unwrap();
    assert_eq!(tm.clone().as_str(), "tick");
}

#[test]
fn script_effects_are_built_from_validated_parts() {
    let send = ScriptEffect::Send {
        target: Target::Named(TargetName::parse(s("#rust")).unwrap()),
        text: Text::parse(s("hello")).unwrap(),
    };
    let same = send.clone();
    assert_eq!(send, same);
    let notice = ScriptEffect::Notice {
        target: Target::Current,
        text: Text::parse(s("")).unwrap(),
    };
    assert_ne!(send, notice);
    let timer = ScriptEffect::SetTimer {
        name: TimerName::parse(s("tick")).unwrap(),
        delay_ms: 1000,
        repeat: None,
    };
    match &timer {
        ScriptEffect::SetTimer { name, delay_ms, repeat } => {
            assert_eq!(name.as_str(), "tick");
            assert_eq!(*delay_ms, 1000);
            assert_eq!(*repeat, None);
        }
        _ => unreachable!(),
    }
    let part = ScriptEffect::Part {
        channel: ChannelName::parse(s("#rust")).unwrap(),
        reason: Some(Text::parse(s("bye")).unwrap()),
    };
    assert_ne!(part, timer);
}
