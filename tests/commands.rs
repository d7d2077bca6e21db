use hex_caster::command::{classify_command, CmdHandler, Command, Mode};

#[test]
fn learn_and_cast_commands() {
    let h = CmdHandler::new();
    assert!(matches!(h.handle_data(b"/learn"), Command::Learn));
    assert!(matches!(h.handle_data(b"/learn now"), Command::Learn));
    assert!(matches!(h.handle_data(b"/cast"), Command::Cast));
    assert!(matches!(h.handle_data(b"/castle"), Command::Cast));
}

#[test]
fn greet_carries_name() {
    let h = CmdHandler::new();
    match h.handle_data("/greet Zoë".as_bytes()) {
        Command::Greet(name) => assert_eq!(name, "Zoë".as_bytes().to_vec()),
        other => panic!("unexpected {:?}", other),
    }
    match h.handle_data(b"/greet ") {
        Command::Greet(name) => assert!(name.is_empty()),
        other => panic!("unexpected {:?}", other),
    }
    // without the space it is no greeting
    assert!(matches!(h.handle_data(b"/greet"), Command::Unknown));
}

#[test]
fn unknown_and_plain_lines() {
    let h = CmdHandler::new();
    assert!(matches!(h.handle_data(b"/help"), Command::Unknown));
    assert!(matches!(h.handle_data(b"/"), Command::Unknown));
    assert!(matches!(h.handle_data(b"hello"), Command::Chat));
    assert!(matches!(h.handle_data(b""), Command::Chat));
    assert!(matches!(h.handle_data(b" /learn"), Command::Chat));
}

#[test]
fn invalid_utf8_is_malformed() {
    let h = CmdHandler::new();
    assert!(matches!(h.handle_data(&[47, 108, 101, 97, 114, 110, 0xff]), Command::Malformed));
    assert!(matches!(h.handle_data(&[0xc3]), Command::Malformed));
    assert!(matches!(h.handle_data(&[0xc3, 0xa9]), Command::Chat));
}

#[test]
fn classify_with_known_validity() {
    assert!(matches!(classify_command(b"/learn", false), Command::Malformed));
    assert!(matches!(classify_command(b"/learn", true), Command::Learn));
    assert!(matches!(classify_command(b"/cast", true), Command::Cast));
}

#[test]
fn commands_set_mode() {
    assert_eq!(Command::Learn.next_mode(Mode::Casting), Mode::Learning);
    assert_eq!(Command::Cast.next_mode(Mode::Learning), Mode::Casting);
    assert_eq!(Command::Unknown.next_mode(Mode::Casting), Mode::Casting);
    assert_eq!(Command::Chat.next_mode(Mode::Learning), Mode::Learning);
    assert_eq!(Command::Malformed.next_mode(Mode::Casting), Mode::Casting);
    assert_eq!(Command::Greet(b"x".to_vec()).next_mode(Mode::Learning), Mode::Learning);
}
