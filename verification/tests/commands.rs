use denwa::command::{handle_line, parse_command, run_command, Command, CommandAction};
use denwa::message::{opus_message, Message};
use denwa::text::{is_whitespace, parse_u16, parse_u32, same_text, strip_prefix, trim};

fn text(s: &str) -> String {
    s.to_string()
}

#[test]
fn whitespace_is_the_unicode_property() {
    for n in 0..0x11_0000u32 {
        if let Some(c) = char::from_u32(n) {
            assert_eq!(is_whitespace(c), c.is_whitespace(), "{:x}", n);
        }
    }
}

#[test]
fn trim_agrees_with_the_standard_library() {
    let samples = [
        "", " ", "\t\r\n", "stat", "  stat", "stat\n", " \u{3000}text  a b\u{85}\r\n", "a",
        "\u{200b}x\u{200b}", "\u{2028}\u{e9}\u{1f600} \u{a0}",
    ];
    for s in samples {
        assert_eq!(trim(s), s.trim());
        assert_eq!(trim(trim(s)), trim(s));
    }
}

#[test]
fn prefix_is_stripped_once() {
    assert_eq!(strip_prefix("text text a", "text "), Some("text a"));
    assert_eq!(strip_prefix("text", "text "), None);
    assert_eq!(strip_prefix("\u{e9}a", "\u{e9}"), Some("a"));
    assert_eq!(strip_prefix("abc", ""), Some("abc"));
    assert_eq!(strip_prefix("a", "abc"), None);
}

#[test]
fn text_is_compared_exactly() {
    assert!(same_text("mute", "mute"));
    assert!(!same_text("mute", "Mute"));
    assert!(!same_text("mute", "mute "));
}

#[test]
fn numbers_are_read_like_the_standard_library_reads_them() {
    let samples = [
        "", "+", "-", "0", "+0", "-0", "00012", "+7", "++7", "65535", "65536", "4294967295",
        "4294967296", "99999999999999999999", "2.5", " 5", "5 ", "0x10", "\u{661}", "12a", "99999999999999999999x",
    ];
    for s in samples {
        assert_eq!(parse_u32(s), s.parse::<u32>().ok(), "{:?}", s);
        assert_eq!(parse_u16(s), s.parse::<u16>().ok(), "{:?}", s);
    }
}

#[test]
fn decimal_reads_back() {
    for n in [0u32, 9, 10, 20, 24000, 48000, 4294967295] {
        let digits = n.to_string();
        assert_eq!(parse_u32(&digits), Some(n));
        assert_eq!(parse_u32(&format!("+{}", digits)), Some(n));
    }
}

#[test]
fn commands_are_recognised() {
    assert_eq!(parse_command("\n"), Command::Empty);
    assert_eq!(parse_command(" ? \n"), Command::Help);
    assert_eq!(parse_command("stat\r\n"), Command::Stat);
    assert_eq!(parse_command("volume+\n"), Command::VolumeUp);
    assert_eq!(parse_command("volume-\n"), Command::VolumeDown);
    assert_eq!(parse_command("mute\n"), Command::Mute);
    assert_eq!(parse_command("unmute\n"), Command::Unmute);
    assert_eq!(parse_command("text hello world \n"), Command::Text(text("hello world")));
    assert_eq!(parse_command("text  hello\n"), Command::Text(text(" hello")));
    assert_eq!(parse_command("text \n"), Command::Unknown(text("text")));
    assert_eq!(parse_command("texthello\n"), Command::Unknown(text("texthello")));
    assert_eq!(parse_command("STAT\n"), Command::Unknown(text("STAT")));
}

#[test]
fn help_lists_the_commands() {
    match handle_line("?\n") {
        CommandAction::Print(lines) => {
            assert_eq!(
                lines,
                vec![
                    "?\t\t: show available commands",
                    "stat\t\t: show traffic statistics",
                    "volume+\t\t: mic volume up (10%)",
                    "volume-\t\t: mic volume down (10%)",
                    "mute\t\t: mic mute",
                    "unmute\t\t: mic unmute",
                    "text <message>\t: send a text message",
                ]
            );
        }
        other => panic!("{:?}", other),
    }
}

#[test]
fn commands_lead_to_actions() {
    assert_eq!(handle_line("   \n"), CommandAction::Prompt);
    assert_eq!(handle_line("stat\n"), CommandAction::PrintTraffic);
    for line in ["volume+", "volume-", "mute", "unmute"] {
        assert_eq!(handle_line(line), CommandAction::Error(text("not yet implemented")));
    }
    assert_eq!(handle_line(" dance \n"), CommandAction::Error(text("unknown command: dance")));
    assert_eq!(
        run_command(Command::Text(text("hi"))),
        CommandAction::Send(Message::Text(text("hi")))
    );
}

#[test]
fn text_is_sent_as_typed() {
    assert_eq!(
        handle_line("\t text  two  spaces \u{3000}\n"),
        CommandAction::Send(Message::Text(text(" two  spaces")))
    );
    assert_eq!(
        handle_line("text text stat\n"),
        CommandAction::Send(Message::Text(text("text stat")))
    );
}

#[test]
fn opus_message_takes_what_was_encoded() {
    assert_eq!(opus_message(&vec![1, 2, 3, 4], 3), Message::Opus(vec![1, 2, 3]));
    assert_eq!(opus_message(&vec![1, 2], 0), Message::Opus(vec![]));
    assert_eq!(opus_message(&vec![1, 2], 2), Message::Opus(vec![1, 2]));
}

#[test]
fn only_text_is_sent() {
    for line in ["", "?", "stat", "mute", "text", "texts a", "send text a"] {
        assert!(!matches!(handle_line(line), CommandAction::Send(_)));
    }
    assert!(matches!(handle_line("text a"), CommandAction::Send(Message::Text(_))));
}

#[test]
fn padding_does_not_matter() {
    for word in ["", "?", "stat", "volume+", "text a  b", "dance"] {
        let padded = format!("\t\u{3000} {} \u{85}\r\n", word);
        assert_eq!(parse_command(&padded), parse_command(word));
    }
}
