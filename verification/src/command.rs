//! The commands that can be typed while a chat is running.

use crate::message::Message;
use crate::text::{same_text, strip_prefix, trim};
use vstd::prelude::*;

verus! {

use crate::message::MessageView;
use crate::text::{
    all_whitespace,
    law_trim_removes_exactly_the_padding,
    rest_after,
    tight,
    trimmed,
    whitespace,
};

/// One line typed at the prompt.
#[derive(Debug, Clone, PartialEq, Eq)]
pub enum Command {
    /// Nothing was typed.
    Empty,
    /// `?`
    Help,
    /// `stat`
    Stat,
    /// `volume+`
    VolumeUp,
    /// `volume-`
    VolumeDown,
    /// `mute`
    Mute,
    /// `unmute`
    Unmute,
    /// `text <message>`
    Text(String),
    /// Anything else, without the whitespace around it.
    Unknown(String),
}

/// What a [`Command`] says.
pub enum CommandView {
    Empty,
    Help,
    Stat,
    VolumeUp,
    VolumeDown,
    Mute,
    Unmute,
    Text(Seq<char>),
    Unknown(Seq<char>),
}

impl View for Command {
    type V = CommandView;

    open spec fn view(&self) -> CommandView {
        match self {
            Command::Empty => CommandView::Empty,
            Command::Help => CommandView::Help,
            Command::Stat => CommandView::Stat,
            Command::VolumeUp => CommandView::VolumeUp,
            Command::VolumeDown => CommandView::VolumeDown,
            Command::Mute => CommandView::Mute,
            Command::Unmute => CommandView::Unmute,
            Command::Text(message) => CommandView::Text(message@),
            Command::Unknown(word) => CommandView::Unknown(word@),
        }
    }
}

/// The command that a trimmed line spells.
pub open spec fn command_word(word: Seq<char>) -> CommandView {
    if word == ""@ {
        CommandView::Empty
    } else if word == "?"@ {
        CommandView::Help
    } else if word == "stat"@ {
        CommandView::Stat
    } else if word == "volume+"@ {
        CommandView::VolumeUp
    } else if word == "volume-"@ {
        CommandView::VolumeDown
    } else if word == "mute"@ {
        CommandView::Mute
    } else if word == "unmute"@ {
        CommandView::Unmute
    } else {
        match rest_after(word, "text "@) {
            Some(message) => CommandView::Text(message),
            None => CommandView::Unknown(word),
        }
    }
}

/// The command that a line spells: whitespace around it does not matter.
pub open spec fn command_line(line: Seq<char>) -> CommandView {
    command_word(trimmed(line))
}

/// What has to be done about a command.
#[derive(Debug, Clone, PartialEq, Eq)]
pub enum CommandAction {
    /// Ask for the next command.
    Prompt,
    /// Print these lines.
    Print(Vec<&'static str>),
    /// Print the traffic statistics.
    PrintTraffic,
    /// Log this error.
    Error(String),
    /// Send this message to the peer.
    Send(Message),
}

/// What a [`CommandAction`] says.
pub enum CommandActionView {
    Prompt,
    Print(Seq<Seq<char>>),
    PrintTraffic,
    Error(Seq<char>),
    Send(MessageView),
}

impl View for CommandAction {
    type V = CommandActionView;

    open spec fn view(&self) -> CommandActionView {
        match self {
            CommandAction::Prompt => CommandActionView::Prompt,
            CommandAction::Print(lines) => CommandActionView::Print(
                lines@.map_values(|line: &'static str| line@),
            ),
            CommandAction::PrintTraffic => CommandActionView::PrintTraffic,
            CommandAction::Error(text) => CommandActionView::Error(text@),
            CommandAction::Send(message) => CommandActionView::Send(message@),
        }
    }
}

/// The lines that the help command prints.
pub open spec fn help_lines() -> Seq<Seq<char>> {
    seq![
        "?\t\t: show available commands"@,
        "stat\t\t: show traffic statistics"@,
        "volume+\t\t: mic volume up (10%)"@,
        "volume-\t\t: mic volume down (10%)"@,
        "mute\t\t: mic mute"@,
        "unmute\t\t: mic unmute"@,
        "text <message>\t: send a text message"@,
    ]
}

/// What has to be done about `command`.
pub open spec fn action_for(command: CommandView) -> CommandActionView {
    match command {
        CommandView::Empty => CommandActionView::Prompt,
        CommandView::Help => CommandActionView::Print(help_lines()),
        CommandView::Stat => CommandActionView::PrintTraffic,
        CommandView::VolumeUp => CommandActionView::Error("not yet implemented"@),
        CommandView::VolumeDown => CommandActionView::Error("not yet implemented"@),
        CommandView::Mute => CommandActionView::Error("not yet implemented"@),
        CommandView::Unmute => CommandActionView::Error("not yet implemented"@),
        CommandView::Text(message) => CommandActionView::Send(MessageView::Text(message)),
        CommandView::Unknown(word) => CommandActionView::Error("unknown command: "@ + word),
    }
}

proof fn lemma_words_differ(word: Seq<char>)
    ensures
        ""@.len() == 0,
        "?"@.len() == 1,
        "stat"@.len() == 4 && "stat"@[0] == 's',
        "mute"@.len() == 4 && "mute"@[0] == 'm',
        "volume+"@.len() == 7 && "volume+"@[0] == 'v' && "volume+"@[6] == '+',
        "volume-"@.len() == 7 && "volume-"@[0] == 'v' && "volume-"@[6] == '-',
        "unmute"@.len() == 6 && "unmute"@[0] == 'u',
        "text "@.len() == 5 && "text "@[0] == 't',
        "text "@.is_prefix_of(word) ==> word.len() >= 5 && word[0] == 't' && word == "text "@
            + word.skip(5),
{
    reveal_strlit("");
    reveal_strlit("?");
    reveal_strlit("stat");
    reveal_strlit("mute");
    reveal_strlit("volume+");
    reveal_strlit("volume-");
    reveal_strlit("unmute");
    reveal_strlit("text ");
    if "text "@.is_prefix_of(word) {
        assert("text "@[0] == word[0]);
        assert(word =~= "text "@ + word.skip(5));
    }
}

/// Reads one line typed at the prompt.
pub fn parse_command(line: &str) -> (r: Command)
    ensures
        r@ == command_line(line@),
        r is Empty <==> trimmed(line@) == ""@,
        r is Help <==> trimmed(line@) == "?"@,
        r is Stat <==> trimmed(line@) == "stat"@,
        r is VolumeUp <==> trimmed(line@) == "volume+"@,
        r is VolumeDown <==> trimmed(line@) == "volume-"@,
        r is Mute <==> trimmed(line@) == "mute"@,
        r is Unmute <==> trimmed(line@) == "unmute"@,
        r is Text <==> "text "@.is_prefix_of(trimmed(line@)),
        r matches Command::Text(message) ==> trimmed(line@) == "text "@ + message@,
        r matches Command::Unknown(word) ==> trimmed(line@) == word@,
{
    proof {
        lemma_words_differ(trimmed(line@));
    }
    let word = trim(line);
    if same_text(word, "") {
        Command::Empty
    } else if same_text(word, "?") {
        Command::Help
    } else if same_text(word, "stat") {
        Command::Stat
    } else if same_text(word, "volume+") {
        Command::VolumeUp
    } else if same_text(word, "volume-") {
        Command::VolumeDown
    } else if same_text(word, "mute") {
        Command::Mute
    } else if same_text(word, "unmute") {
        Command::Unmute
    } else {
        match strip_prefix(word, "text ") {
            Some(message) => Command::Text(message.to_owned()),
            None => Command::Unknown(word.to_owned()),
        }
    }
}

/// Decides what to do about `command`.
pub fn run_command(command: Command) -> (r: CommandAction)
    ensures
        r@ == action_for(command@),
        command is Empty ==> r is Prompt,
        command is Help ==> {
            &&& r matches CommandAction::Print(lines)
            &&& lines@.len() == 7
            &&& lines@[0]@ == "?\t\t: show available commands"@
            &&& lines@[1]@ == "stat\t\t: show traffic statistics"@
            &&& lines@[2]@ == "volume+\t\t: mic volume up (10%)"@
            &&& lines@[3]@ == "volume-\t\t: mic volume down (10%)"@
            &&& lines@[4]@ == "mute\t\t: mic mute"@
            &&& lines@[5]@ == "unmute\t\t: mic unmute"@
            &&& lines@[6]@ == "text <message>\t: send a text message"@
        },
        command is Stat ==> r is PrintTraffic,
        command is VolumeUp || command is VolumeDown || command is Mute || command is Unmute ==> (r
            matches CommandAction::Error(text) && text@ == "not yet implemented"@),
        command matches Command::Text(message) ==> (r matches CommandAction::Send(
            Message::Text(text),
        ) && text@ == message@),
        command matches Command::Unknown(word) ==> (r matches CommandAction::Error(text) && text@
            == "unknown command: "@ + word@),
{
    match command {
        Command::Empty => CommandAction::Prompt,
        Command::Help => {
            let lines: Vec<&'static str> = vec![
                "?\t\t: show available commands",
                "stat\t\t: show traffic statistics",
                "volume+\t\t: mic volume up (10%)",
                "volume-\t\t: mic volume down (10%)",
                "mute\t\t: mic mute",
                "unmute\t\t: mic unmute",
                "text <message>\t: send a text message",
            ];
            assert(lines@.map_values(|line: &'static str| line@) =~= help_lines());
            CommandAction::Print(lines)
        },
        Command::Stat => CommandAction::PrintTraffic,
        Command::VolumeUp | Command::VolumeDown | Command::Mute | Command::Unmute => {
            CommandAction::Error("not yet implemented".to_owned())
        },
        Command::Text(message) => CommandAction::Send(Message::Text(message)),
        Command::Unknown(word) => {
            let mut text: String = "unknown command: ".to_owned();
            text.append(word.as_str());
            CommandAction::Error(text)
        },
    }
}

/// Decides what to do about one line typed at the prompt.
pub fn handle_line(line: &str) -> (r: CommandAction)
    ensures
        r@ == action_for(command_line(line@)),
        trimmed(line@) == ""@ ==> r is Prompt,
        trimmed(line@) == "?"@ ==> {
            &&& r matches CommandAction::Print(lines)
            &&& lines@.len() == 7
            &&& lines@[0]@ == "?\t\t: show available commands"@
            &&& lines@[1]@ == "stat\t\t: show traffic statistics"@
            &&& lines@[2]@ == "volume+\t\t: mic volume up (10%)"@
            &&& lines@[3]@ == "volume-\t\t: mic volume down (10%)"@
            &&& lines@[4]@ == "mute\t\t: mic mute"@
            &&& lines@[5]@ == "unmute\t\t: mic unmute"@
            &&& lines@[6]@ == "text <message>\t: send a text message"@
        },
        trimmed(line@) == "stat"@ ==> r is PrintTraffic,
        trimmed(line@) == "volume+"@ || trimmed(line@) == "volume-"@ || trimmed(line@) == "mute"@
            || trimmed(line@) == "unmute"@ ==> (r matches CommandAction::Error(text) && text@
            == "not yet implemented"@),
        "text "@.is_prefix_of(trimmed(line@)) ==> (r matches CommandAction::Send(
            Message::Text(text),
        ) && trimmed(line@) == "text "@ + text@),
        trimmed(line@) != ""@ && trimmed(line@) != "?"@ && trimmed(line@) != "stat"@ && trimmed(
            line@,
        ) != "volume+"@ && trimmed(line@) != "volume-"@ && trimmed(line@) != "mute"@ && trimmed(
            line@,
        ) != "unmute"@ && !"text "@.is_prefix_of(trimmed(line@)) ==> (r
            matches CommandAction::Error(text) && text@ == "unknown command: "@ + trimmed(line@)),
{
    run_command(parse_command(line))
}

/// Whitespace around a command does not change what it does.
pub proof fn law_padding_does_not_matter(left: Seq<char>, word: Seq<char>, right: Seq<char>)
    requires
        all_whitespace(left),
        all_whitespace(right),
        tight(word),
    ensures
        command_line(left + word + right) == command_word(word),
{
    law_trim_removes_exactly_the_padding(left, word, right);
}

/// A text command sends its message as it was typed, spaces in front of it
/// included, up to the whitespace at the end of the line.
pub proof fn law_text_is_sent_as_typed(left: Seq<char>, message: Seq<char>, right: Seq<char>)
    requires
        all_whitespace(left),
        all_whitespace(right),
        message.len() > 0,
        !whitespace(message.last()),
    ensures
        action_for(command_line(left + ("text "@ + message) + right)) == CommandActionView::Send(
            MessageView::Text(message),
        ),
{
    let word = "text "@ + message;
    reveal_strlit("text ");
    reveal_strlit("");
    reveal_strlit("?");
    reveal_strlit("stat");
    reveal_strlit("volume+");
    reveal_strlit("volume-");
    reveal_strlit("mute");
    reveal_strlit("unmute");
    law_padding_does_not_matter(left, word, right);
    assert(word[0] == 't' && word[4] == ' ' && word.len() > 5);
    assert(word.skip(5) =~= message);
    assert("text "@.is_prefix_of(word));
}

/// A line of whitespace does nothing.
pub proof fn law_blank_line_does_nothing(line: Seq<char>)
    requires
        all_whitespace(line),
    ensures
        action_for(command_line(line)) == CommandActionView::Prompt,
{
    reveal_strlit("");
    law_padding_does_not_matter(line, Seq::empty(), Seq::empty());
    assert(line + Seq::empty() + Seq::empty() =~= line);
    assert(Seq::<char>::empty() =~= ""@);
}

/// A command sends something only if it is a text command, and then a text.
pub proof fn law_only_text_is_sent(line: Seq<char>)
    ensures
        action_for(command_line(line)) is Send ==> {
            &&& command_line(line) is Text
            &&& "text "@.is_prefix_of(trimmed(line))
            &&& action_for(command_line(line))->Send_0 is Text
        },
{
}

/// Each command does what it is there for, with any whitespace around it: `word`
/// is what was typed between `left` and `right`.
pub proof fn law_commands_do_what_they_are_for(left: Seq<char>, word: Seq<char>, right: Seq<char>)
    requires
        all_whitespace(left),
        all_whitespace(right),
        tight(word),
    ensures
        word == ""@ ==> action_for(command_line(left + word + right))
            == CommandActionView::Prompt,
        word == "?"@ ==> {
            &&& action_for(command_line(left + word + right)) matches CommandActionView::Print(
                lines,
            )
            &&& lines.len() == 7
            &&& lines[0] == "?\t\t: show available commands"@
            &&& lines[1] == "stat\t\t: show traffic statistics"@
            &&& lines[2] == "volume+\t\t: mic volume up (10%)"@
            &&& lines[3] == "volume-\t\t: mic volume down (10%)"@
            &&& lines[4] == "mute\t\t: mic mute"@
            &&& lines[5] == "unmute\t\t: mic unmute"@
            &&& lines[6] == "text <message>\t: send a text message"@
        },
        word == "stat"@ ==> action_for(command_line(left + word + right))
            == CommandActionView::PrintTraffic,
        word == "volume+"@ || word == "volume-"@ || word == "mute"@ || word == "unmute"@
            ==> action_for(command_line(left + word + right)) == CommandActionView::Error(
            "not yet implemented"@,
        ),
{
    lemma_words_differ(word);
    law_padding_does_not_matter(left, word, right);
}

/// Whatever is no command is named in the error about it, without the whitespace
/// around it.
pub proof fn law_unknown_commands_are_named(left: Seq<char>, word: Seq<char>, right: Seq<char>)
    requires
        all_whitespace(left),
        all_whitespace(right),
        tight(word),
        word != ""@,
        word != "?"@,
        word != "stat"@,
        word != "volume+"@,
        word != "volume-"@,
        word != "mute"@,
        word != "unmute"@,
        !"text "@.is_prefix_of(word),
    ensures
        action_for(command_line(left + word + right)) == CommandActionView::Error(
            "unknown command: "@ + word,
        ),
{
    law_padding_does_not_matter(left, word, right);
}

/// The view of an action holds what the action holds, all of it.
pub proof fn law_view_holds_the_whole_action(
    lines: Vec<&'static str>,
    text: String,
    message: Message,
)
    ensures
        CommandAction::Prompt@ == CommandActionView::Prompt,
        CommandAction::PrintTraffic@ == CommandActionView::PrintTraffic,
        CommandAction::Error(text)@ == CommandActionView::Error(text@),
        CommandAction::Send(message)@ == CommandActionView::Send(message@),
        CommandAction::Print(lines)@ matches CommandActionView::Print(shown) && shown.len()
            == lines@.len() && forall|i: int|
            0 <= i < lines@.len() ==> #[trigger] shown[i] == lines@[i]@,
{
}

}
