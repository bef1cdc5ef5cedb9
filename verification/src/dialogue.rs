//! What the bot answers to a command or a message, and how a dialogue with
//! a pharmacist moves on.

use crate::i18n::{I18n, TranslationView};
use crate::inventory::text_of;
use crate::moderation::{calc_restrict_time, restrict_seconds, UnitOfTime};
use crate::text::{decimal_text, parse_i64, parsed_i64, push_decimal, push_str, same_text, string_of};
use vstd::prelude::*;

verus! {

/// Where a dialogue stands.
#[derive(Clone, Copy, Debug, PartialEq, Eq, Structural)]
pub enum State {
    /// Nothing is awaited.
    Start,
    /// The next message of the user goes to the pharmacist with this
    /// identifier.
    WriteToPharmacist { id: i64 },
}

impl Default for State {
    fn default() -> (state: State)
        ensures
            state == State::Start,
    {
        State::Start
    }
}

/// A command of a user.
#[derive(Debug)]
pub enum Command {
    /// Start, with what the link that led here carries.
    Start(String),
    Inventory,
    Order,
    Menu,
    Help,
    Message,
    Kick,
    Ban { time: u64, unit: UnitOfTime },
    Mute { time: u64, unit: UnitOfTime },
}

/// What a [`Command`] holds.
pub enum CommandView {
    Start(Seq<char>),
    Inventory,
    Order,
    Menu,
    Help,
    Message,
    Kick,
    Ban { time: int, unit: UnitOfTime },
    Mute { time: int, unit: UnitOfTime },
}

impl View for Command {
    type V = CommandView;

    open spec fn view(&self) -> CommandView {
        match self {
            Command::Start(parameter) => CommandView::Start(parameter@),
            Command::Inventory => CommandView::Inventory,
            Command::Order => CommandView::Order,
            Command::Menu => CommandView::Menu,
            Command::Help => CommandView::Help,
            Command::Message => CommandView::Message,
            Command::Kick => CommandView::Kick,
            Command::Ban { time, unit } => CommandView::Ban { time: *time as int, unit: *unit },
            Command::Mute { time, unit } => CommandView::Mute { time: *time as int, unit: *unit },
        }
    }
}

/// What is to be done about a command or a message.
#[derive(Debug)]
pub enum Reaction {
    /// Send this text as it is.
    Text(String),
    /// Send this text in the markup mode.
    Markdown(String),
    /// Send this text, and await the message for this pharmacist.
    Prompt { pharmacist: i64, text: String },
    /// Send this text with the three buttons of the menu under it.
    Menu { text: String, buttons: Vec<String> },
    /// List the inventory.
    Inventory,
    /// Place an order.
    Order,
    /// List the commands.
    Commands,
    /// Remove the user that the command replies to.
    Kick,
    /// Ban that user for so many seconds, if the restriction has a length.
    Ban { seconds: Option<i64> },
    /// Mute that user for so many seconds, if the restriction has a length.
    Mute { seconds: Option<i64> },
    /// Nothing.
    Nothing,
}

/// What a [`Reaction`] holds.
pub enum ReactionView {
    Text(Seq<char>),
    Markdown(Seq<char>),
    Prompt { pharmacist: int, text: Seq<char> },
    Menu { text: Seq<char>, buttons: Seq<Seq<char>> },
    Inventory,
    Order,
    Commands,
    Kick,
    Ban { seconds: Option<int> },
    Mute { seconds: Option<int> },
    Nothing,
}

/// A count of seconds as a number without bounds.
pub open spec fn seconds_view(seconds: Option<i64>) -> Option<int> {
    match seconds {
        Some(n) => Some(n as int),
        None => None,
    }
}

impl View for Reaction {
    type V = ReactionView;

    open spec fn view(&self) -> ReactionView {
        match self {
            Reaction::Text(text) => ReactionView::Text(text@),
            Reaction::Markdown(text) => ReactionView::Markdown(text@),
            Reaction::Prompt { pharmacist, text } => ReactionView::Prompt {
                pharmacist: *pharmacist as int,
                text: text@,
            },
            Reaction::Menu { text, buttons } => ReactionView::Menu {
                text: text@,
                buttons: buttons@.map_values(|b: String| b@),
            },
            Reaction::Inventory => ReactionView::Inventory,
            Reaction::Order => ReactionView::Order,
            Reaction::Commands => ReactionView::Commands,
            Reaction::Kick => ReactionView::Kick,
            Reaction::Ban { seconds } => ReactionView::Ban { seconds: seconds_view(*seconds) },
            Reaction::Mute { seconds } => ReactionView::Mute { seconds: seconds_view(*seconds) },
            Reaction::Nothing => ReactionView::Nothing,
        }
    }
}

/// The button that lists the inventory.
pub open spec fn inventory_button() -> Seq<char> {
    "\u{f8ff}\u{fc}\u{ec}\u{e3} Check Inventory"@
}

/// The button that places an order.
pub open spec fn order_button() -> Seq<char> {
    "\u{f8ff}\u{fc}\u{f5}\u{ed} Place Order"@
}

/// The button that shows the help.
pub open spec fn help_button() -> Seq<char> {
    "\u{201a}\u{f9}\u{ec} Help"@
}

/// The help on the commands, written for the markup mode.
pub open spec fn help_text() -> Seq<char> {
    "*Pharmacy Bot Help*\n\nHere are the available commands:\n\n/start \\- Start interacting with the pharmacy bot\n/inventory \\- Check the pharmacy inventory\n/order \\- Place a medicine order\n/menu \\- Display the main menu\n/help \\- Display this help information\n\nTo use a command, simply type it or tap on it\\."@
}

/// The link that a user shares to get anonymous messages: the address of the
/// bot with the identifier of the chat as what the link carries.
pub open spec fn message_link_text(bot_url: Seq<char>, chat_id: int) -> Seq<char> {
    "Share this link to receive anonymous messages: "@ + bot_url + "?start="@ + decimal_text(
        chat_id,
    )
}

/// The reaction to the start command: a welcome where the link carried
/// nothing, a prompt where it carried the identifier of a pharmacist, and a
/// refusal where it carried anything else.
pub open spec fn start_reaction(
    parameter: Seq<char>,
    texts: Seq<TranslationView>,
    lang: Seq<char>,
) -> ReactionView {
    if parameter.len() == 0 {
        ReactionView::Text(text_of(texts, lang, "welcome"@))
    } else {
        match parsed_i64(parameter) {
            Some(id) => ReactionView::Prompt {
                pharmacist: id,
                text: "Send your message to the pharmacist:"@,
            },
            None => ReactionView::Text("Invalid link!"@),
        }
    }
}

/// The reaction to a command.
pub open spec fn reaction_to(
    command: CommandView,
    texts: Seq<TranslationView>,
    lang: Seq<char>,
    chat_id: int,
    bot_url: Seq<char>,
) -> ReactionView {
    match command {
        CommandView::Start(parameter) => start_reaction(parameter, texts, lang),
        CommandView::Message => ReactionView::Text(message_link_text(bot_url, chat_id)),
        CommandView::Inventory => ReactionView::Inventory,
        CommandView::Order => ReactionView::Order,
        CommandView::Menu => ReactionView::Menu {
            text: "Welcome to the Pharmacy Bot! Please choose an option:"@,
            buttons: seq![inventory_button(), order_button(), help_button()],
        },
        CommandView::Help => ReactionView::Markdown(help_text()),
        CommandView::Kick => ReactionView::Kick,
        CommandView::Ban { time, unit } => ReactionView::Ban {
            seconds: restrict_seconds(time, unit),
        },
        CommandView::Mute { time, unit } => ReactionView::Mute {
            seconds: restrict_seconds(time, unit),
        },
    }
}

/// The state of the dialogue after a reaction: a prompt makes it await the
/// message for the pharmacist, anything else leaves it as it is.
pub open spec fn state_after(state: State, reaction: ReactionView) -> State {
    match reaction {
        ReactionView::Prompt { pharmacist, text } => State::WriteToPharmacist {
            id: pharmacist as i64,
        },
        _ => state,
    }
}

/// Decides what is to be done about a command of a user who reads the
/// language `lang`, in the chat `chat_id`, where the bot is reached at
/// `bot_url`.
pub fn answer(command: &Command, texts: &I18n, lang: &str, chat_id: i64, bot_url: &str) -> (reaction:
    Reaction)
    ensures
        reaction@ == reaction_to(command@, texts@, lang@, chat_id as int, bot_url@),
{
    match command {
        Command::Start(parameter) => {
            if parameter.as_str().unicode_len() == 0 {
                Reaction::Text(texts.get(lang, "welcome"))
            } else {
                match parse_i64(parameter.as_str()) {
                    Some(id) => Reaction::Prompt {
                        pharmacist: id,
                        text: "Send your message to the pharmacist:".to_owned(),
                    },
                    None => Reaction::Text("Invalid link!".to_owned()),
                }
            }
        },
        Command::Message => {
            let mut text: Vec<char> = Vec::new();
            push_str(&mut text, "Share this link to receive anonymous messages: ");
            push_str(&mut text, bot_url);
            push_str(&mut text, "?start=");
            push_decimal(&mut text, chat_id);
            assert(text@ =~= message_link_text(bot_url@, chat_id as int));
            Reaction::Text(string_of(&text))
        },
        Command::Inventory => Reaction::Inventory,
        Command::Order => Reaction::Order,
        Command::Menu => {
            let mut buttons: Vec<String> = Vec::new();
            buttons.push("\u{f8ff}\u{fc}\u{ec}\u{e3} Check Inventory".to_owned());
            buttons.push("\u{f8ff}\u{fc}\u{f5}\u{ed} Place Order".to_owned());
            buttons.push("\u{201a}\u{f9}\u{ec} Help".to_owned());
            assert(buttons@.map_values(|b: String| b@) =~= seq![
                inventory_button(),
                order_button(),
                help_button(),
            ]);
            Reaction::Menu {
                text: "Welcome to the Pharmacy Bot! Please choose an option:".to_owned(),
                buttons,
            }
        },
        Command::Help => Reaction::Markdown(
            "*Pharmacy Bot Help*\n\nHere are the available commands:\n\n/start \\- Start interacting with the pharmacy bot\n/inventory \\- Check the pharmacy inventory\n/order \\- Place a medicine order\n/menu \\- Display the main menu\n/help \\- Display this help information\n\nTo use a command, simply type it or tap on it\\.".to_owned(),
        ),
        Command::Kick => Reaction::Kick,
        Command::Ban { time, unit } => Reaction::Ban { seconds: calc_restrict_time(*time, *unit) },
        Command::Mute { time, unit } => Reaction::Mute {
            seconds: calc_restrict_time(*time, *unit),
        },
    }
}

/// What is said of a text that is no button of the menu.
pub open spec fn unknown_text() -> Seq<char> {
    "I don't understand that command. Please use the menu or type /help for available commands."@
}

/// The reaction to a message that is no command: that of the button whose
/// label it is, or a notice that it was not understood. A message without
/// text gets none.
pub open spec fn message_reaction(text: Option<Seq<char>>) -> ReactionView {
    match text {
        None => ReactionView::Nothing,
        Some(label) => if label == inventory_button() {
            ReactionView::Inventory
        } else if label == order_button() {
            ReactionView::Order
        } else if label == help_button() {
            ReactionView::Commands
        } else {
            ReactionView::Text(unknown_text())
        },
    }
}

/// Decides what is to be done about a message that is no command.
pub fn handle_message(text: Option<&str>) -> (reaction: Reaction)
    ensures
        reaction@ == message_reaction(
            match text {
                Some(label) => Some(label@),
                None => None,
            },
        ),
{
    match text {
        None => Reaction::Nothing,
        Some(label) => {
            if same_text(label, "\u{f8ff}\u{fc}\u{ec}\u{e3} Check Inventory") {
                Reaction::Inventory
            } else if same_text(label, "\u{f8ff}\u{fc}\u{f5}\u{ed} Place Order") {
                Reaction::Order
            } else if same_text(label, "\u{201a}\u{f9}\u{ec} Help") {
                Reaction::Commands
            } else {
                Reaction::Text(
                    "I don't understand that command. Please use the menu or type /help for available commands.".to_owned(),
                )
            }
        },
    }
}

/// What is to be done with the message of a user who writes to a
/// pharmacist.
#[derive(Debug)]
pub enum Relay {
    /// Send this text to the pharmacist, and end the dialogue.
    Forward { pharmacist: i64, text: String },
    /// Ask the user for a message with text; the dialogue goes on.
    AskForText(String),
}

/// What a [`Relay`] holds.
pub enum RelayView {
    Forward { pharmacist: int, text: Seq<char> },
    AskForText(Seq<char>),
}

impl View for Relay {
    type V = RelayView;

    open spec fn view(&self) -> RelayView {
        match self {
            Relay::Forward { pharmacist, text } => RelayView::Forward {
                pharmacist: *pharmacist as int,
                text: text@,
            },
            Relay::AskForText(text) => RelayView::AskForText(text@),
        }
    }
}

/// What the pharmacist reads.
pub open spec fn anonymous_text(text: Seq<char>) -> Seq<char> {
    "You have a new anonymous message:\n\n"@ + text
}

/// What is done with a message for the pharmacist `id`.
pub open spec fn relay_of(id: int, text: Option<Seq<char>>) -> RelayView {
    match text {
        Some(body) => RelayView::Forward { pharmacist: id, text: anonymous_text(body) },
        None => RelayView::AskForText("Please send a text message."@),
    }
}

/// What the user reads once the message was sent, or could not be.
pub open spec fn feedback_text(sent: bool) -> Seq<char> {
    if sent {
        "Message sent to the pharmacist!"@
    } else {
        "Error sending message. The pharmacist may have blocked the bot."@
    }
}

/// Decides what is done with the message of a user who writes to the
/// pharmacist `id`, and where the dialogue stands after it: a message with
/// text goes to the pharmacist and ends the dialogue, one without is asked
/// for again.
pub fn send_message_to_pharmacist(id: i64, text: Option<&str>) -> (step: (Relay, State))
    ensures
        step.0@ == relay_of(
            id as int,
            match text {
                Some(body) => Some(body@),
                None => None,
            },
        ),
        step.1 == if text is Some {
            State::Start
        } else {
            State::WriteToPharmacist { id }
        },
{
    match text {
        Some(body) => {
            let mut out: Vec<char> = Vec::new();
            push_str(&mut out, "You have a new anonymous message:\n\n");
            push_str(&mut out, body);
            assert(out@ =~= anonymous_text(body@));
            (Relay::Forward { pharmacist: id, text: string_of(&out) }, State::Start)
        },
        None => (
            Relay::AskForText("Please send a text message.".to_owned()),
            State::WriteToPharmacist { id },
        ),
    }
}

/// The text for the user once the message was sent to the pharmacist, or
/// could not be.
pub fn relay_feedback(sent: bool) -> (out: String)
    ensures
        out@ == feedback_text(sent),
{
    if sent {
        "Message sent to the pharmacist!".to_owned()
    } else {
        "Error sending message. The pharmacist may have blocked the bot.".to_owned()
    }
}

impl State {
    /// Where the dialogue stands after a reaction.
    pub fn after(self, reaction: &Reaction) -> (state: State)
        ensures
            state == state_after(self, reaction@),
    {
        match reaction {
            Reaction::Prompt { pharmacist, text } => State::WriteToPharmacist { id: *pharmacist },
            _ => self,
        }
    }
}

} // verus!
