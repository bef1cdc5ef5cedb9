use pharmacy_bot::dialogue::{
    answer, handle_message, relay_feedback, send_message_to_pharmacist, Command, Reaction, Relay,
    State,
};
use pharmacy_bot::i18n::I18n;
use pharmacy_bot::moderation::{
    calc_restrict_time, is_carried_out, moderation_reply, Moderation, Target, UnitOfTime,
    MAX_RESTRICT_SECONDS,
};
use pharmacy_bot::text::{decimal, parse_i64};

fn react(command: Command) -> Reaction {
    answer(&command, &I18n::new(), "en", 77, "https://t.me/pharmacy_bot")
}

fn text_of(reaction: Reaction) -> String {
    match reaction {
        Reaction::Text(text) => text,
        other => panic!("{:?}", other),
    }
}

#[test]
fn start_without_a_parameter_welcomes() {
    assert_eq!(text_of(react(Command::Start(String::new()))), "Welcome to the pharmacy bot!");
    let es = answer(&Command::Start(String::new()), &I18n::new(), "es", 1, "");
    assert_eq!(text_of(es), "\u{ac}\u{b0}Bienvenido al bot de farmacia!");
    let de = answer(&Command::Start(String::new()), &I18n::new(), "de", 1, "");
    assert_eq!(text_of(de), "Missing translation: welcome");
}

#[test]
fn start_with_the_number_of_a_pharmacist_asks_for_the_message() {
    let reaction = react(Command::Start("123456789".to_string()));
    assert_eq!(State::Start.after(&reaction), State::WriteToPharmacist { id: 123456789 });
    match reaction {
        Reaction::Prompt { pharmacist, text } => {
            assert_eq!(pharmacist, 123456789);
            assert_eq!(text, "Send your message to the pharmacist:");
        }
        other => panic!("{:?}", other),
    }
    match react(Command::Start("-100200".to_string())) {
        Reaction::Prompt { pharmacist, .. } => assert_eq!(pharmacist, -100200),
        other => panic!("{:?}", other),
    }
}

#[test]
fn start_with_anything_else_is_refused() {
    for parameter in ["invalid_id", "12a", " 12", "9223372036854775808", "-", "+", "1.5"] {
        let reaction = react(Command::Start(parameter.to_string()));
        assert_eq!(State::Start.after(&reaction), State::Start);
        assert_eq!(text_of(reaction), "Invalid link!");
    }
}

#[test]
fn the_other_commands_have_their_reactions() {
    assert_eq!(
        text_of(react(Command::Message)),
        "Share this link to receive anonymous messages: https://t.me/pharmacy_bot?start=77"
    );
    assert!(matches!(react(Command::Inventory), Reaction::Inventory));
    assert!(matches!(react(Command::Order), Reaction::Order));
    assert!(matches!(react(Command::Kick), Reaction::Kick));
    assert!(matches!(
        react(Command::Ban { time: 2, unit: UnitOfTime::Hours }),
        Reaction::Ban { seconds: Some(7200) }
    ));
    assert!(matches!(
        react(Command::Mute { time: 5, unit: UnitOfTime::Minutes }),
        Reaction::Mute { seconds: Some(300) }
    ));
    assert!(matches!(
        react(Command::Mute { time: u64::MAX, unit: UnitOfTime::Seconds }),
        Reaction::Mute { seconds: None }
    ));
    match react(Command::Menu) {
        Reaction::Menu { text, buttons } => {
            assert_eq!(text, "Welcome to the Pharmacy Bot! Please choose an option:");
            assert_eq!(
                buttons,
                vec![
                    "\u{f8ff}\u{fc}\u{ec}\u{e3} Check Inventory",
                    "\u{f8ff}\u{fc}\u{f5}\u{ed} Place Order",
                    "\u{201a}\u{f9}\u{ec} Help"
                ]
            );
        }
        other => panic!("{:?}", other),
    }
    match react(Command::Help) {
        Reaction::Markdown(text) => {
            let lines: Vec<&str> = text.split('\n').collect();
            assert_eq!(
                lines,
                vec![
                    "*Pharmacy Bot Help*",
                    "",
                    "Here are the available commands:",
                    "",
                    "/start \\- Start interacting with the pharmacy bot",
                    "/inventory \\- Check the pharmacy inventory",
                    "/order \\- Place a medicine order",
                    "/menu \\- Display the main menu",
                    "/help \\- Display this help information",
                    "",
                    "To use a command, simply type it or tap on it\\.",
                ]
            );
        }
        other => panic!("{:?}", other),
    }
}

#[test]
fn a_message_is_read_as_a_button_of_the_menu() {
    assert!(matches!(
        handle_message(Some("\u{f8ff}\u{fc}\u{ec}\u{e3} Check Inventory")),
        Reaction::Inventory
    ));
    assert!(matches!(
        handle_message(Some("\u{f8ff}\u{fc}\u{f5}\u{ed} Place Order")),
        Reaction::Order
    ));
    assert!(matches!(handle_message(Some("\u{201a}\u{f9}\u{ec} Help")), Reaction::Commands));
    assert!(matches!(handle_message(None), Reaction::Nothing));
    assert_eq!(
        text_of(handle_message(Some("Place Order"))),
        "I don't understand that command. Please use the menu or type /help for available commands."
    );
}

#[test]
fn a_message_for_the_pharmacist_is_passed_on_without_a_name() {
    let (relay, state) = send_message_to_pharmacist(5, Some("Do you have aspirin?"));
    assert_eq!(state, State::Start);
    match relay {
        Relay::Forward { pharmacist, text } => {
            assert_eq!(pharmacist, 5);
            assert_eq!(text, "You have a new anonymous message:\n\nDo you have aspirin?");
        }
        other => panic!("{:?}", other),
    }
    let (relay, state) = send_message_to_pharmacist(5, None);
    assert_eq!(state, State::WriteToPharmacist { id: 5 });
    match relay {
        Relay::AskForText(text) => assert_eq!(text, "Please send a text message."),
        other => panic!("{:?}", other),
    }
    assert_eq!(relay_feedback(true), "Message sent to the pharmacist!");
    assert_eq!(
        relay_feedback(false),
        "Error sending message. The pharmacist may have blocked the bot."
    );
    assert_eq!(State::default(), State::Start);
}

#[test]
fn a_unit_is_read_from_its_letter_or_its_name() {
    assert_eq!(UnitOfTime::from_str("h"), Ok(UnitOfTime::Hours));
    assert_eq!(UnitOfTime::from_str("hours"), Ok(UnitOfTime::Hours));
    assert_eq!(UnitOfTime::from_str("m"), Ok(UnitOfTime::Minutes));
    assert_eq!(UnitOfTime::from_str("minutes"), Ok(UnitOfTime::Minutes));
    assert_eq!(UnitOfTime::from_str("s"), Ok(UnitOfTime::Seconds));
    assert_eq!(UnitOfTime::from_str("seconds"), Ok(UnitOfTime::Seconds));
    for other in ["", "H", "hour", "d", "sec", " s"] {
        assert_eq!(UnitOfTime::from_str(other), Err("Allowed units: h, m, s"));
    }
}

#[test]
fn a_restriction_lasts_its_time_in_seconds() {
    assert_eq!(calc_restrict_time(2, UnitOfTime::Hours), Some(7200));
    assert_eq!(calc_restrict_time(30, UnitOfTime::Minutes), Some(1800));
    assert_eq!(calc_restrict_time(60, UnitOfTime::Seconds), Some(60));
    assert_eq!(calc_restrict_time(0, UnitOfTime::Hours), Some(0));
    assert_eq!(MAX_RESTRICT_SECONDS, (i64::MAX / 1000) as u64);
    assert_eq!(
        calc_restrict_time(MAX_RESTRICT_SECONDS, UnitOfTime::Seconds),
        Some(MAX_RESTRICT_SECONDS as i64)
    );
    assert_eq!(calc_restrict_time(MAX_RESTRICT_SECONDS + 1, UnitOfTime::Seconds), None);
    assert_eq!(
        calc_restrict_time(MAX_RESTRICT_SECONDS / 3600, UnitOfTime::Hours),
        Some((MAX_RESTRICT_SECONDS / 3600 * 3600) as i64)
    );
    assert_eq!(calc_restrict_time(MAX_RESTRICT_SECONDS / 3600 + 1, UnitOfTime::Hours), None);
    assert_eq!(calc_restrict_time(u64::MAX, UnitOfTime::Minutes), None);
    // the longest restriction is one that the clock of the chat can hold
    assert!(chrono::Duration::try_seconds(MAX_RESTRICT_SECONDS as i64).is_some());
    assert!(chrono::Duration::try_seconds(MAX_RESTRICT_SECONDS as i64 + 1).is_none());
}

#[test]
fn the_moderator_reads_what_was_done() {
    let user = Target::User("Ann".to_string());
    assert_eq!(moderation_reply(Moderation::Kick, &user), "User Ann has been kicked.");
    assert_eq!(
        moderation_reply(Moderation::Ban, &user),
        "User Ann has been banned for the specified duration."
    );
    assert_eq!(
        moderation_reply(Moderation::Mute, &user),
        "User Ann has been muted for the specified duration."
    );
    assert_eq!(
        moderation_reply(Moderation::Kick, &Target::Unknown),
        "Couldn't identify the user to kick."
    );
    assert_eq!(
        moderation_reply(Moderation::Ban, &Target::Unknown),
        "Couldn't identify the user to ban."
    );
    assert_eq!(
        moderation_reply(Moderation::Mute, &Target::Unknown),
        "Couldn't identify the user to mute."
    );
    assert_eq!(
        moderation_reply(Moderation::Kick, &Target::NotAReply),
        "Use this command in reply to another message"
    );
    assert_eq!(
        moderation_reply(Moderation::Ban, &Target::NotAReply),
        "Use this command in a reply to another message!"
    );
    assert_eq!(
        moderation_reply(Moderation::Mute, &Target::NotAReply),
        "Use this command in a reply to another message!"
    );
    assert!(is_carried_out(&user));
    assert!(!is_carried_out(&Target::Unknown));
    assert!(!is_carried_out(&Target::NotAReply));
}

#[test]
fn whole_numbers_are_read_as_the_language_reads_them() {
    let texts = [
        "0", "7", "-7", "+7", "007", "-0", "+0", "9223372036854775807", "-9223372036854775808",
        "9223372036854775808", "-9223372036854775809", "99999999999999999999999999", "",
        "-", "+", "--1", "+-1", "1-", "1 ", " 1", "1_000", "0x10", "１２", "12a", "٣",
        "00000000000000000000000000000000000000012",
    ];
    for text in texts {
        assert_eq!(parse_i64(text), text.parse::<i64>().ok(), "{:?}", text);
    }
}

#[test]
fn whole_numbers_are_written_in_decimal() {
    for n in [0, 1, -1, 9, 10, -10, 99, 100, 12345, -98765, i64::MAX, i64::MIN, i64::MIN + 1] {
        assert_eq!(decimal(n), n.to_string());
    }
}
