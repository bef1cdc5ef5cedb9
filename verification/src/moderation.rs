//! Moderation of a chat: how long a restriction lasts, and what the
//! moderator reads.

use crate::text::{push_str, same_text, string_of};
use vstd::prelude::*;

verus! {

/// The unit in which the length of a restriction is given.
#[derive(Clone, Copy, Debug, PartialEq, Eq, Structural)]
pub enum UnitOfTime {
    Seconds,
    Minutes,
    Hours,
}

/// The longest restriction, in seconds.
pub const MAX_RESTRICT_SECONDS: u64 = 9223372036854775;

/// The unit that `s` names: its first letter or its name in the plural.
pub open spec fn unit_named(s: Seq<char>) -> Option<UnitOfTime> {
    if s == "h"@ || s == "hours"@ {
        Some(UnitOfTime::Hours)
    } else if s == "m"@ || s == "minutes"@ {
        Some(UnitOfTime::Minutes)
    } else if s == "s"@ || s == "seconds"@ {
        Some(UnitOfTime::Seconds)
    } else {
        None
    }
}

/// What is said of a text that names no unit.
pub open spec fn allowed_units() -> Seq<char> {
    "Allowed units: h, m, s"@
}

impl UnitOfTime {
    /// The seconds that one unit lasts.
    pub open spec fn seconds(self) -> int {
        match self {
            UnitOfTime::Seconds => 1,
            UnitOfTime::Minutes => 60,
            UnitOfTime::Hours => 3600,
        }
    }

    /// Reads a unit: `h` or `hours`, `m` or `minutes`, `s` or `seconds`.
    pub fn from_str(s: &str) -> (unit: Result<UnitOfTime, &'static str>)
        ensures
            match unit {
                Ok(u) => unit_named(s@) == Some(u),
                Err(reason) => unit_named(s@) is None && reason@ == allowed_units(),
            },
    {
        if same_text(s, "h") || same_text(s, "hours") {
            Ok(UnitOfTime::Hours)
        } else if same_text(s, "m") || same_text(s, "minutes") {
            Ok(UnitOfTime::Minutes)
        } else if same_text(s, "s") || same_text(s, "seconds") {
            Ok(UnitOfTime::Seconds)
        } else {
            Err("Allowed units: h, m, s")
        }
    }
}

/// The seconds that `time` units last, where that is no longer than the
/// longest restriction.
pub open spec fn restrict_seconds(time: int, unit: UnitOfTime) -> Option<int> {
    if time * unit.seconds() <= MAX_RESTRICT_SECONDS {
        Some(time * unit.seconds())
    } else {
        None
    }
}

/// The length of a restriction of `time` units, in seconds. A restriction
/// longer than the longest one has no length.
pub fn calc_restrict_time(time: u64, unit: UnitOfTime) -> (seconds: Option<i64>)
    ensures
        match seconds {
            Some(n) => restrict_seconds(time as int, unit) == Some(n as int),
            None => restrict_seconds(time as int, unit) is None,
        },
{
    let factor: u64 = match unit {
        UnitOfTime::Seconds => 1,
        UnitOfTime::Minutes => 60,
        UnitOfTime::Hours => 3600,
    };
    if time > MAX_RESTRICT_SECONDS / factor {
        None
    } else {
        Some((time * factor) as i64)
    }
}

/// What a moderator can do to a user.
#[derive(Clone, Copy, Debug, PartialEq, Eq, Structural)]
pub enum Moderation {
    Kick,
    Ban,
    Mute,
}

/// Whose message a moderation command was a reply to.
#[derive(Debug)]
pub enum Target {
    /// The command was no reply to a message.
    NotAReply,
    /// The message that it replied to names no sender.
    Unknown,
    /// The sender of the message that it replied to, by first name.
    User(String),
}

/// What a [`Target`] holds.
pub enum TargetView {
    NotAReply,
    Unknown,
    User(Seq<char>),
}

impl View for Target {
    type V = TargetView;

    open spec fn view(&self) -> TargetView {
        match self {
            Target::NotAReply => TargetView::NotAReply,
            Target::Unknown => TargetView::Unknown,
            Target::User(name) => TargetView::User(name@),
        }
    }
}

/// What the moderator reads after a moderation command.
pub open spec fn moderation_text(action: Moderation, target: TargetView) -> Seq<char> {
    match (action, target) {
        (Moderation::Kick, TargetView::NotAReply) => "Use this command in reply to another message"@,
        (_, TargetView::NotAReply) => "Use this command in a reply to another message!"@,
        (Moderation::Kick, TargetView::Unknown) => "Couldn't identify the user to kick."@,
        (Moderation::Ban, TargetView::Unknown) => "Couldn't identify the user to ban."@,
        (Moderation::Mute, TargetView::Unknown) => "Couldn't identify the user to mute."@,
        (Moderation::Kick, TargetView::User(name)) => "User "@ + name + " has been kicked."@,
        (Moderation::Ban, TargetView::User(name)) => "User "@ + name
            + " has been banned for the specified duration."@,
        (Moderation::Mute, TargetView::User(name)) => "User "@ + name
            + " has been muted for the specified duration."@,
    }
}

/// Tells whether the command is carried out: it is where it names a user.
pub fn is_carried_out(target: &Target) -> (acts: bool)
    ensures
        acts == (target@ is User),
{
    match target {
        Target::User(_) => true,
        _ => false,
    }
}

/// The text for the moderator: that the user was dealt with, or why nobody
/// was.
pub fn moderation_reply(action: Moderation, target: &Target) -> (out: String)
    ensures
        out@ == moderation_text(action, target@),
{
    match target {
        Target::NotAReply => match action {
            Moderation::Kick => "Use this command in reply to another message".to_owned(),
            _ => "Use this command in a reply to another message!".to_owned(),
        },
        Target::Unknown => match action {
            Moderation::Kick => "Couldn't identify the user to kick.".to_owned(),
            Moderation::Ban => "Couldn't identify the user to ban.".to_owned(),
            Moderation::Mute => "Couldn't identify the user to mute.".to_owned(),
        },
        Target::User(name) => {
            let mut text: Vec<char> = Vec::new();
            push_str(&mut text, "User ");
            push_str(&mut text, name.as_str());
            match action {
                Moderation::Kick => push_str(&mut text, " has been kicked."),
                Moderation::Ban => push_str(
                    &mut text,
                    " has been banned for the specified duration.",
                ),
                Moderation::Mute => push_str(
                    &mut text,
                    " has been muted for the specified duration.",
                ),
            }
            assert(text@ =~= moderation_text(action, target@));
            string_of(&text)
        },
    }
}

} // verus!
