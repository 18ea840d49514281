//! Enumerations of the API, with their `Display` names and parsers.
use vstd::prelude::*;

verus! {

/// The text form was not one of the enumeration's names.
#[derive(Debug, Clone, Copy, PartialEq, Eq, Structural)]
pub struct UnknownVariant;

/// Kind of a chat.
#[derive(Debug, Clone, Copy, PartialEq, Eq, Structural)]
pub enum ChatType {
    Chat,
    Dialog,
}

/// `Display` text of a chat type: the variant's name.
pub open spec fn chat_type_name(t: ChatType) -> Seq<char> {
    match t {
        ChatType::Chat => "Chat"@,
        ChatType::Dialog => "Dialog"@,
    }
}

/// What parsing a text as a chat type gives: the variant with that exact name.
pub open spec fn chat_type_from_name(s: Seq<char>) -> Option<ChatType> {
    if s == "Chat"@ {
        Some(ChatType::Chat)
    } else if s == "Dialog"@ {
        Some(ChatType::Dialog)
    } else {
        None
    }
}

fn str_equals(a: &str, b: &str) -> (r: bool)
    ensures
        r == (a@ == b@),
{
    a.to_owned() == b.to_owned()
}

impl ChatType {
    /// The variant's name, as `Display` writes it.
    pub fn to_string(&self) -> (s: String)
        ensures
            s@ == chat_type_name(*self),
    {
        match self {
            ChatType::Chat => "Chat".to_owned(),
            ChatType::Dialog => "Dialog".to_owned(),
        }
    }

    /// Parses the exact name of a variant, as `FromStr` does.
    pub fn from_str(s: &str) -> (r: Result<ChatType, UnknownVariant>)
        ensures
            r matches Ok(t) ==> chat_type_from_name(s@) == Some(t),
            r is Err ==> chat_type_from_name(s@) is None,
    {
        if str_equals(s, "Chat") {
            Ok(ChatType::Chat)
        } else if str_equals(s, "Dialog") {
            Ok(ChatType::Dialog)
        } else {
            Err(UnknownVariant)
        }
    }
}

/// Parsing the name of a chat type gives that chat type back.
pub proof fn chat_type_name_round_trip(t: ChatType)
    ensures
        chat_type_from_name(chat_type_name(t)) == Some(t),
{
    reveal_strlit("Chat");
    reveal_strlit("Dialog");
    assert("Chat"@.len() == 4);
    assert("Dialog"@.len() == 6);
}

/// The `Display` names, letter by letter: the chat types keep their variant names,
/// the update types are written in snake case.
pub proof fn names_spelled_out(t: UpdateType, c: ChatType)
    ensures
        update_type_name(t) == match t {
            UpdateType::MessageCreated => seq!['m', 'e', 's', 's', 'a', 'g', 'e', '_', 'c', 'r', 'e', 'a', 't', 'e', 'd'],
            UpdateType::BotStarted => seq!['b', 'o', 't', '_', 's', 't', 'a', 'r', 't', 'e', 'd'],
            UpdateType::Unknown => seq!['u', 'n', 'k', 'n', 'o', 'w', 'n'],
        },
        chat_type_name(c) == match c {
            ChatType::Chat => seq!['C', 'h', 'a', 't'],
            ChatType::Dialog => seq!['D', 'i', 'a', 'l', 'o', 'g'],
        },
{
    reveal_strlit("message_created");
    reveal_strlit("bot_started");
    reveal_strlit("unknown");
    reveal_strlit("Chat");
    reveal_strlit("Dialog");
}

/// Standing of a chat for the bot.
#[derive(Debug, Clone, Copy, PartialEq, Eq, Structural)]
pub enum ChatStatus {
    Active,
    Removed,
    Left,
    Closed,
}

/// How a message refers to another one.
#[derive(Debug, Clone, Copy, PartialEq, Eq, Structural)]
pub enum MessageLinkType {
    Forward,
    Reply,
}

/// Markup language of a message text.
#[derive(Debug, Clone, Copy, PartialEq, Eq, Structural)]
pub enum TextFormat {
    Markdown,
    Html,
}

/// Kind of an update, without its payload. Ordered as declared.
#[derive(Debug, Clone, Copy, PartialEq, Eq, Structural, PartialOrd, Ord)]
pub enum UpdateType {
    MessageCreated,
    BotStarted,
    Unknown,
}

/// `Display` text of an update type: its name in snake case.
pub open spec fn update_type_name(t: UpdateType) -> Seq<char> {
    match t {
        UpdateType::MessageCreated => "message_created"@,
        UpdateType::BotStarted => "bot_started"@,
        UpdateType::Unknown => "unknown"@,
    }
}

/// What parsing a text as an update type gives.
pub open spec fn update_type_from_name(s: Seq<char>) -> Option<UpdateType> {
    if s == "message_created"@ {
        Some(UpdateType::MessageCreated)
    } else if s == "bot_started"@ {
        Some(UpdateType::BotStarted)
    } else if s == "unknown"@ {
        Some(UpdateType::Unknown)
    } else {
        None
    }
}

/// Position of an update type in declaration order, which is its `Ord` order.
pub open spec fn update_type_rank(t: UpdateType) -> int {
    match t {
        UpdateType::MessageCreated => 0,
        UpdateType::BotStarted => 1,
        UpdateType::Unknown => 2,
    }
}

impl UpdateType {
    /// The snake-case name, as `Display` writes it.
    pub fn to_string(&self) -> (s: String)
        ensures
            s@ == update_type_name(*self),
    {
        match self {
            UpdateType::MessageCreated => "message_created".to_owned(),
            UpdateType::BotStarted => "bot_started".to_owned(),
            UpdateType::Unknown => "unknown".to_owned(),
        }
    }

    /// Parses a snake-case name, as `FromStr` does.
    pub fn from_str(s: &str) -> (r: Result<UpdateType, UnknownVariant>)
        ensures
            r matches Ok(t) ==> update_type_from_name(s@) == Some(t),
            r is Err ==> update_type_from_name(s@) is None,
    {
        if str_equals(s, "message_created") {
            Ok(UpdateType::MessageCreated)
        } else if str_equals(s, "bot_started") {
            Ok(UpdateType::BotStarted)
        } else if str_equals(s, "unknown") {
            Ok(UpdateType::Unknown)
        } else {
            Err(UnknownVariant)
        }
    }
}

/// Parsing the name of an update type gives that update type back, and no two
/// update types share a name.
pub proof fn update_type_name_round_trip(t: UpdateType, u: UpdateType)
    ensures
        update_type_from_name(update_type_name(t)) == Some(t),
        update_type_name(t) == update_type_name(u) ==> t == u,
{
    reveal_strlit("message_created");
    reveal_strlit("bot_started");
    reveal_strlit("unknown");
    assert("message_created"@.len() == 15);
    assert("bot_started"@.len() == 11);
    assert("unknown"@.len() == 7);
}

} // verus!
