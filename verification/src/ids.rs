//! Identifiers and scalar wrappers that the platform hands out.
use vstd::prelude::*;
use crate::error::Error;
use crate::text::{decimal, i64_text};

verus! {

/// Identifier of a user; ordered as its raw identifier.
#[derive(Debug, PartialEq, Eq, Structural, Ord, Clone, Copy)]
pub struct UserId(i64);

impl View for UserId {
    type V = i64;

    closed spec fn view(&self) -> i64 {
        self.0
    }
}

impl UserId {
    /// The raw identifier.
    pub fn as_i64(&self) -> (r: i64)
        ensures
            r == self@,
    {
        self.0
    }

    /// Wraps a raw identifier.
    pub fn from_i64(id: i64) -> (r: Self)
        ensures
            r@ == id,
    {
        UserId(id)
    }

    /// Decimal text of the identifier, as its `Display` writes it.
    pub fn to_string(&self) -> (s: String)
        ensures
            s@ == decimal(self@ as int),
    {
        i64_text(self.0)
    }
}

/// A user identifier is its raw identifier: two are equal exactly when their raw
/// identifiers are, so `UserId::from_i64(u.as_i64())` is `u`.
pub proof fn user_id_is_its_raw_id(u: UserId, v: UserId)
    ensures
        (u@ == v@) <==> (u == v),
{
}

/// Identifier of a chat; ordered as its raw identifier.
#[derive(Debug, PartialEq, Eq, Structural, Ord, Clone, Copy)]
pub struct ChatId(i64);

impl View for ChatId {
    type V = i64;

    closed spec fn view(&self) -> i64 {
        self.0
    }
}

impl ChatId {
    /// The raw identifier.
    pub fn as_i64(&self) -> (r: i64)
        ensures
            r == self@,
    {
        self.0
    }

    /// Wraps a raw identifier.
    pub fn from_i64(id: i64) -> (r: Self)
        ensures
            r@ == id,
    {
        ChatId(id)
    }

    /// Decimal text of the identifier, as its `Display` writes it.
    pub fn to_string(&self) -> (s: String)
        ensures
            s@ == decimal(self@ as int),
    {
        i64_text(self.0)
    }
}

/// A chat identifier is its raw identifier: two are equal exactly when their raw
/// identifiers are, so `ChatId::from_i64(c.as_i64())` is `c`.
pub proof fn chat_id_is_its_raw_id(c: ChatId, d: ChatId)
    ensures
        (c@ == d@) <==> (c == d),
{
}

/// Identifier of a message.
#[derive(Debug, Clone)]
pub struct Mid(String);

impl View for Mid {
    type V = Seq<char>;

    closed spec fn view(&self) -> Seq<char> {
        self.0@
    }
}

impl Mid {
    /// Wraps the text of a message identifier.
    pub fn new(id: String) -> (r: Self)
        ensures
            r@ == id@,
    {
        Mid(id)
    }

    /// The identifier text, as its `Display` writes it.
    pub fn to_string(&self) -> (s: String)
        ensures
            s@ == self@,
    {
        self.0.clone()
    }
}

/// Sequence number of a message within its chat.
#[derive(Debug)]
pub struct MessageSeq(i64);

impl View for MessageSeq {
    type V = i64;

    closed spec fn view(&self) -> i64 {
        self.0
    }
}

impl MessageSeq {
    /// Wraps a raw sequence number.
    pub fn new(n: i64) -> (r: Self)
        ensures
            r@ == n,
    {
        MessageSeq(n)
    }

    /// The raw sequence number.
    pub fn as_i64(&self) -> (r: i64)
        ensures
            r == self@,
    {
        self.0
    }
}

/// A count reported by the platform (participants, views).
#[derive(Debug)]
pub struct Count(i32);

impl View for Count {
    type V = i32;

    closed spec fn view(&self) -> i32 {
        self.0
    }
}

impl Count {
    /// Wraps a raw count.
    pub fn new(n: i32) -> (r: Self)
        ensures
            r@ == n,
    {
        Count(n)
    }

    /// The count as a `usize`; `Overflow` when it is negative.
    pub fn as_usize(&self) -> (r: Result<usize, Error>)
        ensures
            self@ >= 0 ==> r == Ok::<usize, Error>(self@ as usize),
            self@ < 0 ==> r == Err::<usize, Error>(Error::Overflow),
    {
        if self.0 < 0 {
            Err(Error::Overflow)
        } else {
            Ok(self.0 as usize)
        }
    }
}

/// Position in the update stream; the next long poll starts from it.
#[derive(Debug, PartialEq, Eq, Structural, Clone, Copy)]
pub struct Marker(i64);

impl View for Marker {
    type V = i64;

    closed spec fn view(&self) -> i64 {
        self.0
    }
}

impl Marker {
    /// Wraps a raw marker.
    pub fn new(n: i64) -> (r: Self)
        ensures
            r@ == n,
    {
        Marker(n)
    }

    /// The raw marker.
    pub fn as_i64(&self) -> (r: i64)
        ensures
            r == self@,
    {
        self.0
    }

    /// Decimal text of the marker, as its `Display` writes it.
    pub fn to_string(&self) -> (s: String)
        ensures
            s@ == decimal(self@ as int),
    {
        i64_text(self.0)
    }
}

/// A point in time, in milliseconds since the Unix epoch (UTC).
#[derive(Debug, PartialEq, Eq, Structural, PartialOrd, Ord, Clone, Copy)]
pub struct TimeMs(i64);

impl View for TimeMs {
    type V = i64;

    closed spec fn view(&self) -> i64 {
        self.0
    }
}

impl TimeMs {
    /// Wraps a number of milliseconds since the Unix epoch.
    pub fn from_millis(ms: i64) -> (r: Self)
        ensures
            r@ == ms,
    {
        TimeMs(ms)
    }

    /// Milliseconds since the Unix epoch.
    pub fn millis(&self) -> (r: i64)
        ensures
            r == self@,
    {
        self.0
    }
}

} // verus!
