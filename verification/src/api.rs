//! The requests a bot client sends to the platform, and the long-poll loop's state.
use vstd::prelude::*;
use crate::ids::{ChatId, Marker, Mid, UserId};
use crate::kinds::UpdateType;
use crate::model::{Recipient, Update, Updates};
use crate::query::{
    api_base, api_url, api_url_of, form_parse, form_urlencoded, plain_absolute_path,
    urlencoded_pairs_round_trip, utf8_pairs,
};
use vstd::utf8::{decode_utf8, encode_utf8};
use crate::text::{bool_text, bool_to_text, decimal, u8_text};
use crate::update_types::{UpdateTypes, join_names, ordered_members};

verus! {

/// HTTP method of a request.
#[derive(Debug, Clone, Copy, PartialEq, Eq, Structural)]
pub enum Method {
    Get,
    Post,
    Put,
    Delete,
}

/// A request to the platform: method, full URL and the `authorization` header
/// value. Requests that carry a JSON body say which in their documentation.
#[derive(Debug)]
pub struct ApiRequest {
    pub method: Method,
    pub url: String,
    pub authorization: String,
}

/// A query pair.
pub type QueryPair = (Seq<char>, Seq<char>);

/// One pair `(name, value)` when the value is present, none otherwise.
pub open spec fn optional_pair(name: Seq<char>, value: Option<Seq<char>>) -> Seq<QueryPair> {
    match value {
        Some(v) => seq![(name, v)],
        None => Seq::<QueryPair>::empty(),
    }
}

/// Decimal text of an optional number.
pub open spec fn optional_decimal(n: Option<int>) -> Option<Seq<char>> {
    match n {
        Some(v) => Some(decimal(v)),
        None => None,
    }
}

/// The query of a long poll: `timeout`, `marker`, then `types` (the member names
/// in order, comma-separated), each only when given (`types` when non-empty).
pub open spec fn updates_pairs(
    timeout: Option<u8>,
    marker: Option<Marker>,
    types: Set<UpdateType>,
) -> Seq<QueryPair> {
    optional_pair(
        "timeout"@,
        optional_decimal(
            match timeout {
                Some(t) => Some(t as int),
                None => None,
            },
        ),
    ) + optional_pair(
        "marker"@,
        optional_decimal(
            match marker {
                Some(m) => Some(m@ as int),
                None => None,
            },
        ),
    ) + if types.is_empty() {
        Seq::<QueryPair>::empty()
    } else {
        seq![("types"@, join_names(ordered_members(types)))]
    }
}

/// The query of sending a message: `user_id`, `chat_id`, `disable_link_preview`,
/// each only when given.
pub open spec fn send_pairs(
    user_id: Option<UserId>,
    chat_id: Option<ChatId>,
    disable_link_preview: Option<bool>,
) -> Seq<QueryPair> {
    optional_pair(
        "user_id"@,
        optional_decimal(
            match user_id {
                Some(u) => Some(u@ as int),
                None => None,
            },
        ),
    ) + optional_pair(
        "chat_id"@,
        optional_decimal(
            match chat_id {
                Some(c) => Some(c@ as int),
                None => None,
            },
        ),
    ) + optional_pair(
        "disable_link_preview"@,
        match disable_link_preview {
            Some(b) => Some(bool_text(b)),
            None => None,
        },
    )
}

/// What a long poll asks for: exactly one pair per given parameter, in the order
/// `timeout`, `marker`, `types`. `timeout` and `marker` carry their decimal text;
/// `types` is present exactly when the set is non-empty, whatever the timeout and
/// marker, and carries the member names in ascending order joined by commas.
pub proof fn updates_query_lists_given_parameters(
    timeout: Option<u8>,
    marker: Option<Marker>,
    types: Set<UpdateType>,
)
    ensures
        updates_pairs(timeout, marker, types).len() == (if timeout is Some { 1int } else { 0 }) + (
        if marker is Some { 1int } else { 0 }) + (if types.is_empty() { 0int } else { 1 }),
        timeout matches Some(t) ==> updates_pairs(timeout, marker, types)[0] == (
            "timeout"@,
            decimal(t as int),
        ),
        marker matches Some(m) ==> updates_pairs(timeout, marker, types)[if timeout is Some {
            1int
        } else {
            0
        }] == ("marker"@, decimal(m@ as int)),
        !types.is_empty() ==> updates_pairs(timeout, marker, types).last() == (
            "types"@,
            join_names(ordered_members(types)),
        ),
{
}

/// What sending asks for: exactly one pair per given parameter, in the order
/// `user_id`, `chat_id`, `disable_link_preview`, each present exactly when its
/// argument is, whatever the others are: the ids as decimal text, the flag as
/// `true` or `false`.
pub proof fn send_query_lists_given_parameters(
    user_id: Option<UserId>,
    chat_id: Option<ChatId>,
    disable_link_preview: Option<bool>,
)
    ensures
        send_pairs(user_id, chat_id, disable_link_preview).len() == (if user_id is Some {
            1int
        } else {
            0
        }) + (if chat_id is Some { 1int } else { 0 }) + (if disable_link_preview is Some {
            1int
        } else {
            0
        }),
        user_id matches Some(u) ==> send_pairs(user_id, chat_id, disable_link_preview)[0] == (
            "user_id"@,
            decimal(u@ as int),
        ),
        chat_id matches Some(c) ==> send_pairs(user_id, chat_id, disable_link_preview)[if user_id is Some {
            1int
        } else {
            0
        }] == ("chat_id"@, decimal(c@ as int)),
        disable_link_preview matches Some(b) ==> send_pairs(
            user_id,
            chat_id,
            disable_link_preview,
        ).last() == ("disable_link_preview"@, if b {
            "true"@
        } else {
            "false"@
        }),
{
    reveal_strlit("true");
    reveal_strlit("false");
}

/// A long poll names the marker it starts from exactly when it has one: with a
/// marker `m` its query holds `("marker", decimal(m))`; without one no pair is named
/// `marker`. With `UpdatePoller::advance`, the next poll resumes from the marker of
/// the last answer.
pub proof fn poll_names_its_marker(timeout: Option<u8>, marker: Option<Marker>, types: Set<UpdateType>)
    ensures
        marker matches Some(m) ==> updates_pairs(timeout, marker, types).contains(
            ("marker"@, decimal(m@ as int)),
        ),
        marker is None ==> forall|i: int|
            0 <= i < updates_pairs(timeout, marker, types).len() ==> (#[trigger] updates_pairs(
                timeout,
                marker,
                types,
            )[i]).0 != "marker"@,
{
    reveal_strlit("timeout");
    reveal_strlit("marker");
    reveal_strlit("types");
    assert("timeout"@.len() == 7);
    assert("marker"@.len() == 6);
    assert("types"@.len() == 5);
    let t = optional_pair(
        "timeout"@,
        optional_decimal(
            match timeout {
                Some(x) => Some(x as int),
                None => None,
            },
        ),
    );
    let pairs = updates_pairs(timeout, marker, types);
    match marker {
        Some(m) => {
            assert(pairs[t.len() as int] == ("marker"@, decimal(m@ as int)));
        }
        None => {}
    }
}

/// The query of an unsubscribe request (`unsubscribe_request`) reads back, through
/// `form_urlencoded::parse`, as exactly the one pair `("url", url)`, whatever the URL
/// holds (`&`, `=`, `+`, `#`, `%` or non-ASCII text).
pub proof fn unsubscribe_query_round_trip(url: Seq<char>)
    ensures
        api_url("/subscriptions"@, seq![("url"@, url)]) == api_base() + "/subscriptions"@
            + seq!['?'] + form_urlencoded(seq![("url"@, url)]),
        form_parse(form_urlencoded(seq![("url"@, url)])) == seq![
            (encode_utf8("url"@), encode_utf8(url)),
        ],
        decode_utf8(encode_utf8("url"@)) == "url"@,
        decode_utf8(encode_utf8(url)) == url,
{
    let pairs = seq![("url"@, url)];
    urlencoded_pairs_round_trip(pairs);
    assert(utf8_pairs(pairs) =~= seq![(encode_utf8("url"@), encode_utf8(url))]);
    vstd::utf8::encode_utf8_decode_utf8("url"@);
    vstd::utf8::encode_utf8_decode_utf8(url);
}

/// Client side of the bot API: builds the requests, authorized by the bot's token.
pub struct MaxApi {
    access_token: String,
}

impl View for MaxApi {
    type V = Seq<char>;

    /// The access token.
    closed spec fn view(&self) -> Seq<char> {
        self.access_token@
    }
}

fn push_pair(pairs: &mut Vec<(String, String)>, name: &str, value: String)
    ensures
        final(pairs).deep_view() == old(pairs).deep_view().push((name@, value@)),
{
    pairs.push((name.to_owned(), value));
    assert(final(pairs).deep_view() =~= old(pairs).deep_view().push((name@, value@)));
}

impl MaxApi {
    /// A client that authorizes with `access_token`.
    pub fn new(access_token: String) -> (r: Self)
        ensures
            r@ == access_token@,
    {
        MaxApi { access_token }
    }

    fn start(&self, method: Method, path: &str, pairs: &Vec<(String, String)>) -> (r: ApiRequest)
        requires
            plain_absolute_path(path@),
        ensures
            r.method == method,
            r.url@ == api_url(path@, pairs.deep_view()),
            r.authorization@ == self@,
    {
        ApiRequest { method, url: api_url_of(path, pairs), authorization: self.access_token.clone() }
    }

    /// `GET /subscriptions`: the bot's webhook subscriptions.
    pub fn subscriptions_request(&self) -> (r: ApiRequest)
        ensures
            r.method == Method::Get,
            r.url@ == api_url("/subscriptions"@, seq![]),
            r.authorization@ == self@,
    {
        let pairs: Vec<(String, String)> = Vec::new();
        assert(pairs.deep_view() =~= Seq::<QueryPair>::empty());
        proof { reveal_strlit("/subscriptions"); }
        self.start(Method::Get, "/subscriptions", &pairs)
    }

    /// `POST /subscriptions`, with the `SubscriptionRequest` as JSON body.
    pub fn subscribe_request(&self) -> (r: ApiRequest)
        ensures
            r.method == Method::Post,
            r.url@ == api_url("/subscriptions"@, seq![]),
            r.authorization@ == self@,
    {
        let pairs: Vec<(String, String)> = Vec::new();
        assert(pairs.deep_view() =~= Seq::<QueryPair>::empty());
        proof { reveal_strlit("/subscriptions"); }
        self.start(Method::Post, "/subscriptions", &pairs)
    }

    /// `DELETE /subscriptions?url=...`: removes the subscription of webhook `url`.
    pub fn unsubscribe_request(&self, url: &str) -> (r: ApiRequest)
        ensures
            r.method == Method::Delete,
            r.url@ == api_url("/subscriptions"@, seq![("url"@, url@)]),
            r.authorization@ == self@,
    {
        let mut pairs: Vec<(String, String)> = Vec::new();
        push_pair(&mut pairs, "url", url.to_owned());
        assert(pairs.deep_view() =~= seq![("url"@, url@)]);
        proof { reveal_strlit("/subscriptions"); }
        self.start(Method::Delete, "/subscriptions", &pairs)
    }

    /// `GET /updates`: a long poll for updates of the given types (all types when the
    /// set is empty), from `marker` on, waiting up to `timeout` seconds.
    pub fn updates_request(
        &self,
        timeout: Option<u8>,
        marker: Option<Marker>,
        types: &UpdateTypes,
    ) -> (r: ApiRequest)
        ensures
            r.method == Method::Get,
            r.url@ == api_url("/updates"@, updates_pairs(timeout, marker, types@)),
            r.authorization@ == self@,
    {
        let mut pairs: Vec<(String, String)> = Vec::new();
        let ghost empty = pairs.deep_view();
        assert(empty =~= Seq::<QueryPair>::empty());
        if let Some(t) = timeout {
            push_pair(&mut pairs, "timeout", u8_text(t));
        }
        let ghost after_timeout = pairs.deep_view();
        if let Some(m) = marker {
            push_pair(&mut pairs, "marker", m.to_string());
        }
        let ghost after_marker = pairs.deep_view();
        if !types.is_empty() {
            push_pair(&mut pairs, "types", types.join());
        }
        assert(after_timeout =~= optional_pair(
            "timeout"@,
            optional_decimal(
                match timeout {
                    Some(t) => Some(t as int),
                    None => None,
                },
            ),
        ));
        assert(pairs.deep_view() =~= updates_pairs(timeout, marker, types@));
        proof { reveal_strlit("/updates"); }
        self.start(Method::Get, "/updates", &pairs)
    }

    /// `POST /messages`: sends a message (the `NewMessageBody` as JSON body) to a
    /// user or a chat.
    pub fn send_request(
        &self,
        user_id: Option<UserId>,
        chat_id: Option<ChatId>,
        disable_link_preview: Option<bool>,
    ) -> (r: ApiRequest)
        ensures
            r.method == Method::Post,
            r.url@ == api_url("/messages"@, send_pairs(user_id, chat_id, disable_link_preview)),
            r.authorization@ == self@,
    {
        let mut pairs: Vec<(String, String)> = Vec::new();
        let ghost empty = pairs.deep_view();
        assert(empty =~= Seq::<QueryPair>::empty());
        if let Some(u) = user_id {
            push_pair(&mut pairs, "user_id", u.to_string());
        }
        let ghost after_user = pairs.deep_view();
        if let Some(c) = chat_id {
            push_pair(&mut pairs, "chat_id", c.to_string());
        }
        if let Some(d) = disable_link_preview {
            push_pair(&mut pairs, "disable_link_preview", bool_to_text(d));
        }
        assert(after_user =~= optional_pair(
            "user_id"@,
            optional_decimal(
                match user_id {
                    Some(u) => Some(u@ as int),
                    None => None,
                },
            ),
        ));
        assert(pairs.deep_view() =~= send_pairs(user_id, chat_id, disable_link_preview));
        proof { reveal_strlit("/messages"); }
        self.start(Method::Post, "/messages", &pairs)
    }

    /// Sends to where `recipient` received a message: the same request as `send`
    /// with the recipient's user and chat.
    pub fn reply_request(&self, recipient: &Recipient, disable_link_preview: Option<bool>) -> (r:
        ApiRequest)
        ensures
            r.method == Method::Post,
            r.url@ == api_url(
                "/messages"@,
                send_pairs(recipient.user_id, recipient.chat_id, disable_link_preview),
            ),
            r.authorization@ == self@,
    {
        self.send_request(recipient.user_id, recipient.chat_id, disable_link_preview)
    }

    /// `PUT /messages?message_id=...`: replaces a message's content (the
    /// `NewMessageBody` as JSON body).
    pub fn edit_request(&self, message_id: &Mid) -> (r: ApiRequest)
        ensures
            r.method == Method::Put,
            r.url@ == api_url("/messages"@, seq![("message_id"@, message_id@)]),
            r.authorization@ == self@,
    {
        let mut pairs: Vec<(String, String)> = Vec::new();
        push_pair(&mut pairs, "message_id", message_id.to_string());
        assert(pairs.deep_view() =~= seq![("message_id"@, message_id@)]);
        proof { reveal_strlit("/messages"); }
        self.start(Method::Put, "/messages", &pairs)
    }

    /// `POST /uploads?type=...`: asks for an upload URL for a file of the given
    /// upload type (its text form).
    pub fn upload_request(&self, upload_type: &str) -> (r: ApiRequest)
        ensures
            r.method == Method::Post,
            r.url@ == api_url("/uploads"@, seq![("type"@, upload_type@)]),
            r.authorization@ == self@,
    {
        let mut pairs: Vec<(String, String)> = Vec::new();
        push_pair(&mut pairs, "type", upload_type.to_owned());
        assert(pairs.deep_view() =~= seq![("type"@, upload_type@)]);
        proof { reveal_strlit("/uploads"); }
        self.start(Method::Post, "/uploads", &pairs)
    }
}

/// The second step of an upload: posting the file to the upload URL that the
/// platform handed out. It carries no `authorization` header, so the bot's token
/// never goes to the upload server.
#[derive(Debug)]
pub struct UploadContentRequest {
    pub method: Method,
    pub url: String,
    /// The `content-type` header value.
    pub content_type: String,
}

/// `POST` of the file content to `upload_url`, declared as `application/json`.
pub fn upload_content_request(upload_url: &str) -> (r: UploadContentRequest)
    ensures
        r.method == Method::Post,
        r.url@ == upload_url@,
        r.content_type@ == "application/json"@,
{
    UploadContentRequest {
        method: Method::Post,
        url: upload_url.to_owned(),
        content_type: "application/json".to_owned(),
    }
}

/// State of the update stream's long-poll loop: the marker the next poll starts
/// from (none before the first answer), and whether the stream has ended after
/// a failed poll.
pub struct UpdatePoller {
    marker: Option<Marker>,
    ended: bool,
}

impl UpdatePoller {
    /// The marker the next poll starts from.
    pub closed spec fn next_marker(&self) -> Option<Marker> {
        self.marker
    }

    /// Whether the stream has ended: a poll failed, and no poll follows.
    pub closed spec fn has_ended(&self) -> bool {
        self.ended
    }

    /// A loop that has not polled yet.
    pub fn new() -> (r: Self)
        ensures
            r.next_marker() is None,
            !r.has_ended(),
    {
        UpdatePoller { marker: None, ended: false }
    }

    /// The marker the next poll starts from.
    pub fn marker(&self) -> (r: Option<Marker>)
        ensures
            r == self.next_marker(),
    {
        self.marker
    }

    /// Whether the stream has ended.
    pub fn is_ended(&self) -> (r: bool)
        ensures
            r == self.has_ended(),
    {
        self.ended
    }

    /// The next long poll, `GET /updates` from the current marker; none once the
    /// stream has ended.
    pub fn next_request(&self, api: &MaxApi, timeout: Option<u8>, types: &UpdateTypes) -> (r:
        Option<ApiRequest>)
        ensures
            r is None <==> self.has_ended(),
            r matches Some(q) ==> {
                &&& q.method == Method::Get
                &&& q.url@ == api_url("/updates"@, updates_pairs(timeout, self.next_marker(), types@))
                &&& q.authorization@ == api@
            },
    {
        if self.ended {
            None
        } else {
            Some(api.updates_request(timeout, self.marker, types))
        }
    }

    /// Takes in the answer to a poll: the loop yields its updates in order and polls
    /// next from the answer's marker (none when the answer has none).
    pub fn advance(&mut self, batch: Updates) -> (r: Vec<Update>)
        ensures
            final(self).next_marker() == batch.marker,
            final(self).has_ended() == old(self).has_ended(),
            r@ == batch.updates@,
    {
        self.marker = batch.marker;
        batch.updates
    }

    /// Takes in a failed poll: the stream yields the error and ends.
    pub fn fail(&mut self)
        ensures
            final(self).has_ended(),
            final(self).next_marker() == old(self).next_marker(),
    {
        self.ended = true;
    }
}

} // verus!
