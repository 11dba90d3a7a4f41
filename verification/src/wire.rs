//! What a notification channel puts on the wire: the target, the headers and
//! the body of one HTTP POST, and how the answer to it is judged.

use reqwest::header::{HeaderValue, InvalidHeaderValue};
use vstd::prelude::*;
use vstd::string::*;
use vstd::utf8::encode_utf8;

verus! {

/// The notification services that can be configured.
#[derive(Debug, Clone, Copy, PartialEq, Eq, Structural)]
pub enum ChannelKind {
    Ntfy,
    Gotify,
    Discord,
    Slack,
}

/// One HTTP header.
#[derive(Debug)]
pub struct Header {
    pub name: String,
    pub value: String,
}

/// The mathematical view of [`Header`].
pub ghost struct HeaderView {
    pub name: Seq<char>,
    pub value: Seq<char>,
}

impl View for Header {
    type V = HeaderView;

    open spec fn view(&self) -> HeaderView {
        HeaderView { name: self.name@, value: self.value@ }
    }
}

/// The views of a list of headers, in order.
pub open spec fn header_views(headers: Seq<Header>) -> Seq<HeaderView> {
    Seq::new(headers.len(), |i: int| headers[i]@)
}

/// A JSON value made of texts, lists and objects, which is all that the
/// notification services are sent.
#[derive(Debug)]
pub enum Json {
    Text(String),
    List(Vec<Json>),
    /// The members of an object, each a key with its value.
    Object(Vec<(String, Json)>),
}

/// The mathematical view of [`Json`].
pub ghost enum JsonView {
    Text(Seq<char>),
    List(Seq<JsonView>),
    Object(Seq<(Seq<char>, JsonView)>),
}

impl View for Json {
    type V = JsonView;

    open spec fn view(&self) -> JsonView
        decreases self,
    {
        match self {
            Json::Text(text) => JsonView::Text(text@),
            Json::List(items) => JsonView::List(
                Seq::new(
                    items@.len(),
                    |i: int|
                        if 0 <= i < items@.len() {
                            items@[i].view()
                        } else {
                            JsonView::Text(Seq::empty())
                        },
                ),
            ),
            Json::Object(members) => JsonView::Object(
                Seq::new(
                    members@.len(),
                    |i: int|
                        if 0 <= i < members@.len() {
                            (members@[i].0@, members@[i].1.view())
                        } else {
                            (Seq::empty(), JsonView::Text(Seq::empty()))
                        },
                ),
            ),
        }
    }
}

/// The views of a list of values, in order.
pub open spec fn json_views(items: Seq<Json>) -> Seq<JsonView> {
    Seq::new(items.len(), |i: int| items[i]@)
}

/// The views of the members of an object, in order.
pub open spec fn member_views(members: Seq<(String, Json)>) -> Seq<(Seq<char>, JsonView)> {
    Seq::new(members.len(), |i: int| (members[i].0@, members[i].1@))
}

impl Json {
    /// The text `text` as a value.
    pub fn text(text: &str) -> (value: Json)
        ensures
            value@ == JsonView::Text(text@),
    {
        Json::Text(text.to_owned())
    }

    /// The list of `items`.
    pub fn list(items: Vec<Json>) -> (value: Json)
        ensures
            value@ == JsonView::List(json_views(items@)),
    {
        let value = Json::List(items);
        assert(value@->List_0 =~= json_views(items@));
        value
    }

    /// The object with `members`.
    pub fn object(members: Vec<(String, Json)>) -> (value: Json)
        ensures
            value@ == JsonView::Object(member_views(members@)),
    {
        let value = Json::Object(members);
        proof {
            reveal_with_fuel(<Json as View>::view, 2);
        }
        assert(value@->Object_0 =~= member_views(members@));
        value
    }
}

/// Adds `value` to `items`.
pub fn with_item(items: Vec<Json>, value: Json) -> (longer: Vec<Json>)
    ensures
        json_views(longer@) == json_views(items@).push(value@),
{
    let mut longer = items;
    longer.push(value);
    longer
}

/// Adds the member `key` with `value` to `members`.
pub fn with_member(members: Vec<(String, Json)>, key: &str, value: Json) -> (longer: Vec<
    (String, Json),
>)
    ensures
        member_views(longer@) == member_views(members@).push((key@, value@)),
{
    let mut longer = members;
    longer.push((key.to_owned(), value));
    longer
}

/// A list without items.
pub fn no_items() -> (items: Vec<Json>)
    ensures
        items@ == Seq::<Json>::empty(),
        json_views(items@) == Seq::<JsonView>::empty(),
{
    let items: Vec<Json> = Vec::new();
    items
}

/// An object without members.
pub fn no_members() -> (members: Vec<(String, Json)>)
    ensures
        members@ == Seq::<(String, Json)>::empty(),
        member_views(members@) == Seq::<(Seq<char>, JsonView)>::empty(),
{
    let members: Vec<(String, Json)> = Vec::new();
    members
}

/// The body of a notification.
#[derive(Debug)]
pub enum Body {
    /// Plain text, sent as it is.
    Text(String),
    /// A JSON value, sent in its usual notation.
    Json(Json),
}

/// The mathematical view of [`Body`].
pub ghost enum BodyView {
    Text(Seq<char>),
    Json(JsonView),
}

impl View for Body {
    type V = BodyView;

    open spec fn view(&self) -> BodyView {
        match self {
            Body::Text(text) => BodyView::Text(text@),
            Body::Json(value) => BodyView::Json(value@),
        }
    }
}

/// One notification for one channel: an HTTP POST that is ready to be sent.
#[derive(Debug)]
pub struct Delivery {
    pub channel: ChannelKind,
    pub url: String,
    pub headers: Vec<Header>,
    pub body: Body,
}

/// The mathematical view of [`Delivery`].
pub ghost struct DeliveryView {
    pub channel: ChannelKind,
    pub url: Seq<char>,
    pub headers: Seq<HeaderView>,
    pub body: BodyView,
}

impl View for Delivery {
    type V = DeliveryView;

    open spec fn view(&self) -> DeliveryView {
        DeliveryView {
            channel: self.channel,
            url: self.url@,
            headers: header_views(self.headers@),
            body: self.body@,
        }
    }
}

/// The views of a list of deliveries, in order.
pub open spec fn delivery_views(deliveries: Seq<Delivery>) -> Seq<DeliveryView> {
    Seq::new(deliveries.len(), |i: int| deliveries[i]@)
}

/// A byte that may stand in a header value: a tab, or anything from the
/// blank upwards but DEL.
pub open spec fn header_byte_ok(b: u8) -> bool {
    b >= 32 && b != 127 || b == 9
}

/// Whether a text, given by its UTF-8 bytes, can be sent as a header value.
pub open spec fn is_header_text(bytes: Seq<u8>) -> bool {
    forall|i: int| 0 <= i < bytes.len() ==> header_byte_ok(#[trigger] bytes[i])
}

/// The header value that a text is sent as: the text itself where it can be
/// sent, and the empty value where it cannot.
pub open spec fn header_value_of(text: Seq<char>) -> Seq<char> {
    if is_header_text(encode_utf8(text)) {
        text
    } else {
        Seq::empty()
    }
}

/// A header value as `reqwest` holds it.
#[verifier::external_type_specification]
#[verifier::external_body]
pub struct ExHeaderValue(HeaderValue);

/// The error with which `reqwest` refuses a header value.
#[verifier::external_type_specification]
#[verifier::external_body]
pub struct ExInvalidHeaderValue(InvalidHeaderValue);

/// Calls `reqwest::header::HeaderValue::from_str`. It goes through the
/// bytes of the text and refuses the text at the first byte that is neither
/// a tab nor in the range from 32 upwards without 127; a text without such
/// a byte is taken.
#[verifier::external_body]
fn parse_header_value(text: &str) -> (parsed: Result<HeaderValue, InvalidHeaderValue>)
    ensures
        parsed is Ok <==> is_header_text(text.spec_bytes()),
{
    HeaderValue::from_str(text)
}

/// Whether `text` can be sent as a header value.
pub fn is_valid_header_value(text: &str) -> (ok: bool)
    ensures
        ok == is_header_text(encode_utf8(text@)),
{
    match parse_header_value(text) {
        Ok(_) => true,
        Err(_) => false,
    }
}

/// Builds a header; a value that cannot be sent is replaced by the empty one.
pub fn header(name: &str, value: String) -> (h: Header)
    ensures
        h@ == (HeaderView { name: name@, value: header_value_of(value@) }),
{
    let value = if is_valid_header_value(value.as_str()) {
        value
    } else {
        String::new()
    };
    Header { name: name.to_owned(), value }
}

/// The longest that a request to a registry or to a notification service
/// may take, in seconds.
pub const REQUEST_TIMEOUT: u64 = 30;

/// Whether an HTTP status code reports success: the codes from 200 to 299.
pub open spec fn status_is_success(code: u16) -> bool {
    200 <= code < 300
}

/// Whether `code` reports success.
pub fn is_success_status(code: u16) -> (ok: bool)
    ensures
        ok == status_is_success(code),
{
    200 <= code && code < 300
}

} // verus!
