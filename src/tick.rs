use vstd::prelude::*;

verus! {

/// The kind of event that carries a price update.
pub open spec fn price_update_kind() -> Seq<char> {
    "ticker"@
}

/// What a JSON object text holds under one key, as far as a tick event
/// needs to know.
pub enum JsonMember {
    /// The text is not JSON at all.
    Malformed,
    /// The text is not an object, or the object has no such key.
    Absent,
    /// The key holds `null`.
    Null,
    /// The key holds a string.
    Text(String),
    /// The key holds a number, a boolean, an array or an object.
    Other,
}

/// The abstract form of a [`JsonMember`].
pub ghost enum MemberView {
    Malformed,
    Absent,
    Null,
    Text(Seq<char>),
    Other,
}

impl View for JsonMember {
    type V = MemberView;

    open spec fn view(&self) -> MemberView {
        match self {
            JsonMember::Malformed => MemberView::Malformed,
            JsonMember::Absent => MemberView::Absent,
            JsonMember::Null => MemberView::Null,
            JsonMember::Text(s) => MemberView::Text(s@),
            JsonMember::Other => MemberView::Other,
        }
    }
}

/// What JSON parsing finds in `text` under `key`.
pub uninterp spec fn json_member_of(text: Seq<char>, key: Seq<char>) -> MemberView;

/// Relies on serde_json::from_str (into a `serde_json::Value`) and
/// serde_json::Value::get: the member of the parsed object under `key`.
/// The result depends on the two strings alone.
#[verifier::external_body]
fn json_member(text: &str, key: &str) -> (r: JsonMember)
    ensures
        r@ == json_member_of(text@, key@),
{
    match serde_json::from_str::<serde_json::Value>(text) {
        Err(_) => JsonMember::Malformed,
        Ok(v) => match v.get(key) {
            None => JsonMember::Absent,
            Some(serde_json::Value::Null) => JsonMember::Null,
            Some(serde_json::Value::String(s)) => JsonMember::Text(s.clone()),
            Some(_) => JsonMember::Other,
        },
    }
}

/// One decoded inbound message: a possible price update for one symbol.
pub struct TickEvent {
    pub event_kind: String,
    pub symbol: String,
    pub price: Option<String>,
}

/// The abstract form of a [`TickEvent`].
pub ghost struct TickView {
    pub kind: Seq<char>,
    pub symbol: Seq<char>,
    pub price: Option<Seq<char>>,
}

impl View for TickEvent {
    type V = TickView;

    open spec fn view(&self) -> TickView {
        TickView {
            kind: self.event_kind@,
            symbol: self.symbol@,
            price: match self.price {
                Some(p) => Some(p@),
                None => None,
            },
        }
    }
}

/// The event that the three members of a message make up: kind and symbol
/// must be strings; a price that is missing or `null` is no price, and one
/// that is not a string spoils the message.
pub open spec fn tick_of_members(kind: MemberView, symbol: MemberView, price: MemberView) -> Option<
    TickView,
> {
    match (kind, symbol) {
        (MemberView::Text(k), MemberView::Text(s)) => match price {
            MemberView::Absent | MemberView::Null => Some(TickView { kind: k, symbol: s, price: None }),
            MemberView::Text(p) => Some(TickView { kind: k, symbol: s, price: Some(p) }),
            _ => None,
        },
        _ => None,
    }
}

/// The event that an inbound text decodes to, if it has the shape of one.
pub open spec fn decoded_tick(text: Seq<char>) -> Option<TickView> {
    tick_of_members(
        json_member_of(text, "type"@),
        json_member_of(text, "product_id"@),
        json_member_of(text, "price"@),
    )
}

/// Builds a tick event from the members `type`, `product_id` and `price`
/// of a message.
pub fn tick_from_members(kind: JsonMember, symbol: JsonMember, price: JsonMember) -> (r: Option<
    TickEvent,
>)
    ensures
        r matches Some(e) ==> tick_of_members(kind@, symbol@, price@) == Some(e@),
        r is None ==> tick_of_members(kind@, symbol@, price@) is None,
{
    match (kind, symbol) {
        (JsonMember::Text(k), JsonMember::Text(s)) => match price {
            JsonMember::Absent | JsonMember::Null => Some(
                TickEvent { event_kind: k, symbol: s, price: None },
            ),
            JsonMember::Text(p) => Some(TickEvent { event_kind: k, symbol: s, price: Some(p) }),
            _ => None,
        },
        _ => None,
    }
}

/// Decodes one inbound text message into a tick event; a text of any other
/// shape gives `None`.
pub fn decode_tick(text: &str) -> (r: Option<TickEvent>)
    ensures
        r matches Some(e) ==> decoded_tick(text@) == Some(e@),
        r is None ==> decoded_tick(text@) is None,
{
    let kind = json_member(text, "type");
    let symbol = json_member(text, "product_id");
    let price = json_member(text, "price");
    tick_from_members(kind, symbol, price)
}

/// Whether an event is applied to the store: a price update with a price.
pub open spec fn is_applicable(e: TickView) -> bool {
    e.kind == price_update_kind() && e.price is Some
}

/// Tells whether an event is applied to the store.
pub fn applicable(e: &TickEvent) -> (r: bool)
    ensures
        r == is_applicable(e@),
{
    let kind = <String as vstd::string::StringExecFns>::from_str("ticker");
    proof {
        reveal_strlit("ticker");
    }
    e.event_kind == kind && e.price.is_some()
}

} // verus!
