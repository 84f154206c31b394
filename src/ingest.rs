use vstd::prelude::*;
use crate::store::{PriceMap, PriceStore};
use crate::tick::{applicable, decode_tick, decoded_tick, is_applicable, TickEvent, TickView};

verus! {

/// One message as the streaming transport hands it over.
pub enum Inbound {
    /// A text message, a candidate for decoding.
    Text(String),
    /// Any other message form (binary, ping, pong, close frame).
    NonText,
    /// The transport signalled a read error.
    Failed,
    /// The stream ended.
    Closed,
}

/// What the ingestion loop does after a message.
#[derive(PartialEq, Eq, Structural, Clone, Copy, Debug)]
pub enum Flow {
    Continue,
    Stop,
}

/// What an event does to the prices: an applicable event sets its symbol's
/// price, any other leaves them as they were.
pub open spec fn tick_effect(m: PriceMap, e: TickView) -> PriceMap {
    if is_applicable(e) {
        m.insert(e.symbol, e.price->0)
    } else {
        m
    }
}

/// Whether a message ends the ingestion loop.
pub open spec fn is_terminal(msg: Inbound) -> bool {
    msg is Failed || msg is Closed
}

/// What one message does to the prices.
pub open spec fn message_effect(m: PriceMap, msg: Inbound) -> PriceMap {
    match msg {
        Inbound::Text(t) => match decoded_tick(t@) {
            Some(e) => tick_effect(m, e),
            None => m,
        },
        _ => m,
    }
}

/// The prices after a run of messages, up to the first that ends the loop.
pub open spec fn messages_effect(m: PriceMap, msgs: Seq<Inbound>) -> PriceMap
    decreases msgs.len(),
{
    if msgs.len() == 0 || is_terminal(msgs[0]) {
        m
    } else {
        messages_effect(message_effect(m, msgs[0]), msgs.skip(1))
    }
}

/// Applies a decoded event to the store if it is a price update with a
/// price; tells whether it did.
pub fn apply_tick(store: &mut PriceStore, e: TickEvent) -> (r: bool)
    requires
        old(store).wf(),
    ensures
        final(store).wf(),
        r == is_applicable(e@),
        final(store)@ == tick_effect(old(store)@, e@),
{
    if applicable(&e) {
        match e.price {
            Some(p) => {
                store.update(e.symbol, p);
                true
            },
            None => false,
        }
    } else {
        false
    }
}

/// Handles one inbound message: a text that decodes to an applicable event
/// updates the store; a read error or the end of the stream stops the loop.
pub fn ingest_message(store: &mut PriceStore, msg: &Inbound) -> (r: Flow)
    requires
        old(store).wf(),
    ensures
        final(store).wf(),
        final(store)@ == message_effect(old(store)@, *msg),
        r == (if is_terminal(*msg) { Flow::Stop } else { Flow::Continue }),
{
    match msg {
        Inbound::Text(t) => {
            match decode_tick(t.as_str()) {
                Some(e) => {
                    apply_tick(store, e);
                },
                None => {},
            }
            Flow::Continue
        },
        Inbound::NonText => Flow::Continue,
        Inbound::Failed => Flow::Stop,
        Inbound::Closed => Flow::Stop,
    }
}

/// Runs the ingestion loop over a batch of messages, until the first that
/// stops it; tells whether one did.
pub fn ingest_all(store: &mut PriceStore, msgs: &Vec<Inbound>) -> (r: Flow)
    requires
        old(store).wf(),
    ensures
        final(store).wf(),
        final(store)@ == messages_effect(old(store)@, msgs@),
        r == (if exists|i: int| 0 <= i < msgs@.len() && is_terminal(#[trigger] msgs@[i]) {
            Flow::Stop
        } else {
            Flow::Continue
        }),
{
    let ghost all = msgs@;
    assert(all.skip(0) =~= all);
    let mut i: usize = 0;
    while i < msgs.len()
        invariant
            store.wf(),
            all == msgs@,
            i <= all.len(),
            forall|j: int| 0 <= j < i ==> !is_terminal(#[trigger] all[j]),
            messages_effect(old(store)@, all) == messages_effect(store@, all.skip(i as int)),
        decreases all.len() - i,
    {
        let msg = &msgs[i];
        assert(all.skip(i as int).skip(1) =~= all.skip(i + 1));
        assert(all.skip(i as int)[0] == all[i as int]);
        let flow = ingest_message(store, msg);
        if flow == Flow::Stop {
            return flow;
        }
        i = i + 1;
    }
    assert(all.skip(i as int) =~= Seq::<Inbound>::empty());
    Flow::Continue
}

/// Tells whether a message ends the ingestion loop.
pub fn is_stop(msg: &Inbound) -> (r: bool)
    ensures
        r == is_terminal(*msg),
{
    match msg {
        Inbound::Failed | Inbound::Closed => true,
        _ => false,
    }
}

} // verus!
