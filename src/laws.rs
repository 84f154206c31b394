use vstd::prelude::*;
use crate::ingest::{is_terminal, message_effect, messages_effect, tick_effect, Inbound};
use crate::store::PriceMap;
use crate::tick::{decoded_tick, price_update_kind, TickView};

verus! {

/// The prices after a run of `update(symbol, price)` calls, in order.
pub open spec fn after_updates(m: PriceMap, ups: Seq<(String, String)>) -> PriceMap
    decreases ups.len(),
{
    if ups.len() == 0 {
        m
    } else {
        after_updates(m, ups.drop_last()).insert(ups.last().0@, ups.last().1@)
    }
}

/// Latest write wins: after a run of updates, a symbol's price is the one
/// of the last update that named it.
pub proof fn lemma_latest_write_wins(m: PriceMap, ups: Seq<(String, String)>, j: int)
    requires
        0 <= j < ups.len(),
        forall|k: int| j < k < ups.len() ==> #[trigger] ups[k].0@ != ups[j].0@,
    ensures
        after_updates(m, ups).contains_key(ups[j].0@),
        after_updates(m, ups)[ups[j].0@] == ups[j].1@,
    decreases ups.len(),
{
    if j < ups.len() - 1 {
        lemma_latest_write_wins(m, ups.drop_last(), j);
        assert(ups[ups.len() - 1].0@ != ups[j].0@);
    }
}

/// Updates of other symbols leave a symbol's entry as it was: present with
/// the same price, or absent.
pub proof fn lemma_other_symbols_kept(m: PriceMap, ups: Seq<(String, String)>, s: Seq<char>)
    requires
        forall|k: int| 0 <= k < ups.len() ==> #[trigger] ups[k].0@ != s,
    ensures
        after_updates(m, ups).contains_key(s) == m.contains_key(s),
        m.contains_key(s) ==> after_updates(m, ups)[s] == m[s],
    decreases ups.len(),
{
    if ups.len() > 0 {
        lemma_other_symbols_kept(m, ups.drop_last(), s);
        assert(ups[ups.len() - 1].0@ != s);
    }
}

/// An event of any kind but the price update leaves the prices as they
/// were, whatever its price.
pub proof fn lemma_other_kind_ignored(m: PriceMap, e: TickView)
    requires
        e.kind != price_update_kind(),
    ensures
        tick_effect(m, e) == m,
{
}

/// An event without a price leaves the prices as they were.
pub proof fn lemma_missing_price_ignored(m: PriceMap, e: TickView)
    requires
        e.price is None,
    ensures
        tick_effect(m, e) == m,
{
}

/// A text that does not decode leaves the prices as they were and does not
/// end the loop: the messages after it are handled as if it had not come.
pub proof fn lemma_malformed_ignored(m: PriceMap, t: String, rest: Seq<Inbound>)
    requires
        decoded_tick(t@) is None,
    ensures
        message_effect(m, Inbound::Text(t)) == m,
        !is_terminal(Inbound::Text(t)),
        messages_effect(m, seq![Inbound::Text(t)] + rest) == messages_effect(m, rest),
{
    let msgs = seq![Inbound::Text(t)] + rest;
    assert(msgs.skip(1) =~= rest);
}

/// A read error ends the loop: the prices are those that the messages
/// before it made, and nothing after it is applied.
pub proof fn lemma_failure_keeps_prefix(m: PriceMap, prefix: Seq<Inbound>, rest: Seq<Inbound>)
    requires
        forall|i: int| 0 <= i < prefix.len() ==> !is_terminal(#[trigger] prefix[i]),
    ensures
        messages_effect(m, prefix + seq![Inbound::Failed] + rest) == messages_effect(m, prefix),
    decreases prefix.len(),
{
    let msgs = prefix + seq![Inbound::Failed] + rest;
    if prefix.len() == 0 {
        assert(msgs[0] == Inbound::Failed);
    } else {
        assert(!is_terminal(prefix[0]));
        assert(msgs[0] == prefix[0]);
        let tail = prefix.skip(1);
        assert forall|i: int| 0 <= i < tail.len() implies !is_terminal(#[trigger] tail[i]) by {
            assert(tail[i] == prefix[i + 1]);
        }
        lemma_failure_keeps_prefix(message_effect(m, prefix[0]), tail, rest);
        assert(msgs.skip(1) =~= tail + seq![Inbound::Failed] + rest);
    }
}

} // verus!
