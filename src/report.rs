use vstd::prelude::*;
use vstd::string::StringExecFns;

verus! {

/// Seconds between two snapshot reports.
pub const REPORT_INTERVAL_SECS: u64 = 30;

/// The banner that opens a report, after a blank line.
pub open spec fn report_header() -> Seq<char> {
    "\n==== Latest Prices (every 30 seconds) ====\n"@
}

/// The banner that closes a report, followed by a blank line.
pub open spec fn report_footer() -> Seq<char> {
    "===========================================\n\n"@
}

/// The report line of one entry: `symbol: $price`.
pub open spec fn report_line(e: (String, String)) -> Seq<char> {
    e.0@ + ": $"@ + e.1@ + "\n"@
}

/// The report lines of entries, in the order given.
pub open spec fn report_lines(entries: Seq<(String, String)>) -> Seq<char>
    decreases entries.len(),
{
    if entries.len() == 0 {
        Seq::empty()
    } else {
        report_lines(entries.drop_last()) + report_line(entries.last())
    }
}

/// The whole report of a snapshot.
pub open spec fn report_text(entries: Seq<(String, String)>) -> Seq<char> {
    report_header() + report_lines(entries) + report_footer()
}

/// Renders a snapshot as a framed block with one `symbol: $price` line per
/// entry, in the order of the snapshot.
pub fn render_report(snapshot: &Vec<(String, String)>) -> (r: String)
    ensures
        r@ == report_text(snapshot@),
{
    let mut out = String::from_str("\n==== Latest Prices (every 30 seconds) ====\n");
    let mut i: usize = 0;
    while i < snapshot.len()
        invariant
            i <= snapshot@.len(),
            out@ == report_header() + report_lines(snapshot@.take(i as int)),
        decreases snapshot@.len() - i,
    {
        let e = &snapshot[i];
        out.append(e.0.as_str());
        out.append(": $");
        out.append(e.1.as_str());
        out.append("\n");
        proof {
            assert(snapshot@.take(i + 1).drop_last() =~= snapshot@.take(i as int));
            assert(snapshot@.take(i + 1).last() == *e);
            assert(out@ =~= report_header() + report_lines(snapshot@.take(i + 1)));
        }
        i = i + 1;
    }
    out.append("===========================================\n\n");
    proof {
        assert(snapshot@.take(i as int) =~= snapshot@);
    }
    out
}

/// The symbols, each in quotes, separated by `", "`; the quotes of the
/// first and the last are left to the caller.
pub open spec fn joined_ids(ids: Seq<String>) -> Seq<char>
    decreases ids.len(),
{
    if ids.len() == 0 {
        Seq::empty()
    } else if ids.len() == 1 {
        ids[0]@
    } else {
        joined_ids(ids.drop_last()) + "\", \""@ + ids.last()@
    }
}

/// The request that subscribes to the ticker channel of the symbols.
pub open spec fn subscribe_text(ids: Seq<String>) -> Seq<char> {
    "{\"type\": \"subscribe\", \"channels\": [{ \"name\": \"ticker\", \"product_ids\": [\""@
        + joined_ids(ids) + "\"] }]}"@
}

/// Builds the subscription request for the ticker channel of the symbols.
pub fn subscribe_message(ids: &Vec<String>) -> (r: String)
    ensures
        r@ == subscribe_text(ids@),
{
    let mut out = String::from_str(
        "{\"type\": \"subscribe\", \"channels\": [{ \"name\": \"ticker\", \"product_ids\": [\"",
    );
    let ghost head = out@;
    let mut i: usize = 0;
    while i < ids.len()
        invariant
            i <= ids@.len(),
            out@ == head + joined_ids(ids@.take(i as int)),
        decreases ids@.len() - i,
    {
        if i > 0 {
            out.append("\", \"");
        }
        out.append(ids[i].as_str());
        proof {
            assert(ids@.take(i + 1).drop_last() =~= ids@.take(i as int));
            assert(ids@.take(i + 1).last() == ids@[i as int]);
            if i == 0 {
                assert(ids@.take(1)[0] == ids@[0]);
            }
            assert(out@ =~= head + joined_ids(ids@.take(i + 1)));
        }
        i = i + 1;
    }
    out.append("\"] }]}");
    proof {
        assert(ids@.take(i as int) =~= ids@);
    }
    out
}

} // verus!
