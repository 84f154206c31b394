use vstd::prelude::*;

verus! {

/// The first field of each record of a CSV text with a header row, or
/// `None` where the text is not valid CSV.
pub uninterp spec fn csv_first_fields_of(text: Seq<char>) -> Option<Seq<Option<Seq<char>>>>;

/// A string without its leading and trailing whitespace.
pub uninterp spec fn trimmed(s: Seq<char>) -> Seq<char>;

/// The abstract form of a list of optional fields.
pub open spec fn fields_view(fields: Seq<Option<String>>) -> Seq<Option<Seq<char>>> {
    fields.map_values(|f: Option<String>| match f {
        Some(s) => Some(s@),
        None => None,
    })
}

/// Relies on csv::ReaderBuilder (header row on), csv::Reader::records and
/// csv::StringRecord::get: the first field of every record after the header,
/// or `None` at the first record that the reader rejects. The result
/// depends on the text alone.
#[verifier::external_body]
fn csv_first_fields(text: &str) -> (r: Option<Vec<Option<String>>>)
    ensures
        match r {
            Some(f) => csv_first_fields_of(text@) == Some(fields_view(f@)),
            None => csv_first_fields_of(text@) is None,
        },
{
    csv::ReaderBuilder::new()
        .has_headers(true)
        .from_reader(text.as_bytes())
        .records()
        .map(|rec| rec.map(|rec| rec.get(0).map(String::from)))
        .collect::<Result<Vec<Option<String>>, csv::Error>>()
        .ok()
}

/// Relies on str::trim: leading and trailing whitespace removed; the result
/// depends on the characters alone.
#[verifier::external_body]
fn trim_text(s: &str) -> (r: String)
    ensures
        r@ == trimmed(s@),
{
    s.trim().to_string()
}

/// The symbols that a list of first fields names: each present field,
/// trimmed, in order.
pub open spec fn symbols_of_fields(fields: Seq<Option<Seq<char>>>) -> Seq<Seq<char>>
    decreases fields.len(),
{
    if fields.len() == 0 {
        Seq::empty()
    } else {
        let init = symbols_of_fields(fields.drop_last());
        match fields.last() {
            Some(f) => init.push(trimmed(f)),
            None => init,
        }
    }
}

/// The symbols that a CSV text lists in its first column, below the header.
pub open spec fn symbols_of_csv(text: Seq<char>) -> Option<Seq<Seq<char>>> {
    match csv_first_fields_of(text) {
        Some(fields) => Some(symbols_of_fields(fields)),
        None => None,
    }
}

/// The symbols that a list of first fields names: each present field,
/// trimmed, in order.
pub fn symbols_from_fields(fields: &Vec<Option<String>>) -> (r: Vec<String>)
    ensures
        r@.map_values(|s: String| s@) == symbols_of_fields(fields_view(fields@)),
{
    let mut r: Vec<String> = Vec::new();
    let mut i: usize = 0;
    while i < fields.len()
        invariant
            i <= fields@.len(),
            r@.map_values(|s: String| s@) == symbols_of_fields(fields_view(fields@.take(i as int))),
        decreases fields@.len() - i,
    {
        proof {
            assert(fields_view(fields@.take(i + 1)).drop_last() =~= fields_view(
                fields@.take(i as int),
            ));
        }
        let ghost before = r@;
        match &fields[i] {
            Some(f) => {
                let s = trim_text(f.as_str());
                r.push(s);
                assert(r@.map_values(|s: String| s@) =~= before.map_values(|s: String| s@).push(
                    trimmed(f@),
                ));
            },
            None => {},
        }
        i = i + 1;
    }
    proof {
        assert(fields@.take(i as int) =~= fields@);
    }
    r
}

/// Reads the symbol list from a CSV text with a header row: the first
/// field of each record, trimmed; `None` where the text is not valid CSV.
pub fn symbols_from_csv(text: &str) -> (r: Option<Vec<String>>)
    ensures
        match r {
            Some(v) => symbols_of_csv(text@) == Some(v@.map_values(|s: String| s@)),
            None => symbols_of_csv(text@) is None,
        },
{
    match csv_first_fields(text) {
        Some(fields) => Some(symbols_from_fields(&fields)),
        None => None,
    }
}

} // verus!
