use vstd::prelude::*;

verus! {

/// The abstract content of a price store: symbol to latest price.
pub type PriceMap = Map<Seq<char>, Seq<char>>;

/// The symbols of a list of entries, in order.
pub open spec fn keys_of(entries: Seq<(String, String)>) -> Seq<Seq<char>> {
    entries.map_values(|e: (String, String)| e.0@)
}

/// The map that a list of entries with distinct symbols stands for.
pub open spec fn map_of(entries: Seq<(String, String)>) -> PriceMap
    decreases entries.len(),
{
    if entries.len() == 0 {
        Map::empty()
    } else {
        let last = entries.last();
        map_of(entries.drop_last()).insert(last.0@, last.1@)
    }
}

/// Looking up a symbol in entries with distinct symbols gives the price
/// of its entry, and a symbol with no entry is absent.
pub proof fn lemma_map_of_entries(entries: Seq<(String, String)>)
    requires
        keys_of(entries).no_duplicates(),
    ensures
        forall|i: int|
            0 <= i < entries.len() ==> #[trigger] map_of(entries).contains_key(entries[i].0@)
                && map_of(entries)[entries[i].0@] == entries[i].1@,
        forall|k: Seq<char>|
            #[trigger] map_of(entries).contains_key(k) ==> exists|i: int|
                0 <= i < entries.len() && entries[i].0@ == k,
    decreases entries.len(),
{
    if entries.len() > 0 {
        let init = entries.drop_last();
        assert(keys_of(init) =~= keys_of(entries).drop_last());
        lemma_map_of_entries(init);
        let last = entries.last();
        assert(map_of(entries) == map_of(init).insert(last.0@, last.1@));
        assert forall|i: int| 0 <= i < entries.len() implies #[trigger] map_of(entries).contains_key(
            entries[i].0@,
        ) && map_of(entries)[entries[i].0@] == entries[i].1@ by {
            if i < entries.len() - 1 {
                assert(keys_of(entries)[i] != keys_of(entries)[entries.len() - 1]);
                assert(keys_of(entries)[i] == entries[i].0@);
                assert(init[i] == entries[i]);
                assert(map_of(init).contains_key(init[i].0@));
            }
        }
        assert forall|k: Seq<char>| #[trigger] map_of(entries).contains_key(k) implies exists|i: int|
            0 <= i < entries.len() && entries[i].0@ == k by {
            if k != last.0@ {
                assert(map_of(init).contains_key(k));
                let j = choose|j: int| 0 <= j < init.len() && init[j].0@ == k;
                assert(entries[j] == init[j]);
            }
        }
    }
}

/// Replacing the entry at `i` by one with the same symbol sets that
/// symbol's price.
pub proof fn lemma_map_of_replace(entries: Seq<(String, String)>, i: int, e: (String, String))
    requires
        keys_of(entries).no_duplicates(),
        0 <= i < entries.len(),
        entries[i].0@ == e.0@,
    ensures
        map_of(entries.update(i, e)) == map_of(entries).insert(e.0@, e.1@),
    decreases entries.len(),
{
    let n = entries.len();
    let init = entries.drop_last();
    if i == n - 1 {
        assert(entries.update(i, e).drop_last() =~= init);
    } else {
        assert(keys_of(init) =~= keys_of(entries).drop_last());
        lemma_map_of_replace(init, i, e);
        assert(entries.update(i, e).drop_last() =~= init.update(i, e));
        assert(keys_of(entries)[i] != keys_of(entries)[n - 1]);
        assert(map_of(entries.update(i, e)) =~= map_of(entries).insert(e.0@, e.1@));
    }
}

/// Two lists of entries with the same symbols and prices stand for the
/// same map.
pub proof fn lemma_map_of_same_views(a: Seq<(String, String)>, b: Seq<(String, String)>)
    requires
        a.len() == b.len(),
        forall|j: int| 0 <= j < a.len() ==> #[trigger] a[j].0@ == b[j].0@ && a[j].1@ == b[j].1@,
    ensures
        map_of(a) == map_of(b),
    decreases a.len(),
{
    if a.len() > 0 {
        lemma_map_of_same_views(a.drop_last(), b.drop_last());
        assert(a.last().0@ == b.last().0@);
    }
}

/// The table of latest prices, one entry per symbol.
pub struct PriceStore {
    entries: Vec<(String, String)>,
}

impl View for PriceStore {
    type V = PriceMap;

    closed spec fn view(&self) -> PriceMap {
        map_of(self.entries@)
    }
}

impl PriceStore {
    /// Each symbol has at most one entry.
    pub closed spec fn wf(&self) -> bool {
        keys_of(self.entries@).no_duplicates()
    }

    /// An empty store.
    pub fn new() -> (r: PriceStore)
        ensures
            r.wf(),
            r@ == PriceMap::empty(),
    {
        PriceStore { entries: Vec::new() }
    }

    /// Sets the price of `symbol`, replacing any earlier one, whatever it was.
    pub fn update(&mut self, symbol: String, price: String)
        requires
            old(self).wf(),
        ensures
            final(self).wf(),
            final(self)@ == old(self)@.insert(symbol@, price@),
    {
        let n = self.entries.len();
        let mut i: usize = 0;
        while i < n
            invariant
                n == self.entries.len(),
                self.entries == old(self).entries,
                self.wf(),
                i <= n,
                forall|j: int| 0 <= j < i ==> self.entries@[j].0@ != symbol@,
            decreases n - i,
        {
            if self.entries[i].0 == symbol {
                proof {
                    lemma_map_of_replace(self.entries@, i as int, (symbol, price));
                    assert(keys_of(self.entries@.update(i as int, (symbol, price))) =~= keys_of(
                        self.entries@,
                    ));
                }
                self.entries[i] = (symbol, price);
                return;
            }
            i = i + 1;
        }
        let ghost before = self.entries@;
        self.entries.push((symbol, price));
        proof {
            assert(self.entries@.drop_last() =~= before);
            assert(keys_of(self.entries@) =~= keys_of(before).push(symbol@));
            assert forall|a: int, b: int|
                0 <= a < b < keys_of(self.entries@).len() implies keys_of(self.entries@)[a]
                != keys_of(self.entries@)[b] by {
                if b < n {
                    assert(keys_of(before)[a] != keys_of(before)[b]);
                }
            }
        }
    }

    /// A copy of every (symbol, price) entry at this moment, one per symbol.
    pub fn snapshot(&self) -> (r: Vec<(String, String)>)
        requires
            self.wf(),
        ensures
            keys_of(r@).no_duplicates(),
            map_of(r@) == self@,
            forall|i: int|
                0 <= i < r@.len() ==> #[trigger] self@.contains_key(r@[i].0@) && self@[r@[i].0@]
                    == r@[i].1@,
            forall|k: Seq<char>|
                #[trigger] self@.contains_key(k) ==> exists|i: int| 0 <= i < r@.len() && r@[i].0@ == k,
    {
        let mut r: Vec<(String, String)> = Vec::new();
        let mut i: usize = 0;
        while i < self.entries.len()
            invariant
                i <= self.entries.len(),
                r@.len() == i,
                forall|j: int| 0 <= j < i ==> #[trigger] r@[j].0@ == self.entries@[j].0@ && r@[j].1@
                    == self.entries@[j].1@,
            decreases self.entries.len() - i,
        {
            let e = &self.entries[i];
            r.push((e.0.clone(), e.1.clone()));
            i = i + 1;
        }
        proof {
            assert(keys_of(r@) =~= keys_of(self.entries@));
            lemma_map_of_same_views(r@, self.entries@);
            lemma_map_of_entries(r@);
        }
        r
    }
}

} // verus!
