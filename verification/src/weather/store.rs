//! The table of forecasts, one record to a region, as the service relies on
//! it: what a read finds, what a write leaves, what a removal takes and which
//! regions are listed. `RegionStore` keeps such a table in memory.

use vstd::prelude::*;

use super::models::{seen, Weather, WeatherForecast, WeatherForecastView};
use crate::text::str_eq;

verus! {

/// A table as mathematics: the record of each region that has one.
pub type Table = Map<Seq<char>, WeatherForecastView>;

/// The record that a table holds for a region, if it holds one.
pub open spec fn found(table: Table, region: Seq<char>) -> Option<WeatherForecastView> {
    if table.contains_key(region) {
        Some(table[region])
    } else {
        None
    }
}

/// The record that stands under a region once `new` has been written there.
/// On a region without a record it is `new`. On a region with one, the record
/// takes the forecast, the validity and the moment of update of `new` and
/// keeps its own moment of creation.
pub open spec fn merged(table: Table, new: WeatherForecastView) -> WeatherForecastView {
    if table.contains_key(new.region) {
        WeatherForecastView {
            region: new.region,
            forecast: new.forecast,
            valid_until: new.valid_until,
            created_at: table[new.region].created_at,
            updated_at: new.updated_at,
        }
    } else {
        new
    }
}

/// The table after `new` has been written: one step, which inserts or updates.
pub open spec fn upserted(table: Table, new: WeatherForecastView) -> Table {
    table.insert(new.region, merged(table, new))
}

/// The number of records that a removal takes from a table.
pub open spec fn taken(table: Table, region: Seq<char>) -> usize {
    if table.contains_key(region) {
        1
    } else {
        0
    }
}

/// Every record stands under its own region.
pub open spec fn keyed(table: Table) -> bool {
    forall|region: Seq<char>| #[trigger]
        table.contains_key(region) ==> table[region].region == region
}

/// No record was updated before it was created.
pub open spec fn chronological(table: Table) -> bool {
    forall|region: Seq<char>| #[trigger]
        table.contains_key(region) ==> table[region].created_at.at_or_before(
            table[region].updated_at,
        )
}

/// A record may be written without a record being updated before it was
/// created: it is not so itself, and where it replaces a record, it was not
/// updated before that one was created.
pub open spec fn in_order(table: Table, new: WeatherForecastView) -> bool {
    &&& new.created_at.at_or_before(new.updated_at)
    &&& table.contains_key(new.region) ==> table[new.region].created_at.at_or_before(
        new.updated_at,
    )
}

/// The forecast of every record names a condition.
pub open spec fn decodable(table: Table) -> bool {
    forall|region: Seq<char>| #[trigger]
        table.contains_key(region) ==> Weather::parse(table[region].forecast) is Some
}

/// A write touches the record of its own region and no other.
pub proof fn write_is_local(table: Table, new: WeatherForecastView, other: Seq<char>)
    requires
        other != new.region,
    ensures
        found(upserted(table, new), other) == found(table, other),
        upserted(table, new).dom() == table.dom().insert(new.region),
{
    assert(upserted(table, new).dom() =~= table.dom().insert(new.region));
}

/// Of two writes to one region, taken one after the other, the record shows
/// the second in full: its forecast, its validity and its moment of update
/// come from the same write, never one from each. The moment of creation is
/// that of the region's first write.
pub proof fn writes_do_not_mix(table: Table, first: WeatherForecastView, second: WeatherForecastView)
    requires
        first.region == second.region,
    ensures
        ({
            let last = upserted(upserted(table, first), second)[second.region];
            &&& last.region == second.region
            &&& last.forecast == second.forecast
            &&& last.valid_until == second.valid_until
            &&& last.updated_at == second.updated_at
            &&& last.created_at == merged(table, first).created_at
        }),
{
}

/// A write keeps what holds of a sound table. Records stay under their own
/// regions. The forecasts still name conditions, where the written one does.
/// And no record is updated before it was created, where the written record
/// is not and the write does not come before the creation of the record that
/// it replaces.
pub proof fn write_keeps_table_sound(table: Table, new: WeatherForecastView)
    ensures
        keyed(table) ==> keyed(upserted(table, new)),
        decodable(table) && Weather::parse(new.forecast) is Some ==> decodable(
            upserted(table, new),
        ),
        chronological(table) && in_order(table, new) ==> chronological(upserted(table, new)),
{
    let after = upserted(table, new);
    assert forall|region: Seq<char>| #[trigger] after.contains_key(region) implies region
        == new.region || (table.contains_key(region) && after[region] == table[region]) by {}
}

/// A removal keeps what holds of a sound table, and leaves every other region
/// as it was.
pub proof fn removal_keeps_table_sound(table: Table, region: Seq<char>)
    ensures
        keyed(table) ==> keyed(table.remove(region)),
        decodable(table) ==> decodable(table.remove(region)),
        chronological(table) ==> chronological(table.remove(region)),
        found(table.remove(region), region) is None,
        forall|other: Seq<char>|
            other != region ==> found(table.remove(region), other) == found(table, other),
{
    let after = table.remove(region);
    assert forall|other: Seq<char>| #[trigger] after.contains_key(other) implies
        table.contains_key(other) && after[other] == table[other] by {}
}

/// The names that a list of strings holds.
pub open spec fn names(list: Seq<String>) -> Seq<Seq<char>> {
    list.map_values(|name: String| name@)
}

spec fn holds(rows: Seq<WeatherForecast>, region: Seq<char>) -> bool {
    exists|i: int| 0 <= i < rows.len() && #[trigger] rows[i].region@ == region
}

spec fn place(rows: Seq<WeatherForecast>, region: Seq<char>) -> int {
    choose|i: int| 0 <= i < rows.len() && #[trigger] rows[i].region@ == region
}

spec fn distinct(rows: Seq<WeatherForecast>) -> bool {
    forall|i: int, j: int|
        0 <= i < j < rows.len() ==> #[trigger] rows[i].region@ != #[trigger] rows[j].region@
}

spec fn table_of(rows: Seq<WeatherForecast>) -> Table {
    Map::new(
        |region: Seq<char>| holds(rows, region),
        |region: Seq<char>| rows[place(rows, region)]@,
    )
}

proof fn row_in_table(rows: Seq<WeatherForecast>, i: int)
    requires
        distinct(rows),
        0 <= i < rows.len(),
    ensures
        holds(rows, rows[i].region@),
        place(rows, rows[i].region@) == i,
        table_of(rows)[rows[i].region@] == rows[i]@,
{
    let j = place(rows, rows[i].region@);
    if j < i {
        assert(rows[j].region@ != rows[i].region@);
    } else if i < j {
        assert(rows[i].region@ != rows[j].region@);
    }
}

proof fn table_after_replace(
    before: Seq<WeatherForecast>,
    after: Seq<WeatherForecast>,
    i: int,
    new: WeatherForecastView,
)
    requires
        distinct(before),
        0 <= i < before.len(),
        before[i].region@ == new.region,
        after.len() == before.len(),
        after[i]@ == merged(table_of(before), new),
        forall|k: int| 0 <= k < before.len() && k != i ==> after[k] == before[k],
    ensures
        distinct(after),
        table_of(after) == upserted(table_of(before), new),
{
    row_in_table(before, i);
    assert forall|k: int| 0 <= k < after.len() implies #[trigger] after[k].region@
        == before[k].region@ by {}
    assert forall|region: Seq<char>| holds(after, region) == holds(before, region) by {
        if holds(before, region) {
            assert(after[place(before, region)].region@ == region);
        }
        if holds(after, region) {
            assert(before[place(after, region)].region@ == region);
        }
    }
    assert forall|region: Seq<char>| holds(after, region) implies table_of(after)[region]
        == upserted(table_of(before), new)[region] by {
        let k = place(after, region);
        row_in_table(after, k);
        row_in_table(before, k);
    }
    assert(table_of(after) =~= upserted(table_of(before), new));
}

proof fn table_after_push(before: Seq<WeatherForecast>, row: WeatherForecast)
    requires
        distinct(before),
        !holds(before, row.region@),
    ensures
        distinct(before.push(row)),
        table_of(before.push(row)) == upserted(table_of(before), row@),
{
    let after = before.push(row);
    let last = before.len() as int;
    assert forall|k: int| 0 <= k < last implies #[trigger] after[k] == before[k] by {}
    assert forall|a: int, b: int| 0 <= a < b < after.len() implies #[trigger] after[a].region@
        != #[trigger] after[b].region@ by {
        assert(after[a] == before[a]);
        if b < last {
            assert(after[b] == before[b]);
        }
    }
    assert forall|region: Seq<char>| holds(after, region) == (holds(before, region) || region
        == row.region@) by {
        if holds(before, region) {
            assert(after[place(before, region)].region@ == region);
        }
        if region == row.region@ {
            assert(after[last].region@ == region);
        }
        if holds(after, region) && place(after, region) < last {
            assert(before[place(after, region)].region@ == region);
        }
    }
    assert forall|region: Seq<char>| holds(after, region) implies table_of(after)[region]
        == upserted(table_of(before), row@)[region] by {
        let k = place(after, region);
        row_in_table(after, k);
        if k < last {
            row_in_table(before, k);
        }
    }
    assert(table_of(after) =~= upserted(table_of(before), row@));
}

proof fn table_after_remove(before: Seq<WeatherForecast>, i: int)
    requires
        distinct(before),
        0 <= i < before.len(),
    ensures
        distinct(before.remove(i)),
        table_of(before.remove(i)) == table_of(before).remove(before[i].region@),
{
    let after = before.remove(i);
    let region = before[i].region@;
    assert forall|a: int, b: int| 0 <= a < b < after.len() implies #[trigger] after[a].region@
        != #[trigger] after[b].region@ by {
        let x = if a < i { a } else { a + 1 };
        let y = if b < i { b } else { b + 1 };
        assert(before[x].region@ != before[y].region@);
    }
    assert forall|r: Seq<char>| holds(after, r) == (holds(before, r) && r != region) by {
        if holds(before, r) && r != region {
            let k = place(before, r);
            let x = if k < i { k } else { k - 1 };
            assert(after[x].region@ == r);
        }
        if holds(after, r) {
            let k = place(after, r);
            let x = if k < i { k } else { k + 1 };
            assert(before[x].region@ == r);
            if x < i {
                assert(before[x].region@ != before[i].region@);
            } else {
                assert(before[i].region@ != before[x].region@);
            }
        }
    }
    assert forall|r: Seq<char>| holds(after, r) implies table_of(after)[r] == table_of(
        before,
    )[r] by {
        let k = place(after, r);
        row_in_table(after, k);
        row_in_table(before, if k < i { k } else { k + 1 });
    }
    assert(table_of(after) =~= table_of(before).remove(region));
}

/// A table of forecasts in memory.
pub struct RegionStore {
    rows: Vec<WeatherForecast>,
}

impl View for RegionStore {
    type V = Table;

    closed spec fn view(&self) -> Table {
        table_of(self.rows@)
    }
}

impl RegionStore {
    /// No region has two records.
    pub closed spec fn wf(&self) -> bool {
        distinct(self.rows@)
    }

    /// In a table that holds each region once, every record stands under its
    /// own region, and the regions are finitely many.
    pub proof fn one_record_per_region(&self)
        requires
            self.wf(),
        ensures
            keyed(self@),
            self@.dom().finite(),
    {
        let rows = self.rows@;
        let listed = Seq::new(rows.len(), |i: int| rows[i].region@);
        assert forall|region: Seq<char>| #[trigger] self@.contains_key(region) implies
            self@[region].region == region && listed.to_set().contains(region) by {
            assert(listed[place(rows, region)] == region);
        }
        vstd::seq_lib::seq_to_set_is_finite(listed);
        vstd::set_lib::lemma_len_subset(self@.dom(), listed.to_set());
    }

    /// An empty table.
    pub fn new() -> (store: Self)
        ensures
            store.wf(),
            store@ == Table::empty(),
    {
        let store = RegionStore { rows: Vec::new() };
        assert(store@ =~= Table::empty());
        store
    }

    fn position(&self, region: &str) -> (at: Option<usize>)
        ensures
            match at {
                Some(i) => i < self.rows.len() && self.rows[i as int].region@ == region@,
                None => !holds(self.rows@, region@),
            },
    {
        let mut i: usize = 0;
        while i < self.rows.len()
            invariant
                i <= self.rows.len(),
                forall|k: int| 0 <= k < i ==> self.rows[k].region@ != region@,
            decreases self.rows.len() - i,
        {
            if str_eq(self.rows[i].region.as_str(), region) {
                return Some(i);
            }
            i += 1;
        }
        None
    }

    /// The record under the region's exact name.
    pub fn find(&self, region: &str) -> (row: Option<WeatherForecast>)
        requires
            self.wf(),
        ensures
            seen(row) == found(self@, region@),
    {
        match self.position(region) {
            Some(i) => {
                proof {
                    row_in_table(self.rows@, i as int);
                }
                Some(self.rows[i].clone())
            },
            None => None,
        }
    }

    /// Writes `new` in one step: inserted where its region has no record,
    /// merged into the region's record where it has one. Returns the record
    /// that stands under the region afterwards.
    pub fn upsert(&mut self, new: WeatherForecast) -> (stored: WeatherForecast)
        requires
            old(self).wf(),
        ensures
            final(self).wf(),
            final(self)@ == upserted(old(self)@, new@),
            stored@ == merged(old(self)@, new@),
    {
        let ghost before = self.rows@;
        match self.position(new.region.as_str()) {
            Some(i) => {
                proof {
                    row_in_table(before, i as int);
                }
                let row = WeatherForecast {
                    region: new.region,
                    forecast: new.forecast,
                    valid_until: new.valid_until,
                    created_at: self.rows[i].created_at,
                    updated_at: new.updated_at,
                };
                let stored = row.clone();
                self.rows.set(i, row);
                proof {
                    table_after_replace(before, self.rows@, i as int, new@);
                }
                stored
            },
            None => {
                let stored = new.clone();
                self.rows.push(new);
                proof {
                    table_after_push(before, new);
                }
                stored
            },
        }
    }

    /// Removes the record under the region's exact name. Returns the number of
    /// records removed: one, or none where the region had no record.
    pub fn delete(&mut self, region: &str) -> (count: usize)
        requires
            old(self).wf(),
        ensures
            final(self).wf(),
            final(self)@ == old(self)@.remove(region@),
            count == taken(old(self)@, region@),
    {
        let ghost before = self.rows@;
        match self.position(region) {
            Some(i) => {
                let _ = self.rows.remove(i);
                proof {
                    row_in_table(before, i as int);
                    table_after_remove(before, i as int);
                }
                1
            },
            None => {
                assert(table_of(before) =~= table_of(before).remove(region@));
                0
            },
        }
    }

    /// The regions that have a record, each once, in no particular order.
    pub fn regions(&self) -> (list: Vec<String>)
        requires
            self.wf(),
        ensures
            names(list@).no_duplicates(),
            names(list@).to_set() == self@.dom(),
    {
        let mut list: Vec<String> = Vec::new();
        let mut i: usize = 0;
        while i < self.rows.len()
            invariant
                i <= self.rows.len(),
                list.len() == i,
                forall|k: int| 0 <= k < i ==> #[trigger] list[k]@ == self.rows[k].region@,
            decreases self.rows.len() - i,
        {
            list.push(self.rows[i].region.clone());
            i += 1;
        }
        proof {
            let rows = self.rows@;
            let listed = names(list@);
            assert forall|k: int| 0 <= k < listed.len() implies #[trigger] listed[k]
                == rows[k].region@ by {
                assert(list[k]@ == rows[k].region@);
            }
            assert forall|a: int, b: int|
                0 <= a < listed.len() && 0 <= b < listed.len() && a != b implies listed[a]
                != listed[b] by {
                if a < b {
                    assert(rows[a].region@ != rows[b].region@);
                } else {
                    assert(rows[b].region@ != rows[a].region@);
                }
            }
            assert forall|region: Seq<char>| listed.to_set().contains(region)
                == self@.dom().contains(region) by {
                if listed.contains(region) {
                    let k = choose|k: int| 0 <= k < listed.len() && listed[k] == region;
                    assert(rows[k].region@ == region);
                }
                if holds(rows, region) {
                    assert(listed[place(rows, region)] == region);
                }
            }
            assert(listed.to_set() =~= self@.dom());
        }
        list
    }
}

} // verus!
