//! What is drawn up once the records are in: the names a star can be
//! searched by, and for each kind of resource the richest deposit on record.

use crate::entities::{PlanetView, ResourceView, StarView, planet_views, resource_views, star_views};
use crate::lookup::{
    distinct, first_index, lemma_first_index_absent, lemma_first_index_found,
    lemma_first_index_holds,
};
use crate::options::ticker_view;
use crate::text::{
    comes_before, lemma_precedes_irreflexive, lemma_precedes_total, lemma_precedes_transitive,
    precedes, same_text,
};
use crate::universe::{Universe, UniverseView, table_view, text_views};
use vstd::prelude::*;

verus! {

/// The names that the first `n` stars are searched by: of each its catalog
/// designation, and then its name where that is another.
pub open spec fn star_entries(stars: Seq<StarView>, n: int) -> Seq<Seq<char>>
    decreases n,
{
    if n <= 0 {
        Seq::empty()
    } else {
        let before = star_entries(stars, n - 1).push(stars[n - 1].nat_id);
        if stars[n - 1].nat_id != stars[n - 1].name {
            before.push(stars[n - 1].name)
        } else {
            before
        }
    }
}

/// The names that the first `n` planets add: of each its name, where that is
/// not its catalog designation.
pub open spec fn planet_entries(planets: Seq<PlanetView>, n: int) -> Seq<Seq<char>>
    decreases n,
{
    if n <= 0 {
        Seq::empty()
    } else {
        let before = planet_entries(planets, n - 1);
        if planets[n - 1].nat_id != planets[n - 1].name {
            before.push(planets[n - 1].name)
        } else {
            before
        }
    }
}

/// The names that a star can be searched by: those of the stars, then those
/// that the planets add.
pub open spec fn search_names(stars: Seq<StarView>, planets: Seq<PlanetView>) -> Seq<Seq<char>> {
    star_entries(stars, stars.len() as int) + planet_entries(planets, planets.len() as int)
}

/// The tickers of a table, in its order.
pub open spec fn tickers(table: Seq<(Seq<char>, i64)>) -> Seq<Seq<char>> {
    table.map_values(|e: (Seq<char>, i64)| e.0)
}

/// The first position at or after `from` whose ticker does not come before
/// `ticker`, or the length of the table if there is none.
pub open spec fn place_from(table: Seq<(Seq<char>, i64)>, ticker: Seq<char>, from: int) -> int
    decreases table.len() - from,
{
    if from >= table.len() || !precedes(table[from].0, ticker) {
        from
    } else {
        place_from(table, ticker, from + 1)
    }
}

/// The table after a deposit has been entered. A ticker that the table holds
/// keeps its place, with the richer of the two factors; a new one is placed
/// before the first ticker that it does not follow, with its factor, or with
/// zero if that is below zero.
pub open spec fn upserted(table: Seq<(Seq<char>, i64)>, ticker: Seq<char>, factor: i64) -> Seq<
    (Seq<char>, i64),
> {
    match first_index(tickers(table), ticker) {
        Some(i) => if factor > table[i].1 {
            table.update(i, (ticker, factor))
        } else {
            table
        },
        None => table.insert(
            place_from(table, ticker, 0),
            (
                ticker,
                if factor > 0 {
                    factor
                } else {
                    0
                },
            ),
        ),
    }
}

/// The table of the first `n` resources: each entered in turn.
pub open spec fn table_of(resources: Seq<ResourceView>, n: int) -> Seq<(Seq<char>, i64)>
    decreases n,
{
    if n <= 0 {
        Seq::empty()
    } else {
        upserted(table_of(resources, n - 1), resources[n - 1].ticker, resources[n - 1].factor)
    }
}

/// The richest deposit of a ticker among the first `n` resources; zero where
/// there is none, and never below zero.
pub open spec fn richest(resources: Seq<ResourceView>, ticker: Seq<char>, n: int) -> i64
    decreases n,
{
    if n <= 0 {
        0
    } else {
        let before = richest(resources, ticker, n - 1);
        if resources[n - 1].ticker == ticker && resources[n - 1].factor > before {
            resources[n - 1].factor
        } else {
            before
        }
    }
}

/// Whether one of the first `n` resources has the ticker.
pub open spec fn on_record(resources: Seq<ResourceView>, ticker: Seq<char>, n: int) -> bool {
    exists|j: int| 0 <= j < n && j < resources.len() && (#[trigger] resources[j]).ticker == ticker
}

/// Whether the tickers of a table stand in ascending order, none twice.
pub open spec fn ascending(table: Seq<(Seq<char>, i64)>) -> bool {
    forall|i: int, j: int| 0 <= i < j < table.len() ==> precedes(table[i].0, table[j].0)
}

/// The choice that stands for seeking no resource.
pub open spec fn no_resource() -> Seq<char> {
    "-None-"@
}

/// The ticker that a choice from the list of what can be sought stands for:
/// none for the choice of no resource, else the choice itself.
pub open spec fn ticker_chosen(choice: Seq<char>) -> Option<Seq<char>> {
    if choice == no_resource() {
        None
    } else {
        Some(choice)
    }
}

/// The factor that a table holds for a ticker.
pub open spec fn factor_in(table: Seq<(Seq<char>, i64)>, ticker: Seq<char>) -> Option<i64> {
    match first_index(tickers(table), ticker) {
        Some(i) => Some(table[i].1),
        None => None,
    }
}

/// The place found for a ticker parts the tickers that come before it, in
/// front, from the first that does not.
pub proof fn lemma_place_parts(table: Seq<(Seq<char>, i64)>, ticker: Seq<char>, from: int)
    requires
        0 <= from <= table.len(),
    ensures
        from <= place_from(table, ticker, from) <= table.len(),
        forall|j: int|
            from <= j < place_from(table, ticker, from) ==> precedes(
                (#[trigger] table[j]).0,
                ticker,
            ),
        place_from(table, ticker, from) < table.len() ==> !precedes(
            table[place_from(table, ticker, from)].0,
            ticker,
        ),
    decreases table.len() - from,
{
    if from >= table.len() || !precedes(table[from].0, ticker) {
    } else {
        lemma_place_parts(table, ticker, from + 1);
    }
}

/// Entering a deposit keeps the tickers of a table in ascending order.
pub proof fn lemma_upserted_ascending(table: Seq<(Seq<char>, i64)>, ticker: Seq<char>, factor: i64)
    requires
        ascending(table),
    ensures
        ascending(upserted(table, ticker, factor)),
{
    let after = upserted(table, ticker, factor);
    lemma_first_index_holds(tickers(table), ticker);
    match first_index(tickers(table), ticker) {
        Some(i) => {
            assert(tickers(table)[i] == table[i].0);
            assert forall|a: int, b: int| 0 <= a < b < after.len() implies precedes(
                after[a].0,
                after[b].0,
            ) by {
                assert(after[a].0 == table[a].0);
                assert(after[b].0 == table[b].0);
            }
        },
        None => {
            lemma_place_parts(table, ticker, 0);
            let k = place_from(table, ticker, 0);
            assert forall|a: int, b: int| 0 <= a < b < after.len() implies precedes(
                after[a].0,
                after[b].0,
            ) by {
                if b == k {
                    assert(after[a] == table[a]);
                } else if a == k {
                    assert(after[b] == table[b - 1]);
                    assert(tickers(table)[k] == table[k].0);
                    lemma_precedes_total(ticker, table[k].0);
                    if k < b - 1 {
                        lemma_precedes_transitive(ticker, table[k].0, table[b - 1].0);
                    }
                } else {
                    let a0 = if a < k {
                        a
                    } else {
                        a - 1
                    };
                    let b0 = if b < k {
                        b
                    } else {
                        b - 1
                    };
                    assert(after[a] == table[a0]);
                    assert(after[b] == table[b0]);
                }
            }
        },
    }
}

/// In a table whose tickers stand in ascending order, no ticker stands
/// twice.
pub proof fn lemma_ascending_distinct(table: Seq<(Seq<char>, i64)>)
    requires
        ascending(table),
    ensures
        distinct(tickers(table)),
{
    assert forall|i: int, j: int| 0 <= i < j < tickers(table).len() implies tickers(table)[i]
        != tickers(table)[j] by {
        lemma_precedes_irreflexive(table[i].0);
    }
}

/// The tickers of the table of any resources stand in ascending order, none
/// twice.
pub proof fn lemma_table_ascending(resources: Seq<ResourceView>, n: int)
    ensures
        ascending(table_of(resources, n)),
    decreases n,
{
    if n > 0 {
        lemma_table_ascending(resources, n - 1);
        lemma_upserted_ascending(
            table_of(resources, n - 1),
            resources[n - 1].ticker,
            resources[n - 1].factor,
        );
    }
}

/// From one resource to the next, a ticker is on record if it was, or if
/// the next resource has it.
pub proof fn lemma_on_record_next(resources: Seq<ResourceView>, ticker: Seq<char>, n: int)
    requires
        0 <= n < resources.len(),
    ensures
        on_record(resources, ticker, n + 1) == (on_record(resources, ticker, n)
            || resources[n].ticker == ticker),
{
    if on_record(resources, ticker, n + 1) {
        let j = choose|j: int|
            0 <= j < n + 1 && j < resources.len() && (#[trigger] resources[j]).ticker == ticker;
        if j < n {
            assert(on_record(resources, ticker, n));
        }
    }
    if on_record(resources, ticker, n) {
        let j = choose|j: int|
            0 <= j < n && j < resources.len() && (#[trigger] resources[j]).ticker == ticker;
        assert(0 <= j < n + 1 && resources[j].ticker == ticker);
    }
    if resources[n].ticker == ticker {
        assert(0 <= n < n + 1 && resources[n].ticker == ticker);
    }
}

/// What a table holds for a ticker after a deposit has been entered: for the
/// ticker of the deposit the richer of the deposit and what was held, or of
/// the deposit and zero; for any other ticker what was held.
pub proof fn lemma_upserted_holds(
    table: Seq<(Seq<char>, i64)>,
    ticker: Seq<char>,
    factor: i64,
    asked: Seq<char>,
)
    ensures
        factor_in(upserted(table, ticker, factor), asked) == if asked == ticker {
            let held = match factor_in(table, ticker) {
                Some(f) => f,
                None => 0,
            };
            Some(
                if factor > held {
                    factor
                } else {
                    held
                },
            )
        } else {
            factor_in(table, asked)
        },
{
    let after = upserted(table, ticker, factor);
    let keys = tickers(table);
    let keys_after = tickers(after);
    lemma_first_index_holds(keys, ticker);
    lemma_first_index_holds(keys, asked);
    match first_index(keys, ticker) {
        Some(i) => {
            assert(keys_after =~= keys);
            if asked != ticker {
                match first_index(keys, asked) {
                    Some(a) => {
                        assert(a != i);
                    },
                    None => {},
                }
            }
        },
        None => {
            lemma_place_parts(table, ticker, 0);
            let k = place_from(table, ticker, 0);
            assert(keys_after =~= keys.insert(k, ticker));
            if asked == ticker {
                assert forall|j: int| 0 <= j < k implies keys_after[j] != ticker by {
                    assert(keys_after[j] == keys[j]);
                }
                lemma_first_index_found(keys_after, ticker, k);
            } else {
                match first_index(keys, asked) {
                    Some(a) => {
                        let a1 = if a < k {
                            a
                        } else {
                            a + 1
                        };
                        assert forall|j: int| 0 <= j < a1 implies keys_after[j] != asked by {
                            if j < k {
                                assert(keys_after[j] == keys[j]);
                            } else if j > k {
                                assert(keys_after[j] == keys[j - 1]);
                            }
                        }
                        assert(keys_after[a1] == keys[a]);
                        lemma_first_index_found(keys_after, asked, a1);
                        assert(after[a1] == table[a]);
                    },
                    None => {
                        assert forall|j: int| 0 <= j < keys_after.len() implies keys_after[j]
                            != asked by {
                            if j < k {
                                assert(keys_after[j] == keys[j]);
                            } else if j > k {
                                assert(keys_after[j] == keys[j - 1]);
                            }
                        }
                        lemma_first_index_absent(keys_after, asked);
                    },
                }
            }
        },
    }
}

/// The table of any resources holds, for each ticker on record, the richest
/// deposit of it, and holds no other ticker.
pub proof fn lemma_table_holds_richest(resources: Seq<ResourceView>, ticker: Seq<char>, n: int)
    requires
        0 <= n <= resources.len(),
    ensures
        factor_in(table_of(resources, n), ticker) == if on_record(resources, ticker, n) {
            Some(richest(resources, ticker, n))
        } else {
            None
        },
        !on_record(resources, ticker, n) ==> richest(resources, ticker, n) == 0,
        richest(resources, ticker, n) >= 0,
    decreases n,
{
    if n > 0 {
        lemma_table_holds_richest(resources, ticker, n - 1);
        lemma_on_record_next(resources, ticker, n - 1);
        lemma_upserted_holds(
            table_of(resources, n - 1),
            resources[n - 1].ticker,
            resources[n - 1].factor,
            ticker,
        );
    } else {
        lemma_first_index_absent(tickers(table_of(resources, n)), ticker);
    }
}

/// Reads a choice from the list of what can be sought.
pub fn sought_ticker(choice: String) -> (ticker: Option<String>)
    ensures
        ticker_view(ticker) == ticker_chosen(choice@),
{
    if same_text(choice.as_str(), "-None-") {
        None
    } else {
        Some(choice)
    }
}

/// Enters a deposit in a table.
pub fn upsert(table: &mut Vec<(String, i64)>, ticker: &String, factor: i64)
    ensures
        table_view(final(table)@) == upserted(table_view(old(table)@), ticker@, factor),
{
    let ghost before = table_view(table@);
    let ghost keys = tickers(before);
    let n = table.len();
    let mut i: usize = 0;
    while i < n
        invariant
            0 <= i <= n,
            n == table.len(),
            before == table_view(table@),
            before == table_view(old(table)@),
            keys == tickers(before),
            forall|j: int| 0 <= j < i ==> keys[j] != ticker@,
        decreases n - i,
    {
        if table[i].0 == *ticker {
            proof {
                lemma_first_index_found(keys, ticker@, i as int);
            }
            if factor > table[i].1 {
                table[i].1 = factor;
            }
            return ;
        }
        i += 1;
    }
    proof {
        lemma_first_index_absent(keys, ticker@);
    }
    let mut k: usize = 0;
    while k < n && comes_before(table[k].0.as_str(), ticker.as_str())
        invariant
            0 <= k <= n,
            n == table.len(),
            before == table_view(table@),
            place_from(before, ticker@, 0) == place_from(before, ticker@, k as int),
        decreases n - k,
    {
        k += 1;
    }
    let floor: i64 = if factor > 0 {
        factor
    } else {
        0
    };
    table.insert(k, (ticker.clone(), floor));
}

impl Universe {
    /// Draws up the list of search names from the stars and planets on
    /// record: the names of the stars, then those of the planets.
    pub fn create_star_list(&mut self)
        ensures
            final(self)@ == (UniverseView {
                star_list: search_names(old(self)@.stars, old(self)@.planets),
                ..old(self)@
            }),
    {
        let ghost stars = star_views(self.stars@);
        let ghost planets = planet_views(self.planets@);
        let mut list: Vec<String> = Vec::new();
        let n = self.stars.len();
        let mut i: usize = 0;
        while i < n
            invariant
                0 <= i <= n,
                n == self.stars.len(),
                stars == star_views(self.stars@),
                text_views(list@) == star_entries(stars, i as int),
                *self == *old(self),
            decreases n - i,
        {
            let ghost so_far = text_views(list@);
            list.push(self.stars[i].nat_id.clone());
            proof {
                assert(text_views(list@) =~= so_far.push(stars[i as int].nat_id));
            }
            if !(self.stars[i].nat_id == self.stars[i].name) {
                list.push(self.stars[i].name.clone());
                proof {
                    assert(text_views(list@) =~= so_far.push(stars[i as int].nat_id).push(
                        stars[i as int].name,
                    ));
                }
            }
            assert(text_views(list@) == star_entries(stars, i + 1));
            i += 1;
        }
        let ghost with_stars = text_views(list@);
        let m = self.planets.len();
        let mut j: usize = 0;
        while j < m
            invariant
                0 <= j <= m,
                m == self.planets.len(),
                planets == planet_views(self.planets@),
                text_views(list@) == with_stars + planet_entries(planets, j as int),
                *self == *old(self),
            decreases m - j,
        {
            let ghost so_far = text_views(list@);
            if !(self.planets[j].nat_id == self.planets[j].name) {
                list.push(self.planets[j].name.clone());
                proof {
                    assert(text_views(list@) =~= so_far.push(planets[j as int].name));
                }
            }
            assert(text_views(list@) == with_stars + planet_entries(planets, j + 1));
            j += 1;
        }
        self.star_list = list;
    }

    /// Draws up, from the resources on record, the table of the richest
    /// deposit of each ticker, and the list of what can be sought: the
    /// choice of no resource, then the tickers in ascending order.
    pub fn create_resource_data(&mut self)
        ensures
            final(self)@ == (UniverseView {
                res_max_factor: table_of(old(self)@.resources, old(self)@.resources.len() as int),
                res_list: seq![no_resource()] + tickers(
                    table_of(old(self)@.resources, old(self)@.resources.len() as int),
                ),
                ..old(self)@
            }),
            ascending(final(self)@.res_max_factor),
            forall|ticker: Seq<char>| #[trigger]
                factor_in(final(self)@.res_max_factor, ticker) == if on_record(
                    old(self)@.resources,
                    ticker,
                    old(self)@.resources.len() as int,
                ) {
                    Some(richest(old(self)@.resources, ticker, old(self)@.resources.len() as int))
                } else {
                    None
                },
    {
        let ghost resources = resource_views(self.resources@);
        proof {
            let n = resources.len() as int;
            lemma_table_ascending(resources, n);
            assert forall|ticker: Seq<char>| #[trigger]
                factor_in(table_of(resources, n), ticker) == if on_record(resources, ticker, n) {
                    Some(richest(resources, ticker, n))
                } else {
                    None
                } by {
                lemma_table_holds_richest(resources, ticker, n);
            }
        }
        let mut table: Vec<(String, i64)> = Vec::new();
        let n = self.resources.len();
        let mut j: usize = 0;
        while j < n
            invariant
                0 <= j <= n,
                n == self.resources.len(),
                resources == resource_views(self.resources@),
                table_view(table@) == table_of(resources, j as int),
                *self == *old(self),
            decreases n - j,
        {
            upsert(&mut table, &self.resources[j].ticker, self.resources[j].factor);
            j += 1;
        }
        let mut list: Vec<String> = Vec::new();
        list.push("-None-".to_owned());
        let m = table.len();
        let mut k: usize = 0;
        while k < m
            invariant
                0 <= k <= m,
                m == table.len(),
                text_views(list@) == seq![no_resource()] + tickers(table_view(table@)).take(
                    k as int,
                ),
            decreases m - k,
        {
            let ghost so_far = text_views(list@);
            list.push(table[k].0.clone());
            proof {
                let keys = tickers(table_view(table@));
                assert(text_views(list@) =~= so_far.push(keys[k as int]));
            }
            k += 1;
        }
        proof {
            assert(tickers(table_view(table@)).take(m as int) =~= tickers(table_view(table@)));
        }
        self.res_max_factor = table;
        self.res_list = list;
    }

    /// The richest deposit on record of a ticker, as the table holds it.
    pub fn max_factor(&self, ticker: &str) -> (r: Option<i64>)
        ensures
            r == factor_in(self@.res_max_factor, ticker@),
    {
        let ghost keys = tickers(self@.res_max_factor);
        let n = self.res_max_factor.len();
        let mut i: usize = 0;
        while i < n
            invariant
                0 <= i <= n,
                n == self.res_max_factor.len(),
                keys == tickers(self@.res_max_factor),
                forall|j: int| 0 <= j < i ==> keys[j] != ticker@,
            decreases n - i,
        {
            if same_text(self.res_max_factor[i].0.as_str(), ticker) {
                proof {
                    lemma_first_index_found(keys, ticker@, i as int);
                }
                return Some(self.res_max_factor[i].1);
            }
            i += 1;
        }
        proof {
            lemma_first_index_absent(keys, ticker@);
        }
        None
    }
}

} // verus!
