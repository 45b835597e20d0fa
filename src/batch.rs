//! The batched latest-line lookup as a state machine. A driver asks
//! [`BatchLookup::next_step`] what to run, runs it, and hands the outcome back
//! through [`BatchLookup::apply_query`] or [`BatchLookup::apply_fallback`].
//!
//! Up to [`BATCH_MAX_ATTEMPTS`] combined queries cover all units still
//! missing a line, each asking for a larger budget; units still missing
//! afterwards get one query each, and a failed one leaves an empty line.

use vstd::prelude::*;

use crate::journal::{has_key, line_budget, pairs_view, BATCH_MAX_ATTEMPTS, batch_line_budget};
use crate::systemd::views;
use crate::text::{lines_of, split_lines, str_eq, trim, trim_chars};

verus! {

/// What the driver of a lookup runs next.
#[derive(Debug)]
pub enum BatchStep {
    /// One combined query over `units`, for the newest `budget` records.
    Query { units: Vec<String>, budget: usize },
    /// One query for the newest line of `unit` alone.
    Fallback { unit: String },
    /// Nothing left to run: `found` is the result.
    Done,
}

/// State of one batched lookup.
#[derive(Debug)]
pub struct BatchLookup {
    /// The units asked for.
    pub requested: Vec<String>,
    /// `(unit, line)` pairs found so far, one per unit.
    pub found: Vec<(String, String)>,
    /// Units with no line yet, in request order.
    pub unresolved: Vec<String>,
    /// Combined queries run so far.
    pub attempt: usize,
    /// Whether combined queries may still run; a failed one ends them.
    pub querying: bool,
    /// Index into `unresolved` of the next single-unit query.
    pub next_fallback: usize,
}

/// `t` is empty once trimmed.
pub open spec fn is_blank(t: Seq<char>) -> bool {
    trim_chars(t).len() == 0
}

/// `found` with `unit` mapped to `line`: replaced where present, appended
/// otherwise.
pub open spec fn upsert(found: Seq<(Seq<char>, Seq<char>)>, unit: Seq<char>, line: Seq<char>) -> Seq<
    (Seq<char>, Seq<char>),
> {
    if has_key(found, unit) {
        found.map_values(
            |p: (Seq<char>, Seq<char>)|
                if p.0 == unit {
                    (unit, line)
                } else {
                    p
                },
        )
    } else {
        found.push((unit, line))
    }
}

/// `found` after taking in the non-blank lines of one combined query, in
/// order.
pub open spec fn merge_partial(
    found: Seq<(Seq<char>, Seq<char>)>,
    partial: Seq<(Seq<char>, Seq<char>)>,
) -> Seq<(Seq<char>, Seq<char>)>
    decreases partial.len(),
{
    if partial.len() == 0 {
        found
    } else {
        let f = merge_partial(found, partial.drop_last());
        if is_blank(partial.last().1) {
            f
        } else {
            upsert(f, partial.last().0, partial.last().1)
        }
    }
}

/// The units of `units` that `found` has no entry for, in order.
pub open spec fn still_missing(units: Seq<Seq<char>>, found: Seq<(Seq<char>, Seq<char>)>) -> Seq<
    Seq<char>,
> {
    units.filter(|u: Seq<char>| !has_key(found, u))
}

/// `found` holds a non-blank line for `unit`.
pub open spec fn has_line(found: Seq<(Seq<char>, Seq<char>)>, unit: Seq<char>) -> bool {
    exists|i: int| 0 <= i < found.len() && #[trigger] found[i].0 == unit && !is_blank(found[i].1)
}

proof fn lemma_upsert_keeps_keys(
    found: Seq<(Seq<char>, Seq<char>)>,
    unit: Seq<char>,
    line: Seq<char>,
    u: Seq<char>,
)
    ensures
        has_key(found, u) ==> has_key(upsert(found, unit, line), u),
        has_key(upsert(found, unit, line), unit),
{
    let r = upsert(found, unit, line);
    if has_key(found, u) {
        let i = choose|i: int| 0 <= i < found.len() && #[trigger] found[i].0 == u;
        assert(r[i].0 == u);
    }
    if has_key(found, unit) {
        let i = choose|i: int| 0 <= i < found.len() && #[trigger] found[i].0 == unit;
        assert(r[i].0 == unit);
    } else {
        assert(r[found.len() as int].0 == unit);
    }
}

proof fn lemma_merge_keeps_keys(
    found: Seq<(Seq<char>, Seq<char>)>,
    partial: Seq<(Seq<char>, Seq<char>)>,
    u: Seq<char>,
)
    requires
        has_key(found, u),
    ensures
        has_key(merge_partial(found, partial), u),
    decreases partial.len(),
{
    if partial.len() > 0 {
        lemma_merge_keeps_keys(found, partial.drop_last(), u);
        let f = merge_partial(found, partial.drop_last());
        lemma_upsert_keeps_keys(f, partial.last().0, partial.last().1, u);
    }
}

fn upsert_line(found: &mut Vec<(String, String)>, unit: &String, line: &String)
    ensures
        pairs_view(final(found)@) == upsert(pairs_view(old(found)@), unit@, line@),
{
    let ghost f0 = pairs_view(found@);
    let mut present = false;
    let mut j: usize = 0;
    while j < found.len()
        invariant
            found@.len() == old(found)@.len(),
            f0 == pairs_view(old(found)@),
            j <= found@.len(),
            present == exists|k: int| 0 <= k < j && #[trigger] f0[k].0 == unit@,
            forall|k: int|
                0 <= k < j ==> #[trigger] pairs_view(found@)[k] == if f0[k].0 == unit@ {
                    (unit@, line@)
                } else {
                    f0[k]
                },
            forall|k: int| j <= k < found@.len() ==> #[trigger] found@[k] == old(found)@[k],
        decreases found@.len() - j,
    {
        assert(f0[j as int] == (old(found)@[j as int].0@, old(found)@[j as int].1@));
        let ghost before = found@;
        if str_eq(found[j].0.as_str(), unit.as_str()) {
            found[j] = (unit.clone(), line.clone());
            present = true;
            assert(f0[j as int].0 == unit@);
        }
        proof {
            assert forall|k: int| 0 <= k < j + 1 implies #[trigger] pairs_view(found@)[k] == if f0[k].0
                == unit@ {
                (unit@, line@)
            } else {
                f0[k]
            } by {
                if k < j {
                    assert(found@[k] == before[k]);
                    assert(pairs_view(before)[k] == pairs_view(found@)[k]);
                }
            }
            if present {
                assert(exists|k: int| 0 <= k < j + 1 && #[trigger] f0[k].0 == unit@);
            }
        }
        j += 1;
    }
    if present {
        assert(has_key(f0, unit@));
        assert(pairs_view(found@) =~= upsert(f0, unit@, line@));
    } else {
        assert(!has_key(f0, unit@));
        assert(pairs_view(found@) =~= f0);
        found.push((unit.clone(), line.clone()));
        assert(pairs_view(found@) =~= f0.push((unit@, line@)));
    }
}

fn has_nonblank_line(found: &Vec<(String, String)>, unit: &str) -> (r: bool)
    ensures
        r == has_line(pairs_view(found@), unit@),
{
    let mut i: usize = 0;
    while i < found.len()
        invariant
            i <= found@.len(),
            forall|k: int|
                0 <= k < i ==> !(#[trigger] pairs_view(found@)[k].0 == unit@ && !is_blank(
                    pairs_view(found@)[k].1,
                )),
        decreases found@.len() - i,
    {
        if str_eq(found[i].0.as_str(), unit) {
            let t = trim(found[i].1.as_str());
            if !t.as_str().is_empty() {
                assert(pairs_view(found@)[i as int].0 == unit@);
                return true;
            }
        }
        i += 1;
    }
    false
}

impl BatchLookup {
    /// Whether the next step is a combined query.
    pub open spec fn wants_query(&self) -> bool {
        self.querying && self.attempt < BATCH_MAX_ATTEMPTS && self.unresolved@.len() > 0
    }

    /// Whether the next step is a single-unit query.
    pub open spec fn wants_fallback(&self) -> bool {
        !self.wants_query() && self.next_fallback < self.unresolved@.len()
    }

    /// Every requested unit has an entry or is still being looked up; the
    /// units already past the single-unit queries have entries; those
    /// queries only start once combined queries are over.
    pub open spec fn wf(&self) -> bool {
        &&& forall|u: Seq<char>|
            #[trigger] views(self.requested@).contains(u) ==> has_key(pairs_view(self.found@), u)
                || views(self.unresolved@).contains(u)
        &&& forall|k: int|
            0 <= k < self.next_fallback ==> has_key(
                pairs_view(self.found@),
                #[trigger] self.unresolved@[k]@,
            )
        &&& self.next_fallback > 0 ==> !self.wants_query()
        &&& self.next_fallback <= self.unresolved@.len()
    }

    /// Nothing is left to run.
    pub open spec fn is_done(&self) -> bool {
        !self.wants_query() && !self.wants_fallback()
    }

    /// A lookup of the newest line of each of `unit_names`.
    pub fn new(unit_names: &Vec<String>) -> (r: Self)
        ensures
            r.wf(),
            r.requested@ == unit_names@,
            r.found@.len() == 0,
            r.unresolved@ == unit_names@,
            r.attempt == 0,
            r.querying,
            r.next_fallback == 0,
    {
        BatchLookup {
            requested: unit_names.clone(),
            found: Vec::new(),
            unresolved: unit_names.clone(),
            attempt: 0,
            querying: true,
            next_fallback: 0,
        }
    }

    /// What to run next: a combined query over the units still missing a
    /// line, at the budget of this attempt; else a single-unit query for the
    /// next of them; else nothing.
    pub fn next_step(&self) -> (r: BatchStep)
        ensures
            self.wants_query() ==> (r matches BatchStep::Query { units, budget } && views(units@)
                == views(self.unresolved@) && budget == line_budget(
                self.unresolved@.len(),
                self.attempt as nat,
            )),
            self.wants_fallback() ==> (r matches BatchStep::Fallback { unit } && unit@
                == self.unresolved@[self.next_fallback as int]@),
            !self.wants_query() && !self.wants_fallback() ==> r is Done,
    {
        if self.querying && self.attempt < BATCH_MAX_ATTEMPTS && self.unresolved.len() > 0 {
            let units = self.unresolved.clone();
            assert(views(units@) =~= views(self.unresolved@));
            BatchStep::Query {
                units,
                budget: batch_line_budget(self.unresolved.len(), self.attempt),
            }
        } else if self.next_fallback < self.unresolved.len() {
            BatchStep::Fallback { unit: self.unresolved[self.next_fallback].clone() }
        } else {
            BatchStep::Done
        }
    }

    /// Take in the outcome of a combined query: its pairs on success, none
    /// when it failed. Success records every non-blank line, drops the
    /// units now found and counts the attempt; failure ends combined queries.
    pub fn apply_query(&mut self, result: Option<Vec<(String, String)>>)
        requires
            old(self).wants_query(),
            old(self).wf(),
        ensures
            final(self).wf(),
            final(self).requested == old(self).requested,
            result is None ==> {
                &&& !final(self).querying
                &&& final(self).found == old(self).found
                &&& final(self).unresolved == old(self).unresolved
                &&& final(self).attempt == old(self).attempt
                &&& final(self).next_fallback == old(self).next_fallback
            },
            result matches Some(p) ==> {
                &&& pairs_view(final(self).found@) == merge_partial(
                    pairs_view(old(self).found@),
                    pairs_view(p@),
                )
                &&& views(final(self).unresolved@) == still_missing(
                    views(old(self).unresolved@),
                    pairs_view(final(self).found@),
                )
                &&& final(self).attempt == old(self).attempt + 1
                &&& final(self).querying
                &&& final(self).next_fallback == old(self).next_fallback
            },
    {
        match result {
            None => {
                self.querying = false;
            },
            Some(partial) => {
                let ghost pv = pairs_view(partial@);
                let ghost f0 = pairs_view(self.found@);
                let mut i: usize = 0;
                assert(pv.take(0) =~= Seq::<(Seq<char>, Seq<char>)>::empty());
                while i < partial.len()
                    invariant
                        i <= partial@.len(),
                        pv == pairs_view(partial@),
                        pairs_view(self.found@) == merge_partial(f0, pv.take(i as int)),
                        self.attempt == old(self).attempt,
                        self.requested == old(self).requested,
                        self.unresolved == old(self).unresolved,
                        self.querying == old(self).querying,
                        self.next_fallback == old(self).next_fallback,
                    decreases partial@.len() - i,
                {
                    assert(pv.take(i + 1).drop_last() =~= pv.take(i as int));
                    assert(pv.take(i + 1).last() == (partial@[i as int].0@, partial@[i as int].1@));
                    let t = trim(partial[i].1.as_str());
                    if !t.as_str().is_empty() {
                        upsert_line(&mut self.found, &partial[i].0, &partial[i].1);
                    }
                    i += 1;
                }
                assert(pv.take(partial@.len() as int) =~= pv);
                let ghost fnew = pairs_view(self.found@);
                let ghost uv = views(self.unresolved@);
                let mut kept: Vec<String> = Vec::new();
                let mut k: usize = 0;
                assert(uv.take(0) =~= Seq::<Seq<char>>::empty());
                while k < self.unresolved.len()
                    invariant
                        k <= self.unresolved@.len(),
                        self.requested == old(self).requested,
                        self.unresolved == old(self).unresolved,
                        self.attempt == old(self).attempt,
                        self.querying == old(self).querying,
                        self.next_fallback == old(self).next_fallback,
                        uv == views(self.unresolved@),
                        fnew == pairs_view(self.found@),
                        views(kept@) == still_missing(uv.take(k as int), fnew),
                    decreases self.unresolved@.len() - k,
                {
                    assert(uv.take(k + 1).drop_last() =~= uv.take(k as int));
                    assert(uv.take(k + 1).last() == self.unresolved@[k as int]@);
                    proof {
                        reveal(Seq::filter);
                    }
                    if !crate::journal::has_unit_key(&self.found, self.unresolved[k].as_str()) {
                        kept.push(self.unresolved[k].clone());
                        assert(views(kept@) =~= still_missing(uv.take(k as int), fnew).push(
                            self.unresolved@[k as int]@,
                        ));
                    }
                    k += 1;
                }
                assert(uv.take(self.unresolved@.len() as int) =~= uv);
                let ghost old_unresolved = uv;
                self.unresolved = kept;
                self.attempt = self.attempt + 1;
                proof {
                    assert forall|u: Seq<char>|
                        #[trigger] views(self.requested@).contains(u) implies has_key(
                            pairs_view(self.found@),
                            u,
                        ) || views(self.unresolved@).contains(u) by {
                        if has_key(f0, u) {
                            lemma_merge_keeps_keys(f0, pv, u);
                        } else if !has_key(fnew, u) {
                            assert(old_unresolved.contains(u));
                            let k = choose|k: int| 0 <= k < old_unresolved.len() && old_unresolved[k] == u;
                            old_unresolved.lemma_filter_contains(|w: Seq<char>| !has_key(fnew, w), k);
                        }
                    }
                }
            },
        }
    }

    /// Take in the outcome of a single-unit query: the unit's line, or none
    /// when the query failed. Unless the unit already has a non-blank line,
    /// it is recorded, a failure as an empty line.
    pub fn apply_fallback(&mut self, line: Option<String>)
        requires
            old(self).wants_fallback(),
            old(self).wf(),
        ensures
            final(self).wf(),
            final(self).requested == old(self).requested,
            ({
                let u = old(self).unresolved@[old(self).next_fallback as int]@;
                let l = match line {
                    Some(t) => t@,
                    None => Seq::empty(),
                };
                pairs_view(final(self).found@) == if has_line(pairs_view(old(self).found@), u) {
                    pairs_view(old(self).found@)
                } else {
                    upsert(pairs_view(old(self).found@), u, l)
                }
            }),
            final(self).next_fallback == old(self).next_fallback + 1,
            final(self).unresolved == old(self).unresolved,
            final(self).attempt == old(self).attempt,
            final(self).querying == old(self).querying,
    {
        let unit = self.unresolved[self.next_fallback].clone();
        let ghost f0 = pairs_view(self.found@);
        if !has_nonblank_line(&self.found, unit.as_str()) {
            let l = match line {
                Some(t) => t,
                None => String::new(),
            };
            upsert_line(&mut self.found, &unit, &l);
            proof {
                assert forall|u: Seq<char>| has_key(f0, u) implies has_key(pairs_view(self.found@), u) by {
                    lemma_upsert_keeps_keys(f0, unit@, l@, u);
                }
                lemma_upsert_keeps_keys(f0, unit@, l@, unit@);
            }
        } else {
            proof {
                let i = choose|i: int|
                    0 <= i < f0.len() && #[trigger] f0[i].0 == unit@ && !is_blank(f0[i].1);
                assert(has_key(f0, unit@));
            }
        }
        let n = self.unresolved.len();
        assert(self.next_fallback < n);
        self.next_fallback = self.next_fallback + 1;
        proof {
            assert forall|k: int| 0 <= k < self.next_fallback implies has_key(
                pairs_view(self.found@),
                #[trigger] self.unresolved@[k]@,
            ) by {
                if k < self.next_fallback - 1 {
                    assert(has_key(f0, self.unresolved@[k]@));
                }
            }
            assert forall|u: Seq<char>|
                #[trigger] views(self.requested@).contains(u) implies has_key(
                    pairs_view(self.found@),
                    u,
                ) || views(self.unresolved@).contains(u) by {
                if has_key(f0, u) {
                }
            }
        }
    }
}

/// A finished lookup has an entry for every requested unit: a line found by
/// a combined query, or the outcome of that unit's own query, which is empty
/// only when that query failed or found nothing.
pub proof fn lemma_done_covers_requested(l: BatchLookup, u: Seq<char>)
    requires
        l.wf(),
        l.is_done(),
        views(l.requested@).contains(u),
    ensures
        has_key(pairs_view(l.found@), u),
{
    if !has_key(pairs_view(l.found@), u) {
        let uv = views(l.unresolved@);
        assert(uv.contains(u));
        let k = choose|k: int| 0 <= k < uv.len() && uv[k] == u;
        assert(uv[k] == l.unresolved@[k]@);
    }
}

/// The newest line of a unit as `journalctl -o cat -n 1` prints it: the
/// first line of the output, trimmed; empty when there is none.
pub fn newest_line(output: &str) -> (r: String)
    ensures
        r@ == if lines_of(output@).len() > 0 {
            trim_chars(lines_of(output@)[0])
        } else {
            Seq::empty()
        },
{
    let lines = split_lines(output);
    if lines.len() > 0 {
        assert(views(lines@)[0] == lines@[0]@);
        trim(lines[0].as_str())
    } else {
        String::new()
    }
}

} // verus!
