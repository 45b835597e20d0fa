//! One refresh cycle of the list view: the rows shown as soon as the units
//! are known, and the groups of units whose log lines are fetched next.

use vstd::prelude::*;

use crate::cli::Config;
use crate::rows::{
    build_rows, classify, dot_glyph, previous_log, row_of, same_but_log, seed_logs_from_previous, sort_rows, sorted_rows,
};
use crate::systemd::{filter_services, filtered, full_all, is_full_all};
use crate::types::{SystemctlUnit, UnitRow};

verus! {

/// Units per log group of a refresh.
pub const LOG_BATCH_SIZE: usize = 12;

/// `s` are the rows built from `units`, with each log cell carried over
/// from `prev` by name, or empty.
pub open spec fn seeded_rows(s: Seq<UnitRow>, units: Seq<SystemctlUnit>, prev: Seq<UnitRow>) -> bool {
    &&& s.len() == units.len()
    &&& forall|i: int|
        0 <= i < units.len() ==> {
            &&& (#[trigger] s[i]).dot == dot_glyph()
            &&& s[i].status == classify(units[i].active@, units[i].sub@)
            &&& s[i].unit == units[i].unit
            &&& s[i].load == units[i].load
            &&& s[i].active == units[i].active
            &&& s[i].sub == units[i].sub
            &&& s[i].description == units[i].description
            &&& s[i].last_log@ == match previous_log(prev, units[i].unit@) {
                Some(l) => l,
                None => Seq::empty(),
            }
        }
}

/// The rows of a refresh: the listed units that pass the filters, built
/// into rows, each log cell carried over from the previous rows, sorted for
/// the view (see [`sort_rows`]).
pub fn prepare_rows(units: Vec<SystemctlUnit>, cfg: &Config, previous_rows: &[UnitRow]) -> (r: Vec<
    UnitRow,
>)
    ensures
        exists|s: Seq<UnitRow>|
            seeded_rows(s, filtered(units@, *cfg), previous_rows@) && r@ == sorted_rows(
                s,
                full_all(*cfg),
            ),
{
    let kept = filter_services(units, cfg);
    let ghost kv = kept@;
    let mut rows = build_rows(kept);
    let ghost built = rows@;
    seed_logs_from_previous(&mut rows, previous_rows);
    let ghost s = rows@;
    assert forall|i: int| 0 <= i < kv.len() implies {
        &&& (#[trigger] s[i]).dot == dot_glyph()
        &&& s[i].status == classify(kv[i].active@, kv[i].sub@)
        &&& s[i].unit == kv[i].unit
        &&& s[i].load == kv[i].load
        &&& s[i].active == kv[i].active
        &&& s[i].sub == kv[i].sub
        &&& s[i].description == kv[i].description
        &&& s[i].last_log@ == match previous_log(previous_rows@, kv[i].unit@) {
            Some(l) => l,
            None => Seq::empty(),
        }
    } by {
        assert(row_of(built[i], kv[i]));
        assert(same_but_log(s[i], built[i]));
    }
    assert(seeded_rows(s, kv, previous_rows@));
    sort_rows(&mut rows, is_full_all(cfg));
    rows
}

/// Rows `start..end` of a refresh, `end` at most `n`, in groups of
/// [`LOG_BATCH_SIZE`]: group `g` ends at `min((g + 1) * 12, n)`.
pub open spec fn group_end(g: int, n: int) -> int {
    if (g + 1) * 12 < n {
        (g + 1) * 12
    } else {
        n
    }
}

/// The unit names of rows in groups of [`LOG_BATCH_SIZE`], in order, each
/// with the number of rows covered once it is done.
pub fn log_groups(rows: &Vec<UnitRow>) -> (r: Vec<(usize, Vec<String>)>)
    ensures
        r@.len() == (rows@.len() + 11) / 12,
        forall|g: int|
            0 <= g < r@.len() ==> {
                &&& (#[trigger] r@[g]).0 == group_end(g, rows@.len() as int)
                &&& r@[g].1@.len() == r@[g].0 - g * 12
                &&& forall|k: int|
                    0 <= k < r@[g].1@.len() ==> (#[trigger] r@[g].1@[k])@ == rows@[g * 12 + k].unit@
            },
{
    let n = rows.len();
    let mut out: Vec<(usize, Vec<String>)> = Vec::new();
    let mut done: usize = 0;
    while done < n
        invariant
            n == rows@.len(),
            done <= n,
            done == out@.len() * 12 || done == n,
            done == n ==> out@.len() == (n + 11) / 12,
            done < n ==> done == out@.len() * 12,
            forall|g: int|
                0 <= g < out@.len() ==> {
                    &&& (#[trigger] out@[g]).0 == group_end(g, n as int)
                    &&& out@[g].1@.len() == out@[g].0 - g * 12
                    &&& forall|k: int|
                        0 <= k < out@[g].1@.len() ==> (#[trigger] out@[g].1@[k])@ == rows@[g * 12
                            + k].unit@
                },
        decreases n - done,
    {
        let end = if n - done > LOG_BATCH_SIZE {
            done + LOG_BATCH_SIZE
        } else {
            n
        };
        let mut units: Vec<String> = Vec::new();
        let mut k: usize = done;
        while k < end
            invariant
                done <= k <= end <= n,
                n == rows@.len(),
                units@.len() == k - done,
                forall|j: int| 0 <= j < units@.len() ==> (#[trigger] units@[j])@ == rows@[done + j].unit@,
            decreases end - k,
        {
            units.push(rows[k].unit.clone());
            k += 1;
        }
        let ghost g = out@.len() as int;
        assert(end == group_end(g, n as int));
        out.push((end, units));
        done = end;
        proof {
            if done == n {
                assert((n + 11) / 12 == g + 1) by (nonlinear_arith)
                    requires
                        g * 12 < n <= (g + 1) * 12,
                ;
            }
        }
    }
    if n == 0 {
        assert(out@.len() == 0);
    }
    out
}

} // verus!
