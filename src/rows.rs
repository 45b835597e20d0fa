//! Row model of the list view: indicator classes, sort ranks, a stable
//! sort, carrying log cells across refreshes, and keeping the selection.

use vstd::prelude::*;

use crate::text::{
    chars_before, lemma_chars_before_asymmetric, lemma_chars_before_total,
    lemma_chars_before_transitive, str_before, str_eq,
};
use crate::types::{StatusClass, SystemctlUnit, UnitRow};

verus! {

/// Indicator class of an (active state, sub-state) pair.
pub open spec fn classify(active: Seq<char>, sub: Seq<char>) -> StatusClass {
    if active == "active"@ {
        if sub == "running"@ {
            StatusClass::Healthy
        } else {
            StatusClass::Caution
        }
    } else if active == "inactive"@ {
        StatusClass::Dimmed
    } else if active == "failed"@ {
        StatusClass::Alert
    } else {
        StatusClass::Info
    }
}

/// The glyph of the indicator column.
pub open spec fn dot_glyph() -> char {
    '\u{25cf}'
}

/// Indicator glyph and class for a unit's active and sub state. Every pair
/// of strings, known or not, gets exactly one class.
pub fn status_dot(active: &str, sub: &str) -> (r: (char, StatusClass))
    ensures
        r.0 == dot_glyph(),
        r.1 == classify(active@, sub@),
{
    let class = if str_eq(active, "active") {
        if str_eq(sub, "running") {
            StatusClass::Healthy
        } else {
            StatusClass::Caution
        }
    } else if str_eq(active, "inactive") {
        StatusClass::Dimmed
    } else if str_eq(active, "failed") {
        StatusClass::Alert
    } else {
        StatusClass::Info
    };
    ('\u{25cf}', class)
}

/// Sort rank of a load state: loaded, then not-found, then anything else.
pub open spec fn load_rank_of(load: Seq<char>) -> u8 {
    if load == "loaded"@ {
        0
    } else if load == "not-found"@ {
        1
    } else {
        2
    }
}

/// Sort rank of an active state: active, then inactive, then anything else.
pub open spec fn active_rank_of(active: Seq<char>) -> u8 {
    if active == "active"@ {
        0
    } else if active == "inactive"@ {
        1
    } else {
        2
    }
}

/// Sort rank of a sub-state: running, exited, dead, then anything else.
pub open spec fn sub_rank_of(sub: Seq<char>) -> u8 {
    if sub == "running"@ {
        0
    } else if sub == "exited"@ {
        1
    } else if sub == "dead"@ {
        2
    } else {
        3
    }
}

/// Sort rank of a load state.
pub fn load_rank(load: &str) -> (r: u8)
    ensures
        r == load_rank_of(load@),
{
    if str_eq(load, "loaded") {
        0
    } else if str_eq(load, "not-found") {
        1
    } else {
        2
    }
}

/// Sort rank of an active state.
pub fn active_rank(active: &str) -> (r: u8)
    ensures
        r == active_rank_of(active@),
{
    if str_eq(active, "active") {
        0
    } else if str_eq(active, "inactive") {
        1
    } else {
        2
    }
}

/// Sort rank of a sub-state.
pub fn sub_rank(sub: &str) -> (r: u8)
    ensures
        r == sub_rank_of(sub@),
{
    if str_eq(sub, "running") {
        0
    } else if str_eq(sub, "exited") {
        1
    } else if str_eq(sub, "dead") {
        2
    } else {
        3
    }
}

/// `r` is the row built from `u`: its fields, its indicator, no log line yet.
pub open spec fn row_of(r: UnitRow, u: SystemctlUnit) -> bool {
    &&& r.dot == dot_glyph()
    &&& r.status == classify(u.active@, u.sub@)
    &&& r.unit == u.unit
    &&& r.load == u.load
    &&& r.active == u.active
    &&& r.sub == u.sub
    &&& r.description == u.description
    &&& r.last_log@.len() == 0
}

/// Display rows for queried units, one per unit and in the same order.
pub fn build_rows(units: Vec<SystemctlUnit>) -> (r: Vec<UnitRow>)
    ensures
        r@.len() == units@.len(),
        forall|i: int| 0 <= i < units@.len() ==> row_of(#[trigger] r@[i], units@[i]),
{
    let mut out: Vec<UnitRow> = Vec::new();
    let n = units.len();
    let mut i: usize = 0;
    while i < n
        invariant
            n == units@.len(),
            i <= n,
            out@.len() == i,
            forall|k: int| 0 <= k < i ==> row_of(#[trigger] out@[k], units@[k]),
        decreases n - i,
    {
        let u = &units[i];
        let (dot, status) = status_dot(u.active.as_str(), u.sub.as_str());
        out.push(
            UnitRow {
                dot,
                status,
                unit: u.unit.clone(),
                load: u.load.clone(),
                active: u.active.clone(),
                sub: u.sub.clone(),
                description: u.description.clone(),
                last_log: String::new(),
            },
        );
        i += 1;
    }
    out
}

/// Whether row `a` sorts strictly before row `b`. With `all` the key is
/// (load rank, active rank, sub rank, name); otherwise the name alone.
pub open spec fn row_before(a: UnitRow, b: UnitRow, all: bool) -> bool {
    if all && load_rank_of(a.load@) != load_rank_of(b.load@) {
        load_rank_of(a.load@) < load_rank_of(b.load@)
    } else if all && active_rank_of(a.active@) != active_rank_of(b.active@) {
        active_rank_of(a.active@) < active_rank_of(b.active@)
    } else if all && sub_rank_of(a.sub@) != sub_rank_of(b.sub@) {
        sub_rank_of(a.sub@) < sub_rank_of(b.sub@)
    } else {
        chars_before(a.unit@, b.unit@)
    }
}

fn compare_rows(a: &UnitRow, b: &UnitRow, all: bool) -> (r: bool)
    ensures
        r == row_before(*a, *b, all),
{
    if all {
        let (la, lb) = (load_rank(a.load.as_str()), load_rank(b.load.as_str()));
        if la != lb {
            return la < lb;
        }
        let (aa, ab) = (active_rank(a.active.as_str()), active_rank(b.active.as_str()));
        if aa != ab {
            return aa < ab;
        }
        let (sa, sb) = (sub_rank(a.sub.as_str()), sub_rank(b.sub.as_str()));
        if sa != sb {
            return sa < sb;
        }
    }
    str_before(a.unit.as_str(), b.unit.as_str())
}

/// Where a stable insertion puts `x` among the first `k` rows of `s`: after
/// every row that `x` does not sort before.
pub open spec fn insert_pos(s: Seq<UnitRow>, x: UnitRow, all: bool, k: int) -> int
    decreases k,
{
    if k <= 0 {
        0
    } else if row_before(x, s[k - 1], all) {
        insert_pos(s, x, all, k - 1)
    } else {
        k
    }
}

/// `s` in sorted order; rows with equal keys keep their relative order.
pub open spec fn sorted_rows(s: Seq<UnitRow>, all: bool) -> Seq<UnitRow>
    decreases s.len(),
{
    if s.len() == 0 {
        s
    } else {
        let t = sorted_rows(s.drop_last(), all);
        t.insert(insert_pos(t, s.last(), all, t.len() as int), s.last())
    }
}

/// No row sorts before an earlier one.
pub open spec fn is_sorted(s: Seq<UnitRow>, all: bool) -> bool {
    forall|i: int, j: int| 0 <= i < j < s.len() ==> !row_before(#[trigger] s[j], #[trigger] s[i], all)
}

proof fn lemma_sorted_rows_len(s: Seq<UnitRow>, all: bool)
    ensures
        sorted_rows(s, all).len() == s.len(),
    decreases s.len(),
{
    if s.len() > 0 {
        lemma_sorted_rows_len(s.drop_last(), all);
        lemma_insert_pos_range(sorted_rows(s.drop_last(), all), s.last(), all, s.len() - 1);
    }
}

proof fn lemma_insert_pos_range(s: Seq<UnitRow>, x: UnitRow, all: bool, k: int)
    ensures
        0 <= insert_pos(s, x, all, k) <= if k < 0 { 0 } else { k },
    decreases k,
{
    if k > 0 {
        lemma_insert_pos_range(s, x, all, k - 1);
    }
}

/// `a` and `b` have the same sort key.
pub open spec fn same_key(a: UnitRow, b: UnitRow, all: bool) -> bool {
    &&& all ==> load_rank_of(a.load@) == load_rank_of(b.load@)
    &&& all ==> active_rank_of(a.active@) == active_rank_of(b.active@)
    &&& all ==> sub_rank_of(a.sub@) == sub_rank_of(b.sub@)
    &&& a.unit@ == b.unit@
}

proof fn lemma_row_order(a: UnitRow, b: UnitRow, c: UnitRow, all: bool)
    ensures
        row_before(a, b, all) ==> !row_before(b, a, all),
        row_before(a, b, all) && row_before(b, c, all) ==> row_before(a, c, all),
        same_key(a, b, all) || row_before(a, b, all) || row_before(b, a, all),
        same_key(a, b, all) ==> (row_before(a, c, all) == row_before(b, c, all) && row_before(
            c,
            a,
            all,
        ) == row_before(c, b, all)),
{
    lemma_chars_before_total(a.unit@, b.unit@);
    if chars_before(a.unit@, b.unit@) {
        lemma_chars_before_asymmetric(a.unit@, b.unit@);
    }
    if chars_before(a.unit@, b.unit@) && chars_before(b.unit@, c.unit@) {
        lemma_chars_before_transitive(a.unit@, b.unit@, c.unit@);
    }
}

/// A row that sorts before neither `y` nor `z`-after-`y` sorts before neither.
proof fn lemma_not_before_chain(x: UnitRow, y: UnitRow, z: UnitRow, all: bool)
    requires
        !row_before(x, y, all),
        !row_before(y, z, all),
    ensures
        !row_before(x, z, all),
{
    lemma_row_order(x, y, z, all);
    lemma_row_order(y, x, z, all);
    lemma_row_order(y, z, x, all);
    lemma_row_order(z, y, x, all);
    lemma_row_order(x, z, y, all);
    lemma_row_order(z, x, y, all);
}

proof fn lemma_insert_pos_bounds(s: Seq<UnitRow>, x: UnitRow, all: bool, k: int)
    requires
        0 <= k <= s.len(),
    ensures
        forall|j: int| insert_pos(s, x, all, k) <= j < k ==> row_before(x, #[trigger] s[j], all),
        insert_pos(s, x, all, k) > 0 ==> !row_before(x, s[insert_pos(s, x, all, k) - 1], all),
    decreases k,
{
    if k > 0 && row_before(x, s[k - 1], all) {
        lemma_insert_pos_bounds(s, x, all, k - 1);
    }
}

proof fn lemma_insert_keeps_sorted(t: Seq<UnitRow>, x: UnitRow, all: bool)
    requires
        is_sorted(t, all),
    ensures
        is_sorted(t.insert(insert_pos(t, x, all, t.len() as int), x), all),
{
    let p = insert_pos(t, x, all, t.len() as int);
    lemma_insert_pos_range(t, x, all, t.len() as int);
    lemma_insert_pos_bounds(t, x, all, t.len() as int);
    let u = t.insert(p, x);
    assert forall|i: int, j: int| 0 <= i < j < u.len() implies !row_before(
        #[trigger] u[j],
        #[trigger] u[i],
        all,
    ) by {
        if i < p && j == p {
            assert(!row_before(x, t[p - 1], all));
            if i < p - 1 {
                assert(!row_before(t[p - 1], t[i], all));
                lemma_not_before_chain(x, t[p - 1], t[i], all);
            }
        } else if i == p && j > p {
            assert(row_before(x, t[j - 1], all));
            lemma_row_order(x, t[j - 1], x, all);
        } else if i < p && j > p {
            assert(!row_before(t[j - 1], t[i], all));
        } else if i > p {
            assert(!row_before(t[j - 1], t[i - 1], all));
        } else {
            assert(!row_before(t[j], t[i], all));
        }
    }
}

/// The sorted order is sorted: no row sorts before an earlier one.
pub proof fn lemma_sorted_rows_sorted(s: Seq<UnitRow>, all: bool)
    ensures
        is_sorted(sorted_rows(s, all), all),
    decreases s.len(),
{
    if s.len() > 0 {
        lemma_sorted_rows_sorted(s.drop_last(), all);
        lemma_insert_keeps_sorted(sorted_rows(s.drop_last(), all), s.last(), all);
    }
}

/// Rows already in order are left as they are.
pub proof fn lemma_sorted_rows_of_sorted(s: Seq<UnitRow>, all: bool)
    requires
        is_sorted(s, all),
    ensures
        sorted_rows(s, all) == s,
    decreases s.len(),
{
    if s.len() > 0 {
        let t = s.drop_last();
        assert(is_sorted(t, all)) by {
            assert forall|i: int, j: int| 0 <= i < j < t.len() implies !row_before(
                #[trigger] t[j],
                #[trigger] t[i],
                all,
            ) by {
                assert(t[j] == s[j] && t[i] == s[i]);
            }
        }
        lemma_sorted_rows_of_sorted(t, all);
        if t.len() > 0 {
            assert(!row_before(s[s.len() - 1], s[t.len() - 1], all));
        }
        assert(t.insert(t.len() as int, s.last()) =~= s);
    }
}

/// Sorting twice gives the order that sorting once gives.
pub proof fn lemma_sort_idempotent(s: Seq<UnitRow>, all: bool)
    ensures
        sorted_rows(sorted_rows(s, all), all) == sorted_rows(s, all),
{
    lemma_sorted_rows_sorted(s, all);
    lemma_sorted_rows_of_sorted(sorted_rows(s, all), all);
}

/// In the sorted order, of two rows with equal ranks the one whose name is
/// smaller comes first.
pub proof fn lemma_sort_breaks_ties_by_name(s: Seq<UnitRow>, all: bool, i: int, j: int)
    requires
        0 <= i < sorted_rows(s, all).len(),
        0 <= j < sorted_rows(s, all).len(),
        load_rank_of(sorted_rows(s, all)[i].load@) == load_rank_of(sorted_rows(s, all)[j].load@),
        active_rank_of(sorted_rows(s, all)[i].active@) == active_rank_of(
            sorted_rows(s, all)[j].active@,
        ),
        sub_rank_of(sorted_rows(s, all)[i].sub@) == sub_rank_of(sorted_rows(s, all)[j].sub@),
        chars_before(sorted_rows(s, all)[i].unit@, sorted_rows(s, all)[j].unit@),
    ensures
        i < j,
{
    lemma_sorted_rows_sorted(s, all);
    let t = sorted_rows(s, all);
    lemma_chars_before_asymmetric(t[i].unit@, t[j].unit@);
    if j <= i {
        if j < i {
            assert(!row_before(t[i], t[j], all));
        }
    }
}

/// The sorted order holds the same rows, each as often.
pub proof fn lemma_sorted_rows_permutes(s: Seq<UnitRow>, all: bool)
    ensures
        sorted_rows(s, all).to_multiset() == s.to_multiset(),
    decreases s.len(),
{
    if s.len() > 0 {
        let t = sorted_rows(s.drop_last(), all);
        lemma_sorted_rows_permutes(s.drop_last(), all);
        lemma_sorted_rows_len(s.drop_last(), all);
        lemma_insert_pos_range(t, s.last(), all, t.len() as int);
        vstd::seq_lib::to_multiset_insert(t, insert_pos(t, s.last(), all, t.len() as int), s.last());
        vstd::seq_lib::to_multiset_build(s.drop_last(), s.last());
        assert(s.drop_last().push(s.last()) =~= s);
    }
}

/// Sort rows in place: by (load rank, active rank, sub rank, name) in the
/// unrestricted view, by name otherwise. The sort is stable.
pub fn sort_rows(rows: &mut Vec<UnitRow>, show_all: bool)
    ensures
        final(rows)@ == sorted_rows(old(rows)@, show_all),
{
    let n = rows.len();
    let mut i: usize = 0;
    while i < n
        invariant
            n == rows@.len(),
            n == old(rows)@.len(),
            i <= n,
            rows@.take(i as int) == sorted_rows(old(rows)@.take(i as int), show_all),
            rows@.skip(i as int) == old(rows)@.skip(i as int),
        decreases n - i,
    {
        let ghost before = rows@;
        proof {
            assert(old(rows)@.take(i + 1).drop_last() =~= old(rows)@.take(i as int));
            assert(old(rows)@.take(i + 1).last() == old(rows)@[i as int]) by {
                assert(old(rows)@.skip(i as int)[0] == old(rows)@[i as int]);
                assert(rows@.skip(i as int)[0] == rows@[i as int]);
            }
            lemma_sorted_rows_len(old(rows)@.take(i as int), show_all);
        }
        let x = rows.remove(i);
        proof {
            assert(rows@.take(i as int) =~= before.take(i as int));
            assert(x == old(rows)@[i as int]) by {
                assert(before.skip(i as int)[0] == before[i as int]);
                assert(old(rows)@.skip(i as int)[0] == old(rows)@[i as int]);
            }
        }
        let ghost t = rows@.take(i as int);
        let mut p: usize = i;
        while p > 0 && compare_rows(&x, &rows[p - 1], show_all)
            invariant
                p <= i,
                i < n,
                rows@.len() == n - 1,
                t == rows@.take(i as int),
                insert_pos(t, x, show_all, i as int) == insert_pos(t, x, show_all, p as int),
            decreases p,
        {
            assert(rows@[p - 1] == t[p - 1]);
            p -= 1;
        }
        proof {
            if p > 0 {
                assert(rows@[p - 1] == t[p - 1]);
            }
            assert(insert_pos(t, x, show_all, p as int) == p);
        }
        rows.insert(p, x);
        proof {
            assert(rows@.take(i + 1) =~= t.insert(p as int, x));
            assert(rows@.skip(i + 1) =~= before.skip(i + 1));
            assert(before.skip(i + 1) =~= old(rows)@.skip(i + 1)) by {
                assert(before.skip(i as int) == old(rows)@.skip(i as int));
                assert forall|k: int| 0 <= k < n - i - 1 implies #[trigger] before.skip(i + 1)[k]
                    == old(rows)@.skip(i + 1)[k] by {
                    assert(before.skip(i + 1)[k] == before.skip(i as int)[k + 1]);
                    assert(old(rows)@.skip(i + 1)[k] == old(rows)@.skip(i as int)[k + 1]);
                }
            }
        }
        i += 1;
    }
    proof {
        assert(rows@.take(n as int) =~= rows@);
        assert(old(rows)@.take(n as int) =~= old(rows)@);
    }
}

/// The log cell of the last row of `prev` named `name`, if any.
pub open spec fn previous_log(prev: Seq<UnitRow>, name: Seq<char>) -> Option<Seq<char>>
    decreases prev.len(),
{
    if prev.len() == 0 {
        None
    } else if prev.last().unit@ == name {
        Some(prev.last().last_log@)
    } else {
        previous_log(prev.drop_last(), name)
    }
}

/// `a` and `b` agree on every field but the log cell.
pub open spec fn same_but_log(a: UnitRow, b: UnitRow) -> bool {
    &&& a.dot == b.dot
    &&& a.status == b.status
    &&& a.unit == b.unit
    &&& a.load == b.load
    &&& a.active == b.active
    &&& a.sub == b.sub
    &&& a.description == b.description
}

fn find_previous_log(previous_rows: &[UnitRow], name: &str) -> (r: Option<String>)
    ensures
        r matches Some(l) ==> previous_log(previous_rows@, name@) == Some(l@),
        r is None ==> previous_log(previous_rows@, name@) is None,
{
    let mut j: usize = previous_rows.len();
    assert(previous_rows@.take(j as int) =~= previous_rows@);
    while j > 0
        invariant
            j <= previous_rows@.len(),
            previous_log(previous_rows@, name@) == previous_log(previous_rows@.take(j as int), name@),
        decreases j,
    {
        let ghost s = previous_rows@.take(j as int);
        assert(s.drop_last() =~= previous_rows@.take(j - 1));
        let row = &previous_rows[j - 1];
        if str_eq(row.unit.as_str(), name) {
            return Some(row.last_log.clone());
        }
        j -= 1;
    }
    None
}

/// Carry each row's log cell over from the previous row set, matched by
/// unit name; where a name occurs more than once there, its last row counts.
/// Rows with no earlier counterpart keep their cell.
pub fn seed_logs_from_previous(new_rows: &mut Vec<UnitRow>, previous_rows: &[UnitRow])
    ensures
        final(new_rows)@.len() == old(new_rows)@.len(),
        forall|i: int|
            0 <= i < old(new_rows)@.len() ==> {
                &&& same_but_log(#[trigger] final(new_rows)@[i], old(new_rows)@[i])
                &&& final(new_rows)@[i].last_log@ == match previous_log(
                    previous_rows@,
                    old(new_rows)@[i].unit@,
                ) {
                    Some(l) => l,
                    None => old(new_rows)@[i].last_log@,
                }
            },
{
    let n = new_rows.len();
    let mut i: usize = 0;
    while i < n
        invariant
            n == new_rows@.len(),
            n == old(new_rows)@.len(),
            i <= n,
            forall|k: int|
                i <= k < n ==> #[trigger] new_rows@[k] == old(new_rows)@[k],
            forall|k: int|
                0 <= k < i ==> {
                    &&& same_but_log(#[trigger] new_rows@[k], old(new_rows)@[k])
                    &&& new_rows@[k].last_log@ == match previous_log(
                        previous_rows@,
                        old(new_rows)@[k].unit@,
                    ) {
                        Some(l) => l,
                        None => old(new_rows)@[k].last_log@,
                    }
                },
        decreases n - i,
    {
        let found = find_previous_log(previous_rows, new_rows[i].unit.as_str());
        match found {
            Some(log) => {
                new_rows[i].last_log = log;
            },
            None => {},
        }
        i += 1;
    }
}

/// Some row of `rows` is named `name`.
pub open spec fn is_listed(rows: Seq<UnitRow>, name: Seq<char>) -> bool {
    exists|k: int| 0 <= k < rows.len() && #[trigger] rows[k].unit@ == name
}

/// Keep the selection on the same unit across a row-set replacement: its new
/// index if the unit is still listed (its first row), else the old index
/// clamped into the new rows, or 0 when there are none.
pub fn preserve_selection(prev_unit: Option<String>, rows: &[UnitRow], selected_idx: &mut usize)
    ensures
        rows@.len() == 0 ==> *final(selected_idx) == 0,
        rows@.len() > 0 && prev_unit is Some && is_listed(rows@, prev_unit->0@) ==> {
            &&& *final(selected_idx) < rows@.len()
            &&& rows@[*final(selected_idx) as int].unit@ == prev_unit->0@
            &&& forall|k: int|
                0 <= k < *final(selected_idx) ==> #[trigger] rows@[k].unit@ != prev_unit->0@
        },
        rows@.len() > 0 && !(prev_unit is Some && is_listed(rows@, prev_unit->0@)) ==> *final(selected_idx) == if *old(selected_idx) < rows@.len() {
            *old(selected_idx)
        } else {
            (rows@.len() - 1) as usize
        },
{
    if rows.len() == 0 {
        *selected_idx = 0;
        return;
    }
    if let Some(unit) = prev_unit {
        let mut k: usize = 0;
        while k < rows.len()
            invariant
                prev_unit == Some(unit),
                *selected_idx == *old(selected_idx),
                k <= rows@.len(),
                forall|j: int| 0 <= j < k ==> #[trigger] rows@[j].unit@ != unit@,
            decreases rows@.len() - k,
        {
            if str_eq(rows[k].unit.as_str(), unit.as_str()) {
                *selected_idx = k;
                return;
            }
            k += 1;
        }
        assert(!is_listed(rows@, unit@));
    }
    if *selected_idx >= rows.len() {
        *selected_idx = rows.len() - 1;
    }
}

} // verus!
