//! Journal queries: the line budget of a batched lookup, reading the latest
//! message of each wanted unit out of JSON journal records, the argument
//! lists of the journal queries, and parsing of the detail view's lines.

use vstd::prelude::*;

use crate::systemd::views;
use crate::text::{
    decimal, decimal_chars, lines_of, split_at_first_space, split_lines, str_eq, trim, trim_chars,
    trim_start, trim_start_chars,
};
use crate::types::{scope_flag, DetailLogEntry, Scope};

verus! {

/// Fewest lines a batched attempt asks for.
pub const BATCH_MIN_LINES: usize = 200;

/// Lines asked for per unit in a batched attempt.
pub const BATCH_PER_UNIT_LINES: usize = 20;

/// Most lines a batched attempt asks for.
pub const BATCH_MAX_LINES: usize = 4000;

/// Batched attempts before falling back to one query per unit.
pub const BATCH_MAX_ATTEMPTS: usize = 3;

/// `2^k`.
pub open spec fn doubling(k: nat) -> nat
    decreases k,
{
    if k == 0 {
        1
    } else {
        2 * doubling((k - 1) as nat)
    }
}

/// Lines to ask for when `n` units are looked up at attempt `attempt`:
/// `max(200, 20 n)`, doubled per attempt up to the tenth, at most 4000.
pub open spec fn line_budget(n: nat, attempt: nat) -> nat {
    let base = if 20 * n > 200 {
        20 * n
    } else {
        200
    };
    let g = doubling(if attempt < 10 {
        attempt
    } else {
        10
    });
    if base * g < 4000 {
        base * g
    } else {
        4000
    }
}

proof fn lemma_doubling_monotone(i: nat, j: nat)
    requires
        i <= j,
    ensures
        1 <= doubling(i) <= doubling(j),
    decreases j,
{
    if j > i {
        lemma_doubling_monotone(i, (j - 1) as nat);
    } else if i > 0 {
        lemma_doubling_monotone((i - 1) as nat, (i - 1) as nat);
    }
}

/// The line budget of one batched attempt.
pub fn batch_line_budget(unit_count: usize, attempt: usize) -> (r: usize)
    ensures
        r == line_budget(unit_count as nat, attempt as nat),
{
    let c: usize = if unit_count < 200 {
        unit_count
    } else {
        200
    };
    let base: usize = if c * BATCH_PER_UNIT_LINES > BATCH_MIN_LINES {
        c * BATCH_PER_UNIT_LINES
    } else {
        BATCH_MIN_LINES
    };
    let k: usize = if attempt < 10 {
        attempt
    } else {
        10
    };
    proof {
        reveal_with_fuel(doubling, 11);
        lemma_doubling_monotone(k as nat, 10);
    }
    let mut g: usize = 1;
    let mut i: usize = 0;
    while i < k
        invariant
            i <= k <= 10,
            g == doubling(i as nat),
            doubling(k as nat) <= 1024,
        decreases k - i,
    {
        proof {
            lemma_doubling_monotone((i + 1) as nat, k as nat);
        }
        g = g * 2;
        i += 1;
    }
    assert(base * g <= 4000 * 1024) by (nonlinear_arith)
        requires
            base <= 4000,
            g <= 1024,
    ;
    let total = base * g;
    proof {
        let n = unit_count as nat;
        let sbase = if 20 * n > 200 {
            20 * n
        } else {
            200
        };
        if unit_count >= 200 {
            assert(sbase * g >= 4000) by (nonlinear_arith)
                requires
                    sbase >= 4000,
                    g >= 1,
            ;
            assert(base * g >= 4000) by (nonlinear_arith)
                requires
                    base == 4000,
                    g >= 1,
            ;
        }
    }
    if total < BATCH_MAX_LINES {
        total
    } else {
        BATCH_MAX_LINES
    }
}

/// A later attempt never asks for fewer lines.
pub proof fn lemma_budget_grows(n: nat, attempt: nat)
    ensures
        line_budget(n, attempt) <= line_budget(n, attempt + 1),
{
    let a = if attempt < 10 {
        attempt
    } else {
        10
    };
    let b = if attempt + 1 < 10 {
        attempt + 1
    } else {
        10
    };
    lemma_doubling_monotone(a, b);
    let base = if 20 * n > 200 {
        20 * n
    } else {
        200
    };
    let (ga, gb) = (doubling(a), doubling(b));
    assert(base * ga <= base * gb) by (nonlinear_arith)
        requires
            ga <= gb,
    ;
}

/// From the tenth attempt on the budget no longer grows, and it never
/// exceeds 4000 lines.
pub proof fn lemma_budget_capped(n: nat, attempt: nat)
    ensures
        line_budget(n, attempt) <= 4000,
        attempt >= 10 ==> line_budget(n, attempt) == line_budget(n, 10),
{
}

/// The entries of a JSON object: each key with its value when that value is
/// a string.
pub type JsonFields = Seq<(Seq<char>, Option<Seq<char>>)>;

/// What `serde_json` reads from one line of text as a JSON object: its
/// entries, each with its value if that value is a string; none when the line
/// is not a JSON object.
pub uninterp spec fn json_object_of(line: Seq<char>) -> Option<JsonFields>;

/// Views of the entries that [`json_object_fields`] hands back.
pub open spec fn fields_view(v: Seq<(String, Option<String>)>) -> JsonFields {
    v.map_values(
        |e: (String, Option<String>)|
            (
                e.0@,
                match e.1 {
                    Some(t) => Some(t@),
                    None => None,
                },
            ),
    )
}

/// Relies on `serde_json::from_str` into a `serde_json::Map`: parses one
/// line as a JSON object, and on `Value::as_str` to keep string values.
#[verifier::external_body]
fn json_object_fields(line: &str) -> (r: Option<Vec<(String, Option<String>)>>)
    ensures
        r is None <==> json_object_of(line@) is None,
        r matches Some(v) ==> json_object_of(line@) == Some(fields_view(v@)),
{
    match serde_json::from_str::<serde_json::Map<String, serde_json::Value>>(line) {
        Ok(map) => Some(map.into_iter().map(|(k, v)| (k, v.as_str().map(String::from))).collect()),
        Err(_) => None,
    }
}

/// The string value of the first entry named `name`, if it is a string.
pub open spec fn field_text(fields: JsonFields, name: Seq<char>) -> Option<Seq<char>>
    decreases fields.len(),
{
    if fields.len() == 0 {
        None
    } else if fields[0].0 == name {
        fields[0].1
    } else {
        field_text(fields.drop_first(), name)
    }
}

/// Record fields that name a unit, in the order they are tried. System scope
/// prefers the unit field, personal scope the user-unit field; each falls
/// back to the other's fields so that entries the manager wrote about a unit
/// are found too.
pub open spec fn unit_field_names(scope: Scope) -> Seq<Seq<char>> {
    match scope {
        Scope::System => seq![
            "_SYSTEMD_UNIT"@,
            "UNIT"@,
            "USER_UNIT"@,
            "OBJECT_SYSTEMD_UNIT"@,
            "COREDUMP_UNIT"@,
            "COREDUMP_USER_UNIT"@,
            "_SYSTEMD_USER_UNIT"@,
        ],
        Scope::User => seq![
            "_SYSTEMD_USER_UNIT"@,
            "USER_UNIT"@,
            "UNIT"@,
            "OBJECT_SYSTEMD_USER_UNIT"@,
            "OBJECT_SYSTEMD_UNIT"@,
            "COREDUMP_USER_UNIT"@,
            "COREDUMP_UNIT"@,
            "_SYSTEMD_UNIT"@,
        ],
    }
}

/// The first of `names` that the record holds as a string.
pub open spec fn first_field(fields: JsonFields, names: Seq<Seq<char>>) -> Option<Seq<char>>
    decreases names.len(),
{
    if names.len() == 0 {
        None
    } else {
        match field_text(fields, names[0]) {
            Some(u) => Some(u),
            None => first_field(fields, names.drop_first()),
        }
    }
}

/// The unit a record belongs to in `scope`.
pub open spec fn record_unit(scope: Scope, fields: JsonFields) -> Option<Seq<char>> {
    first_field(fields, unit_field_names(scope))
}

/// The trimmed message of a record; empty when it has none.
pub open spec fn record_message(fields: JsonFields) -> Seq<char> {
    match field_text(fields, "MESSAGE"@) {
        Some(m) => trim_chars(m),
        None => Seq::empty(),
    }
}

/// `found` has an entry for `unit`.
pub open spec fn has_key(found: Seq<(Seq<char>, Seq<char>)>, unit: Seq<char>) -> bool {
    exists|i: int| 0 <= i < found.len() && #[trigger] found[i].0 == unit
}

/// Views of `(unit, text)` pairs.
pub open spec fn pairs_view(v: Seq<(String, String)>) -> Seq<(Seq<char>, Seq<char>)> {
    v.map_values(|p: (String, String)| (p.0@, p.1@))
}

/// `found` after reading one journal line: the line's message is added for
/// its unit when the unit is wanted, has no message yet, and the message is
/// not blank.
pub open spec fn absorb_line(
    scope: Scope,
    line: Seq<char>,
    wanted: Seq<Seq<char>>,
    found: Seq<(Seq<char>, Seq<char>)>,
) -> Seq<(Seq<char>, Seq<char>)> {
    match json_object_of(line) {
        None => found,
        Some(fields) => match record_unit(scope, fields) {
            None => found,
            Some(u) => if wanted.contains(u) && !has_key(found, u) && record_message(fields).len()
                > 0 {
                found.push((u, record_message(fields)))
            } else {
                found
            },
        },
    }
}

/// The latest message of each wanted unit among the first `n` lines, newest
/// first; reading stops once every wanted unit has one.
pub open spec fn latest_logs(
    scope: Scope,
    lines: Seq<Seq<char>>,
    wanted: Seq<Seq<char>>,
    n: nat,
) -> Seq<(Seq<char>, Seq<char>)>
    decreases n,
{
    if n == 0 {
        Seq::empty()
    } else {
        let prev = latest_logs(scope, lines, wanted, (n - 1) as nat);
        if prev.len() == wanted.len() {
            prev
        } else {
            absorb_line(scope, lines[n - 1], wanted, prev)
        }
    }
}

proof fn lemma_latest_logs_settled(
    scope: Scope,
    lines: Seq<Seq<char>>,
    wanted: Seq<Seq<char>>,
    k: nat,
    m: nat,
)
    requires
        k <= m,
        latest_logs(scope, lines, wanted, k).len() == wanted.len(),
    ensures
        latest_logs(scope, lines, wanted, m) == latest_logs(scope, lines, wanted, k),
    decreases m,
{
    if m > k {
        lemma_latest_logs_settled(scope, lines, wanted, k, (m - 1) as nat);
    }
}

fn field_value(fields: &Vec<(String, Option<String>)>, name: &str) -> (r: Option<String>)
    ensures
        (match r {
            Some(t) => Some(t@),
            None => None,
        }) == field_text(fields_view(fields@), name@),
{
    let ghost fv = fields_view(fields@);
    let mut i: usize = 0;
    assert(fv.skip(0) =~= fv);
    while i < fields.len()
        invariant
            i <= fields@.len(),
            fv == fields_view(fields@),
            field_text(fv, name@) == field_text(fv.skip(i as int), name@),
        decreases fields@.len() - i,
    {
        assert(fv.skip(i as int).drop_first() =~= fv.skip(i + 1));
        assert(fv.skip(i as int)[0] == fv[i as int]);
        if str_eq(fields[i].0.as_str(), name) {
            return match &fields[i].1 {
                Some(t) => Some(t.clone()),
                None => None,
            };
        }
        i += 1;
    }
    None
}

fn unit_field_list(scope: Scope) -> (r: Vec<&'static str>)
    ensures
        r@.map_values(|s: &str| s@) == unit_field_names(scope),
{
    let v: Vec<&'static str> = match scope {
        Scope::System => vec![
            "_SYSTEMD_UNIT",
            "UNIT",
            "USER_UNIT",
            "OBJECT_SYSTEMD_UNIT",
            "COREDUMP_UNIT",
            "COREDUMP_USER_UNIT",
            "_SYSTEMD_USER_UNIT",
        ],
        Scope::User => vec![
            "_SYSTEMD_USER_UNIT",
            "USER_UNIT",
            "UNIT",
            "OBJECT_SYSTEMD_USER_UNIT",
            "OBJECT_SYSTEMD_UNIT",
            "COREDUMP_USER_UNIT",
            "COREDUMP_UNIT",
            "_SYSTEMD_UNIT",
        ],
    };
    assert(v@.map_values(|s: &str| s@) =~= unit_field_names(scope));
    v
}

fn unit_of_record(scope: Scope, fields: &Vec<(String, Option<String>)>) -> (r: Option<String>)
    ensures
        (match r {
            Some(t) => Some(t@),
            None => None,
        }) == record_unit(scope, fields_view(fields@)),
{
    let names = unit_field_list(scope);
    let ghost nv = names@.map_values(|s: &str| s@);
    let ghost fv = fields_view(fields@);
    let mut i: usize = 0;
    assert(nv.skip(0) =~= nv);
    while i < names.len()
        invariant
            i <= names@.len(),
            nv == names@.map_values(|s: &str| s@),
            nv == unit_field_names(scope),
            fv == fields_view(fields@),
            record_unit(scope, fv) == first_field(fv, nv.skip(i as int)),
        decreases names@.len() - i,
    {
        assert(nv.skip(i as int).drop_first() =~= nv.skip(i + 1));
        assert(nv.skip(i as int)[0] == names@[i as int]@);
        match field_value(fields, names[i]) {
            Some(u) => {
                return Some(u);
            },
            None => {},
        }
        i += 1;
    }
    None
}

fn is_wanted(wanted: &Vec<String>, unit: &str) -> (r: bool)
    ensures
        r == views(wanted@).contains(unit@),
{
    let mut i: usize = 0;
    while i < wanted.len()
        invariant
            i <= wanted@.len(),
            forall|j: int| 0 <= j < i ==> wanted@[j]@ != unit@,
        decreases wanted@.len() - i,
    {
        if str_eq(wanted[i].as_str(), unit) {
            assert(views(wanted@)[i as int] == unit@);
            return true;
        }
        i += 1;
    }
    assert forall|j: int| 0 <= j < views(wanted@).len() implies views(wanted@)[j] != unit@ by {
        assert(views(wanted@)[j] == wanted@[j]@);
    }
    false
}

/// Whether `found` has an entry for `unit`.
pub fn has_unit_key(found: &Vec<(String, String)>, unit: &str) -> (r: bool)
    ensures
        r == has_key(pairs_view(found@), unit@),
{
    let mut i: usize = 0;
    while i < found.len()
        invariant
            i <= found@.len(),
            forall|j: int| 0 <= j < i ==> found@[j].0@ != unit@,
        decreases found@.len() - i,
    {
        if str_eq(found[i].0.as_str(), unit) {
            assert(pairs_view(found@)[i as int].0 == unit@);
            return true;
        }
        i += 1;
    }
    assert forall|j: int| 0 <= j < pairs_view(found@).len() implies pairs_view(found@)[j].0
        != unit@ by {
        assert(pairs_view(found@)[j].0 == found@[j].0@);
    }
    false
}

/// Read one journal JSON line into `latest`: its message is recorded for its
/// unit when the unit is wanted, has no message yet, and the message is not
/// blank once trimmed. Lines that are not JSON objects, or name no unit, are
/// skipped.
pub fn absorb_latest_log_line(
    scope: Scope,
    line: &str,
    wanted: &Vec<String>,
    latest: &mut Vec<(String, String)>,
)
    ensures
        pairs_view(final(latest)@) == absorb_line(scope, line@, views(wanted@), pairs_view(old(latest)@)),
{
    let fields = match json_object_fields(line) {
        Some(f) => f,
        None => {
            return ;
        },
    };
    let unit = match unit_of_record(scope, &fields) {
        Some(u) => u,
        None => {
            return ;
        },
    };
    if !is_wanted(wanted, unit.as_str()) || has_unit_key(latest, unit.as_str()) {
        return ;
    }
    let message = match field_value(&fields, "MESSAGE") {
        Some(m) => trim(m.as_str()),
        None => String::new(),
    };
    if message.as_str().is_empty() {
        return ;
    }
    latest.push((unit, message));
    assert(pairs_view(latest@) =~= pairs_view(old(latest)@).push((unit@, message@)));
}

/// The latest message of each wanted unit among at most `max_lines` lines of
/// `journalctl -o json` output, newest first. Reading stops as soon as
/// every wanted unit has a message.
pub fn parse_latest_logs_lines(
    scope: Scope,
    lines: &Vec<String>,
    wanted: &Vec<String>,
    max_lines: usize,
) -> (r: Vec<(String, String)>)
    ensures
        pairs_view(r@) == latest_logs(
            scope,
            views(lines@),
            views(wanted@),
            if max_lines < lines@.len() {
                max_lines as nat
            } else {
                lines@.len()
            },
        ),
{
    let n = if max_lines < lines.len() {
        max_lines
    } else {
        lines.len()
    };
    let mut latest: Vec<(String, String)> = Vec::new();
    let mut i: usize = 0;
    assert(pairs_view(latest@) =~= Seq::empty());
    while i < n
        invariant
            n <= lines@.len(),
            n == if max_lines < lines@.len() {
                max_lines as nat
            } else {
                lines@.len()
            },
            i <= n,
            pairs_view(latest@) == latest_logs(scope, views(lines@), views(wanted@), i as nat),
        decreases n - i,
    {
        if latest.len() == wanted.len() {
            proof {
                assert(pairs_view(latest@).len() == latest@.len());
                assert(views(wanted@).len() == wanted@.len());
                lemma_latest_logs_settled(scope, views(lines@), views(wanted@), i as nat, n as nat);
            }
            assert(latest_logs(scope, views(lines@), views(wanted@), n as nat) == pairs_view(latest@));
            return latest;
        }
        absorb_latest_log_line(scope, lines[i].as_str(), wanted, &mut latest);
        assert(views(lines@)[i as int] == lines@[i as int]@);
        i += 1;
    }
    latest
}

/// The latest message of each wanted unit in `journalctl -o json` output.
pub fn parse_latest_logs_from_journal_json(scope: Scope, output: &str, wanted: &Vec<String>) -> (r:
    Vec<(String, String)>)
    ensures
        pairs_view(r@) == latest_logs(scope, lines_of(output@), views(wanted@), lines_of(output@).len()),
{
    let lines = split_lines(output);
    assert(views(lines@) == lines_of(output@));
    parse_latest_logs_lines(scope, &lines, wanted, usize::MAX)
}

/// Arguments that read the newest message of one unit, text only.
pub fn last_line_args(scope: Scope, unit: &str) -> (r: Vec<String>)
    ensures
        views(r@) == seq![
            scope_flag(scope),
            "-u"@,
            unit@,
            "-n"@,
            "1"@,
            "--no-pager"@,
            "-o"@,
            "cat"@,
        ],
{
    let mut v: Vec<String> = Vec::new();
    v.push(String::from_str(scope.as_systemd_arg()));
    v.push(String::from_str("-u"));
    v.push(String::from_str(unit));
    v.push(String::from_str("-n"));
    v.push(String::from_str("1"));
    v.push(String::from_str("--no-pager"));
    v.push(String::from_str("-o"));
    v.push(String::from_str("cat"));
    assert(views(v@) =~= seq![
        scope_flag(scope),
        "-u"@,
        unit@,
        "-n"@,
        "1"@,
        "--no-pager"@,
        "-o"@,
        "cat"@,
    ]);
    v
}

/// Arguments that read the last `max_lines` lines of one unit, newest
/// first, each with its timestamp.
pub fn detail_log_args(scope: Scope, unit: &str, max_lines: usize) -> (r: Vec<String>)
    ensures
        views(r@) == seq![
            scope_flag(scope),
            "-u"@,
            unit@,
            "-n"@,
            decimal_chars(max_lines as nat),
            "--no-pager"@,
            "-o"@,
            "short-iso"@,
            "-r"@,
        ],
{
    let mut v: Vec<String> = Vec::new();
    v.push(String::from_str(scope.as_systemd_arg()));
    v.push(String::from_str("-u"));
    v.push(String::from_str(unit));
    v.push(String::from_str("-n"));
    v.push(decimal(max_lines));
    v.push(String::from_str("--no-pager"));
    v.push(String::from_str("-o"));
    v.push(String::from_str("short-iso"));
    v.push(String::from_str("-r"));
    assert(views(v@) =~= seq![
        scope_flag(scope),
        "-u"@,
        unit@,
        "-n"@,
        decimal_chars(max_lines as nat),
        "--no-pager"@,
        "-o"@,
        "short-iso"@,
        "-r"@,
    ]);
    v
}

/// `-u <unit>` for each unit, in order.
pub open spec fn unit_matches(units: Seq<Seq<char>>) -> Seq<Seq<char>>
    decreases units.len(),
{
    if units.len() == 0 {
        Seq::empty()
    } else {
        unit_matches(units.drop_last()) + seq!["-u"@, units.last()]
    }
}

/// Arguments of one batched query: the newest `budget` JSON records of all
/// `units`, newest first. Each unit gets its own `-u` so that the journal's
/// own matching, including entries the manager wrote about the unit, applies.
pub fn batch_query_args(scope: Scope, units: &Vec<String>, budget: usize) -> (r: Vec<String>)
    ensures
        views(r@) == seq![
            scope_flag(scope),
            "--no-pager"@,
            "-o"@,
            "json"@,
            "-r"@,
            "-n"@,
            decimal_chars(budget as nat),
        ] + unit_matches(views(units@)),
{
    let mut v: Vec<String> = Vec::new();
    v.push(String::from_str(scope.as_systemd_arg()));
    v.push(String::from_str("--no-pager"));
    v.push(String::from_str("-o"));
    v.push(String::from_str("json"));
    v.push(String::from_str("-r"));
    v.push(String::from_str("-n"));
    v.push(decimal(budget));
    let ghost head = seq![
        scope_flag(scope),
        "--no-pager"@,
        "-o"@,
        "json"@,
        "-r"@,
        "-n"@,
        decimal_chars(budget as nat),
    ];
    assert(views(v@) =~= head + unit_matches(views(units@).take(0)));
    let mut i: usize = 0;
    while i < units.len()
        invariant
            i <= units@.len(),
            views(v@) == head + unit_matches(views(units@).take(i as int)),
        decreases units@.len() - i,
    {
        let ghost prev = views(v@);
        v.push(String::from_str("-u"));
        v.push(units[i].clone());
        assert(views(v@) =~= prev + seq!["-u"@, units@[i as int]@]);
        assert(views(units@).take(i + 1).drop_last() =~= views(units@).take(i as int));
        assert(views(units@).take(i + 1).last() == units@[i as int]@);
        assert(views(v@) =~= head + unit_matches(views(units@).take(i + 1)));
        i += 1;
    }
    assert(views(units@).take(units@.len() as int) =~= views(units@));
    v
}

/// The characters of `t` before its first space (all of `t` if it has none).
pub open spec fn before_space(t: Seq<char>) -> Seq<char>
    decreases t.len(),
{
    if t.len() == 0 || t[0] == ' ' {
        Seq::empty()
    } else {
        seq![t[0]] + before_space(t.drop_first())
    }
}

proof fn lemma_before_space(t: Seq<char>, i: int)
    requires
        0 <= i < t.len(),
        t[i] == ' ',
        !t.take(i).contains(' '),
    ensures
        before_space(t) == t.take(i),
    decreases i,
{
    if i > 0 {
        assert(t.take(i)[0] == t[0]);
        assert(t.drop_first().take(i - 1) =~= t.take(i).drop_first());
        if t.drop_first().take(i - 1).contains(' ') {
            let k = choose|k: int|
                0 <= k < t.drop_first().take(i - 1).len() && #[trigger] t.drop_first().take(i - 1)[k]
                    == ' ';
            assert(t.take(i)[k + 1] == ' ');
        }
        lemma_before_space(t.drop_first(), i - 1);
        assert(t.take(i) =~= seq![t[0]] + t.drop_first().take(i - 1));
    } else {
        assert(t.take(0) =~= Seq::<char>::empty());
    }
}

/// The `(time, text)` entry of one line of `journalctl -o short-iso`
/// output: the line is trimmed, blank lines give none, the leading token is
/// the timestamp, and a line with no space is all text with no timestamp.
pub open spec fn detail_entry(line: Seq<char>) -> Option<(Seq<char>, Seq<char>)> {
    let t = trim_chars(line);
    if t.len() == 0 {
        None
    } else if t.contains(' ') {
        Some((before_space(t), trim_start_chars(t.skip(before_space(t).len() as int + 1))))
    } else {
        Some((Seq::empty(), t))
    }
}

/// The entries of all lines, in order, blank lines left out.
pub open spec fn detail_entries(lines: Seq<Seq<char>>) -> Seq<(Seq<char>, Seq<char>)>
    decreases lines.len(),
{
    if lines.len() == 0 {
        Seq::empty()
    } else {
        let prev = detail_entries(lines.drop_last());
        match detail_entry(lines.last()) {
            Some(e) => prev.push(e),
            None => prev,
        }
    }
}

/// Views of detail entries.
pub open spec fn entries_view(v: Seq<DetailLogEntry>) -> Seq<(Seq<char>, Seq<char>)> {
    v.map_values(|e: DetailLogEntry| (e.time@, e.log@))
}

fn parse_detail_line(line: &str) -> (r: Option<DetailLogEntry>)
    ensures
        (match r {
            Some(e) => Some((e.time@, e.log@)),
            None => None,
        }) == detail_entry(line@),
{
    let t = trim(line);
    if t.as_str().is_empty() {
        return None;
    }
    match split_at_first_space(t.as_str()) {
        Some((time, rest)) => {
            proof {
                lemma_before_space(t@, time@.len() as int);
                assert(t@.contains(' '));
            }
            Some(DetailLogEntry { time, log: trim_start(rest.as_str()) })
        },
        None => Some(DetailLogEntry { time: String::new(), log: t }),
    }
}

/// Parse `journalctl -o short-iso` output into timestamped entries.
pub fn parse_journal_short_iso(output: &str) -> (r: Vec<DetailLogEntry>)
    ensures
        entries_view(r@) == detail_entries(lines_of(output@)),
{
    let lines = split_lines(output);
    let ghost lv = lines_of(output@);
    assert(views(lines@) == lv);
    let mut out: Vec<DetailLogEntry> = Vec::new();
    let mut i: usize = 0;
    assert(entries_view(out@) =~= detail_entries(lv.take(0)));
    while i < lines.len()
        invariant
            i <= lines@.len(),
            views(lines@) == lv,
            entries_view(out@) == detail_entries(lv.take(i as int)),
        decreases lines@.len() - i,
    {
        assert(lv.take(i + 1).drop_last() =~= lv.take(i as int));
        assert(lv[i as int] == lines@[i as int]@);
        match parse_detail_line(lines[i].as_str()) {
            Some(e) => {
                out.push(e);
                assert(entries_view(out@) =~= detail_entries(lv.take(i as int)).push(
                    (e.time@, e.log@),
                ));
            },
            None => {},
        }
        i += 1;
    }
    assert(lv.take(lines@.len() as int) =~= lv);
    out
}

} // verus!
