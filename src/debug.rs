//! Synthetic units for trying the interface without a service manager:
//! templates, their rows and log lines, prompts and action outcomes.

use vstd::prelude::*;

use vstd::string::*;

use crate::rows::{classify, dot_glyph, status_dot};
use crate::text::{decimal, decimal_chars, str_eq};
use crate::types::{
    ActionResolutionRequest, ConfirmationKind, ConfirmationState, DetailLogEntry, UnitAction,
    UnitRow,
};

verus! {

/// Most synthetic units listed.
pub const MAX_DEBUG_UNITS: usize = 21;

/// One synthetic unit.
#[derive(Debug, Clone, Copy)]
pub struct DebugUnitTemplate {
    /// Name part between `debug-` and `.service`.
    pub slug: &'static str,
    /// Load state.
    pub load: &'static str,
    /// Active state.
    pub active: &'static str,
    /// Sub-state.
    pub sub: &'static str,
    /// Description.
    pub description: &'static str,
    /// Log line shown in the list.
    pub preview: &'static str,
}

/// Every synthetic unit, in name order.
pub open spec fn debug_templates() -> Seq<DebugUnitTemplate> {
    seq![
        DebugUnitTemplate {
            slug: "api-gateway",
            load: "loaded",
            active: "active",
            sub: "running",
            description: "Synthetic API gateway with healthy steady-state status",
            preview: "Accepted synthetic health probe from 10.0.0.17",
        },
        DebugUnitTemplate {
            slug: "asset-compiler",
            load: "loaded",
            active: "active",
            sub: "exited",
            description: "One-shot asset compiler to exercise warm yellow states",
            preview: "Completed sprite atlas rebuild in 38ms",
        },
        DebugUnitTemplate {
            slug: "backup-primer",
            load: "loaded",
            active: "activating",
            sub: "start-pre",
            description: "Backup preparer paused in pre-start checks",
            preview: "Checking snapshot volume pressure before activation",
        },
        DebugUnitTemplate {
            slug: "cache-warmer",
            load: "loaded",
            active: "reloading",
            sub: "reload",
            description: "Cache warmer cycling through a synthetic live reload",
            preview: "Reloaded 42 texture manifests from debug seed",
        },
        DebugUnitTemplate {
            slug: "cleanup-runner",
            load: "loaded",
            active: "deactivating",
            sub: "stop-sigterm",
            description: "Graceful shutdown state for key handling checks",
            preview: "Stopping workers after synthetic quit request",
        },
        DebugUnitTemplate {
            slug: "cold-storage",
            load: "loaded",
            active: "inactive",
            sub: "dead",
            description: "Idle cold-storage worker rendered in gray",
            preview: "No queued restores in the last debug interval",
        },
        DebugUnitTemplate {
            slug: "crash-loop",
            load: "loaded",
            active: "failed",
            sub: "failed",
            description: "Failing unit for saturated red error states",
            preview: "Exited with status=1 after synthetic panic path",
        },
        DebugUnitTemplate {
            slug: "db-migrate",
            load: "loaded",
            active: "activating",
            sub: "start-post",
            description: "Migration worker still in post-start staging",
            preview: "Waiting for synthetic schema lock release",
        },
        DebugUnitTemplate {
            slug: "desktop-sync",
            load: "stub",
            active: "maintenance",
            sub: "condition",
            description: "Condition-blocked user sync service to test blue states",
            preview: "ConditionPathExists failed for /tmp/debug-sync.token",
        },
        DebugUnitTemplate {
            slug: "edge-proxy",
            load: "masked",
            active: "inactive",
            sub: "dead",
            description: "Masked edge proxy with muted gray rows",
            preview: "Unit is masked for the current synthetic profile",
        },
        DebugUnitTemplate {
            slug: "event-fanout",
            load: "loaded",
            active: "refreshing",
            sub: "reload-notify",
            description: "Refreshing fanout worker with notify-based reloads",
            preview: "Broadcasting synthetic cache invalidation wave",
        },
        DebugUnitTemplate {
            slug: "ghost-printer",
            load: "not-found",
            active: "inactive",
            sub: "dead",
            description: "Missing printer backend to exercise not-found load states",
            preview: "Referenced unit file does not exist in this profile",
        },
        DebugUnitTemplate {
            slug: "metrics-rollup",
            load: "merged",
            active: "active",
            sub: "running",
            description: "Merged metrics rollup service for alternate load states",
            preview: "Merged counters from 6 synthetic shards",
        },
        DebugUnitTemplate {
            slug: "notification-drain",
            load: "bad-setting",
            active: "failed",
            sub: "auto-restart",
            description: "Broken configuration with restart churn",
            preview: "Restart backoff engaged after invalid debug endpoint",
        },
        DebugUnitTemplate {
            slug: "orphan-reconciler",
            load: "error",
            active: "maintenance",
            sub: "cleaning",
            description: "Loader error plus maintenance cleanup path",
            preview: "Cleaning temporary state left by synthetic fault injection",
        },
    ]
}

/// Every synthetic unit, in name order.
pub fn debug_unit_templates() -> (r: Vec<DebugUnitTemplate>)
    ensures
        r@ == debug_templates(),
{
    let v = vec![
        DebugUnitTemplate {
            slug: "api-gateway",
            load: "loaded",
            active: "active",
            sub: "running",
            description: "Synthetic API gateway with healthy steady-state status",
            preview: "Accepted synthetic health probe from 10.0.0.17",
        },
        DebugUnitTemplate {
            slug: "asset-compiler",
            load: "loaded",
            active: "active",
            sub: "exited",
            description: "One-shot asset compiler to exercise warm yellow states",
            preview: "Completed sprite atlas rebuild in 38ms",
        },
        DebugUnitTemplate {
            slug: "backup-primer",
            load: "loaded",
            active: "activating",
            sub: "start-pre",
            description: "Backup preparer paused in pre-start checks",
            preview: "Checking snapshot volume pressure before activation",
        },
        DebugUnitTemplate {
            slug: "cache-warmer",
            load: "loaded",
            active: "reloading",
            sub: "reload",
            description: "Cache warmer cycling through a synthetic live reload",
            preview: "Reloaded 42 texture manifests from debug seed",
        },
        DebugUnitTemplate {
            slug: "cleanup-runner",
            load: "loaded",
            active: "deactivating",
            sub: "stop-sigterm",
            description: "Graceful shutdown state for key handling checks",
            preview: "Stopping workers after synthetic quit request",
        },
        DebugUnitTemplate {
            slug: "cold-storage",
            load: "loaded",
            active: "inactive",
            sub: "dead",
            description: "Idle cold-storage worker rendered in gray",
            preview: "No queued restores in the last debug interval",
        },
        DebugUnitTemplate {
            slug: "crash-loop",
            load: "loaded",
            active: "failed",
            sub: "failed",
            description: "Failing unit for saturated red error states",
            preview: "Exited with status=1 after synthetic panic path",
        },
        DebugUnitTemplate {
            slug: "db-migrate",
            load: "loaded",
            active: "activating",
            sub: "start-post",
            description: "Migration worker still in post-start staging",
            preview: "Waiting for synthetic schema lock release",
        },
        DebugUnitTemplate {
            slug: "desktop-sync",
            load: "stub",
            active: "maintenance",
            sub: "condition",
            description: "Condition-blocked user sync service to test blue states",
            preview: "ConditionPathExists failed for /tmp/debug-sync.token",
        },
        DebugUnitTemplate {
            slug: "edge-proxy",
            load: "masked",
            active: "inactive",
            sub: "dead",
            description: "Masked edge proxy with muted gray rows",
            preview: "Unit is masked for the current synthetic profile",
        },
        DebugUnitTemplate {
            slug: "event-fanout",
            load: "loaded",
            active: "refreshing",
            sub: "reload-notify",
            description: "Refreshing fanout worker with notify-based reloads",
            preview: "Broadcasting synthetic cache invalidation wave",
        },
        DebugUnitTemplate {
            slug: "ghost-printer",
            load: "not-found",
            active: "inactive",
            sub: "dead",
            description: "Missing printer backend to exercise not-found load states",
            preview: "Referenced unit file does not exist in this profile",
        },
        DebugUnitTemplate {
            slug: "metrics-rollup",
            load: "merged",
            active: "active",
            sub: "running",
            description: "Merged metrics rollup service for alternate load states",
            preview: "Merged counters from 6 synthetic shards",
        },
        DebugUnitTemplate {
            slug: "notification-drain",
            load: "bad-setting",
            active: "failed",
            sub: "auto-restart",
            description: "Broken configuration with restart churn",
            preview: "Restart backoff engaged after invalid debug endpoint",
        },
        DebugUnitTemplate {
            slug: "orphan-reconciler",
            load: "error",
            active: "maintenance",
            sub: "cleaning",
            description: "Loader error plus maintenance cleanup path",
            preview: "Cleaning temporary state left by synthetic fault injection",
        },
    ];
    assert(v@ =~= debug_templates());
    v
}

/// Full unit name of a template: `debug-<slug>.service`.
pub open spec fn debug_name(t: DebugUnitTemplate) -> Seq<char> {
    "debug-"@ + t.slug@ + ".service"@
}

/// Full unit name of a template.
pub fn debug_unit_name(template: DebugUnitTemplate) -> (r: String)
    ensures
        r@ == debug_name(template),
{
    let mut s = String::from_str("debug-");
    s.append(template.slug);
    s.append(".service");
    s
}

/// The first template named `unit`, if any.
pub fn template_for_unit(unit: &str) -> (r: Option<DebugUnitTemplate>)
    ensures
        r matches Some(t) ==> exists|i: int|
            0 <= i < debug_templates().len() && #[trigger] debug_templates()[i] == t && debug_name(t)
                == unit@ && forall|j: int|
                0 <= j < i ==> debug_name(#[trigger] debug_templates()[j]) != unit@,
        r is None ==> forall|i: int|
            0 <= i < debug_templates().len() ==> debug_name(#[trigger] debug_templates()[i])
                != unit@,
{
    let all = debug_unit_templates();
    let mut i: usize = 0;
    while i < all.len()
        invariant
            i <= all@.len(),
            all@ == debug_templates(),
            forall|j: int| 0 <= j < i ==> debug_name(#[trigger] debug_templates()[j]) != unit@,
        decreases all@.len() - i,
    {
        let name = debug_unit_name(all[i]);
        if str_eq(name.as_str(), unit) {
            return Some(all[i]);
        }
        i += 1;
    }
    None
}

/// Active states of a synthetic unit that count as enabled.
pub open spec fn debug_enabled_state(active: Seq<char>) -> bool {
    active == "active"@ || active == "activating"@ || active == "deactivating"@ || active
        == "reloading"@ || active == "refreshing"@
}

/// The enable/disable action a synthetic unit offers: disable while it
/// runs, enable otherwise.
pub fn debug_enable_disable_action(template: DebugUnitTemplate) -> (r: UnitAction)
    ensures
        r == if debug_enabled_state(template.active@) {
            UnitAction::Disable
        } else {
            UnitAction::Enable
        },
{
    let a = template.active;
    if str_eq(a, "active") || str_eq(a, "activating") || str_eq(a, "deactivating") || str_eq(
        a,
        "reloading",
    ) || str_eq(a, "refreshing") {
        UnitAction::Disable
    } else {
        UnitAction::Enable
    }
}

/// Load states of a synthetic unit that have no unit file to enable.
pub open spec fn debug_fileless_state(load: Seq<char>) -> bool {
    load == "masked"@ || load == "not-found"@ || load == "error"@ || load == "merged"@ || load
        == "bad-setting"@ || load == "stub"@
}

/// The prompt for a request on a synthetic unit: restart-or-stop while it
/// runs, else start; disable or enable unless it has no unit file. An
/// unknown unit is an error.
pub fn resolve_debug_action_confirmation(request: ActionResolutionRequest) -> (r: Result<
    ConfirmationState,
    String,
>)
    ensures
        ({
            let u = match request {
                ActionResolutionRequest::StartStop { unit } => unit,
                ActionResolutionRequest::EnableDisable { unit } => unit,
            };
            let known = exists|i: int|
                0 <= i < debug_templates().len() && debug_name(#[trigger] debug_templates()[i])
                    == u@;
            &&& !known ==> (r matches Err(m) && m@ == "unknown debug unit"@)
            &&& r matches Ok(c) ==> c.unit == u && known
        }),
        request is StartStop && r is Ok ==> exists|t: DebugUnitTemplate|
            debug_name(t) == request->StartStop_unit@ && (r->Ok_0).kind == if crate::systemd::running_state(
                t.active@,
            ) {
                ConfirmationKind::RestartOrStop
            } else {
                ConfirmationKind::ConfirmAction(UnitAction::Start)
            },
        request is EnableDisable && r is Ok ==> exists|t: DebugUnitTemplate|
            debug_name(t) == request->EnableDisable_unit@ && !debug_fileless_state(t.load@) && (
            r->Ok_0).kind == ConfirmationKind::ConfirmAction(
                if debug_enabled_state(t.active@) {
                    UnitAction::Disable
                } else {
                    UnitAction::Enable
                },
            ),
{
    match request {
        ActionResolutionRequest::StartStop { unit } => {
            let template = match template_for_unit(unit.as_str()) {
                Some(t) => t,
                None => {
                    return Err(String::from_str("unknown debug unit"));
                },
            };
            let a = template.active;
            if str_eq(a, "active") || str_eq(a, "activating") || str_eq(a, "deactivating")
                || str_eq(a, "reloading") {
                Ok(ConfirmationState::restart_or_stop(unit))
            } else {
                Ok(ConfirmationState::confirm_action(UnitAction::Start, unit))
            }
        },
        ActionResolutionRequest::EnableDisable { unit } => {
            let template = match template_for_unit(unit.as_str()) {
                Some(t) => t,
                None => {
                    return Err(String::from_str("unknown debug unit"));
                },
            };
            let l = template.load;
            if str_eq(l, "masked") || str_eq(l, "not-found") || str_eq(l, "error") || str_eq(
                l,
                "merged",
            ) || str_eq(l, "bad-setting") || str_eq(l, "stub") {
                let mut m = String::from_str("unit file state '");
                m.append(l);
                m.append("' does not support enable/disable");
                Err(m)
            } else {
                Ok(ConfirmationState::confirm_action(debug_enable_disable_action(template), unit))
            }
        },
    }
}

/// One step of the linear congruential generator that drives the synthetic
/// data.
pub open spec fn lcg_step(s: u64) -> u64 {
    s.wrapping_mul(6364136223846793005).wrapping_add(1442695040888963407)
}

/// Advance the generator and return its new state.
pub fn next_random(state: &mut u64) -> (r: u64)
    ensures
        *final(state) == lcg_step(*old(state)),
        r == *final(state),
{
    *state = state.wrapping_mul(6364136223846793005).wrapping_add(1442695040888963407);
    *state
}

/// Shuffle `items` in place with the generator (Fisher-Yates, from the
/// back); every item stays, in some order.
pub fn shuffle(items: &mut Vec<DebugUnitTemplate>, state: &mut u64)
    ensures
        final(items)@.to_multiset() == old(items)@.to_multiset(),
{
    let n = items.len();
    let mut idx: usize = n;
    while idx > 1
        invariant
            items@.len() == n,
            idx <= n,
            items@.to_multiset() == old(items)@.to_multiset(),
        decreases idx,
    {
        idx -= 1;
        let r = next_random(state);
        let swap_idx = (r % ((idx + 1) as u64)) as usize;
        let a = items[idx];
        let b = items[swap_idx];
        let ghost before = items@;
        items[idx] = b;
        items[swap_idx] = a;
        proof {
            assert(items@ =~= before.update(idx as int, b).update(swap_idx as int, a));
            lemma_swap_multiset(before, idx as int, swap_idx as int);
        }
    }
}

proof fn lemma_swap_multiset(s: Seq<DebugUnitTemplate>, i: int, j: int)
    requires
        0 <= i < s.len(),
        0 <= j < s.len(),
    ensures
        s.update(i, s[j]).update(j, s[i]).to_multiset() == s.to_multiset(),
{
    broadcast use vstd::multiset::group_multiset_properties;
    broadcast use vstd::seq_lib::group_to_multiset_ensures;

    let t = s.update(i, s[j]);
    vstd::seq_lib::to_multiset_update(s, i, s[j]);
    vstd::seq_lib::to_multiset_update(t, j, s[i]);
    assert(t[j] == s[j]);
    let m = s.to_multiset();
    assert(s.contains(s[i]));
    assert(s.contains(s[j]));
    assert(m.count(s[i]) > 0);
    assert(m.count(s[j]) > 0);
    let u = m.insert(s[j]).remove(s[i]).insert(s[i]).remove(s[j]);
    assert forall|x: DebugUnitTemplate| #[trigger] u.count(x) == m.count(x) by {}
    assert(u =~= m);
}

/// `n` in decimal, at least two digits wide.
pub open spec fn pad2(n: nat) -> Seq<char> {
    if n < 10 {
        "0"@ + decimal_chars(n)
    } else {
        decimal_chars(n)
    }
}

fn two_digits(n: usize) -> (r: String)
    ensures
        r@ == pad2(n as nat),
{
    let d = decimal(n);
    if n < 10 {
        let mut s = String::from_str("0");
        s.append(d.as_str());
        s
    } else {
        d
    }
}

/// The generator's state after `k` steps from `s`.
pub open spec fn lcg_nth(s: u64, k: nat) -> u64
    decreases k,
{
    if k == 0 {
        s
    } else {
        lcg_step(lcg_nth(s, (k - 1) as nat))
    }
}

/// The seed of a unit's synthetic detail lines: a hash of its name's bytes.
pub open spec fn byte_hash(b: Seq<u8>) -> u64
    decreases b.len(),
{
    if b.len() == 0 {
        0
    } else {
        byte_hash(b.drop_last()).wrapping_mul(131).wrapping_add(b.last() as u64)
    }
}

/// `h`, or 1 when it is 0: the generator never starts from 0.
pub open spec fn nonzero(h: u64) -> u64 {
    if h == 0 {
        1
    } else {
        h
    }
}

/// The template a detail view of `unit` draws from: its own, else the first.
pub open spec fn detail_template(unit: Seq<char>) -> DebugUnitTemplate {
    if exists|i: int|
        0 <= i < debug_templates().len() && debug_name(#[trigger] debug_templates()[i]) == unit {
        let i = choose|i: int|
            0 <= i < debug_templates().len() && debug_name(#[trigger] debug_templates()[i]) == unit
                && forall|j: int|
                0 <= j < i ==> debug_name(#[trigger] debug_templates()[j]) != unit;
        debug_templates()[i]
    } else {
        debug_templates()[0]
    }
}

/// Synthetic detail line `i` of a unit whose template is `t`, drawn with
/// generator state `s`.
pub open spec fn detail_line(t: DebugUnitTemplate, i: nat, s: u64) -> (Seq<char>, Seq<char>) {
    (
        "2026-02-27 12:"@ + pad2(i) + ":"@ + pad2(10 + (s % 50) as nat),
        t.preview@ + " | synthetic detail "@ + pad2(i + 1) + " | load="@ + t.load@ + " active="@
            + t.active@ + " sub="@ + t.sub@,
    )
}

/// Twelve synthetic detail lines for a unit, timed within one hour.
pub fn build_detail_logs(unit: &str) -> (r: Vec<DetailLogEntry>)
    ensures
        r@.len() == 12,
        forall|i: int|
            0 <= i < 12 ==> ((#[trigger] r@[i]).time@, r@[i].log@) == detail_line(
                detail_template(unit@),
                i as nat,
                lcg_nth(nonzero(byte_hash(unit.spec_bytes())), (i + 1) as nat),
            ),
{
    let template = match template_for_unit(unit) {
        Some(t) => t,
        None => debug_unit_templates()[0],
    };
    proof {
        if exists|i: int|
            0 <= i < debug_templates().len() && debug_name(#[trigger] debug_templates()[i])
                == unit@ {
            let i = choose|i: int|
                0 <= i < debug_templates().len() && debug_name(#[trigger] debug_templates()[i])
                    == unit@ && forall|j: int|
                    0 <= j < i ==> debug_name(#[trigger] debug_templates()[j]) != unit@;
            let k = choose|k: int|
                0 <= k < debug_templates().len() && #[trigger] debug_templates()[k] == template
                    && debug_name(template) == unit@ && forall|j: int|
                    0 <= j < k ==> debug_name(#[trigger] debug_templates()[j]) != unit@;
            assert(i == k);
        }
    }
    let bytes = unit.as_bytes();
    let mut h: u64 = 0;
    let mut b: usize = 0;
    assert(bytes@.take(0) =~= Seq::<u8>::empty());
    while b < bytes.len()
        invariant
            b <= bytes@.len(),
            bytes@ == unit.spec_bytes(),
            h == byte_hash(bytes@.take(b as int)),
        decreases bytes@.len() - b,
    {
        assert(bytes@.take(b + 1).drop_last() =~= bytes@.take(b as int));
        h = h.wrapping_mul(131).wrapping_add(bytes[b] as u64);
        b += 1;
    }
    assert(bytes@.take(bytes@.len() as int) =~= bytes@);
    let mut state: u64 = if h == 0 {
        1
    } else {
        h
    };
    let ghost seed = state;
    let mut out: Vec<DetailLogEntry> = Vec::new();
    let mut i: usize = 0;
    while i < 12
        invariant
            i <= 12,
            out@.len() == i,
            state == lcg_nth(seed, i as nat),
            seed == nonzero(byte_hash(unit.spec_bytes())),
            template == detail_template(unit@),
            forall|k: int|
                0 <= k < i ==> ((#[trigger] out@[k]).time@, out@[k].log@) == detail_line(
                    template,
                    k as nat,
                    lcg_nth(seed, (k + 1) as nat),
                ),
        decreases 12 - i,
    {
        let s = next_random(&mut state);
        let jitter = (s % 50) as usize;
        let mut time = String::from_str("2026-02-27 12:");
        let m = two_digits(i);
        time.append(m.as_str());
        time.append(":");
        let sec = two_digits(10 + jitter);
        time.append(sec.as_str());
        let mut log = String::from_str(template.preview);
        log.append(" | synthetic detail ");
        let n = two_digits(i + 1);
        log.append(n.as_str());
        log.append(" | load=");
        log.append(template.load);
        log.append(" active=");
        log.append(template.active);
        log.append(" sub=");
        log.append(template.sub);
        let ghost line = detail_line(template, i as nat, s);
        assert(time@ =~= line.0);
        assert(log@ =~= line.1);
        out.push(DetailLogEntry { time, log });
        i += 1;
    }
    out
}

/// The list-cell line of synthetic row `ordinal` (counted from 0).
pub fn debug_preview(row: &UnitRow, ordinal: usize) -> (r: String)
    requires
        ordinal < usize::MAX,
    ensures
        r@ == "#"@ + pad2((ordinal + 1) as nat) + " "@ + (match template_named(row.unit@) {
            Some(t) => t.preview@,
            None => Seq::empty(),
        }) + " | "@ + row.load@ + " / "@ + row.active@ + " / "@ + row.sub@,
{
    let mut s = String::from_str("#");
    let n = two_digits(ordinal + 1);
    s.append(n.as_str());
    s.append(" ");
    match template_for_unit(row.unit.as_str()) {
        Some(t) => {
            s.append(t.preview);
        },
        None => {},
    }
    s.append(" | ");
    s.append(row.load.as_str());
    s.append(" / ");
    s.append(row.active.as_str());
    s.append(" / ");
    s.append(row.sub.as_str());
    s
}

/// The first template named `unit`, if any.
pub open spec fn template_named(unit: Seq<char>) -> Option<DebugUnitTemplate> {
    if exists|i: int|
        0 <= i < debug_templates().len() && debug_name(#[trigger] debug_templates()[i]) == unit {
        Some(detail_template(unit))
    } else {
        None
    }
}

/// `r` is the row of template `t`, before any log line.
pub open spec fn row_of_template(r: UnitRow, t: DebugUnitTemplate) -> bool {
    &&& r.unit@ == debug_name(t)
    &&& r.load@ == t.load@
    &&& r.active@ == t.active@
    &&& r.sub@ == t.sub@
    &&& r.dot == dot_glyph()
    &&& r.status == classify(t.active@, t.sub@)
    &&& r.last_log@.len() == 0
}

/// `r` is the row of some synthetic unit.
pub open spec fn from_template(r: UnitRow) -> bool {
    exists|k: int|
        0 <= k < debug_templates().len() && row_of_template(r, #[trigger] debug_templates()[k])
}

/// Rows of the synthetic units in an order drawn from `seed`, each with a
/// numbered description.
pub fn build_debug_rows(seed: u64) -> (r: Vec<UnitRow>)
    ensures
        r@.len() == debug_templates().len(),
        forall|i: int| 0 <= i < r@.len() ==> from_template(#[trigger] r@[i]),
{
    let mut state: u64 = if seed == 0 {
        1
    } else {
        seed
    };
    let mut templates = debug_unit_templates();
    shuffle(&mut templates, &mut state);
    let n = if templates.len() < MAX_DEBUG_UNITS {
        templates.len()
    } else {
        MAX_DEBUG_UNITS
    };
    proof {
        broadcast use vstd::seq_lib::group_to_multiset_ensures;

        assert(templates@.len() == debug_templates().len()) by {
            assert(templates@.to_multiset().len() == debug_templates().to_multiset().len());
        }
    }
    let mut out: Vec<UnitRow> = Vec::new();
    let mut i: usize = 0;
    while i < n
        invariant
            i <= n <= templates@.len(),
            n == templates@.len(),
            templates@.to_multiset() == debug_templates().to_multiset(),
            out@.len() == i,
            forall|j: int| 0 <= j < i ==> from_template(#[trigger] out@[j]),
        decreases n - i,
    {
        let t = templates[i];
        proof {
            broadcast use vstd::seq_lib::group_to_multiset_ensures;

            assert(templates@[i as int] == t);
            assert(templates@.contains(t));
            assert(templates@.to_multiset().count(t) > 0);
            assert(debug_templates().to_multiset().count(t) > 0);
            assert(debug_templates().contains(t));
        }
        let (dot, status) = status_dot(t.active, t.sub);
        let variant = (next_random(&mut state) % 900) + 100;
        let mut description = String::from_str(t.description);
        description.append(" [");
        let v = decimal(variant as usize);
        description.append(v.as_str());
        description.append("]");
        out.push(
            UnitRow {
                dot,
                status,
                unit: debug_unit_name(t),
                load: String::from_str(t.load),
                active: String::from_str(t.active),
                sub: String::from_str(t.sub),
                description,
                last_log: String::new(),
            },
        );
        proof {
            let k = choose|k: int| 0 <= k < debug_templates().len() && debug_templates()[k] == t;
            assert(row_of_template(out@[i as int], debug_templates()[k]));
        }
        i += 1;
    }
    out
}

} // verus!
