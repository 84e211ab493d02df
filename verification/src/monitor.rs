//! Monitors as the device layer reports them, and the decisions taken on them:
//! finding a control, reading brightness as a percentage, choosing a monitor.

use vstd::prelude::*;

use crate::error::CtlError;
use crate::number::{decimal, decimal_string};
use crate::text::{
    ascii_lower, contains_ignore_ascii_case, eq_ignore_ascii_case, opt_str_view, seq_contains,
    seq_starts_with, starts_with, views,
};

verus! {

/// One VCP control of a monitor, as last read.
pub struct MonitorControl {
    /// The VCP code, in hexadecimal (brightness is `10`).
    pub code: String,
    /// The value read, if the read succeeded.
    pub current_value: Option<u16>,
    /// The largest value the monitor reported for the control.
    pub max_value: Option<u16>,
    /// Why the read failed, if it did.
    pub error: Option<String>,
}

/// A monitor with the controls read from it.
pub struct MonitorSnapshot {
    /// A stable identifier; DDC monitors have ids starting with `ddc:`.
    pub id: String,
    /// The name shown to people.
    pub label: String,
    /// The model name, when the monitor reports one.
    pub model_name: Option<String>,
    /// Whether the monitor answers control requests.
    pub supports_controls: bool,
    /// The controls read from the monitor.
    pub controls: Vec<MonitorControl>,
}

/// The VCP code of the brightness control.
pub open spec fn brightness_code() -> Seq<char> {
    "10"@
}

/// The control's code equals `code` up to ASCII case.
pub open spec fn code_matches(c: MonitorControl, code: Seq<char>) -> bool {
    ascii_lower(c.code@) == ascii_lower(code)
}

/// The first control in `controls` whose code equals `code` up to ASCII case.
pub open spec fn spec_find_control(controls: Seq<MonitorControl>, code: Seq<char>) -> Option<
    MonitorControl,
>
    decreases controls.len(),
{
    if controls.len() == 0 {
        None
    } else if code_matches(controls[0], code) {
        Some(controls[0])
    } else {
        spec_find_control(controls.drop_first(), code)
    }
}

/// The first control of `monitor` whose code equals `code` up to ASCII case.
pub fn find_control<'a>(monitor: &'a MonitorSnapshot, code: &str) -> (r: Option<&'a MonitorControl>)
    ensures
        match r {
            Some(c) => spec_find_control(monitor.controls@, code@) == Some(*c),
            None => spec_find_control(monitor.controls@, code@) is None,
        },
{
    let n = monitor.controls.len();
    let mut i: usize = 0;
    assert(monitor.controls@.subrange(0, n as int) =~= monitor.controls@);
    while i < n
        invariant
            n == monitor.controls@.len(),
            i <= n,
            spec_find_control(monitor.controls@, code@) == spec_find_control(
                monitor.controls@.subrange(i as int, n as int),
                code@,
            ),
        decreases n - i,
    {
        let ghost rest = monitor.controls@.subrange(i as int, n as int);
        assert(rest.drop_first() =~= monitor.controls@.subrange(i + 1, n as int));
        let control = &monitor.controls[i];
        if eq_ignore_ascii_case(control.code.as_str(), code) {
            return Some(control);
        }
        i = i + 1;
    }
    assert(monitor.controls@.subrange(n as int, n as int) =~= Seq::<MonitorControl>::empty());
    None
}

/// The smaller of `a` and `b`.
pub open spec fn min_int(a: int, b: int) -> int {
    if a <= b {
        a
    } else {
        b
    }
}

/// The brightness, in percent, of a control with these readings: `None` without a
/// current value; the value itself (at most 100) when the maximum is at most 100;
/// otherwise the value scaled to 0..=100 and rounded half up. A missing maximum
/// counts as 100 and a zero maximum as 1.
pub open spec fn spec_brightness_percent(current: Option<u16>, max_value: Option<u16>) -> Option<
    int,
> {
    match current {
        None => None,
        Some(cur) => {
            let reported: int = match max_value {
                Some(m) => m as int,
                None => 100,
            };
            let max: int = if reported < 1 {
                1
            } else {
                reported
            };
            if max <= 100 {
                Some(min_int(cur as int, 100))
            } else {
                Some(min_int((cur * 100 + max / 2) / max, 100))
            }
        },
    }
}

/// The brightness, in percent, that `control` reads.
pub fn brightness_percent(control: &MonitorControl) -> (r: Option<u16>)
    ensures
        match r {
            Some(p) => spec_brightness_percent(control.current_value, control.max_value) == Some(
                p as int,
            ),
            None => spec_brightness_percent(control.current_value, control.max_value) is None,
        },
        r matches Some(p) ==> p <= 100,
        control.current_value is Some ==> r is Some,
{
    let current = match control.current_value {
        Some(c) => c,
        None => {
            return None;
        },
    };
    let reported: u16 = match control.max_value {
        Some(m) => m,
        None => 100,
    };
    let max: u16 = if reported < 1 {
        1
    } else {
        reported
    };
    if max <= 100 {
        return Some(if current <= 100 {
            current
        } else {
            100
        });
    }
    let cur32: u32 = current as u32;
    let max32: u32 = max as u32;
    let normalized: u32 = (cur32 * 100 + max32 / 2) / max32;
    Some(
        if normalized <= 100 {
            normalized as u16
        } else {
            100
        },
    )
}

/// `r` is what reading the brightness of `monitor` gives: the percentage of its
/// control `10`; `NoBrightnessControl` without such a control; otherwise
/// `BrightnessUnavailable`, with the control's error or "no current value".
pub open spec fn reading(monitor: MonitorSnapshot, r: Result<u16, CtlError>) -> bool {
    match spec_find_control(monitor.controls@, brightness_code()) {
        None => r matches Err(CtlError::NoBrightnessControl(id)) && id@ == monitor.id@,
        Some(c) => match spec_brightness_percent(c.current_value, c.max_value) {
            Some(p) => r matches Ok(v) && v == p,
            None => r matches Err(CtlError::BrightnessUnavailable { id, reason }) && id@
                == monitor.id@ && reason@ == match c.error {
                Some(e) => e@,
                None => "no current value"@,
            },
        },
    }
}

/// The brightness of `monitor` in percent, read from its control `10`.
pub fn monitor_brightness_percent(monitor: &MonitorSnapshot) -> (r: Result<u16, CtlError>)
    ensures
        reading(*monitor, r),
        r matches Ok(v) ==> v <= 100,
{
    let control = match find_control(monitor, "10") {
        Some(c) => c,
        None => {
            return Err(CtlError::NoBrightnessControl(monitor.id.clone()));
        },
    };
    match brightness_percent(control) {
        Some(p) => Ok(p),
        None => {
            let reason = match &control.error {
                Some(e) => e.clone(),
                None => String::from_str("no current value"),
            };
            Err(CtlError::BrightnessUnavailable { id: monitor.id.clone(), reason })
        },
    }
}

/// `monitor` answers the query `q`: its id equals `q` up to ASCII case, or its
/// id, model name or label contains `q` up to ASCII case.
pub open spec fn monitor_matches(monitor: MonitorSnapshot, q: Seq<char>) -> bool {
    ||| ascii_lower(monitor.id@) == ascii_lower(q)
    ||| seq_contains(ascii_lower(monitor.id@), ascii_lower(q))
    ||| (monitor.model_name matches Some(model) && seq_contains(ascii_lower(model@), ascii_lower(q)))
    ||| seq_contains(ascii_lower(monitor.label@), ascii_lower(q))
}

/// The positions, in order, of the monitors among the first `n` that answer `q`.
pub open spec fn match_positions(monitors: Seq<MonitorSnapshot>, q: Seq<char>, n: int) -> Seq<int>
    decreases n,
{
    if n <= 0 {
        Seq::empty()
    } else if monitor_matches(monitors[n - 1], q) {
        match_positions(monitors, q, n - 1).push(n - 1)
    } else {
        match_positions(monitors, q, n - 1)
    }
}

/// The positions, in order, of all the monitors that answer `q`.
pub open spec fn matches_of(monitors: Seq<MonitorSnapshot>, q: Seq<char>) -> Seq<int> {
    match_positions(monitors, q, monitors.len() as int)
}

/// The ids of the monitors at `positions`.
pub open spec fn ids_at(monitors: Seq<MonitorSnapshot>, positions: Seq<int>) -> Seq<Seq<char>> {
    positions.map_values(|k: int| monitors[k].id@)
}

/// The monitor's id starts with `ddc:`.
pub open spec fn is_ddc(monitor: MonitorSnapshot) -> bool {
    seq_starts_with(monitor.id@, "ddc:"@)
}

/// A DDC monitor that answers control requests.
pub open spec fn is_controllable_ddc(monitor: MonitorSnapshot) -> bool {
    is_ddc(monitor) && monitor.supports_controls
}

/// The monitor picked when no query is given: the first controllable DDC
/// monitor, else the first DDC monitor, else the first monitor.
pub open spec fn default_choice(monitors: Seq<MonitorSnapshot>, i: int) -> bool {
    &&& 0 <= i < monitors.len()
    &&& (exists|k: int| 0 <= k < monitors.len() && is_controllable_ddc(#[trigger] monitors[k]))
        ==> is_controllable_ddc(monitors[i]) && forall|j: int|
        0 <= j < i ==> !is_controllable_ddc(#[trigger] monitors[j])
    &&& (!exists|k: int| 0 <= k < monitors.len() && is_controllable_ddc(#[trigger] monitors[k]))
        && (exists|k: int| 0 <= k < monitors.len() && is_ddc(#[trigger] monitors[k])) ==> is_ddc(
        monitors[i],
    ) && forall|j: int| 0 <= j < i ==> !is_ddc(#[trigger] monitors[j])
    &&& (!exists|k: int| 0 <= k < monitors.len() && is_ddc(#[trigger] monitors[k])) ==> i == 0
}

/// Whether `monitor` answers the query `q`.
fn matches_query(monitor: &MonitorSnapshot, q: &str) -> (r: bool)
    ensures
        r == monitor_matches(*monitor, q@),
{
    if eq_ignore_ascii_case(monitor.id.as_str(), q) {
        return true;
    }
    if contains_ignore_ascii_case(monitor.id.as_str(), q) {
        return true;
    }
    let in_model = match &monitor.model_name {
        Some(model) => contains_ignore_ascii_case(model.as_str(), q),
        None => false,
    };
    if in_model {
        return true;
    }
    contains_ignore_ascii_case(monitor.label.as_str(), q)
}

/// The first position whose monitor is a DDC monitor (that answers control
/// requests, when `need_controls`).
fn first_ddc(monitors: &Vec<MonitorSnapshot>, need_controls: bool) -> (r: Option<usize>)
    ensures
        match r {
            Some(i) => i < monitors@.len() && is_ddc(monitors@[i as int]) && (need_controls
                ==> monitors@[i as int].supports_controls) && forall|j: int|
                0 <= j < i ==> !(is_ddc(#[trigger] monitors@[j]) && (need_controls
                    ==> monitors@[j].supports_controls)),
            None => forall|j: int|
                0 <= j < monitors@.len() ==> !(is_ddc(#[trigger] monitors@[j]) && (need_controls
                    ==> monitors@[j].supports_controls)),
        },
{
    let n = monitors.len();
    let mut i: usize = 0;
    while i < n
        invariant
            n == monitors@.len(),
            i <= n,
            forall|j: int|
                0 <= j < i ==> !(is_ddc(#[trigger] monitors@[j]) && (need_controls
                    ==> monitors@[j].supports_controls)),
        decreases n - i,
    {
        let m = &monitors[i];
        if starts_with(m.id.as_str(), "ddc:") && (!need_controls || m.supports_controls) {
            return Some(i);
        }
        i = i + 1;
    }
    None
}

/// `r` is the outcome of choosing a monitor from `monitors` for `query`:
/// `NoMonitors` for an empty list; with a query, the position of the one
/// monitor that answers it, `NoMonitorMatched` when none does, and
/// `AmbiguousMonitor` with the ids of all that do when several do; without a
/// query, the default choice.
pub open spec fn selection(
    query: Option<Seq<char>>,
    monitors: Seq<MonitorSnapshot>,
    r: Result<usize, CtlError>,
) -> bool {
    &&& monitors.len() == 0 ==> (r matches Err(CtlError::NoMonitors))
    &&& monitors.len() > 0 ==> match query {
        Some(q) => {
            let found = matches_of(monitors, q);
            &&& found.len() == 0 ==> (r matches Err(CtlError::NoMonitorMatched(s)) && s@ == q)
            &&& found.len() == 1 ==> (r matches Ok(i) && i == found[0])
            &&& found.len() > 1 ==> (r matches Err(CtlError::AmbiguousMonitor { query: s, ids })
                && s@ == q && views(ids@) == ids_at(monitors, found))
        },
        None => (r matches Ok(i) && default_choice(monitors, i as int)),
    }
}

/// Chooses the monitor to act on, by position in `monitors`. With a query,
/// exactly one monitor must answer it; without one, the first controllable DDC
/// monitor is taken, else the first DDC monitor, else the first monitor.
pub fn select_monitor(query: Option<&str>, monitors: &Vec<MonitorSnapshot>) -> (r: Result<
    usize,
    CtlError,
>)
    ensures
        selection(opt_str_view(query), monitors@, r),
{
    let n = monitors.len();
    if n == 0 {
        return Err(CtlError::NoMonitors);
    }
    match query {
        Some(q) => {
            let mut positions: Vec<usize> = Vec::new();
            let mut ids: Vec<String> = Vec::new();
            let mut i: usize = 0;
            while i < n
                invariant
                    n == monitors@.len(),
                    i <= n,
                    positions@.len() == match_positions(monitors@, q@, i as int).len(),
                    forall|k: int|
                        0 <= k < positions@.len() ==> positions@[k] as int == #[trigger] match_positions(
                            monitors@,
                            q@,
                            i as int,
                        )[k],
                    views(ids@) == ids_at(monitors@, match_positions(monitors@, q@, i as int)),
                decreases n - i,
            {
                let ghost before = match_positions(monitors@, q@, i as int);
                let ghost ids_before = ids@;
                if matches_query(&monitors[i], q) {
                    positions.push(i);
                    ids.push(monitors[i].id.clone());
                    assert(match_positions(monitors@, q@, i + 1) == before.push(i as int));
                    assert(views(ids@) =~= views(ids_before).push(monitors@[i as int].id@));
                    assert(ids_at(monitors@, before.push(i as int)) =~= ids_at(monitors@, before).push(
                        monitors@[i as int].id@,
                    ));
                } else {
                    assert(match_positions(monitors@, q@, i + 1) == before);
                }
                i = i + 1;
            }
            if positions.len() == 0 {
                Err(CtlError::NoMonitorMatched(String::from_str(q)))
            } else if positions.len() == 1 {
                Ok(positions[0])
            } else {
                Err(CtlError::AmbiguousMonitor { query: String::from_str(q), ids })
            }
        },
        None => {
            match first_ddc(monitors, true) {
                Some(i) => Ok(i),
                None => match first_ddc(monitors, false) {
                    Some(i) => Ok(i),
                    None => Ok(0),
                },
            }
        },
    }
}

/// The brightness that `list` shows for a monitor, if it can show one.
pub open spec fn spec_listed_brightness(monitor: MonitorSnapshot) -> Option<int> {
    match spec_find_control(monitor.controls@, brightness_code()) {
        Some(c) => spec_brightness_percent(c.current_value, c.max_value),
        None => None,
    }
}

/// The brightness that `list` shows for `monitor`: that of its control `10`.
pub fn listed_brightness(monitor: &MonitorSnapshot) -> (r: Option<u16>)
    ensures
        match r {
            Some(p) => spec_listed_brightness(*monitor) == Some(p as int),
            None => spec_listed_brightness(*monitor) is None,
        },
{
    match find_control(monitor, "10") {
        Some(control) => brightness_percent(control),
        None => None,
    }
}

/// The line that `list` prints for a monitor: id, label and brightness,
/// separated by tabs; the brightness is `n/a` when it cannot be read.
pub open spec fn spec_list_line(monitor: MonitorSnapshot) -> Seq<char> {
    monitor.id@ + "\t"@ + monitor.label@ + "\tbrightness="@ + match spec_listed_brightness(
        monitor,
    ) {
        Some(p) => decimal(p as nat) + "%"@,
        None => "n/a"@,
    }
}

/// The line that `list` prints for `monitor`.
pub fn list_line(monitor: &MonitorSnapshot) -> (r: String)
    ensures
        r@ == spec_list_line(*monitor),
{
    let mut line = monitor.id.clone();
    line.append("\t");
    line.append(monitor.label.as_str());
    line.append("\tbrightness=");
    match listed_brightness(monitor) {
        Some(p) => {
            let digits = decimal_string(p);
            line.append(digits.as_str());
            line.append("%");
        },
        None => {
            line.append("n/a");
        },
    }
    line
}

/// The lines that `list` prints for `monitors`: one per monitor, in order, or a
/// single line saying there are none.
pub open spec fn spec_list_output(monitors: Seq<MonitorSnapshot>) -> Seq<Seq<char>> {
    if monitors.len() == 0 {
        seq!["No monitors found."@]
    } else {
        monitors.map_values(|m: MonitorSnapshot| spec_list_line(m))
    }
}

/// The lines that `list` prints for `monitors`.
pub fn list_output(monitors: &Vec<MonitorSnapshot>) -> (r: Vec<String>)
    ensures
        views(r@) == spec_list_output(monitors@),
{
    let mut lines: Vec<String> = Vec::new();
    let n = monitors.len();
    if n == 0 {
        lines.push(String::from_str("No monitors found."));
        assert(views(lines@) =~= spec_list_output(monitors@));
        return lines;
    }
    let mut i: usize = 0;
    while i < n
        invariant
            n == monitors@.len(),
            i <= n,
            views(lines@) == monitors@.subrange(0, i as int).map_values(
                |m: MonitorSnapshot| spec_list_line(m),
            ),
        decreases n - i,
    {
        let ghost before = lines@;
        lines.push(list_line(&monitors[i]));
        assert(views(lines@) =~= views(before).push(spec_list_line(monitors@[i as int])));
        assert(monitors@.subrange(0, i + 1).map_values(|m: MonitorSnapshot| spec_list_line(m))
            =~= monitors@.subrange(0, i as int).map_values(|m: MonitorSnapshot| spec_list_line(m)).push(
            spec_list_line(monitors@[i as int]),
        ));
        i = i + 1;
    }
    assert(monitors@.subrange(0, n as int) =~= monitors@);
    lines
}

/// The brightness reported after a change that asked for `target`: what the
/// updated monitor reads, or `target` when it cannot be read.
pub open spec fn spec_percent_after_update(updated: MonitorSnapshot, target: int) -> int {
    match spec_listed_brightness(updated) {
        Some(p) => p,
        None => target,
    }
}

/// The brightness to report after setting it to `target` on a monitor that now
/// reads as `updated`.
pub fn percent_after_update(updated: &MonitorSnapshot, target: u16) -> (r: u16)
    ensures
        r == spec_percent_after_update(*updated, target as int),
        target <= 100 ==> r <= 100,
{
    match monitor_brightness_percent(updated) {
        Ok(p) => p,
        Err(_) => target,
    }
}

/// A control found by code is the first control whose code equals the code up
/// to ASCII case; when none is found, no control's code does.
pub proof fn lemma_find_control_first(controls: Seq<MonitorControl>, code: Seq<char>)
    ensures
        match spec_find_control(controls, code) {
            Some(c) => exists|i: int|
                0 <= i < controls.len() && controls[i] == c && code_matches(c, code) && forall|j: int|
                    0 <= j < i ==> !code_matches(#[trigger] controls[j], code),
            None => forall|j: int| 0 <= j < controls.len() ==> !code_matches(#[trigger] controls[j], code),
        },
    decreases controls.len(),
{
    if controls.len() == 0 {
    } else if code_matches(controls[0], code) {
        assert(controls[0] == controls[0] && forall|j: int| 0 <= j < 0 ==> !code_matches(#[trigger] controls[j], code));
    } else {
        let rest = controls.drop_first();
        lemma_find_control_first(rest, code);
        match spec_find_control(rest, code) {
            Some(c) => {
                let i = choose|i: int|
                    0 <= i < rest.len() && rest[i] == c && code_matches(c, code) && forall|j: int|
                        0 <= j < i ==> !code_matches(#[trigger] rest[j], code);
                assert(controls[i + 1] == c);
                assert forall|j: int| 0 <= j < i + 1 implies !code_matches(#[trigger] controls[j], code) by {
                    if j > 0 {
                        assert(controls[j] == rest[j - 1]);
                    }
                }
            },
            None => {
                assert forall|j: int| 0 <= j < controls.len() implies !code_matches(#[trigger] controls[j], code) by {
                    if j > 0 {
                        assert(controls[j] == rest[j - 1]);
                    }
                }
            },
        }
    }
}

/// Every brightness reading lies between 0 and 100.
pub proof fn lemma_brightness_in_range(current: Option<u16>, max_value: Option<u16>)
    ensures
        spec_brightness_percent(current, max_value) matches Some(p) ==> 0 <= p <= 100,
{
    if let Some(cur) = current {
        let reported: int = match max_value {
            Some(m) => m as int,
            None => 100,
        };
        let max: int = if reported < 1 { 1 } else { reported };
        if max > 100 {
            assert((cur * 100 + max / 2) / max >= 0) by (nonlinear_arith)
                requires cur >= 0, max > 100;
        }
    }
}

/// The positions gathered among the first `n` monitors are increasing, lie
/// below `n`, and are exactly the matching ones.
proof fn lemma_match_positions(monitors: Seq<MonitorSnapshot>, q: Seq<char>, n: int)
    requires
        0 <= n <= monitors.len(),
    ensures
        forall|k: int|
            0 <= k < match_positions(monitors, q, n).len() ==> 0 <= #[trigger] match_positions(
                monitors,
                q,
                n,
            )[k] < n && monitor_matches(monitors[match_positions(monitors, q, n)[k]], q),
        forall|j: int|
            0 <= j < n && monitor_matches(monitors[j], q) ==> #[trigger] match_positions(
                monitors,
                q,
                n,
            ).contains(j),
    decreases n,
{
    if n > 0 {
        lemma_match_positions(monitors, q, n - 1);
        let before = match_positions(monitors, q, n - 1);
        if monitor_matches(monitors[n - 1], q) {
            let after = before.push(n - 1);
            assert forall|j: int| 0 <= j < n && monitor_matches(monitors[j], q) implies #[trigger] after.contains(j) by {
                if j < n - 1 {
                    assert(before.contains(j));
                    let k = choose|k: int| 0 <= k < before.len() && before[k] == j;
                    assert(after[k] == j);
                } else {
                    assert(after[before.len() as int] == j);
                }
            }
        }
    }
}

/// With a query, the monitor chosen is one that answers it, and no other
/// monitor answers it.
pub proof fn lemma_selected_monitor_matches(monitors: Seq<MonitorSnapshot>, q: Seq<char>)
    requires
        matches_of(monitors, q).len() == 1,
    ensures
        0 <= matches_of(monitors, q)[0] < monitors.len(),
        monitor_matches(monitors[matches_of(monitors, q)[0]], q),
        forall|j: int|
            0 <= j < monitors.len() && j != matches_of(monitors, q)[0] ==> !monitor_matches(
                #[trigger] monitors[j],
                q,
            ),
{
    let found = matches_of(monitors, q);
    lemma_match_positions(monitors, q, monitors.len() as int);
    assert(0 <= found[0] < monitors.len());
    assert forall|j: int| 0 <= j < monitors.len() && j != found[0] implies !monitor_matches(
        #[trigger] monitors[j],
        q,
    ) by {
        if monitor_matches(monitors[j], q) {
            assert(found.contains(j));
        }
    }
}

/// A monitor answers a query when its id equals it, or its id, its model name
/// or its label contains it, all up to ASCII case, and only then. The label
/// counts whether or not the monitor has a model name.
pub proof fn lemma_query_answers(m: MonitorSnapshot, q: Seq<char>)
    ensures
        ascii_lower(m.id@) == ascii_lower(q) ==> monitor_matches(m, q),
        seq_contains(ascii_lower(m.id@), ascii_lower(q)) ==> monitor_matches(m, q),
        (m.model_name matches Some(model) && seq_contains(ascii_lower(model@), ascii_lower(q)))
            ==> monitor_matches(m, q),
        seq_contains(ascii_lower(m.label@), ascii_lower(q)) ==> monitor_matches(m, q),
        monitor_matches(m, q) ==> {
            ||| ascii_lower(m.id@) == ascii_lower(q)
            ||| seq_contains(ascii_lower(m.id@), ascii_lower(q))
            ||| (m.model_name matches Some(model) && seq_contains(ascii_lower(model@), ascii_lower(q)))
            ||| seq_contains(ascii_lower(m.label@), ascii_lower(q))
        },
{
}

/// When the only monitor's id equals the query, or its id, model name or label
/// contains it (up to ASCII case), that monitor is chosen; otherwise no monitor
/// matches.
pub proof fn lemma_single_monitor_selection(m: MonitorSnapshot, q: Seq<char>, r: Result<usize, CtlError>)
    requires
        selection(Some(q), seq![m], r),
    ensures
        ({
            ||| ascii_lower(m.id@) == ascii_lower(q)
            ||| seq_contains(ascii_lower(m.id@), ascii_lower(q))
            ||| (m.model_name matches Some(model) && seq_contains(ascii_lower(model@), ascii_lower(q)))
            ||| seq_contains(ascii_lower(m.label@), ascii_lower(q))
        }) ==> (r matches Ok(i) && i == 0),
        !({
            ||| ascii_lower(m.id@) == ascii_lower(q)
            ||| seq_contains(ascii_lower(m.id@), ascii_lower(q))
            ||| (m.model_name matches Some(model) && seq_contains(ascii_lower(model@), ascii_lower(q)))
            ||| seq_contains(ascii_lower(m.label@), ascii_lower(q))
        }) ==> (r matches Err(CtlError::NoMonitorMatched(s)) && s@ == q),
{
    let ms = seq![m];
    assert(ms[0] == m);
    assert(match_positions(ms, q, 0) =~= Seq::<int>::empty());
    if monitor_matches(m, q) {
        assert(matches_of(ms, q) =~= seq![0int]);
    } else {
        assert(matches_of(ms, q) =~= Seq::<int>::empty());
    }
}

/// A control with a value always reads as a percentage. With a maximum of at
/// most 100 (or none) the percentage is the value, capped at 100; with a larger
/// maximum it is the value's share of the maximum, rounded half up: the
/// multiple of the maximum nearest to a hundred times the value, and 100 once the
/// value reaches the maximum. A value of 0 reads as 0. A control without a value
/// has no reading.
pub proof fn lemma_brightness_reading(current: Option<u16>, max_value: Option<u16>)
    ensures
        current is None ==> spec_brightness_percent(current, max_value) is None,
        current is Some ==> spec_brightness_percent(current, max_value) is Some,
        (current is Some && (max_value is None || max_value->0 <= 100)) ==> spec_brightness_percent(
            current,
            max_value,
        ) == Some(
            if current->0 <= 100 {
                current->0 as int
            } else {
                100
            },
        ),
        (current is Some && max_value is Some && max_value->0 > 100 && current->0 <= max_value->0)
            ==> (spec_brightness_percent(current, max_value) matches Some(p) && p * max_value->0
            <= current->0 * 100 + max_value->0 / 2 < (p + 1) * max_value->0),
        (current is Some && max_value is Some && max_value->0 > 100 && current->0 >= max_value->0)
            ==> spec_brightness_percent(current, max_value) == Some(100int),
        current == Some(0u16) ==> spec_brightness_percent(current, max_value) == Some(0int),
{
    if let Some(c) = current {
        if let Some(m) = max_value {
            if m > 100 {
                let x: int = c * 100 + m / 2;
                let d: int = m as int;
                let p0: int = x / d;
                vstd::arithmetic::div_mod::lemma_fundamental_div_mod(x, d);
                vstd::arithmetic::div_mod::lemma_mod_pos_bound(x, d);
                let r0: int = x % d;
                assert(x == d * p0 + r0);
                assert(0 <= r0 < d);
                if c <= m {
                    assert(p0 <= 100) by (nonlinear_arith)
                        requires
                            x == d * p0 + r0,
                            0 <= r0,
                            x <= d * 100 + d / 2,
                            d > 100,
                    ;
                    assert(p0 * d <= x < (p0 + 1) * d) by (nonlinear_arith)
                        requires
                            x == d * p0 + r0,
                            0 <= r0 < d,
                    ;
                }
                if c >= m {
                    assert(p0 >= 100) by (nonlinear_arith)
                        requires
                            x == d * p0 + r0,
                            r0 < d,
                            x >= d * 100,
                            d > 100,
                    ;
                }
                if c == 0 {
                    assert(p0 == 0) by (nonlinear_arith)
                        requires
                            x == d * p0 + r0,
                            0 <= r0 < d,
                            x == d / 2,
                            d > 100,
                    ;
                }
            }
        }
    }
}

/// The line `list` prints for a monitor shows the brightness that reading it
/// gives (`brightness get`), as a percentage, or `n/a` when the reading fails.
pub proof fn lemma_list_line_shows_reading(m: MonitorSnapshot, rd: Result<u16, CtlError>)
    requires
        reading(m, rd),
    ensures
        rd matches Ok(p) ==> spec_list_line(m) == m.id@ + "\t"@ + m.label@ + "\tbrightness="@
            + decimal(p as nat) + "%"@,
        rd is Err ==> spec_list_line(m) == m.id@ + "\t"@ + m.label@ + "\tbrightness="@ + "n/a"@,
{
}

} // verus!
