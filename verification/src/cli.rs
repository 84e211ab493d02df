//! The command line: commands, flags and number arguments.

use vstd::prelude::*;

use crate::error::CtlError;
use crate::number::{parse_i16_value, parse_u16_value, spec_parse_i16, spec_parse_u16};
use crate::text::{opt_view, str_equal, views};

verus! {

/// `t` is `--monitor` or `-m`.
pub open spec fn is_monitor_flag(t: Seq<char>) -> bool {
    t == "--monitor"@ || t == "-m"@
}

/// `t` is `--notify` or `-n`.
pub open spec fn is_notify_flag(t: Seq<char>) -> bool {
    t == "--notify"@ || t == "-n"@
}

/// What the flags of `args` come to, read from position `i` on, given the monitor
/// query, notify switch and positional arguments gathered before `i`: `None` when a
/// `--monitor` has no value after it; otherwise the last `--monitor` value, whether
/// `--notify` occurred, and the other arguments in their order.
pub open spec fn scan_flags(
    args: Seq<Seq<char>>,
    i: int,
    query: Option<Seq<char>>,
    notify: bool,
    positionals: Seq<Seq<char>>,
) -> Option<(Option<Seq<char>>, bool, Seq<Seq<char>>)>
    decreases args.len() - i,
{
    if i < 0 || i >= args.len() {
        Some((query, notify, positionals))
    } else if is_monitor_flag(args[i]) {
        if i + 1 >= args.len() {
            None
        } else {
            scan_flags(args, i + 2, Some(args[i + 1]), notify, positionals)
        }
    } else if is_notify_flag(args[i]) {
        scan_flags(args, i + 1, query, true, positionals)
    } else {
        scan_flags(args, i + 1, query, notify, positionals.push(args[i]))
    }
}

/// What the flags of the whole argument list come to.
pub open spec fn spec_common_flags(args: Seq<Seq<char>>) -> Option<
    (Option<Seq<char>>, bool, Seq<Seq<char>>),
> {
    scan_flags(args, 0, None, false, Seq::empty())
}

/// Takes the `--monitor QUERY` / `-m QUERY` and `--notify` / `-n` flags out of
/// `args`, leaving the other arguments in their order. Returns the value of the
/// last monitor flag and whether a notify flag was present. A monitor flag with
/// nothing after it is an error, and `args` is then left as it was.
pub fn parse_common_flags(args: &mut Vec<String>) -> (r: Result<(Option<String>, bool), CtlError>)
    ensures
        match spec_common_flags(views(old(args)@)) {
            None => r matches Err(CtlError::MissingMonitorValue) && final(args)@ == old(args)@,
            Some((q, n, p)) => r matches Ok((rq, rn)) && opt_view(rq) == q && rn == n && views(
                final(args)@,
            ) == p,
        },
{
    let ghost all = views(args@);
    let mut monitor_query: Option<String> = None;
    let mut notify = false;
    let mut positionals: Vec<String> = Vec::new();
    let mut index: usize = 0;
    let n = args.len();
    assert(views(positionals@) =~= Seq::<Seq<char>>::empty());
    while index < n
        invariant
            n == args@.len(),
            all == views(args@),
            index <= n,
            spec_common_flags(all) == scan_flags(
                all,
                index as int,
                opt_view(monitor_query),
                notify,
                views(positionals@),
            ),
        decreases n - index,
    {
        let arg: &str = args[index].as_str();
        assert(arg@ == all[index as int]);
        if str_equal(arg, "--monitor") || str_equal(arg, "-m") {
            index = index + 1;
            if index >= n {
                return Err(CtlError::MissingMonitorValue);
            }
            let query = args[index].clone();
            assert(query@ == all[index as int]);
            monitor_query = Some(query);
        } else if str_equal(arg, "--notify") || str_equal(arg, "-n") {
            notify = true;
        } else {
            let value = args[index].clone();
            let ghost before = positionals@;
            positionals.push(value);
            assert(views(positionals@) =~= views(before).push(all[index as int]));
        }
        index = index + 1;
    }
    *args = positionals;
    Ok((monitor_query, notify))
}

/// Reads a `u16` argument; `what` names it in the error.
pub fn parse_u16(input: &str, what: &str) -> (r: Result<u16, CtlError>)
    ensures
        match spec_parse_u16(input@) {
            Ok(v) => r matches Ok(x) && x == v,
            Err(k) => r matches Err(CtlError::InvalidNumber { what: w, input: i, kind })
                && w@ == what@ && i@ == input@ && kind == k,
        },
{
    match parse_u16_value(input) {
        Ok(v) => Ok(v),
        Err(kind) => Err(
            CtlError::InvalidNumber {
                what: String::from_str(what),
                input: String::from_str(input),
                kind,
            },
        ),
    }
}

/// Reads an `i16` argument; `what` names it in the error.
pub fn parse_i16(input: &str, what: &str) -> (r: Result<i16, CtlError>)
    ensures
        match spec_parse_i16(input@) {
            Ok(v) => r matches Ok(x) && x == v,
            Err(k) => r matches Err(CtlError::InvalidNumber { what: w, input: i, kind })
                && w@ == what@ && i@ == input@ && kind == k,
        },
{
    match parse_i16_value(input) {
        Ok(v) => Ok(v),
        Err(kind) => Err(
            CtlError::InvalidNumber {
                what: String::from_str(what),
                input: String::from_str(input),
                kind,
            },
        ),
    }
}

/// The command named first on the command line, with the arguments after it.
pub enum Command {
    /// `list`: show every monitor.
    List,
    /// `brightness ...`: read or change the brightness.
    Brightness(Vec<String>),
    /// `scene ...`: apply a colour scene.
    Scene(Vec<String>),
}

/// The arguments after the first, cloned.
fn tail_of(args: &Vec<String>) -> (t: Vec<String>)
    requires
        args@.len() >= 1,
    ensures
        views(t@) == views(args@).drop_first(),
{
    let n = args.len();
    let mut t: Vec<String> = Vec::new();
    let mut i: usize = 1;
    while i < n
        invariant
            n == args@.len(),
            1 <= i <= n,
            views(t@) == views(args@).subrange(1, i as int),
        decreases n - i,
    {
        let ghost before = t@;
        t.push(args[i].clone());
        assert(views(t@) =~= views(before).push(args@[i as int]@));
        assert(views(args@).subrange(1, i + 1) =~= views(args@).subrange(1, i as int).push(
            args@[i as int]@,
        ));
        i = i + 1;
    }
    assert(views(args@).subrange(1, n as int) =~= views(args@).drop_first());
    t
}

/// Reads the command from the arguments (the program name not included).
pub fn parse_command(args: Vec<String>) -> (r: Result<Command, CtlError>)
    ensures
        args@.len() == 0 ==> r matches Err(CtlError::MissingCommand),
        args@.len() > 0 ==> {
            let c = args@[0]@;
            let rest = views(args@).drop_first();
            &&& c == "list"@ ==> (r matches Ok(Command::List))
            &&& c == "brightness"@ ==> (r matches Ok(Command::Brightness(t)) && views(t@) == rest)
            &&& c == "scene"@ ==> (r matches Ok(Command::Scene(t)) && views(t@) == rest)
            &&& (c != "list"@ && c != "brightness"@ && c != "scene"@) ==> (r matches Err(
                CtlError::UnknownCommand(u),
            ) && u@ == c)
        },
{
    proof {
        reveal_strlit("list");
        reveal_strlit("brightness");
        reveal_strlit("scene");
        assert("list"@.len() != "brightness"@.len());
        assert("list"@.len() != "scene"@.len());
        assert("brightness"@.len() != "scene"@.len());
    }
    if args.len() == 0 {
        return Err(CtlError::MissingCommand);
    }
    let command = args[0].as_str();
    if str_equal(command, "list") {
        Ok(Command::List)
    } else if str_equal(command, "brightness") {
        Ok(Command::Brightness(tail_of(&args)))
    } else if str_equal(command, "scene") {
        Ok(Command::Scene(tail_of(&args)))
    } else {
        Err(CtlError::UnknownCommand(args[0].clone()))
    }
}

/// What `brightness` is asked to do.
pub enum BrightnessAction {
    /// Print the current brightness.
    Get,
    /// Set the brightness to this percentage (already limited to 100).
    SetTo(u16),
    /// Change the brightness by this many points.
    Delta(i16),
}

/// A parsed `brightness` command.
pub struct BrightnessRequest {
    pub action: BrightnessAction,
    pub monitor_query: Option<String>,
    pub notify: bool,
}

/// What `brightness` does with these arguments (those after the word `brightness`).
pub open spec fn brightness_plan_ok(args: Seq<Seq<char>>, r: Result<BrightnessRequest, CtlError>) -> bool {
    if args.len() == 0 {
        r matches Err(CtlError::MissingBrightnessSubcommand)
    } else {
        let sub = args[0];
        match spec_common_flags(args.drop_first()) {
            None => r matches Err(CtlError::MissingMonitorValue),
            Some((q, n, p)) => {
                if sub == "get"@ {
                    if p.len() != 0 {
                        r matches Err(CtlError::GetTakesNoArguments)
                    } else {
                        r matches Ok(req) && req.action matches BrightnessAction::Get && opt_view(
                            req.monitor_query,
                        ) == q && req.notify == n
                    }
                } else if sub == "set"@ {
                    if p.len() != 1 {
                        r matches Err(CtlError::SetUsage)
                    } else {
                        match spec_parse_u16(p[0]) {
                            Ok(v) => r matches Ok(req) && req.action matches BrightnessAction::SetTo(t)
                                && t == if v <= 100 {
                                v
                            } else {
                                100
                            } && opt_view(req.monitor_query) == q && req.notify == n,
                            Err(k) => r matches Err(CtlError::InvalidNumber { what, input, kind })
                                && what@ == "brightness value"@ && input@ == p[0] && kind == k,
                        }
                    }
                } else if sub == "delta"@ {
                    if p.len() != 1 {
                        r matches Err(CtlError::DeltaUsage)
                    } else {
                        match spec_parse_i16(p[0]) {
                            Ok(v) => r matches Ok(req) && req.action matches BrightnessAction::Delta(
                                d,
                            ) && d == v && opt_view(req.monitor_query) == q && req.notify == n,
                            Err(k) => r matches Err(CtlError::InvalidNumber { what, input, kind })
                                && what@ == "brightness delta"@ && input@ == p[0] && kind == k,
                        }
                    }
                } else {
                    r matches Err(CtlError::UnknownBrightnessSubcommand(s)) && s@ == sub
                }
            },
        }
    }
}

/// Reads a `brightness` command: its subcommand (`get`, `set VALUE` or
/// `delta CHANGE`) and the common flags. A set value above 100 is taken as 100.
pub fn plan_brightness(args: Vec<String>) -> (r: Result<BrightnessRequest, CtlError>)
    ensures
        brightness_plan_ok(views(args@), r),
{
    if args.len() == 0 {
        return Err(CtlError::MissingBrightnessSubcommand);
    }
    let mut tail = tail_of(&args);
    let (monitor_query, notify) = match parse_common_flags(&mut tail) {
        Ok(flags) => flags,
        Err(e) => {
            return Err(e);
        },
    };
    let subcommand = args[0].as_str();
    assert(subcommand@ == views(args@)[0]);
    if str_equal(subcommand, "get") {
        if tail.len() != 0 {
            return Err(CtlError::GetTakesNoArguments);
        }
        Ok(BrightnessRequest { action: BrightnessAction::Get, monitor_query, notify })
    } else if str_equal(subcommand, "set") {
        if tail.len() != 1 {
            return Err(CtlError::SetUsage);
        }
        assert(tail@[0]@ == views(tail@)[0]);
        let value = match parse_u16(tail[0].as_str(), "brightness value") {
            Ok(v) => v,
            Err(e) => {
                return Err(e);
            },
        };
        let target = if value <= 100 {
            value
        } else {
            100
        };
        Ok(BrightnessRequest { action: BrightnessAction::SetTo(target), monitor_query, notify })
    } else if str_equal(subcommand, "delta") {
        if tail.len() != 1 {
            return Err(CtlError::DeltaUsage);
        }
        assert(tail@[0]@ == views(tail@)[0]);
        let delta = match parse_i16(tail[0].as_str(), "brightness delta") {
            Ok(v) => v,
            Err(e) => {
                return Err(e);
            },
        };
        Ok(BrightnessRequest { action: BrightnessAction::Delta(delta), monitor_query, notify })
    } else {
        Err(CtlError::UnknownBrightnessSubcommand(args[0].clone()))
    }
}

/// `current + delta`, held within 0 to 100.
pub open spec fn spec_delta_target(current: int, delta: int) -> int {
    if current + delta < 0 {
        0
    } else if current + delta > 100 {
        100
    } else {
        current + delta
    }
}

/// The brightness that `brightness delta` asks for: `current + delta`, held
/// within 0 to 100.
pub fn delta_target(current: u16, delta: i16) -> (r: u16)
    ensures
        r == spec_delta_target(current as int, delta as int),
        r <= 100,
        0 <= current + delta <= 100 ==> r == current + delta,
        current + delta < 0 ==> r == 0,
        current + delta > 100 ==> r == 100,
{
    let sum: i32 = current as i32 + delta as i32;
    if sum < 0 {
        0
    } else if sum > 100 {
        100
    } else {
        sum as u16
    }
}

/// A parsed `scene` command.
pub struct SceneRequest {
    pub scene_id: String,
    pub monitor_query: Option<String>,
    pub notify: bool,
}

/// Reads a `scene` command: one scene name and the common flags.
pub fn plan_scene(args: Vec<String>) -> (r: Result<SceneRequest, CtlError>)
    ensures
        args@.len() == 0 ==> r matches Err(CtlError::SceneUsage),
        args@.len() > 0 ==> match spec_common_flags(views(args@).drop_first()) {
            None => r matches Err(CtlError::MissingMonitorValue),
            Some((q, n, p)) => if p.len() != 0 {
                r matches Err(CtlError::SceneExtraArguments)
            } else {
                r matches Ok(req) && req.scene_id@ == args@[0]@ && opt_view(req.monitor_query) == q
                    && req.notify == n
            },
        },
{
    if args.len() == 0 {
        return Err(CtlError::SceneUsage);
    }
    let scene_id = args[0].clone();
    let mut tail = tail_of(&args);
    let (monitor_query, notify) = match parse_common_flags(&mut tail) {
        Ok(flags) => flags,
        Err(e) => {
            return Err(e);
        },
    };
    if tail.len() != 0 {
        return Err(CtlError::SceneExtraArguments);
    }
    Ok(SceneRequest { scene_id, monitor_query, notify })
}

/// `t` is one of the common flags.
pub open spec fn is_flag(t: Seq<char>) -> bool {
    is_monitor_flag(t) || is_notify_flag(t)
}

/// No element of `s` is a common flag.
pub open spec fn flag_free(s: Seq<Seq<char>>) -> bool {
    forall|k: int| 0 <= k < s.len() ==> !is_flag(#[trigger] s[k])
}

/// Scanning never gathers a flag among the positional arguments.
proof fn lemma_scan_gathers_no_flags(
    args: Seq<Seq<char>>,
    i: int,
    query: Option<Seq<char>>,
    notify: bool,
    positionals: Seq<Seq<char>>,
)
    requires
        0 <= i,
        flag_free(positionals),
    ensures
        scan_flags(args, i, query, notify, positionals) matches Some((_, _, p)) ==> flag_free(p),
    decreases args.len() - i,
{
    if i >= args.len() {
    } else if is_monitor_flag(args[i]) {
        if i + 1 < args.len() {
            lemma_scan_gathers_no_flags(args, i + 2, Some(args[i + 1]), notify, positionals);
        }
    } else if is_notify_flag(args[i]) {
        lemma_scan_gathers_no_flags(args, i + 1, query, true, positionals);
    } else {
        let next = positionals.push(args[i]);
        assert forall|k: int| 0 <= k < next.len() implies !is_flag(#[trigger] next[k]) by {
            if k < positionals.len() {
                assert(next[k] == positionals[k]);
            }
        }
        lemma_scan_gathers_no_flags(args, i + 1, query, notify, next);
    }
}

/// Scanning arguments without flags from `i` on only gathers them.
proof fn lemma_scan_flag_free(
    args: Seq<Seq<char>>,
    i: int,
    query: Option<Seq<char>>,
    notify: bool,
    positionals: Seq<Seq<char>>,
)
    requires
        0 <= i <= args.len(),
        flag_free(args),
    ensures
        scan_flags(args, i, query, notify, positionals) == Some(
            (query, notify, positionals + args.subrange(i, args.len() as int)),
        ),
    decreases args.len() - i,
{
    if i == args.len() {
        assert(positionals + args.subrange(i, args.len() as int) =~= positionals);
    } else {
        assert(!is_flag(args[i]));
        lemma_scan_flag_free(args, i + 1, query, notify, positionals.push(args[i]));
        assert(positionals.push(args[i]) + args.subrange(i + 1, args.len() as int) =~= positionals
            + args.subrange(i, args.len() as int));
    }
}

/// Taking the common flags out of arguments that have already had them taken
/// out finds no monitor query and no notify flag, and leaves the arguments as
/// they are.
pub proof fn lemma_common_flags_idempotent(args: Seq<Seq<char>>)
    ensures
        spec_common_flags(args) matches Some((_, _, p)) ==> spec_common_flags(p) == Some(
            (None::<Seq<char>>, false, p),
        ),
{
    lemma_scan_gathers_no_flags(args, 0, None, false, Seq::empty());
    if let Some((_, _, p)) = spec_common_flags(args) {
        lemma_scan_flag_free(p, 0, None, false, Seq::empty());
        assert(Seq::<Seq<char>>::empty() + p.subrange(0, p.len() as int) =~= p);
    }
}

/// The brightness `delta` asks for is the current brightness moved by the
/// change when that stays within 0 to 100, and 0 or 100 when it would fall below
/// or rise above them.
pub proof fn lemma_delta_target(current: int, delta: int)
    ensures
        0 <= current + delta <= 100 ==> spec_delta_target(current, delta) == current + delta,
        current + delta < 0 ==> spec_delta_target(current, delta) == 0,
        current + delta > 100 ==> spec_delta_target(current, delta) == 100,
{
}

/// Reading the flags from position `i` on keeps the monitor query gathered so
/// far when no monitor flag follows, and turns the notify switch on exactly when
/// a notify flag follows (or it was on already).
proof fn lemma_scan_notify_without_monitor(
    args: Seq<Seq<char>>,
    i: int,
    query: Option<Seq<char>>,
    notify: bool,
    positionals: Seq<Seq<char>>,
)
    requires
        0 <= i <= args.len(),
        forall|k: int| 0 <= k < args.len() ==> !is_monitor_flag(#[trigger] args[k]),
    ensures
        scan_flags(args, i, query, notify, positionals) matches Some((q, n, _)) && q == query && n
            == (notify || exists|k: int| i <= k < args.len() && is_notify_flag(#[trigger] args[k])),
    decreases args.len() - i,
{
    if i < args.len() {
        assert(!is_monitor_flag(args[i]));
        if is_notify_flag(args[i]) {
            lemma_scan_notify_without_monitor(args, i + 1, query, true, positionals);
        } else {
            lemma_scan_notify_without_monitor(args, i + 1, query, notify, positionals.push(args[i]));
            if exists|k: int| i <= k < args.len() && is_notify_flag(#[trigger] args[k]) {
                let k = choose|k: int| i <= k < args.len() && is_notify_flag(#[trigger] args[k]);
                assert(k != i);
            }
        }
    }
}

/// Without any `--monitor`/`-m` among the arguments, taking out the flags finds
/// no monitor query, and finds the notify switch on exactly when `--notify` or
/// `-n` is one of the arguments.
pub proof fn lemma_notify_flag_found(args: Seq<Seq<char>>)
    requires
        forall|k: int| 0 <= k < args.len() ==> !is_monitor_flag(#[trigger] args[k]),
    ensures
        spec_common_flags(args) matches Some((q, n, _)) && q is None && n == exists|k: int|
            0 <= k < args.len() && is_notify_flag(#[trigger] args[k]),
{
    lemma_scan_notify_without_monitor(args, 0, None, false, Seq::empty());
}

/// Whatever the subcommand, a `brightness` request that parses asks for a
/// notification exactly when the flags of its arguments turn notify on, and
/// carries the query those flags give.
pub proof fn lemma_brightness_request_flags(args: Seq<Seq<char>>, r: Result<BrightnessRequest, CtlError>)
    requires
        brightness_plan_ok(args, r),
        r is Ok,
    ensures
        args.len() >= 1,
        spec_common_flags(args.drop_first()) matches Some((q, n, _)) && r->Ok_0.notify == n
            && opt_view(r->Ok_0.monitor_query) == q,
{
}

} // verus!
