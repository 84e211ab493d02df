//! The ways a `warmlitectl` invocation can fail.

use vstd::prelude::*;

use crate::number::IntErrorKind;
use crate::text::views;

verus! {

/// A failure of the command line tool, with what its message names.
#[derive(Debug)]
pub enum CtlError {
    /// No command was given.
    MissingCommand,
    /// The command is not `list`, `brightness` or `scene`.
    UnknownCommand(String),
    /// `brightness` was given no subcommand.
    MissingBrightnessSubcommand,
    /// The brightness subcommand is not `get`, `set` or `delta`.
    UnknownBrightnessSubcommand(String),
    /// `brightness get` was given positional arguments.
    GetTakesNoArguments,
    /// `brightness set` was not given exactly one value.
    SetUsage,
    /// `brightness delta` was not given exactly one value.
    DeltaUsage,
    /// `scene` was given no scene name.
    SceneUsage,
    /// `scene` was given more than one positional argument.
    SceneExtraArguments,
    /// `--monitor` (or `-m`) was the last argument.
    MissingMonitorValue,
    /// A number argument did not parse; `what` names the argument.
    InvalidNumber { what: String, input: String, kind: IntErrorKind },
    /// The monitor list is empty.
    NoMonitors,
    /// No monitor matched the query.
    NoMonitorMatched(String),
    /// More than one monitor matched the query; `ids` are theirs, in order.
    AmbiguousMonitor { query: String, ids: Vec<String> },
    /// The monitor with this id has no brightness control.
    NoBrightnessControl(String),
    /// The brightness control of the monitor `id` has no usable value.
    BrightnessUnavailable { id: String, reason: String },
}

/// The standard library's wording for why a number did not parse.
pub open spec fn int_error_text(kind: IntErrorKind) -> Seq<char> {
    match kind {
        IntErrorKind::Empty => "cannot parse integer from empty string"@,
        IntErrorKind::InvalidDigit => "invalid digit found in string"@,
        IntErrorKind::PosOverflow => "number too large to fit in target type"@,
        IntErrorKind::NegOverflow => "number too small to fit in target type"@,
    }
}

/// The strings of `list` with `sep` between each two of them.
pub open spec fn join(list: Seq<Seq<char>>, sep: Seq<char>) -> Seq<char>
    decreases list.len(),
{
    if list.len() == 0 {
        Seq::empty()
    } else if list.len() == 1 {
        list[0]
    } else {
        join(list.drop_last(), sep) + sep + list.last()
    }
}

/// The text that reports `e` together with its cause: for a number that did
/// not parse, the reason the standard library gives, after a `": "`; for
/// every other error, the same text as `spec_message`.
pub open spec fn spec_detailed_message(e: CtlError) -> Seq<char> {
    match e {
        CtlError::InvalidNumber { kind, .. } => spec_message(e) + ": "@ + int_error_text(
            kind,
        ),
        _ => spec_message(e),
    }
}

/// The text that reports `e` (for a number that did not parse, without the
/// cause).
pub open spec fn spec_message(e: CtlError) -> Seq<char> {
    match e {
        CtlError::MissingCommand => "missing command"@,
        CtlError::UnknownCommand(c) => "unknown command: "@ + c@,
        CtlError::MissingBrightnessSubcommand => "missing brightness subcommand"@,
        CtlError::UnknownBrightnessSubcommand(s) => "unknown brightness subcommand: "@ + s@,
        CtlError::GetTakesNoArguments => "brightness get does not accept positional arguments"@,
        CtlError::SetUsage => "usage: warmlitectl brightness set <0-100> [--monitor QUERY] [--notify]"@,
        CtlError::DeltaUsage => "usage: warmlitectl brightness delta <+N|-N> [--monitor QUERY] [--notify]"@,
        CtlError::SceneUsage => "usage: warmlitectl scene <paper|sunset|ember|incandescent|candle|nocturne> [--monitor QUERY]"@,
        CtlError::SceneExtraArguments => "scene only accepts one positional argument"@,
        CtlError::MissingMonitorValue => "missing value for --monitor"@,
        CtlError::InvalidNumber { what, input, .. } => "invalid "@ + what@ + ": "@ + input@,
        CtlError::NoMonitors => "no monitors detected"@,
        CtlError::NoMonitorMatched(q) => "no monitor matched query: "@ + q@,
        CtlError::AmbiguousMonitor { query, ids } => "monitor query is ambiguous: "@ + query@
            + " (matches: "@ + join(views(ids@), ", "@) + ")"@,
        CtlError::NoBrightnessControl(id) => "monitor "@ + id@ + " does not expose brightness control"@,
        CtlError::BrightnessUnavailable { id, reason } => "monitor "@ + id@
            + " brightness is unavailable ("@ + reason@ + ")"@,
    }
}

/// Appends the standard library's wording for `kind` to `out`.
fn append_int_error_text(out: &mut String, kind: IntErrorKind)
    ensures
        final(out)@ == old(out)@ + int_error_text(kind),
{
    match kind {
        IntErrorKind::Empty => out.append("cannot parse integer from empty string"),
        IntErrorKind::InvalidDigit => out.append("invalid digit found in string"),
        IntErrorKind::PosOverflow => out.append("number too large to fit in target type"),
        IntErrorKind::NegOverflow => out.append("number too small to fit in target type"),
    }
}

/// Appends the strings of `list`, separated by `sep`, to `out`.
fn append_joined(out: &mut String, list: &Vec<String>, sep: &str)
    ensures
        final(out)@ == old(out)@ + join(views(list@), sep@),
{
    let ghost start = out@;
    let n = list.len();
    let mut i: usize = 0;
    assert(views(list@).subrange(0, 0) =~= Seq::<Seq<char>>::empty());
    assert(start + join(Seq::<Seq<char>>::empty(), sep@) =~= start);
    while i < n
        invariant
            n == list@.len(),
            i <= n,
            out@ == start + join(views(list@).subrange(0, i as int), sep@),
        decreases n - i,
    {
        let ghost prefix = views(list@).subrange(0, i as int);
        let ghost next = views(list@).subrange(0, i + 1);
        assert(next.drop_last() =~= prefix);
        assert(next.last() == list@[i as int]@);
        if i > 0 {
            out.append(sep);
        }
        out.append(list[i].as_str());
        if i == 0 {
            assert(join(next, sep@) == next[0]);
            assert(out@ =~= start + join(next, sep@));
        } else {
            assert(out@ =~= start + join(next, sep@));
        }
        i = i + 1;
    }
    assert(views(list@).subrange(0, n as int) =~= views(list@));
}

impl CtlError {
    /// The text that reports this error followed by its cause, as an error
    /// chain prints in its alternate form.
    pub fn detailed_message(&self) -> (r: String)
        ensures
            r@ == spec_detailed_message(*self),
    {
        let mut m = self.message();
        match self {
            CtlError::InvalidNumber { kind, .. } => {
                m.append(": ");
                append_int_error_text(&mut m, *kind);
            },
            _ => {},
        }
        m
    }

    /// The text that reports this error.
    pub fn message(&self) -> (r: String)
        ensures
            r@ == spec_message(*self),
    {
        match self {
            CtlError::MissingCommand => String::from_str("missing command"),
            CtlError::UnknownCommand(c) => {
                let mut m = String::from_str("unknown command: ");
                m.append(c.as_str());
                m
            },
            CtlError::MissingBrightnessSubcommand => String::from_str("missing brightness subcommand"),
            CtlError::UnknownBrightnessSubcommand(s) => {
                let mut m = String::from_str("unknown brightness subcommand: ");
                m.append(s.as_str());
                m
            },
            CtlError::GetTakesNoArguments => String::from_str(
                "brightness get does not accept positional arguments",
            ),
            CtlError::SetUsage => String::from_str(
                "usage: warmlitectl brightness set <0-100> [--monitor QUERY] [--notify]",
            ),
            CtlError::DeltaUsage => String::from_str(
                "usage: warmlitectl brightness delta <+N|-N> [--monitor QUERY] [--notify]",
            ),
            CtlError::SceneUsage => String::from_str(
                "usage: warmlitectl scene <paper|sunset|ember|incandescent|candle|nocturne> [--monitor QUERY]",
            ),
            CtlError::SceneExtraArguments => String::from_str(
                "scene only accepts one positional argument",
            ),
            CtlError::MissingMonitorValue => String::from_str("missing value for --monitor"),
            CtlError::InvalidNumber { what, input, .. } => {
                let mut m = String::from_str("invalid ");
                m.append(what.as_str());
                m.append(": ");
                m.append(input.as_str());
                m
            },
            CtlError::NoMonitors => String::from_str("no monitors detected"),
            CtlError::NoMonitorMatched(q) => {
                let mut m = String::from_str("no monitor matched query: ");
                m.append(q.as_str());
                m
            },
            CtlError::AmbiguousMonitor { query, ids } => {
                let mut m = String::from_str("monitor query is ambiguous: ");
                m.append(query.as_str());
                m.append(" (matches: ");
                append_joined(&mut m, ids, ", ");
                m.append(")");
                m
            },
            CtlError::NoBrightnessControl(id) => {
                let mut m = String::from_str("monitor ");
                m.append(id.as_str());
                m.append(" does not expose brightness control");
                m
            },
            CtlError::BrightnessUnavailable { id, reason } => {
                let mut m = String::from_str("monitor ");
                m.append(id.as_str());
                m.append(" brightness is unavailable (");
                m.append(reason.as_str());
                m.append(")");
                m
            },
        }
    }
}

} // verus!
