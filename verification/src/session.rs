//! The steps of the `brightness` and `scene` commands between their device
//! calls: what to do once the monitors are listed, and what to report once a
//! monitor has been changed.

use vstd::prelude::*;

use crate::cli::{
    delta_target, spec_delta_target, BrightnessAction, BrightnessRequest, SceneRequest,
};
use crate::error::CtlError;
use crate::monitor::{
    monitor_brightness_percent, percent_after_update, reading, select_monitor, selection,
    spec_percent_after_update, MonitorSnapshot,
};
use crate::notify::{
    maybe_notify_brightness, maybe_notify_text, scene_title, spec_brightness_body,
    spec_notify_args, NotifyCommand,
};
use crate::number::{decimal, decimal_string};
use crate::text::{opt_str_view, opt_view, views};

verus! {

/// What `brightness` does once the monitors are listed.
pub enum BrightnessStep {
    /// Print this brightness and stop; nothing is changed.
    Report(u16),
    /// Set the brightness of the monitor at this position to `target`.
    Write { monitor: usize, target: u16 },
}

/// What a command prints when it is done, and the notification it then shows.
pub struct CommandOutput {
    pub line: String,
    pub notification: Option<NotifyCommand>,
}

/// `n` is the `notify-send` invocation for a notification with `title` and
/// `body` and the progress value `value`.
pub open spec fn notifies(n: NotifyCommand, title: Seq<char>, body: Seq<char>, value: int) -> bool {
    n.program@ == "notify-send"@ && views(n.args@) == spec_notify_args(title, body, value)
}

/// The step after listing `monitors` for a `brightness` request: the monitor is
/// chosen first, and a failed choice ends the command; `get` then reads and
/// reports; `set` writes its target; `delta` reads, and writes the reading
/// moved by the change and held within 0 to 100. A failed read ends the command.
pub fn brightness_after_listing(request: &BrightnessRequest, monitors: &Vec<MonitorSnapshot>) -> (r:
    Result<BrightnessStep, CtlError>)
    ensures
        exists|sel: Result<usize, CtlError>|
            #[trigger] selection(opt_view(request.monitor_query), monitors@, sel) && match sel {
                Err(e) => r == Err::<BrightnessStep, CtlError>(e),
                Ok(i) => match request.action {
                    BrightnessAction::SetTo(t) => r == Ok::<BrightnessStep, CtlError>(
                        BrightnessStep::Write { monitor: i, target: t },
                    ),
                    BrightnessAction::Get => exists|rd: Result<u16, CtlError>|
                        #[trigger] reading(monitors@[i as int], rd) && match rd {
                            Ok(p) => r == Ok::<BrightnessStep, CtlError>(BrightnessStep::Report(p)),
                            Err(e) => r == Err::<BrightnessStep, CtlError>(e),
                        },
                    BrightnessAction::Delta(d) => exists|rd: Result<u16, CtlError>|
                        #[trigger] reading(monitors@[i as int], rd) && match rd {
                            Ok(c) => r matches Ok(BrightnessStep::Write { monitor, target })
                                && monitor == i && target == spec_delta_target(c as int, d as int),
                            Err(e) => r == Err::<BrightnessStep, CtlError>(e),
                        },
                },
            },
        r matches Ok(BrightnessStep::Write { monitor, .. }) ==> monitor < monitors@.len(),
{
    let query = match &request.monitor_query {
        Some(q) => Some(q.as_str()),
        None => None,
    };
    assert(opt_str_view(query) == opt_view(request.monitor_query));
    let sel = select_monitor(query, monitors);
    assert(selection(opt_view(request.monitor_query), monitors@, sel));
    let index = match sel {
        Ok(i) => i,
        Err(e) => {
            return Err(e);
        },
    };
    proof {
        if request.monitor_query is Some {
            crate::monitor::lemma_selected_monitor_matches(
                monitors@,
                request.monitor_query->0@,
            );
        }
    }
    match request.action {
        BrightnessAction::SetTo(t) => Ok(BrightnessStep::Write { monitor: index, target: t }),
        BrightnessAction::Get => {
            let rd = monitor_brightness_percent(&monitors[index]);
            assert(reading(monitors@[index as int], rd));
            match rd {
                Ok(p) => Ok(BrightnessStep::Report(p)),
                Err(e) => Err(e),
            }
        },
        BrightnessAction::Delta(d) => {
            let rd = monitor_brightness_percent(&monitors[index]);
            assert(reading(monitors@[index as int], rd));
            match rd {
                Ok(c) => Ok(BrightnessStep::Write { monitor: index, target: delta_target(c, d) }),
                Err(e) => Err(e),
            }
        },
    }
}

/// What `brightness set` or `delta` reports once the monitor reads as `updated`
/// after asking for `target`: the brightness it now reads (or `target` when it
/// cannot be read) and, when asked for, a notification of it.
pub fn brightness_report(request: &BrightnessRequest, updated: &MonitorSnapshot, target: u16) -> (r:
    CommandOutput)
    ensures
        r.line@ == decimal(spec_percent_after_update(*updated, target as int) as nat),
        r.notification is Some <==> request.notify,
        r.notification matches Some(n) ==> notifies(
            n,
            "Brightness"@,
            spec_brightness_body(spec_percent_after_update(*updated, target as int), updated.label@),
            spec_percent_after_update(*updated, target as int),
        ),
{
    let percent = percent_after_update(updated, target);
    let line = decimal_string(percent);
    let notification = if request.notify {
        Some(maybe_notify_brightness(percent, updated.label.clone()))
    } else {
        None
    };
    CommandOutput { line, notification }
}

/// What `scene` reports once the monitor reads as `updated`: its id and the
/// scene, and, when asked for, a notification naming the scene and the monitor.
pub fn scene_report(request: &SceneRequest, updated: &MonitorSnapshot) -> (r: CommandOutput)
    ensures
        r.line@ == updated.id@ + " "@ + request.scene_id@,
        r.notification is Some <==> request.notify,
        r.notification matches Some(n) ==> notifies(
            n,
            "Scene: "@ + request.scene_id@,
            updated.label@,
            0,
        ),
{
    let mut line = updated.id.clone();
    line.append(" ");
    line.append(request.scene_id.as_str());
    let notification = if request.notify {
        let title = scene_title(request.scene_id.as_str());
        Some(maybe_notify_text(title.as_str(), updated.label.as_str()))
    } else {
        None
    };
    CommandOutput { line, notification }
}

} // verus!
