//! Desktop notifications, as the `notify-send` invocations that show them.

use vstd::prelude::*;

use crate::number::{decimal, decimal_string};
use crate::text::views;

verus! {

/// A program to run and the arguments to run it with.
pub struct NotifyCommand {
    pub program: String,
    pub args: Vec<String>,
}

/// The arguments of `notify-send` for a notification with `title` and `body`,
/// shown by the `warmlite` application in the place of the previous one; a
/// positive `value` is also passed as a progress hint.
pub open spec fn spec_notify_args(title: Seq<char>, body: Seq<char>, value: int) -> Seq<Seq<char>> {
    seq![
        "-a"@,
        "warmlite"@,
        "-h"@,
        "string:x-canonical-private-synchronous:warmlite-brightness"@,
    ] + (if value > 0 {
        seq!["-h"@, "int:value:"@ + decimal(value as nat)]
    } else {
        Seq::empty()
    }) + seq![title, body]
}

/// Appends a copy of `s` to `v`.
fn push_str(v: &mut Vec<String>, s: &str)
    ensures
        views(final(v)@) == views(old(v)@).push(s@),
{
    let ghost before = v@;
    v.push(String::from_str(s));
    assert(views(v@) =~= views(before).push(s@));
}

/// The `notify-send` invocation for a notification with `title`, `body` and,
/// when positive, the progress value `value`.
pub fn maybe_notify_text_with_value(title: &str, body: &str, value: u16) -> (r: NotifyCommand)
    ensures
        r.program@ == "notify-send"@,
        views(r.args@) == spec_notify_args(title@, body@, value as int),
{
    let mut args: Vec<String> = Vec::new();
    push_str(&mut args, "-a");
    push_str(&mut args, "warmlite");
    push_str(&mut args, "-h");
    push_str(&mut args, "string:x-canonical-private-synchronous:warmlite-brightness");
    if value > 0 {
        push_str(&mut args, "-h");
        let mut hint = String::from_str("int:value:");
        let digits = decimal_string(value);
        hint.append(digits.as_str());
        push_str(&mut args, hint.as_str());
    }
    push_str(&mut args, title);
    push_str(&mut args, body);
    assert(views(args@) =~= spec_notify_args(title@, body@, value as int));
    NotifyCommand { program: String::from_str("notify-send"), args }
}

/// The `notify-send` invocation for a notification without a progress value.
pub fn maybe_notify_text(title: &str, body: &str) -> (r: NotifyCommand)
    ensures
        r.program@ == "notify-send"@,
        views(r.args@) == spec_notify_args(title@, body@, 0),
{
    maybe_notify_text_with_value(title, body, 0)
}

/// The body of a brightness notification: the percentage, then the monitor.
pub open spec fn spec_brightness_body(percent: int, monitor_label: Seq<char>) -> Seq<char> {
    decimal(percent as nat) + "% · "@ + monitor_label
}

/// The `notify-send` invocation that reports a monitor's new brightness.
pub fn maybe_notify_brightness(percent: u16, monitor_label: String) -> (r: NotifyCommand)
    ensures
        r.program@ == "notify-send"@,
        views(r.args@) == spec_notify_args(
            "Brightness"@,
            spec_brightness_body(percent as int, monitor_label@),
            percent as int,
        ),
{
    let mut body = decimal_string(percent);
    body.append("% · ");
    body.append(monitor_label.as_str());
    maybe_notify_text_with_value("Brightness", body.as_str(), percent)
}

/// The title of the notification for a newly applied scene.
pub fn scene_title(scene_id: &str) -> (r: String)
    ensures
        r@ == "Scene: "@ + scene_id@,
{
    let mut title = String::from_str("Scene: ");
    title.append(scene_id);
    title
}

} // verus!
