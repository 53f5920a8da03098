//! What holds of every request: how each field reaches the argument list, and
//! that a field set again keeps only the later value.

use crate::decimal::decimal_text;
use crate::notification::NotificationView;
use vstd::prelude::*;

verus! {

/// Without an application name the argument list is the timeout flag and its
/// value, the icon flag and its value, the summary and the body: six
/// arguments, and no application flag among the flags.
pub proof fn app_flag_omitted_when_empty(v: NotificationView)
    requires
        v.app.len() == 0,
    ensures
        v.arguments() == seq![
            "-t"@,
            decimal_text(v.timeout),
            "-i"@,
            v.icon,
            v.summary,
            v.body,
        ],
{
    assert(v.arguments() =~= seq![
        "-t"@,
        decimal_text(v.timeout),
        "-i"@,
        v.icon,
        v.summary,
        v.body,
    ]);
}

/// With an application name the application flag and the name stand directly
/// behind the timeout's value and directly before the icon flag: eight
/// arguments in all.
pub proof fn app_flag_follows_timeout(v: NotificationView)
    requires
        v.app.len() > 0,
    ensures
        v.arguments() == seq![
            "-t"@,
            decimal_text(v.timeout),
            "-a"@,
            v.app,
            "-i"@,
            v.icon,
            v.summary,
            v.body,
        ],
{
    assert(v.arguments() =~= seq![
        "-t"@,
        decimal_text(v.timeout),
        "-a"@,
        v.app,
        "-i"@,
        v.icon,
        v.summary,
        v.body,
    ]);
}

/// The summary and the body are the last two arguments, in that order,
/// whatever they and the other fields hold.
pub proof fn summary_and_body_come_last(v: NotificationView)
    ensures
        v.arguments().len() >= 2,
        v.arguments()[v.arguments().len() - 2] == v.summary,
        v.arguments()[v.arguments().len() - 1] == v.body,
{
    if v.app.len() == 0 {
        app_flag_omitted_when_empty(v);
    } else {
        app_flag_follows_timeout(v);
    }
}

/// A summary that was set is handed on as it is, as the argument before the
/// last, and the other arguments stay what they were.
pub proof fn summary_reaches_arguments(v: NotificationView, text: Seq<char>)
    ensures
        ({
            let before = v.arguments();
            let after = v.with_summary(text).arguments();
            &&& after.len() == before.len()
            &&& after == before.update(before.len() - 2, text)
        }),
{
    let before = v.arguments();
    let after = v.with_summary(text).arguments();
    assert(after =~= before.update(before.len() - 2, text));
}

/// A body that was set is handed on as it is, as the last argument, and the
/// other arguments stay what they were.
pub proof fn body_reaches_arguments(v: NotificationView, text: Seq<char>)
    ensures
        ({
            let before = v.arguments();
            let after = v.with_body(text).arguments();
            &&& after.len() == before.len()
            &&& after == before.update(before.len() - 1, text)
        }),
{
    let before = v.arguments();
    let after = v.with_body(text).arguments();
    assert(after =~= before.update(before.len() - 1, text));
}

/// An icon that was set is handed on as it is, as the third argument from the
/// end, and the other arguments stay what they were.
pub proof fn icon_reaches_arguments(v: NotificationView, name: Seq<char>)
    ensures
        ({
            let before = v.arguments();
            let after = v.with_icon(name).arguments();
            &&& after.len() == before.len()
            &&& after == before.update(before.len() - 3, name)
        }),
{
    let before = v.arguments();
    let after = v.with_icon(name).arguments();
    assert(after =~= before.update(before.len() - 3, name));
}

/// A timeout that was set is handed on in decimal, as the second argument,
/// and the other arguments stay what they were.
pub proof fn timeout_reaches_arguments(v: NotificationView, time: int)
    ensures
        ({
            let before = v.arguments();
            let after = v.with_timeout(time).arguments();
            &&& after.len() == before.len()
            &&& after == before.update(1, decimal_text(time))
        }),
{
    let before = v.arguments();
    let after = v.with_timeout(time).arguments();
    assert(after =~= before.update(1, decimal_text(time)));
}

/// An application name that was set and is not empty is handed on as it is,
/// as the fourth argument, behind the application flag; an empty one takes
/// flag and name out of the list. The arguments on both sides stay what they
/// were.
pub proof fn app_reaches_arguments(v: NotificationView, name: Seq<char>)
    ensures
        ({
            let before = v.arguments();
            let after = v.with_app(name).arguments();
            &&& after.subrange(0, 2) == before.subrange(0, 2)
            &&& after.subrange(after.len() - 4, after.len() as int) == before.subrange(
                before.len() - 4,
                before.len() as int,
            )
            &&& name.len() > 0 ==> after.len() == 8 && after[2] == "-a"@ && after[3] == name
            &&& name.len() == 0 ==> after.len() == 6
        }),
{
    let before = v.arguments();
    let after = v.with_app(name).arguments();
    assert(after.subrange(0, 2) =~= before.subrange(0, 2));
    assert(after.subrange(after.len() - 4, after.len() as int) =~= before.subrange(
        before.len() - 4,
        before.len() as int,
    ));
}

/// A field that is set twice holds the second value only: nothing of the
/// first is kept, and the other fields are untouched.
pub proof fn later_value_replaces_earlier(
    v: NotificationView,
    first: Seq<char>,
    second: Seq<char>,
    first_time: int,
    second_time: int,
)
    ensures
        v.with_summary(first).with_summary(second) == v.with_summary(second),
        v.with_body(first).with_body(second) == v.with_body(second),
        v.with_app(first).with_app(second) == v.with_app(second),
        v.with_icon(first).with_icon(second) == v.with_icon(second),
        v.with_timeout(first_time).with_timeout(second_time) == v.with_timeout(second_time),
{
}

} // verus!
