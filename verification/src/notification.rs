//! The notification request and the argument list it stands for.

use crate::decimal::{decimal, decimal_text};
use vstd::prelude::*;
use vstd::string::StringExecFns;

verus! {

/// What a request holds, as plain mathematical values.
pub struct NotificationView {
    pub icon: Seq<char>,
    pub summary: Seq<char>,
    pub body: Seq<char>,
    pub app: Seq<char>,
    pub timeout: int,
}

impl NotificationView {
    /// The request that a new notification holds: the information icon, five
    /// seconds, and no text.
    pub open spec fn initial() -> NotificationView {
        NotificationView {
            icon: "dialog-information"@,
            summary: Seq::empty(),
            body: Seq::empty(),
            app: Seq::empty(),
            timeout: 5000,
        }
    }

    /// This request with `text` in place of its summary.
    pub open spec fn with_summary(self, text: Seq<char>) -> NotificationView {
        NotificationView { summary: text, ..self }
    }

    /// This request with `text` in place of its body.
    pub open spec fn with_body(self, text: Seq<char>) -> NotificationView {
        NotificationView { body: text, ..self }
    }

    /// This request with `name` in place of its application name.
    pub open spec fn with_app(self, name: Seq<char>) -> NotificationView {
        NotificationView { app: name, ..self }
    }

    /// This request with `name` in place of its icon.
    pub open spec fn with_icon(self, name: Seq<char>) -> NotificationView {
        NotificationView { icon: name, ..self }
    }

    /// This request with `time` in place of its timeout.
    pub open spec fn with_timeout(self, time: int) -> NotificationView {
        NotificationView { timeout: time, ..self }
    }

    /// The arguments that the program is started with: the timeout flag and
    /// its value, the application flag and name unless the name is empty, the
    /// icon flag and its value, then the summary and the body.
    pub open spec fn arguments(self) -> Seq<Seq<char>> {
        let head = seq!["-t"@, decimal_text(self.timeout)];
        let tail = seq!["-i"@, self.icon, self.summary, self.body];
        if self.app.len() == 0 {
            head + tail
        } else {
            head + seq!["-a"@, self.app] + tail
        }
    }
}

/// The name of the program that shows a notification.
pub const PROGRAM: &'static str = "notify-send";

/// A desktop notification to be shown by `notify-send`.
pub struct Notification {
    icon: String,
    summary: String,
    body: String,
    app: String,
    timeout: i32,
}

impl View for Notification {
    type V = NotificationView;

    closed spec fn view(&self) -> NotificationView {
        NotificationView {
            icon: self.icon@,
            summary: self.summary@,
            body: self.body@,
            app: self.app@,
            timeout: self.timeout as int,
        }
    }
}

impl Default for Notification {
    fn default() -> (fresh: Self)
        ensures
            fresh@ == NotificationView::initial(),
    {
        Notification::new()
    }
}

impl Notification {
    /// A request with the information icon, a timeout of 5000 ms and empty
    /// summary, body and application name.
    #[must_use]
    pub fn new() -> (fresh: Self)
        ensures
            fresh@ == NotificationView::initial(),
    {
        Notification {
            icon: String::from_str("dialog-information"),
            summary: String::new(),
            body: String::new(),
            app: String::new(),
            timeout: 5000,
        }
    }

    /// Replaces the summary with `text`.
    pub fn summary(&mut self, text: &str) -> (same: &mut Self)
        ensures
            same@ == old(self)@.with_summary(text@),
            *final(self) == *final(same),
    {
        self.summary = String::from_str(text);
        self
    }

    /// Replaces the timeout, in milliseconds, with `time`.
    pub fn timeout(&mut self, time: i32) -> (same: &mut Self)
        ensures
            same@ == old(self)@.with_timeout(time as int),
            *final(self) == *final(same),
    {
        self.timeout = time;
        self
    }

    /// Replaces the body with `text`.
    pub fn body(&mut self, text: &str) -> (same: &mut Self)
        ensures
            same@ == old(self)@.with_body(text@),
            *final(self) == *final(same),
    {
        self.body = String::from_str(text);
        self
    }

    /// Replaces the application name with `name`.
    pub fn app(&mut self, name: &str) -> (same: &mut Self)
        ensures
            same@ == old(self)@.with_app(name@),
            *final(self) == *final(same),
    {
        self.app = String::from_str(name);
        self
    }

    /// Replaces the icon with `name`.
    pub fn icon(&mut self, name: &str) -> (same: &mut Self)
        ensures
            same@ == old(self)@.with_icon(name@),
            *final(self) == *final(same),
    {
        self.icon = String::from_str(name);
        self
    }

    /// The argument list that `notify-send` is started with for this request.
    pub fn arguments(&self) -> (args: Vec<String>)
        ensures
            args.deep_view() == self@.arguments(),
            args.len() == self@.arguments().len(),
            forall|i: int| 0 <= i < args.len() ==> (#[trigger] args[i])@ == self@.arguments()[i],
    {
        let mut args: Vec<String> = Vec::new();
        args.push(String::from_str("-t"));
        args.push(decimal(self.timeout));
        if !self.app.as_str().is_empty() {
            args.push(String::from_str("-a"));
            args.push(self.app.clone());
        }
        args.push(String::from_str("-i"));
        args.push(self.icon.clone());
        args.push(self.summary.clone());
        args.push(self.body.clone());
        assert(args.deep_view() =~= self@.arguments());
        args
    }

    /// Hands the argument list of this request to `run`, which starts the
    /// program with it, waits, and gives back the exit code that the program
    /// reported, if it reported one. Tells whether the notification was
    /// delivered. The request is left as it was.
    pub fn send<F: FnOnce(Vec<String>) -> Option<i32>>(&mut self, run: F) -> (ok: bool)
        requires
            forall|args: Vec<String>|
                args.deep_view() == old(self)@.arguments() ==> call_requires(run, (args,)),
        ensures
            *final(self) == *old(self),
            exists|args: Vec<String>, exit_code: Option<i32>|
                args.deep_view() == old(self)@.arguments() && call_ensures(
                    run,
                    (args,),
                    exit_code,
                ) && ok == is_delivered(exit_code),
    {
        let args = self.arguments();
        let ghost handed = args;
        let exit_code = run(args);
        assert(call_ensures(run, (handed,), exit_code));
        delivered(exit_code)
    }
}

/// Whether an exit code reports a delivered notification: only zero does.
pub open spec fn is_delivered(exit_code: Option<i32>) -> bool {
    exit_code == Some(0i32)
}

/// Tells whether the program, having ended with `exit_code`, delivered the
/// notification. `None` stands for a program that ended without an exit code.
pub fn delivered(exit_code: Option<i32>) -> (ok: bool)
    ensures
        ok == is_delivered(exit_code),
{
    match exit_code {
        Some(code) => code == 0,
        None => false,
    }
}

} // verus!
