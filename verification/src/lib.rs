//! Desktop notifications handed to the `notify-send` program: a request is
//! built field by field, turned into the program's argument list, and judged
//! delivered by the exit code that the program reports.

pub mod decimal;
pub mod laws;
pub mod notification;

pub use notification::{delivered, Notification, NotificationView, PROGRAM};
