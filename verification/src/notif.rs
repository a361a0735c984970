//! Notification values and control request kinds.

use vstd::prelude::*;
use vstd::string::StringExecFns;

verus! {

/// An immutable notification: where it originated, what it says, and how
/// urgently it should be shown. Serialized opaquely for transport; never
/// mutated after creation.
#[derive(Debug, Clone, PartialEq, Eq)]
pub struct Notification {
    /// Identifier of the machine the notification originated on.
    pub hostname: String,
    /// Short title line.
    pub summary: String,
    /// Longer message text.
    pub body: String,
    /// One of a small closed set of urgency levels, carried as its literal
    /// wire form (for example low, normal, critical).
    pub urgency: String,
}

/// The mathematical value of a [`Notification`]: its four fields as
/// character sequences.
pub struct NotificationView {
    pub hostname: Seq<char>,
    pub summary: Seq<char>,
    pub body: Seq<char>,
    pub urgency: Seq<char>,
}

impl View for Notification {
    type V = NotificationView;

    open spec fn view(&self) -> NotificationView {
        NotificationView {
            hostname: self.hostname@,
            summary: self.summary@,
            body: self.body@,
            urgency: self.urgency@,
        }
    }
}

impl Notification {
    /// Builds a notification from its four parts.
    pub fn new(hostname: String, summary: String, body: String, urgency: String) -> (n: Self)
        ensures
            n@.hostname == hostname@,
            n@.summary == summary@,
            n@.body == body@,
            n@.urgency == urgency@,
    {
        Notification { hostname, summary, body, urgency }
    }
}

/// A control request a notifier sends to the router: claim the active route
/// or relinquish it.
#[derive(Debug, Clone, Copy, PartialEq, Eq, Structural)]
pub enum RequestType {
    Seize,
    Yield,
}

/// The summary a notification is presented under when it originated on
/// `origin` and is shown on a host with a different name: the origin host
/// is prefixed so remote notifications are visually distinguishable.
pub open spec fn remote_summary(origin: Seq<char>, summary: Seq<char>) -> Seq<char> {
    "@"@ + origin + ": "@ + summary
}

/// What [`annotate`] returns: the notification unchanged when it originated
/// locally, and with the origin-host prefix on its summary otherwise.
pub open spec fn annotated(n: NotificationView, local_hostname: Seq<char>) -> NotificationView {
    if n.hostname == local_hostname {
        n
    } else {
        NotificationView { summary: remote_summary(n.hostname, n.summary), ..n }
    }
}

/// Prefixes the summary of a remotely-originated notification with
/// `@origin-host: `; a notification whose hostname matches the local one is
/// returned unmodified.
pub fn annotate(n: Notification, local_hostname: &String) -> (r: Notification)
    ensures
        r@ == annotated(n@, local_hostname@),
{
    if n.hostname.eq(local_hostname) {
        n
    } else {
        let mut summary: String = String::new();
        summary.append("@");
        summary.append(n.hostname.as_str());
        summary.append(": ");
        summary.append(n.summary.as_str());
        Notification { summary, ..n }
    }
}

} // verus!
