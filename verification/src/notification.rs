//! The notification wording. The desktop sink is fire-and-forget and lives
//! outside the library; it is handed the summary and body computed here.

use vstd::prelude::*;
use crate::dispatch::NotificationKind;

verus! {

/// The summary line of every alert notification.
pub fn notification_summary(k: &NotificationKind) -> (r: &'static str)
    ensures
        r@ == "Alert"@,
{
    match k {
        NotificationKind::Started => "Alert",
        NotificationKind::Stopped => "Alert",
    }
}

/// The body of an alert notification.
pub fn notification_body(k: &NotificationKind) -> (r: &'static str)
    ensures
        r@ == (match k {
            NotificationKind::Started => "Alert started"@,
            NotificationKind::Stopped => "Alert stopped"@,
        }),
{
    match k {
        NotificationKind::Started => "Alert started",
        NotificationKind::Stopped => "Alert stopped",
    }
}

} // verus!
