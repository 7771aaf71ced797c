//! The status-icon vocabulary: which named icon resource the tray widget is
//! asked to display for each alert condition. The widget itself lives outside
//! the library; it receives the resource name computed here.

use vstd::prelude::*;

verus! {

/// The two status icons the dispatcher can request.
#[derive(Clone, Copy, Debug, PartialEq, Eq, Structural)]
pub enum Icon {
    /// The alert indicator, shown while alerting.
    Red,
    /// The normal indicator, shown while idle.
    Green,
}

/// The named icon resource the tray widget is handed for each icon.
pub fn icon_resource_name(icon: &Icon) -> (r: &'static str)
    ensures
        r@ == (match icon {
            Icon::Red => "red"@,
            Icon::Green => "green"@,
        }),
{
    match icon {
        Icon::Red => "red",
        Icon::Green => "green",
    }
}

} // verus!
