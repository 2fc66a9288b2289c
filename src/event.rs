use vstd::prelude::*;

verus! {

/// What the event source reports about the adapter and its devices.
#[derive(Debug, Clone, Copy, PartialEq, Eq, Structural)]
pub enum BluetoothEvent {
    /// The adapter was powered on.
    AdapterOn,
    /// The adapter was powered off.
    AdapterOff,
    /// An interface appeared: a hint that a device may have connected.
    InterfaceAdded,
    /// An interface went away: a hint that a device may have disconnected.
    InterfaceRemoved,
}

/// What a subscriber takes from the bounded event channel.
#[derive(Debug, Clone, Copy, PartialEq, Eq, Structural)]
pub enum Received {
    /// The next event, in the order sent.
    Event(BluetoothEvent),
    /// This many of the oldest events were dropped because the subscriber fell behind.
    Lagged(u64),
    /// The channel is closed for good: no event will come.
    Closed,
}

/// The event signalled by a change of the adapter's `Powered` property, where the
/// change carries a boolean for it.
pub fn powered_change_event(powered: Option<bool>) -> (r: Option<BluetoothEvent>)
    ensures
        r == match powered {
            Some(true) => Some(BluetoothEvent::AdapterOn),
            Some(false) => Some(BluetoothEvent::AdapterOff),
            None => None::<BluetoothEvent>,
        },
{
    match powered {
        Some(true) => Some(BluetoothEvent::AdapterOn),
        Some(false) => Some(BluetoothEvent::AdapterOff),
        None => None,
    }
}

} // verus!
