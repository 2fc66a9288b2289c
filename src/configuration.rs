use vstd::prelude::*;

use crate::timeout::TimeoutTask;

verus! {

/// D-Bus names of the Bluetooth service, its adapter and device interfaces, and
/// the adapter to manage.
#[derive(Debug, Clone, PartialEq, Eq)]
pub struct DBusConf {
    /// D-Bus service name (usually "org.bluez").
    pub service: String,
    /// D-Bus interface name of Bluetooth adapters.
    pub adapter_iface: String,
    /// D-Bus object path of the adapter to manage.
    pub adapter_path: String,
    /// D-Bus interface name of Bluetooth devices.
    pub device_iface: String,
}

/// The settings of the controller, as plain values.
#[derive(Debug, Clone, PartialEq, Eq)]
pub struct Conf {
    /// Milliseconds of inactivity before the adapter is powered off.
    pub timeout: u64,
    /// Whether notifications are sent.
    pub notifications_enabled: bool,
    /// Remaining times (milliseconds) at which a warning is sent.
    pub notifications_at: Vec<u64>,
    /// D-Bus related settings.
    pub dbus: DBusConf,
}

impl Default for Conf {
    /// Five minutes and one second of inactivity, with warnings at five minutes,
    /// one minute, thirty and ten seconds, for the adapter `hci0` of BlueZ.
    fn default() -> (r: Self)
        ensures
            r.timeout == 301_000,
            r.notifications_enabled,
            r.notifications_at@ == seq![300_000u64, 60_000u64, 30_000u64, 10_000u64],
            r.dbus.service@ == "org.bluez"@,
            r.dbus.adapter_iface@ == "org.bluez.Adapter1"@,
            r.dbus.adapter_path@ == "/org/bluez/hci0"@,
            r.dbus.device_iface@ == "org.bluez.Device1"@,
    {
        let mut at: Vec<u64> = Vec::new();
        at.push(300_000);
        at.push(60_000);
        at.push(30_000);
        at.push(10_000);
        assert(at@ =~= seq![300_000u64, 60_000u64, 30_000u64, 10_000u64]);
        Conf {
            timeout: 301_000,
            notifications_enabled: true,
            notifications_at: at,
            dbus: DBusConf {
                service: String::from_str("org.bluez"),
                adapter_iface: String::from_str("org.bluez.Adapter1"),
                adapter_path: String::from_str("/org/bluez/hci0"),
                device_iface: String::from_str("org.bluez.Device1"),
            },
        }
    }
}

impl Conf {
    /// The countdown task that these settings describe.
    pub fn timeout_task(&self) -> (r: TimeoutTask)
        ensures
            r.wf(),
            r.timeout == self.timeout,
            r.notifications_enabled == self.notifications_enabled,
            forall|t: u64|
                r.checkpoints@.contains(t) <==> (self.notifications_at@.contains(t) && t
                    < self.timeout),
    {
        TimeoutTask::new(self.timeout, self.notifications_enabled, &self.notifications_at)
    }
}

} // verus!
