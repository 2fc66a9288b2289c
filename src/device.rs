use vstd::prelude::*;

verus! {

/// A device known to the adapter, as reported by the device query.
#[derive(Debug, Clone, PartialEq, Eq)]
pub struct BluetoothDevice {
    /// The D-Bus object path of the device.
    pub object_path: String,
    /// The name of the device, where it has one.
    pub common_name: Option<String>,
    /// Whether the device is currently connected.
    pub connected: bool,
}

/// The number of connected devices among the first `n` of `devices`.
pub open spec fn count_connected(devices: Seq<BluetoothDevice>, n: int) -> nat
    decreases n,
{
    if n <= 0 {
        0
    } else {
        count_connected(devices, n - 1) + if devices[n - 1].connected { 1nat } else { 0nat }
    }
}

/// Counts the connected devices of a device listing.
pub fn connected_count(devices: &Vec<BluetoothDevice>) -> (r: usize)
    ensures
        r == count_connected(devices@, devices@.len() as int),
{
    let mut count: usize = 0;
    let mut i: usize = 0;
    while i < devices.len()
        invariant
            i <= devices.len(),
            count == count_connected(devices@, i as int),
            count <= i,
        decreases devices.len() - i,
    {
        if devices[i].connected {
            count = count + 1;
        }
        i = i + 1;
    }
    count
}

/// Whether `object_path` names a device of the adapter at `adapter_path`: it lies
/// under the adapter's path and starts with `dev_` there.
pub fn is_adapter_device_path(adapter_path: &str, object_path: &str) -> (r: bool)
    ensures
        r == (adapter_path@ + "/dev_"@).is_prefix_of(object_path@),
{
    let mut prefix = String::from_str(adapter_path);
    prefix.append("/dev_");
    let p = prefix.as_str();
    let plen = p.unicode_len();
    let olen = object_path.unicode_len();
    if plen > olen {
        return false;
    }
    let mut i: usize = 0;
    while i < plen
        invariant
            plen == p@.len(),
            olen == object_path@.len(),
            plen <= olen,
            p@ == adapter_path@ + "/dev_"@,
            i <= plen,
            forall|k: int| 0 <= k < i ==> p@[k] == object_path@[k],
        decreases plen - i,
    {
        if p.get_char(i) != object_path.get_char(i) {
            assert(p@[i as int] != object_path@.subrange(0, plen as int)[i as int]);
            return false;
        }
        i = i + 1;
    }
    assert(p@ =~= object_path@.subrange(0, plen as int));
    true
}

/// The device that a managed object describes, where it is a device of the adapter
/// at `adapter_path`: it implements the device interface and its path lies under
/// the adapter's. A missing or non-boolean `Connected` property counts as not
/// connected.
pub fn device_from_object(
    adapter_path: &str,
    object_path: String,
    has_device_iface: bool,
    common_name: Option<String>,
    connected: Option<bool>,
) -> (r: Option<BluetoothDevice>)
    ensures
        r is Some <==> has_device_iface && (adapter_path@ + "/dev_"@).is_prefix_of(object_path@),
        r is Some ==> r->0.object_path == object_path && r->0.common_name == common_name
            && r->0.connected == (connected == Some(true)),
{
    if !has_device_iface || !is_adapter_device_path(adapter_path, object_path.as_str()) {
        return None;
    }
    let connected = match connected {
        Some(c) => c,
        None => false,
    };
    Some(BluetoothDevice { object_path, common_name, connected })
}

} // verus!
