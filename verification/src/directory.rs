use vstd::prelude::*;

verus! {

/// One row of the device directory, as stored.
#[derive(Debug)]
pub struct DirectoryRow {
    pub host_id: String,
    pub name: String,
}

/// A controllable light: its identifier in the directory, its display name
/// and where commands for it go.
#[derive(Debug)]
pub struct Device {
    pub host_id: String,
    pub name: String,
    pub address: String,
}

/// A directory row as plain text.
pub struct DirectoryRowView {
    pub host_id: Seq<char>,
    pub name: Seq<char>,
}

/// A device as plain text.
pub struct DeviceView {
    pub host_id: Seq<char>,
    pub name: Seq<char>,
    pub address: Seq<char>,
}

impl View for DirectoryRow {
    type V = DirectoryRowView;

    open spec fn view(&self) -> DirectoryRowView {
        DirectoryRowView { host_id: self.host_id@, name: self.name@ }
    }
}

impl View for Device {
    type V = DeviceView;

    open spec fn view(&self) -> DeviceView {
        DeviceView { host_id: self.host_id@, name: self.name@, address: self.address@ }
    }
}

/// The address of the device `host_id` on the network `prefix`: the prefix, a
/// dot, the identifier, a colon and the control port.
pub open spec fn address_of(prefix: Seq<char>, host_id: Seq<char>) -> Seq<char> {
    prefix + "."@ + host_id + ":38899"@
}

/// The device that a directory row describes on the network `prefix`.
pub open spec fn device_of(prefix: Seq<char>, row: DirectoryRowView) -> DeviceView {
    DeviceView {
        host_id: row.host_id,
        name: row.name,
        address: address_of(prefix, row.host_id),
    }
}

/// Derives a device's `host:port` address from the network prefix and the
/// device's identifier.
pub fn derive_address(prefix: &str, host_id: &str) -> (address: String)
    ensures
        address@ == address_of(prefix@, host_id@),
{
    let mut address = String::from_str(prefix);
    address.append(".");
    address.append(host_id);
    address.append(":38899");
    address
}

/// Turns the directory's rows into devices, one per row and in the rows'
/// order, each with its derived address.
pub fn list_devices(prefix: &str, rows: &Vec<DirectoryRow>) -> (devices: Vec<Device>)
    ensures
        devices.len() == rows.len(),
        forall|i: int|
            0 <= i < rows.len() ==> (#[trigger] devices[i])@ == device_of(prefix@, rows[i]@),
{
    let mut devices: Vec<Device> = Vec::new();
    let mut i: usize = 0;
    while i < rows.len()
        invariant
            i <= rows.len(),
            devices.len() == i,
            forall|j: int| 0 <= j < i ==> (#[trigger] devices[j])@ == device_of(prefix@, rows[j]@),
        decreases rows.len() - i,
    {
        let row = &rows[i];
        let device = Device {
            host_id: row.host_id.clone(),
            name: row.name.clone(),
            address: derive_address(prefix, row.host_id.as_str()),
        };
        devices.push(device);
        i += 1;
    }
    devices
}

/// Spelled out character by character, an address is the prefix, a dot, the
/// identifier and the text `:38899`; so equal inputs give equal addresses, and
/// nothing else enters it.
pub proof fn lemma_address_shape(prefix: Seq<char>, host_id: Seq<char>)
    ensures
        address_of(prefix, host_id) == prefix + seq!['.'] + host_id + seq![
            ':',
            '3',
            '8',
            '8',
            '9',
            '9',
        ],
        address_of(prefix, host_id).len() == prefix.len() + host_id.len() + 7,
{
    reveal_strlit(".");
    reveal_strlit(":38899");
    assert("."@ =~= seq!['.']);
    assert(":38899"@ =~= seq![':', '3', '8', '8', '9', '9']);
}

} // verus!
