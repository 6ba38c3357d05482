//! The library driven against a native layer that lives in memory: it
//! answers the calls that the library asks for, and keeps count of what is
//! open and of what was released.
use xdevices::native::{NativeCall, Step};
use xdevices::xinput::property::{InputDeviceProperty, PropertyError, PropertyReply, XA_INTEGER};
use xdevices::xinput::{
    AtomList, DeviceInfo, DeviceList, InputDevice, InputDevices, IS_X_EXTENSION_KEYBOARD,
    IS_X_EXTENSION_POINTER,
};
use xdevices::xlib::{ConnectError, Display};

struct Property {
    name: &'static str,
    type_: u64,
    format: i32,
    data: Vec<u8>,
}

struct Device {
    id: u64,
    name: &'static str,
    use_: i32,
    properties: Vec<Property>,
    /// Whether `XOpenDevice` finds the device.
    present: bool,
}

/// What came back from a call.
#[derive(Debug)]
enum Answer {
    Pointer(usize),
    Devices { list: usize, records: Vec<DeviceInfo> },
    Atoms { data: usize, atoms: Vec<u64> },
    Atom(u64),
    Property(PropertyReply),
    Released,
}

#[derive(Default)]
struct Server {
    reachable: Vec<&'static str>,
    devices: Vec<Device>,
    next_address: usize,
    sessions: Vec<usize>,
    lists: Vec<usize>,
    opened: Vec<(usize, u64)>,
    arrays: Vec<usize>,
    calls: Vec<String>,
    releases: usize,
}

impl Server {
    fn new(reachable: &[&'static str], devices: Vec<Device>) -> Server {
        Server { reachable: reachable.to_vec(), devices, next_address: 0x1000, ..Server::default() }
    }

    fn fresh(&mut self) -> usize {
        self.next_address += 0x100;
        self.next_address
    }

    /// The atom of a name, if a device has a property of that name.
    fn atom(&self, name: &str) -> u64 {
        let mut names: Vec<&str> = Vec::new();
        for device in &self.devices {
            for property in &device.properties {
                if !names.contains(&property.name) {
                    names.push(property.name);
                }
            }
        }
        match names.iter().position(|known| *known == name) {
            Some(index) => 200 + index as u64,
            None => 0,
        }
    }

    fn take<T: PartialEq + std::fmt::Debug>(live: &mut Vec<T>, item: T) {
        match live.iter().position(|held| *held == item) {
            Some(index) => {
                live.remove(index);
            }
            None => panic!("{:?} is released, and was not held", item),
        }
    }

    fn perform(&mut self, call: NativeCall) -> Answer {
        self.calls.push(format!("{:?}", call));
        match call {
            NativeCall::OpenDisplay { name } => {
                if self.reachable.contains(&name) {
                    let session = self.fresh();
                    self.sessions.push(session);
                    Answer::Pointer(session)
                } else {
                    Answer::Pointer(0)
                }
            }
            NativeCall::CloseDisplay { display } => {
                Server::take(&mut self.sessions, display);
                self.releases += 1;
                Answer::Released
            }
            NativeCall::ListInputDevices { display } => {
                assert!(self.sessions.contains(&display));
                let list = self.fresh();
                self.lists.push(list);
                let records = self
                    .devices
                    .iter()
                    .map(|device| DeviceInfo {
                        id: device.id,
                        name: device.name.to_string(),
                        use_: device.use_,
                    })
                    .collect();
                Answer::Devices { list, records }
            }
            NativeCall::FreeDeviceList { list } => {
                Server::take(&mut self.lists, list);
                self.releases += 1;
                Answer::Released
            }
            NativeCall::OpenDevice { display, id } => {
                assert!(self.sessions.contains(&display));
                let found = self.devices.iter().any(|device| device.id == id && device.present);
                if found {
                    let device = self.fresh();
                    self.opened.push((device, id));
                    Answer::Pointer(device)
                } else {
                    Answer::Pointer(0)
                }
            }
            NativeCall::CloseDevice { display, device } => {
                assert!(self.sessions.contains(&display));
                let id = self.id_of(device);
                Server::take(&mut self.opened, (device, id));
                self.releases += 1;
                Answer::Released
            }
            NativeCall::ListDeviceProperties { display, device } => {
                assert!(self.sessions.contains(&display));
                let id = self.id_of(device);
                let data = self.fresh();
                self.arrays.push(data);
                let atoms = self.device(id).properties.iter().map(|p| self.atom(p.name)).collect();
                Answer::Atoms { data, atoms }
            }
            NativeCall::Free { data } => {
                Server::take(&mut self.arrays, data);
                self.releases += 1;
                Answer::Released
            }
            NativeCall::InternAtom { display, name, only_if_exists } => {
                assert!(self.sessions.contains(&display));
                assert!(only_if_exists);
                Answer::Atom(self.atom(name))
            }
            NativeCall::GetDeviceProperty {
                display,
                device,
                property,
                offset,
                length,
                delete,
                req_type,
            } => {
                assert!(self.sessions.contains(&display));
                assert_eq!((offset, delete, req_type), (0, false, 0));
                let id = self.id_of(device);
                let held = self.device(id).properties.iter().find(|p| self.atom(p.name) == property);
                Answer::Property(match held {
                    Some(held) => {
                        let sent = held.data.len().min(length as usize * 4);
                        PropertyReply {
                            status: 0,
                            type_: held.type_,
                            format: held.format,
                            nitems: (sent / (held.format as usize / 8)) as u64,
                            bytes_after: (held.data.len() - sent) as u64,
                            data: held.data[..sent].to_vec(),
                        }
                    }
                    None => PropertyReply {
                        status: 0,
                        type_: 0,
                        format: 0,
                        nitems: 0,
                        bytes_after: 0,
                        data: Vec::new(),
                    },
                })
            }
        }
    }

    fn id_of(&self, device: usize) -> u64 {
        match self.opened.iter().find(|(address, _)| *address == device) {
            Some((_, id)) => *id,
            None => panic!("{:#x} is no opened device", device),
        }
    }

    fn device(&self, id: u64) -> &Device {
        self.devices.iter().find(|device| device.id == id).unwrap()
    }

    fn holds_nothing(&self) -> bool {
        self.sessions.is_empty()
            && self.lists.is_empty()
            && self.opened.is_empty()
            && self.arrays.is_empty()
    }
}

fn connect(server: &mut Server, address: &str) -> Result<Display, ConnectError> {
    let mut opened = None;
    loop {
        match Display::connect(address, opened) {
            Step::Call(call) => match server.perform(call) {
                Answer::Pointer(session) => opened = Some(session),
                other => panic!("unexpected answer {:?}", other),
            },
            Step::Done(result) => return result,
        }
    }
}

fn list(server: &mut Server, session: &mut Display) -> (usize, Vec<DeviceInfo>) {
    match session.devices(None) {
        Step::Call(call) => match server.perform(call) {
            Answer::Devices { list, records } => (list, records),
            other => panic!("unexpected answer {:?}", other),
        },
        Step::Done(_) => panic!("a directory without a list"),
    }
}

fn directory<'a>(
    session: &'a mut Display,
    list: usize,
    records: &'a [DeviceInfo],
) -> InputDevices<'a> {
    match session.devices(Some(DeviceList { list, records })) {
        Step::Done(devices) => devices,
        Step::Call(call) => panic!("unexpected call {:?}", call),
    }
}

fn next<'a>(server: &mut Server, devices: &mut InputDevices<'a>) -> Option<InputDevice<'a>> {
    let mut opened = None;
    loop {
        match devices.next(opened) {
            Step::Call(call) => match server.perform(call) {
                Answer::Pointer(device) => opened = Some(device),
                other => panic!("unexpected answer {:?}", other),
            },
            Step::Done(device) => return device,
        }
    }
}

/// The atoms of a device's properties, and the number of release calls that
/// giving the directory up took.
fn properties(server: &mut Server, device: &InputDevice) -> (Vec<u64>, usize) {
    let mut answer: Option<(usize, Vec<u64>)> = None;
    let before = server.releases;
    let mut seen = Vec::new();
    loop {
        let listed = answer.as_ref().map(|(data, atoms)| AtomList { data: *data, atoms });
        match device.list_props(listed) {
            Step::Call(call) => match server.perform(call) {
                Answer::Atoms { data, atoms } => answer = Some((data, atoms)),
                other => panic!("unexpected answer {:?}", other),
            },
            Step::Done(mut directory) => {
                while let Some(atom) = directory.next() {
                    seen.push(atom);
                }
                if let Some(call) = directory.release() {
                    server.perform(call);
                }
                return (seen, server.releases - before);
            }
        }
    }
}

fn product_id(server: &mut Server, device: &InputDevice) -> Result<Option<(u16, u16)>, PropertyError> {
    let mut atom = None;
    let mut reply = None;
    loop {
        match device.product_id(atom, reply.as_ref()) {
            Step::Call(call) => match server.perform(call) {
                Answer::Atom(found) => atom = Some(found),
                Answer::Property(found) => reply = Some(found),
                other => panic!("unexpected answer {:?}", other),
            },
            Step::Done(result) => return result,
        }
    }
}

fn property(
    server: &mut Server,
    device: &InputDevice,
    name: &str,
) -> Result<Option<InputDeviceProperty>, PropertyError> {
    let mut atom = None;
    let mut reply = None;
    loop {
        match device.get_prop(name, atom, reply.as_ref()) {
            Step::Call(call) => match server.perform(call) {
                Answer::Atom(found) => atom = Some(found),
                Answer::Property(found) => reply = Some(found),
                other => panic!("unexpected answer {:?}", other),
            },
            Step::Done(result) => return result,
        }
    }
}

fn close(server: &mut Server, device: InputDevice) {
    if let Some(call) = device.close() {
        server.perform(call);
    }
}

fn two_devices() -> Vec<Device> {
    vec![
        Device {
            id: 9,
            name: "USB Optical Mouse",
            use_: IS_X_EXTENSION_POINTER,
            properties: vec![Property {
                name: "Device Product ID",
                type_: XA_INTEGER,
                format: 16,
                data: vec![0x46, 0x04, 0x01, 0x00],
            }],
            present: true,
        },
        Device { id: 2, name: "Virtual core pointer", use_: 0, properties: vec![], present: true },
    ]
}

#[test]
fn two_devices_from_end_to_end() {
    let mut server = Server::new(&[":0"], two_devices());
    let mut session = connect(&mut server, ":0").unwrap();
    let (list, records) = list(&mut server, &mut session);
    let mut devices = directory(&mut session, list, &records);
    assert_eq!(devices.size_hint(), (2, Some(2)));

    let first = next(&mut server, &mut devices).expect("the first handle");
    assert_eq!(devices.size_hint(), (1, Some(1)));
    let second = next(&mut server, &mut devices).expect("the second handle");
    assert_eq!(devices.size_hint(), (0, Some(0)));
    assert!(next(&mut server, &mut devices).is_none());

    assert_eq!(first.id(), 9);
    assert_eq!(first.name(), "USB Optical Mouse");
    assert!(matches!(first.opened(), Ok(Some(_))));
    let (atoms, releases) = properties(&mut server, &first);
    assert_eq!(atoms.len(), 1);
    assert_eq!(atoms, vec![server.atom("Device Product ID")]);
    assert_eq!(releases, 1);
    assert_eq!(product_id(&mut server, &first), Ok(Some((0x0446, 0x0001))));
    assert_eq!(
        property(&mut server, &first, "Device Product ID"),
        Ok(Some(InputDeviceProperty::Int16(vec![0x0446, 0x0001])))
    );

    assert_eq!(second.id(), 2);
    assert_eq!(second.name(), "Virtual core pointer");
    assert_eq!(second.opened(), Ok(None));
    let calls = server.calls.len();
    let (atoms, releases) = properties(&mut server, &second);
    assert!(atoms.is_empty());
    assert_eq!(releases, 0);
    assert_eq!(product_id(&mut server, &second), Ok(None));
    assert_eq!(property(&mut server, &second, "Device Product ID"), Ok(None));
    // The device that was not opened took no native call at all.
    assert_eq!(server.calls.len(), calls);

    close(&mut server, first);
    close(&mut server, second);
    let free = devices.release();
    server.perform(free);
    let end = session.close();
    server.perform(end);
    assert!(server.holds_nothing());
    // The array of atoms, the opened device, the array of records, the session.
    assert_eq!(server.releases, 4);
}

#[test]
fn an_address_that_is_not_reachable_acquires_nothing() {
    let mut server = Server::new(&[":0"], two_devices());
    for address in [":1", "", "remote:0", ":00", " :0"] {
        assert_eq!(connect(&mut server, address), Err(ConnectError::Unreachable));
        assert!(server.holds_nothing());
    }
    assert_eq!(server.calls.len(), 5);
    assert!(server.calls.iter().all(|call| call.starts_with("OpenDisplay")));
    assert_eq!(server.releases, 0);
    // A name that no C string holds is not even asked for.
    assert_eq!(connect(&mut server, ":0\0"), Err(ConnectError::InvalidAddress));
    assert_eq!(server.calls.len(), 5);
}

#[test]
fn a_directory_that_is_given_up_early_frees_its_array_once() {
    let mut server = Server::new(&[":0"], two_devices());
    let mut session = connect(&mut server, ":0").unwrap();
    for consumed in 0..=2 {
        let (list, records) = list(&mut server, &mut session);
        let mut devices = directory(&mut session, list, &records);
        let mut handles = Vec::new();
        for _ in 0..consumed {
            handles.push(next(&mut server, &mut devices).unwrap());
        }
        let before = server.releases;
        let free = devices.release();
        assert_eq!(free, NativeCall::FreeDeviceList { list });
        server.perform(free);
        assert_eq!(server.releases, before + 1);
        assert!(server.lists.is_empty());
        for handle in handles {
            close(&mut server, handle);
        }
        assert!(server.opened.is_empty());
    }
    let end = session.close();
    server.perform(end);
    assert!(server.holds_nothing());
}

#[test]
fn every_opened_device_is_closed_once() {
    let devices = vec![
        Device { id: 3, name: "Virtual core keyboard", use_: 1, properties: vec![], present: true },
        Device {
            id: 10,
            name: "Keyboard",
            use_: IS_X_EXTENSION_KEYBOARD,
            properties: vec![],
            present: true,
        },
        Device {
            id: 11,
            name: "Unplugged",
            use_: IS_X_EXTENSION_POINTER,
            properties: vec![],
            present: false,
        },
        Device {
            id: 12,
            name: "Mouse",
            use_: IS_X_EXTENSION_POINTER,
            properties: vec![],
            present: true,
        },
    ];
    let mut server = Server::new(&[":7"], devices);
    let mut session = connect(&mut server, ":7").unwrap();
    let (list, records) = list(&mut server, &mut session);
    let mut directory = directory(&mut session, list, &records);
    let mut handles = Vec::new();
    while let Some(handle) = next(&mut server, &mut directory) {
        handles.push(handle);
    }
    assert_eq!(handles.iter().map(|h| h.id()).collect::<Vec<_>>(), vec![3, 10, 11, 12]);
    assert_eq!(server.opened.len(), 2);
    let opens = server.calls.iter().filter(|call| call.starts_with("OpenDevice")).count();
    assert_eq!(opens, 3);
    assert!(handles[2].opened().is_err());
    assert_eq!(product_id(&mut server, &handles[2]), Ok(None));

    let before = server.releases;
    for handle in handles {
        close(&mut server, handle);
    }
    assert_eq!(server.releases, before + 2);
    assert!(server.opened.is_empty());
    let free = directory.release();
    server.perform(free);
    let end = session.close();
    server.perform(end);
    assert!(server.holds_nothing());
}

#[test]
fn a_property_that_another_device_has_is_absent_here() {
    let mut devices = two_devices();
    devices.push(Device {
        id: 14,
        name: "Plain Keyboard",
        use_: IS_X_EXTENSION_KEYBOARD,
        properties: vec![Property {
            name: "Device Enabled",
            type_: XA_INTEGER,
            format: 8,
            data: vec![1],
        }],
        present: true,
    });
    let mut server = Server::new(&[":0"], devices);
    let mut session = connect(&mut server, ":0").unwrap();
    let (list, records) = list(&mut server, &mut session);
    let mut directory = directory(&mut session, list, &records);
    let mouse = next(&mut server, &mut directory).unwrap();
    let _core = next(&mut server, &mut directory).unwrap();
    let keyboard = next(&mut server, &mut directory).unwrap();

    // The name has an atom, since the mouse has the property; the keyboard has not.
    assert_ne!(server.atom("Device Product ID"), 0);
    assert_eq!(product_id(&mut server, &keyboard), Ok(None));
    assert_eq!(property(&mut server, &keyboard, "Device Product ID"), Ok(None));
    assert_eq!(
        property(&mut server, &keyboard, "Device Enabled"),
        Ok(Some(InputDeviceProperty::Int8(vec![1])))
    );
    assert_eq!(property(&mut server, &mouse, "Device Enabled"), Ok(None));
    // A name that was never interned.
    assert_eq!(property(&mut server, &mouse, "Button Labels"), Ok(None));
    assert_eq!(product_id(&mut server, &mouse), Ok(Some((0x0446, 0x0001))));
}
