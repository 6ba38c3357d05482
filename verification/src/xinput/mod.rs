//! Input devices: the directory that lists them, the handle on one of them,
//! and the directory of a device's properties.
use crate::native::{has_nul, contains_nul, Atom, NativeCall, Step, ANY_PROPERTY_TYPE, NO_ATOM, XID};
use crate::xlib::Display;
use libc::{c_int, c_long};
use vstd::prelude::*;

pub mod laws;
pub mod property;

pub use property::InputDeviceProperty;
use property::{decoded, id_pair, models, PropertyError, PropertyModel, PropertyReply};

verus! {

/// The use of an extension device that is a keyboard.
pub const IS_X_EXTENSION_KEYBOARD: c_int = 3;

/// The use of an extension device that is a pointer.
pub const IS_X_EXTENSION_POINTER: c_int = 4;

/// The number of 32-bit words of a property that one query asks for: the
/// largest whose bytes a signed number of 32 bits still counts, so that a
/// property comes whole.
pub const PROPERTY_WORDS: c_long = 0x1fff_ffff;

/// The name of the property that holds a device's vendor and product number.
pub const PRODUCT_ID: &'static str = "Device Product ID";

/// A device record, read from the array that `XListInputDevices` returned.
#[derive(Debug, PartialEq, Eq)]
pub struct DeviceInfo {
    /// The device's identifier.
    pub id: XID,
    /// The device's name.
    pub name: String,
    /// The device's use.
    pub use_: c_int,
}

/// What `XListInputDevices` returned: the array's address and its records in
/// the array's order.
#[derive(Clone, Copy, Debug)]
pub struct DeviceList<'a> {
    pub list: usize,
    pub records: &'a [DeviceInfo],
}

/// What `XListDeviceProperties` returned: the array's address and its atoms in
/// the array's order.
#[derive(Clone, Copy, Debug)]
pub struct AtomList<'a> {
    pub data: usize,
    pub atoms: &'a [Atom],
}

/// Whether devices of a use are opened: the extension keyboards and pointers.
pub open spec fn can_open(use_: c_int) -> bool {
    use_ == IS_X_EXTENSION_KEYBOARD || use_ == IS_X_EXTENSION_POINTER
}

/// Why a device holds no opened device though devices of its use are opened:
/// `XOpenDevice` returned null for it.
#[derive(Clone, Copy, Debug, PartialEq, Eq)]
pub struct OpenError {
    /// The identifier of the device.
    pub id: XID,
}

/// A handle as mathematics: the session, the record, and the opened device
/// where there is one.
pub struct DeviceView {
    pub display: usize,
    pub info: DeviceInfo,
    pub device: Option<usize>,
}

impl DeviceView {
    /// The session is not null, and only a device of a use that is opened
    /// holds an opened device, which is not null.
    pub open spec fn wf(self) -> bool {
        &&& self.display != 0
        &&& self.device matches Some(opened) ==> opened != 0 && can_open(self.info.use_)
    }

    /// The opened device, or none for a device of a use that is not opened,
    /// or the failure to open it.
    pub open spec fn opened(self) -> Result<Option<usize>, OpenError> {
        match self.device {
            Some(opened) => Ok(Some(opened)),
            None => if can_open(self.info.use_) {
                Err(OpenError { id: self.info.id })
            } else {
                Ok(None)
            },
        }
    }

    /// The call that gives the handle up, if it owes one: the opened device
    /// is closed.
    pub open spec fn release(self) -> Option<NativeCall<'static>> {
        match self.device {
            Some(opened) => Some(NativeCall::CloseDevice { display: self.display, device: opened }),
            None => None,
        }
    }
}

/// The handle on a record: a device of a use that is opened asks for
/// `XOpenDevice` and holds what it returned, unless that is null; any other
/// device holds no opened device and asks for nothing.
pub open spec fn opens(display: usize, info: DeviceInfo, opened: Option<usize>) -> Step<
    'static,
    DeviceView,
> {
    if !can_open(info.use_) {
        Step::Done(DeviceView { display, info, device: None })
    } else {
        match opened {
            None => Step::Call(NativeCall::OpenDevice { display, id: info.id }),
            Some(device) => Step::Done(
                DeviceView { display, info, device: if device == 0 {
                    None
                } else {
                    Some(device)
                } },
            ),
        }
    }
}

/// The lookup of a property by name. A handle without an opened device has no
/// properties. A name that no C string can carry, and one that was never
/// interned, name none. A name that has an atom is queried from the start of
/// the property, for any type, without deleting it, and the reply is decoded.
pub open spec fn lookup<'n>(
    device: DeviceView,
    name: &'n str,
    atom: Option<Atom>,
    reply: Option<&PropertyReply>,
) -> Step<'n, Result<Option<PropertyModel>, PropertyError>> {
    match device.device {
        None => Step::Done(Ok(None)),
        Some(opened) => if has_nul(name) {
            Step::Done(Ok(None))
        } else {
            match atom {
                None => Step::Call(
                    NativeCall::InternAtom { display: device.display, name, only_if_exists: true },
                ),
                Some(property) => if property == NO_ATOM {
                    Step::Done(Ok(None))
                } else {
                    match reply {
                        None => Step::Call(
                            NativeCall::GetDeviceProperty {
                                display: device.display,
                                device: opened,
                                property,
                                offset: 0,
                                length: PROPERTY_WORDS,
                                delete: false,
                                req_type: ANY_PROPERTY_TYPE,
                            },
                        ),
                        Some(reply) => Step::Done(decoded(*reply)),
                    }
                },
            }
        },
    }
}

/// Whether the step of a lookup is the one that the model gives.
pub open spec fn found<'n>(
    step: Step<'n, Result<Option<InputDeviceProperty>, PropertyError>>,
    model: Step<'n, Result<Option<PropertyModel>, PropertyError>>,
) -> bool {
    match model {
        Step::Call(call) => step == Step::<
            Result<Option<InputDeviceProperty>, PropertyError>,
        >::Call(call),
        Step::Done(value) => step matches Step::Done(result) && models(result, value),
    }
}

/// The lookup of the vendor and product number: the lookup of the property
/// [`PRODUCT_ID`], whose value is read as a pair of 16-bit fields.
pub open spec fn product_lookup(
    device: DeviceView,
    atom: Option<Atom>,
    reply: Option<&PropertyReply>,
) -> Step<'static, Result<Option<(u16, u16)>, PropertyError>> {
    match lookup(device, PRODUCT_ID, atom, reply) {
        Step::Call(call) => Step::Call(call),
        Step::Done(Ok(None)) => Step::Done(Ok(None)),
        Step::Done(Ok(Some(value))) => match id_pair(value) {
            Ok(pair) => Step::Done(Ok(Some(pair))),
            Err(error) => Step::Done(Err(error)),
        },
        Step::Done(Err(error)) => Step::Done(Err(error)),
    }
}

/// Whether a lookup learned that the device has no such property: the name
/// has no atom, or the query found nothing under it.
pub open spec fn absent(atom: Option<Atom>, reply: Option<&PropertyReply>) -> bool {
    match atom {
        None => false,
        Some(property) => property == NO_ATOM || match reply {
            None => false,
            Some(reply) => decoded(*reply) is Ok && decoded(*reply)->Ok_0 is None,
        },
    }
}

/// The directory of a handle's properties: a handle without an opened device
/// has the empty directory and asks for nothing; any other asks for
/// `XListDeviceProperties` and keeps what it returned.
pub open spec fn listing(device: DeviceView, listed: Option<AtomList>) -> Step<
    'static,
    PropertiesView,
> {
    match device.device {
        None => Step::Done(PropertiesView::empty()),
        Some(opened) => PropertiesView::list(device.display, opened, listed),
    }
}

/// An input device: a handle on one record of a directory's array. It owns
/// the opened device, if it holds one.
#[derive(Debug, PartialEq, Eq)]
pub struct InputDevice<'a> {
    display: usize,
    info: &'a DeviceInfo,
    ptr: Option<usize>,
}

impl<'a> View for InputDevice<'a> {
    type V = DeviceView;

    closed spec fn view(&self) -> DeviceView {
        DeviceView { display: self.display, info: *self.info, device: self.ptr }
    }
}

impl<'a> InputDevice<'a> {
    #[verifier::type_invariant]
    spec fn inv(&self) -> bool {
        self@.wf()
    }

    /// Makes the handle on a record. `opened` is what `XOpenDevice` returned
    /// for the record's identifier, if it was called yet.
    pub(crate) fn new(display: usize, info: &'a DeviceInfo, opened: Option<usize>) -> (step: Step<
        'static,
        InputDevice<'a>,
    >)
        requires
            display != 0,
        ensures
            handle_view(step) == opens(display, *info, opened),
    {
        if info.use_ == IS_X_EXTENSION_KEYBOARD || info.use_ == IS_X_EXTENSION_POINTER {
            match opened {
                None => Step::Call(NativeCall::OpenDevice { display, id: info.id }),
                Some(device) => {
                    let ptr = if device == 0 {
                        None
                    } else {
                        Some(device)
                    };
                    Step::Done(InputDevice { display, info, ptr })
                },
            }
        } else {
            Step::Done(InputDevice { display, info, ptr: None })
        }
    }

    /// Looks a property up by its name. `atom` is what `XInternAtom` returned
    /// for the name, and `reply` what `XGetDeviceProperty` returned for that
    /// atom, each if it was called yet. A property that the device has not
    /// is no error; one that cannot be decoded is.
    pub fn get_prop<'n>(
        &self,
        name: &'n str,
        atom: Option<Atom>,
        reply: Option<&PropertyReply>,
    ) -> (step: Step<'n, Result<Option<InputDeviceProperty>, PropertyError>>)
        ensures
            found(step, lookup(self@, name, atom, reply)),
            self@.device is None ==> step == Step::<
                Result<Option<InputDeviceProperty>, PropertyError>,
            >::Done(Ok(None)),
    {
        let device = match self.ptr {
            None => {
                return Step::Done(Ok(None));
            },
            Some(device) => device,
        };
        if contains_nul(name) {
            return Step::Done(Ok(None));
        }
        let property = match atom {
            None => {
                return Step::Call(
                    NativeCall::InternAtom { display: self.display, name, only_if_exists: true },
                );
            },
            Some(property) => property,
        };
        if property == NO_ATOM {
            return Step::Done(Ok(None));
        }
        match reply {
            None => Step::Call(
                NativeCall::GetDeviceProperty {
                    display: self.display,
                    device,
                    property,
                    offset: 0,
                    length: PROPERTY_WORDS,
                    delete: false,
                    req_type: ANY_PROPERTY_TYPE,
                },
            ),
            Some(reply) => Step::Done(InputDeviceProperty::decode(reply)),
        }
    }

    /// The identifier of the device.
    pub fn id(&self) -> (id: XID)
        ensures
            id == self@.info.id,
    {
        self.info.id
    }

    /// The opened device that the handle holds, if devices of its use are
    /// opened. That it could not be opened is an error that the caller may
    /// pass over: such a handle has no properties.
    pub fn opened(&self) -> (device: Result<Option<usize>, OpenError>)
        ensures
            device == self@.opened(),
            self@.wf(),
    {
        proof {
            use_type_invariant(self);
        }
        match self.ptr {
            Some(device) => Ok(Some(device)),
            None => if self.info.use_ == IS_X_EXTENSION_KEYBOARD || self.info.use_
                == IS_X_EXTENSION_POINTER {
                Err(OpenError { id: self.info.id })
            } else {
                Ok(None)
            },
        }
    }

    /// The directory of the device's properties. `listed` is what
    /// `XListDeviceProperties` returned for the opened device, if it was
    /// called yet. The handle stays borrowed while the directory is alive, so
    /// that the device cannot be closed before it.
    pub fn list_props<'p>(&'p self, listed: Option<AtomList<'p>>) -> (step: Step<
        'static,
        InputDevicePropertyIter<'p>,
    >)
        ensures
            directory_view(step) == listing(self@, listed),
            !can_open(self@.info.use_) ==> directory_view(step) == Step::<PropertiesView>::Done(
                PropertiesView::empty(),
            ),
    {
        proof {
            use_type_invariant(self);
        }
        if let Some(device) = self.ptr {
            InputDevicePropertyIter::new(self.display, device, listed)
        } else {
            Step::Done(InputDevicePropertyIter::empty())
        }
    }

    /// The name of the device: a copy of the record's name, which stays as
    /// it is.
    pub fn name(&self) -> (name: String)
        ensures
            name@ == self@.info.name@,
    {
        self.info.name.clone()
    }

    /// The vendor and product number of the device, with `atom` and `reply`
    /// as in [`InputDevice::get_prop`] for the property [`PRODUCT_ID`]. A
    /// device without that property has none; a property of another shape is
    /// an error.
    pub fn product_id(&self, atom: Option<Atom>, reply: Option<&PropertyReply>) -> (step: Step<
        'static,
        Result<Option<(u16, u16)>, PropertyError>,
    >)
        ensures
            step == product_lookup(self@, atom, reply),
            self@.device is None || absent(atom, reply) ==> step == Step::<
                Result<Option<(u16, u16)>, PropertyError>,
            >::Done(Ok(None)),
    {
        proof {
            lemma_product_id_name();
        }
        match self.get_prop(PRODUCT_ID, atom, reply) {
            Step::Call(call) => Step::Call(call),
            Step::Done(Ok(None)) => Step::Done(Ok(None)),
            Step::Done(Ok(Some(value))) => match value.to_id_pair() {
                Ok(pair) => Step::Done(Ok(Some(pair))),
                Err(error) => Step::Done(Err(error)),
            },
            Step::Done(Err(error)) => Step::Done(Err(error)),
        }
    }

    /// Gives the handle up: the answer is the one call that closes the opened
    /// device, or none where the handle holds no opened device.
    pub fn close(self) -> (call: Option<NativeCall<'static>>)
        ensures
            call == self@.release(),
    {
        match self.ptr {
            Some(device) => Some(NativeCall::CloseDevice { display: self.display, device }),
            None => None,
        }
    }
}

/// A step that makes a handle, as mathematics.
pub open spec fn handle_view<'a>(step: Step<'static, InputDevice<'a>>) -> Step<
    'static,
    DeviceView,
> {
    match step {
        Step::Call(call) => Step::Call(call),
        Step::Done(device) => Step::Done(device@),
    }
}

/// A step that yields a handle or the end, as mathematics.
pub open spec fn yield_view<'a>(step: Step<'static, Option<InputDevice<'a>>>) -> Step<
    'static,
    Option<DeviceView>,
> {
    match step {
        Step::Call(call) => Step::Call(call),
        Step::Done(Some(device)) => Step::Done(Some(device@)),
        Step::Done(None) => Step::Done(None),
    }
}

/// A step that makes a directory of devices, as mathematics.
pub open spec fn devices_view<'a>(step: Step<'static, InputDevices<'a>>) -> Step<
    'static,
    DevicesView,
> {
    match step {
        Step::Call(call) => Step::Call(call),
        Step::Done(devices) => Step::Done(devices@),
    }
}

/// A step that makes a directory of properties, as mathematics.
pub open spec fn directory_view<'a>(step: Step<'static, InputDevicePropertyIter<'a>>) -> Step<
    'static,
    PropertiesView,
> {
    match step {
        Step::Call(call) => Step::Call(call),
        Step::Done(properties) => Step::Done(properties@),
    }
}

proof fn lemma_product_id_name()
    ensures
        !has_nul(PRODUCT_ID),
{
    reveal_strlit("Device Product ID");
    let name = PRODUCT_ID;
    assert(vstd::string::is_ascii(name)) by {
        assert forall|i: int| 0 <= i < name@.len() implies '\0' <= #[trigger] name@[i]
            <= '\u{7f}' by {}
    }
    vstd::string::is_ascii_spec_bytes(name);
}

/// A directory of devices as mathematics: the session, the array's address,
/// its records, and how many of them were yielded.
pub struct DevicesView {
    pub display: usize,
    pub list: usize,
    pub records: Seq<DeviceInfo>,
    pub consumed: nat,
}

impl DevicesView {
    /// The session is not null, and no more records were yielded than there
    /// are.
    pub open spec fn wf(self) -> bool {
        &&& self.display != 0
        &&& self.consumed <= self.records.len()
    }

    /// What `XListInputDevices` has to be called for, and what is kept of its
    /// result: the address and the records as they came, none yielded.
    pub open spec fn list(display: usize, listed: Option<DeviceList>) -> Step<
        'static,
        DevicesView,
    > {
        match listed {
            None => Step::Call(NativeCall::ListInputDevices { display }),
            Some(listed) => Step::Done(
                DevicesView { display, list: listed.list, records: listed.records@, consumed: 0 },
            ),
        }
    }

    /// The number of records that are not yielded yet.
    pub open spec fn remaining(self) -> nat {
        (self.records.len() - self.consumed) as nat
    }

    /// One step of the iteration: at the end, the end; else the handle on the
    /// next record, and the directory with one record more yielded, once the
    /// handle is made.
    pub open spec fn next(self, opened: Option<usize>) -> (Step<'static, Option<DeviceView>>, Self) {
        if self.consumed >= self.records.len() {
            (Step::Done(None), self)
        } else {
            match opens(self.display, self.records[self.consumed as int], opened) {
                Step::Call(call) => (Step::Call(call), self),
                Step::Done(device) => (
                    Step::Done(Some(device)),
                    DevicesView { consumed: self.consumed + 1, ..self },
                ),
            }
        }
    }

    /// The call that gives the directory up: the array is freed, however
    /// many of its records were yielded.
    pub open spec fn release(self) -> NativeCall<'static> {
        NativeCall::FreeDeviceList { list: self.list }
    }
}

/// The directory of the input devices of a session. It owns the array of
/// device records; the handles it yields borrow the records.
#[derive(Debug, PartialEq, Eq)]
pub struct InputDevices<'a> {
    display: usize,
    idx: usize,
    ptr: usize,
    records: &'a [DeviceInfo],
}

impl<'a> View for InputDevices<'a> {
    type V = DevicesView;

    closed spec fn view(&self) -> DevicesView {
        DevicesView {
            display: self.display,
            list: self.ptr,
            records: self.records@,
            consumed: self.idx as nat,
        }
    }
}

impl<'a> InputDevices<'a> {
    #[verifier::type_invariant]
    spec fn inv(&self) -> bool {
        self@.wf()
    }

    /// Lists the input devices of a session. `listed` is what
    /// `XListInputDevices` returned for the session, if it was called yet; it
    /// is kept as it came, and the call is not made again. The session stays
    /// borrowed while the directory or one of its handles is alive, so that
    /// it cannot be closed before them.
    pub fn new(display: &'a mut Display, listed: Option<DeviceList<'a>>) -> (step: Step<
        'static,
        InputDevices<'a>,
    >)
        ensures
            *final(display) == *old(display),
            devices_view(step) == DevicesView::list(old(display).addr(), listed),
            step matches Step::Done(devices) ==> devices@.wf(),
    {
        let session = display.as_mut_ptr();
        match listed {
            None => Step::Call(NativeCall::ListInputDevices { display: session }),
            Some(listed) => Step::Done(
                InputDevices { display: session, idx: 0, ptr: listed.list, records: listed.records },
            ),
        }
    }

    /// Yields the handle on the next record, in the array's order, or the
    /// end. `opened` is what `XOpenDevice` returned for the call that the
    /// step before asked for, if it asked for one.
    pub fn next(&mut self, opened: Option<usize>) -> (step: Step<'static, Option<InputDevice<'a>>>)
        ensures
            (yield_view(step), final(self)@) == old(self)@.next(opened),
            old(self)@.wf(),
            final(self)@.wf(),
            step matches Step::Done(Some(device)) ==> device@.wf(),
    {
        proof {
            use_type_invariant(&*self);
        }
        let records: &'a [DeviceInfo] = self.records;
        if self.idx >= records.len() {
            return Step::Done(None);
        }
        let info: &'a DeviceInfo = &records[self.idx];
        match InputDevice::new(self.display, info, opened) {
            Step::Call(call) => Step::Call(call),
            Step::Done(device) => {
                self.idx = self.idx + 1;
                Step::Done(Some(device))
            },
        }
    }

    /// The number of handles that are still to come, as the lower and the
    /// upper bound.
    pub fn size_hint(&self) -> (hint: (usize, Option<usize>))
        ensures
            hint.0 == self@.records.len() - self@.consumed,
            hint.0 == self@.remaining(),
            hint.1 == Some(hint.0),
    {
        proof {
            use_type_invariant(self);
        }
        let remaining: usize = self.records.len() - self.idx;
        (remaining, Some(remaining))
    }

    /// Gives the directory up: the answer is the one call that frees the
    /// array, whether all, some or none of its records were yielded.
    pub fn release(self) -> (call: NativeCall<'static>)
        ensures
            call == self@.release(),
    {
        NativeCall::FreeDeviceList { list: self.ptr }
    }
}

/// A directory of properties as mathematics: the session and the opened
/// device, the array that is owned if one is, its atoms, and how many of them
/// were yielded.
pub struct PropertiesView {
    pub display: usize,
    pub device: usize,
    pub buffer: Option<usize>,
    pub atoms: Seq<Atom>,
    pub consumed: nat,
}

impl PropertiesView {
    /// No more atoms were yielded than there are, and a directory that owns
    /// no array has no atoms.
    pub open spec fn wf(self) -> bool {
        &&& self.consumed <= self.atoms.len()
        &&& self.buffer is None ==> self.atoms.len() == 0
    }

    /// The directory of a device that was not opened: no session, no device,
    /// no array, no atoms.
    pub open spec fn empty() -> Self {
        PropertiesView { display: 0, device: 0, buffer: None, atoms: Seq::empty(), consumed: 0 }
    }

    /// What `XListDeviceProperties` has to be called for, and what is kept of
    /// its result: the address and the atoms as they came, none yielded.
    pub open spec fn list(display: usize, device: usize, listed: Option<AtomList>) -> Step<
        'static,
        Self,
    > {
        match listed {
            None => Step::Call(NativeCall::ListDeviceProperties { display, device }),
            Some(listed) => Step::Done(
                PropertiesView {
                    display,
                    device,
                    buffer: Some(listed.data),
                    atoms: listed.atoms@,
                    consumed: 0,
                },
            ),
        }
    }

    /// The number of atoms that are not yielded yet.
    pub open spec fn remaining(self) -> nat {
        (self.atoms.len() - self.consumed) as nat
    }

    /// One step of the iteration: at the end, the end; else the next atom,
    /// and the directory with one atom more yielded.
    pub open spec fn next(self) -> (Option<Atom>, Self) {
        if self.consumed >= self.atoms.len() {
            (None, self)
        } else {
            (
                Some(self.atoms[self.consumed as int]),
                PropertiesView { consumed: self.consumed + 1, ..self },
            )
        }
    }

    /// The call that gives the directory up, if it owes one: the array is
    /// freed, however many of its atoms were yielded; the empty directory
    /// owns none.
    pub open spec fn release(self) -> Option<NativeCall<'static>> {
        match self.buffer {
            Some(data) => Some(NativeCall::Free { data }),
            None => None,
        }
    }
}

/// The directory of the properties of an opened device. It owns the array of
/// atoms, unless it is the empty directory.
#[derive(Debug, PartialEq, Eq)]
pub struct InputDevicePropertyIter<'a> {
    device: usize,
    display: usize,
    idx: usize,
    ptr: Option<usize>,
    atoms: &'a [Atom],
}

impl<'a> View for InputDevicePropertyIter<'a> {
    type V = PropertiesView;

    closed spec fn view(&self) -> PropertiesView {
        PropertiesView {
            display: self.display,
            device: self.device,
            buffer: self.ptr,
            atoms: self.atoms@,
            consumed: self.idx as nat,
        }
    }
}

impl<'a> InputDevicePropertyIter<'a> {
    #[verifier::type_invariant]
    spec fn inv(&self) -> bool {
        self@.wf()
    }

    /// The directory of a device that was not opened.
    pub(crate) fn empty() -> (properties: InputDevicePropertyIter<'a>)
        ensures
            properties@ == PropertiesView::empty(),
    {
        let atoms: &'a [Atom] = &[];
        assert(atoms@ =~= Seq::<Atom>::empty());
        InputDevicePropertyIter { device: 0, display: 0, idx: 0, ptr: None, atoms }
    }

    /// Lists the properties of an opened device. `listed` is what
    /// `XListDeviceProperties` returned for it, if it was called yet.
    pub(crate) fn new(display: usize, device: usize, listed: Option<AtomList<'a>>) -> (step: Step<
        'static,
        InputDevicePropertyIter<'a>,
    >)
        ensures
            directory_view(step) == PropertiesView::list(display, device, listed),
            step matches Step::Done(properties) ==> properties@.wf(),
    {
        match listed {
            None => Step::Call(NativeCall::ListDeviceProperties { display, device }),
            Some(listed) => Step::Done(
                InputDevicePropertyIter {
                    device,
                    display,
                    idx: 0,
                    ptr: Some(listed.data),
                    atoms: listed.atoms,
                },
            ),
        }
    }

    /// Yields the next atom, in the array's order, or the end.
    pub fn next(&mut self) -> (atom: Option<Atom>)
        ensures
            (atom, final(self)@) == old(self)@.next(),
            old(self)@.wf(),
            final(self)@.wf(),
    {
        proof {
            use_type_invariant(&*self);
        }
        if self.idx >= self.atoms.len() {
            return None;
        }
        let atom = self.atoms[self.idx];
        self.idx = self.idx + 1;
        Some(atom)
    }

    /// The number of atoms that are still to come, as the lower and the
    /// upper bound.
    pub fn size_hint(&self) -> (hint: (usize, Option<usize>))
        ensures
            hint.0 == self@.atoms.len() - self@.consumed,
            hint.0 == self@.remaining(),
            hint.1 == Some(hint.0),
    {
        proof {
            use_type_invariant(self);
        }
        let remaining: usize = self.atoms.len() - self.idx;
        (remaining, Some(remaining))
    }

    /// Gives the directory up: the answer is the one call that frees the
    /// array, or none for the empty directory.
    pub fn release(self) -> (call: Option<NativeCall<'static>>)
        ensures
            call == self@.release(),
    {
        match self.ptr {
            Some(data) => Some(NativeCall::Free { data }),
            None => None,
        }
    }
}

} // verus!
