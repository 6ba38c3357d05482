//! The boundary to the X libraries: the calls that the caller makes on the
//! library's behalf, and the shape of a step.
use libc::{c_long, c_ulong};
use vstd::prelude::*;
use vstd::string::StringSliceAdditionalSpecFns;

verus! {

/// An X resource identifier.
pub type XID = c_ulong;

/// An interned name.
pub type Atom = c_ulong;

/// The atom that stands for "no atom".
pub const NO_ATOM: Atom = 0;

/// The request type that accepts a property of any type.
pub const ANY_PROPERTY_TYPE: Atom = 0;

/// The status of a native call that succeeded.
pub const SUCCESS: libc::c_int = 0;

/// A call into the X libraries. Sessions, devices and arrays are named by
/// their address, null being 0.
#[must_use]
#[derive(Clone, Copy, Debug, PartialEq, Eq)]
pub enum NativeCall<'a> {
    /// `XOpenDisplay`: comes back with the session, or null.
    OpenDisplay { name: &'a str },
    /// `XCloseDisplay`: gives the session up.
    CloseDisplay { display: usize },
    /// `XListInputDevices`: comes back with an array of device records and
    /// their number.
    ListInputDevices { display: usize },
    /// `XFreeDeviceList`: gives an array of device records up.
    FreeDeviceList { list: usize },
    /// `XOpenDevice`: comes back with the opened device, or null.
    OpenDevice { display: usize, id: XID },
    /// `XCloseDevice`: gives an opened device up.
    CloseDevice { display: usize, device: usize },
    /// `XListDeviceProperties`: comes back with an array of atoms and their
    /// number.
    ListDeviceProperties { display: usize, device: usize },
    /// `XFree`: gives an array up that Xlib allocated.
    Free { data: usize },
    /// `XInternAtom`: comes back with the atom of `name`, or with no atom
    /// where `only_if_exists` is set and the name was never interned.
    InternAtom { display: usize, name: &'a str, only_if_exists: bool },
    /// `XGetDeviceProperty`: comes back with the property's type, format,
    /// number of items, the bytes left behind, and the payload.
    GetDeviceProperty {
        display: usize,
        device: usize,
        property: Atom,
        offset: c_long,
        length: c_long,
        delete: bool,
        req_type: Atom,
    },
}

/// What an operation answers: the native call that it needs next, or its
/// result.
#[must_use]
#[derive(Debug, PartialEq, Eq)]
pub enum Step<'a, T> {
    /// Make this call, then repeat the operation with what came back.
    Call(NativeCall<'a>),
    /// The operation is over.
    Done(T),
}

/// Whether a text holds a NUL byte, so that no C string can carry it.
pub open spec fn has_nul(text: &str) -> bool {
    text.spec_bytes().contains(0u8)
}

/// Tests a text for a NUL byte.
pub fn contains_nul(text: &str) -> (found: bool)
    ensures
        found == has_nul(text),
{
    let bytes = text.as_bytes();
    let mut i: usize = 0;
    while i < bytes.len()
        invariant
            i <= bytes.len(),
            bytes@ == text.spec_bytes(),
            forall|j: int| 0 <= j < i ==> bytes@[j] != 0u8,
        decreases bytes.len() - i,
    {
        if bytes[i] == 0 {
            return true;
        }
        i += 1;
    }
    false
}

} // verus!
