//! The session with the X server.
use crate::native::{contains_nul, has_nul, NativeCall, Step};
use crate::xinput::{devices_view, DeviceList, DevicesView, InputDevices};
use vstd::prelude::*;

verus! {

/// Why no session was opened.
#[derive(Clone, Copy, Debug, PartialEq, Eq)]
pub enum ConnectError {
    /// The process was not told which display to use.
    NotConfigured,
    /// The display's name holds a NUL byte and names no display.
    InvalidAddress,
    /// The X libraries opened no session for the name.
    Unreachable,
}

/// An open session with the X server. It owns the session: giving it up with
/// [`Display::close`] is the only way to the call that ends it.
#[derive(Debug, PartialEq, Eq)]
pub struct Display {
    ptr: usize,
}

/// What [`Display::connect`] answers for a display name and for what
/// `XOpenDisplay` returned for it, if it was called yet.
pub open spec fn connects<'a>(
    display: &'a str,
    opened: Option<usize>,
    step: Step<'a, Result<Display, ConnectError>>,
) -> bool {
    if has_nul(display) {
        step == Step::<Result<Display, ConnectError>>::Done(Err(ConnectError::InvalidAddress))
    } else {
        match opened {
            None => step == Step::<Result<Display, ConnectError>>::Call(
                NativeCall::OpenDisplay { name: display },
            ),
            Some(ptr) => if ptr == 0 {
                step == Step::<Result<Display, ConnectError>>::Done(Err(ConnectError::Unreachable))
            } else {
                &&& step matches Step::Done(Ok(session))
                &&& session.wf()
                &&& session.addr() == ptr
            },
        }
    }
}

impl Display {
    /// The session's address is not null, as long as the session exists.
    #[verifier::type_invariant]
    pub open spec fn wf(&self) -> bool {
        self.addr() != 0
    }

    /// The session's address.
    pub closed spec fn addr(&self) -> usize {
        self.ptr
    }

    /// Opens the session that the process was configured for: `configured` is
    /// the display name that the process inherited, if any, and `opened` what
    /// `XOpenDisplay` returned for it, if it was called yet.
    pub fn new<'a>(configured: Option<&'a str>, opened: Option<usize>) -> (step: Step<
        'a,
        Result<Display, ConnectError>,
    >)
        ensures
            match configured {
                None => step == Step::<Result<Display, ConnectError>>::Done(
                    Err(ConnectError::NotConfigured),
                ),
                Some(display) => connects(display, opened, step),
            },
    {
        match configured {
            None => Step::Done(Err(ConnectError::NotConfigured)),
            Some(display) => Display::connect(display, opened),
        }
    }

    /// Opens a session to the named display. `opened` is what `XOpenDisplay`
    /// returned for the name, if it was called yet. A null session is an
    /// error for every name: no session exists then, and no call is owed.
    pub fn connect<'a>(display: &'a str, opened: Option<usize>) -> (step: Step<
        'a,
        Result<Display, ConnectError>,
    >)
        ensures
            connects(display, opened, step),
            opened == Some(0usize) ==> step matches Step::Done(Err(_)),
    {
        if contains_nul(display) {
            return Step::Done(Err(ConnectError::InvalidAddress));
        }
        match opened {
            None => Step::Call(NativeCall::OpenDisplay { name: display }),
            Some(ptr) => if ptr == 0 {
                Step::Done(Err(ConnectError::Unreachable))
            } else {
                Step::Done(Ok(Display::from_ptr(ptr)))
            },
        }
    }

    /// Takes over an open session by its address.
    pub fn from_ptr(ptr: usize) -> (session: Display)
        requires
            ptr != 0,
        ensures
            session.wf(),
            session.addr() == ptr,
    {
        Display { ptr }
    }

    /// The session's address, for calls that only read.
    pub fn as_ptr(&self) -> (ptr: usize)
        ensures
            ptr == self.addr(),
            ptr != 0,
    {
        proof {
            use_type_invariant(self);
        }
        self.ptr
    }

    /// The session's address, for calls that may change the session.
    pub fn as_mut_ptr(&mut self) -> (ptr: usize)
        ensures
            ptr == old(self).addr(),
            ptr != 0,
            *final(self) == *old(self),
    {
        proof {
            use_type_invariant(&*self);
        }
        self.ptr
    }

    /// The directory of the session's input devices. `listed` is what
    /// `XListInputDevices` returned for the session, if it was called yet.
    /// The session stays borrowed while the directory or one of its handles
    /// is alive.
    pub fn devices<'a>(&'a mut self, listed: Option<DeviceList<'a>>) -> (step: Step<
        'static,
        InputDevices<'a>,
    >)
        ensures
            *final(self) == *old(self),
            devices_view(step) == DevicesView::list(old(self).addr(), listed),
            step matches Step::Done(devices) ==> devices@.wf(),
    {
        InputDevices::new(self, listed)
    }

    /// Gives the session up: the answer is the one call that ends it.
    pub fn close(self) -> (call: NativeCall<'static>)
        ensures
            call == (NativeCall::CloseDisplay { display: self.addr() }),
            self.addr() != 0,
    {
        proof {
            use_type_invariant(&self);
        }
        NativeCall::CloseDisplay { display: self.ptr }
    }
}

} // verus!
