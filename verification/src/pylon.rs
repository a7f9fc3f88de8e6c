//! The scope of the device SDK, and what is created within it.

use vstd::prelude::*;
use crate::camera::{InstantCamera, Session};
use crate::error::{Platform, PylonResult};

verus! {

/// The time during which the device SDK is initialised. Whatever works with
/// a device borrows this value, and so cannot outlive it.
pub struct Pylon {}

impl Pylon {
    /// The scope of the SDK. The one who makes it initialises the SDK before,
    /// and terminates it after the scope is gone.
    pub fn new() -> (lib: Self)
        ensures
            lib == (Pylon {  }),
    {
        Pylon {  }
    }
}

impl Default for Pylon {
    fn default() -> (lib: Self)
        ensures
            lib == (Pylon {  }),
    {
        Pylon {  }
    }
}

/// The version of the device SDK.
#[derive(Clone, Copy, Debug, PartialEq, Eq, Structural)]
pub struct PylonVersion {
    pub major: u32,
    pub minor: u32,
    pub subminor: u32,
    pub build: u32,
}

/// The place where devices are created.
pub struct TlFactory<'a> {
    pub(crate) lib: &'a Pylon,
}

impl<'a> TlFactory<'a> {
    /// The factory of the SDK scope `lib`.
    pub fn instance(lib: &'a Pylon) -> (factory: Self)
        ensures
            factory.scope() == lib,
    {
        TlFactory { lib }
    }

    /// Takes the device's answer to the request to create a device: a
    /// session on the device, not open yet, in the scope of this factory,
    /// or the failure of the device.
    pub fn create_device(&self, platform: Platform, device: PylonResult<()>) -> (camera:
        PylonResult<InstantCamera<'a>>)
        ensures
            camera is Ok == device is Ok,
            camera matches Ok(c) ==> c@ == Session::closed(platform) && c.scope() == self.scope(),
            camera matches Err(e) ==> device == Err::<(), _>(e),
    {
        match device {
            Ok(()) => Ok(InstantCamera::new(self.lib, platform)),
            Err(e) => Err(e),
        }
    }

    /// The SDK scope that this factory creates devices in.
    pub closed spec fn scope(&self) -> &'a Pylon {
        self.lib
    }
}

/// What describes itself by named properties.
pub trait HasProperties {
    fn property_names(&self) -> PylonResult<Vec<String>>;

    fn property_value(&self, name: &str) -> PylonResult<String>;
}

} // verus!
