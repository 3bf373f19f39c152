//! Read-only device description metadata and its builder.

use vstd::prelude::*;

verus! {

/// Whether a device captures or renders audio.
#[derive(Debug, Clone, Copy, PartialEq, Eq, Structural)]
pub enum DeviceDirection {
    Input,
    Output,
}

/// The physical kind of a device.
#[derive(Debug, Clone, Copy, PartialEq, Eq, Structural)]
pub enum DeviceType {
    Internal,
    Usb,
    Bluetooth,
    Network,
    Firewire,
    Virtual,
    Other,
}

/// The platform interface a device is reached through.
#[derive(Debug, Clone, Copy, PartialEq, Eq, Structural)]
pub enum InterfaceType {
    Alsa,
    Jack,
    Wasapi,
    Asio,
    CoreAudio,
    Emscripten,
    Other,
}

/// Description of one device, derived from device queries; never mutated.
#[derive(Debug, Clone, PartialEq, Eq)]
pub struct DeviceDescription {
    pub name: String,
    pub direction: DeviceDirection,
    pub device_type: DeviceType,
    pub interface_type: InterfaceType,
}

/// Accumulates the fields of a `DeviceDescription`; unset fields fall back
/// to defaults when built.
#[derive(Debug)]
pub struct DeviceDescriptionBuilder {
    pub name: Option<String>,
    pub direction: Option<DeviceDirection>,
    pub device_type: Option<DeviceType>,
    pub interface_type: Option<InterfaceType>,
}

impl DeviceDescriptionBuilder {
    /// A builder with every field unset.
    pub fn new() -> (b: DeviceDescriptionBuilder)
        ensures
            b.name is None,
            b.direction is None,
            b.device_type is None,
            b.interface_type is None,
    {
        DeviceDescriptionBuilder {
            name: None,
            direction: None,
            device_type: None,
            interface_type: None,
        }
    }

    /// Sets the device name.
    pub fn name(&mut self, name: String)
        ensures
            final(self).name == Some(name),
            final(self).direction == old(self).direction,
            final(self).device_type == old(self).device_type,
            final(self).interface_type == old(self).interface_type,
    {
        self.name = Some(name);
    }

    /// Sets the device direction.
    pub fn direction(&mut self, direction: DeviceDirection)
        ensures
            final(self).direction == Some(direction),
            final(self).name == old(self).name,
            final(self).device_type == old(self).device_type,
            final(self).interface_type == old(self).interface_type,
    {
        self.direction = Some(direction);
    }

    /// Sets the device type.
    pub fn device_type(&mut self, device_type: DeviceType)
        ensures
            final(self).device_type == Some(device_type),
            final(self).name == old(self).name,
            final(self).direction == old(self).direction,
            final(self).interface_type == old(self).interface_type,
    {
        self.device_type = Some(device_type);
    }

    /// Sets the interface type.
    pub fn interface_type(&mut self, interface_type: InterfaceType)
        ensures
            final(self).interface_type == Some(interface_type),
            final(self).name == old(self).name,
            final(self).direction == old(self).direction,
            final(self).device_type == old(self).device_type,
    {
        self.interface_type = Some(interface_type);
    }

    /// Builds the description: set fields are taken over, unset ones fall
    /// back to an empty name, output direction, and the `Other` kinds.
    pub fn build(&self) -> (d: DeviceDescription)
        ensures
            self.name is Some ==> d.name == self.name->0,
            self.name is None ==> d.name@ == Seq::<char>::empty(),
            d.direction == match self.direction {
                Some(dir) => dir,
                None => DeviceDirection::Output,
            },
            d.device_type == match self.device_type {
                Some(t) => t,
                None => DeviceType::Other,
            },
            d.interface_type == match self.interface_type {
                Some(t) => t,
                None => InterfaceType::Other,
            },
    {
        let name: String = match &self.name {
            Some(n) => n.clone(),
            None => String::new(),
        };
        let direction: DeviceDirection = match self.direction {
            Some(dir) => dir,
            None => DeviceDirection::Output,
        };
        let device_type: DeviceType = match self.device_type {
            Some(t) => t,
            None => DeviceType::Other,
        };
        let interface_type: InterfaceType = match self.interface_type {
            Some(t) => t,
            None => InterfaceType::Other,
        };
        DeviceDescription { name, direction, device_type, interface_type }
    }
}

impl Default for DeviceDescriptionBuilder {
    /// A builder with every field unset.
    fn default() -> (b: DeviceDescriptionBuilder)
        ensures
            b.name is None,
            b.direction is None,
            b.device_type is None,
            b.interface_type is None,
    {
        DeviceDescriptionBuilder::new()
    }
}

} // verus!
