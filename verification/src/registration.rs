//! Device-interest declarations and the notification code the host uses
//! to announce a raw-input record.

use vstd::prelude::*;

verus! {

/// Usage page of the generic desktop controls in the host input taxonomy.
pub const USAGE_PAGE_GENERIC: u16 = 0x01;

/// Usage id of a generic mouse on the generic desktop page.
pub const USAGE_GENERIC_MOUSE: u16 = 0x02;

/// Usage id of a generic keyboard on the generic desktop page.
pub const USAGE_GENERIC_KEYBOARD: u16 = 0x06;

/// Registration flag asking the host not to deliver the legacy (non-raw)
/// input messages for the registered device.
pub const FLAG_NO_LEGACY: u32 = 0x30;

/// Registration flag asking for delivery even while the target window
/// lacks input focus.
pub const FLAG_INPUT_SINK: u32 = 0x100;

/// The flags each device is registered with: legacy suppression together
/// with background delivery.
pub const REGISTRATION_FLAGS: u32 = FLAG_NO_LEGACY | FLAG_INPUT_SINK;

/// Message code with which the host announces that a raw-input record is
/// ready to be fetched.
pub const WM_INPUT: u32 = 0x00FF;

/// One device-interest declaration: a usage-page/usage pair naming a
/// device class, and the delivery flags. The window the declaration is
/// bound to is supplied by the caller at registration time.
pub struct DeviceRegistration {
    pub usage_page: u16,
    pub usage: u16,
    pub flags: u32,
}

/// The registration a declaration must carry for the generic keyboard.
pub open spec fn keyboard_registration() -> DeviceRegistration {
    DeviceRegistration {
        usage_page: USAGE_PAGE_GENERIC,
        usage: USAGE_GENERIC_KEYBOARD,
        flags: REGISTRATION_FLAGS,
    }
}

/// The registration a declaration must carry for the generic mouse.
pub open spec fn mouse_registration() -> DeviceRegistration {
    DeviceRegistration {
        usage_page: USAGE_PAGE_GENERIC,
        usage: USAGE_GENERIC_MOUSE,
        flags: REGISTRATION_FLAGS,
    }
}

/// The exact set of device interests this tool registers: the generic
/// keyboard and the generic mouse, both with legacy suppression and
/// background delivery.
pub fn device_registrations() -> (regs: Vec<DeviceRegistration>)
    ensures
        regs@.len() == 2,
        regs@[0] == keyboard_registration(),
        regs@[1] == mouse_registration(),
{
    let mut regs: Vec<DeviceRegistration> = Vec::new();
    regs.push(DeviceRegistration {
        usage_page: USAGE_PAGE_GENERIC,
        usage: USAGE_GENERIC_KEYBOARD,
        flags: REGISTRATION_FLAGS,
    });
    regs.push(DeviceRegistration {
        usage_page: USAGE_PAGE_GENERIC,
        usage: USAGE_GENERIC_MOUSE,
        flags: REGISTRATION_FLAGS,
    });
    regs
}

/// Whether a host message announces a raw-input record; only such
/// messages lead to a decode attempt.
pub fn is_input_notification(umsg: u32) -> (r: bool)
    ensures
        r == (umsg == WM_INPUT),
{
    umsg == WM_INPUT
}

} // verus!
