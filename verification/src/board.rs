//! Board bring-up logic that does not touch the hardware: the USB identity
//! of the device, the one-shot hand-out of the board peripherals, and the
//! shared slot in which the board support object is kept.

use vstd::prelude::*;

verus! {

/// USB manufacturer name.
pub const USB_MANUFACTURER_NAME: &'static str = "github.com/XdoctorwhoZ";

/// USB product name.
pub const USB_PRODUCT_NAME: &'static str = "Aardvark_Pico_Clone";

/// USB vendor id.
pub const USB_MANUFACTURER_ID: u16 = 0x16c0;

/// USB product id.
pub const USB_PRODUCT_ID: u16 = 0x05e1;

/// USB serial number; TEST_123456789 is the serial used for tests.
pub const USB_SERIAL_NUMBER: &'static str = "TEST_123456789";

/// USB device class of a communications device (CDC).
pub const USB_DEVICE_CLASS_CDC: u8 = 2;

/// Result of a request for the board peripherals, given whether they have
/// been handed out already: whether it is granted, and the new record.
pub open spec fn take_outcome(taken: bool) -> (bool, bool) {
    (!taken, true)
}

/// Hands the board peripherals out once: `taken` records whether they have
/// been handed out already. The first call grants them and records it;
/// every later call is refused.
pub fn take_singleton(taken: &mut bool) -> (granted: bool)
    ensures
        (granted, *final(taken)) == take_outcome(*old(taken)),
{
    if *taken {
        false
    } else {
        *taken = true;
        true
    }
}

/// The peripherals are granted at most once: whatever the record, after a
/// request a further request is refused.
pub proof fn law_granted_at_most_once(taken: bool)
    ensures
        !take_outcome(take_outcome(taken).1).0,
{
}

/// The slot, and what `slot_borrow` hands out, after a borrow.
pub open spec fn borrow_outcome<T>(slot: Option<T>) -> (Option<T>, Option<T>) {
    (slot, None)
}

/// The slot after `slot_replace` with `value`.
pub open spec fn replace_outcome<T>(value: T) -> Option<T> {
    Some(value)
}

/// Takes the object out of the shared slot, leaving it empty.
pub fn slot_borrow<T>(slot: &mut Option<T>) -> (taken: Option<T>)
    ensures
        (taken, *final(slot)) == borrow_outcome(*old(slot)),
{
    slot.take()
}

/// Puts `value` in the shared slot, dropping what it held.
pub fn slot_replace<T>(slot: &mut Option<T>, value: T)
    ensures
        *final(slot) == replace_outcome(value),
{
    *slot = Some(value);
}

/// A borrow after a replace hands out the stored object and empties the
/// slot; a second borrow then gets nothing.
pub proof fn law_borrow_returns_replaced<T>(value: T)
    ensures
        borrow_outcome(replace_outcome(value)).0 == Some(value),
        borrow_outcome(borrow_outcome(replace_outcome(value)).1).0 == None::<T>,
{
}

} // verus!
