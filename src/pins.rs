//! Resolution of a GPIO pin number to its IO-mux register window.
use vstd::prelude::*;

verus! {

/// Number of pins that have an IO-mux register window.
pub const IO_MUX_PIN_COUNT: u8 = 36;

/// Function-select value that routes a pin through the GPIO matrix.
pub const GPIO_FUNCTION: u8 = 2;

/// Whether the chip exposes pin `pin`: pins 0 to 27 and 32 to 39.
pub open spec fn is_valid_pin(pin: u8) -> bool {
    pin <= 27 || (32 <= pin && pin <= 39)
}

/// The IO-mux register window of one pin.
#[derive(Debug, Clone, Copy, PartialEq, Eq, Structural)]
pub struct IoMuxWindow {
    /// The pin whose register record this is.
    pub pin: u8,
    /// The record's position in the dense table of IO-mux records.
    pub slot: u8,
}

/// The record position of a valid pin: pins 0 to 27 take slots 0 to 27, pins
/// 32 to 39 take slots 28 to 35.
pub open spec fn io_mux_slot(pin: u8) -> u8 {
    if pin <= 27 {
        pin
    } else {
        (pin - 4) as u8
    }
}

/// The register window of `pin`, or `None` where the chip has no such pin.
pub open spec fn spec_io_mux_window(pin: u8) -> Option<IoMuxWindow> {
    if is_valid_pin(pin) {
        Some(IoMuxWindow { pin, slot: io_mux_slot(pin) })
    } else {
        None
    }
}

/// Looks up the register window of `pin`; `None` where the chip has no such pin.
pub fn io_mux_window(pin: u8) -> (r: Option<IoMuxWindow>)
    ensures
        r == spec_io_mux_window(pin),
{
    if pin <= 27 {
        Some(IoMuxWindow { pin, slot: pin })
    } else if 32 <= pin && pin <= 39 {
        Some(IoMuxWindow { pin, slot: pin - 4 })
    } else {
        None
    }
}

/// Returns the register window of `pin`, which must be a pin of the chip.
pub fn io_mux_reg(pin: u8) -> (r: IoMuxWindow)
    requires
        is_valid_pin(pin),
    ensures
        spec_io_mux_window(pin) == Some(r),
{
    if pin <= 27 {
        IoMuxWindow { pin, slot: pin }
    } else {
        IoMuxWindow { pin, slot: pin - 4 }
    }
}

/// Every pin of the chip resolves to a window of its own, in the table of
/// `IO_MUX_PIN_COUNT` records; every other number resolves to nothing; and
/// every record belongs to some pin.
pub proof fn lemma_io_mux_windows_distinct(a: u8, b: u8, slot: u8)
    ensures
        spec_io_mux_window(a) is Some <==> is_valid_pin(a),
        is_valid_pin(a) ==> spec_io_mux_window(a).unwrap().slot < IO_MUX_PIN_COUNT,
        is_valid_pin(a) && is_valid_pin(b) && a != b ==> spec_io_mux_window(a).unwrap()
            != spec_io_mux_window(b).unwrap() && spec_io_mux_window(a).unwrap().slot
            != spec_io_mux_window(b).unwrap().slot,
        slot < IO_MUX_PIN_COUNT ==> exists|p: u8| #[trigger] is_valid_pin(p) && io_mux_slot(p) == slot,
{
    if slot < IO_MUX_PIN_COUNT {
        let p: u8 = if slot <= 27 { slot } else { (slot + 4) as u8 };
        assert(is_valid_pin(p) && io_mux_slot(p) == slot);
    }
}

} // verus!
