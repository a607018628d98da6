//! Pin multiplexing and mode switching for the ESP32 general-purpose I/O block,
//! written against a simulated register file so that every register effect is
//! stated and proved.
pub mod interrupt;
pub mod pins;
pub mod regs;
pub mod rtc;
pub mod signal;
pub mod touch;
