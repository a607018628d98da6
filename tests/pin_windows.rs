use esp32_gpio::interrupt::{gpio_intr_enable, Cpu, InterruptStatusRegisterAccess};
use esp32_gpio::pins::{io_mux_reg, io_mux_window, IO_MUX_PIN_COUNT};
use esp32_gpio::regs::RegisterFile;

#[test]
fn valid_pins_resolve_to_distinct_windows() {
    let valid: Vec<u8> = (0u8..=27).chain(32u8..=39).collect();
    assert_eq!(valid.len(), IO_MUX_PIN_COUNT as usize);
    let mut slots = Vec::new();
    for &p in &valid {
        let w = io_mux_window(p).expect("valid pin");
        assert_eq!(w.pin, p);
        assert!(w.slot < IO_MUX_PIN_COUNT);
        assert_eq!(io_mux_reg(p), w);
        assert_eq!(io_mux_window(p), Some(w));
        assert!(!slots.contains(&w.slot));
        slots.push(w.slot);
    }
    assert_eq!(io_mux_reg(32).slot, 28);
    assert_eq!(io_mux_reg(39).slot, 35);
}

#[test]
fn missing_pins_do_not_resolve() {
    for p in [28u8, 29, 30, 31, 40, 41, 100, 255] {
        assert_eq!(io_mux_window(p), None);
    }
}

#[test]
fn interrupt_enable_layout_depends_on_core() {
    assert_eq!(gpio_intr_enable(true, true, Cpu::AppCpu), 0b0011);
    assert_eq!(gpio_intr_enable(true, true, Cpu::ProCpu), 0b1100);
    assert_eq!(gpio_intr_enable(true, false, Cpu::AppCpu), 0b0001);
    assert_eq!(gpio_intr_enable(false, true, Cpu::AppCpu), 0b0010);
    assert_eq!(gpio_intr_enable(true, false, Cpu::ProCpu), 0b0100);
    assert_eq!(gpio_intr_enable(false, true, Cpu::ProCpu), 0b1000);
    assert_eq!(gpio_intr_enable(false, false, Cpu::AppCpu), 0);
    assert_eq!(gpio_intr_enable(false, false, Cpu::ProCpu), 0);
}

#[test]
fn interrupt_status_reads_each_bank() {
    let mut regs = RegisterFile::new();
    regs.status = 0x8000_0001;
    regs.status1 = 0x81;
    assert_eq!(InterruptStatusRegisterAccess::Bank0.interrupt_status_read(&regs), 0x8000_0001);
    assert_eq!(InterruptStatusRegisterAccess::Bank1.interrupt_status_read(&regs), 0x81);
    assert_eq!(regs.status, 0x8000_0001);
    assert_eq!(regs.status1, 0x81);
}
