use lora_rs::bus::{Access, RegisterBank, RegisterBus};
use lora_rs::peripherals::gpio::{
    int_mask, pin_mask, GpioDriveCapability, GpioMode, IntType, GPIO_PIN_0, GPIO_PIN_10,
    GPIO_PIN_12, GPIO_PIN_13, GPIO_PIN_15, GPIO_PIN_3, GPIO_PIN_4, GPIO_PIN_5, GPIO_PIN_6,
    GPIO_PIN_7, GPIO_PIN_8, GPIO_PIN_9,
};
use lora_rs::peripherals::regs::{
    Gpio, SetStatus, GPIOA_BASE, GPIOB_BASE, GPIOC_BASE, GPIOD_BASE,
};

const OER: u32 = 0x00;
const OTYPER: u32 = 0x04;
const IER: u32 = 0x08;
const PER: u32 = 0x0C;
const PSR: u32 = 0x10;
const IDR: u32 = 0x14;
const ODR: u32 = 0x18;
const BRR: u32 = 0x1C;
const BSR: u32 = 0x20;
const DSR: u32 = 0x24;
const ICR: u32 = 0x28;
const IFR: u32 = 0x2C;
const WUCR: u32 = 0x30;
const WULVL: u32 = 0x34;
const AFRL: u32 = 0x38;
const AFRH: u32 = 0x3C;
const STOP3_WUCR: u32 = 0x40;

const A: u32 = 0x4001_F000;
const B: u32 = 0x4001_F400;
const C: u32 = 0x4001_F800;
const D: u32 = 0x4001_FC00;

const STAGE: [u32; 6] = [OER, IER, PER, PSR, OTYPER, ODR];

fn filled(base: u32, value: u32) -> RegisterBank {
    let mut bank = RegisterBank::new();
    for reg in STAGE {
        bank.preset(base + reg, value);
    }
    bank
}

/// A pattern names, for the registers OER, IER, PER, PSR, OTYPER and ODR in
/// this order, what becomes of the pin's bit: 1 set, 0 cleared, 2 left.
fn check_pattern(base: u32, pin: u8, mode: GpioMode, pattern: [u8; 6]) {
    for start in [0x0000_0000u32, 0xFFFF_FFFF, 0x0F0F_5A5A] {
        let mut bank = filled(base, start);
        Gpio::new(base).init(&mut bank, pin, mode);
        let m = 1u32 << pin;
        for (reg, what) in STAGE.iter().zip(pattern) {
            let want = match what {
                1 => start | m,
                0 => start & !m,
                _ => start,
            };
            assert_eq!(bank.read(base + reg), want);
        }
        let written = pattern.iter().filter(|w| **w != 2).count();
        assert_eq!(bank.log().len(), written);
    }
}

#[test]
fn the_ports_sit_one_after_the_other() {
    assert_eq!(GPIOA_BASE, A);
    assert_eq!(GPIOB_BASE, B);
    assert_eq!(GPIOC_BASE, C);
    assert_eq!(GPIOD_BASE, D);
    assert_eq!(Gpio::new(GPIOD_BASE).reg(STOP3_WUCR), 0x4001_FC40);
}

#[test]
fn the_mask_of_a_pin_and_of_its_interrupt_field() {
    assert_eq!(pin_mask(GPIO_PIN_0), 0x0000_0001);
    assert_eq!(pin_mask(GPIO_PIN_15), 0x0000_8000);
    assert_eq!(pin_mask(31), 0x8000_0000);
    assert_eq!(int_mask(GPIO_PIN_0), 0x0000_0003);
    assert_eq!(int_mask(GPIO_PIN_4), 0x0000_0300);
    assert_eq!(int_mask(GPIO_PIN_15), 0xC000_0000);
}

#[test]
fn each_mode_has_its_pattern() {
    check_pattern(A, 3, GpioMode::InputFloating, [1, 1, 0, 2, 2, 2]);
    check_pattern(A, 3, GpioMode::InputPullUp, [1, 1, 1, 1, 2, 2]);
    check_pattern(B, 0, GpioMode::InputPullDown, [1, 1, 1, 0, 2, 2]);
    check_pattern(B, 15, GpioMode::OutputPPHigh, [0, 0, 2, 2, 0, 1]);
    check_pattern(C, 9, GpioMode::OutputPPLow, [0, 0, 2, 2, 0, 0]);
    check_pattern(C, 9, GpioMode::OutputODHiz, [0, 0, 2, 2, 1, 1]);
    check_pattern(C, 9, GpioMode::OutputODLow, [0, 0, 2, 2, 1, 0]);
    check_pattern(A, 7, GpioMode::Analog, [1, 0, 0, 2, 2, 2]);
}

#[test]
fn the_upper_pins_of_port_d_get_open_drain_from_enable_and_pull_up() {
    check_pattern(D, 8, GpioMode::OutputODHiz, [1, 0, 2, 1, 2, 0]);
    check_pattern(D, 15, GpioMode::OutputODHiz, [1, 0, 2, 1, 2, 0]);
    check_pattern(D, 8, GpioMode::OutputODLow, [0, 0, 2, 1, 2, 0]);
    check_pattern(D, 15, GpioMode::OutputODLow, [0, 0, 2, 1, 2, 0]);
}

#[test]
fn the_lower_pins_of_port_d_are_like_any_other() {
    check_pattern(D, 7, GpioMode::OutputODHiz, [0, 0, 2, 2, 1, 1]);
    check_pattern(D, 0, GpioMode::OutputODLow, [0, 0, 2, 2, 1, 0]);
    check_pattern(D, 12, GpioMode::OutputPPHigh, [0, 0, 2, 2, 0, 1]);
    check_pattern(D, 12, GpioMode::InputPullUp, [1, 1, 1, 1, 2, 2]);
}

#[test]
fn a_set_up_writes_its_registers_in_order() {
    let mut bank = RegisterBank::new();
    bank.preset(A + PER, 0x0000_FFFF);
    Gpio::new(A).init(&mut bank, GPIO_PIN_3, GpioMode::InputFloating);
    assert_eq!(
        bank.log().as_slice(),
        &[
            Access::Write { addr: A + OER, value: 0x0000_0008 },
            Access::Write { addr: A + IER, value: 0x0000_0008 },
            Access::Write { addr: A + PER, value: 0x0000_FFF7 },
        ]
    );
    let mut bank = RegisterBank::new();
    Gpio::new(D).init(&mut bank, GPIO_PIN_9, GpioMode::OutputODHiz);
    assert_eq!(
        bank.log().as_slice(),
        &[
            Access::Write { addr: D + ODR, value: 0 },
            Access::Write { addr: D + IER, value: 0 },
            Access::Write { addr: D + OER, value: 0x0000_0200 },
            Access::Write { addr: D + PSR, value: 0x0000_0200 },
        ]
    );
}

#[test]
fn a_set_up_touches_no_other_port() {
    let mut bank = filled(B, 0x1234_5678);
    Gpio::new(A).init(&mut bank, GPIO_PIN_4, GpioMode::OutputPPHigh);
    for reg in STAGE {
        assert_eq!(bank.read(B + reg), 0x1234_5678);
    }
    assert_eq!(bank.read(A + ODR), 0x0000_0010);
}

#[test]
fn a_level_is_written_to_the_set_and_reset_registers() {
    let mut bank = RegisterBank::new();
    bank.preset(A + BSR, 0x0000_00FF);
    bank.preset(A + ODR, 0x0000_0F00);
    let port = Gpio::new(A);
    port.write(&mut bank, GPIO_PIN_5, true);
    assert_eq!(bank.log().as_slice(), &[Access::Write { addr: A + BSR, value: 0x0000_0020 }]);
    port.write(&mut bank, GPIO_PIN_5, false);
    assert_eq!(bank.log()[1], Access::Write { addr: A + BRR, value: 0x0000_0020 });
    assert_eq!(bank.log().len(), 2);
    assert_eq!(bank.read(A + ODR), 0x0000_0F00);
}

#[test]
fn a_level_on_port_d_below_pin_8_is_written_like_any_other() {
    let mut bank = filled(D, 0);
    bank.preset(D + PSR, 0x0000_0080);
    Gpio::new(D).write(&mut bank, GPIO_PIN_7, false);
    assert_eq!(bank.log().as_slice(), &[Access::Write { addr: D + BRR, value: 0x0000_0080 }]);
}

fn released_pin_9() -> RegisterBank {
    let mut bank = RegisterBank::new();
    bank.preset(D + ODR, 0x0000_0001);
    bank.preset(D + IER, 0x0000_0002);
    bank.preset(D + OER, 0x0000_0204);
    bank.preset(D + PSR, 0x0000_0208);
    bank
}

#[test]
fn a_released_upper_pin_of_port_d_written_low_is_set_up_as_released_again() {
    let mut bank = released_pin_9();
    Gpio::new(D).write(&mut bank, GPIO_PIN_9, false);
    assert_eq!(
        bank.log().as_slice(),
        &[
            Access::Write { addr: D + ODR, value: 0x0000_0001 },
            Access::Write { addr: D + IER, value: 0x0000_0002 },
            Access::Write { addr: D + OER, value: 0x0000_0204 },
            Access::Write { addr: D + PSR, value: 0x0000_0208 },
        ]
    );
    assert_eq!(bank.read(D + BRR), 0);
}

#[test]
fn a_released_upper_pin_of_port_d_written_high_is_left_alone() {
    let mut bank = released_pin_9();
    Gpio::new(D).write(&mut bank, GPIO_PIN_9, true);
    assert!(bank.log().is_empty());
    assert_eq!(bank.read(D + BSR), 0);
    assert_eq!(bank.read(D + OER), 0x0000_0204);
}

#[test]
fn an_upper_pin_of_port_d_driven_low_is_released_by_either_level() {
    for high in [true, false] {
        let mut bank = released_pin_9();
        bank.preset(D + OER, 0x0000_0004);
        Gpio::new(D).write(&mut bank, GPIO_PIN_9, high);
        assert_eq!(
            bank.log().as_slice(),
            &[
                Access::Write { addr: D + OER, value: 0x0000_0004 },
                Access::Write { addr: D + IER, value: 0x0000_0002 },
                Access::Write { addr: D + OER, value: 0x0000_0204 },
                Access::Write { addr: D + PSR, value: 0x0000_0208 },
            ]
        );
    }
}

#[test]
fn an_upper_pin_of_port_d_in_another_set_up_is_written_like_any_other() {
    let mut bank = released_pin_9();
    bank.preset(D + PSR, 0x0000_0008);
    Gpio::new(D).write(&mut bank, GPIO_PIN_9, true);
    assert_eq!(bank.log().as_slice(), &[Access::Write { addr: D + BSR, value: 0x0000_0200 }]);
    let mut bank = released_pin_9();
    bank.preset(D + ODR, 0x0000_0201);
    Gpio::new(D).write(&mut bank, GPIO_PIN_9, false);
    assert_eq!(bank.log().as_slice(), &[Access::Write { addr: D + BRR, value: 0x0000_0200 }]);
    let mut bank = released_pin_9();
    bank.preset(D + IER, 0x0000_0202);
    Gpio::new(D).write(&mut bank, GPIO_PIN_9, false);
    assert_eq!(bank.log().as_slice(), &[Access::Write { addr: D + BRR, value: 0x0000_0200 }]);
}

#[test]
fn the_same_registers_on_port_c_do_not_change_how_a_level_is_written() {
    let mut bank = RegisterBank::new();
    bank.preset(C + OER, 0x0000_0200);
    bank.preset(C + PSR, 0x0000_0200);
    Gpio::new(C).write(&mut bank, GPIO_PIN_9, false);
    assert_eq!(bank.log().as_slice(), &[Access::Write { addr: C + BRR, value: 0x0000_0200 }]);
}

#[test]
fn the_input_level_is_the_bit_of_the_pin() {
    let mut bank = RegisterBank::new();
    bank.preset(B + IDR, 0x0000_8001);
    let port = Gpio::new(B);
    assert!(port.read(&bank, GPIO_PIN_0));
    assert!(port.read(&bank, GPIO_PIN_15));
    assert!(!port.read(&bank, GPIO_PIN_8));
    assert!(!Gpio::new(A).read(&bank, GPIO_PIN_0));
}

#[test]
fn a_toggle_flips_the_output_bit() {
    let mut bank = RegisterBank::new();
    bank.preset(A + ODR, 0x0000_0018);
    Gpio::new(A).toggle(&mut bank, GPIO_PIN_3);
    assert_eq!(bank.read(A + ODR), 0x0000_0010);
    Gpio::new(A).toggle(&mut bank, GPIO_PIN_5);
    assert_eq!(bank.read(A + ODR), 0x0000_0030);
    assert_eq!(
        bank.log().as_slice(),
        &[
            Access::Write { addr: A + ODR, value: 0x0000_0010 },
            Access::Write { addr: A + ODR, value: 0x0000_0030 },
        ]
    );
}

#[test]
fn two_toggles_leave_the_output_register_as_it_was() {
    for pin in 0u8..16 {
        for start in [0x0000_0000u32, 0x0000_FFFF, 0x0000_A5C3] {
            let mut bank = RegisterBank::new();
            bank.preset(C + ODR, start);
            Gpio::new(C).toggle(&mut bank, pin);
            assert_eq!(bank.read(C + ODR), start ^ (1 << pin));
            Gpio::new(C).toggle(&mut bank, pin);
            assert_eq!(bank.read(C + ODR), start);
        }
    }
}

#[test]
fn the_weaker_drive_sets_the_bit() {
    let mut bank = RegisterBank::new();
    bank.preset(A + DSR, 0x0000_0100);
    Gpio::new(A).config_drive_capability(&mut bank, GPIO_PIN_4, GpioDriveCapability::_4mA);
    assert_eq!(bank.read(A + DSR), 0x0000_0110);
    Gpio::new(A).config_drive_capability(&mut bank, GPIO_PIN_8, GpioDriveCapability::_8mA);
    assert_eq!(bank.read(A + DSR), 0x0000_0010);
}

#[test]
fn the_codes_of_the_edges() {
    assert_eq!(IntType::Disabled.bits(), 0);
    assert_eq!(IntType::RisingEdge.bits(), 1);
    assert_eq!(IntType::FallingEdge.bits(), 2);
    assert_eq!(IntType::RisingFallingEdge.bits(), 3);
}

#[test]
fn an_interrupt_is_acknowledged_by_writing_its_flags_back() {
    let mut bank = RegisterBank::new();
    bank.preset(A + IFR, 0x0000_0B03);
    Gpio::new(A).clear_interrupt(&mut bank, GPIO_PIN_4);
    assert_eq!(bank.log().as_slice(), &[Access::Write { addr: A + IFR, value: 0x0000_0300 }]);
    let mut bank = RegisterBank::new();
    bank.preset(A + IFR, 0x0000_0803);
    Gpio::new(A).clear_interrupt(&mut bank, GPIO_PIN_4);
    assert_eq!(bank.log().as_slice(), &[Access::Write { addr: A + IFR, value: 0x0000_0000 }]);
}

#[test]
fn the_edges_are_chosen_after_the_interrupt_is_acknowledged() {
    let mut bank = RegisterBank::new();
    bank.preset(B + IFR, 0x0000_0200);
    bank.preset(B + ICR, 0xFFFF_FFFF);
    Gpio::new(B).config_interrupt(&mut bank, GPIO_PIN_4, IntType::RisingEdge);
    assert_eq!(
        bank.log().as_slice(),
        &[
            Access::Write { addr: B + IFR, value: 0x0000_0200 },
            Access::Write { addr: B + ICR, value: 0xFFFF_FDFF },
        ]
    );
    Gpio::new(B).config_interrupt(&mut bank, GPIO_PIN_15, IntType::FallingEdge);
    assert_eq!(bank.read(B + ICR), 0xBFFF_FDFF);
    Gpio::new(B).config_interrupt(&mut bank, GPIO_PIN_0, IntType::Disabled);
    assert_eq!(bank.read(B + ICR), 0xBFFF_FDFC);
    Gpio::new(B).config_interrupt(&mut bank, GPIO_PIN_4, IntType::RisingFallingEdge);
    assert_eq!(bank.read(B + ICR), 0xBFFF_FFFC);
}

#[test]
fn an_interrupt_is_pending_if_one_of_its_two_flags_is_set() {
    let mut bank = RegisterBank::new();
    bank.preset(A + IFR, 0x0000_0100);
    let port = Gpio::new(A);
    assert_eq!(port.get_interrupt_status(&bank, GPIO_PIN_4), SetStatus::IsSet);
    assert_eq!(port.get_interrupt_status(&bank, GPIO_PIN_3), SetStatus::Reset);
    assert_eq!(port.get_interrupt_status(&bank, GPIO_PIN_5), SetStatus::Reset);
    bank.preset(A + IFR, 0x8000_0000);
    assert_eq!(port.get_interrupt_status(&bank, GPIO_PIN_15), SetStatus::IsSet);
}

#[test]
fn the_wake_up_has_an_enable_and_a_level() {
    let mut bank = RegisterBank::new();
    bank.preset(A + WULVL, 0x0000_FFFF);
    Gpio::new(A).config_wakeup(&mut bank, GPIO_PIN_6, true, false);
    assert_eq!(
        bank.log().as_slice(),
        &[
            Access::Write { addr: A + WUCR, value: 0x0000_0040 },
            Access::Write { addr: A + WULVL, value: 0x0000_FFBF },
        ]
    );
    Gpio::new(A).config_wakeup(&mut bank, GPIO_PIN_6, false, true);
    assert_eq!(bank.read(A + WUCR), 0);
    assert_eq!(bank.read(A + WULVL), 0x0000_FFFF);
}

#[test]
fn the_stop_mode_wake_up_has_one_field_for_four_pins() {
    let mut bank = RegisterBank::new();
    bank.preset(B + STOP3_WUCR, 0xFFFF_FFFF);
    Gpio::new(B).config_stop3_wakeup(&mut bank, GPIO_PIN_5, true, true);
    assert_eq!(bank.read(B + STOP3_WUCR), 0xFFFF_FFDF);
    Gpio::new(B).config_stop3_wakeup(&mut bank, GPIO_PIN_0, false, false);
    assert_eq!(bank.read(B + STOP3_WUCR), 0xFFFF_FFD0);
    Gpio::new(B).config_stop3_wakeup(&mut bank, GPIO_PIN_15, true, false);
    assert_eq!(bank.read(B + STOP3_WUCR), 0xFFFF_BFD0);
    Gpio::new(B).config_stop3_wakeup(&mut bank, GPIO_PIN_6, false, true);
    assert_eq!(bank.read(B + STOP3_WUCR), 0xFFFF_BF60);
}

#[test]
fn on_port_a_four_pins_have_changed_places_for_the_stop_mode_wake_up() {
    let port = Gpio::new(A);
    let mut bank = RegisterBank::new();
    port.config_stop3_wakeup(&mut bank, GPIO_PIN_6, true, true);
    assert_eq!(bank.read(A + STOP3_WUCR), 0x0000_C000);
    let mut bank = RegisterBank::new();
    port.config_stop3_wakeup(&mut bank, GPIO_PIN_7, true, true);
    assert_eq!(bank.read(A + STOP3_WUCR), 0x0000_D000);
    let mut bank = RegisterBank::new();
    port.config_stop3_wakeup(&mut bank, GPIO_PIN_12, true, false);
    assert_eq!(bank.read(A + STOP3_WUCR), 0x0000_00A0);
    let mut bank = RegisterBank::new();
    port.config_stop3_wakeup(&mut bank, GPIO_PIN_13, true, false);
    assert_eq!(bank.read(A + STOP3_WUCR), 0x0000_00B0);
    let mut bank = RegisterBank::new();
    port.config_stop3_wakeup(&mut bank, GPIO_PIN_5, true, false);
    assert_eq!(bank.read(A + STOP3_WUCR), 0x0000_0090);
    let mut bank = RegisterBank::new();
    Gpio::new(C).config_stop3_wakeup(&mut bank, GPIO_PIN_6, true, true);
    assert_eq!(bank.read(C + STOP3_WUCR), 0x0000_00E0);
}

#[test]
fn the_upper_pins_of_port_d_cannot_wake_from_the_stop_mode() {
    let mut bank = RegisterBank::new();
    bank.preset(D + STOP3_WUCR, 0x1234_5678);
    Gpio::new(D).config_stop3_wakeup(&mut bank, GPIO_PIN_8, true, true);
    Gpio::new(D).config_stop3_wakeup(&mut bank, GPIO_PIN_15, false, false);
    Gpio::new(D).config_stop3_wakeup(&mut bank, 200, true, true);
    assert!(bank.log().is_empty());
    Gpio::new(D).config_stop3_wakeup(&mut bank, GPIO_PIN_7, true, false);
    assert_eq!(bank.read(D + STOP3_WUCR), 0x1234_56B8);
}

#[test]
fn the_lower_pins_have_four_bit_fields_in_the_low_register() {
    let mut bank = RegisterBank::new();
    bank.preset(A + AFRL, 0xFFFF_FFFF);
    Gpio::new(A).set_iomux(&mut bank, GPIO_PIN_3, 5);
    assert_eq!(bank.read(A + AFRL), 0xFFFF_5FFF);
    Gpio::new(A).set_iomux(&mut bank, GPIO_PIN_7, 1);
    assert_eq!(bank.read(A + AFRL), 0x1FFF_5FFF);
    Gpio::new(A).set_iomux(&mut bank, GPIO_PIN_0, 0);
    assert_eq!(bank.read(A + AFRL), 0x1FFF_5FF0);
    assert_eq!(bank.read(A + AFRH), 0);
    let mut bank = RegisterBank::new();
    Gpio::new(D).set_iomux(&mut bank, GPIO_PIN_3, 0xF);
    assert_eq!(bank.read(D + AFRL), 0x0000_F000);
}

#[test]
fn the_upper_pins_have_their_fields_in_the_high_register() {
    let mut bank = RegisterBank::new();
    Gpio::new(B).set_iomux(&mut bank, GPIO_PIN_8, 1);
    assert_eq!(bank.read(B + AFRH), 0x0000_0001);
    Gpio::new(B).set_iomux(&mut bank, GPIO_PIN_10, 7);
    assert_eq!(bank.read(B + AFRH), 0x0000_0701);
    Gpio::new(B).set_iomux(&mut bank, GPIO_PIN_15, 0xA);
    assert_eq!(bank.read(B + AFRH), 0xA000_0701);
    assert_eq!(bank.read(B + AFRL), 0);
}

#[test]
fn on_port_d_the_fields_of_the_upper_pins_are_three_bits_wide() {
    let mut bank = RegisterBank::new();
    Gpio::new(D).set_iomux(&mut bank, GPIO_PIN_10, 7);
    assert_eq!(bank.read(D + AFRH), 0x0000_01C0);
    let mut bank = RegisterBank::new();
    bank.preset(D + AFRH, 0xFFFF_FFFF);
    Gpio::new(D).set_iomux(&mut bank, GPIO_PIN_9, 2);
    assert_eq!(bank.read(D + AFRH), 0xFFFF_FFD7);
    let mut bank = RegisterBank::new();
    Gpio::new(D).set_iomux(&mut bank, GPIO_PIN_15, 5);
    assert_eq!(bank.read(D + AFRH), 0x00A0_0000);
}

#[test]
fn a_function_number_too_large_for_its_field_is_cut() {
    let mut bank = RegisterBank::new();
    Gpio::new(D).set_iomux(&mut bank, GPIO_PIN_10, 0xF);
    assert_eq!(bank.read(D + AFRH), 0x0000_01C0);
    let mut bank = RegisterBank::new();
    Gpio::new(A).set_iomux(&mut bank, GPIO_PIN_4, 0xFF);
    assert_eq!(bank.read(A + AFRL), 0x000F_0000);
    let mut bank = RegisterBank::new();
    Gpio::new(A).set_iomux(&mut bank, GPIO_PIN_9, 0x1F);
    assert_eq!(bank.read(A + AFRH), 0x0000_00F0);
}

#[test]
fn shutting_one_port_down_shuts_all_four_down() {
    let mut bank = RegisterBank::new();
    bank.preset(0x4000_000C, 0x03D0_0000);
    bank.preset(0x4000_0018, 0xFFFF_FFFF);
    Gpio::new(B).deinit(&mut bank);
    assert_eq!(
        bank.log().as_slice(),
        &[
            Access::Write { addr: 0x4000_000C, value: 0x01D0_0000 },
            Access::Write { addr: 0x4000_000C, value: 0x00D0_0000 },
            Access::Write { addr: 0x4000_000C, value: 0x0050_0000 },
            Access::Write { addr: 0x4000_000C, value: 0x0010_0000 },
            Access::Write { addr: 0x4000_0018, value: 0xFFFF_DFFF },
            Access::Write { addr: 0x4000_0018, value: 0xFFFF_FFFF },
        ]
    );
}

#[test]
fn pins_by_name() {
    assert_eq!(GPIO_PIN_0, 0);
    assert_eq!(GPIO_PIN_7, 7);
    assert_eq!(GPIO_PIN_8, 8);
    assert_eq!(GPIO_PIN_12, 12);
    assert_eq!(GPIO_PIN_13, 13);
    assert_eq!(GPIO_PIN_15, 15);
    assert!(Gpio::new(D).open_drain_by_pull_up(GPIO_PIN_8));
    assert!(!Gpio::new(D).open_drain_by_pull_up(GPIO_PIN_7));
    assert!(!Gpio::new(C).open_drain_by_pull_up(GPIO_PIN_9));
}
