use lora_rs::bus::{Access, RegisterBank, RegisterBus};
use lora_rs::peripherals::rcc::{
    analog_addr, analog_rd, analog_wr, clock_gate, reset_line, ClockGate, ResetLine,
    RCC_HCLK, RCC_LPTIMER0_CLK_SOURCE_EXTCLK, RCC_LPTIMER1_CLK_SOURCE_EXTCLK, RCC_OSC_RCO32K,
    RCC_OSC_RCO48M, RCC_OSC_RCO4M, RCC_OSC_XO24M, RCC_OSC_XO32K, RCC_OSC_XO32M, RCC_PCLK0,
    RCC_PCLK1, RCC_PERIPHERAL_ADC, RCC_PERIPHERAL_AFEC, RCC_PERIPHERAL_BSTIMER0,
    RCC_PERIPHERAL_BSTIMER1, RCC_PERIPHERAL_CRC, RCC_PERIPHERAL_DAC, RCC_PERIPHERAL_DMA0,
    RCC_PERIPHERAL_DMA1, RCC_PERIPHERAL_GPIOA, RCC_PERIPHERAL_GPIOB, RCC_PERIPHERAL_GPIOC,
    RCC_PERIPHERAL_GPIOD, RCC_PERIPHERAL_I2C0, RCC_PERIPHERAL_I2C1, RCC_PERIPHERAL_I2C2,
    RCC_PERIPHERAL_I2S, RCC_PERIPHERAL_IWDG, RCC_PERIPHERAL_LCD, RCC_PERIPHERAL_LORA,
    RCC_PERIPHERAL_LPTIMER0, RCC_PERIPHERAL_LPTIMER1, RCC_PERIPHERAL_LPUART, RCC_PERIPHERAL_PWR,
    RCC_PERIPHERAL_QSPI, RCC_PERIPHERAL_RNGC, RCC_PERIPHERAL_RTC, RCC_PERIPHERAL_SAC,
    RCC_PERIPHERAL_SEC, RCC_PERIPHERAL_SSP0, RCC_PERIPHERAL_SSP1, RCC_PERIPHERAL_SSP2,
    RCC_PERIPHERAL_SYSCFG, RCC_PERIPHERAL_TIMER0, RCC_PERIPHERAL_TIMER1, RCC_PERIPHERAL_TIMER2,
    RCC_PERIPHERAL_TIMER3, RCC_PERIPHERAL_UART0, RCC_PERIPHERAL_UART1, RCC_PERIPHERAL_UART2,
    RCC_PERIPHERAL_UART3, RCC_PERIPHERAL_WDG, RCC_SYSTICK_SOURCE_RCO32K, RCC_SYSTICK_SOURCE_XO32K,
    RCC_SYS_CLK,
};
use lora_rs::peripherals::regs::{Rcc, RCC_BASE};

const CR0: u32 = 0x4000_0000;
const CR1: u32 = 0x4000_0004;
const CR2: u32 = 0x4000_0008;
const CGR0: u32 = 0x4000_000C;
const CGR1: u32 = 0x4000_0010;
const CGR2: u32 = 0x4000_0014;
const RST0: u32 = 0x4000_0018;
const RST1: u32 = 0x4000_001C;
const RST_CR: u32 = 0x4000_0024;
const SR: u32 = 0x4000_0028;
const SR1: u32 = 0x4000_002C;
const CR3: u32 = 0x4000_0030;
const ANALOG_2: u32 = 0x4000_8008;
const ANALOG_6: u32 = 0x4000_8018;
const AFEC_RAW_SR: u32 = 0x4000_8208;
const LORAC_CR1: u32 = 0x4000_9104;
const LORAC_SR: u32 = 0x4000_9108;

fn rcc() -> Rcc {
    Rcc::new(RCC_BASE)
}

fn bank_with(addr: u32, value: u32) -> RegisterBank {
    let mut bank = RegisterBank::new();
    bank.preset(addr, value);
    bank
}

#[test]
fn the_controller_sits_at_the_start_of_the_peripherals() {
    assert_eq!(RCC_BASE, 0x4000_0000);
    assert_eq!(rcc().base(), 0x4000_0000);
    assert_eq!(rcc().reg(0x2C), SR1);
}

#[test]
fn pclk0_of_the_48_mhz_source_divided_by_one_and_by_two() {
    let bank = bank_with(CR0, 0x0000_7020);
    assert_eq!(rcc().get_clk_freq(&bank, RCC_PCLK0), 24_000_000);
}

#[test]
fn the_frequency_is_the_same_on_every_call() {
    let bank = bank_with(CR0, 0x0001_5340);
    let first = rcc().get_clk_freq(&bank, RCC_PCLK1);
    let second = rcc().get_clk_freq(&bank, RCC_PCLK1);
    assert_eq!(first, 1_000_000);
    assert_eq!(second, 1_000_000);
    assert!(bank.log().is_empty());
}

#[test]
fn the_frequency_depends_on_the_control_register_alone() {
    let mut bank = bank_with(CR0, 0x0000_4000);
    bank.preset(CR1, 0xFFFF_FFFF);
    bank.preset(CR2, 0xFFFF_FFFF);
    bank.preset(SR1, 0xFFFF_FFFF);
    assert_eq!(rcc().get_clk_freq(&bank, RCC_HCLK), 24_000_000);
}

#[test]
fn bits_outside_the_clock_fields_do_not_change_the_frequency() {
    for clk in [RCC_SYS_CLK, RCC_HCLK, RCC_PCLK0, RCC_PCLK1] {
        let plain = bank_with(CR0, 0x0001_7120);
        let noisy = bank_with(CR0, 0xFFFD_713F);
        assert_eq!(rcc().get_clk_freq(&plain, clk), rcc().get_clk_freq(&noisy, clk));
    }
    let noisy = bank_with(CR0, 0xFFFD_713F);
    assert_eq!(rcc().get_clk_freq(&noisy, RCC_PCLK0), 12_000_000);
    assert_eq!(rcc().get_clk_freq(&noisy, RCC_PCLK1), 6_000_000);
}

#[test]
fn each_oscillator_has_its_nominal_frequency() {
    let table: [(u32, u32); 8] = [
        (0x0000_7000, 48_000_000),
        (0x0000_1000, 32_000),
        (0x0000_2000, 32_768),
        (0x0000_4000, 24_000_000),
        (0x0000_5000, 32_000_000),
        (0x0000_6000, 3_600_000),
        (0x0000_0000, 24_000_000),
        (0x0000_3000, 24_000_000),
    ];
    for (cr0, freq) in table {
        let bank = bank_with(CR0, cr0);
        assert_eq!(rcc().get_clk_freq(&bank, RCC_SYS_CLK), freq);
        assert_eq!(rcc().get_clk_freq(&bank, RCC_HCLK), freq);
    }
}

#[test]
fn a_selector_without_an_oscillator_counts_as_24_mhz() {
    let bank = bank_with(CR0, 0x0000_3000);
    assert_eq!(rcc().get_clk_freq(&bank, RCC_SYS_CLK), 24_000_000);
    let bank = bank_with(CR0, 0xFFFF_8FFF);
    assert_eq!(rcc().get_clk_freq(&bank, RCC_SYS_CLK), 24_000_000);
}

#[test]
fn the_ahb_divider_halves_once_per_count() {
    let bank = bank_with(CR0, 0x0000_7900);
    assert_eq!(rcc().get_clk_freq(&bank, RCC_HCLK), 93_750);
    let bank = bank_with(CR0, 0x0000_7F00);
    assert_eq!(rcc().get_clk_freq(&bank, RCC_HCLK), 1_464);
    assert_eq!(rcc().get_clk_freq(&bank, RCC_SYS_CLK), 48_000_000);
}

#[test]
fn the_apb_dividers_come_after_the_ahb_divider() {
    let bank = bank_with(CR0, 0x0001_7140);
    assert_eq!(rcc().get_clk_freq(&bank, RCC_HCLK), 24_000_000);
    assert_eq!(rcc().get_clk_freq(&bank, RCC_PCLK0), 6_000_000);
    assert_eq!(rcc().get_clk_freq(&bank, RCC_PCLK1), 6_000_000);
    let bank = bank_with(CR0, 0x0003_F0E0);
    assert_eq!(rcc().get_clk_freq(&bank, RCC_PCLK0), 375_000);
    assert_eq!(rcc().get_clk_freq(&bank, RCC_PCLK1), 375_000);
}

#[test]
fn an_unknown_clock_is_the_system_clock() {
    let bank = bank_with(CR0, 0x0000_5920);
    assert_eq!(rcc().get_clk_freq(&bank, 4), 32_000_000);
    assert_eq!(rcc().get_clk_freq(&bank, 0xFFFF_FFFF), 32_000_000);
}

#[test]
fn a_handle_elsewhere_reads_its_own_control_register() {
    let mut bank = bank_with(CR0, 0x0000_7000);
    bank.preset(0x5000_0000, 0x0000_1000);
    assert_eq!(Rcc::new(0x5000_0000).get_clk_freq(&bank, RCC_SYS_CLK), 32_000);
}

#[test]
fn every_plain_clock_gate_has_its_bit() {
    let table: [(u32, u32, u32); 36] = [
        (RCC_PERIPHERAL_UART0, CGR0, 0x0010_0000),
        (RCC_PERIPHERAL_UART1, CGR0, 0x0008_0000),
        (RCC_PERIPHERAL_UART2, CGR0, 0x0004_0000),
        (RCC_PERIPHERAL_UART3, CGR0, 0x0002_0000),
        (RCC_PERIPHERAL_SSP0, CGR0, 0x0000_8000),
        (RCC_PERIPHERAL_SSP1, CGR0, 0x0000_4000),
        (RCC_PERIPHERAL_SSP2, CGR0, 0x0000_2000),
        (RCC_PERIPHERAL_QSPI, CGR1, 0x0000_0020),
        (RCC_PERIPHERAL_I2C0, CGR0, 0x0000_1000),
        (RCC_PERIPHERAL_I2C1, CGR0, 0x0000_0800),
        (RCC_PERIPHERAL_I2C2, CGR0, 0x0000_0400),
        (RCC_PERIPHERAL_ADC, CGR0, 0x0000_0100),
        (RCC_PERIPHERAL_DAC, CGR0, 0x0000_0020),
        (RCC_PERIPHERAL_AFEC, CGR0, 0x0000_0080),
        (RCC_PERIPHERAL_LORA, CGR0, 0x0000_0010),
        (RCC_PERIPHERAL_GPIOA, CGR0, 0x0200_0000),
        (RCC_PERIPHERAL_GPIOB, CGR0, 0x0100_0000),
        (RCC_PERIPHERAL_GPIOC, CGR0, 0x0080_0000),
        (RCC_PERIPHERAL_GPIOD, CGR0, 0x0040_0000),
        (RCC_PERIPHERAL_TIMER0, CGR0, 0x0000_0008),
        (RCC_PERIPHERAL_TIMER1, CGR0, 0x0000_0004),
        (RCC_PERIPHERAL_TIMER2, CGR0, 0x0000_0002),
        (RCC_PERIPHERAL_TIMER3, CGR0, 0x0000_0001),
        (RCC_PERIPHERAL_BSTIMER0, CGR0, 0x0800_0000),
        (RCC_PERIPHERAL_BSTIMER1, CGR0, 0x0400_0000),
        (RCC_PERIPHERAL_CRC, CGR0, 0x1000_0000),
        (RCC_PERIPHERAL_SEC, CGR1, 0x0000_0001),
        (RCC_PERIPHERAL_SAC, CGR1, 0x0000_0080),
        (RCC_PERIPHERAL_I2S, CGR1, 0x0000_0100),
        (RCC_PERIPHERAL_DMA0, CGR0, 0x4000_0000),
        (RCC_PERIPHERAL_DMA1, CGR0, 0x2000_0000),
        (RCC_PERIPHERAL_RNGC, CGR1, 0x0000_0400),
        (RCC_PERIPHERAL_SYSCFG, CGR0, 0x0020_0000),
        (RCC_PERIPHERAL_PWR, CGR0, 0x8000_0000),
        (0x1F, CGR0, 0x0010_0000),
        (0x00, CGR1, 0x0000_0080),
    ];
    for (peripheral, reg, mask) in table {
        let mut bank = RegisterBank::new();
        rcc().enable_peripheral_clk(&mut bank, peripheral, true);
        assert_eq!(bank.log().as_slice(), &[Access::Write { addr: reg, value: mask }]);
        rcc().enable_peripheral_clk(&mut bank, peripheral, false);
        assert_eq!(bank.read(reg), 0);
        assert_eq!(bank.log().len(), 2);
    }
}

#[test]
fn a_plain_gate_leaves_the_other_gates_alone() {
    let mut bank = bank_with(CGR0, 0x0200_0008);
    rcc().enable_peripheral_clk(&mut bank, RCC_PERIPHERAL_UART0, true);
    assert_eq!(bank.read(CGR0), 0x0210_0008);
    rcc().enable_peripheral_clk(&mut bank, RCC_PERIPHERAL_UART0, false);
    assert_eq!(bank.read(CGR0), 0x0200_0008);
}

#[test]
fn the_gates_are_those_of_the_controller_at_its_fixed_base() {
    let mut bank = RegisterBank::new();
    Rcc::new(0x5000_0000).enable_peripheral_clk(&mut bank, RCC_PERIPHERAL_UART1, true);
    assert_eq!(bank.read(CGR0), 0x0008_0000);
    assert_eq!(bank.read(0x5000_000C), 0);
}

#[test]
fn a_mirrored_gate_waits_before_its_mirror_is_written() {
    let table: [(u32, u32, u32, u32); 4] = [
        (RCC_PERIPHERAL_LPUART, CGR0, 0x0001_0000, 0x0000_0004),
        (RCC_PERIPHERAL_LCD, CGR0, 0x0000_0040, 0x0000_0008),
        (RCC_PERIPHERAL_IWDG, CGR1, 0x0000_0008, 0x0000_0001),
        (RCC_PERIPHERAL_RTC, CGR1, 0x0000_0002, 0x0000_0002),
    ];
    for (peripheral, reg, mask, aon) in table {
        let mut bank = RegisterBank::new();
        rcc().enable_peripheral_clk(&mut bank, peripheral, true);
        assert_eq!(
            bank.log().as_slice(),
            &[
                Access::Write { addr: reg, value: mask },
                Access::Wait { addr: SR, mask: 0x3F, expected: 0x3F },
                Access::Write { addr: CGR2, value: aon },
            ]
        );
        assert_eq!(bank.read(SR), 0x3F);

        let mut bank = RegisterBank::new();
        bank.preset(reg, 0xFFFF_FFFF);
        bank.preset(CGR2, 0x0000_003F);
        rcc().enable_peripheral_clk(&mut bank, peripheral, false);
        assert_eq!(
            bank.log().as_slice(),
            &[
                Access::Write { addr: reg, value: 0xFFFF_FFFF & !mask },
                Access::Wait { addr: SR, mask: 0x3F, expected: 0x3F },
                Access::Write { addr: CGR2, value: 0x3F & !aon },
            ]
        );
    }
}

#[test]
fn a_low_power_timer_opens_bus_clock_first_and_closes_it_last() {
    let mut bank = RegisterBank::new();
    rcc().enable_peripheral_clk(&mut bank, RCC_PERIPHERAL_LPTIMER0, true);
    assert_eq!(
        bank.log().as_slice(),
        &[
            Access::Write { addr: CGR1, value: 0x0000_0200 },
            Access::Wait { addr: SR, mask: 0x3F, expected: 0x3F },
            Access::Write { addr: CGR2, value: 0x0000_0010 },
            Access::Write { addr: CGR1, value: 0x0000_0210 },
        ]
    );
    let mut bank = RegisterBank::new();
    bank.preset(CGR1, 0x0000_0210);
    bank.preset(CGR2, 0x0000_0010);
    rcc().enable_peripheral_clk(&mut bank, RCC_PERIPHERAL_LPTIMER0, false);
    assert_eq!(
        bank.log().as_slice(),
        &[
            Access::Write { addr: CGR1, value: 0x0000_0200 },
            Access::Wait { addr: SR, mask: 0x3F, expected: 0x3F },
            Access::Write { addr: CGR2, value: 0x0000_0000 },
            Access::Write { addr: CGR1, value: 0x0000_0000 },
        ]
    );
}

#[test]
fn the_second_low_power_timer_has_its_own_three_bits() {
    let mut bank = RegisterBank::new();
    rcc().enable_peripheral_clk(&mut bank, RCC_PERIPHERAL_LPTIMER1, true);
    assert_eq!(
        bank.log().as_slice(),
        &[
            Access::Write { addr: CGR1, value: 0x0000_1000 },
            Access::Wait { addr: SR, mask: 0x3F, expected: 0x3F },
            Access::Write { addr: CGR2, value: 0x0000_0020 },
            Access::Write { addr: CGR1, value: 0x0000_1800 },
        ]
    );
    rcc().enable_peripheral_clk(&mut bank, RCC_PERIPHERAL_LPTIMER1, false);
    assert_eq!(bank.read(CGR1), 0);
    assert_eq!(bank.read(CGR2), 0);
    assert_eq!(bank.log()[4], Access::Write { addr: CGR1, value: 0x0000_1000 });
    assert_eq!(bank.log()[7], Access::Write { addr: CGR1, value: 0x0000_0000 });
}

#[test]
fn the_watchdog_has_two_bits_in_one_register() {
    let mut bank = RegisterBank::new();
    rcc().enable_peripheral_clk(&mut bank, RCC_PERIPHERAL_WDG, true);
    assert_eq!(
        bank.log().as_slice(),
        &[
            Access::Write { addr: CGR1, value: 0x0000_0004 },
            Access::Write { addr: CGR1, value: 0x0000_0044 },
        ]
    );
}

#[test]
fn an_unknown_peripheral_has_no_gate() {
    for peripheral in [0x13u32, 0x23, 0x2F, 0x35, 0x42, 0xFFFF_FFFF] {
        let mut bank = RegisterBank::new();
        rcc().enable_peripheral_clk(&mut bank, peripheral, true);
        assert!(bank.log().is_empty());
        assert_eq!(clock_gate(peripheral), ClockGate::Absent);
    }
}

#[test]
fn the_gate_table_names_register_offsets() {
    assert_eq!(
        clock_gate(RCC_PERIPHERAL_UART0),
        ClockGate::Plain { reg: 0x0C, mask: 0x0010_0000 }
    );
    assert_eq!(
        clock_gate(RCC_PERIPHERAL_WDG),
        ClockGate::Paired { reg: 0x10, first: 0x04, second: 0x40 }
    );
    assert_eq!(
        clock_gate(RCC_PERIPHERAL_RTC),
        ClockGate::Mirrored { reg: 0x10, mask: 0x02, aon: 0x02 }
    );
    assert_eq!(
        clock_gate(RCC_PERIPHERAL_LPTIMER0),
        ClockGate::Timer { bus_clk: 0x200, aon: 0x10, counter_clk: 0x10 }
    );
}

#[test]
fn the_four_gpio_ports_share_the_reset_line_of_port_a() {
    for port in [
        RCC_PERIPHERAL_GPIOA,
        RCC_PERIPHERAL_GPIOB,
        RCC_PERIPHERAL_GPIOC,
        RCC_PERIPHERAL_GPIOD,
    ] {
        let mut bank = bank_with(RST0, 0xFFFF_FFFF);
        rcc().rst_peripheral(&mut bank, port, true);
        assert_eq!(bank.log().as_slice(), &[Access::Write { addr: RST0, value: 0xFFFF_DFFF }]);
        rcc().rst_peripheral(&mut bank, port, false);
        assert_eq!(bank.read(RST0), 0xFFFF_FFFF);
        assert_eq!(reset_line(port), ResetLine::Line { reg: 0x18, mask: 0x0000_2000 });
    }
}

#[test]
fn releasing_a_reset_sets_the_bit_and_asserting_clears_it() {
    let mut bank = RegisterBank::new();
    rcc().rst_peripheral(&mut bank, RCC_PERIPHERAL_UART0, false);
    assert_eq!(bank.read(RST0), 0x8000_0000);
    rcc().rst_peripheral(&mut bank, RCC_PERIPHERAL_SAC, false);
    assert_eq!(bank.read(RST0), 0x8000_0001);
    rcc().rst_peripheral(&mut bank, RCC_PERIPHERAL_UART0, true);
    assert_eq!(bank.read(RST0), 0x0000_0001);
    assert_eq!(bank.read(RST1), 0);
}

#[test]
fn the_upper_identifiers_are_in_the_second_reset_register() {
    let mut bank = RegisterBank::new();
    rcc().rst_peripheral(&mut bank, RCC_PERIPHERAL_DMA1, false);
    assert_eq!(bank.read(RST1), 0x0000_0001);
    rcc().rst_peripheral(&mut bank, RCC_PERIPHERAL_LPTIMER1, false);
    assert_eq!(bank.read(RST1), 0x0000_0011);
    rcc().rst_peripheral(&mut bank, 0x3F, false);
    assert_eq!(bank.read(RST1), 0x0000_8011);
    assert_eq!(bank.read(RST0), 0);
}

#[test]
fn an_identifier_without_a_reset_line_is_ignored() {
    for peripheral in [RCC_PERIPHERAL_SYSCFG, RCC_PERIPHERAL_PWR, 0x23, 0x2F, 0x1000, 0xFFFF_FFFF] {
        let mut bank = RegisterBank::new();
        rcc().rst_peripheral(&mut bank, peripheral, false);
        rcc().rst_peripheral(&mut bank, peripheral, true);
        assert!(bank.log().is_empty());
        assert_eq!(reset_line(peripheral), ResetLine::Absent);
    }
}

#[test]
fn a_reset_goes_to_the_controller_of_the_handle() {
    let mut bank = RegisterBank::new();
    Rcc::new(0x5000_0000).rst_peripheral(&mut bank, RCC_PERIPHERAL_GPIOC, false);
    assert_eq!(bank.read(0x5000_0018), 0x0000_2000);
    assert_eq!(bank.read(RST0), 0);
}

#[test]
fn a_quiet_clock_gets_its_source_in_one_write() {
    let mut bank = bank_with(CR2, 0xFFFF_FFFF);
    rcc().set_uart0_clk_src(&mut bank, 0x0000_8000);
    assert_eq!(bank.log().as_slice(), &[Access::Write { addr: CR2, value: 0xFFFE_FFFF }]);
    assert_eq!(rcc().get_uart0_clk_src(&bank), 0x0000_8000);
    assert_eq!(rcc().get_uart0_clk_source(&bank), 0x0000_8000);
}

#[test]
fn a_running_clock_is_closed_and_awaited_before_its_source_changes() {
    let mut bank = RegisterBank::new();
    bank.preset(SR1, 0x0004_0040);
    bank.preset(CGR0, 0x0210_0000);
    rcc().set_uart0_clk_src(&mut bank, 0x0001_8000);
    assert_eq!(
        bank.log().as_slice(),
        &[
            Access::Write { addr: CGR0, value: 0x0200_0000 },
            Access::Wait { addr: SR1, mask: 0x0004_0000, expected: 0 },
            Access::Write { addr: CR2, value: 0x0001_8000 },
        ]
    );
    assert_eq!(bank.read(SR1), 0x0000_0040);
}

#[test]
fn every_clock_source_has_its_sync_flag_gate_and_field() {
    struct Row {
        sync: u32,
        gate: u32,
        gate_mask: u32,
        sel: u32,
        value: u32,
    }
    let rows = [
        Row { sync: 0x0002_0000, gate: CGR0, gate_mask: 0x0008_0000, sel: CR2, value: 0x0000_6000 },
        Row { sync: 0x0001_0000, gate: CGR0, gate_mask: 0x0004_0000, sel: CR2, value: 0x0000_1800 },
        Row { sync: 0x0000_8000, gate: CGR0, gate_mask: 0x0002_0000, sel: CR2, value: 0x0000_0600 },
        Row { sync: 0x0000_0200, gate: CGR0, gate_mask: 0x0000_0040, sel: CR1, value: 0x0000_0020 },
        Row { sync: 0x0000_0400, gate: CGR0, gate_mask: 0x0001_0000, sel: CR1, value: 0x0000_0008 },
        Row { sync: 0x0000_0080, gate: CGR1, gate_mask: 0x0000_0002, sel: CR1, value: 0x0000_0002 },
        Row { sync: 0x0000_0100, gate: CGR1, gate_mask: 0x0000_0008, sel: CR1, value: 0x0000_0001 },
        Row { sync: 0x0000_2000, gate: CGR0, gate_mask: 0x0000_0100, sel: CR2, value: 0x0000_0060 },
        Row { sync: 0x0000_0800, gate: CGR1, gate_mask: 0x0000_0020, sel: CR2, value: 0x0000_0001 },
        Row { sync: 0x0000_0020, gate: CGR1, gate_mask: 0x0000_0100, sel: CR2, value: 0x0000_000C },
    ];
    for (i, row) in rows.iter().enumerate() {
        let mut bank = RegisterBank::new();
        bank.preset(SR1, row.sync);
        bank.preset(row.gate, 0xFFFF_FFFF);
        let r = rcc();
        match i {
            0 => r.set_uart1_clk_src(&mut bank, row.value),
            1 => r.set_uart2_clk_src(&mut bank, row.value),
            2 => r.set_uart3_clk_src(&mut bank, row.value),
            3 => r.set_lcd_clk_src(&mut bank, row.value),
            4 => r.set_lpuart_clk_src(&mut bank, row.value),
            5 => r.set_rtc_clk_src(&mut bank, row.value),
            6 => r.set_iwdg_clk_src(&mut bank, row.value),
            7 => r.set_adc_clk_src(&mut bank, row.value),
            8 => r.set_qspi_clk_src(&mut bank, row.value),
            _ => r.set_i2s_clk_src(&mut bank, row.value),
        }
        assert_eq!(
            bank.log().as_slice(),
            &[
                Access::Write { addr: row.gate, value: 0xFFFF_FFFF & !row.gate_mask },
                Access::Wait { addr: SR1, mask: row.sync, expected: 0 },
                Access::Write { addr: row.sel, value: row.value },
            ]
        );
        let got = match i {
            0 => r.get_uart1_clk_src(&bank),
            1 => r.get_uart2_clk_src(&bank),
            2 => r.get_uart3_clk_src(&bank),
            3 => r.get_lcd_get_clk_src(&bank),
            4 => r.get_lpuart_clk_src(&bank),
            5 => r.get_rtc_clk_src(&bank),
            6 => r.get_iwdg_clk_src(&bank),
            7 => r.get_adc_clk_src(&bank),
            8 => r.get_qspi_clk_src(&bank),
            _ => r.get_i2s_clk_src(&bank),
        };
        assert_eq!(got, row.value);
    }
}

#[test]
fn a_source_that_does_not_fit_its_field_is_cut_to_it() {
    let mut bank = RegisterBank::new();
    rcc().set_rtc_clk_src(&mut bank, 0xFFFF_FFFF);
    assert_eq!(bank.read(CR1), 0x0000_0002);
}

#[test]
fn the_clock_output_is_switched_off_before_its_source_changes() {
    let mut bank = RegisterBank::new();
    bank.preset(SR1, 0x0000_0040);
    bank.preset(CR0, 0x0004_7000);
    rcc().set_mco_clk_src(&mut bank, 0x0028_0000);
    assert_eq!(
        bank.log().as_slice(),
        &[
            Access::Write { addr: CR0, value: 0x0000_7000 },
            Access::Wait { addr: SR1, mask: 0x0000_0040, expected: 0 },
            Access::Write { addr: CR0, value: 0x0028_7000 },
        ]
    );
    assert_eq!(rcc().get_mco_clk_src(&bank), 0x0028_0000);
}

#[test]
fn the_clock_output_divider_follows_the_same_rule() {
    let mut bank = RegisterBank::new();
    bank.preset(SR1, 0x0000_0040);
    bank.preset(CR0, 0x0004_0000);
    rcc().set_mco_clk_div(&mut bank, 0x0140_0000);
    assert_eq!(
        bank.log().as_slice(),
        &[
            Access::Write { addr: CR0, value: 0x0000_0000 },
            Access::Wait { addr: SR1, mask: 0x0000_0040, expected: 0 },
            Access::Write { addr: CR0, value: 0x0140_0000 },
        ]
    );
    let mut bank = RegisterBank::new();
    rcc().set_mco_clk_div(&mut bank, 0x0180_0000);
    assert_eq!(bank.log().as_slice(), &[Access::Write { addr: CR0, value: 0x0180_0000 }]);
}

#[test]
fn the_external_clock_of_a_low_power_timer_has_a_bit_of_its_own() {
    assert_eq!(RCC_LPTIMER0_CLK_SOURCE_EXTCLK, 0xC1);
    assert_eq!(RCC_LPTIMER1_CLK_SOURCE_EXTCLK, 0x301);
    let mut bank = bank_with(CR1, 0x0000_0080);
    rcc().set_lptimer0_clk_src(&mut bank, RCC_LPTIMER0_CLK_SOURCE_EXTCLK);
    assert_eq!(bank.read(CR1), 0x0000_0480);
    assert_eq!(rcc().get_lptimer0_get_clk_src(&bank), 0xC1);
    let mut bank = bank_with(CR1, 0x0000_0100);
    rcc().set_lptimer1_clk_src(&mut bank, RCC_LPTIMER1_CLK_SOURCE_EXTCLK);
    assert_eq!(bank.read(CR1), 0x0000_0900);
    assert_eq!(rcc().get_lptimer1_get_clk_src(&bank), 0x301);
}

#[test]
fn the_other_sources_of_a_low_power_timer_go_into_its_field() {
    let mut bank = bank_with(CR1, 0x0000_0003);
    rcc().set_lptimer0_clk_src(&mut bank, 0x0000_0080);
    assert_eq!(bank.read(CR1), 0x0000_0083);
    assert_eq!(rcc().get_lptimer0_get_clk_src(&bank), 0x80);
    bank.preset(SR1, 0x0010_0000);
    bank.preset(CGR1, 0x0000_1800);
    rcc().set_lptimer1_clk_src(&mut bank, 0x0000_0300);
    assert_eq!(bank.read(CR1), 0x0000_0383);
    assert_eq!(bank.read(CGR1), 0x0000_1000);
    assert_eq!(rcc().get_lptimer1_get_clk_src(&bank), 0x300);
}

#[test]
fn the_system_clock_source_and_the_dividers() {
    let mut bank = bank_with(CR0, 0x0000_0F00);
    rcc().set_sys_clk_src(&mut bank, 0x0000_7000);
    assert_eq!(bank.read(CR0), 0x0000_7F00);
    assert_eq!(rcc().get_sys_clk_src(&bank), 0x0000_7000);
    rcc().set_hclk_div(&mut bank, 0x0000_0100);
    assert_eq!(bank.read(CR0), 0x0000_7100);
    rcc().set_pclk_div(&mut bank, 0x0000_0020, 0x0001_0000);
    assert_eq!(bank.read(CR0), 0x0001_7120);
    assert_eq!(rcc().get_clk_freq(&bank, RCC_PCLK0), 12_000_000);
    assert_eq!(rcc().get_clk_freq(&bank, RCC_PCLK1), 6_000_000);
    rcc().set_pclk_div(&mut bank, 0, 0);
    assert_eq!(bank.read(CR0), 0x0000_7100);
}

#[test]
fn the_system_tick_source_clears_the_ahb_divider_field() {
    let mut bank = bank_with(CR0, 0x0200_7F20);
    rcc().set_systick_src(&mut bank, RCC_SYSTICK_SOURCE_XO32K);
    assert_eq!(bank.read(CR0), 0x0200_7020);
    let mut bank = bank_with(CR0, 0x0000_0900);
    rcc().set_systick_src(&mut bank, RCC_SYSTICK_SOURCE_RCO32K);
    assert_eq!(bank.read(CR0), 0x0000_0000);
}

#[test]
fn the_clock_output_enable_and_the_reset_mask() {
    let mut bank = RegisterBank::new();
    rcc().enable_mco_clk_output(&mut bank, true);
    assert_eq!(bank.read(CR0), 0x0004_0000);
    rcc().enable_mco_clk_output(&mut bank, false);
    assert_eq!(bank.read(CR0), 0);
    rcc().set_reset_mask(&mut bank, 0x0000_0030);
    assert_eq!(bank.read(RST_CR), 0x0000_0030);
    assert_eq!(rcc().get_reset_mask(&bank), 0x0000_0030);
    rcc().set_reset_mask(&mut bank, 0xFFFF_FFFF);
    assert_eq!(bank.read(RST_CR), 0x0000_003E);
    bank.preset(RST_CR, 0xFFFF_FFC1);
    assert_eq!(rcc().get_reset_mask(&bank), 0);
}

#[test]
fn the_i2s_dividers_share_one_register() {
    let mut bank = RegisterBank::new();
    rcc().set_i2s_mclk_div(&mut bank, 0x12);
    assert_eq!(bank.read(CR3), 0x0000_1200);
    rcc().set_i2s_sclk_div(&mut bank, 0x34);
    assert_eq!(bank.read(CR3), 0x0000_1234);
    rcc().set_i2s_mclk_div(&mut bank, 0x1FF);
    assert_eq!(bank.read(CR3), 0x0000_FF34);
    rcc().set_i2s_sclk_div(&mut bank, 0x100);
    assert_eq!(bank.read(CR3), 0x0000_FF00);
}

#[test]
fn analog_words_are_reached_by_index() {
    assert_eq!(analog_addr(0x02), ANALOG_2);
    assert_eq!(analog_addr(0x06), ANALOG_6);
    let mut bank = RegisterBank::new();
    analog_wr(&mut bank, 0x06, 0x55);
    assert_eq!(bank.read(ANALOG_6), 0x55);
    assert_eq!(analog_rd(&bank, 0x06), 0x55);
    assert_eq!(analog_rd(&bank, 0x02), 0);
}

#[test]
fn the_48_mhz_oscillator_is_awaited_to_be_ready() {
    let mut bank = bank_with(ANALOG_6, 0xFFFF_FFFF);
    rcc().enable_oscillator(&mut bank, RCC_OSC_RCO48M, true);
    assert_eq!(
        bank.log().as_slice(),
        &[
            Access::Write { addr: ANALOG_6, value: 0xFFFF_FFDF },
            Access::Wait { addr: AFEC_RAW_SR, mask: 0x0000_0004, expected: 0x0000_0004 },
        ]
    );
    rcc().enable_oscillator(&mut bank, RCC_OSC_RCO48M, false);
    assert_eq!(bank.read(ANALOG_6), 0xFFFF_FFFF);
    assert_eq!(bank.read(AFEC_RAW_SR), 0);
    assert_eq!(
        bank.log()[3],
        Access::Wait { addr: AFEC_RAW_SR, mask: 0x0000_0004, expected: 0 }
    );
}

#[test]
fn the_4_mhz_oscillator_is_awaited_to_be_ready() {
    let mut bank = bank_with(ANALOG_6, 0x0000_0040);
    rcc().enable_oscillator(&mut bank, RCC_OSC_RCO4M, true);
    assert_eq!(
        bank.log().as_slice(),
        &[
            Access::Write { addr: ANALOG_6, value: 0 },
            Access::Wait { addr: AFEC_RAW_SR, mask: 0x8000_0000, expected: 0x8000_0000 },
        ]
    );
    rcc().enable_oscillator(&mut bank, RCC_OSC_RCO4M, false);
    assert_eq!(bank.read(ANALOG_6), 0x0000_0040);
    assert_eq!(bank.read(AFEC_RAW_SR), 0);
}

#[test]
fn the_32_khz_oscillators_are_bits_of_one_analog_word() {
    let mut bank = bank_with(ANALOG_2, 0x0000_E000);
    rcc().enable_oscillator(&mut bank, RCC_OSC_RCO32K, true);
    assert_eq!(bank.read(ANALOG_2), 0x0000_6000);
    rcc().enable_oscillator(&mut bank, RCC_OSC_XO32K, true);
    assert_eq!(bank.read(ANALOG_2), 0x0000_0000);
    rcc().enable_oscillator(&mut bank, RCC_OSC_XO32K, false);
    assert_eq!(bank.read(ANALOG_2), 0x0000_6000);
    rcc().enable_oscillator(&mut bank, RCC_OSC_RCO32K, false);
    assert_eq!(bank.read(ANALOG_2), 0x0000_E000);
    assert_eq!(bank.log().len(), 4);
}

#[test]
fn the_24_mhz_crystal_has_a_run_bit_and_a_stop_bit() {
    let mut bank = bank_with(ANALOG_6, 0x0000_0070);
    rcc().enable_oscillator(&mut bank, RCC_OSC_XO24M, true);
    assert_eq!(bank.read(ANALOG_6), 0x0000_0068);
    rcc().enable_oscillator(&mut bank, RCC_OSC_XO24M, false);
    assert_eq!(bank.read(ANALOG_6), 0x0000_0070);
    assert_eq!(bank.log().len(), 2);
}

#[test]
fn the_radio_crystal_is_started_through_the_radio_controller() {
    let mut bank = bank_with(LORAC_CR1, 0x0000_0080);
    rcc().enable_oscillator(&mut bank, RCC_OSC_XO32M, true);
    assert_eq!(
        bank.log().as_slice(),
        &[
            Access::Write { addr: CGR0, value: 0x0000_0010 },
            Access::Write { addr: LORAC_CR1, value: 0x0000_00A0 },
            Access::Write { addr: LORAC_CR1, value: 0x0000_0020 },
            Access::Write { addr: LORAC_CR1, value: 0x0000_0024 },
            Access::Wait { addr: LORAC_SR, mask: 0x0000_0002, expected: 0x0000_0002 },
        ]
    );
}

#[test]
fn a_radio_out_of_reset_is_not_reset_again() {
    let mut bank = bank_with(LORAC_CR1, 0x0000_00A0);
    rcc().enable_oscillator(&mut bank, RCC_OSC_XO32M, true);
    assert_eq!(
        bank.log().as_slice(),
        &[
            Access::Write { addr: CGR0, value: 0x0000_0010 },
            Access::Write { addr: LORAC_CR1, value: 0x0000_00A4 },
            Access::Wait { addr: LORAC_SR, mask: 0x0000_0002, expected: 0x0000_0002 },
        ]
    );
}

#[test]
fn the_radio_crystal_is_stopped_with_the_radio_clocked() {
    let mut bank = bank_with(LORAC_CR1, 0x0000_0024);
    bank.preset(LORAC_SR, 0x0000_0003);
    rcc().enable_oscillator(&mut bank, RCC_OSC_XO32M, false);
    assert_eq!(
        bank.log().as_slice(),
        &[
            Access::Write { addr: CGR0, value: 0x0000_0010 },
            Access::Write { addr: LORAC_CR1, value: 0x0000_0020 },
            Access::Wait { addr: LORAC_SR, mask: 0x0000_0002, expected: 0 },
        ]
    );
    assert_eq!(bank.read(LORAC_SR), 0x0000_0001);
}

#[test]
fn an_unknown_oscillator_is_ignored() {
    for osc in [6u32, 7, 0xFFFF_FFFF] {
        let mut bank = RegisterBank::new();
        rcc().enable_oscillator(&mut bank, osc, true);
        rcc().enable_oscillator(&mut bank, osc, false);
        assert!(bank.log().is_empty());
    }
}
