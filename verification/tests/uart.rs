use lora_rs::bus::{Access, RegisterBank, RegisterBus};
use lora_rs::peripherals::regs::{
    SetStatus, Uart, LPUART_BASE, UART0_BASE, UART1_BASE, UART2_BASE, UART3_BASE,
};
use lora_rs::peripherals::uart::{
    calc_uart_baud, DataWidth, FlowControl, Mode, Parity, StopBits, UartConfig, UartFlag,
    UartInitError,
};

const RCC_CR0: u32 = 0x4000_0000;
const RCC_CR2: u32 = 0x4000_0008;
const RCC_CGR0: u32 = 0x4000_000C;
const RCC_RST0: u32 = 0x4000_0018;

const U0: u32 = 0x4000_3000;
const U1: u32 = 0x4000_4000;
const U2: u32 = 0x4001_0000;
const U3: u32 = 0x4001_1000;

const DR: u32 = 0x00;
const FR: u32 = 0x18;
const IBRD: u32 = 0x24;
const FBRD: u32 = 0x28;
const LCR_H: u32 = 0x2C;
const CR: u32 = 0x30;
const IFLS: u32 = 0x34;
const IMSC: u32 = 0x38;
const MIS: u32 = 0x40;
const ICR: u32 = 0x44;

/// A bank in which the 48 MHz oscillator drives the system clock, the AHB
/// clock is undivided, and both APB clocks are halved: 24 MHz.
fn bank_24_mhz() -> RegisterBank {
    let mut bank = RegisterBank::new();
    bank.preset(RCC_CR0, 0x0000_F020);
    bank
}

fn config(baudrate: u32) -> UartConfig {
    UartConfig { baudrate, ..UartConfig::default() }
}

#[test]
fn the_uarts_sit_at_their_bases() {
    assert_eq!(UART0_BASE, U0);
    assert_eq!(UART1_BASE, U1);
    assert_eq!(UART2_BASE, U2);
    assert_eq!(UART3_BASE, U3);
    assert_eq!(Uart::new(UART3_BASE).reg(CR), 0x4001_1030);
}

#[test]
fn the_default_configuration() {
    let c = UartConfig::default();
    assert_eq!(c.baudrate, 115200);
    assert_eq!(c.data_width, DataWidth::Eight);
    assert_eq!(c.parity, Parity::NoParity);
    assert_eq!(c.stop_bits, StopBits::One);
    assert_eq!(c.flow_control, FlowControl::Disabled);
    assert_eq!(c.mode, Mode::TxRx);
    assert_eq!(c.fifo_mode, 0);
}

#[test]
fn the_encodings_of_the_settings() {
    assert_eq!(UartFlag::TxFifoEmpty.bits(), 0x80);
    assert_eq!(UartFlag::RxFifoFull.bits(), 0x40);
    assert_eq!(UartFlag::TxFifoFull.bits(), 0x20);
    assert_eq!(UartFlag::RxFifoEmpty.bits(), 0x10);
    assert_eq!(UartFlag::Busy.bits(), 0x08);
    assert_eq!(DataWidth::Five.bits(), 0x00);
    assert_eq!(DataWidth::Six.bits(), 0x20);
    assert_eq!(DataWidth::Seven.bits(), 0x40);
    assert_eq!(DataWidth::Eight.bits(), 0x60);
    assert_eq!(StopBits::One.bits(), 0x00);
    assert_eq!(StopBits::Two.bits(), 0x08);
    assert_eq!(FlowControl::Disabled.bits(), 0x0000);
    assert_eq!(FlowControl::Rts.bits(), 0x4000);
    assert_eq!(FlowControl::Cts.bits(), 0x8000);
    assert_eq!(FlowControl::CtsRts.bits(), 0xC000);
    assert_eq!(Mode::Tx.bits(), 0x10);
    assert_eq!(Mode::Rx.bits(), 0x20);
    assert_eq!(Mode::TxRx.bits(), 0x30);
}

#[test]
fn the_divisor_for_115200_baud_at_24_mhz() {
    let divisor = calc_uart_baud(24_000_000, 115200);
    assert_eq!(divisor >> 16, 13);
    assert_eq!(divisor & 0x3F, 1);
    assert_eq!(divisor, 0x000D_0001);
}

#[test]
fn a_table_of_divisors() {
    let table: [(u32, u32, u32, u32); 8] = [
        (48_000_000, 9600, 312, 32),
        (24_000_000, 9600, 156, 16),
        (24_000_000, 38400, 39, 4),
        (6_000_000, 115200, 3, 16),
        (4_000_000, 115200, 2, 11),
        (3_600_000, 115200, 1, 61),
        (3_600_000, 9600, 23, 28),
        (32_768, 2048, 1, 0),
    ];
    for (clk, baud, int_part, frac_part) in table {
        let divisor = calc_uart_baud(clk, baud);
        assert_eq!(divisor >> 16, int_part);
        assert_eq!(divisor & 0x3F, frac_part);
        assert_eq!(divisor, (int_part << 16) | frac_part);
    }
}

#[test]
fn the_fraction_is_halved_with_a_sticky_bit_and_not_rounded() {
    // The raw fraction is 3: halved it is 1, the dropped bit falls on a one.
    assert_eq!(calc_uart_baud(16_400, 1000), 0x0001_0001);
    // The raw fraction is 5: halved it is 2, the dropped bit makes it 3.
    assert_eq!(calc_uart_baud(16_625, 1000), 0x0001_0003);
    // The raw fraction is 4: halved it is 2, nothing is dropped.
    assert_eq!(calc_uart_baud(16_500, 1000), 0x0001_0002);
}

#[test]
fn the_divisor_is_zero_without_a_baud_rate_or_with_too_slow_a_clock() {
    assert_eq!(calc_uart_baud(24_000_000, 0), 0);
    assert_eq!(calc_uart_baud(0, 0), 0);
    assert_eq!(calc_uart_baud(15, 1), 0);
    assert_eq!(calc_uart_baud(24_000_000, 1_500_001), 0);
    assert_eq!(calc_uart_baud(0, 115200), 0);
    assert_eq!(calc_uart_baud(0xFFFF_FFFF, 0x1000_0000), 0);
    assert_eq!(calc_uart_baud(0xFFFF_FFFF, 0xFFFF_FFFF), 0);
}

#[test]
fn the_divisor_at_the_lowest_clock_that_will_do() {
    assert_eq!(calc_uart_baud(16, 1), 0x0001_0000);
    assert_eq!(calc_uart_baud(24_000_000, 1_500_000), 0x0001_0000);
}

#[test]
fn an_integer_part_of_more_than_sixteen_bits_loses_its_upper_bits() {
    assert_eq!(calc_uart_baud(0xFFFF_FFFF, 1), 0xFFFF_003C);
    assert_eq!(calc_uart_baud(0x0010_0000, 1), 0x0000_0000);
    assert_eq!(calc_uart_baud(0x000F_FFFF, 1), 0xFFFF_003C);
}

#[test]
fn an_initialisation_programs_the_default_configuration() {
    let mut bank = bank_24_mhz();
    let result = Uart::new(UART0_BASE).init(&mut bank, UartConfig::default());
    assert!(result.is_ok());
    assert_eq!(
        bank.log().as_slice(),
        &[
            Access::Write { addr: U0 + CR, value: 0 },
            Access::Write { addr: U0 + LCR_H, value: 0 },
            Access::Write { addr: U0 + IMSC, value: 0 },
            Access::Write { addr: U0 + IBRD, value: 13 },
            Access::Write { addr: U0 + FBRD, value: 1 },
            Access::Write { addr: U0 + LCR_H, value: 0x60 },
            Access::Write { addr: U0 + LCR_H, value: 0x60 },
            Access::Write { addr: U0 + LCR_H, value: 0x60 },
            Access::Write { addr: U0 + LCR_H, value: 0x60 },
            Access::Write { addr: U0 + CR, value: 0x30 },
            Access::Write { addr: U0 + CR, value: 0x30 },
        ]
    );
}

#[test]
fn an_initialisation_replaces_what_was_set_before() {
    let mut bank = bank_24_mhz();
    bank.preset(U1 + CR, 0xFFFF_FFFF);
    bank.preset(U1 + LCR_H, 0xFFFF_FFFF);
    bank.preset(U1 + IMSC, 0x0000_07FF);
    let wanted = UartConfig {
        baudrate: 9600,
        data_width: DataWidth::Seven,
        parity: Parity::Odd,
        stop_bits: StopBits::One,
        flow_control: FlowControl::Rts,
        mode: Mode::Rx,
        fifo_mode: 1,
    };
    assert!(Uart::new(UART1_BASE).init(&mut bank, wanted).is_ok());
    assert_eq!(bank.read(U1 + IBRD), 156);
    assert_eq!(bank.read(U1 + FBRD), 16);
    assert_eq!(bank.read(U1 + IMSC), 0);
    assert_eq!(bank.read(U1 + LCR_H), 0xFFFF_FFD3);
    assert_eq!(bank.read(U1 + CR), 0xFFFF_7FEE);
    assert_eq!(
        bank.log().as_slice(),
        &[
            Access::Write { addr: U1 + CR, value: 0xFFFF_FFFE },
            Access::Write { addr: U1 + LCR_H, value: 0xFFFF_FFEF },
            Access::Write { addr: U1 + IMSC, value: 0 },
            Access::Write { addr: U1 + IBRD, value: 156 },
            Access::Write { addr: U1 + FBRD, value: 16 },
            Access::Write { addr: U1 + LCR_H, value: 0xFFFF_FFCF },
            Access::Write { addr: U1 + LCR_H, value: 0xFFFF_FFC7 },
            Access::Write { addr: U1 + LCR_H, value: 0xFFFF_FFC7 },
            Access::Write { addr: U1 + LCR_H, value: 0xFFFF_FFC3 },
            Access::Write { addr: U1 + LCR_H, value: 0xFFFF_FFD3 },
            Access::Write { addr: U1 + CR, value: 0xFFFF_FFEE },
            Access::Write { addr: U1 + CR, value: 0xFFFF_7FEE },
        ]
    );
}

#[test]
fn each_parity_has_its_two_bits() {
    let cases: [(Parity, u32, u32); 6] = [
        (Parity::NoParity, 0x0000_0000, 0x0000_0060),
        (Parity::NoParity, 0x0000_0006, 0x0000_0064),
        (Parity::Even, 0x0000_0000, 0x0000_0066),
        (Parity::Even, 0x0000_0006, 0x0000_0066),
        (Parity::Odd, 0x0000_0000, 0x0000_0062),
        (Parity::Odd, 0x0000_0006, 0x0000_0062),
    ];
    for (parity, before, after) in cases {
        let mut bank = bank_24_mhz();
        bank.preset(U0 + LCR_H, before);
        let wanted = UartConfig { parity, ..UartConfig::default() };
        assert!(Uart::new(UART0_BASE).init(&mut bank, wanted).is_ok());
        assert_eq!(bank.read(U0 + LCR_H), after);
    }
}

#[test]
fn an_initialisation_never_writes_the_enable_bit() {
    let mut bank = bank_24_mhz();
    bank.preset(U0 + CR, 0x0000_C331);
    assert!(Uart::new(UART0_BASE).init(&mut bank, UartConfig::default()).is_ok());
    let mut writes_to_cr = 0;
    for access in bank.log().iter() {
        if let Access::Write { addr, value } = access {
            if *addr == U0 + CR {
                assert_eq!(value & 1, 0);
                writes_to_cr += 1;
            }
        }
    }
    assert_eq!(writes_to_cr, 3);
    assert_eq!(bank.read(U0 + CR), 0x0000_0330);
}

#[test]
fn a_baud_rate_above_a_sixteenth_of_the_clock_is_refused() {
    let mut bank = bank_24_mhz();
    bank.preset(U0 + CR, 0x0000_0320);
    bank.preset(U0 + LCR_H, 0x0000_006E);
    bank.preset(U0 + IBRD, 0x0000_0027);
    bank.preset(U0 + FBRD, 0x0000_0004);
    let result = Uart::new(UART0_BASE).init(&mut bank, config(1_500_001));
    assert!(matches!(result, Err(UartInitError)));
    assert_eq!(bank.read(U0 + CR), 0x0000_0320);
    assert_eq!(bank.read(U0 + LCR_H), 0x0000_006E);
    assert_eq!(bank.read(U0 + IBRD), 0x0000_0027);
    assert_eq!(bank.read(U0 + FBRD), 0x0000_0004);
}

#[test]
fn a_refused_initialisation_has_stopped_the_uart_and_done_no_more() {
    let mut bank = bank_24_mhz();
    bank.preset(U0 + CR, 0x0000_0321);
    bank.preset(U0 + LCR_H, 0x0000_007E);
    bank.preset(U0 + IMSC, 0x0000_0050);
    let result = Uart::new(UART0_BASE).init(&mut bank, config(2_000_000));
    assert!(result.is_err());
    assert_eq!(
        bank.log().as_slice(),
        &[
            Access::Write { addr: U0 + CR, value: 0x0000_0320 },
            Access::Write { addr: U0 + LCR_H, value: 0x0000_006E },
            Access::Write { addr: U0 + IMSC, value: 0 },
        ]
    );
}

#[test]
fn the_limit_is_sixteen_times_the_baud_rate_exactly() {
    let mut bank = bank_24_mhz();
    assert!(Uart::new(UART0_BASE).init(&mut bank, config(1_500_000)).is_ok());
    assert_eq!(bank.read(U0 + IBRD), 1);
    assert_eq!(bank.read(U0 + FBRD), 0);
    let mut bank = bank_24_mhz();
    assert!(Uart::new(UART0_BASE).init(&mut bank, config(1_500_001)).is_err());
}

#[test]
fn a_baud_rate_whose_sixteenfold_does_not_fit_32_bits_is_refused() {
    for baudrate in [0x1000_0000u32, 0x1000_0001, 0x8000_0000, 0xFFFF_FFFF] {
        let mut bank = bank_24_mhz();
        let result = Uart::new(UART0_BASE).init(&mut bank, config(baudrate));
        assert!(result.is_err());
        assert_eq!(bank.log().len(), 3);
    }
}

#[test]
fn a_baud_rate_of_zero_is_accepted_with_a_divisor_of_zero() {
    let mut bank = bank_24_mhz();
    bank.preset(U0 + IBRD, 7);
    bank.preset(U0 + FBRD, 7);
    assert!(Uart::new(UART0_BASE).init(&mut bank, config(0)).is_ok());
    assert_eq!(bank.read(U0 + IBRD), 0);
    assert_eq!(bank.read(U0 + FBRD), 0);
}

#[test]
fn each_uart_has_its_own_clock_selector() {
    // (base, CR2, clock in hertz)
    let table: [(u32, u32, u32); 16] = [
        (UART0_BASE, 0x0000_0000, 24_000_000),
        (UART0_BASE, 0x0000_8000, 3_600_000),
        (UART0_BASE, 0x0001_0000, 32_768),
        (UART0_BASE, 0x0001_8000, 24_000_000),
        (UART1_BASE, 0x0000_0000, 24_000_000),
        (UART1_BASE, 0x0000_2000, 3_600_000),
        (UART1_BASE, 0x0000_4000, 32_768),
        (UART1_BASE, 0x0000_6000, 24_000_000),
        (UART2_BASE, 0x0000_0000, 12_000_000),
        (UART2_BASE, 0x0000_0800, 3_600_000),
        (UART2_BASE, 0x0000_1000, 32_768),
        (UART2_BASE, 0x0000_1800, 24_000_000),
        (UART3_BASE, 0x0000_0000, 12_000_000),
        (UART3_BASE, 0x0000_0200, 3_600_000),
        (UART3_BASE, 0x0000_0400, 32_768),
        (UART3_BASE, 0x0000_0600, 24_000_000),
    ];
    for (base, cr2, clk) in table {
        let mut bank = RegisterBank::new();
        bank.preset(RCC_CR0, 0x0001_7020);
        bank.preset(RCC_CR2, cr2);
        assert_eq!(Uart::new(base).input_clk(&bank), clk);
        // The highest baud rate that the clock allows is accepted, the next
        // one is not.
        assert!(Uart::new(base).init(&mut bank, config(clk / 16)).is_ok());
        assert!(Uart::new(base).init(&mut bank, config(clk / 16 + 1)).is_err());
    }
}

#[test]
fn the_selector_of_another_uart_is_not_looked_at() {
    let mut bank = RegisterBank::new();
    bank.preset(RCC_CR0, 0x0001_7020);
    bank.preset(RCC_CR2, 0x0001_8000);
    assert_eq!(Uart::new(UART0_BASE).input_clk(&bank), 24_000_000);
    assert_eq!(Uart::new(UART1_BASE).input_clk(&bank), 24_000_000);
    assert_eq!(Uart::new(UART2_BASE).input_clk(&bank), 12_000_000);
    bank.preset(RCC_CR2, 0x0000_2600);
    assert_eq!(Uart::new(UART0_BASE).input_clk(&bank), 24_000_000);
    assert_eq!(Uart::new(UART1_BASE).input_clk(&bank), 3_600_000);
    assert_eq!(Uart::new(UART2_BASE).input_clk(&bank), 12_000_000);
    assert_eq!(Uart::new(UART3_BASE).input_clk(&bank), 24_000_000);
}

#[test]
fn a_block_that_is_no_uart_of_the_chip_runs_from_the_second_bus_clock() {
    let mut bank = RegisterBank::new();
    bank.preset(RCC_CR0, 0x0001_7020);
    bank.preset(RCC_CR2, 0xFFFF_FFFF);
    assert_eq!(Uart::new(LPUART_BASE).input_clk(&bank), 12_000_000);
    assert!(Uart::new(LPUART_BASE).init(&mut bank, config(750_000)).is_ok());
    assert_eq!(bank.read(LPUART_BASE + IBRD), 1);
}

#[test]
fn the_divisor_at_3_6_mhz() {
    let mut bank = RegisterBank::new();
    bank.preset(RCC_CR2, 0x0000_2000);
    assert!(Uart::new(UART1_BASE).init(&mut bank, UartConfig::default()).is_ok());
    assert_eq!(bank.read(U1 + IBRD), 1);
    assert_eq!(bank.read(U1 + FBRD), 61);
}

#[test]
fn a_byte_is_sent_when_the_fifo_has_room() {
    let mut bank = RegisterBank::new();
    bank.preset(U0 + FR, 0x0000_00A0);
    Uart::new(UART0_BASE).send_data(&mut bank, 0x41);
    assert_eq!(
        bank.log().as_slice(),
        &[
            Access::Wait { addr: U0 + FR, mask: 0x20, expected: 0 },
            Access::Write { addr: U0 + DR, value: 0x41 },
        ]
    );
    assert_eq!(bank.read(U0 + FR), 0x0000_0080);
}

#[test]
fn a_byte_is_received_when_the_fifo_holds_one() {
    let mut bank = RegisterBank::new();
    bank.preset(U2 + FR, 0x0000_0090);
    bank.preset(U2 + DR, 0x0000_0F5A);
    let byte = Uart::new(UART2_BASE).receive_data(&mut bank);
    assert_eq!(byte, 0x5A);
    assert_eq!(
        bank.log().as_slice(),
        &[Access::Wait { addr: U2 + FR, mask: 0x10, expected: 0 }]
    );
    assert_eq!(bank.read(U2 + FR), 0x0000_0080);
}

#[test]
fn a_flag_is_a_bit_of_the_flag_register() {
    let mut bank = RegisterBank::new();
    bank.preset(U0 + FR, 0x0000_0090);
    let uart = Uart::new(UART0_BASE);
    assert_eq!(uart.get_flag_status(&bank, UartFlag::TxFifoEmpty), SetStatus::IsSet);
    assert_eq!(uart.get_flag_status(&bank, UartFlag::RxFifoEmpty), SetStatus::IsSet);
    assert_eq!(uart.get_flag_status(&bank, UartFlag::RxFifoFull), SetStatus::Reset);
    assert_eq!(uart.get_flag_status(&bank, UartFlag::TxFifoFull), SetStatus::Reset);
    assert_eq!(uart.get_flag_status(&bank, UartFlag::Busy), SetStatus::Reset);
    assert_eq!(
        Uart::new(UART1_BASE).get_flag_status(&bank, UartFlag::TxFifoEmpty),
        SetStatus::Reset
    );
}

#[test]
fn interrupts_are_unmasked_and_masked_by_their_bits() {
    let mut bank = RegisterBank::new();
    let uart = Uart::new(UART3_BASE);
    uart.config_interrupt(&mut bank, 0x0000_0050, true);
    assert_eq!(bank.read(U3 + IMSC), 0x0000_0050);
    uart.config_interrupt(&mut bank, 0x0000_0010, false);
    assert_eq!(bank.read(U3 + IMSC), 0x0000_0040);
    bank.preset(U3 + MIS, 0x0000_0040);
    assert_eq!(uart.get_interrupt_status(&bank, 0x0000_0040), SetStatus::IsSet);
    assert_eq!(uart.get_interrupt_status(&bank, 0x0000_0050), SetStatus::IsSet);
    assert_eq!(uart.get_interrupt_status(&bank, 0x0000_0010), SetStatus::Reset);
}

#[test]
fn an_interrupt_is_cleared_by_a_plain_write() {
    let mut bank = RegisterBank::new();
    bank.preset(U0 + ICR, 0x0000_07FF);
    Uart::new(UART0_BASE).clear_interrupt(&mut bank, 0x0000_0010);
    assert_eq!(bank.log().as_slice(), &[Access::Write { addr: U0 + ICR, value: 0x0000_0010 }]);
}

#[test]
fn the_fifo_thresholds_share_one_register() {
    let mut bank = RegisterBank::new();
    let uart = Uart::new(UART0_BASE);
    uart.set_rx_fifo_threshold(&mut bank, 0x0000_0018);
    assert_eq!(bank.read(U0 + IFLS), 0x0000_0018);
    uart.set_tx_fifo_threshold(&mut bank, 0x0000_0004);
    assert_eq!(bank.read(U0 + IFLS), 0x0000_001C);
    uart.set_rx_fifo_threshold(&mut bank, 0x0000_0020);
    assert_eq!(bank.read(U0 + IFLS), 0x0000_0024);
    uart.set_tx_fifo_threshold(&mut bank, 0xFFFF_FFF8);
    assert_eq!(bank.read(U0 + IFLS), 0x0000_0020);
}

#[test]
fn the_uart_is_enabled_and_disabled_by_one_bit() {
    let mut bank = RegisterBank::new();
    bank.preset(U0 + CR, 0x0000_0330);
    let uart = Uart::new(UART0_BASE);
    uart.cmd(&mut bank, true);
    assert_eq!(bank.read(U0 + CR), 0x0000_0331);
    uart.cmd(&mut bank, false);
    assert_eq!(bank.read(U0 + CR), 0x0000_0330);
}

#[test]
fn a_uart_is_reset_through_the_clock_controller() {
    let table: [(u32, u32, u32); 4] = [
        (UART0_BASE, 0x0010_0000, 0x8000_0000),
        (UART1_BASE, 0x0008_0000, 0x4000_0000),
        (UART2_BASE, 0x0004_0000, 0x2000_0000),
        (UART3_BASE, 0x0002_0000, 0x1000_0000),
    ];
    for (base, gate, line) in table {
        let mut bank = RegisterBank::new();
        bank.preset(RCC_CGR0, 0xFFFF_FFFF);
        bank.preset(RCC_RST0, 0xFFFF_FFFF);
        Uart::new(base).deinit(&mut bank);
        assert_eq!(
            bank.log().as_slice(),
            &[
                Access::Write { addr: RCC_CGR0, value: 0xFFFF_FFFF & !gate },
                Access::Write { addr: RCC_RST0, value: 0xFFFF_FFFF & !line },
                Access::Write { addr: RCC_RST0, value: 0xFFFF_FFFF },
            ]
        );
    }
}
