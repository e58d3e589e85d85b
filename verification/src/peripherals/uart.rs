//! The UARTs: line settings, the baud-rate divisor, polled transfer of single
//! bytes, and the interrupt masks.
//!
//! A UART is off until it has been initialised and then enabled. Initialising
//! it again overwrites what was set before.

use vstd::prelude::*;
use crate::bits::{
    field_en, field_set, lemma_disable_of_clear, lemma_en_keeps_disjoint,
    lemma_en_touches_only_mask, lemma_set_keeps_disjoint, lemma_set_then_read,
};
use crate::bus::{
    BusState, RegisterBus, lemma_write_keeps_clear, reg_en, reg_set, writes_keep_clear,
};
use crate::peripherals::rcc::{
    RCC_FREQ_24M, RCC_FREQ_32768, RCC_FREQ_4M, RCC_PCLK0, RCC_PCLK1, RCC_PERIPHERAL_UART0,
    RCC_PERIPHERAL_UART1, RCC_PERIPHERAL_UART2, RCC_PERIPHERAL_UART3, clk_freq,
    peripheral_clk_switched, peripheral_reset, rcc_reg,
};
use crate::peripherals::regs::{
    RCC_BASE, RCC_CR0_OFFSET, RCC_CR2_OFFSET, RCC_CR2_UART0_CLK_SEL_MASK,
    RCC_CR2_UART1_CLK_SEL_MASK, RCC_CR2_UART2_CLK_SEL_MASK, RCC_CR2_UART3_CLK_SEL_MASK, Rcc,
    SetStatus, UART0_BASE, UART1_BASE, UART2_BASE, UART3_BASE, UART_CR_FLOW_CTRL,
    UART_CR_FLOW_CTRL_CTS, UART_CR_FLOW_CTRL_CTS_RTS, UART_CR_FLOW_CTRL_NONE,
    UART_CR_FLOW_CTRL_RTS, UART_CR_OFFSET, UART_CR_UART_EN, UART_CR_UART_MODE,
    UART_CR_UART_MODE_RX, UART_CR_UART_MODE_TX, UART_CR_UART_MODE_TXRX, UART_DR_OFFSET,
    UART_FBRD_OFFSET, UART_FR_OFFSET, UART_IBRD_OFFSET, UART_ICR_OFFSET, UART_IFLS_OFFSET,
    UART_IFLS_RX, UART_IFLS_TX, UART_IMSC_OFFSET, UART_LCR_H_EPS_EVEN, UART_LCR_H_FEN,
    UART_LCR_H_OFFSET, UART_LCR_H_PEN, UART_LCR_H_STOP, UART_LCR_H_STOP_1, UART_LCR_H_STOP_2,
    UART_LCR_H_WLEN, UART_LCR_H_WLEN_5, UART_LCR_H_WLEN_6, UART_LCR_H_WLEN_7, UART_LCR_H_WLEN_8,
    UART_MIS_OFFSET, Uart, lemma_field_values_fit, lemma_reg_addr_injective, reg_addr,
};

verus! {

/// The frame and line settings of a UART. A value is used once, by
/// [`Uart::init`]; afterwards the registers are what counts.
pub struct UartConfig {
    pub baudrate: u32,
    pub data_width: DataWidth,
    pub parity: Parity,
    pub stop_bits: StopBits,
    pub flow_control: FlowControl,
    pub mode: Mode,
    /// Zero to leave the FIFOs off, anything else to switch them on.
    pub fifo_mode: u8,
}

impl Default for UartConfig {
    /// 115200 baud, eight data bits, no parity, one stop bit, no flow
    /// control, both directions, FIFOs off.
    fn default() -> (config: Self)
        ensures
            config.baudrate == 115200,
            config.data_width == DataWidth::Eight,
            config.parity == Parity::NoParity,
            config.stop_bits == StopBits::One,
            config.flow_control == FlowControl::Disabled,
            config.mode == Mode::TxRx,
            config.fifo_mode == 0,
    {
        Self {
            baudrate: 115200,
            data_width: DataWidth::Eight,
            parity: Parity::NoParity,
            stop_bits: StopBits::One,
            flow_control: FlowControl::Disabled,
            mode: Mode::TxRx,
            fifo_mode: 0,
        }
    }
}

/// A flag of the flag register.
#[derive(Clone, Copy, Debug, PartialEq, Eq, Structural)]
pub enum UartFlag {
    TxFifoEmpty,
    RxFifoFull,
    TxFifoFull,
    RxFifoEmpty,
    Busy,
}

impl UartFlag {
    /// The bit of the flag in the flag register.
    pub open spec fn spec_bits(self) -> u32 {
        match self {
            UartFlag::TxFifoEmpty => 0x80,
            UartFlag::RxFifoFull => 0x40,
            UartFlag::TxFifoFull => 0x20,
            UartFlag::RxFifoEmpty => 0x10,
            UartFlag::Busy => 0x08,
        }
    }

    #[verifier::when_used_as_spec(spec_bits)]
    pub fn bits(self) -> (mask: u32)
        ensures
            mask == self.spec_bits(),
    {
        match self {
            UartFlag::TxFifoEmpty => 0x80,
            UartFlag::RxFifoFull => 0x40,
            UartFlag::TxFifoFull => 0x20,
            UartFlag::RxFifoEmpty => 0x10,
            UartFlag::Busy => 0x08,
        }
    }
}

/// The parity bit of a frame.
#[derive(Clone, Copy, Debug, PartialEq, Eq, Structural)]
pub enum Parity {
    NoParity,
    Even,
    Odd,
}

/// The number of data bits of a frame.
#[derive(Clone, Copy, Debug, PartialEq, Eq, Structural)]
pub enum DataWidth {
    Five,
    Six,
    Seven,
    Eight,
}

impl DataWidth {
    /// The value of the word-length field.
    pub open spec fn spec_bits(self) -> u32 {
        match self {
            DataWidth::Five => UART_LCR_H_WLEN_5,
            DataWidth::Six => UART_LCR_H_WLEN_6,
            DataWidth::Seven => UART_LCR_H_WLEN_7,
            DataWidth::Eight => UART_LCR_H_WLEN_8,
        }
    }

    #[verifier::when_used_as_spec(spec_bits)]
    pub fn bits(self) -> (value: u32)
        ensures
            value == self.spec_bits(),
    {
        match self {
            DataWidth::Five => UART_LCR_H_WLEN_5,
            DataWidth::Six => UART_LCR_H_WLEN_6,
            DataWidth::Seven => UART_LCR_H_WLEN_7,
            DataWidth::Eight => UART_LCR_H_WLEN_8,
        }
    }
}

/// The number of stop bits of a frame.
#[derive(Clone, Copy, Debug, PartialEq, Eq, Structural)]
pub enum StopBits {
    One,
    Two,
}

impl StopBits {
    /// The value of the stop-bit field.
    pub open spec fn spec_bits(self) -> u32 {
        match self {
            StopBits::One => UART_LCR_H_STOP_1,
            StopBits::Two => UART_LCR_H_STOP_2,
        }
    }

    #[verifier::when_used_as_spec(spec_bits)]
    pub fn bits(self) -> (value: u32)
        ensures
            value == self.spec_bits(),
    {
        match self {
            StopBits::One => UART_LCR_H_STOP_1,
            StopBits::Two => UART_LCR_H_STOP_2,
        }
    }
}

/// Which handshake lines are used.
#[derive(Clone, Copy, Debug, PartialEq, Eq, Structural)]
pub enum FlowControl {
    Disabled,
    Rts,
    Cts,
    CtsRts,
}

impl FlowControl {
    /// The value of the flow-control field.
    pub open spec fn spec_bits(self) -> u32 {
        match self {
            FlowControl::Disabled => UART_CR_FLOW_CTRL_NONE,
            FlowControl::Rts => UART_CR_FLOW_CTRL_RTS,
            FlowControl::Cts => UART_CR_FLOW_CTRL_CTS,
            FlowControl::CtsRts => UART_CR_FLOW_CTRL_CTS_RTS,
        }
    }

    #[verifier::when_used_as_spec(spec_bits)]
    pub fn bits(self) -> (value: u32)
        ensures
            value == self.spec_bits(),
    {
        match self {
            FlowControl::Disabled => UART_CR_FLOW_CTRL_NONE,
            FlowControl::Rts => UART_CR_FLOW_CTRL_RTS,
            FlowControl::Cts => UART_CR_FLOW_CTRL_CTS,
            FlowControl::CtsRts => UART_CR_FLOW_CTRL_CTS_RTS,
        }
    }
}

/// Which directions are switched on.
#[derive(Clone, Copy, Debug, PartialEq, Eq, Structural)]
pub enum Mode {
    Tx,
    Rx,
    TxRx,
}

impl Mode {
    /// The value of the mode field.
    pub open spec fn spec_bits(self) -> u32 {
        match self {
            Mode::Tx => UART_CR_UART_MODE_TX,
            Mode::Rx => UART_CR_UART_MODE_RX,
            Mode::TxRx => UART_CR_UART_MODE_TXRX,
        }
    }

    #[verifier::when_used_as_spec(spec_bits)]
    pub fn bits(self) -> (value: u32)
        ensures
            value == self.spec_bits(),
    {
        match self {
            Mode::Tx => UART_CR_UART_MODE_TX,
            Mode::Rx => UART_CR_UART_MODE_RX,
            Mode::TxRx => UART_CR_UART_MODE_TXRX,
        }
    }
}

/// The baud rate asked for is more than a sixteenth of the UART's clock.
#[derive(Debug)]
pub struct UartInitError;

// ---------------------------------------------------------------------------
// Baud rate
// ---------------------------------------------------------------------------

/// The whole number of sixteen-fold bit times in one clock second: the
/// integer part of the divisor.
pub open spec fn baud_integer(clk: u32, baud: u32) -> int {
    (clk as int) / (16 * baud)
}

/// Eight times what the integer part leaves over, in units of the baud rate.
/// It is below 128.
pub open spec fn baud_fraction_raw(clk: u32, baud: u32) -> int {
    (8 * ((clk as int) % (16 * baud))) / (baud as int)
}

/// Halves `x`, keeping a dropped one as a one in the lowest bit of the
/// result: the rounding that the divisor's fraction takes.
pub open spec fn sticky_half(x: u32) -> u32 {
    (x >> 1) | (x & 1)
}

/// The six-bit fractional part of the divisor.
pub open spec fn baud_fraction(clk: u32, baud: u32) -> u32 {
    sticky_half(baud_fraction_raw(clk, baud) as u32) & 0x3F
}

/// The baud-rate divisor for a UART clocked at `clk` hertz: the integer part
/// from bit 16 up, the fraction in the low six bits. It is zero where the
/// baud rate is zero or more than a sixteenth of the clock. An integer part
/// of more than sixteen bits loses its upper bits.
pub open spec fn baud_divisor(clk: u32, baud: u32) -> u32 {
    if baud == 0 || clk < 16 * baud {
        0
    } else {
        ((baud_integer(clk, baud) as u32) << 16) | baud_fraction(clk, baud)
    }
}

/// The parts of the divisor are in range: the integer part is no more than
/// the clock, the raw fraction is below 128.
pub proof fn lemma_baud_parts_in_range(clk: u32, baud: u32)
    requires
        baud > 0,
        clk >= 16 * baud,
    ensures
        1 <= baud_integer(clk, baud) <= clk,
        0 <= (clk as int) % (16 * baud) < 16 * baud,
        0 <= baud_fraction_raw(clk, baud) < 128,
{
    let scaled: int = 16 * baud;
    let rem: int = (clk as int) % scaled;
    assert(1 <= (clk as int) / scaled <= clk) by (nonlinear_arith)
        requires
            scaled >= 16,
            clk >= scaled,
    ;
    assert(0 <= rem < scaled) by (nonlinear_arith)
        requires
            scaled > 0,
            rem == (clk as int) % scaled,
    ;
    assert(0 <= (8 * rem) / (baud as int) < 128) by (nonlinear_arith)
        requires
            baud > 0,
            0 <= rem < 16 * baud,
    ;
}

/// The divisor for the given clock and baud rate.
pub fn calc_uart_baud(uart_clk: u32, baud: u32) -> (divisor: u32)
    ensures
        divisor == baud_divisor(uart_clk, baud),
{
    let scaled: u64 = 16 * (baud as u64);
    if baud == 0 || (uart_clk as u64) < scaled {
        return 0;
    }
    proof {
        lemma_baud_parts_in_range(uart_clk, baud);
    }
    let int_div: u64 = (uart_clk as u64) / scaled;
    let rem: u64 = (uart_clk as u64) % scaled;
    let raw: u64 = (8 * rem) / (baud as u64);
    let fac_div: u32 = ((raw as u32) >> 1) | ((raw as u32) & 1);
    ((int_div as u32) << 16) | (fac_div & 0x3F)
}

/// Where the integer part fits its sixteen bits, the divisor holds it from
/// bit 16 up, and holds in its low six bits the raw fraction halved with a
/// sticky lowest bit, which then is below 64.
pub proof fn lemma_baud_divisor_parts(clk: u32, baud: u32)
    requires
        baud > 0,
        clk >= 16 * baud,
        baud_integer(clk, baud) <= 0xFFFF,
    ensures
        baud_divisor(clk, baud) >> 16 == baud_integer(clk, baud),
        baud_divisor(clk, baud) & 0x3F == sticky_half(baud_fraction_raw(clk, baud) as u32),
        sticky_half(baud_fraction_raw(clk, baud) as u32) <= 63,
{
    lemma_baud_parts_in_range(clk, baud);
    let i = baud_integer(clk, baud) as u32;
    let raw = baud_fraction_raw(clk, baud) as u32;
    let f = sticky_half(raw);
    assert(((raw >> 1) | (raw & 1)) <= 63) by (bit_vector)
        requires
            raw < 128,
    ;
    assert((((i << 16) | (f & 0x3F)) >> 16 == i) && (((i << 16) | (f & 0x3F)) & 0x3F == f))
        by (bit_vector)
        requires
            i <= 0xFFFF,
            f <= 63,
    ;
}

// ---------------------------------------------------------------------------
// The driver
// ---------------------------------------------------------------------------

/// Whether `base` is the base address of one of the four UARTs.
pub open spec fn spec_is_uart_base(base: u32) -> bool {
    base == UART0_BASE || base == UART1_BASE || base == UART2_BASE || base == UART3_BASE
}

/// The identifier under which the clock controller knows the UART at `base`.
pub open spec fn spec_uart_peripheral(base: u32) -> u32 {
    if base == UART0_BASE {
        RCC_PERIPHERAL_UART0
    } else if base == UART1_BASE {
        RCC_PERIPHERAL_UART1
    } else if base == UART2_BASE {
        RCC_PERIPHERAL_UART2
    } else {
        RCC_PERIPHERAL_UART3
    }
}

/// The clock source that the controller's register `cr2` selects for the
/// UART at `base`: the UART's own two-bit field, as a number from 0 to 3.
/// A block that is none of the four UARTs has no field and counts as 0.
pub open spec fn uart_clk_sel(cr2: u32, base: u32) -> u32 {
    if base == UART0_BASE {
        (cr2 & RCC_CR2_UART0_CLK_SEL_MASK) >> 15
    } else if base == UART1_BASE {
        (cr2 & RCC_CR2_UART1_CLK_SEL_MASK) >> 13
    } else if base == UART2_BASE {
        (cr2 & RCC_CR2_UART2_CLK_SEL_MASK) >> 11
    } else if base == UART3_BASE {
        (cr2 & RCC_CR2_UART3_CLK_SEL_MASK) >> 9
    } else {
        0
    }
}

/// The bus clock that feeds the UART at `base` when no oscillator is
/// selected for it: the first APB clock for the first two UARTs, the second
/// for every other block.
pub open spec fn uart_bus_clk(base: u32) -> u32 {
    if base == UART0_BASE || base == UART1_BASE {
        RCC_PCLK0
    } else {
        RCC_PCLK1
    }
}

/// The frequency, in hertz, of the clock that feeds the UART at `base`, as
/// the registers of the controller at `RCC_BASE` give it: the nominal
/// frequency of the selected oscillator, or that of the UART's bus clock.
pub open spec fn uart_input_clk(s: BusState, base: u32) -> u32 {
    let sel = uart_clk_sel(s.read(rcc_reg(RCC_CR2_OFFSET)), base);
    if sel == 1 {
        RCC_FREQ_4M
    } else if sel == 2 {
        RCC_FREQ_32768
    } else if sel == 3 {
        RCC_FREQ_24M
    } else {
        clk_freq(s.read(rcc_reg(RCC_CR0_OFFSET)), uart_bus_clk(base))
    }
}

/// The bus after the UART at `base` has been stopped: it is disabled, its
/// FIFOs are flushed by switching them off, and every interrupt is masked.
pub open spec fn uart_stopped(s: BusState, base: u32) -> BusState {
    s.enable(reg_addr(base, UART_CR_OFFSET), UART_CR_UART_EN, false).enable(
        reg_addr(base, UART_LCR_H_OFFSET),
        UART_LCR_H_FEN,
        false,
    ).write(reg_addr(base, UART_IMSC_OFFSET), 0)
}

/// The bus after the parity of the UART at `base` has been chosen.
pub open spec fn parity_selected(s: BusState, base: u32, parity: Parity) -> BusState {
    let lcr_h = reg_addr(base, UART_LCR_H_OFFSET);
    match parity {
        Parity::Odd => s.enable(lcr_h, UART_LCR_H_PEN, true).enable(
            lcr_h,
            UART_LCR_H_EPS_EVEN,
            false,
        ),
        Parity::Even => s.enable(lcr_h, UART_LCR_H_PEN, true).enable(
            lcr_h,
            UART_LCR_H_EPS_EVEN,
            true,
        ),
        Parity::NoParity => s.enable(lcr_h, UART_LCR_H_PEN, false),
    }
}

/// The bus after a stopped UART at `base`, fed with `clk` hertz, has been
/// programmed with `config`: the two divisor registers, then word length,
/// stop bits, parity and FIFO enable in the line control register, then mode
/// and flow control in the control register. The enable bit is not written.
pub open spec fn uart_programmed(s: BusState, base: u32, clk: u32, config: UartConfig) -> BusState {
    let lcr_h = reg_addr(base, UART_LCR_H_OFFSET);
    let cr = reg_addr(base, UART_CR_OFFSET);
    let divisor = baud_divisor(clk, config.baudrate);
    let divided = s.write(reg_addr(base, UART_IBRD_OFFSET), divisor >> 16).write(
        reg_addr(base, UART_FBRD_OFFSET),
        divisor & 0x3F,
    );
    let framed = divided.set(lcr_h, UART_LCR_H_WLEN, config.data_width.bits()).set(
        lcr_h,
        UART_LCR_H_STOP,
        config.stop_bits.bits(),
    );
    parity_selected(framed, base, config.parity).enable(
        lcr_h,
        UART_LCR_H_FEN,
        config.fifo_mode != 0,
    ).set(cr, UART_CR_UART_MODE, config.mode.bits()).set(
        cr,
        UART_CR_FLOW_CTRL,
        config.flow_control.bits(),
    )
}

/// Whether the UART at `base` can be programmed for `config`: once it is
/// stopped, its clock is at least sixteen times the baud rate.
pub open spec fn init_accepts(s: BusState, base: u32, config: UartConfig) -> bool {
    uart_input_clk(uart_stopped(s, base), base) >= 16 * config.baudrate
}

/// The bus after an initialisation of the UART at `base` with `config`: the
/// UART is stopped in any case, and programmed if its clock allows.
pub open spec fn uart_initialized(s: BusState, base: u32, config: UartConfig) -> BusState {
    let stopped = uart_stopped(s, base);
    if init_accepts(s, base, config) {
        uart_programmed(stopped, base, uart_input_clk(stopped, base), config)
    } else {
        stopped
    }
}

/// The bus after the UART at `base` has been put back to its reset state:
/// its clock is closed, its reset is asserted and released.
pub open spec fn uart_reset(s: BusState, base: u32) -> BusState {
    let p = spec_uart_peripheral(base);
    peripheral_reset(
        peripheral_reset(peripheral_clk_switched(s, p, false), RCC_BASE, p, true),
        RCC_BASE,
        p,
        false,
    )
}

impl Uart {
    /// The address of the register at `offset` in this UART's block.
    pub open spec fn spec_reg(&self, offset: u32) -> u32 {
        reg_addr(self.base(), offset)
    }

    #[verifier::when_used_as_spec(spec_reg)]
    pub fn reg(&self, offset: u32) -> (addr: u32)
        ensures
            addr == self.spec_reg(offset),
    {
        reg_addr(self.base(), offset)
    }

    /// Whether `flag` is raised in the flag register.
    pub fn get_flag_status<B: RegisterBus>(&self, bus: &B, flag: UartFlag) -> (status: SetStatus)
        ensures
            status == SetStatus::of_word(bus@.read(self.reg(UART_FR_OFFSET)) & flag.bits()),
    {
        SetStatus::of_word(bus.read(self.reg(UART_FR_OFFSET)) & flag.bits())
    }

    /// Sends one byte. The call waits, without a timeout, until the transmit
    /// FIFO has room.
    pub fn send_data<B: RegisterBus>(&self, bus: &mut B, data: u8)
        ensures
            final(bus)@ == old(bus)@.settle(
                self.reg(UART_FR_OFFSET),
                UartFlag::TxFifoFull.bits(),
                0,
            ).write(self.reg(UART_DR_OFFSET), data as u32),
    {
        bus.wait_for(self.reg(UART_FR_OFFSET), UartFlag::TxFifoFull.bits(), 0);
        bus.write(self.reg(UART_DR_OFFSET), data as u32);
    }

    /// Receives one byte. The call waits, without a timeout, until the
    /// receive FIFO holds one.
    pub fn receive_data<B: RegisterBus>(&self, bus: &mut B) -> (data: u8)
        ensures
            final(bus)@ == old(bus)@.settle(
                self.reg(UART_FR_OFFSET),
                UartFlag::RxFifoEmpty.bits(),
                0,
            ),
            data == final(bus)@.read(self.reg(UART_DR_OFFSET)) & 0xFF,
    {
        bus.wait_for(self.reg(UART_FR_OFFSET), UartFlag::RxFifoEmpty.bits(), 0);
        let word = bus.read(self.reg(UART_DR_OFFSET));
        assert(word & 0xFF <= 0xFF) by (bit_vector);
        (word & 0xFF) as u8
    }

    /// Unmasks (`new_state`) or masks the interrupts named by the mask
    /// `uart_interrupt`.
    pub fn config_interrupt<B: RegisterBus>(
        &self,
        bus: &mut B,
        uart_interrupt: u32,
        new_state: bool,
    )
        ensures
            final(bus)@ == old(bus)@.enable(self.reg(UART_IMSC_OFFSET), uart_interrupt, new_state),
    {
        reg_en(bus, self.reg(UART_IMSC_OFFSET), uart_interrupt, new_state);
    }

    /// Puts the UART back to its reset state, through the controller at
    /// `RCC_BASE`. Only the four UARTs of the chip can be reset.
    pub fn deinit<B: RegisterBus>(&self, bus: &mut B)
        requires
            spec_is_uart_base(self.base()),
        ensures
            final(bus)@ == uart_reset(old(bus)@, self.base()),
    {
        let peripheral = if self.base() == UART0_BASE {
            RCC_PERIPHERAL_UART0
        } else if self.base() == UART1_BASE {
            RCC_PERIPHERAL_UART1
        } else if self.base() == UART2_BASE {
            RCC_PERIPHERAL_UART2
        } else {
            RCC_PERIPHERAL_UART3
        };
        let rcc = Rcc::new(RCC_BASE);
        rcc.enable_peripheral_clk(bus, peripheral, false);
        rcc.rst_peripheral(bus, peripheral, true);
        rcc.rst_peripheral(bus, peripheral, false);
    }

    /// Sets the fill level of the receive FIFO at which its interrupt is
    /// raised; `fifo_level` is the value of the field in place.
    pub fn set_rx_fifo_threshold<B: RegisterBus>(&self, bus: &mut B, fifo_level: u32)
        ensures
            final(bus)@ == old(bus)@.set(self.reg(UART_IFLS_OFFSET), UART_IFLS_RX, fifo_level),
    {
        reg_set(bus, self.reg(UART_IFLS_OFFSET), UART_IFLS_RX, fifo_level);
    }

    /// Sets the fill level of the transmit FIFO at which its interrupt is
    /// raised; `fifo_level` is the value of the field in place.
    pub fn set_tx_fifo_threshold<B: RegisterBus>(&self, bus: &mut B, fifo_level: u32)
        ensures
            final(bus)@ == old(bus)@.set(self.reg(UART_IFLS_OFFSET), UART_IFLS_TX, fifo_level),
    {
        reg_set(bus, self.reg(UART_IFLS_OFFSET), UART_IFLS_TX, fifo_level);
    }

    /// Enables or disables the UART.
    pub fn cmd<B: RegisterBus>(&self, bus: &mut B, new_state: bool)
        ensures
            final(bus)@ == old(bus)@.enable(self.reg(UART_CR_OFFSET), UART_CR_UART_EN, new_state),
    {
        reg_en(bus, self.reg(UART_CR_OFFSET), UART_CR_UART_EN, new_state);
    }

    /// Whether one of the interrupts named by the mask `interrupt` is raised
    /// and unmasked.
    pub fn get_interrupt_status<B: RegisterBus>(&self, bus: &B, interrupt: u32) -> (status:
        SetStatus)
        ensures
            status == SetStatus::of_word(bus@.read(self.reg(UART_MIS_OFFSET)) & interrupt),
    {
        SetStatus::of_word(bus.read(self.reg(UART_MIS_OFFSET)) & interrupt)
    }

    /// Clears the interrupts named by the mask `interrupt`. The register is
    /// written, not read.
    pub fn clear_interrupt<B: RegisterBus>(&self, bus: &mut B, interrupt: u32)
        ensures
            final(bus)@ == old(bus)@.write(self.reg(UART_ICR_OFFSET), interrupt),
    {
        bus.write(self.reg(UART_ICR_OFFSET), interrupt);
    }

    /// The frequency of the clock that feeds this UART.
    pub fn input_clk<B: RegisterBus>(&self, bus: &B) -> (freq: u32)
        ensures
            freq == uart_input_clk(bus@, self.base()),
    {
        let rcc = Rcc::new(RCC_BASE);
        let cr2 = bus.read(rcc.reg(RCC_CR2_OFFSET));
        let clk_src = if self.base() == UART0_BASE {
            (cr2 & RCC_CR2_UART0_CLK_SEL_MASK) >> 15
        } else if self.base() == UART1_BASE {
            (cr2 & RCC_CR2_UART1_CLK_SEL_MASK) >> 13
        } else if self.base() == UART2_BASE {
            (cr2 & RCC_CR2_UART2_CLK_SEL_MASK) >> 11
        } else if self.base() == UART3_BASE {
            (cr2 & RCC_CR2_UART3_CLK_SEL_MASK) >> 9
        } else {
            0
        };
        match clk_src {
            1 => RCC_FREQ_4M,
            2 => RCC_FREQ_32768,
            3 => RCC_FREQ_24M,
            _ => {
                if self.base() == UART0_BASE || self.base() == UART1_BASE {
                    rcc.get_clk_freq(bus, RCC_PCLK0)
                } else {
                    rcc.get_clk_freq(bus, RCC_PCLK1)
                }
            },
        }
    }

    /// Stops the UART and programs it with `config`.
    ///
    /// The UART is left disabled; [`Uart::cmd`] starts it. The call fails
    /// exactly when the baud rate is more than a sixteenth of the UART's
    /// clock. The UART has been stopped by then, and nothing else has been
    /// written.
    pub fn init<B: RegisterBus>(&self, bus: &mut B, config: UartConfig) -> (result: Result<
        (),
        UartInitError,
    >)
        ensures
            result is Ok <==> init_accepts(old(bus)@, self.base(), config),
            final(bus)@ == uart_initialized(old(bus)@, self.base(), config),
    {
        let lcr_h = self.reg(UART_LCR_H_OFFSET);
        let cr = self.reg(UART_CR_OFFSET);
        reg_en(bus, cr, UART_CR_UART_EN, false);
        reg_en(bus, lcr_h, UART_LCR_H_FEN, false);
        bus.write(self.reg(UART_IMSC_OFFSET), 0);

        let uart_clk_freq = self.input_clk(bus);
        if (uart_clk_freq as u64) < 16 * (config.baudrate as u64) {
            return Err(UartInitError);
        }
        let br_div = calc_uart_baud(uart_clk_freq, config.baudrate);
        bus.write(self.reg(UART_IBRD_OFFSET), br_div >> 16);
        bus.write(self.reg(UART_FBRD_OFFSET), br_div & 0x3F);

        reg_set(bus, lcr_h, UART_LCR_H_WLEN, config.data_width.bits());
        reg_set(bus, lcr_h, UART_LCR_H_STOP, config.stop_bits.bits());
        match config.parity {
            Parity::Odd => {
                reg_en(bus, lcr_h, UART_LCR_H_PEN, true);
                reg_en(bus, lcr_h, UART_LCR_H_EPS_EVEN, false);
            },
            Parity::Even => {
                reg_en(bus, lcr_h, UART_LCR_H_PEN, true);
                reg_en(bus, lcr_h, UART_LCR_H_EPS_EVEN, true);
            },
            Parity::NoParity => {
                reg_en(bus, lcr_h, UART_LCR_H_PEN, false);
            },
        }
        reg_en(bus, lcr_h, UART_LCR_H_FEN, config.fifo_mode != 0);

        reg_set(bus, cr, UART_CR_UART_MODE, config.mode.bits());
        reg_set(bus, cr, UART_CR_FLOW_CTRL, config.flow_control.bits());
        Ok(())
    }
}

// ---------------------------------------------------------------------------
// What an initialisation leaves behind
// ---------------------------------------------------------------------------

/// Stopping a UART clears its enable bit and its FIFO-enable bit, masks its
/// interrupts, and changes nothing else: no other bit of the control and
/// line control registers, no other register.
pub proof fn lemma_stop_touches_three_bits(s: BusState, base: u32)
    ensures
        ({
            let t = uart_stopped(s, base);
            let cr = reg_addr(base, UART_CR_OFFSET);
            let lcr_h = reg_addr(base, UART_LCR_H_OFFSET);
            let imsc = reg_addr(base, UART_IMSC_OFFSET);
            &&& t.read(cr) == s.read(cr) & !UART_CR_UART_EN
            &&& t.read(lcr_h) == s.read(lcr_h) & !UART_LCR_H_FEN
            &&& t.read(imsc) == 0
            &&& forall|a: u32| a != cr && a != lcr_h && a != imsc ==> t.read(a) == s.read(a)
        }),
{
    lemma_reg_addr_injective(base, UART_CR_OFFSET, UART_LCR_H_OFFSET);
    lemma_reg_addr_injective(base, UART_CR_OFFSET, UART_IMSC_OFFSET);
    lemma_reg_addr_injective(base, UART_LCR_H_OFFSET, UART_IMSC_OFFSET);
}

/// An initialisation that fails has stopped the UART and done no more. The
/// divisor registers and every field of the line settings and of the mode are
/// as they were; of the control and line control registers only the enable
/// bit and the FIFO-enable bit can have changed, and where the UART was
/// disabled with its FIFOs off, both registers hold what they held.
pub proof fn lemma_failed_init_keeps_settings(s: BusState, base: u32, config: UartConfig)
    requires
        !init_accepts(s, base, config),
    ensures
        ({
            let t = uart_initialized(s, base, config);
            let cr = reg_addr(base, UART_CR_OFFSET);
            let lcr_h = reg_addr(base, UART_LCR_H_OFFSET);
            &&& t == uart_stopped(s, base)
            &&& t.read(cr) & !UART_CR_UART_EN == s.read(cr) & !UART_CR_UART_EN
            &&& t.read(lcr_h) & !UART_LCR_H_FEN == s.read(lcr_h) & !UART_LCR_H_FEN
            &&& s.read(cr) & UART_CR_UART_EN == 0 ==> t.read(cr) == s.read(cr)
            &&& s.read(lcr_h) & UART_LCR_H_FEN == 0 ==> t.read(lcr_h) == s.read(lcr_h)
            &&& t.read(reg_addr(base, UART_IBRD_OFFSET)) == s.read(reg_addr(base, UART_IBRD_OFFSET))
            &&& t.read(reg_addr(base, UART_FBRD_OFFSET)) == s.read(reg_addr(base, UART_FBRD_OFFSET))
        }),
{
    lemma_stop_touches_three_bits(s, base);
    lemma_reg_addr_injective(base, UART_IBRD_OFFSET, UART_CR_OFFSET);
    lemma_reg_addr_injective(base, UART_IBRD_OFFSET, UART_LCR_H_OFFSET);
    lemma_reg_addr_injective(base, UART_IBRD_OFFSET, UART_IMSC_OFFSET);
    lemma_reg_addr_injective(base, UART_FBRD_OFFSET, UART_CR_OFFSET);
    lemma_reg_addr_injective(base, UART_FBRD_OFFSET, UART_LCR_H_OFFSET);
    lemma_reg_addr_injective(base, UART_FBRD_OFFSET, UART_IMSC_OFFSET);
    let c = s.read(reg_addr(base, UART_CR_OFFSET));
    let l = s.read(reg_addr(base, UART_LCR_H_OFFSET));
    lemma_en_touches_only_mask(c, UART_CR_UART_EN, false);
    lemma_en_touches_only_mask(l, UART_LCR_H_FEN, false);
    if c & UART_CR_UART_EN == 0 {
        lemma_disable_of_clear(c, UART_CR_UART_EN);
    }
    if l & UART_LCR_H_FEN == 0 {
        lemma_disable_of_clear(l, UART_LCR_H_FEN);
    }
}

/// The bits of the line control register that an initialisation decides.
pub const UART_LCR_H_SETTINGS: u32 = 0x0000_007E;

/// The bits of the control register that an initialisation decides.
pub const UART_CR_SETTINGS: u32 = 0x0000_C031;

/// The parity-enable bit as `parity` wants it.
pub open spec fn parity_enable(parity: Parity) -> u32 {
    match parity {
        Parity::NoParity => 0,
        _ => UART_LCR_H_PEN,
    }
}

/// What the line control register holds after its five updates, given what
/// it held when the UART had been stopped.
pub open spec fn line_control_programmed(stopped: u32, config: UartConfig) -> u32 {
    let framed = field_set(
        field_set(stopped, UART_LCR_H_WLEN, config.data_width.bits()),
        UART_LCR_H_STOP,
        config.stop_bits.bits(),
    );
    let checked = match config.parity {
        Parity::Odd => field_en(field_en(framed, UART_LCR_H_PEN, true), UART_LCR_H_EPS_EVEN, false),
        Parity::Even => field_en(field_en(framed, UART_LCR_H_PEN, true), UART_LCR_H_EPS_EVEN, true),
        Parity::NoParity => field_en(framed, UART_LCR_H_PEN, false),
    };
    field_en(checked, UART_LCR_H_FEN, config.fifo_mode != 0)
}

/// What the control register holds after its two updates, given what it held
/// when the UART had been stopped.
pub open spec fn control_programmed(stopped: u32, config: UartConfig) -> u32 {
    field_set(
        field_set(stopped, UART_CR_UART_MODE, config.mode.bits()),
        UART_CR_FLOW_CTRL,
        config.flow_control.bits(),
    )
}

/// The fields of the line control register after its five updates are those
/// of the configuration; the bits that belong to no setting are as before.
/// With no parity the parity-select bit is not written.
pub proof fn lemma_line_control_fields(stopped: u32, config: UartConfig)
    ensures
        ({
            let l = line_control_programmed(stopped, config);
            &&& l & UART_LCR_H_WLEN == config.data_width.bits()
            &&& l & UART_LCR_H_STOP == config.stop_bits.bits()
            &&& l & UART_LCR_H_PEN == parity_enable(config.parity)
            &&& config.parity == Parity::Odd ==> l & UART_LCR_H_EPS_EVEN == 0
            &&& config.parity == Parity::Even ==> l & UART_LCR_H_EPS_EVEN == UART_LCR_H_EPS_EVEN
            &&& config.parity == Parity::NoParity ==> l & UART_LCR_H_EPS_EVEN == stopped
                & UART_LCR_H_EPS_EVEN
            &&& l & UART_LCR_H_FEN == if config.fifo_mode != 0 {
                UART_LCR_H_FEN
            } else {
                0
            }
            &&& l & !UART_LCR_H_SETTINGS == stopped & !UART_LCR_H_SETTINGS
        }),
{
    let w = config.data_width.bits();
    let st = config.stop_bits.bits();
    let fen = config.fifo_mode != 0;
    let rest = !UART_LCR_H_SETTINGS;
    assert(0x60u32 & 0x08u32 == 0
        && 0x60u32 & 0x02u32 == 0
        && 0x60u32 & 0x04u32 == 0
        && 0x60u32 & 0x10u32 == 0
        && 0x60u32 & !0x7Eu32 == 0
        && 0x08u32 & 0x60u32 == 0
        && 0x08u32 & 0x02u32 == 0
        && 0x08u32 & 0x04u32 == 0
        && 0x08u32 & 0x10u32 == 0
        && 0x08u32 & !0x7Eu32 == 0
        && 0x02u32 & 0x60u32 == 0
        && 0x02u32 & 0x08u32 == 0
        && 0x02u32 & 0x04u32 == 0
        && 0x02u32 & 0x10u32 == 0
        && 0x02u32 & !0x7Eu32 == 0
        && 0x04u32 & 0x60u32 == 0
        && 0x04u32 & 0x08u32 == 0
        && 0x04u32 & 0x02u32 == 0
        && 0x04u32 & 0x10u32 == 0
        && 0x04u32 & !0x7Eu32 == 0
        && 0x10u32 & 0x60u32 == 0
        && 0x10u32 & 0x08u32 == 0
        && 0x10u32 & 0x02u32 == 0
        && 0x10u32 & 0x04u32 == 0
        && 0x10u32 & !0x7Eu32 == 0) by (bit_vector);
    lemma_field_values_fit();
    let a = field_set(stopped, UART_LCR_H_WLEN, w);
    lemma_set_then_read(stopped, UART_LCR_H_WLEN, w);
    lemma_set_keeps_disjoint(stopped, UART_LCR_H_WLEN, w, UART_LCR_H_EPS_EVEN);
    lemma_set_keeps_disjoint(stopped, UART_LCR_H_WLEN, w, rest);
    let b = field_set(a, UART_LCR_H_STOP, st);
    lemma_set_then_read(a, UART_LCR_H_STOP, st);
    lemma_set_keeps_disjoint(a, UART_LCR_H_STOP, st, UART_LCR_H_WLEN);
    lemma_set_keeps_disjoint(a, UART_LCR_H_STOP, st, UART_LCR_H_EPS_EVEN);
    lemma_set_keeps_disjoint(a, UART_LCR_H_STOP, st, rest);
    let pen = config.parity != Parity::NoParity;
    let c = field_en(b, UART_LCR_H_PEN, pen);
    lemma_en_touches_only_mask(b, UART_LCR_H_PEN, pen);
    lemma_en_keeps_disjoint(b, UART_LCR_H_PEN, pen, UART_LCR_H_WLEN);
    lemma_en_keeps_disjoint(b, UART_LCR_H_PEN, pen, UART_LCR_H_STOP);
    lemma_en_keeps_disjoint(b, UART_LCR_H_PEN, pen, UART_LCR_H_EPS_EVEN);
    lemma_en_keeps_disjoint(b, UART_LCR_H_PEN, pen, rest);
    let even = config.parity == Parity::Even;
    let d = if pen {
        field_en(c, UART_LCR_H_EPS_EVEN, even)
    } else {
        c
    };
    lemma_en_touches_only_mask(c, UART_LCR_H_EPS_EVEN, even);
    lemma_en_keeps_disjoint(c, UART_LCR_H_EPS_EVEN, even, UART_LCR_H_WLEN);
    lemma_en_keeps_disjoint(c, UART_LCR_H_EPS_EVEN, even, UART_LCR_H_STOP);
    lemma_en_keeps_disjoint(c, UART_LCR_H_EPS_EVEN, even, UART_LCR_H_PEN);
    lemma_en_keeps_disjoint(c, UART_LCR_H_EPS_EVEN, even, rest);
    let e = field_en(d, UART_LCR_H_FEN, fen);
    assert(e == line_control_programmed(stopped, config));
    lemma_en_touches_only_mask(d, UART_LCR_H_FEN, fen);
    lemma_en_keeps_disjoint(d, UART_LCR_H_FEN, fen, UART_LCR_H_WLEN);
    lemma_en_keeps_disjoint(d, UART_LCR_H_FEN, fen, UART_LCR_H_STOP);
    lemma_en_keeps_disjoint(d, UART_LCR_H_FEN, fen, UART_LCR_H_PEN);
    lemma_en_keeps_disjoint(d, UART_LCR_H_FEN, fen, UART_LCR_H_EPS_EVEN);
    lemma_en_keeps_disjoint(d, UART_LCR_H_FEN, fen, rest);
}

/// The mode and flow-control fields of the control register after its two
/// updates are those of the configuration, and every other bit, the enable
/// bit among them, is as before.
pub proof fn lemma_control_fields(stopped: u32, config: UartConfig)
    ensures
        ({
            let c = control_programmed(stopped, config);
            &&& c & UART_CR_UART_MODE == config.mode.bits()
            &&& c & UART_CR_FLOW_CTRL == config.flow_control.bits()
            &&& c & UART_CR_UART_EN == stopped & UART_CR_UART_EN
            &&& c & !UART_CR_SETTINGS == stopped & !UART_CR_SETTINGS
        }),
{
    let m = config.mode.bits();
    let f = config.flow_control.bits();
    let rest = !UART_CR_SETTINGS;
    assert(0x30u32 & 0xC000u32 == 0
        && 0x30u32 & 0x01u32 == 0
        && 0x30u32 & !0xC031u32 == 0
        && 0xC000u32 & 0x30u32 == 0
        && 0xC000u32 & 0x01u32 == 0
        && 0xC000u32 & !0xC031u32 == 0) by (bit_vector);
    lemma_field_values_fit();
    let a = field_set(stopped, UART_CR_UART_MODE, m);
    lemma_set_then_read(stopped, UART_CR_UART_MODE, m);
    lemma_set_keeps_disjoint(stopped, UART_CR_UART_MODE, m, UART_CR_UART_EN);
    lemma_set_keeps_disjoint(stopped, UART_CR_UART_MODE, m, rest);
    lemma_set_then_read(a, UART_CR_FLOW_CTRL, f);
    lemma_set_keeps_disjoint(a, UART_CR_FLOW_CTRL, f, UART_CR_UART_MODE);
    lemma_set_keeps_disjoint(a, UART_CR_FLOW_CTRL, f, UART_CR_UART_EN);
    lemma_set_keeps_disjoint(a, UART_CR_FLOW_CTRL, f, rest);
}

/// An initialisation that succeeds leaves the UART disabled and holding the
/// configuration: the divisor in its two registers, the line settings and the
/// mode in their fields. It touches five registers of the UART and no other
/// register.
pub proof fn lemma_init_programs_settings(s: BusState, base: u32, config: UartConfig)
    requires
        init_accepts(s, base, config),
    ensures
        ({
            let t = uart_initialized(s, base, config);
            let clk = uart_input_clk(uart_stopped(s, base), base);
            let cr = reg_addr(base, UART_CR_OFFSET);
            let lcr_h = reg_addr(base, UART_LCR_H_OFFSET);
            let imsc = reg_addr(base, UART_IMSC_OFFSET);
            let ibrd = reg_addr(base, UART_IBRD_OFFSET);
            let fbrd = reg_addr(base, UART_FBRD_OFFSET);
            &&& t.read(ibrd) == baud_divisor(clk, config.baudrate) >> 16
            &&& t.read(fbrd) == baud_divisor(clk, config.baudrate) & 0x3F
            &&& t.read(imsc) == 0
            &&& t.read(lcr_h) == line_control_programmed(s.read(lcr_h) & !UART_LCR_H_FEN, config)
            &&& t.read(cr) == control_programmed(s.read(cr) & !UART_CR_UART_EN, config)
            &&& t.read(cr) & UART_CR_UART_EN == 0
            &&& forall|a: u32|
                a != cr && a != lcr_h && a != imsc && a != ibrd && a != fbrd ==> t.read(a)
                    == s.read(a)
        }),
{
    lemma_stop_touches_three_bits(s, base);
    lemma_reg_addr_injective(base, UART_CR_OFFSET, UART_LCR_H_OFFSET);
    lemma_reg_addr_injective(base, UART_CR_OFFSET, UART_IMSC_OFFSET);
    lemma_reg_addr_injective(base, UART_CR_OFFSET, UART_IBRD_OFFSET);
    lemma_reg_addr_injective(base, UART_CR_OFFSET, UART_FBRD_OFFSET);
    lemma_reg_addr_injective(base, UART_LCR_H_OFFSET, UART_IMSC_OFFSET);
    lemma_reg_addr_injective(base, UART_LCR_H_OFFSET, UART_IBRD_OFFSET);
    lemma_reg_addr_injective(base, UART_LCR_H_OFFSET, UART_FBRD_OFFSET);
    lemma_reg_addr_injective(base, UART_IMSC_OFFSET, UART_IBRD_OFFSET);
    lemma_reg_addr_injective(base, UART_IMSC_OFFSET, UART_FBRD_OFFSET);
    lemma_reg_addr_injective(base, UART_IBRD_OFFSET, UART_FBRD_OFFSET);
    let stopped_cr = s.read(reg_addr(base, UART_CR_OFFSET)) & !UART_CR_UART_EN;
    lemma_en_touches_only_mask(s.read(reg_addr(base, UART_CR_OFFSET)), UART_CR_UART_EN, false);
    lemma_control_fields(stopped_cr, config);
}

/// From its first write to its last an initialisation keeps the UART
/// disabled, whether it succeeds or fails: no value that it writes to the
/// control register has the enable bit set.
pub proof fn lemma_init_never_enables(s: BusState, base: u32, config: UartConfig)
    ensures
        writes_keep_clear(
            uart_initialized(s, base, config).log,
            s.log.len() as int,
            reg_addr(base, UART_CR_OFFSET),
            UART_CR_UART_EN,
        ),
{
    let from = s.log.len() as int;
    let en = UART_CR_UART_EN;
    let cr = reg_addr(base, UART_CR_OFFSET);
    let lcr_h = reg_addr(base, UART_LCR_H_OFFSET);
    let imsc = reg_addr(base, UART_IMSC_OFFSET);
    let ibrd = reg_addr(base, UART_IBRD_OFFSET);
    let fbrd = reg_addr(base, UART_FBRD_OFFSET);
    lemma_reg_addr_injective(base, UART_CR_OFFSET, UART_LCR_H_OFFSET);
    lemma_reg_addr_injective(base, UART_CR_OFFSET, UART_IMSC_OFFSET);
    lemma_reg_addr_injective(base, UART_CR_OFFSET, UART_IBRD_OFFSET);
    lemma_reg_addr_injective(base, UART_CR_OFFSET, UART_FBRD_OFFSET);
    assert(0x30u32 & 0x01u32 == 0 && 0xC000u32 & 0x01u32 == 0) by (bit_vector);

    let c0 = s.read(cr);
    lemma_en_touches_only_mask(c0, en, false);
    let s1 = s.enable(cr, en, false);
    lemma_write_keeps_clear(s, from, cr, en, cr, field_en(c0, en, false));
    let s2 = s1.enable(lcr_h, UART_LCR_H_FEN, false);
    lemma_write_keeps_clear(
        s1,
        from,
        cr,
        en,
        lcr_h,
        field_en(s1.read(lcr_h), UART_LCR_H_FEN, false),
    );
    let s3 = s2.write(imsc, 0);
    lemma_write_keeps_clear(s2, from, cr, en, imsc, 0);
    assert(s3 == uart_stopped(s, base));
    if init_accepts(s, base, config) {
        let divisor = baud_divisor(uart_input_clk(s3, base), config.baudrate);
        let s4 = s3.write(ibrd, divisor >> 16);
        lemma_write_keeps_clear(s3, from, cr, en, ibrd, divisor >> 16);
        let s5 = s4.write(fbrd, divisor & 0x3F);
        lemma_write_keeps_clear(s4, from, cr, en, fbrd, divisor & 0x3F);
        let s6 = s5.set(lcr_h, UART_LCR_H_WLEN, config.data_width.bits());
        lemma_write_keeps_clear(
            s5,
            from,
            cr,
            en,
            lcr_h,
            field_set(s5.read(lcr_h), UART_LCR_H_WLEN, config.data_width.bits()),
        );
        let s7 = s6.set(lcr_h, UART_LCR_H_STOP, config.stop_bits.bits());
        lemma_write_keeps_clear(
            s6,
            from,
            cr,
            en,
            lcr_h,
            field_set(s6.read(lcr_h), UART_LCR_H_STOP, config.stop_bits.bits()),
        );
        let pen = config.parity != Parity::NoParity;
        let s8 = s7.enable(lcr_h, UART_LCR_H_PEN, pen);
        lemma_write_keeps_clear(
            s7,
            from,
            cr,
            en,
            lcr_h,
            field_en(s7.read(lcr_h), UART_LCR_H_PEN, pen),
        );
        let even = config.parity == Parity::Even;
        let s9 = if pen {
            s8.enable(lcr_h, UART_LCR_H_EPS_EVEN, even)
        } else {
            s8
        };
        if pen {
            lemma_write_keeps_clear(
                s8,
                from,
                cr,
                en,
                lcr_h,
                field_en(s8.read(lcr_h), UART_LCR_H_EPS_EVEN, even),
            );
        }
        assert(s9 == parity_selected(s7, base, config.parity));
        let fen = config.fifo_mode != 0;
        let s10 = s9.enable(lcr_h, UART_LCR_H_FEN, fen);
        lemma_write_keeps_clear(
            s9,
            from,
            cr,
            en,
            lcr_h,
            field_en(s9.read(lcr_h), UART_LCR_H_FEN, fen),
        );
        assert(s10.read(cr) == field_en(c0, en, false));
        let m = field_set(s10.read(cr), UART_CR_UART_MODE, config.mode.bits());
        lemma_set_keeps_disjoint(s10.read(cr), UART_CR_UART_MODE, config.mode.bits(), en);
        let s11 = s10.set(cr, UART_CR_UART_MODE, config.mode.bits());
        lemma_write_keeps_clear(s10, from, cr, en, cr, m);
        let f = field_set(s11.read(cr), UART_CR_FLOW_CTRL, config.flow_control.bits());
        lemma_set_keeps_disjoint(s11.read(cr), UART_CR_FLOW_CTRL, config.flow_control.bits(), en);
        let s12 = s11.set(cr, UART_CR_FLOW_CTRL, config.flow_control.bits());
        lemma_write_keeps_clear(s11, from, cr, en, cr, f);
        assert(s12 == uart_initialized(s, base, config));
    }
}

} // verus!
