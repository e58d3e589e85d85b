//! The GPIO ports: pin set-up, levels, interrupts, wake-up and the routing of
//! pins to alternate functions.
//!
//! A port has sixteen pins. Most registers hold one bit per pin; the
//! interrupt registers hold two, the alternate-function registers four.

use vstd::prelude::*;
use crate::bits::{bit, field_en, lemma_en_touches_only_mask, lemma_xor_twice};
use crate::bus::{BusState, RegisterBus, reg_en, reg_set};
use crate::peripherals::rcc::{
    RCC_PERIPHERAL_GPIOA, RCC_PERIPHERAL_GPIOB, RCC_PERIPHERAL_GPIOC, RCC_PERIPHERAL_GPIOD,
    peripheral_clk_switched, peripheral_reset,
};
use crate::peripherals::regs::{
    GPIOA_BASE, GPIOD_BASE, GPIO_AFRH_OFFSET, GPIO_AFRL_OFFSET, GPIO_BRR_OFFSET, GPIO_BSR_OFFSET,
    GPIO_DSR_OFFSET, GPIO_ICR_OFFSET, GPIO_IDR_OFFSET, GPIO_IER_OFFSET, GPIO_IFR_OFFSET,
    GPIO_ODR_OFFSET, GPIO_OER_OFFSET, GPIO_OTYPER_OFFSET, GPIO_PER_OFFSET, GPIO_PSR_OFFSET,
    GPIO_STOP3_WUCR_OFFSET, GPIO_WUCR_OFFSET, GPIO_WULVL_OFFSET, Gpio, RCC_BASE, Rcc, SetStatus,
    lemma_reg_addr_injective, reg_addr,
};

verus! {

pub const GPIO_PIN_0: u8 = 0;
pub const GPIO_PIN_1: u8 = 1;
pub const GPIO_PIN_2: u8 = 2;
pub const GPIO_PIN_3: u8 = 3;
pub const GPIO_PIN_4: u8 = 4;
pub const GPIO_PIN_5: u8 = 5;
pub const GPIO_PIN_6: u8 = 6;
pub const GPIO_PIN_7: u8 = 7;
pub const GPIO_PIN_8: u8 = 8;
pub const GPIO_PIN_9: u8 = 9;
pub const GPIO_PIN_10: u8 = 10;
pub const GPIO_PIN_11: u8 = 11;
pub const GPIO_PIN_12: u8 = 12;
pub const GPIO_PIN_13: u8 = 13;
pub const GPIO_PIN_14: u8 = 14;
pub const GPIO_PIN_15: u8 = 15;

/// What a pin is set up as.
#[derive(Clone, Copy, Debug, PartialEq, Eq, Structural)]
pub enum GpioMode {
    /// Floating input.
    InputFloating,
    /// Input with pull-up.
    InputPullUp,
    /// Input with pull-down.
    InputPullDown,
    /// Push-pull output, driven high.
    OutputPPHigh,
    /// Push-pull output, driven low.
    OutputPPLow,
    /// Open-drain output, released (high impedance).
    OutputODHiz,
    /// Open-drain output, driven low.
    OutputODLow,
    /// Analog.
    Analog,
}

/// How strongly an output pin drives.
#[derive(Clone, Copy, Debug, PartialEq, Eq, Structural)]
pub enum GpioDriveCapability {
    _4mA,
    _8mA,
}

/// Which edges of a pin raise its interrupt.
#[derive(Clone, Copy, Debug, PartialEq, Eq, Structural)]
pub enum IntType {
    /// No edge: the interrupt is off.
    Disabled,
    /// The rising edge.
    RisingEdge,
    /// The falling edge.
    FallingEdge,
    /// Both edges.
    RisingFallingEdge,
}

impl IntType {
    /// The two-bit code of the edge selection.
    pub open spec fn spec_bits(self) -> u32 {
        match self {
            IntType::Disabled => 0,
            IntType::RisingEdge => 1,
            IntType::FallingEdge => 2,
            IntType::RisingFallingEdge => 3,
        }
    }

    #[verifier::when_used_as_spec(spec_bits)]
    pub fn bits(self) -> (code: u32)
        ensures
            code == self.spec_bits(),
    {
        match self {
            IntType::Disabled => 0,
            IntType::RisingEdge => 1,
            IntType::FallingEdge => 2,
            IntType::RisingFallingEdge => 3,
        }
    }
}

/// The mask of one pin in the registers that hold one bit per pin.
pub open spec fn spec_pin_mask(pin: u8) -> u32 {
    bit(pin as u32)
}

#[verifier::when_used_as_spec(spec_pin_mask)]
pub fn pin_mask(pin: u8) -> (mask: u32)
    requires
        pin < 32,
    ensures
        mask == spec_pin_mask(pin),
{
    1u32 << (pin as u32)
}

/// The mask of one pin's two-bit field in the interrupt registers.
pub open spec fn spec_int_mask(pin: u8) -> u32 {
    0x3u32 << ((2 * pin) as u32)
}

#[verifier::when_used_as_spec(spec_int_mask)]
pub fn int_mask(pin: u8) -> (mask: u32)
    requires
        pin < 16,
    ensures
        mask == spec_int_mask(pin),
{
    0x3u32 << ((2 * pin) as u32)
}

/// Whether the pin is one of those on port D, above pin 7, whose open-drain
/// modes have a set-up of their own: the output enable and the pull-up take
/// the place of the output type and the output level.
pub open spec fn spec_open_drain_by_pull_up(base: u32, pin: u8) -> bool {
    base == GPIOD_BASE && pin > GPIO_PIN_7
}

/// The bus after the pin has been set up as `mode`.
///
/// Each mode sets or clears the bit of the pin in three or four of six
/// registers: output enable, input enable, pull enable, pull select, output
/// type and output data. On the pins of port D above pin 7 the two
/// open-drain modes clear the output data and the input enable, set the pull
/// select, and differ in the output enable alone.
pub open spec fn pin_configured(s: BusState, base: u32, pin: u8, mode: GpioMode) -> BusState {
    let m = pin_mask(pin);
    let oer = reg_addr(base, GPIO_OER_OFFSET);
    let ier = reg_addr(base, GPIO_IER_OFFSET);
    let per = reg_addr(base, GPIO_PER_OFFSET);
    let psr = reg_addr(base, GPIO_PSR_OFFSET);
    let otyper = reg_addr(base, GPIO_OTYPER_OFFSET);
    let odr = reg_addr(base, GPIO_ODR_OFFSET);
    match mode {
        GpioMode::InputFloating => s.enable(oer, m, true).enable(ier, m, true).enable(
            per,
            m,
            false,
        ),
        GpioMode::InputPullUp => s.enable(oer, m, true).enable(ier, m, true).enable(
            per,
            m,
            true,
        ).enable(psr, m, true),
        GpioMode::InputPullDown => s.enable(oer, m, true).enable(ier, m, true).enable(
            per,
            m,
            true,
        ).enable(psr, m, false),
        GpioMode::OutputPPHigh => s.enable(oer, m, false).enable(ier, m, false).enable(
            otyper,
            m,
            false,
        ).enable(odr, m, true),
        GpioMode::OutputPPLow => s.enable(oer, m, false).enable(ier, m, false).enable(
            otyper,
            m,
            false,
        ).enable(odr, m, false),
        GpioMode::OutputODHiz => if spec_open_drain_by_pull_up(base, pin) {
            s.enable(odr, m, false).enable(ier, m, false).enable(oer, m, true).enable(psr, m, true)
        } else {
            s.enable(oer, m, false).enable(ier, m, false).enable(otyper, m, true).enable(
                odr,
                m,
                true,
            )
        },
        GpioMode::OutputODLow => if spec_open_drain_by_pull_up(base, pin) {
            s.enable(odr, m, false).enable(ier, m, false).enable(oer, m, false).enable(
                psr,
                m,
                true,
            )
        } else {
            s.enable(oer, m, false).enable(ier, m, false).enable(otyper, m, true).enable(
                odr,
                m,
                false,
            )
        },
        GpioMode::Analog => s.enable(oer, m, true).enable(ier, m, false).enable(per, m, false),
    }
}

/// Whether the registers show the pin as the open-drain set-up of the upper
/// pins of port D leaves it when released: output data and input enable
/// clear, output enable and pull select set.
pub open spec fn stands_released(s: BusState, base: u32, pin: u8) -> bool {
    let m = pin_mask(pin);
    &&& s.read(reg_addr(base, GPIO_ODR_OFFSET)) & m == 0
    &&& s.read(reg_addr(base, GPIO_IER_OFFSET)) & m == 0
    &&& s.read(reg_addr(base, GPIO_OER_OFFSET)) & m != 0
    &&& s.read(reg_addr(base, GPIO_PSR_OFFSET)) & m != 0
}

/// Whether the registers show the pin as the open-drain set-up of the upper
/// pins of port D leaves it when driven low: output data, input enable and
/// output enable clear, pull select set.
pub open spec fn stands_driven_low(s: BusState, base: u32, pin: u8) -> bool {
    let m = pin_mask(pin);
    &&& s.read(reg_addr(base, GPIO_ODR_OFFSET)) & m == 0
    &&& s.read(reg_addr(base, GPIO_IER_OFFSET)) & m == 0
    &&& s.read(reg_addr(base, GPIO_OER_OFFSET)) & m == 0
    &&& s.read(reg_addr(base, GPIO_PSR_OFFSET)) & m != 0
}

/// The bus after the level of an output pin has been written.
///
/// A pin is set by writing its bit to the bit-set register and cleared by
/// writing its bit to the bit-reset register; the register is not read. On
/// the pins of port D above pin 7 the registers are looked at first. A pin
/// found released is set up once more as released when it is written low,
/// and is left alone when it is written high: for that level nothing is
/// written at all. A pin found driven low is set up as released, whatever
/// level is written.
pub open spec fn pin_written(s: BusState, base: u32, pin: u8, high: bool) -> BusState {
    let m = pin_mask(pin);
    let oer = reg_addr(base, GPIO_OER_OFFSET);
    let ier = reg_addr(base, GPIO_IER_OFFSET);
    let psr = reg_addr(base, GPIO_PSR_OFFSET);
    let odr = reg_addr(base, GPIO_ODR_OFFSET);
    if spec_open_drain_by_pull_up(base, pin) && stands_released(s, base, pin) {
        if high {
            s
        } else {
            s.enable(odr, m, false).enable(ier, m, false).enable(oer, m, true).enable(psr, m, true)
        }
    } else if spec_open_drain_by_pull_up(base, pin) && stands_driven_low(s, base, pin) {
        s.enable(oer, m, false).enable(ier, m, false).enable(oer, m, true).enable(psr, m, true)
    } else if high {
        s.write(reg_addr(base, GPIO_BSR_OFFSET), m)
    } else {
        s.write(reg_addr(base, GPIO_BRR_OFFSET), m)
    }
}

/// The bus after the output level of the pin has been flipped, by a
/// read-modify-write of the output data register.
pub open spec fn pin_toggled(s: BusState, base: u32, pin: u8) -> BusState {
    let odr = reg_addr(base, GPIO_ODR_OFFSET);
    s.write(odr, s.read(odr) ^ pin_mask(pin))
}

/// The bus after the pending interrupt of the pin has been acknowledged: the
/// flags of the pin that are set are written back, and nothing else.
pub open spec fn interrupt_cleared(s: BusState, base: u32, pin: u8) -> BusState {
    let ifr = reg_addr(base, GPIO_IFR_OFFSET);
    s.write(ifr, s.read(ifr) & int_mask(pin))
}

/// The bus after the edges of the pin's interrupt have been chosen: what was
/// pending is acknowledged, then the pin's field takes the code of the edges.
pub open spec fn interrupt_configured(
    s: BusState,
    base: u32,
    pin: u8,
    int_type: IntType,
) -> BusState {
    interrupt_cleared(s, base, pin).set(
        reg_addr(base, GPIO_ICR_OFFSET),
        int_mask(pin),
        int_type.bits() << ((2 * pin) as u32),
    )
}

/// The position, in the wake-up register for the deepest stop mode, that
/// stands for the pin. On port A the pins 6 and 7 and the pins 12 and 13
/// have changed places; everywhere else a pin stands for itself.
pub open spec fn spec_stop3_position(base: u32, pin: u8) -> u8 {
    if base == GPIOA_BASE && (pin == GPIO_PIN_6 || pin == GPIO_PIN_7) {
        (pin + 6) as u8
    } else if base == GPIOA_BASE && (pin == GPIO_PIN_12 || pin == GPIO_PIN_13) {
        (pin - 6) as u8
    } else {
        pin
    }
}

/// The four-bit code that selects a pin in its group of four and says whether
/// the wake-up is on and on which level.
pub open spec fn spec_stop3_code(position: u8, enable: bool, wake_up: bool) -> u32 {
    let level = if wake_up { 0x4u32 } else { 0x0u32 };
    let switch = if enable { 0x8u32 } else { 0x0u32 };
    ((position % 4) as u32) | level | switch
}

/// The bus after the wake-up from the deepest stop mode has been set for the
/// pin. Each group of four pins has one four-bit field. For the pins of
/// port D above pin 7 nothing is written.
pub open spec fn stop3_wakeup_configured(
    s: BusState,
    base: u32,
    pin: u8,
    enable: bool,
    wake_up: bool,
) -> BusState {
    if spec_open_drain_by_pull_up(base, pin) {
        s
    } else {
        let position = spec_stop3_position(base, pin);
        let shift = (4 * (position / 4)) as u32;
        s.set(
            reg_addr(base, GPIO_STOP3_WUCR_OFFSET),
            0xFu32 << shift,
            spec_stop3_code(position, enable, wake_up) << shift,
        )
    }
}

/// The bus after the pin has been handed to the alternate function with the
/// given number. The pins 0 to 7 have four-bit fields in the low register.
/// The pins 8 to 15 have fields in the high register, four bits wide, or
/// three bits wide on port D. A function number too large for the field
/// loses its upper bits.
pub open spec fn iomux_selected(s: BusState, base: u32, pin: u8, function: u8) -> BusState {
    if pin > GPIO_PIN_7 {
        let index = (pin - GPIO_PIN_8) as u32;
        if base == GPIOD_BASE {
            s.set(
                reg_addr(base, GPIO_AFRH_OFFSET),
                0x7u32 << (3 * index) as u32,
                (function as u32) << (3 * index) as u32,
            )
        } else {
            s.set(
                reg_addr(base, GPIO_AFRH_OFFSET),
                0xFu32 << (4 * index) as u32,
                (function as u32) << (4 * index) as u32,
            )
        }
    } else {
        s.set(
            reg_addr(base, GPIO_AFRL_OFFSET),
            0xFu32 << ((4 * pin) as u32),
            (function as u32) << ((4 * pin) as u32),
        )
    }
}

/// The bus after every GPIO port has been shut down: the clocks of the four
/// ports are closed, then the reset line that the ports share is asserted
/// and released.
pub open spec fn ports_shut_down(s: BusState) -> BusState {
    let a = peripheral_clk_switched(s, RCC_PERIPHERAL_GPIOA, false);
    let b = peripheral_clk_switched(a, RCC_PERIPHERAL_GPIOB, false);
    let c = peripheral_clk_switched(b, RCC_PERIPHERAL_GPIOC, false);
    let d = peripheral_clk_switched(c, RCC_PERIPHERAL_GPIOD, false);
    let held = peripheral_reset(d, RCC_BASE, RCC_PERIPHERAL_GPIOA, true);
    peripheral_reset(held, RCC_BASE, RCC_PERIPHERAL_GPIOB, false)
}

impl Gpio {
    /// The address of the register at `offset` in this port's block.
    pub open spec fn spec_reg(&self, offset: u32) -> u32 {
        reg_addr(self.base(), offset)
    }

    #[verifier::when_used_as_spec(spec_reg)]
    pub fn reg(&self, offset: u32) -> (addr: u32)
        ensures
            addr == self.spec_reg(offset),
    {
        reg_addr(self.base(), offset)
    }

    /// Whether `pin`, on this port, has the open-drain set-up of the upper
    /// pins of port D.
    #[verifier::when_used_as_spec(spec_open_drain_by_pull_up_of)]
    pub fn open_drain_by_pull_up(&self, pin: u8) -> (by_pull_up: bool)
        ensures
            by_pull_up == spec_open_drain_by_pull_up(self.base(), pin),
    {
        self.base() == GPIOD_BASE && pin > GPIO_PIN_7
    }

    pub open spec fn spec_open_drain_by_pull_up_of(&self, pin: u8) -> bool {
        spec_open_drain_by_pull_up(self.base(), pin)
    }

    /// Shuts every GPIO port down, not this one alone: the ports share their
    /// reset line. The clock gates and the reset line are those of the
    /// controller at `RCC_BASE`.
    pub fn deinit<B: RegisterBus>(&self, bus: &mut B)
        ensures
            final(bus)@ == ports_shut_down(old(bus)@),
    {
        let rcc = Rcc::new(RCC_BASE);
        rcc.enable_peripheral_clk(bus, RCC_PERIPHERAL_GPIOA, false);
        rcc.enable_peripheral_clk(bus, RCC_PERIPHERAL_GPIOB, false);
        rcc.enable_peripheral_clk(bus, RCC_PERIPHERAL_GPIOC, false);
        rcc.enable_peripheral_clk(bus, RCC_PERIPHERAL_GPIOD, false);
        rcc.rst_peripheral(bus, RCC_PERIPHERAL_GPIOA, true);
        rcc.rst_peripheral(bus, RCC_PERIPHERAL_GPIOB, false);
    }

    /// Sets `pin` up as `mode`.
    pub fn init<B: RegisterBus>(&self, bus: &mut B, pin: u8, mode: GpioMode)
        requires
            pin < 32,
        ensures
            final(bus)@ == pin_configured(old(bus)@, self.base(), pin, mode),
    {
        let m = pin_mask(pin);
        let oer = self.reg(GPIO_OER_OFFSET);
        let ier = self.reg(GPIO_IER_OFFSET);
        let per = self.reg(GPIO_PER_OFFSET);
        let psr = self.reg(GPIO_PSR_OFFSET);
        let otyper = self.reg(GPIO_OTYPER_OFFSET);
        let odr = self.reg(GPIO_ODR_OFFSET);
        match mode {
            GpioMode::InputFloating => {
                reg_en(bus, oer, m, true);
                reg_en(bus, ier, m, true);
                reg_en(bus, per, m, false);
            },
            GpioMode::InputPullUp => {
                reg_en(bus, oer, m, true);
                reg_en(bus, ier, m, true);
                reg_en(bus, per, m, true);
                reg_en(bus, psr, m, true);
            },
            GpioMode::InputPullDown => {
                reg_en(bus, oer, m, true);
                reg_en(bus, ier, m, true);
                reg_en(bus, per, m, true);
                reg_en(bus, psr, m, false);
            },
            GpioMode::OutputPPHigh => {
                reg_en(bus, oer, m, false);
                reg_en(bus, ier, m, false);
                reg_en(bus, otyper, m, false);
                reg_en(bus, odr, m, true);
            },
            GpioMode::OutputPPLow => {
                reg_en(bus, oer, m, false);
                reg_en(bus, ier, m, false);
                reg_en(bus, otyper, m, false);
                reg_en(bus, odr, m, false);
            },
            GpioMode::OutputODHiz => {
                if self.open_drain_by_pull_up(pin) {
                    reg_en(bus, odr, m, false);
                    reg_en(bus, ier, m, false);
                    reg_en(bus, oer, m, true);
                    reg_en(bus, psr, m, true);
                } else {
                    reg_en(bus, oer, m, false);
                    reg_en(bus, ier, m, false);
                    reg_en(bus, otyper, m, true);
                    reg_en(bus, odr, m, true);
                }
            },
            GpioMode::OutputODLow => {
                if self.open_drain_by_pull_up(pin) {
                    reg_en(bus, odr, m, false);
                    reg_en(bus, ier, m, false);
                    reg_en(bus, oer, m, false);
                    reg_en(bus, psr, m, true);
                } else {
                    reg_en(bus, oer, m, false);
                    reg_en(bus, ier, m, false);
                    reg_en(bus, otyper, m, true);
                    reg_en(bus, odr, m, false);
                }
            },
            GpioMode::Analog => {
                reg_en(bus, oer, m, true);
                reg_en(bus, ier, m, false);
                reg_en(bus, per, m, false);
            },
        }
    }

    /// Writes the output level of `pin`: high for `true`.
    pub fn write<B: RegisterBus>(&self, bus: &mut B, pin: u8, high: bool)
        requires
            pin < 32,
        ensures
            final(bus)@ == pin_written(old(bus)@, self.base(), pin, high),
    {
        let m = pin_mask(pin);
        let oer = self.reg(GPIO_OER_OFFSET);
        let ier = self.reg(GPIO_IER_OFFSET);
        let psr = self.reg(GPIO_PSR_OFFSET);
        let odr = self.reg(GPIO_ODR_OFFSET);
        if self.open_drain_by_pull_up(pin) {
            let low_and_deaf = bus.read(odr) & m == 0 && bus.read(ier) & m == 0;
            let pulled_up = bus.read(psr) & m != 0;
            let driver_off = bus.read(oer) & m != 0;
            if low_and_deaf && pulled_up && driver_off {
                if !high {
                    reg_en(bus, odr, m, false);
                    reg_en(bus, ier, m, false);
                    reg_en(bus, oer, m, true);
                    reg_en(bus, psr, m, true);
                }
                return ;
            }
            if low_and_deaf && pulled_up {
                reg_en(bus, oer, m, false);
                reg_en(bus, ier, m, false);
                reg_en(bus, oer, m, true);
                reg_en(bus, psr, m, true);
                return ;
            }
        }
        if high {
            bus.write(self.reg(GPIO_BSR_OFFSET), m);
        } else {
            bus.write(self.reg(GPIO_BRR_OFFSET), m);
        }
    }

    /// The input level of `pin`: `true` for high.
    pub fn read<B: RegisterBus>(&self, bus: &B, pin: u8) -> (high: bool)
        requires
            pin < 32,
        ensures
            high == (bus@.read(self.reg(GPIO_IDR_OFFSET)) & pin_mask(pin) != 0),
    {
        bus.read(self.reg(GPIO_IDR_OFFSET)) & pin_mask(pin) != 0
    }

    /// Flips the output level of `pin`.
    pub fn toggle<B: RegisterBus>(&self, bus: &mut B, pin: u8)
        requires
            pin < 32,
        ensures
            final(bus)@ == pin_toggled(old(bus)@, self.base(), pin),
    {
        let odr = self.reg(GPIO_ODR_OFFSET);
        let level = bus.read(odr);
        bus.write(odr, level ^ pin_mask(pin));
    }

    /// Chooses the drive strength of `pin`. The bit of the pin is set for the
    /// weaker drive.
    pub fn config_drive_capability<B: RegisterBus>(
        &self,
        bus: &mut B,
        pin: u8,
        capability: GpioDriveCapability,
    )
        requires
            pin < 32,
        ensures
            final(bus)@ == old(bus)@.enable(
                self.reg(GPIO_DSR_OFFSET),
                pin_mask(pin),
                capability == GpioDriveCapability::_4mA,
            ),
    {
        match capability {
            GpioDriveCapability::_4mA => {
                reg_en(bus, self.reg(GPIO_DSR_OFFSET), pin_mask(pin), true);
            },
            GpioDriveCapability::_8mA => {
                reg_en(bus, self.reg(GPIO_DSR_OFFSET), pin_mask(pin), false);
            },
        }
    }

    /// Chooses the edges on which `pin` raises its interrupt.
    pub fn config_interrupt<B: RegisterBus>(&self, bus: &mut B, pin: u8, int_type: IntType)
        requires
            pin < 16,
        ensures
            final(bus)@ == interrupt_configured(old(bus)@, self.base(), pin, int_type),
    {
        self.clear_interrupt(bus, pin);
        reg_set(
            bus,
            self.reg(GPIO_ICR_OFFSET),
            int_mask(pin),
            int_type.bits() << ((2 * pin) as u32),
        );
    }

    /// Acknowledges the pending interrupt of `pin`.
    pub fn clear_interrupt<B: RegisterBus>(&self, bus: &mut B, pin: u8)
        requires
            pin < 16,
        ensures
            final(bus)@ == interrupt_cleared(old(bus)@, self.base(), pin),
    {
        let ifr = self.reg(GPIO_IFR_OFFSET);
        let flags = bus.read(ifr);
        bus.write(ifr, flags & int_mask(pin));
    }

    /// Whether an interrupt of `pin` is pending.
    pub fn get_interrupt_status<B: RegisterBus>(&self, bus: &B, pin: u8) -> (status: SetStatus)
        requires
            pin < 16,
        ensures
            status == SetStatus::of_word(bus@.read(self.reg(GPIO_IFR_OFFSET)) & int_mask(pin)),
    {
        SetStatus::of_word(bus.read(self.reg(GPIO_IFR_OFFSET)) & int_mask(pin))
    }

    /// Switches the wake-up by `pin` on or off and chooses its level.
    pub fn config_wakeup<B: RegisterBus>(&self, bus: &mut B, pin: u8, enable: bool, wake_up: bool)
        requires
            pin < 32,
        ensures
            final(bus)@ == old(bus)@.enable(
                self.reg(GPIO_WUCR_OFFSET),
                pin_mask(pin),
                enable,
            ).enable(self.reg(GPIO_WULVL_OFFSET), pin_mask(pin), wake_up),
    {
        reg_en(bus, self.reg(GPIO_WUCR_OFFSET), pin_mask(pin), enable);
        reg_en(bus, self.reg(GPIO_WULVL_OFFSET), pin_mask(pin), wake_up);
    }

    /// Switches the wake-up from the deepest stop mode by `pin` on or off and
    /// chooses its level.
    pub fn config_stop3_wakeup<B: RegisterBus>(
        &self,
        bus: &mut B,
        pin: u8,
        enable: bool,
        wake_up: bool,
    )
        requires
            pin < 32 || spec_open_drain_by_pull_up(self.base(), pin),
        ensures
            final(bus)@ == stop3_wakeup_configured(old(bus)@, self.base(), pin, enable, wake_up),
    {
        if self.open_drain_by_pull_up(pin) {
            return ;
        }
        let mut position = pin;
        if self.base() == GPIOA_BASE {
            if pin == GPIO_PIN_6 || pin == GPIO_PIN_7 {
                position = pin + 6;
            } else if pin == GPIO_PIN_12 || pin == GPIO_PIN_13 {
                position = pin - 6;
            }
        }
        let shift = (4 * (position / 4)) as u32;
        let level = if wake_up { 0x4u32 } else { 0x0u32 };
        let switch = if enable { 0x8u32 } else { 0x0u32 };
        let code = ((position % 4) as u32) | level | switch;
        reg_set(bus, self.reg(GPIO_STOP3_WUCR_OFFSET), 0xFu32 << shift, code << shift);
    }

    /// Hands `pin` to the alternate function with the number `function`.
    pub fn set_iomux<B: RegisterBus>(&self, bus: &mut B, pin: u8, function: u8)
        requires
            pin < 16,
        ensures
            final(bus)@ == iomux_selected(old(bus)@, self.base(), pin, function),
    {
        if pin > GPIO_PIN_7 {
            let index = (pin - GPIO_PIN_8) as u32;
            if self.base() == GPIOD_BASE {
                reg_set(
                    bus,
                    self.reg(GPIO_AFRH_OFFSET),
                    0x7u32 << (3 * index),
                    (function as u32) << (3 * index),
                );
            } else {
                reg_set(
                    bus,
                    self.reg(GPIO_AFRH_OFFSET),
                    0xFu32 << (4 * index),
                    (function as u32) << (4 * index),
                );
            }
        } else {
            reg_set(
                bus,
                self.reg(GPIO_AFRL_OFFSET),
                0xFu32 << ((4 * pin) as u32),
                (function as u32) << ((4 * pin) as u32),
            );
        }
    }
}

/// Toggling a pin twice leaves every register, the output data register
/// among them, holding what it held before the first toggle.
pub proof fn lemma_toggle_twice_restores(s: BusState, base: u32, pin: u8)
    ensures
        pin_toggled(pin_toggled(s, base, pin), base, pin).same_regs(s),
{
    lemma_xor_twice(s.read(reg_addr(base, GPIO_ODR_OFFSET)), pin_mask(pin));
}

/// What a set-up does to the bit of its pin in each of the six registers that
/// describe an output or input stage: `Some(true)` sets the bit,
/// `Some(false)` clears it, `None` leaves it.
pub struct PinPattern {
    pub oer: Option<bool>,
    pub ier: Option<bool>,
    pub per: Option<bool>,
    pub psr: Option<bool>,
    pub otyper: Option<bool>,
    pub odr: Option<bool>,
}

/// The pattern of a mode. `by_pull_up` says whether the pin is one of the
/// upper pins of port D.
pub open spec fn mode_pattern(mode: GpioMode, by_pull_up: bool) -> PinPattern {
    let set = Some(true);
    let clear = Some(false);
    let keep = None::<bool>;
    match mode {
        GpioMode::InputFloating => PinPattern {
            oer: set,
            ier: set,
            per: clear,
            psr: keep,
            otyper: keep,
            odr: keep,
        },
        GpioMode::InputPullUp => PinPattern {
            oer: set,
            ier: set,
            per: set,
            psr: set,
            otyper: keep,
            odr: keep,
        },
        GpioMode::InputPullDown => PinPattern {
            oer: set,
            ier: set,
            per: set,
            psr: clear,
            otyper: keep,
            odr: keep,
        },
        GpioMode::OutputPPHigh => PinPattern {
            oer: clear,
            ier: clear,
            per: keep,
            psr: keep,
            otyper: clear,
            odr: set,
        },
        GpioMode::OutputPPLow => PinPattern {
            oer: clear,
            ier: clear,
            per: keep,
            psr: keep,
            otyper: clear,
            odr: clear,
        },
        GpioMode::OutputODHiz => if by_pull_up {
            PinPattern { oer: set, ier: clear, per: keep, psr: set, otyper: keep, odr: clear }
        } else {
            PinPattern { oer: clear, ier: clear, per: keep, psr: keep, otyper: set, odr: set }
        },
        GpioMode::OutputODLow => if by_pull_up {
            PinPattern { oer: clear, ier: clear, per: keep, psr: set, otyper: keep, odr: clear }
        } else {
            PinPattern { oer: clear, ier: clear, per: keep, psr: keep, otyper: set, odr: clear }
        },
        GpioMode::Analog => PinPattern {
            oer: set,
            ier: clear,
            per: clear,
            psr: keep,
            otyper: keep,
            odr: keep,
        },
    }
}

/// The register value `reg` after the bits of `mask` have been treated as a
/// pattern says.
pub open spec fn patterned(reg: u32, mask: u32, what: Option<bool>) -> u32 {
    match what {
        Some(on) => field_en(reg, mask, on),
        None => reg,
    }
}

/// A set-up gives each of the six stage registers the bit that the pattern of
/// its mode names, and changes nothing else: no bit of another pin, no other
/// register.
pub proof fn lemma_pin_configured_pattern(s: BusState, base: u32, pin: u8, mode: GpioMode)
    ensures
        ({
            let t = pin_configured(s, base, pin, mode);
            let p = mode_pattern(mode, spec_open_drain_by_pull_up(base, pin));
            let m = pin_mask(pin);
            let oer = reg_addr(base, GPIO_OER_OFFSET);
            let ier = reg_addr(base, GPIO_IER_OFFSET);
            let per = reg_addr(base, GPIO_PER_OFFSET);
            let psr = reg_addr(base, GPIO_PSR_OFFSET);
            let otyper = reg_addr(base, GPIO_OTYPER_OFFSET);
            let odr = reg_addr(base, GPIO_ODR_OFFSET);
            &&& t.read(oer) == patterned(s.read(oer), m, p.oer)
            &&& t.read(ier) == patterned(s.read(ier), m, p.ier)
            &&& t.read(per) == patterned(s.read(per), m, p.per)
            &&& t.read(psr) == patterned(s.read(psr), m, p.psr)
            &&& t.read(otyper) == patterned(s.read(otyper), m, p.otyper)
            &&& t.read(odr) == patterned(s.read(odr), m, p.odr)
            &&& forall|a: u32|
                a != oer && a != ier && a != per && a != psr && a != otyper && a != odr
                    ==> t.read(a) == s.read(a)
            &&& forall|a: u32| t.read(a) & !m == s.read(a) & !m
        }),
{
    lemma_reg_addr_injective(base, GPIO_OER_OFFSET, GPIO_IER_OFFSET);
    lemma_reg_addr_injective(base, GPIO_OER_OFFSET, GPIO_PER_OFFSET);
    lemma_reg_addr_injective(base, GPIO_OER_OFFSET, GPIO_PSR_OFFSET);
    lemma_reg_addr_injective(base, GPIO_OER_OFFSET, GPIO_OTYPER_OFFSET);
    lemma_reg_addr_injective(base, GPIO_OER_OFFSET, GPIO_ODR_OFFSET);
    lemma_reg_addr_injective(base, GPIO_IER_OFFSET, GPIO_PER_OFFSET);
    lemma_reg_addr_injective(base, GPIO_IER_OFFSET, GPIO_PSR_OFFSET);
    lemma_reg_addr_injective(base, GPIO_IER_OFFSET, GPIO_OTYPER_OFFSET);
    lemma_reg_addr_injective(base, GPIO_IER_OFFSET, GPIO_ODR_OFFSET);
    lemma_reg_addr_injective(base, GPIO_PER_OFFSET, GPIO_PSR_OFFSET);
    lemma_reg_addr_injective(base, GPIO_PER_OFFSET, GPIO_OTYPER_OFFSET);
    lemma_reg_addr_injective(base, GPIO_PER_OFFSET, GPIO_ODR_OFFSET);
    lemma_reg_addr_injective(base, GPIO_PSR_OFFSET, GPIO_OTYPER_OFFSET);
    lemma_reg_addr_injective(base, GPIO_PSR_OFFSET, GPIO_ODR_OFFSET);
    lemma_reg_addr_injective(base, GPIO_OTYPER_OFFSET, GPIO_ODR_OFFSET);
    let t = pin_configured(s, base, pin, mode);
    let m = pin_mask(pin);
    assert forall|a: u32| t.read(a) & !m == s.read(a) & !m by {
        lemma_en_touches_only_mask(s.read(a), m, true);
        lemma_en_touches_only_mask(s.read(a), m, false);
    }
}

} // verus!
