//! The register map: where each peripheral block sits in the address space,
//! where each register sits inside its block, and the masks and values of the
//! bitfields inside each register. Pure data; the only functions here build
//! handles and addresses. The laws at the end say that the map is laid out
//! without overlap and that the field values fit their masks.

use vstd::prelude::*;

verus! {

/// Whether a status bit reads as set.
#[derive(Clone, Copy, Debug, PartialEq, Eq, Structural)]
pub enum SetStatus {
    Reset,
    IsSet,
}

impl SetStatus {
    /// The 32-bit encoding of the status: all zeros or all ones.
    pub open spec fn spec_bits(self) -> u32 {
        match self {
            SetStatus::Reset => 0,
            SetStatus::IsSet => 0xFFFF_FFFF,
        }
    }

    /// `Set` exactly when `word` is not zero.
    pub open spec fn spec_of_word(word: u32) -> SetStatus {
        if word != 0 {
            SetStatus::IsSet
        } else {
            SetStatus::Reset
        }
    }

    #[verifier::when_used_as_spec(spec_bits)]
    pub fn bits(self) -> (word: u32)
        ensures
            word == self.spec_bits(),
    {
        match self {
            SetStatus::Reset => 0,
            SetStatus::IsSet => 0xFFFF_FFFF,
        }
    }

    #[verifier::when_used_as_spec(spec_of_word)]
    pub fn of_word(word: u32) -> (status: SetStatus)
        ensures
            status == SetStatus::spec_of_word(word),
    {
        if word != 0 {
            SetStatus::IsSet
        } else {
            SetStatus::Reset
        }
    }
}

/// The address of the register `offset` bytes into the block at `base`.
/// Addresses are 32 bits wide and wrap at the top of the address space.
pub open spec fn spec_reg_addr(base: u32, offset: u32) -> u32 {
    if base + offset > u32::MAX {
        (base + offset - 0x1_0000_0000) as u32
    } else {
        (base + offset) as u32
    }
}

#[verifier::when_used_as_spec(spec_reg_addr)]
pub fn reg_addr(base: u32, offset: u32) -> (addr: u32)
    ensures
        addr == spec_reg_addr(base, offset),
{
    base.wrapping_add(offset)
}

// ---------------------------------------------------------------------------
// Memory map
// ---------------------------------------------------------------------------
/// The base address of the flash.
pub const FLASH_BASE: u32 = 0x08000000;
/// The base address of the flash information block.
pub const FLASH_INFO_BASE: u32 = 0x10000000;
/// The base address of the system RAM.
pub const SRAM_BASE: u32 = 0x20000000;
/// The base address of the retention RAM.
pub const RET_SRAM_BASE: u32 = 0x30000000;
/// The base address of the peripheral registers.
pub const PERIPH_BASE: u32 = 0x40000000;
/// The base address of the analog front-end controller.
pub const AFEC_BASE: u32 = 0x40008000;

// ---------------------------------------------------------------------------
// RCC: reset and clock controller
// ---------------------------------------------------------------------------

/// Handle on one reset and clock controller: the base address of its register block.
pub struct Rcc(u32);

impl Rcc {
    /// The handle on the block at `base`.
    pub fn new(base: u32) -> (handle: Self)
        ensures
            handle.base() == base,
    {
        Self(base)
    }

    /// The base address that the handle was made with. It cannot be changed.
    pub closed spec fn spec_base(&self) -> u32 {
        self.0
    }

    #[verifier::when_used_as_spec(spec_base)]
    pub fn base(&self) -> (base: u32)
        ensures
            base == self.spec_base(),
    {
        self.0
    }
}

/// The length of the block, in bytes.
pub const RCC_BLOCK_LEN: u32 = 0x34;

// Register offsets inside the block.
pub const RCC_CR0_OFFSET: u32 = 0x00;
pub const RCC_CR1_OFFSET: u32 = 0x04;
pub const RCC_CR2_OFFSET: u32 = 0x08;
pub const RCC_CGR0_OFFSET: u32 = 0x0C;
pub const RCC_CGR1_OFFSET: u32 = 0x10;
pub const RCC_CGR2_OFFSET: u32 = 0x14;
pub const RCC_RST0_OFFSET: u32 = 0x18;
pub const RCC_RST1_OFFSET: u32 = 0x1C;
pub const RCC_RST_SR_OFFSET: u32 = 0x20;
pub const RCC_RST_CR_OFFSET: u32 = 0x24;
pub const RCC_SR_OFFSET: u32 = 0x28;
pub const RCC_SR1_OFFSET: u32 = 0x2C;
pub const RCC_CR3_OFFSET: u32 = 0x30;

pub const RCC_BASE: u32 = PERIPH_BASE + 0x00000000;

pub const RCC_CR0_STCLKEN_SEL_MASK: u32 = 0x02000000;
pub const RCC_CR0_STCLKEN_SEL_XO32K: u32 = 0x00000000;
pub const RCC_CR0_STCLKEN_SEL_RCO32K: u32 = 0x02000000;

pub const RCC_CR0_MCO_CLK_DIV_MASK: u32 = 0x01C00000;
pub const RCC_CR0_MCO_CLK_DIV_1: u32 = 0x00000000;
pub const RCC_CR0_MCO_CLK_DIV_2: u32 = 0x01000000;
pub const RCC_CR0_MCO_CLK_DIV_4: u32 = 0x01400000;
pub const RCC_CR0_MCO_CLK_DIV_8: u32 = 0x01800000;
pub const RCC_CR0_MCO_CLK_DIV_16: u32 = 0x1C00000;

pub const RCC_CR0_MCO_CLK_SEL_MASK: u32 = 0x00380000;
pub const RCC_CR0_MCO_CLK_SEL_RCO32K: u32 = 0x00000000;
pub const RCC_CR0_MCO_CLK_SEL_XO32K: u32 = 0x00080000;
pub const RCC_CR0_MCO_CLK_SEL_RCO4M: u32 = 0x00100000;
pub const RCC_CR0_MCO_CLK_SEL_XO24M: u32 = 0x00180000;
pub const RCC_CR0_MCO_CLK_SEL_XO32M: u32 = 0x00200000;
pub const RCC_CR0_MCO_CLK_SEL_RCO48M: u32 = 0x00280000;
pub const RCC_CR0_MCO_CLK_SEL_PLL: u32 = 0x00300000;
pub const RCC_CR0_MCO_CLK_SEL_SYSCLCK: u32 = 0x00380000;

pub const RCC_CR0_MCO_CLK_OUT_EN_MASK: u32 = 0x00040000;

pub const RCC_CR0_PCLK1_DIV_MASK: u32 = 0x00038000;
pub const RCC_CR0_PCLK1_DIV_1: u32 = 0x00000000;
pub const RCC_CR0_PCLK1_DIV_2: u32 = 0x00008000;
pub const RCC_CR0_PCLK1_DIV_4: u32 = 0x00010000;
pub const RCC_CR0_PCLK1_DIV_8: u32 = 0x00018000;
pub const RCC_CR0_PCLK1_DIV_16: u32 = 0x00020000;

pub const RCC_CR0_SYSCLK_SEL_MASK: u32 = 0x00007000;
pub const RCC_CR0_SYSCLK_SEL_RCO48M_DIV2: u32 = 0x00000000;
pub const RCC_CR0_SYSCLK_SEL_RCO32K: u32 = 0x00001000;
pub const RCC_CR0_SYSCLK_SEL_XO32K: u32 = 0x00002000;
pub const RCC_CR0_SYSCLK_SEL_PLL: u32 = 0x00003000;
pub const RCC_CR0_SYSCLK_SEL_XO24M: u32 = 0x00004000;
pub const RCC_CR0_SYSCLK_SEL_XO32M: u32 = 0x00005000;
pub const RCC_CR0_SYSCLK_SEL_RCO4M: u32 = 0x00006000;
pub const RCC_CR0_SYSCLK_SEL_RCO48M: u32 = 0x00007000;

pub const RCC_CR0_HCLK_DIV_MASK: u32 = 0x00000F00;
pub const RCC_CR0_HCLK_DIV_1: u32 = 0x00000000;
pub const RCC_CR0_HCLK_DIV_2: u32 = 0x00000100;
pub const RCC_CR0_HCLK_DIV_4: u32 = 0x00000200;
pub const RCC_CR0_HCLK_DIV_8: u32 = 0x00000300;
pub const RCC_CR0_HCLK_DIV_16: u32 = 0x00000400;
pub const RCC_CR0_HCLK_DIV_32: u32 = 0x00000500;
pub const RCC_CR0_HCLK_DIV_64: u32 = 0x00000600;
pub const RCC_CR0_HCLK_DIV_128: u32 = 0x00000700;
pub const RCC_CR0_HCLK_DIV_256: u32 = 0x00000800;
pub const RCC_CR0_HCLK_DIV_512: u32 = 0x00000900;

pub const RCC_CR0_PCLK0_DIV_MASK: u32 = 0x000000E0;
pub const RCC_CR0_PCLK0_DIV_1: u32 = 0x00000000;
pub const RCC_CR0_PCLK0_DIV_2: u32 = 0x00000020;
pub const RCC_CR0_PCLK0_DIV_4: u32 = 0x00000040;
pub const RCC_CR0_PCLK0_DIV_8: u32 = 0x00000060;
pub const RCC_CR0_PCLK0_DIV_16: u32 = 0x00000080;

pub const RCC_CR1_LPTIMER1_EXTCLK_SEL_MASK: u32 = 0x00000800;

pub const RCC_CR1_LPTIMER0_EXTCLK_SEL_MASK: u32 = 0x00000400;

pub const RCC_CR1_LPTIMER1_CLK_SEL_MASK: u32 = 0x00000300;
pub const RCC_CR1_LPTIMER1_CLK_SEL_PCLK0: u32 = 0x00000000;
pub const RCC_CR1_LPTIMER1_CLK_SEL_RCO4M: u32 = 0x00000100;
pub const RCC_CR1_LPTIMER1_CLK_SEL_XO32K: u32 = 0x00000200;
pub const RCC_CR1_LPTIMER1_CLK_SEL_RCO32K: u32 = 0x00000300;

pub const RCC_CR1_LPTIMER0_CLK_SEL_MASK: u32 = 0x000000C0;
pub const RCC_CR1_LPTIMER0_CLK_SEL_PCLK0: u32 = 0x00000000;
pub const RCC_CR1_LPTIMER0_CLK_SEL_RCO4M: u32 = 0x00000040;
pub const RCC_CR1_LPTIMER0_CLK_SEL_XO32K: u32 = 0x00000080;
pub const RCC_CR1_LPTIMER0_CLK_SEL_RCO32K: u32 = 0x000000C0;

pub const RCC_CR1_LCD_CLK_SEL_MASK: u32 = 0x00000030;
pub const RCC_CR1_LCD_CLK_SEL_XO32K: u32 = 0x00000000;
pub const RCC_CR1_LCD_CLK_SEL_RCO32K: u32 = 0x00000010;
pub const RCC_CR1_LCD_CLK_SEL_RCO4M: u32 = 0x00000020;

pub const RCC_CR1_LPUART_CLK_SEL_MASK: u32 = 0x0000000C;
pub const RCC_CR1_LPUART_CLK_SEL_XO32K: u32 = 0x00000000;
pub const RCC_CR1_LPUART_CLK_SEL_RCO32K: u32 = 0x00000004;
pub const RCC_CR1_LPUART_CLK_SEL_RCO4M: u32 = 0x00000008;

pub const RCC_CR1_RTC_CLK_SEL_MASK: u32 = 0x00000002;
pub const RCC_CR1_RTC_CLK_SEL_XO32K: u32 = 0x00000000;
pub const RCC_CR1_RTC_CLK_SEL_RCO32K: u32 = 0x00000002;

pub const RCC_CR1_IWDG_CLK_SEL_MASK: u32 = 0x00000001;
pub const RCC_CR1_IWDG_CLK_SEL_XO32K: u32 = 0x00000000;
pub const RCC_CR1_IWDG_CLK_SEL_RCO32K: u32 = 0x00000001;

pub const RCC_CR2_UART0_CLK_SEL_MASK: u32 = 0x00018000;
pub const RCC_CR2_UART0_CLK_SEL_PCLK0: u32 = 0x00000000;
pub const RCC_CR2_UART0_CLK_SEL_RCO4M: u32 = 0x00008000;
pub const RCC_CR2_UART0_CLK_SEL_XO32K: u32 = 0x00010000;
pub const RCC_CR2_UART0_CLK_SEL_XO24M: u32 = 0x00018000;

pub const RCC_CR2_UART1_CLK_SEL_MASK: u32 = 0x00006000;
pub const RCC_CR2_UART1_CLK_SEL_PCLK0: u32 = 0x00000000;
pub const RCC_CR2_UART1_CLK_SEL_RCO4M: u32 = 0x00002000;
pub const RCC_CR2_UART1_CLK_SEL_XO32K: u32 = 0x00004000;
pub const RCC_CR2_UART1_CLK_SEL_XO24M: u32 = 0x00006000;

pub const RCC_CR2_UART2_CLK_SEL_MASK: u32 = 0x00001800;
pub const RCC_CR2_UART2_CLK_SEL_PCLK1: u32 = 0x00000000;
pub const RCC_CR2_UART2_CLK_SEL_RCO4M: u32 = 0x00000800;
pub const RCC_CR2_UART2_CLK_SEL_XO32K: u32 = 0x00001000;
pub const RCC_CR2_UART2_CLK_SEL_XO24M: u32 = 0x00001800;

pub const RCC_CR2_UART3_CLK_SEL_MASK: u32 = 0x00000600;
pub const RCC_CR2_UART3_CLK_SEL_PCLK1: u32 = 0x00000000;
pub const RCC_CR2_UART3_CLK_SEL_RCO4M: u32 = 0x00000200;
pub const RCC_CR2_UART3_CLK_SEL_XO32K: u32 = 0x00000400;
pub const RCC_CR2_UART3_CLK_SEL_XO24M: u32 = 0x00000600;

pub const RCC_CR2_SCC_CLK_SEL_MASK: u32 = 0x00000180;
pub const RCC_CR2_SCC_CLK_SEL_PCLK1: u32 = 0x00000000;
pub const RCC_CR2_SCC_CLK_SEL_SYSCLK: u32 = 0x00000080;
pub const RCC_CR2_SCC_CLK_SEL_PLL: u32 = 0x00000100;
pub const RCC_CR2_SCC_CLK_SEL_EXT: u32 = 0x00000180;

pub const RCC_CR2_ADC_CLK_SEL_MASK: u32 = 0x00000060;
pub const RCC_CR2_ADC_CLK_SEL_PCLK1: u32 = 0x00000000;
pub const RCC_CR2_ADC_CLK_SEL_SYSCLK: u32 = 0x00000020;
pub const RCC_CR2_ADC_CLK_SEL_PLL: u32 = 0x00000040;
pub const RCC_CR2_ADC_CLK_SEL_RCO48M: u32 = 0x00000060;

pub const RCC_CR2_I2S_CLK_SEL_MASK: u32 = 0x0000001C;
pub const RCC_CR2_I2S_CLK_SEL_PCLK0: u32 = 0x00000000;
pub const RCC_CR2_I2S_CLK_SEL_XO24M: u32 = 0x00000004;
pub const RCC_CR2_I2S_CLK_SEL_PLL: u32 = 0x00000008;
pub const RCC_CR2_I2S_CLK_SEL_XO32M: u32 = 0x0000000C;
pub const RCC_CR2_I2S_CLK_SEL_EXT_CLK: u32 = 0x00000010;

pub const RCC_CR2_QSPI_CLK_SEL_MASK: u32 = 0x00000003;
pub const RCC_CR2_QSPI_CLK_SEL_HCLK: u32 = 0x00000000;
pub const RCC_CR2_QSPI_CLK_SEL_SYSCLK: u32 = 0x00000001;
pub const RCC_CR2_QSPI_CLK_SEL_PLL: u32 = 0x00000002;

pub const RCC_CR3_I2S_MCLK_DIV_MASK: u32 = 0x0000FF00;

pub const RCC_CR3_I2S_SCLK_DIV_MASK: u32 = 0x000000FF;

pub const RCC_CGR0_PWR_CLK_EN_MASK: u32 = 0x80000000;
pub const RCC_CGR0_DMAC0_CLK_EN_MASK: u32 = 0x40000000;
pub const RCC_CGR0_DMAC1_CLK_EN_MASK: u32 = 0x20000000;
pub const RCC_CGR0_CRC_CLK_EN_MASK: u32 = 0x10000000;
pub const RCC_CGR0_BSTIMER0_CLK_EN_MASK: u32 = 0x08000000;
pub const RCC_CGR0_BSTIMER1_CLK_EN_MASK: u32 = 0x04000000;
pub const RCC_CGR0_IOM0_CLK_EN_MASK: u32 = 0x02000000;
pub const RCC_CGR0_IOM1_CLK_EN_MASK: u32 = 0x01000000;
pub const RCC_CGR0_IOM2_CLK_EN_MASK: u32 = 0x00800000;
pub const RCC_CGR0_IOM3_CLK_EN_MASK: u32 = 0x00400000;
pub const RCC_CGR0_SYSCFG_CLK_EN_MASK: u32 = 0x00200000;
pub const RCC_CGR0_UART0_CLK_EN_MASK: u32 = 0x00100000;
pub const RCC_CGR0_UART1_CLK_EN_MASK: u32 = 0x00080000;
pub const RCC_CGR0_UART2_CLK_EN_MASK: u32 = 0x00040000;
pub const RCC_CGR0_UART3_CLK_EN_MASK: u32 = 0x00020000;
pub const RCC_CGR0_LPUART_CLK_EN_MASK: u32 = 0x00010000;
pub const RCC_CGR0_SSP0_CLK_EN_MASK: u32 = 0x00008000;
pub const RCC_CGR0_SSP1_CLK_EN_MASK: u32 = 0x00004000;
pub const RCC_CGR0_SSP2_CLK_EN_MASK: u32 = 0x00002000;
pub const RCC_CGR0_I2C0_CLK_EN_MASK: u32 = 0x00001000;
pub const RCC_CGR0_I2C1_CLK_EN_MASK: u32 = 0x00000800;
pub const RCC_CGR0_I2C2_CLK_EN_MASK: u32 = 0x00000400;
pub const RCC_CGR0_SCC_CLK_EN_MASK: u32 = 0x00000200;
pub const RCC_CGR0_ADC_CLK_EN_MASK: u32 = 0x00000100;
pub const RCC_CGR0_AFEC_CLK_EN_MASK: u32 = 0x00000080;
pub const RCC_CGR0_LCD_CLK_EN_MASK: u32 = 0x00000040;
pub const RCC_CGR0_DAC_CLK_EN_MASK: u32 = 0x00000020;
pub const RCC_CGR0_LORA_CLK_EN_MASK: u32 = 0x00000010;
pub const RCC_CGR0_TIMER0_CLK_EN_MASK: u32 = 0x00000008;
pub const RCC_CGR0_TIMER1_CLK_EN_MASK: u32 = 0x00000004;
pub const RCC_CGR0_TIMER2_CLK_EN_MASK: u32 = 0x00000002;
pub const RCC_CGR0_TIMER3_CLK_EN_MASK: u32 = 0x00000001;

pub const RCC_CGR1_LPTIMER1_PCLK_EN_MASK: u32 = 0x00001000;
pub const RCC_CGR1_LPTIMER1_CLK_EN_MASK: u32 = 0x00000800;
pub const RCC_CGR1_RNGC_CLK_EN_MASK: u32 = 0x00000400;
pub const RCC_CGR1_LPTIMER0_PCLK_EN_MASK: u32 = 0x00000200;
pub const RCC_CGR1_I2S_CLK_EN_MASK: u32 = 0x00000100;
pub const RCC_CGR1_SAC_CLK_EN_MASK: u32 = 0x00000080;
pub const RCC_CGR1_WDG_CNT_CLK_EN_MASK: u32 = 0x00000040;
pub const RCC_CGR1_QSPI_CLK_EN_MASK: u32 = 0x00000020;
pub const RCC_CGR1_LPTIMER0_CLK_EN_MASK: u32 = 0x00000010;
pub const RCC_CGR1_IWDG_CLK_EN_MASK: u32 = 0x00000008;
pub const RCC_CGR1_WDG_CLK_EN_MASK: u32 = 0x00000004;
pub const RCC_CGR1_RTC_CLK_EN_MASK: u32 = 0x00000002;
pub const RCC_CGR1_SEC_CLK_EN_MASK: u32 = 0x00000001;

pub const RCC_CGR2_LPTIMER1_AON_CLK_EN_MASK: u32 = 0x00000020;
pub const RCC_CGR2_LPTIMER0_AON_CLK_EN_MASK: u32 = 0x00000010;
pub const RCC_CGR2_LCD_AON_CLK_EN_MASK: u32 = 0x00000008;
pub const RCC_CGR2_LPUART_AON_CLK_EN_MASK: u32 = 0x00000004;
pub const RCC_CGR2_RTC_AON_CLK_EN_MASK: u32 = 0x00000002;
pub const RCC_CGR2_IWDG_CLK_EN_MASK: u32 = 0x00000001;

pub const RCC_RST0_UART0_RST_N_MASK: u32 = 0x80000000;
pub const RCC_RST0_UART1_RST_N_MASK: u32 = 0x40000000;
pub const RCC_RST0_UART2_RST_N_MASK: u32 = 0x20000000;
pub const RCC_RST0_UART3_RST_N_MASK: u32 = 0x10000000;
pub const RCC_RST0_LPUART_RST_N_MASK: u32 = 0x08000000;
pub const RCC_RST0_SSP0_RST_N_MASK: u32 = 0x04000000;
pub const RCC_RST0_SSP1_RST_N_MASK: u32 = 0x02000000;
pub const RCC_RST0_SSP2_RST_N_MASK: u32 = 0x01000000;
pub const RCC_RST0_QSPI_RST_N_MASK: u32 = 0x00800000;
pub const RCC_RST0_I2C0_RST_N_MASK: u32 = 0x00400000;
pub const RCC_RST0_I2C1_RST_N_MASK: u32 = 0x00200000;
pub const RCC_RST0_I2C2_RST_N_MASK: u32 = 0x00100000;
pub const RCC_RST0_SCC_RST_N_MASK: u32 = 0x00080000;
pub const RCC_RST0_ADC_RST_N_MASK: u32 = 0x00040000;
pub const RCC_RST0_AFEC_RST_N_MASK: u32 = 0x00020000;
pub const RCC_RST0_LCD_RST_N_MASK: u32 = 0x00010000;
pub const RCC_RST0_DAC_RST_N_MASK: u32 = 0x00008000;
pub const RCC_RST0_LORA_RST_N_MASK: u32 = 0x00004000;
pub const RCC_RST0_IOM_RST_N_MASK: u32 = 0x00002000;
pub const RCC_RST0_TIMER0_RST_N_MASK: u32 = 0x00001000;
pub const RCC_RST0_TIMER1_RST_N_MASK: u32 = 0x00000800;
pub const RCC_RST0_TIMER2_RST_N_MASK: u32 = 0x00000400;
pub const RCC_RST0_TIMER3_RST_N_MASK: u32 = 0x00000200;
pub const RCC_RST0_BSTIMER0_RST_N_MASK: u32 = 0x00000100;
pub const RCC_RST0_BSTIMER1_RST_N_MASK: u32 = 0x00000080;
pub const RCC_RST0_LPTIMER0_RST_N_MASK: u32 = 0x00000040;
pub const RCC_RST0_IWDG_RST_N_MASK: u32 = 0x00000020;
pub const RCC_RST0_WDG_RST_N_MASK: u32 = 0x00000010;
pub const RCC_RST0_RTC_RST_N_MASK: u32 = 0x00000008;
pub const RCC_RST0_CRC_RST_N_MASK: u32 = 0x00000004;
pub const RCC_RST0_SEC_RST_N_MASK: u32 = 0x00000002;
pub const RCC_RST0_SAC_RST_N_MASK: u32 = 0x00000001;

pub const RCC_RST1_LPTIMER1_RST_N_MASK: u32 = 0x00000010;
pub const RCC_RST1_RNGC_RST_N_MASK: u32 = 0x00000008;
pub const RCC_RST1_I2S_RST_N_MASK: u32 = 0x00000004;
pub const RCC_RST1_DMAC0_RST_N_MASK: u32 = 0x00000002;
pub const RCC_RST1_DMAC1_RST_N_MASK: u32 = 0x00000001;

pub const RCC_RST_SR_BOR_RESET_SR: u32 = 0x00000040;
pub const RCC_RST_SR_IWDG_RESET_SR: u32 = 0x00000020;
pub const RCC_RST_SR_WDG_RESET_SR: u32 = 0x00000010;
pub const RCC_RST_SR_EFC_RESET_SR: u32 = 0x00000008;
pub const RCC_RST_SR_CPU_RESET_SR: u32 = 0x00000004;
pub const RCC_RST_SR_SEC_RESET_SR: u32 = 0x00000002;
pub const RCC_RST_SR_STANDBY_RESET_SR: u32 = 0x00000001;

pub const RCC_RST_CR_RESET_REQ_EN_MASK: u32 = 0x0000003E;
pub const RCC_RST_CR_IWDG_RESET_REQ_EN_MASK: u32 = 0x00000020;
pub const RCC_RST_CR_WDG_RESET_REQ_EN_MASK: u32 = 0x00000010;
pub const RCC_RST_CR_EFC_RESET_REQ_EN_MASK: u32 = 0x00000008;
pub const RCC_RST_CR_CPU_RESET_REQ_EN_MASK: u32 = 0x00000004;
pub const RCC_RST_CR_SEC_RESET_REQ_EN_MASK: u32 = 0x00000002;

pub const RCC_SR_ALL_DONE: u32 = 0x0000003F;
pub const RCC_SR_LPTIMER1_AON_CLK_EN_DONE: u32 = 0x00000020;
pub const RCC_SR_LPTIM_AON_CLK_EN_DONE: u32 = 0x00000010;
pub const RCC_SR_LCD_AON_CLK_EN_DONE: u32 = 0x00000008;
pub const RCC_SR_LPUART_AON_CLK_EN_DONE: u32 = 0x00000004;
pub const RCC_SR_RTC_AON_CLK_EN_DONE: u32 = 0x00000002;
pub const RCC_SR_IWDG_AON_CLK_EN_DONE: u32 = 0x00000001;

pub const RCC_SR1_LPTIMER1_CLK_EN_SYNC: u32 = 0x00100000;
pub const RCC_SR1_LPTIMER1_AON_CLK_EN_SYNC: u32 = 0x00080000;
pub const RCC_SR1_UART0_CLK_EN_SYNC: u32 = 0x00040000;
pub const RCC_SR1_UART1_CLK_EN_SYNC: u32 = 0x00020000;
pub const RCC_SR1_UART2_CLK_EN_SYNC: u32 = 0x00010000;
pub const RCC_SR1_UART3_CLK_EN_SYNC: u32 = 0x00008000;
pub const RCC_SR1_SCC_CLK_EN_SYNC: u32 = 0x00004000;
pub const RCC_SR1_ADC_CLK_EN_SYNC: u32 = 0x00002000;
pub const RCC_SR1_LPTIMER0_CLK_EN_SYNC: u32 = 0x00001000;
pub const RCC_SR1_QSPI_CLK_EN_SYNC: u32 = 0x00000800;
pub const RCC_SR1_LPUART_CLK_EN_SYNC: u32 = 0x00000400;
pub const RCC_SR1_LCD_CLK_EN_SYNC: u32 = 0x00000200;
pub const RCC_SR1_IWDG_CLK_EN_SYNC: u32 = 0x00000100;
pub const RCC_SR1_RTC_CLK_EN_SYNC: u32 = 0x00000080;
pub const RCC_SR1_MCO_CLK_EN_SYNC: u32 = 0x00000040;
pub const RCC_SR1_I2S_CLK_EN_SYNC: u32 = 0x00000020;
pub const RCC_SR1_LPTIMER0_AON_CLK_EN_SYNC: u32 = 0x00000010;
pub const RCC_SR1_LCD_AON_CLK_EN_SYNC: u32 = 0x00000008;
pub const RCC_SR1_LPUART_AON_CLK_EN_SYNC: u32 = 0x00000004;
pub const RCC_SR1_RTC_AON_CLK_EN_SYNC: u32 = 0x00000002;
pub const RCC_SR1_IWDG_AON_CLK_EN_SYNC: u32 = 0x00000001;

// ---------------------------------------------------------------------------
// SSP: synchronous serial port
// ---------------------------------------------------------------------------

/// Handle on one synchronous serial port: the base address of its register block.
pub struct Ssp(u32);

impl Ssp {
    /// The handle on the block at `base`.
    pub fn new(base: u32) -> (handle: Self)
        ensures
            handle.base() == base,
    {
        Self(base)
    }

    /// The base address that the handle was made with. It cannot be changed.
    pub closed spec fn spec_base(&self) -> u32 {
        self.0
    }

    #[verifier::when_used_as_spec(spec_base)]
    pub fn base(&self) -> (base: u32)
        ensures
            base == self.spec_base(),
    {
        self.0
    }
}

/// The length of the block, in bytes.
pub const SSP_BLOCK_LEN: u32 = 0x1000;

// Register offsets inside the block.
pub const SSP_CR0_OFFSET: u32 = 0x00;
pub const SSP_CR1_OFFSET: u32 = 0x04;
pub const SSP_DR_OFFSET: u32 = 0x08;
pub const SSP_SR_OFFSET: u32 = 0x0C;
pub const SSP_CPSR_OFFSET: u32 = 0x10;
pub const SSP_IMSC_OFFSET: u32 = 0x14;
pub const SSP_RIS_OFFSET: u32 = 0x18;
pub const SSP_MIS_OFFSET: u32 = 0x1C;
pub const SSP_ICR_OFFSET: u32 = 0x20;
pub const SSP_DMA_CR_OFFSET: u32 = 0x24;
pub const SSP_PERIPH_ID0_OFFSET: u32 = 0xFE0;
pub const SSP_PERIPH_ID1_OFFSET: u32 = 0xFE4;
pub const SSP_PERIPH_ID2_OFFSET: u32 = 0xFE8;
pub const SSP_PERIPH_ID3_OFFSET: u32 = 0xFEC;
pub const SSP_PCELL_ID0_OFFSET: u32 = 0xFF0;
pub const SSP_PCELL_ID1_OFFSET: u32 = 0xFF4;
pub const SSP_PCELL_ID2_OFFSET: u32 = 0xFF8;
pub const SSP_PCELL_ID3_OFFSET: u32 = 0xFFC;

pub const SSP0_BASE: u32 = PERIPH_BASE + 0x00006000;
pub const SSP1_BASE: u32 = PERIPH_BASE + 0x00012000;
pub const SSP2_BASE: u32 = PERIPH_BASE + 0x00013000;

pub const SSP_NUM_PORTS: u32 = 3;

// ---------------------------------------------------------------------------
// GPIO: GPIO port
// ---------------------------------------------------------------------------

/// Handle on one GPIO port: the base address of its register block.
pub struct Gpio(u32);

impl Gpio {
    /// The handle on the block at `base`.
    pub fn new(base: u32) -> (handle: Self)
        ensures
            handle.base() == base,
    {
        Self(base)
    }

    /// The base address that the handle was made with. It cannot be changed.
    pub closed spec fn spec_base(&self) -> u32 {
        self.0
    }

    #[verifier::when_used_as_spec(spec_base)]
    pub fn base(&self) -> (base: u32)
        ensures
            base == self.spec_base(),
    {
        self.0
    }
}

/// The length of the block, in bytes.
pub const GPIO_BLOCK_LEN: u32 = 0x44;

// Register offsets inside the block.
pub const GPIO_OER_OFFSET: u32 = 0x00;
pub const GPIO_OTYPER_OFFSET: u32 = 0x04;
pub const GPIO_IER_OFFSET: u32 = 0x08;
pub const GPIO_PER_OFFSET: u32 = 0x0C;
pub const GPIO_PSR_OFFSET: u32 = 0x10;
pub const GPIO_IDR_OFFSET: u32 = 0x14;
pub const GPIO_ODR_OFFSET: u32 = 0x18;
pub const GPIO_BRR_OFFSET: u32 = 0x1C;
pub const GPIO_BSR_OFFSET: u32 = 0x20;
pub const GPIO_DSR_OFFSET: u32 = 0x24;
pub const GPIO_ICR_OFFSET: u32 = 0x28;
pub const GPIO_IFR_OFFSET: u32 = 0x2C;
pub const GPIO_WUCR_OFFSET: u32 = 0x30;
pub const GPIO_WULVL_OFFSET: u32 = 0x34;
pub const GPIO_AFRL_OFFSET: u32 = 0x38;
pub const GPIO_AFRH_OFFSET: u32 = 0x3C;
pub const GPIO_STOP3_WUCR_OFFSET: u32 = 0x40;

pub const GPIO_BASE: u32 = 0x4001F000;
pub const GPIOA_BASE: u32 = GPIO_BASE;
pub const GPIOB_BASE: u32 = GPIO_BASE + 0x400;
pub const GPIOC_BASE: u32 = GPIO_BASE + 0x800;
pub const GPIOD_BASE: u32 = GPIO_BASE + 0xC00;

// ---------------------------------------------------------------------------
// RTC: real-time clock
// ---------------------------------------------------------------------------

/// Handle on one real-time clock: the base address of its register block.
pub struct Rtc(u32);

impl Rtc {
    /// The handle on the block at `base`.
    pub fn new(base: u32) -> (handle: Self)
        ensures
            handle.base() == base,
    {
        Self(base)
    }

    /// The base address that the handle was made with. It cannot be changed.
    pub closed spec fn spec_base(&self) -> u32 {
        self.0
    }

    #[verifier::when_used_as_spec(spec_base)]
    pub fn base(&self) -> (base: u32)
        ensures
            base == self.spec_base(),
    {
        self.0
    }
}

/// The length of the block, in bytes.
pub const RTC_BLOCK_LEN: u32 = 0x4C;

// Register offsets inside the block.
pub const RTC_CTRL_OFFSET: u32 = 0x00;
pub const RTC_ALARM0_OFFSET: u32 = 0x04;
pub const RTC_ALARM1_OFFSET: u32 = 0x08;
pub const RTC_PPM_ADJUST_OFFSET: u32 = 0x0C;
pub const RTC_CALENDAR_OFFSET: u32 = 0x10;
pub const RTC_CALENDAR_H_OFFSET: u32 = 0x14;
pub const RTC_CYC_MAX_OFFSET: u32 = 0x18;
pub const RTC_SR_OFFSET: u32 = 0x1C;
pub const RTC_ASYN_DATA_OFFSET: u32 = 0x20;
pub const RTC_ASYN_DATA_H_OFFSET: u32 = 0x24;
pub const RTC_CR1_OFFSET: u32 = 0x28;
pub const RTC_SR1_OFFSET: u32 = 0x2C;
pub const RTC_CR2_OFFSET: u32 = 0x30;
pub const RTC_SUB_SECOND_CNT_OFFSET: u32 = 0x34;
pub const RTC_CYC_CNT_OFFSET: u32 = 0x38;
pub const RTC_ALARM0_SUBSECOND_OFFSET: u32 = 0x3C;
pub const RTC_ALARM1_SUBSECOND_OFFSET: u32 = 0x40;
pub const RTC_CALENDAR_R_OFFSET: u32 = 0x44;
pub const RTC_CALENDAR_R_H_OFFSET: u32 = 0x48;

pub const RTC_REG_BASE: u32 = 0x4000E000;

// ---------------------------------------------------------------------------
// UART: UART
// ---------------------------------------------------------------------------

/// Handle on one UART: the base address of its register block.
pub struct Uart(u32);

impl Uart {
    /// The handle on the block at `base`.
    pub fn new(base: u32) -> (handle: Self)
        ensures
            handle.base() == base,
    {
        Self(base)
    }

    /// The base address that the handle was made with. It cannot be changed.
    pub closed spec fn spec_base(&self) -> u32 {
        self.0
    }

    #[verifier::when_used_as_spec(spec_base)]
    pub fn base(&self) -> (base: u32)
        ensures
            base == self.spec_base(),
    {
        self.0
    }
}

/// The length of the block, in bytes.
pub const UART_BLOCK_LEN: u32 = 0x1000;

// Register offsets inside the block.
pub const UART_DR_OFFSET: u32 = 0x00;
pub const UART_RSC_ECR_OFFSET: u32 = 0x04;
pub const UART_FR_OFFSET: u32 = 0x18;
pub const UART_ILPR_OFFSET: u32 = 0x20;
pub const UART_IBRD_OFFSET: u32 = 0x24;
pub const UART_FBRD_OFFSET: u32 = 0x28;
pub const UART_LCR_H_OFFSET: u32 = 0x2C;
pub const UART_CR_OFFSET: u32 = 0x30;
pub const UART_IFLS_OFFSET: u32 = 0x34;
pub const UART_IMSC_OFFSET: u32 = 0x38;
pub const UART_RIS_OFFSET: u32 = 0x3C;
pub const UART_MIS_OFFSET: u32 = 0x40;
pub const UART_ICR_OFFSET: u32 = 0x44;
pub const UART_DMACR_OFFSET: u32 = 0x48;
/// First of 8 consecutive words.
pub const UART_ID_OFFSET: u32 = 0xFE0;

pub const UART0_BASE: u32 = PERIPH_BASE + 0x3000;
pub const UART1_BASE: u32 = PERIPH_BASE + 0x4000;
pub const UART2_BASE: u32 = PERIPH_BASE + 0x10000;
pub const UART3_BASE: u32 = PERIPH_BASE + 0x11000;

// UART CR bit definition
pub const UART_CR_SIR_LPIRDA_EN: u32 = 0x00000004;
pub const UART_CR_SIR_EN: u32 = 0x00000002;

pub const UART_CR_UART_EN: u32 = 0x00000001;

pub const UART_CR_UART_MODE: u32 = 0x00000030;
pub const UART_CR_UART_MODE_NONE: u32 = 0x00000000;
pub const UART_CR_UART_MODE_RX: u32 = 0x00000020;
pub const UART_CR_UART_MODE_TX: u32 = 0x00000010;
pub const UART_CR_UART_MODE_TXRX: u32 = 0x00000030;

pub const UART_CR_FLOW_CTRL: u32 = 0x0000C000;
pub const UART_CR_FLOW_CTRL_NONE: u32 = 0x00000000;
pub const UART_CR_FLOW_CTRL_CTS: u32 = 0x00008000;
pub const UART_CR_FLOW_CTRL_RTS: u32 = 0x00004000;
pub const UART_CR_FLOW_CTRL_CTS_RTS: u32 = 0x0000C000;

// UART LCR_H bit definition
pub const UART_LCR_H_PEN: u32 = 0x00000002;

pub const UART_LCR_H_EPS_EVEN: u32 = 0x00000004;

pub const UART_LCR_H_STOP: u32 = 0x00000008;
pub const UART_LCR_H_STOP_1: u32 = 0x00000000;
pub const UART_LCR_H_STOP_2: u32 = 0x00000008;

pub const UART_LCR_H_FEN: u32 = 0x00000010;

pub const UART_LCR_H_WLEN: u32 = 0x00000060;
pub const UART_LCR_H_WLEN_5: u32 = 0x00000000;
pub const UART_LCR_H_WLEN_6: u32 = 0x00000020;
pub const UART_LCR_H_WLEN_7: u32 = 0x00000040;
pub const UART_LCR_H_WLEN_8: u32 = 0x00000060;

// UART IFLS bit definition
pub const UART_IFLS_TX: u32 = 0x00000007;
pub const UART_IFLS_TX_1_8: u32 = 0x00000000;
pub const UART_IFLS_TX_1_4: u32 = 0x00000001;
pub const UART_IFLS_TX_1_2: u32 = 0x00000002;
pub const UART_IFLS_TX_3_4: u32 = 0x00000003;
pub const UART_IFLS_TX_7_8: u32 = 0x00000004;

pub const UART_IFLS_RX: u32 = 0x00000038;
pub const UART_IFLS_RX_1_8: u32 = 0x00000000;
pub const UART_IFLS_RX_1_4: u32 = 0x00000008;
pub const UART_IFLS_RX_1_2: u32 = 0x00000010;
pub const UART_IFLS_RX_3_4: u32 = 0x00000018;
pub const UART_IFLS_RX_7_8: u32 = 0x00000020;

// UART DMACR bit definition
pub const UART_DMACR_ONERR_EN_MASK: u32 = 0x00000004;

pub const UART_DMACR_TX_EN_MASK: u32 = 0x00000002;

pub const UART_DMACR_RX_EN_MASK: u32 = 0x00000001;

// ---------------------------------------------------------------------------
// LPUART: low-power UART
// ---------------------------------------------------------------------------

/// Handle on one low-power UART: the base address of its register block.
pub struct Lpuart(u32);

impl Lpuart {
    /// The handle on the block at `base`.
    pub fn new(base: u32) -> (handle: Self)
        ensures
            handle.base() == base,
    {
        Self(base)
    }

    /// The base address that the handle was made with. It cannot be changed.
    pub closed spec fn spec_base(&self) -> u32 {
        self.0
    }

    #[verifier::when_used_as_spec(spec_base)]
    pub fn base(&self) -> (base: u32)
        ensures
            base == self.spec_base(),
    {
        self.0
    }
}

/// The length of the block, in bytes.
pub const LPUART_BLOCK_LEN: u32 = 0x14;

// Register offsets inside the block.
pub const LPUART_CR0_OFFSET: u32 = 0x00;
pub const LPUART_CR1_OFFSET: u32 = 0x04;
pub const LPUART_SR0_OFFSET: u32 = 0x08;
pub const LPUART_SR1_OFFSET: u32 = 0x0C;
pub const LPUART_DATA_OFFSET: u32 = 0x10;

pub const LPUART_BASE: u32 = PERIPH_BASE + 0x5000;

// ---------------------------------------------------------------------------
// EFC: embedded flash controller
// ---------------------------------------------------------------------------

/// Handle on one embedded flash controller: the base address of its register block.
pub struct Efc(u32);

impl Efc {
    /// The handle on the block at `base`.
    pub fn new(base: u32) -> (handle: Self)
        ensures
            handle.base() == base,
    {
        Self(base)
    }

    /// The base address that the handle was made with. It cannot be changed.
    pub closed spec fn spec_base(&self) -> u32 {
        self.0
    }

    #[verifier::when_used_as_spec(spec_base)]
    pub fn base(&self) -> (base: u32)
        ensures
            base == self.spec_base(),
    {
        self.0
    }
}

/// The length of the block, in bytes.
pub const EFC_BLOCK_LEN: u32 = 0x50;

// Register offsets inside the block.
pub const EFC_CR_OFFSET: u32 = 0x00;
pub const EFC_INT_EN_OFFSET: u32 = 0x04;
pub const EFC_SR_OFFSET: u32 = 0x08;
pub const EFC_PROGRAM_DATA0_OFFSET: u32 = 0x0C;
pub const EFC_PROGRAM_DATA1_OFFSET: u32 = 0x10;
pub const EFC_TIMING_CFG_OFFSET: u32 = 0x14;
pub const EFC_PROTECT_SEQ_OFFSET: u32 = 0x18;
pub const EFC_CHIP_PATTERN_OFFSET: u32 = 0x20;
pub const EFC_IP_TRIM_L_OFFSET: u32 = 0x24;
pub const EFC_IP_TRIM_H_OFFSET: u32 = 0x28;
pub const EFC_SN_L_OFFSET: u32 = 0x2C;
pub const EFC_SN_H_OFFSET: u32 = 0x30;
pub const EFC_TEST_INFO_L_OFFSET: u32 = 0x34;
pub const EFC_TEST_INFO_H_OFFSET: u32 = 0x38;
pub const EFC_OPTION_CSR_BYTES_OFFSET: u32 = 0x3C;
pub const EFC_OPTION_E0_BYTES_OFFSET: u32 = 0x40;
pub const EFC_OPTION_WP_BYTES_OFFSET: u32 = 0x44;
pub const EFC_OPTION_SEC_BYTES0_OFFSET: u32 = 0x48;
pub const EFC_OPTION_SEC_BYTES1_OFFSET: u32 = 0x4C;

pub const EFC_BASE: u32 = PERIPH_BASE + 0x20000;

// EFC CR bit definition
pub const EFC_CR_INFO_LOAD_MASK: u32 = 0x80000000;

pub const EFC_CR_ECC_DISABLE_MASK: u32 = 0x00000200;

pub const EFC_CR_OPTION_OP_EN_MASK: u32 = 0x00000100;

pub const EFC_CR_FACTORY_OP_EN_MASK: u32 = 0x00000080;

pub const EFC_CR_WRITE_RELEASE_EN_MASK: u32 = 0x00000040;

pub const EFC_CR_PREFETCH_EN_MASK: u32 = 0x00000020;

pub const EFC_CR_READ_ACC_EN_MASK: u32 = 0x00000010;

pub const EFC_CR_PROG_MODE_MASK: u32 = 0x00000008;
pub const EFC_CR_PROG_MODE_DWORD: u32 = 0x00000000;
pub const EFC_CR_PROG_MODE_WLINE: u32 = 0x00000008;

pub const EFC_CR_PROG_EN_MASK: u32 = 0x00000004;

pub const EFC_CR_PAGE_ERASE_EN_MASK: u32 = 0x00000002;

pub const EFC_CR_MASS_ERASE_EN_MASK: u32 = 0x00000001;

// EFC INT_EN bit definition

// EFC TIMING_CFG bit definition
pub const EFC_TIMING_CFG_READ_NUM_MASK: u32 = 0x000F0000;

// EFC SR bit definition
pub const EFC_SR_OPTION_WRITE_ERROR: u32 = 0x00000010;

pub const EFC_SR_PROGRAM_DATA_WAIT: u32 = 0x00000004;

pub const EFC_SR_READ_NUM_DONE: u32 = 0x00000002;

pub const EFC_SR_OPERATION_DONE: u32 = 0x00000001;

// ---------------------------------------------------------------------------
// LORAC: LoRa radio controller
// ---------------------------------------------------------------------------

/// Handle on one LoRa radio controller: the base address of its register block.
pub struct Lorac(u32);

impl Lorac {
    /// The handle on the block at `base`.
    pub fn new(base: u32) -> (handle: Self)
        ensures
            handle.base() == base,
    {
        Self(base)
    }

    /// The base address that the handle was made with. It cannot be changed.
    pub closed spec fn spec_base(&self) -> u32 {
        self.0
    }

    #[verifier::when_used_as_spec(spec_base)]
    pub fn base(&self) -> (base: u32)
        ensures
            base == self.spec_base(),
    {
        self.0
    }
}

/// The length of the block, in bytes.
pub const LORAC_BLOCK_LEN: u32 = 0x11C;

// Register offsets inside the block.
pub const LORAC_SSP_CR0_OFFSET: u32 = 0x00;
pub const LORAC_SSP_CR1_OFFSET: u32 = 0x04;
pub const LORAC_SSP_DR_OFFSET: u32 = 0x08;
pub const LORAC_SSP_SR_OFFSET: u32 = 0x0C;
pub const LORAC_SSP_CPSR_OFFSET: u32 = 0x10;
pub const LORAC_SSP_IMSC_OFFSET: u32 = 0x14;
pub const LORAC_SSP_RIS_OFFSET: u32 = 0x18;
pub const LORAC_SSP_MIS_OFFSET: u32 = 0x1C;
pub const LORAC_SSP_ICR_OFFSET: u32 = 0x20;
pub const LORAC_SSP_DMA_CR_OFFSET: u32 = 0x24;
pub const LORAC_CR0_OFFSET: u32 = 0x100;
pub const LORAC_CR1_OFFSET: u32 = 0x104;
pub const LORAC_SR_OFFSET: u32 = 0x108;
pub const LORAC_NSS_CR_OFFSET: u32 = 0x10C;
pub const LORAC_SCK_CR_OFFSET: u32 = 0x110;
pub const LORAC_MOSI_CR_OFFSET: u32 = 0x114;
pub const LORAC_MISO_SR_OFFSET: u32 = 0x118;

pub const LORAC_BASE: u32 = PERIPH_BASE + 0x9000;

// ---------------------------------------------------------------------------
// AFEC: analog front-end controller
// ---------------------------------------------------------------------------

/// Handle on one analog front-end controller: the base address of its register block.
pub struct Afec(u32);

impl Afec {
    /// The handle on the block at `base`.
    pub fn new(base: u32) -> (handle: Self)
        ensures
            handle.base() == base,
    {
        Self(base)
    }

    /// The base address that the handle was made with. It cannot be changed.
    pub closed spec fn spec_base(&self) -> u32 {
        self.0
    }

    #[verifier::when_used_as_spec(spec_base)]
    pub fn base(&self) -> (base: u32)
        ensures
            base == self.spec_base(),
    {
        self.0
    }
}

/// The length of the block, in bytes.
pub const AFEC_BLOCK_LEN: u32 = 0x0C;

// Register offsets inside the block.
pub const AFEC_CR_OFFSET: u32 = 0x00;
pub const AFEC_INT_SR_OFFSET: u32 = 0x04;
pub const AFEC_RAW_SR_OFFSET: u32 = 0x08;

/// The base address of the controller's own registers. The analog control
/// words lie below them, from `AFEC_BASE` on.
pub const AFEC_STATUS_BASE: u32 = AFEC_BASE + 0x200;

pub const AFEC_RAW_SR_RCO4M_READY_MASK: u32 = 0x80000000;

pub const AFEC_RAW_SR_PLL_UNLOCK_MASK: u32 = 0x40000000;

pub const AFEC_RAW_SR_RCO24M_READY_MASK: u32 = 0x00000004;

// ---------------------------------------------------------------------------
// IWDG: independent watchdog
// ---------------------------------------------------------------------------

/// Handle on one independent watchdog: the base address of its register block.
pub struct Iwdg(u32);

impl Iwdg {
    /// The handle on the block at `base`.
    pub fn new(base: u32) -> (handle: Self)
        ensures
            handle.base() == base,
    {
        Self(base)
    }

    /// The base address that the handle was made with. It cannot be changed.
    pub closed spec fn spec_base(&self) -> u32 {
        self.0
    }

    #[verifier::when_used_as_spec(spec_base)]
    pub fn base(&self) -> (base: u32)
        ensures
            base == self.spec_base(),
    {
        self.0
    }
}

/// The length of the block, in bytes.
pub const IWDG_BLOCK_LEN: u32 = 0x1C;

// Register offsets inside the block.
pub const IWDG_CR_OFFSET: u32 = 0x00;
pub const IWDG_MAX_OFFSET: u32 = 0x04;
pub const IWDG_WIN_OFFSET: u32 = 0x08;
pub const IWDG_SR_OFFSET: u32 = 0x0C;
pub const IWDG_SR1_OFFSET: u32 = 0x10;
pub const IWDG_CR1_OFFSET: u32 = 0x14;
pub const IWDG_SR2_OFFSET: u32 = 0x18;

pub const IWDG_BASE: u32 = PERIPH_BASE + 0x1D000;

// IWDG CR bit definition
pub const IWDG_CR_RSTEN_MASK: u32 = 0x00000020;
pub const IWDG_CR_WKEN_MASK: u32 = 0x00000010;

pub const IWDG_CR_PREDIV_MASK: u32 = 0x0000000E;
pub const IWDG_CR_PREDIV_4: u32 = 0x00000000;
pub const IWDG_CR_PREDIV_8: u32 = 0x00000002;
pub const IWDG_CR_PREDIV_16: u32 = 0x00000004;
pub const IWDG_CR_PREDIV_32: u32 = 0x00000006;
pub const IWDG_CR_PREDIV_64: u32 = 0x00000008;
pub const IWDG_CR_PREDIV_128: u32 = 0x0000000A;
pub const IWDG_CR_PREDIV_256: u32 = 0x0000000C;

pub const IWDG_CR_START_MASK: u32 = 0x00000001;

// IWDG SR bit definition
pub const IWDG_SR_WRITE_SR2_DONE: u32 = 0x00000008;
pub const IWDG_SR_WIN_SET_DONE: u32 = 0x00000004;
pub const IWDG_SR_MAX_SET_DONE: u32 = 0x00000002;
pub const IWDG_SR_WRITE_CR_DONE: u32 = 0x00000001;

// IWDG SR1 bit definition
pub const IWDG_SR1_RESET_REQ_SYNC: u32 = 0x00001000;

// IWDG CR1 bit definition
pub const IWDG_CR1_RESET_REQ_RST_EN_MASK: u32 = 0x00000002;
pub const IWDG_CR1_RESET_REQ_INT_EN_MASK: u32 = 0x00000001;

// IWDG SR2 bit definition
pub const IWDG_SR2_RESET_REQ_SR_MASK: u32 = 0x00000001;

// ---------------------------------------------------------------------------
// WDG: watchdog
// ---------------------------------------------------------------------------

/// Handle on one watchdog: the base address of its register block.
pub struct Wdg(u32);

impl Wdg {
    /// The handle on the block at `base`.
    pub fn new(base: u32) -> (handle: Self)
        ensures
            handle.base() == base,
    {
        Self(base)
    }

    /// The base address that the handle was made with. It cannot be changed.
    pub closed spec fn spec_base(&self) -> u32 {
        self.0
    }

    #[verifier::when_used_as_spec(spec_base)]
    pub fn base(&self) -> (base: u32)
        ensures
            base == self.spec_base(),
    {
        self.0
    }
}

/// The length of the block, in bytes.
pub const WDG_BLOCK_LEN: u32 = 0x1000;

// Register offsets inside the block.
pub const WDG_LOAD_OFFSET: u32 = 0x00;
pub const WDG_VALUE_OFFSET: u32 = 0x04;
pub const WDG_CONTROL_OFFSET: u32 = 0x08;
pub const WDG_INTCLR_OFFSET: u32 = 0x0C;
pub const WDG_RIS_OFFSET: u32 = 0x10;
pub const WDG_MIS_OFFSET: u32 = 0x14;
pub const WDG_LOCK_OFFSET: u32 = 0xC00;
pub const WDG_ITCR_OFFSET: u32 = 0xF00;
pub const WDG_ITOP_OFFSET: u32 = 0xF04;
pub const WDG_PERIPHID4_OFFSET: u32 = 0xFD0;
pub const WDG_PERIPHID5_OFFSET: u32 = 0xFD4;
pub const WDG_PERIPHID6_OFFSET: u32 = 0xFD8;
pub const WDG_PERIPHID7_OFFSET: u32 = 0xFDC;
pub const WDG_PERIPHID0_OFFSET: u32 = 0xFE0;
pub const WDG_PERIPHID1_OFFSET: u32 = 0xFE4;
pub const WDG_PERIPHID2_OFFSET: u32 = 0xFE8;
pub const WDG_PERIPHID3_OFFSET: u32 = 0xFEC;
pub const WDG_PCELLID0_OFFSET: u32 = 0xFF0;
pub const WDG_PCELLID1_OFFSET: u32 = 0xFF4;
pub const WDG_PCELLID2_OFFSET: u32 = 0xFF8;
pub const WDG_PCELLID3_OFFSET: u32 = 0xFFC;

pub const WDG_BASE: u32 = PERIPH_BASE + 0x1E000;

// ---------------------------------------------------------------------------
// CRC: CRC unit
// ---------------------------------------------------------------------------

/// Handle on one CRC unit: the base address of its register block.
pub struct Crc(u32);

impl Crc {
    /// The handle on the block at `base`.
    pub fn new(base: u32) -> (handle: Self)
        ensures
            handle.base() == base,
    {
        Self(base)
    }

    /// The base address that the handle was made with. It cannot be changed.
    pub closed spec fn spec_base(&self) -> u32 {
        self.0
    }

    #[verifier::when_used_as_spec(spec_base)]
    pub fn base(&self) -> (base: u32)
        ensures
            base == self.spec_base(),
    {
        self.0
    }
}

/// The length of the block, in bytes.
pub const CRC_BLOCK_LEN: u32 = 0x10;

// Register offsets inside the block.
pub const CRC_CR_OFFSET: u32 = 0x00;
pub const CRC_DR_OFFSET: u32 = 0x04;
pub const CRC_INIT_OFFSET: u32 = 0x08;
pub const CRC_POLY_OFFSET: u32 = 0x0C;

pub const CRC_BASE: u32 = PERIPH_BASE + 0x22000;

// CRC CR bit definition
pub const CRC_CR_CALC_FLAG: u32 = 0x00000040;

pub const CRC_CR_CALC_INIT: u32 = 0x00000020;

pub const CRC_CR_POLY_SIZE_MASK: u32 = 0x00000018;
pub const CRC_CR_POLY_SIZE_7: u32 = 0x00000018;
pub const CRC_CR_POLY_SIZE_8: u32 = 0x00000010;
pub const CRC_CR_POLY_SIZE_16: u32 = 0x00000008;
pub const CRC_CR_POLY_SIZE_32: u32 = 0x00000000;

pub const CRC_CR_REVERSE_IN_MASK: u32 = 0x00000006;
pub const CRC_CR_REVERSE_IN_NONE: u32 = 0x00000000;
pub const CRC_CR_REVERSE_IN_BYTE: u32 = 0x00000002;
pub const CRC_CR_REVERSE_IN_HWORD: u32 = 0x00000004;
pub const CRC_CR_REVERSE_IN_WORD: u32 = 0x00000006;

pub const CRC_CR_REVERSE_OUT_EN: u32 = 0x00000001;

// ---------------------------------------------------------------------------
// I2C: I2C controller
// ---------------------------------------------------------------------------

/// Handle on one I2C controller: the base address of its register block.
pub struct I2c(u32);

impl I2c {
    /// The handle on the block at `base`.
    pub fn new(base: u32) -> (handle: Self)
        ensures
            handle.base() == base,
    {
        Self(base)
    }

    /// The base address that the handle was made with. It cannot be changed.
    pub closed spec fn spec_base(&self) -> u32 {
        self.0
    }

    #[verifier::when_used_as_spec(spec_base)]
    pub fn base(&self) -> (base: u32)
        ensures
            base == self.spec_base(),
    {
        self.0
    }
}

/// The length of the block, in bytes.
pub const I2C_BLOCK_LEN: u32 = 0x48;

// Register offsets inside the block.
pub const I2C_CR_OFFSET: u32 = 0x00;
pub const I2C_SR_OFFSET: u32 = 0x04;
pub const I2C_SAR_OFFSET: u32 = 0x08;
pub const I2C_DBR_OFFSET: u32 = 0x0C;
pub const I2C_LCR_OFFSET: u32 = 0x10;
pub const I2C_WCR_OFFSET: u32 = 0x14;
pub const I2C_RST_CYCL_OFFSET: u32 = 0x18;
pub const I2C_BMR_OFFSET: u32 = 0x1C;
pub const I2C_WFIFO_OFFSET: u32 = 0x20;
pub const I2C_WFIFO_WPRT_OFFSET: u32 = 0x24;
pub const I2C_WFIFO_RPTR_OFFSET: u32 = 0x28;
pub const I2C_RFIFO_OFFSET: u32 = 0x2C;
pub const I2C_RFIFO_WPTR_OFFSET: u32 = 0x30;
pub const I2C_RFIFO_RPTR_OFFSET: u32 = 0x34;
pub const I2C_WFIFO_STATUS_OFFSET: u32 = 0x40;
pub const I2C_RFIFO_STATUS_OFFSET: u32 = 0x44;

pub const I2C0_BASE: u32 = PERIPH_BASE + 0x7000;
pub const I2C1_BASE: u32 = PERIPH_BASE + 0x14000;
pub const I2C2_BASE: u32 = PERIPH_BASE + 0x15000;

pub const I2C_CR_RFIFO_OVERRUN_INTR_EN_MASK: u32 = 0x80000000;
pub const I2C_CR_RFIFO_FULL_INTR_EN_MASK: u32 = 0x40000000;
pub const I2C_CR_RFIFO_HALFFULL_INTR_EN_MASK: u32 = 0x20000000;
pub const I2C_CR_TFIFO_EMPTY_INTR_EN_MASK: u32 = 0x10000000;
pub const I2C_CR_TRANS_DONE_INTR_EN_MASK: u32 = 0x08000000;
pub const I2C_CR_MASTER_STOP_DET_EN_MASK: u32 = 0x04000000;
pub const I2C_CR_MASTER_STOP_DET_INTR_EN_MASK: u32 = 0x02000000;
pub const I2C_CR_SLAVE_STOP_DET_INTR_EN_MASK: u32 = 0x01000000;
pub const I2C_CR_SLAVE_ADDR_DET_INTR_EN_MASK: u32 = 0x00800000;
pub const I2C_CR_BUS_ERROR_INTR_EN_MASK: u32 = 0x00400000;
pub const I2C_CR_GENERAL_CALL_DIS_MASK: u32 = 0x00200000;
pub const I2C_CR_DBR_FULL_INTR_EN_MASK: u32 = 0x00100000;
pub const I2C_CR_IDBR_EMPTY_INTR_EN_MASK: u32 = 0x00080000;
pub const I2C_CR_ARB_LOSS_DET_INTR_EN_MASK: u32 = 0x00040000;

pub const I2C_CR_TWSI_UNIT_EN_MASK: u32 = 0x00004000;
pub const I2C_CR_SCL_EN_MASK: u32 = 0x00002000;
pub const I2C_CR_MASTER_ABORT_MASK: u32 = 0x00001000;
pub const I2C_CR_BUS_RESET_REQUEST_MASK: u32 = 0x00000800;
pub const I2C_CR_UNIT_RESET_MASK: u32 = 0x00000400;

pub const I2C_CR_BUS_MODE_MASK: u32 = 0x00000300;
pub const I2C_CR_BUS_MODE_STANDARD: u32 = 0x00000000;
pub const I2C_CR_BUS_MODE_FAST: u32 = 0x00000100;
pub const I2C_CR_BUS_MODE_HIGH: u32 = 0x00000200;

pub const I2C_CR_DMA_EN_MASK: u32 = 0x00000080;

pub const I2C_CR_FIFO_EN_MASK: u32 = 0x00000020;

pub const I2C_CR_TRANS_BEGIN_MASK: u32 = 0x00000010;
pub const I2C_CR_TRANS_BYTE_MASK: u32 = 0x00000008;
pub const I2C_CR_ACKNAK_MASK: u32 = 0x00000004;
pub const I2C_CR_STOP_MASK: u32 = 0x00000002;
pub const I2C_CR_START_MASK: u32 = 0x00000001;

// I2C SR bit definition
pub const I2C_SR_RFIFO_OVERRUN_MASK: u32 = 0x80000000;
pub const I2C_SR_RFIFO_FULL_MASK: u32 = 0x40000000;
pub const I2C_SR_RFIFO_HALFFULL_MASK: u32 = 0x20000000;
pub const I2C_SR_TFIFO_EMPTY_MASK: u32 = 0x10000000;
pub const I2C_SR_TRANS_DONE_MASK: u32 = 0x08000000;
pub const I2C_SR_MASTER_STOP_DET_MASK: u32 = 0x02000000;
pub const I2C_SR_SLAVE_STOP_DET_MASK: u32 = 0x01000000;
pub const I2C_SR_SLAVE_ADDR_DET_MASK: u32 = 0x00800000;
pub const I2C_SR_BUS_ERROR_MASK: u32 = 0x00400000;
pub const I2C_SR_GENERAL_CALL_MASK: u32 = 0x00200000;
pub const I2C_SR_DBR_FULL_MASK: u32 = 0x00100000;
pub const I2C_SR_IDBR_EMPTY_MASK: u32 = 0x00080000;
pub const I2C_SR_ARB_LOSS_DET_MASK: u32 = 0x00040000;

pub const I2C_SR_BUS_BUSY_MASK: u32 = 0x00010000;
pub const I2C_SR_UNIT_BUSY_MASK: u32 = 0x00008000;
pub const I2C_SR_ACK_STATUS_MASK: u32 = 0x00004000;
pub const I2C_SR_RW_MODE_MASK: u32 = 0x00002000;

// I2C WFIFO bit definition
pub const I2C_WFIFO_CONTROL_TB_MASK: u32 = 0x00000800;
pub const I2C_WFIFO_CONTROL_ACKNAK_MASK: u32 = 0x00000400;
pub const I2C_WFIFO_CONTROL_STOP_MASK: u32 = 0x00000200;
pub const I2C_WFIFO_CONTROL_START_MASK: u32 = 0x00000100;

// I2C WFIFO_STATUS bit definition
pub const I2C_WFIFO_STATUS_SIZE_MASK: u32 = 0x0000003C;
pub const I2C_WFIFO_STATUS_EMPTY_MASK: u32 = 0x00000002;
pub const I2C_WFIFO_STATUS_FULL_MASK: u32 = 0x00000001;

// I2C RFIFO_STATUS bit definition
pub const I2C_RFIFO_STATUS_SIZE_MASK: u32 = 0x000000F0;
pub const I2C_RFIFO_STATUS_EMPTY_MASK: u32 = 0x00000004;
pub const I2C_RFIFO_STATUS_FULL_MASK: u32 = 0x00000003;
pub const I2C_RFIFO_STATUS_HFULL_MASK: u32 = 0x00000002;
pub const I2C_RFIFO_STATUS_OVERUN_MASK: u32 = 0x00000001;

// ---------------------------------------------------------------------------
// SYSCFG: system configuration block
// ---------------------------------------------------------------------------

/// Handle on one system configuration block: the base address of its register block.
pub struct Syscfg(u32);

impl Syscfg {
    /// The handle on the block at `base`.
    pub fn new(base: u32) -> (handle: Self)
        ensures
            handle.base() == base,
    {
        Self(base)
    }

    /// The base address that the handle was made with. It cannot be changed.
    pub closed spec fn spec_base(&self) -> u32 {
        self.0
    }

    #[verifier::when_used_as_spec(spec_base)]
    pub fn base(&self) -> (base: u32)
        ensures
            base == self.spec_base(),
    {
        self.0
    }
}

/// The length of the block, in bytes.
pub const SYSCFG_BLOCK_LEN: u32 = 0x2C;

// Register offsets inside the block.
pub const SYSCFG_CR0_OFFSET: u32 = 0x00;
pub const SYSCFG_CR1_OFFSET: u32 = 0x04;
pub const SYSCFG_CR2_OFFSET: u32 = 0x08;
pub const SYSCFG_CR3_OFFSET: u32 = 0x0C;
pub const SYSCFG_CR4_OFFSET: u32 = 0x10;
pub const SYSCFG_CR5_OFFSET: u32 = 0x14;
pub const SYSCFG_CR6_OFFSET: u32 = 0x18;
pub const SYSCFG_CR7_OFFSET: u32 = 0x1C;
pub const SYSCFG_CR8_OFFSET: u32 = 0x20;
pub const SYSCFG_CR9_OFFSET: u32 = 0x24;
pub const SYSCFG_CR10_OFFSET: u32 = 0x28;

pub const SYSCFG_BASE: u32 = PERIPH_BASE + 0x1000;

// ---------------------------------------------------------------------------
// PWR: power controller
// ---------------------------------------------------------------------------

/// Handle on one power controller: the base address of its register block.
pub struct Pwr(u32);

impl Pwr {
    /// The handle on the block at `base`.
    pub fn new(base: u32) -> (handle: Self)
        ensures
            handle.base() == base,
    {
        Self(base)
    }

    /// The base address that the handle was made with. It cannot be changed.
    pub closed spec fn spec_base(&self) -> u32 {
        self.0
    }

    #[verifier::when_used_as_spec(spec_base)]
    pub fn base(&self) -> (base: u32)
        ensures
            base == self.spec_base(),
    {
        self.0
    }
}

/// The length of the block, in bytes.
pub const PWR_BLOCK_LEN: u32 = 0x20;

// Register offsets inside the block.
/// Control register 0.
pub const PWR_CR0_OFFSET: u32 = 0x00;
/// Control register 1.
pub const PWR_CR1_OFFSET: u32 = 0x04;
/// Status register 0.
pub const PWR_SR0_OFFSET: u32 = 0x08;
/// Status register 1.
pub const PWR_SR1_OFFSET: u32 = 0x0C;
/// Control register 2.
pub const PWR_CR2_OFFSET: u32 = 0x10;
/// Control register 3.
pub const PWR_CR3_OFFSET: u32 = 0x14;
/// Control register 4.
pub const PWR_CR4_OFFSET: u32 = 0x18;
/// Control register 5.
pub const PWR_CR5_OFFSET: u32 = 0x1C;

pub const PWR_BASE: u32 = PERIPH_BASE + 0x1800;

// ---------------------------------------------------------------------------
// TIMER: general-purpose timer
// ---------------------------------------------------------------------------

/// Handle on one general-purpose timer: the base address of its register block.
pub struct TimerGp(u32);

impl TimerGp {
    /// The handle on the block at `base`.
    pub fn new(base: u32) -> (handle: Self)
        ensures
            handle.base() == base,
    {
        Self(base)
    }

    /// The base address that the handle was made with. It cannot be changed.
    pub closed spec fn spec_base(&self) -> u32 {
        self.0
    }

    #[verifier::when_used_as_spec(spec_base)]
    pub fn base(&self) -> (base: u32)
        ensures
            base == self.spec_base(),
    {
        self.0
    }
}

/// The length of the block, in bytes.
pub const TIMER_BLOCK_LEN: u32 = 0x54;

// Register offsets inside the block.
/// TIMER control register 1.
pub const TIMER_CR1_OFFSET: u32 = 0x00;
/// TIMER control register 2.
pub const TIMER_CR2_OFFSET: u32 = 0x04;
/// TIMER slave mode control register.
pub const TIMER_SMCR_OFFSET: u32 = 0x08;
/// TIMER DMA/interrupt enable register. The word behind it, at 0x10, has no
/// name in this map.
pub const TIMER_DIER_OFFSET: u32 = 0x0C;
/// TIMER event generation register.
pub const TIMER_EGR_OFFSET: u32 = 0x14;
/// TIMER capture/compare mode register 1.
pub const TIMER_CCMR1_OFFSET: u32 = 0x18;
/// TIMER capture/compare mode register 2.
pub const TIMER_CCMR2_OFFSET: u32 = 0x1C;
/// TIMER capture/compare enable register.
pub const TIMER_CCER_OFFSET: u32 = 0x20;
/// TIMER counter register.
pub const TIMER_CNT_OFFSET: u32 = 0x24;
/// TIMER prescaler register.
pub const TIMER_PSC_OFFSET: u32 = 0x28;
/// TIMER auto-reload register.
pub const TIMER_ARR_OFFSET: u32 = 0x2C;
/// TIMER capture/compare register 0.
pub const TIMER_CCR0_OFFSET: u32 = 0x34;
/// TIMER capture/compare register 1.
pub const TIMER_CCR1_OFFSET: u32 = 0x38;
/// TIMER capture/compare register 2.
pub const TIMER_CCR2_OFFSET: u32 = 0x3C;
/// TIMER capture/compare register 3.
pub const TIMER_CCR3_OFFSET: u32 = 0x40;
/// TIMER DMA control register.
pub const TIMER_DCR_OFFSET: u32 = 0x48;
/// TIMER DMA address for full transfer register.
pub const TIMER_DMAR_OFFSET: u32 = 0x4C;
/// TIMER option register.
pub const TIMER_OR_OFFSET: u32 = 0x50;

pub const TIMER0_SFR_BASE: u32 = 0x4000A000;
pub const TIMER1_SFR_BASE: u32 = 0x4001A000;
pub const TIMER2_SFR_BASE: u32 = 0x4000B000;
pub const TIMER3_SFR_BASE: u32 = 0x4001B000;

// ---------------------------------------------------------------------------
// LPTIMER: low-power timer
// ---------------------------------------------------------------------------

/// Handle on one low-power timer: the base address of its register block.
pub struct Lptimer(u32);

impl Lptimer {
    /// The handle on the block at `base`.
    pub fn new(base: u32) -> (handle: Self)
        ensures
            handle.base() == base,
    {
        Self(base)
    }

    /// The base address that the handle was made with. It cannot be changed.
    pub closed spec fn spec_base(&self) -> u32 {
        self.0
    }

    #[verifier::when_used_as_spec(spec_base)]
    pub fn base(&self) -> (base: u32)
        ensures
            base == self.spec_base(),
    {
        self.0
    }
}

/// The length of the block, in bytes.
pub const LPTIMER_BLOCK_LEN: u32 = 0x28;

// Register offsets inside the block.
/// LPTIMER flag and status register.
pub const LPTIMER_ISR_OFFSET: u32 = 0x00;
/// LPTIMER flag clear register.
pub const LPTIMER_ICR_OFFSET: u32 = 0x04;
/// LPTIMER interrupt enable register.
pub const LPTIMER_IER_OFFSET: u32 = 0x08;
/// LPTIMER configuration register.
pub const LPTIMER_CFGR_OFFSET: u32 = 0x0C;
/// LPTIMER control register.
pub const LPTIMER_CR_OFFSET: u32 = 0x10;
/// LPTIMER compare register.
pub const LPTIMER_COMPARE_OFFSET: u32 = 0x14;
/// LPTIMER autoreload register.
pub const LPTIMER_ARR_OFFSET: u32 = 0x18;
/// LPTIMER counter register.
pub const LPTIMER_CNT_OFFSET: u32 = 0x1C;
/// LPTIMER CSR register.
pub const LPTIMER_CSR_OFFSET: u32 = 0x20;
/// LPTIMER SR1 register.
pub const LPTIMER_SR1_OFFSET: u32 = 0x24;

pub const LPTIMER0_SFR_BASE: u32 = 0x4000D000;
pub const LPTIMER1_SFR_BASE: u32 = 0x4000D800;

// ---------------------------------------------------------------------------
// I2S: I2S controller
// ---------------------------------------------------------------------------

/// Handle on one I2S controller: the base address of its register block.
pub struct I2s(u32);

impl I2s {
    /// The handle on the block at `base`.
    pub fn new(base: u32) -> (handle: Self)
        ensures
            handle.base() == base,
    {
        Self(base)
    }

    /// The base address that the handle was made with. It cannot be changed.
    pub closed spec fn spec_base(&self) -> u32 {
        self.0
    }

    #[verifier::when_used_as_spec(spec_base)]
    pub fn base(&self) -> (base: u32)
        ensures
            base == self.spec_base(),
    {
        self.0
    }
}

/// The length of the block, in bytes.
pub const I2S_BLOCK_LEN: u32 = 0x200;

// Register offsets inside the block.
/// Enable register.
pub const I2S_IER_OFFSET: u32 = 0x00;
/// Receiver block enable register.
pub const I2S_IRER_OFFSET: u32 = 0x04;
/// Transmitter block enable register.
pub const I2S_ITER_OFFSET: u32 = 0x08;
/// Clock enable register.
pub const I2S_CER_OFFSET: u32 = 0x0C;
/// Clock configuration register.
pub const I2S_CCR_OFFSET: u32 = 0x10;
/// Receiver block FIFO reset register.
pub const I2S_RXFFR_OFFSET: u32 = 0x14;
/// Transmitter block FIFO reset register.
pub const I2S_TXFFR_OFFSET: u32 = 0x18;
/// Right receive buffer register.
pub const I2S_LRBR_LTHR_OFFSET: u32 = 0x20;
/// Right transmit holding register.
pub const I2S_RRBR_RTHR_OFFSET: u32 = 0x24;
/// Receiver enable register.
pub const I2S_RER_OFFSET: u32 = 0x28;
/// Transmitter enable register.
pub const I2S_TER_OFFSET: u32 = 0x2C;
/// Receiver configuration register.
pub const I2S_RCR_OFFSET: u32 = 0x30;
/// Transmitter configuration register.
pub const I2S_TCR_OFFSET: u32 = 0x34;
/// Interrupt status register.
pub const I2S_ISR_OFFSET: u32 = 0x38;
/// Interrupt mask register.
pub const I2S_IMR_OFFSET: u32 = 0x3C;
/// Receiver overrun register.
pub const I2S_ROR_OFFSET: u32 = 0x40;
/// Transmitter overrun register.
pub const I2S_TOR_OFFSET: u32 = 0x44;
/// Receiver FIFO configuration register.
pub const I2S_RFCR_OFFSET: u32 = 0x48;
/// Transmitter FIFO configuration register.
pub const I2S_TFCR_OFFSET: u32 = 0x4C;
/// Receiver FIFO flush register.
pub const I2S_RFF_OFFSET: u32 = 0x50;
/// Transmitter FIFO flush register.
pub const I2S_TFF_OFFSET: u32 = 0x54;
/// Receiver block dma register.
pub const I2S_RXDMA_OFFSET: u32 = 0x1C0;
/// Reset receiver block dma register.
pub const I2S_RRXDMA_OFFSET: u32 = 0x1C4;
/// Transmitter block dma register.
pub const I2S_TXDMA_OFFSET: u32 = 0x1C8;
/// Reset transmitter block dma register.
pub const I2S_RTXDMA_OFFSET: u32 = 0x1CC;
/// Component parameter register 2.
pub const I2S_COMP_PARAM_2_OFFSET: u32 = 0x1F0;
/// Component parameter register 1.
pub const I2S_COMP_PARAM_1_OFFSET: u32 = 0x1F4;
/// Component version register.
pub const I2S_COMP_VERSION_OFFSET: u32 = 0x1F8;
/// Component type register.
pub const I2S_COMP_TYPE_OFFSET: u32 = 0x1FC;

pub const I2S_BASE: u32 = 0x40002000;

// ---------------------------------------------------------------------------
// BSTIMER: basic timer
// ---------------------------------------------------------------------------

/// Handle on one basic timer: the base address of its register block.
pub struct Bstimer(u32);

impl Bstimer {
    /// The handle on the block at `base`.
    pub fn new(base: u32) -> (handle: Self)
        ensures
            handle.base() == base,
    {
        Self(base)
    }

    /// The base address that the handle was made with. It cannot be changed.
    pub closed spec fn spec_base(&self) -> u32 {
        self.0
    }

    #[verifier::when_used_as_spec(spec_base)]
    pub fn base(&self) -> (base: u32)
        ensures
            base == self.spec_base(),
    {
        self.0
    }
}

/// The length of the block, in bytes.
pub const BSTIMER_BLOCK_LEN: u32 = 0x30;

// Register offsets inside the block.
pub const BSTIMER_CR1_OFFSET: u32 = 0x00;
pub const BSTIMER_CR2_OFFSET: u32 = 0x04;
pub const BSTIMER_DIER_OFFSET: u32 = 0x0C;
pub const BSTIMER_SR_OFFSET: u32 = 0x10;
pub const BSTIMER_EGR_OFFSET: u32 = 0x14;
pub const BSTIMER_CNT_OFFSET: u32 = 0x24;
pub const BSTIMER_PSC_OFFSET: u32 = 0x28;
pub const BSTIMER_ARR_OFFSET: u32 = 0x2C;

pub const BSTIMER0_SFR_BASE: u32 = 0x4000C000;
pub const BSTIMER1_SFR_BASE: u32 = 0x4001C000;

// ---------------------------------------------------------------------------
// SEC: security monitor
// ---------------------------------------------------------------------------

/// Handle on one security monitor: the base address of its register block.
pub struct Sec(u32);

impl Sec {
    /// The handle on the block at `base`.
    pub fn new(base: u32) -> (handle: Self)
        ensures
            handle.base() == base,
    {
        Self(base)
    }

    /// The base address that the handle was made with. It cannot be changed.
    pub closed spec fn spec_base(&self) -> u32 {
        self.0
    }

    #[verifier::when_used_as_spec(spec_base)]
    pub fn base(&self) -> (base: u32)
        ensures
            base == self.spec_base(),
    {
        self.0
    }
}

/// The length of the block, in bytes.
pub const SEC_BLOCK_LEN: u32 = 0x1C;

// Register offsets inside the block.
pub const SEC_INT_OFFSET: u32 = 0x00;
pub const SEC_RST_OFFSET: u32 = 0x04;
pub const SEC_SR_OFFSET: u32 = 0x08;
pub const SEC_FILTER0_OFFSET: u32 = 0x0C;
pub const SEC_FILTER1_OFFSET: u32 = 0x10;
pub const SEC_FILTER2_OFFSET: u32 = 0x14;
pub const SEC_FILTER3_OFFSET: u32 = 0x18;

pub const SEC_BASE: u32 = 0x4000F000;

pub const SEC_SR_FLASH_ACCESS_ERROR_MASK: u32 = 0x00001000;

// ---------------------------------------------------------------------------
// QSPI: quad SPI controller
// ---------------------------------------------------------------------------

/// Handle on one quad SPI controller: the base address of its register block.
pub struct Qspi(u32);

impl Qspi {
    /// The handle on the block at `base`.
    pub fn new(base: u32) -> (handle: Self)
        ensures
            handle.base() == base,
    {
        Self(base)
    }

    /// The base address that the handle was made with. It cannot be changed.
    pub closed spec fn spec_base(&self) -> u32 {
        self.0
    }

    #[verifier::when_used_as_spec(spec_base)]
    pub fn base(&self) -> (base: u32)
        ensures
            base == self.spec_base(),
    {
        self.0
    }
}

/// The length of the block, in bytes.
pub const QSPI_BLOCK_LEN: u32 = 0x94;

// Register offsets inside the block.
pub const QSPI_CR_OFFSET: u32 = 0x00;
pub const QSPI_DCR_OFFSET: u32 = 0x04;
pub const QSPI_SR_OFFSET: u32 = 0x08;
pub const QSPI_FCR_OFFSET: u32 = 0x0C;
pub const QSPI_DLR_OFFSET: u32 = 0x10;
pub const QSPI_CCR_OFFSET: u32 = 0x14;
pub const QSPI_AR_OFFSET: u32 = 0x18;
pub const QSPI_ABR_OFFSET: u32 = 0x1C;
pub const QSPI_DR_OFFSET: u32 = 0x20;
pub const QSPI_PSMKR_OFFSET: u32 = 0x24;
pub const QSPI_PSMAR_OFFSET: u32 = 0x28;
pub const QSPI_PIR_OFFSET: u32 = 0x2C;
pub const QSPI_TOR_OFFSET: u32 = 0x30;
pub const QSPI_HIT0R_OFFSET: u32 = 0x80;
pub const QSPI_HIT1R_OFFSET: u32 = 0x84;
pub const QSPI_MIR_OFFSET: u32 = 0x88;
pub const QSPI_CFGR_OFFSET: u32 = 0x8C;
pub const QSPI_SBUS_START_OFFSET: u32 = 0x90;

pub const QSPI_BASE: u32 = 0x40021000;

// ---------------------------------------------------------------------------
// DAC: DAC
// ---------------------------------------------------------------------------

/// Handle on one DAC: the base address of its register block.
pub struct Dac(u32);

impl Dac {
    /// The handle on the block at `base`.
    pub fn new(base: u32) -> (handle: Self)
        ensures
            handle.base() == base,
    {
        Self(base)
    }

    /// The base address that the handle was made with. It cannot be changed.
    pub closed spec fn spec_base(&self) -> u32 {
        self.0
    }

    #[verifier::when_used_as_spec(spec_base)]
    pub fn base(&self) -> (base: u32)
        ensures
            base == self.spec_base(),
    {
        self.0
    }
}

/// The length of the block, in bytes.
pub const DAC_BLOCK_LEN: u32 = 0x14;

// Register offsets inside the block.
pub const DAC_CR_OFFSET: u32 = 0x00;
pub const DAC_SWTRIGR_OFFSET: u32 = 0x04;
pub const DAC_DHR_OFFSET: u32 = 0x08;
pub const DAC_DOR_OFFSET: u32 = 0x0C;
pub const DAC_SR_OFFSET: u32 = 0x10;

pub const DAC_BASE: u32 = 0x40019000;

pub const DAC_CR_INTR_EMPTY_EN_MASK: u32 = 0x00010000;
pub const DAC_CR_INTR_UNDERFLOW_EN_MASK: u32 = 0x00008000;

pub const DAC_CR_DMA_EN_MASK: u32 = 0x00004000;

pub const DAC_CR_MASK_AMP_SEL_MASK: u32 = 0x00003C00;
pub const DAC_CR_MASK_AMP_SEL_1: u32 = 0x00000000;
pub const DAC_CR_MASK_AMP_SEL_3: u32 = 0x00000400;
pub const DAC_CR_MASK_AMP_SEL_7: u32 = 0x00000800;
pub const DAC_CR_MASK_AMP_SEL_15: u32 = 0x00000C00;
pub const DAC_CR_MASK_AMP_SEL_31: u32 = 0x00001000;
pub const DAC_CR_MASK_AMP_SEL_63: u32 = 0x00001400;
pub const DAC_CR_MASK_AMP_SEL_127: u32 = 0x00001800;
pub const DAC_CR_MASK_AMP_SEL_255: u32 = 0x00001C00;
pub const DAC_CR_MASK_AMP_SEL_511: u32 = 0x00002000;
pub const DAC_CR_MASK_AMP_SEL_1023: u32 = 0x00002400;

pub const DAC_CR_WAVE_SEL_MASK: u32 = 0x00000300;
pub const DAC_CR_WAVE_SEL_NONE: u32 = 0x00000000;
pub const DAC_CR_WAVE_SEL_NOISE: u32 = 0x00000100;
pub const DAC_CR_WAVE_SEL_TRIANGLE: u32 = 0x00000200;

pub const DAC_CR_TRIG_TYPE_SEL_MASK: u32 = 0x000000C0;
pub const DAC_CR_TRIG_TYPE_SEL_RISING_EDGE: u32 = 0x00000000;
pub const DAC_CR_TRIG_TYPE_SEL_FALLING_EDGE: u32 = 0x00000040;
pub const DAC_CR_TRIG_TYPE_SEL_RISING_FALLING_EDGE: u32 = 0x00000080;

pub const DAC_CR_TRIG_SRC_SEL_MASK: u32 = 0x00000038;
pub const DAC_CR_TRIG_SRC_SEL_GPTIMER1_TRGO: u32 = 0x00000000;
pub const DAC_CR_TRIG_SRC_SEL_GPTIMER0_TRGO: u32 = 0x00000008;
pub const DAC_CR_TRIG_SRC_SEL_BSTIMER1_TRGO: u32 = 0x00000010;
pub const DAC_CR_TRIG_SRC_SEL_BSTIMER0_TRGO: u32 = 0x00000018;
pub const DAC_CR_TRIG_SRC_SEL_GPIO6: u32 = 0x00000020;
pub const DAC_CR_TRIG_SRC_SEL_GPIO24: u32 = 0x00000028;
pub const DAC_CR_TRIG_SRC_SEL_GPIO43: u32 = 0x00000030;
pub const DAC_CR_TRIG_SRC_SEL_SOFTWARE: u32 = 0x00000038;

pub const DAC_CR_TRIG_EN_MASK: u32 = 0x00000004;

pub const DAC_CR_DAC_EN_MASK: u32 = 0x00000001;

// ---------------------------------------------------------------------------
// ADC: ADC
// ---------------------------------------------------------------------------

/// Handle on one ADC: the base address of its register block.
pub struct Adc(u32);

impl Adc {
    /// The handle on the block at `base`.
    pub fn new(base: u32) -> (handle: Self)
        ensures
            handle.base() == base,
    {
        Self(base)
    }

    /// The base address that the handle was made with. It cannot be changed.
    pub closed spec fn spec_base(&self) -> u32 {
        self.0
    }

    #[verifier::when_used_as_spec(spec_base)]
    pub fn base(&self) -> (base: u32)
        ensures
            base == self.spec_base(),
    {
        self.0
    }
}

/// The length of the block, in bytes.
pub const ADC_BLOCK_LEN: u32 = 0x2C;

// Register offsets inside the block.
pub const ADC_CR_OFFSET: u32 = 0x00;
pub const ADC_CFGR_OFFSET: u32 = 0x04;
pub const ADC_SEQR0_OFFSET: u32 = 0x08;
pub const ADC_SEQR1_OFFSET: u32 = 0x0C;
pub const ADC_DIFFSEL_OFFSET: u32 = 0x10;
pub const ADC_ISR_OFFSET: u32 = 0x14;
pub const ADC_IER_OFFSET: u32 = 0x18;
pub const ADC_DR_OFFSET: u32 = 0x1C;
pub const ADC_AWD0_CFGR_OFFSET: u32 = 0x20;
pub const ADC_AWD1_CFGR_OFFSET: u32 = 0x24;
pub const ADC_AWD2_CFGR_OFFSET: u32 = 0x28;

pub const ADC_BASE: u32 = 0x40017000;

// ---------------------------------------------------------------------------
// LCD: LCD controller
// ---------------------------------------------------------------------------

/// Handle on one LCD controller: the base address of its register block.
pub struct Lcd(u32);

impl Lcd {
    /// The handle on the block at `base`.
    pub fn new(base: u32) -> (handle: Self)
        ensures
            handle.base() == base,
    {
        Self(base)
    }

    /// The base address that the handle was made with. It cannot be changed.
    pub closed spec fn spec_base(&self) -> u32 {
        self.0
    }

    #[verifier::when_used_as_spec(spec_base)]
    pub fn base(&self) -> (base: u32)
        ensures
            base == self.spec_base(),
    {
        self.0
    }
}

/// The length of the block, in bytes.
pub const LCD_BLOCK_LEN: u32 = 0x30;

// Register offsets inside the block.
pub const LCD_CR0_OFFSET: u32 = 0x00;
pub const LCD_CR1_OFFSET: u32 = 0x04;
pub const LCD_DR0_OFFSET: u32 = 0x08;
pub const LCD_DR1_OFFSET: u32 = 0x0C;
pub const LCD_DR2_OFFSET: u32 = 0x10;
pub const LCD_DR3_OFFSET: u32 = 0x14;
pub const LCD_DR4_OFFSET: u32 = 0x18;
pub const LCD_DR5_OFFSET: u32 = 0x1C;
pub const LCD_DR6_OFFSET: u32 = 0x20;
pub const LCD_DR7_OFFSET: u32 = 0x24;
pub const LCD_SR_OFFSET: u32 = 0x28;
pub const LCD_CR2_OFFSET: u32 = 0x2C;

pub const LCD_BASE: u32 = 0x40018000;

// ---------------------------------------------------------------------------
// Laws of the map
// ---------------------------------------------------------------------------

/// Two registers of one block with different offsets have different
/// addresses, also where the block wraps round the top of the address space.
pub proof fn lemma_reg_addr_injective(base: u32, first: u32, second: u32)
    requires
        first != second,
    ensures
        reg_addr(base, first) != reg_addr(base, second),
{
}

/// Whether a field value has no bit outside the mask of its field.
pub open spec fn fits(value: u32, mask: u32) -> bool {
    value & !mask == 0
}

/// Every value that the map names for a field fits the mask of that field.
pub proof fn lemma_field_values_fit()
    ensures
        fits(RCC_CR0_STCLKEN_SEL_XO32K, RCC_CR0_STCLKEN_SEL_MASK),
        fits(RCC_CR0_STCLKEN_SEL_RCO32K, RCC_CR0_STCLKEN_SEL_MASK),
        fits(RCC_CR0_MCO_CLK_DIV_1, RCC_CR0_MCO_CLK_DIV_MASK),
        fits(RCC_CR0_MCO_CLK_DIV_2, RCC_CR0_MCO_CLK_DIV_MASK),
        fits(RCC_CR0_MCO_CLK_DIV_4, RCC_CR0_MCO_CLK_DIV_MASK),
        fits(RCC_CR0_MCO_CLK_DIV_8, RCC_CR0_MCO_CLK_DIV_MASK),
        fits(RCC_CR0_MCO_CLK_DIV_16, RCC_CR0_MCO_CLK_DIV_MASK),
        fits(RCC_CR0_MCO_CLK_SEL_RCO32K, RCC_CR0_MCO_CLK_SEL_MASK),
        fits(RCC_CR0_MCO_CLK_SEL_XO32K, RCC_CR0_MCO_CLK_SEL_MASK),
        fits(RCC_CR0_MCO_CLK_SEL_RCO4M, RCC_CR0_MCO_CLK_SEL_MASK),
        fits(RCC_CR0_MCO_CLK_SEL_XO24M, RCC_CR0_MCO_CLK_SEL_MASK),
        fits(RCC_CR0_MCO_CLK_SEL_XO32M, RCC_CR0_MCO_CLK_SEL_MASK),
        fits(RCC_CR0_MCO_CLK_SEL_RCO48M, RCC_CR0_MCO_CLK_SEL_MASK),
        fits(RCC_CR0_MCO_CLK_SEL_PLL, RCC_CR0_MCO_CLK_SEL_MASK),
        fits(RCC_CR0_MCO_CLK_SEL_SYSCLCK, RCC_CR0_MCO_CLK_SEL_MASK),
        fits(RCC_CR0_PCLK1_DIV_1, RCC_CR0_PCLK1_DIV_MASK),
        fits(RCC_CR0_PCLK1_DIV_2, RCC_CR0_PCLK1_DIV_MASK),
        fits(RCC_CR0_PCLK1_DIV_4, RCC_CR0_PCLK1_DIV_MASK),
        fits(RCC_CR0_PCLK1_DIV_8, RCC_CR0_PCLK1_DIV_MASK),
        fits(RCC_CR0_PCLK1_DIV_16, RCC_CR0_PCLK1_DIV_MASK),
        fits(RCC_CR0_SYSCLK_SEL_RCO48M_DIV2, RCC_CR0_SYSCLK_SEL_MASK),
        fits(RCC_CR0_SYSCLK_SEL_RCO32K, RCC_CR0_SYSCLK_SEL_MASK),
        fits(RCC_CR0_SYSCLK_SEL_XO32K, RCC_CR0_SYSCLK_SEL_MASK),
        fits(RCC_CR0_SYSCLK_SEL_PLL, RCC_CR0_SYSCLK_SEL_MASK),
        fits(RCC_CR0_SYSCLK_SEL_XO24M, RCC_CR0_SYSCLK_SEL_MASK),
        fits(RCC_CR0_SYSCLK_SEL_XO32M, RCC_CR0_SYSCLK_SEL_MASK),
        fits(RCC_CR0_SYSCLK_SEL_RCO4M, RCC_CR0_SYSCLK_SEL_MASK),
        fits(RCC_CR0_SYSCLK_SEL_RCO48M, RCC_CR0_SYSCLK_SEL_MASK),
        fits(RCC_CR0_HCLK_DIV_1, RCC_CR0_HCLK_DIV_MASK),
        fits(RCC_CR0_HCLK_DIV_2, RCC_CR0_HCLK_DIV_MASK),
        fits(RCC_CR0_HCLK_DIV_4, RCC_CR0_HCLK_DIV_MASK),
        fits(RCC_CR0_HCLK_DIV_8, RCC_CR0_HCLK_DIV_MASK),
        fits(RCC_CR0_HCLK_DIV_16, RCC_CR0_HCLK_DIV_MASK),
        fits(RCC_CR0_HCLK_DIV_32, RCC_CR0_HCLK_DIV_MASK),
        fits(RCC_CR0_HCLK_DIV_64, RCC_CR0_HCLK_DIV_MASK),
        fits(RCC_CR0_HCLK_DIV_128, RCC_CR0_HCLK_DIV_MASK),
        fits(RCC_CR0_HCLK_DIV_256, RCC_CR0_HCLK_DIV_MASK),
        fits(RCC_CR0_HCLK_DIV_512, RCC_CR0_HCLK_DIV_MASK),
        fits(RCC_CR0_PCLK0_DIV_1, RCC_CR0_PCLK0_DIV_MASK),
        fits(RCC_CR0_PCLK0_DIV_2, RCC_CR0_PCLK0_DIV_MASK),
        fits(RCC_CR0_PCLK0_DIV_4, RCC_CR0_PCLK0_DIV_MASK),
        fits(RCC_CR0_PCLK0_DIV_8, RCC_CR0_PCLK0_DIV_MASK),
        fits(RCC_CR0_PCLK0_DIV_16, RCC_CR0_PCLK0_DIV_MASK),
        fits(RCC_CR1_LPTIMER1_CLK_SEL_PCLK0, RCC_CR1_LPTIMER1_CLK_SEL_MASK),
        fits(RCC_CR1_LPTIMER1_CLK_SEL_RCO4M, RCC_CR1_LPTIMER1_CLK_SEL_MASK),
        fits(RCC_CR1_LPTIMER1_CLK_SEL_XO32K, RCC_CR1_LPTIMER1_CLK_SEL_MASK),
        fits(RCC_CR1_LPTIMER1_CLK_SEL_RCO32K, RCC_CR1_LPTIMER1_CLK_SEL_MASK),
        fits(RCC_CR1_LPTIMER0_CLK_SEL_PCLK0, RCC_CR1_LPTIMER0_CLK_SEL_MASK),
        fits(RCC_CR1_LPTIMER0_CLK_SEL_RCO4M, RCC_CR1_LPTIMER0_CLK_SEL_MASK),
        fits(RCC_CR1_LPTIMER0_CLK_SEL_XO32K, RCC_CR1_LPTIMER0_CLK_SEL_MASK),
        fits(RCC_CR1_LPTIMER0_CLK_SEL_RCO32K, RCC_CR1_LPTIMER0_CLK_SEL_MASK),
        fits(RCC_CR1_LCD_CLK_SEL_XO32K, RCC_CR1_LCD_CLK_SEL_MASK),
        fits(RCC_CR1_LCD_CLK_SEL_RCO32K, RCC_CR1_LCD_CLK_SEL_MASK),
        fits(RCC_CR1_LCD_CLK_SEL_RCO4M, RCC_CR1_LCD_CLK_SEL_MASK),
        fits(RCC_CR1_LPUART_CLK_SEL_XO32K, RCC_CR1_LPUART_CLK_SEL_MASK),
        fits(RCC_CR1_LPUART_CLK_SEL_RCO32K, RCC_CR1_LPUART_CLK_SEL_MASK),
        fits(RCC_CR1_LPUART_CLK_SEL_RCO4M, RCC_CR1_LPUART_CLK_SEL_MASK),
        fits(RCC_CR1_RTC_CLK_SEL_XO32K, RCC_CR1_RTC_CLK_SEL_MASK),
        fits(RCC_CR1_RTC_CLK_SEL_RCO32K, RCC_CR1_RTC_CLK_SEL_MASK),
        fits(RCC_CR1_IWDG_CLK_SEL_XO32K, RCC_CR1_IWDG_CLK_SEL_MASK),
        fits(RCC_CR1_IWDG_CLK_SEL_RCO32K, RCC_CR1_IWDG_CLK_SEL_MASK),
        fits(RCC_CR2_UART0_CLK_SEL_PCLK0, RCC_CR2_UART0_CLK_SEL_MASK),
        fits(RCC_CR2_UART0_CLK_SEL_RCO4M, RCC_CR2_UART0_CLK_SEL_MASK),
        fits(RCC_CR2_UART0_CLK_SEL_XO32K, RCC_CR2_UART0_CLK_SEL_MASK),
        fits(RCC_CR2_UART0_CLK_SEL_XO24M, RCC_CR2_UART0_CLK_SEL_MASK),
        fits(RCC_CR2_UART1_CLK_SEL_PCLK0, RCC_CR2_UART1_CLK_SEL_MASK),
        fits(RCC_CR2_UART1_CLK_SEL_RCO4M, RCC_CR2_UART1_CLK_SEL_MASK),
        fits(RCC_CR2_UART1_CLK_SEL_XO32K, RCC_CR2_UART1_CLK_SEL_MASK),
        fits(RCC_CR2_UART1_CLK_SEL_XO24M, RCC_CR2_UART1_CLK_SEL_MASK),
        fits(RCC_CR2_UART2_CLK_SEL_PCLK1, RCC_CR2_UART2_CLK_SEL_MASK),
        fits(RCC_CR2_UART2_CLK_SEL_RCO4M, RCC_CR2_UART2_CLK_SEL_MASK),
        fits(RCC_CR2_UART2_CLK_SEL_XO32K, RCC_CR2_UART2_CLK_SEL_MASK),
        fits(RCC_CR2_UART2_CLK_SEL_XO24M, RCC_CR2_UART2_CLK_SEL_MASK),
        fits(RCC_CR2_UART3_CLK_SEL_PCLK1, RCC_CR2_UART3_CLK_SEL_MASK),
        fits(RCC_CR2_UART3_CLK_SEL_RCO4M, RCC_CR2_UART3_CLK_SEL_MASK),
        fits(RCC_CR2_UART3_CLK_SEL_XO32K, RCC_CR2_UART3_CLK_SEL_MASK),
        fits(RCC_CR2_UART3_CLK_SEL_XO24M, RCC_CR2_UART3_CLK_SEL_MASK),
        fits(RCC_CR2_SCC_CLK_SEL_PCLK1, RCC_CR2_SCC_CLK_SEL_MASK),
        fits(RCC_CR2_SCC_CLK_SEL_SYSCLK, RCC_CR2_SCC_CLK_SEL_MASK),
        fits(RCC_CR2_SCC_CLK_SEL_PLL, RCC_CR2_SCC_CLK_SEL_MASK),
        fits(RCC_CR2_SCC_CLK_SEL_EXT, RCC_CR2_SCC_CLK_SEL_MASK),
        fits(RCC_CR2_ADC_CLK_SEL_PCLK1, RCC_CR2_ADC_CLK_SEL_MASK),
        fits(RCC_CR2_ADC_CLK_SEL_SYSCLK, RCC_CR2_ADC_CLK_SEL_MASK),
        fits(RCC_CR2_ADC_CLK_SEL_PLL, RCC_CR2_ADC_CLK_SEL_MASK),
        fits(RCC_CR2_ADC_CLK_SEL_RCO48M, RCC_CR2_ADC_CLK_SEL_MASK),
        fits(RCC_CR2_I2S_CLK_SEL_PCLK0, RCC_CR2_I2S_CLK_SEL_MASK),
        fits(RCC_CR2_I2S_CLK_SEL_XO24M, RCC_CR2_I2S_CLK_SEL_MASK),
        fits(RCC_CR2_I2S_CLK_SEL_PLL, RCC_CR2_I2S_CLK_SEL_MASK),
        fits(RCC_CR2_I2S_CLK_SEL_XO32M, RCC_CR2_I2S_CLK_SEL_MASK),
        fits(RCC_CR2_I2S_CLK_SEL_EXT_CLK, RCC_CR2_I2S_CLK_SEL_MASK),
        fits(RCC_CR2_QSPI_CLK_SEL_HCLK, RCC_CR2_QSPI_CLK_SEL_MASK),
        fits(RCC_CR2_QSPI_CLK_SEL_SYSCLK, RCC_CR2_QSPI_CLK_SEL_MASK),
        fits(RCC_CR2_QSPI_CLK_SEL_PLL, RCC_CR2_QSPI_CLK_SEL_MASK),
        fits(UART_CR_UART_MODE_NONE, UART_CR_UART_MODE),
        fits(UART_CR_UART_MODE_RX, UART_CR_UART_MODE),
        fits(UART_CR_UART_MODE_TX, UART_CR_UART_MODE),
        fits(UART_CR_UART_MODE_TXRX, UART_CR_UART_MODE),
        fits(UART_CR_FLOW_CTRL_NONE, UART_CR_FLOW_CTRL),
        fits(UART_CR_FLOW_CTRL_CTS, UART_CR_FLOW_CTRL),
        fits(UART_CR_FLOW_CTRL_RTS, UART_CR_FLOW_CTRL),
        fits(UART_CR_FLOW_CTRL_CTS_RTS, UART_CR_FLOW_CTRL),
        fits(UART_LCR_H_STOP_1, UART_LCR_H_STOP),
        fits(UART_LCR_H_STOP_2, UART_LCR_H_STOP),
        fits(UART_LCR_H_WLEN_5, UART_LCR_H_WLEN),
        fits(UART_LCR_H_WLEN_6, UART_LCR_H_WLEN),
        fits(UART_LCR_H_WLEN_7, UART_LCR_H_WLEN),
        fits(UART_LCR_H_WLEN_8, UART_LCR_H_WLEN),
        fits(UART_IFLS_TX_1_8, UART_IFLS_TX),
        fits(UART_IFLS_TX_1_4, UART_IFLS_TX),
        fits(UART_IFLS_TX_1_2, UART_IFLS_TX),
        fits(UART_IFLS_TX_3_4, UART_IFLS_TX),
        fits(UART_IFLS_TX_7_8, UART_IFLS_TX),
        fits(UART_IFLS_RX_1_8, UART_IFLS_RX),
        fits(UART_IFLS_RX_1_4, UART_IFLS_RX),
        fits(UART_IFLS_RX_1_2, UART_IFLS_RX),
        fits(UART_IFLS_RX_3_4, UART_IFLS_RX),
        fits(UART_IFLS_RX_7_8, UART_IFLS_RX),
        fits(EFC_CR_PROG_MODE_DWORD, EFC_CR_PROG_MODE_MASK),
        fits(EFC_CR_PROG_MODE_WLINE, EFC_CR_PROG_MODE_MASK),
        fits(IWDG_CR_PREDIV_4, IWDG_CR_PREDIV_MASK),
        fits(IWDG_CR_PREDIV_8, IWDG_CR_PREDIV_MASK),
        fits(IWDG_CR_PREDIV_16, IWDG_CR_PREDIV_MASK),
        fits(IWDG_CR_PREDIV_32, IWDG_CR_PREDIV_MASK),
        fits(IWDG_CR_PREDIV_64, IWDG_CR_PREDIV_MASK),
        fits(IWDG_CR_PREDIV_128, IWDG_CR_PREDIV_MASK),
        fits(IWDG_CR_PREDIV_256, IWDG_CR_PREDIV_MASK),
        fits(CRC_CR_POLY_SIZE_7, CRC_CR_POLY_SIZE_MASK),
        fits(CRC_CR_POLY_SIZE_8, CRC_CR_POLY_SIZE_MASK),
        fits(CRC_CR_POLY_SIZE_16, CRC_CR_POLY_SIZE_MASK),
        fits(CRC_CR_POLY_SIZE_32, CRC_CR_POLY_SIZE_MASK),
        fits(CRC_CR_REVERSE_IN_NONE, CRC_CR_REVERSE_IN_MASK),
        fits(CRC_CR_REVERSE_IN_BYTE, CRC_CR_REVERSE_IN_MASK),
        fits(CRC_CR_REVERSE_IN_HWORD, CRC_CR_REVERSE_IN_MASK),
        fits(CRC_CR_REVERSE_IN_WORD, CRC_CR_REVERSE_IN_MASK),
        fits(I2C_CR_BUS_MODE_STANDARD, I2C_CR_BUS_MODE_MASK),
        fits(I2C_CR_BUS_MODE_FAST, I2C_CR_BUS_MODE_MASK),
        fits(I2C_CR_BUS_MODE_HIGH, I2C_CR_BUS_MODE_MASK),
        fits(DAC_CR_MASK_AMP_SEL_1, DAC_CR_MASK_AMP_SEL_MASK),
        fits(DAC_CR_MASK_AMP_SEL_3, DAC_CR_MASK_AMP_SEL_MASK),
        fits(DAC_CR_MASK_AMP_SEL_7, DAC_CR_MASK_AMP_SEL_MASK),
        fits(DAC_CR_MASK_AMP_SEL_15, DAC_CR_MASK_AMP_SEL_MASK),
        fits(DAC_CR_MASK_AMP_SEL_31, DAC_CR_MASK_AMP_SEL_MASK),
        fits(DAC_CR_MASK_AMP_SEL_63, DAC_CR_MASK_AMP_SEL_MASK),
        fits(DAC_CR_MASK_AMP_SEL_127, DAC_CR_MASK_AMP_SEL_MASK),
        fits(DAC_CR_MASK_AMP_SEL_255, DAC_CR_MASK_AMP_SEL_MASK),
        fits(DAC_CR_MASK_AMP_SEL_511, DAC_CR_MASK_AMP_SEL_MASK),
        fits(DAC_CR_MASK_AMP_SEL_1023, DAC_CR_MASK_AMP_SEL_MASK),
        fits(DAC_CR_WAVE_SEL_NONE, DAC_CR_WAVE_SEL_MASK),
        fits(DAC_CR_WAVE_SEL_NOISE, DAC_CR_WAVE_SEL_MASK),
        fits(DAC_CR_WAVE_SEL_TRIANGLE, DAC_CR_WAVE_SEL_MASK),
        fits(DAC_CR_TRIG_TYPE_SEL_RISING_EDGE, DAC_CR_TRIG_TYPE_SEL_MASK),
        fits(DAC_CR_TRIG_TYPE_SEL_FALLING_EDGE, DAC_CR_TRIG_TYPE_SEL_MASK),
        fits(DAC_CR_TRIG_TYPE_SEL_RISING_FALLING_EDGE, DAC_CR_TRIG_TYPE_SEL_MASK),
        fits(DAC_CR_TRIG_SRC_SEL_GPTIMER1_TRGO, DAC_CR_TRIG_SRC_SEL_MASK),
        fits(DAC_CR_TRIG_SRC_SEL_GPTIMER0_TRGO, DAC_CR_TRIG_SRC_SEL_MASK),
        fits(DAC_CR_TRIG_SRC_SEL_BSTIMER1_TRGO, DAC_CR_TRIG_SRC_SEL_MASK),
        fits(DAC_CR_TRIG_SRC_SEL_BSTIMER0_TRGO, DAC_CR_TRIG_SRC_SEL_MASK),
        fits(DAC_CR_TRIG_SRC_SEL_GPIO6, DAC_CR_TRIG_SRC_SEL_MASK),
        fits(DAC_CR_TRIG_SRC_SEL_GPIO24, DAC_CR_TRIG_SRC_SEL_MASK),
        fits(DAC_CR_TRIG_SRC_SEL_GPIO43, DAC_CR_TRIG_SRC_SEL_MASK),
        fits(DAC_CR_TRIG_SRC_SEL_SOFTWARE, DAC_CR_TRIG_SRC_SEL_MASK),
{
    assert((RCC_CR0_STCLKEN_SEL_XO32K & !RCC_CR0_STCLKEN_SEL_MASK == 0)
        && (RCC_CR0_STCLKEN_SEL_RCO32K & !RCC_CR0_STCLKEN_SEL_MASK == 0)
        && (RCC_CR0_MCO_CLK_DIV_1 & !RCC_CR0_MCO_CLK_DIV_MASK == 0)
        && (RCC_CR0_MCO_CLK_DIV_2 & !RCC_CR0_MCO_CLK_DIV_MASK == 0)
        && (RCC_CR0_MCO_CLK_DIV_4 & !RCC_CR0_MCO_CLK_DIV_MASK == 0)
        && (RCC_CR0_MCO_CLK_DIV_8 & !RCC_CR0_MCO_CLK_DIV_MASK == 0)
        && (RCC_CR0_MCO_CLK_DIV_16 & !RCC_CR0_MCO_CLK_DIV_MASK == 0)
        && (RCC_CR0_MCO_CLK_SEL_RCO32K & !RCC_CR0_MCO_CLK_SEL_MASK == 0)
        && (RCC_CR0_MCO_CLK_SEL_XO32K & !RCC_CR0_MCO_CLK_SEL_MASK == 0)
        && (RCC_CR0_MCO_CLK_SEL_RCO4M & !RCC_CR0_MCO_CLK_SEL_MASK == 0)
        && (RCC_CR0_MCO_CLK_SEL_XO24M & !RCC_CR0_MCO_CLK_SEL_MASK == 0)
        && (RCC_CR0_MCO_CLK_SEL_XO32M & !RCC_CR0_MCO_CLK_SEL_MASK == 0)
        && (RCC_CR0_MCO_CLK_SEL_RCO48M & !RCC_CR0_MCO_CLK_SEL_MASK == 0)
        && (RCC_CR0_MCO_CLK_SEL_PLL & !RCC_CR0_MCO_CLK_SEL_MASK == 0)
        && (RCC_CR0_MCO_CLK_SEL_SYSCLCK & !RCC_CR0_MCO_CLK_SEL_MASK == 0)
        && (RCC_CR0_PCLK1_DIV_1 & !RCC_CR0_PCLK1_DIV_MASK == 0)
        && (RCC_CR0_PCLK1_DIV_2 & !RCC_CR0_PCLK1_DIV_MASK == 0)
        && (RCC_CR0_PCLK1_DIV_4 & !RCC_CR0_PCLK1_DIV_MASK == 0)
        && (RCC_CR0_PCLK1_DIV_8 & !RCC_CR0_PCLK1_DIV_MASK == 0)
        && (RCC_CR0_PCLK1_DIV_16 & !RCC_CR0_PCLK1_DIV_MASK == 0)
        && (RCC_CR0_SYSCLK_SEL_RCO48M_DIV2 & !RCC_CR0_SYSCLK_SEL_MASK == 0)
        && (RCC_CR0_SYSCLK_SEL_RCO32K & !RCC_CR0_SYSCLK_SEL_MASK == 0)
        && (RCC_CR0_SYSCLK_SEL_XO32K & !RCC_CR0_SYSCLK_SEL_MASK == 0)
        && (RCC_CR0_SYSCLK_SEL_PLL & !RCC_CR0_SYSCLK_SEL_MASK == 0)
        && (RCC_CR0_SYSCLK_SEL_XO24M & !RCC_CR0_SYSCLK_SEL_MASK == 0)
        && (RCC_CR0_SYSCLK_SEL_XO32M & !RCC_CR0_SYSCLK_SEL_MASK == 0)
        && (RCC_CR0_SYSCLK_SEL_RCO4M & !RCC_CR0_SYSCLK_SEL_MASK == 0)
        && (RCC_CR0_SYSCLK_SEL_RCO48M & !RCC_CR0_SYSCLK_SEL_MASK == 0)
        && (RCC_CR0_HCLK_DIV_1 & !RCC_CR0_HCLK_DIV_MASK == 0)
        && (RCC_CR0_HCLK_DIV_2 & !RCC_CR0_HCLK_DIV_MASK == 0)
        && (RCC_CR0_HCLK_DIV_4 & !RCC_CR0_HCLK_DIV_MASK == 0)
        && (RCC_CR0_HCLK_DIV_8 & !RCC_CR0_HCLK_DIV_MASK == 0)
        && (RCC_CR0_HCLK_DIV_16 & !RCC_CR0_HCLK_DIV_MASK == 0)
        && (RCC_CR0_HCLK_DIV_32 & !RCC_CR0_HCLK_DIV_MASK == 0)
        && (RCC_CR0_HCLK_DIV_64 & !RCC_CR0_HCLK_DIV_MASK == 0)
        && (RCC_CR0_HCLK_DIV_128 & !RCC_CR0_HCLK_DIV_MASK == 0)
        && (RCC_CR0_HCLK_DIV_256 & !RCC_CR0_HCLK_DIV_MASK == 0)
        && (RCC_CR0_HCLK_DIV_512 & !RCC_CR0_HCLK_DIV_MASK == 0)
        && (RCC_CR0_PCLK0_DIV_1 & !RCC_CR0_PCLK0_DIV_MASK == 0)
        && (RCC_CR0_PCLK0_DIV_2 & !RCC_CR0_PCLK0_DIV_MASK == 0)
        && (RCC_CR0_PCLK0_DIV_4 & !RCC_CR0_PCLK0_DIV_MASK == 0)
        && (RCC_CR0_PCLK0_DIV_8 & !RCC_CR0_PCLK0_DIV_MASK == 0)
        && (RCC_CR0_PCLK0_DIV_16 & !RCC_CR0_PCLK0_DIV_MASK == 0)
        && (RCC_CR1_LPTIMER1_CLK_SEL_PCLK0 & !RCC_CR1_LPTIMER1_CLK_SEL_MASK == 0)
        && (RCC_CR1_LPTIMER1_CLK_SEL_RCO4M & !RCC_CR1_LPTIMER1_CLK_SEL_MASK == 0)
        && (RCC_CR1_LPTIMER1_CLK_SEL_XO32K & !RCC_CR1_LPTIMER1_CLK_SEL_MASK == 0)
        && (RCC_CR1_LPTIMER1_CLK_SEL_RCO32K & !RCC_CR1_LPTIMER1_CLK_SEL_MASK == 0)
        && (RCC_CR1_LPTIMER0_CLK_SEL_PCLK0 & !RCC_CR1_LPTIMER0_CLK_SEL_MASK == 0)
        && (RCC_CR1_LPTIMER0_CLK_SEL_RCO4M & !RCC_CR1_LPTIMER0_CLK_SEL_MASK == 0)
        && (RCC_CR1_LPTIMER0_CLK_SEL_XO32K & !RCC_CR1_LPTIMER0_CLK_SEL_MASK == 0)
        && (RCC_CR1_LPTIMER0_CLK_SEL_RCO32K & !RCC_CR1_LPTIMER0_CLK_SEL_MASK == 0)
        && (RCC_CR1_LCD_CLK_SEL_XO32K & !RCC_CR1_LCD_CLK_SEL_MASK == 0)
        && (RCC_CR1_LCD_CLK_SEL_RCO32K & !RCC_CR1_LCD_CLK_SEL_MASK == 0)
        && (RCC_CR1_LCD_CLK_SEL_RCO4M & !RCC_CR1_LCD_CLK_SEL_MASK == 0)
        && (RCC_CR1_LPUART_CLK_SEL_XO32K & !RCC_CR1_LPUART_CLK_SEL_MASK == 0)
        && (RCC_CR1_LPUART_CLK_SEL_RCO32K & !RCC_CR1_LPUART_CLK_SEL_MASK == 0)
        && (RCC_CR1_LPUART_CLK_SEL_RCO4M & !RCC_CR1_LPUART_CLK_SEL_MASK == 0)
        && (RCC_CR1_RTC_CLK_SEL_XO32K & !RCC_CR1_RTC_CLK_SEL_MASK == 0)
        && (RCC_CR1_RTC_CLK_SEL_RCO32K & !RCC_CR1_RTC_CLK_SEL_MASK == 0)
        && (RCC_CR1_IWDG_CLK_SEL_XO32K & !RCC_CR1_IWDG_CLK_SEL_MASK == 0)
        && (RCC_CR1_IWDG_CLK_SEL_RCO32K & !RCC_CR1_IWDG_CLK_SEL_MASK == 0)
        && (RCC_CR2_UART0_CLK_SEL_PCLK0 & !RCC_CR2_UART0_CLK_SEL_MASK == 0)
        && (RCC_CR2_UART0_CLK_SEL_RCO4M & !RCC_CR2_UART0_CLK_SEL_MASK == 0)
        && (RCC_CR2_UART0_CLK_SEL_XO32K & !RCC_CR2_UART0_CLK_SEL_MASK == 0)
        && (RCC_CR2_UART0_CLK_SEL_XO24M & !RCC_CR2_UART0_CLK_SEL_MASK == 0)
        && (RCC_CR2_UART1_CLK_SEL_PCLK0 & !RCC_CR2_UART1_CLK_SEL_MASK == 0)
        && (RCC_CR2_UART1_CLK_SEL_RCO4M & !RCC_CR2_UART1_CLK_SEL_MASK == 0)
        && (RCC_CR2_UART1_CLK_SEL_XO32K & !RCC_CR2_UART1_CLK_SEL_MASK == 0)
        && (RCC_CR2_UART1_CLK_SEL_XO24M & !RCC_CR2_UART1_CLK_SEL_MASK == 0)
        && (RCC_CR2_UART2_CLK_SEL_PCLK1 & !RCC_CR2_UART2_CLK_SEL_MASK == 0)
        && (RCC_CR2_UART2_CLK_SEL_RCO4M & !RCC_CR2_UART2_CLK_SEL_MASK == 0)
        && (RCC_CR2_UART2_CLK_SEL_XO32K & !RCC_CR2_UART2_CLK_SEL_MASK == 0)
        && (RCC_CR2_UART2_CLK_SEL_XO24M & !RCC_CR2_UART2_CLK_SEL_MASK == 0)
        && (RCC_CR2_UART3_CLK_SEL_PCLK1 & !RCC_CR2_UART3_CLK_SEL_MASK == 0)
        && (RCC_CR2_UART3_CLK_SEL_RCO4M & !RCC_CR2_UART3_CLK_SEL_MASK == 0)
        && (RCC_CR2_UART3_CLK_SEL_XO32K & !RCC_CR2_UART3_CLK_SEL_MASK == 0)
        && (RCC_CR2_UART3_CLK_SEL_XO24M & !RCC_CR2_UART3_CLK_SEL_MASK == 0)
        && (RCC_CR2_SCC_CLK_SEL_PCLK1 & !RCC_CR2_SCC_CLK_SEL_MASK == 0)
        && (RCC_CR2_SCC_CLK_SEL_SYSCLK & !RCC_CR2_SCC_CLK_SEL_MASK == 0)
        && (RCC_CR2_SCC_CLK_SEL_PLL & !RCC_CR2_SCC_CLK_SEL_MASK == 0)
        && (RCC_CR2_SCC_CLK_SEL_EXT & !RCC_CR2_SCC_CLK_SEL_MASK == 0)
        && (RCC_CR2_ADC_CLK_SEL_PCLK1 & !RCC_CR2_ADC_CLK_SEL_MASK == 0)
        && (RCC_CR2_ADC_CLK_SEL_SYSCLK & !RCC_CR2_ADC_CLK_SEL_MASK == 0)
        && (RCC_CR2_ADC_CLK_SEL_PLL & !RCC_CR2_ADC_CLK_SEL_MASK == 0)
        && (RCC_CR2_ADC_CLK_SEL_RCO48M & !RCC_CR2_ADC_CLK_SEL_MASK == 0)
        && (RCC_CR2_I2S_CLK_SEL_PCLK0 & !RCC_CR2_I2S_CLK_SEL_MASK == 0)
        && (RCC_CR2_I2S_CLK_SEL_XO24M & !RCC_CR2_I2S_CLK_SEL_MASK == 0)
        && (RCC_CR2_I2S_CLK_SEL_PLL & !RCC_CR2_I2S_CLK_SEL_MASK == 0)
        && (RCC_CR2_I2S_CLK_SEL_XO32M & !RCC_CR2_I2S_CLK_SEL_MASK == 0)
        && (RCC_CR2_I2S_CLK_SEL_EXT_CLK & !RCC_CR2_I2S_CLK_SEL_MASK == 0)
        && (RCC_CR2_QSPI_CLK_SEL_HCLK & !RCC_CR2_QSPI_CLK_SEL_MASK == 0)
        && (RCC_CR2_QSPI_CLK_SEL_SYSCLK & !RCC_CR2_QSPI_CLK_SEL_MASK == 0)
        && (RCC_CR2_QSPI_CLK_SEL_PLL & !RCC_CR2_QSPI_CLK_SEL_MASK == 0)) by (bit_vector);
    assert((UART_CR_UART_MODE_NONE & !UART_CR_UART_MODE == 0)
        && (UART_CR_UART_MODE_RX & !UART_CR_UART_MODE == 0)
        && (UART_CR_UART_MODE_TX & !UART_CR_UART_MODE == 0)
        && (UART_CR_UART_MODE_TXRX & !UART_CR_UART_MODE == 0)
        && (UART_CR_FLOW_CTRL_NONE & !UART_CR_FLOW_CTRL == 0)
        && (UART_CR_FLOW_CTRL_CTS & !UART_CR_FLOW_CTRL == 0)
        && (UART_CR_FLOW_CTRL_RTS & !UART_CR_FLOW_CTRL == 0)
        && (UART_CR_FLOW_CTRL_CTS_RTS & !UART_CR_FLOW_CTRL == 0)
        && (UART_LCR_H_STOP_1 & !UART_LCR_H_STOP == 0)
        && (UART_LCR_H_STOP_2 & !UART_LCR_H_STOP == 0)
        && (UART_LCR_H_WLEN_5 & !UART_LCR_H_WLEN == 0)
        && (UART_LCR_H_WLEN_6 & !UART_LCR_H_WLEN == 0)
        && (UART_LCR_H_WLEN_7 & !UART_LCR_H_WLEN == 0)
        && (UART_LCR_H_WLEN_8 & !UART_LCR_H_WLEN == 0)
        && (UART_IFLS_TX_1_8 & !UART_IFLS_TX == 0)
        && (UART_IFLS_TX_1_4 & !UART_IFLS_TX == 0)
        && (UART_IFLS_TX_1_2 & !UART_IFLS_TX == 0)
        && (UART_IFLS_TX_3_4 & !UART_IFLS_TX == 0)
        && (UART_IFLS_TX_7_8 & !UART_IFLS_TX == 0)
        && (UART_IFLS_RX_1_8 & !UART_IFLS_RX == 0)
        && (UART_IFLS_RX_1_4 & !UART_IFLS_RX == 0)
        && (UART_IFLS_RX_1_2 & !UART_IFLS_RX == 0)
        && (UART_IFLS_RX_3_4 & !UART_IFLS_RX == 0)
        && (UART_IFLS_RX_7_8 & !UART_IFLS_RX == 0)) by (bit_vector);
    assert((EFC_CR_PROG_MODE_DWORD & !EFC_CR_PROG_MODE_MASK == 0)
        && (EFC_CR_PROG_MODE_WLINE & !EFC_CR_PROG_MODE_MASK == 0)) by (bit_vector);
    assert((IWDG_CR_PREDIV_4 & !IWDG_CR_PREDIV_MASK == 0)
        && (IWDG_CR_PREDIV_8 & !IWDG_CR_PREDIV_MASK == 0)
        && (IWDG_CR_PREDIV_16 & !IWDG_CR_PREDIV_MASK == 0)
        && (IWDG_CR_PREDIV_32 & !IWDG_CR_PREDIV_MASK == 0)
        && (IWDG_CR_PREDIV_64 & !IWDG_CR_PREDIV_MASK == 0)
        && (IWDG_CR_PREDIV_128 & !IWDG_CR_PREDIV_MASK == 0)
        && (IWDG_CR_PREDIV_256 & !IWDG_CR_PREDIV_MASK == 0)) by (bit_vector);
    assert((CRC_CR_POLY_SIZE_7 & !CRC_CR_POLY_SIZE_MASK == 0)
        && (CRC_CR_POLY_SIZE_8 & !CRC_CR_POLY_SIZE_MASK == 0)
        && (CRC_CR_POLY_SIZE_16 & !CRC_CR_POLY_SIZE_MASK == 0)
        && (CRC_CR_POLY_SIZE_32 & !CRC_CR_POLY_SIZE_MASK == 0)
        && (CRC_CR_REVERSE_IN_NONE & !CRC_CR_REVERSE_IN_MASK == 0)
        && (CRC_CR_REVERSE_IN_BYTE & !CRC_CR_REVERSE_IN_MASK == 0)
        && (CRC_CR_REVERSE_IN_HWORD & !CRC_CR_REVERSE_IN_MASK == 0)
        && (CRC_CR_REVERSE_IN_WORD & !CRC_CR_REVERSE_IN_MASK == 0)) by (bit_vector);
    assert((I2C_CR_BUS_MODE_STANDARD & !I2C_CR_BUS_MODE_MASK == 0)
        && (I2C_CR_BUS_MODE_FAST & !I2C_CR_BUS_MODE_MASK == 0)
        && (I2C_CR_BUS_MODE_HIGH & !I2C_CR_BUS_MODE_MASK == 0)) by (bit_vector);
    assert((DAC_CR_MASK_AMP_SEL_1 & !DAC_CR_MASK_AMP_SEL_MASK == 0)
        && (DAC_CR_MASK_AMP_SEL_3 & !DAC_CR_MASK_AMP_SEL_MASK == 0)
        && (DAC_CR_MASK_AMP_SEL_7 & !DAC_CR_MASK_AMP_SEL_MASK == 0)
        && (DAC_CR_MASK_AMP_SEL_15 & !DAC_CR_MASK_AMP_SEL_MASK == 0)
        && (DAC_CR_MASK_AMP_SEL_31 & !DAC_CR_MASK_AMP_SEL_MASK == 0)
        && (DAC_CR_MASK_AMP_SEL_63 & !DAC_CR_MASK_AMP_SEL_MASK == 0)
        && (DAC_CR_MASK_AMP_SEL_127 & !DAC_CR_MASK_AMP_SEL_MASK == 0)
        && (DAC_CR_MASK_AMP_SEL_255 & !DAC_CR_MASK_AMP_SEL_MASK == 0)
        && (DAC_CR_MASK_AMP_SEL_511 & !DAC_CR_MASK_AMP_SEL_MASK == 0)
        && (DAC_CR_MASK_AMP_SEL_1023 & !DAC_CR_MASK_AMP_SEL_MASK == 0)
        && (DAC_CR_WAVE_SEL_NONE & !DAC_CR_WAVE_SEL_MASK == 0)
        && (DAC_CR_WAVE_SEL_NOISE & !DAC_CR_WAVE_SEL_MASK == 0)
        && (DAC_CR_WAVE_SEL_TRIANGLE & !DAC_CR_WAVE_SEL_MASK == 0)
        && (DAC_CR_TRIG_TYPE_SEL_RISING_EDGE & !DAC_CR_TRIG_TYPE_SEL_MASK == 0)
        && (DAC_CR_TRIG_TYPE_SEL_FALLING_EDGE & !DAC_CR_TRIG_TYPE_SEL_MASK == 0)
        && (DAC_CR_TRIG_TYPE_SEL_RISING_FALLING_EDGE & !DAC_CR_TRIG_TYPE_SEL_MASK == 0)
        && (DAC_CR_TRIG_SRC_SEL_GPTIMER1_TRGO & !DAC_CR_TRIG_SRC_SEL_MASK == 0)
        && (DAC_CR_TRIG_SRC_SEL_GPTIMER0_TRGO & !DAC_CR_TRIG_SRC_SEL_MASK == 0)
        && (DAC_CR_TRIG_SRC_SEL_BSTIMER1_TRGO & !DAC_CR_TRIG_SRC_SEL_MASK == 0)
        && (DAC_CR_TRIG_SRC_SEL_BSTIMER0_TRGO & !DAC_CR_TRIG_SRC_SEL_MASK == 0)
        && (DAC_CR_TRIG_SRC_SEL_GPIO6 & !DAC_CR_TRIG_SRC_SEL_MASK == 0)
        && (DAC_CR_TRIG_SRC_SEL_GPIO24 & !DAC_CR_TRIG_SRC_SEL_MASK == 0)
        && (DAC_CR_TRIG_SRC_SEL_GPIO43 & !DAC_CR_TRIG_SRC_SEL_MASK == 0)
        && (DAC_CR_TRIG_SRC_SEL_SOFTWARE & !DAC_CR_TRIG_SRC_SEL_MASK == 0)) by (bit_vector);
}

/// Whether `first` and `next` are the offsets of two words of a block, `next`
/// behind `first`.
pub open spec fn ascending_words(first: u32, next: u32) -> bool {
    first % 4 == 0 && next % 4 == 0 && first < next
}

/// Whether `words` words from `offset` on end within a block of `len` bytes.
pub open spec fn ends_within(offset: u32, words: u32, len: u32) -> bool {
    offset + 4 * words <= len
}

/// In every block the registers lie on word boundaries and in the order in
/// which the map names them, so that no two of them share a word, and the
/// last of them ends within the block.
pub proof fn lemma_registers_in_ascending_words()
    ensures
        ends_within(RCC_CR3_OFFSET, 1, RCC_BLOCK_LEN),
        ends_within(SSP_PCELL_ID3_OFFSET, 1, SSP_BLOCK_LEN),
        ends_within(GPIO_STOP3_WUCR_OFFSET, 1, GPIO_BLOCK_LEN),
        ends_within(RTC_CALENDAR_R_H_OFFSET, 1, RTC_BLOCK_LEN),
        ends_within(UART_ID_OFFSET, 8, UART_BLOCK_LEN),
        ends_within(LPUART_DATA_OFFSET, 1, LPUART_BLOCK_LEN),
        ends_within(EFC_OPTION_SEC_BYTES1_OFFSET, 1, EFC_BLOCK_LEN),
        ends_within(LORAC_MISO_SR_OFFSET, 1, LORAC_BLOCK_LEN),
        ends_within(AFEC_RAW_SR_OFFSET, 1, AFEC_BLOCK_LEN),
        ends_within(IWDG_SR2_OFFSET, 1, IWDG_BLOCK_LEN),
        ends_within(WDG_PCELLID3_OFFSET, 1, WDG_BLOCK_LEN),
        ends_within(CRC_POLY_OFFSET, 1, CRC_BLOCK_LEN),
        ends_within(I2C_RFIFO_STATUS_OFFSET, 1, I2C_BLOCK_LEN),
        ends_within(SYSCFG_CR10_OFFSET, 1, SYSCFG_BLOCK_LEN),
        ends_within(PWR_CR5_OFFSET, 1, PWR_BLOCK_LEN),
        ends_within(TIMER_OR_OFFSET, 1, TIMER_BLOCK_LEN),
        ends_within(LPTIMER_SR1_OFFSET, 1, LPTIMER_BLOCK_LEN),
        ends_within(I2S_COMP_TYPE_OFFSET, 1, I2S_BLOCK_LEN),
        ends_within(BSTIMER_ARR_OFFSET, 1, BSTIMER_BLOCK_LEN),
        ends_within(SEC_FILTER3_OFFSET, 1, SEC_BLOCK_LEN),
        ends_within(QSPI_SBUS_START_OFFSET, 1, QSPI_BLOCK_LEN),
        ends_within(DAC_SR_OFFSET, 1, DAC_BLOCK_LEN),
        ends_within(ADC_AWD2_CFGR_OFFSET, 1, ADC_BLOCK_LEN),
        ends_within(LCD_CR2_OFFSET, 1, LCD_BLOCK_LEN),
        ascending_words(RCC_CR0_OFFSET, RCC_CR1_OFFSET),
        ascending_words(RCC_CR1_OFFSET, RCC_CR2_OFFSET),
        ascending_words(RCC_CR2_OFFSET, RCC_CGR0_OFFSET),
        ascending_words(RCC_CGR0_OFFSET, RCC_CGR1_OFFSET),
        ascending_words(RCC_CGR1_OFFSET, RCC_CGR2_OFFSET),
        ascending_words(RCC_CGR2_OFFSET, RCC_RST0_OFFSET),
        ascending_words(RCC_RST0_OFFSET, RCC_RST1_OFFSET),
        ascending_words(RCC_RST1_OFFSET, RCC_RST_SR_OFFSET),
        ascending_words(RCC_RST_SR_OFFSET, RCC_RST_CR_OFFSET),
        ascending_words(RCC_RST_CR_OFFSET, RCC_SR_OFFSET),
        ascending_words(RCC_SR_OFFSET, RCC_SR1_OFFSET),
        ascending_words(RCC_SR1_OFFSET, RCC_CR3_OFFSET),
        ascending_words(SSP_CR0_OFFSET, SSP_CR1_OFFSET),
        ascending_words(SSP_CR1_OFFSET, SSP_DR_OFFSET),
        ascending_words(SSP_DR_OFFSET, SSP_SR_OFFSET),
        ascending_words(SSP_SR_OFFSET, SSP_CPSR_OFFSET),
        ascending_words(SSP_CPSR_OFFSET, SSP_IMSC_OFFSET),
        ascending_words(SSP_IMSC_OFFSET, SSP_RIS_OFFSET),
        ascending_words(SSP_RIS_OFFSET, SSP_MIS_OFFSET),
        ascending_words(SSP_MIS_OFFSET, SSP_ICR_OFFSET),
        ascending_words(SSP_ICR_OFFSET, SSP_DMA_CR_OFFSET),
        ascending_words(SSP_DMA_CR_OFFSET, SSP_PERIPH_ID0_OFFSET),
        ascending_words(SSP_PERIPH_ID0_OFFSET, SSP_PERIPH_ID1_OFFSET),
        ascending_words(SSP_PERIPH_ID1_OFFSET, SSP_PERIPH_ID2_OFFSET),
        ascending_words(SSP_PERIPH_ID2_OFFSET, SSP_PERIPH_ID3_OFFSET),
        ascending_words(SSP_PERIPH_ID3_OFFSET, SSP_PCELL_ID0_OFFSET),
        ascending_words(SSP_PCELL_ID0_OFFSET, SSP_PCELL_ID1_OFFSET),
        ascending_words(SSP_PCELL_ID1_OFFSET, SSP_PCELL_ID2_OFFSET),
        ascending_words(SSP_PCELL_ID2_OFFSET, SSP_PCELL_ID3_OFFSET),
        ascending_words(GPIO_OER_OFFSET, GPIO_OTYPER_OFFSET),
        ascending_words(GPIO_OTYPER_OFFSET, GPIO_IER_OFFSET),
        ascending_words(GPIO_IER_OFFSET, GPIO_PER_OFFSET),
        ascending_words(GPIO_PER_OFFSET, GPIO_PSR_OFFSET),
        ascending_words(GPIO_PSR_OFFSET, GPIO_IDR_OFFSET),
        ascending_words(GPIO_IDR_OFFSET, GPIO_ODR_OFFSET),
        ascending_words(GPIO_ODR_OFFSET, GPIO_BRR_OFFSET),
        ascending_words(GPIO_BRR_OFFSET, GPIO_BSR_OFFSET),
        ascending_words(GPIO_BSR_OFFSET, GPIO_DSR_OFFSET),
        ascending_words(GPIO_DSR_OFFSET, GPIO_ICR_OFFSET),
        ascending_words(GPIO_ICR_OFFSET, GPIO_IFR_OFFSET),
        ascending_words(GPIO_IFR_OFFSET, GPIO_WUCR_OFFSET),
        ascending_words(GPIO_WUCR_OFFSET, GPIO_WULVL_OFFSET),
        ascending_words(GPIO_WULVL_OFFSET, GPIO_AFRL_OFFSET),
        ascending_words(GPIO_AFRL_OFFSET, GPIO_AFRH_OFFSET),
        ascending_words(GPIO_AFRH_OFFSET, GPIO_STOP3_WUCR_OFFSET),
        ascending_words(RTC_CTRL_OFFSET, RTC_ALARM0_OFFSET),
        ascending_words(RTC_ALARM0_OFFSET, RTC_ALARM1_OFFSET),
        ascending_words(RTC_ALARM1_OFFSET, RTC_PPM_ADJUST_OFFSET),
        ascending_words(RTC_PPM_ADJUST_OFFSET, RTC_CALENDAR_OFFSET),
        ascending_words(RTC_CALENDAR_OFFSET, RTC_CALENDAR_H_OFFSET),
        ascending_words(RTC_CALENDAR_H_OFFSET, RTC_CYC_MAX_OFFSET),
        ascending_words(RTC_CYC_MAX_OFFSET, RTC_SR_OFFSET),
        ascending_words(RTC_SR_OFFSET, RTC_ASYN_DATA_OFFSET),
        ascending_words(RTC_ASYN_DATA_OFFSET, RTC_ASYN_DATA_H_OFFSET),
        ascending_words(RTC_ASYN_DATA_H_OFFSET, RTC_CR1_OFFSET),
        ascending_words(RTC_CR1_OFFSET, RTC_SR1_OFFSET),
        ascending_words(RTC_SR1_OFFSET, RTC_CR2_OFFSET),
        ascending_words(RTC_CR2_OFFSET, RTC_SUB_SECOND_CNT_OFFSET),
        ascending_words(RTC_SUB_SECOND_CNT_OFFSET, RTC_CYC_CNT_OFFSET),
        ascending_words(RTC_CYC_CNT_OFFSET, RTC_ALARM0_SUBSECOND_OFFSET),
        ascending_words(RTC_ALARM0_SUBSECOND_OFFSET, RTC_ALARM1_SUBSECOND_OFFSET),
        ascending_words(RTC_ALARM1_SUBSECOND_OFFSET, RTC_CALENDAR_R_OFFSET),
        ascending_words(RTC_CALENDAR_R_OFFSET, RTC_CALENDAR_R_H_OFFSET),
        ascending_words(UART_DR_OFFSET, UART_RSC_ECR_OFFSET),
        ascending_words(UART_RSC_ECR_OFFSET, UART_FR_OFFSET),
        ascending_words(UART_FR_OFFSET, UART_ILPR_OFFSET),
        ascending_words(UART_ILPR_OFFSET, UART_IBRD_OFFSET),
        ascending_words(UART_IBRD_OFFSET, UART_FBRD_OFFSET),
        ascending_words(UART_FBRD_OFFSET, UART_LCR_H_OFFSET),
        ascending_words(UART_LCR_H_OFFSET, UART_CR_OFFSET),
        ascending_words(UART_CR_OFFSET, UART_IFLS_OFFSET),
        ascending_words(UART_IFLS_OFFSET, UART_IMSC_OFFSET),
        ascending_words(UART_IMSC_OFFSET, UART_RIS_OFFSET),
        ascending_words(UART_RIS_OFFSET, UART_MIS_OFFSET),
        ascending_words(UART_MIS_OFFSET, UART_ICR_OFFSET),
        ascending_words(UART_ICR_OFFSET, UART_DMACR_OFFSET),
        ascending_words(UART_DMACR_OFFSET, UART_ID_OFFSET),
        ascending_words(LPUART_CR0_OFFSET, LPUART_CR1_OFFSET),
        ascending_words(LPUART_CR1_OFFSET, LPUART_SR0_OFFSET),
        ascending_words(LPUART_SR0_OFFSET, LPUART_SR1_OFFSET),
        ascending_words(LPUART_SR1_OFFSET, LPUART_DATA_OFFSET),
        ascending_words(EFC_CR_OFFSET, EFC_INT_EN_OFFSET),
        ascending_words(EFC_INT_EN_OFFSET, EFC_SR_OFFSET),
        ascending_words(EFC_SR_OFFSET, EFC_PROGRAM_DATA0_OFFSET),
        ascending_words(EFC_PROGRAM_DATA0_OFFSET, EFC_PROGRAM_DATA1_OFFSET),
        ascending_words(EFC_PROGRAM_DATA1_OFFSET, EFC_TIMING_CFG_OFFSET),
        ascending_words(EFC_TIMING_CFG_OFFSET, EFC_PROTECT_SEQ_OFFSET),
        ascending_words(EFC_PROTECT_SEQ_OFFSET, EFC_CHIP_PATTERN_OFFSET),
        ascending_words(EFC_CHIP_PATTERN_OFFSET, EFC_IP_TRIM_L_OFFSET),
        ascending_words(EFC_IP_TRIM_L_OFFSET, EFC_IP_TRIM_H_OFFSET),
        ascending_words(EFC_IP_TRIM_H_OFFSET, EFC_SN_L_OFFSET),
        ascending_words(EFC_SN_L_OFFSET, EFC_SN_H_OFFSET),
        ascending_words(EFC_SN_H_OFFSET, EFC_TEST_INFO_L_OFFSET),
        ascending_words(EFC_TEST_INFO_L_OFFSET, EFC_TEST_INFO_H_OFFSET),
        ascending_words(EFC_TEST_INFO_H_OFFSET, EFC_OPTION_CSR_BYTES_OFFSET),
        ascending_words(EFC_OPTION_CSR_BYTES_OFFSET, EFC_OPTION_E0_BYTES_OFFSET),
        ascending_words(EFC_OPTION_E0_BYTES_OFFSET, EFC_OPTION_WP_BYTES_OFFSET),
        ascending_words(EFC_OPTION_WP_BYTES_OFFSET, EFC_OPTION_SEC_BYTES0_OFFSET),
        ascending_words(EFC_OPTION_SEC_BYTES0_OFFSET, EFC_OPTION_SEC_BYTES1_OFFSET),
        ascending_words(LORAC_SSP_CR0_OFFSET, LORAC_SSP_CR1_OFFSET),
        ascending_words(LORAC_SSP_CR1_OFFSET, LORAC_SSP_DR_OFFSET),
        ascending_words(LORAC_SSP_DR_OFFSET, LORAC_SSP_SR_OFFSET),
        ascending_words(LORAC_SSP_SR_OFFSET, LORAC_SSP_CPSR_OFFSET),
        ascending_words(LORAC_SSP_CPSR_OFFSET, LORAC_SSP_IMSC_OFFSET),
        ascending_words(LORAC_SSP_IMSC_OFFSET, LORAC_SSP_RIS_OFFSET),
        ascending_words(LORAC_SSP_RIS_OFFSET, LORAC_SSP_MIS_OFFSET),
        ascending_words(LORAC_SSP_MIS_OFFSET, LORAC_SSP_ICR_OFFSET),
        ascending_words(LORAC_SSP_ICR_OFFSET, LORAC_SSP_DMA_CR_OFFSET),
        ascending_words(LORAC_SSP_DMA_CR_OFFSET, LORAC_CR0_OFFSET),
        ascending_words(LORAC_CR0_OFFSET, LORAC_CR1_OFFSET),
        ascending_words(LORAC_CR1_OFFSET, LORAC_SR_OFFSET),
        ascending_words(LORAC_SR_OFFSET, LORAC_NSS_CR_OFFSET),
        ascending_words(LORAC_NSS_CR_OFFSET, LORAC_SCK_CR_OFFSET),
        ascending_words(LORAC_SCK_CR_OFFSET, LORAC_MOSI_CR_OFFSET),
        ascending_words(LORAC_MOSI_CR_OFFSET, LORAC_MISO_SR_OFFSET),
        ascending_words(AFEC_CR_OFFSET, AFEC_INT_SR_OFFSET),
        ascending_words(AFEC_INT_SR_OFFSET, AFEC_RAW_SR_OFFSET),
        ascending_words(IWDG_CR_OFFSET, IWDG_MAX_OFFSET),
        ascending_words(IWDG_MAX_OFFSET, IWDG_WIN_OFFSET),
        ascending_words(IWDG_WIN_OFFSET, IWDG_SR_OFFSET),
        ascending_words(IWDG_SR_OFFSET, IWDG_SR1_OFFSET),
        ascending_words(IWDG_SR1_OFFSET, IWDG_CR1_OFFSET),
        ascending_words(IWDG_CR1_OFFSET, IWDG_SR2_OFFSET),
        ascending_words(WDG_LOAD_OFFSET, WDG_VALUE_OFFSET),
        ascending_words(WDG_VALUE_OFFSET, WDG_CONTROL_OFFSET),
        ascending_words(WDG_CONTROL_OFFSET, WDG_INTCLR_OFFSET),
        ascending_words(WDG_INTCLR_OFFSET, WDG_RIS_OFFSET),
        ascending_words(WDG_RIS_OFFSET, WDG_MIS_OFFSET),
        ascending_words(WDG_MIS_OFFSET, WDG_LOCK_OFFSET),
        ascending_words(WDG_LOCK_OFFSET, WDG_ITCR_OFFSET),
        ascending_words(WDG_ITCR_OFFSET, WDG_ITOP_OFFSET),
        ascending_words(WDG_ITOP_OFFSET, WDG_PERIPHID4_OFFSET),
        ascending_words(WDG_PERIPHID4_OFFSET, WDG_PERIPHID5_OFFSET),
        ascending_words(WDG_PERIPHID5_OFFSET, WDG_PERIPHID6_OFFSET),
        ascending_words(WDG_PERIPHID6_OFFSET, WDG_PERIPHID7_OFFSET),
        ascending_words(WDG_PERIPHID7_OFFSET, WDG_PERIPHID0_OFFSET),
        ascending_words(WDG_PERIPHID0_OFFSET, WDG_PERIPHID1_OFFSET),
        ascending_words(WDG_PERIPHID1_OFFSET, WDG_PERIPHID2_OFFSET),
        ascending_words(WDG_PERIPHID2_OFFSET, WDG_PERIPHID3_OFFSET),
        ascending_words(WDG_PERIPHID3_OFFSET, WDG_PCELLID0_OFFSET),
        ascending_words(WDG_PCELLID0_OFFSET, WDG_PCELLID1_OFFSET),
        ascending_words(WDG_PCELLID1_OFFSET, WDG_PCELLID2_OFFSET),
        ascending_words(WDG_PCELLID2_OFFSET, WDG_PCELLID3_OFFSET),
        ascending_words(CRC_CR_OFFSET, CRC_DR_OFFSET),
        ascending_words(CRC_DR_OFFSET, CRC_INIT_OFFSET),
        ascending_words(CRC_INIT_OFFSET, CRC_POLY_OFFSET),
        ascending_words(I2C_CR_OFFSET, I2C_SR_OFFSET),
        ascending_words(I2C_SR_OFFSET, I2C_SAR_OFFSET),
        ascending_words(I2C_SAR_OFFSET, I2C_DBR_OFFSET),
        ascending_words(I2C_DBR_OFFSET, I2C_LCR_OFFSET),
        ascending_words(I2C_LCR_OFFSET, I2C_WCR_OFFSET),
        ascending_words(I2C_WCR_OFFSET, I2C_RST_CYCL_OFFSET),
        ascending_words(I2C_RST_CYCL_OFFSET, I2C_BMR_OFFSET),
        ascending_words(I2C_BMR_OFFSET, I2C_WFIFO_OFFSET),
        ascending_words(I2C_WFIFO_OFFSET, I2C_WFIFO_WPRT_OFFSET),
        ascending_words(I2C_WFIFO_WPRT_OFFSET, I2C_WFIFO_RPTR_OFFSET),
        ascending_words(I2C_WFIFO_RPTR_OFFSET, I2C_RFIFO_OFFSET),
        ascending_words(I2C_RFIFO_OFFSET, I2C_RFIFO_WPTR_OFFSET),
        ascending_words(I2C_RFIFO_WPTR_OFFSET, I2C_RFIFO_RPTR_OFFSET),
        ascending_words(I2C_RFIFO_RPTR_OFFSET, I2C_WFIFO_STATUS_OFFSET),
        ascending_words(I2C_WFIFO_STATUS_OFFSET, I2C_RFIFO_STATUS_OFFSET),
        ascending_words(SYSCFG_CR0_OFFSET, SYSCFG_CR1_OFFSET),
        ascending_words(SYSCFG_CR1_OFFSET, SYSCFG_CR2_OFFSET),
        ascending_words(SYSCFG_CR2_OFFSET, SYSCFG_CR3_OFFSET),
        ascending_words(SYSCFG_CR3_OFFSET, SYSCFG_CR4_OFFSET),
        ascending_words(SYSCFG_CR4_OFFSET, SYSCFG_CR5_OFFSET),
        ascending_words(SYSCFG_CR5_OFFSET, SYSCFG_CR6_OFFSET),
        ascending_words(SYSCFG_CR6_OFFSET, SYSCFG_CR7_OFFSET),
        ascending_words(SYSCFG_CR7_OFFSET, SYSCFG_CR8_OFFSET),
        ascending_words(SYSCFG_CR8_OFFSET, SYSCFG_CR9_OFFSET),
        ascending_words(SYSCFG_CR9_OFFSET, SYSCFG_CR10_OFFSET),
        ascending_words(PWR_CR0_OFFSET, PWR_CR1_OFFSET),
        ascending_words(PWR_CR1_OFFSET, PWR_SR0_OFFSET),
        ascending_words(PWR_SR0_OFFSET, PWR_SR1_OFFSET),
        ascending_words(PWR_SR1_OFFSET, PWR_CR2_OFFSET),
        ascending_words(PWR_CR2_OFFSET, PWR_CR3_OFFSET),
        ascending_words(PWR_CR3_OFFSET, PWR_CR4_OFFSET),
        ascending_words(PWR_CR4_OFFSET, PWR_CR5_OFFSET),
        ascending_words(TIMER_CR1_OFFSET, TIMER_CR2_OFFSET),
        ascending_words(TIMER_CR2_OFFSET, TIMER_SMCR_OFFSET),
        ascending_words(TIMER_SMCR_OFFSET, TIMER_DIER_OFFSET),
        ascending_words(TIMER_DIER_OFFSET, TIMER_EGR_OFFSET),
        ascending_words(TIMER_EGR_OFFSET, TIMER_CCMR1_OFFSET),
        ascending_words(TIMER_CCMR1_OFFSET, TIMER_CCMR2_OFFSET),
        ascending_words(TIMER_CCMR2_OFFSET, TIMER_CCER_OFFSET),
        ascending_words(TIMER_CCER_OFFSET, TIMER_CNT_OFFSET),
        ascending_words(TIMER_CNT_OFFSET, TIMER_PSC_OFFSET),
        ascending_words(TIMER_PSC_OFFSET, TIMER_ARR_OFFSET),
        ascending_words(TIMER_ARR_OFFSET, TIMER_CCR0_OFFSET),
        ascending_words(TIMER_CCR0_OFFSET, TIMER_CCR1_OFFSET),
        ascending_words(TIMER_CCR1_OFFSET, TIMER_CCR2_OFFSET),
        ascending_words(TIMER_CCR2_OFFSET, TIMER_CCR3_OFFSET),
        ascending_words(TIMER_CCR3_OFFSET, TIMER_DCR_OFFSET),
        ascending_words(TIMER_DCR_OFFSET, TIMER_DMAR_OFFSET),
        ascending_words(TIMER_DMAR_OFFSET, TIMER_OR_OFFSET),
        ascending_words(LPTIMER_ISR_OFFSET, LPTIMER_ICR_OFFSET),
        ascending_words(LPTIMER_ICR_OFFSET, LPTIMER_IER_OFFSET),
        ascending_words(LPTIMER_IER_OFFSET, LPTIMER_CFGR_OFFSET),
        ascending_words(LPTIMER_CFGR_OFFSET, LPTIMER_CR_OFFSET),
        ascending_words(LPTIMER_CR_OFFSET, LPTIMER_COMPARE_OFFSET),
        ascending_words(LPTIMER_COMPARE_OFFSET, LPTIMER_ARR_OFFSET),
        ascending_words(LPTIMER_ARR_OFFSET, LPTIMER_CNT_OFFSET),
        ascending_words(LPTIMER_CNT_OFFSET, LPTIMER_CSR_OFFSET),
        ascending_words(LPTIMER_CSR_OFFSET, LPTIMER_SR1_OFFSET),
        ascending_words(I2S_IER_OFFSET, I2S_IRER_OFFSET),
        ascending_words(I2S_IRER_OFFSET, I2S_ITER_OFFSET),
        ascending_words(I2S_ITER_OFFSET, I2S_CER_OFFSET),
        ascending_words(I2S_CER_OFFSET, I2S_CCR_OFFSET),
        ascending_words(I2S_CCR_OFFSET, I2S_RXFFR_OFFSET),
        ascending_words(I2S_RXFFR_OFFSET, I2S_TXFFR_OFFSET),
        ascending_words(I2S_TXFFR_OFFSET, I2S_LRBR_LTHR_OFFSET),
        ascending_words(I2S_LRBR_LTHR_OFFSET, I2S_RRBR_RTHR_OFFSET),
        ascending_words(I2S_RRBR_RTHR_OFFSET, I2S_RER_OFFSET),
        ascending_words(I2S_RER_OFFSET, I2S_TER_OFFSET),
        ascending_words(I2S_TER_OFFSET, I2S_RCR_OFFSET),
        ascending_words(I2S_RCR_OFFSET, I2S_TCR_OFFSET),
        ascending_words(I2S_TCR_OFFSET, I2S_ISR_OFFSET),
        ascending_words(I2S_ISR_OFFSET, I2S_IMR_OFFSET),
        ascending_words(I2S_IMR_OFFSET, I2S_ROR_OFFSET),
        ascending_words(I2S_ROR_OFFSET, I2S_TOR_OFFSET),
        ascending_words(I2S_TOR_OFFSET, I2S_RFCR_OFFSET),
        ascending_words(I2S_RFCR_OFFSET, I2S_TFCR_OFFSET),
        ascending_words(I2S_TFCR_OFFSET, I2S_RFF_OFFSET),
        ascending_words(I2S_RFF_OFFSET, I2S_TFF_OFFSET),
        ascending_words(I2S_TFF_OFFSET, I2S_RXDMA_OFFSET),
        ascending_words(I2S_RXDMA_OFFSET, I2S_RRXDMA_OFFSET),
        ascending_words(I2S_RRXDMA_OFFSET, I2S_TXDMA_OFFSET),
        ascending_words(I2S_TXDMA_OFFSET, I2S_RTXDMA_OFFSET),
        ascending_words(I2S_RTXDMA_OFFSET, I2S_COMP_PARAM_2_OFFSET),
        ascending_words(I2S_COMP_PARAM_2_OFFSET, I2S_COMP_PARAM_1_OFFSET),
        ascending_words(I2S_COMP_PARAM_1_OFFSET, I2S_COMP_VERSION_OFFSET),
        ascending_words(I2S_COMP_VERSION_OFFSET, I2S_COMP_TYPE_OFFSET),
        ascending_words(BSTIMER_CR1_OFFSET, BSTIMER_CR2_OFFSET),
        ascending_words(BSTIMER_CR2_OFFSET, BSTIMER_DIER_OFFSET),
        ascending_words(BSTIMER_DIER_OFFSET, BSTIMER_SR_OFFSET),
        ascending_words(BSTIMER_SR_OFFSET, BSTIMER_EGR_OFFSET),
        ascending_words(BSTIMER_EGR_OFFSET, BSTIMER_CNT_OFFSET),
        ascending_words(BSTIMER_CNT_OFFSET, BSTIMER_PSC_OFFSET),
        ascending_words(BSTIMER_PSC_OFFSET, BSTIMER_ARR_OFFSET),
        ascending_words(SEC_INT_OFFSET, SEC_RST_OFFSET),
        ascending_words(SEC_RST_OFFSET, SEC_SR_OFFSET),
        ascending_words(SEC_SR_OFFSET, SEC_FILTER0_OFFSET),
        ascending_words(SEC_FILTER0_OFFSET, SEC_FILTER1_OFFSET),
        ascending_words(SEC_FILTER1_OFFSET, SEC_FILTER2_OFFSET),
        ascending_words(SEC_FILTER2_OFFSET, SEC_FILTER3_OFFSET),
        ascending_words(QSPI_CR_OFFSET, QSPI_DCR_OFFSET),
        ascending_words(QSPI_DCR_OFFSET, QSPI_SR_OFFSET),
        ascending_words(QSPI_SR_OFFSET, QSPI_FCR_OFFSET),
        ascending_words(QSPI_FCR_OFFSET, QSPI_DLR_OFFSET),
        ascending_words(QSPI_DLR_OFFSET, QSPI_CCR_OFFSET),
        ascending_words(QSPI_CCR_OFFSET, QSPI_AR_OFFSET),
        ascending_words(QSPI_AR_OFFSET, QSPI_ABR_OFFSET),
        ascending_words(QSPI_ABR_OFFSET, QSPI_DR_OFFSET),
        ascending_words(QSPI_DR_OFFSET, QSPI_PSMKR_OFFSET),
        ascending_words(QSPI_PSMKR_OFFSET, QSPI_PSMAR_OFFSET),
        ascending_words(QSPI_PSMAR_OFFSET, QSPI_PIR_OFFSET),
        ascending_words(QSPI_PIR_OFFSET, QSPI_TOR_OFFSET),
        ascending_words(QSPI_TOR_OFFSET, QSPI_HIT0R_OFFSET),
        ascending_words(QSPI_HIT0R_OFFSET, QSPI_HIT1R_OFFSET),
        ascending_words(QSPI_HIT1R_OFFSET, QSPI_MIR_OFFSET),
        ascending_words(QSPI_MIR_OFFSET, QSPI_CFGR_OFFSET),
        ascending_words(QSPI_CFGR_OFFSET, QSPI_SBUS_START_OFFSET),
        ascending_words(DAC_CR_OFFSET, DAC_SWTRIGR_OFFSET),
        ascending_words(DAC_SWTRIGR_OFFSET, DAC_DHR_OFFSET),
        ascending_words(DAC_DHR_OFFSET, DAC_DOR_OFFSET),
        ascending_words(DAC_DOR_OFFSET, DAC_SR_OFFSET),
        ascending_words(ADC_CR_OFFSET, ADC_CFGR_OFFSET),
        ascending_words(ADC_CFGR_OFFSET, ADC_SEQR0_OFFSET),
        ascending_words(ADC_SEQR0_OFFSET, ADC_SEQR1_OFFSET),
        ascending_words(ADC_SEQR1_OFFSET, ADC_DIFFSEL_OFFSET),
        ascending_words(ADC_DIFFSEL_OFFSET, ADC_ISR_OFFSET),
        ascending_words(ADC_ISR_OFFSET, ADC_IER_OFFSET),
        ascending_words(ADC_IER_OFFSET, ADC_DR_OFFSET),
        ascending_words(ADC_DR_OFFSET, ADC_AWD0_CFGR_OFFSET),
        ascending_words(ADC_AWD0_CFGR_OFFSET, ADC_AWD1_CFGR_OFFSET),
        ascending_words(ADC_AWD1_CFGR_OFFSET, ADC_AWD2_CFGR_OFFSET),
        ascending_words(LCD_CR0_OFFSET, LCD_CR1_OFFSET),
        ascending_words(LCD_CR1_OFFSET, LCD_DR0_OFFSET),
        ascending_words(LCD_DR0_OFFSET, LCD_DR1_OFFSET),
        ascending_words(LCD_DR1_OFFSET, LCD_DR2_OFFSET),
        ascending_words(LCD_DR2_OFFSET, LCD_DR3_OFFSET),
        ascending_words(LCD_DR3_OFFSET, LCD_DR4_OFFSET),
        ascending_words(LCD_DR4_OFFSET, LCD_DR5_OFFSET),
        ascending_words(LCD_DR5_OFFSET, LCD_DR6_OFFSET),
        ascending_words(LCD_DR6_OFFSET, LCD_DR7_OFFSET),
        ascending_words(LCD_DR7_OFFSET, LCD_SR_OFFSET),
        ascending_words(LCD_SR_OFFSET, LCD_CR2_OFFSET),
{
}

/// Whether the block of `len` bytes at `base` ends at or before `next`.
pub open spec fn block_before(base: u32, len: u32, next: u32) -> bool {
    base + len <= next
}

/// The blocks of the map, taken in the order of their addresses, each end
/// before the next begins: no register belongs to two blocks.
pub proof fn lemma_blocks_apart()
    ensures
        block_before(RCC_BASE, RCC_BLOCK_LEN, SYSCFG_BASE),
        block_before(SYSCFG_BASE, SYSCFG_BLOCK_LEN, PWR_BASE),
        block_before(PWR_BASE, PWR_BLOCK_LEN, I2S_BASE),
        block_before(I2S_BASE, I2S_BLOCK_LEN, UART0_BASE),
        block_before(UART0_BASE, UART_BLOCK_LEN, UART1_BASE),
        block_before(UART1_BASE, UART_BLOCK_LEN, LPUART_BASE),
        block_before(LPUART_BASE, LPUART_BLOCK_LEN, SSP0_BASE),
        block_before(SSP0_BASE, SSP_BLOCK_LEN, I2C0_BASE),
        block_before(I2C0_BASE, I2C_BLOCK_LEN, AFEC_STATUS_BASE),
        block_before(AFEC_STATUS_BASE, AFEC_BLOCK_LEN, LORAC_BASE),
        block_before(LORAC_BASE, LORAC_BLOCK_LEN, TIMER0_SFR_BASE),
        block_before(TIMER0_SFR_BASE, TIMER_BLOCK_LEN, TIMER2_SFR_BASE),
        block_before(TIMER2_SFR_BASE, TIMER_BLOCK_LEN, BSTIMER0_SFR_BASE),
        block_before(BSTIMER0_SFR_BASE, BSTIMER_BLOCK_LEN, LPTIMER0_SFR_BASE),
        block_before(LPTIMER0_SFR_BASE, LPTIMER_BLOCK_LEN, LPTIMER1_SFR_BASE),
        block_before(LPTIMER1_SFR_BASE, LPTIMER_BLOCK_LEN, RTC_REG_BASE),
        block_before(RTC_REG_BASE, RTC_BLOCK_LEN, SEC_BASE),
        block_before(SEC_BASE, SEC_BLOCK_LEN, UART2_BASE),
        block_before(UART2_BASE, UART_BLOCK_LEN, UART3_BASE),
        block_before(UART3_BASE, UART_BLOCK_LEN, SSP1_BASE),
        block_before(SSP1_BASE, SSP_BLOCK_LEN, SSP2_BASE),
        block_before(SSP2_BASE, SSP_BLOCK_LEN, I2C1_BASE),
        block_before(I2C1_BASE, I2C_BLOCK_LEN, I2C2_BASE),
        block_before(I2C2_BASE, I2C_BLOCK_LEN, ADC_BASE),
        block_before(ADC_BASE, ADC_BLOCK_LEN, LCD_BASE),
        block_before(LCD_BASE, LCD_BLOCK_LEN, DAC_BASE),
        block_before(DAC_BASE, DAC_BLOCK_LEN, TIMER1_SFR_BASE),
        block_before(TIMER1_SFR_BASE, TIMER_BLOCK_LEN, TIMER3_SFR_BASE),
        block_before(TIMER3_SFR_BASE, TIMER_BLOCK_LEN, BSTIMER1_SFR_BASE),
        block_before(BSTIMER1_SFR_BASE, BSTIMER_BLOCK_LEN, IWDG_BASE),
        block_before(IWDG_BASE, IWDG_BLOCK_LEN, WDG_BASE),
        block_before(WDG_BASE, WDG_BLOCK_LEN, GPIOA_BASE),
        block_before(GPIOA_BASE, GPIO_BLOCK_LEN, GPIOB_BASE),
        block_before(GPIOB_BASE, GPIO_BLOCK_LEN, GPIOC_BASE),
        block_before(GPIOC_BASE, GPIO_BLOCK_LEN, GPIOD_BASE),
        block_before(GPIOD_BASE, GPIO_BLOCK_LEN, EFC_BASE),
        block_before(EFC_BASE, EFC_BLOCK_LEN, QSPI_BASE),
        block_before(QSPI_BASE, QSPI_BLOCK_LEN, CRC_BASE),
{
}

} // verus!
