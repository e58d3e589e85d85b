//! The reset and clock controller: which oscillator drives the system clock,
//! how the bus clocks are divided from it, which peripheral is clocked and
//! which is held in reset.
//!
//! Nothing here reports an error. An identifier that names no oscillator or
//! peripheral is ignored, and a call that has to wait for the hardware waits
//! without a timeout.

use vstd::prelude::*;
use crate::bits::{
    bit, field_en, field_set, lemma_en_of_no_bits, lemma_en_touches_only_mask, lemma_en_twice,
    lemma_enable_disable_round_trip, lemma_set_touches_only_mask,
};
use crate::bus::{BusState, RegisterBus, reg_en, reg_set};
use crate::peripherals::regs::{
    AFEC_BASE, AFEC_RAW_SR_OFFSET, AFEC_RAW_SR_RCO24M_READY_MASK, AFEC_RAW_SR_RCO4M_READY_MASK,
    AFEC_STATUS_BASE, LORAC_BASE, LORAC_CR1_OFFSET, LORAC_SR_OFFSET, RCC_BASE,
    RCC_CGR0_ADC_CLK_EN_MASK, RCC_CGR0_AFEC_CLK_EN_MASK, RCC_CGR0_BSTIMER0_CLK_EN_MASK,
    RCC_CGR0_BSTIMER1_CLK_EN_MASK, RCC_CGR0_CRC_CLK_EN_MASK, RCC_CGR0_DAC_CLK_EN_MASK,
    RCC_CGR0_DMAC0_CLK_EN_MASK, RCC_CGR0_DMAC1_CLK_EN_MASK, RCC_CGR0_I2C0_CLK_EN_MASK,
    RCC_CGR0_I2C1_CLK_EN_MASK, RCC_CGR0_I2C2_CLK_EN_MASK, RCC_CGR0_IOM0_CLK_EN_MASK,
    RCC_CGR0_IOM1_CLK_EN_MASK, RCC_CGR0_IOM2_CLK_EN_MASK, RCC_CGR0_IOM3_CLK_EN_MASK,
    RCC_CGR0_LCD_CLK_EN_MASK, RCC_CGR0_LORA_CLK_EN_MASK, RCC_CGR0_LPUART_CLK_EN_MASK,
    RCC_CGR0_OFFSET, RCC_CGR0_PWR_CLK_EN_MASK, RCC_CGR0_SSP0_CLK_EN_MASK,
    RCC_CGR0_SSP1_CLK_EN_MASK, RCC_CGR0_SSP2_CLK_EN_MASK, RCC_CGR0_SYSCFG_CLK_EN_MASK,
    RCC_CGR0_TIMER0_CLK_EN_MASK, RCC_CGR0_TIMER1_CLK_EN_MASK, RCC_CGR0_TIMER2_CLK_EN_MASK,
    RCC_CGR0_TIMER3_CLK_EN_MASK, RCC_CGR0_UART0_CLK_EN_MASK, RCC_CGR0_UART1_CLK_EN_MASK,
    RCC_CGR0_UART2_CLK_EN_MASK, RCC_CGR0_UART3_CLK_EN_MASK, RCC_CGR1_I2S_CLK_EN_MASK,
    RCC_CGR1_IWDG_CLK_EN_MASK, RCC_CGR1_LPTIMER0_CLK_EN_MASK, RCC_CGR1_LPTIMER0_PCLK_EN_MASK,
    RCC_CGR1_LPTIMER1_CLK_EN_MASK, RCC_CGR1_LPTIMER1_PCLK_EN_MASK, RCC_CGR1_OFFSET,
    RCC_CGR1_QSPI_CLK_EN_MASK, RCC_CGR1_RNGC_CLK_EN_MASK, RCC_CGR1_RTC_CLK_EN_MASK,
    RCC_CGR1_SAC_CLK_EN_MASK, RCC_CGR1_SEC_CLK_EN_MASK, RCC_CGR1_WDG_CLK_EN_MASK,
    RCC_CGR1_WDG_CNT_CLK_EN_MASK, RCC_CGR2_IWDG_CLK_EN_MASK, RCC_CGR2_LCD_AON_CLK_EN_MASK,
    RCC_CGR2_LPTIMER0_AON_CLK_EN_MASK, RCC_CGR2_LPTIMER1_AON_CLK_EN_MASK,
    RCC_CGR2_LPUART_AON_CLK_EN_MASK, RCC_CGR2_OFFSET, RCC_CGR2_RTC_AON_CLK_EN_MASK,
    RCC_CR0_HCLK_DIV_1, RCC_CR0_HCLK_DIV_128, RCC_CR0_HCLK_DIV_16, RCC_CR0_HCLK_DIV_2,
    RCC_CR0_HCLK_DIV_256, RCC_CR0_HCLK_DIV_32, RCC_CR0_HCLK_DIV_4, RCC_CR0_HCLK_DIV_512,
    RCC_CR0_HCLK_DIV_64, RCC_CR0_HCLK_DIV_8, RCC_CR0_HCLK_DIV_MASK, RCC_CR0_MCO_CLK_DIV_1,
    RCC_CR0_MCO_CLK_DIV_16, RCC_CR0_MCO_CLK_DIV_2, RCC_CR0_MCO_CLK_DIV_4, RCC_CR0_MCO_CLK_DIV_8,
    RCC_CR0_MCO_CLK_DIV_MASK, RCC_CR0_MCO_CLK_OUT_EN_MASK, RCC_CR0_MCO_CLK_SEL_MASK,
    RCC_CR0_MCO_CLK_SEL_RCO32K, RCC_CR0_MCO_CLK_SEL_RCO48M, RCC_CR0_MCO_CLK_SEL_RCO4M,
    RCC_CR0_MCO_CLK_SEL_SYSCLCK, RCC_CR0_MCO_CLK_SEL_XO24M, RCC_CR0_MCO_CLK_SEL_XO32K,
    RCC_CR0_MCO_CLK_SEL_XO32M, RCC_CR0_OFFSET, RCC_CR0_PCLK0_DIV_1, RCC_CR0_PCLK0_DIV_16,
    RCC_CR0_PCLK0_DIV_2, RCC_CR0_PCLK0_DIV_4, RCC_CR0_PCLK0_DIV_8, RCC_CR0_PCLK0_DIV_MASK,
    RCC_CR0_PCLK1_DIV_1, RCC_CR0_PCLK1_DIV_16, RCC_CR0_PCLK1_DIV_2, RCC_CR0_PCLK1_DIV_4,
    RCC_CR0_PCLK1_DIV_8, RCC_CR0_PCLK1_DIV_MASK, RCC_CR0_STCLKEN_SEL_RCO32K,
    RCC_CR0_STCLKEN_SEL_XO32K, RCC_CR0_SYSCLK_SEL_MASK, RCC_CR0_SYSCLK_SEL_RCO32K,
    RCC_CR0_SYSCLK_SEL_RCO48M, RCC_CR0_SYSCLK_SEL_RCO48M_DIV2, RCC_CR0_SYSCLK_SEL_RCO4M,
    RCC_CR0_SYSCLK_SEL_XO24M, RCC_CR0_SYSCLK_SEL_XO32K, RCC_CR0_SYSCLK_SEL_XO32M,
    RCC_CR1_IWDG_CLK_SEL_MASK, RCC_CR1_IWDG_CLK_SEL_RCO32K, RCC_CR1_IWDG_CLK_SEL_XO32K,
    RCC_CR1_LCD_CLK_SEL_MASK, RCC_CR1_LCD_CLK_SEL_RCO32K, RCC_CR1_LCD_CLK_SEL_RCO4M,
    RCC_CR1_LCD_CLK_SEL_XO32K, RCC_CR1_LPTIMER0_CLK_SEL_MASK, RCC_CR1_LPTIMER0_CLK_SEL_PCLK0,
    RCC_CR1_LPTIMER0_CLK_SEL_RCO32K, RCC_CR1_LPTIMER0_CLK_SEL_RCO4M,
    RCC_CR1_LPTIMER0_CLK_SEL_XO32K, RCC_CR1_LPTIMER0_EXTCLK_SEL_MASK,
    RCC_CR1_LPTIMER1_CLK_SEL_MASK, RCC_CR1_LPTIMER1_CLK_SEL_PCLK0,
    RCC_CR1_LPTIMER1_CLK_SEL_RCO32K, RCC_CR1_LPTIMER1_CLK_SEL_RCO4M,
    RCC_CR1_LPTIMER1_CLK_SEL_XO32K, RCC_CR1_LPTIMER1_EXTCLK_SEL_MASK, RCC_CR1_LPUART_CLK_SEL_MASK,
    RCC_CR1_LPUART_CLK_SEL_RCO32K, RCC_CR1_LPUART_CLK_SEL_RCO4M, RCC_CR1_LPUART_CLK_SEL_XO32K,
    RCC_CR1_OFFSET, RCC_CR1_RTC_CLK_SEL_MASK, RCC_CR1_RTC_CLK_SEL_RCO32K,
    RCC_CR1_RTC_CLK_SEL_XO32K, RCC_CR2_ADC_CLK_SEL_MASK, RCC_CR2_ADC_CLK_SEL_PCLK1,
    RCC_CR2_ADC_CLK_SEL_RCO48M, RCC_CR2_ADC_CLK_SEL_SYSCLK, RCC_CR2_I2S_CLK_SEL_EXT_CLK,
    RCC_CR2_I2S_CLK_SEL_MASK, RCC_CR2_I2S_CLK_SEL_PCLK0, RCC_CR2_I2S_CLK_SEL_XO24M,
    RCC_CR2_I2S_CLK_SEL_XO32M, RCC_CR2_OFFSET, RCC_CR2_QSPI_CLK_SEL_HCLK,
    RCC_CR2_QSPI_CLK_SEL_MASK, RCC_CR2_QSPI_CLK_SEL_SYSCLK, RCC_CR2_UART0_CLK_SEL_MASK,
    RCC_CR2_UART0_CLK_SEL_PCLK0, RCC_CR2_UART0_CLK_SEL_RCO4M, RCC_CR2_UART0_CLK_SEL_XO24M,
    RCC_CR2_UART0_CLK_SEL_XO32K, RCC_CR2_UART1_CLK_SEL_MASK, RCC_CR2_UART1_CLK_SEL_PCLK0,
    RCC_CR2_UART1_CLK_SEL_RCO4M, RCC_CR2_UART1_CLK_SEL_XO24M, RCC_CR2_UART1_CLK_SEL_XO32K,
    RCC_CR2_UART2_CLK_SEL_MASK, RCC_CR2_UART2_CLK_SEL_PCLK1, RCC_CR2_UART2_CLK_SEL_RCO4M,
    RCC_CR2_UART2_CLK_SEL_XO24M, RCC_CR2_UART2_CLK_SEL_XO32K, RCC_CR2_UART3_CLK_SEL_MASK,
    RCC_CR2_UART3_CLK_SEL_PCLK1, RCC_CR2_UART3_CLK_SEL_RCO4M, RCC_CR2_UART3_CLK_SEL_XO24M,
    RCC_CR2_UART3_CLK_SEL_XO32K, RCC_CR3_I2S_MCLK_DIV_MASK, RCC_CR3_I2S_SCLK_DIV_MASK,
    RCC_CR3_OFFSET, RCC_RST0_IOM_RST_N_MASK, RCC_RST0_OFFSET, RCC_RST1_OFFSET, RCC_RST_CR_OFFSET,
    RCC_RST_CR_RESET_REQ_EN_MASK, RCC_SR1_ADC_CLK_EN_SYNC, RCC_SR1_I2S_CLK_EN_SYNC,
    RCC_SR1_IWDG_CLK_EN_SYNC, RCC_SR1_LCD_CLK_EN_SYNC, RCC_SR1_LPTIMER0_CLK_EN_SYNC,
    RCC_SR1_LPTIMER1_CLK_EN_SYNC, RCC_SR1_LPUART_CLK_EN_SYNC, RCC_SR1_MCO_CLK_EN_SYNC,
    RCC_SR1_OFFSET, RCC_SR1_QSPI_CLK_EN_SYNC, RCC_SR1_RTC_CLK_EN_SYNC, RCC_SR1_UART0_CLK_EN_SYNC,
    RCC_SR1_UART1_CLK_EN_SYNC, RCC_SR1_UART2_CLK_EN_SYNC, RCC_SR1_UART3_CLK_EN_SYNC,
    RCC_SR_ALL_DONE, RCC_SR_OFFSET, Rcc, reg_addr,
};

verus! {

pub const RCC_FREQ_48M: u32 = 48000000;
pub const RCC_FREQ_40M: u32 = 40000000;
pub const RCC_FREQ_32M: u32 = 32000000;
pub const RCC_FREQ_30M: u32 = 30000000;
pub const RCC_FREQ_24M: u32 = 24000000;
/// The frequency of the oscillator that goes by the name of 4 MHz.
pub const RCC_FREQ_4M: u32 = 3600000;
pub const RCC_FREQ_32768: u32 = 32768;
pub const RCC_FREQ_32000: u32 = 32000;

// RCC CLK type
pub const RCC_SYS_CLK: u32 = 0;
pub const RCC_HCLK: u32 = 1;
pub const RCC_PCLK0: u32 = 2;
pub const RCC_PCLK1: u32 = 3;

// RCC oscillator type
pub const RCC_OSC_RCO48M: u32 = 0;
pub const RCC_OSC_RCO32K: u32 = 1;
pub const RCC_OSC_XO32K: u32 = 2;
pub const RCC_OSC_XO24M: u32 = 3;
pub const RCC_OSC_XO32M: u32 = 4;
pub const RCC_OSC_RCO4M: u32 = 5;

// The source of the SYSCLK
pub const RCC_SYS_CLK_SOURCE_RCO48M_DIV2: u32 = RCC_CR0_SYSCLK_SEL_RCO48M_DIV2;
pub const RCC_SYS_CLK_SOURCE_RCO48M: u32 = RCC_CR0_SYSCLK_SEL_RCO48M;
pub const RCC_SYS_CLK_SOURCE_RCO32K: u32 = RCC_CR0_SYSCLK_SEL_RCO32K;
pub const RCC_SYS_CLK_SOURCE_XO32K: u32 = RCC_CR0_SYSCLK_SEL_XO32K;
pub const RCC_SYS_CLK_SOURCE_XO24M: u32 = RCC_CR0_SYSCLK_SEL_XO24M;
pub const RCC_SYS_CLK_SOURCE_XO32M: u32 = RCC_CR0_SYSCLK_SEL_XO32M;
pub const RCC_SYS_CLK_SOURCE_RCO4M: u32 = RCC_CR0_SYSCLK_SEL_RCO4M;

// The source of the SYSTICK
pub const RCC_SYSTICK_SOURCE_XO32K: u32 = RCC_CR0_STCLKEN_SEL_XO32K;
pub const RCC_SYSTICK_SOURCE_RCO32K: u32 = RCC_CR0_STCLKEN_SEL_RCO32K;
pub const RCC_SYSTICK_SOURCE_HCLK: u32 = RCC_CR0_STCLKEN_SEL_RCO32K + 1;

// The source of the MCOCLK
pub const RCC_MCO_CLK_SOURCE_RCO32K: u32 = RCC_CR0_MCO_CLK_SEL_RCO32K;
pub const RCC_MCO_CLK_SOURCE_XO32K: u32 = RCC_CR0_MCO_CLK_SEL_XO32K;
pub const RCC_MCO_CLK_SOURCE_RCO4M: u32 = RCC_CR0_MCO_CLK_SEL_RCO4M;
pub const RCC_MCO_CLK_SOURCE_XO24M: u32 = RCC_CR0_MCO_CLK_SEL_XO24M;
pub const RCC_MCO_CLK_SOURCE_XO32M: u32 = RCC_CR0_MCO_CLK_SEL_XO32M;
pub const RCC_MCO_CLK_SOURCE_RCO48M: u32 = RCC_CR0_MCO_CLK_SEL_RCO48M;
pub const RCC_MCO_CLK_SOURCE_SYSCLK: u32 = RCC_CR0_MCO_CLK_SEL_SYSCLCK;

// The source of the UART0 CLK
pub const RCC_UART0_CLK_SOURCE_PCLK0: u32 = RCC_CR2_UART0_CLK_SEL_PCLK0;
pub const RCC_UART0_CLK_SOURCE_RCO4M: u32 = RCC_CR2_UART0_CLK_SEL_RCO4M;
pub const RCC_UART0_CLK_SOURCE_XO32K: u32 = RCC_CR2_UART0_CLK_SEL_XO32K;
pub const RCC_UART0_CLK_SOURCE_XO24M: u32 = RCC_CR2_UART0_CLK_SEL_XO24M;

// The source of the UART1 CLK
pub const RCC_UART1_CLK_SOURCE_PCLK0: u32 = RCC_CR2_UART1_CLK_SEL_PCLK0;
pub const RCC_UART1_CLK_SOURCE_RCO4M: u32 = RCC_CR2_UART1_CLK_SEL_RCO4M;
pub const RCC_UART1_CLK_SOURCE_XO32K: u32 = RCC_CR2_UART1_CLK_SEL_XO32K;
pub const RCC_UART1_CLK_SOURCE_XO24M: u32 = RCC_CR2_UART1_CLK_SEL_XO24M;

// The source of the UART2 CLK
pub const RCC_UART2_CLK_SOURCE_PCLK1: u32 = RCC_CR2_UART2_CLK_SEL_PCLK1;
pub const RCC_UART2_CLK_SOURCE_RCO4M: u32 = RCC_CR2_UART2_CLK_SEL_RCO4M;
pub const RCC_UART2_CLK_SOURCE_XO32K: u32 = RCC_CR2_UART2_CLK_SEL_XO32K;
pub const RCC_UART2_CLK_SOURCE_XO24M: u32 = RCC_CR2_UART2_CLK_SEL_XO24M;

// The source of the UART3 CLK
pub const RCC_UART3_CLK_SOURCE_PCLK1: u32 = RCC_CR2_UART3_CLK_SEL_PCLK1;
pub const RCC_UART3_CLK_SOURCE_RCO4M: u32 = RCC_CR2_UART3_CLK_SEL_RCO4M;
pub const RCC_UART3_CLK_SOURCE_XO32K: u32 = RCC_CR2_UART3_CLK_SEL_XO32K;
pub const RCC_UART3_CLK_SOURCE_XO24M: u32 = RCC_CR2_UART3_CLK_SEL_XO24M;

// The source of the LPTIMER0 CLK
pub const RCC_LPTIMER0_CLK_SOURCE_PCLK0: u32 = RCC_CR1_LPTIMER0_CLK_SEL_PCLK0;
pub const RCC_LPTIMER0_CLK_SOURCE_RCO4M: u32 = RCC_CR1_LPTIMER0_CLK_SEL_RCO4M;
pub const RCC_LPTIMER0_CLK_SOURCE_XO32K: u32 = RCC_CR1_LPTIMER0_CLK_SEL_XO32K;
pub const RCC_LPTIMER0_CLK_SOURCE_RCO32K: u32 = RCC_CR1_LPTIMER0_CLK_SEL_RCO32K;
pub const RCC_LPTIMER0_CLK_SOURCE_EXTCLK: u32 = RCC_CR1_LPTIMER0_CLK_SEL_RCO32K + 1;

// The source of the LPTIMER1 CLK
pub const RCC_LPTIMER1_CLK_SOURCE_PCLK0: u32 = RCC_CR1_LPTIMER1_CLK_SEL_PCLK0;
pub const RCC_LPTIMER1_CLK_SOURCE_RCO4M: u32 = RCC_CR1_LPTIMER1_CLK_SEL_RCO4M;
pub const RCC_LPTIMER1_CLK_SOURCE_XO32K: u32 = RCC_CR1_LPTIMER1_CLK_SEL_XO32K;
pub const RCC_LPTIMER1_CLK_SOURCE_RCO32K: u32 = RCC_CR1_LPTIMER1_CLK_SEL_RCO32K;
pub const RCC_LPTIMER1_CLK_SOURCE_EXTCLK: u32 = RCC_CR1_LPTIMER1_CLK_SEL_RCO32K + 1;

// The source of the LCD CLK
pub const RCC_LCD_CLK_SOURCE_XO32K: u32 = RCC_CR1_LCD_CLK_SEL_XO32K;
pub const RCC_LCD_CLK_SOURCE_RCO32K: u32 = RCC_CR1_LCD_CLK_SEL_RCO32K;
pub const RCC_LCD_CLK_SOURCE_RCO4M: u32 = RCC_CR1_LCD_CLK_SEL_RCO4M;

// The source of the LPUART CLK
pub const RCC_LPUART_CLK_SOURCE_XO32K: u32 = RCC_CR1_LPUART_CLK_SEL_XO32K;
pub const RCC_LPUART_CLK_SOURCE_RCO32K: u32 = RCC_CR1_LPUART_CLK_SEL_RCO32K;
pub const RCC_LPUART_CLK_SOURCE_RCO4M: u32 = RCC_CR1_LPUART_CLK_SEL_RCO4M;

// The source of the RTC CLK
pub const RCC_RTC_CLK_SOURCE_XO32K: u32 = RCC_CR1_RTC_CLK_SEL_XO32K;
pub const RCC_RTC_CLK_SOURCE_RCO32K: u32 = RCC_CR1_RTC_CLK_SEL_RCO32K;

// The source of the IWDG CLK
pub const RCC_IWDG_CLK_SOURCE_XO32K: u32 = RCC_CR1_IWDG_CLK_SEL_XO32K;
pub const RCC_IWDG_CLK_SOURCE_RCO32K: u32 = RCC_CR1_IWDG_CLK_SEL_RCO32K;

// The source of the ADC CLK
pub const RCC_ADC_CLK_SOURCE_PCLK1: u32 = RCC_CR2_ADC_CLK_SEL_PCLK1;
pub const RCC_ADC_CLK_SOURCE_SYSCLK: u32 = RCC_CR2_ADC_CLK_SEL_SYSCLK;
pub const RCC_ADC_CLK_SOURCE_RCO48M: u32 = RCC_CR2_ADC_CLK_SEL_RCO48M;

// The source of the QSPI CLK
pub const RCC_QSPI_CLK_SOURCE_HCLK: u32 = RCC_CR2_QSPI_CLK_SEL_HCLK;
pub const RCC_QSPI_CLK_SOURCE_SYSCLK: u32 = RCC_CR2_QSPI_CLK_SEL_SYSCLK;

// The source of the I2S CLK
pub const RCC_I2S_CLK_SOURCE_PCLK0: u32 = RCC_CR2_I2S_CLK_SEL_PCLK0;
pub const RCC_I2S_CLK_SOURCE_XO24M: u32 = RCC_CR2_I2S_CLK_SEL_XO24M;
pub const RCC_I2S_CLK_SOURCE_XO32M: u32 = RCC_CR2_I2S_CLK_SEL_XO32M;
pub const RCC_I2S_CLK_SOURCE_EXT_CLK: u32 = RCC_CR2_I2S_CLK_SEL_EXT_CLK;

// The divider of the HCLK
pub const RCC_HCLK_DIV_1: u32 = RCC_CR0_HCLK_DIV_1;
pub const RCC_HCLK_DIV_2: u32 = RCC_CR0_HCLK_DIV_2;
pub const RCC_HCLK_DIV_4: u32 = RCC_CR0_HCLK_DIV_4;
pub const RCC_HCLK_DIV_8: u32 = RCC_CR0_HCLK_DIV_8;
pub const RCC_HCLK_DIV_16: u32 = RCC_CR0_HCLK_DIV_16;
pub const RCC_HCLK_DIV_32: u32 = RCC_CR0_HCLK_DIV_32;
pub const RCC_HCLK_DIV_64: u32 = RCC_CR0_HCLK_DIV_64;
pub const RCC_HCLK_DIV_128: u32 = RCC_CR0_HCLK_DIV_128;
pub const RCC_HCLK_DIV_256: u32 = RCC_CR0_HCLK_DIV_256;
pub const RCC_HCLK_DIV_512: u32 = RCC_CR0_HCLK_DIV_512;

// The divider of the PCLK0
pub const RCC_PCLK0_DIV_1: u32 = RCC_CR0_PCLK0_DIV_1;
pub const RCC_PCLK0_DIV_2: u32 = RCC_CR0_PCLK0_DIV_2;
pub const RCC_PCLK0_DIV_4: u32 = RCC_CR0_PCLK0_DIV_4;
pub const RCC_PCLK0_DIV_8: u32 = RCC_CR0_PCLK0_DIV_8;
pub const RCC_PCLK0_DIV_16: u32 = RCC_CR0_PCLK0_DIV_16;

// The divider of the PCLK1
pub const RCC_PCLK1_DIV_1: u32 = RCC_CR0_PCLK1_DIV_1;
pub const RCC_PCLK1_DIV_2: u32 = RCC_CR0_PCLK1_DIV_2;
pub const RCC_PCLK1_DIV_4: u32 = RCC_CR0_PCLK1_DIV_4;
pub const RCC_PCLK1_DIV_8: u32 = RCC_CR0_PCLK1_DIV_8;
pub const RCC_PCLK1_DIV_16: u32 = RCC_CR0_PCLK1_DIV_16;

// The divider of the MCO CLK
pub const RCC_MCO_CLK_DIV_1: u32 = RCC_CR0_MCO_CLK_DIV_1;
pub const RCC_MCO_CLK_DIV_2: u32 = RCC_CR0_MCO_CLK_DIV_2;
pub const RCC_MCO_CLK_DIV_4: u32 = RCC_CR0_MCO_CLK_DIV_4;
pub const RCC_MCO_CLK_DIV_8: u32 = RCC_CR0_MCO_CLK_DIV_8;
pub const RCC_MCO_CLK_DIV_16: u32 = RCC_CR0_MCO_CLK_DIV_16;

// RCC peripherals
pub const RCC_PERIPHERAL_SAC: u32 = 0x00;
pub const RCC_PERIPHERAL_SEC: u32 = 0x01;
pub const RCC_PERIPHERAL_CRC: u32 = 0x02;
pub const RCC_PERIPHERAL_RTC: u32 = 0x03;
pub const RCC_PERIPHERAL_WDG: u32 = 0x04;
pub const RCC_PERIPHERAL_IWDG: u32 = 0x05;
pub const RCC_PERIPHERAL_LPTIMER0: u32 = 0x06;
pub const RCC_PERIPHERAL_BSTIMER1: u32 = 0x07;
pub const RCC_PERIPHERAL_BSTIMER0: u32 = 0x08;
pub const RCC_PERIPHERAL_TIMER3: u32 = 0x09;
pub const RCC_PERIPHERAL_TIMER2: u32 = 0x0A;
pub const RCC_PERIPHERAL_TIMER1: u32 = 0x0B;
pub const RCC_PERIPHERAL_TIMER0: u32 = 0x0C;
pub const RCC_PERIPHERAL_GPIOA: u32 = 0x0D;
pub const RCC_PERIPHERAL_GPIOB: u32 = 0x20;
pub const RCC_PERIPHERAL_GPIOC: u32 = 0x21;
pub const RCC_PERIPHERAL_GPIOD: u32 = 0x22;
pub const RCC_PERIPHERAL_LORA: u32 = 0x0E;
pub const RCC_PERIPHERAL_DAC: u32 = 0x0F;
pub const RCC_PERIPHERAL_LCD: u32 = 0x10;
pub const RCC_PERIPHERAL_AFEC: u32 = 0x11;
pub const RCC_PERIPHERAL_ADC: u32 = 0x12;
pub const RCC_PERIPHERAL_I2C2: u32 = 0x14;
pub const RCC_PERIPHERAL_I2C1: u32 = 0x15;
pub const RCC_PERIPHERAL_I2C0: u32 = 0x16;
pub const RCC_PERIPHERAL_QSPI: u32 = 0x17;
pub const RCC_PERIPHERAL_SSP2: u32 = 0x18;
pub const RCC_PERIPHERAL_SSP1: u32 = 0x19;
pub const RCC_PERIPHERAL_SSP0: u32 = 0x1A;
pub const RCC_PERIPHERAL_LPUART: u32 = 0x1B;
pub const RCC_PERIPHERAL_UART3: u32 = 0x1C;
pub const RCC_PERIPHERAL_UART2: u32 = 0x1D;
pub const RCC_PERIPHERAL_UART1: u32 = 0x1E;
pub const RCC_PERIPHERAL_UART0: u32 = 0x1F;
pub const RCC_PERIPHERAL_DMA1: u32 = 0x30;
pub const RCC_PERIPHERAL_DMA0: u32 = 0x31;
pub const RCC_PERIPHERAL_I2S: u32 = 0x32;
pub const RCC_PERIPHERAL_RNGC: u32 = 0x33;
pub const RCC_PERIPHERAL_LPTIMER1: u32 = 0x34;
pub const RCC_PERIPHERAL_SYSCFG: u32 = 0x40;
pub const RCC_PERIPHERAL_PWR: u32 = 0x41;

// RCC reset mask
pub const RCC_RESET_MASK_SEC: u32 = 0x02;
pub const RCC_RESET_MASK_CPU: u32 = 0x04;
pub const RCC_RESET_MASK_EFC: u32 = 0x08;
pub const RCC_RESET_MASK_WDG: u32 = 0x10;
pub const RCC_RESET_MASK_IWDG: u32 = 0x20;
pub const RCC_RESET_MASK_ALL: u32 = 0x3E;

// Analog control words behind the front-end controller. They are reached by
// index, not by a block offset; see `analog_addr`.

/// Index of the analog word that holds the 32 kHz oscillator controls.
pub const ANALOG_OSC32K_INDEX: u32 = 0x02;
/// Index of the analog word that holds the high-speed oscillator controls.
pub const ANALOG_OSC_INDEX: u32 = 0x06;
/// Cleared to start the internal 32 kHz oscillator, set to stop it.
pub const ANALOG_RCO32K_OFF: u32 = 0x0000_8000;
/// Cleared to start the external 32 kHz crystal, set to stop it.
pub const ANALOG_XO32K_OFF: u32 = 0x0000_6000;
/// The two control bits of the external 24 MHz crystal.
pub const ANALOG_XO24M_MASK: u32 = 0x0000_0018;
/// The value of the two bits that starts the 24 MHz crystal.
pub const ANALOG_XO24M_RUN: u32 = 0x0000_0008;
/// The value of the two bits that stops the 24 MHz crystal.
pub const ANALOG_XO24M_STOP: u32 = 0x0000_0010;
/// Cleared to start the internal 48 MHz oscillator, set to stop it.
pub const ANALOG_RCO48M_OFF: u32 = 0x0000_0020;
/// Cleared to start the internal 4 MHz oscillator, set to stop it.
pub const ANALOG_RCO4M_OFF: u32 = 0x0000_0040;

// Bits of the radio controller that run the 32 MHz crystal.

/// Set in the radio controller's `CR1` to start the 32 MHz crystal, cleared
/// to stop it.
pub const LORAC_CR1_XO_EN: u32 = 0x0000_0004;
/// The bit `nreset` of the radio controller's `CR1`.
pub const LORAC_CR1_NRESET: u32 = 0x0000_0020;
/// The bit `por` of the radio controller's `CR1`.
pub const LORAC_CR1_POR: u32 = 0x0000_0080;
/// The flag of the radio controller's `SR` that is awaited after the crystal
/// has been started or stopped.
pub const LORAC_SR_XO_READY: u32 = 0x0000_0002;

/// The address of the analog control word with the given index.
pub open spec fn spec_analog_addr(index: u32) -> u32 {
    AFEC_BASE | (index << 2)
}

#[verifier::when_used_as_spec(spec_analog_addr)]
pub fn analog_addr(index: u32) -> (addr: u32)
    ensures
        addr == spec_analog_addr(index),
{
    AFEC_BASE | (index << 2)
}

/// Reads the analog control word with the given index.
pub fn analog_rd<B: RegisterBus>(bus: &B, index: u32) -> (value: u32)
    ensures
        value == bus@.read(analog_addr(index)),
{
    bus.read(analog_addr(index))
}

/// Writes the analog control word with the given index.
pub fn analog_wr<B: RegisterBus>(bus: &mut B, index: u32, value: u32)
    ensures
        final(bus)@ == old(bus)@.write(analog_addr(index), value),
{
    bus.write(analog_addr(index), value);
}

// ---------------------------------------------------------------------------
// Clock tree
// ---------------------------------------------------------------------------

/// The nominal frequency, in hertz, of the system clock that `cr0` selects.
/// A selector value that names no oscillator of this table (the halved
/// 48 MHz source and the PLL among them) counts as 24 MHz: a wrong selector
/// is not reported.
pub open spec fn sys_clk_freq(cr0: u32) -> u32 {
    let sel = cr0 & RCC_CR0_SYSCLK_SEL_MASK;
    if sel == RCC_CR0_SYSCLK_SEL_RCO48M {
        RCC_FREQ_48M
    } else if sel == RCC_CR0_SYSCLK_SEL_RCO32K {
        RCC_FREQ_32000
    } else if sel == RCC_CR0_SYSCLK_SEL_XO32K {
        RCC_FREQ_32768
    } else if sel == RCC_CR0_SYSCLK_SEL_XO24M {
        RCC_FREQ_24M
    } else if sel == RCC_CR0_SYSCLK_SEL_XO32M {
        RCC_FREQ_32M
    } else if sel == RCC_CR0_SYSCLK_SEL_RCO4M {
        RCC_FREQ_4M
    } else {
        RCC_FREQ_24M
    }
}

/// The shift count in the AHB divider field of `cr0`.
pub open spec fn hclk_shift(cr0: u32) -> u32 {
    (cr0 & RCC_CR0_HCLK_DIV_MASK) >> 8
}

/// The shift count in the first APB divider field of `cr0`.
pub open spec fn pclk0_shift(cr0: u32) -> u32 {
    (cr0 & RCC_CR0_PCLK0_DIV_MASK) >> 5
}

/// The shift count in the second APB divider field of `cr0`.
pub open spec fn pclk1_shift(cr0: u32) -> u32 {
    (cr0 & RCC_CR0_PCLK1_DIV_MASK) >> 15
}

/// The frequency, in hertz, of the clock `clk` when the control register
/// holds `cr0`: the system clock, halved once per count of the AHB divider
/// for `RCC_HCLK`, and again once per count of the APB divider for
/// `RCC_PCLK0` and `RCC_PCLK1`. Any other `clk` is the system clock.
pub open spec fn clk_freq(cr0: u32, clk: u32) -> u32 {
    let sys = sys_clk_freq(cr0);
    if clk == RCC_HCLK {
        sys >> hclk_shift(cr0)
    } else if clk == RCC_PCLK0 {
        (sys >> hclk_shift(cr0)) >> pclk0_shift(cr0)
    } else if clk == RCC_PCLK1 {
        (sys >> hclk_shift(cr0)) >> pclk1_shift(cr0)
    } else {
        sys
    }
}

// ---------------------------------------------------------------------------
// Clock gates
// ---------------------------------------------------------------------------

/// How the clock of one peripheral is switched. Registers are named by their
/// offset in the controller's block.
#[derive(Clone, Copy, Debug, PartialEq, Eq, Structural)]
pub enum ClockGate {
    /// The identifier names no gated peripheral.
    Absent,
    /// One enable bit.
    Plain { reg: u32, mask: u32 },
    /// Two enable bits of one register, switched one after the other.
    Paired { reg: u32, first: u32, second: u32 },
    /// An enable bit and its mirror in the always-on domain.
    Mirrored { reg: u32, mask: u32, aon: u32 },
    /// A bus-clock bit, a mirror in the always-on domain and a counter-clock
    /// bit, all of the low-power timers.
    Timer { bus_clk: u32, aon: u32, counter_clk: u32 },
}

/// How the clock of the peripheral with the given identifier is gated.
pub open spec fn spec_clock_gate(peripheral: u32) -> ClockGate {
    if peripheral == RCC_PERIPHERAL_UART0 {
        ClockGate::Plain { reg: RCC_CGR0_OFFSET, mask: RCC_CGR0_UART0_CLK_EN_MASK }
    } else if peripheral == RCC_PERIPHERAL_UART1 {
        ClockGate::Plain { reg: RCC_CGR0_OFFSET, mask: RCC_CGR0_UART1_CLK_EN_MASK }
    } else if peripheral == RCC_PERIPHERAL_UART2 {
        ClockGate::Plain { reg: RCC_CGR0_OFFSET, mask: RCC_CGR0_UART2_CLK_EN_MASK }
    } else if peripheral == RCC_PERIPHERAL_UART3 {
        ClockGate::Plain { reg: RCC_CGR0_OFFSET, mask: RCC_CGR0_UART3_CLK_EN_MASK }
    } else if peripheral == RCC_PERIPHERAL_LPUART {
        ClockGate::Mirrored {
            reg: RCC_CGR0_OFFSET,
            mask: RCC_CGR0_LPUART_CLK_EN_MASK,
            aon: RCC_CGR2_LPUART_AON_CLK_EN_MASK,
        }
    } else if peripheral == RCC_PERIPHERAL_SSP0 {
        ClockGate::Plain { reg: RCC_CGR0_OFFSET, mask: RCC_CGR0_SSP0_CLK_EN_MASK }
    } else if peripheral == RCC_PERIPHERAL_SSP1 {
        ClockGate::Plain { reg: RCC_CGR0_OFFSET, mask: RCC_CGR0_SSP1_CLK_EN_MASK }
    } else if peripheral == RCC_PERIPHERAL_SSP2 {
        ClockGate::Plain { reg: RCC_CGR0_OFFSET, mask: RCC_CGR0_SSP2_CLK_EN_MASK }
    } else if peripheral == RCC_PERIPHERAL_QSPI {
        ClockGate::Plain { reg: RCC_CGR1_OFFSET, mask: RCC_CGR1_QSPI_CLK_EN_MASK }
    } else if peripheral == RCC_PERIPHERAL_I2C0 {
        ClockGate::Plain { reg: RCC_CGR0_OFFSET, mask: RCC_CGR0_I2C0_CLK_EN_MASK }
    } else if peripheral == RCC_PERIPHERAL_I2C1 {
        ClockGate::Plain { reg: RCC_CGR0_OFFSET, mask: RCC_CGR0_I2C1_CLK_EN_MASK }
    } else if peripheral == RCC_PERIPHERAL_I2C2 {
        ClockGate::Plain { reg: RCC_CGR0_OFFSET, mask: RCC_CGR0_I2C2_CLK_EN_MASK }
    } else if peripheral == RCC_PERIPHERAL_ADC {
        ClockGate::Plain { reg: RCC_CGR0_OFFSET, mask: RCC_CGR0_ADC_CLK_EN_MASK }
    } else if peripheral == RCC_PERIPHERAL_DAC {
        ClockGate::Plain { reg: RCC_CGR0_OFFSET, mask: RCC_CGR0_DAC_CLK_EN_MASK }
    } else if peripheral == RCC_PERIPHERAL_AFEC {
        ClockGate::Plain { reg: RCC_CGR0_OFFSET, mask: RCC_CGR0_AFEC_CLK_EN_MASK }
    } else if peripheral == RCC_PERIPHERAL_LCD {
        ClockGate::Mirrored {
            reg: RCC_CGR0_OFFSET,
            mask: RCC_CGR0_LCD_CLK_EN_MASK,
            aon: RCC_CGR2_LCD_AON_CLK_EN_MASK,
        }
    } else if peripheral == RCC_PERIPHERAL_LORA {
        ClockGate::Plain { reg: RCC_CGR0_OFFSET, mask: RCC_CGR0_LORA_CLK_EN_MASK }
    } else if peripheral == RCC_PERIPHERAL_GPIOA {
        ClockGate::Plain { reg: RCC_CGR0_OFFSET, mask: RCC_CGR0_IOM0_CLK_EN_MASK }
    } else if peripheral == RCC_PERIPHERAL_GPIOB {
        ClockGate::Plain { reg: RCC_CGR0_OFFSET, mask: RCC_CGR0_IOM1_CLK_EN_MASK }
    } else if peripheral == RCC_PERIPHERAL_GPIOC {
        ClockGate::Plain { reg: RCC_CGR0_OFFSET, mask: RCC_CGR0_IOM2_CLK_EN_MASK }
    } else if peripheral == RCC_PERIPHERAL_GPIOD {
        ClockGate::Plain { reg: RCC_CGR0_OFFSET, mask: RCC_CGR0_IOM3_CLK_EN_MASK }
    } else if peripheral == RCC_PERIPHERAL_TIMER0 {
        ClockGate::Plain { reg: RCC_CGR0_OFFSET, mask: RCC_CGR0_TIMER0_CLK_EN_MASK }
    } else if peripheral == RCC_PERIPHERAL_TIMER1 {
        ClockGate::Plain { reg: RCC_CGR0_OFFSET, mask: RCC_CGR0_TIMER1_CLK_EN_MASK }
    } else if peripheral == RCC_PERIPHERAL_TIMER2 {
        ClockGate::Plain { reg: RCC_CGR0_OFFSET, mask: RCC_CGR0_TIMER2_CLK_EN_MASK }
    } else if peripheral == RCC_PERIPHERAL_TIMER3 {
        ClockGate::Plain { reg: RCC_CGR0_OFFSET, mask: RCC_CGR0_TIMER3_CLK_EN_MASK }
    } else if peripheral == RCC_PERIPHERAL_BSTIMER0 {
        ClockGate::Plain { reg: RCC_CGR0_OFFSET, mask: RCC_CGR0_BSTIMER0_CLK_EN_MASK }
    } else if peripheral == RCC_PERIPHERAL_BSTIMER1 {
        ClockGate::Plain { reg: RCC_CGR0_OFFSET, mask: RCC_CGR0_BSTIMER1_CLK_EN_MASK }
    } else if peripheral == RCC_PERIPHERAL_LPTIMER0 {
        ClockGate::Timer {
            bus_clk: RCC_CGR1_LPTIMER0_PCLK_EN_MASK,
            aon: RCC_CGR2_LPTIMER0_AON_CLK_EN_MASK,
            counter_clk: RCC_CGR1_LPTIMER0_CLK_EN_MASK,
        }
    } else if peripheral == RCC_PERIPHERAL_LPTIMER1 {
        ClockGate::Timer {
            bus_clk: RCC_CGR1_LPTIMER1_PCLK_EN_MASK,
            aon: RCC_CGR2_LPTIMER1_AON_CLK_EN_MASK,
            counter_clk: RCC_CGR1_LPTIMER1_CLK_EN_MASK,
        }
    } else if peripheral == RCC_PERIPHERAL_IWDG {
        ClockGate::Mirrored {
            reg: RCC_CGR1_OFFSET,
            mask: RCC_CGR1_IWDG_CLK_EN_MASK,
            aon: RCC_CGR2_IWDG_CLK_EN_MASK,
        }
    } else if peripheral == RCC_PERIPHERAL_WDG {
        ClockGate::Paired {
            reg: RCC_CGR1_OFFSET,
            first: RCC_CGR1_WDG_CLK_EN_MASK,
            second: RCC_CGR1_WDG_CNT_CLK_EN_MASK,
        }
    } else if peripheral == RCC_PERIPHERAL_RTC {
        ClockGate::Mirrored {
            reg: RCC_CGR1_OFFSET,
            mask: RCC_CGR1_RTC_CLK_EN_MASK,
            aon: RCC_CGR2_RTC_AON_CLK_EN_MASK,
        }
    } else if peripheral == RCC_PERIPHERAL_CRC {
        ClockGate::Plain { reg: RCC_CGR0_OFFSET, mask: RCC_CGR0_CRC_CLK_EN_MASK }
    } else if peripheral == RCC_PERIPHERAL_SEC {
        ClockGate::Plain { reg: RCC_CGR1_OFFSET, mask: RCC_CGR1_SEC_CLK_EN_MASK }
    } else if peripheral == RCC_PERIPHERAL_SAC {
        ClockGate::Plain { reg: RCC_CGR1_OFFSET, mask: RCC_CGR1_SAC_CLK_EN_MASK }
    } else if peripheral == RCC_PERIPHERAL_I2S {
        ClockGate::Plain { reg: RCC_CGR1_OFFSET, mask: RCC_CGR1_I2S_CLK_EN_MASK }
    } else if peripheral == RCC_PERIPHERAL_DMA0 {
        ClockGate::Plain { reg: RCC_CGR0_OFFSET, mask: RCC_CGR0_DMAC0_CLK_EN_MASK }
    } else if peripheral == RCC_PERIPHERAL_DMA1 {
        ClockGate::Plain { reg: RCC_CGR0_OFFSET, mask: RCC_CGR0_DMAC1_CLK_EN_MASK }
    } else if peripheral == RCC_PERIPHERAL_RNGC {
        ClockGate::Plain { reg: RCC_CGR1_OFFSET, mask: RCC_CGR1_RNGC_CLK_EN_MASK }
    } else if peripheral == RCC_PERIPHERAL_SYSCFG {
        ClockGate::Plain { reg: RCC_CGR0_OFFSET, mask: RCC_CGR0_SYSCFG_CLK_EN_MASK }
    } else if peripheral == RCC_PERIPHERAL_PWR {
        ClockGate::Plain { reg: RCC_CGR0_OFFSET, mask: RCC_CGR0_PWR_CLK_EN_MASK }
    } else {
        ClockGate::Absent
    }
}

#[verifier::when_used_as_spec(spec_clock_gate)]
pub fn clock_gate(peripheral: u32) -> (gate: ClockGate)
    ensures
        gate == spec_clock_gate(peripheral),
{
    if peripheral == RCC_PERIPHERAL_UART0 {
        ClockGate::Plain { reg: RCC_CGR0_OFFSET, mask: RCC_CGR0_UART0_CLK_EN_MASK }
    } else if peripheral == RCC_PERIPHERAL_UART1 {
        ClockGate::Plain { reg: RCC_CGR0_OFFSET, mask: RCC_CGR0_UART1_CLK_EN_MASK }
    } else if peripheral == RCC_PERIPHERAL_UART2 {
        ClockGate::Plain { reg: RCC_CGR0_OFFSET, mask: RCC_CGR0_UART2_CLK_EN_MASK }
    } else if peripheral == RCC_PERIPHERAL_UART3 {
        ClockGate::Plain { reg: RCC_CGR0_OFFSET, mask: RCC_CGR0_UART3_CLK_EN_MASK }
    } else if peripheral == RCC_PERIPHERAL_LPUART {
        ClockGate::Mirrored {
            reg: RCC_CGR0_OFFSET,
            mask: RCC_CGR0_LPUART_CLK_EN_MASK,
            aon: RCC_CGR2_LPUART_AON_CLK_EN_MASK,
        }
    } else if peripheral == RCC_PERIPHERAL_SSP0 {
        ClockGate::Plain { reg: RCC_CGR0_OFFSET, mask: RCC_CGR0_SSP0_CLK_EN_MASK }
    } else if peripheral == RCC_PERIPHERAL_SSP1 {
        ClockGate::Plain { reg: RCC_CGR0_OFFSET, mask: RCC_CGR0_SSP1_CLK_EN_MASK }
    } else if peripheral == RCC_PERIPHERAL_SSP2 {
        ClockGate::Plain { reg: RCC_CGR0_OFFSET, mask: RCC_CGR0_SSP2_CLK_EN_MASK }
    } else if peripheral == RCC_PERIPHERAL_QSPI {
        ClockGate::Plain { reg: RCC_CGR1_OFFSET, mask: RCC_CGR1_QSPI_CLK_EN_MASK }
    } else if peripheral == RCC_PERIPHERAL_I2C0 {
        ClockGate::Plain { reg: RCC_CGR0_OFFSET, mask: RCC_CGR0_I2C0_CLK_EN_MASK }
    } else if peripheral == RCC_PERIPHERAL_I2C1 {
        ClockGate::Plain { reg: RCC_CGR0_OFFSET, mask: RCC_CGR0_I2C1_CLK_EN_MASK }
    } else if peripheral == RCC_PERIPHERAL_I2C2 {
        ClockGate::Plain { reg: RCC_CGR0_OFFSET, mask: RCC_CGR0_I2C2_CLK_EN_MASK }
    } else if peripheral == RCC_PERIPHERAL_ADC {
        ClockGate::Plain { reg: RCC_CGR0_OFFSET, mask: RCC_CGR0_ADC_CLK_EN_MASK }
    } else if peripheral == RCC_PERIPHERAL_DAC {
        ClockGate::Plain { reg: RCC_CGR0_OFFSET, mask: RCC_CGR0_DAC_CLK_EN_MASK }
    } else if peripheral == RCC_PERIPHERAL_AFEC {
        ClockGate::Plain { reg: RCC_CGR0_OFFSET, mask: RCC_CGR0_AFEC_CLK_EN_MASK }
    } else if peripheral == RCC_PERIPHERAL_LCD {
        ClockGate::Mirrored {
            reg: RCC_CGR0_OFFSET,
            mask: RCC_CGR0_LCD_CLK_EN_MASK,
            aon: RCC_CGR2_LCD_AON_CLK_EN_MASK,
        }
    } else if peripheral == RCC_PERIPHERAL_LORA {
        ClockGate::Plain { reg: RCC_CGR0_OFFSET, mask: RCC_CGR0_LORA_CLK_EN_MASK }
    } else if peripheral == RCC_PERIPHERAL_GPIOA {
        ClockGate::Plain { reg: RCC_CGR0_OFFSET, mask: RCC_CGR0_IOM0_CLK_EN_MASK }
    } else if peripheral == RCC_PERIPHERAL_GPIOB {
        ClockGate::Plain { reg: RCC_CGR0_OFFSET, mask: RCC_CGR0_IOM1_CLK_EN_MASK }
    } else if peripheral == RCC_PERIPHERAL_GPIOC {
        ClockGate::Plain { reg: RCC_CGR0_OFFSET, mask: RCC_CGR0_IOM2_CLK_EN_MASK }
    } else if peripheral == RCC_PERIPHERAL_GPIOD {
        ClockGate::Plain { reg: RCC_CGR0_OFFSET, mask: RCC_CGR0_IOM3_CLK_EN_MASK }
    } else if peripheral == RCC_PERIPHERAL_TIMER0 {
        ClockGate::Plain { reg: RCC_CGR0_OFFSET, mask: RCC_CGR0_TIMER0_CLK_EN_MASK }
    } else if peripheral == RCC_PERIPHERAL_TIMER1 {
        ClockGate::Plain { reg: RCC_CGR0_OFFSET, mask: RCC_CGR0_TIMER1_CLK_EN_MASK }
    } else if peripheral == RCC_PERIPHERAL_TIMER2 {
        ClockGate::Plain { reg: RCC_CGR0_OFFSET, mask: RCC_CGR0_TIMER2_CLK_EN_MASK }
    } else if peripheral == RCC_PERIPHERAL_TIMER3 {
        ClockGate::Plain { reg: RCC_CGR0_OFFSET, mask: RCC_CGR0_TIMER3_CLK_EN_MASK }
    } else if peripheral == RCC_PERIPHERAL_BSTIMER0 {
        ClockGate::Plain { reg: RCC_CGR0_OFFSET, mask: RCC_CGR0_BSTIMER0_CLK_EN_MASK }
    } else if peripheral == RCC_PERIPHERAL_BSTIMER1 {
        ClockGate::Plain { reg: RCC_CGR0_OFFSET, mask: RCC_CGR0_BSTIMER1_CLK_EN_MASK }
    } else if peripheral == RCC_PERIPHERAL_LPTIMER0 {
        ClockGate::Timer {
            bus_clk: RCC_CGR1_LPTIMER0_PCLK_EN_MASK,
            aon: RCC_CGR2_LPTIMER0_AON_CLK_EN_MASK,
            counter_clk: RCC_CGR1_LPTIMER0_CLK_EN_MASK,
        }
    } else if peripheral == RCC_PERIPHERAL_LPTIMER1 {
        ClockGate::Timer {
            bus_clk: RCC_CGR1_LPTIMER1_PCLK_EN_MASK,
            aon: RCC_CGR2_LPTIMER1_AON_CLK_EN_MASK,
            counter_clk: RCC_CGR1_LPTIMER1_CLK_EN_MASK,
        }
    } else if peripheral == RCC_PERIPHERAL_IWDG {
        ClockGate::Mirrored {
            reg: RCC_CGR1_OFFSET,
            mask: RCC_CGR1_IWDG_CLK_EN_MASK,
            aon: RCC_CGR2_IWDG_CLK_EN_MASK,
        }
    } else if peripheral == RCC_PERIPHERAL_WDG {
        ClockGate::Paired {
            reg: RCC_CGR1_OFFSET,
            first: RCC_CGR1_WDG_CLK_EN_MASK,
            second: RCC_CGR1_WDG_CNT_CLK_EN_MASK,
        }
    } else if peripheral == RCC_PERIPHERAL_RTC {
        ClockGate::Mirrored {
            reg: RCC_CGR1_OFFSET,
            mask: RCC_CGR1_RTC_CLK_EN_MASK,
            aon: RCC_CGR2_RTC_AON_CLK_EN_MASK,
        }
    } else if peripheral == RCC_PERIPHERAL_CRC {
        ClockGate::Plain { reg: RCC_CGR0_OFFSET, mask: RCC_CGR0_CRC_CLK_EN_MASK }
    } else if peripheral == RCC_PERIPHERAL_SEC {
        ClockGate::Plain { reg: RCC_CGR1_OFFSET, mask: RCC_CGR1_SEC_CLK_EN_MASK }
    } else if peripheral == RCC_PERIPHERAL_SAC {
        ClockGate::Plain { reg: RCC_CGR1_OFFSET, mask: RCC_CGR1_SAC_CLK_EN_MASK }
    } else if peripheral == RCC_PERIPHERAL_I2S {
        ClockGate::Plain { reg: RCC_CGR1_OFFSET, mask: RCC_CGR1_I2S_CLK_EN_MASK }
    } else if peripheral == RCC_PERIPHERAL_DMA0 {
        ClockGate::Plain { reg: RCC_CGR0_OFFSET, mask: RCC_CGR0_DMAC0_CLK_EN_MASK }
    } else if peripheral == RCC_PERIPHERAL_DMA1 {
        ClockGate::Plain { reg: RCC_CGR0_OFFSET, mask: RCC_CGR0_DMAC1_CLK_EN_MASK }
    } else if peripheral == RCC_PERIPHERAL_RNGC {
        ClockGate::Plain { reg: RCC_CGR1_OFFSET, mask: RCC_CGR1_RNGC_CLK_EN_MASK }
    } else if peripheral == RCC_PERIPHERAL_SYSCFG {
        ClockGate::Plain { reg: RCC_CGR0_OFFSET, mask: RCC_CGR0_SYSCFG_CLK_EN_MASK }
    } else if peripheral == RCC_PERIPHERAL_PWR {
        ClockGate::Plain { reg: RCC_CGR0_OFFSET, mask: RCC_CGR0_PWR_CLK_EN_MASK }
    } else {
        ClockGate::Absent
    }
}

/// The address, in the controller at `RCC_BASE`, of the register at `offset`.
pub open spec fn spec_rcc_reg(offset: u32) -> u32 {
    reg_addr(RCC_BASE, offset)
}

#[verifier::when_used_as_spec(spec_rcc_reg)]
pub fn rcc_reg(offset: u32) -> (addr: u32)
    ensures
        addr == spec_rcc_reg(offset),
{
    reg_addr(RCC_BASE, offset)
}

/// The bus after a clock gate has been switched to `on`.
///
/// Where a gate has a mirror in the always-on domain, the mirror is written
/// only after the controller has reported every earlier gating operation as
/// done. A low-power timer is opened bus clock first and counter clock last,
/// and closed in the opposite order; its mirror follows the wait either way.
pub open spec fn gate_switched(s: BusState, gate: ClockGate, on: bool) -> BusState {
    match gate {
        ClockGate::Absent => s,
        ClockGate::Plain { reg, mask } => s.enable(rcc_reg(reg), mask, on),
        ClockGate::Paired { reg, first, second } => s.enable(rcc_reg(reg), first, on).enable(
            rcc_reg(reg),
            second,
            on,
        ),
        ClockGate::Mirrored { reg, mask, aon } => s.enable(rcc_reg(reg), mask, on).settle(
            rcc_reg(RCC_SR_OFFSET),
            RCC_SR_ALL_DONE,
            RCC_SR_ALL_DONE,
        ).enable(rcc_reg(RCC_CGR2_OFFSET), aon, on),
        ClockGate::Timer { bus_clk, aon, counter_clk } => {
            let first = if on { bus_clk } else { counter_clk };
            let last = if on { counter_clk } else { bus_clk };
            s.enable(rcc_reg(RCC_CGR1_OFFSET), first, on).settle(
                rcc_reg(RCC_SR_OFFSET),
                RCC_SR_ALL_DONE,
                RCC_SR_ALL_DONE,
            ).enable(rcc_reg(RCC_CGR2_OFFSET), aon, on).enable(rcc_reg(RCC_CGR1_OFFSET), last, on)
        },
    }
}

/// The bus after the clock of `peripheral` has been switched to `on`.
pub open spec fn peripheral_clk_switched(s: BusState, peripheral: u32, on: bool) -> BusState {
    gate_switched(s, clock_gate(peripheral), on)
}

// ---------------------------------------------------------------------------
// Oscillators
// ---------------------------------------------------------------------------

/// The bus after an internal oscillator with a ready flag has been switched:
/// its bit `off_bit` is cleared to start it and set to stop it, and the flag
/// `ready` of the analog status register is awaited.
pub open spec fn internal_osc_switched(
    s: BusState,
    off_bit: u32,
    ready: u32,
    on: bool,
) -> BusState {
    s.enable(analog_addr(ANALOG_OSC_INDEX), off_bit, !on).settle(
        reg_addr(AFEC_STATUS_BASE, AFEC_RAW_SR_OFFSET),
        ready,
        if on { ready } else { 0 },
    )
}

/// The bus after the 32 MHz crystal of the radio has been switched. The
/// radio's clock gate is opened first, whichever way the crystal goes. To
/// start the crystal, `nreset` is set and `por` cleared if `nreset` is found
/// clear, then the start bit is set and the flag awaited; to stop it the
/// start bit is cleared and the flag awaited to drop.
pub open spec fn radio_xo_switched(s: BusState, on: bool) -> BusState {
    let cr1 = reg_addr(LORAC_BASE, LORAC_CR1_OFFSET);
    let sr = reg_addr(LORAC_BASE, LORAC_SR_OFFSET);
    let clocked = peripheral_clk_switched(s, RCC_PERIPHERAL_LORA, true);
    if on {
        let released = if clocked.read(cr1) & LORAC_CR1_NRESET == 0 {
            clocked.enable(cr1, LORAC_CR1_NRESET, true).enable(cr1, LORAC_CR1_POR, false)
        } else {
            clocked
        };
        released.enable(cr1, LORAC_CR1_XO_EN, true).settle(sr, LORAC_SR_XO_READY, LORAC_SR_XO_READY)
    } else {
        clocked.enable(cr1, LORAC_CR1_XO_EN, false).settle(sr, LORAC_SR_XO_READY, 0)
    }
}

/// The bus after the oscillator `osc` has been switched to `on`. An
/// identifier that names no oscillator changes nothing.
pub open spec fn oscillator_switched(s: BusState, osc: u32, on: bool) -> BusState {
    if osc == RCC_OSC_RCO48M {
        internal_osc_switched(s, ANALOG_RCO48M_OFF, AFEC_RAW_SR_RCO24M_READY_MASK, on)
    } else if osc == RCC_OSC_RCO32K {
        s.enable(analog_addr(ANALOG_OSC32K_INDEX), ANALOG_RCO32K_OFF, !on)
    } else if osc == RCC_OSC_XO32K {
        s.enable(analog_addr(ANALOG_OSC32K_INDEX), ANALOG_XO32K_OFF, !on)
    } else if osc == RCC_OSC_XO24M {
        s.set(
            analog_addr(ANALOG_OSC_INDEX),
            ANALOG_XO24M_MASK,
            if on { ANALOG_XO24M_RUN } else { ANALOG_XO24M_STOP },
        )
    } else if osc == RCC_OSC_XO32M {
        radio_xo_switched(s, on)
    } else if osc == RCC_OSC_RCO4M {
        internal_osc_switched(s, ANALOG_RCO4M_OFF, AFEC_RAW_SR_RCO4M_READY_MASK, on)
    } else {
        s
    }
}

// ---------------------------------------------------------------------------
// Clock sources and dividers
// ---------------------------------------------------------------------------

/// The bus after a clock has been made quiet: if the sync flag `sync` of the
/// status register at `status` is set, the bits `gate_mask` of the register
/// at `gate` are cleared and the flag is awaited to drop; if it is clear,
/// nothing is done.
pub open spec fn clk_quiet(
    s: BusState,
    status: u32,
    sync: u32,
    gate: u32,
    gate_mask: u32,
) -> BusState {
    if s.read(status) & sync != 0 {
        s.enable(gate, gate_mask, false).settle(status, sync, 0)
    } else {
        s
    }
}

/// The bus after the source field `sel_mask` at `sel` has been changed to
/// `clk_src`, the clock having been made quiet first.
pub open spec fn clk_src_switched(
    s: BusState,
    status: u32,
    sync: u32,
    gate: u32,
    gate_mask: u32,
    sel: u32,
    sel_mask: u32,
    clk_src: u32,
) -> BusState {
    clk_quiet(s, status, sync, gate, gate_mask).set(sel, sel_mask, clk_src)
}

/// The bus after the source of a low-power timer has been changed, the
/// clock having been made quiet first. The external clock has a select bit
/// of its own, which is set; every other source goes into the source field.
pub open spec fn timer_clk_src_switched(
    s: BusState,
    status: u32,
    sync: u32,
    gate: u32,
    gate_mask: u32,
    sel: u32,
    sel_mask: u32,
    ext_clk: u32,
    ext_mask: u32,
    clk_src: u32,
) -> BusState {
    let quiet = clk_quiet(s, status, sync, gate, gate_mask);
    if clk_src == ext_clk {
        quiet.enable(sel, ext_mask, true)
    } else {
        quiet.set(sel, sel_mask, clk_src)
    }
}

/// The source of a low-power timer as the control register `cr1` gives it.
pub open spec fn timer_clk_src(cr1: u32, sel_mask: u32, ext_clk: u32, ext_mask: u32) -> u32 {
    if cr1 & ext_mask != 0 {
        ext_clk
    } else {
        cr1 & sel_mask
    }
}

// ---------------------------------------------------------------------------
// Peripheral reset
// ---------------------------------------------------------------------------

/// The reset line of a peripheral: the offset of its reset register and its
/// bit in it.
#[derive(Clone, Copy, Debug, PartialEq, Eq, Structural)]
pub enum ResetLine {
    /// The identifier names no peripheral with a reset line.
    Absent,
    /// The bit `mask` of the register at `reg`.
    Line { reg: u32, mask: u32 },
}

/// The reset line of the peripheral with the given identifier.
///
/// Identifiers below `RCC_PERIPHERAL_GPIOB` have the bit of their own number
/// in the first reset register; those from `RCC_PERIPHERAL_DMA1` up to, not
/// including, `RCC_PERIPHERAL_SYSCFG` are counted from `RCC_PERIPHERAL_DMA1`
/// in the second. The four GPIO ports share one line, that of port A. Every
/// other identifier has none.
pub open spec fn spec_reset_line(peripheral: u32) -> ResetLine {
    if peripheral >= RCC_PERIPHERAL_SYSCFG {
        ResetLine::Absent
    } else if peripheral >= RCC_PERIPHERAL_DMA1 {
        ResetLine::Line {
            reg: RCC_RST1_OFFSET,
            mask: bit((peripheral - RCC_PERIPHERAL_DMA1) as u32),
        }
    } else if peripheral == RCC_PERIPHERAL_GPIOB || peripheral == RCC_PERIPHERAL_GPIOC || peripheral
        == RCC_PERIPHERAL_GPIOD {
        ResetLine::Line { reg: RCC_RST0_OFFSET, mask: bit(RCC_PERIPHERAL_GPIOA) }
    } else if peripheral < RCC_PERIPHERAL_GPIOB {
        ResetLine::Line { reg: RCC_RST0_OFFSET, mask: bit(peripheral) }
    } else {
        ResetLine::Absent
    }
}

/// The bus after the reset of `peripheral`, in the controller at `base`, has
/// been asserted (`assert_reset`) or released. The lines are active low: to
/// assert is to clear the bit.
pub open spec fn peripheral_reset(
    s: BusState,
    base: u32,
    peripheral: u32,
    assert_reset: bool,
) -> BusState {
    match spec_reset_line(peripheral) {
        ResetLine::Absent => s,
        ResetLine::Line { reg, mask } => s.enable(reg_addr(base, reg), mask, !assert_reset),
    }
}

#[verifier::when_used_as_spec(spec_reset_line)]
pub fn reset_line(peripheral: u32) -> (line: ResetLine)
    ensures
        line == spec_reset_line(peripheral),
{
    if peripheral >= RCC_PERIPHERAL_SYSCFG {
        ResetLine::Absent
    } else if peripheral >= RCC_PERIPHERAL_DMA1 {
        ResetLine::Line { reg: RCC_RST1_OFFSET, mask: 1u32 << (peripheral - RCC_PERIPHERAL_DMA1) }
    } else if peripheral == RCC_PERIPHERAL_GPIOB || peripheral == RCC_PERIPHERAL_GPIOC || peripheral
        == RCC_PERIPHERAL_GPIOD {
        ResetLine::Line { reg: RCC_RST0_OFFSET, mask: 1u32 << RCC_PERIPHERAL_GPIOA }
    } else if peripheral < RCC_PERIPHERAL_GPIOB {
        ResetLine::Line { reg: RCC_RST0_OFFSET, mask: 1u32 << peripheral }
    } else {
        ResetLine::Absent
    }
}

/// The ports B, C and D are reset through the line of port A: to assert or
/// release the reset of any of the four moves the same single bit.
pub proof fn lemma_gpio_ports_share_reset(s: BusState, base: u32, assert_reset: bool)
    ensures
        spec_reset_line(RCC_PERIPHERAL_GPIOA) == (ResetLine::Line {
            reg: RCC_RST0_OFFSET,
            mask: RCC_RST0_IOM_RST_N_MASK,
        }),
        spec_reset_line(RCC_PERIPHERAL_GPIOB) == spec_reset_line(RCC_PERIPHERAL_GPIOA),
        spec_reset_line(RCC_PERIPHERAL_GPIOC) == spec_reset_line(RCC_PERIPHERAL_GPIOA),
        spec_reset_line(RCC_PERIPHERAL_GPIOD) == spec_reset_line(RCC_PERIPHERAL_GPIOA),
        peripheral_reset(s, base, RCC_PERIPHERAL_GPIOB, assert_reset) == peripheral_reset(
            s,
            base,
            RCC_PERIPHERAL_GPIOA,
            assert_reset,
        ),
        peripheral_reset(s, base, RCC_PERIPHERAL_GPIOC, assert_reset) == peripheral_reset(
            s,
            base,
            RCC_PERIPHERAL_GPIOA,
            assert_reset,
        ),
        peripheral_reset(s, base, RCC_PERIPHERAL_GPIOD, assert_reset) == peripheral_reset(
            s,
            base,
            RCC_PERIPHERAL_GPIOA,
            assert_reset,
        ),
{
    assert(1u32 << 0x0Du32 == 0x0000_2000u32) by (bit_vector);
}

/// Makes a clock quiet before its source or divider is changed.
fn quiet_clk<B: RegisterBus>(bus: &mut B, status: u32, sync: u32, gate: u32, gate_mask: u32)
    ensures
        final(bus)@ == clk_quiet(old(bus)@, status, sync, gate, gate_mask),
{
    if bus.read(status) & sync != 0 {
        reg_en(bus, gate, gate_mask, false);
        bus.wait_for(status, sync, 0);
    }
}

impl Rcc {
    /// The address of the register at `offset` in this controller's block.
    pub open spec fn spec_reg(&self, offset: u32) -> u32 {
        reg_addr(self.base(), offset)
    }

    #[verifier::when_used_as_spec(spec_reg)]
    pub fn reg(&self, offset: u32) -> (addr: u32)
        ensures
            addr == self.spec_reg(offset),
    {
        reg_addr(self.base(), offset)
    }

    /// The frequency of the clock `clk`, in hertz. It depends on nothing but
    /// the current contents of the control register `CR0`.
    pub fn get_clk_freq<B: RegisterBus>(&self, bus: &B, clk: u32) -> (freq: u32)
        ensures
            freq == clk_freq(bus@.read(self.reg(RCC_CR0_OFFSET)), clk),
    {
        let cr0 = bus.read(self.reg(RCC_CR0_OFFSET));
        let sysclk_freq = match cr0 & RCC_CR0_SYSCLK_SEL_MASK {
            RCC_CR0_SYSCLK_SEL_RCO48M => RCC_FREQ_48M,
            RCC_CR0_SYSCLK_SEL_RCO32K => RCC_FREQ_32000,
            RCC_CR0_SYSCLK_SEL_XO32K => RCC_FREQ_32768,
            RCC_CR0_SYSCLK_SEL_XO24M => RCC_FREQ_24M,
            RCC_CR0_SYSCLK_SEL_XO32M => RCC_FREQ_32M,
            RCC_CR0_SYSCLK_SEL_RCO4M => RCC_FREQ_4M,
            _ => RCC_FREQ_24M,
        };
        proof {
            lemma_divider_shifts_in_range(cr0);
        }
        let hclk_freq = sysclk_freq >> ((cr0 & RCC_CR0_HCLK_DIV_MASK) >> 8);
        match clk {
            RCC_HCLK => hclk_freq,
            RCC_PCLK0 => hclk_freq >> ((cr0 & RCC_CR0_PCLK0_DIV_MASK) >> 5),
            RCC_PCLK1 => hclk_freq >> ((cr0 & RCC_CR0_PCLK1_DIV_MASK) >> 15),
            _ => sysclk_freq,
        }
    }

    /// Starts or stops the oscillator `osc`.
    ///
    /// Three of the oscillators report when they are ready; for those the
    /// call returns only when the ready flag shows the state asked for, and
    /// does not return if it never does. The analog words, the analog status
    /// register, the radio controller and the clock gate of the radio are
    /// those of the memory map, whichever handle the call is made on.
    pub fn enable_oscillator<B: RegisterBus>(&self, bus: &mut B, osc: u32, new_state: bool)
        ensures
            final(bus)@ == oscillator_switched(old(bus)@, osc, new_state),
    {
        match osc {
            RCC_OSC_RCO48M => {
                reg_en(bus, analog_addr(ANALOG_OSC_INDEX), ANALOG_RCO48M_OFF, !new_state);
                bus.wait_for(
                    reg_addr(AFEC_STATUS_BASE, AFEC_RAW_SR_OFFSET),
                    AFEC_RAW_SR_RCO24M_READY_MASK,
                    if new_state { AFEC_RAW_SR_RCO24M_READY_MASK } else { 0 },
                );
            },
            RCC_OSC_RCO32K => {
                reg_en(bus, analog_addr(ANALOG_OSC32K_INDEX), ANALOG_RCO32K_OFF, !new_state);
            },
            RCC_OSC_XO32K => {
                reg_en(bus, analog_addr(ANALOG_OSC32K_INDEX), ANALOG_XO32K_OFF, !new_state);
            },
            RCC_OSC_XO24M => {
                reg_set(
                    bus,
                    analog_addr(ANALOG_OSC_INDEX),
                    ANALOG_XO24M_MASK,
                    if new_state { ANALOG_XO24M_RUN } else { ANALOG_XO24M_STOP },
                );
            },
            RCC_OSC_XO32M => {
                let cr1 = reg_addr(LORAC_BASE, LORAC_CR1_OFFSET);
                let sr = reg_addr(LORAC_BASE, LORAC_SR_OFFSET);
                self.enable_peripheral_clk(bus, RCC_PERIPHERAL_LORA, true);
                if new_state {
                    if bus.read(cr1) & LORAC_CR1_NRESET == 0 {
                        reg_en(bus, cr1, LORAC_CR1_NRESET, true);
                        reg_en(bus, cr1, LORAC_CR1_POR, false);
                    }
                    reg_en(bus, cr1, LORAC_CR1_XO_EN, true);
                    bus.wait_for(sr, LORAC_SR_XO_READY, LORAC_SR_XO_READY);
                } else {
                    reg_en(bus, cr1, LORAC_CR1_XO_EN, false);
                    bus.wait_for(sr, LORAC_SR_XO_READY, 0);
                }
            },
            RCC_OSC_RCO4M => {
                reg_en(bus, analog_addr(ANALOG_OSC_INDEX), ANALOG_RCO4M_OFF, !new_state);
                bus.wait_for(
                    reg_addr(AFEC_STATUS_BASE, AFEC_RAW_SR_OFFSET),
                    AFEC_RAW_SR_RCO4M_READY_MASK,
                    if new_state { AFEC_RAW_SR_RCO4M_READY_MASK } else { 0 },
                );
            },
            _ => {},
        }
    }

    /// Opens or closes the clock gate of `peripheral`. The gates are those of
    /// the controller at `RCC_BASE`, whichever handle the call is made on.
    /// An identifier that names no gated peripheral changes nothing.
    ///
    /// For a peripheral with a mirror in the always-on domain the call waits,
    /// without a timeout, for the controller to report its gating operations
    /// as done.
    pub fn enable_peripheral_clk<B: RegisterBus>(
        &self,
        bus: &mut B,
        peripheral: u32,
        new_state: bool,
    )
        ensures
            final(bus)@ == peripheral_clk_switched(old(bus)@, peripheral, new_state),
    {
        match clock_gate(peripheral) {
            ClockGate::Absent => {},
            ClockGate::Plain { reg, mask } => {
                reg_en(bus, rcc_reg(reg), mask, new_state);
            },
            ClockGate::Paired { reg, first, second } => {
                reg_en(bus, rcc_reg(reg), first, new_state);
                reg_en(bus, rcc_reg(reg), second, new_state);
            },
            ClockGate::Mirrored { reg, mask, aon } => {
                reg_en(bus, rcc_reg(reg), mask, new_state);
                bus.wait_for(rcc_reg(RCC_SR_OFFSET), RCC_SR_ALL_DONE, RCC_SR_ALL_DONE);
                reg_en(bus, rcc_reg(RCC_CGR2_OFFSET), aon, new_state);
            },
            ClockGate::Timer { bus_clk, aon, counter_clk } => {
                let first = if new_state { bus_clk } else { counter_clk };
                let last = if new_state { counter_clk } else { bus_clk };
                reg_en(bus, rcc_reg(RCC_CGR1_OFFSET), first, new_state);
                bus.wait_for(rcc_reg(RCC_SR_OFFSET), RCC_SR_ALL_DONE, RCC_SR_ALL_DONE);
                reg_en(bus, rcc_reg(RCC_CGR2_OFFSET), aon, new_state);
                reg_en(bus, rcc_reg(RCC_CGR1_OFFSET), last, new_state);
            },
        }
    }

    /// Asserts (`new_state`) or releases the reset of `peripheral`. An
    /// identifier without a reset line changes nothing.
    pub fn rst_peripheral<B: RegisterBus>(&self, bus: &mut B, peripheral: u32, new_state: bool)
        ensures
            final(bus)@ == peripheral_reset(old(bus)@, self.base(), peripheral, new_state),
    {
        match reset_line(peripheral) {
            ResetLine::Absent => {},
            ResetLine::Line { reg, mask } => {
                reg_en(bus, self.reg(reg), mask, !new_state);
            },
        }
    }
}

/// The bits of the control register that decide the clock frequencies: the
/// source of the system clock and the three dividers.
pub const RCC_CR0_CLK_FIELDS: u32 = 0x0003_FFE0;

/// The frequency of a clock depends on the source field and the divider
/// fields of the control register and on nothing else: two register values
/// that agree in these fields give the same frequency.
pub proof fn lemma_clk_freq_depends_on_fields(first: u32, second: u32, clk: u32)
    requires
        first & RCC_CR0_CLK_FIELDS == second & RCC_CR0_CLK_FIELDS,
    ensures
        clk_freq(first, clk) == clk_freq(second, clk),
{
    assert(first & 0x0000_7000u32 == second & 0x0000_7000u32 && first & 0x0000_0F00u32 == second
        & 0x0000_0F00u32 && first & 0x0000_00E0u32 == second & 0x0000_00E0u32 && first
        & 0x0003_8000u32 == second & 0x0003_8000u32) by (bit_vector)
        requires
            first & 0x0003_FFE0u32 == second & 0x0003_FFE0u32,
    ;
}

/// The divider fields of the control register hold shift counts below 32.
pub proof fn lemma_divider_shifts_in_range(cr0: u32)
    ensures
        hclk_shift(cr0) <= 15,
        pclk0_shift(cr0) <= 7,
        pclk1_shift(cr0) <= 7,
{
    assert((cr0 & 0x0000_0F00u32) >> 8 <= 15) by (bit_vector);
    assert((cr0 & 0x0000_00E0u32) >> 5 <= 7) by (bit_vector);
    assert((cr0 & 0x0003_8000u32) >> 15 <= 7) by (bit_vector);
}

impl Rcc {
    /// Selects the source of the system clock.
    pub fn set_sys_clk_src<B: RegisterBus>(&self, bus: &mut B, clk_src: u32)
        ensures
            final(bus)@ == old(bus)@.set(
                self.reg(RCC_CR0_OFFSET),
                RCC_CR0_SYSCLK_SEL_MASK,
                clk_src,
            ),
    {
        reg_set(bus, self.reg(RCC_CR0_OFFSET), RCC_CR0_SYSCLK_SEL_MASK, clk_src);
    }

    /// Selects one of the two 32 kHz sources of the system tick. The third
    /// source, `RCC_SYSTICK_SOURCE_HCLK`, is selected in the core's own tick
    /// timer, which this controller does not reach: it is not accepted here.
    pub fn set_systick_src<B: RegisterBus>(&self, bus: &mut B, clk_src: u32)
        requires
            clk_src != RCC_SYSTICK_SOURCE_HCLK,
        ensures
            final(bus)@ == old(bus)@.enable(self.reg(RCC_CR0_OFFSET), RCC_CR0_HCLK_DIV_MASK, false),
    {
        reg_en(bus, self.reg(RCC_CR0_OFFSET), RCC_CR0_HCLK_DIV_MASK, false);
    }

    /// Selects the source of the clock output. While the clock is reported as
    /// running it is closed first and awaited to stop; the sync flag is read
    /// from the controller at `RCC_BASE`.
    pub fn set_mco_clk_src<B: RegisterBus>(&self, bus: &mut B, clk_src: u32)
        ensures
            final(bus)@ == clk_src_switched(
                old(bus)@,
                rcc_reg(RCC_SR1_OFFSET),
                RCC_SR1_MCO_CLK_EN_SYNC,
                self.reg(RCC_CR0_OFFSET),
                RCC_CR0_MCO_CLK_OUT_EN_MASK,
                self.reg(RCC_CR0_OFFSET),
                RCC_CR0_MCO_CLK_SEL_MASK,
                clk_src,
            ),
    {
        quiet_clk(
            bus,
            rcc_reg(RCC_SR1_OFFSET),
            RCC_SR1_MCO_CLK_EN_SYNC,
            self.reg(RCC_CR0_OFFSET),
            RCC_CR0_MCO_CLK_OUT_EN_MASK,
        );
        reg_set(bus, self.reg(RCC_CR0_OFFSET), RCC_CR0_MCO_CLK_SEL_MASK, clk_src);
    }

    /// Selects the source of the UART0 clock. While the clock is reported as
    /// running it is closed first and awaited to stop; the sync flag is read
    /// from the controller at `RCC_BASE`.
    pub fn set_uart0_clk_src<B: RegisterBus>(&self, bus: &mut B, clk_src: u32)
        ensures
            final(bus)@ == clk_src_switched(
                old(bus)@,
                rcc_reg(RCC_SR1_OFFSET),
                RCC_SR1_UART0_CLK_EN_SYNC,
                self.reg(RCC_CGR0_OFFSET),
                RCC_CGR0_UART0_CLK_EN_MASK,
                self.reg(RCC_CR2_OFFSET),
                RCC_CR2_UART0_CLK_SEL_MASK,
                clk_src,
            ),
    {
        quiet_clk(
            bus,
            rcc_reg(RCC_SR1_OFFSET),
            RCC_SR1_UART0_CLK_EN_SYNC,
            self.reg(RCC_CGR0_OFFSET),
            RCC_CGR0_UART0_CLK_EN_MASK,
        );
        reg_set(bus, self.reg(RCC_CR2_OFFSET), RCC_CR2_UART0_CLK_SEL_MASK, clk_src);
    }

    /// Selects the source of the UART1 clock. While the clock is reported as
    /// running it is closed first and awaited to stop; the sync flag is read
    /// from the controller at `RCC_BASE`.
    pub fn set_uart1_clk_src<B: RegisterBus>(&self, bus: &mut B, clk_src: u32)
        ensures
            final(bus)@ == clk_src_switched(
                old(bus)@,
                rcc_reg(RCC_SR1_OFFSET),
                RCC_SR1_UART1_CLK_EN_SYNC,
                self.reg(RCC_CGR0_OFFSET),
                RCC_CGR0_UART1_CLK_EN_MASK,
                self.reg(RCC_CR2_OFFSET),
                RCC_CR2_UART1_CLK_SEL_MASK,
                clk_src,
            ),
    {
        quiet_clk(
            bus,
            rcc_reg(RCC_SR1_OFFSET),
            RCC_SR1_UART1_CLK_EN_SYNC,
            self.reg(RCC_CGR0_OFFSET),
            RCC_CGR0_UART1_CLK_EN_MASK,
        );
        reg_set(bus, self.reg(RCC_CR2_OFFSET), RCC_CR2_UART1_CLK_SEL_MASK, clk_src);
    }

    /// Selects the source of the UART2 clock. While the clock is reported as
    /// running it is closed first and awaited to stop; the sync flag is read
    /// from the controller at `RCC_BASE`.
    pub fn set_uart2_clk_src<B: RegisterBus>(&self, bus: &mut B, clk_src: u32)
        ensures
            final(bus)@ == clk_src_switched(
                old(bus)@,
                rcc_reg(RCC_SR1_OFFSET),
                RCC_SR1_UART2_CLK_EN_SYNC,
                self.reg(RCC_CGR0_OFFSET),
                RCC_CGR0_UART2_CLK_EN_MASK,
                self.reg(RCC_CR2_OFFSET),
                RCC_CR2_UART2_CLK_SEL_MASK,
                clk_src,
            ),
    {
        quiet_clk(
            bus,
            rcc_reg(RCC_SR1_OFFSET),
            RCC_SR1_UART2_CLK_EN_SYNC,
            self.reg(RCC_CGR0_OFFSET),
            RCC_CGR0_UART2_CLK_EN_MASK,
        );
        reg_set(bus, self.reg(RCC_CR2_OFFSET), RCC_CR2_UART2_CLK_SEL_MASK, clk_src);
    }

    /// Selects the source of the UART3 clock. While the clock is reported as
    /// running it is closed first and awaited to stop; the sync flag is read
    /// from the controller at `RCC_BASE`.
    pub fn set_uart3_clk_src<B: RegisterBus>(&self, bus: &mut B, clk_src: u32)
        ensures
            final(bus)@ == clk_src_switched(
                old(bus)@,
                rcc_reg(RCC_SR1_OFFSET),
                RCC_SR1_UART3_CLK_EN_SYNC,
                self.reg(RCC_CGR0_OFFSET),
                RCC_CGR0_UART3_CLK_EN_MASK,
                self.reg(RCC_CR2_OFFSET),
                RCC_CR2_UART3_CLK_SEL_MASK,
                clk_src,
            ),
    {
        quiet_clk(
            bus,
            rcc_reg(RCC_SR1_OFFSET),
            RCC_SR1_UART3_CLK_EN_SYNC,
            self.reg(RCC_CGR0_OFFSET),
            RCC_CGR0_UART3_CLK_EN_MASK,
        );
        reg_set(bus, self.reg(RCC_CR2_OFFSET), RCC_CR2_UART3_CLK_SEL_MASK, clk_src);
    }

    /// Selects the source of the first low-power timer's clock. While the
    /// clock is reported as running it is closed first and awaited to stop;
    /// the sync flag is read from the controller at `RCC_BASE`.
    pub fn set_lptimer0_clk_src<B: RegisterBus>(&self, bus: &mut B, clk_src: u32)
        ensures
            final(bus)@ == timer_clk_src_switched(
                old(bus)@,
                rcc_reg(RCC_SR1_OFFSET),
                RCC_SR1_LPTIMER0_CLK_EN_SYNC,
                self.reg(RCC_CGR1_OFFSET),
                RCC_CGR1_LPTIMER0_CLK_EN_MASK,
                self.reg(RCC_CR1_OFFSET),
                RCC_CR1_LPTIMER0_CLK_SEL_MASK,
                RCC_LPTIMER0_CLK_SOURCE_EXTCLK,
                RCC_CR1_LPTIMER0_EXTCLK_SEL_MASK,
                clk_src,
            ),
    {
        quiet_clk(
            bus,
            rcc_reg(RCC_SR1_OFFSET),
            RCC_SR1_LPTIMER0_CLK_EN_SYNC,
            self.reg(RCC_CGR1_OFFSET),
            RCC_CGR1_LPTIMER0_CLK_EN_MASK,
        );
        if clk_src == RCC_LPTIMER0_CLK_SOURCE_EXTCLK {
            reg_en(bus, self.reg(RCC_CR1_OFFSET), RCC_CR1_LPTIMER0_EXTCLK_SEL_MASK, true);
        } else {
            reg_set(bus, self.reg(RCC_CR1_OFFSET), RCC_CR1_LPTIMER0_CLK_SEL_MASK, clk_src);
        }
    }

    /// Selects the source of the second low-power timer's clock. While the
    /// clock is reported as running it is closed first and awaited to stop;
    /// the sync flag is read from the controller at `RCC_BASE`.
    pub fn set_lptimer1_clk_src<B: RegisterBus>(&self, bus: &mut B, clk_src: u32)
        ensures
            final(bus)@ == timer_clk_src_switched(
                old(bus)@,
                rcc_reg(RCC_SR1_OFFSET),
                RCC_SR1_LPTIMER1_CLK_EN_SYNC,
                self.reg(RCC_CGR1_OFFSET),
                RCC_CGR1_LPTIMER1_CLK_EN_MASK,
                self.reg(RCC_CR1_OFFSET),
                RCC_CR1_LPTIMER1_CLK_SEL_MASK,
                RCC_LPTIMER1_CLK_SOURCE_EXTCLK,
                RCC_CR1_LPTIMER1_EXTCLK_SEL_MASK,
                clk_src,
            ),
    {
        quiet_clk(
            bus,
            rcc_reg(RCC_SR1_OFFSET),
            RCC_SR1_LPTIMER1_CLK_EN_SYNC,
            self.reg(RCC_CGR1_OFFSET),
            RCC_CGR1_LPTIMER1_CLK_EN_MASK,
        );
        if clk_src == RCC_LPTIMER1_CLK_SOURCE_EXTCLK {
            reg_en(bus, self.reg(RCC_CR1_OFFSET), RCC_CR1_LPTIMER1_EXTCLK_SEL_MASK, true);
        } else {
            reg_set(bus, self.reg(RCC_CR1_OFFSET), RCC_CR1_LPTIMER1_CLK_SEL_MASK, clk_src);
        }
    }

    /// Selects the source of the LCD clock. While the clock is reported as
    /// running it is closed first and awaited to stop; the sync flag is read
    /// from the controller at `RCC_BASE`.
    pub fn set_lcd_clk_src<B: RegisterBus>(&self, bus: &mut B, clk_src: u32)
        ensures
            final(bus)@ == clk_src_switched(
                old(bus)@,
                rcc_reg(RCC_SR1_OFFSET),
                RCC_SR1_LCD_CLK_EN_SYNC,
                self.reg(RCC_CGR0_OFFSET),
                RCC_CGR0_LCD_CLK_EN_MASK,
                self.reg(RCC_CR1_OFFSET),
                RCC_CR1_LCD_CLK_SEL_MASK,
                clk_src,
            ),
    {
        quiet_clk(
            bus,
            rcc_reg(RCC_SR1_OFFSET),
            RCC_SR1_LCD_CLK_EN_SYNC,
            self.reg(RCC_CGR0_OFFSET),
            RCC_CGR0_LCD_CLK_EN_MASK,
        );
        reg_set(bus, self.reg(RCC_CR1_OFFSET), RCC_CR1_LCD_CLK_SEL_MASK, clk_src);
    }

    /// Selects the source of the low-power UART clock. While the clock is
    /// reported as running it is closed first and awaited to stop; the sync
    /// flag is read from the controller at `RCC_BASE`.
    pub fn set_lpuart_clk_src<B: RegisterBus>(&self, bus: &mut B, clk_src: u32)
        ensures
            final(bus)@ == clk_src_switched(
                old(bus)@,
                rcc_reg(RCC_SR1_OFFSET),
                RCC_SR1_LPUART_CLK_EN_SYNC,
                self.reg(RCC_CGR0_OFFSET),
                RCC_CGR0_LPUART_CLK_EN_MASK,
                self.reg(RCC_CR1_OFFSET),
                RCC_CR1_LPUART_CLK_SEL_MASK,
                clk_src,
            ),
    {
        quiet_clk(
            bus,
            rcc_reg(RCC_SR1_OFFSET),
            RCC_SR1_LPUART_CLK_EN_SYNC,
            self.reg(RCC_CGR0_OFFSET),
            RCC_CGR0_LPUART_CLK_EN_MASK,
        );
        reg_set(bus, self.reg(RCC_CR1_OFFSET), RCC_CR1_LPUART_CLK_SEL_MASK, clk_src);
    }

    /// Selects the source of the real-time clock. While the clock is reported
    /// as running it is closed first and awaited to stop; the sync flag is read
    /// from the controller at `RCC_BASE`.
    pub fn set_rtc_clk_src<B: RegisterBus>(&self, bus: &mut B, clk_src: u32)
        ensures
            final(bus)@ == clk_src_switched(
                old(bus)@,
                rcc_reg(RCC_SR1_OFFSET),
                RCC_SR1_RTC_CLK_EN_SYNC,
                self.reg(RCC_CGR1_OFFSET),
                RCC_CGR1_RTC_CLK_EN_MASK,
                self.reg(RCC_CR1_OFFSET),
                RCC_CR1_RTC_CLK_SEL_MASK,
                clk_src,
            ),
    {
        quiet_clk(
            bus,
            rcc_reg(RCC_SR1_OFFSET),
            RCC_SR1_RTC_CLK_EN_SYNC,
            self.reg(RCC_CGR1_OFFSET),
            RCC_CGR1_RTC_CLK_EN_MASK,
        );
        reg_set(bus, self.reg(RCC_CR1_OFFSET), RCC_CR1_RTC_CLK_SEL_MASK, clk_src);
    }

    /// Selects the source of the independent watchdog clock. While the clock is
    /// reported as running it is closed first and awaited to stop; the sync
    /// flag is read from the controller at `RCC_BASE`.
    pub fn set_iwdg_clk_src<B: RegisterBus>(&self, bus: &mut B, clk_src: u32)
        ensures
            final(bus)@ == clk_src_switched(
                old(bus)@,
                rcc_reg(RCC_SR1_OFFSET),
                RCC_SR1_IWDG_CLK_EN_SYNC,
                self.reg(RCC_CGR1_OFFSET),
                RCC_CGR1_IWDG_CLK_EN_MASK,
                self.reg(RCC_CR1_OFFSET),
                RCC_CR1_IWDG_CLK_SEL_MASK,
                clk_src,
            ),
    {
        quiet_clk(
            bus,
            rcc_reg(RCC_SR1_OFFSET),
            RCC_SR1_IWDG_CLK_EN_SYNC,
            self.reg(RCC_CGR1_OFFSET),
            RCC_CGR1_IWDG_CLK_EN_MASK,
        );
        reg_set(bus, self.reg(RCC_CR1_OFFSET), RCC_CR1_IWDG_CLK_SEL_MASK, clk_src);
    }

    /// Selects the source of the ADC clock. While the clock is reported as
    /// running it is closed first and awaited to stop; the sync flag is read
    /// from the controller at `RCC_BASE`.
    pub fn set_adc_clk_src<B: RegisterBus>(&self, bus: &mut B, clk_src: u32)
        ensures
            final(bus)@ == clk_src_switched(
                old(bus)@,
                rcc_reg(RCC_SR1_OFFSET),
                RCC_SR1_ADC_CLK_EN_SYNC,
                self.reg(RCC_CGR0_OFFSET),
                RCC_CGR0_ADC_CLK_EN_MASK,
                self.reg(RCC_CR2_OFFSET),
                RCC_CR2_ADC_CLK_SEL_MASK,
                clk_src,
            ),
    {
        quiet_clk(
            bus,
            rcc_reg(RCC_SR1_OFFSET),
            RCC_SR1_ADC_CLK_EN_SYNC,
            self.reg(RCC_CGR0_OFFSET),
            RCC_CGR0_ADC_CLK_EN_MASK,
        );
        reg_set(bus, self.reg(RCC_CR2_OFFSET), RCC_CR2_ADC_CLK_SEL_MASK, clk_src);
    }

    /// Selects the source of the quad SPI clock. While the clock is reported as
    /// running it is closed first and awaited to stop; the sync flag is read
    /// from the controller at `RCC_BASE`.
    pub fn set_qspi_clk_src<B: RegisterBus>(&self, bus: &mut B, clk_src: u32)
        ensures
            final(bus)@ == clk_src_switched(
                old(bus)@,
                rcc_reg(RCC_SR1_OFFSET),
                RCC_SR1_QSPI_CLK_EN_SYNC,
                self.reg(RCC_CGR1_OFFSET),
                RCC_CGR1_QSPI_CLK_EN_MASK,
                self.reg(RCC_CR2_OFFSET),
                RCC_CR2_QSPI_CLK_SEL_MASK,
                clk_src,
            ),
    {
        quiet_clk(
            bus,
            rcc_reg(RCC_SR1_OFFSET),
            RCC_SR1_QSPI_CLK_EN_SYNC,
            self.reg(RCC_CGR1_OFFSET),
            RCC_CGR1_QSPI_CLK_EN_MASK,
        );
        reg_set(bus, self.reg(RCC_CR2_OFFSET), RCC_CR2_QSPI_CLK_SEL_MASK, clk_src);
    }

    /// Selects the source of the I2S clock. While the clock is reported as
    /// running it is closed first and awaited to stop; the sync flag is read
    /// from the controller at `RCC_BASE`.
    pub fn set_i2s_clk_src<B: RegisterBus>(&self, bus: &mut B, clk_src: u32)
        ensures
            final(bus)@ == clk_src_switched(
                old(bus)@,
                rcc_reg(RCC_SR1_OFFSET),
                RCC_SR1_I2S_CLK_EN_SYNC,
                self.reg(RCC_CGR1_OFFSET),
                RCC_CGR1_I2S_CLK_EN_MASK,
                self.reg(RCC_CR2_OFFSET),
                RCC_CR2_I2S_CLK_SEL_MASK,
                clk_src,
            ),
    {
        quiet_clk(
            bus,
            rcc_reg(RCC_SR1_OFFSET),
            RCC_SR1_I2S_CLK_EN_SYNC,
            self.reg(RCC_CGR1_OFFSET),
            RCC_CGR1_I2S_CLK_EN_MASK,
        );
        reg_set(bus, self.reg(RCC_CR2_OFFSET), RCC_CR2_I2S_CLK_SEL_MASK, clk_src);
    }

    /// The selected source of the system clock, as its field holds it.
    pub fn get_sys_clk_src<B: RegisterBus>(&self, bus: &B) -> (clk_src: u32)
        ensures
            clk_src == bus@.read(self.reg(RCC_CR0_OFFSET)) & RCC_CR0_SYSCLK_SEL_MASK,
    {
        bus.read(self.reg(RCC_CR0_OFFSET)) & RCC_CR0_SYSCLK_SEL_MASK
    }

    /// The selected source of the clock output, as its field holds it.
    pub fn get_mco_clk_src<B: RegisterBus>(&self, bus: &B) -> (clk_src: u32)
        ensures
            clk_src == bus@.read(self.reg(RCC_CR0_OFFSET)) & RCC_CR0_MCO_CLK_SEL_MASK,
    {
        bus.read(self.reg(RCC_CR0_OFFSET)) & RCC_CR0_MCO_CLK_SEL_MASK
    }

    /// The selected source of the UART0 clock, as its field holds it.
    pub fn get_uart0_clk_src<B: RegisterBus>(&self, bus: &B) -> (clk_src: u32)
        ensures
            clk_src == bus@.read(self.reg(RCC_CR2_OFFSET)) & RCC_CR2_UART0_CLK_SEL_MASK,
    {
        bus.read(self.reg(RCC_CR2_OFFSET)) & RCC_CR2_UART0_CLK_SEL_MASK
    }

    /// The selected source of the UART0 clock, as its field holds it. Same as
    /// `get_uart0_clk_src`.
    pub fn get_uart0_clk_source<B: RegisterBus>(&self, bus: &B) -> (clk_src: u32)
        ensures
            clk_src == bus@.read(self.reg(RCC_CR2_OFFSET)) & RCC_CR2_UART0_CLK_SEL_MASK,
    {
        bus.read(self.reg(RCC_CR2_OFFSET)) & RCC_CR2_UART0_CLK_SEL_MASK
    }

    /// The selected source of the UART1 clock, as its field holds it.
    pub fn get_uart1_clk_src<B: RegisterBus>(&self, bus: &B) -> (clk_src: u32)
        ensures
            clk_src == bus@.read(self.reg(RCC_CR2_OFFSET)) & RCC_CR2_UART1_CLK_SEL_MASK,
    {
        bus.read(self.reg(RCC_CR2_OFFSET)) & RCC_CR2_UART1_CLK_SEL_MASK
    }

    /// The selected source of the UART2 clock, as its field holds it.
    pub fn get_uart2_clk_src<B: RegisterBus>(&self, bus: &B) -> (clk_src: u32)
        ensures
            clk_src == bus@.read(self.reg(RCC_CR2_OFFSET)) & RCC_CR2_UART2_CLK_SEL_MASK,
    {
        bus.read(self.reg(RCC_CR2_OFFSET)) & RCC_CR2_UART2_CLK_SEL_MASK
    }

    /// The selected source of the UART3 clock, as its field holds it.
    pub fn get_uart3_clk_src<B: RegisterBus>(&self, bus: &B) -> (clk_src: u32)
        ensures
            clk_src == bus@.read(self.reg(RCC_CR2_OFFSET)) & RCC_CR2_UART3_CLK_SEL_MASK,
    {
        bus.read(self.reg(RCC_CR2_OFFSET)) & RCC_CR2_UART3_CLK_SEL_MASK
    }

    /// The selected source of the first low-power timer's clock: the external
    /// clock if its select bit is set, else the source field.
    pub fn get_lptimer0_get_clk_src<B: RegisterBus>(&self, bus: &B) -> (clk_src: u32)
        ensures
            clk_src == timer_clk_src(
                bus@.read(self.reg(RCC_CR1_OFFSET)),
                RCC_CR1_LPTIMER0_CLK_SEL_MASK,
                RCC_LPTIMER0_CLK_SOURCE_EXTCLK,
                RCC_CR1_LPTIMER0_EXTCLK_SEL_MASK,
            ),
    {
        let cr1 = bus.read(self.reg(RCC_CR1_OFFSET));
        if cr1 & RCC_CR1_LPTIMER0_EXTCLK_SEL_MASK != 0 {
            RCC_LPTIMER0_CLK_SOURCE_EXTCLK
        } else {
            cr1 & RCC_CR1_LPTIMER0_CLK_SEL_MASK
        }
    }

    /// The selected source of the second low-power timer's clock: the external
    /// clock if its select bit is set, else the source field.
    pub fn get_lptimer1_get_clk_src<B: RegisterBus>(&self, bus: &B) -> (clk_src: u32)
        ensures
            clk_src == timer_clk_src(
                bus@.read(self.reg(RCC_CR1_OFFSET)),
                RCC_CR1_LPTIMER1_CLK_SEL_MASK,
                RCC_LPTIMER1_CLK_SOURCE_EXTCLK,
                RCC_CR1_LPTIMER1_EXTCLK_SEL_MASK,
            ),
    {
        let cr1 = bus.read(self.reg(RCC_CR1_OFFSET));
        if cr1 & RCC_CR1_LPTIMER1_EXTCLK_SEL_MASK != 0 {
            RCC_LPTIMER1_CLK_SOURCE_EXTCLK
        } else {
            cr1 & RCC_CR1_LPTIMER1_CLK_SEL_MASK
        }
    }

    /// The selected source of the LCD clock, as its field holds it.
    pub fn get_lcd_get_clk_src<B: RegisterBus>(&self, bus: &B) -> (clk_src: u32)
        ensures
            clk_src == bus@.read(self.reg(RCC_CR1_OFFSET)) & RCC_CR1_LCD_CLK_SEL_MASK,
    {
        bus.read(self.reg(RCC_CR1_OFFSET)) & RCC_CR1_LCD_CLK_SEL_MASK
    }

    /// The selected source of the low-power UART clock, as its field holds it.
    pub fn get_lpuart_clk_src<B: RegisterBus>(&self, bus: &B) -> (clk_src: u32)
        ensures
            clk_src == bus@.read(self.reg(RCC_CR1_OFFSET)) & RCC_CR1_LPUART_CLK_SEL_MASK,
    {
        bus.read(self.reg(RCC_CR1_OFFSET)) & RCC_CR1_LPUART_CLK_SEL_MASK
    }

    /// The selected source of the real-time clock, as its field holds it.
    pub fn get_rtc_clk_src<B: RegisterBus>(&self, bus: &B) -> (clk_src: u32)
        ensures
            clk_src == bus@.read(self.reg(RCC_CR1_OFFSET)) & RCC_CR1_RTC_CLK_SEL_MASK,
    {
        bus.read(self.reg(RCC_CR1_OFFSET)) & RCC_CR1_RTC_CLK_SEL_MASK
    }

    /// The selected source of the independent watchdog clock, as its field
    /// holds it.
    pub fn get_iwdg_clk_src<B: RegisterBus>(&self, bus: &B) -> (clk_src: u32)
        ensures
            clk_src == bus@.read(self.reg(RCC_CR1_OFFSET)) & RCC_CR1_IWDG_CLK_SEL_MASK,
    {
        bus.read(self.reg(RCC_CR1_OFFSET)) & RCC_CR1_IWDG_CLK_SEL_MASK
    }

    /// The selected source of the ADC clock, as its field holds it.
    pub fn get_adc_clk_src<B: RegisterBus>(&self, bus: &B) -> (clk_src: u32)
        ensures
            clk_src == bus@.read(self.reg(RCC_CR2_OFFSET)) & RCC_CR2_ADC_CLK_SEL_MASK,
    {
        bus.read(self.reg(RCC_CR2_OFFSET)) & RCC_CR2_ADC_CLK_SEL_MASK
    }

    /// The selected source of the quad SPI clock, as its field holds it.
    pub fn get_qspi_clk_src<B: RegisterBus>(&self, bus: &B) -> (clk_src: u32)
        ensures
            clk_src == bus@.read(self.reg(RCC_CR2_OFFSET)) & RCC_CR2_QSPI_CLK_SEL_MASK,
    {
        bus.read(self.reg(RCC_CR2_OFFSET)) & RCC_CR2_QSPI_CLK_SEL_MASK
    }

    /// The selected source of the I2S clock, as its field holds it.
    pub fn get_i2s_clk_src<B: RegisterBus>(&self, bus: &B) -> (clk_src: u32)
        ensures
            clk_src == bus@.read(self.reg(RCC_CR2_OFFSET)) & RCC_CR2_I2S_CLK_SEL_MASK,
    {
        bus.read(self.reg(RCC_CR2_OFFSET)) & RCC_CR2_I2S_CLK_SEL_MASK
    }

    /// Sets the AHB divider.
    pub fn set_hclk_div<B: RegisterBus>(&self, bus: &mut B, div: u32)
        ensures
            final(bus)@ == old(bus)@.set(self.reg(RCC_CR0_OFFSET), RCC_CR0_HCLK_DIV_MASK, div),
    {
        reg_set(bus, self.reg(RCC_CR0_OFFSET), RCC_CR0_HCLK_DIV_MASK, div);
    }

    /// Sets both APB dividers in one write.
    pub fn set_pclk_div<B: RegisterBus>(&self, bus: &mut B, pclk0_div: u32, pclk1_div: u32)
        ensures
            final(bus)@ == old(bus)@.set(
                self.reg(RCC_CR0_OFFSET),
                RCC_CR0_PCLK0_DIV_MASK | RCC_CR0_PCLK1_DIV_MASK,
                pclk0_div | pclk1_div,
            ),
    {
        reg_set(
            bus,
            self.reg(RCC_CR0_OFFSET),
            RCC_CR0_PCLK0_DIV_MASK | RCC_CR0_PCLK1_DIV_MASK,
            pclk0_div | pclk1_div,
        );
    }

    /// Sets the divider of the clock output. While the output is reported as
    /// running it is switched off first and awaited to stop; the sync flag is
    /// read from this controller's own status register.
    pub fn set_mco_clk_div<B: RegisterBus>(&self, bus: &mut B, div: u32)
        ensures
            final(bus)@ == clk_src_switched(
                old(bus)@,
                self.reg(RCC_SR1_OFFSET),
                RCC_SR1_MCO_CLK_EN_SYNC,
                self.reg(RCC_CR0_OFFSET),
                RCC_CR0_MCO_CLK_OUT_EN_MASK,
                self.reg(RCC_CR0_OFFSET),
                RCC_CR0_MCO_CLK_DIV_MASK,
                div,
            ),
    {
        quiet_clk(
            bus,
            self.reg(RCC_SR1_OFFSET),
            RCC_SR1_MCO_CLK_EN_SYNC,
            self.reg(RCC_CR0_OFFSET),
            RCC_CR0_MCO_CLK_OUT_EN_MASK,
        );
        reg_set(bus, self.reg(RCC_CR0_OFFSET), RCC_CR0_MCO_CLK_DIV_MASK, div);
    }

    /// Switches the clock output on or off.
    pub fn enable_mco_clk_output<B: RegisterBus>(&self, bus: &mut B, new_state: bool)
        ensures
            final(bus)@ == old(bus)@.enable(
                self.reg(RCC_CR0_OFFSET),
                RCC_CR0_MCO_CLK_OUT_EN_MASK,
                new_state,
            ),
    {
        reg_en(bus, self.reg(RCC_CR0_OFFSET), RCC_CR0_MCO_CLK_OUT_EN_MASK, new_state);
    }

    /// Chooses which reset requests are let through.
    pub fn set_reset_mask<B: RegisterBus>(&self, bus: &mut B, mask: u32)
        ensures
            final(bus)@ == old(bus)@.set(
                self.reg(RCC_RST_CR_OFFSET),
                RCC_RST_CR_RESET_REQ_EN_MASK,
                mask,
            ),
    {
        reg_set(bus, self.reg(RCC_RST_CR_OFFSET), RCC_RST_CR_RESET_REQ_EN_MASK, mask);
    }

    /// The reset requests that are let through.
    pub fn get_reset_mask<B: RegisterBus>(&self, bus: &B) -> (mask: u32)
        ensures
            mask == bus@.read(self.reg(RCC_RST_CR_OFFSET)) & RCC_RST_CR_RESET_REQ_EN_MASK,
    {
        bus.read(self.reg(RCC_RST_CR_OFFSET)) & RCC_RST_CR_RESET_REQ_EN_MASK
    }

    /// Sets the divider of the I2S master clock; the field sits eight bits up.
    pub fn set_i2s_mclk_div<B: RegisterBus>(&self, bus: &mut B, div: u32)
        ensures
            final(bus)@ == old(bus)@.set(
                self.reg(RCC_CR3_OFFSET),
                RCC_CR3_I2S_MCLK_DIV_MASK,
                div << 8,
            ),
    {
        reg_set(bus, self.reg(RCC_CR3_OFFSET), RCC_CR3_I2S_MCLK_DIV_MASK, div << 8);
    }

    /// Sets the divider of the I2S serial clock.
    pub fn set_i2s_sclk_div<B: RegisterBus>(&self, bus: &mut B, div: u32)
        ensures
            final(bus)@ == old(bus)@.set(self.reg(RCC_CR3_OFFSET), RCC_CR3_I2S_SCLK_DIV_MASK, div),
    {
        reg_set(bus, self.reg(RCC_CR3_OFFSET), RCC_CR3_I2S_SCLK_DIV_MASK, div);
    }
}

// ---------------------------------------------------------------------------
// What a clock gate changes
// ---------------------------------------------------------------------------

/// The enable bits of a peripheral in the three clock-gate registers, and
/// whether switching them waits for the controller.
pub struct GateBits {
    pub cgr0: u32,
    pub cgr1: u32,
    pub cgr2: u32,
    pub waits: bool,
}

/// The enable bits of a gate of the table.
pub open spec fn gate_bits(gate: ClockGate) -> GateBits {
    match gate {
        ClockGate::Absent => GateBits { cgr0: 0, cgr1: 0, cgr2: 0, waits: false },
        ClockGate::Plain { reg, mask } => if reg == RCC_CGR0_OFFSET {
            GateBits { cgr0: mask, cgr1: 0, cgr2: 0, waits: false }
        } else {
            GateBits { cgr0: 0, cgr1: mask, cgr2: 0, waits: false }
        },
        ClockGate::Paired { reg, first, second } => GateBits {
            cgr0: 0,
            cgr1: first | second,
            cgr2: 0,
            waits: false,
        },
        ClockGate::Mirrored { reg, mask, aon } => if reg == RCC_CGR0_OFFSET {
            GateBits { cgr0: mask, cgr1: 0, cgr2: aon, waits: true }
        } else {
            GateBits { cgr0: 0, cgr1: mask, cgr2: aon, waits: true }
        },
        ClockGate::Timer { bus_clk, aon, counter_clk } => GateBits {
            cgr0: 0,
            cgr1: bus_clk | counter_clk,
            cgr2: aon,
            waits: true,
        },
    }
}

/// Every clock gate of the table sits in the first or the second clock-gate
/// register; the one with two bits sits in the second.
pub proof fn lemma_gates_sit_in_two_registers(peripheral: u32)
    ensures
        match clock_gate(peripheral) {
            ClockGate::Plain { reg, .. } => reg == RCC_CGR0_OFFSET || reg == RCC_CGR1_OFFSET,
            ClockGate::Mirrored { reg, .. } => reg == RCC_CGR0_OFFSET || reg == RCC_CGR1_OFFSET,
            ClockGate::Paired { reg, .. } => reg == RCC_CGR1_OFFSET,
            _ => true,
        },
{
}

/// Switching the clock of a peripheral switches its enable bits in the three
/// clock-gate registers and nothing else in them. Where the peripheral has a
/// mirror in the always-on domain, the status register shows every gating
/// operation as done afterwards. No other register changes.
pub proof fn lemma_peripheral_clk_effect(s: BusState, peripheral: u32, on: bool)
    ensures
        ({
            let t = peripheral_clk_switched(s, peripheral, on);
            let bits = gate_bits(clock_gate(peripheral));
            let cgr0 = rcc_reg(RCC_CGR0_OFFSET);
            let cgr1 = rcc_reg(RCC_CGR1_OFFSET);
            let cgr2 = rcc_reg(RCC_CGR2_OFFSET);
            let sr = rcc_reg(RCC_SR_OFFSET);
            &&& t.read(cgr0) == field_en(s.read(cgr0), bits.cgr0, on)
            &&& t.read(cgr1) == field_en(s.read(cgr1), bits.cgr1, on)
            &&& t.read(cgr2) == field_en(s.read(cgr2), bits.cgr2, on)
            &&& t.read(sr) == if bits.waits {
                field_set(s.read(sr), RCC_SR_ALL_DONE, RCC_SR_ALL_DONE)
            } else {
                s.read(sr)
            }
            &&& forall|a: u32|
                a != cgr0 && a != cgr1 && a != cgr2 && a != sr ==> t.read(a) == s.read(a)
        }),
{
    lemma_gates_sit_in_two_registers(peripheral);
    let cgr0 = rcc_reg(RCC_CGR0_OFFSET);
    let cgr1 = rcc_reg(RCC_CGR1_OFFSET);
    let cgr2 = rcc_reg(RCC_CGR2_OFFSET);
    lemma_en_of_no_bits(s.read(cgr0), on);
    lemma_en_of_no_bits(s.read(cgr1), on);
    lemma_en_of_no_bits(s.read(cgr2), on);
    match clock_gate(peripheral) {
        ClockGate::Paired { reg, first, second } => {
            lemma_en_twice(s.read(cgr1), first, second, on);
        },
        ClockGate::Timer { bus_clk, aon, counter_clk } => {
            lemma_en_twice(s.read(cgr1), bus_clk, counter_clk, on);
            lemma_en_twice(s.read(cgr1), counter_clk, bus_clk, on);
            assert(counter_clk | bus_clk == bus_clk | counter_clk) by (bit_vector);
        },
        _ => {},
    }
}

/// Opening a clock gate that was closed and closing it again leaves every
/// clock-gate register holding what it held.
pub proof fn lemma_gate_round_trip(s: BusState, peripheral: u32)
    requires
        ({
            let bits = gate_bits(clock_gate(peripheral));
            &&& s.read(rcc_reg(RCC_CGR0_OFFSET)) & bits.cgr0 == 0
            &&& s.read(rcc_reg(RCC_CGR1_OFFSET)) & bits.cgr1 == 0
            &&& s.read(rcc_reg(RCC_CGR2_OFFSET)) & bits.cgr2 == 0
        }),
    ensures
        ({
            let opened = peripheral_clk_switched(s, peripheral, true);
            let t = peripheral_clk_switched(opened, peripheral, false);
            &&& t.read(rcc_reg(RCC_CGR0_OFFSET)) == s.read(rcc_reg(RCC_CGR0_OFFSET))
            &&& t.read(rcc_reg(RCC_CGR1_OFFSET)) == s.read(rcc_reg(RCC_CGR1_OFFSET))
            &&& t.read(rcc_reg(RCC_CGR2_OFFSET)) == s.read(rcc_reg(RCC_CGR2_OFFSET))
        }),
{
    let bits = gate_bits(clock_gate(peripheral));
    let opened = peripheral_clk_switched(s, peripheral, true);
    lemma_peripheral_clk_effect(s, peripheral, true);
    lemma_peripheral_clk_effect(opened, peripheral, false);
    lemma_enable_disable_round_trip(s.read(rcc_reg(RCC_CGR0_OFFSET)), bits.cgr0);
    lemma_enable_disable_round_trip(s.read(rcc_reg(RCC_CGR1_OFFSET)), bits.cgr1);
    lemma_enable_disable_round_trip(s.read(rcc_reg(RCC_CGR2_OFFSET)), bits.cgr2);
}

// ---------------------------------------------------------------------------
// What an oscillator switch leaves behind
// ---------------------------------------------------------------------------

/// The two analog control words and the analog status register lie at three
/// different addresses.
pub proof fn lemma_analog_words_apart()
    ensures
        analog_addr(ANALOG_OSC32K_INDEX) == 0x4000_8008,
        analog_addr(ANALOG_OSC_INDEX) == 0x4000_8018,
        reg_addr(AFEC_STATUS_BASE, AFEC_RAW_SR_OFFSET) == 0x4000_8208,
{
    assert(0x4000_8000u32 | (0x02u32 << 2) == 0x4000_8008u32 && 0x4000_8000u32 | (0x06u32 << 2)
        == 0x4000_8018u32) by (bit_vector);
}

/// When the switch of an internal oscillator with a ready flag returns, the
/// bit of the oscillator is clear if it was started and set if it was
/// stopped, and the ready flag shows the state that was asked for. The other
/// bits of the two registers, and every other register, are as before.
pub proof fn lemma_internal_osc_effect(s: BusState, off_bit: u32, ready: u32, on: bool)
    ensures
        ({
            let t = internal_osc_switched(s, off_bit, ready, on);
            let word = analog_addr(ANALOG_OSC_INDEX);
            let status = reg_addr(AFEC_STATUS_BASE, AFEC_RAW_SR_OFFSET);
            &&& t.read(word) == field_en(s.read(word), off_bit, !on)
            &&& t.read(word) & off_bit == if on {
                0
            } else {
                off_bit
            }
            &&& t.read(status) & ready == if on {
                ready
            } else {
                0
            }
            &&& t.read(status) & !ready == s.read(status) & !ready
            &&& forall|a: u32| a != word && a != status ==> t.read(a) == s.read(a)
        }),
{
    lemma_analog_words_apart();
    let word = analog_addr(ANALOG_OSC_INDEX);
    let status = reg_addr(AFEC_STATUS_BASE, AFEC_RAW_SR_OFFSET);
    lemma_en_touches_only_mask(s.read(word), off_bit, !on);
    lemma_set_touches_only_mask(s.read(status), ready, if on { ready } else { 0 });
    assert(ready & ready == ready && 0u32 & ready == 0) by (bit_vector);
}

/// When the switch of the radio's crystal returns, the clock of the radio is
/// open, the start bit is as asked, `nreset` is set where the crystal was
/// started, and the flag shows the state that was asked for.
pub proof fn lemma_radio_xo_effect(s: BusState, on: bool)
    ensures
        ({
            let t = radio_xo_switched(s, on);
            let cr1 = reg_addr(LORAC_BASE, LORAC_CR1_OFFSET);
            let sr = reg_addr(LORAC_BASE, LORAC_SR_OFFSET);
            let cgr0 = rcc_reg(RCC_CGR0_OFFSET);
            &&& t.read(cgr0) == field_en(s.read(cgr0), RCC_CGR0_LORA_CLK_EN_MASK, true)
            &&& t.read(cr1) & LORAC_CR1_XO_EN == if on {
                LORAC_CR1_XO_EN
            } else {
                0
            }
            &&& on ==> t.read(cr1) & LORAC_CR1_NRESET == LORAC_CR1_NRESET
            &&& t.read(sr) & LORAC_SR_XO_READY == if on {
                LORAC_SR_XO_READY
            } else {
                0
            }
            &&& forall|a: u32| a != cr1 && a != sr && a != cgr0 ==> t.read(a) == s.read(a)
        }),
{
    let cr1 = reg_addr(LORAC_BASE, LORAC_CR1_OFFSET);
    let sr = reg_addr(LORAC_BASE, LORAC_SR_OFFSET);
    let clocked = peripheral_clk_switched(s, RCC_PERIPHERAL_LORA, true);
    let c = clocked.read(cr1);
    lemma_set_touches_only_mask(
        clocked.read(sr),
        LORAC_SR_XO_READY,
        if on { LORAC_SR_XO_READY } else { 0 },
    );
    assert(0x02u32 & 0x02u32 == 0x02u32 && 0u32 & 0x02u32 == 0) by (bit_vector);
    lemma_en_touches_only_mask(c, LORAC_CR1_XO_EN, on);
    if on {
        let released = field_en(field_en(c, LORAC_CR1_NRESET, true), LORAC_CR1_POR, false);
        lemma_en_touches_only_mask(released, LORAC_CR1_XO_EN, true);
        assert(c & 0x20u32 != 0 ==> (c | 0x04u32) & 0x20u32 == 0x20u32) by (bit_vector);
        assert(((((c | 0x20u32) & !0x80u32) | 0x04u32) & 0x20u32) == 0x20u32) by (bit_vector);
    }
}

// ---------------------------------------------------------------------------
// What a change of source leaves behind
// ---------------------------------------------------------------------------

/// When a change of source returns, the sync flag is clear, the source field
/// holds the new source, cut to the field, and no bit of the source register
/// outside the field has changed unless the enable bits lie in the same
/// register. Only the status register, the register of the enable bits and
/// the source register can have changed at all.
pub proof fn lemma_clk_src_switched_effect(
    s: BusState,
    status: u32,
    sync: u32,
    gate: u32,
    gate_mask: u32,
    sel: u32,
    sel_mask: u32,
    clk_src: u32,
)
    requires
        status != gate,
        status != sel,
    ensures
        ({
            let t = clk_src_switched(s, status, sync, gate, gate_mask, sel, sel_mask, clk_src);
            &&& t.read(status) & sync == 0
            &&& t.read(status) & !sync == s.read(status) & !sync
            &&& t.read(sel) & sel_mask == clk_src & sel_mask
            &&& gate != sel ==> t.read(sel) & !sel_mask == s.read(sel) & !sel_mask
            &&& gate != sel ==> t.read(gate) == if s.read(status) & sync != 0 {
                field_en(s.read(gate), gate_mask, false)
            } else {
                s.read(gate)
            }
            &&& forall|a: u32| a != status && a != gate && a != sel ==> t.read(a) == s.read(a)
        }),
{
    let quiet = clk_quiet(s, status, sync, gate, gate_mask);
    lemma_set_touches_only_mask(quiet.read(sel), sel_mask, clk_src);
    lemma_set_touches_only_mask(s.read(status), sync, 0);
    assert(0u32 & sync == 0) by (bit_vector);
}

} // verus!
