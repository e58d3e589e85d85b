use lora_rs::peripherals::regs::{
    reg_addr, Adc, Afec, Bstimer, Crc, Dac, Efc, Gpio, I2c, I2s, Iwdg, Lcd, Lorac, Lptimer,
    Lpuart, Pwr, Qspi, Rcc, Rtc, Sec, SetStatus, Ssp, Syscfg, TimerGp, Uart, Wdg, AFEC_BASE,
    AFEC_RAW_SR_OFFSET, CRC_BASE, EFC_BASE, FLASH_BASE, GPIO_BASE, GPIO_STOP3_WUCR_OFFSET,
    I2C0_BASE, I2S_BASE, I2S_COMP_TYPE_OFFSET, I2S_RXDMA_OFFSET, IWDG_BASE, LORAC_BASE,
    LORAC_CR0_OFFSET, LORAC_MISO_SR_OFFSET, LPTIMER_COMPARE_OFFSET, LPUART_BASE, PERIPH_BASE,
    PWR_BASE, RCC_BASE, RCC_CR3_OFFSET, RCC_SR1_OFFSET, RTC_REG_BASE, SRAM_BASE, SSP0_BASE,
    SSP_PERIPH_ID0_OFFSET, SYSCFG_BASE, TIMER0_SFR_BASE, TIMER_DIER_OFFSET, TIMER_EGR_OFFSET,
    TIMER_OR_OFFSET, UART0_BASE, UART_DMACR_OFFSET, UART_FR_OFFSET, UART_ID_OFFSET,
    UART_ILPR_OFFSET, WDG_BASE, WDG_ITCR_OFFSET, WDG_LOCK_OFFSET, WDG_PERIPHID4_OFFSET,
};

#[test]
fn the_memory_map() {
    assert_eq!(FLASH_BASE, 0x0800_0000);
    assert_eq!(SRAM_BASE, 0x2000_0000);
    assert_eq!(PERIPH_BASE, 0x4000_0000);
    assert_eq!(RCC_BASE, 0x4000_0000);
    assert_eq!(SYSCFG_BASE, 0x4000_1000);
    assert_eq!(PWR_BASE, 0x4000_1800);
    assert_eq!(I2S_BASE, 0x4000_2000);
    assert_eq!(UART0_BASE, 0x4000_3000);
    assert_eq!(LPUART_BASE, 0x4000_5000);
    assert_eq!(SSP0_BASE, 0x4000_6000);
    assert_eq!(I2C0_BASE, 0x4000_7000);
    assert_eq!(AFEC_BASE, 0x4000_8000);
    assert_eq!(LORAC_BASE, 0x4000_9000);
    assert_eq!(TIMER0_SFR_BASE, 0x4000_A000);
    assert_eq!(RTC_REG_BASE, 0x4000_E000);
    assert_eq!(IWDG_BASE, 0x4001_D000);
    assert_eq!(WDG_BASE, 0x4001_E000);
    assert_eq!(GPIO_BASE, 0x4001_F000);
    assert_eq!(EFC_BASE, 0x4002_0000);
    assert_eq!(CRC_BASE, 0x4002_2000);
}

#[test]
fn reserved_words_keep_the_registers_behind_them_in_place() {
    assert_eq!(UART_FR_OFFSET, 0x18);
    assert_eq!(UART_ILPR_OFFSET, 0x20);
    assert_eq!(UART_DMACR_OFFSET, 0x48);
    assert_eq!(UART_ID_OFFSET, 0xFE0);
    assert_eq!(LORAC_CR0_OFFSET, 0x100);
    assert_eq!(LORAC_MISO_SR_OFFSET, 0x118);
    assert_eq!(SSP_PERIPH_ID0_OFFSET, 0xFE0);
    assert_eq!(WDG_LOCK_OFFSET, 0xC00);
    assert_eq!(WDG_ITCR_OFFSET, 0xF00);
    assert_eq!(WDG_PERIPHID4_OFFSET, 0xFD0);
    assert_eq!(I2S_RXDMA_OFFSET, 0x1C0);
    assert_eq!(I2S_COMP_TYPE_OFFSET, 0x1FC);
    assert_eq!(TIMER_DIER_OFFSET, 0x0C);
    assert_eq!(TIMER_EGR_OFFSET, 0x14);
    assert_eq!(TIMER_OR_OFFSET, 0x50);
}

#[test]
fn the_last_register_of_some_blocks() {
    assert_eq!(RCC_SR1_OFFSET, 0x2C);
    assert_eq!(RCC_CR3_OFFSET, 0x30);
    assert_eq!(GPIO_STOP3_WUCR_OFFSET, 0x40);
    assert_eq!(AFEC_RAW_SR_OFFSET, 0x08);
    assert_eq!(LPTIMER_COMPARE_OFFSET, 0x14);
}

#[test]
fn an_address_is_base_plus_offset() {
    assert_eq!(reg_addr(0x4000_3000, 0x30), 0x4000_3030);
    assert_eq!(reg_addr(0, 0), 0);
    assert_eq!(reg_addr(0x4001_FC00, 0x40), 0x4001_FC40);
}

#[test]
fn an_address_wraps_at_the_top_of_the_address_space() {
    assert_eq!(reg_addr(0xFFFF_FFFC, 0x04), 0);
    assert_eq!(reg_addr(0xFFFF_FFFF, 0xFFFF_FFFF), 0xFFFF_FFFE);
    assert_eq!(reg_addr(0xFFFF_FFF0, 0x0C), 0xFFFF_FFFC);
}

#[test]
fn a_status_is_all_zeros_or_all_ones() {
    assert_eq!(SetStatus::Reset.bits(), 0);
    assert_eq!(SetStatus::IsSet.bits(), 0xFFFF_FFFF);
    assert_eq!(SetStatus::of_word(0), SetStatus::Reset);
    assert_eq!(SetStatus::of_word(1), SetStatus::IsSet);
    assert_eq!(SetStatus::of_word(0x8000_0000), SetStatus::IsSet);
}

#[test]
fn a_handle_is_the_base_address_it_was_made_with() {
    assert_eq!(Rcc::new(0x4000_0000).base(), 0x4000_0000);
    assert_eq!(Ssp::new(1).base(), 1);
    assert_eq!(Gpio::new(2).base(), 2);
    assert_eq!(Rtc::new(3).base(), 3);
    assert_eq!(Uart::new(4).base(), 4);
    assert_eq!(Lpuart::new(5).base(), 5);
    assert_eq!(Efc::new(6).base(), 6);
    assert_eq!(Lorac::new(7).base(), 7);
    assert_eq!(Afec::new(8).base(), 8);
    assert_eq!(Iwdg::new(9).base(), 9);
    assert_eq!(Wdg::new(10).base(), 10);
    assert_eq!(Crc::new(11).base(), 11);
    assert_eq!(I2c::new(12).base(), 12);
    assert_eq!(Syscfg::new(13).base(), 13);
    assert_eq!(Pwr::new(14).base(), 14);
    assert_eq!(TimerGp::new(15).base(), 15);
    assert_eq!(Lptimer::new(16).base(), 16);
    assert_eq!(I2s::new(17).base(), 17);
    assert_eq!(Bstimer::new(18).base(), 18);
    assert_eq!(Sec::new(19).base(), 19);
    assert_eq!(Qspi::new(20).base(), 20);
    assert_eq!(Dac::new(21).base(), 21);
    assert_eq!(Adc::new(22).base(), 22);
    assert_eq!(Lcd::new(0xFFFF_FFFF).base(), 0xFFFF_FFFF);
}
