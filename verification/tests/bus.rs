use lora_rs::bus::{reg_en, reg_rd, reg_set, reg_wr, Access, RegisterBank, RegisterBus};

#[test]
fn a_new_bank_reads_zero_everywhere_it_is_asked() {
    let bank = RegisterBank::new();
    assert_eq!(bank.read(0), 0);
    assert_eq!(bank.read(0x4000_0000), 0);
    assert_eq!(bank.read(0xFFFF_FFFF), 0);
    assert!(bank.log().is_empty());
}

#[test]
fn a_write_is_read_back_and_recorded() {
    let mut bank = RegisterBank::new();
    bank.write(0x4000_3030, 0x0000_0301);
    assert_eq!(bank.read(0x4000_3030), 0x0000_0301);
    assert_eq!(bank.read(0x4000_3034), 0);
    assert_eq!(bank.log().len(), 1);
    assert_eq!(bank.log()[0], Access::Write { addr: 0x4000_3030, value: 0x0000_0301 });
}

#[test]
fn a_preset_is_read_back_and_not_recorded() {
    let mut bank = RegisterBank::new();
    bank.preset(0x10, 0xCAFE_F00D);
    assert_eq!(bank.read(0x10), 0xCAFE_F00D);
    assert!(bank.log().is_empty());
}

#[test]
fn a_wait_moves_the_awaited_bits_and_no_others() {
    let mut bank = RegisterBank::new();
    bank.preset(0x28, 0xFFFF_FF00);
    bank.wait_for(0x28, 0x0000_003F, 0x0000_003F);
    assert_eq!(bank.read(0x28), 0xFFFF_FF3F);
    bank.wait_for(0x28, 0x0000_0F00, 0);
    assert_eq!(bank.read(0x28), 0xFFFF_F03F);
    assert_eq!(
        bank.log().as_slice(),
        &[
            Access::Wait { addr: 0x28, mask: 0x0000_003F, expected: 0x0000_003F },
            Access::Wait { addr: 0x28, mask: 0x0000_0F00, expected: 0 },
        ]
    );
}

#[test]
fn a_wait_for_what_already_shows_changes_no_register() {
    let mut bank = RegisterBank::new();
    bank.preset(0x2C, 0x0000_0400);
    bank.wait_for(0x2C, 0x0000_0040, 0);
    assert_eq!(bank.read(0x2C), 0x0000_0400);
    assert_eq!(bank.log().len(), 1);
}

#[test]
fn the_four_primitives_on_a_bus() {
    let mut bank = RegisterBank::new();
    reg_wr(&mut bank, 0x100, 0x0000_00FF);
    assert_eq!(reg_rd(&bank, 0x100), 0x0000_00FF);
    reg_set(&mut bank, 0x100, 0x0000_0F00, 0x0000_0A00);
    assert_eq!(reg_rd(&bank, 0x100), 0x0000_0AFF);
    reg_en(&mut bank, 0x100, 0x0000_000F, false);
    assert_eq!(reg_rd(&bank, 0x100), 0x0000_0AF0);
    reg_en(&mut bank, 0x100, 0x8000_0000, true);
    assert_eq!(reg_rd(&bank, 0x100), 0x8000_0AF0);
    assert_eq!(
        bank.log().as_slice(),
        &[
            Access::Write { addr: 0x100, value: 0x0000_00FF },
            Access::Write { addr: 0x100, value: 0x0000_0AFF },
            Access::Write { addr: 0x100, value: 0x0000_0AF0 },
            Access::Write { addr: 0x100, value: 0x8000_0AF0 },
        ]
    );
}

#[test]
fn a_bus_set_masks_its_value() {
    let mut bank = RegisterBank::new();
    bank.preset(0x200, 0x1111_1111);
    reg_set(&mut bank, 0x200, 0x0000_00F0, 0xFFFF_FFFF);
    assert_eq!(bank.read(0x200), 0x1111_11F1);
}

#[test]
fn bus_enable_then_disable_restores_every_register() {
    let mut bank = RegisterBank::new();
    bank.preset(0x0C, 0x0200_0008);
    bank.preset(0x10, 0x0000_0002);
    reg_en(&mut bank, 0x0C, 0x0010_0000, true);
    assert_eq!(bank.read(0x0C), 0x0210_0008);
    reg_en(&mut bank, 0x0C, 0x0010_0000, false);
    assert_eq!(bank.read(0x0C), 0x0200_0008);
    assert_eq!(bank.read(0x10), 0x0000_0002);
}

struct Counting {
    word: u32,
    writes: u32,
    waits: u32,
}

impl RegisterBus for Counting {
    fn read(&self, _addr: u32) -> u32 {
        self.word
    }

    fn write(&mut self, _addr: u32, value: u32) {
        self.word = value;
        self.writes += 1;
    }

    fn wait_for(&mut self, _addr: u32, _mask: u32, _expected: u32) {
        self.waits += 1;
    }
}

#[test]
fn a_bus_of_the_caller_is_driven_by_the_primitives() {
    let mut bus = Counting { word: 0x0000_00F0, writes: 0, waits: 0 };
    reg_en(&mut bus, 0x40, 0x0000_000F, true);
    assert_eq!(bus.word, 0x0000_00FF);
    reg_set(&mut bus, 0x40, 0x0000_00F0, 0x0000_0010);
    assert_eq!(bus.word, 0x0000_001F);
    assert_eq!(bus.writes, 2);
    assert_eq!(bus.waits, 0);
}
