use soc_gpio::gpio::Gpio;
use soc_gpio::regs::{bank_reg_index, cfg_reg_index, data_reg_index, Bank, PinCfg, DATA_REG_OFFSET};

const ALL_BANKS: [Bank; 7] = [Bank::A, Bank::B, Bank::C, Bank::D, Bank::E, Bank::F, Bank::G];

#[test]
fn bank_write_then_read_round_trips() {
    let mut gpio = Gpio::new();
    let values: [u32; 7] = [
        0x0000_0000,
        0xFFFF_FFFF,
        0xDEAD_BEEF,
        0x0000_0001,
        0x8000_0000,
        0x1234_5678,
        0xA5A5_A5A5,
    ];
    for (i, bank) in ALL_BANKS.iter().enumerate() {
        gpio.write_bank(*bank, values[i]);
        assert_eq!(gpio.read_bank(*bank), values[i]);
    }
    // Later writes to other banks left each earlier bank's value in place.
    for (i, bank) in ALL_BANKS.iter().enumerate() {
        assert_eq!(gpio.read_bank(*bank), values[i]);
    }
}

#[test]
fn bank_read_of_fresh_controller_is_zero() {
    let gpio = Gpio::new();
    for bank in ALL_BANKS.iter() {
        assert_eq!(gpio.read_bank(*bank), 0);
    }
}

#[test]
fn write_bank_is_issued_whatever_the_pin_configuration() {
    let mut gpio = Gpio::new();
    gpio.configure_pin(Bank::B, 3, PinCfg::Input);
    gpio.write_bank(Bank::B, 0x0000_0008);
    assert_eq!(gpio.read_bank(Bank::B), 0x0000_0008);
}

#[test]
fn configure_pin_5_sets_field_in_register_0() {
    let mut gpio = Gpio::new();
    gpio.configure_pin(Bank::A, 5, PinCfg::Output);
    let reg0 = cfg_reg_index(Bank::A, 5);
    assert_eq!(reg0, cfg_reg_index(Bank::A, 0));
    assert_eq!(gpio.window().read_word(reg0), 0x0010_0000);
}

#[test]
fn configure_pin_13_leaves_register_0_unchanged() {
    let mut gpio = Gpio::new();
    gpio.configure_pin(Bank::A, 5, PinCfg::Output);
    let reg0 = cfg_reg_index(Bank::A, 5);
    let before = gpio.window().read_word(reg0);
    gpio.configure_pin(Bank::A, 13, PinCfg::Output);
    assert_eq!(gpio.window().read_word(reg0), before);
    let reg1 = cfg_reg_index(Bank::A, 13);
    assert_ne!(reg0, reg1);
    assert_eq!(gpio.window().read_word(reg1), 0x0010_0000);
}

#[test]
fn configure_pin_preserves_neighbour_fields() {
    let mut gpio = Gpio::new();
    // Pin 9's field is bit 4 of configuration register 1: the register holds 0x10.
    gpio.configure_pin(Bank::A, 9, PinCfg::Output);
    let reg1 = cfg_reg_index(Bank::A, 9);
    assert_eq!(gpio.window().read_word(reg1), 0x10);
    // Configuring pin 8 (shift 0, same register) must leave pin 9's field alone.
    gpio.configure_pin(Bank::A, 8, PinCfg::Output);
    assert_eq!(gpio.window().read_word(reg1), 0x11);
}

#[test]
fn configure_pin_back_to_input_clears_the_field_only() {
    let mut gpio = Gpio::new();
    gpio.configure_pin(Bank::C, 8, PinCfg::Output);
    gpio.configure_pin(Bank::C, 9, PinCfg::Output);
    let reg1 = cfg_reg_index(Bank::C, 8);
    assert_eq!(gpio.window().read_word(reg1), 0x11);
    gpio.configure_pin(Bank::C, 8, PinCfg::Input);
    assert_eq!(gpio.window().read_word(reg1), 0x10);
}

#[test]
fn data_register_addresses() {
    // Bank A: 0x0800 + 0x10; bank G: 0x0800 + 6 * 0x24 + 0x10.
    assert_eq!(4 * data_reg_index(Bank::A), 0x0810);
    assert_eq!(4 * data_reg_index(Bank::G), 0x08E8);
    let expected: [usize; 7] = [0x0810, 0x0834, 0x0858, 0x087C, 0x08A0, 0x08C4, 0x08E8];
    for (i, bank) in ALL_BANKS.iter().enumerate() {
        assert_eq!(4 * data_reg_index(*bank), expected[i]);
    }
}

#[test]
fn configuration_register_addresses() {
    // Bank A's four configuration registers sit at the front of its group.
    assert_eq!(4 * cfg_reg_index(Bank::A, 0), 0x0800);
    assert_eq!(4 * cfg_reg_index(Bank::A, 7), 0x0800);
    assert_eq!(4 * cfg_reg_index(Bank::A, 8), 0x0804);
    assert_eq!(4 * cfg_reg_index(Bank::A, 16), 0x0808);
    assert_eq!(4 * cfg_reg_index(Bank::A, 31), 0x080C);
    // Bank B's group starts one stride later.
    assert_eq!(4 * cfg_reg_index(Bank::B, 0), 0x0824);
}

#[test]
fn address_computation_is_independent_of_register_traffic() {
    let mut gpio = Gpio::new();
    let before = bank_reg_index(Bank::D, DATA_REG_OFFSET);
    gpio.write_bank(Bank::D, 0xFFFF_FFFF);
    gpio.configure_pin(Bank::D, 0, PinCfg::Output);
    gpio.read_bank(Bank::D);
    let after = bank_reg_index(Bank::D, DATA_REG_OFFSET);
    assert_eq!(before, after);
}
