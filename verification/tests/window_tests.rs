use soc_gpio::regs::{apply_pin_cfg, Bank, PinCfg, GPIO_WINDOW_BYTES};
use soc_gpio::window::{DevMemIo, IoError};

#[test]
fn fresh_window_is_zeroed_and_sized() {
    let window = DevMemIo::new(GPIO_WINDOW_BYTES);
    assert_eq!(window.len_words(), 0x400);
    for index in 0..window.len_words() {
        assert_eq!(window.read_word(index), 0);
    }
}

#[test]
fn window_word_write_then_read_round_trips() {
    let mut window = DevMemIo::new(64);
    assert_eq!(window.len_words(), 16);
    window.write_word(3, 0xCAFE_F00D);
    assert_eq!(window.read_word(3), 0xCAFE_F00D);
    // Neighbouring words are untouched.
    assert_eq!(window.read_word(2), 0);
    assert_eq!(window.read_word(4), 0);
}

#[test]
fn apply_pin_cfg_exact_values() {
    assert_eq!(apply_pin_cfg(0x0000_0000, 5, PinCfg::Output), 0x0010_0000);
    assert_eq!(apply_pin_cfg(0x0000_0010, 8, PinCfg::Output), 0x0000_0011);
    assert_eq!(apply_pin_cfg(0xFFFF_FFFF, 0, PinCfg::Input), 0xFFFF_FFF0);
    assert_eq!(apply_pin_cfg(0x0000_0000, 31, PinCfg::Output), 0x1000_0000);
    // Setting a field that already holds the code changes nothing.
    assert_eq!(apply_pin_cfg(0x0010_0000, 5, PinCfg::Output), 0x0010_0000);
}

#[test]
fn io_error_carries_the_os_code() {
    let open_failure = IoError::OpenFailure(2);
    let map_failure = IoError::MapFailure(22);
    assert_eq!(open_failure.os_code(), 2);
    assert_eq!(map_failure.os_code(), 22);
    assert_ne!(open_failure, map_failure);
    assert_ne!(IoError::OpenFailure(2), IoError::MapFailure(2));
}

#[test]
fn bank_indices_are_the_hardware_codes() {
    let banks = [Bank::A, Bank::B, Bank::C, Bank::D, Bank::E, Bank::F, Bank::G];
    for (i, bank) in banks.iter().enumerate() {
        assert_eq!(bank.index(), i);
    }
    assert_eq!(PinCfg::Input.code(), 0);
    assert_eq!(PinCfg::Output.code(), 1);
}
