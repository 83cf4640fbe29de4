use cati::terminal::{
    set_nonblocking, set_termios_raw_mode, BlockingFlags, ModeMasks, TerminalError,
    TerminalSettings, RAW_MIN_BYTES, RAW_READ_TIMEOUT,
};
use nix::fcntl::OFlag;

#[test]
fn raw_mode_switches_echo_and_canonical_off() {
    let masks = ModeMasks { echo: 0o10, canonical: 0o2 };
    let current = TerminalSettings { local_flags: 0x8a3b, min_bytes: 1, read_timeout: 0 };
    let change = set_termios_raw_mode(current, masks);
    assert_eq!(
        change.apply,
        TerminalSettings { local_flags: 0x8a31, min_bytes: 0, read_timeout: 1 }
    );
    assert_eq!(change.restore, current);
}

#[test]
fn raw_mode_of_raw_settings_is_the_same() {
    let masks = ModeMasks { echo: 0o10, canonical: 0o2 };
    let current = TerminalSettings { local_flags: 0x8a3b, min_bytes: 4, read_timeout: 9 };
    let once = set_termios_raw_mode(current, masks).apply;
    let twice = set_termios_raw_mode(once, masks).apply;
    assert_eq!(once, twice);
}

#[test]
fn raw_mode_touches_no_other_flag() {
    let masks = ModeMasks { echo: 0x8, canonical: 0x100 };
    let current = TerminalSettings { local_flags: u32::MAX, min_bytes: 1, read_timeout: 0 };
    let change = set_termios_raw_mode(current, masks);
    assert_eq!(change.apply.local_flags, u32::MAX - 0x108);
    let none = TerminalSettings { local_flags: 0, min_bytes: 1, read_timeout: 0 };
    assert_eq!(set_termios_raw_mode(none, masks).apply.local_flags, 0);
}

#[test]
fn raw_reads_come_back_at_once() {
    assert_eq!(RAW_MIN_BYTES, 0);
    assert_eq!(RAW_READ_TIMEOUT, 1);
}

#[test]
fn masks_of_the_platform() {
    let masks = ModeMasks::platform();
    assert_eq!(masks.echo, termios::ECHO);
    assert_eq!(masks.canonical, termios::ICANON);
    assert_eq!(masks.echo, 8);
    assert!(masks.canonical == 2 || masks.canonical == 256);
    assert_eq!(masks.echo & masks.canonical, 0);
}

#[test]
fn nonblocking_adds_one_flag() {
    let change = set_nonblocking(0);
    assert_eq!(change.restore, BlockingFlags { bits: 0 });
    assert_eq!(change.apply, BlockingFlags { bits: OFlag::O_NONBLOCK.bits() });
    assert_ne!(change.apply.bits, 0);
}

#[test]
fn nonblocking_keeps_what_was_set() {
    let current = (OFlag::O_RDWR | OFlag::O_APPEND).bits();
    let change = set_nonblocking(current);
    assert_eq!(change.restore.bits, current);
    assert_eq!(change.apply.bits, current | OFlag::O_NONBLOCK.bits());
}

#[test]
fn nonblocking_twice_is_nonblocking() {
    let current = OFlag::O_NONBLOCK.bits();
    let change = set_nonblocking(current);
    assert_eq!(change.restore.bits, current);
    assert_eq!(change.apply.bits, current);
}

#[test]
fn flags_come_back_as_they_were_read() {
    let change = set_nonblocking(-1);
    assert_eq!(change.restore.bits, -1);
    assert_eq!(change.apply.bits, -1);
    let odd = OFlag::O_WRONLY.bits() | (1 << 30);
    let change = set_nonblocking(odd);
    assert_eq!(change.restore.bits, odd);
    assert_eq!(change.apply.bits, odd | OFlag::O_NONBLOCK.bits());
}

#[test]
fn nonblocking_changes_no_other_flag() {
    let flag = set_nonblocking(0).apply.bits;
    for current in [0, 1, 2, 0o2000, 0o100000, i32::MAX, i32::MIN, -1, 0x1234_5678] {
        let change = set_nonblocking(current);
        assert_eq!(change.restore.bits, current);
        assert_eq!(change.apply.bits, current | flag);
        assert_eq!(change.apply.bits & !flag, current & !flag);
        assert_eq!(change.apply.bits & flag, flag);
    }
}

#[test]
fn messages_of_the_errors() {
    assert_eq!(TerminalError::AttributeRead.message(), "Unable to get current attributes");
    assert_eq!(TerminalError::AttributeWrite.message(), "Unable to set attributes");
    assert_eq!(TerminalError::FlagRead.message(), "Unable to get descriptor flags");
    assert_eq!(TerminalError::FlagWrite.message(), "Unable to set descriptor flags");
}
