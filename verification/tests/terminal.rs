use miv::stdin_raw_mode::{raw_attributes, FlagBits, StdinRawMode, TerminalAttributes, TerminalError};

fn bits() -> FlagBits {
    FlagBits {
        brkint: 0o2,
        ixon: 0o2000,
        inpck: 0o20,
        istrip: 0o40,
        icrnl: 0o400,
        opost: 0o1,
        cs8: 0o60,
        echo: 0o10,
        icanon: 0o2,
        isig: 0o1,
        iexten: 0o100000,
    }
}

fn cooked() -> TerminalAttributes {
    TerminalAttributes {
        input_flags: 0o2 | 0o400 | 0o2000 | 0o40000,
        output_flags: 0o1 | 0o4,
        control_flags: 0o277,
        local_flags: 0o1 | 0o2 | 0o10 | 0o20 | 0o100000,
        min_bytes: 1,
        timeout: 0,
    }
}

#[test]
fn raw_mode_switches_its_flags_and_no_others() {
    let raw = raw_attributes(cooked(), bits(), false);
    assert_eq!(raw.input_flags, 0o40000);
    assert_eq!(raw.output_flags, 0o4);
    assert_eq!(raw.control_flags, 0o277);
    assert_eq!(raw.local_flags, 0o20);
    assert_eq!(raw.min_bytes, 0);
    assert_eq!(raw.timeout, 1);
}

#[test]
fn blocking_reads_wait_for_one_byte() {
    let raw = raw_attributes(cooked(), bits(), true);
    assert_eq!(raw.min_bytes, 1);
    assert_eq!(raw.timeout, 0);
}

#[test]
fn eight_bit_flag_is_set() {
    let mut attributes = cooked();
    attributes.control_flags = 0o200;
    let raw = raw_attributes(attributes, bits(), false);
    assert_eq!(raw.control_flags, 0o260);
}

#[test]
fn raw_mode_twice_is_raw_mode_once() {
    let once = raw_attributes(cooked(), bits(), false);
    let twice = raw_attributes(once, bits(), false);
    assert_eq!(once, twice);
}

#[test]
fn raw_mode_keeps_what_to_restore() {
    let mode = StdinRawMode::with_bits(cooked(), bits(), false);
    assert_eq!(mode.restore(), cooked());
    assert_eq!(mode.enable_raw_mode(), raw_attributes(cooked(), bits(), false));
    assert_eq!(mode.get_flag_bits(), bits());
    assert!(!mode.is_blocking());
}

#[test]
fn attributes_that_could_not_be_read_are_an_error() {
    assert!(matches!(StdinRawMode::new(None, false), Err(TerminalError::NoAttributes)));
}

#[test]
fn raw_mode_uses_the_platforms_flags() {
    let mode = StdinRawMode::new(Some(cooked()), true).unwrap();
    let found = mode.get_flag_bits();
    assert_eq!(found.brkint, termios::BRKINT as u64);
    assert_eq!(found.ixon, termios::IXON as u64);
    assert_eq!(found.inpck, termios::INPCK as u64);
    assert_eq!(found.istrip, termios::ISTRIP as u64);
    assert_eq!(found.icrnl, termios::ICRNL as u64);
    assert_eq!(found.opost, termios::OPOST as u64);
    assert_eq!(found.cs8, termios::CS8 as u64);
    assert_eq!(found.echo, termios::ECHO as u64);
    assert_eq!(found.icanon, termios::ICANON as u64);
    assert_eq!(found.isig, termios::ISIG as u64);
    assert_eq!(found.iexten, termios::IEXTEN as u64);
    assert_eq!(mode.restore(), cooked());
    assert!(mode.is_blocking());
    let raw = mode.enable_raw_mode();
    assert_eq!(raw.local_flags & (termios::ECHO as u64), 0);
    assert_eq!(raw.local_flags & (termios::ICANON as u64), 0);
    assert_eq!(raw.control_flags & (termios::CS8 as u64), termios::CS8 as u64);
    assert_eq!((raw.min_bytes, raw.timeout), (1, 0));
}
