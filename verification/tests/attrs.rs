use nix::sys::termios::{
    ControlFlags, InputFlags, LocalFlags, OutputFlags, SpecialCharacterIndices,
};
use tty_spawn::{
    pty_attrs, raw_attrs, TermAttrs, CS8, CSIZE, ECHO, ICANON, ICRNL, IGNCR, INLCR, ISIG, OPOST,
    PARENB, VEOF, VMIN, VTIME,
};

const ECHOE: u32 = 0x10;
const ECHOK: u32 = 0x20;
const ECHONL: u32 = 0x40;
const ECHOCTL: u32 = 0x200;
const ECHOKE: u32 = 0x800;
const IEXTEN: u32 = 0x8000;
const IXON: u32 = 0x400;
const IUTF8: u32 = 0x4000;
const ONLCR: u32 = 0x4;

fn cooked() -> TermAttrs {
    let mut control_chars = [0u8; 32];
    control_chars[0] = 3;
    control_chars[1] = 28;
    control_chars[2] = 127;
    control_chars[3] = 21;
    control_chars[VEOF] = 4;
    control_chars[VTIME] = 7;
    control_chars[VMIN] = 9;
    TermAttrs {
        input_flags: ICRNL | IXON | IUTF8,
        output_flags: OPOST | ONLCR,
        control_flags: 0xbf,
        local_flags: ISIG | ICANON | ECHO | ECHOE | ECHOK | ECHOCTL | ECHOKE | IEXTEN,
        line_discipline: 0,
        control_chars,
        input_speed: 15,
        output_speed: 15,
    }
}

#[test]
fn flag_values_are_those_of_the_platform() {
    assert_eq!(ECHO, LocalFlags::ECHO.bits());
    assert_eq!(ICANON, LocalFlags::ICANON.bits());
    assert_eq!(OPOST, OutputFlags::OPOST.bits());
    assert_eq!(VEOF, SpecialCharacterIndices::VEOF as usize);
    assert_eq!(ICRNL, InputFlags::ICRNL.bits());
    assert_eq!(INLCR, InputFlags::INLCR.bits());
    assert_eq!(IGNCR, InputFlags::IGNCR.bits());
    assert_eq!(ISIG, LocalFlags::ISIG.bits());
    assert_eq!(CSIZE, ControlFlags::CSIZE.bits());
    assert_eq!(CS8, ControlFlags::CS8.bits());
    assert_eq!(PARENB, ControlFlags::PARENB.bits());
    assert_eq!(VMIN, SpecialCharacterIndices::VMIN as usize);
    assert_eq!(VTIME, SpecialCharacterIndices::VTIME as usize);
    assert_eq!(32, nix::libc::NCCS);
}

#[test]
fn without_echo_clears_echo_only() {
    let a = cooked();
    let b = a.without_echo();
    assert_eq!(b.local_flags, ISIG | ICANON | ECHOE | ECHOK | ECHOCTL | ECHOKE | IEXTEN);
    assert_eq!(TermAttrs { local_flags: a.local_flags, ..b }, a);
    assert_eq!(b.without_echo(), b);
}

#[test]
fn without_opost_clears_opost_only() {
    let a = cooked();
    let b = a.without_opost();
    assert_eq!(b.output_flags, ONLCR);
    assert_eq!(TermAttrs { output_flags: a.output_flags, ..b }, a);
    assert_eq!(b.without_opost(), b);
}

#[test]
fn canonical_mode_and_eof_char_are_read_from_the_attributes() {
    let a = cooked();
    assert!(a.is_canonical());
    assert_eq!(a.eof_char(), 4);
    let mut b = a;
    b.local_flags = ECHO | ISIG;
    b.control_chars[VEOF] = 26;
    assert!(!b.is_canonical());
    assert_eq!(b.eof_char(), 26);
}

#[test]
fn raw_attrs_are_the_snapshot_made_raw_without_echo() {
    let a = cooked();
    let raw = raw_attrs(&a);
    assert_ne!(raw, a);
    assert_eq!(raw.input_flags, IUTF8);
    assert_eq!(raw.output_flags, ONLCR);
    assert_eq!(raw.control_flags, 0xbf);
    assert_eq!(raw.local_flags, ECHOE | ECHOK | ECHOCTL | ECHOKE);
    assert_eq!(raw.control_chars[VMIN], 1);
    assert_eq!(raw.control_chars[VTIME], 0);
    assert_eq!(raw.control_chars[VEOF], 4);
    assert_eq!(raw.line_discipline, 0);
    assert_eq!(raw.input_speed, 15);
    assert_eq!(raw.output_speed, 15);
    assert!(!raw.is_canonical());
    assert_eq!(raw.local_flags & (ECHO | ECHONL | ISIG | IEXTEN), 0);
}

#[test]
fn raw_attrs_turn_all_input_translation_off() {
    let a = TermAttrs { input_flags: INLCR | IGNCR | ICRNL | IXON | IUTF8, ..cooked() };
    let raw = raw_attrs(&a);
    assert_eq!(raw.input_flags & (INLCR | IGNCR | ICRNL), 0);
    assert_eq!(raw.input_flags, IUTF8);
    assert_eq!(raw.local_flags & ISIG, 0);
    assert_eq!(raw.local_flags & ICANON, 0);
    assert_eq!(raw.output_flags & OPOST, 0);
    assert_eq!((raw.control_chars[VMIN], raw.control_chars[VTIME]), (1, 0));
}

#[test]
fn raw_attrs_keep_what_raw_mode_leaves_alone() {
    let mut a = cooked();
    for i in 0..32 {
        a.control_chars[i] = 100 + i as u8;
    }
    a.control_flags = 0x0f | 0x10 | 0x80 | PARENB | 0x400;
    a.line_discipline = 3;
    a.input_speed = 13;
    a.output_speed = 14;
    let raw = raw_attrs(&a);
    for i in 0..32 {
        if i != VMIN && i != VTIME {
            assert_eq!(raw.control_chars[i], a.control_chars[i]);
        }
    }
    assert_eq!(raw.control_flags, 0x0f | CS8 | 0x80 | 0x400);
    assert_eq!(raw.control_flags & CSIZE, CS8);
    assert_eq!(raw.control_flags & PARENB, 0);
    assert_eq!(raw.line_discipline, 3);
    assert_eq!(raw.input_speed, 13);
    assert_eq!(raw.output_speed, 14);
    assert_eq!(raw.input_flags & !a.input_flags, 0);
    assert_eq!(raw.output_flags & !a.output_flags, 0);
    assert_eq!(raw.local_flags & !a.local_flags, 0);
}

#[test]
fn raw_attrs_of_raw_attrs_are_the_same() {
    let raw = raw_attrs(&cooked());
    assert_eq!(raw_attrs(&raw), raw);
}

#[test]
fn raw_attrs_clear_echo_even_of_nothing_else() {
    let zero = TermAttrs {
        input_flags: 0,
        output_flags: 0,
        control_flags: 0,
        local_flags: ECHO,
        line_discipline: 0,
        control_chars: [0u8; 32],
        input_speed: 0,
        output_speed: 0,
    };
    let raw = raw_attrs(&zero);
    assert_eq!(raw.local_flags, 0);
    assert_eq!(raw.control_flags, 0x30);
    assert_eq!(raw.control_chars[VMIN], 1);
}

#[test]
fn pty_attrs_keep_everything_outside_script_mode_with_echo() {
    let a = cooked();
    assert_eq!(pty_attrs(a, false, false), a);
}

#[test]
fn pty_attrs_clear_opost_in_script_mode() {
    let a = cooked();
    assert_eq!(pty_attrs(a, true, false), TermAttrs { output_flags: ONLCR, ..a });
}

#[test]
fn pty_attrs_clear_echo_when_muted() {
    let a = cooked();
    assert_eq!(
        pty_attrs(a, false, true),
        TermAttrs { local_flags: a.local_flags & !ECHO, ..a }
    );
}

#[test]
fn pty_attrs_clear_both_in_script_mode_when_muted() {
    let a = cooked();
    assert_eq!(
        pty_attrs(a, true, true),
        TermAttrs { output_flags: ONLCR, local_flags: a.local_flags & !ECHO, ..a }
    );
}
