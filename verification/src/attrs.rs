//! Terminal attributes and window sizes as plain values.
//!
//! Flag values and control-character indices follow the generic Linux
//! `termios` layout (x86, ARM, RISC-V).

use nix::libc;
use nix::sys::termios::Termios;
use vstd::prelude::*;

verus! {

/// Local flag: echo input characters.
pub const ECHO: u32 = 0x8;

/// Local flag: canonical (line-buffered) input.
pub const ICANON: u32 = 0x2;

/// Output flag: post-process output (LF becomes CRLF).
pub const OPOST: u32 = 0x1;

/// Local flag: generate signals from the interrupt, quit and suspend
/// characters.
pub const ISIG: u32 = 0x1;

/// Input flags: translate newline to carriage return, ignore carriage
/// return, translate carriage return to newline.
pub const INLCR: u32 = 0x40;

pub const IGNCR: u32 = 0x80;

pub const ICRNL: u32 = 0x100;

/// Control flags: the mask of the character size, eight bits per
/// character, and parity generation.
pub const CSIZE: u32 = 0x30;

pub const CS8: u32 = 0x30;

pub const PARENB: u32 = 0x100;

/// Index of the end-of-file character among the control characters.
pub const VEOF: usize = 4;

/// Index of the read timeout, in tenths of a second, among the control
/// characters.
pub const VTIME: usize = 5;

/// Index of the least number of bytes a read waits for among the control
/// characters.
pub const VMIN: usize = 6;

/// The attributes of a terminal line discipline.
#[derive(Clone, Copy, Debug, PartialEq, Eq)]
pub struct TermAttrs {
    pub input_flags: u32,
    pub output_flags: u32,
    pub control_flags: u32,
    pub local_flags: u32,
    pub line_discipline: u8,
    pub control_chars: [u8; 32],
    pub input_speed: u32,
    pub output_speed: u32,
}

/// The dimensions of a terminal window.
#[derive(Clone, Copy, Debug, PartialEq, Eq)]
pub struct Winsize {
    pub rows: u16,
    pub cols: u16,
    pub xpixel: u16,
    pub ypixel: u16,
}

/// What `cfmakeraw` turns the given attributes into.
pub uninterp spec fn raw_mode(attrs: TermAttrs) -> TermAttrs;

impl TermAttrs {
    /// Whether input characters are echoed.
    pub open spec fn echoes(self) -> bool {
        self.local_flags & ECHO != 0
    }

    /// Whether input is line-buffered.
    pub open spec fn canonical(self) -> bool {
        self.local_flags & ICANON != 0
    }

    /// Whether output is post-processed.
    pub open spec fn post_processes(self) -> bool {
        self.output_flags & OPOST != 0
    }

    /// Whether characters generate signals.
    pub open spec fn signals(self) -> bool {
        self.local_flags & ISIG != 0
    }

    /// Whether newlines and carriage returns of the input are translated or
    /// dropped.
    pub open spec fn translates(self) -> bool {
        self.input_flags & (INLCR | IGNCR | ICRNL) != 0
    }

    /// Whether the terminal is in raw mode: input is not line-buffered and
    /// not translated, characters generate no signals, a read returns as
    /// soon as one byte is there and does not time out, and output is not
    /// processed.
    pub open spec fn is_raw(self) -> bool {
        &&& !self.canonical()
        &&& !self.signals()
        &&& !self.translates()
        &&& !self.post_processes()
        &&& self.control_chars[VMIN as int] == 1
        &&& self.control_chars[VTIME as int] == 0
    }

    /// Whether these attributes keep of `before` all that making a terminal
    /// raw leaves alone: no flag is set that was not set, but for the
    /// character size, which is eight bits without parity; the line
    /// discipline, the speeds and the control characters other than `VMIN`
    /// and `VTIME` are as they were.
    pub open spec fn keeps(self, before: TermAttrs) -> bool {
        &&& self.input_flags & !before.input_flags == 0
        &&& self.output_flags & !before.output_flags == 0
        &&& self.local_flags & !before.local_flags == 0
        &&& self.control_flags & !(before.control_flags | CS8) == 0
        &&& self.control_flags & CSIZE == CS8
        &&& self.control_flags & PARENB == 0
        &&& self.line_discipline == before.line_discipline
        &&& self.input_speed == before.input_speed
        &&& self.output_speed == before.output_speed
        &&& forall|i: int|
            0 <= i < 32 && i != VMIN && i != VTIME ==> self.control_chars[i]
                == before.control_chars[i]
    }

    /// The end-of-file character.
    pub open spec fn eof(self) -> u8 {
        self.control_chars[VEOF as int]
    }

    /// These attributes with `ECHO` cleared and all else kept.
    pub open spec fn echo_off(self) -> TermAttrs {
        TermAttrs { local_flags: self.local_flags & !ECHO, ..self }
    }

    /// These attributes with `OPOST` cleared and all else kept.
    pub open spec fn opost_off(self) -> TermAttrs {
        TermAttrs { output_flags: self.output_flags & !OPOST, ..self }
    }

    /// Tells whether the line discipline is in canonical mode.
    pub fn is_canonical(&self) -> (r: bool)
        ensures
            r == self.canonical(),
    {
        self.local_flags & ICANON != 0
    }

    /// Returns the configured end-of-file character.
    pub fn eof_char(&self) -> (c: u8)
        ensures
            c == self.eof(),
    {
        self.control_chars[VEOF]
    }

    /// Clears `ECHO`.
    pub fn without_echo(self) -> (r: TermAttrs)
        ensures
            r == self.echo_off(),
            !r.echoes(),
    {
        let flags: u32 = self.local_flags;
        assert(((flags & !ECHO) & ECHO) == 0) by (bit_vector);
        TermAttrs { local_flags: flags & !ECHO, ..self }
    }

    /// Clears `OPOST`.
    pub fn without_opost(self) -> (r: TermAttrs)
        ensures
            r == self.opost_off(),
            !r.post_processes(),
    {
        let flags: u32 = self.output_flags;
        assert(((flags & !OPOST) & OPOST) == 0) by (bit_vector);
        TermAttrs { output_flags: flags & !OPOST, ..self }
    }
}

/// Calls `nix::sys::termios::cfmakeraw` on a `Termios` holding the given
/// attributes and reads the attributes back. The result depends on the
/// argument alone and is known as [`raw_mode`]. Of what the call does, this
/// claims what its documentation and termios(3), to which that points,
/// spell out: input comes character by character (`ICANON` off, `VMIN` 1,
/// `VTIME` 0), echoing is off, and all special processing of input and
/// output is off (`ISIG`, `INLCR`, `IGNCR`, `ICRNL` and `OPOST` off); the
/// character size is eight bits without parity; and nothing else is set
/// or changed.
#[verifier::external_body]
fn cfmakeraw(attrs: &TermAttrs) -> (r: TermAttrs)
    ensures
        r == raw_mode(*attrs),
        r.is_raw(),
        !r.echoes(),
        r.keeps(*attrs),
{
    let mut t = Termios::from(libc::termios {
        c_iflag: attrs.input_flags, c_oflag: attrs.output_flags,
        c_cflag: attrs.control_flags, c_lflag: attrs.local_flags,
        c_line: attrs.line_discipline, c_cc: attrs.control_chars,
        c_ispeed: attrs.input_speed, c_ospeed: attrs.output_speed,
    });
    nix::sys::termios::cfmakeraw(&mut t);
    let raw = libc::termios::from(t);
    TermAttrs {
        input_flags: raw.c_iflag, output_flags: raw.c_oflag,
        control_flags: raw.c_cflag, local_flags: raw.c_lflag,
        line_discipline: raw.c_line, control_chars: raw.c_cc,
        input_speed: raw.c_ispeed, output_speed: raw.c_ospeed,
    }
}

/// The attributes to install on the controlling terminal for raw mode: the
/// snapshot put through `cfmakeraw`, then with `ECHO` cleared. Canonical
/// mode and signal generation are off, a read returns after one byte and
/// without a timeout, output is not processed and input is not translated,
/// and nothing is echoed. The character size is eight bits without parity.
/// All else is as in the snapshot: no other flag is set, and the speeds,
/// the line discipline and the other control characters are kept.
pub fn raw_attrs(snapshot: &TermAttrs) -> (r: TermAttrs)
    ensures
        r == raw_mode(*snapshot).echo_off(),
        r.is_raw(),
        !r.echoes(),
        r.keeps(*snapshot),
{
    let raw = cfmakeraw(snapshot);
    let flags: u32 = raw.local_flags;
    let before: u32 = snapshot.local_flags;
    assert(flags & ICANON == 0 ==> (flags & !ECHO) & ICANON == 0) by (bit_vector);
    assert(flags & ISIG == 0 ==> (flags & !ECHO) & ISIG == 0) by (bit_vector);
    assert(flags & !before == 0 ==> (flags & !ECHO) & !before == 0) by (bit_vector);
    raw.without_echo()
}

/// What [`pty_attrs`] computes.
pub open spec fn tuned(attrs: TermAttrs, script_mode: bool, mute: bool) -> TermAttrs {
    let a = if script_mode { attrs.opost_off() } else { attrs };
    if mute { a.echo_off() } else { a }
}

/// The attributes to install on a freshly allocated PTY: `OPOST` is cleared
/// in script mode, `ECHO` is cleared when `mute` is set, all else is kept.
pub fn pty_attrs(attrs: TermAttrs, script_mode: bool, mute: bool) -> (r: TermAttrs)
    ensures
        r == tuned(attrs, script_mode, mute),
        script_mode ==> !r.post_processes(),
        mute ==> !r.echoes(),
{
    let a = if script_mode { attrs.without_opost() } else { attrs };
    if mute { a.without_echo() } else { a }
}

} // verus!
