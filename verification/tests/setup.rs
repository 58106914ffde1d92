use tty_spawn::{
    raw_attrs, Errno, Fd, Reply, Request, Stage, Supervisor, TermAttrs, TtySpawn, Winsize, ECHO,
    ICANON, OPOST,
};

const ONLCR: u32 = 0x4;
const ISIG: u32 = 0x1;

fn cooked() -> TermAttrs {
    let mut control_chars = [0u8; 32];
    control_chars[4] = 4;
    control_chars[6] = 1;
    TermAttrs {
        input_flags: 0x4500,
        output_flags: OPOST | ONLCR,
        control_flags: 0xbf,
        local_flags: ISIG | ICANON | ECHO,
        line_discipline: 0,
        control_chars,
        input_speed: 15,
        output_speed: 15,
    }
}

fn other() -> TermAttrs {
    TermAttrs { input_flags: 0x100, input_speed: 13, output_speed: 13, ..cooked() }
}

fn size(rows: u16, cols: u16) -> Winsize {
    Winsize { rows, cols, xpixel: 0, ypixel: 0 }
}

fn plain() -> Supervisor {
    TtySpawn::new(b"prog".to_vec()).spawn()
}

fn script() -> Supervisor {
    let mut spawn = TtySpawn::new(b"prog".to_vec());
    spawn.script_mode(true);
    spawn.spawn()
}

fn feed(supervisor: &mut Supervisor, replies: Vec<Reply>) {
    for reply in replies {
        supervisor.advance(reply);
    }
}

#[test]
fn on_a_terminal_the_pty_inherits_size_and_attributes() {
    let mut s = plain();
    assert_eq!(s.request(), Request::GetAttrs(Fd::Stdin));
    s.advance(Reply::Attrs(cooked()));
    assert_eq!(s.request(), Request::GetWinsize(Fd::Stdin));
    s.advance(Reply::Size(size(24, 80)));
    assert_eq!(
        s.request(),
        Request::OpenPty { secondary: false, winsize: Some(size(24, 80)), attrs: Some(cooked()) }
    );
}

#[test]
fn off_a_terminal_the_pty_gets_defaults_and_the_size_is_not_asked_for() {
    let mut s = plain();
    s.advance(Reply::Failed(Errno::Other(25)));
    assert_eq!(s.request(), Request::OpenPty { secondary: false, winsize: None, attrs: None });
}

#[test]
fn a_size_that_cannot_be_read_is_left_out() {
    let mut s = plain();
    feed(&mut s, vec![Reply::Attrs(cooked()), Reply::Failed(Errno::Other(25))]);
    assert_eq!(
        s.request(),
        Request::OpenPty { secondary: false, winsize: None, attrs: Some(cooked()) }
    );
}

#[test]
fn a_failed_openpty_is_fatal() {
    let mut s = plain();
    feed(&mut s, vec![Reply::Fault, Reply::Failed(Errno::Other(24))]);
    assert_eq!(s.request(), Request::Finish(Err(Errno::Other(24))));
    assert!(s.is_finished());
}

#[test]
fn a_failure_without_a_code_is_reported_as_einval() {
    let mut s = plain();
    feed(&mut s, vec![Reply::Fault, Reply::Fault]);
    assert_eq!(s.request(), Request::Finish(Err(Errno::Invalid)));
}

#[test]
fn raw_mode_is_installed_on_a_terminal() {
    let mut s = plain();
    feed(&mut s, vec![Reply::Attrs(cooked()), Reply::Size(size(24, 80)), Reply::Done]);
    let raw = raw_attrs(&cooked());
    assert_eq!(s.request(), Request::SetAttrs(Fd::Stdin, raw));
    assert_eq!(raw.local_flags & (ECHO | ICANON | ISIG), 0);
    assert_eq!(raw.output_flags & OPOST, 0);
    s.advance(Reply::Done);
    assert_eq!(s.request(), Request::GetAttrs(Fd::Master));
}

#[test]
fn raw_mode_goes_on_even_if_installing_it_failed() {
    let mut s = plain();
    feed(
        &mut s,
        vec![
            Reply::Attrs(cooked()),
            Reply::Size(size(24, 80)),
            Reply::Done,
            Reply::Failed(Errno::Io),
        ],
    );
    assert_eq!(s.request(), Request::GetAttrs(Fd::Master));
}

#[test]
fn raw_mode_is_not_installed_off_a_terminal() {
    let mut s = plain();
    feed(&mut s, vec![Reply::Fault, Reply::Done]);
    assert_eq!(s.request(), Request::GetAttrs(Fd::Master));
}

#[test]
fn raw_mode_is_not_installed_when_turned_off() {
    let mut spawn = TtySpawn::new(b"prog".to_vec());
    spawn.raw(false);
    let mut s = spawn.spawn();
    feed(&mut s, vec![Reply::Attrs(cooked()), Reply::Size(size(24, 80)), Reply::Done]);
    assert_eq!(s.request(), Request::GetAttrs(Fd::Master));
}

#[test]
fn script_mode_allocates_a_second_pty_like_stderr() {
    let mut s = script();
    feed(&mut s, vec![Reply::Attrs(cooked()), Reply::Size(size(24, 80)), Reply::Done]);
    assert_eq!(s.request(), Request::GetAttrs(Fd::Stderr));
    s.advance(Reply::Attrs(other()));
    assert_eq!(s.request(), Request::GetWinsize(Fd::Stderr));
    s.advance(Reply::Size(size(50, 132)));
    assert_eq!(
        s.request(),
        Request::OpenPty { secondary: true, winsize: Some(size(50, 132)), attrs: Some(other()) }
    );
    s.advance(Reply::Done);
    assert_eq!(s.request(), Request::GetAttrs(Fd::StderrMaster));
}

#[test]
fn in_script_mode_the_second_pty_loses_opost_and_nothing_else() {
    let mut s = script();
    feed(&mut s, vec![Reply::Fault, Reply::Done, Reply::Attrs(other()), Reply::Fault, Reply::Done]);
    assert_eq!(s.request(), Request::GetAttrs(Fd::StderrMaster));
    s.advance(Reply::Attrs(other()));
    assert_eq!(
        s.request(),
        Request::SetAttrs(Fd::StderrMaster, TermAttrs { output_flags: ONLCR, ..other() })
    );
    s.advance(Reply::Failed(Errno::Io));
    assert_eq!(s.request(), Request::GetAttrs(Fd::Master));
}

#[test]
fn a_second_pty_whose_attributes_cannot_be_read_is_left_as_it_is() {
    let mut s = script();
    feed(
        &mut s,
        vec![
            Reply::Fault,
            Reply::Done,
            Reply::Fault,
            Reply::Done,
            Reply::Failed(Errno::Other(25)),
        ],
    );
    assert_eq!(s.request(), Request::GetAttrs(Fd::Master));
}

#[test]
fn outside_script_mode_no_second_pty_is_touched() {
    let mut s = plain();
    feed(&mut s, vec![Reply::Fault, Reply::Done]);
    assert_eq!(s.request(), Request::GetAttrs(Fd::Master));
}

#[test]
fn script_mode_with_stderr_off_a_terminal_allocates_a_default_pty() {
    let mut s = script();
    feed(&mut s, vec![Reply::Fault, Reply::Done, Reply::Failed(Errno::Other(25))]);
    assert_eq!(s.request(), Request::OpenPty { secondary: true, winsize: None, attrs: None });
}

#[test]
fn script_mode_with_stderr_of_unknown_size_leaves_the_size_out() {
    let mut s = script();
    feed(&mut s, vec![Reply::Fault, Reply::Done, Reply::Attrs(other()), Reply::Fault]);
    assert_eq!(
        s.request(),
        Request::OpenPty { secondary: true, winsize: None, attrs: Some(other()) }
    );
}

#[test]
fn script_mode_leaves_the_terminal_alone() {
    let mut s = script();
    feed(
        &mut s,
        vec![
            Reply::Attrs(cooked()),
            Reply::Size(size(24, 80)),
            Reply::Done,
            Reply::Fault,
            Reply::Done,
            Reply::Fault,
            Reply::Fault,
            Reply::Failed(Errno::Other(12)),
        ],
    );
    assert_eq!(s.request(), Request::Finish(Err(Errno::Other(12))));
}

#[test]
fn a_failed_second_openpty_is_fatal() {
    let mut s = script();
    feed(&mut s, vec![Reply::Fault, Reply::Done, Reply::Fault, Reply::Failed(Errno::Other(23))]);
    assert_eq!(s.request(), Request::Finish(Err(Errno::Other(23))));
}

#[test]
fn outside_script_mode_the_pty_keeps_its_attributes() {
    let mut s = plain();
    feed(&mut s, vec![Reply::Fault, Reply::Done, Reply::Attrs(cooked())]);
    assert_eq!(s.request(), Request::SetAttrs(Fd::Master, cooked()));
    s.advance(Reply::Done);
    assert_eq!(s.request(), Request::Fork);
}

#[test]
fn with_echo_off_the_pty_loses_echo() {
    let mut spawn = TtySpawn::new(b"prog".to_vec());
    spawn.echo(false);
    let mut s = spawn.spawn();
    feed(&mut s, vec![Reply::Fault, Reply::Done, Reply::Attrs(cooked())]);
    assert_eq!(
        s.request(),
        Request::SetAttrs(Fd::Master, TermAttrs { local_flags: ISIG | ICANON, ..cooked() })
    );
}

#[test]
fn in_script_mode_on_a_terminal_the_pty_loses_opost_only() {
    let mut s = script();
    feed(
        &mut s,
        vec![Reply::Fault, Reply::Done, Reply::Fault, Reply::Done, Reply::Fault, Reply::Attrs(cooked())],
    );
    assert_eq!(s.request(), Request::IsTty(Fd::Stdin));
    s.advance(Reply::Flag(true));
    assert_eq!(
        s.request(),
        Request::SetAttrs(Fd::Master, TermAttrs { output_flags: ONLCR, ..cooked() })
    );
}

#[test]
fn in_script_mode_off_a_terminal_the_pty_loses_opost_and_echo() {
    let mut s = script();
    feed(
        &mut s,
        vec![
            Reply::Fault,
            Reply::Done,
            Reply::Fault,
            Reply::Done,
            Reply::Fault,
            Reply::Attrs(cooked()),
            Reply::Flag(false),
        ],
    );
    assert_eq!(
        s.request(),
        Request::SetAttrs(
            Fd::Master,
            TermAttrs { output_flags: ONLCR, local_flags: ISIG | ICANON, ..cooked() }
        )
    );
}

#[test]
fn in_script_mode_an_unanswered_isatty_counts_as_no() {
    let mut s = script();
    feed(
        &mut s,
        vec![
            Reply::Fault,
            Reply::Done,
            Reply::Fault,
            Reply::Done,
            Reply::Fault,
            Reply::Attrs(cooked()),
            Reply::Failed(Errno::Other(9)),
        ],
    );
    assert_eq!(
        s.request(),
        Request::SetAttrs(
            Fd::Master,
            TermAttrs { output_flags: ONLCR, local_flags: ISIG | ICANON, ..cooked() }
        )
    );
}

#[test]
fn in_script_mode_with_echo_off_isatty_is_not_asked() {
    let mut spawn = TtySpawn::new(b"prog".to_vec());
    spawn.script_mode(true).echo(false);
    let mut s = spawn.spawn();
    feed(
        &mut s,
        vec![Reply::Fault, Reply::Done, Reply::Fault, Reply::Done, Reply::Fault, Reply::Attrs(cooked())],
    );
    assert_eq!(
        s.request(),
        Request::SetAttrs(
            Fd::Master,
            TermAttrs { output_flags: ONLCR, local_flags: ISIG | ICANON, ..cooked() }
        )
    );
}

#[test]
fn a_pty_whose_attributes_cannot_be_read_is_left_as_it_is() {
    let mut s = plain();
    feed(&mut s, vec![Reply::Fault, Reply::Done, Reply::Failed(Errno::Other(25))]);
    assert_eq!(s.request(), Request::Fork);
}

#[test]
fn the_fork_follows_whether_or_not_the_pty_took_its_attributes() {
    let mut s = plain();
    feed(
        &mut s,
        vec![Reply::Fault, Reply::Done, Reply::Attrs(cooked()), Reply::Failed(Errno::Io)],
    );
    assert_eq!(s.request(), Request::Fork);
}

#[test]
fn a_failed_fork_is_fatal() {
    let mut s = plain();
    feed(&mut s, vec![Reply::Fault, Reply::Done, Reply::Fault, Reply::Failed(Errno::WouldBlock)]);
    assert_eq!(s.request(), Request::Finish(Err(Errno::WouldBlock)));
}

#[test]
fn a_failed_fork_in_raw_mode_restores_the_terminal_first() {
    let mut s = plain();
    feed(
        &mut s,
        vec![
            Reply::Attrs(cooked()),
            Reply::Size(size(24, 80)),
            Reply::Done,
            Reply::Done,
            Reply::Fault,
            Reply::Failed(Errno::Other(12)),
        ],
    );
    assert_eq!(s.request(), Request::SetAttrs(Fd::Stdin, cooked()));
    assert!(!s.is_finished());
    s.advance(Reply::Failed(Errno::Io));
    assert_eq!(s.request(), Request::Finish(Err(Errno::Other(12))));
    assert!(s.is_finished());
}

#[test]
fn a_failed_openpty_before_raw_mode_restores_nothing() {
    let mut s = plain();
    feed(
        &mut s,
        vec![Reply::Attrs(cooked()), Reply::Size(size(24, 80)), Reply::Failed(Errno::Other(2))],
    );
    assert_eq!(s.request(), Request::Finish(Err(Errno::Other(2))));
}

#[test]
fn the_parent_starts_by_closing_the_slave() {
    let mut s = plain();
    feed(&mut s, vec![Reply::Fault, Reply::Done, Reply::Fault, Reply::Parent]);
    assert_eq!(s.request(), Request::Close(Fd::Slave));
    assert_eq!(s.stage(), Stage::ParentCloseSlave);
}

#[test]
fn once_finished_nothing_changes() {
    let mut s = plain();
    feed(&mut s, vec![Reply::Fault, Reply::Failed(Errno::Other(24))]);
    assert!(s.is_finished());
    feed(&mut s, vec![Reply::Done, Reply::Parent, Reply::Data(vec![1]), Reply::Fault]);
    assert!(s.is_finished());
    assert_eq!(s.request(), Request::Finish(Err(Errno::Other(24))));
}

#[test]
fn asking_twice_gives_the_same_request() {
    let mut s = plain();
    feed(&mut s, vec![Reply::Attrs(cooked())]);
    assert_eq!(s.request(), s.request());
    assert_eq!(s.request(), Request::GetWinsize(Fd::Stdin));
}
