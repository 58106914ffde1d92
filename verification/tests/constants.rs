use tty_spawn::{READ_SIZE, SELECT_SECONDS};

#[test]
fn reads_are_served_with_four_kibibytes() {
    assert_eq!(READ_SIZE, 4096);
}

#[test]
fn the_wait_for_input_lasts_a_second_at_most() {
    assert_eq!(SELECT_SECONDS, 1);
    let timeout = nix::sys::time::TimeVal::new(SELECT_SECONDS, 0);
    assert_eq!(timeout.tv_sec(), 1);
    assert_eq!(timeout.tv_usec(), 0);
}
