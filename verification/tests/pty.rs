use terminal_core::pty::{login_shell_argv0, pty_window_size, should_log_read};

#[test]
fn window_size_is_clamped_to_u16() {
    assert_eq!(pty_window_size(24, 80), (24, 80));
    assert_eq!(pty_window_size(70_000, usize::MAX), (65535, 65535));
    assert_eq!(pty_window_size(65535, 0), (65535, 0));
}

#[test]
fn login_shell_name_is_file_name_after_dash() {
    assert_eq!(login_shell_argv0("/bin/zsh"), "-zsh");
    assert_eq!(login_shell_argv0("/usr/local/bin/fish"), "-fish");
    assert_eq!(login_shell_argv0("bash"), "-bash");
    assert_eq!(login_shell_argv0("/bin/"), "-");
}

#[test]
fn reader_logs_first_read_and_every_interval() {
    assert_eq!(should_log_read(1), (true, false));
    assert_eq!(should_log_read(2), (false, false));
    assert_eq!(should_log_read(4096), (false, true));
    assert_eq!(should_log_read(8192), (false, true));
}
