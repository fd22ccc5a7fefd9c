use wsh::pty::{dimensions, shell_command, Pty, PtyDimensions, PtyError};

#[test]
fn each_handle_is_handed_out_once() {
    let mut pty = Pty::spawn(24, 80);
    assert_eq!(pty.size(), (24, 80));

    assert_eq!(pty.take_reader(), Ok(()));
    assert_eq!(
        pty.take_reader(),
        Err(PtyError::CloneReader("reader already taken".to_string()))
    );

    assert_eq!(pty.take_writer(), Ok(()));
    assert_eq!(
        pty.take_writer(),
        Err(PtyError::TakeWriter("writer already taken".to_string()))
    );

    assert_eq!(pty.wait(), Ok(()));
    assert_eq!(pty.take_child(), Some(()));
    assert_eq!(pty.take_child(), None);
    assert_eq!(pty.wait(), Err(PtyError::Wait("child already taken".to_string())));
}

#[test]
fn taking_one_handle_leaves_the_others() {
    let mut pty = Pty::spawn(1, 1);
    assert_eq!(pty.take_writer(), Ok(()));
    assert_eq!(pty.take_child(), Some(()));
    assert_eq!(pty.take_reader(), Ok(()));
}

#[test]
fn resize_records_the_size() {
    let mut pty = Pty::spawn(24, 80);
    let size = pty.resize(40, 120);
    assert_eq!(size, PtyDimensions { rows: 40, cols: 120, pixel_width: 0, pixel_height: 0 });
    assert_eq!(pty.size(), (40, 120));
    pty.resize(25, 100);
    assert_eq!(pty.size(), (25, 100));
    assert_eq!(pty.take_reader(), Ok(()));
    pty.resize(10, 10);
    assert!(pty.take_reader().is_err());
}

#[test]
fn dimensions_have_no_pixels() {
    assert_eq!(
        dimensions(100, 200),
        PtyDimensions { rows: 100, cols: 200, pixel_width: 0, pixel_height: 0 }
    );
}

#[test]
fn shell_comes_from_the_environment_or_falls_back() {
    let command = shell_command(Some("/bin/zsh".to_string()), Some("screen".to_string()));
    assert_eq!(command.program, "/bin/zsh");
    assert_eq!(command.args, vec!["-i".to_string()]);
    assert_eq!(command.term, "screen");

    let command = shell_command(None, None);
    assert_eq!(command.program, "/bin/sh");
    assert_eq!(command.args, vec!["-i".to_string()]);
    assert_eq!(command.term, "xterm-256color");
}

#[test]
fn error_messages_name_the_failure_and_the_cause() {
    assert_eq!(PtyError::OpenPty("no ptys".to_string()).message(), "failed to open pty: no ptys");
    assert_eq!(
        PtyError::SpawnCommand("enoent".to_string()).message(),
        "failed to spawn command: enoent"
    );
    assert_eq!(
        PtyError::CloneReader("dup".to_string()).message(),
        "failed to clone reader: dup"
    );
    assert_eq!(
        PtyError::TakeWriter("gone".to_string()).message(),
        "failed to take writer: gone"
    );
    assert_eq!(PtyError::Resize("ioctl".to_string()).message(), "failed to resize pty: ioctl");
    assert_eq!(PtyError::Wait("echild".to_string()).message(), "failed to wait for child: echild");
}
