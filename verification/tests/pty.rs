use terminal_core::{spawn_error, validate_size, Error, PtySize, SpawnStep};

#[test]
fn test_validate_size_zero_rows() {
    let result = validate_size(0, 80);
    assert!(matches!(result, Err(Error::InvalidSize { rows: 0, cols: 80 })));
}

#[test]
fn test_validate_size_zero_cols() {
    let result = validate_size(24, 0);
    assert!(matches!(result, Err(Error::InvalidSize { rows: 24, cols: 0 })));
}

#[test]
fn test_validate_size_ok() {
    assert!(validate_size(24, 80).is_ok());
    assert!(validate_size(1, 1).is_ok());
}

#[test]
fn test_pty_size_new() {
    let size = PtySize::new(24, 80).unwrap();
    assert_eq!(size.size(), (24, 80));
    assert_eq!(size.pixel_width, 0);
    assert_eq!(size.pixel_height, 0);
}

#[test]
fn test_pty_size_new_invalid() {
    let result = PtySize::new(0, 80);
    assert!(matches!(result, Err(Error::InvalidSize { rows: 0, cols: 80 })));
}

#[test]
fn test_pty_size_resize_valid() {
    let mut size = PtySize::new(24, 80).unwrap();
    let result = size.resize(40, 120);
    assert!(result.is_ok());
    assert_eq!(size.size(), (40, 120));
}

#[test]
fn test_pty_size_resize_invalid_leaves_size() {
    let mut size = PtySize::new(24, 80).unwrap();
    let result = size.resize(0, 10);
    assert!(matches!(result, Err(Error::InvalidSize { rows: 0, cols: 10 })));
    assert_eq!(size.size(), (24, 80));
}

#[test]
fn test_spawn_error_classification() {
    let e = spawn_error(SpawnStep::OpenPty, "echo".to_string(), "no pty".to_string());
    assert_eq!(e, Error::PtyCreation("no pty".to_string()));
    let e = spawn_error(
        SpawnStep::SpawnChild { not_found: false },
        "echo".to_string(),
        "denied".to_string(),
    );
    assert_eq!(e, Error::SpawnCommand("denied".to_string()));
    let e = spawn_error(SpawnStep::TakeWriter, "echo".to_string(), "gone".to_string());
    assert!(matches!(e, Error::PtyCreation(_)));
    let e = spawn_error(SpawnStep::CloneReader, "echo".to_string(), "gone".to_string());
    assert!(matches!(e, Error::PtyCreation(_)));
}

#[test]
fn test_spawn_error_command_not_found() {
    let e = spawn_error(
        SpawnStep::SpawnChild { not_found: true },
        "zsh".to_string(),
        "No such file or directory".to_string(),
    );
    assert_eq!(e, Error::CommandNotFound("zsh".to_string()));
    assert_eq!(e.message(), "command not found: zsh");
}
