use sidecar::launcher::{launch_args, LaunchError, BACKEND_PORT};

#[test]
fn command_line_is_the_port_flag_and_the_port() {
    assert_eq!(launch_args(), vec!["--port".to_string(), "13370".to_string()]);
}

#[test]
fn command_line_names_the_probed_port() {
    let args = launch_args();
    assert_eq!(args[1].parse::<u16>(), Ok(BACKEND_PORT));
}

#[test]
fn launch_error_keeps_path_and_detail() {
    let error = LaunchError::new("/p".to_string(), "d".to_string());
    assert_eq!(error.path, "/p");
    assert_eq!(error.detail, "d");
}
