use ping_viewer_next::cli::{
    init, is_enable_auto_create, is_tracing, is_tracy, is_verbose, log_current_crate_only,
    server_address, Args,
};

fn default_args() -> Args {
    Args {
        enable_auto_create: false,
        reset: false,
        rest_server: "0.0.0.0:8080".to_string(),
        verbose: false,
        log_path: Some("./logs".to_string()),
        enable_tracing_level_log_file: false,
        log_current_crate_only: true,
        enable_tracy: false,
    }
}

#[test]
fn default_arguments() {
    let manager = init(default_args());
    assert!(!is_verbose(&manager));
}

#[test]
fn settings_are_read_back() {
    let mut args = default_args();
    args.verbose = true;
    args.enable_tracy = true;
    let manager = init(args);
    assert!(is_verbose(&manager));
    assert!(is_tracy(&manager));
    assert!(!is_tracing(&manager));
    assert!(log_current_crate_only(&manager));
    assert!(!is_enable_auto_create(&manager));
    assert_eq!(server_address(&manager), "0.0.0.0:8080");
}
