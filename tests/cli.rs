use mdr::cli::{detect_backend, parse_backend, Available, Backend};

#[test]
fn known_backends_are_accepted() {
    for name in ["auto", "egui", "webview", "tui"] {
        assert_eq!(parse_backend(name), Ok(name.to_string()));
    }
}

#[test]
fn unknown_backend_is_an_error() {
    assert_eq!(
        parse_backend("gtk"),
        Err("unknown backend 'gtk', expected 'auto', 'egui', 'webview', or 'tui'".to_string())
    );
    assert!(parse_backend("").is_err());
    assert!(parse_backend("Auto").is_err());
}

#[test]
fn detection_prefers_tui_over_ssh_and_gui_with_display() {
    let all = Available { egui: true, webview: true, tui: true };
    assert_eq!(detect_backend(true, true, all), Some(Backend::Tui));
    assert_eq!(detect_backend(false, true, all), Some(Backend::Egui));
    assert_eq!(detect_backend(false, false, all), Some(Backend::Tui));
    let web = Available { egui: false, webview: true, tui: false };
    assert_eq!(detect_backend(true, false, web), Some(Backend::Webview));
    let none = Available { egui: false, webview: false, tui: false };
    assert_eq!(detect_backend(false, true, none), None);
}
