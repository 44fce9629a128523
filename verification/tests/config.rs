use defren::logging::{enabled, format_log_line, init, LogLevel};
use defren::overlay::imgui_init;

#[test]
fn logging_keeps_info_and_above() {
    let config = init();
    assert!(enabled(&config, LogLevel::Error));
    assert!(enabled(&config, LogLevel::Warn));
    assert!(enabled(&config, LogLevel::Info));
    assert!(!enabled(&config, LogLevel::Debug));
    assert!(!enabled(&config, LogLevel::Trace));
}

#[test]
fn log_lines_carry_time_level_and_message() {
    let line = format_log_line("12:34:56", LogLevel::Info, "Scene: loading model");
    assert_eq!(line, "[12:34:56, INFO] Scene: loading model");
    let line = format_log_line("00:00:00", LogLevel::Error, "boom");
    assert_eq!(line, "[00:00:00, ERROR] boom");
}

#[test]
fn overlay_theme_is_consistent() {
    let style = imgui_init();
    assert_eq!(style.colors.len(), 48);
    for c in &style.colors {
        assert!(c.r <= 100 && c.g <= 100 && c.b <= 100 && c.a <= 100);
    }
    // Text is opaque white; the separator matches the border.
    assert_eq!(style.colors[0].r, 100);
    assert_eq!(style.colors[0].a, 100);
    assert_eq!(style.colors[27], style.colors[5]);
    assert_eq!(style.grab_rounding, style.frame_rounding);
    assert_eq!(style.frame_rounding, 32);
    assert_eq!(style.font_size_px, 14);
    assert!(style.docking_enable);
    assert!(style.docking_with_shift);
    assert!(style.docking_always_tab_bar);
}
