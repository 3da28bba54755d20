use dinkleberg::settings::Settings;

#[test]
fn defaults_use_the_widget_without_delay_or_restriction() {
    let s = Settings::new();
    assert!(s.use_widget);
    assert_eq!(s.sleep_time, 0);
    assert!(s.include_only.is_empty());
}
