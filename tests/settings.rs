use pomodoro::settings::{Settings, SettingsError, SettingsField, MAX_MINUTES};

#[test]
fn settings_from_valid_values() {
    let s = Settings::from_values(Some(25), Some(5), Some("abc".to_string())).unwrap();
    assert_eq!(s.minutes, 25);
    assert_eq!(s.break_duration, 5);
    assert_eq!(s.api_key.as_deref(), Some("abc"));
    assert!(s.lighting());
    let c = s.cycle_config(60);
    assert_eq!(c.work_secs, 1500);
    assert_eq!(c.break_secs, 300);
    assert_eq!(c.tick_secs, 60);
    assert!(c.lighting);
}

#[test]
fn settings_without_key_have_no_lighting() {
    let s = Settings::from_values(Some(1), Some(1), None).unwrap();
    assert!(!s.lighting());
    assert!(!s.cycle_config(60).lighting);
}

#[test]
fn settings_errors() {
    assert_eq!(
        Settings::from_values(None, Some(5), None).unwrap_err(),
        SettingsError::Missing(SettingsField::Minutes)
    );
    assert_eq!(
        Settings::from_values(Some(25), None, None).unwrap_err(),
        SettingsError::Missing(SettingsField::BreakDuration)
    );
    assert_eq!(
        Settings::from_values(Some(-1), Some(5), None).unwrap_err(),
        SettingsError::Negative(SettingsField::Minutes)
    );
    assert_eq!(
        Settings::from_values(Some(1), Some(-5), None).unwrap_err(),
        SettingsError::Negative(SettingsField::BreakDuration)
    );
    assert_eq!(
        Settings::from_values(Some(i64::MAX), Some(5), None).unwrap_err(),
        SettingsError::TooLarge(SettingsField::Minutes)
    );
    assert_eq!(
        Settings::from_values(Some(1), Some(MAX_MINUTES as i64 + 1), None).unwrap_err(),
        SettingsError::TooLarge(SettingsField::BreakDuration)
    );
    // the work length is checked before the break length
    assert_eq!(
        Settings::from_values(None, Some(-1), None).unwrap_err(),
        SettingsError::Missing(SettingsField::Minutes)
    );
}

#[test]
fn largest_minutes_fit_in_seconds() {
    let s = Settings::from_values(Some(MAX_MINUTES as i64), Some(0), None).unwrap();
    assert_eq!(s.cycle_config(60).work_secs, MAX_MINUTES * 60);
}

#[test]
fn settings_from_loaded_config() {
    let mut c = config::Config::new();
    c.set("minutes", 25i64).unwrap();
    c.set("break_duration", 5i64).unwrap();
    c.set("api_key", "secret-user").unwrap();
    let s = Settings::from_config(&c).unwrap();
    assert_eq!(s.minutes, 25);
    assert_eq!(s.break_duration, 5);
    assert_eq!(s.api_key.as_deref(), Some("secret-user"));
}

#[test]
fn settings_from_config_without_api_key() {
    let mut c = config::Config::new();
    c.set("minutes", 1i64).unwrap();
    c.set("break_duration", 2i64).unwrap();
    let s = Settings::from_config(&c).unwrap();
    assert_eq!(s.minutes, 1);
    assert_eq!(s.break_duration, 2);
    assert!(s.api_key.is_none());
}

#[test]
fn settings_from_config_missing_or_mistyped() {
    let c = config::Config::new();
    assert_eq!(
        Settings::from_config(&c).unwrap_err(),
        SettingsError::Missing(SettingsField::Minutes)
    );
    let mut c = config::Config::new();
    c.set("minutes", "many").unwrap();
    c.set("break_duration", 5i64).unwrap();
    assert_eq!(
        Settings::from_config(&c).unwrap_err(),
        SettingsError::Missing(SettingsField::Minutes)
    );
    let mut c = config::Config::new();
    c.set("minutes", 3i64).unwrap();
    assert_eq!(
        Settings::from_config(&c).unwrap_err(),
        SettingsError::Missing(SettingsField::BreakDuration)
    );
}

#[test]
fn settings_from_config_reads_integer_credential_as_text() {
    let mut c = config::Config::new();
    c.set("minutes", 10i64).unwrap();
    c.set("break_duration", 3i64).unwrap();
    c.set("api_key", 12345i64).unwrap();
    let s = Settings::from_config(&c).unwrap();
    assert_eq!(s.minutes, 10);
    assert_eq!(s.break_duration, 3);
    // an integer credential reads as its decimal text
    assert_eq!(s.api_key.as_deref(), Some("12345"));
}
