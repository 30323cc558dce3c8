use template_app::settings::{load_settings, Settings, StoredSettings, DEFAULT_VALUE_BITS};

fn sample() -> Settings {
    Settings {
        label: "mine".to_string(),
        value_bits: 7.5f32.to_bits(),
        show_settings: true,
        stored_discord_token: "3BHNNR45XZH8PU".to_string(),
        download_to: "/home/me/downloads".to_string(),
    }
}

#[test]
fn the_default_value_is_two_point_seven() {
    assert_eq!(DEFAULT_VALUE_BITS, 2.7f32.to_bits());
    assert_eq!(f32::from_bits(DEFAULT_VALUE_BITS), 2.7f32);
}

#[test]
fn defaults_are_those_of_a_first_run() {
    let settings = Settings::defaults("/work".to_string());
    assert_eq!(settings.label, "Hello World!");
    assert_eq!(f32::from_bits(settings.value_bits), 2.7f32);
    assert!(!settings.show_settings);
    assert_eq!(settings.stored_discord_token, "");
    assert_eq!(settings.download_to, "/work");
}

#[test]
fn a_blank_record_has_no_field() {
    let blank = StoredSettings::blank();
    assert_eq!(blank.label, None);
    assert_eq!(blank.value_bits, None);
    assert_eq!(blank.show_settings, None);
    assert_eq!(blank.stored_discord_token, None);
    assert_eq!(blank.download_to, None);
}

#[test]
fn a_blank_record_is_completed_to_the_fallback() {
    assert_eq!(StoredSettings::blank().complete(sample()), sample());
    let defaults = Settings::defaults("/work".to_string());
    assert_eq!(StoredSettings::blank().complete(defaults.clone()), defaults);
}

#[test]
fn a_full_record_owes_nothing_to_the_fallback() {
    let stored = sample().to_stored();
    assert_eq!(stored.complete(Settings::defaults("/work".to_string())), sample());
}

#[test]
fn to_stored_holds_every_field() {
    let stored = sample().to_stored();
    assert_eq!(stored.label, Some("mine".to_string()));
    assert_eq!(stored.value_bits, Some(7.5f32.to_bits()));
    assert_eq!(stored.show_settings, Some(true));
    assert_eq!(stored.stored_discord_token, Some("3BHNNR45XZH8PU".to_string()));
    assert_eq!(stored.download_to, Some("/home/me/downloads".to_string()));
}

#[test]
fn missing_fields_take_their_defaults() {
    // A record from before the credential and the download directory existed.
    let old = StoredSettings {
        label: Some("kept".to_string()),
        value_bits: Some(4.0f32.to_bits()),
        show_settings: None,
        stored_discord_token: None,
        download_to: None,
    };
    let settings = old.complete(Settings::defaults("/work".to_string()));
    assert_eq!(
        settings,
        Settings {
            label: "kept".to_string(),
            value_bits: 4.0f32.to_bits(),
            show_settings: false,
            stored_discord_token: String::new(),
            download_to: "/work".to_string(),
        }
    );
}

#[test]
fn each_field_falls_back_alone() {
    let fallback = Settings::defaults("/work".to_string());
    for missing in 0..5 {
        let mut stored = sample().to_stored();
        let mut expected = sample();
        match missing {
            0 => {
                stored.label = None;
                expected.label = "Hello World!".to_string();
            }
            1 => {
                stored.value_bits = None;
                expected.value_bits = 2.7f32.to_bits();
            }
            2 => {
                stored.show_settings = None;
                expected.show_settings = false;
            }
            3 => {
                stored.stored_discord_token = None;
                expected.stored_discord_token = String::new();
            }
            _ => {
                stored.download_to = None;
                expected.download_to = "/work".to_string();
            }
        }
        assert_eq!(stored.complete(fallback.clone()), expected);
    }
}

#[test]
fn loading_without_a_record_gives_the_fallback() {
    assert_eq!(load_settings(None, sample()), sample());
}

#[test]
fn loading_a_record_completes_it() {
    let mut stored = StoredSettings::blank();
    stored.label = Some("only the label".to_string());
    let settings = load_settings(Some(stored), Settings::defaults("/work".to_string()));
    assert_eq!(settings.label, "only the label");
    assert_eq!(settings.value_bits, 2.7f32.to_bits());
    assert!(!settings.show_settings);
    assert_eq!(settings.stored_discord_token, "");
    assert_eq!(settings.download_to, "/work");
}
