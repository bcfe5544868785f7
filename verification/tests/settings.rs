use iced_nsview::Settings;
use iced_nsview::settings::Antialiasing;
use iced_nsview::settings::RendererSettings;

#[test]
fn default_settings() {
    let s = Settings::default();
    assert!(s.default_font.is_none());
    assert_eq!(s.default_text_size, 20);
    assert!(!s.antialiasing);
}

#[test]
fn antialiasing_off_selects_no_mode() {
    let r = RendererSettings::from_settings(Settings::default());
    assert!(r.antialiasing.is_none());
    assert_eq!(r.default_text_size, 20);
    assert!(r.default_font.is_none());
}

#[test]
fn antialiasing_on_selects_the_fixed_mode() {
    let s = Settings { antialiasing: true, ..Settings::default() };
    let r = RendererSettings::from_settings(s);
    assert_eq!(r.antialiasing, Some(Antialiasing::MsaaX4));
}

#[test]
fn font_bytes_pass_through() {
    let font: &'static [u8] = &[0, 1, 0, 0];
    let s = Settings { default_font: Some(font), ..Settings::default() };
    let r = RendererSettings::from_settings(s);
    assert_eq!(r.default_font, Some(font));
    assert_eq!(r.default_text_size, 20);
}

#[test]
fn the_from_conversion_matches_from_settings() {
    let s = Settings { antialiasing: true, ..Settings::default() };
    let a = RendererSettings::from(s);
    let b = RendererSettings::from_settings(s);
    assert_eq!(a.antialiasing, b.antialiasing);
    assert_eq!(a.default_text_size, b.default_text_size);
    assert_eq!(a.default_font, b.default_font);
}
