use localstore::{get_theme, saved_theme_value, Theme};

#[test]
fn theme_from_name() {
    assert_eq!(Theme::from("light"), Theme::Light);
    assert_eq!(Theme::from("dark"), Theme::Dark);
    assert_eq!(Theme::from("auto"), Theme::Auto);
    assert_eq!(Theme::from(""), Theme::Auto);
    assert_eq!(Theme::from("solarized"), Theme::Auto);
    assert_eq!(Theme::from(" light"), Theme::Auto);
}

#[test]
fn theme_from_name_ignores_case() {
    assert_eq!(Theme::from("LIGHT"), Theme::Light);
    assert_eq!(Theme::from("Dark"), Theme::Dark);
    assert_eq!(Theme::from("dArK"), Theme::Dark);
}

#[test]
fn theme_from_lowercase_is_exact() {
    assert_eq!(Theme::from_lowercase("light"), Theme::Light);
    assert_eq!(Theme::from_lowercase("dark"), Theme::Dark);
    assert_eq!(Theme::from_lowercase("LIGHT"), Theme::Auto);
    assert_eq!(Theme::from_lowercase("Dark"), Theme::Auto);
}

#[test]
fn theme_names() {
    assert_eq!(Theme::Auto.to_string(), "auto");
    assert_eq!(Theme::Light.to_string(), "light");
    assert_eq!(Theme::Dark.to_string(), "dark");
}

#[test]
fn theme_name_round_trip() {
    for theme in [Theme::Auto, Theme::Light, Theme::Dark] {
        assert_eq!(Theme::from(theme.to_string().as_str()), theme);
    }
}

#[test]
fn saved_theme_is_auto() {
    assert_eq!(saved_theme_value(), Theme::Auto);
    assert_eq!(get_theme(), Theme::Auto);
}
