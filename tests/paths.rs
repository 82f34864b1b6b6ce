use minim::paths::{app_dir_in, cache_dir, config_dir, config_file, config_file_in, theme_dir, theme_dir_in};

#[test]
fn locations_under_given_root() {
    assert_eq!(app_dir_in("/home/u/.cache"), "/home/u/.cache/minim");
    assert_eq!(config_file_in("/home/u/.config"), "/home/u/.config/minim/config.toml");
    assert_eq!(theme_dir_in("/home/u/.config"), "/home/u/.config/minim/themes");
    assert_eq!(config_file_in("/etc/"), "/etc/minim/config.toml");
}

#[test]
fn platform_locations_end_in_player_directory() {
    if let Some(d) = config_dir() {
        assert!(d.ends_with("minim"));
    }
    if let Some(d) = cache_dir() {
        assert!(d.ends_with("minim"));
    }
    if let Some(f) = config_file() {
        assert!(f.ends_with("minim/config.toml"));
    }
    if let Some(t) = theme_dir() {
        assert!(t.ends_with("minim/themes"));
    }
}
