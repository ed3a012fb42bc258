use aish::band::{bands_root_for, Band, BandError, BandIsolationLevel};
use aish::config::config_dir_for;
use aish::store::db_path_for;
use std::collections::HashMap;

fn band_named(name: &str, isolation: BandIsolationLevel, bands_root: &str) -> Band {
    Band::plan_create(name, isolation, bands_root, false, "2025-01-01T00:00:00+00:00".to_string()).unwrap()
}

#[test]
fn test_band_create_and_destroy() {
    let bands_root = "/tmp/aish-test/bands";

    let band = band_named("test-band", BandIsolationLevel::Lightweight, bands_root);
    assert_eq!(band.name, "test-band");
    assert_eq!(band.band_file(), "/tmp/aish-test/bands/test-band/band.toml");
    assert!(band.directories().contains(&"/tmp/aish-test/bands/test-band/home".to_string()));
    assert_eq!(band.adapters_file(), "/tmp/aish-test/bands/test-band/config/aish/adapters.ron");

    // Once its root exists, creating it again is refused and destroying it is allowed.
    let again = Band::plan_create("test-band", BandIsolationLevel::Lightweight, bands_root, true, String::new());
    assert!(matches!(again, Err(BandError::AlreadyExists { .. })));
    let root = Band::plan_destroy("test-band", bands_root, true).unwrap();
    assert_eq!(root, band.root);

    // Once it is gone, destroying it is refused.
    let gone = Band::plan_destroy("test-band", bands_root, false);
    assert!(matches!(gone, Err(BandError::NotFound { .. })));
}

#[test]
fn test_band_env_vars() {
    let band = band_named("env-band", BandIsolationLevel::Standard, "/tmp/aish-test/bands");

    let env_vars: HashMap<_, _> = band.env_vars().into_iter().collect();
    assert_eq!(env_vars.get("AISH_BAND").unwrap(), "env-band");
    assert!(env_vars.get("AISH_BAND_ROOT").unwrap().contains("env-band"));
    assert!(env_vars.get("HOME").unwrap().contains("home"));
}

#[test]
fn test_band_env_isolation() {
    let root = "/tmp/aish-bands/test-smoke";
    let config_dir = config_dir_for(Some(root), Some("/home/user/.config"));
    assert!(config_dir.starts_with(root), "Config dir {:?} should be inside band root {:?}", config_dir, root);
    let db_path = db_path_for(None, Some(root), Some("/home/user/.local/share"));
    assert!(db_path.starts_with(root), "DB path {:?} should be inside band root {:?}", db_path, root);
}

#[test]
fn band_env_is_exact_and_in_order() {
    let band = band_named("b1", BandIsolationLevel::Lightweight, "/srv/bands");
    let env = band.env_vars();
    let expected = vec![
        ("AISH_BAND".to_string(), "b1".to_string()),
        ("AISH_BAND_ROOT".to_string(), "/srv/bands/b1".to_string()),
        ("HOME".to_string(), "/srv/bands/b1/home".to_string()),
        ("XDG_CONFIG_HOME".to_string(), "/srv/bands/b1/config".to_string()),
        ("TMPDIR".to_string(), "/srv/bands/b1/tmp".to_string()),
        ("AISH_DB_PATH".to_string(), "/srv/bands/b1/data/aish.db".to_string()),
    ];
    assert_eq!(env, expected);
}

#[test]
fn band_paths_stay_inside_the_root() {
    let band = band_named("iso", BandIsolationLevel::Standard, "/srv/bands");
    for (_, value) in band.env_vars().into_iter().skip(1) {
        assert!(value.starts_with("/srv/bands/iso"));
    }
    for dir in band.directories() {
        assert!(dir.starts_with("/srv/bands/iso/"));
    }
    assert_eq!(
        band.directories(),
        vec![
            "/srv/bands/iso/home".to_string(),
            "/srv/bands/iso/config/aish".to_string(),
            "/srv/bands/iso/data".to_string(),
            "/srv/bands/iso/tmp".to_string(),
        ]
    );
    assert_eq!(band.db_file(), "/srv/bands/iso/data/aish.db");
}

#[test]
fn bands_root_prefers_the_variable() {
    assert_eq!(bands_root_for(Some("/opt/bands"), Some("/home/u")), "/opt/bands");
    assert_eq!(bands_root_for(None, Some("/home/u")), "/home/u/.aish/bands");
    assert_eq!(bands_root_for(None, None), "./.aish/bands");
}

#[test]
fn band_root_joins_name_under_root() {
    assert_eq!(Band::root_for("/a/b", "c"), "/a/b/c");
    assert_eq!(Band::root_for("/a/b/", "c"), "/a/b/c");
    assert_eq!(Band::root_for("", "c"), "c");
}

#[test]
fn band_error_messages() {
    let err = Band::plan_create("dup", BandIsolationLevel::Lightweight, "/x", true, String::new()).unwrap_err();
    assert_eq!(err.message(), "Band 'dup' already exists at /x/dup");
    let err = Band::plan_destroy("nope", "/x", false).unwrap_err();
    assert_eq!(err.message(), "Band 'nope' not found");
}

#[test]
fn isolation_from_flag_and_name() {
    assert_eq!(BandIsolationLevel::from_flag("standard"), BandIsolationLevel::Standard);
    assert_eq!(BandIsolationLevel::from_flag("lightweight"), BandIsolationLevel::Lightweight);
    assert_eq!(BandIsolationLevel::from_flag("anything"), BandIsolationLevel::Lightweight);
    assert_eq!(BandIsolationLevel::Standard.name(), "Standard");
    assert_eq!(BandIsolationLevel::Lightweight.name(), "Lightweight");
}

#[test]
fn band_status_counts_size_only_when_the_database_exists() {
    let band = band_named("st", BandIsolationLevel::Standard, "/srv/bands");
    let st = band.status_from(true, true, 4096, false);
    assert_eq!(st.name, "st");
    assert_eq!(st.isolation, "Standard");
    assert_eq!(st.root, "/srv/bands/st");
    assert!(st.exists && st.db_exists && !st.adapters_configured);
    assert_eq!(st.db_size_bytes, 4096);
    let st = band.status_from(true, false, 4096, true);
    assert_eq!(st.db_size_bytes, 0);
    assert!(st.adapters_configured);
}

#[test]
fn find_named_gives_the_first_match() {
    let bands = vec![
        band_named("a", BandIsolationLevel::Lightweight, "/r"),
        band_named("b", BandIsolationLevel::Lightweight, "/r"),
        band_named("b", BandIsolationLevel::Standard, "/s"),
    ];
    assert_eq!(Band::find_named(&bands, "b"), Some(1));
    assert_eq!(Band::find_named(&bands, "a"), Some(0));
    assert_eq!(Band::find_named(&bands, "c"), None);
    assert_eq!(Band::find_named(&Vec::new(), "a"), None);
}
