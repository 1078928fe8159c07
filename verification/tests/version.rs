use mdbook_svgbob::version::version_warning;
use mdbook_svgbob::version::VersionError;
use mdbook_svgbob::render::Settings;

#[test]
fn version_outside_range_warns_but_still_transforms() {
    let warn = version_warning("99.0.0", "0.4.40").unwrap();
    assert!(warn);
    let settings = Settings::default();
    let result =
        mdbook_svgbob::pipeline::process_code_blocks("```bob\n-->\n```", &settings).unwrap();
    assert!(result.contains("<svg"));
}

#[test]
fn version_inside_tilde_range_passes() {
    assert_eq!(version_warning("0.4.41", "0.4.40"), Ok(false));
    assert_eq!(version_warning("0.4.40", "0.4.40"), Ok(false));
    assert_eq!(version_warning("1.2.3", "1.2.9"), Ok(true));
    assert_eq!(version_warning("0.5.0", "0.4.40"), Ok(true));
}

#[test]
fn equal_strings_never_warn() {
    assert_eq!(version_warning("1.0.0-rc1", "1.0.0-rc1"), Ok(false));
}

#[test]
fn pre_release_versions_follow_the_stated_rule() {
    // a plain host above a pre-release built version matches, as in semver
    assert_eq!(version_warning("1.0.1", "1.0.0-rc1"), Ok(false));
    assert_eq!(version_warning("1.0.0", "1.0.0-rc1"), Ok(false));
    // a pre-release host never matches the range
    assert_eq!(version_warning("1.0.1-rc1", "1.0.0"), Ok(true));
    // two different pre-release parts on the same triple are not ordered
    assert_eq!(version_warning("1.0.0-rc2", "1.0.0-rc1"), Ok(true));
}

#[test]
fn unparseable_versions_are_fatal() {
    assert_eq!(
        version_warning("not a version", "0.4.40"),
        Err(VersionError::HostUnparseable)
    );
    assert_eq!(
        version_warning("0.4.40", "not a version"),
        Err(VersionError::BuiltUnparseable)
    );
}

#[test]
fn renderer_support_query() {
    let bob = mdbook_svgbob::Bob::new();
    assert_eq!(bob.name(), "svgbob");
    assert!(bob.supports_renderer("html"));
    assert!(bob.supports_renderer("epub"));
    assert!(!bob.supports_renderer("not-supported"));
}
