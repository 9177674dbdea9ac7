//! Tests of the configuration surface: loader parsing, ssh key resolution,
//! and image seed selection.

use gtbuilder::error::BuildError;
use gtbuilder::loader::Loader;
use gtbuilder::options::{check_key_pair, BuildOptions, ImageSeed};

#[test]
fn loader_parses_canonical_names() {
    assert_eq!(Loader::from_str("cloner"), Ok(Loader::Cloner));
    assert_eq!(Loader::from_str("metacello"), Ok(Loader::Metacello));
}

#[test]
fn loader_parsing_ignores_ascii_case() {
    assert_eq!(Loader::from_str("Cloner"), Ok(Loader::Cloner));
    assert_eq!(Loader::from_str("CLONER"), Ok(Loader::Cloner));
    assert_eq!(Loader::from_str("MetaCello"), Ok(Loader::Metacello));
    assert_eq!(Loader::from_str("METACELLO"), Ok(Loader::Metacello));
}

#[test]
fn loader_rejects_names_outside_the_closed_set() {
    assert!(matches!(
        Loader::from_str("fast"),
        Err(BuildError::Configuration(_))
    ));
    assert!(matches!(
        Loader::from_str(""),
        Err(BuildError::Configuration(_))
    ));
    assert!(matches!(
        Loader::from_str("clonerr"),
        Err(BuildError::Configuration(_))
    ));
}

#[test]
fn loader_names_round_trip() {
    for loader in [Loader::Cloner, Loader::Metacello] {
        assert_eq!(Loader::from_str(&loader.to_string()), Ok(loader));
    }
    assert_eq!(Loader::Cloner.to_string(), "cloner");
    assert_eq!(Loader::Metacello.to_string(), "metacello");
}

#[test]
fn build_options_default_values() {
    let options = BuildOptions::new();
    assert!(!options.should_overwrite());
    assert_eq!(options.loader, Loader::Cloner);
    assert!(options.image_url.is_none());
    assert!(options.image_path.is_none());
    assert!(options.public_key.is_none());
    assert!(options.private_key.is_none());
}

#[test]
fn build_options_setters() {
    let mut options = BuildOptions::new();
    options.overwrite(true);
    assert!(options.should_overwrite());
    options.loader(Loader::Metacello);
    assert_eq!(options.loader, Loader::Metacello);
}

#[test]
fn key_pair_requires_both_or_neither() {
    assert_eq!(check_key_pair(None, None), Ok(None));
    assert_eq!(
        check_key_pair(Some("a".to_string()), Some("b".to_string())),
        Ok(Some(("a".to_string(), "b".to_string())))
    );
    assert!(matches!(
        check_key_pair(Some("a".to_string()), None),
        Err(BuildError::Configuration(_))
    ));
    assert!(matches!(
        check_key_pair(None, Some("b".to_string())),
        Err(BuildError::Configuration(_))
    ));
}

#[test]
fn ssh_keys_absent_resolve_to_nothing() {
    let options = BuildOptions::new();
    assert_eq!(options.ssh_keys(), Ok(None));
}

#[test]
fn ssh_keys_with_one_existing_key_fail_as_configuration_error() {
    let mut options = BuildOptions::new();
    options.public_key = Some("/".to_string());
    assert!(matches!(
        options.ssh_keys(),
        Err(BuildError::Configuration(_))
    ));
}

#[test]
fn ssh_keys_with_a_missing_path_fail_as_not_found() {
    let mut options = BuildOptions::new();
    options.public_key = Some("/surely/not/on/this/disk/key.pub".to_string());
    options.private_key = Some("/surely/not/on/this/disk/key".to_string());
    assert!(matches!(options.ssh_keys(), Err(BuildError::NotFound(_))));
}

#[test]
fn ssh_keys_with_both_existing_paths_resolve_to_the_pair() {
    let mut options = BuildOptions::new();
    options.public_key = Some("/".to_string());
    options.private_key = Some("/".to_string());
    assert_eq!(
        options.ssh_keys(),
        Ok(Some(("/".to_string(), "/".to_string())))
    );
}

#[test]
fn image_seed_rejects_url_and_path_together() {
    let mut options = BuildOptions::new();
    options.image_url = Some("http://example.com/seed.zip".to_string());
    options.image_path = Some("/tmp/seed.zip".to_string());
    assert!(matches!(
        options.image_seed(),
        Err(BuildError::Configuration(_))
    ));
}

#[test]
fn image_seed_defaults_to_nothing() {
    let options = BuildOptions::new();
    assert_eq!(options.image_seed(), Ok(None));
}

#[test]
fn image_seed_takes_a_local_path() {
    let mut options = BuildOptions::new();
    options.image_path = Some("/tmp/seed.zip".to_string());
    assert_eq!(
        options.image_seed(),
        Ok(Some(ImageSeed::File("/tmp/seed.zip".to_string())))
    );
}

#[test]
fn image_seed_keeps_a_valid_url_normalized() {
    let mut options = BuildOptions::new();
    options.image_url = Some("HTTP://Example.COM".to_string());
    assert_eq!(
        options.image_seed(),
        Ok(Some(ImageSeed::Url("http://example.com/".to_string())))
    );
}

#[test]
fn image_seed_rejects_an_invalid_url() {
    let mut options = BuildOptions::new();
    options.image_url = Some("not a url".to_string());
    assert!(matches!(
        options.image_seed(),
        Err(BuildError::Configuration(_))
    ));
}

#[test]
fn error_message_is_carried_verbatim() {
    let e = BuildError::NotFound("missing".to_string());
    assert_eq!(e.message(), "missing");
}
