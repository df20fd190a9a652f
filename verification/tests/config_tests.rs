use microfrontends::error::Error;
use microfrontends::{Config, DevelopmentTask};

const SAMPLE: &str = r#"{
    // the version tag is optional for version 1
    "version": "1",
    "applications": {
        "web": {
            "development": {
                "task": "serve"
            }
        },
        "docs": {
            "packageName": "@acme/docs",
            "development": {},
            "port": 3000
        }
    }
}"#;

#[test]
fn test_example_parses() {
    let example_config = Config::from_str(SAMPLE, "something.json");
    assert!(example_config.is_ok());
}

#[test]
fn test_unsupported_version() {
    let input = r#"{"version": "yolo"}"#;
    let err = Config::from_str(input, "something.json").unwrap_err();
    assert_eq!(
        err.message(),
        "Unsupported microfrontends configuration version: yolo. Supported versions: [\"1\"]"
    );
}

#[test]
fn test_unsupported_version_from_dir() {
    let contents = r#"{"version": "2", "applications": {"web": {"development": {"task": "serve"}}, "docs": {}}}"#;
    let config = Config::load_from_dir("web", Some(contents.to_string()), None);
    assert!(matches!(config, Err(Error::UnsupportedVersion(..))));
}

#[test]
fn two_applications_yield_two_tasks() {
    let input = r#"{"version":"1","applications":{"web":{"development":{"task":"serve"}},"docs":{}}}"#;
    let config = Config::from_str(input, "microfrontends.json").unwrap();
    let tasks: Vec<DevelopmentTask> = config.development_tasks();
    assert_eq!(tasks.len(), 2);
    assert_eq!(tasks[0].application_name, "web");
    assert_eq!(tasks[0].package, "web");
    assert_eq!(tasks[0].task.as_deref(), Some("serve"));
    assert_eq!(tasks[1].application_name, "docs");
    assert_eq!(tasks[1].package, "docs");
    assert_eq!(tasks[1].task, None);
    assert_eq!(config.port("web"), None);
}

#[test]
fn reference_config_is_rejected() {
    let input = r#"{"defaultApplication": "web"}"#;
    let err = Config::from_str(input, "microfrontends.json").unwrap_err();
    match err {
        Error::ChildConfig { reference } => assert_eq!(reference, "web"),
        other => panic!("expected ChildConfig, got {:?}", other),
    }
}

#[test]
fn load_from_dir_uses_alternate_when_primary_is_absent() {
    let contents = r#"{"applications": {"web": {}}}"#;
    let config = Config::load_from_dir("web", None, Some(contents.to_string()))
        .unwrap()
        .unwrap();
    assert_eq!(config.filename(), "microfrontends.jsonc");
    assert_eq!(config.path(), Some("web/microfrontends.jsonc"));
}

#[test]
fn load_from_dir_prefers_primary() {
    let primary = r#"{"applications": {"web": {}}}"#;
    let alternate = r#"{"applications": {"docs": {}}}"#;
    let config = Config::load_from_dir(
        "web",
        Some(primary.to_string()),
        Some(alternate.to_string()),
    )
    .unwrap()
    .unwrap();
    assert_eq!(config.filename(), "microfrontends.json");
    assert_eq!(config.path(), Some("web/microfrontends.json"));
    let tasks = config.development_tasks();
    assert_eq!(tasks.len(), 1);
    assert_eq!(tasks[0].application_name, "web");
}

#[test]
fn load_from_dir_without_candidates_is_a_successful_absence() {
    let config = Config::load_from_dir("web", None, None).unwrap();
    assert!(config.is_none());
}

#[test]
fn missing_version_is_read_as_version_one() {
    let versionless = r#"{"applications":{"web":{"development":{"task":"serve"}},"docs":{}}}"#;
    let tagged = r#"{"version":"1","applications":{"web":{"development":{"task":"serve"}},"docs":{}}}"#;
    let a = Config::from_str(versionless, "microfrontends.json").unwrap();
    let b = Config::from_str(tagged, "microfrontends.json").unwrap();
    assert_eq!(a.version(), b.version());
    assert_eq!(a.filename(), b.filename());
    let ta = a.development_tasks();
    let tb = b.development_tasks();
    assert_eq!(ta.len(), tb.len());
    for (x, y) in ta.iter().zip(tb.iter()) {
        assert_eq!(x.application_name, y.application_name);
        assert_eq!(x.package, y.package);
        assert_eq!(x.task, y.task);
    }
    assert_eq!(a.port("web"), b.port("web"));
}

#[test]
fn queries_are_idempotent() {
    let config = Config::from_str(SAMPLE, "microfrontends.json").unwrap();
    let first = config.development_tasks();
    let second = config.development_tasks();
    assert_eq!(first, second);
    let mut sorted = first.clone();
    sorted.sort();
    assert_eq!(sorted.len(), first.len());
    assert_eq!(config.port("docs"), config.port("docs"));
}

#[test]
fn declared_port_is_returned() {
    let config = Config::from_str(SAMPLE, "microfrontends.json").unwrap();
    assert_eq!(config.port("docs"), Some(3000));
    assert_eq!(config.port("web"), None);
    assert_eq!(config.port("missing"), None);
}

#[test]
fn package_name_overrides_the_application_key() {
    let config = Config::from_str(SAMPLE, "microfrontends.json").unwrap();
    let tasks = config.development_tasks();
    assert_eq!(tasks[1].application_name, "docs");
    assert_eq!(tasks[1].package, "@acme/docs");
}

#[test]
fn malformed_structures_fail_with_parse_errors() {
    let cases = [
        r#"not json at all"#,
        r#"[1, 2]"#,
        r#"{"applications": 5}"#,
        r#"{"applications": {"web": "nope"}}"#,
        r#"{"applications": {"web": {"port": 70000}}}"#,
        r#"{"applications": {"web": {"port": "3000"}}}"#,
        r#"{"applications": {"web": {"packageName": 1}}}"#,
        r#"{"applications": {"web": {"development": {"task": 1}}}}"#,
        r#"{"defaultApplication": 7}"#,
    ];
    for input in cases {
        let err = Config::from_str(input, "microfrontends.json").unwrap_err();
        assert!(matches!(err, Error::Parse(..)), "input {:?} gave {:?}", input, err);
    }
}

#[test]
fn empty_object_is_an_empty_topology() {
    let config = Config::from_str("{}", "microfrontends.json").unwrap();
    assert_eq!(config.development_tasks().len(), 0);
    assert_eq!(config.version(), "1");
}

#[test]
fn load_parses_present_contents_and_passes_absence_through() {
    let absent = Config::load("pkg/microfrontends.json", None).unwrap();
    assert!(absent.is_none());
    let present = Config::load(
        "pkg/microfrontends.json",
        Some(r#"{"applications": {"web": {}}}"#.to_string()),
    )
    .unwrap()
    .unwrap();
    assert_eq!(present.filename(), "pkg/microfrontends.json");
    assert_eq!(present.path(), None);
}

#[test]
fn set_path_joins_the_directory_with_the_filename() {
    let mut config = Config::from_str(SAMPLE, "microfrontends.json").unwrap();
    assert_eq!(config.path(), None);
    config.set_path("apps/web");
    assert_eq!(config.path(), Some("apps/web/microfrontends.json"));
    config.set_path("elsewhere");
    assert_eq!(config.path(), Some("elsewhere/microfrontends.json"));
}

#[test]
fn io_error_message_embeds_the_cause() {
    let err = Error::Io("permission denied".to_string());
    assert_eq!(
        err.message(),
        "Failed to read microfrontends configuration: permission denied"
    );
}

#[test]
fn version_tag_position_does_not_matter() {
    let first = r#"{"version":"1","applications":{"web":{"development":{"task":"serve"}}}}"#;
    let last = r#"{"applications":{"web":{"development":{"task":"serve"}}},"version":"1"}"#;
    let a = Config::from_str(first, "microfrontends.json").unwrap();
    let b = Config::from_str(last, "microfrontends.json").unwrap();
    assert_eq!(a.development_tasks(), b.development_tasks());
    assert_eq!(a.version(), b.version());
}
