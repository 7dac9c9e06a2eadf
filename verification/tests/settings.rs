use sqlrepo::settings::{environment_file, init_environment, Environment, Preset};

fn preset(name: &str, value: &str) -> Preset {
    Preset { name: name.to_string(), value: value.to_string() }
}

#[test]
fn test_init_local_environment() {
    let (envi, _) = init_environment(None, false, false).expect("failed to load event");

    assert_eq!(envi.as_str(), Environment::Local.as_str());
}

#[test]
fn environments_have_lower_case_names() {
    assert_eq!(Environment::Local.as_str(), "local");
    assert_eq!(Environment::Test.as_str(), "test");
    assert_eq!(Environment::Production.as_str(), "production");
}

#[test]
fn environments_parse_whatever_the_case() {
    assert_eq!(Environment::try_from("local".to_string()), Ok(Environment::Local));
    assert_eq!(Environment::try_from("TEST".to_string()), Ok(Environment::Test));
    assert_eq!(Environment::try_from("Production".to_string()), Ok(Environment::Production));
    assert_eq!(
        Environment::try_from("Staging".to_string()),
        Err("Unknown environment staging. Please use 'local', 'test', or 'production'."
            .to_string())
    );
    assert_eq!(
        Environment::try_from("".to_string()),
        Err("Unknown environment . Please use 'local', 'test', or 'production'.".to_string())
    );
    assert_eq!(Environment::from_lowercase("test"), Ok(Environment::Test));
    assert!(Environment::from_lowercase("TEST").is_err());
}

#[test]
fn presets_fill_what_is_not_set_outside_production() {
    assert_eq!(
        Environment::Local.presets(false, false),
        vec![preset("RUST_LIB_BACKTRACE", "1"), preset("RUST_LOG", "trace")]
    );
    assert_eq!(Environment::Test.presets(true, false), vec![preset("RUST_LOG", "trace")]);
    assert_eq!(Environment::Test.presets(false, true), vec![preset("RUST_LIB_BACKTRACE", "1")]);
    assert_eq!(Environment::Local.presets(true, true), vec![]);
    assert_eq!(Environment::Production.presets(false, false), vec![]);
}

#[test]
fn init_environment_reads_the_variable() {
    assert_eq!(
        init_environment(Some("production".to_string()), false, false),
        Ok((Environment::Production, vec![]))
    );
    assert_eq!(
        init_environment(Some("Test".to_string()), true, true),
        Ok((Environment::Test, vec![]))
    );
    assert!(init_environment(Some("nowhere".to_string()), false, false).is_err());
}

#[test]
fn each_environment_has_its_file() {
    assert_eq!(environment_file(&Environment::Local), "local.yaml");
    assert_eq!(environment_file(&Environment::Production), "production.yaml");
}
