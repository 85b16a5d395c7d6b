use hs110_exporter::bigquery_client::{
    flag, BigqueryClient, BigqueryClientConfig, TableInitAction, TableInitState,
};
use hs110_exporter::config_client::{ConfigClient, ConfigClientConfig};
use hs110_exporter::decimal::parse_u64;
use hs110_exporter::error::ConfigError;
use hs110_exporter::hs110_client::{HS110Client, HS110ClientConfig};
use hs110_exporter::state_client::{
    key_from_component, StateClient, StateClientConfig, StateError,
};

fn text(value: &str) -> Option<String> {
    Some(value.to_string())
}

#[test]
fn parse_u64_reads_decimal_numbers() {
    assert_eq!(parse_u64("0"), Some(0));
    assert_eq!(parse_u64("10"), Some(10));
    assert_eq!(parse_u64("007"), Some(7));
    assert_eq!(parse_u64("+15"), Some(15));
    assert_eq!(parse_u64("18446744073709551615"), Some(u64::MAX));
    assert_eq!(parse_u64("000018446744073709551615"), Some(u64::MAX));
}

#[test]
fn parse_u64_refuses_what_is_no_number() {
    for bad in ["", "+", "-", "-1", " 1", "1 ", "1_000", "1.5", "ten", "++1", "1+", "0x10", "١٢", "1é"] {
        assert_eq!(parse_u64(bad), None, "{:?}", bad);
    }
}

#[test]
fn parse_u64_refuses_what_does_not_fit() {
    assert_eq!(parse_u64("18446744073709551616"), None);
    assert_eq!(parse_u64("18446744073709551620"), None);
    assert_eq!(parse_u64("99999999999999999999"), None);
    assert_eq!(parse_u64("100000000000000000000000000000"), None);
}

#[test]
fn parse_u64_agrees_with_std() {
    for s in ["", "0", "+0", "+", "42", "+42", "-42", "4 2", "18446744073709551615",
        "18446744073709551616", "00", "+00012", "12a", "a12", "٣"] {
        assert_eq!(parse_u64(s), s.parse::<u64>().ok(), "{:?}", s);
    }
}

#[test]
fn hs110_config_new_accepts_every_timeout() {
    assert_eq!(HS110ClientConfig::new(10), Ok(HS110ClientConfig { timeout_seconds: 10 }));
    assert_eq!(HS110ClientConfig::new(0).unwrap().timeout_seconds, 0);
    assert_eq!(HS110ClientConfig::new(u64::MAX).unwrap().timeout_seconds, u64::MAX);
    let client = HS110Client::new(HS110ClientConfig::new(3).unwrap());
    assert_eq!(client.config.timeout_seconds, 3);
}

#[test]
fn hs110_config_from_env_defaults_to_ten_seconds() {
    assert_eq!(
        HS110ClientConfig::from_env(None),
        Ok(HS110ClientConfig { timeout_seconds: 10 })
    );
}

#[test]
fn hs110_config_from_env_reads_the_timeout() {
    assert_eq!(
        HS110ClientConfig::from_env(text("25")),
        Ok(HS110ClientConfig { timeout_seconds: 25 })
    );
    assert_eq!(HS110ClientConfig::from_env(text("0")).unwrap().timeout_seconds, 0);
}

#[test]
fn hs110_config_from_env_refuses_a_bad_timeout() {
    assert_eq!(HS110ClientConfig::from_env(text("soon")), Err(ConfigError::InvalidTimeout));
    assert_eq!(HS110ClientConfig::from_env(text("")), Err(ConfigError::InvalidTimeout));
    assert_eq!(HS110ClientConfig::from_env(text("-1")), Err(ConfigError::InvalidTimeout));
    assert_eq!(
        HS110ClientConfig::from_env(text("18446744073709551616")),
        Err(ConfigError::InvalidTimeout)
    );
}

#[test]
fn config_client_names_the_file() {
    let config = ConfigClientConfig::new("test-config.yaml".to_string()).unwrap();
    assert_eq!(config.config_path, "test-config.yaml");
    let client = ConfigClient::new(config);
    assert_eq!(client.config_path(), "test-config.yaml");
}

#[test]
fn config_client_from_env_defaults_to_the_mounted_file() {
    assert_eq!(
        ConfigClientConfig::from_env(None).unwrap().config_path,
        "/configs/config.yaml"
    );
    assert_eq!(
        ConfigClientConfig::from_env(text("/tmp/c.yaml")).unwrap().config_path,
        "/tmp/c.yaml"
    );
}

#[test]
fn flag_is_on_unless_it_says_false() {
    assert!(flag(&None));
    assert!(flag(&text("true")));
    assert!(!flag(&text("false")));
    assert!(flag(&text("False")));
    assert!(flag(&text("0")));
    assert!(flag(&text("")));
    assert!(flag(&text("false ")));
}

#[test]
fn bigquery_config_from_env_takes_what_is_set() {
    let config = BigqueryClientConfig::from_env(
        text("/key.json"),
        text("project"),
        text("dataset"),
        text("table"),
        text("false"),
        text("no"),
    )
    .unwrap();
    assert_eq!(
        config,
        BigqueryClientConfig {
            project_id: "project".to_string(),
            dataset: "dataset".to_string(),
            table: "table".to_string(),
            google_application_credentials: "/key.json".to_string(),
            enable: false,
            init: true,
        }
    );
}

#[test]
fn bigquery_config_from_env_has_defaults() {
    let config = BigqueryClientConfig::from_env(
        None,
        text("project"),
        text("dataset"),
        text("table"),
        None,
        None,
    )
    .unwrap();
    assert_eq!(config.google_application_credentials, "/secrets/keyfile.json");
    assert!(config.enable);
    assert!(config.init);
}

#[test]
fn bigquery_config_from_env_names_the_first_missing_value() {
    let none = || None::<String>;
    assert_eq!(
        BigqueryClientConfig::from_env(none(), none(), none(), none(), none(), none()),
        Err(ConfigError::MissingProjectId)
    );
    assert_eq!(
        BigqueryClientConfig::from_env(none(), none(), text("d"), text("t"), none(), none()),
        Err(ConfigError::MissingProjectId)
    );
    assert_eq!(
        BigqueryClientConfig::from_env(none(), text("p"), none(), none(), none(), none()),
        Err(ConfigError::MissingDataset)
    );
    assert_eq!(
        BigqueryClientConfig::from_env(none(), text("p"), text("d"), none(), none(), none()),
        Err(ConfigError::MissingTable)
    );
}

fn bigquery(enable: bool, init: bool) -> BigqueryClient {
    BigqueryClient::new(
        BigqueryClientConfig::new(
            "p".to_string(),
            "d".to_string(),
            "t".to_string(),
            "/k".to_string(),
            enable,
            init,
        )
        .unwrap(),
    )
}

#[test]
fn table_is_left_alone_when_switched_off() {
    for (enable, init) in [(false, false), (false, true), (true, false)] {
        for exists in [false, true] {
            assert_eq!(
                bigquery(enable, init).init_table(TableInitState::Start, exists),
                (TableInitState::Done, TableInitAction::Finish)
            );
        }
    }
}

#[test]
fn table_that_exists_has_its_schema_updated() {
    let client = bigquery(true, true);
    assert_eq!(
        client.init_table(TableInitState::Start, false),
        (TableInitState::Checking, TableInitAction::CheckTable)
    );
    assert_eq!(
        client.init_table(TableInitState::Checking, true),
        (TableInitState::Updating, TableInitAction::UpdateSchema)
    );
    assert_eq!(
        client.init_table(TableInitState::Updating, true),
        (TableInitState::Done, TableInitAction::Finish)
    );
}

#[test]
fn table_that_is_missing_is_created_and_awaited() {
    let client = bigquery(true, true);
    assert_eq!(
        client.init_table(TableInitState::Checking, false),
        (TableInitState::Creating, TableInitAction::CreateTable)
    );
    assert_eq!(
        client.init_table(TableInitState::Creating, false),
        (TableInitState::Waiting, TableInitAction::CheckTable)
    );
    assert_eq!(
        client.init_table(TableInitState::Waiting, false),
        (TableInitState::Waiting, TableInitAction::SleepAndCheckTable)
    );
    assert_eq!(
        client.init_table(TableInitState::Waiting, true),
        (TableInitState::Done, TableInitAction::Finish)
    );
    assert_eq!(
        client.init_table(TableInitState::Done, false),
        (TableInitState::Done, TableInitAction::Finish)
    );
}

#[test]
fn state_config_from_env_has_defaults() {
    let config = StateClientConfig::from_env(None, None, "jarvis".to_string()).unwrap();
    assert_eq!(
        config,
        StateClientConfig {
            measurement_file_path: "/configs/last-measurement.yaml".to_string(),
            measurement_file_configmap_name: "jarvis-p1-exporter".to_string(),
            current_namespace: "jarvis".to_string(),
        }
    );
    let config =
        StateClientConfig::from_env(text("/a/b.yaml"), text("map"), "ns".to_string())
            .unwrap();
    assert_eq!(config.measurement_file_path, "/a/b.yaml");
    assert_eq!(config.measurement_file_configmap_name, "map");
    assert_eq!(config.current_namespace, "ns");
}

fn state(path: &str) -> StateClient {
    StateClient::new(
        StateClientConfig::new(path.to_string(), "jarvis-p1-exporter".to_string(), "jarvis".to_string())
            .unwrap(),
    )
}

#[test]
fn state_key_is_the_file_name_of_the_measurement_file() {
    assert_eq!(
        state("/configs/last-measurement.yaml").state_key(),
        Ok("last-measurement.yaml".to_string())
    );
    assert_eq!(state("test-measurement.yaml").state_key(), Ok("test-measurement.yaml".to_string()));
}

#[test]
fn state_key_of_a_path_without_a_file_name_is_an_error() {
    assert_eq!(state("").state_key(), Err(StateError::NoFileName));
    assert_eq!(state("/").state_key(), Err(StateError::NoFileName));
    assert_eq!(state("/configs/..").state_key(), Err(StateError::NoFileName));
}

#[test]
fn key_from_component_maps_a_missing_component_to_the_error() {
    assert_eq!(key_from_component(Some("a.yaml".to_string())), Ok("a.yaml".to_string()));
    assert_eq!(key_from_component(None), Err(StateError::NoFileName));
}

#[test]
fn bigquery_client_is_enabled_as_configured() {
    assert!(bigquery(true, false).is_enabled());
    assert!(bigquery(true, true).is_enabled());
    assert!(!bigquery(false, true).is_enabled());
}
