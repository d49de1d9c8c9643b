use rlog::collector_config::{ingest_path, Config as CollectorConfig, CONNECT_TIMEOUT_SECS};
use rlog::config::{
    default_buffer_size, extend_option, is_absolute_pattern, merge_fragments, CommonInputConfig,
    Config, FieldMapping, FieldType, FileMappingConfig, FileParseConfig, GelfInputConfig,
    GrpcOutConfig, SyslogExclusionFilter, SyslogInputConfig,
};
use rlog::config_store::{load_and_swap_config, needs_reload, refresh, ConfigStore};
use rlog::eqregex::EqRegex;
use rlog::json::JsonValue;

fn file_config(pattern: &str) -> FileParseConfig {
    FileParseConfig {
        mapping: FileMappingConfig::Regex {
            pattern: EqRegex::new(pattern).unwrap(),
            mapping: vec![FieldMapping { name: "message".to_string(), field_type: FieldType::String }],
        },
        static_fields: vec![("env".to_string(), JsonValue::Text("prod".to_string()))],
    }
}

fn pattern_of(config: &FileParseConfig) -> &str {
    match &config.mapping {
        FileMappingConfig::Regex { pattern, mapping: _ } => pattern.as_str(),
    }
}

#[test]
fn defaults_are_finite() {
    assert_eq!(default_buffer_size(), 20_000);
    assert_eq!(GrpcOutConfig::default().max_buffer_size, 20_000);
    assert_eq!(CommonInputConfig::default().max_buffer_size, 20_000);
    assert_eq!(GelfInputConfig::default().common.max_buffer_size, 20_000);
    let syslog = SyslogInputConfig::default();
    assert_eq!(syslog.common.max_buffer_size, 20_000);
    assert!(syslog.exclusion_filters.is_empty());
    let filter = SyslogExclusionFilter::default();
    assert!(filter.appname.is_none() && filter.facility.is_none() && filter.message.is_none());
    let config = Config::default();
    assert!(config.syslog_in.is_none());
    assert!(config.gelf_in.is_none());
    assert!(config.grpc_out.is_none());
    assert!(config.files_in.is_empty());
    assert_eq!(config.syslog_buffer_size(), 20_000);
    assert_eq!(config.gelf_buffer_size(), 20_000);
    assert_eq!(config.grpc_buffer_size(), 20_000);
}

#[test]
fn collector_defaults() {
    let config = CollectorConfig::default();
    assert_eq!(config.input_buffer_size, 20_000);
    assert_eq!(config.quickwit_output_buffer_size, 20_000);
    assert_eq!(config.quickwit_batch_size, 100);
    assert_eq!(config.quickwit_batch_max_interval, 1_000);
    assert_eq!(CONNECT_TIMEOUT_SECS, 5);
    assert_eq!(ingest_path("rlog"), "api/v1/rlog/ingest");
    assert_eq!(ingest_path(""), "api/v1//ingest");
}

#[test]
fn configured_sizes_are_used() {
    let config = Config {
        syslog_in: Some(SyslogInputConfig {
            common: CommonInputConfig { max_buffer_size: 1 },
            exclusion_filters: vec![],
        }),
        gelf_in: Some(GelfInputConfig { common: CommonInputConfig { max_buffer_size: 2 } }),
        grpc_out: Some(GrpcOutConfig { max_buffer_size: 3 }),
        files_in: vec![],
    };
    assert_eq!(config.syslog_buffer_size(), 1);
    assert_eq!(config.gelf_buffer_size(), 2);
    assert_eq!(config.grpc_buffer_size(), 3);
}

#[test]
fn extend_option_keeps_the_base_when_there_is_nothing_new() {
    let mut base = Some(1);
    extend_option(&mut base, None);
    assert_eq!(base, Some(1));
    extend_option(&mut base, Some(2));
    assert_eq!(base, Some(2));
    let mut base: Option<u8> = None;
    extend_option(&mut base, None);
    assert_eq!(base, None);
    extend_option(&mut base, Some(3));
    assert_eq!(base, Some(3));
}

#[test]
fn extend_lays_the_other_configuration_over() {
    let mut base = Config {
        syslog_in: None,
        gelf_in: Some(GelfInputConfig { common: CommonInputConfig { max_buffer_size: 10 } }),
        grpc_out: Some(GrpcOutConfig { max_buffer_size: 11 }),
        files_in: vec![
            ("/a.log".to_string(), file_config("^a$")),
            ("/b.log".to_string(), file_config("^b$")),
        ],
    };
    let other = Config {
        syslog_in: Some(SyslogInputConfig::default()),
        gelf_in: None,
        grpc_out: Some(GrpcOutConfig { max_buffer_size: 12 }),
        files_in: vec![
            ("/b.log".to_string(), file_config("^b2$")),
            ("/c.log".to_string(), file_config("^c$")),
        ],
    };
    base.extend(other);
    assert!(base.syslog_in.is_some());
    assert_eq!(base.gelf_in.unwrap().common.max_buffer_size, 10);
    assert_eq!(base.grpc_out.unwrap().max_buffer_size, 12);
    assert_eq!(base.file("/a.log").map(pattern_of), Some("^a$"));
    assert_eq!(base.file("/b.log").map(pattern_of), Some("^b2$"));
    assert_eq!(base.file("/c.log").map(pattern_of), Some("^c$"));
    assert!(base.file("/d.log").is_none());
}

#[test]
fn fragments_are_merged_in_order_over_the_default() {
    let first = Config {
        syslog_in: None,
        gelf_in: Some(GelfInputConfig { common: CommonInputConfig { max_buffer_size: 1 } }),
        grpc_out: Some(GrpcOutConfig { max_buffer_size: 1 }),
        files_in: vec![
            ("first".to_string(), file_config("foo")),
            ("multiple".to_string(), file_config("let's")),
        ],
    };
    let second = Config {
        syslog_in: None,
        gelf_in: None,
        grpc_out: Some(GrpcOutConfig { max_buffer_size: 2 }),
        files_in: vec![
            ("second".to_string(), file_config("foobar")),
            ("third".to_string(), file_config("bar")),
            ("multiple".to_string(), file_config("let's go!")),
        ],
    };
    let merged = merge_fragments(vec![first, second]);
    assert!(merged.syslog_in.is_none());
    assert_eq!(merged.gelf_in.unwrap().common.max_buffer_size, 1);
    assert_eq!(merged.grpc_out.unwrap().max_buffer_size, 2);
    assert_eq!(merged.file("first").map(pattern_of), Some("foo"));
    assert_eq!(merged.file("second").map(pattern_of), Some("foobar"));
    assert_eq!(merged.file("third").map(pattern_of), Some("bar"));
    assert_eq!(merged.file("multiple").map(pattern_of), Some("let's go!"));
    assert!(merged.file("hidden").is_none());
    assert_eq!(merged.files_in.len(), 5);

    let nothing = merge_fragments(vec![]);
    assert!(nothing.files_in.is_empty());
    assert!(nothing.grpc_out.is_none());
}

#[test]
fn absolute_patterns_are_recognized() {
    assert!(is_absolute_pattern("/etc/*.yml"));
    assert!(is_absolute_pattern("/"));
    assert!(!is_absolute_pattern("*.yml"));
    assert!(!is_absolute_pattern("conf/*.yml"));
    assert!(!is_absolute_pattern(""));
}

#[test]
fn a_loaded_configuration_is_put_in_force() {
    let mut store = ConfigStore::new(1u32);
    assert_eq!(*store.load(), 1);
    assert_eq!(load_and_swap_config(Some((2, 1000)), &mut store), Some(1000));
    assert_eq!(*store.load(), 2);
    assert_eq!(load_and_swap_config(None, &mut store), None);
    assert_eq!(*store.load(), 2);
    assert_eq!(store.swap(3), 2);
    assert_eq!(store.current, 3);
}

#[test]
fn a_file_is_reloaded_when_its_modification_time_changes() {
    assert!(needs_reload(Some(2), 1));
    assert!(needs_reload(Some(0), 1));
    assert!(!needs_reload(Some(1), 1));
    assert!(!needs_reload(None, 1));
}

#[test]
fn a_directory_is_put_in_force_only_when_it_differs() {
    let mut store = ConfigStore::new("old");
    assert!(!refresh("same", false, &mut store));
    assert_eq!(store.current, "old");
    assert!(refresh("new", true, &mut store));
    assert_eq!(store.current, "new");
}
