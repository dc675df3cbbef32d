use readyset_scheduler::config::{
    default_lock_file, default_number_of_queries, DatabaseType, OperationMode, Phase,
    QueryDiscoveryMode,
};
use readyset_scheduler::messages::MessageType;

#[test]
fn defaults_are_those_of_a_bare_configuration() {
    assert_eq!(default_lock_file(), "/tmp/readyset_scheduler.lock");
    assert_eq!(default_number_of_queries(), 10);
    assert_eq!(DatabaseType::default(), DatabaseType::MySQL);
    assert_eq!(OperationMode::default(), OperationMode::All);
    assert_eq!(QueryDiscoveryMode::default(), QueryDiscoveryMode::CountStar);
    assert_eq!(MessageType::default(), MessageType::Note);
}

#[test]
fn operation_mode_is_read_whatever_its_case() {
    assert_eq!(OperationMode::from("health_check".to_string()), OperationMode::HealthCheck);
    assert_eq!(OperationMode::from("HEALTH_CHECK".to_string()), OperationMode::HealthCheck);
    assert_eq!(OperationMode::from("Query_Discovery".to_string()), OperationMode::QueryDiscovery);
    assert_eq!(OperationMode::from("all".to_string()), OperationMode::All);
    assert_eq!(OperationMode::from("something else".to_string()), OperationMode::All);
    assert_eq!(OperationMode::from(String::new()), OperationMode::All);
}

#[test]
fn operation_mode_is_written_as_it_is_read() {
    for mode in [OperationMode::HealthCheck, OperationMode::QueryDiscovery, OperationMode::All] {
        assert_eq!(OperationMode::from(mode.to_string()), mode);
    }
    assert_eq!(OperationMode::HealthCheck.to_string(), "health_check");
    assert_eq!(OperationMode::QueryDiscovery.to_string(), "query_discovery");
    assert_eq!(OperationMode::All.to_string(), "all");
}

#[test]
fn operation_mode_selects_the_phases() {
    assert!(OperationMode::HealthCheck.runs_health_check());
    assert!(!OperationMode::HealthCheck.runs_query_discovery());
    assert!(!OperationMode::QueryDiscovery.runs_health_check());
    assert!(OperationMode::QueryDiscovery.runs_query_discovery());
    assert!(OperationMode::All.runs_health_check());
    assert!(OperationMode::All.runs_query_discovery());
}

#[test]
fn names_of_a_configuration_file_are_read_exactly() {
    assert_eq!(DatabaseType::from_name("mysql"), Some(DatabaseType::MySQL));
    assert_eq!(DatabaseType::from_name("postgresql"), Some(DatabaseType::PostgreSQL));
    assert_eq!(DatabaseType::from_name("MySQL"), None);
    assert_eq!(QueryDiscoveryMode::from_name("CountStar"), Some(QueryDiscoveryMode::CountStar));
    assert_eq!(QueryDiscoveryMode::from_name("SumTime"), Some(QueryDiscoveryMode::SumTime));
    assert_eq!(QueryDiscoveryMode::from_name("SumRowsSent"), Some(QueryDiscoveryMode::SumRowsSent));
    assert_eq!(QueryDiscoveryMode::from_name("MeanTime"), Some(QueryDiscoveryMode::MeanTime));
    assert_eq!(
        QueryDiscoveryMode::from_name("ExecutionTimeDistance"),
        Some(QueryDiscoveryMode::ExecutionTimeDistance)
    );
    assert_eq!(
        QueryDiscoveryMode::from_name("QueryThroughput"),
        Some(QueryDiscoveryMode::QueryThroughput)
    );
    assert_eq!(QueryDiscoveryMode::from_name("WorstBestCase"), Some(QueryDiscoveryMode::WorstBestCase));
    assert_eq!(
        QueryDiscoveryMode::from_name("WorstWorstCase"),
        Some(QueryDiscoveryMode::WorstWorstCase)
    );
    assert_eq!(
        QueryDiscoveryMode::from_name("DistanceMeanMax"),
        Some(QueryDiscoveryMode::DistanceMeanMax)
    );
    assert_eq!(QueryDiscoveryMode::from_name("External"), Some(QueryDiscoveryMode::External));
    assert_eq!(QueryDiscoveryMode::from_name("countstar"), None);
    assert_eq!(MessageType::from_name("info"), Some(MessageType::Info));
    assert_eq!(MessageType::from_name("note"), Some(MessageType::Note));
    assert_eq!(MessageType::from_name("warning"), Some(MessageType::Warning));
    assert_eq!(MessageType::from_name("error"), Some(MessageType::Error));
    assert_eq!(MessageType::from_name("debug"), None);
}

#[test]
fn the_health_sweep_comes_before_query_discovery() {
    assert_eq!(OperationMode::All.phases(), vec![Phase::HealthCheck, Phase::QueryDiscovery]);
    assert_eq!(OperationMode::HealthCheck.phases(), vec![Phase::HealthCheck]);
    assert_eq!(OperationMode::QueryDiscovery.phases(), vec![Phase::QueryDiscovery]);
}
