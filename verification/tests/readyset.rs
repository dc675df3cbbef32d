use readyset_scheduler::config::{Config, DatabaseType, OperationMode, QueryDiscoveryMode};
use readyset_scheduler::messages::MessageType;
use readyset_scheduler::queries::Query;
use readyset_scheduler::readyset::{
    find_row, holds_row, says_supported, status_of_rows, ProxySQLStatus, Readyset, ReadysetError,
    ReadysetStatus,
};
use readyset_scheduler::sql_connection::{Reply, StatementKind, Target};

fn handle_config() -> Config {
    Config {
        database_type: DatabaseType::MySQL,
        proxysql_user: "admin".to_string(),
        proxysql_password: "admin".to_string(),
        proxysql_host: "127.0.0.1".to_string(),
        proxysql_port: 6032,
        readyset_user: "app".to_string(),
        readyset_password: "secret".to_string(),
        source_hostgroup: 1,
        readyset_hostgroup: 2,
        warmup_time_s: 0,
        lock_file: "/tmp/readyset_scheduler.lock".to_string(),
        operation_mode: OperationMode::All,
        number_of_queries: 10,
        query_discovery_mode: QueryDiscoveryMode::CountStar,
        query_discovery_min_execution: 0,
        query_discovery_min_row_sent: 0,
        log_verbosity: MessageType::Note,
    }
}

fn table(rows: &[&[&str]]) -> Vec<Vec<String>> {
    rows.iter().map(|row| row.iter().map(|cell| cell.to_string()).collect()).collect()
}

fn handle(status: &str, connected: bool) -> Readyset {
    Readyset::new("rs1".to_string(), 3307, status.to_string(), &handle_config(), connected)
}

#[test]
fn status_mapping_covers_every_readyset_status() {
    assert_eq!(ProxySQLStatus::from(ReadysetStatus::Online), ProxySQLStatus::Online);
    assert_eq!(ProxySQLStatus::from(ReadysetStatus::SnapshotInProgress), ProxySQLStatus::Shunned);
    assert_eq!(ProxySQLStatus::from(ReadysetStatus::Maintenance), ProxySQLStatus::OfflineSoft);
    assert_eq!(ProxySQLStatus::from(ReadysetStatus::Unknown), ProxySQLStatus::Shunned);
}

#[test]
fn router_status_is_read_whatever_its_case() {
    assert_eq!(ProxySQLStatus::from("ONLINE".to_string()), ProxySQLStatus::Online);
    assert_eq!(ProxySQLStatus::from("shunned".to_string()), ProxySQLStatus::Shunned);
    assert_eq!(ProxySQLStatus::from("Offline_Soft".to_string()), ProxySQLStatus::OfflineSoft);
    assert_eq!(ProxySQLStatus::from("offline_hard".to_string()), ProxySQLStatus::OfflineHard);
    assert_eq!(ProxySQLStatus::from("who knows".to_string()), ProxySQLStatus::Online);
    assert_eq!(ProxySQLStatus::from_uppercase("shunned"), ProxySQLStatus::Online);
}

#[test]
fn router_status_is_written_as_the_router_words_it() {
    assert_eq!(ProxySQLStatus::Online.to_string(), "ONLINE");
    assert_eq!(ProxySQLStatus::Shunned.to_string(), "SHUNNED");
    assert_eq!(ProxySQLStatus::OfflineSoft.to_string(), "OFFLINE_SOFT");
    assert_eq!(ProxySQLStatus::OfflineHard.to_string(), "OFFLINE_HARD");
    assert_eq!(ProxySQLStatus::OfflineSoft.as_str(), "OFFLINE_SOFT");
}

#[test]
fn readyset_status_is_read_whatever_its_case() {
    assert_eq!(ReadysetStatus::from("Online".to_string()), ReadysetStatus::Online);
    assert_eq!(
        ReadysetStatus::from("Snapshot In Progress".to_string()),
        ReadysetStatus::SnapshotInProgress
    );
    assert_eq!(ReadysetStatus::from("MAINTENANCE MODE".to_string()), ReadysetStatus::Maintenance);
    assert_eq!(ReadysetStatus::from("starting".to_string()), ReadysetStatus::Unknown);
    assert_eq!(ReadysetStatus::from_lowercase("Online"), ReadysetStatus::Unknown);
}

#[test]
fn readyset_status_is_written_as_readyset_words_it() {
    assert_eq!(ReadysetStatus::Online.to_string(), "Online");
    assert_eq!(ReadysetStatus::SnapshotInProgress.to_string(), "Snapshot in progress");
    assert_eq!(ReadysetStatus::Maintenance.to_string(), "Maintenance mode");
    assert_eq!(ReadysetStatus::Unknown.to_string(), "Unknown");
    for status in [
        ReadysetStatus::Online,
        ReadysetStatus::SnapshotInProgress,
        ReadysetStatus::Maintenance,
        ReadysetStatus::Unknown,
    ] {
        assert_eq!(status.as_capitals(), status.to_string().to_uppercase());
    }
}

#[test]
fn a_new_handle_knows_nothing_of_readyset_yet() {
    let readyset = handle("shunned", true);
    assert_eq!(readyset.get_hostname(), "rs1");
    assert_eq!(readyset.get_port(), 3307);
    assert_eq!(readyset.get_proxysql_status(), ProxySQLStatus::Shunned);
    assert_eq!(readyset.get_readyset_status(), ReadysetStatus::Unknown);
    assert!(!readyset.is_proxysql_online());
    assert!(readyset.is_connected());
    assert!(!handle("ONLINE", false).is_connected());
    assert!(handle("ONLINE", false).is_proxysql_online());
}

#[test]
fn the_recorded_router_status_can_be_changed() {
    let mut readyset = handle("ONLINE", true);
    readyset.change_proxysql_status(ProxySQLStatus::OfflineSoft);
    assert_eq!(readyset.get_proxysql_status(), ProxySQLStatus::OfflineSoft);
    assert!(!readyset.is_proxysql_online());
    assert_eq!(readyset.get_hostname(), "rs1");
    assert_eq!(readyset.get_readyset_status(), ReadysetStatus::Unknown);
}

#[test]
fn a_completed_snapshot_means_online() {
    let mut readyset = handle("SHUNNED", true);
    let reply = Reply::Rows(table(&[
        &["Database Connection", "Connected"],
        &["Snapshot Status", "Completed"],
    ]));
    assert_eq!(readyset.check_readyset_is_ready(&reply).unwrap(), ProxySQLStatus::Online);
    assert_eq!(readyset.get_readyset_status(), ReadysetStatus::Online);
    assert_eq!(readyset.get_proxysql_status(), ProxySQLStatus::Shunned);
}

#[test]
fn a_snapshot_in_progress_means_shunned() {
    let mut readyset = handle("ONLINE", true);
    let reply = Reply::Rows(table(&[&["Snapshot Status", "In Progress"]]));
    assert_eq!(readyset.check_readyset_is_ready(&reply).unwrap(), ProxySQLStatus::Shunned);
    assert_eq!(readyset.get_readyset_status(), ReadysetStatus::SnapshotInProgress);
}

#[test]
fn a_status_row_is_read_when_no_snapshot_row_decides() {
    let cases = [
        ("Online", ReadysetStatus::Online, ProxySQLStatus::Online),
        ("Snapshot in progress", ReadysetStatus::SnapshotInProgress, ProxySQLStatus::Shunned),
        ("Maintenance mode", ReadysetStatus::Maintenance, ProxySQLStatus::OfflineSoft),
        ("MAINTENANCE MODE", ReadysetStatus::Maintenance, ProxySQLStatus::OfflineSoft),
        ("Booting", ReadysetStatus::Unknown, ProxySQLStatus::Shunned),
    ];
    for (said, readyset_status, router_status) in cases {
        let mut readyset = handle("ONLINE", true);
        let reply = Reply::Rows(table(&[&["Connection Count", "3"], &["Status", said]]));
        assert_eq!(readyset.check_readyset_is_ready(&reply).unwrap(), router_status);
        assert_eq!(readyset.get_readyset_status(), readyset_status);
    }
}

#[test]
fn a_completed_snapshot_decides_before_any_status_row() {
    let rows = table(&[
        &["Status", "Maintenance mode"],
        &["Snapshot Status", "In Progress"],
        &["Snapshot Status", "Completed"],
    ]);
    assert_eq!(status_of_rows(&rows), ReadysetStatus::Online);
    let rows = table(&[&["Status", "Online"], &["Snapshot Status", "In Progress"]]);
    assert_eq!(status_of_rows(&rows), ReadysetStatus::SnapshotInProgress);
    let rows = table(&[&["Status", "Maintenance mode"], &["Status", "Online"]]);
    assert_eq!(status_of_rows(&rows), ReadysetStatus::Maintenance);
}

#[test]
fn rows_that_say_nothing_known_mean_shunned() {
    let mut readyset = handle("ONLINE", true);
    let reply = Reply::Rows(table(&[&["Snapshot Status", "Failed"], &["Status"], &[]]));
    assert_eq!(readyset.check_readyset_is_ready(&reply).unwrap(), ProxySQLStatus::Shunned);
    assert_eq!(readyset.get_readyset_status(), ReadysetStatus::Unknown);
    let mut readyset = handle("ONLINE", true);
    assert_eq!(
        readyset.check_readyset_is_ready(&Reply::Rows(Vec::new())).unwrap(),
        ProxySQLStatus::Shunned
    );
}

#[test]
fn without_a_connection_the_probe_fails() {
    let mut readyset = handle("ONLINE", false);
    let reply = Reply::Rows(table(&[&["Snapshot Status", "Completed"]]));
    let error = readyset.check_readyset_is_ready(&reply).unwrap_err();
    assert!(matches!(error, ReadysetError::NoConnection));
    assert_eq!(error.to_string(), "Connection to Readyset instance is not established");
    assert_eq!(readyset.get_readyset_status(), ReadysetStatus::Unknown);
}

#[test]
fn a_failed_probe_leaves_the_last_status() {
    let mut readyset = handle("ONLINE", true);
    let ok = Reply::Rows(table(&[&["Snapshot Status", "Completed"]]));
    readyset.check_readyset_is_ready(&ok).unwrap();
    let error = readyset.check_readyset_is_ready(&Reply::Failed("timed out".to_string())).unwrap_err();
    assert!(matches!(&error, ReadysetError::Query(cause) if cause == "timed out"));
    assert_eq!(error.to_string(), "Failed to execute query: timed out");
    assert_eq!(readyset.get_readyset_status(), ReadysetStatus::Online);
    let error = readyset.check_readyset_is_ready(&Reply::Done).unwrap_err();
    assert!(matches!(error, ReadysetError::NoAnswer));
    assert_eq!(error.to_string(), "Failed to execute query: the statement was not answered");
    let error = readyset.check_readyset_is_ready(&Reply::Start).unwrap_err();
    assert!(matches!(error, ReadysetError::NoAnswer));
}

#[test]
fn support_is_the_third_column_of_the_first_row() {
    let readyset = handle("ONLINE", true);
    let yes = Reply::Rows(table(&[&["_", "_", "yes"]]));
    let cached = Reply::Rows(table(&[&["q", "SELECT", "cached"]]));
    let no = Reply::Rows(table(&[&["_", "_", "no"], &["_", "_", "yes"]]));
    let upper = Reply::Rows(table(&[&["_", "_", "Yes"]]));
    let short = Reply::Rows(table(&[&["yes", "yes"]]));
    assert_eq!(readyset.check_query_support(&yes).unwrap(), true);
    assert_eq!(readyset.check_query_support(&cached).unwrap(), true);
    assert_eq!(readyset.check_query_support(&no).unwrap(), false);
    assert_eq!(readyset.check_query_support(&upper).unwrap(), false);
    assert_eq!(readyset.check_query_support(&short).unwrap(), false);
    assert_eq!(readyset.check_query_support(&Reply::Rows(Vec::new())).unwrap(), false);
    assert!(says_supported(&table(&[&["a", "b", "cached", "d"]])));
}

#[test]
fn support_without_a_connection_is_no_support() {
    let readyset = handle("ONLINE", false);
    let yes = Reply::Rows(table(&[&["_", "_", "yes"]]));
    assert_eq!(readyset.check_query_support(&yes).unwrap(), false);
    assert_eq!(readyset.check_query_support(&Reply::Failed("x".to_string())).unwrap(), false);
}

#[test]
fn a_failed_support_probe_is_an_error() {
    let readyset = handle("ONLINE", true);
    let error = readyset.check_query_support(&Reply::Failed("syntax".to_string())).unwrap_err();
    assert!(matches!(&error, ReadysetError::Query(cause) if cause == "syntax"));
    let error = readyset.check_query_support(&Reply::Done).unwrap_err();
    assert!(matches!(error, ReadysetError::NoAnswer));
}

#[test]
fn statements_for_readyset_read_as_its_dialect_has_them() {
    let status = Readyset::status_query(3);
    assert_eq!(status.text, "SHOW READYSET STATUS");
    assert_eq!(status.kind, StatementKind::Show);
    assert_eq!(status.target, Target::Readyset(3));
    let schema = Readyset::use_schema(1, "app");
    assert_eq!(schema.text, "USE app");
    assert_eq!(schema.kind, StatementKind::Use);
    assert_eq!(schema.target, Target::Readyset(1));
    let explain = Readyset::support_query(0, "SELECT a FROM t WHERE b = ?");
    assert_eq!(explain.text, "EXPLAIN CREATE CACHE FROM SELECT a FROM t WHERE b = ?");
    assert_eq!(explain.kind, StatementKind::Explain);
    assert_eq!(explain.target, Target::Readyset(0));
}

#[test]
fn caching_chooses_the_schema_and_creates_the_cache() {
    let query = Query::new(
        "SELECT a FROM t".to_string(),
        "D1".to_string(),
        "app".to_string(),
        "user".to_string(),
    );
    let statements = handle("ONLINE", true).cache_query(2, &query).unwrap();
    assert_eq!(statements.len(), 2);
    assert_eq!(statements[0].text, "USE app");
    assert_eq!(statements[0].kind, StatementKind::Use);
    assert_eq!(statements[0].target, Target::Readyset(2));
    assert_eq!(statements[1].text, "CREATE CACHE d_D1 FROM SELECT a FROM t");
    assert_eq!(statements[1].kind, StatementKind::CreateCache);
    assert_eq!(statements[1].target, Target::Readyset(2));
}

#[test]
fn caching_without_a_connection_is_an_error() {
    let query = Query::new(
        "SELECT a FROM t".to_string(),
        "D1".to_string(),
        "app".to_string(),
        "user".to_string(),
    );
    let error = handle("ONLINE", false).cache_query(0, &query).unwrap_err();
    assert!(matches!(error, ReadysetError::NoConnection));
}

#[test]
fn rows_are_searched_by_their_first_two_columns() {
    let rows = table(&[&["a"], &["Status", "x"], &["Status", "y", "z"], &["k", "v"]]);
    assert!(holds_row(&rows, "Status", "y"));
    assert!(holds_row(&rows, "k", "v"));
    assert!(!holds_row(&rows, "a", ""));
    assert!(!holds_row(&rows, "Status", "z"));
    assert_eq!(find_row(&rows, "Status"), Some(1));
    assert_eq!(find_row(&rows, "k"), Some(3));
    assert_eq!(find_row(&rows, "a"), None);
    assert_eq!(find_row(&rows, "missing"), None);
}

#[test]
fn statement_kinds_that_write() {
    let writes = [
        StatementKind::Insert,
        StatementKind::Update,
        StatementKind::Load,
        StatementKind::Save,
        StatementKind::CreateCache,
    ];
    let reads = [StatementKind::Select, StatementKind::Show, StatementKind::Explain, StatementKind::Use];
    for kind in writes {
        assert!(kind.is_write());
    }
    for kind in reads {
        assert!(!kind.is_write());
    }
}

#[test]
fn a_host_is_a_readyset_instance_by_another_name() {
    let host: readyset_scheduler::hosts::Host = handle("OFFLINE_SOFT", true);
    let status: readyset_scheduler::hosts::ProxyStatus = host.get_proxysql_status();
    assert_eq!(status, readyset_scheduler::server::ServerStatus::OfflineSoft);
    assert_eq!(status.to_string(), "OFFLINE_SOFT");
    assert_eq!(host.get_readyset_status(), readyset_scheduler::hosts::ReadysetStatus::Unknown);
}
