use readyset_scheduler::clock::Moment;
use readyset_scheduler::config::{Config, DatabaseType, OperationMode, QueryDiscoveryMode};
use readyset_scheduler::messages::{Message, MessageType};
use readyset_scheduler::proxysql::{mysql_pgsql, promotion_due, ProxySQL, MYSQL_PGSQL};
use readyset_scheduler::queries::Query;
use readyset_scheduler::readyset::{ProxySQLStatus, Readyset, ReadysetStatus};
use readyset_scheduler::sql_connection::{
    Command, Outcome, Reply, Statement, StatementKind, Target,
};

fn router_config(database_type: DatabaseType, warmup_time_s: u16) -> Config {
    Config {
        database_type,
        proxysql_user: "admin".to_string(),
        proxysql_password: "admin".to_string(),
        proxysql_host: "127.0.0.1".to_string(),
        proxysql_port: 6032,
        readyset_user: "app".to_string(),
        readyset_password: "secret".to_string(),
        source_hostgroup: 1,
        readyset_hostgroup: 2,
        warmup_time_s,
        lock_file: "/tmp/readyset_scheduler.lock".to_string(),
        operation_mode: OperationMode::All,
        number_of_queries: 10,
        query_discovery_mode: QueryDiscoveryMode::CountStar,
        query_discovery_min_execution: 0,
        query_discovery_min_row_sent: 0,
        log_verbosity: MessageType::Note,
    }
}

fn grid(rows: &[&[&str]]) -> Vec<Vec<String>> {
    rows.iter().map(|row| row.iter().map(|cell| cell.to_string()).collect()).collect()
}

fn instance(config: &Config, host: &str, status: &str, connected: bool) -> Readyset {
    Readyset::new(host.to_string(), 3307, status.to_string(), config, connected)
}

fn router(warmup_time_s: u16, dry_run: bool, readysets: Vec<Readyset>) -> ProxySQL {
    ProxySQL::new(&router_config(DatabaseType::MySQL, warmup_time_s), dry_run, readysets)
}

fn at(seconds: i64, stamp: &str) -> Moment {
    Moment { seconds, stamp: stamp.to_string(), offset: "+0000".to_string() }
}

/// Runs a health sweep to its end. `answer` stands for the wire: it is asked
/// for the reply to each statement, in the order in which they are sent.
fn sweep(
    proxysql: &mut ProxySQL,
    answer: &mut dyn FnMut(&Statement) -> Reply,
) -> (Vec<Statement>, Vec<Message>, Outcome) {
    let mut sent = Vec::new();
    let mut logged = Vec::new();
    let mut reply = Reply::Start;
    loop {
        let step = proxysql.health_check(&reply);
        logged.extend(step.messages);
        match step.command {
            Command::Query(statement) => {
                reply = answer(&statement);
                sent.push(statement);
            }
            Command::Execute(statements) => {
                reply = Reply::Done;
                for statement in statements {
                    let answered = answer(&statement);
                    sent.push(statement);
                    if let Reply::Failed(cause) = answered {
                        reply = Reply::Failed(cause);
                        break;
                    }
                }
            }
            Command::Finish(outcome) => return (sent, logged, outcome),
        }
    }
}

fn texts(statements: &[Statement]) -> Vec<String> {
    statements.iter().map(|statement| statement.text.clone()).collect()
}

#[test]
fn dialect_words() {
    assert_eq!(mysql_pgsql(DatabaseType::MySQL), "mysql");
    assert_eq!(mysql_pgsql(DatabaseType::PostgreSQL), "pgsql");
    assert_eq!(MYSQL_PGSQL(DatabaseType::MySQL), "MYSQL");
    assert_eq!(MYSQL_PGSQL(DatabaseType::PostgreSQL), "PGSQL");
}

#[test]
fn the_server_query_names_the_readyset_hostgroup() {
    let statement = ProxySQL::servers_query(&router_config(DatabaseType::MySQL, 0));
    assert_eq!(
        statement.text,
        "SELECT hostname, port, status, comment FROM mysql_servers WHERE hostgroup_id = 2 AND status IN ('ONLINE', 'SHUNNED', 'OFFLINE_SOFT')"
    );
    assert_eq!(statement.kind, StatementKind::Select);
    assert_eq!(statement.target, Target::Router);
    let statement = ProxySQL::servers_query(&router_config(DatabaseType::PostgreSQL, 0));
    assert_eq!(
        statement.text,
        "SELECT hostname, port, status, comment FROM pgsql_servers WHERE hostgroup_id = 2 AND status IN ('ONLINE', 'SHUNNED', 'OFFLINE_SOFT')"
    );
}

#[test]
fn servers_with_readyset_in_their_comment_are_the_instances() {
    let rows = grid(&[
        &["rs1", "3307", "ONLINE", "Readyset one"],
        &["db1", "3306", "ONLINE", "primary"],
        &["rs2", "3308", "SHUNNED", "my READYSET two"],
        &["rs3", "3309", "OFFLINE_SOFT", "readyset", "extra"],
        &["db2", "3306", "ONLINE", "ready set"],
    ]);
    let servers = ProxySQL::readyset_servers(&rows).unwrap();
    assert_eq!(servers.len(), 3);
    assert_eq!(servers[0].hostname, "rs1");
    assert_eq!(servers[0].port, 3307);
    assert_eq!(servers[0].status, "ONLINE");
    assert_eq!(servers[1].hostname, "rs2");
    assert_eq!(servers[1].port, 3308);
    assert_eq!(servers[1].status, "SHUNNED");
    assert_eq!(servers[2].hostname, "rs3");
    assert_eq!(servers[2].port, 3309);
    assert!(ProxySQL::comment_names_readyset("a readyset"));
    assert!(!ProxySQL::comment_names_readyset("a Readyset"));
}

#[test]
fn a_server_row_that_cannot_be_read_is_an_error() {
    let rows = grid(&[
        &["rs1", "3307", "ONLINE", "readyset"],
        &["rs2", "port", "ONLINE", "primary"],
        &["rs3", "3309"],
    ]);
    assert_eq!(ProxySQL::readyset_servers(&rows).unwrap_err(), 1);
    let rows = grid(&[&["rs1", "3307", "ONLINE", "readyset"], &["rs3", "3309", "ONLINE"]]);
    assert_eq!(ProxySQL::readyset_servers(&rows).unwrap_err(), 1);
    let rows = grid(&[&["rs1", "70000", "ONLINE", "readyset"]]);
    assert_eq!(ProxySQL::readyset_servers(&rows).unwrap_err(), 0);
    assert!(ProxySQL::readyset_servers(&Vec::new()).unwrap().is_empty());
}

#[test]
fn a_rule_without_warm_up_routes_at_once() {
    let proxysql = router(0, false, Vec::new());
    let query = Query::new(
        "SELECT a FROM t".to_string(),
        "D1".to_string(),
        "app".to_string(),
        "bob".to_string(),
    );
    let statement = proxysql.add_as_query_rule(&query, "2024-01-02 03:04:05");
    assert_eq!(
        statement.text,
        "INSERT INTO mysql_query_rules (username, destination_hostgroup, active, digest, apply, comment) VALUES ('bob', 2, 1, 'D1', 1, 'Added by readyset scheduler at: 2024-01-02 03:04:05')"
    );
    assert_eq!(statement.kind, StatementKind::Insert);
    assert_eq!(statement.target, Target::Router);
}

#[test]
fn a_rule_with_warm_up_mirrors_first() {
    let proxysql = ProxySQL::new(&router_config(DatabaseType::PostgreSQL, 60), false, Vec::new());
    let query = Query::new(
        "SELECT a FROM t".to_string(),
        "0xABC".to_string(),
        "app".to_string(),
        "bob".to_string(),
    );
    let statement = proxysql.add_as_query_rule(&query, "2024-01-02 03:04:05");
    assert_eq!(
        statement.text,
        "INSERT INTO pgsql_query_rules (username, mirror_hostgroup, active, digest, apply, comment) VALUES ('bob', 2, 1, '0xABC', 1, 'Mirror by readyset scheduler at: 2024-01-02 03:04:05')"
    );
}

#[test]
fn admin_statements_follow_the_dialect() {
    let mysql = router(0, false, Vec::new());
    let pgsql = ProxySQL::new(&router_config(DatabaseType::PostgreSQL, 0), false, Vec::new());
    assert_eq!(mysql.load_query_rules().text, "LOAD MYSQL QUERY RULES TO RUNTIME");
    assert_eq!(mysql.save_query_rules().text, "SAVE MYSQL QUERY RULES TO DISK");
    assert_eq!(mysql.load_servers().text, "LOAD MYSQL SERVERS TO RUNTIME");
    assert_eq!(mysql.save_servers().text, "SAVE MYSQL SERVERS TO DISK");
    assert_eq!(pgsql.load_query_rules().text, "LOAD PGSQL QUERY RULES TO RUNTIME");
    assert_eq!(pgsql.save_query_rules().text, "SAVE PGSQL QUERY RULES TO DISK");
    assert_eq!(pgsql.load_servers().text, "LOAD PGSQL SERVERS TO RUNTIME");
    assert_eq!(pgsql.save_servers().text, "SAVE PGSQL SERVERS TO DISK");
    assert_eq!(mysql.load_query_rules().kind, StatementKind::Load);
    assert_eq!(mysql.save_query_rules().kind, StatementKind::Save);
    assert_eq!(mysql.load_servers().kind, StatementKind::Load);
    assert_eq!(mysql.save_servers().kind, StatementKind::Save);
    assert_eq!(
        mysql.routed_query().text,
        "SELECT digest FROM mysql_query_rules WHERE comment LIKE 'Mirror by readyset scheduler at%' OR comment LIKE 'Added by readyset scheduler at%'"
    );
    assert_eq!(
        pgsql.mirror_rules_query().text,
        "SELECT rule_id, comment FROM pgsql_query_rules WHERE comment LIKE 'Mirror by readyset scheduler at: ____-__-__ __:__:__';"
    );
}

#[test]
fn a_server_update_names_hostgroup_host_and_port() {
    let proxysql = router(0, false, Vec::new());
    let statement = proxysql.update_servers(2, "rs1", 3307, ProxySQLStatus::OfflineSoft);
    assert_eq!(
        statement.text,
        "UPDATE mysql_servers SET status = 'OFFLINE_SOFT'\n                 WHERE hostgroup_id = 2 AND hostname = 'rs1' AND port = 3307"
    );
    assert_eq!(statement.kind, StatementKind::Update);
    assert_eq!(statement.target, Target::Router);
}

#[test]
fn routed_digests_are_the_first_column() {
    let proxysql = router(0, false, Vec::new());
    let rows = grid(&[&["D1"], &["D2", "more"], &[], &["D3"]]);
    assert_eq!(proxysql.find_queries_routed_to_readyset(&rows), vec!["D1", "D2", "D3"]);
    assert!(proxysql.find_queries_routed_to_readyset(&Vec::new()).is_empty());
}

#[test]
fn the_warm_up_has_passed_only_after_more_seconds_than_it_lasts() {
    assert!(!promotion_due(1000, 1000, 0));
    assert!(promotion_due(1001, 1000, 0));
    assert!(!promotion_due(1059, 1000, 60));
    assert!(!promotion_due(1060, 1000, 60));
    assert!(promotion_due(1061, 1000, 60));
    assert!(!promotion_due(900, 1000, 60));
    assert!(promotion_due(i64::MAX, i64::MIN, u16::MAX));
    assert!(!promotion_due(i64::MIN, i64::MAX, 0));
}

#[test]
fn a_rule_comment_gives_the_time_it_was_written() {
    assert_eq!(
        ProxySQL::rule_written_at("Mirror by readyset scheduler at: 2024-05-01 12:00:00", "+0000"),
        Some(1714564800)
    );
    assert_eq!(
        ProxySQL::rule_written_at("Mirror by readyset scheduler at: 2024-05-01 12:00:00", "+0200"),
        Some(1714557600)
    );
    assert_eq!(ProxySQL::rule_written_at("Added by readyset scheduler at: 2024-05-01 12:00:00", "+0000"), None);
    assert_eq!(ProxySQL::rule_written_at("Mirror by readyset scheduler at: soon", "+0000"), None);
}

#[test]
fn a_mirror_rule_is_left_alone_before_its_warm_up_has_passed() {
    let proxysql = router(60, false, Vec::new());
    let rows = grid(&[&["7", "Mirror by readyset scheduler at: 2024-05-01 12:00:00"]]);
    let now = at(1714564800 + 30, "2024-05-01 12:00:30");
    assert!(proxysql.adjust_mirror_rules(&rows, &now).unwrap().is_empty());
    let now = at(1714564800 + 60, "2024-05-01 12:01:00");
    assert!(proxysql.adjust_mirror_rules(&rows, &now).unwrap().is_empty());
}

#[test]
fn a_mirror_rule_is_promoted_once_its_warm_up_has_passed() {
    let proxysql = router(60, false, Vec::new());
    let rows = grid(&[&["7", "Mirror by readyset scheduler at: 2024-05-01 12:00:00"]]);
    let now = at(1714564800 + 120, "2024-05-01 12:02:00");
    let promotions = proxysql.adjust_mirror_rules(&rows, &now).unwrap();
    assert_eq!(promotions.len(), 1);
    assert_eq!(promotions[0].rule_id, 7);
    assert_eq!(promotions[0].statement.kind, StatementKind::Update);
    assert_eq!(promotions[0].statement.target, Target::Router);
    assert_eq!(
        promotions[0].statement.text,
        "UPDATE mysql_query_rules SET mirror_hostgroup = NULL, destination_hostgroup = 2, comment = 'Mirror by readyset scheduler at: 2024-05-01 12:00:00\n Added by readyset scheduler at: 2024-05-01 12:02:00' WHERE rule_id = 7"
    );
    let now = at(1714564800 + 61, "2024-05-01 12:01:01");
    assert_eq!(proxysql.adjust_mirror_rules(&rows, &now).unwrap().len(), 1);
    assert_eq!(
        proxysql.promote_rule(7, "Mirror by readyset scheduler at: 2024-05-01 12:00:00", "2024-05-01 12:02:00").text,
        promotions[0].statement.text
    );
}

#[test]
fn only_the_rules_that_are_due_are_promoted() {
    let proxysql = router(60, false, Vec::new());
    let rows = grid(&[
        &["1", "Mirror by readyset scheduler at: 2024-05-01 11:00:00"],
        &["2", "Mirror by readyset scheduler at: 2024-05-01 12:00:00"],
        &["3", "Mirror by readyset scheduler at: 2024-05-01 11:58:59"],
    ]);
    let now = at(1714564800, "2024-05-01 12:00:00");
    let promotions = proxysql.adjust_mirror_rules(&rows, &now).unwrap();
    let ids: Vec<u16> = promotions.iter().map(|promotion| promotion.rule_id).collect();
    assert_eq!(ids, vec![1, 3]);
}

#[test]
fn the_stamp_of_a_rule_is_read_in_the_zone_of_now() {
    let proxysql = router(60, false, Vec::new());
    let rows = grid(&[&["7", "Mirror by readyset scheduler at: 2024-05-01 14:00:00"]]);
    let now = Moment {
        seconds: 1714564800 + 61,
        stamp: "2024-05-01 14:01:01".to_string(),
        offset: "+0200".to_string(),
    };
    assert_eq!(proxysql.adjust_mirror_rules(&rows, &now).unwrap().len(), 1);
    let now = Moment {
        seconds: 1714564800 + 60,
        stamp: "2024-05-01 14:01:00".to_string(),
        offset: "+0200".to_string(),
    };
    assert!(proxysql.adjust_mirror_rules(&rows, &now).unwrap().is_empty());
}

#[test]
fn a_mirror_rule_that_cannot_be_read_is_an_error() {
    let proxysql = router(60, false, Vec::new());
    let now = at(1714564800 + 120, "2024-05-01 12:02:00");
    let rows = grid(&[
        &["7", "Mirror by readyset scheduler at: 2024-05-01 12:00:00"],
        &["8", "Mirror by readyset scheduler at: 2024-05-01 12:00"],
    ]);
    assert_eq!(proxysql.adjust_mirror_rules(&rows, &now).unwrap_err(), 1);
    let rows = grid(&[&["x", "Mirror by readyset scheduler at: 2024-05-01 12:00:00"]]);
    assert_eq!(proxysql.adjust_mirror_rules(&rows, &now).unwrap_err(), 0);
    let rows = grid(&[&["7"]]);
    assert_eq!(proxysql.adjust_mirror_rules(&rows, &now).unwrap_err(), 0);
    let dry = router(60, true, Vec::new());
    let rows = grid(&[&["7", "Mirror by readyset scheduler at: never"]]);
    assert_eq!(dry.adjust_mirror_rules(&rows, &now).unwrap_err(), 0);
}

#[test]
fn a_dry_run_promotes_nothing() {
    let proxysql = router(60, true, Vec::new());
    let rows = grid(&[&["7", "Mirror by readyset scheduler at: 2024-05-01 12:00:00"]]);
    let now = at(1714564800 + 120, "2024-05-01 12:02:00");
    assert!(proxysql.adjust_mirror_rules(&rows, &now).unwrap().is_empty());
}

#[test]
fn online_instances_are_counted_and_found_in_order() {
    let config = router_config(DatabaseType::MySQL, 0);
    let proxysql = ProxySQL::new(
        &config,
        false,
        vec![
            instance(&config, "a", "SHUNNED", true),
            instance(&config, "b", "ONLINE", true),
            instance(&config, "c", "OFFLINE_SOFT", true),
            instance(&config, "d", "ONLINE", false),
        ],
    );
    assert_eq!(proxysql.number_of_online_readyset_instances(), 2);
    assert_eq!(proxysql.first_online_readyset_place(), Some(1));
    assert_eq!(proxysql.online_readyset_places(), vec![1, 3]);
    assert_eq!(proxysql.get_first_online_readyset().unwrap().get_hostname(), "b");
    let online = proxysql.get_online_readyset_instances();
    assert_eq!(online.len(), 2);
    assert_eq!(online[0].get_hostname(), "b");
    assert_eq!(online[1].get_hostname(), "d");
    assert_eq!(proxysql.readysets().len(), 4);
    assert!(!proxysql.dry_run());
    let none = ProxySQL::new(&config, true, vec![instance(&config, "a", "SHUNNED", true)]);
    assert_eq!(none.number_of_online_readyset_instances(), 0);
    assert_eq!(none.first_online_readyset_place(), None);
    assert!(none.get_first_online_readyset().is_none());
    assert!(none.get_online_readyset_instances().is_empty());
    assert!(none.dry_run());
}

#[test]
fn an_instance_in_maintenance_goes_softly_offline() {
    let config = router_config(DatabaseType::MySQL, 0);
    let mut proxysql = ProxySQL::new(&config, false, vec![instance(&config, "rs1", "ONLINE", true)]);
    let (sent, logged, outcome) = sweep(&mut proxysql, &mut |statement| match statement.kind {
        StatementKind::Show => Reply::Rows(grid(&[&["Status", "Maintenance mode"]])),
        _ => Reply::Done,
    });
    assert!(matches!(outcome, Outcome::Completed));
    assert_eq!(
        texts(&sent),
        vec![
            "SHOW READYSET STATUS",
            "UPDATE mysql_servers SET status = 'OFFLINE_SOFT'\n                 WHERE hostgroup_id = 2 AND hostname = 'rs1' AND port = 3307",
            "LOAD MYSQL SERVERS TO RUNTIME",
            "SAVE MYSQL SERVERS TO DISK",
        ]
    );
    assert_eq!(sent[0].target, Target::Readyset(0));
    assert!(sent[1..].iter().all(|statement| statement.target == Target::Router));
    assert_eq!(proxysql.readysets()[0].get_proxysql_status(), ProxySQLStatus::OfflineSoft);
    assert_eq!(proxysql.readysets()[0].get_readyset_status(), ReadysetStatus::Maintenance);
    assert_eq!(logged.len(), 1);
    assert_eq!(logged[0].level, MessageType::Note);
    assert_eq!(
        logged[0].text,
        "Server HG: 2, Host: rs1, Port: 3307 is currently ONLINE on ProxySQL and MAINTENANCE MODE on Readyset. Changing to OFFLINE_SOFT"
    );
}

#[test]
fn an_instance_whose_probe_fails_is_shunned_and_the_sweep_goes_on() {
    let config = router_config(DatabaseType::MySQL, 0);
    let mut proxysql = ProxySQL::new(
        &config,
        false,
        vec![instance(&config, "rs1", "ONLINE", true), instance(&config, "rs2", "SHUNNED", true)],
    );
    let (sent, logged, outcome) = sweep(&mut proxysql, &mut |statement| {
        match (statement.kind, statement.target) {
            (StatementKind::Show, Target::Readyset(0)) => Reply::Failed("connection reset".to_string()),
            (StatementKind::Show, _) => Reply::Rows(grid(&[&["Snapshot Status", "Completed"]])),
            _ => Reply::Done,
        }
    });
    assert!(matches!(outcome, Outcome::Completed));
    assert_eq!(
        texts(&sent),
        vec![
            "SHOW READYSET STATUS",
            "SHOW READYSET STATUS",
            "UPDATE mysql_servers SET status = 'SHUNNED'\n                 WHERE hostgroup_id = 2 AND hostname = 'rs1' AND port = 3307",
            "LOAD MYSQL SERVERS TO RUNTIME",
            "SAVE MYSQL SERVERS TO DISK",
            "UPDATE mysql_servers SET status = 'ONLINE'\n                 WHERE hostgroup_id = 2 AND hostname = 'rs2' AND port = 3307",
            "LOAD MYSQL SERVERS TO RUNTIME",
            "SAVE MYSQL SERVERS TO DISK",
        ]
    );
    assert_eq!(logged[0].level, MessageType::Error);
    assert_eq!(
        logged[0].text,
        "Cannot check Readyset status: Failed to execute query: connection reset."
    );
    assert_eq!(proxysql.readysets()[0].get_proxysql_status(), ProxySQLStatus::Shunned);
    assert_eq!(proxysql.readysets()[0].get_readyset_status(), ReadysetStatus::Unknown);
    assert_eq!(proxysql.readysets()[1].get_proxysql_status(), ProxySQLStatus::Online);
}

#[test]
fn an_instance_without_a_connection_is_not_asked_and_is_shunned() {
    let config = router_config(DatabaseType::MySQL, 0);
    let mut proxysql = ProxySQL::new(&config, false, vec![instance(&config, "rs1", "ONLINE", false)]);
    let (sent, logged, outcome) = sweep(&mut proxysql, &mut |_| Reply::Done);
    assert!(matches!(outcome, Outcome::Completed));
    assert_eq!(sent.len(), 3);
    assert!(sent.iter().all(|statement| statement.target == Target::Router));
    assert_eq!(sent[0].kind, StatementKind::Update);
    assert_eq!(
        logged[0].text,
        "Cannot check Readyset status: Connection to Readyset instance is not established."
    );
    assert_eq!(proxysql.readysets()[0].get_proxysql_status(), ProxySQLStatus::Shunned);
}

#[test]
fn an_instance_in_its_intended_state_costs_the_router_nothing() {
    let config = router_config(DatabaseType::MySQL, 0);
    let mut proxysql = ProxySQL::new(
        &config,
        false,
        vec![
            instance(&config, "rs1", "ONLINE", true),
            instance(&config, "rs2", "SHUNNED", true),
            instance(&config, "rs3", "SHUNNED", false),
        ],
    );
    let (sent, logged, outcome) = sweep(&mut proxysql, &mut |statement| match statement.target {
        Target::Readyset(0) => Reply::Rows(grid(&[&["Snapshot Status", "Completed"]])),
        Target::Readyset(_) => Reply::Rows(grid(&[&["Snapshot Status", "In Progress"]])),
        Target::Router => panic!("nothing is to be sent to the router"),
    });
    assert!(matches!(outcome, Outcome::Completed));
    assert_eq!(texts(&sent), vec!["SHOW READYSET STATUS", "SHOW READYSET STATUS"]);
    assert_eq!(logged.len(), 1);
    assert_eq!(logged[0].level, MessageType::Error);
    assert_eq!(proxysql.readysets()[0].get_proxysql_status(), ProxySQLStatus::Online);
    assert_eq!(proxysql.readysets()[1].get_proxysql_status(), ProxySQLStatus::Shunned);
}

#[test]
fn only_the_instance_that_changes_is_updated() {
    let config = router_config(DatabaseType::MySQL, 0);
    let mut proxysql = ProxySQL::new(
        &config,
        false,
        vec![instance(&config, "rs1", "ONLINE", true), instance(&config, "rs2", "ONLINE", true)],
    );
    let (sent, _, _) = sweep(&mut proxysql, &mut |statement| match statement.target {
        Target::Readyset(0) => Reply::Rows(grid(&[&["Snapshot Status", "Completed"]])),
        Target::Readyset(_) => Reply::Rows(grid(&[&["Snapshot Status", "In Progress"]])),
        Target::Router => Reply::Done,
    });
    let updates: Vec<&Statement> =
        sent.iter().filter(|statement| statement.kind == StatementKind::Update).collect();
    assert_eq!(updates.len(), 1);
    assert!(updates[0].text.contains("hostname = 'rs2'"));
    assert!(updates[0].text.contains("status = 'SHUNNED'"));
    assert_eq!(sent.iter().filter(|statement| statement.kind == StatementKind::Load).count(), 1);
    assert_eq!(sent.iter().filter(|statement| statement.kind == StatementKind::Save).count(), 1);
}

#[test]
fn a_dry_sweep_records_the_change_and_sends_nothing_to_the_router() {
    let config = router_config(DatabaseType::MySQL, 0);
    let mut proxysql = ProxySQL::new(&config, true, vec![instance(&config, "rs1", "ONLINE", true)]);
    let (sent, logged, outcome) = sweep(&mut proxysql, &mut |statement| match statement.kind {
        StatementKind::Show => Reply::Rows(grid(&[&["Snapshot Status", "In Progress"]])),
        _ => panic!("a dry run writes nothing"),
    });
    assert!(matches!(outcome, Outcome::Completed));
    assert_eq!(texts(&sent), vec!["SHOW READYSET STATUS"]);
    assert!(sent.iter().all(|statement| !statement.kind.is_write()));
    assert_eq!(proxysql.readysets()[0].get_proxysql_status(), ProxySQLStatus::Shunned);
    assert_eq!(logged.len(), 2);
    assert_eq!(logged[0].level, MessageType::Note);
    assert_eq!(logged[1].level, MessageType::Info);
    assert_eq!(logged[1].text, "Dry run, skipping changes to ProxySQL");
}

#[test]
fn a_server_update_that_fails_ends_the_sweep_in_failure() {
    let config = router_config(DatabaseType::MySQL, 0);
    let mut proxysql = ProxySQL::new(&config, false, vec![instance(&config, "rs1", "ONLINE", true)]);
    let (sent, _, outcome) = sweep(&mut proxysql, &mut |statement| match statement.kind {
        StatementKind::Show => Reply::Rows(grid(&[&["Snapshot Status", "In Progress"]])),
        StatementKind::Load => Reply::Failed("read only".to_string()),
        _ => Reply::Done,
    });
    assert!(matches!(&outcome, Outcome::Failed(reason) if reason == "Failed to update servers: read only"));
    assert_eq!(sent.len(), 3);
}

#[test]
fn a_sweep_can_be_run_again() {
    let config = router_config(DatabaseType::MySQL, 0);
    let mut proxysql = ProxySQL::new(&config, false, vec![instance(&config, "rs1", "ONLINE", true)]);
    let (first, _, _) = sweep(&mut proxysql, &mut |statement| match statement.kind {
        StatementKind::Show => Reply::Rows(grid(&[&["Snapshot Status", "In Progress"]])),
        _ => Reply::Done,
    });
    assert_eq!(first.len(), 4);
    let (second, logged, outcome) = sweep(&mut proxysql, &mut |statement| match statement.kind {
        StatementKind::Show => Reply::Rows(grid(&[&["Snapshot Status", "In Progress"]])),
        _ => Reply::Done,
    });
    assert!(matches!(outcome, Outcome::Completed));
    assert_eq!(second.len(), 1);
    assert!(logged.is_empty());
}

#[test]
fn a_sweep_without_instances_ends_at_once() {
    let mut proxysql = router(0, false, Vec::new());
    let (sent, logged, outcome) = sweep(&mut proxysql, &mut |_| panic!("nothing is to be sent"));
    assert!(matches!(outcome, Outcome::Completed));
    assert!(sent.is_empty());
    assert!(logged.is_empty());
}
