//! What a run is configured with.
use crate::messages::MessageType;
use crate::text::{lowercase_of, same_text, to_lowercase};
use vstd::prelude::*;

verus! {

/// The wire protocol that the router and the Readyset instances speak.
#[derive(Clone, Copy, Debug, PartialEq, Eq, Structural)]
pub enum DatabaseType {
    MySQL,
    PostgreSQL,
}

impl Default for DatabaseType {
    fn default() -> (r: Self)
        ensures
            r == DatabaseType::MySQL,
    {
        DatabaseType::MySQL
    }
}

impl DatabaseType {
    /// The type that a configuration file names.
    pub open spec fn named(name: Seq<char>) -> Option<DatabaseType> {
        if name == "mysql"@ {
            Some(DatabaseType::MySQL)
        } else if name == "postgresql"@ {
            Some(DatabaseType::PostgreSQL)
        } else {
            None
        }
    }

    /// The type that a configuration file names: `mysql` or `postgresql`.
    pub fn from_name(name: &str) -> (r: Option<DatabaseType>)
        ensures
            r == Self::named(name@),
    {
        if same_text(name, "mysql") {
            Some(DatabaseType::MySQL)
        } else if same_text(name, "postgresql") {
            Some(DatabaseType::PostgreSQL)
        } else {
            None
        }
    }
}

/// One of the two things that a run does.
#[derive(Clone, Copy, Debug, PartialEq, Eq, Structural)]
pub enum Phase {
    /// The health of the Readyset instances is swept.
    HealthCheck,
    /// Queries are discovered, cached and routed.
    QueryDiscovery,
}

/// Which phases a run goes through.
#[derive(Clone, Copy, Debug, PartialEq, Eq, Structural)]
pub enum OperationMode {
    HealthCheck,
    QueryDiscovery,
    All,
}

impl Default for OperationMode {
    fn default() -> (r: Self)
        ensures
            r == OperationMode::All,
    {
        OperationMode::All
    }
}

impl OperationMode {
    /// The mode that a name in lower case stands for; an unknown name stands
    /// for all phases.
    pub open spec fn of_lowercase(name: Seq<char>) -> OperationMode {
        if name == "health_check"@ {
            OperationMode::HealthCheck
        } else if name == "query_discovery"@ {
            OperationMode::QueryDiscovery
        } else {
            OperationMode::All
        }
    }

    /// The mode that a name in lower case stands for.
    pub fn from_lowercase(name: &str) -> (r: OperationMode)
        ensures
            r == Self::of_lowercase(name@),
    {
        if same_text(name, "health_check") {
            OperationMode::HealthCheck
        } else if same_text(name, "query_discovery") {
            OperationMode::QueryDiscovery
        } else {
            OperationMode::All
        }
    }

    /// The name of the mode.
    pub open spec fn name(self) -> Seq<char> {
        match self {
            OperationMode::HealthCheck => "health_check"@,
            OperationMode::QueryDiscovery => "query_discovery"@,
            OperationMode::All => "all"@,
        }
    }

    /// The name of the mode, as a configuration file writes it.
    pub fn to_string(&self) -> (r: String)
        ensures
            r@ == self.name(),
    {
        match self {
            OperationMode::HealthCheck => String::from_str("health_check"),
            OperationMode::QueryDiscovery => String::from_str("query_discovery"),
            OperationMode::All => String::from_str("all"),
        }
    }

    /// Whether a run in this mode sweeps the health of the instances.
    pub open spec fn checks_health(self) -> bool {
        self == OperationMode::HealthCheck || self == OperationMode::All
    }

    /// Whether a run in this mode discovers queries.
    pub open spec fn discovers_queries(self) -> bool {
        self == OperationMode::QueryDiscovery || self == OperationMode::All
    }

    /// The phases of a run in this mode, in their order: the health sweep
    /// comes to its end before query discovery begins.
    pub open spec fn plan(self) -> Seq<Phase> {
        match self {
            OperationMode::HealthCheck => seq![Phase::HealthCheck],
            OperationMode::QueryDiscovery => seq![Phase::QueryDiscovery],
            OperationMode::All => seq![Phase::HealthCheck, Phase::QueryDiscovery],
        }
    }

    /// The phases of a run in this mode, in their order.
    pub fn phases(&self) -> (r: Vec<Phase>)
        ensures
            r@ == self.plan(),
    {
        let mut phases: Vec<Phase> = Vec::new();
        if self.runs_health_check() {
            phases.push(Phase::HealthCheck);
        }
        if self.runs_query_discovery() {
            phases.push(Phase::QueryDiscovery);
        }
        assert(phases@ =~= self.plan());
        phases
    }

    /// Whether a run in this mode sweeps the health of the instances.
    pub fn runs_health_check(&self) -> (r: bool)
        ensures
            r == self.checks_health(),
    {
        match self {
            OperationMode::HealthCheck => true,
            OperationMode::QueryDiscovery => false,
            OperationMode::All => true,
        }
    }

    /// Whether a run in this mode discovers queries.
    pub fn runs_query_discovery(&self) -> (r: bool)
        ensures
            r == self.discovers_queries(),
    {
        match self {
            OperationMode::HealthCheck => false,
            OperationMode::QueryDiscovery => true,
            OperationMode::All => true,
        }
    }
}

impl From<String> for OperationMode {
    /// The mode that a name stands for, whatever its case.
    fn from(s: String) -> (r: OperationMode) {
        let lowered = to_lowercase(s.as_str());
        OperationMode::from_lowercase(lowered.as_str())
    }
}

impl vstd::std_specs::convert::FromSpecImpl<String> for OperationMode {
    open spec fn obeys_from_spec() -> bool {
        true
    }

    open spec fn from_spec(s: String) -> OperationMode {
        OperationMode::of_lowercase(lowercase_of(s@))
    }
}

/// By which figure the queries that pass through the router are ranked.
#[derive(Clone, Copy, Debug, PartialEq, Eq, Structural)]
pub enum QueryDiscoveryMode {
    CountStar,
    SumTime,
    SumRowsSent,
    MeanTime,
    ExecutionTimeDistance,
    QueryThroughput,
    WorstBestCase,
    WorstWorstCase,
    DistanceMeanMax,
    External,
}

impl Default for QueryDiscoveryMode {
    fn default() -> (r: Self)
        ensures
            r == QueryDiscoveryMode::CountStar,
    {
        QueryDiscoveryMode::CountStar
    }
}

impl QueryDiscoveryMode {
    /// The mode that a configuration file names.
    pub open spec fn named(name: Seq<char>) -> Option<QueryDiscoveryMode> {
        if name == "CountStar"@ {
            Some(QueryDiscoveryMode::CountStar)
        } else if name == "SumTime"@ {
            Some(QueryDiscoveryMode::SumTime)
        } else if name == "SumRowsSent"@ {
            Some(QueryDiscoveryMode::SumRowsSent)
        } else if name == "MeanTime"@ {
            Some(QueryDiscoveryMode::MeanTime)
        } else if name == "ExecutionTimeDistance"@ {
            Some(QueryDiscoveryMode::ExecutionTimeDistance)
        } else if name == "QueryThroughput"@ {
            Some(QueryDiscoveryMode::QueryThroughput)
        } else if name == "WorstBestCase"@ {
            Some(QueryDiscoveryMode::WorstBestCase)
        } else if name == "WorstWorstCase"@ {
            Some(QueryDiscoveryMode::WorstWorstCase)
        } else if name == "DistanceMeanMax"@ {
            Some(QueryDiscoveryMode::DistanceMeanMax)
        } else if name == "External"@ {
            Some(QueryDiscoveryMode::External)
        } else {
            None
        }
    }

    /// The mode that a configuration file names.
    pub fn from_name(name: &str) -> (r: Option<QueryDiscoveryMode>)
        ensures
            r == Self::named(name@),
    {
        if same_text(name, "CountStar") {
            Some(QueryDiscoveryMode::CountStar)
        } else if same_text(name, "SumTime") {
            Some(QueryDiscoveryMode::SumTime)
        } else if same_text(name, "SumRowsSent") {
            Some(QueryDiscoveryMode::SumRowsSent)
        } else if same_text(name, "MeanTime") {
            Some(QueryDiscoveryMode::MeanTime)
        } else if same_text(name, "ExecutionTimeDistance") {
            Some(QueryDiscoveryMode::ExecutionTimeDistance)
        } else if same_text(name, "QueryThroughput") {
            Some(QueryDiscoveryMode::QueryThroughput)
        } else if same_text(name, "WorstBestCase") {
            Some(QueryDiscoveryMode::WorstBestCase)
        } else if same_text(name, "WorstWorstCase") {
            Some(QueryDiscoveryMode::WorstWorstCase)
        } else if same_text(name, "DistanceMeanMax") {
            Some(QueryDiscoveryMode::DistanceMeanMax)
        } else if same_text(name, "External") {
            Some(QueryDiscoveryMode::External)
        } else {
            None
        }
    }
}

/// The lock file of a configuration that names none.
pub open spec fn default_lock_file_path() -> Seq<char> {
    "/tmp/readyset_scheduler.lock"@
}

/// The lock file of a configuration that names none.
pub fn default_lock_file() -> (r: String)
    ensures
        r@ == default_lock_file_path(),
{
    String::from_str("/tmp/readyset_scheduler.lock")
}

/// The number of queries of a configuration that names none.
pub fn default_number_of_queries() -> (r: u16)
    ensures
        r == 10,
{
    10
}

/// The configuration of a run. It does not change while the run lasts.
#[derive(Clone, Debug)]
pub struct Config {
    pub database_type: DatabaseType,
    pub proxysql_user: String,
    pub proxysql_password: String,
    pub proxysql_host: String,
    pub proxysql_port: u16,
    pub readyset_user: String,
    pub readyset_password: String,
    /// The hostgroup whose traffic is ranked.
    pub source_hostgroup: u16,
    /// The hostgroup of the Readyset instances.
    pub readyset_hostgroup: u16,
    /// For how many seconds a new rule mirrors traffic before it routes it;
    /// zero for no such phase.
    pub warmup_time_s: u16,
    pub lock_file: String,
    pub operation_mode: OperationMode,
    /// How many queries are routed to Readyset at most, and how many
    /// candidates a page holds.
    pub number_of_queries: u16,
    pub query_discovery_mode: QueryDiscoveryMode,
    pub query_discovery_min_execution: u64,
    pub query_discovery_min_row_sent: u64,
    pub log_verbosity: MessageType,
}

} // verus!
