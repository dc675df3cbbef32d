//! A Readyset instance as the scheduler knows it: where it is, what the
//! router has been told of it, and what it last said of itself.
use crate::config::{Config, DatabaseType};
use crate::queries::Query;
use crate::sql_connection::{Reply, ReplyView, Statement, StatementKind, StatementView, Target};
use crate::text::{lowercase_of, same_text, to_lowercase, to_uppercase, uppercase_of};
use vstd::prelude::*;

verus! {

/// The state of a server in the router's server table.
#[derive(Clone, Copy, Debug, PartialEq, Eq, Structural)]
pub enum ProxySQLStatus {
    /// The server takes traffic.
    Online,
    /// The server is out of use for a while.
    Shunned,
    /// The server gets no new connections; those it has are kept until they
    /// are given back.
    OfflineSoft,
    /// The server gets no new connections, and those it has are dropped.
    OfflineHard,
}

/// What a Readyset instance says of itself.
#[derive(Clone, Copy, Debug, PartialEq, Eq, Structural)]
pub enum ReadysetStatus {
    Online,
    SnapshotInProgress,
    Maintenance,
    Unknown,
}

impl ProxySQLStatus {
    /// The word for the state in the router's server table.
    pub open spec fn name(self) -> Seq<char> {
        match self {
            ProxySQLStatus::Online => "ONLINE"@,
            ProxySQLStatus::Shunned => "SHUNNED"@,
            ProxySQLStatus::OfflineSoft => "OFFLINE_SOFT"@,
            ProxySQLStatus::OfflineHard => "OFFLINE_HARD"@,
        }
    }

    /// The state that a word in upper case stands for; an unknown word
    /// stands for a server that takes traffic.
    pub open spec fn of_uppercase(word: Seq<char>) -> ProxySQLStatus {
        if word == "SHUNNED"@ {
            ProxySQLStatus::Shunned
        } else if word == "OFFLINE_SOFT"@ {
            ProxySQLStatus::OfflineSoft
        } else if word == "OFFLINE_HARD"@ {
            ProxySQLStatus::OfflineHard
        } else {
            ProxySQLStatus::Online
        }
    }

    /// The state in which the router keeps an instance that says `status` of
    /// itself.
    pub open spec fn of_readyset(status: ReadysetStatus) -> ProxySQLStatus {
        match status {
            ReadysetStatus::Online => ProxySQLStatus::Online,
            ReadysetStatus::SnapshotInProgress => ProxySQLStatus::Shunned,
            ReadysetStatus::Maintenance => ProxySQLStatus::OfflineSoft,
            ReadysetStatus::Unknown => ProxySQLStatus::Shunned,
        }
    }

    /// The word for the state in the router's server table.
    pub fn as_str(&self) -> (r: &'static str)
        ensures
            r@ == self.name(),
    {
        match self {
            ProxySQLStatus::Online => "ONLINE",
            ProxySQLStatus::Shunned => "SHUNNED",
            ProxySQLStatus::OfflineSoft => "OFFLINE_SOFT",
            ProxySQLStatus::OfflineHard => "OFFLINE_HARD",
        }
    }

    /// The word for the state in the router's server table.
    pub fn to_string(&self) -> (r: String)
        ensures
            r@ == self.name(),
    {
        String::from_str(self.as_str())
    }

    /// The state that a word in upper case stands for.
    pub fn from_uppercase(word: &str) -> (r: ProxySQLStatus)
        ensures
            r == Self::of_uppercase(word@),
    {
        if same_text(word, "SHUNNED") {
            ProxySQLStatus::Shunned
        } else if same_text(word, "OFFLINE_SOFT") {
            ProxySQLStatus::OfflineSoft
        } else if same_text(word, "OFFLINE_HARD") {
            ProxySQLStatus::OfflineHard
        } else {
            ProxySQLStatus::Online
        }
    }
}

impl From<String> for ProxySQLStatus {
    /// The state that a word of the router's server table stands for,
    /// whatever its case.
    fn from(s: String) -> (r: ProxySQLStatus) {
        let upper = to_uppercase(s.as_str());
        ProxySQLStatus::from_uppercase(upper.as_str())
    }
}

impl vstd::std_specs::convert::FromSpecImpl<String> for ProxySQLStatus {
    open spec fn obeys_from_spec() -> bool {
        true
    }

    open spec fn from_spec(s: String) -> ProxySQLStatus {
        ProxySQLStatus::of_uppercase(uppercase_of(s@))
    }
}

impl From<ReadysetStatus> for ProxySQLStatus {
    /// The state in which the router keeps an instance that says `status` of
    /// itself.
    fn from(status: ReadysetStatus) -> (r: ProxySQLStatus) {
        match status {
            ReadysetStatus::Online => ProxySQLStatus::Online,
            ReadysetStatus::SnapshotInProgress => ProxySQLStatus::Shunned,
            ReadysetStatus::Maintenance => ProxySQLStatus::OfflineSoft,
            ReadysetStatus::Unknown => ProxySQLStatus::Shunned,
        }
    }
}

impl vstd::std_specs::convert::FromSpecImpl<ReadysetStatus> for ProxySQLStatus {
    open spec fn obeys_from_spec() -> bool {
        true
    }

    open spec fn from_spec(status: ReadysetStatus) -> ProxySQLStatus {
        ProxySQLStatus::of_readyset(status)
    }
}

impl ReadysetStatus {
    /// How the instance words the status.
    pub open spec fn name(self) -> Seq<char> {
        match self {
            ReadysetStatus::Online => "Online"@,
            ReadysetStatus::SnapshotInProgress => "Snapshot in progress"@,
            ReadysetStatus::Maintenance => "Maintenance mode"@,
            ReadysetStatus::Unknown => "Unknown"@,
        }
    }

    /// The wording of the status in capitals, as log lines have it.
    pub open spec fn shout(self) -> Seq<char> {
        match self {
            ReadysetStatus::Online => "ONLINE"@,
            ReadysetStatus::SnapshotInProgress => "SNAPSHOT IN PROGRESS"@,
            ReadysetStatus::Maintenance => "MAINTENANCE MODE"@,
            ReadysetStatus::Unknown => "UNKNOWN"@,
        }
    }

    /// The status that a wording in lower case stands for.
    pub open spec fn of_lowercase(word: Seq<char>) -> ReadysetStatus {
        if word == "online"@ {
            ReadysetStatus::Online
        } else if word == "snapshot in progress"@ {
            ReadysetStatus::SnapshotInProgress
        } else if word == "maintenance mode"@ {
            ReadysetStatus::Maintenance
        } else {
            ReadysetStatus::Unknown
        }
    }

    /// How the instance words the status.
    pub fn to_string(&self) -> (r: String)
        ensures
            r@ == self.name(),
    {
        match self {
            ReadysetStatus::Online => String::from_str("Online"),
            ReadysetStatus::SnapshotInProgress => String::from_str("Snapshot in progress"),
            ReadysetStatus::Maintenance => String::from_str("Maintenance mode"),
            ReadysetStatus::Unknown => String::from_str("Unknown"),
        }
    }

    /// The wording of the status in capitals.
    pub fn as_capitals(&self) -> (r: &'static str)
        ensures
            r@ == self.shout(),
    {
        match self {
            ReadysetStatus::Online => "ONLINE",
            ReadysetStatus::SnapshotInProgress => "SNAPSHOT IN PROGRESS",
            ReadysetStatus::Maintenance => "MAINTENANCE MODE",
            ReadysetStatus::Unknown => "UNKNOWN",
        }
    }

    /// The status that a wording in lower case stands for.
    pub fn from_lowercase(word: &str) -> (r: ReadysetStatus)
        ensures
            r == Self::of_lowercase(word@),
    {
        if same_text(word, "online") {
            ReadysetStatus::Online
        } else if same_text(word, "snapshot in progress") {
            ReadysetStatus::SnapshotInProgress
        } else if same_text(word, "maintenance mode") {
            ReadysetStatus::Maintenance
        } else {
            ReadysetStatus::Unknown
        }
    }
}

impl From<String> for ReadysetStatus {
    /// The status that a wording stands for, whatever its case.
    fn from(s: String) -> (r: ReadysetStatus) {
        let lower = to_lowercase(s.as_str());
        ReadysetStatus::from_lowercase(lower.as_str())
    }
}

impl vstd::std_specs::convert::FromSpecImpl<String> for ReadysetStatus {
    open spec fn obeys_from_spec() -> bool {
        true
    }

    open spec fn from_spec(s: String) -> ReadysetStatus {
        ReadysetStatus::of_lowercase(lowercase_of(s@))
    }
}

/// For each status that a Readyset instance can say of itself, the state in
/// which the router keeps it: online for an instance that is online, shunned
/// while it takes its snapshot or says nothing known, and softly offline
/// while it is in maintenance.
pub proof fn lemma_status_mapping(status: ReadysetStatus)
    ensures
        status == ReadysetStatus::Online ==> ProxySQLStatus::of_readyset(status)
            == ProxySQLStatus::Online,
        status == ReadysetStatus::SnapshotInProgress ==> ProxySQLStatus::of_readyset(status)
            == ProxySQLStatus::Shunned,
        status == ReadysetStatus::Maintenance ==> ProxySQLStatus::of_readyset(status)
            == ProxySQLStatus::OfflineSoft,
        status == ReadysetStatus::Unknown ==> ProxySQLStatus::of_readyset(status)
            == ProxySQLStatus::Shunned,
        ProxySQLStatus::of_readyset(status) != ProxySQLStatus::OfflineHard,
{
}

/// Why a Readyset instance gave no answer.
#[derive(Clone, Debug)]
pub enum ReadysetError {
    /// There is no connection to the instance.
    NoConnection,
    /// The statement failed, with what the connection said of it.
    Query(String),
    /// What came back is no answer to the statement.
    NoAnswer,
}

/// An error, with its text as a sequence of characters.
pub enum ReadysetErrorView {
    NoConnection,
    Query(Seq<char>),
    NoAnswer,
}

impl View for ReadysetError {
    type V = ReadysetErrorView;

    open spec fn view(&self) -> ReadysetErrorView {
        match self {
            ReadysetError::NoConnection => ReadysetErrorView::NoConnection,
            ReadysetError::Query(cause) => ReadysetErrorView::Query(cause@),
            ReadysetError::NoAnswer => ReadysetErrorView::NoAnswer,
        }
    }
}

impl ReadysetErrorView {
    /// The error in words.
    pub open spec fn message(self) -> Seq<char> {
        match self {
            ReadysetErrorView::NoConnection => "Connection to Readyset instance is not established"@,
            ReadysetErrorView::Query(cause) => "Failed to execute query: "@ + cause,
            ReadysetErrorView::NoAnswer => "Failed to execute query: the statement was not answered"@,
        }
    }
}

impl ReadysetError {
    /// The error in words.
    pub fn to_string(&self) -> (r: String)
        ensures
            r@ == self@.message(),
    {
        match self {
            ReadysetError::NoConnection => String::from_str(
                "Connection to Readyset instance is not established",
            ),
            ReadysetError::Query(cause) => {
                let mut r = String::from_str("Failed to execute query: ");
                r.append(cause.as_str());
                r
            },
            ReadysetError::NoAnswer => String::from_str(
                "Failed to execute query: the statement was not answered",
            ),
        }
    }
}

/// Whether `row` has a second column and `field` in its first.
pub open spec fn is_row(row: Seq<Seq<char>>, field: Seq<char>) -> bool {
    row.len() >= 2 && row[0] == field
}

/// Whether some row holds `field` in its first column and `value` in its
/// second.
pub open spec fn has_row(rows: Seq<Seq<Seq<char>>>, field: Seq<char>, value: Seq<char>) -> bool {
    exists|i: int| 0 <= i < rows.len() && is_row(#[trigger] rows[i], field) && rows[i][1] == value
}

/// The first row at or after `from` that holds `field` in its first column.
pub open spec fn first_row(rows: Seq<Seq<Seq<char>>>, field: Seq<char>, from: int) -> Option<int>
    decreases rows.len() - from,
{
    if from < 0 || from >= rows.len() {
        None
    } else if is_row(rows[from], field) {
        Some(from)
    } else {
        first_row(rows, field, from + 1)
    }
}

/// What the rows of `SHOW READYSET STATUS` say of the instance. A snapshot
/// that is completed says that it is online, whatever else is there; failing
/// that, a snapshot in progress says so; failing that, the first `Status`
/// row is read, whatever its case; and rows that hold none of these say
/// nothing known.
pub open spec fn reported_status(rows: Seq<Seq<Seq<char>>>) -> ReadysetStatus {
    if has_row(rows, "Snapshot Status"@, "Completed"@) {
        ReadysetStatus::Online
    } else if has_row(rows, "Snapshot Status"@, "In Progress"@) {
        ReadysetStatus::SnapshotInProgress
    } else {
        match first_row(rows, "Status"@, 0) {
            Some(i) => ReadysetStatus::of_lowercase(lowercase_of(rows[i][1])),
            None => ReadysetStatus::Unknown,
        }
    }
}

/// Whether the rows of `EXPLAIN CREATE CACHE` say that Readyset can cache the
/// query: the third column of the first row is `yes` or `cached`.
pub open spec fn reported_support(rows: Seq<Seq<Seq<char>>>) -> bool {
    &&& rows.len() > 0
    &&& rows[0].len() >= 3
    &&& (rows[0][2] == "yes"@ || rows[0][2] == "cached"@)
}

/// The statement that asks an instance for its status.
pub open spec fn status_text() -> Seq<char> {
    "SHOW READYSET STATUS"@
}

/// The statement that makes `schema` the schema of the session.
pub open spec fn use_text(schema: Seq<char>) -> Seq<char> {
    "USE "@ + schema
}

/// The statement that asks whether a query can be cached.
pub open spec fn explain_text(digest_text: Seq<char>) -> Seq<char> {
    "EXPLAIN CREATE CACHE FROM "@ + digest_text
}

/// The statement that creates the cache of a query, named after its digest.
pub open spec fn create_cache_text(digest: Seq<char>, digest_text: Seq<char>) -> Seq<char> {
    "CREATE CACHE d_"@ + digest + " FROM "@ + digest_text
}

/// The statement that asks the instance at `place` for its status.
pub open spec fn status_statement(place: usize) -> StatementView {
    StatementView { target: Target::Readyset(place), kind: StatementKind::Show, text: status_text() }
}

/// The statement that makes `schema` the schema of the session with the
/// instance at `place`.
pub open spec fn use_statement(place: usize, schema: Seq<char>) -> StatementView {
    StatementView {
        target: Target::Readyset(place),
        kind: StatementKind::Use,
        text: use_text(schema),
    }
}

/// The statement that asks the instance at `place` whether a query can be
/// cached.
pub open spec fn explain_statement(place: usize, digest_text: Seq<char>) -> StatementView {
    StatementView {
        target: Target::Readyset(place),
        kind: StatementKind::Explain,
        text: explain_text(digest_text),
    }
}

/// The statement that creates the cache of a query on the instance at
/// `place`.
pub open spec fn create_cache_statement(
    place: usize,
    digest: Seq<char>,
    digest_text: Seq<char>,
) -> StatementView {
    StatementView {
        target: Target::Readyset(place),
        kind: StatementKind::CreateCache,
        text: create_cache_text(digest, digest_text),
    }
}

/// The statements that cache `query` on the instance at `place`: its schema
/// is chosen, then the cache is created.
pub open spec fn cache_statements(place: usize, query: crate::queries::QueryView) -> Seq<
    StatementView,
> {
    seq![
        use_statement(place, query.schema),
        create_cache_statement(place, query.digest, query.digest_text),
    ]
}

/// Whether some row holds `field` in its first column and `value` in its
/// second.
pub fn holds_row(rows: &Vec<Vec<String>>, field: &str, value: &str) -> (r: bool)
    ensures
        r == has_row(rows.deep_view(), field@, value@),
{
    let mut i: usize = 0;
    while i < rows.len()
        invariant
            i <= rows.len(),
            forall|j: int|
                0 <= j < i ==> !(is_row(#[trigger] rows.deep_view()[j], field@)
                    && rows.deep_view()[j][1] == value@),
        decreases rows.len() - i,
    {
        let row = &rows[i];
        assert(rows.deep_view()[i as int] == row.deep_view());
        if row.len() >= 2 {
            assert(row.deep_view()[0] == row[0]@);
            assert(row.deep_view()[1] == row[1]@);
            if same_text(row[0].as_str(), field) && same_text(row[1].as_str(), value) {
                return true;
            }
        }
        i += 1;
    }
    false
}

/// The first row that holds `field` in its first column.
pub fn find_row(rows: &Vec<Vec<String>>, field: &str) -> (r: Option<usize>)
    ensures
        match r {
            Some(i) => first_row(rows.deep_view(), field@, 0) == Some(i as int) && i < rows.len()
                && rows[i as int].len() >= 2,
            None => first_row(rows.deep_view(), field@, 0) is None,
        },
{
    let mut i: usize = 0;
    while i < rows.len()
        invariant
            i <= rows.len(),
            first_row(rows.deep_view(), field@, 0) == first_row(rows.deep_view(), field@, i as int),
        decreases rows.len() - i,
    {
        let row = &rows[i];
        assert(rows.deep_view()[i as int] == row.deep_view());
        if row.len() >= 2 {
            assert(row.deep_view()[0] == row[0]@);
            if same_text(row[0].as_str(), field) {
                return Some(i);
            }
        }
        i += 1;
    }
    None
}

/// Whether the rows of `EXPLAIN CREATE CACHE` say that Readyset can cache the
/// query.
pub fn says_supported(rows: &Vec<Vec<String>>) -> (r: bool)
    ensures
        r == reported_support(rows.deep_view()),
{
    if rows.len() == 0 {
        return false;
    }
    let row = &rows[0];
    assert(rows.deep_view()[0] == row.deep_view());
    if row.len() < 3 {
        return false;
    }
    assert(row.deep_view()[2] == row[2]@);
    same_text(row[2].as_str(), "yes") || same_text(row[2].as_str(), "cached")
}

/// What the rows of `SHOW READYSET STATUS` say of the instance.
pub fn status_of_rows(rows: &Vec<Vec<String>>) -> (r: ReadysetStatus)
    ensures
        r == reported_status(rows.deep_view()),
{
    if holds_row(rows, "Snapshot Status", "Completed") {
        ReadysetStatus::Online
    } else if holds_row(rows, "Snapshot Status", "In Progress") {
        ReadysetStatus::SnapshotInProgress
    } else {
        match find_row(rows, "Status") {
            Some(i) => {
                let row = &rows[i];
                assert(rows.deep_view()[i as int] == row.deep_view());
                assert(row.deep_view()[1] == row[1]@);
                let lower = to_lowercase(row[1].as_str());
                ReadysetStatus::from_lowercase(lower.as_str())
            },
            None => ReadysetStatus::Unknown,
        }
    }
}

/// A Readyset instance: where it is, the state that the router has been told
/// of it, what it last said of itself, and whether there is a connection to
/// it.
#[derive(Clone, Debug)]
pub struct Readyset {
    database_type: DatabaseType,
    hostname: String,
    port: u16,
    proxysql_status: ProxySQLStatus,
    readyset_status: ReadysetStatus,
    connected: bool,
}

/// A Readyset instance, with its host name as a sequence of characters.
pub struct ReadysetView {
    pub database_type: DatabaseType,
    pub hostname: Seq<char>,
    pub port: u16,
    /// The state that the router has been told, or the one read from it
    /// where it has been told none yet.
    pub proxysql_status: ProxySQLStatus,
    /// What the instance said of itself when it was last asked and answered.
    pub readyset_status: ReadysetStatus,
    /// Whether there is a connection to the instance.
    pub connected: bool,
}

impl View for Readyset {
    type V = ReadysetView;

    closed spec fn view(&self) -> ReadysetView {
        ReadysetView {
            database_type: self.database_type,
            hostname: self.hostname@,
            port: self.port,
            proxysql_status: self.proxysql_status,
            readyset_status: self.readyset_status,
            connected: self.connected,
        }
    }
}

impl DeepView for Readyset {
    type V = ReadysetView;

    open spec fn deep_view(&self) -> ReadysetView {
        self@
    }
}

impl ReadysetView {
    /// What asking the instance for its status comes to, given what came
    /// back: the status it reported, or why there is none.
    pub open spec fn readiness(self, reply: ReplyView) -> Result<ReadysetStatus, ReadysetErrorView> {
        if !self.connected {
            Err(ReadysetErrorView::NoConnection)
        } else {
            match reply {
                ReplyView::Rows(rows) => Ok(reported_status(rows)),
                ReplyView::Failed(cause) => Err(ReadysetErrorView::Query(cause)),
                _ => Err(ReadysetErrorView::NoAnswer),
            }
        }
    }

    /// What asking the instance whether it can cache a query comes to, given
    /// what came back. An instance without a connection supports nothing.
    pub open spec fn support(self, reply: ReplyView) -> Result<bool, ReadysetErrorView> {
        if !self.connected {
            Ok(false)
        } else {
            match reply {
                ReplyView::Rows(rows) => Ok(reported_support(rows)),
                ReplyView::Failed(cause) => Err(ReadysetErrorView::Query(cause)),
                _ => Err(ReadysetErrorView::NoAnswer),
            }
        }
    }
}

impl Readyset {
    /// An instance at `hostname` and `port` that the router keeps in the
    /// state `proxysql_status`. `connected` says whether a connection to it
    /// could be opened. What it says of itself is not known yet.
    pub fn new(
        hostname: String,
        port: u16,
        proxysql_status: String,
        config: &Config,
        connected: bool,
    ) -> (r: Readyset)
        ensures
            r@ == (ReadysetView {
                database_type: config.database_type,
                hostname: hostname@,
                port,
                proxysql_status: ProxySQLStatus::of_uppercase(uppercase_of(proxysql_status@)),
                readyset_status: ReadysetStatus::Unknown,
                connected,
            }),
    {
        Readyset {
            database_type: config.database_type,
            hostname,
            port,
            proxysql_status: ProxySQLStatus::from(proxysql_status),
            readyset_status: ReadysetStatus::Unknown,
            connected,
        }
    }

    /// The host name of the instance.
    pub fn get_hostname(&self) -> (r: &String)
        ensures
            r@ == self@.hostname,
    {
        &self.hostname
    }

    /// The port of the instance.
    pub fn get_port(&self) -> (r: u16)
        ensures
            r == self@.port,
    {
        self.port
    }

    /// The state that the router has been told of the instance.
    pub fn get_proxysql_status(&self) -> (r: ProxySQLStatus)
        ensures
            r == self@.proxysql_status,
    {
        self.proxysql_status
    }

    /// Records the state that the router is told of the instance.
    pub fn change_proxysql_status(&mut self, status: ProxySQLStatus)
        ensures
            final(self)@ == (ReadysetView { proxysql_status: status, ..old(self)@ }),
    {
        self.proxysql_status = status;
    }

    /// Whether the router sends traffic to the instance.
    pub fn is_proxysql_online(&self) -> (r: bool)
        ensures
            r == (self@.proxysql_status == ProxySQLStatus::Online),
    {
        self.proxysql_status == ProxySQLStatus::Online
    }

    /// What the instance said of itself when it was last asked and answered.
    pub fn get_readyset_status(&self) -> (r: ReadysetStatus)
        ensures
            r == self@.readyset_status,
    {
        self.readyset_status
    }

    /// Whether there is a connection to the instance.
    pub fn is_connected(&self) -> (r: bool)
        ensures
            r == self@.connected,
    {
        self.connected
    }

    /// The statement that asks the instance, which stands at `place` in the
    /// router's list, for its status.
    pub fn status_query(place: usize) -> (r: Statement)
        ensures
            r@ == status_statement(place),
    {
        Statement {
            target: Target::Readyset(place),
            kind: StatementKind::Show,
            text: String::from_str("SHOW READYSET STATUS"),
        }
    }

    /// Reads what the instance answered when asked for its status, and gives
    /// the state in which the router should keep it. The status is
    /// remembered. Without a connection, or where the statement failed or
    /// was not answered with rows, there is an error and nothing changes.
    pub fn check_readyset_is_ready(&mut self, reply: &Reply) -> (r: Result<
        ProxySQLStatus,
        ReadysetError,
    >)
        ensures
            match old(self)@.readiness(reply@) {
                Ok(status) => r == Ok::<ProxySQLStatus, ReadysetError>(
                    ProxySQLStatus::of_readyset(status),
                ) && final(self)@ == (ReadysetView { readyset_status: status, ..old(self)@ }),
                Err(error) => r is Err && r->Err_0@ == error && final(self)@ == old(self)@,
            },
    {
        if !self.connected {
            return Err(ReadysetError::NoConnection);
        }
        match reply {
            Reply::Rows(rows) => {
                let status = status_of_rows(rows);
                self.readyset_status = status;
                Ok(ProxySQLStatus::from(status))
            },
            Reply::Failed(cause) => Err(ReadysetError::Query(cause.clone())),
            _ => Err(ReadysetError::NoAnswer),
        }
    }

    /// The statement that makes `schema` the schema of the session with the
    /// instance, which stands at `place` in the router's list.
    pub fn use_schema(place: usize, schema: &str) -> (r: Statement)
        ensures
            r@ == use_statement(place, schema@),
    {
        let mut text = String::from_str("USE ");
        text.append(schema);
        Statement { target: Target::Readyset(place), kind: StatementKind::Use, text }
    }

    /// The statement that asks the instance at `place` whether it can cache
    /// the query `digest_text`.
    pub fn support_query(place: usize, digest_text: &str) -> (r: Statement)
        ensures
            r@ == explain_statement(place, digest_text@),
    {
        let mut text = String::from_str("EXPLAIN CREATE CACHE FROM ");
        text.append(digest_text);
        Statement { target: Target::Readyset(place), kind: StatementKind::Explain, text }
    }

    /// Reads what the instance answered when asked whether it can cache a
    /// query. An instance without a connection supports nothing; where the
    /// statement failed or was not answered with rows, there is an error.
    pub fn check_query_support(&self, reply: &Reply) -> (r: Result<bool, ReadysetError>)
        ensures
            match self@.support(reply@) {
                Ok(supported) => r == Ok::<bool, ReadysetError>(supported),
                Err(error) => r is Err && r->Err_0@ == error,
            },
    {
        if !self.connected {
            return Ok(false);
        }
        match reply {
            Reply::Rows(rows) => Ok(says_supported(rows)),
            Reply::Failed(cause) => Err(ReadysetError::Query(cause.clone())),
            _ => Err(ReadysetError::NoAnswer),
        }
    }

    /// The statements that cache `query` on the instance, which stands at
    /// `place` in the router's list. Without a connection there is an error
    /// instead.
    pub fn cache_query(&self, place: usize, query: &Query) -> (r: Result<
        Vec<Statement>,
        ReadysetError,
    >)
        ensures
            self@.connected ==> r is Ok && r->Ok_0.deep_view() == cache_statements(place, query@),
            !self@.connected ==> r is Err && r->Err_0@ == ReadysetErrorView::NoConnection,
    {
        if !self.connected {
            return Err(ReadysetError::NoConnection);
        }
        let use_schema = Self::use_schema(place, query.get_schema().as_str());
        let mut text = String::from_str("CREATE CACHE d_");
        text.append(query.get_digest().as_str());
        text.append(" FROM ");
        text.append(query.get_digest_text().as_str());
        let create = Statement {
            target: Target::Readyset(place),
            kind: StatementKind::CreateCache,
            text,
        };
        let mut statements: Vec<Statement> = Vec::new();
        statements.push(use_schema);
        statements.push(create);
        assert(statements.deep_view() =~= cache_statements(place, query@));
        Ok(statements)
    }
}

} // verus!
