//! The router: the statements of its admin interface, the Readyset instances
//! it lists, the health sweep and the promotion of mirror rules.
use crate::clock::{instant_of, Moment, MomentView};
use crate::config::{Config, DatabaseType};
use crate::messages::{Message, MessageType, MessageView};
use crate::queries::{Query, QueryView};
use crate::readyset::{
    status_statement, ProxySQLStatus, Readyset, ReadysetError, ReadysetErrorView, ReadysetView,
};
use crate::sql_connection::{
    Command, CommandView, Outcome, OutcomeView, Reply, ReplyView, Statement, StatementKind,
    StatementView, Step, StepView, Target,
};
use crate::text::{
    after_token, contains, decimal, decimal_text, has, lowercase_of, parse_u16, second_piece,
    to_lowercase, trim, trimmed, u16_of,
};
use vstd::prelude::*;

verus! {

/// The words with which the comment of a rule in its mirror phase begins.
pub open spec fn mirror_token() -> Seq<char> {
    "Mirror by readyset scheduler at"@
}

/// The words with which the comment of a rule that routes traffic begins, or
/// goes on once the rule has left its mirror phase.
pub open spec fn destination_token() -> Seq<char> {
    "Added by readyset scheduler at"@
}

/// The prefix of the router's table names for a wire protocol.
pub open spec fn table_prefix(database_type: DatabaseType) -> Seq<char> {
    match database_type {
        DatabaseType::MySQL => "mysql"@,
        DatabaseType::PostgreSQL => "pgsql"@,
    }
}

/// The word for a wire protocol in the router's admin commands.
pub open spec fn admin_word(database_type: DatabaseType) -> Seq<char> {
    match database_type {
        DatabaseType::MySQL => "MYSQL"@,
        DatabaseType::PostgreSQL => "PGSQL"@,
    }
}

/// The prefix of the router's table names for a wire protocol.
pub fn mysql_pgsql(database_type: DatabaseType) -> (r: &'static str)
    ensures
        r@ == table_prefix(database_type),
{
    match database_type {
        DatabaseType::MySQL => "mysql",
        DatabaseType::PostgreSQL => "pgsql",
    }
}

/// The word for a wire protocol in the router's admin commands.
#[allow(nonstandard_style)]
pub fn MYSQL_PGSQL(database_type: DatabaseType) -> (r: &'static str)
    ensures
        r@ == admin_word(database_type),
{
    match database_type {
        DatabaseType::MySQL => "MYSQL",
        DatabaseType::PostgreSQL => "PGSQL",
    }
}

/// A statement for the router.
pub open spec fn router_statement(kind: StatementKind, text: Seq<char>) -> StatementView {
    StatementView { target: Target::Router, kind, text }
}

/// The query for the servers of a hostgroup that are not hard offline.
pub open spec fn servers_text(database_type: DatabaseType, hostgroup: u16) -> Seq<char> {
    "SELECT hostname, port, status, comment FROM "@ + table_prefix(database_type)
        + "_servers WHERE hostgroup_id = "@ + decimal(hostgroup as nat)
        + " AND status IN ('ONLINE', 'SHUNNED', 'OFFLINE_SOFT')"@
}

/// The statement that sets the state of one server, which its hostgroup,
/// host and port name.
pub open spec fn update_servers_text(
    database_type: DatabaseType,
    hostgroup: u16,
    hostname: Seq<char>,
    port: u16,
    status: ProxySQLStatus,
) -> Seq<char> {
    "UPDATE "@ + table_prefix(database_type) + "_servers SET status = '"@ + status.name()
        + "'\n                 WHERE hostgroup_id = "@ + decimal(hostgroup as nat)
        + " AND hostname = '"@ + hostname + "' AND port = "@ + decimal(port as nat)
}

/// The statement that puts the server table to use.
pub open spec fn load_servers_text(database_type: DatabaseType) -> Seq<char> {
    "LOAD "@ + admin_word(database_type) + " SERVERS TO RUNTIME"@
}

/// The statement that writes the server table to disk.
pub open spec fn save_servers_text(database_type: DatabaseType) -> Seq<char> {
    "SAVE "@ + admin_word(database_type) + " SERVERS TO DISK"@
}

/// The statement that puts the query rules to use.
pub open spec fn load_query_rules_text(database_type: DatabaseType) -> Seq<char> {
    "LOAD "@ + admin_word(database_type) + " QUERY RULES TO RUNTIME"@
}

/// The statement that writes the query rules to disk.
pub open spec fn save_query_rules_text(database_type: DatabaseType) -> Seq<char> {
    "SAVE "@ + admin_word(database_type) + " QUERY RULES TO DISK"@
}

/// The query for the digests of the rules that a scheduler wrote.
pub open spec fn routed_text(database_type: DatabaseType) -> Seq<char> {
    "SELECT digest FROM "@ + table_prefix(database_type) + "_query_rules WHERE comment LIKE '"@
        + mirror_token() + "%' OR comment LIKE '"@ + destination_token() + "%'"@
}

/// The query for the rules in their mirror phase.
pub open spec fn mirror_rules_text(database_type: DatabaseType) -> Seq<char> {
    "SELECT rule_id, comment FROM "@ + table_prefix(database_type)
        + "_query_rules WHERE comment LIKE '"@ + mirror_token() + ": ____-__-__ __:__:__';"@
}

/// The column that a new rule names its hostgroup in: with a warm-up the
/// rule mirrors traffic first, without one it routes it at once.
pub open spec fn rule_column(warmup_time_s: u16) -> Seq<char> {
    if warmup_time_s > 0 {
        "mirror_hostgroup"@
    } else {
        "destination_hostgroup"@
    }
}

/// The words with which the comment of a new rule begins.
pub open spec fn rule_token(warmup_time_s: u16) -> Seq<char> {
    if warmup_time_s > 0 {
        mirror_token()
    } else {
        destination_token()
    }
}

/// The statement that adds the rule for a query: for its user and digest, in
/// use and final, with a comment that says who wrote it and when.
pub open spec fn insert_rule_text(
    database_type: DatabaseType,
    hostgroup: u16,
    warmup_time_s: u16,
    query: QueryView,
    stamp: Seq<char>,
) -> Seq<char> {
    "INSERT INTO "@ + table_prefix(database_type) + "_query_rules (username, "@ + rule_column(
        warmup_time_s,
    ) + ", active, digest, apply, comment) VALUES ('"@ + query.user + "', "@ + decimal(
        hostgroup as nat,
    ) + ", 1, '"@ + query.digest + "', 1, '"@ + rule_token(warmup_time_s) + ": "@ + stamp + "')"@
}

/// The comment of a rule that leaves its mirror phase at `stamp`.
pub open spec fn promoted_comment(comment: Seq<char>, stamp: Seq<char>) -> Seq<char> {
    comment + "\n "@ + destination_token() + ": "@ + stamp
}

/// The statement that takes a rule out of its mirror phase.
pub open spec fn promote_text(
    database_type: DatabaseType,
    hostgroup: u16,
    rule_id: u16,
    comment: Seq<char>,
    stamp: Seq<char>,
) -> Seq<char> {
    "UPDATE "@ + table_prefix(database_type)
        + "_query_rules SET mirror_hostgroup = NULL, destination_hostgroup = "@ + decimal(
        hostgroup as nat,
    ) + ", comment = '"@ + promoted_comment(comment, stamp) + "' WHERE rule_id = "@ + decimal(
        rule_id as nat,
    )
}

/// When the mirror rule with this comment was written: the stamp that
/// follows the mirror token and a colon, read in the zone of `offset`.
pub open spec fn rule_written(comment: Seq<char>, offset: Seq<char>) -> Option<i64> {
    instant_of(trimmed(after_token(comment, mirror_token() + ":"@)), offset)
}

/// Whether a mirror rule written at `written` has had its warm-up at `now`:
/// more seconds have gone by than the warm-up lasts.
pub open spec fn warmed_up(now: i64, written: i64, warmup_time_s: u16) -> bool {
    now - written > warmup_time_s
}

/// Whether a mirror rule written at `written` has had its warm-up at `now`.
pub fn promotion_due(now: i64, written: i64, warmup_time_s: u16) -> (r: bool)
    ensures
        r == warmed_up(now, written, warmup_time_s),
{
    (now as i128) - (written as i128) > (warmup_time_s as i128)
}

/// Where the health sweep stands.
#[derive(Clone, Copy, Debug, PartialEq, Eq, Structural)]
pub enum SweepPhase {
    /// The sweep has not begun.
    Idle,
    /// An instance has been asked for its status.
    Probing,
    /// The changes to the server table have been sent.
    Applying,
    /// The sweep has ended.
    Finished,
}

/// The router as the scheduler knows it.
#[derive(Clone, Debug)]
pub struct ProxySQL {
    database_type: DatabaseType,
    readyset_hostgroup: u16,
    warmup_time_s: u16,
    readysets: Vec<Readyset>,
    dry_run: bool,
    phase: SweepPhase,
    intended: Vec<ProxySQLStatus>,
}

/// The router, with its texts as sequences of characters.
pub struct ProxySQLView {
    pub database_type: DatabaseType,
    /// The hostgroup of the Readyset instances.
    pub readyset_hostgroup: u16,
    /// For how many seconds a new rule mirrors traffic before it routes it.
    pub warmup_time_s: u16,
    /// The Readyset instances that the router lists, in the order of its
    /// list.
    pub readysets: Seq<ReadysetView>,
    /// Whether nothing is to be changed in the router or in Readyset.
    pub dry_run: bool,
    /// Where the health sweep stands.
    pub phase: SweepPhase,
    /// The state that the sweep means each instance to have, for those it
    /// has asked so far.
    pub intended: Seq<ProxySQLStatus>,
}

impl View for ProxySQL {
    type V = ProxySQLView;

    closed spec fn view(&self) -> ProxySQLView {
        ProxySQLView {
            database_type: self.database_type,
            readyset_hostgroup: self.readyset_hostgroup,
            warmup_time_s: self.warmup_time_s,
            readysets: self.readysets.deep_view(),
            dry_run: self.dry_run,
            phase: self.phase,
            intended: self.intended@,
        }
    }
}

/// A row of the router's server table.
#[derive(Clone, Debug)]
pub struct Server {
    pub hostname: String,
    pub port: u16,
    pub status: String,
}

/// A row of the router's server table, with its texts as sequences of
/// characters.
pub struct ServerView {
    pub hostname: Seq<char>,
    pub port: u16,
    pub status: Seq<char>,
}

impl View for Server {
    type V = ServerView;

    open spec fn view(&self) -> ServerView {
        ServerView { hostname: self.hostname@, port: self.port, status: self.status@ }
    }
}

impl DeepView for Server {
    type V = ServerView;

    open spec fn deep_view(&self) -> ServerView {
        self@
    }
}

/// Whether a row of the server query can be read: it has its four columns,
/// and its port is a number.
pub open spec fn server_row_readable(row: Seq<Seq<char>>) -> bool {
    row.len() >= 4 && u16_of(row[1]) is Some
}

/// The first row at or after `from` that cannot be read as a server.
pub open spec fn first_unreadable_server(rows: Seq<Seq<Seq<char>>>, from: int) -> Option<int>
    decreases rows.len() - from,
{
    if from < 0 || from >= rows.len() {
        None
    } else if !server_row_readable(rows[from]) {
        Some(from)
    } else {
        first_unreadable_server(rows, from + 1)
    }
}

/// Whether the comment of a server, once in lower case, says that the
/// server is a Readyset instance.
pub open spec fn names_readyset(lowered_comment: Seq<char>) -> bool {
    contains(lowered_comment, "readyset"@)
}

/// The Readyset instances among the first `upto` rows of the server query:
/// the rows whose comment names Readyset, whatever its case, in their order.
pub open spec fn readyset_rows(rows: Seq<Seq<Seq<char>>>, upto: int) -> Seq<ServerView>
    recommends
        0 <= upto <= rows.len(),
        first_unreadable_server(rows, 0) is None,
    decreases upto,
{
    if upto <= 0 {
        Seq::empty()
    } else {
        let row = rows[upto - 1];
        let before = readyset_rows(rows, upto - 1);
        if names_readyset(lowercase_of(row[3])) {
            before.push(
                ServerView { hostname: row[0], port: u16_of(row[1]).unwrap(), status: row[2] },
            )
        } else {
            before
        }
    }
}

/// The digests in the first `upto` rows of the query for routed digests: the
/// first column of each row that has one.
pub open spec fn routed_digests(rows: Seq<Seq<Seq<char>>>, upto: int) -> Seq<Seq<char>>
    recommends
        0 <= upto <= rows.len(),
    decreases upto,
{
    if upto <= 0 {
        Seq::empty()
    } else if rows[upto - 1].len() > 0 {
        routed_digests(rows, upto - 1).push(rows[upto - 1][0])
    } else {
        routed_digests(rows, upto - 1)
    }
}

/// The first instance at or after `from` that the router sends traffic to.
pub open spec fn first_online(readysets: Seq<ReadysetView>, from: int) -> Option<int>
    decreases readysets.len() - from,
{
    if from < 0 || from >= readysets.len() {
        None
    } else if readysets[from].proxysql_status == ProxySQLStatus::Online {
        Some(from)
    } else {
        first_online(readysets, from + 1)
    }
}

/// The places, among the first `upto` instances, of those that the router
/// sends traffic to.
pub open spec fn online_places(readysets: Seq<ReadysetView>, upto: int) -> Seq<usize>
    recommends
        0 <= upto <= readysets.len(),
    decreases upto,
{
    if upto <= 0 {
        Seq::empty()
    } else if readysets[upto - 1].proxysql_status == ProxySQLStatus::Online {
        online_places(readysets, upto - 1).push((upto - 1) as usize)
    } else {
        online_places(readysets, upto - 1)
    }
}

impl ProxySQLView {
    /// The statement that adds the rule for `query`, written at `stamp`.
    pub open spec fn rule_statement(self, query: QueryView, stamp: Seq<char>) -> StatementView {
        router_statement(
            StatementKind::Insert,
            insert_rule_text(
                self.database_type,
                self.readyset_hostgroup,
                self.warmup_time_s,
                query,
                stamp,
            ),
        )
    }

    /// The statement that sets the state of the instance at `place`.
    pub open spec fn status_update(self, place: int, status: ProxySQLStatus) -> StatementView {
        router_statement(
            StatementKind::Update,
            update_servers_text(
                self.database_type,
                self.readyset_hostgroup,
                self.readysets[place].hostname,
                self.readysets[place].port,
                status,
            ),
        )
    }

    /// The statement that puts the server table to use.
    pub open spec fn servers_load(self) -> StatementView {
        router_statement(StatementKind::Load, load_servers_text(self.database_type))
    }

    /// The statement that writes the server table to disk.
    pub open spec fn servers_save(self) -> StatementView {
        router_statement(StatementKind::Save, save_servers_text(self.database_type))
    }

    /// The statement that puts the query rules to use.
    pub open spec fn rules_load(self) -> StatementView {
        router_statement(StatementKind::Load, load_query_rules_text(self.database_type))
    }

    /// The statement that writes the query rules to disk.
    pub open spec fn rules_save(self) -> StatementView {
        router_statement(StatementKind::Save, save_query_rules_text(self.database_type))
    }

    /// The statement that takes a rule out of its mirror phase at `stamp`.
    pub open spec fn promotion(self, rule_id: u16, comment: Seq<char>, stamp: Seq<char>) -> StatementView {
        router_statement(
            StatementKind::Update,
            promote_text(self.database_type, self.readyset_hostgroup, rule_id, comment, stamp),
        )
    }
}

impl ProxySQLView {
    /// What the log says when an instance could not be asked for its status.
    pub open spec fn probe_failed(error: ReadysetErrorView) -> MessageView {
        MessageView {
            level: MessageType::Error,
            text: "Cannot check Readyset status: "@ + error.message() + "."@,
        }
    }

    /// What the log says when the instance at `place` changes its state.
    pub open spec fn transition(self, place: int) -> MessageView {
        MessageView {
            level: MessageType::Note,
            text: "Server HG: "@ + decimal(self.readyset_hostgroup as nat) + ", Host: "@
                + self.readysets[place].hostname + ", Port: "@ + decimal(
                self.readysets[place].port as nat,
            ) + " is currently "@ + self.readysets[place].proxysql_status.name()
                + " on ProxySQL and "@ + self.readysets[place].readyset_status.shout()
                + " on Readyset. Changing to "@ + self.intended[place].name(),
        }
    }

    /// What the log says when a change is left out because of a dry run.
    pub open spec fn skipped() -> MessageView {
        MessageView { level: MessageType::Info, text: "Dry run, skipping changes to ProxySQL"@ }
    }

    /// Whether the router keeps the instance at `place` in another state
    /// than the sweep means it to have.
    pub open spec fn differs(self, place: int) -> bool {
        self.readysets[place].proxysql_status != self.intended[place]
    }

    /// What the sweep sends for the instance at `place`: where its state
    /// changes and the run is not dry, the update of its row, then the
    /// server table is put to use and written to disk; else nothing.
    pub open spec fn writes_for(self, place: int) -> Seq<StatementView> {
        if self.differs(place) && !self.dry_run {
            seq![
                self.status_update(place, self.intended[place]),
                self.servers_load(),
                self.servers_save(),
            ]
        } else {
            Seq::empty()
        }
    }

    /// What the sweep logs for the instance at `place`.
    pub open spec fn messages_for(self, place: int) -> Seq<MessageView> {
        if !self.differs(place) {
            Seq::empty()
        } else if self.dry_run {
            seq![self.transition(place), Self::skipped()]
        } else {
            seq![self.transition(place)]
        }
    }

    /// What the sweep sends for the first `upto` instances.
    pub open spec fn status_writes(self, upto: int) -> Seq<StatementView>
        decreases upto,
    {
        if upto <= 0 {
            Seq::empty()
        } else {
            self.status_writes(upto - 1) + self.writes_for(upto - 1)
        }
    }

    /// What the sweep logs for the first `upto` instances.
    pub open spec fn status_messages(self, upto: int) -> Seq<MessageView>
        decreases upto,
    {
        if upto <= 0 {
            Seq::empty()
        } else {
            self.status_messages(upto - 1) + self.messages_for(upto - 1)
        }
    }

    /// The instances once each is recorded in the state that the sweep means
    /// it to have.
    pub open spec fn settled(self) -> Seq<ReadysetView> {
        Seq::new(
            self.readysets.len(),
            |i: int| ReadysetView { proxysql_status: self.intended[i], ..self.readysets[i] },
        )
    }

    /// The end of the sweep, once every instance has its intended state:
    /// the changes are logged and recorded, and sent unless there are none.
    pub open spec fn settle(self, messages: Seq<MessageView>) -> (ProxySQLView, StepView)
        recommends
            self.intended.len() == self.readysets.len(),
    {
        let writes = self.status_writes(self.readysets.len() as int);
        let logged = messages + self.status_messages(self.readysets.len() as int);
        if writes.len() > 0 {
            (
                ProxySQLView { readysets: self.settled(), phase: SweepPhase::Applying, ..self },
                StepView { messages: logged, command: CommandView::Execute(writes) },
            )
        } else {
            (
                ProxySQLView { readysets: self.settled(), phase: SweepPhase::Finished, ..self },
                StepView {
                    messages: logged,
                    command: CommandView::Finish(OutcomeView::Completed),
                },
            )
        }
    }

    /// The sweep from the first instance that has no intended state yet: an
    /// instance with a connection is asked for its status; one without is
    /// meant to be shunned, which is logged as an error, and the next is
    /// looked at. After the last instance the sweep settles.
    pub open spec fn ask(self, messages: Seq<MessageView>) -> (ProxySQLView, StepView)
        decreases self.readysets.len() - self.intended.len(),
    {
        let place = self.intended.len();
        if place >= self.readysets.len() {
            self.settle(messages)
        } else if self.readysets[place as int].connected {
            (
                ProxySQLView { phase: SweepPhase::Probing, ..self },
                StepView {
                    messages,
                    command: CommandView::Query(status_statement(place as usize)),
                },
            )
        } else {
            (ProxySQLView { intended: self.intended.push(ProxySQLStatus::Shunned), ..self }).ask(
                messages.push(Self::probe_failed(ReadysetErrorView::NoConnection)),
            )
        }
    }

    /// The sweep giving up, with the reason why.
    pub open spec fn give_up(self, reason: Seq<char>) -> (ProxySQLView, StepView) {
        (
            ProxySQLView { phase: SweepPhase::Finished, ..self },
            StepView {
                messages: Seq::empty(),
                command: CommandView::Finish(OutcomeView::Failed(reason)),
            },
        )
    }

    /// One step of the health sweep: where the sweep stands after `reply`,
    /// and what is logged and sent next.
    ///
    /// A sweep that has not begun, or has ended, begins. While instances are
    /// asked, the reply is the answer of the one asked last: the status it
    /// reports is remembered and decides its intended state; a failure is
    /// logged as an error and the instance is meant to be shunned. Once the
    /// changes have been sent, the reply says whether they were carried out.
    pub open spec fn sweep(self, reply: ReplyView) -> (ProxySQLView, StepView) {
        match self.phase {
            SweepPhase::Idle | SweepPhase::Finished => (ProxySQLView {
                intended: Seq::empty(),
                ..self
            }).ask(Seq::empty()),
            SweepPhase::Probing => {
                let place = self.intended.len() as int;
                if place >= self.readysets.len() {
                    self.give_up("Failed to check Readyset status: no instance was asked"@)
                } else {
                    match self.readysets[place].readiness(reply) {
                        Ok(status) => (ProxySQLView {
                            readysets: self.readysets.update(
                                place,
                                ReadysetView { readyset_status: status, ..self.readysets[place] },
                            ),
                            intended: self.intended.push(ProxySQLStatus::of_readyset(status)),
                            ..self
                        }).ask(Seq::empty()),
                        Err(error) => (ProxySQLView {
                            intended: self.intended.push(ProxySQLStatus::Shunned),
                            ..self
                        }).ask(seq![Self::probe_failed(error)]),
                    }
                }
            },
            SweepPhase::Applying => match reply {
                ReplyView::Done => (
                    ProxySQLView { phase: SweepPhase::Finished, ..self },
                    StepView {
                        messages: Seq::empty(),
                        command: CommandView::Finish(OutcomeView::Completed),
                    },
                ),
                ReplyView::Failed(cause) => self.give_up("Failed to update servers: "@ + cause),
                _ => self.give_up("Failed to update servers: the statements were not answered"@),
            },
        }
    }
}

/// Whether a row of the query for mirror rules can be read: it has its two
/// columns, its rule id is a number, and its comment holds a stamp that reads
/// as a time in the zone of `offset`.
pub open spec fn mirror_row_readable(row: Seq<Seq<char>>, offset: Seq<char>) -> bool {
    &&& row.len() >= 2
    &&& u16_of(row[0]) is Some
    &&& rule_written(row[1], offset) is Some
}

/// The first row at or after `from` that cannot be read as a mirror rule.
pub open spec fn first_unreadable_rule(
    rows: Seq<Seq<Seq<char>>>,
    offset: Seq<char>,
    from: int,
) -> Option<int>
    decreases rows.len() - from,
{
    if from < 0 || from >= rows.len() {
        None
    } else if !mirror_row_readable(rows[from], offset) {
        Some(from)
    } else {
        first_unreadable_rule(rows, offset, from + 1)
    }
}

/// A mirror rule that has had its warm-up, and the statement that takes it
/// out of its mirror phase.
#[derive(Clone, Debug)]
pub struct Promotion {
    pub rule_id: u16,
    pub statement: Statement,
}

/// A promotion, with its statement's text as a sequence of characters.
pub struct PromotionView {
    pub rule_id: u16,
    pub statement: StatementView,
}

impl View for Promotion {
    type V = PromotionView;

    open spec fn view(&self) -> PromotionView {
        PromotionView { rule_id: self.rule_id, statement: self.statement@ }
    }
}

impl DeepView for Promotion {
    type V = PromotionView;

    open spec fn deep_view(&self) -> PromotionView {
        self@
    }
}

impl ProxySQLView {
    /// Whether the mirror rule of `row` has had its warm-up at `now`.
    pub open spec fn due(self, row: Seq<Seq<char>>, now: MomentView) -> bool
        recommends
            mirror_row_readable(row, now.offset),
    {
        warmed_up(now.seconds, rule_written(row[1], now.offset).unwrap(), self.warmup_time_s)
    }

    /// The promotions among the first `upto` mirror rules: one for each rule
    /// that has had its warm-up at `now`, in the order of the rows. The new
    /// comment is the old one with a line that says when the rule began to
    /// route traffic.
    pub open spec fn promotions(
        self,
        rows: Seq<Seq<Seq<char>>>,
        now: MomentView,
        upto: int,
    ) -> Seq<PromotionView>
        recommends
            0 <= upto <= rows.len(),
            first_unreadable_rule(rows, now.offset, 0) is None,
        decreases upto,
    {
        if upto <= 0 {
            Seq::empty()
        } else {
            let row = rows[upto - 1];
            let before = self.promotions(rows, now, upto - 1);
            if self.due(row, now) {
                let rule_id = u16_of(row[0]).unwrap();
                before.push(
                    PromotionView {
                        rule_id,
                        statement: self.promotion(rule_id, row[1], now.stamp),
                    },
                )
            } else {
                before
            }
        }
    }

    /// What `adjust_mirror_rules` gives for the rows of the query for mirror
    /// rules: the place of the first row that cannot be read; else, in a dry
    /// run, nothing; else a promotion for every rule that has had its
    /// warm-up.
    pub open spec fn adjusted(self, rows: Seq<Seq<Seq<char>>>, now: MomentView) -> Result<
        Seq<PromotionView>,
        usize,
    > {
        match first_unreadable_rule(rows, now.offset, 0) {
            Some(place) => Err(place as usize),
            None => if self.dry_run {
                Ok(Seq::empty())
            } else {
                Ok(self.promotions(rows, now, rows.len() as int))
            },
        }
    }
}

impl ProxySQL {
    /// The query for the servers of the Readyset hostgroup that are not hard
    /// offline.
    pub fn servers_query(config: &Config) -> (r: Statement)
        ensures
            r@ == router_statement(
                StatementKind::Select,
                servers_text(config.database_type, config.readyset_hostgroup),
            ),
    {
        let mut text = String::from_str("SELECT hostname, port, status, comment FROM ");
        text.append(mysql_pgsql(config.database_type));
        text.append("_servers WHERE hostgroup_id = ");
        text.append(decimal_text(config.readyset_hostgroup as u64).as_str());
        text.append(" AND status IN ('ONLINE', 'SHUNNED', 'OFFLINE_SOFT')");
        Statement { target: Target::Router, kind: StatementKind::Select, text }
    }

    /// Whether the comment of a server, once in lower case, says that the
    /// server is a Readyset instance.
    pub fn comment_names_readyset(lowered_comment: &str) -> (r: bool)
        ensures
            r == names_readyset(lowered_comment@),
    {
        has(lowered_comment, "readyset")
    }

    /// The Readyset instances among the rows of the server query: those
    /// whose comment names Readyset, in their order. Where a row cannot be
    /// read, the place of the first such row is the error.
    pub fn readyset_servers(rows: &Vec<Vec<String>>) -> (r: Result<Vec<Server>, usize>)
        ensures
            match first_unreadable_server(rows.deep_view(), 0) {
                None => r is Ok && r->Ok_0.deep_view() == readyset_rows(
                    rows.deep_view(),
                    rows.len() as int,
                ),
                Some(place) => r == Err::<Vec<Server>, usize>(place as usize),
            },
    {
        let mut servers: Vec<Server> = Vec::new();
        let mut i: usize = 0;
        while i < rows.len()
            invariant
                i <= rows.len(),
                first_unreadable_server(rows.deep_view(), 0) == first_unreadable_server(
                    rows.deep_view(),
                    i as int,
                ),
                servers.deep_view() == readyset_rows(rows.deep_view(), i as int),
            decreases rows.len() - i,
        {
            let row = &rows[i];
            assert(rows.deep_view()[i as int] == row.deep_view());
            if row.len() < 4 {
                return Err(i);
            }
            assert(row.deep_view()[0] == row[0]@);
            assert(row.deep_view()[1] == row[1]@);
            assert(row.deep_view()[2] == row[2]@);
            assert(row.deep_view()[3] == row[3]@);
            let port = match parse_u16(row[1].as_str()) {
                Some(port) => port,
                None => {
                    return Err(i);
                },
            };
            let lowered = to_lowercase(row[3].as_str());
            if Self::comment_names_readyset(lowered.as_str()) {
                let server = Server { hostname: row[0].clone(), port, status: row[2].clone() };
                let ghost before = servers.deep_view();
                servers.push(server);
                assert(servers.deep_view() =~= before.push(server@));
            }
            i += 1;
        }
        Ok(servers)
    }

    /// The router of `config` with the Readyset instances that it lists.
    /// With `dry_run`, nothing is to be changed in the router or in
    /// Readyset.
    pub fn new(config: &Config, dry_run: bool, readysets: Vec<Readyset>) -> (r: ProxySQL)
        ensures
            r@ == (ProxySQLView {
                database_type: config.database_type,
                readyset_hostgroup: config.readyset_hostgroup,
                warmup_time_s: config.warmup_time_s,
                readysets: readysets.deep_view(),
                dry_run,
                phase: SweepPhase::Idle,
                intended: Seq::empty(),
            }),
    {
        ProxySQL {
            database_type: config.database_type,
            readyset_hostgroup: config.readyset_hostgroup,
            warmup_time_s: config.warmup_time_s,
            readysets,
            dry_run,
            phase: SweepPhase::Idle,
            intended: Vec::new(),
        }
    }

    /// Whether nothing is to be changed in the router or in Readyset.
    pub fn dry_run(&self) -> (r: bool)
        ensures
            r == self@.dry_run,
    {
        self.dry_run
    }

    /// For how many seconds a new rule mirrors traffic before it routes it.
    pub fn warmup_time_s(&self) -> (r: u16)
        ensures
            r == self@.warmup_time_s,
    {
        self.warmup_time_s
    }

    /// The Readyset instances that the router lists.
    pub fn readysets(&self) -> (r: &Vec<Readyset>)
        ensures
            r.deep_view() == self@.readysets,
    {
        &self.readysets
    }

    /// The statement that adds the rule for `query`. With a warm-up the
    /// rule mirrors traffic to the Readyset hostgroup, without one it routes
    /// traffic there. `date_formatted` is the local time of now.
    pub fn add_as_query_rule(&self, query: &Query, date_formatted: &str) -> (r: Statement)
        ensures
            r@ == self@.rule_statement(query@, date_formatted@),
    {
        let mut text = String::from_str("INSERT INTO ");
        text.append(mysql_pgsql(self.database_type));
        text.append("_query_rules (username, ");
        if self.warmup_time_s > 0 {
            text.append("mirror_hostgroup");
        } else {
            text.append("destination_hostgroup");
        }
        text.append(", active, digest, apply, comment) VALUES ('");
        text.append(query.get_user().as_str());
        text.append("', ");
        text.append(decimal_text(self.readyset_hostgroup as u64).as_str());
        text.append(", 1, '");
        text.append(query.get_digest().as_str());
        text.append("', 1, '");
        if self.warmup_time_s > 0 {
            text.append("Mirror by readyset scheduler at");
        } else {
            text.append("Added by readyset scheduler at");
        }
        text.append(": ");
        text.append(date_formatted);
        text.append("')");
        Statement { target: Target::Router, kind: StatementKind::Insert, text }
    }

    /// The statement that puts the query rules to use.
    pub fn load_query_rules(&self) -> (r: Statement)
        ensures
            r@ == self@.rules_load(),
    {
        let mut text = String::from_str("LOAD ");
        text.append(MYSQL_PGSQL(self.database_type));
        text.append(" QUERY RULES TO RUNTIME");
        Statement { target: Target::Router, kind: StatementKind::Load, text }
    }

    /// The statement that writes the query rules to disk.
    pub fn save_query_rules(&self) -> (r: Statement)
        ensures
            r@ == self@.rules_save(),
    {
        let mut text = String::from_str("SAVE ");
        text.append(MYSQL_PGSQL(self.database_type));
        text.append(" QUERY RULES TO DISK");
        Statement { target: Target::Router, kind: StatementKind::Save, text }
    }

    /// The statement that sets the state of the server that `hostgroup`,
    /// `hostname` and `port` name.
    pub fn update_servers(
        &self,
        hostgroup: u16,
        hostname: &str,
        port: u16,
        new_status: ProxySQLStatus,
    ) -> (r: Statement)
        ensures
            r@ == router_statement(
                StatementKind::Update,
                update_servers_text(self@.database_type, hostgroup, hostname@, port, new_status),
            ),
    {
        let mut text = String::from_str("UPDATE ");
        text.append(mysql_pgsql(self.database_type));
        text.append("_servers SET status = '");
        text.append(new_status.as_str());
        text.append("'\n                 WHERE hostgroup_id = ");
        text.append(decimal_text(hostgroup as u64).as_str());
        text.append(" AND hostname = '");
        text.append(hostname);
        text.append("' AND port = ");
        text.append(decimal_text(port as u64).as_str());
        Statement { target: Target::Router, kind: StatementKind::Update, text }
    }

    /// The statement that puts the server table to use.
    pub fn load_servers(&self) -> (r: Statement)
        ensures
            r@ == self@.servers_load(),
    {
        let mut text = String::from_str("LOAD ");
        text.append(MYSQL_PGSQL(self.database_type));
        text.append(" SERVERS TO RUNTIME");
        Statement { target: Target::Router, kind: StatementKind::Load, text }
    }

    /// The statement that writes the server table to disk.
    pub fn save_servers(&self) -> (r: Statement)
        ensures
            r@ == self@.servers_save(),
    {
        let mut text = String::from_str("SAVE ");
        text.append(MYSQL_PGSQL(self.database_type));
        text.append(" SERVERS TO DISK");
        Statement { target: Target::Router, kind: StatementKind::Save, text }
    }

    /// The query for the digests of the rules that a scheduler wrote,
    /// whether they mirror traffic or route it.
    pub fn routed_query(&self) -> (r: Statement)
        ensures
            r@ == router_statement(StatementKind::Select, routed_text(self@.database_type)),
    {
        let mut text = String::from_str("SELECT digest FROM ");
        text.append(mysql_pgsql(self.database_type));
        text.append("_query_rules WHERE comment LIKE '");
        text.append("Mirror by readyset scheduler at");
        text.append("%' OR comment LIKE '");
        text.append("Added by readyset scheduler at");
        text.append("%'");
        Statement { target: Target::Router, kind: StatementKind::Select, text }
    }

    /// The digests that are routed to Readyset already, as the rows of
    /// `routed_query` give them: the first column of each row that has one.
    pub fn find_queries_routed_to_readyset(&self, rows: &Vec<Vec<String>>) -> (r: Vec<String>)
        ensures
            r.deep_view() == routed_digests(rows.deep_view(), rows.len() as int),
    {
        let mut digests: Vec<String> = Vec::new();
        let mut i: usize = 0;
        while i < rows.len()
            invariant
                i <= rows.len(),
                digests.deep_view() == routed_digests(rows.deep_view(), i as int),
            decreases rows.len() - i,
        {
            let row = &rows[i];
            assert(rows.deep_view()[i as int] == row.deep_view());
            if row.len() > 0 {
                assert(row.deep_view()[0] == row[0]@);
                let ghost before = digests.deep_view();
                digests.push(row[0].clone());
                assert(digests.deep_view() =~= before.push(row[0]@));
            }
            i += 1;
        }
        digests
    }

    /// The query for the rules in their mirror phase.
    pub fn mirror_rules_query(&self) -> (r: Statement)
        ensures
            r@ == router_statement(StatementKind::Select, mirror_rules_text(self@.database_type)),
    {
        let mut text = String::from_str("SELECT rule_id, comment FROM ");
        text.append(mysql_pgsql(self.database_type));
        text.append("_query_rules WHERE comment LIKE '");
        text.append("Mirror by readyset scheduler at");
        text.append(": ____-__-__ __:__:__';");
        Statement { target: Target::Router, kind: StatementKind::Select, text }
    }
}

impl ProxySQL {
    fn probe_failed_message(error: &ReadysetError) -> (r: Message)
        ensures
            r@ == ProxySQLView::probe_failed(error@),
    {
        let mut text = String::from_str("Cannot check Readyset status: ");
        text.append(error.to_string().as_str());
        text.append(".");
        Message { level: MessageType::Error, text }
    }

    fn transition_message(&self, place: usize) -> (r: Message)
        requires
            place < self@.readysets.len(),
            place < self@.intended.len(),
        ensures
            r@ == self@.transition(place as int),
    {
        let readyset = &self.readysets[place];
        assert(self.readysets.deep_view()[place as int] == readyset@);
        let mut text = String::from_str("Server HG: ");
        text.append(decimal_text(self.readyset_hostgroup as u64).as_str());
        text.append(", Host: ");
        text.append(readyset.get_hostname().as_str());
        text.append(", Port: ");
        text.append(decimal_text(readyset.get_port() as u64).as_str());
        text.append(" is currently ");
        text.append(readyset.get_proxysql_status().as_str());
        text.append(" on ProxySQL and ");
        text.append(readyset.get_readyset_status().as_capitals());
        text.append(" on Readyset. Changing to ");
        text.append(self.intended[place].as_str());
        Message { level: MessageType::Note, text }
    }

    fn give_up(&mut self, reason: String) -> (step: Step)
        ensures
            (final(self)@, step@) == old(self)@.give_up(reason@),
    {
        self.phase = SweepPhase::Finished;
        let step = Step { messages: Vec::new(), command: Command::Finish(Outcome::Failed(reason)) };
        assert(step.messages.deep_view() =~= Seq::empty());
        step
    }

    fn settle(&mut self, messages: Vec<Message>) -> (step: Step)
        requires
            old(self)@.intended.len() == old(self)@.readysets.len(),
        ensures
            (final(self)@, step@) == old(self)@.settle(messages.deep_view()),
    {
        let ghost start = self@;
        let ghost given = messages.deep_view();
        let mut log = messages;
        let mut writes: Vec<Statement> = Vec::new();
        let count: usize = self.readysets.len();
        let mut place: usize = 0;
        while place < count
            invariant
                place <= count,
                count == start.readysets.len(),
                start == old(self)@,
                given == messages.deep_view(),
                start.intended.len() == count,
                self.readysets.len() == count,
                self@ == (ProxySQLView { readysets: self@.readysets, ..start }),
                forall|i: int| 0 <= i < place ==> self@.readysets[i] == start.settled()[i],
                forall|i: int| place <= i < count ==> self@.readysets[i] == start.readysets[i],
                writes.deep_view() == start.status_writes(place as int),
                log.deep_view() == given + start.status_messages(place as int),
            decreases count - place,
        {
            let ghost before = self@;
            let ghost logged = log.deep_view();
            let ghost sent = writes.deep_view();
            let intended = self.intended[place];
            assert(self.readysets.deep_view()[place as int] == self.readysets[place as int]@);
            let current = self.readysets[place].get_proxysql_status();
            if current != intended {
                let note = self.transition_message(place);
                assert(note@ == start.transition(place as int));
                if self.dry_run {
                    let skipped = Message {
                        level: MessageType::Info,
                        text: String::from_str("Dry run, skipping changes to ProxySQL"),
                    };
                    log.push(note);
                    log.push(skipped);
                    assert(log.deep_view() =~= logged + start.messages_for(place as int));
                    assert(writes.deep_view() =~= sent + start.writes_for(place as int));
                } else {
                    let update = self.update_servers(
                        self.readyset_hostgroup,
                        self.readysets[place].get_hostname().as_str(),
                        self.readysets[place].get_port(),
                        intended,
                    );
                    let load = self.load_servers();
                    let save = self.save_servers();
                    log.push(note);
                    writes.push(update);
                    writes.push(load);
                    writes.push(save);
                    assert(log.deep_view() =~= logged + start.messages_for(place as int));
                    assert(writes.deep_view() =~= sent + start.writes_for(place as int));
                }
                self.readysets[place].change_proxysql_status(intended);
            } else {
                assert(log.deep_view() =~= logged + start.messages_for(place as int));
                assert(writes.deep_view() =~= sent + start.writes_for(place as int));
            }
            assert(self.readysets[place as int]@ == start.settled()[place as int]);
            assert forall|j: int| 0 <= j < count && j != place implies self.readysets.deep_view()[j]
                == before.readysets[j] by {
                assert(self.readysets.deep_view()[j] == self.readysets[j]@);
            }
            assert(given + start.status_messages(place as int) + start.messages_for(place as int)
                =~= given + start.status_messages(place + 1));
            place += 1;
        }
        assert(self.readysets.deep_view() =~= start.settled());
        if writes.len() > 0 {
            self.phase = SweepPhase::Applying;
            Step { messages: log, command: Command::Execute(writes) }
        } else {
            self.phase = SweepPhase::Finished;
            Step { messages: log, command: Command::Finish(Outcome::Completed) }
        }
    }

    fn ask(&mut self, messages: Vec<Message>) -> (step: Step)
        requires
            old(self)@.intended.len() <= old(self)@.readysets.len(),
        ensures
            (final(self)@, step@) == old(self)@.ask(messages.deep_view()),
    {
        let ghost start = self@;
        let ghost given = messages.deep_view();
        let mut log = messages;
        loop
            invariant
                start == old(self)@,
                given == messages.deep_view(),
                self@.intended.len() <= self@.readysets.len(),
                self@.ask(log.deep_view()) == start.ask(given),
            decreases self@.readysets.len() - self@.intended.len(),
        {
            let ghost before = self@;
            let ghost logged = log.deep_view();
            let place: usize = self.intended.len();
            assert(before.intended.len() == place);
            assert(before.readysets.len() == self.readysets.len());
            if place >= self.readysets.len() {
                assert(before.ask(logged) == before.settle(logged));
                return self.settle(log);
            }
            assert(self.readysets.deep_view()[place as int] == self.readysets[place as int]@);
            if self.readysets[place].is_connected() {
                self.phase = SweepPhase::Probing;
                let step = Step {
                    messages: log,
                    command: Command::Query(Readyset::status_query(place)),
                };
                assert(before.ask(logged) == (self@, step@));
                return step;
            }
            self.intended.push(ProxySQLStatus::Shunned);
            log.push(Self::probe_failed_message(&ReadysetError::NoConnection));
            assert(log.deep_view() =~= logged.push(
                ProxySQLView::probe_failed(ReadysetErrorView::NoConnection),
            ));
        }
    }

    /// One step of the health sweep. `reply` is what came back for the
    /// command of the step before, or `Reply::Start` for the first step.
    ///
    /// Every instance is asked for its status. One that reports a status is
    /// meant to have the state that goes with it; one that cannot be asked,
    /// or fails to answer, is meant to be shunned, and the failure is logged
    /// as an error. Then each instance whose state in the router differs from
    /// the intended one is recorded in its new state, which is logged; and
    /// unless the run is dry its row is updated and the server table is put
    /// to use and written to disk. An instance that is in its intended state
    /// already costs the router nothing.
    pub fn health_check(&mut self, reply: &Reply) -> (step: Step)
        ensures
            (final(self)@, step@) == old(self)@.sweep(reply@),
    {
        match self.phase {
            SweepPhase::Idle | SweepPhase::Finished => {
                self.intended = Vec::new();
                let messages: Vec<Message> = Vec::new();
                assert(messages.deep_view() =~= Seq::empty());
                self.ask(messages)
            },
            SweepPhase::Probing => {
                let place: usize = self.intended.len();
                if place >= self.readysets.len() {
                    return self.give_up(
                        String::from_str("Failed to check Readyset status: no instance was asked"),
                    );
                }
                assert(self.readysets.deep_view()[place as int] == self.readysets[place as int]@);
                let ghost before = self.readysets.deep_view();
                match self.readysets[place].check_readyset_is_ready(reply) {
                    Ok(status) => {
                        assert(self.readysets.deep_view() =~= before.update(
                            place as int,
                            self.readysets[place as int]@,
                        ));
                        self.intended.push(status);
                        let messages: Vec<Message> = Vec::new();
                        assert(messages.deep_view() =~= Seq::empty());
                        self.ask(messages)
                    },
                    Err(error) => {
                        assert(self.readysets.deep_view() =~= before);
                        self.intended.push(ProxySQLStatus::Shunned);
                        let mut messages: Vec<Message> = Vec::new();
                        messages.push(Self::probe_failed_message(&error));
                        assert(messages.deep_view() =~= seq![ProxySQLView::probe_failed(error@)]);
                        self.ask(messages)
                    },
                }
            },
            SweepPhase::Applying => {
                match reply {
                    Reply::Done => {
                        self.phase = SweepPhase::Finished;
                        let step = Step {
                            messages: Vec::new(),
                            command: Command::Finish(Outcome::Completed),
                        };
                        assert(step.messages.deep_view() =~= Seq::empty());
                        step
                    },
                    Reply::Failed(cause) => {
                        let mut reason = String::from_str("Failed to update servers: ");
                        reason.append(cause.as_str());
                        self.give_up(reason)
                    },
                    _ => self.give_up(
                        String::from_str(
                            "Failed to update servers: the statements were not answered",
                        ),
                    ),
                }
            },
        }
    }
}

impl ProxySQL {
    /// When the mirror rule with this comment was written, in seconds since
    /// the Unix epoch: the stamp that follows the mirror token and a colon is
    /// read in the zone of `offset`. `None` where there is no such stamp.
    pub fn rule_written_at(comment: &str, offset: &str) -> (r: Option<i64>)
        ensures
            r == rule_written(comment@, offset@),
    {
        proof {
            reveal_strlit("Mirror by readyset scheduler at:");
            reveal_strlit("Mirror by readyset scheduler at");
            reveal_strlit(":");
            assert("Mirror by readyset scheduler at:"@ =~= mirror_token() + ":"@);
        }
        let stamp = trim(second_piece(comment, "Mirror by readyset scheduler at:"));
        Moment::instant(stamp, offset)
    }

    /// The statement that takes the rule `rule_id` out of its mirror phase:
    /// it routes traffic to the Readyset hostgroup from now on, and its
    /// comment gains a line that says since when.
    pub fn promote_rule(&self, rule_id: u16, comment: &str, date_formatted: &str) -> (r: Statement)
        ensures
            r@ == self@.promotion(rule_id, comment@, date_formatted@),
    {
        let mut new_comment = String::from_str(comment);
        new_comment.append("\n ");
        new_comment.append("Added by readyset scheduler at");
        new_comment.append(": ");
        new_comment.append(date_formatted);
        let mut text = String::from_str("UPDATE ");
        text.append(mysql_pgsql(self.database_type));
        text.append("_query_rules SET mirror_hostgroup = NULL, destination_hostgroup = ");
        text.append(decimal_text(self.readyset_hostgroup as u64).as_str());
        text.append(", comment = '");
        text.append(new_comment.as_str());
        text.append("' WHERE rule_id = ");
        text.append(decimal_text(rule_id as u64).as_str());
        Statement { target: Target::Router, kind: StatementKind::Update, text }
    }

    /// Looks through the rules in their mirror phase, as the rows of
    /// `mirror_rules_query` give them, and gives a promotion for each rule
    /// that was written more than the warm-up time before `now`. A rule
    /// whose warm-up has not passed is left as it is, and in a dry run all
    /// are. Where a row cannot be read, the place of the first such row is
    /// the error. A rule was changed if and only if there is a promotion.
    pub fn adjust_mirror_rules(&self, rows: &Vec<Vec<String>>, now: &Moment) -> (r: Result<
        Vec<Promotion>,
        usize,
    >)
        ensures
            match self@.adjusted(rows.deep_view(), now@) {
                Ok(promotions) => r is Ok && r->Ok_0.deep_view() == promotions,
                Err(place) => r == Err::<Vec<Promotion>, usize>(place),
            },
    {
        let mut promotions: Vec<Promotion> = Vec::new();
        let mut i: usize = 0;
        while i < rows.len()
            invariant
                i <= rows.len(),
                first_unreadable_rule(rows.deep_view(), now@.offset, 0) == first_unreadable_rule(
                    rows.deep_view(),
                    now@.offset,
                    i as int,
                ),
                promotions.deep_view() == if self@.dry_run {
                    Seq::empty()
                } else {
                    self@.promotions(rows.deep_view(), now@, i as int)
                },
            decreases rows.len() - i,
        {
            let row = &rows[i];
            assert(rows.deep_view()[i as int] == row.deep_view());
            if row.len() < 2 {
                return Err(i);
            }
            assert(row.deep_view()[0] == row[0]@);
            assert(row.deep_view()[1] == row[1]@);
            let rule_id = match parse_u16(row[0].as_str()) {
                Some(rule_id) => rule_id,
                None => {
                    return Err(i);
                },
            };
            let written = match Self::rule_written_at(row[1].as_str(), now.offset.as_str()) {
                Some(written) => written,
                None => {
                    return Err(i);
                },
            };
            if !self.dry_run && promotion_due(now.seconds, written, self.warmup_time_s) {
                let statement = self.promote_rule(rule_id, row[1].as_str(), now.stamp.as_str());
                let promotion = Promotion { rule_id, statement };
                let ghost before = promotions.deep_view();
                promotions.push(promotion);
                assert(promotions.deep_view() =~= before.push(promotion@));
            }
            i += 1;
        }
        Ok(promotions)
    }

    /// How many Readyset instances the router sends traffic to, or the
    /// largest number that the result holds where there are more.
    pub fn number_of_online_readyset_instances(&self) -> (r: u16)
        ensures
            r == if online_places(self@.readysets, self@.readysets.len() as int).len() > u16::MAX {
                u16::MAX as int
            } else {
                online_places(self@.readysets, self@.readysets.len() as int).len() as int
            },
    {
        let places = self.online_readyset_places();
        if places.len() > 65535 {
            65535
        } else {
            places.len() as u16
        }
    }

    /// The place of the first Readyset instance that the router sends
    /// traffic to.
    pub fn first_online_readyset_place(&self) -> (r: Option<usize>)
        ensures
            match r {
                Some(place) => first_online(self@.readysets, 0) == Some(place as int) && place
                    < self@.readysets.len(),
                None => first_online(self@.readysets, 0) is None,
            },
    {
        let mut i: usize = 0;
        while i < self.readysets.len()
            invariant
                i <= self.readysets.len(),
                first_online(self@.readysets, 0) == first_online(self@.readysets, i as int),
            decreases self.readysets.len() - i,
        {
            assert(self.readysets.deep_view()[i as int] == self.readysets[i as int]@);
            if self.readysets[i].is_proxysql_online() {
                return Some(i);
            }
            i += 1;
        }
        None
    }

    /// The places of the Readyset instances that the router sends traffic
    /// to, in the order of the router's list.
    pub fn online_readyset_places(&self) -> (r: Vec<usize>)
        ensures
            r@ == online_places(self@.readysets, self@.readysets.len() as int),
    {
        let mut places: Vec<usize> = Vec::new();
        let mut i: usize = 0;
        while i < self.readysets.len()
            invariant
                i <= self.readysets.len(),
                places@ == online_places(self@.readysets, i as int),
            decreases self.readysets.len() - i,
        {
            assert(self.readysets.deep_view()[i as int] == self.readysets[i as int]@);
            if self.readysets[i].is_proxysql_online() {
                places.push(i);
            }
            i += 1;
        }
        places
    }

    /// The first Readyset instance that the router sends traffic to.
    pub fn get_first_online_readyset(&self) -> (r: Option<&Readyset>)
        ensures
            match first_online(self@.readysets, 0) {
                Some(place) => r is Some && r->Some_0@ == self@.readysets[place],
                None => r is None,
            },
    {
        match self.first_online_readyset_place() {
            Some(place) => {
                assert(self.readysets.deep_view()[place as int] == self.readysets[place as int]@);
                Some(&self.readysets[place])
            },
            None => None,
        }
    }

    /// The Readyset instances that the router sends traffic to, in the order
    /// of the router's list.
    pub fn get_online_readyset_instances(&self) -> (r: Vec<&Readyset>)
        ensures
            r.len() == online_places(self@.readysets, self@.readysets.len() as int).len(),
            forall|k: int|
                0 <= k < r.len() ==> (#[trigger] r[k])@ == self@.readysets[online_places(
                    self@.readysets,
                    self@.readysets.len() as int,
                )[k] as int],
    {
        let places = self.online_readyset_places();
        proof {
            assert(self@.readysets.len() == self.readysets.len());
            lemma_online_places_in_range(self@.readysets, self@.readysets.len() as int);
        }
        let mut instances: Vec<&Readyset> = Vec::new();
        let mut k: usize = 0;
        while k < places.len()
            invariant
                k <= places.len(),
                instances.len() == k,
                places@ == online_places(self@.readysets, self@.readysets.len() as int),
                forall|j: int| 0 <= j < places.len() ==> (#[trigger] places[j]) < self@.readysets.len(),
                forall|j: int|
                    0 <= j < k ==> (#[trigger] instances[j])@ == self@.readysets[places[j] as int],
            decreases places.len() - k,
        {
            let place = places[k];
            assert(self.readysets.deep_view()[place as int] == self.readysets[place as int]@);
            instances.push(&self.readysets[place]);
            k += 1;
        }
        instances
    }
}

/// Every place that `online_places` lists is the place of an instance that
/// the router sends traffic to, and every such place among the first `upto`
/// is listed.
pub proof fn lemma_online_places_in_range(readysets: Seq<ReadysetView>, upto: int)
    requires
        0 <= upto <= readysets.len(),
        upto <= usize::MAX,
    ensures
        forall|k: int|
            0 <= k < online_places(readysets, upto).len() ==> (#[trigger] online_places(
                readysets,
                upto,
            )[k]) < upto && readysets[online_places(readysets, upto)[k] as int].proxysql_status
                == ProxySQLStatus::Online,
        forall|place: int|
            0 <= place < upto && (#[trigger] readysets[place]).proxysql_status
                == ProxySQLStatus::Online ==> online_places(readysets, upto).contains(
                place as usize,
            ),
    decreases upto,
{
    if upto > 0 {
        lemma_online_places_in_range(readysets, upto - 1);
        let before = online_places(readysets, upto - 1);
        let all = online_places(readysets, upto);
        assert forall|k: int| 0 <= k < all.len() implies (#[trigger] all[k]) < upto
            && readysets[all[k] as int].proxysql_status == ProxySQLStatus::Online by {
            if k < before.len() {
                assert(all[k] == before[k]);
            }
        }
        assert forall|place: int|
            0 <= place < upto && (#[trigger] readysets[place]).proxysql_status
                == ProxySQLStatus::Online implies all.contains(place as usize) by {
            if place < upto - 1 {
                assert(before.contains(place as usize));
                let k = choose|k: int| 0 <= k < before.len() && before[k] == place as usize;
                assert(all[k] == place as usize);
            } else {
                assert(all[all.len() - 1] == place as usize);
            }
        }
    }
}

} // verus!
