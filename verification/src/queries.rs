//! Query discovery: which of the queries that pass through the router are
//! worth caching, and the steps that cache and route them.
use crate::clock::{Moment, MomentView};
use crate::config::{Config, QueryDiscoveryMode};
use crate::messages::{Message, MessageType, MessageView};
use crate::proxysql::{
    first_online, routed_digests, Promotion, PromotionView, ProxySQL, ProxySQLView,
};
use crate::readyset::{
    cache_statements, explain_statement, use_statement, ProxySQLStatus, Readyset, ReadysetError,
    ReadysetErrorView, ReadysetView,
};
use crate::sql_connection::{
    Command, CommandView, Outcome, OutcomeView, Reply, ReplyView, Statement, StatementKind,
    StatementView, Step, StepView, Target,
};
use crate::text::{decimal, decimal_text, replace, replace_all, same_text};
use vstd::prelude::*;

verus! {

/// A query that is a candidate for caching.
#[derive(Clone, Debug)]
pub struct Query {
    digest_text: String,
    digest: String,
    schema: String,
    user: String,
}

/// A candidate, with its texts as sequences of characters.
pub struct QueryView {
    /// The text of the query, with placeholders for its values.
    pub digest_text: Seq<char>,
    /// The fingerprint by which the router knows the query.
    pub digest: Seq<char>,
    /// The schema that the query ran in.
    pub schema: Seq<char>,
    /// The user that ran the query.
    pub user: Seq<char>,
}

impl View for Query {
    type V = QueryView;

    closed spec fn view(&self) -> QueryView {
        QueryView {
            digest_text: self.digest_text@,
            digest: self.digest@,
            schema: self.schema@,
            user: self.user@,
        }
    }
}

impl DeepView for Query {
    type V = QueryView;

    open spec fn deep_view(&self) -> QueryView {
        self@
    }
}

impl Query {
    /// A candidate made of its four texts.
    pub fn new(digest_text: String, digest: String, schema: String, user: String) -> (r: Query)
        ensures
            r@ == (QueryView {
                digest_text: digest_text@,
                digest: digest@,
                schema: schema@,
                user: user@,
            }),
    {
        Query { digest_text, digest, schema, user }
    }

    /// The text of the query, with placeholders for its values.
    pub fn get_digest_text(&self) -> (r: &String)
        ensures
            r@ == self@.digest_text,
    {
        &self.digest_text
    }

    /// The fingerprint by which the router knows the query.
    pub fn get_digest(&self) -> (r: &String)
        ensures
            r@ == self@.digest,
    {
        &self.digest
    }

    /// The schema that the query ran in.
    pub fn get_schema(&self) -> (r: &String)
        ensures
            r@ == self@.schema,
    {
        &self.schema
    }

    /// The user that ran the query.
    pub fn get_user(&self) -> (r: &String)
        ensures
            r@ == self@.user,
    {
        &self.user
    }
}

/// A digest text as Readyset is shown it: a list of placeholders that the
/// router cut short stands as three placeholders, and the placeholders of a
/// date stand as one.
pub open spec fn normalised(text: Seq<char>) -> Seq<char> {
    replace_all(replace_all(text, "?,?,?,..."@, "?,?,?"@), "?-?-?"@, "?"@)
}

/// The figure by which a mode ranks the queries, as the router's statistics
/// name it. The external mode has none.
pub open spec fn ranking(mode: QueryDiscoveryMode) -> Option<Seq<char>> {
    match mode {
        QueryDiscoveryMode::CountStar => Some("s.count_star"@),
        QueryDiscoveryMode::SumTime => Some("s.sum_time"@),
        QueryDiscoveryMode::SumRowsSent => Some("s.sum_rows_sent"@),
        QueryDiscoveryMode::MeanTime => Some("(s.sum_time / s.count_star)"@),
        QueryDiscoveryMode::ExecutionTimeDistance => Some("(s.max_time - s.min_time)"@),
        QueryDiscoveryMode::QueryThroughput => Some("(s.count_star / s.sum_time)"@),
        QueryDiscoveryMode::WorstBestCase => Some("s.min_time"@),
        QueryDiscoveryMode::WorstWorstCase => Some("s.max_time"@),
        QueryDiscoveryMode::DistanceMeanMax => Some("(s.max_time - (s.sum_time / s.count_star))"@),
        QueryDiscoveryMode::External => None,
    }
}

/// The query for one page of candidates: the queries of the source
/// hostgroup and the Readyset user, outside the system schemas, that read
/// with `SELECT ... FROM` and compare no two placeholders, that ran and
/// sent rows more often than the two minima, and that have no rule yet;
/// highest rank first, `limit` of them from `offset` on.
pub open spec fn candidates_text(
    source_hostgroup: u16,
    user: Seq<char>,
    min_execution: u64,
    min_rows_sent: u64,
    rank: Seq<char>,
    limit: u16,
    offset: u64,
) -> Seq<char> {
    "SELECT s.digest_text, s.digest, s.schemaname\n    FROM stats_mysql_query_digest s \n    LEFT JOIN mysql_query_rules q \n    USING(digest) \n    WHERE s.hostgroup = "@
        + decimal(source_hostgroup as nat) + "\n    AND s.username = '"@ + user
        + "'\n    AND s.schemaname NOT IN ('sys', 'information_schema', 'performance_schema', 'mysql')\n    AND s.digest_text LIKE 'SELECT%FROM%'\n    AND digest_text NOT LIKE '%?=?%'\n    AND s.count_star > "@
        + decimal(min_execution as nat) + "\n    AND s.sum_rows_sent > "@ + decimal(
        min_rows_sent as nat,
    ) + "\n    AND q.rule_id IS NULL\n    ORDER BY "@ + rank + " DESC\n    LIMIT "@ + decimal(
        limit as nat,
    ) + " OFFSET "@ + decimal(offset as nat)
}

/// The candidates in the first `upto` rows of a page: each row that has its
/// three columns and whose digest is not among `routed` gives one, with its
/// digest text normalised, in the order of the rows.
pub open spec fn candidates(
    rows: Seq<Seq<Seq<char>>>,
    routed: Seq<Seq<char>>,
    user: Seq<char>,
    upto: int,
) -> Seq<QueryView>
    recommends
        0 <= upto <= rows.len(),
    decreases upto,
{
    if upto <= 0 {
        Seq::empty()
    } else {
        let row = rows[upto - 1];
        let before = candidates(rows, routed, user, upto - 1);
        if row.len() >= 3 && !routed.contains(row[1]) {
            before.push(
                QueryView { digest_text: normalised(row[0]), digest: row[1], schema: row[2], user },
            )
        } else {
            before
        }
    }
}

/// The statements that cache `query` on those of the first `upto` instances
/// that the router sends traffic to, in the order of the router's list;
/// `None` where one of them has no connection.
pub open spec fn cache_plan(readysets: Seq<ReadysetView>, query: QueryView, upto: int) -> Option<
    Seq<StatementView>,
>
    recommends
        0 <= upto <= readysets.len(),
    decreases upto,
{
    if upto <= 0 {
        Some(Seq::empty())
    } else {
        match cache_plan(readysets, query, upto - 1) {
            None => None,
            Some(before) => if readysets[upto - 1].proxysql_status != ProxySQLStatus::Online {
                Some(before)
            } else if readysets[upto - 1].connected {
                Some(before + cache_statements((upto - 1) as usize, query))
            } else {
                None
            },
        }
    }
}

/// What is sent for a candidate that Readyset supports: its cache is
/// created on every instance that the router sends traffic to, and only
/// then its rule is added in the router. `None` where one of those instances
/// has no connection.
pub open spec fn install_plan(router: ProxySQLView, query: QueryView, stamp: Seq<char>) -> Option<
    Seq<StatementView>,
> {
    match cache_plan(router.readysets, query, router.readysets.len() as int) {
        None => None,
        Some(caches) => Some(caches.push(router.rule_statement(query, stamp))),
    }
}

/// The reason for a failure, with what the connection said of it.
pub open spec fn explained(what: Seq<char>, reply: ReplyView) -> Seq<char> {
    match reply {
        ReplyView::Failed(cause) => what + ": "@ + cause,
        _ => what + ": the statement was not answered"@,
    }
}

/// The notes that say which rules have left their mirror phase.
pub open spec fn promoted_notes(rule_ids: Seq<u16>) -> Seq<MessageView> {
    Seq::new(
        rule_ids.len(),
        |i: int|
            MessageView {
                level: MessageType::Note,
                text: "Updated rule ID "@ + decimal(rule_ids[i] as nat)
                    + " from warmup to destination"@,
            },
    )
}

/// The rules of a list of promotions.
pub open spec fn promotion_ids(promotions: Seq<PromotionView>) -> Seq<u16> {
    Seq::new(promotions.len(), |i: int| promotions[i].rule_id)
}

/// The statements of a list of promotions.
pub open spec fn promotion_statements(promotions: Seq<PromotionView>) -> Seq<StatementView> {
    Seq::new(promotions.len(), |i: int| promotions[i].statement)
}

/// Where query discovery stands.
#[derive(Clone, Copy, Debug, PartialEq, Eq, Structural)]
pub enum DiscoveryPhase {
    /// Discovery has not begun.
    Idle,
    /// The rules in their mirror phase have been asked for.
    MirrorRules,
    /// The promotions have been sent.
    Promoting,
    /// The digests that are routed already have been asked for.
    Routed,
    /// A page of candidates has been asked for.
    Page,
    /// The schema of the candidate has been chosen on the instance that is
    /// asked about it.
    Schema,
    /// An instance has been asked whether it can cache the candidate.
    Support,
    /// The caches and the rule of the candidate have been sent.
    Installing,
    /// The query rules have been sent to be put to use and written to disk.
    Committing,
    /// Discovery has ended.
    Finished,
}

/// Query discovery: what it was configured with, and where it stands.
#[derive(Debug)]
pub struct QueryDiscovery {
    query_discovery_mode: QueryDiscoveryMode,
    query_discovery_min_execution: u64,
    query_discovery_min_rows_sent: u64,
    source_hostgroup: u16,
    readyset_user: String,
    number_of_queries: u16,
    offset: u64,
    phase: DiscoveryPhase,
    promoted: Vec<u16>,
    routed: Vec<String>,
    changed: bool,
    page: Vec<Query>,
    cursor: usize,
    more_queries: bool,
}

/// Query discovery, with its texts as sequences of characters.
pub struct DiscoveryView {
    pub mode: QueryDiscoveryMode,
    /// A candidate ran more often than this.
    pub min_execution: u64,
    /// A candidate sent more rows than this.
    pub min_rows_sent: u64,
    /// The hostgroup whose traffic is ranked.
    pub source_hostgroup: u16,
    pub readyset_user: Seq<char>,
    /// How many digests are routed to Readyset at most, and how many
    /// candidates a page holds.
    pub number_of_queries: u16,
    /// How many rows the pages so far have held.
    pub offset: u64,
    pub phase: DiscoveryPhase,
    /// The rules whose promotion has been sent and is not confirmed yet.
    pub promoted: Seq<u16>,
    /// The digests that are routed to Readyset: those that were when
    /// discovery began, and those it has added since.
    pub routed: Seq<Seq<char>>,
    /// Whether a rule was added or promoted.
    pub changed: bool,
    /// The candidates of the page at hand.
    pub page: Seq<QueryView>,
    /// The place in the page of the candidate at hand.
    pub cursor: nat,
    /// Whether the last page held any row.
    pub more_queries: bool,
}

impl View for QueryDiscovery {
    type V = DiscoveryView;

    closed spec fn view(&self) -> DiscoveryView {
        DiscoveryView {
            mode: self.query_discovery_mode,
            min_execution: self.query_discovery_min_execution,
            min_rows_sent: self.query_discovery_min_rows_sent,
            source_hostgroup: self.source_hostgroup,
            readyset_user: self.readyset_user@,
            number_of_queries: self.number_of_queries,
            offset: self.offset,
            phase: self.phase,
            promoted: self.promoted@,
            routed: self.routed.deep_view(),
            changed: self.changed,
            page: self.page.deep_view(),
            cursor: self.cursor as nat,
            more_queries: self.more_queries,
        }
    }
}

impl QueryDiscovery {
    #[verifier::type_invariant]
    spec fn inv(self) -> bool {
        self@.well_formed()
    }
}

impl DiscoveryView {
    /// While a candidate is at hand, it is one of the page, and there is
    /// room for one more digest.
    pub open spec fn well_formed(self) -> bool {
        (self.phase == DiscoveryPhase::Schema || self.phase == DiscoveryPhase::Support
            || self.phase == DiscoveryPhase::Installing) ==> self.cursor < self.page.len()
            && self.routed.len() < self.number_of_queries
    }

    /// The candidate at hand.
    pub open spec fn candidate(self) -> QueryView
        recommends
            self.cursor < self.page.len(),
    {
        self.page[self.cursor as int]
    }

    /// The query for the next page of candidates; the external mode has
    /// none.
    pub open spec fn page_statement(self) -> Option<StatementView> {
        match ranking(self.mode) {
            None => None,
            Some(rank) => Some(
                StatementView {
                    target: Target::Router,
                    kind: StatementKind::Select,
                    text: candidates_text(
                        self.source_hostgroup,
                        self.readyset_user,
                        self.min_execution,
                        self.min_rows_sent,
                        rank,
                        self.number_of_queries,
                        self.offset,
                    ),
                },
            ),
        }
    }

    /// Discovery ending, with what is logged last.
    pub open spec fn finish(self, messages: Seq<MessageView>, outcome: OutcomeView) -> (
        DiscoveryView,
        StepView,
    ) {
        (
            DiscoveryView { phase: DiscoveryPhase::Finished, ..self },
            StepView { messages, command: CommandView::Finish(outcome) },
        )
    }

    /// Discovery giving up, with the reason why.
    pub open spec fn fail(self, messages: Seq<MessageView>, reason: Seq<char>) -> (
        DiscoveryView,
        StepView,
    ) {
        self.finish(messages, OutcomeView::Failed(reason))
    }

    /// The end of paging: where a rule was added or promoted, the query
    /// rules are put to use and written to disk; else discovery ends.
    pub open spec fn commit(self, router: ProxySQLView, messages: Seq<MessageView>) -> (
        DiscoveryView,
        StepView,
    ) {
        if self.changed && !router.dry_run {
            (
                DiscoveryView { phase: DiscoveryPhase::Committing, ..self },
                StepView {
                    messages,
                    command: CommandView::Execute(seq![router.rules_load(), router.rules_save()]),
                },
            )
        } else {
            self.finish(messages, OutcomeView::Completed)
        }
    }

    /// What follows a page: the next page is asked for while the last one
    /// held rows and fewer digests are routed than the configuration
    /// allows; else paging ends.
    pub open spec fn next_page(self, router: ProxySQLView, messages: Seq<MessageView>) -> (
        DiscoveryView,
        StepView,
    ) {
        if self.more_queries && self.routed.len() < self.number_of_queries {
            match self.page_statement() {
                None => self.fail(messages, "External mode is not implemented yet"@),
                Some(statement) => (
                    DiscoveryView { phase: DiscoveryPhase::Page, ..self },
                    StepView { messages, command: CommandView::Query(statement) },
                ),
            }
        } else {
            self.commit(router, messages)
        }
    }

    /// What the log says before an instance is asked about a candidate.
    pub open spec fn going(query: QueryView) -> MessageView {
        MessageView {
            level: MessageType::Note,
            text: "Going to test query support for "@ + query.digest_text,
        }
    }

    /// What the log says of a candidate that Readyset cannot cache.
    pub open spec fn unsupported() -> MessageView {
        MessageView { level: MessageType::Note, text: "Query is not supported"@ }
    }

    /// What the log says of a candidate that Readyset can cache.
    pub open spec fn supported() -> MessageView {
        MessageView {
            level: MessageType::Note,
            text: "Query is supported, adding it to proxysql and readyset"@,
        }
    }

    /// What the log says when a candidate is left out because of a dry run.
    pub open spec fn left_out() -> MessageView {
        MessageView { level: MessageType::Info, text: "Dry run, not adding query"@ }
    }

    /// What the log says when Readyset could not be asked about a candidate.
    pub open spec fn support_unknown(error: ReadysetErrorView) -> MessageView {
        MessageView {
            level: MessageType::Warning,
            text: "Failed to check query support: "@ + error.message(),
        }
    }

    /// What the log says once the rule of a candidate has been added.
    pub open spec fn inserted(warmup_time_s: u16) -> MessageView {
        MessageView {
            level: MessageType::Note,
            text: if warmup_time_s > 0 {
                "Inserted warm-up rule"@
            } else {
                "Inserted destination rule"@
            },
        }
    }

    /// Discovery with the next candidate of the page at hand.
    pub open spec fn skip(self) -> DiscoveryView {
        DiscoveryView { cursor: self.cursor + 1, phase: DiscoveryPhase::Page, ..self }
    }

    /// Discovery with the digest of the candidate at hand among the routed
    /// ones, and the next candidate at hand.
    pub open spec fn counted(self) -> DiscoveryView {
        DiscoveryView {
            cursor: self.cursor + 1,
            phase: DiscoveryPhase::Page,
            routed: self.routed.push(self.candidate().digest),
            ..self
        }
    }

    /// What follows a candidate: while the page has one more and fewer
    /// digests are routed than the configuration allows, the first instance
    /// that the router sends traffic to is asked about it, beginning with
    /// its schema; an instance without a connection supports nothing, and
    /// the next candidate is looked at. After that the page is done.
    pub open spec fn next_candidate(self, router: ProxySQLView, messages: Seq<MessageView>) -> (
        DiscoveryView,
        StepView,
    )
        decreases self.page.len() - self.cursor,
    {
        if self.cursor >= self.page.len() || self.routed.len() >= self.number_of_queries {
            self.next_page(router, messages)
        } else {
            let logged = messages.push(Self::going(self.candidate()));
            match first_online(router.readysets, 0) {
                None => self.fail(logged, "No Readyset instance is online"@),
                Some(place) => if router.readysets[place].connected {
                    (
                        DiscoveryView { phase: DiscoveryPhase::Schema, ..self },
                        StepView {
                            messages: logged,
                            command: CommandView::Execute(
                                seq![use_statement(place as usize, self.candidate().schema)],
                            ),
                        },
                    )
                } else {
                    self.skip().next_candidate(router, logged.push(Self::unsupported()))
                },
            }
        }
    }

    /// The query for the digests that are routed already.
    pub open spec fn ask_routed(self, router: ProxySQLView, messages: Seq<MessageView>) -> (
        DiscoveryView,
        StepView,
    ) {
        (
            DiscoveryView { phase: DiscoveryPhase::Routed, ..self },
            StepView {
                messages,
                command: CommandView::Query(
                    crate::proxysql::router_statement(
                        StatementKind::Select,
                        crate::proxysql::routed_text(router.database_type),
                    ),
                ),
            },
        )
    }

    /// Discovery as it begins: nothing is known yet.
    pub open spec fn fresh(self) -> DiscoveryView {
        DiscoveryView {
            offset: 0,
            phase: DiscoveryPhase::Idle,
            promoted: Seq::empty(),
            routed: Seq::empty(),
            changed: false,
            page: Seq::empty(),
            cursor: 0,
            more_queries: true,
            ..self
        }
    }

    /// One step of query discovery: where discovery stands after `reply`,
    /// and what is logged and sent next. `now` is the local time of the
    /// step.
    pub open spec fn advance(self, router: ProxySQLView, reply: ReplyView, now: MomentView) -> (
        DiscoveryView,
        StepView,
    ) {
        match self.phase {
            DiscoveryPhase::Idle | DiscoveryPhase::Finished => {
                if first_online(router.readysets, 0) is None {
                    self.fresh().finish(Seq::empty(), OutcomeView::Completed)
                } else {
                    (
                        DiscoveryView { phase: DiscoveryPhase::MirrorRules, ..self.fresh() },
                        StepView {
                            messages: Seq::empty(),
                            command: CommandView::Query(
                                crate::proxysql::router_statement(
                                    StatementKind::Select,
                                    crate::proxysql::mirror_rules_text(router.database_type),
                                ),
                            ),
                        },
                    )
                }
            },
            DiscoveryPhase::MirrorRules => match reply {
                ReplyView::Rows(rows) => match router.adjusted(rows, now) {
                    Err(place) => self.fail(
                        Seq::empty(),
                        "Failed to parse the mirror rule in row "@ + decimal(place as nat),
                    ),
                    Ok(promotions) => if promotions.len() > 0 {
                        (
                            DiscoveryView {
                                phase: DiscoveryPhase::Promoting,
                                promoted: promotion_ids(promotions),
                                changed: true,
                                ..self
                            },
                            StepView {
                                messages: Seq::empty(),
                                command: CommandView::Execute(promotion_statements(promotions)),
                            },
                        )
                    } else {
                        self.ask_routed(router, Seq::empty())
                    },
                },
                _ => self.fail(Seq::empty(), explained("Failed to select mirror rules"@, reply)),
            },
            DiscoveryPhase::Promoting => match reply {
                ReplyView::Done => (DiscoveryView { promoted: Seq::empty(), ..self }).ask_routed(
                    router,
                    promoted_notes(self.promoted),
                ),
                _ => self.fail(Seq::empty(), explained("Failed to update rule"@, reply)),
            },
            DiscoveryPhase::Routed => match reply {
                ReplyView::Rows(rows) => (DiscoveryView {
                    routed: routed_digests(rows, rows.len() as int),
                    ..self
                }).next_page(router, Seq::empty()),
                _ => self.fail(
                    Seq::empty(),
                    explained("Failed to find queries routed to Readyset"@, reply),
                ),
            },
            DiscoveryPhase::Page => match reply {
                ReplyView::Rows(rows) => (DiscoveryView {
                    page: candidates(rows, self.routed, self.readyset_user, rows.len() as int),
                    cursor: 0,
                    more_queries: rows.len() > 0 && self.offset + rows.len() <= u64::MAX,
                    offset: if self.offset + rows.len() <= u64::MAX {
                        (self.offset + rows.len()) as u64
                    } else {
                        u64::MAX
                    },
                    ..self
                }).next_candidate(router, Seq::empty()),
                _ => self.fail(Seq::empty(), explained("Failed to find queries to cache"@, reply)),
            },
            DiscoveryPhase::Schema => match first_online(router.readysets, 0) {
                None => self.fail(Seq::empty(), "No Readyset instance is online"@),
                Some(place) => match reply {
                    ReplyView::Done => (
                        DiscoveryView { phase: DiscoveryPhase::Support, ..self },
                        StepView {
                            messages: Seq::empty(),
                            command: CommandView::Query(
                                explain_statement(place as usize, self.candidate().digest_text),
                            ),
                        },
                    ),
                    ReplyView::Failed(cause) => self.skip().next_candidate(
                        router,
                        seq![Self::support_unknown(ReadysetErrorView::Query(cause))],
                    ),
                    _ => self.skip().next_candidate(
                        router,
                        seq![Self::support_unknown(ReadysetErrorView::NoAnswer)],
                    ),
                },
            },
            DiscoveryPhase::Support => match first_online(router.readysets, 0) {
                None => self.fail(Seq::empty(), "No Readyset instance is online"@),
                Some(place) => match router.readysets[place].support(reply) {
                    Err(error) => self.skip().next_candidate(
                        router,
                        seq![Self::support_unknown(error)],
                    ),
                    Ok(false) => self.skip().next_candidate(router, seq![Self::unsupported()]),
                    Ok(true) => if router.dry_run {
                        self.counted().next_candidate(
                            router,
                            seq![Self::supported(), Self::left_out()],
                        )
                    } else {
                        match install_plan(router, self.candidate(), now.stamp) {
                            None => self.fail(
                                seq![Self::supported()],
                                "Failed to create readyset cache: an instance that is online has no connection"@,
                            ),
                            Some(statements) => (
                                DiscoveryView {
                                    phase: DiscoveryPhase::Installing,
                                    changed: true,
                                    ..self
                                },
                                StepView {
                                    messages: seq![Self::supported()],
                                    command: CommandView::Execute(statements),
                                },
                            ),
                        }
                    },
                },
            },
            DiscoveryPhase::Installing => match reply {
                ReplyView::Done => self.counted().next_candidate(
                    router,
                    seq![Self::inserted(router.warmup_time_s)],
                ),
                _ => self.fail(Seq::empty(), explained("Failed to create cache or add query rule"@, reply)),
            },
            DiscoveryPhase::Committing => match reply {
                ReplyView::Done => self.finish(Seq::empty(), OutcomeView::Completed),
                _ => self.fail(Seq::empty(), explained("Failed to load or save query rules"@, reply)),
            },
        }
    }
}

/// Whether `digest` is among `digests`.
pub fn holds_digest(digests: &Vec<String>, digest: &str) -> (r: bool)
    ensures
        r == digests.deep_view().contains(digest@),
{
    let mut i: usize = 0;
    while i < digests.len()
        invariant
            i <= digests.len(),
            forall|j: int| 0 <= j < i ==> digests.deep_view()[j] != digest@,
        decreases digests.len() - i,
    {
        assert(digests.deep_view()[i as int] == digests[i as int]@);
        if same_text(digests[i].as_str(), digest) {
            return true;
        }
        i += 1;
    }
    false
}

fn note(text: &str) -> (r: Message)
    ensures
        r@ == (MessageView { level: MessageType::Note, text: text@ }),
{
    Message { level: MessageType::Note, text: String::from_str(text) }
}

fn support_unknown_message(error: &ReadysetError) -> (r: Message)
    ensures
        r@ == DiscoveryView::support_unknown(error@),
{
    let mut text = String::from_str("Failed to check query support: ");
    text.append(error.to_string().as_str());
    Message { level: MessageType::Warning, text }
}

fn explain(what: &str, reply: &Reply) -> (r: String)
    ensures
        r@ == explained(what@, reply@),
{
    let mut text = String::from_str(what);
    match reply {
        Reply::Failed(cause) => {
            text.append(": ");
            text.append(cause.as_str());
        },
        _ => {
            text.append(": the statement was not answered");
        },
    }
    text
}

fn only(message: Message) -> (r: Vec<Message>)
    ensures
        r.deep_view() == seq![message@],
{
    let mut messages: Vec<Message> = Vec::new();
    messages.push(message);
    assert(messages.deep_view() =~= seq![message@]);
    messages
}

fn silent() -> (r: Vec<Message>)
    ensures
        r.deep_view() == Seq::<MessageView>::empty(),
{
    let messages: Vec<Message> = Vec::new();
    assert(messages.deep_view() =~= Seq::<MessageView>::empty());
    messages
}

impl QueryDiscovery {
    /// Query discovery as `config` asks for it, before it has begun.
    pub fn new(config: &Config) -> (r: QueryDiscovery)
        ensures
            r@ == (DiscoveryView {
                mode: config.query_discovery_mode,
                min_execution: config.query_discovery_min_execution,
                min_rows_sent: config.query_discovery_min_row_sent,
                source_hostgroup: config.source_hostgroup,
                readyset_user: config.readyset_user@,
                number_of_queries: config.number_of_queries,
                offset: 0,
                phase: DiscoveryPhase::Idle,
                promoted: Seq::empty(),
                routed: Seq::empty(),
                changed: false,
                page: Seq::empty(),
                cursor: 0,
                more_queries: true,
            }),
            r@.well_formed(),
    {
        let r = QueryDiscovery {
            query_discovery_mode: config.query_discovery_mode,
            query_discovery_min_execution: config.query_discovery_min_execution,
            query_discovery_min_rows_sent: config.query_discovery_min_row_sent,
            source_hostgroup: config.source_hostgroup,
            readyset_user: config.readyset_user.clone(),
            number_of_queries: config.number_of_queries,
            offset: 0,
            phase: DiscoveryPhase::Idle,
            promoted: Vec::new(),
            routed: Vec::new(),
            changed: false,
            page: Vec::new(),
            cursor: 0,
            more_queries: true,
        };
        assert(r.routed.deep_view() =~= Seq::empty());
        assert(r.page.deep_view() =~= Seq::empty());
        r
    }

    /// Where discovery stands.
    pub fn phase(&self) -> (r: DiscoveryPhase)
        ensures
            r == self@.phase,
    {
        self.phase
    }

    /// The digest text as Readyset is shown it: `?,?,?,...` becomes `?,?,?`,
    /// then `?-?-?` becomes `?`. Nothing else is changed.
    pub fn replace_placeholders(&self, query: &str) -> (r: String)
        ensures
            r@ == normalised(query@),
    {
        let lists = replace(query, "?,?,?,...", "?,?,?");
        replace(lists.as_str(), "?-?-?", "?")
    }

    /// The query for the next page of candidates, ranked as the mode says.
    /// The external mode has no ranking, and so no query.
    pub fn query_builder(&self) -> (r: Option<Statement>)
        ensures
            match self@.page_statement() {
                Some(statement) => r is Some && r->Some_0@ == statement,
                None => r is None,
            },
    {
        let rank = match self.query_discovery_mode {
            QueryDiscoveryMode::SumRowsSent => "s.sum_rows_sent",
            QueryDiscoveryMode::SumTime => "s.sum_time",
            QueryDiscoveryMode::MeanTime => "(s.sum_time / s.count_star)",
            QueryDiscoveryMode::CountStar => "s.count_star",
            QueryDiscoveryMode::ExecutionTimeDistance => "(s.max_time - s.min_time)",
            QueryDiscoveryMode::QueryThroughput => "(s.count_star / s.sum_time)",
            QueryDiscoveryMode::WorstBestCase => "s.min_time",
            QueryDiscoveryMode::WorstWorstCase => "s.max_time",
            QueryDiscoveryMode::DistanceMeanMax => "(s.max_time - (s.sum_time / s.count_star))",
            QueryDiscoveryMode::External => {
                return None;
            },
        };
        let mut text = String::from_str(
            "SELECT s.digest_text, s.digest, s.schemaname\n    FROM stats_mysql_query_digest s \n    LEFT JOIN mysql_query_rules q \n    USING(digest) \n    WHERE s.hostgroup = ",
        );
        text.append(decimal_text(self.source_hostgroup as u64).as_str());
        text.append("\n    AND s.username = '");
        text.append(self.readyset_user.as_str());
        text.append(
            "'\n    AND s.schemaname NOT IN ('sys', 'information_schema', 'performance_schema', 'mysql')\n    AND s.digest_text LIKE 'SELECT%FROM%'\n    AND digest_text NOT LIKE '%?=?%'\n    AND s.count_star > ",
        );
        text.append(decimal_text(self.query_discovery_min_execution).as_str());
        text.append("\n    AND s.sum_rows_sent > ");
        text.append(decimal_text(self.query_discovery_min_rows_sent).as_str());
        text.append("\n    AND q.rule_id IS NULL\n    ORDER BY ");
        text.append(rank);
        text.append(" DESC\n    LIMIT ");
        text.append(decimal_text(self.number_of_queries as u64).as_str());
        text.append(" OFFSET ");
        text.append(decimal_text(self.offset).as_str());
        Some(Statement { target: Target::Router, kind: StatementKind::Select, text })
    }

    /// The candidates that a page of rows holds. A row whose digest is among
    /// `routed` gives none, whatever the router answered: no digest that has
    /// a rule is handed on. Nor does a row that lacks one of its three
    /// columns.
    pub fn find_queries_to_cache(&self, rows: &Vec<Vec<String>>, routed: &Vec<String>) -> (r: Vec<
        Query,
    >)
        ensures
            r.deep_view() == candidates(
                rows.deep_view(),
                routed.deep_view(),
                self@.readyset_user,
                rows.len() as int,
            ),
            forall|i: int|
                0 <= i < r.len() ==> !routed.deep_view().contains((#[trigger] r.deep_view()[i]).digest),
    {
        proof {
            crate::laws::discovery::lemma_candidates_not_routed(
                rows.deep_view(),
                routed.deep_view(),
                self@.readyset_user,
                rows.len() as int,
            );
        }
        let mut queries: Vec<Query> = Vec::new();
        let mut i: usize = 0;
        while i < rows.len()
            invariant
                i <= rows.len(),
                queries.deep_view() == candidates(
                    rows.deep_view(),
                    routed.deep_view(),
                    self@.readyset_user,
                    i as int,
                ),
            decreases rows.len() - i,
        {
            let row = &rows[i];
            assert(rows.deep_view()[i as int] == row.deep_view());
            if row.len() >= 3 {
                assert(row.deep_view()[0] == row[0]@);
                assert(row.deep_view()[1] == row[1]@);
                assert(row.deep_view()[2] == row[2]@);
                if !holds_digest(routed, row[1].as_str()) {
                    let query = Query::new(
                        self.replace_placeholders(row[0].as_str()),
                        row[1].clone(),
                        row[2].clone(),
                        self.readyset_user.clone(),
                    );
                    let ghost before = queries.deep_view();
                    queries.push(query);
                    assert(queries.deep_view() =~= before.push(query@));
                }
            }
            i += 1;
        }
        queries
    }

    /// What is to be sent for a candidate that Readyset supports: for each
    /// instance that the router sends traffic to, in the order of its list,
    /// the statements that create the cache there; and after all of them the
    /// statement that adds the rule in the router. `None` where one of those
    /// instances has no connection.
    pub fn install_plan(proxysql: &ProxySQL, query: &Query, date_formatted: &str) -> (r: Option<
        Vec<Statement>,
    >)
        ensures
            match install_plan(proxysql@, query@, date_formatted@) {
                Some(statements) => r is Some && r->Some_0.deep_view() == statements,
                None => r is None,
            },
    {
        let readysets = proxysql.readysets();
        let mut statements: Vec<Statement> = Vec::new();
        let mut place: usize = 0;
        while place < readysets.len()
            invariant
                place <= readysets.len(),
                readysets.deep_view() == proxysql@.readysets,
                cache_plan(proxysql@.readysets, query@, place as int) == Some(
                    statements.deep_view(),
                ),
            decreases readysets.len() - place,
        {
            assert(readysets.deep_view()[place as int] == readysets[place as int]@);
            if readysets[place].is_proxysql_online() {
                match readysets[place].cache_query(place, query) {
                    Err(_) => {
                        proof {
                            lemma_cache_plan_fails(
                                proxysql@.readysets,
                                query@,
                                place + 1,
                                readysets.len() as int,
                            );
                        }
                        return None;
                    },
                    Ok(mut caches) => {
                        let ghost before = statements.deep_view();
                        let ghost added = caches.deep_view();
                        statements.append(&mut caches);
                        assert(statements.deep_view() =~= before + added);
                    },
                }
            }
            place += 1;
        }
        let ghost caches = statements.deep_view();
        let rule = proxysql.add_as_query_rule(query, date_formatted);
        statements.push(rule);
        assert(statements.deep_view() =~= caches.push(rule@));
        Some(statements)
    }
}

/// Once caching cannot be planned for the first `upto` instances, it cannot
/// be planned for more of them either.
pub proof fn lemma_cache_plan_fails(
    readysets: Seq<ReadysetView>,
    query: QueryView,
    upto: int,
    more: int,
)
    requires
        0 <= upto <= more,
        cache_plan(readysets, query, upto) is None,
    ensures
        cache_plan(readysets, query, more) is None,
    decreases more - upto,
{
    if upto < more {
        lemma_cache_plan_fails(readysets, query, upto, more - 1);
    }
}

impl QueryDiscovery {
    fn finish(&mut self, messages: Vec<Message>, outcome: Outcome) -> (step: Step)
        ensures
            (final(self)@, step@) == old(self)@.finish(messages.deep_view(), outcome@),
            final(self)@.well_formed(),
    {
        self.phase = DiscoveryPhase::Finished;
        Step { messages, command: Command::Finish(outcome) }
    }

    fn fail(&mut self, messages: Vec<Message>, reason: String) -> (step: Step)
        ensures
            (final(self)@, step@) == old(self)@.fail(messages.deep_view(), reason@),
            final(self)@.well_formed(),
    {
        self.finish(messages, Outcome::Failed(reason))
    }

    fn commit(&mut self, proxysql: &ProxySQL, messages: Vec<Message>) -> (step: Step)
        ensures
            (final(self)@, step@) == old(self)@.commit(proxysql@, messages.deep_view()),
            final(self)@.well_formed(),
    {
        if self.changed && !proxysql.dry_run() {
            let load = proxysql.load_query_rules();
            let save = proxysql.save_query_rules();
            let mut statements: Vec<Statement> = Vec::new();
            statements.push(load);
            statements.push(save);
            assert(statements.deep_view() =~= seq![load@, save@]);
            self.phase = DiscoveryPhase::Committing;
            Step { messages, command: Command::Execute(statements) }
        } else {
            self.finish(messages, Outcome::Completed)
        }
    }

    fn next_page(&mut self, proxysql: &ProxySQL, messages: Vec<Message>) -> (step: Step)
        ensures
            (final(self)@, step@) == old(self)@.next_page(proxysql@, messages.deep_view()),
            final(self)@.well_formed(),
    {
        assert(self@.routed.len() == self.routed.len());
        if self.more_queries && self.routed.len() < self.number_of_queries as usize {
            match self.query_builder() {
                None => self.fail(messages, String::from_str("External mode is not implemented yet")),
                Some(statement) => {
                    self.phase = DiscoveryPhase::Page;
                    Step { messages, command: Command::Query(statement) }
                },
            }
        } else {
            self.commit(proxysql, messages)
        }
    }

    fn next_candidate(&mut self, proxysql: &ProxySQL, messages: Vec<Message>) -> (step: Step)
        ensures
            (final(self)@, step@) == old(self)@.next_candidate(proxysql@, messages.deep_view()),
            final(self)@.well_formed(),
    {
        let ghost start = self@;
        let ghost given = messages.deep_view();
        let mut log = messages;
        loop
            invariant
                start == old(self)@,
                given == messages.deep_view(),
                self@.next_candidate(proxysql@, log.deep_view()) == start.next_candidate(
                    proxysql@,
                    given,
                ),
            decreases self.page.len() - self.cursor,
        {
            let ghost before = self@;
            let ghost logged = log.deep_view();
            assert(before.routed.len() == self.routed.len());
            assert(before.page.len() == self.page.len());
            if self.cursor >= self.page.len() || self.routed.len()
                >= self.number_of_queries as usize {
                return self.next_page(proxysql, log);
            }
            assert(self.page.deep_view()[self.cursor as int] == self.page[self.cursor as int]@);
            let mut going = String::from_str("Going to test query support for ");
            going.append(self.page[self.cursor].get_digest_text().as_str());
            log.push(Message { level: MessageType::Note, text: going });
            assert(log.deep_view() =~= logged.push(DiscoveryView::going(before.candidate())));
            match proxysql.first_online_readyset_place() {
                None => {
                    return self.fail(log, String::from_str("No Readyset instance is online"));
                },
                Some(place) => {
                    let readysets = proxysql.readysets();
                    assert(readysets.deep_view()[place as int] == readysets[place as int]@);
                    if readysets[place].is_connected() {
                        let schema = Readyset::use_schema(
                            place,
                            self.page[self.cursor].get_schema().as_str(),
                        );
                        let mut statements: Vec<Statement> = Vec::new();
                        statements.push(schema);
                        assert(statements.deep_view() =~= seq![schema@]);
                        self.phase = DiscoveryPhase::Schema;
                        return Step { messages: log, command: Command::Execute(statements) };
                    }
                    let ghost asked = log.deep_view();
                    log.push(note("Query is not supported"));
                    assert(log.deep_view() =~= asked.push(DiscoveryView::unsupported()));
                    self.phase = DiscoveryPhase::Page;
                    self.cursor += 1;
                },
            }
        }
    }

    fn ask_routed(&mut self, proxysql: &ProxySQL, messages: Vec<Message>) -> (step: Step)
        ensures
            (final(self)@, step@) == old(self)@.ask_routed(proxysql@, messages.deep_view()),
            final(self)@.well_formed(),
    {
        self.phase = DiscoveryPhase::Routed;
        Step { messages, command: Command::Query(proxysql.routed_query()) }
    }

    fn count_candidate(&mut self)
        requires
            old(self)@.cursor < old(self)@.page.len(),
        ensures
            final(self)@ == old(self)@.counted(),
    {
        assert(self.page.deep_view()[self.cursor as int] == self.page[self.cursor as int]@);
        let ghost before = self.routed.deep_view();
        let digest = self.page[self.cursor].get_digest().clone();
        self.phase = DiscoveryPhase::Page;
        let mut routed: Vec<String> = Vec::new();
        std::mem::swap(&mut routed, &mut self.routed);
        routed.push(digest);
        self.routed = routed;
        assert(self.routed.deep_view() =~= before.push(digest@));
        assert(self.page.deep_view().len() == self.page.len());
        self.cursor += 1;
    }

    fn skip_candidate(&mut self)
        requires
            old(self)@.cursor < old(self)@.page.len(),
        ensures
            final(self)@ == old(self)@.skip(),
    {
        assert(self.page.deep_view().len() == self.page.len());
        self.phase = DiscoveryPhase::Page;
        self.cursor += 1;
    }

    fn begin(&mut self, proxysql: &ProxySQL, reply: &Reply, now: &Moment) -> (step: Step)
        requires
            old(self)@.phase == DiscoveryPhase::Idle || old(self)@.phase
                == DiscoveryPhase::Finished,
        ensures
            (final(self)@, step@) == old(self)@.advance(proxysql@, reply@, now@),
            final(self)@.well_formed(),
    {
        self.phase = DiscoveryPhase::Idle;
        self.offset = 0;
        self.promoted = Vec::new();
        self.routed = Vec::new();
        self.changed = false;
        self.page = Vec::new();
        self.cursor = 0;
        self.more_queries = true;
        assert(self.routed.deep_view() =~= Seq::empty());
        assert(self.page.deep_view() =~= Seq::empty());
        assert(self@ == old(self)@.fresh());
        match proxysql.first_online_readyset_place() {
            None => self.finish(silent(), Outcome::Completed),
            Some(_) => {
                self.phase = DiscoveryPhase::MirrorRules;
                Step { messages: silent(), command: Command::Query(proxysql.mirror_rules_query()) }
            },
        }
    }

    fn promote(promotions: &Vec<Promotion>) -> (r: (Vec<u16>, Vec<Statement>))
        ensures
            r.0@ == promotion_ids(promotions.deep_view()),
            r.1.deep_view() == promotion_statements(promotions.deep_view()),
    {
        let mut rule_ids: Vec<u16> = Vec::new();
        let mut statements: Vec<Statement> = Vec::new();
        let mut i: usize = 0;
        while i < promotions.len()
            invariant
                i <= promotions.len(),
                rule_ids@ == promotion_ids(promotions.deep_view()).take(i as int),
                statements.deep_view() == promotion_statements(promotions.deep_view()).take(
                    i as int,
                ),
            decreases promotions.len() - i,
        {
            assert(promotions.deep_view()[i as int] == promotions[i as int]@);
            let ghost sent = statements.deep_view();
            let statement = promotions[i].statement.clone_statement();
            rule_ids.push(promotions[i].rule_id);
            statements.push(statement);
            assert(statements.deep_view() =~= sent.push(statement@));
            assert(statement@ == promotion_statements(promotions.deep_view())[i as int]);
            assert(rule_ids@ =~= promotion_ids(promotions.deep_view()).take(i + 1));
            assert(statements.deep_view() =~= promotion_statements(promotions.deep_view()).take(
                i + 1,
            ));
            i += 1;
        }
        assert(rule_ids@ =~= promotion_ids(promotions.deep_view()));
        assert(statements.deep_view() =~= promotion_statements(promotions.deep_view()));
        (rule_ids, statements)
    }

    fn promoted_messages(rule_ids: &Vec<u16>) -> (r: Vec<Message>)
        ensures
            r.deep_view() == promoted_notes(rule_ids@),
    {
        let mut notes: Vec<Message> = Vec::new();
        let mut i: usize = 0;
        while i < rule_ids.len()
            invariant
                i <= rule_ids.len(),
                notes.deep_view() == promoted_notes(rule_ids@).take(i as int),
            decreases rule_ids.len() - i,
        {
            let mut text = String::from_str("Updated rule ID ");
            text.append(decimal_text(rule_ids[i] as u64).as_str());
            text.append(" from warmup to destination");
            let ghost noted = notes.deep_view();
            let message = Message { level: MessageType::Note, text };
            notes.push(message);
            assert(notes.deep_view() =~= noted.push(message@));
            assert(message@ == promoted_notes(rule_ids@)[i as int]);
            assert(notes.deep_view() =~= promoted_notes(rule_ids@).take(i + 1));
            i += 1;
        }
        assert(notes.deep_view() =~= promoted_notes(rule_ids@));
        notes
    }

    fn after_mirror_rules(&mut self, proxysql: &ProxySQL, reply: &Reply, now: &Moment) -> (step:
        Step)
        requires
            old(self)@.phase == DiscoveryPhase::MirrorRules,
        ensures
            (final(self)@, step@) == old(self)@.advance(proxysql@, reply@, now@),
            final(self)@.well_formed(),
    {
        match reply {
            Reply::Rows(rows) => match proxysql.adjust_mirror_rules(rows, now) {
                Err(place) => {
                    let mut reason = String::from_str("Failed to parse the mirror rule in row ");
                    reason.append(decimal_text(place as u64).as_str());
                    self.fail(silent(), reason)
                },
                Ok(promotions) => {
                    if promotions.len() > 0 {
                        let (rule_ids, statements) = Self::promote(&promotions);
                        self.phase = DiscoveryPhase::Promoting;
                        self.promoted = rule_ids;
                        self.changed = true;
                        Step { messages: silent(), command: Command::Execute(statements) }
                    } else {
                        self.ask_routed(proxysql, silent())
                    }
                },
            },
            _ => {
                let reason = explain("Failed to select mirror rules", reply);
                self.fail(silent(), reason)
            },
        }
    }

    fn after_promoting(&mut self, proxysql: &ProxySQL, reply: &Reply, now: &Moment) -> (step: Step)
        requires
            old(self)@.phase == DiscoveryPhase::Promoting,
        ensures
            (final(self)@, step@) == old(self)@.advance(proxysql@, reply@, now@),
            final(self)@.well_formed(),
    {
        match reply {
            Reply::Done => {
                let notes = Self::promoted_messages(&self.promoted);
                self.promoted = Vec::new();
                self.ask_routed(proxysql, notes)
            },
            _ => {
                let reason = explain("Failed to update rule", reply);
                self.fail(silent(), reason)
            },
        }
    }

    fn after_routed(&mut self, proxysql: &ProxySQL, reply: &Reply, now: &Moment) -> (step: Step)
        requires
            old(self)@.phase == DiscoveryPhase::Routed,
        ensures
            (final(self)@, step@) == old(self)@.advance(proxysql@, reply@, now@),
            final(self)@.well_formed(),
    {
        match reply {
            Reply::Rows(rows) => {
                self.routed = proxysql.find_queries_routed_to_readyset(rows);
                self.next_page(proxysql, silent())
            },
            _ => {
                let reason = explain("Failed to find queries routed to Readyset", reply);
                self.fail(silent(), reason)
            },
        }
    }

    fn after_page(&mut self, proxysql: &ProxySQL, reply: &Reply, now: &Moment) -> (step: Step)
        requires
            old(self)@.phase == DiscoveryPhase::Page,
        ensures
            (final(self)@, step@) == old(self)@.advance(proxysql@, reply@, now@),
            final(self)@.well_formed(),
    {
        match reply {
            Reply::Rows(rows) => {
                self.page = self.find_queries_to_cache(rows, &self.routed);
                self.cursor = 0;
                let held: u128 = rows.len() as u128;
                let next: u128 = self.offset as u128 + held;
                if next <= 0xffff_ffff_ffff_ffff {
                    self.more_queries = rows.len() > 0;
                    self.offset = next as u64;
                } else {
                    self.more_queries = false;
                    self.offset = 0xffff_ffff_ffff_ffff;
                }
                self.next_candidate(proxysql, silent())
            },
            _ => {
                let reason = explain("Failed to find queries to cache", reply);
                self.fail(silent(), reason)
            },
        }
    }

    fn after_schema(&mut self, proxysql: &ProxySQL, reply: &Reply, now: &Moment) -> (step: Step)
        requires
            old(self)@.phase == DiscoveryPhase::Schema,
        ensures
            (final(self)@, step@) == old(self)@.advance(proxysql@, reply@, now@),
            final(self)@.well_formed(),
    {
        proof {
            use_type_invariant(&*self);
        }
        match proxysql.first_online_readyset_place() {
            None => self.fail(silent(), String::from_str("No Readyset instance is online")),
            Some(place) => match reply {
                Reply::Done => {
                    assert(self.page.deep_view()[self.cursor as int]
                        == self.page[self.cursor as int]@);
                    let statement = Readyset::support_query(
                        place,
                        self.page[self.cursor].get_digest_text().as_str(),
                    );
                    self.phase = DiscoveryPhase::Support;
                    Step { messages: silent(), command: Command::Query(statement) }
                },
                Reply::Failed(cause) => {
                    let error = ReadysetError::Query(cause.clone());
                    self.skip_candidate();
                    self.next_candidate(proxysql, only(support_unknown_message(&error)))
                },
                _ => {
                    self.skip_candidate();
                    self.next_candidate(
                        proxysql,
                        only(support_unknown_message(&ReadysetError::NoAnswer)),
                    )
                },
            },
        }
    }

    fn install(&mut self, proxysql: &ProxySQL, now: &Moment) -> (step: Step)
        requires
            old(self)@.phase == DiscoveryPhase::Support,
            !proxysql@.dry_run,
        ensures
            (final(self)@, step@) == match install_plan(
                proxysql@,
                old(self)@.candidate(),
                now@.stamp,
            ) {
                None => old(self)@.fail(
                    seq![DiscoveryView::supported()],
                    "Failed to create readyset cache: an instance that is online has no connection"@,
                ),
                Some(statements) => (
                    DiscoveryView {
                        phase: DiscoveryPhase::Installing,
                        changed: true,
                        ..old(self)@
                    },
                    StepView {
                        messages: seq![DiscoveryView::supported()],
                        command: CommandView::Execute(statements),
                    },
                ),
            },
            final(self)@.well_formed(),
    {
        proof {
            use_type_invariant(&*self);
        }
        let supported = note("Query is supported, adding it to proxysql and readyset");
        assert(self.page.deep_view()[self.cursor as int] == self.page[self.cursor as int]@);
        match Self::install_plan(proxysql, &self.page[self.cursor], now.stamp.as_str()) {
            None => self.fail(
                only(supported),
                String::from_str(
                    "Failed to create readyset cache: an instance that is online has no connection",
                ),
            ),
            Some(statements) => {
                self.phase = DiscoveryPhase::Installing;
                self.changed = true;
                Step { messages: only(supported), command: Command::Execute(statements) }
            },
        }
    }

    fn after_support(&mut self, proxysql: &ProxySQL, reply: &Reply, now: &Moment) -> (step: Step)
        requires
            old(self)@.phase == DiscoveryPhase::Support,
        ensures
            (final(self)@, step@) == old(self)@.advance(proxysql@, reply@, now@),
            final(self)@.well_formed(),
    {
        proof {
            use_type_invariant(&*self);
        }
        match proxysql.first_online_readyset_place() {
            None => self.fail(silent(), String::from_str("No Readyset instance is online")),
            Some(place) => {
                let readysets = proxysql.readysets();
                assert(readysets.deep_view()[place as int] == readysets[place as int]@);
                match readysets[place].check_query_support(reply) {
                    Err(error) => {
                        self.skip_candidate();
                        self.next_candidate(proxysql, only(support_unknown_message(&error)))
                    },
                    Ok(false) => {
                        self.skip_candidate();
                        self.next_candidate(proxysql, only(note("Query is not supported")))
                    },
                    Ok(true) => {
                        if proxysql.dry_run() {
                            let supported = note(
                                "Query is supported, adding it to proxysql and readyset",
                            );
                            let left_out = Message {
                                level: MessageType::Info,
                                text: String::from_str("Dry run, not adding query"),
                            };
                            let mut messages: Vec<Message> = Vec::new();
                            messages.push(supported);
                            messages.push(left_out);
                            assert(messages.deep_view() =~= seq![
                                DiscoveryView::supported(),
                                DiscoveryView::left_out(),
                            ]);
                            self.count_candidate();
                            self.next_candidate(proxysql, messages)
                        } else {
                            self.install(proxysql, now)
                        }
                    },
                }
            },
        }
    }

    fn after_installing(&mut self, proxysql: &ProxySQL, reply: &Reply, now: &Moment) -> (step: Step)
        requires
            old(self)@.phase == DiscoveryPhase::Installing,
        ensures
            (final(self)@, step@) == old(self)@.advance(proxysql@, reply@, now@),
            final(self)@.well_formed(),
    {
        proof {
            use_type_invariant(&*self);
        }
        match reply {
            Reply::Done => {
                let inserted = if proxysql.warmup_time_s() > 0 {
                    note("Inserted warm-up rule")
                } else {
                    note("Inserted destination rule")
                };
                self.count_candidate();
                self.next_candidate(proxysql, only(inserted))
            },
            _ => {
                let reason = explain("Failed to create cache or add query rule", reply);
                self.fail(silent(), reason)
            },
        }
    }

    fn after_committing(&mut self, proxysql: &ProxySQL, reply: &Reply, now: &Moment) -> (step: Step)
        requires
            old(self)@.phase == DiscoveryPhase::Committing,
        ensures
            (final(self)@, step@) == old(self)@.advance(proxysql@, reply@, now@),
            final(self)@.well_formed(),
    {
        match reply {
            Reply::Done => self.finish(silent(), Outcome::Completed),
            _ => {
                let reason = explain("Failed to load or save query rules", reply);
                self.fail(silent(), reason)
            },
        }
    }

    /// One step of query discovery, at the local time `now`. `reply` is what
    /// came back for the command of the step before, or `Reply::Start` for
    /// the first step.
    ///
    /// Discovery does nothing where the router sends traffic to no
    /// instance. Else the mirror rules that have had their warm-up are
    /// promoted first. Then candidates are read page by page, until a page
    /// is empty or as many digests are routed as the configuration allows.
    /// For each candidate the first instance that the router sends traffic
    /// to is asked whether it can cache the query. If it can, the cache is
    /// created on every such instance and then the rule is added; in a dry
    /// run neither is done. If it cannot, or the question fails, the
    /// candidate is passed over. At the end the query rules are put to use
    /// and written to disk, if a rule was added or promoted. A statement for
    /// the router that fails, or a cache that cannot be created, ends
    /// discovery in failure.
    pub fn advance(&mut self, proxysql: &ProxySQL, reply: &Reply, now: &Moment) -> (step: Step)
        ensures
            (final(self)@, step@) == old(self)@.advance(proxysql@, reply@, now@),
            old(self)@.well_formed(),
            final(self)@.well_formed(),
    {
        proof {
            use_type_invariant(&*self);
        }
        match self.phase {
            DiscoveryPhase::Idle | DiscoveryPhase::Finished => self.begin(proxysql, reply, now),
            DiscoveryPhase::MirrorRules => self.after_mirror_rules(proxysql, reply, now),
            DiscoveryPhase::Promoting => self.after_promoting(proxysql, reply, now),
            DiscoveryPhase::Routed => self.after_routed(proxysql, reply, now),
            DiscoveryPhase::Page => self.after_page(proxysql, reply, now),
            DiscoveryPhase::Schema => self.after_schema(proxysql, reply, now),
            DiscoveryPhase::Support => self.after_support(proxysql, reply, now),
            DiscoveryPhase::Installing => self.after_installing(proxysql, reply, now),
            DiscoveryPhase::Committing => self.after_committing(proxysql, reply, now),
        }
    }

    /// One step of query discovery, at the local time of now: `advance` with
    /// what the clock says.
    pub fn run(&mut self, proxysql: &ProxySQL, reply: &Reply) -> (step: Step)
        ensures
            exists|now: MomentView|
                (final(self)@, step@) == old(self)@.advance(proxysql@, reply@, now),
            old(self)@.well_formed(),
            final(self)@.well_formed(),
    {
        let now = Moment::now();
        self.advance(proxysql, reply, &now)
    }
}

} // verus!
