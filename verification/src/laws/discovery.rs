//! Query discovery: which rules it adds, how many, and in what order it
//! sends its statements.
use crate::clock::MomentView;
use crate::laws::promotion::lemma_promotions_update_the_router;
use crate::laws::statements::{
    lemma_queries_well_formed, lemma_readyset_statements_well_formed,
    lemma_router_statements_well_formed,
};
use crate::messages::MessageView;
use crate::proxysql::{first_online, routed_digests, ProxySQLView};
use crate::queries::{
    cache_plan, candidates, install_plan, DiscoveryPhase, DiscoveryView, QueryView,
};
use crate::readyset::{
    cache_statements, create_cache_statement, ProxySQLStatus, ReadysetErrorView, ReadysetView,
};
use crate::sql_connection::{
    count_kind, lemma_count_kind_none, CommandView, ReplyView, StatementKind, StatementView,
    StepView, Target,
};
use vstd::prelude::*;

verus! {

/// No candidate has a digest that is routed already, whatever rows the
/// router answered with.
pub proof fn lemma_candidates_not_routed(
    rows: Seq<Seq<Seq<char>>>,
    routed: Seq<Seq<char>>,
    user: Seq<char>,
    upto: int,
)
    ensures
        forall|i: int|
            0 <= i < candidates(rows, routed, user, upto).len() ==> !routed.contains(
                (#[trigger] candidates(rows, routed, user, upto)[i]).digest,
            ),
    decreases upto,
{
    if upto > 0 {
        lemma_candidates_not_routed(rows, routed, user, upto - 1);
        let before = candidates(rows, routed, user, upto - 1);
        let all = candidates(rows, routed, user, upto);
        assert forall|i: int| 0 <= i < all.len() implies !routed.contains(
            (#[trigger] all[i]).digest,
        ) by {
            if i < before.len() {
                assert(all[i] == before[i]);
            }
        }
    }
}

proof fn lemma_cache_plan(readysets: Seq<ReadysetView>, query: QueryView, upto: int)
    requires
        cache_plan(readysets, query, upto) is Some,
    ensures
        forall|i: int|
            0 <= i < cache_plan(readysets, query, upto)->Some_0.len() ==> {
                let statement = #[trigger] cache_plan(readysets, query, upto)->Some_0[i];
                &&& statement.kind == StatementKind::Use || statement.kind
                    == StatementKind::CreateCache
                &&& statement.well_formed()
            },
        0 <= upto <= readysets.len() <= usize::MAX ==> forall|place: int|
            0 <= place < upto && (#[trigger] readysets[place]).proxysql_status
                == ProxySQLStatus::Online ==> cache_plan(readysets, query, upto)->Some_0.contains(
                create_cache_statement(place as usize, query.digest, query.digest_text),
            ),
    decreases upto,
{
    if upto > 0 {
        lemma_cache_plan(readysets, query, upto - 1);
        lemma_readyset_statements_well_formed(
            (upto - 1) as usize,
            query.schema,
            query.digest,
            query.digest_text,
        );
        let before = cache_plan(readysets, query, upto - 1)->Some_0;
        let all = cache_plan(readysets, query, upto)->Some_0;
        let last = cache_statements((upto - 1) as usize, query);
        assert forall|i: int| 0 <= i < all.len() implies {
            let statement = #[trigger] all[i];
            &&& statement.kind == StatementKind::Use || statement.kind
                == StatementKind::CreateCache
            &&& statement.well_formed()
        } by {
            if i < before.len() {
                assert(all[i] == before[i]);
            } else {
                assert(all[i] == last[i - before.len()]);
            }
        }
        if upto <= readysets.len() <= usize::MAX {
            assert forall|place: int|
                0 <= place < upto && (#[trigger] readysets[place]).proxysql_status
                    == ProxySQLStatus::Online implies all.contains(
                create_cache_statement(place as usize, query.digest, query.digest_text),
            ) by {
                let wanted = create_cache_statement(
                    place as usize,
                    query.digest,
                    query.digest_text,
                );
                if place < upto - 1 {
                    assert(before.contains(wanted));
                    let i = choose|i: int| 0 <= i < before.len() && before[i] == wanted;
                    assert(all[i] == wanted);
                } else {
                    assert(all[before.len() as int + 1] == last[1]);
                    assert(last[1] == wanted);
                }
            }
        }
    }
}

/// For a candidate that is installed, the cache is created on every
/// instance that the router sends traffic to before the rule is added in the
/// router: the rule is the last statement of the plan and the only one that
/// adds a rule; what stands before it chooses a schema or creates a cache;
/// and a statement that creates the cache on each such instance is among
/// that.
pub proof fn lemma_caches_before_rule(router: ProxySQLView, query: QueryView, stamp: Seq<char>)
    requires
        router.readysets.len() <= usize::MAX,
        install_plan(router, query, stamp) is Some,
    ensures
        ({
            let plan = install_plan(router, query, stamp)->Some_0;
            &&& plan.len() > 0
            &&& plan.last() == router.rule_statement(query, stamp)
            &&& plan.last().kind == StatementKind::Insert
            &&& forall|i: int|
                0 <= i < plan.len() - 1 ==> (#[trigger] plan[i]).kind == StatementKind::Use
                    || plan[i].kind == StatementKind::CreateCache
            &&& forall|place: int|
                0 <= place < router.readysets.len() && (#[trigger] router.readysets[place]).proxysql_status
                    == ProxySQLStatus::Online ==> exists|i: int|
                    0 <= i < plan.len() - 1 && plan[i] == create_cache_statement(
                        place as usize,
                        query.digest,
                        query.digest_text,
                    )
            &&& count_kind(plan, StatementKind::Insert) == 1
        }),
{
    let count = router.readysets.len() as int;
    lemma_cache_plan(router.readysets, query, count);
    let caches = cache_plan(router.readysets, query, count)->Some_0;
    let plan = install_plan(router, query, stamp)->Some_0;
    assert(plan.drop_last() =~= caches);
    assert forall|i: int| 0 <= i < plan.len() - 1 implies (#[trigger] plan[i]).kind
        == StatementKind::Use || plan[i].kind == StatementKind::CreateCache by {
        assert(plan[i] == caches[i]);
    }
    assert forall|place: int|
        0 <= place < router.readysets.len() && (#[trigger] router.readysets[place]).proxysql_status
            == ProxySQLStatus::Online implies exists|i: int|
        0 <= i < plan.len() - 1 && plan[i] == create_cache_statement(
            place as usize,
            query.digest,
            query.digest_text,
        ) by {
        let wanted = create_cache_statement(place as usize, query.digest, query.digest_text);
        assert(caches.contains(wanted));
        let i = choose|i: int| 0 <= i < caches.len() && caches[i] == wanted;
        assert(plan[i] == wanted);
    }
    lemma_count_kind_none(caches, StatementKind::Insert);
}

proof fn lemma_install_plan(router: ProxySQLView, query: QueryView, stamp: Seq<char>)
    requires
        install_plan(router, query, stamp) is Some,
    ensures
        count_kind(install_plan(router, query, stamp)->Some_0, StatementKind::Insert) == 1,
        forall|i: int|
            0 <= i < install_plan(router, query, stamp)->Some_0.len() ==> {
                let statement = #[trigger] install_plan(router, query, stamp)->Some_0[i];
                &&& statement.kind != StatementKind::Load
                &&& statement.kind != StatementKind::Save
                &&& !statement.kind.returns_rows()
                &&& statement.well_formed()
            },
{
    let count = router.readysets.len() as int;
    lemma_cache_plan(router.readysets, query, count);
    lemma_router_statements_well_formed(
        router,
        0,
        ProxySQLStatus::Online,
        query,
        0,
        Seq::empty(),
        stamp,
    );
    let caches = cache_plan(router.readysets, query, count)->Some_0;
    let plan = install_plan(router, query, stamp)->Some_0;
    assert(plan.drop_last() =~= caches);
    lemma_count_kind_none(caches, StatementKind::Insert);
    assert forall|i: int| 0 <= i < plan.len() implies {
        let statement = #[trigger] plan[i];
        &&& statement.kind != StatementKind::Load
        &&& statement.kind != StatementKind::Save
        &&& !statement.kind.returns_rows()
        &&& statement.well_formed()
    } by {
        if i < caches.len() {
            assert(plan[i] == caches[i]);
        }
    }
}

/// How many rules discovery may still add: as many as the configuration
/// allows digests beyond those that are routed, less the one whose rule is
/// on its way.
pub open spec fn room(state: DiscoveryView) -> int {
    if state.phase == DiscoveryPhase::Finished {
        0
    } else if state.phase == DiscoveryPhase::Installing {
        state.number_of_queries - state.routed.len() - 1
    } else if state.routed.len() >= state.number_of_queries {
        0
    } else {
        state.number_of_queries - state.routed.len()
    }
}

/// Whether discovery has read which digests are routed already.
pub open spec fn paging(state: DiscoveryView) -> bool {
    match state.phase {
        DiscoveryPhase::Page
        | DiscoveryPhase::Schema
        | DiscoveryPhase::Support
        | DiscoveryPhase::Installing
        | DiscoveryPhase::Committing
        | DiscoveryPhase::Finished => true,
        _ => false,
    }
}

/// Whether every statement of the command is for the router.
pub open spec fn for_router_only(command: CommandView) -> bool {
    forall|i: int|
        0 <= i < command.statements().len() ==> (#[trigger] command.statements()[i]).target
            == Target::Router
}

/// Whether the command puts the query rules to use and writes them to disk,
/// and does nothing else.
pub open spec fn commits(router: ProxySQLView, command: CommandView) -> bool {
    command == CommandView::Execute(seq![router.rules_load(), router.rules_save()])
}

/// Whether no statement of the command is a `LOAD` or a `SAVE`.
pub open spec fn commits_nothing(command: CommandView) -> bool {
    forall|i: int|
        0 <= i < command.statements().len() ==> {
            let kind = (#[trigger] command.statements()[i]).kind;
            kind != StatementKind::Load && kind != StatementKind::Save
        }
}

/// What holds of a step that goes on to the next candidate, the next page
/// or the end.
spec fn moves_on(state: DiscoveryView, router: ProxySQLView, next: DiscoveryView, step: StepView) -> bool {
    &&& step.command.inserts() == 0
    &&& next.well_formed()
    &&& (next.phase == DiscoveryPhase::Page || next.phase == DiscoveryPhase::Schema || next.phase
        == DiscoveryPhase::Committing || next.phase == DiscoveryPhase::Finished)
    &&& next.routed == state.routed
    &&& next.number_of_queries == state.number_of_queries
    &&& step.command.well_formed()
    &&& (router.dry_run ==> step.command.writes_nothing())
    &&& (next.phase == DiscoveryPhase::Committing ==> next.changed && !router.dry_run && commits(
        router,
        step.command,
    ))
    &&& (next.phase != DiscoveryPhase::Committing ==> commits_nothing(step.command))
}

proof fn lemma_next_page(state: DiscoveryView, router: ProxySQLView, messages: Seq<MessageView>)
    ensures
        moves_on(
            state,
            router,
            state.next_page(router, messages).0,
            state.next_page(router, messages).1,
        ),
{
    let (next, step) = state.next_page(router, messages);
    lemma_count_kind_none(step.command.statements(), StatementKind::Insert);
    lemma_queries_well_formed(state, router);
    lemma_router_statements_well_formed(
        router,
        0,
        ProxySQLStatus::Online,
        state.candidate(),
        0,
        Seq::empty(),
        Seq::empty(),
    );
}

proof fn lemma_next_candidate(
    state: DiscoveryView,
    router: ProxySQLView,
    messages: Seq<MessageView>,
)
    ensures
        moves_on(
            state,
            router,
            state.next_candidate(router, messages).0,
            state.next_candidate(router, messages).1,
        ),
    decreases state.page.len() - state.cursor,
{
    let (next, step) = state.next_candidate(router, messages);
    if state.cursor >= state.page.len() || state.routed.len() >= state.number_of_queries {
        lemma_next_page(state, router, messages);
    } else {
        let logged = messages.push(DiscoveryView::going(state.candidate()));
        match first_online(router.readysets, 0) {
            None => {
                lemma_count_kind_none(step.command.statements(), StatementKind::Insert);
            },
            Some(place) => {
                if router.readysets[place].connected {
                    lemma_count_kind_none(step.command.statements(), StatementKind::Insert);
                    lemma_readyset_statements_well_formed(
                        place as usize,
                        state.candidate().schema,
                        state.candidate().digest,
                        state.candidate().digest_text,
                    );
                } else {
                    lemma_next_candidate(
                        state.skip(),
                        router,
                        logged.push(DiscoveryView::unsupported()),
                    );
                }
            },
        }
    }
}

/// What holds of every step of query discovery.
spec fn step_holds(
    state: DiscoveryView,
    router: ProxySQLView,
    reply: ReplyView,
    now: MomentView,
) -> bool {
    let (next, step) = state.advance(router, reply, now);
    &&& next.number_of_queries == state.number_of_queries
    &&& (state.well_formed() ==> next.well_formed())
    &&& step.command.well_formed()
    &&& (router.dry_run ==> step.command.writes_nothing())
    &&& step.command.inserts() <= 1
    &&& (step.command.inserts() == 1 ==> {
        &&& state.phase == DiscoveryPhase::Support
        &&& next.phase == DiscoveryPhase::Installing
        &&& !router.dry_run
        &&& next.routed == state.routed
        &&& install_plan(router, state.candidate(), now.stamp) == Some(step.command.statements())
    })
    &&& (state.phase == DiscoveryPhase::Committing ==> next.phase == DiscoveryPhase::Finished)
    &&& (next.phase == DiscoveryPhase::Committing ==> next.changed && !router.dry_run && commits(
        router,
        step.command,
    ))
    &&& (next.phase != DiscoveryPhase::Committing ==> commits_nothing(step.command))
    &&& (state.well_formed() && paging(state) && state.phase != DiscoveryPhase::Finished
        ==> paging(next) && step.command.inserts() + room(next) <= room(state) && room(next) >= 0)
    &&& (!paging(state) && state.phase != DiscoveryPhase::Routed || state.phase
        == DiscoveryPhase::Finished ==> step.command.inserts() == 0 && for_router_only(
        step.command,
    ) && (!paging(next) || next.phase == DiscoveryPhase::Finished))
}

proof fn lemma_step(state: DiscoveryView, router: ProxySQLView, reply: ReplyView, now: MomentView)
    ensures
        step_holds(state, router, reply, now),
{
    let (next, step) = state.advance(router, reply, now);
    lemma_queries_well_formed(state, router);
    match state.phase {
        DiscoveryPhase::Idle | DiscoveryPhase::Finished => {
            lemma_count_kind_none(step.command.statements(), StatementKind::Insert);
        },
        DiscoveryPhase::MirrorRules => {
            match reply {
                ReplyView::Rows(rows) => {
                    lemma_promotions_update_the_router(router, rows, now, rows.len() as int);
                },
                _ => {},
            }
            lemma_count_kind_none(step.command.statements(), StatementKind::Insert);
        },
        DiscoveryPhase::Promoting => {
            lemma_count_kind_none(step.command.statements(), StatementKind::Insert);
        },
        DiscoveryPhase::Routed => match reply {
            ReplyView::Rows(rows) => {
                lemma_next_page(
                    DiscoveryView { routed: routed_digests(rows, rows.len() as int), ..state },
                    router,
                    Seq::empty(),
                );
            },
            _ => {
                lemma_count_kind_none(step.command.statements(), StatementKind::Insert);
            },
        },
        DiscoveryPhase::Page => match reply {
            ReplyView::Rows(rows) => {
                lemma_next_candidate(
                    DiscoveryView {
                        page: candidates(
                            rows,
                            state.routed,
                            state.readyset_user,
                            rows.len() as int,
                        ),
                        cursor: 0,
                        more_queries: rows.len() > 0 && state.offset + rows.len() <= u64::MAX,
                        offset: if state.offset + rows.len() <= u64::MAX {
                            (state.offset + rows.len()) as u64
                        } else {
                            u64::MAX
                        },
                        ..state
                    },
                    router,
                    Seq::empty(),
                );
            },
            _ => {
                lemma_count_kind_none(step.command.statements(), StatementKind::Insert);
            },
        },
        DiscoveryPhase::Schema => match first_online(router.readysets, 0) {
            None => {
                lemma_count_kind_none(step.command.statements(), StatementKind::Insert);
            },
            Some(place) => match reply {
                ReplyView::Done => {
                    lemma_count_kind_none(step.command.statements(), StatementKind::Insert);
                    lemma_readyset_statements_well_formed(
                        place as usize,
                        state.candidate().schema,
                        state.candidate().digest,
                        state.candidate().digest_text,
                    );
                },
                ReplyView::Failed(cause) => {
                    lemma_next_candidate(
                        state.skip(),
                        router,
                        seq![DiscoveryView::support_unknown(ReadysetErrorView::Query(cause))],
                    );
                },
                _ => {
                    lemma_next_candidate(
                        state.skip(),
                        router,
                        seq![DiscoveryView::support_unknown(ReadysetErrorView::NoAnswer)],
                    );
                },
            },
        },
        DiscoveryPhase::Support => match first_online(router.readysets, 0) {
            None => {
                lemma_count_kind_none(step.command.statements(), StatementKind::Insert);
            },
            Some(place) => match router.readysets[place].support(reply) {
                Err(error) => {
                    lemma_next_candidate(
                        state.skip(),
                        router,
                        seq![DiscoveryView::support_unknown(error)],
                    );
                },
                Ok(false) => {
                    lemma_next_candidate(state.skip(), router, seq![DiscoveryView::unsupported()]);
                },
                Ok(true) => {
                    if router.dry_run {
                        lemma_next_candidate(
                            state.counted(),
                            router,
                            seq![DiscoveryView::supported(), DiscoveryView::left_out()],
                        );
                    } else {
                        match install_plan(router, state.candidate(), now.stamp) {
                            None => {
                                lemma_count_kind_none(
                                    step.command.statements(),
                                    StatementKind::Insert,
                                );
                            },
                            Some(statements) => {
                                lemma_install_plan(router, state.candidate(), now.stamp);
                            },
                        }
                    }
                },
            },
        },
        DiscoveryPhase::Installing => match reply {
            ReplyView::Done => {
                lemma_next_candidate(
                    state.counted(),
                    router,
                    seq![DiscoveryView::inserted(router.warmup_time_s)],
                );
            },
            _ => {
                lemma_count_kind_none(step.command.statements(), StatementKind::Insert);
            },
        },
        DiscoveryPhase::Committing => {
            lemma_count_kind_none(step.command.statements(), StatementKind::Insert);
        },
    }
}

/// What a step of query discovery does to the routing rules: it adds one
/// rule at most. It adds one only for the candidate at hand, once Readyset
/// has said that it supports it, with the whole plan that creates the caches
/// first; only outside a dry run; and only while fewer digests are routed
/// than the configuration allows.
pub proof fn lemma_rule_only_with_caches(
    state: DiscoveryView,
    router: ProxySQLView,
    reply: ReplyView,
    now: MomentView,
)
    requires
        state.well_formed(),
    ensures
        ({
            let (next, step) = state.advance(router, reply, now);
            &&& next.well_formed()
            &&& next.number_of_queries == state.number_of_queries
            &&& step.command.inserts() <= 1
            &&& step.command.inserts() == 1 ==> {
                &&& state.phase == DiscoveryPhase::Support
                &&& next.phase == DiscoveryPhase::Installing
                &&& !router.dry_run
                &&& state.routed.len() < state.number_of_queries
                &&& next.routed == state.routed
                &&& install_plan(router, state.candidate(), now.stamp) == Some(
                    step.command.statements(),
                )
            }
        }),
{
    lemma_step(state, router, reply, now);
}

/// In a dry run no step of query discovery sends a statement that changes
/// what the router or a Readyset instance holds: no cache is created, no
/// rule is added or promoted, and no rule table is put to use or written to
/// disk. What is still sent reads, or chooses the schema of a session.
pub proof fn lemma_dry_discovery_writes_nothing(
    state: DiscoveryView,
    router: ProxySQLView,
    reply: ReplyView,
    now: MomentView,
)
    requires
        router.dry_run,
    ensures
        state.advance(router, reply, now).1.command.writes_nothing(),
{
    lemma_step(state, router, reply, now);
}

/// Every statement that a step of query discovery sends begins with the
/// words of its kind, and is sent as a query exactly where it is answered
/// with rows.
pub proof fn lemma_discovery_statements_well_formed(
    state: DiscoveryView,
    router: ProxySQLView,
    reply: ReplyView,
    now: MomentView,
)
    ensures
        state.advance(router, reply, now).1.command.well_formed(),
{
    lemma_step(state, router, reply, now);
}

/// The mirror rules are promoted before any candidate is looked at: until
/// discovery has read which digests are routed already, it speaks to the
/// router alone, asks no Readyset instance anything, and adds no rule.
pub proof fn lemma_promotion_comes_first(
    state: DiscoveryView,
    router: ProxySQLView,
    reply: ReplyView,
    now: MomentView,
)
    requires
        !paging(state) || state.phase == DiscoveryPhase::Finished,
        state.phase != DiscoveryPhase::Routed,
    ensures
        state.advance(router, reply, now).1.command.inserts() == 0,
        for_router_only(state.advance(router, reply, now).1.command),
        !paging(state.advance(router, reply, now).0) || state.advance(router, reply, now).0.phase
            == DiscoveryPhase::Finished,
{
    lemma_step(state, router, reply, now);
}

/// The query rules are put to use and written to disk at the end of a run
/// and nowhere else, and only after a rule was added or promoted: the step
/// that sends the two statements sends nothing else, discovery ends with the
/// step after it, and no other step sends a `LOAD` or a `SAVE`.
pub proof fn lemma_commit_comes_last(
    state: DiscoveryView,
    router: ProxySQLView,
    reply: ReplyView,
    now: MomentView,
)
    ensures
        ({
            let (next, step) = state.advance(router, reply, now);
            &&& state.phase == DiscoveryPhase::Committing ==> next.phase
                == DiscoveryPhase::Finished
            &&& next.phase == DiscoveryPhase::Committing ==> next.changed && !router.dry_run
                && commits(router, step.command)
            &&& next.phase != DiscoveryPhase::Committing ==> commits_nothing(step.command)
        }),
{
    lemma_step(state, router, reply, now);
}

/// How many rules a run of query discovery adds from `state` on, when the
/// replies to its commands are those of `trace`, each with the local time at
/// which it came. The run ends where discovery does.
pub open spec fn rules_added(
    state: DiscoveryView,
    router: ProxySQLView,
    trace: Seq<(ReplyView, MomentView)>,
) -> nat
    decreases trace.len(),
{
    if trace.len() == 0 || state.phase == DiscoveryPhase::Finished {
        0
    } else {
        let (next, step) = state.advance(router, trace[0].0, trace[0].1);
        step.command.inserts() + rules_added(next, router, trace.drop_first())
    }
}

/// Once discovery has read which digests are routed already, the rest of
/// the run adds no more rules than the configuration leaves room for,
/// whatever the router and the Readyset instances answer.
pub proof fn lemma_rules_fit_room(
    state: DiscoveryView,
    router: ProxySQLView,
    trace: Seq<(ReplyView, MomentView)>,
)
    requires
        state.well_formed(),
        paging(state),
    ensures
        rules_added(state, router, trace) <= room(state),
        room(state) >= 0,
    decreases trace.len(),
{
    if state.phase != DiscoveryPhase::Finished && trace.len() > 0 {
        lemma_step(state, router, trace[0].0, trace[0].1);
        let (next, step) = state.advance(router, trace[0].0, trace[0].1);
        lemma_rules_fit_room(next, router, trace.drop_first());
    }
}

/// A run of query discovery never adds more rules than the configured
/// number of queries, wherever it stands and whatever is answered.
pub proof fn lemma_rules_within_limit(
    state: DiscoveryView,
    router: ProxySQLView,
    trace: Seq<(ReplyView, MomentView)>,
)
    requires
        state.well_formed(),
    ensures
        rules_added(state, router, trace) <= state.number_of_queries,
    decreases trace.len(),
{
    if paging(state) {
        lemma_rules_fit_room(state, router, trace);
    } else if trace.len() > 0 {
        lemma_step(state, router, trace[0].0, trace[0].1);
        let (next, step) = state.advance(router, trace[0].0, trace[0].1);
        lemma_rules_within_limit(next, router, trace.drop_first());
    }
}

/// A run of query discovery adds at most as many rules as the configured
/// number of queries exceeds the number of digests that are routed already:
/// from the step that reads those digests on, whatever is answered
/// afterwards.
pub proof fn lemma_page_cap(
    state: DiscoveryView,
    router: ProxySQLView,
    rows: Seq<Seq<Seq<char>>>,
    now: MomentView,
    trace: Seq<(ReplyView, MomentView)>,
)
    requires
        state.phase == DiscoveryPhase::Routed,
    ensures
        ({
            let routed = routed_digests(rows, rows.len() as int).len();
            let reply = (ReplyView::Rows(rows), now);
            rules_added(state, router, seq![reply] + trace) <= if routed
                >= state.number_of_queries {
                0
            } else {
                state.number_of_queries - routed
            }
        }),
{
    let reply = (ReplyView::Rows(rows), now);
    let all = seq![reply] + trace;
    assert(all[0] == reply);
    assert(all.drop_first() =~= trace);
    let known = DiscoveryView { routed: routed_digests(rows, rows.len() as int), ..state };
    lemma_next_page(known, router, Seq::empty());
    let (next, step) = state.advance(router, ReplyView::Rows(rows), now);
    lemma_rules_fit_room(next, router, trace);
}

} // verus!
