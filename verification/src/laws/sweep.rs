//! The health sweep: what it sends, and what it never sends.
use crate::laws::statements::{
    lemma_readyset_statements_well_formed, lemma_router_statements_well_formed,
};
use crate::messages::MessageView;
use crate::proxysql::{ProxySQLView, SweepPhase};
use crate::readyset::{ProxySQLStatus, ReadysetErrorView, ReadysetView};
use crate::sql_connection::{CommandView, OutcomeView, ReplyView, StatementView, StepView};
use vstd::prelude::*;

verus! {

/// The health sweep sends nothing for an instance that the router keeps in
/// its intended state already, and logs nothing of it.
pub proof fn lemma_no_spurious_writes(router: ProxySQLView, place: int)
    requires
        0 <= place < router.readysets.len(),
        router.readysets[place].proxysql_status == router.intended[place],
    ensures
        router.writes_for(place) == Seq::<StatementView>::empty(),
        router.messages_for(place) == Seq::<MessageView>::empty(),
{
}

/// Whether `statement` is one of those that the health sweep sends for one
/// of the first `upto` instances whose state in the router differs from the
/// intended one.
pub open spec fn follows_change(router: ProxySQLView, upto: int, statement: StatementView) -> bool {
    exists|place: int|
        0 <= place < upto && router.differs(place) && #[trigger] router.writes_for(
            place,
        ).contains(statement)
}

/// Every statement that the health sweep sends to the router belongs to an
/// instance whose state there differs from the intended one, and begins with
/// the words of its kind.
pub proof fn lemma_writes_follow_changes(router: ProxySQLView, upto: int)
    ensures
        forall|k: int|
            0 <= k < router.status_writes(upto).len() ==> {
                let statement = #[trigger] router.status_writes(upto)[k];
                follows_change(router, upto, statement) && statement.well_formed()
            },
    decreases upto,
{
    if upto > 0 {
        lemma_writes_follow_changes(router, upto - 1);
        lemma_router_statements_well_formed(
            router,
            upto - 1,
            router.intended[upto - 1],
            arbitrary(),
            0,
            Seq::empty(),
            Seq::empty(),
        );
        let before = router.status_writes(upto - 1);
        let last = router.writes_for(upto - 1);
        let all = router.status_writes(upto);
        assert forall|k: int| 0 <= k < all.len() implies {
            let statement = #[trigger] all[k];
            follows_change(router, upto, statement) && statement.well_formed()
        } by {
            if k < before.len() {
                assert(all[k] == before[k]);
                assert(follows_change(router, upto - 1, before[k]));
                let place = choose|place: int|
                    0 <= place < upto - 1 && router.differs(place) && #[trigger] router.writes_for(
                        place,
                    ).contains(before[k]);
                assert(router.writes_for(place).contains(all[k]));
            } else {
                assert(all[k] == last[k - before.len()]);
                assert(router.writes_for(upto - 1).contains(all[k]));
            }
        }
    }
}

proof fn lemma_steady_prefix(router: ProxySQLView, upto: int)
    requires
        0 <= upto <= router.readysets.len(),
        forall|place: int| 0 <= place < router.readysets.len() ==> !router.differs(place),
    ensures
        router.status_writes(upto) == Seq::<StatementView>::empty(),
        router.status_messages(upto) == Seq::<MessageView>::empty(),
    decreases upto,
{
    if upto > 0 {
        lemma_steady_prefix(router, upto - 1);
        assert(Seq::<StatementView>::empty() + Seq::<StatementView>::empty()
            =~= Seq::<StatementView>::empty());
        assert(Seq::<MessageView>::empty() + Seq::<MessageView>::empty()
            =~= Seq::<MessageView>::empty());
    }
}

/// Where the router keeps every instance in its intended state already, the
/// health sweep ends without a statement for the router, without a line in
/// the log, and with the instances as they were.
pub proof fn lemma_steady_sweep(router: ProxySQLView, messages: Seq<MessageView>)
    requires
        router.intended.len() == router.readysets.len(),
        forall|place: int| 0 <= place < router.readysets.len() ==> !router.differs(place),
    ensures
        router.settle(messages).1 == (StepView {
            messages,
            command: CommandView::Finish(OutcomeView::Completed),
        }),
        router.settle(messages).0 == (ProxySQLView { phase: SweepPhase::Finished, ..router }),
{
    lemma_steady_prefix(router, router.readysets.len() as int);
    assert(messages + Seq::<MessageView>::empty() =~= messages);
    assert forall|place: int| 0 <= place < router.readysets.len() implies router.settled()[place]
        == router.readysets[place] by {
        assert(!router.differs(place));
    }
    assert(router.settled() =~= router.readysets);
}

proof fn lemma_dry_status_writes(router: ProxySQLView, upto: int)
    requires
        router.dry_run,
    ensures
        router.status_writes(upto) == Seq::<StatementView>::empty(),
    decreases upto,
{
    if upto > 0 {
        lemma_dry_status_writes(router, upto - 1);
        assert(Seq::<StatementView>::empty() + Seq::<StatementView>::empty()
            =~= Seq::<StatementView>::empty());
    }
}

proof fn lemma_ask(router: ProxySQLView, messages: Seq<MessageView>)
    ensures
        router.ask(messages).1.command.well_formed(),
        router.dry_run ==> router.ask(messages).1.command.writes_nothing(),
    decreases router.readysets.len() - router.intended.len(),
{
    let place = router.intended.len();
    if place >= router.readysets.len() {
        lemma_writes_follow_changes(router, router.readysets.len() as int);
        if router.dry_run {
            lemma_dry_status_writes(router, router.readysets.len() as int);
        }
    } else if router.readysets[place as int].connected {
        lemma_readyset_statements_well_formed(
            place as usize,
            Seq::empty(),
            Seq::empty(),
            Seq::empty(),
        );
    } else {
        lemma_ask(
            ProxySQLView { intended: router.intended.push(ProxySQLStatus::Shunned), ..router },
            messages.push(ProxySQLView::probe_failed(ReadysetErrorView::NoConnection)),
        );
    }
}

/// Every statement that a step of the health sweep sends begins with the
/// words of its kind, and is sent as a query exactly where it is answered
/// with rows. And in a dry run no step sends a statement that changes what
/// the router or a Readyset instance holds: no `UPDATE`, no `LOAD`, no
/// `SAVE`.
pub proof fn lemma_sweep_step(router: ProxySQLView, reply: ReplyView)
    ensures
        router.sweep(reply).1.command.well_formed(),
        router.dry_run ==> router.sweep(reply).1.command.writes_nothing(),
{
    match router.phase {
        SweepPhase::Idle | SweepPhase::Finished => {
            lemma_ask(ProxySQLView { intended: Seq::empty(), ..router }, Seq::empty());
        },
        SweepPhase::Probing => {
            let place = router.intended.len() as int;
            if place < router.readysets.len() {
                match router.readysets[place].readiness(reply) {
                    Ok(status) => {
                        lemma_ask(
                            ProxySQLView {
                                readysets: router.readysets.update(
                                    place,
                                    ReadysetView {
                                        readyset_status: status,
                                        ..router.readysets[place]
                                    },
                                ),
                                intended: router.intended.push(
                                    ProxySQLStatus::of_readyset(status),
                                ),
                                ..router
                            },
                            Seq::empty(),
                        );
                    },
                    Err(error) => {
                        lemma_ask(
                            ProxySQLView {
                                intended: router.intended.push(ProxySQLStatus::Shunned),
                                ..router
                            },
                            seq![ProxySQLView::probe_failed(error)],
                        );
                    },
                }
            }
        },
        SweepPhase::Applying => {},
    }
}

/// In a dry run no step of the health sweep sends a statement that changes
/// what the router or a Readyset instance holds.
pub proof fn lemma_dry_sweep_writes_nothing(router: ProxySQLView, reply: ReplyView)
    requires
        router.dry_run,
    ensures
        router.sweep(reply).1.command.writes_nothing(),
{
    lemma_sweep_step(router, reply);
}

} // verus!
