//! Which mirror rules are promoted, and when.
use crate::clock::MomentView;
use crate::laws::statements::lemma_router_statements_well_formed;
use crate::proxysql::{warmed_up, PromotionView, ProxySQLView};
use crate::readyset::ProxySQLStatus;
use crate::sql_connection::{StatementKind, Target};
use crate::text::u16_of;
use vstd::prelude::*;

verus! {

/// The promotion of the mirror rule of `row` at `now`.
pub open spec fn promotion_of(
    router: ProxySQLView,
    row: Seq<Seq<char>>,
    now: MomentView,
) -> PromotionView {
    PromotionView {
        rule_id: u16_of(row[0]).unwrap(),
        statement: router.promotion(u16_of(row[0]).unwrap(), row[1], now.stamp),
    }
}

/// Whether `promotion` is that of one of the first `upto` rows whose rule
/// has had its warm-up at `now`.
pub open spec fn promotes_due_rule(
    router: ProxySQLView,
    rows: Seq<Seq<Seq<char>>>,
    now: MomentView,
    upto: int,
    promotion: PromotionView,
) -> bool {
    exists|k: int|
        0 <= k < upto && router.due(#[trigger] rows[k], now) && promotion == promotion_of(
            router,
            rows[k],
            now,
        )
}

/// A mirror rule has had its warm-up exactly when the time has passed the
/// instant at which it was written by more seconds than the warm-up lasts;
/// and once it has, it has at every later instant.
pub proof fn lemma_promotion_threshold(now: i64, later: i64, written: i64, warmup_time_s: u16)
    requires
        now <= later,
    ensures
        warmed_up(now, written, warmup_time_s) <==> now > written + warmup_time_s,
        warmed_up(now, written, warmup_time_s) ==> warmed_up(later, written, warmup_time_s),
{
}

/// The mirror rules that are promoted are those that have had their
/// warm-up, and no others: each promotion is that of a row whose rule is
/// due, each row whose rule is due has its promotion, and where no rule is
/// due nothing is promoted.
pub proof fn lemma_promotions_are_due_rules(
    router: ProxySQLView,
    rows: Seq<Seq<Seq<char>>>,
    now: MomentView,
    upto: int,
)
    requires
        0 <= upto <= rows.len(),
    ensures
        forall|i: int|
            0 <= i < router.promotions(rows, now, upto).len() ==> promotes_due_rule(
                router,
                rows,
                now,
                upto,
                #[trigger] router.promotions(rows, now, upto)[i],
            ),
        forall|k: int|
            0 <= k < upto && router.due(#[trigger] rows[k], now) ==> router.promotions(
                rows,
                now,
                upto,
            ).contains(promotion_of(router, rows[k], now)),
        (forall|k: int| 0 <= k < upto ==> !router.due(#[trigger] rows[k], now))
            ==> router.promotions(rows, now, upto).len() == 0,
    decreases upto,
{
    if upto > 0 {
        lemma_promotions_are_due_rules(router, rows, now, upto - 1);
        let before = router.promotions(rows, now, upto - 1);
        let all = router.promotions(rows, now, upto);
        assert forall|i: int| 0 <= i < all.len() implies promotes_due_rule(
            router,
            rows,
            now,
            upto,
            #[trigger] all[i],
        ) by {
            if i < before.len() {
                assert(all[i] == before[i]);
                assert(promotes_due_rule(router, rows, now, upto - 1, before[i]));
                let k = choose|k: int|
                    0 <= k < upto - 1 && router.due(#[trigger] rows[k], now) && before[i]
                        == promotion_of(router, rows[k], now);
                assert(router.due(rows[k], now));
            } else {
                assert(router.due(rows[upto - 1], now));
            }
        }
        assert forall|k: int|
            0 <= k < upto && router.due(#[trigger] rows[k], now) implies all.contains(
            promotion_of(router, rows[k], now),
        ) by {
            if k < upto - 1 {
                let wanted = promotion_of(router, rows[k], now);
                assert(before.contains(wanted));
                let i = choose|i: int| 0 <= i < before.len() && before[i] == wanted;
                assert(all[i] == wanted);
            } else {
                assert(all[all.len() - 1] == promotion_of(router, rows[k], now));
            }
        }
        if forall|k: int| 0 <= k < upto ==> !router.due(#[trigger] rows[k], now) {
            assert(!router.due(rows[upto - 1], now));
        }
    }
}

/// Every promotion is an `UPDATE` for the router, and begins with that
/// word.
pub proof fn lemma_promotions_update_the_router(
    router: ProxySQLView,
    rows: Seq<Seq<Seq<char>>>,
    now: MomentView,
    upto: int,
)
    ensures
        forall|i: int|
            0 <= i < router.promotions(rows, now, upto).len() ==> {
                let statement = (#[trigger] router.promotions(rows, now, upto)[i]).statement;
                &&& statement.kind == StatementKind::Update
                &&& statement.target == Target::Router
                &&& statement.well_formed()
            },
    decreases upto,
{
    if upto > 0 {
        lemma_promotions_update_the_router(router, rows, now, upto - 1);
        let row = rows[upto - 1];
        lemma_router_statements_well_formed(
            router,
            0,
            ProxySQLStatus::Online,
            arbitrary(),
            u16_of(row[0]).unwrap(),
            row[1],
            now.stamp,
        );
        let before = router.promotions(rows, now, upto - 1);
        let all = router.promotions(rows, now, upto);
        assert forall|i: int| 0 <= i < all.len() implies {
            let statement = (#[trigger] all[i]).statement;
            &&& statement.kind == StatementKind::Update
            &&& statement.target == Target::Router
            &&& statement.well_formed()
        } by {
            if i < before.len() {
                assert(all[i] == before[i]);
            }
        }
    }
}

} // verus!
