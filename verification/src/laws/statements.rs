//! The kind of a statement is what its text begins with.
use crate::proxysql::{
    mirror_rules_text, routed_text, router_statement, servers_text, ProxySQLView,
};
use crate::queries::{DiscoveryView, QueryView};
use crate::readyset::{
    create_cache_statement, create_cache_text, explain_statement, explain_text, status_statement,
    status_text, use_statement, use_text, ProxySQLStatus,
};
use crate::sql_connection::StatementKind;
use vstd::prelude::*;

verus! {

/// Each statement for a Readyset instance begins with the words of its kind.
pub proof fn lemma_readyset_statements_well_formed(
    place: usize,
    schema: Seq<char>,
    digest: Seq<char>,
    digest_text: Seq<char>,
)
    ensures
        status_statement(place).well_formed(),
        use_statement(place, schema).well_formed(),
        explain_statement(place, digest_text).well_formed(),
        create_cache_statement(place, digest, digest_text).well_formed(),
{
    reveal_strlit("SHOW READYSET STATUS");
    reveal_strlit("SHOW");
    reveal_strlit("USE ");
    reveal_strlit("USE");
    reveal_strlit("EXPLAIN CREATE CACHE FROM ");
    reveal_strlit("EXPLAIN");
    reveal_strlit("CREATE CACHE d_");
    reveal_strlit("CREATE CACHE");
    assert(status_text().subrange(0, 4) =~= "SHOW"@);
    assert(use_text(schema).subrange(0, 3) =~= "USE"@);
    assert(explain_text(digest_text).subrange(0, 7) =~= "EXPLAIN"@);
    assert(create_cache_text(digest, digest_text).subrange(0, 12) =~= "CREATE CACHE"@);
}

/// Each statement that changes something in the router begins with the
/// words of its kind.
pub proof fn lemma_router_statements_well_formed(
    router: ProxySQLView,
    place: int,
    status: ProxySQLStatus,
    query: QueryView,
    rule_id: u16,
    comment: Seq<char>,
    stamp: Seq<char>,
)
    ensures
        router.rule_statement(query, stamp).well_formed(),
        router.status_update(place, status).well_formed(),
        router.servers_load().well_formed(),
        router.servers_save().well_formed(),
        router.rules_load().well_formed(),
        router.rules_save().well_formed(),
        router.promotion(rule_id, comment, stamp).well_formed(),
{
    reveal_strlit("INSERT INTO ");
    reveal_strlit("INSERT");
    reveal_strlit("UPDATE ");
    reveal_strlit("UPDATE");
    reveal_strlit("LOAD ");
    reveal_strlit("LOAD");
    reveal_strlit("SAVE ");
    reveal_strlit("SAVE");
    assert(router.rule_statement(query, stamp).text.subrange(0, 6) =~= "INSERT"@);
    assert(router.status_update(place, status).text.subrange(0, 6) =~= "UPDATE"@);
    assert(router.servers_load().text.subrange(0, 4) =~= "LOAD"@);
    assert(router.servers_save().text.subrange(0, 4) =~= "SAVE"@);
    assert(router.rules_load().text.subrange(0, 4) =~= "LOAD"@);
    assert(router.rules_save().text.subrange(0, 4) =~= "SAVE"@);
    assert(router.promotion(rule_id, comment, stamp).text.subrange(0, 6) =~= "UPDATE"@);
}

/// Each query for the router begins with `SELECT`.
pub proof fn lemma_queries_well_formed(state: DiscoveryView, router: ProxySQLView)
    ensures
        state.page_statement() matches Some(statement) ==> statement.well_formed(),
        router_statement(StatementKind::Select, routed_text(router.database_type)).well_formed(),
        router_statement(
            StatementKind::Select,
            mirror_rules_text(router.database_type),
        ).well_formed(),
        router_statement(
            StatementKind::Select,
            servers_text(router.database_type, router.readyset_hostgroup),
        ).well_formed(),
{
    reveal_strlit("SELECT");
    reveal_strlit("SELECT digest FROM ");
    reveal_strlit("SELECT rule_id, comment FROM ");
    reveal_strlit("SELECT hostname, port, status, comment FROM ");
    reveal_strlit(
        "SELECT s.digest_text, s.digest, s.schemaname\n    FROM stats_mysql_query_digest s \n    LEFT JOIN mysql_query_rules q \n    USING(digest) \n    WHERE s.hostgroup = ",
    );
    assert(routed_text(router.database_type).subrange(0, 6) =~= "SELECT"@);
    assert(mirror_rules_text(router.database_type).subrange(0, 6) =~= "SELECT"@);
    assert(servers_text(router.database_type, router.readyset_hostgroup).subrange(0, 6)
        =~= "SELECT"@);
    match state.page_statement() {
        Some(statement) => {
            assert(statement.text.subrange(0, 6) =~= "SELECT"@);
        },
        None => {},
    }
}

} // verus!
