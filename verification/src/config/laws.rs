//! What holds of the engine as a whole, beyond what each function promises
//! of itself.

use crate::config::connection_config::ConnectionConfig;
use crate::config::database::{AuthConfigView, DatabaseConfigView, DatabaseType};
use crate::config::endpoint_config::{EndpointConfigView, http_method};
use crate::config::error::ConfigErrorView;
use crate::config::execution_config::ExecutionConfigView;
use crate::config::global_settings::GlobalSettingsView;
use crate::config::query_config::QueryConfigView;
use crate::config::request_config::RequestConfigView;
use crate::config::sql_query::SqlQueryView;
use crate::config::string_map::lookup;
use crate::config::transform_config::TransformConfigView;
use crate::config::yetii::{YetiiConfigView, check_queries};
use crate::config::shared::holds_accepted;
use crate::config::{loaded_once, reloaded};
use crate::text::{blank, dotted, indexed};
use vstd::prelude::*;

verus! {

/// What the queries are refused with is a rule that one of them breaks.
pub proof fn lemma_queries_refusal_is_a_rule(queries: Seq<QueryConfigView>, from: int)
    requires
        0 <= from,
    ensures
        check_queries(queries, from) matches Err(e) ==> e.is_rule(),
    decreases queries.len() - from,
{
    if from < queries.len() && queries[from].check() is Ok {
        lemma_queries_refusal_is_a_rule(queries, from + 1);
    }
}

/// What a document is refused with is a rule that the document breaks:
/// never an error of the file system, of the parser or of the state.
pub proof fn lemma_refusal_is_a_rule(doc: YetiiConfigView)
    ensures
        doc.check() matches Err(e) ==> e.is_rule(),
{
    lemma_queries_refusal_is_a_rule(doc.queries, 0);
}

/// A query as a document gives it that writes only what it must: every
/// setting that may be left out has its default, and there is no schedule.
pub open spec fn minimal_query(q: QueryConfigView) -> bool {
    &&& q.enabled
    &&& q.database is None
    &&& q.schedule is None
    &&& q.query.parameters is None
    &&& q.query.validation is None
    &&& q.transform == TransformConfigView::default_value()
    &&& q.endpoint.auth is None
    &&& q.endpoint.headers is None
    &&& q.endpoint.request == RequestConfigView::default_value()
    &&& q.endpoint.response is None
}

/// A document that writes only what it must: every setting that may be left
/// out has its default.
pub open spec fn minimal(doc: YetiiConfigView) -> bool {
    &&& doc.version == Some("1.0.0"@)
    &&& doc.name is None
    &&& doc.description is None
    &&& doc.databases.connection_string is None
    &&& doc.databases.schema is None
    &&& doc.databases.pool == ConnectionConfig::default_value()
    &&& doc.global_settings == GlobalSettingsView::default_value()
    &&& forall|i: int| 0 <= i < doc.queries.len() ==> minimal_query(#[trigger] doc.queries[i])
    &&& doc.execution == ExecutionConfigView::default_value()
    &&& doc.monitoring is None
    &&& doc.environments is None
}

/// What a document must write is written well: the database has a name, a
/// host and a catalog that are not blank and a port from 1 to 65535, and
/// each query has a name, an SQL text and a URL that are not blank and a
/// known method.
pub open spec fn required_fields_valid(doc: YetiiConfigView) -> bool {
    &&& !blank(doc.databases.name)
    &&& !blank(doc.databases.host)
    &&& !blank(doc.databases.database)
    &&& 1 <= doc.databases.port <= 65535
    &&& forall|i: int|
        0 <= i < doc.queries.len() ==> {
            let q = #[trigger] doc.queries[i];
            &&& !blank(q.name)
            &&& !blank(q.query.sql)
            &&& !blank(q.endpoint.url)
            &&& http_method(q.endpoint.method)
        }
}

/// The queries from `from` on break no rule when each of them breaks none.
pub proof fn lemma_queries_pass(queries: Seq<QueryConfigView>, from: int)
    requires
        0 <= from,
        forall|i: int| from <= i < queries.len() ==> (#[trigger] queries[i]).check() is Ok,
    ensures
        check_queries(queries, from) is Ok,
    decreases queries.len() - from,
{
    if from < queries.len() {
        assert(queries[from].check() is Ok);
        lemma_queries_pass(queries, from + 1);
    }
}

/// The defaults keep the rules: a document that writes only what it must
/// is accepted just when it writes that well.
pub proof fn lemma_minimal_document_is_accepted(doc: YetiiConfigView)
    requires
        minimal(doc),
    ensures
        doc.check() is Ok <==> required_fields_valid(doc),
{
    if required_fields_valid(doc) {
        assert forall|i: int| 0 <= i < doc.queries.len() implies (
        #[trigger] doc.queries[i]).check() is Ok by {
            assert(minimal_query(doc.queries[i]));
        }
        lemma_queries_pass(doc.queries, 0);
    }
    if doc.check() is Ok {
        assert forall|i: int| 0 <= i < doc.queries.len() implies {
            let q = #[trigger] doc.queries[i];
            &&& !blank(q.name)
            &&& !blank(q.query.sql)
            &&& !blank(q.endpoint.url)
            &&& http_method(q.endpoint.method)
        } by {
            assert(minimal_query(doc.queries[i]));
            if doc.queries[i].check() is Err {
                lemma_failing_query_fails(doc.queries, 0, i);
            }
        }
    }
}

/// What is built from the parts that a document must write is a minimal
/// document: every setting that was not given has its default.
pub proof fn lemma_new_document_is_minimal(
    name: Seq<char>,
    db_type: DatabaseType,
    host: Seq<char>,
    port: u32,
    database: Seq<char>,
    queries: Seq<QueryConfigView>,
)
    requires
        forall|i: int|
            0 <= i < queries.len() ==> (#[trigger] queries[i]) == QueryConfigView::new(
                queries[i].name,
                queries[i].description,
                SqlQueryView::new(queries[i].query.sql),
                EndpointConfigView::new(queries[i].endpoint.url, queries[i].endpoint.method),
            ),
    ensures
        minimal(
            YetiiConfigView::new(
                DatabaseConfigView::new(
                    name,
                    db_type,
                    host,
                    port,
                    database,
                    AuthConfigView { username: None, password: None },
                ),
                queries,
            ),
        ),
{
}

/// The queries from `from` on are reported by the first of them that breaks
/// a rule: where that is the query at `i`, the report is what it breaks,
/// under `queries[i]`.
pub proof fn lemma_first_failing_query(queries: Seq<QueryConfigView>, from: int, i: int)
    requires
        0 <= from <= i < queries.len(),
        queries[i].check() is Err,
        forall|j: int| from <= j < i ==> (#[trigger] queries[j]).check() is Ok,
    ensures
        check_queries(queries, from) is Err,
        check_queries(queries, from) == queries[i].check_within(indexed("queries"@, i as nat)),
    decreases i - from,
{
    if from < i {
        assert(queries[from].check() is Ok);
        lemma_first_failing_query(queries, from + 1, i);
    }
}

/// A query that breaks a rule makes the queries fail, wherever it stands.
pub proof fn lemma_failing_query_fails(queries: Seq<QueryConfigView>, from: int, i: int)
    requires
        0 <= from <= i < queries.len(),
        queries[i].check() is Err,
    ensures
        check_queries(queries, from) is Err,
    decreases i - from,
{
    if from < i && queries[from].check() is Ok {
        lemma_failing_query_fails(queries, from + 1, i);
    }
}

/// By itself the database reports its own fields under `database`: the
/// first of `database.name`, `database.host` and `database.database` that
/// is blank, then `database.port`.
pub proof fn lemma_database_reports_its_fields(db: DatabaseConfigView)
    ensures
        blank(db.name) ==> db.check() == Err::<(), ConfigErrorView>(
            ConfigErrorView::MissingRequiredField("database.name"@),
        ),
        !blank(db.name) && blank(db.host) ==> db.check() == Err::<(), ConfigErrorView>(
            ConfigErrorView::MissingRequiredField("database.host"@),
        ),
        !blank(db.name) && !blank(db.host) && blank(db.database) ==> db.check() == Err::<
            (),
            ConfigErrorView,
        >(ConfigErrorView::MissingRequiredField("database.database"@)),
        !blank(db.name) && !blank(db.host) && !blank(db.database) && (db.port == 0 || db.port
            > 65535) ==> db.check() == Err::<(), ConfigErrorView>(
            ConfigErrorView::OutOfRange { field: "database.port"@, value: db.port },
        ),
{
    reveal_strlit("database");
    reveal_strlit("name");
    reveal_strlit("host");
    reveal_strlit("port");
    reveal_strlit("database.name");
    reveal_strlit("database.host");
    reveal_strlit("database.database");
    reveal_strlit("database.port");
    assert(dotted("database"@, "name"@) =~= "database.name"@);
    assert(dotted("database"@, "host"@) =~= "database.host"@);
    assert(dotted("database"@, "database"@) =~= "database.database"@);
    assert(dotted("database"@, "port"@) =~= "database.port"@);
}

/// By itself a query reports a blank name as `query.name`, and passes on
/// what its parts report: a blank SQL text as `query.sql`, a blank URL as
/// `endpoint.url`.
pub proof fn lemma_query_reports_its_fields(q: QueryConfigView)
    ensures
        blank(q.name) ==> q.check() == Err::<(), ConfigErrorView>(
            ConfigErrorView::MissingRequiredField("query.name"@),
        ),
        !blank(q.name) && (q.schedule matches Some(s) ==> s.check() is Ok) && blank(q.query.sql)
            ==> q.check() == Err::<(), ConfigErrorView>(
            ConfigErrorView::MissingRequiredField("query.sql"@),
        ),
        !blank(q.name) && (q.schedule matches Some(s) ==> s.check() is Ok) && !blank(
            q.query.sql,
        ) && blank(q.endpoint.url) ==> q.check() == Err::<(), ConfigErrorView>(
            ConfigErrorView::MissingRequiredField("endpoint.url"@),
        ),
{
    reveal_strlit("query");
    reveal_strlit("name");
    reveal_strlit("query.name");
    assert(dotted("query"@, "name"@) =~= "query.name"@);
}

/// A document whose database port is 0 or above 65535 is refused. Where
/// nothing that is checked before the port is broken (the version is there,
/// and the database's name, host and catalog are not blank), the refusal is
/// `OutOfRange`, names `database.port` and carries the port.
pub proof fn lemma_port_out_of_range(doc: YetiiConfigView)
    requires
        doc.databases.port == 0 || doc.databases.port > 65535,
    ensures
        doc.check() is Err,
        doc.version is Some && !blank(doc.databases.name) && !blank(doc.databases.host) && !blank(
            doc.databases.database,
        ) ==> doc.check() == Err::<(), ConfigErrorView>(
            ConfigErrorView::OutOfRange { field: "database.port"@, value: doc.databases.port },
        ),
{
    reveal_strlit("database.port");
    reveal_strlit("database");
    reveal_strlit("port");
    assert(dotted("database"@, "port"@) =~= "database.port"@);
}

/// A document with a query whose name is blank is refused. Where nothing
/// that is checked before that name is broken (the version is there, the
/// database and the global settings keep their rules, and so does every
/// query before this one), the refusal is `MissingRequiredField` and names
/// `queries[i].name`, where `i` is the index of the query.
pub proof fn lemma_query_without_name(doc: YetiiConfigView, i: int)
    requires
        0 <= i < doc.queries.len(),
        blank(doc.queries[i].name),
    ensures
        doc.check() is Err,
        doc.version is Some && doc.databases.check() is Ok && doc.global_settings.check() is Ok
            && (forall|j: int| 0 <= j < i ==> (#[trigger] doc.queries[j]).check() is Ok)
            ==> doc.check() == Err::<(), ConfigErrorView>(
            ConfigErrorView::MissingRequiredField(
                dotted(indexed("queries"@, i as nat), "name"@),
            ),
        ),
{
    lemma_failing_query_fails(doc.queries, 0, i);
    if forall|j: int| 0 <= j < i ==> (#[trigger] doc.queries[j]).check() is Ok {
        lemma_first_failing_query(doc.queries, 0, i);
    }
}

/// Reloading twice with the same document leaves the same document in force
/// as reloading once, and answers the same.
pub proof fn lemma_reload_is_idempotent(state: Option<YetiiConfigView>, doc: YetiiConfigView)
    ensures
        reloaded(reloaded(state, doc).0, doc) == reloaded(state, doc),
{
}

/// A failed reload leaves the document in force as it was, and a holder that
/// had a document has one after every reload.
pub proof fn lemma_reload_keeps_a_document(state: Option<YetiiConfigView>, doc: YetiiConfigView)
    ensures
        reloaded(state, doc).1 is Err ==> reloaded(state, doc).0 == state,
        state is Some ==> reloaded(state, doc).0 is Some,
        reloaded(state, doc).1 is Ok ==> reloaded(state, doc).0 == Some(doc) && doc.check() is Ok,
{
}

/// Loading installs nothing that breaks a rule: where the document in
/// force, if there is one, keeps every rule, so does the document in force
/// after a load at start and after a reload, whether they succeed or not.
pub proof fn lemma_loading_keeps_the_rules(state: Option<YetiiConfigView>, doc: YetiiConfigView)
    requires
        holds_accepted(state),
    ensures
        holds_accepted(loaded_once(state, doc).0),
        holds_accepted(reloaded(state, doc).0),
{
}

/// An environment that the document does not know changes nothing.
pub proof fn lemma_unknown_environment(doc: YetiiConfigView, env: Seq<char>)
    requires
        doc.environments matches Some(overrides) ==> lookup(overrides, env) is None,
    ensures
        doc.overlaid(env) == doc,
{
}

/// The overlay replaces whole parts and only those that the environment
/// sets: each of the global settings, the database and the monitoring is the
/// environment's where it sets one and the document's where it does not,
/// and everything else is the document's.
pub proof fn lemma_overlay_replaces_what_is_set(doc: YetiiConfigView, env: Seq<char>)
    requires
        doc.environments is Some,
        lookup(doc.environments->0, env) is Some,
    ensures
        ({
            let o = lookup(doc.environments->0, env)->0;
            let r = doc.overlaid(env);
            &&& r.global_settings == if o.global_settings is Some {
                o.global_settings->0
            } else {
                doc.global_settings
            }
            &&& r.databases == if o.databases is Some {
                o.databases->0
            } else {
                doc.databases
            }
            &&& r.monitoring == if o.monitoring is Some {
                o.monitoring
            } else {
                doc.monitoring
            }
            &&& r.version == doc.version
            &&& r.name == doc.name
            &&& r.description == doc.description
            &&& r.queries == doc.queries
            &&& r.execution == doc.execution
            &&& r.environments == doc.environments
        }),
{
}

/// The overlay of an overlay for the same environment is the overlay: the
/// environments themselves are never overlaid.
pub proof fn lemma_overlay_is_idempotent(doc: YetiiConfigView, env: Seq<char>)
    ensures
        doc.overlaid(env).overlaid(env) == doc.overlaid(env),
{
}

} // verus!
