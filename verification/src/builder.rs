//! Diesel's query builder for PostgreSQL, and the pass that diesel walks a
//! query with, as this crate uses them.

use vstd::prelude::*;
use diesel::pg::Pg;
use diesel::pg::PgQueryBuilder;
use diesel::query_builder::AstPass;
use diesel::query_builder::QueryBuilder;
use diesel::sql_types::Integer;
use crate::number::BlockNumber;
use crate::token::{placeholder, quoted};

verus! {

#[verifier::external_type_specification]
#[verifier::external_body]
pub struct ExPgQueryBuilder(PgQueryBuilder);

#[verifier::external_type_specification]
#[verifier::external_body]
pub struct ExQueryError(diesel::result::Error);

/// The SQL text that a query builder holds.
pub uninterp spec fn builder_sql(builder: PgQueryBuilder) -> Seq<char>;

/// The number of bind parameters that a query builder has numbered.
pub uninterp spec fn builder_binds(builder: PgQueryBuilder) -> nat;

/// `PgQueryBuilder::new`: a builder with no text and no bind parameters.
#[verifier::external_body]
pub(crate) fn new_builder() -> (builder: PgQueryBuilder)
    ensures
        builder_sql(builder) == Seq::<char>::empty(),
        builder_binds(builder) == 0,
{
    PgQueryBuilder::new()
}

/// `PgQueryBuilder::push_sql`: appends `sql` to the text.
#[verifier::external_body]
pub(crate) fn push_sql(out: &mut PgQueryBuilder, sql: &str)
    ensures
        builder_sql(*final(out)) == builder_sql(*old(out)) + sql@,
        builder_binds(*final(out)) == builder_binds(*old(out)),
{
    out.push_sql(sql)
}

/// `PgQueryBuilder::push_identifier`: appends the identifier between
/// double quotes, with each double quote inside it doubled. It does not
/// fail.
#[verifier::external_body]
pub(crate) fn push_identifier(out: &mut PgQueryBuilder, identifier: &str) -> (r: Result<(), diesel::result::Error>)
    ensures
        r is Ok,
        builder_sql(*final(out)) == builder_sql(*old(out)) + quoted(identifier@),
        builder_binds(*final(out)) == builder_binds(*old(out)),
{
    out.push_identifier(identifier)
}

/// `PgQueryBuilder::push_bind_param`: counts one more bind parameter and
/// appends `$` and its number in decimal. The count is a `u32`, and the
/// builder panics where it would overflow.
#[verifier::external_body]
pub(crate) fn push_bind_param(out: &mut PgQueryBuilder)
    requires
        builder_binds(*old(out)) < u32::MAX,
    ensures
        builder_sql(*final(out)) == builder_sql(*old(out)) + placeholder(builder_binds(*old(out)) + 1),
        builder_binds(*final(out)) == builder_binds(*old(out)) + 1,
{
    out.push_bind_param()
}

/// `PgQueryBuilder::finish`: the text that the builder holds.
#[verifier::external_body]
pub(crate) fn finish(builder: PgQueryBuilder) -> (sql: String)
    ensures
        sql@ == builder_sql(builder),
{
    builder.finish()
}

/// The pass that diesel hands to `QueryFragment::walk_ast`, for PostgreSQL.
/// Diesel walks a query several times, each time with a pass of another
/// kind: one builds the SQL text, one collects the values of the bind
/// parameters, one asks whether the prepared statement may be cached.
/// A query fragment makes the same calls on each of them, and cannot tell
/// them apart.
#[verifier::external_body]
pub struct QueryPass<'a>(pub AstPass<'a, Pg>);

/// Whether the pass is the one that builds the SQL text.
pub uninterp spec fn pass_builds_sql(pass: QueryPass<'_>) -> bool;

/// The SQL text that the query builder behind the pass holds, for the
/// pass that builds the SQL text.
pub uninterp spec fn pass_sql(pass: QueryPass<'_>) -> Seq<char>;

/// The number of bind parameters that the query builder behind the pass
/// has numbered, for the pass that builds the SQL text; 0 for another.
pub uninterp spec fn pass_binds(pass: QueryPass<'_>) -> nat;

/// Whether the pass is the one that asks if the prepared statement may
/// be cached, and its answer so far is yes.
pub uninterp spec fn pass_may_cache(pass: QueryPass<'_>) -> bool;

/// `AstPass::unsafe_to_cache_prepared`: after it the pass does not say
/// that the statement may be cached. It touches nothing else.
#[verifier::external_body]
pub(crate) fn pass_unsafe_to_cache_prepared(out: &mut QueryPass)
    ensures
        !pass_may_cache(*final(out)),
        pass_builds_sql(*final(out)) == pass_builds_sql(*old(out)),
        pass_sql(*final(out)) == pass_sql(*old(out)),
        pass_binds(*final(out)) == pass_binds(*old(out)),
{
    out.0.unsafe_to_cache_prepared()
}

/// `AstPass::push_sql`: the pass that builds the SQL text hands `sql` to
/// `PgQueryBuilder::push_sql`, which appends it. The call never changes
/// the answer on caching.
#[verifier::external_body]
pub(crate) fn pass_push_sql(out: &mut QueryPass, sql: &str)
    ensures
        pass_may_cache(*final(out)) == pass_may_cache(*old(out)),
        pass_builds_sql(*final(out)) == pass_builds_sql(*old(out)),
        pass_binds(*final(out)) == pass_binds(*old(out)),
        pass_builds_sql(*old(out)) ==> pass_sql(*final(out)) == pass_sql(*old(out)) + sql@,
{
    out.0.push_sql(sql)
}

/// `AstPass::push_identifier`: the pass that builds the SQL text hands
/// the identifier to `PgQueryBuilder::push_identifier`, which appends it
/// between double quotes, with each double quote inside it doubled. For
/// PostgreSQL no pass fails on it, and none changes the answer on caching.
#[verifier::external_body]
pub(crate) fn pass_push_identifier(out: &mut QueryPass, identifier: &str) -> (r: Result<
    (),
    diesel::result::Error,
>)
    ensures
        r is Ok,
        pass_may_cache(*final(out)) == pass_may_cache(*old(out)),
        pass_builds_sql(*final(out)) == pass_builds_sql(*old(out)),
        pass_binds(*final(out)) == pass_binds(*old(out)),
        pass_builds_sql(*old(out)) ==> pass_sql(*final(out)) == pass_sql(*old(out)) + quoted(
            identifier@,
        ),
{
    out.0.push_identifier(identifier)
}

/// `AstPass::push_bind_param` for an `Integer`: the pass that builds the
/// SQL text calls `PgQueryBuilder::push_bind_param`, which counts one
/// more bind parameter in a `u32`, panics where that would overflow, and
/// appends `$` and the number in decimal; that pass does not fail. The
/// passes that take the value may fail. None changes the answer on
/// caching.
#[verifier::external_body]
pub(crate) fn pass_push_bind_param(out: &mut QueryPass, block: &BlockNumber) -> (r: Result<
    (),
    diesel::result::Error,
>)
    requires
        pass_binds(*old(out)) < u32::MAX,
    ensures
        pass_may_cache(*final(out)) == pass_may_cache(*old(out)),
        pass_builds_sql(*final(out)) == pass_builds_sql(*old(out)),
        pass_builds_sql(*old(out)) ==> r is Ok,
        pass_builds_sql(*old(out)) ==> pass_sql(*final(out)) == pass_sql(*old(out)) + placeholder(
            pass_binds(*old(out)) + 1,
        ),
        pass_builds_sql(*old(out)) ==> pass_binds(*final(out)) == pass_binds(*old(out)) + 1,
        !pass_builds_sql(*old(out)) ==> pass_binds(*final(out)) == pass_binds(*old(out)),
{
    out.0.push_bind_param::<Integer, _>(block)
}

} // verus!
