//! The SQL clause that checks whether a block is in the block range of an
//! entity version.

use vstd::prelude::*;
use diesel::pg::PgQueryBuilder;
use crate::builder::{
    builder_binds, builder_sql, finish, new_builder, pass_binds, pass_builds_sql, pass_may_cache,
    pass_push_bind_param, pass_push_identifier, pass_push_sql, pass_sql,
    pass_unsafe_to_cache_prepared, push_bind_param, push_identifier, push_sql, QueryPass,
};
use crate::number::{BlockNumber, BLOCK_NUMBER_MAX};
use crate::range::BlockRange;
use crate::token::{
    bind_count, bound_blocks, lemma_quoted_plain, lemma_sql_text_concat, lemma_sql_text_push,
    pieces, placeholder, quoted, sql_text, SqlPiece, SqlToken,
};

verus! {

/// The name of the column in which the block range is stored.
pub const BLOCK_RANGE_COLUMN: &'static str = "block_range";

/// The SQL clause that checks that an entity version is current. Such a
/// version has an unbounded block range, but `upper_inf(block_range)` is
/// slow and cannot use the exclusion index on entity tables; the clause
/// asks instead whether the largest block number is in the range.
pub const BLOCK_RANGE_CURRENT: &'static str = "block_range @> 2147483647";

/// What is fixed when the process starts and holds for every clause that
/// it generates.
#[derive(Clone, Copy, Debug, PartialEq, Eq, Structural)]
pub struct ClauseConfig {
    /// Leave out the two comparisons that let a BRIN index on the block
    /// range be used. It is the way out should they slow queries down.
    pub disable_brin_block_range: bool,
}

impl ClauseConfig {
    /// The configuration for the value of the setting
    /// `DISABLE_BRIN_BLOCK_RANGE`, where `None` says that it is not set.
    pub open spec fn for_setting(setting: Option<Seq<char>>) -> ClauseConfig {
        ClauseConfig { disable_brin_block_range: setting is Some }
    }

    /// The configuration for the value of the setting
    /// `DISABLE_BRIN_BLOCK_RANGE`, where `None` says that it is not set.
    /// Setting it to anything, the empty string too, switches the two
    /// comparisons off.
    pub fn from_setting(setting: Option<&str>) -> (config: ClauseConfig)
        ensures
            config == ClauseConfig::for_setting(
                match setting {
                    Some(value) => Some(value@),
                    None => None,
                },
            ),
            config.disable_brin_block_range == setting.is_some(),
    {
        ClauseConfig { disable_brin_block_range: setting.is_some() }
    }
}

impl Default for ClauseConfig {
    /// The configuration where nothing is set.
    fn default() -> (config: ClauseConfig)
        ensures
            !config.disable_brin_block_range,
    {
        ClauseConfig { disable_brin_block_range: false }
    }
}

/// Generates the clause that checks whether `block` is in the block range
/// of an entity:
///
/// ```text
///       block_range @> {block}
///   and coalesce(upper(block_range), 2147483647) > {block}
///   and lower(block_range) <= {block}
/// ```
///
/// The first line decides. The other two follow from it and are there to
/// make the BRIN index on `block_range` usable for such queries.
#[derive(Clone, Copy, Debug)]
pub struct BlockRangeContainsClause<'a> {
    /// What stands before the column's name: empty, or a table's name or
    /// alias with the dot.
    pub table_prefix: &'a str,
    pub block: BlockNumber,
    pub config: ClauseConfig,
}

/// The pieces of `block_range @> {block}`.
pub open spec fn containment_pieces(table_prefix: Seq<char>, block: BlockNumber) -> Seq<SqlPiece> {
    seq![
        SqlPiece::Sql(table_prefix),
        SqlPiece::Identifier(BLOCK_RANGE_COLUMN@),
        SqlPiece::Sql(" @> /* contains */ "@),
        SqlPiece::Bind(block),
    ]
}

/// The pieces of the two comparisons for the BRIN index.
pub open spec fn brin_pieces(block: BlockNumber) -> Seq<SqlPiece> {
    seq![
        SqlPiece::Sql(" and coalesce(upper("@),
        SqlPiece::Identifier(BLOCK_RANGE_COLUMN@),
        SqlPiece::Sql("), 2147483647) > "@),
        SqlPiece::Bind(block),
        SqlPiece::Sql(" and lower("@),
        SqlPiece::Identifier(BLOCK_RANGE_COLUMN@),
        SqlPiece::Sql(") <= "@),
        SqlPiece::Bind(block),
    ]
}

impl<'a> BlockRangeContainsClause<'a> {
    /// The clause for `block` and the block range column behind
    /// `table_prefix`, with nothing switched off.
    pub fn new(table_prefix: &'a str, block: BlockNumber) -> (clause: Self)
        ensures
            clause.table_prefix@ == table_prefix@,
            clause.block == block,
            !clause.config.disable_brin_block_range,
    {
        BlockRangeContainsClause {
            table_prefix,
            block,
            config: ClauseConfig { disable_brin_block_range: false },
        }
    }

    /// The same clause under `config`.
    pub fn with_config(self, config: ClauseConfig) -> (clause: Self)
        ensures
            clause.table_prefix@ == self.table_prefix@,
            clause.block == self.block,
            clause.config == config,
    {
        BlockRangeContainsClause { table_prefix: self.table_prefix, block: self.block, config }
    }

    /// Whether the clause has the two comparisons for the BRIN index.
    /// For the largest block number they would be wrong: there the upper
    /// end of an open range does not compare as above the block. That
    /// block only comes with queries for which block ranges do not matter,
    /// so nothing is put in their place.
    pub open spec fn spec_is_expanded(self) -> bool {
        !self.config.disable_brin_block_range && self.block < BLOCK_NUMBER_MAX
    }

    /// Whether the clause has the two comparisons for the BRIN index.
    pub fn is_expanded(&self) -> (r: bool)
        ensures
            r == self.spec_is_expanded(),
            self.block == BLOCK_NUMBER_MAX ==> !r,
            self.config.disable_brin_block_range ==> !r,
    {
        !self.config.disable_brin_block_range && self.block < BLOCK_NUMBER_MAX
    }

    /// The pieces of the clause.
    pub open spec fn spec_pieces(self) -> Seq<SqlPiece> {
        if self.spec_is_expanded() {
            containment_pieces(self.table_prefix@, self.block) + brin_pieces(self.block)
        } else {
            containment_pieces(self.table_prefix@, self.block)
        }
    }

    /// Whether the clause holds of a row whose block range is `range`.
    pub open spec fn holds_for(self, range: BlockRange) -> bool {
        range.spec_contains(self.block as int) && (self.spec_is_expanded() ==> range.spec_brin_contains(
            self.block as int,
        ))
    }

    /// The clause in pieces, in the order in which a query builder is to
    /// get them.
    pub fn tokens(&self) -> (tokens: Vec<SqlToken<'a>>)
        ensures
            pieces(tokens@) == self.spec_pieces(),
    {
        let mut tokens: Vec<SqlToken<'a>> = Vec::new();
        tokens.push(SqlToken::Sql(self.table_prefix));
        tokens.push(SqlToken::Identifier(BLOCK_RANGE_COLUMN));
        tokens.push(SqlToken::Sql(" @> /* contains */ "));
        tokens.push(SqlToken::Bind(self.block));
        if self.is_expanded() {
            tokens.push(SqlToken::Sql(" and coalesce(upper("));
            tokens.push(SqlToken::Identifier(BLOCK_RANGE_COLUMN));
            tokens.push(SqlToken::Sql("), 2147483647) > "));
            tokens.push(SqlToken::Bind(self.block));
            tokens.push(SqlToken::Sql(" and lower("));
            tokens.push(SqlToken::Identifier(BLOCK_RANGE_COLUMN));
            tokens.push(SqlToken::Sql(") <= "));
            tokens.push(SqlToken::Bind(self.block));
        }
        assert(pieces(tokens@) =~= self.spec_pieces());
        tokens
    }

    /// Hands the clause to the pass that diesel walks the query with.
    /// The clause differs from block to block, so the pass is first told
    /// that the prepared statement must not be cached; then it gets the
    /// pieces of `tokens`, in order, until one of them fails. The pass
    /// that builds the SQL text never fails, and ends up with the text of
    /// the clause behind what it had; its builder must have room for the
    /// placeholders.
    pub fn walk_ast(&self, out: &mut QueryPass) -> (r: Result<(), diesel::result::Error>)
        requires
            pass_binds(*old(out)) + bind_count(self.spec_pieces()) <= u32::MAX,
        ensures
            !pass_may_cache(*final(out)),
            pass_builds_sql(*final(out)) == pass_builds_sql(*old(out)),
            pass_builds_sql(*old(out)) ==> r is Ok,
            pass_builds_sql(*old(out)) ==> pass_sql(*final(out)) == pass_sql(*old(out))
                + clause_sql(*self, pass_binds(*old(out))),
            pass_builds_sql(*old(out)) ==> pass_binds(*final(out)) == pass_binds(*old(out))
                + bind_count(self.spec_pieces()),
    {
        let ghost builds_sql = pass_builds_sql(*out);
        let ghost sql_before = pass_sql(*out);
        let ghost binds_before = pass_binds(*out);
        proof {
            lemma_clause_sql(*self, binds_before);
        }
        pass_unsafe_to_cache_prepared(out);
        let tokens = self.tokens();
        let ghost all = pieces(tokens@);
        let mut i: usize = 0;
        assert(all.take(0) =~= Seq::<SqlPiece>::empty());
        assert(sql_before + Seq::<char>::empty() =~= sql_before);
        while i < tokens.len()
            invariant
                i <= tokens.len(),
                all == pieces(tokens@),
                all == self.spec_pieces(),
                binds_before + bind_count(all) <= u32::MAX,
                builds_sql == pass_builds_sql(*old(out)),
                sql_before == pass_sql(*old(out)),
                binds_before == pass_binds(*old(out)),
                !pass_may_cache(*out),
                pass_builds_sql(*out) == builds_sql,
                builds_sql ==> pass_sql(*out) == sql_before + sql_text(
                    all.take(i as int),
                    binds_before,
                ),
                builds_sql ==> pass_binds(*out) == binds_before + bind_count(all.take(i as int)),
                !builds_sql ==> pass_binds(*out) == binds_before,
            decreases tokens.len() - i,
        {
            proof {
                assert(all.take(i + 1) =~= all.take(i as int).push(all[i as int]));
                assert(all[i as int] == tokens@[i as int]@);
                lemma_sql_text_push(all.take(i as int), all[i as int], binds_before);
                lemma_bind_count_take(all, i + 1);
            }
            let pushed = match tokens[i] {
                SqlToken::Sql(sql) => {
                    pass_push_sql(out, sql);
                    Ok(())
                },
                SqlToken::Identifier(name) => pass_push_identifier(out, name),
                SqlToken::Bind(block) => pass_push_bind_param(out, &block),
            };
            if pushed.is_err() {
                return pushed;
            }
            assert(builds_sql ==> pass_sql(*out) =~= sql_before + sql_text(
                all.take(i + 1),
                binds_before,
            ));
            i += 1;
        }
        assert(all.take(i as int) =~= all);
        Ok(())
    }

    /// Appends the SQL text of the clause to a query under construction.
    /// The placeholders for the block go on from the number that the
    /// builder has reached, which must leave room for them.
    pub fn to_sql(&self, out: &mut PgQueryBuilder) -> (r: Result<(), diesel::result::Error>)
        requires
            builder_binds(*old(out)) + bind_count(self.spec_pieces()) <= u32::MAX,
        ensures
            r is Ok,
            builder_sql(*final(out)) == builder_sql(*old(out)) + sql_text(
                self.spec_pieces(),
                builder_binds(*old(out)),
            ),
            builder_sql(*final(out)) == builder_sql(*old(out)) + clause_sql(
                *self,
                builder_binds(*old(out)),
            ),
            builder_binds(*final(out)) == builder_binds(*old(out)) + bind_count(self.spec_pieces()),
            builder_binds(*final(out)) == builder_binds(*old(out)) + if self.spec_is_expanded() {
                3nat
            } else {
                1nat
            },
    {
        proof {
            lemma_clause_sql(*self, builder_binds(*old(out)));
        }
        let tokens = self.tokens();
        let ghost all = pieces(tokens@);
        let ghost sql_before = builder_sql(*out);
        let ghost binds_before = builder_binds(*out);
        let mut i: usize = 0;
        assert(all.take(0) =~= Seq::<SqlPiece>::empty());
        assert(sql_before + Seq::<char>::empty() =~= sql_before);
        while i < tokens.len()
            invariant
                i <= tokens.len(),
                all == pieces(tokens@),
                all == self.spec_pieces(),
                binds_before + bind_count(all) <= u32::MAX,
                builder_sql(*out) == sql_before + sql_text(all.take(i as int), binds_before),
                builder_binds(*out) == binds_before + bind_count(all.take(i as int)),
            decreases tokens.len() - i,
        {
            proof {
                assert(all.take(i + 1) =~= all.take(i as int).push(all[i as int]));
                assert(all[i as int] == tokens@[i as int]@);
                lemma_sql_text_push(all.take(i as int), all[i as int], binds_before);
                lemma_bind_count_take(all, i + 1);
            }
            match tokens[i] {
                SqlToken::Sql(sql) => {
                    push_sql(out, sql);
                },
                SqlToken::Identifier(name) => {
                    let _ = push_identifier(out, name);
                },
                SqlToken::Bind(_) => {
                    push_bind_param(out);
                },
            }
            assert(builder_sql(*out) =~= sql_before + sql_text(all.take(i + 1), binds_before));
            i += 1;
        }
        assert(all.take(i as int) =~= all);
        Ok(())
    }

    /// The SQL text of the clause where it is a query's first part: the
    /// placeholders are numbered from 1.
    pub fn sql(&self) -> (text: String)
        ensures
            text@ == sql_text(self.spec_pieces(), 0),
            text@ == self.table_prefix@ + if self.spec_is_expanded() {
                "\"block_range\" @> /* contains */ $1 and coalesce(upper(\"block_range\"), 2147483647) > $2 and lower(\"block_range\") <= $3"@
            } else {
                "\"block_range\" @> /* contains */ $1"@
            },
    {
        let mut builder = new_builder();
        proof {
            lemma_clause_sql(*self, 0);
            lemma_first_clause_sql(*self);
        }
        let _ = self.to_sql(&mut builder);
        assert(Seq::<char>::empty() + sql_text(self.spec_pieces(), 0) =~= sql_text(
            self.spec_pieces(),
            0,
        ));
        finish(builder)
    }

    /// The block numbers to bind to the placeholders of the clause, in
    /// order: the block, once for each placeholder.
    pub fn binds(&self) -> (binds: Vec<BlockNumber>)
        ensures
            binds@ == bound_blocks(self.spec_pieces()),
            binds@ == clause_binds(*self),
    {
        let tokens = self.tokens();
        let ghost all = pieces(tokens@);
        let mut binds: Vec<BlockNumber> = Vec::new();
        let mut i: usize = 0;
        assert(all.take(0) =~= Seq::<SqlPiece>::empty());
        while i < tokens.len()
            invariant
                i <= tokens.len(),
                all == pieces(tokens@),
                binds@ == bound_blocks(all.take(i as int)),
            decreases tokens.len() - i,
        {
            proof {
                assert(all.take(i + 1) =~= all.take(i as int).push(all[i as int]));
                assert(all[i as int] == tokens@[i as int]@);
                lemma_sql_text_push(all.take(i as int), all[i as int], 0);
            }
            match tokens[i] {
                SqlToken::Bind(block) => {
                    binds.push(block);
                },
                _ => {},
            }
            i += 1;
        }
        proof {
            assert(all.take(i as int) =~= all);
            lemma_clause_sql(*self, 0);
        }
        binds
    }

    /// Whether the clause holds of a row whose block range is `range`:
    /// what the database answers for it.
    pub fn matches(&self, range: &BlockRange) -> (r: bool)
        ensures
            r == self.holds_for(*range),
    {
        if !range.contains(self.block) {
            return false;
        }
        if !self.is_expanded() {
            return true;
        }
        range.brin_contains(self.block)
    }
}

/// The text of the clause for a query that has `binds_before` bind
/// parameters already.
pub open spec fn clause_sql(clause: BlockRangeContainsClause<'_>, binds_before: nat) -> Seq<char> {
    let containment = clause.table_prefix@ + "\"block_range\" @> /* contains */ "@ + placeholder(
        binds_before + 1,
    );
    if clause.spec_is_expanded() {
        containment + " and coalesce(upper(\"block_range\"), 2147483647) > "@ + placeholder(
            binds_before + 2,
        ) + " and lower(\"block_range\") <= "@ + placeholder(binds_before + 3)
    } else {
        containment
    }
}

/// The block numbers that the clause binds: the block, once for each
/// placeholder.
pub open spec fn clause_binds(clause: BlockRangeContainsClause<'_>) -> Seq<BlockNumber> {
    if clause.spec_is_expanded() {
        seq![clause.block, clause.block, clause.block]
    } else {
        seq![clause.block]
    }
}

/// The text that a query builder makes of the pieces of a clause, and the
/// block numbers that they bind. The column's name needs no more quoting
/// than a double quote before and after it, and the placeholders are
/// numbered in a row.
pub proof fn lemma_clause_sql(clause: BlockRangeContainsClause<'_>, binds_before: nat)
    ensures
        sql_text(clause.spec_pieces(), binds_before) == clause_sql(clause, binds_before),
        bound_blocks(clause.spec_pieces()) == clause_binds(clause),
        bind_count(clause.spec_pieces()) == clause_binds(clause).len(),
{
    let first = containment_pieces(clause.table_prefix@, clause.block);
    lemma_containment_sql(clause.table_prefix@, clause.block, binds_before);
    if clause.spec_is_expanded() {
        let rest = brin_pieces(clause.block);
        lemma_brin_sql(clause.block, binds_before + 1);
        lemma_sql_text_concat(first, rest, binds_before);
        assert(sql_text(first + rest, binds_before) =~= clause_sql(clause, binds_before));
        assert(bound_blocks(first + rest) =~= clause_binds(clause));
    }
}

proof fn lemma_containment_sql(table_prefix: Seq<char>, block: BlockNumber, binds_before: nat)
    ensures
        sql_text(containment_pieces(table_prefix, block), binds_before) == table_prefix
            + "\"block_range\" @> /* contains */ "@ + placeholder(binds_before + 1),
        bound_blocks(containment_pieces(table_prefix, block)) == seq![block],
        bind_count(containment_pieces(table_prefix, block)) == 1,
{
    let n = binds_before;
    let all = containment_pieces(table_prefix, block);
    let empty = Seq::<SqlPiece>::empty();
    lemma_column_texts();
    lemma_sql_text_push(empty, all[0], n);
    lemma_sql_text_push(empty.push(all[0]), all[1], n);
    lemma_sql_text_push(empty.push(all[0]).push(all[1]), all[2], n);
    lemma_sql_text_push(empty.push(all[0]).push(all[1]).push(all[2]), all[3], n);
    assert(empty.push(all[0]).push(all[1]).push(all[2]).push(all[3]) =~= all);
    assert(sql_text(all, n) =~= table_prefix + (quoted(BLOCK_RANGE_COLUMN@)
        + " @> /* contains */ "@) + placeholder(n + 1));
    assert(bound_blocks(all) =~= seq![block]);
}

proof fn lemma_brin_sql(block: BlockNumber, binds_before: nat)
    ensures
        sql_text(brin_pieces(block), binds_before)
            == " and coalesce(upper(\"block_range\"), 2147483647) > "@ + placeholder(
            binds_before + 1,
        ) + " and lower(\"block_range\") <= "@ + placeholder(binds_before + 2),
        bound_blocks(brin_pieces(block)) == seq![block, block],
        bind_count(brin_pieces(block)) == 2,
{
    let n = binds_before;
    let all = brin_pieces(block);
    let empty = Seq::<SqlPiece>::empty();
    lemma_column_texts();
    lemma_sql_text_push(empty, all[0], n);
    lemma_sql_text_push(empty.push(all[0]), all[1], n);
    lemma_sql_text_push(empty.push(all[0]).push(all[1]), all[2], n);
    lemma_sql_text_push(empty.push(all[0]).push(all[1]).push(all[2]), all[3], n);
    let half = empty.push(all[0]).push(all[1]).push(all[2]).push(all[3]);
    assert(sql_text(half, n) =~= (" and coalesce(upper("@ + quoted(BLOCK_RANGE_COLUMN@)
        + "), 2147483647) > "@) + placeholder(n + 1));
    assert(bound_blocks(half) =~= seq![block]);
    lemma_sql_text_push(half, all[4], n);
    lemma_sql_text_push(half.push(all[4]), all[5], n);
    lemma_sql_text_push(half.push(all[4]).push(all[5]), all[6], n);
    lemma_sql_text_push(half.push(all[4]).push(all[5]).push(all[6]), all[7], n);
    assert(half.push(all[4]).push(all[5]).push(all[6]).push(all[7]) =~= all);
    assert(sql_text(all, n) =~= sql_text(half, n) + (" and lower("@ + quoted(BLOCK_RANGE_COLUMN@)
        + ") <= "@) + placeholder(n + 2));
    assert(bound_blocks(all) =~= seq![block, block]);
}

/// The texts around the quoted name of the block range column, each as
/// one piece of text.
proof fn lemma_column_texts()
    ensures
        quoted(BLOCK_RANGE_COLUMN@) + " @> /* contains */ "@
            == "\"block_range\" @> /* contains */ "@,
        " and coalesce(upper("@ + quoted(BLOCK_RANGE_COLUMN@) + "), 2147483647) > "@
            == " and coalesce(upper(\"block_range\"), 2147483647) > "@,
        " and lower("@ + quoted(BLOCK_RANGE_COLUMN@) + ") <= "@
            == " and lower(\"block_range\") <= "@,
{
    reveal_strlit("block_range");
    lemma_quoted_plain(BLOCK_RANGE_COLUMN@);
    let name = quoted(BLOCK_RANGE_COLUMN@);
    assert(name.len() == 13);
    assert(name =~= seq!['"', 'b', 'l', 'o', 'c', 'k', '_', 'r', 'a', 'n', 'g', 'e', '"']);
    assert(name + " @> /* contains */ "@ =~= "\"block_range\" @> /* contains */ "@) by {
        reveal_strlit(" @> /* contains */ ");
        reveal_strlit("\"block_range\" @> /* contains */ ");
    }
    assert(" and coalesce(upper("@ + name + "), 2147483647) > "@
        =~= " and coalesce(upper(\"block_range\"), 2147483647) > "@) by {
        reveal_strlit(" and coalesce(upper(");
        reveal_strlit("), 2147483647) > ");
        reveal_strlit(" and coalesce(upper(\"block_range\"), 2147483647) > ");
    }
    assert(" and lower("@ + name + ") <= "@ =~= " and lower(\"block_range\") <= "@) by {
        reveal_strlit(" and lower(");
        reveal_strlit(") <= ");
        reveal_strlit(" and lower(\"block_range\") <= ");
    }
}

/// The text of a clause that is a query's first part, with its
/// placeholders written out.
proof fn lemma_first_clause_sql(clause: BlockRangeContainsClause<'_>)
    ensures
        clause_sql(clause, 0) == clause.table_prefix@ + if clause.spec_is_expanded() {
            "\"block_range\" @> /* contains */ $1 and coalesce(upper(\"block_range\"), 2147483647) > $2 and lower(\"block_range\") <= $3"@
        } else {
            "\"block_range\" @> /* contains */ $1"@
        },
{
    assert(placeholder(1) =~= seq!['$', '1']);
    assert(placeholder(2) =~= seq!['$', '2']);
    assert(placeholder(3) =~= seq!['$', '3']);
    reveal_strlit("\"block_range\" @> /* contains */ ");
    reveal_strlit("\"block_range\" @> /* contains */ $1");
    let containment = "\"block_range\" @> /* contains */ "@ + placeholder(1);
    assert(containment =~= "\"block_range\" @> /* contains */ $1"@);
    assert(clause.table_prefix@ + "\"block_range\" @> /* contains */ "@ + placeholder(1)
        =~= clause.table_prefix@ + containment);
    if clause.spec_is_expanded() {
        reveal_strlit(" and coalesce(upper(\"block_range\"), 2147483647) > ");
        reveal_strlit(" and lower(\"block_range\") <= ");
        reveal_strlit(
            "\"block_range\" @> /* contains */ $1 and coalesce(upper(\"block_range\"), 2147483647) > $2 and lower(\"block_range\") <= $3",
        );
        let whole = containment + " and coalesce(upper(\"block_range\"), 2147483647) > "@
            + placeholder(2) + " and lower(\"block_range\") <= "@ + placeholder(3);
        assert(whole
            =~= "\"block_range\" @> /* contains */ $1 and coalesce(upper(\"block_range\"), 2147483647) > $2 and lower(\"block_range\") <= $3"@);
        assert(clause_sql(clause, 0) =~= clause.table_prefix@ + whole);
    }
}

/// Among the first pieces there are no more bind parameters than among
/// all of them.
proof fn lemma_bind_count_take(pieces: Seq<SqlPiece>, n: int)
    requires
        0 <= n <= pieces.len(),
    ensures
        bind_count(pieces.take(n)) <= bind_count(pieces),
    decreases pieces.len(),
{
    if n < pieces.len() {
        lemma_bind_count_take(pieces.drop_last(), n);
        assert(pieces.drop_last().take(n) =~= pieces.take(n));
    } else {
        assert(pieces.take(n) =~= pieces);
    }
}

} // verus!
