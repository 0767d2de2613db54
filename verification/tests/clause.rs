use block_range::{
    BlockRange, BlockRangeContainsClause, ClauseConfig, QueryPass, SqlToken, BLOCK_NUMBER_MAX,
    BLOCK_RANGE_COLUMN, BLOCK_RANGE_CURRENT, BLOCK_UNVERSIONED,
};
use diesel::pg::{Pg, PgQueryBuilder};
use diesel::query_builder::{AstPass, QueryBuilder, QueryFragment};
use diesel::result::QueryResult;
use std::ops::Bound;

const CONTAINS: &str = "\"block_range\" @> /* contains */ $1";
const EXPANDED: &str = "\"block_range\" @> /* contains */ $1 and coalesce(upper(\"block_range\"), 2147483647) > $2 and lower(\"block_range\") <= $3";

struct Fragment<'a>(BlockRangeContainsClause<'a>);

impl<'a> QueryFragment<Pg> for Fragment<'a> {
    fn walk_ast(&self, out: AstPass<Pg>) -> QueryResult<()> {
        let mut pass = QueryPass(out);
        self.0.walk_ast(&mut pass)
    }
}

fn disabled() -> ClauseConfig {
    ClauseConfig::from_setting(Some(""))
}

#[test]
fn column_and_current_clause_are_as_stored() {
    assert_eq!(BLOCK_RANGE_COLUMN, "block_range");
    assert_eq!(BLOCK_RANGE_CURRENT, "block_range @> 2147483647");
    assert_eq!(BLOCK_RANGE_CURRENT, format!("{} @> {}", BLOCK_RANGE_COLUMN, BLOCK_NUMBER_MAX));
}

#[test]
fn sql_has_the_brin_comparisons_below_the_largest_block() {
    assert_eq!(BlockRangeContainsClause::new("", 5).sql(), EXPANDED);
    assert_eq!(BlockRangeContainsClause::new("", 0).sql(), EXPANDED);
    assert_eq!(BlockRangeContainsClause::new("", -1).sql(), EXPANDED);
}

#[test]
fn sql_has_the_brin_comparisons_just_below_the_largest_block() {
    let clause = BlockRangeContainsClause::new("", BLOCK_NUMBER_MAX - 1);
    assert!(clause.is_expanded());
    assert_eq!(clause.sql(), EXPANDED);
    assert_eq!(clause.binds(), vec![2147483646, 2147483646, 2147483646]);
}

#[test]
fn sql_is_the_containment_test_alone_for_the_largest_block() {
    let clause = BlockRangeContainsClause::new("", BLOCK_NUMBER_MAX);
    assert!(!clause.is_expanded());
    assert_eq!(clause.sql(), CONTAINS);
    assert_eq!(clause.binds(), vec![2147483647]);
    let off = clause.with_config(disabled());
    assert!(!off.is_expanded());
    assert_eq!(off.sql(), CONTAINS);
}

#[test]
fn sql_puts_the_table_prefix_first() {
    assert_eq!(BlockRangeContainsClause::new("c.", 5).sql(), format!("c.{}", EXPANDED));
    assert_eq!(
        BlockRangeContainsClause::new("c.", BLOCK_NUMBER_MAX).sql(),
        "c.\"block_range\" @> /* contains */ $1"
    );
}

#[test]
fn setting_switches_the_brin_comparisons_off() {
    for value in ["", "1", "true", "false", "0"] {
        let config = ClauseConfig::from_setting(Some(value));
        assert!(config.disable_brin_block_range);
        for block in [0, 5, BLOCK_NUMBER_MAX - 1, BLOCK_NUMBER_MAX] {
            let clause = BlockRangeContainsClause::new("", block).with_config(config);
            assert!(!clause.is_expanded());
            assert_eq!(clause.sql(), CONTAINS);
            assert_eq!(clause.binds(), vec![block]);
        }
    }
}

#[test]
fn without_the_setting_the_brin_comparisons_are_there() {
    let config = ClauseConfig::from_setting(None);
    assert!(!config.disable_brin_block_range);
    assert_eq!(config, ClauseConfig::default());
    let clause = BlockRangeContainsClause::new("", 5).with_config(config);
    assert!(clause.is_expanded());
    assert_eq!(clause.sql(), EXPANDED);
    assert_eq!(clause.binds(), vec![5, 5, 5]);
    assert!(BlockRangeContainsClause::new("", 5).is_expanded());
}

#[test]
fn tokens_come_in_the_order_of_the_text() {
    let tokens = BlockRangeContainsClause::new("c.", 7).tokens();
    assert_eq!(tokens.len(), 12);
    let mut text = String::new();
    for token in &tokens {
        match token {
            SqlToken::Sql(sql) => text.push_str(sql),
            SqlToken::Identifier(name) => {
                text.push('<');
                text.push_str(name);
                text.push('>');
            }
            SqlToken::Bind(block) => text.push_str(&format!("{{{}}}", block)),
        }
    }
    assert_eq!(
        text,
        "c.<block_range> @> /* contains */ {7} and coalesce(upper(<block_range>), 2147483647) > {7} and lower(<block_range>) <= {7}"
    );
    let tokens = BlockRangeContainsClause::new("c.", BLOCK_NUMBER_MAX).tokens();
    assert_eq!(tokens.len(), 4);
}

#[test]
fn to_sql_goes_on_from_what_the_builder_holds() {
    let mut builder = PgQueryBuilder::new();
    builder.push_sql("select 1 from t where id = ");
    builder.push_bind_param();
    builder.push_sql(" and ");
    let clause = BlockRangeContainsClause::new("t.", 9);
    assert!(clause.to_sql(&mut builder).is_ok());
    assert_eq!(
        builder.finish(),
        "select 1 from t where id = $1 and t.\"block_range\" @> /* contains */ $2 and coalesce(upper(\"block_range\"), 2147483647) > $3 and lower(\"block_range\") <= $4"
    );
}

#[test]
fn to_sql_numbers_placeholders_beyond_nine() {
    let mut builder = PgQueryBuilder::new();
    for _ in 0..8 {
        builder.push_bind_param();
    }
    let mut expected = String::from("$1$2$3$4$5$6$7$8");
    assert!(BlockRangeContainsClause::new("", 3).to_sql(&mut builder).is_ok());
    expected.push_str("\"block_range\" @> /* contains */ $9 and coalesce(upper(\"block_range\"), 2147483647) > $10 and lower(\"block_range\") <= $11");
    assert_eq!(builder.finish(), expected);
}

#[test]
fn walk_ast_builds_the_same_query_through_diesel() {
    let fragment = Fragment(BlockRangeContainsClause::new("c.", 5));
    assert_eq!(
        diesel::debug_query::<Pg, _>(&fragment).to_string(),
        format!("c.{} -- binds: [5, 5, 5]", EXPANDED)
    );
    let mut builder = PgQueryBuilder::new();
    fragment.to_sql(&mut builder).unwrap();
    assert_eq!(builder.finish(), fragment.0.sql());

    let fragment = Fragment(BlockRangeContainsClause::new("", BLOCK_NUMBER_MAX));
    assert_eq!(
        diesel::debug_query::<Pg, _>(&fragment).to_string(),
        format!("{} -- binds: [2147483647]", CONTAINS)
    );
    let fragment = Fragment(BlockRangeContainsClause::new("", 5).with_config(disabled()));
    assert_eq!(
        diesel::debug_query::<Pg, _>(&fragment).to_string(),
        format!("{} -- binds: [5]", CONTAINS)
    );
}

#[test]
fn walk_ast_forbids_caching_the_prepared_statement() {
    for block in [5, BLOCK_NUMBER_MAX] {
        let fragment = Fragment(BlockRangeContainsClause::new("", block));
        assert_eq!(fragment.is_safe_to_cache_prepared().unwrap(), false);
    }
}

#[test]
fn clause_finds_a_range_from_its_start_on() {
    let range = BlockRange::from(1000..);
    for block in [1000, 1001, 5000, BLOCK_NUMBER_MAX - 1, BLOCK_NUMBER_MAX] {
        assert!(BlockRangeContainsClause::new("", block).matches(&range));
        assert!(BlockRangeContainsClause::new("", block).with_config(disabled()).matches(&range));
    }
    for block in [999, 0, -1] {
        assert!(!BlockRangeContainsClause::new("", block).matches(&range));
        assert!(!BlockRangeContainsClause::new("", block).with_config(disabled()).matches(&range));
    }
}

#[test]
fn clause_finds_unversioned_entities_at_every_block() {
    let range = BlockRange::from(BLOCK_UNVERSIONED..);
    for block in [0, 1, 1000, BLOCK_NUMBER_MAX - 1, BLOCK_NUMBER_MAX] {
        assert!(BlockRangeContainsClause::new("", block).matches(&range));
        assert!(BlockRangeContainsClause::new("", block).with_config(disabled()).matches(&range));
    }
}

#[test]
fn brin_comparisons_do_not_change_what_the_clause_finds() {
    let bounds = [
        Bound::Included(3),
        Bound::Excluded(3),
        Bound::Included(6),
        Bound::Excluded(6),
        Bound::Included(BLOCK_NUMBER_MAX - 1),
        Bound::Unbounded,
    ];
    for lower in bounds {
        if lower == Bound::Unbounded {
            continue;
        }
        for upper in bounds {
            let range = BlockRange::new(lower, upper);
            for block in [-1, 2, 3, 4, 5, 6, 7, BLOCK_NUMBER_MAX - 1, BLOCK_NUMBER_MAX] {
                let clause = BlockRangeContainsClause::new("", block);
                assert_eq!(clause.matches(&range), range.contains(block));
                assert_eq!(clause.with_config(disabled()).matches(&range), range.contains(block));
            }
        }
    }
}
