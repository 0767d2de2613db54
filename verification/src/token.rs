//! The pieces that a SQL clause is put together from, and the text that
//! PostgreSQL's query builder makes of them.

use vstd::prelude::*;
use crate::number::BlockNumber;

verus! {

/// One piece of a SQL clause, in the three forms that a query builder
/// takes them in.
#[derive(Clone, Copy, Debug)]
pub enum SqlToken<'a> {
    /// SQL text, taken as it is.
    Sql(&'a str),
    /// The name of a column or a table, which the builder quotes.
    Identifier(&'a str),
    /// A block number that is sent apart from the text; the text gets a
    /// numbered placeholder.
    Bind(BlockNumber),
}

/// What a `SqlToken` stands for.
pub enum SqlPiece {
    Sql(Seq<char>),
    Identifier(Seq<char>),
    Bind(BlockNumber),
}

impl<'a> View for SqlToken<'a> {
    type V = SqlPiece;

    open spec fn view(&self) -> SqlPiece {
        match *self {
            SqlToken::Sql(sql) => SqlPiece::Sql(sql@),
            SqlToken::Identifier(name) => SqlPiece::Identifier(name@),
            SqlToken::Bind(block) => SqlPiece::Bind(block),
        }
    }
}

/// The pieces that the tokens stand for, in order.
pub open spec fn pieces(tokens: Seq<SqlToken<'_>>) -> Seq<SqlPiece> {
    Seq::new(tokens.len(), |i: int| tokens[i]@)
}

/// `text` with every double quote in it doubled.
pub open spec fn doubled_quotes(text: Seq<char>) -> Seq<char>
    decreases text.len(),
{
    if text.len() == 0 {
        Seq::empty()
    } else if text.last() == '"' {
        doubled_quotes(text.drop_last()).push('"').push('"')
    } else {
        doubled_quotes(text.drop_last()).push(text.last())
    }
}

/// An identifier as PostgreSQL wants it quoted: between double quotes,
/// with the double quotes inside it doubled.
pub open spec fn quoted(identifier: Seq<char>) -> Seq<char> {
    seq!['"'] + doubled_quotes(identifier) + seq!['"']
}

/// The character for a digit below ten.
pub open spec fn digit(d: nat) -> char {
    (d + 48) as u8 as char
}

/// `n` in decimal digits, without leading zeros.
pub open spec fn decimal(n: nat) -> Seq<char>
    decreases n,
{
    if n < 10 {
        seq![digit(n)]
    } else {
        decimal(n / 10).push(digit(n % 10))
    }
}

/// The placeholder for the bind parameter with the given number.
pub open spec fn placeholder(number: nat) -> Seq<char> {
    seq!['$'] + decimal(number)
}

/// How many of the pieces are bind parameters.
pub open spec fn bind_count(pieces: Seq<SqlPiece>) -> nat
    decreases pieces.len(),
{
    if pieces.len() == 0 {
        0
    } else if pieces.last() is Bind {
        bind_count(pieces.drop_last()) + 1
    } else {
        bind_count(pieces.drop_last())
    }
}

/// The block numbers that the pieces bind, in order.
pub open spec fn bound_blocks(pieces: Seq<SqlPiece>) -> Seq<BlockNumber>
    decreases pieces.len(),
{
    if pieces.len() == 0 {
        Seq::empty()
    } else {
        match pieces.last() {
            SqlPiece::Bind(block) => bound_blocks(pieces.drop_last()).push(block),
            _ => bound_blocks(pieces.drop_last()),
        }
    }
}

/// The text of one piece, where `binds_before` bind parameters came before it.
pub open spec fn piece_text(piece: SqlPiece, binds_before: nat) -> Seq<char> {
    match piece {
        SqlPiece::Sql(sql) => sql,
        SqlPiece::Identifier(name) => quoted(name),
        SqlPiece::Bind(_) => placeholder(binds_before + 1),
    }
}

/// The SQL text of the pieces, for a query that has `binds_before` bind
/// parameters already: text as it is, identifiers quoted, and for each
/// bind parameter the placeholder with the next number.
pub open spec fn sql_text(pieces: Seq<SqlPiece>, binds_before: nat) -> Seq<char>
    decreases pieces.len(),
{
    if pieces.len() == 0 {
        Seq::empty()
    } else {
        sql_text(pieces.drop_last(), binds_before) + piece_text(
            pieces.last(),
            binds_before + bind_count(pieces.drop_last()),
        )
    }
}

/// An identifier without a double quote in it is quoted by putting it
/// between double quotes.
pub proof fn lemma_quoted_plain(identifier: Seq<char>)
    requires
        forall|i: int| 0 <= i < identifier.len() ==> identifier[i] != '"',
    ensures
        quoted(identifier) == seq!['"'] + identifier + seq!['"'],
{
    lemma_doubled_quotes_plain(identifier);
}

proof fn lemma_doubled_quotes_plain(text: Seq<char>)
    requires
        forall|i: int| 0 <= i < text.len() ==> text[i] != '"',
    ensures
        doubled_quotes(text) == text,
    decreases text.len(),
{
    if text.len() > 0 {
        lemma_doubled_quotes_plain(text.drop_last());
        assert(text.drop_last().push(text.last()) =~= text);
    } else {
        assert(text =~= Seq::empty());
    }
}

/// The text of a run of pieces with one more piece behind it; likewise
/// the count of its bind parameters and the blocks that it binds.
pub proof fn lemma_sql_text_push(pieces: Seq<SqlPiece>, piece: SqlPiece, binds_before: nat)
    ensures
        sql_text(pieces.push(piece), binds_before) == sql_text(pieces, binds_before) + piece_text(
            piece,
            binds_before + bind_count(pieces),
        ),
        bind_count(pieces.push(piece)) == bind_count(pieces) + if piece is Bind { 1nat } else { 0nat },
        bound_blocks(pieces.push(piece)) == match piece {
            SqlPiece::Bind(block) => bound_blocks(pieces).push(block),
            _ => bound_blocks(pieces),
        },
{
    assert(pieces.push(piece).drop_last() =~= pieces);
    assert(pieces.push(piece).last() == piece);
}

/// The text of two runs of pieces, one after the other: the second run
/// goes on numbering where the first one stopped.
pub proof fn lemma_sql_text_concat(first: Seq<SqlPiece>, second: Seq<SqlPiece>, binds_before: nat)
    ensures
        sql_text(first + second, binds_before) == sql_text(first, binds_before) + sql_text(
            second,
            binds_before + bind_count(first),
        ),
        bind_count(first + second) == bind_count(first) + bind_count(second),
        bound_blocks(first + second) == bound_blocks(first) + bound_blocks(second),
    decreases second.len(),
{
    if second.len() == 0 {
        assert(first + second =~= first);
        assert(sql_text(first, binds_before) + Seq::<char>::empty() =~= sql_text(
            first,
            binds_before,
        ));
        assert(bound_blocks(first) + Seq::<BlockNumber>::empty() =~= bound_blocks(first));
    } else {
        let front = second.drop_last();
        lemma_sql_text_concat(first, front, binds_before);
        assert(first + second =~= (first + front).push(second.last()));
        lemma_sql_text_push(first + front, second.last(), binds_before);
        assert(sql_text(first + second, binds_before) =~= sql_text(first, binds_before)
            + sql_text(second, binds_before + bind_count(first)));
        assert(bound_blocks(first + second) =~= bound_blocks(first) + bound_blocks(second));
    }
}

} // verus!
