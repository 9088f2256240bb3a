//! The query composer: one final SQL text plus its ordered parameters.

use vstd::prelude::*;

use crate::bind::Bind;
use crate::bind::BindModel;
use crate::filter::pagination_error;
use crate::filter::pagination_ok;
use crate::filter::validate_pagination;
use crate::filter::QueryModel;
use crate::filter::TransactionQuery;
use crate::filter::ValidationError;
use crate::filter::MAX_PAGE;
use crate::filter::MAX_PAGE_SIZE;
use crate::num::dec_digits;
use crate::num::dec_string;
use crate::params::ParamStore;
use crate::predicate::append_pred;
use crate::predicate::assemble_predicates;
use crate::predicate::filter_params;
use crate::predicate::filter_preds;
use crate::predicate::lemma_render_preds_push;
use crate::predicate::render_preds;

verus! {

/// A composed query: the SQL text, and the bind values its `$n` placeholders
/// refer to, in placeholder order. The composer never interpolates a filter
/// value into the text; every value goes through the parameter sequence.
#[derive(Debug)]
pub struct ComposedQuery {
    pub sql: String,
    pub params: Vec<Bind>,
}

/// The fixed base statement of the portfolio query.
pub open spec fn portfolio_base_sql() -> Seq<char> {
    "SELECT * FROM transfers JOIN stark_mainnet_coins ON transfers.contract_address = stark_mainnet_coins.contract WHERE 1 = 1"@
}

/// The fixed ordering clause: newest block first.
pub open spec fn order_clause() -> Seq<char> {
    " ORDER BY block_number DESC"@
}

/// The pagination clause, with `LIMIT` bound at placeholder `n + 1` and
/// `OFFSET` at `n + 2` after `n` parameters were appended for the WHERE
/// clause.
pub open spec fn pagination_clause(n: nat) -> Seq<char> {
    " LIMIT $"@ + dec_digits(n + 1) + " OFFSET $"@ + dec_digits(n + 2)
}

/// The full SQL text composed for a filter.
pub open spec fn portfolio_sql(q: QueryModel) -> Seq<char> {
    portfolio_base_sql() + render_preds(filter_preds(q, 0)) + order_clause() + pagination_clause(
        filter_params(q).len(),
    )
}

/// The full parameter sequence composed for a filter: the WHERE-clause
/// parameters, then the page length for `LIMIT` and `page * size` for
/// `OFFSET`.
pub open spec fn portfolio_params(q: QueryModel) -> Seq<BindModel> {
    filter_params(q) + seq![BindModel::Int(q.size), BindModel::Int(q.page * q.size)]
}

/// The fixed token-listing query text.
pub open spec fn tokens_sql() -> Seq<char> {
    "SELECT * FROM stark_mainnet_coins"@
}

/// Composes the token-listing query: a fixed statement with no parameters.
pub fn tokens_query() -> (c: ComposedQuery)
    ensures
        c.sql@ =~= tokens_sql(),
        c.params.deep_view() =~= Seq::<BindModel>::empty(),
{
    ComposedQuery { sql: String::from_str("SELECT * FROM stark_mainnet_coins"), params: Vec::new() }
}

/// Composes the portfolio query for `q`.
///
/// When the pagination bounds hold, the result is exactly the SQL text
/// [`portfolio_sql`] and the parameter sequence [`portfolio_params`] of the
/// filter: base statement, direction predicates, date bounds, the fixed
/// contract whitelist, descending block-number order, then `LIMIT` bound to
/// `size` and `OFFSET` bound to `page * size`. A filter out of bounds is
/// rejected with the exact [`pagination_error`]; nothing else is ever
/// rejected.
pub fn compose_portfolio_query(q: &TransactionQuery) -> (r: Result<ComposedQuery, ValidationError>)
    ensures
        match r {
            Ok(c) => {
                &&& pagination_ok(q@)
                &&& c.sql@ == portfolio_sql(q@)
                &&& c.params.deep_view() == portfolio_params(q@)
            },
            Err(e) => !pagination_ok(q@) && e == pagination_error(q@),
        },
{
    if let Err(e) = validate_pagination(q) {
        return Err(e);
    }
    let mut store = ParamStore::new();
    let preds = assemble_predicates(q, &mut store);
    let mut sql = String::from_str(
        "SELECT * FROM transfers JOIN stark_mainnet_coins ON transfers.contract_address = stark_mainnet_coins.contract WHERE 1 = 1",
    );
    let mut k: usize = 0;
    while k < preds.len()
        invariant
            k <= preds@.len(),
            preds@ =~= filter_preds(q@, 0),
            sql@ =~= portfolio_base_sql() + render_preds(preds@.take(k as int)),
        decreases preds@.len() - k,
    {
        append_pred(&mut sql, &preds[k]);
        proof {
            lemma_render_preds_push(preds@.take(k as int), preds@[k as int]);
            assert(preds@.take(k + 1) =~= preds@.take(k as int).push(preds@[k as int]));
        }
        k = k + 1;
    }
    proof {
        assert(preds@.take(preds@.len() as int) =~= preds@);
    }
    sql.append(" ORDER BY block_number DESC");
    proof {
        assert(q@.size * q@.page >= 0 && q@.page * q@.size <= 1000000000int) by (nonlinear_arith)
            requires
                0 < q@.size <= MAX_PAGE_SIZE,
                0 <= q@.page <= MAX_PAGE,
        ;
    }
    let offset: i64 = q.page * q.size;
    let limit_idx = store.append(Bind::INT(q.size));
    sql.append(" LIMIT $");
    let limit_digits = dec_string(limit_idx as u64);
    sql.append(limit_digits.as_str());
    let offset_idx = store.append(Bind::INT(offset));
    sql.append(" OFFSET $");
    let offset_digits = dec_string(offset_idx as u64);
    sql.append(offset_digits.as_str());
    proof {
        assert(store@ =~= portfolio_params(q@));
        assert(sql@ =~= portfolio_sql(q@));
    }
    Ok(ComposedQuery { sql, params: store.into_values() })
}

} // verus!
