//! The WHERE-clause predicates of the portfolio query: which predicates a
//! filter contributes, which parameters they bind, what they mean of a row,
//! and how they are rendered as SQL text.

use vstd::prelude::*;

use crate::bind::Bind;
use crate::bind::BindModel;
use crate::filter::QueryModel;
use crate::filter::TransactionQuery;
use crate::filter::TransactionType;
use crate::num::dec_digits;
use crate::num::dec_string;
use crate::params::ParamStore;

verus! {

/// One WHERE-clause predicate fragment. A value-bearing predicate carries
/// the 1-based positional index of the parameter it binds; no filter value
/// ever stands in the SQL text itself.
#[derive(Clone, Copy, Debug, PartialEq, Eq, Structural)]
pub enum Pred {
    /// `from_address = $i`
    FromEq(usize),
    /// `to_address = $i`
    ToEq(usize),
    /// `(from_address = $i OR to_address = $j)`
    EitherEq(usize, usize),
    /// `block_timestamp >= $i` (inclusive lower date bound)
    StartsAt(usize),
    /// `block_timestamp <= $i` (inclusive upper date bound)
    EndsAt(usize),
    /// `contract_address IN (SELECT contract FROM stark_mainnet_coins)`:
    /// the fixed restriction to the known-tokens whitelist.
    Whitelist,
}

/// The direction predicates a filter contributes, with parameter indices
/// starting after `base` already-appended values.
pub open spec fn direction_preds(q: QueryModel, base: nat) -> Seq<Pred> {
    match q.transaction_type {
        Some(TransactionType::Send) => if q.counterparty_address is Some {
            seq![Pred::FromEq((base + 1) as usize), Pred::ToEq((base + 2) as usize)]
        } else {
            seq![Pred::FromEq((base + 1) as usize)]
        },
        Some(TransactionType::Receive) => if q.counterparty_address is Some {
            seq![Pred::ToEq((base + 1) as usize), Pred::FromEq((base + 2) as usize)]
        } else {
            seq![Pred::ToEq((base + 1) as usize)]
        },
        None => if q.counterparty_address is Some {
            seq![
                Pred::EitherEq((base + 1) as usize, (base + 2) as usize),
                Pred::EitherEq((base + 3) as usize, (base + 4) as usize),
            ]
        } else {
            seq![Pred::EitherEq((base + 1) as usize, (base + 2) as usize)]
        },
    }
}

/// The parameters the direction predicates bind, in append order.
pub open spec fn direction_params(q: QueryModel) -> Seq<BindModel> {
    match q.transaction_type {
        Some(_) => match q.counterparty_address {
            Some(c) => seq![BindModel::Text(q.account_address), BindModel::Text(c)],
            None => seq![BindModel::Text(q.account_address)],
        },
        None => match q.counterparty_address {
            Some(c) => seq![
                BindModel::Text(q.account_address),
                BindModel::Text(q.account_address),
                BindModel::Text(c),
                BindModel::Text(c),
            ],
            None => seq![
                BindModel::Text(q.account_address),
                BindModel::Text(q.account_address),
            ],
        },
    }
}

/// The date-range predicates a filter contributes, with parameter indices
/// starting after `base` already-appended values.
pub open spec fn date_preds(q: QueryModel, base: nat) -> Seq<Pred> {
    let s: Seq<Pred> = if q.start_date is Some {
        seq![Pred::StartsAt((base + 1) as usize)]
    } else {
        Seq::empty()
    };
    let e: Seq<Pred> = if q.end_date is Some {
        seq![Pred::EndsAt((base + s.len() + 1) as usize)]
    } else {
        Seq::empty()
    };
    s + e
}

/// The parameters the date-range predicates bind, in append order.
pub open spec fn date_params(q: QueryModel) -> Seq<BindModel> {
    (match q.start_date {
        Some(t) => seq![BindModel::Timestamp(t)],
        None => Seq::empty(),
    }) + (match q.end_date {
        Some(t) => seq![BindModel::Timestamp(t)],
        None => Seq::empty(),
    })
}

/// All predicates of a filter's WHERE clause, in emission order: direction,
/// then dates, then the fixed contract whitelist.
pub open spec fn filter_preds(q: QueryModel, base: nat) -> Seq<Pred> {
    direction_preds(q, base) + date_preds(q, base + direction_params(q).len()) + seq![
        Pred::Whitelist,
    ]
}

/// All parameters the WHERE clause binds, in append order.
pub open spec fn filter_params(q: QueryModel) -> Seq<BindModel> {
    direction_params(q) + date_params(q)
}

/// The fields of one transfer row that the WHERE clause reads.
pub struct RowModel {
    pub from_address: Seq<char>,
    pub to_address: Seq<char>,
    pub block_timestamp: int,
    pub contract_address: Seq<char>,
}

/// What one predicate means of a row, given the bound parameters (by their
/// 1-based indices) and the contents of the known-tokens whitelist.
pub open spec fn pred_holds(
    p: Pred,
    params: Seq<BindModel>,
    row: RowModel,
    whitelist: Set<Seq<char>>,
) -> bool {
    match p {
        Pred::FromEq(i) => 1 <= i <= params.len() && params[i - 1] == BindModel::Text(
            row.from_address,
        ),
        Pred::ToEq(i) => 1 <= i <= params.len() && params[i - 1] == BindModel::Text(
            row.to_address,
        ),
        Pred::EitherEq(i, j) => {
            &&& 1 <= i <= params.len()
            &&& 1 <= j <= params.len()
            &&& (params[i - 1] == BindModel::Text(row.from_address) || params[j - 1]
                == BindModel::Text(row.to_address))
        },
        Pred::StartsAt(i) => {
            &&& 1 <= i <= params.len()
            &&& params[i - 1] matches BindModel::Timestamp(t) && row.block_timestamp >= t
        },
        Pred::EndsAt(i) => {
            &&& 1 <= i <= params.len()
            &&& params[i - 1] matches BindModel::Timestamp(t) && row.block_timestamp <= t
        },
        Pred::Whitelist => whitelist.contains(row.contract_address),
    }
}

/// What a whole predicate list means of a row: the conjunction of its
/// members, as `AND`-joined fragments after `WHERE 1 = 1`.
pub open spec fn preds_hold(
    ps: Seq<Pred>,
    params: Seq<BindModel>,
    row: RowModel,
    whitelist: Set<Seq<char>>,
) -> bool {
    forall|k: int| 0 <= k < ps.len() ==> pred_holds(ps[k], params, row, whitelist)
}

/// The SQL fragment one predicate renders to.
pub open spec fn render_pred(p: Pred) -> Seq<char> {
    match p {
        Pred::FromEq(i) => " AND from_address = $"@ + dec_digits(i as nat),
        Pred::ToEq(i) => " AND to_address = $"@ + dec_digits(i as nat),
        Pred::EitherEq(i, j) => " AND (from_address = $"@ + dec_digits(i as nat)
            + " OR to_address = $"@ + dec_digits(j as nat) + ")"@,
        Pred::StartsAt(i) => " AND block_timestamp >= $"@ + dec_digits(i as nat),
        Pred::EndsAt(i) => " AND block_timestamp <= $"@ + dec_digits(i as nat),
        Pred::Whitelist => " AND contract_address IN (SELECT contract FROM stark_mainnet_coins)"@,
    }
}

/// The SQL fragment a predicate list renders to, in order.
pub open spec fn render_preds(ps: Seq<Pred>) -> Seq<char>
    decreases ps.len(),
{
    if ps.len() == 0 {
        Seq::empty()
    } else {
        render_pred(ps[0]) + render_preds(ps.drop_first())
    }
}

/// Rendering distributes over appending one predicate at the end.
pub proof fn lemma_render_preds_push(ps: Seq<Pred>, p: Pred)
    ensures
        render_preds(ps.push(p)) =~= render_preds(ps) + render_pred(p),
    decreases ps.len(),
{
    if ps.len() == 0 {
        assert(ps.push(p).drop_first() =~= Seq::<Pred>::empty());
        assert(ps.push(p)[0] == p);
        assert(render_preds(ps.push(p)) == render_pred(p) + render_preds(
            ps.push(p).drop_first(),
        ));
        assert(render_preds(ps) == Seq::<char>::empty());
        assert(render_preds(Seq::<Pred>::empty()) == Seq::<char>::empty());
        assert(render_preds(ps.push(p)) =~= render_preds(ps) + render_pred(p));
    } else {
        assert(ps.push(p).drop_first() =~= ps.drop_first().push(p));
        assert(ps.push(p)[0] == ps[0]);
        lemma_render_preds_push(ps.drop_first(), p);
        assert(render_preds(ps.push(p)) == render_pred(ps[0]) + render_preds(
            ps.drop_first().push(p),
        ));
        assert(render_preds(ps) == render_pred(ps[0]) + render_preds(ps.drop_first()));
        assert((render_pred(ps[0]) + render_preds(ps.drop_first())) + render_pred(p)
            =~= render_pred(ps[0]) + (render_preds(ps.drop_first()) + render_pred(p)));
    }
}

/// Appends the rendering of one predicate to the SQL text under
/// construction.
pub fn append_pred(sql: &mut String, p: &Pred)
    ensures
        final(sql)@ =~= old(sql)@ + render_pred(*p),
{
    match p {
        Pred::FromEq(i) => {
            sql.append(" AND from_address = $");
            let d = dec_string(*i as u64);
            sql.append(d.as_str());
        },
        Pred::ToEq(i) => {
            sql.append(" AND to_address = $");
            let d = dec_string(*i as u64);
            sql.append(d.as_str());
        },
        Pred::EitherEq(i, j) => {
            sql.append(" AND (from_address = $");
            let d = dec_string(*i as u64);
            sql.append(d.as_str());
            sql.append(" OR to_address = $");
            let e = dec_string(*j as u64);
            sql.append(e.as_str());
            sql.append(")");
        },
        Pred::StartsAt(i) => {
            sql.append(" AND block_timestamp >= $");
            let d = dec_string(*i as u64);
            sql.append(d.as_str());
        },
        Pred::EndsAt(i) => {
            sql.append(" AND block_timestamp <= $");
            let d = dec_string(*i as u64);
            sql.append(d.as_str());
        },
        Pred::Whitelist => {
            sql.append(" AND contract_address IN (SELECT contract FROM stark_mainnet_coins)");
        },
    }
}

/// Appends the WHERE-clause predicates for `q` and the parameters they bind:
/// direction first, then the date bounds, then the fixed contract whitelist.
/// The returned predicates carry exactly the positional indices the store
/// assigned to the appended parameters.
pub fn assemble_predicates(q: &TransactionQuery, store: &mut ParamStore) -> (preds: Vec<Pred>)
    requires
        old(store)@.len() + 6 <= usize::MAX,
    ensures
        preds@ =~= filter_preds(q@, old(store)@.len() as nat),
        final(store)@ =~= old(store)@ + filter_params(q@),
{
    let mut preds: Vec<Pred> = Vec::new();
    match &q.transaction_type {
        Some(TransactionType::Send) => {
            let i = store.append(Bind::STRING(q.account_address.clone()));
            preds.push(Pred::FromEq(i));
            match &q.counterparty_address {
                Some(to) => {
                    let j = store.append(Bind::STRING(to.clone()));
                    preds.push(Pred::ToEq(j));
                },
                None => {},
            }
        },
        Some(TransactionType::Receive) => {
            let i = store.append(Bind::STRING(q.account_address.clone()));
            preds.push(Pred::ToEq(i));
            match &q.counterparty_address {
                Some(from) => {
                    let j = store.append(Bind::STRING(from.clone()));
                    preds.push(Pred::FromEq(j));
                },
                None => {},
            }
        },
        None => {
            let i = store.append(Bind::STRING(q.account_address.clone()));
            let j = store.append(Bind::STRING(q.account_address.clone()));
            preds.push(Pred::EitherEq(i, j));
            match &q.counterparty_address {
                Some(counterparty) => {
                    let k = store.append(Bind::STRING(counterparty.clone()));
                    let l = store.append(Bind::STRING(counterparty.clone()));
                    preds.push(Pred::EitherEq(k, l));
                },
                None => {},
            }
        },
    }
    match &q.start_date {
        Some(start) => {
            let i = store.append(Bind::TIMESTAMP(*start));
            preds.push(Pred::StartsAt(i));
        },
        None => {},
    }
    match &q.end_date {
        Some(end) => {
            let i = store.append(Bind::TIMESTAMP(*end));
            preds.push(Pred::EndsAt(i));
        },
        None => {},
    }
    preds.push(Pred::Whitelist);
    preds
}

} // verus!
