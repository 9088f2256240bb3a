//! Laws of the query composer, stated and proved over the same spec
//! functions its contracts use.

use vstd::prelude::*;

use crate::bind::BindModel;
use crate::compose::order_clause;
use crate::compose::pagination_clause;
use crate::compose::portfolio_base_sql;
use crate::compose::portfolio_params;
use crate::compose::portfolio_sql;
use crate::filter::QueryModel;
use crate::filter::TransactionType;
use crate::predicate::date_params;
use crate::predicate::date_preds;
use crate::predicate::direction_params;
use crate::predicate::direction_preds;
use crate::predicate::filter_params;
use crate::predicate::filter_preds;
use crate::predicate::pred_holds;
use crate::predicate::preds_hold;
use crate::predicate::render_preds;
use crate::predicate::Pred;
use crate::predicate::RowModel;

verus! {

/// A `Send` filter without a counterparty and without date bounds emits
/// exactly the predicate `from_address = $1` plus the fixed contract
/// whitelist, and binds exactly the account address.
pub proof fn lemma_send_without_counterparty(q: QueryModel)
    requires
        q.transaction_type == Some(TransactionType::Send),
        q.counterparty_address is None,
        q.start_date is None,
        q.end_date is None,
    ensures
        filter_preds(q, 0) =~= seq![Pred::FromEq(1), Pred::Whitelist],
        filter_params(q) =~= seq![BindModel::Text(q.account_address)],
{
}

/// A filter without a direction but with a counterparty, and without date
/// bounds, matches exactly the transfers between the two addresses in
/// either direction — account to counterparty or counterparty to account —
/// restricted to whitelisted contracts.
///
/// The equivalence needs the two addresses to differ: with account and
/// counterparty equal, the emitted conjunction of two OR-groups is weaker
/// than the two-sided union, so that input is left out here.
pub proof fn lemma_either_with_counterparty_bidirectional(
    q: QueryModel,
    row: RowModel,
    whitelist: Set<Seq<char>>,
)
    requires
        q.transaction_type is None,
        q.counterparty_address is Some,
        q.counterparty_address->0 != q.account_address,
        q.start_date is None,
        q.end_date is None,
    ensures
        preds_hold(filter_preds(q, 0), filter_params(q), row, whitelist) <==> ({
            let a = q.account_address;
            let c = q.counterparty_address->0;
            &&& whitelist.contains(row.contract_address)
            &&& ((row.from_address == a && row.to_address == c) || (row.from_address == c
                && row.to_address == a))
        }),
{
    let ps = filter_preds(q, 0);
    let params = filter_params(q);
    let a = q.account_address;
    let c = q.counterparty_address->0;
    assert(ps =~= seq![Pred::EitherEq(1, 2), Pred::EitherEq(3, 4), Pred::Whitelist]);
    assert(params =~= seq![
        BindModel::Text(a),
        BindModel::Text(a),
        BindModel::Text(c),
        BindModel::Text(c),
    ]);
    if preds_hold(ps, params, row, whitelist) {
        assert(pred_holds(ps[0], params, row, whitelist));
        assert(pred_holds(ps[1], params, row, whitelist));
        assert(pred_holds(ps[2], params, row, whitelist));
    }
    if whitelist.contains(row.contract_address) && ((row.from_address == a && row.to_address == c)
        || (row.from_address == c && row.to_address == a)) {
        assert(pred_holds(ps[0], params, row, whitelist));
        assert(pred_holds(ps[1], params, row, whitelist));
        assert(pred_holds(ps[2], params, row, whitelist));
        assert forall|k: int| 0 <= k < ps.len() implies pred_holds(
            ps[k],
            params,
            row,
            whitelist,
        ) by {
            if k == 0 {
            } else if k == 1 {
            } else {
                assert(k == 2);
            }
        }
    }
}

/// The placeholder indices one predicate embeds, in emission order.
pub open spec fn pred_placeholders(p: Pred) -> Seq<int> {
    match p {
        Pred::FromEq(i) => seq![i as int],
        Pred::ToEq(i) => seq![i as int],
        Pred::EitherEq(i, j) => seq![i as int, j as int],
        Pred::StartsAt(i) => seq![i as int],
        Pred::EndsAt(i) => seq![i as int],
        Pred::Whitelist => Seq::empty(),
    }
}

/// The placeholder indices a predicate list embeds, in emission order.
pub open spec fn placeholder_indices(ps: Seq<Pred>) -> Seq<int>
    decreases ps.len(),
{
    if ps.len() == 0 {
        Seq::empty()
    } else {
        pred_placeholders(ps[0]) + placeholder_indices(ps.drop_first())
    }
}

/// The consecutive indices `base + 1 .. base + len`, in order.
pub open spec fn index_run(base: nat, len: nat) -> Seq<int> {
    Seq::new(len, |k: int| base + 1 + k)
}

proof fn lemma_placeholder_indices_concat(a: Seq<Pred>, b: Seq<Pred>)
    ensures
        placeholder_indices(a + b) =~= placeholder_indices(a) + placeholder_indices(b),
    decreases a.len(),
{
    if a.len() == 0 {
        assert(a + b =~= b);
    } else {
        assert((a + b).drop_first() =~= a.drop_first() + b);
        assert((a + b)[0] == a[0]);
        lemma_placeholder_indices_concat(a.drop_first(), b);
        assert(placeholder_indices(a + b) == pred_placeholders(a[0]) + placeholder_indices(
            (a + b).drop_first(),
        ));
        assert(placeholder_indices(a) == pred_placeholders(a[0]) + placeholder_indices(
            a.drop_first(),
        ));
        assert(pred_placeholders(a[0]) + (placeholder_indices(a.drop_first())
            + placeholder_indices(b)) =~= (pred_placeholders(a[0]) + placeholder_indices(
            a.drop_first(),
        )) + placeholder_indices(b));
    }
}

proof fn lemma_direction_placeholders(q: QueryModel, base: nat)
    requires
        base + 4 <= usize::MAX,
    ensures
        placeholder_indices(direction_preds(q, base)) =~= index_run(
            base,
            direction_params(q).len(),
        ),
{
    reveal_with_fuel(placeholder_indices, 4);
    let ps = direction_preds(q, base);
    assert(placeholder_indices(Seq::<Pred>::empty()) =~= Seq::<int>::empty());
    if ps.len() == 1 {
        assert(ps.drop_first() =~= Seq::<Pred>::empty());
    } else {
        assert(ps.len() == 2);
        assert(ps.drop_first().drop_first() =~= Seq::<Pred>::empty());
    }
}

proof fn lemma_date_placeholders(q: QueryModel, base: nat)
    requires
        base + 2 <= usize::MAX,
    ensures
        placeholder_indices(date_preds(q, base)) =~= index_run(base, date_params(q).len()),
{
    reveal_with_fuel(placeholder_indices, 4);
    let ps = date_preds(q, base);
    assert(placeholder_indices(Seq::<Pred>::empty()) =~= Seq::<int>::empty());
    if ps.len() == 1 {
        assert(ps.drop_first() =~= Seq::<Pred>::empty());
    } else if ps.len() == 2 {
        assert(ps.drop_first().drop_first() =~= Seq::<Pred>::empty());
    }
}

/// Parameter-store round trip: in every composed portfolio query, the
/// placeholders standing in the SQL text, read in emission order — the
/// WHERE-clause ones, then `LIMIT`'s and `OFFSET`'s — are exactly
/// `$1 .. $N` for the `N` values appended to the store. The Nth placeholder
/// therefore binds the Nth appended value, and the placeholder-to-value
/// mapping is recovered losslessly from position alone.
pub proof fn lemma_placeholders_sequential(q: QueryModel)
    ensures
        portfolio_params(q).len() == filter_params(q).len() + 2,
        placeholder_indices(filter_preds(q, 0)) + index_run(filter_params(q).len(), 2)
            =~= index_run(0, portfolio_params(q).len()),
{
    reveal_with_fuel(placeholder_indices, 2);
    let d = direction_preds(q, 0);
    let dl = direction_params(q).len();
    let t = date_preds(q, dl);
    let w = seq![Pred::Whitelist];
    lemma_direction_placeholders(q, 0);
    lemma_date_placeholders(q, dl);
    lemma_placeholder_indices_concat(d, t);
    lemma_placeholder_indices_concat(d + t, w);
    assert(w.drop_first() =~= Seq::<Pred>::empty());
    assert(placeholder_indices(w) =~= Seq::<int>::empty());
    assert(filter_preds(q, 0) == d + t + w);
    assert(placeholder_indices(d + t + w) =~= placeholder_indices(d) + placeholder_indices(t));
}

/// Pagination always stands behind the fixed descending block-number
/// ordering and always binds `LIMIT` to the page length and `OFFSET` to
/// `page * size`, as the last two parameters of the composed query.
pub proof fn lemma_pagination(q: QueryModel)
    ensures
        portfolio_params(q).len() == filter_params(q).len() + 2,
        portfolio_params(q)[portfolio_params(q).len() - 2] == BindModel::Int(q.size),
        portfolio_params(q)[portfolio_params(q).len() - 1] == BindModel::Int(q.page * q.size),
        portfolio_sql(q) =~= portfolio_base_sql() + render_preds(filter_preds(q, 0))
            + order_clause() + pagination_clause(filter_params(q).len()),
{
}

/// Query safety: the composed SQL text depends only on the shape of the
/// filter — which direction it names and which optional fields are present
/// — never on any filter value. No account, counterparty, date, page or
/// size value can reach the text; values travel only through the parameter
/// store.
pub proof fn lemma_sql_text_free_of_values(q1: QueryModel, q2: QueryModel)
    requires
        q1.transaction_type == q2.transaction_type,
        q1.counterparty_address is Some <==> q2.counterparty_address is Some,
        q1.start_date is Some <==> q2.start_date is Some,
        q1.end_date is Some <==> q2.end_date is Some,
    ensures
        portfolio_sql(q1) == portfolio_sql(q2),
{
    assert(direction_preds(q1, 0) =~= direction_preds(q2, 0));
    assert(direction_params(q1).len() == direction_params(q2).len());
    assert(date_preds(q1, direction_params(q1).len()) =~= date_preds(
        q2,
        direction_params(q2).len(),
    ));
    assert(filter_preds(q1, 0) =~= filter_preds(q2, 0));
    assert(filter_params(q1).len() == filter_params(q2).len());
}

/// Composing twice from one identical filter yields byte-identical SQL
/// text and an identical parameter sequence.
pub proof fn lemma_compose_idempotent(
    q1: QueryModel,
    q2: QueryModel,
    sql1: Seq<char>,
    params1: Seq<BindModel>,
    sql2: Seq<char>,
    params2: Seq<BindModel>,
)
    requires
        q1 == q2,
        sql1 == portfolio_sql(q1),
        params1 == portfolio_params(q1),
        sql2 == portfolio_sql(q2),
        params2 == portfolio_params(q2),
    ensures
        sql1 == sql2,
        params1 == params2,
{
}

} // verus!
