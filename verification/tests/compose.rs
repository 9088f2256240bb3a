use portfolio_query::bind::Bind;
use portfolio_query::compose::compose_portfolio_query;
use portfolio_query::compose::tokens_query;
use portfolio_query::filter::default_page;
use portfolio_query::filter::default_page_size;
use portfolio_query::filter::TransactionQuery;
use portfolio_query::filter::TransactionType;
use portfolio_query::filter::ValidationError;

const BASE: &str = "SELECT * FROM transfers JOIN stark_mainnet_coins ON transfers.contract_address = stark_mainnet_coins.contract WHERE 1 = 1";
const WHITELIST: &str = " AND contract_address IN (SELECT contract FROM stark_mainnet_coins)";
const ORDERING: &str = " ORDER BY block_number DESC";

fn query(account: &str) -> TransactionQuery {
    TransactionQuery {
        start_date: None,
        end_date: None,
        account_address: account.to_string(),
        counterparty_address: None,
        contract_address: None,
        transaction_type: None,
        order: None,
        page: default_page(),
        size: default_page_size(),
    }
}

#[test]
fn defaults() {
    assert_eq!(default_page(), 0);
    assert_eq!(default_page_size(), 25);
}

#[test]
fn tokens_listing_is_fixed_and_parameterless() {
    let c = tokens_query();
    assert_eq!(c.sql, "SELECT * FROM stark_mainnet_coins");
    assert!(c.params.is_empty());
}

#[test]
fn account_only_bidirectional() {
    let c = compose_portfolio_query(&query("0xA")).unwrap();
    let expected = format!(
        "{BASE} AND (from_address = $1 OR to_address = $2){WHITELIST}{ORDERING} LIMIT $3 OFFSET $4"
    );
    assert_eq!(c.sql, expected);
    assert_eq!(
        c.params,
        vec![
            Bind::STRING("0xA".to_string()),
            Bind::STRING("0xA".to_string()),
            Bind::INT(25),
            Bind::INT(0),
        ]
    );
}

#[test]
fn send_with_counterparty() {
    let mut q = query("0xA");
    q.counterparty_address = Some("0xB".to_string());
    q.transaction_type = Some(TransactionType::Send);
    let c = compose_portfolio_query(&q).unwrap();
    let expected = format!(
        "{BASE} AND from_address = $1 AND to_address = $2{WHITELIST}{ORDERING} LIMIT $3 OFFSET $4"
    );
    assert_eq!(c.sql, expected);
    assert_eq!(
        c.params,
        vec![
            Bind::STRING("0xA".to_string()),
            Bind::STRING("0xB".to_string()),
            Bind::INT(25),
            Bind::INT(0),
        ]
    );
}

#[test]
fn send_without_counterparty_emits_only_from_and_whitelist() {
    let mut q = query("0xA");
    q.transaction_type = Some(TransactionType::Send);
    let c = compose_portfolio_query(&q).unwrap();
    let expected =
        format!("{BASE} AND from_address = $1{WHITELIST}{ORDERING} LIMIT $2 OFFSET $3");
    assert_eq!(c.sql, expected);
    assert_eq!(
        c.params,
        vec![Bind::STRING("0xA".to_string()), Bind::INT(25), Bind::INT(0)]
    );
}

#[test]
fn receive_without_counterparty_emits_only_to_and_whitelist() {
    let mut q = query("0xA");
    q.transaction_type = Some(TransactionType::Receive);
    let c = compose_portfolio_query(&q).unwrap();
    let expected = format!("{BASE} AND to_address = $1{WHITELIST}{ORDERING} LIMIT $2 OFFSET $3");
    assert_eq!(c.sql, expected);
    assert_eq!(
        c.params,
        vec![Bind::STRING("0xA".to_string()), Bind::INT(25), Bind::INT(0)]
    );
}

#[test]
fn receive_with_counterparty() {
    let mut q = query("0xA");
    q.counterparty_address = Some("0xB".to_string());
    q.transaction_type = Some(TransactionType::Receive);
    let c = compose_portfolio_query(&q).unwrap();
    let expected = format!(
        "{BASE} AND to_address = $1 AND from_address = $2{WHITELIST}{ORDERING} LIMIT $3 OFFSET $4"
    );
    assert_eq!(c.sql, expected);
    assert_eq!(
        c.params,
        vec![
            Bind::STRING("0xA".to_string()),
            Bind::STRING("0xB".to_string()),
            Bind::INT(25),
            Bind::INT(0),
        ]
    );
}

#[test]
fn either_with_counterparty_groups_two_ors() {
    let mut q = query("0xA");
    q.counterparty_address = Some("0xB".to_string());
    let c = compose_portfolio_query(&q).unwrap();
    let expected = format!(
        "{BASE} AND (from_address = $1 OR to_address = $2) AND (from_address = $3 OR to_address = $4){WHITELIST}{ORDERING} LIMIT $5 OFFSET $6"
    );
    assert_eq!(c.sql, expected);
    assert_eq!(
        c.params,
        vec![
            Bind::STRING("0xA".to_string()),
            Bind::STRING("0xA".to_string()),
            Bind::STRING("0xB".to_string()),
            Bind::STRING("0xB".to_string()),
            Bind::INT(25),
            Bind::INT(0),
        ]
    );
}

#[test]
fn date_bounds_are_inclusive_predicates_in_order() {
    let mut q = query("0xA");
    q.transaction_type = Some(TransactionType::Send);
    q.start_date = Some(1_000_000);
    q.end_date = Some(2_000_000);
    let c = compose_portfolio_query(&q).unwrap();
    let expected = format!(
        "{BASE} AND from_address = $1 AND block_timestamp >= $2 AND block_timestamp <= $3{WHITELIST}{ORDERING} LIMIT $4 OFFSET $5"
    );
    assert_eq!(c.sql, expected);
    assert_eq!(
        c.params,
        vec![
            Bind::STRING("0xA".to_string()),
            Bind::TIMESTAMP(1_000_000),
            Bind::TIMESTAMP(2_000_000),
            Bind::INT(25),
            Bind::INT(0),
        ]
    );
}

#[test]
fn pagination_page_two_size_ten() {
    let mut q = query("0xA");
    q.page = 2;
    q.size = 10;
    let c = compose_portfolio_query(&q).unwrap();
    assert!(c.sql.ends_with(" LIMIT $3 OFFSET $4"));
    let n = c.params.len();
    assert_eq!(c.params[n - 2], Bind::INT(10));
    assert_eq!(c.params[n - 1], Bind::INT(20));
}

#[test]
fn pagination_defaults_limit_25_offset_0() {
    let c = compose_portfolio_query(&query("0xA")).unwrap();
    let n = c.params.len();
    assert_eq!(c.params[n - 2], Bind::INT(25));
    assert_eq!(c.params[n - 1], Bind::INT(0));
}

#[test]
fn composing_twice_is_byte_identical() {
    let mut q = query("0xA");
    q.counterparty_address = Some("0xB".to_string());
    q.transaction_type = Some(TransactionType::Receive);
    q.start_date = Some(7);
    q.page = 3;
    q.size = 50;
    let c1 = compose_portfolio_query(&q).unwrap();
    let c2 = compose_portfolio_query(&q).unwrap();
    assert_eq!(c1.sql, c2.sql);
    assert_eq!(c1.params, c2.params);
}

#[test]
fn size_zero_is_rejected() {
    let mut q = query("0xA");
    q.size = 0;
    assert_eq!(
        compose_portfolio_query(&q).unwrap_err(),
        ValidationError::SizeNotPositive
    );
}

#[test]
fn size_negative_is_rejected() {
    let mut q = query("0xA");
    q.size = -5;
    assert_eq!(
        compose_portfolio_query(&q).unwrap_err(),
        ValidationError::SizeNotPositive
    );
}

#[test]
fn size_over_bound_is_rejected() {
    let mut q = query("0xA");
    q.size = 1001;
    assert_eq!(
        compose_portfolio_query(&q).unwrap_err(),
        ValidationError::SizeTooLarge
    );
}

#[test]
fn page_negative_is_rejected() {
    let mut q = query("0xA");
    q.page = -1;
    assert_eq!(
        compose_portfolio_query(&q).unwrap_err(),
        ValidationError::PageNegative
    );
}

#[test]
fn page_over_bound_is_rejected() {
    let mut q = query("0xA");
    q.page = 1_000_001;
    assert_eq!(
        compose_portfolio_query(&q).unwrap_err(),
        ValidationError::PageTooLarge
    );
}

#[test]
fn largest_accepted_pagination_composes() {
    let mut q = query("0xA");
    q.page = 1_000_000;
    q.size = 1000;
    let c = compose_portfolio_query(&q).unwrap();
    let n = c.params.len();
    assert_eq!(c.params[n - 2], Bind::INT(1000));
    assert_eq!(c.params[n - 1], Bind::INT(1_000_000_000));
}

#[test]
fn contract_and_order_fields_take_no_part() {
    let plain = compose_portfolio_query(&query("0xA")).unwrap();
    let mut q = query("0xA");
    q.contract_address = Some(vec!["0xC".to_string()]);
    q.order = Some("asc".to_string());
    let c = compose_portfolio_query(&q).unwrap();
    assert_eq!(c.sql, plain.sql);
    assert_eq!(c.params, plain.params);
}

#[test]
fn sql_text_is_independent_of_filter_values() {
    let mut q1 = query("0xA'; DROP TABLE transfers; --");
    q1.counterparty_address = Some("0xB".to_string());
    q1.start_date = Some(1);
    let mut q2 = query("0xDEAD");
    q2.counterparty_address = Some("0xBEEF".to_string());
    q2.start_date = Some(999_999);
    let c1 = compose_portfolio_query(&q1).unwrap();
    let c2 = compose_portfolio_query(&q2).unwrap();
    assert_eq!(c1.sql, c2.sql);
    assert!(!c1.sql.contains("DROP TABLE"));
}

#[test]
fn placeholder_indices_render_in_decimal() {
    assert_eq!(portfolio_query::num::dec_string(0), "0");
    assert_eq!(portfolio_query::num::dec_string(7), "7");
    assert_eq!(portfolio_query::num::dec_string(10), "10");
    assert_eq!(portfolio_query::num::dec_string(12345), "12345");
    assert_eq!(
        portfolio_query::num::dec_string(u64::MAX),
        "18446744073709551615"
    );
}
