use portfolio_query::records::map_token_row;
use portfolio_query::records::map_token_rows;
use portfolio_query::records::map_transfer_row;
use portfolio_query::records::map_transfer_rows;
use portfolio_query::records::MappingError;
use portfolio_query::records::TokenRow;
use portfolio_query::records::TransferRow;

fn transfer_row(tag: &str) -> TransferRow {
    TransferRow {
        network: Some("mainnet".to_string()),
        block_hash: Some(format!("0xblock{tag}")),
        block_number: Some(41),
        block_timestamp: Some(1_700_000_000_000_000),
        transaction_hash: Some(format!("0xtx{tag}")),
        event_index: Some(3),
        contract_address: Some("0xc0ffee".to_string()),
        from_address: Some("0xA".to_string()),
        to_address: Some("0xB".to_string()),
        amount_raw: Some("1000000000000000000".to_string()),
    }
}

fn token_row() -> TokenRow {
    TokenRow {
        name: Some("Ether".to_string()),
        symbol: Some("ETH".to_string()),
        decimal: Some("18".to_string()),
        contract: Some("0xc0ffee".to_string()),
        image: Some("https://example.invalid/eth.png".to_string()),
    }
}

#[test]
fn complete_transfer_row_maps_field_for_field() {
    let t = map_transfer_row(transfer_row("1")).unwrap();
    assert_eq!(t.network, "mainnet");
    assert_eq!(t.block_hash, "0xblock1");
    assert_eq!(t.block_number, 41);
    assert_eq!(t.block_timestamp, 1_700_000_000_000_000);
    assert_eq!(t.transaction_hash, "0xtx1");
    assert_eq!(t.event_index, 3);
    assert_eq!(t.contract_address, "0xc0ffee");
    assert_eq!(t.from_address, "0xA");
    assert_eq!(t.to_address, "0xB");
    assert_eq!(t.amount_raw, "1000000000000000000");
}

#[test]
fn transfer_row_missing_column_is_rejected() {
    let mut row = transfer_row("1");
    row.block_number = None;
    assert_eq!(map_transfer_row(row).unwrap_err(), MappingError::MissingColumn);
}

#[test]
fn transfer_rows_map_in_order() {
    let rows = vec![transfer_row("1"), transfer_row("2"), transfer_row("3")];
    let ts = map_transfer_rows(rows).unwrap();
    assert_eq!(ts.len(), 3);
    assert_eq!(ts[0].block_hash, "0xblock1");
    assert_eq!(ts[1].block_hash, "0xblock2");
    assert_eq!(ts[2].block_hash, "0xblock3");
}

#[test]
fn one_bad_transfer_row_fails_the_whole_set() {
    let mut bad = transfer_row("2");
    bad.amount_raw = None;
    let rows = vec![transfer_row("1"), bad, transfer_row("3")];
    assert_eq!(map_transfer_rows(rows).unwrap_err(), MappingError::MissingColumn);
}

#[test]
fn empty_transfer_result_set_maps_to_empty() {
    let ts = map_transfer_rows(Vec::new()).unwrap();
    assert!(ts.is_empty());
}

#[test]
fn complete_token_row_maps_field_for_field() {
    let t = map_token_row(token_row()).unwrap();
    assert_eq!(t.name, "Ether");
    assert_eq!(t.symbol, "ETH");
    assert_eq!(t.decimal, "18");
    assert_eq!(t.contract, "0xc0ffee");
    assert_eq!(t.image, "https://example.invalid/eth.png");
}

#[test]
fn token_row_missing_column_is_rejected() {
    let mut row = token_row();
    row.symbol = None;
    assert_eq!(map_token_row(row).unwrap_err(), MappingError::MissingColumn);
}

#[test]
fn one_bad_token_row_fails_the_whole_set() {
    let mut bad = token_row();
    bad.image = None;
    let rows = vec![token_row(), bad];
    assert_eq!(map_token_rows(rows).unwrap_err(), MappingError::MissingColumn);
}

#[test]
fn token_rows_map_in_order() {
    let mut second = token_row();
    second.symbol = Some("WETH".to_string());
    let ts = map_token_rows(vec![token_row(), second]).unwrap();
    assert_eq!(ts.len(), 2);
    assert_eq!(ts[0].symbol, "ETH");
    assert_eq!(ts[1].symbol, "WETH");
}
