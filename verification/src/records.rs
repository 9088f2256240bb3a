//! The typed records a query's rows map to, and the row mapper.

use vstd::prelude::*;

verus! {

/// One transfer row of the portfolio query. `block_timestamp` is a UTC
/// instant in microseconds since the Unix epoch; `amount_raw` keeps the
/// on-chain decimal as text to avoid precision loss.
#[derive(Debug)]
pub struct Transfer {
    pub network: String,
    pub block_hash: String,
    pub block_number: i64,
    pub block_timestamp: i64,
    pub transaction_hash: String,
    pub event_index: i64,
    pub contract_address: String,
    pub from_address: String,
    pub to_address: String,
    pub amount_raw: String,
}

/// One known token. `decimal` stays text, preserving the exact on-chain
/// precision representation.
#[derive(Debug)]
pub struct Token {
    pub name: String,
    pub symbol: String,
    pub decimal: String,
    pub contract: String,
    pub image: String,
}

/// A transfer row as the execution layer hands it over: each expected
/// column either present with a compatible value, or absent.
#[derive(Debug)]
pub struct TransferRow {
    pub network: Option<String>,
    pub block_hash: Option<String>,
    pub block_number: Option<i64>,
    pub block_timestamp: Option<i64>,
    pub transaction_hash: Option<String>,
    pub event_index: Option<i64>,
    pub contract_address: Option<String>,
    pub from_address: Option<String>,
    pub to_address: Option<String>,
    pub amount_raw: Option<String>,
}

/// A token row as the execution layer hands it over.
#[derive(Debug)]
pub struct TokenRow {
    pub name: Option<String>,
    pub symbol: Option<String>,
    pub decimal: Option<String>,
    pub contract: Option<String>,
    pub image: Option<String>,
}

/// Why a result row could not be mapped to a record.
#[derive(Clone, Copy, Debug, PartialEq, Eq, Structural)]
pub enum MappingError {
    /// An expected column is absent from the row, or its value could not be
    /// read at the expected type.
    MissingColumn,
}

impl TransferRow {
    /// Every expected column is present.
    pub open spec fn complete(&self) -> bool {
        &&& self.network is Some
        &&& self.block_hash is Some
        &&& self.block_number is Some
        &&& self.block_timestamp is Some
        &&& self.transaction_hash is Some
        &&& self.event_index is Some
        &&& self.contract_address is Some
        &&& self.from_address is Some
        &&& self.to_address is Some
        &&& self.amount_raw is Some
    }
}

impl TokenRow {
    /// Every expected column is present.
    pub open spec fn complete(&self) -> bool {
        &&& self.name is Some
        &&& self.symbol is Some
        &&& self.decimal is Some
        &&& self.contract is Some
        &&& self.image is Some
    }
}

/// The record a complete transfer row maps to.
pub open spec fn mapped_transfer(row: TransferRow) -> Transfer
    recommends
        row.complete(),
{
    Transfer {
        network: row.network->0,
        block_hash: row.block_hash->0,
        block_number: row.block_number->0,
        block_timestamp: row.block_timestamp->0,
        transaction_hash: row.transaction_hash->0,
        event_index: row.event_index->0,
        contract_address: row.contract_address->0,
        from_address: row.from_address->0,
        to_address: row.to_address->0,
        amount_raw: row.amount_raw->0,
    }
}

/// The record a complete token row maps to.
pub open spec fn mapped_token(row: TokenRow) -> Token
    recommends
        row.complete(),
{
    Token {
        name: row.name->0,
        symbol: row.symbol->0,
        decimal: row.decimal->0,
        contract: row.contract->0,
        image: row.image->0,
    }
}

/// Maps one transfer row to a record; a row missing any expected column is
/// rejected, and nothing else is.
pub fn map_transfer_row(row: TransferRow) -> (r: Result<Transfer, MappingError>)
    ensures
        match r {
            Ok(t) => row.complete() && t == mapped_transfer(row),
            Err(e) => !row.complete() && e == MappingError::MissingColumn,
        },
{
    match row {
        TransferRow {
            network: Some(network),
            block_hash: Some(block_hash),
            block_number: Some(block_number),
            block_timestamp: Some(block_timestamp),
            transaction_hash: Some(transaction_hash),
            event_index: Some(event_index),
            contract_address: Some(contract_address),
            from_address: Some(from_address),
            to_address: Some(to_address),
            amount_raw: Some(amount_raw),
        } => Ok(
            Transfer {
                network,
                block_hash,
                block_number,
                block_timestamp,
                transaction_hash,
                event_index,
                contract_address,
                from_address,
                to_address,
                amount_raw,
            },
        ),
        _ => Err(MappingError::MissingColumn),
    }
}

/// Maps one token row to a record; a row missing any expected column is
/// rejected, and nothing else is.
pub fn map_token_row(row: TokenRow) -> (r: Result<Token, MappingError>)
    ensures
        match r {
            Ok(t) => row.complete() && t == mapped_token(row),
            Err(e) => !row.complete() && e == MappingError::MissingColumn,
        },
{
    match row {
        TokenRow {
            name: Some(name),
            symbol: Some(symbol),
            decimal: Some(decimal),
            contract: Some(contract),
            image: Some(image),
        } => Ok(Token { name, symbol, decimal, contract, image }),
        _ => Err(MappingError::MissingColumn),
    }
}

/// Maps a whole result set of transfer rows, fail-fast: one bad row fails
/// the whole set, so a partial page can never pass for an account's full
/// history.
#[verifier::loop_isolation(false)]
pub fn map_transfer_rows(rows: Vec<TransferRow>) -> (r: Result<Vec<Transfer>, MappingError>)
    ensures
        match r {
            Ok(ts) => {
                &&& forall|i: int| 0 <= i < rows@.len() ==> rows@[i].complete()
                &&& ts@.len() == rows@.len()
                &&& forall|i: int| 0 <= i < rows@.len() ==> ts@[i] == mapped_transfer(rows@[i])
            },
            Err(e) => {
                &&& exists|i: int| 0 <= i < rows@.len() && !rows@[i].complete()
                &&& e == MappingError::MissingColumn
            },
        },
{
    let ghost all = rows@;
    let ghost n = rows@.len();
    let mut rest = rows;
    let mut out_rev: Vec<Transfer> = Vec::new();
    while rest.len() > 0
        invariant
            rest@ =~= all.take(rest@.len() as int),
            out_rev@.len() == n - rest@.len(),
            forall|i: int| rest@.len() <= i < n ==> all[i].complete(),
            forall|i: int|
                rest@.len() <= i < n ==> out_rev@[n - 1 - i] == mapped_transfer(all[i]),
        decreases rest@.len(),
    {
        let row = rest.pop().unwrap();
        match map_transfer_row(row) {
            Ok(t) => out_rev.push(t),
            Err(e) => {
                return Err(e);
            },
        }
    }
    let mut out: Vec<Transfer> = Vec::new();
    while out_rev.len() > 0
        invariant
            out@.len() == n - out_rev@.len(),
            forall|i: int| 0 <= i < n ==> all[i].complete(),
            forall|j: int| 0 <= j < out_rev@.len() ==> out_rev@[j] == mapped_transfer(
                all[n - 1 - j],
            ),
            forall|i: int| 0 <= i < out@.len() ==> out@[i] == mapped_transfer(all[i]),
        decreases out_rev@.len(),
    {
        let t = out_rev.pop().unwrap();
        out.push(t);
    }
    Ok(out)
}

/// Maps a whole result set of token rows, fail-fast, as
/// [`map_transfer_rows`] does for transfers.
#[verifier::loop_isolation(false)]
pub fn map_token_rows(rows: Vec<TokenRow>) -> (r: Result<Vec<Token>, MappingError>)
    ensures
        match r {
            Ok(ts) => {
                &&& forall|i: int| 0 <= i < rows@.len() ==> rows@[i].complete()
                &&& ts@.len() == rows@.len()
                &&& forall|i: int| 0 <= i < rows@.len() ==> ts@[i] == mapped_token(rows@[i])
            },
            Err(e) => {
                &&& exists|i: int| 0 <= i < rows@.len() && !rows@[i].complete()
                &&& e == MappingError::MissingColumn
            },
        },
{
    let ghost all = rows@;
    let ghost n = rows@.len();
    let mut rest = rows;
    let mut out_rev: Vec<Token> = Vec::new();
    while rest.len() > 0
        invariant
            rest@ =~= all.take(rest@.len() as int),
            out_rev@.len() == n - rest@.len(),
            forall|i: int| rest@.len() <= i < n ==> all[i].complete(),
            forall|i: int| rest@.len() <= i < n ==> out_rev@[n - 1 - i] == mapped_token(all[i]),
        decreases rest@.len(),
    {
        let row = rest.pop().unwrap();
        match map_token_row(row) {
            Ok(t) => out_rev.push(t),
            Err(e) => {
                return Err(e);
            },
        }
    }
    let mut out: Vec<Token> = Vec::new();
    while out_rev.len() > 0
        invariant
            out@.len() == n - out_rev@.len(),
            forall|i: int| 0 <= i < n ==> all[i].complete(),
            forall|j: int| 0 <= j < out_rev@.len() ==> out_rev@[j] == mapped_token(all[n - 1 - j]),
            forall|i: int| 0 <= i < out@.len() ==> out@[i] == mapped_token(all[i]),
        decreases out_rev@.len(),
    {
        let t = out_rev.pop().unwrap();
        out.push(t);
    }
    Ok(out)
}

} // verus!
