//! The filter request for the portfolio listing operation, and its
//! pagination rules.

use vstd::prelude::*;

verus! {

/// Direction of a transfer relative to the queried account: `Send` means the
/// account is the sender, `Receive` means it is the recipient. A filter
/// without a direction matches either role.
#[derive(Clone, Copy, Debug, PartialEq, Eq, Structural)]
pub enum TransactionType {
    Send,
    Receive,
}

/// Largest accepted page length. Together with [`MAX_PAGE`] it keeps the
/// offset product `page * size` far below `i64::MAX`.
pub const MAX_PAGE_SIZE: i64 = 1000;

/// Largest accepted page index.
pub const MAX_PAGE: i64 = 1000000;

/// Default page length when a request names none.
pub fn default_page_size() -> (n: i64)
    ensures
        n == 25,
{
    25
}

/// Default page index when a request names none.
pub fn default_page() -> (n: i64)
    ensures
        n == 0,
{
    0
}

/// A client's filter for the portfolio listing operation. Timestamps are UTC
/// instants carried as microseconds since the Unix epoch; both date bounds
/// are inclusive. `page` is zero-based; `size` is the page length.
///
/// `contract_address` and `order` are accepted for interface compatibility
/// but take no part in query composition: the composed query always restricts
/// contracts to the known-tokens whitelist and always orders by descending
/// block number.
#[derive(Debug)]
pub struct TransactionQuery {
    pub start_date: Option<i64>,
    pub end_date: Option<i64>,
    pub account_address: String,
    pub counterparty_address: Option<String>,
    pub contract_address: Option<Vec<String>>,
    pub transaction_type: Option<TransactionType>,
    pub order: Option<String>,
    pub page: i64,
    pub size: i64,
}

/// Mathematical model of a [`TransactionQuery`].
pub struct QueryModel {
    pub start_date: Option<int>,
    pub end_date: Option<int>,
    pub account_address: Seq<char>,
    pub counterparty_address: Option<Seq<char>>,
    pub contract_address: Option<Seq<Seq<char>>>,
    pub transaction_type: Option<TransactionType>,
    pub order: Option<Seq<char>>,
    pub page: int,
    pub size: int,
}

impl View for TransactionQuery {
    type V = QueryModel;

    open spec fn view(&self) -> QueryModel {
        QueryModel {
            start_date: match self.start_date {
                Some(t) => Some(t as int),
                None => None,
            },
            end_date: match self.end_date {
                Some(t) => Some(t as int),
                None => None,
            },
            account_address: self.account_address@,
            counterparty_address: self.counterparty_address.deep_view(),
            contract_address: self.contract_address.deep_view(),
            transaction_type: self.transaction_type,
            order: self.order.deep_view(),
            page: self.page as int,
            size: self.size as int,
        }
    }
}

/// Why a filter was rejected before query composition.
#[derive(Clone, Copy, Debug, PartialEq, Eq, Structural)]
pub enum ValidationError {
    /// `size` is zero or negative: a non-positive page length is a likely
    /// misconfiguration, never a request for rows.
    SizeNotPositive,
    /// `size` exceeds [`MAX_PAGE_SIZE`].
    SizeTooLarge,
    /// `page` is negative.
    PageNegative,
    /// `page` exceeds [`MAX_PAGE`].
    PageTooLarge,
}

/// The pagination bounds a filter must meet before a query is composed.
pub open spec fn pagination_ok(q: QueryModel) -> bool {
    &&& 0 < q.size <= MAX_PAGE_SIZE
    &&& 0 <= q.page <= MAX_PAGE
}

/// The error reported for a filter whose pagination is out of bounds; the
/// size checks come first.
pub open spec fn pagination_error(q: QueryModel) -> ValidationError
    recommends
        !pagination_ok(q),
{
    if q.size <= 0 {
        ValidationError::SizeNotPositive
    } else if q.size > MAX_PAGE_SIZE {
        ValidationError::SizeTooLarge
    } else if q.page < 0 {
        ValidationError::PageNegative
    } else {
        ValidationError::PageTooLarge
    }
}

/// Checks the pagination bounds of a filter, reporting exactly why an
/// out-of-bounds filter is rejected.
pub fn validate_pagination(q: &TransactionQuery) -> (r: Result<(), ValidationError>)
    ensures
        r is Ok <==> pagination_ok(q@),
        r is Err ==> r->Err_0 == pagination_error(q@),
{
    if q.size <= 0 {
        Err(ValidationError::SizeNotPositive)
    } else if q.size > MAX_PAGE_SIZE {
        Err(ValidationError::SizeTooLarge)
    } else if q.page < 0 {
        Err(ValidationError::PageNegative)
    } else if q.page > MAX_PAGE {
        Err(ValidationError::PageTooLarge)
    } else {
        Ok(())
    }
}

} // verus!
