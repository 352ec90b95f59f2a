//! The requests, responses and notifications of a wallet connection, and their JSON texts.
use crate::json::{
    drop_member, field_value, find_field, json_fields, json_string, read_fields, read_string,
    without_member,
};
use crate::text::same_text;
use nostr::nips::nip47::{
    self, ListTransactionsRequest as Listing, Request as WalletRequest,
};
use nostr::nips::nip47::RequestParams::{
    GetBalance, GetInfo, ListTransactions, LookupInvoice, MakeInvoice, MultiPayInvoice,
    MultiPayKeysend, PayInvoice, PayKeysend,
};
use nostr::nips::nip47::TransactionType::{Incoming, Outgoing};
use serde_json::from_str;
use vstd::prelude::*;

verus! {

/// Thousandths of a satoshi in one satoshi.
pub const MSATS_PER_SAT: u64 = 1000;

/// What a client can ask of the wallet.
#[derive(Clone, Copy, Debug, PartialEq, Eq, Structural)]
pub enum Method {
    PayInvoice,
    ListTransactions,
    GetBalance,
}

impl Method {
    /// The name by which a request calls the method.
    pub open spec fn name(self) -> Seq<char> {
        match self {
            Method::PayInvoice => "pay_invoice"@,
            Method::ListTransactions => "list_transactions"@,
            Method::GetBalance => "get_balance"@,
        }
    }

    /// The name by which a request calls the method.
    pub fn as_str(&self) -> (r: &'static str)
        ensures
            r@ == self.name(),
    {
        match self {
            Method::PayInvoice => "pay_invoice",
            Method::ListTransactions => "list_transactions",
            Method::GetBalance => "get_balance",
        }
    }
}

/// Why a request is answered with an error.
#[derive(Clone, Copy, Debug, PartialEq, Eq, Structural)]
pub enum ErrorCode {
    RateLimited,
    NotImplemented,
    InsufficientBalance,
    PaymentFailed,
    NotFound,
    QuotaExceeded,
    Restricted,
    Unauthorized,
    Internal,
    Other,
}

impl ErrorCode {
    /// The name of the code in a response.
    pub open spec fn name(self) -> Seq<char> {
        match self {
            ErrorCode::RateLimited => "RATE_LIMITED"@,
            ErrorCode::NotImplemented => "NOT_IMPLEMENTED"@,
            ErrorCode::InsufficientBalance => "INSUFFICIENT_BALANCE"@,
            ErrorCode::PaymentFailed => "PAYMENT_FAILED"@,
            ErrorCode::NotFound => "NOT_FOUND"@,
            ErrorCode::QuotaExceeded => "QUOTA_EXCEEDED"@,
            ErrorCode::Restricted => "RESTRICTED"@,
            ErrorCode::Unauthorized => "UNAUTHORIZED"@,
            ErrorCode::Internal => "INTERNAL"@,
            ErrorCode::Other => "OTHER"@,
        }
    }

    /// The name of the code in a response.
    pub fn as_str(&self) -> (r: &'static str)
        ensures
            r@ == self.name(),
    {
        match self {
            ErrorCode::RateLimited => "RATE_LIMITED",
            ErrorCode::NotImplemented => "NOT_IMPLEMENTED",
            ErrorCode::InsufficientBalance => "INSUFFICIENT_BALANCE",
            ErrorCode::PaymentFailed => "PAYMENT_FAILED",
            ErrorCode::NotFound => "NOT_FOUND",
            ErrorCode::QuotaExceeded => "QUOTA_EXCEEDED",
            ErrorCode::Restricted => "RESTRICTED",
            ErrorCode::Unauthorized => "UNAUTHORIZED",
            ErrorCode::Internal => "INTERNAL",
            ErrorCode::Other => "OTHER",
        }
    }
}

/// The error in a response.
pub struct Nip47Error {
    pub code: ErrorCode,
    pub message: String,
}

/// Which way a payment went.
#[derive(Clone, Copy, Debug, PartialEq, Eq, Structural)]
pub enum TransactionType {
    Incoming,
    Outgoing,
}

/// Which way a payment went, as far as the word for it is known.
pub open spec fn word_type(word: Seq<char>) -> Option<TransactionType> {
    if word == "incoming"@ {
        Some(TransactionType::Incoming)
    } else if word == "outgoing"@ {
        Some(TransactionType::Outgoing)
    } else {
        None
    }
}

/// Which way a payment went, as far as the word for it is known.
pub fn read_word_type(word: &str) -> (r: Option<TransactionType>)
    ensures
        r == word_type(word@),
{
    if same_text(word, "incoming") {
        Some(TransactionType::Incoming)
    } else if same_text(word, "outgoing") {
        Some(TransactionType::Outgoing)
    } else {
        None
    }
}

/// A request to pay an invoice.
pub struct PayInvoiceRequest {
    /// The request's own id, where it has one.
    pub id: Option<String>,
    /// The invoice to pay.
    pub invoice: String,
    /// The amount in thousandths of a satoshi, where the invoice leaves it open.
    pub amount: Option<u64>,
}

/// The mathematical content of a [`PayInvoiceRequest`].
pub struct PayInvoiceView {
    pub id: Option<Seq<char>>,
    pub invoice: Seq<char>,
    pub amount: Option<u64>,
}

impl View for PayInvoiceRequest {
    type V = PayInvoiceView;

    open spec fn view(&self) -> PayInvoiceView {
        PayInvoiceView {
            id: self.id.deep_view(),
            invoice: self.invoice@,
            amount: self.amount,
        }
    }
}

/// A request to list the wallet's transactions.
#[derive(Clone, Copy, Debug)]
pub struct ListTransactionsRequest {
    /// The earliest time, in seconds since the epoch.
    pub from: Option<u64>,
    /// The latest time, in seconds since the epoch.
    pub until: Option<u64>,
    /// How many to list.
    pub limit: Option<u64>,
    /// How many to pass over first.
    pub offset: Option<u64>,
    /// Whether to list those that are not paid yet.
    pub unpaid: Option<bool>,
    /// Which way the payments went.
    pub transaction_type: Option<TransactionType>,
}

/// A request of a client. Of those that this wallet does not serve, nothing but the method is kept.
pub enum Request {
    PayInvoice(PayInvoiceRequest),
    MultiPayInvoice,
    PayKeysend,
    MultiPayKeysend,
    MakeInvoice,
    LookupInvoice,
    ListTransactions(ListTransactionsRequest),
    GetBalance,
    GetInfo,
}

/// The mathematical content of a [`Request`].
pub enum RequestView {
    PayInvoice(PayInvoiceView),
    MultiPayInvoice,
    PayKeysend,
    MultiPayKeysend,
    MakeInvoice,
    LookupInvoice,
    ListTransactions(ListTransactionsRequest),
    GetBalance,
    GetInfo,
}

impl View for Request {
    type V = RequestView;

    open spec fn view(&self) -> RequestView {
        match self {
            Request::PayInvoice(request) => RequestView::PayInvoice(request@),
            Request::MultiPayInvoice => RequestView::MultiPayInvoice,
            Request::PayKeysend => RequestView::PayKeysend,
            Request::MultiPayKeysend => RequestView::MultiPayKeysend,
            Request::MakeInvoice => RequestView::MakeInvoice,
            Request::LookupInvoice => RequestView::LookupInvoice,
            Request::ListTransactions(request) => RequestView::ListTransactions(*request),
            Request::GetBalance => RequestView::GetBalance,
            Request::GetInfo => RequestView::GetInfo,
        }
    }
}

/// The request that `serde_json::from_str` reads out of a text as a `nostr::nips::nip47::Request`,
/// or `None` where it refuses the text.
pub uninterp spec fn parsed_request(text: Seq<char>) -> Option<RequestView>;

/// Calls `serde_json::from_str` for a `nostr::nips::nip47::Request`. Claimed: the result depends
/// on the text alone. The kind of the parameters tells the method, since the outside type reads
/// the parameters by the method it has read.
#[verifier::external_body]
fn parse_request(text: &str) -> (r: Option<Request>)
    ensures
        match r {
            Some(request) => parsed_request(text@) == Some(request@),
            None => parsed_request(text@) is None,
        },
{
    Some(match from_str::<WalletRequest>(text).ok()?.params {
        PayInvoice(p) => Request::PayInvoice(PayInvoiceRequest {
            id: p.id, invoice: p.invoice, amount: p.amount }),
        MultiPayInvoice(_) => Request::MultiPayInvoice,
        PayKeysend(_) => Request::PayKeysend,
        MultiPayKeysend(_) => Request::MultiPayKeysend,
        MakeInvoice(_) => Request::MakeInvoice,
        LookupInvoice(_) => Request::LookupInvoice,
        ListTransactions(Listing { from, until, limit, offset, unpaid, transaction_type: way }) =>
            Request::ListTransactions(ListTransactionsRequest {
                from: from.map(|t| t.as_u64()), until: until.map(|t| t.as_u64()),
                limit, offset, unpaid, transaction_type: way.map(|way| match way {
                    Incoming => TransactionType::Incoming, Outgoing => TransactionType::Outgoing }) }),
        GetBalance => Request::GetBalance, GetInfo => Request::GetInfo
    })
}

impl Request {
    /// Reads the JSON text of a request.
    pub fn parse(text: &str) -> (r: Option<Request>)
        ensures
            match r {
                Some(request) => parsed_request(text@) == Some(request@),
                None => parsed_request(text@) is None,
            },
    {
        parse_request(text)
    }
}

/// What `serde_json` reads out of a text as a `nostr::nips::nip47::PayInvoiceRequest`, or the text
/// of its error.
pub uninterp spec fn parsed_pay_invoice(text: Seq<char>) -> Result<PayInvoiceView, Seq<char>>;

/// What `serde_json` reads out of a text as a `nostr::nips::nip47::ListTransactionsRequest`, or the
/// text of its error.
pub uninterp spec fn parsed_list_transactions(text: Seq<char>) -> Result<
    ListTransactionsRequest,
    Seq<char>,
>;

/// Whether a text is read as the given request.
pub open spec fn pay_invoice_read_as(text: Seq<char>, request: PayInvoiceView) -> bool {
    parsed_pay_invoice(text) matches Ok(read) && read == request
}

/// Whether a text is read as the given request.
pub open spec fn list_transactions_read_as(
    text: Seq<char>,
    request: ListTransactionsRequest,
) -> bool {
    parsed_list_transactions(text) matches Ok(read) && read == request
}

/// Whether the JSON text of the parameters of a listing asks for payments that went a way which is
/// none of the two.
pub open spec fn names_other_type(text: Seq<char>) -> bool {
    &&& json_fields(text) matches Ok(fields)
    &&& field_value(fields, "type"@) matches Some(Some(value))
    &&& json_string(value) matches Ok(word)
    &&& word_type(word) is None
}

/// The JSON text of the parameters of a listing as it is read: a way that is none of the two is
/// passed over.
pub open spec fn listing_params(text: Seq<char>) -> Seq<char> {
    if names_other_type(text) {
        without_member(text, "type"@)->0
    } else {
        text
    }
}

/// Whether the parameters of a listing are read as the given request.
pub open spec fn listing_read_as(text: Seq<char>, request: ListTransactionsRequest) -> bool {
    list_transactions_read_as(listing_params(text), request)
}

/// Passes over a way that is none of the two in the JSON text of the parameters of a listing.
fn read_listing_params(text: &str) -> (r: String)
    ensures
        r@ == listing_params(text@),
{
    if let Ok(fields) = read_fields(text) {
        if let Some(field) = find_field(&fields, "type") {
            if let Some(value) = &field.value {
                if let Ok(word) = read_string(value.as_str()) {
                    if read_word_type(word.as_str()).is_none() {
                        return drop_member(text, "type").unwrap();
                    }
                }
            }
        }
    }
    text.to_owned()
}

/// The text that `serde_json::to_string` writes for a `nostr::nips::nip47::PayInvoiceRequest`.
pub uninterp spec fn pay_invoice_json(request: PayInvoiceView) -> Seq<char>;

/// The text that `serde_json::to_string` writes for a
/// `nostr::nips::nip47::ListTransactionsRequest`.
pub uninterp spec fn list_transactions_json(request: ListTransactionsRequest) -> Seq<char>;

/// Calls `serde_json::from_str` for a `nostr::nips::nip47::PayInvoiceRequest`. Claimed: the result,
/// and the text of the error where it refuses, depend on the text alone.
#[verifier::external_body]
fn parse_pay_invoice(text: &str) -> (r: Result<PayInvoiceRequest, String>)
    ensures
        match r {
            Ok(request) => pay_invoice_read_as(text@, request@),
            Err(error) => parsed_pay_invoice(text@) matches Err(said) && said == error@,
        },
{
    let p: nip47::PayInvoiceRequest = from_str(text).map_err(|e| e.to_string())?;
    Ok(PayInvoiceRequest { id: p.id, invoice: p.invoice, amount: p.amount })
}

/// Calls `serde_json::from_str` for a `nostr::nips::nip47::ListTransactionsRequest`. Claimed: the
/// result, and the text of the error where it refuses, depend on the text alone.
#[verifier::external_body]
fn parse_list_transactions(text: &str) -> (r: Result<ListTransactionsRequest, String>)
    ensures
        match r {
            Ok(request) => list_transactions_read_as(text@, request),
            Err(error) => parsed_list_transactions(text@) matches Err(said) && said == error@,
        },
{
    let p: nip47::ListTransactionsRequest = from_str(text).map_err(|e| e.to_string())?;
    Ok(ListTransactionsRequest {
        from: p.from.map(|t| t.as_u64()),
        until: p.until.map(|t| t.as_u64()),
        limit: p.limit,
        offset: p.offset,
        unpaid: p.unpaid,
        transaction_type: p.transaction_type.map(|t| match t {
            nip47::TransactionType::Incoming => TransactionType::Incoming,
            nip47::TransactionType::Outgoing => TransactionType::Outgoing,
        }),
    })
}

/// Calls `serde_json::to_string` on a `nostr::nips::nip47::PayInvoiceRequest`, which holds texts
/// and numbers alone and so never fails. Claimed: the text depends on the request alone, and is
/// read again as the same request.
#[verifier::external_body]
fn write_pay_invoice(request: &PayInvoiceRequest) -> (r: String)
    ensures
        r@ == pay_invoice_json(request@),
        pay_invoice_read_as(r@, request@),
{
    serde_json::to_string(&nip47::PayInvoiceRequest {
        id: request.id.clone(),
        invoice: request.invoice.clone(),
        amount: request.amount,
    }).unwrap()
}

/// Calls `serde_json::to_string` on a `nostr::nips::nip47::ListTransactionsRequest`, which holds
/// numbers and names alone and so never fails. Claimed: the text depends on the request alone, is
/// read again as the same request, and names no way but the two.
#[verifier::external_body]
fn write_list_transactions(request: &ListTransactionsRequest) -> (r: String)
    ensures
        r@ == list_transactions_json(*request),
        list_transactions_read_as(r@, *request),
        !names_other_type(r@),
{
    serde_json::to_string(&nip47::ListTransactionsRequest {
        from: request.from.map(nostr::Timestamp::from_secs),
        until: request.until.map(nostr::Timestamp::from_secs),
        limit: request.limit,
        offset: request.offset,
        unpaid: request.unpaid,
        transaction_type: request.transaction_type.map(|t| match t {
            TransactionType::Incoming => nip47::TransactionType::Incoming,
            TransactionType::Outgoing => nip47::TransactionType::Outgoing,
        }),
    }).unwrap()
}

/// What `serde_json::from_value` reads out of the value of a JSON text as a
/// `nostr::nips::nip47::PayInvoiceRequest`, or the text of its error.
pub uninterp spec fn pay_invoice_value(text: Seq<char>) -> Result<PayInvoiceView, Seq<char>>;

/// What `serde_json::from_value` reads out of the value of a JSON text as a
/// `nostr::nips::nip47::ListTransactionsRequest`, or the text of its error.
pub uninterp spec fn list_transactions_value(text: Seq<char>) -> Result<
    ListTransactionsRequest,
    Seq<char>,
>;

/// Whether the value of a JSON text is read as the given request.
pub open spec fn pay_invoice_value_is(text: Seq<char>, request: PayInvoiceView) -> bool {
    pay_invoice_value(text) matches Ok(read) && read == request
}

/// Whether the value of a JSON text is read as the given request.
pub open spec fn list_transactions_value_is(
    text: Seq<char>,
    request: ListTransactionsRequest,
) -> bool {
    list_transactions_value(text) matches Ok(read) && read == request
}

/// Calls `serde_json::from_str` for a `serde_json::Value` and `serde_json::from_value` for a
/// `nostr::nips::nip47::PayInvoiceRequest`. Claimed: the result, and the text of the error where
/// one of them refuses, depend on the text alone.
#[verifier::external_body]
fn take_pay_invoice(text: &str) -> (r: Result<PayInvoiceRequest, String>)
    ensures
        match r {
            Ok(request) => pay_invoice_value_is(text@, request@),
            Err(error) => pay_invoice_value(text@) matches Err(said) && said == error@,
        },
{
    let value: serde_json::Value = from_str(text).map_err(|e| e.to_string())?;
    let p: nip47::PayInvoiceRequest = serde_json::from_value(value).map_err(|e| e.to_string())?;
    Ok(PayInvoiceRequest { id: p.id, invoice: p.invoice, amount: p.amount })
}

/// Calls `serde_json::from_str` for a `serde_json::Value` and `serde_json::from_value` for a
/// `nostr::nips::nip47::ListTransactionsRequest`. Claimed: the result, and the text of the error
/// where one of them refuses, depend on the text alone.
#[verifier::external_body]
fn take_list_transactions(text: &str) -> (r: Result<ListTransactionsRequest, String>)
    ensures
        match r {
            Ok(request) => list_transactions_value_is(text@, request),
            Err(error) => list_transactions_value(text@) matches Err(said) && said == error@,
        },
{
    let value: serde_json::Value = from_str(text).map_err(|e| e.to_string())?;
    let p: nip47::ListTransactionsRequest = serde_json::from_value(value).map_err(|e| e.to_string())?;
    let transaction_type = p.transaction_type.map(|t| match t {
        nip47::TransactionType::Incoming => TransactionType::Incoming,
        nip47::TransactionType::Outgoing => TransactionType::Outgoing,
    });
    let (from, until) = (p.from.map(|t| t.as_u64()), p.until.map(|t| t.as_u64()));
    let (limit, offset, unpaid) = (p.limit, p.offset, p.unpaid);
    Ok(ListTransactionsRequest { from, until, limit, offset, unpaid, transaction_type })
}

impl PayInvoiceRequest {
    /// Reads the JSON text of the parameters, or says in words why it cannot.
    pub fn parse(text: &str) -> (r: Result<PayInvoiceRequest, String>)
        ensures
            match r {
                Ok(request) => pay_invoice_read_as(text@, request@),
                Err(error) => parsed_pay_invoice(text@) matches Err(said) && said == error@,
            },
    {
        parse_pay_invoice(text)
    }

    /// Takes the parameters out of the value of a JSON text, or says in words why it cannot.
    pub fn from_value(text: &str) -> (r: Result<PayInvoiceRequest, String>)
        ensures
            match r {
                Ok(request) => pay_invoice_value_is(text@, request@),
                Err(error) => pay_invoice_value(text@) matches Err(said) && said == error@,
            },
    {
        take_pay_invoice(text)
    }

    /// Writes the parameters as JSON, to be read again as the same request.
    pub fn to_json(&self) -> (r: String)
        ensures
            r@ == pay_invoice_json(self@),
            pay_invoice_read_as(r@, self@),
    {
        write_pay_invoice(self)
    }
}

impl ListTransactionsRequest {
    /// Reads the JSON text of the parameters, or says in words why it cannot. A way that is none of
    /// the two is passed over.
    pub fn parse(text: &str) -> (r: Result<ListTransactionsRequest, String>)
        ensures
            match r {
                Ok(request) => listing_read_as(text@, request),
                Err(error) => parsed_list_transactions(listing_params(text@)) matches Err(said)
                    && said == error@,
            },
    {
        let params = read_listing_params(text);
        parse_list_transactions(params.as_str())
    }

    /// Takes the parameters out of the value of a JSON text, or says in words why it cannot. A way
    /// that is none of the two is passed over.
    pub fn from_value(text: &str) -> (r: Result<ListTransactionsRequest, String>)
        ensures
            match r {
                Ok(request) => list_transactions_value_is(listing_params(text@), request),
                Err(error) => list_transactions_value(listing_params(text@)) matches Err(said)
                    && said == error@,
            },
    {
        let params = read_listing_params(text);
        take_list_transactions(params.as_str())
    }

    /// Writes the parameters as JSON, to be read again as the same request.
    pub fn to_json(&self) -> (r: String)
        ensures
            r@ == list_transactions_json(*self),
            listing_read_as(r@, *self),
    {
        write_list_transactions(self)
    }
}

} // verus!
