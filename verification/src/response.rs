//! The answers and the notifications that the wallet writes, and their JSON texts.
use crate::nip47::{ErrorCode, Method, Nip47Error, TransactionType};
use nostr::nips::nip47::{self, NotificationResult, Response};
use serde_json::to_string;
use vstd::prelude::*;

verus! {

/// The answer to a paid invoice.
pub struct PayInvoiceResponse {
    /// The proof of payment.
    pub preimage: String,
    /// What the payment cost, in thousandths of a satoshi.
    pub fees_paid: Option<u64>,
}

/// The answer to a question for the balance.
#[derive(Clone, Copy, Debug)]
pub struct GetBalanceResponse {
    /// The balance in thousandths of a satoshi.
    pub balance: u64,
}

/// One transaction in the answer to a request to list them.
pub struct LookupInvoiceResponse {
    pub transaction_type: Option<TransactionType>,
    pub invoice: Option<String>,
    pub description: Option<String>,
    pub description_hash: Option<String>,
    pub preimage: Option<String>,
    pub payment_hash: String,
    /// The amount in thousandths of a satoshi.
    pub amount: u64,
    /// The fees in thousandths of a satoshi.
    pub fees_paid: u64,
    pub created_at: u64,
    pub expires_at: Option<u64>,
    pub settled_at: Option<u64>,
}

/// The mathematical content of a [`LookupInvoiceResponse`].
pub struct LookupInvoiceView {
    pub transaction_type: Option<TransactionType>,
    pub invoice: Option<Seq<char>>,
    pub description: Option<Seq<char>>,
    pub description_hash: Option<Seq<char>>,
    pub preimage: Option<Seq<char>>,
    pub payment_hash: Seq<char>,
    pub amount: u64,
    pub fees_paid: u64,
    pub created_at: u64,
    pub expires_at: Option<u64>,
    pub settled_at: Option<u64>,
}

impl View for LookupInvoiceResponse {
    type V = LookupInvoiceView;

    open spec fn view(&self) -> LookupInvoiceView {
        LookupInvoiceView {
            transaction_type: self.transaction_type,
            invoice: self.invoice.deep_view(),
            description: self.description.deep_view(),
            description_hash: self.description_hash.deep_view(),
            preimage: self.preimage.deep_view(),
            payment_hash: self.payment_hash@,
            amount: self.amount,
            fees_paid: self.fees_paid,
            created_at: self.created_at,
            expires_at: self.expires_at,
            settled_at: self.settled_at,
        }
    }
}

impl DeepView for LookupInvoiceResponse {
    type V = LookupInvoiceView;

    open spec fn deep_view(&self) -> LookupInvoiceView {
        self@
    }
}

/// What a request is answered with where it succeeded.
pub enum ResponseResult {
    PayInvoice(PayInvoiceResponse),
    ListTransactions(Vec<LookupInvoiceResponse>),
    GetBalance(GetBalanceResponse),
}

/// The text that `serde_json::to_string` writes for the `nostr::nips::nip47::Response` to a paid
/// invoice.
pub uninterp spec fn pay_invoice_response_json(
    preimage: Seq<char>,
    fees_paid: Option<u64>,
) -> Seq<char>;

/// The text that `serde_json::to_string` writes for the `nostr::nips::nip47::Response` with a list
/// of transactions.
pub uninterp spec fn transactions_response_json(
    transactions: Seq<LookupInvoiceView>,
) -> Seq<char>;

/// The text that `serde_json::to_string` writes for the `nostr::nips::nip47::Response` with a
/// balance.
pub uninterp spec fn balance_response_json(balance: u64) -> Seq<char>;

/// The text that `serde_json::to_string` writes for a `nostr::nips::nip47::Response` with an
/// error, for the name of a method, the name of a code and a message.
pub uninterp spec fn error_response_json(
    method: Seq<char>,
    code: Seq<char>,
    message: Seq<char>,
) -> Seq<char>;

/// Calls `serde_json::to_string` on the `nostr::nips::nip47::Response` to a paid invoice, which
/// holds texts and numbers alone and so never fails. Claimed: the text depends on the arguments
/// alone.
#[verifier::external_body]
fn write_pay_invoice_response(preimage: &str, fees_paid: Option<u64>) -> (r: String)
    ensures
        r@ == pay_invoice_response_json(preimage@, fees_paid),
{
    let preimage = preimage.to_owned();
    let paid = nip47::PayInvoiceResponse { preimage, fees_paid };
    to_string(&Response {
        result_type: nip47::Method::PayInvoice,
        error: None,
        result: Some(nip47::ResponseResult::PayInvoice(paid)),
    }).unwrap()
}

/// Calls `serde_json::to_string` on the `nostr::nips::nip47::Response` with a list of transactions
/// without metadata, which holds texts and numbers alone and so never fails. Claimed: the text
/// depends on the transactions alone.
#[verifier::external_body]
fn write_transactions_response(transactions: &Vec<LookupInvoiceResponse>) -> (r: String)
    ensures
        r@ == transactions_response_json(transactions.deep_view()),
{
    let list = transactions.iter().map(|t| nip47::LookupInvoiceResponse {
        transaction_type: t.transaction_type.map(|kind| match kind {
            TransactionType::Incoming => nip47::TransactionType::Incoming,
            TransactionType::Outgoing => nip47::TransactionType::Outgoing }),
        invoice: t.invoice.clone(), description: t.description.clone(),
        description_hash: t.description_hash.clone(), preimage: t.preimage.clone(),
        payment_hash: t.payment_hash.clone(), amount: t.amount, fees_paid: t.fees_paid,
        created_at: t.created_at.into(), expires_at: t.expires_at.map(Into::into),
        settled_at: t.settled_at.map(Into::into), metadata: None }).collect();
    to_string(&Response {
        result_type: nip47::Method::ListTransactions,
        error: None,
        result: Some(nip47::ResponseResult::ListTransactions(list)),
    }).unwrap()
}

/// Calls `serde_json::to_string` on the `nostr::nips::nip47::Response` with a balance, which holds
/// a number alone and so never fails. Claimed: the text depends on the balance alone.
#[verifier::external_body]
fn write_balance_response(balance: u64) -> (r: String)
    ensures
        r@ == balance_response_json(balance),
{
    let balance = nip47::GetBalanceResponse { balance };
    to_string(&Response {
        result_type: nip47::Method::GetBalance,
        error: None,
        result: Some(nip47::ResponseResult::GetBalance(balance)),
    }).unwrap()
}

/// Calls `serde_json::to_string` on a `nostr::nips::nip47::Response` with an error, which holds
/// texts and names alone and so never fails. Claimed: the text depends on the names of the method
/// and of the code and on the message alone.
#[verifier::external_body]
fn write_error_response(method: Method, code: ErrorCode, message: &str) -> (r: String)
    ensures
        r@ == error_response_json(method.name(), code.name(), message@),
{
    let result_type = match method {
        Method::PayInvoice => nip47::Method::PayInvoice, Method::GetBalance => nip47::Method::GetBalance,
        Method::ListTransactions => nip47::Method::ListTransactions };
    let code = match code {
        ErrorCode::RateLimited => nip47::ErrorCode::RateLimited, ErrorCode::Other => nip47::ErrorCode::Other,
        ErrorCode::NotImplemented => nip47::ErrorCode::NotImplemented, ErrorCode::NotFound => nip47::ErrorCode::NotFound,
        ErrorCode::InsufficientBalance => nip47::ErrorCode::InsufficientBalance, ErrorCode::Internal => nip47::ErrorCode::Internal,
        ErrorCode::PaymentFailed => nip47::ErrorCode::PaymentFailed, ErrorCode::Restricted => nip47::ErrorCode::Restricted,
        ErrorCode::QuotaExceeded => nip47::ErrorCode::QuotaExceeded, ErrorCode::Unauthorized => nip47::ErrorCode::Unauthorized };
    let error = Some(nip47::NIP47Error { code, message: message.to_owned() });
    to_string(&Response { result_type, error, result: None }).unwrap()
}

/// The method that a result answers.
pub open spec fn result_method(result: ResponseResult) -> Method {
    match result {
        ResponseResult::PayInvoice(_) => Method::PayInvoice,
        ResponseResult::ListTransactions(_) => Method::ListTransactions,
        ResponseResult::GetBalance(_) => Method::GetBalance,
    }
}

/// The JSON text of a result.
pub open spec fn result_json(result: ResponseResult) -> Seq<char> {
    match result {
        ResponseResult::PayInvoice(paid) => pay_invoice_response_json(
            paid.preimage@,
            paid.fees_paid,
        ),
        ResponseResult::ListTransactions(transactions) => transactions_response_json(
            transactions.deep_view(),
        ),
        ResponseResult::GetBalance(balance) => balance_response_json(balance.balance),
    }
}

/// The JSON text of the answer to a request of the given method.
pub open spec fn response_json(method: Method, reply: Result<ResponseResult, Nip47Error>) -> Seq<
    char,
> {
    match reply {
        Ok(result) => result_json(result),
        Err(error) => error_response_json(method.name(), error.code.name(), error.message@),
    }
}

/// Whether a reply, where it is a result, answers the given method.
pub open spec fn answers(method: Method, reply: Result<ResponseResult, Nip47Error>) -> bool {
    reply matches Ok(result) ==> result_method(result) == method
}

/// Writes the answer to a request of the given method as JSON.
pub fn write_response(method: Method, reply: &Result<ResponseResult, Nip47Error>) -> (r: String)
    requires
        answers(method, *reply),
    ensures
        r@ == response_json(method, *reply),
{
    match reply {
        Ok(ResponseResult::PayInvoice(paid)) => write_pay_invoice_response(
            paid.preimage.as_str(),
            paid.fees_paid,
        ),
        Ok(ResponseResult::ListTransactions(transactions)) => write_transactions_response(
            transactions,
        ),
        Ok(ResponseResult::GetBalance(balance)) => write_balance_response(balance.balance),
        Err(error) => write_error_response(method, error.code, error.message.as_str()),
    }
}

/// What a notification of a payment says.
pub struct PaymentNotification {
    pub transaction_type: TransactionType,
    pub invoice: String,
    pub description: Option<String>,
    pub preimage: String,
    pub payment_hash: String,
    /// The amount in thousandths of a satoshi.
    pub amount: u64,
    /// The fees in thousandths of a satoshi.
    pub fees_paid: u64,
    pub created_at: u64,
    pub settled_at: u64,
}

/// The mathematical content of a [`PaymentNotification`].
pub struct PaymentNotificationView {
    pub transaction_type: TransactionType,
    pub invoice: Seq<char>,
    pub description: Option<Seq<char>>,
    pub preimage: Seq<char>,
    pub payment_hash: Seq<char>,
    pub amount: u64,
    pub fees_paid: u64,
    pub created_at: u64,
    pub settled_at: u64,
}

impl View for PaymentNotification {
    type V = PaymentNotificationView;

    open spec fn view(&self) -> PaymentNotificationView {
        PaymentNotificationView {
            transaction_type: self.transaction_type,
            invoice: self.invoice@,
            description: self.description.deep_view(),
            preimage: self.preimage@,
            payment_hash: self.payment_hash@,
            amount: self.amount,
            fees_paid: self.fees_paid,
            created_at: self.created_at,
            settled_at: self.settled_at,
        }
    }
}

/// Whether a notification tells of a payment that was sent or of one that was received.
#[derive(Clone, Copy, Debug, PartialEq, Eq, Structural)]
pub enum NotificationType {
    PaymentSent,
    PaymentReceived,
}

/// A notification of a payment.
pub struct Notification {
    pub notification_type: NotificationType,
    pub notification: PaymentNotification,
}

/// The text that `serde_json::to_string` writes for the `nostr::nips::nip47::Notification` of a
/// payment, for whether it was sent and for what is told of it.
pub uninterp spec fn notification_json(sent: bool, payment: PaymentNotificationView) -> Seq<char>;

/// Calls `serde_json::to_string` on a `nostr::nips::nip47::Notification` without a description
/// hash, an expiry and metadata, which holds texts and numbers alone and so never fails. Claimed:
/// the text depends on the notification alone.
#[verifier::external_body]
fn write_notification(n: &Notification) -> (r: String)
    ensures
        r@ == notification_json(
            n.notification_type == NotificationType::PaymentSent,
            n.notification@,
        ),
{
    let p = &n.notification;
    let told = nip47::PaymentNotification {
        transaction_type: Some(match p.transaction_type {
            TransactionType::Incoming => nip47::TransactionType::Incoming,
            TransactionType::Outgoing => nip47::TransactionType::Outgoing }),
        invoice: p.invoice.clone(), description: p.description.clone(), description_hash: None,
        preimage: p.preimage.clone(), payment_hash: p.payment_hash.clone(), amount: p.amount,
        fees_paid: p.fees_paid, created_at: p.created_at.into(), expires_at: None,
        settled_at: p.settled_at.into(), metadata: None };
    let (notification_type, notification) = match n.notification_type {
        NotificationType::PaymentSent => (nip47::NotificationType::PaymentSent, NotificationResult::PaymentSent(told)),
        NotificationType::PaymentReceived => (nip47::NotificationType::PaymentReceived, NotificationResult::PaymentReceived(told)),
    };
    to_string(&nip47::Notification { notification_type, notification }).unwrap()
}

impl Notification {
    /// Writes the notification as JSON.
    pub fn to_json(&self) -> (r: String)
        ensures
            r@ == notification_json(
                self.notification_type == NotificationType::PaymentSent,
                self.notification@,
            ),
    {
        write_notification(self)
    }
}

} // verus!
