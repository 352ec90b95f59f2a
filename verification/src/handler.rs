//! What the wallet is asked to do for each request, and what the client is told of the outcome.
use crate::model::{PaymentState, PaymentType};
use crate::nip47::{
    listing_params, parsed_list_transactions, parsed_pay_invoice, read_word_type, word_type,
    ErrorCode, ListTransactionsRequest, Nip47Error, PayInvoiceRequest, PayInvoiceView,
    TransactionType, MSATS_PER_SAT,
};
use crate::response::{
    GetBalanceResponse, LookupInvoiceResponse, LookupInvoiceView, PayInvoiceResponse,
    ResponseResult,
};
use crate::text::{joined, or_empty, text_or_empty};
use std::sync::Arc;
use vstd::prelude::*;

verus! {

/// Why a message is answered with an error: it cannot be understood, or the wallet refuses.
#[derive(Clone, Copy, Debug, PartialEq, Eq, Structural)]
pub enum RelayErrorCode {
    InvalidRequest,
    Wallet(ErrorCode),
}

impl RelayErrorCode {
    /// The name of the code in an answer.
    pub open spec fn name(self) -> Seq<char> {
        match self {
            RelayErrorCode::InvalidRequest => "INVALID_REQUEST"@,
            RelayErrorCode::Wallet(code) => code.name(),
        }
    }

    /// The name of the code in an answer.
    pub fn as_str(&self) -> (r: &'static str)
        ensures
            r@ == self.name(),
    {
        match self {
            RelayErrorCode::InvalidRequest => "INVALID_REQUEST",
            RelayErrorCode::Wallet(code) => code.as_str(),
        }
    }
}

/// An error with which a message is answered.
pub struct RelayError {
    pub code: RelayErrorCode,
    pub message: String,
}

impl RelayError {
    /// Whether this is the error of the given code and message.
    pub open spec fn says(&self, code: RelayErrorCode, message: Seq<char>) -> bool {
        self.code == code && self.message@ == message
    }
}

impl Nip47Error {
    /// Whether this is the error of the given code and message.
    pub open spec fn says(&self, code: ErrorCode, message: Seq<char>) -> bool {
        self.code == code && self.message@ == message
    }
}

/// An amount to be paid.
#[derive(Clone, Copy, Debug, PartialEq, Eq, Structural)]
pub enum PayAmount {
    Bitcoin { receiver_amount_sat: u64 },
}

/// What the wallet is asked to prepare.
pub struct PrepareSendRequest {
    pub destination: String,
    pub amount: Option<PayAmount>,
}

/// What the wallet is asked to send, after it has prepared `P`.
pub struct SendPaymentRequest<P> {
    pub prepare_response: P,
    pub use_asset_fees: Option<bool>,
}

/// What is known of a payment that was sent.
pub struct SentPayment {
    pub preimage: Option<String>,
    /// What it cost, in satoshis.
    pub fees_paid: Option<u64>,
}

/// Which payments the wallet is asked to list.
pub struct ListPaymentsRequest {
    pub filters: Option<Vec<PaymentType>>,
    pub states: Option<Vec<PaymentState>>,
    pub from_timestamp: Option<u64>,
    pub to_timestamp: Option<u64>,
    pub limit: Option<u64>,
    pub offset: Option<u64>,
    /// What else the payments have to be like.
    pub details: Option<String>,
    pub sort_ascending: Option<bool>,
}

/// A payment as the wallet lists it.
pub struct ListedPayment {
    pub payment_hash: String,
    pub bolt11: Option<String>,
    pub description: Option<String>,
    pub preimage: Option<String>,
    pub amount_msat: u64,
    /// What it cost, in satoshis.
    pub fees_paid: Option<u64>,
    pub timestamp: u64,
    pub settled_at: Option<u64>,
    pub payment_type: PaymentType,
    pub state: PaymentState,
}

/// A payment as a client is told of it.
pub struct Transaction {
    pub id: String,
    pub invoice: Option<String>,
    pub description: Option<String>,
    pub description_hash: Option<String>,
    pub preimage: Option<String>,
    pub payment_hash: String,
    /// The amount in thousandths of a satoshi.
    pub amount: u64,
    /// The fees in thousandths of a satoshi.
    pub fees_paid: Option<u64>,
    pub timestamp: u64,
    pub settled_at: Option<u64>,
    pub payment_type: String,
    pub state: String,
}

/// A number of satoshis in thousandths, where there is one.
pub open spec fn optional_msats(sats: Option<u64>) -> Option<u64> {
    match sats {
        Some(n) => Some((n * MSATS_PER_SAT) as u64),
        None => None,
    }
}

/// Whether a number of satoshis, where there is one, can be told in thousandths.
pub open spec fn optional_fits(sats: Option<u64>) -> bool {
    sats matches Some(n) ==> n * MSATS_PER_SAT <= u64::MAX
}

fn to_msats(sats: Option<u64>) -> (r: Option<u64>)
    requires
        optional_fits(sats),
    ensures
        r == optional_msats(sats),
{
    match sats {
        Some(n) => Some(n * MSATS_PER_SAT),
        None => None,
    }
}

/// The word by which a client is told which way a payment went.
pub open spec fn payment_type_word(payment_type: PaymentType) -> Seq<char> {
    match payment_type {
        PaymentType::Send => "outgoing"@,
        PaymentType::Receive => "incoming"@,
        PaymentType::Other => "unknown"@,
    }
}

/// The word by which a client is told how far a payment has come.
pub open spec fn payment_state_word(state: PaymentState) -> Seq<char> {
    match state {
        PaymentState::Pending => "pending"@,
        PaymentState::Completed => "completed"@,
        PaymentState::Failed => "failed"@,
        PaymentState::Other => "unknown"@,
    }
}

/// Whether a client is told of a payment as it should be.
pub open spec fn transaction_tells(transaction: Transaction, payment: ListedPayment) -> bool {
    &&& transaction.id@ == payment.payment_hash@
    &&& transaction.invoice == payment.bolt11
    &&& transaction.description == payment.description
    &&& transaction.description_hash is None
    &&& transaction.preimage == payment.preimage
    &&& transaction.payment_hash@ == payment.payment_hash@
    &&& transaction.amount == payment.amount_msat
    &&& transaction.fees_paid == optional_msats(payment.fees_paid)
    &&& transaction.timestamp == payment.timestamp
    &&& transaction.settled_at == payment.settled_at
    &&& transaction.payment_type@ == payment_type_word(payment.payment_type)
    &&& transaction.state@ == payment_state_word(payment.state)
}

/// What an answer says of a transaction: fees that are not known count as none.
pub open spec fn looked_up(transaction: Transaction) -> LookupInvoiceView {
    LookupInvoiceView {
        transaction_type: word_type(transaction.payment_type@),
        invoice: transaction.invoice.deep_view(),
        description: transaction.description.deep_view(),
        description_hash: transaction.description_hash.deep_view(),
        preimage: transaction.preimage.deep_view(),
        payment_hash: transaction.payment_hash@,
        amount: transaction.amount,
        fees_paid: match transaction.fees_paid {
            Some(fees) => fees,
            None => 0,
        },
        created_at: transaction.timestamp,
        expires_at: None,
        settled_at: transaction.settled_at,
    }
}

impl Transaction {
    /// Says what an answer says of the transaction.
    pub fn to_lookup(&self) -> (r: LookupInvoiceResponse)
        ensures
            r@ == looked_up(*self),
    {
        let fees_paid: u64 = match self.fees_paid {
            Some(fees) => fees,
            None => 0,
        };
        LookupInvoiceResponse {
            transaction_type: read_word_type(self.payment_type.as_str()),
            invoice: self.invoice.clone(),
            description: self.description.clone(),
            description_hash: self.description_hash.clone(),
            preimage: self.preimage.clone(),
            payment_hash: self.payment_hash.clone(),
            amount: self.amount,
            fees_paid,
            created_at: self.timestamp,
            expires_at: None,
            settled_at: self.settled_at,
        }
    }
}

/// What an answer says of transactions, in their order.
pub open spec fn all_looked_up(transactions: Seq<Transaction>) -> Seq<LookupInvoiceView> {
    transactions.map_values(|transaction: Transaction| looked_up(transaction))
}

/// Writes the result that lists the transactions.
pub fn transactions_result(transactions: &Vec<Transaction>) -> (r: ResponseResult)
    ensures
        r matches ResponseResult::ListTransactions(list) && list.deep_view() == all_looked_up(
            transactions@,
        ),
{
    let mut list: Vec<LookupInvoiceResponse> = Vec::new();
    let ghost all = all_looked_up(transactions@);
    for i in 0..transactions.len()
        invariant
            all == all_looked_up(transactions@),
            list.deep_view() == all.take(i as int),
    {
        let ghost before = list.deep_view();
        let lookup = transactions[i].to_lookup();
        list.push(lookup);
        assert(list.deep_view() =~= before.push(lookup@));
        assert(all.take(i + 1) =~= all.take(i as int).push(all[i as int]));
    }
    assert(all.take(all.len() as int) =~= all);
    ResponseResult::ListTransactions(list)
}

/// What the wallet is asked to prepare for a request.
pub open spec fn prepares(prepare: PrepareSendRequest, request: PayInvoiceView) -> bool {
    &&& prepare.destination@ == request.invoice
    &&& match request.amount {
        Some(msats) => prepare.amount == Some(
            PayAmount::Bitcoin { receiver_amount_sat: msats / MSATS_PER_SAT },
        ),
        None => prepare.amount is None,
    }
}

/// The payments that the wallet is asked to list for a request: those of the type asked for, or
/// of all types; those that are pending where unpaid ones are asked for, none by its state where
/// they are declined; the latest first.
pub open spec fn lists(list: ListPaymentsRequest, request: ListTransactionsRequest) -> bool {
    &&& match request.transaction_type {
        Some(TransactionType::Incoming) => list.filters matches Some(types) && types@ == seq![
            PaymentType::Receive,
        ],
        Some(TransactionType::Outgoing) => list.filters matches Some(types) && types@ == seq![
            PaymentType::Send,
        ],
        None => list.filters is None,
    }
    &&& match request.unpaid {
        Some(unpaid) => list.states matches Some(states) && states@ == if unpaid {
            seq![PaymentState::Pending]
        } else {
            Seq::<PaymentState>::empty()
        },
        None => list.states is None,
    }
    &&& list.from_timestamp == request.from
    &&& list.to_timestamp == request.until
    &&& list.limit == request.limit
    &&& list.offset == request.offset
    &&& list.details is None
    &&& list.sort_ascending == Some(false)
}

/// Serves the requests of clients with the wallet `S`.
pub struct BreezRelayMessageHandler<S> {
    pub sdk: Arc<S>,
}

impl<S> BreezRelayMessageHandler<S> {
    /// A handler that serves requests with the given wallet.
    pub fn new(sdk: Arc<S>) -> (r: Self)
        ensures
            r.sdk == sdk,
    {
        BreezRelayMessageHandler { sdk }
    }

    /// Says what the wallet has to prepare for a request to pay an invoice. An amount is asked for
    /// in whole satoshis, rounded down.
    pub fn prepare_payment(&self, request: &PayInvoiceRequest) -> (r: PrepareSendRequest)
        ensures
            prepares(r, request@),
    {
        let amount = match request.amount {
            Some(msats) => Some(
                PayAmount::Bitcoin { receiver_amount_sat: msats / MSATS_PER_SAT },
            ),
            None => None,
        };
        PrepareSendRequest { destination: request.invoice.clone(), amount }
    }

    /// Reads the parameters of a request to pay an invoice and says what the wallet has to
    /// prepare.
    pub fn pay_invoice(&self, params: &str) -> (r: Result<PrepareSendRequest, RelayError>)
        ensures
            match parsed_pay_invoice(params@) {
                Ok(request) => r matches Ok(prepare) && prepares(prepare, request),
                Err(error) => r matches Err(e) && e.says(
                    RelayErrorCode::InvalidRequest,
                    "Invalid params: "@ + error,
                ),
            },
    {
        match PayInvoiceRequest::parse(params) {
            Ok(request) => Ok(self.prepare_payment(&request)),
            Err(error) => Err(
                RelayError {
                    code: RelayErrorCode::InvalidRequest,
                    message: joined("Invalid params: ", error.as_str()),
                },
            ),
        }
    }

    /// Says what the wallet has to send, once it has prepared the payment or refused to.
    pub fn payment_prepared<P>(&self, prepared: Result<P, String>) -> (r: Result<
        SendPaymentRequest<P>,
        Nip47Error,
    >)
        ensures
            match prepared {
                Ok(prepare_response) => r matches Ok(send) && send.prepare_response
                    == prepare_response && send.use_asset_fees is None,
                Err(error) => r matches Err(e) && e.says(
                    ErrorCode::PaymentFailed,
                    "Failed to prepare payment: "@ + error@,
                ),
            },
    {
        match prepared {
            Ok(prepare_response) => Ok(
                SendPaymentRequest { prepare_response, use_asset_fees: None },
            ),
            Err(error) => Err(
                Nip47Error {
                    code: ErrorCode::PaymentFailed,
                    message: joined("Failed to prepare payment: ", error.as_str()),
                },
            ),
        }
    }

    /// Says what the client is told, once the wallet has sent the payment or failed to. Fees are
    /// told in thousandths of a satoshi.
    pub fn payment_sent(&self, sent: Result<SentPayment, String>) -> (r: Result<
        PayInvoiceResponse,
        Nip47Error,
    >)
        requires
            sent matches Ok(payment) ==> optional_fits(payment.fees_paid),
        ensures
            match sent {
                Ok(payment) => r matches Ok(response) && response.preimage@ == text_or_empty(
                    payment.preimage,
                ) && response.fees_paid == optional_msats(payment.fees_paid),
                Err(error) => r matches Err(e) && e.says(
                    ErrorCode::PaymentFailed,
                    "Failed to send payment: "@ + error@,
                ),
            },
    {
        match sent {
            Ok(payment) => Ok(
                PayInvoiceResponse {
                    preimage: or_empty(&payment.preimage),
                    fees_paid: to_msats(payment.fees_paid),
                },
            ),
            Err(error) => Err(
                Nip47Error {
                    code: ErrorCode::PaymentFailed,
                    message: joined("Failed to send payment: ", error.as_str()),
                },
            ),
        }
    }

    /// Says which payments the wallet has to list for a request.
    pub fn list_payments(&self, request: &ListTransactionsRequest) -> (r: ListPaymentsRequest)
        ensures
            lists(r, *request),
    {
        let filters: Option<Vec<PaymentType>> = match request.transaction_type {
            Some(TransactionType::Incoming) => Some(vec![PaymentType::Receive]),
            Some(TransactionType::Outgoing) => Some(vec![PaymentType::Send]),
            None => None,
        };
        let states: Option<Vec<PaymentState>> = match request.unpaid {
            Some(unpaid) => if unpaid {
                Some(vec![PaymentState::Pending])
            } else {
                Some(Vec::new())
            },
            None => None,
        };
        assert(filters matches Some(types) ==> types@.len() == 1 && types@ =~= seq![types@[0]]);
        assert(request.unpaid == Some(true) ==> states->0@ =~= seq![PaymentState::Pending]);
        assert(request.unpaid == Some(false) ==> states->0@ =~= Seq::<PaymentState>::empty());
        ListPaymentsRequest {
            filters,
            states,
            from_timestamp: request.from,
            to_timestamp: request.until,
            limit: request.limit,
            offset: request.offset,
            details: None,
            sort_ascending: Some(false),
        }
    }

    /// Reads the parameters of a request to list transactions and says which payments the wallet
    /// has to list. A way that is none of the two is passed over.
    pub fn list_transactions(&self, params: &str) -> (r: Result<ListPaymentsRequest, RelayError>)
        ensures
            match parsed_list_transactions(listing_params(params@)) {
                Ok(request) => r matches Ok(list) && lists(list, request),
                Err(error) => r matches Err(e) && e.says(
                    RelayErrorCode::InvalidRequest,
                    "Invalid params: "@ + error,
                ),
            },
    {
        match ListTransactionsRequest::parse(params) {
            Ok(request) => Ok(self.list_payments(&request)),
            Err(error) => Err(
                RelayError {
                    code: RelayErrorCode::InvalidRequest,
                    message: joined("Invalid params: ", error.as_str()),
                },
            ),
        }
    }

    /// Says what the client is told of the payments, once the wallet has listed them or failed to:
    /// one transaction for each payment, in the wallet's order.
    pub fn payments_listed(&self, listed: Result<Vec<ListedPayment>, String>) -> (r: Result<
        Vec<Transaction>,
        Nip47Error,
    >)
        requires
            listed matches Ok(payments) ==> forall|i: int|
                0 <= i < payments@.len() ==> optional_fits(#[trigger] payments@[i].fees_paid),
        ensures
            match listed {
                Ok(payments) => r matches Ok(transactions) && transactions@.len()
                    == payments@.len() && forall|i: int|
                    0 <= i < payments@.len() ==> transaction_tells(
                        #[trigger] transactions@[i],
                        payments@[i],
                    ),
                Err(error) => r matches Err(e) && e.says(
                    ErrorCode::Internal,
                    "Failed to list payments: "@ + error@,
                ),
            },
    {
        match listed {
            Ok(payments) => {
                let mut transactions: Vec<Transaction> = Vec::new();
                for i in 0..payments.len()
                    invariant
                        forall|j: int|
                            0 <= j < payments@.len() ==> optional_fits(
                                #[trigger] payments@[j].fees_paid,
                            ),
                        transactions@.len() == i,
                        forall|j: int|
                            0 <= j < i ==> transaction_tells(
                                #[trigger] transactions@[j],
                                payments@[j],
                            ),
                {
                    let payment = &payments[i];
                    let payment_type = match payment.payment_type {
                        PaymentType::Send => "outgoing",
                        PaymentType::Receive => "incoming",
                        PaymentType::Other => "unknown",
                    };
                    let state = match payment.state {
                        PaymentState::Pending => "pending",
                        PaymentState::Completed => "completed",
                        PaymentState::Failed => "failed",
                        PaymentState::Other => "unknown",
                    };
                    transactions.push(
                        Transaction {
                            id: payment.payment_hash.clone(),
                            invoice: payment.bolt11.clone(),
                            description: payment.description.clone(),
                            description_hash: None,
                            preimage: payment.preimage.clone(),
                            payment_hash: payment.payment_hash.clone(),
                            amount: payment.amount_msat,
                            fees_paid: to_msats(payment.fees_paid),
                            timestamp: payment.timestamp,
                            settled_at: payment.settled_at,
                            payment_type: payment_type.to_owned(),
                            state: state.to_owned(),
                        },
                    );
                }
                Ok(transactions)
            },
            Err(error) => Err(
                Nip47Error {
                    code: ErrorCode::Internal,
                    message: joined("Failed to list payments: ", error.as_str()),
                },
            ),
        }
    }

    /// Says what the client is told of the balance, once the wallet has named it, in satoshis, or
    /// failed to. It is told in thousandths of a satoshi.
    pub fn get_balance(&self, balance_sat: Result<u64, String>) -> (r: Result<
        GetBalanceResponse,
        Nip47Error,
    >)
        requires
            balance_sat matches Ok(sats) ==> sats * MSATS_PER_SAT <= u64::MAX,
        ensures
            match balance_sat {
                Ok(sats) => r matches Ok(response) && response.balance == sats * MSATS_PER_SAT,
                Err(error) => r matches Err(e) && e.says(
                    ErrorCode::Internal,
                    "Failed to get wallet info: "@ + error@,
                ),
            },
    {
        match balance_sat {
            Ok(sats) => Ok(GetBalanceResponse { balance: sats * MSATS_PER_SAT }),
            Err(error) => Err(
                Nip47Error {
                    code: ErrorCode::Internal,
                    message: joined("Failed to get wallet info: ", error.as_str()),
                },
            ),
        }
    }
}

} // verus!
