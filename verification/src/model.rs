//! The wallet's payments, as far as a connection tells of them.
use crate::nip47::{TransactionType, MSATS_PER_SAT};
use crate::response::{
    Notification, NotificationType, PaymentNotification, PaymentNotificationView,
};
use crate::text::{or_empty, text_or_empty};
use vstd::prelude::*;

verus! {

/// Which way a payment of the wallet went.
#[derive(Clone, Copy, Debug, PartialEq, Eq, Structural)]
pub enum PaymentType {
    Send,
    Receive,
    /// Any other type.
    Other,
}

/// How far a payment of the wallet has come.
#[derive(Clone, Copy, Debug, PartialEq, Eq, Structural)]
pub enum PaymentState {
    Pending,
    Completed,
    Failed,
    /// Any other state.
    Other,
}

/// How a payment was made.
pub enum PaymentDetails {
    Lightning {
        invoice: Option<String>,
        description: String,
        preimage: Option<String>,
        payment_hash: Option<String>,
    },
    /// A payment that went another way than over lightning.
    Other,
}

/// A payment that succeeded.
pub struct Payment {
    pub payment_type: PaymentType,
    pub amount_sat: u64,
    pub fees_sat: u64,
    /// When it was made, in seconds since the epoch.
    pub timestamp: u32,
    pub details: PaymentDetails,
}

/// Whether the amount and the fees of a payment can be told in thousandths of a satoshi.
pub open spec fn tells_in_msats(payment: Payment) -> bool {
    &&& payment.amount_sat * MSATS_PER_SAT <= u64::MAX
    &&& payment.fees_sat * MSATS_PER_SAT <= u64::MAX
}

/// What is told of a payment: `None` unless it was made over lightning; texts that are missing are
/// told as empty ones, and amounts in thousandths of a satoshi.
pub open spec fn told_of(payment: Payment) -> Option<PaymentNotificationView> {
    match payment.details {
        PaymentDetails::Lightning { invoice, description, preimage, payment_hash } => Some(
            PaymentNotificationView {
                transaction_type: if payment.payment_type == PaymentType::Send {
                    TransactionType::Outgoing
                } else {
                    TransactionType::Incoming
                },
                invoice: text_or_empty(invoice),
                description: Some(description@),
                preimage: text_or_empty(preimage),
                payment_hash: text_or_empty(payment_hash),
                amount: (payment.amount_sat * MSATS_PER_SAT) as u64,
                fees_paid: (payment.fees_sat * MSATS_PER_SAT) as u64,
                created_at: payment.timestamp as u64,
                settled_at: payment.timestamp as u64,
            },
        ),
        PaymentDetails::Other => None,
    }
}

/// Writes the notification of a payment, which there is for lightning payments alone.
pub fn payment_notification(payment: &Payment) -> (r: Option<Notification>)
    requires
        payment.details is Lightning ==> tells_in_msats(*payment),
    ensures
        match r {
            Some(notification) => {
                &&& told_of(*payment) == Some(notification.notification@)
                &&& (notification.notification_type == NotificationType::PaymentSent) == (
                payment.payment_type == PaymentType::Send)
            },
            None => told_of(*payment) is None,
        },
{
    match &payment.details {
        PaymentDetails::Lightning { invoice, description, preimage, payment_hash } => {
            let sent = payment.payment_type == PaymentType::Send;
            let notification = PaymentNotification {
                transaction_type: if sent {
                    TransactionType::Outgoing
                } else {
                    TransactionType::Incoming
                },
                invoice: or_empty(invoice),
                description: Some(description.clone()),
                preimage: or_empty(preimage),
                payment_hash: or_empty(payment_hash),
                amount: payment.amount_sat * MSATS_PER_SAT,
                fees_paid: payment.fees_sat * MSATS_PER_SAT,
                created_at: payment.timestamp as u64,
                settled_at: payment.timestamp as u64,
            };
            let notification_type = if sent {
                NotificationType::PaymentSent
            } else {
                NotificationType::PaymentReceived
            };
            Some(Notification { notification_type, notification })
        },
        PaymentDetails::Other => None,
    }
}

} // verus!
