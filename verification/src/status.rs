use vstd::prelude::*;

verus! {

/// Transaction status as UprimerPay reports it for payments and refunds.
/// Any status string the gateway sends that is not listed maps to `Unknown`.
#[derive(Clone, Copy, Debug, PartialEq, Eq, Structural)]
pub enum UprimerpayPaymentStatus {
    Succeed,
    RequestCustomerAction,
    Processing,
    Pending,
    RetryPending,
    Failed,
    Failure,
    Declined,
    Cancelled,
    Canceled,
    Unknown,
}

/// The payment attempt statuses this connector reports to the router.
#[derive(Clone, Copy, Debug, PartialEq, Eq, Structural)]
pub enum AttemptStatus {
    Charged,
    AuthenticationPending,
    Authorizing,
    Failure,
    Pending,
}

/// The refund statuses this connector reports to the router.
#[derive(Clone, Copy, Debug, PartialEq, Eq, Structural)]
pub enum RefundStatus {
    Success,
    Failure,
    Pending,
}

impl UprimerpayPaymentStatus {
    /// The gateway reports the transaction as completed successfully.
    pub open spec fn is_success(self) -> bool {
        self is Succeed
    }

    /// The gateway reports the transaction as terminally unsuccessful.
    pub open spec fn is_failure(self) -> bool {
        ||| self is Failed
        ||| self is Failure
        ||| self is Declined
        ||| self is Cancelled
        ||| self is Canceled
    }

    /// The gateway reports the transaction as still in flight.
    pub open spec fn is_in_progress(self) -> bool {
        ||| self is Processing
        ||| self is Pending
        ||| self is RetryPending
    }
}

/// The attempt status that a gateway status stands for.
pub open spec fn spec_attempt_status(status: UprimerpayPaymentStatus) -> AttemptStatus {
    if status.is_success() {
        AttemptStatus::Charged
    } else if status is RequestCustomerAction {
        AttemptStatus::AuthenticationPending
    } else if status.is_in_progress() {
        AttemptStatus::Authorizing
    } else if status.is_failure() {
        AttemptStatus::Failure
    } else {
        AttemptStatus::Pending
    }
}

/// The refund status that an optional gateway status stands for.
pub open spec fn spec_refund_status(status: Option<UprimerpayPaymentStatus>) -> RefundStatus {
    match status {
        Some(s) => if s.is_success() {
            RefundStatus::Success
        } else if s.is_failure() {
            RefundStatus::Failure
        } else {
            RefundStatus::Pending
        },
        None => RefundStatus::Pending,
    }
}

/// Maps a gateway payment status to the router's attempt status.
pub fn attempt_status_from(status: UprimerpayPaymentStatus) -> (res: AttemptStatus)
    ensures
        res == spec_attempt_status(status),
{
    match status {
        UprimerpayPaymentStatus::Succeed => AttemptStatus::Charged,
        UprimerpayPaymentStatus::RequestCustomerAction => AttemptStatus::AuthenticationPending,
        UprimerpayPaymentStatus::Processing
        | UprimerpayPaymentStatus::Pending
        | UprimerpayPaymentStatus::RetryPending => AttemptStatus::Authorizing,
        UprimerpayPaymentStatus::Failed
        | UprimerpayPaymentStatus::Failure
        | UprimerpayPaymentStatus::Declined
        | UprimerpayPaymentStatus::Cancelled
        | UprimerpayPaymentStatus::Canceled => AttemptStatus::Failure,
        UprimerpayPaymentStatus::Unknown => AttemptStatus::Pending,
    }
}

/// Maps an optional gateway status to the router's refund status; an absent
/// status means the refund is still pending.
pub fn get_refund_status(status: Option<UprimerpayPaymentStatus>) -> (res: RefundStatus)
    ensures
        res == spec_refund_status(status),
{
    match status {
        Some(UprimerpayPaymentStatus::Succeed) => RefundStatus::Success,
        Some(UprimerpayPaymentStatus::Failed)
        | Some(UprimerpayPaymentStatus::Failure)
        | Some(UprimerpayPaymentStatus::Declined)
        | Some(UprimerpayPaymentStatus::Cancelled)
        | Some(UprimerpayPaymentStatus::Canceled) => RefundStatus::Failure,
        Some(UprimerpayPaymentStatus::RequestCustomerAction)
        | Some(UprimerpayPaymentStatus::Processing)
        | Some(UprimerpayPaymentStatus::Pending)
        | Some(UprimerpayPaymentStatus::RetryPending)
        | Some(UprimerpayPaymentStatus::Unknown)
        | None => RefundStatus::Pending,
    }
}

} // verus!
