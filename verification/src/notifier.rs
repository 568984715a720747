//! The best-effort external notifier: the durable marker written by decay
//! drives one delivery attempt per tick, the marker cleared only on a
//! confirmed delivery, so an unconfirmed value is naturally retried.
//!
//! Transport is the host's business; the decisions — what to send, what
//! counts as success, what becomes of the marker — live here.

use vstd::prelude::*;
use crate::tree::Error;

verus! {

/// The hard deadline, in milliseconds, on one delivery attempt.
pub const NOTIFY_DEADLINE_MS: u64 = 3000;

/// The only HTTP status that confirms a delivery.
pub const NOTIFY_SUCCESS_STATUS: u16 = 200;

/// What the host reports of one delivery attempt.
#[derive(Clone, Copy, PartialEq, Eq, Structural, Debug)]
pub enum DeliveryReport {
    /// A response arrived, with this status code.
    StatusReceived(u16),
    /// No response: the endpoint is not configured, the transport failed,
    /// or the deadline expired.
    Failed,
}

/// The decimal digits of `n`, most significant first.
pub open spec fn decimal_digits(n: nat) -> Seq<char>
    decreases n,
{
    if n < 10 {
        seq![((n + 48) as u8) as char]
    } else {
        decimal_digits(n / 10).push((((n % 10) + 48) as u8) as char)
    }
}

/// The JSON form of an unsigned number: exactly its decimal digits.
pub open spec fn json_u32(h: u32) -> Seq<char> {
    decimal_digits(h as nat)
}

/// Relies on serde_json::to_string: an unsigned number serializes to its
/// decimal digits, and serialization of a plain number never fails.
#[verifier::external_body]
fn json_encode_u32(h: u32) -> (r: String)
    ensures
        r@ == json_u32(h),
{
    match serde_json::to_string(&h) {
        Ok(s) => s,
        Err(_) => String::new(),
    }
}

/// The entire request body of one delivery attempt: the marker's value,
/// serialized as JSON.
pub fn notification_body(h: u32) -> (r: String)
    ensures
        r@ == json_u32(h),
{
    json_encode_u32(h)
}

/// Whether a response confirms the delivery: strictly status 200.
pub fn delivery_succeeded(code: u16) -> (r: bool)
    ensures
        r == (code == NOTIFY_SUCCESS_STATUS),
{
    code == NOTIFY_SUCCESS_STATUS
}

/// The marker after an attempt reported `report`: cleared on confirmed
/// delivery, untouched otherwise.
pub open spec fn marker_after_report(m: Option<u32>, report: DeliveryReport) -> Option<u32> {
    if report == DeliveryReport::StatusReceived(NOTIFY_SUCCESS_STATUS) {
        None
    } else {
        m
    }
}

/// One notifier tick at the marker level: an attempt is made if and only if
/// a marker is present, and only its report can change the marker.
pub open spec fn worker_step(m: Option<u32>, report: DeliveryReport) -> Option<u32> {
    if m is Some {
        marker_after_report(m, report)
    } else {
        m
    }
}

/// The marker after a run of notifier ticks whose attempts reported
/// `reports`, in order.
pub open spec fn worker_run(m: Option<u32>, reports: Seq<DeliveryReport>) -> Option<u32>
    decreases reports.len(),
{
    if reports.len() == 0 {
        m
    } else {
        worker_run(worker_step(m, reports[0]), reports.drop_first())
    }
}

/// Settles one delivery attempt's report against the durable marker. On a
/// confirmed delivery the marker is cleared; on any failure — missing
/// endpoint, transport error, expired deadline, or a status other than
/// 200 — the marker is left untouched, to be retried on the next tick, and
/// the failure is surfaced without being escalated.
pub fn apply_delivery_report(marker: &mut Option<u32>, report: DeliveryReport) -> (r: Result<
    (),
    Error,
>)
    requires
        (*old(marker)) is Some,
    ensures
        *final(marker) == marker_after_report(*old(marker), report),
        r == if report == DeliveryReport::StatusReceived(NOTIFY_SUCCESS_STATUS) {
            Ok::<(), Error>(())
        } else {
            Err::<(), Error>(Error::OcwError)
        },
{
    match report {
        DeliveryReport::StatusReceived(code) => {
            if delivery_succeeded(code) {
                *marker = None;
                Ok(())
            } else {
                Err(Error::OcwError)
            }
        },
        DeliveryReport::Failed => Err(Error::OcwError),
    }
}

/// Notifier retry: as long as every attempt fails, the marker keeps the
/// same value and is retried each tick; the attempt that succeeds clears
/// it, and afterwards no attempt is made and the marker stays clear until
/// the next decay writes it anew.
pub proof fn lemma_notifier_retry(v: u32, reports: Seq<DeliveryReport>)
    ensures
        (forall|i: int|
            0 <= i < reports.len() ==> reports[i] != DeliveryReport::StatusReceived(
                NOTIFY_SUCCESS_STATUS,
            )) ==> worker_run(Some(v), reports) == Some(v),
        reports.len() > 0 && reports[0] == DeliveryReport::StatusReceived(NOTIFY_SUCCESS_STATUS)
            ==> worker_run(Some(v), reports) == None::<u32>,
    decreases reports.len(),
{
    if reports.len() > 0 {
        lemma_notifier_retry(v, reports.drop_first());
        if reports[0] == DeliveryReport::StatusReceived(NOTIFY_SUCCESS_STATUS) {
            lemma_cleared_marker_stays(reports.drop_first());
        }
    }
}

/// A cleared marker stays clear under any run of notifier ticks: nothing is
/// attempted while no marker is present.
pub proof fn lemma_cleared_marker_stays(reports: Seq<DeliveryReport>)
    ensures
        worker_run(None::<u32>, reports) == None::<u32>,
    decreases reports.len(),
{
    if reports.len() > 0 {
        lemma_cleared_marker_stays(reports.drop_first());
    }
}

} // verus!
