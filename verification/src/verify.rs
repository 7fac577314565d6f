//! Verification: from a quote, its collateral and a point in time to the
//! JSON text of the verification report.
//!
//! Whether a quote is genuine is the verifier's business. This module hands
//! the three inputs over and turns the answer into text or into a failure.

use vstd::prelude::*;
use crate::collateral::{Collateral, CollateralView};
use crate::failure::{step_view, text_or_message, Failure, FailureView};

verus! {

/// `dcap_qvl::verify::VerifiedReport`, the verifier's report. Nothing here
/// looks inside it.
#[verifier::external_type_specification]
#[verifier::external_body]
pub struct ExVerifiedReport(dcap_qvl::verify::VerifiedReport);

/// What `dcap_qvl::verify::verify` answers for a quote, its collateral and
/// the time in Unix seconds: a report, or nothing.
pub uninterp spec fn verifier_report(
    quote: Seq<u8>,
    collateral: CollateralView,
    now: u64,
) -> Option<dcap_qvl::verify::VerifiedReport>;

/// What `serde_json::to_string` makes of a report: one line of JSON, or the
/// encoder's message.
pub uninterp spec fn report_json(report: dcap_qvl::verify::VerifiedReport) -> Result<
    Seq<char>,
    Seq<char>,
>;

/// Calls `dcap_qvl::verify::verify` with Intel's root certificate, after
/// copying the collateral into the verifier's own record. The verifier reads
/// its three arguments and nothing else, so the same arguments give the same
/// answer; the contract says no more than that. The verifier's reason for a
/// refusal is dropped.
#[verifier::external_body]
pub(crate) fn run_verifier(quote: &[u8], collateral: &Collateral, now: u64) -> (r: Option<
    dcap_qvl::verify::VerifiedReport,
>)
    ensures
        r == verifier_report(quote@, collateral@, now),
{
    let record = dcap_qvl::QuoteCollateralV3 {
        pck_crl_issuer_chain: collateral.pck_crl_issuer_chain.clone(),
        root_ca_crl: collateral.root_ca_crl.clone(),
        pck_crl: collateral.pck_crl.clone(),
        tcb_info_issuer_chain: collateral.tcb_info_issuer_chain.clone(),
        tcb_info: collateral.tcb_info.clone(),
        tcb_info_signature: collateral.tcb_info_signature.clone(),
        qe_identity_issuer_chain: collateral.qe_identity_issuer_chain.clone(),
        qe_identity: collateral.qe_identity.clone(),
        qe_identity_signature: collateral.qe_identity_signature.clone(),
        pck_certificate_chain: collateral.pck_certificate_chain.clone(),
    };
    dcap_qvl::verify::verify(quote, &record, now).ok()
}

/// Calls `serde_json::to_string` on a report. Of the result the contract
/// says only that it is the one this function gives for this report.
#[verifier::external_body]
pub(crate) fn report_to_json(report: &dcap_qvl::verify::VerifiedReport) -> (r: Result<
    String,
    String,
>)
    ensures
        text_or_message(r) == report_json(*report),
{
    match serde_json::to_string(report) {
        Ok(json) => Ok(json),
        Err(e) => Err(format!("{}", e)),
    }
}

/// The JSON that a verifier's answer is written out as: no report is a
/// verification failure, whatever the verifier's reason.
pub open spec fn json_of_answer(answer: Option<dcap_qvl::verify::VerifiedReport>) -> Result<
    Seq<char>,
    FailureView,
> {
    match answer {
        None => Err(FailureView::Verify),
        Some(report) => match report_json(report) {
            Ok(json) => Ok(json),
            Err(message) => Err(FailureView::Serialize(message)),
        },
    }
}

/// The JSON text of the report on `quote`, verified against `collateral` at
/// the time `now`, or the failure of the step that did not get there.
pub open spec fn verified_json(quote: Seq<u8>, collateral: CollateralView, now: u64) -> Result<
    Seq<char>,
    FailureView,
> {
    json_of_answer(verifier_report(quote, collateral, now))
}

/// Writes the verifier's answer as one line of JSON. No report gives
/// `Failure::Verify`; a report that the encoder refuses gives
/// `Failure::Serialize`.
pub fn answer_to_json(answer: Option<dcap_qvl::verify::VerifiedReport>) -> (r: Result<
    String,
    Failure,
>)
    ensures
        step_view(r) == json_of_answer(answer),
{
    match answer {
        None => Err(Failure::Verify),
        Some(report) => match report_to_json(&report) {
            Ok(json) => Ok(json),
            Err(message) => Err(Failure::Serialize(message)),
        },
    }
}

/// Verifies `quote` against `collateral` at the time `now`, in Unix seconds,
/// and writes the report as one line of JSON. The result depends on these
/// three inputs alone.
pub fn verify_quote(quote: &[u8], collateral: &Collateral, now: u64) -> (r: Result<String, Failure>)
    ensures
        step_view(r) == verified_json(quote@, collateral@, now),
{
    answer_to_json(run_verifier(quote, collateral, now))
}

/// Verification is a function of the quote, the collateral and the time:
/// equal inputs give equal results.
pub proof fn theorem_verification_is_deterministic(
    quote1: Seq<u8>,
    collateral1: CollateralView,
    now1: u64,
    quote2: Seq<u8>,
    collateral2: CollateralView,
    now2: u64,
)
    requires
        quote1 == quote2,
        collateral1 == collateral2,
        now1 == now2,
    ensures
        verified_json(quote1, collateral1, now1) == verified_json(quote2, collateral2, now2),
{
}

} // verus!
