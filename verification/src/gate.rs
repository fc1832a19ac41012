//! The decision pipeline for one verification request: classify the market
//! id against the two policy lists, then bypass, verify, or reject.

use vstd::prelude::*;
use crate::outcome::{MarketError, VerificationOutcome};
use crate::policy::{contains_id, ids_of_entries, json_string_list, list_from_text};
use crate::pubinput::{decode_public, spec_decode_public};
use crate::transfer::{spec_verify, verify};
use crate::witness::{decode_private, spec_decode_private};

verus! {

/// One verification request: the two encoded payload fields and the market
/// id they are submitted for.
#[derive(Debug, Clone)]
pub struct InputPayload {
    pub public: String,
    pub private: String,
    pub market_id: [u8; 32],
}

/// What checking the payload against the proof system concludes: an error
/// for a payload that does not decode, otherwise whether the recomputed
/// commitment and root both match the claimed public inputs.
pub open spec fn spec_verify_secret(pub_s: Seq<char>, priv_s: Seq<char>) -> Result<
    bool,
    MarketError,
> {
    match spec_decode_public(pub_s) {
        None => Err(MarketError::MalformedPayload),
        Some(p) => match spec_decode_private(priv_s) {
            None => Err(MarketError::MalformedPayload),
            Some(w) => Ok(spec_verify(p, w) == VerificationOutcome::Valid),
        },
    }
}

/// Decodes the payload's `public` and `private` fields and checks the
/// witness against the claimed values: `Ok(true)` exactly when both the
/// recomputed commitment and the recomputed Merkle root match; a payload
/// that fails any decoding stage is reported, never allowed to abort.
pub fn verify_zkbob_secret(payload: &InputPayload) -> (r: Result<bool, MarketError>)
    ensures
        r == spec_verify_secret(payload.public@, payload.private@),
{
    let public_inputs = match decode_public(payload.public.as_str()) {
        Some(p) => p,
        None => {
            return Err(MarketError::MalformedPayload);
        },
    };
    let witness = match decode_private(payload.private.as_str()) {
        Some(w) => w,
        None => {
            return Err(MarketError::MalformedPayload);
        },
    };
    match verify(&public_inputs, &witness) {
        VerificationOutcome::Valid => Ok(true),
        _ => Ok(false),
    }
}

/// The text a policy file was read into, or `None` when neither its primary
/// nor its fallback path was readable.
pub open spec fn opt_text(o: Option<&String>) -> Option<Seq<char>> {
    match o {
        Option::None => Option::None,
        Option::Some(s) => Option::Some(s@),
    }
}

/// The whole decision pipeline, over the parsed policy texts: an unreadable
/// or unparsable exempt list fails first; an exempt-list hit accepts with no
/// look at the payload; otherwise the supported list decides between
/// cryptographic verification and rejection.
pub open spec fn spec_handle(
    pub_s: Seq<char>,
    priv_s: Seq<char>,
    mid: Seq<u8>,
    exempt_text: Option<Seq<char>>,
    supported_text: Option<Seq<char>>,
) -> VerificationOutcome {
    match exempt_text {
        Option::None => VerificationOutcome::ConfigUnavailable,
        Option::Some(t) => match json_string_list(t) {
            Option::None => VerificationOutcome::BadConfigData,
            Option::Some(es) => if ids_of_entries(es).contains(mid) {
                VerificationOutcome::MarketExempt
            } else {
                match supported_text {
                    Option::None => VerificationOutcome::ConfigUnavailable,
                    Option::Some(t2) => match json_string_list(t2) {
                        Option::None => VerificationOutcome::BadConfigData,
                        Option::Some(ss) => if ids_of_entries(ss).contains(mid) {
                            match spec_verify_secret(pub_s, priv_s) {
                                Err(_) => VerificationOutcome::MalformedPayload,
                                Ok(true) => VerificationOutcome::Valid,
                                Ok(false) => VerificationOutcome::Invalid,
                            }
                        } else {
                            VerificationOutcome::MarketUnsupported
                        },
                    },
                }
            },
        },
    }
}

/// Decides one request.  `exempt_text` and `supported_text` carry the text
/// of each policy file, or `None` when neither of its paths was readable;
/// both lists are re-read for every request, so a configuration change
/// takes effect on the next call.
pub fn handle_request(
    payload: &InputPayload,
    exempt_text: Option<&String>,
    supported_text: Option<&String>,
) -> (r: VerificationOutcome)
    ensures
        r == spec_handle(
            payload.public@,
            payload.private@,
            payload.market_id@,
            opt_text(exempt_text),
            opt_text(supported_text),
        ),
{
    let exempt_list = match exempt_text {
        Option::None => {
            return VerificationOutcome::ConfigUnavailable;
        },
        Option::Some(t) => match list_from_text(t.as_str()) {
            Err(_) => {
                return VerificationOutcome::BadConfigData;
            },
            Ok(l) => l,
        },
    };
    if contains_id(&exempt_list, &payload.market_id) {
        return VerificationOutcome::MarketExempt;
    }
    let supported_list = match supported_text {
        Option::None => {
            return VerificationOutcome::ConfigUnavailable;
        },
        Option::Some(t) => match list_from_text(t.as_str()) {
            Err(_) => {
                return VerificationOutcome::BadConfigData;
            },
            Ok(l) => l,
        },
    };
    if !contains_id(&supported_list, &payload.market_id) {
        return VerificationOutcome::MarketUnsupported;
    }
    match verify_zkbob_secret(payload) {
        Err(_) => VerificationOutcome::MalformedPayload,
        Ok(true) => VerificationOutcome::Valid,
        Ok(false) => VerificationOutcome::Invalid,
    }
}

/// A market id on the exempt list is accepted outright: the outcome is
/// MarketExempt whatever the payload strings and the supported list hold,
/// so the verifier is never consulted.
pub proof fn lemma_exempt_bypasses_verifier(
    pub_s: Seq<char>,
    priv_s: Seq<char>,
    mid: Seq<u8>,
    exempt: Seq<char>,
    supported_text: Option<Seq<char>>,
)
    requires
        json_string_list(exempt) matches Some(es) && ids_of_entries(es).contains(mid),
    ensures
        spec_handle(pub_s, priv_s, mid, Some(exempt), supported_text)
            == VerificationOutcome::MarketExempt,
        crate::outcome::spec_respond(spec_handle(pub_s, priv_s, mid, Some(exempt), supported_text))
            == Ok::<Seq<char>, MarketError>("Payload is valid"@),
{
}

} // verus!
