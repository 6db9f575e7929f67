//! Conflict answers of the verification service.
//!
//! The service answers `409` where the same request was handed in before.
//! That is no failure of the submission: the payload says how the earlier
//! request ended, and the client reports that instead of polling.

use vstd::prelude::*;
use crate::json::{flag_member, parse_document, parsed_flag, parsed_members, parsed_text, text_member};

verus! {

/// How an earlier, equal request ended, as far as a conflict payload tells.
#[derive(Debug, PartialEq, Eq)]
pub enum ConflictOutcome {
    /// The program was verified; the payload carries both hashes.
    AlreadyVerified { on_chain_hash: String, executable_hash: String },
    /// The request was processed and the program was not verified.
    NotVerified,
    /// The service passes on an error message.
    ServiceError { message: String },
    /// The payload has none of the known shapes.
    AlreadyProcessed,
}

/// A conflict outcome with its texts as sequences of characters.
pub ghost enum ConflictOutcomeView {
    AlreadyVerified { on_chain_hash: Seq<char>, executable_hash: Seq<char> },
    NotVerified,
    ServiceError { message: Seq<char> },
    AlreadyProcessed,
}

impl View for ConflictOutcome {
    type V = ConflictOutcomeView;

    open spec fn view(&self) -> ConflictOutcomeView {
        match *self {
            ConflictOutcome::AlreadyVerified {
                on_chain_hash,
                executable_hash,
            } => ConflictOutcomeView::AlreadyVerified {
                on_chain_hash: on_chain_hash@,
                executable_hash: executable_hash@,
            },
            ConflictOutcome::NotVerified => ConflictOutcomeView::NotVerified,
            ConflictOutcome::ServiceError { message } => ConflictOutcomeView::ServiceError {
                message: message@,
            },
            ConflictOutcome::AlreadyProcessed => ConflictOutcomeView::AlreadyProcessed,
        }
    }
}

impl ConflictOutcome {
    /// The outcome says that the program is verified.
    pub open spec fn verified(&self) -> bool {
        *self is AlreadyVerified
    }

    /// Whether the outcome says that the program is verified.
    pub fn is_verified(&self) -> (verified: bool)
        ensures
            verified == self.verified(),
            verified == (self@ is AlreadyVerified),
    {
        match self {
            ConflictOutcome::AlreadyVerified { .. } => true,
            ConflictOutcome::NotVerified => false,
            ConflictOutcome::ServiceError { .. } => false,
            ConflictOutcome::AlreadyProcessed => false,
        }
    }
}

/// The characters of a text that may be missing.
pub open spec fn text_view(text: Option<String>) -> Option<Seq<char>> {
    match text {
        Some(text) => Some(text@),
        None => None,
    }
}

/// The text, or the empty text where it is missing.
pub open spec fn text_or_empty(text: Option<Seq<char>>) -> Seq<char> {
    match text {
        Some(text) => text,
        None => Seq::<char>::empty(),
    }
}

/// The outcome that the members of a conflict payload stand for. A boolean
/// `is_verified` decides first; without one, a `status` that reads `error`
/// makes the payload an error report; everything else is an unknown shape.
/// Hashes and messages that are missing, or are no strings, count as empty.
pub open spec fn conflict_outcome(
    is_verified: Option<bool>,
    on_chain_hash: Option<Seq<char>>,
    executable_hash: Option<Seq<char>>,
    status: Option<Seq<char>>,
    error: Option<Seq<char>>,
) -> ConflictOutcomeView {
    match is_verified {
        Some(true) => ConflictOutcomeView::AlreadyVerified {
            on_chain_hash: text_or_empty(on_chain_hash),
            executable_hash: text_or_empty(executable_hash),
        },
        Some(false) => ConflictOutcomeView::NotVerified,
        None => if status == Some("error"@) {
            ConflictOutcomeView::ServiceError { message: text_or_empty(error) }
        } else {
            ConflictOutcomeView::AlreadyProcessed
        },
    }
}

/// The outcome that a conflict payload stands for, or `None` where the
/// payload is not JSON.
pub open spec fn decoded_conflict(body: Seq<char>) -> Option<ConflictOutcomeView> {
    if parsed_members(body) is Some {
        Some(
            conflict_outcome(
                parsed_flag(body, "is_verified"@),
                parsed_text(body, "on_chain_hash"@),
                parsed_text(body, "executable_hash"@),
                parsed_text(body, "status"@),
                parsed_text(body, "error"@),
            ),
        )
    } else {
        None
    }
}

/// The text, or an empty one where it is missing.
fn or_empty(text: Option<String>) -> (out: String)
    ensures
        out@ == text_or_empty(text_view(text)),
{
    match text {
        Some(text) => text,
        None => String::new(),
    }
}

/// Interprets the members of a conflict payload.
pub fn interpret_conflict(
    is_verified: Option<bool>,
    on_chain_hash: Option<String>,
    executable_hash: Option<String>,
    status: Option<String>,
    error: Option<String>,
) -> (outcome: ConflictOutcome)
    ensures
        outcome@ == conflict_outcome(
            is_verified,
            text_view(on_chain_hash),
            text_view(executable_hash),
            text_view(status),
            text_view(error),
        ),
{
    match is_verified {
        Some(true) => ConflictOutcome::AlreadyVerified {
            on_chain_hash: or_empty(on_chain_hash),
            executable_hash: or_empty(executable_hash),
        },
        Some(false) => ConflictOutcome::NotVerified,
        None => {
            let is_error = match status {
                Some(status) => status == "error".to_owned(),
                None => false,
            };
            if is_error {
                ConflictOutcome::ServiceError { message: or_empty(error) }
            } else {
                ConflictOutcome::AlreadyProcessed
            }
        },
    }
}

/// Reads a conflict payload. `None` says that the payload is not JSON; a
/// payload that is JSON always has an outcome.
pub fn decode_conflict(body: &str) -> (decoded: Option<ConflictOutcome>)
    ensures
        match decoded {
            Some(outcome) => decoded_conflict(body@) == Some(outcome@),
            None => decoded_conflict(body@) is None,
        },
{
    match parse_document(body) {
        Ok(document) => {
            let is_verified = flag_member(&document, "is_verified");
            let on_chain_hash = text_member(&document, "on_chain_hash");
            let executable_hash = text_member(&document, "executable_hash");
            let status = text_member(&document, "status");
            let error = text_member(&document, "error");
            Some(interpret_conflict(is_verified, on_chain_hash, executable_hash, status, error))
        },
        Err(_) => None,
    }
}

} // verus!
