//! What the results of the interactive sensor calls mean: which failures are
//! part of ordinary use and which are errors.

use vstd::prelude::*;
use vstd::string::*;
use crate::error::{
    winbio_error_text, wrap_winbio_error, WINBIO_E_BAD_CAPTURE,
    WINBIO_E_DATABASE_NO_SUCH_RECORD, WINBIO_E_NO_MATCH,
};
use crate::text::{decimal_text, hex_u8_text, push_decimal, push_hex_u8};
use crate::winbio_helpers::WINBIO_ID_TYPE_SID;

verus! {

/// Raw state of an identity without a credential.
pub const WINBIO_CREDENTIAL_NOT_SET: i32 = 1;

/// Raw state of an identity with a credential.
pub const WINBIO_CREDENTIAL_SET: i32 = 2;

/// How a touch that was to identify the user ended.
#[allow(inconsistent_fields)]
#[derive(Clone, Copy, PartialEq, Eq, Debug, Structural)]
pub enum IdentifyOutcome {
    Identified,
    /// The finger is not enrolled. The reason is given if the sensor named
    /// one.
    NoMatch { reject_detail: Option<u32> },
    /// The sample was unusable; the touch may be repeated.
    BadCapture { reject_detail: u32 },
    Failed { code: u32 },
}

/// What the result of an identify call means.
pub open spec fn identify_outcome(result: Result<(), u32>, reject_detail: u32) -> IdentifyOutcome {
    match result {
        Ok(_) => IdentifyOutcome::Identified,
        Err(code) => if code == WINBIO_E_NO_MATCH {
            IdentifyOutcome::NoMatch {
                reject_detail: if reject_detail != 0 {
                    Some(reject_detail)
                } else {
                    None
                },
            }
        } else if code == WINBIO_E_BAD_CAPTURE {
            IdentifyOutcome::BadCapture { reject_detail }
        } else {
            IdentifyOutcome::Failed { code }
        },
    }
}

/// Judges the result of an identify call: no match and a bad capture are
/// answers, every other failure is an error.
pub fn judge_identify(result: Result<(), u32>, reject_detail: u32) -> (outcome: IdentifyOutcome)
    ensures
        outcome == identify_outcome(result, reject_detail),
{
    match result {
        Ok(_) => IdentifyOutcome::Identified,
        Err(code) => {
            if code == WINBIO_E_NO_MATCH {
                IdentifyOutcome::NoMatch {
                    reject_detail: if reject_detail != 0 {
                        Some(reject_detail)
                    } else {
                        None
                    },
                }
            } else if code == WINBIO_E_BAD_CAPTURE {
                IdentifyOutcome::BadCapture { reject_detail }
            } else {
                IdentifyOutcome::Failed { code }
            }
        },
    }
}

/// How a touch that was to verify a finger ended.
#[allow(inconsistent_fields)]
#[derive(Clone, Copy, PartialEq, Eq, Debug, Structural)]
pub enum VerifyOutcome {
    /// The finger matches the enrolled template.
    Matched,
    /// The call succeeded and the finger does not match.
    NotMatched,
    NoMatch { reject_detail: Option<u32> },
    BadCapture { reject_detail: u32 },
    Failed { code: u32 },
}

/// What the result of a verify call means: a success carries the match flag.
pub open spec fn verify_outcome(result: Result<u8, u32>, reject_detail: u32) -> VerifyOutcome {
    match result {
        Ok(matched) => if matched != 0 {
            VerifyOutcome::Matched
        } else {
            VerifyOutcome::NotMatched
        },
        Err(code) => if code == WINBIO_E_NO_MATCH {
            VerifyOutcome::NoMatch {
                reject_detail: if reject_detail != 0 {
                    Some(reject_detail)
                } else {
                    None
                },
            }
        } else if code == WINBIO_E_BAD_CAPTURE {
            VerifyOutcome::BadCapture { reject_detail }
        } else {
            VerifyOutcome::Failed { code }
        },
    }
}

/// Judges the result of a verify call; `Ok` carries the match flag the call
/// returned.
pub fn judge_verify(result: Result<u8, u32>, reject_detail: u32) -> (outcome: VerifyOutcome)
    ensures
        outcome == verify_outcome(result, reject_detail),
{
    match result {
        Ok(matched) => {
            if matched != 0 {
                VerifyOutcome::Matched
            } else {
                VerifyOutcome::NotMatched
            }
        },
        Err(code) => {
            if code == WINBIO_E_NO_MATCH {
                VerifyOutcome::NoMatch {
                    reject_detail: if reject_detail != 0 {
                        Some(reject_detail)
                    } else {
                        None
                    },
                }
            } else if code == WINBIO_E_BAD_CAPTURE {
                VerifyOutcome::BadCapture { reject_detail }
            } else {
                VerifyOutcome::Failed { code }
            }
        },
    }
}

/// How the deletion of a template ended.
#[derive(Clone, Copy, PartialEq, Eq, Debug, Structural)]
pub enum DeleteOutcome {
    Deleted,
    /// The finger has no template; nothing was deleted.
    NothingToDelete,
    Failed { code: u32 },
}

/// What the result of deleting a template means.
pub open spec fn delete_outcome(result: Result<(), u32>) -> DeleteOutcome {
    match result {
        Ok(_) => DeleteOutcome::Deleted,
        Err(code) => if code == WINBIO_E_DATABASE_NO_SUCH_RECORD {
            DeleteOutcome::NothingToDelete
        } else {
            DeleteOutcome::Failed { code }
        },
    }
}

/// Judges the result of deleting a template: a finger without a template
/// is an answer, every other failure is an error.
pub fn judge_delete(result: Result<(), u32>) -> (outcome: DeleteOutcome)
    ensures
        outcome == delete_outcome(result),
{
    match result {
        Ok(_) => DeleteOutcome::Deleted,
        Err(code) => {
            if code == WINBIO_E_DATABASE_NO_SUCH_RECORD {
                DeleteOutcome::NothingToDelete
            } else {
                DeleteOutcome::Failed { code }
            }
        },
    }
}

/// How the capture of a raw sample ended.
#[derive(Clone, Copy, PartialEq, Eq, Debug, Structural)]
pub enum SampleOutcome {
    Captured,
    BadCapture { reject_detail: u32 },
    Failed { code: u32 },
}

/// What the result of capturing a raw sample means.
pub open spec fn sample_outcome(result: Result<(), u32>, reject_detail: u32) -> SampleOutcome {
    match result {
        Ok(_) => SampleOutcome::Captured,
        Err(code) => if code == WINBIO_E_BAD_CAPTURE {
            SampleOutcome::BadCapture { reject_detail }
        } else {
            SampleOutcome::Failed { code }
        },
    }
}

/// Judges the result of capturing a raw sample.
pub fn judge_sample(result: Result<(), u32>, reject_detail: u32) -> (outcome: SampleOutcome)
    ensures
        outcome == sample_outcome(result, reject_detail),
{
    match result {
        Ok(_) => SampleOutcome::Captured,
        Err(code) => {
            if code == WINBIO_E_BAD_CAPTURE {
                SampleOutcome::BadCapture { reject_detail }
            } else {
                SampleOutcome::Failed { code }
            }
        },
    }
}

/// Whether a credential is linked to a biometric identity.
#[derive(Clone, Copy, PartialEq, Eq, Debug, Structural)]
pub enum CredentialState {
    Linked,
    NotLinked,
    Unknown { raw: i32 },
}

/// What a raw credential state means.
pub open spec fn credential_state_of(raw: i32) -> CredentialState {
    if raw == WINBIO_CREDENTIAL_SET {
        CredentialState::Linked
    } else if raw == WINBIO_CREDENTIAL_NOT_SET {
        CredentialState::NotLinked
    } else {
        CredentialState::Unknown { raw }
    }
}

/// Judges a raw credential state.
pub fn judge_credential_state(raw: i32) -> (state: CredentialState)
    ensures
        state == credential_state_of(raw),
{
    if raw == WINBIO_CREDENTIAL_SET {
        CredentialState::Linked
    } else if raw == WINBIO_CREDENTIAL_NOT_SET {
        CredentialState::NotLinked
    } else {
        CredentialState::Unknown { raw }
    }
}

/// Why the user could not be identified before an operation that needs an
/// identity: a finger that is not enrolled is said in plain words with what
/// cannot be done for it; every other failure is the failed call with its
/// status.
pub open spec fn identify_failure_text(code: u32, purpose: Seq<char>) -> Seq<char> {
    if code == WINBIO_E_NO_MATCH {
        "No match — finger not enrolled. Cannot "@ + purpose + "."@
    } else {
        winbio_error_text("WinBioIdentify"@, code)
    }
}

/// Says why the user could not be identified.
pub fn identify_failure_message(code: u32, purpose: &str) -> (r: String)
    ensures
        r@ == identify_failure_text(code, purpose@),
{
    if code == WINBIO_E_NO_MATCH {
        let mut s = String::from_str("No match — finger not enrolled. Cannot ");
        s.append(purpose);
        s.append(".");
        s
    } else {
        wrap_winbio_error("WinBioIdentify", code).message()
    }
}

/// Bytes as pairs of upper-case hexadecimal digits with a blank between
/// each two.
pub open spec fn hex_bytes_text(bytes: Seq<u8>) -> Seq<char>
    decreases bytes.len(),
{
    if bytes.len() == 0 {
        Seq::empty()
    } else if bytes.len() == 1 {
        hex_u8_text(bytes[0])
    } else {
        hex_bytes_text(bytes.drop_last()) + " "@ + hex_u8_text(bytes.last())
    }
}

/// The part of an identity's data that is in use: as many bytes as its
/// size says, and no more than there are.
pub open spec fn identity_bytes(size: u32, data: Seq<u8>) -> Seq<u8> {
    if size <= data.len() {
        data.take(size as int)
    } else {
        data
    }
}

/// How an identity is shown: an account identifier by its bytes, any other
/// kind by the number of its type.
pub open spec fn identity_text(kind: u32, size: u32, data: Seq<u8>) -> (Seq<char>, Seq<char>) {
    if kind == WINBIO_ID_TYPE_SID {
        ("Identity (SID)"@, hex_bytes_text(identity_bytes(size, data)))
    } else {
        ("Identity type"@, decimal_text(kind as nat))
    }
}

/// A name and what is shown under it.
#[derive(Debug, PartialEq, Eq)]
pub struct LabelledValue {
    pub label: &'static str,
    pub value: String,
}

/// Describes an identity for display.
pub fn describe_identity(kind: u32, size: u32, data: &[u8]) -> (r: LabelledValue)
    ensures
        (r.label@, r.value@) == identity_text(kind, size, data@),
{
    if kind == WINBIO_ID_TYPE_SID {
        let used: usize = if (size as usize) <= data.len() {
            size as usize
        } else {
            data.len()
        };
        let ghost bytes = identity_bytes(size, data@);
        let mut s = String::new();
        let mut i: usize = 0;
        assert(bytes.take(0) =~= Seq::empty());
        while i < used
            invariant
                i <= used,
                used == bytes.len(),
                used <= data.len(),
                forall|k: int| 0 <= k < used ==> bytes[k] == data@[k],
                s@ == hex_bytes_text(bytes.take(i as int)),
            decreases used - i,
        {
            if i > 0 {
                s.append(" ");
            }
            push_hex_u8(&mut s, data[i]);
            proof {
                let upto = bytes.take(i as int + 1);
                assert(upto.drop_last() =~= bytes.take(i as int));
                assert(upto.last() == data@[i as int]);
                if i == 0 {
                    assert(s@ =~= hex_u8_text(upto[0]));
                }
            }
            i = i + 1;
        }
        assert(bytes.take(used as int) =~= bytes);
        LabelledValue { label: "Identity (SID)", value: s }
    } else {
        let mut s = String::new();
        push_decimal(&mut s, kind as u64);
        assert(s@ =~= decimal_text(kind as nat));
        LabelledValue { label: "Identity type", value: s }
    }
}

} // verus!
