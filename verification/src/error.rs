//! Status codes of the biometric subsystem in words.

use vstd::prelude::*;
use vstd::string::*;
use crate::text::{hex_u32_text, push_hex_u32};

verus! {

/// Status of a touch that matches no enrolled finger.
pub const WINBIO_E_NO_MATCH: u32 = 0x8009_8005;

/// Status of a sample that was unusable.
pub const WINBIO_E_BAD_CAPTURE: u32 = 0x8009_8008;

/// Status of a deletion of a template that does not exist.
pub const WINBIO_E_DATABASE_NO_SUCH_RECORD: u32 = 0x8009_8016;

/// What a status code means, for the codes that are known.
pub open spec fn hresult_text(code: u32) -> Seq<char> {
    match code {
        0x0000_0000u32 => "Success (S_OK)"@,
        0x8007_0005u32 => "Access denied (E_ACCESSDENIED)"@,
        0x8000_4005u32 => "Unspecified error (E_FAIL)"@,
        0x8000_4002u32 => "No such interface (E_NOINTERFACE)"@,
        0x8007_0057u32 => "Invalid argument (E_INVALIDARG)"@,
        0x8000_FFFFu32 => "Catastrophic failure (E_UNEXPECTED)"@,
        0x8009_8001u32 => "Sensor not calibrated (WINBIO_E_UNSUPPORTED_FACTOR)"@,
        0x8009_8002u32 => "Invalid unit (WINBIO_E_INVALID_UNIT)"@,
        0x8009_8003u32 => "Unknown ID (WINBIO_E_UNKNOWN_ID)"@,
        0x8009_8004u32 => "Operation canceled (WINBIO_E_CANCELED)"@,
        0x8009_8005u32 => "No match (WINBIO_E_NO_MATCH)"@,
        0x8009_8006u32 => "Capture sample failed (WINBIO_E_CAPTURE_ABORTED)"@,
        0x8009_8007u32 => "Enrollment in progress (WINBIO_E_ENROLLMENT_IN_PROGRESS)"@,
        0x8009_8008u32 => "Bad capture (WINBIO_E_BAD_CAPTURE)"@,
        0x8009_800Bu32 => "Session busy (WINBIO_E_SESSION_BUSY)"@,
        0x8009_800Eu32 => "No session (WINBIO_E_SESSION_HANDLE_CLOSED)"@,
        0x8009_8010u32 => "Database full (WINBIO_E_DATABASE_FULL)"@,
        0x8009_8011u32 => "Database locked (WINBIO_E_DATABASE_LOCKED)"@,
        0x8009_8014u32 => "Not enrolled (WINBIO_E_UNKNOWN_ID)"@,
        0x8009_8016u32 => "Database no such record (WINBIO_E_DATABASE_NO_SUCH_RECORD)"@,
        0x8009_8019u32 => "Sensor unavailable (WINBIO_E_DEVICE_BUSY)"@,
        0x8009_802Eu32 => "Data collection in progress"@,
        0x8009_8029u32 => "No preboot identity (WINBIO_E_NO_PREBOOT_IDENTITY)"@,
        0x0009_8001u32 => "Sample needed for enrollment (WINBIO_I_MORE_DATA)"@,
        _ => "Unknown HRESULT"@,
    }
}

/// Says in words what a status code means.
pub fn hresult_message(code: u32) -> (r: &'static str)
    ensures
        r@ == hresult_text(code),
{
    match code {
        0x0000_0000 => "Success (S_OK)",
        0x8007_0005 => "Access denied (E_ACCESSDENIED)",
        0x8000_4005 => "Unspecified error (E_FAIL)",
        0x8000_4002 => "No such interface (E_NOINTERFACE)",
        0x8007_0057 => "Invalid argument (E_INVALIDARG)",
        0x8000_FFFF => "Catastrophic failure (E_UNEXPECTED)",
        0x8009_8001 => "Sensor not calibrated (WINBIO_E_UNSUPPORTED_FACTOR)",
        0x8009_8002 => "Invalid unit (WINBIO_E_INVALID_UNIT)",
        0x8009_8003 => "Unknown ID (WINBIO_E_UNKNOWN_ID)",
        0x8009_8004 => "Operation canceled (WINBIO_E_CANCELED)",
        0x8009_8005 => "No match (WINBIO_E_NO_MATCH)",
        0x8009_8006 => "Capture sample failed (WINBIO_E_CAPTURE_ABORTED)",
        0x8009_8007 => "Enrollment in progress (WINBIO_E_ENROLLMENT_IN_PROGRESS)",
        0x8009_8008 => "Bad capture (WINBIO_E_BAD_CAPTURE)",
        0x8009_800B => "Session busy (WINBIO_E_SESSION_BUSY)",
        0x8009_800E => "No session (WINBIO_E_SESSION_HANDLE_CLOSED)",
        0x8009_8010 => "Database full (WINBIO_E_DATABASE_FULL)",
        0x8009_8011 => "Database locked (WINBIO_E_DATABASE_LOCKED)",
        0x8009_8014 => "Not enrolled (WINBIO_E_UNKNOWN_ID)",
        0x8009_8016 => "Database no such record (WINBIO_E_DATABASE_NO_SUCH_RECORD)",
        0x8009_8019 => "Sensor unavailable (WINBIO_E_DEVICE_BUSY)",
        0x8009_802E => "Data collection in progress",
        0x8009_8029 => "No preboot identity (WINBIO_E_NO_PREBOOT_IDENTITY)",
        0x0009_8001 => "Sample needed for enrollment (WINBIO_I_MORE_DATA)",
        _ => "Unknown HRESULT",
    }
}

/// A failed call to the biometric subsystem: which call, and its status.
#[derive(Debug, PartialEq, Eq)]
pub struct WinBioError {
    pub context: String,
    pub code: u32,
}

/// The message of a failed call: the call, what its status means, and the
/// status as eight hexadecimal digits.
pub open spec fn winbio_error_text(context: Seq<char>, code: u32) -> Seq<char> {
    context + ": "@ + hresult_text(code) + " (0x"@ + hex_u32_text(code) + ")"@
}

/// Records a failed call with the name of the call.
pub fn wrap_winbio_error(context: &str, code: u32) -> (r: WinBioError)
    ensures
        r.context@ == context@,
        r.code == code,
{
    WinBioError { context: String::from_str(context), code }
}

/// The status of a failed call.
pub fn error_code(err: &WinBioError) -> (code: u32)
    ensures
        code == err.code,
{
    err.code
}

impl WinBioError {
    /// The message of the failed call.
    pub fn message(&self) -> (r: String)
        ensures
            r@ == winbio_error_text(self.context@, self.code),
    {
        let mut s = self.context.clone();
        s.append(": ");
        s.append(hresult_message(self.code));
        s.append(" (0x");
        push_hex_u32(&mut s, self.code);
        s.append(")");
        s
    }
}

} // verus!
