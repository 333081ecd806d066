//! What to tell the user about the privileges of the process.

use vstd::prelude::*;
use vstd::string::*;

verus! {

/// Whether a notice confirms or warns.
#[derive(Clone, Copy, PartialEq, Eq, Debug, Structural)]
pub enum NoticeLevel {
    Pass,
    Warn,
}

/// One line for the user.
#[derive(Debug, PartialEq, Eq)]
pub struct Notice {
    pub level: NoticeLevel,
    pub message: String,
}

/// What is said of the privileges: a confirmation when the process is
/// elevated, a warning when it is not, and a warning with the reason when
/// that could not be found out.
pub open spec fn elevation_notice(elevation: Result<bool, Seq<char>>) -> (NoticeLevel, Seq<char>) {
    match elevation {
        Ok(true) => (NoticeLevel::Pass, "Running as Administrator"@),
        Ok(false) => (
            NoticeLevel::Warn,
            "Not running as Administrator — some operations may fail or hang"@,
        ),
        Err(reason) => (NoticeLevel::Warn, "Could not check elevation: "@ + reason),
    }
}

/// What is known of the privileges, with the reason as plain text.
pub open spec fn elevation_model(elevation: Result<bool, String>) -> Result<bool, Seq<char>> {
    match elevation {
        Ok(elevated) => Ok(elevated),
        Err(reason) => Err(reason@),
    }
}

/// Says what the user is to be told about the privileges of the process,
/// given whether it is elevated or why that is not known.
pub fn warn_if_not_elevated(elevation: Result<bool, String>) -> (notice: Notice)
    ensures
        (notice.level, notice.message@) == elevation_notice(elevation_model(elevation)),
{
    match elevation {
        Ok(true) => Notice {
            level: NoticeLevel::Pass,
            message: String::from_str("Running as Administrator"),
        },
        Ok(false) => Notice {
            level: NoticeLevel::Warn,
            message: String::from_str(
                "Not running as Administrator — some operations may fail or hang",
            ),
        },
        Err(reason) => {
            let mut message = String::from_str("Could not check elevation: ");
            message.append(reason.as_str());
            Notice { level: NoticeLevel::Warn, message }
        },
    }
}

} // verus!
