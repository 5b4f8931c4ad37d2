//! What a run tells its user: the text to print and the exit status.

use vstd::prelude::*;
use vstd::string::StringExecFns;
use crate::args::{Invocation, InvocationView};
use crate::image::PatchError;

verus! {

/// Exit status of a run that did what was asked, or only printed the usage.
pub const EXIT_SUCCESS: i32 = 0;

/// Exit status of a run that failed.
pub const EXIT_FAILURE: i32 = 1;

/// What to print at the end of a run, and the status to leave with.
#[derive(Clone, Debug, PartialEq, Eq)]
pub struct Report {
    pub text: String,
    pub exit_code: i32,
}

/// The usage text.
pub open spec fn usage_text() -> Seq<char> {
    "Usage:\n vbmeta-disable-verification [options] <vbmeta-image>\nOptions:\n  --disable-verity        Disable dm-verity\n  --disable-verification  Disable dm-verification\nIf no options are provided, both flags will be set by default."@
}

/// The complaint about more than one image, followed by the usage text.
pub open spec fn usage_error_text() -> Seq<char> {
    "Error: Only one vbmeta image can be specified.\n"@ + usage_text()
}

/// The message for a patch that failed on the file `filename`.
pub open spec fn error_text(error: PatchError, filename: Seq<char>) -> Seq<char> {
    match error {
        PatchError::Access => "Error: Unable to access '"@ + filename + "'."@,
        PatchError::InvalidImage => "Error: '"@ + filename + "' is not a valid vbmeta image."@,
        PatchError::PatchFailed => "Error: Failed when patching the vbmeta image"@,
    }
}

/// The names of the flags that an invocation sets: dm-verity first, then
/// dm-verification.
pub open spec fn flag_names(invocation: InvocationView) -> Seq<char> {
    (if invocation.disable_verity {
        "dm-verity "@
    } else {
        Seq::empty()
    }) + (if invocation.disable_verification {
        "dm-verification"@
    } else {
        Seq::empty()
    })
}

/// The confirmation of a patch: the file, then the flags that were set.
pub open spec fn success_text(invocation: InvocationView) -> Seq<char> {
    "Successfully disabled verification on vbmeta image: "@ + invocation.filename
        + ".\nDisabled flags: "@ + flag_names(invocation)
}

/// The exit status after a patch.
pub open spec fn exit_code_of(result: Result<(), PatchError>) -> i32 {
    if result is Ok {
        EXIT_SUCCESS
    } else {
        EXIT_FAILURE
    }
}

/// The text that ends a patch of the invocation's file.
pub open spec fn patch_text(invocation: InvocationView, result: Result<(), PatchError>) -> Seq<
    char,
> {
    match result {
        Ok(_) => success_text(invocation),
        Err(error) => error_text(error, invocation.filename),
    }
}

/// Builds the usage text.
pub fn usage() -> (text: String)
    ensures
        text@ == usage_text(),
{
    String::from_str(
        "Usage:\n vbmeta-disable-verification [options] <vbmeta-image>\nOptions:\n  --disable-verity        Disable dm-verity\n  --disable-verification  Disable dm-verification\nIf no options are provided, both flags will be set by default.",
    )
}

/// Builds the message for a patch that failed on the file `filename`.
pub fn error_message(error: PatchError, filename: &str) -> (text: String)
    ensures
        text@ == error_text(error, filename@),
{
    match error {
        PatchError::Access => {
            let mut text = String::from_str("Error: Unable to access '");
            text.append(filename);
            text.append("'.");
            text
        },
        PatchError::InvalidImage => {
            let mut text = String::from_str("Error: '");
            text.append(filename);
            text.append("' is not a valid vbmeta image.");
            text
        },
        PatchError::PatchFailed => String::from_str("Error: Failed when patching the vbmeta image"),
    }
}

/// Builds the confirmation of a patch.
pub fn success_message(invocation: &Invocation) -> (text: String)
    ensures
        text@ == success_text(invocation@),
{
    let mut text = String::from_str("Successfully disabled verification on vbmeta image: ");
    text.append(invocation.filename.as_str());
    text.append(".\nDisabled flags: ");
    let ghost head = text@;
    if invocation.disable_verity {
        text.append("dm-verity ");
    }
    if invocation.disable_verification {
        text.append("dm-verification");
    }
    assert(text@ == head + flag_names(invocation@));
    text
}

/// The report of a request for help: the usage text, with success.
pub fn help_report() -> (report: Report)
    ensures
        report.text@ == usage_text(),
        report.exit_code == EXIT_SUCCESS,
{
    Report { text: usage(), exit_code: EXIT_SUCCESS }
}

/// The report of a command line that names more than one image: the
/// complaint and the usage text, with failure.
pub fn usage_error_report() -> (report: Report)
    ensures
        report.text@ == usage_error_text(),
        report.exit_code == EXIT_FAILURE,
{
    let mut text = String::from_str("Error: Only one vbmeta image can be specified.\n");
    let rest = usage();
    text.append(rest.as_str());
    Report { text, exit_code: EXIT_FAILURE }
}

/// The report of a patch: the confirmation with success, or the error's
/// message with failure.
pub fn patch_report(invocation: &Invocation, result: Result<(), PatchError>) -> (report: Report)
    ensures
        report.text@ == patch_text(invocation@, result),
        report.exit_code == exit_code_of(result),
{
    match result {
        Ok(_) => Report { text: success_message(invocation), exit_code: EXIT_SUCCESS },
        Err(error) => Report {
            text: error_message(error, invocation.filename.as_str()),
            exit_code: EXIT_FAILURE,
        },
    }
}

} // verus!
