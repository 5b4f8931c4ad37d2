use vbmeta_disable_verification::args::Invocation;
use vbmeta_disable_verification::image::PatchError;
use vbmeta_disable_verification::report::{
    error_message, help_report, patch_report, success_message, usage, usage_error_report,
    EXIT_FAILURE, EXIT_SUCCESS,
};

const USAGE: &str = "Usage:\n vbmeta-disable-verification [options] <vbmeta-image>\nOptions:\n  --disable-verity        Disable dm-verity\n  --disable-verification  Disable dm-verification\nIf no options are provided, both flags will be set by default.";

fn invocation(filename: &str, disable_verity: bool, disable_verification: bool) -> Invocation {
    Invocation { filename: filename.to_string(), disable_verity, disable_verification }
}

#[test]
fn exit_codes_have_their_values() {
    assert_eq!(EXIT_SUCCESS, 0);
    assert_eq!(EXIT_FAILURE, 1);
}

#[test]
fn usage_text_is_exact() {
    assert_eq!(usage(), USAGE);
}

#[test]
fn help_report_is_usage_with_success() {
    let report = help_report();
    assert_eq!(report.text, USAGE);
    assert_eq!(report.exit_code, 0);
}

#[test]
fn usage_error_report_is_complaint_and_usage_with_failure() {
    let report = usage_error_report();
    assert_eq!(
        report.text,
        format!("Error: Only one vbmeta image can be specified.\n{}", USAGE)
    );
    assert_eq!(report.exit_code, 1);
}

#[test]
fn error_messages_are_exact() {
    assert_eq!(
        error_message(PatchError::Access, "vbmeta.img"),
        "Error: Unable to access 'vbmeta.img'."
    );
    assert_eq!(
        error_message(PatchError::InvalidImage, "vbmeta.img"),
        "Error: 'vbmeta.img' is not a valid vbmeta image."
    );
    assert_eq!(
        error_message(PatchError::PatchFailed, "vbmeta.img"),
        "Error: Failed when patching the vbmeta image"
    );
}

#[test]
fn error_message_with_empty_file_name() {
    assert_eq!(error_message(PatchError::Access, ""), "Error: Unable to access ''.");
}

#[test]
fn success_message_names_flags_in_order() {
    assert_eq!(
        success_message(&invocation("out/vbmeta.img", true, true)),
        "Successfully disabled verification on vbmeta image: out/vbmeta.img.\nDisabled flags: dm-verity dm-verification"
    );
    assert_eq!(
        success_message(&invocation("a.img", true, false)),
        "Successfully disabled verification on vbmeta image: a.img.\nDisabled flags: dm-verity "
    );
    assert_eq!(
        success_message(&invocation("a.img", false, true)),
        "Successfully disabled verification on vbmeta image: a.img.\nDisabled flags: dm-verification"
    );
}

#[test]
fn patch_report_of_success() {
    let inv = invocation("a.img", true, true);
    let report = patch_report(&inv, Ok(()));
    assert_eq!(report.text, success_message(&inv));
    assert_eq!(report.exit_code, 0);
}

#[test]
fn patch_report_of_each_error() {
    let inv = invocation("a.img", true, true);
    for error in [PatchError::Access, PatchError::InvalidImage, PatchError::PatchFailed] {
        let report = patch_report(&inv, Err(error));
        assert_eq!(report.text, error_message(error, "a.img"));
        assert_eq!(report.exit_code, 1);
    }
}
