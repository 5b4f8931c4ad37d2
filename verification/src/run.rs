//! A whole run, from the command line to the report, on an image held in
//! memory in place of the file that the command line names.

use vstd::prelude::*;
use crate::args::{
    count_of, kind_of, lemma_file_alone_sets_both, lemma_help_shows_help,
    lemma_one_switch_sets_one, lemma_two_files_rejected, parse_args, parse_spec, token_views,
    Parsed, ParsedView, TokenKind,
};
use crate::flags::{
    lemma_requested_bits, mask_of, FLAG_DISABLE_VERIFICATION, FLAG_DISABLE_VERITY,
};
use crate::image::{
    has_magic, lemma_patch_idempotent, lemma_patch_valid_image, patch_result, PatchError,
    FLAGS_OFFSET,
};
use crate::patcher::patch_image;
use crate::report::{
    error_text, help_report, patch_report, success_text, usage_error_report, usage_error_text,
    usage_text, Report, EXIT_FAILURE, EXIT_SUCCESS,
};

verus! {

/// How a run ends: the bytes of the image, the text printed, the exit status.
pub struct RunView {
    pub image: Seq<u8>,
    pub text: Seq<char>,
    pub exit_code: i32,
}

/// The end of a run with the given command line on the given image.
///
/// Only a command line that asks for a patch touches the image, and only a
/// patch that succeeds changes it.
pub open spec fn run_spec(tokens: Seq<Seq<char>>, image: Seq<u8>) -> RunView {
    match parse_spec(tokens) {
        ParsedView::ShowHelp => RunView { image, text: usage_text(), exit_code: EXIT_SUCCESS },
        ParsedView::TooManyFiles => RunView {
            image,
            text: usage_error_text(),
            exit_code: EXIT_FAILURE,
        },
        ParsedView::Run(invocation) => match patch_result(
            image,
            mask_of(invocation.disable_verity, invocation.disable_verification),
        ) {
            Ok(patched) => RunView {
                image: patched,
                text: success_text(invocation),
                exit_code: EXIT_SUCCESS,
            },
            Err(error) => RunView {
                image,
                text: error_text(error, invocation.filename),
                exit_code: EXIT_FAILURE,
            },
        },
    }
}

/// Runs the command line on an image held in memory.
pub fn run_in_memory(tokens: &Vec<String>, image: &mut Vec<u8>) -> (report: Report)
    ensures
        final(image)@ == run_spec(token_views(tokens@), old(image)@).image,
        report.text@ == run_spec(token_views(tokens@), old(image)@).text,
        report.exit_code == run_spec(token_views(tokens@), old(image)@).exit_code,
{
    match parse_args(tokens) {
        Parsed::ShowHelp => help_report(),
        Parsed::TooManyFiles => usage_error_report(),
        Parsed::Run(invocation) => {
            let result = patch_image(image, invocation.mask());
            patch_report(&invocation, result)
        },
    }
}

/// A run that names a valid image and no switch sets both flags. The image
/// keeps its length, the other six bits of the flags byte keep their
/// values, and every other byte is left as it was.
pub proof fn lemma_run_without_switches(name: Seq<char>, image: Seq<u8>)
    requires
        kind_of(name) == TokenKind::File,
        has_magic(image),
        image.len() > FLAGS_OFFSET,
    ensures
        ({
            let run = run_spec(seq![name], image);
            &&& run.exit_code == EXIT_SUCCESS
            &&& run.image.len() == image.len()
            &&& run.image[FLAGS_OFFSET as int] & FLAG_DISABLE_VERITY != 0
            &&& run.image[FLAGS_OFFSET as int] & FLAG_DISABLE_VERIFICATION != 0
            &&& run.image[FLAGS_OFFSET as int] & 0xfc == image[FLAGS_OFFSET as int] & 0xfc
            &&& forall|i: int|
                0 <= i < image.len() && i != FLAGS_OFFSET ==> run.image[i] == image[i]
        }),
{
    lemma_file_alone_sets_both(name);
    lemma_patch_valid_image(image, mask_of(true, true));
    lemma_requested_bits(image[FLAGS_OFFSET as int], true, true);
}

/// A run with one switch sets that switch's flag and leaves the other flag
/// as it was, on whichever side of the file name the switch stands.
pub proof fn lemma_run_with_one_switch(name: Seq<char>, image: Seq<u8>)
    requires
        kind_of(name) == TokenKind::File,
        has_magic(image),
        image.len() > FLAGS_OFFSET,
    ensures
        ({
            let run = run_spec(seq!["--disable-verity"@, name], image);
            &&& run.exit_code == EXIT_SUCCESS
            &&& run.image[FLAGS_OFFSET as int] & FLAG_DISABLE_VERITY != 0
            &&& run.image[FLAGS_OFFSET as int] & FLAG_DISABLE_VERIFICATION
                == image[FLAGS_OFFSET as int] & FLAG_DISABLE_VERIFICATION
            &&& run_spec(seq![name, "--disable-verity"@], image) == run
        }),
        ({
            let run = run_spec(seq!["--disable-verification"@, name], image);
            &&& run.exit_code == EXIT_SUCCESS
            &&& run.image[FLAGS_OFFSET as int] & FLAG_DISABLE_VERIFICATION != 0
            &&& run.image[FLAGS_OFFSET as int] & FLAG_DISABLE_VERITY == image[FLAGS_OFFSET as int]
                & FLAG_DISABLE_VERITY
            &&& run_spec(seq![name, "--disable-verification"@], image) == run
        }),
{
    let flags = image[FLAGS_OFFSET as int];
    lemma_one_switch_sets_one(name);
    lemma_patch_valid_image(image, mask_of(true, false));
    lemma_patch_valid_image(image, mask_of(false, true));
    assert((flags | 0x01u8) & 0x01u8 != 0 && (flags | 0x01u8) & 0x02u8 == flags & 0x02u8)
        by (bit_vector);
    assert((flags | 0x02u8) & 0x02u8 != 0 && (flags | 0x02u8) & 0x01u8 == flags & 0x01u8)
        by (bit_vector);
}

/// A run on a file without the magic signature ends in failure with the
/// message for an invalid image, and the file's bytes are left as they were.
pub proof fn lemma_run_on_invalid_image(tokens: Seq<Seq<char>>, image: Seq<u8>)
    requires
        parse_spec(tokens) is Run,
        !has_magic(image),
    ensures
        run_spec(tokens, image).image == image,
        run_spec(tokens, image).exit_code == EXIT_FAILURE,
        run_spec(tokens, image).text == error_text(
            PatchError::InvalidImage,
            parse_spec(tokens)->Run_0.filename,
        ),
{
}

/// Running a command line a second time leaves the image as the first run
/// left it.
pub proof fn lemma_run_idempotent(tokens: Seq<Seq<char>>, image: Seq<u8>)
    ensures
        run_spec(tokens, run_spec(tokens, image).image).image == run_spec(tokens, image).image,
{
    match parse_spec(tokens) {
        ParsedView::Run(invocation) => {
            let mask = mask_of(invocation.disable_verity, invocation.disable_verification);
            if patch_result(image, mask) is Ok {
                lemma_patch_idempotent(image, mask);
            }
        },
        _ => {},
    }
}

/// A run that names two files ends in failure with the usage error, and
/// touches no image.
pub proof fn lemma_run_with_two_files(first: Seq<char>, second: Seq<char>, image: Seq<u8>)
    requires
        kind_of(first) == TokenKind::File,
        kind_of(second) == TokenKind::File,
    ensures
        run_spec(seq![first, second], image).exit_code == EXIT_FAILURE,
        run_spec(seq![first, second], image).text == usage_error_text(),
        run_spec(seq![first, second], image).image == image,
{
    lemma_two_files_rejected(first, second);
}

/// A run with `--help`, with or without the name of an image, prints the
/// usage text, ends in success, and touches no image.
pub proof fn lemma_run_with_help(tokens: Seq<Seq<char>>, image: Seq<u8>)
    requires
        count_of(tokens, TokenKind::Help) > 0,
        count_of(tokens, TokenKind::File) <= 1,
    ensures
        run_spec(tokens, image).exit_code == EXIT_SUCCESS,
        run_spec(tokens, image).text == usage_text(),
        run_spec(tokens, image).image == image,
{
    lemma_help_shows_help(tokens);
}

} // verus!
