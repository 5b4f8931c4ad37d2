use vbmeta_disable_verification::report::usage;
use vbmeta_disable_verification::run::run_in_memory;

fn line(tokens: &[&str]) -> Vec<String> {
    tokens.iter().map(|t| t.to_string()).collect()
}

fn zeroed_image() -> Vec<u8> {
    let mut image = b"AVB0".to_vec();
    image.extend(std::iter::repeat(0u8).take(119));
    image.push(0x00);
    image
}

#[test]
fn zeroed_image_patched_then_patched_again() {
    let mut image = zeroed_image();
    assert_eq!(image.len(), 124);
    let report = run_in_memory(&line(&["vbmeta.img"]), &mut image);
    assert_eq!(report.exit_code, 0);
    assert_eq!(image[123], 0x03);
    assert_eq!(&image[..4], b"AVB0");
    assert!(image[4..123].iter().all(|b| *b == 0));
    let report = run_in_memory(&line(&["--disable-verity", "vbmeta.img"]), &mut image);
    assert_eq!(report.exit_code, 0);
    assert_eq!(image[123], 0x03);
    assert_eq!(&image[..4], b"AVB0");
}

#[test]
fn run_without_switches_sets_both_bits() {
    let mut image: Vec<u8> = (0..512u32).map(|i| (i % 256) as u8).collect();
    image[..4].copy_from_slice(b"AVB0");
    image[123] = 0xf8;
    let before = image.clone();
    let report = run_in_memory(&line(&["vbmeta.img"]), &mut image);
    assert_eq!(report.exit_code, 0);
    assert_eq!(
        report.text,
        "Successfully disabled verification on vbmeta image: vbmeta.img.\nDisabled flags: dm-verity dm-verification"
    );
    assert_eq!(image[123], 0xfb);
    for i in 0..image.len() {
        if i != 123 {
            assert_eq!(image[i], before[i]);
        }
    }
}

#[test]
fn run_with_verity_only() {
    let mut image = zeroed_image();
    let report = run_in_memory(&line(&["--disable-verity", "vbmeta.img"]), &mut image);
    assert_eq!(report.exit_code, 0);
    assert_eq!(
        report.text,
        "Successfully disabled verification on vbmeta image: vbmeta.img.\nDisabled flags: dm-verity "
    );
    assert_eq!(image[123], 0x01);
    let mut image = zeroed_image();
    image[123] = 0x02;
    run_in_memory(&line(&["vbmeta.img", "--disable-verity"]), &mut image);
    assert_eq!(image[123], 0x03);
}

#[test]
fn run_with_verification_only() {
    let mut image = zeroed_image();
    let report = run_in_memory(&line(&["--disable-verification", "vbmeta.img"]), &mut image);
    assert_eq!(report.exit_code, 0);
    assert_eq!(
        report.text,
        "Successfully disabled verification on vbmeta image: vbmeta.img.\nDisabled flags: dm-verification"
    );
    assert_eq!(image[123], 0x02);
    let mut image = zeroed_image();
    image[123] = 0x01;
    run_in_memory(&line(&["vbmeta.img", "--disable-verification"]), &mut image);
    assert_eq!(image[123], 0x03);
}

#[test]
fn run_twice_is_run_once() {
    for tokens in [
        line(&["a.img"]),
        line(&["--disable-verity", "a.img"]),
        line(&["--disable-verification", "a.img"]),
        line(&["--help"]),
        line(&["a.img", "b.img"]),
    ] {
        let mut image = zeroed_image();
        image[123] = 0x90;
        run_in_memory(&tokens, &mut image);
        let once = image.clone();
        run_in_memory(&tokens, &mut image);
        assert_eq!(image, once);
    }
}

#[test]
fn run_on_wrong_magic_fails_and_writes_nothing() {
    let mut image = zeroed_image();
    image[0] = b'B';
    let before = image.clone();
    let report = run_in_memory(&line(&["vbmeta.img"]), &mut image);
    assert_eq!(report.exit_code, 1);
    assert_eq!(report.text, "Error: 'vbmeta.img' is not a valid vbmeta image.");
    assert_eq!(image, before);
}

#[test]
fn run_on_short_file_fails_and_writes_nothing() {
    let mut image = b"AVB".to_vec();
    let report = run_in_memory(&line(&["vbmeta.img"]), &mut image);
    assert_eq!(report.exit_code, 1);
    assert_eq!(report.text, "Error: 'vbmeta.img' is not a valid vbmeta image.");
    assert_eq!(image, b"AVB".to_vec());
    let mut image: Vec<u8> = Vec::new();
    let report = run_in_memory(&line(&["vbmeta.img"]), &mut image);
    assert_eq!(report.exit_code, 1);
    assert!(image.is_empty());
}

#[test]
fn run_on_truncated_image_fails_when_patching() {
    let mut image = zeroed_image();
    image.truncate(123);
    let before = image.clone();
    let report = run_in_memory(&line(&["vbmeta.img"]), &mut image);
    assert_eq!(report.exit_code, 1);
    assert_eq!(report.text, "Error: Failed when patching the vbmeta image");
    assert_eq!(image, before);
}

#[test]
fn run_with_two_files_fails_and_touches_nothing() {
    let mut image = zeroed_image();
    let before = image.clone();
    let report = run_in_memory(&line(&["a.img", "b.img"]), &mut image);
    assert_eq!(report.exit_code, 1);
    assert_eq!(
        report.text,
        format!("Error: Only one vbmeta image can be specified.\n{}", usage())
    );
    assert_eq!(image, before);
}

#[test]
fn run_with_help_prints_usage_and_touches_nothing() {
    for tokens in [
        line(&["--help"]),
        line(&["--help", "a.img"]),
        line(&["a.img", "--help"]),
        line(&["--disable-verity", "--help", "a.img"]),
    ] {
        let mut image = zeroed_image();
        let before = image.clone();
        let report = run_in_memory(&tokens, &mut image);
        assert_eq!(report.exit_code, 0);
        assert_eq!(report.text, usage());
        assert_eq!(image, before);
    }
}

#[test]
fn run_without_file_prints_usage_and_touches_nothing() {
    let mut image = zeroed_image();
    let before = image.clone();
    let report = run_in_memory(&line(&[]), &mut image);
    assert_eq!(report.exit_code, 0);
    assert_eq!(report.text, usage());
    assert_eq!(image, before);
}
