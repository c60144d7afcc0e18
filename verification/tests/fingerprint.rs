use aivory_monitor::capture::StackFrame;
use aivory_monitor::fingerprint::calculate_fingerprint;
use sha2::Digest;

fn frame(name: &str, line: Option<u32>, native: bool) -> StackFrame {
    StackFrame {
        method_name: name.to_string(),
        file_name: None,
        file_path: None,
        line_number: line,
        column_number: None,
        is_native: native,
        source_available: false,
    }
}

#[test]
fn fingerprint_has_sixteen_hex_digits() {
    let frames = vec![frame("work", Some(7), false)];
    let fp = calculate_fingerprint("IoError", &frames);
    assert_eq!(fp.len(), 16);
    assert!(fp.chars().all(|c| c.is_ascii_hexdigit() && !c.is_ascii_uppercase()));
}

#[test]
fn fingerprint_of_kind_and_one_frame() {
    let frames = vec![frame("work", Some(7), false)];
    assert_eq!(calculate_fingerprint("IoError", &frames), "d45482f07e564065");
}

#[test]
fn fingerprint_joins_frames_with_colons() {
    let frames = vec![frame("handler", Some(42), false), frame("main", Some(10), false)];
    assert_eq!(calculate_fingerprint("IoError", &frames), "34f229d606bca9ee");
}

#[test]
fn fingerprint_writes_zero_for_unknown_line() {
    let frames = vec![frame("work", Some(7), false), frame("main", None, false)];
    assert_eq!(calculate_fingerprint("IoError", &frames), "98739a926b1d43c3");
}

#[test]
fn fingerprint_without_frames_hashes_kind_alone() {
    assert_eq!(calculate_fingerprint("IoError", &[]), "e170b765f19c4d23");
    assert_eq!(calculate_fingerprint("TimeoutError", &[]), "4e67e948c7499b9c");
    assert_eq!(calculate_fingerprint("panic", &[]), "79631cb1b7b63b6e");
}

#[test]
fn fingerprint_matches_digest_and_hex_crates() {
    let frames = vec![frame("handler", Some(42), false), frame("main", Some(10), false)];
    let digest = sha2::Sha256::digest("IoError:handler:42:main:10".as_bytes());
    assert_eq!(calculate_fingerprint("IoError", &frames), hex::encode(&digest[..8]));
}

#[test]
fn fingerprint_is_deterministic() {
    let frames = vec![
        frame("a", Some(1), false),
        frame("rt", Some(9), true),
        frame("b", None, false),
    ];
    let first = calculate_fingerprint("IoError", &frames);
    let second = calculate_fingerprint("IoError", &frames);
    assert_eq!(first, second);
}

#[test]
fn fingerprint_ignores_file_and_column() {
    let plain = vec![frame("work", Some(7), false)];
    let mut located = frame("work", Some(7), false);
    located.file_name = Some("job.rs".to_string());
    located.file_path = Some("/src/job.rs".to_string());
    located.column_number = Some(13);
    located.source_available = true;
    assert_eq!(calculate_fingerprint("IoError", &plain), calculate_fingerprint("IoError", &[located]));
}

#[test]
fn fingerprint_differs_by_kind() {
    let frames = vec![frame("work", Some(7), false)];
    assert_ne!(
        calculate_fingerprint("IoError", &frames),
        calculate_fingerprint("TimeoutError", &frames)
    );
}

#[test]
fn fingerprint_differs_by_site() {
    let here = vec![frame("work", Some(7), false)];
    let there = vec![frame("work", Some(8), false)];
    assert_ne!(calculate_fingerprint("IoError", &here), calculate_fingerprint("IoError", &there));
}

#[test]
fn fingerprint_of_native_stack_depends_on_kind_alone() {
    let one = vec![frame("poll", Some(3), true), frame("run", Some(4), true)];
    let other = vec![frame("spawn", Some(90), true)];
    assert_eq!(calculate_fingerprint("IoError", &one), calculate_fingerprint("IoError", &other));
    assert_eq!(calculate_fingerprint("IoError", &one), "e170b765f19c4d23");
    assert_ne!(calculate_fingerprint("IoError", &one), calculate_fingerprint("TimeoutError", &one));
}

#[test]
fn fingerprint_skips_native_frames() {
    let mixed = vec![
        frame("poll", Some(3), true),
        frame("handler", Some(42), false),
        frame("run", Some(4), true),
        frame("main", Some(10), false),
    ];
    assert_eq!(calculate_fingerprint("IoError", &mixed), "34f229d606bca9ee");
}

#[test]
fn fingerprint_uses_first_five_frames_only() {
    let names = ["a", "b", "c", "d", "e", "f", "g"];
    let deep: Vec<StackFrame> = names
        .iter()
        .enumerate()
        .map(|(i, n)| frame(n, Some(i as u32 + 1), false))
        .collect();
    assert_eq!(calculate_fingerprint("E", &deep), "09714e88bb160c3a");
    assert_eq!(calculate_fingerprint("E", &deep[..5]), "09714e88bb160c3a");
    assert_ne!(calculate_fingerprint("E", &deep[..4]), "09714e88bb160c3a");
}

#[test]
fn fingerprint_counts_only_non_native_frames_towards_five() {
    let mut frames = vec![frame("rt0", Some(1), true), frame("rt1", Some(2), true)];
    for (i, n) in ["a", "b", "c", "d", "e", "f"].iter().enumerate() {
        frames.push(frame(n, Some(i as u32 + 1), false));
        frames.push(frame("rt", Some(99), true));
    }
    assert_eq!(calculate_fingerprint("E", &frames), "09714e88bb160c3a");
}
