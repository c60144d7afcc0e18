use aivory_monitor::capture::{
    capture_stack_trace, extract_function_name, file_name, frame_from_symbol,
    is_internal, is_native_file, symbolize, RawSymbol, MAX_STACK_FRAMES,
};

fn symbol(name: &str, path: Option<&str>, line: Option<u32>) -> RawSymbol {
    RawSymbol {
        name: Some(name.to_string()),
        file_path: path.map(|p| p.to_string()),
        line_number: line,
        column_number: Some(5),
    }
}

#[test]
fn function_name_is_last_segment() {
    assert_eq!(extract_function_name("my_crate::module::function"), "function");
    assert_eq!(extract_function_name("function"), "function");
    assert_eq!(extract_function_name(""), "");
    assert_eq!(extract_function_name("a::"), "");
    assert_eq!(extract_function_name("::a"), "a");
}

#[test]
fn function_name_splits_from_the_left() {
    assert_eq!(extract_function_name("a:::b"), ":b");
    assert_eq!(extract_function_name("a::::b"), "b");
    assert_eq!(extract_function_name("a:b"), "a:b");
    assert_eq!(extract_function_name("x::{{closure}}"), "{{closure}}");
}

#[test]
fn function_name_agrees_with_split() {
    for name in ["a::b::c", "a:::b", ":::::", "é::ü", "<T as U>::f", "a::b:", ":"] {
        assert_eq!(extract_function_name(name), name.split("::").last().unwrap());
    }
}

#[test]
fn internal_names_are_recognised() {
    assert!(is_internal("std::panicking::begin_panic"));
    assert!(is_internal("core::ops::function::FnOnce::call_once"));
    assert!(is_internal("backtrace::capture::Backtrace::new"));
    assert!(is_internal("aivory_monitor::capture::capture_stack_trace"));
    assert!(!is_internal("aivory_monitor::agent::Agent::capture_error"));
    assert!(!is_internal("my_app::std::thing"));
    assert!(!is_internal("std"));
    assert!(!is_internal("<unknown>"));
}

#[test]
fn native_paths_are_recognised() {
    assert!(is_native_file(&None));
    assert!(is_native_file(&Some("/home/u/.rustup/toolchains/x/lib.rs".to_string())));
    assert!(is_native_file(&Some("/home/u/.cargo/registry/src/serde/lib.rs".to_string())));
    assert!(!is_native_file(&Some("/home/u/project/src/main.rs".to_string())));
    assert!(!is_native_file(&Some("".to_string())));
}

#[test]
fn file_name_is_last_path_component() {
    assert_eq!(file_name("/home/u/project/src/main.rs"), "main.rs");
    assert_eq!(file_name("C:\\work\\app\\lib.rs"), "lib.rs");
    assert_eq!(file_name("mixed/sep\\file.rs"), "file.rs");
    assert_eq!(file_name("plain.rs"), "plain.rs");
    assert_eq!(file_name("dir/"), "");
    assert_eq!(file_name(""), "");
}

#[test]
fn frame_describes_application_symbol() {
    let frame = frame_from_symbol(&symbol(
        "my_app::jobs::run",
        Some("/home/u/project/src/jobs.rs"),
        Some(17),
    ))
    .unwrap();
    assert_eq!(frame.method_name, "run");
    assert_eq!(frame.file_name.as_deref(), Some("jobs.rs"));
    assert_eq!(frame.file_path.as_deref(), Some("/home/u/project/src/jobs.rs"));
    assert_eq!(frame.line_number, Some(17));
    assert_eq!(frame.column_number, Some(5));
    assert!(!frame.is_native);
    assert!(frame.source_available);
}

#[test]
fn frame_of_dependency_is_native() {
    let frame = frame_from_symbol(&symbol(
        "serde::de::visit",
        Some("/home/u/.cargo/registry/src/serde/de.rs"),
        Some(3),
    ))
    .unwrap();
    assert!(frame.is_native);
    assert!(!frame.source_available);
    assert_eq!(frame.file_name.as_deref(), Some("de.rs"));
}

#[test]
fn frame_without_path_is_native() {
    let frame = frame_from_symbol(&symbol("my_app::run", None, None)).unwrap();
    assert!(frame.is_native);
    assert!(!frame.source_available);
    assert_eq!(frame.file_name, None);
    assert_eq!(frame.file_path, None);
    assert_eq!(frame.line_number, None);
}

#[test]
fn unresolved_symbol_is_named_unknown() {
    let raw = RawSymbol { name: None, file_path: None, line_number: None, column_number: None };
    let frame = frame_from_symbol(&raw).unwrap();
    assert_eq!(frame.method_name, "<unknown>");
    assert!(frame.is_native);
}

#[test]
fn internal_symbols_give_no_frame() {
    assert!(frame_from_symbol(&symbol("std::rt::lang_start", Some("/x/rt.rs"), Some(1))).is_none());
    assert!(frame_from_symbol(&symbol("core::ops::call", None, None)).is_none());
    assert!(frame_from_symbol(&symbol("backtrace::trace", None, None)).is_none());
    assert!(frame_from_symbol(&symbol("aivory_monitor::capture::walk_stack", None, None)).is_none());
}

#[test]
fn symbolize_keeps_order_and_drops_internal() {
    let symbols = vec![
        symbol("backtrace::capture::Backtrace::new", None, None),
        symbol("aivory_monitor::capture::capture_error", None, None),
        symbol("my_app::inner", Some("/p/src/a.rs"), Some(1)),
        symbol("std::panicking::try", None, None),
        symbol("my_app::outer", Some("/p/src/b.rs"), Some(2)),
    ];
    let frames = symbolize(&symbols);
    let names: Vec<&str> = frames.iter().map(|f| f.method_name.as_str()).collect();
    assert_eq!(names, vec!["inner", "outer"]);
}

#[test]
fn symbolize_caps_at_fifty_frames() {
    let symbols: Vec<RawSymbol> = (0..120u32)
        .map(|i| symbol(&format!("my_app::level_{}", i), Some("/p/src/deep.rs"), Some(i)))
        .collect();
    let frames = symbolize(&symbols);
    assert_eq!(frames.len(), 50);
    assert_eq!(MAX_STACK_FRAMES, 50);
    for (i, f) in frames.iter().enumerate() {
        assert_eq!(f.method_name, format!("level_{}", i));
        assert_eq!(f.line_number, Some(i as u32));
    }
}

#[test]
fn symbolize_counts_only_reported_symbols_towards_cap() {
    let mut symbols = Vec::new();
    for i in 0..60u32 {
        symbols.push(symbol("std::noise", None, None));
        symbols.push(symbol(&format!("my_app::f{}", i), Some("/p/a.rs"), Some(i)));
    }
    let frames = symbolize(&symbols);
    assert_eq!(frames.len(), 50);
    assert_eq!(frames[49].method_name, "f49");
}

#[test]
fn symbolize_exactly_fifty_and_fewer() {
    let fifty: Vec<RawSymbol> = (0..50u32).map(|i| symbol("my_app::f", None, Some(i))).collect();
    assert_eq!(symbolize(&fifty).len(), 50);
    assert_eq!(symbolize(&fifty[..49]).len(), 49);
    assert_eq!(symbolize(&[]).len(), 0);
}

fn deepen(levels: u32) -> usize {
    if levels == 0 {
        capture_stack_trace().len()
    } else {
        let below = deepen(levels - 1);
        std::hint::black_box(below)
    }
}

#[test]
fn stack_trace_of_this_thread_is_bounded() {
    let frames = capture_stack_trace();
    assert!(frames.len() <= 50);
    for f in &frames {
        assert!(!f.method_name.contains("::"));
        assert_eq!(f.source_available, !f.is_native && f.file_path.is_some());
        assert_eq!(f.file_name.is_some(), f.file_path.is_some());
    }
    assert!(deepen(200) <= 50);
}

#[test]
fn variable_holds_nested_values() {
    let leaf = aivory_monitor::capture::Variable {
        name: "x".to_string(),
        var_type: "i32".to_string(),
        value: "1".to_string(),
        is_null: false,
        is_truncated: false,
        children: None,
        array_elements: None,
        array_length: None,
    };
    let list = aivory_monitor::capture::Variable {
        name: "xs".to_string(),
        var_type: "Vec<i32>".to_string(),
        value: "[1]".to_string(),
        is_null: false,
        is_truncated: false,
        children: None,
        array_elements: Some(vec![leaf]),
        array_length: Some(1),
    };
    assert_eq!(list.array_elements.as_ref().unwrap()[0].name, "x");
    assert_eq!(list.array_length, Some(1));
}
