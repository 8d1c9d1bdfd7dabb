use wasm_host::error::{load_failure, LoadError, LoadStage, RequiredExport};
use wasm_host::host::{HostState, PanicKind, PanicReport};
use wasm_host::memory::{address_after_run, address_of, address_or_zero, copy_prefix};

#[test]
fn tags_are_classified() {
    assert_eq!(PanicReport { ptr: 0, tag: 0 }.kind(), PanicKind::InternalFailure);
    assert_eq!(PanicReport { ptr: 0, tag: 1 }.kind(), PanicKind::GuestCrash);
    assert_eq!(PanicReport { ptr: 0, tag: 2 }.kind(), PanicKind::Unrecognized);
    assert_eq!(PanicReport { ptr: 0, tag: -1 }.kind(), PanicKind::Unrecognized);
    assert_eq!(PanicReport { ptr: 0, tag: i32::MAX }.kind(), PanicKind::Unrecognized);
}

#[test]
fn new_state_is_empty() {
    let state = HostState::new("hello, world!".to_string());
    assert_eq!(state.name(), "hello, world!");
    assert_eq!(state.count(), 0);
    assert!(state.reports().is_empty());
}

#[test]
fn greet_counts_calls() {
    let mut state = HostState::new("n".to_string());
    state.greet();
    state.greet();
    state.greet();
    assert_eq!(state.count(), 3);
    assert_eq!(state.name(), "n");
    assert!(state.reports().is_empty());
}

#[test]
fn report_panic_appends_in_order() {
    let mut state = HostState::new(String::new());
    state.report_panic(8, 1);
    state.report_panic(-4, 0);
    state.report_panic(12, 99);
    assert_eq!(
        state.reports(),
        &vec![
            PanicReport { ptr: 8, tag: 1 },
            PanicReport { ptr: -4, tag: 0 },
            PanicReport { ptr: 12, tag: 99 },
        ]
    );
    assert_eq!(state.count(), 0);
}

#[test]
fn address_of_reads_the_bits_as_unsigned() {
    assert_eq!(address_of(0), 0);
    assert_eq!(address_of(1), 1);
    assert_eq!(address_of(i32::MAX), 0x7FFF_FFFF);
    assert_eq!(address_of(-1), 0xFFFF_FFFF);
    assert_eq!(address_of(i32::MIN), 0x8000_0000);
    assert_eq!(address_of(-65536), 0xFFFF_0000);
}

#[test]
fn address_after_run_follows_the_outcome() {
    let ok: Result<i32, String> = Ok(4096);
    let failed: Result<i32, String> = Err("trap".to_string());
    assert_eq!(address_after_run(&ok), Some(4096));
    assert_eq!(address_after_run(&failed), None);
    assert_eq!(address_or_zero(address_after_run(&ok)), 4096);
    assert_eq!(address_or_zero(address_after_run(&failed)), 0);
}

#[test]
fn address_or_zero_defaults_to_zero() {
    assert_eq!(address_or_zero(None), 0);
    assert_eq!(address_or_zero(Some(0)), 0);
    assert_eq!(address_or_zero(Some(17)), 17);
    assert_eq!(address_or_zero(Some(usize::MAX)), usize::MAX);
}

#[test]
fn copy_prefix_into_a_shorter_buffer() {
    let memory = [1u8, 2, 3, 4, 5];
    let mut buffer = [9u8; 3];
    assert_eq!(copy_prefix(&mut buffer, &memory), 3);
    assert_eq!(buffer, [1, 2, 3]);
}

#[test]
fn copy_prefix_into_a_longer_buffer() {
    let memory = [1u8, 2];
    let mut buffer = [9u8; 5];
    assert_eq!(copy_prefix(&mut buffer, &memory), 2);
    assert_eq!(buffer, [1, 2, 9, 9, 9]);
}

#[test]
fn copy_prefix_of_equal_lengths() {
    let memory = [7u8, 8, 9];
    let mut buffer = [0u8; 3];
    assert_eq!(copy_prefix(&mut buffer, &memory), 3);
    assert_eq!(buffer, memory);
}

#[test]
fn copy_prefix_with_nothing_to_copy() {
    let mut empty: [u8; 0] = [];
    assert_eq!(copy_prefix(&mut empty, &[1, 2, 3]), 0);
    let mut buffer = [4u8, 5];
    assert_eq!(copy_prefix(&mut buffer, &[]), 0);
    assert_eq!(buffer, [4, 5]);
}

#[test]
fn load_failure_names_the_stage() {
    assert_eq!(
        load_failure(LoadStage::Compile, "bad magic".to_string()),
        LoadError::Validation { detail: "bad magic".to_string() }
    );
    assert_eq!(
        load_failure(LoadStage::Instantiate, "expected 0 imports".to_string()),
        LoadError::ImportMismatch { detail: "expected 0 imports".to_string() }
    );
    assert_eq!(
        load_failure(LoadStage::Export(RequiredExport::Memory), String::new()),
        LoadError::MissingExport { export: RequiredExport::Memory }
    );
    assert_eq!(
        load_failure(LoadStage::Export(RequiredExport::Wrapper), "no such export".to_string()),
        LoadError::MissingExport { export: RequiredExport::Wrapper }
    );
    assert_eq!(
        load_failure(LoadStage::Export(RequiredExport::Run), "x".to_string()),
        LoadError::MissingExport { export: RequiredExport::Run }
    );
}

#[test]
fn required_exports_have_their_names() {
    assert_eq!(RequiredExport::Memory.name(), "memory");
    assert_eq!(RequiredExport::Wrapper.name(), "wrapper");
    assert_eq!(RequiredExport::Run.name(), "run");
}

#[test]
fn crash_lines_have_their_words() {
    assert_eq!(
        PanicReport { ptr: 1024, tag: 0 }.message(),
        "Roc failed with message at ptr: 1024"
    );
    assert_eq!(PanicReport { ptr: 0, tag: 1 }.message(), "User crash with message at ptr: 0");
    assert_eq!(
        PanicReport { ptr: -8, tag: 7 }.message(),
        "Unknown panic tag: 7, ptr: -8"
    );
    assert_eq!(
        PanicReport { ptr: i32::MAX, tag: i32::MIN }.message(),
        "Unknown panic tag: -2147483648, ptr: 2147483647"
    );
}

#[test]
fn append_decimal_writes_what_display_writes() {
    let samples = [
        0, 1, 9, 10, 11, 99, 100, 101, 1000, 65536, 1234567890, i32::MAX, -1, -9, -10, -100,
        -65536, i32::MIN + 1, i32::MIN,
    ];
    for n in samples {
        let mut text = "n = ".to_string();
        wasm_host::text::append_decimal(&mut text, n);
        assert_eq!(text, format!("n = {}", n));
    }
}

#[test]
fn load_errors_are_reported_with_their_origin() {
    assert_eq!(
        LoadError::Io { path: "a.wasm".to_string() }.report("a.wasm"),
        "a.wasm: cannot read a.wasm"
    );
    assert_eq!(
        LoadError::Validation { detail: "bad magic".to_string() }.report("in-memory buffer"),
        "in-memory buffer: not a well-formed module: bad magic"
    );
    assert_eq!(
        LoadError::Compile { detail: "no compiler".to_string() }.report("main.roc"),
        "main.roc: compilation failed: no compiler"
    );
    assert_eq!(
        LoadError::MissingExport { export: RequiredExport::Wrapper }.report("x"),
        "x: the module does not export `wrapper`"
    );
    assert_eq!(
        LoadError::MissingExport { export: RequiredExport::Memory }.report(""),
        ": the module does not export `memory`"
    );
    assert_eq!(
        LoadError::ImportMismatch { detail: "expected 0 imports, found 1".to_string() }
            .report("x"),
        "x: the module could not be instantiated: expected 0 imports, found 1"
    );
}
