use wasm_host::error::{LoadError, RequiredExport, RunError};
use wasm_host::example::{
    example_run, found_start, run_default_example, transcript, ExampleRun,
};
use wasm_host::source::{compile_module, compiled, PluginSource};
use wasmtime::Engine;

const HELLO: &str = r#"
(module
  (func $hello (import "" "hello"))
  (func (export "run") (call $hello)))
"#;

#[test]
fn only_a_module_file_has_to_be_read() {
    assert_eq!(PluginSource::FromWasmFile("a.wasm").file_to_read(), Some("a.wasm"));
    assert_eq!(PluginSource::FromWasmBuffer(b"x").file_to_read(), None);
    assert_eq!(PluginSource::FromRocSourceFile("a.roc").file_to_read(), None);
    assert_eq!(PluginSource::FromRocSourceBuffer(b"x").file_to_read(), None);
}

#[test]
fn origin_is_the_path_or_the_buffer() {
    assert_eq!(PluginSource::FromWasmFile("a.wasm").origin(), "a.wasm");
    assert_eq!(PluginSource::FromRocSourceFile("a.roc").origin(), "a.roc");
    assert_eq!(PluginSource::FromWasmBuffer(b"x").origin(), "in-memory buffer");
    assert_eq!(PluginSource::FromRocSourceBuffer(b"x").origin(), "in-memory buffer");
}

#[test]
fn module_bytes_of_a_buffer_are_the_buffer() {
    let source = PluginSource::FromWasmBuffer(b"\0asm");
    assert_eq!(source.module_bytes(None), Ok(&b"\0asm"[..]));
    assert_eq!(source.module_bytes(Some(b"other")), Ok(&b"\0asm"[..]));
}

#[test]
fn module_bytes_of_a_file_are_its_contents() {
    let source = PluginSource::FromWasmFile("a.wasm");
    assert_eq!(source.module_bytes(Some(b"contents")), Ok(&b"contents"[..]));
}

#[test]
fn unreadable_file_is_an_io_error_with_the_path() {
    let source = PluginSource::FromWasmFile("dir/a.wasm");
    assert_eq!(source.module_bytes(None), Err(LoadError::Io { path: "dir/a.wasm".to_string() }));
    let engine = Engine::default();
    assert_eq!(
        source.load_module(&engine, None).err(),
        Some(LoadError::Io { path: "dir/a.wasm".to_string() })
    );
}

#[test]
fn source_text_is_a_compile_error() {
    let expected =
        LoadError::Compile { detail: "no compiler for source text is available".to_string() };
    assert_eq!(
        PluginSource::FromRocSourceBuffer(b"1 + 1").module_bytes(None),
        Err(expected.clone())
    );
    assert_eq!(
        PluginSource::FromRocSourceFile("a.roc").module_bytes(Some(b"1 + 1")),
        Err(expected.clone())
    );
    let engine = Engine::default();
    assert_eq!(
        PluginSource::FromRocSourceBuffer(b"1 + 1").load_module(&engine, None).err(),
        Some(expected)
    );
}

#[test]
fn load_module_compiles_text_and_binary() {
    let engine = Engine::default();
    assert!(PluginSource::FromWasmBuffer(HELLO.as_bytes()).load_module(&engine, None).is_ok());
    assert!(PluginSource::FromWasmFile("hello.wat")
        .load_module(&engine, Some(HELLO.as_bytes()))
        .is_ok());
    assert!(compile_module(&engine, b"\0asm\x01\0\0\0").is_ok());
}

#[test]
fn load_module_refuses_malformed_bytes() {
    let engine = Engine::default();
    match PluginSource::FromWasmBuffer(b"(module").load_module(&engine, None) {
        Err(LoadError::Validation { detail }) => assert!(!detail.is_empty()),
        Err(e) => panic!("expected a validation error, got {:?}", e),
        Ok(_) => panic!("the bytes should be refused"),
    }
    assert!(matches!(
        compile_module(&engine, b"\0asm\x02\0\0\0"),
        Err(LoadError::Validation { .. })
    ));
}

#[test]
fn example_guest_greets_once() {
    let source = PluginSource::FromWasmFile("examples/hello.wat");
    let run = run_default_example(&source, Some(HELLO.as_bytes()), "hello, world!".to_string());
    assert_eq!(run, Ok(ExampleRun { greetings: 1, failure: None }));
}

#[test]
fn example_guest_may_greet_often_or_never() {
    let thrice = r#"(module
        (func $hello (import "" "hello"))
        (func (export "run") (call $hello) (call $hello) (call $hello)))"#;
    let source = PluginSource::FromWasmBuffer(thrice.as_bytes());
    assert_eq!(
        run_default_example(&source, None, String::new()),
        Ok(ExampleRun { greetings: 3, failure: None })
    );
    let never = r#"(module (func (import "" "hello")) (func (export "run")))"#;
    let source = PluginSource::FromWasmBuffer(never.as_bytes());
    assert_eq!(
        run_default_example(&source, None, String::new()),
        Ok(ExampleRun { greetings: 0, failure: None })
    );
}

#[test]
fn example_guest_that_traps_keeps_its_greetings() {
    let text = r#"(module
        (func $hello (import "" "hello"))
        (func (export "run") (call $hello) unreachable))"#;
    let source = PluginSource::FromWasmBuffer(text.as_bytes());
    match run_default_example(&source, None, String::new()) {
        Ok(ExampleRun { greetings, failure: Some(_) }) => assert_eq!(greetings, 1),
        other => panic!("expected a trap after one greeting, got {:?}", other),
    }
}

#[test]
fn example_without_run_names_the_export() {
    let text = r#"(module (func (import "" "hello")))"#;
    let source = PluginSource::FromWasmBuffer(text.as_bytes());
    assert_eq!(
        run_default_example(&source, None, String::new()),
        Err(LoadError::MissingExport { export: RequiredExport::Run })
    );
}

#[test]
fn example_with_other_imports_is_an_import_mismatch() {
    let text = r#"(module (func (export "run")))"#;
    let source = PluginSource::FromWasmBuffer(text.as_bytes());
    assert!(matches!(
        run_default_example(&source, None, String::new()),
        Err(LoadError::ImportMismatch { .. })
    ));
}

#[test]
fn example_from_an_unreadable_file_is_an_io_error() {
    let source = PluginSource::FromWasmFile("examples/hello.wat");
    assert_eq!(
        run_default_example(&source, None, String::new()),
        Err(LoadError::Io { path: "examples/hello.wat".to_string() })
    );
}

#[test]
fn example_from_source_text_is_a_compile_error() {
    let source = PluginSource::FromRocSourceBuffer(b"main = 1");
    assert!(matches!(
        run_default_example(&source, None, String::new()),
        Err(LoadError::Compile { .. })
    ));
}

#[test]
fn compiled_keeps_the_module_or_gives_the_words() {
    let engine = Engine::default();
    let module = match wasmtime::Module::new(&engine, "(module)") {
        Ok(module) => module,
        Err(e) => panic!("the module should compile: {:?}", e),
    };
    assert!(compiled(Ok(module)).is_ok());
    assert_eq!(
        compiled(Err("unexpected end of input".to_string())).err(),
        Some(LoadError::Validation { detail: "unexpected end of input".to_string() })
    );
}

#[test]
fn example_run_keeps_the_count_and_the_trap() {
    assert_eq!(example_run(3, Ok(())), ExampleRun { greetings: 3, failure: None });
    assert_eq!(
        example_run(1, Err("wasm trap: unreachable".to_string())),
        ExampleRun {
            greetings: 1,
            failure: Some(RunError::Trap { detail: "wasm trap: unreachable".to_string() }),
        }
    );
    assert_eq!(example_run(0, Ok(())), ExampleRun { greetings: 0, failure: None });
}

#[test]
fn a_missing_run_is_named() {
    assert_eq!(
        found_start(Err("failed to find function export `run`".to_string())).err(),
        Some(LoadError::MissingExport { export: RequiredExport::Run })
    );
}

#[test]
fn transcript_of_a_good_run() {
    let result = Ok(ExampleRun { greetings: 2, failure: None });
    assert_eq!(
        transcript("hello, world!", &result),
        vec![
            "Compiling module...",
            "Initializing...",
            "Creating callback...",
            "Instantiating module...",
            "Extracting export...",
            "Calling export...",
            "Calling back...",
            "> hello, world!",
            "Calling back...",
            "> hello, world!",
            "Done.",
        ]
    );
}

#[test]
fn transcript_of_a_trap_has_no_done() {
    let result = Ok(ExampleRun {
        greetings: 1,
        failure: Some(RunError::Trap { detail: "unreachable".to_string() }),
    });
    let lines = transcript("n", &result);
    assert_eq!(lines.len(), 8);
    assert_eq!(lines[6], "Calling back...");
    assert_eq!(lines[7], "> n");
}

#[test]
fn transcript_stops_at_the_step_that_failed() {
    let unreadable = Err(LoadError::Io { path: "examples/hello.wat".to_string() });
    assert_eq!(transcript("n", &unreadable), vec!["Compiling module..."]);
    let malformed = Err(LoadError::Validation { detail: String::new() });
    assert_eq!(transcript("n", &malformed), vec!["Compiling module..."]);
    let source_text = Err(LoadError::Compile { detail: String::new() });
    assert_eq!(transcript("n", &source_text), vec!["Compiling module..."]);
    let mismatch = Err(LoadError::ImportMismatch { detail: String::new() });
    assert_eq!(
        transcript("n", &mismatch),
        vec![
            "Compiling module...",
            "Initializing...",
            "Creating callback...",
            "Instantiating module...",
        ]
    );
    let missing = Err(LoadError::MissingExport { export: RequiredExport::Run });
    assert_eq!(
        transcript("n", &missing),
        vec![
            "Compiling module...",
            "Initializing...",
            "Creating callback...",
            "Instantiating module...",
            "Extracting export...",
        ]
    );
}

#[test]
fn compile_module_succeeds_exactly_on_what_the_engine_accepts() {
    let engine = Engine::default();
    let good = b"(module (func))";
    assert!(wasmtime::Module::new(&engine, good).is_ok());
    assert!(compile_module(&engine, good).is_ok());
    let bad = b"(module (func) ";
    assert!(wasmtime::Module::new(&engine, bad).is_err());
    assert!(compile_module(&engine, bad).is_err());
}
