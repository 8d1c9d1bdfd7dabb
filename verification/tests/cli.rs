use wasm_host::cli::{
    file_finish, file_source, select_mode, stdin_finish, usage_text, Finish, Mode,
};

fn args(list: &[&str]) -> Vec<String> {
    list.iter().map(|s| s.to_string()).collect()
}

#[test]
fn stdin_selects_the_interactive_mode() {
    assert_eq!(select_mode(&args(&["prog", "--stdin"])), Mode::Interactive);
    assert_eq!(select_mode(&args(&["prog", "--stdin", "--file", "x"])), Mode::Interactive);
}

#[test]
fn file_with_a_path_selects_the_file_mode() {
    assert_eq!(
        select_mode(&args(&["prog", "--file", "main.roc"])),
        Mode::File { path: "main.roc".to_string() }
    );
    assert_eq!(
        select_mode(&args(&["prog", "--file", "a", "b"])),
        Mode::File { path: "a".to_string() }
    );
}

#[test]
fn file_without_a_path_runs_the_example() {
    assert_eq!(select_mode(&args(&["prog", "--file"])), Mode::Example);
}

#[test]
fn help_selects_the_usage() {
    assert_eq!(select_mode(&args(&["prog", "--help"])), Mode::Usage);
    assert_eq!(select_mode(&args(&["prog", "-h"])), Mode::Usage);
    assert_eq!(select_mode(&args(&["prog", "-h", "--stdin"])), Mode::Usage);
}

#[test]
fn anything_else_runs_the_example() {
    assert_eq!(select_mode(&args(&[])), Mode::Example);
    assert_eq!(select_mode(&args(&["prog"])), Mode::Example);
    assert_eq!(select_mode(&args(&["prog", "--verbose"])), Mode::Example);
    assert_eq!(select_mode(&args(&["prog", "main.roc", "--stdin"])), Mode::Example);
    assert_eq!(select_mode(&args(&["prog", "--STDIN"])), Mode::Example);
    assert_eq!(select_mode(&args(&["prog", ""])), Mode::Example);
}

#[test]
fn usage_is_the_fixed_text() {
    let expected = [
        "Usage: cargo run [OPTIONS]",
        "",
        "OPTIONS:",
        "  --stdin              Run in interactive REPL mode",
        "  --file <FILE_PATH>   Process Roc code from the specified file",
        "  --help, -h           Show this help message",
        "",
        "Without any options, the program runs a simple WebAssembly example.",
    ]
    .join("\n");
    assert_eq!(usage_text(), expected);
}

#[test]
fn unreadable_file_ends_the_run_with_its_path() {
    let r = file_source("missing.roc", Err("No such file or directory (os error 2)".to_string()));
    let finish = match r {
        Err(finish) => finish,
        Ok(source) => panic!("nothing should be evaluated, got {:?}", source),
    };
    assert_eq!(
        finish,
        Finish::Fail {
            message: "Error reading file missing.roc: No such file or directory (os error 2)"
                .to_string()
        }
    );
    assert_eq!(finish.status(), 1);
}

#[test]
fn readable_file_is_evaluated_whole() {
    assert_eq!(
        file_source("main.roc", Ok("a = 1\na + 1\n".to_string())),
        Ok("a = 1\na + 1\n".to_string())
    );
    assert_eq!(file_source("empty.roc", Ok(String::new())), Ok(String::new()));
}

#[test]
fn file_run_prints_a_result_that_is_not_empty() {
    let finish = file_finish("main.roc", Ok("2 : Num *".to_string()));
    assert_eq!(finish, Finish::Print { text: "2 : Num *".to_string() });
    assert_eq!(finish.status(), 0);
    let finish = file_finish("main.roc", Ok(String::new()));
    assert_eq!(finish, Finish::Silent);
    assert_eq!(finish.status(), 0);
}

#[test]
fn file_run_reports_a_failed_evaluation() {
    let finish = file_finish("main.roc", Err("broken pipe".to_string()));
    assert_eq!(
        finish,
        Finish::Fail { message: "Error processing file main.roc: broken pipe".to_string() }
    );
    assert_eq!(finish.status(), 1);
}

#[test]
fn interactive_mode_ends_quietly_or_with_a_report() {
    assert_eq!(stdin_finish(Ok(())), Finish::Silent);
    let finish = stdin_finish(Err("stream closed".to_string()));
    assert_eq!(
        finish,
        Finish::Fail { message: "Error processing stdin: stream closed".to_string() }
    );
    assert_eq!(finish.status(), 1);
}
