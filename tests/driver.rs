use amargo::driver::{arg_offset, arg_position, find_input_file, substitute_input, Mode, Outcome};

fn strings(v: &[&str]) -> Vec<String> {
    v.iter().map(|s| s.to_string()).collect()
}

#[test]
fn input_file_after_option_values() {
    let args = strings(&["--edition", "2018", "--crate-name", "x", "src/main.rs", "-O"]);
    let found = find_input_file(&args);
    assert_eq!(found, Some((4, &args[4])));
}

#[test]
fn option_value_ending_in_rs_is_skipped() {
    let args = strings(&["--out", "gen.rs", "lib.rs"]);
    assert_eq!(find_input_file(&args), Some((2, &args[2])));
}

#[test]
fn stdin_source_gives_no_input_file() {
    let args = strings(&["-", "main.rs"]);
    assert_eq!(find_input_file(&args), None);
}

#[test]
fn no_rust_file_gives_none() {
    assert_eq!(find_input_file(&strings(&["a.txt", "--test"])), None);
    assert_eq!(find_input_file(&strings(&[])), None);
    assert_eq!(find_input_file(&strings(&["rs", ".r"])), None);
}

#[test]
fn parse_failure_keeps_the_input_path() {
    let mut args = strings(&["--edition", "2018", "bad.rs"]);
    substitute_input(&mut args, 2, Outcome::ParseFailed);
    assert_eq!(args, strings(&["--edition", "2018", "bad.rs"]));
}

#[test]
fn rewritten_path_takes_the_input_place() {
    let mut args = strings(&["--edition", "2018", "good.rs", "-O"]);
    substitute_input(&mut args, 2, Outcome::Rewritten("/tmp/good-1.rs".to_string()));
    assert_eq!(args, strings(&["--edition", "2018", "/tmp/good-1.rs", "-O"]));
}

#[test]
fn mode_sets_argument_offset() {
    assert_eq!(arg_offset(Mode::Standalone), 1);
    assert_eq!(arg_offset(Mode::Wrapped), 2);
}

#[test]
fn position_of_named_argument() {
    let args = strings(&["--cfg", "x", "main.rs", "main.rs"]);
    assert_eq!(arg_position(&args, "main.rs"), Some(2));
    assert_eq!(arg_position(&args, "lib.rs"), None);
}
