use bftoc::config::{output_flag, tape_extension};
use bftoc::{ConfigError, Program};

fn args(items: &[&str]) -> Vec<String> {
    items.iter().map(|s| s.to_string()).collect()
}

#[test]
fn positional_form() {
    let mut p = Program::new();
    assert_eq!(p.handle_arguments(args(&["bftoc", "hello.bf", "hello"])), Ok(()));
    assert_eq!(p.input, "hello.bf");
    assert_eq!(p.output, "hello");
    assert_eq!(p.compiler_flag, None);
}

#[test]
fn output_flag_form() {
    let mut p = Program::new();
    assert_eq!(p.handle_arguments(args(&["bftoc", "x.b", "-o", "out"])), Ok(()));
    assert_eq!(p.input, "x.b");
    assert_eq!(p.output, "out");
    assert_eq!(p.compiler_flag, None);
}

#[test]
fn extra_compiler_flag_is_forwarded() {
    let mut p = Program::new();
    assert_eq!(p.handle_arguments(args(&["bftoc", "x.bf", "-o", "out", "-O3"])), Ok(()));
    assert_eq!(p.output, "out");
    assert_eq!(p.compiler_flag, Some(String::from("-O3")));
}

#[test]
fn wrong_argument_counts() {
    let mut p = Program::new();
    assert_eq!(p.handle_arguments(args(&["bftoc", "x.bf"])), Err(ConfigError::ArgumentCount));
    assert_eq!(p.handle_arguments(args(&["bftoc"])), Err(ConfigError::ArgumentCount));
    assert_eq!(
        p.handle_arguments(args(&["bftoc", "x.bf", "-o", "out", "-O3", "more"])),
        Err(ConfigError::ArgumentCount)
    );
    assert_eq!(p.input, ".");
}

#[test]
fn flag_other_than_output_is_refused() {
    let mut p = Program::new();
    assert_eq!(p.handle_arguments(args(&["bftoc", "x.bf", "-x", "out"])), Err(ConfigError::InvalidFlag));
    assert_eq!(
        p.handle_arguments(args(&["bftoc", "x.txt", "out", "-O2", "z"])),
        Err(ConfigError::InvalidFlag)
    );
}

#[test]
fn bad_extension_is_refused() {
    let mut p = Program::new();
    assert_eq!(p.handle_arguments(args(&["bftoc", "x.c", "out"])), Err(ConfigError::BadExtension));
    assert_eq!(p.handle_arguments(args(&["bftoc", "noext", "out"])), Err(ConfigError::BadExtension));
    assert_eq!(p.handle_arguments(args(&["bftoc", "x.bf.txt", "-o", "out"])), Err(ConfigError::BadExtension));
    assert_eq!(p.output, ".");
}

#[test]
fn extension_and_flag_checks() {
    assert!(tape_extension("prog.bf"));
    assert!(tape_extension("./dir/prog.b"));
    assert!(tape_extension(".b"));
    assert!(!tape_extension("prog.fb"));
    assert!(!tape_extension("bf"));
    assert!(!tape_extension("prog.bff"));
    assert!(output_flag("-o"));
    assert!(!output_flag("-O"));
    assert!(!output_flag("-oo"));
}
