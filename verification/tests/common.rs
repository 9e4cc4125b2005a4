use mabel::common::{ExitCode, Source, SourceOrigin};
use mabel::config::{CompilerBackend, CompilerModeConfig, InterpreterModeConfig};
use std::path::PathBuf;

#[test]
fn test_convert_exit_code_to_integer() {
    let exit_code = ExitCode::ERROR();
    let integer: i32 = exit_code.into();
    assert_eq!(integer, 1);
}

#[test]
fn test_convert_integer_to_exit_code() {
    let integer = 1;
    let exit_code: ExitCode = integer.into();
    assert_eq!(exit_code, ExitCode::ERROR());
}

#[test]
fn exit_codes_have_their_numbers() {
    assert_eq!(i32::from(ExitCode::SUCCESS()), 0);
    assert_eq!(i32::from(ExitCode::INVALID_INPUT_OR_USAGE()), 2);
    assert_eq!(i32::from(ExitCode::IO_ERROR()), 3);
    assert_eq!(i32::from(ExitCode::SYNTAX_ERROR()), 11);
    assert_eq!(i32::from(ExitCode::SEMANTIC_ERROR()), 12);
}

#[test]
fn test_get_filename_of_source_origin() {
    let origin = SourceOrigin::File(PathBuf::from("test.mbl"));
    assert_eq!(origin.get_filename(), "test.mbl");
}

#[test]
fn file_name_is_the_last_component() {
    let origin = SourceOrigin::File(PathBuf::from("some/where/test.mbl"));
    assert_eq!(origin.get_filename(), "test.mbl");
    assert_eq!(origin.try_get_filename(), Some("test.mbl".to_owned()));
    assert_eq!(SourceOrigin::File(PathBuf::from("..")).try_get_filename(), None);
    assert_eq!(SourceOrigin::REPL.try_get_filename(), Some("REPL".to_owned()));
    assert_eq!(SourceOrigin::String.get_filename(), "String");
}

#[test]
fn test_get_path_of_source_origin() {
    let origin = SourceOrigin::File(PathBuf::from("test.mbl"));
    assert_eq!(origin.get_path(), "test.mbl");

    let origin = SourceOrigin::Stdin;
    assert_eq!(origin.get_path(), "stdin");
}

#[test]
fn test_get_filename_of_source() {
    let source = Source::from("1 + 32").with_origin(SourceOrigin::File(PathBuf::from("test.mbl")));
    assert_eq!(source.get_filename(), "test.mbl");

    let source = Source::from("1 + 32").with_origin(SourceOrigin::Stdin);
    assert_eq!(source.get_filename(), "stdin");
}

#[test]
fn test_get_path_of_source() {
    let source = Source::from("1 + 32").with_origin(SourceOrigin::File(PathBuf::from("test.mbl")));
    assert_eq!(source.get_path(), "test.mbl");

    let source = Source::from("1 + 32").with_origin(SourceOrigin::Stdin);
    assert_eq!(source.get_path(), "stdin");

    let source = Source::from("1 + 32").with_origin(SourceOrigin::REPL);
    assert_eq!(source.get_path(), "REPL");
}

#[test]
fn test_create_source_from_string_slice() {
    let source = Source::from("1 + 32");
    assert_eq!(source.code, "1 + 32");
}

#[test]
fn test_create_source_from_string() {
    let source = Source::from("1 + 32".to_string());
    assert_eq!(source.code, "1 + 32");
    assert_eq!(source.origin, SourceOrigin::String);
}

#[test]
fn test_default_source() {
    let source = Source::default();
    assert_eq!(source.code, "");
    assert_eq!(source.origin, SourceOrigin::String);
}

#[test]
fn with_origin_keeps_the_text() {
    let source = Source::new(SourceOrigin::Stdin, "echo 1".to_owned());
    let moved = source.with_origin(SourceOrigin::REPL);
    assert_eq!(moved.code, "echo 1");
    assert_eq!(moved.origin, SourceOrigin::REPL);
    assert_eq!(source.clone().origin, SourceOrigin::Stdin);
}

#[test]
fn test_compiler_backend_from_string() {
    assert_eq!(CompilerBackend::from("llvm".to_owned()), CompilerBackend::LLVM);
    assert_eq!(CompilerBackend::from("c".to_owned()), CompilerBackend::C);
    assert_eq!(CompilerBackend::from("javascript".to_owned()), CompilerBackend::JavaScript);
    assert_eq!(CompilerBackend::from("invalid".to_owned()), CompilerBackend::LLVM);
}

#[test]
fn compiler_backend_ignores_case() {
    assert_eq!(CompilerBackend::from("JavaScript".to_owned()), CompilerBackend::JavaScript);
    assert_eq!(CompilerBackend::from("C".to_owned()), CompilerBackend::C);
    assert_eq!(CompilerBackend::from_lowercase("C"), CompilerBackend::LLVM);
}

#[test]
fn test_compiler_backend_get_allowed_variants() {
    assert_eq!(CompilerBackend::get_allowed_variants(), ["LLVM", "C", "JavaScript"]);
}

#[test]
fn test_compiler_mode_config_default() {
    let config = CompilerModeConfig::default();
    assert_eq!(config.output_file, None);
    assert_eq!(config.backend, CompilerBackend::LLVM);
}

#[test]
fn test_interpreter_mode_config_default() {
    let config = InterpreterModeConfig::default();
    assert_eq!(config.jit_enabled, true);
}
