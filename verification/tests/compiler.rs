use mabel::annotated_ast::AnnotatedStatement;
use mabel::ast::Statement;
use mabel::common::{
    absolute_path_result, get_absolute_path, path_to_file_url, read_content_from_lines, ExitCode,
    Source, SourceOrigin,
};
use mabel::compiler::{check_clusters, check_source, parse_clusters, parse_source};
use mabel::error::{Error, ErrorKind};
use mabel::lexer::model::{Cluster, LexerErrorCode};
use mabel::lexer::{classify, segment, Lexer};
use mabel::parser::model::ParserErrorCode;
use mabel::semantic_checker::model::SemanticCheckerErrorCode;
use mabel::token::TokenKind;
use std::path::PathBuf;

fn id() -> String {
    "mabel://stdin".to_owned()
}

#[test]
fn a_source_is_parsed_as_a_main_module() {
    let module = parse_source(&id(), &"echo 1 + 2\n3".to_owned()).unwrap();
    assert_eq!(module.id, "mabel://stdin");
    assert_eq!(module.statements.len(), 1);
    match &*module.statements[0] {
        Statement::FunctionDeclaration(function) => assert_eq!(function.body.len(), 2),
        other => panic!("expected a function, found {:?}", other),
    }
}

#[test]
fn a_lexical_failure_is_a_syntax_error() {
    let error = parse_source(&id(), &"1 + id".to_owned()).unwrap_err();
    assert_eq!(error.exit_code, ExitCode::SYNTAX_ERROR());
    match error.kind {
        ErrorKind::LexerError(error) => assert_eq!(error.code, LexerErrorCode::UnimplementedFeature),
        other => panic!("expected a lexer error, found {:?}", other),
    }
    let error = check_source(&id(), &"1 + \\".to_owned()).unwrap_err();
    assert_eq!(error.exit_code, ExitCode::SYNTAX_ERROR());
    assert!(matches!(error.kind, ErrorKind::LexerError(_)));
}

#[test]
fn a_syntactic_failure_is_a_syntax_error() {
    let error = parse_source(&id(), &"1 + ".to_owned()).unwrap_err();
    assert_eq!(error.exit_code, ExitCode::SYNTAX_ERROR());
    match error.kind {
        ErrorKind::ParserError(error) => assert_eq!(error.code, ParserErrorCode::ExpectedExpression),
        other => panic!("expected a parser error, found {:?}", other),
    }
    let error = check_source(&id(), &"1u8 + 2i8 +".to_owned()).unwrap_err();
    assert_eq!(error.exit_code, ExitCode::SYNTAX_ERROR());
    assert!(matches!(error.kind, ErrorKind::ParserError(_)));
}

#[test]
fn a_semantic_failure_is_a_semantic_error() {
    let error = check_source(&id(), &"echo 1u8 + 2i8".to_owned()).unwrap_err();
    assert_eq!(error.exit_code, ExitCode::SEMANTIC_ERROR());
    match error.kind {
        ErrorKind::SemanticCheckerError(error) => {
            assert_eq!(error.code, SemanticCheckerErrorCode::InvalidOperand);
            assert_eq!(error.labels.len(), 3);
            assert_eq!(error.source_id, "mabel://stdin");
        }
        other => panic!("expected a checker error, found {:?}", other),
    }
}

#[test]
fn a_source_is_checked_as_a_main_module() {
    let module = check_source(&id(), &"echo 1 + 2".to_owned()).unwrap();
    assert_eq!(module.id, "mabel://stdin");
    assert_eq!(module.statements.len(), 1);
    assert!(matches!(module.statements[0], AnnotatedStatement::FunctionDecl(_)));
}

#[test]
fn clusters_are_taken_as_they_are_given() {
    let clusters =
        |texts: &[&str]| texts.iter().map(|text| classify(text.to_string())).collect::<Vec<Cluster>>();
    let tokens = Lexer::tokenize_clusters(id(), clusters(&["1", "+", "2"])).unwrap();
    assert_eq!(tokens.len(), 4);
    assert_eq!(tokens[3].kind, TokenKind::EndOfInput);
    // one cluster of two digits is one digit of a number
    let tokens = Lexer::tokenize_clusters(id(), clusters(&["12", "3"])).unwrap();
    assert_eq!(tokens.len(), 2);
    assert_eq!(tokens[0].lexeme, "123");
    assert_eq!(tokens[0].span.end.char_index, 2);
    assert_eq!(tokens[0].span.end.offset, 3);
    assert!(parse_clusters(&id(), clusters(&["1", "+", "2"])).is_ok());
    assert!(check_clusters(&id(), clusters(&["-", "1", "u"])).is_err());
    assert!(check_clusters(&id(), clusters(&[])).is_ok());
}

#[test]
fn clusters_are_classified_by_unicode() {
    let cluster = |text: &str, identifier_start: bool, identifier_continue: bool| Cluster {
        text: text.to_owned(),
        identifier_start,
        identifier_continue,
    };
    assert_eq!(classify("a".to_owned()), cluster("a", true, true));
    assert_eq!(classify("Z".to_owned()), cluster("Z", true, true));
    assert_eq!(classify("_".to_owned()), cluster("_", false, true));
    assert_eq!(classify("7".to_owned()), cluster("7", false, true));
    assert_eq!(classify("+".to_owned()), cluster("+", false, false));
    assert_eq!(classify("\u{e9}".to_owned()), cluster("\u{e9}", true, true));
    assert_eq!(classify("e\u{301}".to_owned()), cluster("e\u{301}", false, true));
    assert_eq!(classify("\u{25b3}".to_owned()), cluster("\u{25b3}", false, false));
    assert_eq!(classify("\r\n".to_owned()), cluster("\r\n", false, false));
}

#[test]
fn a_source_is_segmented_into_extended_grapheme_clusters() {
    let texts = |source: &str| {
        segment(source).into_iter().map(|cluster| cluster.text).collect::<Vec<String>>()
    };
    assert_eq!(texts(""), Vec::<String>::new());
    assert_eq!(texts("a\r\nb"), vec!["a", "\r\n", "b"]);
    assert_eq!(
        texts("a\u{310}e\u{301}o\u{308}\u{332}"),
        vec!["a\u{310}", "e\u{301}", "o\u{308}\u{332}"]
    );
    assert_eq!(
        texts("\u{1f1f7}\u{1f1fa}\u{1f1f8}\u{1f1f9}"),
        vec!["\u{1f1f7}\u{1f1fa}", "\u{1f1f8}\u{1f1f9}"]
    );
    assert_eq!(segment("a+")[0], classify("a".to_owned()));
}

#[test]
fn what_the_clusters_say_of_identifiers_is_taken_as_given() {
    let plus_as_letter =
        Cluster { text: "+".to_owned(), identifier_start: true, identifier_continue: false };
    let error = Lexer::tokenize_clusters(id(), vec![plus_as_letter]).unwrap_err();
    assert_eq!(error.code, LexerErrorCode::UnimplementedFeature);
    let letters = |flags: [bool; 4]| {
        "echo"
            .chars()
            .zip(flags)
            .map(|(c, identifier_continue)| Cluster {
                text: c.to_string(),
                identifier_start: true,
                identifier_continue,
            })
            .collect::<Vec<Cluster>>()
    };
    let tokens = Lexer::tokenize_clusters(id(), letters([true; 4])).unwrap();
    assert_eq!(tokens[0].kind, TokenKind::Echo);
    assert!(Lexer::tokenize_clusters(id(), letters([true, true, false, true])).is_err());
}

#[test]
fn test_new_error() {
    let error = Error::new(
        ErrorKind::IOError(
            std::io::Error::new(std::io::ErrorKind::NotFound, "File not found"),
            "file.txt".to_string(),
        ),
        ExitCode::IO_ERROR(),
    );
    assert_eq!(error.exit_code, ExitCode::IO_ERROR());
    assert!(matches!(error.kind, ErrorKind::IOError(_, ref path) if path == "file.txt"));

    let error = Error::new(ErrorKind::BasicError("test".to_string()), ExitCode::ERROR());
    assert!(matches!(error.kind, ErrorKind::BasicError(ref message) if message == "test"));
    assert_eq!(error.exit_code, ExitCode::ERROR());
}

#[test]
fn test_get_source_id() {
    let source =
        Source::from("1 + 32").with_origin(SourceOrigin::File(PathBuf::from("test.mbl")));
    let id = source.source_id().unwrap();
    assert!(id.starts_with("file:///"));
    assert!(id.ends_with("/test.mbl"));

    let source = Source::from("1 + 32").with_origin(SourceOrigin::Stdin);
    assert_eq!(source.source_id().unwrap(), "mabel://stdin");

    let source = Source::from("1 + 32").with_origin(SourceOrigin::String);
    assert_eq!(source.source_id().unwrap(), "mabel://stdin");

    let source = Source::from("1 + 32").with_origin(SourceOrigin::REPL);
    assert_eq!(source.source_id().unwrap(), "mabel://REPL");
}

#[test]
fn test_get_source_id_causing_error() {
    let source = Source::from("1 + 32").with_origin(SourceOrigin::File(PathBuf::from("")));
    let error = source.source_id().unwrap_err();
    assert_eq!(error.exit_code, ExitCode::IO_ERROR());
}

#[test]
fn test_get_file_url_without_absolute_path() {
    let url = path_to_file_url(PathBuf::from("test.mbl"));
    assert!(url.is_err());
    let error = url.unwrap_err();
    assert_eq!(error.exit_code, ExitCode::IO_ERROR());
    match error.kind {
        ErrorKind::IOError(error, path) => {
            assert_eq!(error.kind(), std::io::ErrorKind::InvalidInput);
            assert_eq!(error.to_string(), "utils-path-to-file-url.cannot-convert");
            assert_eq!(path, "test.mbl");
        }
        other => panic!("expected an I/O error, found {:?}", other),
    }
}

#[test]
fn test_get_file_url_with_absolute_path() {
    let path = PathBuf::from("/home/mabel/tests/scripts/test.mbl");
    let file_url = path_to_file_url(path.clone());
    assert!(file_url.is_ok());
    assert_eq!(file_url.unwrap(), format!("file://{}", path.to_string_lossy()));

    let url = path_to_file_url(PathBuf::from("/some where/test.mbl"));
    assert_eq!(url.unwrap(), "file:///some%20where/test.mbl");
}

#[test]
fn what_the_operating_system_answers_is_handed_on() {
    let asked = PathBuf::from("some/test.mbl");
    let answered = PathBuf::from("/work/some/test.mbl");
    assert_eq!(absolute_path_result(&asked, Ok(answered.clone())).unwrap(), answered);

    let failure = std::io::Error::new(std::io::ErrorKind::PermissionDenied, "no");
    let error = absolute_path_result(&asked, Err(failure)).unwrap_err();
    assert_eq!(error.exit_code, ExitCode::IO_ERROR());
    match error.kind {
        ErrorKind::IOError(error, path) => {
            assert_eq!(error.kind(), std::io::ErrorKind::PermissionDenied);
            assert_eq!(error.to_string(), "no");
            assert_eq!(path, "some/test.mbl");
        }
        other => panic!("expected an I/O error, found {:?}", other),
    }
}

#[test]
fn the_empty_path_has_no_absolute_form() {
    let error = get_absolute_path(PathBuf::new()).unwrap_err();
    assert_eq!(error.exit_code, ExitCode::IO_ERROR());
    assert!(matches!(error.kind, ErrorKind::IOError(_, ref path) if path.is_empty()));
    assert!(get_absolute_path(PathBuf::from(".")).is_ok());
    assert!(get_absolute_path(PathBuf::from("/")).is_ok());
}

#[test]
fn absolute_path_of_a_relative_path() {
    let path = get_absolute_path(PathBuf::from("test.mbl")).unwrap();
    assert!(path.is_absolute());
    assert!(path.ends_with("test.mbl"));
    let error = get_absolute_path(PathBuf::from("")).unwrap_err();
    assert_eq!(error.exit_code, ExitCode::IO_ERROR());
    assert!(matches!(error.kind, ErrorKind::IOError(_, ref path) if path.is_empty()));
}

#[test]
fn test_create_source_from_file_path() {
    let path = PathBuf::from("tests/scripts/test.mbl");
    let source =
        Source::from_read(SourceOrigin::File(path.clone()), Ok("echo \"Hello, World!\"".to_owned()));
    let source = source.unwrap();
    assert_eq!(source.code, "echo \"Hello, World!\"");
    assert_eq!(source.origin, SourceOrigin::File(path));
}

#[test]
fn test_create_source_from_file_path_causing_error() {
    let path = PathBuf::from("locales/thismightnotexist.mbl");
    let failure = std::io::Error::from(std::io::ErrorKind::NotFound);
    let error = Source::from_read(SourceOrigin::File(path), Err(failure)).unwrap_err();
    assert_eq!(error.exit_code, ExitCode::IO_ERROR());
    match error.kind {
        ErrorKind::IOError(error, path) => {
            assert_eq!(error.kind(), std::io::ErrorKind::NotFound);
            assert_eq!(path, "locales/thismightnotexist.mbl");
        }
        other => panic!("expected an I/O error, found {:?}", other),
    }
    let failure = std::io::Error::from(std::io::ErrorKind::InvalidData);
    let error = Source::from_read(SourceOrigin::Stdin, Err(failure)).unwrap_err();
    assert!(matches!(error.kind, ErrorKind::IOError(_, ref path) if path == "stdin"));
}

fn lines_of(text: &str) -> Vec<String> {
    std::io::BufRead::lines(std::io::Cursor::new(text)).map(|line| line.unwrap()).collect()
}

#[test]
fn test_read_content_from_buf_reader() {
    let content = read_content_from_lines(lines_of("echo \"Hello, World!\""));
    assert_eq!(content, "echo \"Hello, World!\"");
}

#[test]
fn lines_are_joined_without_their_breaks() {
    assert_eq!(read_content_from_lines(lines_of("1 +\n2\r\n")), "1 +2");
    assert_eq!(read_content_from_lines(vec![]), "");
    assert_eq!(read_content_from_lines(vec!["a".to_owned(), "".to_owned(), "b".to_owned()]), "ab");
}
