use do_lang::lexer::{Lexer, Span, Token, TokenKind};

fn lex(source: &str) -> (Vec<Token>, Vec<String>, usize) {
    let mut lexer = Lexer::new();
    let tokens = lexer.lex(source);
    let messages = lexer.diagnostics.iter().map(|d| d.message.clone()).collect();
    (tokens, messages, lexer.cursor)
}

fn kinds(source: &str) -> Vec<String> {
    let (tokens, messages, _) = lex(source);
    assert!(messages.is_empty(), "{:?}", messages);
    tokens.iter().map(|t| format!("{:?}", t.kind)).collect()
}

#[test]
fn new_lexer_starts_at_the_beginning() {
    let lexer = Lexer::new();
    assert_eq!(lexer.cursor, 0);
    assert!(lexer.diagnostics.is_empty());
}

#[test]
fn empty_source_has_no_tokens() {
    let (tokens, messages, cursor) = lex("");
    assert!(tokens.is_empty());
    assert!(messages.is_empty());
    assert_eq!(cursor, 0);
    let (tokens, _, cursor) = lex("  \t\r\n ");
    assert!(tokens.is_empty());
    assert_eq!(cursor, 6);
}

#[test]
fn symbols() {
    assert_eq!(
        kinds("+ - * / % ( ) = ! . [ ] < > <= >="),
        vec![
            "Plus", "Minus", "Star", "Slash", "Percent", "OpenParenthesis", "CloseParenthesis",
            "Equals", "Bang", "Dot", "OpenSquare", "CloseSquare", "OpenAngle", "CloseAngle",
            "OpenAngleEquals", "CloseAngleEquals",
        ]
    );
}

#[test]
fn keywords() {
    assert_eq!(
        kinds("dup over pop rot swap print concat push head tail do filter fold foreach len map fn if choice and or ???"),
        vec![
            "DupKeyword", "OverKeyword", "PopKeyword", "RotKeyword", "SwapKeyword", "PrintKeyword",
            "ConcatKeyword", "PushKeyword", "HeadKeyword", "TailKeyword", "DoKeyword",
            "FilterKeyword", "FoldKeyword", "ForeachKeyword", "LenKeyword", "MapKeyword",
            "FnKeyword", "IfKeyword", "ChoiceKeyword", "AndKeyword", "OrKeyword", "TripleQuestion",
        ]
    );
}

#[test]
fn literals_and_identifiers() {
    assert_eq!(
        kinds("true false 0 42 007 x _y square? dup2 else"),
        vec![
            "BoolLiteral(true)", "BoolLiteral(false)", "IntLiteral(0)", "IntLiteral(42)",
            "IntLiteral(7)", "Identifier(\"x\")", "Identifier(\"_y\")", "Identifier(\"square?\")",
            "Identifier(\"dup2\")", "Identifier(\"else\")",
        ]
    );
}

#[test]
fn largest_integer() {
    assert_eq!(kinds("9223372036854775807"), vec!["IntLiteral(9223372036854775807)"]);
}

#[test]
fn too_large_integer_is_an_error() {
    let (tokens, messages, _) = lex("1 9223372036854775808 2");
    assert_eq!(messages, vec!["Integer literal `9223372036854775808` is too large"]);
    assert_eq!(tokens.len(), 3);
    assert!(matches!(&tokens[1].kind, TokenKind::Error(text) if text == "9223372036854775808"));
    assert_eq!(tokens[1].span, Span { offset: 2, length: 19 });
    assert!(matches!(tokens[2].kind, TokenKind::IntLiteral(2)));
}

#[test]
fn tokens_need_no_blanks_between_them() {
    assert_eq!(
        kinds("1+2(x)[3]a<=b"),
        vec![
            "IntLiteral(1)", "Plus", "IntLiteral(2)", "OpenParenthesis", "Identifier(\"x\")",
            "CloseParenthesis", "OpenSquare", "IntLiteral(3)", "CloseSquare", "Identifier(\"a\")",
            "OpenAngleEquals", "Identifier(\"b\")",
        ]
    );
}

#[test]
fn comments_run_to_the_end_of_the_line() {
    assert_eq!(kinds("1 // 2 3\n4"), vec!["IntLiteral(1)", "IntLiteral(4)"]);
    assert_eq!(kinds("// only a comment"), Vec::<String>::new());
    assert_eq!(kinds("//\n//\n5"), vec!["IntLiteral(5)"]);
    assert_eq!(kinds("8 / 2"), vec!["IntLiteral(8)", "Slash", "IntLiteral(2)"]);
    assert_eq!(kinds("8 /"), vec!["IntLiteral(8)", "Slash"]);
}

#[test]
fn spans_give_offset_and_length() {
    let (tokens, _, cursor) = lex("  12 <= foo\n)");
    let spans: Vec<Span> = tokens.iter().map(|t| t.span).collect();
    assert_eq!(
        spans,
        vec![
            Span { offset: 2, length: 2 },
            Span { offset: 5, length: 2 },
            Span { offset: 8, length: 3 },
            Span { offset: 12, length: 1 },
        ]
    );
    assert_eq!(cursor, 13);
}

#[test]
fn unknown_character_is_an_error_token() {
    let (tokens, messages, _) = lex("1 # 2");
    assert_eq!(messages, vec!["Unexpected character `#`"]);
    assert_eq!(tokens.len(), 3);
    assert!(matches!(&tokens[1].kind, TokenKind::Error(text) if text == "#"));
    assert_eq!(tokens[1].span, Span { offset: 2, length: 1 });
}

#[test]
fn characters_outside_ascii_are_errors() {
    let (tokens, messages, _) = lex("é λ");
    assert_eq!(messages, vec!["Unexpected character `é`", "Unexpected character `λ`"]);
    assert_eq!(tokens.len(), 2);
    assert_eq!(tokens[1].span, Span { offset: 2, length: 1 });
}

#[test]
fn lexing_goes_on_from_the_cursor() {
    let mut lexer = Lexer::new();
    lexer.cursor = 2;
    let tokens = lexer.lex("1 2 3");
    assert_eq!(tokens.len(), 2);
    assert!(matches!(tokens[0].kind, TokenKind::IntLiteral(2)));
    assert_eq!(lexer.cursor, 5);
    let mut lexer = Lexer::new();
    lexer.cursor = 99;
    assert!(lexer.lex("1 2 3").is_empty());
    assert_eq!(lexer.cursor, 99);
}

#[test]
fn span_from_to_covers_both() {
    let start = Span { offset: 3, length: 1 };
    let end = Span { offset: 10, length: 4 };
    assert_eq!(Span::from_to(start, end), Span { offset: 3, length: 11 });
    assert_eq!(Span::from_to(start, start), start);
}
