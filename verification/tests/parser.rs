use do_lang::lexer::{Lexer, Span};
use do_lang::parser::{Op, OpKind, Parser};

fn parse(source: &str) -> (Vec<Op>, Vec<(String, Span)>) {
    let mut lexer = Lexer::new();
    let tokens = lexer.lex(source);
    assert!(lexer.diagnostics.is_empty());
    let mut parser = Parser::new();
    let ops = parser.parse(&tokens);
    let messages = parser.diagnostics.iter().map(|d| (d.message.clone(), d.span)).collect();
    (ops, messages)
}

fn shapes(source: &str) -> Vec<String> {
    let (ops, messages) = parse(source);
    assert!(messages.is_empty(), "{:?}", messages);
    ops.iter().map(shape).collect()
}

fn shape(op: &Op) -> String {
    fn all(ops: &[Op]) -> String {
        ops.iter().map(shape).collect::<Vec<_>>().join(" ")
    }
    match &op.kind {
        OpKind::PushList(ops) => format!("[{}]", all(ops)),
        OpKind::PushBlock(ops) => format!("({})", all(ops)),
        OpKind::DefineFunction { name, body } => format!("fn {} ({})", name, all(body)),
        OpKind::Identifier(name) => name.clone(),
        OpKind::If { body, else_body: None } => format!("if ({})", all(body)),
        OpKind::If { body, else_body: Some(other) } => {
            format!("if ({}) else ({})", all(body), all(other))
        }
        OpKind::Binding { bindings, body } => format!(
            "[{}] ({})",
            bindings.iter().map(|(n, _)| n.clone()).collect::<Vec<_>>().join(" "),
            all(body)
        ),
        other => format!("{:?}", other),
    }
}

#[test]
fn single_tokens() {
    assert_eq!(
        shapes("1 true + - * / % < <= > >= = ! . and or"),
        vec![
            "PushInt(1)", "PushBool(true)", "Plus", "Minus", "Multiply", "Divide", "Modulo",
            "LessThan", "LessThanEquals", "GreaterThan", "GreaterThanEquals", "Equals", "Not",
            "Identity", "And", "Or",
        ]
    );
    assert_eq!(
        shapes("dup over pop swap rot print concat push head tail do filter fold foreach len map ???"),
        vec![
            "Dup", "Over", "Pop", "Swap", "Rot", "Print", "Concat", "Push", "Head", "Tail", "Do",
            "Filter", "Fold", "Foreach", "Len", "MapEach", "DumpStack",
        ]
    );
}

#[test]
fn blocks_and_lists_nest() {
    assert_eq!(shapes("( 1 ( 2 ) )"), vec!["(PushInt(1) (PushInt(2)))"]);
    assert_eq!(shapes("[ 1 [ 2 3 ] ( + ) ]"), vec!["[PushInt(1) [PushInt(2) PushInt(3)] (Plus)]"]);
    assert_eq!(shapes("[] ()"), vec!["[]", "()"]);
}

#[test]
fn functions_ifs_and_bindings() {
    assert_eq!(shapes("fn sq ( dup * )"), vec!["fn sq (Dup Multiply)"]);
    assert_eq!(shapes("if ( 1 )"), vec!["if (PushInt(1))"]);
    assert_eq!(shapes("if ( 1 ) else ( 2 ) 3"), vec!["if (PushInt(1)) else (PushInt(2))", "PushInt(3)"]);
    assert_eq!(shapes("[a b] ( a b + )"), vec!["[a b] (a b Plus)"]);
    assert_eq!(shapes("[a b] 1"), vec!["[a b]", "PushInt(1)"]);
    assert_eq!(shapes("[a 1] ( 2 )"), vec!["[a PushInt(1)]", "(PushInt(2))"]);
}

#[test]
fn spans_cover_the_whole_operation() {
    let (ops, _) = parse("1 ( 2 3 ) [ 4 ] fn f ( 5 ) if ( 6 ) else ( 7 ) [x] ( x )");
    let spans: Vec<Span> = ops.iter().map(|op| op.span).collect();
    assert_eq!(
        spans,
        vec![
            Span { offset: 0, length: 1 },
            Span { offset: 2, length: 7 },
            Span { offset: 10, length: 5 },
            Span { offset: 19, length: 7 },
            Span { offset: 27, length: 19 },
            Span { offset: 47, length: 9 },
        ]
    );
    match &ops[5].kind {
        OpKind::Binding { bindings, .. } => {
            assert_eq!(bindings, &vec![("x".to_string(), Span { offset: 48, length: 1 })]);
        }
        other => panic!("{:?}", other),
    }
}

#[test]
fn stray_closing_brackets_are_reported() {
    let (ops, messages) = parse("1 ) 2");
    assert_eq!(ops.len(), 1);
    assert_eq!(messages, vec![("unexpected token ')'".to_string(), Span { offset: 2, length: 1 })]);
    let (ops, messages) = parse("]");
    assert!(ops.is_empty());
    assert_eq!(messages, vec![("unexpected token ']'".to_string(), Span { offset: 0, length: 1 })]);
}

#[test]
fn missing_closing_brackets_are_reported() {
    let (ops, messages) = parse("( 1 2");
    assert!(ops.is_empty());
    assert_eq!(messages, vec![("Block missing closing ')'".to_string(), Span { offset: 0, length: 5 })]);
    let (_, messages) = parse("(");
    assert_eq!(messages, vec![("Block missing closing ')'".to_string(), Span { offset: 0, length: 1 })]);
    let (_, messages) = parse("[ 1 2");
    assert_eq!(messages, vec![("List missing closing ']'".to_string(), Span { offset: 0, length: 5 })]);
}

#[test]
fn fn_needs_a_name_and_a_block() {
    let (_, messages) = parse("fn");
    assert_eq!(messages, vec![("Expected identifier but got nothing".to_string(), Span { offset: 0, length: 2 })]);
    let (_, messages) = parse("fn 1 ( )");
    assert_eq!(messages, vec![("Expected identifier".to_string(), Span { offset: 0, length: 2 })]);
    let (_, messages) = parse("fn f");
    assert_eq!(messages, vec![("Expected '(' but got nothing".to_string(), Span { offset: 0, length: 2 })]);
    let (_, messages) = parse("fn f 1");
    assert_eq!(messages, vec![("Expected '('".to_string(), Span { offset: 0, length: 2 })]);
}

#[test]
fn if_needs_blocks() {
    let (_, messages) = parse("if 1");
    assert_eq!(messages, vec![("Expected '('".to_string(), Span { offset: 0, length: 2 })]);
    let (_, messages) = parse("if ( 1 ) else");
    assert_eq!(messages, vec![("Expected '(' but got nothing".to_string(), Span { offset: 0, length: 2 })]);
    let (_, messages) = parse("if ( 1 ) else 2");
    assert_eq!(messages, vec![("Expected '('".to_string(), Span { offset: 0, length: 2 })]);
}

#[test]
fn only_values_stand_in_lists() {
    let (ops, messages) = parse("[ 1 + ]");
    assert!(ops.is_empty());
    assert_eq!(messages, vec![("Only values can stand in a list".to_string(), Span { offset: 4, length: 1 })]);
    let (_, messages) = parse("[ 1 dup 2 print ]");
    assert_eq!(messages, vec![("Only values can stand in a list".to_string(), Span { offset: 4, length: 3 })]);
}

#[test]
fn choice_is_not_an_operation() {
    let (ops, messages) = parse("1 choice 2");
    assert_eq!(ops.len(), 1);
    assert_eq!(messages, vec![("unexpected token 'choice'".to_string(), Span { offset: 2, length: 6 })]);
}

#[test]
fn parse_op_takes_one_operation() {
    let mut lexer = Lexer::new();
    let tokens = lexer.lex("1 ( 2 ) 3");
    let mut parser = Parser::new();
    assert_eq!(parser.cursor, 0);
    let first = parser.parse_op(&tokens).unwrap();
    assert!(matches!(first.kind, OpKind::PushInt(1)));
    assert_eq!(parser.cursor, 1);
    let second = parser.parse_op(&tokens).unwrap();
    assert!(matches!(second.kind, OpKind::PushBlock(_)));
    assert_eq!(parser.cursor, 4);
    assert!(parser.parse_op(&tokens).is_some());
    assert!(parser.parse_op(&tokens).is_none());
    assert_eq!(parser.cursor, 5);
    assert!(parser.diagnostics.is_empty());
}

#[test]
fn error_tokens_end_parsing_silently() {
    let mut lexer = Lexer::new();
    let tokens = lexer.lex("1 # 2");
    let mut parser = Parser::new();
    let ops = parser.parse(&tokens);
    assert_eq!(ops.len(), 1);
    assert!(parser.diagnostics.is_empty());
    assert_eq!(parser.cursor, 2);
}
