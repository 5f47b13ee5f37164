use do_lang::driver::interpret_source;

fn printed(source: &str) -> Vec<String> {
    let report = interpret_source(source, 1_000_000);
    let messages: Vec<String> = report.diagnostics.iter().map(|d| d.message.clone()).collect();
    assert_eq!(messages, Vec::<String>::new(), "diagnostics for {:?}", source);
    assert_eq!(report.lowering, None);
    assert_eq!(report.failure, None);
    report.output
}

fn messages(source: &str) -> Vec<String> {
    let report = interpret_source(source, 1_000_000);
    assert!(report.output.is_empty());
    report.diagnostics.iter().map(|d| d.message.clone()).collect()
}

#[test]
fn a_sum_is_printed() {
    assert_eq!(printed("1 2 + print"), vec!["3"]);
}

#[test]
fn the_length_of_a_list_is_printed() {
    assert_eq!(printed("[1 2 3] len print"), vec!["3"]);
}

#[test]
fn map_adds_one_to_each_element() {
    assert_eq!(printed("[1 2 3] (1 +) map print"), vec!["[2 3 4]"]);
}

#[test]
fn filter_keeps_the_even_elements() {
    assert_eq!(printed("[1 2 3 4] (2 % 0 =) filter print"), vec!["[2 4]"]);
}

#[test]
fn fold_adds_the_elements_up() {
    assert_eq!(printed("[1 2 3 4] 0 (+) fold print"), vec!["10"]);
}

#[test]
fn a_function_squares_its_input() {
    assert_eq!(printed("fn sq ( dup * ) 5 sq print"), vec!["25"]);
}

#[test]
fn if_takes_the_branch_of_the_flag() {
    assert_eq!(printed("true if ( 1 print ) else ( 2 print )"), vec!["1"]);
    assert_eq!(printed("false if ( 1 print ) else ( 2 print )"), vec!["2"]);
}

#[test]
fn adding_a_bool_is_a_type_mismatch() {
    let found = messages("1 true +");
    println!("{:?}", found);
    assert_eq!(found.iter().filter(|m| m.as_str() == "Expected int but got bool").count(), 1);
}

#[test]
fn a_list_of_an_int_and_a_bool_is_rejected() {
    let found = messages("[1 true]");
    println!("{:?}", found);
    assert_eq!(found.iter().filter(|m| m.as_str() == "Expected bool but got int").count(), 1);
}

#[test]
fn a_value_left_on_the_stack_is_rejected() {
    let found = messages("1 2 +");
    assert_eq!(found, vec!["Type stack must be empty at the end of the program, but got int"]);
}

#[test]
fn a_branch_that_leaves_a_value_is_rejected() {
    let found = messages("if ( 1 )");
    assert_eq!(
        found,
        vec![
            "expected symmetrical function, but got [ -- int]",
            "Expected bool but stack was empty",
            "Type stack must be empty at the end of the program, but got int",
        ]
    );
    let found = messages("true if ( 1 )");
    println!("{:?}", found);
    assert_eq!(
        found.iter().filter(|m| m.as_str() == "expected symmetrical function, but got [ -- int]").count(),
        1
    );
}

#[test]
fn more_programs() {
    assert_eq!(printed("true print false print"), vec!["true", "false"]);
    assert_eq!(printed("[1 2 3] (print) foreach"), vec!["1", "2", "3"]);
    assert_eq!(printed("[1 2 3] dup len print print"), vec!["3", "[1 2 3]"]);
    assert_eq!(printed("3 4 swap - print"), vec!["1"]);
    assert_eq!(printed("1 2 over + + print"), vec!["4"]);
    assert_eq!(printed("1 2 3 rot print print print"), vec!["1", "3", "2"]);
    assert_eq!(printed("5 [x] ( x x * print )"), vec!["25"]);
    assert_eq!(printed("2 3 [a b] ( a b - print )"), vec!["18446744073709551615"]);
    assert_eq!(printed("// nothing\n7 print // seven"), vec!["7"]);
    assert_eq!(printed("1 2 < print 2 1 <= print 3 3 >= print 1 1 = print true ! print"),
        vec!["true", "false", "true", "true", "false"]);
    assert_eq!(printed("7 2 / print 7 2 % print 3 4 * print"), vec!["3", "1", "12"]);
    assert_eq!(printed("5 true if ( 1 + ) print"), vec!["6"]);
    assert_eq!(printed("5 false if ( 1 + ) print"), vec!["5"]);
    assert_eq!(printed("(7 print) do"), vec!["7"]);
    assert_eq!(printed("[] len print"), vec!["0"]);
}
