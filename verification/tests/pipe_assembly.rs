use logfwd::pipe::assemble_message;

#[test]
fn pipe_three_lines_one_message() {
    let lines = vec![String::from("a"), String::from("b"), String::from("c")];
    assert_eq!(assemble_message(&lines), "a\nb\nc\n");
}

#[test]
fn pipe_empty_input_empty_message() {
    let lines: Vec<String> = Vec::new();
    assert_eq!(assemble_message(&lines), "");
}

#[test]
fn pipe_empty_line_keeps_its_newline() {
    let lines = vec![String::from(""), String::from("tail")];
    assert_eq!(assemble_message(&lines), "\ntail\n");
}

#[test]
fn pipe_single_line() {
    let lines = vec![String::from("only")];
    assert_eq!(assemble_message(&lines), "only\n");
}
