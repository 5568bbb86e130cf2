use cpvm_econet_linker::split_csv_line;

#[test]
fn test_split_csv_line_basic() {
    let line = "A,B,C";
    let f = split_csv_line(line);
    assert_eq!(f, vec!["A", "B", "C"]);
}

#[test]
fn test_split_csv_line_quotes() {
    let line = "A,\"B, with comma\",C";
    let f = split_csv_line(line);
    assert_eq!(f, vec!["A", "B, with comma", "C"]);
}

#[test]
fn test_split_csv_line_trailing_delimiter() {
    let f = split_csv_line("A,B,");
    assert_eq!(f, vec!["A", "B", ""]);
}

#[test]
fn test_split_csv_line_no_trailing_field_without_delimiter() {
    let f = split_csv_line("A,B");
    assert_eq!(f, vec!["A", "B"]);
}

#[test]
fn test_split_csv_line_empty_line() {
    let f = split_csv_line("");
    assert!(f.is_empty());
}

#[test]
fn test_split_csv_line_trims_whitespace() {
    let f = split_csv_line("  A  , \t B ,C  ");
    assert_eq!(f, vec!["A", "B", "C"]);
}

#[test]
fn test_split_csv_line_inner_empty_fields() {
    let f = split_csv_line("A,,C");
    assert_eq!(f, vec!["A", "", "C"]);
}

#[test]
fn test_split_csv_line_unbalanced_quote_absorbed() {
    let f = split_csv_line("\"A,B");
    assert_eq!(f, vec!["A,B"]);
}

#[test]
fn test_split_csv_line_adjacent_quotes_close_then_open() {
    let f = split_csv_line("\"A\"\"B\",C");
    assert_eq!(f, vec!["AB", "C"]);
}

#[test]
fn test_split_csv_line_quoted_comma_at_end() {
    let f = split_csv_line("A,\"B,\"");
    assert_eq!(f, vec!["A", "B,"]);
}
