use regex::{Regex, RegexBuilder};
use table_view::{ColumnsFilter, Row, RowsFilter};

fn strings(items: &[&str]) -> Vec<String> {
    items.iter().map(|s| s.to_string()).collect()
}

#[test]
fn column_pattern_matching_one_header() {
    let headers = strings(&["id", "name", "amount"]);
    let filter = ColumnsFilter::new(Regex::new("amount").unwrap(), &headers);
    assert_eq!(filter.filtered_headers(), &strings(&["amount"]));
    assert_eq!(filter.indices(), &vec![2]);
    assert_eq!(filter.num_filtered(), 1);
    assert_eq!(filter.num_original(), 3);
    assert!(!filter.disabled_because_no_match());
}

#[test]
fn column_pattern_matching_no_header_keeps_all_columns() {
    let headers = strings(&["id", "name", "amount"]);
    let filter = ColumnsFilter::new(Regex::new("zzz").unwrap(), &headers);
    assert!(filter.disabled_because_no_match());
    assert_eq!(filter.filtered_headers(), &headers);
    assert_eq!(filter.indices(), &vec![0, 1, 2]);
    assert_eq!(filter.num_filtered(), 3);
    assert_eq!(filter.num_original(), 3);
}

#[test]
fn column_pattern_keeps_matches_in_column_order() {
    let headers = strings(&["total_a", "name", "a_total", "b", "total"]);
    let filter = ColumnsFilter::new(Regex::new("total").unwrap(), &headers);
    assert_eq!(filter.indices(), &vec![0, 2, 4]);
    assert_eq!(filter.filtered_headers(), &strings(&["total_a", "a_total", "total"]));
    assert_eq!(filter.num_filtered(), 3);
    assert_eq!(filter.num_original(), 5);
    assert!(!filter.disabled_because_no_match());
}

#[test]
fn column_pattern_matching_every_header_is_not_disabled() {
    let headers = strings(&["a1", "a2"]);
    let filter = ColumnsFilter::new(Regex::new("^a").unwrap(), &headers);
    assert!(!filter.disabled_because_no_match());
    assert_eq!(filter.indices(), &vec![0, 1]);
    assert_eq!(filter.filtered_headers(), &headers);
}

#[test]
fn column_pattern_is_searched_anywhere_in_the_header() {
    let headers = strings(&["first name", "surname", "age"]);
    let filter = ColumnsFilter::new(Regex::new("name").unwrap(), &headers);
    assert_eq!(filter.indices(), &vec![0, 1]);
    let anchored = ColumnsFilter::new(Regex::new("^name$").unwrap(), &headers);
    assert!(anchored.disabled_because_no_match());
}

#[test]
fn column_pattern_with_flags_matches_as_compiled() {
    let headers = strings(&["ID", "Name", "amount"]);
    let exact = ColumnsFilter::new(Regex::new("name").unwrap(), &headers);
    assert!(exact.disabled_because_no_match());
    let relaxed = RegexBuilder::new("name").case_insensitive(true).build().unwrap();
    let filter = ColumnsFilter::new(relaxed, &headers);
    assert!(!filter.disabled_because_no_match());
    assert_eq!(filter.indices(), &vec![1]);
    assert_eq!(filter.filtered_headers(), &strings(&["Name"]));
}

#[test]
fn column_filter_over_no_headers_is_disabled_and_empty() {
    let headers: Vec<String> = Vec::new();
    let filter = ColumnsFilter::new(Regex::new("x").unwrap(), &headers);
    assert!(filter.disabled_because_no_match());
    assert_eq!(filter.num_filtered(), 0);
    assert_eq!(filter.num_original(), 0);
    assert!(filter.filtered_headers().is_empty());
}

#[test]
fn column_filter_hands_out_its_pattern() {
    let headers = strings(&["id", "name", "amount"]);
    let filter = ColumnsFilter::new(Regex::new("^am.*t$").unwrap(), &headers);
    let pattern = filter.pattern();
    assert_eq!(pattern.as_str(), "^am.*t$");
    assert!(pattern.is_match("amount"));
    assert!(!pattern.is_match("name"));
}

#[test]
fn column_filter_from_flags() {
    let headers = strings(&["id", "name", "amount"]);
    let pattern = Regex::new("unused").unwrap();
    let filter = ColumnsFilter::from_matches(pattern, &headers, &[true, false, true]);
    assert_eq!(filter.indices(), &vec![0, 2]);
    assert_eq!(filter.filtered_headers(), &strings(&["id", "amount"]));
    assert!(!filter.disabled_because_no_match());
    assert_eq!(filter.num_original(), 3);
}

#[test]
fn column_filter_from_no_flag_set_is_disabled() {
    let headers = strings(&["id", "name", "amount"]);
    let pattern = Regex::new("unused").unwrap();
    let filter = ColumnsFilter::from_matches(pattern, &headers, &[false, false, false]);
    assert!(filter.disabled_because_no_match());
    assert_eq!(filter.indices(), &vec![0, 1, 2]);
    assert_eq!(filter.filtered_headers(), &headers);
}

#[test]
fn column_filter_from_flags_of_another_length() {
    let headers = strings(&["id", "name", "amount"]);
    let short = ColumnsFilter::from_matches(Regex::new("u").unwrap(), &headers, &[false, true]);
    assert_eq!(short.indices(), &vec![1]);
    let long = ColumnsFilter::from_matches(
        Regex::new("u").unwrap(),
        &headers,
        &[false, false, true, true, true],
    );
    assert_eq!(long.indices(), &vec![2]);
    assert_eq!(long.filtered_headers(), &strings(&["amount"]));
    let none = ColumnsFilter::from_matches(Regex::new("u").unwrap(), &headers, &[]);
    assert!(none.disabled_because_no_match());
    assert_eq!(none.num_filtered(), 3);
}

#[test]
fn rows_filter_holds_what_it_was_given() {
    let filter = RowsFilter::new(vec![3, 8, 21], 40);
    assert_eq!(filter.indices(), &vec![3, 8, 21]);
    assert_eq!(filter.total(), 40);
}

#[test]
fn rows_filters_compare_by_their_indices_alone() {
    let one = RowsFilter::new(vec![3, 8, 21], 40);
    let other_total = RowsFilter::new(vec![3, 8, 21], 41);
    let other_rows = RowsFilter::new(vec![3, 8, 22], 40);
    let shorter = RowsFilter::new(vec![3, 8], 40);
    let empty = RowsFilter::new(vec![], 0);
    assert!(one.same_indices(&other_total));
    assert!(!one.same_indices(&other_rows));
    assert!(!one.same_indices(&shorter));
    assert!(!shorter.same_indices(&one));
    assert!(empty.same_indices(&RowsFilter::new(vec![], 9)));
    assert_ne!(one, other_total);
}

#[test]
fn row_subset_picks_fields_in_the_order_asked() {
    let row = Row { fields: strings(&["1", "ann", "9.50"]) };
    assert_eq!(row.subset(&[2]).fields, strings(&["9.50"]));
    assert_eq!(row.subset(&[0, 2]).fields, strings(&["1", "9.50"]));
    assert_eq!(row.subset(&[2, 0]).fields, strings(&["9.50", "1"]));
    assert_eq!(row.subset(&[1, 1]).fields, strings(&["ann", "ann"]));
    assert_eq!(row.subset(&[0, 1, 2]), row);
}

#[test]
fn row_subset_of_no_column_is_empty() {
    let row = Row { fields: strings(&["1", "ann", "9.50"]) };
    assert!(row.subset(&[]).fields.is_empty());
}

#[test]
fn row_subset_leaves_out_columns_the_row_lacks() {
    let short = Row { fields: strings(&["1", "ann"]) };
    assert_eq!(short.subset(&[0, 2]).fields, strings(&["1"]));
    assert_eq!(short.subset(&[1, 2, 3]).fields, strings(&["ann"]));
    assert!(short.subset(&[5]).fields.is_empty());
    let empty = Row { fields: Vec::new() };
    assert!(empty.subset(&[0]).fields.is_empty());
}
