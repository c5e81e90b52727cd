use vit_servicing_station::db::models::VoteOptions;

fn names(options: &VoteOptions) -> Vec<&str> {
    options.options.iter().map(|s| s.as_str()).collect()
}

#[test]
fn parse_splits_on_commas_in_order() {
    let options = VoteOptions::from_csv_string("blank,yes,no");
    assert_eq!(names(&options), vec!["blank", "yes", "no"]);
}

#[test]
fn parse_keeps_empty_fields() {
    assert_eq!(names(&VoteOptions::from_csv_string("")), vec![""]);
    assert_eq!(names(&VoteOptions::from_csv_string(",")), vec!["", ""]);
    assert_eq!(names(&VoteOptions::from_csv_string("a,,b,")), vec!["a", "", "b", ""]);
}

#[test]
fn parse_handles_non_ascii_names() {
    assert_eq!(names(&VoteOptions::from_csv_string("sí,não")), vec!["sí", "não"]);
}

#[test]
fn csv_field_round_trip() {
    for field in ["", "yes", "yes,no", ",,", "a,,b,", "é,ü"] {
        assert_eq!(VoteOptions::from_csv_string(field).as_csv_string(), field);
    }
}

#[test]
fn options_round_trip() {
    let options = VoteOptions { options: vec!["blank".to_string(), "".to_string(), "no".to_string()] };
    assert_eq!(VoteOptions::from_csv_string(&options.as_csv_string()), options);
}

#[test]
fn options_without_any_name_do_not_round_trip() {
    let options = VoteOptions { options: vec![] };
    assert_eq!(options.as_csv_string(), "");
    assert_eq!(VoteOptions::from_csv_string(&options.as_csv_string()).options, vec!["".to_string()]);
}
