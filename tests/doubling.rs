use prep_pipeline::doubling::{
    double_first, double_number, double_number_map, double_parsed, double_parsed_number, double_parsed_number_map,
    DoubleError,
};

#[test]
fn doubles_a_number() {
    assert_eq!(double_number("10"), Ok(20));
    assert_eq!(double_number_map("10"), Ok(20));
    assert_eq!(double_number("-7"), Ok(-14));
    assert_eq!(double_number("+5"), Ok(10));
    assert_eq!(double_number("007"), Ok(14));
    assert_eq!(double_number("1073741823"), Ok(2147483646));
}

#[test]
fn rejects_what_is_not_a_number() {
    assert!(double_number("t").is_err());
    assert!(double_number_map("t").is_err());
    assert!(double_number("").is_err());
    assert!(double_number("-").is_err());
    assert!(double_number(" 1").is_err());
    assert!(double_number("1.5").is_err());
    assert!(double_number("2147483648").is_err());
}

#[test]
fn doubles_the_first_entry() {
    assert_eq!(double_first(vec!["93", "18"]), Ok(186));
}

#[test]
fn empty_list_is_reported() {
    let empty: Vec<&str> = vec![];
    let r = double_first(empty);
    assert_eq!(r, Err(DoubleError::EmptyVec));
    assert_eq!(r.unwrap_err().message(), "please use a vector with at least one element");
}

#[test]
fn unparsable_first_entry_is_reported() {
    let r = double_first(vec!["tofu", "93", "18"]);
    match r {
        Err(DoubleError::Parse(e)) => assert_eq!(e, "tofu".parse::<i32>().unwrap_err()),
        other => panic!("unexpected {:?}", other),
    }
    let r = double_first(vec!["tofu"]);
    assert_eq!(r.unwrap_err().message(), "invalid digit found in string");
}

#[test]
fn parse_result_is_doubled_or_passed_on() {
    assert_eq!(double_parsed_number(Ok(21)), Ok(42));
    assert_eq!(double_parsed_number_map(Ok(-4)), Ok(-8));
    let e = "t".parse::<i32>().unwrap_err();
    assert_eq!(double_parsed_number(Err(e.clone())), Err(e.clone()));
    assert_eq!(double_parsed_number_map(Err(e.clone())), Err(e.clone()));
    assert_eq!(double_number("t"), Err(e.clone()));
    assert_eq!(double_number_map("t"), Err(e));
}

#[test]
fn parse_error_is_wrapped_unchanged() {
    assert_eq!(double_parsed(Ok(93)), Ok(186));
    let e = "".parse::<i32>().unwrap_err();
    assert_eq!(double_parsed(Err(e.clone())), Err(DoubleError::Parse(e.clone())));
    assert_eq!(double_first(vec!["", "1"]), Err(DoubleError::Parse(e)));
    assert_eq!(double_first(vec!["tofu"]), double_first(vec!["tofu", "93"]));
}
