use typed_regex::{Pattern, Regex};

#[test]
fn concat() {
    let pattern = Regex::compile("AB").unwrap();

    let res = pattern.compile_match("AB");
    assert!(res.is_ok());
    assert_eq!("AB", res.as_ref().unwrap().get_matched_string());

    let res = pattern.compile_match("AA");
    assert!(res.is_err());
}

#[test]
fn match_just_start() {
    let pattern = Regex::compile("AB").unwrap();

    let res = pattern.compile_match("ABCCCCCCCCCCCCCCCCCCC");
    assert!(res.is_ok());
    assert_eq!("AB", res.as_ref().unwrap().get_matched_string());
}

#[test]
fn match_too_long() {
    let pattern = Regex::compile("ABCCCCCCCCCCCCCCCCCCC").unwrap();

    let res = pattern.compile_match("AB");
    assert!(res.is_err());
}

#[test]
fn altern() {
    let pattern = Regex::compile("[AB]").unwrap();

    let res = pattern.compile_match("A");
    assert!(res.is_ok());
    assert_eq!("A", res.as_ref().unwrap().get_matched_string());

    let res = pattern.compile_match("B");
    assert!(res.is_ok());
    assert_eq!("B", res.as_ref().unwrap().get_matched_string());

    let res = pattern.compile_match("C");
    assert!(res.is_err());
}

#[test]
fn altern_and_concat() {
    let pattern = Regex::compile("C[AB]C").unwrap();

    let res = pattern.compile_match("CAC");
    assert!(res.is_ok());
    assert_eq!("CAC", res.as_ref().unwrap().get_matched_string());

    let res = pattern.compile_match("CBC");
    assert!(res.is_ok());
    assert_eq!("CBC", res.as_ref().unwrap().get_matched_string());

    let res = pattern.compile_match("CCC");
    assert!(res.is_err());
}

#[test]
fn first_group() {
    let pattern = Regex::compile("A(BC)(A)").unwrap();

    let res = pattern.compile_match("ABCA");
    assert!(res.is_ok());
    assert_eq!("ABCA", res.as_ref().unwrap().get_matched_string());
    assert_eq!("BC", res.as_ref().unwrap().find_group_1().get_matched_string());
    assert_eq!("BC", res.as_ref().unwrap().maybe_find_group_1().unwrap().get_matched_string());
}

#[test]
fn alterns_of_groups() {
    let pattern = Regex::compile("A[(BBB)(CCC)]A").unwrap();

    let res = pattern.compile_match("ABBBA");
    assert!(res.is_ok());
    assert_eq!("ABBBA", res.as_ref().unwrap().get_matched_string());
    assert_eq!("BBB", res.as_ref().unwrap().maybe_find_group_1().unwrap().get_matched_string());

    let res = pattern.compile_match("ACCCA");
    assert!(res.is_ok());
    assert_eq!("ACCCA", res.as_ref().unwrap().get_matched_string());
    assert!(res.as_ref().unwrap().maybe_find_group_1().is_none());
}

#[test]
fn groups_of_alterns() {
    let pattern = Regex::compile("A([BC][BC])A").unwrap();

    let res = pattern.compile_match("ABCA");
    assert!(res.is_ok());
    assert_eq!("ABCA", res.as_ref().unwrap().get_matched_string());
    assert_eq!("BC", res.as_ref().unwrap().maybe_find_group_1().unwrap().get_matched_string());
}
