use mandelbrot::{combine_parsed, parse_pair, split_pair};

#[test]
fn test_parse_pair() {
    assert_eq!(parse_pair::<f64>("0.5x1.0", 'x'), Some((0.5, 1.0)));
    assert_eq!(parse_pair::<f64>("0.5,1.0", 'x'), None);
    assert_eq!(parse_pair::<i32>("5x1", 'x'), Some((5, 1)));
    assert_eq!(parse_pair::<f64>("    ,      ", ','), None);
    assert_eq!(parse_pair::<f64>("1,2xy", ','), None);
}

#[test]
fn parse_pair_float_comma() {
    assert_eq!(parse_pair::<f64>("0.5,1.0", ','), Some((0.5, 1.0)));
    assert_eq!(parse_pair::<f64>("0.25,-1.222", ','), Some((0.25, -1.222)));
}

#[test]
fn parse_pair_empty_operand_fails() {
    assert_eq!(parse_pair::<f64>(",-1.222", ','), None);
    assert_eq!(parse_pair::<f64>("1.0,", ','), None);
    assert_eq!(parse_pair::<f64>("", ','), None);
    assert_eq!(parse_pair::<f64>(",", ','), None);
}

#[test]
fn parse_pair_uses_first_separator_only() {
    // The right side keeps every later separator, so it fails to parse as a
    // plain number and the whole pair fails.
    assert_eq!(parse_pair::<i32>("1,2,3", ','), None);
    assert_eq!(parse_pair::<i32>("10x20", 'x'), Some((10, 20)));
}

#[test]
fn parse_pair_signed_integers() {
    assert_eq!(parse_pair::<i32>("-3,4", ','), Some((-3, 4)));
    assert_eq!(parse_pair::<i32>("3.5,4", ','), None);
}

#[test]
fn split_pair_splits_at_first_occurrence() {
    assert_eq!(split_pair("a,b", ','), Some(("a", "b")));
    assert_eq!(split_pair("1,2,3", ','), Some(("1", "2,3")));
    assert_eq!(split_pair(",tail", ','), Some(("", "tail")));
    assert_eq!(split_pair("head,", ','), Some(("head", "")));
    assert_eq!(split_pair("no separator here", ','), None);
    assert_eq!(split_pair("", ','), None);
}

#[test]
fn combine_parsed_pairs_only_two_successes() {
    assert_eq!(combine_parsed(Some(1), Some(2)), Some((1, 2)));
    assert_eq!(combine_parsed::<i32>(Some(1), None), None);
    assert_eq!(combine_parsed::<i32>(None, Some(2)), None);
    assert_eq!(combine_parsed::<i32>(None, None), None);
}
