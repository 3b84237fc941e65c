use question_store::error::{return_error, CustomError, Failure, InvalidPagination};
use question_store::types::pagination::{extract_pagination, paginate, Pagination};
use question_store::types::params::QueryParams;
use question_store::types::question::{Question, QuestionId};

fn params(pairs: &[(&str, &str)]) -> QueryParams {
    let mut p = QueryParams::new();
    for (k, v) in pairs {
        p.insert(k.to_string(), v.to_string());
    }
    p
}

fn window(start: &str, end: &str) -> Result<(usize, usize), CustomError> {
    extract_pagination(params(&[("start", start), ("end", end)])).map(|p| (p.start, p.end))
}

#[test]
fn extract_reads_both_numbers() {
    assert_eq!(window("12", "30").unwrap(), (12, 30));
}

#[test]
fn extract_accepts_leading_plus() {
    assert_eq!(window("+5", "7").unwrap(), (5, 7));
}

#[test]
fn extract_accepts_largest_usize() {
    let max = usize::MAX.to_string();
    assert_eq!(window("0", &max).unwrap(), (0, usize::MAX));
}

#[test]
fn extract_refuses_overflow() {
    assert!(matches!(
        window("0", "99999999999999999999999999"),
        Err(CustomError::ParseError(_))
    ));
}

#[test]
fn extract_refuses_negative_empty_and_spaced() {
    for bad in ["-1", "", " 1", "1 ", "+", "1_000", "abc"] {
        assert!(matches!(window(bad, "1"), Err(CustomError::ParseError(_))), "{bad}");
        assert!(matches!(window("1", bad), Err(CustomError::ParseError(_))), "{bad}");
    }
}

#[test]
fn extract_with_only_start_is_missing_parameters() {
    let r = extract_pagination(params(&[("start", "1")]));
    assert!(matches!(r, Err(CustomError::MissingParameters)));
}

#[test]
fn extract_with_only_end_is_missing_parameters() {
    let r = extract_pagination(params(&[("end", "1")]));
    assert!(matches!(r, Err(CustomError::MissingParameters)));
}

#[test]
fn extract_with_only_start_that_is_not_a_number_is_missing_parameters() {
    let r = extract_pagination(params(&[("start", "abc")]));
    assert!(matches!(r, Err(CustomError::MissingParameters)));
}

#[test]
fn extract_with_start_abc_is_parse_error() {
    let r = extract_pagination(params(&[("start", "abc"), ("end", "2")]));
    assert!(matches!(r, Err(CustomError::ParseError(_))));
}

#[test]
fn extract_ignores_other_parameters() {
    let r = extract_pagination(params(&[("start", "1"), ("end", "2"), ("x", "y")])).unwrap();
    assert_eq!((r.start, r.end), (1, 2));
}

#[test]
fn params_insert_replaces_earlier_value() {
    let mut p = QueryParams::new();
    assert!(p.is_empty());
    p.insert("start".to_string(), "1".to_string());
    p.insert("start".to_string(), "4".to_string());
    assert!(!p.is_empty());
    assert!(p.contains_key("start"));
    assert!(!p.contains_key("end"));
    assert_eq!(p.get("start").unwrap(), "4");
}

#[test]
fn paginate_full_and_empty_windows() {
    let v = vec![10, 20, 30];
    assert_eq!(paginate(v.clone(), &Pagination { start: 0, end: 3 }).unwrap(), v);
    assert_eq!(paginate(v.clone(), &Pagination { start: 2, end: 2 }).unwrap(), Vec::<i32>::new());
    assert_eq!(paginate(v.clone(), &Pagination { start: 1, end: 2 }).unwrap(), vec![20]);
    assert_eq!(paginate(v.clone(), &Pagination { start: 3, end: 3 }).unwrap(), Vec::<i32>::new());
}

#[test]
fn paginate_refuses_bad_windows() {
    let v = vec![10, 20, 30];
    assert!(matches!(paginate(v.clone(), &Pagination { start: 2, end: 1 }), Err(InvalidPagination)));
    assert!(matches!(paginate(v.clone(), &Pagination { start: 0, end: 4 }), Err(InvalidPagination)));
    assert!(matches!(paginate(Vec::<i32>::new(), &Pagination { start: 2, end: 2 }), Err(InvalidPagination)));
}

#[test]
fn every_failure_maps_to_its_status_and_text() {
    let parse = "x".parse::<usize>().unwrap_err();
    let cases: Vec<(Failure, u16, &str)> = vec![
        (Failure::Custom(CustomError::ParseError(parse)), 416, "Cannot parse parameter: invalid digit found in string"),
        (Failure::Custom(CustomError::MissingParameters), 400, "Missing paramters"),
        (Failure::Custom(CustomError::QuestionNotFound), 416, "Question not found"),
        (
            Failure::InvalidPagination(InvalidPagination),
            400,
            "Invalid pagination range: start cannot be greater than end or out of bounds",
        ),
        (Failure::CorsForbidden, 403, "CORS request forbidden"),
        (Failure::BodyDeserialize("bad body".to_string()), 422, "bad body"),
        (Failure::RouteNotFound, 404, "Route not found"),
    ];
    for (f, status, text) in cases {
        let r = return_error(&f);
        assert_eq!(r.status, status);
        assert_eq!(r.text, text);
    }
}

#[test]
fn empty_parse_error_message() {
    let e = CustomError::ParseError("".parse::<usize>().unwrap_err());
    assert_eq!(e.message(), "Cannot parse parameter: cannot parse integer from empty string");
}

#[test]
fn question_id_from_number() {
    assert_eq!(QuestionId::from(42u64), QuestionId("42".to_string()));
    assert_eq!(QuestionId::from(0u64).0, "0");
}

#[test]
fn duplicate_keeps_every_field() {
    let q = Question::new(
        QuestionId("1".to_string()),
        "t".to_string(),
        "c".to_string(),
        Some(vec!["a".to_string(), "b".to_string()]),
    );
    assert_eq!(q.duplicate(), q);
    assert_eq!(q.id.duplicate(), q.id);
}
