use lastfm_top::{
    decimal_string, parse_json, resolve_json, Client, JsonValue, Param, ParseFailure, Period,
    RequestError, TopArtists, TransportError,
};

const SUCCESS: &str = r##"{ "topartists": { "artist": [ {"@attr": {"rank": "1"}, "mbid": "abc-123", "playcount": "42", "name": "Some Band", "url": "https://example.org/some-band", "image": [{"size": "small", "#text": "http://img.example.org/s.png"}]} ], "@attr": {"page": "1", "total": "50", "user": "LAST.HQ", "perPage": "10", "totalPages": "5"} } }"##;

const NOT_FOUND: &str = r#"{"error": 6, "message": "User not found"}"#;

fn client() -> Client {
    Client::new(String::from("SECRET-REDACTED"))
}

fn value_of(query: &[(String, String)], key: &str) -> Vec<String> {
    query.iter().filter(|(k, _)| k == key).map(|(_, v)| v.clone()).collect()
}

/// A transport that checks the query it is handed and answers `body`.
fn answering(
    body: &'static str,
    expected: &'static [(&'static str, &'static str)],
) -> impl FnOnce(Vec<(String, String)>) -> Result<String, TransportError> {
    move |query: Vec<(String, String)>| {
        for (k, v) in expected {
            assert_eq!(value_of(&query, k), vec![v.to_string()]);
        }
        Ok(String::from(body))
    }
}

#[test]
fn test_top_artists() {
    let c = client();
    let top_artists = c
        .top_artists("LAST.HQ")
        .with_limit(1)
        .send(answering(SUCCESS, &[("method", "user.getTopArtists"), ("user", "LAST.HQ"), ("limit", "1")]));
    println!("{:#?}", top_artists);
    assert!(top_artists.is_ok());
}

#[test]
fn test_top_artists_overall() {
    let c = client();
    let top_artists_overall = c
        .top_artists("LAST.HQ")
        .with_period(Period::Overall)
        .with_limit(5)
        .send(answering(SUCCESS, &[("period", "overall"), ("limit", "5")]));
    println!("{:#?}", top_artists_overall);
    assert!(top_artists_overall.is_ok());
}

#[test]
fn test_top_artists_7_days() {
    let c = client();
    let top_artists_7_days = c
        .top_artists("LAST.HQ")
        .with_period(Period::SevenDays)
        .with_limit(5)
        .send(answering(SUCCESS, &[("period", "7day"), ("limit", "5")]));
    println!("{:#?}", top_artists_7_days);
    assert!(top_artists_7_days.is_ok());
}

#[test]
fn test_top_artists_1_month() {
    let c = client();
    let top_artists_1_month = c
        .top_artists("LAST.HQ")
        .with_period(Period::OneMonth)
        .with_limit(5)
        .send(answering(SUCCESS, &[("period", "1month"), ("limit", "5")]));
    println!("{:#?}", top_artists_1_month);
    assert!(top_artists_1_month.is_ok());
}

#[test]
fn test_top_artists_3_months() {
    let c = client();
    let top_artists_3_months = c
        .top_artists("LAST.HQ")
        .with_period(Period::ThreeMonths)
        .with_limit(5)
        .send(answering(SUCCESS, &[("period", "3month"), ("limit", "5")]));
    println!("{:#?}", top_artists_3_months);
    assert!(top_artists_3_months.is_ok());
}

#[test]
fn test_top_artists_6_months() {
    let c = client();
    let top_artists_6_months = c
        .top_artists("LAST.HQ")
        .with_period(Period::SixMonths)
        .with_limit(5)
        .send(answering(SUCCESS, &[("period", "6month"), ("limit", "5")]));
    println!("{:#?}", top_artists_6_months);
    assert!(top_artists_6_months.is_ok());
}

#[test]
fn test_top_artists_12_months() {
    let c = client();
    let top_artists_12_months = c
        .top_artists("LAST.HQ")
        .with_period(Period::OneYear)
        .with_limit(5)
        .send(answering(SUCCESS, &[("period", "12month"), ("limit", "5")]));
    println!("{:#?}", top_artists_12_months);
    assert!(top_artists_12_months.is_ok());
}

#[test]
fn period_tokens_are_fixed() {
    let all = [
        Period::Overall,
        Period::SevenDays,
        Period::OneMonth,
        Period::ThreeMonths,
        Period::SixMonths,
        Period::TwelveMonths,
        Period::OneYear,
    ];
    let allowed = ["overall", "7day", "1month", "3month", "6month", "12month"];
    for p in all.iter() {
        assert!(allowed.contains(&p.to_string().as_str()));
    }
    assert_eq!(Period::TwelveMonths.to_string(), Period::OneYear.to_string());
    assert_eq!(Period::TwelveMonths.to_string(), "12month");
}

#[test]
fn numbers_encode_in_decimal() {
    assert_eq!(decimal_string(0), "0");
    assert_eq!(decimal_string(9), "9");
    assert_eq!(decimal_string(10), "10");
    assert_eq!(decimal_string(1234), "1234");
    assert_eq!(decimal_string(usize::MAX), usize::MAX.to_string());
    let (k, v) = Param::Page(0).encode();
    assert_eq!((k.as_str(), v.as_str()), ("page", "0"));
    let (k, v) = Param::Period(Period::ThreeMonths).encode();
    assert_eq!((k.as_str(), v.as_str()), ("period", "3month"));
}

#[test]
fn success_keeps_entries_and_strings() {
    let t = TopArtists::from_body(SUCCESS).unwrap();
    assert_eq!(t.artists.len(), 1);
    assert_eq!(t.artists[0].name, "Some Band");
    assert_eq!(t.artists[0].attrs.rank, "1");
    assert_eq!(t.artists[0].mbid, "abc-123");
    assert_eq!(t.artists[0].playcount, "42");
    assert_eq!(t.artists[0].url, "https://example.org/some-band");
    assert_eq!(t.artists[0].images.len(), 1);
    assert_eq!(t.artists[0].images[0].image_size, "small");
    assert_eq!(t.artists[0].images[0].image_url, "http://img.example.org/s.png");
    assert_eq!(t.attrs.page, "1");
    assert_eq!(t.attrs.total, "50");
    assert_eq!(t.attrs.user, "LAST.HQ");
    assert_eq!(t.attrs.per_page, "10");
    assert_eq!(t.attrs.total_pages, "5");
}

#[test]
fn attribute_strings_are_not_normalised() {
    let body = r#"{"topartists": {"artist": [], "@attr": {"page": "01", "total": "1,000", "user": "x", "perPage": " 10", "totalPages": "0"}}}"#;
    let t = TopArtists::from_body(body).unwrap();
    assert_eq!(t.artists.len(), 0);
    assert_eq!(t.attrs.page, "01");
    assert_eq!(t.attrs.total, "1,000");
    assert_eq!(t.attrs.per_page, " 10");
}

#[test]
fn scenario_success_with_limit_one() {
    let c = client();
    let t = c
        .top_artists("LAST.HQ")
        .with_limit(1)
        .send(answering(SUCCESS, &[("method", "user.getTopArtists"), ("user", "LAST.HQ"), ("limit", "1")]))
        .unwrap();
    assert_eq!(t.artists.len(), 1);
    assert_eq!(t.artists[0].name, "Some Band");
    assert_eq!(t.attrs.total, "50");
}

#[test]
fn scenario_user_not_found() {
    let c = client();
    let r = c.top_artists("LAST.HQ").with_limit(1).send(answering(NOT_FOUND, &[("limit", "1")]));
    match r {
        Err(RequestError::Service(e)) => {
            assert_eq!(e.code, 6);
            assert_eq!(e.message, "User not found");
        }
        other => panic!("unexpected {:?}", other),
    }
}

#[test]
fn error_shape_wins_over_success_shape() {
    let body = r#"{"error": 10, "message": "Invalid API key", "topartists": {"artist": [], "@attr": {"page": "1", "total": "0", "user": "u", "perPage": "10", "totalPages": "0"}}}"#;
    match TopArtists::from_body(body) {
        Err(RequestError::Service(e)) => assert_eq!(e.code, 10),
        other => panic!("unexpected {:?}", other),
    }
}

#[test]
fn malformed_json_is_a_syntax_failure() {
    assert!(matches!(
        TopArtists::from_body("not json at all"),
        Err(RequestError::Parsing(ParseFailure::Syntax(_)))
    ));
    assert!(matches!(
        TopArtists::from_body(""),
        Err(RequestError::Parsing(ParseFailure::Syntax(_)))
    ));
}

#[test]
fn wrong_shapes_are_shape_failures() {
    for body in [
        "{}",
        "[]",
        r#"{"topartists": {}}"#,
        r#"{"topartists": null}"#,
        r#"{"error": 6.5, "message": "x"}"#,
        r#"{"error": 6}"#,
        r#"{"topartists": {"artist": [{"name": "x"}], "@attr": {"page": "1", "total": "1", "user": "u", "perPage": "1", "totalPages": "1"}}}"#,
        r#"{"topartists": {"artist": [], "@attr": {"page": 1, "total": "1", "user": "u", "perPage": "1", "totalPages": "1"}}}"#,
    ] {
        assert!(
            matches!(TopArtists::from_body(body), Err(RequestError::Parsing(ParseFailure::Shape))),
            "{}",
            body
        );
    }
}

#[test]
fn transport_failure_is_passed_on() {
    let c = client();
    let r = c.top_artists("LAST.HQ").send(|_q: Vec<(String, String)>| {
        Err(TransportError { message: String::from("connection refused") })
    });
    match r {
        Err(RequestError::Transport(e)) => assert_eq!(e.message, "connection refused"),
        other => panic!("unexpected {:?}", other),
    }
}

#[test]
fn later_value_of_a_key_wins() {
    let c = client();
    let query = c
        .top_artists("LAST.HQ")
        .with_limit(1)
        .with_period(Period::SevenDays)
        .with_limit(5)
        .into_query();
    assert_eq!(value_of(&query, "limit"), vec!["5"]);
    let keys: Vec<&str> = query.iter().map(|(k, _)| k.as_str()).collect();
    assert_eq!(keys, vec!["method", "user", "limit", "period", "api_key", "format"]);
    assert_eq!(value_of(&query, "api_key"), vec!["SECRET-REDACTED"]);
    assert_eq!(value_of(&query, "format"), vec!["json"]);
}

#[test]
fn pages_are_passed_through_unchecked() {
    let c = client();
    let query = c.top_artists("u").with_page(0).with_page(100000).into_query();
    assert_eq!(value_of(&query, "page"), vec!["100000"]);
}

#[test]
fn parsed_documents_resolve_alike() {
    let doc = parse_json(NOT_FOUND).unwrap();
    assert!(matches!(doc.get("error"), Some(JsonValue::Number(Some(6)))));
    assert!(matches!(resolve_json(&doc), Err(RequestError::Service(_))));
    let doc = parse_json(SUCCESS).unwrap();
    let inner = doc.get("topartists").unwrap();
    assert_eq!(TopArtists::decode(inner).unwrap().artists.len(), 1);
    assert!(matches!(parse_json("[1, 2.5, 99999999999999999999]").unwrap(), JsonValue::Array(ref xs)
        if matches!(xs[0], JsonValue::Number(Some(1))) && matches!(xs[1], JsonValue::Number(None)) && matches!(xs[2], JsonValue::Number(None))));
}
