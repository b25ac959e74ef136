use shortlink::args::AddPlan;
use shortlink::args::plan_add_arg;
use shortlink::args::split_arg;
use shortlink::ident::is_valid;
use shortlink::outcome::ResultOrOffline;
use shortlink::protocol::HttpEvent;
use shortlink::protocol::HttpReply;
use shortlink::protocol::NotFound;
use shortlink::protocol::ProtocolViolation;
use shortlink::protocol::StridNotUnique;
use shortlink::protocol::TooShort;
use shortlink::protocol::classify_add;
use shortlink::protocol::classify_add_with_id;
use shortlink::protocol::classify_stats;
use shortlink::text::parse_decimal;

fn reply(status: u16, body: &str) -> HttpEvent {
    HttpEvent::Reply(HttpReply {
        status,
        body: body.to_string(),
    })
}

#[test]
fn add_mode_argument_without_plus_is_all_url() {
    let (url, strid) = split_arg("http://example.com/page");
    assert_eq!(url, "http://example.com/page");
    assert!(strid.is_none());
}

#[test]
fn add_mode_argument_splits_at_first_plus_only() {
    let (url, strid) = split_arg("http://a+b+c");
    assert_eq!(url, "http://a");
    assert_eq!(strid, Some("b+c"));
}

#[test]
fn add_mode_argument_edges() {
    let (url, strid) = split_arg("+abc");
    assert_eq!(url, "");
    assert_eq!(strid, Some("abc"));
    let (url, strid) = split_arg("a+");
    assert_eq!(url, "a");
    assert_eq!(strid, Some(""));
    let (url, strid) = split_arg("");
    assert_eq!(url, "");
    assert_eq!(strid, None);
}

#[test]
fn identifier_character_rule() {
    assert!(is_valid("abc-DEF_09"));
    assert!(is_valid(""));
    assert!(is_valid("A"));
    assert!(!is_valid("a b"));
    assert!(!is_valid("a/b"));
    assert!(!is_valid("a!"));
    assert!(!is_valid("caf\u{e9}"));
}

#[test]
fn invalid_identifier_is_rejected_before_any_request() {
    // The plan for an argument with an invalid identifier is a local
    // rejection; only the two submit plans are ever handed to the
    // transport.
    let plan = plan_add_arg("http://example.com+bad id");
    assert_eq!(
        plan,
        AddPlan::RejectInvalidId {
            strid: "bad id".to_string()
        }
    );
}

#[test]
fn valid_identifier_is_submitted() {
    let plan = plan_add_arg("http://example.com+mylink");
    assert_eq!(
        plan,
        AddPlan::SubmitWithId {
            url: "http://example.com".to_string(),
            strid: "mylink".to_string()
        }
    );
}

#[test]
fn no_identifier_is_plain_submit() {
    let plan = plan_add_arg("http://example.com");
    assert_eq!(
        plan,
        AddPlan::Submit {
            url: "http://example.com".to_string()
        }
    );
}

#[test]
fn add_414_is_too_short_rejection() {
    let r = classify_add(reply(414, "anything at all"));
    assert_eq!(r, Ok(ResultOrOffline::Rejected(TooShort)));
    let outcome = r.unwrap();
    assert!(outcome.is_err());
    assert!(!outcome.is_offline());
    assert!(outcome.continues_batch());
}

#[test]
fn add_with_id_409_is_strid_not_unique_and_batch_continues() {
    let r = classify_add_with_id(reply(409, ""));
    assert_eq!(r, Ok(ResultOrOffline::Rejected(StridNotUnique)));
    let outcome = r.unwrap();
    assert!(outcome.is_err());
    assert!(outcome.continues_batch());
}

#[test]
fn stats_404_is_not_found() {
    let r = classify_stats(reply(404, ""));
    assert_eq!(r, Ok(ResultOrOffline::Rejected(NotFound)));
}

#[test]
fn transport_failure_is_offline_and_stops_batch() {
    let r = classify_add(HttpEvent::TransportFailed);
    assert_eq!(r, Ok(ResultOrOffline::OfflineError));
    assert!(!r.unwrap().continues_batch());

    let r = classify_add_with_id(HttpEvent::TransportFailed);
    assert_eq!(r, Ok(ResultOrOffline::OfflineError));
    assert!(!r.unwrap().continues_batch());

    let r = classify_stats(HttpEvent::TransportFailed);
    assert_eq!(r, Ok(ResultOrOffline::OfflineError));
    assert!(!r.unwrap().continues_batch());
}

#[test]
fn add_success_round_trip() {
    let r = classify_add(reply(200, "42 abc"));
    assert_eq!(
        r,
        Ok(ResultOrOffline::Success((
            "42".to_string(),
            "abc".to_string()
        )))
    );
    let (numid, strid) = r.unwrap().unwrap();
    assert_eq!(numid, "42");
    assert_eq!(strid, "abc");
}

#[test]
fn add_with_id_conflict_round_trip() {
    let r = classify_add_with_id(reply(409, "mylink is taken"));
    assert_eq!(r, Ok(ResultOrOffline::Rejected(StridNotUnique)));
}

#[test]
fn stats_success_round_trip() {
    let r = classify_stats(reply(200, "7 http://example.com"));
    assert_eq!(
        r,
        Ok(ResultOrOffline::Success((
            7,
            "http://example.com".to_string()
        )))
    );
}

#[test]
fn stats_missing_round_trip() {
    let r = classify_stats(reply(404, "no such link"));
    assert_eq!(r, Ok(ResultOrOffline::Rejected(NotFound)));
}

#[test]
fn add_body_without_second_field_is_protocol_violation() {
    assert_eq!(classify_add(reply(200, "42")), Err(ProtocolViolation));
    assert_eq!(classify_add(reply(200, "")), Err(ProtocolViolation));
    assert_eq!(
        classify_add_with_id(reply(200, "nospace")),
        Err(ProtocolViolation)
    );
}

#[test]
fn add_body_with_empty_or_extra_fields() {
    // A trailing space carries a present, empty second field; a third
    // token is ignored. Neither is a missing field.
    assert_eq!(
        classify_add(reply(200, "42 ")),
        Ok(ResultOrOffline::Success(("42".to_string(), "".to_string())))
    );
    assert_eq!(
        classify_add(reply(200, "42 abc extra")),
        Ok(ResultOrOffline::Success((
            "42".to_string(),
            "abc".to_string()
        )))
    );
}

#[test]
fn stats_body_violations() {
    assert_eq!(classify_stats(reply(200, "7")), Err(ProtocolViolation));
    assert_eq!(classify_stats(reply(200, "")), Err(ProtocolViolation));
    assert_eq!(
        classify_stats(reply(200, "x http://example.com")),
        Err(ProtocolViolation)
    );
    assert_eq!(
        classify_stats(reply(200, " http://example.com")),
        Err(ProtocolViolation)
    );
    assert_eq!(
        classify_stats(reply(200, "18446744073709551616 http://example.com")),
        Err(ProtocolViolation)
    );
}

#[test]
fn stats_url_is_the_whole_remainder() {
    let r = classify_stats(reply(200, "3 http://example.com/a b"));
    assert_eq!(
        r,
        Ok(ResultOrOffline::Success((
            3,
            "http://example.com/a b".to_string()
        )))
    );
}

#[test]
fn decimal_parsing() {
    assert_eq!(parse_decimal("0"), Some(0));
    assert_eq!(parse_decimal("007"), Some(7));
    assert_eq!(parse_decimal("18446744073709551615"), Some(u64::MAX));
    assert_eq!(parse_decimal("18446744073709551616"), None);
    assert_eq!(parse_decimal(""), None);
    assert_eq!(parse_decimal("12x"), None);
    assert_eq!(parse_decimal("-1"), None);
}

#[test]
fn outcome_observers() {
    let ok: ResultOrOffline<u64, NotFound> = ResultOrOffline::Success(5);
    assert!(!ok.is_err());
    assert!(!ok.is_offline());
    assert!(ok.continues_batch());
    assert_eq!(ok.unwrap(), 5);

    let rejected: ResultOrOffline<u64, NotFound> = ResultOrOffline::Rejected(NotFound);
    assert!(rejected.is_err());
    assert!(!rejected.is_offline());
    assert!(rejected.continues_batch());

    let offline: ResultOrOffline<u64, NotFound> = ResultOrOffline::OfflineError;
    assert!(!offline.is_err());
    assert!(offline.is_offline());
    assert!(!offline.continues_batch());
}

#[test]
fn request_paths() {
    assert_eq!(shortlink::protocol::add_path(), "api/add");
    assert_eq!(
        shortlink::protocol::add_with_id_path("mylink"),
        "api/add/mylink"
    );
    assert_eq!(
        shortlink::protocol::stats_path("mylink"),
        "api/stats/mylink"
    );
}
