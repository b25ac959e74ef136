//! Classification of HTTP exchanges with the shortening service.
//!
//! The transport hands each operation either a completed reply (status and
//! plain-text body) or the fact that no exchange took place at all. The
//! functions here map that event to the three-way outcome the shell acts
//! on: success with the parsed fields, a typed rejection for the one status
//! each operation treats as a domain refusal, or `OfflineError`. A reply
//! whose body lacks an expected field is a protocol violation — the remote
//! side broke the wire contract — and is reported as such, never coerced
//! into empty fields.

use crate::outcome::ResultOrOffline;
use crate::outcome::spec_continues_batch;
use crate::text::all_ascii_digits;
use crate::text::decimal_value;
use crate::text::head_before;
use crate::text::parse_decimal;
use crate::text::rest_after;
use crate::text::split_at_first;
use vstd::prelude::*;
use vstd::string::StringExecFns;

verus! {

/// Status the service answers with when it judges a link too short to be
/// worth shortening. The service reuses 414 (URI Too Long) for this,
/// semantically inverted from the status's usual meaning; the quirk is
/// part of its wire contract and is reproduced, not corrected.
pub const STATUS_URI_TOO_LONG: u16 = 414;

/// Status the service answers with when a requested identifier is taken.
pub const STATUS_CONFLICT: u16 = 409;

/// Status the service answers with when an identifier has no record.
pub const STATUS_NOT_FOUND: u16 = 404;

/// One completed HTTP exchange, as the transport reports it.
pub struct HttpReply {
    pub status: u16,
    pub body: String,
}

/// What the transport produced for one request: a reply, or no completed
/// exchange at all (connection refused, resolution failure, timeout, any
/// transport-level fault).
pub enum HttpEvent {
    Reply(HttpReply),
    TransportFailed,
}

/// Rejection of `add`: the service judged the link too short to shorten.
#[derive(Debug, PartialEq, Eq, Structural)]
pub struct TooShort;

/// Rejection of `add_with_strid`: the requested identifier is taken.
#[derive(Debug, PartialEq, Eq, Structural)]
pub struct StridNotUnique;

/// Rejection of `stats`: the identifier has no record.
#[derive(Debug, PartialEq, Eq, Structural)]
pub struct NotFound;

/// The reply body lacks a field the wire contract promises: the remote
/// side and this client disagree about the protocol. Fatal for the one
/// call, distinct from both rejection and unreachability.
#[derive(Debug, PartialEq, Eq, Structural)]
pub struct ProtocolViolation;

/// Spec-level class of an add-family exchange.
pub enum PairClass {
    /// The transport completed no exchange.
    Offline,
    /// The service answered with the operation's rejection status.
    RejectedStatus,
    /// The service accepted; the body carried both fields.
    Parsed { first: Seq<char>, second: Seq<char> },
    /// The service accepted but the body broke the wire contract.
    Malformed,
}

/// Spec-level class of a stats exchange.
pub enum StatsClass {
    /// The transport completed no exchange.
    Offline,
    /// The service answered with the rejection status.
    RejectedStatus,
    /// The service accepted; the body carried a count and a URL.
    Parsed { clicks: u64, url: Seq<char> },
    /// The service accepted but the body broke the wire contract.
    Malformed,
}

/// The two fields of an add-family success body `<numericId> <stringId>`:
/// the text before the first space, and the following space-separated
/// token. `None` when the body holds no space at all, i.e. the second
/// field is missing.
pub open spec fn spec_parse_pair(body: Seq<char>) -> Option<(Seq<char>, Seq<char>)> {
    match rest_after(body, ' ') {
        Some(rest) => Some((head_before(body, ' '), head_before(rest, ' '))),
        None => None,
    }
}

/// The two fields of a stats success body `<clickCount> <url>`: the count
/// before the first space, and everything after that space as the URL.
/// `None` when the body holds no space at all.
pub open spec fn spec_parse_stats(body: Seq<char>) -> Option<(Seq<char>, Seq<char>)> {
    match rest_after(body, ' ') {
        Some(rest) => Some((head_before(body, ' '), rest)),
        None => None,
    }
}

/// A well-formed click-count field: non-empty, all digits, and its value
/// fits the machine word it is returned in.
pub open spec fn clicks_in_range(t: Seq<char>) -> bool {
    t.len() > 0 && all_ascii_digits(t) && decimal_value(t) <= u64::MAX
}

/// Classification shared by the two add operations, which differ only in
/// the one status each treats as its rejection.
pub open spec fn spec_classify_pair(status: u16, body: Seq<char>, reject_status: u16) -> PairClass {
    if status == reject_status {
        PairClass::RejectedStatus
    } else {
        match spec_parse_pair(body) {
            Some(p) => PairClass::Parsed { first: p.0, second: p.1 },
            None => PairClass::Malformed,
        }
    }
}

/// Classification of a stats exchange: 404 rejects; any other status is
/// success and the body must carry a count and a URL.
pub open spec fn spec_classify_stats(status: u16, body: Seq<char>) -> StatsClass {
    if status == STATUS_NOT_FOUND {
        StatsClass::RejectedStatus
    } else {
        match spec_parse_stats(body) {
            Some(p) => if clicks_in_range(p.0) {
                StatsClass::Parsed { clicks: decimal_value(p.0) as u64, url: p.1 }
            } else {
                StatsClass::Malformed
            },
            None => StatsClass::Malformed,
        }
    }
}

/// The class an add-family result falls in.
pub open spec fn pair_class_of<E>(
    r: Result<ResultOrOffline<(String, String), E>, ProtocolViolation>,
) -> PairClass {
    match r {
        Result::Ok(ResultOrOffline::Success(p)) => PairClass::Parsed { first: p.0@, second: p.1@ },
        Result::Ok(ResultOrOffline::Rejected(_)) => PairClass::RejectedStatus,
        Result::Ok(ResultOrOffline::OfflineError) => PairClass::Offline,
        Result::Err(_) => PairClass::Malformed,
    }
}

/// The class a stats result falls in.
pub open spec fn stats_class_of(
    r: Result<ResultOrOffline<(u64, String), NotFound>, ProtocolViolation>,
) -> StatsClass {
    match r {
        Result::Ok(ResultOrOffline::Success(p)) => StatsClass::Parsed { clicks: p.0, url: p.1@ },
        Result::Ok(ResultOrOffline::Rejected(_)) => StatsClass::RejectedStatus,
        Result::Ok(ResultOrOffline::OfflineError) => StatsClass::Offline,
        Result::Err(_) => StatsClass::Malformed,
    }
}

/// Request path of Add: the service shortens under an identifier of its
/// own choice.
pub fn add_path() -> (r: String)
    ensures
        r@ == "api/add"@,
{
    String::from_str("api/add")
}

/// Request path of AddWithId: the caller-chosen identifier stands as the
/// last path element.
pub fn add_with_id_path(strid: &str) -> (r: String)
    ensures
        r@ == "api/add/"@ + strid@,
{
    let mut r = String::from_str("api/add/");
    r.append(strid);
    r
}

/// Request path of Stats: the queried identifier stands as the last path
/// element.
pub fn stats_path(strid: &str) -> (r: String)
    ensures
        r@ == "api/stats/"@ + strid@,
{
    let mut r = String::from_str("api/stats/");
    r.append(strid);
    r
}

/// Reads an add-family success body `<numericId> <stringId>`. Fails exactly
/// when the second field is missing.
pub fn parse_pair(body: &str) -> (r: Result<(String, String), ProtocolViolation>)
    ensures
        match r {
            Ok(p) => spec_parse_pair(body@) == Some((p.0@, p.1@)),
            Err(_) => spec_parse_pair(body@) is None,
        },
{
    let (first, rest) = split_at_first(body, ' ');
    match rest {
        Some(rest) => {
            let (second, _trailing) = split_at_first(rest, ' ');
            Ok((first.to_owned(), second.to_owned()))
        },
        None => Err(ProtocolViolation),
    }
}

/// Reads a stats success body `<clickCount> <url>`. Fails exactly when the
/// body has no space, or the count field is not a number that fits.
pub fn parse_stats(body: &str) -> (r: Result<(u64, String), ProtocolViolation>)
    ensures
        match spec_parse_stats(body@) {
            Some(q) => {
                if clicks_in_range(q.0) {
                    r matches Ok(p) && p.0 as int == decimal_value(q.0) && p.1@ == q.1
                } else {
                    r is Err
                }
            },
            None => r is Err,
        },
{
    let (first, rest) = split_at_first(body, ' ');
    match rest {
        Some(url) => match parse_decimal(first) {
            Some(clicks) => Ok((clicks, url.to_owned())),
            None => Err(ProtocolViolation),
        },
        None => Err(ProtocolViolation),
    }
}

/// Add: the service shortened the URL and picked the identifier itself.
/// A transport fault is `OfflineError`; status 414 is the `TooShort`
/// rejection; any other status is success, its body carrying the numeric
/// id and the string id.
pub fn classify_add(event: HttpEvent) -> (r: Result<
    ResultOrOffline<(String, String), TooShort>,
    ProtocolViolation,
>)
    ensures
        event is TransportFailed ==> pair_class_of(r) == PairClass::Offline,
        event matches HttpEvent::Reply(rep) ==> pair_class_of(r) == spec_classify_pair(
            rep.status,
            rep.body@,
            STATUS_URI_TOO_LONG,
        ),
{
    match event {
        HttpEvent::TransportFailed => Ok(ResultOrOffline::OfflineError),
        HttpEvent::Reply(rep) => {
            if rep.status == STATUS_URI_TOO_LONG {
                Ok(ResultOrOffline::Rejected(TooShort))
            } else {
                match parse_pair(rep.body.as_str()) {
                    Ok(p) => Ok(ResultOrOffline::Success(p)),
                    Err(v) => Err(v),
                }
            }
        },
    }
}

/// AddWithId: the service shortened the URL under the caller-chosen
/// identifier. A transport fault is `OfflineError`; status 409 is the
/// `StridNotUnique` rejection; any other status is success. The caller
/// only sends identifiers that pass the local character rule, but the
/// classification itself does not depend on that.
pub fn classify_add_with_id(event: HttpEvent) -> (r: Result<
    ResultOrOffline<(String, String), StridNotUnique>,
    ProtocolViolation,
>)
    ensures
        event is TransportFailed ==> pair_class_of(r) == PairClass::Offline,
        event matches HttpEvent::Reply(rep) ==> pair_class_of(r) == spec_classify_pair(
            rep.status,
            rep.body@,
            STATUS_CONFLICT,
        ),
{
    match event {
        HttpEvent::TransportFailed => Ok(ResultOrOffline::OfflineError),
        HttpEvent::Reply(rep) => {
            if rep.status == STATUS_CONFLICT {
                Ok(ResultOrOffline::Rejected(StridNotUnique))
            } else {
                match parse_pair(rep.body.as_str()) {
                    Ok(p) => Ok(ResultOrOffline::Success(p)),
                    Err(v) => Err(v),
                }
            }
        },
    }
}

/// Stats: the service reported the click count and destination of one
/// identifier. A transport fault is `OfflineError`; status 404 is the
/// `NotFound` rejection; any other status is success.
pub fn classify_stats(event: HttpEvent) -> (r: Result<
    ResultOrOffline<(u64, String), NotFound>,
    ProtocolViolation,
>)
    ensures
        event is TransportFailed ==> stats_class_of(r) == StatsClass::Offline,
        event matches HttpEvent::Reply(rep) ==> stats_class_of(r) == spec_classify_stats(
            rep.status,
            rep.body@,
        ),
{
    match event {
        HttpEvent::TransportFailed => Ok(ResultOrOffline::OfflineError),
        HttpEvent::Reply(rep) => {
            if rep.status == STATUS_NOT_FOUND {
                Ok(ResultOrOffline::Rejected(NotFound))
            } else {
                match parse_stats(rep.body.as_str()) {
                    Ok(p) => Ok(ResultOrOffline::Success(p)),
                    Err(v) => Err(v),
                }
            }
        },
    }
}

/// Status 414 on Add classifies as the rejection — never as offline, never
/// as success — whatever the body holds, and the concrete outcome behind
/// that class is `Rejected(TooShort)`.
pub proof fn lemma_add_too_short(
    body: Seq<char>,
    r: Result<ResultOrOffline<(String, String), TooShort>, ProtocolViolation>,
)
    requires
        pair_class_of(r) == spec_classify_pair(STATUS_URI_TOO_LONG, body, STATUS_URI_TOO_LONG),
    ensures
        r == Result::<ResultOrOffline<(String, String), TooShort>, ProtocolViolation>::Ok(
            ResultOrOffline::Rejected(TooShort),
        ),
{
    match r {
        Result::Ok(ResultOrOffline::Rejected(e)) => {
            assert(e == TooShort);
        },
        _ => {
            assert(false);
        },
    }
}

/// Status 409 on AddWithId classifies as `Rejected(StridNotUnique)`,
/// whatever the body holds, and that outcome lets the batch go on to the
/// next argument.
pub proof fn lemma_add_with_id_conflict(
    body: Seq<char>,
    r: Result<ResultOrOffline<(String, String), StridNotUnique>, ProtocolViolation>,
)
    requires
        pair_class_of(r) == spec_classify_pair(STATUS_CONFLICT, body, STATUS_CONFLICT),
    ensures
        r == Result::<ResultOrOffline<(String, String), StridNotUnique>, ProtocolViolation>::Ok(
            ResultOrOffline::Rejected(StridNotUnique),
        ),
        spec_continues_batch(r->Ok_0),
{
    match r {
        Result::Ok(ResultOrOffline::Rejected(e)) => {
            assert(e == StridNotUnique);
        },
        _ => {
            assert(false);
        },
    }
}

/// Status 404 on Stats classifies as `Rejected(NotFound)`, whatever the
/// body holds.
pub proof fn lemma_stats_not_found(
    body: Seq<char>,
    r: Result<ResultOrOffline<(u64, String), NotFound>, ProtocolViolation>,
)
    requires
        stats_class_of(r) == spec_classify_stats(STATUS_NOT_FOUND, body),
    ensures
        r == Result::<ResultOrOffline<(u64, String), NotFound>, ProtocolViolation>::Ok(
            ResultOrOffline::Rejected(NotFound),
        ),
{
    match r {
        Result::Ok(ResultOrOffline::Rejected(e)) => {
            assert(e == NotFound);
        },
        _ => {
            assert(false);
        },
    }
}

/// A transport fault classifies as `OfflineError` on the add operations,
/// and that outcome stops the batch.
pub proof fn lemma_pair_offline_stops_batch<E>(
    r: Result<ResultOrOffline<(String, String), E>, ProtocolViolation>,
)
    requires
        pair_class_of(r) == PairClass::Offline,
    ensures
        r is Ok,
        r->Ok_0 is OfflineError,
        !spec_continues_batch(r->Ok_0),
{
}

/// A transport fault classifies as `OfflineError` on Stats, and that
/// outcome stops the batch.
pub proof fn lemma_stats_offline_stops_batch(
    r: Result<ResultOrOffline<(u64, String), NotFound>, ProtocolViolation>,
)
    requires
        stats_class_of(r) == StatsClass::Offline,
    ensures
        r is Ok,
        r->Ok_0 is OfflineError,
        !spec_continues_batch(r->Ok_0),
{
}

} // verus!
