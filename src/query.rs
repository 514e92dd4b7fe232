use vstd::prelude::*;

verus! {

/// Earliest instant that a query may mention: 0001-01-01T00:00:00Z, in
/// milliseconds since the epoch.
pub const MIN_INSTANT_MILLIS: i64 = -62_135_596_800_000;

/// Latest instant that a query may mention: 9999-12-31T23:59:59.999Z.
pub const MAX_INSTANT_MILLIS: i64 = 253_402_300_799_999;

/// Longest lookback or lookahead that a profile may hold: ten years.
pub const MAX_SPAN_SECONDS: i64 = 315_360_000;

/// Timestamp pattern without fractional seconds.
pub const SECONDS_PATTERN: &'static str = "%Y-%m-%dT%H:%M:%S%:z";

/// Timestamp pattern with milliseconds.
pub const MILLIS_PATTERN: &'static str = "%Y-%m-%dT%H:%M:%S%.3f%:z";

/// The text of a UTC instant, given in milliseconds since the epoch, rendered
/// with a strftime pattern.
pub uninterp spec fn utc_format(unix_millis: int, pattern: Seq<char>) -> Seq<char>;

pub open spec fn instant_in_range(unix_millis: int) -> bool {
    MIN_INSTANT_MILLIS <= unix_millis <= MAX_INSTANT_MILLIS
}

pub open spec fn is_timestamp_pattern(pattern: Seq<char>) -> bool {
    pattern == SECONDS_PATTERN@ || pattern == MILLIS_PATTERN@
}

/// Relies on chrono's `DateTime::from_timestamp_millis`, which yields an
/// instant for every count of milliseconds inside its supported range, and on
/// `DateTime::format`, whose text is a function of the instant and the pattern.
#[verifier::external_body]
fn format_utc(unix_millis: i64, pattern: &str) -> (r: String)
    requires
        instant_in_range(unix_millis as int),
        is_timestamp_pattern(pattern@),
    ensures
        r@ == utc_format(unix_millis as int, pattern@),
{
    match chrono::DateTime::from_timestamp_millis(unix_millis) {
        Some(t) => t.format(pattern).to_string(),
        None => String::new(),
    }
}

/// How finely the window bounds are written.
#[derive(Clone, Copy, Debug, PartialEq, Eq, Structural)]
pub enum TimestampPrecision {
    Seconds,
    Milliseconds,
}

pub open spec fn spec_pattern(precision: TimestampPrecision) -> Seq<char> {
    match precision {
        TimestampPrecision::Seconds => SECONDS_PATTERN@,
        TimestampPrecision::Milliseconds => MILLIS_PATTERN@,
    }
}

/// The strftime pattern for a precision.
pub fn pattern(precision: TimestampPrecision) -> (r: &'static str)
    ensures
        r@ == spec_pattern(precision),
        is_timestamp_pattern(r@),
{
    match precision {
        TimestampPrecision::Seconds => SECONDS_PATTERN,
        TimestampPrecision::Milliseconds => MILLIS_PATTERN,
    }
}

/// How far back and ahead of now a query looks, and how its bounds are written.
#[derive(Clone, Copy, Debug, PartialEq, Eq, Structural)]
pub struct QueryProfile {
    pub lookback_seconds: i64,
    pub lookahead_seconds: i64,
    pub precision: TimestampPrecision,
}

impl QueryProfile {
    pub open spec fn wf(&self) -> bool {
        &&& 0 <= self.lookback_seconds <= MAX_SPAN_SECONDS
        &&& 0 <= self.lookahead_seconds <= MAX_SPAN_SECONDS
        &&& self.lookback_seconds + self.lookahead_seconds > 0
    }

    /// A profile, when the spans are within bounds and the window is not empty.
    pub fn new(lookback_seconds: i64, lookahead_seconds: i64, precision: TimestampPrecision) -> (r:
        Option<QueryProfile>)
        ensures
            r is Some <==> ({
                &&& 0 <= lookback_seconds <= MAX_SPAN_SECONDS
                &&& 0 <= lookahead_seconds <= MAX_SPAN_SECONDS
                &&& lookback_seconds + lookahead_seconds > 0
            }),
            r matches Some(p) ==> p.wf() && p.lookback_seconds == lookback_seconds
                && p.lookahead_seconds == lookahead_seconds && p.precision == precision,
    {
        if 0 <= lookback_seconds && lookback_seconds <= MAX_SPAN_SECONDS && 0 <= lookahead_seconds
            && lookahead_seconds <= MAX_SPAN_SECONDS && (lookback_seconds > 0 || lookahead_seconds
            > 0) {
            Some(QueryProfile { lookback_seconds, lookahead_seconds, precision })
        } else {
            None
        }
    }

    /// Four hours back, twelve ahead, whole seconds.
    pub fn departures() -> (r: QueryProfile)
        ensures
            r.wf(),
            r.lookback_seconds == 4 * 3600,
            r.lookahead_seconds == 12 * 3600,
            r.precision == TimestampPrecision::Seconds,
    {
        QueryProfile {
            lookback_seconds: 4 * 3600,
            lookahead_seconds: 12 * 3600,
            precision: TimestampPrecision::Seconds,
        }
    }

    /// One hour back, one ahead, with milliseconds.
    pub fn nearby() -> (r: QueryProfile)
        ensures
            r.wf(),
            r.lookback_seconds == 3600,
            r.lookahead_seconds == 3600,
            r.precision == TimestampPrecision::Milliseconds,
    {
        QueryProfile {
            lookback_seconds: 3600,
            lookahead_seconds: 3600,
            precision: TimestampPrecision::Milliseconds,
        }
    }
}

/// Whether now leaves room for a window of any allowed profile.
pub open spec fn now_in_range(now_millis: int) -> bool {
    MIN_INSTANT_MILLIS + MAX_SPAN_SECONDS * 1000 <= now_millis <= MAX_INSTANT_MILLIS
        - MAX_SPAN_SECONDS * 1000
}

/// Whether now leaves room for a window of any allowed profile.
pub fn is_supported_now(now_millis: i64) -> (r: bool)
    ensures
        r == now_in_range(now_millis as int),
{
    MIN_INSTANT_MILLIS + MAX_SPAN_SECONDS * 1000 <= now_millis && now_millis <= MAX_INSTANT_MILLIS
        - MAX_SPAN_SECONDS * 1000
}

pub open spec fn window_since(now_millis: int, profile: QueryProfile) -> int {
    now_millis - profile.lookback_seconds * 1000
}

pub open spec fn window_until(now_millis: int, profile: QueryProfile) -> int {
    now_millis + profile.lookahead_seconds * 1000
}

/// The window `(since, until)` around now, in milliseconds since the epoch.
pub fn query_window(now_millis: i64, profile: &QueryProfile) -> (r: (i64, i64))
    requires
        profile.wf(),
        now_in_range(now_millis as int),
    ensures
        r.0 == window_since(now_millis as int, *profile),
        r.1 == window_until(now_millis as int, *profile),
        r.0 < r.1,
        instant_in_range(r.0 as int),
        instant_in_range(r.1 as int),
{
    (now_millis - profile.lookback_seconds * 1000, now_millis + profile.lookahead_seconds * 1000)
}

/// Whatever the profile and the moment, the window's start precedes its end.
pub proof fn lemma_window_ordered(now_millis: int, profile: QueryProfile)
    requires
        profile.wf(),
    ensures
        window_since(now_millis, profile) < window_until(now_millis, profile),
{
}

/// What a query asks about: departures at a station, or one train.
#[derive(Clone, Debug)]
pub enum QueryTarget {
    Station(String),
    Train(String),
}

impl QueryTarget {
    /// The field that the identity predicate compares.
    pub open spec fn spec_field(&self) -> Seq<char> {
        match self {
            QueryTarget::Station(_) => "LocationSignature"@,
            QueryTarget::Train(_) => "AdvertisedTrainIdent"@,
        }
    }

    /// The value that the identity predicate compares with.
    pub open spec fn spec_value(&self) -> Seq<char> {
        match self {
            QueryTarget::Station(code) => code@,
            QueryTarget::Train(id) => id@,
        }
    }
}

pub const QUERY_LOGIN: &'static str = "<REQUEST>\n  <LOGIN authenticationkey='";

pub const QUERY_FILTER: &'static str = "' />\n  <QUERY objecttype='TrainAnnouncement' orderby='AdvertisedTimeAtLocation' sseurl='false' schemaversion='1.6'>\n    <FILTER>\n      <AND>\n        <NE name='Canceled' value='true' />\n        <EQ name='Advertised' value='true' />\n        <EQ name='ActivityType' value='Avgang' />\n        <EQ name='";

pub const QUERY_VALUE: &'static str = "' value='";

pub const QUERY_SINCE: &'static str = "' />\n        <GT name='AdvertisedTimeAtLocation' value='";

pub const QUERY_UNTIL: &'static str = "' />\n        <LT name='AdvertisedTimeAtLocation' value='";

pub const QUERY_TAIL: &'static str = "' />\n      </AND>\n    </FILTER>\n    <INCLUDE>AdvertisedTrainIdent</INCLUDE>\n    <INCLUDE>AdvertisedTimeAtLocation</INCLUDE>\n    <INCLUDE>LocationSignature</INCLUDE>\n    <INCLUDE>ProductInformation</INCLUDE>\n    <INCLUDE>TimeAtLocationWithSeconds</INCLUDE>\n    <INCLUDE>FromLocation</INCLUDE>\n    <INCLUDE>ToLocation</INCLUDE>\n    <INCLUDE>ViaToLocation</INCLUDE>\n  </QUERY>\n</REQUEST>\n";

/// The query document: login, the fixed predicates, one identity predicate,
/// the exclusive window bounds and the requested fields.
pub open spec fn query_document(
    credential: Seq<char>,
    field: Seq<char>,
    value: Seq<char>,
    since: Seq<char>,
    until: Seq<char>,
) -> Seq<char> {
    QUERY_LOGIN@ + credential + QUERY_FILTER@ + field + QUERY_VALUE@ + value + QUERY_SINCE@
        + since + QUERY_UNTIL@ + until + QUERY_TAIL@
}

/// The identity field's name for a target.
pub fn target_field(target: &QueryTarget) -> (r: &'static str)
    ensures
        r@ == target.spec_field(),
{
    match target {
        QueryTarget::Station(_) => "LocationSignature",
        QueryTarget::Train(_) => "AdvertisedTrainIdent",
    }
}

/// Writes the query document for already rendered window bounds.
pub fn render_query(credential: &str, target: &QueryTarget, since: &str, until: &str) -> (r:
    String)
    ensures
        r@ == query_document(credential@, target.spec_field(), target.spec_value(), since@, until@),
{
    let value: &str = match target {
        QueryTarget::Station(code) => code.as_str(),
        QueryTarget::Train(id) => id.as_str(),
    };
    let mut r = String::from_str(QUERY_LOGIN);
    r.append(credential);
    r.append(QUERY_FILTER);
    r.append(target_field(target));
    r.append(QUERY_VALUE);
    r.append(value);
    r.append(QUERY_SINCE);
    r.append(since);
    r.append(QUERY_UNTIL);
    r.append(until);
    r.append(QUERY_TAIL);
    r
}

/// Builds the query document for a target, with the window of `profile`
/// around `now_millis`.
pub fn build_query(
    credential: &str,
    target: &QueryTarget,
    now_millis: i64,
    profile: &QueryProfile,
) -> (r: String)
    requires
        profile.wf(),
        now_in_range(now_millis as int),
    ensures
        r@ == query_document(
            credential@,
            target.spec_field(),
            target.spec_value(),
            utc_format(window_since(now_millis as int, *profile), spec_pattern(profile.precision)),
            utc_format(window_until(now_millis as int, *profile), spec_pattern(profile.precision)),
        ),
{
    let (since, until) = query_window(now_millis, profile);
    let p = pattern(profile.precision);
    let since_text = format_utc(since, p);
    let until_text = format_utc(until, p);
    render_query(credential, target, since_text.as_str(), until_text.as_str())
}

} // verus!
