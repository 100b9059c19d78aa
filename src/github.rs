use vstd::prelude::*;

verus! {

/// Wait between polls, in seconds, when the server suggests none.
pub const DEFAULT_POLL_SECS: u64 = 20;

/// Endpoint that lists the account's unread notifications.
pub const NOTIFICATIONS_URL: &'static str = "https://api.github.com/notifications";

/// Value of the `User-Agent` header sent with every poll.
pub const CLIENT_ID: &'static str = "nanoleaf_notifier";

/// Value of the `Accept` header sent with every poll.
pub const ACCEPT_JSON: &'static str = "application/json";

/// Why a received response could not be turned into an outcome.
#[derive(PartialEq, Eq, Structural, Clone, Copy, Debug)]
pub enum ProtocolError {
    /// The `X-Poll-Interval` value is not a count of seconds.
    MalformedInterval,
    /// A success body that is not a JSON document.
    InvalidJson,
    /// A success body that is JSON but not an array.
    UnsupportedPayload,
}

/// Failure of one poll.
#[derive(PartialEq, Eq, Structural, Clone, Copy, Debug)]
pub enum PollError {
    /// The request could not be sent or the response not received.
    Transport,
    /// The response broke the endpoint's contract.
    Protocol(ProtocolError),
}

/// What one successful poll yields.
#[derive(PartialEq, Eq, Structural, Clone, Copy, Debug)]
pub struct PollOutcome {
    pub item_count: usize,
    pub next_interval_secs: u64,
}

/// Top-level shape of a response body read as JSON.
#[derive(PartialEq, Eq, Structural, Clone, Copy, Debug)]
pub enum BodyShape {
    /// Not a JSON document.
    NotJson,
    /// A JSON array with this many elements.
    Array(usize),
    /// A JSON document of another kind (object, string, number, ...).
    Other,
}

/// What a response carried that the poll logic reads.
pub struct NotificationResponse {
    pub status: u16,
    /// Raw `ETag` header, if present.
    pub etag: Option<Vec<u8>>,
    /// Raw `X-Poll-Interval` header, if present.
    pub poll_interval: Option<Vec<u8>>,
    pub body: Vec<u8>,
}

/// The request to issue for the next poll.
pub struct NotificationRequest {
    pub url: String,
    /// Credential sent as `Authorization: Bearer <token>`.
    pub bearer_token: String,
    pub user_agent: String,
    pub accept: String,
    /// Value for `If-None-Match`, when a validator is known.
    pub if_none_match: Option<Vec<u8>>,
}

/// The client's state, as a mathematical value.
pub struct ClientView {
    pub api_key: Seq<char>,
    pub validator: Option<Seq<u8>>,
    pub suggested_interval: Option<Seq<u8>>,
}

/// One conditional-GET relationship with the notifications endpoint.
pub struct GithubClient {
    api_key: String,
    last_etag: Option<Vec<u8>>,
    poll_interval: Option<Vec<u8>>,
}

/// Raw header value as a byte sequence.
pub open spec fn header_view(h: Option<Vec<u8>>) -> Option<Seq<u8>> {
    match h {
        Some(v) => Some(v@),
        None => None,
    }
}

/// A stored header is replaced by a received one, and kept when none came.
pub open spec fn keep_or_replace(stored: Option<Seq<u8>>, received: Option<Seq<u8>>) -> Option<
    Seq<u8>,
> {
    match received {
        Some(v) => Some(v),
        None => stored,
    }
}

/// State after a response with these headers.
pub open spec fn absorb(
    v: ClientView,
    etag: Option<Seq<u8>>,
    interval: Option<Seq<u8>>,
) -> ClientView {
    ClientView {
        api_key: v.api_key,
        validator: keep_or_replace(v.validator, etag),
        suggested_interval: keep_or_replace(v.suggested_interval, interval),
    }
}

/// The `If-None-Match` value that a client in state `v` sends.
pub open spec fn conditional_header(v: ClientView) -> Option<Seq<u8>> {
    v.validator
}

pub open spec fn is_success(status: u16) -> bool {
    200 <= status <= 299
}

pub open spec fn is_ascii_digit(b: u8) -> bool {
    48 <= b <= 57
}

/// Value of a string of decimal digits.
pub open spec fn digits_value(s: Seq<u8>) -> nat
    decreases s.len(),
{
    if s.len() == 0 {
        0
    } else {
        digits_value(s.drop_last()) * 10 + (s.last() - 48) as nat
    }
}

/// A count of seconds: one or more ASCII digits whose value fits in `u64`.
pub open spec fn seconds_of(s: Seq<u8>) -> Option<u64> {
    if s.len() > 0 && (forall|i: int| 0 <= i < s.len() ==> is_ascii_digit(#[trigger] s[i]))
        && digits_value(s) <= u64::MAX {
        Some(digits_value(s) as u64)
    } else {
        None
    }
}

/// Wait before the next poll, from the stored suggestion.
pub open spec fn interval_result(stored: Option<Seq<u8>>) -> Result<u64, PollError> {
    match stored {
        None => Ok(DEFAULT_POLL_SECS),
        Some(raw) => match seconds_of(raw) {
            Some(n) => Ok(n),
            None => Err(PollError::Protocol(ProtocolError::MalformedInterval)),
        },
    }
}

/// Item count carried by a success body of the given shape.
pub open spec fn count_result(shape: BodyShape) -> Result<usize, PollError> {
    match shape {
        BodyShape::Array(n) => Ok(n),
        BodyShape::NotJson => Err(PollError::Protocol(ProtocolError::InvalidJson)),
        BodyShape::Other => Err(PollError::Protocol(ProtocolError::UnsupportedPayload)),
    }
}

/// What JSON reading tells of a body: `None` when it is no JSON document,
/// `Some(None)` for a document that is not an array, `Some(Some(n))` for an
/// array of `n` elements.
pub uninterp spec fn json_array_len(body: Seq<u8>) -> Option<Option<nat>>;

/// Shape that JSON reading finds in `body`.
pub open spec fn shape_of(body: Seq<u8>) -> BodyShape {
    match json_array_len(body) {
        None => BodyShape::NotJson,
        Some(None) => BodyShape::Other,
        Some(Some(n)) => BodyShape::Array(n as usize),
    }
}

/// Outcome of a poll whose response had `status` and `body`, for a client
/// whose state already holds that response's headers.
pub open spec fn poll_result(v: ClientView, status: u16, body: Seq<u8>) -> Result<
    PollOutcome,
    PollError,
> {
    match interval_result(v.suggested_interval) {
        Err(e) => Err(e),
        Ok(secs) => if !is_success(status) {
            Ok(PollOutcome { item_count: 0, next_interval_secs: secs })
        } else {
            match count_result(shape_of(body)) {
                Err(e) => Err(e),
                Ok(n) => Ok(PollOutcome { item_count: n, next_interval_secs: secs }),
            }
        },
    }
}

/// A validator received in a response is what the next request presents as
/// `If-None-Match`, whatever the client held before.
pub proof fn lemma_validator_propagates(
    v: ClientView,
    etag: Seq<u8>,
    interval: Option<Seq<u8>>,
)
    ensures
        conditional_header(absorb(v, Some(etag), interval)) == Some(etag),
{
}

/// A response without `ETag` leaves the validator in use: the next request
/// presents the same `If-None-Match` as before it.
pub proof fn lemma_validator_persists(v: ClientView, interval: Option<Seq<u8>>)
    ensures
        conditional_header(absorb(v, None, interval)) == conditional_header(v),
{
}

/// A non-success response (such as 304) yields no items, and its body has no
/// bearing on the outcome.
pub proof fn lemma_non_success_ignores_body(
    v: ClientView,
    status: u16,
    body1: Seq<u8>,
    body2: Seq<u8>,
)
    requires
        !is_success(status),
    ensures
        poll_result(v, status, body1) == poll_result(v, status, body2),
        poll_result(v, status, body1) is Ok ==> poll_result(v, status, body1)->Ok_0.item_count == 0,
{
}

/// With no interval ever suggested, the wait before the next poll is the default.
pub proof fn lemma_interval_fallback(v: ClientView, status: u16, body: Seq<u8>)
    requires
        v.suggested_interval is None,
    ensures
        poll_result(v, status, body) is Ok ==> poll_result(v, status, body)->Ok_0.next_interval_secs
            == DEFAULT_POLL_SECS,
{
}

/// A suggested interval that is not a count of seconds makes the poll fail
/// with a protocol error, never with a defaulted interval.
pub proof fn lemma_malformed_interval_fails(v: ClientView, status: u16, body: Seq<u8>)
    requires
        v.suggested_interval is Some,
        seconds_of(v.suggested_interval->Some_0) is None,
    ensures
        poll_result(v, status, body) == Err::<PollOutcome, PollError>(
            PollError::Protocol(ProtocolError::MalformedInterval),
        ),
{
}

/// Relies on serde_json::from_slice into a serde_json::Value: it reads the
/// body as one JSON document, and the result depends on the bytes alone.
#[verifier::external_body]
fn decode_body(body: &[u8]) -> (r: BodyShape)
    ensures
        r == shape_of(body@),
        r is Array ==> json_array_len(body@) == Some(Some(r->Array_0 as nat)),
{
    match serde_json::from_slice::<serde_json::Value>(body) {
        Ok(serde_json::Value::Array(items)) => BodyShape::Array(items.len()),
        Ok(_) => BodyShape::Other,
        Err(_) => BodyShape::NotJson,
    }
}

proof fn lemma_digits_prefix_grows(s: Seq<u8>, j: int, k: int)
    requires
        0 <= j <= k <= s.len(),
        forall|i: int| 0 <= i < s.len() ==> is_ascii_digit(#[trigger] s[i]),
    ensures
        digits_value(s.subrange(0, j)) <= digits_value(s.subrange(0, k)),
    decreases k - j,
{
    if j < k {
        lemma_digits_prefix_grows(s, j, k - 1);
        assert(s.subrange(0, k).drop_last() =~= s.subrange(0, k - 1));
        assert(is_ascii_digit(s[k - 1]));
    }
}

/// Reads a suggested interval: one or more ASCII digits, a value that fits in `u64`.
pub fn parse_interval_secs(s: &[u8]) -> (r: Option<u64>)
    ensures
        r == seconds_of(s@),
{
    if s.len() == 0 {
        return None;
    }
    let mut acc: u64 = 0;
    let mut i: usize = 0;
    while i < s.len()
        invariant
            0 <= i <= s@.len(),
            forall|k: int| 0 <= k < i ==> is_ascii_digit(#[trigger] s@[k]),
            acc as nat == digits_value(s@.subrange(0, i as int)),
        decreases s.len() - i,
    {
        let b = s[i];
        if b < 48 || b > 57 {
            return None;
        }
        let d: u64 = (b - 48) as u64;
        assert(s@.subrange(0, i + 1).drop_last() =~= s@.subrange(0, i as int));
        if acc > (u64::MAX - d) / 10 {
            proof {
                assert(digits_value(s@.subrange(0, i + 1)) > u64::MAX) by (nonlinear_arith)
                    requires
                        digits_value(s@.subrange(0, i + 1)) == acc * 10 + d,
                        acc > (u64::MAX - d) / 10,
                        d <= 9,
                ;
                if forall|k: int| 0 <= k < s@.len() ==> is_ascii_digit(#[trigger] s@[k]) {
                    lemma_digits_prefix_grows(s@, i + 1, s@.len() as int);
                    assert(s@.subrange(0, s@.len() as int) =~= s@);
                }
            }
            return None;
        }
        acc = acc * 10 + d;
        i = i + 1;
    }
    assert(s@.subrange(0, s@.len() as int) =~= s@);
    Some(acc)
}

/// Wait before the next poll, from a stored suggestion: the default when there
/// is none, a protocol error when it is not a count of seconds.
pub fn interval_from(stored: &Option<Vec<u8>>) -> (r: Result<u64, PollError>)
    ensures
        r == interval_result(header_view(*stored)),
{
    match stored {
        None => Ok(DEFAULT_POLL_SECS),
        Some(raw) => match parse_interval_secs(raw.as_slice()) {
            Some(n) => Ok(n),
            None => Err(PollError::Protocol(ProtocolError::MalformedInterval)),
        },
    }
}

/// Item count of a success body of the given shape: only an array is accepted.
pub fn count_from(shape: BodyShape) -> (r: Result<usize, PollError>)
    ensures
        r == count_result(shape),
{
    match shape {
        BodyShape::Array(n) => Ok(n),
        BodyShape::NotJson => Err(PollError::Protocol(ProtocolError::InvalidJson)),
        BodyShape::Other => Err(PollError::Protocol(ProtocolError::UnsupportedPayload)),
    }
}

fn copy_header(h: &Option<Vec<u8>>) -> (r: Option<Vec<u8>>)
    ensures
        header_view(r) == header_view(*h),
{
    match h {
        Some(v) => {
            let c = v.clone();
            assert(c@ =~= v@);
            Some(c)
        },
        None => None,
    }
}

impl GithubClient {
    pub closed spec fn view(&self) -> ClientView {
        ClientView {
            api_key: self.api_key@,
            validator: header_view(self.last_etag),
            suggested_interval: header_view(self.poll_interval),
        }
    }

    /// A client with no validator and no suggested interval yet.
    pub fn new(api_key: &str) -> (r: GithubClient)
        ensures
            r.view() == (ClientView { api_key: api_key@, validator: None, suggested_interval: None }),
    {
        GithubClient { api_key: api_key.to_owned(), last_etag: None, poll_interval: None }
    }

    /// The request for the next poll: credential, client marker, JSON accept
    /// marker, and the stored validator as `If-None-Match`.
    pub fn request(&self) -> (r: NotificationRequest)
        ensures
            r.url@ == NOTIFICATIONS_URL@,
            r.bearer_token@ == self.view().api_key,
            r.user_agent@ == CLIENT_ID@,
            r.accept@ == ACCEPT_JSON@,
            header_view(r.if_none_match) == conditional_header(self.view()),
    {
        NotificationRequest {
            url: NOTIFICATIONS_URL.to_owned(),
            bearer_token: self.api_key.as_str().to_owned(),
            user_agent: CLIENT_ID.to_owned(),
            accept: ACCEPT_JSON.to_owned(),
            if_none_match: copy_header(&self.last_etag),
        }
    }

    /// Takes in the response to the request of `request`: stores its `ETag`
    /// and `X-Poll-Interval` (whatever the status), then reports the item
    /// count of a success body (zero otherwise) and the wait before the next poll.
    pub fn check_for_notifications(&mut self, response: &NotificationResponse) -> (r: Result<
        PollOutcome,
        PollError,
    >)
        ensures
            final(self).view() == absorb(
                old(self).view(),
                header_view(response.etag),
                header_view(response.poll_interval),
            ),
            r == poll_result(final(self).view(), response.status, response.body@),
    {
        if response.etag.is_some() {
            self.last_etag = copy_header(&response.etag);
        }
        if response.poll_interval.is_some() {
            self.poll_interval = copy_header(&response.poll_interval);
        }
        let secs = match interval_from(&self.poll_interval) {
            Ok(n) => n,
            Err(e) => return Err(e),
        };
        if response.status < 200 || response.status > 299 {
            return Ok(PollOutcome { item_count: 0, next_interval_secs: secs });
        }
        match count_from(decode_body(response.body.as_slice())) {
            Ok(n) => Ok(PollOutcome { item_count: n, next_interval_secs: secs }),
            Err(e) => Err(e),
        }
    }
}

} // verus!
