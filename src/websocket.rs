//! Inbound WebSocket frames: the envelope common to every frame, the
//! subscribe / unsubscribe / update events of a channel, and the tagged
//! outcome that each event carries.

use vstd::prelude::*;
use crate::json::{Json, field, found, given, get_field, is_given, is_text};
use crate::order_book::{OrderBookSnapshot, SnapshotView, snapshot_of, decode_snapshot};

verus! {

/// The part of a frame that a decoding error is about.
#[derive(Clone, Copy, Debug, PartialEq, Eq, Structural)]
pub enum WsField {
    Frame,
    Time,
    Id,
    Channel,
    Event,
    Error,
    Code,
    Message,
    Result,
    UpdateTime,
    LastUpdateId,
    CurrencyPair,
    Bids,
    Asks,
}

/// Why a frame could not be decoded.
#[derive(Clone, Copy, Debug, PartialEq, Eq, Structural)]
pub enum WsDecodeError {
    /// A field is missing or does not have the expected shape.
    Malformed(WsField),
    /// The `channel` tag names no channel that this crate knows.
    UnknownChannel,
    /// The `event` tag is none of `subscribe`, `unsubscribe`, `update`.
    UnknownEvent,
    /// Neither `error` nor `result` is given.
    MissingOutcome,
    /// Both `error` and `result` are given.
    ConflictingOutcome,
}

/// Represents error codes returned by the server.
#[derive(Clone, Copy, Debug, PartialEq, Eq, Structural)]
pub enum WsErrCode {
    /// Invalid request body format.
    InvalidRequestBody,
    /// Invalid argument provided.
    InvalidArgument,
    /// Server-side error happened.
    ServerError,
}

/// The error code that the server sends as the integer `n`.
pub open spec fn err_code_of(n: i128) -> Option<WsErrCode> {
    if n == 1 {
        Some(WsErrCode::InvalidRequestBody)
    } else if n == 2 {
        Some(WsErrCode::InvalidArgument)
    } else if n == 3 {
        Some(WsErrCode::ServerError)
    } else {
        None
    }
}

/// Gate WebSocket API error
#[derive(Clone, Debug, PartialEq)]
pub struct WsErr {
    pub code: WsErrCode,
    pub message: String,
}

pub struct WsErrView {
    pub code: WsErrCode,
    pub message: Seq<char>,
}

impl View for WsErr {
    type V = WsErrView;

    open spec fn view(&self) -> WsErrView {
        WsErrView { code: self.code, message: self.message@ }
    }
}

/// The outcome of a request as the server reports it: an error, or a payload.
#[derive(Clone, Debug, PartialEq)]
pub enum WsResult<T> {
    Error(WsErr),
    Success(T),
}

pub enum WsResultView<V> {
    Error(WsErrView),
    Success(V),
}

impl<T: View> View for WsResult<T> {
    type V = WsResultView<T::V>;

    open spec fn view(&self) -> WsResultView<T::V> {
        match self {
            WsResult::Error(e) => WsResultView::Error(e@),
            WsResult::Success(t) => WsResultView::Success(t@),
        }
    }
}

impl<T> From<WsResult<T>> for Result<T, WsErr> {
    fn from(result: WsResult<T>) -> (r: Result<T, WsErr>) {
        match result {
            WsResult::Error(err) => Err(err),
            WsResult::Success(ok) => Ok(ok),
        }
    }
}

impl<T> vstd::std_specs::convert::FromSpecImpl<WsResult<T>> for Result<T, WsErr> {
    open spec fn obeys_from_spec() -> bool {
        true
    }

    open spec fn from_spec(result: WsResult<T>) -> Result<T, WsErr> {
        match result {
            WsResult::Error(err) => Err(err),
            WsResult::Success(ok) => Ok(ok),
        }
    }
}

/// The payload of a subscribe or unsubscribe acknowledgement, which carries
/// nothing of use: only whether the request succeeded counts.
#[derive(Clone, Copy, Debug, PartialEq, Eq, Structural)]
pub struct Ignored;

impl View for Ignored {
    type V = ();

    open spec fn view(&self) -> () {
        ()
    }
}

/// What happened on a channel.
#[derive(Clone, Debug, PartialEq)]
pub enum WsResponseEvent<T> {
    Subscribe(WsResult<Ignored>),
    Unsubscribe(WsResult<Ignored>),
    Update(WsResult<T>),
}

pub enum EventView<V> {
    Subscribe(WsResultView<()>),
    Unsubscribe(WsResultView<()>),
    Update(WsResultView<V>),
}

impl<T: View> View for WsResponseEvent<T> {
    type V = EventView<T::V>;

    open spec fn view(&self) -> EventView<T::V> {
        match self {
            WsResponseEvent::Subscribe(r) => EventView::Subscribe(r@),
            WsResponseEvent::Unsubscribe(r) => EventView::Unsubscribe(r@),
            WsResponseEvent::Update(r) => EventView::Update(r@),
        }
    }
}

/// Channel-dependent part of a frame.
#[derive(Clone, Debug, PartialEq)]
pub enum WsResponseInner {
    /// `spot.pong`
    Pong,
    /// `spot.order_book`
    OrderBook(WsResponseEvent<OrderBookSnapshot>),
}

pub enum InnerView {
    Pong,
    OrderBook(EventView<SnapshotView>),
}

impl View for WsResponseInner {
    type V = InnerView;

    open spec fn view(&self) -> InnerView {
        match self {
            WsResponseInner::Pong => InnerView::Pong,
            WsResponseInner::OrderBook(e) => InnerView::OrderBook(e@),
        }
    }
}

/// Gate WebSocket API response
#[derive(Clone, Debug, PartialEq)]
pub struct WsResponse {
    /// Request timestamp in seconds
    pub time: i64,
    /// Request ID extracted from the client request payload if client request has one
    pub id: Option<i64>,
    /// Channel-dependent fields of the response
    pub inner: WsResponseInner,
}

pub struct ResponseView {
    pub time: i64,
    pub id: Option<i64>,
    pub inner: InnerView,
}

impl View for WsResponse {
    type V = ResponseView;

    open spec fn view(&self) -> ResponseView {
        ResponseView { time: self.time, id: self.id, inner: self.inner@ }
    }
}

pub open spec fn i64_of(v: Option<Json>) -> Option<i64> {
    match v {
        Some(Json::Int(n)) => if i64::MIN <= n <= i64::MAX {
            Some(n as i64)
        } else {
            None
        },
        _ => None,
    }
}

pub open spec fn text_of(v: Option<Json>) -> Option<Seq<char>> {
    match v {
        Some(Json::Str(s)) => Some(s@),
        _ => None,
    }
}

/// The structured error `{code, message}`.
pub open spec fn err_of(j: Json) -> Result<WsErrView, WsDecodeError> {
    match j {
        Json::Object(es) => match field(es@, "code"@) {
            Some(Json::Int(n)) => match err_code_of(n) {
                Some(code) => match text_of(field(es@, "message"@)) {
                    Some(m) => Ok(WsErrView { code, message: m }),
                    None => Err(WsDecodeError::Malformed(WsField::Message)),
                },
                None => Err(WsDecodeError::Malformed(WsField::Code)),
            },
            _ => Err(WsDecodeError::Malformed(WsField::Code)),
        },
        _ => Err(WsDecodeError::Malformed(WsField::Error)),
    }
}

/// Which of `error` and `result` a frame gives: `Ok(true)` for the error.
/// Exactly one of the two must be given.
pub open spec fn outcome_tag(es: Seq<(String, Json)>) -> Result<bool, WsDecodeError> {
    let e = given(field(es, "error"@));
    let r = given(field(es, "result"@));
    if e && r {
        Err(WsDecodeError::ConflictingOutcome)
    } else if !e && !r {
        Err(WsDecodeError::MissingOutcome)
    } else {
        Ok(e)
    }
}

/// The outcome of a subscribe or unsubscribe request; a success carries nothing.
pub open spec fn ack_of(es: Seq<(String, Json)>) -> Result<WsResultView<()>, WsDecodeError> {
    match outcome_tag(es) {
        Err(x) => Err(x),
        Ok(true) => match err_of(field(es, "error"@)->0) {
            Ok(e) => Ok(WsResultView::Error(e)),
            Err(x) => Err(x),
        },
        Ok(false) => Ok(WsResultView::Success(())),
    }
}

/// The outcome of an order-book update; a success carries the snapshot.
pub open spec fn update_of(es: Seq<(String, Json)>) -> Result<WsResultView<SnapshotView>, WsDecodeError> {
    match outcome_tag(es) {
        Err(x) => Err(x),
        Ok(true) => match err_of(field(es, "error"@)->0) {
            Ok(e) => Ok(WsResultView::Error(e)),
            Err(x) => Err(x),
        },
        Ok(false) => match snapshot_of(field(es, "result"@)->0) {
            Ok(s) => Ok(WsResultView::Success(s)),
            Err(x) => Err(x),
        },
    }
}

/// The event of an order-book frame, chosen by its `event` tag.
pub open spec fn event_of(es: Seq<(String, Json)>) -> Result<EventView<SnapshotView>, WsDecodeError> {
    match text_of(field(es, "event"@)) {
        Some(ev) => if ev == "subscribe"@ {
            match ack_of(es) {
                Ok(a) => Ok(EventView::Subscribe(a)),
                Err(x) => Err(x),
            }
        } else if ev == "unsubscribe"@ {
            match ack_of(es) {
                Ok(a) => Ok(EventView::Unsubscribe(a)),
                Err(x) => Err(x),
            }
        } else if ev == "update"@ {
            match update_of(es) {
                Ok(u) => Ok(EventView::Update(u)),
                Err(x) => Err(x),
            }
        } else {
            Err(WsDecodeError::UnknownEvent)
        },
        None => Err(WsDecodeError::Malformed(WsField::Event)),
    }
}

/// The optional correlation id: absent or `null` is none.
pub open spec fn id_of(v: Option<Json>) -> Result<Option<i64>, WsDecodeError> {
    if !given(v) {
        Ok(None)
    } else {
        match i64_of(v) {
            Some(n) => Ok(Some(n)),
            None => Err(WsDecodeError::Malformed(WsField::Id)),
        }
    }
}

/// A whole frame.
pub open spec fn response_of(j: Json) -> Result<ResponseView, WsDecodeError> {
    match j {
        Json::Object(es) => {
            let es = es@;
            match (i64_of(field(es, "time"@)), id_of(field(es, "id"@))) {
                (None, _) => Err(WsDecodeError::Malformed(WsField::Time)),
                (_, Err(x)) => Err(x),
                (Some(time), Ok(id)) => match text_of(field(es, "channel"@)) {
                    Some(c) => if c == "spot.pong"@ {
                        Ok(ResponseView { time, id, inner: InnerView::Pong })
                    } else if c == "spot.order_book"@ {
                        match event_of(es) {
                            Ok(ev) => Ok(ResponseView { time, id, inner: InnerView::OrderBook(ev) }),
                            Err(x) => Err(x),
                        }
                    } else {
                        Err(WsDecodeError::UnknownChannel)
                    },
                    None => Err(WsDecodeError::Malformed(WsField::Channel)),
                },
            }
        },
        _ => Err(WsDecodeError::Malformed(WsField::Frame)),
    }
}

pub fn read_i64(v: Option<&Json>) -> (r: Option<i64>)
    ensures
        r == i64_of(found(v)),
{
    match v {
        Some(Json::Int(n)) => if i64::MIN as i128 <= *n && *n <= i64::MAX as i128 {
            Some(*n as i64)
        } else {
            None
        },
        _ => None,
    }
}

pub fn read_text(v: Option<&Json>) -> (r: Option<String>)
    ensures
        match r {
            Some(s) => text_of(found(v)) == Some(s@),
            None => text_of(found(v)) is None,
        },
{
    match v {
        Some(Json::Str(s)) => Some(s.clone()),
        _ => None,
    }
}

/// Decodes the structured error `{code, message}`.
pub fn decode_err(j: &Json) -> (r: Result<WsErr, WsDecodeError>)
    ensures
        match r {
            Ok(e) => err_of(*j) == Ok::<WsErrView, WsDecodeError>(e@),
            Err(x) => err_of(*j) == Err::<WsErrView, WsDecodeError>(x),
        },
{
    match j {
        Json::Object(es) => {
            let code = match get_field(es, "code") {
                Some(Json::Int(n)) => if *n == 1 {
                    WsErrCode::InvalidRequestBody
                } else if *n == 2 {
                    WsErrCode::InvalidArgument
                } else if *n == 3 {
                    WsErrCode::ServerError
                } else {
                    return Err(WsDecodeError::Malformed(WsField::Code));
                },
                _ => return Err(WsDecodeError::Malformed(WsField::Code)),
            };
            match read_text(get_field(es, "message")) {
                Some(message) => Ok(WsErr { code, message }),
                None => Err(WsDecodeError::Malformed(WsField::Message)),
            }
        },
        _ => Err(WsDecodeError::Malformed(WsField::Error)),
    }
}

/// Reads which of `error` and `result` a frame gives.
pub fn decode_outcome_tag(es: &Vec<(String, Json)>) -> (r: Result<bool, WsDecodeError>)
    ensures
        r == outcome_tag(es@),
{
    let e = is_given(get_field(es, "error"));
    let r = is_given(get_field(es, "result"));
    if e && r {
        Err(WsDecodeError::ConflictingOutcome)
    } else if !e && !r {
        Err(WsDecodeError::MissingOutcome)
    } else {
        Ok(e)
    }
}

/// The error named by `error`, where the tag said it is given.
fn decode_given_err(es: &Vec<(String, Json)>) -> (r: Result<WsErr, WsDecodeError>)
    requires
        given(field(es@, "error"@)),
    ensures
        match r {
            Ok(e) => err_of(field(es@, "error"@)->0) == Ok::<WsErrView, WsDecodeError>(e@),
            Err(x) => err_of(field(es@, "error"@)->0) == Err::<WsErrView, WsDecodeError>(x),
        },
{
    match get_field(es, "error") {
        Some(j) => decode_err(j),
        None => Err(WsDecodeError::Malformed(WsField::Error)),
    }
}

/// Decodes the outcome of a subscribe or unsubscribe request.
pub fn decode_ack(es: &Vec<(String, Json)>) -> (r: Result<WsResult<Ignored>, WsDecodeError>)
    ensures
        match r {
            Ok(a) => ack_of(es@) == Ok::<WsResultView<()>, WsDecodeError>(a@),
            Err(x) => ack_of(es@) == Err::<WsResultView<()>, WsDecodeError>(x),
        },
{
    match decode_outcome_tag(es) {
        Err(x) => Err(x),
        Ok(true) => match decode_given_err(es) {
            Ok(e) => Ok(WsResult::Error(e)),
            Err(x) => Err(x),
        },
        Ok(false) => Ok(WsResult::Success(Ignored)),
    }
}

/// Decodes the outcome of an order-book update.
pub fn decode_update(es: &Vec<(String, Json)>) -> (r: Result<WsResult<OrderBookSnapshot>, WsDecodeError>)
    ensures
        match r {
            Ok(u) => update_of(es@) == Ok::<WsResultView<SnapshotView>, WsDecodeError>(u@),
            Err(x) => update_of(es@) == Err::<WsResultView<SnapshotView>, WsDecodeError>(x),
        },
{
    match decode_outcome_tag(es) {
        Err(x) => Err(x),
        Ok(true) => match decode_given_err(es) {
            Ok(e) => Ok(WsResult::Error(e)),
            Err(x) => Err(x),
        },
        Ok(false) => match get_field(es, "result") {
            Some(j) => match decode_snapshot(j) {
                Ok(s) => Ok(WsResult::Success(s)),
                Err(x) => Err(x),
            },
            None => Err(WsDecodeError::MissingOutcome),
        },
    }
}

/// Decodes the event of an order-book frame.
pub fn decode_event(es: &Vec<(String, Json)>) -> (r: Result<WsResponseEvent<OrderBookSnapshot>, WsDecodeError>)
    ensures
        match r {
            Ok(ev) => event_of(es@) == Ok::<EventView<SnapshotView>, WsDecodeError>(ev@),
            Err(x) => event_of(es@) == Err::<EventView<SnapshotView>, WsDecodeError>(x),
        },
{
    match get_field(es, "event") {
        Some(Json::Str(ev)) => if is_text(ev, "subscribe") {
            match decode_ack(es) {
                Ok(a) => Ok(WsResponseEvent::Subscribe(a)),
                Err(x) => Err(x),
            }
        } else if is_text(ev, "unsubscribe") {
            match decode_ack(es) {
                Ok(a) => Ok(WsResponseEvent::Unsubscribe(a)),
                Err(x) => Err(x),
            }
        } else if is_text(ev, "update") {
            match decode_update(es) {
                Ok(u) => Ok(WsResponseEvent::Update(u)),
                Err(x) => Err(x),
            }
        } else {
            Err(WsDecodeError::UnknownEvent)
        },
        _ => Err(WsDecodeError::Malformed(WsField::Event)),
    }
}

fn decode_id(v: Option<&Json>) -> (r: Result<Option<i64>, WsDecodeError>)
    ensures
        r == id_of(found(v)),
{
    if !is_given(v) {
        Ok(None)
    } else {
        match read_i64(v) {
            Some(n) => Ok(Some(n)),
            None => Err(WsDecodeError::Malformed(WsField::Id)),
        }
    }
}

impl WsResponse {
    /// Decodes one inbound frame.
    pub fn decode(j: &Json) -> (r: Result<WsResponse, WsDecodeError>)
        ensures
            match r {
                Ok(resp) => response_of(*j) == Ok::<ResponseView, WsDecodeError>(resp@),
                Err(x) => response_of(*j) == Err::<ResponseView, WsDecodeError>(x),
            },
    {
        match j {
            Json::Object(es) => {
                let time = read_i64(get_field(es, "time"));
                let id = decode_id(get_field(es, "id"));
                let (time, id) = match (time, id) {
                    (None, _) => return Err(WsDecodeError::Malformed(WsField::Time)),
                    (_, Err(x)) => return Err(x),
                    (Some(t), Ok(id)) => (t, id),
                };
                match get_field(es, "channel") {
                    Some(Json::Str(c)) => if is_text(c, "spot.pong") {
                        Ok(WsResponse { time, id, inner: WsResponseInner::Pong })
                    } else if is_text(c, "spot.order_book") {
                        match decode_event(es) {
                            Ok(ev) => Ok(WsResponse { time, id, inner: WsResponseInner::OrderBook(ev) }),
                            Err(x) => Err(x),
                        }
                    } else {
                        Err(WsDecodeError::UnknownChannel)
                    },
                    _ => Err(WsDecodeError::Malformed(WsField::Channel)),
                }
            },
            _ => Err(WsDecodeError::Malformed(WsField::Frame)),
        }
    }
}

/// A well-formed pong frame, whatever its time and with no id, decodes to the
/// payload-less `Pong` with that time.
pub proof fn lemma_pong_decodes(frame: Json, time: i64)
    requires
        frame is Object,
        field(frame->Object_0@, "time"@) == Some(Json::Int(time as i128)),
        field(frame->Object_0@, "id"@) is None,
        text_of(field(frame->Object_0@, "channel"@)) == Some("spot.pong"@),
    ensures
        response_of(frame) == Ok::<ResponseView, WsDecodeError>(
            ResponseView { time, id: None, inner: InnerView::Pong },
        ),
{
}

/// Every decoded outcome comes from a frame that gives exactly one of `error`
/// and `result`; a frame that gives both, or neither, is refused.
pub proof fn lemma_outcome_exactly_one(es: Seq<(String, Json)>)
    ensures
        ack_of(es) is Ok ==> given(field(es, "error"@)) != given(field(es, "result"@)),
        update_of(es) is Ok ==> given(field(es, "error"@)) != given(field(es, "result"@)),
        given(field(es, "error"@)) && given(field(es, "result"@)) ==> ack_of(es) == Err::<
            WsResultView<()>,
            WsDecodeError,
        >(WsDecodeError::ConflictingOutcome) && update_of(es) == Err::<
            WsResultView<SnapshotView>,
            WsDecodeError,
        >(WsDecodeError::ConflictingOutcome),
        !given(field(es, "error"@)) && !given(field(es, "result"@)) ==> ack_of(es) == Err::<
            WsResultView<()>,
            WsDecodeError,
        >(WsDecodeError::MissingOutcome) && update_of(es) == Err::<
            WsResultView<SnapshotView>,
            WsDecodeError,
        >(WsDecodeError::MissingOutcome),
{
}

/// Decoding depends on the frame alone: the same frame decodes to the same
/// value, or fails with the same error, every time.
pub proof fn lemma_decode_deterministic(a: Json, b: Json)
    requires
        a == b,
    ensures
        response_of(a) == response_of(b),
{
}

} // verus!
