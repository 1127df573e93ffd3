//! The order-book channel's payload: one snapshot of the book, with the
//! sequence number that lets a consumer notice a missed update.

use vstd::prelude::*;
use crate::json::{Json, field, found, get_field};
use crate::websocket::{WsDecodeError, WsField, i64_of, read_i64, text_of, read_text};

verus! {

/// The value of a decimal number written as text, as its mantissa and scale
/// (the number is `mantissa / 10^scale`).
pub uninterp spec fn decimal_of(s: Seq<char>) -> Option<(i128, u32)>;

/// Relies on rust_decimal's `Decimal::from_str` (with `mantissa` and `scale`
/// of its result): the decimal written in `s`, or `None` where it is no number.
#[verifier::external_body]
fn parse_decimal(s: &str) -> (r: Option<(i128, u32)>)
    ensures
        r == decimal_of(s@),
{
    match <rust_decimal::Decimal as core::str::FromStr>::from_str(s) {
        Ok(d) => Some((d.mantissa(), d.scale())),
        Err(_) => None,
    }
}

/// A decimal number: `mantissa / 10^scale`.
#[derive(Clone, Copy, Debug, PartialEq, Eq, Structural)]
pub struct Dec {
    pub mantissa: i128,
    pub scale: u32,
}

impl Dec {
    pub fn new(mantissa: i128, scale: u32) -> (r: Dec)
        ensures
            r == (Dec { mantissa, scale }),
    {
        Dec { mantissa, scale }
    }
}

/// One price level of a book side: a price and the amount offered at it.
#[derive(Clone, Copy, Debug, PartialEq, Eq, Structural)]
pub struct PriceLevel {
    pub price: Dec,
    pub amount: Dec,
}

impl PriceLevel {
    pub fn new(price: Dec, amount: Dec) -> (r: PriceLevel)
        ensures
            r == (PriceLevel { price, amount }),
    {
        PriceLevel { price, amount }
    }
}

/// A snapshot of one currency pair's order book.
#[derive(Clone, Debug, PartialEq)]
pub struct OrderBookSnapshot {
    /// Time of the update, in milliseconds
    pub update_time_ms: i64,
    /// Sequence number of the update
    pub last_update_id: u64,
    /// Currency pair, such as `BTC_USDT`
    pub currency_pair: String,
    /// Bid levels, in the order the server sent them
    pub bids: Vec<PriceLevel>,
    /// Ask levels, in the order the server sent them
    pub asks: Vec<PriceLevel>,
}

pub struct SnapshotView {
    pub update_time_ms: i64,
    pub last_update_id: u64,
    pub currency_pair: Seq<char>,
    pub bids: Seq<PriceLevel>,
    pub asks: Seq<PriceLevel>,
}

impl View for OrderBookSnapshot {
    type V = SnapshotView;

    open spec fn view(&self) -> SnapshotView {
        SnapshotView {
            update_time_ms: self.update_time_ms,
            last_update_id: self.last_update_id,
            currency_pair: self.currency_pair@,
            bids: self.bids@,
            asks: self.asks@,
        }
    }
}

pub open spec fn dec_of(s: Seq<char>) -> Option<Dec> {
    match decimal_of(s) {
        Some((m, sc)) => Some(Dec { mantissa: m, scale: sc }),
        None => None,
    }
}

/// A level on the wire: a pair `[price, amount]` of decimal strings.
pub open spec fn level_of(j: Json) -> Option<PriceLevel> {
    match j {
        Json::Array(a) => if a@.len() == 2 {
            match (a@[0], a@[1]) {
                (Json::Str(p), Json::Str(q)) => match (dec_of(p@), dec_of(q@)) {
                    (Some(x), Some(y)) => Some(PriceLevel { price: x, amount: y }),
                    _ => None,
                },
                _ => None,
            }
        } else {
            None
        },
        _ => None,
    }
}

pub open spec fn levels_ok(items: Seq<Json>) -> bool {
    forall|i: int| 0 <= i < items.len() ==> (#[trigger] level_of(items[i])) is Some
}

/// One side of the book: an array of levels, each of which must decode.
pub open spec fn levels_of(v: Option<Json>, side: WsField) -> Result<Seq<PriceLevel>, WsDecodeError> {
    match v {
        Some(Json::Array(a)) => if levels_ok(a@) {
            Ok(a@.map_values(|x: Json| level_of(x)->0))
        } else {
            Err(WsDecodeError::Malformed(side))
        },
        _ => Err(WsDecodeError::Malformed(side)),
    }
}

pub open spec fn u64_of(v: Option<Json>) -> Option<u64> {
    match v {
        Some(Json::Int(n)) => if 0 <= n <= u64::MAX {
            Some(n as u64)
        } else {
            None
        },
        _ => None,
    }
}

/// The snapshot that an update's `result` object describes.
pub open spec fn snapshot_of(j: Json) -> Result<SnapshotView, WsDecodeError> {
    match j {
        Json::Object(es) => {
            let t = i64_of(field(es@, "t"@));
            let id = u64_of(field(es@, "lastUpdateId"@));
            let pair = text_of(field(es@, "s"@));
            let bids = levels_of(field(es@, "bids"@), WsField::Bids);
            let asks = levels_of(field(es@, "asks"@), WsField::Asks);
            if t is None {
                Err(WsDecodeError::Malformed(WsField::UpdateTime))
            } else if id is None {
                Err(WsDecodeError::Malformed(WsField::LastUpdateId))
            } else if pair is None {
                Err(WsDecodeError::Malformed(WsField::CurrencyPair))
            } else {
                match (bids, asks) {
                    (Err(e), _) => Err(e),
                    (_, Err(e)) => Err(e),
                    (Ok(b), Ok(a)) => Ok(
                        SnapshotView {
                            update_time_ms: t->0,
                            last_update_id: id->0,
                            currency_pair: pair->0,
                            bids: b,
                            asks: a,
                        },
                    ),
                }
            }
        },
        _ => Err(WsDecodeError::Malformed(WsField::Result)),
    }
}

fn read_u64(v: Option<&Json>) -> (r: Option<u64>)
    ensures
        r == u64_of(found(v)),
{
    match v {
        Some(Json::Int(n)) => if 0 <= *n && *n <= u64::MAX as i128 {
            Some(*n as u64)
        } else {
            None
        },
        _ => None,
    }
}

/// Decodes one `[price, amount]` level.
pub fn decode_level(j: &Json) -> (r: Option<PriceLevel>)
    ensures
        r == level_of(*j),
{
    match j {
        Json::Array(a) => {
            if a.len() != 2 {
                return None;
            }
            match (&a[0], &a[1]) {
                (Json::Str(p), Json::Str(q)) => {
                    let x = parse_decimal(p.as_str());
                    let y = parse_decimal(q.as_str());
                    match (x, y) {
                        (Some((pm, ps)), Some((qm, qs))) => Some(
                            PriceLevel { price: Dec { mantissa: pm, scale: ps }, amount: Dec { mantissa: qm, scale: qs } },
                        ),
                        _ => None,
                    }
                },
                _ => None,
            }
        },
        _ => None,
    }
}

/// Decodes one side of the book.
pub fn decode_levels(v: Option<&Json>, side: WsField) -> (r: Result<Vec<PriceLevel>, WsDecodeError>)
    ensures
        match r {
            Ok(ls) => levels_of(found(v), side) == Ok::<Seq<PriceLevel>, WsDecodeError>(ls@),
            Err(e) => levels_of(found(v), side) == Err::<Seq<PriceLevel>, WsDecodeError>(e),
        },
{
    match v {
        Some(Json::Array(a)) => {
            let mut out: Vec<PriceLevel> = Vec::new();
            let mut i: usize = 0;
            while i < a.len()
                invariant
                    found(v) == Some(Json::Array(*a)),
                    0 <= i <= a@.len(),
                    out@ =~= a@.take(i as int).map_values(|x: Json| level_of(x)->0),
                    forall|k: int| 0 <= k < i ==> (#[trigger] level_of(a@[k])) is Some,
                decreases a@.len() - i,
            {
                match decode_level(&a[i]) {
                    Some(l) => {
                        out.push(l);
                    },
                    None => {
                        assert(level_of(a@[i as int]) is None);
                        assert(!levels_ok(a@));
                        return Err(WsDecodeError::Malformed(side));
                    },
                }
                i = i + 1;
            }
            assert(a@.take(a@.len() as int) =~= a@);
            Ok(out)
        },
        _ => Err(WsDecodeError::Malformed(side)),
    }
}

/// Decodes the `result` object of an order-book update.
pub fn decode_snapshot(j: &Json) -> (r: Result<OrderBookSnapshot, WsDecodeError>)
    ensures
        match r {
            Ok(s) => snapshot_of(*j) == Ok::<SnapshotView, WsDecodeError>(s@),
            Err(e) => snapshot_of(*j) == Err::<SnapshotView, WsDecodeError>(e),
        },
{
    match j {
        Json::Object(es) => {
            let t = read_i64(get_field(es, "t"));
            let id = read_u64(get_field(es, "lastUpdateId"));
            let pair = read_text(get_field(es, "s"));
            let (update_time_ms, last_update_id, currency_pair) = match (t, id, pair) {
                (Some(t), Some(id), Some(p)) => (t, id, p),
                (None, _, _) => return Err(WsDecodeError::Malformed(WsField::UpdateTime)),
                (_, None, _) => return Err(WsDecodeError::Malformed(WsField::LastUpdateId)),
                (_, _, None) => return Err(WsDecodeError::Malformed(WsField::CurrencyPair)),
            };
            let bids = match decode_levels(get_field(es, "bids"), WsField::Bids) {
                Ok(b) => b,
                Err(e) => return Err(e),
            };
            let asks = match decode_levels(get_field(es, "asks"), WsField::Asks) {
                Ok(a) => a,
                Err(e) => return Err(e),
            };
            Ok(OrderBookSnapshot { update_time_ms, last_update_id, currency_pair, bids, asks })
        },
        _ => Err(WsDecodeError::Malformed(WsField::Result)),
    }
}

/// Whether an update with sequence number `next` directly follows one with
/// sequence number `prev`.
pub open spec fn follows(prev: u64, next: u64) -> bool {
    next as int == prev as int + 1
}

pub fn is_next_update(prev: u64, next: u64) -> (r: bool)
    ensures
        r == follows(prev, next),
{
    prev < u64::MAX && next == prev + 1
}

/// The first position in a run of sequence numbers where one does not follow
/// its predecessor, or `None` where the run has no gap.
pub fn find_gap(ids: &Vec<u64>) -> (r: Option<usize>)
    ensures
        match r {
            Some(i) => 1 <= i < ids@.len() && !follows(ids@[i - 1], ids@[i as int])
                && forall|k: int| 1 <= k < i ==> follows(ids@[k - 1], #[trigger] ids@[k]),
            None => forall|k: int| 1 <= k < ids@.len() ==> follows(ids@[k - 1], #[trigger] ids@[k]),
        },
{
    let mut i: usize = 1;
    while i < ids.len()
        invariant
            1 <= i,
            i <= ids@.len() || ids@.len() == 0,
            forall|k: int| 1 <= k < i && k < ids@.len() ==> follows(ids@[k - 1], #[trigger] ids@[k]),
        decreases ids@.len() - i,
    {
        if !is_next_update(ids[i - 1], ids[i]) {
            return Some(i);
        }
        i = i + 1;
    }
    None
}

} // verus!
