//! Spot trading endpoints: currencies.

use vstd::prelude::*;
use vstd::string::StringExecFns;
use crate::api::{ApiMethod, ApiVersion, CurrencyField, DecodeError, Request, RestCall, SpotApi, CallStage};
use crate::json::{Json, field, found, given, get_field, is_given};
use crate::websocket::{text_of, read_text};

verus! {

/// `GET /spot/currencies`: every currency.
#[derive(Clone, Copy, Debug)]
pub struct AllCurrenciesRequest;

impl Request for AllCurrenciesRequest {
    open spec fn spec_method() -> ApiMethod {
        ApiMethod::Get
    }

    open spec fn spec_version() -> ApiVersion {
        ApiVersion::V4
    }

    open spec fn spec_is_public() -> bool {
        true
    }

    fn method() -> (r: ApiMethod) {
        ApiMethod::Get
    }

    fn version() -> (r: ApiVersion) {
        ApiVersion::V4
    }

    fn is_public() -> (r: bool) {
        true
    }
}

/// `GET /spot/currencies/{name}`: one currency.
#[derive(Clone, Copy, Debug)]
pub struct CurrencyRequest;

impl Request for CurrencyRequest {
    open spec fn spec_method() -> ApiMethod {
        ApiMethod::Get
    }

    open spec fn spec_version() -> ApiVersion {
        ApiVersion::V4
    }

    open spec fn spec_is_public() -> bool {
        true
    }

    fn method() -> (r: ApiMethod) {
        ApiMethod::Get
    }

    fn version() -> (r: ApiVersion) {
        ApiVersion::V4
    }

    fn is_public() -> (r: bool) {
        true
    }
}

/// Represents the details of a currency.
#[derive(Clone, Debug, PartialEq, Eq)]
pub struct Currency {
    /// Currency name
    pub currency: String,
    /// Whether currency is de-listed
    pub delisted: bool,
    /// Whether currency's withdrawal is disabled
    pub withdraw_disabled: bool,
    /// Whether currency's withdrawal is delayed
    pub withdraw_delayed: bool,
    /// Whether currency's deposit is disabled
    pub deposit_disabled: bool,
    /// Whether currency's trading is disabled
    pub trade_disabled: bool,
    /// Fixed fee rate. Only for fixed rate currencies, not valid for normal currencies
    pub fixed_rate: Option<String>,
    /// Chain of currency
    pub chain: String,
}

pub struct CurrencyView {
    pub currency: Seq<char>,
    pub delisted: bool,
    pub withdraw_disabled: bool,
    pub withdraw_delayed: bool,
    pub deposit_disabled: bool,
    pub trade_disabled: bool,
    pub fixed_rate: Option<Seq<char>>,
    pub chain: Seq<char>,
}

impl View for Currency {
    type V = CurrencyView;

    open spec fn view(&self) -> CurrencyView {
        CurrencyView {
            currency: self.currency@,
            delisted: self.delisted,
            withdraw_disabled: self.withdraw_disabled,
            withdraw_delayed: self.withdraw_delayed,
            deposit_disabled: self.deposit_disabled,
            trade_disabled: self.trade_disabled,
            fixed_rate: match self.fixed_rate {
                Some(f) => Some(f@),
                None => None,
            },
            chain: self.chain@,
        }
    }
}

pub open spec fn bool_of(v: Option<Json>) -> Option<bool> {
    match v {
        Some(Json::Bool(b)) => Some(b),
        _ => None,
    }
}

/// The optional fixed rate: absent or `null` is none.
pub open spec fn fixed_rate_of(v: Option<Json>) -> Option<Option<Seq<char>>> {
    if !given(v) {
        Some(None)
    } else {
        match text_of(v) {
            Some(t) => Some(Some(t)),
            None => None,
        }
    }
}

/// A currency record, or the first of its fields that is missing or of the
/// wrong type.
pub open spec fn currency_of(j: Json) -> Result<CurrencyView, CurrencyField> {
    match j {
        Json::Object(es) => {
            let es = es@;
            let currency = text_of(field(es, "currency"@));
            let delisted = bool_of(field(es, "delisted"@));
            let withdraw_disabled = bool_of(field(es, "withdraw_disabled"@));
            let withdraw_delayed = bool_of(field(es, "withdraw_delayed"@));
            let deposit_disabled = bool_of(field(es, "deposit_disabled"@));
            let trade_disabled = bool_of(field(es, "trade_disabled"@));
            let fixed_rate = fixed_rate_of(field(es, "fixed_rate"@));
            let chain = text_of(field(es, "chain"@));
            if currency is None {
                Err(CurrencyField::Currency)
            } else if delisted is None {
                Err(CurrencyField::Delisted)
            } else if withdraw_disabled is None {
                Err(CurrencyField::WithdrawDisabled)
            } else if withdraw_delayed is None {
                Err(CurrencyField::WithdrawDelayed)
            } else if deposit_disabled is None {
                Err(CurrencyField::DepositDisabled)
            } else if trade_disabled is None {
                Err(CurrencyField::TradeDisabled)
            } else if fixed_rate is None {
                Err(CurrencyField::FixedRate)
            } else if chain is None {
                Err(CurrencyField::Chain)
            } else {
                Ok(
                    CurrencyView {
                        currency: currency->0,
                        delisted: delisted->0,
                        withdraw_disabled: withdraw_disabled->0,
                        withdraw_delayed: withdraw_delayed->0,
                        deposit_disabled: deposit_disabled->0,
                        trade_disabled: trade_disabled->0,
                        fixed_rate: fixed_rate->0,
                        chain: chain->0,
                    },
                )
            }
        },
        _ => Err(CurrencyField::Record),
    }
}

fn read_bool(v: Option<&Json>) -> (r: Option<bool>)
    ensures
        r == bool_of(found(v)),
{
    match v {
        Some(Json::Bool(b)) => Some(*b),
        _ => None,
    }
}

fn read_fixed_rate(v: Option<&Json>) -> (r: Option<Option<String>>)
    ensures
        match fixed_rate_of(found(v)) {
            Some(None) => r == Some(None::<String>),
            Some(Some(t)) => r matches Some(Some(s)) && s@ == t,
            None => r is None,
        },
{
    if !is_given(v) {
        Some(None)
    } else {
        match read_text(v) {
            Some(t) => Some(Some(t)),
            None => None,
        }
    }
}

impl Currency {
    /// Decodes one currency record.
    pub fn decode(j: &Json) -> (r: Result<Currency, CurrencyField>)
        ensures
            match r {
                Ok(c) => currency_of(*j) == Ok::<CurrencyView, CurrencyField>(c@),
                Err(f) => currency_of(*j) == Err::<CurrencyView, CurrencyField>(f),
            },
    {
        match j {
            Json::Object(es) => {
                let currency = match read_text(get_field(es, "currency")) {
                    Some(c) => c,
                    None => return Err(CurrencyField::Currency),
                };
                let delisted = match read_bool(get_field(es, "delisted")) {
                    Some(b) => b,
                    None => return Err(CurrencyField::Delisted),
                };
                let withdraw_disabled = match read_bool(get_field(es, "withdraw_disabled")) {
                    Some(b) => b,
                    None => return Err(CurrencyField::WithdrawDisabled),
                };
                let withdraw_delayed = match read_bool(get_field(es, "withdraw_delayed")) {
                    Some(b) => b,
                    None => return Err(CurrencyField::WithdrawDelayed),
                };
                let deposit_disabled = match read_bool(get_field(es, "deposit_disabled")) {
                    Some(b) => b,
                    None => return Err(CurrencyField::DepositDisabled),
                };
                let trade_disabled = match read_bool(get_field(es, "trade_disabled")) {
                    Some(b) => b,
                    None => return Err(CurrencyField::TradeDisabled),
                };
                let fixed_rate = match read_fixed_rate(get_field(es, "fixed_rate")) {
                    Some(f) => f,
                    None => return Err(CurrencyField::FixedRate),
                };
                let chain = match read_text(get_field(es, "chain")) {
                    Some(c) => c,
                    None => return Err(CurrencyField::Chain),
                };
                Ok(
                    Currency {
                        currency,
                        delisted,
                        withdraw_disabled,
                        withdraw_delayed,
                        deposit_disabled,
                        trade_disabled,
                        fixed_rate,
                        chain,
                    },
                )
            },
            _ => Err(CurrencyField::Record),
        }
    }
}

/// The body of `GET /spot/currencies`: a list of currency records, each of
/// which must decode.
pub open spec fn currencies_of(j: Json) -> Result<Seq<CurrencyView>, DecodeError> {
    match j {
        Json::Array(items) => {
            let items = items@;
            if exists|i: int| 0 <= i < items.len() && (#[trigger] currency_of(items[i])) is Err {
                let i = choose|i: int| 0 <= i < items.len() && (#[trigger] currency_of(items[i])) is Err
                    && forall|k: int| 0 <= k < i ==> (#[trigger] currency_of(items[k])) is Ok;
                Err(DecodeError::Malformed(Some(i as usize), currency_of(items[i])->Err_0))
            } else {
                Ok(items.map_values(|x: Json| currency_of(x)->Ok_0))
            }
        },
        _ => Err(DecodeError::NotAList),
    }
}

/// Decodes the body of `GET /spot/currencies`.
pub fn decode_currencies(j: &Json) -> (r: Result<Vec<Currency>, DecodeError>)
    ensures
        match r {
            Ok(cs) => currencies_of(*j) == Ok::<Seq<CurrencyView>, DecodeError>(cs@.map_values(|c: Currency| c@)),
            Err(e) => currencies_of(*j) == Err::<Seq<CurrencyView>, DecodeError>(e),
        },
{
    match j {
        Json::Array(items) => {
            let mut out: Vec<Currency> = Vec::new();
            let mut i: usize = 0;
            while i < items.len()
                invariant
                    found(Some(j)) == Some(Json::Array(*items)),
                    0 <= i <= items@.len(),
                    out@.len() == i,
                    forall|k: int| 0 <= k < i ==> (#[trigger] currency_of(items@[k])) == Ok::<CurrencyView, CurrencyField>(out@[k]@),
                decreases items@.len() - i,
            {
                match Currency::decode(&items[i]) {
                    Ok(c) => {
                        out.push(c);
                    },
                    Err(f) => {
                        let ghost ii = i as int;
                        assert(0 <= ii < items@.len() && currency_of(items@[ii]) is Err);
                        let ghost w = choose|w: int| 0 <= w < items@.len() && (#[trigger] currency_of(items@[w])) is Err
                            && forall|k: int| 0 <= k < w ==> (#[trigger] currency_of(items@[k])) is Ok;
                        assert(0 <= ii < items@.len() && currency_of(items@[ii]) is Err
                            && forall|k: int| 0 <= k < ii ==> (#[trigger] currency_of(items@[k])) is Ok);
                        assert(w == ii) by {
                            if w < ii {
                                assert(currency_of(items@[w]) is Ok);
                            } else if w > ii {
                                assert(currency_of(items@[ii]) is Ok);
                            }
                        }
                        return Err(DecodeError::Malformed(Some(i), f));
                    },
                }
                i = i + 1;
            }
            assert(!exists|i: int| 0 <= i < items@.len() && (#[trigger] currency_of(items@[i])) is Err) by {
                assert forall|i: int| 0 <= i < items@.len() implies (#[trigger] currency_of(items@[i])) is Ok by {
                    assert(currency_of(items@[i]) == Ok::<CurrencyView, CurrencyField>(out@[i]@));
                }
            }
            assert(items@.map_values(|x: Json| currency_of(x)->Ok_0) =~= out@.map_values(|c: Currency| c@));
            Ok(out)
        },
        _ => Err(DecodeError::NotAList),
    }
}

/// Decodes the body of `GET /spot/currencies/{name}`.
pub fn decode_currency(j: &Json) -> (r: Result<Currency, DecodeError>)
    ensures
        match r {
            Ok(c) => currency_of(*j) == Ok::<CurrencyView, CurrencyField>(c@),
            Err(e) => currency_of(*j) is Err && e == DecodeError::Malformed(None, currency_of(*j)->Err_0),
        },
{
    match Currency::decode(j) {
        Ok(c) => Ok(c),
        Err(f) => Err(DecodeError::Malformed(None, f)),
    }
}

impl<'a, S> SpotApi<'a, S> {
    /// List all currencies' details: `GET /spot/currencies`. The call's body
    /// decodes with `decode_currencies`.
    pub fn all_currencies(&self) -> (r: RestCall)
        ensures
            r.method == ApiMethod::Get,
            r.url@ == self.api.client.config.api_base@ + "v4"@ + "/spot/currencies"@,
            r.sign_path@ == "/api/"@ + "v4"@ + "/spot/currencies"@,
            !r.signed,
            r.stage == CallStage::Prepared,
    {
        self.api.request("/spot/currencies", &AllCurrenciesRequest)
    }

    /// Get details of a specific currency: `GET /spot/currencies/{name}`.
    /// The call's body decodes with `decode_currency`.
    pub fn currency(&self, name: &str) -> (r: RestCall)
        ensures
            r.method == ApiMethod::Get,
            r.url@ == self.api.client.config.api_base@ + "v4"@ + ("/spot/currencies/"@ + name@),
            r.sign_path@ == "/api/"@ + "v4"@ + ("/spot/currencies/"@ + name@),
            !r.signed,
            r.stage == CallStage::Prepared,
    {
        let mut path = "/spot/currencies/".to_owned();
        path.append(name);
        self.api.request(path.as_str(), &CurrencyRequest)
    }
}

} // verus!
