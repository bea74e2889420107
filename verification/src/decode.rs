//! Decoding token records from JSON-like values.
//!
//! A record must be an object carrying a non-empty `id`, a `type`
//! discriminator and an `attributes` object; every attribute is
//! optional unless a nested schema requires it.  Numbers arrive in
//! micro-units; integer fields must be whole (a multiple of `SCALE`),
//! percentages must lie within one hundred percent, amounts within the
//! supported range.  A violation is a per-record decode error naming
//! the offending field.

use vstd::prelude::*;

verus! {

use crate::fixed::SCALE;
use crate::json::{JsonValue, spec_lookup, lookup};
use crate::token::{
    Action,
    Attributes,
    Audit,
    InitialLiquidity,
    Liquidity,
    Socials,
    TokenData,
    MAX_AMOUNT_MICROS,
    MAX_HOLDERS,
    MAX_PERCENT_MICROS,
};

/// The field a decode error points at.
#[derive(Clone, Copy, Debug, PartialEq, Eq, Structural)]
pub enum DecodeField {
    Id,
    Kind,
    Attributes,
    Audit,
    BuysCount,
    CreatedTimestamp,
    CurLiq,
    Fdv,
    FreezeAuthority,
    HoldersCount,
    InitLiq,
    LpAmount,
    LpBurnedPerc,
    MintAuthority,
    Name,
    OpenTimestamp,
    Pending,
    Percentage,
    PooledSol,
    PriceUsd,
    Quote,
    SellsCount,
    SnipersCount,
    Socials,
    Symbol,
    Telegram,
    Timestamp,
    TokenAddress,
    TokenAmount,
    TopHoldersPerc,
    Twitter,
    Usd,
    Volume,
    ActionField,
    Website,
}

/// Why one record was rejected.
#[derive(Clone, Copy, Debug, PartialEq, Eq, Structural)]
pub enum DecodeError {
    /// The record is not an object.
    NotAnObject,
    /// A required field is absent.
    MissingField(DecodeField),
    /// A field carries a value of the wrong kind (or a fractional
    /// value where a whole number is required).
    WrongType(DecodeField),
    /// A numeric field falls outside its admissible range, or `id` is
    /// empty.
    OutOfRange(DecodeField),
}

/// An optional string field: absent or null is `None`.
pub open spec fn spec_opt_string(o: Option<JsonValue>, f: DecodeField) -> Result<
    Option<String>,
    DecodeError,
> {
    match o {
        None => Ok(None),
        Some(JsonValue::Null) => Ok(None),
        Some(JsonValue::Str(s)) => Ok(Some(s)),
        Some(_) => Err(DecodeError::WrongType(f)),
    }
}

/// An optional boolean field.
pub open spec fn spec_opt_bool(o: Option<JsonValue>, f: DecodeField) -> Result<
    Option<bool>,
    DecodeError,
> {
    match o {
        None => Ok(None),
        Some(JsonValue::Null) => Ok(None),
        Some(JsonValue::Bool(b)) => Ok(Some(b)),
        Some(_) => Err(DecodeError::WrongType(f)),
    }
}

/// An optional amount in micro-units: non-negative and bounded.
pub open spec fn spec_opt_amount(o: Option<JsonValue>, f: DecodeField) -> Result<
    Option<i64>,
    DecodeError,
> {
    match o {
        None => Ok(None),
        Some(JsonValue::Null) => Ok(None),
        Some(JsonValue::Num(m)) => if 0 <= m <= MAX_AMOUNT_MICROS {
            Ok(Some(m))
        } else {
            Err(DecodeError::OutOfRange(f))
        },
        Some(_) => Err(DecodeError::WrongType(f)),
    }
}

/// An optional percentage in micro-units: within one hundred percent.
pub open spec fn spec_opt_percent(o: Option<JsonValue>, f: DecodeField) -> Result<
    Option<i64>,
    DecodeError,
> {
    match o {
        None => Ok(None),
        Some(JsonValue::Null) => Ok(None),
        Some(JsonValue::Num(m)) => if 0 <= m <= MAX_PERCENT_MICROS {
            Ok(Some(m))
        } else {
            Err(DecodeError::OutOfRange(f))
        },
        Some(_) => Err(DecodeError::WrongType(f)),
    }
}

/// Whether a number in micro-units is a whole number of units.
pub open spec fn spec_whole(m: i64) -> bool {
    m % SCALE == 0
}

/// An optional non-negative whole count.
pub open spec fn spec_opt_count(o: Option<JsonValue>, f: DecodeField) -> Result<
    Option<u64>,
    DecodeError,
> {
    match o {
        None => Ok(None),
        Some(JsonValue::Null) => Ok(None),
        Some(JsonValue::Num(m)) => if 0 <= m && spec_whole(m) {
            Ok(Some((m / SCALE) as u64))
        } else {
            Err(DecodeError::WrongType(f))
        },
        Some(_) => Err(DecodeError::WrongType(f)),
    }
}

/// An optional non-negative whole count with an upper bound.
pub open spec fn spec_opt_count_bounded(o: Option<JsonValue>, f: DecodeField, limit: u32) -> Result<
    Option<u32>,
    DecodeError,
> {
    match spec_opt_count(o, f) {
        Err(e) => Err(e),
        Ok(None) => Ok(None),
        Ok(Some(c)) => if c <= limit as u64 {
            Ok(Some(c as u32))
        } else {
            Err(DecodeError::OutOfRange(f))
        },
    }
}

/// An optional whole number of seconds, of either sign.
pub open spec fn spec_opt_seconds(o: Option<JsonValue>, f: DecodeField) -> Result<
    Option<i64>,
    DecodeError,
> {
    match o {
        None => Ok(None),
        Some(JsonValue::Null) => Ok(None),
        Some(JsonValue::Num(m)) => if spec_whole(m) {
            Ok(Some((m / SCALE) as i64))
        } else {
            Err(DecodeError::WrongType(f))
        },
        Some(_) => Err(DecodeError::WrongType(f)),
    }
}

/// The audit record: all four fields required.
pub open spec fn spec_decode_audit(v: JsonValue) -> Result<Audit, DecodeError> {
    match v {
        JsonValue::Obj(entries) => match spec_opt_bool(
            spec_lookup(entries@, "freeze_authority"@),
            DecodeField::FreezeAuthority,
        ) {
            Err(e) => Err(e),
            Ok(None) => Err(DecodeError::MissingField(DecodeField::FreezeAuthority)),
            Ok(Some(freeze)) => match spec_lookup(entries@, "lp_burned_perc"@) {
                None => Err(DecodeError::MissingField(DecodeField::LpBurnedPerc)),
                Some(JsonValue::Num(m)) => if 0 <= m && spec_whole(m) && m / SCALE <= 100 {
                    match spec_opt_bool(
                        spec_lookup(entries@, "mint_authority"@),
                        DecodeField::MintAuthority,
                    ) {
                        Err(e) => Err(e),
                        Ok(None) => Err(DecodeError::MissingField(DecodeField::MintAuthority)),
                        Ok(Some(mint)) => match spec_opt_percent(
                            spec_lookup(entries@, "top_holders_perc"@),
                            DecodeField::TopHoldersPerc,
                        ) {
                            Err(e) => Err(e),
                            Ok(None) => Err(
                                DecodeError::MissingField(DecodeField::TopHoldersPerc),
                            ),
                            Ok(Some(top)) => Ok(
                                Audit {
                                    freeze_authority: freeze,
                                    lp_burned_perc: (m / SCALE) as u8,
                                    mint_authority: mint,
                                    top_holders_perc: top,
                                },
                            ),
                        },
                    }
                } else if 0 <= m && spec_whole(m) {
                    Err(DecodeError::OutOfRange(DecodeField::LpBurnedPerc))
                } else {
                    Err(DecodeError::WrongType(DecodeField::LpBurnedPerc))
                },
                Some(_) => Err(DecodeError::WrongType(DecodeField::LpBurnedPerc)),
            },
        },
        _ => Err(DecodeError::WrongType(DecodeField::Audit)),
    }
}

/// The socials record: for Medium and Reddit only presence counts, the
/// other channels carry an optional URL.
pub open spec fn spec_decode_socials(v: JsonValue) -> Result<Socials, DecodeError> {
    match v {
        JsonValue::Obj(entries) => {
            let medium = match spec_lookup(entries@, "medium"@) {
                None => false,
                Some(JsonValue::Null) => false,
                Some(_) => true,
            };
            let reddit = match spec_lookup(entries@, "reddit"@) {
                None => false,
                Some(JsonValue::Null) => false,
                Some(_) => true,
            };
            match spec_opt_string(spec_lookup(entries@, "telegram"@), DecodeField::Telegram) {
                Err(e) => Err(e),
                Ok(telegram) => match spec_opt_string(
                    spec_lookup(entries@, "twitter"@),
                    DecodeField::Twitter,
                ) {
                    Err(e) => Err(e),
                    Ok(twitter) => match spec_opt_string(
                        spec_lookup(entries@, "website"@),
                        DecodeField::Website,
                    ) {
                        Err(e) => Err(e),
                        Ok(website) => Ok(Socials { medium, reddit, telegram, twitter, website }),
                    },
                },
            }
        },
        _ => Err(DecodeError::WrongType(DecodeField::Socials)),
    }
}

/// The current-liquidity record: both figures required.
pub open spec fn spec_decode_liquidity(v: JsonValue) -> Result<Liquidity, DecodeError> {
    match v {
        JsonValue::Obj(entries) => match spec_opt_amount(
            spec_lookup(entries@, "quote"@),
            DecodeField::Quote,
        ) {
            Err(e) => Err(e),
            Ok(None) => Err(DecodeError::MissingField(DecodeField::Quote)),
            Ok(Some(quote)) => match spec_opt_amount(
                spec_lookup(entries@, "usd"@),
                DecodeField::Usd,
            ) {
                Err(e) => Err(e),
                Ok(None) => Err(DecodeError::MissingField(DecodeField::Usd)),
                Ok(Some(usd)) => Ok(Liquidity { quote, usd }),
            },
        },
        _ => Err(DecodeError::WrongType(DecodeField::CurLiq)),
    }
}

/// The initial-liquidity record: every field optional.
pub open spec fn spec_decode_init_liq(v: JsonValue) -> Result<InitialLiquidity, DecodeError> {
    match v {
        JsonValue::Obj(entries) => match spec_opt_amount(
            spec_lookup(entries@, "quote"@),
            DecodeField::Quote,
        ) {
            Err(e) => Err(e),
            Ok(quote) => match spec_opt_seconds(
                spec_lookup(entries@, "timestamp"@),
                DecodeField::Timestamp,
            ) {
                Err(e) => Err(e),
                Ok(timestamp) => match spec_opt_amount(
                    spec_lookup(entries@, "token"@),
                    DecodeField::TokenAmount,
                ) {
                    Err(e) => Err(e),
                    Ok(token) => match spec_opt_amount(
                        spec_lookup(entries@, "usd"@),
                        DecodeField::Usd,
                    ) {
                        Err(e) => Err(e),
                        Ok(usd) => match spec_opt_count(
                            spec_lookup(entries@, "lp_amount"@),
                            DecodeField::LpAmount,
                        ) {
                            Err(e) => Err(e),
                            Ok(lp_amount) => match spec_opt_seconds(
                                spec_lookup(entries@, "open_timestamp"@),
                                DecodeField::OpenTimestamp,
                            ) {
                                Err(e) => Err(e),
                                Ok(open_timestamp) => match spec_opt_percent(
                                    spec_lookup(entries@, "percentage"@),
                                    DecodeField::Percentage,
                                ) {
                                    Err(e) => Err(e),
                                    Ok(percentage) => match spec_opt_bool(
                                        spec_lookup(entries@, "pending"@),
                                        DecodeField::Pending,
                                    ) {
                                        Err(e) => Err(e),
                                        Ok(pending) => Ok(
                                            InitialLiquidity {
                                                quote,
                                                timestamp,
                                                token,
                                                usd,
                                                lp_amount,
                                                open_timestamp,
                                                percentage,
                                                pending,
                                            },
                                        ),
                                    },
                                },
                            },
                        },
                    },
                },
            },
        },
        _ => Err(DecodeError::WrongType(DecodeField::InitLiq)),
    }
}

/// The registry action: only `overwrite` is known.
pub open spec fn spec_decode_action(o: Option<JsonValue>) -> Result<Option<Action>, DecodeError> {
    match o {
        None => Ok(None),
        Some(JsonValue::Null) => Ok(None),
        Some(JsonValue::Str(s)) => if s@ == "overwrite"@ {
            Ok(Some(Action::Overwrite))
        } else {
            Err(DecodeError::WrongType(DecodeField::ActionField))
        },
        Some(_) => Err(DecodeError::WrongType(DecodeField::ActionField)),
    }
}

/// An optional nested record, decoded by its own schema when present.
pub open spec fn spec_opt_audit(o: Option<JsonValue>) -> Result<Option<Audit>, DecodeError> {
    match o {
        None => Ok(None),
        Some(JsonValue::Null) => Ok(None),
        Some(v) => match spec_decode_audit(v) {
            Ok(a) => Ok(Some(a)),
            Err(e) => Err(e),
        },
    }
}

pub open spec fn spec_opt_socials(o: Option<JsonValue>) -> Result<Option<Socials>, DecodeError> {
    match o {
        None => Ok(None),
        Some(JsonValue::Null) => Ok(None),
        Some(v) => match spec_decode_socials(v) {
            Ok(a) => Ok(Some(a)),
            Err(e) => Err(e),
        },
    }
}

pub open spec fn spec_opt_liquidity(o: Option<JsonValue>) -> Result<
    Option<Liquidity>,
    DecodeError,
> {
    match o {
        None => Ok(None),
        Some(JsonValue::Null) => Ok(None),
        Some(v) => match spec_decode_liquidity(v) {
            Ok(a) => Ok(Some(a)),
            Err(e) => Err(e),
        },
    }
}

pub open spec fn spec_opt_init_liq(o: Option<JsonValue>) -> Result<
    Option<InitialLiquidity>,
    DecodeError,
> {
    match o {
        None => Ok(None),
        Some(JsonValue::Null) => Ok(None),
        Some(v) => match spec_decode_init_liq(v) {
            Ok(a) => Ok(Some(a)),
            Err(e) => Err(e),
        },
    }
}

/// The attribute record, field by field; the first offending field in
/// the order below decides the error.
pub open spec fn spec_decode_attributes(entries: Seq<(String, JsonValue)>) -> Result<
    Attributes,
    DecodeError,
> {
    let audit = spec_opt_audit(spec_lookup(entries, "audit"@));
    let buys_count = spec_opt_count(spec_lookup(entries, "buys_count"@), DecodeField::BuysCount);
    let created_timestamp = spec_opt_seconds(
        spec_lookup(entries, "created_timestamp"@),
        DecodeField::CreatedTimestamp,
    );
    let cur_liq = spec_opt_liquidity(spec_lookup(entries, "cur_liq"@));
    let fdv = spec_opt_amount(spec_lookup(entries, "fdv"@), DecodeField::Fdv);
    let holders_count = spec_opt_count_bounded(
        spec_lookup(entries, "holders_count"@),
        DecodeField::HoldersCount,
        MAX_HOLDERS,
    );
    let init_liq = spec_opt_init_liq(spec_lookup(entries, "init_liq"@));
    let name = spec_opt_string(spec_lookup(entries, "name"@), DecodeField::Name);
    let pooled_sol = spec_opt_amount(spec_lookup(entries, "pooled_sol"@), DecodeField::PooledSol);
    let price_usd = spec_opt_amount(spec_lookup(entries, "price_usd"@), DecodeField::PriceUsd);
    let sells_count = spec_opt_count(
        spec_lookup(entries, "sells_count"@),
        DecodeField::SellsCount,
    );
    let snipers_count = spec_opt_count_bounded(
        spec_lookup(entries, "snipers_count"@),
        DecodeField::SnipersCount,
        4294967295u32,
    );
    let socials = spec_opt_socials(spec_lookup(entries, "socials"@));
    let symbol = spec_opt_string(spec_lookup(entries, "symbol"@), DecodeField::Symbol);
    let token_address = spec_opt_string(
        spec_lookup(entries, "tokenAddress"@),
        DecodeField::TokenAddress,
    );
    let volume = spec_opt_amount(spec_lookup(entries, "volume"@), DecodeField::Volume);
    let action = spec_decode_action(spec_lookup(entries, "action"@));
    if audit is Err {
        Err(audit->Err_0)
    } else if buys_count is Err {
        Err(buys_count->Err_0)
    } else if created_timestamp is Err {
        Err(created_timestamp->Err_0)
    } else if cur_liq is Err {
        Err(cur_liq->Err_0)
    } else if fdv is Err {
        Err(fdv->Err_0)
    } else if holders_count is Err {
        Err(holders_count->Err_0)
    } else if init_liq is Err {
        Err(init_liq->Err_0)
    } else if name is Err {
        Err(name->Err_0)
    } else if pooled_sol is Err {
        Err(pooled_sol->Err_0)
    } else if price_usd is Err {
        Err(price_usd->Err_0)
    } else if sells_count is Err {
        Err(sells_count->Err_0)
    } else if snipers_count is Err {
        Err(snipers_count->Err_0)
    } else if socials is Err {
        Err(socials->Err_0)
    } else if symbol is Err {
        Err(symbol->Err_0)
    } else if token_address is Err {
        Err(token_address->Err_0)
    } else if volume is Err {
        Err(volume->Err_0)
    } else if action is Err {
        Err(action->Err_0)
    } else {
        Ok(
            Attributes {
                audit: audit->Ok_0,
                buys_count: buys_count->Ok_0,
                created_timestamp: created_timestamp->Ok_0,
                cur_liq: cur_liq->Ok_0,
                fdv: fdv->Ok_0,
                holders_count: holders_count->Ok_0,
                init_liq: init_liq->Ok_0,
                name: name->Ok_0,
                pooled_sol: pooled_sol->Ok_0,
                price_usd: price_usd->Ok_0,
                sells_count: sells_count->Ok_0,
                snipers_count: snipers_count->Ok_0,
                socials: socials->Ok_0,
                symbol: symbol->Ok_0,
                token_address: token_address->Ok_0,
                volume: volume->Ok_0,
                action: action->Ok_0,
            },
        )
    }
}

/// One whole token record.
pub open spec fn spec_decode_token(v: JsonValue) -> Result<TokenData, DecodeError> {
    match v {
        JsonValue::Obj(entries) => match spec_lookup(entries@, "id"@) {
            None => Err(DecodeError::MissingField(DecodeField::Id)),
            Some(JsonValue::Str(id)) => if id@.len() == 0 {
                Err(DecodeError::OutOfRange(DecodeField::Id))
            } else {
                match spec_lookup(entries@, "type"@) {
                    None => Err(DecodeError::MissingField(DecodeField::Kind)),
                    Some(JsonValue::Str(kind)) => match spec_lookup(entries@, "attributes"@) {
                        None => Err(DecodeError::MissingField(DecodeField::Attributes)),
                        Some(JsonValue::Obj(inner)) => match spec_decode_attributes(inner@) {
                            Err(e) => Err(e),
                            Ok(attributes) => Ok(
                                TokenData { attributes, id, data_type: kind },
                            ),
                        },
                        Some(_) => Err(DecodeError::WrongType(DecodeField::Attributes)),
                    },
                    Some(_) => Err(DecodeError::WrongType(DecodeField::Kind)),
                }
            },
            Some(_) => Err(DecodeError::WrongType(DecodeField::Id)),
        },
        _ => Err(DecodeError::NotAnObject),
    }
}



/// The value an optional borrowed field stands for.
pub open spec fn deref_opt(o: Option<&JsonValue>) -> Option<JsonValue> {
    match o {
        Some(v) => Some(*v),
        None => None,
    }
}

fn opt_string(o: Option<&JsonValue>, f: DecodeField) -> (r: Result<Option<String>, DecodeError>)
    ensures
        r == spec_opt_string(deref_opt(o), f),
{
    match o {
        None => Ok(None),
        Some(JsonValue::Null) => Ok(None),
        Some(JsonValue::Str(s)) => Ok(Some(s.clone())),
        Some(_) => Err(DecodeError::WrongType(f)),
    }
}

fn opt_bool(o: Option<&JsonValue>, f: DecodeField) -> (r: Result<Option<bool>, DecodeError>)
    ensures
        r == spec_opt_bool(deref_opt(o), f),
{
    match o {
        None => Ok(None),
        Some(JsonValue::Null) => Ok(None),
        Some(JsonValue::Bool(b)) => Ok(Some(*b)),
        Some(_) => Err(DecodeError::WrongType(f)),
    }
}

fn opt_amount(o: Option<&JsonValue>, f: DecodeField) -> (r: Result<Option<i64>, DecodeError>)
    ensures
        r == spec_opt_amount(deref_opt(o), f),
{
    match o {
        None => Ok(None),
        Some(JsonValue::Null) => Ok(None),
        Some(JsonValue::Num(m)) => if 0 <= *m && *m <= MAX_AMOUNT_MICROS {
            Ok(Some(*m))
        } else {
            Err(DecodeError::OutOfRange(f))
        },
        Some(_) => Err(DecodeError::WrongType(f)),
    }
}

fn opt_percent(o: Option<&JsonValue>, f: DecodeField) -> (r: Result<Option<i64>, DecodeError>)
    ensures
        r == spec_opt_percent(deref_opt(o), f),
{
    match o {
        None => Ok(None),
        Some(JsonValue::Null) => Ok(None),
        Some(JsonValue::Num(m)) => if 0 <= *m && *m <= MAX_PERCENT_MICROS {
            Ok(Some(*m))
        } else {
            Err(DecodeError::OutOfRange(f))
        },
        Some(_) => Err(DecodeError::WrongType(f)),
    }
}

fn opt_count(o: Option<&JsonValue>, f: DecodeField) -> (r: Result<Option<u64>, DecodeError>)
    ensures
        r == spec_opt_count(deref_opt(o), f),
        r matches Ok(Some(c)) ==> c <= 9_223_372_036_854,
{
    match o {
        None => Ok(None),
        Some(JsonValue::Null) => Ok(None),
        Some(JsonValue::Num(m)) => if 0 <= *m && *m % SCALE == 0 {
            proof {
                vstd::arithmetic::div_mod::lemma_div_is_ordered(
                    *m as int,
                    i64::MAX as int,
                    SCALE as int,
                );
            }
            Ok(Some((*m / SCALE) as u64))
        } else {
            Err(DecodeError::WrongType(f))
        },
        Some(_) => Err(DecodeError::WrongType(f)),
    }
}

fn opt_count_bounded(o: Option<&JsonValue>, f: DecodeField, limit: u32) -> (r: Result<
    Option<u32>,
    DecodeError,
>)
    ensures
        r == spec_opt_count_bounded(deref_opt(o), f, limit),
{
    match opt_count(o, f) {
        Err(e) => Err(e),
        Ok(None) => Ok(None),
        Ok(Some(c)) => if c <= limit as u64 {
            Ok(Some(c as u32))
        } else {
            Err(DecodeError::OutOfRange(f))
        },
    }
}

/// Truncating and floor division agree on exact multiples.
proof fn lemma_whole_div(m: i64)
    requires
        spec_whole(m),
    ensures
        crate::fixed::tdiv(m as int, SCALE as int) == m as int / (SCALE as int),
{
    if m < 0 {
        vstd::arithmetic::div_mod::lemma_fundamental_div_mod(m as int, SCALE as int);
        let q = m as int / (SCALE as int);
        assert(m as int == (SCALE as int) * q);
        assert(-(m as int) == (SCALE as int) * (-q)) by (nonlinear_arith)
            requires
                m as int == (SCALE as int) * q,
        ;
        vstd::arithmetic::div_mod::lemma_div_multiples_vanish(-q, SCALE as int);
    }
}

fn opt_seconds(o: Option<&JsonValue>, f: DecodeField) -> (r: Result<Option<i64>, DecodeError>)
    ensures
        r == spec_opt_seconds(deref_opt(o), f),
        r matches Ok(Some(t)) ==> -9_223_372_036_854 <= t <= 9_223_372_036_854,
{
    match o {
        None => Ok(None),
        Some(JsonValue::Null) => Ok(None),
        Some(JsonValue::Num(m)) => if *m % SCALE == 0 {
            proof {
                lemma_whole_div(*m);
                crate::fixed::lemma_tdiv_bounded(
                    *m as int,
                    SCALE as int,
                    9_223_372_036_854_775_808int,
                );
            }
            Ok(Some(*m / SCALE))
        } else {
            Err(DecodeError::WrongType(f))
        },
        Some(_) => Err(DecodeError::WrongType(f)),
    }
}

fn decode_audit(v: &JsonValue) -> (r: Result<Audit, DecodeError>)
    ensures
        r == spec_decode_audit(*v),
        r matches Ok(a) ==> a.wf(),
{
    match v {
        JsonValue::Obj(entries) => {
            let freeze = match opt_bool(
                lookup(entries, &"freeze_authority".to_owned()),
                DecodeField::FreezeAuthority,
            ) {
                Err(e) => {
                    return Err(e);
                },
                Ok(None) => {
                    return Err(DecodeError::MissingField(DecodeField::FreezeAuthority));
                },
                Ok(Some(b)) => b,
            };
            let lp: u8 = match lookup(entries, &"lp_burned_perc".to_owned()) {
                None => {
                    return Err(DecodeError::MissingField(DecodeField::LpBurnedPerc));
                },
                Some(JsonValue::Num(m)) => if 0 <= *m && *m % SCALE == 0 {
                    if *m / SCALE <= 100 {
                        (*m / SCALE) as u8
                    } else {
                        return Err(DecodeError::OutOfRange(DecodeField::LpBurnedPerc));
                    }
                } else {
                    return Err(DecodeError::WrongType(DecodeField::LpBurnedPerc));
                },
                Some(_) => {
                    return Err(DecodeError::WrongType(DecodeField::LpBurnedPerc));
                },
            };
            let mint = match opt_bool(
                lookup(entries, &"mint_authority".to_owned()),
                DecodeField::MintAuthority,
            ) {
                Err(e) => {
                    return Err(e);
                },
                Ok(None) => {
                    return Err(DecodeError::MissingField(DecodeField::MintAuthority));
                },
                Ok(Some(b)) => b,
            };
            let top = match opt_percent(
                lookup(entries, &"top_holders_perc".to_owned()),
                DecodeField::TopHoldersPerc,
            ) {
                Err(e) => {
                    return Err(e);
                },
                Ok(None) => {
                    return Err(DecodeError::MissingField(DecodeField::TopHoldersPerc));
                },
                Ok(Some(p)) => p,
            };
            Ok(
                Audit {
                    freeze_authority: freeze,
                    lp_burned_perc: lp,
                    mint_authority: mint,
                    top_holders_perc: top,
                },
            )
        },
        _ => Err(DecodeError::WrongType(DecodeField::Audit)),
    }
}

fn decode_socials(v: &JsonValue) -> (r: Result<Socials, DecodeError>)
    ensures
        r == spec_decode_socials(*v),
{
    match v {
        JsonValue::Obj(entries) => {
            let medium = match lookup(entries, &"medium".to_owned()) {
                None => false,
                Some(JsonValue::Null) => false,
                Some(_) => true,
            };
            let reddit = match lookup(entries, &"reddit".to_owned()) {
                None => false,
                Some(JsonValue::Null) => false,
                Some(_) => true,
            };
            let telegram = match opt_string(
                lookup(entries, &"telegram".to_owned()),
                DecodeField::Telegram,
            ) {
                Err(e) => {
                    return Err(e);
                },
                Ok(t) => t,
            };
            let twitter = match opt_string(
                lookup(entries, &"twitter".to_owned()),
                DecodeField::Twitter,
            ) {
                Err(e) => {
                    return Err(e);
                },
                Ok(t) => t,
            };
            let website = match opt_string(
                lookup(entries, &"website".to_owned()),
                DecodeField::Website,
            ) {
                Err(e) => {
                    return Err(e);
                },
                Ok(t) => t,
            };
            Ok(Socials { medium, reddit, telegram, twitter, website })
        },
        _ => Err(DecodeError::WrongType(DecodeField::Socials)),
    }
}

fn decode_liquidity(v: &JsonValue) -> (r: Result<Liquidity, DecodeError>)
    ensures
        r == spec_decode_liquidity(*v),
        r matches Ok(l) ==> l.wf(),
{
    match v {
        JsonValue::Obj(entries) => {
            let quote = match opt_amount(lookup(entries, &"quote".to_owned()), DecodeField::Quote) {
                Err(e) => {
                    return Err(e);
                },
                Ok(None) => {
                    return Err(DecodeError::MissingField(DecodeField::Quote));
                },
                Ok(Some(q)) => q,
            };
            let usd = match opt_amount(lookup(entries, &"usd".to_owned()), DecodeField::Usd) {
                Err(e) => {
                    return Err(e);
                },
                Ok(None) => {
                    return Err(DecodeError::MissingField(DecodeField::Usd));
                },
                Ok(Some(u)) => u,
            };
            Ok(Liquidity { quote, usd })
        },
        _ => Err(DecodeError::WrongType(DecodeField::CurLiq)),
    }
}

fn decode_init_liq(v: &JsonValue) -> (r: Result<InitialLiquidity, DecodeError>)
    ensures
        r == spec_decode_init_liq(*v),
        r matches Ok(l) ==> l.wf(),
{
    match v {
        JsonValue::Obj(entries) => {
            let quote = match opt_amount(lookup(entries, &"quote".to_owned()), DecodeField::Quote) {
                Err(e) => {
                    return Err(e);
                },
                Ok(q) => q,
            };
            let timestamp = match opt_seconds(
                lookup(entries, &"timestamp".to_owned()),
                DecodeField::Timestamp,
            ) {
                Err(e) => {
                    return Err(e);
                },
                Ok(t) => t,
            };
            let token = match opt_amount(
                lookup(entries, &"token".to_owned()),
                DecodeField::TokenAmount,
            ) {
                Err(e) => {
                    return Err(e);
                },
                Ok(t) => t,
            };
            let usd = match opt_amount(lookup(entries, &"usd".to_owned()), DecodeField::Usd) {
                Err(e) => {
                    return Err(e);
                },
                Ok(u) => u,
            };
            let lp_amount = match opt_count(
                lookup(entries, &"lp_amount".to_owned()),
                DecodeField::LpAmount,
            ) {
                Err(e) => {
                    return Err(e);
                },
                Ok(a) => a,
            };
            let open_timestamp = match opt_seconds(
                lookup(entries, &"open_timestamp".to_owned()),
                DecodeField::OpenTimestamp,
            ) {
                Err(e) => {
                    return Err(e);
                },
                Ok(t) => t,
            };
            let percentage = match opt_percent(
                lookup(entries, &"percentage".to_owned()),
                DecodeField::Percentage,
            ) {
                Err(e) => {
                    return Err(e);
                },
                Ok(p) => p,
            };
            let pending = match opt_bool(
                lookup(entries, &"pending".to_owned()),
                DecodeField::Pending,
            ) {
                Err(e) => {
                    return Err(e);
                },
                Ok(p) => p,
            };
            Ok(
                InitialLiquidity {
                    quote,
                    timestamp,
                    token,
                    usd,
                    lp_amount,
                    open_timestamp,
                    percentage,
                    pending,
                },
            )
        },
        _ => Err(DecodeError::WrongType(DecodeField::InitLiq)),
    }
}

fn decode_action(o: Option<&JsonValue>) -> (r: Result<Option<Action>, DecodeError>)
    ensures
        r == spec_decode_action(deref_opt(o)),
{
    match o {
        None => Ok(None),
        Some(JsonValue::Null) => Ok(None),
        Some(JsonValue::Str(s)) => if *s == "overwrite".to_owned() {
            Ok(Some(Action::Overwrite))
        } else {
            Err(DecodeError::WrongType(DecodeField::ActionField))
        },
        Some(_) => Err(DecodeError::WrongType(DecodeField::ActionField)),
    }
}



/// Decodes one attribute record.
#[verifier::rlimit(80)]
fn decode_attributes(entries: &Vec<(String, JsonValue)>) -> (r: Result<Attributes, DecodeError>)
    ensures
        r == spec_decode_attributes(entries@),
        r matches Ok(a) ==> a.wf(),
{
    let audit = match match lookup(entries, &"audit".to_owned()) {
        None => Ok(None),
        Some(JsonValue::Null) => Ok(None),
        Some(v) => match decode_audit(v) {
            Ok(a) => Ok(Some(a)),
            Err(e) => Err(e),
        },
    } {
        Err(e) => {
            return Err(e);
        },
        Ok(a) => a,
    };
    let buys_count = match opt_count(
        lookup(entries, &"buys_count".to_owned()),
        DecodeField::BuysCount,
    ) {
        Err(e) => {
            return Err(e);
        },
        Ok(c) => c,
    };
    let created_timestamp = match opt_seconds(
        lookup(entries, &"created_timestamp".to_owned()),
        DecodeField::CreatedTimestamp,
    ) {
        Err(e) => {
            return Err(e);
        },
        Ok(t) => t,
    };
    let cur_liq = match match lookup(entries, &"cur_liq".to_owned()) {
        None => Ok(None),
        Some(JsonValue::Null) => Ok(None),
        Some(v) => match decode_liquidity(v) {
            Ok(l) => Ok(Some(l)),
            Err(e) => Err(e),
        },
    } {
        Err(e) => {
            return Err(e);
        },
        Ok(l) => l,
    };
    let fdv = match opt_amount(lookup(entries, &"fdv".to_owned()), DecodeField::Fdv) {
        Err(e) => {
            return Err(e);
        },
        Ok(v) => v,
    };
    let holders_count = match opt_count_bounded(
        lookup(entries, &"holders_count".to_owned()),
        DecodeField::HoldersCount,
        MAX_HOLDERS,
    ) {
        Err(e) => {
            return Err(e);
        },
        Ok(c) => c,
    };
    let init_liq = match match lookup(entries, &"init_liq".to_owned()) {
        None => Ok(None),
        Some(JsonValue::Null) => Ok(None),
        Some(v) => match decode_init_liq(v) {
            Ok(l) => Ok(Some(l)),
            Err(e) => Err(e),
        },
    } {
        Err(e) => {
            return Err(e);
        },
        Ok(l) => l,
    };
    let name = match opt_string(lookup(entries, &"name".to_owned()), DecodeField::Name) {
        Err(e) => {
            return Err(e);
        },
        Ok(s) => s,
    };
    let pooled_sol = match opt_amount(
        lookup(entries, &"pooled_sol".to_owned()),
        DecodeField::PooledSol,
    ) {
        Err(e) => {
            return Err(e);
        },
        Ok(v) => v,
    };
    let price_usd = match opt_amount(
        lookup(entries, &"price_usd".to_owned()),
        DecodeField::PriceUsd,
    ) {
        Err(e) => {
            return Err(e);
        },
        Ok(v) => v,
    };
    let sells_count = match opt_count(
        lookup(entries, &"sells_count".to_owned()),
        DecodeField::SellsCount,
    ) {
        Err(e) => {
            return Err(e);
        },
        Ok(c) => c,
    };
    let snipers_count = match opt_count_bounded(
        lookup(entries, &"snipers_count".to_owned()),
        DecodeField::SnipersCount,
        4294967295,
    ) {
        Err(e) => {
            return Err(e);
        },
        Ok(c) => c,
    };
    let socials = match match lookup(entries, &"socials".to_owned()) {
        None => Ok(None),
        Some(JsonValue::Null) => Ok(None),
        Some(v) => match decode_socials(v) {
            Ok(s) => Ok(Some(s)),
            Err(e) => Err(e),
        },
    } {
        Err(e) => {
            return Err(e);
        },
        Ok(s) => s,
    };
    let symbol = match opt_string(lookup(entries, &"symbol".to_owned()), DecodeField::Symbol) {
        Err(e) => {
            return Err(e);
        },
        Ok(s) => s,
    };
    let token_address = match opt_string(
        lookup(entries, &"tokenAddress".to_owned()),
        DecodeField::TokenAddress,
    ) {
        Err(e) => {
            return Err(e);
        },
        Ok(s) => s,
    };
    let volume = match opt_amount(lookup(entries, &"volume".to_owned()), DecodeField::Volume) {
        Err(e) => {
            return Err(e);
        },
        Ok(v) => v,
    };
    let action = match decode_action(lookup(entries, &"action".to_owned())) {
        Err(e) => {
            return Err(e);
        },
        Ok(a) => a,
    };
    Ok(
        Attributes {
            audit,
            buys_count,
            created_timestamp,
            cur_liq,
            fdv,
            holders_count,
            init_liq,
            name,
            pooled_sol,
            price_usd,
            sells_count,
            snipers_count,
            socials,
            symbol,
            token_address,
            volume,
            action,
        },
    )
}

/// Decodes one token record.
pub fn decode_token(v: &JsonValue) -> (r: Result<TokenData, DecodeError>)
    ensures
        r == spec_decode_token(*v),
        r matches Ok(t) ==> t.wf() && t.id@.len() > 0,
{
    match v {
        JsonValue::Obj(entries) => {
            let id: String = match lookup(entries, &"id".to_owned()) {
                None => {
                    return Err(DecodeError::MissingField(DecodeField::Id));
                },
                Some(JsonValue::Str(s)) => if s.as_str().is_empty() {
                    return Err(DecodeError::OutOfRange(DecodeField::Id));
                } else {
                    s.clone()
                },
                Some(_) => {
                    return Err(DecodeError::WrongType(DecodeField::Id));
                },
            };
            let kind: String = match lookup(entries, &"type".to_owned()) {
                None => {
                    return Err(DecodeError::MissingField(DecodeField::Kind));
                },
                Some(JsonValue::Str(s)) => s.clone(),
                Some(_) => {
                    return Err(DecodeError::WrongType(DecodeField::Kind));
                },
            };
            let attributes = match lookup(entries, &"attributes".to_owned()) {
                None => {
                    return Err(DecodeError::MissingField(DecodeField::Attributes));
                },
                Some(JsonValue::Obj(inner)) => match decode_attributes(inner) {
                    Err(e) => {
                        return Err(e);
                    },
                    Ok(a) => a,
                },
                Some(_) => {
                    return Err(DecodeError::WrongType(DecodeField::Attributes));
                },
            };
            Ok(TokenData { attributes, id, data_type: kind })
        },
        _ => Err(DecodeError::NotAnObject),
    }
}


} // verus!
