//! The token snapshot: the latest declared market attributes of one token.
//!
//! Every field of `Attributes` is optional; numeric quantities are held
//! in micro-units (`crate::fixed::SCALE` per whole unit) and bounded so
//! that every derivation downstream stays within machine integers.

use vstd::prelude::*;

verus! {

/// Largest admissible amount in micro-units (prices, volumes,
/// valuations, liquidity): one billion whole units.
pub const MAX_AMOUNT_MICROS: i64 = 1_000_000_000_000_000;

/// One hundred percent in micro-units.
pub const MAX_PERCENT_MICROS: i64 = 100_000_000;

/// Largest admissible holder count: keeps the synthesized holdings
/// distribution within the range the fixed-point scorer accepts.
pub const MAX_HOLDERS: u32 = 1_000_000;

/// Errors surfaced by the snapshot pipeline.
#[derive(Debug)]
pub enum WebSocketError {
    /// A record or batch that does not match the expected shape.
    TokenParse(String),
    /// A structurally valid record that fails a content rule.
    ValidationError(String),
    /// Anything else.
    Other(String),
}

/// Result of the liquidity audit carried by a snapshot.
pub struct Audit {
    pub freeze_authority: bool,
    /// Percentage of liquidity-pool tokens burned, in whole percent.
    pub lp_burned_perc: u8,
    pub mint_authority: bool,
    /// Combined share of the top holders, percent in micro-units.
    pub top_holders_perc: i64,
}

/// Current liquidity, in micro-units.
pub struct Liquidity {
    pub quote: i64,
    pub usd: i64,
}

/// Liquidity at pool creation, in micro-units where monetary.
pub struct InitialLiquidity {
    pub quote: Option<i64>,
    pub timestamp: Option<i64>,
    pub token: Option<i64>,
    pub usd: Option<i64>,
    pub lp_amount: Option<u64>,
    pub open_timestamp: Option<i64>,
    pub percentage: Option<i64>,
    pub pending: Option<bool>,
}

/// Social-media presence declared for a token.  For Medium and Reddit
/// only presence is recorded; the other channels carry their URL.
pub struct Socials {
    pub medium: bool,
    pub reddit: bool,
    pub telegram: Option<String>,
    pub twitter: Option<String>,
    pub website: Option<String>,
}

/// How an inbound record asks to be applied to the registry.
#[derive(Clone, Copy, Debug, PartialEq, Eq, Structural)]
pub enum Action {
    Overwrite,
}

/// The sparse attribute record of one snapshot.
pub struct Attributes {
    pub audit: Option<Audit>,
    pub buys_count: Option<u64>,
    pub created_timestamp: Option<i64>,
    pub cur_liq: Option<Liquidity>,
    pub fdv: Option<i64>,
    pub holders_count: Option<u32>,
    pub init_liq: Option<InitialLiquidity>,
    pub name: Option<String>,
    pub pooled_sol: Option<i64>,
    pub price_usd: Option<i64>,
    pub sells_count: Option<u64>,
    pub snipers_count: Option<u32>,
    pub socials: Option<Socials>,
    pub symbol: Option<String>,
    pub token_address: Option<String>,
    pub volume: Option<i64>,
    pub action: Option<Action>,
}

/// One token's snapshot: identifier, kind discriminator, attributes.
pub struct TokenData {
    pub attributes: Attributes,
    pub id: String,
    pub data_type: String,
}

impl Audit {
    /// The ranges every audit taken into the registry satisfies.
    pub open spec fn wf(&self) -> bool {
        &&& self.lp_burned_perc <= 100
        &&& 0 <= self.top_holders_perc <= MAX_PERCENT_MICROS
    }

    /// An audit is safe when nothing can be frozen or minted, nearly
    /// all liquidity-pool tokens are burned and holdings are dispersed.
    pub fn is_safe(&self) -> (r: bool)
        ensures
            r == (!self.freeze_authority && !self.mint_authority && self.lp_burned_perc >= 95
                && self.top_holders_perc <= 15_000_000),
    {
        !self.freeze_authority && !self.mint_authority && self.lp_burned_perc >= 95
            && self.top_holders_perc <= 15_000_000
    }

    /// The audit's additive risk score.
    pub open spec fn spec_risk_score(&self) -> int {
        (if self.freeze_authority { 2int } else { 0 }) + (if self.mint_authority { 3int } else { 0 })
            + (if self.lp_burned_perc < 95 { 2int } else { 0 }) + (if self.top_holders_perc
            > 15_000_000 { 1int } else { 0 })
    }

    /// Adds two points for a live freeze authority, three for a live
    /// mint authority, two for unburned liquidity and one for
    /// concentrated top holders.
    pub fn get_risk_score(&self) -> (score: u8)
        ensures
            score == self.spec_risk_score(),
    {
        let mut score: u8 = 0;
        if self.freeze_authority {
            score += 2;
        }
        if self.mint_authority {
            score += 3;
        }
        if self.lp_burned_perc < 95 {
            score += 2;
        }
        if self.top_holders_perc > 15_000_000 {
            score += 1;
        }
        score
    }
}

impl Liquidity {
    pub open spec fn wf(&self) -> bool {
        &&& 0 <= self.quote <= MAX_AMOUNT_MICROS
        &&& 0 <= self.usd <= MAX_AMOUNT_MICROS
    }
}

impl InitialLiquidity {
    pub open spec fn wf(&self) -> bool {
        &&& (self.quote matches Some(q) ==> 0 <= q <= MAX_AMOUNT_MICROS)
        &&& (self.token matches Some(t) ==> 0 <= t <= MAX_AMOUNT_MICROS)
        &&& (self.usd matches Some(u) ==> 0 <= u <= MAX_AMOUNT_MICROS)
        &&& (self.percentage matches Some(p) ==> 0 <= p <= MAX_PERCENT_MICROS)
    }

    /// Initial liquidity counts as recorded once quote, token and usd
    /// figures are present and it is explicitly no longer pending.
    pub fn is_valid(&self) -> (r: bool)
        ensures
            r == (self.quote is Some && self.token is Some && self.usd is Some
                && self.pending == Some(false)),
    {
        self.quote.is_some() && self.token.is_some() && self.usd.is_some() && match self.pending {
            Some(p) => !p,
            None => false,
        }
    }

    /// The declared USD value, when present.
    pub fn get_total_value_usd(&self) -> (r: Option<i64>)
        ensures
            r == self.usd,
    {
        self.usd
    }
}

impl Attributes {
    /// The ranges every attribute record taken into the registry
    /// satisfies: present numeric fields are non-negative and bounded.
    pub open spec fn wf(&self) -> bool {
        &&& (self.audit matches Some(a) ==> a.wf())
        &&& (self.buys_count matches Some(c) ==> c <= 9_223_372_036_854)
        &&& (self.sells_count matches Some(c) ==> c <= 9_223_372_036_854)
        &&& (self.created_timestamp matches Some(t) ==> -9_223_372_036_854 <= t
            <= 9_223_372_036_854)
        &&& (self.cur_liq matches Some(l) ==> l.wf())
        &&& (self.fdv matches Some(v) ==> 0 <= v <= MAX_AMOUNT_MICROS)
        &&& (self.holders_count matches Some(h) ==> h <= MAX_HOLDERS)
        &&& (self.init_liq matches Some(l) ==> l.wf())
        &&& (self.pooled_sol matches Some(v) ==> 0 <= v <= MAX_AMOUNT_MICROS)
        &&& (self.price_usd matches Some(v) ==> 0 <= v <= MAX_AMOUNT_MICROS)
        &&& (self.volume matches Some(v) ==> 0 <= v <= MAX_AMOUNT_MICROS)
    }

    /// The declared name, or a fixed placeholder.
    pub fn get_display_name(&self) -> (r: String)
        ensures
            self.name matches Some(n) ==> r@ == n@,
            self.name is None ==> r@ == "Unknown Token"@,
    {
        match &self.name {
            Some(n) => n.clone(),
            None => "Unknown Token".to_owned(),
        }
    }

    /// The declared symbol, or a fixed placeholder.
    pub fn get_symbol_or_default(&self) -> (r: String)
        ensures
            self.symbol matches Some(s) ==> r@ == s@,
            self.symbol is None ==> r@ == "???"@,
    {
        match &self.symbol {
            Some(s) => s.clone(),
            None => "???".to_owned(),
        }
    }

    /// A price is valid when present and strictly positive.
    pub fn has_valid_price(&self) -> (r: bool)
        ensures
            r == (self.price_usd matches Some(p) && p > 0),
    {
        match self.price_usd {
            Some(p) => p > 0,
            None => false,
        }
    }

    /// A volume is valid when present and non-negative.
    pub fn has_valid_volume(&self) -> (r: bool)
        ensures
            r == (self.volume matches Some(v) && v >= 0),
    {
        match self.volume {
            Some(v) => v >= 0,
            None => false,
        }
    }

    /// A holder count is valid when present and strictly positive.
    pub fn has_valid_holders(&self) -> (r: bool)
        ensures
            r == (self.holders_count matches Some(h) && h > 0),
    {
        match self.holders_count {
            Some(h) => h > 0,
            None => false,
        }
    }
}

impl Default for Attributes {
    /// The empty attribute record: every field absent.
    fn default() -> (r: Self)
        ensures
            r.audit is None,
            r.buys_count is None,
            r.created_timestamp is None,
            r.cur_liq is None,
            r.fdv is None,
            r.holders_count is None,
            r.init_liq is None,
            r.name is None,
            r.pooled_sol is None,
            r.price_usd is None,
            r.sells_count is None,
            r.snipers_count is None,
            r.socials is None,
            r.symbol is None,
            r.token_address is None,
            r.volume is None,
            r.action is None,
            r.wf(),
    {
        Attributes {
            audit: None,
            buys_count: None,
            created_timestamp: None,
            cur_liq: None,
            fdv: None,
            holders_count: None,
            init_liq: None,
            name: None,
            pooled_sol: None,
            price_usd: None,
            sells_count: None,
            snipers_count: None,
            socials: None,
            symbol: None,
            token_address: None,
            volume: None,
            action: None,
        }
    }
}

impl TokenData {
    /// The ranges every snapshot taken into the registry satisfies.
    pub open spec fn wf(&self) -> bool {
        self.attributes.wf()
    }

    /// A snapshot is acceptable when its identifier and kind
    /// discriminator are both non-empty.
    pub fn validate(&self) -> (r: Result<(), WebSocketError>)
        ensures
            r is Ok <==> (self.id@.len() > 0 && self.data_type@.len() > 0),
            self.id@.len() == 0 ==> (r matches Err(WebSocketError::TokenParse(m)) && m@
                == "Empty token ID"@),
            self.id@.len() > 0 && self.data_type@.len() == 0 ==> (r matches Err(
                WebSocketError::TokenParse(m),
            ) && m@ == "Empty token type"@),
    {
        if self.id.as_str().is_empty() {
            return Err(WebSocketError::TokenParse("Empty token ID".to_owned()));
        }
        if self.data_type.as_str().is_empty() {
            return Err(WebSocketError::TokenParse("Empty token type".to_owned()));
        }
        Ok(())
    }
}

fn clone_opt_string(o: &Option<String>) -> (r: Option<String>)
    ensures
        r == *o,
{
    match o {
        Some(s) => Some(s.clone()),
        None => None,
    }
}

impl Clone for Audit {
    fn clone(&self) -> (r: Self)
        ensures
            r == *self,
    {
        Audit {
            freeze_authority: self.freeze_authority,
            lp_burned_perc: self.lp_burned_perc,
            mint_authority: self.mint_authority,
            top_holders_perc: self.top_holders_perc,
        }
    }
}

impl Clone for Liquidity {
    fn clone(&self) -> (r: Self)
        ensures
            r == *self,
    {
        Liquidity { quote: self.quote, usd: self.usd }
    }
}

impl Clone for InitialLiquidity {
    fn clone(&self) -> (r: Self)
        ensures
            r == *self,
    {
        InitialLiquidity {
            quote: self.quote,
            timestamp: self.timestamp,
            token: self.token,
            usd: self.usd,
            lp_amount: self.lp_amount,
            open_timestamp: self.open_timestamp,
            percentage: self.percentage,
            pending: self.pending,
        }
    }
}

impl Clone for Socials {
    fn clone(&self) -> (r: Self)
        ensures
            r == *self,
    {
        Socials {
            medium: self.medium,
            reddit: self.reddit,
            telegram: clone_opt_string(&self.telegram),
            twitter: clone_opt_string(&self.twitter),
            website: clone_opt_string(&self.website),
        }
    }
}

impl Clone for Attributes {
    fn clone(&self) -> (r: Self)
        ensures
            r == *self,
    {
        Attributes {
            audit: match &self.audit {
                Some(a) => Some(a.clone()),
                None => None,
            },
            buys_count: self.buys_count,
            created_timestamp: self.created_timestamp,
            cur_liq: match &self.cur_liq {
                Some(l) => Some(l.clone()),
                None => None,
            },
            fdv: self.fdv,
            holders_count: self.holders_count,
            init_liq: match &self.init_liq {
                Some(l) => Some(l.clone()),
                None => None,
            },
            name: clone_opt_string(&self.name),
            pooled_sol: self.pooled_sol,
            price_usd: self.price_usd,
            sells_count: self.sells_count,
            snipers_count: self.snipers_count,
            socials: match &self.socials {
                Some(s) => Some(s.clone()),
                None => None,
            },
            symbol: clone_opt_string(&self.symbol),
            token_address: clone_opt_string(&self.token_address),
            volume: self.volume,
            action: self.action,
        }
    }
}

impl Clone for TokenData {
    fn clone(&self) -> (r: Self)
        ensures
            r == *self,
    {
        TokenData {
            attributes: self.attributes.clone(),
            id: self.id.clone(),
            data_type: self.data_type.clone(),
        }
    }
}

} // verus!
