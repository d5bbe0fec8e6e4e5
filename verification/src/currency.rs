//! Currency identity: an immutable value describing a chain-scoped asset,
//! either native or an addressed token.
//!
//! Equality between identities is defined as same chain and, for tokens, a
//! case-insensitive address match; symbol, name and transfer-fee metadata
//! are explicitly excluded.  A total order by lowercase address exists only
//! within a single chain and only for distinct addresses.

use vstd::prelude::*;
use vstd::string::StrSliceExecFns;
use crate::Error;

verus! {

/// The character sequence that lowercasing a string yields.
pub uninterp spec fn lower_of(s: Seq<char>) -> Seq<char>;

/// Relies on `str::to_lowercase`: the result depends on the characters
/// alone.
#[verifier::external_body]
fn lowercase(s: &str) -> (r: String)
    ensures
        r@ == lower_of(s@),
{
    s.to_lowercase()
}

/// Lexicographic order on character sequences, by code point.
pub open spec fn lex_lt(a: Seq<char>, b: Seq<char>) -> bool
    decreases a.len(),
{
    if b.len() == 0 {
        false
    } else if a.len() == 0 {
        true
    } else if a[0] != b[0] {
        (a[0] as int) < (b[0] as int)
    } else {
        lex_lt(a.skip(1), b.skip(1))
    }
}

/// Lexicographic string comparison, character by character.
fn str_lex_lt(a: &str, b: &str) -> (r: bool)
    ensures
        r == lex_lt(a@, b@),
{
    let la = a.unicode_len();
    let lb = b.unicode_len();
    let min = if la < lb {
        la
    } else {
        lb
    };
    let mut i: usize = 0;
    proof {
        assert(a@.skip(0) =~= a@);
        assert(b@.skip(0) =~= b@);
    }
    while i < min
        invariant
            0 <= i <= min,
            la == a@.len(),
            lb == b@.len(),
            min == if la < lb { la } else { lb },
            lex_lt(a@, b@) == lex_lt(a@.skip(i as int), b@.skip(i as int)),
        decreases min - i,
    {
        let ca = a.get_char(i);
        let cb = b.get_char(i);
        if ca != cb {
            proof {
                assert(a@.skip(i as int)[0] == a@[i as int]);
                assert(b@.skip(i as int)[0] == b@[i as int]);
            }
            return (ca as u32) < (cb as u32);
        }
        proof {
            assert(a@.skip(i as int).skip(1) =~= a@.skip(i + 1));
            assert(b@.skip(i as int).skip(1) =~= b@.skip(i + 1));
        }
        i = i + 1;
    }
    proof {
        assert(a@.skip(i as int).len() == la - i);
        assert(b@.skip(i as int).len() == lb - i);
    }
    la < lb
}

/// The chain-scoped identity shared by every currency: a positive chain
/// identifier, a decimal count below 255, and optional symbol and name
/// that never take part in equality.
#[derive(Debug)]
pub struct BaseCurrency {
    /// The chain the asset lives on; always positive.
    pub chain_id: u32,
    /// The asset's decimal scale; always below 255.
    pub decimals: u32,
    /// Optional display symbol, excluded from equality.
    pub symbol: Option<String>,
    /// Optional display name, excluded from equality.
    pub name: Option<String>,
}

impl BaseCurrency {
    /// Well-formedness: the chain identifier is positive and the decimal
    /// count is in range.
    pub open spec fn wf(self) -> bool {
        self.chain_id > 0 && self.decimals < 255
    }

    /// Builds a base identity from its parts; out-of-range parts are a
    /// caller error and are excluded by contract.
    pub fn new(chain_id: u32, decimals: u32, symbol: Option<String>, name: Option<String>) -> (r:
        BaseCurrency)
        requires
            chain_id > 0,
            decimals < 255,
        ensures
            r == (BaseCurrency { chain_id, decimals, symbol, name }),
    {
        BaseCurrency { chain_id, decimals, symbol, name }
    }

    /// An exact copy of this identity.
    pub fn duplicate(&self) -> (r: BaseCurrency)
        ensures
            r == *self,
    {
        BaseCurrency {
            chain_id: self.chain_id,
            decimals: self.decimals,
            symbol: match &self.symbol {
                Some(s) => Some(s.clone()),
                None => None,
            },
            name: match &self.name {
                Some(s) => Some(s.clone()),
                None => None,
            },
        }
    }
}

/// An addressed token: a base identity plus its contract address and
/// optional transfer-fee metadata in basis points.
#[derive(Debug)]
pub struct Token {
    /// The chain-scoped base identity.
    pub base_currency: BaseCurrency,
    /// The token's contract address.
    pub address: String,
    /// Optional buy-side transfer fee, excluded from equality.
    pub buy_fee_bps: Option<u64>,
    /// Optional sell-side transfer fee, excluded from equality.
    pub sell_fee_bps: Option<u64>,
}

impl Token {
    /// Well-formedness of the base identity.
    pub open spec fn wf(self) -> bool {
        self.base_currency.wf()
    }

    /// Token equality: same chain and case-insensitive address match;
    /// symbol, name, decimals and fees play no part.
    pub open spec fn eq_spec(self, other: Token) -> bool {
        self.base_currency.chain_id == other.base_currency.chain_id && lower_of(self.address@)
            == lower_of(other.address@)
    }

    /// Builds a token identity; out-of-range parts are a caller error and
    /// are excluded by contract.
    pub fn new(
        chain_id: u32,
        address: String,
        decimals: u32,
        symbol: Option<String>,
        name: Option<String>,
        buy_fee_bps: Option<u64>,
        sell_fee_bps: Option<u64>,
    ) -> (r: Token)
        requires
            chain_id > 0,
            decimals < 255,
        ensures
            r.base_currency == (BaseCurrency { chain_id, decimals, symbol, name }),
            r.address == address,
            r.buy_fee_bps == buy_fee_bps,
            r.sell_fee_bps == sell_fee_bps,
            r.wf(),
    {
        Token {
            base_currency: BaseCurrency::new(chain_id, decimals, symbol, name),
            address,
            buy_fee_bps,
            sell_fee_bps,
        }
    }

    /// The checked form of the constructor: out-of-range parameters (a
    /// zero chain identifier or 255 or more decimals) are reported as an
    /// invalid construction instead of being excluded by contract.
    pub fn try_new(
        chain_id: u32,
        address: String,
        decimals: u32,
        symbol: Option<String>,
        name: Option<String>,
        buy_fee_bps: Option<u64>,
        sell_fee_bps: Option<u64>,
    ) -> (r: Result<Token, Error>)
        ensures
            chain_id > 0 && decimals < 255 ==> r is Ok && r->Ok_0.base_currency == (BaseCurrency {
                chain_id,
                decimals,
                symbol,
                name,
            }) && r->Ok_0.address == address && r->Ok_0.buy_fee_bps == buy_fee_bps
                && r->Ok_0.sell_fee_bps == sell_fee_bps && r->Ok_0.wf(),
            !(chain_id > 0 && decimals < 255) ==> r is Err && r->Err_0
                == Error::InvalidConstruction,
    {
        if chain_id == 0 || decimals >= 255 {
            return Err(Error::InvalidConstruction);
        }
        Ok(Token::new(chain_id, address, decimals, symbol, name, buy_fee_bps, sell_fee_bps))
    }

    /// A token is never the chain's native currency.
    pub fn is_native(&self) -> (r: bool)
        ensures
            r == false,
    {
        false
    }

    /// A token is always a token.
    pub fn is_token(&self) -> (r: bool)
        ensures
            r == true,
    {
        true
    }

    /// Whether the two tokens denote the same asset: same chain and
    /// case-insensitive address match.
    pub fn equals(&self, other: &Token) -> (r: bool)
        ensures
            r == self.eq_spec(*other),
    {
        if self.base_currency.chain_id != other.base_currency.chain_id {
            return false;
        }
        let la = lowercase(self.address.as_str());
        let lb = lowercase(other.address.as_str());
        la == lb
    }

    /// Whether this token's lowercase address sorts strictly before the
    /// other's.  Defined only within one chain and for distinct addresses;
    /// anything else is a caller error and is excluded by contract.
    pub fn sorts_before(&self, other: &Token) -> (r: bool)
        requires
            self.base_currency.chain_id == other.base_currency.chain_id,
            lower_of(self.address@) != lower_of(other.address@),
        ensures
            r == lex_lt(lower_of(self.address@), lower_of(other.address@)),
    {
        let la = lowercase(self.address.as_str());
        let lb = lowercase(other.address.as_str());
        str_lex_lt(la.as_str(), lb.as_str())
    }

    /// The checked form of the address order: reports an invalid
    /// comparison for tokens on different chains or with the same
    /// lowercase address, and otherwise answers whether this token sorts
    /// first.
    pub fn try_sorts_before(&self, other: &Token) -> (r: Result<bool, Error>)
        ensures
            self.base_currency.chain_id != other.base_currency.chain_id ==> r is Err
                && r->Err_0 == Error::InvalidComparison,
            self.base_currency.chain_id == other.base_currency.chain_id && lower_of(self.address@)
                == lower_of(other.address@) ==> r is Err && r->Err_0 == Error::InvalidComparison,
            self.base_currency.chain_id == other.base_currency.chain_id && lower_of(self.address@)
                != lower_of(other.address@) ==> r is Ok && r->Ok_0 == lex_lt(
                lower_of(self.address@),
                lower_of(other.address@),
            ),
    {
        if self.base_currency.chain_id != other.base_currency.chain_id {
            return Err(Error::InvalidComparison);
        }
        let la = lowercase(self.address.as_str());
        let lb = lowercase(other.address.as_str());
        if la == lb {
            return Err(Error::InvalidComparison);
        }
        Ok(self.sorts_before(other))
    }

    /// An already-tokenized currency wraps to itself.
    pub fn wrapped(&self) -> (r: Token)
        ensures
            r == *self,
    {
        self.duplicate()
    }

    /// An exact copy of this token identity.
    pub fn duplicate(&self) -> (r: Token)
        ensures
            r == *self,
    {
        Token {
            base_currency: self.base_currency.duplicate(),
            address: self.address.clone(),
            buy_fee_bps: self.buy_fee_bps,
            sell_fee_bps: self.sell_fee_bps,
        }
    }
}

/// A chain-scoped asset: the chain's native currency or an addressed
/// token.  The variant set is closed.
#[derive(Debug)]
pub enum Currency {
    /// The chain's native currency, which has no address.
    Native(BaseCurrency),
    /// An addressed token.
    Token(Token),
}

impl Currency {
    /// Well-formedness of the underlying identity.
    pub open spec fn wf(self) -> bool {
        match self {
            Currency::Native(b) => b.wf(),
            Currency::Token(t) => t.wf(),
        }
    }

    /// The chain the asset lives on.
    pub open spec fn spec_chain_id(self) -> u32 {
        match self {
            Currency::Native(b) => b.chain_id,
            Currency::Token(t) => t.base_currency.chain_id,
        }
    }

    /// The asset's decimal scale.
    pub open spec fn spec_decimals(self) -> u32 {
        match self {
            Currency::Native(b) => b.decimals,
            Currency::Token(t) => t.base_currency.decimals,
        }
    }

    /// Currency equality: native matches native on the same chain, token
    /// matches token on the same chain with a case-insensitive address
    /// match, and native never matches token.
    pub open spec fn eq_spec(self, other: Currency) -> bool {
        match (self, other) {
            (Currency::Native(a), Currency::Native(b)) => a.chain_id == b.chain_id,
            (Currency::Token(a), Currency::Token(b)) => a.eq_spec(b),
            _ => false,
        }
    }

    /// Whether this is the chain's native currency.
    pub fn is_native(&self) -> (r: bool)
        ensures
            r == (self matches Currency::Native(_)),
    {
        match self {
            Currency::Native(_) => true,
            Currency::Token(_) => false,
        }
    }

    /// Whether this is an addressed token.
    pub fn is_token(&self) -> (r: bool)
        ensures
            r == (self matches Currency::Token(_)),
    {
        match self {
            Currency::Native(_) => false,
            Currency::Token(_) => true,
        }
    }

    /// The chain the asset lives on.
    pub fn chain_id(&self) -> (r: u32)
        ensures
            r == self.spec_chain_id(),
    {
        match self {
            Currency::Native(b) => b.chain_id,
            Currency::Token(t) => t.base_currency.chain_id,
        }
    }

    /// The asset's decimal scale.
    pub fn decimals(&self) -> (r: u32)
        ensures
            r == self.spec_decimals(),
    {
        match self {
            Currency::Native(b) => b.decimals,
            Currency::Token(t) => t.base_currency.decimals,
        }
    }

    /// Whether the two currencies denote the same asset.
    pub fn equals(&self, other: &Currency) -> (r: bool)
        ensures
            r == self.eq_spec(*other),
    {
        match (self, other) {
            (Currency::Native(a), Currency::Native(b)) => a.chain_id == b.chain_id,
            (Currency::Token(a), Currency::Token(b)) => a.equals(b),
            _ => false,
        }
    }

    /// An exact copy of this currency identity.
    pub fn duplicate(&self) -> (r: Currency)
        ensures
            r == *self,
    {
        match self {
            Currency::Native(b) => Currency::Native(b.duplicate()),
            Currency::Token(t) => Currency::Token(t.duplicate()),
        }
    }
}

/// Currency equality is reflexive: every identity equals itself.
pub proof fn lemma_equals_reflexive(a: Currency)
    ensures
        a.eq_spec(a),
{
}

/// Currency equality is symmetric: it never depends on the order of the
/// two identities.
pub proof fn lemma_equals_symmetric(a: Currency, b: Currency)
    ensures
        a.eq_spec(b) == b.eq_spec(a),
{
}

/// Currency equality ignores symbol, name, decimals and fee metadata: two
/// identities of the same kind that agree on chain and (for tokens)
/// address character-for-character are equal, whatever the rest of their
/// fields hold.
pub proof fn lemma_equals_ignores_metadata(a: Currency, b: Currency)
    requires
        match (a, b) {
            (Currency::Native(x), Currency::Native(y)) => x.chain_id == y.chain_id,
            (Currency::Token(x), Currency::Token(y)) => x.base_currency.chain_id
                == y.base_currency.chain_id && x.address@ == y.address@,
            _ => false,
        },
    ensures
        a.eq_spec(b),
{
}

} // verus!
