//! Asset abstraction: the two asset representations, pair records, and the
//! plain-value types that stand for ledger coins and call metadata.
//!
//! Ledger lookups (balances, tax, symbols) are external collaborators: their
//! results enter these functions as plain values, and every decision made on
//! them is stated in a contract.

use vstd::prelude::*;
use vstd::string::StringSliceAdditionalSpecFns;
use vstd::utf8::encode_utf8;

verus! {

/// Error taxonomy of the routing core. Every failure aborts the current
/// invocation; nothing is retried inside the library.
#[derive(Clone, Copy, Debug, PartialEq, Eq, Structural)]
pub enum SwapError {
    /// The caller of a route step is not the executing contract itself.
    Unauthorized,
    /// A tax or deduction exceeds the available amount.
    ArithmeticUnderflow,
    /// Attached native funds do not match the declared asset amount.
    BalanceMismatch,
    /// An address is not in canonical lowercase form.
    InvalidAddress,
}

/// Identity of an asset: a native ledger denomination or the address of a
/// token contract.
#[derive(Debug)]
pub enum AssetInfo {
    Native { denom: String },
    Cw20 { contract_addr: String },
}

impl Clone for AssetInfo {
    fn clone(&self) -> (r: Self)
        ensures
            r@ == self@,
    {
        match self {
            AssetInfo::Native { denom } => AssetInfo::Native { denom: denom.clone() },
            AssetInfo::Cw20 { contract_addr } => AssetInfo::Cw20 {
                contract_addr: contract_addr.clone(),
            },
        }
    }
}

/// Mathematical model of an [`AssetInfo`]: the same tag over character
/// sequences.
pub enum AssetInfoV {
    Native { denom: Seq<char> },
    Cw20 { contract_addr: Seq<char> },
}

impl View for AssetInfo {
    type V = AssetInfoV;

    open spec fn view(&self) -> AssetInfoV {
        match self {
            AssetInfo::Native { denom } => AssetInfoV::Native { denom: denom@ },
            AssetInfo::Cw20 { contract_addr } => AssetInfoV::Cw20 { contract_addr: contract_addr@ },
        }
    }
}

/// The characters whose encoding serves as the storage/comparison key of an
/// asset identity: the denomination for a native asset, the token contract
/// address otherwise. The two variants share one string space; the key does
/// not carry the tag.
pub open spec fn canonical_chars(info: AssetInfoV) -> Seq<char> {
    match info {
        AssetInfoV::Native { denom } => denom,
        AssetInfoV::Cw20 { contract_addr } => contract_addr,
    }
}

/// A balance lookup for the host to perform: either a ledger (bank) balance
/// of a denomination or a token-contract balance query.
#[derive(Clone, Debug)]
pub enum BalanceQuery {
    Bank { address: String, denom: String },
    Token { contract_addr: String, address: String },
}

/// Mathematical model of a [`BalanceQuery`].
pub enum BalanceQueryV {
    Bank { address: Seq<char>, denom: Seq<char> },
    Token { contract_addr: Seq<char>, address: Seq<char> },
}

impl View for BalanceQuery {
    type V = BalanceQueryV;

    open spec fn view(&self) -> BalanceQueryV {
        match self {
            BalanceQuery::Bank { address, denom } => BalanceQueryV::Bank {
                address: address@,
                denom: denom@,
            },
            BalanceQuery::Token { contract_addr, address } => BalanceQueryV::Token {
                contract_addr: contract_addr@,
                address: address@,
            },
        }
    }
}

/// The balance lookup that resolves the holding of `info` by `holder`: a
/// bank query of the denomination for a native asset, a token-contract
/// query otherwise.
pub open spec fn spec_balance_query(info: AssetInfoV, holder: Seq<char>) -> BalanceQueryV {
    match info {
        AssetInfoV::Native { denom } => BalanceQueryV::Bank { address: holder, denom },
        AssetInfoV::Cw20 { contract_addr } => BalanceQueryV::Token { contract_addr, address: holder },
    }
}

impl AssetInfo {
    /// True exactly for the native-denomination variant.
    pub fn is_native_token(&self) -> (r: bool)
        ensures
            r == self@ is Native,
    {
        match self {
            AssetInfo::Native { .. } => true,
            AssetInfo::Cw20 { .. } => false,
        }
    }

    /// The stable byte key of this asset identity: the UTF-8 bytes of the
    /// denomination for a native asset, of the contract address otherwise.
    pub fn as_bytes(&self) -> (r: &[u8])
        ensures
            r@ == encode_utf8(canonical_chars(self@)),
    {
        match self {
            AssetInfo::Native { denom } => denom.as_str().as_bytes(),
            AssetInfo::Cw20 { contract_addr } => contract_addr.as_str().as_bytes(),
        }
    }

    /// The balance lookup that resolves the holding of this asset by
    /// `pool_addr`; the host adapter executes it and hands the amount back.
    pub fn query_pool(&self, pool_addr: &String) -> (q: BalanceQuery)
        ensures
            q@ == spec_balance_query(self@, pool_addr@),
    {
        match self {
            AssetInfo::Native { denom } => BalanceQuery::Bank {
                address: pool_addr.clone(),
                denom: denom.clone(),
            },
            AssetInfo::Cw20 { contract_addr } => BalanceQuery::Token {
                contract_addr: contract_addr.clone(),
                address: pool_addr.clone(),
            },
        }
    }
}

/// An amount of one native denomination, as attached to a ledger message.
#[derive(Debug)]
pub struct Coin {
    pub denom: String,
    pub amount: u128,
}

impl Clone for Coin {
    fn clone(&self) -> (r: Self)
        ensures
            r@ == self@,
    {
        Coin { denom: self.denom.clone(), amount: self.amount }
    }
}

/// Mathematical model of a [`Coin`].
pub struct CoinV {
    pub denom: Seq<char>,
    pub amount: u128,
}

impl View for Coin {
    type V = CoinV;

    open spec fn view(&self) -> CoinV {
        CoinV { denom: self.denom@, amount: self.amount }
    }
}

/// A fixed-point decimal fraction, carried through to the pool as a
/// slippage bound; this core never computes with it.
#[derive(Clone, Copy, Debug, PartialEq, Eq, Structural)]
pub struct Decimal {
    /// The fraction numerator at the ledger's fixed decimal scale.
    pub atomics: u128,
}

/// Metadata of an incoming call: who sent it and which native funds were
/// attached to it.
#[derive(Clone, Debug)]
pub struct MessageInfo {
    pub sender: String,
    pub funds: Vec<Coin>,
}

/// An amount paired with an asset identity.
#[derive(Debug)]
pub struct Asset {
    pub info: AssetInfo,
    pub amount: u128,
}

impl Clone for Asset {
    fn clone(&self) -> (r: Self)
        ensures
            r@ == self@,
    {
        Asset { info: self.info.clone(), amount: self.amount }
    }
}

/// Mathematical model of an [`Asset`].
pub struct AssetV {
    pub info: AssetInfoV,
    pub amount: u128,
}

impl View for Asset {
    type V = AssetV;

    open spec fn view(&self) -> AssetV {
        AssetV { info: self.info@, amount: self.amount }
    }
}

/// The first coin of `funds` whose denomination is `denom`, if any.
pub open spec fn first_coin_with_denom(funds: Seq<Coin>, denom: Seq<char>) -> Option<CoinV>
    decreases funds.len(),
{
    if funds.len() == 0 {
        None
    } else if funds[0].denom@ == denom {
        Some(funds[0]@)
    } else {
        first_coin_with_denom(funds.drop_first(), denom)
    }
}

proof fn lemma_first_coin_skip(funds: Seq<Coin>, denom: Seq<char>, i: int)
    requires
        0 <= i <= funds.len(),
        forall|j: int| 0 <= j < i ==> funds[j].denom@ != denom,
    ensures
        first_coin_with_denom(funds, denom) == first_coin_with_denom(funds.skip(i), denom),
    decreases i,
{
    if i > 0 {
        assert(funds.drop_first() =~= funds.skip(1));
        lemma_first_coin_skip(funds.skip(1), denom, i - 1);
        assert(funds.skip(1).skip(i - 1) =~= funds.skip(i));
    } else {
        assert(funds.skip(0) =~= funds);
    }
}

/// Whether the declared asset agrees with the native funds attached to a
/// call: for a native asset, the first attached coin of its denomination
/// must carry exactly the declared amount, and with no such coin the
/// declared amount must be exactly zero; a contract-token asset never
/// carries attached value, so it always agrees.
pub open spec fn funds_match(info: AssetInfoV, amount: u128, funds: Seq<Coin>) -> bool {
    match info {
        AssetInfoV::Native { denom } => match first_coin_with_denom(funds, denom) {
            Some(c) => c.amount == amount,
            None => amount == 0,
        },
        AssetInfoV::Cw20 { .. } => true,
    }
}

impl Asset {
    /// The ledger-level deduction incurred when this asset moves: the
    /// collaborator-computed tax for a native asset, always zero for a
    /// contract token, whatever the collaborator answered.
    pub fn compute_tax(&self, queried_tax: u128) -> (r: u128)
        ensures
            r == spec_transfer_tax(self.info@, queried_tax),
    {
        match &self.info {
            AssetInfo::Native { .. } => queried_tax,
            AssetInfo::Cw20 { .. } => 0,
        }
    }

    /// Checks the declared amount against the funds attached to the call;
    /// any disagreement is a [`SwapError::BalanceMismatch`].
    pub fn assert_sent_native_token_balance(&self, message_info: &MessageInfo) -> (r: Result<
        (),
        SwapError,
    >)
        ensures
            r is Ok <==> funds_match(self.info@, self.amount, message_info.funds@),
            r is Err ==> r == Err::<(), SwapError>(SwapError::BalanceMismatch),
    {
        match &self.info {
            AssetInfo::Native { denom } => {
                let n = message_info.funds.len();
                let mut i: usize = 0;
                while i < n
                    invariant
                        0 <= i <= n,
                        n == message_info.funds.len(),
                        self.info@ == (AssetInfoV::Native { denom: denom@ }),
                        forall|j: int| 0 <= j < i ==> message_info.funds@[j].denom@ != denom@,
                    decreases n - i,
                {
                    if message_info.funds[i].denom == *denom {
                        proof {
                            lemma_first_coin_skip(message_info.funds@, denom@, i as int);
                            assert(message_info.funds@.skip(i as int)[0] == message_info.funds@[i as int]);
                            assert(first_coin_with_denom(message_info.funds@.skip(i as int), denom@)
                                == Some(message_info.funds@[i as int]@));
                        }
                        if self.amount == message_info.funds[i].amount {
                            return Ok(());
                        } else {
                            return Err(SwapError::BalanceMismatch);
                        }
                    }
                    i += 1;
                }
                proof {
                    lemma_first_coin_skip(message_info.funds@, denom@, n as int);
                }
                if self.amount == 0 {
                    Ok(())
                } else {
                    Err(SwapError::BalanceMismatch)
                }
            },
            AssetInfo::Cw20 { .. } => Ok(()),
        }
    }
}

/// The tax dispatch of [`Asset::compute_tax`]: the collaborator's answer is
/// read only for a native asset.
pub open spec fn spec_transfer_tax(info: AssetInfoV, queried_tax: u128) -> u128 {
    match info {
        AssetInfoV::Native { .. } => queried_tax,
        AssetInfoV::Cw20 { .. } => 0u128,
    }
}

/// Registry record of a pair: its two asset identities, the pool contract
/// address, and the pool's liquidity-token address. The registry creates it
/// once; this core only reads it.
#[derive(Clone, Debug)]
pub struct PairInfo {
    pub asset_infos: [AssetInfo; 2],
    pub contract_addr: String,
    pub liquidity_token: String,
}

impl PairInfo {
    /// The two balance lookups that resolve the pool's holdings of its two
    /// assets; the host adapter executes them.
    pub fn query_pools(&self, contract_addr: &String) -> (qs: (BalanceQuery, BalanceQuery))
        ensures
            qs.0@ == spec_balance_query(self.asset_infos[0]@, contract_addr@),
            qs.1@ == spec_balance_query(self.asset_infos[1]@, contract_addr@),
    {
        (self.asset_infos[0].query_pool(contract_addr), self.asset_infos[1].query_pool(
            contract_addr,
        ))
    }

    /// Pairs the two queried pool balances back with the pair's asset
    /// identities, in order.
    pub fn pools_with_balances(&self, balance0: u128, balance1: u128) -> (pools: [Asset; 2])
        ensures
            pools[0]@ == (AssetV { info: self.asset_infos[0]@, amount: balance0 }),
            pools[1]@ == (AssetV { info: self.asset_infos[1]@, amount: balance1 }),
    {
        [
            Asset { info: self.asset_infos[0].clone(), amount: balance0 },
            Asset { info: self.asset_infos[1].clone(), amount: balance1 },
        ]
    }
}

/// The lowercase equivalent of a character sequence, as `str::to_lowercase`
/// computes it.
pub uninterp spec fn lower_of(s: Seq<char>) -> Seq<char>;

/// The uppercase equivalent of a character sequence, as `str::to_uppercase`
/// computes it.
pub uninterp spec fn upper_of(s: Seq<char>) -> Seq<char>;

/// Relies on `str::to_lowercase`: its result is the lowercase equivalent of
/// the input, a function of the input's characters alone.
#[verifier::external_body]
fn to_lowercase_string(s: &str) -> (r: String)
    ensures
        r@ == lower_of(s@),
{
    s.to_lowercase()
}

/// Relies on `str::to_uppercase`: its result is the uppercase equivalent of
/// the input, a function of the input's characters alone.
#[verifier::external_body]
fn to_uppercase_string(s: &str) -> (r: String)
    ensures
        r@ == upper_of(s@),
{
    s.to_uppercase()
}

/// Accepts an address only in canonical, case-stable form: the input must
/// already equal its own lowercase form. The host's address-format
/// validation remains with the host adapter; this check alone decides
/// [`SwapError::InvalidAddress`].
pub fn addr_validate_to_lower(addr: &String) -> (r: Result<String, SwapError>)
    ensures
        r is Ok <==> lower_of(addr@) == addr@,
        r matches Ok(a) ==> a@ == addr@,
        r is Err ==> r == Err::<String, SwapError>(SwapError::InvalidAddress),
{
    let lowered = to_lowercase_string(addr.as_str());
    if lowered == *addr {
        Ok(lowered)
    } else {
        Err(SwapError::InvalidAddress)
    }
}

/// The character budget of each half of a liquidity-token symbol.
pub const TOKEN_SYMBOL_MAX_LENGTH: usize = 6;

/// The characters a liquidity-token symbol half is drawn from: the
/// denomination itself for a native asset, the queried token symbol for a
/// contract token.
pub open spec fn lp_symbol_source(info: AssetInfoV, queried_symbol: Seq<char>) -> Seq<char> {
    match info {
        AssetInfoV::Native { denom } => denom,
        AssetInfoV::Cw20 { .. } => queried_symbol,
    }
}

/// The first [`TOKEN_SYMBOL_MAX_LENGTH`] characters of a symbol source, or
/// all of it when it is shorter.
pub open spec fn symbol_prefix(s: Seq<char>) -> Seq<char> {
    if s.len() <= TOKEN_SYMBOL_MAX_LENGTH { s } else { s.take(TOKEN_SYMBOL_MAX_LENGTH as int) }
}

/// The derived liquidity-token display name: both truncated symbol halves
/// joined by a dash, suffixed with `-LP`, upper-cased.
pub open spec fn spec_lp_token_name(
    info0: AssetInfoV,
    sym0: Seq<char>,
    info1: AssetInfoV,
    sym1: Seq<char>,
) -> Seq<char> {
    upper_of(
        symbol_prefix(lp_symbol_source(info0, sym0)) + seq!['-'] + symbol_prefix(
            lp_symbol_source(info1, sym1),
        ) + seq!['-', 'L', 'P'],
    )
}

/// Each half of a liquidity-token name keeps at most
/// [`TOKEN_SYMBOL_MAX_LENGTH`] characters, whatever the queried symbol was.
pub proof fn lemma_lp_symbol_half_len(info: AssetInfoV, queried_symbol: Seq<char>)
    ensures
        symbol_prefix(lp_symbol_source(info, queried_symbol)).len() <= TOKEN_SYMBOL_MAX_LENGTH,
{
}

fn short_symbol(info: &AssetInfo, queried_symbol: &String) -> (r: String)
    ensures
        r@ == symbol_prefix(lp_symbol_source(info@, queried_symbol@)),
{
    let source: &String = match info {
        AssetInfo::Native { denom } => denom,
        AssetInfo::Cw20 { .. } => queried_symbol,
    };
    let len = source.as_str().unicode_len();
    let end = if len < TOKEN_SYMBOL_MAX_LENGTH {
        len
    } else {
        TOKEN_SYMBOL_MAX_LENGTH
    };
    let sub = source.as_str().substring_char(0, end);
    proof {
        assert(sub@ =~= symbol_prefix(source@));
    }
    sub.to_owned()
}

/// Derives the display name of a pair's liquidity token from its two asset
/// identities. `queried_symbol0` and `queried_symbol1` are the token
/// symbols the collaborator returned for the respective entry; each is read
/// only when that entry is a contract token.
pub fn format_lp_token_name(
    asset_infos: &[AssetInfo; 2],
    queried_symbol0: &String,
    queried_symbol1: &String,
) -> (r: String)
    ensures
        r@ == spec_lp_token_name(
            asset_infos[0]@,
            queried_symbol0@,
            asset_infos[1]@,
            queried_symbol1@,
        ),
{
    let mut name = short_symbol(&asset_infos[0], queried_symbol0);
    name.append("-");
    let second = short_symbol(&asset_infos[1], queried_symbol1);
    name.append(second.as_str());
    name.append("-LP");
    proof {
        reveal_strlit("-");
        reveal_strlit("-LP");
        assert("-"@ =~= seq!['-']);
        assert("-LP"@ =~= seq!['-', 'L', 'P']);
    }
    to_uppercase_string(name.as_str())
}

} // verus!
