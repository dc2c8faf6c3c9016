//! The route-step executor: authorizes one swap operation and produces the
//! outbound message for that hop. Multi-hop routing chains these messages
//! through the host's sequential dispatch; each hop sweeps the contract's
//! full current holding of the offer asset forward.

use vstd::prelude::*;
use crate::asset::{Asset, AssetInfo, AssetInfoV, AssetV, Coin, CoinV, MessageInfo, SwapError};
use crate::messages::{opt_str_view, spec_swap_msg, CosmosMsg, CosmosMsgV};

verus! {

/// One routing step: a native-to-native ledger exchange, or a swap through
/// a pool registered for the two asset identities.
#[derive(Debug)]
pub enum SwapOperation {
    NativeSwap { offer_denom: String, ask_denom: String },
    PrismSwap { offer_asset_info: AssetInfo, ask_asset_info: AssetInfo },
}

/// Mathematical model of a [`SwapOperation`].
pub enum SwapOperationV {
    NativeSwap { offer_denom: Seq<char>, ask_denom: Seq<char> },
    PrismSwap { offer_asset_info: AssetInfoV, ask_asset_info: AssetInfoV },
}

impl View for SwapOperation {
    type V = SwapOperationV;

    open spec fn view(&self) -> SwapOperationV {
        match self {
            SwapOperation::NativeSwap { offer_denom, ask_denom } => SwapOperationV::NativeSwap {
                offer_denom: offer_denom@,
                ask_denom: ask_denom@,
            },
            SwapOperation::PrismSwap { offer_asset_info, ask_asset_info } => SwapOperationV::PrismSwap {
                offer_asset_info: offer_asset_info@,
                ask_asset_info: ask_asset_info@,
            },
        }
    }
}

/// What one route step emits, for every caller and every collaborator
/// answer. A caller other than the contract itself is rejected outright and
/// no message is emitted. An authorized native step sweeps the full queried
/// balance: with a final recipient it sends `balance - tax` onward (an
/// underflow when the tax exceeds the balance), without one it swaps the
/// whole balance in place and leaves the proceeds for the next hop. An
/// authorized pool step swaps the full queried balance through the resolved
/// pool, forwarding the optional recipient.
pub open spec fn spec_execute_step(
    contract_address: Seq<char>,
    sender: Seq<char>,
    op: SwapOperationV,
    to: Option<Seq<char>>,
    offer_balance: u128,
    queried_tax: u128,
    pair_contract: Seq<char>,
) -> Result<Seq<CosmosMsgV>, SwapError> {
    if sender != contract_address {
        Err(SwapError::Unauthorized)
    } else {
        match op {
            SwapOperationV::NativeSwap { offer_denom, ask_denom } => match to {
                Some(recipient) => if queried_tax <= offer_balance {
                    Ok(
                        seq![
                            CosmosMsgV::MarketSwapSend {
                                to_address: recipient,
                                offer_coin: CoinV {
                                    denom: offer_denom,
                                    amount: (offer_balance - queried_tax) as u128,
                                },
                                ask_denom,
                            },
                        ],
                    )
                } else {
                    Err(SwapError::ArithmeticUnderflow)
                },
                None => Ok(
                    seq![
                        CosmosMsgV::MarketSwap {
                            offer_coin: CoinV { denom: offer_denom, amount: offer_balance },
                            ask_denom,
                        },
                    ],
                ),
            },
            SwapOperationV::PrismSwap { offer_asset_info, ask_asset_info } => {
                match spec_swap_msg(
                    AssetV { info: offer_asset_info, amount: offer_balance },
                    pair_contract,
                    None,
                    to,
                    queried_tax,
                ) {
                    Ok(m) => Ok(seq![m]),
                    Err(e) => Err(e),
                }
            },
        }
    }
}

/// A caller other than the contract itself is always rejected, and no
/// message is emitted: this holds for every operation, recipient and
/// collaborator answer, so an arbitrary party can never drive an
/// intermediate hop.
pub proof fn lemma_non_self_caller_rejected(
    contract_address: Seq<char>,
    sender: Seq<char>,
    op: SwapOperationV,
    to: Option<Seq<char>>,
    offer_balance: u128,
    queried_tax: u128,
    pair_contract: Seq<char>,
)
    requires
        sender != contract_address,
    ensures
        spec_execute_step(contract_address, sender, op, to, offer_balance, queried_tax, pair_contract)
            == Err::<Seq<CosmosMsgV>, SwapError>(SwapError::Unauthorized),
{
}

/// A native final hop (one that carries a recipient) sends exactly the
/// swept balance less the transfer tax, and fails with an underflow exactly
/// when the tax exceeds the balance.
pub proof fn lemma_native_final_hop_taxed(
    contract_address: Seq<char>,
    offer_denom: Seq<char>,
    ask_denom: Seq<char>,
    recipient: Seq<char>,
    offer_balance: u128,
    queried_tax: u128,
    pair_contract: Seq<char>,
)
    ensures
        ({
            let r = spec_execute_step(
                contract_address,
                contract_address,
                SwapOperationV::NativeSwap { offer_denom, ask_denom },
                Some(recipient),
                offer_balance,
                queried_tax,
                pair_contract,
            );
            if queried_tax <= offer_balance {
                r == Ok::<Seq<CosmosMsgV>, SwapError>(
                    seq![
                        CosmosMsgV::MarketSwapSend {
                            to_address: recipient,
                            offer_coin: CoinV {
                                denom: offer_denom,
                                amount: (offer_balance - queried_tax) as u128,
                            },
                            ask_denom,
                        },
                    ],
                )
            } else {
                r == Err::<Seq<CosmosMsgV>, SwapError>(SwapError::ArithmeticUnderflow)
            }
        }),
{
}

/// Executes one swap operation. `contract_address` is the executing
/// contract's own address; only it may call itself, so arbitrary parties
/// cannot invoke an intermediate hop. The collaborator answers enter as
/// plain values: `offer_balance` is the contract's current holding of the
/// offer asset, `queried_tax` the transfer tax computed for that holding
/// (read only where a native amount leaves the contract), `pair_contract`
/// the pool resolved from the registry (read only for a pool step).
pub fn execute_swap_operation(
    contract_address: &String,
    info: &MessageInfo,
    operation: SwapOperation,
    to: Option<String>,
    offer_balance: u128,
    queried_tax: u128,
    pair_contract: &String,
) -> (r: Result<Vec<CosmosMsg>, SwapError>)
    ensures
        match (
            r,
            spec_execute_step(
                contract_address@,
                info.sender@,
                operation@,
                opt_str_view(to),
                offer_balance,
                queried_tax,
                pair_contract@,
            ),
        ) {
            (Ok(ms), Ok(vs)) => ms@.map_values(|m: CosmosMsg| m@) == vs,
            (Err(e), Err(ev)) => e == ev,
            _ => false,
        },
{
    if !(info.sender == *contract_address) {
        return Err(SwapError::Unauthorized);
    }
    match operation {
        SwapOperation::NativeSwap { offer_denom, ask_denom } => {
            let ghost offer_denom_view = offer_denom@;
            let ghost ask_denom_view = ask_denom@;
            match to {
                Some(recipient) => {
                    let ghost recipient_view = recipient@;
                    if queried_tax <= offer_balance {
                        let amount = offer_balance - queried_tax;
                        let mut msgs: Vec<CosmosMsg> = Vec::new();
                        msgs.push(
                            CosmosMsg::MarketSwapSend {
                                to_address: recipient,
                                offer_coin: Coin { denom: offer_denom, amount },
                                ask_denom,
                            },
                        );
                        proof {
                            assert(msgs@.map_values(|m: CosmosMsg| m@) =~= seq![
                                CosmosMsgV::MarketSwapSend {
                                    to_address: recipient_view,
                                    offer_coin: CoinV { denom: offer_denom_view, amount },
                                    ask_denom: ask_denom_view,
                                },
                            ]);
                        }
                        Ok(msgs)
                    } else {
                        Err(SwapError::ArithmeticUnderflow)
                    }
                },
                None => {
                    let mut msgs: Vec<CosmosMsg> = Vec::new();
                    msgs.push(
                        CosmosMsg::MarketSwap {
                            offer_coin: Coin { denom: offer_denom, amount: offer_balance },
                            ask_denom,
                        },
                    );
                    proof {
                        assert(msgs@.map_values(|m: CosmosMsg| m@) =~= seq![
                            CosmosMsgV::MarketSwap {
                                offer_coin: CoinV {
                                    denom: offer_denom_view,
                                    amount: offer_balance,
                                },
                                ask_denom: ask_denom_view,
                            },
                        ]);
                    }
                    Ok(msgs)
                },
            }
        },
        SwapOperation::PrismSwap { offer_asset_info, ask_asset_info: _ } => {
            let offer_asset = Asset { info: offer_asset_info, amount: offer_balance };
            match offer_asset.into_swap_msg(pair_contract, None, to, queried_tax) {
                Ok(m) => {
                    let ghost m_view = m@;
                    let mut msgs: Vec<CosmosMsg> = Vec::new();
                    msgs.push(m);
                    proof {
                        assert(msgs@.map_values(|m: CosmosMsg| m@) =~= seq![m_view]);
                    }
                    Ok(msgs)
                },
                Err(e) => Err(e),
            }
        },
    }
}

} // verus!
