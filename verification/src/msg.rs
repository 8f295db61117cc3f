use crate::state::{coins_view, CoinV, Coin, Recipient};
use vstd::prelude::*;

verus! {

/// One outbound transfer instruction, in the order-preserving model the
/// builder works with. A `NativeTransfer` moves native coins straight to the
/// recipient; a `DelegatedTransfer` directs a token contract to move `amount`
/// units of its token to the recipient.
#[derive(Debug, Clone, PartialEq, Eq)]
pub enum OutboundInstruction {
    NativeTransfer { to: String, coins: Vec<Coin> },
    DelegatedTransfer { token_contract: String, to: String, amount: u128 },
}

/// Mathematical model of an `OutboundInstruction`.
pub ghost enum OutboundInstructionV {
    NativeTransfer { to: Seq<char>, coins: Seq<CoinV> },
    DelegatedTransfer { token_contract: Seq<char>, to: Seq<char>, amount: u128 },
}

impl View for OutboundInstruction {
    type V = OutboundInstructionV;

    open spec fn view(&self) -> OutboundInstructionV {
        match self {
            OutboundInstruction::NativeTransfer { to, coins } => {
                OutboundInstructionV::NativeTransfer { to: to@, coins: coins_view(coins@) }
            },
            OutboundInstruction::DelegatedTransfer { token_contract, to, amount } => {
                OutboundInstructionV::DelegatedTransfer {
                    token_contract: token_contract@,
                    to: to@,
                    amount: *amount,
                }
            },
        }
    }
}

pub open spec fn instrs_view(s: Seq<OutboundInstruction>) -> Seq<OutboundInstructionV> {
    s.map_values(|i: OutboundInstruction| i@)
}

/// One instruction in the shape the chain runtime takes: a direct bank send,
/// or the execution of a token contract with serialized call data.
#[derive(Debug, Clone, PartialEq, Eq)]
pub enum ChainMsg {
    BankSend { to_address: String, amount: Vec<Coin> },
    WasmExecute { contract_addr: String, msg: Vec<u8>, funds: Vec<Coin> },
}

/// Mathematical model of a `ChainMsg`.
pub ghost enum ChainMsgV {
    BankSend { to_address: Seq<char>, amount: Seq<CoinV> },
    WasmExecute { contract_addr: Seq<char>, msg: Seq<u8>, funds: Seq<CoinV> },
}

impl View for ChainMsg {
    type V = ChainMsgV;

    open spec fn view(&self) -> ChainMsgV {
        match self {
            ChainMsg::BankSend { to_address, amount } => {
                ChainMsgV::BankSend { to_address: to_address@, amount: coins_view(amount@) }
            },
            ChainMsg::WasmExecute { contract_addr, msg, funds } => {
                ChainMsgV::WasmExecute {
                    contract_addr: contract_addr@,
                    msg: msg@,
                    funds: coins_view(funds@),
                }
            },
        }
    }
}

pub open spec fn chain_view(s: Seq<ChainMsg>) -> Seq<ChainMsgV> {
    s.map_values(|m: ChainMsg| m@)
}

/// One descriptive tag on a response.
#[derive(Debug, Clone, PartialEq, Eq)]
pub struct Attribute {
    pub key: String,
    pub value: String,
}

/// Mathematical model of an `Attribute`.
pub ghost struct AttributeV {
    pub key: Seq<char>,
    pub value: Seq<char>,
}

impl View for Attribute {
    type V = AttributeV;

    open spec fn view(&self) -> AttributeV {
        AttributeV { key: self.key@, value: self.value@ }
    }
}

pub open spec fn attrs_view(s: Seq<Attribute>) -> Seq<AttributeV> {
    s.map_values(|a: Attribute| a@)
}

/// The outbound response: the instruction batch plus descriptive tags.
#[derive(Debug, Clone, PartialEq, Eq)]
pub struct DisburseResponse {
    pub messages: Vec<ChainMsg>,
    pub attributes: Vec<Attribute>,
}

/// The command recovered from a delegated-call notification's embedded
/// payload.
#[derive(Debug, Clone, PartialEq, Eq)]
pub enum ReceiveMsg {
    Send { recipients: Vec<Recipient> },
}

/// An inbound command. A `Receive` is a token contract relaying a
/// transfer-initiated command: it carries the originating sender, the
/// transferred quantity, and the embedded payload's decode outcome (`None`
/// when the payload did not match the command schema). A `Send` supplies the
/// recipient list directly.
#[derive(Debug, Clone, PartialEq, Eq)]
pub enum HandleMsg {
    Receive { sender: String, amount: u128, msg: Option<ReceiveMsg> },
    Send { recipients: Vec<Recipient> },
}

} // verus!
