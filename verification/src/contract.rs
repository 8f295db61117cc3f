use crate::error::ContractError;
use crate::msg::{
    attrs_view, chain_view, instrs_view, Attribute, AttributeV, ChainMsg, ChainMsgV,
    DisburseResponse, HandleMsg, OutboundInstruction, OutboundInstructionV, ReceiveMsg,
};
use crate::state::{
    clone_coins, coins_view, recipients_view, Coin, CoinV, Recipient, RecipientV, TokenAmountV,
};
use vstd::prelude::*;

verus! {

/// The delegated-transfer instructions owed for one recipient's token
/// entries, in entry order; a zero-quantity entry yields none.
pub open spec fn delegated_instrs(addr: Seq<char>, tokens: Seq<TokenAmountV>) -> Seq<
    OutboundInstructionV,
>
    decreases tokens.len(),
{
    if tokens.len() == 0 {
        Seq::empty()
    } else {
        delegated_instrs(addr, tokens.drop_last()) + (if tokens.last().amount > 0 {
            seq![
                (OutboundInstructionV::DelegatedTransfer {
                    token_contract: tokens.last().address,
                    to: addr,
                    amount: tokens.last().amount,
                }),
            ]
        } else {
            Seq::empty()
        })
    }
}

/// The native-transfer instruction owed to one recipient: one instruction
/// carrying the full coin set when it is non-empty, none otherwise.
pub open spec fn native_instrs(r: RecipientV) -> Seq<OutboundInstructionV> {
    if r.amount.native.len() == 0 {
        Seq::empty()
    } else {
        seq![(OutboundInstructionV::NativeTransfer { to: r.address, coins: r.amount.native })]
    }
}

/// Everything owed to one recipient: the native instruction, if any, followed
/// by the delegated-transfer instructions in token-entry order.
pub open spec fn recipient_instrs(r: RecipientV) -> Seq<OutboundInstructionV> {
    native_instrs(r) + delegated_instrs(r.address, r.amount.tokens)
}

/// The whole batch: each recipient's instructions, in recipient-list order.
pub open spec fn build_plan(rs: Seq<RecipientV>) -> Seq<OutboundInstructionV>
    decreases rs.len(),
{
    if rs.len() == 0 {
        Seq::empty()
    } else {
        build_plan(rs.drop_last()) + recipient_instrs(rs.last())
    }
}

/// Turns a recipient list into the ordered batch of outbound transfer
/// instructions: for each recipient in list order, a native transfer when the
/// recipient's coin set is non-empty, then one delegated transfer per
/// positive-quantity token entry, in entry order.
pub fn build(recipients: &Vec<Recipient>) -> (out: Vec<OutboundInstruction>)
    ensures
        instrs_view(out@) == build_plan(recipients_view(recipients@)),
{
    let mut out: Vec<OutboundInstruction> = Vec::new();
    let n = recipients.len();
    for i in 0..n
        invariant
            n == recipients.len(),
            instrs_view(out@) == build_plan(recipients_view(recipients@).take(i as int)),
    {
        let r = &recipients[i];
        let ghost rv = recipients_view(recipients@)[i as int];
        let ghost before = out@;
        proof {
            assert(rv == recipients@[i as int]@);
        }
        if r.amount.native.len() > 0 {
            let coins = clone_coins(&r.amount.native);
            out.push(OutboundInstruction::NativeTransfer { to: r.address.clone(), coins });
            proof {
                assert(out@.last()@ == (OutboundInstructionV::NativeTransfer {
                    to: rv.address,
                    coins: rv.amount.native,
                }));
                lemma_instrs_view_push(before, out@.last());
            }
        }
        proof {
            assert(instrs_view(out@) =~= build_plan(recipients_view(recipients@).take(i as int))
                + native_instrs(rv));
        }
        let ghost mid = out@;
        let m = r.amount.tokens.len();
        for j in 0..m
            invariant
                n == recipients.len(),
                m == recipients@[i as int].amount.tokens.len(),
                0 <= i < n,
                rv == recipients_view(recipients@)[i as int],
                rv == recipients@[i as int]@,
                instrs_view(mid) == build_plan(recipients_view(recipients@).take(i as int))
                    + native_instrs(rv),
                instrs_view(out@) == instrs_view(mid) + delegated_instrs(
                    rv.address,
                    rv.amount.tokens.take(j as int),
                ),
        {
            let t = &recipients[i].amount.tokens[j];
            let ghost before_j = out@;
            proof {
                assert(t@ == rv.amount.tokens[j as int]);
                assert(rv.amount.tokens.take(j + 1).drop_last() =~= rv.amount.tokens.take(
                    j as int,
                ));
            }
            if t.amount > 0 {
                out.push(OutboundInstruction::DelegatedTransfer {
                    token_contract: t.address.clone(),
                    to: recipients[i].address.clone(),
                    amount: t.amount,
                });
                proof {
                    lemma_instrs_view_push(before_j, out@.last());
                    assert(out@.last()@ == (OutboundInstructionV::DelegatedTransfer {
                        token_contract: rv.amount.tokens[j as int].address,
                        to: rv.address,
                        amount: rv.amount.tokens[j as int].amount,
                    }));
                }
            }
            proof {
                assert(instrs_view(out@) =~= instrs_view(mid) + delegated_instrs(
                    rv.address,
                    rv.amount.tokens.take(j + 1),
                ));
            }
        }
        proof {
            assert(rv.amount.tokens.take(m as int) =~= rv.amount.tokens);
            assert(recipients_view(recipients@).take(i + 1).drop_last() =~= recipients_view(
                recipients@,
            ).take(i as int));
            assert(recipients_view(recipients@).take(i + 1).last() == rv);
            assert(instrs_view(out@) =~= build_plan(recipients_view(recipients@).take(i + 1)));
        }
    }
    proof {
        assert(recipients_view(recipients@).take(recipients@.len() as int) =~= recipients_view(
            recipients@,
        ));
    }
    out
}

/// Pushing one instruction extends the modeled batch by that instruction's
/// model.
proof fn lemma_instrs_view_push(s: Seq<OutboundInstruction>, x: OutboundInstruction)
    ensures
        instrs_view(s.push(x)) == instrs_view(s).push(x@),
{
    assert(instrs_view(s.push(x)) =~= instrs_view(s).push(x@));
}

/// Pushing one chain message extends the modeled batch by that message's
/// model.
proof fn lemma_chain_view_push(s: Seq<ChainMsg>, x: ChainMsg)
    ensures
        chain_view(s.push(x)) == chain_view(s).push(x@),
{
    assert(chain_view(s.push(x)) =~= chain_view(s).push(x@));
}

/// cosmwasm_std::StdError, the error type of the chain runtime's serializer.
#[verifier::external_type_specification]
#[verifier::external_body]
pub struct ExStdError(cosmwasm_std::StdError);

/// The chain's call data for a standard token-transfer invocation directing a
/// token contract to move `amount` units to `recipient`.
pub uninterp spec fn transfer_payload(recipient: Seq<char>, amount: u128) -> Seq<u8>;

/// Relies on cosmwasm_std::to_json_binary applied to
/// cw20::Cw20ExecuteMsg::Transfer. The call always succeeds: serde-json-wasm
/// writes this message's fixed variant and field names, the escaped recipient
/// string and the base-10 amount string into a growable buffer, with no
/// failure path for this message shape. The serializer is deterministic, so
/// the call data is a function of the recipient address and the amount alone.
#[verifier::external_body]
fn encode_transfer(recipient: &String, amount: u128) -> (r: Result<
    Vec<u8>,
    cosmwasm_std::StdError,
>)
    ensures
        r is Ok,
        r matches Ok(payload) ==> payload@ == transfer_payload(recipient@, amount),
{
    let msg = cw20::Cw20ExecuteMsg::Transfer {
        recipient: recipient.clone(),
        amount: cosmwasm_std::Uint128::new(amount),
    };
    cosmwasm_std::to_json_binary(&msg).map(|b| b.into())
}

/// The chain message that carries out one instruction: a native transfer
/// becomes a bank send of the same coins, a delegated transfer becomes the
/// execution of the token contract with the transfer call data and no
/// attached funds.
pub open spec fn chain_msg_of(i: OutboundInstructionV) -> ChainMsgV {
    match i {
        OutboundInstructionV::NativeTransfer { to, coins } => {
            ChainMsgV::BankSend { to_address: to, amount: coins }
        },
        OutboundInstructionV::DelegatedTransfer { token_contract, to, amount } => {
            ChainMsgV::WasmExecute {
                contract_addr: token_contract,
                msg: transfer_payload(to, amount),
                funds: Seq::empty(),
            }
        },
    }
}

pub open spec fn chain_msgs_of(instrs: Seq<OutboundInstructionV>) -> Seq<ChainMsgV> {
    instrs.map_values(|i: OutboundInstructionV| chain_msg_of(i))
}

/// Builds the instruction batch for the recipient list and serializes it into
/// chain messages. The `Result` shape exists to propagate
/// `ContractError::Encoding` when a token-transfer payload cannot be
/// serialized, and nothing would be emitted then; the serializer has no such
/// failure for this payload shape, so the call is in fact always owed
/// success, with exactly the batch's messages.
pub fn send_tokens(recipients: &Vec<Recipient>) -> (r: Result<Vec<ChainMsg>, ContractError>)
    ensures
        r matches Ok(msgs) && chain_view(msgs@) == chain_msgs_of(
            build_plan(recipients_view(recipients@)),
        ),
{
    let instrs = build(recipients);
    let mut msgs: Vec<ChainMsg> = Vec::new();
    let n = instrs.len();
    for i in 0..n
        invariant
            n == instrs.len(),
            instrs_view(instrs@) == build_plan(recipients_view(recipients@)),
            chain_view(msgs@) == chain_msgs_of(instrs_view(instrs@).take(i as int)),
    {
        let ghost before = msgs@;
        let ghost iv = instrs_view(instrs@)[i as int];
        proof {
            assert(iv == instrs@[i as int]@);
        }
        match &instrs[i] {
            OutboundInstruction::NativeTransfer { to, coins } => {
                let amount = clone_coins(coins);
                msgs.push(ChainMsg::BankSend { to_address: to.clone(), amount });
                proof {
                    assert(msgs@.last()@ == chain_msg_of(iv));
                }
            },
            OutboundInstruction::DelegatedTransfer { token_contract, to, amount } => {
                match encode_transfer(to, *amount) {
                    Ok(payload) => {
                        let funds: Vec<Coin> = Vec::new();
                        proof {
                            assert(coins_view(funds@) =~= Seq::<CoinV>::empty());
                        }
                        msgs.push(ChainMsg::WasmExecute {
                            contract_addr: token_contract.clone(),
                            msg: payload,
                            funds,
                        });
                        proof {
                            assert(msgs@.last()@ == chain_msg_of(iv));
                        }
                    },
                    Err(_) => {
                        return Err(ContractError::Encoding);
                    },
                }
            },
        }
        proof {
            lemma_chain_view_push(before, msgs@.last());
            assert(instrs_view(instrs@).take(i + 1).drop_last() =~= instrs_view(instrs@).take(
                i as int,
            ));
            assert(chain_view(msgs@) =~= chain_msgs_of(instrs_view(instrs@).take(i + 1)));
        }
    }
    proof {
        assert(instrs_view(instrs@).take(instrs@.len() as int) =~= instrs_view(instrs@));
    }
    Ok(msgs)
}

/// The fixed descriptive tag set of a disbursement response.
pub open spec fn send_attrs() -> Seq<AttributeV> {
    seq![(AttributeV { key: "action"@, value: "send"@ })]
}

/// What a finished disbursement promises: it succeeds, and the response's
/// messages carry out the batch for exactly this recipient list, tagged as a
/// send. A failed payload serialization would abort the whole batch with
/// `ContractError::Encoding`, but the serializer gives this pipeline no such
/// input to fail on.
pub open spec fn disburse_ensures(
    recipients: Seq<Recipient>,
    r: Result<DisburseResponse, ContractError>,
) -> bool {
    &&& r matches Ok(resp)
    &&& chain_view(resp.messages@) == chain_msgs_of(build_plan(recipients_view(recipients)))
    &&& attrs_view(resp.attributes@) == send_attrs()
}

/// Disburses to the given recipients: the response holds the chain messages
/// of the instruction batch, tagged as a send.
pub fn execute_send(recipients: Vec<Recipient>) -> (r: Result<DisburseResponse, ContractError>)
    ensures
        disburse_ensures(recipients@, r),
{
    match send_tokens(&recipients) {
        Ok(messages) => {
            let mut attributes: Vec<Attribute> = Vec::new();
            attributes.push(
                Attribute { key: "action".to_string(), value: "send".to_string() },
            );
            proof {
                assert(attrs_view(attributes@) =~= send_attrs());
            }
            Ok(DisburseResponse { messages, attributes })
        },
        Err(e) => Err(e),
    }
}

/// What handling a delegated-call notification promises: a payload that did
/// not decode is rejected outright; a decoded send command is disbursed.
pub open spec fn receive_ensures(
    decoded: Option<ReceiveMsg>,
    r: Result<DisburseResponse, ContractError>,
) -> bool {
    &&& (decoded is None ==> (r matches Err(e) && e == ContractError::Deserialization))
    &&& (decoded matches Some(ReceiveMsg::Send { recipients }) ==> disburse_ensures(
        recipients@,
        r,
    ))
}

/// Handles a delegated-call notification. The relaying token contract's
/// sender and transferred quantity are informational context only and do not
/// alter what is disbursed; the embedded payload's decoded command is
/// authoritative. A payload that did not match the command schema fails with
/// `ContractError::Deserialization` and nothing is disbursed.
pub fn execute_receive(_sender: String, _amount: u128, decoded: Option<ReceiveMsg>) -> (r: Result<
    DisburseResponse,
    ContractError,
>)
    ensures
        receive_ensures(decoded, r),
{
    match decoded {
        None => Err(ContractError::Deserialization),
        Some(ReceiveMsg::Send { recipients }) => execute_send(recipients),
    }
}

/// Dispatches an inbound command to its handler.
pub fn execute(msg: HandleMsg) -> (r: Result<DisburseResponse, ContractError>)
    ensures
        msg matches HandleMsg::Send { recipients } ==> disburse_ensures(recipients@, r),
        msg matches HandleMsg::Receive { msg: decoded, .. } ==> receive_ensures(decoded, r),
{
    match msg {
        HandleMsg::Receive { sender, amount, msg } => execute_receive(sender, amount, msg),
        HandleMsg::Send { recipients } => execute_send(recipients),
    }
}

/// The query interface is empty: no query variant is defined, so every query
/// request fails without a successful response path, reported as the
/// schema-mismatch error `ContractError::Deserialization`.
pub fn query() -> (r: Result<Vec<u8>, ContractError>)
    ensures
        r matches Err(e) && e == ContractError::Deserialization,
{
    Err(ContractError::Deserialization)
}

/// Instruction order follows recipient-list order: the whole batch is the
/// batch before recipient `i`, then recipient `i`'s own instructions, then
/// the batch after it; and within one recipient the native transfer, if any,
/// precedes that recipient's delegated transfers in their entry order.
pub proof fn lemma_build_order(rs: Seq<RecipientV>, i: int)
    requires
        0 <= i < rs.len(),
    ensures
        build_plan(rs) == build_plan(rs.take(i)) + recipient_instrs(rs[i]) + build_plan(
            rs.skip(i + 1),
        ),
        recipient_instrs(rs[i]) == native_instrs(rs[i]) + delegated_instrs(
            rs[i].address,
            rs[i].amount.tokens,
        ),
    decreases rs.len(),
{
    if i == rs.len() - 1 {
        assert(rs.take(i) =~= rs.drop_last());
        assert(rs.skip(i + 1) =~= Seq::<RecipientV>::empty());
        assert(rs.last() == rs[i]);
        assert(build_plan(rs) =~= build_plan(rs.take(i)) + recipient_instrs(rs[i]) + build_plan(
            rs.skip(i + 1),
        ));
    } else {
        let head = rs.drop_last();
        lemma_build_order(head, i);
        assert(head.take(i) =~= rs.take(i));
        assert(head[i] == rs[i]);
        assert(rs.skip(i + 1).drop_last() =~= head.skip(i + 1));
        assert(rs.skip(i + 1).last() == rs.last());
        assert(build_plan(rs.skip(i + 1)) == build_plan(head.skip(i + 1)) + recipient_instrs(
            rs.last(),
        ));
        assert(build_plan(rs) =~= build_plan(rs.take(i)) + recipient_instrs(rs[i]) + build_plan(
            rs.skip(i + 1),
        ));
    }
}

/// A recipient owed nothing — no native coins and no token entries —
/// contributes no instructions to the batch.
pub proof fn lemma_empty_bundle(r: RecipientV)
    requires
        r.amount.native.len() == 0,
        r.amount.tokens.len() == 0,
    ensures
        recipient_instrs(r) == Seq::<OutboundInstructionV>::empty(),
{
    assert(recipient_instrs(r) =~= Seq::<OutboundInstructionV>::empty());
}

/// A recipient with non-empty native coins and no token entries contributes
/// exactly one instruction: the native transfer of its full coin set.
pub proof fn lemma_native_only(r: RecipientV)
    requires
        r.amount.native.len() > 0,
        r.amount.tokens.len() == 0,
    ensures
        recipient_instrs(r) == seq![
            (OutboundInstructionV::NativeTransfer { to: r.address, coins: r.amount.native }),
        ],
{
    assert(recipient_instrs(r) =~= seq![
        (OutboundInstructionV::NativeTransfer { to: r.address, coins: r.amount.native }),
    ]);
}

/// With every token entry positive, the delegated-transfer leg has one
/// instruction per entry, in entry order, each addressed to that entry's
/// token contract for that entry's amount.
pub proof fn lemma_delegated_all_positive(addr: Seq<char>, tokens: Seq<TokenAmountV>)
    requires
        forall|i: int| 0 <= i < tokens.len() ==> tokens[i].amount > 0,
    ensures
        delegated_instrs(addr, tokens).len() == tokens.len(),
        forall|i: int|
            0 <= i < tokens.len() ==> delegated_instrs(addr, tokens)[i]
                == (OutboundInstructionV::DelegatedTransfer {
                token_contract: tokens[i].address,
                to: addr,
                amount: tokens[i].amount,
            }),
    decreases tokens.len(),
{
    if tokens.len() > 0 {
        let head = tokens.drop_last();
        lemma_delegated_all_positive(addr, head);
        assert(tokens.last().amount > 0);
        assert forall|i: int| 0 <= i < tokens.len() implies delegated_instrs(addr, tokens)[i]
            == (OutboundInstructionV::DelegatedTransfer {
            token_contract: tokens[i].address,
            to: addr,
            amount: tokens[i].amount,
        }) by {
            if i < tokens.len() - 1 {
                assert(delegated_instrs(addr, tokens)[i] == delegated_instrs(addr, head)[i]);
                assert(head[i] == tokens[i]);
            }
        }
    }
}

/// A recipient with empty native coins and only positive token entries
/// contributes exactly one delegated transfer per entry, in entry order.
pub proof fn lemma_tokens_only(r: RecipientV)
    requires
        r.amount.native.len() == 0,
        forall|i: int| 0 <= i < r.amount.tokens.len() ==> r.amount.tokens[i].amount > 0,
    ensures
        recipient_instrs(r).len() == r.amount.tokens.len(),
        forall|i: int|
            0 <= i < r.amount.tokens.len() ==> recipient_instrs(r)[i]
                == (OutboundInstructionV::DelegatedTransfer {
                token_contract: r.amount.tokens[i].address,
                to: r.address,
                amount: r.amount.tokens[i].amount,
            }),
{
    lemma_delegated_all_positive(r.address, r.amount.tokens);
    assert(recipient_instrs(r) =~= delegated_instrs(r.address, r.amount.tokens));
}

/// A finished disbursement is pinned: any two results that
/// `disburse_ensures` admits for recipient lists of equal model are both
/// successful and agree on their messages and tags. Hence a decoded send
/// command handled through the notification entry, through the dispatcher,
/// or through `execute_send` directly — or through the same entry twice —
/// always answers alike.
pub proof fn lemma_disburse_deterministic(
    rs1: Seq<Recipient>,
    rs2: Seq<Recipient>,
    r1: Result<DisburseResponse, ContractError>,
    r2: Result<DisburseResponse, ContractError>,
)
    requires
        recipients_view(rs1) == recipients_view(rs2),
        disburse_ensures(rs1, r1),
        disburse_ensures(rs2, r2),
    ensures
        r1 matches Ok(resp1) && r2 matches Ok(resp2) && chain_view(resp1.messages@)
            == chain_view(resp2.messages@) && attrs_view(resp1.attributes@) == attrs_view(
            resp2.attributes@,
        ),
{
}

/// Building is pure: any two outputs that `build`'s contract admits for
/// recipient lists of equal model — as two calls on identical input are —
/// carry the same instructions. With `build`'s `ensures` this pins the
/// executable result of repeated calls up to the instruction model, which is
/// all the batch's consumers read.
pub proof fn lemma_build_deterministic(
    rs1: Seq<Recipient>,
    rs2: Seq<Recipient>,
    out1: Seq<OutboundInstruction>,
    out2: Seq<OutboundInstruction>,
)
    requires
        recipients_view(rs1) == recipients_view(rs2),
        instrs_view(out1) == build_plan(recipients_view(rs1)),
        instrs_view(out2) == build_plan(recipients_view(rs2)),
    ensures
        instrs_view(out1) == instrs_view(out2),
{
}

} // verus!
