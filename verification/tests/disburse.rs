use disburse::contract::{build, execute, execute_receive, execute_send, query, send_tokens};
use disburse::error::ContractError;
use disburse::msg::{Attribute, ChainMsg, HandleMsg, OutboundInstruction, ReceiveMsg};
use disburse::state::{AssetBundle, Coin, Recipient, TokenAmount};

fn coin(denom: &str, amount: u128) -> Coin {
    Coin {
        denom: denom.to_string(),
        amount,
    }
}

fn token(address: &str, amount: u128) -> TokenAmount {
    TokenAmount {
        address: address.to_string(),
        amount,
    }
}

fn recipient(address: &str, native: Vec<Coin>, tokens: Vec<TokenAmount>) -> Recipient {
    Recipient {
        address: address.to_string(),
        amount: AssetBundle { native, tokens },
    }
}

#[test]
fn native_only_single_recipient() {
    let recipients = vec![recipient("A", vec![coin("ustake", 100)], vec![])];
    let out = build(&recipients);
    assert_eq!(
        out,
        vec![OutboundInstruction::NativeTransfer {
            to: "A".to_string(),
            coins: vec![coin("ustake", 100)],
        }]
    );
}

#[test]
fn token_only_single_recipient() {
    let recipients = vec![recipient("A", vec![], vec![token("tok1", 50)])];
    let out = build(&recipients);
    assert_eq!(
        out,
        vec![OutboundInstruction::DelegatedTransfer {
            token_contract: "tok1".to_string(),
            to: "A".to_string(),
            amount: 50,
        }]
    );
}

#[test]
fn mixed_recipients_second_contributes_nothing() {
    let recipients = vec![
        recipient("A", vec![coin("ustake", 10)], vec![token("tok1", 5)]),
        recipient("B", vec![], vec![]),
    ];
    let out = build(&recipients);
    assert_eq!(
        out,
        vec![
            OutboundInstruction::NativeTransfer {
                to: "A".to_string(),
                coins: vec![coin("ustake", 10)],
            },
            OutboundInstruction::DelegatedTransfer {
                token_contract: "tok1".to_string(),
                to: "A".to_string(),
                amount: 5,
            },
        ]
    );
}

#[test]
fn empty_bundle_emits_nothing() {
    let recipients = vec![recipient("A", vec![], vec![])];
    let out = build(&recipients);
    assert!(out.is_empty());
}

#[test]
fn zero_quantity_token_entry_emits_nothing() {
    let recipients = vec![recipient(
        "A",
        vec![],
        vec![token("tok1", 0), token("tok2", 7), token("tok3", 0)],
    )];
    let out = build(&recipients);
    assert_eq!(
        out,
        vec![OutboundInstruction::DelegatedTransfer {
            token_contract: "tok2".to_string(),
            to: "A".to_string(),
            amount: 7,
        }]
    );
}

#[test]
fn order_follows_recipients_native_first() {
    let recipients = vec![
        recipient(
            "A",
            vec![coin("uatom", 1), coin("ustake", 2)],
            vec![token("tok1", 3), token("tok2", 4)],
        ),
        recipient("B", vec![coin("ustake", 5)], vec![token("tok1", 6)]),
    ];
    let out = build(&recipients);
    assert_eq!(
        out,
        vec![
            OutboundInstruction::NativeTransfer {
                to: "A".to_string(),
                coins: vec![coin("uatom", 1), coin("ustake", 2)],
            },
            OutboundInstruction::DelegatedTransfer {
                token_contract: "tok1".to_string(),
                to: "A".to_string(),
                amount: 3,
            },
            OutboundInstruction::DelegatedTransfer {
                token_contract: "tok2".to_string(),
                to: "A".to_string(),
                amount: 4,
            },
            OutboundInstruction::NativeTransfer {
                to: "B".to_string(),
                coins: vec![coin("ustake", 5)],
            },
            OutboundInstruction::DelegatedTransfer {
                token_contract: "tok1".to_string(),
                to: "B".to_string(),
                amount: 6,
            },
        ]
    );
}

#[test]
fn build_twice_identical() {
    let recipients = vec![
        recipient("A", vec![coin("ustake", 10)], vec![token("tok1", 5)]),
        recipient("B", vec![coin("uatom", 1)], vec![]),
    ];
    let first = build(&recipients);
    let second = build(&recipients);
    assert_eq!(first, second);
}

#[test]
fn send_tokens_encodes_transfer_call_data() {
    let recipients = vec![recipient("A", vec![], vec![token("tok1", 50)])];
    let msgs = send_tokens(&recipients).unwrap();
    assert_eq!(
        msgs,
        vec![ChainMsg::WasmExecute {
            contract_addr: "tok1".to_string(),
            msg: br#"{"transfer":{"recipient":"A","amount":"50"}}"#.to_vec(),
            funds: vec![],
        }]
    );
}

#[test]
fn send_tokens_emits_bank_send() {
    let recipients = vec![recipient("A", vec![coin("ustake", 100)], vec![])];
    let msgs = send_tokens(&recipients).unwrap();
    assert_eq!(
        msgs,
        vec![ChainMsg::BankSend {
            to_address: "A".to_string(),
            amount: vec![coin("ustake", 100)],
        }]
    );
}

#[test]
fn execute_send_tags_response_as_send() {
    let recipients = vec![recipient("A", vec![coin("ustake", 100)], vec![])];
    let resp = execute_send(recipients).unwrap();
    assert_eq!(
        resp.messages,
        vec![ChainMsg::BankSend {
            to_address: "A".to_string(),
            amount: vec![coin("ustake", 100)],
        }]
    );
    assert_eq!(
        resp.attributes,
        vec![Attribute {
            key: "action".to_string(),
            value: "send".to_string(),
        }]
    );
}

#[test]
fn receive_with_malformed_payload_fails() {
    let r = execute_receive("tok1".to_string(), 75, None);
    assert_eq!(r.unwrap_err(), ContractError::Deserialization);
}

#[test]
fn receive_with_decoded_send_disburses() {
    let recipients = vec![recipient("A", vec![], vec![token("tok1", 50)])];
    let decoded = Some(ReceiveMsg::Send {
        recipients: recipients.clone(),
    });
    let via_receive = execute_receive("tok1".to_string(), 50, decoded).unwrap();
    let direct = execute_send(recipients).unwrap();
    assert_eq!(via_receive, direct);
}

#[test]
fn execute_dispatches_send() {
    let recipients = vec![recipient("A", vec![coin("ustake", 1)], vec![])];
    let via_execute = execute(HandleMsg::Send {
        recipients: recipients.clone(),
    })
    .unwrap();
    let direct = execute_send(recipients).unwrap();
    assert_eq!(via_execute, direct);
}

#[test]
fn execute_dispatches_receive() {
    let r = execute(HandleMsg::Receive {
        sender: "tok1".to_string(),
        amount: 9,
        msg: None,
    });
    assert_eq!(r.unwrap_err(), ContractError::Deserialization);
}

#[test]
fn query_has_no_successful_path() {
    assert_eq!(query().unwrap_err(), ContractError::Deserialization);
}
