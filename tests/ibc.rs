use solo_machine::command::{reconcile, resolve_memo, CommandError, Failure, IbcCommand, Plan, DEFAULT_MEMO};
use solo_machine::connect::{ConnectSession, ConnectStep, StepOutcome};
use solo_machine::event::{Event, EventKind};
use solo_machine::flow::{plan_transfer, plan_update_signer, Direction, TransferError};
use solo_machine::ident::{same_text, ChainId, Identifier, IdentifierError};
use solo_machine::key::{decode_public_key, KeyError, PublicKey, PublicKeyAlgo};
use solo_machine::render::{render_event, RenderAction, RenderError, Renderer};

const GENERATOR: &str = "0279be667ef9dcbbac55a06295ce870b07029bfcdb2dce28d959f2815b16f81798";

fn chain() -> ChainId {
    ChainId::new("testchain-1").unwrap()
}

fn id(s: &str) -> Identifier {
    Identifier::new(s).unwrap()
}

fn key() -> PublicKey {
    decode_public_key(GENERATOR, PublicKeyAlgo::Secp256k1, false).unwrap()
}

#[test]
fn identifier_rules() {
    assert_eq!(id("uatom").as_str(), "uatom");
    assert_eq!(id("channel-0").to_text(), "channel-0");
    assert_eq!(Identifier::new("").unwrap_err(), IdentifierError::Empty);
    assert_eq!(Identifier::new(&"a".repeat(65)).unwrap_err(), IdentifierError::TooLong);
    assert!(Identifier::new(&"a".repeat(64)).is_ok());
    assert_eq!(Identifier::new("u atom").unwrap_err(), IdentifierError::InvalidCharacter);
    assert_eq!(Identifier::new("déjà").unwrap_err(), IdentifierError::InvalidCharacter);
    assert_eq!(chain().as_str(), "testchain-1");
    assert_eq!(ChainId::new("").unwrap_err(), IdentifierError::Empty);
}

#[test]
fn text_comparison() {
    assert!(same_text("secp256k1", "secp256k1"));
    assert!(!same_text("secp256k1", "secp256k2"));
    assert!(!same_text("secp256k1", "secp256k"));
}

#[test]
fn algorithm_names() {
    assert_eq!(PublicKeyAlgo::from_name("secp256k1"), Ok(PublicKeyAlgo::Secp256k1));
    assert_eq!(PublicKeyAlgo::from_name("eth-secp256k1"), Ok(PublicKeyAlgo::EthSecp256k1));
    assert_eq!(PublicKeyAlgo::from_name("ed25519"), Err(KeyError::UnknownAlgorithm));
}

#[test]
fn public_key_hex_round_trip() {
    let k = key();
    assert_eq!(k.algo(), PublicKeyAlgo::Secp256k1);
    assert_eq!(k.to_hex(), GENERATOR);
    match &k {
        PublicKey::Secp256k1(b) => {
            assert_eq!(b.len(), 33);
            assert_eq!(b[0], 0x02);
            assert_eq!(b[1], 0x79);
        }
        PublicKey::EthSecp256k1(_) => panic!("wrong scheme"),
    }
    let upper = GENERATOR.to_uppercase();
    let k2 = decode_public_key(&upper, PublicKeyAlgo::Secp256k1, false).unwrap();
    assert_eq!(k2.to_hex(), GENERATOR);
    assert_eq!(k2.duplicate(), k);
}

#[test]
fn public_key_errors() {
    assert_eq!(
        decode_public_key("zz", PublicKeyAlgo::Secp256k1, false),
        Err(KeyError::InvalidHex)
    );
    assert_eq!(
        decode_public_key("abc", PublicKeyAlgo::Secp256k1, false),
        Err(KeyError::InvalidHex)
    );
    assert_eq!(decode_public_key("00", PublicKeyAlgo::Secp256k1, false), Err(KeyError::InvalidPoint));
    assert_eq!(decode_public_key("", PublicKeyAlgo::Secp256k1, false), Err(KeyError::InvalidPoint));
    let bad_tag = format!("07{}", &GENERATOR[2..]);
    assert_eq!(
        decode_public_key(&bad_tag, PublicKeyAlgo::Secp256k1, false),
        Err(KeyError::InvalidPoint)
    );
}

#[test]
fn eth_key_needs_capability() {
    assert_eq!(
        decode_public_key(GENERATOR, PublicKeyAlgo::EthSecp256k1, false),
        Err(KeyError::AlgorithmNotEnabled)
    );
    assert_eq!(
        decode_public_key("zz", PublicKeyAlgo::EthSecp256k1, false),
        Err(KeyError::AlgorithmNotEnabled)
    );
    let k = decode_public_key(GENERATOR, PublicKeyAlgo::EthSecp256k1, true).unwrap();
    assert_eq!(k.algo(), PublicKeyAlgo::EthSecp256k1);
    assert!(plan_update_signer(chain(), GENERATOR, PublicKeyAlgo::EthSecp256k1, false, String::new()).is_err());
}

fn connect_ids() -> Vec<&'static str> {
    vec![
        "06-solomachine-0",
        "07-tendermint-0",
        "connection-0",
        "connection-1",
        "connection-1",
        "connection-0",
        "channel-1",
        "channel-0",
        "channel-1",
        "channel-0",
    ]
}

#[test]
fn connect_on_fresh_backend() {
    let mut session = ConnectSession::new(chain());
    let mut events = Vec::new();
    let ids = connect_ids();
    let mut steps = Vec::new();
    while let Some(step) = session.next_step() {
        steps.push(step);
        let outcome = if step == ConnectStep::Finalize {
            StepOutcome::Finalized
        } else {
            StepOutcome::Created(id(ids[session.completed_steps()]))
        };
        if let Some(e) = session.advance(outcome) {
            events.push(e);
        }
    }
    assert!(!session.failed());
    assert_eq!(session.completed_steps(), 11);
    assert_eq!(steps.len(), 11);
    assert_eq!(steps[0], ConnectStep::CreateSoloMachineClient);
    assert_eq!(steps[10], ConnectStep::Finalize);
    let kinds: Vec<EventKind> = events.iter().map(|e| e.kind()).collect();
    assert_eq!(
        kinds,
        vec![
            EventKind::CreatedSoloMachineClient,
            EventKind::CreatedTendermintClient,
            EventKind::InitializedConnectionOnSoloMachine,
            EventKind::InitializedConnectionOnTendermint,
            EventKind::ConfirmedConnectionOnTendermint,
            EventKind::ConfirmedConnectionOnSoloMachine,
            EventKind::InitializedChannelOnTendermint,
            EventKind::InitializedChannelOnSoloMachine,
            EventKind::ConfirmedChannelOnTendermint,
            EventKind::ConfirmedChannelOnSoloMachine,
            EventKind::ConnectionEstablished,
        ]
    );
    assert_eq!(events[0], Event::CreatedSoloMachineClient { client_id: id("06-solomachine-0") });
    match &events[10] {
        Event::ConnectionEstablished { chain_id, connection_details: d } => {
            assert_eq!(chain_id.as_str(), "testchain-1");
            let six = [
                d.solo_machine_client_id.as_str(),
                d.tendermint_client_id.as_str(),
                d.solo_machine_connection_id.as_str(),
                d.tendermint_connection_id.as_str(),
                d.solo_machine_channel_id.as_str(),
                d.tendermint_channel_id.as_str(),
            ];
            assert_eq!(
                six,
                ["06-solomachine-0", "07-tendermint-0", "connection-0", "connection-1", "channel-0", "channel-1"]
            );
            for i in 0..6 {
                for j in (i + 1)..6 {
                    assert_ne!(six[i], six[j]);
                }
            }
        }
        other => panic!("unexpected {:?}", other),
    }
    assert_eq!(session.advance(StepOutcome::Finalized), None);
    assert_eq!(session.next_step(), None);
}

#[test]
fn connect_failure_stops_events() {
    let mut session = ConnectSession::new(chain());
    assert!(session.advance(StepOutcome::Created(id("06-solomachine-0"))).is_some());
    assert!(session.advance(StepOutcome::Created(id("07-tendermint-0"))).is_some());
    assert_eq!(session.advance(StepOutcome::Failed), None);
    assert!(session.failed());
    assert_eq!(session.completed_steps(), 2);
    assert_eq!(session.next_step(), None);
    assert_eq!(session.advance(StepOutcome::Created(id("connection-0"))), None);
    assert_eq!(session.completed_steps(), 2);
}

#[test]
fn connect_out_of_order_outcome_fails() {
    let mut session = ConnectSession::new(chain());
    assert_eq!(session.advance(StepOutcome::Finalized), None);
    assert!(session.failed());
    assert_eq!(session.completed_steps(), 0);
}

#[test]
fn send_to_own_address() {
    let t = plan_transfer(Direction::Send, chain(), 100, "uatom", None, resolve_memo(None, None)).unwrap();
    let e = t.completed_event("cosmos1signer");
    assert_eq!(
        e,
        Event::TokensSent {
            chain_id: chain(),
            from_address: "cosmos1signer".to_string(),
            to_address: "cosmos1signer".to_string(),
            amount: 100,
            denom: id("uatom"),
        }
    );
}

#[test]
fn receive_to_given_address() {
    let t = plan_transfer(
        Direction::Receive,
        chain(),
        7,
        "uatom",
        Some("cosmos1other".to_string()),
        String::new(),
    )
    .unwrap();
    assert_eq!(t.to_address("cosmos1signer"), "cosmos1other");
    match t.completed_event("cosmos1signer") {
        Event::TokensReceived { to_address, from_address, amount, .. } => {
            assert_eq!(to_address, "cosmos1other");
            assert_eq!(from_address, "cosmos1signer");
            assert_eq!(amount, 7);
        }
        other => panic!("unexpected {:?}", other),
    }
}

#[test]
fn transfer_rejections() {
    assert_eq!(
        plan_transfer(Direction::Send, chain(), 0, "uatom", None, String::new()).err(),
        Some(TransferError::ZeroAmount)
    );
    assert_eq!(
        plan_transfer(Direction::Send, chain(), 0, "u atom", None, String::new()).err(),
        Some(TransferError::ZeroAmount)
    );
    assert_eq!(
        plan_transfer(Direction::Receive, chain(), 5, "u atom", None, String::new()).err(),
        Some(TransferError::InvalidDenom(IdentifierError::InvalidCharacter))
    );
    assert_eq!(
        plan_transfer(Direction::Receive, chain(), 5, "", None, String::new()).err(),
        Some(TransferError::InvalidDenom(IdentifierError::Empty))
    );
}

#[test]
fn update_signer_single_event() {
    let u = plan_update_signer(chain(), GENERATOR, PublicKeyAlgo::Secp256k1, false, String::new()).unwrap();
    let old = decode_public_key(
        "03c6047f9441ed7d6d3045406e95c07cd85c778e4b8cef3ca7abac09b95c709ee5",
        PublicKeyAlgo::Secp256k1,
        false,
    )
    .unwrap();
    let e = u.completed_event(old.duplicate());
    assert_eq!(e.kind(), EventKind::SignerUpdated);
    assert_eq!(
        e,
        Event::SignerUpdated { chain_id: chain(), old_public_key: old, new_public_key: key() }
    );
    let r = render_event(&e).unwrap();
    assert_eq!(r.headline, "Signer updated!");
    assert_eq!(r.rows.len(), 1);
}

#[test]
fn render_transfer_table() {
    let e = Event::TokensSent {
        chain_id: chain(),
        from_address: "a".to_string(),
        to_address: "b".to_string(),
        amount: 1234567,
        denom: id("uatom"),
    };
    let r = render_event(&e).unwrap();
    assert_eq!(r.headline, "Tokens sent!");
    let rows: Vec<(String, String)> = r.rows.iter().map(|x| (x.label.clone(), x.value.clone())).collect();
    assert_eq!(
        rows,
        vec![
            ("Chain ID".to_string(), "testchain-1".to_string()),
            ("From".to_string(), "a".to_string()),
            ("To".to_string(), "b".to_string()),
            ("Amount".to_string(), "1234567".to_string()),
            ("Denom".to_string(), "uatom".to_string()),
        ]
    );
}

#[test]
fn render_milestone_lines() {
    let r = render_event(&Event::CreatedSoloMachineClient { client_id: id("06-solomachine-0") }).unwrap();
    assert_eq!(r.headline, "Created solo machine client on IBC enabled chain [Client ID = 06-solomachine-0]");
    assert!(r.rows.is_empty());
    let r = render_event(&Event::ConfirmedChannelOnSoloMachine { channel_id: id("channel-0") }).unwrap();
    assert_eq!(r.headline, "Confirmed channel on solo machine [Channel ID = channel-0]");
    let r = render_event(&Event::InitializedConnectionOnTendermint { connection_id: id("connection-1") }).unwrap();
    assert_eq!(r.headline, "Initialized connection on IBC enabled chain [Connection ID = connection-1]");
}

#[test]
fn render_refuses_non_ibc_event() {
    let e = Event::TokensMinted { chain_id: chain(), address: "a".to_string(), amount: 1, denom: id("uatom") };
    assert_eq!(render_event(&e).err(), Some(RenderError::NonIbcEvent));
    let mut r = Renderer::new();
    assert!(matches!(r.on_receive(Some(&e)), RenderAction::Fail(RenderError::NonIbcEvent)));
    assert!(matches!(r.on_receive(None), RenderAction::Stop));
}

#[test]
fn renderer_stops_after_end_of_stream() {
    let mut r = Renderer::new();
    let e = Event::CreatedTendermintClient { client_id: id("07-tendermint-0") };
    assert!(matches!(r.on_receive(Some(&e)), RenderAction::Show(_)));
    assert!(matches!(r.on_receive(None), RenderAction::Stop));
    assert!(matches!(r.on_receive(Some(&e)), RenderAction::Stop));
    assert!(matches!(r.on_receive(None), RenderAction::Stop));
}

#[test]
fn reconcile_prefers_orchestrator_error() {
    assert_eq!(reconcile::<&str>(Ok(()), Ok(())), Ok(()));
    assert_eq!(reconcile(Err("orch"), Ok(())), Err(Failure { primary: "orch", secondary: None }));
    assert_eq!(reconcile(Ok(()), Err("render")), Err(Failure { primary: "render", secondary: None }));
    assert_eq!(
        reconcile(Err("orch"), Err("render")),
        Err(Failure { primary: "orch", secondary: Some("render") })
    );
}

#[test]
fn memo_precedence() {
    assert_eq!(resolve_memo(None, None), DEFAULT_MEMO);
    assert_eq!(resolve_memo(None, Some("env".to_string())), "env");
    assert_eq!(resolve_memo(Some("cli".to_string()), Some("env".to_string())), "cli");
}

#[test]
fn command_plans() {
    let c = IbcCommand::Send { chain_id: chain(), amount: 0, denom: id("uatom"), receiver: None, memo: String::new() };
    assert_eq!(c.plan(false).err(), Some(CommandError::Transfer(TransferError::ZeroAmount)));
    let c = IbcCommand::UpdateSigner {
        chain_id: chain(),
        new_public_key: GENERATOR.to_string(),
        public_key_algo: PublicKeyAlgo::EthSecp256k1,
        memo: String::new(),
    };
    assert_eq!(c.plan(false).err(), Some(CommandError::Key(KeyError::AlgorithmNotEnabled)));
    let c = IbcCommand::Connect { chain_id: chain(), memo: String::new() };
    match c.plan(false) {
        Ok(Plan::Connect { session, .. }) => {
            assert_eq!(session.next_step(), Some(ConnectStep::CreateSoloMachineClient));
        }
        _ => panic!("expected a handshake"),
    }
}
