use hub_core::credits::{
    plan_deduction, read_sheet, Blockchain, Config, CreditsClient, DeductionErrorKind, LineItem,
    PriceTable, TransactionId, WireBlockchain, CREDITS_TOPIC,
};
use hub_core::producer::{Producer, SendAction, SendEvent};
use hub_core::triage::{Severity, Triage};
use rdkafka::error::{KafkaError, RDKafkaErrorCode};
use uuid::Uuid;

#[derive(Debug, Clone, Copy, PartialEq, Eq)]
enum Action {
    CreateDrop,
    MintEdition,
    Transfer,
}

impl LineItem for Action {
    fn as_str(&self) -> &'static str {
        match self {
            Action::CreateDrop => "create-drop",
            Action::MintEdition => "mint-edition",
            Action::Transfer => "transfer",
        }
    }
}

fn table() -> PriceTable {
    vec![
        (
            "create-drop".into(),
            vec![("solana".into(), Some(5)), ("polygon".into(), Some(15))],
        ),
        (
            "mint-edition".into(),
            vec![
                ("off-chain".into(), None),
                ("solana".into(), Some(1)),
                ("ethereum".into(), Some(u64::MAX)),
                ("dogecoin".into(), Some(3)),
            ],
        ),
        ("transfer".into(), vec![]),
        ("unused".into(), vec![("solana".into(), Some(99))]),
    ]
}

fn items() -> Vec<Action> {
    vec![Action::CreateDrop, Action::MintEdition, Action::Transfer]
}

fn client() -> CreditsClient<Action> {
    let config = Config::new("credits.toml".into(), rdkafka::ClientConfig::new());
    CreditsClient::new(config, &items(), &table()).unwrap()
}

#[test]
fn blockchain_names() {
    assert_eq!(Blockchain::OffChain.as_str(), "off-chain");
    assert_eq!(Blockchain::Solana.as_str(), "solana");
    assert_eq!(Blockchain::Polygon.as_str(), "polygon");
    assert_eq!(Blockchain::Ethereum.as_str(), "ethereum");
    assert_eq!(
        Blockchain::all(),
        [
            Blockchain::OffChain,
            Blockchain::Solana,
            Blockchain::Polygon,
            Blockchain::Ethereum
        ]
    );
    assert_eq!(Blockchain::OffChain.into_wire(), WireBlockchain::Unspecified);
    assert_eq!(Blockchain::Solana.into_wire(), WireBlockchain::Solana);
    assert_eq!(Blockchain::Polygon.into_wire(), WireBlockchain::Polygon);
    assert_eq!(Blockchain::Ethereum.into_wire(), WireBlockchain::Ethereum);
}

#[test]
fn sheet_holds_the_file_prices() {
    let sheet = read_sheet(&items(), &table()).unwrap();
    assert_eq!(sheet.get(Action::CreateDrop, Blockchain::Solana), Some(Some(5)));
    assert_eq!(sheet.get(Action::CreateDrop, Blockchain::Polygon), Some(Some(15)));
    assert_eq!(sheet.get(Action::CreateDrop, Blockchain::Ethereum), None);
    assert_eq!(sheet.get(Action::MintEdition, Blockchain::OffChain), Some(None));
    assert_eq!(sheet.get(Action::MintEdition, Blockchain::Solana), Some(Some(1)));
    assert_eq!(sheet.get(Action::Transfer, Blockchain::Solana), None);
    assert_eq!(sheet.prices().len(), 5);
}

#[test]
fn sheet_needs_every_line_item() {
    let mut short = table();
    short.remove(1);
    let missing = read_sheet(&items(), &short).err().unwrap();
    assert_eq!(missing.0, Action::MintEdition);
    let missing = read_sheet(&items(), &vec![]).err().unwrap();
    assert_eq!(missing.0, Action::CreateDrop);
    assert!(read_sheet::<Action>(&vec![], &vec![]).is_ok());
}

#[test]
fn get_cost_of_a_line_item() {
    let client = client();
    assert_eq!(client.get_cost(Action::CreateDrop, Blockchain::Solana).unwrap(), 5);
    let e = client.get_cost(Action::CreateDrop, Blockchain::Ethereum).unwrap_err();
    assert_eq!(e.item(), Action::CreateDrop);
    assert_eq!(e.blockchain(), Blockchain::Ethereum);
    assert!(matches!(e.kind(), DeductionErrorKind::MissingItem));
    assert_eq!(e.severity(), Severity::Permanent);
    // A line item that the sheet says has no cost cannot be charged for.
    let e = client.get_cost(Action::MintEdition, Blockchain::OffChain).unwrap_err();
    assert!(matches!(e.kind(), DeductionErrorKind::MissingItem));
    assert_eq!(client.credit_sheet().get(Action::MintEdition, Blockchain::OffChain), Some(None));
}

#[test]
fn plan_deduction_values() {
    assert!(matches!(plan_deduction(Some(Some(5)), 5), Ok(5)));
    assert!(matches!(plan_deduction(Some(Some(0)), 0), Ok(0)));
    assert!(matches!(
        plan_deduction(Some(Some(5)), 4),
        Err(DeductionErrorKind::InsufficientBalance { available: 4, cost: 5 })
    ));
    assert!(matches!(plan_deduction(Some(None), 100), Err(DeductionErrorKind::MissingItem)));
    assert!(matches!(plan_deduction(None, 100), Err(DeductionErrorKind::MissingItem)));
    assert!(matches!(
        plan_deduction(Some(Some(i64::MAX as u64)), u64::MAX),
        Ok(i64::MAX)
    ));
    assert!(matches!(
        plan_deduction(Some(Some(i64::MAX as u64 + 1)), u64::MAX),
        Err(DeductionErrorKind::InvalidCost(_))
    ));
}

#[test]
fn pending_deduction_is_planned() {
    let client = client();
    let org = Uuid::from_u128(1);
    let user = Uuid::from_u128(2);
    let pending = client
        .submit_pending_deduction(
            org,
            user,
            Action::CreateDrop,
            Blockchain::Polygon,
            20,
            1_700_000_000_123,
            0xdead_beef,
        )
        .unwrap();
    assert_eq!(pending.credits, 15);
    assert_eq!(pending.id.0.as_u64_pair(), (1_700_000_000_123, 0xdead_beef));
    assert_eq!(pending.key, pending.id.0.to_string());
    assert_eq!(pending.user_id, "00000000-0000-0000-0000-000000000002");
    assert_eq!(pending.organization, "00000000-0000-0000-0000-000000000001");
    assert_eq!(pending.item, Action::CreateDrop);
    assert_eq!(pending.blockchain, WireBlockchain::Polygon);
}

#[test]
fn pending_deduction_errors() {
    let client = client();
    let id = Uuid::nil();
    let e = client
        .submit_pending_deduction(id, id, Action::CreateDrop, Blockchain::Polygon, 14, 0, 0)
        .unwrap_err();
    assert!(matches!(
        e.kind(),
        DeductionErrorKind::InsufficientBalance { available: 14, cost: 15 }
    ));
    assert_eq!(e.item(), Action::CreateDrop);
    assert_eq!(e.blockchain(), Blockchain::Polygon);
    let e = client
        .submit_pending_deduction(id, id, Action::Transfer, Blockchain::Solana, 14, 0, 0)
        .unwrap_err();
    assert!(matches!(e.kind(), DeductionErrorKind::MissingItem));
    let e = client
        .submit_pending_deduction(
            id,
            id,
            Action::MintEdition,
            Blockchain::Ethereum,
            u64::MAX,
            0,
            0,
        )
        .unwrap_err();
    assert!(matches!(e.kind(), DeductionErrorKind::InvalidCost(_)));
    assert_eq!(e.severity(), Severity::Permanent);
}

#[test]
fn confirmation_names_the_transaction() {
    let client = client();
    let id = TransactionId(Uuid::from_u64_pair(7, 9));
    let confirmation = client.confirm_deduction(id);
    assert_eq!(confirmation.key, "00000000-0000-0007-0000-000000000009");
    assert_eq!(confirmation.user_id, "");
}

#[test]
fn failed_send_defers_its_severity() {
    let client = client();
    let producer: &Producer = client.producer();
    assert_eq!(producer.topic(), CREDITS_TOPIC);
    assert_eq!(CREDITS_TOPIC, "credits_mpsc");
    let failed = match producer.send(SendEvent::Delivered(Err(KafkaError::MessageProduction(
        RDKafkaErrorCode::QueueFull,
    )))) {
        SendAction::Done(Err(e)) => e,
        other => panic!("expected an error, got {other:?}"),
    };
    let e = CreditsClient::send_failed(Action::Transfer, Blockchain::Solana, failed);
    assert!(matches!(e.kind(), DeductionErrorKind::Send(_)));
    assert_eq!(e.severity(), Severity::Transient);
    let failed = match producer.send(SendEvent::Delivered(Err(KafkaError::Canceled))) {
        SendAction::Done(Err(e)) => e,
        other => panic!("expected an error, got {other:?}"),
    };
    assert_eq!(DeductionErrorKind::from(failed).severity(), Severity::Permanent);
}

#[test]
fn deduction_error_messages() {
    assert_eq!(
        DeductionErrorKind::MissingItem.message(),
        "No price in credit sheet found for the requested action"
    );
    assert_eq!(
        DeductionErrorKind::InsufficientBalance { available: 4, cost: 15 }.message(),
        "Insufficient available balance 4, need 15"
    );
    let invalid = plan_deduction(Some(Some(u64::MAX)), u64::MAX).unwrap_err();
    assert_eq!(invalid.message(), "Invalid cost");
}
