use hub_core::util::evm_addr::{normalize_address_helper, ActiveValue};
use hub_core::util::{
    downcase_evm_addresses, DebugShim, IntoNormalizedAddress, NormalizeAddress, ValidateAddress,
};
use hub_core::util::validate_addr::is_solana_len;
use std::borrow::Cow;

const EVM: &str = "0x52908400098527886E0F7030069857D2E4169EE7";
const EVM_LOWER: &str = "0x52908400098527886e0f7030069857d2e4169ee7";
const SOLANA: &str = "So11111111111111111111111111111111111111112";

#[test]
fn helper_lowers_evm_like_text() {
    assert_eq!(normalize_address_helper("0xABCdef"), Some("0xabcdef".to_string()));
    assert_eq!(normalize_address_helper("0x"), Some("0x".to_string()));
    assert_eq!(normalize_address_helper("0XABC"), None);
    assert_eq!(normalize_address_helper("ABC"), None);
    assert_eq!(normalize_address_helper("0"), None);
    assert_eq!(normalize_address_helper(""), None);
    assert_eq!(normalize_address_helper(" 0xAB"), None);
}

#[test]
fn strings_are_normalized() {
    assert_eq!(EVM.to_string().into_normalized_address(), EVM_LOWER);
    assert_eq!(SOLANA.to_string().into_normalized_address(), SOLANA);
    let mut text = EVM.to_string();
    text.normalize_address();
    assert_eq!(text, EVM_LOWER);
    let mut text = SOLANA.to_string();
    text.normalize_address();
    assert_eq!(text, SOLANA);
}

#[test]
fn borrowed_text_is_copied_only_to_change_it() {
    assert!(matches!(EVM.into_normalized_address(), Cow::Owned(s) if s == EVM_LOWER));
    assert!(matches!(SOLANA.into_normalized_address(), Cow::Borrowed(s) if s == SOLANA));
    let owned = EVM.to_string();
    assert!(matches!((&owned).into_normalized_address(), Cow::Owned(s) if s == EVM_LOWER));
    let cow: Cow<str> = Cow::Borrowed(EVM);
    assert_eq!(cow.into_normalized_address(), EVM_LOWER);
    let cow: Cow<str> = Cow::Owned(SOLANA.to_string());
    assert!(matches!(cow.into_normalized_address(), Cow::Owned(s) if s == SOLANA));
}

#[test]
fn options_are_normalized_inside() {
    assert_eq!(Some(EVM.to_string()).into_normalized_address(), Some(EVM_LOWER.to_string()));
    assert_eq!(None::<String>.into_normalized_address(), None);
    let mut text = Some(EVM.to_string());
    text.normalize_address();
    assert_eq!(text.as_deref(), Some(EVM_LOWER));
    let mut text: Option<String> = None;
    text.normalize_address();
    assert_eq!(text, None);
}

#[test]
fn downcase_keeps_order_and_length() {
    let out = downcase_evm_addresses(vec![
        EVM.to_string(),
        SOLANA.to_string(),
        "0xFF".to_string(),
        String::new(),
    ]);
    assert_eq!(out, vec![EVM_LOWER, SOLANA, "0xff", ""]);
    assert!(downcase_evm_addresses(Vec::<String>::new()).is_empty());
    let out = downcase_evm_addresses(vec![Some("0xAB"), None]);
    assert_eq!(out, vec![Some(Cow::Borrowed("0xab")), None]);
}

#[test]
fn evm_addresses() {
    assert!(EVM.is_evm_address());
    assert!(EVM_LOWER.to_string().is_evm_address());
    assert!(EVM.is_blockchain_address());
    assert!(!EVM.is_solana_address());
    // Too short, too long, no prefix, no hex digit.
    assert!(!EVM[..41].is_evm_address());
    assert!(!format!("{EVM}0").is_evm_address());
    assert!(!format!("1x{}", &EVM[2..]).is_evm_address());
    assert!(!format!("0X{}", &EVM[2..]).is_evm_address());
    assert!(!format!("{}g", &EVM[..41]).is_evm_address());
    assert!(!format!("{}\u{e9}", &EVM[..41]).is_evm_address());
    assert!(!format!("{}\u{e9}", &EVM[..40]).is_evm_address());
    assert!(!"".is_evm_address());
}

#[test]
fn solana_addresses() {
    assert!(SOLANA.is_solana_address());
    assert!(SOLANA.is_blockchain_address());
    assert!(!SOLANA.is_evm_address());
    assert!("11111111111111111111111111111111".is_solana_address());
    // One byte more, one byte less, no Base58.
    assert!(!"111111111111111111111111111111111".is_solana_address());
    assert!(!"1111111111111111111111111111111".is_solana_address());
    assert!(!"So1111111111111111111111111111111111111111O".is_solana_address());
    assert!(!"".is_solana_address());
    assert!(!"".is_blockchain_address());
    assert!(is_solana_len(Some(32)));
    assert!(!is_solana_len(Some(31)));
    assert!(!is_solana_len(None));
}

#[test]
fn debug_shim_wraps() {
    let shim = DebugShim::from(5_u8);
    assert_eq!(shim.0, 5);
    let shim: DebugShim<&str> = "secret".into();
    assert_eq!(shim.0, "secret");
}

#[test]
fn active_values_are_normalized_inside() {
    assert_eq!(
        ActiveValue::Assigned(EVM.to_string()).into_normalized_address(),
        ActiveValue::Assigned(EVM_LOWER.to_string())
    );
    assert_eq!(
        ActiveValue::Unchanged(EVM.to_string()).into_normalized_address(),
        ActiveValue::Unchanged(EVM_LOWER.to_string())
    );
    assert_eq!(
        ActiveValue::<String>::NotSet.into_normalized_address(),
        ActiveValue::NotSet
    );
    let mut value = ActiveValue::Assigned(Some(EVM.to_string()));
    value.normalize_address();
    assert_eq!(value, ActiveValue::Assigned(Some(EVM_LOWER.to_string())));
    let mut value = ActiveValue::Unchanged(SOLANA.to_string());
    value.normalize_address();
    assert_eq!(value, ActiveValue::Unchanged(SOLANA.to_string()));
    let mut value = ActiveValue::<String>::NotSet;
    value.normalize_address();
    assert_eq!(value, ActiveValue::NotSet);
}
