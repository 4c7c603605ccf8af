use hd_wallet::codec::{is_address, push_decimal, push_hex};
use hd_wallet::error::{ErrorClass, WalletError};
use hd_wallet::keys::{derivation_path_text, derive_master_key, public_key_to_eth_address};
use hd_wallet::ledger::{TransactionLedger, TransactionRecord};
use hd_wallet::registry::{same_text, TokenInfo, TokenRegistry};
use hd_wallet::uint::U256;

fn token(symbol: &str, address: &str, decimals: u8) -> TokenInfo {
    TokenInfo { symbol: symbol.to_string(), address: address.to_string(), decimals }
}

fn record(hash: &str, from: &str, to: &str) -> TransactionRecord {
    TransactionRecord {
        hash: hash.to_string(),
        from_address: from.to_string(),
        to_address: to.to_string(),
        value: U256::from_u64(1),
        token_symbol: None,
        timestamp: 0,
        submitted: true,
    }
}

#[test]
fn decimal_amounts_are_read_exactly() {
    assert_eq!(U256::from_dec_str("0"), Ok(U256::zero()));
    assert_eq!(U256::from_dec_str(""), Ok(U256::zero()));
    assert_eq!(U256::from_dec_str("1000"), Ok(U256::from_u64(1000)));
    assert_eq!(U256::from_dec_str("0001000"), Ok(U256::from_u64(1000)));
    assert_eq!(
        U256::from_dec_str("18446744073709551615"),
        Ok(U256 { w0: u64::MAX, w1: 0, w2: 0, w3: 0 })
    );
    assert_eq!(
        U256::from_dec_str("18446744073709551616"),
        Ok(U256 { w0: 0, w1: 1, w2: 0, w3: 0 })
    );
    assert_eq!(
        U256::from_dec_str("340282366920938463463374607431768211456"),
        Ok(U256 { w0: 0, w1: 0, w2: 1, w3: 0 })
    );
    assert_eq!(
        U256::from_dec_str(
            "115792089237316195423570985008687907853269984665640564039457584007913129639935"
        ),
        Ok(U256 { w0: u64::MAX, w1: u64::MAX, w2: u64::MAX, w3: u64::MAX })
    );
}

#[test]
fn malformed_amounts_are_refused() {
    let too_large = "115792089237316195423570985008687907853269984665640564039457584007913129639936";
    assert_eq!(U256::from_dec_str(too_large), Err(WalletError::InvalidAmount));
    assert_eq!(U256::from_dec_str("12a"), Err(WalletError::InvalidAmount));
    assert_eq!(U256::from_dec_str("-1"), Err(WalletError::InvalidAmount));
    assert_eq!(U256::from_dec_str("+1"), Err(WalletError::InvalidAmount));
    assert_eq!(U256::from_dec_str(" 1"), Err(WalletError::InvalidAmount));
    assert_eq!(U256::from_dec_str("1.5"), Err(WalletError::InvalidAmount));
    assert_eq!(U256::from_dec_str("0x10"), Err(WalletError::InvalidAmount));
    assert_eq!(U256::from_dec_str("\u{661}\u{662}"), Err(WalletError::InvalidAmount));
}

#[test]
fn zero_is_zero() {
    assert!(U256::zero().is_zero());
    assert!(!U256::from_u64(1).is_zero());
    assert!(!U256 { w0: 0, w1: 0, w2: 0, w3: 1 }.is_zero());
}

#[test]
fn addresses_are_forty_hex_digits() {
    assert!(is_address("0x000000000000000000000000000000000000dead"));
    assert!(is_address("0x000000000000000000000000000000000000DEAD"));
    assert!(is_address("000000000000000000000000000000000000dead"));
    assert!(is_address("0xaAbBcCdDeEfF00112233445566778899aAbBcCdD"));
    assert!(!is_address(""));
    assert!(!is_address("0x"));
    assert!(!is_address("0x000000000000000000000000000000000000dea"));
    assert!(!is_address("0x000000000000000000000000000000000000deadd"));
    assert!(!is_address("0X000000000000000000000000000000000000dead"));
    assert!(!is_address("0x000000000000000000000000000000000000deag"));
    assert!(!is_address("1x000000000000000000000000000000000000dead"));
    assert!(!is_address("00000000000000000000000000000000000000dead"));
    assert!(!is_address("0x00000000000000000000000000000000000000\u{e9}"));
}

#[test]
fn numbers_are_written_in_decimal() {
    let mut text = String::from("n=");
    push_decimal(&mut text, 0);
    assert_eq!(text, "n=0");
    let mut text = String::new();
    push_decimal(&mut text, 7);
    push_decimal(&mut text, 10);
    push_decimal(&mut text, 4294967295);
    assert_eq!(text, "7104294967295");
}

#[test]
fn bytes_are_written_in_lower_case_hex() {
    let mut text = String::from("0x");
    push_hex(&mut text, &[0x00, 0x0f, 0xa0, 0xff, 0x12]);
    assert_eq!(text, "0x000fa0ff12");
    let mut empty = String::new();
    push_hex(&mut empty, &[]);
    assert_eq!(empty, "");
}

#[test]
fn paths_follow_the_index() {
    assert_eq!(derivation_path_text(0), "m/44'/60'/0'/0/0");
    assert_eq!(derivation_path_text(9), "m/44'/60'/0'/0/9");
    assert_eq!(derivation_path_text(10), "m/44'/60'/0'/0/10");
    assert_eq!(derivation_path_text(2147483647), "m/44'/60'/0'/0/2147483647");
}

#[test]
fn address_of_the_generator_point() {
    let mut key = vec![0x04u8];
    key.extend_from_slice(&[
        0x79, 0xBE, 0x66, 0x7E, 0xF9, 0xDC, 0xBB, 0xAC, 0x55, 0xA0, 0x62, 0x95, 0xCE, 0x87, 0x0B,
        0x07, 0x02, 0x9B, 0xFC, 0xDB, 0x2D, 0xCE, 0x28, 0xD9, 0x59, 0xF2, 0x81, 0x5B, 0x16, 0xF8,
        0x17, 0x98,
    ]);
    key.extend_from_slice(&[
        0x48, 0x3A, 0xDA, 0x77, 0x26, 0xA3, 0xC4, 0x65, 0x5D, 0xA4, 0xFB, 0xFC, 0x0E, 0x11, 0x08,
        0xA8, 0xFD, 0x17, 0xB4, 0x48, 0xA6, 0x85, 0x54, 0x19, 0x9C, 0x47, 0xD0, 0x8F, 0xFB, 0x10,
        0xD4, 0xB8,
    ]);
    assert_eq!(
        public_key_to_eth_address(&key),
        Ok("0x7e5f4552091a69125d5dfcb7b8c2659029395bdf".to_string())
    );
}

#[test]
fn public_key_of_wrong_length_is_refused() {
    assert_eq!(public_key_to_eth_address(&[]), Err(WalletError::KeyDerivationError));
    assert_eq!(public_key_to_eth_address(&[4; 64]), Err(WalletError::KeyDerivationError));
    assert_eq!(public_key_to_eth_address(&[4; 66]), Err(WalletError::KeyDerivationError));
}

#[test]
fn master_key_derives_fixed_keys_and_addresses() {
    let master = derive_master_key(&[0; 32]).ok().expect("a master key");
    let again = derive_master_key(&[0; 32]).ok().expect("a master key");
    let other = derive_master_key(&[1; 32]).ok().expect("a master key");
    assert_eq!(master.address(0), again.address(0));
    assert_eq!(master.signing_key(5), again.signing_key(5));
    assert_ne!(master.address(0), other.address(0));
    assert_ne!(master.address(0), master.address(1));
    assert_eq!(master.signing_key(0).unwrap().len(), 32);
    assert_eq!(master.signing_key(2147483648), Err(WalletError::KeyDerivationError));
    assert_eq!(master.address(4294967295), Err(WalletError::KeyDerivationError));
}

#[test]
fn registry_refuses_a_symbol_twice() {
    assert!(TokenRegistry::from_entries(vec![token("A", "0x1", 1), token("A", "0x2", 2)]).is_none());
    assert!(TokenRegistry::from_entries(vec![
        token("A", "0x1", 1),
        token("B", "0x2", 2),
        token("A", "0x3", 3)
    ])
    .is_none());
    assert!(TokenRegistry::from_entries(vec![token("A", "0x1", 1), token("a", "0x2", 2)]).is_some());
    assert!(TokenRegistry::from_entries(vec![]).is_some());
}

#[test]
fn registry_finds_tokens_by_exact_symbol() {
    let registry =
        TokenRegistry::from_entries(vec![token("USD", "0x1", 6), token("EUR", "0x2", 2)]).unwrap();
    assert_eq!(registry.len(), 2);
    let found = registry.lookup("EUR").unwrap();
    assert_eq!(found.address, "0x2");
    assert_eq!(found.decimals, 2);
    assert_eq!(registry.lookup("USD").unwrap().decimals, 6);
    assert_eq!(registry.lookup("eur").err(), Some(WalletError::UnknownToken));
    assert_eq!(registry.lookup("").err(), Some(WalletError::UnknownToken));
    assert_eq!(registry.list_symbols(), vec!["USD".to_string(), "EUR".to_string()]);
    assert_eq!(registry.entry(1).unwrap().symbol, "EUR");
    assert!(registry.entry(2).is_none());
    assert_eq!(registry.entries().len(), 2);
    assert_eq!(TokenRegistry::new().len(), 0);
    assert!(same_text(&"USD".to_string(), "USD"));
    assert!(!same_text(&"USD".to_string(), "USd"));
}

#[test]
fn ledger_keeps_the_order_of_submission() {
    let mut ledger = TransactionLedger::new();
    assert_eq!(ledger.len(), 0);
    ledger.append(record("h1", "a", "b"));
    ledger.append(record("h2", "b", "c"));
    ledger.append(record("h3", "c", "a"));
    assert_eq!(ledger.len(), 3);
    let all = ledger.all();
    assert_eq!(all[0].hash, "h1");
    assert_eq!(all[1].hash, "h2");
    assert_eq!(all[2].hash, "h3");
    let of_a = ledger.by_account("a");
    assert_eq!(of_a.len(), 2);
    assert_eq!(of_a[0].hash, "h1");
    assert_eq!(of_a[1].hash, "h3");
    let of_b = ledger.by_account("b");
    assert_eq!(of_b.len(), 2);
    assert_eq!(of_b[0].hash, "h1");
    assert_eq!(of_b[1].hash, "h2");
    assert!(ledger.by_account("d").is_empty());
    assert!(ledger.by_account("A").is_empty());
}

#[test]
fn errors_have_a_class_and_a_message() {
    assert_eq!(WalletError::InvalidSecret.class(), ErrorClass::Fatal);
    assert_eq!(WalletError::KeyDerivationError.class(), ErrorClass::Fatal);
    assert_eq!(WalletError::UnknownAccount.class(), ErrorClass::Caller);
    assert_eq!(WalletError::UnknownToken.class(), ErrorClass::Caller);
    assert_eq!(WalletError::InvalidAddress.class(), ErrorClass::Caller);
    assert_eq!(WalletError::InvalidAmount.class(), ErrorClass::Caller);
    assert_eq!(WalletError::ChainQueryError.class(), ErrorClass::Upstream);
    assert_eq!(WalletError::ChainBroadcastError.class(), ErrorClass::Upstream);
    assert_eq!(WalletError::UnknownToken.message(), "Token not found");
    assert_eq!(WalletError::UnknownAccount.message(), "Invalid account index");
    assert_eq!(WalletError::KeyDerivationError.message(), "Derivation error");
}
