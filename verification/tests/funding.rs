use farcaster_core::swap::SwapId;
use farcaster_node::rpc::funding::{funding_line_words, BitcoinFundingInfo, FundingInfoError, MoneroFundingInfo};
use std::str::FromStr;

const BTC_ADDRESS: &str = "bc1qvzvkjn4q3nszqxrv3nraga2r822xjty3ykvkuw";
const XMR_ADDRESS: &str =
    "4ADT1BtbxqEWeMKp9GgPr2NeyJXXtNxvoDawpyA4WpzFcGcoHUvXeijE66DNfohE9r1bQYaBiQjEtKE7CtkTdLwiDznFzra";

fn swap_id_text() -> String {
    "0x".to_string() + &"0123456789abcdef".repeat(4)
}

#[test]
fn bitcoin_funding_line_is_read() {
    let line = format!("{} needs 0.001 BTC to {}", swap_id_text(), BTC_ADDRESS);
    let info = BitcoinFundingInfo::from_str(&line).unwrap();
    assert_eq!(info.swap_id, SwapId::from_str(&swap_id_text()).unwrap());
    assert_eq!(info.amount, bitcoin::Amount::from_sat(100_000));
    assert_eq!(info.address, bitcoin::Address::from_str(BTC_ADDRESS).unwrap());
}

#[test]
fn bitcoin_funding_line_is_written() {
    let line = format!("{} needs 0.001 BTC to {}", swap_id_text(), BTC_ADDRESS);
    let info = BitcoinFundingInfo::from_str(&line).unwrap();
    assert_eq!(
        info.to_string(),
        format!("{} needs 0.00100000 BTC to {}", swap_id_text(), BTC_ADDRESS)
    );
}

#[test]
fn bitcoin_funding_line_reads_back() {
    let line = format!("{} needs 1.5 BTC to {}", swap_id_text(), BTC_ADDRESS);
    let info = BitcoinFundingInfo::from_str(&line).unwrap();
    let again = BitcoinFundingInfo::from_str(&info.to_string()).unwrap();
    assert_eq!(again.swap_id, info.swap_id);
    assert_eq!(again.amount, info.amount);
    assert_eq!(again.address, info.address);
}

#[test]
fn monero_funding_line_is_read_and_reads_back() {
    let line = format!("{} needs 1 XMR to {}", swap_id_text(), XMR_ADDRESS);
    let info = MoneroFundingInfo::from_str(&line).unwrap();
    assert_eq!(info.amount, monero::Amount::from_pico(1_000_000_000_000));
    assert_eq!(info.address, monero::Address::from_str(XMR_ADDRESS).unwrap());
    let written = info.to_string();
    assert!(written.starts_with(&format!("{} needs ", swap_id_text())));
    assert!(written.ends_with(&format!(" xmr to {}", XMR_ADDRESS)));
    let again = MoneroFundingInfo::from_str(&written).unwrap();
    assert_eq!(again.swap_id, info.swap_id);
    assert_eq!(again.amount, info.amount);
    assert_eq!(again.address, info.address);
}

#[test]
fn bad_swap_id_is_refused_first() {
    let line = format!("nothex needs garbage BTC to {}", "garbage");
    assert!(matches!(BitcoinFundingInfo::from_str(&line), Err(FundingInfoError::SwapId(_))));
    assert!(matches!(MoneroFundingInfo::from_str(&line), Err(FundingInfoError::SwapId(_))));
}

#[test]
fn bad_amount_is_refused() {
    let line = format!("{} needs lots BTC to {}", swap_id_text(), BTC_ADDRESS);
    assert!(matches!(BitcoinFundingInfo::from_str(&line), Err(FundingInfoError::BitcoinAmount(_))));
    let line = format!("{} needs 1 BTC to {}", swap_id_text(), XMR_ADDRESS);
    assert!(matches!(MoneroFundingInfo::from_str(&line), Err(FundingInfoError::MoneroAmount(_))));
}

#[test]
fn bad_address_is_refused() {
    let line = format!("{} needs 0.1 BTC to {}", swap_id_text(), XMR_ADDRESS);
    assert!(matches!(BitcoinFundingInfo::from_str(&line), Err(FundingInfoError::BitcoinAddress(_))));
    let line = format!("{} needs 0.1 XMR to {}", swap_id_text(), BTC_ADDRESS);
    assert!(matches!(MoneroFundingInfo::from_str(&line), Err(FundingInfoError::MoneroAddress(_))));
}

#[test]
fn funding_words_are_split_at_single_spaces() {
    let words = funding_line_words("a  b c");
    assert_eq!(words, vec!["a", "", "b", "c"]);
    assert_eq!(funding_line_words(""), vec![""]);
    assert_eq!(funding_line_words(" "), vec!["", ""]);
}

#[test]
fn short_lines_with_a_bad_swap_id_give_the_swap_id_error() {
    assert!(matches!(BitcoinFundingInfo::from_str(""), Err(FundingInfoError::SwapId(_))));
    assert!(matches!(MoneroFundingInfo::from_str(""), Err(FundingInfoError::SwapId(_))));
    assert!(matches!(
        MoneroFundingInfo::from_str("needs 1 XMR to addr"),
        Err(FundingInfoError::SwapId(_))
    ));
    assert!(matches!(BitcoinFundingInfo::from_str("nothex"), Err(FundingInfoError::SwapId(_))));
}

#[test]
fn bad_amount_on_a_short_line_gives_the_amount_error() {
    let line = format!("{} needs lots BTC", swap_id_text());
    assert!(matches!(BitcoinFundingInfo::from_str(&line), Err(FundingInfoError::BitcoinAmount(_))));
    let line = format!("{} needs lots XMR to", swap_id_text());
    assert!(matches!(MoneroFundingInfo::from_str(&line), Err(FundingInfoError::MoneroAmount(_))));
}

#[test]
fn lines_cut_short_are_not_read() {
    let line = format!("{} needs", swap_id_text());
    assert!(BitcoinFundingInfo::from_line(&line).is_none());
    assert!(MoneroFundingInfo::from_line(&line).is_none());
    let line = format!("{} needs 0.1 BTC to", swap_id_text());
    assert!(BitcoinFundingInfo::from_line(&line).is_none());
    let line = format!("{} needs 0.1 XMR to", swap_id_text());
    assert!(MoneroFundingInfo::from_line(&line).is_none());
}

#[test]
fn monero_address_too_short_is_not_read() {
    let line = format!("{} needs 0.1 XMR to ", swap_id_text());
    assert!(MoneroFundingInfo::from_line(&line).is_none());
    let line = format!("{} needs 0.1 BTC to ", swap_id_text());
    assert!(matches!(
        BitcoinFundingInfo::from_line(&line),
        Some(Err(FundingInfoError::BitcoinAddress(_)))
    ));
}

#[test]
fn from_line_reads_what_from_str_reads() {
    let line = format!("{} needs 1 XMR to {}", swap_id_text(), XMR_ADDRESS);
    let info = MoneroFundingInfo::from_line(&line).unwrap().unwrap();
    assert_eq!(info.address, monero::Address::from_str(XMR_ADDRESS).unwrap());
    assert!(matches!(MoneroFundingInfo::from_line(""), Some(Err(FundingInfoError::SwapId(_)))));
    let line = format!("{} needs 0.1 XMR to abc", swap_id_text());
    assert!(matches!(
        MoneroFundingInfo::from_line(&line),
        Some(Err(FundingInfoError::MoneroAddress(_)))
    ));
    let line = format!("{} needs 1.5 BTC to {}", swap_id_text(), BTC_ADDRESS);
    let info = BitcoinFundingInfo::from_line(&line).unwrap().unwrap();
    assert_eq!(info.amount, bitcoin::Amount::from_sat(150_000_000));
}

fn monero_line(address_bytes: &[u8]) -> String {
    let address = base58_monero::encode(address_bytes).unwrap();
    format!("{} needs 1 XMR to {}", swap_id_text(), address)
}

fn address_bytes() -> Vec<u8> {
    base58_monero::decode(XMR_ADDRESS).unwrap()
}

#[test]
fn short_address_with_a_bad_spend_key_gives_the_address_error() {
    let bad_key: Vec<u8> = (2u8..=255)
        .map(|b| {
            let mut key = vec![0u8; 32];
            key[0] = b;
            key
        })
        .find(|key| monero::PublicKey::from_slice(key).is_err())
        .unwrap();
    let mut bytes = vec![18u8];
    bytes.extend_from_slice(&bad_key);
    bytes.extend_from_slice(&[0u8; 7]);
    let line = monero_line(&bytes);
    assert!(matches!(
        MoneroFundingInfo::from_line(&line),
        Some(Err(FundingInfoError::MoneroAddress(_)))
    ));
    assert!(matches!(
        MoneroFundingInfo::from_str(&line),
        Err(FundingInfoError::MoneroAddress(_))
    ));
}

#[test]
fn address_cut_after_a_good_key_is_not_read() {
    let bytes = address_bytes();
    assert_eq!(bytes.len(), 69);
    assert!(MoneroFundingInfo::from_line(&monero_line(&bytes[..40])).is_none());
    assert!(MoneroFundingInfo::from_line(&monero_line(&bytes[..66])).is_none());
    assert!(MoneroFundingInfo::from_line(&monero_line(&bytes[..32])).is_none());
}

#[test]
fn address_with_bytes_past_its_checksum_still_reads() {
    let mut bytes = address_bytes();
    bytes.push(7);
    let info = MoneroFundingInfo::from_line(&monero_line(&bytes)).unwrap().unwrap();
    assert_eq!(info.address, monero::Address::from_str(XMR_ADDRESS).unwrap());
}

#[test]
fn address_with_an_unknown_magic_byte_gives_the_address_error() {
    let line = monero_line(&[7u8, 1, 2, 3]);
    assert!(matches!(
        MoneroFundingInfo::from_line(&line),
        Some(Err(FundingInfoError::MoneroAddress(_)))
    ));
}

#[test]
fn lines_that_agree_on_the_read_words_read_alike() {
    let a = format!("{} needs 1 XMR to {}", swap_id_text(), XMR_ADDRESS);
    let b = format!("{} wants 1 XMR at {} and more", swap_id_text(), XMR_ADDRESS);
    let ra = MoneroFundingInfo::from_str(&a).unwrap();
    let rb = MoneroFundingInfo::from_str(&b).unwrap();
    assert_eq!(ra.swap_id, rb.swap_id);
    assert_eq!(ra.amount, rb.amount);
    assert_eq!(ra.address, rb.address);
}
