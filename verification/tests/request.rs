use farcaster_node::cli::OfferSelector;
use farcaster_node::rpc::request::{
    Address, AddressSecretKey, Failure, FailureCode, FundingInfo, GetKeys, IntoProgressOrFailure,
    IntoSuccessOrFailure, Keys, List, OfferStatus, OfferStatusSelector, OptionDetails, Outcome,
    Progress, Request, RequestId, SwapProgress, Token, Tx, UNKNOWN_FAILURE_NUMBER,
};
use std::str::FromStr;

fn failure(info: &str) -> Failure {
    Failure { code: FailureCode::Unknown, info: info.to_string() }
}

#[test]
fn every_number_reads_as_the_unknown_failure_code() {
    assert_eq!(FailureCode::from(0u16), FailureCode::Unknown);
    assert_eq!(FailureCode::from(0xFFFu16), FailureCode::Unknown);
    assert_eq!(FailureCode::from(u16::MAX), FailureCode::Unknown);
}

#[test]
fn unknown_failure_code_is_number_0xfff() {
    assert_eq!(u16::from(FailureCode::Unknown), 0xFFF);
    assert_eq!(UNKNOWN_FAILURE_NUMBER, 0xFFF);
    assert_eq!(FailureCode::from(u16::from(FailureCode::Unknown)), FailureCode::Unknown);
}

#[test]
fn failure_code_and_failure_are_written_out() {
    assert_eq!(FailureCode::Unknown.to_string(), "Unknown");
    let f = failure("no such swap");
    assert_eq!(f.to_string(), "no such swap");
    assert_eq!(f.to_alternate_string(), "Server returned failure #Unknown: no such swap");
}

#[test]
fn offer_selectors_convert_by_name() {
    assert_eq!(OfferStatusSelector::from(OfferSelector::Open), OfferStatusSelector::Open);
    assert_eq!(
        OfferStatusSelector::from(OfferSelector::InProgress),
        OfferStatusSelector::InProgress
    );
    assert_eq!(OfferStatusSelector::from(OfferSelector::Ended), OfferStatusSelector::Ended);
    assert_eq!(OfferStatusSelector::from(OfferSelector::All), OfferStatusSelector::All);
}

#[test]
fn offer_status_selector_reads_open_and_ended() {
    assert_eq!(OfferStatusSelector::from_str("open"), Ok(OfferStatusSelector::Open));
    assert_eq!(OfferStatusSelector::from_str("Open"), Ok(OfferStatusSelector::Open));
    assert_eq!(OfferStatusSelector::from_str("ended"), Ok(OfferStatusSelector::Ended));
    assert_eq!(OfferStatusSelector::from_str("Ended"), Ok(OfferStatusSelector::Ended));
    assert_eq!("open".parse::<OfferStatusSelector>(), Ok(OfferStatusSelector::Open));
}

#[test]
fn in_progress_text_selects_open_offers() {
    assert_eq!(OfferStatusSelector::from_str("in_progress"), Ok(OfferStatusSelector::Open));
    assert_eq!(OfferStatusSelector::from_text("inprogress"), Ok(OfferStatusSelector::Open));
}

#[test]
fn other_selector_texts_are_refused() {
    assert_eq!(OfferStatusSelector::from_str("All"), Err(()));
    assert_eq!(OfferStatusSelector::from_str("all"), Err(()));
    assert_eq!(OfferStatusSelector::from_str("In Progress"), Err(()));
    assert_eq!(OfferStatusSelector::from_str("OPEN"), Err(()));
    assert_eq!(OfferStatusSelector::from_str(""), Err(()));
    assert_eq!(OfferStatusSelector::from_str("open "), Err(()));
}

#[test]
fn selector_names_read_back_for_open_and_ended_only() {
    for sel in [
        OfferStatusSelector::Open,
        OfferStatusSelector::InProgress,
        OfferStatusSelector::Ended,
        OfferStatusSelector::All,
    ] {
        let back = OfferStatusSelector::from_str(&sel.to_string());
        match sel {
            OfferStatusSelector::Open | OfferStatusSelector::Ended => assert_eq!(back, Ok(sel)),
            _ => assert_eq!(back, Err(())),
        }
    }
}

#[test]
fn selectors_statuses_and_outcomes_are_written_out() {
    assert_eq!(OfferStatusSelector::Open.to_string(), "Open");
    assert_eq!(OfferStatusSelector::InProgress.to_string(), "In Progress");
    assert_eq!(OfferStatusSelector::Ended.to_string(), "Ended");
    assert_eq!(OfferStatusSelector::All.to_string(), "All");
    assert_eq!(OfferStatus::Open.to_string(), "Open");
    assert_eq!(OfferStatus::InProgress.to_string(), "In Progress");
    assert_eq!(OfferStatus::Ended(Outcome::Refund).to_string(), "Ended(Failure(Refunded))");
    assert_eq!(Outcome::Buy.to_string(), "Success(Swapped)");
    assert_eq!(Outcome::Refund.to_string(), "Failure(Refunded)");
    assert_eq!(Outcome::Punish.to_string(), "Failure(Punished)");
    assert_eq!(Outcome::Abort.to_string(), "Failure(Aborted)");
}

#[test]
fn progress_and_details_show_their_text() {
    assert_eq!(Progress::Message("funding".to_string()).to_string(), "funding");
    assert_eq!(Progress::StateTransition("locked".to_string()).to_string(), "locked");
    assert_eq!(OptionDetails::with("swap started").to_string(), "swap started");
    assert_eq!(OptionDetails::with("swap started"), OptionDetails(Some("swap started".to_string())));
    assert_eq!(OptionDetails::new().to_string(), "");
    assert_eq!(OptionDetails::new(), OptionDetails(None));
    assert_eq!(OptionDetails::default(), OptionDetails(None));
}

#[test]
fn swap_progress_starts_empty() {
    assert!(SwapProgress::default().progress.is_empty());
}

#[test]
fn request_id_reads_big_endian_bytes() {
    assert_eq!(RequestId::from_be_bytes([0, 0, 0, 0, 0, 0, 1, 0]), RequestId(256));
    assert_eq!(RequestId::from_be_bytes([0; 8]), RequestId(0));
    assert_eq!(RequestId::from_be_bytes([0xff; 8]), RequestId(u64::MAX));
    assert_eq!(
        RequestId::from_be_bytes([1, 2, 3, 4, 5, 6, 7, 8]),
        RequestId(u64::from_be_bytes([1, 2, 3, 4, 5, 6, 7, 8]))
    );
}

#[test]
fn random_request_ids_differ() {
    let a = RequestId::rand();
    let b = RequestId::rand();
    let c = RequestId::rand();
    assert!(a != b || b != c);
}

#[test]
fn request_id_token_and_get_keys_are_written_out() {
    assert_eq!(RequestId(42).to_string(), "request_id(42)");
    assert_eq!(RequestId(0).to_string(), "request_id(0)");
    assert_eq!(RequestId(u64::MAX).to_string(), "request_id(18446744073709551615)");
    let token = Token("s3cr3t".to_string());
    assert_eq!(token.to_string(), "s3cr3t");
    assert_eq!(GetKeys(token).to_string(), "token(s3cr3t)");
}

#[test]
fn results_become_progress_or_failure() {
    let ok: Result<String, &str> = Ok("waiting for funding".to_string());
    match ok.into_progress_or_failure() {
        Request::Progress(Progress::Message(m)) => assert_eq!(m, "waiting for funding"),
        other => panic!("unexpected {:?}", other),
    }
    let err: Result<String, &str> = Err("connection lost");
    match err.into_progress_or_failure() {
        Request::Failure(f) => assert_eq!(f, failure("connection lost")),
        other => panic!("unexpected {:?}", other),
    }
}

#[test]
fn results_become_success_or_failure() {
    let ok: Result<String, &str> = Ok("offer revoked".to_string());
    match ok.into_success_or_failure() {
        Request::Success(d) => assert_eq!(d, OptionDetails::with("offer revoked")),
        other => panic!("unexpected {:?}", other),
    }
    let unit: Result<(), &str> = Ok(());
    match unit.into_success_or_failure() {
        Request::Success(d) => assert_eq!(d, OptionDetails::new()),
        other => panic!("unexpected {:?}", other),
    }
    let err: Result<(), String> = Err("no such offer".to_string());
    match err.into_success_or_failure() {
        Request::Failure(f) => assert_eq!(f, failure("no such offer")),
        other => panic!("unexpected {:?}", other),
    }
}

#[test]
fn errors_are_answered_with_unknown_failures() {
    match Request::from_error(std::fmt::Error) {
        Request::Failure(f) => {
            assert_eq!(f.code, FailureCode::Unknown);
            assert_eq!(f.info, std::fmt::Error.to_string());
        }
        other => panic!("unexpected {:?}", other),
    }
    match Request::from(failure("x")) {
        Request::Failure(f) => assert_eq!(f, failure("x")),
        other => panic!("unexpected {:?}", other),
    }
}

#[test]
fn lists_hold_their_items() {
    let l = List::from_inner(vec!["a".to_string(), "b".to_string()]);
    assert_eq!(l.as_inner(), &vec!["a".to_string(), "b".to_string()]);
    assert_eq!(l.into_inner(), vec!["a".to_string(), "b".to_string()]);
}

fn secret_key() -> bitcoin::secp256k1::SecretKey {
    bitcoin::secp256k1::SecretKey::from_slice(&[7u8; 32]).unwrap()
}

fn public_key() -> bitcoin::secp256k1::PublicKey {
    let secp = bitcoin::secp256k1::Secp256k1::new();
    bitcoin::secp256k1::PublicKey::from_secret_key(&secp, &secret_key())
}

#[test]
fn keys_are_written_with_their_secret() {
    let keys = Keys(secret_key(), public_key());
    let expected = format!(
        "sk: {}, pk: {}",
        "0707070707070707070707070707070707070707070707070707070707070707",
        public_key()
    );
    assert_eq!(keys.to_string(), expected);
    assert!(keys.to_string().starts_with("sk: 0707"));
}

#[test]
fn addresses_and_secret_keys_are_written_out() {
    let btc = bitcoin::Address::from_str("bc1qvzvkjn4q3nszqxrv3nraga2r822xjty3ykvkuw").unwrap();
    assert_eq!(Address::Bitcoin(btc.clone()).to_string(), "bc1qvzvkjn4q3nszqxrv3nraga2r822xjty3ykvkuw");
    let xmr_text = "4ADT1BtbxqEWeMKp9GgPr2NeyJXXtNxvoDawpyA4WpzFcGcoHUvXeijE66DNfohE9r1bQYaBiQjEtKE7CtkTdLwiDznFzra";
    let xmr = monero::Address::from_str(xmr_text).unwrap();
    assert_eq!(Address::Monero(xmr).to_string(), xmr_text);
    let key = AddressSecretKey::Bitcoin { address: btc, secret_key: secret_key() };
    assert_eq!(key.to_string(), "address_secret_key");
}

#[test]
fn transactions_are_written_by_role() {
    let tx = bitcoin::Transaction {
        version: 2,
        lock_time: 0,
        input: vec![],
        output: vec![],
    };
    assert_eq!(Tx::Lock(tx.clone()).to_string(), "lock(..)");
    assert_eq!(Tx::Buy(tx.clone()).to_string(), "buy(..)");
    assert_eq!(Tx::Funding(tx.clone()).to_string(), "funding(..)");
    assert_eq!(Tx::Cancel(tx.clone()).to_string(), "cancel(..)");
    assert_eq!(Tx::Refund(tx.clone()).to_string(), "refund(..)");
    assert_eq!(Tx::Punish(tx).to_string(), "punish(..)");
}

#[test]
fn funding_info_is_written_by_chain() {
    let line = format!(
        "{} needs 0.001 BTC to bc1qvzvkjn4q3nszqxrv3nraga2r822xjty3ykvkuw",
        "0x".to_string() + &"ab".repeat(32)
    );
    let info = farcaster_node::rpc::request::BitcoinFundingInfo::from_str(&line).unwrap();
    assert_eq!(FundingInfo::Bitcoin(info.clone()).to_string(), "bitcoin(..)");
    match Request::from(FundingInfo::Bitcoin(info)) {
        Request::FundingInfo(FundingInfo::Bitcoin(_)) => {}
        other => panic!("unexpected {:?}", other),
    }
}

#[test]
fn reconnect_peer_shows_the_peer() {
    let text = format!("{}@127.0.0.1:9735", public_key());
    let peer = internet2::addr::NodeAddr::from_str(&text).unwrap();
    let request = farcaster_node::rpc::request::ReconnectPeer(peer, None);
    assert_eq!(request.to_string(), format!("{}, ..", text));
}

#[test]
fn node_id_shows_its_key() {
    let node = farcaster_node::rpc::request::NodeId(public_key());
    assert_eq!(node.to_string(), public_key().to_string());
    assert_eq!(node.to_string().len(), 66);
}
