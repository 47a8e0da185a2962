use farcaster_core::swap::btcxmr::Parameters;
use farcaster_core::swap::SwapId;
use farcaster_node::rpc::msg::Reveal;
use farcaster_node::rpc::request::Params;
use std::str::FromStr;

fn key() -> bitcoin::secp256k1::PublicKey {
    let secp = bitcoin::secp256k1::Secp256k1::new();
    let sk = bitcoin::secp256k1::SecretKey::from_slice(&[7u8; 32]).unwrap();
    bitcoin::secp256k1::PublicKey::from_secret_key(&secp, &sk)
}

fn params(punish: bool) -> Parameters {
    let mut view = [0u8; 32];
    view[0] = 1;
    let spend = monero::PublicKey::from_private_key(&monero::PrivateKey::from_slice(&view).unwrap());
    Parameters {
        buy: key(),
        cancel: key(),
        refund: key(),
        punish: if punish { Some(key()) } else { None },
        adaptor: key(),
        extra_arbitrating_keys: vec![],
        arbitrating_shared_keys: vec![],
        spend,
        extra_accordant_keys: vec![],
        accordant_shared_keys: vec![],
        proof: None,
        destination_address: bitcoin::Address::from_str("bc1qvzvkjn4q3nszqxrv3nraga2r822xjty3ykvkuw")
            .unwrap(),
        cancel_timelock: None,
        punish_timelock: None,
        fee_strategy: None,
    }
}

fn swap_id() -> SwapId {
    SwapId::from_str(&"42".repeat(32)).unwrap()
}

#[test]
fn alice_reveals_her_parameters() {
    match Reveal::from_params(swap_id(), Params::Alice(params(true))) {
        Reveal::AliceParameters(r) => {
            assert_eq!(r.swap_id, swap_id());
            assert_eq!(r.punish, key());
            assert_eq!(r.buy, key());
        }
        other => panic!("unexpected {:?}", other),
    }
}

#[test]
fn bob_reveals_his_parameters() {
    match Reveal::try_from_params(swap_id(), Params::Bob(params(false))) {
        Some(Reveal::BobParameters(r)) => {
            assert_eq!(r.swap_id, swap_id());
            assert_eq!(r.refund, key());
        }
        other => panic!("unexpected {:?}", other),
    }
}

#[test]
fn alice_without_a_punish_key_reveals_nothing() {
    assert!(Reveal::try_from_params(swap_id(), Params::Alice(params(false))).is_none());
    assert!(Reveal::try_from_params(swap_id(), Params::Alice(params(true))).is_some());
}
