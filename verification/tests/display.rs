use farcaster_core::blockchain::Blockchain;
use farcaster_core::swap::SwapId;
use farcaster_node::rpc::request::{
    CheckpointEntry, Failure, FailureCode, GetKeys, List, Outcome, Progress, Request, Token,
};
use std::str::FromStr;

fn text(request: &Request) -> Option<String> {
    request.to_string()
}

#[test]
fn requests_without_content_are_written_by_name() {
    assert_eq!(text(&Request::Hello).as_deref(), Some("hello()"));
    assert_eq!(text(&Request::Terminate).as_deref(), Some("terminate()"));
    assert_eq!(text(&Request::PeerdTerminated).as_deref(), Some("peerd_terminated()"));
    assert_eq!(text(&Request::FundingUpdated).as_deref(), Some("funding_updated()"));
    assert_eq!(text(&Request::PingPeer).as_deref(), Some("ping_peer()"));
    assert_eq!(text(&Request::AbortSwap).as_deref(), Some("abort_swap()"));
    assert_eq!(text(&Request::Pong(vec![1, 2, 3])).as_deref(), Some("pong(..)"));
    assert_eq!(
        text(&Request::WriteText(List::from_inner(vec!["a".to_string()]))).as_deref(),
        Some("write_text")
    );
}

#[test]
fn requests_with_content_are_written_as_calls() {
    let get_keys = Request::GetKeys(GetKeys(Token("abc".to_string())));
    assert_eq!(text(&get_keys).as_deref(), Some("get_keys(token(abc))"));
    let outcome = Request::SwapOutcome(Outcome::Buy);
    assert_eq!(text(&outcome).as_deref(), Some("swap_outcome(Success(Swapped))"));
    let hex = Request::PublicOfferHex("Offer:xyz".to_string());
    assert_eq!(text(&hex).as_deref(), Some("public_offer_hex(Offer:xyz)"));
    let needs = Request::NeedsFunding(Blockchain::Bitcoin);
    assert_eq!(text(&needs).as_deref(), Some("needs_funding(Bitcoin)"));
    let canceled = Request::FundingCanceled(Blockchain::Monero);
    assert_eq!(text(&canceled).as_deref(), Some("funding_canceled(Monero)"));
    let id = SwapId::from_str(&("0x".to_string() + &"0123456789abcdef".repeat(4))).unwrap();
    let read = Request::ReadProgress(id);
    assert_eq!(text(&read).as_deref(), Some("read_progress(0x0123…cdef)"));
}

#[test]
fn replies_are_written_as_their_text() {
    assert_eq!(text(&Request::String("plain".to_string())).as_deref(), Some("plain"));
    let progress = Request::Progress(Progress::Message("halfway".to_string()));
    assert_eq!(text(&progress).as_deref(), Some("halfway"));
    let failure =
        Request::Failure(Failure { code: FailureCode::Unknown, info: "broken".to_string() });
    assert_eq!(text(&failure).as_deref(), Some("broken"));
}

#[test]
fn requests_written_as_yaml_have_no_fixed_text() {
    let list: List<CheckpointEntry> = List::from_inner(vec![]);
    assert_eq!(text(&Request::CheckpointList(list)), None);
    assert_eq!(text(&Request::MoneroAddressList(List::from_inner(vec![]))), None);
}

const OFFER: &str = "Offer:Cke4ftrP5A7CRkYdGNd87TRU6sUP1kBKM1LQM2fvVdFMNR4gmBqNCsR11111uMM4pF11111112Lvo11111TBALTh113GTvtvqfD1111114A4TUWxWeBc1WxwGBKaUssrb6pnijjhnb6RAs1HBr1CaX7o1a1111111111111111111111111111111111111111115T1WG8uDoZeAW1q";

#[test]
fn outside_values_are_written_through_their_display() {
    let addr = internet2::addr::InetSocketAddr::from_str("127.0.0.1:9735").unwrap();
    assert_eq!(text(&Request::Listen(addr)).as_deref(), Some("listen(127.0.0.1:9735)"));
    let txid = "e8b0d8bb2ab4e8f7a8cb8b8d4b5f5d8e6f2a0f1b9c7d3e5a4b6c8d0e2f4a6b8c";
    let outpoint = bitcoin::OutPoint::from_str(&format!("{}:3", txid)).unwrap();
    let expected = format!("fund_swap({}:3)", txid);
    assert_eq!(text(&Request::FundSwap(outpoint)).as_deref(), Some(expected.as_str()));
    let offer = farcaster_core::swap::btcxmr::PublicOffer::from_str(OFFER).unwrap();
    let expected = format!("revoke_offer({})", OFFER);
    assert_eq!(text(&Request::RevokeOffer(offer)).as_deref(), Some(expected.as_str()));
}
