//! Requests exchanged between the services of the node, and the replies
//! that they carry back to the command line.
use vstd::prelude::*;

use farcaster_core::blockchain::Blockchain;
use farcaster_core::role::TradeRole;
use farcaster_core::swap::btcxmr::{Parameters, PublicOffer};
use farcaster_core::swap::SwapId;
use internet2::addr::{InetSocketAddr, NodeAddr};

use crate::cli::OfferSelector;
use crate::text::{decimal, decimal_text, joined, same_text};
use crate::trusted::{
    bitcoin_address_display, bitcoin_address_text, blockchain_display, blockchain_text,
    inet_socket_addr_display, inet_socket_addr_text, monero_address_display, monero_address_text,
    node_addr_display, node_addr_text, outpoint_display, outpoint_text, public_key_display,
    public_key_text, public_offer_display, public_offer_text, random_bytes, secret_key_display,
    secret_key_text, swap_id_display, swap_id_text,
};

pub use crate::rpc::funding::{
    BitcoinFundingInfo, FundingInfo, FundingInfoError, MoneroFundingInfo,
};

verus! {

/// The number that every failure code stands for on the wire.
pub const UNKNOWN_FAILURE_NUMBER: u16 = 0xFFF;

/// Information about a server-side failure returned through the RPC API.
#[derive(Clone, PartialEq, Eq, PartialOrd, Ord, Hash, Debug)]
pub struct Failure {
    /// Failure code
    pub code: FailureCode,
    /// Detailed information about the failure
    pub info: String,
}

/// The code of a failure.
#[derive(Copy, Clone, Ord, PartialOrd, Eq, PartialEq, Hash, Debug, Structural)]
pub enum FailureCode {
    /// Catch-all
    Unknown,
}

impl From<u16> for FailureCode {
    /// Every number names the catch-all code.
    fn from(_value: u16) -> (code: FailureCode) {
        FailureCode::Unknown
    }
}

impl vstd::std_specs::convert::FromSpecImpl<u16> for FailureCode {
    open spec fn obeys_from_spec() -> bool {
        true
    }

    open spec fn from_spec(v: u16) -> FailureCode {
        FailureCode::Unknown
    }
}

impl From<FailureCode> for u16 {
    /// The wire number of a failure code.
    fn from(code: FailureCode) -> (n: u16) {
        match code {
            FailureCode::Unknown => UNKNOWN_FAILURE_NUMBER,
        }
    }
}

impl vstd::std_specs::convert::FromSpecImpl<FailureCode> for u16 {
    open spec fn obeys_from_spec() -> bool {
        true
    }

    open spec fn from_spec(v: FailureCode) -> u16 {
        match v {
            FailureCode::Unknown => UNKNOWN_FAILURE_NUMBER,
        }
    }
}

impl FailureCode {
    /// The text that `Display` writes for a failure code: its name.
    pub open spec fn display(self) -> Seq<char> {
        match self {
            FailureCode::Unknown => "Unknown"@,
        }
    }

    /// The name of the failure code.
    pub fn to_string(&self) -> (r: String)
        ensures
            r@ == self.display(),
    {
        match self {
            FailureCode::Unknown => "Unknown".to_owned(),
        }
    }
}

impl Failure {
    /// The text that `Display` writes for a failure: its information.
    pub open spec fn display(&self) -> Seq<char> {
        self.info@
    }

    /// The text that the alternate `Display` (`{:#}`) writes for a failure.
    pub open spec fn display_alternate(&self) -> Seq<char> {
        "Server returned failure #"@ + self.code.display() + ": "@ + self.info@
    }

    /// The information of the failure.
    pub fn to_string(&self) -> (r: String)
        ensures
            r@ == self.display(),
    {
        self.info.clone()
    }

    /// The failure as a sentence with its code, as `format!("{:#}", ..)`
    /// writes it.
    pub fn to_alternate_string(&self) -> (r: String)
        ensures
            r@ == self.display_alternate(),
    {
        let mut s = joined("Server returned failure #", self.code.to_string().as_str());
        s.append(": ");
        s.append(self.info.as_str());
        s
    }
}

/// The value of bytes read as a big-endian unsigned number.
pub open spec fn big_endian_value(bytes: Seq<u8>) -> nat
    decreases bytes.len(),
{
    if bytes.len() == 0 {
        0
    } else {
        big_endian_value(bytes.drop_last()) * 256 + bytes.last() as nat
    }
}

/// 256 to the power `n`.
pub open spec fn pow256(n: nat) -> nat
    decreases n,
{
    if n == 0 {
        1
    } else {
        pow256((n - 1) as nat) * 256
    }
}

/// `k` bytes hold a number below `256^k`.
pub proof fn lemma_big_endian_value_bound(bytes: Seq<u8>)
    ensures
        big_endian_value(bytes) < pow256(bytes.len()),
    decreases bytes.len(),
{
    if bytes.len() > 0 {
        lemma_big_endian_value_bound(bytes.drop_last());
    }
}

/// Identifier of a request.
#[derive(Eq, PartialEq, Hash, Clone, Debug, Structural)]
pub struct RequestId(pub u64);

impl RequestId {
    /// The identifier whose big-endian bytes are `bytes`.
    pub fn from_be_bytes(bytes: [u8; 8]) -> (id: RequestId)
        ensures
            id.0 == big_endian_value(bytes@),
    {
        let mut value: u64 = 0;
        let mut i: usize = 0;
        proof {
            reveal_with_fuel(pow256, 9);
            assert(bytes@.take(0) =~= Seq::<u8>::empty());
        }
        while i < 8
            invariant
                i <= 8,
                value == big_endian_value(bytes@.take(i as int)),
                pow256(8) == 0x1_0000_0000_0000_0000,
            decreases 8 - i,
        {
            proof {
                lemma_big_endian_value_bound(bytes@.take(i as int));
                reveal_with_fuel(pow256, 9);
                assert(bytes@.take(i + 1).drop_last() =~= bytes@.take(i as int));
            }
            value = value * 256 + bytes[i] as u64;
            i = i + 1;
        }
        proof {
            assert(bytes@.take(8) =~= bytes@);
        }
        RequestId(value)
    }

    /// A fresh identifier drawn from eight random bytes.
    pub fn rand() -> (id: RequestId)
        ensures
            exists|bytes: Seq<u8>| bytes.len() == 8 && id.0 == big_endian_value(bytes),
    {
        let bytes = random_bytes();
        RequestId::from_be_bytes(bytes)
    }

    /// The text that `Display` writes for an identifier.
    pub open spec fn display(&self) -> Seq<char> {
        "request_id("@ + decimal(self.0 as nat) + ")"@
    }

    /// The identifier as `request_id(<number>)`.
    pub fn to_string(&self) -> (r: String)
        ensures
            r@ == self.display(),
    {
        let mut s = joined("request_id(", decimal_text(self.0).as_str());
        s.append(")");
        s
    }
}

/// The public key that identifies a node.
#[derive(Clone, Debug)]
pub struct NodeId(pub bitcoin::secp256k1::PublicKey);

impl NodeId {
    /// The text that `Display` writes for a node identifier: its key.
    pub open spec fn display(&self) -> Seq<char> {
        public_key_display(self.0)
    }

    /// The key of the node, written out.
    pub fn to_string(&self) -> (r: String)
        ensures
            r@ == self.display(),
    {
        public_key_text(&self.0)
    }
}

/// An authentication token.
#[derive(Clone, Debug, PartialEq, Eq)]
pub struct Token(pub String);

impl Token {
    /// The text that `Display` writes for a token: the token itself.
    pub open spec fn display(&self) -> Seq<char> {
        self.0@
    }

    /// The token.
    pub fn to_string(&self) -> (r: String)
        ensures
            r@ == self.display(),
    {
        self.0.clone()
    }
}

/// Asks for the keys that a token opens.
#[derive(Clone, Debug)]
pub struct GetKeys(pub Token);

impl GetKeys {
    /// The text that `Display` writes for the request.
    pub open spec fn display(&self) -> Seq<char> {
        "token("@ + self.0.display() + ")"@
    }

    /// The request as `token(<token>)`.
    pub fn to_string(&self) -> (r: String)
        ensures
            r@ == self.display(),
    {
        let mut s = joined("token(", self.0.0.as_str());
        s.append(")");
        s
    }
}

/// A secret key with its public key.
#[derive(Clone, Debug, Eq, PartialEq)]
pub struct Keys(pub bitcoin::secp256k1::SecretKey, pub bitcoin::secp256k1::PublicKey);

impl Keys {
    /// The text that `Display` writes for a key pair.
    pub open spec fn display(&self) -> Seq<char> {
        "sk: "@ + secret_key_display(self.0) + ", pk: "@ + public_key_display(self.1)
    }

    /// The keys as `sk: <secret>, pk: <public>`.
    pub fn to_string(&self) -> (r: String)
        ensures
            r@ == self.display(),
    {
        let mut s = joined("sk: ", secret_key_text(&self.0).as_str());
        s.append(", pk: ");
        s.append(public_key_text(&self.1).as_str());
        s
    }
}

/// A transaction of a swap, by its role.
#[derive(Clone, Debug)]
pub enum Tx {
    Lock(bitcoin::Transaction),
    Buy(bitcoin::Transaction),
    Funding(bitcoin::Transaction),
    Cancel(bitcoin::Transaction),
    Refund(bitcoin::Transaction),
    Punish(bitcoin::Transaction),
}

impl Tx {
    /// The text that `Display` writes for a transaction: its role.
    pub open spec fn display(&self) -> Seq<char> {
        match self {
            Tx::Lock(_) => "lock(..)"@,
            Tx::Buy(_) => "buy(..)"@,
            Tx::Funding(_) => "funding(..)"@,
            Tx::Cancel(_) => "cancel(..)"@,
            Tx::Refund(_) => "refund(..)"@,
            Tx::Punish(_) => "punish(..)"@,
        }
    }

    /// The role of the transaction, as `lock(..)` and the like.
    pub fn to_string(&self) -> (r: String)
        ensures
            r@ == self.display(),
    {
        match self {
            Tx::Lock(_) => "lock(..)".to_owned(),
            Tx::Buy(_) => "buy(..)".to_owned(),
            Tx::Funding(_) => "funding(..)".to_owned(),
            Tx::Cancel(_) => "cancel(..)".to_owned(),
            Tx::Refund(_) => "refund(..)".to_owned(),
            Tx::Punish(_) => "punish(..)".to_owned(),
        }
    }
}

/// An address on either chain.
#[derive(Eq, PartialEq, Clone, Debug)]
pub enum Address {
    Bitcoin(bitcoin::Address),
    Monero(monero::Address),
}

impl Address {
    /// The text that `Display` writes for an address: the address itself.
    pub open spec fn display(&self) -> Seq<char> {
        match self {
            Address::Bitcoin(a) => bitcoin_address_display(*a),
            Address::Monero(a) => monero_address_display(*a),
        }
    }

    /// The address, written out.
    pub fn to_string(&self) -> (r: String)
        ensures
            r@ == self.display(),
    {
        match self {
            Address::Bitcoin(a) => bitcoin_address_text(a),
            Address::Monero(a) => monero_address_text(a),
        }
    }
}

/// The bitcoin address of a swap.
#[derive(Clone, PartialEq, Eq, Debug)]
pub struct BitcoinAddress(pub SwapId, pub bitcoin::Address);

impl BitcoinAddress {
    /// The text that `Display` writes: the address.
    pub open spec fn display(&self) -> Seq<char> {
        bitcoin_address_display(self.1)
    }

    /// The address, written out.
    pub fn to_string(&self) -> (r: String)
        ensures
            r@ == self.display(),
    {
        bitcoin_address_text(&self.1)
    }
}

/// The monero address of a swap.
#[derive(Clone, PartialEq, Eq, Debug)]
pub struct MoneroAddress(pub SwapId, pub monero::Address);

impl MoneroAddress {
    /// The text that `Display` writes: the address.
    pub open spec fn display(&self) -> Seq<char> {
        monero_address_display(self.1)
    }

    /// The address, written out.
    pub fn to_string(&self) -> (r: String)
        ensures
            r@ == self.display(),
    {
        monero_address_text(&self.1)
    }
}

/// An address with the secret keys that spend from it.
#[derive(Clone, Debug)]
pub enum AddressSecretKey {
    Bitcoin { address: bitcoin::Address, secret_key: bitcoin::secp256k1::SecretKey },
    Monero { address: monero::Address, view: monero::PrivateKey, spend: monero::PrivateKey },
}

impl AddressSecretKey {
    /// The text that `Display` writes: a fixed tag that shows no secret.
    pub open spec fn display(&self) -> Seq<char> {
        "address_secret_key"@
    }

    /// A fixed tag that shows no secret.
    pub fn to_string(&self) -> (r: String)
        ensures
            r@ == self.display(),
    {
        "address_secret_key".to_owned()
    }
}

/// Asks to reconnect to a peer, with the key to connect with.
#[derive(Clone, Debug)]
pub struct ReconnectPeer(pub NodeAddr, pub Option<bitcoin::secp256k1::SecretKey>);

impl ReconnectPeer {
    /// The text that `Display` writes: the peer, then `, ..`.
    pub open spec fn display(&self) -> Seq<char> {
        node_addr_display(self.0) + ", .."@
    }

    /// The peer to reconnect to, as `<peer>, ..`.
    pub fn to_string(&self) -> (r: String)
        ensures
            r@ == self.display(),
    {
        let mut s = node_addr_text(&self.0);
        s.append(", ..");
        s
    }
}

/// The parameters of a swap participant, by role.
#[derive(Clone, Debug)]
pub enum Params {
    Alice(Parameters),
    Bob(Parameters),
}

impl Params {
    /// The text that `Display` writes: the role alone.
    pub open spec fn display(&self) -> Seq<char> {
        match self {
            Params::Alice(_) => "alice(..)"@,
            Params::Bob(_) => "bob(..)"@,
        }
    }

    /// The role of the parameters, as `alice(..)` or `bob(..)`.
    pub fn to_string(&self) -> (r: String)
        ensures
            r@ == self.display(),
    {
        match self {
            Params::Alice(_) => "alice(..)".to_owned(),
            Params::Bob(_) => "bob(..)".to_owned(),
        }
    }
}

/// An offer with where it stands.
#[derive(Clone, Debug)]
pub struct OfferStatusPair {
    pub offer: PublicOffer,
    pub status: OfferStatus,
}

/// The reply to an offer that was made.
#[derive(Clone, Debug)]
pub struct MadeOffer {
    pub message: String,
    pub offer_info: OfferInfo,
}

/// An offer, as text and as its details.
#[derive(Clone, Debug)]
pub struct OfferInfo {
    pub offer: String,
    pub details: PublicOffer,
}

/// A swap that has a checkpoint to resume from.
#[derive(Clone, Debug)]
pub struct CheckpointEntry {
    pub swap_id: SwapId,
    pub public_offer: PublicOffer,
    pub trade_role: TradeRole,
}

/// Which offers a query asks for.
#[derive(Clone, Debug, Eq, PartialEq, Structural)]
pub enum OfferStatusSelector {
    Open,
    InProgress,
    Ended,
    All,
}

impl From<OfferSelector> for OfferStatusSelector {
    /// The selector of the same name.
    fn from(offer_selector: OfferSelector) -> (r: OfferStatusSelector) {
        match offer_selector {
            OfferSelector::Open => OfferStatusSelector::Open,
            OfferSelector::InProgress => OfferStatusSelector::InProgress,
            OfferSelector::Ended => OfferStatusSelector::Ended,
            OfferSelector::All => OfferStatusSelector::All,
        }
    }
}

impl vstd::std_specs::convert::FromSpecImpl<OfferSelector> for OfferStatusSelector {
    open spec fn obeys_from_spec() -> bool {
        true
    }

    open spec fn from_spec(v: OfferSelector) -> OfferStatusSelector {
        match v {
            OfferSelector::Open => OfferStatusSelector::Open,
            OfferSelector::InProgress => OfferStatusSelector::InProgress,
            OfferSelector::Ended => OfferStatusSelector::Ended,
            OfferSelector::All => OfferStatusSelector::All,
        }
    }
}

/// What a selector given as text reads as. `in_progress` and `inprogress`
/// select the open offers, and no text selects all offers.
pub open spec fn selector_from_text(s: Seq<char>) -> Result<OfferStatusSelector, ()> {
    if s == "open"@ || s == "Open"@ {
        Ok(OfferStatusSelector::Open)
    } else if s == "in_progress"@ || s == "inprogress"@ {
        Ok(OfferStatusSelector::Open)
    } else if s == "ended"@ || s == "Ended"@ {
        Ok(OfferStatusSelector::Ended)
    } else {
        Err(())
    }
}

impl OfferStatusSelector {
    /// Reads a selector from its text.
    pub fn from_text(input: &str) -> (r: Result<OfferStatusSelector, ()>)
        ensures
            r == selector_from_text(input@),
    {
        if same_text(input, "open") || same_text(input, "Open") {
            Ok(OfferStatusSelector::Open)
        } else if same_text(input, "in_progress") || same_text(input, "inprogress") {
            Ok(OfferStatusSelector::Open)
        } else if same_text(input, "ended") || same_text(input, "Ended") {
            Ok(OfferStatusSelector::Ended)
        } else {
            Err(())
        }
    }

    /// The text that `Display` writes for a selector.
    pub open spec fn display(&self) -> Seq<char> {
        match self {
            OfferStatusSelector::Open => "Open"@,
            OfferStatusSelector::InProgress => "In Progress"@,
            OfferStatusSelector::Ended => "Ended"@,
            OfferStatusSelector::All => "All"@,
        }
    }

    /// The name of the selector, for people.
    pub fn to_string(&self) -> (r: String)
        ensures
            r@ == self.display(),
    {
        match self {
            OfferStatusSelector::Open => "Open".to_owned(),
            OfferStatusSelector::InProgress => "In Progress".to_owned(),
            OfferStatusSelector::Ended => "Ended".to_owned(),
            OfferStatusSelector::All => "All".to_owned(),
        }
    }
}

impl std::str::FromStr for OfferStatusSelector {
    type Err = ();

    /// Reads a selector from its text, as `from_text` does.
    fn from_str(input: &str) -> (r: Result<OfferStatusSelector, ()>)
        ensures
            r == selector_from_text(input@),
    {
        OfferStatusSelector::from_text(input)
    }
}

/// Where an offer stands.
#[derive(Clone, Debug, Eq, PartialEq, Structural)]
pub enum OfferStatus {
    Open,
    InProgress,
    Ended(Outcome),
}

impl OfferStatus {
    /// The text that `Display` writes for a status.
    pub open spec fn display(&self) -> Seq<char> {
        match self {
            OfferStatus::Open => "Open"@,
            OfferStatus::InProgress => "In Progress"@,
            OfferStatus::Ended(outcome) => "Ended("@ + outcome.display() + ")"@,
        }
    }

    /// The status, for people.
    pub fn to_string(&self) -> (r: String)
        ensures
            r@ == self.display(),
    {
        match self {
            OfferStatus::Open => "Open".to_owned(),
            OfferStatus::InProgress => "In Progress".to_owned(),
            OfferStatus::Ended(outcome) => {
                let mut s = joined("Ended(", outcome.to_string().as_str());
                s.append(")");
                s
            },
        }
    }
}

/// How a swap ended.
#[derive(Clone, Debug, Eq, PartialEq, Structural)]
pub enum Outcome {
    Buy,
    Refund,
    Punish,
    Abort,
}

impl Outcome {
    /// The text that `Display` writes for an outcome.
    pub open spec fn display(&self) -> Seq<char> {
        match self {
            Outcome::Buy => "Success(Swapped)"@,
            Outcome::Refund => "Failure(Refunded)"@,
            Outcome::Punish => "Failure(Punished)"@,
            Outcome::Abort => "Failure(Aborted)"@,
        }
    }

    /// The outcome, for people.
    pub fn to_string(&self) -> (r: String)
        ensures
            r@ == self.display(),
    {
        match self {
            Outcome::Buy => "Success(Swapped)".to_owned(),
            Outcome::Refund => "Failure(Refunded)".to_owned(),
            Outcome::Punish => "Failure(Punished)".to_owned(),
            Outcome::Abort => "Failure(Aborted)".to_owned(),
        }
    }
}

/// A report on the progress of a swap.
#[derive(Clone, Debug)]
pub enum Progress {
    Message(String),
    StateTransition(String),
}

impl Progress {
    /// The text that `Display` writes for a report: the report itself.
    pub open spec fn display(&self) -> Seq<char> {
        match self {
            Progress::Message(m) => m@,
            Progress::StateTransition(t) => t@,
        }
    }

    /// The report.
    pub fn to_string(&self) -> (r: String)
        ensures
            r@ == self.display(),
    {
        match self {
            Progress::Message(m) => m.clone(),
            Progress::StateTransition(t) => t.clone(),
        }
    }
}

/// One event in the history of a swap.
#[derive(Clone, PartialEq, Eq, Debug)]
pub enum ProgressEvent {
    Message(String),
    StateTransition(String),
    Success(OptionDetails),
    Failure(Failure),
}

/// The history of a swap, oldest event first.
#[derive(Clone, PartialEq, Eq, Debug)]
pub struct SwapProgress {
    pub progress: Vec<ProgressEvent>,
}

impl Default for SwapProgress {
    /// An empty history.
    fn default() -> (p: SwapProgress)
        ensures
            p.progress@ == Seq::<ProgressEvent>::empty(),
    {
        SwapProgress { progress: Vec::new() }
    }
}

/// Optional details that come with a successful reply.
#[derive(Clone, PartialEq, Eq, Debug)]
pub struct OptionDetails(pub Option<String>);

impl OptionDetails {
    /// Details holding the given text.
    pub fn with(s: &str) -> (d: Self)
        ensures
            d.0 is Some,
            d.0->0@ == s@,
    {
        OptionDetails(Some(s.to_owned()))
    }

    /// No details.
    pub fn new() -> (d: Self)
        ensures
            d.0 is None,
    {
        OptionDetails(None)
    }

    /// The text that `Display` writes for details: the text they hold, or
    /// nothing.
    pub open spec fn display(&self) -> Seq<char> {
        match self.0 {
            Some(msg) => msg@,
            None => Seq::empty(),
        }
    }

    /// The text of the details, empty where there are none.
    pub fn to_string(&self) -> (r: String)
        ensures
            r@ == self.display(),
    {
        match &self.0 {
            Some(msg) => msg.clone(),
            None => String::new(),
        }
    }
}

impl Default for OptionDetails {
    /// No details.
    fn default() -> (d: OptionDetails)
        ensures
            d.0 is None,
    {
        OptionDetails(None)
    }
}

/// Details made from a text show that text, and no details show nothing.
pub proof fn lemma_details_show_their_text(d: OptionDetails)
    ensures
        d.0 matches Some(t) ==> d.display() == t@,
        d.0 is None ==> d.display() == Seq::<char>::empty(),
{
}

/// A value kept for each remote peer, by its address.
pub type RemotePeerMap<T> = std::collections::BTreeMap<NodeAddr, T>;

/// The reply to an offer that was taken.
#[derive(Clone, PartialEq, Eq, Debug)]
pub struct TookOffer {
    pub offerid: uuid::Uuid,
    pub message: String,
}

/// A list of items that a reply carries.
#[derive(Clone, PartialEq, Eq, Debug)]
pub struct List<T>(Vec<T>);

impl<T> View for List<T> {
    type V = Seq<T>;

    closed spec fn view(&self) -> Seq<T> {
        self.0@
    }
}

impl<T> List<T> {
    /// The list of the given items.
    pub fn from_inner(inner: Vec<T>) -> (l: List<T>)
        ensures
            l@ == inner@,
    {
        List(inner)
    }

    /// The items of the list.
    pub fn as_inner(&self) -> (r: &Vec<T>)
        ensures
            r@ == self@,
    {
        &self.0
    }

    /// The items of the list, taken out of it.
    pub fn into_inner(self) -> (r: Vec<T>)
        ensures
            r@ == self@,
    {
        self.0
    }
}

/// A request between the services of the node, or a reply that goes back to
/// the command line.
#[derive(Clone, Debug)]
#[non_exhaustive]
pub enum Request {
    /// The reply to a ping, with the bytes that it asked for.
    Pong(Vec<u8>),
    Hello,
    Terminate,
    PeerdTerminated,
    CheckpointList(List<CheckpointEntry>),
    ReconnectPeer(ReconnectPeer),
    NodeId(NodeId),
    GetKeys(GetKeys),
    GetSweepBitcoinAddress(bitcoin::Address),
    Keys(Keys),
    FundingUpdated,
    SwapOutcome(Outcome),
    Listen(InetSocketAddr),
    ConnectPeer(NodeAddr),
    PingPeer,
    Params(Params),
    Tx(Tx),
    BitcoinAddress(BitcoinAddress),
    MoneroAddress(MoneroAddress),
    RevokeOffer(PublicOffer),
    AbortSwap,
    FundSwap(bitcoin::OutPoint),
    ReadProgress(SwapId),
    SubscribeProgress(SwapId),
    UnsubscribeProgress(SwapId),
    String(String),
    MadeOffer(MadeOffer),
    TookOffer(TookOffer),
    Progress(Progress),
    SwapProgress(SwapProgress),
    Success(OptionDetails),
    Failure(Failure),
    PublicOfferHex(String),
    FundingInfo(FundingInfo),
    NeedsFunding(Blockchain),
    WriteText(List<String>),
    FundingCompleted(Blockchain),
    FundingCanceled(Blockchain),
    RemoveCheckpoint(SwapId),
    GetAddressSecretKey(Address),
    GetAddresses(Blockchain),
    BitcoinAddressList(List<bitcoin::Address>),
    MoneroAddressList(List<String>),
    SetAddressSecretKey(AddressSecretKey),
    SetOfferStatus(OfferStatusPair),
    RetrieveOffers(OfferStatusSelector),
    AddressSecretKey(AddressSecretKey),
}

impl From<Failure> for Request {
    /// The failure, as a reply.
    fn from(failure: Failure) -> (r: Request) {
        Request::Failure(failure)
    }
}

impl vstd::std_specs::convert::FromSpecImpl<Failure> for Request {
    open spec fn obeys_from_spec() -> bool {
        true
    }

    open spec fn from_spec(v: Failure) -> Request {
        Request::Failure(v)
    }
}

impl From<FundingInfo> for Request {
    /// The funding information, as a reply.
    fn from(info: FundingInfo) -> (r: Request) {
        Request::FundingInfo(info)
    }
}

impl vstd::std_specs::convert::FromSpecImpl<FundingInfo> for Request {
    open spec fn obeys_from_spec() -> bool {
        true
    }

    open spec fn from_spec(v: FundingInfo) -> Request {
        Request::FundingInfo(v)
    }
}

/// `r` answers `err`: it is the failure with the catch-all code and the text
/// that `to_string` gives for the error.
pub open spec fn answers_error<E: std::fmt::Display>(r: Request, err: E) -> bool {
    &&& r matches Request::Failure(f)
    &&& f.code == FailureCode::Unknown
    &&& vstd::string::to_string_from_display_ensures::<E>(&err, f.info)
}

impl Request {
    /// The reply to an error of the node: a failure with the catch-all code
    /// and the text of the error.
    pub fn from_error<E: std::fmt::Display>(err: E) -> (r: Request)
        ensures
            answers_error(r, err),
    {
        Request::Failure(Failure { code: FailureCode::Unknown, info: err.to_string() })
    }
}

/// `<name>(<inner>)`: how a request that carries a value is written.
pub open spec fn call_text(name: Seq<char>, inner: Seq<char>) -> Seq<char> {
    name + "("@ + inner + ")"@
}

/// Writes `<name>(<inner>)`.
fn write_call(name: &str, inner: String) -> (r: String)
    ensures
        r@ == call_text(name@, inner@),
{
    let mut s = joined(name, "(");
    s.append(inner.as_str());
    s.append(")");
    s
}

impl Request {
    /// The text that `Display` writes for a request, where the request
    /// itself fixes it: the name of the request, with what it carries in
    /// brackets, or the text of the reply that it carries. `None` for the
    /// requests whose text is the YAML document of what they carry (lists,
    /// offers made or taken, the history of a swap, an offer with its
    /// status).
    pub open spec fn display(&self) -> Option<Seq<char>> {
        match self {
            Request::Pong(_) => Some("pong(..)"@),
            Request::Hello => Some("hello()"@),
            Request::Terminate => Some("terminate()"@),
            Request::PeerdTerminated => Some("peerd_terminated()"@),
            Request::CheckpointList(_) => None,
            Request::ReconnectPeer(r) => Some(call_text("reconnect_peer"@, r.display())),
            Request::NodeId(n) => Some(call_text("node_id"@, n.display())),
            Request::GetKeys(g) => Some(call_text("get_keys"@, g.display())),
            Request::GetSweepBitcoinAddress(a) => Some(
                call_text("get_sweep_bitcoin_address"@, bitcoin_address_display(*a)),
            ),
            Request::Keys(k) => Some(call_text("keys"@, k.display())),
            Request::FundingUpdated => Some("funding_updated()"@),
            Request::SwapOutcome(o) => Some(call_text("swap_outcome"@, o.display())),
            Request::Listen(a) => Some(call_text("listen"@, inet_socket_addr_display(*a))),
            Request::ConnectPeer(a) => Some(call_text("connect"@, node_addr_display(*a))),
            Request::PingPeer => Some("ping_peer()"@),
            Request::Params(p) => Some(call_text("params"@, p.display())),
            Request::Tx(t) => Some(call_text("transaction"@, t.display())),
            Request::BitcoinAddress(a) => Some(call_text("bitcoin_address"@, a.display())),
            Request::MoneroAddress(a) => Some(call_text("monero_address"@, a.display())),
            Request::RevokeOffer(o) => Some(call_text("revoke_offer"@, public_offer_display(*o))),
            Request::AbortSwap => Some("abort_swap()"@),
            Request::FundSwap(o) => Some(call_text("fund_swap"@, outpoint_display(*o))),
            Request::ReadProgress(id) => Some(call_text("read_progress"@, swap_id_display(*id))),
            Request::SubscribeProgress(id) => Some(
                call_text("subscribe_progress"@, swap_id_display(*id)),
            ),
            Request::UnsubscribeProgress(id) => Some(
                call_text("unsubscribe_progress"@, swap_id_display(*id)),
            ),
            Request::String(text) => Some(text@),
            Request::MadeOffer(_) => None,
            Request::TookOffer(_) => None,
            Request::Progress(p) => Some(p.display()),
            Request::SwapProgress(_) => None,
            Request::Success(d) => Some(d.display()),
            Request::Failure(f) => Some(f.display()),
            Request::PublicOfferHex(text) => Some(call_text("public_offer_hex"@, text@)),
            Request::FundingInfo(info) => Some(call_text("funding_info"@, info.display())),
            Request::NeedsFunding(c) => Some(call_text("needs_funding"@, blockchain_display(*c))),
            Request::WriteText(_) => Some("write_text"@),
            Request::FundingCompleted(c) => Some(
                call_text("funding_completed"@, blockchain_display(*c)),
            ),
            Request::FundingCanceled(c) => Some(
                call_text("funding_canceled"@, blockchain_display(*c)),
            ),
            Request::RemoveCheckpoint(_) => Some("remove_checkpoint"@),
            Request::GetAddressSecretKey(a) => Some(
                call_text("get_address_secret_key"@, a.display()),
            ),
            Request::GetAddresses(c) => Some(call_text("get_addresses"@, blockchain_display(*c))),
            Request::BitcoinAddressList(_) => None,
            Request::MoneroAddressList(_) => None,
            Request::SetAddressSecretKey(_) => Some("set_address_secret_key"@),
            Request::SetOfferStatus(_) => None,
            Request::RetrieveOffers(s) => Some(call_text("retrieve_offers"@, s.display())),
            Request::AddressSecretKey(_) => Some("address_secret_key"@),
        }
    }

    /// The request as `Display` writes it, where the request fixes the text;
    /// `None` where the text is the YAML document of what it carries.
    pub fn to_string(&self) -> (r: Option<String>)
        ensures
            r matches Some(text) ==> self.display() == Some(text@),
            r is None ==> self.display() is None,
    {
        match self {
            Request::Pong(_) => Some("pong(..)".to_owned()),
            Request::Hello => Some("hello()".to_owned()),
            Request::Terminate => Some("terminate()".to_owned()),
            Request::PeerdTerminated => Some("peerd_terminated()".to_owned()),
            Request::CheckpointList(_) => None,
            Request::ReconnectPeer(r) => Some(write_call("reconnect_peer", r.to_string())),
            Request::NodeId(n) => Some(write_call("node_id", n.to_string())),
            Request::GetKeys(g) => Some(write_call("get_keys", g.to_string())),
            Request::GetSweepBitcoinAddress(a) => Some(
                write_call("get_sweep_bitcoin_address", bitcoin_address_text(a)),
            ),
            Request::Keys(k) => Some(write_call("keys", k.to_string())),
            Request::FundingUpdated => Some("funding_updated()".to_owned()),
            Request::SwapOutcome(o) => Some(write_call("swap_outcome", o.to_string())),
            Request::Listen(a) => Some(write_call("listen", inet_socket_addr_text(a))),
            Request::ConnectPeer(a) => Some(write_call("connect", node_addr_text(a))),
            Request::PingPeer => Some("ping_peer()".to_owned()),
            Request::Params(p) => Some(write_call("params", p.to_string())),
            Request::Tx(t) => Some(write_call("transaction", t.to_string())),
            Request::BitcoinAddress(a) => Some(write_call("bitcoin_address", a.to_string())),
            Request::MoneroAddress(a) => Some(write_call("monero_address", a.to_string())),
            Request::RevokeOffer(o) => Some(write_call("revoke_offer", public_offer_text(o))),
            Request::AbortSwap => Some("abort_swap()".to_owned()),
            Request::FundSwap(o) => Some(write_call("fund_swap", outpoint_text(o))),
            Request::ReadProgress(id) => Some(write_call("read_progress", swap_id_text(id))),
            Request::SubscribeProgress(id) => Some(
                write_call("subscribe_progress", swap_id_text(id)),
            ),
            Request::UnsubscribeProgress(id) => Some(
                write_call("unsubscribe_progress", swap_id_text(id)),
            ),
            Request::String(text) => Some(text.clone()),
            Request::MadeOffer(_) => None,
            Request::TookOffer(_) => None,
            Request::Progress(p) => Some(p.to_string()),
            Request::SwapProgress(_) => None,
            Request::Success(d) => Some(d.to_string()),
            Request::Failure(f) => Some(f.to_string()),
            Request::PublicOfferHex(text) => Some(write_call("public_offer_hex", text.clone())),
            Request::FundingInfo(info) => Some(write_call("funding_info", info.to_string())),
            Request::NeedsFunding(c) => Some(write_call("needs_funding", blockchain_text(c))),
            Request::WriteText(_) => Some("write_text".to_owned()),
            Request::FundingCompleted(c) => Some(
                write_call("funding_completed", blockchain_text(c)),
            ),
            Request::FundingCanceled(c) => Some(write_call("funding_canceled", blockchain_text(c))),
            Request::RemoveCheckpoint(_) => Some("remove_checkpoint".to_owned()),
            Request::GetAddressSecretKey(a) => Some(
                write_call("get_address_secret_key", a.to_string()),
            ),
            Request::GetAddresses(c) => Some(write_call("get_addresses", blockchain_text(c))),
            Request::BitcoinAddressList(_) => None,
            Request::MoneroAddressList(_) => None,
            Request::SetAddressSecretKey(_) => Some("set_address_secret_key".to_owned()),
            Request::SetOfferStatus(_) => None,
            Request::RetrieveOffers(s) => Some(write_call("retrieve_offers", s.to_string())),
            Request::AddressSecretKey(_) => Some("address_secret_key".to_owned()),
        }
    }
}

/// Turns the result of an operation into a progress report or a failure.
pub trait IntoProgressOrFailure {
    fn into_progress_or_failure(self) -> Request;
}

/// Turns the result of an operation into a success or a failure.
pub trait IntoSuccessOrFailure {
    fn into_success_or_failure(self) -> Request;
}

impl<E: std::fmt::Display> IntoProgressOrFailure for Result<String, E> {
    /// A text becomes a progress message; an error becomes a failure.
    fn into_progress_or_failure(self) -> (r: Request)
        ensures
            match self {
                Ok(val) => r == Request::Progress(Progress::Message(val)),
                Err(err) => answers_error(r, err),
            },
    {
        match self {
            Ok(val) => Request::Progress(Progress::Message(val)),
            Err(err) => Request::from_error(err),
        }
    }
}

impl<E: std::fmt::Display> IntoSuccessOrFailure for Result<String, E> {
    /// A text becomes a success with that text as details; an error becomes
    /// a failure.
    fn into_success_or_failure(self) -> (r: Request)
        ensures
            match self {
                Ok(val) => r matches Request::Success(d) && d.0 is Some && d.0->0@ == val@,
                Err(err) => answers_error(r, err),
            },
    {
        match self {
            Ok(val) => Request::Success(OptionDetails::with(val.as_str())),
            Err(err) => Request::from_error(err),
        }
    }
}

impl<E: std::fmt::Display> IntoSuccessOrFailure for Result<(), E> {
    /// Success becomes a success without details; an error becomes a
    /// failure.
    fn into_success_or_failure(self) -> (r: Request)
        ensures
            match self {
                Ok(_) => r == Request::Success(OptionDetails(None)),
                Err(err) => answers_error(r, err),
            },
    {
        match self {
            Ok(_) => Request::Success(OptionDetails::new()),
            Err(err) => Request::from_error(err),
        }
    }
}

/// A failure code survives the trip through its wire number, and every
/// number reads as the catch-all code, whose number is `0xFFF`.
pub proof fn lemma_failure_code_round_trip(code: FailureCode, number: u16)
    ensures
        <FailureCode as vstd::std_specs::convert::FromSpec<u16>>::from_spec(
            <u16 as vstd::std_specs::convert::FromSpec<FailureCode>>::from_spec(code),
        ) == code,
        <u16 as vstd::std_specs::convert::FromSpec<FailureCode>>::from_spec(
            <FailureCode as vstd::std_specs::convert::FromSpec<u16>>::from_spec(number),
        ) == UNKNOWN_FAILURE_NUMBER,
{
}

/// Converting command line selectors keeps them apart: two selectors that
/// convert to the same selector were the same.
pub proof fn lemma_offer_selector_conversion_injective(a: OfferSelector, b: OfferSelector)
    ensures
        <OfferStatusSelector as vstd::std_specs::convert::FromSpec<OfferSelector>>::from_spec(a)
            == <OfferStatusSelector as vstd::std_specs::convert::FromSpec<
            OfferSelector,
        >>::from_spec(b) ==> a == b,
{
}

/// The name written for the open and the ended selectors reads back as the
/// same selector; the names written for the other two do not read at all.
pub proof fn lemma_selector_text_round_trip(selector: OfferStatusSelector)
    ensures
        selector_from_text(selector.display()) == (match selector {
            OfferStatusSelector::Open => Ok(OfferStatusSelector::Open),
            OfferStatusSelector::Ended => Ok(OfferStatusSelector::Ended),
            _ => Err(()),
        }),
{
    reveal_strlit("open");
    reveal_strlit("Open");
    reveal_strlit("in_progress");
    reveal_strlit("inprogress");
    reveal_strlit("ended");
    reveal_strlit("Ended");
    reveal_strlit("In Progress");
    reveal_strlit("All");
    let t = selector.display();
    match selector {
        OfferStatusSelector::Open => {},
        OfferStatusSelector::Ended => {
            assert(t != "open"@ && t != "Open"@) by {
                assert(t[0] != "open"@[0] && t[0] != "Open"@[0]);
            }
            assert(t != "in_progress"@ && t != "inprogress"@) by {
                assert(t[0] != "in_progress"@[0] && t[0] != "inprogress"@[0]);
            }
        },
        OfferStatusSelector::InProgress => {
            assert(t.len() != "open"@.len() && t.len() != "Open"@.len());
            assert(t[0] != "in_progress"@[0] && t.len() != "inprogress"@.len());
            assert(t.len() != "ended"@.len() && t.len() != "Ended"@.len());
        },
        OfferStatusSelector::All => {
            assert(t.len() != "open"@.len() && t.len() != "Open"@.len());
            assert(t.len() != "in_progress"@.len() && t.len() != "inprogress"@.len());
            assert(t.len() != "ended"@.len() && t.len() != "Ended"@.len());
        },
    }
}

/// Byte strings of one length with the same big-endian value are the same.
pub proof fn lemma_big_endian_value_injective(a: Seq<u8>, b: Seq<u8>)
    requires
        a.len() == b.len(),
        big_endian_value(a) == big_endian_value(b),
    ensures
        a == b,
    decreases a.len(),
{
    if a.len() > 0 {
        lemma_big_endian_value_injective(a.drop_last(), b.drop_last());
        assert(a.last() == b.last());
        assert(a =~= a.drop_last().push(a.last()));
        assert(b =~= b.drop_last().push(b.last()));
    } else {
        assert(a =~= b);
    }
}

/// Different random bytes give different request identifiers.
pub proof fn lemma_request_id_bytes_injective(a: [u8; 8], b: [u8; 8])
    requires
        a@ != b@,
    ensures
        big_endian_value(a@) != big_endian_value(b@),
{
    if big_endian_value(a@) == big_endian_value(b@) {
        lemma_big_endian_value_injective(a@, b@);
    }
}

/// A success reply is shown as the text of its details: the text they
/// hold, or nothing where there are none.
pub proof fn lemma_success_reply_shows_its_details(d: OptionDetails)
    ensures
        d.0 matches Some(t) ==> Request::Success(d).display() == Some(t@),
        d.0 is None ==> Request::Success(d).display() == Some(Seq::<char>::empty()),
{
}

/// Different outcomes of a swap are shown differently.
pub proof fn lemma_outcome_texts_differ(o: Outcome, p: Outcome)
    ensures
        o.display().len() >= 9,
        o != p ==> o.display() != p.display(),
{
    reveal_strlit("Success(Swapped)");
    reveal_strlit("Failure(Refunded)");
    reveal_strlit("Failure(Punished)");
    reveal_strlit("Failure(Aborted)");
    if o != p {
        if o.display()[0] == p.display()[0] {
            assert(o.display()[8] != p.display()[8]);
        }
    }
}

/// An ended offer is shown as `Ended(<outcome>)`, with the text of the
/// outcome of its swap, so offers that ended differently are shown
/// differently.
pub proof fn lemma_ended_status_shows_its_outcome(o: Outcome, p: Outcome)
    ensures
        OfferStatus::Ended(o).display() == "Ended("@ + o.display() + ")"@,
        o != p ==> OfferStatus::Ended(o).display() != OfferStatus::Ended(p).display(),
{
    reveal_strlit("Ended(");
    reveal_strlit(")");
    lemma_outcome_texts_differ(o, p);
    let a = OfferStatus::Ended(o).display();
    let b = OfferStatus::Ended(p).display();
    if o != p && a == b {
        assert(a.len() == 6 + o.display().len() + 1);
        assert(o.display().len() == p.display().len());
        assert(o.display() =~= a.subrange(6, 6 + o.display().len() as int));
        assert(p.display() =~= b.subrange(6, 6 + p.display().len() as int));
    }
}

/// Parameters are shown by the role they belong to: Alice's as
/// `alice(..)`, Bob's as `bob(..)`, so the two roles never share a text.
pub proof fn lemma_params_show_their_role(p: Parameters, q: Parameters)
    ensures
        Params::Alice(p).display() == "alice(..)"@,
        Params::Bob(q).display() == "bob(..)"@,
        Params::Alice(p).display() != Params::Bob(q).display(),
{
    reveal_strlit("alice(..)");
    reveal_strlit("bob(..)");
    assert("alice(..)"@.len() != "bob(..)"@.len());
}

/// Where offers stand is shown so that different standings never share a
/// text: open, in progress, and each outcome of an ended swap.
pub proof fn lemma_offer_status_texts_differ(s: OfferStatus, t: OfferStatus)
    ensures
        s != t ==> s.display() != t.display(),
{
    reveal_strlit("Open");
    reveal_strlit("In Progress");
    reveal_strlit("Ended(");
    reveal_strlit(")");
    match (s, t) {
        (OfferStatus::Ended(o), OfferStatus::Ended(p)) => {
            lemma_ended_status_shows_its_outcome(o, p);
        },
        (OfferStatus::Ended(o), _) => {
            lemma_outcome_texts_differ(o, o);
            assert(s.display().len() == 7 + o.display().len());
            assert(t.display().len() <= 11);
        },
        (_, OfferStatus::Ended(p)) => {
            lemma_outcome_texts_differ(p, p);
            assert(t.display().len() == 7 + p.display().len());
            assert(s.display().len() <= 11);
        },
        _ => {
            assert("Open"@.len() != "In Progress"@.len());
        },
    }
}

/// A reply that carries text is shown as that text: a plain text as
/// itself, a progress report as its message or transition, and a failure
/// as its information.
pub proof fn lemma_replies_show_their_text(text: String, p: Progress, f: Failure)
    ensures
        Request::String(text).display() == Some(text@),
        p matches Progress::Message(m) ==> Request::Progress(p).display() == Some(m@),
        p matches Progress::StateTransition(m) ==> Request::Progress(p).display() == Some(m@),
        Request::Failure(f).display() == Some(f.info@),
{
}

} // verus!
