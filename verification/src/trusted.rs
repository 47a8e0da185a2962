//! The items of outside crates that the library reaches: the types it
//! carries through and the calls it makes. Nothing here is proved; each
//! contract restates what the outside source shows of the item.
use vstd::prelude::*;

use bitcoin::secp256k1::rand::{thread_rng, RngCore};
use bitcoin::Address as BtcAddress;
use farcaster_core::swap::SwapId;
use monero::Address as XmrAddress;
use std::str::FromStr;

verus! {

/// farcaster_core's identifier of a swap.
#[verifier::external_type_specification]
#[verifier::external_body]
pub struct ExSwapId(farcaster_core::swap::SwapId);

/// farcaster_core's blockchains.
#[verifier::external_type_specification]
#[verifier::external_body]
pub struct ExBlockchain(farcaster_core::blockchain::Blockchain);

/// The error of hex text that does not parse.
#[verifier::external_type_specification]
#[verifier::external_body]
pub struct ExFromHexError(rustc_hex::FromHexError);

/// farcaster_core's role of a participant in a trade.
#[verifier::external_type_specification]
#[verifier::external_body]
pub struct ExTradeRole(farcaster_core::role::TradeRole);

/// farcaster_core's relative timelock of a bitcoin transaction.
#[verifier::external_type_specification]
#[verifier::external_body]
pub struct ExCSVTimelock(farcaster_core::bitcoin::timelock::CSVTimelock);

/// farcaster_core's bitcoin fee rate.
#[verifier::external_type_specification]
#[verifier::external_body]
pub struct ExSatPerVByte(farcaster_core::bitcoin::fee::SatPerVByte);

/// farcaster_core's cross-group discrete logarithm equality proof.
#[verifier::external_type_specification]
#[verifier::external_body]
pub struct ExDLEQProof(farcaster_core::crypto::dleq::DLEQProof);

/// A monero public key.
#[verifier::external_type_specification]
#[verifier::external_body]
pub struct ExMoneroPublicKey(monero::PublicKey);

/// farcaster_core's public offer.
#[verifier::external_type_specification]
#[verifier::external_body]
#[verifier::reject_recursive_types(Amt)]
#[verifier::reject_recursive_types(Bmt)]
#[verifier::reject_recursive_types(Ti)]
#[verifier::reject_recursive_types(F)]
pub struct ExPublicOffer<Amt, Bmt, Ti, F>(farcaster_core::negotiation::PublicOffer<Amt, Bmt, Ti, F>);

/// farcaster_core's parameters of a swap participant.
#[verifier::external_type_specification]
#[verifier::external_body]
#[verifier::reject_recursive_types(Pk)]
#[verifier::reject_recursive_types(Qk)]
#[verifier::reject_recursive_types(Rk)]
#[verifier::reject_recursive_types(Sk)]
#[verifier::reject_recursive_types(Addr)]
#[verifier::reject_recursive_types(Ti)]
#[verifier::reject_recursive_types(F)]
#[verifier::reject_recursive_types(Pr)]
pub struct ExParameters<Pk, Qk, Rk, Sk, Addr, Ti, F, Pr>(
    farcaster_core::protocol::Parameters<Pk, Qk, Rk, Sk, Addr, Ti, F, Pr>,
);

/// farcaster_core's message in which Alice reveals her parameters.
#[verifier::external_type_specification]
#[verifier::external_body]
#[verifier::reject_recursive_types(Pk)]
#[verifier::reject_recursive_types(Qk)]
#[verifier::reject_recursive_types(Rk)]
#[verifier::reject_recursive_types(Sk)]
#[verifier::reject_recursive_types(Addr)]
pub struct ExRevealAliceParameters<Pk, Qk, Rk, Sk, Addr>(
    farcaster_core::protocol::message::RevealAliceParameters<Pk, Qk, Rk, Sk, Addr>,
);

/// farcaster_core's message in which Bob reveals his parameters.
#[verifier::external_type_specification]
#[verifier::external_body]
#[verifier::reject_recursive_types(Pk)]
#[verifier::reject_recursive_types(Qk)]
#[verifier::reject_recursive_types(Rk)]
#[verifier::reject_recursive_types(Sk)]
#[verifier::reject_recursive_types(Addr)]
pub struct ExRevealBobParameters<Pk, Qk, Rk, Sk, Addr>(
    farcaster_core::protocol::message::RevealBobParameters<Pk, Qk, Rk, Sk, Addr>,
);

/// The address of a peer node: its key and where it listens.
#[verifier::external_type_specification]
#[verifier::external_body]
pub struct ExNodeAddr(internet2::addr::NodeAddr);

/// The error of a socket address that does not parse.
#[verifier::external_type_specification]
#[verifier::external_body]
pub struct ExAddrParseError(internet2::addr::AddrParseError);

/// An internet socket address.
#[verifier::external_type_specification]
#[verifier::external_body]
pub struct ExInetSocketAddr(internet2::addr::InetSocketAddr);

/// A UUID.
#[verifier::external_type_specification]
#[verifier::external_body]
pub struct ExUuid(uuid::Uuid);

/// A bitcoin address.
#[verifier::external_type_specification]
#[verifier::external_body]
pub struct ExBitcoinAddress(BtcAddress);

/// An amount of bitcoin.
#[verifier::external_type_specification]
#[verifier::external_body]
pub struct ExBitcoinAmount(bitcoin::Amount);

/// The error of a bitcoin amount that does not parse.
#[verifier::external_type_specification]
#[verifier::external_body]
pub struct ExParseAmountError(bitcoin::util::amount::ParseAmountError);

/// The error of a bitcoin address that does not parse.
#[verifier::external_type_specification]
#[verifier::external_body]
pub struct ExBitcoinAddressError(bitcoin::util::address::Error);

/// A bitcoin transaction.
#[verifier::external_type_specification]
#[verifier::external_body]
pub struct ExTransaction(bitcoin::Transaction);

/// A reference to a bitcoin transaction output.
#[verifier::external_type_specification]
#[verifier::external_body]
pub struct ExOutPoint(bitcoin::OutPoint);

/// A secp256k1 public key.
#[verifier::external_type_specification]
#[verifier::external_body]
pub struct ExPublicKey(bitcoin::secp256k1::PublicKey);

/// A secp256k1 secret key.
#[verifier::external_type_specification]
#[verifier::external_body]
pub struct ExSecretKey(bitcoin::secp256k1::SecretKey);

/// A monero address.
#[verifier::external_type_specification]
#[verifier::external_body]
pub struct ExMoneroAddress(XmrAddress);

/// An amount of monero.
#[verifier::external_type_specification]
#[verifier::external_body]
pub struct ExMoneroAmount(monero::Amount);

/// A monero private key.
#[verifier::external_type_specification]
#[verifier::external_body]
pub struct ExMoneroPrivateKey(monero::PrivateKey);

/// The error of a monero amount that does not parse.
#[verifier::external_type_specification]
#[verifier::external_body]
pub struct ExMoneroAmountError(monero::util::amount::ParsingError);

/// The error of a monero address that does not parse.
#[verifier::external_type_specification]
#[verifier::external_body]
pub struct ExMoneroAddressError(monero::util::address::Error);

/// The error of monero base58 text that does not decode.
#[verifier::external_type_specification]
#[verifier::external_body]
pub struct ExBase58Error(base58_monero::Error);

/// The error of bytes that are not a monero key.
#[verifier::external_type_specification]
#[verifier::external_body]
pub struct ExMoneroKeyError(monero::util::key::Error);

/// The derived `Clone` of a swap identifier: it copies every field, so the copy
/// equals the value it was made from.
pub assume_specification[ <farcaster_core::swap::SwapId as Clone>::clone ](value: &farcaster_core::swap::SwapId) -> (copy: farcaster_core::swap::SwapId)
    ensures
        copy == *value,
;

/// The derived `Clone` of a blockchain: it copies every field, so the copy
/// equals the value it was made from.
pub assume_specification[ <farcaster_core::blockchain::Blockchain as Clone>::clone ](value: &farcaster_core::blockchain::Blockchain) -> (copy: farcaster_core::blockchain::Blockchain)
    ensures
        copy == *value,
;

/// The derived `Clone` of a UUID: it copies every field, so the copy
/// equals the value it was made from.
pub assume_specification[ <uuid::Uuid as Clone>::clone ](value: &uuid::Uuid) -> (copy: uuid::Uuid)
    ensures
        copy == *value,
;

/// The derived `Clone` of a bitcoin address: it copies every field, so the copy
/// equals the value it was made from.
pub assume_specification[ <BtcAddress as Clone>::clone ](value: &BtcAddress) -> (copy: BtcAddress)
    ensures
        copy == *value,
;

/// The derived `Clone` of a bitcoin amount: it copies every field, so the copy
/// equals the value it was made from.
pub assume_specification[ <bitcoin::Amount as Clone>::clone ](value: &bitcoin::Amount) -> (copy: bitcoin::Amount)
    ensures
        copy == *value,
;

/// The derived `Clone` of a bitcoin transaction: it copies every field, so the copy
/// equals the value it was made from.
pub assume_specification[ <bitcoin::Transaction as Clone>::clone ](value: &bitcoin::Transaction) -> (copy: bitcoin::Transaction)
    ensures
        copy == *value,
;

/// The derived `Clone` of a transaction output reference: it copies every field, so the copy
/// equals the value it was made from.
pub assume_specification[ <bitcoin::OutPoint as Clone>::clone ](value: &bitcoin::OutPoint) -> (copy: bitcoin::OutPoint)
    ensures
        copy == *value,
;

/// The derived `Clone` of a secp256k1 public key: it copies every field, so the copy
/// equals the value it was made from.
pub assume_specification[ <bitcoin::secp256k1::PublicKey as Clone>::clone ](value: &bitcoin::secp256k1::PublicKey) -> (copy: bitcoin::secp256k1::PublicKey)
    ensures
        copy == *value,
;

/// The derived `Clone` of a secp256k1 secret key: it copies every field, so the copy
/// equals the value it was made from.
pub assume_specification[ <bitcoin::secp256k1::SecretKey as Clone>::clone ](value: &bitcoin::secp256k1::SecretKey) -> (copy: bitcoin::secp256k1::SecretKey)
    ensures
        copy == *value,
;

/// The derived `Clone` of a monero address: it copies every field, so the copy
/// equals the value it was made from.
pub assume_specification[ <XmrAddress as Clone>::clone ](value: &XmrAddress) -> (copy: XmrAddress)
    ensures
        copy == *value,
;

/// The derived `Clone` of a monero amount: it copies every field, so the copy
/// equals the value it was made from.
pub assume_specification[ <monero::Amount as Clone>::clone ](value: &monero::Amount) -> (copy: monero::Amount)
    ensures
        copy == *value,
;

/// The derived `Clone` of a monero private key: it copies every field, so the copy
/// equals the value it was made from.
pub assume_specification[ <monero::PrivateKey as Clone>::clone ](value: &monero::PrivateKey) -> (copy: monero::PrivateKey)
    ensures
        copy == *value,
;

/// The derived `Clone` of a trade role: it copies every field, so the copy
/// equals the value it was made from.
pub assume_specification[ <farcaster_core::role::TradeRole as Clone>::clone ](
    value: &farcaster_core::role::TradeRole,
) -> (copy: farcaster_core::role::TradeRole)
    ensures
        copy == *value,
;

/// The derived `Clone` of a node address: it copies every field, so the copy
/// equals the value it was made from.
pub assume_specification[ <internet2::addr::NodeAddr as Clone>::clone ](
    value: &internet2::addr::NodeAddr,
) -> (copy: internet2::addr::NodeAddr)
    ensures
        copy == *value,
;

/// The derived `Clone` of a socket address: it copies every field, so the
/// copy equals the value it was made from.
pub assume_specification[ <internet2::addr::InetSocketAddr as Clone>::clone ](
    value: &internet2::addr::InetSocketAddr,
) -> (copy: internet2::addr::InetSocketAddr)
    ensures
        copy == *value,
;

/// The derived `Clone` of a public offer. It clones each field with the
/// field's own `Clone`, so nothing is claimed of the copy.
pub assume_specification<Amt: Clone, Bmt: Clone, Ti: Clone, F: Clone>[
    <farcaster_core::negotiation::PublicOffer<Amt, Bmt, Ti, F> as Clone>::clone
](value: &farcaster_core::negotiation::PublicOffer<Amt, Bmt, Ti, F>) -> (copy:
    farcaster_core::negotiation::PublicOffer<Amt, Bmt, Ti, F>);

/// The derived `Clone` of swap parameters. It clones each field with the
/// field's own `Clone`, so nothing is claimed of the copy.
pub assume_specification<
    Pk: Clone,
    Qk: Clone,
    Rk: Clone,
    Sk: Clone,
    Addr: Clone,
    Ti: Clone,
    F: Clone,
    Pr: Clone,
>[ <farcaster_core::protocol::Parameters<Pk, Qk, Rk, Sk, Addr, Ti, F, Pr> as Clone>::clone ](
    value: &farcaster_core::protocol::Parameters<Pk, Qk, Rk, Sk, Addr, Ti, F, Pr>,
) -> (copy: farcaster_core::protocol::Parameters<Pk, Qk, Rk, Sk, Addr, Ti, F, Pr>);

/// The derived `Clone` of Alice's reveal message. It clones each field with
/// the field's own `Clone`, so nothing is claimed of the copy.
pub assume_specification<Pk: Clone, Qk: Clone, Rk: Clone, Sk: Clone, Addr: Clone>[
    <farcaster_core::protocol::message::RevealAliceParameters<Pk, Qk, Rk, Sk, Addr> as Clone>::clone
](value: &farcaster_core::protocol::message::RevealAliceParameters<Pk, Qk, Rk, Sk, Addr>) -> (copy:
    farcaster_core::protocol::message::RevealAliceParameters<Pk, Qk, Rk, Sk, Addr>);

/// The derived `Clone` of Bob's reveal message. It clones each field with
/// the field's own `Clone`, so nothing is claimed of the copy.
pub assume_specification<Pk: Clone, Qk: Clone, Rk: Clone, Sk: Clone, Addr: Clone>[
    <farcaster_core::protocol::message::RevealBobParameters<Pk, Qk, Rk, Sk, Addr> as Clone>::clone
](value: &farcaster_core::protocol::message::RevealBobParameters<Pk, Qk, Rk, Sk, Addr>) -> (copy:
    farcaster_core::protocol::message::RevealBobParameters<Pk, Qk, Rk, Sk, Addr>);

/// `==` on `str` of std: two string slices are equal when they hold the same
/// characters in the same order.
pub assume_specification[ <str as PartialEq>::eq ](a: &str, b: &str) -> (r: bool)
    ensures
        r == (a@ == b@),
;

/// What `SwapId::from_str` returns for a text.
pub uninterp spec fn swap_id_from_text(text: Seq<char>) -> Result<SwapId, rustc_hex::FromHexError>;

/// What `bitcoin::Amount::from_str` returns for a text.
pub uninterp spec fn bitcoin_amount_from_text(text: Seq<char>) -> Result<
    bitcoin::Amount,
    bitcoin::util::amount::ParseAmountError,
>;

/// What `bitcoin::Address::from_str` returns for a text.
pub uninterp spec fn bitcoin_address_from_text(text: Seq<char>) -> Result<
    BtcAddress,
    bitcoin::util::address::Error,
>;

/// What `monero::Amount::from_str_with_denomination` returns for a text.
pub uninterp spec fn monero_amount_from_text(text: Seq<char>) -> Result<
    monero::Amount,
    monero::util::amount::ParsingError,
>;

/// What `monero::Address::from_str` returns for a text.
pub uninterp spec fn monero_address_from_text(text: Seq<char>) -> Result<
    XmrAddress,
    monero::util::address::Error,
>;

/// `SwapId::from_str` of farcaster_core (a fixed-hash type): reads the 32
/// bytes of a swap identifier from 64 hex digits, with or without a `0x`
/// prefix. Claimed: the result is a function of the text alone.
#[verifier::external_body]
pub(crate) fn parse_swap_id(text: &str) -> (r: Result<SwapId, rustc_hex::FromHexError>)
    ensures
        r == swap_id_from_text(text@),
{
    SwapId::from_str(text)
}

/// `bitcoin::Amount::from_str`: reads an amount written with its
/// denomination, such as `0.1 BTC`. Claimed: the result is a function of the
/// text alone.
#[verifier::external_body]
pub(crate) fn parse_bitcoin_amount(text: &str) -> (r: Result<
    bitcoin::Amount,
    bitcoin::util::amount::ParseAmountError,
>)
    ensures
        r == bitcoin_amount_from_text(text@),
{
    bitcoin::Amount::from_str(text)
}

/// `bitcoin::Address::from_str`: reads a base58 or bech32 address.
/// Claimed: the result is a function of the text alone.
#[verifier::external_body]
pub(crate) fn parse_bitcoin_address(text: &str) -> (r: Result<
    BtcAddress,
    bitcoin::util::address::Error,
>)
    ensures
        r == bitcoin_address_from_text(text@),
{
    BtcAddress::from_str(text)
}

/// `monero::Amount::from_str_with_denomination`: reads an amount written
/// with its denomination, such as `1 XMR`. Claimed: the result is a function
/// of the text alone.
#[verifier::external_body]
pub(crate) fn parse_monero_amount(text: &str) -> (r: Result<
    monero::Amount,
    monero::util::amount::ParsingError,
>)
    ensures
        r == monero_amount_from_text(text@),
{
    monero::Amount::from_str_with_denomination(text)
}

/// What `base58_monero::decode` returns for a text: the bytes that monero's
/// base58 blocks stand for.
pub uninterp spec fn monero_base58_decoded(text: Seq<char>) -> Result<Seq<u8>, base58_monero::Error>;

/// The decoded bytes of a result of `base58_monero::decode`, taken by
/// their view.
pub open spec fn decoded_bytes(r: Result<Vec<u8>, base58_monero::Error>) -> Result<Seq<u8>, base58_monero::Error> {
    match r {
        Ok(bytes) => Ok(bytes@),
        Err(e) => Err(e),
    }
}

/// `base58_monero::decode`: the bytes of monero base58 text, block by block.
/// Claimed: the result is a function of the text alone.
#[verifier::external_body]
pub(crate) fn decode_monero_base58(text: &str) -> (r: Result<Vec<u8>, base58_monero::Error>)
    ensures
        decoded_bytes(r) == monero_base58_decoded(text@),
{
    base58_monero::decode(text)
}

/// What `monero::PublicKey::from_slice` returns for some bytes: the key
/// they encode when they are 32 bytes of a compressed point on the curve,
/// else the reason they are not.
pub uninterp spec fn monero_public_key_from_bytes(bytes: Seq<u8>) -> Result<
    monero::PublicKey,
    monero::util::key::Error,
>;

/// `monero::PublicKey::from_slice`: reads a public key from its 32 bytes;
/// bytes of another length are refused, not indexed. Claimed: the result is
/// a function of the bytes alone.
#[verifier::external_body]
pub(crate) fn parse_monero_public_key(bytes: &[u8]) -> (r: Result<
    monero::PublicKey,
    monero::util::key::Error,
>)
    ensures
        r == monero_public_key_from_bytes(bytes@),
{
    monero::PublicKey::from_slice(bytes)
}

/// Whether `bytes` are read by `monero::PublicKey::from_slice` as a key.
pub open spec fn monero_key_reads(bytes: Seq<u8>) -> bool {
    monero_public_key_from_bytes(bytes) is Ok
}

/// Whether the magic byte names a standard address or a sub-address on one
/// of the three networks.
pub open spec fn standard_address_magic(magic: u8) -> bool {
    magic == 18 || magic == 42 || magic == 53 || magic == 63 || magic == 24 || magic == 36
}

/// Whether the magic byte names an integrated address on one of the three
/// networks.
pub open spec fn integrated_address_magic(magic: u8) -> bool {
    magic == 19 || magic == 54 || magic == 25
}

/// Whether `monero::Address::from_bytes` returns on `bytes` rather than
/// indexing past their end. It reads the magic byte; a byte that names no
/// network is refused at once. An integrated address first has its payment
/// identifier read from bytes 65 to 73. Then the spend key is read from bytes
/// 1 to 33 and the view key from bytes 33 to 65, and a key that is not a
/// point ends the reading with an error. Last comes the checksum: bytes 65
/// to 69 of a standard address or sub-address, 73 to 77 of an integrated one.
pub open spec fn monero_address_bytes_readable(bytes: Seq<u8>) -> bool {
    &&& bytes.len() > 0
    &&& standard_address_magic(bytes[0]) ==> {
        &&& bytes.len() >= 33
        &&& monero_key_reads(bytes.subrange(1, 33)) ==> {
            &&& bytes.len() >= 65
            &&& monero_key_reads(bytes.subrange(33, 65)) ==> bytes.len() >= 69
        }
    }
    &&& integrated_address_magic(bytes[0]) ==> {
        &&& bytes.len() >= 73
        &&& (monero_key_reads(bytes.subrange(1, 33)) && monero_key_reads(bytes.subrange(33, 65)))
            ==> bytes.len() >= 77
    }
}

/// Whether `monero::Address::from_str` returns on a text: either the text is
/// not base58, or its bytes can be read as an address.
pub open spec fn monero_address_text_readable(text: Seq<char>) -> bool {
    match monero_base58_decoded(text) {
        Ok(bytes) => monero_address_bytes_readable(bytes),
        Err(_) => true,
    }
}

/// `monero::Address::from_str`: reads a base58 monero address, as
/// `from_bytes` of the decoded bytes. Claimed: the result is a function of
/// the text alone. `from_bytes` indexes the bytes without checking their
/// length, so the texts on which it would read past their end are left out.
#[verifier::external_body]
pub(crate) fn parse_monero_address(text: &str) -> (r: Result<
    XmrAddress,
    monero::util::address::Error,
>)
    requires
        monero_address_text_readable(text@),
    ensures
        r == monero_address_from_text(text@),
{
    XmrAddress::from_str(text)
}

/// Eight bytes drawn from the thread-local random generator that
/// `bitcoin::secp256k1::rand::thread_rng` hands out. Nothing is claimed of
/// them.
#[verifier::external_body]
pub(crate) fn random_bytes() -> [u8; 8] {
    let mut bytes = [0u8; 8];
    thread_rng().fill_bytes(&mut bytes);
    bytes
}

} // verus!

verus! {

/// What `Display` writes for a bitcoin address: its base58 or bech32 text.
pub uninterp spec fn bitcoin_address_display(address: BtcAddress) -> Seq<char>;

/// What `Display` writes for a bitcoin amount: the value in BTC followed by
/// ` BTC`.
pub uninterp spec fn bitcoin_amount_display(amount: bitcoin::Amount) -> Seq<char>;

/// What `Display` writes for a monero address: its base58 text.
pub uninterp spec fn monero_address_display(address: XmrAddress) -> Seq<char>;

/// What `Display` writes for a monero amount: the value in XMR followed by
/// ` xmr`.
pub uninterp spec fn monero_amount_display(amount: monero::Amount) -> Seq<char>;

/// What the alternate (`{:#?}`) `Debug` writes for a swap identifier: `0x`
/// and the lowercase hex of its bytes.
pub uninterp spec fn swap_id_pretty_debug(id: SwapId) -> Seq<char>;

/// What `Display` writes for a secp256k1 public key: the hex of its
/// compressed form.
pub uninterp spec fn public_key_display(key: bitcoin::secp256k1::PublicKey) -> Seq<char>;

/// What `SecretKey::display_secret` writes for a secp256k1 secret key: the
/// hex of its bytes.
pub uninterp spec fn secret_key_display(key: bitcoin::secp256k1::SecretKey) -> Seq<char>;

/// `to_string` of a bitcoin address through its `Display`.
#[verifier::external_body]
pub(crate) fn bitcoin_address_text(address: &BtcAddress) -> (r: String)
    ensures
        r@ == bitcoin_address_display(*address),
{
    address.to_string()
}

/// `to_string` of a bitcoin amount through its `Display`.
#[verifier::external_body]
pub(crate) fn bitcoin_amount_text(amount: &bitcoin::Amount) -> (r: String)
    ensures
        r@ == bitcoin_amount_display(*amount),
{
    amount.to_string()
}

/// `to_string` of a monero address through its `Display`.
#[verifier::external_body]
pub(crate) fn monero_address_text(address: &XmrAddress) -> (r: String)
    ensures
        r@ == monero_address_display(*address),
{
    address.to_string()
}

/// `to_string` of a monero amount through its `Display`.
#[verifier::external_body]
pub(crate) fn monero_amount_text(amount: &monero::Amount) -> (r: String)
    ensures
        r@ == monero_amount_display(*amount),
{
    amount.to_string()
}

/// The alternate `Debug` text of a swap identifier (`format!("{:#?}", id)`).
#[verifier::external_body]
pub(crate) fn swap_id_debug_text(id: &SwapId) -> (r: String)
    ensures
        r@ == swap_id_pretty_debug(*id),
{
    format!("{:#?}", id)
}

/// `to_string` of a secp256k1 public key through its `Display`.
#[verifier::external_body]
pub(crate) fn public_key_text(key: &bitcoin::secp256k1::PublicKey) -> (r: String)
    ensures
        r@ == public_key_display(*key),
{
    key.to_string()
}

/// `SecretKey::display_secret` of secp256k1, written out.
#[verifier::external_body]
pub(crate) fn secret_key_text(key: &bitcoin::secp256k1::SecretKey) -> (r: String)
    ensures
        r@ == secret_key_display(*key),
{
    key.display_secret().to_string()
}

/// What `Display` writes for the address of a peer node: `<key>@<address>`.
pub uninterp spec fn node_addr_display(addr: internet2::addr::NodeAddr) -> Seq<char>;

/// `to_string` of a node address through its `Display`.
#[verifier::external_body]
pub(crate) fn node_addr_text(addr: &internet2::addr::NodeAddr) -> (r: String)
    ensures
        r@ == node_addr_display(*addr),
{
    addr.to_string()
}

/// What `Display` writes for an internet socket address: the address of the
/// socket it holds, such as `127.0.0.1:9735`.
pub uninterp spec fn inet_socket_addr_display(addr: internet2::addr::InetSocketAddr) -> Seq<char>;

/// `to_string` of an internet socket address through its `Display`.
#[verifier::external_body]
pub(crate) fn inet_socket_addr_text(addr: &internet2::addr::InetSocketAddr) -> (r: String)
    ensures
        r@ == inet_socket_addr_display(*addr),
{
    addr.to_string()
}

/// What `Display` writes for a public offer: `Offer:` followed by the
/// base58-check text of its consensus encoding.
pub uninterp spec fn public_offer_display(offer: farcaster_core::swap::btcxmr::PublicOffer) -> Seq<char>;

/// `to_string` of a public offer through its `Display`.
#[verifier::external_body]
pub(crate) fn public_offer_text(offer: &farcaster_core::swap::btcxmr::PublicOffer) -> (r: String)
    ensures
        r@ == public_offer_display(*offer),
{
    offer.to_string()
}

/// What `Display` writes for a bitcoin outpoint: `<txid>:<vout>`.
pub uninterp spec fn outpoint_display(outpoint: bitcoin::OutPoint) -> Seq<char>;

/// `to_string` of a bitcoin outpoint through its `Display`.
#[verifier::external_body]
pub(crate) fn outpoint_text(outpoint: &bitcoin::OutPoint) -> (r: String)
    ensures
        r@ == outpoint_display(*outpoint),
{
    outpoint.to_string()
}

/// What `Display` writes for a swap identifier: `0x`, the hex of its first
/// two bytes, `…` and the hex of its last two.
pub uninterp spec fn swap_id_display(id: SwapId) -> Seq<char>;

/// `to_string` of a swap identifier through its `Display`.
#[verifier::external_body]
pub(crate) fn swap_id_text(id: &SwapId) -> (r: String)
    ensures
        r@ == swap_id_display(*id),
{
    id.to_string()
}

/// What `Display` writes for a blockchain: the name of the chain, as its
/// `Debug` writes it.
pub uninterp spec fn blockchain_display(chain: farcaster_core::blockchain::Blockchain) -> Seq<char>;

/// `to_string` of a blockchain through its `Display`.
#[verifier::external_body]
pub(crate) fn blockchain_text(chain: &farcaster_core::blockchain::Blockchain) -> (r: String)
    ensures
        r@ == blockchain_display(*chain),
{
    chain.to_string()
}

/// Alice's reveal message for the bitcoin-monero swap.
pub type AliceReveal = farcaster_core::protocol::message::RevealAliceParameters<
    bitcoin::secp256k1::PublicKey,
    monero::PublicKey,
    bitcoin::secp256k1::SecretKey,
    monero::PrivateKey,
    BtcAddress,
>;

/// Bob's reveal message for the bitcoin-monero swap.
pub type BobReveal = farcaster_core::protocol::message::RevealBobParameters<
    bitcoin::secp256k1::PublicKey,
    monero::PublicKey,
    bitcoin::secp256k1::SecretKey,
    monero::PrivateKey,
    BtcAddress,
>;

/// Whether a set of swap parameters holds a punish key.
pub uninterp spec fn has_punish_key(params: farcaster_core::swap::btcxmr::Parameters) -> bool;

/// What `Parameters::reveal_alice` gives for parameters and a swap.
pub uninterp spec fn alice_reveal(
    params: farcaster_core::swap::btcxmr::Parameters,
    swap_id: SwapId,
) -> AliceReveal;

/// What `Parameters::reveal_bob` gives for parameters and a swap.
pub uninterp spec fn bob_reveal(
    params: farcaster_core::swap::btcxmr::Parameters,
    swap_id: SwapId,
) -> BobReveal;

/// Whether the `punish` field of farcaster_core's parameters is set.
#[verifier::external_body]
pub(crate) fn punish_key_present(params: &farcaster_core::swap::btcxmr::Parameters) -> (r: bool)
    ensures
        r == has_punish_key(*params),
{
    params.punish.is_some()
}

/// `Parameters::reveal_alice` of farcaster_core: Alice's reveal message,
/// made of the keys and address of her parameters and the swap identifier.
/// It takes the punish key with `expect`, so parameters without one are left
/// out. Claimed: the result is a function of the arguments alone.
#[verifier::external_body]
pub(crate) fn reveal_alice_parameters(
    params: farcaster_core::swap::btcxmr::Parameters,
    swap_id: SwapId,
) -> (r: AliceReveal)
    requires
        has_punish_key(params),
    ensures
        r == alice_reveal(params, swap_id),
{
    params.reveal_alice(swap_id)
}

/// `Parameters::reveal_bob` of farcaster_core: Bob's reveal message, made
/// of the keys and address of his parameters and the swap identifier.
/// Claimed: the result is a function of the arguments alone.
#[verifier::external_body]
pub(crate) fn reveal_bob_parameters(
    params: farcaster_core::swap::btcxmr::Parameters,
    swap_id: SwapId,
) -> (r: BobReveal)
    ensures
        r == bob_reveal(params, swap_id),
{
    params.reveal_bob(swap_id)
}

} // verus!
