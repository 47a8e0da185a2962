//! What a swap needs to be funded with, as the node reports it and reads
//! it back from a line of text such as
//! `<swap id> needs 0.01 BTC to <address>`.
use vstd::prelude::*;

use farcaster_core::swap::SwapId;

use crate::text::{
    joined, lemma_split_fields_concat, lemma_split_fields_word, split_fields, split_on,
};
use crate::text::lemma_split_fields_nonempty;
use crate::trusted::{
    decode_monero_base58, monero_address_bytes_readable, monero_address_text_readable,
    bitcoin_address_display, bitcoin_address_from_text, bitcoin_address_text,
    bitcoin_amount_display, bitcoin_amount_from_text, bitcoin_amount_text, monero_address_display,
    monero_address_from_text, monero_address_text, monero_amount_display, monero_amount_from_text,
    monero_amount_text, parse_bitcoin_address, parse_bitcoin_amount, parse_monero_address,
    parse_monero_public_key,
    parse_monero_amount, parse_swap_id, swap_id_debug_text, swap_id_from_text,
    swap_id_pretty_debug,
};

verus! {

/// Funding that a swap waits for, on either chain.
#[derive(Clone, Debug)]
pub enum FundingInfo {
    Bitcoin(BitcoinFundingInfo),
    Monero(MoneroFundingInfo),
}

/// The bitcoin that a swap needs, and where to send it.
#[derive(Clone, Debug)]
pub struct BitcoinFundingInfo {
    pub swap_id: SwapId,
    pub address: bitcoin::Address,
    pub amount: bitcoin::Amount,
}

/// The monero that a swap needs, and where to send it.
#[derive(Clone, Debug)]
pub struct MoneroFundingInfo {
    pub swap_id: SwapId,
    pub amount: monero::Amount,
    pub address: monero::Address,
}

/// Why a line of funding information did not parse: the field that was
/// refused, with the error of the parser that refused it.
#[derive(Debug)]
pub enum FundingInfoError {
    SwapId(rustc_hex::FromHexError),
    BitcoinAmount(bitcoin::util::amount::ParseAmountError),
    BitcoinAddress(bitcoin::util::address::Error),
    MoneroAmount(monero::util::amount::ParsingError),
    MoneroAddress(monero::util::address::Error),
}

/// The words of a funding line: the text between single spaces.
pub open spec fn funding_words(s: Seq<char>) -> Seq<Seq<char>> {
    split_fields(s, ' ')
}

/// The amount of a funding line: its third and fourth words, joined again by
/// a space (`0.01` and `BTC`).
pub open spec fn funding_amount_text(s: Seq<char>) -> Seq<char> {
    funding_words(s)[2] + seq![' '] + funding_words(s)[3]
}

/// Whether a bitcoin funding line is read without indexing past its words:
/// once its identifier reads, the line needs the four words that hold the
/// amount, and once the amount reads too, the six that hold the address.
pub open spec fn bitcoin_funding_readable(s: Seq<char>) -> bool {
    swap_id_from_text(funding_words(s)[0]) is Ok ==> {
        &&& funding_words(s).len() >= 4
        &&& bitcoin_amount_from_text(funding_amount_text(s)) is Ok ==> funding_words(s).len() >= 6
    }
}

/// Whether a monero funding line is read without indexing past its words or
/// past the bytes of its address: as for bitcoin, and once the amount reads,
/// the address must be text that `monero::Address::from_str` returns on.
pub open spec fn monero_funding_readable(s: Seq<char>) -> bool {
    swap_id_from_text(funding_words(s)[0]) is Ok ==> {
        &&& funding_words(s).len() >= 4
        &&& monero_amount_from_text(funding_amount_text(s)) is Ok ==> {
            &&& funding_words(s).len() >= 6
            &&& monero_address_text_readable(funding_words(s)[5])
        }
    }
}

/// What a bitcoin funding line reads as: the swap identifier from the first
/// word, the amount from the third and fourth, the address from the sixth,
/// each refused field reported in that order.
pub open spec fn bitcoin_funding_from_text(s: Seq<char>) -> Result<BitcoinFundingInfo, FundingInfoError> {
    match swap_id_from_text(funding_words(s)[0]) {
        Err(e) => Err(FundingInfoError::SwapId(e)),
        Ok(swap_id) => match bitcoin_amount_from_text(funding_amount_text(s)) {
            Err(e) => Err(FundingInfoError::BitcoinAmount(e)),
            Ok(amount) => match bitcoin_address_from_text(funding_words(s)[5]) {
                Err(e) => Err(FundingInfoError::BitcoinAddress(e)),
                Ok(address) => Ok(BitcoinFundingInfo { swap_id, address, amount }),
            },
        },
    }
}

/// What a monero funding line reads as, in the same layout.
pub open spec fn monero_funding_from_text(s: Seq<char>) -> Result<MoneroFundingInfo, FundingInfoError> {
    match swap_id_from_text(funding_words(s)[0]) {
        Err(e) => Err(FundingInfoError::SwapId(e)),
        Ok(swap_id) => match monero_amount_from_text(funding_amount_text(s)) {
            Err(e) => Err(FundingInfoError::MoneroAmount(e)),
            Ok(amount) => match monero_address_from_text(funding_words(s)[5]) {
                Err(e) => Err(FundingInfoError::MoneroAddress(e)),
                Ok(address) => Ok(MoneroFundingInfo { swap_id, amount, address }),
            },
        },
    }
}

/// The text of an amount: the third and fourth of `words`, joined by a space.
fn amount_text(words: &Vec<&str>) -> (r: String)
    requires
        words@.len() >= 4,
    ensures
        r@ == words@[2]@ + seq![' '] + words@[3]@,
{
    let mut text = joined(words[2], " ");
    proof {
        reveal_strlit(" ");
    }
    text.append(words[3]);
    text
}

/// The words of a line of text, split at each single space.
pub fn funding_line_words<'a>(s: &'a str) -> (words: Vec<&'a str>)
    ensures
        words@.len() == funding_words(s@).len(),
        forall|k: int| 0 <= k < words@.len() ==> #[trigger] words@[k]@ == funding_words(s@)[k],
{
    split_on(s, ' ')
}

impl BitcoinFundingInfo {
    /// Reads the funding information of a swap from a line such as
    /// `<swap id> needs 0.01 BTC to <address>`. A line whose identifier
    /// does not read is refused whatever its length.
    pub fn from_str(s: &str) -> (r: Result<BitcoinFundingInfo, FundingInfoError>)
        requires
            bitcoin_funding_readable(s@),
        ensures
            r == bitcoin_funding_from_text(s@),
    {
        let content = funding_line_words(s);
        proof {
            lemma_split_fields_nonempty(s@, ' ');
        }
        let swap_id = match parse_swap_id(content[0]) {
            Ok(id) => id,
            Err(e) => return Err(FundingInfoError::SwapId(e)),
        };
        let amount = match parse_bitcoin_amount(amount_text(&content).as_str()) {
            Ok(a) => a,
            Err(e) => return Err(FundingInfoError::BitcoinAmount(e)),
        };
        let address = match parse_bitcoin_address(content[5]) {
            Ok(a) => a,
            Err(e) => return Err(FundingInfoError::BitcoinAddress(e)),
        };
        Ok(BitcoinFundingInfo { swap_id, address, amount })
    }

    /// Reads a funding line as `from_str` does, or gives `None` for a line
    /// that is cut short before the field it would read next.
    pub fn from_line(s: &str) -> (r: Option<Result<BitcoinFundingInfo, FundingInfoError>>)
        ensures
            r is None <==> !bitcoin_funding_readable(s@),
            r matches Some(read) ==> read == bitcoin_funding_from_text(s@),
    {
        let content = funding_line_words(s);
        proof {
            lemma_split_fields_nonempty(s@, ' ');
        }
        let readable = if parse_swap_id(content[0]).is_err() {
            true
        } else if content.len() < 4 {
            false
        } else if parse_bitcoin_amount(amount_text(&content).as_str()).is_err() {
            true
        } else {
            content.len() >= 6
        };
        if readable {
            Some(BitcoinFundingInfo::from_str(s))
        } else {
            None
        }
    }
}

impl MoneroFundingInfo {
    /// Reads the funding information of a swap from a line such as
    /// `<swap id> needs 1 XMR to <address>`. A line whose identifier does
    /// not read is refused whatever its length.
    pub fn from_str(s: &str) -> (r: Result<MoneroFundingInfo, FundingInfoError>)
        requires
            monero_funding_readable(s@),
        ensures
            r == monero_funding_from_text(s@),
    {
        let content = funding_line_words(s);
        proof {
            lemma_split_fields_nonempty(s@, ' ');
        }
        let swap_id = match parse_swap_id(content[0]) {
            Ok(id) => id,
            Err(e) => return Err(FundingInfoError::SwapId(e)),
        };
        let amount = match parse_monero_amount(amount_text(&content).as_str()) {
            Ok(a) => a,
            Err(e) => return Err(FundingInfoError::MoneroAmount(e)),
        };
        let address = match parse_monero_address(content[5]) {
            Ok(a) => a,
            Err(e) => return Err(FundingInfoError::MoneroAddress(e)),
        };
        Ok(MoneroFundingInfo { swap_id, amount, address })
    }

    /// Reads a funding line as `from_str` does, or gives `None` for a line
    /// that is cut short before the field it would read next, or whose
    /// address decodes to bytes that end before the part the address parser
    /// would read next.
    pub fn from_line(s: &str) -> (r: Option<Result<MoneroFundingInfo, FundingInfoError>>)
        ensures
            r is None <==> !monero_funding_readable(s@),
            r matches Some(read) ==> read == monero_funding_from_text(s@),
    {
        let content = funding_line_words(s);
        proof {
            lemma_split_fields_nonempty(s@, ' ');
        }
        let readable = if parse_swap_id(content[0]).is_err() {
            true
        } else if content.len() < 4 {
            false
        } else if parse_monero_amount(amount_text(&content).as_str()).is_err() {
            true
        } else if content.len() < 6 {
            false
        } else {
            match decode_monero_base58(content[5]) {
                Ok(bytes) => address_bytes_readable(&bytes),
                Err(_) => true,
            }
        };
        if readable {
            Some(MoneroFundingInfo::from_str(s))
        } else {
            None
        }
    }
}

/// Whether decoded bytes can be read as a monero address without reading
/// past their end, reading the keys that the address parser reads first.
fn address_bytes_readable(bytes: &Vec<u8>) -> (r: bool)
    ensures
        r == monero_address_bytes_readable(bytes@),
{
    let len = bytes.len();
    if len == 0 {
        return false;
    }
    let magic = bytes[0];
    let standard = magic == 18 || magic == 42 || magic == 53 || magic == 63 || magic == 24
        || magic == 36;
    let integrated = magic == 19 || magic == 54 || magic == 25;
    if standard {
        if len < 33 {
            return false;
        }
        let spend = vstd::slice::slice_subrange(bytes.as_slice(), 1, 33);
        if parse_monero_public_key(spend).is_err() {
            return true;
        }
        if len < 65 {
            return false;
        }
        let view = vstd::slice::slice_subrange(bytes.as_slice(), 33, 65);
        if parse_monero_public_key(view).is_err() {
            return true;
        }
        len >= 69
    } else if integrated {
        if len < 73 {
            return false;
        }
        let spend = vstd::slice::slice_subrange(bytes.as_slice(), 1, 33);
        let view = vstd::slice::slice_subrange(bytes.as_slice(), 33, 65);
        if parse_monero_public_key(spend).is_err() || parse_monero_public_key(view).is_err() {
            return true;
        }
        len >= 77
    } else {
        true
    }
}

/// Whether `monero::Address::from_str` returns `Ok(address)` on a text: it
/// returns on the text rather than reading past its bytes, and what it
/// returns is that address.
pub open spec fn monero_address_parses_to(text: Seq<char>, address: monero::Address) -> bool {
    &&& monero_address_text_readable(text)
    &&& monero_address_from_text(text) == Ok::<monero::Address, monero::util::address::Error>(address)
}

/// The line `<id> needs <amount> to <address>` that the node writes for the
/// funding of a swap.
pub open spec fn funding_line(id: Seq<char>, amount: Seq<char>, address: Seq<char>) -> Seq<char> {
    id + " needs "@ + amount + " to "@ + address
}

/// Writes `<id> needs <amount> to <address>`.
fn write_funding_line(id: String, amount: String, address: String) -> (r: String)
    ensures
        r@ == funding_line(id@, amount@, address@),
{
    let mut s = id;
    s.append(" needs ");
    s.append(amount.as_str());
    s.append(" to ");
    s.append(address.as_str());
    s
}

impl FundingInfo {
    /// The text that `Display` writes: the chain alone.
    pub open spec fn display(&self) -> Seq<char> {
        match self {
            FundingInfo::Bitcoin(_) => "bitcoin(..)"@,
            FundingInfo::Monero(_) => "monero(..)"@,
        }
    }

    /// The chain of the funding, as `bitcoin(..)` or `monero(..)`.
    pub fn to_string(&self) -> (r: String)
        ensures
            r@ == self.display(),
    {
        match self {
            FundingInfo::Bitcoin(_) => "bitcoin(..)".to_owned(),
            FundingInfo::Monero(_) => "monero(..)".to_owned(),
        }
    }
}

impl BitcoinFundingInfo {
    /// The line that `Display` writes for the funding.
    pub open spec fn display(&self) -> Seq<char> {
        funding_line(
            swap_id_pretty_debug(self.swap_id),
            bitcoin_amount_display(self.amount),
            bitcoin_address_display(self.address),
        )
    }

    /// The funding as the line `<swap id> needs <amount> to <address>`.
    pub fn to_string(&self) -> (r: String)
        ensures
            r@ == self.display(),
    {
        write_funding_line(
            swap_id_debug_text(&self.swap_id),
            bitcoin_amount_text(&self.amount),
            bitcoin_address_text(&self.address),
        )
    }
}

impl MoneroFundingInfo {
    /// The line that `Display` writes for the funding.
    pub open spec fn display(&self) -> Seq<char> {
        funding_line(
            swap_id_pretty_debug(self.swap_id),
            monero_amount_display(self.amount),
            monero_address_display(self.address),
        )
    }

    /// The funding as the line `<swap id> needs <amount> to <address>`.
    pub fn to_string(&self) -> (r: String)
        ensures
            r@ == self.display(),
    {
        write_funding_line(
            swap_id_debug_text(&self.swap_id),
            monero_amount_text(&self.amount),
            monero_address_text(&self.address),
        )
    }
}

/// A funding line splits into the words of its parts: the identifier,
/// `needs`, the two words of the amount, `to` and the address, provided no
/// part holds a space but the one inside the amount.
pub proof fn lemma_funding_line_words(
    id: Seq<char>,
    value: Seq<char>,
    unit: Seq<char>,
    address: Seq<char>,
)
    requires
        !id.contains(' '),
        !value.contains(' '),
        !unit.contains(' '),
        !address.contains(' '),
    ensures
        funding_words(funding_line(id, value + seq![' '] + unit, address)) == seq![
            id,
            "needs"@,
            value,
            unit,
            "to"@,
            address,
        ],
{
    reveal_strlit(" needs ");
    reveal_strlit(" to ");
    reveal_strlit("needs");
    reveal_strlit("to");
    let sp = seq![' '];
    let needs = "needs"@;
    let to = "to"@;
    assert(!needs.contains(' ')) by {
        assert(needs =~= seq!['n', 'e', 'e', 'd', 's']);
    }
    assert(!to.contains(' ')) by {
        assert(to =~= seq!['t', 'o']);
    }
    assert(" needs "@ =~= sp + needs + sp);
    assert(" to "@ =~= sp + to + sp);
    let line = funding_line(id, value + sp + unit, address);
    let tail5 = to + sp + address;
    let tail4 = unit + sp + tail5;
    let tail3 = value + sp + tail4;
    let tail2 = needs + sp + tail3;
    assert(line =~= id + sp + tail2);
    lemma_split_fields_word(id, ' ');
    lemma_split_fields_word(needs, ' ');
    lemma_split_fields_word(value, ' ');
    lemma_split_fields_word(unit, ' ');
    lemma_split_fields_word(to, ' ');
    lemma_split_fields_word(address, ' ');
    lemma_split_fields_concat(to, address, ' ');
    lemma_split_fields_concat(unit, tail5, ' ');
    lemma_split_fields_concat(value, tail4, ' ');
    lemma_split_fields_concat(needs, tail3, ' ');
    lemma_split_fields_concat(id, tail2, ' ');
    assert(funding_words(line) =~= seq![id, needs, value, unit, to, address]);
}

/// A bitcoin funding line that the node writes reads back as the same
/// funding, wherever each part reads back from the text written for it and
/// the parts are words as the line expects them: the identifier and the
/// address hold no space, and the amount is two words.
pub proof fn lemma_bitcoin_funding_round_trip(
    info: BitcoinFundingInfo,
    value: Seq<char>,
    unit: Seq<char>,
)
    requires
        swap_id_from_text(swap_id_pretty_debug(info.swap_id)) == Ok::<
            SwapId,
            rustc_hex::FromHexError,
        >(info.swap_id),
        bitcoin_amount_display(info.amount) == value + seq![' '] + unit,
        bitcoin_amount_from_text(bitcoin_amount_display(info.amount)) == Ok::<
            bitcoin::Amount,
            bitcoin::util::amount::ParseAmountError,
        >(info.amount),
        bitcoin_address_from_text(bitcoin_address_display(info.address)) == Ok::<
            bitcoin::Address,
            bitcoin::util::address::Error,
        >(info.address),
        !swap_id_pretty_debug(info.swap_id).contains(' '),
        !value.contains(' '),
        !unit.contains(' '),
        !bitcoin_address_display(info.address).contains(' '),
    ensures
        bitcoin_funding_readable(info.display()),
        bitcoin_funding_from_text(info.display()) == Ok::<BitcoinFundingInfo, FundingInfoError>(
            info,
        ),
{
    lemma_funding_line_words(
        swap_id_pretty_debug(info.swap_id),
        value,
        unit,
        bitcoin_address_display(info.address),
    );
}

/// A monero funding line that the node writes reads back as the same
/// funding, on the same terms as for bitcoin.
pub proof fn lemma_monero_funding_round_trip(
    info: MoneroFundingInfo,
    value: Seq<char>,
    unit: Seq<char>,
)
    requires
        swap_id_from_text(swap_id_pretty_debug(info.swap_id)) == Ok::<
            SwapId,
            rustc_hex::FromHexError,
        >(info.swap_id),
        monero_amount_display(info.amount) == value + seq![' '] + unit,
        monero_amount_from_text(monero_amount_display(info.amount)) == Ok::<
            monero::Amount,
            monero::util::amount::ParsingError,
        >(info.amount),
        monero_address_parses_to(monero_address_display(info.address), info.address),
        !swap_id_pretty_debug(info.swap_id).contains(' '),
        !value.contains(' '),
        !unit.contains(' '),
        !monero_address_display(info.address).contains(' '),
    ensures
        monero_funding_readable(info.display()),
        monero_funding_from_text(info.display()) == Ok::<MoneroFundingInfo, FundingInfoError>(
            info,
        ),
{
    lemma_funding_line_words(
        swap_id_pretty_debug(info.swap_id),
        value,
        unit,
        monero_address_display(info.address),
    );
}

/// Reading a bitcoin funding line looks at its first, third, fourth and
/// sixth words alone: two lines of at least six words that agree on those
/// read alike, whatever their other words.
pub proof fn lemma_bitcoin_funding_reads_its_fields(s1: Seq<char>, s2: Seq<char>)
    requires
        funding_words(s1).len() >= 6,
        funding_words(s2).len() >= 6,
        funding_words(s1)[0] == funding_words(s2)[0],
        funding_words(s1)[2] == funding_words(s2)[2],
        funding_words(s1)[3] == funding_words(s2)[3],
        funding_words(s1)[5] == funding_words(s2)[5],
    ensures
        bitcoin_funding_readable(s1),
        bitcoin_funding_readable(s2),
        bitcoin_funding_from_text(s1) == bitcoin_funding_from_text(s2),
{
}

/// Reading a monero funding line looks at its first, third, fourth and
/// sixth words alone, as for bitcoin.
pub proof fn lemma_monero_funding_reads_its_fields(s1: Seq<char>, s2: Seq<char>)
    requires
        funding_words(s1).len() >= 6,
        funding_words(s2).len() >= 6,
        funding_words(s1)[0] == funding_words(s2)[0],
        funding_words(s1)[2] == funding_words(s2)[2],
        funding_words(s1)[3] == funding_words(s2)[3],
        funding_words(s1)[5] == funding_words(s2)[5],
    ensures
        monero_funding_readable(s1) == monero_funding_readable(s2),
        monero_funding_from_text(s1) == monero_funding_from_text(s2),
{
}

/// Funding information is shown by its chain: bitcoin funding as
/// `bitcoin(..)`, monero funding as `monero(..)`, so the two chains never
/// share a text.
pub proof fn lemma_funding_info_shows_its_chain(b: BitcoinFundingInfo, m: MoneroFundingInfo)
    ensures
        FundingInfo::Bitcoin(b).display() == "bitcoin(..)"@,
        FundingInfo::Monero(m).display() == "monero(..)"@,
        FundingInfo::Bitcoin(b).display() != FundingInfo::Monero(m).display(),
{
    reveal_strlit("bitcoin(..)");
    reveal_strlit("monero(..)");
    assert("bitcoin(..)"@[0] != "monero(..)"@[0]);
}

} // verus!
