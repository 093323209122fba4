//! Credit prices and the deductions charged against them.
//!
//! A service charges credits for the actions it performs. What each action
//! costs on each blockchain stands in a price sheet; a deduction is planned
//! against the sheet and the balance at hand, and sent off by the caller.

use vstd::prelude::*;
use rdkafka::ClientConfig;
use uuid::Uuid;
use crate::producer;
use crate::producer::{Producer, SendError};
use crate::triage::{Severity, Triage};
use crate::util::text::{decimal, decimal_spec, str_eq};

verus! {

#[verifier::external_type_specification]
#[verifier::external_body]
pub struct ExUuid(Uuid);

/// Enum describing possible blockchains associated with an action
#[derive(Debug, Clone, Copy, PartialEq, Eq, Structural, Hash)]
pub enum Blockchain {
    /// This action is not specific to a blockchain
    OffChain,
    /// This action uses Solana
    Solana,
    /// This action uses Polygon
    Polygon,
    /// This action uses Ethereum
    Ethereum,
}

/// A blockchain as deduction events name it.
#[derive(Debug, Clone, Copy, PartialEq, Eq, Structural, Hash)]
pub enum WireBlockchain {
    Unspecified,
    Solana,
    Polygon,
    Ethereum,
}

impl Blockchain {
    /// The name of the blockchain in the price sheet.
    pub open spec fn name_spec(self) -> Seq<char> {
        match self {
            Blockchain::OffChain => "off-chain"@,
            Blockchain::Solana => "solana"@,
            Blockchain::Polygon => "polygon"@,
            Blockchain::Ethereum => "ethereum"@,
        }
    }

    /// The name of the blockchain in the price sheet.
    pub fn as_str(&self) -> (name: &'static str)
        ensures
            name@ == self.name_spec(),
    {
        match self {
            Blockchain::OffChain => "off-chain",
            Blockchain::Solana => "solana",
            Blockchain::Polygon => "polygon",
            Blockchain::Ethereum => "ethereum",
        }
    }

    /// Every blockchain, in the order of their declaration.
    pub fn all() -> (chains: [Blockchain; 4])
        ensures
            chains@ == seq![
                Blockchain::OffChain,
                Blockchain::Solana,
                Blockchain::Polygon,
                Blockchain::Ethereum,
            ],
            forall|chain: Blockchain| chains@.contains(chain),
    {
        let chains = [
            Blockchain::OffChain,
            Blockchain::Solana,
            Blockchain::Polygon,
            Blockchain::Ethereum,
        ];
        assert(chains@ =~= seq![
            Blockchain::OffChain,
            Blockchain::Solana,
            Blockchain::Polygon,
            Blockchain::Ethereum,
        ]);
        assert forall|chain: Blockchain| chains@.contains(chain) by {
            match chain {
                Blockchain::OffChain => assert(chains@[0] == chain),
                Blockchain::Solana => assert(chains@[1] == chain),
                Blockchain::Polygon => assert(chains@[2] == chain),
                Blockchain::Ethereum => assert(chains@[3] == chain),
            }
        }
        chains
    }

    /// The blockchain as deduction events name it.
    pub fn into_wire(self) -> (wire: WireBlockchain)
        ensures
            wire == match self {
                Blockchain::OffChain => WireBlockchain::Unspecified,
                Blockchain::Solana => WireBlockchain::Solana,
                Blockchain::Polygon => WireBlockchain::Polygon,
                Blockchain::Ethereum => WireBlockchain::Ethereum,
            },
    {
        match self {
            Blockchain::OffChain => WireBlockchain::Unspecified,
            Blockchain::Solana => WireBlockchain::Solana,
            Blockchain::Polygon => WireBlockchain::Polygon,
            Blockchain::Ethereum => WireBlockchain::Ethereum,
        }
    }
}

/// An action for which a service may charge credits
pub trait LineItem: Copy {
    /// The name of the action in the price sheet. Each type of line item
    /// says here what it is.
    open spec fn name_spec(&self) -> Seq<char> {
        arbitrary()
    }

    /// The name of the action in the price sheet.
    fn as_str(&self) -> (name: &str)
        ensures
            name@ == self.name_spec(),
    ;
}

/// Errors resulting from checking credits or submitting deductions
#[derive(Debug)]
pub enum DeductionErrorKind {
    /// Price sheet lookup returned no value
    MissingItem,
    /// An available balance check failed
    InsufficientBalance {
        /// The available balance provided
        available: u64,
        /// The resolved cost of the action
        cost: u64,
    },
    /// The cost of an item was unable to be converted for transmission
    InvalidCost(std::num::TryFromIntError),
    /// An error occurred while sending the event
    Send(SendError),
}

impl DeductionErrorKind {
    /// What is wrong, in words.
    pub fn message(&self) -> (text: String)
        ensures
            text@ == match *self {
                DeductionErrorKind::MissingItem =>
                    "No price in credit sheet found for the requested action"@,
                DeductionErrorKind::InsufficientBalance { available, cost } =>
                    "Insufficient available balance "@ + decimal_spec(available as nat)
                        + ", need "@ + decimal_spec(cost as nat),
                DeductionErrorKind::InvalidCost(_) => "Invalid cost"@,
                DeductionErrorKind::Send(_) => "Error sending deduction event"@,
            },
    {
        match self {
            DeductionErrorKind::MissingItem => "No price in credit sheet found for the requested action".to_owned(),
            DeductionErrorKind::InsufficientBalance { available, cost } => {
                let mut text = "Insufficient available balance ".to_owned();
                text.append(decimal(*available).as_str());
                text.append(", need ");
                text.append(decimal(*cost).as_str());
                text
            },
            DeductionErrorKind::InvalidCost(_) => "Invalid cost".to_owned(),
            DeductionErrorKind::Send(_) => "Error sending deduction event".to_owned(),
        }
    }
}

impl Triage for DeductionErrorKind {
    /// A deduction that could not be sent is as severe as the failed send;
    /// one that could not be planned fails for good.
    open spec fn severity_spec(&self) -> Severity {
        match self {
            DeductionErrorKind::Send(e) => e.severity_spec(),
            _ => Severity::Permanent,
        }
    }

    fn severity(&self) -> (s: Severity) {
        match self {
            DeductionErrorKind::Send(e) => e.severity(),
            DeductionErrorKind::MissingItem
            | DeductionErrorKind::InsufficientBalance { .. }
            | DeductionErrorKind::InvalidCost(_) => Severity::Permanent,
        }
    }
}

impl From<SendError> for DeductionErrorKind {
    fn from(e: SendError) -> (kind: DeductionErrorKind) {
        DeductionErrorKind::Send(e)
    }
}

impl vstd::std_specs::convert::FromSpecImpl<SendError> for DeductionErrorKind {
    open spec fn obeys_from_spec() -> bool {
        true
    }

    open spec fn from_spec(e: SendError) -> DeductionErrorKind {
        DeductionErrorKind::Send(e)
    }
}

/// Errors resulting from checking credits or submitting deductions, with
/// associated line item
#[derive(Debug)]
pub struct DeductionError<I: LineItem> {
    item: I,
    blockchain: Blockchain,
    kind: DeductionErrorKind,
}

impl<I: LineItem> DeductionError<I> {
    /// The requested line item that caused this error.
    pub closed spec fn item_spec(&self) -> I {
        self.item
    }

    /// The requested blockchain that caused this error.
    pub closed spec fn blockchain_spec(&self) -> Blockchain {
        self.blockchain
    }

    /// The inner kind of this error.
    pub closed spec fn kind_spec(&self) -> DeductionErrorKind {
        self.kind
    }

    /// An error of this kind about a line item on a blockchain.
    pub fn new(item: I, blockchain: Blockchain, kind: DeductionErrorKind) -> (e: Self)
        ensures
            e.item_spec() == item,
            e.blockchain_spec() == blockchain,
            e.kind_spec() == kind,
    {
        DeductionError { item, blockchain, kind }
    }

    /// Get the requested line item that caused this error
    pub fn item(&self) -> (item: I)
        ensures
            item == self.item_spec(),
    {
        self.item
    }

    /// Get the requested blockchain that caused this error
    pub fn blockchain(&self) -> (blockchain: Blockchain)
        ensures
            blockchain == self.blockchain_spec(),
    {
        self.blockchain
    }

    /// Get the inner kind of this error
    pub fn kind(&self) -> (kind: &DeductionErrorKind)
        ensures
            *kind == self.kind_spec(),
    {
        &self.kind
    }
}

impl<I: LineItem> Triage for DeductionError<I> {
    /// An error about a line item is as severe as its kind.
    closed spec fn severity_spec(&self) -> Severity {
        self.kind.severity_spec()
    }

    fn severity(&self) -> (s: Severity) {
        self.kind.severity()
    }
}

/// An error about a line item has the severity of its kind.
pub proof fn lemma_deduction_error_defers<I: LineItem>(e: DeductionError<I>)
    ensures
        e.severity_spec() == e.kind_spec().severity_spec(),
{
}

/// Service startup configuration for charging credits and reading the credit
/// sheet
#[derive(Debug)]
pub struct Config {
    pub(crate) credit_sheet: String,
    pub(crate) config: ClientConfig,
}

impl Config {
    /// The path of the price sheet.
    pub closed spec fn credit_sheet_spec(&self) -> Seq<char> {
        self.credit_sheet@
    }

    /// The configuration that the client's producer is created from.
    pub closed spec fn client_spec(&self) -> ClientConfig {
        self.config
    }

    /// The configuration of a credits client that reads the price sheet at
    /// `credit_sheet` and whose producer is created from `config`.
    pub fn new(credit_sheet: String, config: ClientConfig) -> (cfg: Config)
        ensures
            cfg.credit_sheet_spec() == credit_sheet@,
            cfg.client_spec() == config,
    {
        Config { credit_sheet, config }
    }

    /// The path of the price sheet.
    pub fn credit_sheet(&self) -> (path: &str)
        ensures
            path@ == self.credit_sheet_spec(),
    {
        self.credit_sheet.as_str()
    }

    /// The configuration that the client's producer is created from.
    pub fn client_config(&self) -> (config: &ClientConfig)
        ensures
            *config == self.client_spec(),
    {
        &self.config
    }
}

impl Config {
    /// Construct a new credits client from this config instance, for a
    /// service's line items and with the prices that the price sheet's file
    /// gives for them
    ///
    /// # Errors
    /// This method returns an error if the file names no prices for one of
    /// the line items.
    #[inline]
    pub fn build<I: LineItem>(self, items: &Vec<I>, table: &PriceTable) -> (r: Result<
        CreditsClient<I>,
        MissingEntry<I>,
    >)
        ensures
            match r {
                Ok(client) => {
                    &&& client.topic_spec() == CREDITS_TOPIC@
                    &&& names_all(table@, items@, items@.len() as int)
                    &&& forall|i: int, chain: Blockchain|
                        0 <= i < items@.len() ==> client.sheet().price(
                            (#[trigger] items@[i]).name_spec(),
                            chain,
                        ) == #[trigger] table_price(
                            table@,
                            items@[i].name_spec(),
                            chain.name_spec(),
                        )
                },
                Err(missing) => exists|i: int|
                    0 <= i < items@.len() && #[trigger] names_all(table@, items@, i) && items@[i]
                        == missing.0 && table_row(table@, items@[i].name_spec()) is None,
            },
    {
        CreditsClient::new(self, items, table)
    }
}

/// The prices of one action as the price sheet's file gives them: for each
/// blockchain it names, a cost or the word that there is none.
pub type PriceRow = Vec<(String, Option<u64>)>;

/// The price sheet's file: the prices of each action it names.
pub type PriceTable = Vec<(String, PriceRow)>;

/// What a row gives for a blockchain: the first entry under its name.
pub open spec fn row_price(row: Seq<(String, Option<u64>)>, chain: Seq<char>) -> Option<
    Option<u64>,
>
    decreases row.len(),
{
    if row.len() == 0 {
        None
    } else if row[0].0@ == chain {
        Some(row[0].1)
    } else {
        row_price(row.drop_first(), chain)
    }
}

/// Where the first row for an action stands in a table.
pub open spec fn table_row(table: Seq<(String, PriceRow)>, action: Seq<char>) -> Option<int>
    decreases table.len(),
{
    if table.len() == 0 {
        None
    } else if table[0].0@ == action {
        Some(0)
    } else {
        match table_row(table.drop_first(), action) {
            Some(i) => Some(i + 1),
            None => None,
        }
    }
}

/// What a table gives for an action on a blockchain.
pub open spec fn table_price(
    table: Seq<(String, PriceRow)>,
    action: Seq<char>,
    chain: Seq<char>,
) -> Option<Option<u64>> {
    match table_row(table, action) {
        Some(i) => row_price(table[i].1@, chain),
        None => None,
    }
}

/// What a row gives for a blockchain.
fn find_price(row: &PriceRow, chain: &str) -> (price: Option<Option<u64>>)
    ensures
        price == row_price(row@, chain@),
{
    let mut i: usize = 0;
    assert(row@.skip(0) == row@);
    while i < row.len()
        invariant
            i <= row@.len(),
            row_price(row@, chain@) == row_price(row@.skip(i as int), chain@),
        decreases row@.len() - i,
    {
        assert(row@.skip(i as int)[0] == row@[i as int]);
        assert(row@.skip(i as int).drop_first() == row@.skip(i + 1));
        if str_eq(row[i].0.as_str(), chain) {
            return Some(row[i].1);
        }
        i += 1;
    }
    None
}

/// Where the first row for an action stands in a table.
fn find_row(table: &PriceTable, action: &str) -> (at: Option<usize>)
    ensures
        match at {
            Some(i) => i < table@.len() && table_row(table@, action@) == Some(i as int),
            None => table_row(table@, action@) is None,
        },
{
    let mut i: usize = 0;
    assert(table@.skip(0) == table@);
    while i < table.len()
        invariant
            i <= table@.len(),
            table_row(table@, action@) == match table_row(table@.skip(i as int), action@) {
                Some(k) => Some(k + i),
                None => None,
            },
        decreases table@.len() - i,
    {
        assert(table@.skip(i as int)[0] == table@[i as int]);
        assert(table@.skip(i as int).drop_first() == table@.skip(i + 1));
        if str_eq(table[i].0.as_str(), action) {
            return Some(i);
        }
        i += 1;
    }
    None
}

/// One price of the sheet.
#[derive(Debug, Clone, Copy)]
pub struct Price<I> {
    /// The action that is charged for
    pub item: I,
    /// The blockchain on which it is performed
    pub blockchain: Blockchain,
    /// What it costs in credits, `None` where the sheet says that it has no
    /// cost
    pub cost: Option<u64>,
}

/// The map between actions and credit costs
#[derive(Debug)]
pub struct CreditSheet<I> {
    prices: Vec<Price<I>>,
}

/// The first price among `prices` for an action on a blockchain.
pub open spec fn first_price<I: LineItem>(
    prices: Seq<Price<I>>,
    action: Seq<char>,
    blockchain: Blockchain,
) -> Option<Option<u64>>
    decreases prices.len(),
{
    if prices.len() == 0 {
        None
    } else if prices[0].item.name_spec() == action && prices[0].blockchain == blockchain {
        Some(prices[0].cost)
    } else {
        first_price(prices.drop_first(), action, blockchain)
    }
}

impl<I: LineItem> CreditSheet<I> {
    /// What the sheet gives for an action on a blockchain: nothing, or a
    /// cost, or the word that there is no cost.
    pub closed spec fn price(&self, action: Seq<char>, blockchain: Blockchain) -> Option<
        Option<u64>,
    > {
        first_price(self.prices@, action, blockchain)
    }

    /// The prices of the sheet.
    pub fn prices(&self) -> (prices: &Vec<Price<I>>)
        ensures
            forall|action: Seq<char>, blockchain: Blockchain|
                first_price(prices@, action, blockchain) == self.price(action, blockchain),
    {
        &self.prices
    }

    /// What the sheet gives for a line item on a blockchain.
    pub fn get(&self, item: I, blockchain: Blockchain) -> (price: Option<Option<u64>>)
        ensures
            price == self.price(item.name_spec(), blockchain),
    {
        let action = item.as_str();
        let mut i: usize = 0;
        assert(self.prices@.skip(0) == self.prices@);
        while i < self.prices.len()
            invariant
                i <= self.prices@.len(),
                action@ == item.name_spec(),
                first_price(self.prices@, action@, blockchain) == first_price(
                    self.prices@.skip(i as int),
                    action@,
                    blockchain,
                ),
            decreases self.prices@.len() - i,
        {
            assert(self.prices@.skip(i as int)[0] == self.prices@[i as int]);
            assert(self.prices@.skip(i as int).drop_first() == self.prices@.skip(i + 1));
            if str_eq(self.prices[i].item.as_str(), action) && self.prices[i].blockchain
                == blockchain {
                return Some(self.prices[i].cost);
            }
            i += 1;
        }
        None
    }
}

/// A price sheet's file names no prices for this line item.
#[derive(Debug, Clone, Copy)]
pub struct MissingEntry<I>(pub I);

/// Whether a table names every one of the first `n` line items.
pub open spec fn names_all<I: LineItem>(
    table: Seq<(String, PriceRow)>,
    items: Seq<I>,
    n: int,
) -> bool {
    forall|i: int| 0 <= i < n ==> table_row(table, (#[trigger] items[i]).name_spec()) is Some
}

/// The price sheet that a file amounts to for a service's line items.
///
/// Every line item has to be named in the file; the first that is not is
/// reported. The sheet then gives for a line item on a blockchain what the
/// file gives under the names of the two.
pub fn read_sheet<I: LineItem>(items: &Vec<I>, table: &PriceTable) -> (r: Result<
    CreditSheet<I>,
    MissingEntry<I>,
>)
    ensures
        match r {
            Ok(sheet) => {
                &&& names_all(table@, items@, items@.len() as int)
                &&& forall|i: int, chain: Blockchain|
                    0 <= i < items@.len() ==> sheet.price(
                        (#[trigger] items@[i]).name_spec(),
                        chain,
                    ) == #[trigger] table_price(
                        table@,
                        items@[i].name_spec(),
                        chain.name_spec(),
                    )
            },
            Err(missing) => exists|i: int|
                0 <= i < items@.len() && #[trigger] names_all(table@, items@, i) && items@[i]
                    == missing.0 && table_row(table@, items@[i].name_spec()) is None,
        },
{
    let mut i: usize = 0;
    while i < items.len()
        invariant
            i <= items@.len(),
            names_all(table@, items@, i as int),
        decreases items@.len() - i,
    {
        if find_row(table, items[i].as_str()).is_none() {
            return Err(MissingEntry(items[i]));
        }
        i += 1;
    }
    let chains = Blockchain::all();
    let mut prices: Vec<Price<I>> = Vec::new();
    let mut n: usize = 0;
    while n < items.len()
        invariant
            n <= items@.len(),
            names_all(table@, items@, items@.len() as int),
            chains@ == seq![
                Blockchain::OffChain,
                Blockchain::Solana,
                Blockchain::Polygon,
                Blockchain::Ethereum,
            ],
            forall|k: int|
                0 <= k < prices@.len() ==> table_price(
                    table@,
                    (#[trigger] prices@[k]).item.name_spec(),
                    prices@[k].blockchain.name_spec(),
                ) == Some(prices@[k].cost),
            forall|i: int, chain: Blockchain|
                0 <= i < n && (#[trigger] table_price(
                    table@,
                    (#[trigger] items@[i]).name_spec(),
                    chain.name_spec(),
                )) is Some ==> exists|k: int|
                    0 <= k < prices@.len() && (#[trigger] prices@[k]).item.name_spec()
                        == items@[i].name_spec() && prices@[k].blockchain == chain,
            forall|k: int|
                0 <= k < prices@.len() ==> exists|i: int|
                    0 <= i < n && (#[trigger] items@[i]).name_spec() == (
                    #[trigger] prices@[k]).item.name_spec(),
        decreases items@.len() - n,
    {
        let item = items[n];
        let action = item.as_str();
        let at = find_row(table, action);
        assert(at is Some);
        let row = &table[at.unwrap()].1;
        let mut c: usize = 0;
        while c < 4
            invariant
                c <= 4,
                n < items@.len(),
                item == items@[n as int],
                action@ == item.name_spec(),
                at matches Some(found) && found < table@.len() && table_row(table@, action@)
                    == Some(found as int) && *row == table@[found as int].1,
                chains@ == seq![
                    Blockchain::OffChain,
                    Blockchain::Solana,
                    Blockchain::Polygon,
                    Blockchain::Ethereum,
                ],
                forall|k: int|
                    0 <= k < prices@.len() ==> table_price(
                        table@,
                        (#[trigger] prices@[k]).item.name_spec(),
                        prices@[k].blockchain.name_spec(),
                    ) == Some(prices@[k].cost),
                forall|i: int, chain: Blockchain|
                    0 <= i < n && (#[trigger] table_price(
                        table@,
                        (#[trigger] items@[i]).name_spec(),
                        chain.name_spec(),
                    )) is Some ==> exists|k: int|
                        0 <= k < prices@.len() && (#[trigger] prices@[k]).item.name_spec()
                            == items@[i].name_spec() && prices@[k].blockchain == chain,
                forall|j: int|
                    0 <= j < c && table_price(
                        table@,
                        item.name_spec(),
                        (#[trigger] chains@[j]).name_spec(),
                    ) is Some ==> exists|k: int|
                        0 <= k < prices@.len() && (#[trigger] prices@[k]).item.name_spec()
                            == item.name_spec() && prices@[k].blockchain == chains@[j],
                forall|k: int|
                    0 <= k < prices@.len() ==> exists|i: int|
                        0 <= i <= n && (#[trigger] items@[i]).name_spec() == (
                        #[trigger] prices@[k]).item.name_spec(),
            decreases 4 - c,
        {
            let chain = chains[c];
            let ghost before = prices@;
            if let Some(cost) = find_price(row, chain.as_str()) {
                prices.push(Price { item, blockchain: chain, cost });
                proof {
                    let last = prices@.len() - 1;
                    assert(prices@[last].item == item && prices@[last].blockchain == chain);
                    assert forall|k: int| 0 <= k < prices@.len() implies exists|i: int|
                        0 <= i <= n && (#[trigger] items@[i]).name_spec() == (
                        #[trigger] prices@[k]).item.name_spec() by {
                        if k < last {
                            assert(prices@[k] == before[k]);
                        } else {
                            assert(items@[n as int].name_spec() == prices@[k].item.name_spec());
                        }
                    }
                    assert forall|i: int, chain: Blockchain|
                        0 <= i < n && (#[trigger] table_price(
                            table@,
                            (#[trigger] items@[i]).name_spec(),
                            chain.name_spec(),
                        )) is Some implies exists|k: int|
                        0 <= k < prices@.len() && (#[trigger] prices@[k]).item.name_spec()
                            == items@[i].name_spec() && prices@[k].blockchain == chain by {
                        let k = choose|k: int|
                            0 <= k < before.len() && (#[trigger] before[k]).item.name_spec()
                                == items@[i].name_spec() && before[k].blockchain == chain;
                        assert(prices@[k] == before[k]);
                    }
                    assert forall|j: int|
                        0 <= j < c + 1 && table_price(
                            table@,
                            item.name_spec(),
                            (#[trigger] chains@[j]).name_spec(),
                        ) is Some implies exists|k: int|
                        0 <= k < prices@.len() && (#[trigger] prices@[k]).item.name_spec()
                            == item.name_spec() && prices@[k].blockchain == chains@[j] by {
                        if j < c {
                            let k = choose|k: int|
                                0 <= k < before.len() && (#[trigger] before[k]).item.name_spec()
                                    == item.name_spec() && before[k].blockchain == chains@[j];
                            assert(prices@[k] == before[k]);
                        } else {
                            assert(prices@[last].blockchain == chains@[j]);
                        }
                    }
                }
            }
            c += 1;
        }
        proof {
            assert forall|i: int, chain: Blockchain|
                0 <= i < n + 1 && (#[trigger] table_price(
                    table@,
                    (#[trigger] items@[i]).name_spec(),
                    chain.name_spec(),
                )) is Some implies exists|k: int|
                0 <= k < prices@.len() && (#[trigger] prices@[k]).item.name_spec()
                    == items@[i].name_spec() && prices@[k].blockchain == chain by {
                if i == n {
                    let j: int = match chain {
                        Blockchain::OffChain => 0,
                        Blockchain::Solana => 1,
                        Blockchain::Polygon => 2,
                        Blockchain::Ethereum => 3,
                    };
                    assert(chains@[j] == chain);
                }
            }
        }
        n += 1;
    }
    let sheet = CreditSheet { prices };
    proof {
        assert forall|i: int, chain: Blockchain| 0 <= i < items@.len() implies sheet.price(
            (#[trigger] items@[i]).name_spec(),
            chain,
        ) == #[trigger] table_price(table@, items@[i].name_spec(), chain.name_spec()) by {
            lemma_first_price(sheet.prices@, table@, items@[i].name_spec(), chain);
        }
    }
    Ok(sheet)
}

/// Where every price of a list is what the table gives for it, and the list
/// holds a price wherever the table gives one, the first price of the list for
/// an action on a blockchain is what the table gives for the two.
proof fn lemma_first_price<I: LineItem>(
    prices: Seq<Price<I>>,
    table: Seq<(String, PriceRow)>,
    action: Seq<char>,
    chain: Blockchain,
)
    requires
        forall|k: int|
            0 <= k < prices.len() ==> table_price(
                table,
                (#[trigger] prices[k]).item.name_spec(),
                prices[k].blockchain.name_spec(),
            ) == Some(prices[k].cost),
        table_price(table, action, chain.name_spec()) is Some ==> exists|k: int|
            0 <= k < prices.len() && (#[trigger] prices[k]).item.name_spec() == action
                && prices[k].blockchain == chain,
    ensures
        first_price(prices, action, chain) == table_price(table, action, chain.name_spec()),
    decreases prices.len(),
{
    if prices.len() > 0 {
        if prices[0].item.name_spec() == action && prices[0].blockchain == chain {
        } else {
            let rest = prices.drop_first();
            assert forall|k: int| 0 <= k < rest.len() implies table_price(
                table,
                (#[trigger] rest[k]).item.name_spec(),
                rest[k].blockchain.name_spec(),
            ) == Some(rest[k].cost) by {
                assert(rest[k] == prices[k + 1]);
            }
            if table_price(table, action, chain.name_spec()) is Some {
                let k = choose|k: int|
                    0 <= k < prices.len() && (#[trigger] prices[k]).item.name_spec() == action
                        && prices[k].blockchain == chain;
                assert(rest[k - 1] == prices[k]);
            }
            lemma_first_price(rest, table, action, chain);
        }
    }
}

/// The topic that deduction events are written to.
pub const CREDITS_TOPIC: &'static str = "credits_mpsc";

/// The two halves of the 128 bits of a UUID, the high one first.
pub uninterp spec fn uuid_pair(id: Uuid) -> (u64, u64);

/// The hyphenated lower-case text of a UUID.
pub uninterp spec fn uuid_text(id: Uuid) -> Seq<char>;

/// `Uuid::from_u64_pair`. Trusted: the UUID holds the two values as the high
/// and the low half of its bits.
#[verifier::external_body]
fn uuid_from_pair(high: u64, low: u64) -> (id: Uuid)
    ensures
        uuid_pair(id) == (high, low),
{
    Uuid::from_u64_pair(high, low)
}

/// The `Display` of `Uuid`. Trusted: the same UUID always reads the same.
#[verifier::external_body]
fn uuid_to_string(id: &Uuid) -> (text: String)
    ensures
        text@ == uuid_text(*id),
{
    id.to_string()
}

/// `i64::try_from` for a `u64`. Trusted: a value up to `i64::MAX` converts
/// to itself, and a greater one fails.
#[verifier::external_body]
fn to_i64(value: u64) -> (r: Result<i64, std::num::TryFromIntError>)
    ensures
        r is Ok <==> value <= i64::MAX,
        r matches Ok(converted) ==> converted == value,
{
    i64::try_from(value)
}

/// An ID for a credit transaction. Any created transaction should be
/// confirmed, or it will be discarded.
#[derive(Debug, Clone, Copy, PartialEq, Eq, Hash)]
#[must_use]
pub struct TransactionId(pub Uuid);

/// A deduction that is ready to be sent as pending.
#[derive(Debug)]
pub struct PendingDeduction<I> {
    /// The ID of the transaction
    pub id: TransactionId,
    /// The ID of the transaction as the event's key names it
    pub key: String,
    /// The user on whose behalf credits are deducted, as the event's key
    /// names them
    pub user_id: String,
    /// The credits to deduct
    pub credits: i64,
    /// The action that is charged for
    pub item: I,
    /// The blockchain on which the action is performed
    pub blockchain: WireBlockchain,
    /// The organization whose credits are deducted
    pub organization: String,
}

/// The confirmation of a deduction, ready to be sent.
#[derive(Debug)]
pub struct Confirmation {
    /// The ID of the transaction as the event's key names it
    pub key: String,
    /// The user as the event's key names them: empty in a confirmation
    pub user_id: String,
}

/// What a deduction of `price` comes to against the balance `available`: the
/// credits to deduct, or why there is nothing to deduct.
pub open spec fn plan(price: Option<Option<u64>>, available: u64) -> Result<i64, DeductionErrorKind> {
    match price {
        Some(Some(cost)) => if available < cost {
            Err(DeductionErrorKind::InsufficientBalance { available, cost })
        } else if cost > i64::MAX {
            Err(DeductionErrorKind::InvalidCost(arbitrary()))
        } else {
            Ok(cost as i64)
        },
        _ => Err(DeductionErrorKind::MissingItem),
    }
}

/// Whether a result is what a plan asks for: the same credits, or an error
/// of the same variant with the same balance and cost.
pub open spec fn follows_plan(r: Result<i64, DeductionErrorKind>, planned: Result<
    i64,
    DeductionErrorKind,
>) -> bool {
    match planned {
        Ok(credits) => r == Ok::<i64, DeductionErrorKind>(credits),
        Err(DeductionErrorKind::InvalidCost(_)) => r matches Err(
            DeductionErrorKind::InvalidCost(_),
        ),
        Err(kind) => r == Err::<i64, DeductionErrorKind>(kind),
    }
}

/// Plan a deduction of `price` against the balance `available`.
///
/// There is nothing to deduct where the sheet gives no cost, where the
/// balance does not cover the cost, or where the cost is beyond what a
/// deduction event can carry.
pub fn plan_deduction(price: Option<Option<u64>>, available: u64) -> (r: Result<
    i64,
    DeductionErrorKind,
>)
    ensures
        follows_plan(r, plan(price, available)),
{
    match price {
        Some(Some(cost)) => {
            if available < cost {
                return Err(DeductionErrorKind::InsufficientBalance { available, cost });
            }
            match to_i64(cost) {
                Ok(credits) => Ok(credits),
                Err(e) => Err(DeductionErrorKind::InvalidCost(e)),
            }
        },
        _ => Err(DeductionErrorKind::MissingItem),
    }
}

/// A client for producing credit deduction line items
#[derive(Debug)]
pub struct CreditsClient<I> {
    producer: Producer,
    credit_sheet: CreditSheet<I>,
}

impl<I: LineItem> CreditsClient<I> {
    /// The price sheet for this service's actions.
    pub closed spec fn sheet(&self) -> CreditSheet<I> {
        self.credit_sheet
    }

    /// The topic that the client's producer writes to.
    pub closed spec fn topic_spec(&self) -> Seq<char> {
        self.producer.topic_spec()
    }

    /// A credits client for a service's line items, with the prices that the
    /// price sheet's file gives for them. Its producer writes to the topic of
    /// deduction events.
    pub fn new(config: Config, items: &Vec<I>, table: &PriceTable) -> (r: Result<
        Self,
        MissingEntry<I>,
    >)
        ensures
            match r {
                Ok(client) => {
                    &&& client.topic_spec() == CREDITS_TOPIC@
                    &&& names_all(table@, items@, items@.len() as int)
                    &&& forall|i: int, chain: Blockchain|
                        0 <= i < items@.len() ==> client.sheet().price(
                            (#[trigger] items@[i]).name_spec(),
                            chain,
                        ) == #[trigger] table_price(
                            table@,
                            items@[i].name_spec(),
                            chain.name_spec(),
                        )
                },
                Err(missing) => exists|i: int|
                    0 <= i < items@.len() && #[trigger] names_all(table@, items@, i) && items@[i]
                        == missing.0 && table_row(table@, items@[i].name_spec()) is None,
            },
    {
        match read_sheet(items, table) {
            Ok(credit_sheet) => {
                let producer = producer::Config::new(CREDITS_TOPIC.to_owned(), config.config).build();
                Ok(CreditsClient { producer, credit_sheet })
            },
            Err(missing) => Err(missing),
        }
    }

    /// Borrow the underlying credit price sheet for this service's actions
    #[inline]
    #[must_use]
    pub fn credit_sheet(&self) -> (sheet: &CreditSheet<I>)
        ensures
            *sheet == self.sheet(),
    {
        &self.credit_sheet
    }

    /// The producer that deduction events are sent with.
    pub fn producer(&self) -> (producer: &Producer)
        ensures
            producer.topic_spec() == self.topic_spec(),
    {
        &self.producer
    }

    /// Look up the cost of a given `(action, blockchain)` pair in credits
    ///
    /// # Errors
    /// This method returns an error if no price is found for the given input.
    #[inline]
    pub fn get_cost(&self, item: I, blockchain: Blockchain) -> (r: Result<u64, DeductionError<I>>)
        ensures
            match self.sheet().price(item.name_spec(), blockchain) {
                Some(Some(cost)) => r matches Ok(found) && found == cost,
                _ => r matches Err(e) && e.item_spec() == item && e.blockchain_spec() == blockchain
                    && e.kind_spec() is MissingItem,
            },
    {
        match self.credit_sheet.get(item, blockchain) {
            Some(Some(cost)) => Ok(cost),
            _ => Err(DeductionError::new(item, blockchain, DeductionErrorKind::MissingItem)),
        }
    }

    /// Generate a new transaction ID from the time `now_millis`, in
    /// milliseconds, and the random `nonce`, and plan a pending transaction with
    /// it using the given transaction details
    ///
    /// # Errors
    /// This method returns an error if the associated credit cost of the action
    /// cannot be found, if the available balance reported is insufficient, or
    /// if the cost cannot be carried by the event.
    pub fn submit_pending_deduction(
        &self,
        organization_id: Uuid,
        user_id: Uuid,
        item: I,
        blockchain: Blockchain,
        available_balance: u64,
        now_millis: i64,
        nonce: u64,
    ) -> (r: Result<PendingDeduction<I>, DeductionError<I>>)
        ensures
            match plan(self.sheet().price(item.name_spec(), blockchain), available_balance) {
                Ok(credits) => {
                    &&& r matches Ok(pending)
                    &&& pending.credits == credits
                    &&& uuid_pair(pending.id.0) == (now_millis as u64, nonce)
                    &&& pending.key@ == uuid_text(pending.id.0)
                    &&& pending.user_id@ == uuid_text(user_id)
                    &&& pending.organization@ == uuid_text(organization_id)
                    &&& pending.item == item
                    &&& pending.blockchain == match blockchain {
                        Blockchain::OffChain => WireBlockchain::Unspecified,
                        Blockchain::Solana => WireBlockchain::Solana,
                        Blockchain::Polygon => WireBlockchain::Polygon,
                        Blockchain::Ethereum => WireBlockchain::Ethereum,
                    }
                },
                Err(kind) => {
                    &&& r matches Err(e)
                    &&& e.item_spec() == item
                    &&& e.blockchain_spec() == blockchain
                    &&& follows_plan(Err(e.kind_spec()), Err(kind))
                },
            },
    {
        let credits = match plan_deduction(
            self.credit_sheet.get(item, blockchain),
            available_balance,
        ) {
            Ok(credits) => credits,
            Err(kind) => {
                return Err(DeductionError::new(item, blockchain, kind));
            },
        };

        #[verifier::truncate]
        let ts = now_millis as u64;
        let txid = uuid_from_pair(ts, nonce);

        Ok(
            PendingDeduction {
                id: TransactionId(txid),
                key: uuid_to_string(&txid),
                user_id: uuid_to_string(&user_id),
                credits,
                item,
                blockchain: blockchain.into_wire(),
                organization: uuid_to_string(&organization_id),
            },
        )
    }

    /// Plan the confirmation of the transaction with the given ID
    #[inline]
    pub fn confirm_deduction(&self, id: TransactionId) -> (confirmation: Confirmation)
        ensures
            confirmation.key@ == uuid_text(id.0),
            confirmation.user_id@.len() == 0,
    {
        Confirmation { key: uuid_to_string(&id.0), user_id: String::new() }
    }

    /// Make of a failed send of a deduction the error about its line item.
    pub fn send_failed(item: I, blockchain: Blockchain, failed: SendError) -> (e: DeductionError<I>)
        ensures
            e.item_spec() == item,
            e.blockchain_spec() == blockchain,
            e.kind_spec() == DeductionErrorKind::Send(failed),
    {
        DeductionError::new(item, blockchain, DeductionErrorKind::Send(failed))
    }
}

} // verus!
