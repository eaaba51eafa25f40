use vstd::prelude::*;
use vstd::string::*;

use crate::codec::json_quoted;
use crate::error::WasmError;
use crate::host::{Capability, HostRequest};
use crate::json::{
    array_text,
    encode_array,
    encode_object,
    field_views,
    flag_text,
    null_text,
    object_text,
    optional_text,
    JsonField,
};
use crate::text::{radix_string, radix_text, signed_text, views};
use crate::tokens::{lock_rbt_api_request, mint_ft_api_request, LockRBT, MintFt, TransferFt};

verus! {

pub struct NetworkCoinMintRequest {
    pub did: String,
    pub token_name: String,
    pub symbol: String,
    pub total_supply: u64,
    pub rbt_to_lock: u64,
}

pub struct NetworkCoinMintResponse {
    pub token_address: String,
    pub token_name: String,
    pub symbol: String,
    pub total_supply: u64,
    pub locked_rbt: u64,
}

pub struct NetworkCoinTransferRequest {
    pub token_address: String,
    pub sender: String,
    pub receiver: String,
    pub amount: u64,
    pub comment: String,
}

pub struct NetworkCoinBalanceRequest {
    pub token_address: String,
    pub owner_did: String,
}

pub struct NetworkCoinBalanceResponse {
    pub token_address: String,
    pub token_name: String,
    pub symbol: String,
    pub balance: u64,
}

/// A network coin as the registry keeps it.
pub struct NetworkCoinInfo {
    pub token_address: String,
    pub creator_did: String,
    pub token_name: String,
    pub symbol: String,
    pub total_supply: u64,
    pub locked_rbt: u64,
    pub creation_timestamp: u64,
}

/// The registered network coins, in order of registration; no two share a token address.
pub struct NetworkCoinRegistry {
    pub coins: Vec<NetworkCoinInfo>,
}

pub struct LockRBTRequest {
    pub did: String,
    pub amount: u64,
    pub token_address: String,
}

/// The host's answer to a lock request.
pub struct LockRBTResponse {
    pub transaction_id: String,
    pub status: bool,
    pub message: String,
}

/// The state of an RBT lock.
pub enum LockStatus {
    Active,
    Released,
    Partial(u64),
}

/// A lock of RBT tokens as it is recorded.
pub struct RBTLockRecord {
    pub lock_id: String,
    pub owner_did: String,
    pub network_coin: String,
    pub amount: u64,
    pub timestamp: u64,
    pub status: LockStatus,
}

pub struct TransactionHistoryRequest {
    pub token_address: String,
    pub owner_did: Option<String>,
    pub limit: Option<u32>,
    pub offset: Option<u32>,
}

pub struct TransactionRecord {
    pub transaction_id: String,
    pub token_address: String,
    pub transaction_type: String,
    pub from_did: String,
    pub to_did: String,
    pub amount: u64,
    pub timestamp: u64,
    pub comment: Option<String>,
}

pub struct TransactionHistoryResponse {
    pub transactions: Vec<TransactionRecord>,
    pub total_count: u32,
    pub limit: u32,
    pub offset: u32,
}

pub struct GetAllNetworkCoinsRequest {}

/// The source of unique identifiers: a counter that starts at one.
pub struct IdCounter {
    pub next: u64,
}

/// A network coin, as plain values.
pub struct CoinView {
    pub token_address: Seq<char>,
    pub creator_did: Seq<char>,
    pub token_name: Seq<char>,
    pub symbol: Seq<char>,
    pub total_supply: u64,
    pub locked_rbt: u64,
    pub creation_timestamp: u64,
}

impl View for NetworkCoinInfo {
    type V = CoinView;

    open spec fn view(&self) -> CoinView {
        CoinView {
            token_address: self.token_address@,
            creator_did: self.creator_did@,
            token_name: self.token_name@,
            symbol: self.symbol@,
            total_supply: self.total_supply,
            locked_rbt: self.locked_rbt,
            creation_timestamp: self.creation_timestamp,
        }
    }
}

impl View for NetworkCoinRegistry {
    type V = Seq<CoinView>;

    open spec fn view(&self) -> Seq<CoinView> {
        self.coins@.map_values(|c: NetworkCoinInfo| c@)
    }
}

/// The first coin registered under `addr`.
pub open spec fn lookup(coins: Seq<CoinView>, addr: Seq<char>) -> Option<CoinView>
    decreases coins.len(),
{
    if coins.len() == 0 {
        None
    } else if coins[0].token_address == addr {
        Some(coins[0])
    } else {
        lookup(coins.drop_first(), addr)
    }
}

/// What the balance of `owner` in the coin at `addr` is taken to be: the whole supply for the
/// coin's creator, nothing for anyone else or for an unknown coin.
pub open spec fn mock_balance(coins: Seq<CoinView>, addr: Seq<char>, owner: Seq<char>) -> u64 {
    match lookup(coins, addr) {
        Some(c) => if c.creator_did == owner {
            c.total_supply
        } else {
            0
        },
        None => 0,
    }
}

/// A fresh identifier: `nct_` and the counter in hexadecimal.
pub open spec fn unique_id_text(n: u64) -> Seq<char> {
    "nct_"@ + radix_text(n as nat, 16)
}

/// The counter after one identifier was taken: it wraps around, as an atomic counter does.
pub open spec fn next_id(n: u64) -> u64 {
    if n == u64::MAX {
        0
    } else {
        (n + 1) as u64
    }
}

/// Whether `addr` is registered.
pub open spec fn registered(coins: Seq<CoinView>, addr: Seq<char>) -> bool {
    exists|i: int| 0 <= i < coins.len() && (#[trigger] coins[i]).token_address == addr
}

/// A coin's record in interchange form.
pub open spec fn coin_json(c: CoinView) -> Seq<char> {
    object_text(
        seq![
            ("token_address"@, json_quoted(c.token_address)),
            ("creator_did"@, json_quoted(c.creator_did)),
            ("token_name"@, json_quoted(c.token_name)),
            ("symbol"@, json_quoted(c.symbol)),
            ("total_supply"@, radix_text(c.total_supply as nat, 10)),
            ("locked_rbt"@, radix_text(c.locked_rbt as nat, 10)),
            ("creation_timestamp"@, radix_text(c.creation_timestamp as nat, 10)),
        ],
    )
}

proof fn lemma_lookup_registered(coins: Seq<CoinView>, addr: Seq<char>)
    ensures
        lookup(coins, addr) is Some <==> registered(coins, addr),
        lookup(coins, addr) matches Some(c) ==> c.token_address == addr,
    decreases coins.len(),
{
    if coins.len() > 0 {
        lemma_lookup_registered(coins.drop_first(), addr);
        if registered(coins, addr) && coins[0].token_address != addr {
            let i = choose|i: int| 0 <= i < coins.len() && (#[trigger] coins[i]).token_address == addr;
            assert(coins.drop_first()[i - 1] == coins[i]);
        }
        if registered(coins.drop_first(), addr) {
            let i = choose|i: int|
                0 <= i < coins.drop_first().len() && (#[trigger] coins.drop_first()[i]).token_address
                    == addr;
            assert(coins[i + 1] == coins.drop_first()[i]);
        }
    }
}

impl NetworkCoinInfo {
    /// A copy of this record.
    pub fn duplicate(&self) -> (r: NetworkCoinInfo)
        ensures
            r@ == self@,
    {
        NetworkCoinInfo {
            token_address: self.token_address.clone(),
            creator_did: self.creator_did.clone(),
            token_name: self.token_name.clone(),
            symbol: self.symbol.clone(),
            total_supply: self.total_supply,
            locked_rbt: self.locked_rbt,
            creation_timestamp: self.creation_timestamp,
        }
    }

    pub fn to_json(&self) -> (r: String)
        ensures
            r@ == coin_json(self@),
    {
        let mut fields: Vec<JsonField> = Vec::new();
        fields.push(JsonField::text("token_address", self.token_address.as_str()));
        fields.push(JsonField::text("creator_did", self.creator_did.as_str()));
        fields.push(JsonField::text("token_name", self.token_name.as_str()));
        fields.push(JsonField::text("symbol", self.symbol.as_str()));
        fields.push(JsonField::unsigned("total_supply", self.total_supply));
        fields.push(JsonField::unsigned("locked_rbt", self.locked_rbt));
        fields.push(JsonField::unsigned("creation_timestamp", self.creation_timestamp));
        assert(field_views(fields@) =~= seq![
            ("token_address"@, json_quoted(self.token_address@)),
            ("creator_did"@, json_quoted(self.creator_did@)),
            ("token_name"@, json_quoted(self.token_name@)),
            ("symbol"@, json_quoted(self.symbol@)),
            ("total_supply"@, radix_text(self.total_supply as nat, 10)),
            ("locked_rbt"@, radix_text(self.locked_rbt as nat, 10)),
            ("creation_timestamp"@, radix_text(self.creation_timestamp as nat, 10)),
        ]);
        encode_object(&fields)
    }
}

impl NetworkCoinRegistry {
    /// No two coins share a token address.
    pub open spec fn wf(&self) -> bool {
        forall|i: int, j: int|
            0 <= i < j < self@.len() ==> (#[trigger] self@[i]).token_address
                != (#[trigger] self@[j]).token_address
    }

    pub fn new() -> (r: NetworkCoinRegistry)
        ensures
            r.wf(),
            r@.len() == 0,
    {
        NetworkCoinRegistry { coins: Vec::new() }
    }
}

impl IdCounter {
    pub fn new() -> (r: IdCounter)
        ensures
            r.next == 1,
    {
        IdCounter { next: 1 }
    }
}

/// Takes the next identifier from the counter.
pub fn generate_unique_id(counter: &mut IdCounter) -> (r: String)
    ensures
        r@ == unique_id_text(old(counter).next),
        final(counter).next == next_id(old(counter).next),
{
    let id = counter.next;
    counter.next = if id == u64::MAX {
        0
    } else {
        id + 1
    };
    let mut s = String::from_str("nct_");
    let digits = radix_string(id, 16);
    s.append(digits.as_str());
    s
}

/// Looks up the coin registered under `token_address`.
pub fn get_coin_from_registry(registry: &NetworkCoinRegistry, token_address: &str) -> (r: Option<
    NetworkCoinInfo,
>)
    ensures
        match r {
            Some(c) => lookup(registry@, token_address@) == Some(c@),
            None => lookup(registry@, token_address@) is None,
        },
{
    let key = String::from_str(token_address);
    let mut i: usize = 0;
    assert(registry@.subrange(0, registry@.len() as int) =~= registry@);
    while i < registry.coins.len()
        invariant
            i <= registry@.len(),
            registry@.len() == registry.coins@.len(),
            key@ == token_address@,
            lookup(registry@, token_address@) == lookup(
                registry@.subrange(i as int, registry@.len() as int),
                token_address@,
            ),
        decreases registry.coins.len() - i,
    {
        let ghost rest = registry@.subrange(i as int, registry@.len() as int);
        assert(rest[0] == registry.coins@[i as int]@);
        if registry.coins[i].token_address == key {
            return Some(registry.coins[i].duplicate());
        }
        assert(rest.drop_first() =~= registry@.subrange(i as int + 1, registry@.len() as int));
        i = i + 1;
    }
    None
}

/// The balance the registry reports for `owner_did` in the coin at `token_address`.
pub fn get_mock_balance(registry: &NetworkCoinRegistry, token_address: &str, owner_did: &str) -> (r:
    u64)
    ensures
        r == mock_balance(registry@, token_address@, owner_did@),
{
    if let Some(coin_info) = get_coin_from_registry(registry, token_address) {
        let owner = String::from_str(owner_did);
        if coin_info.creator_did == owner {
            return coin_info.total_supply;
        }
    }
    0
}

/// Registers a coin, refusing a token address that is already registered.
pub fn add_coin_to_registry(registry: &mut NetworkCoinRegistry, coin_info: NetworkCoinInfo) -> (r:
    Result<(), WasmError>)
    requires
        old(registry).wf(),
    ensures
        final(registry).wf(),
        r is Ok <==> !registered(old(registry)@, coin_info@.token_address),
        r is Ok ==> final(registry)@ == old(registry)@.push(coin_info@),
        r matches Err(e) ==> (e.msg@ == "A coin with this address already exists"@
            && final(registry)@ == old(registry)@),
{
    proof {
        lemma_lookup_registered(registry@, coin_info.token_address@);
    }
    if get_coin_from_registry(registry, coin_info.token_address.as_str()).is_some() {
        return Err(WasmError::from_text("A coin with this address already exists"));
    }
    let ghost added = coin_info@;
    registry.coins.push(coin_info);
    assert(registry@ =~= old(registry)@.push(added));
    Ok(())
}

/// Registers a coin created at time `now` (seconds since the epoch).
pub fn register_network_coin(
    registry: &mut NetworkCoinRegistry,
    token_address: String,
    creator_did: String,
    token_name: String,
    symbol: String,
    total_supply: u64,
    locked_rbt: u64,
    now: u64,
) -> (r: Result<(), WasmError>)
    requires
        old(registry).wf(),
    ensures
        final(registry).wf(),
        r is Ok <==> !registered(old(registry)@, token_address@),
        r is Ok ==> final(registry)@ == old(registry)@.push(
            CoinView {
                token_address: token_address@,
                creator_did: creator_did@,
                token_name: token_name@,
                symbol: symbol@,
                total_supply,
                locked_rbt,
                creation_timestamp: now,
            },
        ),
        r matches Err(e) ==> (e.msg@ == "A coin with this address already exists"@
            && final(registry)@ == old(registry)@),
{
    let coin_info = NetworkCoinInfo {
        token_address,
        creator_did,
        token_name,
        symbol,
        total_supply,
        locked_rbt,
        creation_timestamp: now,
    };
    add_coin_to_registry(registry, coin_info)
}

/// A transaction record in interchange form.
pub open spec fn record_json(t: TransactionRecord) -> Seq<char> {
    object_text(
        seq![
            ("transaction_id"@, json_quoted(t.transaction_id@)),
            ("token_address"@, json_quoted(t.token_address@)),
            ("transaction_type"@, json_quoted(t.transaction_type@)),
            ("from_did"@, json_quoted(t.from_did@)),
            ("to_did"@, json_quoted(t.to_did@)),
            ("amount"@, radix_text(t.amount as nat, 10)),
            ("timestamp"@, radix_text(t.timestamp as nat, 10)),
            ("comment"@, optional_text(
                match t.comment {
                    Some(c) => Some(c@),
                    None => None,
                },
            )),
        ],
    )
}

/// The interchange forms of a sequence of transaction records.
pub open spec fn record_jsons(ts: Seq<TransactionRecord>) -> Seq<Seq<char>> {
    ts.map_values(|t: TransactionRecord| record_json(t))
}

impl TransactionRecord {
    pub fn to_json(&self) -> (r: String)
        ensures
            r@ == record_json(*self),
    {
        let mut fields: Vec<JsonField> = Vec::new();
        fields.push(JsonField::text("transaction_id", self.transaction_id.as_str()));
        fields.push(JsonField::text("token_address", self.token_address.as_str()));
        fields.push(JsonField::text("transaction_type", self.transaction_type.as_str()));
        fields.push(JsonField::text("from_did", self.from_did.as_str()));
        fields.push(JsonField::text("to_did", self.to_did.as_str()));
        fields.push(JsonField::unsigned("amount", self.amount));
        fields.push(JsonField::unsigned("timestamp", self.timestamp));
        fields.push(JsonField::optional_text("comment", &self.comment));
        assert(field_views(fields@) =~= seq![
            ("transaction_id"@, json_quoted(self.transaction_id@)),
            ("token_address"@, json_quoted(self.token_address@)),
            ("transaction_type"@, json_quoted(self.transaction_type@)),
            ("from_did"@, json_quoted(self.from_did@)),
            ("to_did"@, json_quoted(self.to_did@)),
            ("amount"@, radix_text(self.amount as nat, 10)),
            ("timestamp"@, radix_text(self.timestamp as nat, 10)),
            ("comment"@, optional_text(
                match self.comment {
                    Some(c) => Some(c@),
                    None => None,
                },
            )),
        ]);
        encode_object(&fields)
    }
}

impl TransactionHistoryResponse {
    pub open spec fn json(&self) -> Seq<char> {
        object_text(
            seq![
                ("transactions"@, array_text(record_jsons(self.transactions@))),
                ("total_count"@, radix_text(self.total_count as nat, 10)),
                ("limit"@, radix_text(self.limit as nat, 10)),
                ("offset"@, radix_text(self.offset as nat, 10)),
            ],
        )
    }

    pub fn to_json(&self) -> (r: String)
        ensures
            r@ == self.json(),
    {
        let mut items: Vec<String> = Vec::new();
        let mut i: usize = 0;
        while i < self.transactions.len()
            invariant
                i <= self.transactions@.len(),
                views(items@) =~= record_jsons(self.transactions@.take(i as int)),
            decreases self.transactions@.len() - i,
        {
            let ghost before = items@;
            items.push(self.transactions[i].to_json());
            proof {
                assert(self.transactions@.take(i as int + 1) =~= self.transactions@.take(
                    i as int,
                ).push(self.transactions@[i as int]));
                assert(views(items@) =~= views(before).push(items@[i as int]@));
            }
            i = i + 1;
        }
        assert(self.transactions@.take(self.transactions@.len() as int) =~= self.transactions@);
        let mut fields: Vec<JsonField> = Vec::new();
        fields.push(JsonField::raw("transactions", encode_array(&items)));
        fields.push(JsonField::unsigned("total_count", self.total_count as u64));
        fields.push(JsonField::unsigned("limit", self.limit as u64));
        fields.push(JsonField::unsigned("offset", self.offset as u64));
        assert(field_views(fields@) =~= seq![
            ("transactions"@, array_text(record_jsons(self.transactions@))),
            ("total_count"@, radix_text(self.total_count as nat, 10)),
            ("limit"@, radix_text(self.limit as nat, 10)),
            ("offset"@, radix_text(self.offset as nat, 10)),
        ]);
        encode_object(&fields)
    }
}

impl LockRBTResponse {
    pub open spec fn json(&self) -> Seq<char> {
        object_text(
            seq![
                ("transaction_id"@, json_quoted(self.transaction_id@)),
                ("status"@, flag_text(self.status)),
                ("message"@, json_quoted(self.message@)),
            ],
        )
    }

    pub fn to_json(&self) -> (r: String)
        ensures
            r@ == self.json(),
    {
        let mut fields: Vec<JsonField> = Vec::new();
        fields.push(JsonField::text("transaction_id", self.transaction_id.as_str()));
        fields.push(JsonField::flag("status", self.status));
        fields.push(JsonField::text("message", self.message.as_str()));
        assert(field_views(fields@) =~= seq![
            ("transaction_id"@, json_quoted(self.transaction_id@)),
            ("status"@, flag_text(self.status)),
            ("message"@, json_quoted(self.message@)),
        ]);
        encode_object(&fields)
    }
}

impl NetworkCoinMintResponse {
    pub open spec fn json(&self) -> Seq<char> {
        object_text(
            seq![
                ("token_address"@, json_quoted(self.token_address@)),
                ("token_name"@, json_quoted(self.token_name@)),
                ("symbol"@, json_quoted(self.symbol@)),
                ("total_supply"@, radix_text(self.total_supply as nat, 10)),
                ("locked_rbt"@, radix_text(self.locked_rbt as nat, 10)),
            ],
        )
    }

    pub fn to_json(&self) -> (r: String)
        ensures
            r@ == self.json(),
    {
        let mut fields: Vec<JsonField> = Vec::new();
        fields.push(JsonField::text("token_address", self.token_address.as_str()));
        fields.push(JsonField::text("token_name", self.token_name.as_str()));
        fields.push(JsonField::text("symbol", self.symbol.as_str()));
        fields.push(JsonField::unsigned("total_supply", self.total_supply));
        fields.push(JsonField::unsigned("locked_rbt", self.locked_rbt));
        assert(field_views(fields@) =~= seq![
            ("token_address"@, json_quoted(self.token_address@)),
            ("token_name"@, json_quoted(self.token_name@)),
            ("symbol"@, json_quoted(self.symbol@)),
            ("total_supply"@, radix_text(self.total_supply as nat, 10)),
            ("locked_rbt"@, radix_text(self.locked_rbt as nat, 10)),
        ]);
        encode_object(&fields)
    }
}

impl NetworkCoinBalanceResponse {
    pub open spec fn json(&self) -> Seq<char> {
        object_text(
            seq![
                ("token_address"@, json_quoted(self.token_address@)),
                ("token_name"@, json_quoted(self.token_name@)),
                ("symbol"@, json_quoted(self.symbol@)),
                ("balance"@, radix_text(self.balance as nat, 10)),
            ],
        )
    }

    pub fn to_json(&self) -> (r: String)
        ensures
            r@ == self.json(),
    {
        let mut fields: Vec<JsonField> = Vec::new();
        fields.push(JsonField::text("token_address", self.token_address.as_str()));
        fields.push(JsonField::text("token_name", self.token_name.as_str()));
        fields.push(JsonField::text("symbol", self.symbol.as_str()));
        fields.push(JsonField::unsigned("balance", self.balance));
        assert(field_views(fields@) =~= seq![
            ("token_address"@, json_quoted(self.token_address@)),
            ("token_name"@, json_quoted(self.token_name@)),
            ("symbol"@, json_quoted(self.symbol@)),
            ("balance"@, radix_text(self.balance as nat, 10)),
        ]);
        encode_object(&fields)
    }
}

/// The mock history of a coin: one mint record of its whole supply to its creator, or nothing
/// for an unknown coin. Taking the record's identifier advances the counter.
pub fn get_mock_transactions(
    registry: &NetworkCoinRegistry,
    ids: &mut IdCounter,
    request: &TransactionHistoryRequest,
) -> (r: Vec<TransactionRecord>)
    ensures
        match lookup(registry@, request.token_address@) {
            Some(c) => {
                &&& r@.len() == 1
                &&& r@[0].transaction_id@ == "tx_"@ + unique_id_text(old(ids).next)
                &&& r@[0].token_address@ == request.token_address@
                &&& r@[0].transaction_type@ == "mint"@
                &&& r@[0].from_did@ == "system"@
                &&& r@[0].to_did@ == c.creator_did
                &&& r@[0].amount == c.total_supply
                &&& r@[0].timestamp == c.creation_timestamp
                &&& r@[0].comment is None
                &&& final(ids).next == next_id(old(ids).next)
            },
            None => r@.len() == 0 && final(ids).next == old(ids).next,
        },
{
    let mut transactions: Vec<TransactionRecord> = Vec::new();
    if let Some(coin_info) = get_coin_from_registry(registry, request.token_address.as_str()) {
        let mut transaction_id = String::from_str("tx_");
        let id = generate_unique_id(ids);
        transaction_id.append(id.as_str());
        let mint_transaction = TransactionRecord {
            transaction_id,
            token_address: request.token_address.clone(),
            transaction_type: String::from_str("mint"),
            from_did: String::from_str("system"),
            to_did: coin_info.creator_did,
            amount: coin_info.total_supply,
            timestamp: coin_info.creation_timestamp,
            comment: None,
        };
        transactions.push(mint_transaction);
    }
    transactions
}

/// Asks the host to lock `request.amount` RBT tokens against a network coin; the amount must be
/// positive.
pub fn lock_rbt(request: LockRBTRequest) -> (r: Result<HostRequest, WasmError>)
    ensures
        r is Ok <==> request.amount > 0,
        r matches Err(e) ==> e.msg@ == "RBT amount must be greater than zero"@,
        r matches Ok(h) ==> h.capability == Capability::LockRbt && h.payload@ == (LockRBT {
            did: request.did,
            amount: request.amount,
            token_address: request.token_address,
        }).json(),
{
    if request.amount == 0 {
        return Err(WasmError::from_text("RBT amount must be greater than zero"));
    }
    let lock_request = LockRBT {
        did: request.did,
        amount: request.amount,
        token_address: request.token_address,
    };
    Ok(lock_rbt_api_request(&lock_request))
}

/// What a lock reports once the host has confirmed it: the confirmation itself when the lock
/// took hold, its message as an error otherwise.
pub fn lock_rbt_outcome(response: &LockRBTResponse) -> (r: Result<String, WasmError>)
    ensures
        r is Ok <==> response.status,
        r matches Ok(s) ==> s@ == response.json(),
        r matches Err(e) ==> e.msg@ == "RBT locking failed: "@ + response.message@,
{
    if response.status {
        Ok(response.to_json())
    } else {
        let mut s = String::from_str("RBT locking failed: ");
        s.append(response.message.as_str());
        Err(WasmError::new(s))
    }
}

/// The error for a lock confirmation that could not be read.
pub fn lock_parse_error(detail: &str) -> (r: WasmError)
    ensures
        r.msg@ == "Failed to parse lock response: "@ + detail@,
{
    let mut s = String::from_str("Failed to parse lock response: ");
    s.append(detail);
    WasmError::new(s)
}

/// A coin creation under way: the address chosen for the coin and the lock to ask for first.
pub struct CoinCreation {
    pub token_address: String,
    pub lock: HostRequest,
}

/// The first step of creating a network coin: the request is checked (name, symbol, supply and
/// lock amount, in that order), an address is taken from the counter, and the lock of
/// `rbt_to_lock` RBT tokens against it is asked for.
pub fn create_network_coin(request: &NetworkCoinMintRequest, ids: &mut IdCounter) -> (r: Result<
    CoinCreation,
    WasmError,
>)
    ensures
        r is Ok <==> (request.token_name@.len() > 0 && request.symbol@.len() > 0
            && request.total_supply > 0 && request.rbt_to_lock > 0),
        request.token_name@.len() == 0 ==> (r matches Err(e) && e.msg@
            == "Token name cannot be empty"@),
        request.token_name@.len() > 0 && request.symbol@.len() == 0 ==> (r matches Err(e)
            && e.msg@ == "Token symbol cannot be empty"@),
        request.token_name@.len() > 0 && request.symbol@.len() > 0 && request.total_supply == 0
            ==> (r matches Err(e) && e.msg@ == "Total supply must be greater than zero"@),
        request.token_name@.len() > 0 && request.symbol@.len() > 0 && request.total_supply > 0
            && request.rbt_to_lock == 0 ==> (r matches Err(e) && e.msg@
            == "RBT to lock must be greater than zero"@),
        r is Err ==> final(ids).next == old(ids).next,
        r matches Ok(c) ==> {
            &&& final(ids).next == next_id(old(ids).next)
            &&& c.token_address@ == "nct_"@ + unique_id_text(old(ids).next)
            &&& c.lock.capability == Capability::LockRbt
            &&& c.lock.payload@ == (LockRBT {
                did: request.did,
                amount: request.rbt_to_lock,
                token_address: c.token_address,
            }).json()
        },
{
    if request.token_name.as_str().is_empty() {
        return Err(WasmError::from_text("Token name cannot be empty"));
    }
    if request.symbol.as_str().is_empty() {
        return Err(WasmError::from_text("Token symbol cannot be empty"));
    }
    if request.total_supply == 0 {
        return Err(WasmError::from_text("Total supply must be greater than zero"));
    }
    if request.rbt_to_lock == 0 {
        return Err(WasmError::from_text("RBT to lock must be greater than zero"));
    }
    let mut token_address = String::from_str("nct_");
    let id = generate_unique_id(ids);
    token_address.append(id.as_str());
    let lock_request = LockRBTRequest {
        did: request.did.clone(),
        amount: request.rbt_to_lock,
        token_address: token_address.clone(),
    };
    match lock_rbt(lock_request) {
        Ok(lock) => Ok(CoinCreation { token_address, lock }),
        Err(e) => Err(e),
    }
}

/// The second step of creating a network coin, once the lock took hold: the mint of the whole
/// supply as one fungible token type.
pub fn coin_mint_request(request: &NetworkCoinMintRequest) -> (r: HostRequest)
    ensures
        r.capability == Capability::MintFt,
        r.payload@ == (MintFt {
            did: request.did,
            ft_count: request.total_supply as i32,
            ft_name: request.token_name,
            token_count: 1,
        }).json(),
{
    let mint_request = MintFt {
        did: request.did.clone(),
        ft_count: request.total_supply as i32,
        ft_name: request.token_name.clone(),
        token_count: 1,
    };
    mint_ft_api_request(&mint_request)
}

/// The last step of creating a network coin: after the mint, the coin is registered at time
/// `now` and described; a failed mint or a taken address is reported.
pub fn finish_create_network_coin(
    registry: &mut NetworkCoinRegistry,
    request: &NetworkCoinMintRequest,
    token_address: String,
    minted: Result<String, WasmError>,
    now: u64,
) -> (r: Result<String, WasmError>)
    requires
        old(registry).wf(),
    ensures
        final(registry).wf(),
        minted matches Err(e) ==> (r matches Err(w) && w.msg@ == "Failed to mint network coin: "@
            + e.msg@ && final(registry)@ == old(registry)@),
        minted is Ok && registered(old(registry)@, token_address@) ==> (r matches Err(w) && w.msg@
            == "A coin with this address already exists"@ && final(registry)@ == old(registry)@),
        minted is Ok && !registered(old(registry)@, token_address@) ==> {
            &&& final(registry)@ == old(registry)@.push(
                CoinView {
                    token_address: token_address@,
                    creator_did: request.did@,
                    token_name: request.token_name@,
                    symbol: request.symbol@,
                    total_supply: request.total_supply,
                    locked_rbt: request.rbt_to_lock,
                    creation_timestamp: now,
                },
            )
            &&& r matches Ok(s) && s@ == (NetworkCoinMintResponse {
                token_address: token_address,
                token_name: request.token_name,
                symbol: request.symbol,
                total_supply: request.total_supply,
                locked_rbt: request.rbt_to_lock,
            }).json()
        },
{
    match minted {
        Err(e) => {
            let mut s = String::from_str("Failed to mint network coin: ");
            s.append(e.msg.as_str());
            Err(WasmError::new(s))
        },
        Ok(_) => {
            let registered = register_network_coin(
                registry,
                token_address.clone(),
                request.did.clone(),
                request.token_name.clone(),
                request.symbol.clone(),
                request.total_supply,
                request.rbt_to_lock,
                now,
            );
            if let Err(e) = registered {
                return Err(e);
            }
            let network_coin_response = NetworkCoinMintResponse {
                token_address,
                token_name: request.token_name.clone(),
                symbol: request.symbol.clone(),
                total_supply: request.total_supply,
                locked_rbt: request.rbt_to_lock,
            };
            Ok(network_coin_response.to_json())
        },
    }
}

/// The balance of `owner_did` in a registered coin, with the coin's name and symbol.
pub fn get_token_balance(registry: &NetworkCoinRegistry, request: NetworkCoinBalanceRequest) -> (r:
    Result<String, WasmError>)
    ensures
        r is Ok <==> lookup(registry@, request.token_address@) is Some,
        r matches Err(e) ==> e.msg@ == "Network coin not found"@,
        r matches Ok(s) ==> s@ == object_text(
            seq![
                ("token_address"@, json_quoted(request.token_address@)),
                ("token_name"@, json_quoted(lookup(registry@, request.token_address@)->0.token_name)),
                ("symbol"@, json_quoted(lookup(registry@, request.token_address@)->0.symbol)),
                ("balance"@, radix_text(
                    mock_balance(registry@, request.token_address@, request.owner_did@) as nat,
                    10,
                )),
            ],
        ),
{
    let coin_info = match get_coin_from_registry(registry, request.token_address.as_str()) {
        Some(c) => c,
        None => {
            return Err(WasmError::from_text("Network coin not found"));
        },
    };
    let balance = get_mock_balance(
        registry,
        request.token_address.as_str(),
        request.owner_did.as_str(),
    );
    let balance_response = NetworkCoinBalanceResponse {
        token_address: request.token_address,
        token_name: coin_info.token_name,
        symbol: coin_info.symbol,
        balance,
    };
    Ok(balance_response.to_json())
}

/// Asks the host to transfer `amount` of a registered coin from a sender who holds at least
/// that much.
pub fn transfer_network_coin(registry: &NetworkCoinRegistry, request: NetworkCoinTransferRequest) -> (r:
    Result<HostRequest, WasmError>)
    ensures
        lookup(registry@, request.token_address@) is None ==> (r matches Err(e) && e.msg@
            == "Network coin not found"@),
        lookup(registry@, request.token_address@) is Some && mock_balance(
            registry@,
            request.token_address@,
            request.sender@,
        ) < request.amount ==> (r matches Err(e) && e.msg@ == "Insufficient balance"@),
        r is Ok <==> (lookup(registry@, request.token_address@) is Some && mock_balance(
            registry@,
            request.token_address@,
            request.sender@,
        ) >= request.amount),
        r matches Ok(h) ==> h.capability == Capability::TransferFt && h.payload@ == object_text(
            seq![
                ("comment"@, json_quoted(request.comment@)),
                ("ft_count"@, signed_text((request.amount as i32) as int)),
                ("ft_name"@, json_quoted(lookup(registry@, request.token_address@)->0.token_name)),
                ("creator_did"@, json_quoted(
                    lookup(registry@, request.token_address@)->0.creator_did,
                )),
                ("sender"@, json_quoted(request.sender@)),
                ("receiver"@, json_quoted(request.receiver@)),
            ],
        ),
{
    let coin_info = match get_coin_from_registry(registry, request.token_address.as_str()) {
        Some(c) => c,
        None => {
            return Err(WasmError::from_text("Network coin not found"));
        },
    };
    let sender_balance = get_mock_balance(
        registry,
        request.token_address.as_str(),
        request.sender.as_str(),
    );
    if sender_balance < request.amount {
        return Err(WasmError::from_text("Insufficient balance"));
    }
    let transfer_request = TransferFt {
        comment: request.comment,
        ft_count: request.amount as i32,
        ft_name: coin_info.token_name,
        creator_did: coin_info.creator_did,
        sender: request.sender,
        receiver: request.receiver,
    };
    Ok(crate::tokens::transfer_ft_api_request(&transfer_request))
}

/// The history of a registered coin, with the page bounds asked for (ten and zero by default).
pub fn get_transaction_history(
    registry: &NetworkCoinRegistry,
    ids: &mut IdCounter,
    request: TransactionHistoryRequest,
) -> (r: Result<String, WasmError>)
    ensures
        r is Ok <==> lookup(registry@, request.token_address@) is Some,
        r matches Err(e) ==> e.msg@ == "Network coin not found"@ && final(ids).next == old(ids).next,
        r matches Ok(s) ==> {
            let c = lookup(registry@, request.token_address@)->0;
            &&& final(ids).next == next_id(old(ids).next)
            &&& s@ == object_text(
                seq![
                    ("transactions"@, array_text(seq![object_text(
                        seq![
                            ("transaction_id"@, json_quoted("tx_"@ + unique_id_text(old(ids).next))),
                            ("token_address"@, json_quoted(request.token_address@)),
                            ("transaction_type"@, json_quoted("mint"@)),
                            ("from_did"@, json_quoted("system"@)),
                            ("to_did"@, json_quoted(c.creator_did)),
                            ("amount"@, radix_text(c.total_supply as nat, 10)),
                            ("timestamp"@, radix_text(c.creation_timestamp as nat, 10)),
                            ("comment"@, null_text()),
                        ],
                    )])),
                    ("total_count"@, radix_text(1, 10)),
                    ("limit"@, radix_text(
                        match request.limit {
                            Some(l) => l as nat,
                            None => 10,
                        },
                        10,
                    )),
                    ("offset"@, radix_text(
                        match request.offset {
                            Some(o) => o as nat,
                            None => 0,
                        },
                        10,
                    )),
                ],
            )
        },
{
    if get_coin_from_registry(registry, request.token_address.as_str()).is_none() {
        return Err(WasmError::from_text("Network coin not found"));
    }
    let ghost first = old(ids).next;
    let transactions = get_mock_transactions(registry, ids, &request);
    assert(transactions@.len() == 1);
    let total_count = transactions.len() as u32;
    let limit = match request.limit {
        Some(l) => l,
        None => 10,
    };
    let offset = match request.offset {
        Some(o) => o,
        None => 0,
    };
    let response = TransactionHistoryResponse { transactions, total_count, limit, offset };
    let r = response.to_json();
    proof {
        let c = lookup(registry@, request.token_address@)->0;
        let t = response.transactions@[0];
        assert(record_jsons(response.transactions@) =~= seq![record_json(t)]);
        assert(seq![
            ("transaction_id"@, json_quoted(t.transaction_id@)),
            ("token_address"@, json_quoted(t.token_address@)),
            ("transaction_type"@, json_quoted(t.transaction_type@)),
            ("from_did"@, json_quoted(t.from_did@)),
            ("to_did"@, json_quoted(t.to_did@)),
            ("amount"@, radix_text(t.amount as nat, 10)),
            ("timestamp"@, radix_text(t.timestamp as nat, 10)),
            ("comment"@, optional_text(
                match t.comment {
                    Some(c) => Some(c@),
                    None => None,
                },
            )),
        ] =~= seq![
            ("transaction_id"@, json_quoted("tx_"@ + unique_id_text(first))),
            ("token_address"@, json_quoted(request.token_address@)),
            ("transaction_type"@, json_quoted("mint"@)),
            ("from_did"@, json_quoted("system"@)),
            ("to_did"@, json_quoted(c.creator_did)),
            ("amount"@, radix_text(c.total_supply as nat, 10)),
            ("timestamp"@, radix_text(c.creation_timestamp as nat, 10)),
            ("comment"@, null_text()),
        ]);
        let inner = object_text(
            seq![
                ("transaction_id"@, json_quoted("tx_"@ + unique_id_text(first))),
                ("token_address"@, json_quoted(request.token_address@)),
                ("transaction_type"@, json_quoted("mint"@)),
                ("from_did"@, json_quoted("system"@)),
                ("to_did"@, json_quoted(c.creator_did)),
                ("amount"@, radix_text(c.total_supply as nat, 10)),
                ("timestamp"@, radix_text(c.creation_timestamp as nat, 10)),
                ("comment"@, null_text()),
            ],
        );
        assert(record_json(t) == inner);
        assert(record_jsons(response.transactions@) =~= seq![inner]);
        assert(seq![
            ("transactions"@, array_text(record_jsons(response.transactions@))),
            ("total_count"@, radix_text(response.total_count as nat, 10)),
            ("limit"@, radix_text(response.limit as nat, 10)),
            ("offset"@, radix_text(response.offset as nat, 10)),
        ] =~= seq![
            ("transactions"@, array_text(seq![inner])),
            ("total_count"@, radix_text(1, 10)),
            ("limit"@, radix_text(
                match request.limit {
                    Some(l) => l as nat,
                    None => 10,
                },
                10,
            )),
            ("offset"@, radix_text(
                match request.offset {
                    Some(o) => o as nat,
                    None => 0,
                },
                10,
            )),
        ]);
    }
    Ok(r)
}

/// Every registered coin, in order of registration, as a JSON array.
pub fn get_all_network_coins(registry: &NetworkCoinRegistry, _request: GetAllNetworkCoinsRequest) -> (r:
    Result<String, WasmError>)
    ensures
        r matches Ok(s) && s@ == array_text(registry@.map_values(|c: CoinView| coin_json(c))),
{
    let mut items: Vec<String> = Vec::new();
    let mut i: usize = 0;
    while i < registry.coins.len()
        invariant
            i <= registry@.len(),
            registry@.len() == registry.coins@.len(),
            views(items@) =~= registry@.take(i as int).map_values(|c: CoinView| coin_json(c)),
        decreases registry.coins.len() - i,
    {
        let ghost before = items@;
        items.push(registry.coins[i].to_json());
        proof {
            assert(registry@.take(i as int + 1) =~= registry@.take(i as int).push(
                registry@[i as int],
            ));
            assert(views(items@) =~= views(before).push(items@[i as int]@));
        }
        i = i + 1;
    }
    assert(registry@.take(registry@.len() as int) =~= registry@);
    Ok(encode_array(&items))
}

} // verus!
