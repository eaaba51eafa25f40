use rubixwasm::arena::Arena;
use rubixwasm::bidding::{
    decryption_request, place_bid, place_bid_outcome, prefixed_error, DecryptionInputData, PlaceBidReq,
    RevealHighestBidReq,
};
use rubixwasm::codec::{bytes_to_text, decode_text};
use rubixwasm::error::WasmError;
use rubixwasm::export::run_export;
use rubixwasm::generic::{
    add_three_nums, greetings, make_some_api_call, test_vec, AddThreeNumsReq, GetSomeRespReq,
    GreetingsReq, TestVecReq,
};
use rubixwasm::host::{Capability, HostError};
use rubixwasm::network_coin::{
    coin_mint_request, create_network_coin, finish_create_network_coin, generate_unique_id,
    get_all_network_coins, get_coin_from_registry, get_mock_balance, get_mock_transactions,
    get_token_balance, get_transaction_history, lock_parse_error, lock_rbt, lock_rbt_outcome,
    register_network_coin, transfer_network_coin, GetAllNetworkCoinsRequest, IdCounter,
    LockRBTRequest, LockRBTResponse, NetworkCoinBalanceRequest, NetworkCoinMintRequest,
    NetworkCoinRegistry, NetworkCoinTransferRequest, TransactionHistoryRequest,
};
use rubixwasm::onboarding::{get_provider_info, onboarding_provider, OnboardingProvider, ProviderInfo};
use rubixwasm::tokens::{
    check_nft_transfer, is_allow_listed, mint_sample_ft, mint_sample_nft, transfer_sample_ft, CreateNft,
    MintFt, MintSampleFTReq, MintSampleNFTReq, TransferFt, TransferSampleFTReq,
};

fn mint_ft(name: &str) -> MintSampleFTReq {
    MintSampleFTReq {
        name: name.to_string(),
        ft_info: MintFt { did: "did1".to_string(), ft_count: 5, ft_name: "gold".to_string(), token_count: 1 },
    }
}

#[test]
fn allow_list_holds_two_names() {
    assert!(is_allow_listed("rubix1"));
    assert!(is_allow_listed("rubix2"));
    assert!(!is_allow_listed("rubix3"));
    assert!(!is_allow_listed(""));
}

#[test]
fn unlisted_mint_fails_before_any_host_call() {
    let refused = mint_sample_ft(mint_ft("mallory"));
    let e = refused.err().unwrap();
    assert_eq!(e.msg, "name mallory is not allowed to mint the sample NFT");
    let mut arena = Arena::new();
    let mut host_calls = 0;
    let r = run_export(&mut arena, Some(mint_ft("mallory")), |req| match mint_sample_ft(req) {
        Ok(_) => {
            host_calls += 1;
            Ok(String::new())
        }
        Err(e) => Err(e),
    });
    assert_eq!(r.status, 1);
    assert_eq!(host_calls, 0);
}

#[test]
fn listed_mint_asks_the_host() {
    let h = mint_sample_ft(mint_ft("rubix1")).ok().unwrap();
    assert_eq!(h.capability, Capability::MintFt);
    assert_eq!(h.payload, "{\"did\":\"did1\",\"ft_count\":5,\"ft_name\":\"gold\",\"token_count\":1}");
}

#[test]
fn transfer_and_nft_gates() {
    let req = TransferSampleFTReq {
        name: "eve".to_string(),
        ft_info: TransferFt {
            comment: "c".to_string(),
            ft_count: -1,
            ft_name: "gold".to_string(),
            creator_did: "cd".to_string(),
            sender: "s".to_string(),
            receiver: "r".to_string(),
        },
    };
    assert_eq!(transfer_sample_ft(req).err().unwrap().msg, "name eve is not allowed to transfer sample FTs");
    let req = TransferSampleFTReq {
        name: "rubix2".to_string(),
        ft_info: TransferFt {
            comment: "c".to_string(),
            ft_count: -1,
            ft_name: "gold".to_string(),
            creator_did: "cd".to_string(),
            sender: "s".to_string(),
            receiver: "r".to_string(),
        },
    };
    let h = transfer_sample_ft(req).ok().unwrap();
    assert_eq!(h.capability, Capability::TransferFt);
    assert_eq!(
        h.payload,
        "{\"comment\":\"c\",\"ft_count\":-1,\"ft_name\":\"gold\",\"creator_did\":\"cd\",\"sender\":\"s\",\"receiver\":\"r\"}"
    );
    let nft = MintSampleNFTReq {
        name: "rubix1".to_string(),
        nft_info: CreateNft { did: "d".to_string(), metadata: "m".to_string(), artifact: "a".to_string() },
    };
    let h = mint_sample_nft(nft).ok().unwrap();
    assert_eq!(h.capability, Capability::MintNft);
    assert_eq!(h.payload, "{\"did\":\"d\",\"metadata\":\"m\",\"artifact\":\"a\"}");
    assert_eq!(check_nft_transfer("x").err().unwrap().msg, "name x is not allowed to transfer sample NFTs");
    assert!(check_nft_transfer("rubix2").is_ok());
}

#[test]
fn add_three_nums_sums_exactly() {
    assert_eq!(add_three_nums(AddThreeNumsReq { a: 1, b: 2, c: 3 }).ok(), Some("6".to_string()));
    assert_eq!(
        add_three_nums(AddThreeNumsReq { a: u32::MAX, b: u32::MAX, c: u32::MAX }).ok(),
        Some("12884901885".to_string())
    );
    assert_eq!(
        add_three_nums(AddThreeNumsReq { a: 1, b: 0, c: 3 }).err().unwrap().msg,
        "Parameter 'b' cannot be zero"
    );
}

#[test]
fn test_vec_joins_names() {
    let names = vec!["ann".to_string(), "bob".to_string()];
    assert_eq!(test_vec(TestVecReq { name_list: names }).ok(), Some("ann-bob".to_string()));
    assert_eq!(test_vec(TestVecReq { name_list: Vec::new() }).err().unwrap().msg, "name_list cannot be empty");
}

#[test]
fn greetings_wraps_result_object() {
    let r = greetings(GreetingsReq { name: "Ada".to_string() }).ok().unwrap();
    assert_eq!(r, "{\"result\":\"Hello, Ada\"}");
    let e = greetings(GreetingsReq { name: "Al".to_string() }).err().unwrap();
    assert_eq!(e.msg, "Your name must be alteast 3 characters long");
    assert!(greetings(GreetingsReq { name: "é".to_string() }).is_err());
    assert!(greetings(GreetingsReq { name: "éa".to_string() }).is_ok());
}

#[test]
fn greetings_result_is_decoded_twice_by_the_host() {
    let mut arena = Arena::new();
    let r = run_export(&mut arena, Some(GreetingsReq { name: "Ada".to_string() }), greetings);
    assert_eq!(r.status, 0);
    let p = r.output.unwrap();
    let once = decode_text(&bytes_to_text(arena.read(p.addr).unwrap()).unwrap()).unwrap();
    assert_eq!(once, "{\"result\":\"Hello, Ada\"}");
}

#[test]
fn api_call_sends_the_url() {
    let h = make_some_api_call(GetSomeRespReq { url: "https://x.test/a".to_string() });
    assert_eq!(h.capability, Capability::ApiCall);
    assert_eq!(h.payload, "https://x.test/a");
}

#[test]
fn onboarding_checks_fields_in_order() {
    let p = |a: &str, b: &str| OnboardingProvider {
        provider_did: a.to_string(),
        receiver_did: b.to_string(),
        infrastructure_details: "i".to_string(),
        signature: "s".to_string(),
    };
    assert_eq!(onboarding_provider(p("", "")).err().unwrap().msg, "Platform DID cannot be empty");
    assert_eq!(onboarding_provider(p("a", "")).err().unwrap().msg, "Receiver DID cannot be empty");
    let h = onboarding_provider(p("a", "b")).ok().unwrap();
    assert_eq!(h.capability, Capability::DbWrite);
    let i = |a: &str, b: &str, c: &str, d: &str| ProviderInfo {
        provider_did: a.to_string(),
        provider_name: b.to_string(),
        cpu_provided: c.to_string(),
        gpu_provided: d.to_string(),
    };
    assert_eq!(
        get_provider_info(i("a", "", "c", "d")).err().unwrap().msg,
        "Platform DID and provider name cannot be empty"
    );
    assert_eq!(get_provider_info(i("a", "b", "c", "")).err().unwrap().msg, "CPU and GPU details cannot be empty");
    assert!(get_provider_info(i("a", "b", "c", "d")).is_ok());
}

#[test]
fn bids_are_saved_as_they_came() {
    let req = PlaceBidReq { bidder_did: "bidder".to_string(), encrypted_bid_amount: "ab12".to_string() };
    let h = place_bid(&req);
    assert_eq!(h.capability, Capability::SaveBiddingInfo);
    assert_eq!(h.payload, "{\"bidder_did\":\"bidder\",\"encrypted_bid_amount\":\"ab12\"}");
    assert_eq!(place_bid_outcome(&req, Ok(())).ok(), Some("Bid for did: bidder has been saved".to_string()));
    assert_eq!(
        place_bid_outcome(&req, Err(HostError::HostReturnedCode(4))).err().unwrap().msg,
        "unable to save bidding info: Host function returned error code 4"
    );
}

#[test]
fn decryption_request_decodes_hex() {
    let req = RevealHighestBidReq { deployer_password: "pw".to_string() };
    let h = decryption_request(&req, "01aBff").ok().unwrap();
    assert_eq!(h.capability, Capability::EciesDecryption);
    assert_eq!(h.payload, "{\"Privatekey_path\":\"pw\",\"data\":[1,171,255]}");
    assert_eq!(
        decryption_request(&req, "abc").err().unwrap().msg,
        "Failed to decode encrypted bid from hex"
    );
    assert!(decryption_request(&req, "zz").is_err());
    let d = DecryptionInputData { Privatekey_path: "k".to_string(), data: Vec::new() };
    assert_eq!(d.to_json(), "{\"Privatekey_path\":\"k\",\"data\":[]}");
    let e = prefixed_error("Failed to decrypt bid value: ", WasmError::from_text("x"));
    assert_eq!(e.msg, "Failed to decrypt bid value: x");
}

#[test]
fn unique_ids_count_up_in_hex() {
    let mut ids = IdCounter::new();
    assert_eq!(generate_unique_id(&mut ids), "nct_1");
    ids.next = 255;
    assert_eq!(generate_unique_id(&mut ids), "nct_ff");
    assert_eq!(ids.next, 256);
    ids.next = u64::MAX;
    assert_eq!(generate_unique_id(&mut ids), "nct_ffffffffffffffff");
    assert_eq!(ids.next, 0);
}

fn mint_request() -> NetworkCoinMintRequest {
    NetworkCoinMintRequest {
        did: "org".to_string(),
        token_name: "Coin".to_string(),
        symbol: "CN".to_string(),
        total_supply: 100,
        rbt_to_lock: 5,
    }
}

#[test]
fn network_coin_creation_runs_lock_then_mint() {
    let mut ids = IdCounter::new();
    let mut registry = NetworkCoinRegistry::new();
    let req = mint_request();
    let c = create_network_coin(&req, &mut ids).ok().unwrap();
    assert_eq!(c.token_address, "nct_nct_1");
    assert_eq!(c.lock.capability, Capability::LockRbt);
    assert_eq!(c.lock.payload, "{\"did\":\"org\",\"amount\":5,\"token_address\":\"nct_nct_1\"}");
    let m = coin_mint_request(&req);
    assert_eq!(m.capability, Capability::MintFt);
    assert_eq!(m.payload, "{\"did\":\"org\",\"ft_count\":100,\"ft_name\":\"Coin\",\"token_count\":1}");
    let done = finish_create_network_coin(&mut registry, &req, c.token_address.clone(), Ok("m".to_string()), 77);
    assert_eq!(
        done.ok(),
        Some("{\"token_address\":\"nct_nct_1\",\"token_name\":\"Coin\",\"symbol\":\"CN\",\"total_supply\":100,\"locked_rbt\":5}".to_string())
    );
    let coin = get_coin_from_registry(&registry, "nct_nct_1").unwrap();
    assert_eq!(coin.creation_timestamp, 77);
    let again = finish_create_network_coin(&mut registry, &req, c.token_address, Ok("m".to_string()), 78);
    assert_eq!(again.err().unwrap().msg, "A coin with this address already exists");
    assert_eq!(registry.coins.len(), 1);
}

#[test]
fn network_coin_creation_validates_in_order() {
    let mut ids = IdCounter::new();
    let mut r = mint_request();
    r.token_name = String::new();
    r.symbol = String::new();
    assert_eq!(create_network_coin(&r, &mut ids).err().unwrap().msg, "Token name cannot be empty");
    let mut r = mint_request();
    r.symbol = String::new();
    assert_eq!(create_network_coin(&r, &mut ids).err().unwrap().msg, "Token symbol cannot be empty");
    let mut r = mint_request();
    r.total_supply = 0;
    assert_eq!(create_network_coin(&r, &mut ids).err().unwrap().msg, "Total supply must be greater than zero");
    let mut r = mint_request();
    r.rbt_to_lock = 0;
    assert_eq!(create_network_coin(&r, &mut ids).err().unwrap().msg, "RBT to lock must be greater than zero");
    assert_eq!(ids.next, 1);
    let mut registry = NetworkCoinRegistry::new();
    let failed = finish_create_network_coin(
        &mut registry,
        &mint_request(),
        "a".to_string(),
        Err(WasmError::from_text("no")),
        1,
    );
    assert_eq!(failed.err().unwrap().msg, "Failed to mint network coin: no");
    assert_eq!(registry.coins.len(), 0);
}

#[test]
fn lock_outcomes() {
    let zero = LockRBTRequest { did: "d".to_string(), amount: 0, token_address: "t".to_string() };
    assert_eq!(lock_rbt(zero).err().unwrap().msg, "RBT amount must be greater than zero");
    let ok = LockRBTResponse { transaction_id: "tx".to_string(), status: true, message: "m".to_string() };
    assert_eq!(
        lock_rbt_outcome(&ok).ok(),
        Some("{\"transaction_id\":\"tx\",\"status\":true,\"message\":\"m\"}".to_string())
    );
    let no = LockRBTResponse { transaction_id: "tx".to_string(), status: false, message: "low".to_string() };
    assert_eq!(lock_rbt_outcome(&no).err().unwrap().msg, "RBT locking failed: low");
    assert_eq!(lock_parse_error("eof").msg, "Failed to parse lock response: eof");
}

fn registry_with_coin() -> NetworkCoinRegistry {
    let mut registry = NetworkCoinRegistry::new();
    register_network_coin(
        &mut registry,
        "addr".to_string(),
        "creator".to_string(),
        "Coin".to_string(),
        "CN".to_string(),
        50,
        2,
        9,
    )
    .ok()
    .unwrap();
    registry
}

#[test]
fn balances_come_from_the_registry() {
    let registry = registry_with_coin();
    assert_eq!(get_mock_balance(&registry, "addr", "creator"), 50);
    assert_eq!(get_mock_balance(&registry, "addr", "other"), 0);
    assert_eq!(get_mock_balance(&registry, "none", "creator"), 0);
    let r = get_token_balance(
        &registry,
        NetworkCoinBalanceRequest { token_address: "addr".to_string(), owner_did: "creator".to_string() },
    );
    assert_eq!(
        r.ok(),
        Some("{\"token_address\":\"addr\",\"token_name\":\"Coin\",\"symbol\":\"CN\",\"balance\":50}".to_string())
    );
    let r = get_token_balance(
        &registry,
        NetworkCoinBalanceRequest { token_address: "nope".to_string(), owner_did: "creator".to_string() },
    );
    assert_eq!(r.err().unwrap().msg, "Network coin not found");
}

#[test]
fn transfers_need_a_known_coin_and_balance() {
    let registry = registry_with_coin();
    let t = |addr: &str, sender: &str, amount: u64| NetworkCoinTransferRequest {
        token_address: addr.to_string(),
        sender: sender.to_string(),
        receiver: "rcv".to_string(),
        amount,
        comment: "hi".to_string(),
    };
    assert_eq!(transfer_network_coin(&registry, t("x", "creator", 1)).err().unwrap().msg, "Network coin not found");
    assert_eq!(transfer_network_coin(&registry, t("addr", "creator", 51)).err().unwrap().msg, "Insufficient balance");
    assert_eq!(transfer_network_coin(&registry, t("addr", "other", 1)).err().unwrap().msg, "Insufficient balance");
    let h = transfer_network_coin(&registry, t("addr", "creator", 50)).ok().unwrap();
    assert_eq!(h.capability, Capability::TransferFt);
    assert_eq!(
        h.payload,
        "{\"comment\":\"hi\",\"ft_count\":50,\"ft_name\":\"Coin\",\"creator_did\":\"creator\",\"sender\":\"creator\",\"receiver\":\"rcv\"}"
    );
}

#[test]
fn history_lists_the_mint() {
    let registry = registry_with_coin();
    let mut ids = IdCounter::new();
    let req = TransactionHistoryRequest { token_address: "addr".to_string(), owner_did: None, limit: None, offset: Some(3) };
    let r = get_transaction_history(&registry, &mut ids, req).ok().unwrap();
    assert_eq!(
        r,
        "{\"transactions\":[{\"transaction_id\":\"tx_nct_1\",\"token_address\":\"addr\",\"transaction_type\":\"mint\",\"from_did\":\"system\",\"to_did\":\"creator\",\"amount\":50,\"timestamp\":9,\"comment\":null}],\"total_count\":1,\"limit\":10,\"offset\":3}"
    );
    let req = TransactionHistoryRequest { token_address: "none".to_string(), owner_did: None, limit: Some(1), offset: None };
    assert_eq!(get_transaction_history(&registry, &mut ids, req).err().unwrap().msg, "Network coin not found");
    let req = TransactionHistoryRequest { token_address: "none".to_string(), owner_did: None, limit: None, offset: None };
    assert!(get_mock_transactions(&registry, &mut ids, &req).is_empty());
    assert_eq!(ids.next, 2);
}

#[test]
fn all_coins_are_listed_in_order() {
    let mut registry = registry_with_coin();
    assert_eq!(
        get_all_network_coins(&NetworkCoinRegistry::new(), GetAllNetworkCoinsRequest {}).ok(),
        Some("[]".to_string())
    );
    register_network_coin(&mut registry, "b".to_string(), "c2".to_string(), "B".to_string(), "BB".to_string(), 1, 1, 1)
        .ok()
        .unwrap();
    assert_eq!(
        get_all_network_coins(&registry, GetAllNetworkCoinsRequest {}).ok(),
        Some("[{\"token_address\":\"addr\",\"creator_did\":\"creator\",\"token_name\":\"Coin\",\"symbol\":\"CN\",\"total_supply\":50,\"locked_rbt\":2,\"creation_timestamp\":9},{\"token_address\":\"b\",\"creator_did\":\"c2\",\"token_name\":\"B\",\"symbol\":\"BB\",\"total_supply\":1,\"locked_rbt\":1,\"creation_timestamp\":1}]".to_string())
    );
}
