use nft_minter::api::Creator;
use nft_minter::api::RoyaltyInfo;
use nft_minter::api::TalisExecMsg;
use nft_minter::contract::Coin;
use nft_minter::contract::ContractConfig;
use nft_minter::contract::NftMintContract;
use nft_minter::contract::NFT;
use nft_minter::contract::Response;
use nft_minter::contract::FEE_SCALE;
use nft_minter::error::ContractError;
use nft_minter::error::PaymentError;

const MINUTE: u64 = 60_000_000_000;
const T0: u64 = 1_571_797_419_879_305_533;

fn coin(amount: u128, denom: &str) -> Coin {
    Coin { denom: denom.to_string(), amount }
}

fn base_config(t0: u64) -> ContractConfig {
    ContractConfig {
        cw_collection: "cw-collection".to_string(),
        withdrawal_address: "admin".to_string(),
        start: t0 + MINUTE,
        end: t0 + 10 * MINUTE,
        fee_partner_fee: FEE_SCALE / 10,
        nfts: vec![NFT {
            metadata: "ipfs://".to_string(),
            price: coin(100, "inj"),
        }],
        royalty: RoyaltyInfo {
            creators: vec![Creator {
                address: "bob".to_string(),
                share: 100,
            }],
            primary_sell_happened: true,
            seller_fee_basis_points: 1000,
        },
    }
}

fn test_start_message(
    mut contract: NftMintContract,
    contract_config: ContractConfig,
) -> NftMintContract {
    assert_eq!(
        contract
            .start(&"alice".to_string(), contract_config.clone())
            .unwrap_err(),
        ContractError::Unauthorized
    );

    contract
        .start(&"admin".to_string(), contract_config.clone())
        .unwrap();

    assert_eq!(
        contract
            .start(&"admin".to_string(), contract_config)
            .unwrap_err(),
        ContractError::ConfigAlreadyExists
    );

    contract
}

#[test]
fn test_contract() {
    let mut contract = NftMintContract::new();
    contract.instantiate("admin".to_string()).unwrap();

    let mut contract = test_start_message(contract, base_config(T0));

    assert_eq!(
        contract
            .mint(&"alice".to_string(), T0, &vec![], 0, 1, None)
            .unwrap_err(),
        ContractError::SaleNoActive
    );

    let now = T0 + 2 * MINUTE;

    assert_eq!(
        contract
            .mint(&"alice".to_string(), now, &vec![], 0, 1, None)
            .unwrap_err(),
        ContractError::PaymentError(PaymentError::NoFunds)
    );

    contract
        .mint(&"alice".to_string(), now, &vec![coin(100, "inj")], 0, 1, None)
        .unwrap();

    assert_eq!(
        contract
            .mint(&"alice".to_string(), now, &vec![coin(100, "inj")], 0, 5, None)
            .unwrap_err(),
        ContractError::PaymentError(PaymentError::NoFunds)
    );

    contract
        .mint(&"alice".to_string(), now, &vec![coin(500, "inj")], 0, 5, None)
        .unwrap();

    let late = now + 11 * MINUTE;

    assert_eq!(
        contract
            .mint(&"alice".to_string(), late, &vec![], 0, 1, None)
            .unwrap_err(),
        ContractError::SaleNoActive
    );
}

fn started_contract() -> NftMintContract {
    let mut contract = NftMintContract::new();
    contract.instantiate("admin".to_string()).unwrap();
    contract
        .start(&"admin".to_string(), base_config(T0))
        .unwrap();
    contract
}

fn mint_uri(resp: &Response, i: usize) -> String {
    let TalisExecMsg::Mint { metadata_uri, .. } = &resp.mints[i].msg;
    metadata_uri.clone()
}

fn mint_owner(resp: &Response, i: usize) -> String {
    let TalisExecMsg::Mint { owner, .. } = &resp.mints[i].msg;
    owner.clone()
}

#[test]
fn end_to_end_scenario() {
    let mut contract = started_contract();
    let now = T0 + 2 * MINUTE;

    let resp = contract
        .mint(&"alice".to_string(), now, &vec![coin(100, "inj")], 0, 1, None)
        .unwrap();
    assert_eq!(contract.count, Some(1));
    assert_eq!(resp.transfers.len(), 2);
    assert_eq!(resp.transfers[0].to_address, "admin");
    assert_eq!(resp.transfers[0].denom, "inj");
    assert_eq!(resp.transfers[0].amount, 10);
    assert_eq!(resp.transfers[1].to_address, "admin");
    assert_eq!(resp.transfers[1].denom, "inj");
    assert_eq!(resp.transfers[1].amount, 90);
    assert_eq!(resp.mints.len(), 1);
    assert_eq!(resp.mints[0].contract_addr, "cw-collection");
    assert!(resp.mints[0].funds.is_empty());
    assert_eq!(mint_uri(&resp, 0), "ipfs://#0");
    assert_eq!(mint_owner(&resp, 0), "alice");

    let resp = contract
        .mint(&"alice".to_string(), now, &vec![coin(500, "inj")], 0, 5, None)
        .unwrap();
    assert_eq!(contract.count, Some(6));
    assert_eq!(resp.transfers[0].amount, 50);
    assert_eq!(resp.transfers[1].amount, 450);
    assert_eq!(resp.mints.len(), 5);
    assert_eq!(mint_uri(&resp, 0), "ipfs://#1");
    assert_eq!(mint_uri(&resp, 4), "ipfs://#5");

    assert_eq!(
        contract
            .mint(
                &"alice".to_string(),
                T0 + 11 * MINUTE,
                &vec![coin(100, "inj")],
                0,
                1,
                None
            )
            .unwrap_err(),
        ContractError::SaleNoActive
    );
    assert_eq!(contract.count, Some(6));
}

#[test]
fn mint_attributes_record_the_purchase() {
    let mut contract = started_contract();
    let resp = contract
        .mint(
            &"alice".to_string(),
            T0 + 2 * MINUTE,
            &vec![coin(500, "inj")],
            0,
            5,
            Some("bob".to_string()),
        )
        .unwrap();

    let attrs: Vec<(&str, &str)> = resp
        .attributes
        .iter()
        .map(|a| (a.key.as_str(), a.value.as_str()))
        .collect();
    assert_eq!(
        attrs,
        vec![
            ("action", "mint"),
            ("address", "alice"),
            ("nft_type", "0"),
            ("amount", "5"),
            ("partner", "bob"),
            ("partner_fee", "50"),
        ]
    );
    assert_eq!(resp.transfers[0].to_address, "bob");
    assert_eq!(resp.transfers[0].amount, 50);
    assert_eq!(resp.transfers[1].to_address, "admin");
    assert_eq!(resp.transfers[1].amount, 450);
}

#[test]
fn window_edges() {
    let mut contract = started_contract();

    // One nanosecond before the window opens.
    assert_eq!(
        contract
            .mint(
                &"alice".to_string(),
                T0 + MINUTE - 1,
                &vec![coin(100, "inj")],
                0,
                1,
                None
            )
            .unwrap_err(),
        ContractError::SaleNoActive
    );

    // Exactly at the start: the purchase succeeds.
    contract
        .mint(
            &"alice".to_string(),
            T0 + MINUTE,
            &vec![coin(100, "inj")],
            0,
            1,
            None,
        )
        .unwrap();

    // Exactly at the end: the purchase fails.
    assert_eq!(
        contract
            .mint(
                &"alice".to_string(),
                T0 + 10 * MINUTE,
                &vec![coin(100, "inj")],
                0,
                1,
                None
            )
            .unwrap_err(),
        ContractError::SaleNoActive
    );
}

#[test]
fn payment_must_be_exact() {
    let mut contract = started_contract();
    let now = T0 + 2 * MINUTE;

    for bad in [99u128, 101] {
        assert_eq!(
            contract
                .mint(&"alice".to_string(), now, &vec![coin(bad, "inj")], 0, 1, None)
                .unwrap_err(),
            ContractError::PaymentError(PaymentError::NoFunds)
        );
        assert_eq!(contract.count, Some(0));
    }

    contract
        .mint(&"alice".to_string(), now, &vec![coin(100, "inj")], 0, 1, None)
        .unwrap();
    assert_eq!(contract.count, Some(1));
}

#[test]
fn payment_rejections() {
    let mut contract = started_contract();
    let now = T0 + 2 * MINUTE;
    let alice = "alice".to_string();

    assert_eq!(
        contract
            .mint(&alice, now, &vec![coin(0, "inj")], 0, 1, None)
            .unwrap_err(),
        ContractError::PaymentError(PaymentError::NoFunds)
    );
    assert_eq!(
        contract
            .mint(
                &alice,
                now,
                &vec![coin(50, "inj"), coin(50, "inj")],
                0,
                1,
                None
            )
            .unwrap_err(),
        ContractError::PaymentError(PaymentError::MultipleDenoms)
    );
    assert_eq!(
        contract
            .mint(&alice, now, &vec![coin(100, "uatom")], 0, 1, None)
            .unwrap_err(),
        ContractError::PaymentError(PaymentError::MissingDenom("inj".to_string()))
    );
    assert_eq!(contract.count, Some(0));
}

#[test]
fn nft_type_out_of_range() {
    let mut contract = started_contract();
    assert_eq!(
        contract
            .mint(
                &"alice".to_string(),
                T0 + 2 * MINUTE,
                &vec![coin(100, "inj")],
                1,
                1,
                None
            )
            .unwrap_err(),
        ContractError::InvalidParam
    );
    assert_eq!(contract.count, Some(0));
}

#[test]
fn missing_state_is_reported() {
    let mut fresh = NftMintContract::new();
    assert_eq!(
        fresh
            .start(&"admin".to_string(), base_config(T0))
            .unwrap_err(),
        ContractError::NotFound
    );
    assert_eq!(
        fresh.stop(&"admin".to_string(), T0).unwrap_err(),
        ContractError::NotFound
    );

    let mut no_sale = NftMintContract::new();
    no_sale.instantiate("admin".to_string()).unwrap();
    assert_eq!(
        no_sale
            .mint(&"alice".to_string(), T0, &vec![coin(100, "inj")], 0, 1, None)
            .unwrap_err(),
        ContractError::NotFound
    );
    assert_eq!(
        no_sale.stop(&"admin".to_string(), T0).unwrap_err(),
        ContractError::NotFound
    );

    // A configuration without its counter is a storage fault surfaced as-is.
    let mut torn = NftMintContract {
        manager: Some("admin".to_string()),
        config: Some(base_config(T0)),
        count: None,
    };
    assert_eq!(
        torn.mint(
            &"alice".to_string(),
            T0 + 2 * MINUTE,
            &vec![coin(100, "inj")],
            0,
            1,
            None
        )
        .unwrap_err(),
        ContractError::NotFound
    );
}

#[test]
fn stop_shortens_the_window() {
    let mut contract = started_contract();
    let now = T0 + 2 * MINUTE;

    assert_eq!(
        contract.stop(&"alice".to_string(), now).unwrap_err(),
        ContractError::Unauthorized
    );

    contract.stop(&"admin".to_string(), now).unwrap();
    assert_eq!(contract.config.as_ref().unwrap().end, now);
    assert_eq!(contract.config.as_ref().unwrap().start, T0 + MINUTE);

    // The sale is closed from the stop time onward.
    assert_eq!(
        contract
            .mint(&"alice".to_string(), now, &vec![coin(100, "inj")], 0, 1, None)
            .unwrap_err(),
        ContractError::SaleNoActive
    );

    // Stopping an already ended sale is rejected.
    assert_eq!(
        contract.stop(&"admin".to_string(), now + 1).unwrap_err(),
        ContractError::SaleNoActive
    );
}

#[test]
fn stop_at_exact_end_is_accepted() {
    let mut contract = started_contract();
    let end = T0 + 10 * MINUTE;
    contract.stop(&"admin".to_string(), end).unwrap();
    assert_eq!(contract.config.as_ref().unwrap().end, end);
}

#[test]
fn fee_rounds_down_and_conserves_payment() {
    // 10% of 105 is 10.5: the partner gets the floor, the withdrawal
    // address keeps the remainder, and nothing is lost.
    let mut config = base_config(T0);
    config.nfts[0].price.amount = 105;
    let mut contract = NftMintContract::new();
    contract.instantiate("admin".to_string()).unwrap();
    contract.start(&"admin".to_string(), config).unwrap();

    let resp = contract
        .mint(
            &"alice".to_string(),
            T0 + 2 * MINUTE,
            &vec![coin(105, "inj")],
            0,
            1,
            Some("bob".to_string()),
        )
        .unwrap();
    assert_eq!(resp.transfers[0].amount, 10);
    assert_eq!(resp.transfers[1].amount, 95);
    assert_eq!(resp.transfers[0].amount + resp.transfers[1].amount, 105);
}

#[test]
fn fee_fraction_edges() {
    // A zero fraction sends everything to the withdrawal address.
    let mut config = base_config(T0);
    config.fee_partner_fee = 0;
    let mut contract = NftMintContract::new();
    contract.instantiate("admin".to_string()).unwrap();
    contract.start(&"admin".to_string(), config).unwrap();
    let resp = contract
        .mint(
            &"alice".to_string(),
            T0 + 2 * MINUTE,
            &vec![coin(100, "inj")],
            0,
            1,
            Some("bob".to_string()),
        )
        .unwrap();
    assert_eq!(resp.transfers[0].amount, 0);
    assert_eq!(resp.transfers[1].amount, 100);

    // A fraction of one sends everything to the partner.
    let mut config = base_config(T0);
    config.fee_partner_fee = FEE_SCALE;
    let mut contract = NftMintContract::new();
    contract.instantiate("admin".to_string()).unwrap();
    contract.start(&"admin".to_string(), config).unwrap();
    let resp = contract
        .mint(
            &"alice".to_string(),
            T0 + 2 * MINUTE,
            &vec![coin(100, "inj")],
            0,
            1,
            Some("bob".to_string()),
        )
        .unwrap();
    assert_eq!(resp.transfers[0].amount, 100);
    assert_eq!(resp.transfers[1].amount, 0);
}

#[test]
fn token_indices_stay_contiguous() {
    let mut config = base_config(T0);
    config.nfts[0].price.amount = 1;
    let mut contract = NftMintContract::new();
    contract.instantiate("admin".to_string()).unwrap();
    contract.start(&"admin".to_string(), config).unwrap();
    let now = T0 + 2 * MINUTE;
    let alice = "alice".to_string();

    let first = contract
        .mint(&alice, now, &vec![coin(7, "inj")], 0, 7, None)
        .unwrap();
    let second = contract
        .mint(&alice, now, &vec![coin(6, "inj")], 0, 6, None)
        .unwrap();
    assert_eq!(contract.count, Some(13));

    let mut uris: Vec<String> = Vec::new();
    for i in 0..first.mints.len() {
        uris.push(mint_uri(&first, i));
    }
    for i in 0..second.mints.len() {
        uris.push(mint_uri(&second, i));
    }
    let expected: Vec<String> = (0u32..13).map(|i| format!("ipfs://#{}", i)).collect();
    assert_eq!(uris, expected);
}

#[test]
fn start_after_stop_still_rejected() {
    // Stopping does not free the configuration slot: a sale exists until
    // the state is rebuilt, so a second start still fails.
    let mut contract = started_contract();
    contract
        .stop(&"admin".to_string(), T0 + 2 * MINUTE)
        .unwrap();
    assert_eq!(
        contract
            .start(&"admin".to_string(), base_config(T0))
            .unwrap_err(),
        ContractError::ConfigAlreadyExists
    );
}
