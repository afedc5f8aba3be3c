use rmrk_proxy::random::{bounded_draw, draw_bounded, draw_input_bytes};
use rmrk_proxy::{
    AccountId, MintAction, MintPhase, OwnableError, ProxyError, ReentrancyGuardError, RemoteEvent,
    RmrkProxy,
};

const PRICE: u128 = 1_000_000_000_000_000_000;
const TIMESTAMP: u64 = 1_700_000_000_000;

fn alice() -> AccountId {
    AccountId::from_bytes([0x01; 32])
}

fn bob() -> AccountId {
    AccountId::from_bytes([0x02; 32])
}

fn rmrk_address() -> AccountId {
    AccountId::from_bytes([0x42; 32])
}

fn catalog_address() -> AccountId {
    AccountId::from_bytes([0x41; 32])
}

fn init_contract() -> RmrkProxy {
    RmrkProxy::new(alice(), rmrk_address(), catalog_address(), PRICE)
}

#[test]
fn constructor_works() {
    let contract = init_contract();
    assert_eq!(contract.rmrk_contract_address(), rmrk_address());
    assert_eq!(contract.catalog_contract_address(), catalog_address());
    assert_eq!(contract.mint_price(), 1_000_000_000_000_000_000);
}

#[test]
fn constructor_sets_owner_and_salt() {
    let contract = init_contract();
    assert_eq!(contract.owner(), alice());
    assert_eq!(contract.proxy.salt, 0);
    assert!(contract.in_flight.is_none());
}

#[test]
fn set_rmrk_contract_address_works() {
    let mut contract = init_contract();
    let new_rmrk = AccountId::from_bytes([0x43; 32]);
    assert!(contract.set_rmrk_contract_address(alice(), new_rmrk).is_ok());
    assert_eq!(contract.rmrk_contract_address(), new_rmrk);
}

#[test]
fn set_rmrk_contract_address_fails_if_not_owner() {
    let mut contract = init_contract();
    let new_rmrk = AccountId::from_bytes([0x43; 32]);
    assert_eq!(
        contract.set_rmrk_contract_address(bob(), new_rmrk),
        Err(ProxyError::OwnableError(OwnableError::CallerIsNotOwner))
    );
    assert_eq!(contract.rmrk_contract_address(), rmrk_address());
}

#[test]
fn set_catalog_contract_address_works() {
    let mut contract = init_contract();
    let new_rmrk = AccountId::from_bytes([0x43; 32]);
    assert!(contract.set_catalog_contract_address(alice(), new_rmrk).is_ok());
    assert_eq!(contract.catalog_contract_address(), new_rmrk);
}

#[test]
fn set_catalog_contract_address_fails_if_not_owner() {
    let mut contract = init_contract();
    let new_rmrk = AccountId::from_bytes([0x43; 32]);
    assert_eq!(
        contract.set_catalog_contract_address(bob(), new_rmrk),
        Err(ProxyError::OwnableError(OwnableError::CallerIsNotOwner))
    );
    assert_eq!(contract.catalog_contract_address(), catalog_address());
}

#[test]
fn set_mint_price_works() {
    let mut contract = init_contract();
    assert!(contract.set_mint_price(alice(), 100).is_ok());
    assert_eq!(contract.mint_price(), 100);
}

#[test]
fn set_mint_price_fails_if_not_owner() {
    let mut contract = init_contract();
    assert_eq!(
        contract.set_mint_price(bob(), 100),
        Err(ProxyError::OwnableError(OwnableError::CallerIsNotOwner))
    );
    assert_eq!(contract.mint_price(), PRICE);
}

#[test]
fn set_mint_price_round_trip() {
    let mut contract = init_contract();
    for v in [0u128, 1, 100, PRICE, u128::MAX] {
        assert!(contract.set_mint_price(alice(), v).is_ok());
        assert_eq!(contract.mint_price(), v);
    }
}

#[test]
fn mint_fails_if_no_balance() {
    let mut contract = init_contract();
    assert_eq!(
        contract.mint(alice(), 0, TIMESTAMP),
        MintAction::Done(Err(ProxyError::BadMintValue))
    );
}

#[test]
fn mint_fails_on_underpayment_and_changes_nothing() {
    let mut contract = init_contract();
    assert_eq!(
        contract.mint(alice(), PRICE - 1, TIMESTAMP),
        MintAction::Done(Err(ProxyError::BadMintValue))
    );
    assert_eq!(
        contract.mint(alice(), PRICE + 1, TIMESTAMP),
        MintAction::Done(Err(ProxyError::BadMintValue))
    );
    assert!(contract.in_flight.is_none());
    assert_eq!(contract.mint_price(), PRICE);
    assert_eq!(contract.proxy.salt, 0);
    assert_eq!(contract.rmrk_contract_address(), rmrk_address());
}

#[test]
fn second_mint_is_refused_while_first_runs() {
    let mut contract = init_contract();
    assert_eq!(
        contract.mint(alice(), PRICE, TIMESTAMP),
        MintAction::QueryTotalAssets { contract: rmrk_address() }
    );
    let reentrant = MintAction::Done(Err(ProxyError::ReentrancyError(
        ReentrancyGuardError::ReentrantCall,
    )));
    assert_eq!(contract.mint(bob(), PRICE, TIMESTAMP), reentrant);
    assert_eq!(contract.mint(bob(), 0, TIMESTAMP), reentrant);
    let session = contract.in_flight.unwrap();
    assert_eq!(session.caller, alice());
    assert_eq!(session.phase, MintPhase::AwaitingTotalAssets);
}

#[test]
fn mint_fails_without_assets() {
    let mut contract = init_contract();
    contract.mint(alice(), PRICE, TIMESTAMP);
    assert_eq!(
        contract.on_remote_event(RemoteEvent::TotalAssets(0)),
        MintAction::Done(Err(ProxyError::NoAssetsDefined))
    );
    assert!(contract.in_flight.is_none());
}

#[test]
fn mint_fails_with_too_many_assets() {
    let mut contract = init_contract();
    contract.mint(alice(), PRICE, TIMESTAMP);
    assert_eq!(
        contract.on_remote_event(RemoteEvent::TotalAssets(256)),
        MintAction::Done(Err(ProxyError::TooManyAssetsDefined))
    );
    assert!(contract.in_flight.is_none());
}

#[test]
fn mint_accepts_the_largest_asset_count() {
    let mut contract = init_contract();
    contract.mint(alice(), PRICE, TIMESTAMP);
    assert_eq!(
        contract.on_remote_event(RemoteEvent::TotalAssets(255)),
        MintAction::Mint { contract: rmrk_address(), value: PRICE }
    );
    contract.on_remote_event(RemoteEvent::Minted(true));
    match contract.on_remote_event(RemoteEvent::TotalSupply(9)) {
        MintAction::AddAssetToToken { token_id, asset_id, .. } => {
            assert_eq!(token_id, 9);
            assert!((1..=255).contains(&asset_id));
        }
        other => panic!("unexpected action {:?}", other),
    }
}

#[test]
fn mint_failure_releases_the_guard() {
    let mut contract = init_contract();
    contract.mint(alice(), PRICE, TIMESTAMP);
    contract.on_remote_event(RemoteEvent::TotalAssets(3));
    assert_eq!(
        contract.on_remote_event(RemoteEvent::Minted(false)),
        MintAction::Done(Err(ProxyError::MintingError))
    );
    assert!(contract.in_flight.is_none());

    contract.mint(alice(), PRICE, TIMESTAMP);
    contract.on_remote_event(RemoteEvent::TotalAssets(3));
    contract.on_remote_event(RemoteEvent::Minted(true));
    contract.on_remote_event(RemoteEvent::TotalSupply(2));
    assert_eq!(
        contract.on_remote_event(RemoteEvent::AssetAdded(false)),
        MintAction::Done(Err(ProxyError::AddTokenAssetError))
    );
    assert!(contract.in_flight.is_none());

    contract.mint(alice(), PRICE, TIMESTAMP);
    contract.on_remote_event(RemoteEvent::TotalAssets(3));
    contract.on_remote_event(RemoteEvent::Minted(true));
    contract.on_remote_event(RemoteEvent::TotalSupply(3));
    contract.on_remote_event(RemoteEvent::AssetAdded(true));
    assert_eq!(
        contract.on_remote_event(RemoteEvent::Transferred(false)),
        MintAction::Done(Err(ProxyError::OwnershipTransferError))
    );
    assert!(contract.in_flight.is_none());
    assert_eq!(contract.proxy.salt, 2);
}

#[test]
fn mint_works() {
    let mut contract = init_contract();
    assert_eq!(
        contract.mint(alice(), PRICE, TIMESTAMP),
        MintAction::QueryTotalAssets { contract: rmrk_address() }
    );
    assert_eq!(
        contract.on_remote_event(RemoteEvent::TotalAssets(3)),
        MintAction::Mint { contract: rmrk_address(), value: PRICE }
    );
    assert_eq!(
        contract.on_remote_event(RemoteEvent::Minted(true)),
        MintAction::QueryTotalSupply { contract: rmrk_address() }
    );
    // keccak256(be(TIMESTAMP) ++ be(0)) starts with 95, and 95 % 3 == 2.
    assert_eq!(
        contract.on_remote_event(RemoteEvent::TotalSupply(1)),
        MintAction::AddAssetToToken { contract: rmrk_address(), token_id: 1, asset_id: 3 }
    );
    assert_eq!(contract.proxy.salt, 1);
    assert_eq!(
        contract.on_remote_event(RemoteEvent::AssetAdded(true)),
        MintAction::Transfer { contract: rmrk_address(), to: alice(), token_id: 1 }
    );
    assert_eq!(contract.on_remote_event(RemoteEvent::Transferred(true)), MintAction::Done(Ok(())));
    assert!(contract.in_flight.is_none());
}

#[test]
fn accepts_only_the_awaited_reply() {
    let mut contract = init_contract();
    assert!(!contract.accepts(&RemoteEvent::TotalAssets(1)));
    contract.mint(alice(), PRICE, TIMESTAMP);
    assert!(contract.accepts(&RemoteEvent::TotalAssets(1)));
    assert!(!contract.accepts(&RemoteEvent::Minted(true)));
    contract.on_remote_event(RemoteEvent::TotalAssets(1));
    assert!(contract.accepts(&RemoteEvent::Minted(true)));
    assert!(!contract.accepts(&RemoteEvent::TotalSupply(1)));
}

#[test]
fn draw_input_is_timestamp_then_salt_big_endian() {
    assert_eq!(
        draw_input_bytes(0x0102030405060708, 0x1112131415161718),
        vec![1, 2, 3, 4, 5, 6, 7, 8, 0x11, 0x12, 0x13, 0x14, 0x15, 0x16, 0x17, 0x18]
    );
}

#[test]
fn bounded_draw_takes_the_remainder() {
    assert_eq!(bounded_draw(244, 255), 244);
    assert_eq!(bounded_draw(244, 2), 1);
    assert_eq!(bounded_draw(7, 0), 0);
    assert_eq!(bounded_draw(255, 254), 0);
    assert_eq!(bounded_draw(255, 255), 255);
}

#[test]
fn draw_hashes_its_input() {
    // keccak256 of sixteen zero bytes starts with 0xf4.
    assert_eq!(draw_bounded(0, 0, 255), 244);
    // and of be(0) ++ be(1) with 0xbb.
    assert_eq!(draw_bounded(0, 1, 255), 187);
    assert_eq!(draw_bounded(TIMESTAMP, 1, 255), 227);
}

#[test]
fn draws_stay_in_range_and_move_the_salt() {
    let mut contract = init_contract();
    for c in 1u32..=256 {
        let max = (c - 1) as u8;
        let before = contract.proxy.salt;
        let r = contract.get_pseudo_random(TIMESTAMP, max);
        assert!(r <= max);
        assert_eq!(contract.proxy.salt, before + 1);
    }
}

#[test]
fn error_from_wraps() {
    assert_eq!(
        ProxyError::from(OwnableError::CallerIsNotOwner),
        ProxyError::OwnableError(OwnableError::CallerIsNotOwner)
    );
    assert_eq!(
        ProxyError::from(ReentrancyGuardError::ReentrantCall),
        ProxyError::ReentrancyError(ReentrancyGuardError::ReentrantCall)
    );
}

#[test]
fn account_id_round_trips_bytes() {
    let a = AccountId::from_bytes([7; 32]);
    assert_eq!(a.to_bytes(), [7; 32]);
    assert_ne!(a, AccountId::from_bytes([8; 32]));
}
