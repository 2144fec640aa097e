use regen_bazaar::address::Address;
use regen_bazaar::ngo::impact_product::{create_impact_product, ImpactProduct};
use regen_bazaar::ngo::marketplace::{ListingStatus, MarketplaceContract, MarketplaceListing, Sale};
use regen_bazaar::ngo::ngo_profile::{NGOProfile, _get_ngo_profile, _register_ngo};
use regen_bazaar::ngo::royalties::{
    RoyaltyContract, RoyaltyInfo, RoyaltySplit, CREATOR_ROYALTY, MARKETPLACE_ROYALTY,
};
use regen_bazaar::ngo::storage::{Record, Storage};
use regen_bazaar::ngo::verification::{
    approve_product, get_pending_products, reject_product, submit_for_verification,
    VerificationQueue, VerificationStatus,
};
use regen_bazaar::ngo::{NGOContract, NgoError, MARKETPLACE_FEE};

fn ngo() -> Address {
    Address::account(7, 1)
}

fn someone() -> Address {
    Address::account(7, 2)
}

fn wallet() -> Address {
    Address::account(7, 3)
}

#[test]
fn ngo_initialize_once() {
    let mut env = Storage::new();
    assert_eq!(env.admin(), None);
    assert_eq!(env.counter(), None);
    assert_eq!(NGOContract::_check_admin(&env, &ngo()), Err(NgoError::NotInitialized));
    assert_eq!(NGOContract::initialize(&mut env, ngo()), Ok(()));
    assert_eq!(env.admin(), Some(ngo()));
    assert_eq!(env.counter(), Some(0));
    assert_eq!(NGOContract::initialize(&mut env, someone()), Err(NgoError::AlreadyInitialized));
    assert_eq!(env.admin(), Some(ngo()));
    assert_eq!(NGOContract::_check_admin(&env, &ngo()), Ok(()));
    assert_eq!(NGOContract::_check_admin(&env, &someone()), Err(NgoError::Unauthorized));
}

#[test]
fn ngo_initialize_restarts_the_count() {
    let mut env = Storage::new();
    assert_eq!(create_impact_product(&mut env, ngo(), "a".to_string(), 1, 1), 1);
    assert_eq!(NGOContract::initialize(&mut env, ngo()), Ok(()));
    assert_eq!(env.counter(), Some(0));
    assert_eq!(create_impact_product(&mut env, ngo(), "b".to_string(), 2, 2), 1);
    match env.record(1) {
        Some(Record::Product(product)) => assert_eq!(product.metadata_uri, "b"),
        _ => panic!("no product in slot 1"),
    }
}

#[test]
fn create_impact_product_counts_up() {
    let mut env = Storage::new();
    let first = create_impact_product(&mut env, ngo(), "ipfs://one".to_string(), 10, 500);
    let second = create_impact_product(&mut env, someone(), "ipfs://two".to_string(), 20, 700);
    assert_eq!(first, 1);
    assert_eq!(second, 2);
    assert_eq!(env.counter(), Some(2));
    match env.record(1) {
        Some(Record::Product(product)) => assert_eq!(
            product,
            &ImpactProduct {
                creator: ngo(),
                metadata_uri: "ipfs://one".to_string(),
                impact_value: 10,
                price: 500,
                listed: false,
                sold: false,
            }
        ),
        _ => panic!("no product in slot 1"),
    }
    match env.record(2) {
        Some(Record::Product(product)) => assert_eq!(product.creator, someone()),
        _ => panic!("no product in slot 2"),
    }
    assert!(env.record(3).is_none());
}

#[test]
fn list_for_sale_takes_the_products_slot() {
    let mut env = Storage::new();
    let id = create_impact_product(&mut env, ngo(), "ipfs://one".to_string(), 10, 500);
    assert_eq!(
        MarketplaceContract::list_for_sale(&mut env, ngo(), 9, 100),
        Err(NgoError::RecordNotFound)
    );
    assert_eq!(
        MarketplaceContract::list_for_sale(&mut env, someone(), id, 100),
        Err(NgoError::NotOwner)
    );
    assert_eq!(MarketplaceContract::get_product_details(&env, 9), Ok(None));
    assert_eq!(
        MarketplaceContract::get_product_details(&env, id),
        Err(NgoError::WrongRecordKind)
    );
    assert_eq!(MarketplaceContract::list_for_sale(&mut env, ngo(), id, 100), Ok(()));
    assert_eq!(
        MarketplaceContract::get_product_details(&env, id),
        Ok(Some(MarketplaceListing {
            product_id: id,
            seller: ngo(),
            price: 100,
            status: ListingStatus::Unsold,
        }))
    );
    // The slot holds the listing now, no product.
    assert_eq!(
        MarketplaceContract::list_for_sale(&mut env, ngo(), id, 100),
        Err(NgoError::WrongRecordKind)
    );
}

#[test]
fn purchase_nft_sells_once_and_splits_the_price() {
    let mut env = Storage::new();
    let id = create_impact_product(&mut env, ngo(), "ipfs://one".to_string(), 10, 500);
    assert_eq!(
        MarketplaceContract::purchase_nft(&mut env, someone(), id),
        Err(NgoError::WrongRecordKind)
    );
    assert_eq!(
        MarketplaceContract::purchase_nft(&mut env, someone(), 5),
        Err(NgoError::RecordNotFound)
    );
    assert_eq!(MarketplaceContract::list_for_sale(&mut env, ngo(), id, 1_005), Ok(()));
    assert_eq!(
        MarketplaceContract::purchase_nft(&mut env, someone(), id),
        Ok(Sale { buyer: someone(), seller: ngo(), seller_amount: 905, marketplace_fee: 100 })
    );
    assert_eq!(
        MarketplaceContract::get_product_details(&env, id),
        Ok(Some(MarketplaceListing {
            product_id: id,
            seller: ngo(),
            price: 1_005,
            status: ListingStatus::Sold,
        }))
    );
    assert_eq!(
        MarketplaceContract::purchase_nft(&mut env, wallet(), id),
        Err(NgoError::NotForSale)
    );
}

#[test]
fn purchase_nft_at_the_largest_price() {
    let mut env = Storage::new();
    let id = create_impact_product(&mut env, ngo(), "ipfs://one".to_string(), 10, 500);
    assert_eq!(MarketplaceContract::list_for_sale(&mut env, ngo(), id, u32::MAX), Ok(()));
    let sale = MarketplaceContract::purchase_nft(&mut env, someone(), id).unwrap();
    assert_eq!(sale.marketplace_fee, 429_496_729);
    assert_eq!(sale.seller_amount, 3_865_470_566);
    assert_eq!(MARKETPLACE_FEE, 10);
}

#[test]
fn delist_product_is_for_the_seller() {
    let mut env = Storage::new();
    let id = create_impact_product(&mut env, ngo(), "ipfs://one".to_string(), 10, 500);
    assert_eq!(
        MarketplaceContract::delist_product(&mut env, ngo(), id),
        Err(NgoError::WrongRecordKind)
    );
    assert_eq!(
        MarketplaceContract::delist_product(&mut env, ngo(), 40),
        Err(NgoError::RecordNotFound)
    );
    assert_eq!(MarketplaceContract::list_for_sale(&mut env, ngo(), id, 100), Ok(()));
    assert_eq!(
        MarketplaceContract::delist_product(&mut env, someone(), id),
        Err(NgoError::NotSeller)
    );
    assert!(env.record(id).is_some());
    assert_eq!(MarketplaceContract::delist_product(&mut env, ngo(), id), Ok(()));
    assert!(env.record(id).is_none());
    assert_eq!(MarketplaceContract::get_product_details(&env, id), Ok(None));
    // The count of products goes on.
    assert_eq!(create_impact_product(&mut env, ngo(), "ipfs://two".to_string(), 1, 1), 2);
}

#[test]
fn register_and_get_ngo_profile() {
    let mut env = Storage::new();
    assert!(_get_ngo_profile(&env, ngo()).is_none());
    _register_ngo(&mut env, ngo(), "Green".to_string(), "Plants trees".to_string());
    _register_ngo(&mut env, someone(), "Blue".to_string(), "Cleans rivers".to_string());
    assert_eq!(
        _get_ngo_profile(&env, ngo()),
        Some(&NGOProfile {
            owner: ngo(),
            name: "Green".to_string(),
            description: "Plants trees".to_string(),
            total_impact_products: 0,
            total_sold: 0,
            total_earnings: 0,
            verified: false,
        })
    );
    assert_eq!(_get_ngo_profile(&env, someone()).unwrap().name, "Blue");
    assert!(_get_ngo_profile(&env, wallet()).is_none());
    // Registering again replaces the profile.
    _register_ngo(&mut env, ngo(), "Greener".to_string(), "Plants more trees".to_string());
    assert_eq!(_get_ngo_profile(&env, ngo()).unwrap().name, "Greener");
    assert_eq!(_get_ngo_profile(&env, someone()).unwrap().name, "Blue");
    assert_eq!(env.profile(&ngo()).unwrap().description, "Plants more trees");
}

#[test]
fn royalties_are_registered_and_distributed() {
    let mut env = Storage::new();
    assert_eq!(RoyaltyContract::get_royalty_info(&env, 1), Ok(None));
    assert_eq!(
        RoyaltyContract::distribute_royalties(&env, 1, someone(), wallet(), 1_000),
        Err(NgoError::RecordNotFound)
    );
    RoyaltyContract::register_royalty(&mut env, 1, ngo(), wallet());
    assert_eq!(
        RoyaltyContract::get_royalty_info(&env, 1),
        Ok(Some(RoyaltyInfo {
            creator: ngo(),
            marketplace_wallet: wallet(),
            product_id: 1,
            royalty_percentage: 10,
        }))
    );
    assert_eq!(
        RoyaltyContract::distribute_royalties(&env, 1, someone(), Address::account(7, 9), 1_019),
        Ok(RoyaltySplit {
            creator: ngo(),
            creator_fee: 50,
            marketplace_wallet: wallet(),
            marketplace_fee: 50,
            seller: someone(),
            seller_amount: 919,
        })
    );
    assert_eq!(CREATOR_ROYALTY, 5);
    assert_eq!(MARKETPLACE_ROYALTY, 5);
}

#[test]
fn royalties_on_the_largest_price() {
    let mut env = Storage::new();
    RoyaltyContract::register_royalty(&mut env, 3, ngo(), wallet());
    let split =
        RoyaltyContract::distribute_royalties(&env, 3, someone(), wallet(), u64::MAX).unwrap();
    assert_eq!(split.creator_fee, 922_337_203_685_477_580);
    assert_eq!(split.marketplace_fee, 922_337_203_685_477_580);
    assert_eq!(split.creator_fee + split.marketplace_fee + split.seller_amount, u64::MAX);
    let nothing = RoyaltyContract::distribute_royalties(&env, 3, someone(), wallet(), 19).unwrap();
    assert_eq!((nothing.creator_fee, nothing.marketplace_fee, nothing.seller_amount), (0, 0, 19));
}

#[test]
fn royalties_refuse_another_parts_entry() {
    let mut env = Storage::new();
    let id = create_impact_product(&mut env, ngo(), "ipfs://one".to_string(), 10, 500);
    assert_eq!(RoyaltyContract::get_royalty_info(&env, id), Err(NgoError::WrongRecordKind));
    assert_eq!(
        RoyaltyContract::distribute_royalties(&env, id, someone(), wallet(), 100),
        Err(NgoError::WrongRecordKind)
    );
    // Registering takes the slot.
    RoyaltyContract::register_royalty(&mut env, id, ngo(), wallet());
    assert!(RoyaltyContract::get_royalty_info(&env, id).unwrap().is_some());
    assert_eq!(
        MarketplaceContract::list_for_sale(&mut env, ngo(), id, 1),
        Err(NgoError::WrongRecordKind)
    );
}

#[test]
fn verification_goes_from_pending_to_a_decision() {
    let mut env = Storage::new();
    assert_eq!(get_pending_products(&env, 4), Ok(None));
    assert_eq!(approve_product(&mut env, 4, someone()), Err(NgoError::RecordNotFound));
    assert_eq!(reject_product(&mut env, 4, someone()), Err(NgoError::RecordNotFound));
    submit_for_verification(&mut env, 4);
    submit_for_verification(&mut env, 5);
    assert_eq!(
        get_pending_products(&env, 4),
        Ok(Some(VerificationQueue {
            product_id: 4,
            status: VerificationStatus::Pending,
            verifier: None,
        }))
    );
    assert_eq!(approve_product(&mut env, 4, someone()), Ok(()));
    assert_eq!(reject_product(&mut env, 5, wallet()), Ok(()));
    assert_eq!(
        get_pending_products(&env, 4),
        Ok(Some(VerificationQueue {
            product_id: 4,
            status: VerificationStatus::Approved,
            verifier: Some(someone()),
        }))
    );
    assert_eq!(
        get_pending_products(&env, 5),
        Ok(Some(VerificationQueue {
            product_id: 5,
            status: VerificationStatus::Rejected,
            verifier: Some(wallet()),
        }))
    );
    // A decision can be taken again.
    assert_eq!(reject_product(&mut env, 4, wallet()), Ok(()));
    assert_eq!(get_pending_products(&env, 4).unwrap().unwrap().status, VerificationStatus::Rejected);
    assert_eq!(get_pending_products(&env, 4).unwrap().unwrap().verifier, Some(wallet()));
}

#[test]
fn verification_takes_the_products_slot() {
    let mut env = Storage::new();
    let id = create_impact_product(&mut env, ngo(), "ipfs://one".to_string(), 10, 500);
    assert_eq!(get_pending_products(&env, id), Err(NgoError::WrongRecordKind));
    assert_eq!(approve_product(&mut env, id, someone()), Err(NgoError::WrongRecordKind));
    submit_for_verification(&mut env, id);
    assert!(get_pending_products(&env, id).unwrap().is_some());
    assert_eq!(
        MarketplaceContract::list_for_sale(&mut env, ngo(), id, 1),
        Err(NgoError::WrongRecordKind)
    );
}

#[test]
fn storage_holds_what_is_put_into_it() {
    let mut env = Storage::new();
    env.set_admin(ngo());
    env.set_counter(41);
    assert_eq!(env.admin(), Some(ngo()));
    assert_eq!(env.counter(), Some(41));
    assert_eq!(create_impact_product(&mut env, ngo(), "ipfs://x".to_string(), 1, 1), 42);

    let listing = MarketplaceListing {
        product_id: 7,
        seller: someone(),
        price: 30,
        status: ListingStatus::Unsold,
    };
    env.set_record(7, Record::Listing(listing));
    assert_eq!(MarketplaceContract::get_product_details(&env, 7), Ok(Some(listing)));
    // A later entry takes the slot.
    env.set_record(
        7,
        Record::Verification(VerificationQueue {
            product_id: 7,
            status: VerificationStatus::Pending,
            verifier: None,
        }),
    );
    assert_eq!(MarketplaceContract::get_product_details(&env, 7), Err(NgoError::WrongRecordKind));
    assert!(get_pending_products(&env, 7).unwrap().is_some());
    env.remove_record(7);
    assert!(env.record(7).is_none());
    env.remove_record(7);
    assert!(env.record(7).is_none());
    assert!(env.record(42).is_some());

    env.set_profile(NGOProfile {
        owner: wallet(),
        name: "W".to_string(),
        description: String::new(),
        total_impact_products: 3,
        total_sold: 2,
        total_earnings: 1,
        verified: true,
    });
    let profile = env.profile(&wallet()).unwrap();
    assert_eq!(profile.total_impact_products, 3);
    assert!(profile.verified);
    assert!(env.profile(&ngo()).is_none());
}
