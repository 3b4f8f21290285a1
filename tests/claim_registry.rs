use account_ledger::claims::{Car, Error, Event, Pallet};

pub fn str2vec(s: &str) -> Vec<u8> {
    s.as_bytes().to_vec()
}

fn same_car(a: &Car, b: &Car) -> bool {
    a.chassis_num == b.chassis_num
        && a.brand_name == b.brand_name
        && a.price == b.price
        && a.owner == b.owner
}

#[test]
fn create_claim_works() {
    let mut registry = Pallet::new();
    let chassis_num: Option<u32> = Some(1234567);
    let brand_name = str2vec("toyota");
    let price: Option<u32> = Some(1000000);

    assert!(registry.create_claim(1, chassis_num.clone(), brand_name, price.clone()).is_ok());

    let car = registry.get(1).unwrap();
    assert_eq!(car.chassis_num, chassis_num);
}

#[test]
fn create_claim_fails_already_exist() {
    let mut registry = Pallet::new();
    let chassis_num: Option<u32> = Some(1234567);
    let brand_name = str2vec("toyota");
    let price: Option<u32> = Some(1000000);

    let _ = registry.create_claim(1, chassis_num.clone(), brand_name.clone(), price.clone());
    let before = registry.get(1).unwrap().clone();
    let n_events = registry.events().len();

    let r = registry.create_claim(1, chassis_num.clone(), brand_name, price.clone());
    assert_eq!(r.err(), Some(Error::CarProofAlreadyExists));
    assert!(same_car(registry.get(1).unwrap(), &before));
    assert_eq!(registry.events().len(), n_events);
}

#[test]
fn revoke_claim_works() {
    let mut registry = Pallet::new();
    let chassis_num: Option<u32> = Some(1234567);
    let brand_name = str2vec("toyota");
    let price: Option<u32> = Some(1000000);

    let _ = registry.create_claim(1, chassis_num.clone(), brand_name, price.clone());

    let _ = registry.revoke_claim(1);

    assert!(registry.get(1).is_none());
}

#[test]
fn revoke_claim_fails_not_exist() {
    let mut registry = Pallet::new();
    let _ = registry.revoke_claim(1);

    let r = registry.revoke_claim(1);
    assert_eq!(r.err(), Some(Error::NoSuchCarOwner));
    assert!(registry.get(1).is_none());
    assert_eq!(registry.events().len(), 0);
}

#[test]
fn transfer_claim_works() {
    let mut registry = Pallet::new();
    let chassis_num: Option<u32> = Some(1234567);
    let brand_name = str2vec("toyota");
    let price: Option<u32> = Some(1000000);

    let _ = registry.create_claim(1, chassis_num.clone(), brand_name, price.clone());

    let _ = registry.transfer_claim(1, 2u64);

    assert!(registry.get(1).is_none());

    let car = registry.get(2).unwrap();

    assert_eq!(car.chassis_num, chassis_num);
}

#[test]
fn transfer_claim_fails_not_exist() {
    let mut registry = Pallet::new();
    assert_eq!(registry.transfer_claim(1, 2u64), Err(Error::NoSuchCarOwner));
    assert!(registry.get(1).is_none());
    assert!(registry.get(2).is_none());
}

#[test]
fn transfer_claim_fails_no_owner() {
    let mut registry = Pallet::new();
    let chassis_num: Option<u32> = Some(1234567);
    let brand_name = str2vec("toyota");
    let price: Option<u32> = Some(1000000);

    let _ = registry.create_claim(1, chassis_num.clone(), brand_name, price.clone());
    let before = registry.get(1).unwrap().clone();

    assert_eq!(registry.transfer_claim(2, 1u64), Err(Error::NoSuchCarOwner));
    assert!(same_car(registry.get(1).unwrap(), &before));
    assert!(registry.get(2).is_none());
}

#[test]
fn create_claim_returns_and_records_the_claim() {
    let mut registry = Pallet::new();
    let car = registry.create_claim(5, Some(42), str2vec("volvo"), None).unwrap();
    assert_eq!(car.owner, 5);
    assert_eq!(car.chassis_num, Some(42));
    assert_eq!(car.brand_name, str2vec("volvo"));
    assert_eq!(car.price, None);
    assert!(registry.contains(5));
    assert_eq!(registry.events().len(), 1);
    match &registry.events()[0] {
        Event::ClaimCreated(who, c, b, p) => {
            assert_eq!(*who, 5);
            assert_eq!(*c, Some(42));
            assert_eq!(*b, str2vec("volvo"));
            assert_eq!(*p, None);
        }
        _ => panic!("expected ClaimCreated"),
    }
}

#[test]
fn create_car_sets_all_fields() {
    let car = Pallet::create_car(&9, None, str2vec("fiat"), Some(7)).unwrap();
    assert_eq!(car.owner, 9);
    assert_eq!(car.chassis_num, None);
    assert_eq!(car.brand_name, str2vec("fiat"));
    assert_eq!(car.price, Some(7));
}

#[test]
fn revoke_claim_returns_the_removed_claim() {
    let mut registry = Pallet::new();
    let _ = registry.create_claim(3, Some(1), str2vec("kia"), Some(2));
    let car = registry.revoke_claim(3).unwrap();
    assert_eq!(car.owner, 3);
    assert_eq!(car.brand_name, str2vec("kia"));
    assert!(!registry.contains(3));
    match &registry.events()[1] {
        Event::RevokeSuccessful(who, c, b, p) => {
            assert_eq!(*who, 3);
            assert_eq!(*c, Some(1));
            assert_eq!(*b, str2vec("kia"));
            assert_eq!(*p, Some(2));
        }
        _ => panic!("expected RevokeSuccessful"),
    }
}

#[test]
fn transfer_claim_rekeys_and_updates_owner() {
    let mut registry = Pallet::new();
    let _ = registry.create_claim(1, Some(1234567), str2vec("toyota"), Some(1000000));
    assert_eq!(registry.transfer_claim(1, 2), Ok(()));
    assert!(registry.get(1).is_none());
    let car = registry.get(2).unwrap();
    assert_eq!(car.owner, 2);
    assert_eq!(car.chassis_num, Some(1234567));
    assert_eq!(car.brand_name, str2vec("toyota"));
    assert_eq!(car.price, Some(1000000));
    match &registry.events()[1] {
        Event::TransferSuccessful(who, c, b, p) => {
            assert_eq!(*who, 1);
            assert_eq!(*c, Some(1234567));
            assert_eq!(*b, str2vec("toyota"));
            assert_eq!(*p, Some(1000000));
        }
        _ => panic!("expected TransferSuccessful"),
    }
}

#[test]
fn transfer_claim_to_self_is_refused() {
    let mut registry = Pallet::new();
    let _ = registry.create_claim(1, Some(1), str2vec("bmw"), Some(1));
    assert_eq!(registry.transfer_claim(1, 1), Err(Error::SameOwnerTransfer));
    assert_eq!(registry.get(1).unwrap().owner, 1);
    assert_eq!(registry.events().len(), 1);
}

#[test]
fn transfer_claim_to_holder_is_refused() {
    let mut registry = Pallet::new();
    let _ = registry.create_claim(1, Some(1), str2vec("bmw"), Some(1));
    let _ = registry.create_claim(2, Some(2), str2vec("audi"), Some(2));
    assert_eq!(registry.transfer_claim(1, 2), Err(Error::DestinationAlreadyOwnsClaim));
    assert_eq!(registry.get(1).unwrap().brand_name, str2vec("bmw"));
    assert_eq!(registry.get(2).unwrap().brand_name, str2vec("audi"));
    assert_eq!(registry.events().len(), 2);
}

#[test]
fn every_claim_is_stored_under_its_owner() {
    let mut registry = Pallet::new();
    let _ = registry.create_claim(1, Some(1), str2vec("a"), Some(1));
    let _ = registry.create_claim(2, Some(2), str2vec("b"), Some(2));
    let _ = registry.transfer_claim(1, 3);
    let _ = registry.revoke_claim(2);
    let _ = registry.create_claim(1, None, str2vec("c"), None);
    for id in 0..5u64 {
        if let Some(car) = registry.get(id) {
            assert_eq!(car.owner, id);
        }
    }
    assert!(registry.contains(1));
    assert!(!registry.contains(2));
    assert!(registry.contains(3));
}
