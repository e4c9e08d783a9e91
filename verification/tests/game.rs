use kitties::battle::{battle_outcome, combine_dna, mix_dna, wild_battle_outcome};
use kitties::hashing::{lottery_seed, random_value};
use kitties::linked_list::LinkedItem;
use kitties::module::{lottery_call, Module};
use kitties::types::{
    ensure_none, ensure_root, ensure_signed, BattleType, DecodeError, Error, Event, Kitty, KittyAttr, Origin, Payment,
    WeaponryKind, Weaponry, WildAnimal,
};
use kitties::unsigned::{validate_unsigned, Call, UnknownTransaction};
use parity_scale_codec::Encode;

const SEED: [u8; 32] = [7u8; 32];

fn newborn() -> KittyAttr<u64> {
    KittyAttr { hp: 100, exp: 0, ce: 100, battle_begin: None, battle_end: None, battle_type: None }
}

fn dna_payload(seed: [u8; 32], sender: u64, idx: Option<u32>, block: u64) -> Vec<u8> {
    let mut v = seed.to_vec();
    v.extend_from_slice(&sender.to_le_bytes());
    match idx {
        None => v.push(0),
        Some(i) => {
            v.push(1);
            v.extend_from_slice(&i.to_le_bytes());
        }
    }
    v.extend_from_slice(&block.to_le_bytes());
    v
}

fn with_two_kitties() -> Module {
    let mut m = Module::new();
    assert_eq!(m.create(Origin::Signed(1), SEED, Some(0), 1), Ok(Event::Created(1, 0)));
    assert_eq!(m.create(Origin::Signed(1), SEED, Some(1), 1), Ok(Event::Created(1, 1)));
    m
}

fn sword() -> Weaponry<u64> {
    Weaponry { name: b"sword".to_vec(), kind: WeaponryKind::WEAPON, ce: 20, price: 30 }
}

#[test]
fn combine_dna_takes_bits_by_selector() {
    assert_eq!(combine_dna(0b1010_1010, 0b0101_0101, 0b1111_0000), 0b1010_0101);
    assert_eq!(combine_dna(0x12, 0x34, 0xff), 0x12);
    assert_eq!(combine_dna(0x12, 0x34, 0x00), 0x34);
}

#[test]
fn mix_dna_combines_each_byte() {
    let a = [0xffu8; 16];
    let b = [0x00u8; 16];
    let mut sel = [0u8; 16];
    sel[3] = 0x0f;
    sel[15] = 0xf0;
    let child = mix_dna(a, b, sel);
    let mut expected = [0u8; 16];
    expected[3] = 0x0f;
    expected[15] = 0xf0;
    assert_eq!(child, expected);
}

#[test]
fn random_value_hashes_the_encoded_payload() {
    let v = random_value(SEED, 5, Some(3), 9);
    let payload = dna_payload(SEED, 5, Some(3), 9);
    assert_eq!(payload, (SEED, 5u64, Some(3u32), 9u64).encode());
    assert_eq!(v, sp_io::hashing::blake2_128(&payload));
    assert_ne!(v, random_value(SEED, 6, Some(3), 9));
    assert_ne!(v, random_value(SEED, 5, None, 9));
    assert_ne!(&v[..], &payload[..16]);
}

#[test]
fn lottery_seed_hashes_twice() {
    let mut payload = SEED.to_vec();
    payload.push(0);
    payload.extend_from_slice(&4u64.to_le_bytes());
    let short = sp_io::hashing::blake2_128(&payload);
    let expected = <sp_runtime::traits::BlakeTwo256 as sp_runtime::traits::Hash>::hash(&short).0;
    assert_eq!(lottery_seed(SEED, None, 4), expected);
    assert_eq!(expected, sp_io::hashing::blake2_256(&short));
}

#[test]
fn kitty_encoding_round_trips() {
    let k = Kitty([3u8; 16]);
    let bytes = k.encode();
    assert_eq!(bytes, vec![3u8; 16]);
    assert_eq!(Kitty::decode(&bytes), Ok(k));
    let mut longer = bytes.clone();
    longer.push(9);
    assert_eq!(Kitty::decode(&longer), Ok(k));
    assert_eq!(Kitty::decode(&bytes[..15]), Err(DecodeError::NotEnoughData));
}

#[test]
fn origins_are_checked() {
    assert_eq!(ensure_signed(Origin::Signed(4)), Ok(4));
    assert_eq!(ensure_signed(Origin::Root), Err(Error::BadOrigin));
    assert_eq!(ensure_root(Origin::Root), Ok(()));
    assert_eq!(ensure_root(Origin::Unsigned), Err(Error::BadOrigin));
    assert_eq!(ensure_none(Origin::Unsigned), Ok(()));
    assert_eq!(ensure_none(Origin::Signed(1)), Err(Error::BadOrigin));
}

#[test]
fn create_stores_a_newborn_kitty() {
    let mut m = Module::new();
    assert_eq!(m.create(Origin::Root, SEED, None, 1), Err(Error::BadOrigin));
    assert_eq!(m.kitties_count(), 0);
    assert_eq!(m.create(Origin::Signed(1), SEED, Some(2), 3), Ok(Event::Created(1, 0)));
    assert_eq!(m.kitties_count(), 1);
    assert_eq!(m.kitty_owner(0), Some(1));
    assert_eq!(m.kitties(0), Some(Kitty(random_value(SEED, 1, Some(2), 3))));
    assert_eq!(m.kitty_attrs(0), newborn());
    assert_eq!(m.owned_kitties((1, None)), Some(LinkedItem { prev: Some(0), next: Some(0) }));
    assert_eq!(m.owned_kitties((1, Some(0))), Some(LinkedItem { prev: None, next: None }));
    assert_eq!(m.kitty_price(0), None);
    assert_eq!(m.next_kitty_id(), Ok(1));
}

#[test]
fn unknown_kitty_has_default_attributes() {
    let m = Module::new();
    assert_eq!(m.kitty_attrs(3), KittyAttr::default());
    assert_eq!(m.kitties(3), None);
    assert!(!m.check_battling(3, 0));
}

#[test]
fn breed_mixes_parents_dna() {
    let mut m = with_two_kitties();
    let p1 = m.kitties(0).unwrap();
    let p2 = m.kitties(1).unwrap();
    assert_eq!(m.breed(Origin::Signed(1), 0, 1, SEED, Some(5), 2), Ok(Event::Created(1, 2)));
    let selector = random_value(SEED, 1, Some(5), 2);
    let child = m.kitties(2).unwrap();
    for i in 0..16 {
        assert_eq!(child.0[i], combine_dna(p1.0[i], p2.0[i], selector[i]));
    }
    assert_eq!(child.0, mix_dna(p1.0, p2.0, selector));
    assert_eq!(m.kitty_owner(2), Some(1));
    assert_eq!(m.kitties_count(), 3);
    assert_eq!(m.owned_kitties((1, None)), Some(LinkedItem { prev: Some(2), next: Some(0) }));
}

#[test]
fn breed_refusals_follow_the_checks() {
    let mut m = with_two_kitties();
    assert_eq!(m.create(Origin::Signed(2), SEED, Some(3), 1), Ok(Event::Created(2, 2)));
    assert_eq!(m.breed(Origin::Root, 0, 1, SEED, None, 1), Err(Error::BadOrigin));
    assert_eq!(m.breed(Origin::Signed(1), 0, 9, SEED, None, 1), Err(Error::InvalidKittyId));
    assert_eq!(m.breed(Origin::Signed(1), 9, 0, SEED, None, 1), Err(Error::InvalidKittyId));
    assert_eq!(m.breed(Origin::Signed(1), 0, 0, SEED, None, 1), Err(Error::RequiresDifferentParents));
    assert_eq!(m.breed(Origin::Signed(1), 0, 2, SEED, None, 1), Err(Error::RequiresOwner));
    assert_eq!(m.breed(Origin::Signed(2), 0, 1, SEED, None, 1), Err(Error::RequiresOwner));
    assert_eq!(m.kitties_count(), 3);
}

#[test]
fn transfer_moves_the_kitty_between_lists() {
    let mut m = with_two_kitties();
    assert_eq!(m.transfer(Origin::Signed(2), 3, 0), Err(Error::RequiresOwner));
    assert_eq!(m.transfer(Origin::Unsigned, 3, 0), Err(Error::BadOrigin));
    assert_eq!(m.transfer(Origin::Signed(1), 2, 0), Ok(Event::Transferred(1, 2, 0)));
    assert_eq!(m.kitty_owner(0), Some(2));
    assert_eq!(m.owned_kitties((1, Some(0))), None);
    assert_eq!(m.owned_kitties((1, None)), Some(LinkedItem { prev: Some(1), next: Some(1) }));
    assert_eq!(m.owned_kitties((2, None)), Some(LinkedItem { prev: Some(0), next: Some(0) }));
    // and back again
    assert_eq!(m.transfer(Origin::Signed(2), 1, 0), Ok(Event::Transferred(2, 1, 0)));
    assert_eq!(m.kitty_owner(0), Some(1));
    assert_eq!(m.owned_kitties((1, None)), Some(LinkedItem { prev: Some(0), next: Some(1) }));
    assert_eq!(m.owned_kitties((2, None)), Some(LinkedItem { prev: None, next: None }));
}

#[test]
fn transfer_to_self_moves_the_kitty_to_the_end() {
    let mut m = with_two_kitties();
    assert_eq!(m.transfer(Origin::Signed(1), 1, 0), Ok(Event::Transferred(1, 1, 0)));
    assert_eq!(m.owned_kitties((1, None)), Some(LinkedItem { prev: Some(0), next: Some(1) }));
    assert_eq!(m.kitty_owner(0), Some(1));
}

#[test]
fn ask_and_buy() {
    let mut m = with_two_kitties();
    assert_eq!(m.ask(Origin::Signed(2), 0, Some(50)), Err(Error::RequiresOwner));
    assert_eq!(m.buy(Origin::Signed(2), 0, 100), Err(Error::KittyNotForSale));
    assert_eq!(m.buy(Origin::Signed(2), 7, 100), Err(Error::InvalidKittyId));
    assert_eq!(m.buy(Origin::Root, 0, 100), Err(Error::BadOrigin));
    assert_eq!(m.ask(Origin::Signed(1), 0, Some(50)), Ok(Event::Ask(1, 0, Some(50))));
    assert_eq!(m.kitty_price(0), Some(50));
    assert_eq!(m.buy(Origin::Signed(2), 0, 40), Err(Error::PriceTooLow));
    let payment = m.buy(Origin::Signed(2), 0, 60).unwrap();
    assert_eq!(payment, Payment { from: 2, to: 1, amount: 50 });
    assert_eq!(m.complete_buy(payment, 0), Event::Sold(1, 2, 0, 50));
    assert_eq!(m.kitty_price(0), None);
    assert_eq!(m.kitty_owner(0), Some(2));
    assert_eq!(m.owned_kitties((2, Some(0))), Some(LinkedItem { prev: None, next: None }));
}

#[test]
fn ask_none_takes_the_kitty_off_sale() {
    let mut m = with_two_kitties();
    assert_eq!(m.ask(Origin::Signed(1), 1, Some(5)), Ok(Event::Ask(1, 1, Some(5))));
    assert_eq!(m.ask(Origin::Signed(1), 1, None), Ok(Event::Ask(1, 1, None)));
    assert_eq!(m.kitty_price(1), None);
}

#[test]
fn battle_checks_come_in_order() {
    let mut m = with_two_kitties();
    assert_eq!(m.create(Origin::Signed(2), SEED, Some(3), 1), Ok(Event::Created(2, 2)));
    assert_eq!(m.battle(Origin::Signed(2), 0, 2, 10), Err(Error::RequiresOwner));
    assert_eq!(m.battle(Origin::Root, 0, 2, 10), Err(Error::BadOrigin));
    assert_eq!(m.battle(Origin::Signed(1), 0, 1, 10), Err(Error::RequiresDifferentOwner));
    // two newborns: the blow of 100 * 100 would take more health than the winner has
    assert!(m.battle_would_panic(Origin::Signed(1), 0, 2, 10));
    assert!(!m.battle_would_panic(Origin::Signed(1), 0, 1, 10));
    assert_eq!(m.kitty_attrs(0), newborn());
}

#[test]
fn battle_puts_both_fighters_in_battle() {
    let mut m = with_two_kitties();
    assert_eq!(m.create(Origin::Signed(2), SEED, Some(3), 1), Ok(Event::Created(2, 2)));
    assert_eq!(m.create_wild_animal(Origin::Root, 95, 10), Ok(()));
    // kitty 2 wins against the animal and keeps 100 - 95 = 5 health
    assert_eq!(m.battle_wild(Origin::Signed(2), 2, 0, 1), Ok(()));
    assert_eq!(m.kitty_attrs(2).hp, 5);
    assert_eq!(m.kitty_attrs(2).exp, 950);
    assert!(!m.battle_would_panic(Origin::Signed(1), 0, 2, 10));
    assert_eq!(m.battle(Origin::Signed(1), 0, 2, 10), Ok(Event::Battled(1, 0, 2, 0)));
    let a0 = m.kitty_attrs(0);
    let a2 = m.kitty_attrs(2);
    assert_eq!((a0.hp, a0.exp, a0.battle_begin, a0.battle_end), (50, 500, Some(10), Some(14)));
    assert_eq!((a2.hp, a2.exp, a2.battle_begin, a2.battle_end), (0, 855, Some(10), Some(14)));
    assert!(m.check_battling(0, 14));
    assert!(!m.check_battling(0, 15));
    // while in battle, kitty 0 can do nothing
    assert_eq!(m.battle(Origin::Signed(1), 0, 2, 12), Err(Error::KittyIsBattling));
    assert_eq!(m.battle(Origin::Signed(1), 1, 2, 12), Err(Error::KittyIsBattling));
    assert_eq!(m.battle_wild(Origin::Signed(1), 0, 0, 12), Err(Error::KittyIsBattling));
    assert_eq!(m.full_health(Origin::Signed(1), 0, 99, 12), Err(Error::KittyIsBattling));
    assert_eq!(m.breed(Origin::Signed(1), 0, 1, SEED, None, 12), Err(Error::KittyIsBattling));
    assert_eq!(m.breed(Origin::Signed(1), 1, 0, SEED, None, 12), Err(Error::KittyIsBattling));
    assert_eq!(m.kitties_count(), 3);
    // once the battle is over it can breed again
    assert_eq!(m.breed(Origin::Signed(1), 1, 0, SEED, None, 15), Ok(Event::Created(1, 3)));
    assert_eq!(m.full_health(Origin::Signed(1), 0, 99, 15), Ok(Payment { from: 1, to: 99, amount: 10 }));
}

#[test]
fn battle_outcome_first_wins() {
    let a1 = newborn();
    let a2 = KittyAttr { hp: 50, exp: 20, ce: 7, battle_begin: None, battle_end: None, battle_type: Some(BattleType::KITTY) };
    let (r1, r2) = battle_outcome(a1, a2, 100, 1, 10);
    assert_eq!(r1, KittyAttr { hp: 95, exp: 50, ce: 100, battle_begin: Some(10), battle_end: Some(14), battle_type: None });
    assert_eq!(
        r2,
        KittyAttr { hp: 0, exp: 18, ce: 7, battle_begin: Some(10), battle_end: Some(14), battle_type: Some(BattleType::KITTY) }
    );
}

#[test]
fn battle_outcome_second_wins() {
    let a1 = KittyAttr { hp: 10, exp: 100, ce: 1, battle_begin: None, battle_end: None, battle_type: None };
    let a2 = newborn();
    let (r1, r2) = battle_outcome(a1, a2, 3, 2, 0);
    // 10 / 2 = 5 < 100 / 3 = 33: the second fighter wins, the blow is 10 * 3 = 30
    assert_eq!(r1, KittyAttr { hp: 0, exp: 90, ce: 1, battle_begin: Some(0), battle_end: Some(4), battle_type: None });
    assert_eq!(r2, KittyAttr { hp: 97, exp: 30, ce: 100, battle_begin: Some(0), battle_end: Some(4), battle_type: None });
}

#[test]
fn wild_battle_outcome_win_and_loss() {
    let k = newborn();
    let won = wild_battle_outcome(k, WildAnimal { hp: 10, ce: 5 }, 100);
    assert_eq!(won.exp, 50);
    assert_eq!(won.hp, 95);
    let lost = wild_battle_outcome(k, WildAnimal { hp: 50, ce: 10 }, 1);
    // 100 / 10 = 10 is not more than 50 / 1 = 50: no experience, health falls by 500 / 10
    assert_eq!(lost.exp, 0);
    assert_eq!(lost.hp, 50);
}

#[test]
fn wild_animals_and_wild_battles() {
    let mut m = with_two_kitties();
    assert_eq!(m.create_wild_animal(Origin::Signed(1), 10, 5), Err(Error::BadOrigin));
    assert_eq!(m.create_wild_animal(Origin::Root, 10, 5), Ok(()));
    assert_eq!(m.wild_animals_count(), 1);
    assert_eq!(m.wild_animals(0), Some(WildAnimal { hp: 10, ce: 5 }));
    assert_eq!(m.battle_wild(Origin::Signed(2), 0, 0, 1), Err(Error::RequiresOwner));
    assert!(!m.battle_wild_would_panic(Origin::Signed(1), 0, 0, 1));
    assert!(m.battle_wild_would_panic(Origin::Signed(1), 0, 5, 1));
    assert_eq!(m.battle_wild(Origin::Signed(1), 0, 0, 1), Ok(()));
    let a = m.kitty_attrs(0);
    assert_eq!(a.exp, 50);
    assert_eq!(a.hp, 95);
}

#[test]
fn full_health_heals_after_payment() {
    let mut m = with_two_kitties();
    assert_eq!(m.full_health(Origin::Signed(2), 0, 99, 1), Err(Error::RequiresOwner));
    assert_eq!(m.create_wild_animal(Origin::Root, 10, 5), Ok(()));
    assert_eq!(m.battle_wild(Origin::Signed(1), 0, 0, 1), Ok(()));
    assert_eq!(m.kitty_attrs(0).hp, 95);
    let p = m.full_health(Origin::Signed(1), 0, 99, 1).unwrap();
    assert_eq!(p, Payment { from: 1, to: 99, amount: 10 });
    assert_eq!(m.complete_full_health(p, 0), Event::FullHealth(1, 0, 10));
    assert_eq!(m.kitty_attrs(0).hp, 100);
    assert_eq!(m.kitty_attrs(0).exp, 50);
}

#[test]
fn add_weaponry_is_always_refused() {
    let mut m = Module::new();
    assert_eq!(m.add_weaponry(Origin::Root, WeaponryKind::HELMET, b"cap".to_vec(), 3, 4), Err(Error::BadOrigin));
    assert_eq!(m.add_weaponry(Origin::Signed(1), WeaponryKind::HELMET, b"cap".to_vec(), 3, 4), Err(Error::BadOrigin));
    assert_eq!(m.weaponrys_count(), 0);
    assert!(m.weaponrys(0).is_none());
}

#[test]
fn weaponry_from_genesis_can_be_bought() {
    let mut m = Module::genesis(vec![(0, sword())], 1);
    assert_eq!(m.weaponrys_count(), 1);
    assert_eq!(m.weaponrys(0).unwrap().ce, 20);
    assert_eq!(m.create(Origin::Signed(1), SEED, None, 1), Ok(Event::Created(1, 0)));
    assert_eq!(m.get_kitty_ce(0), 100);
    assert_eq!(m.buy_weaponry(Origin::Signed(2), 0, 0, 99), Err(Error::RequiresOwner));
    assert_eq!(m.buy_weaponry(Origin::Signed(1), 0, 5, 99), Ok(None));
    let p = m.buy_weaponry(Origin::Signed(1), 0, 0, 99).unwrap().unwrap();
    assert_eq!(p, Payment { from: 1, to: 99, amount: 30 });
    assert_eq!(m.complete_buy_weaponry(p, 0, 0), Event::BuyWeaponry(1, 0, 0, 30));
    assert_eq!(m.kitty_weaponrys(0, WeaponryKind::WEAPON), Some(0));
    assert_eq!(m.kitty_weaponrys(0, WeaponryKind::HELMET), None);
    assert_eq!(m.get_kitty_weaponry_ce(0, WeaponryKind::WEAPON), 20);
    assert_eq!(m.get_kitty_weaponry_ce(0, WeaponryKind::SHOES), 0);
    assert_eq!(m.get_kitty_ce(0), 120);
    assert_eq!(m.checked_kitty_ce(0), Some(120));
}

#[test]
fn genesis_later_pairs_win() {
    let mut cheap = sword();
    cheap.price = 1;
    let m = Module::genesis(vec![(0, sword()), (0, cheap)], 2);
    assert_eq!(m.weaponrys(0).unwrap().price, 1);
    assert_eq!(m.weaponrys_count(), 2);
}

#[test]
fn weaponry_index_overflow_is_refused() {
    let m = Module::genesis(vec![], u32::MAX);
    assert_eq!(m.next_weaponry_id(), Err(Error::IndexCountOverflow));
    let n = Module::genesis(vec![], 4);
    assert_eq!(n.next_weaponry_id(), Ok(4));
}

#[test]
fn update_kitty_ec_raises_effectiveness() {
    let mut m = with_two_kitties();
    assert_eq!(m.update_kitty_ec(Origin::Signed(1), 0, 1), Err(Error::BadOrigin));
    assert_eq!(m.update_kitty_ec(Origin::Unsigned, 9, 1), Ok(None));
    assert_eq!(m.update_kitty_ec(Origin::Unsigned, 0, 1), Ok(Some(Event::Lottery(0))));
    assert_eq!(m.kitty_attrs(0).ce, 101);
    assert_eq!(m.get_kitty_ce(0), 101);
}

#[test]
fn offchain_worker_draws_on_every_fifth_block() {
    let m = Module::new();
    assert!(m.offchain_worker(5, SEED, None, 5).is_none());
    let m = with_two_kitties();
    assert!(m.offchain_worker(3, SEED, None, 3).is_none());
    let draw = m.offchain_worker(10, SEED, Some(1), 10).unwrap();
    assert_eq!(draw.max, 1);
    assert_eq!(draw.seed, lottery_seed(SEED, Some(1), 10));
    assert!(m.do_offchain(SEED, None, 3).is_some());
    assert!(matches!(lottery_call(draw.max), Call::update_kitty_ec(1, 1)));
}

#[test]
fn only_the_lottery_call_is_valid_unsigned() {
    let v = validate_unsigned(&Call::update_kitty_ec(0, 1)).unwrap();
    assert_eq!(v.priority, 0);
    assert!(v.requires.is_empty());
    assert_eq!(v.provides, vec![vec![0u8, 0, 0, 0]]);
    assert_eq!(v.provides[0], 0i32.encode());
    assert_eq!(v.longevity, u64::MAX);
    assert!(v.propagate);
    assert_eq!(validate_unsigned(&Call::create).unwrap_err(), UnknownTransaction::NoUnsignedValidator);
    assert_eq!(validate_unsigned(&Call::transfer(1, 2)).unwrap_err(), UnknownTransaction::NoUnsignedValidator);
}

#[test]
fn do_transfer_moves_listed_kitties_without_stored_kitties() {
    let mut m = Module::new();
    m.insert_owned_kitty(0, 1);
    m.insert_owned_kitty(0, 2);
    m.insert_owned_kitty(0, 3);
    m.do_transfer(0, 1, 2);
    assert_eq!(m.owned_kitties((0, None)), Some(LinkedItem { prev: Some(3), next: Some(1) }));
    assert_eq!(m.owned_kitties((0, Some(1))), Some(LinkedItem { prev: None, next: Some(3) }));
    assert_eq!(m.owned_kitties((0, Some(2))), None);
    assert_eq!(m.owned_kitties((0, Some(3))), Some(LinkedItem { prev: Some(1), next: None }));
    assert_eq!(m.kitty_owner(2), Some(1));
    m.do_transfer(0, 1, 1);
    assert_eq!(m.owned_kitties((0, None)), Some(LinkedItem { prev: Some(3), next: Some(3) }));
    assert_eq!(m.owned_kitties((0, Some(3))), Some(LinkedItem { prev: None, next: None }));
    assert_eq!(m.kitty_owner(1), Some(1));
    m.do_transfer(0, 1, 3);
    assert_eq!(m.owned_kitties((0, None)), Some(LinkedItem { prev: None, next: None }));
    assert_eq!(m.owned_kitties((0, Some(3))), None);
    assert_eq!(m.owned_kitties((1, None)), Some(LinkedItem { prev: Some(3), next: Some(2) }));
    assert_eq!(m.owned_kitties((1, Some(1))), Some(LinkedItem { prev: Some(2), next: Some(3) }));
}
