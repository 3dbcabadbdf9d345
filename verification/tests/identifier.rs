use modrad_radius::identifier::pool::{EapIdentifierPool, IdentifierPool};
use modrad_radius::identifier::store::{IdentifierStore, IdentifierStoreValue};
use modrad_radius::identifier::{EapIdentifier, Identifier, RadiusIdentifier};
use modrad_radius::peer::{RadiusPeer, RemoteAddress};
use modrad_radius::radius::attribute::RadiusPacketAttributes;
use modrad_radius::radius::code::RadiusPacketCode;
use modrad_radius::radius::container::RadiusPacketContainer;
use modrad_radius::radius::RadiusPacket;

const SECOND: u64 = 1_000_000_000;
const MILLISECOND: u64 = 1_000_000;
const START: u64 = 1_000 * SECOND;

#[test]
fn identifier_pool_should_allocate_identifiers_when_pool_is_empty() {
    let mut target = IdentifierPool::new(SECOND);
    for expected in 0..5u8 {
        assert_eq!(target.allocate(START), Some(expected));
    }
}

#[test]
fn identifier_pool_should_allocate_identifiers_when_pool_has_all_identifiers_in_free_list() {
    let mut target = IdentifierPool::new(SECOND);
    for expected in 0..5u8 {
        assert_eq!(target.allocate(START), Some(expected));
    }
    target.deallocate(4);
    target.deallocate(3);
    target.deallocate(2);
    target.deallocate(1);
    target.deallocate(0);
    for expected in 0..5u8 {
        assert_eq!(target.allocate(START), Some(expected));
    }
}

#[test]
fn identifier_pool_should_allocate_identifier_when_pool_is_full_but_exists_expired_identifiers() {
    let now = START;
    let mut target = IdentifierPool::new(SECOND);
    for i in 0..255u8 {
        assert_eq!(target.allocate(now), Some(i));
    }
    assert_eq!(target.allocate(now + SECOND), Some(0));
}

#[test]
fn identifier_pool_should_not_allocate_identifier_when_pool_is_full_and_expired_identifiers_do_not_exist()
 {
    let now = START;
    let mut target = IdentifierPool::new(SECOND);
    for i in 0..255u8 {
        assert_eq!(target.allocate(now), Some(i));
    }
    assert_eq!(target.allocate(now + 500 * MILLISECOND), None);
}

#[test]
fn pool_should_allocate_identifiers_when_pool_is_empty() {
    let mut target = EapIdentifierPool::new(SECOND);
    for expected in 0..5u8 {
        assert_eq!(target.allocate(START), Some(expected.into()));
    }
}

#[test]
fn pool_should_allocate_identifiers_when_pool_has_all_identifiers_in_free_list() {
    let mut target = EapIdentifierPool::new(SECOND);
    for expected in 0..5u8 {
        assert_eq!(target.allocate(START), Some(expected.into()));
    }
    target.deallocate(4.into());
    target.deallocate(3.into());
    target.deallocate(2.into());
    target.deallocate(1.into());
    target.deallocate(0.into());
    for expected in 0..5u8 {
        assert_eq!(target.allocate(START), Some(expected.into()));
    }
}

#[test]
fn pool_should_allocate_identifier_when_pool_is_full_but_exists_expired_identifiers() {
    let now = START;
    let mut target = EapIdentifierPool::new(SECOND);
    for i in 0..255u8 {
        assert_eq!(target.allocate(now), Some(i.into()));
    }
    assert_eq!(target.allocate(now + SECOND), Some(EapIdentifier(0)));
}

#[test]
fn pool_should_not_allocate_identifier_when_pool_is_full_and_expired_identifiers_do_not_exist() {
    let now = START;
    let mut target = EapIdentifierPool::new(SECOND);
    for i in 0..255u8 {
        assert_eq!(target.allocate(now), Some(i.into()));
    }
    assert_eq!(target.allocate(now + 500 * MILLISECOND), None);
}

#[test]
fn deallocated_identifier_is_allocated_next() {
    let mut target = IdentifierPool::new(SECOND);
    for _ in 0..10 {
        target.allocate(START);
    }
    target.deallocate(7);
    assert_eq!(target.allocate(START), Some(7));
    assert_eq!(target.allocate(START), Some(10));
}

#[test]
fn deallocating_an_unused_identifier_changes_nothing() {
    let mut target = IdentifierPool::new(SECOND);
    target.deallocate(3);
    assert_eq!(target.allocate(START), Some(0));
}

#[test]
fn expired_identifier_is_handed_out_and_also_kept_free() {
    let mut target = IdentifierPool::new(SECOND);
    for i in 0..255u8 {
        assert_eq!(target.allocate(START), Some(i));
    }
    assert_eq!(target.allocate(START + SECOND), Some(0));
    assert_eq!(target.allocate(START + SECOND), Some(0));
}

#[test]
fn identifier_conversions_keep_the_byte() {
    assert_eq!(u8::from(RadiusIdentifier::from(9)), 9);
    assert_eq!(u8::from(EapIdentifier::from(200)), 200);
}

#[derive(Debug, Copy, Clone, PartialEq, Eq)]
struct TestIdentifierStoreValue(u32);

impl IdentifierStoreValue for TestIdentifierStoreValue {}

fn container() -> RadiusPacketContainer {
    RadiusPacketContainer::new(
        RadiusPacket::new(
            RadiusPacketCode::AccessRequest,
            0,
            [1, 2, 3, 4, 5, 6, 7, 8, 9, 10, 11, 12, 13, 14, 15, 16],
            RadiusPacketAttributes::new(),
        ),
        RadiusPeer::Udp { remote_address: RemoteAddress::V4 { address: 0x7f00_0001, port: 1234 } },
    )
}

fn radius_zero() -> Identifier {
    Identifier::Radius(RadiusIdentifier(0))
}

#[test]
fn should_allocate_new_slot() {
    let packet_container = container();
    let now = START;
    let mut target: IdentifierStore<TestIdentifierStoreValue> = IdentifierStore::new(SECOND);
    target.allocate(radius_zero(), &packet_container, now).unwrap();
    {
        let slot = target.get(radius_zero(), &packet_container).unwrap();
        assert!(slot.get().is_none());
        assert_eq!(slot.changed_at(), now);
    }
    let later = now + 2 * SECOND;
    let slot = target.get_mut(radius_zero(), &packet_container).unwrap();
    slot.set(TestIdentifierStoreValue(1), later);
    assert_eq!(slot.get(), Some(&TestIdentifierStoreValue(1)));
    assert_eq!(slot.changed_at(), later);
}

#[test]
fn should_not_double_allocate_slot() {
    let packet_container = container();
    let now = START;
    let mut target: IdentifierStore<TestIdentifierStoreValue> = IdentifierStore::new(SECOND);
    assert!(target.allocate(radius_zero(), &packet_container, now).is_ok());
    {
        let slot = target.get(radius_zero(), &packet_container).unwrap();
        assert!(slot.get().is_none());
        assert_eq!(slot.changed_at(), now);
    }
    assert!(target.allocate(radius_zero(), &packet_container, now).is_err());
}

#[test]
fn should_deallocate_slot() {
    let packet_container = container();
    let mut target: IdentifierStore<TestIdentifierStoreValue> = IdentifierStore::new(SECOND);
    let _ = target.allocate(radius_zero(), &packet_container, START);
    target.deallocate(radius_zero(), &packet_container);
    assert!(target.get(radius_zero(), &packet_container).is_none());
}

#[test]
fn should_cleanup_expired_slot() {
    let packet_container = container();
    let now = START;
    let mut target: IdentifierStore<TestIdentifierStoreValue> = IdentifierStore::new(SECOND);
    let then = now - SECOND;
    target.allocate(radius_zero(), &packet_container, then).unwrap();
    {
        let slot = target.get_mut(radius_zero(), &packet_container).unwrap();
        slot.set(TestIdentifierStoreValue(1), then);
        assert_eq!(slot.get(), Some(&TestIdentifierStoreValue(1)));
        assert_eq!(slot.changed_at(), then);
    }
    target.cleanup(now);
    assert!(target.get(radius_zero(), &packet_container).is_none());
}

#[test]
fn should_cleanup_empty_slot() {
    let packet_container = container();
    let now = START;
    let mut target: IdentifierStore<TestIdentifierStoreValue> = IdentifierStore::new(SECOND);
    target.allocate(radius_zero(), &packet_container, now).unwrap();
    {
        let slot = target.get(radius_zero(), &packet_container).unwrap();
        assert!(slot.get().is_none());
        assert_eq!(slot.changed_at(), now);
    }
    target.cleanup(now);
    assert!(target.get(radius_zero(), &packet_container).is_none());
}

#[test]
fn cleanup_keeps_a_recent_slot_with_a_value() {
    let packet_container = container();
    let mut target: IdentifierStore<TestIdentifierStoreValue> = IdentifierStore::new(SECOND);
    target.allocate(radius_zero(), &packet_container, START).unwrap();
    target.get_mut(radius_zero(), &packet_container).unwrap().set(TestIdentifierStoreValue(5), START);
    target.allocate(Identifier::Eap(EapIdentifier(0)), &packet_container, START).unwrap();
    target.cleanup(START + 999 * MILLISECOND);
    assert_eq!(target.len(), 1);
    let slot = target.deallocate(radius_zero(), &packet_container).unwrap();
    assert_eq!(slot.get(), Some(&TestIdentifierStoreValue(5)));
    assert_eq!(target.len(), 0);
}

#[test]
fn slot_take_empties_it() {
    let packet_container = container();
    let mut target: IdentifierStore<TestIdentifierStoreValue> = IdentifierStore::new(SECOND);
    target.allocate(radius_zero(), &packet_container, START).unwrap();
    let slot = target.get_mut(radius_zero(), &packet_container).unwrap();
    slot.set(TestIdentifierStoreValue(3), START);
    assert_eq!(slot.take(), Some(TestIdentifierStoreValue(3)));
    assert_eq!(slot.take(), None);
}
