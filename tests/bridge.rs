use thing_bridge::bridge::{BridgeError, ThingExternal, ThingInstance, ThingTable, ThingVtable};
use thing_bridge::entry::{conclude, enter, HostOutcome};
use thing_bridge::thing::{Thing, ThingImpl};

#[test]
fn reference_thing_answers_42() {
    let mut t = ThingImpl::new();
    assert_eq!(t.number(), 42);
    assert_eq!(t.number(), 42);
}

#[test]
fn round_trip_dispatch_yields_42() {
    let mut table: ThingTable<ThingImpl> = ThingTable::new(1);
    let proxy = table.wrap(ThingImpl::new());
    let vtable = proxy.vtable();
    let raw = proxy.into_raw();
    let back = ThingExternal::from_raw(vtable, raw);
    assert_eq!(back.raw(), raw);
    assert_eq!(back.number(&mut table), Ok(42));
}

#[test]
fn handles_are_issued_in_order() {
    let mut table: ThingTable<ThingImpl> = ThingTable::new(1);
    assert_eq!(table.issued(), 0);
    assert_eq!(table.vtable(), None);
    let a = table.wrap(ThingImpl::new());
    let b = table.wrap(ThingImpl::new());
    assert_eq!(a.raw(), 0);
    assert_eq!(b.raw(), 1);
    assert_eq!(table.issued(), 2);
    assert!(table.is_live(0));
    assert!(table.is_live(1));
    assert!(!table.is_live(2));
}

#[test]
fn reclaimed_exactly_once_after_many_crossings() {
    let mut table: ThingTable<ThingImpl> = ThingTable::new(3);
    let proxy = table.wrap(ThingImpl::new());
    let vtable = proxy.vtable();
    let mut raw = proxy.into_raw();
    for _ in 0..5 {
        let p = ThingExternal::from_raw(vtable, raw);
        assert_eq!(p.number(&mut table), Ok(42));
        raw = p.into_raw();
        assert!(table.reclaimed().is_empty());
    }
    let p = ThingExternal::from_raw(vtable, raw);
    assert!(p.destroy(&mut table).is_ok());
    assert_eq!(table.reclaimed().clone(), vec![raw]);
    let again = ThingExternal::from_raw(vtable, raw);
    assert!(matches!(again.destroy(&mut table), Err(BridgeError::Dangling)));
    assert_eq!(table.reclaimed().clone(), vec![raw]);
}

#[test]
fn one_descriptor_per_type() {
    let mut table: ThingTable<ThingImpl> = ThingTable::new(9);
    let a = table.wrap(ThingImpl::new());
    let b = table.wrap(ThingImpl::new());
    assert_eq!(a.vtable(), b.vtable());
    assert_eq!(a.vtable(), ThingVtable { tag: 9 });
    assert_eq!(table.vtable(), Some(ThingVtable { tag: 9 }));
    assert_ne!(a.raw(), b.raw());
}

#[test]
fn reclaimed_handle_reaches_nothing() {
    let mut table: ThingTable<ThingImpl> = ThingTable::new(2);
    let proxy = table.wrap(ThingImpl::new());
    let vtable = proxy.vtable();
    let raw = proxy.raw();
    assert!(proxy.destroy(&mut table).is_ok());
    assert!(!table.is_live(raw));
    assert_eq!(vtable.number(&mut table, raw), Err(BridgeError::Dangling));
    let later = table.wrap(ThingImpl::new());
    assert_ne!(later.raw(), raw);
    assert_eq!(vtable.number(&mut table, raw), Err(BridgeError::Dangling));
    assert_eq!(later.number(&mut table), Ok(42));
}

#[test]
fn mismatched_descriptor_is_refused() {
    let mut table: ThingTable<ThingImpl> = ThingTable::new(4);
    let proxy = table.wrap(ThingImpl::new());
    let forged = ThingExternal::from_raw(ThingVtable { tag: 5 }, proxy.raw());
    assert_eq!(forged.number(&mut table), Err(BridgeError::VtableMismatch));
    assert!(matches!(forged.destroy(&mut table), Err(BridgeError::VtableMismatch)));
    assert!(table.is_live(proxy.raw()));
    assert!(table.reclaimed().is_empty());
}

#[test]
fn descriptor_missing_before_first_wrap() {
    let mut table: ThingTable<ThingImpl> = ThingTable::new(4);
    let stray = ThingExternal::from_raw(ThingVtable { tag: 4 }, 0);
    assert_eq!(stray.number(&mut table), Err(BridgeError::VtableMismatch));
}

#[test]
fn never_issued_handle_is_dangling() {
    let mut table: ThingTable<ThingImpl> = ThingTable::new(4);
    let proxy = table.wrap(ThingImpl::new());
    let stray = ThingExternal::from_raw(proxy.vtable(), 7);
    assert_eq!(stray.number(&mut table), Err(BridgeError::Dangling));
    assert!(matches!(stray.destroy(&mut table), Err(BridgeError::Dangling)));
}

#[test]
fn host_failure_still_reclaims() {
    let mut table: ThingTable<ThingImpl> = ThingTable::new(6);
    let proxy = table.wrap(ThingImpl::new());
    let vtable = proxy.vtable();
    let (n, raw) = enter(&mut table, proxy).unwrap();
    assert_eq!(n, 42);
    let end = conclude(&mut table, vtable, raw, HostOutcome::Failed);
    assert!(end.host_failed);
    assert!(end.reclaimed.is_ok());
    assert_eq!(table.reclaimed().clone(), vec![raw]);
    assert!(!table.is_live(raw));
}

#[test]
fn entry_refuses_reclaimed_handle() {
    let mut table: ThingTable<ThingImpl> = ThingTable::new(6);
    let proxy = table.wrap(ThingImpl::new());
    let vtable = proxy.vtable();
    let raw = proxy.raw();
    assert!(proxy.destroy(&mut table).is_ok());
    let again = ThingExternal::from_raw(vtable, raw);
    assert_eq!(enter(&mut table, again), Err(BridgeError::Dangling));
    let end = conclude(&mut table, vtable, raw, HostOutcome::Returned);
    assert!(!end.host_failed);
    assert!(matches!(end.reclaimed, Err(BridgeError::Dangling)));
    assert_eq!(table.reclaimed().clone(), vec![raw]);
}

#[test]
fn end_to_end_scenario() {
    let mut table: ThingTable<ThingImpl> = ThingTable::new(1);
    let proxy = table.wrap(ThingImpl::new());
    let vtable = proxy.vtable();
    let mut output: Vec<String> = Vec::new();
    let (n, raw) = enter(&mut table, proxy).unwrap();
    output.push(format!("Got into rust {}", n));
    // The collaborator calls the operation through the descriptor.
    let host_value = vtable.number(&mut table, raw).unwrap();
    output.push(format!("python main: {}", host_value));
    assert!(table.reclaimed().is_empty());
    let end = conclude(&mut table, vtable, raw, HostOutcome::Returned);
    assert!(!end.host_failed);
    assert!(end.reclaimed.is_ok());
    assert_eq!(output, vec!["Got into rust 42".to_string(), "python main: 42".to_string()]);
    assert_eq!(output.iter().filter(|l| l.contains("42")).count(), 2);
    assert_eq!(table.reclaimed().clone(), vec![raw]);
}

#[test]
fn holder_forwards_to_payload() {
    let mut holder = ThingInstance::new(ThingVtable { tag: 8 }, ThingImpl::new());
    assert_eq!(holder.vtable, ThingVtable { tag: 8 });
    assert_eq!(holder.vtable_number(), 42);
    let _payload: ThingImpl = holder.vtable_destroy();
}
