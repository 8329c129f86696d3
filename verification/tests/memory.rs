use tracefp::memory::{load, Load, LoadRequest};

/// Carries out a load the way a caller does: the probe answers `accessible`,
/// and a read is served from `cell` where the address asked for is `home`.
fn carry_out<T: Copy>(address: u64, guarded: bool, accessible: bool, home: u64, cell: &T) -> Option<T> {
    let mut pending: Load<T> = load(address, guarded);
    let mut requests = 0;
    loop {
        requests += 1;
        assert!(requests <= 3, "a load takes two requests at most before it returns");
        pending = match pending.request() {
            LoadRequest::Probe { address: asked } => {
                assert_eq!(asked, address);
                pending.probed(accessible)
            }
            LoadRequest::Read { address: asked } => {
                assert_eq!(asked, home, "a read outside the cell would fault");
                pending.read(*cell)
            }
            LoadRequest::Return => return pending.value(),
        };
    }
}

fn address_of<T>(cell: &T) -> u64 {
    std::ptr::from_ref(cell).addr() as u64
}

#[test]
fn test_load() {
    let val = i8::MIN;
    let loc = address_of(&val);
    assert_eq!(carry_out::<i8>(loc, false, true, loc, &val), Some(val));
    let val = u64::MAX;
    let loc = address_of(&val);
    assert_eq!(carry_out::<u64>(loc, false, true, loc, &val), Some(val));
}

#[test]
fn guarded_load_of_an_accessible_address_reads_it() {
    let val = 0x1122_3344_5566_7788u64;
    let loc = address_of(&val);
    assert_eq!(carry_out::<u64>(loc, true, true, loc, &val), Some(val));
}

#[test]
fn guarded_load_of_a_refused_address_reads_nothing() {
    let val = 7u64;
    // The cell is at an address the load never asks to read.
    assert_eq!(carry_out::<u64>(0, true, false, address_of(&val), &val), None);
    assert_eq!(carry_out::<u64>(u64::MAX, true, false, address_of(&val), &val), None);
}

#[test]
fn unguarded_load_starts_with_the_read() {
    let started: Load<u64> = load(0x7000, false);
    assert_eq!(started, Load::Reading { address: 0x7000 });
    assert_eq!(started.request(), LoadRequest::Read { address: 0x7000 });
}

#[test]
fn guarded_load_starts_with_the_probe() {
    let started: Load<u64> = load(0x7000, true);
    assert_eq!(started, Load::Probing { address: 0x7000 });
    assert_eq!(started.request(), LoadRequest::Probe { address: 0x7000 });
    assert_eq!(load::<u64>(0x7000, true).probed(true), Load::Reading { address: 0x7000 });
    assert_eq!(load::<u64>(0x7000, true).probed(false), Load::Refused);
}

#[test]
fn load_ignores_what_it_did_not_ask_for() {
    // A value handed in while the probe is awaited is not taken.
    assert_eq!(load::<u64>(0x7000, true).read(5), Load::Probing { address: 0x7000 });
    // A probe answer handed in while the read is awaited changes nothing.
    assert_eq!(load::<u64>(0x7000, false).probed(false), Load::Reading { address: 0x7000 });
    // Nothing changes a load that has come to its end.
    assert_eq!(load::<u64>(0x7000, false).read(5).read(6), Load::Loaded { value: 5 });
    assert_eq!(load::<u64>(0x7000, false).read(5).probed(false), Load::Loaded { value: 5 });
    assert_eq!(load::<u64>(0x7000, true).probed(false).read(6), Load::Refused);
    assert_eq!(load::<u64>(0x7000, true).probed(false).probed(true), Load::Refused);
}

#[test]
fn load_yields_nothing_before_its_end() {
    assert_eq!(load::<u64>(0x7000, true).value(), None);
    assert_eq!(load::<u64>(0x7000, false).value(), None);
    assert_eq!(load::<u64>(0x7000, false).read(9).value(), Some(9));
    assert_eq!(load::<u64>(0x7000, true).probed(false).value(), None);
}
