use pd_interceptor::capability::{
    Battery, CapabilitySet, FixedSupply, PowerDataObject, VariableSupply,
};
use pd_interceptor::policy::{select_request, Request};

fn fixed(voltage: u32, max_current: u32) -> PowerDataObject {
    PowerDataObject::FixedSupply(FixedSupply {
        voltage,
        max_current,
    })
}

fn battery() -> PowerDataObject {
    PowerDataObject::Battery(Battery {
        min_voltage: 4000,
        max_voltage: 21000,
        max_power: 45000,
    })
}

fn variable() -> PowerDataObject {
    PowerDataObject::VariableSupply(VariableSupply {
        min_voltage: 3300,
        max_voltage: 21000,
        max_current: 3000,
    })
}

#[test]
fn highest_voltage_fixed_supply_wins() {
    let caps = CapabilitySet::new(vec![fixed(5000, 3000), fixed(9000, 2000), battery()]);
    assert_eq!(
        select_request(&caps),
        Some(Request::RequestPower {
            index: 1,
            current: 2000,
        })
    );
}

#[test]
fn tie_break_takes_first_occurrence() {
    let caps = CapabilitySet::new(vec![fixed(5000, 3000), fixed(5000, 1500)]);
    assert_eq!(
        select_request(&caps),
        Some(Request::RequestPower {
            index: 0,
            current: 3000,
        })
    );
}

#[test]
fn no_fixed_supply_yields_no_request() {
    let caps = CapabilitySet::new(vec![battery(), variable()]);
    assert_eq!(select_request(&caps), None);
}

#[test]
fn empty_announcement_yields_no_request() {
    let caps = CapabilitySet::new(Vec::new());
    assert_eq!(select_request(&caps), None);
}

#[test]
fn single_fixed_supply_is_selected() {
    let caps = CapabilitySet::new(vec![fixed(5000, 900)]);
    assert_eq!(
        select_request(&caps),
        Some(Request::RequestPower {
            index: 0,
            current: 900,
        })
    );
}

#[test]
fn request_current_equals_advertised_ceiling() {
    // The winner is the highest-voltage entry, and the requested current is
    // its own ceiling — not the larger current another entry advertises.
    let caps = CapabilitySet::new(vec![fixed(9000, 500), fixed(5000, 3000)]);
    assert_eq!(
        select_request(&caps),
        Some(Request::RequestPower {
            index: 0,
            current: 500,
        })
    );
}

#[test]
fn fixed_supplies_keep_original_indices() {
    let caps = CapabilitySet::new(vec![
        battery(),
        fixed(5000, 3000),
        variable(),
        fixed(9000, 2000),
        PowerDataObject::Unknown,
    ]);
    let projected = caps.fixed_supplies();
    assert_eq!(
        projected,
        vec![
            (
                1,
                FixedSupply {
                    voltage: 5000,
                    max_current: 3000,
                }
            ),
            (
                3,
                FixedSupply {
                    voltage: 9000,
                    max_current: 2000,
                }
            ),
        ]
    );
}

#[test]
fn fixed_only_projection_is_empty_without_fixed_entries() {
    let caps = CapabilitySet::new(vec![battery(), variable(), PowerDataObject::Unknown]);
    assert!(caps.fixed_supplies().is_empty());
    assert_eq!(caps.len(), 3);
}
