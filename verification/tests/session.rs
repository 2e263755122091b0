use pd_interceptor::capability::{Battery, CapabilitySet, FixedSupply, PowerDataObject};
use pd_interceptor::negotiation::iteration_step;
use pd_interceptor::policy::Request;
use pd_interceptor::session::{handle_event, Event, LinkError, PortError, PortSession};

fn announcement() -> Event {
    Event::SourceCapabilitiesChanged(CapabilitySet::new(vec![
        PowerDataObject::FixedSupply(FixedSupply {
            voltage: 5000,
            max_current: 3000,
        }),
        PowerDataObject::FixedSupply(FixedSupply {
            voltage: 9000,
            max_current: 2000,
        }),
    ]))
}

fn battery_only_announcement() -> Event {
    Event::SourceCapabilitiesChanged(CapabilitySet::new(vec![PowerDataObject::Battery(Battery {
        min_voltage: 4000,
        max_voltage: 21000,
        max_power: 45000,
    })]))
}

#[test]
fn capabilities_event_produces_a_request() {
    assert_eq!(
        handle_event(&announcement()),
        Some(Request::RequestPower {
            index: 1,
            current: 2000,
        })
    );
}

#[test]
fn informational_events_produce_no_request() {
    assert_eq!(handle_event(&Event::PowerReady), None);
    assert_eq!(handle_event(&Event::ProtocolChanged), None);
    assert_eq!(handle_event(&Event::PowerAccepted), None);
    assert_eq!(handle_event(&Event::PowerRejected), None);
}

#[test]
fn informational_events_poll_to_no_decision() {
    let mut session = PortSession::new(0);
    for event in [
        Event::PowerReady,
        Event::ProtocolChanged,
        Event::PowerAccepted,
        Event::PowerRejected,
    ] {
        assert_eq!(session.poll_decision(Ok(Some(event))), Ok(None));
    }
}

#[test]
fn battery_only_announcement_is_skipped() {
    let mut session = PortSession::new(0);
    assert_eq!(
        session.poll_decision(Ok(Some(battery_only_announcement()))),
        Ok(None)
    );
}

#[test]
fn empty_cycle_yields_no_decision() {
    let mut session = PortSession::new(0);
    assert_eq!(session.poll_decision(Ok(None)), Ok(None));
}

#[test]
fn receive_failure_surfaces_the_receive_error() {
    let mut session = PortSession::new(0);
    assert_eq!(
        session.poll_decision(Err(LinkError::Receive)),
        Err(PortError::LinkReceiveError)
    );
}

#[test]
fn submit_outcomes_are_classified() {
    let mut session = PortSession::new(0);
    assert_eq!(session.submit_outcome(Ok(())), Ok(()));
    assert_eq!(
        session.submit_outcome(Err(LinkError::Transmit)),
        Err(PortError::LinkSubmitError)
    );
}

#[test]
fn ports_decide_independently() {
    let mut port_a = PortSession::new(0);
    let mut port_b = PortSession::new(1);
    let b_before = port_b;

    let decision_a = port_a.poll_decision(Ok(Some(announcement())));
    let decision_b = port_b.poll_decision(Ok(Some(Event::PowerReady)));

    assert_eq!(
        decision_a,
        Ok(Some(Request::RequestPower {
            index: 1,
            current: 2000,
        }))
    );
    assert_eq!(decision_b, Ok(None));
    assert_eq!(port_b, b_before);
    assert_eq!(port_a, PortSession::new(0));
}

#[test]
fn iteration_visits_every_port_in_order() {
    let polls = vec![
        Ok(Some(announcement())),
        Ok(Some(Event::PowerReady)),
        Ok(None),
        Err(LinkError::Receive),
        Ok(Some(battery_only_announcement())),
    ];
    let actions = iteration_step(&polls);
    assert_eq!(
        actions,
        vec![
            Some(Request::RequestPower {
                index: 1,
                current: 2000,
            }),
            None,
            None,
            None,
            None,
        ]
    );
}
