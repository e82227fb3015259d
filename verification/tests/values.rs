use sim_protocol::from_simulator::{
    Envelope, NewValues, NewValuesEnum, RawValue, SignalValuesInRange, SimulationUpdate,
};
use sim_protocol::time::{Delta, LogicalTime, PhysicalTime};
use sim_protocol::{Logic, SignalInstanceId, SignalValueType};

fn lt(physical: u64, delta: u64) -> LogicalTime {
    LogicalTime::new(PhysicalTime(physical), Delta(delta))
}

#[test]
fn raw_value_round_trips_f64_bit_for_bit() {
    let cases: [f64; 7] = [
        0.0,
        -0.0,
        1.5,
        -3.25e300,
        f64::INFINITY,
        f64::NEG_INFINITY,
        f64::from_bits(0x7ff8_0000_0000_0123),
    ];
    for x in cases {
        let raw = RawValue::from_bits(x.to_bits());
        assert_eq!(f64::from_bits(raw.0).to_bits(), x.to_bits());
        if !x.is_nan() {
            assert_eq!(f64::from_bits(raw.0), x);
        }
    }
    let negative_zero = RawValue::from_bits((-0.0f64).to_bits());
    assert!(f64::from_bits(negative_zero.0).is_sign_negative());
    assert_eq!(RawValue::from_bits(7).to_bits(), 7);
}

#[test]
fn new_batch_is_empty_and_keeps_its_signal() {
    let id = SignalInstanceId(5);
    let nv: NewValues<u8> = NewValues::new(id);
    assert_eq!(nv.signal_instance_id, id);
    assert!(nv.timestamps.is_empty());
    assert!(nv.values.is_empty());
}

#[test]
fn clone_empty_keeps_signal_and_drops_events() {
    let id = SignalInstanceId(5);
    let mut nv: NewValues<u8> = NewValues::new(id);
    nv.push_event(lt(1, 0), 10);
    nv.push_event(lt(2, 0), 20);
    let empty = nv.clone_empty();
    assert_eq!(empty.signal_instance_id, id);
    assert!(empty.timestamps.is_empty());
    assert!(empty.values.is_empty());
    assert_eq!(nv.timestamps.len(), 2);
}

#[test]
fn push_event_appends_in_order() {
    let mut nv: NewValues<Logic> = NewValues::new(SignalInstanceId(9));
    nv.push_event(lt(1, 0), Logic::Zero);
    nv.push_event(lt(1, 1), Logic::One);
    nv.push_event(lt(4, 0), Logic::Z);
    assert_eq!(nv.timestamps, vec![lt(1, 0), lt(1, 1), lt(4, 0)]);
    assert_eq!(nv.values, vec![Logic::Zero, Logic::One, Logic::Z]);
}

#[test]
fn typed_batch_construction_per_value_domain() {
    let id = SignalInstanceId(3);
    assert!(matches!(NewValuesEnum::new(id, SignalValueType::F64), NewValuesEnum::F64(_)));
    assert!(matches!(NewValuesEnum::new(id, SignalValueType::Logic), NewValuesEnum::Logic(_)));
    assert!(matches!(NewValuesEnum::new(id, SignalValueType::U8), NewValuesEnum::U8(_)));
    let b = NewValuesEnum::new(id, SignalValueType::U8);
    assert_eq!(b.get_signal_instance_id(), id);
}

#[test]
fn typed_batch_clone_empty_keeps_domain_and_signal() {
    let id = SignalInstanceId(3);
    let mut nv: NewValues<RawValue> = NewValues::new(id);
    nv.push_event(lt(1, 0), RawValue(0x3ff0_0000_0000_0000));
    let b = NewValuesEnum::F64(nv);
    let e = b.clone_empty();
    assert_eq!(e.get_signal_instance_id(), id);
    match e {
        NewValuesEnum::F64(inner) => {
            assert!(inner.timestamps.is_empty());
            assert!(inner.values.is_empty());
        },
        _ => panic!("clone_empty changed the value domain"),
    }
}

#[test]
fn well_formed_update_passes_the_check() {
    let mut nv: NewValues<u8> = NewValues::new(SignalInstanceId(7));
    nv.push_event(lt(50, 0), 42);
    let mut update = SignalValuesInRange::new(lt(0, 0)..lt(100, 0));
    update.push_batch(NewValuesEnum::U8(nv));
    assert!(update.check_well_formed());
}

#[test]
fn empty_batch_in_update_is_valid() {
    let mut update = SignalValuesInRange::new(lt(0, 0)..lt(100, 0));
    update.push_batch(NewValuesEnum::new(SignalInstanceId(7), SignalValueType::U8));
    assert!(update.check_well_formed());
    assert_eq!(update.values_in_range.len(), 1);
}

#[test]
fn event_outside_declared_range_fails_the_check() {
    let mut nv: NewValues<u8> = NewValues::new(SignalInstanceId(7));
    nv.push_event(lt(100, 0), 42);
    let update = SignalValuesInRange {
        time_range: lt(0, 0)..lt(100, 0),
        values_in_range: vec![NewValuesEnum::U8(nv)],
    };
    assert!(!update.check_well_formed());
    let mut early: NewValues<u8> = NewValues::new(SignalInstanceId(7));
    early.push_event(lt(1, 0), 1);
    let update = SignalValuesInRange {
        time_range: lt(2, 0)..lt(100, 0),
        values_in_range: vec![NewValuesEnum::U8(early)],
    };
    assert!(!update.check_well_formed());
}

#[test]
fn unsorted_or_mismatched_columns_fail_the_check() {
    let unsorted = NewValues::<u8> {
        signal_instance_id: SignalInstanceId(7),
        timestamps: vec![lt(5, 0), lt(4, 0)],
        values: vec![1, 2],
    };
    let update = SignalValuesInRange {
        time_range: lt(0, 0)..lt(100, 0),
        values_in_range: vec![NewValuesEnum::U8(unsorted)],
    };
    assert!(!update.check_well_formed());
    let mismatched = NewValues::<u8> {
        signal_instance_id: SignalInstanceId(7),
        timestamps: vec![lt(5, 0)],
        values: vec![],
    };
    let update = SignalValuesInRange {
        time_range: lt(0, 0)..lt(100, 0),
        values_in_range: vec![NewValuesEnum::U8(mismatched)],
    };
    assert!(!update.check_well_formed());
}

#[test]
fn batch_lookup_goes_by_signal_id() {
    let mut update = SignalValuesInRange::new(lt(0, 0)..lt(10, 0));
    update.push_batch(NewValuesEnum::new(SignalInstanceId(1), SignalValueType::Logic));
    update.push_batch(NewValuesEnum::new(SignalInstanceId(2), SignalValueType::U8));
    assert_eq!(update.batch_index_for(SignalInstanceId(1)), Some(0));
    assert_eq!(update.batch_index_for(SignalInstanceId(2)), Some(1));
    assert_eq!(update.batch_index_for(SignalInstanceId(3)), None);
}

#[test]
fn envelope_addresses_one_simulation() {
    let e = Envelope::new(11, SimulationUpdate::SimulationStarted);
    assert_eq!(e.simulation_id, 11);
    assert!(matches!(e.message, SimulationUpdate::SimulationStarted));
}
