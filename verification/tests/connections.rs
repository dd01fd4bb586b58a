use ladspa_bridge::descriptor::Port;
use ladspa_bridge::handle::ConnectError;
use ladspa_bridge::handle::Handle;
use ladspa_bridge::handle::PortData;
use ladspa_bridge::ports::PortKind;

fn decl(kind: PortKind, name: &str) -> Port {
    Port {
        kind,
        name: name.as_bytes().to_vec(),
        hint: None,
        default: None,
        lower_bound: None,
        upper_bound: None,
    }
}

fn four_port_handle() -> Handle {
    Handle::new(vec![
        decl(PortKind::AudioInput, "Input"),
        decl(PortKind::AudioOutput, "Output"),
        decl(PortKind::ControlInput, "Gain"),
        decl(PortKind::ControlOutput, "Meter"),
    ])
}

#[test]
fn connecting_all_ports_in_any_order_indexes_by_port_number() {
    for order in [[0usize, 1, 2, 3], [3, 2, 1, 0], [2, 0, 3, 1]] {
        let mut h = four_port_handle();
        assert!(h.ports.is_empty());
        for (step, &p) in order.iter().enumerate() {
            h.connect(p, 0x1000 * (p + 1)).unwrap();
            if step < order.len() - 1 {
                assert!(h.ports.is_empty());
            }
        }
        assert_eq!(h.ports.len(), 4);
        assert_eq!(h.ports[0].port.name, b"Input".to_vec());
        assert_eq!(h.ports[0].data, PortData::AudioInput { base: 0x1000, len: 0 });
        assert_eq!(h.ports[1].data, PortData::AudioOutput { base: 0x2000, len: 0 });
        assert_eq!(h.ports[2].data, PortData::ControlInput { base: 0x3000 });
        assert_eq!(h.ports[3].data, PortData::ControlOutput { base: 0x4000 });
    }
}

#[test]
fn reconnecting_one_port_updates_only_that_slot() {
    let mut h = four_port_handle();
    for p in 0..4 {
        h.connect(p, 0x1000 * (p + 1)).unwrap();
    }
    h.connect(1, 0xBEE0).unwrap();
    assert_eq!(h.ports.len(), 4);
    assert_eq!(h.ports[0].data, PortData::AudioInput { base: 0x1000, len: 0 });
    assert_eq!(h.ports[1].data, PortData::AudioOutput { base: 0xBEE0, len: 0 });
    assert_eq!(h.ports[2].data, PortData::ControlInput { base: 0x3000 });
    assert_eq!(h.ports[3].data, PortData::ControlOutput { base: 0x4000 });
}

#[test]
fn run_rederives_audio_views_from_each_calls_sample_count() {
    let mut h = four_port_handle();
    for p in 0..4 {
        h.connect(p, 0x1000 * (p + 1)).unwrap();
    }
    h.prepare_run(128);
    assert_eq!(h.ports[0].data, PortData::AudioInput { base: 0x1000, len: 128 });
    assert_eq!(h.ports[1].data, PortData::AudioOutput { base: 0x2000, len: 128 });
    assert_eq!(h.ports[2].data, PortData::ControlInput { base: 0x3000 });
    assert_eq!(h.ports[3].data, PortData::ControlOutput { base: 0x4000 });
    // A smaller block size next: nothing of the first call survives.
    h.prepare_run(64);
    assert_eq!(h.ports[0].data, PortData::AudioInput { base: 0x1000, len: 64 });
    assert_eq!(h.ports[1].data, PortData::AudioOutput { base: 0x2000, len: 64 });
    assert_eq!(h.ports[2].data, PortData::ControlInput { base: 0x3000 });
    assert_eq!(h.ports[3].data, PortData::ControlOutput { base: 0x4000 });
}

#[test]
fn audio_views_start_with_length_zero() {
    let mut h = Handle::new(vec![decl(PortKind::AudioOutput, "Out")]);
    h.connect(0, 0x7000).unwrap();
    assert_eq!(h.ports[0].data, PortData::AudioOutput { base: 0x7000, len: 0 });
}

#[test]
fn connecting_a_corrupted_port_kind_is_refused() {
    let mut h = Handle::new(vec![decl(PortKind::Invalid, "Broken"), decl(
        PortKind::AudioInput,
        "Input",
    )]);
    assert_eq!(h.connect(0, 0x1000), Err(ConnectError::InvalidPortKind));
    // The failed connection left the handle unchanged.
    assert!(h.ports.is_empty());
    assert!(h.port_map[0].is_none());
    assert!(h.connect(1, 0x2000).is_ok());
}

#[test]
fn handle_without_ports_is_immediately_runnable() {
    let mut h = Handle::new(Vec::new());
    assert!(h.ports.is_empty());
    h.prepare_run(256);
    assert!(h.ports.is_empty());
}

#[test]
fn replacement_before_completion_keeps_list_unbuilt() {
    let mut h = four_port_handle();
    h.connect(2, 0x100).unwrap();
    h.connect(2, 0x200).unwrap();
    assert!(h.ports.is_empty());
    match h.port_map[2] {
        Some(ref c) => assert_eq!(c.data, PortData::ControlInput { base: 0x200 }),
        None => panic!("slot 2 must be connected"),
    }
}
