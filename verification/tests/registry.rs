use ladspa_bridge::descriptor::PluginDescriptor;
use ladspa_bridge::descriptor::Port;
use ladspa_bridge::ports::PortKind;
use ladspa_bridge::registry::Registry;
use ladspa_bridge::registry::RegistryError;
use ladspa_bridge::registry::MAX_DESCRIPTORS;

fn stub_plugin(id: u64) -> PluginDescriptor {
    PluginDescriptor {
        unique_id: id,
        label: b"stub".to_vec(),
        properties: 0,
        name: b"Stub".to_vec(),
        maker: b"m".to_vec(),
        copyright: b"c".to_vec(),
        ports: vec![Port {
            kind: PortKind::AudioInput,
            name: b"Input".to_vec(),
            hint: None,
            default: None,
            lower_bound: None,
            upper_bound: None,
        }],
    }
}

#[test]
fn lookup_of_registered_index_is_stable() {
    let mut reg = Registry::new();
    reg.register(stub_plugin(7)).unwrap();
    reg.register(stub_plugin(8)).unwrap();
    let first = {
        let e = reg.lookup(0).unwrap();
        (e.abi.unique_id, e.abi.label.clone(), e.abi.port_descriptors.clone())
    };
    let second = {
        let e = reg.lookup(0).unwrap();
        (e.abi.unique_id, e.abi.label.clone(), e.abi.port_descriptors.clone())
    };
    assert_eq!(first, second);
    assert_eq!(first.0, 7);
    // Registering more plugins leaves already-built entries untouched.
    reg.register(stub_plugin(9)).unwrap();
    let third = reg.lookup(0).unwrap();
    assert_eq!(third.abi.unique_id, 7);
    assert_eq!(reg.lookup(1).unwrap().abi.unique_id, 8);
}

#[test]
fn lookup_beyond_built_range_is_none() {
    let mut reg = Registry::new();
    assert!(reg.lookup(0).is_none());
    reg.register(stub_plugin(1)).unwrap();
    assert!(reg.lookup(0).is_some());
    assert!(reg.lookup(1).is_none());
    assert!(reg.lookup(1000).is_none());
}

#[test]
fn register_keeps_marshaled_and_original_descriptions() {
    let mut reg = Registry::new();
    let idx = reg.register(stub_plugin(42)).unwrap();
    assert_eq!(idx, 0);
    let e = reg.lookup(0).unwrap();
    assert_eq!(e.abi.unique_id, 42);
    assert_eq!(e.abi.port_names, vec![b"Input\0".to_vec()]);
    assert_eq!(e.source.unique_id, 42);
    assert_eq!(e.source.ports.len(), 1);
    assert_eq!(e.source.ports[0].name, b"Input".to_vec());
}

#[test]
fn never_exhausting_catalog_hits_the_fatal_capacity_path() {
    // A catalog stub that always has one more plugin: registration must
    // deterministically report the fatal condition when the fixed
    // capacity is reached, and not before.
    let mut reg = Registry::new();
    let mut fatal: Option<usize> = None;
    for i in 0..MAX_DESCRIPTORS as u64 {
        match reg.register(stub_plugin(i)) {
            Ok(idx) => assert_eq!(idx as u64, i),
            Err(RegistryError::CapacityExhausted) => {
                fatal = Some(i as usize);
                break;
            }
        }
    }
    assert_eq!(fatal, Some(MAX_DESCRIPTORS - 1));
    assert_eq!(reg.count(), MAX_DESCRIPTORS);
}
