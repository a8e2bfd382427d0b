use rlxc::error::Error;
use rlxc::lxc::{
    get_default_path, get_global_config_item, get_version, list_all_containers, set_log, Lxc,
};
use rlxc::log_options::LogOptions;
use rlxc::native::{CallRecord, ContainerDef, InterfaceDef, NativeLayer};

#[test]
fn listing_yields_names_in_order_and_leaks_nothing() {
    let mut n = NativeLayer::new();
    n.add_container(ContainerDef::new("/var/lib/x", "web"));
    n.add_container(ContainerDef::new("/var/lib/x", "db"));
    let before = n.heap.live_count();
    let it = list_all_containers("/var/lib/x", &mut n).unwrap();
    let names = it.drain(&mut n.heap);
    assert_eq!(names, vec!["web".to_string(), "db".to_string()]);
    assert_eq!(n.heap.live_count(), before);
    assert_eq!(n.heap.live_count(), 0);
}

#[test]
fn listing_filters_by_path() {
    let mut n = NativeLayer::new();
    n.add_container(ContainerDef::new("/var/lib/x", "web"));
    n.add_container(ContainerDef::new("/var/lib/y", "db"));
    let it = list_all_containers("/var/lib/y", &mut n).unwrap();
    assert_eq!(it.drain(&mut n.heap), vec!["db".to_string()]);
    assert_eq!(n.heap.live_count(), 0);
}

#[test]
fn listing_an_unknown_path_is_empty() {
    let mut n = NativeLayer::new();
    n.add_container(ContainerDef::new("/var/lib/x", "web"));
    let it = list_all_containers("/elsewhere", &mut n).unwrap();
    assert_eq!(it.drain(&mut n.heap), Vec::<String>::new());
    assert_eq!(n.heap.live_count(), 0);
}

#[test]
fn listing_failure_is_reported() {
    let mut n = NativeLayer::new();
    n.enumerate_fails = true;
    let r = list_all_containers("/var/lib/x", &mut n);
    assert!(matches!(r, Err(Error::EnumerationFailed)));
}

#[test]
fn listing_rejects_a_path_with_nul() {
    let mut n = NativeLayer::new();
    let r = list_all_containers("/var\0lib", &mut n);
    assert!(matches!(r, Err(Error::InvalidInput)));
}

#[test]
fn interfaces_and_addresses() {
    let mut n = NativeLayer::new();
    n.add_container(ContainerDef::new("/var/lib/x", "web"));
    let mut lo = InterfaceDef::new("lo");
    lo.ipv4.push(b"127.0.0.1".to_vec());
    let mut eth = InterfaceDef::new("eth0");
    eth.ipv4.push(b"10.0.0.2".to_vec());
    eth.ipv6.push(b"fe80::1".to_vec());
    n.defs[0].interfaces.push(lo);
    n.defs[0].interfaces.push(eth);
    let c = Lxc::new("web", "/var/lib/x", &mut n).unwrap();
    c.start(false, Vec::new(), &mut n).unwrap();

    let it = c.get_interfaces(&mut n);
    let ifaces = it.drain(&mut n.heap);
    assert_eq!(ifaces, vec!["lo".to_string(), "eth0".to_string()]);

    let v4 = c.get_ipv4("eth0", &mut n).unwrap().drain(&mut n.heap);
    assert_eq!(v4, vec!["10.0.0.2".to_string()]);
    let v6 = c.get_ipv6("eth0", &mut n).unwrap().drain(&mut n.heap);
    assert_eq!(v6, vec!["fe80::1".to_string()]);

    // The loopback device has no IPv6 addresses: the empty sequence.
    let none = c.get_ipv6("lo", &mut n).unwrap().drain(&mut n.heap);
    assert_eq!(none, Vec::<String>::new());
    // An unknown interface also yields the empty sequence.
    let unknown = c.get_ipv4("wlan0", &mut n).unwrap().drain(&mut n.heap);
    assert_eq!(unknown, Vec::<String>::new());
    assert_eq!(n.heap.live_count(), 0);
    c.release(&mut n);
}

#[test]
fn interfaces_of_a_stopped_container_are_empty() {
    let mut n = NativeLayer::new();
    n.add_container(ContainerDef::new("/var/lib/x", "web"));
    n.defs[0].interfaces.push(InterfaceDef::new("eth0"));
    let c = Lxc::new("web", "/var/lib/x", &mut n).unwrap();
    let it = c.get_interfaces(&mut n);
    assert_eq!(it.drain(&mut n.heap), Vec::<String>::new());
    assert_eq!(n.heap.live_count(), 0);
    c.release(&mut n);
}

#[test]
fn interface_name_with_nul_is_rejected() {
    let mut n = NativeLayer::new();
    n.add_container(ContainerDef::new("/var/lib/x", "web"));
    let c = Lxc::new("web", "/var/lib/x", &mut n).unwrap();
    assert!(matches!(c.get_ipv4("eth\0", &mut n), Err(Error::InvalidInput)));
    c.release(&mut n);
}

#[test]
fn version_and_config() {
    let mut n = NativeLayer::new();
    n.version = b"5.0.3".to_vec();
    n.add_config("lxc.lxcpath", "/var/lib/lxc");
    assert_eq!(get_version(&n), "5.0.3");
    assert_eq!(get_global_config_item("lxc.lxcpath", &n).unwrap(), "/var/lib/lxc");
    assert_eq!(get_default_path(&n), "/var/lib/lxc");
    assert_eq!(
        get_global_config_item("lxc.unknown", &n),
        Err(Error::ConfigKeyNotFound)
    );
    assert_eq!(
        get_global_config_item("bad\0key", &n),
        Err(Error::InvalidInput)
    );
}

#[test]
fn default_path_is_empty_when_unset() {
    let n = NativeLayer::new();
    assert_eq!(get_default_path(&n), "");
}

#[test]
fn undecodable_version_is_unknown() {
    let mut n = NativeLayer::new();
    n.version = vec![0xff, 0xfe];
    assert_eq!(get_version(&n), "unknown");
}

#[test]
fn undecodable_config_value_is_invalid_encoding() {
    let mut n = NativeLayer::new();
    n.add_config("lxc.lxcpath", "/var/lib/lxc");
    n.config[0].value = vec![0xff];
    assert_eq!(
        get_global_config_item("lxc.lxcpath", &n),
        Err(Error::InvalidEncoding)
    );
    assert_eq!(get_default_path(&n), "");
}

#[test]
fn set_log_consumes_the_record() {
    let mut n = NativeLayer::new();
    let opts = LogOptions::new().set_log_file("/tmp/x.log").unwrap().set_log_level("ERROR").unwrap();
    set_log(&opts, &mut n).unwrap();
    match n.calls.last().unwrap() {
        CallRecord::LogInit { record } => {
            assert_eq!(record.file.as_deref(), Some(b"/tmp/x.log\0".as_slice()));
            assert_eq!(record.level.as_deref(), Some(b"ERROR\0".as_slice()));
        }
        _ => panic!("expected a log initialization call"),
    }
    n.log_ok = false;
    assert_eq!(set_log(&opts, &mut n), Err(Error::LogInitFailed));
}

#[test]
fn undecodable_container_name_yields_the_placeholder() {
    let mut n = NativeLayer::new();
    n.add_container(ContainerDef::new("/var/lib/x", "web"));
    n.defs[0].name = vec![0xff, 0xfe];
    let it = list_all_containers("/var/lib/x", &mut n).unwrap();
    assert_eq!(it.drain(&mut n.heap), vec!["<invalid utf8>".to_string()]);
    assert_eq!(n.heap.live_count(), 0);
}
