use localchat::address::{first_usable, format_ipv4, push_decimal};
use localchat::discovery::{
    host_label, instance_of_fullname, on_removed, on_resolved, own_fullname, registration_record,
    select_local_address, status_snapshot,
};
use localchat::identity::derive_identity;
use localchat::registry::PeerRegistry;
use localchat::{DaemonToGuiMessage, InterfaceAddress, IpAddress, ResolvedService};

const LOOPBACK: IpAddress = IpAddress::V4(127, 0, 0, 1);
const V6: IpAddress = IpAddress::V6(0xfe80, 0, 0, 0, 0, 0, 0, 1);

fn resolved(fullname: &str, full_id: Option<&str>, username: Option<&str>, addrs: Vec<IpAddress>) -> ResolvedService {
    ResolvedService {
        fullname: fullname.to_string(),
        full_id: full_id.map(|s| s.to_string()),
        username: username.map(|s| s.to_string()),
        addresses: addrs,
        port: 12345,
    }
}

#[test]
fn ipv4_text_and_decimal() {
    assert_eq!(format_ipv4(192, 168, 1, 20), "192.168.1.20");
    assert_eq!(format_ipv4(0, 0, 0, 0), "0.0.0.0");
    assert_eq!(format_ipv4(255, 10, 100, 9), "255.10.100.9");
    let mut s = String::from("port ");
    push_decimal(&mut s, 65535);
    assert_eq!(s, "port 65535");
}

#[test]
fn first_usable_skips_loopback_and_v6() {
    assert_eq!(first_usable(&vec![LOOPBACK, V6, IpAddress::V4(10, 0, 0, 5)]), Some(2));
    assert_eq!(first_usable(&vec![LOOPBACK, V6]), None);
    assert_eq!(first_usable(&vec![]), None);
}

#[test]
fn host_label_normalises_interface_names() {
    assert_eq!(host_label("eth0"), "eth0");
    assert_eq!(host_label("Wi-Fi 2"), "wi-fi-2");
    assert_eq!(host_label(" (En0) "), "en0");
    assert_eq!(host_label("---"), "localchat-host");
    assert_eq!(host_label(""), "localchat-host");
    assert_eq!(host_label("DefaultIface"), "defaultiface");
}

#[test]
fn fullname_parts() {
    assert_eq!(own_fullname("Alice_ab12CD34"), "Alice_ab12CD34._localchat._tcp.local.");
    assert_eq!(instance_of_fullname("Bob_1._localchat._tcp.local."), "Bob_1");
    assert_eq!(instance_of_fullname("nodots"), "nodots");
    assert_eq!(instance_of_fullname(".leading"), "");
}

#[test]
fn local_address_choice_and_status() {
    let cands = vec![
        InterfaceAddress { interface: "lo".to_string(), address: LOOPBACK },
        InterfaceAddress { interface: "eth0".to_string(), address: V6 },
        InterfaceAddress { interface: "wlan0".to_string(), address: IpAddress::V4(192, 168, 0, 7) },
        InterfaceAddress { interface: "eth1".to_string(), address: IpAddress::V4(10, 1, 1, 1) },
    ];
    let chosen = select_local_address(&cands);
    assert_eq!(chosen, Some((IpAddress::V4(192, 168, 0, 7), "wlan0".to_string())));
    match status_snapshot(&chosen) {
        DaemonToGuiMessage::DaemonStatus { is_connected_to_network, active_interface_name } => {
            assert!(is_connected_to_network);
            assert_eq!(active_interface_name, Some("wlan0".to_string()));
        }
        other => panic!("unexpected {:?}", other),
    }
    let none = select_local_address(&vec![InterfaceAddress { interface: "lo".to_string(), address: LOOPBACK }]);
    assert_eq!(none, None);
    match status_snapshot(&none) {
        DaemonToGuiMessage::DaemonStatus { is_connected_to_network, active_interface_name } => {
            assert!(!is_connected_to_network);
            assert_eq!(active_interface_name, None);
        }
        other => panic!("unexpected {:?}", other),
    }
}

#[test]
fn registration_record_fields() {
    let me = derive_identity("Alice", "ab12CD34");
    let rec = registration_record(&me, &Some((IpAddress::V4(10, 0, 0, 4), "Wlan 0".to_string())), 12345, "0.1.0");
    assert_eq!(rec.service_type, "_localchat._tcp.local.");
    assert_eq!(rec.instance_name, "Alice_ab12CD34");
    assert_eq!(rec.host_name, "wlan-0.local.");
    assert_eq!(rec.address, IpAddress::V4(10, 0, 0, 4));
    assert_eq!(rec.port, 12345);
    assert_eq!(
        rec.properties,
        vec![
            ("username".to_string(), "Alice".to_string()),
            ("full_id".to_string(), "Alice - ab12CD34".to_string()),
            ("version".to_string(), "0.1.0".to_string()),
        ]
    );
    let fallback = registration_record(&me, &None, 4000, "1");
    assert_eq!(fallback.address, IpAddress::V4(0, 0, 0, 0));
    assert_eq!(fallback.host_name, "defaultiface.local.");
}

#[test]
fn own_announcement_never_enters_registry() {
    let own = own_fullname("Alice_ab12CD34");
    let mut r = PeerRegistry::new();
    let ev = resolved(&own, Some("Alice - ab12CD34"), Some("Alice"), vec![IpAddress::V4(10, 0, 0, 4)]);
    assert!(!on_resolved(&mut r, &own, &ev));
    assert_eq!(r.len(), 0);
}

#[test]
fn resolved_peer_is_stored_with_attributes() {
    let own = own_fullname("Alice_ab12CD34");
    let mut r = PeerRegistry::new();
    let ev = resolved(
        "Bob_zz99._localchat._tcp.local.",
        Some("Bob - zz99"),
        Some("Bob"),
        vec![V6, LOOPBACK, IpAddress::V4(10, 0, 0, 7), IpAddress::V4(10, 0, 0, 8)],
    );
    assert!(on_resolved(&mut r, &own, &ev));
    let p = r.get("Bob - zz99").unwrap();
    assert_eq!(p.username, "Bob");
    assert_eq!(p.ip, "10.0.0.7");
    assert_eq!(p.port, 12345);
}

#[test]
fn resolved_peer_without_attributes_uses_names() {
    let mut r = PeerRegistry::new();
    let ev = resolved("Carol_1._localchat._tcp.local.", None, None, vec![IpAddress::V4(172, 16, 0, 1)]);
    assert!(on_resolved(&mut r, "Me_1._localchat._tcp.local.", &ev));
    let p = r.get("Carol_1._localchat._tcp.local.").unwrap();
    assert_eq!(p.username, "Carol_1");
    assert_eq!(p.ip, "172.16.0.1");
}

#[test]
fn resolved_peer_without_ipv4_is_dropped() {
    let mut r = PeerRegistry::new();
    let ev = resolved("Dan_1._localchat._tcp.local.", Some("Dan - 1"), Some("Dan"), vec![V6, LOOPBACK]);
    assert!(!on_resolved(&mut r, "Me_1._localchat._tcp.local.", &ev));
    assert_eq!(r.len(), 0);
}

#[test]
fn removed_announcement_forgets_peer() {
    let mut r = PeerRegistry::new();
    let ev = resolved("Bob_zz99._localchat._tcp.local.", Some("Bob - zz99"), Some("Bob"), vec![IpAddress::V4(10, 0, 0, 7)]);
    on_resolved(&mut r, "Me_1._localchat._tcp.local.", &ev);
    assert!(!on_removed(&mut r, "Other_1._localchat._tcp.local."));
    assert_eq!(r.len(), 1);
    assert!(on_removed(&mut r, "Bob_zz99._localchat._tcp.local."));
    assert_eq!(r.len(), 0);
}
