use waveshare28_panel::net::{
    hostname, hotspot_ssid, is_v6_link_local, net_state, order_addresses, usable, Address,
    Candidate, HostInfo, Ip, NetMonitor, NetState,
};

fn v4(a: u8, b: u8, c: u8, d: u8) -> Ip {
    Ip::V4([a, b, c, d])
}

fn v6(segs: [u16; 8]) -> Ip {
    let mut o = [0u8; 16];
    for (i, s) in segs.iter().enumerate() {
        o[2 * i] = (s >> 8) as u8;
        o[2 * i + 1] = (s & 0xff) as u8;
    }
    Ip::V6(o)
}

fn octets(ip: Ip) -> [u8; 16] {
    match ip {
        Ip::V6(o) => o,
        Ip::V4(_) => panic!("not v6"),
    }
}

#[test]
fn keeps_routable_v4() {
    assert!(usable(&v4(192, 168, 30, 205)));
    assert!(usable(&v4(10, 0, 0, 7)));
    assert!(usable(&v4(81, 2, 69, 142)));
}

#[test]
fn drops_v4_nobody_can_use() {
    assert!(!usable(&v4(127, 0, 0, 1)));
    assert!(!usable(&v4(169, 254, 11, 9)), "link-local means DHCP failed");
    assert!(!usable(&v4(0, 0, 0, 0)));
}

#[test]
fn keeps_global_and_unique_local_v6() {
    assert!(usable(&v6([0x2001, 0xdb8, 0, 0, 0, 0, 0, 1])));
    assert!(usable(&v6([0xfd00, 0x1234, 0, 0, 0, 0, 0, 5])), "unique local is routable on a LAN");
}

#[test]
fn drops_v6_nobody_can_use() {
    assert!(!usable(&v6([0, 0, 0, 0, 0, 0, 0, 1])));
    assert!(!usable(&v6([0, 0, 0, 0, 0, 0, 0, 0])));
    assert!(!usable(&v6([0xfe80, 0, 0, 0, 0, 0, 0, 1])), "link-local needs a scope id");
    assert!(!usable(&v6([0xff02, 0, 0, 0, 0, 0, 0, 1])));
}

#[test]
fn identifies_v6_link_local_prefix() {
    assert!(is_v6_link_local(&octets(v6([0xfe80, 0, 0, 0, 0, 0, 0, 1]))));
    assert!(is_v6_link_local(&octets(v6([0xfebf, 0, 0, 0, 0, 0, 0, 1]))));
    assert!(!is_v6_link_local(&octets(v6([0xfec0, 0, 0, 0, 0, 0, 0, 1]))));
    assert!(!is_v6_link_local(&octets(v6([0xfd00, 0, 0, 0, 0, 0, 0, 1]))));
}

#[test]
fn v4_multicast_is_dropped() {
    assert!(!usable(&v4(224, 0, 0, 251)));
    assert!(!usable(&v4(239, 255, 255, 250)));
    assert!(usable(&v4(240, 0, 0, 1)));
}

fn cand(iface: &str, addr: &str, ip: Ip, wireless: bool) -> Candidate {
    Candidate { iface: iface.to_string(), addr: addr.to_string(), ip, wireless }
}

#[test]
fn addresses_are_ordered_wired_first_v4_first_and_listed_once() {
    let cands = vec![
        cand("wlan0", "192.168.1.9", v4(192, 168, 1, 9), true),
        cand("eth0", "fd00::5", v6([0xfd00, 0, 0, 0, 0, 0, 0, 5]), false),
        cand("lo", "127.0.0.1", v4(127, 0, 0, 1), false),
        cand("eth0", "10.0.0.7", v4(10, 0, 0, 7), false),
        cand("eth0", "10.0.0.7", v4(10, 0, 0, 7), false),
        cand("eth0", "fe80::1", v6([0xfe80, 0, 0, 0, 0, 0, 0, 1]), false),
    ];
    let got = order_addresses(&cands);
    let pairs: Vec<(String, String)> = got.into_iter().map(|a| (a.iface, a.addr)).collect();
    assert_eq!(
        pairs,
        vec![
            ("eth0".to_string(), "10.0.0.7".to_string()),
            ("eth0".to_string(), "fd00::5".to_string()),
            ("wlan0".to_string(), "192.168.1.9".to_string()),
        ]
    );
}

#[test]
fn hostname_gets_the_mdns_suffix() {
    assert_eq!(hostname(Some("volumio\n")), "volumio.local");
    assert_eq!(hostname(Some("  \n")), "");
    assert_eq!(hostname(None), "");
}

#[test]
fn ssid_comes_from_hostapd_or_defaults() {
    assert_eq!(hotspot_ssid(Some("interface=wlan0\n  ssid=Living Room \nchannel=6\n")), "Living Room");
    assert_eq!(hotspot_ssid(Some("ssid=\n")), "Volumio");
    assert_eq!(hotspot_ssid(Some("channel=6\n")), "Volumio");
    assert_eq!(hotspot_ssid(None), "Volumio");
}

fn lan(pairs: &[(&str, &str)]) -> Vec<Address> {
    pairs.iter().map(|(i, a)| Address { iface: i.to_string(), addr: a.to_string() }).collect()
}

#[test]
fn the_access_point_address_is_not_listed() {
    let cands = vec![
        cand("wlan0", "192.168.211.1", v4(192, 168, 211, 1), true),
        cand("eth0", "10.0.0.7", v4(10, 0, 0, 7), false),
    ];
    assert_eq!(order_addresses(&cands), lan(&[("eth0", "10.0.0.7")]));
    let only_ap = vec![cand("wlan0", "192.168.211.1", v4(192, 168, 211, 1), true)];
    assert!(order_addresses(&only_ap).is_empty());
}

#[test]
fn real_addresses_outweigh_a_stale_status_file() {
    let eth = vec![cand("eth0", "10.0.0.7", v4(10, 0, 0, 7), false)];
    // The file says hotspot from an earlier boot, the AP is down, eth0 is up.
    assert_eq!(
        net_state(Some("hotspot\n"), Some("ssid=Box\n"), &eth),
        NetState::Connected(lan(&[("eth0", "10.0.0.7")]))
    );
    assert_eq!(net_state(Some("connected"), None, &eth), NetState::Connected(lan(&[("eth0", "10.0.0.7")])));
    assert_eq!(net_state(None, None, &eth), NetState::Connected(lan(&[("eth0", "10.0.0.7")])));
}

#[test]
fn the_status_file_decides_only_without_addresses() {
    assert_eq!(
        net_state(Some(" hotspot \n"), Some("ssid=Box\n"), &vec![]),
        NetState::Hotspot { ssid: "Box".into(), addr: "192.168.211.1".into(), lan: vec![] }
    );
    assert_eq!(net_state(Some("disconnected"), None, &vec![]), NetState::Waiting);
    assert_eq!(net_state(None, None, &vec![]), NetState::Waiting);
    let down = vec![cand("lo", "127.0.0.1", v4(127, 0, 0, 1), false)];
    assert_eq!(net_state(Some("connected"), None, &down), NetState::Waiting);
}

#[test]
fn lan_and_access_point_are_shown_together() {
    let both = vec![
        cand("wlan0", "192.168.211.1", v4(192, 168, 211, 1), true),
        cand("eth0", "10.0.0.7", v4(10, 0, 0, 7), false),
    ];
    assert_eq!(
        net_state(None, Some("ssid=Box\n"), &both),
        NetState::Hotspot { ssid: "Box".into(), addr: "192.168.211.1".into(), lan: lan(&[("eth0", "10.0.0.7")]) }
    );
    assert_eq!(
        net_state(Some("hotspot"), None, &both),
        NetState::Hotspot { ssid: "Volumio".into(), addr: "192.168.211.1".into(), lan: lan(&[("eth0", "10.0.0.7")]) }
    );
    let ap = vec![cand("wlan0", "192.168.211.1", v4(192, 168, 211, 1), true)];
    assert_eq!(
        net_state(None, None, &ap),
        NetState::Hotspot { ssid: "Volumio".into(), addr: "192.168.211.1".into(), lan: vec![] }
    );
}

#[test]
fn monitor_reads_on_a_new_mtime_or_every_two_seconds_without_one() {
    let mut m = NetMonitor::default();
    assert!(m.poll(Some((10, 0)), 0));
    assert!(!m.poll(Some((10, 0)), 5));
    assert!(m.poll(Some((11, 0)), 6));
    let mut f = NetMonitor::default();
    assert!(f.poll(None, 100));
    assert!(!f.poll(None, 2099));
    assert!(f.poll(None, 2100));
}

#[test]
fn host_info_defaults_to_waiting() {
    let h = HostInfo::default();
    assert_eq!(h.hostname, "");
    assert!(!h.has_address());
}
