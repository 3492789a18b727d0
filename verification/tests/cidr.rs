use ipverse_mcp::asn_ip::cidr::{
    canonical, canonical_list, Family, Ipv4Net, Ipv6Net, IPV4_MAX_PREFIX_LEN, IPV6_MAX_PREFIX_LEN,
};
use ipverse_mcp::asn_ip::Subnets;

#[test]
fn ipv4_network_is_read() {
    let net = Ipv4Net::parse("132.171.0.0/16").unwrap();
    assert_eq!(net.addr(), 0x84ab_0000);
    assert_eq!(net.prefix_len(), 16);
    assert_eq!(Some(net), Ipv4Net::new(0x84ab_0000, 16));
}

#[test]
fn ipv4_network_is_written() {
    assert_eq!(Ipv4Net::new(0x84ab_0000, 16).unwrap().to_text(), "132.171.0.0/16");
    assert_eq!(Ipv4Net::new(0xc16e_2000, 21).unwrap().to_text(), "193.110.32.0/21");
    assert_eq!(Ipv4Net::new(0, 0).unwrap().to_text(), "0.0.0.0/0");
    assert_eq!(Ipv4Net::new(u32::MAX, 32).unwrap().to_text(), "255.255.255.255/32");
    assert_eq!(Ipv4Net::new(0x0102_0304, 8).unwrap().to_text(), "1.2.3.4/8");
}

#[test]
fn ipv4_network_keeps_the_bits_behind_the_prefix() {
    let net = Ipv4Net::parse("192.168.1.77/24").unwrap();
    assert_eq!(net.addr(), 0xc0a8_014d);
    assert_eq!(net.to_text(), "192.168.1.77/24");
}

#[test]
fn ipv4_prefix_is_at_most_32() {
    assert_eq!(IPV4_MAX_PREFIX_LEN, 32);
    assert!(Ipv4Net::new(0, 32).is_some());
    assert_eq!(Ipv4Net::new(0, 33), None);
    assert_eq!(Ipv4Net::new(0, 255), None);
    assert_eq!(Ipv4Net::parse("10.0.0.0/33"), None);
}

#[test]
fn ipv4_network_that_is_none() {
    for text in ["", "10.0.0.0", "10.0.0/8", "10.0.0.0/", "10.0.0.256/8", "10.0.0.0/8 ", "2405:1800::/32", "ten/8"] {
        assert_eq!(Ipv4Net::parse(text), None);
    }
}

#[test]
fn ipv6_network_is_read() {
    let net = Ipv6Net::parse("2405:1800::/32").unwrap();
    assert_eq!(net.addr(), 0x2405_1800_0000_0000_0000_0000_0000_0000);
    assert_eq!(net.prefix_len(), 32);
    assert_eq!(Some(net), Ipv6Net::new(0x2405_1800_0000_0000_0000_0000_0000_0000, 32));
}

#[test]
fn ipv6_network_is_written() {
    assert_eq!(
        Ipv6Net::new(0x2405_1800_0000_0000_0000_0000_0000_0000, 32).unwrap().to_text(),
        "2405:1800::/32"
    );
    assert_eq!(Ipv6Net::new(0, 0).unwrap().to_text(), "::/0");
    assert_eq!(Ipv6Net::new(1, 128).unwrap().to_text(), "::1/128");
    assert_eq!(
        Ipv6Net::new(0x2001_0db8_0000_0000_0001_0000_0000_0001, 64).unwrap().to_text(),
        "2001:db8::1:0:0:1/64"
    );
}

#[test]
fn ipv6_prefix_is_at_most_128() {
    assert_eq!(IPV6_MAX_PREFIX_LEN, 128);
    assert!(Ipv6Net::new(0, 128).is_some());
    assert_eq!(Ipv6Net::new(0, 129), None);
    assert_eq!(Ipv6Net::parse("::/129"), None);
}

#[test]
fn ipv6_network_that_is_none() {
    for text in ["", "2405:1800::", "2405:1800/32", "2405::1800::/32", "132.171.0.0/16", "2405:1800::/x"] {
        assert_eq!(Ipv6Net::parse(text), None);
    }
}

#[test]
fn entries_are_brought_to_one_spelling() {
    assert_eq!(canonical(Family::V4, "132.171.0.0/16"), Some("132.171.0.0/16".to_string()));
    assert_eq!(canonical(Family::V4, "010.001.000.000/08"), Some("10.1.0.0/8".to_string()));
    assert_eq!(canonical(Family::V6, "2405:1800:0:0:0:0:0:0/32"), Some("2405:1800::/32".to_string()));
    assert_eq!(canonical(Family::V6, "2405:1800::/032"), Some("2405:1800::/32".to_string()));
    assert_eq!(canonical(Family::V6, "2405:1800::/32"), Some("2405:1800::/32".to_string()));
    assert_eq!(canonical(Family::V4, "2405:1800::/32"), None);
    assert_eq!(canonical(Family::V6, "132.171.0.0/16"), None);
}

#[test]
fn one_spelling_is_stable() {
    for text in ["132.171.0.0/16", "137.96.0.0/16", "193.110.32.0/21", "0.0.0.0/0"] {
        let once = canonical(Family::V4, text).unwrap();
        assert_eq!(once, text);
        assert_eq!(canonical(Family::V4, &once), Some(once.clone()));
    }
    for text in ["2405:1800::/32", "::/0", "2001:db8::1:0:0:1/64", "::ffff:10.0.0.1/128"] {
        let once = canonical(Family::V6, text).unwrap();
        assert_eq!(once, text);
        assert_eq!(canonical(Family::V6, &once), Some(once.clone()));
    }
}

#[test]
fn lists_keep_their_order() {
    let texts = vec!["193.110.32.0/21".to_string(), "132.171.0.0/16".to_string(), "137.096.0.0/16".to_string()];
    assert_eq!(
        canonical_list(Family::V4, &texts),
        Some(vec!["193.110.32.0/21".to_string(), "132.171.0.0/16".to_string(), "137.96.0.0/16".to_string()])
    );
    assert_eq!(canonical_list(Family::V6, &Vec::new()), Some(Vec::new()));
}

#[test]
fn one_bad_entry_spoils_a_list() {
    let texts = vec!["132.171.0.0/16".to_string(), "137.96.0.0".to_string(), "193.110.32.0/21".to_string()];
    assert_eq!(canonical_list(Family::V4, &texts), None);
}

#[test]
fn subnets_of_a_record_are_checked() {
    let subnets = Subnets {
        ipv4: vec!["132.171.0.0/16".to_string(), "137.96.0.0/16".to_string(), "193.110.32.0/21".to_string()],
        ipv6: vec!["2405:1800::/32".to_string()],
    };
    let spelled = subnets.canonical().unwrap();
    assert_eq!(spelled, subnets);

    let loose = Subnets { ipv4: vec!["132.171.000.000/16".to_string()], ipv6: vec!["2405:1800:0::/32".to_string()] };
    assert_eq!(
        loose.canonical(),
        Some(Subnets { ipv4: vec!["132.171.0.0/16".to_string()], ipv6: vec!["2405:1800::/32".to_string()] })
    );

    let bad_v4 = Subnets { ipv4: vec!["2405:1800::/32".to_string()], ipv6: Vec::new() };
    assert_eq!(bad_v4.canonical(), None);
    let bad_v6 = Subnets { ipv4: Vec::new(), ipv6: vec!["2405:1800::/32".to_string(), "::/200".to_string()] };
    assert_eq!(bad_v6.canonical(), None);
}

#[test]
fn ipv4_network_is_written_as_ipnet_writes_it() {
    let addrs = [0u32, 1, 255, 256, 0x0a01_0100, 0x7f00_0001, 0x84ab_0000, 0xc0a8_014d, 0x6464_6464, u32::MAX];
    for addr in addrs {
        for prefix_len in [0u8, 1, 8, 9, 10, 16, 24, 31, 32] {
            let theirs = ipnet::Ipv4Net::new(addr.into(), prefix_len).unwrap().to_string();
            assert_eq!(Ipv4Net::new(addr, prefix_len).unwrap().to_text(), theirs);
            assert_eq!(Ipv4Net::parse(&theirs), Ipv4Net::new(addr, prefix_len));
        }
    }
}

#[test]
fn ipv6_network_is_written_as_ipnet_writes_it() {
    let addrs = [0u128, 1, 0xffff_0a00_0001, 0x2405_1800 << 96, (0x2001_0db8 << 96) | 0x1_0000_0000_0001, u128::MAX];
    for addr in addrs {
        for prefix_len in [0u8, 32, 64, 127, 128] {
            let theirs = ipnet::Ipv6Net::new(addr.into(), prefix_len).unwrap().to_string();
            assert_eq!(Ipv6Net::new(addr, prefix_len).unwrap().to_text(), theirs);
            assert_eq!(Ipv6Net::parse(&theirs), Ipv6Net::new(addr, prefix_len));
        }
    }
}
