//! Which local address leads to the host, and whether it changed.

use oxutrm::addr::{unmap, unmap_ip, IpAddr, SocketAddr};
use oxutrm::roam::{route_probe, route_source, RouteWatch};

fn v4(a: u8, b: u8, c: u8, d: u8) -> IpAddr {
    IpAddr::V4(u32::from_be_bytes([a, b, c, d]))
}

fn mapped(a: u8, b: u8, c: u8, d: u8) -> IpAddr {
    IpAddr::V6(0xffff_0000_0000 + u128::from(u32::from_be_bytes([a, b, c, d])))
}

fn at(ip: IpAddr, port: u16) -> SocketAddr {
    SocketAddr { ip, port, flow_info: 0, scope_id: 0 }
}

#[test]
fn a_changed_source_address_is_a_moved_route() {
    let w = RouteWatch::new(Some(v4(192, 168, 17, 5)));
    assert!(w.moved(v4(10, 46, 18, 101)));
    assert!(!w.moved(v4(192, 168, 17, 5)));
}

#[test]
fn the_wildcard_address_is_not_a_baseline() {
    let w = RouteWatch::new(Some(IpAddr::V6(0)));
    assert!(
        !w.moved(v4(192, 168, 17, 5)),
        "`::` was treated as a real source address; every probe would rebind"
    );
}

#[test]
fn no_baseline_is_not_a_moved_route() {
    let w = RouteWatch::new(None);
    assert!(!w.moved(v4(192, 168, 17, 5)));
}

#[test]
fn settling_stops_the_same_change_asking_twice() {
    let mut w = RouteWatch::new(Some(v4(192, 168, 17, 5)));
    assert!(w.moved(v4(10, 46, 18, 101)));
    w.settle(v4(10, 46, 18, 101));
    assert!(
        !w.moved(v4(10, 46, 18, 101)),
        "the same route change asked for a second rebind"
    );
}

#[test]
fn a_mapped_address_equals_its_plain_form() {
    let w = RouteWatch::new(Some(mapped(192, 168, 17, 5)));
    assert!(
        !w.moved(v4(192, 168, 17, 5)),
        "a v4-mapped baseline did not match its own plain v4 probe"
    );
}

#[test]
fn the_wildcard_is_no_reading_either() {
    let mut w = RouteWatch::new(Some(v4(192, 168, 17, 5)));
    assert!(!w.moved(IpAddr::V4(0)));
    assert!(!w.moved(mapped(0, 0, 0, 0)));
    w.settle(IpAddr::V6(0));
    assert!(!w.moved(v4(192, 168, 17, 5)), "the wildcard replaced the baseline");
    assert!(w.moved(v4(192, 168, 17, 6)));
}

#[test]
fn a_probe_is_bound_in_the_family_of_the_peer() {
    let p = route_probe(at(mapped(127, 0, 0, 1), 9));
    assert_eq!(p.bind, at(IpAddr::V4(0), 0));
    assert_eq!(p.connect, at(v4(127, 0, 0, 1), 9));

    let p = route_probe(at(IpAddr::V6(1), 9));
    assert_eq!(p.bind, at(IpAddr::V6(0), 0));
    assert_eq!(p.connect, at(IpAddr::V6(1), 9));
}

#[test]
fn what_a_probe_reports_is_taken_in_plain_form() {
    assert_eq!(route_source(at(mapped(10, 0, 0, 7), 5000)), v4(10, 0, 0, 7));
    assert_eq!(route_source(at(v4(10, 0, 0, 7), 5000)), v4(10, 0, 0, 7));
}

#[test]
fn unmapping_twice_is_unmapping_once() {
    for ip in [v4(1, 2, 3, 4), mapped(1, 2, 3, 4), IpAddr::V6(0), IpAddr::V6(u128::MAX)] {
        assert_eq!(unmap_ip(unmap_ip(ip)), unmap_ip(ip));
    }
    assert_eq!(unmap_ip(mapped(1, 2, 3, 4)), v4(1, 2, 3, 4));
    assert_eq!(
        unmap(SocketAddr { ip: mapped(1, 2, 3, 4), port: 5, flow_info: 6, scope_id: 7 }),
        at(v4(1, 2, 3, 4), 5)
    );
    let scoped = SocketAddr { ip: IpAddr::V6(1), port: 5, flow_info: 6, scope_id: 7 };
    assert_eq!(unmap(scoped), scoped);
}
