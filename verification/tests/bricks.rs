use packetgraph::brick::Brick;
use packetgraph::error::Error;
use packetgraph::firewall::Firewall;
use packetgraph::hub::Hub;
use packetgraph::nic::Nic;
use packetgraph::nop::Nop;
use packetgraph::switch::Switch;
use packetgraph::tap::Tap;
use packetgraph::vhost::{Vhost, VHOST_USER_NO_RECONNECT};
use packetgraph::{init, set_dpdk_params, Runtime, Side};

#[test]
fn link_unlink() {
    let mut rt = Runtime::new();
    let mut tap1 = Brick::Tap(Tap::new("tap1"));
    let mut nop1 = Brick::Nop(Nop::new("nop1"));
    let mut nop2 = Brick::Nop(Nop::new("nop2"));
    let mut tap2 = Brick::Tap(Tap::new("tap2"));
    tap1.link(&mut nop1, &mut rt).unwrap();
    nop1.link(&mut nop2, &mut rt).unwrap();
    nop2.link(&mut tap2, &mut rt).unwrap();
    assert!(nop2.link(&mut tap2, &mut rt).is_err());
    assert!(nop1.unlink_from(&mut tap2, &mut rt).is_err());
    assert!(nop2.unlink_from(&mut nop1, &mut rt).is_err());
    nop1.unlink_from(&mut nop2, &mut rt).unwrap();
    assert!(nop1.unlink_from(&mut nop2, &mut rt).is_err());
    tap2.unlink(&mut rt);
}

#[test]
fn poll() {
    let mut rt = Runtime::new();
    let mut tap1 = Brick::Tap(Tap::new("tap1"));
    let mut nop1 = Brick::Nop(Nop::new("nop1"));
    let mut nop2 = Brick::Nop(Nop::new("nop2"));
    let mut tap2 = Brick::Tap(Tap::new("tap2"));

    tap1.link(&mut nop1, &mut rt).unwrap();
    nop1.link(&mut nop2, &mut rt).unwrap();
    nop2.link(&mut tap2, &mut rt).unwrap();
    assert!(tap1.pollable());
    assert!(tap2.pollable());
    assert!(!nop1.pollable());
    assert!(!nop2.pollable());
    tap1.poll().unwrap();
    tap2.poll().unwrap();
}

#[test]
fn name() {
    let nop = Nop::new("noppy");
    assert_eq!(nop.name, String::from("noppy"));
}

#[test]
fn specialized() {
    let mut rt = Runtime::new();
    let mut b = Brick::Firewall(Firewall::new("fw", &mut rt).unwrap());
    b.firewall().unwrap().flush(&mut rt);
}

#[test]
fn add_flush_reload() {
    let mut rt = Runtime::new();
    let mut fw = Firewall::new("fw", &mut rt).unwrap();
    fw.rule_add("src host 10::1", Side::West, &mut rt).unwrap();
    fw.rule_add("src host 10::1", Side::West, &mut rt).unwrap();
    fw.rule_add("src host 10::2", Side::East, &mut rt).unwrap();
    assert!(fw.rule_add("invalid rule", Side::West, &mut rt).is_err());
    fw.flush(&mut rt);
    fw.flush(&mut rt);
    fw.rule_add("src host 10::1", Side::West, &mut rt).unwrap();
    fw.rule_add("src host 10::2", Side::East, &mut rt).unwrap();
    fw.reload(&mut rt).unwrap();
    fw.reload(&mut rt).unwrap();
    fw.flush(&mut rt);
    fw.reload(&mut rt).unwrap();
}

#[test]
fn rings() {
    let mut rt = Runtime::new();
    let nic1 = Nic::new("nic", "eth_ring0").unwrap();
    let nic2 = Nic::new("nic", "eth_ring1").unwrap();
    let mut b1 = Brick::Nic(nic1);
    let mut b2 = Brick::Nic(nic2);
    b1.link(&mut b2, &mut rt).unwrap();
    b1.poll().unwrap();
    b2.poll().unwrap();
}

#[test]
fn switch_plug() {
    let mut rt = Runtime::new();
    let mut sw = Brick::Switch(Switch::new("sw", 2, 2, Side::West));
    let mut nop1 = Brick::Nop(Nop::new("nop1"));
    let mut nop2 = Brick::Nop(Nop::new("nop2"));
    let mut nop3 = Brick::Nop(Nop::new("nop3"));
    let mut nop4 = Brick::Nop(Nop::new("nop4"));
    let mut nop5 = Brick::Nop(Nop::new("nop5"));
    sw.link(&mut nop1, &mut rt).unwrap();
    sw.link(&mut nop2, &mut rt).unwrap();
    assert!(sw.link(&mut nop3, &mut rt).is_err());
    nop3.link(&mut sw, &mut rt).unwrap();
    nop4.link(&mut sw, &mut rt).unwrap();
    assert!(nop5.link(&mut sw, &mut rt).is_err());
}

#[test]
fn hub_plug() {
    let mut rt = Runtime::new();
    let mut hub = Brick::Hub(Hub::new("hub", 2, 2));
    let mut nop1 = Brick::Nop(Nop::new("nop1"));
    let mut nop2 = Brick::Nop(Nop::new("nop2"));
    let mut nop3 = Brick::Nop(Nop::new("nop3"));
    let mut nop4 = Brick::Nop(Nop::new("nop4"));
    let mut nop5 = Brick::Nop(Nop::new("nop5"));
    hub.link(&mut nop1, &mut rt).unwrap();
    hub.link(&mut nop2, &mut rt).unwrap();
    assert!(hub.link(&mut nop3, &mut rt).is_err());
    nop3.link(&mut hub, &mut rt).unwrap();
    nop4.link(&mut hub, &mut rt).unwrap();
    assert!(nop5.link(&mut hub, &mut rt).is_err());
}

#[test]
fn vhost_rings() {
    let mut rt = Runtime::new();
    let vhost1 = Vhost::new("vhost", VHOST_USER_NO_RECONNECT, &mut rt).unwrap();
    let vhost2 = Vhost::new("vhost", VHOST_USER_NO_RECONNECT, &mut rt).unwrap();
    let mut b1 = Brick::Vhost(vhost1);
    let mut b2 = Brick::Vhost(vhost2);
    b1.link(&mut b2, &mut rt).unwrap();
    b1.poll().unwrap();
    b2.poll().unwrap();
}

#[test]
fn pollable_partition() {
    let mut rt = Runtime::new();
    assert!(Brick::Tap(Tap::new("t")).pollable());
    assert!(Brick::Nic(Nic::new("n", "dev").unwrap()).pollable());
    assert!(Brick::Vhost(Vhost::new("v", 0, &mut rt).unwrap()).pollable());
    assert!(!Brick::Nop(Nop::new("p")).pollable());
    assert!(!Brick::Switch(Switch::new("s", 2, 2, Side::West)).pollable());
    assert!(!Brick::Hub(Hub::new("h", 2, 2)).pollable());
    assert!(!Brick::Firewall(Firewall::new("f", &mut rt).unwrap()).pollable());
}

#[test]
fn poll_not_pollable_fails() {
    let mut rt = Runtime::new();
    let mut sw = Brick::Switch(Switch::new("sw", 4, 4, Side::East));
    let e = sw.poll().unwrap_err();
    assert!(e.is_set());
    assert_eq!(e.message(), String::from("Brick is not pollable"));
    // the refused poll had no side effect: the switch still links as new
    let mut nop = Brick::Nop(Nop::new("nop"));
    sw.link(&mut nop, &mut rt).unwrap();
}

#[test]
fn deliver_then_poll() {
    let mut tap = Tap::new("t");
    tap.deliver(3);
    tap.deliver(2);
    let mut b = Brick::Tap(tap);
    assert_eq!(b.poll().unwrap(), 5);
    assert_eq!(b.poll().unwrap(), 0);
}

#[test]
fn unlink_restores_capacity() {
    let mut rt = Runtime::new();
    let mut a = Brick::Tap(Tap::new("a"));
    let mut b = Brick::Tap(Tap::new("b"));
    a.link(&mut b, &mut rt).unwrap();
    a.unlink_from(&mut b, &mut rt).unwrap();
    assert!(a.unlink_from(&mut b, &mut rt).is_err());
    a.link(&mut b, &mut rt).unwrap();
}

#[test]
fn unlink_severs_both_ends() {
    let mut rt = Runtime::new();
    let mut a = Brick::Tap(Tap::new("a"));
    let mut b = Brick::Nop(Nop::new("b"));
    let mut c = Brick::Tap(Tap::new("c"));
    a.link(&mut b, &mut rt).unwrap();
    b.link(&mut c, &mut rt).unwrap();
    b.unlink(&mut rt);
    // both halves of every edge touching b are gone ...
    assert!(a.unlink_from(&mut b, &mut rt).is_err());
    assert!(b.unlink_from(&mut c, &mut rt).is_err());
    // ... and the capacity they held is free again on every endpoint
    a.link(&mut b, &mut rt).unwrap();
    b.link(&mut c, &mut rt).unwrap();
}

#[test]
fn switch_capacity_frees_on_unlink() {
    let mut rt = Runtime::new();
    let mut sw = Brick::Switch(Switch::new("sw", 2, 2, Side::West));
    let mut nop1 = Brick::Nop(Nop::new("nop1"));
    let mut nop2 = Brick::Nop(Nop::new("nop2"));
    let mut nop3 = Brick::Nop(Nop::new("nop3"));
    sw.link(&mut nop1, &mut rt).unwrap();
    sw.link(&mut nop2, &mut rt).unwrap();
    assert!(sw.link(&mut nop3, &mut rt).is_err());
    sw.unlink_from(&mut nop1, &mut rt).unwrap();
    sw.link(&mut nop3, &mut rt).unwrap();
}

#[test]
fn link_error_is_engine_reported() {
    let mut rt = Runtime::new();
    let mut a = Brick::Nop(Nop::new("a"));
    let mut b = Brick::Nop(Nop::new("b"));
    a.link(&mut b, &mut rt).unwrap();
    let e = a.link(&mut b, &mut rt).unwrap_err();
    assert!(e.is_set());
    assert!(!e.message().is_empty());
}

#[test]
fn error_channel() {
    let mut e = Error::new();
    assert!(!e.is_set());
    assert_eq!(e.message(), String::new());
    e.set("tap device busy");
    assert!(e.is_set());
    assert_eq!(e.message(), String::from("tap device busy"));
}

#[test]
fn init_runs_once() {
    let mut rt = Runtime::new();
    assert!(!rt.started());
    set_dpdk_params(&mut rt, "-c1 -n1");
    assert_eq!(rt.dpdk_params(), String::from("-c1 -n1"));
    init(&mut rt);
    assert!(rt.started());
    init(&mut rt);
    init(&mut rt);
    assert!(rt.started());
    assert_eq!(rt.dpdk_params(), String::from("-c1 -n1"));
}

#[test]
fn vhost_transport_starts_once() {
    let mut rt = Runtime::new();
    assert!(!rt.vhost_started());
    let v1 = Vhost::new("v1", VHOST_USER_NO_RECONNECT, &mut rt).unwrap();
    assert!(rt.vhost_started());
    let v2 = Vhost::new("v2", 0, &mut rt).unwrap();
    assert!(rt.vhost_started());
    assert_eq!(v1.flags(), VHOST_USER_NO_RECONNECT);
    assert_eq!(v2.flags(), 0);
}

#[test]
fn firewall_rule_shapes() {
    let mut rt = Runtime::new();
    let mut fw = Firewall::new("fw", &mut rt).unwrap();
    fw.rule_add("dst host 10::7", Side::East, &mut rt).unwrap();
    assert!(fw.rule_add("", Side::West, &mut rt).is_err());
    assert!(fw.rule_add("src host ", Side::West, &mut rt).is_err());
    assert!(fw.rule_add("src host 10::1 extra", Side::West, &mut rt).is_err());
    let e = fw.rule_add("invalid rule", Side::West, &mut rt).unwrap_err();
    assert!(e.is_set());
    assert!(!e.message().is_empty());
}
