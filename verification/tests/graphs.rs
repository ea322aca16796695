use packetgraph::brick::Brick;
use packetgraph::firewall::Firewall;
use packetgraph::graph::Graph;
use packetgraph::hub::Hub;
use packetgraph::nop::Nop;
use packetgraph::tap::Tap;
use packetgraph::{Runtime, Side};

#[test]
fn add_poll() {
    let mut rt = Runtime::new();
    let mut tap1 = Brick::Tap(Tap::new("tap1"));
    let mut nop = Brick::Nop(Nop::new("nop"));
    let mut tap2 = Brick::Tap(Tap::new("tap2"));
    tap1.link(&mut nop, &mut rt).unwrap();
    nop.link(&mut tap2, &mut rt).unwrap();
    let mut g = Graph::new("graph");
    g.add(tap1).add(nop).add(tap2);
    assert_eq!(g.len(), 3);
    assert_eq!(g.poll().len(), 2);
}

#[test]
fn get_brick() {
    let mut rt = Runtime::new();
    let mut tap1 = Brick::Tap(Tap::new("tap1"));
    let mut nop = Brick::Nop(Nop::new("nop"));
    let mut tap2 = Brick::Tap(Tap::new("tap2"));
    tap1.link(&mut nop, &mut rt).unwrap();
    nop.link(&mut tap2, &mut rt).unwrap();
    let mut g = Graph::new("graph");
    g.add(tap1).add(nop).add(tap2);
    g.get_brick("tap1").unwrap().poll().unwrap();
}

#[test]
fn get_special_brick() {
    let mut rt = Runtime::new();
    let mut g = Graph::new("graph");
    g.add(Brick::Firewall(Firewall::new("fw", &mut rt).unwrap()));
    let firewall = g.get_brick("fw").unwrap().firewall().unwrap();
    firewall.rule_add("src host 10::2", Side::West, &mut rt).unwrap();
    firewall.reload(&mut rt).unwrap();
}

#[test]
fn poll_counts_pollable_members_only() {
    let mut rt = Runtime::new();
    let mut g = Graph::new("mixed");
    g.add(Brick::Tap(Tap::new("tap1")))
        .add(Brick::Tap(Tap::new("tap2")))
        .add(Brick::Nop(Nop::new("nop")))
        .add(Brick::Hub(Hub::new("hub", 2, 2)))
        .add(Brick::Firewall(Firewall::new("fw", &mut rt).unwrap()));
    assert_eq!(g.len(), 5);
    assert_eq!(g.poll().len(), 2);
}

#[test]
fn poll_reports_and_drains_pending() {
    let mut tap = Tap::new("tap");
    tap.deliver(7);
    let mut g = Graph::new("graph");
    g.add(Brick::Tap(tap)).add(Brick::Nop(Nop::new("nop")));
    let first: Vec<usize> = g.poll().into_iter().map(|r| r.unwrap()).collect();
    assert_eq!(first, vec![7]);
    let second: Vec<usize> = g.poll().into_iter().map(|r| r.unwrap()).collect();
    assert_eq!(second, vec![0]);
}

#[test]
fn add_same_name_replaces() {
    // adding under an already-used name drops and releases the previous
    // entry under that name
    let mut g = Graph::new("graph");
    g.add(Brick::Nop(Nop::new("x")));
    assert!(!g.get_brick("x").unwrap().pollable());
    g.add(Brick::Tap(Tap::new("x")));
    assert_eq!(g.len(), 1);
    assert!(g.get_brick("x").unwrap().pollable());
}

#[test]
fn get_brick_missing_name() {
    let mut g = Graph::new("graph");
    g.add(Brick::Nop(Nop::new("nop")));
    assert!(g.get_brick("ghost-name").is_none());
}

#[test]
fn dot_empty_graph_fails() {
    let mut g = Graph::new("empty");
    let e = g.dot().unwrap_err();
    assert!(e.is_set());
    assert_eq!(e.message(), String::from("no brick available in graph"));
}

#[test]
fn dot_lists_members() {
    let mut g = Graph::new("graph");
    g.add(Brick::Nop(Nop::new("nop"))).add(Brick::Tap(Tap::new("tap")));
    let text = g.dot().unwrap();
    assert!(!text.is_empty());
    assert!(text.contains("nop"));
    assert!(text.contains("tap"));
}

#[test]
fn dot_exact_text() {
    let mut g = Graph::new("g");
    g.add(Brick::Nop(Nop::new("a"))).add(Brick::Tap(Tap::new("b")));
    assert_eq!(g.dot().unwrap(), String::from("graph g a b"));
}
