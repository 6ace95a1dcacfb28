use agora::access_control::{AccessDenied, And, False, Guard, GuardResult, Node, True};
use agora::caucus::Operation;

fn allow() -> Node {
    Node::True(True {})
}

fn deny() -> Node {
    Node::False(False {})
}

fn all_of(guards: Vec<Node>) -> Node {
    Node::And(And { guards })
}

fn outcome(g: &Node) -> GuardResult {
    g.attempt(&"someone", Operation::Join, &())
}

#[test]
fn true_allows_every_input() {
    let g = True {};
    assert_eq!(g.attempt(&"alice", Operation::Join, &()), Ok(()));
    assert_eq!(g.attempt(&"bob", Operation::Send, &"room"), Ok(()));
    assert_eq!(g.attempt(&7u32, Operation::Receive, &0u8), Ok(()));
}

#[test]
fn false_denies_every_input() {
    let g = False {};
    assert_eq!(g.attempt(&"alice", Operation::Join, &()), Err(AccessDenied));
    assert_eq!(g.attempt(&"bob", Operation::Send, &"room"), Err(AccessDenied));
    assert_eq!(g.attempt(&7u32, Operation::Receive, &0u8), Err(AccessDenied));
}

#[test]
fn and_of_allowing_children_allows() {
    let g = And { guards: vec![allow(), allow(), allow()] };
    assert_eq!(g.attempt(&"alice", Operation::Send, &()), Ok(()));
}

#[test]
fn and_with_one_denying_child_denies() {
    for pos in 0..3 {
        let mut guards = vec![allow(), allow(), allow()];
        guards[pos] = deny();
        let g = And { guards };
        assert_eq!(g.attempt(&"alice", Operation::Send, &()), Err(AccessDenied));
    }
}

#[test]
fn empty_and_allows() {
    let g = And { guards: vec![] };
    assert_eq!(g.attempt(&"alice", Operation::Join, &()), Ok(()));
    assert_eq!(outcome(&all_of(vec![])), Ok(()));
}

#[test]
fn node_decides_as_its_kind() {
    assert_eq!(outcome(&allow()), Ok(()));
    assert_eq!(outcome(&deny()), Err(AccessDenied));
    assert_eq!(outcome(&all_of(vec![allow(), deny()])), Err(AccessDenied));
    assert_eq!(outcome(&all_of(vec![allow(), all_of(vec![allow()])])), Ok(()));
}

#[test]
fn deeply_nested_deny_vetoes() {
    let mut g = deny();
    for _ in 0..50 {
        g = all_of(vec![allow(), g]);
    }
    assert_eq!(outcome(&g), Err(AccessDenied));
    let mut h = allow();
    for _ in 0..50 {
        h = all_of(vec![h, allow()]);
    }
    assert_eq!(outcome(&h), Ok(()));
}

#[test]
fn and_nesting_is_associative() {
    let pick = |b: bool| if b { allow() } else { deny() };
    for bits in 0..8u32 {
        let (a, b, c) = (bits & 1 != 0, bits & 2 != 0, bits & 4 != 0);
        let nested = all_of(vec![all_of(vec![pick(a), pick(b)]), pick(c)]);
        let flat = all_of(vec![pick(a), pick(b), pick(c)]);
        assert_eq!(outcome(&nested), outcome(&flat));
        let expected = if a && b && c { Ok(()) } else { Err(AccessDenied) };
        assert_eq!(outcome(&flat), expected);
    }
}

#[test]
fn attempt_twice_gives_same_result() {
    let guards = vec![allow(), deny(), all_of(vec![allow(), allow()]), all_of(vec![deny()])];
    for g in guards.iter() {
        let first = g.attempt(&"carol", Operation::Receive, &"target");
        let second = g.attempt(&"carol", Operation::Receive, &"target");
        assert_eq!(first, second);
    }
}
