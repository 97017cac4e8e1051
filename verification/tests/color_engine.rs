use dissect_netwayste::color::{ColorEngine, DisplayColor, Ipv4Address, SourceKey};

fn addr(o1: u8, o2: u8, o3: u8, o4: u8) -> Ipv4Address {
    Ipv4Address { o1, o2, o3, o4 }
}

fn key(a: Ipv4Address, port: u16) -> SourceKey {
    SourceKey { addr: a, port: Some(port) }
}

#[test]
fn same_key_always_same_color() {
    let mut engine = ColorEngine::standard();
    let k = key(addr(10, 0, 0, 1), 12345);
    let first = engine.color_for(&k);
    for _ in 0..10 {
        assert_eq!(engine.color_for(&k), first);
        assert_eq!(engine.lookup(&k), Some(first));
    }
    assert_eq!(engine.assigned_count(), 1);
}

#[test]
fn lookup_of_unknown_key_is_none_and_assigns_nothing() {
    let engine = ColorEngine::standard();
    let k = key(addr(10, 0, 0, 1), 12345);
    assert_eq!(engine.lookup(&k), None);
    assert_eq!(engine.assigned_count(), 0);
}

#[test]
fn first_seen_order_determines_colors() {
    let mut engine = ColorEngine::standard();
    let k1 = key(addr(10, 0, 0, 1), 1);
    let k2 = key(addr(10, 0, 0, 2), 2);
    let k3 = key(addr(10, 0, 0, 3), 3);
    let c1 = engine.color_for(&k1);
    // Repeat lookups of known keys interleave without disturbing the order.
    engine.color_for(&k1);
    let c2 = engine.color_for(&k2);
    engine.color_for(&k1);
    engine.color_for(&k2);
    let c3 = engine.color_for(&k3);
    assert_eq!(c1, DisplayColor::Cyan);
    assert_eq!(c2, DisplayColor::Yellow);
    assert_eq!(c3, DisplayColor::Red);
    assert_eq!(engine.assigned_count(), 3);
}

#[test]
fn palette_wraps_after_all_colors_are_used() {
    let palette = vec![DisplayColor::Cyan, DisplayColor::Yellow, DisplayColor::Red];
    let mut engine = ColorEngine::new(palette);
    let c1 = engine.color_for(&key(addr(1, 1, 1, 1), 1));
    let c2 = engine.color_for(&key(addr(2, 2, 2, 2), 2));
    let c3 = engine.color_for(&key(addr(3, 3, 3, 3), 3));
    let c4 = engine.color_for(&key(addr(4, 4, 4, 4), 4));
    assert_eq!(c1, DisplayColor::Cyan);
    assert_eq!(c2, DisplayColor::Yellow);
    assert_eq!(c3, DisplayColor::Red);
    assert_eq!(c4, DisplayColor::Cyan);
}

#[test]
fn standard_palette_wraps_after_six() {
    let mut engine = ColorEngine::standard();
    let expected = [
        DisplayColor::Cyan,
        DisplayColor::Yellow,
        DisplayColor::Red,
        DisplayColor::Magenta,
        DisplayColor::Green,
        DisplayColor::Blue,
        DisplayColor::Cyan,
    ];
    for (i, want) in expected.iter().enumerate() {
        let k = key(addr(10, 0, 0, i as u8), i as u16);
        assert_eq!(engine.color_for(&k), *want);
    }
}

#[test]
fn scenario_five_sources_with_three_color_palette() {
    // Target scenario: palette [Cyan, Yellow, Red]; frames from A, B, A
    // again, C, D in that order.
    let palette = vec![DisplayColor::Cyan, DisplayColor::Yellow, DisplayColor::Red];
    let mut engine = ColorEngine::new(palette);
    let a = key(addr(192, 168, 0, 1), 12345);
    let b = key(addr(192, 168, 0, 2), 12345);
    let c = key(addr(192, 168, 0, 3), 12345);
    let d = key(addr(192, 168, 0, 4), 12345);
    assert_eq!(engine.color_for(&a), DisplayColor::Cyan);
    assert_eq!(engine.color_for(&b), DisplayColor::Yellow);
    assert_eq!(engine.color_for(&a), DisplayColor::Cyan);
    assert_eq!(engine.color_for(&c), DisplayColor::Red);
    assert_eq!(engine.color_for(&d), DisplayColor::Cyan);
}

#[test]
fn rerunning_same_sequence_reproduces_the_mapping() {
    let input: Vec<SourceKey> = vec![
        key(addr(10, 0, 0, 1), 1),
        key(addr(10, 0, 0, 2), 2),
        key(addr(10, 0, 0, 1), 1),
        key(addr(10, 0, 0, 3), 3),
        key(addr(10, 0, 0, 2), 9),
        key(addr(10, 0, 0, 4), 4),
    ];
    let mut first = ColorEngine::standard();
    let mut second = ColorEngine::standard();
    first.assign_all(&input);
    second.assign_all(&input);
    assert_eq!(first.assigned_count(), second.assigned_count());
    for k in &input {
        let c1 = first.lookup(k);
        let c2 = second.lookup(k);
        assert!(c1.is_some());
        assert_eq!(c1, c2);
    }
}

#[test]
fn address_only_keys_share_one_color_across_ports() {
    let mut engine = ColorEngine::standard();
    let a = addr(172, 16, 0, 9);
    let k_no_port = SourceKey { addr: a, port: None };
    let c1 = engine.color_for(&k_no_port);
    let c2 = engine.color_for(&SourceKey { addr: a, port: None });
    assert_eq!(c1, c2);
    assert_eq!(engine.assigned_count(), 1);
    // Keyed by address and port instead, the same address on two ports
    // takes two distinct table entries.
    let mut engine2 = ColorEngine::standard();
    let c3 = engine2.color_for(&key(a, 1000));
    let c4 = engine2.color_for(&key(a, 2000));
    assert_eq!(engine2.assigned_count(), 2);
    assert_eq!(c3, DisplayColor::Cyan);
    assert_eq!(c4, DisplayColor::Yellow);
}
