use rustservant::grid::{
    column_name, grid_label, nearest_candidate, pick_monuments, region_name, Candidate, Third,
};
use rustservant::markers::{
    event_label, event_list_message, located_event_line, marker_debug_message, marker_summary,
    outside_event_line, parse_event_alias, HorizontalEdge, MarkerDebugEntry, MarkerType,
    VerticalEdge,
};

#[test]
fn event_aliases() {
    for s in ["heli", "patrolheli", "patrol"] {
        assert_eq!(parse_event_alias(s), Some(8));
    }
    for s in ["cargo", "cargoship", "ship"] {
        assert_eq!(parse_event_alias(s), Some(5));
    }
    for s in ["crate", "lockedcrate", "largeoil", "largerig", "smalloil", "smallrig"] {
        assert_eq!(parse_event_alias(s), Some(6));
    }
    for s in ["chinook", "ch47"] {
        assert_eq!(parse_event_alias(s), Some(4));
    }
    for s in ["Heli", "", "bradley", "heli "] {
        assert_eq!(parse_event_alias(s), None);
    }
}

#[test]
fn alias_codes_name_event_kinds() {
    let kinds = [MarkerType::PatrolHelicopter, MarkerType::CargoShip, MarkerType::Crate, MarkerType::Ch47];
    for s in ["heli", "cargo", "crate", "chinook", "smallrig"] {
        let code = parse_event_alias(s).unwrap();
        let kind = kinds.iter().find(|k| k.code() == code).unwrap();
        assert!(event_label(*kind).is_some());
    }
}

#[test]
fn event_labels() {
    assert_eq!(event_label(MarkerType::PatrolHelicopter).unwrap(), "Patrol Heli");
    assert_eq!(event_label(MarkerType::CargoShip).unwrap(), "Cargo Ship");
    assert_eq!(event_label(MarkerType::Crate).unwrap(), "Locked Crate");
    assert_eq!(event_label(MarkerType::Ch47).unwrap(), "Chinook");
    assert_eq!(event_label(MarkerType::TravelingVendor).unwrap(), "Traveling Vendor");
    assert_eq!(event_label(MarkerType::Explosion).unwrap(), "Explosion/Crash Site");
    assert!(event_label(MarkerType::VendingMachine).is_none());
    assert!(event_label(MarkerType::Player).is_none());
}

#[test]
fn marker_summary_counts() {
    let kinds = vec![
        MarkerType::VendingMachine,
        MarkerType::VendingMachine,
        MarkerType::CargoShip,
        MarkerType::Player,
        MarkerType::Crate,
        MarkerType::Crate,
        MarkerType::Explosion,
    ];
    assert_eq!(
        marker_summary(&kinds),
        "Map Markers (total: 7):\nPatrol Heli: 0\nCargo Ship: 1\nLocked Crates: 2\nChinook: 0\nTraveling Vendor: 0\nVending Machines: 2\nOther: 2"
    );
}

#[test]
fn marker_summary_of_nothing() {
    assert_eq!(
        marker_summary(&vec![]),
        "Map Markers (total: 0):\nPatrol Heli: 0\nCargo Ship: 0\nLocked Crates: 0\nChinook: 0\nTraveling Vendor: 0\nVending Machines: 0\nOther: 0"
    );
}

#[test]
fn event_list() {
    assert_eq!(event_list_message(&vec![]), "No active events right now");
    let events = vec!["Cargo Ship at Y0 (top right) - coords: (3745, 3706)".to_string(), "Chinook (outside grids)".to_string()];
    assert_eq!(
        event_list_message(&events),
        "Active Events (2):\nCargo Ship at Y0 (top right) - coords: (3745, 3706)\nChinook (outside grids)"
    );
}

#[test]
fn event_lines() {
    assert_eq!(
        located_event_line("Patrol Heli", "R16", "center", "2584, 1345"),
        "Patrol Heli at R16 (center) - coords: (2584, 1345)"
    );
    assert_eq!(outside_event_line("Cargo Ship", None, None), "Cargo Ship (outside grids)");
    assert_eq!(
        outside_event_line("Cargo Ship", None, Some(HorizontalEdge::Left)),
        "Cargo Ship (outside grids - left)"
    );
    assert_eq!(
        outside_event_line("Cargo Ship", Some(VerticalEdge::Top), None),
        "Cargo Ship (outside grids - top)"
    );
    assert_eq!(
        outside_event_line("Cargo Ship", Some(VerticalEdge::Bottom), Some(HorizontalEdge::Right)),
        "Cargo Ship (outside grids - bottom right)"
    );
}

fn entry(kind: MarkerType, id: u32) -> MarkerDebugEntry {
    MarkerDebugEntry {
        kind,
        name: format!("m{id}"),
        coords: "1.0, 2.5".to_string(),
        radius: "0.0".to_string(),
        id,
    }
}

#[test]
fn marker_debug_listing_short() {
    let markers = vec![entry(MarkerType::VendingMachine, 1), entry(MarkerType::Ch47, 2)];
    assert_eq!(
        marker_debug_message(&markers),
        "Marker Debug (1 non-vending):\n\n1. Type: Ch47\n   Name: 'm2'\n   Coords: (1.0, 2.5)\n   Radius: 0.0\n   ID: 2\n\n"
    );
}

#[test]
fn marker_debug_listing_truncates_at_fifteen() {
    let mut markers = Vec::new();
    for i in 0..20u32 {
        markers.push(entry(MarkerType::Player, i));
        markers.push(entry(MarkerType::VendingMachine, 100 + i));
    }
    let text = marker_debug_message(&markers);
    assert!(text.starts_with("Marker Debug (20 non-vending):\n\n1. Type: Player\n   Name: 'm0'\n"));
    assert!(text.contains("15. Type: Player\n   Name: 'm14'\n"));
    assert!(!text.contains("16. Type"));
    assert!(text.ends_with("   ID: 14\n\n...and 5 more"));
}

#[test]
fn marker_codes() {
    assert_eq!(MarkerType::Undefined.code(), 0);
    assert_eq!(MarkerType::VendingMachine.code(), 3);
    assert_eq!(MarkerType::Ch47.code(), 4);
    assert_eq!(MarkerType::TravelingVendor.code(), 9);
    assert_eq!(MarkerType::GenericRadius.debug_name(), "GenericRadius");
}

#[test]
fn column_names() {
    assert_eq!(column_name(0), "A");
    assert_eq!(column_name(6), "G");
    assert_eq!(column_name(25), "Z");
    assert_eq!(column_name(26), "AA");
    assert_eq!(column_name(27), "AB");
    assert_eq!(column_name(51), "AZ");
    assert_eq!(column_name(52), "BA");
    assert_eq!(column_name(26 * 26 + 25), "ZZ");
    assert_eq!(column_name(26 * 27), "[A");
}

#[test]
fn grid_labels() {
    assert_eq!(grid_label(6, 15), "G15");
    assert_eq!(grid_label(24, 0), "Y0");
    assert_eq!(grid_label(0, 0), "A0");
    assert_eq!(grid_label(26, 3), "AA3");
}

#[test]
fn regions() {
    assert_eq!(region_name(Third::Middle, Third::Middle), "center");
    assert_eq!(region_name(Third::High, Third::Middle), "top");
    assert_eq!(region_name(Third::Low, Third::Middle), "bottom");
    assert_eq!(region_name(Third::Middle, Third::Low), "left");
    assert_eq!(region_name(Third::Middle, Third::High), "right");
    assert_eq!(region_name(Third::High, Third::High), "top right");
    assert_eq!(region_name(Third::Low, Third::Low), "bottom left");
}

#[test]
fn nearest_picks_first_closest_in_range() {
    let c = |within, k| Candidate { within, distance_key: k };
    assert_eq!(nearest_candidate(&vec![]), None);
    assert_eq!(nearest_candidate(&vec![c(false, 1), c(false, 2)]), None);
    assert_eq!(nearest_candidate(&vec![c(true, 9), c(false, 1), c(true, 3), c(true, 3)]), Some(2));
    assert_eq!(nearest_candidate(&vec![c(true, 5)]), Some(0));
}

#[test]
fn monuments_sample_skips_tunnels_and_rotates() {
    let tokens: Vec<String> = ["a", "train_tunnel_1", "b", "c", "x_train_tunnel", "d"]
        .iter()
        .map(|s| s.to_string())
        .collect();
    assert_eq!(pick_monuments(&tokens, 0), vec![0, 2, 3, 5]);
    assert_eq!(pick_monuments(&tokens, 5), vec![2, 3, 5, 0]);
    let many: Vec<String> = (0..13).map(|i| format!("m{i}")).collect();
    assert_eq!(pick_monuments(&many, 4), vec![4, 5, 6, 7, 8, 9, 10, 11, 12, 0]);
}
