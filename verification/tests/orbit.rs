use cot_bridge::orbit::{Leg, OrbitCursor, DEFAULT_STEPS};

#[test]
fn a_ring_needs_a_waypoint() {
    assert_eq!(OrbitCursor::new(0), None);
    assert!(OrbitCursor::new(1).is_some());
}

#[test]
fn a_new_cursor_stands_on_the_first_waypoint() {
    let cursor = OrbitCursor::new(DEFAULT_STEPS).unwrap();
    assert_eq!(DEFAULT_STEPS, 100);
    assert_eq!(cursor.step(), 0);
    assert_eq!(cursor.steps(), 100);
}

#[test]
fn a_tick_reports_the_leg_to_the_next_waypoint() {
    let mut cursor = OrbitCursor::new(100).unwrap();
    assert_eq!(cursor.advance(), Leg { from: 0, to: 1, steps: 100 });
    assert_eq!(cursor.step(), 1);
    assert_eq!(cursor.advance(), Leg { from: 1, to: 2, steps: 100 });
    assert_eq!(cursor.step(), 2);
}

#[test]
fn the_last_leg_leads_back_to_the_first_waypoint() {
    let mut cursor = OrbitCursor::new(100).unwrap();
    for _ in 0..99 {
        cursor.advance();
    }
    assert_eq!(cursor.step(), 99);
    assert_eq!(cursor.advance(), Leg { from: 99, to: 0, steps: 100 });
    assert_eq!(cursor.step(), 0);
}

#[test]
fn cycle_closure() {
    let mut cursor = OrbitCursor::new(DEFAULT_STEPS).unwrap();
    let entered = cursor;
    let first = cursor.advance();
    for _ in 1..DEFAULT_STEPS {
        cursor.advance();
    }
    assert_eq!(cursor, entered);
    assert_eq!(cursor.step(), 0);
    assert_eq!(cursor.advance(), first);
}

#[test]
fn the_cycle_closes_from_any_waypoint() {
    let mut cursor = OrbitCursor::new(7).unwrap();
    for _ in 0..3 {
        cursor.advance();
    }
    let mut seen = Vec::new();
    for _ in 0..7 {
        seen.push(cursor.advance());
    }
    assert_eq!(cursor.step(), 3);
    let froms: Vec<u32> = seen.iter().map(|leg| leg.from).collect();
    assert_eq!(froms, vec![3, 4, 5, 6, 0, 1, 2]);
    let tos: Vec<u32> = seen.iter().map(|leg| leg.to).collect();
    assert_eq!(tos, vec![4, 5, 6, 0, 1, 2, 3]);
    for _ in 0..7 {
        assert_eq!(cursor.advance(), seen.remove(0));
    }
}

#[test]
fn a_ring_of_one_waypoint_stays_where_it_is() {
    let mut cursor = OrbitCursor::new(1).unwrap();
    assert_eq!(cursor.advance(), Leg { from: 0, to: 0, steps: 1 });
    assert_eq!(cursor.advance(), Leg { from: 0, to: 0, steps: 1 });
    assert_eq!(cursor.step(), 0);
}

#[test]
fn a_full_turn_reports_every_leg_once_and_returns() {
    let mut cursor = OrbitCursor::new(5).unwrap();
    cursor.advance();
    cursor.advance();
    let legs = cursor.full_turn();
    assert_eq!(
        legs,
        vec![
            Leg { from: 2, to: 3, steps: 5 },
            Leg { from: 3, to: 4, steps: 5 },
            Leg { from: 4, to: 0, steps: 5 },
            Leg { from: 0, to: 1, steps: 5 },
            Leg { from: 1, to: 2, steps: 5 },
        ]
    );
    assert_eq!(cursor.step(), 2);
    assert_eq!(cursor.steps(), 5);
}

#[test]
fn a_full_turn_of_the_default_ring_has_a_hundred_legs() {
    let mut cursor = OrbitCursor::new(DEFAULT_STEPS).unwrap();
    let legs = cursor.full_turn();
    assert_eq!(legs.len(), 100);
    assert_eq!(legs[0], Leg { from: 0, to: 1, steps: 100 });
    assert_eq!(legs[99], Leg { from: 99, to: 0, steps: 100 });
    assert_eq!(cursor.step(), 0);
    assert_eq!(cursor.full_turn(), legs);
}
