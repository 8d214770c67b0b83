use royale_engine::geom::{distance_sq, find_nearest, Position};

#[test]
fn test_find_nearest() {
    let queen_pos = Position { x: 50, y: 50 };
    let nearest = Position { x: 55, y: 55 };

    let sites_pos = vec![nearest];
    let result = find_nearest(queen_pos, sites_pos);
    assert_eq!(nearest, result.unwrap());

    let sites_pos = vec![nearest, Position { x: 1000, y: 1000 }];
    let result = find_nearest(queen_pos, sites_pos);
    assert_eq!(nearest, result.unwrap());

    let sites_pos = vec![
        Position { x: 1000, y: 1000 },
        nearest,
        Position { x: 1000, y: 1000 },
    ];
    let result = find_nearest(queen_pos, sites_pos);
    assert_eq!(nearest, result.unwrap());

    let sites_pos = vec![
        Position { x: 54, y: 1000 },
        nearest,
        Position { x: 1000, y: 54 },
    ];
    let result = find_nearest(queen_pos, sites_pos);
    assert_eq!(nearest, result.unwrap());

    let sites_pos = vec![Position { x: 0, y: 0 }, nearest, Position { x: 50, y: 40 }];
    let result = find_nearest(queen_pos, sites_pos);
    assert_eq!(nearest, result.unwrap());
}

#[test]
fn find_nearest_empty_returns_none() {
    let queen_pos = Position { x: 50, y: 50 };
    let result = find_nearest(queen_pos, Vec::new());
    assert!(result.is_none());
}

#[test]
fn find_nearest_single_candidate() {
    let reference = Position { x: 50, y: 50 };
    let candidate = Position { x: 55, y: 55 };
    let result = find_nearest(reference, vec![candidate]);
    assert_eq!(candidate, result.unwrap());
    let d = distance_sq(reference, candidate);
    assert_eq!(d, 50);
    assert!(((d as f64).sqrt() - 7.0710678).abs() < 1e-6);
}

#[test]
fn find_nearest_three_candidates() {
    let reference = Position { x: 50, y: 50 };
    let candidates = vec![
        Position { x: 54, y: 1000 },
        Position { x: 55, y: 55 },
        Position { x: 1000, y: 54 },
    ];
    let result = find_nearest(reference, candidates);
    assert_eq!(Position { x: 55, y: 55 }, result.unwrap());
}

#[test]
fn find_nearest_returns_minimum_distance() {
    let reference = Position { x: 0, y: 0 };
    let candidates = vec![
        Position { x: 9, y: 2 },
        Position { x: 3, y: 4 },
        Position { x: 6, y: 1 },
        Position { x: -3, y: -4 },
    ];
    let picked = find_nearest(reference, candidates.clone()).unwrap();
    for c in candidates {
        assert!(distance_sq(reference, picked) <= distance_sq(reference, c));
    }
    assert_eq!(Position { x: 3, y: 4 }, picked);
}

#[test]
fn find_nearest_tie_keeps_first_in_input_order() {
    let reference = Position { x: 0, y: 0 };
    let candidates = vec![
        Position { x: 7, y: 7 },
        Position { x: 5, y: 0 },
        Position { x: 0, y: 5 },
        Position { x: 3, y: 4 },
    ];
    // three candidates are exactly at squared distance 25; the earliest wins
    let picked = find_nearest(reference, candidates).unwrap();
    assert_eq!(Position { x: 5, y: 0 }, picked);
}

#[test]
fn distance_sq_axis_and_diagonal() {
    let origin = Position { x: 0, y: 0 };
    let x10 = Position { x: 10, y: 0 };
    assert_eq!(100, distance_sq(origin, x10));
    assert_eq!(100, distance_sq(x10, origin));
    let y10 = Position { x: 0, y: 10 };
    assert_eq!(100, distance_sq(origin, y10));
    assert_eq!(100, distance_sq(y10, origin));
    let diag = Position { x: 10, y: 10 };
    assert_eq!(200, distance_sq(origin, diag));
    assert_eq!(200, distance_sq(diag, origin));
    assert!(((200f64).sqrt() - 14.142135623730951).abs() < 1e-12);
}
