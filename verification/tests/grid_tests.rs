use snake_core::{Grid, Pos};

fn grid(w: i32, h: i32) -> Grid {
    Grid::new(w, h).expect("a positive grid")
}

#[test]
fn new_rejects_malformed_sides() {
    assert!(Grid::new(0, 9).is_none());
    assert!(Grid::new(16, 0).is_none());
    assert!(Grid::new(-3, 9).is_none());
    assert!(Grid::new(16, -1).is_none());
    assert!(Grid::new(16, 9).is_some());
    assert!(Grid::new(1, 1).is_some());
}

#[test]
fn contains_is_one_indexed_and_inclusive() {
    let g = grid(16, 9);
    assert!(g.contains(Pos { x: 1, y: 1 }));
    assert!(g.contains(Pos { x: 16, y: 9 }));
    assert!(g.contains(Pos { x: 8, y: 4 }));
    assert!(!g.contains(Pos { x: 0, y: 5 }));
    assert!(!g.contains(Pos { x: 17, y: 5 }));
    assert!(!g.contains(Pos { x: 5, y: 0 }));
    assert!(!g.contains(Pos { x: 5, y: 10 }));
}

#[test]
fn center_is_half_of_each_side() {
    assert_eq!(grid(16, 9).center(), Pos { x: 8, y: 4 });
    assert_eq!(grid(2, 2).center(), Pos { x: 1, y: 1 });
    assert_eq!(grid(5, 7).center(), Pos { x: 2, y: 3 });
}
