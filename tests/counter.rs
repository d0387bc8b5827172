use git_switch_branch::util::CircularCounter;

#[test]
fn next_moves_forward() {
    let mut c = CircularCounter { size: 3, selected: 0 };
    assert_eq!(c.next(), 1);
    assert_eq!(c.selected, 1);
    assert_eq!(c.next(), 2);
}

#[test]
fn next_wraps_from_last_to_first() {
    let mut c = CircularCounter { size: 3, selected: 2 };
    assert_eq!(c.next(), 0);
}

#[test]
fn prev_wraps_from_first_to_last() {
    let mut c = CircularCounter { size: 3, selected: 0 };
    assert_eq!(c.prev(), 2);
    assert_eq!(c.prev(), 1);
}

#[test]
fn single_row_stays_put() {
    let mut c = CircularCounter { size: 1, selected: 0 };
    assert_eq!(c.next(), 0);
    assert_eq!(c.prev(), 0);
}

#[test]
fn full_cycle_returns_to_start() {
    for size in 1..6usize {
        for start in 0..size {
            let mut c = CircularCounter { size, selected: start };
            for _ in 0..size {
                c.next();
            }
            assert_eq!(c.selected, start);
            for _ in 0..size {
                c.prev();
            }
            assert_eq!(c.selected, start);
        }
    }
}

#[test]
fn step_then_step_back_restores() {
    for size in 1..6usize {
        for start in 0..size {
            let mut c = CircularCounter { size, selected: start };
            c.next();
            c.prev();
            assert_eq!(c.selected, start);
            c.prev();
            c.next();
            assert_eq!(c.selected, start);
        }
    }
}

#[test]
fn selection_stays_in_range() {
    let mut c = CircularCounter { size: 4, selected: 1 };
    let steps = [true, true, true, false, false, false, false, false, true, false, true, true];
    for forward in steps {
        if forward {
            c.next();
        } else {
            c.prev();
        }
        assert!(c.selected < c.size);
    }
}
