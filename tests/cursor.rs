use termedit::cursor::Cursor;

fn walk(c: &mut Cursor, keys: &str) {
    for k in keys.chars() {
        c.move_cursor(k);
    }
}

#[test]
fn new_cursor_is_home() {
    let c = Cursor::new(24, 80);
    assert_eq!((c.x, c.y, c.rows, c.columns), (0, 0, 24, 80));
}

#[test]
fn right_right_down_reaches_two_one() {
    let mut c = Cursor::new(24, 80);
    walk(&mut c, "llj");
    assert_eq!((c.x, c.y), (2, 1));
}

#[test]
fn left_left_up_from_home_stays() {
    let mut c = Cursor::new(24, 80);
    walk(&mut c, "hhk");
    assert_eq!((c.x, c.y), (0, 0));
}

#[test]
fn edges_clamp() {
    let mut c = Cursor::new(3, 4);
    walk(&mut c, "jjjj");
    assert_eq!(c.y, 2);
    walk(&mut c, "llllll");
    assert_eq!(c.x, 3);
    c.move_cursor('j');
    c.move_cursor('l');
    assert_eq!((c.x, c.y), (3, 2));
    walk(&mut c, "k");
    assert_eq!((c.x, c.y), (3, 1));
}

#[test]
fn other_keys_do_not_move() {
    let mut c = Cursor::new(5, 5);
    walk(&mut c, "lj");
    walk(&mut c, "xLJ q~");
    assert_eq!((c.x, c.y), (1, 1));
}

#[test]
fn long_walk_stays_in_grid() {
    let mut c = Cursor::new(2, 3);
    let keys = "lllljjjjhkhkhlllljjkkkkhhhhhhjl";
    for k in keys.chars() {
        c.move_cursor(k);
        assert!(c.x < 3 && c.y < 2);
    }
    assert_eq!((c.x, c.y), (1, 1));
}

#[test]
fn one_cell_grid_never_moves() {
    let mut c = Cursor::new(1, 1);
    walk(&mut c, "hjkl");
    assert_eq!((c.x, c.y), (0, 0));
}
