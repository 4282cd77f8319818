use easy_graph::grid::Grid;

#[test]
fn create_grid() {
    let grid = Grid::new(10, 10, 0);
    let v = grid.get(0, 0);
    assert_eq!(*v, 0);
}

#[test]
fn set_value() {
    let mut grid = Grid::new(10, 10, 0);
    grid.set(1, 2, 3);
    let v = grid.get(1, 2);
    assert_eq!(*v, 3);
}

#[test]
fn fill() {
    let mut grid = Grid::new(10, 10, 0);
    grid.fill_xy(|x, y| x + y);
    assert_eq!(*grid.get(3, 2), 3 + 2);
    assert_eq!(*grid.get(8, 3), 8 + 3);
}

#[test]
fn contains() {
    let grid = Grid::new(10, 10, 0);
    assert!(grid.contains(9, 9));
    assert!(!grid.contains(10, 10));
}

#[test]
fn grid_dimensions() {
    let grid = Grid::new(4, 3, 1u8);
    assert_eq!(grid.width(), 4);
    assert_eq!(grid.height(), 3);
}

#[test]
fn grid_index_and_coord_roundtrip() {
    let grid = Grid::new(7, 5, 0i64);
    let i = grid.index(3, 2);
    assert_eq!(i, 3 * 5 + 2);
    assert_eq!(grid.coord(i), (3, 2));
}

#[test]
fn grid_get_mut_writes_through() {
    let mut grid = Grid::new(2, 2, 0);
    *grid.get_mut(1, 1) = 9;
    assert_eq!(*grid.get(1, 1), 9);
    *grid.get_index_mut(0) = 5;
    assert_eq!(*grid.get_index(0), 5);
}

#[test]
fn grid_fill_without_arguments() {
    let mut grid = Grid::new(3, 3, 0);
    grid.fill(|| 7);
    for cell in grid.iter() {
        assert_eq!(*cell, 7);
    }
}

#[test]
fn grid_iter_mut_writes_through() {
    let mut grid = Grid::new(2, 2, 1);
    for cell in grid.iter_mut().iter_mut() {
        *cell *= 2;
    }
    assert_eq!(*grid.get(0, 0), 2);
    assert_eq!(*grid.get(1, 1), 2);
}

#[test]
fn grid_set_index() {
    let mut grid = Grid::new(3, 3, 0);
    grid.set_index(4, 42);
    assert_eq!(*grid.get_index(4), 42);
    assert_eq!(*grid.get(1, 1), 42);
}
