use grid_enumerate::{GridEnumerate, IntoGridEnumerate};

fn drain<I: Iterator>(grid: &mut GridEnumerate<I>) -> Vec<((usize, usize), I::Item)> {
    let mut pairs = Vec::new();
    while let Some(pair) = grid.next() {
        pairs.push(pair);
    }
    pairs
}

#[test]
fn five_elements_in_two_columns() {
    let mut grid = GridEnumerate::new(vec!['a', 'b', 'c', 'd', 'e'].into_iter(), 2);
    assert_eq!(grid.next(), Some(((0, 0), 'a')));
    assert_eq!(grid.next(), Some(((0, 1), 'b')));
    assert_eq!(grid.next(), Some(((1, 0), 'c')));
    assert_eq!(grid.next(), Some(((1, 1), 'd')));
    assert_eq!(grid.next(), Some(((2, 0), 'e')));
    assert_eq!(grid.next(), None);
}

#[test]
fn single_column_puts_each_element_on_its_own_row() {
    let mut grid = GridEnumerate::new(vec!['x', 'y', 'z'].into_iter(), 1);
    assert_eq!(grid.next(), Some(((0, 0), 'x')));
    assert_eq!(grid.next(), Some(((1, 0), 'y')));
    assert_eq!(grid.next(), Some(((2, 0), 'z')));
    assert_eq!(grid.next(), None);
}

#[test]
fn exact_multiple_stays_on_the_last_row() {
    let mut grid = GridEnumerate::new(vec![1, 2, 3, 4].into_iter(), 4);
    assert_eq!(grid.next(), Some(((0, 0), 1)));
    assert_eq!(grid.next(), Some(((0, 1), 2)));
    assert_eq!(grid.next(), Some(((0, 2), 3)));
    assert_eq!(grid.next(), Some(((0, 3), 4)));
    assert_eq!(grid.next(), None);
}

#[test]
fn cursor_moves_to_the_next_row_after_a_full_row() {
    let mut grid = GridEnumerate::new(vec![1, 2, 3, 4].into_iter(), 4);
    while grid.next().is_some() {}
    assert_eq!(grid.cursor(), (1, 0));
}

#[test]
fn empty_source_is_exhausted_at_once() {
    let mut grid = GridEnumerate::new(Vec::<u8>::new().into_iter(), 3);
    assert_eq!(grid.next(), None);
    assert_eq!(grid.cursor(), (0, 0));
}

#[test]
fn wider_than_the_source_is_one_row() {
    let mut grid = GridEnumerate::new(vec![10, 20, 30].into_iter(), 8);
    assert_eq!(
        drain(&mut grid),
        vec![((0, 0), 10), ((0, 1), 20), ((0, 2), 30)]
    );
}

#[test]
fn widest_grid_is_one_row() {
    let mut grid = GridEnumerate::new(vec![10, 20, 30].into_iter(), usize::MAX);
    assert_eq!(
        drain(&mut grid),
        vec![((0, 0), 10), ((0, 1), 20), ((0, 2), 30)]
    );
    assert_eq!(grid.cursor(), (0, 3));
}

#[test]
fn conversion_wraps_any_iterator() {
    let mut grid = vec!['a', 'b', 'c'].into_iter().into_grid_enumerate(2);
    assert_eq!(grid.columns(), 2);
    assert_eq!(grid.cursor(), (0, 0));
    assert_eq!(
        drain(&mut grid),
        vec![((0, 0), 'a'), ((0, 1), 'b'), ((1, 0), 'c')]
    );
}

/// A board that is no iterator itself, but knows how to become a grid.
struct Board {
    tiles: Vec<char>,
    width: usize,
}

impl IntoGridEnumerate for Board {
    type InnerIter = std::vec::IntoIter<char>;

    fn into_grid_enumerate(self, cols: usize) -> GridEnumerate<Self::InnerIter> {
        GridEnumerate::new(self.tiles.into_iter(), cols)
    }
}

#[test]
fn conversion_can_be_given_to_other_types() {
    let board = Board {
        tiles: vec!['r', 'n', 'b', 'q'],
        width: 3,
    };
    let width = board.width;
    let mut grid = board.into_grid_enumerate(width);
    assert_eq!(
        drain(&mut grid),
        vec![((0, 0), 'r'), ((0, 1), 'n'), ((0, 2), 'b'), ((1, 0), 'q')]
    );
}

#[test]
fn conversion_composes_with_adapters_upstream() {
    let mut grid = (0..10u32)
        .filter(|n| n % 2 == 1)
        .map(|n| n * n)
        .into_grid_enumerate(3);
    assert_eq!(
        drain(&mut grid),
        vec![
            ((0, 0), 1),
            ((0, 1), 9),
            ((0, 2), 25),
            ((1, 0), 49),
            ((1, 1), 81)
        ]
    );
}

#[test]
fn pairs_compose_with_adapters_downstream() {
    let mut grid = "grid".chars().into_grid_enumerate(2);
    let diagonal: Vec<char> = drain(&mut grid)
        .into_iter()
        .filter(|((row, column), _)| row == column)
        .map(|(_, letter)| letter)
        .collect();
    assert_eq!(diagonal, vec!['g', 'd']);
}

#[test]
fn borrowed_elements_pass_through() {
    let words = vec![String::from("north"), String::from("south")];
    let mut grid = words.iter().into_grid_enumerate(1);
    assert_eq!(grid.next(), Some(((0, 0), &words[0])));
    assert_eq!(grid.next(), Some(((1, 0), &words[1])));
    assert_eq!(grid.next(), None);
}

#[test]
fn zero_columns_can_be_constructed() {
    let grid = GridEnumerate::new(vec![1, 2, 3].into_iter(), 0);
    assert_eq!(grid.columns(), 0);
    assert_eq!(grid.cursor(), (0, 0));
    assert_eq!(grid.size_hint(), (3, Some(3)));
}

#[test]
fn zero_columns_can_be_constructed_by_conversion() {
    let grid = vec![1, 2, 3].into_iter().into_grid_enumerate(0);
    assert_eq!(grid.columns(), 0);
    assert_eq!(grid.cursor(), (0, 0));
}

#[test]
fn clone_continues_from_the_same_cell() {
    let mut grid = GridEnumerate::new(vec![1, 2, 3, 4, 5].into_iter(), 2);
    grid.next();
    grid.next();
    grid.next();
    let mut copy = grid.clone();
    assert_eq!(copy.cursor(), (1, 1));
    assert_eq!(drain(&mut copy), vec![((1, 1), 4), ((2, 0), 5)]);
    assert_eq!(drain(&mut grid), vec![((1, 1), 4), ((2, 0), 5)]);
}

#[test]
fn debug_output_names_the_adapter() {
    let grid = GridEnumerate::new(vec![1u8].into_iter(), 2);
    let text = format!("{:?}", grid);
    assert!(text.starts_with("GridEnumerate"));
    assert!(text.contains("columns: 2"));
}
