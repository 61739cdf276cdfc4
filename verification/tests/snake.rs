use snake_game::direction::{SnakeDirection, _calc_position};
use snake_game::game::{
    init_game_state, update_snake, GameState, _update_snake_head, _update_snake_tail, TICK_MILLIS,
};
use snake_game::grid::{get_cell, grid_size, new_grid, put_cell, Grid, EMPTY, FOOD, SNAKE};
use snake_game::input::UserInput;
use snake_game::play::{next_direction, play_round, Round, GAME_OVER_MILLIS};

fn count(grid: &Grid, value: u8) -> usize {
    grid.iter().flat_map(|row| row.iter()).filter(|cell| **cell == value).count()
}

fn directions(state: &GameState) -> Vec<SnakeDirection> {
    state.head_directions.iter().copied().collect()
}

#[test]
fn calc_position_adds_the_unit_offset() {
    assert_eq!(_calc_position((3, 4), SnakeDirection::Right), (3, 5));
    assert_eq!(_calc_position((3, 4), SnakeDirection::Down), (4, 4));
    assert_eq!(_calc_position((3, 4), SnakeDirection::Left), (3, 3));
    assert_eq!(_calc_position((3, 4), SnakeDirection::Up), (2, 4));
}

#[test]
fn calc_position_goes_negative_at_the_upper_left_corner() {
    assert_eq!(_calc_position((0, 0), SnakeDirection::Up), (-1, 0));
    assert_eq!(_calc_position((0, 0), SnakeDirection::Left), (0, -1));
}

#[test]
fn calc_position_reaches_the_largest_coordinate() {
    assert_eq!(_calc_position((32766, 32766), SnakeDirection::Down), (32767, 32766));
    assert_eq!(_calc_position((32766, 32766), SnakeDirection::Right), (32766, 32767));
    assert_eq!(_calc_position((32767, 32767), SnakeDirection::Up), (32766, 32767));
}

#[test]
fn calc_position_gives_the_same_result_twice() {
    let first = _calc_position((7, 9), SnakeDirection::Left);
    let second = _calc_position((7, 9), SnakeDirection::Left);
    assert_eq!(first, second);
}

#[test]
fn grid_size_is_rows_then_columns() {
    let grid = new_grid(3, 7);
    assert_eq!(grid_size(&grid), (3, 7));
    assert_eq!(grid.len(), 3);
    assert!(grid.iter().all(|row| row.len() == 7 && row.iter().all(|cell| *cell == EMPTY)));
}

#[test]
fn put_cell_changes_one_cell() {
    let mut grid = new_grid(2, 3);
    put_cell(&mut grid, (1, 2), FOOD);
    assert_eq!(get_cell(&grid, (1, 2)), FOOD);
    assert_eq!(grid, vec![vec![EMPTY, EMPTY, EMPTY], vec![EMPTY, EMPTY, FOOD]]);
}

#[test]
fn init_places_a_snake_of_two_cells() {
    let game = init_game_state(10, 10);
    assert_eq!(grid_size(&game.grid), (10, 10));
    assert_eq!(game.head, (0, 1));
    assert_eq!(game.tail, (0, 0));
    assert_eq!(game.last_direction, SnakeDirection::Right);
    assert_eq!(directions(&game), vec![SnakeDirection::Right]);
    assert_eq!(game.timing, 1000);
    assert_eq!(game.timing, TICK_MILLIS);
    assert_eq!(game.grid[0][0], SNAKE);
    assert_eq!(game.grid[0][1], SNAKE);
    assert_eq!(count(&game.grid, SNAKE), 2);
    assert_eq!(count(&game.grid, EMPTY), 98);
}

#[test]
fn init_on_the_smallest_grid() {
    let game = init_game_state(1, 2);
    assert_eq!(game.grid, vec![vec![SNAKE, SNAKE]]);
}

#[test]
fn three_ticks_to_the_right() {
    let mut game = init_game_state(10, 10);
    let heads = [(0, 2), (0, 3), (0, 4)];
    let tails = [(0, 1), (0, 2), (0, 3)];
    assert_eq!(game.tail, (0, 0));
    for i in 0..3 {
        assert!(update_snake(&mut game, SnakeDirection::Right));
        assert_eq!(game.head, heads[i]);
        assert_eq!(game.tail, tails[i]);
        assert_eq!(count(&game.grid, SNAKE), 2);
    }
    assert_eq!(game.grid[0][3], SNAKE);
    assert_eq!(game.grid[0][4], SNAKE);
    assert_eq!(game.grid[0][2], EMPTY);
    assert_eq!(count(&game.grid, SNAKE), 2);
    assert_eq!(directions(&game), vec![SnakeDirection::Right]);
}

#[test]
fn step_over_the_right_edge_is_refused() {
    let mut game = init_game_state(10, 10);
    for _ in 0..8 {
        assert!(update_snake(&mut game, SnakeDirection::Right));
    }
    assert_eq!(game.head, (0, 9));
    let grid = game.grid.clone();
    let queue = directions(&game);
    assert!(!update_snake(&mut game, SnakeDirection::Right));
    assert_eq!(game.grid, grid);
    assert_eq!(game.head, (0, 9));
    assert_eq!(game.tail, (0, 8));
    assert_eq!(directions(&game), queue);
}

#[test]
fn step_over_each_edge_is_refused() {
    let mut game = init_game_state(1, 2);
    let grid = game.grid.clone();
    assert!(!update_snake(&mut game, SnakeDirection::Up));
    assert!(!update_snake(&mut game, SnakeDirection::Down));
    assert!(!update_snake(&mut game, SnakeDirection::Right));
    assert_eq!(game.grid, grid);
    assert_eq!(game.last_direction, SnakeDirection::Right);
    let mut game = init_game_state(3, 3);
    assert!(update_snake(&mut game, SnakeDirection::Left));
    assert_eq!(game.head, (0, 0));
    let grid = game.grid.clone();
    assert!(!update_snake(&mut game, SnakeDirection::Left));
    assert!(!update_snake(&mut game, SnakeDirection::Up));
    assert_eq!(game.grid, grid);
    assert_eq!(game.last_direction, SnakeDirection::Left);
}

#[test]
fn eating_food_grows_the_snake() {
    let mut game = init_game_state(10, 10);
    put_cell(&mut game.grid, (0, 2), FOOD);
    assert_eq!(count(&game.grid, SNAKE), 2);
    assert!(update_snake(&mut game, SnakeDirection::Right));
    assert_eq!(count(&game.grid, SNAKE), 3);
    assert_eq!(count(&game.grid, FOOD), 0);
    assert_eq!(game.head, (0, 2));
    assert_eq!(game.tail, (0, 0));
    assert_eq!(game.grid[0][0], SNAKE);
    assert_eq!(directions(&game), vec![SnakeDirection::Right, SnakeDirection::Right]);
}

#[test]
fn tail_follows_the_turns_of_the_head() {
    let mut game = init_game_state(10, 10);
    put_cell(&mut game.grid, (0, 2), FOOD);
    assert!(update_snake(&mut game, SnakeDirection::Right));
    let moves = [SnakeDirection::Down, SnakeDirection::Down, SnakeDirection::Left];
    let mut heads = vec![(0, 0), (0, 1), (0, 2)];
    for (i, direction) in moves.iter().enumerate() {
        assert!(update_snake(&mut game, *direction));
        heads.push(game.head);
        assert_eq!(game.tail, heads[i + 1]);
        assert_eq!(count(&game.grid, SNAKE), 3);
    }
    assert_eq!(game.head, (2, 1));
    assert_eq!(game.tail, (1, 2));
    assert_eq!(game.last_direction, SnakeDirection::Left);
}

#[test]
fn running_into_the_body_does_not_end_the_game() {
    let mut game = init_game_state(10, 10);
    assert!(update_snake(&mut game, SnakeDirection::Left));
    assert_eq!(game.head, (0, 0));
    assert_eq!(game.tail, (0, 1));
    assert_eq!(game.grid[0][0], EMPTY);
    assert_eq!(game.grid[0][1], SNAKE);
    assert!(update_snake(&mut game, SnakeDirection::Down));
    assert_eq!(game.head, (1, 0));
    assert_eq!(game.tail, (0, 0));
    assert_eq!(game.grid[0][0], EMPTY);
    assert_eq!(count(&game.grid, SNAKE), 1);
}

#[test]
fn head_and_tail_move_apart() {
    let mut game = init_game_state(4, 4);
    _update_snake_head(&mut game, 1, 1, SnakeDirection::Down);
    assert_eq!(game.head, (1, 1));
    assert_eq!(game.tail, (0, 0));
    assert_eq!(game.grid[1][1], SNAKE);
    assert_eq!(directions(&game), vec![SnakeDirection::Down, SnakeDirection::Right]);
    assert_eq!(count(&game.grid, SNAKE), 3);
    _update_snake_tail(&mut game);
    assert_eq!(game.tail, (0, 1));
    assert_eq!(game.grid[0][0], EMPTY);
    assert_eq!(directions(&game), vec![SnakeDirection::Down]);
    assert_eq!(count(&game.grid, SNAKE), 2);
}

#[test]
fn round_without_input_keeps_the_direction() {
    let mut game = init_game_state(10, 10);
    assert_eq!(next_direction(None, SnakeDirection::Up), SnakeDirection::Up);
    assert_eq!(
        next_direction(Some(UserInput::Direction(SnakeDirection::Down)), SnakeDirection::Up),
        SnakeDirection::Down
    );
    assert_eq!(play_round(&mut game, None), Round::Moved);
    assert_eq!(game.head, (0, 2));
    assert_eq!(
        play_round(&mut game, Some(UserInput::Direction(SnakeDirection::Down))),
        Round::Moved
    );
    assert_eq!(game.head, (1, 2));
    assert_eq!(play_round(&mut game, None), Round::Moved);
    assert_eq!(game.head, (2, 2));
    assert_eq!(game.last_direction, SnakeDirection::Down);
}

#[test]
fn round_ends_on_quit_and_at_the_edge() {
    let mut game = init_game_state(10, 10);
    let grid = game.grid.clone();
    assert_eq!(play_round(&mut game, Some(UserInput::Quit)), Round::Quit);
    assert_eq!(game.grid, grid);
    assert_eq!(game.head, (0, 1));
    assert_eq!(
        play_round(&mut game, Some(UserInput::Direction(SnakeDirection::Up))),
        Round::GameOver
    );
    assert_eq!(game.grid, grid);
    assert_eq!(game.last_direction, SnakeDirection::Right);
    assert_eq!(GAME_OVER_MILLIS, 3000);
}

#[test]
fn grid_shows_as_many_cells_as_the_snake_is_long() {
    let mut game = init_game_state(6, 6);
    put_cell(&mut game.grid, (0, 2), FOOD);
    put_cell(&mut game.grid, (1, 2), FOOD);
    put_cell(&mut game.grid, (2, 1), FOOD);
    let moves = [
        SnakeDirection::Right,
        SnakeDirection::Down,
        SnakeDirection::Down,
        SnakeDirection::Left,
        SnakeDirection::Left,
        SnakeDirection::Up,
    ];
    let lengths = [3, 4, 4, 5, 5, 5];
    for (direction, length) in moves.iter().zip(lengths.iter()) {
        assert!(update_snake(&mut game, *direction));
        assert_eq!(count(&game.grid, SNAKE), *length);
        assert_eq!(game.head_directions.len() + 1, *length);
        assert_eq!(game.grid[game.head.0][game.head.1], SNAKE);
        assert_eq!(game.grid[game.tail.0][game.tail.1], SNAKE);
    }
    assert_eq!(count(&game.grid, FOOD), 0);
    assert_eq!(game.head, (1, 0));
    assert_eq!(game.tail, (1, 2));
}
