use snake_game::food::{add_food, place_food};
use snake_game::game::init_game_state;
use snake_game::grid::{new_grid, EMPTY, FOOD, SNAKE};
use snake_game::render::render_grid;

#[test]
fn test_food_gen() {
    let (nrows, ncols, nfood) = (10, 10, 5);
    let mut game = init_game_state(nrows, ncols);
    add_food(&mut game.grid, nfood);
    println!("{}", render_grid(&game.grid));

    let grid_sum: u8 = game.grid.iter().flat_map(|cols| cols.iter()).sum();
    // The food is randomly placed in the grid, and it might be located in
    // the snake place (therefore, ignored). The number of food in the grid
    // may discount the initial snake size (which is 2).
    assert!(grid_sum > (2 * SNAKE + (nfood as u8 - 2) * FOOD))
}

#[test]
fn place_food_fills_an_empty_cell_only() {
    let mut game = init_game_state(2, 3);
    place_food(&mut game.grid, (1, 1));
    assert_eq!(game.grid, vec![vec![SNAKE, SNAKE, EMPTY], vec![EMPTY, FOOD, EMPTY]]);
    place_food(&mut game.grid, (0, 0));
    place_food(&mut game.grid, (1, 1));
    assert_eq!(game.grid, vec![vec![SNAKE, SNAKE, EMPTY], vec![EMPTY, FOOD, EMPTY]]);
}

#[test]
fn add_food_never_touches_the_snake_and_keeps_the_bound() {
    for k in 0..40 {
        let mut game = init_game_state(4, 5);
        let before = game.grid.clone();
        add_food(&mut game.grid, k);
        let mut food = 0;
        for r in 0..4 {
            for c in 0..5 {
                if before[r][c] == SNAKE {
                    assert_eq!(game.grid[r][c], SNAKE);
                } else {
                    assert!(game.grid[r][c] == EMPTY || game.grid[r][c] == FOOD);
                }
                if game.grid[r][c] == FOOD {
                    food += 1;
                }
            }
        }
        assert!(food <= k);
        assert!(food <= 18);
    }
}

#[test]
fn add_food_of_nothing_changes_nothing() {
    let mut grid = new_grid(3, 3);
    add_food(&mut grid, 0);
    assert_eq!(grid, new_grid(3, 3));
}

#[test]
fn add_food_fills_a_single_cell() {
    let mut grid = new_grid(1, 1);
    add_food(&mut grid, 1);
    assert_eq!(grid, vec![vec![FOOD]]);
    add_food(&mut grid, 3);
    assert_eq!(grid, vec![vec![FOOD]]);
}

#[test]
fn add_food_draws_over_the_whole_grid() {
    let mut grid = new_grid(2, 2);
    add_food(&mut grid, 400);
    assert_eq!(grid, vec![vec![FOOD, FOOD], vec![FOOD, FOOD]]);
}
