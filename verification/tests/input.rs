use snake_game::direction::SnakeDirection;
use snake_game::input::{
    capture_input, is_arrow_event, is_quit_event, key_to_input, Key, UserInput, QUIT_CHAR,
};

#[test]
fn no_event_is_no_input() {
    assert_eq!(capture_input(&vec![]), None);
}

#[test]
fn arrow_keys_give_directions() {
    assert_eq!(key_to_input(Some(Key::Up)), Some(UserInput::Direction(SnakeDirection::Up)));
    assert_eq!(key_to_input(Some(Key::Down)), Some(UserInput::Direction(SnakeDirection::Down)));
    assert_eq!(key_to_input(Some(Key::Left)), Some(UserInput::Direction(SnakeDirection::Left)));
    assert_eq!(key_to_input(Some(Key::Right)), Some(UserInput::Direction(SnakeDirection::Right)));
    assert_eq!(key_to_input(Some(Key::Char('q'))), Some(UserInput::Quit));
    assert_eq!(key_to_input(Some(Key::Char('x'))), None);
    assert_eq!(key_to_input(Some(Key::Other)), None);
    assert_eq!(key_to_input(None), None);
    assert_eq!(QUIT_CHAR, 'q');
}

#[test]
fn each_arrow_key_alone_gives_its_direction() {
    let pairs = [
        (Key::Up, SnakeDirection::Up),
        (Key::Right, SnakeDirection::Right),
        (Key::Down, SnakeDirection::Down),
        (Key::Left, SnakeDirection::Left),
    ];
    for (key, direction) in pairs {
        assert!(is_arrow_event(&Some(key)));
        assert_eq!(capture_input(&vec![Some(key)]), Some(UserInput::Direction(direction)));
    }
    assert!(!is_arrow_event(&Some(Key::Char('q'))));
    assert!(!is_arrow_event(&Some(Key::Other)));
    assert!(!is_arrow_event(&None));
}

#[test]
fn last_key_wins() {
    let events = vec![Some(Key::Up), Some(Key::Left), Some(Key::Down)];
    assert_eq!(capture_input(&events), Some(UserInput::Direction(SnakeDirection::Down)));
    let events = vec![None, Some(Key::Right)];
    assert_eq!(capture_input(&events), Some(UserInput::Direction(SnakeDirection::Right)));
}

#[test]
fn ignored_key_does_not_cancel_an_arrow() {
    let events = vec![Some(Key::Left), Some(Key::Char('x'))];
    assert_eq!(capture_input(&events), Some(UserInput::Direction(SnakeDirection::Left)));
    let events = vec![Some(Key::Up), Some(Key::Char('a'))];
    assert_eq!(capture_input(&events), Some(UserInput::Direction(SnakeDirection::Up)));
    let events = vec![Some(Key::Down), Some(Key::Other), Some(Key::Char('Q')), Some(Key::Other)];
    assert_eq!(capture_input(&events), Some(UserInput::Direction(SnakeDirection::Down)));
    let events = vec![Some(Key::Right), Some(Key::Char('x')), Some(Key::Up), Some(Key::Other)];
    assert_eq!(capture_input(&events), Some(UserInput::Direction(SnakeDirection::Up)));
}

#[test]
fn failed_read_does_not_cancel_an_arrow() {
    let events = vec![Some(Key::Up), None];
    assert_eq!(capture_input(&events), Some(UserInput::Direction(SnakeDirection::Up)));
    let events = vec![None, Some(Key::Left), None, None];
    assert_eq!(capture_input(&events), Some(UserInput::Direction(SnakeDirection::Left)));
}

#[test]
fn keys_that_are_no_arrows_give_no_input() {
    let events = vec![Some(Key::Char('x')), Some(Key::Other), None];
    assert_eq!(capture_input(&events), None);
    assert_eq!(capture_input(&vec![None]), None);
    assert_eq!(capture_input(&vec![Some(Key::Char('Q'))]), None);
}

#[test]
fn quit_wins_over_later_keys() {
    let events = vec![Some(Key::Up), Some(Key::Char('q')), Some(Key::Left), None];
    assert_eq!(capture_input(&events), Some(UserInput::Quit));
    let events = vec![Some(Key::Char('q'))];
    assert_eq!(capture_input(&events), Some(UserInput::Quit));
    let events = vec![Some(Key::Char('x')), None, Some(Key::Char('q'))];
    assert_eq!(capture_input(&events), Some(UserInput::Quit));
    assert!(is_quit_event(&Some(Key::Char('q'))));
    assert!(!is_quit_event(&Some(Key::Char('Q'))));
    assert!(!is_quit_event(&Some(Key::Up)));
    assert!(!is_quit_event(&None));
}
