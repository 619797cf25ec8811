use term_arcade::input::{game_over_choice, handle_key_event, Choice, Key};
use term_arcade::unit::{Heading, PlayerBuilder};

#[test]
fn arrows_and_letters_turn_the_player() {
    let cases = [
        (Key::Up, Heading::Up),
        (Key::Down, Heading::Down),
        (Key::Left, Heading::Left),
        (Key::Right, Heading::Right),
        (Key::Char('w'), Heading::Up),
        (Key::Char('s'), Heading::Down),
        (Key::Char('a'), Heading::Left),
        (Key::Char('d'), Heading::Right),
    ];
    for (key, heading) in cases {
        for start in [Heading::Up, Heading::Down, Heading::Left, Heading::Right] {
            let mut player = PlayerBuilder::new().build();
            player.turn(start);
            let before = player;
            let mut quit = false;
            handle_key_event(key, &mut player, &mut quit);
            assert_eq!(player.heading(), heading);
            assert_eq!(player.position, before.position);
            assert_eq!(player.health, before.health);
            assert_eq!(player.speed, before.speed);
            assert!(!quit);
        }
    }
}

#[test]
fn quit_keys_latch_quit() {
    for key in [Key::Char('q'), Key::Char('Q'), Key::Esc] {
        let mut player = PlayerBuilder::new().build();
        let before = player;
        let mut quit = false;
        handle_key_event(key, &mut player, &mut quit);
        assert!(quit);
        assert_eq!(player, before);
        handle_key_event(Key::Left, &mut player, &mut quit);
        assert!(quit);
        handle_key_event(Key::Other, &mut player, &mut quit);
        assert!(quit);
    }
}

#[test]
fn other_keys_are_ignored() {
    for key in [Key::Other, Key::Char('x'), Key::Char('W'), Key::Char('r'), Key::Char(' ')] {
        let mut player = PlayerBuilder::new().build();
        player.turn(Heading::Down);
        let before = player;
        let mut quit = false;
        handle_key_event(key, &mut player, &mut quit);
        assert_eq!(player, before);
        assert!(!quit);
    }
}

#[test]
fn keys_after_the_end_of_the_game() {
    assert_eq!(game_over_choice(Key::Char('r')), Choice::Restart);
    assert_eq!(game_over_choice(Key::Char('R')), Choice::Restart);
    assert_eq!(game_over_choice(Key::Char('q')), Choice::Quit);
    assert_eq!(game_over_choice(Key::Char('Q')), Choice::Quit);
    assert_eq!(game_over_choice(Key::Esc), Choice::Quit);
    assert_eq!(game_over_choice(Key::Char('x')), Choice::Wait);
    assert_eq!(game_over_choice(Key::Up), Choice::Wait);
    assert_eq!(game_over_choice(Key::Other), Choice::Wait);
}
