use term_arcade::engine::{Engine, Event, Request, Stage};
use term_arcade::game::{blocks, GameBuilder};
use term_arcade::world::InitError;
use term_arcade::input::Key;
use term_arcade::point::{Fixed, Point2d};
use term_arcade::traits::Position;
use term_arcade::unit::Heading;

fn spot(x: i32, y: i32) -> Point2d<Fixed> {
    Point2d::new(Fixed::from_milli(x), Fixed::from_milli(y))
}

fn started(builder: GameBuilder) -> Engine {
    let mut engine = Engine::new(builder.build());
    assert_eq!(engine.step(Event::Begin, 0), Request::Prepare);
    engine
}

#[test]
fn a_new_engine_has_asked_for_nothing() {
    let engine = Engine::new(GameBuilder::new().build());
    assert_eq!(engine.stage(), Stage::Boot);
    assert!(!engine.quit());
    assert!(engine.is_well_formed());
    assert_eq!(engine.game().width(), 80);
}

#[test]
fn the_terminal_is_prepared_before_the_world_is_set_up() {
    let mut engine = Engine::new(GameBuilder::new().build());
    assert_eq!(engine.step(Event::Begin, 0), Request::Prepare);
    assert_eq!(engine.stage(), Stage::Preparing);
    assert_eq!(engine.game().walls().len(), 0);
    assert_eq!(engine.step(Event::Ready, 3), Request::Poll(50));
    assert_eq!(engine.stage(), Stage::Polling);
    assert_eq!(engine.game().walls().len(), 2 * 80 + 2 * 48 - 4);
    assert_eq!(engine.game().enemies().len(), 11);
    assert!(engine.game().is_playable());
    assert!(engine.is_well_formed());
}

#[test]
fn keys_are_read_until_the_tick_is_over() {
    let mut engine = started(GameBuilder::new().width(10).height(10));
    assert_eq!(engine.step(Event::Ready, 100), Request::Poll(50));
    assert_eq!(engine.step(Event::Key(Key::Down), 110), Request::Poll(40));
    assert_eq!(engine.step(Event::Key(Key::Other), 149), Request::Poll(1));
    assert_eq!(engine.game().player().position(), spot(1000, 1000));
    assert_eq!(engine.step(Event::Key(Key::Other), 150), Request::Render);
    assert_eq!(engine.stage(), Stage::Drawing);
    assert_eq!(engine.game().player().position(), spot(1000, 2000));
    assert_eq!(engine.step(Event::Rendered, 152), Request::Poll(50));
    assert_eq!(engine.step(Event::Key(Key::Other), 300), Request::Render);
    assert_eq!(engine.game().player().position(), spot(1000, 3000));
}

#[test]
fn a_timeout_closes_the_frame() {
    let mut engine = started(GameBuilder::new().width(10).height(10));
    assert_eq!(engine.step(Event::Ready, 0), Request::Poll(50));
    assert_eq!(engine.step(Event::Timeout, 50), Request::Render);
    assert_eq!(engine.game().player().position(), spot(2000, 1000));
    assert_eq!(engine.step(Event::Rendered, 51), Request::Poll(50));
    assert_eq!(engine.step(Event::Timeout, 60), Request::Render);
    assert_eq!(engine.game().player().position(), spot(3000, 1000));
}

#[test]
fn the_world_moves_once_per_tick_whatever_the_keys() {
    let mut engine = started(GameBuilder::new().width(10).height(10));
    assert_eq!(engine.step(Event::Ready, 0), Request::Poll(50));
    let enemies = engine.game().enemies().clone();
    for now in 1..40u64 {
        assert_eq!(engine.step(Event::Key(Key::Right), now), Request::Poll(50 - now));
        assert_eq!(engine.game().player().position(), spot(1000, 1000));
        assert_eq!(*engine.game().enemies(), enemies);
    }
    assert_eq!(engine.step(Event::Timeout, 50), Request::Render);
    assert_eq!(engine.game().player().position(), spot(2000, 1000));
    assert_ne!(*engine.game().enemies(), enemies);
}

#[test]
fn the_last_heading_of_a_tick_counts() {
    let mut engine = started(GameBuilder::new().width(10).height(10));
    assert_eq!(engine.step(Event::Ready, 0), Request::Poll(50));
    assert_eq!(engine.step(Event::Key(Key::Left), 5), Request::Poll(45));
    assert_eq!(engine.step(Event::Key(Key::Up), 6), Request::Poll(44));
    assert_eq!(engine.step(Event::Key(Key::Down), 7), Request::Poll(43));
    assert_eq!(engine.step(Event::Timeout, 50), Request::Render);
    assert_eq!(engine.game().player().heading(), Heading::Down);
    assert_eq!(engine.game().player().position(), spot(1000, 2000));

    let mut blocked = started(GameBuilder::new().width(10).height(10));
    assert_eq!(blocked.step(Event::Ready, 0), Request::Poll(50));
    assert_eq!(blocked.step(Event::Key(Key::Right), 5), Request::Poll(45));
    assert_eq!(blocked.step(Event::Key(Key::Up), 6), Request::Poll(44));
    assert_eq!(blocked.step(Event::Key(Key::Left), 7), Request::Poll(43));
    assert_eq!(blocked.step(Event::Timeout, 50), Request::Render);
    assert_eq!(blocked.game().player().heading(), Heading::Left);
    assert_eq!(blocked.game().player().position(), spot(1000, 1000));
}

#[test]
fn a_clock_that_stands_still_or_runs_back_leaves_the_whole_tick() {
    let mut engine = started(GameBuilder::new().width(10).height(10));
    assert_eq!(engine.step(Event::Ready, 500), Request::Poll(50));
    assert_eq!(engine.step(Event::Key(Key::Other), 500), Request::Poll(50));
    assert_eq!(engine.step(Event::Key(Key::Other), 400), Request::Poll(50));
    assert_eq!(engine.step(Event::Key(Key::Other), u64::MAX), Request::Render);
}

#[test]
fn quit_ends_the_session_after_the_frame_is_drawn() {
    let mut engine = started(GameBuilder::new().width(10).height(10));
    assert_eq!(engine.step(Event::Ready, 0), Request::Poll(50));
    assert_eq!(engine.step(Event::Key(Key::Char('q')), 10), Request::Poll(40));
    assert!(engine.quit());
    assert_eq!(engine.step(Event::Key(Key::Down), 20), Request::Poll(30));
    assert_eq!(engine.step(Event::Timeout, 50), Request::Render);
    assert_eq!(engine.game().player().position(), spot(1000, 2000));
    assert_eq!(engine.step(Event::Rendered, 51), Request::Announce);
    assert_eq!(engine.stage(), Stage::Announcing);
    assert_eq!(engine.step(Event::Announced, 52), Request::Poll(1000));
    assert_eq!(engine.stage(), Stage::Over);
    assert_eq!(engine.step(Event::Timeout, 1052), Request::Poll(1000));
    assert_eq!(engine.step(Event::Key(Key::Char('x')), 1100), Request::Poll(1000));
    assert_eq!(engine.step(Event::Key(Key::Up), 1200), Request::Poll(1000));
    assert_eq!(engine.stage(), Stage::Over);
    assert_eq!(engine.step(Event::Key(Key::Char('Q')), 1300), Request::Exit);
    assert_eq!(engine.stage(), Stage::Done);
    assert_eq!(engine.step(Event::Timeout, 1400), Request::Exit);
    assert_eq!(engine.step(Event::Begin, 1500), Request::Exit);
}

#[test]
fn escape_quits_after_the_end_of_the_game() {
    let mut engine = started(GameBuilder::new().width(10).height(10).player_starting_health(0));
    assert_eq!(engine.step(Event::Ready, 0), Request::Announce);
    assert_eq!(engine.step(Event::Announced, 1), Request::Poll(1000));
    assert_eq!(engine.step(Event::Key(Key::Esc), 2), Request::Exit);
}

#[test]
fn a_dead_player_gets_no_frame() {
    let mut engine = started(GameBuilder::new().width(10).height(10).player_starting_health(0));
    assert_eq!(engine.step(Event::Ready, 0), Request::Announce);
    assert_eq!(engine.stage(), Stage::Announcing);
    assert_eq!(engine.game().walls().len(), 36);
    assert_eq!(engine.game().player().position(), spot(1000, 1000));
}

#[test]
fn quit_after_death() {
    let builder = GameBuilder::new()
        .width(10)
        .height(10)
        .player_starting_health(1)
        .player_starting_speed(Fixed::from_milli(0));
    let mut engine = started(builder);
    let mut now: u64 = 0;
    let mut request = engine.step(Event::Ready, now);
    let mut frames: u32 = 0;
    loop {
        assert_eq!(request, Request::Poll(50));
        assert!(engine.game().player().is_alive());
        now += 50;
        request = engine.step(Event::Timeout, now);
        assert_eq!(request, Request::Render);
        frames += 1;
        let alive = engine.game().player().is_alive();
        request = engine.step(Event::Rendered, now + 1);
        if !alive {
            break;
        }
        assert!(frames < 10_000);
    }
    assert_eq!(request, Request::Announce);
    assert_eq!(engine.game().player().health(), 0);
    assert_eq!(engine.step(Event::Announced, now + 2), Request::Poll(1000));
}

#[test]
fn restart_sets_the_session_up_anew() {
    let builder = GameBuilder::new().width(10).height(10).player_starting_health(2);
    let mut engine = started(builder);
    assert_eq!(engine.step(Event::Ready, 0), Request::Poll(50));
    assert_eq!(engine.step(Event::Key(Key::Esc), 1), Request::Poll(49));
    assert_eq!(engine.step(Event::Timeout, 50), Request::Render);
    assert_eq!(engine.step(Event::Rendered, 51), Request::Announce);
    assert_eq!(engine.step(Event::Announced, 52), Request::Poll(1000));
    assert_eq!(engine.step(Event::Key(Key::Char('r')), 60), Request::Prepare);
    assert_eq!(engine.stage(), Stage::Preparing);
    assert_eq!(engine.game().score(), 0);
    assert_eq!(engine.game().player().health(), 2);
    assert_eq!(engine.game().player().position(), spot(1000, 1000));
    assert_eq!(engine.game().walls().len(), 36);
    assert_eq!(engine.step(Event::Ready, 70), Request::Poll(50));
    assert!(!engine.quit());
    assert_eq!(engine.step(Event::Key(Key::Other), 90), Request::Poll(30));
}

#[test]
fn capital_r_restarts_too() {
    let mut engine = started(GameBuilder::new().width(10).height(10).player_starting_health(0));
    assert_eq!(engine.step(Event::Ready, 0), Request::Announce);
    assert_eq!(engine.step(Event::Announced, 1), Request::Poll(1000));
    assert_eq!(engine.step(Event::Key(Key::Char('R')), 2), Request::Prepare);
    assert_eq!(engine.step(Event::Ready, 3), Request::Announce);
}

#[test]
fn a_tick_of_no_length_reads_no_keys() {
    let mut engine = started(GameBuilder::new().width(10).height(10).update_interval(0));
    assert_eq!(engine.step(Event::Ready, 0), Request::Render);
    assert_eq!(engine.game().player().position(), spot(2000, 1000));
    assert_eq!(engine.step(Event::Rendered, 0), Request::Render);
    assert_eq!(engine.game().player().position(), spot(3000, 1000));
}

#[test]
fn a_session_that_cannot_be_set_up_is_given_up() {
    let mut small = started(GameBuilder::new().width(2).height(2));
    assert_eq!(small.step(Event::Ready, 0), Request::Abort(InitError::ArenaTooSmall));
    assert_eq!(small.stage(), Stage::Done);
    assert_eq!(small.step(Event::Ready, 1), Request::Exit);

    let mut full = started(GameBuilder::new().width(4).height(4).n_random_walls(4));
    assert_eq!(full.step(Event::Ready, 0), Request::Abort(InitError::TooManyWalls));
    assert_eq!(full.stage(), Stage::Done);
}

#[test]
fn a_report_that_was_not_asked_for_stops_the_machine() {
    let mut boot = Engine::new(GameBuilder::new().build());
    assert_eq!(boot.step(Event::Ready, 0), Request::Exit);
    assert_eq!(boot.stage(), Stage::Done);

    let mut preparing = started(GameBuilder::new());
    assert_eq!(preparing.step(Event::Timeout, 0), Request::Exit);
    assert_eq!(preparing.stage(), Stage::Done);

    let mut polling = started(GameBuilder::new());
    assert_eq!(polling.step(Event::Ready, 0), Request::Poll(50));
    assert_eq!(polling.step(Event::Rendered, 1), Request::Exit);
    assert_eq!(polling.stage(), Stage::Done);

    let mut drawing = started(GameBuilder::new());
    assert_eq!(drawing.step(Event::Ready, 0), Request::Poll(50));
    assert_eq!(drawing.step(Event::Timeout, 50), Request::Render);
    assert_eq!(drawing.step(Event::Timeout, 51), Request::Exit);
    assert_eq!(drawing.stage(), Stage::Done);
}

#[test]
fn the_player_stays_clear_of_walls_through_a_session() {
    let mut engine = started(GameBuilder::new().width(14).height(9).n_random_walls(20));
    let mut now: u64 = 0;
    let mut request = engine.step(Event::Ready, now);
    if blocks(engine.game().walls(), engine.game().player().position().round()) {
        return;
    }
    let keys = [Key::Right, Key::Down, Key::Left, Key::Up];
    let mut frames: usize = 0;
    while request == Request::Poll(50) && frames < 500 {
        now += 10;
        request = engine.step(Event::Key(keys[(frames / 3) % 4]), now);
        assert_eq!(request, Request::Poll(40));
        now += 40;
        request = engine.step(Event::Timeout, now);
        assert_eq!(request, Request::Render);
        assert!(!blocks(engine.game().walls(), engine.game().player().position().round()));
        request = engine.step(Event::Rendered, now);
        frames += 1;
    }
    assert!(request == Request::Announce || frames == 500);
}
