use pong::{
    App, Bar, Heading, Key, Point, VerticalDir, BALL_START_X, BALL_START_Y, BAR_LENGTH, PIXEL,
    SCREEN_HEIGHT, SCREEN_WIDTH, START_DIRECTION,
};

const RIGHT: Heading = Heading { sin: 1_000_000, cos: 0 };
const LEFT: Heading = Heading { sin: -1_000_000, cos: 0 };
const DOWN: Heading = Heading { sin: 0, cos: 1_000_000 };
const STILL: Heading = Heading { sin: 0, cos: 0 };

fn start() -> Point {
    Point { x: BALL_START_X, y: BALL_START_Y }
}

#[test]
fn new_game_starts_centred() {
    let app = App::new();
    assert_eq!(app.ball.position, start());
    assert_eq!(app.ball.direction, START_DIRECTION);
    assert_eq!(app.left, Bar::new());
    assert_eq!(app.right.position, Point { x: 0, y: 125 * PIXEL });
    assert_eq!(app.right.direction, VerticalDir::Stationary);
    assert_eq!(app.right.points, 0);
}

#[test]
fn intersect_includes_both_ends() {
    let bar = Bar::new();
    let y = bar.position.y;
    assert!(bar.intersect(&Point { x: 0, y: y + BAR_LENGTH }));
    assert!(bar.intersect(&Point { x: 0, y: y - BAR_LENGTH }));
    assert!(bar.intersect(&Point { x: 0, y }));
    assert!(!bar.intersect(&Point { x: 0, y: y + BAR_LENGTH + 1 }));
    assert!(!bar.intersect(&Point { x: 0, y: y - BAR_LENGTH - 1 }));
}

#[test]
fn ball_moves_by_sine_and_cosine() {
    let mut app = App::new();
    app.update(10_000, Heading { sin: 707_107, cos: 707_107 });
    assert_eq!(app.ball.position.x, BALL_START_X + 1_414_214);
    assert_eq!(app.ball.position.y, BALL_START_Y + 1_414_214);
    assert_eq!(app.ball.direction, START_DIRECTION);
}

#[test]
fn ball_travel_rounds_toward_zero() {
    let mut app = App::new();
    app.update(1, Heading { sin: -3_000, cos: 3_000 });
    assert_eq!(app.ball.position, start());
    app.update(10, Heading { sin: -3_000, cos: 3_000 });
    assert_eq!(app.ball.position.x, BALL_START_X - 6);
    assert_eq!(app.ball.position.y, BALL_START_Y + 6);
}

#[test]
fn ball_past_right_wall_scores_for_left() {
    let mut app = App::new();
    app.ball.position.x = SCREEN_WIDTH - 16 * PIXEL;
    app.ball.direction = 90_000;
    app.right.position.y = 200 * PIXEL;
    app.update(100_000, RIGHT);
    assert_eq!(app.ball.position, start());
    assert_eq!(app.left.points, 1);
    assert_eq!(app.right.points, 0);
    assert_eq!(app.ball.direction, 90_000);
}

#[test]
fn ball_past_left_wall_scores_for_right() {
    let mut app = App::new();
    app.ball.position.x = 16 * PIXEL;
    app.ball.direction = 270_000;
    app.update(100_000, LEFT);
    assert_eq!(app.ball.position, start());
    assert_eq!(app.left.points, 0);
    assert_eq!(app.right.points, 1);
}

#[test]
fn right_paddle_turns_ball_forward() {
    let mut app = App::new();
    app.ball.position.x = SCREEN_WIDTH - 15 * PIXEL - 1;
    app.ball.direction = 90_000;
    app.right.position.y = app.ball.position.y;
    app.update(1, RIGHT);
    assert_eq!(app.ball.position.x, SCREEN_WIDTH - 15 * PIXEL + 199);
    assert_eq!(app.ball.position.y, BALL_START_Y);
    assert_eq!(app.ball.direction, 180_000);
    assert_eq!(app.left.points, 0);
    assert_eq!(app.right.points, 0);
}

#[test]
fn right_face_missed_keeps_direction() {
    let mut app = App::new();
    app.ball.position.x = SCREEN_WIDTH - 15 * PIXEL - 1;
    app.ball.direction = 90_000;
    app.right.position.y = 20 * PIXEL;
    app.update(1, RIGHT);
    assert_eq!(app.ball.position.x, SCREEN_WIDTH - 15 * PIXEL + 199);
    assert_eq!(app.ball.direction, 90_000);
}

#[test]
fn left_paddle_turns_ball_back() {
    let mut app = App::new();
    app.ball.position.x = 15 * PIXEL + 1;
    app.ball.direction = 270_000;
    app.update(1, LEFT);
    assert_eq!(app.ball.position.x, 15 * PIXEL - 199);
    assert_eq!(app.ball.direction, 180_000);
}

#[test]
fn left_paddle_turn_wraps_below_zero() {
    let mut app = App::new();
    app.ball.position.x = 10 * PIXEL;
    app.ball.direction = 0;
    app.update(0, STILL);
    assert_eq!(app.ball.direction, 270_000);
}

#[test]
fn bottom_wall_turns_ball_forward() {
    let mut app = App::new();
    app.ball.position.y = SCREEN_HEIGHT;
    app.ball.direction = 0;
    app.update(1_000, DOWN);
    assert_eq!(app.ball.position.y, SCREEN_HEIGHT + 200_000);
    assert_eq!(app.ball.direction, 90_000);
}

#[test]
fn top_wall_turns_ball_back() {
    let mut app = App::new();
    app.ball.position.y = 0;
    app.ball.direction = 180_000;
    app.update(0, STILL);
    assert_eq!(app.ball.direction, 90_000);
}

#[test]
fn turn_wraps_past_full_turn() {
    let mut app = App::new();
    app.ball.position.y = SCREEN_HEIGHT;
    app.ball.direction = 300_000;
    app.update(0, STILL);
    assert_eq!(app.ball.direction, 30_000);
}

#[test]
fn paddle_past_top_stops_without_moving() {
    let mut app = App::new();
    app.left.position.y = BAR_LENGTH - PIXEL;
    app.left.direction = VerticalDir::Up;
    app.update(10_000, STILL);
    assert_eq!(app.left.direction, VerticalDir::Stationary);
    assert_eq!(app.left.position.y, BAR_LENGTH - PIXEL);
}

#[test]
fn paddle_at_top_overshoots_one_tick() {
    let mut app = App::new();
    app.left.position.y = BAR_LENGTH;
    app.left.direction = VerticalDir::Up;
    app.update(10_000, STILL);
    assert_eq!(app.left.direction, VerticalDir::Up);
    assert_eq!(app.left.position.y, BAR_LENGTH - 1_000_000);
    app.update(10_000, STILL);
    assert_eq!(app.left.direction, VerticalDir::Stationary);
    assert_eq!(app.left.position.y, BAR_LENGTH - 1_000_000);
}

#[test]
fn paddle_past_bottom_stops() {
    let mut app = App::new();
    app.right.position.y = SCREEN_HEIGHT - BAR_LENGTH + 1;
    app.right.direction = VerticalDir::Down;
    app.update(10_000, STILL);
    assert_eq!(app.right.direction, VerticalDir::Stationary);
    assert_eq!(app.right.position.y, SCREEN_HEIGHT - BAR_LENGTH + 1);
}

#[test]
fn paddles_move_at_their_speed() {
    let mut app = App::new();
    app.left.direction = VerticalDir::Down;
    app.right.direction = VerticalDir::Up;
    app.update(20_000, STILL);
    assert_eq!(app.left.position.y, 125 * PIXEL + 2_000_000);
    assert_eq!(app.right.position.y, 125 * PIXEL - 2_000_000);
}

#[test]
fn pressing_up_twice_keeps_up() {
    let mut app = App::new();
    assert!(app.press(Key::Up));
    assert!(app.press(Key::Up));
    assert_eq!(app.right.direction, VerticalDir::Up);
    assert_eq!(app.left.direction, VerticalDir::Stationary);
}

#[test]
fn releasing_other_arrow_still_stops() {
    let mut app = App::new();
    app.press(Key::Up);
    app.release(Key::Down);
    assert_eq!(app.right.direction, VerticalDir::Stationary);
}

#[test]
fn letter_keys_steer_left_paddle() {
    let mut app = App::new();
    assert!(app.press(Key::W));
    assert_eq!(app.left.direction, VerticalDir::Up);
    assert!(app.press(Key::S));
    assert_eq!(app.left.direction, VerticalDir::Down);
    app.release(Key::W);
    assert_eq!(app.left.direction, VerticalDir::Stationary);
    assert_eq!(app.right.direction, VerticalDir::Stationary);
}

#[test]
fn unknown_key_is_ignored() {
    let mut app = App::new();
    app.press(Key::Down);
    let before = app;
    assert!(!app.press(Key::Other));
    app.release(Key::Other);
    assert_eq!(app, before);
}

#[test]
fn scoring_cycle_gives_each_side_a_point() {
    let mut app = App::new();
    app.update(1_300_000, LEFT);
    assert_eq!(app.ball.position, start());
    assert_eq!((app.left.points, app.right.points), (0, 1));
    app.update(1_300_000, RIGHT);
    assert_eq!(app.ball.position, start());
    assert_eq!((app.left.points, app.right.points), (1, 1));
}

#[test]
fn try_update_refuses_a_bad_heading() {
    let mut app = App::new();
    let before = app;
    assert!(!app.try_update(10_000, Heading { sin: 2_000_000, cos: 0 }));
    assert_eq!(app, before);
    assert!(app.try_update(10_000, RIGHT));
    assert_eq!(app.ball.position.x, BALL_START_X + 2_000_000);
}

#[test]
fn try_update_refuses_overflowing_positions() {
    let mut app = App::new();
    app.ball.position.y = i64::MAX - 10;
    let before = app;
    assert!(!app.try_update(1_000, DOWN));
    assert_eq!(app, before);
}

#[test]
fn rectangles_follow_positions() {
    let mut app = App::new();
    app.left.position.y = 40 * PIXEL;
    let ball = app.ball_rect();
    assert_eq!((ball.x, ball.y, ball.width, ball.height), (
        (BALL_START_X - 2_500_000) as i128,
        (BALL_START_Y - 2_500_000) as i128,
        5_000_000,
        5_000_000,
    ));
    let left = app.left_bar_rect();
    assert_eq!((left.x, left.y, left.width, left.height), (
        10_000_000,
        15_000_000,
        5_000_000,
        50_000_000,
    ));
    let right = app.right_bar_rect();
    assert_eq!((right.x, right.y, right.width, right.height), (
        485_000_000,
        100_000_000,
        5_000_000,
        50_000_000,
    ));
}
