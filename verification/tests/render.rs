use three_body::render::body_colour;
use three_body::render::displayed_seconds;
use three_body::render::frame_delay;
use three_body::render::Colour;
use three_body::render::AXIS_MAX;
use three_body::render::AXIS_MIN;
use three_body::render::CANVAS_SIZE;
use three_body::render::FPS;
use three_body::render::POSITION_SCALE;

#[test]
fn frame_delay_at_the_standard_rate() {
    assert_eq!(frame_delay(FPS), Some(5));
}

#[test]
fn frame_delay_rounds_down() {
    assert_eq!(frame_delay(1), Some(1000));
    assert_eq!(frame_delay(3), Some(333));
    assert_eq!(frame_delay(1000), Some(1));
    assert_eq!(frame_delay(1001), Some(0));
    assert_eq!(frame_delay(u32::MAX), Some(0));
}

#[test]
fn no_frame_delay_at_zero_frames_per_second() {
    assert_eq!(frame_delay(0), None);
}

#[test]
fn each_body_has_its_colour() {
    assert_eq!(body_colour(0), Colour::Blue);
    assert_eq!(body_colour(1), Colour::Red);
    assert_eq!(body_colour(2), Colour::Green);
    assert_eq!(body_colour(3), Colour::Black);
    assert_eq!(body_colour(usize::MAX), Colour::Black);
}

#[test]
fn label_shows_whole_seconds() {
    assert_eq!(displayed_seconds(0), 0);
    assert_eq!(displayed_seconds(20), 20);
    assert_eq!(displayed_seconds(19_999_980), 19_999_980);
}

#[test]
fn label_is_capped() {
    assert_eq!(displayed_seconds(u32::MAX as u64), u32::MAX);
    assert_eq!(displayed_seconds(u32::MAX as u64 + 1), u32::MAX);
    assert_eq!(displayed_seconds(u64::MAX), u32::MAX);
}

#[test]
fn plot_constants() {
    assert_eq!(CANVAS_SIZE, 250);
    assert_eq!((AXIS_MIN, AXIS_MAX), (-100, 100));
    assert_eq!(POSITION_SCALE, 100);
}
