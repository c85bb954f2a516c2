use led_patterns::led_pattern::circle_pattern;
use led_patterns::led_pattern::crisscross_pattern;
use led_patterns::led_pattern::cross_pattern;
use led_patterns::led_pattern::hammer_pattern;
use led_patterns::led_pattern::zigzag_pattern;
use led_patterns::led_pattern::LedColor;
use led_patterns::led_pattern::LedPattern;
use led_patterns::led_pattern::LedStep;

#[test]
fn hammer_blinks_all_four_together() {
    let expected = vec![
        LedStep::Off(LedColor::Orange),
        LedStep::Off(LedColor::Green),
        LedStep::Off(LedColor::Red),
        LedStep::Off(LedColor::Blue),
        LedStep::WaitMs(200),
        LedStep::On(LedColor::Orange),
        LedStep::On(LedColor::Green),
        LedStep::On(LedColor::Red),
        LedStep::On(LedColor::Blue),
        LedStep::WaitMs(200),
    ];
    assert_eq!(hammer_pattern(), expected);
}

#[test]
fn circle_runs_blue_green_orange_red() {
    let expected = vec![
        LedStep::Off(LedColor::Orange),
        LedStep::Off(LedColor::Green),
        LedStep::Off(LedColor::Red),
        LedStep::On(LedColor::Blue),
        LedStep::WaitMs(100),
        LedStep::Off(LedColor::Blue),
        LedStep::On(LedColor::Green),
        LedStep::WaitMs(100),
        LedStep::Off(LedColor::Green),
        LedStep::On(LedColor::Orange),
        LedStep::WaitMs(100),
        LedStep::Off(LedColor::Orange),
        LedStep::On(LedColor::Red),
        LedStep::WaitMs(100),
        LedStep::Off(LedColor::Red),
    ];
    assert_eq!(circle_pattern(), expected);
}

#[test]
fn zigzag_runs_blue_red_green_orange() {
    let expected = vec![
        LedStep::Off(LedColor::Orange),
        LedStep::Off(LedColor::Green),
        LedStep::Off(LedColor::Red),
        LedStep::On(LedColor::Blue),
        LedStep::WaitMs(100),
        LedStep::Off(LedColor::Blue),
        LedStep::On(LedColor::Red),
        LedStep::WaitMs(100),
        LedStep::Off(LedColor::Red),
        LedStep::On(LedColor::Green),
        LedStep::WaitMs(100),
        LedStep::Off(LedColor::Green),
        LedStep::On(LedColor::Orange),
        LedStep::WaitMs(100),
        LedStep::Off(LedColor::Orange),
    ];
    assert_eq!(zigzag_pattern(), expected);
}

#[test]
fn crisscross_runs_blue_orange_red_green() {
    let expected = vec![
        LedStep::Off(LedColor::Orange),
        LedStep::Off(LedColor::Green),
        LedStep::Off(LedColor::Red),
        LedStep::On(LedColor::Blue),
        LedStep::WaitMs(200),
        LedStep::Off(LedColor::Blue),
        LedStep::On(LedColor::Orange),
        LedStep::WaitMs(200),
        LedStep::Off(LedColor::Orange),
        LedStep::On(LedColor::Red),
        LedStep::WaitMs(200),
        LedStep::Off(LedColor::Red),
        LedStep::On(LedColor::Green),
        LedStep::WaitMs(200),
        LedStep::Off(LedColor::Green),
    ];
    assert_eq!(crisscross_pattern(), expected);
}

#[test]
fn cross_alternates_the_two_pairs() {
    let expected = vec![
        LedStep::Off(LedColor::Red),
        LedStep::Off(LedColor::Green),
        LedStep::On(LedColor::Orange),
        LedStep::On(LedColor::Blue),
        LedStep::WaitMs(200),
        LedStep::Off(LedColor::Blue),
        LedStep::Off(LedColor::Orange),
        LedStep::On(LedColor::Red),
        LedStep::On(LedColor::Green),
        LedStep::WaitMs(200),
        LedStep::Off(LedColor::Red),
        LedStep::Off(LedColor::Green),
    ];
    assert_eq!(cross_pattern(), expected);
}

#[test]
fn steps_dispatches_on_the_pattern() {
    assert_eq!(LedPattern::Hammer.steps(), hammer_pattern());
    assert_eq!(LedPattern::Circle.steps(), circle_pattern());
    assert_eq!(LedPattern::Zigzag.steps(), zigzag_pattern());
    assert_eq!(LedPattern::CrissCross.steps(), crisscross_pattern());
    assert_eq!(LedPattern::Cross.steps(), cross_pattern());
}
