use vstd::prelude::*;

verus! {

/// The five blink patterns, in their fixed circular order.
#[derive(Clone, Copy, PartialEq, Eq, Structural, Debug)]
pub enum LedPattern {
    Hammer,
    Circle,
    Zigzag,
    CrissCross,
    Cross,
}

/// The next pattern after `p` in the fixed circular order:
/// Hammer, Circle, Zigzag, CrissCross, Cross, and back to Hammer.
pub open spec fn spec_successor(p: LedPattern) -> LedPattern {
    match p {
        LedPattern::Hammer => LedPattern::Circle,
        LedPattern::Circle => LedPattern::Zigzag,
        LedPattern::Zigzag => LedPattern::CrissCross,
        LedPattern::CrissCross => LedPattern::Cross,
        LedPattern::Cross => LedPattern::Hammer,
    }
}

impl LedPattern {
    /// The next pattern in the fixed circular order.
    pub fn successor(self) -> (next: LedPattern)
        ensures
            next == spec_successor(self),
    {
        match self {
            LedPattern::Hammer => LedPattern::Circle,
            LedPattern::Circle => LedPattern::Zigzag,
            LedPattern::Zigzag => LedPattern::CrissCross,
            LedPattern::CrissCross => LedPattern::Cross,
            LedPattern::Cross => LedPattern::Hammer,
        }
    }
}

/// The four indicator lights on the board.
#[derive(Clone, Copy, PartialEq, Eq, Structural, Debug)]
pub enum LedColor {
    Orange,
    Green,
    Red,
    Blue,
}

/// One step of a blink sequence: switch one light on or off, or hold the
/// lights as they are for a number of milliseconds.
#[derive(Clone, Copy, PartialEq, Eq, Structural, Debug)]
pub enum LedStep {
    On(LedColor),
    Off(LedColor),
    WaitMs(u16),
}

/// One full cycle of the Hammer pattern: all four lights dark for one
/// period, then all four lit for one period.
pub open spec fn hammer_steps() -> Seq<LedStep> {
    seq![
        LedStep::Off(LedColor::Orange),
        LedStep::Off(LedColor::Green),
        LedStep::Off(LedColor::Red),
        LedStep::Off(LedColor::Blue),
        LedStep::WaitMs(200),
        LedStep::On(LedColor::Orange),
        LedStep::On(LedColor::Green),
        LedStep::On(LedColor::Red),
        LedStep::On(LedColor::Blue),
        LedStep::WaitMs(200),
    ]
}

/// One full cycle of the Circle pattern: a single lit light runs once
/// around the ring in the order blue, green, orange, red.
pub open spec fn circle_steps() -> Seq<LedStep> {
    seq![
        LedStep::Off(LedColor::Orange),
        LedStep::Off(LedColor::Green),
        LedStep::Off(LedColor::Red),
        LedStep::On(LedColor::Blue),
        LedStep::WaitMs(100),
        LedStep::Off(LedColor::Blue),
        LedStep::On(LedColor::Green),
        LedStep::WaitMs(100),
        LedStep::Off(LedColor::Green),
        LedStep::On(LedColor::Orange),
        LedStep::WaitMs(100),
        LedStep::Off(LedColor::Orange),
        LedStep::On(LedColor::Red),
        LedStep::WaitMs(100),
        LedStep::Off(LedColor::Red),
    ]
}

/// One full cycle of the Zigzag pattern: a single lit light hops across
/// the ring in the order blue, red, green, orange.
pub open spec fn zigzag_steps() -> Seq<LedStep> {
    seq![
        LedStep::Off(LedColor::Orange),
        LedStep::Off(LedColor::Green),
        LedStep::Off(LedColor::Red),
        LedStep::On(LedColor::Blue),
        LedStep::WaitMs(100),
        LedStep::Off(LedColor::Blue),
        LedStep::On(LedColor::Red),
        LedStep::WaitMs(100),
        LedStep::Off(LedColor::Red),
        LedStep::On(LedColor::Green),
        LedStep::WaitMs(100),
        LedStep::Off(LedColor::Green),
        LedStep::On(LedColor::Orange),
        LedStep::WaitMs(100),
        LedStep::Off(LedColor::Orange),
    ]
}

/// One full cycle of the CrissCross pattern: a single lit light crosses
/// the ring in the order blue, orange, red, green.
pub open spec fn crisscross_steps() -> Seq<LedStep> {
    seq![
        LedStep::Off(LedColor::Orange),
        LedStep::Off(LedColor::Green),
        LedStep::Off(LedColor::Red),
        LedStep::On(LedColor::Blue),
        LedStep::WaitMs(200),
        LedStep::Off(LedColor::Blue),
        LedStep::On(LedColor::Orange),
        LedStep::WaitMs(200),
        LedStep::Off(LedColor::Orange),
        LedStep::On(LedColor::Red),
        LedStep::WaitMs(200),
        LedStep::Off(LedColor::Red),
        LedStep::On(LedColor::Green),
        LedStep::WaitMs(200),
        LedStep::Off(LedColor::Green),
    ]
}

/// One full cycle of the Cross pattern: the orange/blue pair and the
/// red/green pair light alternately, one period each.
pub open spec fn cross_steps() -> Seq<LedStep> {
    seq![
        LedStep::Off(LedColor::Red),
        LedStep::Off(LedColor::Green),
        LedStep::On(LedColor::Orange),
        LedStep::On(LedColor::Blue),
        LedStep::WaitMs(200),
        LedStep::Off(LedColor::Blue),
        LedStep::Off(LedColor::Orange),
        LedStep::On(LedColor::Red),
        LedStep::On(LedColor::Green),
        LedStep::WaitMs(200),
        LedStep::Off(LedColor::Red),
        LedStep::Off(LedColor::Green),
    ]
}

/// The steps of one full cycle of the Hammer pattern.
pub fn hammer_pattern() -> (steps: Vec<LedStep>)
    ensures
        steps@ == hammer_steps(),
{
    let mut steps: Vec<LedStep> = Vec::new();
    steps.push(LedStep::Off(LedColor::Orange));
    steps.push(LedStep::Off(LedColor::Green));
    steps.push(LedStep::Off(LedColor::Red));
    steps.push(LedStep::Off(LedColor::Blue));
    steps.push(LedStep::WaitMs(200));
    steps.push(LedStep::On(LedColor::Orange));
    steps.push(LedStep::On(LedColor::Green));
    steps.push(LedStep::On(LedColor::Red));
    steps.push(LedStep::On(LedColor::Blue));
    steps.push(LedStep::WaitMs(200));
    proof {
        assert(steps@ =~= hammer_steps());
    }
    steps
}

/// The steps of one full cycle of the Circle pattern.
pub fn circle_pattern() -> (steps: Vec<LedStep>)
    ensures
        steps@ == circle_steps(),
{
    let mut steps: Vec<LedStep> = Vec::new();
    steps.push(LedStep::Off(LedColor::Orange));
    steps.push(LedStep::Off(LedColor::Green));
    steps.push(LedStep::Off(LedColor::Red));
    steps.push(LedStep::On(LedColor::Blue));
    steps.push(LedStep::WaitMs(100));
    steps.push(LedStep::Off(LedColor::Blue));
    steps.push(LedStep::On(LedColor::Green));
    steps.push(LedStep::WaitMs(100));
    steps.push(LedStep::Off(LedColor::Green));
    steps.push(LedStep::On(LedColor::Orange));
    steps.push(LedStep::WaitMs(100));
    steps.push(LedStep::Off(LedColor::Orange));
    steps.push(LedStep::On(LedColor::Red));
    steps.push(LedStep::WaitMs(100));
    steps.push(LedStep::Off(LedColor::Red));
    proof {
        assert(steps@ =~= circle_steps());
    }
    steps
}

/// The steps of one full cycle of the Zigzag pattern.
pub fn zigzag_pattern() -> (steps: Vec<LedStep>)
    ensures
        steps@ == zigzag_steps(),
{
    let mut steps: Vec<LedStep> = Vec::new();
    steps.push(LedStep::Off(LedColor::Orange));
    steps.push(LedStep::Off(LedColor::Green));
    steps.push(LedStep::Off(LedColor::Red));
    steps.push(LedStep::On(LedColor::Blue));
    steps.push(LedStep::WaitMs(100));
    steps.push(LedStep::Off(LedColor::Blue));
    steps.push(LedStep::On(LedColor::Red));
    steps.push(LedStep::WaitMs(100));
    steps.push(LedStep::Off(LedColor::Red));
    steps.push(LedStep::On(LedColor::Green));
    steps.push(LedStep::WaitMs(100));
    steps.push(LedStep::Off(LedColor::Green));
    steps.push(LedStep::On(LedColor::Orange));
    steps.push(LedStep::WaitMs(100));
    steps.push(LedStep::Off(LedColor::Orange));
    proof {
        assert(steps@ =~= zigzag_steps());
    }
    steps
}

/// The steps of one full cycle of the CrissCross pattern.
pub fn crisscross_pattern() -> (steps: Vec<LedStep>)
    ensures
        steps@ == crisscross_steps(),
{
    let mut steps: Vec<LedStep> = Vec::new();
    steps.push(LedStep::Off(LedColor::Orange));
    steps.push(LedStep::Off(LedColor::Green));
    steps.push(LedStep::Off(LedColor::Red));
    steps.push(LedStep::On(LedColor::Blue));
    steps.push(LedStep::WaitMs(200));
    steps.push(LedStep::Off(LedColor::Blue));
    steps.push(LedStep::On(LedColor::Orange));
    steps.push(LedStep::WaitMs(200));
    steps.push(LedStep::Off(LedColor::Orange));
    steps.push(LedStep::On(LedColor::Red));
    steps.push(LedStep::WaitMs(200));
    steps.push(LedStep::Off(LedColor::Red));
    steps.push(LedStep::On(LedColor::Green));
    steps.push(LedStep::WaitMs(200));
    steps.push(LedStep::Off(LedColor::Green));
    proof {
        assert(steps@ =~= crisscross_steps());
    }
    steps
}

/// The steps of one full cycle of the Cross pattern.
pub fn cross_pattern() -> (steps: Vec<LedStep>)
    ensures
        steps@ == cross_steps(),
{
    let mut steps: Vec<LedStep> = Vec::new();
    steps.push(LedStep::Off(LedColor::Red));
    steps.push(LedStep::Off(LedColor::Green));
    steps.push(LedStep::On(LedColor::Orange));
    steps.push(LedStep::On(LedColor::Blue));
    steps.push(LedStep::WaitMs(200));
    steps.push(LedStep::Off(LedColor::Blue));
    steps.push(LedStep::Off(LedColor::Orange));
    steps.push(LedStep::On(LedColor::Red));
    steps.push(LedStep::On(LedColor::Green));
    steps.push(LedStep::WaitMs(200));
    steps.push(LedStep::Off(LedColor::Red));
    steps.push(LedStep::Off(LedColor::Green));
    proof {
        assert(steps@ =~= cross_steps());
    }
    steps
}

/// The step sequence for one full cycle of `p`: what the main loop hands
/// to the renderer each time it reads the current selection.
pub open spec fn spec_pattern_steps(p: LedPattern) -> Seq<LedStep> {
    match p {
        LedPattern::Hammer => hammer_steps(),
        LedPattern::Circle => circle_steps(),
        LedPattern::Zigzag => zigzag_steps(),
        LedPattern::CrissCross => crisscross_steps(),
        LedPattern::Cross => cross_steps(),
    }
}

impl LedPattern {
    /// The steps of one full cycle of this pattern.
    pub fn steps(self) -> (steps: Vec<LedStep>)
        ensures
            steps@ == spec_pattern_steps(self),
    {
        match self {
            LedPattern::Hammer => hammer_pattern(),
            LedPattern::Circle => circle_pattern(),
            LedPattern::Zigzag => zigzag_pattern(),
            LedPattern::CrissCross => crisscross_pattern(),
            LedPattern::Cross => cross_pattern(),
        }
    }
}

/// The successor relation is a single cycle through all five patterns:
/// following it five times from any pattern leads back to that pattern,
/// so the cycle has period exactly five.
pub proof fn lemma_successor_period_five(p: LedPattern)
    ensures
        spec_successor(spec_successor(spec_successor(spec_successor(spec_successor(p))))) == p,
{
}

} // verus!
