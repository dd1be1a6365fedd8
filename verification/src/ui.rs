//! The input controller: from buttons and knob to writes of the shared state.
//!
//! The controller keeps its own copy of the brightness vector and of the
//! refresh rate, and remembers which channel the knob last adjusted. Each
//! poll it is told which buttons are held and what the knob reads. With a
//! button held the knob sets the level of the chosen channel; with none held
//! it sets the refresh rate. A value is written to the shared state, and the
//! state reported, only when it differs from the copy.

use vstd::prelude::*;
use vstd::string::StringExecFns;
use crate::{BLUE, CHANNELS, DEFAULT_FRAME_RATE, GREEN, LEVELS, RED};
use crate::knob::{quantize, quantized};
use crate::rgb::playable;

verus! {

/// The character of one decimal digit.
pub open spec fn digit_char(d: int) -> char
    recommends
        0 <= d < 10,
{
    if d == 0 {
        '0'
    } else if d == 1 {
        '1'
    } else if d == 2 {
        '2'
    } else if d == 3 {
        '3'
    } else if d == 4 {
        '4'
    } else if d == 5 {
        '5'
    } else if d == 6 {
        '6'
    } else if d == 7 {
        '7'
    } else if d == 8 {
        '8'
    } else {
        '9'
    }
}

/// A number written in decimal, without sign or leading zeros.
pub open spec fn decimal(n: nat) -> Seq<char>
    decreases n,
{
    if n < 10 {
        seq![digit_char(n as int)]
    } else {
        decimal(n / 10).push(digit_char((n % 10) as int))
    }
}

/// One line of a report: a name, a colon and a space, a number, a line feed.
pub open spec fn report_line(name: Seq<char>, value: nat) -> Seq<char> {
    name + ": "@ + decimal(value) + "\n"@
}

/// The text of a report: an empty line, one line for each channel's level,
/// and one for the refresh rate.
pub open spec fn report_text(levels: Seq<u32>, frame_rate: u64) -> Seq<char>
    recommends
        levels.len() == CHANNELS,
{
    "\n"@ + report_line("red"@, levels[0] as nat) + report_line("green"@, levels[1] as nat)
        + report_line("blue"@, levels[2] as nat) + report_line("frame rate"@, frame_rate as nat)
}

/// The refresh rate that a knob level stands for: ten cycles per second for
/// each step, starting at ten.
pub open spec fn rate_for(level: int) -> int {
    (level + 1) * 10
}

/// The channel that the knob adjusts: red with both buttons held, green with
/// B alone, blue with A alone, and the one it was with neither.
pub open spec fn selected_led(current: usize, a_held: bool, b_held: bool) -> usize {
    if a_held && b_held {
        RED
    } else if b_held {
        GREEN
    } else if a_held {
        BLUE
    } else {
        current
    }
}

/// What the controller is told.
#[derive(Clone, Copy, Debug, PartialEq, Eq, Structural)]
pub enum Input {
    /// At start: one raw knob sample for the active channel's level and one
    /// for the refresh rate.
    Boot { level_raw: i32, rate_raw: i32 },
    /// At each poll: which buttons are held, and one raw knob sample.
    Poll { a_held: bool, b_held: bool, raw: i32 },
}

/// Mathematical value of a controller state.
#[verifier::ext_equal]
pub ghost struct UiModel {
    pub levels: Seq<u32>,
    pub frame_rate: u64,
    pub current_led: usize,
}

/// Mathematical value of what one input makes the controller do.
#[verifier::ext_equal]
pub ghost struct OutcomeModel {
    pub levels: Option<Seq<u32>>,
    pub frame_rate: Option<u64>,
    pub report: Option<Seq<char>>,
}

impl OutcomeModel {
    /// What the shared brightness vector holds once the outcome is carried
    /// out: the written vector, or what it held where nothing is written.
    pub open spec fn levels_after(self, held: Seq<u32>) -> Seq<u32> {
        match self.levels {
            Some(levels) => levels,
            None => held,
        }
    }

    /// What the shared refresh rate holds once the outcome is carried out.
    pub open spec fn frame_rate_after(self, held: u64) -> u64 {
        match self.frame_rate {
            Some(frame_rate) => frame_rate,
            None => held,
        }
    }
}

impl UiModel {
    /// A level in range for every channel, a positive refresh rate, and an
    /// active channel that exists.
    pub open spec fn wf(self) -> bool {
        &&& self.levels.len() == CHANNELS
        &&& forall|i: int| 0 <= i < self.levels.len() ==> #[trigger] self.levels[i] < LEVELS
        &&& self.frame_rate > 0
        &&& self.current_led < CHANNELS
    }

    /// The state with one channel's level replaced.
    pub open spec fn with_level(self, led: usize, level: u32) -> UiModel {
        UiModel { levels: self.levels.update(led as int, level), ..self }
    }

    /// The state with the refresh rate replaced.
    pub open spec fn with_frame_rate(self, frame_rate: u64) -> UiModel {
        UiModel { frame_rate, ..self }
    }

    /// The state after one input.
    pub open spec fn after(self, input: Input) -> UiModel {
        match input {
            Input::Boot { level_raw, rate_raw } => self.with_level(
                self.current_led,
                quantized(level_raw as int) as u32,
            ).with_frame_rate(rate_for(quantized(rate_raw as int)) as u64),
            Input::Poll { a_held, b_held, raw } => if a_held || b_held {
                let led = selected_led(self.current_led, a_held, b_held);
                UiModel { current_led: led, ..self }.with_level(led, quantized(raw as int) as u32)
            } else {
                self.with_frame_rate(rate_for(quantized(raw as int)) as u64)
            },
        }
    }

    /// Whether an input makes the controller write the brightness vector: at
    /// start always, at a poll when a button is held and the knob's level is
    /// not the one stored for the chosen channel.
    pub open spec fn writes_levels(self, input: Input) -> bool {
        match input {
            Input::Boot { .. } => true,
            Input::Poll { a_held, b_held, raw } => (a_held || b_held) && quantized(raw as int)
                != self.levels[selected_led(self.current_led, a_held, b_held) as int],
        }
    }

    /// Whether an input makes the controller write the refresh rate: at start
    /// always, at a poll when no button is held and the knob's rate is not the
    /// one stored.
    pub open spec fn writes_frame_rate(self, input: Input) -> bool {
        match input {
            Input::Boot { .. } => true,
            Input::Poll { a_held, b_held, raw } => !a_held && !b_held && rate_for(
                quantized(raw as int),
            ) != self.frame_rate,
        }
    }

    /// What one input makes the controller do: the values to write, each as
    /// it stands after the input, and the report, which goes with any write.
    pub open spec fn outcome(self, input: Input) -> OutcomeModel {
        let next = self.after(input);
        OutcomeModel {
            levels: if self.writes_levels(input) {
                Some(next.levels)
            } else {
                None
            },
            frame_rate: if self.writes_frame_rate(input) {
                Some(next.frame_rate)
            } else {
                None
            },
            report: if self.writes_levels(input) || self.writes_frame_rate(input) {
                Some(report_text(next.levels, next.frame_rate))
            } else {
                None
            },
        }
    }
}

/// The controller's working state.
#[derive(Clone, Copy, Debug)]
pub struct UiState {
    /// Level of each channel, indexed by `RED`, `GREEN`, `BLUE`.
    pub levels: [u32; 3],
    /// Refresh rate in cycles per second.
    pub frame_rate: u64,
    /// The channel that the knob adjusts when a button is held.
    pub current_led: usize,
}

impl View for UiState {
    type V = UiModel;

    open spec fn view(&self) -> UiModel {
        UiModel {
            levels: self.levels@,
            frame_rate: self.frame_rate,
            current_led: self.current_led,
        }
    }
}

/// What the caller is to carry out after an input.
#[derive(Debug)]
pub struct Outcome {
    /// The brightness vector to write to the shared state, if any.
    pub levels: Option<[u32; 3]>,
    /// The refresh rate to write to the shared state, if any.
    pub frame_rate: Option<u64>,
    /// The report to emit, if any.
    pub report: Option<String>,
}

impl View for Outcome {
    type V = OutcomeModel;

    open spec fn view(&self) -> OutcomeModel {
        OutcomeModel {
            levels: match self.levels {
                Some(levels) => Some(levels@),
                None => None,
            },
            frame_rate: self.frame_rate,
            report: match self.report {
                Some(text) => Some(text@),
                None => None,
            },
        }
    }
}

/// The text of one decimal digit.
fn digit_text(d: u64) -> (text: &'static str)
    requires
        d < 10,
    ensures
        text@ == seq![digit_char(d as int)],
{
    proof {
        reveal_strlit("0");
        reveal_strlit("1");
        reveal_strlit("2");
        reveal_strlit("3");
        reveal_strlit("4");
        reveal_strlit("5");
        reveal_strlit("6");
        reveal_strlit("7");
        reveal_strlit("8");
        reveal_strlit("9");
    }
    let text = if d == 0 {
        "0"
    } else if d == 1 {
        "1"
    } else if d == 2 {
        "2"
    } else if d == 3 {
        "3"
    } else if d == 4 {
        "4"
    } else if d == 5 {
        "5"
    } else if d == 6 {
        "6"
    } else if d == 7 {
        "7"
    } else if d == 8 {
        "8"
    } else {
        "9"
    };
    assert(text@ =~= seq![digit_char(d as int)]);
    text
}

/// Writes a number in decimal.
pub fn decimal_text(n: u64) -> (text: String)
    ensures
        text@ == decimal(n as nat),
    decreases n,
{
    if n < 10 {
        String::from_str(digit_text(n))
    } else {
        let mut text = decimal_text(n / 10);
        text.append(digit_text(n % 10));
        assert(text@ =~= decimal(n as nat));
        text
    }
}

/// Appends one line of a report to a text.
fn append_line(text: &mut String, name: &str, value: u64)
    ensures
        final(text)@ == old(text)@ + report_line(name@, value as nat),
{
    let number = decimal_text(value);
    text.append(name);
    text.append(": ");
    text.append(number.as_str());
    text.append("\n");
    assert(final(text)@ =~= old(text)@ + report_line(name@, value as nat));
}

/// The channel that the knob adjusts, given the one it adjusted before and the
/// buttons that are held.
pub fn select_led(current: usize, a_held: bool, b_held: bool) -> (led: usize)
    ensures
        led == selected_led(current, a_held, b_held),
        current < CHANNELS ==> led < CHANNELS,
{
    if a_held && b_held {
        RED
    } else if b_held {
        GREEN
    } else if a_held {
        BLUE
    } else {
        current
    }
}

/// The refresh rate that a raw knob sample stands for.
pub fn frame_rate_of(raw: i32) -> (frame_rate: u64)
    ensures
        frame_rate == rate_for(quantized(raw as int)),
        10 <= frame_rate <= 10 * LEVELS,
        frame_rate % 10 == 0,
{
    let level = quantize(raw);
    let rate: u32 = (level + 1) * 10;
    rate as u64
}

impl UiState {
    /// The report of this state, as text.
    pub fn show(&self) -> (text: String)
        ensures
            text@ == report_text(self@.levels, self@.frame_rate),
    {
        let mut text = String::from_str("\n");
        append_line(&mut text, "red", self.levels[0] as u64);
        append_line(&mut text, "green", self.levels[1] as u64);
        append_line(&mut text, "blue", self.levels[2] as u64);
        append_line(&mut text, "frame rate", self.frame_rate);
        text
    }
}

impl Default for UiState {
    /// Every channel at full brightness, the default refresh rate, blue as
    /// the active channel.
    fn default() -> (state: Self)
        ensures
            state@.levels == seq![(LEVELS - 1) as u32, (LEVELS - 1) as u32, (LEVELS - 1) as u32],
            state@.frame_rate == DEFAULT_FRAME_RATE,
            state@.current_led == BLUE,
            state@.wf(),
    {
        let state = UiState {
            levels: [LEVELS - 1, LEVELS - 1, LEVELS - 1],
            frame_rate: DEFAULT_FRAME_RATE,
            current_led: BLUE,
        };
        assert(state.levels@ =~= seq![
            (LEVELS - 1) as u32,
            (LEVELS - 1) as u32,
            (LEVELS - 1) as u32,
        ]);
        state
    }
}

/// The input controller.
pub struct Ui {
    state: UiState,
}

impl View for Ui {
    type V = UiModel;

    closed spec fn view(&self) -> UiModel {
        self.state@
    }
}

impl Ui {
    /// The controller's state is well formed at all times.
    #[verifier::type_invariant]
    spec fn inv(&self) -> bool {
        self.state@.wf()
    }

    /// A controller in the default state.
    pub fn new() -> (ui: Self)
        ensures
            ui@.levels == seq![(LEVELS - 1) as u32, (LEVELS - 1) as u32, (LEVELS - 1) as u32],
            ui@.frame_rate == DEFAULT_FRAME_RATE,
            ui@.current_led == BLUE,
            ui@.wf(),
    {
        Ui { state: UiState::default() }
    }

    /// The controller's working state.
    pub fn state(&self) -> (state: &UiState)
        ensures
            state@ == self@,
            state@.wf(),
    {
        proof {
            use_type_invariant(self);
        }
        &self.state
    }

    /// Sets one channel's level from a raw knob sample. Returns the
    /// brightness vector to write to the shared state, or nothing where the
    /// level is the one already stored.
    pub fn update_level(&mut self, current_color: usize, raw: i32) -> (write: Option<[u32; 3]>)
        requires
            current_color < CHANNELS,
        ensures
            final(self)@ == old(self)@.with_level(current_color, quantized(raw as int) as u32),
            write.is_some() <==> quantized(raw as int) != old(self)@.levels[current_color as int],
            write matches Some(levels) ==> levels@ == final(self)@.levels,
            final(self)@.wf(),
    {
        proof {
            use_type_invariant(&*self);
        }
        let level = quantize(raw);
        if level != self.state.levels[current_color] {
            self.state.levels[current_color] = level;
            Some(self.state.levels)
        } else {
            assert(self.state.levels@ =~= self.state.levels@.update(current_color as int, level));
            None
        }
    }

    /// Sets the refresh rate from a raw knob sample. Returns the rate to
    /// write to the shared state, or nothing where it is the one already
    /// stored.
    pub fn update_frame_rate(&mut self, raw: i32) -> (write: Option<u64>)
        ensures
            final(self)@ == old(self)@.with_frame_rate(rate_for(quantized(raw as int)) as u64),
            write.is_some() <==> rate_for(quantized(raw as int)) != old(self)@.frame_rate,
            write matches Some(frame_rate) ==> frame_rate == final(self)@.frame_rate,
            final(self)@.wf(),
    {
        proof {
            use_type_invariant(&*self);
        }
        let frame_rate = frame_rate_of(raw);
        if frame_rate != self.state.frame_rate {
            self.state.frame_rate = frame_rate;
            Some(frame_rate)
        } else {
            None
        }
    }

    /// Takes one input and says what to carry out: which values to write to
    /// the shared state, and the report to emit with them.
    ///
    /// At start the knob is read twice, for the active channel's level and
    /// for the refresh rate, and both values are written and reported
    /// whatever they are. At a poll the buttons choose between the level of a
    /// channel and the refresh rate, and the value is written and reported
    /// only where it has changed.
    pub fn run(&mut self, input: Input) -> (outcome: Outcome)
        ensures
            final(self)@ == old(self)@.after(input),
            final(self)@.wf(),
            outcome@ == old(self)@.outcome(input),
    {
        proof {
            use_type_invariant(&*self);
        }
        let mut levels: Option<[u32; 3]> = None;
        let mut frame_rate: Option<u64> = None;
        match input {
            Input::Boot { level_raw, rate_raw } => {
                let led = self.state.current_led;
                self.update_level(led, level_raw);
                self.update_frame_rate(rate_raw);
                levels = Some(self.state.levels);
                frame_rate = Some(self.state.frame_rate);
            },
            Input::Poll { a_held, b_held, raw } => {
                if a_held || b_held {
                    let led = select_led(self.state.current_led, a_held, b_held);
                    self.state.current_led = led;
                    levels = self.update_level(led, raw);
                } else {
                    frame_rate = self.update_frame_rate(raw);
                }
            },
        }
        let report = if levels.is_some() || frame_rate.is_some() {
            Some(self.state.show())
        } else {
            None
        };
        Outcome { levels, frame_rate, report }
    }
}

/// Write suppression: a poll repeated with the same buttons and the same knob
/// sample changes nothing the second time and asks for no write and no
/// report, so a new knob position is written and reported once. A single
/// poll never writes both the brightness vector and the refresh rate.
pub proof fn lemma_repeated_poll_is_silent(state: UiModel, a_held: bool, b_held: bool, raw: i32)
    requires
        state.wf(),
    ensures
        ({
            let poll = Input::Poll { a_held, b_held, raw };
            let once = state.after(poll);
            &&& once.after(poll) == once
            &&& once.outcome(poll) == (OutcomeModel { levels: None, frame_rate: None, report: None })
            &&& !(state.writes_levels(poll) && state.writes_frame_rate(poll))
        }),
{
    let poll = Input::Poll { a_held, b_held, raw };
    let once = state.after(poll);
    crate::knob::lemma_quantized_in_range(raw as int);
    assert(once.after(poll).levels =~= once.levels);
}

/// Suppressing a write loses nothing. Shared cells that agree with the
/// controller's copies before an input agree with them again once the input's
/// writes are carried out; after the input at start they agree whatever they
/// held before.
pub proof fn lemma_shared_state_follows(
    state: UiModel,
    input: Input,
    held_levels: Seq<u32>,
    held_frame_rate: u64,
)
    requires
        state.wf(),
        input is Boot || (held_levels == state.levels && held_frame_rate == state.frame_rate),
    ensures
        state.outcome(input).levels_after(held_levels) == state.after(input).levels,
        state.outcome(input).frame_rate_after(held_frame_rate) == state.after(input).frame_rate,
{
    match input {
        Input::Boot { .. } => {},
        Input::Poll { a_held, b_held, raw } => {
            crate::knob::lemma_quantized_in_range(raw as int);
            assert(state.outcome(input).levels_after(held_levels) =~= state.after(input).levels);
        },
    }
}

/// Whatever the controller writes, the engine can play: a well-formed state
/// stays well formed under every input, and its brightness vector is one that
/// the engine accepts.
pub proof fn lemma_written_levels_are_playable(state: UiModel, input: Input)
    requires
        state.wf(),
    ensures
        state.after(input).wf(),
        playable(state.after(input).levels),
        state.after(input).frame_rate > 0,
        state.outcome(input).levels matches Some(levels) ==> playable(levels),
        state.outcome(input).frame_rate matches Some(frame_rate) ==> frame_rate > 0,
{
    match input {
        Input::Boot { level_raw, rate_raw } => {
            crate::knob::lemma_quantized_in_range(level_raw as int);
            crate::knob::lemma_quantized_in_range(rate_raw as int);
        },
        Input::Poll { a_held, b_held, raw } => {
            crate::knob::lemma_quantized_in_range(raw as int);
        },
    }
}

/// Button priority: both buttons choose red and B alone green, whichever
/// channel was active; A alone chooses blue; with none held the active
/// channel stays, the brightness vector is left alone, and the knob sets the
/// refresh rate.
pub proof fn lemma_button_priority(state: UiModel, raw: i32)
    requires
        state.wf(),
    ensures
        state.after(Input::Poll { a_held: true, b_held: true, raw }).current_led == RED,
        state.after(Input::Poll { a_held: false, b_held: true, raw }).current_led == GREEN,
        state.after(Input::Poll { a_held: true, b_held: false, raw }).current_led == BLUE,
        state.after(Input::Poll { a_held: false, b_held: false, raw }) == state.with_frame_rate(
            rate_for(quantized(raw as int)) as u64,
        ),
{
}

} // verus!
