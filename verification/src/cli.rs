//! The lighting operations: what the user asks for, and the commands that
//! each request becomes.
//!
//! An operation is planned as a list of steps. The caller executes them in
//! order and asks [`Step::proceeds`] after each write whether to go on.

use crate::command::{Command, CommandView, OnboardMode, WaveDirection, Zone, KEYS_PER_REPORT};
use crate::keys::KeyCode;
use crate::scale::{brightness_from_percent, spec_brightness, spec_speed, speed_from_millis};
use vstd::prelude::*;

verus! {

/// Pause between two rounds of the key test when nobody is asked, in
/// milliseconds.
pub const KEY_TEST_PAUSE_MILLIS: u64 = 500;

/// A request to start one of the presets.
#[derive(Debug, Clone, Copy, PartialEq, Eq)]
pub struct ModeArgs {
    pub mode: OnboardMode,
    pub dir: WaveDirection,
    pub zone: Zone,
    /// Cycle duration in milliseconds, as given: it is clamped on use.
    pub speed_millis: i64,
    /// Brightness in percent, as given: it is clamped on use.
    pub brightness: i64,
}

/// A request to light a list of keys.
#[derive(Debug, Clone, PartialEq, Eq)]
pub struct KeyArgs {
    pub keys: Vec<KeyCode>,
    /// Brightness in percent, as given: it is clamped on use.
    pub brightness: i64,
}

/// A request to light one protocol code after the other, to find out which
/// key each code stands for.
#[derive(Debug, Clone, Copy, PartialEq, Eq)]
pub struct KeyTestArgs {
    pub start_value: u8,
    pub no_wait: bool,
}

/// What separates two rounds of the key test.
#[derive(Debug, Clone, Copy, PartialEq, Eq)]
pub enum Pause {
    /// Wait until the user has entered a line.
    Line,
    /// Wait for so many milliseconds.
    Millis(u64),
}

/// One command of an operation, and what its failure means.
#[derive(Debug, Clone, PartialEq, Eq)]
pub struct Step {
    pub command: Command,
    /// Whether a failed write ends the operation with that error. A step that
    /// is not required is sent on a best-effort basis.
    pub required: bool,
}

/// What a [`Step`] is.
pub struct StepView {
    pub command: CommandView,
    pub required: bool,
}

impl View for Step {
    type V = StepView;

    open spec fn view(&self) -> StepView {
        StepView { command: self.command@, required: self.required }
    }
}

impl StepView {
    /// A step that ends the operation when it fails.
    pub open spec fn required(command: CommandView) -> StepView {
        StepView { command, required: true }
    }

    /// A step whose failure is passed over.
    pub open spec fn best_effort(command: CommandView) -> StepView {
        StepView { command, required: false }
    }
}

impl Step {
    /// Whether the operation goes on after this step, given whether its write
    /// succeeded.
    pub fn proceeds(&self, written: bool) -> (go_on: bool)
        ensures
            go_on == (written || !self.required),
    {
        written || !self.required
    }
}

/// The protocol codes of a list of keys.
pub open spec fn codes(keys: Seq<KeyCode>) -> Seq<u8> {
    keys.map_values(|key: KeyCode| key.spec_code())
}

/// How many reports it takes to address `keys` keys.
pub open spec fn batch_count(keys: nat) -> nat {
    (keys + KEYS_PER_REPORT - 1) as nat / (KEYS_PER_REPORT as nat)
}

/// The codes that go into report number `i`: the next twelve, or what is left.
pub open spec fn batch(all: Seq<u8>, i: int) -> Seq<u8> {
    all.subrange(
        KEYS_PER_REPORT * i,
        if KEYS_PER_REPORT * (i + 1) <= all.len() {
            KEYS_PER_REPORT * (i + 1)
        } else {
            all.len() as int
        },
    )
}

/// Batching loses nothing and overfills nothing: every batch but the last
/// holds twelve codes, the last holds between one and twelve, and code number
/// `j` of the list is code number `j % 12` of batch `j / 12`.
pub proof fn lemma_batches(all: Seq<u8>)
    ensures
        all.len() == 0 <==> batch_count(all.len()) == 0,
        forall|i: int|
            0 <= i < batch_count(all.len()) - 1 ==> (#[trigger] batch(all, i)).len()
                == KEYS_PER_REPORT,
        batch_count(all.len()) > 0 ==> {
            let last = batch(all, batch_count(all.len()) - 1);
            &&& 1 <= last.len() <= KEYS_PER_REPORT
            &&& last.len() == all.len() - KEYS_PER_REPORT * (batch_count(all.len()) - 1)
        },
        forall|j: int|
            0 <= j < all.len() ==> {
                let (i, k) = (j / (KEYS_PER_REPORT as int), j % (KEYS_PER_REPORT as int));
                &&& 0 <= i < batch_count(all.len())
                &&& 0 <= k < batch(all, i).len()
                &&& batch(all, i)[k] == #[trigger] all[j]
            },
{
}

impl ModeArgs {
    /// The command that starts the preset, with speed and brightness brought
    /// into range.
    pub open spec fn spec_command(self) -> CommandView {
        CommandView::OnboardMode {
            mode: self.mode,
            zone: self.zone,
            dir: self.dir,
            speed: spec_speed(self.speed_millis as int) as u16,
            brightness: spec_brightness(self.brightness as int) as u8,
        }
    }

    /// Setting a mode is two steps: the mode, then the commit that shows it.
    pub open spec fn spec_steps(self) -> Seq<StepView> {
        seq![StepView::required(self.spec_command()), StepView::required(CommandView::Commit)]
    }

    /// The command that starts the preset.
    pub fn command(&self) -> (command: Command)
        ensures
            command@ == self.spec_command(),
            command@.wf(),
    {
        Command::OnboardMode {
            mode: self.mode,
            zone: self.zone,
            dir: self.dir,
            speed: speed_from_millis(self.speed_millis),
            brightness: brightness_from_percent(self.brightness),
        }
    }

    /// The steps that set the mode.
    pub fn steps(&self) -> (plan: Vec<Step>)
        ensures
            plan.len() == self.spec_steps().len(),
            forall|i: int| 0 <= i < plan.len() ==> (#[trigger] plan[i])@ == self.spec_steps()[i],
            forall|i: int| 0 <= i < plan.len() ==> (#[trigger] plan[i])@.command.wf(),
    {
        let mut plan: Vec<Step> = Vec::new();
        plan.push(Step { command: self.command(), required: true });
        plan.push(Step { command: Command::Commit, required: true });
        plan
    }
}

impl KeyArgs {
    /// The per-key commands: one for each batch of the keys' codes, all with
    /// the brightness brought into range.
    pub open spec fn spec_commands(self) -> Seq<CommandView> {
        Seq::new(
            batch_count(self.keys@.len()),
            |i: int|
                CommandView::KeyColor {
                    indexes: batch(codes(self.keys@), i),
                    brightness: spec_brightness(self.brightness as int) as u8,
                },
        )
    }

    /// Lighting keys sends every batch on a best-effort basis, then commits.
    pub open spec fn spec_steps(self) -> Seq<StepView> {
        self.spec_commands().map_values(|command: CommandView| StepView::best_effort(command))
            + seq![StepView::required(CommandView::Commit)]
    }

    /// How many per-key commands the keys take.
    pub fn command_count(&self) -> (count: usize)
        ensures
            count == batch_count(self.keys@.len()),
    {
        let total: usize = self.keys.len();
        if total % KEYS_PER_REPORT == 0 {
            total / KEYS_PER_REPORT
        } else {
            total / KEYS_PER_REPORT + 1
        }
    }

    /// Per-key command number `i`.
    fn command(&self, i: usize) -> (command: Command)
        requires
            i < batch_count(self.keys@.len()),
        ensures
            command@ == self.spec_commands()[i as int],
            command@.wf(),
    {
        let total: usize = self.keys.len();
        let start: usize = KEYS_PER_REPORT * i;
        let end: usize = if total - start > KEYS_PER_REPORT {
            start + KEYS_PER_REPORT
        } else {
            total
        };
        let mut indexes: Vec<u8> = Vec::with_capacity(KEYS_PER_REPORT);
        let mut at: usize = start;
        while at < end
            invariant
                start <= at <= end <= self.keys.len(),
                indexes@ == codes(self.keys@).subrange(start as int, at as int),
            decreases end - at,
        {
            indexes.push(self.keys[at].code());
            at = at + 1;
        }
        Command::KeyColor { indexes, brightness: brightness_from_percent(self.brightness) }
    }

    /// The per-key commands, in the order of the keys.
    pub fn commands(&self) -> (commands: Vec<Command>)
        ensures
            commands.len() == self.spec_commands().len(),
            forall|i: int|
                0 <= i < commands.len() ==> (#[trigger] commands[i])@ == self.spec_commands()[i],
            forall|i: int| 0 <= i < commands.len() ==> (#[trigger] commands[i])@.wf(),
    {
        let count: usize = self.command_count();
        let mut commands: Vec<Command> = Vec::new();
        let mut i: usize = 0;
        while i < count
            invariant
                i <= count == batch_count(self.keys@.len()),
                commands.len() == i,
                forall|j: int|
                    0 <= j < i ==> (#[trigger] commands[j])@ == self.spec_commands()[j],
                forall|j: int| 0 <= j < i ==> (#[trigger] commands[j])@.wf(),
            decreases count - i,
        {
            commands.push(self.command(i));
            i = i + 1;
        }
        commands
    }

    /// The steps that light the keys.
    pub fn steps(&self) -> (plan: Vec<Step>)
        ensures
            plan.len() == self.spec_steps().len(),
            forall|i: int| 0 <= i < plan.len() ==> (#[trigger] plan[i])@ == self.spec_steps()[i],
            forall|i: int| 0 <= i < plan.len() ==> (#[trigger] plan[i])@.command.wf(),
    {
        let count: usize = self.command_count();
        let mut plan: Vec<Step> = Vec::new();
        let mut i: usize = 0;
        while i < count
            invariant
                i <= count == batch_count(self.keys@.len()),
                plan.len() == i,
                forall|j: int|
                    0 <= j < i ==> (#[trigger] plan[j])@ == StepView::best_effort(
                        self.spec_commands()[j],
                    ),
                forall|j: int| 0 <= j < i ==> (#[trigger] plan[j])@.command.wf(),
            decreases count - i,
        {
            plan.push(Step { command: self.command(i), required: false });
            i = i + 1;
        }
        plan.push(Step { command: Command::Commit, required: true });
        plan
    }
}

impl KeyTestArgs {
    /// One round of the key test: everything off, then the one code at full
    /// brightness, then the commit that shows it.
    pub open spec fn spec_round(index: u8) -> Seq<StepView> {
        seq![
            StepView::required(
                CommandView::OnboardMode {
                    mode: OnboardMode::Off,
                    zone: Zone::Keyboard,
                    dir: WaveDirection::NoDirection,
                    speed: 0,
                    brightness: 0,
                },
            ),
            StepView::required(CommandView::KeyColor { indexes: seq![index], brightness: 255 }),
            StepView::required(CommandView::Commit),
        ]
    }

    /// The steps of the round that lights `index`.
    pub fn round(index: u8) -> (plan: Vec<Step>)
        ensures
            plan.len() == 3,
            forall|i: int|
                0 <= i < plan.len() ==> (#[trigger] plan[i])@ == KeyTestArgs::spec_round(index)[i],
            forall|i: int| 0 <= i < plan.len() ==> (#[trigger] plan[i])@.command.wf(),
    {
        let off = Command::OnboardMode {
            mode: OnboardMode::Off,
            zone: Zone::Keyboard,
            dir: WaveDirection::NoDirection,
            speed: 0,
            brightness: 0,
        };
        let mut indexes: Vec<u8> = Vec::new();
        indexes.push(index);
        let mut plan: Vec<Step> = Vec::new();
        plan.push(Step { command: off, required: true });
        plan.push(Step { command: Command::KeyColor { indexes, brightness: 255 }, required: true });
        plan.push(Step { command: Command::Commit, required: true });
        plan
    }

    /// What follows a round: a line from the user, or a fixed pause.
    pub fn pause(&self) -> (pause: Pause)
        ensures
            pause == if self.no_wait {
                Pause::Millis(KEY_TEST_PAUSE_MILLIS)
            } else {
                Pause::Line
            },
    {
        if self.no_wait {
            Pause::Millis(KEY_TEST_PAUSE_MILLIS)
        } else {
            Pause::Line
        }
    }

    /// The code of the round after that of `index`; none once every code has
    /// had its round.
    pub fn following(index: u8) -> (next: Option<u8>)
        ensures
            next == if index < u8::MAX {
                Some((index + 1) as u8)
            } else {
                None
            },
    {
        index.checked_add(1)
    }
}

/// Two values that the clamp does not tell apart: they are equal, or both
/// lie at or beyond the same end of the range from `low` to `high`.
pub open spec fn same_clamped(a: int, b: int, low: int, high: int) -> bool {
    a == b || (a <= low && b <= low) || (a >= high && b >= high)
}

/// Mode requests that differ only by values out of range plan the same
/// steps: a brightness of 150 percent plans what 100 percent plans, one of
/// -10 what 0 plans, and a speed of fifteen seconds what ten seconds plan.
pub proof fn lemma_mode_saturates(a: ModeArgs, b: ModeArgs)
    requires
        a.mode == b.mode,
        a.dir == b.dir,
        a.zone == b.zone,
        same_clamped(a.speed_millis as int, b.speed_millis as int, 0, 10_000),
        same_clamped(a.brightness as int, b.brightness as int, 0, 100),
    ensures
        a.spec_command() == b.spec_command(),
        a.spec_command().report() == b.spec_command().report(),
        a.spec_steps() == b.spec_steps(),
{
}

/// Key requests for the same keys that differ only by a brightness out of
/// range plan the same steps.
pub proof fn lemma_keys_saturate(a: KeyArgs, b: KeyArgs)
    requires
        a.keys@ == b.keys@,
        same_clamped(a.brightness as int, b.brightness as int, 0, 100),
    ensures
        a.spec_commands() == b.spec_commands(),
        a.spec_steps() == b.spec_steps(),
{
    assert(a.spec_commands() =~= b.spec_commands());
}

} // verus!
