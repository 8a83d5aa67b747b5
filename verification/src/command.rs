//! The lighting commands and their encoding as fixed-length HID reports.
//!
//! Every report starts with a four-byte selector and is padded with zeros to
//! the length of its kind: twenty bytes for the short reports, sixty-four for
//! the per-key report.

use vstd::prelude::*;

verus! {

/// Length of a commit, startup-mode or onboard-mode report.
pub const SHORT_REPORT_LEN: usize = 20;

/// Length of a per-key report.
pub const LONG_REPORT_LEN: usize = 64;

/// Most keys that one per-key report addresses.
pub const KEYS_PER_REPORT: usize = 12;

/// Value sent in each of the three colour channels. The keyboard has a single
/// colour, and the firmware's reading of the channels is not established, so
/// every report carries this mid-scale value.
pub const CHANNEL: u8 = 0x80;

/// Specify how the keyboard should behave on startup.
#[derive(Debug, Clone, Copy, PartialEq, Eq, Hash, Structural)]
pub enum StartupMode {
    Wave,
    Color,
}

/// One of the presets that the keyboard runs by itself.
#[derive(Debug, Clone, Copy, PartialEq, Eq, Hash, Structural)]
pub enum OnboardMode {
    Off,
    Static,
    Breathing,
    Wave,
}

/// Which part of the keyboard a preset applies to.
#[derive(Debug, Clone, Copy, PartialEq, Eq, Hash, Structural)]
pub enum Zone {
    Keyboard,
    Logo,
}

/// For the wave preset, the direction in which it flows.
#[derive(Debug, Clone, Copy, PartialEq, Eq, Hash, Structural)]
pub enum WaveDirection {
    /// No direction: what every preset but the wave is sent with.
    NoDirection,
    Horizontal,
    Vertical,
    CenterOut,
    ReverseHorizontal,
    CenterIn,
}

impl StartupMode {
    /// The byte that the firmware knows this mode by.
    pub open spec fn spec_code(self) -> u8 {
        match self {
            StartupMode::Wave => 0,
            StartupMode::Color => 1,
        }
    }

    pub fn code(&self) -> (c: u8)
        ensures
            c == self.spec_code(),
    {
        match self {
            StartupMode::Wave => 0,
            StartupMode::Color => 1,
        }
    }
}

impl OnboardMode {
    /// The byte that the firmware knows this preset by.
    pub open spec fn spec_code(self) -> u8 {
        match self {
            OnboardMode::Off => 0,
            OnboardMode::Static => 1,
            OnboardMode::Breathing => 2,
            OnboardMode::Wave => 3,
        }
    }

    pub fn code(&self) -> (c: u8)
        ensures
            c == self.spec_code(),
    {
        match self {
            OnboardMode::Off => 0,
            OnboardMode::Static => 1,
            OnboardMode::Breathing => 2,
            OnboardMode::Wave => 3,
        }
    }
}

impl Zone {
    /// The byte that the firmware knows this zone by.
    pub open spec fn spec_code(self) -> u8 {
        match self {
            Zone::Keyboard => 0,
            Zone::Logo => 1,
        }
    }

    pub fn code(&self) -> (c: u8)
        ensures
            c == self.spec_code(),
    {
        match self {
            Zone::Keyboard => 0,
            Zone::Logo => 1,
        }
    }
}

impl WaveDirection {
    /// The byte that the firmware knows this direction by. The values are the
    /// firmware's own and leave gaps.
    pub open spec fn spec_code(self) -> u8 {
        match self {
            WaveDirection::NoDirection => 0,
            WaveDirection::Horizontal => 1,
            WaveDirection::Vertical => 2,
            WaveDirection::CenterOut => 3,
            WaveDirection::ReverseHorizontal => 6,
            WaveDirection::CenterIn => 8,
        }
    }

    pub fn code(&self) -> (c: u8)
        ensures
            c == self.spec_code(),
    {
        match self {
            WaveDirection::NoDirection => 0,
            WaveDirection::Horizontal => 1,
            WaveDirection::Vertical => 2,
            WaveDirection::CenterOut => 3,
            WaveDirection::ReverseHorizontal => 6,
            WaveDirection::CenterIn => 8,
        }
    }
}

/// A lighting command, as handed to the device session.
#[allow(inconsistent_fields)]
#[derive(Debug, Clone, PartialEq, Eq)]
pub enum Command {
    /// Makes what was sent before take visible effect.
    Commit,
    /// Sets the lighting shown when the keyboard powers up.
    StartupMode { mode: StartupMode },
    /// Starts a preset. `speed` is the cycle duration in milliseconds.
    OnboardMode { mode: OnboardMode, zone: Zone, dir: WaveDirection, speed: u16, brightness: u8 },
    /// Lights single keys, named by their protocol codes.
    KeyColor { indexes: Vec<u8>, brightness: u8 },
}

/// What a [`Command`] is, with the key list as a sequence.
#[allow(inconsistent_fields)]
pub enum CommandView {
    Commit,
    StartupMode { mode: StartupMode },
    OnboardMode { mode: OnboardMode, zone: Zone, dir: WaveDirection, speed: u16, brightness: u8 },
    KeyColor { indexes: Seq<u8>, brightness: u8 },
}

impl View for Command {
    type V = CommandView;

    open spec fn view(&self) -> CommandView {
        match *self {
            Command::Commit => CommandView::Commit,
            Command::StartupMode { mode } => CommandView::StartupMode { mode },
            Command::OnboardMode { mode, zone, dir, speed, brightness } => {
                CommandView::OnboardMode { mode, zone, dir, speed, brightness }
            },
            Command::KeyColor { indexes, brightness } => CommandView::KeyColor {
                indexes: indexes@,
                brightness,
            },
        }
    }
}

/// `s` followed by as many zero bytes as it takes to reach `len`.
pub open spec fn padded(s: Seq<u8>, len: nat) -> Seq<u8> {
    s + Seq::new((len - s.len()) as nat, |i: int| 0u8)
}

/// The per-key entries of a key list: four bytes for each key, its code and
/// then the three colour channels.
pub open spec fn entries(indexes: Seq<u8>) -> Seq<u8> {
    Seq::new(
        4 * indexes.len(),
        |i: int|
            if i % 4 == 0 {
                indexes[i / 4]
            } else {
                CHANNEL
            },
    )
}

impl CommandView {
    /// A command is well formed when its key list fits one report.
    pub open spec fn wf(self) -> bool {
        self matches CommandView::KeyColor { indexes, .. } ==> indexes.len() <= KEYS_PER_REPORT
    }

    /// The length of this command's report.
    pub open spec fn report_len(self) -> nat {
        if self is KeyColor {
            LONG_REPORT_LEN as nat
        } else {
            SHORT_REPORT_LEN as nat
        }
    }

    /// The bytes of the report that carry information: the selector and the
    /// fields behind it.
    pub open spec fn payload(self) -> Seq<u8> {
        match self {
            CommandView::Commit => seq![0x11u8, 0xff, 0x0c, 0x5a],
            CommandView::StartupMode { mode } => seq![
                0x11u8,
                0xff,
                0x0d,
                0x5a,
                0x00,
                0x01,
                mode.spec_code(),
            ],
            CommandView::OnboardMode { mode, zone, dir, speed, brightness } => seq![
                0x11u8,
                0xff,
                0x0d,
                0x3c,
                zone.spec_code(),
                mode.spec_code(),
                CHANNEL,
                CHANNEL,
                CHANNEL,
                (speed / 256) as u8,
                (speed % 256) as u8,
                (speed / 256) as u8,
                (speed % 256) as u8,
                dir.spec_code(),
                0x64,
                (speed % 256) as u8,
                0x00,
            ],
            CommandView::KeyColor { indexes, brightness } => seq![
                0x12u8,
                0xff,
                0x0c,
                0x3d,
                0x00,
                0x01,
                0x00,
                0x0c,
            ] + entries(indexes),
        }
    }

    /// The report: the payload, padded with zeros to the report's length.
    pub open spec fn report(self) -> Seq<u8> {
        padded(self.payload(), self.report_len())
    }
}

/// The payload of a well-formed command fits its report, so the report has
/// exactly the length of its kind and begins with the payload.
pub proof fn lemma_report_len(c: CommandView)
    requires
        c.wf(),
    ensures
        c.payload().len() <= c.report_len(),
        c.report().len() == c.report_len(),
        c.report().len() == 20 || c.report().len() == 64,
        c.report().len() == 64 <==> c is KeyColor,
        c.report().subrange(0, c.payload().len() as int) == c.payload(),
        forall|i: int| c.payload().len() <= i < c.report_len() ==> c.report()[i] == 0,
{
}

/// Commands that hold the same values have the same report, whatever
/// vectors they keep their key lists in.
pub proof fn lemma_report_deterministic(a: Command, b: Command)
    requires
        a@ == b@,
    ensures
        a@.report() == b@.report(),
{
}

impl Command {
    /// Whether the command fits one report.
    pub fn is_valid(&self) -> (ok: bool)
        ensures
            ok == self@.wf(),
    {
        match self {
            Command::KeyColor { indexes, .. } => indexes.len() <= KEYS_PER_REPORT,
            _ => true,
        }
    }

    /// Encodes the command as the report that is written to the device.
    pub fn bytes(&self) -> (buf: Vec<u8>)
        requires
            self@.wf(),
        ensures
            buf@ == self@.report(),
            buf@.len() == self@.report_len(),
    {
        let mut buf: Vec<u8> = Vec::with_capacity(LONG_REPORT_LEN);
        let len: usize = match self {
            Command::Commit => {
                buf.push(0x11);
                buf.push(0xff);
                buf.push(0x0c);
                buf.push(0x5a);
                SHORT_REPORT_LEN
            },
            Command::StartupMode { mode } => {
                buf.push(0x11);
                buf.push(0xff);
                buf.push(0x0d);
                buf.push(0x5a);
                buf.push(0x00);
                buf.push(0x01);
                buf.push(mode.code());
                SHORT_REPORT_LEN
            },
            Command::OnboardMode { mode, zone, dir, speed, brightness: _ } => {
                let hi: u8 = (*speed / 256) as u8;
                let lo: u8 = (*speed % 256) as u8;
                buf.push(0x11);
                buf.push(0xff);
                buf.push(0x0d);
                buf.push(0x3c);
                buf.push(zone.code());
                buf.push(mode.code());
                buf.push(CHANNEL);
                buf.push(CHANNEL);
                buf.push(CHANNEL);
                buf.push(hi);
                buf.push(lo);
                buf.push(hi);
                buf.push(lo);
                buf.push(dir.code());
                buf.push(0x64);
                buf.push(lo);
                buf.push(0x00);
                SHORT_REPORT_LEN
            },
            Command::KeyColor { indexes, brightness: _ } => {
                buf.push(0x12);
                buf.push(0xff);
                buf.push(0x0c);
                buf.push(0x3d);
                buf.push(0x00);
                buf.push(0x01);
                buf.push(0x00);
                buf.push(0x0c);
                let ghost header = buf@;
                let mut k: usize = 0;
                while k < indexes.len()
                    invariant
                        k <= indexes.len() <= KEYS_PER_REPORT,
                        header.len() == 8,
                        buf@ == header + entries(indexes@.take(k as int)),
                    decreases indexes.len() - k,
                {
                    buf.push(indexes[k]);
                    buf.push(CHANNEL);
                    buf.push(CHANNEL);
                    buf.push(CHANNEL);
                    k = k + 1;
                }
                assert(indexes@.take(k as int) == indexes@);
                LONG_REPORT_LEN
            },
        };
        let ghost payload = buf@;
        buf.resize(len, 0);
        assert(buf@ == padded(payload, len as nat));
        buf
    }
}

} // verus!
