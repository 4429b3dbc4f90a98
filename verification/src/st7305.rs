//! ST7305 reflective LCD on the RLCD-4.2: the packed 300x400 monochrome
//! frame and the exact bus transactions that configure and refresh the panel.

use vstd::prelude::*;

use crate::graphics::{BinaryColor, Point, Size};

verus! {

pub const WIDTH: u32 = 300;
pub const HEIGHT: u32 = 400;
pub const FRAME_BYTES: usize = 15_000;

/// Byte holding pixel (x, y): each byte packs a block 4 columns wide and 2
/// rows high; a row of blocks spans the 300 columns in 75 bytes.
pub open spec fn pixel_byte(x: int, y: int) -> int {
    (y / 2) * 75 + x / 4
}

/// Bit (7 = most significant) of pixel (x, y) inside its byte: columns
/// left to right, and within a column the upper row first.
pub open spec fn pixel_bit(x: int, y: int) -> int {
    7 - (2 * (x % 4) + y % 2)
}

pub open spec fn in_panel(x: int, y: int) -> bool {
    0 <= x < WIDTH && 0 <= y < HEIGHT
}

pub open spec fn bit_set(byte: u8, bit: int) -> bool {
    (byte >> (bit as u8)) & 1 == 1
}

/// Whether packed pixel (x, y) is set (white) in `bytes`.
pub open spec fn pixel_is_white(bytes: Seq<u8>, x: int, y: int) -> bool {
    bit_set(bytes[pixel_byte(x, y)], pixel_bit(x, y))
}

proof fn lemma_set_bit(b: u8, k: u8, j: u8)
    requires
        k < 8,
        j < 8,
    ensures
        ((b | (1u8 << k)) >> j) & 1 == (if j == k {
            1u8
        } else {
            (b >> j) & 1
        }),
        ((b & !(1u8 << k)) >> j) & 1 == (if j == k {
            0u8
        } else {
            (b >> j) & 1
        }),
{
    assert(((b | (1u8 << k)) >> j) & 1 == (if j == k {
        1u8
    } else {
        (b >> j) & 1
    })) by (bit_vector)
        requires
            k < 8,
            j < 8,
    ;
    assert(((b & !(1u8 << k)) >> j) & 1 == (if j == k {
        0u8
    } else {
        (b >> j) & 1
    })) by (bit_vector)
        requires
            k < 8,
            j < 8,
    ;
}

/// Distinct panel pixels are packed into distinct bits, and every pixel's
/// bit lies inside the 15,000-byte frame.
pub proof fn packing_is_injective(x1: int, y1: int, x2: int, y2: int)
    requires
        in_panel(x1, y1),
        in_panel(x2, y2),
        x1 != x2 || y1 != y2,
    ensures
        0 <= pixel_byte(x1, y1) < FRAME_BYTES,
        0 <= pixel_bit(x1, y1) < 8,
        pixel_byte(x1, y1) != pixel_byte(x2, y2) || pixel_bit(x1, y1) != pixel_bit(x2, y2),
{
}

/// The 120,000 pixels fill the 120,000 bits of the frame exactly: every bit
/// of every byte belongs to one panel pixel.
pub proof fn packing_covers_frame(index: int, bit: int)
    requires
        0 <= index < FRAME_BYTES,
        0 <= bit < 8,
    ensures
        ({
            let x = (index % 75) * 4 + (7 - bit) / 2;
            let y = (index / 75) * 2 + (7 - bit) % 2;
            in_panel(x, y) && pixel_byte(x, y) == index && pixel_bit(x, y) == bit
        }),
{
}

/// The packed monochrome frame, all white when created.
#[derive(Clone)]
pub struct FrameBuffer {
    bytes: [u8; 15000],
}

impl FrameBuffer {
    /// The packed bytes.
    pub closed spec fn packed(&self) -> Seq<u8> {
        self.bytes@
    }

    pub open spec fn white(&self, x: int, y: int) -> bool {
        pixel_is_white(self.packed(), x, y)
    }

    pub fn new() -> (f: Self)
        ensures
            f.packed().len() == FRAME_BYTES,
            forall|i: int| 0 <= i < FRAME_BYTES ==> #[trigger] f.packed()[i] == 0xff,
    {
        FrameBuffer { bytes: [0xffu8; 15000] }
    }

    pub fn bytes(&self) -> (b: &[u8; 15000])
        ensures
            b@ == self.packed(),
    {
        &self.bytes
    }

    pub fn size(&self) -> (s: Size)
        ensures
            s.width == WIDTH && s.height == HEIGHT,
    {
        Size::new(WIDTH, HEIGHT)
    }

    /// Makes every pixel white.
    pub fn clear_white(&mut self)
        ensures
            final(self).packed().len() == FRAME_BYTES,
            forall|i: int| 0 <= i < FRAME_BYTES ==> #[trigger] final(self).packed()[i] == 0xff,
    {
        let mut i: usize = 0;
        while i < FRAME_BYTES
            invariant
                i <= FRAME_BYTES,
                self.bytes@.len() == FRAME_BYTES,
                forall|j: int| 0 <= j < i ==> #[trigger] self.bytes@[j] == 0xff,
            decreases FRAME_BYTES - i,
        {
            self.bytes[i] = 0xff;
            i = i + 1;
        }
    }

    /// Sets one pixel (`On` is white background, `Off` black ink); points
    /// outside the panel are ignored. No other pixel changes.
    pub fn set_pixel(&mut self, point: Point, color: BinaryColor)
        ensures
            final(self).packed().len() == FRAME_BYTES,
            in_panel(point.x as int, point.y as int) ==> final(self).white(
                point.x as int,
                point.y as int,
            ) == (color == BinaryColor::On),
            forall|x: int, y: int|
                in_panel(x, y) && !(x == point.x && y == point.y) ==> #[trigger] final(self).white(
                    x,
                    y,
                ) == old(self).white(x, y),
            !in_panel(point.x as int, point.y as int) ==> final(self).packed() == old(
                self,
            ).packed(),
    {
        if point.x < 0 || point.y < 0 || point.x >= 300 || point.y >= 400 {
            return;
        }
        let x = point.x as usize;
        let y = point.y as usize;
        let index = (y / 2) * 75 + x / 4;
        let bit: u8 = (7 - (2 * (x % 4) + y % 2)) as u8;
        let ghost old_bytes = self.bytes@;
        let mask: u8 = 1u8 << bit;
        let old_byte = self.bytes[index];
        match color {
            BinaryColor::On => self.bytes[index] = old_byte | mask,
            BinaryColor::Off => self.bytes[index] = old_byte & !mask,
        }
        proof {
            assert forall|xx: int, yy: int|
                in_panel(xx, yy) && !(xx == point.x && yy == point.y) implies #[trigger] self.white(
                xx,
                yy,
            ) == pixel_is_white(old_bytes, xx, yy) by {
                packing_is_injective(xx, yy, x as int, y as int);
                if pixel_byte(xx, yy) == index {
                    lemma_set_bit(old_byte, bit, pixel_bit(xx, yy) as u8);
                }
            }
            lemma_set_bit(old_byte, bit, bit);
        }
    }
}

// ---------------------------------------------------------------------------
// Bus transactions
// ---------------------------------------------------------------------------
/// One step on the panel's control lines and SPI bus.
#[derive(Clone, Debug)]
pub enum BusOp {
    /// Drive the reset line (true = high).
    Reset(bool),
    /// Drive the data/command line (false = command, true = data).
    DataCommand(bool),
    /// One SPI write of these bytes.
    Write(Vec<u8>),
    /// Wait this many milliseconds.
    DelayMs(u32),
}

/// The value of a bus step.
pub enum BusStep {
    Reset(bool),
    DataCommand(bool),
    Write(Seq<u8>),
    DelayMs(u32),
}

pub open spec fn step_of(op: BusOp) -> BusStep {
    match op {
        BusOp::Reset(h) => BusStep::Reset(h),
        BusOp::DataCommand(d) => BusStep::DataCommand(d),
        BusOp::Write(bytes) => BusStep::Write(bytes@),
        BusOp::DelayMs(ms) => BusStep::DelayMs(ms),
    }
}

pub open spec fn steps_of(ops: Seq<BusOp>) -> Seq<BusStep> {
    ops.map_values(|op: BusOp| step_of(op))
}

/// A command byte: data/command low, then the byte.
pub open spec fn command_steps(command: u8) -> Seq<BusStep> {
    seq![BusStep::DataCommand(false), BusStep::Write(seq![command])]
}

/// A command byte followed by its parameters: data/command high for them.
pub open spec fn command_data_steps(command: u8, data: Seq<u8>) -> Seq<BusStep> {
    command_steps(command) + seq![BusStep::DataCommand(true), BusStep::Write(data)]
}

/// Full-panel address window: columns 0x12..=0x2a, rows 0x00..=0xc7.
pub open spec fn window_steps() -> Seq<BusStep> {
    command_data_steps(0x2a, seq![0x12u8, 0x2a]) + command_data_steps(0x2b, seq![0x00u8, 0xc7])
}

/// Reset pulse, then the controller configuration with the display still
/// off (0x28): gate/source voltages, frame rate, sleep out (0x11, 200 ms),
/// memory layout, address window, tearing effect on, and low-power mode off.
pub open spec fn init_steps() -> Seq<BusStep> {
    reset_steps() + voltage_steps() + wake_steps() + layout_steps()
}

/// Reset pulse: high 50 ms, low 20 ms, high 50 ms.
pub open spec fn reset_steps() -> Seq<BusStep> {
    seq![
        BusStep::Reset(true),
        BusStep::DelayMs(50),
        BusStep::Reset(false),
        BusStep::DelayMs(20),
        BusStep::Reset(true),
        BusStep::DelayMs(50),
    ]
}

/// Display off, then gate/source voltages and frame timing.
pub open spec fn voltage_steps() -> Seq<BusStep> {
    command_steps(0x28) + command_data_steps(0xd6, seq![0x17u8, 0x02]) + command_data_steps(
        0xd1,
        seq![0x01u8],
    ) + command_data_steps(0xc0, seq![0x11u8, 0x04]) + command_data_steps(
        0xc1,
        seq![0x69u8, 0x69, 0x69, 0x69],
    ) + command_data_steps(0xc2, seq![0x19u8, 0x19, 0x19, 0x19]) + command_data_steps(
        0xc4,
        seq![0x4bu8, 0x4b, 0x4b, 0x4b],
    ) + command_data_steps(0xc5, seq![0x19u8, 0x19, 0x19, 0x19]) + command_data_steps(
        0xd8,
        seq![0x80u8, 0xe9],
    ) + command_data_steps(0xb2, seq![0x02u8]) + command_data_steps(
        0xb3,
        seq![0xe5u8, 0xf6, 0x05, 0x46, 0x77, 0x77, 0x77, 0x77, 0x76, 0x45],
    ) + command_data_steps(0xb4, seq![0x05u8, 0x46, 0x77, 0x77, 0x77, 0x77, 0x76, 0x45])
        + command_data_steps(0x62, seq![0x32u8, 0x03, 0x1f]) + command_data_steps(
        0xb7,
        seq![0x13u8],
    ) + command_data_steps(0xb0, seq![0x64u8])
}

/// Sleep out (0x11) and its 200 ms settling time.
pub open spec fn wake_steps() -> Seq<BusStep> {
    command_steps(0x11) + seq![BusStep::DelayMs(200)]
}

/// Memory layout, inversion, the full-panel window, tearing effect on, and
/// low-power mode off.
pub open spec fn layout_steps() -> Seq<BusStep> {
    command_data_steps(0xc9, seq![0x00u8]) + command_data_steps(0x36, seq![0x48u8])
        + command_data_steps(0x3a, seq![0x11u8]) + command_data_steps(0xb9, seq![0x20u8])
        + command_data_steps(0xb8, seq![0x29u8]) + command_steps(0x21) + window_steps()
        + command_data_steps(0x35, seq![0x00u8]) + command_data_steps(0xd0, seq![0xffu8])
        + command_steps(0x38)
}

/// Display on (0x29).
pub open spec fn display_on_steps() -> Seq<BusStep> {
    command_steps(0x29)
}

/// Full-panel window, memory write (0x2c), then the whole frame as data in
/// one transfer.
pub open spec fn flush_steps(frame: Seq<u8>) -> Seq<BusStep> {
    window_steps() + command_steps(0x2c) + seq![BusStep::DataCommand(true), BusStep::Write(frame)]
}

/// Failure of a bus step: the SPI transfer or a control pin.
#[derive(Debug)]
pub enum Error<SpiError, PinError> {
    Spi(SpiError),
    Pin(PinError),
}

/// How one carried-out bus step ended.
pub enum StepOutcome<SpiError, PinError> {
    /// The step went through (a delay always does).
    Done,
    /// A control pin (data/command or reset) refused the level.
    PinFailed(PinError),
    /// The SPI write failed.
    SpiFailed(SpiError),
}

/// Progress through a bus plan: its steps are carried out in order, and the
/// first failing step ends the plan with that step's error.
pub struct BusRun<SpiError, PinError> {
    /// Steps carried out without error.
    pub completed: usize,
    /// The error of the step that failed, if one did.
    pub failure: Option<Error<SpiError, PinError>>,
}

impl<SpiError, PinError> BusRun<SpiError, PinError> {
    pub fn new() -> (r: Self)
        ensures
            r.completed == 0,
            r.failure is None,
    {
        BusRun { completed: 0, failure: None }
    }

    /// The index of the step to carry out next in a plan of `plan_len`
    /// steps: the first one not yet done, or none once the plan is done or
    /// a step failed, so that nothing is carried out after a failure.
    pub fn next_step(&self, plan_len: usize) -> (i: Option<usize>)
        ensures
            i == (if self.failure is None && self.completed < plan_len {
                Some(self.completed)
            } else {
                None
            }),
    {
        if self.failure.is_none() && self.completed < plan_len {
            Some(self.completed)
        } else {
            None
        }
    }

    /// Records how the step handed out by `next_step` ended: success moves
    /// on to the next step; a pin failure ends the plan with `Error::Pin`,
    /// an SPI failure with `Error::Spi`. After a failure nothing changes.
    pub fn record(&mut self, outcome: StepOutcome<SpiError, PinError>)
        requires
            old(self).completed < usize::MAX,
        ensures
            old(self).failure is Some ==> *final(self) == *old(self),
            old(self).failure is None ==> match outcome {
                StepOutcome::Done => final(self).completed == old(self).completed + 1
                    && final(self).failure is None,
                StepOutcome::PinFailed(e) => final(self).completed == old(self).completed
                    && final(self).failure == Some(Error::<SpiError, PinError>::Pin(e)),
                StepOutcome::SpiFailed(e) => final(self).completed == old(self).completed
                    && final(self).failure == Some(Error::<SpiError, PinError>::Spi(e)),
            },
            *final(self) == recorded(*old(self), outcome),
    {
        if self.failure.is_none() {
            match outcome {
                StepOutcome::Done => {
                    self.completed = self.completed + 1;
                },
                StepOutcome::PinFailed(e) => {
                    self.failure = Some(Error::Pin(e));
                },
                StepOutcome::SpiFailed(e) => {
                    self.failure = Some(Error::Spi(e));
                },
            }
        }
    }

    /// The plan's result: the failing step's error, or success.
    pub fn finish(self) -> (r: Result<(), Error<SpiError, PinError>>)
        ensures
            match self.failure {
                Some(e) => r == Err::<(), Error<SpiError, PinError>>(e),
                None => r is Ok,
            },
    {
        match self.failure {
            Some(e) => Err(e),
            None => Ok(()),
        }
    }
}

/// The error a step outcome ends a plan with, if any.
pub open spec fn outcome_error<SpiError, PinError>(o: StepOutcome<SpiError, PinError>) -> Option<
    Error<SpiError, PinError>,
> {
    match o {
        StepOutcome::Done => None,
        StepOutcome::PinFailed(e) => Some(Error::Pin(e)),
        StepOutcome::SpiFailed(e) => Some(Error::Spi(e)),
    }
}

/// What `BusRun::record` leaves.
pub open spec fn recorded<SpiError, PinError>(
    r: BusRun<SpiError, PinError>,
    o: StepOutcome<SpiError, PinError>,
) -> BusRun<SpiError, PinError> {
    if r.failure is Some {
        r
    } else {
        match outcome_error(o) {
            None => BusRun { completed: (r.completed + 1) as usize, failure: None },
            Some(e) => BusRun { completed: r.completed, failure: Some(e) },
        }
    }
}

/// A plan carried out while `next_step` hands out steps, step `i` ending
/// as `outcomes[i]`: the run it ends in.
pub open spec fn carried_out<SpiError, PinError>(
    r: BusRun<SpiError, PinError>,
    outcomes: Seq<StepOutcome<SpiError, PinError>>,
) -> BusRun<SpiError, PinError>
    decreases outcomes.len() - r.completed, if r.failure is None {
        1int
    } else {
        0int
    },
{
    if r.failure is None && r.completed < outcomes.len() && r.completed < usize::MAX {
        carried_out(recorded(r, outcomes[r.completed as int]), outcomes)
    } else {
        r
    }
}

proof fn carried_out_from<SpiError, PinError>(
    r: BusRun<SpiError, PinError>,
    outcomes: Seq<StepOutcome<SpiError, PinError>>,
)
    requires
        r.failure is None,
        r.completed <= outcomes.len() <= usize::MAX,
        forall|i: int| 0 <= i < r.completed ==> #[trigger] outcomes[i] is Done,
    ensures
        ({
            let end = carried_out(r, outcomes);
            &&& forall|i: int| 0 <= i < end.completed ==> #[trigger] outcomes[i] is Done
            &&& end.failure is None ==> end.completed == outcomes.len()
            &&& end.failure is Some ==> end.completed < outcomes.len() && end.failure
                == outcome_error(outcomes[end.completed as int])
        }),
    decreases outcomes.len() - r.completed,
{
    if r.completed < outcomes.len() {
        let next = recorded(r, outcomes[r.completed as int]);
        if next.failure is None {
            carried_out_from(next, outcomes);
        }
    }
}

/// A bus plan stops at its first failing step: carried out from the start,
/// every step before the one the run ended on went through; the run fails
/// exactly when a step failed, with that step's error (`Error::Pin` for a
/// pin, `Error::Spi` for the SPI bus), and no later step is carried out.
pub proof fn plans_stop_at_the_first_failure<SpiError, PinError>(
    outcomes: Seq<StepOutcome<SpiError, PinError>>,
)
    requires
        outcomes.len() <= usize::MAX,
    ensures
        ({
            let end = carried_out(BusRun { completed: 0, failure: None }, outcomes);
            &&& forall|i: int| 0 <= i < end.completed ==> #[trigger] outcomes[i] is Done
            &&& end.failure is None <==> forall|i: int|
                0 <= i < outcomes.len() ==> #[trigger] outcomes[i] is Done
            &&& end.failure is Some ==> end.completed < outcomes.len() && end.failure
                == outcome_error(outcomes[end.completed as int])
        }),
{
    carried_out_from(BusRun { completed: 0, failure: None }, outcomes);
}

/// The stages that bring the panel up at boot, in this order: configure it
/// with the display off, write an all-white frame, write the first
/// dashboard, and only then turn the display on.
#[derive(Clone, Copy, Debug, PartialEq, Eq, Structural)]
pub enum StartupStage {
    Init,
    Clear,
    Dashboard,
    DisplayOn,
}

pub open spec fn startup_failure_text(stage: StartupStage) -> Seq<char> {
    match stage {
        StartupStage::Init => "ST7305 initialization failed"@,
        StartupStage::Clear => "ST7305 startup clear failed"@,
        StartupStage::Dashboard => "ST7305 startup dashboard failed"@,
        StartupStage::DisplayOn => "ST7305 display enable failed"@,
    }
}

impl StartupStage {
    /// What boot reports when this stage fails.
    pub fn failure_message(self) -> (m: &'static str)
        ensures
            m@ == startup_failure_text(self),
    {
        match self {
            StartupStage::Init => "ST7305 initialization failed",
            StartupStage::Clear => "ST7305 startup clear failed",
            StartupStage::Dashboard => "ST7305 startup dashboard failed",
            StartupStage::DisplayOn => "ST7305 display enable failed",
        }
    }
}

/// The all-white packed frame.
pub open spec fn white_frame() -> Seq<u8> {
    Seq::new(FRAME_BYTES as nat, |i: int| 0xffu8)
}

/// Driver for the ST7305: owns the SPI device and the data/command and
/// reset pins, and plans the bus steps of each operation. The steps are
/// carried out in order by the board's transport, stopping at the first
/// failure.
pub struct St7305<SPI, DC, RST> {
    pub spi: SPI,
    pub dc: DC,
    pub reset: RST,
}

/// Concatenation regroups freely.
pub broadcast proof fn lemma_concat_regroup<A>(a: Seq<A>, b: Seq<A>, c: Seq<A>)
    ensures
        #[trigger] (a + (b + c)) == (a + b) + c,
{
    assert(a + (b + c) =~= (a + b) + c);
}

fn push_command(ops: &mut Vec<BusOp>, command: u8)
    ensures
        steps_of(final(ops)@) == steps_of(old(ops)@) + command_steps(command),
{
    let ghost before = ops@;
    ops.push(BusOp::DataCommand(false));
    let w = vec![command];
    assert(w@ =~= seq![command]);
    ops.push(BusOp::Write(w));
    assert(ops@ == before.push(BusOp::DataCommand(false)).push(BusOp::Write(w)));
    assert(steps_of(ops@) =~= steps_of(before) + command_steps(command));
}

fn push_command_data(ops: &mut Vec<BusOp>, command: u8, data: Vec<u8>)
    ensures
        steps_of(final(ops)@) == steps_of(old(ops)@) + command_data_steps(command, data@),
{
    push_command(ops, command);
    let ghost mid = ops@;
    ops.push(BusOp::DataCommand(true));
    ops.push(BusOp::Write(data));
    assert(steps_of(ops@) =~= steps_of(mid) + seq![BusStep::DataCommand(true), BusStep::Write(data@)]);
}

fn push_window(ops: &mut Vec<BusOp>)
    ensures
        steps_of(final(ops)@) == steps_of(old(ops)@) + window_steps(),
{
    push_command_data(ops, 0x2a, bytes2(0x12, 0x2a));
    push_command_data(ops, 0x2b, bytes2(0x00, 0xc7));
    assert(steps_of(ops@) =~= steps_of(old(ops)@) + window_steps());
}

fn bytes1(a: u8) -> (v: Vec<u8>)
    ensures
        v@ == seq![a],
{
    vec![a]
}

fn bytes2(a: u8, b: u8) -> (v: Vec<u8>)
    ensures
        v@ == seq![a, b],
{
    vec![a, b]
}

fn bytes3(a: u8, b: u8, c: u8) -> (v: Vec<u8>)
    ensures
        v@ == seq![a, b, c],
{
    vec![a, b, c]
}

fn bytes4(a: u8) -> (v: Vec<u8>)
    ensures
        v@ == seq![a, a, a, a],
{
    vec![a, a, a, a]
}

fn gate_timing(with_lead: bool) -> (v: Vec<u8>)
    ensures
        with_lead ==> v@ == seq![0xe5u8, 0xf6, 0x05, 0x46, 0x77, 0x77, 0x77, 0x77, 0x76, 0x45],
        !with_lead ==> v@ == seq![0x05u8, 0x46, 0x77, 0x77, 0x77, 0x77, 0x76, 0x45],
{
    if with_lead {
        vec![0xe5, 0xf6, 0x05, 0x46, 0x77, 0x77, 0x77, 0x77, 0x76, 0x45]
    } else {
        vec![0x05, 0x46, 0x77, 0x77, 0x77, 0x77, 0x76, 0x45]
    }
}

fn push_voltage(ops: &mut Vec<BusOp>)
    ensures
        steps_of(final(ops)@) == steps_of(old(ops)@) + voltage_steps(),
{
    broadcast use lemma_concat_regroup;

    push_command(ops, 0x28);
    push_command_data(ops, 0xd6, bytes2(0x17, 0x02));
    push_command_data(ops, 0xd1, bytes1(0x01));
    push_command_data(ops, 0xc0, bytes2(0x11, 0x04));
    push_command_data(ops, 0xc1, bytes4(0x69));
    push_command_data(ops, 0xc2, bytes4(0x19));
    push_command_data(ops, 0xc4, bytes4(0x4b));
    push_command_data(ops, 0xc5, bytes4(0x19));
    push_command_data(ops, 0xd8, bytes2(0x80, 0xe9));
    push_command_data(ops, 0xb2, bytes1(0x02));
    push_command_data(ops, 0xb3, gate_timing(true));
    push_command_data(ops, 0xb4, gate_timing(false));
    push_command_data(ops, 0x62, bytes3(0x32, 0x03, 0x1f));
    push_command_data(ops, 0xb7, bytes1(0x13));
    push_command_data(ops, 0xb0, bytes1(0x64));

}

fn push_layout(ops: &mut Vec<BusOp>)
    ensures
        steps_of(final(ops)@) == steps_of(old(ops)@) + layout_steps(),
{
    broadcast use lemma_concat_regroup;

    push_command_data(ops, 0xc9, bytes1(0x00));
    push_command_data(ops, 0x36, bytes1(0x48));
    push_command_data(ops, 0x3a, bytes1(0x11));
    push_command_data(ops, 0xb9, bytes1(0x20));
    push_command_data(ops, 0xb8, bytes1(0x29));
    push_command(ops, 0x21);
    push_window(ops);
    push_command_data(ops, 0x35, bytes1(0x00));
    push_command_data(ops, 0xd0, bytes1(0xff));
    push_command(ops, 0x38);

}

impl<SPI, DC, RST> St7305<SPI, DC, RST> {
    pub fn new(spi: SPI, dc: DC, reset: RST) -> (d: Self)
        ensures
            d.spi == spi && d.dc == dc && d.reset == reset,
    {
        St7305 { spi, dc, reset }
    }

    /// The bus steps that reset and configure the panel, leaving the
    /// display off so that undefined panel memory stays hidden until a
    /// known frame has been written.
    pub fn init(&self) -> (ops: Vec<BusOp>)
        ensures
            steps_of(ops@) == init_steps(),
    {
        let mut ops: Vec<BusOp> = Vec::new();
        ops.push(BusOp::Reset(true));
        ops.push(BusOp::DelayMs(50));
        ops.push(BusOp::Reset(false));
        ops.push(BusOp::DelayMs(20));
        ops.push(BusOp::Reset(true));
        ops.push(BusOp::DelayMs(50));
        assert(steps_of(ops@) =~= reset_steps());
        push_voltage(&mut ops);
        push_command(&mut ops, 0x11);
        let ghost s1 = steps_of(ops@);
        ops.push(BusOp::DelayMs(200));
        assert(steps_of(ops@) =~= s1 + seq![BusStep::DelayMs(200)]);
        push_layout(&mut ops);
        proof {
            broadcast use lemma_concat_regroup;

        }
        ops
    }

    /// The bus steps that turn the display on.
    pub fn display_on(&self) -> (ops: Vec<BusOp>)
        ensures
            steps_of(ops@) == display_on_steps(),
    {
        let mut ops: Vec<BusOp> = Vec::new();
        push_command(&mut ops, 0x29);
        assert(steps_of(ops@) =~= display_on_steps());
        ops
    }

    /// The bus steps that write `frame` to the whole panel.
    pub fn flush(&self, frame: &FrameBuffer) -> (ops: Vec<BusOp>)
        ensures
            steps_of(ops@) == flush_steps(frame.packed()),
    {
        let mut ops: Vec<BusOp> = Vec::new();
        push_window(&mut ops);
        push_command(&mut ops, 0x2c);
        let ghost s1 = steps_of(ops@);
        ops.push(BusOp::DataCommand(true));
        let bytes = frame.bytes();
        let mut data: Vec<u8> = Vec::with_capacity(FRAME_BYTES);
        let mut i: usize = 0;
        while i < FRAME_BYTES
            invariant
                i <= FRAME_BYTES,
                bytes@ == frame.packed(),
                bytes@.len() == FRAME_BYTES,
                data@ == bytes@.take(i as int),
            decreases FRAME_BYTES - i,
        {
            data.push(bytes[i]);
            i = i + 1;
            assert(data@ =~= bytes@.take(i as int));
        }
        assert(data@ =~= frame.packed());
        ops.push(BusOp::Write(data));
        assert(steps_of(ops@) =~= flush_steps(frame.packed()));
        ops
    }
    /// The boot sequence: each stage with the bus steps it sends. A stage
    /// runs only after the ones before it went through.
    pub fn startup(&self, dashboard: &FrameBuffer) -> (plan: Vec<(StartupStage, Vec<BusOp>)>)
        ensures
            plan@.len() == 4,
            plan@[0].0 == StartupStage::Init && steps_of(plan@[0].1@) == init_steps(),
            plan@[1].0 == StartupStage::Clear && steps_of(plan@[1].1@) == flush_steps(white_frame()),
            plan@[2].0 == StartupStage::Dashboard && steps_of(plan@[2].1@) == flush_steps(
                dashboard.packed(),
            ),
            plan@[3].0 == StartupStage::DisplayOn && steps_of(plan@[3].1@) == display_on_steps(),
    {
        let blank = FrameBuffer::new();
        assert(blank.packed() =~= white_frame());
        let mut plan: Vec<(StartupStage, Vec<BusOp>)> = Vec::new();
        plan.push((StartupStage::Init, self.init()));
        plan.push((StartupStage::Clear, self.flush(&blank)));
        plan.push((StartupStage::Dashboard, self.flush(dashboard)));
        plan.push((StartupStage::DisplayOn, self.display_on()));
        plan
    }
}

} // verus!
