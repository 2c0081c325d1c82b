use crate::command::Command;
use crate::config::ConfigState;
use crate::framebuffer::{BLACK, DISPLAY_HEIGHT, WHITE};
use crate::geometry::least;
use crate::panel::{lemma_after_concat, lemma_after_one, lemma_pulse_completes, PanelState};
use crate::power::{
    lemma_power_on_settles, lemma_sequence_commits, power_down_sequence, power_down_steps,
    power_on_commands, power_on_ops, sequence_commands, sequence_ops, spec_power_state, PowerState,
    PowerStep,
};
use crate::pulse::{ChannelSlot, PulseChannel};
use vstd::prelude::*;

verus! {

/// Ticks for which a pulse that drives pixels towards black stays high.
pub const DRIVE_BLACK_TICKS: u16 = 300;

/// Ticks for which a pulse that drives pixels towards white stays high.
pub const DRIVE_WHITE_TICKS: u16 = 200;

/// Ticks for which a pulse stays low over a black background.
pub const REST_ON_BLACK_TICKS: u16 = 100;

/// Ticks for which a pulse stays low over a white background.
pub const REST_ON_WHITE_TICKS: u16 = 50;

/// Rows that a flush hands to the panel between two pulses.
pub const FLUSH_CHUNK_ROWS: u32 = 50;

/// Time the panel takes to show a flushed frame, in milliseconds.
pub const REFRESH_SETTLE_MS: u32 = 100;

/// White and black passes that a repair runs, each that many times.
pub const REPAIR_CYCLES: u32 = 8;

/// Pause after each pass of a repair, in milliseconds.
pub const REPAIR_PAUSE_MS: u32 = 500;

/// One of the two ends of the gray scale.
#[derive(Clone, Copy, Debug, PartialEq, Eq, Structural)]
pub enum Tone {
    Black,
    White,
}

/// How a flush drives the panel: the tone of what is drawn, on the tone of
/// the background it is drawn on.
#[derive(Clone, Copy, Debug, PartialEq, Eq, Structural)]
pub enum DrawMode {
    BlackOnWhite,
    WhiteOnBlack,
    WhiteOnWhite,
}

/// The two durations of a pulse, in ticks.
#[derive(Clone, Copy, Debug, PartialEq, Eq, Structural)]
pub struct PulseTiming {
    pub high: u16,
    pub low: u16,
}

/// A run of rows that is handed to the panel in one piece.
#[derive(Clone, Copy, Debug, PartialEq, Eq, Structural)]
pub struct RowChunk {
    pub first_row: u32,
    pub rows: u32,
}

impl Tone {
    /// The gray level of the tone.
    pub open spec fn spec_level(self) -> u8 {
        match self {
            Tone::Black => BLACK,
            Tone::White => WHITE,
        }
    }

    /// How long a pulse that drives towards this tone stays high.
    pub open spec fn spec_drive_ticks(self) -> u16 {
        match self {
            Tone::Black => DRIVE_BLACK_TICKS,
            Tone::White => DRIVE_WHITE_TICKS,
        }
    }

    /// How long a pulse stays low over a background of this tone.
    pub open spec fn spec_rest_ticks(self) -> u16 {
        match self {
            Tone::Black => REST_ON_BLACK_TICKS,
            Tone::White => REST_ON_WHITE_TICKS,
        }
    }

    /// The pulse of a pass that drives the whole panel to this tone.
    pub open spec fn spec_pass_timing(self) -> PulseTiming {
        PulseTiming { high: self.spec_drive_ticks(), low: self.spec_rest_ticks() }
    }

    /// The gray level of the tone.
    #[verifier::when_used_as_spec(spec_level)]
    pub fn level(self) -> (level: u8)
        ensures
            level == self.spec_level(),
    {
        match self {
            Tone::Black => BLACK,
            Tone::White => WHITE,
        }
    }

    /// How long a pulse that drives towards this tone stays high.
    #[verifier::when_used_as_spec(spec_drive_ticks)]
    pub fn drive_ticks(self) -> (ticks: u16)
        ensures
            ticks == self.spec_drive_ticks(),
    {
        match self {
            Tone::Black => DRIVE_BLACK_TICKS,
            Tone::White => DRIVE_WHITE_TICKS,
        }
    }

    /// How long a pulse stays low over a background of this tone.
    #[verifier::when_used_as_spec(spec_rest_ticks)]
    pub fn rest_ticks(self) -> (ticks: u16)
        ensures
            ticks == self.spec_rest_ticks(),
    {
        match self {
            Tone::Black => REST_ON_BLACK_TICKS,
            Tone::White => REST_ON_WHITE_TICKS,
        }
    }

    /// The pulse of a pass that drives the whole panel to this tone.
    #[verifier::when_used_as_spec(spec_pass_timing)]
    pub fn pass_timing(self) -> (timing: PulseTiming)
        ensures
            timing == self.spec_pass_timing(),
    {
        PulseTiming { high: self.drive_ticks(), low: self.rest_ticks() }
    }
}

impl DrawMode {
    /// The tone of what is drawn.
    pub open spec fn spec_foreground(self) -> Tone {
        match self {
            DrawMode::BlackOnWhite => Tone::Black,
            DrawMode::WhiteOnBlack => Tone::White,
            DrawMode::WhiteOnWhite => Tone::White,
        }
    }

    /// The tone of the background.
    pub open spec fn spec_background(self) -> Tone {
        match self {
            DrawMode::BlackOnWhite => Tone::White,
            DrawMode::WhiteOnBlack => Tone::Black,
            DrawMode::WhiteOnWhite => Tone::White,
        }
    }

    /// The pulse of a flush in this mode: high for as long as the
    /// foreground tone is driven, low for as long as the background tone
    /// rests.
    pub open spec fn spec_timing(self) -> PulseTiming {
        PulseTiming {
            high: self.spec_foreground().spec_drive_ticks(),
            low: self.spec_background().spec_rest_ticks(),
        }
    }

    /// The tone of what is drawn.
    #[verifier::when_used_as_spec(spec_foreground)]
    pub fn foreground(self) -> (tone: Tone)
        ensures
            tone == self.spec_foreground(),
    {
        match self {
            DrawMode::BlackOnWhite => Tone::Black,
            DrawMode::WhiteOnBlack => Tone::White,
            DrawMode::WhiteOnWhite => Tone::White,
        }
    }

    /// The tone of the background.
    #[verifier::when_used_as_spec(spec_background)]
    pub fn background(self) -> (tone: Tone)
        ensures
            tone == self.spec_background(),
    {
        match self {
            DrawMode::BlackOnWhite => Tone::White,
            DrawMode::WhiteOnBlack => Tone::Black,
            DrawMode::WhiteOnWhite => Tone::White,
        }
    }

    /// The pulse of a flush in this mode.
    #[verifier::when_used_as_spec(spec_timing)]
    pub fn timing(self) -> (timing: PulseTiming)
        ensures
            timing == self.spec_timing(),
    {
        PulseTiming { high: self.foreground().drive_ticks(), low: self.background().rest_ticks() }
    }
}

/// How many chunks of at most `chunk_rows` rows cover `height` rows.
pub open spec fn chunk_count(height: u32, chunk_rows: u32) -> int {
    (height + chunk_rows - 1) / (chunk_rows as int)
}

/// Chunk `index` of `height` rows: it starts `index` chunks down and has
/// `chunk_rows` rows, or what is left of the height.
pub open spec fn chunk_at(height: u32, chunk_rows: u32, index: int) -> RowChunk {
    RowChunk {
        first_row: (index * chunk_rows) as u32,
        rows: least(chunk_rows as int, height - index * chunk_rows) as u32,
    }
}

/// The chunks that cover `height` rows, top to bottom.
pub open spec fn chunks_of(height: u32, chunk_rows: u32) -> Seq<RowChunk> {
    Seq::new(chunk_count(height, chunk_rows) as nat, |i: int| chunk_at(height, chunk_rows, i))
}

/// A chunk index is below the chunk count exactly when the chunk starts
/// above the last row.
pub proof fn lemma_chunk_index(height: u32, chunk_rows: u32, index: int)
    requires
        chunk_rows > 0,
        index >= 0,
    ensures
        index * chunk_rows < height <==> index < chunk_count(height, chunk_rows),
        chunk_count(height, chunk_rows) >= 0,
{
    let c = chunk_rows as int;
    let h = height as int;
    let q = (h + c - 1) / c;
    assert(q * c <= h + c - 1 < q * c + c && q >= 0) by (nonlinear_arith)
        requires
            q == (h + c - 1) / c,
            c > 0,
            h >= 0,
    ;
    if index < q {
        assert(index * c <= q * c - c) by (nonlinear_arith)
            requires
                index <= q - 1,
                c > 0,
        ;
    } else {
        assert(index * c >= q * c) by (nonlinear_arith)
            requires
                index >= q,
                c > 0,
        ;
    }
}

/// The chunks tile the rows: each has at least one row and at most
/// `chunk_rows`, the first starts at row 0, each next one starts where the
/// one before ends, and the last ends at `height`.
pub proof fn lemma_chunks_tile(height: u32, chunk_rows: u32, index: int)
    requires
        chunk_rows > 0,
        0 <= index < chunk_count(height, chunk_rows),
    ensures
        chunk_at(height, chunk_rows, 0).first_row == 0,
        1 <= chunk_at(height, chunk_rows, index).rows <= chunk_rows,
        chunk_at(height, chunk_rows, index).first_row + chunk_at(height, chunk_rows, index).rows
            <= height,
        index + 1 < chunk_count(height, chunk_rows) ==> chunk_at(
            height,
            chunk_rows,
            index + 1,
        ).first_row == chunk_at(height, chunk_rows, index).first_row + chunk_at(
            height,
            chunk_rows,
            index,
        ).rows,
        index + 1 == chunk_count(height, chunk_rows) ==> chunk_at(
            height,
            chunk_rows,
            index,
        ).first_row + chunk_at(height, chunk_rows, index).rows == height,
{
    lemma_chunk_index(height, chunk_rows, index);
    lemma_chunk_index(height, chunk_rows, index + 1);
    assert((index + 1) * chunk_rows == index * chunk_rows + chunk_rows) by (nonlinear_arith);
    assert(0 * chunk_rows == 0);
    assert(index * chunk_rows >= 0) by (nonlinear_arith)
        requires
            index >= 0,
            chunk_rows > 0,
    ;
}

/// Cuts `height` rows into chunks of `chunk_rows` rows; the last chunk
/// takes what is left.
pub fn row_chunks(height: u32, chunk_rows: u32) -> (chunks: Vec<RowChunk>)
    requires
        chunk_rows > 0,
    ensures
        chunks@ == chunks_of(height, chunk_rows),
{
    let mut chunks: Vec<RowChunk> = Vec::new();
    let mut y: u32 = 0;
    proof {
        lemma_chunk_index(height, chunk_rows, 0);
    }
    while y < height
        invariant
            chunk_rows > 0,
            y <= height,
            0 <= chunks@.len() <= chunk_count(height, chunk_rows),
            y == least(chunks@.len() * chunk_rows, height as int),
            chunks@ == Seq::new(chunks@.len(), |i: int| chunk_at(height, chunk_rows, i)),
        decreases height - y,
    {
        let left: u32 = height - y;
        let rows: u32 = if chunk_rows < left {
            chunk_rows
        } else {
            left
        };
        let ghost index: int = chunks@.len() as int;
        let ghost before: Seq<RowChunk> = chunks@;
        proof {
            lemma_chunk_index(height, chunk_rows, index);
            lemma_chunk_index(height, chunk_rows, index + 1);
            assert((index + 1) * chunk_rows == index * chunk_rows + chunk_rows)
                by (nonlinear_arith);
        }
        chunks.push(RowChunk { first_row: y, rows });
        y = y + rows;
        proof {
            assert(chunks@ =~= Seq::new(chunks@.len(), |i: int| chunk_at(height, chunk_rows, i)));
        }
    }
    proof {
        lemma_chunk_index(height, chunk_rows, chunks@.len() as int);
        assert(chunks@ =~= chunks_of(height, chunk_rows));
    }
    chunks
}

/// The channel as chunk `index` of a flush begins: as the flush found it
/// for the first chunk, out with the pulse of the chunk before for every
/// other one.
pub open spec fn channel_before_chunk(channel: PulseChannel, index: int) -> PulseChannel {
    if index <= 0 {
        channel
    } else {
        PulseChannel { pin: channel.pin, slot: ChannelSlot::InFlight }
    }
}

/// The channel, held by the driver.
pub open spec fn held(channel: PulseChannel) -> PulseChannel {
    PulseChannel { pin: channel.pin, slot: ChannelSlot::Present }
}

/// The commands for one chunk of a flush: hand the rows over, then pulse.
pub open spec fn chunk_ops(
    channel: PulseChannel,
    chunk: RowChunk,
    timing: PulseTiming,
    wait: bool,
) -> Seq<Command> {
    seq![Command::SendRows { first_row: chunk.first_row, rows: chunk.rows }] + channel.pulse_ops(
        timing.high,
        timing.low,
        wait,
    )
}

/// The commands for the first `count` chunks of a flush. Only the pulse of
/// the last chunk waits for its transmission.
pub open spec fn transfer_ops(
    channel: PulseChannel,
    chunks: Seq<RowChunk>,
    timing: PulseTiming,
    count: nat,
) -> Seq<Command>
    decreases count,
{
    if count == 0 {
        Seq::empty()
    } else {
        transfer_ops(channel, chunks, timing, (count - 1) as nat) + chunk_ops(
            channel_before_chunk(channel, count - 1),
            chunks[count - 1],
            timing,
            count == chunks.len(),
        )
    }
}

/// The commands of a flush: every chunk of rows with its pulse, top to
/// bottom, then the wait for the panel to show the frame.
pub open spec fn flush_ops(channel: PulseChannel, mode: DrawMode) -> Seq<Command> {
    let chunks = chunks_of(DISPLAY_HEIGHT, FLUSH_CHUNK_ROWS);
    transfer_ops(channel, chunks, mode.spec_timing(), chunks.len()) + seq![
        Command::Settle { millis: REFRESH_SETTLE_MS },
    ]
}

/// The commands of one pass of a repair: the whole panel at one tone, a
/// pulse that is waited for, and a pause.
pub open spec fn pass_ops(channel: PulseChannel, tone: Tone) -> Seq<Command> {
    seq![Command::SendSolid { level: tone.spec_level() }] + channel.pulse_ops(
        tone.spec_drive_ticks(),
        tone.spec_rest_ticks(),
        true,
    ) + seq![Command::Settle { millis: REPAIR_PAUSE_MS }]
}

/// The commands of one cycle of a repair: a white pass, then a black pass.
pub open spec fn cycle_ops(channel: PulseChannel) -> Seq<Command> {
    pass_ops(channel, Tone::White) + pass_ops(held(channel), Tone::Black)
}

/// The commands of the first `count` cycles of a repair.
pub open spec fn cycles_ops(channel: PulseChannel, count: nat) -> Seq<Command>
    decreases count,
{
    if count == 0 {
        Seq::empty()
    } else {
        cycles_ops(channel, (count - 1) as nat) + cycle_ops(
            if count == 1 {
                channel
            } else {
                held(channel)
            },
        )
    }
}

/// The commands of a repair: power the panel on if it is not, run the
/// cycles of white and black passes, and power it off.
pub open spec fn repair_ops(panel: PanelState) -> Seq<Command> {
    power_on_ops(panel.rails()) + cycles_ops(panel.channel, REPAIR_CYCLES as nat) + sequence_ops(
        power_down_steps(ConfigState::spec_on()),
    )
}

/// Plans the transfer of the frame to a panel that is on.
pub fn flush_commands(channel: PulseChannel, mode: DrawMode) -> (plan: Vec<Command>)
    ensures
        plan@ == flush_ops(channel, mode),
{
    let chunks: Vec<RowChunk> = row_chunks(DISPLAY_HEIGHT, FLUSH_CHUNK_ROWS);
    let timing: PulseTiming = mode.timing();
    let mut plan: Vec<Command> = Vec::new();
    let mut current: PulseChannel = channel;
    let mut i: usize = 0;
    while i < chunks.len()
        invariant
            i <= chunks@.len(),
            current == channel_before_chunk(channel, i as int),
            plan@ == transfer_ops(channel, chunks@, timing, i as nat),
        decreases chunks@.len() - i,
    {
        let chunk: RowChunk = chunks[i];
        let last: bool = i + 1 == chunks.len();
        plan.push(Command::SendRows { first_row: chunk.first_row, rows: chunk.rows });
        let mut pulse: Vec<Command> = current.pulse(timing.high, timing.low, last);
        plan.append(&mut pulse);
        proof {
            assert(plan@ =~= transfer_ops(channel, chunks@, timing, i as nat) + chunk_ops(
                current,
                chunk,
                timing,
                last,
            ));
        }
        current = PulseChannel { pin: channel.pin, slot: ChannelSlot::InFlight };
        i = i + 1;
    }
    plan.push(Command::Settle { millis: REFRESH_SETTLE_MS });
    plan
}

/// Plans one pass of a repair.
fn pass_commands(channel: PulseChannel, tone: Tone) -> (plan: Vec<Command>)
    ensures
        plan@ == pass_ops(channel, tone),
{
    let mut plan: Vec<Command> = Vec::new();
    plan.push(Command::SendSolid { level: tone.level() });
    let mut pulse: Vec<Command> = channel.pulse(tone.drive_ticks(), tone.rest_ticks(), true);
    plan.append(&mut pulse);
    plan.push(Command::Settle { millis: REPAIR_PAUSE_MS });
    proof {
        assert(plan@ =~= pass_ops(channel, tone));
    }
    plan
}

/// Plans a repair of the panel from the state the board is in.
pub fn repair_commands(panel: PanelState) -> (plan: Vec<Command>)
    ensures
        plan@ == repair_ops(panel),
{
    let mut plan: Vec<Command> = power_on_commands(panel.register.rails());
    let ghost power_up: Seq<Command> = plan@;
    let mut current: PulseChannel = panel.channel;
    let mut i: u32 = 0;
    while i < REPAIR_CYCLES
        invariant
            i <= REPAIR_CYCLES,
            current == if i == 0 {
                panel.channel
            } else {
                held(panel.channel)
            },
            plan@ == power_up + cycles_ops(panel.channel, i as nat),
        decreases REPAIR_CYCLES - i,
    {
        let ghost before: Seq<Command> = plan@;
        let mut white: Vec<Command> = pass_commands(current, Tone::White);
        plan.append(&mut white);
        current = PulseChannel { pin: panel.channel.pin, slot: ChannelSlot::Present };
        let mut black: Vec<Command> = pass_commands(current, Tone::Black);
        plan.append(&mut black);
        proof {
            let first = if i == 0 {
                panel.channel
            } else {
                held(panel.channel)
            };
            assert(plan@ =~= power_up + (cycles_ops(panel.channel, i as nat) + cycle_ops(first)));
        }
        i = i + 1;
    }
    let down: Vec<PowerStep> = power_down_sequence(ConfigState::on());
    let mut power_down: Vec<Command> = sequence_commands(&down);
    plan.append(&mut power_down);
    plan
}

/// One chunk of a flush goes through from any channel state, and leaves
/// the channel with the driver if its pulse waits, out if it does not.
pub proof fn lemma_chunk_completes(
    panel: PanelState,
    chunk: RowChunk,
    timing: PulseTiming,
    wait: bool,
)
    ensures
        panel.accepts(chunk_ops(panel.channel, chunk, timing, wait)),
        panel.after(chunk_ops(panel.channel, chunk, timing, wait)).register == panel.register,
        panel.after(chunk_ops(panel.channel, chunk, timing, wait)).channel == (PulseChannel {
            pin: panel.channel.pin,
            slot: if wait {
                ChannelSlot::Present
            } else {
                ChannelSlot::InFlight
            },
        }),
{
    let send = Command::SendRows { first_row: chunk.first_row, rows: chunk.rows };
    lemma_after_one(panel, send);
    lemma_after_concat(panel, seq![send], panel.channel.pulse_ops(timing.high, timing.low, wait));
    lemma_pulse_completes(panel.after(seq![send]), timing.high, timing.low, wait);
}

/// The chunks of a flush before the last go through, and leave the channel
/// as the next chunk expects it.
pub proof fn lemma_transfer_proceeds(
    panel: PanelState,
    chunks: Seq<RowChunk>,
    timing: PulseTiming,
    count: nat,
)
    requires
        count < chunks.len(),
    ensures
        panel.accepts(transfer_ops(panel.channel, chunks, timing, count)),
        panel.after(transfer_ops(panel.channel, chunks, timing, count)).register
            == panel.register,
        panel.after(transfer_ops(panel.channel, chunks, timing, count)).channel
            == channel_before_chunk(panel.channel, count as int),
    decreases count,
{
    if count > 0 {
        let before = transfer_ops(panel.channel, chunks, timing, (count - 1) as nat);
        lemma_transfer_proceeds(panel, chunks, timing, (count - 1) as nat);
        let reached = panel.after(before);
        lemma_after_concat(
            panel,
            before,
            chunk_ops(reached.channel, chunks[count - 1], timing, false),
        );
        lemma_chunk_completes(reached, chunks[count - 1], timing, false);
    }
}

/// A flush goes through from any channel state: every report on its
/// commands is accepted. It leaves the register as it was and the channel
/// with the driver.
pub proof fn lemma_flush_completes(panel: PanelState, mode: DrawMode)
    ensures
        panel.accepts(flush_ops(panel.channel, mode)),
        panel.after(flush_ops(panel.channel, mode)).register == panel.register,
        panel.after(flush_ops(panel.channel, mode)).channel == held(panel.channel),
{
    let chunks = chunks_of(DISPLAY_HEIGHT, FLUSH_CHUNK_ROWS);
    let timing = mode.spec_timing();
    lemma_chunk_index(DISPLAY_HEIGHT, FLUSH_CHUNK_ROWS, 0);
    let count = chunks.len();
    assert(count > 0);
    let before = transfer_ops(panel.channel, chunks, timing, (count - 1) as nat);
    lemma_transfer_proceeds(panel, chunks, timing, (count - 1) as nat);
    let reached = panel.after(before);
    let last = chunk_ops(reached.channel, chunks[count - 1], timing, true);
    lemma_after_concat(panel, before, last);
    lemma_chunk_completes(reached, chunks[count - 1], timing, true);
    let settle = Command::Settle { millis: REFRESH_SETTLE_MS };
    lemma_after_concat(panel, before + last, seq![settle]);
    lemma_after_one(reached.after(last), settle);
}

/// One pass of a repair goes through from any channel state and leaves the
/// channel with the driver.
pub proof fn lemma_pass_completes(panel: PanelState, tone: Tone)
    ensures
        panel.accepts(pass_ops(panel.channel, tone)),
        panel.after(pass_ops(panel.channel, tone)).register == panel.register,
        panel.after(pass_ops(panel.channel, tone)).channel == held(panel.channel),
{
    let send = Command::SendSolid { level: tone.spec_level() };
    let pulse = panel.channel.pulse_ops(tone.spec_drive_ticks(), tone.spec_rest_ticks(), true);
    let pause = Command::Settle { millis: REPAIR_PAUSE_MS };
    lemma_after_one(panel, send);
    lemma_after_concat(panel, seq![send], pulse);
    lemma_pulse_completes(panel.after(seq![send]), tone.spec_drive_ticks(), tone.spec_rest_ticks(), true);
    lemma_after_concat(panel, seq![send] + pulse, seq![pause]);
    lemma_after_one(panel.after(seq![send] + pulse), pause);
}

/// The cycles of a repair go through from any channel state.
pub proof fn lemma_cycles_complete(panel: PanelState, count: nat)
    ensures
        panel.accepts(cycles_ops(panel.channel, count)),
        panel.after(cycles_ops(panel.channel, count)).register == panel.register,
        panel.after(cycles_ops(panel.channel, count)).channel == if count == 0 {
            panel.channel
        } else {
            held(panel.channel)
        },
    decreases count,
{
    if count > 0 {
        let before = cycles_ops(panel.channel, (count - 1) as nat);
        lemma_cycles_complete(panel, (count - 1) as nat);
        let reached = panel.after(before);
        let white = pass_ops(reached.channel, Tone::White);
        let black = pass_ops(held(reached.channel), Tone::Black);
        lemma_after_concat(panel, before, white + black);
        lemma_pass_completes(reached, Tone::White);
        lemma_after_concat(reached, white, black);
        lemma_pass_completes(reached.after(white), Tone::Black);
    }
}

/// A repair goes through from any state of the board, with no power-on
/// before it: every report on its commands is accepted, and it ends with
/// the panel off and the channel with the driver.
pub proof fn lemma_repair_completes(panel: PanelState)
    ensures
        panel.accepts(repair_ops(panel)),
        spec_power_state(panel.after(repair_ops(panel)).rails()) == PowerState::Off,
        panel.after(repair_ops(panel)).channel == held(panel.channel),
{
    let up = power_on_ops(panel.rails());
    let cycles = cycles_ops(panel.channel, REPAIR_CYCLES as nat);
    let down = sequence_ops(power_down_steps(ConfigState::spec_on()));
    lemma_power_on_settles(panel);
    let powered = panel.after(up);
    lemma_after_concat(panel, up, cycles);
    lemma_cycles_complete(powered, REPAIR_CYCLES as nat);
    let cycled = powered.after(cycles);
    lemma_after_concat(panel, up + cycles, down);
    lemma_sequence_commits(cycled, power_down_steps(ConfigState::spec_on()));
}

} // verus!
