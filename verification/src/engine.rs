//! The copy run itself: its start, and what follows each read and write.
//!
//! The engine reads and writes nothing. It says what to do next, and is told
//! how it went: [`Engine::next_block`] gives the size of the next block to
//! read, [`Engine::read_completed`] takes what was read and gives the block
//! to write and its place, and [`Engine::write_completed`] takes the outcome
//! of the write and counts the block.

use crate::bitmap::flipped;
use crate::config::{RandomDd, Settings, StatusLevel};
use crate::format::size_text;
use crate::random::{last_offset, uniform_inclusive};
use crate::text::{decimal_digits, push_decimal};
use crate::size::{normal_form, size_of_text, SizeError, SizeFault};
use rand::rngs::StdRng;
use vstd::prelude::*;
use vstd::string::*;

verus! {

/// Why a run could not start, as contracts speak of it.
pub enum StartFault {
    /// The destination holds no bytes.
    EmptyOutput,
    /// Not even the smallest block fits into the destination.
    BlockTooLarge { block: u64, output: u64 },
    /// The throughput limit could not be read.
    Speed(SizeFault),
}

/// Why a run could not start.
#[derive(Debug)]
pub enum StartError {
    /// The destination holds no bytes.
    EmptyOutput,
    /// Not even the smallest block fits into the destination.
    BlockTooLarge { block: u64, output: u64 },
    /// The throughput limit could not be read.
    Speed(SizeError),
}

impl View for StartError {
    type V = StartFault;

    open spec fn view(&self) -> StartFault {
        match self {
            StartError::EmptyOutput => StartFault::EmptyOutput,
            StartError::BlockTooLarge { block, output } => StartFault::BlockTooLarge {
                block: *block,
                output: *output,
            },
            StartError::Speed(e) => StartFault::Speed(e@),
        }
    }
}

impl StartFault {
    /// The refusal in words; `output_name` is how the destination is called
    /// in them.
    pub open spec fn message(self, output_name: Seq<char>) -> Seq<char> {
        match self {
            StartFault::EmptyOutput => "Output file "@ + output_name
                + " has zero size, cannot write to random positions"@,
            StartFault::BlockTooLarge { block, output } => "Block size ("@ + size_text(block)
                + ") is larger than output file size ("@ + size_text(output)
                + "), cannot write to random positions"@,
            StartFault::Speed(fault) => "Failed to parse speed: "@ + fault.message(),
        }
    }
}

impl StartError {
    /// The refusal in words; `output_name` is how the destination is called
    /// in them.
    pub fn message(&self, output_name: &str) -> (text: String)
        ensures
            text@ == self@.message(output_name@),
    {
        match self {
            StartError::EmptyOutput => {
                let mut text = String::from_str("Output file ");
                text.append(output_name);
                text.append(" has zero size, cannot write to random positions");
                text
            },
            StartError::BlockTooLarge { block, output } => {
                let mut text = String::from_str("Block size (");
                text.append(RandomDd::format_size(*block).as_str());
                text.append(") is larger than output file size (");
                text.append(RandomDd::format_size(*output).as_str());
                text.append("), cannot write to random positions");
                text
            },
            StartError::Speed(e) => String::from_str("Failed to parse speed: ").concat(
                e.message().as_str(),
            ),
        }
    }
}

/// The quotient of `a` by `b`, rounded up.
pub open spec fn div_ceil(a: nat, b: nat) -> nat
    recommends
        b > 0,
{
    if a % b == 0 {
        a / b
    } else {
        a / b + 1
    }
}

/// What an [`Engine`] holds, as contracts speak of it.
pub struct EngineState {
    /// The smallest block that is read at once, in bytes.
    pub bs_min: u64,
    /// The largest block that is read at once, in bytes.
    pub bs_max: u64,
    /// Whether a failed read or write lets the run go on.
    pub noerror: bool,
    /// Whether a block that could not be filled is padded with zeros.
    pub sync: bool,
    /// How much the run reports.
    pub status_level: StatusLevel,
    /// The size of the destination in bytes.
    pub output_size: u64,
    /// The number of blocks after which the run stops, if there is one.
    pub max_blocks: Option<u64>,
    /// The throughput limit in bytes per second, if there is one.
    pub speed_limit: Option<u64>,
    /// The number of bits of the coverage bitmap: one for each stretch of
    /// `bs_min` bytes of the destination.
    pub bitarray_size: u64,
    /// The coverage bitmap; empty unless the status level asks for it.
    pub bitarray: Seq<u8>,
    /// The bytes written so far, counted modulo 2^64.
    pub bytes_copied: u64,
    /// The blocks written so far.
    pub blocks_processed: u64,
}

impl EngineState {
    /// What holds of every engine: the block sizes are positive and in
    /// order, the smallest block fits into the destination, and the bitmap
    /// has one bit for each stretch of `bs_min` bytes, or is empty.
    pub open spec fn wf(self) -> bool {
        &&& 0 < self.bs_min <= self.bs_max
        &&& self.bs_min <= self.output_size
        &&& self.bitarray_size == div_ceil(self.output_size as nat, self.bs_min as nat)
        &&& self.bitarray.len() == if self.status_level == StatusLevel::BitArray {
            div_ceil(self.bitarray_size as nat, 8)
        } else {
            0
        }
    }

    /// Whether the run has written as many blocks as it was to write.
    pub open spec fn finished(self) -> bool {
        self.max_blocks matches Some(max) && self.blocks_processed >= max
    }

    /// The state after a block of `len` bytes was written at `pos`: the bit
    /// of the stretch that `pos` lies in is flipped where the bitmap is
    /// kept, and the block and its bytes are counted.
    pub open spec fn counted(self, pos: u64, len: u64) -> EngineState {
        EngineState {
            bitarray: if self.status_level == StatusLevel::BitArray {
                flipped(self.bitarray, (pos / self.bs_min) as nat)
            } else {
                self.bitarray
            },
            bytes_copied: ((self.bytes_copied + len) % 0x1_0000_0000_0000_0000) as u64,
            blocks_processed: (self.blocks_processed + 1) as u64,
            ..self
        }
    }
}

/// Why the destination of the given size cannot be written to with these
/// settings, if it cannot.
pub open spec fn output_fault(settings: Settings, output_size: u64) -> Option<StartFault> {
    if output_size == 0 {
        Some(StartFault::EmptyOutput)
    } else if settings.bs_min > output_size {
        Some(StartFault::BlockTooLarge { block: settings.bs_min, output: output_size })
    } else {
        None
    }
}

/// The state in which a run starts: nothing is written yet and the bitmap,
/// where it is kept, is clear.
pub open spec fn initial_state(
    settings: Settings,
    output_size: u64,
    speed_limit: Option<u64>,
) -> EngineState {
    let bits = div_ceil(output_size as nat, settings.bs_min as nat);
    EngineState {
        bs_min: settings.bs_min,
        bs_max: settings.bs_max,
        noerror: settings.noerror,
        sync: settings.sync,
        status_level: settings.status_level,
        output_size,
        max_blocks: settings.args.count,
        speed_limit,
        bitarray_size: bits as u64,
        bitarray: if settings.status_level == StatusLevel::BitArray {
            Seq::new(div_ceil(bits, 8), |i: int| 0u8)
        } else {
            Seq::empty()
        },
        bytes_copied: 0,
        blocks_processed: 0,
    }
}

/// How a run with an already known throughput limit starts, or why it
/// does not.
pub open spec fn start_with_limit(
    settings: Settings,
    output_size: u64,
    speed_limit: Option<u64>,
) -> Result<EngineState, StartFault> {
    match output_fault(settings, output_size) {
        Some(fault) => Err(fault),
        None => Ok(initial_state(settings, output_size, speed_limit)),
    }
}

/// The throughput limit that the settings name, if they name one.
pub open spec fn speed_limit_of(settings: Settings) -> Result<Option<u64>, SizeFault> {
    match settings.args.speed {
        None => Ok(None),
        Some(text) => match size_of_text(normal_form(text@)) {
            Ok(limit) => Ok(Some(limit)),
            Err(fault) => Err(fault),
        },
    }
}

/// How a run starts, or why it does not. The destination is judged before
/// the throughput limit is read.
pub open spec fn start_of(settings: Settings, output_size: u64) -> Result<
    EngineState,
    StartFault,
> {
    match output_fault(settings, output_size) {
        Some(fault) => Err(fault),
        None => match speed_limit_of(settings) {
            Err(fault) => Err(StartFault::Speed(fault)),
            Ok(speed_limit) => Ok(initial_state(settings, output_size, speed_limit)),
        },
    }
}

/// The number of bytes that a bitmap of `bits` bits takes.
pub open spec fn bitmap_bytes(output_size: u64, bs_min: u64) -> nat {
    div_ceil(div_ceil(output_size as nat, bs_min as nat), 8)
}

/// A copy run in progress.
#[derive(Debug)]
pub struct Engine {
    bs_min: u64,
    bs_max: u64,
    noerror: bool,
    sync: bool,
    status_level: StatusLevel,
    output_size: u64,
    max_blocks: Option<u64>,
    speed_limit: Option<u64>,
    bitarray_size: u64,
    bitarray: Vec<u8>,
    bytes_copied: u64,
    blocks_processed: u64,
}

impl View for Engine {
    type V = EngineState;

    closed spec fn view(&self) -> EngineState {
        EngineState {
            bs_min: self.bs_min,
            bs_max: self.bs_max,
            noerror: self.noerror,
            sync: self.sync,
            status_level: self.status_level,
            output_size: self.output_size,
            max_blocks: self.max_blocks,
            speed_limit: self.speed_limit,
            bitarray_size: self.bitarray_size,
            bitarray: self.bitarray@,
            bytes_copied: self.bytes_copied,
            blocks_processed: self.blocks_processed,
        }
    }
}

fn quotient_up(a: u64, b: u64) -> (q: u64)
    requires
        b > 0,
    ensures
        q == div_ceil(a as nat, b as nat),
{
    if a % b == 0 {
        a / b
    } else {
        assert(a / b < u64::MAX) by (nonlinear_arith)
            requires
                a % b != 0,
                a <= u64::MAX,
                b > 0,
        ;
        a / b + 1
    }
}

impl RandomDd {
    /// Where the first read starts in the source: as many largest blocks
    /// from its beginning as the settings pass over, and no further than
    /// the largest offset of 64 bits. `None` where nothing is passed over.
    pub fn skip_offset(&self) -> (offset: Option<u64>)
        ensures
            offset == match self@.args.skip {
                None => None::<u64>,
                Some(blocks) => Some(
                    if blocks * self@.bs_max > u64::MAX {
                        u64::MAX
                    } else {
                        (blocks * self@.bs_max) as u64
                    },
                ),
            },
    {
        match self.args().skip {
            None => None,
            Some(blocks) => match blocks.checked_mul(self.bs_max()) {
                Some(offset) => Some(offset),
                None => Some(u64::MAX),
            },
        }
    }

    /// Whether an engine can be made for a destination of `output_size`
    /// bytes: the bitmap, where one is kept, fits into memory.
    pub open spec fn can_start(self, output_size: u64) -> bool {
        self@.status_level == StatusLevel::BitArray ==> bitmap_bytes(output_size, self@.bs_min)
            <= usize::MAX
    }

    /// Judges the destination, then reads the throughput limit.
    fn preflight(&self, output_size: u64) -> (limit: Result<Option<u64>, StartError>)
        ensures
            match limit {
                Ok(speed_limit) => {
                    &&& output_fault(self@, output_size) is None
                    &&& speed_limit_of(self@) == Ok::<Option<u64>, SizeFault>(speed_limit)
                },
                Err(e) => start_of(self@, output_size) == Err::<EngineState, StartFault>(e@),
            },
    {
        if output_size == 0 {
            return Err(StartError::EmptyOutput);
        }
        if self.bs_min() > output_size {
            return Err(StartError::BlockTooLarge { block: self.bs_min(), output: output_size });
        }
        match &self.args().speed {
            None => Ok(None),
            Some(text) => match RandomDd::parse_size(text.as_str()) {
                Ok(limit) => Ok(Some(limit)),
                Err(e) => Err(StartError::Speed(e)),
            },
        }
    }

    /// Whether the bitmap for a destination of `output_size` bytes fits
    /// into memory, where one is kept.
    fn bitmap_fits(&self, output_size: u64) -> (fits: bool)
        ensures
            fits == self.can_start(output_size),
    {
        if self.status_level() == StatusLevel::BitArray {
            let bits = quotient_up(output_size, self.bs_min());
            quotient_up(bits, 8) <= usize::MAX as u64
        } else {
            true
        }
    }

    /// Starts a run on a destination of `output_size` bytes, with the
    /// throughput limit already read.
    pub fn start_with(&self, output_size: u64, speed_limit: Option<u64>) -> (started: Result<
        Engine,
        StartError,
    >)
        requires
            start_with_limit(self@, output_size, speed_limit) is Ok ==> self.can_start(output_size),
        ensures
            match started {
                Ok(engine) => start_with_limit(self@, output_size, speed_limit) == Ok::<
                    EngineState,
                    StartFault,
                >(engine@) && engine@.wf(),
                Err(e) => start_with_limit(self@, output_size, speed_limit) == Err::<
                    EngineState,
                    StartFault,
                >(e@),
            },
    {
        let bs_min = self.bs_min();
        if output_size == 0 {
            return Err(StartError::EmptyOutput);
        }
        if bs_min > output_size {
            return Err(StartError::BlockTooLarge { block: bs_min, output: output_size });
        }
        let bitarray_size = quotient_up(output_size, bs_min);
        let bitarray: Vec<u8> = if self.status_level() == StatusLevel::BitArray {
            let byte_count = quotient_up(bitarray_size, 8);
            vec![0u8; byte_count as usize]
        } else {
            Vec::new()
        };
        let engine = Engine {
            bs_min,
            bs_max: self.bs_max(),
            noerror: self.noerror(),
            sync: self.sync(),
            status_level: self.status_level(),
            output_size,
            max_blocks: self.args().count,
            speed_limit,
            bitarray_size,
            bitarray,
            bytes_copied: 0,
            blocks_processed: 0,
        };
        assert(engine@.bitarray =~= initial_state(self@, output_size, speed_limit).bitarray);
        Ok(engine)
    }

    /// Starts a run on a destination of `output_size` bytes.
    ///
    /// The settings and the destination are refused as [`start_of`] says.
    /// Where they are not, an engine must be possible for them: see
    /// [`RandomDd::try_start`] for a start without that demand.
    pub fn start(&self, output_size: u64) -> (started: Result<Engine, StartError>)
        requires
            start_of(self@, output_size) is Ok ==> self.can_start(output_size),
        ensures
            match started {
                Ok(engine) => start_of(self@, output_size) == Ok::<EngineState, StartFault>(
                    engine@,
                ) && engine@.wf(),
                Err(e) => start_of(self@, output_size) == Err::<EngineState, StartFault>(e@),
            },
    {
        match self.preflight(output_size) {
            Err(e) => Err(e),
            Ok(speed_limit) => self.start_with(output_size, speed_limit),
        }
    }

    /// Starts a run on a destination of `output_size` bytes, as
    /// [`RandomDd::start`] does. `None` where nothing is to be refused and
    /// yet no engine can be made: the bitmap does not fit into memory.
    pub fn try_start(&self, output_size: u64) -> (started: Option<Result<Engine, StartError>>)
        ensures
            match started {
                Some(Ok(engine)) => start_of(self@, output_size) == Ok::<EngineState, StartFault>(
                    engine@,
                ) && engine@.wf(),
                Some(Err(e)) => start_of(self@, output_size) == Err::<EngineState, StartFault>(
                    e@,
                ),
                None => start_of(self@, output_size) is Ok && !self.can_start(output_size),
            },
    {
        match self.preflight(output_size) {
            Err(e) => Some(Err(e)),
            Ok(speed_limit) => {
                if !self.bitmap_fits(output_size) {
                    None
                } else {
                    Some(self.start_with(output_size, speed_limit))
                }
            },
        }
    }
}

/// What came of reading a block from the source.
#[derive(Debug)]
pub enum ReadOutcome {
    /// The bytes that were read. They fill the block, or they are all that
    /// the source had left when its end was reached: fewer than the block,
    /// or none.
    Data(Vec<u8>),
    /// The source could not be read.
    Failed,
}

/// What went wrong in the source or the destination.
#[derive(Debug, Clone, Copy, PartialEq, Eq, Structural)]
pub enum Fault {
    /// The source could not be read.
    Input,
    /// The source did not say where it stands.
    InputPosition,
    /// The source could not be moved past what could not be read.
    InputSeek,
    /// The destination could not be moved to the offset `pos`.
    OutputSeek { pos: u64 },
    /// The destination could not be written.
    Output,
    /// The destination could not be flushed.
    Flush,
}

impl Fault {
    /// What went wrong, in words.
    pub open spec fn what(self) -> Seq<char> {
        match self {
            Fault::Input => "Input error"@,
            Fault::InputPosition => "Failed to get input position"@,
            Fault::InputSeek => "Failed to seek past error"@,
            Fault::OutputSeek { pos } => "Failed to seek output to "@ + decimal_digits(pos as nat),
            Fault::Output => "Output error"@,
            Fault::Flush => "Flush error"@,
        }
    }

    /// The words for a failure that breaks the run off; `cause` is what the
    /// source or the destination said of it.
    pub open spec fn message(self, cause: Seq<char>) -> Seq<char> {
        self.what() + ": "@ + cause
    }

    /// The words for a failure after which the run goes on.
    pub open spec fn notice(self, cause: Seq<char>) -> Seq<char> {
        if self == Fault::Flush {
            self.message(cause)
        } else {
            self.what() + " (continuing): "@ + cause
        }
    }

    fn describe(&self) -> (text: String)
        ensures
            text@ == self.what(),
    {
        match self {
            Fault::Input => String::from_str("Input error"),
            Fault::InputPosition => String::from_str("Failed to get input position"),
            Fault::InputSeek => String::from_str("Failed to seek past error"),
            Fault::OutputSeek { pos } => {
                let mut text = String::from_str("Failed to seek output to ");
                push_decimal(&mut text, *pos);
                text
            },
            Fault::Output => String::from_str("Output error"),
            Fault::Flush => String::from_str("Flush error"),
        }
    }

    /// Puts a failure that breaks the run off into words; `cause` is what
    /// the source or the destination said of it.
    pub fn fatal_text(&self, cause: &str) -> (text: String)
        ensures
            text@ == self.message(cause@),
    {
        let mut text = self.describe();
        text.append(": ");
        text.append(cause);
        text
    }

    /// Puts a failure after which the run goes on into words.
    pub fn notice_text(&self, cause: &str) -> (text: String)
        ensures
            text@ == self.notice(cause@),
    {
        let mut text = self.describe();
        match self {
            Fault::Flush => {
                text.append(": ");
            },
            _ => {
                text.append(" (continuing): ");
            },
        }
        text.append(cause);
        text
    }
}

/// What to do after a read, as contracts speak of it.
pub enum ReadPlan {
    /// Write this block.
    Write(Seq<u8>),
    /// Move the source forward by this many bytes and go on with the next
    /// block; nothing is written or counted.
    Skip(u64),
    /// The source is at its end: the run is over.
    Finish,
    /// Break the run off.
    Fail(Fault),
}

/// What to do after a read.
#[derive(Debug)]
pub enum ReadStep {
    /// Write `data` at the offset `pos` of the destination, then flush.
    Write { pos: u64, data: Vec<u8> },
    /// Move the source forward by `len` bytes and go on with the next
    /// block; nothing is written or counted.
    Skip { len: u64 },
    /// The source is at its end: the run is over.
    Finish,
    /// Break the run off.
    Fail(Fault),
}

/// What came of writing a block to the destination.
#[derive(Debug, Clone, Copy, PartialEq, Eq, Structural)]
pub enum WriteOutcome {
    /// The block was written and flushed.
    Done,
    /// The destination could not be moved to the block's offset.
    SeekFailed,
    /// The block could not be written.
    WriteFailed,
    /// The block was written and could not be flushed.
    FlushFailed,
}

/// What to do after a write.
#[derive(Debug, Clone, Copy, PartialEq, Eq, Structural)]
pub enum WriteStep {
    /// The block is counted; go on with the next one.
    Counted,
    /// The block is not counted; go on with the next one.
    Dropped(Fault),
    /// Break the run off.
    Fail(Fault),
}

/// A block of `n` zero bytes.
pub open spec fn zeros(n: nat) -> Seq<u8> {
    Seq::new(n, |i: int| 0u8)
}

/// The block that is written for the bytes that a read gave: the bytes
/// themselves, cut to the block's size; where they are fewer, with zeros to
/// the block's size after them if `sync` is set.
pub open spec fn block_of(data: Seq<u8>, chunk: nat, sync: bool) -> Seq<u8> {
    if data.len() >= chunk {
        data.take(chunk as int)
    } else if sync {
        data + zeros((chunk - data.len()) as nat)
    } else {
        data
    }
}

/// The failure that an outcome of a write at `pos` stands for.
pub open spec fn fault_of(outcome: WriteOutcome, pos: u64) -> Fault
    recommends
        outcome != WriteOutcome::Done,
{
    match outcome {
        WriteOutcome::SeekFailed => Fault::OutputSeek { pos },
        WriteOutcome::FlushFailed => Fault::Flush,
        _ => Fault::Output,
    }
}

impl EngineState {
    /// What follows a read of a block of `chunk` bytes.
    ///
    /// Bytes that fill the block are written. An end of the source with
    /// nothing left ends the run; with something left, that is written,
    /// padded where `sync` is set. A failed read breaks the run off unless
    /// `noerror` is set; then a block of zeros is written where `sync` is
    /// set, and the source is moved past the block where it is not.
    pub open spec fn read_plan(self, chunk: u64, outcome: ReadOutcome) -> ReadPlan {
        match outcome {
            ReadOutcome::Data(data) => if data@.len() == 0 && chunk > 0 {
                ReadPlan::Finish
            } else {
                ReadPlan::Write(block_of(data@, chunk as nat, self.sync))
            },
            ReadOutcome::Failed => if !self.noerror {
                ReadPlan::Fail(Fault::Input)
            } else if self.sync {
                ReadPlan::Write(zeros(chunk as nat))
            } else {
                ReadPlan::Skip(chunk)
            },
        }
    }

    /// What follows a write of `len` bytes at `pos`, and the state after it.
    ///
    /// A block that was written is counted. One that was not breaks the run
    /// off unless `noerror` is set; then it is dropped, and nothing is
    /// counted.
    pub open spec fn write_plan(self, pos: u64, len: u64, outcome: WriteOutcome) -> (
        EngineState,
        WriteStep,
    ) {
        if outcome == WriteOutcome::Done {
            (self.counted(pos, len), WriteStep::Counted)
        } else if self.noerror {
            (self, WriteStep::Dropped(fault_of(outcome, pos)))
        } else {
            (self, WriteStep::Fail(fault_of(outcome, pos)))
        }
    }
}

/// The state after the blocks of `writes` were written and counted, one
/// after the other; each is given by its offset and its length.
pub open spec fn after_writes(state: EngineState, writes: Seq<(u64, u64)>) -> EngineState
    decreases writes.len(),
{
    if writes.len() == 0 {
        state
    } else {
        after_writes(state, writes.drop_last()).counted(writes.last().0, writes.last().1)
    }
}

/// The bytes of the blocks of `writes` together.
pub open spec fn bytes_of(writes: Seq<(u64, u64)>) -> nat
    decreases writes.len(),
{
    if writes.len() == 0 {
        0
    } else {
        bytes_of(writes.drop_last()) + writes.last().1 as nat
    }
}

/// A run that is to write `count` blocks is finished when `count` blocks
/// are counted, and not before; it has then counted the bytes of all of them.
pub proof fn lemma_stops_after_count(state: EngineState, writes: Seq<(u64, u64)>, count: u64)
    requires
        state.max_blocks == Some(count),
        state.blocks_processed == 0,
        state.bytes_copied == 0,
        writes.len() <= count,
    ensures
        after_writes(state, writes).max_blocks == Some(count),
        after_writes(state, writes).blocks_processed == writes.len(),
        after_writes(state, writes).finished() <==> writes.len() == count,
        after_writes(state, writes).bytes_copied == bytes_of(writes) % 0x1_0000_0000_0000_0000,
    decreases writes.len(),
{
    if writes.len() > 0 {
        let before = writes.drop_last();
        lemma_stops_after_count(state, before, count);
        vstd::arithmetic::div_mod::lemma_add_mod_noop(
            bytes_of(before) as int,
            writes.last().1 as int,
            0x1_0000_0000_0000_0000,
        );
        vstd::arithmetic::div_mod::lemma_small_mod(
            writes.last().1 as nat,
            0x1_0000_0000_0000_0000,
        );
    }
}

/// Counting a block leaves an engine as sound as it was.
pub proof fn lemma_counted_is_sound(state: EngineState, pos: u64, len: u64)
    requires
        state.wf(),
    ensures
        state.counted(pos, len).wf(),
{
}

/// A read that fills its block has the bytes written as they were read,
/// whatever the settings.
pub proof fn lemma_full_block_is_written(state: EngineState, chunk: u64, data: Vec<u8>)
    requires
        chunk > 0,
        data@.len() == chunk,
    ensures
        state.read_plan(chunk, ReadOutcome::Data(data)) == ReadPlan::Write(data@),
{
    assert(data@.take(chunk as int) =~= data@);
}

/// Without `sync`, a source that ends before it fills a block has what is
/// left of it written as one block of that length, and the read after that,
/// which finds nothing, ends the run.
pub proof fn lemma_short_source_ends_run(
    state: EngineState,
    chunk: u64,
    left: Vec<u8>,
    next_chunk: u64,
    nothing: Vec<u8>,
)
    requires
        !state.sync,
        0 < left@.len() < chunk,
        next_chunk > 0,
        nothing@.len() == 0,
    ensures
        state.read_plan(chunk, ReadOutcome::Data(left)) == ReadPlan::Write(left@),
        state.read_plan(next_chunk, ReadOutcome::Data(nothing)) == ReadPlan::Finish,
{
}

/// With `sync`, a source that ends before it fills a block has what is left
/// of it written with zeros after it: the block has the size that was asked
/// for, starts with the bytes that were read, and is zero from there on.
pub proof fn lemma_short_block_is_padded(state: EngineState, chunk: u64, left: Vec<u8>)
    requires
        state.sync,
        0 < left@.len() < chunk,
    ensures
        state.read_plan(chunk, ReadOutcome::Data(left)) == ReadPlan::Write(
            block_of(left@, chunk as nat, true),
        ),
        block_of(left@, chunk as nat, true).len() == chunk,
        block_of(left@, chunk as nat, true).take(left@.len() as int) == left@,
        forall|i: int|
            left@.len() <= i < chunk ==> #[trigger] block_of(left@, chunk as nat, true)[i] == 0,
{
    assert(block_of(left@, chunk as nat, true).take(left@.len() as int) =~= left@);
}

/// A block that lies within the destination starts in a stretch that has a
/// bit in the bitmap.
pub proof fn lemma_block_has_its_bit(state: EngineState, pos: u64, len: u64)
    requires
        state.wf(),
        len > 0,
        pos + len <= state.output_size,
    ensures
        pos / state.bs_min < state.bitarray_size,
        state.status_level == StatusLevel::BitArray ==> (pos / state.bs_min) / 8
            < state.bitarray.len(),
{
    let size = state.output_size as int;
    let block = state.bs_min as int;
    assert(pos as int / block < div_ceil(size as nat, block as nat)) by (nonlinear_arith)
        requires
            0 <= pos < size,
            block > 0,
            div_ceil(size as nat, block as nat) == if size % block == 0 {
                size / block
            } else {
                size / block + 1
            },
    ;
}

impl Engine {
    #[verifier::type_invariant]
    spec fn sound(self) -> bool {
        self@.wf()
    }

    /// The size of the next block to read, or `None` where the run has
    /// written as many blocks as it was to write. A fixed block size is
    /// taken as it is; a range is drawn from.
    pub fn next_block(&self, rng: &mut StdRng) -> (chunk: Option<u64>)
        ensures
            self@.wf(),
            self@.finished() <==> chunk is None,
            chunk matches Some(len) ==> self@.bs_min <= len <= self@.bs_max,
    {
        proof {
            use_type_invariant(self);
        }
        if let Some(max) = self.max_blocks {
            if self.blocks_processed >= max {
                return None;
            }
        }
        if self.bs_min == self.bs_max {
            Some(self.bs_min)
        } else {
            Some(uniform_inclusive(rng, self.bs_min, self.bs_max))
        }
    }

    /// Takes what a read of a block of `chunk` bytes gave, and says what to
    /// do with it. A block to write comes with the offset to write it at,
    /// drawn among those at which it ends within the destination; a block
    /// longer than the destination goes to its start.
    pub fn read_completed(&self, chunk: u64, outcome: ReadOutcome, rng: &mut StdRng) -> (step:
        ReadStep)
        requires
            chunk <= usize::MAX,
        ensures
            self@.wf(),
            match step {
                ReadStep::Write { pos, data } => {
                    &&& self@.read_plan(chunk, outcome) == ReadPlan::Write(data@)
                    &&& pos <= last_offset(self@.output_size, data@.len() as u64)
                    &&& data@.len() <= self@.output_size ==> pos + data@.len()
                        <= self@.output_size
                },
                ReadStep::Skip { len } => self@.read_plan(chunk, outcome) == ReadPlan::Skip(len),
                ReadStep::Finish => self@.read_plan(chunk, outcome) == ReadPlan::Finish,
                ReadStep::Fail(fault) => self@.read_plan(chunk, outcome) == ReadPlan::Fail(fault),
            },
    {
        proof {
            use_type_invariant(self);
        }
        let block = match outcome {
            ReadOutcome::Data(data) => {
                let mut data = data;
                let ghost read = data@;
                if data.len() == 0 && chunk > 0 {
                    return ReadStep::Finish;
                }
                if data.len() as u64 >= chunk {
                    data.truncate(chunk as usize);
                } else if self.sync {
                    data.resize(chunk as usize, 0u8);
                    assert(data@ =~= read + zeros((chunk - read.len()) as nat));
                }
                data
            },
            ReadOutcome::Failed => {
                if !self.noerror {
                    return ReadStep::Fail(Fault::Input);
                }
                if !self.sync {
                    return ReadStep::Skip { len: chunk };
                }
                let block = vec![0u8; chunk as usize];
                assert(block@ =~= zeros(chunk as nat));
                block
            },
        };
        let last = self.output_size.saturating_sub(block.len() as u64);
        let pos = uniform_inclusive(rng, 0, last);
        ReadStep::Write { pos, data: block }
    }

    /// Where the source is moved to when a block of `len` bytes that starts
    /// at `position` is passed over: behind the block, and no further than
    /// the largest offset of 64 bits.
    pub fn skip_target(position: u64, len: u64) -> (target: u64)
        ensures
            target == if position + len > u64::MAX {
                u64::MAX
            } else {
                (position + len) as u64
            },
    {
        position.saturating_add(len)
    }

    /// Takes the outcome of writing `len` bytes at `pos`, and says how the
    /// run goes on. A block that was written is counted, and the bit of the
    /// stretch of the destination that it starts in is flipped.
    pub fn write_completed(&mut self, pos: u64, len: u64, outcome: WriteOutcome) -> (step:
        WriteStep)
        requires
            outcome == WriteOutcome::Done ==> old(self)@.blocks_processed < u64::MAX,
        ensures
            final(self)@ == old(self)@.write_plan(pos, len, outcome).0,
            step == old(self)@.write_plan(pos, len, outcome).1,
            final(self)@.wf(),
    {
        proof {
            use_type_invariant(&*self);
        }
        match outcome {
            WriteOutcome::Done => {
                if self.status_level == StatusLevel::BitArray {
                    RandomDd::flip_bit(&mut self.bitarray, pos / self.bs_min);
                }
                self.bytes_copied = self.bytes_copied.wrapping_add(len);
                self.blocks_processed = self.blocks_processed + 1;
                WriteStep::Counted
            },
            WriteOutcome::SeekFailed => self.failed(Fault::OutputSeek { pos }),
            WriteOutcome::WriteFailed => self.failed(Fault::Output),
            WriteOutcome::FlushFailed => self.failed(Fault::Flush),
        }
    }

    fn failed(&self, fault: Fault) -> (step: WriteStep)
        ensures
            step == if self@.noerror {
                WriteStep::Dropped(fault)
            } else {
                WriteStep::Fail(fault)
            },
    {
        if self.noerror {
            WriteStep::Dropped(fault)
        } else {
            WriteStep::Fail(fault)
        }
    }

    /// How much the run reports.
    pub fn status_level(&self) -> (level: StatusLevel)
        ensures
            level == self@.status_level,
    {
        self.status_level
    }

    /// The bytes written so far.
    pub fn bytes_copied(&self) -> (bytes: u64)
        ensures
            bytes == self@.bytes_copied,
    {
        self.bytes_copied
    }

    /// The blocks written so far.
    pub fn blocks_processed(&self) -> (blocks: u64)
        ensures
            blocks == self@.blocks_processed,
    {
        self.blocks_processed
    }

    /// The size of the destination in bytes.
    pub fn output_size(&self) -> (bytes: u64)
        ensures
            bytes == self@.output_size,
    {
        self.output_size
    }

    /// The number of blocks after which the run stops, if there is one.
    pub fn max_blocks(&self) -> (blocks: Option<u64>)
        ensures
            blocks == self@.max_blocks,
    {
        self.max_blocks
    }

    /// The throughput limit in bytes per second, if there is one.
    pub fn speed_limit(&self) -> (limit: Option<u64>)
        ensures
            limit == self@.speed_limit,
    {
        self.speed_limit
    }

    /// The number of bits of the coverage bitmap.
    pub fn bitarray_size(&self) -> (bits: u64)
        ensures
            bits == self@.bitarray_size,
    {
        self.bitarray_size
    }

    /// The coverage bitmap; empty unless the status level asks for it.
    pub fn bitarray(&self) -> (bytes: &Vec<u8>)
        ensures
            bytes@ == self@.bitarray,
    {
        &self.bitarray
    }
}

} // verus!
