//! The session facade: at most one live session per process, owning
//! the saved terminal attributes, the output channel, the cell grid and
//! the input decoder.
//!
//! Opening computes the raw-mode attributes and queues the opening
//! escape bundle; closing queues the inverse bundle and hands back the
//! saved attributes to restore. The syscalls that apply them happen
//! outside the library, so an embedding program drives a session
//! through plain values: bytes to write, bytes that were read.

use vstd::prelude::*;
use crate::color::Color;
use crate::event::InitError;
use crate::grid::{BoundsError, Cell, CellGrid, spec_default_cell};
use crate::input::{DecodeResult, EscState, InputDecoder, spec_feed_burst, spec_finish,
    spec_emitted};
use crate::output::{FlushControl, OutputChannel, WriteOutcome};
use crate::render::{render_frame, spec_frame_bytes};
use crate::style::Style;
use crate::termcodes::{push_enter_ca, push_enter_keypad, push_hide_cursor, push_sgr0,
    push_clear_screen, push_show_cursor, push_exit_ca, push_exit_keypad, spec_enter_ca,
    spec_enter_keypad, spec_hide_cursor, spec_sgr0, spec_clear_screen, spec_show_cursor,
    spec_exit_ca, spec_exit_keypad};
use crate::termmode::{TermAttrs, RAW_IFLAG_CLEAR, RAW_LFLAG_CLEAR, OPOST, CSIZE, PARENB, CS8,
    VMIN, VTIME};
use vstd::string::StrSliceExecFns;

verus! {

/// How escape sequences in the input are to be interpreted.
#[derive(Clone, Copy, PartialEq, Eq, Structural, Debug)]
pub enum InputMode {
    /// Keep the mode already in force.
    Current,
    /// An unmatched ESC is the Esc key.
    Esc,
    /// An unmatched ESC marks the next key with an Alt modifier.
    Alt,
    /// As `Esc`, with mouse events enabled.
    EscMouse,
    /// As `Alt`, with mouse events enabled.
    AltMouse,
}

impl InputMode {
    /// The numeric code of this mode, as backends take it.
    pub fn code(&self) -> (r: i32)
        ensures
            *self is Current ==> r == 0,
            *self is Esc ==> r == 1,
            *self is Alt ==> r == 2,
            *self is EscMouse ==> r == 5,
            *self is AltMouse ==> r == 6,
    {
        match *self {
            InputMode::Current => 0,
            InputMode::Esc => 1,
            InputMode::Alt => 2,
            InputMode::EscMouse => 5,
            InputMode::AltMouse => 6,
        }
    }
}

/// How colors are emitted.
#[derive(Clone, Copy, PartialEq, Eq, Structural, Debug)]
pub enum OutputMode {
    /// Keep the mode already in force.
    Current,
    /// The 16-color mode.
    Normal,
    /// The 256-color mode.
    EightBit,
    /// The 216-color web-safe mode.
    WebSafe,
    /// The grayscale mode.
    Grayscale,
}

impl OutputMode {
    /// The numeric code of this mode, as backends take it.
    pub fn code(&self) -> (r: i32)
        ensures
            *self is Current ==> r == 0,
            *self is Normal ==> r == 1,
            *self is EightBit ==> r == 2,
            *self is WebSafe ==> r == 3,
            *self is Grayscale ==> r == 4,
    {
        match *self {
            OutputMode::Current => 0,
            OutputMode::Normal => 1,
            OutputMode::EightBit => 2,
            OutputMode::WebSafe => 3,
            OutputMode::Grayscale => 4,
        }
    }
}

/// Options a session is opened with.
#[derive(Clone, Copy, Debug)]
pub struct InitOptions {
    /// The input mode to select, or `Current` for none.
    pub input_mode: InputMode,
    /// The output mode to select, or `Current` for none.
    pub output_mode: OutputMode,
    /// Whether the embedding program should buffer stderr while the
    /// session is open. The redirection itself is I/O and happens
    /// outside the library.
    pub buffer_stderr: bool,
}

impl Default for InitOptions {
    /// Keep both modes and leave stderr alone.
    fn default() -> (r: InitOptions)
        ensures
            r.input_mode == InputMode::Current,
            r.output_mode == OutputMode::Current,
            !r.buffer_stderr,
    {
        InitOptions {
            input_mode: InputMode::Current,
            output_mode: OutputMode::Current,
            buffer_stderr: false,
        }
    }
}

/// The process-wide exclusivity flag: whether a session is alive. The
/// embedding program holds exactly one slot (behind its own lock where
/// threads contend) so that at most one session can be open at a time.
pub struct SessionSlot {
    running: bool,
}

/// The token witnessing that the slot was free and is now taken. Only
/// `run` mints one; releasing it frees the slot.
pub struct RunningGuard {
    token: (),
}

impl SessionSlot {
    /// Whether a session is alive.
    pub closed spec fn is_running(&self) -> bool {
        self.running
    }

    /// A fresh slot with no session alive.
    pub fn new() -> (r: SessionSlot)
        ensures
            !r.is_running(),
    {
        SessionSlot { running: false }
    }
}

/// True iff a session is currently alive in this slot.
pub fn running(slot: &SessionSlot) -> (r: bool)
    ensures
        r == slot.is_running(),
{
    slot.running
}

/// Claims the slot: the caller that gets a guard is the one session
/// allowed to be alive; every other caller gets `None` until the guard
/// is released.
pub fn run(slot: &mut SessionSlot) -> (r: Option<RunningGuard>)
    ensures
        old(slot).is_running() ==> (r is None && *final(slot) == *old(slot)),
        !old(slot).is_running() ==> (r is Some && final(slot).is_running()),
{
    if slot.running {
        None
    } else {
        slot.running = true;
        Some(RunningGuard { token: () })
    }
}

impl RunningGuard {
    /// Frees the slot: the next `run` succeeds again.
    pub fn release(self, slot: &mut SessionSlot)
        ensures
            !final(slot).is_running(),
    {
        slot.running = false;
    }
}

/// The bytes queued when a session opens: enter the alternate screen,
/// enter keypad mode, hide the cursor, reset attributes, clear.
pub open spec fn spec_init_bundle() -> Seq<u8> {
    spec_enter_ca() + spec_enter_keypad() + spec_hide_cursor() + spec_sgr0() + spec_clear_screen()
}

/// The bytes queued when a session closes: show the cursor, clear,
/// leave the alternate screen, leave keypad mode.
pub open spec fn spec_teardown_bundle() -> Seq<u8> {
    spec_show_cursor() + spec_clear_screen() + spec_exit_ca() + spec_exit_keypad()
}

/// What closing a session hands the embedding program: the bytes still
/// owed to the terminal, teardown escapes included, and the saved
/// attributes to restore. Producing it never fails: teardown always
/// runs whole.
pub struct Teardown {
    /// Pending output followed by the teardown escape bundle.
    pub bytes: Vec<u8>,
    /// The attribute snapshot from before the session opened.
    pub restore: TermAttrs,
}

/// A live session: the saved terminal attributes, the buffered output
/// channel, the cell grid sized at open, the input decoder and the
/// queue of decoded events.
pub struct RustBox {
    guard: RunningGuard,
    orig: TermAttrs,
    out: OutputChannel,
    grid: CellGrid,
    decoder: InputDecoder,
    events: Vec<DecodeResult>,
    input_mode: InputMode,
    output_mode: OutputMode,
}

impl RustBox {
    /// The grid contents.
    pub closed spec fn cells(&self) -> Seq<Seq<Cell>> {
        self.grid.cells()
    }

    /// The grid width in columns.
    pub closed spec fn spec_width(&self) -> u16 {
        self.grid.spec_width()
    }

    /// The grid height in rows.
    pub closed spec fn spec_height(&self) -> u16 {
        self.grid.spec_height()
    }

    /// The bytes queued for the terminal and not yet taken.
    pub closed spec fn out_contents(&self) -> Seq<u8> {
        self.out.contents()
    }

    /// The decoded events not yet handed out.
    pub closed spec fn events_seq(&self) -> Seq<DecodeResult> {
        self.events@
    }

    /// The input decoder's carried state.
    pub closed spec fn dec_state(&self) -> EscState {
        self.decoder.spec_state()
    }

    /// The attribute snapshot captured at open.
    pub closed spec fn orig_attrs(&self) -> TermAttrs {
        self.orig
    }

    /// The selected input mode.
    pub closed spec fn spec_input_mode(&self) -> InputMode {
        self.input_mode
    }

    /// The selected output mode.
    pub closed spec fn spec_output_mode(&self) -> OutputMode {
        self.output_mode
    }

    /// The session invariant: a rectangular grid and a full attribute
    /// snapshot.
    pub open spec fn well_formed(&self) -> bool {
        &&& self.cells().len() == self.spec_height()
        &&& forall|y: int|
            0 <= y < self.cells().len() ==> (#[trigger] self.cells()[y]).len()
                == self.spec_width()
        &&& self.orig_attrs().well_formed()
    }

    /// Opens a session: claims the slot, sizes the grid to the given
    /// geometry with every cell the default cell, and queues the
    /// opening escape bundle.
    ///
    /// Fails with `AlreadyOpen`, changing nothing, iff a session is
    /// already alive; on any free slot it succeeds.
    ///
    /// The caller captures `orig` from the TTY beforehand and applies
    /// `raw_attrs()` after; an open that failed has touched nothing,
    /// so the terminal is left exactly as it was.
    pub fn init(slot: &mut SessionSlot, opts: InitOptions, width: u16, height: u16,
        orig: TermAttrs) -> (r: Result<RustBox, InitError>)
        requires
            orig.well_formed(),
        ensures
            old(slot).is_running() ==> ((r matches Err(e) && e is AlreadyOpen) && *final(slot)
                == *old(slot)),
            !old(slot).is_running() ==> (final(slot).is_running() && (r matches Ok(rb) && {
                &&& rb.well_formed()
                &&& rb.spec_width() == width
                &&& rb.spec_height() == height
                &&& forall|y: int, x: int|
                    0 <= y < height && 0 <= x < width ==> #[trigger] rb.cells()[y][x]
                        == spec_default_cell()
                &&& rb.out_contents() == spec_init_bundle()
                &&& rb.orig_attrs() == orig
                &&& rb.dec_state() == EscState::Idle
                &&& rb.events_seq() == Seq::<DecodeResult>::empty()
                &&& rb.spec_input_mode() == opts.input_mode
                &&& rb.spec_output_mode() == opts.output_mode
            })),
    {
        let guard = match run(slot) {
            Some(g) => g,
            None => {
                return Err(InitError::AlreadyOpen);
            },
        };
        let mut out = OutputChannel::new();
        let mut bundle: Vec<u8> = Vec::new();
        push_enter_ca(&mut bundle);
        push_enter_keypad(&mut bundle);
        push_hide_cursor(&mut bundle);
        push_sgr0(&mut bundle);
        push_clear_screen(&mut bundle);
        out.write(bundle.as_slice());
        proof {
            assert(out.contents() =~= spec_init_bundle());
        }
        let grid = CellGrid::new(width, height);
        Ok(
            RustBox {
                guard,
                orig,
                out,
                grid,
                decoder: InputDecoder::new(),
                events: Vec::new(),
                input_mode: opts.input_mode,
                output_mode: opts.output_mode,
            },
        )
    }

    /// The raw-mode attributes to apply while the session is open:
    /// the saved snapshot put through the raw-mode transformation.
    pub fn raw_attrs(&self) -> (r: TermAttrs)
        requires
            self.well_formed(),
        ensures
            r.well_formed(),
            r.iflag == self.orig_attrs().iflag & !RAW_IFLAG_CLEAR,
            r.oflag == self.orig_attrs().oflag & !OPOST,
            r.lflag == self.orig_attrs().lflag & !RAW_LFLAG_CLEAR,
            r.cflag == (self.orig_attrs().cflag & !(CSIZE | PARENB)) | CS8,
            r.line == self.orig_attrs().line,
            r.ispeed == self.orig_attrs().ispeed,
            r.ospeed == self.orig_attrs().ospeed,
            r.cc@ == self.orig_attrs().cc@.update(VMIN as int, 0u8).update(VTIME as int, 0u8),
    {
        self.orig.raw_mode()
    }

    /// The width in columns.
    pub fn width(&self) -> (r: usize)
        ensures
            r == self.spec_width(),
    {
        self.grid.width() as usize
    }

    /// The height in rows.
    pub fn height(&self) -> (r: usize)
        ensures
            r == self.spec_height(),
    {
        self.grid.height() as usize
    }

    /// Resets every cell to the default cell.
    pub fn clear(&mut self)
        requires
            old(self).well_formed(),
        ensures
            final(self).well_formed(),
            final(self).spec_width() == old(self).spec_width(),
            final(self).spec_height() == old(self).spec_height(),
            forall|y: int, x: int|
                0 <= y < final(self).spec_height() && 0 <= x < final(self).spec_width()
                    ==> #[trigger] final(self).cells()[y][x] == spec_default_cell(),
            final(self).out_contents() == old(self).out_contents(),
            final(self).events_seq() == old(self).events_seq(),
            final(self).dec_state() == old(self).dec_state(),
            final(self).orig_attrs() == old(self).orig_attrs(),
    {
        self.grid.clear();
    }

    /// Writes all four fields of the cell at `(x, y)`: in bounds,
    /// exactly that cell changes; out of bounds, the write fails and
    /// nothing changes.
    pub fn print_char(&mut self, x: usize, y: usize, style: Style, fg: Color, bg: Color,
        ch: char) -> (r: Result<(), BoundsError>)
        requires
            old(self).well_formed(),
        ensures
            final(self).well_formed(),
            final(self).spec_width() == old(self).spec_width(),
            final(self).spec_height() == old(self).spec_height(),
            x < old(self).spec_width() && y < old(self).spec_height() ==> {
                &&& r is Ok
                &&& final(self).cells() == old(self).cells().update(
                    y as int,
                    old(self).cells()[y as int].update(x as int, Cell { ch, bg, fg, style }),
                )
            },
            !(x < old(self).spec_width() && y < old(self).spec_height()) ==> {
                &&& r matches Err(e) && e == (BoundsError { x, y })
                &&& final(self).cells() == old(self).cells()
            },
            final(self).out_contents() == old(self).out_contents(),
            final(self).events_seq() == old(self).events_seq(),
            final(self).dec_state() == old(self).dec_state(),
            final(self).orig_attrs() == old(self).orig_attrs(),
    {
        self.grid.set_cell(x, y, style, fg, bg, ch)
    }

    /// Writes a string as a run of cells starting at `(x, y)`, one cell
    /// per character, left to right, without wrapping: characters that
    /// would fall outside the grid are dropped, and no other cell
    /// changes.
    pub fn print(&mut self, x: usize, y: usize, style: Style, fg: Color, bg: Color, s: &str)
        requires
            old(self).well_formed(),
        ensures
            final(self).well_formed(),
            final(self).spec_width() == old(self).spec_width(),
            final(self).spec_height() == old(self).spec_height(),
            forall|j: int, i: int|
                0 <= j < old(self).spec_height() && 0 <= i < old(self).spec_width()
                    ==> #[trigger] final(self).cells()[j][i] == (if j == y && x <= i < x
                    + s@.len() {
                    Cell { ch: s@[i - x], bg, fg, style }
                } else {
                    old(self).cells()[j][i]
                }),
            final(self).out_contents() == old(self).out_contents(),
            final(self).events_seq() == old(self).events_seq(),
            final(self).dec_state() == old(self).dec_state(),
            final(self).orig_attrs() == old(self).orig_attrs(),
    {
        let n = s.unicode_len();
        let mut i: usize = 0;
        while i < n
            invariant
                i <= n,
                n == s@.len(),
                self.well_formed(),
                self.spec_width() == old(self).spec_width(),
                self.spec_height() == old(self).spec_height(),
                forall|j: int, ii: int|
                    0 <= j < old(self).spec_height() && 0 <= ii < old(self).spec_width()
                        ==> #[trigger] self.cells()[j][ii] == (if j == y && x <= ii < x + i {
                        Cell { ch: s@[ii - x], bg, fg, style }
                    } else {
                        old(self).cells()[j][ii]
                    }),
                self.out_contents() == old(self).out_contents(),
                self.events_seq() == old(self).events_seq(),
                self.dec_state() == old(self).dec_state(),
                self.orig_attrs() == old(self).orig_attrs(),
            decreases n - i,
        {
            let ch = s.get_char(i);
            if y < self.grid.height() as usize && x < self.grid.width() as usize && i
                < self.grid.width() as usize - x {
                let _ = self.grid.set_cell(x + i, y, style, fg, bg, ch);
            }
            i = i + 1;
        }
    }

    /// Queues a full frame for the terminal: everything the renderer
    /// emits for the grid, appended to the pending output.
    pub fn present(&mut self)
        requires
            old(self).well_formed(),
        ensures
            final(self).well_formed(),
            final(self).cells() == old(self).cells(),
            final(self).spec_width() == old(self).spec_width(),
            final(self).spec_height() == old(self).spec_height(),
            final(self).out_contents() == old(self).out_contents() + spec_frame_bytes(
                old(self).cells(),
            ),
            final(self).events_seq() == old(self).events_seq(),
            final(self).dec_state() == old(self).dec_state(),
            final(self).orig_attrs() == old(self).orig_attrs(),
    {
        let mut frame: Vec<u8> = Vec::new();
        render_frame(&self.grid, &mut frame);
        self.out.write(frame.as_slice());
        proof {
            assert(self.out.contents() =~= old(self).out_contents() + spec_frame_bytes(
                old(self).cells(),
            ));
        }
    }

    /// Borrows the bytes owed to the terminal.
    pub fn pending_output(&self) -> (r: &Vec<u8>)
        ensures
            r@ == self.out_contents(),
    {
        self.out.pending()
    }

    /// Records the outcome of one device write of the pending bytes;
    /// see `OutputChannel::on_write`.
    pub fn on_write(&mut self, outcome: WriteOutcome) -> (r: FlushControl)
        requires
            outcome matches WriteOutcome::Wrote(n) ==> n <= old(self).out_contents().len(),
        ensures
            match outcome {
                WriteOutcome::Wrote(n) => {
                    if n == 0 && old(self).out_contents().len() > 0 {
                        &&& r == FlushControl::Fatal(crate::output::WriteError::WriteZero)
                        &&& final(self).out_contents() == old(self).out_contents()
                    } else {
                        &&& final(self).out_contents() == old(self).out_contents().skip(n as int)
                        &&& r == (if final(self).out_contents().len() == 0 {
                            FlushControl::Done
                        } else {
                            FlushControl::Continue
                        })
                    }
                },
                WriteOutcome::Interrupted => {
                    &&& final(self).out_contents() == old(self).out_contents()
                    &&& r == (if old(self).out_contents().len() == 0 {
                        FlushControl::Done
                    } else {
                        FlushControl::Continue
                    })
                },
                WriteOutcome::Failed => {
                    &&& final(self).out_contents() == old(self).out_contents()
                    &&& r == FlushControl::Fatal(crate::output::WriteError::Device)
                },
            },
            final(self).cells() == old(self).cells(),
            final(self).spec_width() == old(self).spec_width(),
            final(self).spec_height() == old(self).spec_height(),
            final(self).events_seq() == old(self).events_seq(),
            final(self).dec_state() == old(self).dec_state(),
            final(self).orig_attrs() == old(self).orig_attrs(),
            old(self).well_formed() ==> final(self).well_formed(),
    {
        self.out.on_write(outcome)
    }

    /// Feeds the bytes one read of the TTY returned: what they decode
    /// to joins the event queue, in order.
    pub fn feed_input(&mut self, bytes: &[u8])
        ensures
            final(self).dec_state() == spec_feed_burst(old(self).dec_state(), bytes@).0,
            final(self).events_seq() == old(self).events_seq() + spec_feed_burst(
                old(self).dec_state(),
                bytes@,
            ).1,
            final(self).cells() == old(self).cells(),
            final(self).spec_width() == old(self).spec_width(),
            final(self).spec_height() == old(self).spec_height(),
            final(self).out_contents() == old(self).out_contents(),
            final(self).orig_attrs() == old(self).orig_attrs(),
            old(self).well_formed() ==> final(self).well_formed(),
    {
        let mut got = self.decoder.feed(bytes);
        self.events.append(&mut got);
    }

    /// The input has ended with no further bytes to come: what the
    /// pending decoder state stands for joins the event queue.
    pub fn end_input(&mut self)
        ensures
            final(self).dec_state() == EscState::Idle,
            final(self).events_seq() == old(self).events_seq() + spec_emitted(
                spec_finish(old(self).dec_state()),
            ),
            final(self).cells() == old(self).cells(),
            final(self).spec_width() == old(self).spec_width(),
            final(self).spec_height() == old(self).spec_height(),
            final(self).out_contents() == old(self).out_contents(),
            final(self).orig_attrs() == old(self).orig_attrs(),
            old(self).well_formed() ==> final(self).well_formed(),
    {
        let ghost pre = self.events@;
        match self.decoder.finish() {
            Some(ev) => {
                self.events.push(ev);
            },
            None => (),
        }
        proof {
            assert(self.events@ =~= pre + spec_emitted(spec_finish(old(self).dec_state())));
        }
    }

    /// Hands out the oldest decoded event, if any is queued.
    pub fn next_event(&mut self) -> (r: Option<DecodeResult>)
        ensures
            old(self).events_seq().len() == 0 ==> (r is None && final(self).events_seq()
                == old(self).events_seq()),
            old(self).events_seq().len() > 0 ==> (r == Some(old(self).events_seq()[0])
                && final(self).events_seq() == old(self).events_seq().drop_first()),
            final(self).dec_state() == old(self).dec_state(),
            final(self).cells() == old(self).cells(),
            final(self).spec_width() == old(self).spec_width(),
            final(self).spec_height() == old(self).spec_height(),
            final(self).out_contents() == old(self).out_contents(),
            final(self).orig_attrs() == old(self).orig_attrs(),
            old(self).well_formed() ==> final(self).well_formed(),
    {
        if self.events.len() == 0 {
            None
        } else {
            let ev = self.events.remove(0);
            proof {
                assert(self.events@ =~= old(self).events_seq().drop_first());
            }
            Some(ev)
        }
    }

    /// Selects the input mode.
    pub fn set_input_mode(&mut self, mode: InputMode)
        ensures
            final(self).spec_input_mode() == mode,
            final(self).spec_output_mode() == old(self).spec_output_mode(),
            final(self).cells() == old(self).cells(),
            final(self).spec_width() == old(self).spec_width(),
            final(self).spec_height() == old(self).spec_height(),
            final(self).out_contents() == old(self).out_contents(),
            final(self).events_seq() == old(self).events_seq(),
            final(self).dec_state() == old(self).dec_state(),
            final(self).orig_attrs() == old(self).orig_attrs(),
            old(self).well_formed() ==> final(self).well_formed(),
    {
        self.input_mode = mode;
    }

    /// Selects the output mode.
    pub fn set_output_mode(&mut self, mode: OutputMode)
        ensures
            final(self).spec_output_mode() == mode,
            final(self).spec_input_mode() == old(self).spec_input_mode(),
            final(self).cells() == old(self).cells(),
            final(self).spec_width() == old(self).spec_width(),
            final(self).spec_height() == old(self).spec_height(),
            final(self).out_contents() == old(self).out_contents(),
            final(self).events_seq() == old(self).events_seq(),
            final(self).dec_state() == old(self).dec_state(),
            final(self).orig_attrs() == old(self).orig_attrs(),
            old(self).well_formed() ==> final(self).well_formed(),
    {
        self.output_mode = mode;
    }

    /// Closes the session: frees the slot and hands back, in one
    /// value, every byte still owed to the terminal — pending output,
    /// then show cursor, clear, leave the alternate screen, leave
    /// keypad mode — and exactly the attribute snapshot saved at open.
    ///
    /// Closing consumes the session and never fails; whatever state
    /// the session was in, the whole teardown is produced.
    pub fn close(self, slot: &mut SessionSlot) -> (r: Teardown)
        ensures
            !final(slot).is_running(),
            r.bytes@ == self.out_contents() + spec_teardown_bundle(),
            r.restore == self.orig_attrs(),
    {
        let RustBox {
            guard,
            orig,
            out,
            grid: _,
            decoder: _,
            events: _,
            input_mode: _,
            output_mode: _,
        } = self;
        let mut out = out;
        queue_teardown(&mut out);
        let bytes = out.take();
        guard.release(slot);
        Teardown { bytes, restore: orig }
    }
}

/// Appends the teardown escape bundle to the channel.
fn queue_teardown(out: &mut OutputChannel)
    ensures
        final(out).contents() == old(out).contents() + spec_teardown_bundle(),
{
    let mut bundle: Vec<u8> = Vec::new();
    push_show_cursor(&mut bundle);
    push_clear_screen(&mut bundle);
    push_exit_ca(&mut bundle);
    push_exit_keypad(&mut bundle);
    out.write(bundle.as_slice());
    proof {
        assert(final(out).contents() =~= old(out).contents() + spec_teardown_bundle());
    }
}

} // verus!
