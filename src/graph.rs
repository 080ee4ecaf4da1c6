//! The viewer of a session: which slice of the series is on screen, and the
//! record of a finished session.
use vstd::prelude::*;
use crate::receiver::{RxModel, SampleBuffer};

verus! {

/// Smallest number of points a static window shows.
pub const MIN_WINDOW_SIZE: usize = 32;

/// Number of most recent points shown while streaming.
pub const STREAMING_WINDOW_SIZE: usize = 384;

/// Display mode of the viewer.
#[derive(Clone, Copy, Debug, PartialEq, Eq, Structural)]
pub enum Mode {
    /// Only the latest samples are shown.
    Streaming,
    /// A window chosen by the user.
    Static {
        /// How many points to display.
        size: usize,
        /// Window offset from the first sample.
        offset: usize,
    },
}

/// What the user can do to the viewer.
#[derive(Clone, Copy, Debug, PartialEq, Eq, Structural)]
pub enum Message {
    SwitchMode,
    SizeUpdated(usize),
    OffsetUpdated(usize),
}

/// The window `(start, end)` shown for `total` received samples; the series
/// are drawn over indices `start..end`. There is none while nothing has been
/// received.
pub open spec fn window_of(mode: Mode, total: nat) -> Option<(nat, nat)> {
    if total == 0 {
        None
    } else {
        match mode {
            Mode::Streaming => Some(
                (
                    (if total >= STREAMING_WINDOW_SIZE {
                        total - STREAMING_WINDOW_SIZE
                    } else {
                        0
                    }) as nat,
                    (total - 1) as nat,
                ),
            ),
            Mode::Static { size, offset } => {
                let start: nat = if offset <= total { offset as nat } else { total };
                let end: nat = if start + size <= total - 1 {
                    (start + size) as nat
                } else {
                    (total - 1) as nat
                };
                Some((start, end))
            },
        }
    }
}

/// Whether a window of indices is the one described.
pub open spec fn same_window(r: Option<(usize, usize)>, w: Option<(nat, nat)>) -> bool {
    match (r, w) {
        (Some((s, e)), Some((a, b))) => s == a && e == b,
        (None, None) => true,
        _ => false,
    }
}

/// The mode after a message.
pub open spec fn mode_after(mode: Mode, message: Message) -> Mode {
    match (message, mode) {
        (Message::SwitchMode, Mode::Streaming) => Mode::Static { size: MIN_WINDOW_SIZE, offset: 0 },
        (Message::SwitchMode, Mode::Static { .. }) => Mode::Streaming,
        (Message::SizeUpdated(v), Mode::Static { offset, .. }) => Mode::Static {
            size: if v >= MIN_WINDOW_SIZE { v } else { MIN_WINDOW_SIZE },
            offset,
        },
        (Message::OffsetUpdated(v), Mode::Static { size, .. }) => Mode::Static { size, offset: v },
        (_, Mode::Streaming) => Mode::Streaming,
    }
}

/// A static window never shows fewer than the minimum number of points.
pub open spec fn mode_wf(mode: Mode) -> bool {
    match mode {
        Mode::Streaming => true,
        Mode::Static { size, .. } => size >= MIN_WINDOW_SIZE,
    }
}

/// The two series of a finished session, as bit patterns.
pub struct ExportRecord {
    pub input: Vec<u32>,
    pub output: Vec<u32>,
}

/// Live view of a session.
pub struct Graph {
    mode: Mode,
    input: Vec<u32>,
}

impl Graph {
    /// A viewer of the series `input`, in streaming mode.
    pub fn new(input: Vec<u32>) -> (r: Graph)
        ensures
            r.mode() == Mode::Streaming,
            r.input() == input@,
    {
        Graph { mode: Mode::Streaming, input }
    }

    pub closed spec fn mode(&self) -> Mode {
        self.mode
    }

    /// The input series, as sent to the device.
    pub closed spec fn input(&self) -> Seq<u32> {
        self.input@
    }

    pub open spec fn wf(&self) -> bool {
        mode_wf(self.mode())
    }

    /// The current display mode.
    pub fn current_mode(&self) -> (r: Mode)
        ensures
            r == self.mode(),
    {
        self.mode
    }

    /// Number of samples in the input series.
    pub fn input_len(&self) -> (r: usize)
        ensures
            r == self.input().len(),
    {
        self.input.len()
    }

    /// Applies a user action. Switching to static mode starts at the minimum
    /// window size and offset zero; switching back forgets them. A size below
    /// the minimum is raised to it. Size and offset changes have no effect
    /// while streaming.
    pub fn update(&mut self, message: Message)
        requires
            old(self).wf(),
        ensures
            final(self).wf(),
            final(self).mode() == mode_after(old(self).mode(), message),
            final(self).input() == old(self).input(),
    {
        match (message, self.mode) {
            (Message::SwitchMode, Mode::Streaming) => {
                self.mode = Mode::Static { size: MIN_WINDOW_SIZE, offset: 0 };
            },
            (Message::SwitchMode, Mode::Static { .. }) => {
                self.mode = Mode::Streaming;
            },
            (Message::SizeUpdated(v), Mode::Static { offset, .. }) => {
                let size = if v >= MIN_WINDOW_SIZE {
                    v
                } else {
                    MIN_WINDOW_SIZE
                };
                self.mode = Mode::Static { size, offset };
            },
            (Message::OffsetUpdated(v), Mode::Static { size, .. }) => {
                self.mode = Mode::Static { size, offset: v };
            },
            (_, Mode::Streaming) => {},
        }
    }

    /// The window to draw when `total` samples have been received.
    pub fn window(&self, total: usize) -> (r: Option<(usize, usize)>)
        ensures
            same_window(r, window_of(self.mode(), total as nat)),
    {
        window(self.mode, total)
    }

    /// An empty receive buffer sized to the input series.
    pub fn output_buffer(&self) -> (r: SampleBuffer)
        ensures
            r@ == RxModel::start(self.input().len()),
    {
        SampleBuffer::new(self.input.len())
    }

    /// The record written once the session is over: the input series and the
    /// samples received, both in order.
    pub fn export(&self, output: &SampleBuffer) -> (r: ExportRecord)
        ensures
            r.input@ == self.input(),
            r.output@ == output@.samples,
    {
        let mut input: Vec<u32> = Vec::with_capacity(self.input.len());
        let mut i: usize = 0;
        while i < self.input.len()
            invariant
                i <= self.input.len(),
                input@ == self.input@.take(i as int),
            decreases self.input.len() - i,
        {
            input.push(self.input[i]);
            i = i + 1;
            assert(input@ =~= self.input@.take(i as int));
        }
        assert(input@ =~= self.input@);
        ExportRecord { input, output: output.snapshot() }
    }
}

/// The window to draw in `mode` when `total` samples have been received.
pub fn window(mode: Mode, total: usize) -> (r: Option<(usize, usize)>)
    ensures
        same_window(r, window_of(mode, total as nat)),
{
    if total == 0 {
        return None;
    }
    match mode {
        Mode::Streaming => {
            let start = if total >= STREAMING_WINDOW_SIZE {
                total - STREAMING_WINDOW_SIZE
            } else {
                0
            };
            Some((start, total - 1))
        },
        Mode::Static { size, offset } => {
            let start = if offset <= total {
                offset
            } else {
                total
            };
            let end = if start <= total - 1 && size <= total - 1 - start {
                start + size
            } else {
                total - 1
            };
            Some((start, end))
        },
    }
}

} // verus!
