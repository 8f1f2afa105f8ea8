//! The display driver: framebuffer ownership, pixel mutation, and frame
//! assembly for the panel's line-oriented write protocol.
//!
//! The driver tracks the panel mirror and the polarity (VCOM) bit. The
//! transmission operations ([`DisplayDriver::clear_display`],
//! [`DisplayDriver::refresh`], [`DisplayDriver::refresh_line`]) assemble
//! the exact frame to put on the bus and flip the polarity bit once; the
//! caller owns the bus and performs the blocking write. The polarity bit
//! therefore flips whether or not the write that follows succeeds, so
//! after a failed write the tracked polarity may drift from what the
//! panel last saw.

use vstd::prelude::*;

use crate::model::{bytes_per_line, clear_frame, cleared_row, cleared_rows, command_byte,
    frame_lines, line_frame, refresh_frame, st_clear_buffer, st_set_pixel, st_toggle,
    wf_state, State, CMD_CLEAR_SCREEN, CMD_VCOM, CMD_WRITE_LINE};

verus! {

/// An operation was asked of a pixel or line outside the panel.
#[derive(Clone, Copy, Debug, PartialEq, Eq, Structural)]
pub enum DisplayError {
    /// Pixel coordinates or a line index beyond the configured dimensions.
    OutOfBounds,
}

/// Driver for a bit-addressable monochrome memory LCD panel.
pub struct DisplayDriver {
    /// Framebuffer mirror: one row per display line, `width / 8` bytes
    /// per row, 8 pixels per byte, least-significant bit first. A set
    /// bit is the panel's cleared (off/white) pixel state.
    pub buffer: Vec<Vec<u8>>,
    /// Panel width in pixels; fixed at construction.
    pub width: u16,
    /// Panel height in lines; fixed at construction.
    pub height: u16,
    /// Polarity bit for the next transmission: `0` or [`CMD_VCOM`].
    vcom: u8,
    /// Cached row length in bytes, `width / 8`.
    bytes_per_line: u8,
}

impl View for DisplayDriver {
    type V = State;

    closed spec fn view(&self) -> State {
        State {
            rows: self.buffer.deep_view(),
            width: self.width,
            height: self.height,
            vcom_high: self.vcom != 0,
        }
    }
}

/// One cleared row: `n` bytes of `0xFF`.
fn make_cleared_row(n: u8) -> (row: Vec<u8>)
    ensures
        row.deep_view() == cleared_row(n as int),
{
    let mut row: Vec<u8> = Vec::new();
    let mut i: u8 = 0;
    while i < n
        invariant
            i <= n,
            row@.len() == i,
            forall|j: int| 0 <= j < i ==> row@[j] == 0xFFu8,
        decreases n - i,
    {
        row.push(0xFF);
        i = i + 1;
    }
    assert(row.deep_view() =~= cleared_row(n as int));
    row
}

/// A whole cleared framebuffer: `height` rows of `bpl` bytes of `0xFF`.
fn make_cleared_buffer(height: u16, bpl: u8) -> (buf: Vec<Vec<u8>>)
    ensures
        buf.deep_view() == cleared_rows(height as int, bpl as int),
{
    let mut buf: Vec<Vec<u8>> = Vec::new();
    let mut y: u16 = 0;
    while y < height
        invariant
            y <= height,
            buf@.len() == y,
            forall|j: int| 0 <= j < y ==> (#[trigger] buf@[j]).deep_view() == cleared_row(bpl as int),
        decreases height - y,
    {
        buf.push(make_cleared_row(bpl));
        y = y + 1;
    }
    assert(buf.deep_view() =~= cleared_rows(height as int, bpl as int));
    buf
}

impl DisplayDriver {
    /// The private fields agree with the dimensions: the cached row
    /// length is `width / 8` and the polarity field holds only its two
    /// legal values.
    pub closed spec fn fields_consistent(&self) -> bool {
        &&& self.bytes_per_line as int == bytes_per_line(self.width)
        &&& self.vcom == 0 || self.vcom == CMD_VCOM
    }

    /// A well-formed driver: the abstract state is well-formed (buffer
    /// shape matches the dimensions, which fit the protocol's one-byte
    /// fields) and the private fields agree with it.
    pub open spec fn wf(&self) -> bool {
        &&& wf_state(self@)
        &&& self.fields_consistent()
    }

    /// Builds a driver for a `width` × `height` panel: a framebuffer of
    /// all-set bytes (every pixel off/white) and the polarity bit unset.
    ///
    /// The width must be a whole number of bytes, and both dimensions
    /// must fit the protocol's one-byte line-address and row-length
    /// fields.
    pub fn new(width: u16, height: u16) -> (d: DisplayDriver)
        requires
            width % 8 == 0,
            width / 8 <= u8::MAX,
            height <= u8::MAX,
        ensures
            d.wf(),
            d@ == (State {
                rows: cleared_rows(height as int, bytes_per_line(width)),
                width,
                height,
                vcom_high: false,
            }),
    {
        let bpl: u8 = (width / 8) as u8;
        let buffer = make_cleared_buffer(height, bpl);
        DisplayDriver { buffer, width, height, vcom: 0, bytes_per_line: bpl }
    }

    /// Flips the tracked polarity bit between its two legal values.
    fn toggle_vcom(&mut self)
        requires
            old(self).wf(),
        ensures
            final(self).wf(),
            final(self)@ == st_toggle(old(self)@),
    {
        self.vcom = if self.vcom != 0 {
            0
        } else {
            CMD_VCOM
        };
        assert(self@ =~= st_toggle(old(self)@));
    }

    /// Resets every framebuffer row to all-set bytes (every pixel
    /// off/white). Touches no bus and leaves the polarity bit alone;
    /// clearing an already-cleared buffer changes nothing.
    pub fn clear_buffer(&mut self)
        requires
            old(self).wf(),
        ensures
            final(self).wf(),
            final(self)@ == st_clear_buffer(old(self)@),
    {
        self.buffer = make_cleared_buffer(self.height, self.bytes_per_line);
        assert(self@ =~= st_clear_buffer(old(self)@));
    }

    /// Writes one pixel of the mirror: `value` true forces bit `x % 8`
    /// of byte `x / 8` in row `y` on, false forces it off. The 7
    /// neighbouring bits of the containing byte and every other byte
    /// are untouched. Coordinates outside the panel are rejected with
    /// [`DisplayError::OutOfBounds`] and the buffer is left unchanged.
    /// No bus traffic and no polarity change.
    pub fn set_pixel(&mut self, x: u16, y: u16, value: bool) -> (r: Result<(), DisplayError>)
        requires
            old(self).wf(),
        ensures
            final(self).wf(),
            x < old(self)@.width && y < old(self)@.height ==> {
                &&& r == Ok::<(), DisplayError>(())
                &&& final(self)@ == st_set_pixel(old(self)@, x, y, value)
            },
            !(x < old(self)@.width && y < old(self)@.height) ==> {
                &&& r == Err::<(), DisplayError>(DisplayError::OutOfBounds)
                &&& final(self)@ == old(self)@
            },
    {
        if x >= self.width || y >= self.height {
            return Err(DisplayError::OutOfBounds);
        }
        let bit: u8 = (x % 8) as u8;
        let byte_idx: usize = (x / 8) as usize;
        let row_idx: usize = y as usize;
        proof {
            assert(x as int / 8 < self.width as int / 8) by (nonlinear_arith)
                requires
                    x < self.width,
                    self.width % 8 == 0,
            ;
            assert(self.buffer.deep_view().len() == self.buffer@.len());
            assert(self.buffer.deep_view()[y as int] == self.buffer@[y as int].deep_view());
            assert(self.buffer@[y as int].deep_view().len() == self.buffer@[y as int]@.len());
        }
        let b: u8 = self.buffer[row_idx][byte_idx];
        let mask: u8 = 1u8 << bit;
        let nb: u8 = if value {
            b | mask
        } else {
            b & !mask
        };
        self.buffer[row_idx][byte_idx] = nb;
        proof {
            assert(self@ =~~= st_set_pixel(old(self)@, x, y, value));
        }
        Ok(())
    }

    /// Assembles the 2-byte hardware-clear frame (command byte with the
    /// current polarity bit and the clear flag, then one padding byte)
    /// and flips the polarity bit. The caller writes the frame to the
    /// bus; the framebuffer mirror is deliberately left alone, so the
    /// mirror and the panel diverge until the caller also clears the
    /// buffer. The polarity flips whether or not the write succeeds.
    pub fn clear_display(&mut self) -> (frame: Vec<u8>)
        requires
            old(self).wf(),
        ensures
            final(self).wf(),
            final(self)@ == st_toggle(old(self)@),
            frame@ == clear_frame(old(self)@),
    {
        let mut frame: Vec<u8> = Vec::new();
        frame.push(self.vcom | CMD_CLEAR_SCREEN);
        frame.push(0x00);
        self.toggle_vcom();
        proof {
            assert(frame@ =~= clear_frame(old(self)@));
        }
        frame
    }

    /// Assembles the single-line frame for row `line_num` (command byte,
    /// 1-based line address, the row's bytes, two trailing zero bytes)
    /// and flips the polarity bit; the caller writes the frame to the
    /// bus. A line index at or beyond the panel height is rejected with
    /// [`DisplayError::OutOfBounds`] — the height itself is excluded,
    /// since no row exists for it — and nothing changes.
    pub fn refresh_line(&mut self, line_num: u8) -> (r: Result<Vec<u8>, DisplayError>)
        requires
            old(self).wf(),
        ensures
            final(self).wf(),
            (line_num as u16) < old(self)@.height ==> {
                &&& r is Ok
                &&& r->Ok_0@ == line_frame(old(self)@, line_num as u16)
                &&& final(self)@ == st_toggle(old(self)@)
            },
            (line_num as u16) >= old(self)@.height ==> {
                &&& r == Err::<Vec<u8>, DisplayError>(DisplayError::OutOfBounds)
                &&& final(self)@ == old(self)@
            },
    {
        if line_num as u16 >= self.height {
            return Err(DisplayError::OutOfBounds);
        }
        let mut frame: Vec<u8> = Vec::new();
        frame.push(self.vcom | CMD_WRITE_LINE);
        frame.push(line_num + 1);
        let row_idx: usize = line_num as usize;
        let n: u8 = self.bytes_per_line;
        let mut j: u8 = 0;
        while j < n
            invariant
                self.wf(),
                self.fields_consistent(),
                n == bytes_per_line(self@.width),
                (line_num as u16) < self@.height,
                row_idx == line_num as int,
                j <= n,
                frame@ == seq![
                    command_byte(self@, CMD_WRITE_LINE),
                    (line_num + 1) as u8,
                ] + self@.rows[line_num as int].take(j as int),
            decreases n - j,
        {
            proof {
                assert(self.buffer.deep_view().len() == self.buffer@.len());
                assert(self.buffer.deep_view()[row_idx as int]
                    == self.buffer@[row_idx as int].deep_view());
                assert(self.buffer@[row_idx as int].deep_view().len()
                    == self.buffer@[row_idx as int]@.len());
            }
            let b: u8 = self.buffer[row_idx][j as usize];
            frame.push(b);
            j = j + 1;
            proof {
                let row = self@.rows[line_num as int];
                assert(row.take(j as int) =~= row.take(j as int - 1).push(row[j as int - 1]));
            }
        }
        frame.push(0x00);
        frame.push(0x00);
        self.toggle_vcom();
        proof {
            let s = old(self)@;
            assert(s.rows[line_num as int].take(n as int) =~= s.rows[line_num as int]);
            assert(frame@ =~= line_frame(s, line_num as u16));
        }
        Ok(frame)
    }

    /// Assembles the full-refresh frame — the command byte, then for each
    /// line its 1-based address, its row bytes and a zero pad, and one
    /// final terminating zero byte — and flips the polarity bit exactly
    /// once for the whole operation. The caller writes the frame to the
    /// bus in a single transfer; the polarity flips whether or not that
    /// write succeeds.
    pub fn refresh(&mut self) -> (frame: Vec<u8>)
        requires
            old(self).wf(),
        ensures
            final(self).wf(),
            final(self)@ == st_toggle(old(self)@),
            frame@ == refresh_frame(old(self)@),
    {
        let mut frame: Vec<u8> = Vec::new();
        frame.push(self.vcom | CMD_WRITE_LINE);
        let n: u8 = self.bytes_per_line;
        let mut i: u16 = 0;
        while i < self.height
            invariant
                self.wf(),
                self.fields_consistent(),
                n == bytes_per_line(self@.width),
                i <= self@.height,
                frame@ == seq![command_byte(self@, CMD_WRITE_LINE)]
                    + frame_lines(self@.rows, i as int),
            decreases self@.height - i,
        {
            frame.push((i + 1) as u8);
            let row_idx: usize = i as usize;
            let mut j: u8 = 0;
            while j < n
                invariant
                    self.wf(),
                    self.fields_consistent(),
                    n == bytes_per_line(self@.width),
                    i < self@.height,
                    row_idx == i as int,
                    j <= n,
                    frame@ == seq![command_byte(self@, CMD_WRITE_LINE)]
                        + frame_lines(self@.rows, i as int)
                        + seq![(i + 1) as u8]
                        + self@.rows[i as int].take(j as int),
                decreases n - j,
            {
                proof {
                    assert(self.buffer.deep_view().len() == self.buffer@.len());
                    assert(self.buffer.deep_view()[row_idx as int]
                        == self.buffer@[row_idx as int].deep_view());
                    assert(self.buffer@[row_idx as int].deep_view().len()
                        == self.buffer@[row_idx as int]@.len());
                }
                let b: u8 = self.buffer[row_idx][j as usize];
                frame.push(b);
                j = j + 1;
                proof {
                    let row = self@.rows[i as int];
                    assert(row.take(j as int) =~= row.take(j as int - 1).push(row[j as int - 1]));
                }
            }
            frame.push(0x00);
            i = i + 1;
            proof {
                let s = self@;
                let prev = i as int - 1;
                assert(s.rows[prev].take(n as int) =~= s.rows[prev]);
                assert(frame@ =~= seq![command_byte(s, CMD_WRITE_LINE)]
                    + frame_lines(s.rows, i as int));
            }
        }
        frame.push(0x00);
        self.toggle_vcom();
        proof {
            assert(frame@ =~= refresh_frame(old(self)@));
        }
        frame
    }
}

} // verus!
