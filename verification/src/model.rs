//! Mathematical model of the panel driver.
//!
//! [`State`] abstracts a driver instance: the framebuffer as a sequence of
//! rows of bytes, the fixed panel dimensions, and the polarity (VCOM) bit.
//! The spec functions here define what each driver operation does to that
//! state and the exact byte frames the transmission operations assemble.

use vstd::prelude::*;

use crate::bits::{bit_is_set, lemma_clear_bit_reads_clear, lemma_other_bits_unchanged,
    lemma_set_bit_reads_set, with_bit_clear, with_bit_set};

verus! {

/// Write-line command flag (bit 0 of the command byte).
pub const CMD_WRITE_LINE: u8 = 0b00000001;

/// Polarity (VCOM) bit of the command byte.
pub const CMD_VCOM: u8 = 0b00000010;

/// Clear-screen command flag of the command byte.
pub const CMD_CLEAR_SCREEN: u8 = 0b00000100;

/// Abstract state of a driver instance.
#[verifier::ext_equal]
pub struct State {
    /// Framebuffer rows, one per display line; each row holds
    /// `width / 8` bytes, 8 pixels per byte, least-significant bit first.
    pub rows: Seq<Seq<u8>>,
    /// Panel width in pixels.
    pub width: u16,
    /// Panel height in lines.
    pub height: u16,
    /// Whether the polarity bit goes out high on the next transmission.
    pub vcom_high: bool,
}

/// Bytes per framebuffer row.
pub open spec fn bytes_per_line(width: u16) -> int {
    width as int / 8
}

/// A well-formed state: the buffer shape matches the panel dimensions,
/// the width is a whole number of bytes, and both dimensions respect the
/// protocol's one-byte fields (row count addressable by a one-byte
/// 1-based line address, row length counted by one byte).
pub open spec fn wf_state(s: State) -> bool {
    &&& s.width % 8 == 0
    &&& bytes_per_line(s.width) <= u8::MAX
    &&& s.height <= u8::MAX
    &&& s.rows.len() == s.height
    &&& forall|y: int| 0 <= y < s.rows.len() ==> (#[trigger] s.rows[y]).len() == bytes_per_line(s.width)
}

/// One all-set row: the cleared (all pixels off/white) value.
pub open spec fn cleared_row(n: int) -> Seq<u8> {
    Seq::new(n as nat, |i: int| 0xFFu8)
}

/// A whole cleared framebuffer: `height` rows of `bpl` bytes, all `0xFF`.
pub open spec fn cleared_rows(height: int, bpl: int) -> Seq<Seq<u8>> {
    Seq::new(height as nat, |y: int| cleared_row(bpl))
}

/// Resetting the framebuffer: every row becomes all `0xFF`; dimensions
/// and polarity are untouched.
pub open spec fn st_clear_buffer(s: State) -> State {
    State { rows: cleared_rows(s.height as int, bytes_per_line(s.width)), ..s }
}

/// Flipping the polarity bit; everything else is untouched.
pub open spec fn st_toggle(s: State) -> State {
    State { vcom_high: !s.vcom_high, ..s }
}

/// The byte holding pixel `(x, y)`: byte `x / 8` of row `y`.
pub open spec fn pixel_byte(s: State, x: u16, y: u16) -> u8 {
    s.rows[y as int][x as int / 8]
}

/// Whether pixel `(x, y)` reads back as on: bit `x % 8` of its byte.
pub open spec fn pixel_on(s: State, x: u16, y: u16) -> bool {
    bit_is_set(pixel_byte(s, x, y), (x % 8) as u8)
}

/// Writing one pixel: bit `x % 8` of byte `x / 8` in row `y` is forced
/// to `on`; every other bit, byte and row is untouched, as are the
/// dimensions and the polarity.
pub open spec fn st_set_pixel(s: State, x: u16, y: u16, on: bool) -> State {
    let b = pixel_byte(s, x, y);
    let nb = if on { with_bit_set(b, (x % 8) as u8) } else { with_bit_clear(b, (x % 8) as u8) };
    State { rows: s.rows.update(y as int, s.rows[y as int].update(x as int / 8, nb)), ..s }
}

/// The command byte of a transmission: the polarity bit as currently
/// tracked, combined with the given command flag.
pub open spec fn command_byte(s: State, flag: u8) -> u8 {
    (if s.vcom_high { CMD_VCOM } else { 0u8 }) | flag
}

/// The 2-byte hardware-clear frame: command byte, then one padding byte.
pub open spec fn clear_frame(s: State) -> Seq<u8> {
    seq![command_byte(s, CMD_CLEAR_SCREEN), 0u8]
}

/// The per-line block of a write frame: the 1-based line address, the
/// row's bytes, and one trailing padding byte.
pub open spec fn line_block(row: Seq<u8>, line: int) -> Seq<u8> {
    seq![(line + 1) as u8] + row + seq![0u8]
}

/// The concatenated per-line blocks of rows `0 .. n`.
pub open spec fn frame_lines(rows: Seq<Seq<u8>>, n: int) -> Seq<u8>
    decreases n,
{
    if n <= 0 {
        Seq::empty()
    } else {
        frame_lines(rows, n - 1) + line_block(rows[n - 1], n - 1)
    }
}

/// The full-refresh frame: the write command byte, one block per line,
/// and a final terminating zero byte.
pub open spec fn refresh_frame(s: State) -> Seq<u8> {
    seq![command_byte(s, CMD_WRITE_LINE)] + frame_lines(s.rows, s.height as int) + seq![0u8]
}

/// The single-line frame: the write command byte, the addressed line's
/// block, and a final terminating zero byte.
pub open spec fn line_frame(s: State, line: u16) -> Seq<u8> {
    seq![command_byte(s, CMD_WRITE_LINE)] + line_block(s.rows[line as int], line as int) + seq![0u8]
}

/// Writing a pixel reads back as written, and every other pixel of the
/// panel — in particular the 7 neighbouring bits of the containing
/// byte — is unaffected.
pub proof fn lemma_set_pixel_readback(s: State, x: u16, y: u16, on: bool)
    requires
        wf_state(s),
        x < s.width,
        y < s.height,
    ensures
        wf_state(st_set_pixel(s, x, y, on)),
        pixel_on(st_set_pixel(s, x, y, on), x, y) == on,
        forall|x2: u16, y2: u16|
            x2 < s.width && y2 < s.height && !(x2 == x && y2 == y)
                ==> pixel_on(st_set_pixel(s, x, y, on), x2, y2) == pixel_on(s, x2, y2),
{
    let t = st_set_pixel(s, x, y, on);
    let i = (x % 8) as u8;
    assert(x as int / 8 < bytes_per_line(s.width)) by {
        assert(x < s.width ==> x as int / 8 < s.width as int / 8) by (nonlinear_arith)
            requires s.width % 8 == 0;
    }
    assert(i < 8);
    if on {
        lemma_set_bit_reads_set(pixel_byte(s, x, y), i);
    } else {
        lemma_clear_bit_reads_clear(pixel_byte(s, x, y), i);
    }
    assert forall|x2: u16, y2: u16|
        x2 < s.width && y2 < s.height && !(x2 == x && y2 == y)
            implies pixel_on(t, x2, y2) == pixel_on(s, x2, y2) by {
        if y2 == y && x2 as int / 8 == x as int / 8 {
            let j = (x2 % 8) as u8;
            assert(j < 8);
            assert(j != i) by {
                assert(x2 / 8 == x / 8 && x2 % 8 == x % 8 ==> x2 == x) by (nonlinear_arith);
            }
            lemma_other_bits_unchanged(pixel_byte(s, x, y), i, j);
        } else if y2 == y {
            assert(x2 as int / 8 < bytes_per_line(s.width)) by {
                assert(x2 < s.width ==> x2 as int / 8 < s.width as int / 8) by (nonlinear_arith)
                    requires s.width % 8 == 0;
            }
        }
    }
}

/// The polarity bit after `n` transmissions, each of which flips it once.
pub open spec fn st_toggle_n(s: State, n: nat) -> State
    decreases n,
{
    if n == 0 {
        s
    } else {
        st_toggle(st_toggle_n(s, (n - 1) as nat))
    }
}

/// An odd number of transmissions leaves the polarity bit flipped from
/// its starting value; an even number restores it. Nothing else changes.
pub proof fn lemma_toggle_parity(s: State, n: nat)
    ensures
        st_toggle_n(s, n).rows == s.rows,
        st_toggle_n(s, n).width == s.width,
        st_toggle_n(s, n).height == s.height,
        st_toggle_n(s, n).vcom_high == (if n % 2 == 0 { s.vcom_high } else { !s.vcom_high }),
    decreases n,
{
    if n > 0 {
        lemma_toggle_parity(s, (n - 1) as nat);
    }
}

/// Clearing the buffer is idempotent: a second clear changes nothing.
pub proof fn lemma_clear_buffer_idempotent(s: State)
    ensures
        st_clear_buffer(st_clear_buffer(s)) == st_clear_buffer(s),
{
    assert(st_clear_buffer(st_clear_buffer(s)) =~= st_clear_buffer(s));
}

/// Every byte of every row of a cleared framebuffer is `0xFF`.
pub proof fn lemma_cleared_all_ff(height: int, bpl: int)
    ensures
        forall|y: int, i: int|
            0 <= y < height && 0 <= i < bpl
                ==> #[trigger] cleared_rows(height, bpl)[y][i] == 0xFFu8,
{
}

} // verus!
