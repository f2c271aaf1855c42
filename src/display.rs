//! Framing of the pixel stream sent to the ILI9342C display controller.

use vstd::prelude::*;

verus! {

/// Column address set.
pub const CMD_COLUMN_ADDRESS: u8 = 0x2A;

/// Row address set.
pub const CMD_ROW_ADDRESS: u8 = 0x2B;

/// Memory write: the data that follows fills the address window.
pub const CMD_MEMORY_WRITE: u8 = 0x2C;

/// One transfer to the display controller.
#[derive(Debug, PartialEq, Eq)]
pub enum DisplayOp {
    /// A command byte, sent with the data/command line low.
    Command(u8),
    /// Parameter or pixel bytes, sent with the data/command line high.
    Data(Vec<u8>),
    /// A pause, in milliseconds, before the next transfer.
    DelayMs(u32),
}

/// Software reset.
pub const CMD_SOFTWARE_RESET: u8 = 0x01;

/// Sleep out.
pub const CMD_SLEEP_OUT: u8 = 0x11;

/// Memory access control.
pub const CMD_MEMORY_ACCESS: u8 = 0x36;

/// Pixel format set.
pub const CMD_PIXEL_FORMAT: u8 = 0x3A;

/// Display inversion on.
pub const CMD_INVERSION_ON: u8 = 0x21;

/// Display on.
pub const CMD_DISPLAY_ON: u8 = 0x29;

/// The big-endian bytes of the RGB565 pixels `s`, two per pixel.
pub open spec fn pixels_be(s: Seq<u16>) -> Seq<u8>
    decreases s.len(),
{
    if s.len() == 0 {
        Seq::empty()
    } else {
        let p = s.last();
        pixels_be(s.drop_last()) + seq![(p / 256) as u8, (p % 256) as u8]
    }
}

/// The four parameter bytes of an address command that spans `0 ..= n - 1`.
pub open spec fn window_bytes(n: u16) -> Seq<u8> {
    seq![0u8, 0u8, ((n - 1) / 256) as u8, ((n - 1) % 256) as u8]
}

/// `op` is the data transfer `bytes`.
pub open spec fn is_data(op: DisplayOp, bytes: Seq<u8>) -> bool {
    op matches DisplayOp::Data(d) && d@ == bytes
}

/// The last pixel index, plus one, of the chunk that starts at `start`.
pub open spec fn chunk_end(start: int, chunk_size: int, len: int) -> int {
    if start + chunk_size < len {
        start + chunk_size
    } else {
        len
    }
}

proof fn lemma_pixels_be_len(s: Seq<u16>)
    ensures
        pixels_be(s).len() == 2 * s.len(),
    decreases s.len(),
{
    if s.len() > 0 {
        lemma_pixels_be_len(s.drop_last());
    }
}

/// Sending a frame in chunks sends the frame: the encodings of two adjacent
/// pixel runs, one after the other, are the encoding of the joined run.
pub proof fn lemma_pixels_be_concat(a: Seq<u16>, b: Seq<u16>)
    ensures
        pixels_be(a + b) == pixels_be(a) + pixels_be(b),
    decreases b.len(),
{
    if b.len() == 0 {
        assert(a + b =~= a);
        assert(pixels_be(a) + pixels_be(b) =~= pixels_be(a));
    } else {
        lemma_pixels_be_concat(a, b.drop_last());
        assert((a + b).drop_last() =~= a + b.drop_last());
        assert((a + b).last() == b.last());
        assert(pixels_be(a + b) =~= pixels_be(a) + pixels_be(b));
    }
}

fn window_data(n: u16) -> (r: Vec<u8>)
    requires
        n >= 1,
    ensures
        r@ == window_bytes(n),
{
    let last = n - 1;
    let r = vec![0u8, 0u8, (last / 256) as u8, (last % 256) as u8];
    assert(r@ =~= window_bytes(n));
    r
}

/// The transfers that open a full-screen window of `width` by `height`
/// pixels and start a memory write into it.
pub fn address_window(width: u16, height: u16) -> (r: Vec<DisplayOp>)
    requires
        width >= 1,
        height >= 1,
    ensures
        r@.len() == 5,
        r@[0] == DisplayOp::Command(CMD_COLUMN_ADDRESS),
        is_data(r@[1], window_bytes(width)),
        r@[2] == DisplayOp::Command(CMD_ROW_ADDRESS),
        is_data(r@[3], window_bytes(height)),
        r@[4] == DisplayOp::Command(CMD_MEMORY_WRITE),
{
    let mut r: Vec<DisplayOp> = Vec::new();
    r.push(DisplayOp::Command(CMD_COLUMN_ADDRESS));
    r.push(DisplayOp::Data(window_data(width)));
    r.push(DisplayOp::Command(CMD_ROW_ADDRESS));
    r.push(DisplayOp::Data(window_data(height)));
    r.push(DisplayOp::Command(CMD_MEMORY_WRITE));
    r
}

/// The power-up sequence of the controller: reset, wake, BGR order, 16-bit
/// pixels, inversion on (the panel's native polarity), display on, with the
/// pauses that the controller needs after reset and wake-up.
pub fn init_display() -> (r: Vec<DisplayOp>)
    ensures
        r@.len() == 11,
        r@[0] == DisplayOp::Command(CMD_SOFTWARE_RESET),
        r@[1] == DisplayOp::DelayMs(120),
        r@[2] == DisplayOp::Command(CMD_SLEEP_OUT),
        r@[3] == DisplayOp::DelayMs(120),
        r@[4] == DisplayOp::Command(CMD_MEMORY_ACCESS),
        is_data(r@[5], seq![0x08u8]),
        r@[6] == DisplayOp::Command(CMD_PIXEL_FORMAT),
        is_data(r@[7], seq![0x55u8]),
        r@[8] == DisplayOp::Command(CMD_INVERSION_ON),
        r@[9] == DisplayOp::Command(CMD_DISPLAY_ON),
        r@[10] == DisplayOp::DelayMs(10),
{
    let mut r: Vec<DisplayOp> = Vec::new();
    r.push(DisplayOp::Command(CMD_SOFTWARE_RESET));
    r.push(DisplayOp::DelayMs(120));
    r.push(DisplayOp::Command(CMD_SLEEP_OUT));
    r.push(DisplayOp::DelayMs(120));
    r.push(DisplayOp::Command(CMD_MEMORY_ACCESS));
    let access = vec![0x08u8];
    assert(access@ =~= seq![0x08u8]);
    r.push(DisplayOp::Data(access));
    r.push(DisplayOp::Command(CMD_PIXEL_FORMAT));
    let format = vec![0x55u8];
    assert(format@ =~= seq![0x55u8]);
    r.push(DisplayOp::Data(format));
    r.push(DisplayOp::Command(CMD_INVERSION_ON));
    r.push(DisplayOp::Command(CMD_DISPLAY_ON));
    r.push(DisplayOp::DelayMs(10));
    r
}

/// Splits `len` pixels into consecutive chunks of `chunk_size`, the last one
/// possibly shorter: chunk `i` spans `i * chunk_size` up to the next chunk's
/// start or `len`, and the chunks together cover `0 .. len` exactly once.
pub fn chunk_ranges(len: usize, chunk_size: usize) -> (r: Vec<(usize, usize)>)
    requires
        chunk_size > 0,
    ensures
        r@.len() * chunk_size >= len,
        r@.len() == 0 || (r@.len() - 1) * chunk_size < len,
        forall|i: int|
            0 <= i < r@.len() ==> {
                &&& (#[trigger] r@[i]).0 == i * chunk_size
                &&& r@[i].1 == chunk_end(i * chunk_size, chunk_size as int, len as int)
                &&& r@[i].0 < r@[i].1
            },
{
    let mut r: Vec<(usize, usize)> = Vec::new();
    let mut start: usize = 0;
    assert(r@.len() * chunk_size == 0) by (nonlinear_arith)
        requires
            r@.len() == 0,
    ;
    while start < len
        invariant
            chunk_size > 0,
            start <= len,
            start == r@.len() * chunk_size || (start == len && r@.len() * chunk_size >= len),
            r@.len() == 0 || (r@.len() - 1) * chunk_size < len,
            forall|i: int|
                0 <= i < r@.len() ==> {
                    &&& (#[trigger] r@[i]).0 == i * chunk_size
                    &&& r@[i].1 == chunk_end(i * chunk_size, chunk_size as int, len as int)
                    &&& r@[i].0 < r@[i].1
                },
        decreases len - start,
    {
        let k = r.len();
        let end: usize = if len - start > chunk_size {
            start + chunk_size
        } else {
            len
        };
        proof {
            assert(start == k * chunk_size);
            assert((k + 1) * chunk_size == k * chunk_size + chunk_size) by (nonlinear_arith);
        }
        r.push((start, end));
        start = end;
    }
    r
}

/// The big-endian bytes of the pixels `buffer[start..end]`.
pub fn encode_pixels(buffer: &[u16], start: usize, end: usize) -> (r: Vec<u8>)
    requires
        start <= end <= buffer@.len(),
    ensures
        r@ == pixels_be(buffer@.subrange(start as int, end as int)),
        r@.len() == 2 * (end - start),
{
    let mut r: Vec<u8> = Vec::new();
    let mut i: usize = start;
    while i < end
        invariant
            start <= i <= end <= buffer@.len(),
            r@ == pixels_be(buffer@.subrange(start as int, i as int)),
        decreases end - i,
    {
        let p = buffer[i];
        r.push((p >> 8) as u8);
        r.push((p & 0xFF) as u8);
        proof {
            assert((p >> 8) as u8 == (p / 256) as u8 && (p & 0xFF) as u8 == (p % 256) as u8)
                by (bit_vector);
            let s = buffer@.subrange(start as int, i + 1);
            assert(s.drop_last() =~= buffer@.subrange(start as int, i as int));
        }
        i = i + 1;
    }
    proof {
        lemma_pixels_be_len(buffer@.subrange(start as int, end as int));
    }
    r
}

} // verus!
