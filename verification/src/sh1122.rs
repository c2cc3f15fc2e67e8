//! SH1122 OLED panel driver core: the 256x64 4-bit grayscale framebuffer,
//! packed two pixels per byte, and the page-oriented wire-protocol framing.
//!
//! The driver owns only the framebuffer: `init` and `flush` return the exact
//! byte frames to transmit over the two-wire bus, in order; the caller owns
//! the bus and writes each frame to the device address.
use vstd::prelude::*;

verus! {

/// Panel width in pixels.
pub const PIXEL_W: usize = 256;

/// Panel height in pixels.
pub const PIXEL_H: usize = 64;

/// Bytes in the packed framebuffer: 256 x 64 pixels at two pixels per byte.
pub const BUF_LEN: usize = 8192;

/// Bytes of framebuffer carried by one page of the flush protocol.
pub const PAGE_LEN: usize = 1024;

/// Number of pages the flush protocol walks through.
pub const PAGES: usize = 8;

/// Intensities above 15 are clamped to the brightest nibble, never rejected.
pub open spec fn spec_clamp15(v: u8) -> u8 {
    if v > 15 {
        15
    } else {
        v
    }
}

/// Index of the packed byte that holds logical pixel (x, y). The vertical
/// axis is inverted: logical row 0 lands on physical row 63.
pub open spec fn spec_byte_index(x: int, y: int) -> int {
    ((63 - y) * 256 + x) / 2
}

/// The byte after writing intensity `v` for logical column `x` into packed
/// byte `b`: an even column takes the high nibble, an odd one the low
/// nibble, and the other nibble is preserved.
pub open spec fn spec_packed(b: u8, x: int, v: u8) -> u8 {
    if x % 2 == 0 {
        (b & 0x0F) | (spec_clamp15(v) << 4)
    } else {
        (b & 0xF0) | spec_clamp15(v)
    }
}

/// The stored nibble for logical pixel (x, y).
pub open spec fn spec_pixel(buf: Seq<u8>, x: int, y: int) -> u8 {
    if x % 2 == 0 {
        buf[spec_byte_index(x, y)] >> 4
    } else {
        buf[spec_byte_index(x, y)] & 0x0F
    }
}

/// The contiguous framebuffer slice that page `p` of a flush carries.
pub open spec fn spec_page_payload(buf: Seq<u8>, p: int) -> Seq<u8> {
    buf.subrange(1024 * p, 1024 * p + 1024)
}

/// Frame `i` of the 32-frame flush sequence: each page contributes a
/// page-address command, the two column-address commands, and a data frame
/// of the page's 1024 framebuffer bytes behind the data marker.
pub open spec fn spec_flush_frame(buf: Seq<u8>, i: int) -> Seq<u8> {
    let p = i / 4;
    if i % 4 == 0 {
        seq![0x00u8, (0xB0 + p) as u8]
    } else if i % 4 == 1 {
        seq![0x00u8, 0x00u8]
    } else if i % 4 == 2 {
        seq![0x00u8, 0x10u8]
    } else {
        seq![0x40u8] + spec_page_payload(buf, p)
    }
}

/// The whole flush sequence, in transmission order.
pub open spec fn spec_flush_frames(buf: Seq<u8>) -> Seq<Seq<u8>> {
    Seq::new(32, |i: int| spec_flush_frame(buf, i))
}

/// The fixed initialization command sequence, chunked two command bytes per
/// frame behind the command marker, byte-for-byte as the panel expects it:
/// display off; clock divide; multiplex 63; offset 0; start line 0; DC-DC
/// on; segment remap; COM scan direction; COM pins; contrast; pre-charge;
/// VCOM level; all-on-resume; display on.
pub open spec fn spec_init_frames() -> Seq<Seq<u8>> {
    seq![
        seq![0x00u8, 0xAEu8, 0xD5u8],
        seq![0x00u8, 0x80u8, 0xA8u8],
        seq![0x00u8, 0x3Fu8, 0xD3u8],
        seq![0x00u8, 0x00u8, 0x40u8],
        seq![0x00u8, 0xADu8, 0x8Bu8],
        seq![0x00u8, 0xA0u8, 0xC8u8],
        seq![0x00u8, 0xDAu8, 0x12u8],
        seq![0x00u8, 0x81u8, 0x7Fu8],
        seq![0x00u8, 0xD9u8, 0xF1u8],
        seq![0x00u8, 0xDBu8, 0x40u8],
        seq![0x00u8, 0xA4u8, 0xAFu8],
    ]
}

/// The SH1122 driver state: the device bus address and the packed
/// framebuffer.
pub struct Sh1122 {
    pub addr: u8,
    pub buffer: Vec<u8>,
}

impl Sh1122 {
    /// The framebuffer holds exactly its 8192 packed bytes.
    pub open spec fn wf(self) -> bool {
        self.buffer@.len() == BUF_LEN
    }

    /// A driver for the device at `addr` with an all-black framebuffer.
    pub fn new(addr: u8) -> (d: Sh1122)
        ensures
            d.wf(),
            d.addr == addr,
            d.buffer@ == Seq::new(BUF_LEN as nat, |i: int| 0u8),
    {
        let mut buffer: Vec<u8> = Vec::new();
        let mut i: usize = 0;
        while i < BUF_LEN
            invariant
                i <= BUF_LEN,
                buffer@ == Seq::new(i as nat, |j: int| 0u8),
            decreases BUF_LEN - i,
        {
            buffer.push(0);
            proof {
                assert(buffer@ =~= Seq::new((i + 1) as nat, |j: int| 0u8));
            }
            i += 1;
        }
        Sh1122 { addr, buffer }
    }

    /// The initialization command frames, to be written in order; the exact
    /// bytes are fixed by the panel's power-up requirements.
    pub fn init(&self) -> (frames: Vec<Vec<u8>>)
        ensures
            frames.deep_view() == spec_init_frames(),
    {
        let mut frames: Vec<Vec<u8>> = Vec::new();
        frames.push(vec![0x00u8, 0xAE, 0xD5]);
        frames.push(vec![0x00u8, 0x80, 0xA8]);
        frames.push(vec![0x00u8, 0x3F, 0xD3]);
        frames.push(vec![0x00u8, 0x00, 0x40]);
        frames.push(vec![0x00u8, 0xAD, 0x8B]);
        frames.push(vec![0x00u8, 0xA0, 0xC8]);
        frames.push(vec![0x00u8, 0xDA, 0x12]);
        frames.push(vec![0x00u8, 0x81, 0x7F]);
        frames.push(vec![0x00u8, 0xD9, 0xF1]);
        frames.push(vec![0x00u8, 0xDB, 0x40]);
        frames.push(vec![0x00u8, 0xA4, 0xAF]);
        proof {
            assert(frames.deep_view() =~~= spec_init_frames());
        }
        frames
    }

    /// Writes intensity `value` (clamped to 15) at logical pixel (x, y).
    /// Out-of-range coordinates are silently ignored. In range, exactly the
    /// packed byte for (x, y) changes, and it changes to the packing of the
    /// clamped value beside the preserved neighbour nibble, so reading the
    /// pixel back gives the clamped value.
    pub fn set_pixel(&mut self, x: usize, y: usize, value: u8)
        requires
            old(self).wf(),
        ensures
            final(self).wf(),
            final(self).addr == old(self).addr,
            (x >= PIXEL_W || y >= PIXEL_H) ==> final(self).buffer@ == old(self).buffer@,
            (x < PIXEL_W && y < PIXEL_H) ==> final(self).buffer@ == old(self).buffer@.update(
                spec_byte_index(x as int, y as int),
                spec_packed(
                    old(self).buffer@[spec_byte_index(x as int, y as int)],
                    x as int,
                    value,
                ),
            ),
            (x < PIXEL_W && y < PIXEL_H) ==> spec_pixel(final(self).buffer@, x as int, y as int)
                == spec_clamp15(value),
    {
        if x >= PIXEL_W || y >= PIXEL_H {
            return ;
        }
        let value = if value > 15 {
            15
        } else {
            value
        };
        let yy = 63 - y;
        let index = (yy * 256 + x) / 2;
        assert(index < BUF_LEN);
        let b = self.buffer[index];
        if x % 2 == 0 {
            let nb = (b & 0x0F) | (value << 4);
            self.buffer.set(index, nb);
            proof {
                assert(((b & 0x0F) | (value << 4)) >> 4 == value) by (bit_vector)
                    requires
                        value <= 15,
                ;
            }
        } else {
            let nb = (b & 0xF0) | value;
            self.buffer.set(index, nb);
            proof {
                assert(((b & 0xF0) | value) & 0x0F == value) by (bit_vector)
                    requires
                        value <= 15,
                ;
            }
        }
    }

    /// Reads the stored nibble for logical pixel (x, y).
    pub fn get_pixel(&self, x: usize, y: usize) -> (v: u8)
        requires
            self.wf(),
            x < PIXEL_W,
            y < PIXEL_H,
        ensures
            v == spec_pixel(self.buffer@, x as int, y as int),
            v <= 15,
    {
        let yy = 63 - y;
        let index = (yy * 256 + x) / 2;
        assert(index < BUF_LEN);
        let b = self.buffer[index];
        if x % 2 == 0 {
            proof {
                assert(b >> 4 <= 15) by (bit_vector);
            }
            b >> 4
        } else {
            proof {
                assert(b & 0x0F <= 15) by (bit_vector);
            }
            b & 0x0F
        }
    }

    /// Zeroes the whole framebuffer without transmitting anything.
    pub fn clear(&mut self)
        requires
            old(self).wf(),
        ensures
            final(self).wf(),
            final(self).addr == old(self).addr,
            final(self).buffer@ == Seq::new(BUF_LEN as nat, |i: int| 0u8),
    {
        let mut i: usize = 0;
        while i < BUF_LEN
            invariant
                old(self).wf(),
                self.wf(),
                self.addr == old(self).addr,
                i <= BUF_LEN,
                forall|j: int| 0 <= j < i ==> self.buffer@[j] == 0u8,
            decreases BUF_LEN - i,
        {
            self.buffer.set(i, 0);
            i += 1;
        }
        proof {
            assert(self.buffer@ =~= Seq::new(BUF_LEN as nat, |i: int| 0u8));
        }
    }

    /// The flush sequence: for each of the 8 pages, in page order, the
    /// page-address command (0xB0 + page), column-low 0x00, column-high
    /// 0x10, and a data frame whose 1024 payload bytes are the page's
    /// contiguous framebuffer slice.
    pub fn flush(&self) -> (frames: Vec<Vec<u8>>)
        requires
            self.wf(),
        ensures
            frames.deep_view() == spec_flush_frames(self.buffer@),
            frames@.len() == 32,
    {
        let ghost buf = self.buffer@;
        let mut frames: Vec<Vec<u8>> = Vec::new();
        let mut page: usize = 0;
        while page < PAGES
            invariant
                self.wf(),
                buf == self.buffer@,
                page <= PAGES,
                frames@.len() == 4 * page,
                forall|i: int|
                    0 <= i < 4 * page ==> frames@[i]@ == #[trigger] spec_flush_frame(buf, i),
            decreases PAGES - page,
        {
            let page_addr = 0xB0u8 + (page as u8);
            frames.push(vec![0x00u8, page_addr]);
            frames.push(vec![0x00u8, 0x00]);
            frames.push(vec![0x00u8, 0x10]);

            let start = page * PAGE_LEN;
            let mut data: Vec<u8> = Vec::new();
            data.push(0x40);
            let mut j: usize = 0;
            while j < PAGE_LEN
                invariant
                    self.wf(),
                    buf == self.buffer@,
                    page < PAGES,
                    start == page * PAGE_LEN,
                    j <= PAGE_LEN,
                    data@ == seq![0x40u8] + buf.subrange(start as int, start + j),
                decreases PAGE_LEN - j,
            {
                data.push(self.buffer[start + j]);
                proof {
                    assert(data@ =~= seq![0x40u8] + buf.subrange(start as int, start + j + 1));
                }
                j += 1;
            }
            frames.push(data);
            proof {
                let p = page as int;
                assert(forall|i: int|
                    4 * p <= i < 4 * p + 4 ==> frames@[i]@ == #[trigger] spec_flush_frame(buf, i))
                    by {
                    assert((4 * p) / 4 == p && (4 * p) % 4 == 0);
                    assert((4 * p + 1) / 4 == p && (4 * p + 1) % 4 == 1);
                    assert((4 * p + 2) / 4 == p && (4 * p + 2) % 4 == 2);
                    assert((4 * p + 3) / 4 == p && (4 * p + 3) % 4 == 3);
                    assert(frames@[4 * p]@ =~= spec_flush_frame(buf, 4 * p));
                    assert(frames@[4 * p + 1]@ =~= spec_flush_frame(buf, 4 * p + 1));
                    assert(frames@[4 * p + 2]@ =~= spec_flush_frame(buf, 4 * p + 2));
                    assert(frames@[4 * p + 3]@ =~= spec_flush_frame(buf, 4 * p + 3));
                }
            }
            page += 1;
        }
        proof {
            assert(frames.deep_view() =~~= spec_flush_frames(buf));
        }
        frames
    }
}

/// The vertical flip: a write at logical row 0 lands in the byte region of
/// physical row 63 (the last 128 bytes of the buffer), and a write at
/// logical row 63 lands in physical row 0 (the first 128 bytes).
pub proof fn lemma_vertical_flip(x: int)
    requires
        0 <= x < 256,
    ensures
        63 * 128 <= spec_byte_index(x, 0) < 64 * 128,
        0 <= spec_byte_index(x, 63) < 128,
{
}

/// Writing one in-range pixel leaves every other in-range pixel unchanged:
/// a different byte is untouched by the update, and the neighbour pixel
/// that shares the byte lives in the preserved nibble.
pub proof fn lemma_set_pixel_frame(buf: Seq<u8>, x: int, y: int, v: u8, x2: int, y2: int)
    requires
        buf.len() == BUF_LEN,
        0 <= x < 256,
        0 <= y < 64,
        0 <= x2 < 256,
        0 <= y2 < 64,
        !(x2 == x && y2 == y),
    ensures
        spec_pixel(
            buf.update(spec_byte_index(x, y), spec_packed(buf[spec_byte_index(x, y)], x, v)),
            x2,
            y2,
        ) == spec_pixel(buf, x2, y2),
{
    let l1 = (63 - y) * 256 + x;
    let l2 = (63 - y2) * 256 + x2;
    assert(0 <= l1 < 16384 && 0 <= l2 < 16384);
    if l1 / 2 == l2 / 2 {
        assert(l1 == 2 * (l1 / 2) + l1 % 2);
        assert(l2 == 2 * (l2 / 2) + l2 % 2);
        assert(l1 % 2 == x % 2 && l2 % 2 == x2 % 2) by {
            assert(((63 - y) * 256 + x) % 2 == x % 2) by (nonlinear_arith)
                requires
                    0 <= x < 256,
                    0 <= y < 64,
            ;
            assert(((63 - y2) * 256 + x2) % 2 == x2 % 2) by (nonlinear_arith)
                requires
                    0 <= x2 < 256,
                    0 <= y2 < 64,
            ;
        }
        assert(l1 - l2 == x % 2 - x2 % 2);
        assert(-1 <= l1 - l2 <= 1);
        assert(l1 - l2 == 256 * (y2 - y) + (x - x2));
        assert(y2 == y);
        assert(x2 != x);
        assert(x2 % 2 != x % 2);
        let b = buf[spec_byte_index(x, y)];
        let cv = spec_clamp15(v);
        assert(cv <= 15);
        if x % 2 == 0 {
            assert(((b & 0x0F) | (cv << 4)) & 0x0F == b & 0x0F) by (bit_vector);
        } else {
            assert(((b & 0xF0) | cv) >> 4 == b >> 4) by (bit_vector)
                requires
                    cv <= 15,
            ;
        }
    } else {
        assert(buf.update(spec_byte_index(x, y), spec_packed(buf[spec_byte_index(x, y)], x, v))[
            spec_byte_index(x2, y2)] == buf[spec_byte_index(x2, y2)]);
    }
}

/// The eight page payloads of a flush, concatenated in page order,
/// reconstruct the full 8192-byte framebuffer exactly once, with no
/// overlap and no gap.
pub proof fn lemma_pages_reconstruct(buf: Seq<u8>)
    requires
        buf.len() == BUF_LEN,
    ensures
        spec_page_payload(buf, 0) + spec_page_payload(buf, 1) + spec_page_payload(buf, 2)
            + spec_page_payload(buf, 3) + spec_page_payload(buf, 4) + spec_page_payload(buf, 5)
            + spec_page_payload(buf, 6) + spec_page_payload(buf, 7) == buf,
{
    assert(spec_page_payload(buf, 0) + spec_page_payload(buf, 1) + spec_page_payload(buf, 2)
        + spec_page_payload(buf, 3) + spec_page_payload(buf, 4) + spec_page_payload(buf, 5)
        + spec_page_payload(buf, 6) + spec_page_payload(buf, 7) =~= buf);
}

} // verus!
