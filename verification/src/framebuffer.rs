//! The pixel store behind a frame buffer: RGB565 pixels kept byte-swapped,
//! so that the memory holds each pixel high byte first, the order in which
//! the ILI9341 panel reads it.
use crate::color::{blue_of, green_of, red_of, Color565};
use vstd::prelude::*;

verus! {

/// Width of the panel in landscape orientation (its native height).
pub const DISPLAY_WIDTH: u16 = 320;

/// Height of the panel in landscape orientation (its native width).
pub const DISPLAY_HEIGHT: u16 = 240;

/// Number of pixels in one frame.
pub const FRAMEBUFFER_SIZE: usize = 76800;

/// One frame holds a pixel for every position of the landscape display.
pub proof fn lemma_framebuffer_size()
    ensures
        FRAMEBUFFER_SIZE == DISPLAY_WIDTH as int * DISPLAY_HEIGHT as int,
{
}

/// `x` with its two bytes exchanged.
pub open spec fn swap16(x: u16) -> u16 {
    (((x & 0xffu16) << 8u16) | (x >> 8u16)) as u16
}

/// High byte of a 16-bit word.
pub open spec fn high_byte(x: u16) -> u8 {
    (x >> 8u16) as u8
}

/// Low byte of a 16-bit word.
pub open spec fn low_byte(x: u16) -> u8 {
    (x & 0xffu16) as u8
}

/// Exchanging the bytes twice gives the word back.
pub proof fn lemma_swap16_involutive(x: u16)
    ensures
        swap16(swap16(x)) == x,
{
    assert((((((((x & 0xffu16) << 8u16) | (x >> 8u16)) as u16) & 0xffu16) << 8u16) | ((((x & 0xffu16) << 8u16) | (x >> 8u16)) as u16 >> 8u16)) as u16 == x) by (bit_vector);
}

/// The low byte of a swapped word is the high byte of the word, and the
/// other way round.
pub proof fn lemma_swap16_bytes(x: u16)
    ensures
        low_byte(swap16(x)) == high_byte(x),
        high_byte(swap16(x)) == low_byte(x),
{
    assert((((((x & 0xffu16) << 8u16) | (x >> 8u16)) as u16) & 0xffu16) as u8 == (x >> 8u16) as u8) by (bit_vector);
    assert((((((x & 0xffu16) << 8u16) | (x >> 8u16)) as u16) >> 8u16) as u8 == (x & 0xffu16) as u8) by (bit_vector);
}

fn swap_bytes(x: u16) -> (y: u16)
    ensures
        y == swap16(x),
{
    ((x & 0xff) << 8) | (x >> 8)
}

/// Pixels of one frame. Each pixel is stored with its bytes exchanged; the
/// view is the sequence of colors (their storage words) in row-major order.
pub struct OwnedBuffer {
    words: Vec<u16>,
}

impl View for OwnedBuffer {
    type V = Seq<u16>;

    closed spec fn view(&self) -> Seq<u16> {
        self.words@.map_values(|w: u16| swap16(w))
    }
}

impl OwnedBuffer {
    /// A buffer of `len` black pixels.
    pub fn black(len: usize) -> (buf: Self)
        ensures
            buf@ == Seq::new(len as nat, |i: int| 0u16),
    {
        let words: Vec<u16> = vec![0u16; len];
        let buf = OwnedBuffer { words };
        assert(swap16(0) == 0) by (bit_vector);
        assert(buf@ =~= Seq::new(len as nat, |i: int| 0u16));
        buf
    }

    /// Stores `color` at pixel `index`; no other pixel changes.
    pub fn set(&mut self, index: usize, color: Color565)
        requires
            index < old(self)@.len(),
        ensures
            final(self)@ == old(self)@.update(index as int, color@),
    {
        let w = swap_bytes(color.storage());
        self.words.set(index, w);
        proof {
            lemma_swap16_involutive(color@);
            assert(self@ =~= old(self)@.update(index as int, color@));
        }
    }

    /// The color at pixel `index`.
    pub fn get(&self, index: usize) -> (color: Color565)
        requires
            index < self@.len(),
        ensures
            color@ == self@[index as int],
    {
        Color565::from_storage(swap_bytes(self.words[index]))
    }

    /// The number of pixels.
    pub fn nr_elements(&self) -> (n: usize)
        ensures
            n == self@.len(),
    {
        self.words.len()
    }

    /// The bytes as the panel reads them: every pixel high byte first.
    pub fn as_bytes(&self) -> (bytes: Vec<u8>)
        ensures
            bytes@.len() == 2 * self@.len(),
            forall|i: int|
                0 <= i < self@.len() ==> #[trigger] bytes@[2 * i] == high_byte(self@[i])
                    && bytes@[2 * i + 1] == low_byte(self@[i]),
    {
        let mut bytes: Vec<u8> = Vec::new();
        let n = self.words.len();
        let mut i: usize = 0;
        while i < n
            invariant
                n == self.words@.len(),
                i <= n,
                bytes@.len() == 2 * i,
                forall|j: int|
                    0 <= j < i ==> #[trigger] bytes@[2 * j] == high_byte(self@[j])
                        && bytes@[2 * j + 1] == low_byte(self@[j]),
            decreases n - i,
        {
            let w = self.words[i];
            bytes.push((w & 0xff) as u8);
            bytes.push((w >> 8) as u8);
            proof {
                lemma_swap16_bytes(w);
                lemma_swap16_involutive(w);
                assert(self@[i as int] == swap16(w));
                assert(low_byte(w) == high_byte(swap16(w)));
            }
            i = i + 1;
        }
        bytes
    }
}

/// The pixel store of a fresh frame buffer: one black pixel per position of
/// the display.
pub fn new_framebuffer() -> (buf: OwnedBuffer)
    ensures
        buf@.len() == FRAMEBUFFER_SIZE,
        forall|i: int| 0 <= i < buf@.len() ==> buf@[i] == 0,
{
    OwnedBuffer::black(FRAMEBUFFER_SIZE)
}

/// Reading a pixel gives the color last stored there.
pub proof fn lemma_get_after_set(before: Seq<u16>, after: Seq<u16>, index: int, color: u16)
    requires
        0 <= index < before.len(),
        after == before.update(index, color),
    ensures
        after[index] == color,
        after.len() == before.len(),
        forall|j: int| 0 <= j < before.len() && j != index ==> after[j] == before[j],
{
}

/// On the wire a pixel is its five red bits and the top three green bits,
/// then the low three green bits and the five blue bits.
pub proof fn lemma_wire_bytes(s: u16)
    ensures
        high_byte(s) == (red_of(s) << 3u8) | (green_of(s) >> 3u8),
        low_byte(s) == ((green_of(s) & 7u8) << 5u8) | blue_of(s),
{
    assert((s >> 8u16) as u8 == ((((s >> 11u16) & 31u16) as u8) << 3u8) | ((((s >> 5u16) & 63u16) as u8) >> 3u8)) by (bit_vector);
    assert((s & 0xffu16) as u8 == (((((s >> 5u16) & 63u16) as u8) & 7u8) << 5u8) | ((s & 31u16) as u8)) by (bit_vector);
}

} // verus!
