//! Tiles and the frame buffer: two bits per pixel, decoded into one of four
//! shades.

use crate::bits::{
    bit, lemma_bit_set_clear, lemma_bits_determine_byte, lemma_pack_bytes, test_bit,
};
use crate::memory::{tile_bytes, tile_start, Memory, MemoryMap, SCX, SCY};
use vstd::prelude::*;
use vstd::std_specs::cmp::PartialEqSpecImpl;

verus! {

/// One of the four shades a pixel can take.
#[derive(Copy, Clone, PartialEq, Eq, Structural, Debug)]
pub enum Color {
    C0,
    C1,
    C2,
    C3,
}

impl Color {
    /// The shade's index, from 0 to 3.
    pub open spec fn index(self) -> int {
        match self {
            Color::C0 => 0,
            Color::C1 => 1,
            Color::C2 => 2,
            Color::C3 => 3,
        }
    }

    /// The shade whose index has `high` as its bit 1 and `low` as its bit 0.
    pub open spec fn from_planes(high: bool, low: bool) -> Color {
        match (high, low) {
            (false, false) => Color::C0,
            (false, true) => Color::C1,
            (true, false) => Color::C2,
            (true, true) => Color::C3,
        }
    }

    /// The shade with the given index.
    pub open spec fn from_index(index: int) -> Color {
        if index == 0 {
            Color::C0
        } else if index == 1 {
            Color::C1
        } else if index == 2 {
            Color::C2
        } else {
            Color::C3
        }
    }

    /// Bit 1 of the shade's index.
    pub open spec fn high_plane(self) -> bool {
        self == Color::C2 || self == Color::C3
    }

    /// Bit 0 of the shade's index.
    pub open spec fn low_plane(self) -> bool {
        self == Color::C1 || self == Color::C3
    }

    /// The shade's index as a number.
    pub fn as_bits(self) -> (bits: u8)
        ensures
            bits == self.index(),
    {
        match self {
            Color::C0 => 0x00,
            Color::C1 => 0x01,
            Color::C2 => 0x02,
            Color::C3 => 0x03,
        }
    }
}

/// The scroll state of the background: which part of the 256 by 256 plane
/// the screen shows.
pub struct BGWindow {
    enabled: bool,
    scrollx: u8,
    scrolly: u8,
}

impl BGWindow {
    /// The column of the plane shown at the left edge of the screen.
    pub closed spec fn scroll_x(&self) -> u8 {
        self.scrollx
    }

    /// The row of the plane shown at the top edge of the screen.
    pub closed spec fn scroll_y(&self) -> u8 {
        self.scrolly
    }

    /// Whether the background is drawn.
    pub closed spec fn enabled(&self) -> bool {
        self.enabled
    }

    /// A disabled window at the origin of the plane.
    pub fn new() -> (window: Self)
        ensures
            window.scroll_x() == 0,
            window.scroll_y() == 0,
            !window.enabled(),
    {
        Self { enabled: false, scrollx: 0, scrolly: 0 }
    }

    /// Takes over the scroll registers.
    pub fn update(&mut self, scx: SCX, scy: SCY)
        ensures
            final(self).scroll_x() == scx.scroll_x,
            final(self).scroll_y() == scy.scroll_y,
            final(self).enabled() == old(self).enabled(),
    {
        self.scrollx = scx.scroll_x;
        self.scrolly = scy.scroll_y;
    }

    /// The bottom row and the right column of the visible rectangle. The
    /// plane wraps around at 256 in both directions.
    pub fn get(self) -> (corner: (u8, u8))
        ensures
            corner.0 == (self.scroll_y() + 143) % 256,
            corner.1 == (self.scroll_x() + 159) % 256,
    {
        let bottom = self.scrolly.wrapping_add(143);
        let right = self.scrollx.wrapping_add(159);
        (bottom, right)
    }
}

/// The background plane: 256 by 256 pixels and its scroll state.
pub struct BackGround {
    pixels: [Color; 65536],
    enabled: bool,
    window: BGWindow,
}

/// The shade of pixel `x` of a tile line, counted from the left: its low bit
/// is bit `7 - x` of the first byte, its high bit is bit `7 - x` of the
/// second.
pub open spec fn decode_pixel(low_plane: u8, high_plane: u8, x: int) -> Color
    recommends
        0 <= x < 8,
{
    Color::from_planes(bit(high_plane, (7 - x) as u8), bit(low_plane, (7 - x) as u8))
}

/// The eight shades that a pair of bytes stands for.
pub open spec fn decode_line(low_plane: u8, high_plane: u8) -> Seq<Color> {
    Seq::new(8, |x: int| decode_pixel(low_plane, high_plane, x))
}

/// The eight lines that sixteen bytes stand for: bytes `2k` and `2k + 1`
/// make line `k`.
pub open spec fn decode_tile(bytes: Seq<u8>) -> Seq<Seq<Color>>
    recommends
        bytes.len() == 16,
{
    Seq::new(8, |y: int| decode_line(bytes[2 * y], bytes[2 * y + 1]))
}

/// One row of a tile: eight pixels.
#[derive(Clone, Copy, Eq)]
pub struct TileLine {
    line: [Color; 8],
}

impl View for TileLine {
    type V = Seq<Color>;

    /// The eight shades, from left to right.
    open spec fn view(&self) -> Seq<Color> {
        Seq::new(8, |x: int| self.spec_pixel(x))
    }
}

impl PartialEq for TileLine {
    fn eq(&self, other: &Self) -> (equal: bool) {
        let mut x: usize = 0;
        while x < 8
            invariant
                x <= 8,
                forall|k: int| 0 <= k < x ==> self.spec_pixel(k) == other.spec_pixel(k),
            decreases 8 - x,
        {
            if self.line[x] != other.line[x] {
                assert(self@[x as int] != other@[x as int]);
                return false;
            }
            x += 1;
        }
        assert(self@ =~= other@);
        true
    }
}

impl PartialEqSpecImpl for TileLine {
    open spec fn obeys_eq_spec() -> bool {
        true
    }

    open spec fn eq_spec(&self, other: &Self) -> bool {
        self@ == other@
    }
}

impl TileLine {
    /// The shade of pixel `x`, counted from the left.
    pub closed spec fn spec_pixel(&self, x: int) -> Color {
        self.line@[x]
    }

    /// The eight bits of `byte`, the most significant first.
    fn bits_bool(byte: u8) -> (bits: [bool; 8])
        ensures
            forall|x: int| 0 <= x < 8 ==> bits@[x] == bit(byte, (7 - x) as u8),
    {
        let mut bits: [bool; 8] = [false; 8];
        let mut i: usize = 0;
        while i < 8
            invariant
                i <= 8,
                forall|x: int| 0 <= x < i ==> bits@[x] == bit(byte, (7 - x) as u8),
            decreases 8 - i,
        {
            bits[i] = test_bit(byte, 7 - i as u8);
            i += 1;
        }
        bits
    }

    /// Decodes a line from its two bytes: the first holds the low bit of each
    /// pixel, the second the high bit.
    pub fn new(byte_one: u8, byte_two: u8) -> (line: Self)
        ensures
            line@ == decode_line(byte_one, byte_two),
    {
        let low = Self::bits_bool(byte_one);
        let high = Self::bits_bool(byte_two);
        let mut line: [Color; 8] = [Color::C0; 8];
        let mut i: usize = 0;
        while i < 8
            invariant
                i <= 8,
                forall|x: int| 0 <= x < 8 ==> low@[x] == bit(byte_one, (7 - x) as u8),
                forall|x: int| 0 <= x < 8 ==> high@[x] == bit(byte_two, (7 - x) as u8),
                forall|x: int| 0 <= x < i ==> line@[x] == decode_pixel(byte_one, byte_two, x),
            decreases 8 - i,
        {
            let (bit_a, bit_b) = (low[i], high[i]);
            line[i] = match (bit_b, bit_a) {
                (false, false) => Color::C0,
                (false, true) => Color::C1,
                (true, false) => Color::C2,
                (true, true) => Color::C3,
            };
            i += 1;
        }
        Self { line }
    }

    /// The shade of pixel `x`, counted from the left.
    pub fn pixel(&self, x: usize) -> (color: Color)
        requires
            x < 8,
        ensures
            color == self@[x as int],
    {
        self.line[x]
    }

    /// Packs the line back into its two bytes: the second (high plane) byte
    /// in bits 8 to 15, the first (low plane) byte in bits 0 to 7.
    pub fn as_bytes(&self) -> (packed: u16)
        ensures
            self@ == decode_line((packed % 256) as u8, (packed / 256) as u8),
    {
        let mut hi: u8 = 0;
        let mut lo: u8 = 0;
        proof {
            lemma_bits_determine_byte(0, 0);
        }
        let mut i: usize = 0;
        while i < 8
            invariant
                i <= 8,
                forall|p: u8|
                    8 - i <= p < 8 ==> #[trigger] bit(lo, p) == self@[7 - p].low_plane(),
                forall|p: u8|
                    8 - i <= p < 8 ==> #[trigger] bit(hi, p) == self@[7 - p].high_plane(),
                forall|p: u8| p < 8 - i ==> !#[trigger] bit(lo, p),
                forall|p: u8| p < 8 - i ==> !#[trigger] bit(hi, p),
            decreases 8 - i,
        {
            let (bit1, bit0) = match self.line[i] {
                Color::C0 => (false, false),
                Color::C1 => (false, true),
                Color::C2 => (true, false),
                Color::C3 => (true, true),
            };
            let shift: u8 = 7 - i as u8;
            let ghost old_lo = lo;
            let ghost old_hi = hi;
            if bit0 {
                lo |= 1u8 << shift;
            }
            if bit1 {
                hi |= 1u8 << shift;
            }
            proof {
                assert forall|p: u8| p < 8 implies #[trigger] bit(lo, p) == (if p == shift {
                    bit0
                } else {
                    bit(old_lo, p)
                }) by {
                    lemma_bit_set_clear(old_lo, shift, p);
                }
                assert forall|p: u8| p < 8 implies #[trigger] bit(hi, p) == (if p == shift {
                    bit1
                } else {
                    bit(old_hi, p)
                }) by {
                    lemma_bit_set_clear(old_hi, shift, p);
                }
            }
            i += 1;
        }
        let packed = ((hi as u16) << 8) | lo as u16;
        proof {
            lemma_pack_bytes(hi, lo);
            assert forall|x: int| 0 <= x < 8 implies self@[x] == decode_pixel(lo, hi, x) by {
                let p = (7 - x) as u8;
                assert(bit(lo, p) == self@[7 - p].low_plane());
                assert(bit(hi, p) == self@[7 - p].high_plane());
            }
            assert(self@ =~= decode_line(lo, hi));
        }
        packed
    }
}

/// The two bits of a decoded pixel are the bits it was decoded from: pixel
/// `7 - position` takes bit `position` of each byte.
pub proof fn lemma_pixel_planes(low_plane: u8, high_plane: u8, position: u8)
    requires
        position < 8,
    ensures
        decode_line(low_plane, high_plane)[7 - position].low_plane() == bit(low_plane, position),
        decode_line(low_plane, high_plane)[7 - position].high_plane() == bit(
            high_plane,
            position,
        ),
{
    let x = 7 - position;
    assert((7 - x) as u8 == position);
    assert(decode_line(low_plane, high_plane)[x] == decode_pixel(low_plane, high_plane, x));
}

/// Two pairs of bytes that decode to the same line are the same pair.
pub proof fn lemma_decode_line_injective(low_a: u8, high_a: u8, low_b: u8, high_b: u8)
    requires
        decode_line(low_a, high_a) == decode_line(low_b, high_b),
    ensures
        low_a == low_b,
        high_a == high_b,
{
    assert forall|p: u8| p < 8 implies #[trigger] bit(low_a, p) == bit(low_b, p) by {
        lemma_pixel_planes(low_a, high_a, p);
        lemma_pixel_planes(low_b, high_b, p);
    }
    assert forall|p: u8| p < 8 implies #[trigger] bit(high_a, p) == bit(high_b, p) by {
        lemma_pixel_planes(low_a, high_a, p);
        lemma_pixel_planes(low_b, high_b, p);
    }
    lemma_bits_determine_byte(low_a, low_b);
    lemma_bits_determine_byte(high_a, high_b);
}

/// Packing is the inverse of decoding: the line decoded from two bytes packs
/// back into those bytes.
pub proof fn lemma_line_round_trip(low_plane: u8, high_plane: u8, packed: u16)
    requires
        decode_line(low_plane, high_plane) == decode_line(
            (packed % 256) as u8,
            (packed / 256) as u8,
        ),
    ensures
        packed == high_plane * 256 + low_plane,
{
    lemma_decode_line_injective(
        low_plane,
        high_plane,
        (packed % 256) as u8,
        (packed / 256) as u8,
    );
}

/// A tile: eight lines of eight pixels.
#[derive(Eq)]
pub struct Tile {
    lines: [TileLine; 8],
}

impl View for Tile {
    type V = Seq<Seq<Color>>;

    /// The eight lines, from top to bottom.
    open spec fn view(&self) -> Seq<Seq<Color>> {
        Seq::new(8, |y: int| self.spec_line(y)@)
    }
}

impl PartialEq for Tile {
    fn eq(&self, other: &Self) -> (equal: bool) {
        let mut y: usize = 0;
        while y < 8
            invariant
                y <= 8,
                forall|k: int| 0 <= k < y ==> self.spec_line(k)@ == other.spec_line(k)@,
            decreases 8 - y,
        {
            if self.lines[y] != other.lines[y] {
                assert(self@[y as int] != other@[y as int]);
                return false;
            }
            y += 1;
        }
        assert(self@ =~= other@);
        true
    }
}

impl PartialEqSpecImpl for Tile {
    open spec fn obeys_eq_spec() -> bool {
        true
    }

    open spec fn eq_spec(&self, other: &Self) -> bool {
        self@ == other@
    }
}

impl Tile {
    /// Line `y` of the tile, counted from the top.
    pub closed spec fn spec_line(&self, y: int) -> TileLine {
        self.lines@[y]
    }

    /// Decodes a tile from its sixteen bytes.
    pub fn new(bytes: [u8; 16]) -> (tile: Self)
        ensures
            tile@ == decode_tile(bytes@),
    {
        let mut lines: [TileLine; 8] = [TileLine::new(0, 0); 8];
        let mut i: usize = 0;
        while i < 8
            invariant
                i <= 8,
                forall|y: int|
                    0 <= y < i ==> lines@[y]@ == decode_line(bytes@[2 * y], bytes@[2 * y + 1]),
            decreases 8 - i,
        {
            let byte_one = bytes[i * 2];
            let byte_two = bytes[i * 2 + 1];
            lines[i] = TileLine::new(byte_one, byte_two);
            i += 1;
        }
        Self { lines }
    }

    /// Line `y` of the tile, counted from the top.
    pub fn line(&self, y: usize) -> (line: TileLine)
        requires
            y < 8,
        ensures
            line@ == self@[y as int],
    {
        self.lines[y]
    }
}

/// Two runs of sixteen bytes that decode to the same tile are the same run.
pub proof fn lemma_decode_tile_injective(bytes_a: Seq<u8>, bytes_b: Seq<u8>)
    requires
        bytes_a.len() == 16,
        bytes_b.len() == 16,
        decode_tile(bytes_a) == decode_tile(bytes_b),
    ensures
        bytes_a == bytes_b,
{
    assert forall|k: int| 0 <= k < 16 implies bytes_a[k] == bytes_b[k] by {
        let y = k / 2;
        assert(decode_tile(bytes_a)[y] == decode_tile(bytes_b)[y]);
        lemma_decode_line_injective(
            bytes_a[2 * y],
            bytes_a[2 * y + 1],
            bytes_b[2 * y],
            bytes_b[2 * y + 1],
        );
    }
}

/// One visible row of the screen: 160 pixels.
#[derive(Copy, Clone)]
pub struct ScanLine {
    pub pixels: [Color; 160],
}

impl View for ScanLine {
    type V = Seq<Color>;

    /// The 160 shades, from left to right.
    open spec fn view(&self) -> Seq<Color> {
        self.pixels@
    }
}

impl ScanLine {
    /// A row of the lightest shade.
    pub fn new() -> (line: Self)
        ensures
            line@ == Seq::new(160, |x: int| Color::C0),
    {
        Self { pixels: [Color::C0; 160] }
    }
}

impl Default for ScanLine {
    fn default() -> (line: Self)
        ensures
            line@ == Seq::new(160, |x: int| Color::C0),
    {
        Self::new()
    }
}

/// The frame buffer: 144 rows of 160 pixels.
#[derive(Clone)]
pub struct Display {
    pub lines: [ScanLine; 144],
}

impl View for Display {
    type V = Seq<Seq<Color>>;

    /// The 144 rows, from top to bottom.
    open spec fn view(&self) -> Seq<Seq<Color>> {
        Seq::new(144, |y: int| self.lines@[y]@)
    }
}

/// The shade that the background gives the screen pixel in column `x` of row
/// `y`, read off the bus. The scroll registers place the pixel on the plane,
/// which wraps around at 256; the tile map that bit 3 of the LCD control
/// register selects names the tile that covers it; the tile is decoded from
/// the block that bit 4 selects.
pub open spec fn background_pixel(bus: Seq<u8>, x: int, y: int) -> Color
    recommends
        bus.len() == 0x1_0000,
        0 <= x < 160,
        0 <= y < 144,
{
    let control = bus[0xFF40];
    let column = (bus[0xFF43] + x) % 256;
    let row = (bus[0xFF42] + y) % 256;
    let map_start: int = if bit(control, 3) {
        0x9C00
    } else {
        0x9800
    };
    let id = bus[map_start + (row / 8) * 32 + column / 8];
    let tile = decode_tile(tile_bytes(bus.subrange(0x8000, 0x9800), bit(control, 4), id));
    tile[row % 8][column % 8]
}

/// A pixel of a tile, read off the bus: line `row` of tile `id` is decoded
/// from the two bytes at `2 * row` and `2 * row + 1` of the tile's run.
pub proof fn lemma_tile_pixel(bus: Seq<u8>, select: bool, id: u8, row: int, column: int)
    requires
        bus.len() == 0x1_0000,
        0 <= row < 8,
        0 <= column < 8,
    ensures
        decode_tile(tile_bytes(bus.subrange(0x8000, 0x9800), select, id))[row][column]
            == decode_pixel(
            bus[0x8000 + tile_start(select, id) + 2 * row],
            bus[0x8000 + tile_start(select, id) + 2 * row + 1],
            column,
        ),
{
    let bytes = tile_bytes(bus.subrange(0x8000, 0x9800), select, id);
    assert(bytes[2 * row] == bus[0x8000 + tile_start(select, id) + 2 * row]);
    assert(bytes[2 * row + 1] == bus[0x8000 + tile_start(select, id) + 2 * row + 1]);
    assert(decode_tile(bytes)[row] == decode_line(bytes[2 * row], bytes[2 * row + 1]));
}

/// Computes the shade that the background gives one pixel of the screen.
fn background_shade(memory: &MemoryMap, x: usize, y: usize) -> (color: Color)
    requires
        x < 160,
        y < 144,
    ensures
        color == background_pixel(memory@, x as int, y as int),
{
    let control = memory.read(0xFF40);
    let column = memory.read(0xFF43).wrapping_add(x as u8);
    let row = memory.read(0xFF42).wrapping_add(y as u8);
    let map_start: u16 = if test_bit(control, 3) {
        0x9C00
    } else {
        0x9800
    };
    let id = memory.read(map_start + (row / 8) as u16 * 32 + (column / 8) as u16);
    let start: u16 = if id < 128 && test_bit(control, 4) {
        0x8000 + id as u16
    } else {
        0x8800 + id as u16
    };
    let low = memory.read(start + 2 * (row % 8) as u16);
    let high = memory.read(start + 2 * (row % 8) as u16 + 1);
    let line = TileLine::new(low, high);
    let color = line.pixel((column % 8) as usize);
    proof {
        let bus = memory@;
        let c = (bus[0xFF43] + x) % 256;
        let r = (bus[0xFF42] + y) % 256;
        assert(column == c);
        assert(row == r);
        assert(id == bus[map_start + (r / 8) * 32 + c / 8]);
        lemma_tile_pixel(bus, bit(control, 4), id, r % 8, c % 8);
        assert(start == 0x8000 + tile_start(bit(control, 4), id));
        assert(low == bus[0x8000 + tile_start(bit(control, 4), id) + 2 * (r % 8)]);
        assert(high == bus[0x8000 + tile_start(bit(control, 4), id) + 2 * (r % 8) + 1]);
        assert(color == decode_pixel(low, high, c % 8));
    }
    color
}

/// The frame that the background gives: 144 rows of 160 pixels.
pub open spec fn background(bus: Seq<u8>) -> Seq<Seq<Color>> {
    Seq::new(144, |y: int| Seq::new(160, |x: int| background_pixel(bus, x, y)))
}

/// The frame in which the shades follow each other in the order of their
/// indices, left to right and top to bottom.
pub open spec fn test_frame() -> Seq<Seq<Color>> {
    Seq::new(144, |y: int| Seq::new(160, |x: int| Color::from_index((y * 160 + x) % 4)))
}

impl Display {
    /// Draws the background into the frame buffer.
    pub fn update(&mut self, memory: &MemoryMap)
        ensures
            final(self)@ == background(memory@),
    {
        let mut y: usize = 0;
        while y < 144
            invariant
                y <= 144,
                forall|r: int, c: int|
                    0 <= r < y && 0 <= c < 160 ==> self@[r][c] == background_pixel(memory@, c, r),
            decreases 144 - y,
        {
            let mut x: usize = 0;
            while x < 160
                invariant
                    x <= 160,
                    y < 144,
                    forall|r: int, c: int|
                        0 <= r < y && 0 <= c < 160 ==> self@[r][c] == background_pixel(
                            memory@,
                            c,
                            r,
                        ),
                    forall|c: int|
                        0 <= c < x ==> self@[y as int][c] == background_pixel(
                            memory@,
                            c,
                            y as int,
                        ),
                decreases 160 - x,
            {
                let color = background_shade(memory, x, y);
                self.set(color, x, y);
                x += 1;
            }
            y += 1;
        }
        assert(self@ =~~= background(memory@));
    }

    /// Fills the frame buffer with the four shades in turn.
    pub fn test_pattern(&mut self)
        ensures
            final(self)@ == test_frame(),
    {
        let mut i: u8 = 0;
        let mut y: usize = 0;
        while y < 144
            invariant
                y <= 144,
                i == (y * 160) % 4,
                forall|r: int, c: int|
                    0 <= r < y && 0 <= c < 160 ==> self@[r][c] == Color::from_index(
                        (r * 160 + c) % 4,
                    ),
            decreases 144 - y,
        {
            let mut x: usize = 0;
            while x < 160
                invariant
                    x <= 160,
                    y < 144,
                    i == (y * 160 + x) % 4,
                    forall|r: int, c: int|
                        0 <= r < y && 0 <= c < 160 ==> self@[r][c] == Color::from_index(
                            (r * 160 + c) % 4,
                        ),
                    forall|c: int|
                        0 <= c < x ==> self@[y as int][c] == Color::from_index((y * 160 + c) % 4),
                decreases 160 - x,
            {
                let color = match i {
                    0 => {
                        i += 1;
                        Color::C0
                    },
                    1 => {
                        i += 1;
                        Color::C1
                    },
                    2 => {
                        i += 1;
                        Color::C2
                    },
                    _ => {
                        i = 0;
                        Color::C3
                    },
                };
                self.set(color, x, y);
                x += 1;
            }
            y += 1;
        }
        assert(self@ =~~= test_frame());
    }

    /// A frame of the lightest shade.
    pub fn new() -> (display: Self)
        ensures
            display@ == Seq::new(144, |y: int| Seq::new(160, |x: int| Color::C0)),
    {
        Self { lines: [ScanLine::new(); 144] }
    }

    /// Gives the pixel in column `x` of row `y` the shade `color`.
    #[inline(always)]
    pub fn set(&mut self, color: Color, x: usize, y: usize)
        requires
            x < 160,
            y < 144,
        ensures
            final(self)@ == old(self)@.update(
                y as int,
                old(self)@[y as int].update(x as int, color),
            ),
    {
        self.lines[y].pixels[x] = color;
    }
}

impl Default for Display {
    fn default() -> (display: Self)
        ensures
            display@ == Seq::new(144, |y: int| Seq::new(160, |x: int| Color::C0)),
    {
        Self::new()
    }
}

} // verus!
