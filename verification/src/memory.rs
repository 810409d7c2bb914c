//! The memory bus: twelve regions that together answer for every 16-bit
//! address, and the typed registers that live in the I/O window.

use crate::bits::{bit, test_bit};
use crate::graphics::{decode_tile, lemma_decode_tile_injective, Color, Tile};
use vstd::prelude::*;

verus! {

/// A byte store that answers for a fixed range of bus addresses.
pub trait Memory {
    /// Whether this kind of store answers for `address`.
    spec fn claims(address: u16) -> bool;

    /// The byte held for `address`; meaningful where `claims(address)` holds.
    spec fn cell(&self, address: u16) -> u8;

    /// Returns the byte held for `address`.
    fn read(&self, address: u16) -> (value: u8)
        requires
            Self::claims(address),
        ensures
            value == self.cell(address),
    ;

    /// Stores `value` for `address` and leaves every other cell as it was.
    fn write(&mut self, address: u16, value: u8)
        requires
            Self::claims(address),
        ensures
            final(self).cell(address) == value,
            forall|other: u16|
                Self::claims(other) && other != address ==> #[trigger] final(self).cell(other)
                    == old(self).cell(other),
    ;
}

/// The regions of the bus, in address order.
#[derive(Copy, Clone, PartialEq, Eq, Structural, Debug)]
pub enum Region {
    /// ROM bank 0, 0x0000 to 0x3FFF.
    Rom0,
    /// The switchable ROM bank, 0x4000 to 0x7FFF.
    RomX,
    /// Video RAM, 0x8000 to 0x9FFF.
    VideoRam,
    /// External RAM, 0xA000 to 0xBFFF.
    ExternalRam,
    /// Work RAM bank 0, 0xC000 to 0xCFFF.
    WorkRam0,
    /// The switchable work RAM bank, 0xD000 to 0xDFFF.
    WorkRamX,
    /// The echo area, 0xE000 to 0xFDFF. It has storage of its own: a write
    /// here does not show in work RAM, nor a write there here.
    Echo,
    /// Object attribute memory, 0xFE00 to 0xFE9F.
    ObjectAttributes,
    /// The unused area, 0xFEA0 to 0xFEFF. It stores what is written to it.
    Unused,
    /// The I/O registers, 0xFF00 to 0xFF7F.
    IoRegisters,
    /// High RAM, 0xFF80 to 0xFFFE.
    HighRam,
    /// The interrupt enable register, 0xFFFF.
    InterruptEnable,
}

impl Region {
    /// The first address of the region.
    pub open spec fn base(self) -> int {
        match self {
            Region::Rom0 => 0x0000,
            Region::RomX => 0x4000,
            Region::VideoRam => 0x8000,
            Region::ExternalRam => 0xA000,
            Region::WorkRam0 => 0xC000,
            Region::WorkRamX => 0xD000,
            Region::Echo => 0xE000,
            Region::ObjectAttributes => 0xFE00,
            Region::Unused => 0xFEA0,
            Region::IoRegisters => 0xFF00,
            Region::HighRam => 0xFF80,
            Region::InterruptEnable => 0xFFFF,
        }
    }

    /// The number of bytes in the region.
    pub open spec fn size(self) -> int {
        match self {
            Region::Rom0 => 0x4000,
            Region::RomX => 0x4000,
            Region::VideoRam => 0x2000,
            Region::ExternalRam => 0x2000,
            Region::WorkRam0 => 0x1000,
            Region::WorkRamX => 0x1000,
            Region::Echo => 0x1E00,
            Region::ObjectAttributes => 0x00A0,
            Region::Unused => 0x0060,
            Region::IoRegisters => 0x0080,
            Region::HighRam => 0x007F,
            Region::InterruptEnable => 0x0001,
        }
    }

    /// Whether `address` lies in the region.
    pub open spec fn claims(self, address: u16) -> bool {
        self.base() <= address < self.base() + self.size()
    }

    /// The region that `address` is routed to.
    pub open spec fn spec_of(address: u16) -> Region {
        if address < 0x4000 {
            Region::Rom0
        } else if address < 0x8000 {
            Region::RomX
        } else if address < 0xA000 {
            Region::VideoRam
        } else if address < 0xC000 {
            Region::ExternalRam
        } else if address < 0xD000 {
            Region::WorkRam0
        } else if address < 0xE000 {
            Region::WorkRamX
        } else if address < 0xFE00 {
            Region::Echo
        } else if address < 0xFEA0 {
            Region::ObjectAttributes
        } else if address < 0xFF00 {
            Region::Unused
        } else if address < 0xFF80 {
            Region::IoRegisters
        } else if address < 0xFFFF {
            Region::HighRam
        } else {
            Region::InterruptEnable
        }
    }

    /// Finds the region that `address` is routed to: the one region that
    /// claims it.
    #[verifier::when_used_as_spec(spec_of)]
    pub fn of(address: u16) -> (region: Region)
        ensures
            region == Self::spec_of(address),
            region.claims(address),
            forall|other: Region| other.claims(address) ==> other == region,
    {
        match address {
            0x0000..=0x3FFF => Region::Rom0,
            0x4000..=0x7FFF => Region::RomX,
            0x8000..=0x9FFF => Region::VideoRam,
            0xA000..=0xBFFF => Region::ExternalRam,
            0xC000..=0xCFFF => Region::WorkRam0,
            0xD000..=0xDFFF => Region::WorkRamX,
            0xE000..=0xFDFF => Region::Echo,
            0xFE00..=0xFE9F => Region::ObjectAttributes,
            0xFEA0..=0xFEFF => Region::Unused,
            0xFF00..=0xFF7F => Region::IoRegisters,
            0xFF80..=0xFFFE => Region::HighRam,
            0xFFFF => Region::InterruptEnable,
        }
    }
}

/// Address decoding is total and unambiguous: every address is claimed by
/// the region it is routed to and by no other.
pub proof fn lemma_exactly_one_region(address: u16)
    ensures
        Region::of(address).claims(address),
        forall|region: Region| region.claims(address) ==> region == Region::of(address),
{
}

/// `SIZE` bytes that answer for the addresses from `BASE` up to, and not
/// including, `BASE + SIZE`.
#[derive(Copy, Clone, PartialEq)]
struct OffsetRegion<const SIZE: usize, const BASE: u16> {
    memory: [u8; SIZE],
}

impl<const SIZE: usize, const BASE: u16> OffsetRegion<SIZE, BASE> {
    fn new() -> (region: Self)
        ensures
            forall|address: u16| Self::claims(address) ==> #[trigger] region.cell(address) == 0,
    {
        Self { memory: [0; SIZE] }
    }
}

impl<const SIZE: usize, const BASE: u16> Memory for OffsetRegion<SIZE, BASE> {
    open spec fn claims(address: u16) -> bool {
        BASE <= address < BASE + SIZE
    }

    closed spec fn cell(&self, address: u16) -> u8 {
        self.memory@[address - BASE]
    }

    fn read(&self, address: u16) -> (value: u8) {
        self.memory[(address - BASE) as usize]
    }

    fn write(&mut self, address: u16, value: u8) {
        self.memory[(address - BASE) as usize] = value;
    }
}

type Rom0 = OffsetRegion<0x4000, 0x0000>;

type RomX = OffsetRegion<0x4000, 0x4000>;

type SRam = OffsetRegion<0x2000, 0xA000>;

type WRam0 = OffsetRegion<0x1000, 0xC000>;

type WRamX = OffsetRegion<0x1000, 0xD000>;

type Echo = OffsetRegion<0x1E00, 0xE000>;

type UnusedMemory = OffsetRegion<0x0060, 0xFEA0>;

type HRam = OffsetRegion<0x007F, 0xFF80>;

type IERegister = OffsetRegion<0x0001, 0xFFFF>;

/// The three blocks of tile data at the start of video RAM.
#[derive(Copy, Clone, PartialEq)]
pub struct TileData {
    block0: [u8; 0x0800],
    block1: [u8; 0x0800],
    block2: [u8; 0x0800],
}

impl TileData {
    /// The byte at `offset` from the start of the tile data area.
    pub closed spec fn byte(&self, offset: int) -> u8 {
        if offset < 0x0800 {
            self.block0@[offset]
        } else if offset < 0x1000 {
            self.block1@[offset - 0x0800]
        } else {
            self.block2@[offset - 0x1000]
        }
    }
}

impl View for TileData {
    type V = Seq<u8>;

    /// The 6 KiB of tile data: block 0, then block 1, then block 2.
    open spec fn view(&self) -> Seq<u8> {
        Seq::new(0x1800, |offset: int| self.byte(offset))
    }
}

/// Where the run of tile `id` starts, counted from the start of the tile
/// data: at byte `id` of block 0 when `select` is set and `id` is below 128,
/// at byte `id` of block 1 otherwise. Runs of neighbouring tiles overlap.
pub open spec fn tile_start(select: bool, id: u8) -> int {
    if id < 128 && select {
        id as int
    } else {
        0x0800 + id
    }
}

/// The sixteen bytes that tile `id` is decoded from.
pub open spec fn tile_bytes(tile_data: Seq<u8>, select: bool, id: u8) -> Seq<u8>
    recommends
        tile_data.len() == 0x1800,
{
    tile_data.subrange(tile_start(select, id), tile_start(select, id) + 16)
}

/// Whether every byte of the run is zero.
pub open spec fn is_blank(bytes: Seq<u8>) -> bool {
    forall|k: int| 0 <= k < bytes.len() ==> bytes[k] == 0
}

/// The tiles `0` to `count - 1` that are not blank, decoded, in order of
/// identifier.
pub open spec fn visible_tiles(tile_data: Seq<u8>, select: bool, count: int) -> Seq<
    Seq<Seq<Color>>,
> {
    Seq::new(count as nat, |id: int| tile_bytes(tile_data, select, id as u8)).filter(
        |bytes: Seq<u8>| !is_blank(bytes),
    ).map_values(|bytes: Seq<u8>| decode_tile(bytes))
}

/// Among no tiles, none is visible.
pub proof fn lemma_no_tiles_visible(tile_data: Seq<u8>, select: bool)
    ensures
        visible_tiles(tile_data, select, 0) == Seq::<Seq<Seq<Color>>>::empty(),
{
}

/// The visible tiles among the first `count + 1` are those among the first
/// `count`, followed by tile `count` unless it is blank.
pub proof fn lemma_next_visible_tile(tile_data: Seq<u8>, select: bool, count: int)
    requires
        0 <= count < 256,
    ensures
        visible_tiles(tile_data, select, count + 1) == (if is_blank(
            tile_bytes(tile_data, select, count as u8),
        ) {
            visible_tiles(tile_data, select, count)
        } else {
            visible_tiles(tile_data, select, count).push(
                decode_tile(tile_bytes(tile_data, select, count as u8)),
            )
        }),
{
    let bytes = tile_bytes(tile_data, select, count as u8);
    let runs = Seq::new(count as nat, |id: int| tile_bytes(tile_data, select, id as u8));
    let more = Seq::new((count + 1) as nat, |id: int| tile_bytes(tile_data, select, id as u8));
    let shown = |bytes: Seq<u8>| !is_blank(bytes);
    let decode = |bytes: Seq<u8>| decode_tile(bytes);
    assert(more =~= runs.push(bytes));
    runs.lemma_filter_push(bytes, shown);
    if !is_blank(bytes) {
        assert(runs.filter(shown).push(bytes).map_values(decode) =~= runs.filter(
            shown,
        ).map_values(decode).push(decode_tile(bytes)));
    }
}

/// A run of sixteen bytes is blank exactly when it decodes to the tile that
/// sixteen zero bytes decode to.
pub proof fn lemma_blank_tile(bytes: Seq<u8>)
    requires
        bytes.len() == 16,
    ensures
        is_blank(bytes) <==> decode_tile(bytes) == decode_tile(Seq::new(16, |k: int| 0u8)),
{
    let zeros = Seq::new(16, |k: int| 0u8);
    if is_blank(bytes) {
        assert(bytes =~= zeros);
    }
    if decode_tile(bytes) == decode_tile(zeros) {
        lemma_decode_tile_injective(bytes, zeros);
    }
}

/// Where every byte of the tile data is zero, no tile is visible.
pub proof fn lemma_blank_data_shows_nothing(tile_data: Seq<u8>, select: bool, count: int)
    requires
        tile_data.len() == 0x1800,
        forall|k: int| 0 <= k < tile_data.len() ==> tile_data[k] == 0,
        0 <= count <= 256,
    ensures
        visible_tiles(tile_data, select, count) == Seq::<Seq<Seq<Color>>>::empty(),
{
    let runs = Seq::new(count as nat, |id: int| tile_bytes(tile_data, select, id as u8));
    let shown = |bytes: Seq<u8>| !is_blank(bytes);
    assert(runs.all(|bytes: Seq<u8>| !shown(bytes))) by {
        assert forall|id: int| 0 <= id < runs.len() implies is_blank(#[trigger] runs[id]) by {}
    }
    runs.lemma_all_neg_filter_empty(shown);
}

/// A tile with a byte that is not zero among its sixteen is one of the
/// visible tiles.
pub proof fn lemma_nonblank_tile_shown(tile_data: Seq<u8>, select: bool, id: u8)
    requires
        tile_data.len() == 0x1800,
        !is_blank(tile_bytes(tile_data, select, id)),
    ensures
        visible_tiles(tile_data, select, 256).contains(
            decode_tile(tile_bytes(tile_data, select, id)),
        ),
{
    let runs = Seq::new(256, |id: int| tile_bytes(tile_data, select, id as u8));
    let shown = |bytes: Seq<u8>| !is_blank(bytes);
    let kept = runs.filter(shown);
    assert(runs[id as int] == tile_bytes(tile_data, select, id));
    runs.lemma_filter_contains(shown, id as int);
    let at = choose|at: int| 0 <= at < kept.len() && kept[at] == runs[id as int];
    assert(visible_tiles(tile_data, select, 256)[at] == decode_tile(kept[at]));
}

/// The decoded form of each tile of a list.
pub open spec fn tile_views(tiles: Seq<Tile>) -> Seq<Seq<Seq<Color>>> {
    tiles.map_values(|tile: Tile| tile@)
}

impl TileData {
    /// Decodes tile `id` from the block that `lcdc` selects for it.
    pub fn get_tile(self, lcdc: LCDC, id: u8) -> (tile: Tile)
        ensures
            tile@ == decode_tile(tile_bytes(self@, bit(lcdc@, 4), id)),
    {
        let lcdc4: bool = lcdc.tile_data_select();
        let start = id as usize;
        let block: &[u8; 0x0800] = match id {
            0..=127 => match lcdc4 {
                true => &self.block0,
                false => &self.block1,
            },
            128..=255 => &self.block1,
        };
        let mut bytes: [u8; 16] = [0; 16];
        let mut k: usize = 0;
        while k < 16
            invariant
                k <= 16,
                start == id,
                forall|j: int|
                    0 <= j < k ==> bytes@[j] == self@[tile_start(bit(lcdc@, 4), id) + j],
                block@ == (if id < 128 && bit(lcdc@, 4) {
                    self.block0@
                } else {
                    self.block1@
                }),
            decreases 16 - k,
        {
            bytes[k] = block[start + k];
            k += 1;
        }
        Tile::new(bytes)
    }
}

/// A grid of 32 by 32 tile identifiers, row by row.
#[derive(Copy, Clone, PartialEq)]
pub struct TileMap {
    pub map: [u8; 1024],
}

/// Video RAM: the tile data, then the two tile maps.
#[derive(Copy, Clone, PartialEq)]
pub struct VRam {
    pub tiledata: TileData,
    pub tilemap0: TileMap,
    pub tilemap1: TileMap,
}

impl VRam {
    /// Video RAM whose every byte is zero.
    pub fn new() -> (vram: Self)
        ensures
            forall|address: u16| Self::claims(address) ==> #[trigger] vram.cell(address) == 0,
    {
        Self {
            tiledata: TileData { block0: [0; 0x0800], block1: [0; 0x0800], block2: [0; 0x0800] },
            tilemap0: TileMap { map: [0; 0x0400] },
            tilemap1: TileMap { map: [0; 0x0400] },
        }
    }
}

impl Default for VRam {
    fn default() -> (vram: Self)
        ensures
            forall|address: u16| Self::claims(address) ==> #[trigger] vram.cell(address) == 0,
    {
        Self::new()
    }
}

impl Memory for VRam {
    open spec fn claims(address: u16) -> bool {
        0x8000 <= address <= 0x9FFF
    }

    open spec fn cell(&self, address: u16) -> u8 {
        if address < 0x9800 {
            self.tiledata@[address - 0x8000]
        } else if address < 0x9C00 {
            self.tilemap0.map@[address - 0x9800]
        } else {
            self.tilemap1.map@[address - 0x9C00]
        }
    }

    fn read(&self, address: u16) -> (value: u8) {
        match address {
            0x8000..=0x87FF => self.tiledata.block0[(address - 0x8000) as usize],
            0x8800..=0x8FFF => self.tiledata.block1[(address - 0x8800) as usize],
            0x9000..=0x97FF => self.tiledata.block2[(address - 0x9000) as usize],
            0x9800..=0x9BFF => self.tilemap0.map[(address - 0x9800) as usize],
            _ => self.tilemap1.map[(address - 0x9C00) as usize],
        }
    }

    fn write(&mut self, address: u16, value: u8) {
        match address {
            0x8000..=0x87FF => self.tiledata.block0[(address - 0x8000) as usize] = value,
            0x8800..=0x8FFF => self.tiledata.block1[(address - 0x8800) as usize] = value,
            0x9000..=0x97FF => self.tiledata.block2[(address - 0x9000) as usize] = value,
            0x9800..=0x9BFF => self.tilemap0.map[(address - 0x9800) as usize] = value,
            _ => self.tilemap1.map[(address - 0x9C00) as usize] = value,
        }
    }
}

/// Object attribute memory.
#[derive(Copy, Clone, PartialEq)]
pub struct Oam {
    memory: [u8; 0x00A0],
}

impl Oam {
    /// Object attribute memory whose every byte is zero.
    pub fn new() -> (oam: Self)
        ensures
            forall|address: u16| Self::claims(address) ==> #[trigger] oam.cell(address) == 0,
    {
        Self { memory: [0; 0x0A0] }
    }
}

impl Memory for Oam {
    open spec fn claims(address: u16) -> bool {
        0xFE00 <= address <= 0xFE9F
    }

    closed spec fn cell(&self, address: u16) -> u8 {
        self.memory@[address - 0xFE00]
    }

    fn read(&self, address: u16) -> (value: u8) {
        self.memory[(address - 0xFE00) as usize]
    }

    fn write(&mut self, address: u16, value: u8) {
        self.memory[(address - 0xFE00) as usize] = value;
    }
}

/// The joypad register.
#[derive(Default, Copy, Clone, PartialEq)]
pub struct JoyPadIO {
    pub buttons: u8,
}

/// The serial transfer registers.
#[derive(Default, Copy, Clone, PartialEq)]
pub struct SerialIO {
    pub serial_data: u8,
    pub transfer_control: u8,
}

/// The divider and timer registers.
#[derive(Default, Copy, Clone, PartialEq)]
pub struct TimerAndDivider {
    pub divider_register: u8,
    pub timer_counter: u8,
    pub timer_modulo: u8,
    pub timer_control: u8,
}

/// The interrupt flag register.
#[derive(Default, Copy, Clone, PartialEq)]
pub struct InterruptFlags {
    pub interrupt_flag: u8,
}

/// The audio control registers and the wave pattern table.
#[derive(Default, Copy, Clone, PartialEq)]
pub struct AudioRegisters {
    pub master_control: u8,
    pub sound_panning: u8,
    pub master_volume_and_vin: u8,
    pub channel_1_sweep: u8,
    pub channel_1_length_and_duty_cycle: u8,
    pub channel_1_volume_and_envelope: u8,
    pub channel_1_period_low: u8,
    pub channel_1_period_high_and_control: u8,
    pub channel_2_length_and_duty_cycle: u8,
    pub channel_2_volume_and_envelope: u8,
    pub channel_2_period_low: u8,
    pub channel_2_period_high_and_control: u8,
    pub channel_3_dac_enable: u8,
    pub channel_3_length_timer: u8,
    pub channel_3_output_level: u8,
    pub channel_3_period_low: u8,
    pub channel_3_period_high_and_control: u8,
    pub channel_4_length_timer: u8,
    pub channel_4_volume_and_envelope: u8,
    pub channel_4_frequency_and_randomness: u8,
    pub channel_4_control: u8,
    pub wave_pattern_ram: [u8; 16],
}

/// The LCD control register.
#[allow(clippy::upper_case_acronyms)]
#[derive(Copy, Clone, PartialEq)]
pub struct LCDC {
    lcdcontrol: u8,
}

impl View for LCDC {
    type V = u8;

    /// The register's byte.
    closed spec fn view(&self) -> u8 {
        self.lcdcontrol
    }
}

impl LCDC {
    /// Bit 4: whether tiles 0 to 127 are taken from block 0 of the tile data.
    pub fn tile_data_select(&self) -> (select: bool)
        ensures
            select == bit(self@, 4),
    {
        test_bit(self.lcdcontrol, 4)
    }

    /// Bit 3: whether the background is laid out by tile map 1.
    pub fn background_map_select(&self) -> (select: bool)
        ensures
            select == bit(self@, 3),
    {
        test_bit(self.lcdcontrol, 3)
    }
}

/// The background's vertical scroll register.
#[derive(Default, Copy, Clone, PartialEq)]
#[allow(clippy::upper_case_acronyms)]
pub struct SCY {
    pub scroll_y: u8,
}

/// The background's horizontal scroll register.
#[derive(Default, Copy, Clone, PartialEq)]
#[allow(clippy::upper_case_acronyms)]
pub struct SCX {
    pub scroll_x: u8,
}

/// The register that starts a transfer into object attribute memory.
#[derive(Default, Copy, Clone, PartialEq)]
#[allow(clippy::upper_case_acronyms)]
pub struct DMA {
    pub oam_dma: u8,
}

/// The I/O window: named registers, and plain bytes for every address that
/// names none.
#[derive(Copy, Clone, PartialEq)]
pub struct IORegisters {
    memory: [u8; 0x0080],
    pub joypad: JoyPadIO,
    pub serial: SerialIO,
    pub timer_and_divider: TimerAndDivider,
    pub interrupt_flags: InterruptFlags,
    pub audio_registers: AudioRegisters,
    pub lcdcontrol: LCDC,
    pub scy: SCY,
    pub scx: SCX,
    pub dma: DMA,
}

impl IORegisters {
    /// An I/O window whose every byte is zero.
    pub fn new() -> (registers: Self)
        ensures
            forall|address: u16| Self::claims(address) ==> #[trigger] registers.cell(address) == 0,
    {
        Self {
            memory: [0; 0x0080],
            joypad: JoyPadIO { buttons: 0 },
            serial: SerialIO { serial_data: 0, transfer_control: 0 },
            timer_and_divider: TimerAndDivider {
                divider_register: 0,
                timer_counter: 0,
                timer_modulo: 0,
                timer_control: 0,
            },
            interrupt_flags: InterruptFlags { interrupt_flag: 0 },
            audio_registers: AudioRegisters {
                master_control: 0,
                sound_panning: 0,
                master_volume_and_vin: 0,
                channel_1_sweep: 0,
                channel_1_length_and_duty_cycle: 0,
                channel_1_volume_and_envelope: 0,
                channel_1_period_low: 0,
                channel_1_period_high_and_control: 0,
                channel_2_length_and_duty_cycle: 0,
                channel_2_volume_and_envelope: 0,
                channel_2_period_low: 0,
                channel_2_period_high_and_control: 0,
                channel_3_dac_enable: 0,
                channel_3_length_timer: 0,
                channel_3_output_level: 0,
                channel_3_period_low: 0,
                channel_3_period_high_and_control: 0,
                channel_4_length_timer: 0,
                channel_4_volume_and_envelope: 0,
                channel_4_frequency_and_randomness: 0,
                channel_4_control: 0,
                wave_pattern_ram: [0; 16],
            },
            lcdcontrol: LCDC { lcdcontrol: 0 },
            scy: SCY { scroll_y: 0 },
            scx: SCX { scroll_x: 0 },
            dma: DMA { oam_dma: 0 },
        }
    }
}

impl Default for IORegisters {
    fn default() -> (registers: Self)
        ensures
            forall|address: u16| Self::claims(address) ==> #[trigger] registers.cell(address) == 0,
    {
        Self::new()
    }
}

impl Memory for IORegisters {
    open spec fn claims(address: u16) -> bool {
        0xFF00 <= address <= 0xFF7F
    }

    /// Each named register at its address; the plain byte elsewhere.
    closed spec fn cell(&self, address: u16) -> u8 {
        match address {
            0xFF00 => self.joypad.buttons,
            0xFF01 => self.serial.serial_data,
            0xFF02 => self.serial.transfer_control,
            0xFF04 => self.timer_and_divider.divider_register,
            0xFF05 => self.timer_and_divider.timer_counter,
            0xFF06 => self.timer_and_divider.timer_modulo,
            0xFF07 => self.timer_and_divider.timer_control,
            0xFF0F => self.interrupt_flags.interrupt_flag,
            0xFF10 => self.audio_registers.channel_1_sweep,
            0xFF11 => self.audio_registers.channel_1_length_and_duty_cycle,
            0xFF12 => self.audio_registers.channel_1_volume_and_envelope,
            0xFF13 => self.audio_registers.channel_1_period_low,
            0xFF14 => self.audio_registers.channel_1_period_high_and_control,
            0xFF16 => self.audio_registers.channel_2_length_and_duty_cycle,
            0xFF17 => self.audio_registers.channel_2_volume_and_envelope,
            0xFF18 => self.audio_registers.channel_2_period_low,
            0xFF19 => self.audio_registers.channel_2_period_high_and_control,
            0xFF1A => self.audio_registers.channel_3_dac_enable,
            0xFF1B => self.audio_registers.channel_3_length_timer,
            0xFF1C => self.audio_registers.channel_3_output_level,
            0xFF1D => self.audio_registers.channel_3_period_low,
            0xFF1E => self.audio_registers.channel_3_period_high_and_control,
            0xFF20 => self.audio_registers.channel_4_length_timer,
            0xFF21 => self.audio_registers.channel_4_volume_and_envelope,
            0xFF22 => self.audio_registers.channel_4_frequency_and_randomness,
            0xFF23 => self.audio_registers.channel_4_control,
            0xFF24 => self.audio_registers.master_volume_and_vin,
            0xFF25 => self.audio_registers.sound_panning,
            0xFF26 => self.audio_registers.master_control,
            0xFF40 => self.lcdcontrol@,
            0xFF42 => self.scy.scroll_y,
            0xFF43 => self.scx.scroll_x,
            0xFF46 => self.dma.oam_dma,
            _ => if 0xFF30 <= address <= 0xFF3F {
                self.audio_registers.wave_pattern_ram@[address - 0xFF30]
            } else {
                self.memory@[address - 0xFF00]
            },
        }
    }

    fn read(&self, address: u16) -> (value: u8) {
        match address {
            0xFF00 => self.joypad.buttons,
            0xFF01 => self.serial.serial_data,
            0xFF02 => self.serial.transfer_control,
            0xFF04 => self.timer_and_divider.divider_register,
            0xFF05 => self.timer_and_divider.timer_counter,
            0xFF06 => self.timer_and_divider.timer_modulo,
            0xFF07 => self.timer_and_divider.timer_control,
            0xFF0F => self.interrupt_flags.interrupt_flag,
            0xFF10 => self.audio_registers.channel_1_sweep,
            0xFF11 => self.audio_registers.channel_1_length_and_duty_cycle,
            0xFF12 => self.audio_registers.channel_1_volume_and_envelope,
            0xFF13 => self.audio_registers.channel_1_period_low,
            0xFF14 => self.audio_registers.channel_1_period_high_and_control,
            0xFF16 => self.audio_registers.channel_2_length_and_duty_cycle,
            0xFF17 => self.audio_registers.channel_2_volume_and_envelope,
            0xFF18 => self.audio_registers.channel_2_period_low,
            0xFF19 => self.audio_registers.channel_2_period_high_and_control,
            0xFF1A => self.audio_registers.channel_3_dac_enable,
            0xFF1B => self.audio_registers.channel_3_length_timer,
            0xFF1C => self.audio_registers.channel_3_output_level,
            0xFF1D => self.audio_registers.channel_3_period_low,
            0xFF1E => self.audio_registers.channel_3_period_high_and_control,
            0xFF20 => self.audio_registers.channel_4_length_timer,
            0xFF21 => self.audio_registers.channel_4_volume_and_envelope,
            0xFF22 => self.audio_registers.channel_4_frequency_and_randomness,
            0xFF23 => self.audio_registers.channel_4_control,
            0xFF24 => self.audio_registers.master_volume_and_vin,
            0xFF25 => self.audio_registers.sound_panning,
            0xFF26 => self.audio_registers.master_control,
            0xFF30..=0xFF3F => self.audio_registers.wave_pattern_ram[(address - 0xFF30) as usize],
            0xFF40 => self.lcdcontrol.lcdcontrol,
            0xFF42 => self.scy.scroll_y,
            0xFF43 => self.scx.scroll_x,
            0xFF46 => self.dma.oam_dma,
            _ => self.memory[(address - 0xFF00) as usize],
        }
    }

    fn write(&mut self, address: u16, value: u8) {
        match address {
            0xFF00 => self.joypad.buttons = value,
            0xFF01 => self.serial.serial_data = value,
            0xFF02 => self.serial.transfer_control = value,
            0xFF04 => self.timer_and_divider.divider_register = value,
            0xFF05 => self.timer_and_divider.timer_counter = value,
            0xFF06 => self.timer_and_divider.timer_modulo = value,
            0xFF07 => self.timer_and_divider.timer_control = value,
            0xFF0F => self.interrupt_flags.interrupt_flag = value,
            0xFF10 => self.audio_registers.channel_1_sweep = value,
            0xFF11 => self.audio_registers.channel_1_length_and_duty_cycle = value,
            0xFF12 => self.audio_registers.channel_1_volume_and_envelope = value,
            0xFF13 => self.audio_registers.channel_1_period_low = value,
            0xFF14 => self.audio_registers.channel_1_period_high_and_control = value,
            0xFF16 => self.audio_registers.channel_2_length_and_duty_cycle = value,
            0xFF17 => self.audio_registers.channel_2_volume_and_envelope = value,
            0xFF18 => self.audio_registers.channel_2_period_low = value,
            0xFF19 => self.audio_registers.channel_2_period_high_and_control = value,
            0xFF1A => self.audio_registers.channel_3_dac_enable = value,
            0xFF1B => self.audio_registers.channel_3_length_timer = value,
            0xFF1C => self.audio_registers.channel_3_output_level = value,
            0xFF1D => self.audio_registers.channel_3_period_low = value,
            0xFF1E => self.audio_registers.channel_3_period_high_and_control = value,
            0xFF20 => self.audio_registers.channel_4_length_timer = value,
            0xFF21 => self.audio_registers.channel_4_volume_and_envelope = value,
            0xFF22 => self.audio_registers.channel_4_frequency_and_randomness = value,
            0xFF23 => self.audio_registers.channel_4_control = value,
            0xFF24 => self.audio_registers.master_volume_and_vin = value,
            0xFF25 => self.audio_registers.sound_panning = value,
            0xFF26 => self.audio_registers.master_control = value,
            0xFF30..=0xFF3F => self.audio_registers.wave_pattern_ram[(address - 0xFF30) as usize] =
                value,
            0xFF40 => self.lcdcontrol.lcdcontrol = value,
            0xFF42 => self.scy.scroll_y = value,
            0xFF43 => self.scx.scroll_x = value,
            0xFF46 => self.dma.oam_dma = value,
            _ => self.memory[(address - 0xFF00) as usize] = value,
        }
    }
}

/// What the bus shows after `value` is written to `address`.
pub open spec fn bus_after_write(bus: Seq<u8>, address: u16, value: u8) -> Seq<u8>
    recommends
        bus.len() == 0x1_0000,
{
    bus.update(address as int, value)
}

/// A byte written to an address is the byte read back from it, and every
/// other address reads as before. So the echo area keeps what is written to
/// it whatever is written to work RAM.
pub proof fn lemma_bus_write_then_read(bus: Seq<u8>, address: u16, value: u8, other: u16)
    requires
        bus.len() == 0x1_0000,
    ensures
        bus_after_write(bus, address, value)[address as int] == value,
        other != address ==> bus_after_write(bus, address, value)[other as int]
            == bus[other as int],
{
}

/// The whole bus: one store per region.
#[derive(Copy, Clone, PartialEq)]
pub struct MemoryMap {
    rom0: Rom0,
    romx: RomX,
    pub vram: VRam,
    sram: SRam,
    wram0: WRam0,
    wramx: WRamX,
    echo: Echo,
    aom: Oam,
    unused: UnusedMemory,
    pub io_registers: IORegisters,
    hram: HRam,
    ie_register: IERegister,
}

impl View for MemoryMap {
    type V = Seq<u8>;

    /// The 65,536 bytes of the bus, indexed by address.
    open spec fn view(&self) -> Seq<u8> {
        Seq::new(0x1_0000, |address: int| self.cell(address as u16))
    }
}

impl Memory for MemoryMap {
    open spec fn claims(address: u16) -> bool {
        true
    }

    /// The cell of the region that the address is routed to.
    closed spec fn cell(&self, address: u16) -> u8 {
        match Region::of(address) {
            Region::Rom0 => self.rom0.cell(address),
            Region::RomX => self.romx.cell(address),
            Region::VideoRam => self.vram.cell(address),
            Region::ExternalRam => self.sram.cell(address),
            Region::WorkRam0 => self.wram0.cell(address),
            Region::WorkRamX => self.wramx.cell(address),
            Region::Echo => self.echo.cell(address),
            Region::ObjectAttributes => self.aom.cell(address),
            Region::Unused => self.unused.cell(address),
            Region::IoRegisters => self.io_registers.cell(address),
            Region::HighRam => self.hram.cell(address),
            Region::InterruptEnable => self.ie_register.cell(address),
        }
    }

    fn read(&self, address: u16) -> (value: u8)
        ensures
            value == self@[address as int],
    {
        match Region::of(address) {
            Region::Rom0 => self.rom0.read(address),
            Region::RomX => self.romx.read(address),
            Region::VideoRam => self.vram.read(address),
            Region::ExternalRam => self.sram.read(address),
            Region::WorkRam0 => self.wram0.read(address),
            Region::WorkRamX => self.wramx.read(address),
            Region::Echo => self.echo.read(address),
            Region::ObjectAttributes => self.aom.read(address),
            Region::Unused => self.unused.read(address),
            Region::IoRegisters => self.io_registers.read(address),
            Region::HighRam => self.hram.read(address),
            Region::InterruptEnable => self.ie_register.read(address),
        }
    }

    fn write(&mut self, address: u16, value: u8)
        ensures
            final(self)@ == bus_after_write(old(self)@, address, value),
    {
        match Region::of(address) {
            Region::Rom0 => self.rom0.write(address, value),
            Region::RomX => self.romx.write(address, value),
            Region::VideoRam => self.vram.write(address, value),
            Region::ExternalRam => self.sram.write(address, value),
            Region::WorkRam0 => self.wram0.write(address, value),
            Region::WorkRamX => self.wramx.write(address, value),
            Region::Echo => self.echo.write(address, value),
            Region::ObjectAttributes => self.aom.write(address, value),
            Region::Unused => self.unused.write(address, value),
            Region::IoRegisters => self.io_registers.write(address, value),
            Region::HighRam => self.hram.write(address, value),
            Region::InterruptEnable => self.ie_register.write(address, value),
        }
    }
}

impl MemoryMap {
    /// A bus whose every byte is zero.
    pub fn new() -> (map: Self)
        ensures
            map@ == Seq::new(0x1_0000, |address: int| 0u8),
    {
        let map = Self {
            rom0: Rom0::new(),
            romx: RomX::new(),
            vram: VRam::new(),
            sram: SRam::new(),
            wram0: WRam0::new(),
            wramx: WRamX::new(),
            echo: Echo::new(),
            aom: Oam::new(),
            unused: UnusedMemory::new(),
            io_registers: IORegisters::new(),
            hram: HRam::new(),
            ie_register: IERegister::new(),
        };
        assert forall|address: u16| map.cell(address) == 0 by {}
        map
    }
}

impl MemoryMap {
    /// Decodes the tiles 0 to 255 and returns, in order of identifier, those
    /// with a non-zero byte among their sixteen.
    pub fn load_tiles(self) -> (tiles: Vec<Tile>)
        ensures
            tile_views(tiles@) == visible_tiles(
                self@.subrange(0x8000, 0x9800),
                bit(self@[0xFF40], 4),
                256,
            ),
    {
        let ghost tile_data = self@.subrange(0x8000, 0x9800);
        let ghost select = bit(self@[0xFF40], 4);
        let blank = Tile::new([0; 16]);
        let mut i = 0_usize;
        let mut tiles: Vec<Tile> = Vec::new();
        proof {
            assert(self.vram.tiledata@ =~= tile_data);
            lemma_no_tiles_visible(tile_data, select);
        }
        while i <= 255
            invariant
                i <= 256,
                self.vram.tiledata@ == tile_data,
                self.io_registers.lcdcontrol@ == self@[0xFF40],
                select == bit(self@[0xFF40], 4),
                blank@ == decode_tile(Seq::new(16, |k: int| 0u8)),
                tile_views(tiles@) == visible_tiles(tile_data, select, i as int),
            decreases 256 - i,
        {
            let tile = self.vram.tiledata.get_tile(self.io_registers.lcdcontrol, i as u8);
            proof {
                lemma_blank_tile(tile_bytes(tile_data, select, i as u8));
                lemma_next_visible_tile(tile_data, select, i as int);
            }
            let ghost earlier = tiles@;
            if !(tile == blank) {
                tiles.push(tile);
                assert(tile_views(tiles@) =~= tile_views(earlier).push(tile@));
            }
            i += 1;
        }
        tiles
    }
}

impl Default for MemoryMap {
    fn default() -> (map: Self)
        ensures
            map@ == Seq::new(0x1_0000, |address: int| 0u8),
    {
        Self::new()
    }
}

} // verus!
