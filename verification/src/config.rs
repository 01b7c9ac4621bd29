use vstd::prelude::*;

use crate::buttons::spec_button_index;
use crate::buttons::Button;

verus! {

/// Size in bytes of one erase-granularity block of the non-volatile store.
/// The persistent record lives at a fixed offset inside one such block.
pub const BLOCK_SIZE: usize = 4096;

/// Value every byte of a block holds right after an erase.
pub const ERASED_BYTE: u8 = 0xff;

/// Model of the one flash block that holds the persistent configuration.
/// The medium only supports erase-before-write: a write of the record is
/// always preceded by an erase of the whole block, so every write fully
/// supersedes the block's content.
pub struct FlashBlock {
    bytes: Vec<u8>,
}

impl View for FlashBlock {
    type V = Seq<u8>;

    closed spec fn view(&self) -> Seq<u8> {
        self.bytes@
    }
}

impl FlashBlock {
    /// A block is well formed when it spans exactly one erase granule.
    pub open spec fn wf(&self) -> bool {
        self@.len() == BLOCK_SIZE
    }

    /// A block as the erase operation leaves it: every byte `ERASED_BYTE`.
    pub fn erased() -> (b: FlashBlock)
        ensures
            b.wf(),
            forall|i: int| 0 <= i < BLOCK_SIZE ==> b@[i] == ERASED_BYTE,
    {
        let mut bytes: Vec<u8> = Vec::new();
        while bytes.len() < BLOCK_SIZE
            invariant
                bytes@.len() <= BLOCK_SIZE,
                forall|i: int| 0 <= i < bytes@.len() ==> bytes@[i] == ERASED_BYTE,
            decreases BLOCK_SIZE - bytes@.len(),
        {
            bytes.push(ERASED_BYTE);
        }
        FlashBlock { bytes }
    }

    /// Build a block from raw contents, e.g. what a hardware read returned.
    pub fn from_bytes(bytes: Vec<u8>) -> (b: FlashBlock)
        requires
            bytes@.len() == BLOCK_SIZE,
        ensures
            b.wf(),
            b@ == bytes@,
    {
        FlashBlock { bytes }
    }

    /// Erase the block in place: afterwards every byte reads `ERASED_BYTE`.
    pub fn erase(&mut self)
        ensures
            final(self).wf(),
            forall|i: int| 0 <= i < BLOCK_SIZE ==> final(self)@[i] == ERASED_BYTE,
    {
        *self = FlashBlock::erased();
    }

    /// Read the byte at `offset`.
    pub fn read_byte(&self, offset: usize) -> (v: u8)
        requires
            self.wf(),
            offset < BLOCK_SIZE,
        ensures
            v == self@[offset as int],
    {
        self.bytes[offset]
    }

    /// Overwrite the byte at `offset`, leaving the rest of the block as it was.
    pub fn write_byte(&mut self, offset: usize, value: u8)
        requires
            old(self).wf(),
            offset < BLOCK_SIZE,
        ensures
            final(self).wf(),
            final(self)@ == old(self)@.update(offset as int, value),
    {
        self.bytes.set(offset, value);
    }
}

/// The persistent record: the gear the actuator was last moved to, and whether
/// valet mode is active.
#[derive(Clone, Copy, Debug, PartialEq, Eq, Structural)]
pub struct DbwConfig {
    pub active_button: Button,
    pub valet_mode: bool,
}

/// Decoding of the stored gear byte. Unrecognized values decode to the safe
/// default Park, never to an error, so the system always has a usable gear on
/// boot.
pub open spec fn decode_gear(b: u8) -> Button {
    if b == 0 {
        Button::P
    } else if b == 1 {
        Button::R
    } else if b == 2 {
        Button::N
    } else if b == 3 {
        Button::D
    } else {
        Button::P
    }
}

/// Decoding of the stored valet byte: only an exact 1 turns valet mode on;
/// anything else (including erased bytes) decodes to the safe default off.
pub open spec fn decode_valet(b: u8) -> bool {
    b == 1
}

/// Encoding of the valet flag.
pub open spec fn valet_byte(v: bool) -> u8 {
    if v {
        1
    } else {
        0
    }
}

/// What a read of a block yields: byte 0 is the gear index, byte 1 the valet
/// flag.
pub open spec fn spec_read(bytes: Seq<u8>) -> DbwConfig
    recommends
        bytes.len() >= 2,
{
    DbwConfig { active_button: decode_gear(bytes[0]), valet_mode: decode_valet(bytes[1]) }
}

/// Contents of a block right after `write_flash` of `config`: the two record
/// bytes, the rest still erased.
pub open spec fn spec_written(config: DbwConfig) -> Seq<u8> {
    Seq::new(
        BLOCK_SIZE as nat,
        |i: int|
            if i == 0 {
                spec_button_index(config.active_button)
            } else if i == 1 {
                valet_byte(config.valet_mode)
            } else {
                ERASED_BYTE
            },
    )
}

impl DbwConfig {
    /// The record serialized as its fixed-width byte pair.
    pub fn as_array(&self) -> (a: [u8; 2])
        ensures
            a@ == seq![
                spec_button_index(self.active_button),
                valet_byte(self.valet_mode),
            ],
    {
        let gear: u8 = crate::buttons::button_index(self.active_button);
        let valet: u8 = if self.valet_mode {
            1
        } else {
            0
        };
        let a: [u8; 2] = [gear, valet];
        proof {
            assert(a@ =~= seq![
                spec_button_index(self.active_button),
                valet_byte(self.valet_mode),
            ]);
        }
        a
    }

    /// Decode the record from the block. A read never fails outward: corrupt
    /// or erased contents decode to the documented default `{Park, valet off}`.
    pub fn read(flash: &FlashBlock) -> (config: DbwConfig)
        requires
            flash.wf(),
        ensures
            config == spec_read(flash@),
            config.active_button != Button::UNSET,
    {
        let gear_byte: u8 = flash.read_byte(0);
        let valet_byte: u8 = flash.read_byte(1);
        let stored_button: Button = if gear_byte == 0 {
            Button::P
        } else if gear_byte == 1 {
            Button::R
        } else if gear_byte == 2 {
            Button::N
        } else if gear_byte == 3 {
            Button::D
        } else {
            Button::P
        };
        let valet_mode: bool = valet_byte == 1;
        DbwConfig { active_button: stored_button, valet_mode }
    }

    /// Store the two record bytes into the (previously erased) block, leaving
    /// the other bytes as they were.
    pub fn write(flash: &mut FlashBlock, config: Self)
        requires
            old(flash).wf(),
        ensures
            final(flash).wf(),
            final(flash)@ == old(flash)@.update(0, spec_button_index(config.active_button)).update(
                1,
                valet_byte(config.valet_mode),
            ),
    {
        let buf: [u8; 2] = config.as_array();
        flash.write_byte(0, buf[0]);
        flash.write_byte(1, buf[1]);
    }
}

/// Persist a record: erase the whole owning block (a non-volatile memory
/// constraint), then write the serialized bytes. Every write fully supersedes
/// the block's content.
pub fn write_flash(flash: &mut FlashBlock, buf: DbwConfig)
    requires
        old(flash).wf(),
    ensures
        final(flash).wf(),
        final(flash)@ == spec_written(buf),
{
    flash.erase();
    DbwConfig::write(flash, buf);
    proof {
        assert(final(flash)@ =~= spec_written(buf));
    }
}

/// The documented safe default: Park, valet mode off.
pub fn resonable_defaults() -> (config: DbwConfig)
    ensures
        config == (DbwConfig { active_button: Button::P, valet_mode: false }),
{
    DbwConfig { active_button: Button::P, valet_mode: false }
}

/// Reset the record area for first use: erase the block, then write zeroes,
/// which decode to the initial record (Park, valet off).
pub fn erase_write_sector(flash: &mut FlashBlock)
    ensures
        final(flash).wf(),
        forall|i: int| 0 <= i < BLOCK_SIZE ==> final(flash)@[i] == 0,
        spec_read(final(flash)@) == (DbwConfig { active_button: Button::P, valet_mode: false }),
{
    flash.erase();
    let mut bytes: Vec<u8> = Vec::new();
    while bytes.len() < BLOCK_SIZE
        invariant
            bytes@.len() <= BLOCK_SIZE,
            forall|i: int| 0 <= i < bytes@.len() ==> bytes@[i] == 0,
        decreases BLOCK_SIZE - bytes@.len(),
    {
        bytes.push(0);
    }
    *flash = FlashBlock { bytes };
}

/// Persistence round trip: writing any valid record and reading it back yields
/// the same record.
pub proof fn lemma_persistence_round_trip(config: DbwConfig)
    requires
        config.active_button != Button::UNSET,
    ensures
        spec_read(spec_written(config)) == config,
{
}

/// A block whose bytes are all erased reads back as the safe default
/// `{Park, valet off}`.
pub proof fn lemma_read_erased(bytes: Seq<u8>)
    requires
        bytes.len() >= 2,
        forall|i: int| 0 <= i < bytes.len() ==> bytes[i] == ERASED_BYTE,
    ensures
        spec_read(bytes) == (DbwConfig { active_button: Button::P, valet_mode: false }),
{
}

/// A block whose record bytes hold unrecognized values reads back as the safe
/// default `{Park, valet off}`.
pub proof fn lemma_read_unrecognized(bytes: Seq<u8>)
    requires
        bytes.len() >= 2,
        bytes[0] > 3,
        bytes[1] != 1,
    ensures
        spec_read(bytes) == (DbwConfig { active_button: Button::P, valet_mode: false }),
{
}

} // verus!
