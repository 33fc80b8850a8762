//! ATA drives: what the driver decides from the controller's registers and
//! from a drive's identify data. The register reads and writes themselves
//! happen outside this library.

use vstd::prelude::*;

verus! {

/// Bytes per block.
pub const BLOCK_SIZE: usize = 512;

/// Words in a drive's identify data.
pub const IDENTIFY_WORDS: usize = 256;

/// A name for what `String::from_utf8_lossy` makes of some bytes.
pub uninterp spec fn utf8_lossy(b: Seq<u8>) -> Seq<char>;

/// A name for what `str::trim` leaves of some text.
pub uninterp spec fn trimmed(s: Seq<char>) -> Seq<char>;

/// Relies on `String::from_utf8_lossy`: decodes the bytes, replacing invalid
/// sequences; the result depends on the bytes alone.
#[verifier::external_body]
fn decode_text(bytes: &Vec<u8>) -> (r: String)
    ensures
        r@ == utf8_lossy(bytes@),
{
    String::from_utf8_lossy(bytes.as_slice()).into_owned()
}

/// Relies on `str::trim`: drops leading and trailing white space; the
/// result depends on the text alone.
#[verifier::external_body]
fn trim_text(s: &String) -> (r: String)
    ensures
        r@ == trimmed(s@),
{
    s.trim().to_string()
}

/// The identify data as bytes: each word most significant byte first.
pub open spec fn identify_bytes(words: Seq<u16>) -> Seq<u8> {
    Seq::new(
        2 * words.len(),
        |i: int|
            if i % 2 == 0 {
                (words[i / 2] / 256) as u8
            } else {
                (words[i / 2] % 256) as u8
            },
    )
}

/// What a drive answered to the identify command.
pub enum IdentifyResponse {
    /// An ATA drive, with its identify data.
    Ata(Vec<u16>),
    Atapi,
    Sata,
    /// No drive answered.
    Absent,
}

/// The kind of device a signature in the cylinder registers announces.
#[derive(Clone, Copy, Debug, PartialEq, Eq, Structural)]
pub enum DeviceKind {
    Ata,
    Atapi,
    Sata,
}

/// Reads the device signature left in the two cylinder registers after an
/// identify command; an unknown signature is an error (`None`).
pub fn classify_signature(lba1: u8, lba2: u8) -> (r: Option<DeviceKind>)
    ensures
        r == if lba1 == 0 && lba2 == 0 {
            Some(DeviceKind::Ata)
        } else if lba1 == 0x14 && lba2 == 0xEB {
            Some(DeviceKind::Atapi)
        } else if lba1 == 0x3C && lba2 == 0xC3 {
            Some(DeviceKind::Sata)
        } else {
            None
        },
{
    if lba1 == 0 && lba2 == 0 {
        Some(DeviceKind::Ata)
    } else if lba1 == 0x14 && lba2 == 0xEB {
        Some(DeviceKind::Atapi)
    } else if lba1 == 0x3C && lba2 == 0xC3 {
        Some(DeviceKind::Sata)
    } else {
        None
    }
}

/// A status of all ones but possibly bit 7 means no controller drives the bus.
pub fn is_floating_bus(status: u8) -> (r: bool)
    ensures
        r == (status == 0xFF || status == 0x7F),
{
    status == 0xFF || status == 0x7F
}

/// The four register values that address `block` on `drive` in LBA mode:
/// the low three bytes of the block number, then the top four bits of it
/// with the drive select bit (4) and bits 5, 6 (LBA) and 7 set.
pub fn command_params(drive: u8, block: u32) -> (r: [u8; 4])
    ensures
        r@[0] == block % 256,
        r@[1] == (block / 256) % 256,
        r@[2] == (block / 65536) % 256,
        r@[3] == (block / 16777216) % 16 + (if drive > 0 {
            16int
        } else {
            0
        }) + 32 + 64 + 128,
{
    let b0 = (block & 0xFF) as u8;
    let b1 = ((block >> 8u32) & 0xFF) as u8;
    let b2 = ((block >> 16u32) & 0xFF) as u8;
    let top = (block >> 24u32) as u8;
    let select: u8 = if drive > 0 {
        0x10
    } else {
        0
    };
    let b3 = (top & 0x0F) | select | 0xE0;
    assert(b0 == block % 256 && b1 == (block / 256) % 256 && b2 == (block / 65536) % 256)
        by (bit_vector)
        requires
            b0 == (block & 0xFF) as u8,
            b1 == ((block >> 8u32) & 0xFF) as u8,
            b2 == ((block >> 16u32) & 0xFF) as u8,
    ;
    assert(b3 == (block / 16777216) % 16 + select + 224) by (bit_vector)
        requires
            top == (block >> 24u32) as u8,
            select == 0 || select == 0x10,
            b3 == (top & 0x0F) | select | 0xE0,
    ;
    [b0, b1, b2, b3]
}

/// The unit a drive size is shown in.
#[derive(Clone, Copy, Debug, PartialEq, Eq, Structural)]
pub enum SizeUnit {
    MB,
    GB,
}

impl SizeUnit {
    pub fn as_str(&self) -> (r: &'static str)
        ensures
            r@ == (if *self == SizeUnit::MB {
                "MB"@
            } else {
                "GB"@
            }),
    {
        match self {
            SizeUnit::MB => "MB",
            SizeUnit::GB => "GB",
        }
    }
}

/// An ATA drive found on a bus.
#[derive(Clone, Debug)]
pub struct Drive {
    pub bus: u8,
    pub dsk: u8,
    model: String,
    serial: String,
    block_count: u32,
    block_index: u32,
}

/// The big-endian bytes of `words[from..to]`.
fn be_bytes(words: &Vec<u16>, from: usize, to: usize) -> (r: Vec<u8>)
    requires
        from <= to <= words@.len(),
    ensures
        r@ == identify_bytes(words@).subrange(2 * from, 2 * to),
{
    let mut r: Vec<u8> = Vec::new();
    let mut i = from;
    while i < to
        invariant
            from <= i <= to <= words@.len(),
            r@ == identify_bytes(words@).subrange(2 * from, 2 * i),
        decreases to - i,
    {
        let w = words[i];
        r.push((w / 256) as u8);
        r.push((w % 256) as u8);
        proof {
            assert(r@ =~= identify_bytes(words@).subrange(2 * from, 2 * (i + 1)));
        }
        i = i + 1;
    }
    r
}

impl Drive {
    pub closed spec fn bus_spec(&self) -> u8 {
        self.bus
    }

    pub closed spec fn dsk_spec(&self) -> u8 {
        self.dsk
    }

    pub closed spec fn model_spec(&self) -> Seq<char> {
        self.model@
    }

    pub closed spec fn serial_spec(&self) -> Seq<char> {
        self.serial@
    }

    pub closed spec fn block_count_spec(&self) -> u32 {
        self.block_count
    }

    pub closed spec fn block_index_spec(&self) -> u32 {
        self.block_index
    }

    /// Bytes per block.
    pub fn size() -> (r: usize)
        ensures
            r == BLOCK_SIZE,
    {
        BLOCK_SIZE
    }

    /// Builds the drive `dsk` of bus `bus` from its identify response: only
    /// an ATA drive is opened. The model name is bytes 54..94 of the identify
    /// data, the serial number bytes 20..40, both trimmed; the block count is
    /// words 60 (low half) and 61 (high half).
    pub fn open(bus: u8, dsk: u8, response: &IdentifyResponse) -> (r: Option<Drive>)
        requires
            response is Ata ==> response->Ata_0@.len() == IDENTIFY_WORDS,
        ensures
            r is Some <==> response is Ata,
            r matches Some(d) ==> {
                let words = response->Ata_0@;
                &&& d.bus_spec() == bus
                &&& d.dsk_spec() == dsk
                &&& d.model_spec() == trimmed(utf8_lossy(identify_bytes(words).subrange(54, 94)))
                &&& d.serial_spec() == trimmed(utf8_lossy(identify_bytes(words).subrange(20, 40)))
                &&& d.block_count_spec() == words[60] + words[61] * 65536
                &&& d.block_index_spec() == 0
            },
    {
        match response {
            IdentifyResponse::Ata(words) => {
                let model = trim_text(&decode_text(&be_bytes(words, 27, 47)));
                let serial = trim_text(&decode_text(&be_bytes(words, 10, 20)));
                let block_count = (words[61] as u32) * 65536 + words[60] as u32;
                Some(Drive { bus, dsk, model, serial, block_count, block_index: 0 })
            },
            _ => None,
        }
    }

    pub fn model(&self) -> (r: &String)
        ensures
            r@ == self.model_spec(),
    {
        &self.model
    }

    pub fn serial(&self) -> (r: &String)
        ensures
            r@ == self.serial_spec(),
    {
        &self.serial
    }

    pub fn block_size(&self) -> (r: u32)
        ensures
            r == BLOCK_SIZE,
    {
        BLOCK_SIZE as u32
    }

    pub fn block_count(&self) -> (r: u32)
        ensures
            r == self.block_count_spec(),
    {
        self.block_count
    }

    /// The next block a sequential read returns.
    pub fn block_index(&self) -> (r: u32)
        ensures
            r == self.block_index_spec(),
    {
        self.block_index
    }

    /// Whether a sequential read has reached the end of the drive.
    pub fn at_end(&self) -> (r: bool)
        ensures
            r == (self.block_index_spec() == self.block_count_spec()),
    {
        self.block_index == self.block_count
    }

    /// Moves a sequential read on by one block.
    pub fn advance(&mut self)
        requires
            old(self).block_index_spec() < old(self).block_count_spec(),
        ensures
            final(self).block_index_spec() == old(self).block_index_spec() + 1,
            final(self).block_count_spec() == old(self).block_count_spec(),
            final(self).model_spec() == old(self).model_spec(),
            final(self).serial_spec() == old(self).serial_spec(),
            final(self).bus_spec() == old(self).bus_spec(),
            final(self).dsk_spec() == old(self).dsk_spec(),
    {
        self.block_index = self.block_index + 1;
    }

    /// The capacity in whole megabytes when that is under 1000, else in
    /// whole gigabytes.
    pub fn humanized_size(&self) -> (r: (usize, SizeUnit))
        ensures
            ({
                let bytes = BLOCK_SIZE * self.block_count_spec();
                if bytes / 0x10_0000 < 1000 {
                    r.0 == bytes / 0x10_0000 && r.1 == SizeUnit::MB
                } else {
                    r.0 == bytes / 0x4000_0000 && r.1 == SizeUnit::GB
                }
            }),
    {
        let size = self.block_size() as u64;
        let count = self.block_count() as u64;
        let bytes = size * count;
        assert(bytes >> 20u64 == bytes / 0x10_0000) by (bit_vector);
        assert(bytes >> 30u64 == bytes / 0x4000_0000) by (bit_vector);
        if bytes >> 20u64 < 1000 {
            ((bytes >> 20u64) as usize, SizeUnit::MB)
        } else {
            ((bytes >> 30u64) as usize, SizeUnit::GB)
        }
    }
}

/// Remembers which drive of which bus was selected last, so that selecting
/// it again can skip the register write.
pub struct DriveSelection {
    last: Option<(u8, u8)>,
}

impl DriveSelection {
    pub closed spec fn last_spec(&self) -> Option<(u8, u8)> {
        self.last
    }

    /// Nothing selected yet.
    pub fn new() -> (s: DriveSelection)
        ensures
            s.last_spec() is None,
    {
        DriveSelection { last: None }
    }

    /// Records that `drive` of bus `bus` is selected; the result says whether
    /// the drive register has to be written (it was not the last selection).
    pub fn select(&mut self, bus: u8, drive: u8) -> (must_write: bool)
        ensures
            must_write == (old(self).last_spec() != Some((bus, drive))),
            final(self).last_spec() == Some((bus, drive)),
    {
        let same = match self.last {
            Some((b, d)) => b == bus && d == drive,
            None => false,
        };
        self.last = Some((bus, drive));
        !same
    }
}

/// The drive register value that selects `drive`: bits 5 and 7 set, the
/// drive number from bit 4 up.
pub fn drive_select_value(drive: u8) -> (r: u8)
    requires
        drive < 2,
    ensures
        r == 0xA0 + 16 * drive,
{
    let r = 0xA0u8 | (drive << 4u8);
    assert(r == 0xA0 + 16 * drive) by (bit_vector)
        requires
            drive < 2,
            r == 0xA0u8 | (drive << 4u8),
    ;
    r
}

} // verus!
