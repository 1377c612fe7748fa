//! Snapshots of a disk's sectors: a sequence of tagged blocks.
//!
//! A block is a tag of four bytes, the payload's length as a big-endian
//! number of four bytes, and the payload.  A snapshot holds at most one block
//! of each tag, and always the IDENTIFY block.

use vstd::prelude::*;
use crate::disk::device::{Disk, DiskView};
use crate::error::Error;
use crate::types::enums::DiskType;

verus! {

/// The tag `IDFY`.
pub const TAG_IDENTIFY: u32 = 0x49444659;

/// The tag `SMST`.
pub const TAG_SMART_STATUS: u32 = 0x534D5354;

/// The tag `SMDT`.
pub const TAG_SMART_DATA: u32 = 0x534D4454;

/// The tag `SMTH`.
pub const TAG_SMART_THRESHOLDS: u32 = 0x534D5448;

/// Length of a sector in bytes.
pub const SECTOR_LEN: usize = 512;

/// The kinds of block in a snapshot.
#[derive(Debug, Clone, Copy, PartialEq, Eq, Structural)]
pub enum BlobTag {
    /// The IDENTIFY DEVICE sector, 512 bytes.
    Identify,
    /// The SMART status, 4 bytes: a big-endian number, zero for a failing disk.
    SmartStatus,
    /// The SMART DATA sector, 512 bytes.
    SmartData,
    /// The SMART THRESHOLDS sector, 512 bytes.
    SmartThresholds,
}

impl BlobTag {
    /// The tag that the number `value` spells, if it spells one.
    pub open spec fn spec_from_u32(value: u32) -> Option<BlobTag> {
        if value == TAG_IDENTIFY {
            Some(BlobTag::Identify)
        } else if value == TAG_SMART_STATUS {
            Some(BlobTag::SmartStatus)
        } else if value == TAG_SMART_DATA {
            Some(BlobTag::SmartData)
        } else if value == TAG_SMART_THRESHOLDS {
            Some(BlobTag::SmartThresholds)
        } else {
            None
        }
    }

    /// The tag that the number `value` spells, if it spells one.
    #[verifier::when_used_as_spec(spec_from_u32)]
    pub fn from_u32(value: u32) -> (r: Option<BlobTag>)
        ensures
            r == Self::spec_from_u32(value),
    {
        if value == TAG_IDENTIFY {
            Some(BlobTag::Identify)
        } else if value == TAG_SMART_STATUS {
            Some(BlobTag::SmartStatus)
        } else if value == TAG_SMART_DATA {
            Some(BlobTag::SmartData)
        } else if value == TAG_SMART_THRESHOLDS {
            Some(BlobTag::SmartThresholds)
        } else {
            None
        }
    }

    /// The four letters of the tag as a big-endian number.
    pub open spec fn spec_value(self) -> u32 {
        match self {
            BlobTag::Identify => TAG_IDENTIFY,
            BlobTag::SmartStatus => TAG_SMART_STATUS,
            BlobTag::SmartData => TAG_SMART_DATA,
            BlobTag::SmartThresholds => TAG_SMART_THRESHOLDS,
        }
    }

    /// The four letters of the tag as a big-endian number.
    #[verifier::when_used_as_spec(spec_value)]
    pub fn value(self) -> (r: u32)
        ensures
            r == self.spec_value(),
    {
        match self {
            BlobTag::Identify => TAG_IDENTIFY,
            BlobTag::SmartStatus => TAG_SMART_STATUS,
            BlobTag::SmartData => TAG_SMART_DATA,
            BlobTag::SmartThresholds => TAG_SMART_THRESHOLDS,
        }
    }

    /// The length that the payload of a block with this tag must have.
    pub open spec fn spec_payload_len(self) -> usize {
        match self {
            BlobTag::SmartStatus => 4,
            _ => SECTOR_LEN,
        }
    }

    /// The length that the payload of a block with this tag must have.
    #[verifier::when_used_as_spec(spec_payload_len)]
    pub fn payload_len(self) -> (r: usize)
        ensures
            r == self.spec_payload_len(),
    {
        match self {
            BlobTag::SmartStatus => 4,
            _ => SECTOR_LEN,
        }
    }
}

/// What a snapshot holds.
#[derive(Debug, Clone, Copy)]
pub struct BlobData {
    /// The IDENTIFY DEVICE sector.
    pub identify: Option<[u8; 512]>,
    /// Whether the disk called itself healthy.
    pub smart_status: Option<bool>,
    /// The SMART DATA sector.
    pub smart_data: Option<[u8; 512]>,
    /// The SMART THRESHOLDS sector.
    pub smart_thresholds: Option<[u8; 512]>,
}

/// What a snapshot holds, as a mathematical value.
pub struct BlobView {
    pub identify: Option<Seq<u8>>,
    pub smart_status: Option<bool>,
    pub smart_data: Option<Seq<u8>>,
    pub smart_thresholds: Option<Seq<u8>>,
}

impl BlobView {
    /// The snapshot that holds nothing.
    pub open spec fn empty() -> BlobView {
        BlobView { identify: None, smart_status: None, smart_data: None, smart_thresholds: None }
    }

    /// Every sector that is there has 512 bytes.
    pub open spec fn sectors_full(self) -> bool {
        &&& self.identify matches Some(s) ==> s.len() == SECTOR_LEN
        &&& self.smart_data matches Some(s) ==> s.len() == SECTOR_LEN
        &&& self.smart_thresholds matches Some(s) ==> s.len() == SECTOR_LEN
    }

    /// The snapshot is one that a file can hold: its sectors are full and
    /// the IDENTIFY sector is there.
    pub open spec fn wf(self) -> bool {
        self.sectors_full() && self.identify is Some
    }
}

/// The bytes of a sector that may be missing.
pub open spec fn sector_view(sector: Option<[u8; 512]>) -> Option<Seq<u8>> {
    match sector {
        Some(s) => Some(s@),
        None => None,
    }
}

impl View for BlobData {
    type V = BlobView;

    open spec fn view(&self) -> BlobView {
        BlobView {
            identify: sector_view(self.identify),
            smart_status: self.smart_status,
            smart_data: sector_view(self.smart_data),
            smart_thresholds: sector_view(self.smart_thresholds),
        }
    }
}

impl BlobData {
    /// The snapshot that holds nothing.
    pub fn new() -> (r: Self)
        ensures
            r.identify is None,
            r.smart_status is None,
            r.smart_data is None,
            r.smart_thresholds is None,
            r@ == BlobView::empty(),
    {
        Self { identify: None, smart_status: None, smart_data: None, smart_thresholds: None }
    }
}

/// The number that the first four bytes of `b` spell, most significant byte
/// first.
pub open spec fn be32(b: Seq<u8>) -> int {
    b[0] as int * 0x100_0000 + b[1] as int * 0x1_0000 + b[2] as int * 0x100 + b[3] as int
}

/// The four bytes that spell `v`, most significant byte first.
pub open spec fn be32_bytes(v: int) -> Seq<u8> {
    seq![
        ((v / 0x100_0000) % 0x100) as u8,
        ((v / 0x1_0000) % 0x100) as u8,
        ((v / 0x100) % 0x100) as u8,
        (v % 0x100) as u8,
    ]
}

/// The snapshot `acc` with one more block in it, or `None` where the block
/// cannot be added: its tag is unknown, its payload has the wrong length, or
/// `acc` has a block of that tag already.
pub open spec fn store_block(acc: BlobView, tag: int, payload: Seq<u8>) -> Option<BlobView> {
    if tag == TAG_IDENTIFY {
        if payload.len() == SECTOR_LEN && acc.identify is None {
            Some(BlobView { identify: Some(payload), ..acc })
        } else {
            None
        }
    } else if tag == TAG_SMART_STATUS {
        if payload.len() == 4 && acc.smart_status is None {
            Some(BlobView { smart_status: Some(be32(payload) != 0), ..acc })
        } else {
            None
        }
    } else if tag == TAG_SMART_DATA {
        if payload.len() == SECTOR_LEN && acc.smart_data is None {
            Some(BlobView { smart_data: Some(payload), ..acc })
        } else {
            None
        }
    } else if tag == TAG_SMART_THRESHOLDS {
        if payload.len() == SECTOR_LEN && acc.smart_thresholds is None {
            Some(BlobView { smart_thresholds: Some(payload), ..acc })
        } else {
            None
        }
    } else {
        None
    }
}

/// The snapshot `acc` with the blocks of `data` added one after the other, or
/// `None` where a block runs over the end of `data` or cannot be added.
/// Fewer than eight bytes at the end are no block and are passed over.
pub open spec fn decode_blocks(data: Seq<u8>, acc: BlobView) -> Option<BlobView>
    decreases data.len(),
{
    if data.len() < 8 {
        Some(acc)
    } else {
        let tag = be32(data.subrange(0, 4));
        let size = be32(data.subrange(4, 8));
        if 8 + size > data.len() {
            None
        } else {
            match store_block(acc, tag, data.subrange(8, 8 + size)) {
                Some(next) => decode_blocks(data.subrange(8 + size, data.len() as int), next),
                None => None,
            }
        }
    }
}

/// The snapshot that the bytes `data` spell, or `None` where they spell none:
/// a block is cut short, has an unknown tag or a length that does not fit its
/// tag, a tag comes twice, or the IDENTIFY block is missing.
pub open spec fn decode_blob(data: Seq<u8>) -> Option<BlobView> {
    match decode_blocks(data, BlobView::empty()) {
        Some(blob) => if blob.identify is Some {
            Some(blob)
        } else {
            None
        },
        None => None,
    }
}

/// The bytes of one block.
pub open spec fn block_bytes(tag: u32, payload: Seq<u8>) -> Seq<u8> {
    be32_bytes(tag as int) + be32_bytes(payload.len() as int) + payload
}

/// The bytes of the block that holds `sector`, and no bytes where the sector
/// is missing.
pub open spec fn sector_block(tag: u32, sector: Option<Seq<u8>>) -> Seq<u8> {
    match sector {
        Some(s) => block_bytes(tag, s),
        None => Seq::empty(),
    }
}

/// The bytes of the SMART status block, and no bytes where the status is
/// missing.  A healthy disk is written as 1.
pub open spec fn status_block(status: Option<bool>) -> Seq<u8> {
    match status {
        Some(good) => block_bytes(
            TAG_SMART_STATUS,
            be32_bytes(
                if good {
                    1
                } else {
                    0
                },
            ),
        ),
        None => Seq::empty(),
    }
}

/// The bytes that spell the snapshot `blob`: its blocks in the order
/// IDENTIFY, SMART status, SMART DATA, SMART THRESHOLDS.
pub open spec fn encode_blob_bytes(blob: BlobView) -> Seq<u8> {
    sector_block(TAG_IDENTIFY, blob.identify) + status_block(blob.smart_status) + sector_block(
        TAG_SMART_DATA,
        blob.smart_data,
    ) + sector_block(TAG_SMART_THRESHOLDS, blob.smart_thresholds)
}

/// Reads the big-endian number of four bytes at `pos`.
fn read_be32(data: &[u8], pos: usize) -> (r: u32)
    requires
        pos + 4 <= data@.len(),
    ensures
        r == be32(data@.subrange(pos as int, pos + 4)),
{
    let b0: u32 = data[pos] as u32;
    let b1: u32 = data[pos + 1] as u32;
    let b2: u32 = data[pos + 2] as u32;
    let b3: u32 = data[pos + 3] as u32;
    b0 * 0x100_0000 + b1 * 0x1_0000 + b2 * 0x100 + b3
}

/// Copies the 512 bytes at `pos` into a sector.
pub fn copy_sector(data: &[u8], pos: usize) -> (sector: [u8; 512])
    requires
        pos + 512 <= data@.len(),
    ensures
        sector@ == data@.subrange(pos as int, pos + 512),
{
    let n: usize = data.len();
    let mut sector = [0u8; 512];
    let mut i: usize = 0;
    while i < 512
        invariant
            i <= 512,
            pos + 512 <= n,
            n == data@.len(),
            forall|j: int| 0 <= j < i ==> sector@[j] == data@[pos + j],
        decreases 512 - i,
    {
        sector[i] = data[pos + i];
        i += 1;
    }
    assert(sector@ =~= data@.subrange(pos as int, pos + 512));
    sector
}

/// The refusal of bytes that spell no snapshot.
fn malformed(reason: &str) -> (r: Result<BlobData, Error>)
    ensures
        r matches Err(Error::InvalidData(_)),
{
    Err(Error::InvalidData(reason.to_owned()))
}

/// Reads a snapshot from its bytes.
///
/// The bytes are taken block by block.  They are refused as `InvalidData`
/// where a block is cut short, carries an unknown tag or a payload whose
/// length does not fit the tag, where a tag comes twice, and where no
/// IDENTIFY block is among them.  Fewer than eight bytes after the last
/// block are passed over.
pub fn parse_blob(data: &[u8]) -> (r: Result<BlobData, Error>)
    ensures
        match r {
            Ok(blob) => decode_blob(data@) == Some(blob@),
            Err(e) => decode_blob(data@) is None && e is InvalidData,
        },
{
    let mut blob = BlobData::new();
    let mut pos: usize = 0;
    assert(data@.subrange(0, data@.len() as int) =~= data@);
    while data.len() - pos >= 8
        invariant
            pos <= data@.len(),
            decode_blocks(data@, BlobView::empty()) == decode_blocks(
                data@.subrange(pos as int, data@.len() as int),
                blob@,
            ),
        decreases data@.len() - pos,
    {
        let ghost rest = data@.subrange(pos as int, data@.len() as int);
        let tag_value = read_be32(data, pos);
        let size = read_be32(data, pos + 4);
        let start: usize = pos + 8;
        proof {
            assert(rest.subrange(0, 4) =~= data@.subrange(pos as int, pos + 4));
            assert(rest.subrange(4, 8) =~= data@.subrange(pos + 4, pos + 8));
        }
        if size as usize > data.len() - start {
            return malformed("a block runs over the end of the snapshot");
        }
        let size: usize = size as usize;
        proof {
            assert(rest.subrange(8, 8 + size) =~= data@.subrange(start as int, start + size));
            assert(rest.subrange(8 + size, rest.len() as int) =~= data@.subrange(
                start + size,
                data@.len() as int,
            ));
        }
        match BlobTag::from_u32(tag_value) {
            Some(BlobTag::Identify) => {
                if size != SECTOR_LEN || blob.identify.is_some() {
                    return malformed("bad IDENTIFY block");
                }
                blob.identify = Some(copy_sector(data, start));
            },
            Some(BlobTag::SmartStatus) => {
                if size != 4 || blob.smart_status.is_some() {
                    return malformed("bad SMART status block");
                }
                let status = read_be32(data, start);
                proof {
                    let payload = data@.subrange(start as int, start + 4);
                    assert(payload.subrange(0, 4) =~= payload);
                }
                blob.smart_status = Some(status != 0);
            },
            Some(BlobTag::SmartData) => {
                if size != SECTOR_LEN || blob.smart_data.is_some() {
                    return malformed("bad SMART DATA block");
                }
                blob.smart_data = Some(copy_sector(data, start));
            },
            Some(BlobTag::SmartThresholds) => {
                if size != SECTOR_LEN || blob.smart_thresholds.is_some() {
                    return malformed("bad SMART THRESHOLDS block");
                }
                blob.smart_thresholds = Some(copy_sector(data, start));
            },
            None => {
                return malformed("unknown tag");
            },
        }
        pos = start + size;
    }
    if blob.identify.is_none() {
        return malformed("no IDENTIFY block");
    }
    Ok(blob)
}

/// Appends the four bytes that spell `v`, most significant byte first.
fn push_be32(out: &mut Vec<u8>, v: u32)
    ensures
        final(out)@ == old(out)@ + be32_bytes(v as int),
{
    out.push(((v / 0x100_0000) % 0x100) as u8);
    out.push(((v / 0x1_0000) % 0x100) as u8);
    out.push(((v / 0x100) % 0x100) as u8);
    out.push((v % 0x100) as u8);
    assert(out@ =~= old(out)@ + be32_bytes(v as int));
}

/// Appends the block that holds `sector`, if the sector is there.
fn push_sector(out: &mut Vec<u8>, tag: BlobTag, sector: &Option<[u8; 512]>)
    ensures
        final(out)@ == old(out)@ + sector_block(tag.spec_value(), sector_view(*sector)),
{
    match sector {
        Some(bytes) => {
            push_be32(out, tag.value());
            push_be32(out, 512);
            let mut i: usize = 0;
            while i < 512
                invariant
                    i <= 512,
                    out@ == old(out)@ + be32_bytes(tag.spec_value() as int) + be32_bytes(512)
                        + bytes@.subrange(0, i as int),
                decreases 512 - i,
            {
                out.push(bytes[i]);
                i += 1;
                assert(bytes@.subrange(0, i as int) =~= bytes@.subrange(0, i - 1).push(
                    bytes@[i - 1],
                ));
            }
            assert(bytes@.subrange(0, 512) =~= bytes@);
            assert(out@ =~= old(out)@ + block_bytes(tag.spec_value(), bytes@));
        },
        None => {
            assert(out@ =~= old(out)@ + Seq::<u8>::empty());
        },
    }
}

/// Writes a snapshot as bytes: the blocks that it holds, in the order
/// IDENTIFY, SMART status, SMART DATA, SMART THRESHOLDS.
pub fn encode_blob(blob: &BlobData) -> (out: Vec<u8>)
    ensures
        out@ == encode_blob_bytes(blob@),
{
    let mut out: Vec<u8> = Vec::new();
    push_sector(&mut out, BlobTag::Identify, &blob.identify);
    match blob.smart_status {
        Some(good) => {
            push_be32(&mut out, TAG_SMART_STATUS);
            push_be32(&mut out, 4);
            push_be32(
                &mut out,
                if good {
                    1
                } else {
                    0
                },
            );
            assert(out@ =~= sector_block(TAG_IDENTIFY, blob@.identify) + status_block(
                blob@.smart_status,
            ));
        },
        None => {
            assert(out@ =~= sector_block(TAG_IDENTIFY, blob@.identify) + status_block(
                blob@.smart_status,
            ));
        },
    }
    push_sector(&mut out, BlobTag::SmartData, &blob.smart_data);
    push_sector(&mut out, BlobTag::SmartThresholds, &blob.smart_thresholds);
    out
}

/// Four bytes that spell a number spell it back.
pub proof fn lemma_be32_of_bytes(v: int)
    requires
        0 <= v < 0x1_0000_0000,
    ensures
        be32_bytes(v).len() == 4,
        be32(be32_bytes(v)) == v,
{
    let w = v as u32;
    assert((w / 0x100_0000) % 0x100 == w / 0x100_0000 && ((w / 0x100_0000) % 0x100) * 0x100_0000 + ((w
        / 0x1_0000) % 0x100) * 0x1_0000 + ((w / 0x100) % 0x100) * 0x100 + w % 0x100 == w)
        by (bit_vector);
}

/// Reading bytes that begin with a block adds that block and goes on with
/// the bytes behind it.
pub proof fn lemma_decode_block(tag: u32, payload: Seq<u8>, rest: Seq<u8>, acc: BlobView)
    requires
        payload.len() < 0x1_0000_0000,
    ensures
        decode_blocks(block_bytes(tag, payload) + rest, acc) == match store_block(
            acc,
            tag as int,
            payload,
        ) {
            Some(next) => decode_blocks(rest, next),
            None => None,
        },
{
    let data = block_bytes(tag, payload) + rest;
    let size = payload.len() as int;
    lemma_be32_of_bytes(tag as int);
    lemma_be32_of_bytes(size);
    assert(data.subrange(0, 4) =~= be32_bytes(tag as int));
    assert(data.subrange(4, 8) =~= be32_bytes(size));
    assert(data.subrange(8, 8 + size) =~= payload);
    assert(data.subrange(8 + size, data.len() as int) =~= rest);
}

/// Reading bytes that begin with the block of a sector, or with nothing
/// where the sector is missing, adds the sector and goes on with the bytes
/// behind it.
proof fn lemma_decode_sector_block(tag: u32, sector: Option<Seq<u8>>, rest: Seq<u8>, acc: BlobView)
    requires
        sector matches Some(s) ==> s.len() == SECTOR_LEN,
    ensures
        decode_blocks(sector_block(tag, sector) + rest, acc) == match sector {
            Some(s) => match store_block(acc, tag as int, s) {
                Some(next) => decode_blocks(rest, next),
                None => None,
            },
            None => decode_blocks(rest, acc),
        },
{
    match sector {
        Some(s) => {
            lemma_decode_block(tag, s, rest, acc);
        },
        None => {
            assert(sector_block(tag, sector) + rest =~= rest);
        },
    }
}

/// Reading bytes that begin with the block of a SMART status, or with
/// nothing where the status is missing, adds the status and goes on with the
/// bytes behind it.
proof fn lemma_decode_status_block(status: Option<bool>, rest: Seq<u8>, acc: BlobView)
    requires
        acc.smart_status is None,
    ensures
        decode_blocks(status_block(status) + rest, acc) == decode_blocks(
            rest,
            BlobView { smart_status: status, ..acc },
        ),
{
    match status {
        Some(good) => {
            let n: int = if good {
                1
            } else {
                0
            };
            lemma_be32_of_bytes(n);
            lemma_decode_block(TAG_SMART_STATUS, be32_bytes(n), rest, acc);
        },
        None => {
            assert(status_block(status) + rest =~= rest);
        },
    }
}

/// Four sequences joined from the left are the same bytes as joined from
/// the right.
proof fn lemma_join_four(a: Seq<u8>, b: Seq<u8>, c: Seq<u8>, d: Seq<u8>)
    ensures
        a + b + c + d == a + (b + (c + (d + Seq::<u8>::empty()))),
{
    assert(a + b + c + d =~= a + (b + (c + (d + Seq::<u8>::empty()))));
}

/// A snapshot that is written and read again is the snapshot that was
/// written: `decode_blob` undoes `encode_blob_bytes` on every snapshot that
/// holds the IDENTIFY sector and whose sectors are full.
pub proof fn lemma_blob_round_trip(blob: BlobView)
    requires
        blob.wf(),
    ensures
        decode_blob(encode_blob_bytes(blob)) == Some(blob),
{
    let e = BlobView::empty();
    let b1 = BlobView { identify: blob.identify, ..e };
    let b2 = BlobView { smart_status: blob.smart_status, ..b1 };
    let b3 = BlobView { smart_data: blob.smart_data, ..b2 };
    let s1 = sector_block(TAG_IDENTIFY, blob.identify);
    let s2 = status_block(blob.smart_status);
    let s3 = sector_block(TAG_SMART_DATA, blob.smart_data);
    let s4 = sector_block(TAG_SMART_THRESHOLDS, blob.smart_thresholds);
    let none = Seq::<u8>::empty();
    lemma_join_four(s1, s2, s3, s4);
    lemma_decode_sector_block(TAG_IDENTIFY, blob.identify, s2 + (s3 + (s4 + none)), e);
    lemma_decode_status_block(blob.smart_status, s3 + (s4 + none), b1);
    lemma_decode_sector_block(TAG_SMART_DATA, blob.smart_data, s4 + none, b2);
    lemma_decode_sector_block(TAG_SMART_THRESHOLDS, blob.smart_thresholds, none, b3);
    assert(decode_blocks(none, blob) == Some(blob));
}

/// The handle on the snapshot `blob`: of type `Blob`, of size zero, with
/// the sectors and the status that the snapshot holds.
pub open spec fn blob_disk(blob: BlobView) -> DiskView {
    DiskView {
        disk_type: DiskType::Blob,
        size: 0,
        identify: blob.identify,
        smart_data: blob.smart_data,
        smart_thresholds: blob.smart_thresholds,
        smart_status: blob.smart_status,
    }
}

/// Opens a handle on the snapshot that the bytes `data` spell.  Bytes that
/// spell no snapshot are refused as `InvalidData`.
pub fn disk_from_blob(data: &[u8]) -> (r: Result<Disk, Error>)
    ensures
        match decode_blob(data@) {
            Some(blob) => r matches Ok(disk) && disk@ == blob_disk(blob),
            None => r matches Err(Error::InvalidData(_)),
        },
{
    let blob_data = match parse_blob(data) {
        Ok(blob_data) => blob_data,
        Err(e) => {
            return Err(e);
        },
    };
    let mut disk = Disk::new(DiskType::Blob, 0);
    if let Some(identify) = blob_data.identify {
        disk.set_identify_data(identify);
    }
    if let Some(smart_data) = blob_data.smart_data {
        disk.set_smart_data(smart_data);
    }
    if let Some(thresholds) = blob_data.smart_thresholds {
        disk.set_smart_thresholds(thresholds);
    }
    if let Some(status) = blob_data.smart_status {
        disk.set_smart_status(status);
    }
    Ok(disk)
}

} // verus!
