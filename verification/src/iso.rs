//! Classification of an image by its first bytes.
//!
//! An image may be written raw to a device only if it carries a partition
//! table: an MBR with a boot signature and a used partition entry, or a GPT
//! header. The verdict is a function of the header bytes alone.

use vstd::prelude::*;

verus! {

/// What the header of an image says about writing it raw.
#[derive(Debug, Clone, Copy, PartialEq, Eq, Structural)]
pub enum IsoKind {
    /// Too few bytes to tell.
    Unknown,
    /// A partition table is present: a raw write gives a usable device.
    Hybrid,
    /// No partition table: a raw write must be refused.
    NonHybrid,
}

/// Offset of the first MBR partition entry.
pub const PARTITION_TABLE_OFFSET: usize = 446;

/// Offset of the two boot-signature bytes; the four 16-byte partition
/// entries end here.
pub const MBR_SIGNATURE_OFFSET: usize = 510;

/// Size of the MBR sector, the least that must be read.
pub const MBR_SIZE: usize = 512;

/// Number of header bytes that are ever inspected.
pub const HEADER_SIZE: usize = 520;

/// The GPT header magic, the ASCII text `EFI PART`.
pub open spec fn gpt_magic() -> Seq<u8> {
    seq![0x45u8, 0x46u8, 0x49u8, 0x20u8, 0x50u8, 0x41u8, 0x52u8, 0x54u8]
}

/// The boot signature `0x55 0xAA` stands at offsets 510 and 511.
pub open spec fn has_mbr_signature(header: Seq<u8>) -> bool {
    header.len() >= 512 && header[510] == 0x55u8 && header[511] == 0xAAu8
}

/// Some byte of the four partition entries (offsets 446 to 509) is not zero.
pub open spec fn has_partition_entry(header: Seq<u8>) -> bool {
    header.len() >= 512 && exists|i: int| 446 <= i < 510 && #[trigger] header[i] != 0u8
}

/// The GPT magic stands at offsets 512 to 519.
pub open spec fn has_gpt_magic(header: Seq<u8>) -> bool {
    header.len() >= 520 && header.subrange(512, 520) == gpt_magic()
}

/// The verdict on a header.
pub open spec fn classify(header: Seq<u8>) -> IsoKind {
    if header.len() < 512 {
        IsoKind::Unknown
    } else if (has_mbr_signature(header) && has_partition_entry(header)) || has_gpt_magic(header) {
        IsoKind::Hybrid
    } else {
        IsoKind::NonHybrid
    }
}

/// Whether any byte of `header` in `from..to` is not zero.
fn any_nonzero(header: &[u8], from: usize, to: usize) -> (found: bool)
    requires
        from <= to <= header@.len(),
    ensures
        found <==> exists|i: int| from <= i < to && #[trigger] header@[i] != 0u8,
{
    let mut i: usize = from;
    while i < to
        invariant
            from <= i <= to <= header@.len(),
            forall|j: int| from <= j < i ==> #[trigger] header@[j] == 0u8,
        decreases to - i,
    {
        if header[i] != 0 {
            return true;
        }
        i += 1;
    }
    false
}

/// Whether the eight bytes of `header` from offset 512 are the GPT magic.
fn is_gpt_magic(header: &[u8]) -> (found: bool)
    requires
        header@.len() >= 520,
    ensures
        found == has_gpt_magic(header@),
{
    let found = header[512] == 0x45 && header[513] == 0x46 && header[514] == 0x49
        && header[515] == 0x20 && header[516] == 0x50 && header[517] == 0x41
        && header[518] == 0x52 && header[519] == 0x54;
    proof {
        let part = header@.subrange(512, 520);
        if found {
            assert(part =~= gpt_magic());
        } else {
            assert(part[0] == header@[512] && part[1] == header@[513]
                && part[2] == header@[514] && part[3] == header@[515]
                && part[4] == header@[516] && part[5] == header@[517]
                && part[6] == header@[518] && part[7] == header@[519]);
        }
    }
    found
}

/// Classifies an image from the bytes read at its start.
///
/// `header` holds what one read of the image returned; bytes past offset 519
/// are never looked at. Fewer than 512 bytes give `Unknown`. Otherwise the
/// image is `Hybrid` if it has the boot signature and a used partition entry,
/// or the GPT magic, and `NonHybrid` if it has neither.
pub fn detect(header: &[u8]) -> (kind: IsoKind)
    ensures
        kind == classify(header@),
{
    if header.len() < MBR_SIZE {
        return IsoKind::Unknown;
    }
    let signature = header[MBR_SIGNATURE_OFFSET] == 0x55 && header[MBR_SIGNATURE_OFFSET + 1] == 0xAA;
    let partition = any_nonzero(header, PARTITION_TABLE_OFFSET, MBR_SIGNATURE_OFFSET);
    let gpt = header.len() >= HEADER_SIZE && is_gpt_magic(header);
    if (signature && partition) || gpt {
        IsoKind::Hybrid
    } else {
        IsoKind::NonHybrid
    }
}

/// A header of fewer than 512 bytes is never classified: the verdict is
/// `Unknown`.
pub proof fn lemma_short_header_is_unknown(header: Seq<u8>)
    requires
        header.len() < 512,
    ensures
        classify(header) == IsoKind::Unknown,
{
}

/// A header with the boot signature and a non-zero byte at offset `at`
/// inside the partition entries is `Hybrid`.
pub proof fn lemma_signature_and_entry_is_hybrid(header: Seq<u8>, at: int)
    requires
        header.len() >= 512,
        header[510] == 0x55u8,
        header[511] == 0xAAu8,
        446 <= at < 510,
        header[at] != 0u8,
    ensures
        classify(header) == IsoKind::Hybrid,
{
}

/// A header of at least 512 bytes that is zero everywhere but, possibly, in
/// the two boot-signature bytes is `NonHybrid`.
pub proof fn lemma_zero_header_is_nonhybrid(header: Seq<u8>)
    requires
        header.len() >= 512,
        forall|i: int| 0 <= i < header.len() && i != 510 && i != 511 ==> #[trigger] header[i] == 0u8,
    ensures
        classify(header) == IsoKind::NonHybrid,
{
    if has_gpt_magic(header) {
        assert(header.subrange(512, 520)[0] == header[512]);
        assert(gpt_magic()[0] == 0x45u8);
    }
}

/// A header with the GPT magic at offsets 512 to 519 is `Hybrid`, whatever
/// the boot-signature bytes and the partition entries hold.
pub proof fn lemma_gpt_magic_is_hybrid(header: Seq<u8>)
    requires
        header.len() >= 520,
        header.subrange(512, 520) == gpt_magic(),
    ensures
        classify(header) == IsoKind::Hybrid,
{
}

} // verus!
