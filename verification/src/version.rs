use vstd::prelude::*;

verus! {

/// The packed 32-bit version tag for a struct of the given byte size and
/// layout ordinal: the size occupies the low 24 bits and the ordinal the top
/// 8. Versioned native entry points use the tag to check that the caller
/// filled the struct layout it claims.
pub open spec fn version_tag(size: u32, ordinal: u32) -> u32 {
    size | (ordinal << 24)
}

/// The byte size embedded in a version tag: its low 24 bits.
pub open spec fn tag_size(tag: u32) -> u32 {
    tag & 0x00ff_ffff
}

/// The layout ordinal embedded in a version tag: its top 8 bits.
pub open spec fn tag_ordinal(tag: u32) -> u32 {
    tag >> 24
}

/// Computes the version tag for the struct type `T` at layout ordinal `ver`.
///
/// The size must fit in 24 bits and the ordinal in 8, or the size component
/// would bleed into the version bits; both bounds are demanded of the caller
/// rather than silently corrupting the tag.
pub fn struct_version<T>(ver: u32) -> (tag: u32)
    requires
        vstd::layout::size_of::<T>() < 0x0100_0000,
        ver < 0x100,
    ensures
        tag == version_tag(vstd::layout::size_of::<T>() as u32, ver),
{
    let size: usize = core::mem::size_of::<T>();
    (size as u32) | (ver << 24)
}

/// Recovers the byte size a tag was built from.
pub fn extract_size(tag: u32) -> (size: u32)
    ensures
        size == tag_size(tag),
{
    tag & 0x00ff_ffff
}

/// Recovers the layout ordinal a tag was built from.
pub fn extract_ordinal(tag: u32) -> (ordinal: u32)
    ensures
        ordinal == tag_ordinal(tag),
{
    tag >> 24
}

/// The version tag round-trips: for any size below 2^24 and ordinal below
/// 2^8, the low 24 bits of the tag recover the size and the top 8 bits
/// recover the ordinal.
pub proof fn lemma_version_tag_round_trip(size: u32, ordinal: u32)
    by (bit_vector)
    requires
        size < 0x0100_0000,
        ordinal < 0x100,
    ensures
        tag_size(version_tag(size, ordinal)) == size,
        tag_ordinal(version_tag(size, ordinal)) == ordinal,
{
}

} // verus!
