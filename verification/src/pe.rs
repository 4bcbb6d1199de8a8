//! Section lookup in a structured executable header.
//!
//! The running image and the next-stage image are PE-style binaries: a DOS
//! stub whose tail holds the offset of a `PE\0\0` signature, a fixed-size file
//! header giving a section count and the optional-header size, and then a
//! table of fixed-width section entries. `pe_section` walks that table and
//! returns the byte range of a named section, treating every malformed or
//! out-of-range input as "not found" rather than faulting.

use vstd::prelude::*;
use vstd::slice::{slice_index_get, slice_subrange};

verus! {

/// The little-endian 16-bit value stored at offset `i` of `b`.
pub open spec fn le16(b: Seq<u8>, i: int) -> int
    recommends
        0 <= i,
        i + 2 <= b.len(),
{
    b[i] + 0x100 * b[i + 1]
}

/// The little-endian 32-bit value stored at offset `i` of `b`.
pub open spec fn le32(b: Seq<u8>, i: int) -> int
    recommends
        0 <= i,
        i + 4 <= b.len(),
{
    b[i] + 0x100 * b[i + 1] + 0x10000 * b[i + 2] + 0x1000000 * b[i + 3]
}

fn read_le16(b: &[u8], i: usize) -> (r: u16)
    requires
        i + 2 <= b@.len(),
    ensures
        r == le16(b@, i as int),
{
    let n = b.len();
    let lo = *slice_index_get(b, i);
    let hi = *slice_index_get(b, i + 1);
    lo as u16 + (hi as u16) * 0x100
}

fn read_le32(b: &[u8], i: usize) -> (r: u32)
    requires
        i + 4 <= b@.len(),
    ensures
        r == le32(b@, i as int),
{
    let n = b.len();
    let b0 = *slice_index_get(b, i);
    let b1 = *slice_index_get(b, i + 1);
    let b2 = *slice_index_get(b, i + 2);
    let b3 = *slice_index_get(b, i + 3);
    b0 as u32 + (b1 as u32) * 0x100 + (b2 as u32) * 0x10000 + (b3 as u32) * 0x1000000
}

/// The buffer is long enough for the fixed DOS stub and starts with its
/// `MZ` magic.
pub open spec fn dos_magic_ok(b: Seq<u8>) -> bool {
    &&& b.len() >= 64
    &&& b[0] == 0x4du8
    &&& b[1] == 0x5au8
}

/// Offset of the `PE\0\0` signature, stored at the tail of the DOS stub.
pub open spec fn pe_offset(b: Seq<u8>) -> int {
    le32(b, 60)
}

/// The signature and the fixed-size file header after it fit in the buffer,
/// and the signature bytes are `PE\0\0`.
pub open spec fn pe_sig_ok(b: Seq<u8>) -> bool {
    &&& pe_offset(b) + 24 <= b.len()
    &&& b[pe_offset(b)] == 0x50u8
    &&& b[pe_offset(b) + 1] == 0x45u8
    &&& b[pe_offset(b) + 2] == 0u8
    &&& b[pe_offset(b) + 3] == 0u8
}

/// A well-formed header: DOS magic, then a `PE\0\0` signature in bounds.
pub open spec fn header_ok(b: Seq<u8>) -> bool {
    dos_magic_ok(b) && pe_sig_ok(b)
}

/// Number of entries in the section table, from the file header.
pub open spec fn section_count(b: Seq<u8>) -> int {
    le16(b, pe_offset(b) + 6)
}

/// Size of the optional header, which sits between the file header and the
/// section table.
pub open spec fn optional_header_size(b: Seq<u8>) -> int {
    le16(b, pe_offset(b) + 20)
}

/// Offset of the section table.
pub open spec fn table_offset(b: Seq<u8>) -> int {
    pe_offset(b) + 24 + optional_header_size(b)
}

/// Offset of section-table entry `k`; entries are 40 bytes each.
pub open spec fn entry_offset(b: Seq<u8>, k: int) -> int {
    table_offset(b) + 40 * k
}

/// Entry `k` lies fully within the buffer.
pub open spec fn entry_readable(b: Seq<u8>, k: int) -> bool {
    entry_offset(b, k) + 40 <= b.len()
}

/// The fixed-width name field at offset `off` equals `name` padded with zero
/// bytes to its full width of 8. A name longer than the field matches nothing.
pub open spec fn name_field_matches(b: Seq<u8>, off: int, name: Seq<u8>) -> bool {
    &&& name.len() <= 8
    &&& forall|j: int|
        0 <= j < 8 ==> #[trigger] b[off + j] == (if j < name.len() {
            name[j]
        } else {
            0u8
        })
}

/// File offset of entry `k`'s section data.
pub open spec fn entry_data_offset(b: Seq<u8>, k: int) -> int {
    le32(b, entry_offset(b, k) + 20)
}

/// Size in the file of entry `k`'s section data.
pub open spec fn entry_data_size(b: Seq<u8>, k: int) -> int {
    le32(b, entry_offset(b, k) + 16)
}

/// Entry `k`'s declared byte range lies within the buffer.
pub open spec fn entry_range_ok(b: Seq<u8>, k: int) -> bool {
    entry_data_offset(b, k) + entry_data_size(b, k) <= b.len()
}

/// Walk the section table from entry `k` for a name match. The walk is
/// bounds-checked at every step: it gives up at the first entry that does not
/// fit in the buffer. A matching entry whose declared range exceeds the
/// buffer counts as absent.
pub open spec fn find_section_from(b: Seq<u8>, name: Seq<u8>, k: int) -> Option<(int, int)>
    decreases section_count(b) - k,
{
    if k < 0 || k >= section_count(b) {
        None
    } else if !entry_readable(b, k) {
        None
    } else if name_field_matches(b, entry_offset(b, k), name) {
        if entry_range_ok(b, k) {
            Some((entry_data_offset(b, k), entry_data_size(b, k)))
        } else {
            None
        }
    } else {
        find_section_from(b, name, k + 1)
    }
}

/// The byte range of the first section named `name`, or `None` for malformed
/// input, an absent name, or a section whose declared range does not fit.
pub open spec fn spec_pe_section(b: Seq<u8>, name: Seq<u8>) -> Option<(int, int)> {
    if header_ok(b) {
        find_section_from(b, name, 0)
    } else {
        None
    }
}

/// Whether the 8-byte name field at `off` equals `name` padded with zeros.
fn name_matches_at(b: &[u8], off: usize, name: &[u8]) -> (m: bool)
    requires
        off + 8 <= b@.len(),
    ensures
        m == name_field_matches(b@, off as int, name@),
{
    let n = b.len();
    if name.len() > 8 {
        return false;
    }
    let mut j: usize = 0;
    while j < 8
        invariant
            off + 8 <= b@.len(),
            b@.len() <= usize::MAX,
            name@.len() <= 8,
            0 <= j <= 8,
            forall|jj: int|
                0 <= jj < j ==> #[trigger] b@[off + jj] == (if jj < name@.len() {
                    name@[jj]
                } else {
                    0u8
                }),
        decreases 8 - j,
    {
        let expected: u8 = if j < name.len() {
            *slice_index_get(name, j)
        } else {
            0
        };
        if *slice_index_get(b, off + j) != expected {
            return false;
        }
        j = j + 1;
    }
    true
}

/// Look up the byte range of the section named `name` in the executable image
/// `data` and return a view of it, or `None` if the header is malformed, no
/// section of that name exists, or its declared range does not fit in `data`.
pub fn pe_section<'a>(data: &'a [u8], name: &[u8]) -> (r: Option<&'a [u8]>)
    ensures
        match spec_pe_section(data@, name@) {
            Some(range) => r matches Some(s) && s@ == data@.subrange(range.0, range.0 + range.1),
            None => r is None,
        },
{
    let len = data.len();
    if len < 64 {
        return None;
    }
    if *slice_index_get(data, 0) != 0x4d || *slice_index_get(data, 1) != 0x5a {
        return None;
    }
    let pe_off = read_le32(data, 60) as usize;
    if pe_off > len || len - pe_off < 24 {
        return None;
    }
    if *slice_index_get(data, pe_off) != 0x50 || *slice_index_get(data, pe_off + 1) != 0x45
        || *slice_index_get(data, pe_off + 2) != 0 || *slice_index_get(data, pe_off + 3) != 0 {
        return None;
    }
    let count = read_le16(data, pe_off + 6) as usize;
    let opt_size = read_le16(data, pe_off + 20) as usize;
    let after_header = len - (pe_off + 24);
    if opt_size > after_header {
        // The section table would start past the end of the buffer, so not
        // even its first entry can be read.
        assert(count > 0 ==> !entry_readable(data@, 0));
        return None;
    }
    let table = pe_off + 24 + opt_size;
    let room = len - table;
    let mut k: usize = 0;
    while k < count
        invariant
            data@.len() == len,
            header_ok(data@),
            pe_off == pe_offset(data@),
            count == section_count(data@),
            count <= 0xffff,
            table == table_offset(data@),
            table <= len,
            room == len - table,
            0 <= k <= count,
            find_section_from(data@, name@, 0) == find_section_from(data@, name@, k as int),
        decreases count - k,
    {
        if room < 40 * k + 40 {
            // Entry k does not fit in the buffer; the walk gives up here.
            assert(!entry_readable(data@, k as int));
            return None;
        }
        let entry = table + 40 * k;
        assert(entry_offset(data@, k as int) == entry);
        assert(entry + 40 <= len);
        if name_matches_at(data, entry, name) {
            let size = read_le32(data, entry + 16) as usize;
            let off = read_le32(data, entry + 20) as usize;
            if off > len || size > len - off {
                return None;
            }
            return Some(slice_subrange(data, off, off + size));
        }
        k = k + 1;
        assert(find_section_from(data@, name@, k as int - 1) == find_section_from(
            data@,
            name@,
            k as int,
        ));
    }
    assert(find_section_from(data@, name@, k as int) is None);
    None
}

/// Malformed input never yields a section: without a well-formed header the
/// lookup finds nothing. This covers empty input, input shorter than the
/// fixed headers, and a wrong magic or signature.
pub proof fn lemma_malformed_header_finds_nothing(b: Seq<u8>, name: Seq<u8>)
    requires
        !header_ok(b),
    ensures
        spec_pe_section(b, name) is None,
{
}

proof fn lemma_find_section_in_bounds(b: Seq<u8>, name: Seq<u8>, k: int)
    ensures
        find_section_from(b, name, k) matches Some(range) ==> 0 <= range.0 && 0 <= range.1
            && range.0 + range.1 <= b.len(),
    decreases section_count(b) - k,
{
    if k < 0 || k >= section_count(b) {
    } else if !entry_readable(b, k) {
    } else if name_field_matches(b, entry_offset(b, k), name) {
    } else {
        lemma_find_section_in_bounds(b, name, k + 1);
    }
}

/// A returned range always lies within the buffer: a section whose declared
/// range exceeds the buffer is treated as absent, never handed out.
pub proof fn lemma_section_range_in_bounds(b: Seq<u8>, name: Seq<u8>)
    ensures
        spec_pe_section(b, name) matches Some(range) ==> 0 <= range.0 && 0 <= range.1
            && range.0 + range.1 <= b.len(),
{
    lemma_find_section_in_bounds(b, name, 0);
}

/// Name comparison is exact under the padding rules: two different names that
/// hold no padding byte themselves can never match the same name field. In
/// particular, a field holding one name never matches a proper prefix or a
/// proper extension of it.
pub proof fn lemma_name_match_exact(b: Seq<u8>, off: int, n1: Seq<u8>, n2: Seq<u8>)
    requires
        name_field_matches(b, off, n1),
        name_field_matches(b, off, n2),
        forall|i: int| 0 <= i < n1.len() ==> n1[i] != 0,
        forall|i: int| 0 <= i < n2.len() ==> n2[i] != 0,
    ensures
        n1 == n2,
{
    if n1.len() < n2.len() {
        assert(b[off + n1.len()] == 0u8);
        assert(b[off + n1.len()] == n2[n1.len() as int]);
        assert(false);
    } else if n2.len() < n1.len() {
        assert(b[off + n2.len()] == 0u8);
        assert(b[off + n2.len()] == n1[n2.len() as int]);
        assert(false);
    } else {
        assert forall|i: int| 0 <= i < n1.len() implies n1[i] == n2[i] by {
            assert(b[off + i] == n1[i]);
            assert(b[off + i] == n2[i]);
        }
        assert(n1 =~= n2);
    }
}

} // verus!
