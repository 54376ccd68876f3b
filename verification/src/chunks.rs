//! Chunk tables: the list of (point count, byte count) pairs that describes
//! the compressed chunks of a stream.
//!
//! The table itself belongs to the codec. This module carries its entries in
//! and out as plain pairs and never looks into them.

use vstd::prelude::*;

verus! {

/// The codec's chunk table, `laz::laszip::ChunkTable`. Nothing inside it is
/// visible here; what it holds is spoken of through
/// [`chunk_table_entries`].
#[verifier::external_type_specification]
#[verifier::external_body]
pub struct ExChunkTable(laz::laszip::ChunkTable);

/// The entries that a chunk table holds, in order, each as the pair of its
/// point count and its byte count.
pub uninterp spec fn chunk_table_entries(table: laz::laszip::ChunkTable) -> Seq<(u64, u64)>;

/// The largest number of entries that room is set aside for in advance: as
/// many as one allocation can hold, an entry being two `u64`, which is
/// sixteen bytes.
pub open spec fn spec_max_reserved() -> usize {
    (isize::MAX as usize / 16) as usize
}

fn max_reserved() -> (n: usize)
    ensures
        n == spec_max_reserved(),
{
    isize::MAX as usize / 16
}

/// `ChunkTable::with_capacity`: an empty table, with room set aside for
/// `capacity` entries. Beyond the bound the allocation would be refused with
/// a panic.
#[verifier::external_body]
fn table_with_capacity(capacity: usize) -> (table: laz::laszip::ChunkTable)
    requires
        capacity <= spec_max_reserved(),
    ensures
        chunk_table_entries(table) == Seq::<(u64, u64)>::empty(),
{
    laz::laszip::ChunkTable::with_capacity(capacity)
}

/// `ChunkTable::push`: the entry made of the two counts is added at the end,
/// and the entries before it stay as they are.
#[verifier::external_body]
fn table_push(table: &mut laz::laszip::ChunkTable, point_count: u64, byte_count: u64)
    ensures
        chunk_table_entries(*final(table)) == chunk_table_entries(*old(table)).push(
            (point_count, byte_count),
        ),
{
    table.push(laz::laszip::ChunkTableEntry { point_count, byte_count })
}

/// `ChunkTable::len`: the number of entries.
#[verifier::external_body]
fn table_len(table: &laz::laszip::ChunkTable) -> (len: usize)
    ensures
        len == chunk_table_entries(*table).len(),
{
    table.len()
}

/// Indexing a `ChunkTable` by a position: the two counts of the entry at
/// `index`, which must exist.
#[verifier::external_body]
fn table_entry(table: &laz::laszip::ChunkTable, index: usize) -> (entry: (u64, u64))
    requires
        index < chunk_table_entries(*table).len(),
    ensures
        entry == chunk_table_entries(*table)[index as int],
{
    let entry = table[index];
    (entry.point_count, entry.byte_count)
}

/// Builds the chunk table that holds `entries`, in their order.
pub fn chunk_table_from_entries(entries: &[(u64, u64)]) -> (table: laz::laszip::ChunkTable)
    ensures
        chunk_table_entries(table) == entries@,
{
    let limit = max_reserved();
    let reserved: usize = if entries.len() <= limit {
        entries.len()
    } else {
        limit
    };
    let mut table = table_with_capacity(reserved);
    let mut i: usize = 0;
    while i < entries.len()
        invariant
            i <= entries@.len(),
            chunk_table_entries(table) == entries@.subrange(0, i as int),
        decreases entries@.len() - i,
    {
        let (point_count, byte_count) = entries[i];
        table_push(&mut table, point_count, byte_count);
        i += 1;
    }
    table
}

/// Lists the entries of `table`, in their order.
pub fn chunk_table_to_entries(table: &laz::laszip::ChunkTable) -> (entries: Vec<(u64, u64)>)
    ensures
        entries@ == chunk_table_entries(*table),
{
    let len = table_len(table);
    let mut entries: Vec<(u64, u64)> = Vec::new();
    let mut i: usize = 0;
    while i < len
        invariant
            i <= len,
            len == chunk_table_entries(*table).len(),
            entries@ == chunk_table_entries(*table).subrange(0, i as int),
        decreases len - i,
    {
        entries.push(table_entry(table, i));
        i += 1;
    }
    entries
}

} // verus!
