use laz::laszip::{ChunkTable, ChunkTableEntry};
use lazrs::chunks::{chunk_table_from_entries, chunk_table_to_entries};

#[test]
fn table_holds_the_entries_in_order() {
    let table = chunk_table_from_entries(&[(10, 100), (20, 200), (0, u64::MAX)]);
    let entries: &[ChunkTableEntry] = table.as_ref();
    assert_eq!(entries.len(), 3);
    assert_eq!(entries[0].point_count, 10);
    assert_eq!(entries[0].byte_count, 100);
    assert_eq!(entries[1].point_count, 20);
    assert_eq!(entries[1].byte_count, 200);
    assert_eq!(entries[2].point_count, 0);
    assert_eq!(entries[2].byte_count, u64::MAX);
}

#[test]
fn empty_list_gives_an_empty_table() {
    let table = chunk_table_from_entries(&[]);
    let held: &[ChunkTableEntry] = table.as_ref();
    assert!(held.is_empty());
    assert_eq!(chunk_table_to_entries(&table), Vec::<(u64, u64)>::new());
}

#[test]
fn entries_of_a_table_come_out_as_pairs() {
    let mut table = ChunkTable::with_capacity(2);
    table.push(ChunkTableEntry { point_count: 7, byte_count: 70 });
    table.push(ChunkTableEntry { point_count: 8, byte_count: 80 });
    table.push(ChunkTableEntry { point_count: 9, byte_count: 90 });
    assert_eq!(chunk_table_to_entries(&table), vec![(7, 70), (8, 80), (9, 90)]);
}

#[test]
fn entries_survive_the_way_in_and_out() {
    let entries: Vec<(u64, u64)> = (0..100u64).map(|i| (i * 50_000, i * i + 1)).collect();
    let table = chunk_table_from_entries(&entries);
    let held: &[ChunkTableEntry] = table.as_ref();
    assert_eq!(held.len(), 100);
    assert_eq!(chunk_table_to_entries(&table), entries);
}
