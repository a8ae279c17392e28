//! The item cache file as a whole: its header, the run of item records that
//! follows it, and the rows that the `item_template` export takes from them.
use vstd::prelude::*;

use crate::item::{lemma_parse_entry_advances, parse_item_entry, spec_parse_entry, ItemEntry, SpecItem};
use crate::reader::{read_u32_le, u32_le_at};
use crate::sql::{row_view, spec_sql_row, sql_row_values, SpecSqlValue, SqlValue};
use crate::text::{byte_list_notation, byte_list_to_string};

verus! {

/// Offset of the first item record: the header is 24 bytes long.
pub const ITEM_RECORDS_OFFSET: usize = 24;

/// The file signature, `BDIW`.
pub open spec fn wdb_signature() -> Seq<u8> {
    seq![66u8, 68u8, 73u8, 87u8]
}

/// Message for a file shorter than its header.
pub open spec fn too_small_message() -> Seq<char> {
    "itemcache.wdb is too small"@
}

/// Message for a file that does not start with the signature.
pub open spec fn bad_signature_message(sig: Seq<u8>) -> Seq<char> {
    "unexpected signature: "@ + byte_list_notation(sig)
}

/// The client build that wrote the cache (the word after the signature), or
/// why the header is refused.
pub open spec fn spec_cache_build(d: Seq<u8>) -> Result<u32, Seq<char>> {
    if d.len() < ITEM_RECORDS_OFFSET {
        Err(too_small_message())
    } else if d.take(4) != wdb_signature() {
        Err(bad_signature_message(d.take(4)))
    } else {
        Ok(u32_le_at(d, 4))
    }
}

/// Checks the header of an item cache and returns the client build.
pub fn read_itemcache_build(data: &[u8]) -> (res: Result<u32, String>)
    ensures
        spec_cache_build(data@) matches Ok(b) ==> res == Ok::<u32, String>(b),
        spec_cache_build(data@) matches Err(e) ==> (res matches Err(x) && x@ == e),
{
    if data.len() < ITEM_RECORDS_OFFSET {
        return Err("itemcache.wdb is too small".to_string());
    }
    let sig = &data[0..4];
    if !(sig[0] == 66 && sig[1] == 68 && sig[2] == 73 && sig[3] == 87) {
        let mut msg = "unexpected signature: ".to_string();
        let list = byte_list_to_string(sig);
        msg.append(list.as_str());
        proof {
            assert(sig@ =~= data@.take(4));
            if data@.take(4) == wdb_signature() {
                assert(data@.take(4)[0] == 66u8);
            }
        }
        return Err(msg);
    }
    assert(data@.take(4) =~= wdb_signature());
    let mut pos: usize = 4;
    let build = read_u32_le(data, &mut pos)?;
    Ok(build)
}

/// The items of the records from offset `p` on, up to the end marker, and
/// the read error that stopped the run, if one did.
pub open spec fn spec_scan_items(d: Seq<u8>, p: int, build: u32) -> (Seq<SpecItem>, Option<
    Seq<char>,
>)
    decreases d.len() - p,
{
    if p < 0 {
        (seq![], None)
    } else {
        match spec_parse_entry(d, p, build) {
            Err(e) => (seq![], Some(e)),
            Ok(None) => (seq![], None),
            Ok(Some((item, q))) => {
                proof {
                    lemma_parse_entry_advances(d, p, build);
                }
                let rest = spec_scan_items(d, q, build);
                (seq![item] + rest.0, rest.1)
            },
        }
    }
}

/// The items read from a cache, and the error that ended the run early.
pub struct ItemScan {
    pub items: Vec<ItemEntry>,
    pub failure: Option<String>,
}

/// The values of a vector of items.
pub open spec fn items_view(items: Seq<ItemEntry>) -> Seq<SpecItem> {
    Seq::new(items.len(), |i: int| items[i]@)
}

/// The message of an optional failure.
pub open spec fn failure_view(f: Option<String>) -> Option<Seq<char>> {
    match f {
        Some(s) => Some(s@),
        None => None,
    }
}

/// Reads item records from `start` on until the end marker or a read error.
pub fn parse_item_records(data: &[u8], start: usize, build: u32) -> (scan: ItemScan)
    ensures
        items_view(scan.items@) == spec_scan_items(data@, start as int, build).0,
        failure_view(scan.failure) == spec_scan_items(data@, start as int, build).1,
{
    let ghost d = data@;
    let mut pos = start;
    let mut items: Vec<ItemEntry> = Vec::new();
    assert(items_view(items@) + spec_scan_items(d, pos as int, build).0 =~= spec_scan_items(
        d,
        start as int,
        build,
    ).0);
    loop
        invariant
            d == data@,
            spec_scan_items(d, start as int, build).0 == items_view(items@) + spec_scan_items(
                d,
                pos as int,
                build,
            ).0,
            spec_scan_items(d, start as int, build).1 == spec_scan_items(d, pos as int, build).1,
        decreases data@.len() - pos,
    {
        let ghost before = pos;
        match parse_item_entry(data, &mut pos, build) {
            Ok(Some(it)) => {
                proof {
                    lemma_parse_entry_advances(d, before as int, build);
                }
                let ghost prev = items_view(items@);
                items.push(it);
                assert(items_view(items@) =~= prev.push(items@.last()@));
                assert(items_view(items@) + spec_scan_items(d, pos as int, build).0 =~= prev + (
                seq![items@.last()@] + spec_scan_items(d, pos as int, build).0));
            },
            Ok(None) => {
                assert(items_view(items@) =~= items_view(items@) + spec_scan_items(
                    d,
                    before as int,
                    build,
                ).0);
                return ItemScan { items, failure: None };
            },
            Err(e) => {
                assert(items_view(items@) =~= items_view(items@) + spec_scan_items(
                    d,
                    before as int,
                    build,
                ).0);
                return ItemScan { items, failure: Some(e) };
            },
        }
    }
}

/// The rows the export writes for a run of items: one per item, in order,
/// leaving out the placeholder items whose inventory type is zero.
pub open spec fn spec_exported_rows(items: Seq<SpecItem>) -> Seq<Seq<SpecSqlValue>>
    decreases items.len(),
{
    if items.len() == 0 {
        seq![]
    } else {
        let rest = spec_exported_rows(items.drop_last());
        if items.last().fields.inventory_type == 0 {
            rest
        } else {
            rest.push(spec_sql_row(items.last()))
        }
    }
}

/// What exporting a cache gives: the header error, or the rows together with
/// the read error that cut the records short, if one did.
pub open spec fn spec_itemcache_export(d: Seq<u8>) -> Result<
    (Seq<Seq<SpecSqlValue>>, Option<Seq<char>>),
    Seq<char>,
> {
    match spec_cache_build(d) {
        Err(e) => Err(e),
        Ok(build) => {
            let scan = spec_scan_items(d, ITEM_RECORDS_OFFSET as int, build);
            Ok((spec_exported_rows(scan.0), scan.1))
        },
    }
}

/// The rows of an export and the read error that cut it short, if any.
pub struct ExportRows {
    pub rows: Vec<Vec<SqlValue>>,
    pub failure: Option<String>,
}

/// The values of a vector of rows.
pub open spec fn value_rows_view(rows: Seq<Vec<SqlValue>>) -> Seq<Seq<SpecSqlValue>> {
    Seq::new(rows.len(), |i: int| row_view(rows[i]@))
}

/// Reads an item cache and gives the `item_template` rows of its items.
pub fn itemcache_rows(data: &[u8]) -> (res: Result<ExportRows, String>)
    ensures
        spec_itemcache_export(data@) matches Err(e) ==> (res matches Err(x) && x@ == e),
        spec_itemcache_export(data@) matches Ok((rows, failure)) ==> (res matches Ok(out)
            && value_rows_view(out.rows@) == rows && failure_view(out.failure) == failure),
{
    let build = read_itemcache_build(data)?;
    let scan = parse_item_records(data, ITEM_RECORDS_OFFSET, build);
    let ghost items = items_view(scan.items@);
    let mut rows: Vec<Vec<SqlValue>> = Vec::new();
    let mut i: usize = 0;
    assert(items.take(0) =~= Seq::<SpecItem>::empty());
    assert(value_rows_view(rows@) =~= Seq::<Seq<SpecSqlValue>>::empty());
    while i < scan.items.len()
        invariant
            i <= scan.items.len(),
            items == items_view(scan.items@),
            value_rows_view(rows@) == spec_exported_rows(items.take(i as int)),
        decreases scan.items.len() - i,
    {
        let it = &scan.items[i];
        proof {
            assert(items.take(i + 1).drop_last() =~= items.take(i as int));
            assert(items.take(i + 1).last() == it@);
        }
        if it.fields.inventory_type != 0 {
            let ghost prev = value_rows_view(rows@);
            let row = sql_row_values(it);
            rows.push(row);
            assert(value_rows_view(rows@) =~= prev.push(spec_sql_row(it@)));
        }
        i = i + 1;
    }
    assert(items.take(i as int) =~= items);
    Ok(ExportRows { rows, failure: scan.failure })
}

/// The export writes exactly the rows of the items that are not
/// placeholders (inventory type zero), one per item and in record order.
pub proof fn lemma_exported_rows_are_kept_items(items: Seq<SpecItem>)
    ensures
        spec_exported_rows(items) == items.filter(|it: SpecItem| it.fields.inventory_type != 0).map_values(
            |it: SpecItem| spec_sql_row(it),
        ),
    decreases items.len(),
{
    reveal(Seq::filter);
    let keep = |it: SpecItem| it.fields.inventory_type != 0;
    let row = |it: SpecItem| spec_sql_row(it);
    if items.len() == 0 {
        assert(items.filter(keep) =~= Seq::<SpecItem>::empty());
        assert(items.filter(keep).map_values(row) =~= Seq::<Seq<SpecSqlValue>>::empty());
    } else {
        lemma_exported_rows_are_kept_items(items.drop_last());
        let kept = items.drop_last().filter(keep);
        if keep(items.last()) {
            assert(kept.push(items.last()).map_values(row) =~= kept.map_values(row).push(
                row(items.last()),
            ));
        }
    }
}

} // verus!
