//! Porcelain output: one line per record, fields joined by `:`.
use vstd::prelude::*;

use crate::text::{append_str, join, joined, push_char, views};

verus! {

/// A record that can be written as a porcelain line; each kind of record
/// chooses its fields and their order.
pub trait PorcelainRecord {
    fn porcelain_fields(&self) -> Vec<String>;
}

/// The porcelain text of records given by their fields: each record's fields
/// joined by `:`, followed by a newline.
pub open spec fn porcelain_text(records: Seq<Seq<Seq<char>>>) -> Seq<char>
    decreases records.len(),
{
    if records.len() == 0 {
        Seq::empty()
    } else {
        porcelain_text(records.drop_last()) + joined(records.last(), ":"@).push('\n')
    }
}

/// Write records, given by their fields, as porcelain lines.
pub fn format_porcelain_fields(records: &Vec<Vec<String>>) -> (r: String)
    ensures
        r@ == porcelain_text(records@.map_values(|f: Vec<String>| views(f@))),
{
    let ghost all = records@.map_values(|f: Vec<String>| views(f@));
    let mut out = String::new();
    let mut i: usize = 0;
    while i < records.len()
        invariant
            i <= records@.len(),
            all == records@.map_values(|f: Vec<String>| views(f@)),
            out@ == porcelain_text(all.take(i as int)),
        decreases records@.len() - i,
    {
        assert(all.take(i as int + 1).drop_last() =~= all.take(i as int));
        let line = join(&records[i], ":");
        append_str(&mut out, line.as_str());
        push_char(&mut out, '\n');
        i = i + 1;
    }
    assert(all.take(records@.len() as int) =~= all);
    out
}

/// Write records as porcelain lines: each record's fields, in its own order,
/// joined by `:` and followed by a newline; one line per record.
pub fn format_porcelain<R: PorcelainRecord>(items: &[R]) -> (r: String)
    ensures
        items@.len() == 0 ==> r@.len() == 0,
        exists|fields: Seq<Seq<Seq<char>>>| fields.len() == items@.len() && r@ == porcelain_text(fields),
{
    let mut records: Vec<Vec<String>> = Vec::new();
    let mut i: usize = 0;
    while i < items.len()
        invariant
            i <= items@.len(),
            records@.len() == i,
        decreases items@.len() - i,
    {
        records.push(items[i].porcelain_fields());
        i = i + 1;
    }
    let r = format_porcelain_fields(&records);
    assert(records@.map_values(|f: Vec<String>| views(f@)).len() == items@.len());
    r
}

} // verus!
