//! A collection of items as tab-delimited text: one record on each line.

use vstd::prelude::*;
use vstd::string::*;
use crate::decimal::lemma_decimal_text_lacks;
use crate::item::{
    address_column, address_is_stable, columns, lacks, lemma_record_has_its_columns,
    lemma_record_round_trip, lemma_spelling_lacks, line_break, reads_as, record_error,
    record_text, without_notes, write_record, Item, ItemView,
};
use crate::item_parsing_error::ItemParsingError;
use crate::text::{
    lemma_join_lacks, lemma_split_extend, lines, lines_of, split_on, views, without_cr,
};

verus! {

/// What each item of a sequence holds.
pub open spec fn item_views(items: Seq<Item>) -> Seq<ItemView> {
    items.map_values(|item: Item| item@)
}

/// The tab-delimited text of a collection: the record of each item, in
/// their order, with a line break behind each. Notes are not written.
pub open spec fn tsv_text(items: Seq<ItemView>) -> Seq<char>
    decreases items.len(),
{
    if items.len() == 0 {
        Seq::empty()
    } else {
        tsv_text(items.drop_last()) + record_text(items.last()) + line_break()
    }
}

/// The error of the first of `records` that is refused, if one is.
pub open spec fn first_error(records: Seq<Seq<char>>) -> Option<ItemParsingError>
    decreases records.len(),
{
    if records.len() == 0 {
        None
    } else {
        match first_error(records.drop_last()) {
            Some(error) => Some(error),
            None => record_error(records.last()),
        }
    }
}

/// Writing a collection out. The text is handed back; putting it into a
/// file is left to the caller.
pub trait Save {
    /// The tab-delimited text of the collection.
    spec fn tsv(&self) -> Seq<char>;

    /// Writes the collection as tab-delimited text.
    fn save_tsv(&self) -> (text: String)
        ensures
            text@ == self.tsv(),
    ;
}

impl Save for Vec<Item> {
    open spec fn tsv(&self) -> Seq<char> {
        tsv_text(item_views(self@))
    }

    fn save_tsv(&self) -> (text: String) {
        proof {
            reveal_strlit("\r\n");
        }
        let mut text = String::new();
        let mut i: usize = 0;
        while i < self.len()
            invariant
                i <= self@.len(),
                "\r\n"@ == line_break(),
                text@ == tsv_text(item_views(self@).take(i as int)),
            decreases self@.len() - i,
        {
            let ghost next = item_views(self@).take(i + 1);
            assert(next.drop_last() =~= item_views(self@).take(i as int));
            write_record(&self[i], &mut text);
            text.append("\r\n");
            i = i + 1;
        }
        assert(item_views(self@).take(i as int) =~= item_views(self@));
        text
    }
}

impl Item {
    /// Reads a collection from tab-delimited text: one item from each
    /// line, as `Item::from_str` reads it. The first line that is refused
    /// ends the reading with its error, and no item is handed out.
    pub fn from_tsv(text: &str) -> (items: Result<Vec<Item>, ItemParsingError>)
        ensures
            match items {
                Ok(items) => {
                    &&& first_error(lines_of(text@)) is None
                    &&& items@.len() == lines_of(text@).len()
                    &&& forall|i: int|
                        0 <= i < items@.len() ==> reads_as(
                            lines_of(text@)[i],
                            (#[trigger] items@[i])@,
                        )
                },
                Err(error) => first_error(lines_of(text@)) == Some(error),
            },
    {
        let records = lines(text);
        let mut items: Vec<Item> = Vec::new();
        let mut i: usize = 0;
        while i < records.len()
            invariant
                i <= records@.len(),
                views(records@) == lines_of(text@),
                first_error(views(records@).take(i as int)) is None,
                items@.len() == i,
                forall|k: int|
                    0 <= k < i ==> reads_as(views(records@)[k], (#[trigger] items@[k])@),
            decreases records@.len() - i,
        {
            let ghost next = views(records@).take(i + 1);
            assert(next.drop_last() =~= views(records@).take(i as int));
            match Item::from_str(records[i]) {
                Ok(item) => {
                    items.push(item);
                },
                Err(error) => {
                    proof {
                        lemma_first_error_stays(views(records@), i + 1);
                    }
                    return Err(error);
                },
            }
            i = i + 1;
        }
        assert(views(records@).take(i as int) =~= views(records@));
        Ok(items)
    }
}

/// An error among the first `k` records is the first error of them all.
pub proof fn lemma_first_error_stays(records: Seq<Seq<char>>, k: int)
    requires
        0 <= k <= records.len(),
        first_error(records.take(k)) is Some,
    ensures
        first_error(records) == first_error(records.take(k)),
    decreases records.len() - k,
{
    if k == records.len() {
        assert(records.take(k) =~= records);
    } else {
        assert(records.take(k + 1).drop_last() =~= records.take(k));
        lemma_first_error_stays(records, k + 1);
    }
}

/// The record of each item, in their order.
pub open spec fn records_of(items: Seq<ItemView>) -> Seq<Seq<char>> {
    items.map_values(|item: ItemView| record_text(item))
}

/// Whether reading the text of `item` finds it again: it has an id, its
/// id, name and address hold neither a tab nor a line feed, and its
/// address is read as itself.
pub open spec fn survives_tsv(item: ItemView) -> bool {
    &&& item.wf()
    &&& lacks(item, '\t')
    &&& lacks(item, '\n')
    &&& address_is_stable(item)
}

/// The record of an item whose id, name and address hold no line feed
/// holds none.
pub proof fn lemma_record_stays_on_its_line(item: ItemView)
    requires
        lacks(item, '\n'),
    ensures
        !record_text(item).contains('\n'),
{
    let parts = columns(item);
    lemma_decimal_text_lacks(item.quantity as nat, '\n');
    lemma_spelling_lacks(item.priority, '\n');
    lemma_join_lacks(parts, '\t', '\n');
}

/// The lines of the text of a collection are the records of its items,
/// where no id, name or address holds a line feed.
pub proof fn lemma_lines_of_tsv_text(items: Seq<ItemView>)
    requires
        forall|i: int| 0 <= i < items.len() ==> lacks(#[trigger] items[i], '\n'),
    ensures
        split_on(tsv_text(items), '\n') == items.map_values(
            |item: ItemView| record_text(item).push('\r'),
        ).push(Seq::empty()),
        lines_of(tsv_text(items)) == records_of(items),
    decreases items.len(),
{
    let ended = items.map_values(|item: ItemView| record_text(item).push('\r'));
    if items.len() == 0 {
        assert(split_on(tsv_text(items), '\n') =~= ended.push(Seq::empty()));
    } else {
        let front = items.drop_last();
        let front_ended = front.map_values(|item: ItemView| record_text(item).push('\r'));
        assert forall|i: int| 0 <= i < front.len() implies lacks(#[trigger] front[i], '\n') by {
            assert(front[i] == items[i]);
        }
        lemma_lines_of_tsv_text(front);
        lemma_record_stays_on_its_line(items.last());
        let record = record_text(items.last());
        let line = record.push('\r');
        assert forall|k: int| 0 <= k < line.len() implies line[k] != '\n' by {
            if k < record.len() {
                assert(record.contains(record[k]));
            }
        }
        assert(!line.contains('\n'));
        let head = tsv_text(front);
        lemma_split_extend(head, line, '\n');
        assert(Seq::<char>::empty() + line =~= line);
        assert(front_ended.push(Seq::empty()).drop_last() =~= front_ended);
        assert(front_ended.push(line) =~= ended);
        let whole = tsv_text(items);
        assert(whole =~= (head + line).push('\n'));
        assert(whole.drop_last() =~= head + line);
        assert(split_on(whole, '\n') == ended.push(Seq::empty()));
    }
    let pieces = ended.push(Seq::<char>::empty());
    assert(pieces.drop_last() =~= ended);
    assert forall|i: int| 0 <= i < items.len() implies without_cr(#[trigger] ended[i])
        == record_text(items[i]) by {
        assert(record_text(items[i]).push('\r').drop_last() =~= record_text(items[i]));
    }
    assert(ended.map_values(|piece: Seq<char>| without_cr(piece)) =~= records_of(items));
}

/// Reading the text of a collection gives the collection back, but for
/// the notes: as many items, in the same order, each with the same id,
/// name, quantity, priority and address; so a collection without notes
/// comes back as it was. This holds where each item has an id, no id,
/// name or address holds a tab or a line feed, and each address is read
/// as itself.
pub proof fn lemma_tsv_round_trip(items: Seq<ItemView>, read: Seq<ItemView>)
    requires
        forall|i: int| 0 <= i < items.len() ==> survives_tsv(#[trigger] items[i]),
        read.len() == lines_of(tsv_text(items)).len(),
        forall|i: int|
            0 <= i < read.len() ==> reads_as(lines_of(tsv_text(items))[i], #[trigger] read[i]),
    ensures
        first_error(lines_of(tsv_text(items))) is None,
        read == items.map_values(|item: ItemView| without_notes(item)),
        (forall|i: int| 0 <= i < items.len() ==> (#[trigger] items[i]).notes.len() == 0) ==> read
            == items,
{
    lemma_lines_of_tsv_text(items);
    lemma_none_refused(items);
    assert forall|i: int| 0 <= i < items.len() implies read[i] == without_notes(
        #[trigger] items[i],
    ) by {
        lemma_record_round_trip(items[i], read[i]);
    }
    if forall|i: int| 0 <= i < items.len() ==> (#[trigger] items[i]).notes.len() == 0 {
        assert forall|i: int| 0 <= i < items.len() implies read[i] == items[i] by {
            lemma_record_round_trip(items[i], read[i]);
        }
    }
}

/// No record of items whose id, name and address hold no tab is refused.
pub proof fn lemma_none_refused(items: Seq<ItemView>)
    requires
        forall|i: int| 0 <= i < items.len() ==> lacks(#[trigger] items[i], '\t'),
    ensures
        first_error(records_of(items)) is None,
    decreases items.len(),
{
    if items.len() > 0 {
        let front = items.drop_last();
        lemma_none_refused(front);
        assert(records_of(items).drop_last() =~= records_of(front));
        lemma_record_has_its_columns(items.last());
    }
}

} // verus!
