//! Wishlist items, the builder that makes them, and the tab-delimited
//! record of a single item.

use vstd::prelude::*;
use vstd::string::*;
use crate::decimal::{
    decimal_string, decimal_text, lemma_decimal_round_trip, lemma_decimal_text_lacks, parse_u32,
    u32_of,
};
use crate::identifier::{fresh_id, is_generated_id};
use crate::item_parsing_error::ItemParsingError;
use crate::link::{link_of, link_text, url_serialization, Link};
use crate::priority::{lemma_spelling_is_read, priority_of, Priority};
use crate::text::{fold_case, join_with, lemma_split_join, split, split_on};

verus! {

/// One entry of a wishlist.
#[derive(Clone, Debug, PartialEq, Eq)]
pub struct Item {
    pub id: String,
    pub name: String,
    pub quantity: u32,
    pub priority: Priority,
    pub url: Option<Link>,
    pub notes: Vec<String>,
}

/// What an item holds, as plain values.
pub struct ItemView {
    pub id: Seq<char>,
    pub name: Seq<char>,
    pub quantity: u32,
    pub priority: Priority,
    pub url: Option<Seq<char>>,
    pub notes: Seq<Seq<char>>,
}

/// The texts of a sequence of strings.
pub open spec fn texts(strings: Seq<String>) -> Seq<Seq<char>> {
    strings.map_values(|s: String| s@)
}

/// The text of a string that may be absent.
pub open spec fn optional_text(string: Option<String>) -> Option<Seq<char>> {
    match string {
        Some(s) => Some(s@),
        None => None,
    }
}

impl ItemView {
    /// What holds of every item that the library makes: it has an id.
    pub open spec fn wf(self) -> bool {
        self.id.len() > 0
    }
}

impl View for Item {
    type V = ItemView;

    /// The values of the item.
    open spec fn view(&self) -> ItemView {
        ItemView {
            id: self.id@,
            name: self.name@,
            quantity: self.quantity,
            priority: self.priority,
            url: link_text(self.url),
            notes: texts(self.notes@),
        }
    }
}

/// The values that a builder has been given so far.
pub struct Staged {
    pub id: Option<Seq<char>>,
    pub name: Option<Seq<char>>,
    pub quantity: Option<u32>,
    pub priority: Option<Priority>,
    pub url: Option<Seq<char>>,
    pub notes: Seq<Seq<char>>,
}

impl Staged {
    /// Nothing given yet.
    pub open spec fn empty() -> Staged {
        Staged {
            id: None,
            name: None,
            quantity: None,
            priority: None,
            url: None,
            notes: Seq::empty(),
        }
    }

    /// An empty id changes nothing; any other is taken as it is.
    pub open spec fn with_id(self, id: Seq<char>) -> Staged {
        if id.len() == 0 {
            self
        } else {
            Staged { id: Some(id), ..self }
        }
    }

    /// The name is replaced.
    pub open spec fn with_name(self, name: Seq<char>) -> Staged {
        Staged { name: Some(name), ..self }
    }

    /// The quantity is replaced.
    pub open spec fn with_quantity(self, quantity: u32) -> Staged {
        Staged { quantity: Some(quantity), ..self }
    }

    /// The level that `priority` spells, or none where it spells none.
    pub open spec fn with_priority(self, priority: Seq<char>) -> Staged {
        Staged { priority: priority_of(priority), ..self }
    }

    /// The address that `url` is taken for, or none.
    pub open spec fn with_url(self, url: Seq<char>) -> Staged {
        Staged { url: link_of(url), ..self }
    }

    /// The note goes behind the notes that are there.
    pub open spec fn with_note(self, note: Seq<char>) -> Staged {
        Staged { notes: self.notes.push(note), ..self }
    }

    /// Whether an id is staged that an item can take.
    pub open spec fn has_id(self) -> bool {
        self.id matches Some(id) && id.len() > 0
    }

    /// The item that these values make: the staged id, or `fresh` where
    /// none is staged; an empty name, one piece, medium priority, no
    /// address and no notes where the value is missing.
    pub open spec fn built(self, fresh: Seq<char>) -> ItemView {
        ItemView {
            id: if self.has_id() {
                self.id->0
            } else {
                fresh
            },
            name: match self.name {
                Some(name) => name,
                None => Seq::empty(),
            },
            quantity: match self.quantity {
                Some(quantity) => quantity,
                None => 1,
            },
            priority: match self.priority {
                Some(priority) => priority,
                None => Priority::Medium,
            },
            url: self.url,
            notes: self.notes,
        }
    }

    /// What a builder holds once it has been given all of these, in this
    /// order, and each of `notes` after that.
    pub open spec fn of_fields(
        id: Seq<char>,
        name: Seq<char>,
        quantity: u32,
        priority: Seq<char>,
        url: Seq<char>,
        notes: Seq<Seq<char>>,
    ) -> Staged {
        Staged {
            notes: notes,
            ..Staged::empty().with_id(id).with_name(name).with_quantity(quantity).with_priority(
                priority,
            ).with_url(url)
        }
    }
}

/// Collects the values of an item, each of them optional, and builds it.
pub struct ItemBuilder {
    pub id: Option<String>,
    pub name: Option<String>,
    pub quantity: Option<u32>,
    pub priority: Option<Priority>,
    pub url: Option<Link>,
    pub notes: Vec<String>,
}

impl View for ItemBuilder {
    type V = Staged;

    /// The values that are staged.
    open spec fn view(&self) -> Staged {
        Staged {
            id: optional_text(self.id),
            name: optional_text(self.name),
            quantity: self.quantity,
            priority: self.priority,
            url: link_text(self.url),
            notes: texts(self.notes@),
        }
    }
}

/// A copy of `strings`.
fn copy_of(strings: &Vec<String>) -> (copy: Vec<String>)
    ensures
        texts(copy@) == texts(strings@),
{
    let mut copy: Vec<String> = Vec::new();
    let mut i: usize = 0;
    while i < strings.len()
        invariant
            i <= strings@.len(),
            copy@.len() == i,
            forall|k: int| 0 <= k < i ==> copy@[k]@ == strings@[k]@,
        decreases strings@.len() - i,
    {
        copy.push(strings[i].clone());
        i = i + 1;
    }
    copy
}

impl ItemBuilder {
    /// A builder that has been given nothing.
    pub fn new() -> (builder: ItemBuilder)
        ensures
            builder@ == Staged::empty(),
    {
        let builder = ItemBuilder {
            id: None,
            name: None,
            quantity: None,
            priority: None,
            url: None,
            notes: Vec::new(),
        };
        assert(builder@.notes =~= Seq::empty());
        builder
    }

    /// Stages the id. An empty `id` leaves the builder as it is, so that
    /// the item gets a generated one unless an earlier call staged another.
    /// As with every setter, the reference that comes back is the builder
    /// itself, for the next call.
    pub fn set_id(&mut self, id: &str) -> (builder: &mut Self)
        ensures
            builder@ == old(self)@.with_id(id@),
            *final(self) == *final(builder),
    {
        if !id.is_empty() {
            self.id = Some(id.to_owned());
        }
        self
    }

    /// Stages the name.
    pub fn set_name(&mut self, name: &str) -> (builder: &mut Self)
        ensures
            builder@ == old(self)@.with_name(name@),
            *final(self) == *final(builder),
    {
        self.name = Some(name.to_owned());
        self
    }

    /// Stages the quantity.
    pub fn set_quantity(&mut self, quantity: u32) -> (builder: &mut Self)
        ensures
            builder@ == old(self)@.with_quantity(quantity),
            *final(self) == *final(builder),
    {
        self.quantity = Some(quantity);
        self
    }

    /// Stages the level that `priority` spells. A text that spells none
    /// is no failure: it leaves the priority unset, whatever was staged.
    pub fn set_priority(&mut self, priority: &str) -> (builder: &mut Self)
        ensures
            builder@ == old(self)@.with_priority(priority@),
            *final(self) == *final(builder),
    {
        self.priority = Priority::lookup(priority);
        self
    }

    /// Stages the address that `url` is read as. A text that is no valid
    /// address is no failure: it leaves the address unset, whatever was
    /// staged.
    pub fn set_url(&mut self, url: &str) -> (builder: &mut Self)
        ensures
            builder@ == old(self)@.with_url(url@),
            *final(self) == *final(builder),
    {
        self.url = Link::parse(url);
        self
    }

    /// Appends one note behind those staged already.
    pub fn add_note(&mut self, note: &str) -> (builder: &mut Self)
        ensures
            builder@ == old(self)@.with_note(note@),
            *final(self) == *final(builder),
    {
        self.notes.push(note.to_owned());
        assert(texts(self.notes@) =~= texts(old(self).notes@).push(note@));
        self
    }

    /// Builds the item from what is staged, with `fresh` for its id where
    /// none is staged. The builder stays as it is and can build again.
    pub fn build_with_id(&self, fresh: String) -> (item: Item)
        ensures
            item@ == self@.built(fresh@),
            fresh@.len() > 0 ==> item@.wf(),
    {
        Item {
            id: match &self.id {
                Some(id) => if id.as_str().is_empty() {
                    fresh
                } else {
                    id.clone()
                },
                None => fresh,
            },
            name: match &self.name {
                Some(name) => name.clone(),
                None => String::new(),
            },
            quantity: match self.quantity {
                Some(quantity) => quantity,
                None => 1,
            },
            priority: match self.priority {
                Some(priority) => priority,
                None => Priority::Medium,
            },
            url: match &self.url {
                Some(url) => Some(url.clone()),
                None => None,
            },
            notes: copy_of(&self.notes),
        }
    }

    /// Builds the item from what is staged. This always succeeds: a value
    /// that is missing takes its default, and an id that is missing is
    /// drawn at random at this call, not when the builder was made.
    pub fn build(&self) -> (item: Item)
        ensures
            item@ == self@.built(item@.id),
            !self@.has_id() ==> is_generated_id(item@.id),
            item@.wf(),
    {
        self.build_with_id(fresh_id())
    }
}

/// The end of a line, as the text forms write it.
pub open spec fn line_break() -> Seq<char> {
    seq!['\r', '\n']
}

/// The text that stands for the address of `item` in a record.
pub open spec fn address_column(item: ItemView) -> Seq<char> {
    match item.url {
        Some(url) => url,
        None => Seq::empty(),
    }
}

/// The five columns of an item's record: id, name, quantity in decimal,
/// the priority's spelling, and the address or an empty text.
pub open spec fn columns(item: ItemView) -> Seq<Seq<char>> {
    seq![
        item.id,
        item.name,
        decimal_text(item.quantity as nat),
        item.priority.spelling(),
        address_column(item),
    ]
}

/// The record of an item: its columns with a tab between neighbours.
pub open spec fn record_text(item: ItemView) -> Seq<char> {
    join_with(columns(item), '\t')
}

/// Each note followed by an empty line.
pub open spec fn note_blocks(notes: Seq<Seq<char>>) -> Seq<char>
    decreases notes.len(),
{
    if notes.len() == 0 {
        Seq::empty()
    } else {
        note_blocks(notes.drop_last()) + notes.last() + line_break() + line_break()
    }
}

/// The text that `Item::to_string` writes: the record, an empty line, a
/// line of five hyphens, and the notes.
pub open spec fn export_text(item: ItemView) -> Seq<char> {
    record_text(item) + line_break() + line_break() + seq!['-', '-', '-', '-', '-'] + line_break()
        + note_blocks(item.notes)
}

/// Why a record is refused: it has fewer or more than five fields. A
/// record of five fields is never refused.
pub open spec fn record_error(record: Seq<char>) -> Option<ItemParsingError> {
    let fields = split_on(record, '\t').len();
    if fields < 5 {
        Some(ItemParsingError::TooFewFields(fields as usize))
    } else if fields > 5 {
        Some(ItemParsingError::TooManyFields(fields as usize))
    } else {
        None
    }
}

/// What a record of five fields stages: id, name, the quantity or one
/// where the third field is no number, the priority, the address, and no
/// notes.
pub open spec fn staged_by(record: Seq<char>) -> Staged {
    let fields = split_on(record, '\t');
    Staged::of_fields(
        fields[0],
        fields[1],
        match u32_of(fields[2]) {
            Some(quantity) => quantity,
            None => 1,
        },
        fields[3],
        fields[4],
        Seq::empty(),
    )
}

/// Whether `item` is what `record` is read as: the record has five fields,
/// the item holds what they stage, with a generated id where the first
/// field is empty, and no notes.
pub open spec fn reads_as(record: Seq<char>, item: ItemView) -> bool {
    &&& record_error(record) is None
    &&& item == staged_by(record).built(item.id)
    &&& !staged_by(record).has_id() ==> is_generated_id(item.id)
    &&& item.wf()
}

/// Five texts joined by a separator, written out.
proof fn lemma_join_five(
    a: Seq<char>,
    b: Seq<char>,
    c: Seq<char>,
    d: Seq<char>,
    e: Seq<char>,
    sep: char,
)
    ensures
        join_with(seq![a, b, c, d, e], sep) == a + seq![sep] + b + seq![sep] + c + seq![sep] + d
            + seq![sep] + e,
{
    assert(seq![a, b, c, d, e].drop_last() =~= seq![a, b, c, d]);
    assert(seq![a, b, c, d].drop_last() =~= seq![a, b, c]);
    assert(seq![a, b, c].drop_last() =~= seq![a, b]);
    assert(seq![a, b].drop_last() =~= seq![a]);
    assert(join_with(seq![a], sep) == a);
    assert(join_with(seq![a, b], sep) == a + seq![sep] + b);
    assert(join_with(seq![a, b, c], sep) == a + seq![sep] + b + seq![sep] + c);
    assert(join_with(seq![a, b, c, d], sep) == a + seq![sep] + b + seq![sep] + c + seq![sep] + d);
}

/// Writes the record of `item` behind what `out` holds.
pub(crate) fn write_record(item: &Item, out: &mut String)
    ensures
        final(out)@ == old(out)@ + record_text(item@),
{
    proof {
        reveal_strlit("\t");
        reveal_strlit("");
        let view = item@;
        lemma_join_five(
            columns(view)[0],
            columns(view)[1],
            columns(view)[2],
            columns(view)[3],
            columns(view)[4],
            '\t',
        );
    }
    let quantity = decimal_string(item.quantity as u64);
    out.append(item.id.as_str());
    out.append("\t");
    out.append(item.name.as_str());
    out.append("\t");
    out.append(quantity.as_str());
    out.append("\t");
    out.append(item.priority.to_str());
    out.append("\t");
    match &item.url {
        Some(url) => out.append(url.as_str()),
        None => out.append(""),
    }
}

impl Item {
    /// A builder that has been given nothing.
    pub fn builder() -> (builder: ItemBuilder)
        ensures
            builder@ == Staged::empty(),
    {
        ItemBuilder::new()
    }

    /// The item that a builder makes of nothing: a generated id, an empty
    /// name, one piece, medium priority, no address and no notes.
    pub fn new() -> (item: Item)
        ensures
            is_generated_id(item@.id),
            item@ == Staged::empty().built(item@.id),
            item@.name.len() == 0,
            item@.quantity == 1,
            item@.priority == Priority::Medium,
            item@.url is None,
            item@.notes.len() == 0,
            item@.wf(),
    {
        Item::builder().build()
    }

    /// The item that a builder makes of these values: `id`, or a generated
    /// one where `id` is empty; `name` and `quantity` as they are; the
    /// level that `priority` spells, or medium; the address that `url` is
    /// read as, or none; and `notes` in their order.
    pub fn from(
        id: &str,
        name: &str,
        quantity: u32,
        priority: &str,
        url: &str,
        notes: Vec<String>,
    ) -> (item: Item)
        ensures
            item@ == Staged::of_fields(
                id@,
                name@,
                quantity,
                priority@,
                url@,
                texts(notes@),
            ).built(item@.id),
            id@.len() == 0 ==> is_generated_id(item@.id),
            item@.wf(),
    {
        let mut builder = Item::builder();
        builder.set_id(id).set_name(name).set_quantity(quantity).set_priority(priority).set_url(
            url,
        );
        let ghost staged = builder@;
        let mut i: usize = 0;
        assert(texts(notes@).take(0) =~= staged.notes);
        while i < notes.len()
            invariant
                i <= notes@.len(),
                builder@ == (Staged { notes: texts(notes@).take(i as int), ..staged }),
            decreases notes@.len() - i,
        {
            builder.add_note(notes[i].as_str());
            assert(texts(notes@).take(i as int).push(notes@[i as int]@) =~= texts(notes@).take(
                i + 1,
            ));
            i = i + 1;
        }
        assert(texts(notes@).take(i as int) =~= texts(notes@));
        builder.build()
    }

    /// Writes the item for a reader: its record, an empty line, a line of
    /// five hyphens, and each note followed by an empty line. Reading the
    /// record back does not bring the notes back.
    pub fn to_string(&self) -> (text: String)
        ensures
            text@ == export_text(self@),
    {
        proof {
            reveal_strlit("\r\n\r\n");
            reveal_strlit("-----\r\n");
        }
        let mut text = String::new();
        write_record(self, &mut text);
        text.append("\r\n\r\n");
        text.append("-----\r\n");
        let ghost head = text@;
        let mut i: usize = 0;
        while i < self.notes.len()
            invariant
                i <= self.notes@.len(),
                "\r\n\r\n"@ == line_break() + line_break(),
                text@ == head + note_blocks(texts(self.notes@).take(i as int)),
            decreases self.notes@.len() - i,
        {
            let ghost done = texts(self.notes@).take(i as int);
            let ghost next = texts(self.notes@).take(i + 1);
            assert(next.drop_last() =~= done);
            text.append(self.notes[i].as_str());
            text.append("\r\n\r\n");
            i = i + 1;
        }
        assert(texts(self.notes@).take(i as int) =~= texts(self.notes@));
        text
    }

    /// Reads an item from a record of exactly five fields with a tab
    /// between neighbours: id, name, quantity, priority, address. A record
    /// of any other number of fields is refused with that number. What a
    /// field holds is never refused: an empty id is replaced by a generated
    /// one, a quantity that is no number by one, a priority that spells no
    /// level by medium, and an address that is no valid URL is left out.
    /// The item has no notes.
    pub fn from_str(string: &str) -> (item: Result<Item, ItemParsingError>)
        ensures
            match item {
                Ok(item) => reads_as(string@, item@),
                Err(error) => record_error(string@) == Some(error),
            },
    {
        let fields = split(string, '\t');
        let found: usize = fields.len();
        if found < 5 {
            Err(ItemParsingError::TooFewFields(found))
        } else if found > 5 {
            Err(ItemParsingError::TooManyFields(found))
        } else {
            let quantity: u32 = match parse_u32(fields[2]) {
                Some(quantity) => quantity,
                None => 1,
            };
            let mut builder = Item::builder();
            builder.set_id(fields[0]).set_name(fields[1]).set_quantity(quantity).set_priority(
                fields[3],
            ).set_url(fields[4]);
            Ok(builder.build())
        }
    }
}

/// `item` with its notes left out.
pub open spec fn without_notes(item: ItemView) -> ItemView {
    ItemView { notes: Seq::empty(), ..item }
}

/// Whether neither the id, nor the name, nor the address of `item` holds
/// `c`.
pub open spec fn lacks(item: ItemView, c: char) -> bool {
    &&& !item.id.contains(c)
    &&& !item.name.contains(c)
    &&& !address_column(item).contains(c)
}

/// Whether the address of `item`, if it has one, is read as itself.
pub open spec fn address_is_stable(item: ItemView) -> bool {
    item.url matches Some(url) ==> link_of(url) == Some(url)
}

/// An empty id is as good as none: staging it changes nothing, so the
/// item gets the id it would have got without. Any other id is the id of
/// the item, as it was given.
pub proof fn lemma_empty_id_is_no_id(staged: Staged, id: Seq<char>, fresh: Seq<char>)
    ensures
        id.len() == 0 ==> staged.with_id(id) == staged,
        id.len() > 0 ==> staged.with_id(id).built(fresh).id == id,
        !Staged::empty().with_id(Seq::empty()).has_id(),
{
}

/// What a field of a record holds is never refused. An item that is read
/// from a record has the first field for its id, or a generated id where
/// that field is empty; the second field for its name; the number in the
/// third field for its quantity, or one where there is none; the level
/// that the fourth field spells, or medium where it spells none, as an
/// empty field does; and no address where the fifth field is empty or is
/// refused by the URL parser, else the address that the parser serialized.
pub proof fn lemma_fields_are_defaulted(record: Seq<char>, item: ItemView)
    requires
        reads_as(record, item),
    ensures
        split_on(record, '\t').len() == 5,
        split_on(record, '\t')[0].len() > 0 ==> item.id == split_on(record, '\t')[0],
        split_on(record, '\t')[0].len() == 0 ==> is_generated_id(item.id),
        item.name == split_on(record, '\t')[1],
        item.quantity == match u32_of(split_on(record, '\t')[2]) {
            Some(quantity) => quantity,
            None => 1,
        },
        item.priority == match priority_of(split_on(record, '\t')[3]) {
            Some(priority) => priority,
            None => Priority::Medium,
        },
        split_on(record, '\t')[3].len() == 0 ==> item.priority == Priority::Medium,
        item.url == link_of(split_on(record, '\t')[4]),
        split_on(record, '\t')[4].len() == 0 ==> item.url is None,
        url_serialization(split_on(record, '\t')[4]) is None ==> item.url is None,
        item.notes.len() == 0,
{
    let priority = split_on(record, '\t')[3];
    if priority.len() == 0 {
        assert(fold_case(priority).len() == 0);
        assert(Priority::Low.spelling().len() == 3);
        assert(Priority::Medium.spelling().len() == 6);
        assert(Priority::High.spelling().len() == 4);
        assert(Priority::Highest.spelling().len() == 7);
    }
}

/// A record made of five fields that hold no tab is read as the item that
/// `Item::from` makes of the fields and no notes, with the number in the
/// third field, or one, for the quantity.
pub proof fn lemma_record_is_its_fields(
    id: Seq<char>,
    name: Seq<char>,
    quantity: Seq<char>,
    priority: Seq<char>,
    url: Seq<char>,
)
    requires
        !id.contains('\t'),
        !name.contains('\t'),
        !quantity.contains('\t'),
        !priority.contains('\t'),
        !url.contains('\t'),
    ensures
        split_on(join_with(seq![id, name, quantity, priority, url], '\t'), '\t') == seq![
            id,
            name,
            quantity,
            priority,
            url,
        ],
        record_error(join_with(seq![id, name, quantity, priority, url], '\t')) is None,
        staged_by(join_with(seq![id, name, quantity, priority, url], '\t')) == Staged::of_fields(
            id,
            name,
            match u32_of(quantity) {
                Some(quantity) => quantity,
                None => 1,
            },
            priority,
            url,
            Seq::empty(),
        ),
{
    let fields = seq![id, name, quantity, priority, url];
    lemma_split_join(fields, '\t');
}

/// No spelling of a level holds a character that is not a lower-case
/// letter.
pub proof fn lemma_spelling_lacks(level: Priority, c: char)
    requires
        !('a' <= c <= 'z'),
    ensures
        !level.spelling().contains(c),
{
}

/// The record of an item whose id, name and address hold no tab has the
/// columns of the item as its fields, so it is never refused.
pub proof fn lemma_record_has_its_columns(item: ItemView)
    requires
        lacks(item, '\t'),
    ensures
        split_on(record_text(item), '\t') == columns(item),
        record_error(record_text(item)) is None,
{
    let parts = columns(item);
    lemma_decimal_text_lacks(item.quantity as nat, '\t');
    lemma_spelling_lacks(item.priority, '\t');
    lemma_split_join(parts, '\t');
}

/// Reading the record of an item gives the item back, but for its notes:
/// the same id, name, quantity, priority and address. This holds of an
/// item that has an id, whose id, name and address hold no tab, and whose
/// address is read as itself.
pub proof fn lemma_record_round_trip(item: ItemView, read: ItemView)
    requires
        item.wf(),
        lacks(item, '\t'),
        address_is_stable(item),
        reads_as(record_text(item), read),
    ensures
        read == without_notes(item),
        item.notes.len() == 0 ==> read == item,
{
    lemma_record_has_its_columns(item);
    lemma_decimal_round_trip(item.quantity as nat);
    lemma_spelling_is_read(item.priority);
    assert(item.notes.len() == 0 ==> item.notes =~= Seq::<Seq<char>>::empty());
}

/// Building an item anew from the values of an item gives the same item:
/// the same id, name, quantity, priority, address and notes in the same
/// order. This holds of an item that has an id and whose address is read
/// as itself, whatever id would have been generated.
pub proof fn lemma_rebuilt_from_its_values(item: ItemView, fresh: Seq<char>)
    requires
        item.wf(),
        address_is_stable(item),
    ensures
        Staged::of_fields(
            item.id,
            item.name,
            item.quantity,
            item.priority.spelling(),
            address_column(item),
            item.notes,
        ).built(fresh) == item,
{
    lemma_spelling_is_read(item.priority);
}

} // verus!
