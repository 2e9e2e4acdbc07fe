//! What holds of every manifest.
//!
//! A manifest is well formed when it is made of blocks, one for each entity,
//! with anything that does not concern the reader around and inside them,
//! and when it closes every element that it opens. Its configuration holds
//! the entities of its blocks, in the order of the document, with the
//! identifiers and texts that the blocks state. A document that cannot be
//! read to its end, that ends while an element is open, or that states a
//! reference that is no number, has no configuration at all.

use vstd::prelude::*;

use crate::text::decimal_u16;
use crate::xml::reading::{ReadingView, XmlAttributeView};
use crate::xml::{
    element_id, entity_of, field_of, id_or_sentinel, lemma_tag_kinds, manifest_of, AccountView,
    Entity, Field, ManifestDraftView, MetaPropertyView, ParseError, XmlConfigView,
};

verus! {

/// A reading that concerns no entity and no field: anything that is no tag,
/// and a tag that stands neither for an entity nor for a field.
pub open spec fn is_aside(reading: ReadingView) -> bool {
    match reading {
        ReadingView::Other => true,
        ReadingView::Open { name, .. } => entity_of(name) is None && field_of(name) is None,
        ReadingView::Close { name } => entity_of(name) is None,
        _ => false,
    }
}

/// By how many a reading changes the number of open elements. The element
/// of a field is closed with its text and changes nothing.
pub open spec fn rise(reading: ReadingView) -> int {
    match reading {
        ReadingView::Open { name, .. } => if field_of(name) is None {
            1
        } else {
            0
        },
        ReadingView::Close { .. } => -1,
        _ => 0,
    }
}

/// What stands inside the block of an entity.
pub enum Piece {
    /// A field and the text between its tags.
    Field { field: Field, text: Seq<char> },
    /// Something that does not concern the reader.
    Aside { reading: ReadingView },
}

/// What a manifest is made of.
pub enum Part {
    /// The block of an entity: its opening tag, what stands inside, its
    /// closing tag.
    Block { entity: Entity, attributes: Seq<Option<XmlAttributeView>>, pieces: Seq<Piece> },
    /// A field or an aside that stands outside every block.
    Loose { piece: Piece },
}

impl Piece {
    /// What is read of the piece: the opening tag of a field and its text,
    /// or the aside.
    pub open spec fn readings(self) -> Seq<ReadingView> {
        match self {
            Piece::Field { field, text } => seq![
                ReadingView::Open { name: field.tag_view(), attributes: Seq::empty() },
                ReadingView::Text { content: text },
            ],
            Piece::Aside { reading } => seq![reading],
        }
    }

    /// A reference is written as a number, and an aside is one.
    pub open spec fn well_formed(self) -> bool {
        match self {
            Piece::Field { field, text } => (field == Field::ClientId || field
                == Field::CategoryId) ==> decimal_u16(text) is Some,
            Piece::Aside { reading } => is_aside(reading),
        }
    }

    /// By how many the piece changes the number of open elements.
    pub open spec fn rise(self) -> int {
        match self {
            Piece::Field { .. } => 0,
            Piece::Aside { reading } => rise(reading),
        }
    }
}

/// The readings of the pieces of a block, in order.
pub open spec fn pieces_readings(pieces: Seq<Piece>) -> Seq<ReadingView>
    decreases pieces.len(),
{
    if pieces.len() == 0 {
        Seq::empty()
    } else {
        pieces_readings(pieces.drop_last()) + pieces.last().readings()
    }
}

/// How many more elements the pieces open than they close.
pub open spec fn pieces_level(pieces: Seq<Piece>) -> int
    decreases pieces.len(),
{
    if pieces.len() == 0 {
        0
    } else {
        pieces_level(pieces.drop_last()) + pieces.last().rise()
    }
}

/// No beginning of the pieces closes more elements than it opens.
pub open spec fn pieces_nested(pieces: Seq<Piece>) -> bool
    decreases pieces.len(),
{
    pieces.len() == 0 || (pieces_nested(pieces.drop_last()) && pieces_level(pieces) >= 0)
}

/// The text of the last piece that is the given field.
pub open spec fn last_text(pieces: Seq<Piece>, field: Field) -> Option<Seq<char>>
    decreases pieces.len(),
{
    if pieces.len() == 0 {
        None
    } else {
        match pieces.last() {
            Piece::Field { field: f, text } if f == field => Some(text),
            _ => last_text(pieces.drop_last(), field),
        }
    }
}

impl Part {
    /// What is read of the part: the opening tag of a block, its pieces and
    /// its closing tag, or the loose piece.
    pub open spec fn readings(self) -> Seq<ReadingView> {
        match self {
            Part::Block { entity, attributes, pieces } => seq![
                ReadingView::Open { name: entity.tag_view(), attributes },
            ] + pieces_readings(pieces) + seq![ReadingView::Close { name: entity.tag_view() }],
            Part::Loose { piece } => piece.readings(),
        }
    }

    /// A block states a name, and the block of an account also a login, a
    /// client and a category; its identifier, if it has one, and its
    /// references are numbers; and what stands inside it closes every
    /// element that it opens, and no other.
    pub open spec fn well_formed(self) -> bool {
        match self {
            Part::Block { entity, attributes, pieces } => {
                &&& element_id(attributes) is Ok
                &&& last_text(pieces, Field::Name) is Some
                &&& entity == Entity::Account ==> {
                    &&& last_text(pieces, Field::Login) is Some
                    &&& last_text(pieces, Field::ClientId) is Some
                    &&& last_text(pieces, Field::CategoryId) is Some
                }
                &&& forall|i: int| 0 <= i < pieces.len() ==> (#[trigger] pieces[i]).well_formed()
                &&& pieces_nested(pieces)
                &&& pieces_level(pieces) == 0
            },
            Part::Loose { piece } => piece.well_formed(),
        }
    }

    /// By how many the part changes the number of open elements: a block by
    /// none.
    pub open spec fn rise(self) -> int {
        match self {
            Part::Block { .. } => 0,
            Part::Loose { piece } => piece.rise(),
        }
    }

    /// The category or client that a block declares: the identifier of its
    /// opening tag and the text of its name.
    pub open spec fn entity(self) -> MetaPropertyView
        recommends
            self is Block,
    {
        MetaPropertyView {
            id: id_or_sentinel(element_id(self->attributes)->Ok_0),
            name: last_text(self->pieces, Field::Name)->0,
        }
    }

    /// The account that a block declares: the identifier of its opening tag,
    /// the texts of its name and login, and the numbers of its references.
    pub open spec fn account(self) -> AccountView
        recommends
            self is Block,
    {
        AccountView {
            id: id_or_sentinel(element_id(self->attributes)->Ok_0),
            name: last_text(self->pieces, Field::Name)->0,
            client_id: decimal_u16(last_text(self->pieces, Field::ClientId)->0)->0,
            category_id: decimal_u16(last_text(self->pieces, Field::CategoryId)->0)->0,
            login: last_text(self->pieces, Field::Login)->0,
        }
    }

    /// The configuration with what the part declares added to it.
    pub open spec fn declare(self, config: XmlConfigView) -> XmlConfigView {
        match self {
            Part::Block { entity: Entity::Category, .. } => XmlConfigView {
                categories: config.categories.push(self.entity()),
                ..config
            },
            Part::Block { entity: Entity::Client, .. } => XmlConfigView {
                clients: config.clients.push(self.entity()),
                ..config
            },
            Part::Block { entity: Entity::Account, .. } => XmlConfigView {
                accounts: config.accounts.push(self.account()),
                ..config
            },
            Part::Loose { .. } => config,
        }
    }
}

/// The readings of the parts of a manifest, in order.
pub open spec fn parts_readings(parts: Seq<Part>) -> Seq<ReadingView>
    decreases parts.len(),
{
    if parts.len() == 0 {
        Seq::empty()
    } else {
        parts_readings(parts.drop_last()) + parts.last().readings()
    }
}

/// How many more elements the parts open than they close.
pub open spec fn parts_level(parts: Seq<Part>) -> int
    decreases parts.len(),
{
    if parts.len() == 0 {
        0
    } else {
        parts_level(parts.drop_last()) + parts.last().rise()
    }
}

/// No beginning of the parts closes more elements than it opens.
pub open spec fn parts_nested(parts: Seq<Part>) -> bool
    decreases parts.len(),
{
    parts.len() == 0 || (parts_nested(parts.drop_last()) && parts_level(parts) >= 0)
}

/// What the parts of a manifest declare, in order.
pub open spec fn declared(parts: Seq<Part>) -> XmlConfigView
    decreases parts.len(),
{
    if parts.len() == 0 {
        XmlConfigView::empty()
    } else {
        parts.last().declare(declared(parts.drop_last()))
    }
}

/// Every part is well formed, no beginning of the parts closes more elements
/// than it opens, and the readings are no more than can be counted.
pub open spec fn well_formed(parts: Seq<Part>) -> bool {
    &&& forall|i: int| 0 <= i < parts.len() ==> (#[trigger] parts[i]).well_formed()
    &&& parts_nested(parts)
    &&& parts_readings(parts).len() <= usize::MAX
}

/// The draft after all of the readings, none of which ends the document.
pub open spec fn run(draft: ManifestDraftView, readings: Seq<ReadingView>) -> Result<
    ManifestDraftView,
    ParseError,
>
    decreases readings.len(),
{
    if readings.len() == 0 {
        Ok(draft)
    } else {
        match draft.step(readings[0]) {
            Ok(next) => run(next, readings.drop_first()),
            Err(e) => Err(e),
        }
    }
}

/// None of the readings ends the document.
pub open spec fn no_eof(readings: Seq<ReadingView>) -> bool {
    forall|i: int| 0 <= i < readings.len() ==> !(#[trigger] readings[i] is Eof)
}

/// Readings that follow one another are taken one after the other.
pub proof fn lemma_run_concat(
    draft: ManifestDraftView,
    first: Seq<ReadingView>,
    second: Seq<ReadingView>,
)
    ensures
        run(draft, first + second) == match run(draft, first) {
            Ok(next) => run(next, second),
            Err(e) => Err(e),
        },
    decreases first.len(),
{
    if first.len() == 0 {
        assert(first + second =~= second);
    } else {
        assert((first + second)[0] == first[0]);
        assert((first + second).drop_first() =~= first.drop_first() + second);
        match draft.step(first[0]) {
            Ok(next) => lemma_run_concat(next, first.drop_first(), second),
            Err(_) => {},
        }
    }
}

/// Readings that do not end the document lead the scan to where they lead
/// the draft.
pub proof fn lemma_scan_after_run(
    draft: ManifestDraftView,
    first: Seq<ReadingView>,
    rest: Seq<ReadingView>,
)
    requires
        no_eof(first),
    ensures
        draft.scan(first + rest) == match run(draft, first) {
            Ok(next) => next.scan(rest),
            Err(e) => Err(e),
        },
    decreases first.len(),
{
    if first.len() == 0 {
        assert(first + rest =~= rest);
    } else {
        assert((first + rest)[0] == first[0]);
        assert(!(first[0] is Eof));
        assert((first + rest).drop_first() =~= first.drop_first() + rest);
        match draft.step(first[0]) {
            Ok(next) => {
                assert(no_eof(first.drop_first())) by {
                    assert forall|i: int| 0 <= i < first.drop_first().len() implies !(
                    #[trigger] first.drop_first()[i] is Eof) by {
                        assert(first.drop_first()[i] == first[i + 1]);
                    }
                }
                lemma_scan_after_run(next, first.drop_first(), rest);
            },
            Err(_) => {},
        }
    }
}

/// A document with a reading that could not be taken, before its end, has no
/// configuration.
pub proof fn lemma_malformed_fails(draft: ManifestDraftView, readings: Seq<ReadingView>, k: int)
    requires
        0 <= k < readings.len(),
        readings[k] is Malformed,
        forall|j: int| 0 <= j < k ==> !(#[trigger] readings[j] is Eof),
    ensures
        draft.scan(readings) is Err,
    decreases k,
{
    if k > 0 {
        match draft.step(readings[0]) {
            Ok(next) => {
                assert(!(readings[0] is Eof));
                assert forall|j: int| 0 <= j < k - 1 implies !(
                #[trigger] readings.drop_first()[j] is Eof) by {
                    assert(readings.drop_first()[j] == readings[j + 1]);
                }
                lemma_malformed_fails(next, readings.drop_first(), k - 1);
            },
            Err(_) => {},
        }
    }
}

/// A document with a `clientId` or a `categoryId` whose text is no number,
/// before its end, has no configuration.
pub proof fn lemma_bad_reference_fails(
    draft: ManifestDraftView,
    readings: Seq<ReadingView>,
    k: int,
)
    requires
        0 <= k < readings.len() - 1,
        readings[k] matches ReadingView::Open { name, .. } && (name == "clientId"@ || name
            == "categoryId"@),
        readings[k + 1] matches ReadingView::Text { content } && decimal_u16(content) is None,
        forall|j: int| 0 <= j <= k ==> !(#[trigger] readings[j] is Eof),
    ensures
        draft.scan(readings) is Err,
    decreases k,
{
    let rest = readings.drop_first();
    match draft.step(readings[0]) {
        Ok(next) => {
            assert(!(readings[0] is Eof));
            if k == 0 {
                lemma_tag_kinds(readings[0]->Open_name);
                assert(field_of(Field::ClientId.tag_view()) == Some(Field::ClientId));
                assert(field_of(Field::CategoryId.tag_view()) == Some(Field::CategoryId));
                assert(rest[0] == readings[1]);
                assert(next.step(rest[0]) is Err);
                assert(next.scan(rest) is Err);
            } else {
                assert(rest[k - 1] == readings[k]);
                assert(rest[k] == readings[k + 1]);
                assert forall|j: int| 0 <= j <= k - 1 implies !(#[trigger] rest[j] is Eof) by {
                    assert(rest[j] == readings[j + 1]);
                }
                lemma_bad_reference_fails(next, rest, k - 1);
            }
        },
        Err(_) => {},
    }
}

/// The draft with what the pieces of a block state.
pub open spec fn filled(draft: ManifestDraftView, pieces: Seq<Piece>) -> ManifestDraftView {
    ManifestDraftView {
        current_name: match last_text(pieces, Field::Name) {
            Some(text) => text,
            None => draft.current_name,
        },
        current_login: match last_text(pieces, Field::Login) {
            Some(text) => text,
            None => draft.current_login,
        },
        current_client_id: match last_text(pieces, Field::ClientId) {
            Some(text) => decimal_u16(text),
            None => draft.current_client_id,
        },
        current_category_id: match last_text(pieces, Field::CategoryId) {
            Some(text) => decimal_u16(text),
            None => draft.current_category_id,
        },
        awaited: None,
        open_elements: (draft.open_elements + pieces_level(pieces)) as usize,
        ..draft
    }
}

/// Pieces open no more elements than they have readings.
pub proof fn lemma_pieces_level_bound(pieces: Seq<Piece>)
    ensures
        pieces_level(pieces) <= pieces_readings(pieces).len(),
    decreases pieces.len(),
{
    if pieces.len() > 0 {
        lemma_pieces_level_bound(pieces.drop_last());
    }
}

/// Parts open no more elements than they have readings.
pub proof fn lemma_parts_level_bound(parts: Seq<Part>)
    ensures
        parts_level(parts) <= parts_readings(parts).len(),
    decreases parts.len(),
{
    if parts.len() > 0 {
        lemma_parts_level_bound(parts.drop_last());
    }
}

/// The pieces of a block leave in the draft what they state, each field with
/// the text of its last piece, and as many elements open as they leave open.
pub proof fn lemma_pieces_fill(draft: ManifestDraftView, pieces: Seq<Piece>)
    requires
        draft.awaited is None,
        forall|i: int| 0 <= i < pieces.len() ==> (#[trigger] pieces[i]).well_formed(),
        pieces_nested(pieces),
        draft.open_elements + pieces_readings(pieces).len() <= usize::MAX,
    ensures
        run(draft, pieces_readings(pieces)) == Ok::<ManifestDraftView, ParseError>(
            filled(draft, pieces),
        ),
    decreases pieces.len(),
{
    if pieces.len() == 0 {
        assert(filled(draft, pieces) == draft);
    } else {
        let before = pieces.drop_last();
        let last = pieces.last();
        assert forall|i: int| 0 <= i < before.len() implies (#[trigger] before[i]).well_formed() by {
            assert(before[i] == pieces[i]);
        }
        lemma_pieces_fill(draft, before);
        lemma_pieces_level_bound(before);
        lemma_run_concat(draft, pieces_readings(before), last.readings());
        let middle = filled(draft, before);
        assert(last.well_formed());
        assert(pieces_nested(before));
        if before.len() > 0 {
            assert(pieces_level(before) >= 0);
        }
        match last {
            Piece::Field { field, text } => {
                lemma_tag_kinds(field.tag_view());
                let opened = ManifestDraftView { awaited: Some(field), ..middle };
                let readings = last.readings();
                assert(readings[0] == (ReadingView::Open {
                    name: field.tag_view(),
                    attributes: Seq::empty(),
                }));
                assert(middle.step(readings[0]) == Ok::<ManifestDraftView, ParseError>(opened));
                assert(readings.drop_first() =~= seq![ReadingView::Text { content: text }]);
                assert(readings.drop_first()[0] == (ReadingView::Text { content: text }));
                assert(readings.drop_first().drop_first() =~= Seq::<ReadingView>::empty());
                assert(opened.step(ReadingView::Text { content: text }) == Ok::<
                    ManifestDraftView,
                    ParseError,
                >(filled(draft, pieces)));
                assert(run(opened, readings.drop_first()) == Ok::<ManifestDraftView, ParseError>(
                    filled(draft, pieces),
                )) by {
                    reveal_with_fuel(run, 2);
                }
            },
            Piece::Aside { reading } => {
                let readings = last.readings();
                assert(readings[0] == reading);
                assert(readings.drop_first() =~= Seq::<ReadingView>::empty());
                assert(middle.step(reading) == Ok::<ManifestDraftView, ParseError>(
                    filled(draft, pieces),
                ));
                assert(run(middle, readings) == Ok::<ManifestDraftView, ParseError>(
                    filled(draft, pieces),
                )) by {
                    reveal_with_fuel(run, 2);
                }
            },
        }
    }
}

/// The reference that well-formed pieces state is a number.
proof fn lemma_reference_is_number(pieces: Seq<Piece>, field: Field)
    requires
        forall|i: int| 0 <= i < pieces.len() ==> (#[trigger] pieces[i]).well_formed(),
        field == Field::ClientId || field == Field::CategoryId,
    ensures
        last_text(pieces, field) matches Some(text) ==> decimal_u16(text) is Some,
    decreases pieces.len(),
{
    if pieces.len() > 0 {
        let before = pieces.drop_last();
        assert forall|i: int| 0 <= i < before.len() implies (#[trigger] before[i]).well_formed() by {
            assert(before[i] == pieces[i]);
        }
        lemma_reference_is_number(before, field);
        assert(pieces.last().well_formed());
    }
}

/// A well-formed part adds to the configuration what it declares, changes
/// the number of open elements by its rise, and awaits no text.
pub proof fn lemma_part_declares(draft: ManifestDraftView, part: Part)
    requires
        draft.awaited is None,
        part.well_formed(),
        draft.open_elements + part.rise() >= 0,
        draft.open_elements + part.readings().len() <= usize::MAX,
    ensures
        run(draft, part.readings()) matches Ok(next) && next.awaited is None
            && next.open_elements == draft.open_elements + part.rise() && next.config
            == part.declare(draft.config),
{
    match part {
        Part::Block { entity, attributes, pieces } => {
            lemma_tag_kinds(entity.tag_view());
            let open = ReadingView::Open { name: entity.tag_view(), attributes };
            let close = ReadingView::Close { name: entity.tag_view() };
            let inside = pieces_readings(pieces);
            assert(part.readings().len() == inside.len() + 2);
            let opened = draft.open_element(entity.tag_view(), attributes)->Ok_0;
            assert(draft.step(open) == Ok::<ManifestDraftView, ParseError>(opened));
            lemma_pieces_fill(opened, pieces);
            let full = filled(opened, pieces);
            let closed = full.close_element(entity.tag_view())->Ok_0;
            assert(full.step(close) == Ok::<ManifestDraftView, ParseError>(closed));
            lemma_reference_is_number(pieces, Field::ClientId);
            lemma_reference_is_number(pieces, Field::CategoryId);
            assert(closed.config == part.declare(draft.config));
            assert(run(full, seq![close]) == Ok::<ManifestDraftView, ParseError>(closed)) by {
                assert(seq![close][0] == close);
                assert(seq![close].drop_first() =~= Seq::<ReadingView>::empty());
                reveal_with_fuel(run, 2);
            }
            assert(run(draft, seq![open]) == Ok::<ManifestDraftView, ParseError>(opened)) by {
                assert(seq![open][0] == open);
                assert(seq![open].drop_first() =~= Seq::<ReadingView>::empty());
                reveal_with_fuel(run, 2);
            }
            lemma_run_concat(draft, seq![open], inside);
            lemma_run_concat(draft, seq![open] + inside, seq![close]);
        },
        Part::Loose { piece: Piece::Field { field, text } } => {
            let pieces = seq![Piece::Field { field, text }];
            assert(pieces.drop_last() =~= Seq::<Piece>::empty());
            assert(pieces_readings(pieces) =~= part.readings()) by {
                reveal_with_fuel(pieces_readings, 2);
            }
            assert(pieces_level(pieces) == 0 && pieces_nested(pieces)) by {
                reveal_with_fuel(pieces_level, 2);
                reveal_with_fuel(pieces_nested, 2);
            }
            lemma_pieces_fill(draft, pieces);
        },
        Part::Loose { piece: Piece::Aside { reading } } => {
            assert(part.readings()[0] == reading);
            assert(part.readings().drop_first() =~= Seq::<ReadingView>::empty());
            assert(draft.step(reading) is Ok);
            assert(run(draft, part.readings()) == draft.step(reading)) by {
                reveal_with_fuel(run, 2);
            }
        },
    }
}

/// No reading of the parts of a well-formed manifest ends the document.
pub proof fn lemma_parts_have_no_eof(parts: Seq<Part>)
    requires
        forall|i: int| 0 <= i < parts.len() ==> (#[trigger] parts[i]).well_formed(),
    ensures
        no_eof(parts_readings(parts)),
    decreases parts.len(),
{
    if parts.len() > 0 {
        let before = parts.drop_last();
        assert forall|i: int| 0 <= i < before.len() implies (#[trigger] before[i]).well_formed() by {
            assert(before[i] == parts[i]);
        }
        lemma_parts_have_no_eof(before);
        let last = parts.last();
        assert(last.well_formed());
        match last {
            Part::Block { entity, attributes, pieces } => {
                lemma_pieces_have_no_eof(pieces);
            },
            Part::Loose { piece } => {},
        }
    }
}

proof fn lemma_pieces_have_no_eof(pieces: Seq<Piece>)
    requires
        forall|i: int| 0 <= i < pieces.len() ==> (#[trigger] pieces[i]).well_formed(),
    ensures
        no_eof(pieces_readings(pieces)),
    decreases pieces.len(),
{
    if pieces.len() > 0 {
        let before = pieces.drop_last();
        assert forall|i: int| 0 <= i < before.len() implies (#[trigger] before[i]).well_formed() by {
            assert(before[i] == pieces[i]);
        }
        lemma_pieces_have_no_eof(before);
        assert(pieces.last().well_formed());
    }
}

/// The parts of a well-formed manifest lead the draft to what they declare,
/// with as many elements open as they leave open.
pub proof fn lemma_parts_declare(parts: Seq<Part>)
    requires
        well_formed(parts),
    ensures
        run(ManifestDraftView::empty(), parts_readings(parts)) matches Ok(draft) && draft.awaited
            is None && draft.open_elements == parts_level(parts) && draft.config == declared(
            parts,
        ),
    decreases parts.len(),
{
    if parts.len() > 0 {
        let before = parts.drop_last();
        assert forall|i: int| 0 <= i < before.len() implies (#[trigger] before[i]).well_formed() by {
            assert(before[i] == parts[i]);
        }
        lemma_parts_declare(before);
        lemma_parts_level_bound(before);
        let draft = run(ManifestDraftView::empty(), parts_readings(before))->Ok_0;
        assert(parts.last().well_formed());
        lemma_part_declares(draft, parts.last());
        lemma_run_concat(ManifestDraftView::empty(), parts_readings(before), parts.last().readings());
    }
}

/// The configuration of a well-formed manifest that closes every element
/// that it opens holds what its parts declare: one entity for each block, in
/// the order of the document, with the identifier of its opening tag and the
/// texts of its fields. A manifest that ends while an element is open has no
/// configuration.
pub proof fn lemma_manifest_round_trip(parts: Seq<Part>)
    requires
        well_formed(parts),
    ensures
        manifest_of(parts_readings(parts) + seq![ReadingView::Eof]) == manifest_of(
            parts_readings(parts),
        ),
        parts_level(parts) == 0 ==> manifest_of(parts_readings(parts)) == Ok::<
            XmlConfigView,
            ParseError,
        >(declared(parts)),
        parts_level(parts) != 0 ==> manifest_of(parts_readings(parts)) == Err::<
            XmlConfigView,
            ParseError,
        >(ParseError::SyntaxError),
{
    lemma_parts_declare(parts);
    lemma_parts_have_no_eof(parts);
    lemma_scan_after_run(ManifestDraftView::empty(), parts_readings(parts), seq![ReadingView::Eof]);
    assert(seq![ReadingView::Eof][0] is Eof);
    lemma_scan_after_run(ManifestDraftView::empty(), parts_readings(parts), Seq::empty());
    assert(parts_readings(parts) + Seq::<ReadingView>::empty() =~= parts_readings(parts));
}

/// How many of the parts are blocks of the entity.
pub open spec fn blocks_of(parts: Seq<Part>, entity: Entity) -> nat
    decreases parts.len(),
{
    if parts.len() == 0 {
        0
    } else {
        blocks_of(parts.drop_last(), entity) + if parts.last() matches Part::Block {
            entity: e,
            ..
        } && e == entity {
            1nat
        } else {
            0nat
        }
    }
}

/// A manifest declares as many categories, clients and accounts as it has
/// blocks of each.
pub proof fn lemma_declared_counts(parts: Seq<Part>)
    ensures
        declared(parts).categories.len() == blocks_of(parts, Entity::Category),
        declared(parts).clients.len() == blocks_of(parts, Entity::Client),
        declared(parts).accounts.len() == blocks_of(parts, Entity::Account),
    decreases parts.len(),
{
    if parts.len() > 0 {
        lemma_declared_counts(parts.drop_last());
    }
}

/// A document that ends while an element is open has no configuration,
/// whatever it declared before.
pub proof fn lemma_unclosed_fails(draft: ManifestDraftView, readings: Seq<ReadingView>)
    requires
        no_eof(readings),
        run(draft, readings) matches Ok(last) && last.open_elements > 0,
    ensures
        draft.scan(readings) is Err,
        draft.scan(readings + seq![ReadingView::Eof]) is Err,
{
    lemma_scan_after_run(draft, readings, seq![ReadingView::Eof]);
    assert(seq![ReadingView::Eof][0] is Eof);
    lemma_scan_after_run(draft, readings, Seq::empty());
    assert(readings + Seq::<ReadingView>::empty() =~= readings);
}

/// How many of the readings, up to the end of the document, close an element
/// of the entity.
pub open spec fn closes_of(readings: Seq<ReadingView>, entity: Entity) -> nat
    decreases readings.len(),
{
    if readings.len() == 0 || readings[0] is Eof {
        0
    } else {
        closes_of(readings.drop_first(), entity) + if readings[0] matches ReadingView::Close {
            name,
        } && entity_of(name) == Some(entity) {
            1nat
        } else {
            0nat
        }
    }
}

/// Whatever the document, its configuration holds one category, client or
/// account for each closing tag of that entity, after those that the draft
/// held before, which stay first and in their order.
pub proof fn lemma_one_entity_for_each_close(
    draft: ManifestDraftView,
    readings: Seq<ReadingView>,
)
    requires
        draft.scan(readings) is Ok,
    ensures
        ({
            let config = draft.scan(readings)->Ok_0;
            &&& config.categories.len() == draft.config.categories.len() + closes_of(
                readings,
                Entity::Category,
            )
            &&& config.clients.len() == draft.config.clients.len() + closes_of(
                readings,
                Entity::Client,
            )
            &&& config.accounts.len() == draft.config.accounts.len() + closes_of(
                readings,
                Entity::Account,
            )
            &&& draft.config.categories.is_prefix_of(config.categories)
            &&& draft.config.clients.is_prefix_of(config.clients)
            &&& draft.config.accounts.is_prefix_of(config.accounts)
        }),
    decreases readings.len(),
{
    if readings.len() == 0 || readings[0] is Eof {
    } else {
        let next = draft.step(readings[0])->Ok_0;
        lemma_one_entity_for_each_close(next, readings.drop_first());
        let config = draft.scan(readings)->Ok_0;
        assert(draft.config.categories.is_prefix_of(next.config.categories));
        assert(draft.config.clients.is_prefix_of(next.config.clients));
        assert(draft.config.accounts.is_prefix_of(next.config.accounts));
    }
}

/// The place where the document ends: that of its first `Eof`, or the end
/// of the readings.
pub open spec fn end_of(readings: Seq<ReadingView>) -> int
    decreases readings.len(),
{
    if readings.len() == 0 || readings[0] is Eof {
        0
    } else {
        1 + end_of(readings.drop_first())
    }
}

/// How many elements the readings before place `k` leave open.
pub open spec fn level_at(readings: Seq<ReadingView>, k: int) -> int
    decreases k,
{
    if k <= 0 {
        0
    } else {
        level_at(readings, k - 1) + rise(readings[k - 1])
    }
}

/// The field whose text a reading at place `k` is: the one whose tag opens
/// just before it.
pub open spec fn field_at(readings: Seq<ReadingView>, k: int) -> Option<Field> {
    if k > 0 && readings[k - 1] is Open {
        field_of(readings[k - 1]->Open_name)
    } else {
        None
    }
}

/// What is wrong with the reading at place `k`, if anything: it could not
/// be taken; it opens an element deeper than can be counted, or an entity
/// whose identifier is no number; it closes an element while none is open;
/// or it is the text of a reference and no number.
pub open spec fn is_fault(readings: Seq<ReadingView>, k: int) -> bool {
    match readings[k] {
        ReadingView::Malformed => true,
        ReadingView::Open { name, attributes } => field_of(name) is None && (level_at(
            readings,
            k,
        ) >= usize::MAX || (entity_of(name) is Some && element_id(attributes) is Err)),
        ReadingView::Close { .. } => level_at(readings, k) <= 0,
        ReadingView::Text { content } => (field_at(readings, k) == Some(Field::ClientId)
            || field_at(readings, k) == Some(Field::CategoryId)) && decimal_u16(content) is None,
        _ => false,
    }
}

/// Something is wrong with the document: with one of its readings, or with
/// its end, which leaves an element open.
pub open spec fn faulty(readings: Seq<ReadingView>) -> bool {
    ||| exists|k: int| 0 <= k < end_of(readings) && #[trigger] is_fault(readings, k)
    ||| level_at(readings, end_of(readings)) != 0
}

/// The end of a document lies within its readings.
pub proof fn lemma_end_is_within(readings: Seq<ReadingView>)
    ensures
        0 <= end_of(readings) <= readings.len(),
    decreases readings.len(),
{
    if readings.len() > 0 && !(readings[0] is Eof) {
        lemma_end_is_within(readings.drop_first());
    }
}

proof fn lemma_end_splits(readings: Seq<ReadingView>, j: int)
    requires
        0 <= j <= readings.len(),
        forall|i: int| 0 <= i < j ==> !(#[trigger] readings[i] is Eof),
    ensures
        end_of(readings) == j + end_of(readings.skip(j)),
    decreases j,
{
    if j == 0 {
        assert(readings.skip(0) =~= readings);
    } else {
        assert(!(readings[0] is Eof));
        let rest = readings.drop_first();
        assert forall|i: int| 0 <= i < j - 1 implies !(#[trigger] rest[i] is Eof) by {
            assert(rest[i] == readings[i + 1]);
        }
        lemma_end_splits(rest, j - 1);
        assert(rest.skip(j - 1) =~= readings.skip(j));
    }
}

proof fn lemma_scan_from(readings: Seq<ReadingView>, j: int, draft: ManifestDraftView)
    requires
        0 <= j <= readings.len(),
        forall|i: int| 0 <= i < j ==> !(#[trigger] readings[i] is Eof),
        draft.open_elements == level_at(readings, j),
        draft.awaited == field_at(readings, j),
    ensures
        draft.scan(readings.skip(j)) is Err <==> ((exists|k: int|
            j <= k < end_of(readings) && #[trigger] is_fault(readings, k)) || level_at(
            readings,
            end_of(readings),
        ) != 0),
    decreases readings.len() - j,
{
    let ahead = readings.skip(j);
    lemma_end_splits(readings, j);
    if ahead.len() == 0 || ahead[0] is Eof {
        assert(end_of(readings) == j);
    } else {
        let reading = readings[j];
        assert(ahead[0] == reading);
        assert(ahead.drop_first() =~= readings.skip(j + 1));
        lemma_end_is_within(ahead.drop_first());
        assert(end_of(readings) >= j + 1);
        assert(level_at(readings, j + 1) == level_at(readings, j) + rise(reading));
        if let ReadingView::Open { name, .. } = reading {
            lemma_tag_kinds(name);
        }
        match draft.step(reading) {
            Ok(next) => {
                assert(!is_fault(readings, j));
                assert(next.awaited == field_at(readings, j + 1));
                assert forall|i: int| 0 <= i < j + 1 implies !(#[trigger] readings[i] is Eof) by {}
                lemma_scan_from(readings, j + 1, next);
            },
            Err(_) => {
                assert(is_fault(readings, j));
            },
        }
    }
}

/// A document has no configuration exactly when something is wrong with it:
/// a reading that could not be taken, an element nested deeper than can be
/// counted, an identifier or a reference that is no number, a closing tag
/// while no element is open, or an element that its end leaves open. A
/// missing identifier, a missing field and a reference to an unknown client
/// or category are nothing wrong with a document.
pub proof fn lemma_error_exactly_when_faulty(readings: Seq<ReadingView>)
    ensures
        manifest_of(readings) is Err <==> faulty(readings),
{
    assert(readings.skip(0) =~= readings);
    lemma_scan_from(readings, 0, ManifestDraftView::empty());
}

/// A document with nothing wrong has one category, client and account for
/// each closing tag of that entity.
pub proof fn lemma_counts_of_every_manifest(readings: Seq<ReadingView>)
    requires
        !faulty(readings),
    ensures
        manifest_of(readings) matches Ok(config) && config.categories.len() == closes_of(
            readings,
            Entity::Category,
        ) && config.clients.len() == closes_of(readings, Entity::Client) && config.accounts.len()
            == closes_of(readings, Entity::Account),
{
    lemma_error_exactly_when_faulty(readings);
    lemma_one_entity_for_each_close(ManifestDraftView::empty(), readings);
}

} // verus!
