//! The record of where each piece of the printed text came from.

use crate::comment::Span;
use crate::text::{bytes_eq, lemma_str_bytes_valid, source_slice, str_slice};
use vstd::prelude::*;
use vstd::string::StringSliceAdditionalSpecFns;
use vstd::utf8::*;

verus! {

/// A place in a text: its line and its column, both counted from 0. Columns count
/// UTF-16 code units.
#[derive(Clone, Copy, Debug, PartialEq, Eq, Structural)]
pub struct Position {
    pub line: u32,
    pub column: u32,
}

pub open spec fn sat_add_u32(a: u32, b: u32) -> u32 {
    if a + b > u32::MAX {
        u32::MAX
    } else {
        (a + b) as u32
    }
}

/// The number of UTF-16 code units that the character starting with `b` takes; 0 for a
/// byte that continues a character.
pub open spec fn utf16_units(b: u8) -> u32 {
    if is_continuation_byte(b) {
        0
    } else if b >= 0xF0 {
        2
    } else {
        1
    }
}

/// The byte at `k` ends a line: it is a carriage return, a line feed that follows no
/// carriage return, or the last byte of U+2028 or U+2029.
pub open spec fn ends_line(bytes: Seq<u8>, k: int) -> bool {
    let b = bytes[k];
    b == 0x0D || (b == 0x0A && !(k > 0 && bytes[k - 1] == 0x0D)) || ((b == 0xA8 || b == 0xA9) && k
        >= 2 && bytes[k - 2] == 0xE2 && bytes[k - 1] == 0x80)
}

/// The place behind the byte at `k`, for the place `p` before it.
pub open spec fn step(p: Position, bytes: Seq<u8>, k: int) -> Position {
    if ends_line(bytes, k) {
        Position { line: sat_add_u32(p.line, 1), column: 0 }
    } else if bytes[k] == 0x0A {
        p
    } else {
        Position { line: p.line, column: sat_add_u32(p.column, utf16_units(bytes[k])) }
    }
}

/// The place of the offset `n` in `bytes`. Both numbers stop at `u32::MAX`.
pub open spec fn position_at(bytes: Seq<u8>, n: int) -> Position
    decreases n,
{
    if n <= 0 || n > bytes.len() {
        Position { line: 0, column: 0 }
    } else {
        step(position_at(bytes, n - 1), bytes, n - 1)
    }
}

/// The place of an offset does not change when the text grows.
pub proof fn lemma_position_stable(bytes: Seq<u8>, more: Seq<u8>, n: int)
    requires
        0 <= n <= bytes.len(),
    ensures
        position_at(bytes + more, n) == position_at(bytes, n),
    decreases n,
{
    if n > 0 {
        lemma_position_stable(bytes, more, n - 1);
        let all = bytes + more;
        assert(all[n - 1] == bytes[n - 1]);
        if n >= 2 {
            assert(all[n - 2] == bytes[n - 2]);
        }
        if n >= 3 {
            assert(all[n - 3] == bytes[n - 3]);
        }
    }
}

/// One entry of the record, as contracts speak of it.
pub struct MappingView {
    pub generated: Position,
    pub original: Position,
    pub name: Option<Seq<char>>,
}

/// One entry of the record: a place in the printed text, the place in the source text
/// that it came from, and the name that stood there where the printed name is another.
#[derive(Debug)]
pub struct Mapping {
    pub generated: Position,
    pub original: Position,
    pub name: Option<String>,
}

impl View for Mapping {
    type V = MappingView;

    open spec fn view(&self) -> MappingView {
        MappingView {
            generated: self.generated,
            original: self.original,
            name: match self.name {
                Some(n) => Some(n@),
                None => None,
            },
        }
    }
}

pub open spec fn mappings_view(mappings: Seq<Mapping>) -> Seq<MappingView> {
    Seq::new(mappings.len(), |i: int| mappings[i]@)
}

/// The entry for the end of `code` and the offset `position` of `source`. An offset
/// behind the end of the source counts as its end.
pub open spec fn mapping_for(
    code: Seq<u8>,
    source: Seq<u8>,
    position: u32,
    name: Option<Seq<char>>,
) -> MappingView {
    MappingView {
        generated: position_at(code, code.len() as int),
        original: position_at(
            source,
            if position <= source.len() {
                position as int
            } else {
                source.len() as int
            },
        ),
        name,
    }
}

/// The name to record for a node that is printed as `name`: the text of the source at
/// `span`, where that is a piece of the source and differs from `name`.
pub open spec fn original_name(source: Seq<u8>, span: Span, name: Seq<char>) -> Option<Seq<char>> {
    match source_slice(source, span.start as int, span.end as int) {
        Some(piece) => if piece != encode_utf8(name) {
            Some(decode_utf8(piece))
        } else {
            None
        },
        None => None,
    }
}

/// An offset into a text together with its place.
#[derive(Clone, Copy, Debug)]
struct Cursor {
    offset: usize,
    place: Position,
}

fn sat_inc(a: u32, b: u32) -> (r: u32)
    ensures
        r == sat_add_u32(a, b),
{
    if b > u32::MAX - a {
        u32::MAX
    } else {
        a + b
    }
}

/// Moves a cursor forward to the offset `to`.
fn advance(bytes: &[u8], from: Cursor, to: usize) -> (c: Cursor)
    requires
        from.offset <= to <= bytes@.len(),
        from.place == position_at(bytes@, from.offset as int),
    ensures
        c.offset == to,
        c.place == position_at(bytes@, to as int),
{
    let mut place = from.place;
    let mut k = from.offset;
    while k < to
        invariant
            from.offset <= k <= to <= bytes@.len(),
            place == position_at(bytes@, k as int),
        decreases to - k,
    {
        let b = bytes[k];
        let ends = b == 0x0D || (b == 0x0A && !(k > 0 && bytes[k - 1] == 0x0D)) || ((b == 0xA8 || b
            == 0xA9) && k >= 2 && bytes[k - 2] == 0xE2 && bytes[k - 1] == 0x80);
        if ends {
            place = Position { line: sat_inc(place.line, 1), column: 0 };
        } else if b != 0x0A {
            let units: u32 = if 0x80 <= b && b <= 0xBF {
                0
            } else if b >= 0xF0 {
                2
            } else {
                1
            };
            place = Position { line: place.line, column: sat_inc(place.column, units) };
        }
        k += 1;
    }
    Cursor { offset: to, place }
}

/// The record of one print, while it is being made.
pub struct SourcemapBuilder {
    path: String,
    source: String,
    mappings: Vec<Mapping>,
    generated: Cursor,
    original: Cursor,
}

impl View for SourcemapBuilder {
    type V = Seq<MappingView>;

    closed spec fn view(&self) -> Seq<MappingView> {
        mappings_view(self.mappings@)
    }
}

impl SourcemapBuilder {
    /// The bytes of the source text that the record speaks of.
    pub closed spec fn source(&self) -> Seq<u8> {
        encode_utf8(self.source@)
    }

    /// The path that the record is made for.
    pub closed spec fn path(&self) -> Seq<char> {
        self.path@
    }

    /// The builder fits the printed text `code`: what it remembers of the places it has
    /// seen is true of `code` and of the source.
    pub closed spec fn wf(&self, code: Seq<u8>) -> bool {
        &&& self.generated.offset <= code.len()
        &&& self.generated.place == position_at(code, self.generated.offset as int)
        &&& self.original.offset <= self.source().len()
        &&& self.original.place == position_at(self.source(), self.original.offset as int)
    }

    /// A builder that fits a text keeps fitting it when the text grows.
    pub proof fn lemma_wf_grows(&self, code: Seq<u8>, more: Seq<u8>)
        requires
            self.wf(code),
        ensures
            self.wf(code + more),
    {
        lemma_position_stable(code, more, self.generated.offset as int);
    }

    /// A builder that has seen nothing of the printed text fits every text.
    pub proof fn lemma_fits_start(&self, code: Seq<u8>, other: Seq<u8>)
        requires
            self.wf(code),
            self.generated_offset() == 0,
        ensures
            self.wf(other),
    {
    }

    /// How far into the printed text the builder has looked.
    pub closed spec fn generated_offset(&self) -> nat {
        self.generated.offset as nat
    }

    /// A builder fits the empty text as long as it has recorded nothing.
    pub fn new(path: &str, source: &str) -> (b: SourcemapBuilder)
        ensures
            b@ == Seq::<MappingView>::empty(),
            b.source() == source.spec_bytes(),
            b.path() == path@,
            b.wf(Seq::<u8>::empty()),
            b.generated_offset() == 0,
    {
        let b = SourcemapBuilder {
            path: path.to_owned(),
            source: source.to_owned(),
            mappings: Vec::new(),
            generated: Cursor { offset: 0, place: Position { line: 0, column: 0 } },
            original: Cursor { offset: 0, place: Position { line: 0, column: 0 } },
        };
        assert(b@ =~= Seq::<MappingView>::empty());
        b
    }

    /// Records that the end of `code` came from the offset `position` of the source.
    pub fn add_source_mapping(&mut self, code: &[u8], position: u32, name: Option<String>)
        requires
            old(self).wf(code@),
        ensures
            final(self).wf(code@),
            final(self).source() == old(self).source(),
            final(self).path() == old(self).path(),
            final(self)@ == old(self)@.push(
                mapping_for(
                    code@,
                    old(self).source(),
                    position,
                    match name {
                        Some(n) => Some(n@),
                        None => None,
                    },
                ),
            ),
    {
        let source = self.source.as_str().as_bytes();
        let target: usize = if (position as usize) <= source.len() {
            position as usize
        } else {
            source.len()
        };
        self.generated = advance(code, self.generated, code.len());
        let from = if self.original.offset <= target {
            self.original
        } else {
            Cursor { offset: 0, place: Position { line: 0, column: 0 } }
        };
        self.original = advance(source, from, target);
        let mapping = Mapping {
            generated: self.generated.place,
            original: self.original.place,
            name,
        };
        let ghost entry = mapping@;
        self.mappings.push(mapping);
        assert(self@ =~= old(self)@.push(entry));
    }

    /// Records the start of a node that is printed as `name`, together with the name it
    /// had in the source where that is another.
    pub fn add_source_mapping_for_name(&mut self, code: &[u8], span: Span, name: &str)
        requires
            old(self).wf(code@),
        ensures
            final(self).wf(code@),
            final(self).source() == old(self).source(),
            final(self).path() == old(self).path(),
            final(self)@ == old(self)@.push(
                mapping_for(
                    code@,
                    old(self).source(),
                    span.start,
                    original_name(old(self).source(), span, name@),
                ),
            ),
    {
        broadcast use group_utf8_lib;

        let original: Option<String> = match str_slice(
            self.source.as_str(),
            span.start as usize,
            span.end as usize,
        ) {
            Some(piece) => {
                if bytes_eq(piece.as_bytes(), name.as_bytes()) {
                    None
                } else {
                    Some(piece.to_owned())
                }
            },
            None => None,
        };
        self.add_source_mapping(code, span.start, original);
    }

    /// The record as it stands.
    pub fn into_sourcemap(self) -> (map: SourceMapData)
        ensures
            map.file@ == self.path(),
            encode_utf8(map.source@) == self.source(),
            mappings_view(map.mappings@) == self@,
    {
        SourceMapData { file: self.path, source: self.source, mappings: self.mappings }
    }
}

/// The record of one print: the path it was made for, the source text, and the entries
/// in the order in which the printer made them.
#[derive(Debug)]
pub struct SourceMapData {
    pub file: String,
    pub source: String,
    pub mappings: Vec<Mapping>,
}

/// `SourceMap` of the oxc_sourcemap crate: a finished source map. What it holds goes
/// by the names `map_sources`, `map_source_contents`, `map_names` and `map_tokens`.
#[verifier::external_type_specification]
#[verifier::external_body]
pub struct ExOutsideSourceMap(oxc_sourcemap::SourceMap);

/// `SourceMapBuilder` of the oxc_sourcemap crate: a source map in the making. What it
/// holds goes by the names `builder_sources`, `builder_source_contents`,
/// `builder_names` and `builder_tokens`.
#[verifier::external_type_specification]
#[verifier::external_body]
pub struct ExOutsideSourceMapBuilder(oxc_sourcemap::SourceMapBuilder);

/// One token of a source map of the oxc_sourcemap crate, as its getters show it: a
/// place in the generated text, a place in a source, and the numbers of the source and
/// of the name within the map.
pub struct OutsideToken {
    pub generated: Position,
    pub original: Position,
    pub source_id: Option<u32>,
    pub name_id: Option<u32>,
}

/// The number of a source or of a name as a token keeps it: the crate keeps the largest
/// `u32` for "none", so that number reads back as none.
pub open spec fn kept_id(id: Option<u32>) -> Option<u32> {
    match id {
        Some(n) => if n == u32::MAX {
            None
        } else {
            Some(n)
        },
        None => None,
    }
}

/// The paths of the sources that a builder holds, in the order in which they came.
pub uninterp spec fn builder_sources(builder: oxc_sourcemap::SourceMapBuilder) -> Seq<Seq<char>>;

/// The texts of the sources that a builder holds, one for each source.
pub uninterp spec fn builder_source_contents(builder: oxc_sourcemap::SourceMapBuilder) -> Seq<
    Option<Seq<char>>,
>;

/// The names that a builder holds, in the order in which they came.
pub uninterp spec fn builder_names(builder: oxc_sourcemap::SourceMapBuilder) -> Seq<Seq<char>>;

/// The tokens that a builder holds, in the order in which they came.
pub uninterp spec fn builder_tokens(builder: oxc_sourcemap::SourceMapBuilder) -> Seq<OutsideToken>;

/// The paths of the sources of a source map.
pub uninterp spec fn map_sources(map: oxc_sourcemap::SourceMap) -> Seq<Seq<char>>;

/// The texts of the sources of a source map.
pub uninterp spec fn map_source_contents(map: oxc_sourcemap::SourceMap) -> Seq<Option<Seq<char>>>;

/// The names of a source map.
pub uninterp spec fn map_names(map: oxc_sourcemap::SourceMap) -> Seq<Seq<char>>;

/// The tokens of a source map.
pub uninterp spec fn map_tokens(map: oxc_sourcemap::SourceMap) -> Seq<OutsideToken>;

/// `SourceMapBuilder::default` of the oxc_sourcemap crate: a builder that holds nothing.
#[verifier::external_body]
fn outside_builder() -> (builder: oxc_sourcemap::SourceMapBuilder)
    ensures
        builder_sources(builder) == Seq::<Seq<char>>::empty(),
        builder_source_contents(builder) == Seq::<Option<Seq<char>>>::empty(),
        builder_names(builder) == Seq::<Seq<char>>::empty(),
        builder_tokens(builder) == Seq::<OutsideToken>::empty(),
{
    oxc_sourcemap::SourceMapBuilder::default()
}

/// `SourceMapBuilder::set_source_and_content` of the oxc_sourcemap crate: the source and
/// its text are put behind those that the builder holds, and the answer is the number
/// of sources that it held before, cut to a `u32`.
#[verifier::external_body]
fn outside_set_source(builder: &mut oxc_sourcemap::SourceMapBuilder, path: &str, content: &str) -> (id:
    u32)
    ensures
        builder_sources(*final(builder)) == builder_sources(*old(builder)).push(path@),
        builder_source_contents(*final(builder)) == builder_source_contents(*old(builder)).push(
            Some(content@),
        ),
        builder_names(*final(builder)) == builder_names(*old(builder)),
        builder_tokens(*final(builder)) == builder_tokens(*old(builder)),
        builder_sources(*old(builder)).len() <= u32::MAX ==> id == builder_sources(
            *old(builder),
        ).len(),
{
    builder.set_source_and_content(path, content)
}

/// `SourceMapBuilder::add_name` of the oxc_sourcemap crate: a name that the builder
/// does not hold yet is put behind those that it holds, and the answer is the number
/// under which the builder holds the name.
#[verifier::external_body]
fn outside_add_name(builder: &mut oxc_sourcemap::SourceMapBuilder, name: &str) -> (id: u32)
    ensures
        builder_names(*final(builder)) == (if builder_names(*old(builder)).contains(name@) {
            builder_names(*old(builder))
        } else {
            builder_names(*old(builder)).push(name@)
        }),
        builder_sources(*final(builder)) == builder_sources(*old(builder)),
        builder_source_contents(*final(builder)) == builder_source_contents(*old(builder)),
        builder_tokens(*final(builder)) == builder_tokens(*old(builder)),
        builder_names(*old(builder)).len() <= u32::MAX ==> id < builder_names(
            *final(builder),
        ).len() && builder_names(*final(builder))[id as int] == name@,
{
    builder.add_name(name)
}

/// `SourceMapBuilder::add_token` of the oxc_sourcemap crate: a token with these places
/// and numbers is put behind those that the builder holds.
#[verifier::external_body]
fn outside_add_token(
    builder: &mut oxc_sourcemap::SourceMapBuilder,
    generated: Position,
    original: Position,
    source_id: u32,
    name_id: Option<u32>,
)
    ensures
        builder_tokens(*final(builder)) == builder_tokens(*old(builder)).push(
            (OutsideToken {
                generated,
                original,
                source_id: kept_id(Some(source_id)),
                name_id: kept_id(name_id),
            }),
        ),
        builder_sources(*final(builder)) == builder_sources(*old(builder)),
        builder_source_contents(*final(builder)) == builder_source_contents(*old(builder)),
        builder_names(*final(builder)) == builder_names(*old(builder)),
{
    builder.add_token(
        generated.line,
        generated.column,
        original.line,
        original.column,
        Some(source_id),
        name_id,
    )
}

/// `SourceMapBuilder::into_sourcemap` of the oxc_sourcemap crate: a source map that
/// holds what the builder held.
#[verifier::external_body]
fn outside_finish(builder: oxc_sourcemap::SourceMapBuilder) -> (map: oxc_sourcemap::SourceMap)
    ensures
        map_sources(map) == builder_sources(builder),
        map_source_contents(map) == builder_source_contents(builder),
        map_names(map) == builder_names(builder),
        map_tokens(map) == builder_tokens(builder),
{
    builder.into_sourcemap()
}

/// The names of the first `n` entries, each once, in the order in which they first
/// come.
pub open spec fn recorded_names(entries: Seq<MappingView>, n: nat) -> Seq<Seq<char>>
    decreases n,
{
    if n == 0 || n > entries.len() {
        Seq::empty()
    } else {
        let before = recorded_names(entries, (n - 1) as nat);
        match entries[n - 1].name {
            Some(name) => if before.contains(name) {
                before
            } else {
                before.push(name)
            },
            None => before,
        }
    }
}

/// There are no more names than entries.
pub proof fn lemma_recorded_names_len(entries: Seq<MappingView>, n: nat)
    ensures
        recorded_names(entries, n).len() <= n,
    decreases n,
{
    if n > 0 && n <= entries.len() {
        lemma_recorded_names_len(entries, (n - 1) as nat);
    }
}

/// The token stands for the entry: it has the places of the entry, and it belongs to
/// the first source.
pub open spec fn token_places_fit(token: OutsideToken, entry: MappingView) -> bool {
    token.generated == entry.generated && token.original == entry.original && token.source_id
        == Some(0u32)
}

/// The token names what the entry names: nothing where the entry has no name, and else
/// the number under which `names` holds the name.
pub open spec fn token_name_fits(token: OutsideToken, entry: MappingView, names: Seq<Seq<char>>) -> bool {
    match entry.name {
        Some(name) => token.name_id is Some && token.name_id->0 < names.len() && names[token.name_id->0 as int]
            == name,
        None => token.name_id is None,
    }
}

impl SourceMapData {
    /// The record as a source map of the oxc_sourcemap crate. The map has one source,
    /// the path of the record with the source text. It has the names of the entries,
    /// each once, in the order in which they first come. It has one token for each
    /// entry, in their order, with the places of the entry; a token of an entry with a
    /// name carries the number of that name. (The crate numbers names in 32 bits, so
    /// the last holds for a record of no more entries than that.)
    pub fn to_oxc_sourcemap(&self) -> (map: oxc_sourcemap::SourceMap)
        ensures
            map_sources(map) == seq![self.file@],
            map_source_contents(map) == seq![Some(self.source@)],
            map_names(map) == recorded_names(
                mappings_view(self.mappings@),
                self.mappings@.len(),
            ),
            map_tokens(map).len() == self.mappings@.len(),
            forall|i: int|
                0 <= i < self.mappings@.len() ==> token_places_fit(
                    #[trigger] map_tokens(map)[i],
                    self.mappings@[i]@,
                ),
            self.mappings@.len() <= u32::MAX ==> forall|i: int|
                0 <= i < self.mappings@.len() ==> token_name_fits(
                    #[trigger] map_tokens(map)[i],
                    self.mappings@[i]@,
                    map_names(map),
                ),
    {
        let ghost entries = mappings_view(self.mappings@);
        let mut builder = outside_builder();
        let source_id = outside_set_source(&mut builder, self.file.as_str(), self.source.as_str());
        let mut i: usize = 0;
        while i < self.mappings.len()
            invariant
                i <= self.mappings.len(),
                entries == mappings_view(self.mappings@),
                source_id == 0,
                builder_sources(builder) == seq![self.file@],
                builder_source_contents(builder) == seq![Some(self.source@)],
                builder_names(builder) == recorded_names(entries, i as nat),
                builder_tokens(builder).len() == i,
                forall|j: int|
                    0 <= j < i ==> token_places_fit(
                        #[trigger] builder_tokens(builder)[j],
                        self.mappings@[j]@,
                    ),
                self.mappings@.len() <= u32::MAX ==> forall|j: int|
                    0 <= j < i ==> token_name_fits(
                        #[trigger] builder_tokens(builder)[j],
                        self.mappings@[j]@,
                        builder_names(builder),
                    ),
            decreases self.mappings.len() - i,
        {
            proof {
                lemma_recorded_names_len(entries, i as nat);
                assert(entries[i as int] == self.mappings@[i as int]@);
            }
            let ghost names_before = builder_names(builder);
            let ghost tokens_before = builder_tokens(builder);
            let mapping = &self.mappings[i];
            let name_id = match &mapping.name {
                Some(name) => Some(outside_add_name(&mut builder, name.as_str())),
                None => None,
            };
            let ghost names_after = builder_names(builder);
            assert(names_after == recorded_names(entries, (i + 1) as nat));
            assert(forall|k: int| 0 <= k < names_before.len() ==> names_after[k] == names_before[k]);
            outside_add_token(&mut builder, mapping.generated, mapping.original, source_id, name_id);
            assert(forall|j: int| 0 <= j < i ==> builder_tokens(builder)[j] == tokens_before[j]);
            i += 1;
        }
        outside_finish(builder)
    }
}

} // verus!
