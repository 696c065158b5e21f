//! The printer: its state, and the basic operations that every node is printed with.

use crate::ast::{BindingIdentifier, IdentifierReference, PrivateIdentifier, StringLiteral};
use crate::comment::{Comment, CommentsMap, Span};
use crate::fast_buffer::FastBuffer;
use crate::hash::{fx_set_insert, fx_set_members, fx_set_new};
use crate::identifier::{is_identifier_part, is_identifier_part_ascii};
use crate::number::{contains_dot_e_or_x, minified_number};
use crate::operator::{BinaryOperator, Operator, UnaryOperator, UpdateOperator};
use crate::options::{CodegenOptions, LegalComment};
use crate::scoping::{find_mangled_private_name, Scoping};
use crate::sourcemap::{SourceMapData, SourcemapBuilder};
use crate::stack::{
    class_stack_as_slice, class_stack_items, class_stack_len, class_stack_new, class_stack_pop,
    class_stack_push, CLASS_STACK_LIMIT,
};
use crate::state::{
    block_close, block_open, built_comments, comment_source, legal_comment_key, legal_keys,
    normalized_lines, unique_legal_comments, Recorded, State,
};
use crate::string::{choose_quote, print_quoted, Quote};
use crate::text::{
    ends_with, find_ascii_break, find_unicode_break, first_break, found_at, is_all_ascii,
    lemma_after_first_line_shorter, lemma_first_from, lemma_first_from_is,
    print_escaping_script_close_tag, starts_with, str_slice, str_trim_start,
    LineTerminatorSplitter, Needle,
};
use oxc_data_structures::stack::Stack;
use rustc_hash::FxBuildHasher;
use std::collections::HashMap;
use vstd::prelude::*;
use vstd::string::StringSliceAdditionalSpecFns;
use vstd::utf8::*;

verus! {

/// The room that a print asks for before it starts: as much as the source text takes,
/// and 64 bytes at least.
pub open spec fn spec_room_for(source_len: nat) -> nat {
    if source_len < crate::fast_buffer::MIN_CAPACITY {
        crate::fast_buffer::MIN_CAPACITY as nat
    } else {
        source_len
    }
}

pub fn room_for(source_len: usize) -> (room: usize)
    ensures
        room == spec_room_for(source_len as nat),
{
    if source_len < crate::fast_buffer::MIN_CAPACITY {
        crate::fast_buffer::MIN_CAPACITY
    } else {
        source_len
    }
}

/// What a print gives back.
#[derive(Debug)]
pub struct CodegenReturn {
    /// The printed text.
    pub code: String,
    /// The record of where the text came from, where one was asked for.
    pub map: Option<SourceMapData>,
    /// The legal comments that were not printed where they stood and are handed back.
    pub legal_comments: Vec<Comment>,
}

/// A printer.
pub struct Codegen {
    options: CodegenOptions,
    source_text: Option<String>,
    scoping: Option<Scoping>,
    private_member_mappings: Option<Vec<HashMap<String, String, FxBuildHasher>>>,
    code: FastBuffer,
    prev_op_end: usize,
    prev_reg_exp_end: usize,
    need_space_before_dot: usize,
    print_next_indent_as_space: bool,
    class_stack: Stack<u32>,
    next_class_id: u32,
    is_jsx: bool,
    needs_semicolon: bool,
    prev_op: Option<Operator>,
    start_of_stmt: usize,
    start_of_arrow_expr: usize,
    start_of_default_export: usize,
    indent: u32,
    quote: Quote,
    comments: CommentsMap,
    sourcemap_builder: Option<SourcemapBuilder>,
}

impl View for Codegen {
    type V = State;

    closed spec fn view(&self) -> State {
        State {
            options: self.options,
            source: match self.source_text {
                Some(s) => Some(encode_utf8(s@)),
                None => None,
            },
            scoping: self.scoping,
            private_member_mappings: match self.private_member_mappings {
                Some(m) => Some(m@),
                None => None,
            },
            code: self.code@,
            indent: self.indent,
            quote: self.quote,
            needs_semicolon: self.needs_semicolon,
            print_next_indent_as_space: self.print_next_indent_as_space,
            prev_op: self.prev_op,
            prev_op_end: self.prev_op_end as nat,
            prev_reg_exp_end: self.prev_reg_exp_end as nat,
            need_space_before_dot: self.need_space_before_dot as nat,
            start_of_stmt: self.start_of_stmt as nat,
            start_of_arrow_expr: self.start_of_arrow_expr as nat,
            start_of_default_export: self.start_of_default_export as nat,
            is_jsx: self.is_jsx,
            class_stack: class_stack_items(self.class_stack),
            next_class_id: self.next_class_id,
            comments: self.comments@,
            sourcemap: match self.sourcemap_builder {
                Some(b) => Some(Recorded { path: b.path(), source: b.source(), entries: b@ }),
                None => None,
            },
        }
    }
}

/// The name that is printed for a reference, looked up.
fn lookup_reference_name<'a>(scoping: &'a Option<Scoping>, ident: &'a IdentifierReference) -> (name:
    &'a str)
    ensures
        name@ == (match (*scoping, ident.reference_id) {
            (Some(sc), Some(id)) => match sc.spec_reference_name(id) {
                Some(renamed) => renamed,
                None => ident.name@,
            },
            _ => ident.name@,
        }),
{
    match scoping {
        Some(sc) => match ident.reference_id {
            Some(id) => match sc.get_reference_name(id) {
                Some(name) => name,
                None => ident.name.as_str(),
            },
            None => ident.name.as_str(),
        },
        None => ident.name.as_str(),
    }
}

/// The name that is printed for a binding, looked up.
fn lookup_binding_name<'a>(scoping: &'a Option<Scoping>, ident: &'a BindingIdentifier) -> (name:
    &'a str)
    ensures
        name@ == (match (*scoping, ident.symbol_id) {
            (Some(sc), Some(id)) => match sc.spec_symbol_name(id) {
                Some(renamed) => renamed,
                None => ident.name@,
            },
            _ => ident.name@,
        }),
{
    match scoping {
        Some(sc) => match ident.symbol_id {
            Some(id) => match sc.symbol_name(id) {
                Some(name) => name,
                None => ident.name.as_str(),
            },
            None => ident.name.as_str(),
        },
        None => ident.name.as_str(),
    }
}

/// The text holds a line terminator.
fn has_line_break(bytes: &[u8]) -> (b: bool)
    ensures
        b == (first_break(bytes@) < bytes@.len()),
{
    let ascii = find_ascii_break(bytes);
    let unicode = find_unicode_break(bytes);
    proof {
        let n = bytes@.len() as int;
        lemma_first_from(bytes@, Needle::Break, 0);
        lemma_first_from(bytes@, Needle::AsciiBreak, 0);
        lemma_first_from(bytes@, Needle::UnicodeBreak, 0);
        if ascii is None && unicode is None {
            assert forall|j: int| 0 <= j < n implies !found_at(bytes@, Needle::Break, j) by {
                assert(!found_at(bytes@, Needle::AsciiBreak, j));
                assert(!found_at(bytes@, Needle::UnicodeBreak, j));
            }
            lemma_first_from_is(bytes@, Needle::Break, 0, n);
        } else {
            let at: int = if ascii is Some {
                ascii->0 as int
            } else {
                unicode->0 as int
            };
            assert(found_at(bytes@, Needle::Break, at));
        }
    }
    ascii.is_some() || unicode.is_some()
}

/// The text of the source at `span` as a string of its own.
fn comment_text_of(source: &str, span: Span) -> (text: String)
    ensures
        encode_utf8(text@) == comment_source(source.spec_bytes(), span),
{
    broadcast use group_utf8_lib;

    match str_slice(source, span.start as usize, span.end as usize) {
        Some(piece) => piece.to_owned(),
        None => {
            let empty = String::new();
            assert(encode_utf8(empty@) =~= Seq::<u8>::empty());
            empty
        },
    }
}

/// The text by which a legal comment is told from the others, worked out.
fn legal_key_of(source: &str, comment: &Comment) -> (key: String)
    ensures
        key@ == legal_comment_key(source.spec_bytes(), *comment),
{
    broadcast use group_utf8_lib;

    let text = comment_text_of(source, comment.span);
    let ghost bytes = encode_utf8(text@);
    if !(comment.is_block() && has_line_break(text.as_str().as_bytes())) {
        return text;
    }
    let mut out = FastBuffer::new();
    let mut splitter = LineTerminatorSplitter::new(text.as_str());
    let open: [u8; 2] = [0x2F, 0x2A];
    let close: [u8; 2] = [0x2A, 0x2F];
    assert(open@ =~= block_open());
    assert(close@ =~= block_close());
    let ghost mut pending = bytes;
    let mut line = splitter.next();
    assert(out@ + normalized_lines(pending) =~= normalized_lines(bytes));
    while line.is_some()
        invariant
            out.wf(),
            open@ == block_open(),
            close@ == block_close(),
            out@ + normalized_lines(pending) == normalized_lines(bytes),
            match line {
                Some(l) => pending.len() > 0 && l.spec_bytes() == crate::text::first_line(pending)
                    && splitter.remaining() == crate::text::after_first_line(pending),
                None => pending.len() == 0,
            },
        decreases pending.len(),
    {
        let l = line.unwrap();
        let ghost before = out@;
        proof {
            lemma_after_first_line_shorter(pending);
        }
        if !starts_with(l.as_bytes(), open.as_slice()) {
            out.print_ascii_byte(0x09);
        }
        let trimmed = str_trim_start(l);
        out.print_str(trimmed);
        if !ends_with(l.as_bytes(), close.as_slice()) {
            out.print_ascii_byte(0x0A);
        }
        proof {
            let rest = crate::text::after_first_line(pending);
            encode_utf8_valid_utf8(l@);
            encode_utf8_decode_utf8(l@);
            assert(l.spec_bytes() == encode_utf8(l@));
            assert(decode_utf8(l.spec_bytes()) == l@);
            assert(trimmed.spec_bytes() == encode_utf8(
                crate::text::trimmed_start(decode_utf8(crate::text::first_line(pending))),
            ));
            assert(out@ + normalized_lines(rest) =~= before + normalized_lines(pending));
            pending = rest;
        }
        line = splitter.next();
    }
    proof {
        assert(out@ =~= normalized_lines(bytes));
    }
    out.into_string()
}

impl Codegen {
    /// The printed text is well-formed UTF-8, the store of comments is in order, the
    /// record of the source map fits the text, and every place in the text that the
    /// printer remembers lies within the text.
    pub closed spec fn wf(&self) -> bool {
        &&& self.code.wf()
        &&& self.comments.wf()
        &&& self.code.model().indent_char == self.options.indent_char
        &&& self.code.model().indent_width == self.options.indent_width
        &&& match self.sourcemap_builder {
            Some(b) => b.wf(self.code@),
            None => true,
        }
        &&& self.prev_op_end <= self.code@.len()
        &&& self.prev_reg_exp_end <= self.code@.len()
        &&& self.need_space_before_dot <= self.code@.len()
        &&& self.start_of_stmt <= self.code@.len()
        &&& self.start_of_arrow_expr <= self.code@.len()
        &&& self.start_of_default_export <= self.code@.len()
    }

    /// The room that the text has been given so far.
    pub closed spec fn capacity(&self) -> nat {
        self.code.model().capacity
    }

    /// The places that a well-formed printer remembers lie within its text: none of
    /// them is a place that the text has yet to reach.
    pub proof fn lemma_places_within_text(&self)
        requires
            self.wf(),
        ensures
            self@.prev_op_end <= self@.code.len(),
            self@.prev_reg_exp_end <= self@.code.len(),
            self@.need_space_before_dot <= self@.code.len(),
            self@.start_of_stmt <= self@.code.len(),
            self@.start_of_arrow_expr <= self@.code.len(),
            self@.start_of_default_export <= self@.code.len(),
    {
    }

    /// The text of a well-formed printer is well-formed UTF-8.
    pub proof fn lemma_code_is_valid_utf8(&self)
        requires
            self.wf(),
        ensures
            valid_utf8(self@.code),
    {
        self.code.lemma_wf_valid_utf8();
    }

    proof fn lemma_builder_grows(&self, more: Seq<u8>)
        requires
            self.wf(),
        ensures
            match self.sourcemap_builder {
                Some(b) => b.wf(self.code@ + more),
                None => true,
            },
    {
        match &self.sourcemap_builder {
            Some(b) => {
                b.lemma_wf_grows(self.code@, more);
            },
            None => {},
        }
    }

    /// A printer with the default options, which has printed nothing.
    pub fn new() -> (p: Codegen)
        ensures
            p.wf(),
            p@.code == Seq::<u8>::empty(),
            !p@.options.minify,
            !p@.options.single_quote,
            p@.options.comments.normal && p@.options.comments.jsdoc
                && p@.options.comments.annotation && p@.options.comments.legal is Inline,
            p@.options.source_map_path is None,
            p@.options.indent_char == crate::fast_buffer::IndentChar::Tab,
            p@.options.indent_width == 1,
            p@.options.initial_indent == 0,
            p@.source is None,
            p@.scoping is None,
            p@.private_member_mappings is None,
            p@.indent == 0,
            p@.quote == Quote::Double,
            !p@.needs_semicolon,
            !p@.print_next_indent_as_space,
            p@.prev_op is None,
            p@.prev_op_end == 0 && p@.prev_reg_exp_end == 0 && p@.need_space_before_dot == 0,
            p@.start_of_stmt == 0 && p@.start_of_arrow_expr == 0 && p@.start_of_default_export
                == 0,
            !p@.is_jsx,
            p@.class_stack == Seq::<u32>::empty(),
            p@.next_class_id == 0,
            p@.comments == Map::<u32, Seq<Comment>>::empty(),
            p@.sourcemap is None,
    {
        let options = CodegenOptions::default();
        Codegen {
            options,
            source_text: None,
            scoping: None,
            private_member_mappings: None,
            code: FastBuffer::new(),
            prev_op_end: 0,
            prev_reg_exp_end: 0,
            need_space_before_dot: 0,
            print_next_indent_as_space: false,
            class_stack: class_stack_new(),
            next_class_id: 0,
            is_jsx: false,
            needs_semicolon: false,
            prev_op: None,
            start_of_stmt: 0,
            start_of_arrow_expr: 0,
            start_of_default_export: 0,
            indent: 0,
            quote: Quote::Double,
            comments: CommentsMap::new(),
            sourcemap_builder: None,
        }
    }

    /// The printer with other options. What was printed before is dropped, and so are
    /// the record for a source map and the places in the text that the printer
    /// remembered.
    pub fn with_options(self, options: CodegenOptions) -> (p: Codegen)
        requires
            self.wf(),
        ensures
            p.wf(),
            p@ == (State {
                options,
                quote: if options.single_quote {
                    Quote::Single
                } else {
                    Quote::Double
                },
                code: Seq::empty(),
                sourcemap: None,
                prev_op: None,
                prev_op_end: 0,
                prev_reg_exp_end: 0,
                need_space_before_dot: 0,
                start_of_stmt: 0,
                start_of_arrow_expr: 0,
                start_of_default_export: 0,
                ..self@
            }),
    {
        let mut p = self;
        p.prev_op = None;
        p.prev_op_end = 0;
        p.prev_reg_exp_end = 0;
        p.need_space_before_dot = 0;
        p.start_of_stmt = 0;
        p.start_of_arrow_expr = 0;
        p.start_of_default_export = 0;
        p.quote = if options.single_quote {
            Quote::Single
        } else {
            Quote::Double
        };
        p.code = FastBuffer::with_indent(options.indent_char, options.indent_width);
        p.options = options;
        p.sourcemap_builder = None;
        p
    }

    /// The printer with the source text that comments are copied from.
    pub fn with_source_text(self, source_text: &str) -> (p: Codegen)
        requires
            self.wf(),
        ensures
            p.wf(),
            p@ == (State { source: Some(source_text.spec_bytes()), ..self@ }),
    {
        let mut p = self;
        p.source_text = Some(source_text.to_owned());
        p
    }

    /// The printer with a symbol table to take names from.
    pub fn with_scoping(self, scoping: Option<Scoping>) -> (p: Codegen)
        requires
            self.wf(),
        ensures
            p.wf(),
            p@ == (State { scoping, ..self@ }),
    {
        let mut p = self;
        p.scoping = scoping;
        p
    }

    /// The printer with the names that private members are to be printed under: one
    /// table for each class, in the order in which the classes are entered.
    pub fn with_private_member_mappings(
        self,
        mappings: Option<Vec<HashMap<String, String, FxBuildHasher>>>,
    ) -> (p: Codegen)
        requires
            self.wf(),
        ensures
            p.wf(),
            p@ == (State {
                private_member_mappings: match mappings {
                    Some(m) => Some(m@),
                    None => None,
                },
                ..self@
            }),
    {
        let mut p = self;
        p.private_member_mappings = mappings;
        p
    }

    /// The printed text.
    pub fn into_source_text(self) -> (text: String)
        requires
            self.wf(),
        ensures
            text@ == decode_utf8(self@.code),
    {
        self.code.into_string()
    }

    pub fn options(&self) -> (o: &CodegenOptions)
        ensures
            *o == self@.options,
    {
        &self.options
    }

    pub fn minify(&self) -> (b: bool)
        ensures
            b == self@.options.minify,
    {
        self.options.minify
    }

    pub fn print_annotation_comment(&self) -> (b: bool)
        ensures
            b == self@.options.comments.annotation,
    {
        self.options.comments.annotation
    }

    /// The room that the text has been given so far.
    pub fn code_capacity(&self) -> (n: usize)
        ensures
            n == self.capacity(),
    {
        self.code.capacity()
    }

    pub fn code_len(&self) -> (n: usize)
        ensures
            n == self@.code.len(),
    {
        self.code.len()
    }

    pub fn last_byte(&self) -> (b: Option<u8>)
        ensures
            b == (if self@.code.len() > 0 {
                Some(self@.code.last())
            } else {
                None
            }),
    {
        self.code.last_byte()
    }

    pub fn last_char(&self) -> (c: Option<char>)
        requires
            self.wf(),
        ensures
            c == crate::utf8::last_char_of(self@.code),
    {
        self.code.last_char()
    }

    pub fn indent_level(&self) -> (n: u32)
        ensures
            n == self@.indent,
    {
        self.indent
    }

    pub fn quote(&self) -> (q: Quote)
        ensures
            q == self@.quote,
    {
        self.quote
    }

    pub fn is_jsx(&self) -> (b: bool)
        ensures
            b == self@.is_jsx,
    {
        self.is_jsx
    }

    pub fn next_indent_is_space(&self) -> (b: bool)
        ensures
            b == self@.print_next_indent_as_space,
    {
        self.print_next_indent_as_space
    }

    pub fn at_start_of_stmt(&self) -> (b: bool)
        ensures
            b == self@.at_start_of_stmt(),
    {
        self.start_of_stmt == self.code.len()
    }

    pub fn at_start_of_arrow_expr(&self) -> (b: bool)
        ensures
            b == self@.at_start_of_arrow_expr(),
    {
        self.start_of_arrow_expr == self.code.len()
    }

    pub fn at_start_of_default_export(&self) -> (b: bool)
        ensures
            b == self@.at_start_of_default_export(),
    {
        self.start_of_default_export == self.code.len()
    }

    pub fn at_need_space_before_dot(&self) -> (b: bool)
        ensures
            b == (self@.need_space_before_dot == self@.code.len()),
    {
        self.need_space_before_dot == self.code.len()
    }

    pub fn mark_start_of_stmt(&mut self)
        ensures
            old(self).wf() ==> final(self).wf(),
            old(self)@.code.len() <= final(self)@.code.len(),
            final(self)@ == old(self)@.mark_start_of_stmt(),
    {
        proof {
            reveal(State::append);
            reveal(State::mark_start_of_stmt);
        }
        self.start_of_stmt = self.code.len();
    }

    pub fn mark_start_of_arrow_expr(&mut self)
        ensures
            old(self).wf() ==> final(self).wf(),
            old(self)@.code.len() <= final(self)@.code.len(),
            final(self)@ == old(self)@.mark_start_of_arrow_expr(),
    {
        proof {
            reveal(State::append);
            reveal(State::mark_start_of_arrow_expr);
        }
        self.start_of_arrow_expr = self.code.len();
    }

    pub fn mark_start_of_default_export(&mut self)
        ensures
            old(self).wf() ==> final(self).wf(),
            old(self)@.code.len() <= final(self)@.code.len(),
            final(self)@ == old(self)@.mark_start_of_default_export(),
    {
        proof {
            reveal(State::append);
            reveal(State::mark_start_of_default_export);
        }
        self.start_of_default_export = self.code.len();
    }

    pub fn mark_reg_exp_end(&mut self)
        ensures
            old(self).wf() ==> final(self).wf(),
            old(self)@.code.len() <= final(self)@.code.len(),
            final(self)@ == old(self)@.mark_reg_exp_end(),
    {
        proof {
            reveal(State::append);
            reveal(State::mark_reg_exp_end);
        }
        self.prev_reg_exp_end = self.code.len();
    }

    pub fn record_operator(&mut self, op: Operator)
        ensures
            old(self).wf() ==> final(self).wf(),
            old(self)@.code.len() <= final(self)@.code.len(),
            final(self)@ == old(self)@.record_operator(op),
    {
        proof {
            reveal(State::append);
            reveal(State::record_operator);
        }
        self.prev_op = Some(op);
        self.prev_op_end = self.code.len();
    }

    pub fn set_needs_semicolon(&mut self, value: bool)
        ensures
            final(self).wf() == old(self).wf(),
            old(self)@.code.len() <= final(self)@.code.len(),
            final(self)@ == old(self)@.set_needs_semicolon(value),
    {
        proof {
            reveal(State::append);
            reveal(State::set_needs_semicolon);
        }
        self.needs_semicolon = value;
    }

    pub fn set_print_next_indent_as_space(&mut self, value: bool)
        ensures
            final(self).wf() == old(self).wf(),
            old(self)@.code.len() <= final(self)@.code.len(),
            final(self)@ == old(self)@.set_print_next_indent_as_space(value),
    {
        proof {
            reveal(State::append);
            reveal(State::set_print_next_indent_as_space);
        }
        self.print_next_indent_as_space = value;
    }

    pub fn set_is_jsx(&mut self, value: bool)
        ensures
            final(self).wf() == old(self).wf(),
            old(self)@.code.len() <= final(self)@.code.len(),
            final(self)@ == (State { is_jsx: value, ..old(self)@ }),
    {
        self.is_jsx = value;
    }

    /// Appends one ASCII byte.
    pub fn print_ascii_byte(&mut self, byte: u8)
        requires
            old(self).wf(),
            byte < 0x80,
        ensures
            final(self).wf(),
            old(self)@.code.len() <= final(self)@.code.len(),
            final(self)@ == old(self)@.print_ascii_byte(byte),
    {
        proof {
            reveal(State::append);
            reveal(State::print_ascii_byte);
        }
        proof {
            self.lemma_builder_grows(seq![byte]);
        }
        self.code.print_ascii_byte(byte);
        assert(self.code@ =~= old(self).code@ + seq![byte]);
    }

    /// Appends a string.
    pub fn print_str(&mut self, s: &str)
        requires
            old(self).wf(),
        ensures
            final(self).wf(),
            old(self)@.code.len() <= final(self)@.code.len(),
            final(self)@ == old(self)@.print_chars(s@),
    {
        proof {
            reveal(State::append);
            reveal(State::print_chars);
        }
        proof {
            self.lemma_builder_grows(s.spec_bytes());
        }
        self.code.print_str(s);
    }

    /// Appends a string, with every `</script` turned into `<\/script`.
    pub fn print_str_escaping_script_close_tag(&mut self, s: &str)
        requires
            old(self).wf(),
        ensures
            final(self).wf(),
            old(self)@.code.len() <= final(self)@.code.len(),
            final(self)@ == old(self)@.print_chars_escaping_script_close_tag(s@),
    {
        proof {
            reveal(State::append);
            reveal(State::print_chars_escaping_script_close_tag);
        }
        proof {
            self.lemma_builder_grows(crate::text::escape_script_close_tag(s.spec_bytes()));
        }
        print_escaping_script_close_tag(&mut self.code, s);
    }

    pub fn print_soft_space(&mut self)
        requires
            old(self).wf(),
        ensures
            final(self).wf(),
            old(self)@.code.len() <= final(self)@.code.len(),
            final(self)@ == old(self)@.print_soft_space(),
    {
        proof {
            reveal(State::append);
            reveal(State::print_ascii_byte);
            reveal(State::print_soft_space);
        }
        if !self.options.minify {
            self.print_ascii_byte(0x20);
        }
    }

    pub fn print_hard_space(&mut self)
        requires
            old(self).wf(),
        ensures
            final(self).wf(),
            old(self)@.code.len() <= final(self)@.code.len(),
            final(self)@ == old(self)@.print_hard_space(),
    {
        proof {
            reveal(State::append);
            reveal(State::print_ascii_byte);
            reveal(State::print_hard_space);
        }
        self.print_ascii_byte(0x20);
    }

    pub fn print_soft_newline(&mut self)
        requires
            old(self).wf(),
        ensures
            final(self).wf(),
            old(self)@.code.len() <= final(self)@.code.len(),
            final(self)@ == old(self)@.print_soft_newline(),
    {
        proof {
            reveal(State::append);
            reveal(State::print_ascii_byte);
            reveal(State::print_soft_newline);
        }
        if !self.options.minify {
            self.print_ascii_byte(0x0A);
        }
    }

    pub fn print_hard_newline(&mut self)
        requires
            old(self).wf(),
        ensures
            final(self).wf(),
            old(self)@.code.len() <= final(self)@.code.len(),
            final(self)@ == old(self)@.print_hard_newline(),
    {
        proof {
            reveal(State::append);
            reveal(State::print_ascii_byte);
            reveal(State::print_hard_newline);
        }
        self.print_ascii_byte(0x0A);
    }

    pub fn print_semicolon(&mut self)
        requires
            old(self).wf(),
        ensures
            final(self).wf(),
            old(self)@.code.len() <= final(self)@.code.len(),
            final(self)@ == old(self)@.print_semicolon(),
    {
        proof {
            reveal(State::append);
            reveal(State::print_ascii_byte);
            reveal(State::print_semicolon);
        }
        self.print_ascii_byte(0x3B);
    }

    pub fn print_comma(&mut self)
        requires
            old(self).wf(),
        ensures
            final(self).wf(),
            old(self)@.code.len() <= final(self)@.code.len(),
            final(self)@ == old(self)@.print_comma(),
    {
        proof {
            reveal(State::append);
            reveal(State::print_ascii_byte);
            reveal(State::print_comma);
        }
        self.print_ascii_byte(0x2C);
    }

    pub fn print_colon(&mut self)
        requires
            old(self).wf(),
        ensures
            final(self).wf(),
            old(self)@.code.len() <= final(self)@.code.len(),
            final(self)@ == old(self)@.print_colon(),
    {
        proof {
            reveal(State::append);
            reveal(State::print_ascii_byte);
            reveal(State::print_colon);
        }
        self.print_ascii_byte(0x3A);
    }

    pub fn print_equal(&mut self)
        requires
            old(self).wf(),
        ensures
            final(self).wf(),
            old(self)@.code.len() <= final(self)@.code.len(),
            final(self)@ == old(self)@.print_equal(),
    {
        proof {
            reveal(State::append);
            reveal(State::print_ascii_byte);
            reveal(State::print_equal);
        }
        self.print_ascii_byte(0x3D);
    }

    pub fn print_ellipsis(&mut self)
        requires
            old(self).wf(),
        ensures
            final(self).wf(),
            old(self)@.code.len() <= final(self)@.code.len(),
            final(self)@ == old(self)@.print_ellipsis(),
    {
        proof {
            reveal(State::append);
            reveal(State::print_chars);
            reveal(State::print_ellipsis);
        }
        self.print_str("...");
    }

    /// A space, where the text ends in a character of an identifier or in a regular
    /// expression.
    pub fn print_space_before_identifier(&mut self)
        requires
            old(self).wf(),
        ensures
            final(self).wf(),
            old(self)@.code.len() <= final(self)@.code.len(),
            final(self)@ == old(self)@.print_space_before_identifier(),
    {
        proof {
            reveal(State::append);
            reveal(State::print_ascii_byte);
            reveal(State::print_hard_space);
            reveal(State::print_space_before_identifier);
        }
        let byte = match self.code.last_byte() {
            Some(b) => b,
            None => {
                return ;
            },
        };
        if self.prev_reg_exp_end != self.code.len() {
            let is_identifier = if byte < 0x80 {
                is_identifier_part_ascii(byte)
            } else {
                match self.code.last_char() {
                    Some(c) => is_identifier_part(c),
                    None => false,
                }
            };
            if !is_identifier {
                return ;
            }
        }
        self.print_hard_space();
    }

    pub fn indent(&mut self)
        ensures
            final(self).wf() == old(self).wf(),
            old(self)@.code.len() <= final(self)@.code.len(),
            final(self)@ == old(self)@.indent(),
    {
        proof {
            reveal(State::append);
            reveal(State::indent);
        }
        if !self.options.minify && self.indent < u32::MAX {
            self.indent = self.indent + 1;
        }
    }

    pub fn dedent(&mut self)
        ensures
            final(self).wf() == old(self).wf(),
            old(self)@.code.len() <= final(self)@.code.len(),
            final(self)@ == old(self)@.dedent(),
    {
        proof {
            reveal(State::append);
            reveal(State::dedent);
        }
        if !self.options.minify && self.indent > 0 {
            self.indent = self.indent - 1;
        }
    }

    /// The indentation of a new line.
    pub fn print_indent(&mut self)
        requires
            old(self).wf(),
        ensures
            final(self).wf(),
            old(self)@.code.len() <= final(self)@.code.len(),
            final(self)@ == old(self)@.print_indent(),
    {
        proof {
            reveal(State::append);
            reveal(State::print_ascii_byte);
            reveal(State::print_hard_space);
            reveal(State::print_indent);
        }
        if self.options.minify {
            return ;
        }
        if self.print_next_indent_as_space {
            self.print_hard_space();
            self.print_next_indent_as_space = false;
            return ;
        }
        proof {
            self.lemma_builder_grows(
                crate::fast_buffer::repeated(
                    self.options.indent_char.spec_byte(),
                    self.options.indent_width as nat * self.indent as nat,
                ),
            );
        }
        self.code.print_indent(self.indent as usize);
    }

    pub fn print_semicolon_after_statement(&mut self)
        requires
            old(self).wf(),
        ensures
            final(self).wf(),
            old(self)@.code.len() <= final(self)@.code.len(),
            final(self)@ == old(self)@.print_semicolon_after_statement(),
    {
        proof {
            reveal(State::append);
            reveal(State::print_chars);
            reveal(State::print_semicolon_after_statement);
        }
        if self.options.minify {
            self.needs_semicolon = true;
        } else {
            self.print_str(";\n");
        }
    }

    pub fn print_semicolon_if_needed(&mut self)
        requires
            old(self).wf(),
        ensures
            final(self).wf(),
            old(self)@.code.len() <= final(self)@.code.len(),
            final(self)@ == old(self)@.print_semicolon_if_needed(),
    {
        proof {
            reveal(State::append);
            reveal(State::print_ascii_byte);
            reveal(State::print_semicolon);
            reveal(State::print_semicolon_if_needed);
        }
        if self.needs_semicolon {
            self.print_semicolon();
            self.needs_semicolon = false;
        }
    }

    /// A space, where the operator `next` would else run into the operator before it.
    pub fn print_space_before_operator(&mut self, next: Operator)
        requires
            old(self).wf(),
        ensures
            final(self).wf(),
            old(self)@.code.len() <= final(self)@.code.len(),
            final(self)@ == old(self)@.print_space_before_operator(next),
    {
        proof {
            reveal(State::append);
            reveal(State::print_ascii_byte);
            reveal(State::print_hard_space);
            reveal(State::print_space_before_operator);
        }
        if self.prev_op_end != self.code.len() {
            return ;
        }
        let prev = match self.prev_op {
            Some(prev) => prev,
            None => {
                return ;
            },
        };
        let bin_add = Operator::Binary(BinaryOperator::Addition);
        let bin_sub = Operator::Binary(BinaryOperator::Subtraction);
        let un_pos = Operator::Unary(UnaryOperator::UnaryPlus);
        let un_neg = Operator::Unary(UnaryOperator::UnaryNegation);
        let inc = Operator::Update(UpdateOperator::Increment);
        let dec = Operator::Update(UpdateOperator::Decrement);
        let bin_gt = Operator::Binary(BinaryOperator::GreaterThan);
        let un_not = Operator::Unary(UnaryOperator::LogicalNot);
        if ((prev == bin_add || prev == un_pos) && (next == bin_add || next == un_pos || next
            == inc)) || ((prev == bin_sub || prev == un_neg) && (next == bin_sub || next == un_neg
            || next == dec)) || (prev == dec && next == bin_gt) || (prev == un_not && next == dec
            && self.code.peek_nth_byte_back(1) == Some(0x3Cu8)) {
            self.print_hard_space();
        }
    }

    fn record(&mut self, position: u32)
        requires
            old(self).wf(),
        ensures
            final(self).wf(),
            old(self)@.code.len() <= final(self)@.code.len(),
            final(self)@ == old(self)@.record(position, None),
    {
        proof {
            reveal(State::add_source_mapping);
            reveal(State::append);
            reveal(State::record);
        }
        match &mut self.sourcemap_builder {
            Some(b) => {
                b.add_source_mapping(self.code.as_bytes(), position, None);
            },
            None => {},
        }
    }

    /// Records that the end of the text came from the start of `span`.
    pub fn add_source_mapping(&mut self, span: Span)
        requires
            old(self).wf(),
        ensures
            final(self).wf(),
            old(self)@.code.len() <= final(self)@.code.len(),
            final(self)@ == old(self)@.add_source_mapping(span),
    {
        proof {
            reveal(State::add_source_mapping);
            reveal(State::append);
            reveal(State::record);
        }
        if !span.is_empty() {
            self.record(span.start);
        }
    }

    /// Records that the end of the text came from the end of `span`.
    pub fn add_source_mapping_end(&mut self, span: Span)
        requires
            old(self).wf(),
        ensures
            final(self).wf(),
            old(self)@.code.len() <= final(self)@.code.len(),
            final(self)@ == old(self)@.add_source_mapping_end(span),
    {
        proof {
            reveal(State::add_source_mapping_end);
            reveal(State::append);
            reveal(State::record);
        }
        if !span.is_empty() {
            self.record(span.end);
        }
    }

    /// Records the start of a node that is printed as `name`.
    pub fn add_source_mapping_for_name(&mut self, span: Span, name: &str)
        requires
            old(self).wf(),
        ensures
            final(self).wf(),
            old(self)@.code.len() <= final(self)@.code.len(),
            final(self)@ == old(self)@.add_source_mapping_for_name(span, name@),
    {
        proof {
            reveal(State::add_source_mapping_for_name);
            reveal(State::append);
            reveal(State::record);
        }
        match &mut self.sourcemap_builder {
            Some(b) => {
                if !span.is_empty() {
                    b.add_source_mapping_for_name(self.code.as_bytes(), span, name);
                }
            },
            None => {},
        }
    }

    /// The name that is printed for a reference.
    pub fn get_identifier_reference_name<'a>(&'a self, ident: &'a IdentifierReference) -> (name:
        &'a str)
        ensures
            name@ == self@.reference_name(ident.name@, ident.reference_id),
    {
        lookup_reference_name(&self.scoping, ident)
    }

    /// The name that is printed for a binding.
    pub fn get_binding_identifier_name<'a>(&'a self, ident: &'a BindingIdentifier) -> (name:
        &'a str)
        ensures
            name@ == self@.binding_name(ident.name@, ident.symbol_id),
    {
        lookup_binding_name(&self.scoping, ident)
    }

    /// A reference: a space where one is needed, and the name.
    pub fn emit_identifier_reference(&mut self, ident: &IdentifierReference)
        requires
            old(self).wf(),
        ensures
            final(self).wf(),
            old(self)@.code.len() <= final(self)@.code.len(),
            final(self)@ == old(self)@.emit_identifier_reference(*ident),
    {
        proof {
            reveal(State::add_source_mapping_for_name);
            reveal(State::append);
            reveal(State::emit_identifier_reference);
            reveal(State::print_ascii_byte);
            reveal(State::print_chars);
            reveal(State::print_hard_space);
            reveal(State::print_space_before_identifier);
            reveal(State::record);
        }
        self.print_space_before_identifier();
        let ghost mid = *self;
        let name = lookup_reference_name(&self.scoping, ident);
        match &mut self.sourcemap_builder {
            Some(b) => {
                if !ident.span.is_empty() {
                    b.add_source_mapping_for_name(self.code.as_bytes(), ident.span, name);
                }
            },
            None => {},
        }
        assert(self@ == mid@.add_source_mapping_for_name(ident.span, name@));
        proof {
            self.lemma_builder_grows(name.spec_bytes());
        }
        self.code.print_str(name);
    }

    /// The name of a reference without a space before it.
    pub fn print_reference_name(&mut self, ident: &IdentifierReference)
        requires
            old(self).wf(),
        ensures
            final(self).wf(),
            old(self)@.code.len() <= final(self)@.code.len(),
            final(self)@ == old(self)@.print_chars(
                old(self)@.reference_name(ident.name@, ident.reference_id),
            ),
    {
        proof {
            reveal(State::append);
            reveal(State::print_chars);
        }
        let name = lookup_reference_name(&self.scoping, ident);
        proof {
            self.lemma_builder_grows(name.spec_bytes());
        }
        self.code.print_str(name);
    }

    /// A binding: a space where one is needed, and the name.
    pub fn emit_binding_identifier(&mut self, ident: &BindingIdentifier)
        requires
            old(self).wf(),
        ensures
            final(self).wf(),
            old(self)@.code.len() <= final(self)@.code.len(),
            final(self)@ == old(self)@.emit_binding_identifier(*ident),
    {
        proof {
            reveal(State::add_source_mapping_for_name);
            reveal(State::append);
            reveal(State::emit_binding_identifier);
            reveal(State::print_ascii_byte);
            reveal(State::print_chars);
            reveal(State::print_hard_space);
            reveal(State::print_space_before_identifier);
            reveal(State::record);
        }
        self.print_space_before_identifier();
        let ghost mid = *self;
        let name = lookup_binding_name(&self.scoping, ident);
        match &mut self.sourcemap_builder {
            Some(b) => {
                if !ident.span.is_empty() {
                    b.add_source_mapping_for_name(self.code.as_bytes(), ident.span, name);
                }
            },
            None => {},
        }
        assert(self@ == mid@.add_source_mapping_for_name(ident.span, name@));
        proof {
            self.lemma_builder_grows(name.spec_bytes());
        }
        self.code.print_str(name);
    }

    /// A private name: `#` and the name, or what stands for the name in the innermost
    /// class that mangles it.
    pub fn emit_private_identifier(&mut self, ident: &PrivateIdentifier)
        requires
            old(self).wf(),
        ensures
            final(self).wf(),
            old(self)@.code.len() <= final(self)@.code.len(),
            final(self)@ == old(self)@.emit_private_identifier(*ident),
    {
        proof {
            reveal(State::add_source_mapping_for_name);
            reveal(State::append);
            reveal(State::emit_private_identifier);
            reveal(State::print_ascii_byte);
            reveal(State::print_chars);
            reveal(State::record);
        }
        self.print_ascii_byte(0x23);
        self.add_source_mapping_for_name(ident.span, ident.name.as_str());
        let name: &str = match &self.private_member_mappings {
            Some(mappings) => match find_mangled_private_name(
                mappings,
                class_stack_as_slice(&self.class_stack),
                ident.name.as_str(),
            ) {
                Some(mangled) => mangled.as_str(),
                None => ident.name.as_str(),
            },
            None => ident.name.as_str(),
        };
        proof {
            self.lemma_builder_grows(name.spec_bytes());
        }
        self.code.print_str(name);
    }

    pub fn enter_class(&mut self)
        ensures
            final(self).wf() == old(self).wf(),
            old(self)@.code.len() <= final(self)@.code.len(),
            final(self)@ == old(self)@.enter_class(),
    {
        proof {
            reveal(State::append);
            reveal(State::enter_class);
        }
        let class_id = self.next_class_id;
        if self.next_class_id < u32::MAX {
            self.next_class_id = self.next_class_id + 1;
        }
        if class_stack_len(&self.class_stack) < CLASS_STACK_LIMIT {
            class_stack_push(&mut self.class_stack, class_id);
        }
    }

    pub fn exit_class(&mut self)
        ensures
            final(self).wf() == old(self).wf(),
            old(self)@.code.len() <= final(self)@.code.len(),
            final(self)@ == old(self)@.exit_class(),
    {
        proof {
            reveal(State::append);
            reveal(State::exit_class);
        }
        let _ = class_stack_pop(&mut self.class_stack);
    }

    /// A string literal.
    pub fn print_string_literal(&mut self, lit: &StringLiteral)
        requires
            old(self).wf(),
        ensures
            final(self).wf(),
            old(self)@.code.len() <= final(self)@.code.len(),
            final(self)@ == old(self)@.print_string_literal(lit.span, lit.value@),
    {
        proof {
            reveal(State::add_source_mapping);
            reveal(State::append);
            reveal(State::print_string_literal);
            reveal(State::record);
        }
        let quote = choose_quote(lit.value.as_str(), self.quote);
        self.add_source_mapping(lit.span);
        proof {
            self.lemma_builder_grows(
                crate::string::quoted_string(encode_utf8(lit.value@), quote),
            );
        }
        print_quoted(&mut self.code, lit.value.as_str(), quote);
    }

    /// A number that is not negative: `shortest` is its decimal text, `integer` its value
    /// where it is a whole number.
    pub fn print_non_negative_float(&mut self, shortest: &str, integer: Option<u128>)
        requires
            old(self).wf(),
        ensures
            final(self).wf(),
            old(self)@.code.len() <= final(self)@.code.len(),
            final(self)@ == old(self)@.print_non_negative_float(shortest@, integer),
    {
        proof {
            reveal(State::append);
            reveal(State::print_non_negative_float);
        }
        let bytes = shortest.as_bytes();
        let small = match integer {
            Some(value) => value < 1000,
            None => false,
        };
        if is_all_ascii(bytes) {
            let text = minified_number(bytes, integer);
            let plain = !contains_dot_e_or_x(text.as_slice());
            proof {
                crate::number::lemma_minified_number_ascii(bytes@, integer);
                crate::fast_buffer::lemma_ascii_valid(text@);
                self.lemma_builder_grows(text@);
            }
            self.code.print_ascii_bytes(text.as_slice());
            if small || plain {
                self.need_space_before_dot = self.code.len();
            }
        } else {
            let plain = !contains_dot_e_or_x(bytes);
            proof {
                self.lemma_builder_grows(bytes@);
            }
            self.code.print_str(shortest);
            if small || plain {
                self.need_space_before_dot = self.code.len();
            }
        }
    }

    /// Comments are attached to `start` and have not been printed.
    pub fn has_comment(&self, start: u32) -> (b: bool)
        requires
            self.wf(),
        ensures
            b == self@.has_comment(start),
    {
        self.comments.has(start)
    }

    /// The comments attached to `start`, which stay in the store.
    pub fn peek_comments(&self, start: u32) -> (bucket: Option<&Vec<Comment>>)
        requires
            self.wf(),
        ensures
            match bucket {
                Some(comments) => self@.comments.contains_key(start) && comments@
                    == self@.comments[start],
                None => !self@.comments.contains_key(start),
            },
    {
        self.comments.peek(start)
    }

    /// Takes the comments attached to `start` out of the store.
    pub fn take_comments(&mut self, start: u32) -> (bucket: Option<Vec<Comment>>)
        requires
            old(self).wf(),
        ensures
            final(self).wf(),
            old(self)@.code.len() <= final(self)@.code.len(),
            final(self)@ == (State { comments: old(self)@.comments.remove(start), ..old(self)@ }),
            match bucket {
                Some(comments) => old(self)@.comments.contains_key(start) && comments@ == old(
                    self,
                )@.comments[start],
                None => !old(self)@.comments.contains_key(start),
            },
    {
        let bucket = self.comments.take(start);
        assert(self@.comments =~= old(self)@.comments.remove(start));
        bucket
    }

    /// Fills the store with the comments of a program that the options ask for.
    pub fn build_comments(&mut self, comments: &Vec<Comment>)
        requires
            old(self).wf(),
        ensures
            final(self).wf(),
            old(self)@.code.len() <= final(self)@.code.len(),
            final(self)@ == (State {
                comments: built_comments(comments@, old(self)@.options, comments@.len()),
                ..old(self)@
            }),
            final(self).capacity() == old(self).capacity(),
    {
        self.comments.clear();
        if self.options.comments.all_disabled() {
            proof {
                lemma_built_comments_disabled(comments@, self.options, comments@.len());
            }
            return ;
        }
        let mut i: usize = 0;
        while i < comments.len()
            invariant
                i <= comments.len(),
                self.wf(),
                old(self)@.code.len() <= self@.code.len(),
                self@ == (State {
                    comments: built_comments(comments@, old(self)@.options, i as nat),
                    ..old(self)@
                }),
                self.capacity() == old(self).capacity(),
            decreases comments.len() - i,
        {
            let comment = comments[i];
            if !(comment.is_pure() || comment.is_no_side_effects()) && comment.is_leading() && ((
            comment.is_legal() && self.options.print_legal_comment()) || (comment.is_jsdoc()
                && self.options.print_jsdoc_comment()) || (comment.is_annotation()
                && self.options.print_annotation_comment()) || (comment.is_normal()
                && self.options.print_normal_comment())) {
                self.comments.insert(comment.attached_to, comment);
            }
            i += 1;
        }
    }

    /// One comment.
    pub fn print_comment(&mut self, comment: &Comment)
        requires
            old(self).wf(),
        ensures
            final(self).wf(),
            old(self)@.code.len() <= final(self)@.code.len(),
            final(self)@ == old(self)@.print_comment(*comment),
    {
        proof {
            reveal(State::append);
            reveal_with_fuel(State::print_block_comment_lines, 2);
            reveal(State::print_chars_escaping_script_close_tag);
            reveal(State::print_comment);
            reveal(State::print_hard_newline);
            reveal(State::print_indent);
        }
        broadcast use group_utf8_lib;

        let text: String = match &self.source_text {
            Some(source) => comment_text_of(source.as_str(), comment.span),
            None => {
                return ;
            },
        };
        let ghost bytes = encode_utf8(text@);
        assert(bytes == self@.comment_text(*comment));
        if comment.is_line() {
            self.print_str_escaping_script_close_tag(text.as_str());
            return ;
        }
        let mut splitter = LineTerminatorSplitter::new(text.as_str());
        let open: [u8; 2] = [0x2F, 0x2A];
        let close: [u8; 2] = [0x2A, 0x2F];
        assert(open@ =~= block_open());
        assert(close@ =~= block_close());
        let ghost mut pending = bytes;
        let mut line = splitter.next();
        while line.is_some()
            invariant
                self.wf(),
                old(self)@.code.len() <= self@.code.len(),
                open@ == block_open(),
                close@ == block_close(),
                self@.print_block_comment_lines(pending) == old(self)@.print_block_comment_lines(
                    bytes,
                ),
                match line {
                    Some(l) => pending.len() > 0 && l.spec_bytes() == crate::text::first_line(
                        pending,
                    ) && splitter.remaining() == crate::text::after_first_line(pending),
                    None => pending.len() == 0,
                },
            decreases pending.len(),
        {
            proof {
                reveal(State::append);
                reveal_with_fuel(State::print_block_comment_lines, 2);
            reveal(State::print_chars_escaping_script_close_tag);
                reveal(State::print_comment);
                reveal(State::print_hard_newline);
                reveal(State::print_indent);
            }
            let l = line.unwrap();
            let ghost before = self@;
            proof {
                lemma_after_first_line_shorter(pending);
            }
            if !starts_with(l.as_bytes(), open.as_slice()) {
                self.print_indent();
            }
            let trimmed = str_trim_start(l);
            self.print_str_escaping_script_close_tag(trimmed);
            if !ends_with(l.as_bytes(), close.as_slice()) {
                self.print_hard_newline();
            }
            proof {
                let rest = crate::text::after_first_line(pending);
                encode_utf8_valid_utf8(l@);
            encode_utf8_decode_utf8(l@);
            assert(l.spec_bytes() == encode_utf8(l@));
            assert(decode_utf8(l.spec_bytes()) == l@);
                assert(trimmed.spec_bytes() == encode_utf8(
                    crate::text::trimmed_start(decode_utf8(crate::text::first_line(pending))),
                ));
                assert(before.print_block_comment_lines(pending)
                    == self@.print_block_comment_lines(rest));
                pending = rest;
            }
            line = splitter.next();
        }
    }

    /// A block of comments.
    pub fn print_comments(&mut self, comments: &Vec<Comment>)
        requires
            old(self).wf(),
        ensures
            final(self).wf(),
            old(self)@.code.len() <= final(self)@.code.len(),
            final(self)@ == old(self)@.print_comments(comments@),
    {
        proof {
            reveal(State::append);
            reveal(State::print_comment_of_block);
            reveal(State::print_comments);
            reveal(State::print_comments_upto);
        }
        let n = comments.len();
        let mut i: usize = 0;
        while i < n
            invariant
                i <= n,
                n == comments@.len(),
                self.wf(),
                old(self)@.code.len() <= self@.code.len(),
                self@ == old(self)@.print_comments_upto(comments@, i as nat),
            decreases n - i,
        {
            proof {
                reveal(State::append);
                reveal(State::print_comment_of_block);
                reveal(State::print_comments);
                reveal(State::print_comments_upto);
            }
            let comment = comments[i];
            if i == 0 {
                if comment.preceded_by_newline() {
                    match self.last_byte() {
                        Some(b) => {
                            if b == 0x0A {
                                self.print_indent();
                            } else if b == 0x09 {
                            } else {
                                self.print_hard_newline();
                                self.print_indent();
                            }
                        },
                        None => {},
                    }
                } else {
                    self.print_indent();
                }
            } else if comment.preceded_by_newline() {
                self.print_hard_newline();
                self.print_indent();
            } else if comment.is_legal() {
                self.print_hard_newline();
            }
            self.print_comment(&comment);
            if i == n - 1 {
                if comment.is_line() || comment.followed_by_newline() {
                    self.print_hard_newline();
                } else {
                    self.set_print_next_indent_as_space(true);
                }
            }
            i += 1;
        }
    }

    /// The comments attached to `start`.
    pub fn print_comments_at(&mut self, start: u32)
        requires
            old(self).wf(),
        ensures
            final(self).wf(),
            old(self)@.code.len() <= final(self)@.code.len(),
            final(self)@ == old(self)@.print_comments_at(start),
    {
        proof {
            reveal(State::append);
            reveal(State::print_comments);
            reveal(State::print_comments_at);
            reveal(State::print_comments_upto);
        }
        match self.take_comments(start) {
            Some(comments) => {
                self.print_comments(&comments);
            },
            None => {},
        }
    }

    /// The comments attached to `start`.
    pub fn print_leading_comments(&mut self, start: u32)
        requires
            old(self).wf(),
        ensures
            final(self).wf(),
            old(self)@.code.len() <= final(self)@.code.len(),
            final(self)@ == old(self)@.print_comments_at(start),
    {
        proof {
            reveal(State::append);
            reveal(State::print_comments);
            reveal(State::print_comments_at);
            reveal(State::print_comments_upto);
        }
        self.print_comments_at(start);
    }

    /// The comments attached to `start` inside an expression, each on a line of its own.
    /// The answer says whether anything was printed.
    pub fn print_expr_comments(&mut self, start: u32) -> (printed: bool)
        requires
            old(self).wf(),
        ensures
            final(self).wf(),
            old(self)@.code.len() <= final(self)@.code.len(),
            final(self)@ == old(self)@.print_expr_comments(start),
            printed == old(self)@.has_expr_comments(start),
    {
        proof {
            reveal(State::append);
            reveal(State::print_comment);
            reveal(State::print_expr_comments);
            reveal(State::print_expr_comments_upto);
            reveal(State::print_hard_newline);
            reveal(State::print_indent);
        }
        let comments = match self.take_comments(start) {
            Some(comments) => comments,
            None => {
                return false;
            },
        };
        let ghost taken = self@;
        let n = comments.len();
        let mut i: usize = 0;
        while i < n
            invariant
                i <= n,
                n == comments@.len(),
                self.wf(),
                old(self)@.code.len() <= self@.code.len(),
                self@ == taken.print_expr_comments_upto(comments@, i as nat),
            decreases n - i,
        {
            proof {
                reveal(State::append);
                reveal(State::print_comment);
                reveal(State::print_expr_comments);
                reveal(State::print_expr_comments_upto);
                reveal(State::print_hard_newline);
                reveal(State::print_indent);
            }
            self.print_hard_newline();
            self.print_indent();
            self.print_comment(&comments[i]);
            i += 1;
        }
        if n == 0 {
            false
        } else {
            self.print_hard_newline();
            true
        }
    }

    /// What is done with the legal comments at the end of a program whose source text is
    /// `source`: they go to the end of the text, or the text ends in a line that names
    /// the file they go to, or nothing is printed; in the last two cases they are handed
    /// back, each text once.
    pub fn handle_eof_linked_or_external_comments(&mut self, source: &str, comments: &Vec<Comment>) -> (kept:
        Vec<Comment>)
        requires
            old(self).wf(),
        ensures
            final(self).wf(),
            old(self)@.code.len() <= final(self)@.code.len(),
            final(self)@ == old(self)@.handle_eof_linked_or_external_comments(
                source.spec_bytes(),
                comments@,
            ),
            kept@ == old(self)@.returned_legal_comments(source.spec_bytes(), comments@),
    {
        proof {
            reveal(State::append);
            reveal(State::handle_eof_linked_or_external_comments);
            reveal(State::print_ascii_byte);
            reveal(State::print_block_comment_lines);
            reveal(State::print_chars);
            reveal(State::print_comment);
            reveal(State::print_eof_comments);
            reveal(State::print_hard_newline);
            reveal(State::print_hard_space);
            reveal(State::print_indent);
        }
        if self.options.comments.legal.is_off() || self.options.comments.legal.is_inline() {
            return Vec::new();
        }
        let mut set = fx_set_new();
        let mut unique: Vec<Comment> = Vec::new();
        let mut i: usize = 0;
        while i < comments.len()
            invariant
                i <= comments.len(),
                fx_set_members(set) == legal_keys(source.spec_bytes(), comments@, i as nat),
                unique@ == unique_legal_comments(source.spec_bytes(), comments@, i as nat),
            decreases comments.len() - i,
        {
            proof {
                reveal(State::append);
                reveal(State::handle_eof_linked_or_external_comments);
                reveal(State::print_ascii_byte);
                reveal(State::print_block_comment_lines);
                reveal(State::print_chars);
                reveal(State::print_comment);
                reveal(State::print_eof_comments);
                reveal(State::print_hard_newline);
                reveal(State::print_hard_space);
                reveal(State::print_indent);
            }
            let comment = comments[i];
            if comment.is_legal() {
                let key = legal_key_of(source, &comment);
                if fx_set_insert(&mut set, key) {
                    unique.push(comment);
                }
            }
            i += 1;
        }
        if unique.len() == 0 {
            return Vec::new();
        }
        if self.options.comments.legal.is_eof() {
            self.print_hard_newline();
            let ghost start = self@;
            let n = unique.len();
            let mut k: usize = 0;
            while k < n
                invariant
                    k <= n,
                    n == unique@.len(),
                    self.wf(),
                    old(self)@.code.len() <= self@.code.len(),
                    self@ == start.print_eof_comments(unique@, k as nat),
                decreases n - k,
            {
                proof {
                    reveal(State::append);
                    reveal(State::handle_eof_linked_or_external_comments);
                    reveal(State::print_ascii_byte);
                    reveal(State::print_block_comment_lines);
                    reveal(State::print_chars);
                    reveal(State::print_comment);
                    reveal(State::print_eof_comments);
                    reveal(State::print_hard_newline);
                    reveal(State::print_hard_space);
                    reveal(State::print_indent);
                }
                self.print_comment(&unique[k]);
                self.print_hard_newline();
                k += 1;
            }
            return Vec::new();
        }
        if self.options.comments.legal.is_linked() {
            self.print_hard_newline();
            self.print_str("/*! For license information please see ");
            self.print_linked_path();
            self.print_str(" */");
        }
        unique
    }

    fn print_linked_path(&mut self)
        requires
            old(self).wf(),
            old(self)@.options.comments.legal is Linked,
        ensures
            final(self).wf(),
            old(self)@.code.len() <= final(self)@.code.len(),
            final(self)@ == old(self)@.print_chars(old(self)@.options.comments.legal->Linked_0@),
    {
        proof {
            reveal(State::append);
            reveal(State::print_chars);
        }
        match &self.options.comments.legal {
            LegalComment::Linked(path) => {
                proof {
                    self.lemma_builder_grows(encode_utf8(path@));
                }
                self.code.print_str(path.as_str());
            },
            _ => {},
        }
    }

    /// Starts the print of a program: the quote and the depth of indentation are taken
    /// from the options, the source text and the comments from the program, and a
    /// record for the source map is begun where the options name a path for it. The
    /// text is given room for as many bytes as the source text has, and for 64 at
    /// least; what the printer holds already and that room have to fit into the
    /// largest length that a text can have.
    pub fn begin(&mut self, source_text: &str, comments: &Vec<Comment>)
        requires
            old(self).wf(),
            old(self)@.code.len() + spec_room_for(source_text.spec_bytes().len()) <= usize::MAX,
        ensures
            final(self).wf(),
            old(self)@.code.len() <= final(self)@.code.len(),
            final(self)@ == old(self)@.begin(source_text.spec_bytes(), comments@),
            final(self).capacity() >= spec_room_for(source_text.spec_bytes().len()),
            final(self).capacity() >= old(self).capacity(),
    {
        proof {
            reveal(State::append);
            reveal(State::begin);
        }
        self.quote = if self.options.single_quote {
            Quote::Single
        } else {
            Quote::Double
        };
        self.source_text = Some(source_text.to_owned());
        self.indent = self.options.initial_indent;
        self.build_comments(comments);
        let ghost code = self.code@;
        match &self.options.source_map_path {
            Some(path) => {
                let builder = SourcemapBuilder::new(path.as_str(), source_text);
                proof {
                    builder.lemma_fits_start(Seq::<u8>::empty(), code);
                }
                self.sourcemap_builder = Some(builder);
            },
            None => {},
        }
        self.code.reserve(room_for(source_text.len()));
    }

    /// Ends a print: the text, the record of the source map where one was made.
    pub fn finish(self, legal_comments: Vec<Comment>) -> (ret: CodegenReturn)
        requires
            self.wf(),
        ensures
            ret.code@ == decode_utf8(self@.code),
            ret.legal_comments == legal_comments,
            match ret.map {
                Some(map) => self@.sourcemap is Some && map.file@ == self@.sourcemap->0.path
                    && encode_utf8(map.source@) == self@.sourcemap->0.source
                    && crate::sourcemap::mappings_view(map.mappings@)
                    == self@.sourcemap->0.entries,
                None => self@.sourcemap is None,
            },
    {
        let code = self.code.into_string();
        let map = match self.sourcemap_builder {
            Some(b) => Some(b.into_sourcemap()),
            None => None,
        };
        CodegenReturn { code, map, legal_comments }
    }
}

proof fn lemma_built_comments_disabled(comments: Seq<Comment>, options: CodegenOptions, n: nat)
    requires
        options.comments.is_disabled(),
    ensures
        built_comments(comments, options, n) == Map::<u32, Seq<Comment>>::empty(),
    decreases n,
{
    if n > 0 && n <= comments.len() {
        lemma_built_comments_disabled(comments, options, (n - 1) as nat);
    }
}

impl Default for Codegen {
    fn default() -> (p: Codegen)
        ensures
            p.wf(),
            p@.code == Seq::<u8>::empty(),
    {
        Codegen::new()
    }
}

} // verus!
