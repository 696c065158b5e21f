//! What the printer has done at a point of its work, as contracts speak of it.
//!
//! Every printing operation is a function from one such state to the next. The
//! functions of this module say what each of the basic operations does; the operations
//! on nodes of the tree are built from them.

use crate::comment::{Comment, Span};
use crate::identifier::{ascii_identifier_part, spec_is_identifier_part};
use crate::number::{has_dot_e_or_x, spec_minified_number};
use crate::operator::{BinaryOperator, Operator, UnaryOperator, UpdateOperator};
use crate::options::{CodegenOptions, LegalComment};
use crate::fast_buffer::repeated;
use crate::scoping::{mangled_private_name, Scoping};
use crate::sourcemap::{mapping_for, original_name, MappingView};
use crate::stack::CLASS_STACK_LIMIT;
use crate::string::{quoted_string, spec_choose_quote, Quote};
use crate::text::{
    after_first_line, all_ascii, escape_script_close_tag, first_break, first_line, has_prefix,
    has_suffix, source_slice, trimmed_start,
};
use crate::utf8::last_char_of;
use rustc_hash::FxBuildHasher;
use std::collections::HashMap;
use vstd::prelude::*;
use vstd::utf8::*;

verus! {

/// The record of a print that makes a source map.
pub struct Recorded {
    pub path: Seq<char>,
    pub source: Seq<u8>,
    pub entries: Seq<MappingView>,
}

/// The state of a printer.
#[verifier::ext_equal]
pub struct State {
    pub options: CodegenOptions,
    /// The bytes of the source text, where the printer was given one.
    pub source: Option<Seq<u8>>,
    pub scoping: Option<Scoping>,
    pub private_member_mappings: Option<Seq<HashMap<String, String, FxBuildHasher>>>,
    /// The text printed so far.
    pub code: Seq<u8>,
    pub indent: u32,
    pub quote: Quote,
    pub needs_semicolon: bool,
    pub print_next_indent_as_space: bool,
    pub prev_op: Option<Operator>,
    pub prev_op_end: nat,
    pub prev_reg_exp_end: nat,
    pub need_space_before_dot: nat,
    pub start_of_stmt: nat,
    pub start_of_arrow_expr: nat,
    pub start_of_default_export: nat,
    pub is_jsx: bool,
    pub class_stack: Seq<u32>,
    pub next_class_id: u32,
    /// The comments that are still to be printed, by the place they are attached to.
    pub comments: Map<u32, Seq<Comment>>,
    pub sourcemap: Option<Recorded>,
}

/// The bytes `/*`.
pub open spec fn block_open() -> Seq<u8> {
    seq![0x2Fu8, 0x2Au8]
}

/// The bytes `*/`.
pub open spec fn block_close() -> Seq<u8> {
    seq![0x2Au8, 0x2Fu8]
}

/// The text of the source at `span`, and nothing where `span` is no piece of the source.
pub open spec fn comment_source(source: Seq<u8>, span: Span) -> Seq<u8> {
    match source_slice(source, span.start as int, span.end as int) {
        Some(text) => text,
        None => Seq::empty(),
    }
}

/// A comment is kept for printing: it is a leading comment, no marker of purity, and of
/// a kind that the options ask for.
pub open spec fn comment_is_kept(comment: Comment, options: CodegenOptions) -> bool {
    &&& !(comment.content is Pure)
    &&& !(comment.content is NoSideEffects)
    &&& comment.position is Leading
    &&& ((comment.spec_is_legal() && options.spec_print_legal_comment()) || (
    comment.spec_is_jsdoc() && options.comments.jsdoc) || (comment.spec_is_annotation()
        && options.comments.annotation) || (comment.content is Plain && options.comments.normal))
}

/// The store that the first `n` comments of a program make.
pub open spec fn built_comments(comments: Seq<Comment>, options: CodegenOptions, n: nat) -> Map<
    u32,
    Seq<Comment>,
>
    decreases n,
{
    if n == 0 || n > comments.len() {
        Map::empty()
    } else {
        let before = built_comments(comments, options, (n - 1) as nat);
        let comment = comments[n - 1];
        if comment_is_kept(comment, options) {
            before.insert(
                comment.attached_to,
                if before.contains_key(comment.attached_to) {
                    before[comment.attached_to].push(comment)
                } else {
                    seq![comment]
                },
            )
        } else {
            before
        }
    }
}

/// The lines of a block comment as they are kept for comparison: each line without the
/// white space it begins with, a tab before every line but the first, a line feed
/// behind every line but the last.
pub open spec fn normalized_lines(text: Seq<u8>) -> Seq<u8>
    decreases text.len(),
{
    if text.len() == 0 {
        Seq::empty()
    } else {
        let line = first_line(text);
        let rest = after_first_line(text);
        if rest.len() < text.len() {
            (if has_prefix(line, block_open()) {
                Seq::<u8>::empty()
            } else {
                seq![0x09u8]
            }) + encode_utf8(trimmed_start(decode_utf8(line))) + (if has_suffix(line, block_close()) {
                Seq::<u8>::empty()
            } else {
                seq![0x0Au8]
            }) + normalized_lines(rest)
        } else {
            Seq::empty()
        }
    }
}

/// The text by which a legal comment is told from the others.
pub open spec fn legal_comment_key(source: Seq<u8>, comment: Comment) -> Seq<char> {
    let text = comment_source(source, comment.span);
    if comment.kind is Block && first_break(text) < text.len() {
        decode_utf8(normalized_lines(text))
    } else {
        decode_utf8(text)
    }
}

/// The keys of the legal comments among the first `n` comments.
pub open spec fn legal_keys(source: Seq<u8>, comments: Seq<Comment>, n: nat) -> Set<Seq<char>>
    decreases n,
{
    if n == 0 || n > comments.len() {
        Set::empty()
    } else {
        let before = legal_keys(source, comments, (n - 1) as nat);
        if comments[n - 1].spec_is_legal() {
            before.insert(legal_comment_key(source, comments[n - 1]))
        } else {
            before
        }
    }
}

/// The legal comments among the first `n` comments, each text once: of comments with
/// the same text the first is kept.
pub open spec fn unique_legal_comments(source: Seq<u8>, comments: Seq<Comment>, n: nat) -> Seq<
    Comment,
>
    decreases n,
{
    if n == 0 || n > comments.len() {
        Seq::empty()
    } else {
        let before = unique_legal_comments(source, comments, (n - 1) as nat);
        let comment = comments[n - 1];
        if comment.spec_is_legal() && !legal_keys(source, comments, (n - 1) as nat).contains(
            legal_comment_key(source, comment),
        ) {
            before.push(comment)
        } else {
            before
        }
    }
}

/// A space has to part the operator `next` from the operator `prev` that stands
/// directly before it: the two would read as another token, or as the start or the end
/// of an HTML comment.
pub open spec fn operators_need_space(prev: Operator, next: Operator, code: Seq<u8>) -> bool {
    let bin_add = Operator::Binary(BinaryOperator::Addition);
    let bin_sub = Operator::Binary(BinaryOperator::Subtraction);
    let un_pos = Operator::Unary(UnaryOperator::UnaryPlus);
    let un_neg = Operator::Unary(UnaryOperator::UnaryNegation);
    let inc = Operator::Update(UpdateOperator::Increment);
    let dec = Operator::Update(UpdateOperator::Decrement);
    let bin_gt = Operator::Binary(BinaryOperator::GreaterThan);
    let un_not = Operator::Unary(UnaryOperator::LogicalNot);
    ((prev == bin_add || prev == un_pos) && (next == bin_add || next == un_pos || next == inc))
        || ((prev == bin_sub || prev == un_neg) && (next == bin_sub || next == un_neg || next
        == dec)) || (prev == dec && next == bin_gt) || (prev == un_not && next == dec && code.len()
        >= 2 && code[code.len() - 2] == 0x3C)
}

impl State {
    /// The state with `bytes` printed.
    #[verifier::opaque]
    pub open spec fn append(self, bytes: Seq<u8>) -> State {
        State { code: self.code + bytes, ..self }
    }

    #[verifier::opaque]
    pub open spec fn print_ascii_byte(self, byte: u8) -> State {
        self.append(seq![byte])
    }

    #[verifier::opaque]
    pub open spec fn print_chars(self, chars: Seq<char>) -> State {
        self.append(encode_utf8(chars))
    }

    /// A space, unless the text is minified.
    #[verifier::opaque]
    pub open spec fn print_soft_space(self) -> State {
        if self.options.minify {
            self
        } else {
            self.print_ascii_byte(0x20)
        }
    }

    #[verifier::opaque]
    pub open spec fn print_hard_space(self) -> State {
        self.print_ascii_byte(0x20)
    }

    /// A line feed, unless the text is minified.
    #[verifier::opaque]
    pub open spec fn print_soft_newline(self) -> State {
        if self.options.minify {
            self
        } else {
            self.print_ascii_byte(0x0A)
        }
    }

    #[verifier::opaque]
    pub open spec fn print_hard_newline(self) -> State {
        self.print_ascii_byte(0x0A)
    }

    #[verifier::opaque]
    pub open spec fn print_semicolon(self) -> State {
        self.print_ascii_byte(0x3B)
    }

    #[verifier::opaque]
    pub open spec fn print_comma(self) -> State {
        self.print_ascii_byte(0x2C)
    }

    #[verifier::opaque]
    pub open spec fn print_colon(self) -> State {
        self.print_ascii_byte(0x3A)
    }

    #[verifier::opaque]
    pub open spec fn print_equal(self) -> State {
        self.print_ascii_byte(0x3D)
    }

    #[verifier::opaque]
    pub open spec fn print_ellipsis(self) -> State {
        self.print_chars("..."@)
    }

    /// The text ends in a character that can stand inside an identifier.
    pub open spec fn ends_in_identifier_part(self) -> bool {
        self.code.len() > 0 && if self.code.last() < 0x80 {
            ascii_identifier_part(self.code.last())
        } else {
            match last_char_of(self.code) {
                Some(c) => spec_is_identifier_part(c),
                None => false,
            }
        }
    }

    /// A space, where the text ends in a character of an identifier or in a regular
    /// expression: a word that is printed next does not run into what stands before it.
    #[verifier::opaque]
    pub open spec fn print_space_before_identifier(self) -> State {
        if self.code.len() == 0 {
            self
        } else if self.prev_reg_exp_end != self.code.len() && !self.ends_in_identifier_part() {
            self
        } else {
            self.print_hard_space()
        }
    }

    /// One level deeper, unless the text is minified. The depth stops at `u32::MAX`.
    #[verifier::opaque]
    pub open spec fn indent(self) -> State {
        if self.options.minify || self.indent == u32::MAX {
            self
        } else {
            State { indent: (self.indent + 1) as u32, ..self }
        }
    }

    /// One level up, unless the text is minified. The depth stops at 0.
    #[verifier::opaque]
    pub open spec fn dedent(self) -> State {
        if self.options.minify || self.indent == 0 {
            self
        } else {
            State { indent: (self.indent - 1) as u32, ..self }
        }
    }

    /// The indentation of a new line: nothing in minified text; one space where the line
    /// goes on behind a comment; else `indent_width` indentation characters for each
    /// level.
    #[verifier::opaque]
    pub open spec fn print_indent(self) -> State {
        if self.options.minify {
            self
        } else if self.print_next_indent_as_space {
            State { print_next_indent_as_space: false, ..self.print_hard_space() }
        } else {
            self.append(
                repeated(
                    self.options.indent_char.spec_byte(),
                    self.options.indent_width as nat * self.indent as nat,
                ),
            )
        }
    }

    /// The end of a statement: `;` and a line feed, and in minified text only the note
    /// that a `;` is owed before the next statement.
    #[verifier::opaque]
    pub open spec fn print_semicolon_after_statement(self) -> State {
        if self.options.minify {
            State { needs_semicolon: true, ..self }
        } else {
            self.print_chars(";\n"@)
        }
    }

    #[verifier::opaque]
    pub open spec fn print_semicolon_if_needed(self) -> State {
        if self.needs_semicolon {
            State { needs_semicolon: false, ..self.print_semicolon() }
        } else {
            self
        }
    }

    #[verifier::opaque]
    pub open spec fn print_space_before_operator(self, next: Operator) -> State {
        if self.prev_op_end != self.code.len() {
            self
        } else {
            match self.prev_op {
                Some(prev) => if operators_need_space(prev, next, self.code) {
                    self.print_hard_space()
                } else {
                    self
                },
                None => self,
            }
        }
    }

    /// Notes that the operator `op` ends the text.
    #[verifier::opaque]
    pub open spec fn record_operator(self, op: Operator) -> State {
        State { prev_op: Some(op), prev_op_end: self.code.len(), ..self }
    }

    #[verifier::opaque]
    pub open spec fn mark_reg_exp_end(self) -> State {
        State { prev_reg_exp_end: self.code.len(), ..self }
    }

    #[verifier::opaque]
    pub open spec fn mark_start_of_stmt(self) -> State {
        State { start_of_stmt: self.code.len(), ..self }
    }

    #[verifier::opaque]
    pub open spec fn mark_start_of_arrow_expr(self) -> State {
        State { start_of_arrow_expr: self.code.len(), ..self }
    }

    #[verifier::opaque]
    pub open spec fn mark_start_of_default_export(self) -> State {
        State { start_of_default_export: self.code.len(), ..self }
    }

    #[verifier::opaque]
    pub open spec fn set_needs_semicolon(self, value: bool) -> State {
        State { needs_semicolon: value, ..self }
    }

    #[verifier::opaque]
    pub open spec fn set_print_next_indent_as_space(self, value: bool) -> State {
        State { print_next_indent_as_space: value, ..self }
    }

    pub open spec fn at_start_of_stmt(self) -> bool {
        self.start_of_stmt == self.code.len()
    }

    pub open spec fn at_start_of_arrow_expr(self) -> bool {
        self.start_of_arrow_expr == self.code.len()
    }

    pub open spec fn at_start_of_default_export(self) -> bool {
        self.start_of_default_export == self.code.len()
    }

    /// Records where the end of the text came from, where a record is made.
    #[verifier::opaque]
    pub open spec fn record(self, position: u32, name: Option<Seq<char>>) -> State {
        match self.sourcemap {
            Some(r) => State {
                sourcemap: Some(
                    Recorded {
                        entries: r.entries.push(mapping_for(self.code, r.source, position, name)),
                        ..r
                    },
                ),
                ..self
            },
            None => self,
        }
    }

    #[verifier::opaque]
    pub open spec fn add_source_mapping(self, span: Span) -> State {
        if span.spec_is_empty() {
            self
        } else {
            self.record(span.start, None)
        }
    }

    #[verifier::opaque]
    pub open spec fn add_source_mapping_end(self, span: Span) -> State {
        if span.spec_is_empty() {
            self
        } else {
            self.record(span.end, None)
        }
    }

    #[verifier::opaque]
    pub open spec fn add_source_mapping_for_name(self, span: Span, name: Seq<char>) -> State {
        match self.sourcemap {
            Some(r) => if span.spec_is_empty() {
                self
            } else {
                self.record(span.start, original_name(r.source, span, name))
            },
            None => self,
        }
    }

    pub open spec fn has_comment(self, start: u32) -> bool {
        self.comments.contains_key(start)
    }

    /// The text of a comment as it stands in the source.
    pub open spec fn comment_text(self, comment: Comment) -> Seq<u8> {
        match self.source {
            Some(source) => comment_source(source, comment.span),
            None => Seq::empty(),
        }
    }

    /// The lines of a block comment: every line but the first is indented anew, and a
    /// line feed follows every line but the last.
    #[verifier::opaque]
    pub open spec fn print_block_comment_lines(self, text: Seq<u8>) -> State
        decreases text.len(),
    {
        if text.len() == 0 {
            self
        } else {
            let line = first_line(text);
            let rest = after_first_line(text);
            if rest.len() < text.len() {
                let s = if has_prefix(line, block_open()) {
                    self
                } else {
                    self.print_indent()
                };
                let s = s.append(
                    escape_script_close_tag(encode_utf8(trimmed_start(decode_utf8(line)))),
                );
                let s = if has_suffix(line, block_close()) {
                    s
                } else {
                    s.print_hard_newline()
                };
                s.print_block_comment_lines(rest)
            } else {
                self
            }
        }
    }

    /// One comment, with `</script` escaped. Without a source text nothing is printed.
    #[verifier::opaque]
    pub open spec fn print_comment(self, comment: Comment) -> State {
        if self.source is None {
            self
        } else if comment.kind is Line {
            self.append(escape_script_close_tag(self.comment_text(comment)))
        } else {
            self.print_block_comment_lines(self.comment_text(comment))
        }
    }

    /// What is printed before, for and behind the comment at `i` of a block of comments.
    #[verifier::opaque]
    pub open spec fn print_comment_of_block(self, comments: Seq<Comment>, i: int) -> State {
        let comment = comments[i];
        let s = if i == 0 {
            if comment.newline_before {
                if self.code.len() == 0 {
                    self
                } else if self.code.last() == 0x0A {
                    self.print_indent()
                } else if self.code.last() == 0x09 {
                    self
                } else {
                    self.print_hard_newline().print_indent()
                }
            } else {
                self.print_indent()
            }
        } else if comment.newline_before {
            self.print_hard_newline().print_indent()
        } else if comment.spec_is_legal() {
            self.print_hard_newline()
        } else {
            self
        };
        let s = s.print_comment(comment);
        if i == comments.len() - 1 {
            if comment.kind is Line || comment.newline_after {
                s.print_hard_newline()
            } else {
                s.set_print_next_indent_as_space(true)
            }
        } else {
            s
        }
    }

    /// The first `n` comments of a block.
    #[verifier::opaque]
    pub open spec fn print_comments_upto(self, comments: Seq<Comment>, n: nat) -> State
        decreases n,
    {
        if n == 0 || n > comments.len() {
            self
        } else {
            self.print_comments_upto(comments, (n - 1) as nat).print_comment_of_block(
                comments,
                n - 1,
            )
        }
    }

    #[verifier::opaque]
    pub open spec fn print_comments(self, comments: Seq<Comment>) -> State {
        self.print_comments_upto(comments, comments.len())
    }

    /// The comments attached to `start`, which are taken out of the store.
    #[verifier::opaque]
    pub open spec fn print_comments_at(self, start: u32) -> State {
        if self.comments.contains_key(start) {
            State { comments: self.comments.remove(start), ..self }.print_comments(
                self.comments[start],
            )
        } else {
            self
        }
    }

    /// The first `n` comments of a block inside an expression: each on a line of its own.
    #[verifier::opaque]
    pub open spec fn print_expr_comments_upto(self, comments: Seq<Comment>, n: nat) -> State
        decreases n,
    {
        if n == 0 || n > comments.len() {
            self
        } else {
            self.print_expr_comments_upto(
                comments,
                (n - 1) as nat,
            ).print_hard_newline().print_indent().print_comment(comments[n - 1])
        }
    }

    /// The comments attached to `start` inside an expression: each on a line of its own,
    /// and a line feed behind the last.
    #[verifier::opaque]
    pub open spec fn print_expr_comments(self, start: u32) -> State {
        if self.comments.contains_key(start) {
            let comments = self.comments[start];
            let s = State {
                comments: self.comments.remove(start),
                ..self
            }.print_expr_comments_upto(comments, comments.len());
            if comments.len() == 0 {
                s
            } else {
                s.print_hard_newline()
            }
        } else {
            self
        }
    }

    /// `print_expr_comments` has printed something.
    pub open spec fn has_expr_comments(self, start: u32) -> bool {
        self.comments.contains_key(start) && self.comments[start].len() > 0
    }

    /// A string literal in the quote that costs the fewest escapes.
    #[verifier::opaque]
    pub open spec fn print_string_literal(self, span: Span, value: Seq<char>) -> State {
        let bytes = encode_utf8(value);
        self.add_source_mapping(span).append(
            quoted_string(bytes, spec_choose_quote(bytes, self.quote)),
        )
    }

    /// The text `chars` with `</script` escaped.
    #[verifier::opaque]
    pub open spec fn print_chars_escaping_script_close_tag(self, chars: Seq<char>) -> State {
        self.append(escape_script_close_tag(encode_utf8(chars)))
    }

    /// The form in which a number that is not negative is printed.
    pub open spec fn number_text(shortest: Seq<char>, integer: Option<u128>) -> Seq<u8> {
        let bytes = encode_utf8(shortest);
        if all_ascii(bytes) {
            spec_minified_number(bytes, integer)
        } else {
            bytes
        }
    }

    /// A number that is not negative, in its shortest form. Where that form is a
    /// run of digits, a `.` that follows has to be kept apart from it.
    #[verifier::opaque]
    pub open spec fn print_non_negative_float(self, shortest: Seq<char>, integer: Option<u128>) -> State {
        let text = Self::number_text(shortest, integer);
        let s = self.append(text);
        if (integer is Some && integer->0 < 1000) || !has_dot_e_or_x(text) {
            State { need_space_before_dot: s.code.len(), ..s }
        } else {
            s
        }
    }

    /// A class is entered: it gets the next number, which goes on top of the stack. A
    /// stack that is full stays as it is.
    #[verifier::opaque]
    pub open spec fn enter_class(self) -> State {
        State {
            class_stack: if self.class_stack.len() < CLASS_STACK_LIMIT {
                self.class_stack.push(self.next_class_id)
            } else {
                self.class_stack
            },
            next_class_id: if self.next_class_id == u32::MAX {
                u32::MAX
            } else {
                (self.next_class_id + 1) as u32
            },
            ..self
        }
    }

    #[verifier::opaque]
    pub open spec fn exit_class(self) -> State {
        if self.class_stack.len() > 0 {
            State { class_stack: self.class_stack.drop_last(), ..self }
        } else {
            self
        }
    }

    /// The name that is printed for a reference: the name of its symbol, where a symbol
    /// table is at hand and has one for it, else its own.
    pub open spec fn reference_name(self, name: Seq<char>, reference_id: Option<u32>) -> Seq<char> {
        match (self.scoping, reference_id) {
            (Some(scoping), Some(id)) => match scoping.spec_reference_name(id) {
                Some(renamed) => renamed,
                None => name,
            },
            _ => name,
        }
    }

    /// The name that is printed for a binding.
    pub open spec fn binding_name(self, name: Seq<char>, symbol_id: Option<u32>) -> Seq<char> {
        match (self.scoping, symbol_id) {
            (Some(scoping), Some(id)) => match scoping.spec_symbol_name(id) {
                Some(renamed) => renamed,
                None => name,
            },
            _ => name,
        }
    }

    /// The name that is printed for a private member: what the innermost class that
    /// mangles it calls it, else its own.
    pub open spec fn private_name(self, name: Seq<char>) -> Seq<char> {
        match self.private_member_mappings {
            Some(mappings) => match mangled_private_name(
                mappings,
                self.class_stack,
                self.class_stack.len(),
                name,
            ) {
                Some(mangled) => mangled,
                None => name,
            },
            None => name,
        }
    }

    /// A reference: a space where one is needed, and the name.
    #[verifier::opaque]
    pub open spec fn emit_identifier_reference(self, ident: crate::ast::IdentifierReference) -> State {
        let name = self.reference_name(ident.name@, ident.reference_id);
        self.print_space_before_identifier().add_source_mapping_for_name(
            ident.span,
            name,
        ).print_chars(name)
    }

    /// A binding: a space where one is needed, and the name.
    #[verifier::opaque]
    pub open spec fn emit_binding_identifier(self, ident: crate::ast::BindingIdentifier) -> State {
        let name = self.binding_name(ident.name@, ident.symbol_id);
        self.print_space_before_identifier().add_source_mapping_for_name(
            ident.span,
            name,
        ).print_chars(name)
    }

    /// A private name: `#` and the name.
    #[verifier::opaque]
    pub open spec fn emit_private_identifier(self, ident: crate::ast::PrivateIdentifier) -> State {
        let s = self.print_ascii_byte(0x23).add_source_mapping_for_name(ident.span, ident.name@);
        s.print_chars(s.private_name(ident.name@))
    }

    /// The state in which the print of a program starts.
    #[verifier::opaque]
    pub open spec fn begin(self, source: Seq<u8>, comments: Seq<Comment>) -> State {
        State {
            quote: if self.options.single_quote {
                Quote::Single
            } else {
                Quote::Double
            },
            source: Some(source),
            indent: self.options.initial_indent,
            comments: built_comments(comments, self.options, comments.len()),
            sourcemap: match self.options.source_map_path {
                Some(path) => Some(Recorded { path: path@, source, entries: Seq::empty() }),
                None => self.sourcemap,
            },
            ..self
        }
    }

    /// What is done with the legal comments at the end of a program.
    #[verifier::opaque]
    pub open spec fn handle_eof_linked_or_external_comments(
        self,
        source: Seq<u8>,
        comments: Seq<Comment>,
    ) -> State {
        let unique = unique_legal_comments(source, comments, comments.len());
        if unique.len() == 0 {
            self
        } else {
            match self.options.comments.legal {
                LegalComment::Eof => self.print_hard_newline().print_eof_comments(
                    unique,
                    unique.len(),
                ),
                LegalComment::Linked(path) => self.print_hard_newline().print_chars(
                    "/*! For license information please see "@,
                ).print_chars(path@).print_chars(" */"@),
                _ => self,
            }
        }
    }

    /// The first `n` of the legal comments that go to the end of the text, a line feed
    /// behind each.
    #[verifier::opaque]
    pub open spec fn print_eof_comments(self, comments: Seq<Comment>, n: nat) -> State
        decreases n,
    {
        if n == 0 || n > comments.len() {
            self
        } else {
            self.print_eof_comments(comments, (n - 1) as nat).print_comment(
                comments[n - 1],
            ).print_hard_newline()
        }
    }

    /// The legal comments that are handed back to the caller at the end of a program.
    pub open spec fn returned_legal_comments(self, source: Seq<u8>, comments: Seq<Comment>) -> Seq<
        Comment,
    > {
        match self.options.comments.legal {
            LegalComment::Linked(_) | LegalComment::External => unique_legal_comments(
                source,
                comments,
                comments.len(),
            ),
            _ => Seq::empty(),
        }
    }
}

/// After `print_space_before_identifier` the text does not end in a character that can
/// stand inside an identifier: a word that is printed next cannot run into a word or a
/// number before it.
pub proof fn lemma_space_before_identifier_separates(s: State)
    ensures
        !s.print_space_before_identifier().ends_in_identifier_part(),
{
    reveal(State::print_space_before_identifier);
    reveal(State::print_hard_space);
    reveal(State::print_ascii_byte);
    reveal(State::append);
    if s.code.len() > 0 && !(s.prev_reg_exp_end != s.code.len() && !s.ends_in_identifier_part()) {
        let after = s.print_space_before_identifier();
        assert(after.code =~= s.code.push(0x20u8));
        assert(after.code.last() == 0x20u8);
    }
}

/// The basic operations that print leave every byte that was printed before where it
/// is and add to the end of the text.
pub proof fn lemma_append_extends(s: State, bytes: Seq<u8>)
    ensures
        s.append(bytes).code.len() == s.code.len() + bytes.len(),
        s.append(bytes).code.subrange(0, s.code.len() as int) == s.code,
{
    reveal(State::append);
    assert(s.append(bytes).code.subrange(0, s.code.len() as int) =~= s.code);
}

} // verus!
