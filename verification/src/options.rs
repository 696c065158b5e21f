//! What a caller can set before printing.

use crate::fast_buffer::{IndentChar, DEFAULT_INDENT_WIDTH};
use vstd::prelude::*;

verus! {

/// What becomes of the legal comments of a program.
#[derive(Clone, Debug)]
pub enum LegalComment {
    /// They are dropped.
    Off,
    /// They stay where they stand.
    Inline,
    /// They move to the end of the text.
    Eof,
    /// They are handed back to the caller, and the text ends in a line that names the
    /// file they go to.
    Linked(String),
    /// They are handed back to the caller.
    External,
}

impl LegalComment {
    pub fn is_off(&self) -> (b: bool)
        ensures
            b == (self is Off),
    {
        matches!(self, LegalComment::Off)
    }

    pub fn is_inline(&self) -> (b: bool)
        ensures
            b == (self is Inline),
    {
        matches!(self, LegalComment::Inline)
    }

    pub fn is_linked(&self) -> (b: bool)
        ensures
            b == (self is Linked),
    {
        matches!(self, LegalComment::Linked(_))
    }

    pub fn is_eof(&self) -> (b: bool)
        ensures
            b == (self is Eof),
    {
        matches!(self, LegalComment::Eof)
    }
}

/// Which comments are printed.
#[derive(Clone, Debug)]
pub struct CommentOptions {
    pub normal: bool,
    pub jsdoc: bool,
    pub annotation: bool,
    pub legal: LegalComment,
}

impl CommentOptions {
    /// No comment is printed.
    pub open spec fn is_disabled(&self) -> bool {
        !self.normal && !self.jsdoc && !self.annotation && self.legal is Off
    }

    pub fn disabled() -> (c: CommentOptions)
        ensures
            c.is_disabled(),
    {
        CommentOptions { normal: false, jsdoc: false, annotation: false, legal: LegalComment::Off }
    }

    pub fn all_disabled(&self) -> (b: bool)
        ensures
            b == self.is_disabled(),
    {
        !self.normal && !self.jsdoc && !self.annotation && self.legal.is_off()
    }
}

impl Default for CommentOptions {
    fn default() -> (c: CommentOptions)
        ensures
            c.normal,
            c.jsdoc,
            c.annotation,
            c.legal is Inline,
    {
        CommentOptions { normal: true, jsdoc: true, annotation: true, legal: LegalComment::Inline }
    }
}

/// The settings of one print.
#[derive(Clone, Debug)]
pub struct CodegenOptions {
    /// Prefer `'` to `"` where both cost the same.
    pub single_quote: bool,
    /// Leave out whitespace that the grammar does not need.
    pub minify: bool,
    pub comments: CommentOptions,
    /// Where the source map is to go; a source map is recorded only where this is set.
    pub source_map_path: Option<String>,
    pub indent_char: IndentChar,
    pub indent_width: usize,
    /// The depth of indentation that the text starts at.
    pub initial_indent: u32,
}

impl CodegenOptions {
    pub open spec fn spec_print_legal_comment(&self) -> bool {
        self.comments.legal is Inline
    }

    /// Settings for the smallest text: no optional whitespace, and only the comments
    /// that a later tool may need.
    pub fn minify() -> (o: CodegenOptions)
        ensures
            o.minify,
            !o.single_quote,
            !o.comments.normal,
            !o.comments.jsdoc,
            !o.comments.annotation,
            o.comments.legal is Off,
            o.source_map_path is None,
            o.indent_char == IndentChar::Tab,
            o.indent_width == DEFAULT_INDENT_WIDTH,
            o.initial_indent == 0,
    {
        CodegenOptions {
            single_quote: false,
            minify: true,
            comments: CommentOptions::disabled(),
            source_map_path: None,
            indent_char: IndentChar::Tab,
            indent_width: DEFAULT_INDENT_WIDTH,
            initial_indent: 0,
        }
    }

    pub fn print_legal_comment(&self) -> (b: bool)
        ensures
            b == self.spec_print_legal_comment(),
    {
        self.comments.legal.is_inline()
    }

    pub fn print_jsdoc_comment(&self) -> (b: bool)
        ensures
            b == self.comments.jsdoc,
    {
        self.comments.jsdoc
    }

    pub fn print_annotation_comment(&self) -> (b: bool)
        ensures
            b == self.comments.annotation,
    {
        self.comments.annotation
    }

    pub fn print_normal_comment(&self) -> (b: bool)
        ensures
            b == self.comments.normal,
    {
        self.comments.normal
    }
}

impl Default for CodegenOptions {
    fn default() -> (o: CodegenOptions)
        ensures
            !o.minify,
            !o.single_quote,
            o.comments.normal,
            o.comments.jsdoc,
            o.comments.annotation,
            o.comments.legal is Inline,
            o.source_map_path is None,
            o.indent_char == IndentChar::Tab,
            o.indent_width == DEFAULT_INDENT_WIDTH,
            o.initial_indent == 0,
    {
        CodegenOptions {
            single_quote: false,
            minify: false,
            comments: CommentOptions::default(),
            source_map_path: None,
            indent_char: IndentChar::Tab,
            indent_width: DEFAULT_INDENT_WIDTH,
            initial_indent: 0,
        }
    }
}

} // verus!
