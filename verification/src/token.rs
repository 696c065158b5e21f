//! A tokenizer for the smallest part of the language: punctuation, names, numbers and
//! strings, with white space and comments left out.

use crate::hot::{
    ident_start, is_ident_continue_ascii, is_ident_start_ascii, lemma_skip_class_bounds,
    lemma_string_end_bounds, skip_class, string_end, ByteClass, Scanner,
};
use vstd::prelude::*;

verus! {

#[derive(Clone, Copy, Debug, PartialEq, Eq, Structural)]
pub enum TokKind {
    Eof,
    Semi,
    LBrace,
    RBrace,
    LParen,
    RParen,
    Comma,
    Assign,
    Plus,
    Minus,
    Star,
    Slash,
    Ident,
    Num,
    Str,
    KwLet,
    Other,
}

/// A token: its kind, and where it starts and ends.
#[derive(Clone, Copy, Debug, PartialEq, Eq, Structural)]
pub struct Tok {
    pub kind: TokKind,
    pub start: u32,
    pub end: u32,
}

/// The kind of the token that a byte is by itself, and `Other` for a byte that is none.
pub open spec fn punct_kind(b: u8) -> TokKind {
    if b == 0x3B {
        TokKind::Semi
    } else if b == 0x7B {
        TokKind::LBrace
    } else if b == 0x7D {
        TokKind::RBrace
    } else if b == 0x28 {
        TokKind::LParen
    } else if b == 0x29 {
        TokKind::RParen
    } else if b == 0x2C {
        TokKind::Comma
    } else if b == 0x2B {
        TokKind::Plus
    } else if b == 0x2D {
        TokKind::Minus
    } else if b == 0x2A {
        TokKind::Star
    } else if b == 0x2F {
        TokKind::Slash
    } else if b == 0x3D {
        TokKind::Assign
    } else {
        TokKind::Other
    }
}

/// The first line feed or carriage return from `i` on, or the end of the text.
pub open spec fn line_end(src: Seq<u8>, i: int) -> int
    decreases src.len() - i,
{
    if 0 <= i < src.len() && src[i] != 0x0A && src[i] != 0x0D {
        line_end(src, i + 1)
    } else {
        i
    }
}

/// The place behind the first `*/` from `i` on, or the end of the text.
pub open spec fn block_comment_end(src: Seq<u8>, i: int) -> int
    decreases src.len() - i,
{
    if i < 0 || i >= src.len() {
        i
    } else if src[i] == 0x2A && i + 1 < src.len() && src[i + 1] == 0x2F {
        i + 2
    } else {
        block_comment_end(src, i + 1)
    }
}

pub proof fn lemma_line_end_bounds(src: Seq<u8>, i: int)
    requires
        0 <= i <= src.len(),
    ensures
        i <= line_end(src, i) <= src.len(),
    decreases src.len() - i,
{
    if i < src.len() && src[i] != 0x0A && src[i] != 0x0D {
        lemma_line_end_bounds(src, i + 1);
    }
}

pub proof fn lemma_block_comment_end_bounds(src: Seq<u8>, i: int)
    requires
        0 <= i <= src.len(),
    ensures
        i <= block_comment_end(src, i) <= src.len(),
    decreases src.len() - i,
{
    if i < src.len() && !(src[i] == 0x2A && i + 1 < src.len() && src[i + 1] == 0x2F) {
        lemma_block_comment_end_bounds(src, i + 1);
    }
}

/// A comment of the kind given by its second byte starts at `i`.
pub open spec fn comment_at(src: Seq<u8>, i: int, second: u8) -> bool {
    0 <= i && i + 1 < src.len() && src[i] == 0x2F && src[i + 1] == second
}

/// The place of the first byte from `i` on that is neither white space nor part of a
/// comment, or the end of the text.
pub open spec fn skip_trivia(src: Seq<u8>, i: int) -> int
    decreases src.len() - i,
{
    if i < 0 || i > src.len() {
        i
    } else {
        let at = skip_class(src, i, ByteClass::Space);
        if at < i || at > src.len() {
            at
        } else if comment_at(src, at, 0x2F) {
            let next = line_end(src, at + 2);
            if at < next <= src.len() {
                skip_trivia(src, next)
            } else {
                at
            }
        } else if comment_at(src, at, 0x2A) {
            let next = block_comment_end(src, at + 2);
            if at < next <= src.len() {
                skip_trivia(src, next)
            } else {
                at
            }
        } else {
            at
        }
    }
}

/// The three bytes `let`.
pub open spec fn let_word() -> Seq<u8> {
    seq![0x6Cu8, 0x65u8, 0x74u8]
}

/// The kind of the token that starts at `at`, a place inside the text, and the place
/// where it ends.
pub open spec fn token_at(src: Seq<u8>, at: int) -> (TokKind, int) {
    let b = src[at];
    if punct_kind(b) != TokKind::Other {
        (punct_kind(b), at + 1)
    } else if b == 0x22 || b == 0x27 {
        (TokKind::Str, string_end(src, at + 1, b))
    } else if 0x30 <= b <= 0x39 {
        (TokKind::Num, skip_class(src, at + 1, ByteClass::DigitOrDot))
    } else if ident_start(b) {
        let end = skip_class(src, at + 1, ByteClass::IdentContinue);
        (
            if src.subrange(at, end) == let_word() {
                TokKind::KwLet
            } else {
                TokKind::Ident
            },
            end,
        )
    } else {
        (TokKind::Other, at + 1)
    }
}

/// A place of the text as a token carries it: its low 32 bits.
pub open spec fn offset(i: int) -> u32 {
    (i as usize) as u32
}

fn offset_of(i: usize) -> (o: u32)
    ensures
        o == offset(i as int),
{
    #[verifier::truncate]
    (i as u32)
}

/// Hands out the tokens of a text one by one.
pub struct Tokenizer<'s> {
    scan: Scanner<'s>,
}

impl<'s> Tokenizer<'s> {
    pub closed spec fn source(&self) -> Seq<u8> {
        self.scan.source()
    }

    pub closed spec fn position(&self) -> nat {
        self.scan.position()
    }

    pub closed spec fn wf(&self) -> bool {
        self.scan.wf() && self.scan.position() <= self.scan.source().len()
    }

    /// A tokenizer that goes on where `scan` stands.
    pub fn new(scan: Scanner<'s>) -> (t: Tokenizer<'s>)
        requires
            scan.wf(),
            scan.position() <= scan.source().len(),
        ensures
            t.wf(),
            t.source() == scan.source(),
            t.position() == scan.position(),
    {
        Tokenizer { scan }
    }

    /// The kind of the token that a byte is by itself.
    pub fn punct_lut(b: u8) -> (kind: TokKind)
        ensures
            kind == punct_kind(b),
    {
        if b == 0x3B {
            TokKind::Semi
        } else if b == 0x7B {
            TokKind::LBrace
        } else if b == 0x7D {
            TokKind::RBrace
        } else if b == 0x28 {
            TokKind::LParen
        } else if b == 0x29 {
            TokKind::RParen
        } else if b == 0x2C {
            TokKind::Comma
        } else if b == 0x2B {
            TokKind::Plus
        } else if b == 0x2D {
            TokKind::Minus
        } else if b == 0x2A {
            TokKind::Star
        } else if b == 0x2F {
            TokKind::Slash
        } else if b == 0x3D {
            TokKind::Assign
        } else {
            TokKind::Other
        }
    }

    /// Moves over white space and comments.
    pub fn skip_ws_and_comments(&mut self)
        requires
            old(self).wf(),
        ensures
            final(self).wf(),
            final(self).source() == old(self).source(),
            final(self).position() == skip_trivia(old(self).source(), old(self).position() as int),
    {
        let ghost src = self.scan.source();
        let n = self.scan.raw().len();
        loop
            invariant
                self.wf(),
                self.scan.source() == src,
                src == old(self).source(),
                n == src.len(),
                skip_trivia(src, self.scan.position() as int) == skip_trivia(
                    src,
                    old(self).position() as int,
                ),
            ensures
                self.wf(),
                self.scan.source() == src,
                self.scan.position() == skip_trivia(src, old(self).position() as int),
            decreases n - self.scan.position(),
        {
            let ghost before = self.scan.position() as int;
            proof {
                lemma_skip_class_bounds(src, before, ByteClass::Space);
            }
            self.scan.skip_ws();
            let at = self.scan.idx();
            let first = self.scan.byte_at(at);
            let second = if at < n {
                self.scan.byte_at(at + 1)
            } else {
                None
            };
            if first == Some(0x2Fu8) && second == Some(0x2Fu8) {
                proof {
                    lemma_line_end_bounds(src, at as int + 2);
                }
                self.scan.advance_by(2);
                while self.scan.idx() < n && self.scan.peek() != 0x0A && self.scan.peek() != 0x0D
                    invariant
                        self.scan.wf(),
                        self.scan.source() == src,
                        n == src.len(),
                        at + 2 <= self.scan.position() <= n,
                        line_end(src, self.scan.position() as int) == line_end(src, at as int + 2),
                    decreases n - self.scan.position(),
                {
                    self.scan.advance_by(1);
                }
                proof {
                    let next = self.scan.position() as int;
                    assert(line_end(src, next) == next);
                    assert(comment_at(src, at as int, 0x2F));
                    assert(skip_trivia(src, before) == skip_trivia(src, next));
                }
                continue ;
            }
            if first == Some(0x2Fu8) && second == Some(0x2Au8) {
                proof {
                    lemma_block_comment_end_bounds(src, at as int + 2);
                }
                self.scan.advance_by(2);
                let mut closed = false;
                while !closed && self.scan.idx() < n
                    invariant
                        self.scan.wf(),
                        self.scan.source() == src,
                        n == src.len(),
                        at + 2 <= self.scan.position() <= n,
                        !closed ==> block_comment_end(src, self.scan.position() as int)
                            == block_comment_end(src, at as int + 2),
                        closed ==> self.scan.position() == block_comment_end(src, at as int + 2),
                    decreases n - self.scan.position() + if closed {
                        0int
                    } else {
                        1int
                    },
                {
                    let i = self.scan.idx();
                    if self.scan.peek() == 0x2A && self.scan.byte_at(i + 1) == Some(0x2Fu8) {
                        self.scan.advance_by(2);
                        closed = true;
                    } else {
                        self.scan.advance_by(1);
                    }
                }
                proof {
                    let next = self.scan.position() as int;
                    if !closed {
                        assert(block_comment_end(src, next) == next);
                    }
                    assert(!comment_at(src, at as int, 0x2F));
                    assert(comment_at(src, at as int, 0x2A));
                    assert(skip_trivia(src, before) == skip_trivia(src, next));
                }
                continue ;
            }
            proof {
                assert(!comment_at(src, at as int, 0x2F));
                assert(!comment_at(src, at as int, 0x2A));
                assert(skip_trivia(src, before) == at);
                assert(skip_trivia(src, at as int) == at);
            }
            break ;
        }
    }

    /// The next token. At the end of the text it is `Eof`, again and again.
    pub fn next(&mut self) -> (tok: Tok)
        requires
            old(self).wf(),
        ensures
            final(self).wf(),
            final(self).source() == old(self).source(),
            ({
                let src = old(self).source();
                let at = skip_trivia(src, old(self).position() as int);
                if at >= src.len() {
                    tok == (Tok { kind: TokKind::Eof, start: offset(at), end: offset(at) })
                        && final(self).position() == at
                } else {
                    tok == (Tok {
                        kind: token_at(src, at).0,
                        start: offset(at),
                        end: offset(token_at(src, at).1),
                    }) && final(self).position() == token_at(src, at).1
                }
            }),
    {
        self.skip_ws_and_comments();
        let ghost src = self.scan.source();
        let at = self.scan.idx();
        let start = offset_of(at);
        if self.scan.is_eof() {
            return Tok { kind: TokKind::Eof, start, end: start };
        }
        let n = self.scan.raw().len();
        let b0 = self.scan.peek();
        let pk = Self::punct_lut(b0);
        proof {
            lemma_skip_class_bounds(src, at as int + 1, ByteClass::DigitOrDot);
            lemma_skip_class_bounds(src, at as int + 1, ByteClass::IdentContinue);
            lemma_string_end_bounds(src, at as int + 1, b0);
        }
        self.scan.advance_by(1);
        let kind = if !matches!(pk, TokKind::Other) {
            pk
        } else if b0 == 0x22 || b0 == 0x27 {
            self.scan.scan_string_simple(b0);
            TokKind::Str
        } else if 0x30 <= b0 && b0 <= 0x39 {
            self.scan.advance_digits_or_dot();
            TokKind::Num
        } else if is_ident_start_ascii(b0) {
            self.scan.advance_ident_continue();
            let word = self.scan.slice_from(at);
            let let_bytes: [u8; 3] = [0x6C, 0x65, 0x74];
            assert(let_bytes@ =~= let_word());
            if crate::text::bytes_eq(word, let_bytes.as_slice()) {
                TokKind::KwLet
            } else {
                TokKind::Ident
            }
        } else {
            TokKind::Other
        };
        Tok { kind, start, end: offset_of(self.scan.idx()) }
    }
}

} // verus!
