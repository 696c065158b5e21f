//! A scanner over the bytes of a source text. It only ever moves forward.

use vstd::prelude::*;
use vstd::slice::slice_subrange;
use vstd::string::StringSliceAdditionalSpecFns;

verus! {

/// The kernels that a scanner can run on.
#[derive(Clone, Copy, Debug, PartialEq, Eq, Structural)]
pub enum Backend {
    Scalar,
    Avx2,
    Avx512,
}

pub open spec fn spec_name(b: Backend) -> &'static str {
    match b {
        Backend::Scalar => "scalar",
        Backend::Avx2 => "avx2",
        Backend::Avx512 => "avx512",
    }
}

/// The name of a backend.
pub fn name(b: Backend) -> (text: &'static str)
    ensures
        text@ == spec_name(b)@,
{
    match b {
        Backend::Scalar => "scalar",
        Backend::Avx2 => "avx2",
        Backend::Avx512 => "avx512",
    }
}

/// The backend that a setting names: `scalar`, `avx2`, and `avx512` or `avx-512`, in
/// any case of their letters. Any other setting names none.
pub open spec fn spec_backend_named(lower: Seq<u8>) -> Option<Backend> {
    if lower == seq![0x73u8, 0x63u8, 0x61u8, 0x6Cu8, 0x61u8, 0x72u8] {
        Some(Backend::Scalar)
    } else if lower == seq![0x61u8, 0x76u8, 0x78u8, 0x32u8] {
        Some(Backend::Avx2)
    } else if lower == seq![0x61u8, 0x76u8, 0x78u8, 0x35u8, 0x31u8, 0x32u8] || lower == seq![
        0x61u8,
        0x76u8,
        0x78u8,
        0x2Du8,
        0x35u8,
        0x31u8,
        0x32u8,
    ] {
        Some(Backend::Avx512)
    } else {
        None
    }
}

/// The backend that is used: the one that `setting` names, where it names one, else the
/// best that the machine has.
pub fn choose_backend(setting: Option<&str>, has_avx512: bool, has_avx2: bool) -> (b: Backend)
    ensures
        b == (match setting {
            Some(s) if spec_backend_named(lowered(s.spec_bytes())) is Some => spec_backend_named(
                lowered(s.spec_bytes()),
            )->0,
            _ => if has_avx512 {
                Backend::Avx512
            } else if has_avx2 {
                Backend::Avx2
            } else {
                Backend::Scalar
            },
        }),
{
    match setting {
        Some(s) => {
            let bytes = s.as_bytes();
            let mut lower: Vec<u8> = Vec::new();
            let mut i: usize = 0;
            while i < bytes.len()
                invariant
                    i <= bytes.len(),
                    lower@ == lowered(bytes@).subrange(0, i as int),
                    lowered(bytes@).len() == bytes@.len(),
                decreases bytes.len() - i,
            {
                lower.push(crate::text::ascii_lower(bytes[i]));
                assert(lowered(bytes@).subrange(0, i as int + 1) =~= lowered(bytes@).subrange(
                    0,
                    i as int,
                ).push(lowered(bytes@)[i as int]));
                i += 1;
            }
            assert(lower@ =~= lowered(bytes@));
            let scalar: [u8; 6] = [0x73, 0x63, 0x61, 0x6C, 0x61, 0x72];
            let avx2: [u8; 4] = [0x61, 0x76, 0x78, 0x32];
            let avx512: [u8; 6] = [0x61, 0x76, 0x78, 0x35, 0x31, 0x32];
            let avx_512: [u8; 7] = [0x61, 0x76, 0x78, 0x2D, 0x35, 0x31, 0x32];
            assert(scalar@ =~= seq![0x73u8, 0x63u8, 0x61u8, 0x6Cu8, 0x61u8, 0x72u8]);
            assert(avx2@ =~= seq![0x61u8, 0x76u8, 0x78u8, 0x32u8]);
            assert(avx512@ =~= seq![0x61u8, 0x76u8, 0x78u8, 0x35u8, 0x31u8, 0x32u8]);
            assert(avx_512@ =~= seq![0x61u8, 0x76u8, 0x78u8, 0x2Du8, 0x35u8, 0x31u8, 0x32u8]);
            if crate::text::bytes_eq(lower.as_slice(), scalar.as_slice()) {
                return Backend::Scalar;
            }
            if crate::text::bytes_eq(lower.as_slice(), avx2.as_slice()) {
                return Backend::Avx2;
            }
            if crate::text::bytes_eq(lower.as_slice(), avx512.as_slice()) || crate::text::bytes_eq(
                lower.as_slice(),
                avx_512.as_slice(),
            ) {
                return Backend::Avx512;
            }
        },
        None => {},
    }
    if has_avx512 {
        Backend::Avx512
    } else if has_avx2 {
        Backend::Avx2
    } else {
        Backend::Scalar
    }
}

/// `bytes` with every ASCII capital turned into its small letter.
pub open spec fn lowered(bytes: Seq<u8>) -> Seq<u8> {
    Seq::new(bytes.len(), |i: int| crate::text::spec_ascii_lower(bytes[i]))
}

/// How far ahead the kernels fetch: what `setting` says, 512 at most, and 128 where it
/// says nothing that can be read as a number.
pub open spec fn spec_prefetch_distance(setting: Option<usize>) -> usize {
    match setting {
        Some(n) => if n > 512 {
            512
        } else {
            n
        },
        None => 128,
    }
}

pub fn prefetch_distance(setting: Option<usize>) -> (n: usize)
    ensures
        n == spec_prefetch_distance(setting),
{
    match setting {
        Some(n) => if n > 512 {
            512
        } else {
            n
        },
        None => 128,
    }
}

/// Whether the vector kernel for white space is used where nothing is set: this library
/// has the scalar kernel only, so it never is.
pub fn ws_default_enabled() -> (enabled: bool)
    ensures
        !enabled,
{
    false
}

pub open spec fn is_space(b: u8) -> bool {
    b == 0x20 || b == 0x09 || b == 0x0A || b == 0x0D
}

/// Number of white space bytes among the first `n` bytes of `src`.
pub open spec fn count_spaces(src: Seq<u8>, n: int) -> nat
    decreases n,
{
    if n <= 0 || n > src.len() {
        0
    } else {
        count_spaces(src, n - 1) + if is_space(src[n - 1]) {
            1nat
        } else {
            0nat
        }
    }
}

/// How far ahead to fetch in a text, judged by its first 8192 bytes: 96 where fewer
/// than a tenth of them are white space, else 128; and 128 for an empty text.
pub open spec fn spec_heuristic_prefetch(src: Seq<u8>) -> usize {
    let n = if src.len() < 8192 {
        src.len() as int
    } else {
        8192
    };
    if n == 0 {
        128
    } else if count_spaces(src, n) * 10 < n {
        96
    } else {
        128
    }
}

pub fn heuristic_prefetch(src: &[u8]) -> (distance: usize)
    ensures
        distance == spec_heuristic_prefetch(src@),
{
    let n: usize = if src.len() < 8192 {
        src.len()
    } else {
        8192
    };
    if n == 0 {
        return 128;
    }
    let mut ws: usize = 0;
    let mut i: usize = 0;
    while i < n
        invariant
            i <= n <= src@.len(),
            n <= 8192,
            ws == count_spaces(src@, i as int),
            ws <= i,
        decreases n - i,
    {
        let b = src[i];
        if b == 0x20 || b == 0x09 || b == 0x0A || b == 0x0D {
            ws += 1;
        }
        i += 1;
    }
    if ws * 10 < n {
        96
    } else {
        128
    }
}

/// Remembers how far a scanner has come, so that it can be held to moving forward.
#[derive(Clone, Copy, Debug)]
pub struct SpobShadow {
    pub last_advanced: usize,
}

impl SpobShadow {
    /// Notes that the scanner has come to `idx`, which is not behind where it was.
    pub fn advance_to(&mut self, idx: usize)
        requires
            idx >= old(self).last_advanced,
        ensures
            final(self).last_advanced == idx,
    {
        self.last_advanced = idx;
    }
}

impl Default for SpobShadow {
    fn default() -> (s: SpobShadow)
        ensures
            s.last_advanced == 0,
    {
        SpobShadow { last_advanced: 0 }
    }
}

pub open spec fn ident_start(b: u8) -> bool {
    (0x41 <= b <= 0x5A) || (0x61 <= b <= 0x7A) || b == 0x5F || b == 0x24
}

pub open spec fn ident_continue(b: u8) -> bool {
    ident_start(b) || (0x30 <= b <= 0x39)
}

/// The byte can start an identifier: an ASCII letter, `_` or `$`.
pub fn is_ident_start_ascii(b: u8) -> (r: bool)
    ensures
        r == ident_start(b),
{
    (0x41 <= b && b <= 0x5A) || (0x61 <= b && b <= 0x7A) || b == 0x5F || b == 0x24
}

/// The byte can stand inside an identifier: it can start one, or is an ASCII digit.
pub fn is_ident_continue_ascii(b: u8) -> (r: bool)
    ensures
        r == ident_continue(b),
{
    is_ident_start_ascii(b) || (0x30 <= b && b <= 0x39)
}

/// A class of bytes that the scanner runs over.
pub enum ByteClass {
    /// Space, tab, line feed and carriage return.
    Space,
    /// The ASCII digits and the `.`.
    DigitOrDot,
    /// What can stand inside an identifier.
    IdentContinue,
}

pub open spec fn in_class(class: ByteClass, b: u8) -> bool {
    match class {
        ByteClass::Space => is_space(b),
        ByteClass::DigitOrDot => (0x30 <= b <= 0x39) || b == 0x2E,
        ByteClass::IdentContinue => ident_continue(b),
    }
}

/// The first place from `i` on where a byte outside the class stands, or the end of the
/// text. A place behind the end stays where it is.
pub open spec fn skip_class(src: Seq<u8>, i: int, class: ByteClass) -> int
    decreases src.len() - i,
{
    if 0 <= i < src.len() && in_class(class, src[i]) {
        skip_class(src, i + 1, class)
    } else {
        i
    }
}

pub proof fn lemma_skip_class_bounds(src: Seq<u8>, i: int, class: ByteClass)
    requires
        0 <= i,
    ensures
        i <= skip_class(src, i, class),
        i <= src.len() ==> skip_class(src, i, class) <= src.len(),
        skip_class(src, skip_class(src, i, class), class) == skip_class(src, i, class),
    decreases src.len() - i,
{
    if i < src.len() && in_class(class, src[i]) {
        lemma_skip_class_bounds(src, i + 1, class);
    }
}

/// Where a scan of a quoted string that starts behind its opening quote at `i` ends:
/// behind the closing quote, or at the end of the text. A backslash takes the byte
/// behind it with it.
pub open spec fn string_end(src: Seq<u8>, i: int, quote: u8) -> int
    decreases src.len() - i,
{
    if i < 0 || i >= src.len() {
        i
    } else if src[i] == quote {
        i + 1
    } else if src[i] == 0x5C {
        if i + 1 < src.len() {
            string_end(src, i + 2, quote)
        } else {
            i + 1
        }
    } else {
        string_end(src, i + 1, quote)
    }
}

pub proof fn lemma_string_end_bounds(src: Seq<u8>, i: int, quote: u8)
    requires
        0 <= i,
    ensures
        i <= string_end(src, i, quote),
        i <= src.len() ==> string_end(src, i, quote) <= src.len(),
    decreases src.len() - i,
{
    if i < src.len() {
        if src[i] == quote {
        } else if src[i] == 0x5C {
            if i + 1 < src.len() {
                lemma_string_end_bounds(src, i + 2, quote);
            }
        } else {
            lemma_string_end_bounds(src, i + 1, quote);
        }
    }
}

/// The keyword `kw` stands at `i` and no byte of an identifier follows it.
pub open spec fn keyword_at(src: Seq<u8>, i: int, kw: Seq<u8>) -> bool {
    &&& 0 <= i
    &&& i + kw.len() <= src.len()
    &&& src.subrange(i, i + kw.len()) == kw
    &&& !(i + kw.len() < src.len() && ident_continue(src[i + kw.len()]))
}

/// A scanner over the bytes of a text.
pub struct Scanner<'s> {
    src: &'s [u8],
    idx: usize,
    shadow: SpobShadow,
    backend: Backend,
}

impl<'s> Scanner<'s> {
    /// The text that is scanned.
    pub closed spec fn source(&self) -> Seq<u8> {
        self.src@
    }

    /// The place that the scanner stands at.
    pub closed spec fn position(&self) -> nat {
        self.idx as nat
    }

    /// The backend that the scanner notes.
    pub closed spec fn kernel(&self) -> Backend {
        self.backend
    }

    /// The scanner remembers the place it stands at.
    pub closed spec fn wf(&self) -> bool {
        self.shadow.last_advanced == self.idx
    }

    /// A scanner at the start of `src`, on the scalar kernel.
    pub fn new(src: &'s [u8]) -> (s: Scanner<'s>)
        ensures
            s.wf(),
            s.source() == src@,
            s.position() == 0,
            s.kernel() == Backend::Scalar,
    {
        Scanner { src, idx: 0, shadow: SpobShadow { last_advanced: 0 }, backend: Backend::Scalar }
    }

    /// A scanner at the start of `src` that notes the backend given.
    pub fn with_backend(src: &'s [u8], backend: Backend) -> (s: Scanner<'s>)
        ensures
            s.wf(),
            s.source() == src@,
            s.position() == 0,
            s.kernel() == backend,
    {
        Scanner { src, idx: 0, shadow: SpobShadow { last_advanced: 0 }, backend }
    }

    pub fn backend(&self) -> (b: Backend)
        ensures
            b == self.kernel(),
    {
        self.backend
    }

    pub fn idx(&self) -> (i: usize)
        ensures
            i == self.position(),
    {
        self.idx
    }

    /// The scanner stands at or behind the end of the text.
    pub fn is_eof(&self) -> (b: bool)
        ensures
            b == (self.position() >= self.source().len()),
    {
        self.idx >= self.src.len()
    }

    /// The byte at the place of the scanner, and 0 at the end of the text.
    pub fn peek(&self) -> (b: u8)
        ensures
            b == (if self.position() < self.source().len() {
                self.source()[self.position() as int]
            } else {
                0u8
            }),
    {
        if self.idx < self.src.len() {
            self.src[self.idx]
        } else {
            0
        }
    }

    /// Takes the byte at the place of the scanner, where there is one.
    pub fn bump(&mut self) -> (b: Option<u8>)
        requires
            old(self).wf(),
        ensures
            final(self).wf(),
            final(self).source() == old(self).source(),
            final(self).kernel() == old(self).kernel(),
            match b {
                Some(byte) => old(self).position() < old(self).source().len() && byte == old(
                    self,
                ).source()[old(self).position() as int] && final(self).position() == old(self).position()
                    + 1,
                None => old(self).position() >= old(self).source().len() && final(self).position()
                    == old(self).position(),
            },
    {
        if self.idx < self.src.len() {
            let b = self.src[self.idx];
            self.idx = self.idx + 1;
            self.shadow.advance_to(self.idx);
            Some(b)
        } else {
            None
        }
    }

    /// The bytes from `start` up to the place of the scanner.
    pub fn slice_from(&self, start: usize) -> (bytes: &'s [u8])
        requires
            start <= self.position() <= self.source().len(),
        ensures
            bytes@ == self.source().subrange(start as int, self.position() as int),
    {
        slice_subrange(self.src, start, self.idx)
    }

    /// The byte at `i`, where the text has one there.
    pub fn byte_at(&self, i: usize) -> (b: Option<u8>)
        ensures
            b == (if i < self.source().len() {
                Some(self.source()[i as int])
            } else {
                None
            }),
    {
        if i < self.src.len() {
            Some(self.src[i])
        } else {
            None
        }
    }

    /// The whole text.
    pub fn raw(&self) -> (bytes: &'s [u8])
        ensures
            bytes@ == self.source(),
    {
        self.src
    }

    /// Moves forward by `n` bytes.
    pub fn advance_by(&mut self, n: usize)
        requires
            old(self).wf(),
            old(self).position() + n <= usize::MAX,
        ensures
            final(self).wf(),
            final(self).source() == old(self).source(),
            final(self).kernel() == old(self).kernel(),
            final(self).position() == old(self).position() + n,
    {
        self.idx = self.idx + n;
        self.shadow.advance_to(self.idx);
    }

    /// Moves over the bytes of a class.
    fn advance_while(&mut self, class: ByteClass)
        requires
            old(self).wf(),
        ensures
            final(self).wf(),
            final(self).source() == old(self).source(),
            final(self).kernel() == old(self).kernel(),
            final(self).position() == skip_class(
                old(self).source(),
                old(self).position() as int,
                class,
            ),
    {
        let n = self.src.len();
        while self.idx < n && byte_in_class(&class, self.src[self.idx])
            invariant
                self.wf(),
                n == self.src@.len(),
                self.src == old(self).src,
                self.backend == old(self).backend,
                skip_class(self.src@, self.idx as int, class) == skip_class(
                    old(self).src@,
                    old(self).idx as int,
                    class,
                ),
            decreases n - self.idx,
        {
            self.idx = self.idx + 1;
            self.shadow.advance_to(self.idx);
        }
    }

    /// Moves over space, tab, line feed and carriage return.
    pub fn skip_ws(&mut self)
        requires
            old(self).wf(),
        ensures
            final(self).wf(),
            final(self).source() == old(self).source(),
            final(self).kernel() == old(self).kernel(),
            final(self).position() == skip_class(
                old(self).source(),
                old(self).position() as int,
                ByteClass::Space,
            ),
    {
        self.advance_while(ByteClass::Space);
    }

    /// Moves over ASCII digits and `.`.
    pub fn advance_digits_or_dot(&mut self)
        requires
            old(self).wf(),
        ensures
            final(self).wf(),
            final(self).source() == old(self).source(),
            final(self).kernel() == old(self).kernel(),
            final(self).position() == skip_class(
                old(self).source(),
                old(self).position() as int,
                ByteClass::DigitOrDot,
            ),
    {
        self.advance_while(ByteClass::DigitOrDot);
    }

    /// Moves over what can stand inside an identifier.
    pub fn advance_ident_continue(&mut self)
        requires
            old(self).wf(),
        ensures
            final(self).wf(),
            final(self).source() == old(self).source(),
            final(self).kernel() == old(self).kernel(),
            final(self).position() == skip_class(
                old(self).source(),
                old(self).position() as int,
                ByteClass::IdentContinue,
            ),
    {
        self.advance_while(ByteClass::IdentContinue);
    }

    /// Takes the keyword `kw` where it stands at the place of the scanner and no byte of
    /// an identifier follows it.
    pub fn eat_kw(&mut self, kw: &[u8]) -> (eaten: bool)
        requires
            old(self).wf(),
        ensures
            final(self).wf(),
            final(self).source() == old(self).source(),
            final(self).kernel() == old(self).kernel(),
            eaten == keyword_at(old(self).source(), old(self).position() as int, kw@),
            final(self).position() == (if eaten {
                old(self).position() + kw@.len()
            } else {
                old(self).position()
            }),
    {
        let n = self.src.len();
        if self.idx > n || kw.len() > n - self.idx {
            return false;
        }
        let end = self.idx + kw.len();
        if !crate::text::bytes_eq(slice_subrange(self.src, self.idx, end), kw) {
            return false;
        }
        if end < n && is_ident_continue_ascii(self.src[end]) {
            return false;
        }
        self.idx = end;
        self.shadow.advance_to(self.idx);
        true
    }

    /// Moves to the end of a quoted string whose opening quote lies behind the scanner.
    pub fn scan_string_simple(&mut self, quote: u8)
        requires
            old(self).wf(),
        ensures
            final(self).wf(),
            final(self).source() == old(self).source(),
            final(self).kernel() == old(self).kernel(),
            final(self).position() == string_end(
                old(self).source(),
                old(self).position() as int,
                quote,
            ),
    {
        let n = self.src.len();
        while self.idx < n
            invariant
                self.wf(),
                n == self.src@.len(),
                self.src == old(self).src,
                self.backend == old(self).backend,
                string_end(self.src@, self.idx as int, quote) == string_end(
                    old(self).src@,
                    old(self).idx as int,
                    quote,
                ),
            decreases n - self.idx,
        {
            let c = self.src[self.idx];
            self.idx = self.idx + 1;
            self.shadow.advance_to(self.idx);
            if c == quote {
                return ;
            }
            if c == 0x5C {
                if self.idx < n {
                    self.idx = self.idx + 1;
                    self.shadow.advance_to(self.idx);
                } else {
                    return ;
                }
            }
        }
    }
}

fn byte_in_class(class: &ByteClass, b: u8) -> (r: bool)
    ensures
        r == in_class(*class, b),
{
    match class {
        ByteClass::Space => b == 0x20 || b == 0x09 || b == 0x0A || b == 0x0D,
        ByteClass::DigitOrDot => (0x30 <= b && b <= 0x39) || b == 0x2E,
        ByteClass::IdentContinue => is_ident_continue_ascii(b),
    }
}

} // verus!
