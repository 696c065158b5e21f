//! The append-only text buffer that the printer writes into.

use crate::utf8::{decode_last_char, last_char_of, lemma_last_char_of_valid};
use vstd::prelude::*;
use vstd::string::StringSliceAdditionalSpecFns;
use vstd::utf8::*;

verus! {

/// Smallest capacity that the buffer ever asks for.
pub const MIN_CAPACITY: usize = 64;

/// Width of one indentation step where none is given.
pub const DEFAULT_INDENT_WIDTH: usize = 1;

/// Number of bytes that one write of indentation holds at most.
pub const INDENT_CHUNK: usize = 32;

/// The character that indentation is made of.
#[derive(Clone, Copy, Debug, PartialEq, Eq, Structural)]
pub enum IndentChar {
    Tab,
    Space,
}

impl IndentChar {
    pub open spec fn spec_byte(self) -> u8 {
        match self {
            IndentChar::Tab => 0x09,
            IndentChar::Space => 0x20,
        }
    }

    /// The byte that stands for this character in the output.
    pub fn byte(self) -> (b: u8)
        ensures
            b == self.spec_byte(),
    {
        match self {
            IndentChar::Tab => 0x09,
            IndentChar::Space => 0x20,
        }
    }
}

impl Default for IndentChar {
    fn default() -> (c: IndentChar)
        ensures
            c == IndentChar::Tab,
    {
        IndentChar::Tab
    }
}

/// Counters that a buffer keeps while tracing is switched on.
#[derive(Clone, Copy, Debug, PartialEq, Eq, Structural)]
pub struct BufferMetrics {
    pub reallocations: usize,
    pub writes: usize,
    pub written_bytes: usize,
}

pub open spec fn saturating_add(a: usize, b: nat) -> usize {
    if a + b > usize::MAX {
        usize::MAX
    } else {
        (a + b) as usize
    }
}

impl BufferMetrics {
    pub fn reallocations(&self) -> (n: usize)
        ensures
            n == self.reallocations,
    {
        self.reallocations
    }

    pub fn writes(&self) -> (n: usize)
        ensures
            n == self.writes,
    {
        self.writes
    }

    pub fn written_bytes(&self) -> (n: usize)
        ensures
            n == self.written_bytes,
    {
        self.written_bytes
    }

    pub open spec fn zero() -> BufferMetrics {
        BufferMetrics { reallocations: 0, writes: 0, written_bytes: 0 }
    }

    /// The counters after one write of `n` bytes; `grew` says that the write made the
    /// buffer ask for more room. Each counter stops at `usize::MAX`.
    pub open spec fn after_write(self, n: nat, grew: bool) -> BufferMetrics {
        BufferMetrics {
            reallocations: saturating_add(
                self.reallocations,
                if grew {
                    1
                } else {
                    0
                },
            ),
            writes: saturating_add(self.writes, 1),
            written_bytes: saturating_add(self.written_bytes, n),
        }
    }
}

/// The first of `from`, `2 * from`, `4 * from`, ... that is at least `required`, and
/// `usize::MAX` where that would not fit.
pub open spec fn grow_from(required: nat, from: nat) -> nat
    decreases
            (if from < required {
                required - from
            } else {
                0
            }),
{
    if from >= required || from == 0 {
        from
    } else if from > usize::MAX / 2 {
        usize::MAX as nat
    } else {
        grow_from(required, 2 * from)
    }
}

/// The capacity asked for when `required` bytes have to fit: the next power of two, and
/// 64 at least.
pub open spec fn grow_target(required: nat) -> nat {
    grow_from(required, MIN_CAPACITY as nat)
}

pub proof fn lemma_grow_from_bounds(required: nat, from: nat)
    requires
        0 < from <= usize::MAX,
        required <= usize::MAX,
    ensures
        required <= grow_from(required, from) <= usize::MAX,
        from <= grow_from(required, from),
    decreases
            (if from < required {
                required - from
            } else {
                0
            }),
{
    if from >= required {
    } else if from > usize::MAX / 2 {
    } else {
        lemma_grow_from_bounds(required, from + from);
    }
}

/// `grow_target` as the buffer computes it.
pub fn align_capacity(required: usize) -> (target: usize)
    ensures
        target == grow_target(required as nat),
        target >= required,
        target >= MIN_CAPACITY,
{
    let mut p: usize = MIN_CAPACITY;
    proof {
        lemma_grow_from_bounds(required as nat, MIN_CAPACITY as nat);
    }
    while p < required
        invariant
            0 < p,
            grow_from(required as nat, p as nat) == grow_target(required as nat),
        decreases usize::MAX - p,
    {
        if p > usize::MAX / 2 {
            return usize::MAX;
        }
        p = p * 2;
    }
    p
}

/// `n` copies of `byte`.
pub open spec fn repeated(byte: u8, n: nat) -> Seq<u8> {
    Seq::new(n, |i: int| byte)
}

/// What a buffer is to its callers: its bytes, the room it has asked for, and its
/// settings and counters.
pub struct BufferModel {
    pub bytes: Seq<u8>,
    pub capacity: nat,
    pub indent_char: IndentChar,
    pub indent_width: nat,
    pub trace: bool,
    pub metrics: BufferMetrics,
}

impl BufferModel {
    pub open spec fn empty(indent_char: IndentChar, indent_width: nat) -> BufferModel {
        BufferModel {
            bytes: Seq::empty(),
            capacity: 0,
            indent_char,
            indent_width,
            trace: false,
            metrics: BufferMetrics::zero(),
        }
    }

    /// One write: the bytes are appended; a write that does not fit into the capacity
    /// raises it to `grow_target`; the counters move while tracing. An empty write
    /// changes nothing.
    pub open spec fn write(self, bytes: Seq<u8>) -> BufferModel {
        if bytes.len() == 0 {
            self
        } else {
            let new_len = self.bytes.len() + bytes.len();
            let grows = new_len > self.capacity;
            BufferModel {
                bytes: self.bytes + bytes,
                capacity: if grows {
                    grow_target(new_len)
                } else {
                    self.capacity
                },
                metrics: if self.trace {
                    self.metrics.after_write(bytes.len(), grows)
                } else {
                    self.metrics
                },
                ..self
            }
        }
    }

    /// A write never takes anything back: neither the length nor the capacity gets
    /// smaller.
    pub proof fn lemma_write_never_shrinks(self, bytes: Seq<u8>)
        requires
            self.bytes.len() + bytes.len() <= usize::MAX,
        ensures
            self.bytes.len() <= self.write(bytes).bytes.len(),
            self.capacity <= self.write(bytes).capacity,
    {
        if bytes.len() > 0 {
            lemma_grow_from_bounds(self.bytes.len() + bytes.len(), MIN_CAPACITY as nat);
        }
    }

    /// `count` indentation bytes, written in chunks of at most 32.
    pub open spec fn write_repeated(self, byte: u8, count: nat) -> BufferModel
        decreases count,
    {
        if count >= INDENT_CHUNK {
            self.write(repeated(byte, INDENT_CHUNK as nat)).write_repeated(
                byte,
                (count - INDENT_CHUNK) as nat,
            )
        } else {
            self.write(repeated(byte, count))
        }
    }

    /// Indentation for `depth` levels.
    pub open spec fn print_indent(self, depth: nat) -> BufferModel {
        self.write_repeated(self.indent_char.spec_byte(), self.indent_width * depth)
    }

    pub proof fn lemma_write_repeated(self, byte: u8, count: nat)
        ensures
            self.write_repeated(byte, count).bytes == self.bytes + repeated(byte, count),
            self.write_repeated(byte, count).indent_char == self.indent_char,
            self.write_repeated(byte, count).indent_width == self.indent_width,
            self.write_repeated(byte, count).trace == self.trace,
        decreases count,
    {
        if count >= INDENT_CHUNK {
            let next = self.write(repeated(byte, INDENT_CHUNK as nat));
            next.lemma_write_repeated(byte, (count - INDENT_CHUNK) as nat);
            assert(self.bytes + repeated(byte, count) =~= next.bytes + repeated(
                byte,
                (count - INDENT_CHUNK) as nat,
            ));
        } else {
            assert(self.write(repeated(byte, count)).bytes =~= self.bytes + repeated(byte, count));
        }
    }
}

pub proof fn lemma_repeated_ascii_valid(byte: u8, n: nat)
    requires
        byte < 0x80,
    ensures
        valid_utf8(repeated(byte, n)),
    decreases n,
{
    let s = repeated(byte, n);
    if n > 0 {
        assert(pop_first_scalar(s) =~= repeated(byte, (n - 1) as nat));
        lemma_repeated_ascii_valid(byte, (n - 1) as nat);
        assert(codepoint_width_1(byte) < 0x80) by (bit_vector)
            requires
                byte < 0x80,
        ;
    }
}

pub proof fn lemma_single_ascii_valid(byte: u8)
    requires
        byte < 0x80,
    ensures
        valid_utf8(seq![byte]),
{
    assert(seq![byte] =~= repeated(byte, 1));
    lemma_repeated_ascii_valid(byte, 1);
}

/// `String::from_utf8` of std: the string that the bytes encode, and `None` exactly
/// where they are no well-formed UTF-8.
#[verifier::external_body]
fn string_from_utf8(bytes: Vec<u8>) -> (s: Option<String>)
    ensures
        valid_utf8(bytes@) ==> s is Some && s->0@ == decode_utf8(bytes@),
        !valid_utf8(bytes@) ==> s is None,
{
    match String::from_utf8(bytes) {
        Ok(s) => Some(s),
        Err(_) => None,
    }
}

/// `String::from` of std for a character: the string that holds this one character.
#[verifier::external_body]
fn string_of_char(ch: char) -> (s: String)
    ensures
        s@ == seq![ch],
{
    String::from(ch)
}

/// A growable buffer of UTF-8 text to which bytes are only ever appended.
pub struct FastBuffer {
    buf: Vec<u8>,
    capacity: usize,
    indent_char: IndentChar,
    indent_width: usize,
    trace_metrics: bool,
    metrics: BufferMetrics,
}

impl View for FastBuffer {
    type V = Seq<u8>;

    closed spec fn view(&self) -> Seq<u8> {
        self.buf@
    }
}

impl FastBuffer {
    pub closed spec fn model(&self) -> BufferModel {
        BufferModel {
            bytes: self.buf@,
            capacity: self.capacity as nat,
            indent_char: self.indent_char,
            indent_width: self.indent_width as nat,
            trace: self.trace_metrics,
            metrics: self.metrics,
        }
    }

    /// The buffer holds well-formed UTF-8.
    pub closed spec fn wf(&self) -> bool {
        valid_utf8(self.buf@)
    }

    pub proof fn lemma_view_is_model_bytes(&self)
        ensures
            self@ == self.model().bytes,
    {
    }

    /// The bytes of a well-formed buffer are well-formed UTF-8.
    pub proof fn lemma_wf_valid_utf8(&self)
        requires
            self.wf(),
        ensures
            valid_utf8(self@),
    {
    }

    pub fn new() -> (b: FastBuffer)
        ensures
            b.wf(),
            b.model() == BufferModel::empty(IndentChar::Tab, DEFAULT_INDENT_WIDTH as nat),
            b@ == Seq::<u8>::empty(),
    {
        FastBuffer {
            buf: Vec::new(),
            capacity: 0,
            indent_char: IndentChar::Tab,
            indent_width: DEFAULT_INDENT_WIDTH,
            trace_metrics: false,
            metrics: BufferMetrics { reallocations: 0, writes: 0, written_bytes: 0 },
        }
    }

    pub fn with_indent(indent_char: IndentChar, indent_width: usize) -> (b: FastBuffer)
        ensures
            b.wf(),
            b.model() == BufferModel::empty(indent_char, indent_width as nat),
            b@ == Seq::<u8>::empty(),
    {
        FastBuffer {
            buf: Vec::new(),
            capacity: 0,
            indent_char,
            indent_width,
            trace_metrics: false,
            metrics: BufferMetrics { reallocations: 0, writes: 0, written_bytes: 0 },
        }
    }

    /// Starts a new text: the buffer is emptied, takes the settings given, and asks for
    /// room for `capacity` bytes, 64 at least.
    pub fn start_emission(
        &mut self,
        capacity: usize,
        indent_char: IndentChar,
        indent_width: usize,
        trace_metrics: bool,
    )
        ensures
            final(self).wf(),
            final(self)@ == Seq::<u8>::empty(),
            final(self).model() == (BufferModel {
                bytes: Seq::empty(),
                capacity: if capacity < MIN_CAPACITY {
                    MIN_CAPACITY as nat
                } else {
                    capacity as nat
                },
                indent_char,
                indent_width: indent_width as nat,
                trace: trace_metrics,
                metrics: BufferMetrics::zero(),
            }),
    {
        let wanted = if capacity < MIN_CAPACITY {
            MIN_CAPACITY
        } else {
            capacity
        };
        self.buf = Vec::with_capacity(wanted);
        self.capacity = wanted;
        self.indent_char = indent_char;
        self.indent_width = indent_width;
        self.trace_metrics = trace_metrics;
        self.metrics = BufferMetrics { reallocations: 0, writes: 0, written_bytes: 0 };
    }

    /// Asks for room for `additional` more bytes than the buffer holds, as one growth
    /// step: nothing is written and nothing is counted. The length asked for has to be
    /// one that a buffer can have.
    pub fn reserve(&mut self, additional: usize)
        requires
            old(self).wf(),
            old(self)@.len() + additional <= usize::MAX,
        ensures
            final(self).wf(),
            final(self)@ == old(self)@,
            final(self).model() == (BufferModel {
                capacity: if old(self)@.len() + additional > old(self).model().capacity {
                    grow_target((old(self)@.len() + additional) as nat)
                } else {
                    old(self).model().capacity
                },
                ..old(self).model()
            }),
            final(self).model().capacity >= old(self)@.len() + additional,
            final(self).model().capacity >= old(self).model().capacity,
    {
        let len = self.buf.len();
        let required = len + additional;
        if required > self.capacity {
            proof {
                lemma_grow_from_bounds(required as nat, MIN_CAPACITY as nat);
            }
            let target = align_capacity(required);
            self.buf.reserve(target - len);
            self.capacity = target;
        }
    }

    pub fn len(&self) -> (n: usize)
        ensures
            n == self@.len(),
    {
        self.buf.len()
    }

    pub fn is_empty(&self) -> (b: bool)
        ensures
            b == (self@.len() == 0),
    {
        self.buf.len() == 0
    }

    /// The counters, where tracing is switched on.
    pub fn metrics(&self) -> (m: Option<BufferMetrics>)
        ensures
            m == (if self.model().trace {
                Some(self.model().metrics)
            } else {
                None
            }),
    {
        if self.trace_metrics {
            Some(self.metrics)
        } else {
            None
        }
    }

    /// The room that the buffer has asked for so far.
    pub fn capacity(&self) -> (c: usize)
        ensures
            c == self.model().capacity,
    {
        self.capacity
    }

    pub fn last_byte(&self) -> (b: Option<u8>)
        ensures
            b == (if self@.len() > 0 {
                Some(self@.last())
            } else {
                None
            }),
    {
        let n = self.buf.len();
        if n > 0 {
            Some(self.buf[n - 1])
        } else {
            None
        }
    }

    /// The byte `n` places before the last one.
    pub fn peek_nth_byte_back(&self, n: usize) -> (b: Option<u8>)
        ensures
            b == (if n < self@.len() {
                Some(self@[self@.len() - 1 - n])
            } else {
                None
            }),
    {
        let len = self.buf.len();
        if n < len {
            Some(self.buf[len - 1 - n])
        } else {
            None
        }
    }

    /// The last character of the text.
    pub fn last_char(&self) -> (c: Option<char>)
        requires
            self.wf(),
        ensures
            c == (if self@.len() > 0 {
                Some(decode_utf8(self@).last())
            } else {
                None
            }),
            c == last_char_of(self@),
    {
        proof {
            if self.buf@.len() > 0 {
                lemma_last_char_of_valid(self.buf@);
            }
        }
        decode_last_char(self.buf.as_slice())
    }

    pub fn as_bytes(&self) -> (bytes: &[u8])
        ensures
            bytes@ == self@,
    {
        self.buf.as_slice()
    }

    /// The text as a string.
    pub fn into_string(self) -> (s: String)
        requires
            self.wf(),
        ensures
            s@ == decode_utf8(self@),
    {
        match string_from_utf8(self.buf) {
            Some(s) => s,
            None => vstd::pervasive::unreached(),
        }
    }

    /// Appends one ASCII byte.
    pub fn print_ascii_byte(&mut self, byte: u8)
        requires
            old(self).wf(),
            byte < 0x80,
        ensures
            final(self).wf(),
            old(self)@.len() <= final(self)@.len(),
            final(self)@ == old(self)@.push(byte),
            final(self).model() == old(self).model().write(seq![byte]),
    {
        proof {
            lemma_single_ascii_valid(byte);
        }
        let one = [byte];
        assert(one@ =~= seq![byte]);
        self.write_bytes(one.as_slice());
        assert(old(self)@ + seq![byte] =~= old(self)@.push(byte));
    }

    /// Appends one byte that the caller knows to keep the text well-formed.
    pub fn print_byte_unchecked(&mut self, byte: u8)
        requires
            old(self).wf(),
            valid_utf8(old(self)@.push(byte)),
        ensures
            final(self).wf(),
            old(self)@.len() <= final(self)@.len(),
            final(self)@ == old(self)@.push(byte),
            final(self).model() == old(self).model().write(seq![byte]),
    {
        let one = [byte];
        assert(one@ =~= seq![byte]);
        assert(old(self)@ + seq![byte] =~= old(self)@.push(byte));
        self.write_raw(one.as_slice());
    }

    /// Appends a string.
    pub fn print_str(&mut self, s: &str)
        requires
            old(self).wf(),
        ensures
            final(self).wf(),
            old(self)@.len() <= final(self)@.len(),
            final(self)@ == old(self)@ + s.spec_bytes(),
            final(self).model() == old(self).model().write(s.spec_bytes()),
    {
        broadcast use encode_utf8_valid_utf8;

        self.write_bytes(s.as_bytes());
    }

    /// Appends one character, in its UTF-8 encoding.
    pub fn print_char(&mut self, ch: char)
        requires
            old(self).wf(),
        ensures
            final(self).wf(),
            old(self)@.len() <= final(self)@.len(),
            final(self)@ == old(self)@ + encode_utf8(seq![ch]),
            final(self).model() == old(self).model().write(encode_utf8(seq![ch])),
    {
        let s = string_of_char(ch);
        self.print_str(s.as_str());
    }

    /// Appends ASCII bytes.
    pub fn print_ascii_bytes(&mut self, bytes: &[u8])
        requires
            old(self).wf(),
            forall|i: int| 0 <= i < bytes@.len() ==> bytes@[i] < 0x80,
        ensures
            final(self).wf(),
            old(self)@.len() <= final(self)@.len(),
            final(self)@ == old(self)@ + bytes@,
            final(self).model() == old(self).model().write(bytes@),
    {
        proof {
            lemma_ascii_valid(bytes@);
        }
        self.write_bytes(bytes);
    }

    /// Appends bytes that the caller knows to keep the text well-formed.
    pub fn print_bytes_unchecked(&mut self, bytes: &[u8])
        requires
            old(self).wf(),
            valid_utf8(old(self)@ + bytes@),
        ensures
            final(self).wf(),
            old(self)@.len() <= final(self)@.len(),
            final(self)@ == old(self)@ + bytes@,
            final(self).model() == old(self).model().write(bytes@),
    {
        self.write_raw(bytes);
    }

    /// Appends indentation for `depth` levels: `indent_width * depth` copies of the
    /// indentation character.
    pub fn print_indent(&mut self, depth: usize)
        requires
            old(self).wf(),
        ensures
            final(self).wf(),
            old(self)@.len() <= final(self)@.len(),
            final(self)@ == old(self)@ + repeated(
                old(self).model().indent_char.spec_byte(),
                old(self).model().indent_width * depth as nat,
            ),
            final(self).model() == old(self).model().print_indent(depth as nat),
            final(self).model().indent_char == old(self).model().indent_char,
            final(self).model().indent_width == old(self).model().indent_width,
    {
        let byte = self.indent_char.byte();
        let chunk = [byte;32];
        let width = self.indent_width;
        assert(width as int * depth as int <= u128::MAX as int) by (nonlinear_arith)
            requires
                0 <= width <= 0xFFFF_FFFF_FFFF_FFFF,
                0 <= depth <= 0xFFFF_FFFF_FFFF_FFFF,
        ;
        let count: u128 = width as u128 * depth as u128;
        assert(chunk@ =~= repeated(byte, INDENT_CHUNK as nat));
        proof {
            old(self).model().lemma_write_repeated(byte, count as nat);
        }
        let mut remaining: u128 = count;
        while remaining >= 32
            invariant
                self.wf(),
                byte < 0x80,
                chunk@ == repeated(byte, INDENT_CHUNK as nat),
                self.model().write_repeated(byte, remaining as nat) == old(
                    self,
                ).model().write_repeated(byte, count as nat),
            decreases remaining,
        {
            proof {
                lemma_repeated_ascii_valid(byte, INDENT_CHUNK as nat);
            }
            self.write_bytes(chunk.as_slice());
            remaining = remaining - 32;
        }
        let rest = remaining as usize;
        proof {
            lemma_repeated_ascii_valid(byte, rest as nat);
        }
        let tail = vstd::slice::slice_subrange(chunk.as_slice(), 0, rest);
        assert(tail@ =~= repeated(byte, rest as nat));
        self.write_bytes(tail);
    }

    /// Empties the buffer. Its settings, its counters and the room it has asked for stay.
    pub fn clear(&mut self)
        ensures
            final(self).wf(),
            final(self)@ == Seq::<u8>::empty(),
            final(self).model() == (BufferModel { bytes: Seq::empty(), ..old(self).model() }),
    {
        self.buf.clear();
    }

    fn write_bytes(&mut self, bytes: &[u8])
        requires
            old(self).wf(),
            valid_utf8(bytes@),
        ensures
            final(self).wf(),
            final(self)@ == old(self)@ + bytes@,
            final(self).model() == old(self).model().write(bytes@),
    {
        proof {
            valid_utf8_concat(self.buf@, bytes@);
        }
        self.write_raw(bytes);
    }

    fn write_raw(&mut self, bytes: &[u8])
        requires
            valid_utf8(old(self)@ + bytes@),
        ensures
            final(self).wf(),
            final(self)@ == old(self)@ + bytes@,
            final(self).model() == old(self).model().write(bytes@),
    {
        if bytes.len() == 0 {
            assert(old(self)@ + bytes@ =~= old(self)@);
            return ;
        }
        self.buf.extend_from_slice(bytes);
        assert(self.buf@ =~= old(self).buf@ + bytes@);
        let new_len = self.buf.len();
        let grows = new_len > self.capacity;
        if grows {
            let target = align_capacity(new_len);
            self.buf.reserve(target - new_len);
            self.capacity = target;
        }
        if self.trace_metrics {
            self.metrics = BufferMetrics {
                reallocations: if grows && self.metrics.reallocations < usize::MAX {
                    self.metrics.reallocations + 1
                } else {
                    self.metrics.reallocations
                },
                writes: if self.metrics.writes < usize::MAX {
                    self.metrics.writes + 1
                } else {
                    self.metrics.writes
                },
                written_bytes: if bytes.len() <= usize::MAX - self.metrics.written_bytes {
                    self.metrics.written_bytes + bytes.len()
                } else {
                    usize::MAX
                },
            };
        }
    }
}

impl Default for FastBuffer {
    fn default() -> (b: FastBuffer)
        ensures
            b.wf(),
            b@ == Seq::<u8>::empty(),
    {
        FastBuffer::new()
    }
}

/// A sequence of ASCII bytes is well-formed UTF-8.
pub proof fn lemma_ascii_valid(bytes: Seq<u8>)
    requires
        forall|i: int| 0 <= i < bytes.len() ==> bytes[i] < 0x80,
    ensures
        valid_utf8(bytes),
    decreases bytes.len(),
{
    if bytes.len() > 0 {
        let b = bytes[0];
        assert(codepoint_width_1(b) < 0x80) by (bit_vector)
            requires
                b < 0x80,
        ;
        let rest = pop_first_scalar(bytes);
        assert forall|i: int| 0 <= i < rest.len() implies rest[i] < 0x80 by {
            assert(rest[i] == bytes[i + 1]);
        }
        lemma_ascii_valid(rest);
    }
}

} // verus!
