//! Comments: what the printer knows of each, and the store that hands them out by the
//! place they are attached to.

use vstd::prelude::*;

verus! {

/// A range of the source text, from `start` up to but not including `end`.
#[derive(Clone, Copy, Debug, PartialEq, Eq, Structural)]
pub struct Span {
    pub start: u32,
    pub end: u32,
}

impl Span {
    pub fn new(start: u32, end: u32) -> (s: Span)
        ensures
            s.start == start,
            s.end == end,
    {
        Span { start, end }
    }

    pub open spec fn spec_is_empty(self) -> bool {
        self.start == self.end
    }

    /// The range holds nothing.
    pub fn is_empty(self) -> (b: bool)
        ensures
            b == self.spec_is_empty(),
    {
        self.start == self.end
    }
}

#[derive(Clone, Copy, Debug, PartialEq, Eq, Structural)]
pub enum CommentKind {
    Line,
    Block,
}

#[derive(Clone, Copy, Debug, PartialEq, Eq, Structural)]
pub enum CommentPosition {
    Leading,
    Trailing,
}

/// What a comment says to tools.
#[derive(Clone, Copy, Debug, PartialEq, Eq, Structural)]
pub enum CommentContent {
    Plain,
    Legal,
    Jsdoc,
    JsdocLegal,
    Pure,
    NoSideEffects,
    Webpack,
    Vite,
    CoverageIgnore,
}

/// One comment of the source text.
#[derive(Clone, Copy, Debug, PartialEq, Eq, Structural)]
pub struct Comment {
    /// The whole comment, its delimiters included.
    pub span: Span,
    /// Start of the token that the comment belongs to.
    pub attached_to: u32,
    pub kind: CommentKind,
    pub position: CommentPosition,
    pub newline_before: bool,
    pub newline_after: bool,
    pub content: CommentContent,
}

impl Comment {
    pub fn new(start: u32, end: u32, kind: CommentKind) -> (c: Comment)
        ensures
            c == (Comment {
                span: Span { start, end },
                attached_to: 0,
                kind,
                position: CommentPosition::Trailing,
                newline_before: false,
                newline_after: false,
                content: CommentContent::Plain,
            }),
    {
        Comment {
            span: Span { start, end },
            attached_to: 0,
            kind,
            position: CommentPosition::Trailing,
            newline_before: false,
            newline_after: false,
            content: CommentContent::Plain,
        }
    }

    pub open spec fn spec_is_legal(self) -> bool {
        self.content is Legal || self.content is JsdocLegal
    }

    pub open spec fn spec_is_jsdoc(self) -> bool {
        self.content is Jsdoc || self.content is JsdocLegal
    }

    pub open spec fn spec_is_annotation(self) -> bool {
        self.content is Pure || self.content is NoSideEffects || self.content is Webpack
            || self.content is Vite || self.content is CoverageIgnore
    }

    pub fn is_line(self) -> (b: bool)
        ensures
            b == (self.kind is Line),
    {
        matches!(self.kind, CommentKind::Line)
    }

    pub fn is_block(self) -> (b: bool)
        ensures
            b == (self.kind is Block),
    {
        matches!(self.kind, CommentKind::Block)
    }

    pub fn is_leading(self) -> (b: bool)
        ensures
            b == (self.position is Leading),
    {
        matches!(self.position, CommentPosition::Leading)
    }

    pub fn is_trailing(self) -> (b: bool)
        ensures
            b == (self.position is Trailing),
    {
        matches!(self.position, CommentPosition::Trailing)
    }

    pub fn is_normal(self) -> (b: bool)
        ensures
            b == (self.content is Plain),
    {
        matches!(self.content, CommentContent::Plain)
    }

    pub fn is_legal(self) -> (b: bool)
        ensures
            b == self.spec_is_legal(),
    {
        matches!(self.content, CommentContent::Legal | CommentContent::JsdocLegal)
    }

    pub fn is_jsdoc(self) -> (b: bool)
        ensures
            b == self.spec_is_jsdoc(),
    {
        matches!(self.content, CommentContent::Jsdoc | CommentContent::JsdocLegal)
    }

    pub fn is_annotation(self) -> (b: bool)
        ensures
            b == self.spec_is_annotation(),
    {
        matches!(
            self.content,
            CommentContent::Pure
                | CommentContent::NoSideEffects
                | CommentContent::Webpack
                | CommentContent::Vite
                | CommentContent::CoverageIgnore
        )
    }

    pub fn is_pure(self) -> (b: bool)
        ensures
            b == (self.content is Pure),
    {
        matches!(self.content, CommentContent::Pure)
    }

    pub fn is_no_side_effects(self) -> (b: bool)
        ensures
            b == (self.content is NoSideEffects),
    {
        matches!(self.content, CommentContent::NoSideEffects)
    }

    pub fn preceded_by_newline(self) -> (b: bool)
        ensures
            b == self.newline_before,
    {
        self.newline_before
    }

    pub fn followed_by_newline(self) -> (b: bool)
        ensures
            b == self.newline_after,
    {
        self.newline_after
    }
}

/// Number of entries of `consumed` that are false.
pub open spec fn count_live(consumed: Seq<bool>) -> nat
    decreases consumed.len(),
{
    if consumed.len() == 0 {
        0
    } else {
        count_live(consumed.drop_last()) + if consumed.last() {
            0nat
        } else {
            1nat
        }
    }
}

proof fn lemma_count_live_zero(consumed: Seq<bool>)
    ensures
        count_live(consumed) <= consumed.len(),
        count_live(consumed) == 0 <==> (forall|i: int| 0 <= i < consumed.len() ==> consumed[i]),
    decreases consumed.len(),
{
    if consumed.len() > 0 {
        lemma_count_live_zero(consumed.drop_last());
        if count_live(consumed) == 0 {
            assert forall|i: int| 0 <= i < consumed.len() implies consumed[i] by {
                if i < consumed.len() - 1 {
                    assert(consumed.drop_last()[i] == consumed[i]);
                }
            }
        } else if forall|i: int| 0 <= i < consumed.len() ==> consumed[i] {
            assert forall|i: int| 0 <= i < consumed.drop_last().len() implies consumed.drop_last()[i] by {
                assert(consumed.drop_last()[i] == consumed[i]);
            }
        }
    }
}

proof fn lemma_count_live_update(consumed: Seq<bool>, i: int, value: bool)
    requires
        0 <= i < consumed.len(),
    ensures
        count_live(consumed.update(i, value)) + (if value {
            0int
        } else {
            -1int
        }) == count_live(consumed) + (if consumed[i] {
            0int
        } else {
            -1int
        }),
    decreases consumed.len(),
{
    let updated = consumed.update(i, value);
    if i == consumed.len() - 1 {
        assert(updated.drop_last() =~= consumed.drop_last());
    } else {
        assert(updated.drop_last() =~= consumed.drop_last().update(i, value));
        lemma_count_live_update(consumed.drop_last(), i, value);
    }
}

proof fn lemma_count_live_insert(consumed: Seq<bool>, i: int, value: bool)
    requires
        0 <= i <= consumed.len(),
    ensures
        count_live(consumed.insert(i, value)) == count_live(consumed) + (if value {
            0nat
        } else {
            1nat
        }),
    decreases consumed.len(),
{
    let inserted = consumed.insert(i, value);
    if i == consumed.len() {
        assert(inserted.drop_last() =~= consumed);
    } else {
        assert(inserted.drop_last() =~= consumed.drop_last().insert(i, value));
        assert(inserted.last() == consumed.last());
        lemma_count_live_insert(consumed.drop_last(), i, value);
    }
}

/// The comments of a program that are still to be printed, by the place they are
/// attached to. Each place has its comments in the order in which they were put in.
pub struct CommentsMap {
    keys: Vec<u32>,
    values: Vec<Vec<Comment>>,
    consumed: Vec<bool>,
    remaining: usize,
    cursor: usize,
}

impl View for CommentsMap {
    type V = Map<u32, Seq<Comment>>;

    closed spec fn view(&self) -> Map<u32, Seq<Comment>> {
        Map::new(
            |k: u32| self.live_at(k),
            |k: u32| self.values@[self.index_of(k)]@,
        )
    }
}

impl CommentsMap {
    pub closed spec fn index_of(&self, key: u32) -> int {
        choose|i: int| 0 <= i < self.keys@.len() && self.keys@[i] == key
    }

    pub closed spec fn live_at(&self, key: u32) -> bool {
        exists|i: int| 0 <= i < self.keys@.len() && self.keys@[i] == key && !self.consumed@[i]
    }

    /// The places are kept in rising order, and every place that is still to be handed
    /// out has one comment at least.
    pub closed spec fn wf(&self) -> bool {
        &&& self.keys@.len() == self.values@.len()
        &&& self.keys@.len() == self.consumed@.len()
        &&& forall|i: int, j: int|
            0 <= i < j < self.keys@.len() ==> self.keys@[i] < self.keys@[j]
        &&& forall|i: int|
            0 <= i < self.keys@.len() && !self.consumed@[i] ==> (#[trigger] self.values@[i])@.len()
                > 0
        &&& self.remaining == count_live(self.consumed@)
    }

    /// Every bucket of a well-formed store holds a comment.
    pub proof fn lemma_buckets_not_empty(&self, key: u32)
        requires
            self.wf(),
            self@.contains_key(key),
        ensures
            self@[key].len() > 0,
    {
        let i = self.index_of(key);
        let j = choose|j: int| 0 <= j < self.keys@.len() && self.keys@[j] == key && !self.consumed@[j];
        assert(i == j);
    }

    pub fn new() -> (m: CommentsMap)
        ensures
            m.wf(),
            m@ == Map::<u32, Seq<Comment>>::empty(),
    {
        let m = CommentsMap {
            keys: Vec::new(),
            values: Vec::new(),
            consumed: Vec::new(),
            remaining: 0,
            cursor: 0,
        };
        assert(m@ =~= Map::<u32, Seq<Comment>>::empty());
        m
    }

    /// Forgets every comment.
    pub fn clear(&mut self)
        ensures
            final(self).wf(),
            final(self)@ == Map::<u32, Seq<Comment>>::empty(),
    {
        self.keys.clear();
        self.values.clear();
        self.consumed.clear();
        self.remaining = 0;
        self.cursor = 0;
        assert(self@ =~= Map::<u32, Seq<Comment>>::empty());
    }

    /// The place in `keys` where `key` stands or would have to stand.
    fn lower_bound(&self, key: u32) -> (at: usize)
        requires
            self.wf(),
        ensures
            at <= self.keys@.len(),
            forall|i: int| 0 <= i < at ==> self.keys@[i] < key,
            forall|i: int| at <= i < self.keys@.len() ==> self.keys@[i] >= key,
    {
        let mut low: usize = 0;
        let mut high: usize = self.keys.len();
        while low < high
            invariant
                low <= high <= self.keys@.len(),
                self.wf(),
                forall|i: int| 0 <= i < low ==> self.keys@[i] < key,
                forall|i: int| high <= i < self.keys@.len() ==> self.keys@[i] >= key,
            decreases high - low,
        {
            let mid = low + (high - low) / 2;
            if self.keys[mid] < key {
                low = mid + 1;
            } else {
                high = mid;
            }
        }
        low
    }

    /// The index of `start` among the places, looked for next to the place that was
    /// last handed out before the whole store is searched.
    fn find_index(&self, start: u32) -> (found: Option<usize>)
        requires
            self.wf(),
        ensures
            match found {
                Some(i) => i < self.keys@.len() && self.keys@[i as int] == start,
                None => forall|i: int| 0 <= i < self.keys@.len() ==> self.keys@[i] != start,
            },
    {
        let n = self.keys.len();
        let c = self.cursor;
        if c < n {
            if self.keys[c] == start {
                return Some(c);
            }
            if c + 1 < n && self.keys[c + 1] == start {
                return Some(c + 1);
            }
            if c > 0 && self.keys[c - 1] == start {
                return Some(c - 1);
            }
        }
        let at = self.lower_bound(start);
        if at < n && self.keys[at] == start {
            Some(at)
        } else {
            None
        }
    }

    /// No comment is left.
    pub fn is_empty(&self) -> (b: bool)
        requires
            self.wf(),
        ensures
            b == (forall|k: u32| !self@.contains_key(k)),
    {
        proof {
            lemma_count_live_zero(self.consumed@);
            if self.remaining == 0 {
                assert forall|k: u32| !self@.contains_key(k) by {}
            } else {
                let i = choose|i: int| 0 <= i < self.consumed@.len() && !self.consumed@[i];
                assert(self.live_at(self.keys@[i]));
                assert(self@.contains_key(self.keys@[i]));
            }
        }
        self.remaining == 0
    }

    /// Comments are attached to `start` and have not been taken.
    pub fn has(&self, start: u32) -> (b: bool)
        requires
            self.wf(),
        ensures
            b == self@.contains_key(start),
    {
        if self.remaining == 0 {
            proof {
                lemma_count_live_zero(self.consumed@);
            }
            return false;
        }
        match self.find_index(start) {
            Some(index) => !self.consumed[index],
            None => false,
        }
    }

    /// The comments attached to `start`, which stay in the store.
    pub fn peek(&self, start: u32) -> (bucket: Option<&Vec<Comment>>)
        requires
            self.wf(),
        ensures
            match bucket {
                Some(comments) => self@.contains_key(start) && comments@ == self@[start],
                None => !self@.contains_key(start),
            },
    {
        match self.find_index(start) {
            Some(index) => {
                if self.consumed[index] {
                    None
                } else {
                    assert(self.index_of(start) == index);
                    Some(&self.values[index])
                }
            },
            None => None,
        }
    }

    /// Hands out the comments attached to `start`. They are handed out once: after
    /// this call the store has none for `start`.
    pub fn take(&mut self, start: u32) -> (bucket: Option<Vec<Comment>>)
        requires
            old(self).wf(),
        ensures
            final(self).wf(),
            final(self)@ == old(self)@.remove(start),
            final(self)@ == taken(old(self)@, start).0,
            match bucket {
                Some(comments) => taken(old(self)@, start).1 == Some(comments@)
                    && old(self)@.contains_key(start) && comments@ == old(self)@[start]
                    && comments@.len() > 0,
                None => taken(old(self)@, start).1 is None && !old(self)@.contains_key(start),
            },
    {
        if self.remaining == 0 {
            proof {
                lemma_count_live_zero(self.consumed@);
                assert(self@ =~= old(self)@.remove(start));
            }
            return None;
        }
        let index = match self.find_index(start) {
            Some(index) => index,
            None => {
                assert(self@ =~= old(self)@.remove(start));
                return None;
            },
        };
        self.cursor = index;
        if self.consumed[index] {
            assert(self@ =~= old(self)@.remove(start));
            return None;
        }
        let mut comments: Vec<Comment> = Vec::new();
        let n = self.values[index].len();
        let mut i: usize = 0;
        while i < n
            invariant
                i <= n,
                index < self.values@.len(),
                n == self.values@[index as int]@.len(),
                comments@ == self.values@[index as int]@.subrange(0, i as int),
            decreases n - i,
        {
            comments.push(self.values[index][i]);
            assert(self.values@[index as int]@.subrange(0, i as int + 1) =~= self.values@[index as int]@.subrange(
                0,
                i as int,
            ).push(self.values@[index as int]@[i as int]));
            i += 1;
        }
        assert(comments@ =~= self.values@[index as int]@);
        proof {
            lemma_count_live_update(self.consumed@, index as int, true);
            lemma_count_live_zero(self.consumed@);
            assert(old(self).index_of(start) == index);
        }
        self.consumed.set(index, true);
        self.remaining = self.remaining - 1;
        proof {
            assert forall|k: u32| self@.contains_key(k) <==> old(self)@.remove(start).contains_key(
                k,
            ) by {
                if k != start && old(self).live_at(k) {
                    let j = choose|j: int|
                        0 <= j < old(self).keys@.len() && old(self).keys@[j] == k && !old(
                            self,
                        ).consumed@[j];
                    assert(!self.consumed@[j]);
                }
            }
            assert forall|k: u32| self@.contains_key(k) implies self@[k] == old(self)@.remove(
                start,
            )[k] by {
                assert(self.index_of(k) == old(self).index_of(k));
            }
            assert(self@ =~= old(self)@.remove(start));
        }
        Some(comments)
    }

    /// Puts `comment` behind the comments that are attached to `key`.
    pub fn insert(&mut self, key: u32, comment: Comment)
        requires
            old(self).wf(),
        ensures
            final(self).wf(),
            final(self)@ == old(self)@.insert(
                key,
                if old(self)@.contains_key(key) {
                    old(self)@[key].push(comment)
                } else {
                    seq![comment]
                },
            ),
    {
        let at = self.lower_bound(key);
        let n = self.keys.len();
        if at < n && self.keys[at] == key {
            assert(old(self).index_of(key) == at);
            let mut bucket: Vec<Comment> = Vec::new();
            if !self.consumed[at] {
                let len = self.values[at].len();
                let mut i: usize = 0;
                while i < len
                    invariant
                        i <= len,
                        at < self.values@.len(),
                        len == self.values@[at as int]@.len(),
                        bucket@ == self.values@[at as int]@.subrange(0, i as int),
                    decreases len - i,
                {
                    bucket.push(self.values[at][i]);
                    assert(self.values@[at as int]@.subrange(0, i as int + 1) =~= self.values@[at as int]@.subrange(
                        0,
                        i as int,
                    ).push(self.values@[at as int]@[i as int]));
                    i += 1;
                }
                assert(bucket@ =~= self.values@[at as int]@);
            }
            bucket.push(comment);
            let ghost new_bucket = bucket@;
            let was_consumed = self.consumed[at];
            proof {
                lemma_count_live_update(self.consumed@, at as int, false);
                lemma_count_live_zero(self.consumed@);
            }
            self.values.set(at, bucket);
            self.consumed.set(at, false);
            proof {
                lemma_count_live_zero(self.consumed@);
            }
            if was_consumed {
                self.remaining = self.remaining + 1;
            }
            proof {
                assert(self.keys@ == old(self).keys@);
                assert forall|k: u32| self@.contains_key(k) <==> old(self)@.insert(
                    key,
                    new_bucket,
                ).contains_key(k) by {
                    if k == key {
                        assert(self.keys@[at as int] == key && !self.consumed@[at as int]);
                    } else if old(self).live_at(k) {
                        let j = choose|j: int|
                            0 <= j < old(self).keys@.len() && old(self).keys@[j] == k && !old(
                                self,
                            ).consumed@[j];
                        assert(!self.consumed@[j]);
                    }
                }
                assert forall|k: u32| self@.contains_key(k) implies self@[k] == old(self)@.insert(
                    key,
                    new_bucket,
                )[k] by {
                    assert(self.index_of(k) == old(self).index_of(k));
                    if k == key {
                        assert(self.index_of(k) == at);
                    }
                }
                assert(self@ =~= old(self)@.insert(key, new_bucket));
            }
        } else {
            let mut bucket: Vec<Comment> = Vec::new();
            bucket.push(comment);
            assert(bucket@ =~= seq![comment]);
            proof {
                lemma_count_live_insert(self.consumed@, at as int, false);
                lemma_count_live_zero(self.consumed@);
                assert(!old(self).live_at(key));
            }
            self.keys.insert(at, key);
            self.values.insert(at, bucket);
            self.consumed.insert(at, false);
            let slots = self.consumed.len();
            proof {
                assert(self.consumed@ =~= old(self).consumed@.insert(at as int, false));
                lemma_count_live_zero(self.consumed@);
                assert(count_live(self.consumed@) <= slots);
            }
            self.remaining = self.remaining + 1;
            proof {
                let ghost_old = *old(self);
                assert forall|i: int, j: int| 0 <= i < j < self.keys@.len() implies self.keys@[i]
                    < self.keys@[j] by {
                    if i < at && j > at {
                        assert(self.keys@[j] == ghost_old.keys@[j - 1]);
                    }
                }
                assert forall|k: u32| self@.contains_key(k) <==> ghost_old@.insert(
                    key,
                    seq![comment],
                ).contains_key(k) by {
                    if k == key {
                        assert(self.keys@[at as int] == key && !self.consumed@[at as int]);
                    } else {
                        if ghost_old.live_at(k) {
                            let j = choose|j: int|
                                0 <= j < ghost_old.keys@.len() && ghost_old.keys@[j] == k
                                    && !ghost_old.consumed@[j];
                            let j2 = if j < at {
                                j
                            } else {
                                j + 1
                            };
                            assert(self.keys@[j2] == k && !self.consumed@[j2]);
                        }
                        if self.live_at(k) {
                            let j = choose|j: int|
                                0 <= j < self.keys@.len() && self.keys@[j] == k
                                    && !self.consumed@[j];
                            let j2 = if j < at {
                                j
                            } else {
                                j - 1
                            };
                            assert(ghost_old.keys@[j2] == k && !ghost_old.consumed@[j2]);
                        }
                    }
                }
                assert forall|k: u32| self@.contains_key(k) implies self@[k] == ghost_old@.insert(
                    key,
                    seq![comment],
                )[k] by {
                    if k == key {
                        assert(self.index_of(k) == at);
                    } else {
                        let j = ghost_old.index_of(k);
                        let j2 = if j < at {
                            j
                        } else {
                            j + 1
                        };
                        assert(self.keys@[j2] == k);
                        assert(self.index_of(k) == j2);
                    }
                }
                assert(self@ =~= ghost_old@.insert(key, seq![comment]));
            }
        }
    }
}

impl Default for CommentsMap {
    fn default() -> (m: CommentsMap)
        ensures
            m.wf(),
            m@ == Map::<u32, Seq<Comment>>::empty(),
    {
        CommentsMap::new()
    }
}

/// What the store holds and hands out when the comments at `key` are taken.
pub open spec fn taken(store: Map<u32, Seq<Comment>>, key: u32) -> (Map<u32, Seq<Comment>>, Option<
    Seq<Comment>,
>) {
    (
        store.remove(key),
        if store.contains_key(key) {
            Some(store[key])
        } else {
            None
        },
    )
}

/// The comments of a place are handed out at most once: when they have been taken, the
/// store has none for that place, and taking again hands out nothing.
pub proof fn lemma_taken_once(store: Map<u32, Seq<Comment>>, key: u32)
    ensures
        !taken(store, key).0.contains_key(key),
        taken(taken(store, key).0, key).1 is None,
        taken(taken(store, key).0, key).0 == taken(store, key).0,
{
    assert(store.remove(key).remove(key) =~= store.remove(key));
}

} // verus!
