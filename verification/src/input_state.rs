//! The state of romaji input.
//!
//! Romaji arrives one character at a time and is turned into hiragana as soon as
//! a conversion is complete. The state holds the committed hiragana on both sides
//! of the cursor and the romaji still pending between them.
use vstd::prelude::*;

use crate::strings::{pop_char, push_char, str_eq};

verus! {

/// What one romaji conversion step gives: the finished hiragana and the romaji
/// still pending.
#[derive(Debug, Clone)]
pub struct Conversion {
    pub output: String,
    pub pending: String,
}

/// The abstract contents of an `InputState`.
#[verifier::ext_equal]
pub ghost struct InputView {
    /// The committed hiragana before the cursor.
    pub before: Seq<char>,
    /// The romaji not yet converted; it stands between `before` and `after`.
    pub pending: Seq<char>,
    /// The committed hiragana after the cursor.
    pub after: Seq<char>,
}

/// The input state.
#[derive(Debug, Clone)]
pub struct InputState {
    /// The committed hiragana before the cursor.
    output_before: String,
    /// The committed hiragana after the cursor.
    output_after: String,
    /// The romaji not yet converted (always between `output_before` and `output_after`).
    pending: String,
}

impl View for InputState {
    type V = InputView;

    closed spec fn view(&self) -> InputView {
        InputView { before: self.output_before@, pending: self.pending@, after: self.output_after@ }
    }
}

/// The text shown for a state: the hiragana before the cursor, the pending romaji,
/// then the hiragana after the cursor.
pub open spec fn display_text(v: InputView) -> Seq<char> {
    v.before + v.pending + v.after
}

/// The committed text of a state: the hiragana on both sides of the cursor.
pub open spec fn output_text(v: InputView) -> Seq<char> {
    v.before + v.after
}

/// The hiragana that a lone trailing `n` stands for.
pub open spec fn syllabic_n() -> char {
    'ん'
}

/// What flushing turns the pending romaji into: a lone `n` becomes `ん`, anything
/// else is committed as it is.
pub open spec fn flushed_text(pending: Seq<char>) -> Seq<char> {
    if pending == seq!['n'] {
        seq![syllabic_n()]
    } else {
        pending
    }
}

/// The empty state.
pub open spec fn empty_view() -> InputView {
    InputView { before: seq![], pending: seq![], after: seq![] }
}

/// The state after a flush.
pub open spec fn flushed(v: InputView) -> InputView {
    InputView { before: v.before + flushed_text(v.pending), pending: seq![], after: v.after }
}

/// The state after a backspace: the last pending character goes if there is one,
/// else the last character before the cursor, if there is one.
pub open spec fn backspaced(v: InputView) -> InputView {
    if v.pending.len() > 0 {
        InputView { pending: v.pending.drop_last(), ..v }
    } else if v.before.len() > 0 {
        InputView { before: v.before.drop_last(), ..v }
    } else {
        v
    }
}

/// A romaji conversion as a mathematical function: the finished hiragana and the
/// romaji left pending for an input.
pub type ConversionFn = spec_fn(Seq<char>) -> (Seq<char>, Seq<char>);

/// One typed character with the conversion `conv`: the character joins the pending
/// romaji, the finished hiragana goes before the cursor, the rest stays pending.
pub open spec fn feed_step(v: InputView, ch: char, conv: ConversionFn) -> InputView {
    let r = conv(v.pending.push(ch));
    InputView { before: v.before + r.0, pending: r.1, after: v.after }
}

/// The state after typing `w`, one character after another, starting from `v`.
pub open spec fn fed(v: InputView, w: Seq<char>, conv: ConversionFn) -> InputView
    decreases w.len(),
{
    if w.len() == 0 {
        v
    } else {
        feed_step(fed(v, w.drop_last(), conv), w.last(), conv)
    }
}

/// Whether converting an input one character further gives the same as converting
/// the pending rest with that character and appending: the conversion reads its
/// input from left to right, and what it finished stays finished. An empty input
/// converts to nothing.
pub open spec fn converts_incrementally(conv: ConversionFn) -> bool {
    &&& conv(seq![]) == (Seq::<char>::empty(), Seq::<char>::empty())
    &&& forall|p: Seq<char>, c: char|
        #[trigger] conv(p.push(c)) == (conv(p).0 + conv(conv(p).1.push(c)).0, conv(
            conv(p).1.push(c),
        ).1)
}

/// An operation on an input state, as the contracts of `InputState` describe it.
pub ghost enum InputOp {
    /// `feed_char`, with what the conversion gave for the new pending romaji.
    Feed { ch: char, output: Seq<char>, pending: Seq<char> },
    /// `flush`.
    Flush,
    /// `backspace`.
    Backspace,
    /// `reset`.
    Reset,
}

/// The state after one operation.
pub open spec fn apply_op(v: InputView, op: InputOp) -> InputView {
    match op {
        InputOp::Feed { ch, output, pending } => InputView {
            before: v.before + output,
            pending,
            after: v.after,
        },
        InputOp::Flush => flushed(v),
        InputOp::Backspace => backspaced(v),
        InputOp::Reset => empty_view(),
    }
}

/// The state after a sequence of operations.
pub open spec fn apply_ops(v: InputView, ops: Seq<InputOp>) -> InputView
    decreases ops.len(),
{
    if ops.len() == 0 {
        v
    } else {
        apply_op(apply_ops(v, ops.drop_last()), ops.last())
    }
}

impl InputState {
    /// Creates an empty input state.
    pub fn new() -> (s: Self)
        ensures
            s@ == empty_view(),
    {
        Self { output_before: String::new(), output_after: String::new(), pending: String::new() }
    }

    /// Types one character. It joins the pending romaji, the whole pending romaji
    /// goes through `convert`, the hiragana that `convert` finishes is appended
    /// before the cursor, and the romaji `convert` leaves becomes the pending romaji.
    /// `convert` is a function of its input: equal inputs give equal results.
    pub fn feed_char<F: Fn(&str) -> Conversion>(&mut self, ch: char, convert: &F)
        requires
            forall|s: &str| #[trigger] convert.requires((s,)),
            forall|s1: &str, s2: &str, c1: Conversion, c2: Conversion|
                s1@ == s2@ && #[trigger] convert.ensures((s1,), c1) && #[trigger] convert.ensures(
                    (s2,),
                    c2,
                ) ==> c1.output@ == c2.output@ && c1.pending@ == c2.pending@,
        ensures
            forall|s: &str, c: Conversion|
                s@ == old(self)@.pending.push(ch) && #[trigger] convert.ensures((s,), c)
                    ==> final(self)@.before == old(self)@.before + c.output@ && final(self)@.pending
                    == c.pending@,
            exists|s: &str, c: Conversion|
                {
                    &&& s@ == old(self)@.pending.push(ch)
                    &&& #[trigger] convert.ensures((s,), c)
                    &&& final(self)@.before == old(self)@.before + c.output@
                    &&& final(self)@.pending == c.pending@
                },
            final(self)@.after == old(self)@.after,
    {
        push_char(&mut self.pending, ch);
        let result = convert(self.pending.as_str());
        let ghost input = self.pending@;
        self.output_before.append(result.output.as_str());
        self.pending = result.pending;
        proof {
            assert forall|s: &str, c: Conversion|
                s@ == input && #[trigger] convert.ensures((s,), c) implies self@.before == old(
                    self,
                )@.before + c.output@ && self@.pending == c.pending@ by {}
        }
    }

    /// Commits the pending romaji: a lone `n` becomes `ん`, anything else is moved
    /// as it is before the cursor.
    pub fn flush(&mut self)
        ensures
            final(self)@ == flushed(old(self)@),
    {
        proof {
            reveal_strlit("n");
            assert("n"@ =~= seq!['n']);
        }
        if str_eq(self.pending.as_str(), "n") {
            push_char(&mut self.output_before, 'ん');
            self.pending = String::new();
        } else if !self.pending.as_str().is_empty() {
            self.output_before.append(self.pending.as_str());
            self.pending = String::new();
        } else {
            assert(self.pending@ =~= seq![]);
        }
    }

    /// Clears the pending romaji and the output.
    pub fn reset(&mut self)
        ensures
            final(self)@ == empty_view(),
    {
        self.output_before = String::new();
        self.output_after = String::new();
        self.pending = String::new();
    }

    /// The committed output (the hiragana before and after the cursor).
    pub fn output(&self) -> (r: String)
        ensures
            r@ == output_text(self@),
    {
        let mut r = self.output_before.clone();
        r.append(self.output_after.as_str());
        r
    }

    /// The committed output before the cursor.
    pub fn output_before(&self) -> (r: &str)
        ensures
            r@ == self@.before,
    {
        self.output_before.as_str()
    }

    /// The committed output after the cursor.
    pub fn output_after(&self) -> (r: &str)
        ensures
            r@ == self@.after,
    {
        self.output_after.as_str()
    }

    /// The pending romaji.
    pub fn pending(&self) -> (r: &str)
        ensures
            r@ == self@.pending,
    {
        self.pending.as_str()
    }

    /// The text to show: the output before the cursor, the pending romaji, and the
    /// output after the cursor.
    pub fn display(&self) -> (r: String)
        ensures
            r@ == display_text(self@),
    {
        let mut r = self.output_before.clone();
        r.append(self.pending.as_str());
        r.append(self.output_after.as_str());
        r
    }

    /// Deletes one character: the last pending romaji character if there is one,
    /// else the last character of the output before the cursor.
    pub fn backspace(&mut self)
        ensures
            final(self)@ == backspaced(old(self)@),
    {
        if !self.pending.as_str().is_empty() {
            pop_char(&mut self.pending);
        } else {
            pop_char(&mut self.output_before);
        }
    }

    /// Whether the output and the pending romaji are all empty.
    pub fn is_empty(&self) -> (r: bool)
        ensures
            r == (self@ == empty_view()),
    {
        let r = self.output_before.as_str().is_empty() && self.output_after.as_str().is_empty()
            && self.pending.as_str().is_empty();
        proof {
            if r {
                assert(self@ =~= empty_view());
            }
        }
        r
    }
}

impl Default for InputState {
    fn default() -> (s: Self)
        ensures
            s@ == empty_view(),
    {
        Self::new()
    }
}

// === Laws ===
/// A state is empty exactly when the text it shows is empty.
pub proof fn lemma_empty_iff_nothing_shown(v: InputView)
    ensures
        (v == empty_view()) <==> display_text(v).len() == 0,
{
    if display_text(v).len() == 0 {
        assert(v.before =~= seq![]);
        assert(v.pending =~= seq![]);
        assert(v.after =~= seq![]);
    }
}

/// The shown text is the committed output with the pending romaji at the cursor;
/// with nothing pending it is the committed output itself.
pub proof fn lemma_display_is_output_with_pending(v: InputView)
    ensures
        display_text(v) == v.before + v.pending + v.after,
        output_text(v) == v.before + v.after,
        v.pending.len() == 0 ==> display_text(v) == output_text(v),
{
    if v.pending.len() == 0 {
        assert(v.before + v.pending =~= v.before);
    }
}

/// Flushing leaves nothing pending, and a second flush changes nothing.
pub proof fn lemma_flush_idempotent(v: InputView)
    ensures
        flushed(v).pending.len() == 0,
        flushed(flushed(v)) == flushed(v),
{
    let f = flushed(v);
    assert(f.pending =~= seq![]);
    assert(f.before + flushed_text(f.pending) =~= f.before);
}

/// Flushing keeps the shown text, except that a lone pending `n` is shown as `ん`.
pub proof fn lemma_flush_keeps_display(v: InputView)
    ensures
        v.pending != seq!['n'] ==> display_text(flushed(v)) == display_text(v),
        v.pending == seq!['n'] ==> display_text(flushed(v)) == v.before + seq![syllabic_n()]
            + v.after,
{
    assert(display_text(flushed(v)) =~= v.before + flushed_text(v.pending) + v.after);
}

/// Backspace removes exactly one character of the shown text when there is any
/// text before the cursor, and changes nothing otherwise.
pub proof fn lemma_backspace_removes_one(v: InputView)
    ensures
        v.before.len() + v.pending.len() > 0 ==> display_text(backspaced(v)).len() + 1 == display_text(
            v,
        ).len(),
        v.before.len() + v.pending.len() == 0 ==> backspaced(v) == v,
        backspaced(v).after == v.after,
{
}

/// The empty state (what `new` and `reset` give) shows nothing and has no output,
/// and flushing or deleting leaves it empty.
pub proof fn lemma_reset_is_empty()
    ensures
        display_text(empty_view()).len() == 0,
        output_text(empty_view()).len() == 0,
        flushed(empty_view()) == empty_view(),
        backspaced(empty_view()) == empty_view(),
{
    assert(flushed(empty_view()).before =~= seq![]);
}

/// When `convert` is the function `conv`, `feed_char` moves the state by one
/// `feed_step`.
pub proof fn lemma_feed_char_is_feed_step(
    before: InputView,
    after: InputView,
    ch: char,
    s: Seq<char>,
    c: (Seq<char>, Seq<char>),
    conv: ConversionFn,
)
    requires
        s == before.pending.push(ch),
        c == conv(s),
        after.before == before.before + c.0,
        after.pending == c.1,
        after.after == before.after,
    ensures
        after == feed_step(before, ch, conv),
{
}

/// Typing an input one character at a time leaves the same hiragana and pending
/// romaji as converting the whole input at once, for a conversion that reads its
/// input from left to right; after a flush the output is the batch output with its
/// pending romaji committed.
pub proof fn lemma_feeding_matches_batch(w: Seq<char>, conv: ConversionFn)
    requires
        converts_incrementally(conv),
    ensures
        fed(empty_view(), w, conv) == (InputView {
            before: conv(w).0,
            pending: conv(w).1,
            after: seq![],
        }),
        output_text(flushed(fed(empty_view(), w, conv))) == conv(w).0 + flushed_text(conv(w).1),
    decreases w.len(),
{
    if w.len() == 0 {
        assert(w =~= seq![]);
    } else {
        let p = w.drop_last();
        let c = w.last();
        lemma_feeding_matches_batch(p, conv);
        assert(p.push(c) =~= w);
        assert(conv(p.push(c)) == (conv(p).0 + conv(conv(p).1.push(c)).0, conv(
            conv(p).1.push(c),
        ).1));
    }
    let v = fed(empty_view(), w, conv);
    assert(output_text(flushed(v)) =~= conv(w).0 + flushed_text(conv(w).1));
}

/// No operation writes text after the cursor: from a new state, after any sequence
/// of operations, the text after the cursor is empty and the output is the text
/// before the cursor.
pub proof fn lemma_nothing_after_cursor(ops: Seq<InputOp>)
    ensures
        apply_ops(empty_view(), ops).after.len() == 0,
        output_text(apply_ops(empty_view(), ops)) == apply_ops(empty_view(), ops).before,
    decreases ops.len(),
{
    if ops.len() > 0 {
        lemma_nothing_after_cursor(ops.drop_last());
    }
    let v = apply_ops(empty_view(), ops);
    assert(output_text(v) =~= v.before);
}

/// Backspace deletes the character just before the cursor: the last pending romaji
/// character while romaji is pending (the committed text stays), else the last
/// committed character before the cursor; the text after the cursor never changes.
/// The shown text loses exactly the character before the cursor.
pub proof fn lemma_backspace_deletes_before_cursor(v: InputView)
    ensures
        v.pending.len() > 0 ==> backspaced(v).pending == v.pending.drop_last() && backspaced(
            v,
        ).before == v.before,
        v.pending.len() == 0 && v.before.len() > 0 ==> backspaced(v).before == v.before.drop_last()
            && backspaced(v).pending.len() == 0,
        v.pending.len() == 0 && v.before.len() == 0 ==> backspaced(v) == v,
        backspaced(v).after == v.after,
        v.before.len() + v.pending.len() > 0 ==> display_text(backspaced(v)) == (v.before
            + v.pending).drop_last() + v.after,
        v.before.len() + v.pending.len() > 0 ==> backspaced(v).before + backspaced(v).pending == (
        v.before + v.pending).drop_last(),
{
    if v.before.len() + v.pending.len() > 0 {
        let b = backspaced(v);
        if v.pending.len() > 0 {
            assert(b.before + b.pending =~= (v.before + v.pending).drop_last());
        } else {
            assert(b.before + b.pending =~= (v.before + v.pending).drop_last());
        }
        assert(display_text(b) =~= (b.before + b.pending) + v.after);
    }
}

/// Flushing commits the pending romaji before the cursor: a lone `n` as `ん`
/// (U+3093), anything else character for character, so the committed text grows by
/// the pending text and nothing is left pending.
pub proof fn lemma_flush_commits_pending(v: InputView)
    ensures
        flushed(v).pending.len() == 0,
        flushed(v).after == v.after,
        v.pending == seq!['n'] ==> flushed(v).before == v.before.push('\u{3093}'),
        v.pending != seq!['n'] ==> flushed(v).before == v.before + v.pending,
        flushed(v).before.subrange(0, v.before.len() as int) == v.before,
{
    let f = flushed(v);
    if v.pending == seq!['n'] {
        assert(f.before =~= v.before.push('\u{3093}'));
    }
    assert(f.before.subrange(0, v.before.len() as int) =~= v.before);
}

} // verus!
