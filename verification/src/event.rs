//! The events the bridge works on: a plain record of one key press, the
//! discriminated terminal event that carries it, and the outcome of one
//! blocking terminal read.

use vstd::prelude::*;

verus! {

/// Whether a key event reports the key going down, coming up, or repeating.
#[derive(Clone, Copy, PartialEq, Eq, Debug)]
pub enum KeyEventKind {
    Press,
    Release,
    Repeat,
}

/// One decoded key event, as the terminal driver reports it: the key's
/// identity, the modifier bits held while it fired, and the kind of
/// transition. The bridge never interprets these fields; it only carries
/// them through.
#[derive(Clone, Copy, PartialEq, Eq, Debug)]
pub struct KeyEvent {
    /// The character the key stands for.
    pub code: char,
    /// Modifier state as a bit set (shift, control, alt, ...).
    pub modifiers: u8,
    /// Press, release or repeat.
    pub kind: KeyEventKind,
}

impl KeyEvent {
    /// A plain press of `code` with no modifiers held.
    pub fn press(code: char) -> (e: KeyEvent)
        ensures
            e.code == code,
            e.modifiers == 0u8,
            e.kind == KeyEventKind::Press,
    {
        KeyEvent { code, modifiers: 0u8, kind: KeyEventKind::Press }
    }
}

/// One event decoded from the terminal's input stream. Only the key class
/// interests the bridge; the rest are recognized just far enough to be
/// discarded.
#[derive(Clone, Copy, PartialEq, Eq, Debug)]
pub enum TermEvent {
    /// A key event: the one class the bridge forwards.
    Key(KeyEvent),
    /// A mouse event; discarded.
    Mouse,
    /// A window-resize event; discarded.
    Resize,
    /// The terminal gained focus; discarded.
    FocusGained,
    /// The terminal lost focus; discarded.
    FocusLost,
}

/// What one blocking read of the terminal produced: a decoded event, or a
/// transient driver fault that the bridge skips over.
#[derive(Clone, Copy, PartialEq, Eq, Debug)]
pub enum ReadOutcome {
    /// The read succeeded and decoded one event.
    Event(TermEvent),
    /// The read failed; the bridge ignores the iteration and polls again.
    Fault,
}

/// The key event a read outcome carries, if it carries one: the filter the
/// bridge applies to everything the terminal produces.
pub open spec fn key_of(outcome: ReadOutcome) -> Option<KeyEvent> {
    match outcome {
        ReadOutcome::Event(TermEvent::Key(k)) => Some(k),
        _ => None,
    }
}

/// What the filter keeps of one outcome: one key event, or nothing.
pub open spec fn kept_of(outcome: ReadOutcome) -> Seq<KeyEvent> {
    match key_of(outcome) {
        Some(k) => seq![k],
        None => Seq::empty(),
    }
}

/// The key events among a whole run of read outcomes, in order: what the
/// bridge's filter keeps of everything the terminal produced.
pub open spec fn keys_of(outcomes: Seq<ReadOutcome>) -> Seq<KeyEvent>
    decreases outcomes.len(),
{
    if outcomes.len() == 0 {
        Seq::empty()
    } else {
        keys_of(outcomes.drop_last()) + kept_of(outcomes.last())
    }
}

/// One more outcome at the end of a run adds exactly what the filter
/// keeps of it.
pub proof fn lemma_keys_of_push(outcomes: Seq<ReadOutcome>, outcome: ReadOutcome)
    ensures
        keys_of(outcomes.push(outcome)) == keys_of(outcomes) + kept_of(outcome),
{
    assert(outcomes.push(outcome).drop_last() =~= outcomes);
}

/// The filter treats a run piecewise: what it keeps of two runs read one
/// after the other is what it keeps of the first followed by what it
/// keeps of the second.
pub proof fn lemma_keys_of_append(a: Seq<ReadOutcome>, b: Seq<ReadOutcome>)
    ensures
        keys_of(a + b) == keys_of(a) + keys_of(b),
    decreases b.len(),
{
    if b.len() == 0 {
        assert(a + b =~= a);
        assert(keys_of(a) + keys_of(b) =~= keys_of(a));
    } else {
        lemma_keys_of_append(a, b.drop_last());
        assert((a + b).drop_last() =~= a + b.drop_last());
        assert((a + b).last() == b.last());
        assert(keys_of(a + b)
            == keys_of(a) + keys_of(b.drop_last()) + kept_of(b.last()));
        assert(keys_of(a) + keys_of(b.drop_last()) + kept_of(b.last())
            =~= keys_of(a) + (keys_of(b.drop_last()) + kept_of(b.last())));
    }
}

/// Picks the key event out of a read outcome, or `None` for a fault or an
/// event of any other class.
pub fn classify(outcome: ReadOutcome) -> (r: Option<KeyEvent>)
    ensures
        r == key_of(outcome),
{
    match outcome {
        ReadOutcome::Event(TermEvent::Key(k)) => Some(k),
        _ => None,
    }
}

} // verus!
