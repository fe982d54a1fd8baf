//! The formatter that a whole program shares, and scopes on it.
//!
//! The program keeps one formatter behind a lock. Each function here is one
//! step on that formatter and is meant to run with the lock held; the code
//! that a scope surrounds runs between `nest` and `restore`, without the
//! lock.

use std::fmt::Display;
use vstd::prelude::*;

use crate::config::{Config, ConfigView};
use crate::line::Line;
use crate::xmt::{labels_of, PromptError, XMTView, XMT};

verus! {

/// The shared formatter while a scope entered on `before` is open.
pub open spec fn entered(before: XMTView) -> XMTView {
    before.nest()
}

/// The shared formatter after a scope was left: the one that was saved when
/// the scope was entered, whatever is shared now.
pub open spec fn left(during: XMTView, saved: XMTView) -> XMTView {
    saved
}

/// Puts a new formatter, made from `cfg`, in the place of the shared one.
/// The new one is at depth zero and finds out anew whether the streams are
/// terminals.
pub fn init(shared: &mut XMT, cfg: Config)
    ensures
        final(shared)@.cfg == cfg@,
        final(shared)@.indent == 0,
{
    *shared = XMT::new(cfg);
}

/// Puts a new formatter with text output and an empty theme in the place
/// of the shared one.
pub fn init_default(shared: &mut XMT)
    ensures
        final(shared)@.cfg == ConfigView::initial(),
        final(shared)@.indent == 0,
{
    init(shared, Config::default());
}

/// Enters a scope: the shared formatter gets one level deeper. Returns the
/// formatter that was shared until now, to be handed to `restore` when the
/// scope is left, and the line of `message` as that formatter writes it.
pub fn nest(shared: &mut XMT, message: &str) -> (scope: (XMT, Option<Line>))
    requires
        old(shared)@.indent < usize::MAX,
    ensures
        scope.0@ == old(shared)@,
        scope.1.deep_view() == old(shared)@.print(message@),
        final(shared)@ == entered(old(shared)@),
{
    let nested = shared.nest();
    let header = shared.print(message);
    let mut orig = nested;
    std::mem::swap(shared, &mut orig);
    (orig, header)
}

/// Leaves a scope: `saved`, the formatter that `nest` returned, is shared
/// again.
pub fn restore(shared: &mut XMT, saved: XMT)
    ensures
        final(shared)@ == left(old(shared)@, saved@),
{
    *shared = saved;
}

/// Runs `body` in a scope of the shared formatter. `body` is handed the
/// shared formatter, one level deeper, and the line of `message` as the
/// formatter wrote it before the scope, which is to be written first. It
/// may do to the shared formatter what it likes, enter further scopes
/// included: when it returns, the shared formatter is again what it was
/// before the call. Returns what `body` returns.
pub fn nest_scope<T, F: FnOnce(&mut XMT, Option<Line>) -> T>(
    shared: &mut XMT,
    message: &str,
    body: F,
) -> (value: T)
    requires
        old(shared)@.indent < usize::MAX,
        forall|inner: &mut XMT, header: Option<Line>|
            (*inner)@ == entered(old(shared)@) && header.deep_view() == old(shared)@.print(
                message@,
            ) ==> #[trigger] body.requires((inner, header)),
    ensures
        final(shared)@ == old(shared)@,
        final(shared)@.indent == old(shared)@.indent,
        exists|inner: &mut XMT, header: Option<Line>|
            (*inner)@ == entered(old(shared)@) && header.deep_view() == old(shared)@.print(
                message@,
            ) && #[trigger] body.ensures((inner, header), value),
{
    let (saved, header) = nest(shared, message);
    let value = body(shared, header);
    restore(shared, saved);
    value
}

/// The menu of a pick among `items`, as the shared formatter writes it.
pub fn pick<E: Display>(shared: &XMT, msg: &str, items: &[E]) -> (shown: Result<
    Vec<Line>,
    PromptError,
>)
    ensures
        shown is Ok <==> shared@.stdout_tty,
        shown matches Ok(lines) ==> exists|labels: Seq<Seq<char>>|
            labels_of(items@, labels) && lines.deep_view() == #[trigger] shared@.menu(msg@, labels),
        shown matches Err(e) ==> e == PromptError::Unsupported,
{
    shared.pick(msg, items)
}

/// When a scope is left, the shared formatter is the one it was before the
/// scope was entered, at the same depth, whatever was done to it while the
/// scope was open: further scopes entered and left, or left open.
pub proof fn lemma_scope_restores(before: XMTView, during: XMTView)
    ensures
        left(during, before) == before,
        left(during, before).indent == before.indent,
        left(left(during, entered(before)), before) == before,
{
}

/// Of two scopes, one inside the other: in the outer one the shared
/// formatter is one level deeper than before, in the inner one two levels;
/// when the inner one is left it is one level deeper again, and when the
/// outer one is left it is at the depth from before. `inner` and `outer`
/// stand for what is shared when the inner and the outer scope are left.
pub proof fn lemma_two_scopes(before: XMTView, inner: XMTView, outer: XMTView)
    ensures
        entered(before).indent == before.indent + 1,
        entered(entered(before)).indent == before.indent + 2,
        left(inner, entered(before)).indent == before.indent + 1,
        left(outer, before).indent == before.indent,
        left(outer, before) == before,
{
}

/// One step of a program on the shared formatter.
pub enum ScopeStep {
    /// A scope is entered.
    Enter,
    /// The scope that was entered last, and is still open, is left.
    Leave,
}

/// The shared formatter together with the formatters that the open scopes
/// have saved, the innermost scope last.
pub struct Scopes {
    pub shared: XMTView,
    pub saved: Seq<XMTView>,
}

impl Scopes {
    /// The state after one step. Leaving with no scope open changes nothing.
    pub open spec fn step(self, step: ScopeStep) -> Scopes {
        match step {
            ScopeStep::Enter => Scopes {
                shared: entered(self.shared),
                saved: self.saved.push(self.shared),
            },
            ScopeStep::Leave => if self.saved.len() > 0 {
                Scopes {
                    shared: left(self.shared, self.saved.last()),
                    saved: self.saved.drop_last(),
                }
            } else {
                self
            },
        }
    }

    /// The state after some steps, taken in order.
    pub open spec fn run(self, steps: Seq<ScopeStep>) -> Scopes
        decreases steps.len(),
    {
        if steps.len() == 0 {
            self
        } else {
            self.run(steps.drop_last()).step(steps.last())
        }
    }
}

/// How many more scopes were entered than left in the course of `steps`.
pub open spec fn opened(steps: Seq<ScopeStep>) -> int
    decreases steps.len(),
{
    if steps.len() == 0 {
        0
    } else {
        opened(steps.drop_last()) + match steps.last() {
            ScopeStep::Enter => 1int,
            ScopeStep::Leave => -1int,
        }
    }
}

/// Whether `steps` leave no scope but those they entered before.
pub open spec fn well_nested(steps: Seq<ScopeStep>) -> bool {
    forall|k: int| 0 <= k <= steps.len() ==> opened(#[trigger] steps.take(k)) >= 0
}

/// `x`, `by` levels deeper.
pub open spec fn deepened(x: XMTView, by: nat) -> XMTView {
    XMTView { indent: x.indent + by, ..x }
}

/// Scopes form a stack. After steps that leave no scope but their own, the
/// shared formatter is the one from before, deeper by the number of scopes
/// still open, and each of those scopes has saved the formatter of its own
/// depth; what was saved before the steps is untouched. So once every scope
/// that was entered has been left, the shared formatter is exactly what it
/// was, however many scopes were entered and left in between.
pub proof fn lemma_scopes_stack(start: Scopes, steps: Seq<ScopeStep>)
    requires
        well_nested(steps),
    ensures
        start.run(steps).shared == deepened(start.shared, opened(steps) as nat),
        start.run(steps).saved.len() == start.saved.len() + opened(steps),
        forall|j: int|
            0 <= j < start.saved.len() ==> #[trigger] start.run(steps).saved[j] == start.saved[j],
        forall|j: int|
            start.saved.len() <= j < start.saved.len() + opened(steps)
                ==> #[trigger] start.run(steps).saved[j] == deepened(
                start.shared,
                (j - start.saved.len()) as nat,
            ),
        opened(steps) == 0 ==> start.run(steps) == start,
    decreases steps.len(),
{
    assert(steps.take(steps.len() as int) =~= steps);
    if steps.len() > 0 {
        let front = steps.drop_last();
        assert forall|k: int| 0 <= k <= front.len() implies opened(#[trigger] front.take(k))
            >= 0 by {
            assert(front.take(k) =~= steps.take(k));
        }
        lemma_scopes_stack(start, front);
    }
    if opened(steps) == 0 {
        assert(start.run(steps).saved =~= start.saved);
    }
}

} // verus!
