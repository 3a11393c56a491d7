use vstd::prelude::*;
use crate::handler::{Handler, HandlerFault};
use crate::widget::{Widget, WidgetView};

verus! {

/// What one dispatch of a chain of handlers comes to.
pub struct ChainRun {
    /// The widget as the last handler that ran left it.
    pub widget: WidgetView,
    /// How many handlers ran, the one that faulted included.
    pub invoked: nat,
    /// The message of the fault that ended the dispatch, if one did.
    pub fault: Option<Seq<char>>,
}

/// The widget once `handler` has run on it: the handler decides the label, the
/// identity stays.
pub open spec fn applied<H: Handler>(handler: H, widget: WidgetView) -> WidgetView {
    WidgetView { id: widget.id, label: handler.label_after(widget) }
}

/// One dispatch of `chain` on `widget`: the handlers run from the first on, each on
/// the widget as the one before left it, and a fault ends the dispatch with the
/// handler that raised it.
pub open spec fn run_chain<H: Handler>(chain: Seq<H>, widget: WidgetView) -> ChainRun
    decreases chain.len(),
{
    if chain.len() == 0 {
        ChainRun { widget, invoked: 0, fault: None }
    } else {
        let before = run_chain(chain.drop_last(), widget);
        if before.fault is Some {
            before
        } else {
            ChainRun {
                widget: applied(chain.last(), before.widget),
                invoked: before.invoked + 1,
                fault: chain.last().fault_on(before.widget),
            }
        }
    }
}

/// A fault that ended a dispatch: which handler of the chain raised it, counted
/// from zero, and the fault itself.
#[derive(Debug, PartialEq, Eq)]
pub struct DispatchFault {
    pub position: usize,
    pub fault: HandlerFault,
}

impl Clone for DispatchFault {
    fn clone(&self) -> (copy: DispatchFault)
        ensures
            copy == *self,
    {
        DispatchFault { position: self.position, fault: self.fault.clone() }
    }
}

/// Whether `result` reports `run`: the count of handlers of a dispatch that went
/// through, or the place and the message of the fault that ended it.
pub open spec fn reports(result: Result<usize, DispatchFault>, run: ChainRun) -> bool {
    match result {
        Ok(count) => run.fault is None && count == run.invoked,
        Err(abort) => run.fault == Some(abort.fault@) && abort.position + 1 == run.invoked,
    }
}

/// Once a prefix of a chain has ended in a fault, the handlers behind it change
/// nothing in the dispatch.
pub proof fn lemma_fault_ends_dispatch<H: Handler>(chain: Seq<H>, widget: WidgetView, k: int)
    requires
        0 <= k <= chain.len(),
        run_chain(chain.take(k), widget).fault is Some,
    ensures
        run_chain(chain, widget) == run_chain(chain.take(k), widget),
    decreases chain.len() - k,
{
    if k == chain.len() {
        assert(chain.take(k) =~= chain);
    } else {
        assert(chain.drop_last().take(k) =~= chain.take(k));
        lemma_fault_ends_dispatch(chain.drop_last(), widget, k);
    }
}

/// A dispatch runs no more handlers than the chain holds, and all of them unless
/// it ends in a fault.
pub proof fn lemma_invoked_count<H: Handler>(chain: Seq<H>, widget: WidgetView)
    ensures
        run_chain(chain, widget).invoked <= chain.len(),
        run_chain(chain, widget).fault is None ==> run_chain(chain, widget).invoked == chain.len(),
        chain.len() > 0 ==> run_chain(chain, widget).invoked >= 1,
        run_chain(chain, widget).widget.id == widget.id,
    decreases chain.len(),
{
    if chain.len() > 0 {
        lemma_invoked_count(chain.drop_last(), widget);
    }
}

/// The widget once every handler of `chain` has run on it, each exactly once, the
/// first one first.
pub open spec fn run_all<H: Handler>(chain: Seq<H>, widget: WidgetView) -> WidgetView {
    chain.fold_left(widget, |seen: WidgetView, handler: H| applied(handler, seen))
}

/// A dispatch in which no handler faults runs every handler of the chain exactly
/// once, in the order of the chain, each on the widget as the handlers before it
/// left it.
pub proof fn lemma_dispatch_runs_each_once_in_order<H: Handler>(chain: Seq<H>, widget: WidgetView)
    requires
        run_chain(chain, widget).fault is None,
    ensures
        run_chain(chain, widget) == (ChainRun {
            widget: run_all(chain, widget),
            invoked: chain.len(),
            fault: None,
        }),
    decreases chain.len(),
{
    if chain.len() > 0 {
        lemma_dispatch_runs_each_once_in_order(chain.drop_last(), widget);
    }
}

/// A fault of the handler at position `k` ends the dispatch there: the handlers
/// before it have run, each once and in order, the handler at `k` has run on what
/// they left, and the handlers behind it have not run. What the dispatch comes to
/// is the same whatever stands behind position `k`.
pub proof fn lemma_fault_skips_the_rest<H: Handler>(chain: Seq<H>, widget: WidgetView, k: int)
    requires
        0 <= k < chain.len(),
        run_chain(chain.take(k), widget).fault is None,
        chain[k].fault_on(run_chain(chain.take(k), widget).widget) is Some,
    ensures
        run_chain(chain, widget) == (ChainRun {
            widget: applied(chain[k], run_all(chain.take(k), widget)),
            invoked: (k + 1) as nat,
            fault: chain[k].fault_on(run_all(chain.take(k), widget)),
        }),
{
    lemma_dispatch_runs_each_once_in_order(chain.take(k), widget);
    assert(chain.take(k + 1).drop_last() =~= chain.take(k));
    lemma_fault_ends_dispatch(chain, widget, k + 1);
}

/// Last writer wins: where every handler of a chain sets the label to a text of
/// its own, whatever the label was, the label after a dispatch is the text of the
/// last handler that ran.
pub proof fn lemma_last_writer_wins<H: Handler>(
    chain: Seq<H>,
    labels: Seq<Seq<char>>,
    widget: WidgetView,
)
    requires
        chain.len() >= 1,
        labels.len() == chain.len(),
        forall|i: int, seen: WidgetView|
            0 <= i < chain.len() ==> #[trigger] chain[i].label_after(seen) == labels[i],
    ensures
        1 <= run_chain(chain, widget).invoked <= chain.len(),
        run_chain(chain, widget).widget.label == labels[run_chain(chain, widget).invoked - 1],
    decreases chain.len(),
{
    let front = chain.drop_last();
    lemma_invoked_count(front, widget);
    if front.len() > 0 {
        assert forall|i: int, seen: WidgetView| 0 <= i < front.len() implies #[trigger]
            front[i].label_after(seen) == labels.drop_last()[i] by {}
        lemma_last_writer_wins(front, labels.drop_last(), widget);
    }
}

/// Runs the handlers of `handlers` on `widget`, first to last, and stops at the
/// first fault.
pub fn run_handlers<H: Handler>(handlers: &Vec<H>, widget: &mut Widget) -> (result: Result<
    usize,
    DispatchFault,
>)
    ensures
        final(widget)@ == run_chain(handlers@, old(widget)@).widget,
        reports(result, run_chain(handlers@, old(widget)@)),
{
    let ghost start = widget@;
    let mut done: usize = 0;
    while done < handlers.len()
        invariant
            done <= handlers.len(),
            start == old(widget)@,
            run_chain(handlers@.take(done as int), start) == (ChainRun {
                widget: widget@,
                invoked: done as nat,
                fault: None,
            }),
        decreases handlers.len() - done,
    {
        let outcome = handlers[done].run(widget);
        proof {
            assert(handlers@.take(done + 1).drop_last() =~= handlers@.take(done as int));
        }
        match outcome {
            Ok(_) => {},
            Err(fault) => {
                proof {
                    lemma_fault_ends_dispatch(handlers@, start, done + 1);
                }
                return Err(DispatchFault { position: done, fault });
            },
        }
        done += 1;
    }
    proof {
        assert(handlers@.take(done as int) =~= handlers@);
    }
    Ok(done)
}

} // verus!
