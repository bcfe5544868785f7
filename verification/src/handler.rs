//! The event handler: the state that drives event intake, resizing and
//! drag-and-drop.
//!
//! The handler owns the viewport description, the declared shape of the
//! swap-chain, the queue of input events accumulated between redraws,
//! and the drag-exit flag. Every mutation states exactly how the new
//! state relates to the old one, so the drag-and-drop suppression rule
//! and the swap-chain sizing rule are proved, not just implemented.

use vstd::prelude::*;

use crate::event::Event;
use crate::event::WindowEvent;
use crate::gpu::SwapChainDescriptor;
use crate::gpu::spec_swap_chain_descriptor;
use crate::gpu::swap_chain_descriptor;
use crate::translate::NativeEvent;
use crate::translate::spec_translate;
use crate::translate::translate;

verus! {

/// The drawable area: its physical pixel size and its scale factor.
///
/// The scale factor is passed through to the platform unconverted; the
/// logical size the toolkit works in is the physical size divided by it,
/// and computing that division is the toolkit's own affair.
#[derive(Clone, Copy, Debug, PartialEq)]
pub struct Viewport<S> {
    /// The width in physical pixels.
    pub width: u32,
    /// The height in physical pixels.
    pub height: u32,
    /// The backing scale factor.
    pub scale_factor: S,
}

/// One file-hovered event per dragged path, in order.
pub open spec fn spec_hovered_events<S>(paths: Seq<String>) -> Seq<Event<S>>
    decreases paths.len(),
{
    if paths.len() == 0 {
        Seq::empty()
    } else {
        spec_hovered_events(paths.drop_last()).push(
            Event::Window(WindowEvent::FileHovered(paths.last())),
        )
    }
}

/// One file-dropped event per dragged path, in order.
pub open spec fn spec_dropped_events<S>(paths: Seq<String>) -> Seq<Event<S>>
    decreases paths.len(),
{
    if paths.len() == 0 {
        Seq::empty()
    } else {
        spec_dropped_events(paths.drop_last()).push(
            Event::Window(WindowEvent::FileDropped(paths.last())),
        )
    }
}

/// What a drag-enter does to the handler: the queue grows by one
/// file-hovered event per path and the drag-exit flag is cleared.
pub open spec fn spec_drag_entered<S>(queue: Seq<Event<S>>, paths: Seq<String>) -> (Seq<
    Event<S>,
>, bool) {
    (queue + spec_hovered_events(paths), false)
}

/// What a drag-exit does to the handler: the queue grows by one
/// files-hovered-left event and the drag-exit flag is set.
pub open spec fn spec_drag_exited<S>(queue: Seq<Event<S>>) -> (Seq<Event<S>>, bool) {
    (queue.push(Event::Window(WindowEvent::FilesHoveredLeft)), true)
}

/// What a drag-end does to the queue: nothing when a drag-exit was
/// seen, otherwise one file-dropped event per path.
pub open spec fn spec_drag_ended<S>(
    queue: Seq<Event<S>>,
    did_exit_drag: bool,
    paths: Seq<String>,
) -> Seq<Event<S>> {
    if did_exit_drag {
        queue
    } else {
        queue + spec_dropped_events(paths)
    }
}

/// Whether an event is a file drop.
pub open spec fn spec_is_file_dropped<S>(e: Event<S>) -> bool {
    e matches Event::Window(WindowEvent::FileDropped(_))
}

/// How many file-dropped events a queue holds.
pub open spec fn spec_drop_count<S>(queue: Seq<Event<S>>) -> nat
    decreases queue.len(),
{
    if queue.len() == 0 {
        0
    } else {
        spec_drop_count(queue.drop_last()) + if spec_is_file_dropped(queue.last()) {
            1nat
        } else {
            0nat
        }
    }
}

/// Counting file drops distributes over concatenation.
pub proof fn lemma_drop_count_append<S>(a: Seq<Event<S>>, b: Seq<Event<S>>)
    ensures
        spec_drop_count(a + b) == spec_drop_count(a) + spec_drop_count(b),
    decreases b.len(),
{
    if b.len() == 0 {
        assert(a + b =~= a);
    } else {
        lemma_drop_count_append(a, b.drop_last());
        assert((a + b).drop_last() =~= a + b.drop_last());
        assert((a + b).last() == b.last());
    }
}

/// Hovering files drops none of them.
pub proof fn lemma_hovered_events_drop_none<S>(paths: Seq<String>)
    ensures
        spec_drop_count(spec_hovered_events::<S>(paths)) == 0,
    decreases paths.len(),
{
    if paths.len() > 0 {
        lemma_hovered_events_drop_none::<S>(paths.drop_last());
        let evs = spec_hovered_events::<S>(paths);
        assert(evs.drop_last() =~= spec_hovered_events::<S>(paths.drop_last()));
    }
}

/// A drag-end without a preceding drag-exit emits exactly one
/// file-dropped event per path, in order, and nothing else.
pub proof fn lemma_dropped_events_one_per_path<S>(paths: Seq<String>)
    ensures
        spec_dropped_events::<S>(paths).len() == paths.len(),
        forall|i: int|
            0 <= i < paths.len() ==> spec_dropped_events::<S>(paths)[i] == Event::<S>::Window(
                WindowEvent::FileDropped(paths[i]),
            ),
        spec_drop_count(spec_dropped_events::<S>(paths)) == paths.len(),
    decreases paths.len(),
{
    if paths.len() > 0 {
        lemma_dropped_events_one_per_path::<S>(paths.drop_last());
        let evs = spec_dropped_events::<S>(paths);
        assert(evs.drop_last() =~= spec_dropped_events::<S>(paths.drop_last()));
        assert forall|i: int| 0 <= i < paths.len() implies evs[i] == Event::<S>::Window(
            WindowEvent::FileDropped(paths[i]),
        ) by {
            if i < paths.len() - 1 {
                assert(evs[i] == evs.drop_last()[i]);
                assert(paths[i] == paths.drop_last()[i]);
            }
        }
    }
}

/// A drag-enter followed at once by a drag-exit, with no drag-end in
/// between, suppresses the drop: the drag-end that follows queues
/// nothing, and the whole sequence emits no file-dropped event.
pub proof fn lemma_drag_exit_suppresses_drop<S>(
    queue: Seq<Event<S>>,
    hovered: Seq<String>,
    dropped: Seq<String>,
)
    ensures
        ({
            let (entered, exit_flag_after_enter) = spec_drag_entered(queue, hovered);
            let (exited, exit_flag_after_exit) = spec_drag_exited(entered);
            let ended = spec_drag_ended(exited, exit_flag_after_exit, dropped);
            &&& ended == exited
            &&& spec_drop_count(ended) == spec_drop_count(queue)
        }),
{
    let (entered, _) = spec_drag_entered(queue, hovered);
    let (exited, _) = spec_drag_exited::<S>(entered);
    lemma_drop_count_append(queue, spec_hovered_events::<S>(hovered));
    lemma_hovered_events_drop_none::<S>(hovered);
    assert(exited.drop_last() =~= entered);
}

/// A drag-enter followed by a drag-end, with no drag-exit in between,
/// emits exactly one file-dropped event per hovered path: the queue
/// grows by just those events, and the count of file drops grows by
/// exactly the number of paths.
pub proof fn lemma_drag_end_drops_each_path<S>(queue: Seq<Event<S>>, hovered: Seq<String>)
    ensures
        ({
            let (entered, exit_flag) = spec_drag_entered(queue, hovered);
            let ended = spec_drag_ended(entered, exit_flag, hovered);
            &&& ended.len() == entered.len() + hovered.len()
            &&& forall|i: int|
                0 <= i < hovered.len() ==> ended[entered.len() + i] == Event::<S>::Window(
                    WindowEvent::FileDropped(hovered[i]),
                )
            &&& spec_drop_count(ended) == spec_drop_count(queue) + hovered.len()
        }),
{
    let (entered, _) = spec_drag_entered(queue, hovered);
    lemma_drop_count_append(queue, spec_hovered_events::<S>(hovered));
    lemma_hovered_events_drop_none::<S>(hovered);
    lemma_drop_count_append(entered, spec_dropped_events::<S>(hovered));
    lemma_dropped_events_one_per_path::<S>(hovered);
}

/// Reads one path out of a drag payload.
fn path_at(paths: &Vec<String>, i: usize) -> (p: String)
    requires
        i < paths@.len(),
    ensures
        p == paths@[i as int],
{
    paths[i].clone()
}

/// The state that the view's callbacks drive.
pub struct EventHandler<S> {
    /// The input events accumulated since the last redraw, oldest first.
    pub queue: Vec<Event<S>>,
    /// Whether the current drag sequence saw a drag-exit; a drag-end
    /// after an exit drops nothing.
    pub did_exit_drag: bool,
    /// The drawable area of the moment.
    pub viewport: Viewport<S>,
    /// The declared shape of the swap-chain of the moment.
    pub swap_chain: SwapChainDescriptor,
}

impl<S: Copy> EventHandler<S> {
    /// Sets up the handler for a viewport: the swap-chain is declared at
    /// exactly the viewport's physical size, the event queue starts
    /// empty, and no drag-exit is pending.
    pub fn new(viewport: Viewport<S>) -> (h: Self)
        ensures
            h.viewport == viewport,
            h.swap_chain == spec_swap_chain_descriptor(viewport.width, viewport.height),
            h.queue@ == Seq::<Event<S>>::empty(),
            !h.did_exit_drag,
    {
        EventHandler {
            queue: Vec::new(),
            did_exit_drag: false,
            viewport,
            swap_chain: swap_chain_descriptor(viewport.width, viewport.height),
        }
    }

    /// Appends translated events to the queue, oldest first.
    pub fn queue_events(&mut self, events: Vec<Event<S>>)
        ensures
            final(self).queue@ == old(self).queue@ + events@,
            final(self).did_exit_drag == old(self).did_exit_drag,
            final(self).viewport == old(self).viewport,
            final(self).swap_chain == old(self).swap_chain,
    {
        let mut events = events;
        let ghost all = events@;
        while events.len() > 0
            invariant
                events@.len() <= all.len(),
                events@ == all.skip(all.len() - events@.len()),
                self.queue@ == old(self).queue@ + all.take(all.len() - events@.len()),
                self.did_exit_drag == old(self).did_exit_drag,
                self.viewport == old(self).viewport,
                self.swap_chain == old(self).swap_chain,
            decreases events@.len(),
        {
            let ghost k = all.len() - events@.len();
            let e = events.remove(0);
            self.queue.push(e);
            proof {
                assert(e == all[k]);
                assert(events@ =~= all.skip(k + 1));
                assert(all.take(k + 1) =~= all.take(k).push(all[k]));
                assert(old(self).queue@ + all.take(k + 1) =~= (old(self).queue@ + all.take(
                    k,
                )).push(all[k]));
            }
        }
        proof {
            assert(all.take(all.len() as int) =~= all);
        }
    }

    /// Translates one native input event and queues what it stands for.
    pub fn handle_native_event(&mut self, native: NativeEvent<S>)
        ensures
            final(self).queue@ == old(self).queue@ + spec_translate(native),
            final(self).did_exit_drag == old(self).did_exit_drag,
            final(self).viewport == old(self).viewport,
            final(self).swap_chain == old(self).swap_chain,
    {
        let events = translate(native);
        self.queue_events(events);
    }

    /// Queues one window event.
    pub fn on_window_event(&mut self, event: WindowEvent)
        ensures
            final(self).queue@ == old(self).queue@.push(Event::Window(event)),
            final(self).did_exit_drag == old(self).did_exit_drag,
            final(self).viewport == old(self).viewport,
            final(self).swap_chain == old(self).swap_chain,
    {
        self.queue.push(Event::Window(event));
    }

    /// Applies a resize: the viewport becomes the new size and scale,
    /// the swap-chain is unconditionally rebuilt at exactly the new
    /// size with no stale dimension retained, and one resize event
    /// carrying the new size is queued.
    pub fn resize(&mut self, width: u32, height: u32, scale_factor: S)
        ensures
            final(self).viewport == (Viewport { width, height, scale_factor }),
            final(self).swap_chain == spec_swap_chain_descriptor(width, height),
            final(self).queue@ == old(self).queue@.push(
                Event::Window(WindowEvent::Resized { width, height }),
            ),
            final(self).did_exit_drag == old(self).did_exit_drag,
    {
        self.viewport = Viewport { width, height, scale_factor };
        self.swap_chain = swap_chain_descriptor(width, height);
        self.on_window_event(WindowEvent::Resized { width, height });
    }

    /// Begins a drag sequence: the drag-exit flag is cleared and one
    /// file-hovered event is queued per dragged path, in order.
    pub fn drag_entered(&mut self, paths: &Vec<String>)
        ensures
            final(self).queue@ == old(self).queue@ + spec_hovered_events::<S>(paths@),
            !final(self).did_exit_drag,
            (final(self).queue@, final(self).did_exit_drag) == spec_drag_entered::<S>(
                old(self).queue@,
                paths@,
            ),
            final(self).viewport == old(self).viewport,
            final(self).swap_chain == old(self).swap_chain,
    {
        self.did_exit_drag = false;
        let mut i: usize = 0;
        while i < paths.len()
            invariant
                i <= paths@.len(),
                self.queue@ == old(self).queue@ + spec_hovered_events::<S>(paths@.take(i as int)),
                !self.did_exit_drag,
                self.viewport == old(self).viewport,
                self.swap_chain == old(self).swap_chain,
            decreases paths@.len() - i,
        {
            let p = path_at(paths, i);
            self.queue.push(Event::Window(WindowEvent::FileHovered(p)));
            proof {
                let taken = paths@.take(i + 1);
                assert(taken.drop_last() =~= paths@.take(i as int));
                assert(taken.last() == paths@[i as int]);
                assert(old(self).queue@ + spec_hovered_events::<S>(taken) =~= (old(self).queue@
                    + spec_hovered_events::<S>(paths@.take(i as int))).push(
                    Event::Window(WindowEvent::FileHovered(paths@[i as int])),
                ));
            }
            i += 1;
        }
        proof {
            assert(paths@.take(paths@.len() as int) =~= paths@);
        }
    }

    /// Notes that the dragged files left the view: the drag-exit flag is
    /// set and one files-hovered-left event is queued.
    pub fn drag_exited(&mut self)
        ensures
            final(self).queue@ == old(self).queue@.push(
                Event::Window(WindowEvent::FilesHoveredLeft),
            ),
            final(self).did_exit_drag,
            (final(self).queue@, final(self).did_exit_drag) == spec_drag_exited::<S>(
                old(self).queue@,
            ),
            final(self).viewport == old(self).viewport,
            final(self).swap_chain == old(self).swap_chain,
    {
        self.did_exit_drag = true;
        self.queue.push(Event::Window(WindowEvent::FilesHoveredLeft));
    }

    /// Ends a drag sequence. If a drag-exit was seen since the sequence
    /// began, nothing is queued: the exit already stands for the files
    /// leaving, and queueing a drop too would double-fire. Otherwise one
    /// file-dropped event is queued per dragged path, in order.
    pub fn drag_ended(&mut self, paths: &Vec<String>)
        ensures
            final(self).queue@ == spec_drag_ended::<S>(
                old(self).queue@,
                old(self).did_exit_drag,
                paths@,
            ),
            final(self).did_exit_drag == old(self).did_exit_drag,
            final(self).viewport == old(self).viewport,
            final(self).swap_chain == old(self).swap_chain,
    {
        if self.did_exit_drag {
            return;
        }
        let mut i: usize = 0;
        while i < paths.len()
            invariant
                i <= paths@.len(),
                self.queue@ == old(self).queue@ + spec_dropped_events::<S>(paths@.take(i as int)),
                self.did_exit_drag == old(self).did_exit_drag,
                !self.did_exit_drag,
                self.viewport == old(self).viewport,
                self.swap_chain == old(self).swap_chain,
            decreases paths@.len() - i,
        {
            let p = path_at(paths, i);
            self.queue.push(Event::Window(WindowEvent::FileDropped(p)));
            proof {
                let taken = paths@.take(i + 1);
                assert(taken.drop_last() =~= paths@.take(i as int));
                assert(taken.last() == paths@[i as int]);
                assert(old(self).queue@ + spec_dropped_events::<S>(taken) =~= (old(self).queue@
                    + spec_dropped_events::<S>(paths@.take(i as int))).push(
                    Event::Window(WindowEvent::FileDropped(paths@[i as int])),
                ));
            }
            i += 1;
        }
        proof {
            assert(paths@.take(paths@.len() as int) =~= paths@);
        }
    }

    /// Takes every queued event, oldest first, to be applied to the
    /// toolkit state in one step; the queue is empty afterwards. When
    /// nothing is queued the result is empty and the update step is
    /// skipped entirely.
    pub fn take_updates(&mut self) -> (events: Vec<Event<S>>)
        ensures
            events@ == old(self).queue@,
            final(self).queue@ == Seq::<Event<S>>::empty(),
            final(self).did_exit_drag == old(self).did_exit_drag,
            final(self).viewport == old(self).viewport,
            final(self).swap_chain == old(self).swap_chain,
    {
        let mut drained: Vec<Event<S>> = Vec::new();
        core::mem::swap(&mut drained, &mut self.queue);
        drained
    }
}

} // verus!
