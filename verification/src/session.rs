//! The session seen by the render loop.
//!
//! A session couples the screen state with the receiving end of the handoff
//! channel the decoder worker feeds, and with the size negotiator. Once per
//! frame the render loop drains every batch the channel currently holds and
//! applies them in arrival order, then reconciles the terminal size with the
//! reported viewport. The worker owns the channel's sending end; when it
//! ends, the channel reports closed and the session remembers that the
//! stream is over without treating a merely idle child as an error.

use crate::action::TermAction;
use crate::screen::{replay, Screen, ScreenView};
use crate::size::{negotiate_post, negotiated, SizeNegotiator, TermSize};
use vstd::prelude::*;

verus! {

/// std's channel receiving end, declared opaque.
#[verifier::external_type_specification]
#[verifier::external_body]
#[verifier::reject_recursive_types(T)]
pub struct ExReceiver<T>(std::sync::mpsc::Receiver<T>);

/// One non-blocking look at the handoff channel: a batch, nothing right
/// now, or no sender left.
pub enum RecvPoll {
    Batch(Vec<TermAction>),
    Empty,
    Closed,
}

/// Why a drain returned: the channel reported empty, the channel reported
/// closed, or the per-call batch budget ran out with batches possibly still
/// queued.
#[derive(Clone, Copy, PartialEq, Eq, Structural, Debug)]
pub enum DrainEnd {
    Empty,
    Closed,
    Budget,
}

/// Relies on std's `Receiver::try_recv`: it never blocks, and it tells an
/// empty queue (`Empty`) apart from a queue whose senders are gone
/// (`Disconnected`). Which batch arrives depends on the worker thread, so
/// nothing is promised about the contents.
#[verifier::external_body]
fn try_recv_batch(rx: &std::sync::mpsc::Receiver<Vec<TermAction>>) -> (r: RecvPoll) {
    match rx.try_recv() {
        Ok(b) => RecvPoll::Batch(b),
        Err(std::sync::mpsc::TryRecvError::Empty) => RecvPoll::Empty,
        Err(std::sync::mpsc::TryRecvError::Disconnected) => RecvPoll::Closed,
    }
}

/// One terminal session as the render loop sees it: the screen state, the
/// size negotiator, the receiving end of the decoder's channel, and whether
/// the stream has ended.
pub struct Session {
    screen: Screen,
    negotiator: SizeNegotiator,
    rx: std::sync::mpsc::Receiver<Vec<TermAction>>,
    closed: bool,
}

impl Session {
    /// The screen state.
    pub closed spec fn scr(self) -> ScreenView {
        self.screen@
    }

    /// The size negotiator state.
    pub closed spec fn sizer(self) -> SizeNegotiator {
        self.negotiator
    }

    /// Whether the decoder stream has been seen to end.
    pub closed spec fn is_closed(self) -> bool {
        self.closed
    }

    pub open spec fn wf(self) -> bool {
        self.scr().wf() && self.sizer().valid() && self.scr().rows == self.sizer().last.rows
            && self.scr().cols == self.sizer().last.cols
    }

    /// A fresh session over the given channel, with a blank screen of the
    /// initial size.
    pub fn new(size: TermSize, rx: std::sync::mpsc::Receiver<Vec<TermAction>>) -> (r: Session)
        requires
            size.valid(),
            size.rows <= 0xffff_ffff,
            size.cols <= 0xffff_ffff,
        ensures
            r.wf(),
            !r.is_closed(),
            r.sizer() == (SizeNegotiator { last: size, issued: 0u64 }),
            r.scr().rows == size.rows && r.scr().cols == size.cols,
            r.scr().row == 0 && r.scr().col == 0,
    {
        Session {
            screen: Screen::new(size),
            negotiator: SizeNegotiator::new(size),
            rx,
            closed: false,
        }
    }

    /// The screen, for the renderer to read.
    pub fn screen(&self) -> (r: &Screen)
        ensures
            r@ == self.scr(),
    {
        &self.screen
    }

    /// Whether the decoder stream has ended.
    pub fn closed(&self) -> (r: bool)
        ensures
            r == self.is_closed(),
    {
        self.closed
    }

    /// Drain the batches the channel holds right now and apply them to the
    /// screen in arrival order, without ever blocking. The call returns only
    /// when a poll reports the channel empty, when a poll reports it closed
    /// (which also marks the session closed), or when `budget` batches have
    /// been taken; the returned reason says which of the three it was, so a
    /// caller that saw `Budget` knows batches may still be queued. The
    /// screen afterwards is exactly the replay of what was applied, and the
    /// negotiator is untouched.
    pub fn drain_and_apply(&mut self, budget: u64) -> (r: (
        DrainEnd,
        Ghost<Seq<TermAction>>,
    ))
        requires
            old(self).wf(),
        ensures
            final(self).wf(),
            final(self).scr() == replay(old(self).scr(), r.1@),
            final(self).sizer() == old(self).sizer(),
            final(self).is_closed() <==> old(self).is_closed() || r.0 == DrainEnd::Closed,
    {
        let ghost start = self.scr();
        let mut acc: Ghost<Seq<TermAction>> = Ghost(Seq::empty());
        let mut polls: u64 = 0;
        proof {
            assert(replay(start, Seq::empty()) == start);
        }
        while polls < budget
            invariant
                start == old(self).scr(),
                self.wf(),
                self.scr() == replay(start, acc@),
                self.sizer() == old(self).sizer(),
                self.is_closed() == old(self).is_closed(),
            decreases budget - polls,
        {
            match try_recv_batch(&self.rx) {
                RecvPoll::Batch(b) => {
                    self.screen.apply_all(&b);
                    proof {
                        crate::screen::lemma_replay_concat(start, acc@, b@);
                        crate::screen::lemma_replay_dims(start, acc@);
                        crate::screen::lemma_replay_dims(start, acc@ + b@);
                    }
                    acc = Ghost(acc@ + b@);
                },
                RecvPoll::Empty => {
                    return (DrainEnd::Empty, acc);
                },
                RecvPoll::Closed => {
                    self.closed = true;
                    return (DrainEnd::Closed, acc);
                },
            }
            polls = polls + 1;
        }
        (DrainEnd::Budget, acc)
    }

    /// How many real resizes have been issued since construction.
    pub fn resizes_issued(&self) -> (r: u64)
        ensures
            r == self.sizer().issued,
    {
        self.negotiator.issued
    }

    /// Reconcile the terminal size with the reported viewport: when the
    /// fitting size differs from the last applied one, the screen takes the
    /// new size and the caller is told to resize the pseudo-terminal to the
    /// returned size; otherwise nothing changes and nothing is returned.
    pub fn negotiate_size(&mut self, view_w: u32, view_h: u32, cell_w: u32, cell_h: u32) -> (r:
        Option<TermSize>)
        requires
            old(self).wf(),
            cell_w >= 1,
            cell_h >= 1,
            old(self).sizer().issued < u64::MAX,
        ensures
            final(self).wf(),
            negotiate_post(
                old(self).sizer(),
                final(self).sizer(),
                view_w as int,
                view_h as int,
                cell_w as int,
                cell_h as int,
                r,
            ),
            final(self).is_closed() == old(self).is_closed(),
            r is None ==> final(self).scr() == old(self).scr(),
            r is Some ==> final(self).scr() == crate::screen::resized(
                old(self).scr(),
                negotiated(view_w as int, view_h as int, cell_w as int, cell_h as int).rows as int,
                negotiated(view_w as int, view_h as int, cell_w as int, cell_h as int).cols as int,
            ),
    {
        match self.negotiator.negotiate(view_w, view_h, cell_w, cell_h) {
            Some(size) => {
                self.screen.resize(size);
                Some(size)
            },
            None => None,
        }
    }

    /// One frame of bridge work before rendering: drain the decoded output,
    /// up to `budget` batches, then negotiate the size against the viewport.
    /// Returns the size the caller must now apply to the pseudo-terminal, if
    /// it changed, how the drain ended, and the actions that were applied.
    pub fn frame(&mut self, view_w: u32, view_h: u32, cell_w: u32, cell_h: u32, budget: u64) -> (r:
        (Option<TermSize>, DrainEnd, Ghost<Seq<TermAction>>))
        requires
            old(self).wf(),
            cell_w >= 1,
            cell_h >= 1,
            old(self).sizer().issued < u64::MAX,
        ensures
            final(self).wf(),
            negotiate_post(
                old(self).sizer(),
                final(self).sizer(),
                view_w as int,
                view_h as int,
                cell_w as int,
                cell_h as int,
                r.0,
            ),
            final(self).is_closed() <==> old(self).is_closed() || r.1 == DrainEnd::Closed,
            r.0 is None ==> final(self).scr() == replay(old(self).scr(), r.2@),
            r.0 is Some ==> final(self).scr() == crate::screen::resized(
                replay(old(self).scr(), r.2@),
                negotiated(view_w as int, view_h as int, cell_w as int, cell_h as int).rows as int,
                negotiated(view_w as int, view_h as int, cell_w as int, cell_h as int).cols as int,
            ),
    {
        let (ended, applied) = self.drain_and_apply(budget);
        let resized = self.negotiate_size(view_w, view_h, cell_w, cell_h);
        (resized, ended, applied)
    }
}

} // verus!
