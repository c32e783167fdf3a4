//! The model of one GPIO line and the interface the slave engine drives it
//! through.
//!
//! A line is always in exactly one mode: released as an input, driven as an
//! output at a known level, or watching for edges of one polarity. Entering a
//! mode that is already installed is free; entering any other mode surrenders
//! the current kernel handle and acquires a fresh one. The abstract state
//! also records every acquisition, every sampled level, every driven value
//! and every consumed edge event, so that contracts can speak about what a
//! call did to the bus.

use vstd::prelude::*;

use crate::errors::I2cGpioError;

verus! {

/// The exclusive mode a line is in.
///
/// `Undefined` is the state after a failed re-acquisition: the old handle is
/// already surrendered, so the line floats at the bus pull-up and is not
/// driven; the next mode-entering call must acquire afresh.
#[derive(Debug, Clone, Copy, PartialEq, Eq, Structural)]
pub enum LineMode {
    Input,
    Output(u8),
    RisingWatch,
    FallingWatch,
    Undefined,
}

/// The abstract state of a line: its mode together with the full history of
/// its interactions with the kernel and the bus.
pub struct LineView {
    /// The mode currently installed.
    pub mode: LineMode,
    /// How many kernel handles have been acquired over the line's lifetime.
    pub acqs: nat,
    /// How many times a value was written through an already-open output
    /// handle.
    pub writes: nat,
    /// Every level sampled from the line, in order.
    pub reads: Seq<u8>,
    /// Every value driven onto the line, in order, whether at acquisition of
    /// an output handle or through a later write.
    pub driven: Seq<u8>,
    /// How many edge events have been consumed.
    pub events: nat,
}

/// Whether the line is released to the bus pull-up rather than driven:
/// the condition bus safety asks for.
pub open spec fn released(m: LineMode) -> bool {
    !(m is Output)
}

/// The state after asking for input mode: free if already installed,
/// otherwise one fresh acquisition.
pub open spec fn enter_input(s: LineView) -> LineView {
    if s.mode is Input {
        s
    } else {
        LineView { mode: LineMode::Input, acqs: s.acqs + 1, ..s }
    }
}

/// The state after asking to drive level `v`: a plain write if an output
/// handle is already open, otherwise one fresh acquisition. Either way the
/// driven value is recorded.
pub open spec fn enter_output(s: LineView, v: u8) -> LineView {
    if s.mode is Output {
        LineView {
            mode: LineMode::Output(v),
            writes: s.writes + 1,
            driven: s.driven.push(v),
            ..s
        }
    } else {
        LineView { mode: LineMode::Output(v), acqs: s.acqs + 1, driven: s.driven.push(v), ..s }
    }
}

/// The state after asking for a rising-edge watch: free if already installed.
pub open spec fn enter_rising(s: LineView) -> LineView {
    if s.mode is RisingWatch {
        s
    } else {
        LineView { mode: LineMode::RisingWatch, acqs: s.acqs + 1, ..s }
    }
}

/// The state after asking for a falling-edge watch: free if already
/// installed.
pub open spec fn enter_falling(s: LineView) -> LineView {
    if s.mode is FallingWatch {
        s
    } else {
        LineView { mode: LineMode::FallingWatch, acqs: s.acqs + 1, ..s }
    }
}

/// The state after a mode switch whose fresh acquisition failed: the old
/// handle is gone, the line floats, no acquisition is counted.
pub open spec fn fail_acquire(s: LineView) -> LineView {
    LineView { mode: LineMode::Undefined, ..s }
}

/// The state after sampling level `v`.
pub open spec fn record_read(s: LineView, v: u8) -> LineView {
    LineView { reads: s.reads.push(v), ..s }
}

/// The state after writing `v` through an open output handle.
pub open spec fn do_write(s: LineView, v: u8) -> LineView {
    LineView { mode: LineMode::Output(v), writes: s.writes + 1, driven: s.driven.push(v), ..s }
}

/// The state after one edge event was consumed.
pub open spec fn consume_event(s: LineView) -> LineView {
    LineView { events: s.events + 1, ..s }
}

/// The state of a line just created in input mode by its first acquisition.
pub open spec fn fresh_line_view() -> LineView {
    LineView {
        mode: LineMode::Input,
        acqs: 1,
        writes: 0,
        reads: Seq::empty(),
        driven: Seq::empty(),
        events: 0,
    }
}

/// One GPIO line as the slave engine sees it: mode-entering verbs, a level
/// sample, a value write, and an edge wait. Every implementation relates its
/// concrete state to a `LineView` and keeps the same transition contracts.
pub trait LineIo: Sized {
    /// The abstract state of the line.
    spec fn view(&self) -> LineView;

    /// The implementation's own well-formedness, established at construction
    /// and preserved by every operation.
    spec fn wf(&self) -> bool;

    /// Ensure the line is released as an input. Free — no kernel call, so no
    /// failure — if already in input mode; otherwise surrenders the current
    /// handle and re-acquires.
    fn input(&mut self) -> (r: Result<(), I2cGpioError>)
        requires
            old(self).wf(),
        ensures
            final(self).wf(),
            old(self).view().mode is Input ==> r is Ok,
            r is Ok ==> final(self).view() == enter_input(old(self).view()),
            r is Err ==> final(self).view() == fail_acquire(old(self).view()),
            r is Err ==> r->Err_0.kind is LineRequestError,
    ;

    /// Ensure the line is driven at level `v`. A plain write if an output
    /// handle is already open; otherwise re-acquires as an output at `v`.
    fn output(&mut self, v: u8) -> (r: Result<(), I2cGpioError>)
        requires
            old(self).wf(),
            v <= 1,
        ensures
            final(self).wf(),
            r is Ok ==> final(self).view() == enter_output(old(self).view(), v),
            r is Err && old(self).view().mode is Output ==> final(self).view() == old(
                self,
            ).view(),
            r is Err && !(old(self).view().mode is Output) ==> final(self).view() == fail_acquire(
                old(self).view(),
            ),
            r is Err ==> r->Err_0.kind is LineRequestError,
    ;

    /// Ensure a rising-edge watch is open on the line. Free — no kernel call,
    /// so no failure — if already watching rising edges.
    fn rising_edge(&mut self) -> (r: Result<(), I2cGpioError>)
        requires
            old(self).wf(),
        ensures
            final(self).wf(),
            old(self).view().mode is RisingWatch ==> r is Ok,
            r is Ok ==> final(self).view() == enter_rising(old(self).view()),
            r is Err ==> final(self).view() == fail_acquire(old(self).view()),
            r is Err ==> r->Err_0.kind is LineRequestError,
    ;

    /// Ensure a falling-edge watch is open on the line. Free — no kernel
    /// call, so no failure — if already watching falling edges.
    fn falling_edge(&mut self) -> (r: Result<(), I2cGpioError>)
        requires
            old(self).wf(),
        ensures
            final(self).wf(),
            old(self).view().mode is FallingWatch ==> r is Ok,
            r is Ok ==> final(self).view() == enter_falling(old(self).view()),
            r is Err ==> final(self).view() == fail_acquire(old(self).view()),
            r is Err ==> r->Err_0.kind is LineRequestError,
    ;

    /// Block until the open edge watch delivers its next event, in FIFO
    /// order, and consume it.
    fn wait_edge(&mut self) -> (r: Result<(), I2cGpioError>)
        requires
            old(self).wf(),
            old(self).view().mode is RisingWatch || old(self).view().mode is FallingWatch,
        ensures
            final(self).wf(),
            r is Ok ==> final(self).view() == consume_event(old(self).view()),
            r is Err ==> final(self).view() == old(self).view(),
            r is Err ==> ({
                let kind = r->Err_0.kind;
                &&& kind is WaitNextEdge
                &&& (old(self).view().mode is RisingWatch ==> kind->WaitNextEdge_0@
                    == "rising"@)
                &&& (old(self).view().mode is FallingWatch ==> kind->WaitNextEdge_0@
                    == "falling"@)
            }),
    ;

    /// Sample the line's current level as 0 or 1. In output mode this is the
    /// last driven value; in input or watch mode it is read from the line.
    fn get_value(&mut self) -> (r: Result<u8, I2cGpioError>)
        requires
            old(self).wf(),
        ensures
            final(self).wf(),
            r is Ok ==> r->Ok_0 <= 1 && final(self).view() == record_read(
                old(self).view(),
                r->Ok_0,
            ),
            r is Ok && old(self).view().mode is Output ==> r->Ok_0 == old(
                self,
            ).view().mode->Output_0,
            old(self).view().mode is Output ==> r is Ok,
            r is Err ==> final(self).view() == old(self).view(),
            r is Err ==> r->Err_0.kind is LineRequestError,
    ;

    /// Write level `v` through the open output handle; fails in any other
    /// mode.
    fn set_value(&mut self, v: u8) -> (r: Result<(), I2cGpioError>)
        requires
            old(self).wf(),
            v <= 1,
        ensures
            final(self).wf(),
            r is Ok ==> old(self).view().mode is Output && final(self).view() == do_write(
                old(self).view(),
                v,
            ),
            r is Err ==> final(self).view() == old(self).view(),
            r is Err ==> r->Err_0.kind is LineRequestError,
    ;
}

/// Taking a sequence's whole length gives the sequence itself.
pub proof fn lemma_take_all(s: Seq<u8>)
    ensures
        s.take(s.len() as int) == s,
{
    assert(s.take(s.len() as int) =~= s);
}

/// Asking for input mode twice in succession costs exactly one acquisition
/// when the line was not an input, and none at all when it already was: the
/// second call never re-acquires.
pub proof fn lemma_input_idempotent(s: LineView)
    ensures
        enter_input(enter_input(s)) == enter_input(s),
        s.mode is Input ==> enter_input(s).acqs == s.acqs,
        !(s.mode is Input) ==> enter_input(s).acqs == s.acqs + 1,
{
}

/// The watch-entering verbs elide re-acquisition the same way: repeating any
/// mode-entering verb is free, so two identical byte operations in a row pay
/// for at most one acquisition per line.
pub proof fn lemma_mode_switch_elision(s: LineView)
    ensures
        enter_rising(enter_rising(s)) == enter_rising(s),
        enter_falling(enter_falling(s)) == enter_falling(s),
        s.mode is RisingWatch ==> enter_rising(s).acqs == s.acqs,
        s.mode is FallingWatch ==> enter_falling(s).acqs == s.acqs,
{
}

} // verus!
