//! A scripted GPIO line for driving the engine from a simulated master.
//!
//! A `SimLine` answers level samples from a prepared script, delivers a
//! prepared budget of edge events, and records everything the engine does to
//! it: acquisitions, driven values and writes. It meets the same `LineIo`
//! contracts as the real line, so a harness can run whole transactions
//! against a make-believe bus and then inspect what would have gone onto the
//! wire.

use vstd::prelude::*;

use crate::errors::I2cGpioError;
use crate::line::{LineIo, LineMode, LineView};

verus! {

/// A line whose bus is a script: sampled levels come from `samples` in
/// order, and each wait for an edge consumes one of `events_left`.
pub struct SimLine {
    mode: LineMode,
    samples: Vec<u8>,
    spos: usize,
    events_left: u32,
    acq_count: u64,
    write_count: u64,
    driven_log: Vec<u8>,
    reads_log: Ghost<Seq<u8>>,
    events_seen: Ghost<nat>,
}

impl SimLine {
    /// A fresh line in input mode that will answer level samples from
    /// `samples` (each 0 or 1) and deliver up to `events` edge events.
    pub fn new(samples: Vec<u8>, events: u32) -> (r: SimLine)
        requires
            forall|i: int| 0 <= i < samples@.len() ==> samples@[i] <= 1,
        ensures
            r.wf(),
            r.view() == (LineView {
                mode: LineMode::Input,
                acqs: 0,
                writes: 0,
                reads: Seq::<u8>::empty(),
                driven: Seq::<u8>::empty(),
                events: 0,
            }),
    {
        SimLine {
            mode: LineMode::Input,
            samples,
            spos: 0,
            events_left: events,
            acq_count: 0,
            write_count: 0,
            driven_log: Vec::new(),
            reads_log: Ghost(Seq::empty()),
            events_seen: Ghost(0),
        }
    }

    /// The mode the line is in.
    pub fn mode(&self) -> (r: LineMode)
        ensures
            r == self.view().mode,
    {
        self.mode
    }

    /// How many acquisitions the engine has made on this line.
    pub fn acquisitions(&self) -> (r: u64)
        ensures
            r as nat == self.view().acqs,
    {
        self.acq_count
    }

    /// How many writes went through an already-open output handle.
    pub fn writes_made(&self) -> (r: u64)
        ensures
            r as nat == self.view().writes,
    {
        self.write_count
    }

    /// How many scripted samples have been consumed.
    pub fn samples_used(&self) -> usize {
        self.spos
    }

    /// Every value the engine drove onto the line, in order.
    pub fn driven_log(&self) -> (r: &Vec<u8>)
        ensures
            r@ == self.view().driven,
    {
        &self.driven_log
    }

    /// The error a simulated line reports when its script runs dry or an
    /// operation is attempted in the wrong mode.
    fn script_error(&self) -> (r: I2cGpioError)
        ensures
            r.kind is LineRequestError,
    {
        I2cGpioError::line_request_error(
            crate::errors::LineErrorInfo::new("sim", 0),
            "script-exhausted".to_owned(),
        )
    }
}

impl LineIo for SimLine {
    closed spec fn view(&self) -> LineView {
        LineView {
            mode: self.mode,
            acqs: self.acq_count as nat,
            writes: self.write_count as nat,
            reads: self.reads_log@,
            driven: self.driven_log@,
            events: self.events_seen@,
        }
    }

    closed spec fn wf(&self) -> bool {
        &&& self.spos <= self.samples@.len()
        &&& forall|i: int| 0 <= i < self.samples@.len() ==> self.samples@[i] <= 1
        &&& self.mode matches LineMode::Output(v) ==> v <= 1
    }

    fn input(&mut self) -> (r: Result<(), I2cGpioError>) {
        if let LineMode::Input = self.mode {
            return Ok(());
        }
        if self.acq_count == u64::MAX {
            self.mode = LineMode::Undefined;
            return Err(self.script_error());
        }
        self.mode = LineMode::Input;
        self.acq_count = self.acq_count + 1;
        Ok(())
    }

    fn output(&mut self, v: u8) -> (r: Result<(), I2cGpioError>) {
        if let LineMode::Output(_) = self.mode {
            if self.write_count == u64::MAX {
                return Err(self.script_error());
            }
            self.mode = LineMode::Output(v);
            self.write_count = self.write_count + 1;
            self.driven_log.push(v);
            return Ok(());
        }
        if self.acq_count == u64::MAX {
            self.mode = LineMode::Undefined;
            return Err(self.script_error());
        }
        self.mode = LineMode::Output(v);
        self.acq_count = self.acq_count + 1;
        self.driven_log.push(v);
        Ok(())
    }

    fn rising_edge(&mut self) -> (r: Result<(), I2cGpioError>) {
        if let LineMode::RisingWatch = self.mode {
            return Ok(());
        }
        if self.acq_count == u64::MAX {
            self.mode = LineMode::Undefined;
            return Err(self.script_error());
        }
        self.mode = LineMode::RisingWatch;
        self.acq_count = self.acq_count + 1;
        Ok(())
    }

    fn falling_edge(&mut self) -> (r: Result<(), I2cGpioError>) {
        if let LineMode::FallingWatch = self.mode {
            return Ok(());
        }
        if self.acq_count == u64::MAX {
            self.mode = LineMode::Undefined;
            return Err(self.script_error());
        }
        self.mode = LineMode::FallingWatch;
        self.acq_count = self.acq_count + 1;
        Ok(())
    }

    fn wait_edge(&mut self) -> (r: Result<(), I2cGpioError>) {
        if self.events_left == 0 {
            let polarity = if let LineMode::RisingWatch = self.mode {
                "rising"
            } else {
                "falling"
            };
            return Err(I2cGpioError::wait_next_edge_error(polarity.to_owned()));
        }
        self.events_left = self.events_left - 1;
        self.events_seen = Ghost(self.events_seen@ + 1);
        Ok(())
    }

    fn get_value(&mut self) -> (r: Result<u8, I2cGpioError>) {
        match self.mode {
            LineMode::Output(cur) => {
                self.reads_log = Ghost(self.reads_log@.push(cur));
                Ok(cur)
            },
            LineMode::Undefined => Err(self.script_error()),
            _ => {
                if self.spos < self.samples.len() {
                    let v = self.samples[self.spos];
                    self.spos = self.spos + 1;
                    self.reads_log = Ghost(self.reads_log@.push(v));
                    Ok(v)
                } else {
                    Err(self.script_error())
                }
            },
        }
    }

    fn set_value(&mut self, v: u8) -> (r: Result<(), I2cGpioError>) {
        if let LineMode::Output(_) = self.mode {
            if self.write_count == u64::MAX {
                return Err(self.script_error());
            }
            self.mode = LineMode::Output(v);
            self.write_count = self.write_count + 1;
            self.driven_log.push(v);
            Ok(())
        } else {
            Err(self.script_error())
        }
    }
}

} // verus!
