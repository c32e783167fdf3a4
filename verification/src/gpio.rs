//! The real GPIO line, backed by the kernel's character-device interface
//! through the `gpio_cdev` crate.
//!
//! Direction and edge selection are immutable on an open kernel handle, so
//! every mode change surrenders the current handle and requests a fresh one;
//! the line floats at the bus pull-up in between. The calls into `gpio_cdev`
//! stand behind small trusted wrappers; everything around them — the mode
//! tag, the elision of repeated requests, the history of samples and driven
//! values — is verified.

use vstd::prelude::*;

use crate::errors::{I2cGpioError, LineErrorInfo};
use crate::line::{fresh_line_view, LineIo, LineMode, LineView};

verus! {

#[verifier::external_type_specification]
#[verifier::external_body]
pub struct ExChip(gpio_cdev::Chip);

#[verifier::external_type_specification]
#[verifier::external_body]
pub struct ExLine(gpio_cdev::Line);

#[verifier::external_type_specification]
#[verifier::external_body]
pub struct ExLineHandle(gpio_cdev::LineHandle);

#[verifier::external_type_specification]
#[verifier::external_body]
pub struct ExLineEventHandle(gpio_cdev::LineEventHandle);

#[verifier::external_type_specification]
#[verifier::external_body]
pub struct ExLineEvent(gpio_cdev::LineEvent);

#[verifier::external_type_specification]
#[verifier::external_body]
pub struct ExError(gpio_cdev::Error);

/// Relies on gpio_cdev::Chip::get_line: returns the chip's line at `offset`.
#[verifier::external_body]
fn chip_get_line(chip: &mut gpio_cdev::Chip, offset: u32) -> Result<
    gpio_cdev::Line,
    gpio_cdev::Error,
> {
    chip.get_line(offset)
}

/// Relies on gpio_cdev::Line::request: opens a kernel handle with the line
/// configured as an input.
#[verifier::external_body]
fn line_request_input(line: &gpio_cdev::Line) -> Result<
    gpio_cdev::LineHandle,
    gpio_cdev::Error,
> {
    line.request(gpio_cdev::LineRequestFlags::INPUT, 0, "i2c-gpio-sqn")
}

/// Relies on gpio_cdev::Line::request: opens a kernel handle with the line
/// configured as an output driven at `v`.
#[verifier::external_body]
fn line_request_output(line: &gpio_cdev::Line, v: u8) -> Result<
    gpio_cdev::LineHandle,
    gpio_cdev::Error,
> {
    line.request(gpio_cdev::LineRequestFlags::OUTPUT, v, "i2c-gpio-sqn")
}

/// Relies on gpio_cdev::Line::events: opens an event stream that delivers one
/// event per rising edge, in FIFO order.
#[verifier::external_body]
fn line_events_rising(line: &gpio_cdev::Line) -> Result<
    gpio_cdev::LineEventHandle,
    gpio_cdev::Error,
> {
    line.events(
        gpio_cdev::LineRequestFlags::INPUT,
        gpio_cdev::EventRequestFlags::RISING_EDGE,
        "i2c-gpio-sqn",
    )
}

/// Relies on gpio_cdev::Line::events: opens an event stream that delivers one
/// event per falling edge, in FIFO order.
#[verifier::external_body]
fn line_events_falling(line: &gpio_cdev::Line) -> Result<
    gpio_cdev::LineEventHandle,
    gpio_cdev::Error,
> {
    line.events(
        gpio_cdev::LineRequestFlags::INPUT,
        gpio_cdev::EventRequestFlags::FALLING_EDGE,
        "i2c-gpio-sqn",
    )
}

/// Relies on gpio_cdev::LineHandle::get_value: samples the line's level.
#[verifier::external_body]
fn handle_get_value(h: &gpio_cdev::LineHandle) -> Result<u8, gpio_cdev::Error> {
    h.get_value()
}

/// Relies on gpio_cdev::LineHandle::set_value: drives the line to `v`.
#[verifier::external_body]
fn handle_set_value(h: &gpio_cdev::LineHandle, v: u8) -> Result<(), gpio_cdev::Error> {
    h.set_value(v)
}

/// Relies on gpio_cdev::LineEventHandle::get_value: samples the level of the
/// line the event stream watches.
#[verifier::external_body]
fn watch_get_value(h: &gpio_cdev::LineEventHandle) -> Result<u8, gpio_cdev::Error> {
    h.get_value()
}

/// Relies on gpio_cdev::LineEventHandle::get_event: blocks until the stream's
/// next edge event and consumes it.
#[verifier::external_body]
fn watch_next_event(h: &mut gpio_cdev::LineEventHandle) -> Result<(), gpio_cdev::Error> {
    h.get_event().map(|_event| ())
}

/// One GPIO pin with its current mode, the kernel handle that installs that
/// mode, and the history of everything done through it.
pub struct I2cGpioLine {
    name: String,
    offset: u32,
    line: gpio_cdev::Line,
    mode: LineMode,
    handle: Option<gpio_cdev::LineHandle>,
    watch: Option<gpio_cdev::LineEventHandle>,
    acqs: Ghost<nat>,
    writes: Ghost<nat>,
    reads: Ghost<Seq<u8>>,
    driven: Ghost<Seq<u8>>,
    evts: Ghost<nat>,
}

impl I2cGpioLine {
    /// Looks the line up on the chip and acquires it in input mode, the
    /// electrically safe default that releases it to the bus pull-up.
    pub fn acquire(chip: &mut gpio_cdev::Chip, name: &str, offset: u32) -> (r: Result<
        I2cGpioLine,
        I2cGpioError,
    >)
        ensures
            r is Ok ==> r->Ok_0.wf() && r->Ok_0.view() == fresh_line_view(),
            r is Err ==> (r->Err_0.kind is LineInfoError || r->Err_0.kind is LineRequestError),
    {
        let line = match chip_get_line(chip, offset) {
            Ok(line) => line,
            Err(e) => {
                return Err(
                    I2cGpioError::line_info_error(
                        LineErrorInfo::new(name, offset),
                    ).with_gpio_cause(e),
                );
            },
        };
        match line_request_input(&line) {
            Ok(h) => Ok(
                I2cGpioLine {
                    name: name.to_owned(),
                    offset,
                    line,
                    mode: LineMode::Input,
                    handle: Some(h),
                    watch: None,
                    acqs: Ghost(1),
                    writes: Ghost(0),
                    reads: Ghost(Seq::empty()),
                    driven: Ghost(Seq::empty()),
                    evts: Ghost(0),
                },
            ),
            Err(e) => Err(
                I2cGpioError::line_request_error(
                    LineErrorInfo::new(name, offset),
                    "input".to_owned(),
                ).with_gpio_cause(e),
            ),
        }
    }

    /// The error for a failed kernel request on this line.
    fn request_error(&self, hint: &str, e: gpio_cdev::Error) -> (r: I2cGpioError)
        ensures
            r.kind is LineRequestError,
    {
        I2cGpioError::line_request_error(
            LineErrorInfo::new(self.name.as_str(), self.offset),
            hint.to_owned(),
        ).with_gpio_cause(e)
    }

    /// Surrenders whatever kernel handle is open, leaving the line floating.
    fn release(&mut self)
        ensures
            final(self).mode == LineMode::Undefined,
            final(self).handle is None,
            final(self).watch is None,
            final(self).name == old(self).name,
            final(self).offset == old(self).offset,
            final(self).line == old(self).line,
            final(self).acqs == old(self).acqs,
            final(self).writes == old(self).writes,
            final(self).reads == old(self).reads,
            final(self).driven == old(self).driven,
            final(self).evts == old(self).evts,
    {
        self.handle = None;
        self.watch = None;
        self.mode = LineMode::Undefined;
    }
}

impl LineIo for I2cGpioLine {
    closed spec fn view(&self) -> LineView {
        LineView {
            mode: self.mode,
            acqs: self.acqs@,
            writes: self.writes@,
            reads: self.reads@,
            driven: self.driven@,
            events: self.evts@,
        }
    }

    closed spec fn wf(&self) -> bool {
        &&& (self.mode is Input || self.mode is Output) ==> (self.handle is Some
            && self.watch is None)
        &&& (self.mode is RisingWatch || self.mode is FallingWatch) ==> (self.watch is Some
            && self.handle is None)
        &&& self.mode is Undefined ==> (self.handle is None && self.watch is None)
        &&& self.mode matches LineMode::Output(v) ==> v <= 1
    }

    fn input(&mut self) -> (r: Result<(), I2cGpioError>) {
        if let LineMode::Input = self.mode {
            return Ok(());
        }
        self.release();
        match line_request_input(&self.line) {
            Ok(h) => {
                self.handle = Some(h);
                self.mode = LineMode::Input;
                self.acqs = Ghost(self.acqs@ + 1);
                Ok(())
            },
            Err(e) => Err(self.request_error("input", e)),
        }
    }

    fn output(&mut self, v: u8) -> (r: Result<(), I2cGpioError>) {
        if let LineMode::Output(_) = self.mode {
            let res = match &self.handle {
                Some(h) => handle_set_value(h, v),
                None => {
                    proof {
                        assert(false);
                    }
                    return Ok(());
                },
            };
            return match res {
                Ok(()) => {
                    self.mode = LineMode::Output(v);
                    self.writes = Ghost(self.writes@ + 1);
                    self.driven = Ghost(self.driven@.push(v));
                    Ok(())
                },
                Err(e) => Err(self.request_error("write", e)),
            };
        }
        self.release();
        match line_request_output(&self.line, v) {
            Ok(h) => {
                self.handle = Some(h);
                self.mode = LineMode::Output(v);
                self.acqs = Ghost(self.acqs@ + 1);
                self.driven = Ghost(self.driven@.push(v));
                Ok(())
            },
            Err(e) => Err(self.request_error("output", e)),
        }
    }

    fn rising_edge(&mut self) -> (r: Result<(), I2cGpioError>) {
        if let LineMode::RisingWatch = self.mode {
            return Ok(());
        }
        self.release();
        match line_events_rising(&self.line) {
            Ok(h) => {
                self.watch = Some(h);
                self.mode = LineMode::RisingWatch;
                self.acqs = Ghost(self.acqs@ + 1);
                Ok(())
            },
            Err(e) => Err(self.request_error("rising-edge", e)),
        }
    }

    fn falling_edge(&mut self) -> (r: Result<(), I2cGpioError>) {
        if let LineMode::FallingWatch = self.mode {
            return Ok(());
        }
        self.release();
        match line_events_falling(&self.line) {
            Ok(h) => {
                self.watch = Some(h);
                self.mode = LineMode::FallingWatch;
                self.acqs = Ghost(self.acqs@ + 1);
                Ok(())
            },
            Err(e) => Err(self.request_error("falling-edge", e)),
        }
    }

    fn wait_edge(&mut self) -> (r: Result<(), I2cGpioError>) {
        let polarity = if let LineMode::RisingWatch = self.mode {
            "rising"
        } else {
            "falling"
        };
        let res = match &mut self.watch {
            Some(h) => watch_next_event(h),
            None => {
                proof {
                    assert(false);
                }
                return Ok(());
            },
        };
        match res {
            Ok(()) => {
                self.evts = Ghost(self.evts@ + 1);
                Ok(())
            },
            Err(e) => Err(
                I2cGpioError::wait_next_edge_error(polarity.to_owned()).with_gpio_cause(e),
            ),
        }
    }

    fn get_value(&mut self) -> (r: Result<u8, I2cGpioError>) {
        let raw = match self.mode {
            LineMode::Output(cur) => {
                self.reads = Ghost(self.reads@.push(cur));
                return Ok(cur);
            },
            LineMode::Input => {
                match &self.handle {
                    Some(h) => handle_get_value(h),
                    None => {
                        proof {
                            assert(false);
                        }
                        return Err(self.mode_undefined_error());
                    },
                }
            },
            LineMode::RisingWatch | LineMode::FallingWatch => {
                match &self.watch {
                    Some(h) => watch_get_value(h),
                    None => {
                        proof {
                            assert(false);
                        }
                        return Err(self.mode_undefined_error());
                    },
                }
            },
            LineMode::Undefined => {
                return Err(self.mode_undefined_error());
            },
        };
        match raw {
            Ok(level) => {
                let v: u8 = if level >= 1 {
                    1
                } else {
                    0
                };
                self.reads = Ghost(self.reads@.push(v));
                Ok(v)
            },
            Err(e) => Err(self.request_error("read", e)),
        }
    }

    fn set_value(&mut self, v: u8) -> (r: Result<(), I2cGpioError>) {
        if let LineMode::Output(_) = self.mode {
            let res = match &self.handle {
                Some(h) => handle_set_value(h, v),
                None => {
                    proof {
                        assert(false);
                    }
                    return Ok(());
                },
            };
            match res {
                Ok(()) => {
                    self.mode = LineMode::Output(v);
                    self.writes = Ghost(self.writes@ + 1);
                    self.driven = Ghost(self.driven@.push(v));
                    Ok(())
                },
                Err(e) => Err(self.request_error("write", e)),
            }
        } else {
            Err(self.mode_undefined_error())
        }
    }
}

impl I2cGpioLine {
    /// The error for an operation attempted in a mode that does not support
    /// it.
    fn mode_undefined_error(&self) -> (r: I2cGpioError)
        ensures
            r.kind is LineRequestError,
    {
        I2cGpioError::line_request_error(
            LineErrorInfo::new(self.name.as_str(), self.offset),
            "no-handle".to_owned(),
        )
    }
}

} // verus!
