//! The I²C slave engine: bit- and byte-level protocol operations built on two
//! lines, the data line SDA and the clock line SCL.
//!
//! The master owns the clock. Every operation here keys one line's edge
//! events against the other line's sampled level, reconstructs or transmits
//! bytes MSB-first, and is careful to leave SDA released whenever it is the
//! master's turn to drive it.

use vstd::prelude::*;

use crate::bits::{
    assemble_bits, bit_at, decode_addr_byte, decode_op, drive_writes, drive_writes_upto, nth_bit,
    I2CSlaveOp,
};
use crate::errors::I2cGpioError;
use crate::gpio::I2cGpioLine;
use crate::line::{
    enter_falling, enter_input, enter_output, enter_rising, fresh_line_view, released, LineIo,
    LineMode, LineView,
};

verus! {

/// The slave engine: owns the data line and the clock line exclusively for
/// its whole lifetime.
pub struct I2cGpioSlave<L: LineIo> {
    /// The data line.
    pub sda: L,
    /// The clock line, driven by the master.
    pub scl: L,
}

impl I2cGpioSlave<I2cGpioLine> {
    /// Opens both lines on the chip, each acquired in input mode so that the
    /// bus floats at its pull-ups until a transaction begins.
    pub fn new(chip: &mut gpio_cdev::Chip, sda: u32, scl: u32) -> (r: Result<
        Self,
        I2cGpioError,
    >)
        ensures
            r is Ok ==> r->Ok_0.wf() && r->Ok_0.sda.view() == fresh_line_view()
                && r->Ok_0.scl.view() == fresh_line_view(),
            r is Err ==> (r->Err_0.kind is LineInfoError || r->Err_0.kind is LineRequestError),
    {
        let scl_line = match I2cGpioLine::acquire(chip, "scl", scl) {
            Ok(line) => line,
            Err(e) => {
                return Err(e);
            },
        };
        let sda_line = match I2cGpioLine::acquire(chip, "sda", sda) {
            Ok(line) => line,
            Err(e) => {
                return Err(e);
            },
        };
        Ok(I2cGpioSlave { sda: sda_line, scl: scl_line })
    }
}

impl<L: LineIo> I2cGpioSlave<L> {
    /// Both lines are in a state their implementation stands behind.
    pub open spec fn wf(&self) -> bool {
        self.sda.wf() && self.scl.wf()
    }

    /// Builds an engine over two already-acquired lines: the seam a test
    /// harness uses to put simulated lines under the engine.
    pub fn from_lines(sda: L, scl: L) -> (r: Self)
        requires
            sda.wf(),
            scl.wf(),
        ensures
            r.sda == sda,
            r.scl == scl,
    {
        I2cGpioSlave { sda, scl }
    }

    /// Blocks until the master issues a START: SDA falls while SCL is high.
    ///
    /// SCL is sampled at every delivered falling edge of SDA; an edge with
    /// SCL low — a mid-bit data change, or the spurious first event some
    /// controllers synthesise when a watch opens on a line already low — is
    /// discarded and the wait goes on. Success means the last SCL sample was
    /// high and every earlier one in this call was not; failure means no high
    /// sample was seen at all, so no START was swallowed. The wait gives up
    /// with an error after 2⁶⁴ discarded edges, a machine limit standing in
    /// for an unbounded wait.
    #[verifier::loop_isolation(false)]
    pub fn wait_start(&mut self) -> (r: Result<(), I2cGpioError>)
        requires
            old(self).wf(),
        ensures
            final(self).wf(),
            final(self).sda.view().reads == old(self).sda.view().reads,
            final(self).sda.view().driven == old(self).sda.view().driven,
            final(self).sda.view().writes == old(self).sda.view().writes,
            final(self).scl.view().driven == old(self).scl.view().driven,
            final(self).scl.view().writes == old(self).scl.view().writes,
            final(self).scl.view().events == old(self).scl.view().events,
            r is Ok ==> ({
                let pre = old(self).scl.view().reads;
                let all = final(self).scl.view().reads;
                &&& final(self).scl.view().mode is Input
                &&& final(self).sda.view().mode is FallingWatch
                &&& all.len() > pre.len()
                &&& all.take(pre.len() as int) == pre
                &&& all.last() == 1
                &&& (forall|i: int| pre.len() <= i < all.len() - 1 ==> all[i] != 1)
                &&& final(self).sda.view().events == old(self).sda.view().events + (
                all.len() - pre.len())
                &&& final(self).sda.view().acqs == enter_falling(old(self).sda.view()).acqs
                &&& final(self).scl.view().acqs == enter_input(old(self).scl.view()).acqs
            }),
            r is Err ==> r->Err_0.kind is WaitStartError,
            r is Err ==> ({
                let pre = old(self).scl.view().reads;
                let all = final(self).scl.view().reads;
                &&& all.len() >= pre.len()
                &&& all.take(pre.len() as int) == pre
                &&& (forall|i: int| pre.len() <= i < all.len() ==> all[i] != 1)
            }),
    {
        proof {
            crate::line::lemma_take_all(old(self).scl.view().reads);
        }
        if let Err(e) = self.scl.input() {
            return Err(I2cGpioError::wait_start_error().with_cause(e));
        }
        if let Err(e) = self.sda.falling_edge() {
            return Err(I2cGpioError::wait_start_error().with_cause(e));
        }
        let ghost sda1 = self.sda.view();
        let ghost scl1 = self.scl.view();
        let mut fuel: u64 = u64::MAX;
        while fuel > 0
            invariant
                self.wf(),
                self.scl.view().mode is Input,
                self.sda.view().mode is FallingWatch,
                self.scl.view().reads.len() >= scl1.reads.len(),
                self.scl.view().reads.take(scl1.reads.len() as int) == scl1.reads,
                forall|i: int|
                    scl1.reads.len() <= i < self.scl.view().reads.len()
                        ==> self.scl.view().reads[i] != 1,
                self.sda.view().events == sda1.events + (self.scl.view().reads.len()
                    - scl1.reads.len()),
                self.sda.view().acqs == sda1.acqs,
                self.scl.view().acqs == scl1.acqs,
                self.sda.view().reads == sda1.reads,
                self.sda.view().driven == sda1.driven,
                self.sda.view().writes == sda1.writes,
                self.scl.view().driven == scl1.driven,
                self.scl.view().writes == scl1.writes,
                self.scl.view().events == scl1.events,
            decreases fuel,
        {
            fuel = fuel - 1;
            if let Err(e) = self.sda.wait_edge() {
                return Err(I2cGpioError::wait_start_error().with_cause(e));
            }
            match self.scl.get_value() {
                Ok(level) => {
                    proof {
                        assert(self.scl.view().reads.take(scl1.reads.len() as int)
                            =~= scl1.reads);
                    }
                    if level == 1 {
                        return Ok(());
                    }
                },
                Err(e) => {
                    return Err(I2cGpioError::wait_start_error().with_cause(e));
                },
            }
        }
        Err(I2cGpioError::wait_start_error())
    }

    /// Receives eight bits sent MSB-first by the master: SDA is released as
    /// an input, and on each of exactly eight rising clock edges the data
    /// line is sampled into the next bit of the result. On no path, success
    /// or failure, does the slave drive either line.
    #[verifier::loop_isolation(false)]
    pub fn read_byte(&mut self) -> (r: Result<u8, I2cGpioError>)
        requires
            old(self).wf(),
        ensures
            final(self).wf(),
            final(self).sda.view().driven == old(self).sda.view().driven,
            final(self).sda.view().writes == old(self).sda.view().writes,
            final(self).sda.view().events == old(self).sda.view().events,
            final(self).scl.view().reads == old(self).scl.view().reads,
            final(self).scl.view().driven == old(self).scl.view().driven,
            final(self).scl.view().writes == old(self).scl.view().writes,
            r is Ok ==> ({
                let pre = old(self).sda.view().reads;
                let all = final(self).sda.view().reads;
                &&& final(self).sda.view().mode is Input
                &&& final(self).scl.view().mode is RisingWatch
                &&& all.len() == pre.len() + 8
                &&& all.take(pre.len() as int) == pre
                &&& (forall|i: int| pre.len() <= i < all.len() ==> all[i] <= 1)
                &&& r->Ok_0 == assemble_bits(all.skip(pre.len() as int))
                &&& final(self).scl.view().events == old(self).scl.view().events + 8
                &&& final(self).sda.view().acqs == enter_input(old(self).sda.view()).acqs
                &&& final(self).scl.view().acqs == enter_rising(old(self).scl.view()).acqs
            }),
            r is Err ==> r->Err_0.kind is ReadByteError,
    {
        if let Err(e) = self.sda.input() {
            return Err(I2cGpioError::read_byte_error().with_cause(e));
        }
        if let Err(e) = self.scl.rising_edge() {
            return Err(I2cGpioError::read_byte_error().with_cause(e));
        }
        let ghost sda1 = self.sda.view();
        let ghost scl1 = self.scl.view();
        let ghost mut samples: Seq<u8> = Seq::empty();
        proof {
            assert(sda1.reads + samples =~= sda1.reads);
        }
        let mut byte: u8 = 0;
        let mut nr: usize = 0;
        while nr < 8
            invariant
                self.wf(),
                nr <= 8,
                self.sda.view().mode is Input,
                self.scl.view().mode is RisingWatch,
                samples.len() == nr,
                forall|i: int| 0 <= i < nr ==> samples[i] <= 1,
                self.sda.view().reads == sda1.reads + samples,
                byte == crate::bits::assemble_upto(samples, nr as int),
                self.scl.view().events == scl1.events + nr,
                self.sda.view().acqs == sda1.acqs,
                self.sda.view().driven == sda1.driven,
                self.sda.view().writes == sda1.writes,
                self.sda.view().events == sda1.events,
                self.scl.view().reads == scl1.reads,
                self.scl.view().driven == scl1.driven,
                self.scl.view().writes == scl1.writes,
                self.scl.view().acqs == scl1.acqs,
            decreases 8 - nr,
        {
            if let Err(e) = self.scl.wait_edge() {
                return Err(I2cGpioError::read_byte_error().with_cause(e));
            }
            let v = match self.sda.get_value() {
                Ok(v) => v,
                Err(e) => {
                    return Err(I2cGpioError::read_byte_error().with_cause(e));
                },
            };
            proof {
                crate::bits::lemma_assemble_push(samples, v);
                assert(sda1.reads + samples.push(v) =~= (sda1.reads + samples).push(v));
            }
            byte = crate::bits::accumulate_bit(byte, nr, v);
            proof {
                samples = samples.push(v);
            }
            nr = nr + 1;
        }
        proof {
            assert((sda1.reads + samples).take(sda1.reads.len() as int) =~= sda1.reads);
            assert((sda1.reads + samples).skip(sda1.reads.len() as int) =~= samples);
        }
        Ok(byte)
    }

    /// Receives the address byte and decodes it: the low bit is the
    /// direction (1 means the master writes, so the slave reads), the upper
    /// seven bits are the address.
    pub fn read_addr(&mut self) -> (r: Result<I2CSlaveOp, I2cGpioError>)
        requires
            old(self).wf(),
        ensures
            final(self).wf(),
            final(self).sda.view().driven == old(self).sda.view().driven,
            final(self).sda.view().writes == old(self).sda.view().writes,
            final(self).sda.view().events == old(self).sda.view().events,
            final(self).scl.view().reads == old(self).scl.view().reads,
            final(self).scl.view().driven == old(self).scl.view().driven,
            final(self).scl.view().writes == old(self).scl.view().writes,
            r is Ok ==> ({
                let pre = old(self).sda.view().reads;
                let all = final(self).sda.view().reads;
                &&& final(self).sda.view().mode is Input
                &&& final(self).scl.view().mode is RisingWatch
                &&& all.len() == pre.len() + 8
                &&& all.take(pre.len() as int) == pre
                &&& (forall|i: int| pre.len() <= i < all.len() ==> all[i] <= 1)
                &&& r->Ok_0 == decode_op(assemble_bits(all.skip(pre.len() as int)))
                &&& final(self).scl.view().events == old(self).scl.view().events + 8
                &&& final(self).sda.view().acqs == enter_input(old(self).sda.view()).acqs
                &&& final(self).scl.view().acqs == enter_rising(old(self).scl.view()).acqs
            }),
            r is Err ==> r->Err_0.kind is ReadAddrError,
    {
        match self.read_byte() {
            Ok(byte) => Ok(decode_addr_byte(byte)),
            Err(e) => Err(I2cGpioError::read_addr_error().with_cause(e)),
        }
    }

    /// Transmits eight bits MSB-first, synchronised to the master's clock.
    ///
    /// The first bit is driven before any clock edge is awaited, because the
    /// master samples it on the following rise; only seven further edges are
    /// consumed. The data line is re-driven only when the next bit differs
    /// from the one already on the wire, so the values that reach the wire
    /// are exactly `drive_writes(byte)`. After the last bit the line is
    /// released so the master can drive the acknowledgement.
    #[verifier::loop_isolation(false)]
    pub fn write_byte(&mut self, byte: u8) -> (r: Result<(), I2cGpioError>)
        requires
            old(self).wf(),
        ensures
            final(self).wf(),
            final(self).sda.view().reads == old(self).sda.view().reads,
            final(self).sda.view().events == old(self).sda.view().events,
            final(self).scl.view().reads == old(self).scl.view().reads,
            final(self).scl.view().driven == old(self).scl.view().driven,
            final(self).scl.view().writes == old(self).scl.view().writes,
            r is Ok ==> ({
                let sda0 = old(self).sda.view();
                let first = nth_bit(byte, 0);
                &&& final(self).sda.view().mode is Input
                &&& final(self).scl.view().mode is RisingWatch
                &&& final(self).sda.view().driven == sda0.driven + drive_writes(byte)
                &&& final(self).sda.view().writes == enter_output(sda0, first).writes + (
                drive_writes(byte).len() - 1)
                &&& final(self).sda.view().acqs == enter_output(sda0, first).acqs + 1
                &&& final(self).scl.view().events == old(self).scl.view().events + 7
                &&& final(self).scl.view().acqs == enter_rising(old(self).scl.view()).acqs
            }),
            r is Err ==> r->Err_0.kind == crate::errors::I2cGpioErrorKind::WriteByteError(byte),
            r is Err ==> ({
                let pre = old(self).sda.view().driven;
                let now = final(self).sda.view().driven;
                now == pre || (exists|k: int|
                    1 <= k <= 8 && now == pre + #[trigger] drive_writes_upto(byte, k))
            }),
    {
        let first = bit_at(byte, 0);
        if let Err(e) = self.sda.output(first) {
            return Err(I2cGpioError::write_byte_error(byte).with_cause(e));
        }
        proof {
            assert(drive_writes_upto(byte, 0) =~= Seq::<u8>::empty());
            assert(drive_writes_upto(byte, 1) =~= seq![nth_bit(byte, 0)]);
            assert(old(self).sda.view().driven + drive_writes_upto(byte, 1) =~= old(
                self,
            ).sda.view().driven.push(first));
        }
        if let Err(e) = self.scl.rising_edge() {
            return Err(I2cGpioError::write_byte_error(byte).with_cause(e));
        }
        let ghost sda1 = self.sda.view();
        let ghost scl1 = self.scl.view();
        let mut current = first;
        let mut nr: usize = 0;
        while nr < 7
            invariant
                self.wf(),
                nr <= 7,
                current <= 1,
                current == nth_bit(byte, nr as int),
                self.sda.view().mode == LineMode::Output(current),
                self.scl.view().mode is RisingWatch,
                drive_writes_upto(byte, nr as int + 1).len() >= 1,
                self.sda.view().driven == old(self).sda.view().driven + drive_writes_upto(
                    byte,
                    nr as int + 1,
                ),
                self.sda.view().writes == sda1.writes + (drive_writes_upto(
                    byte,
                    nr as int + 1,
                ).len() - 1),
                self.sda.view().acqs == sda1.acqs,
                self.sda.view().reads == sda1.reads,
                self.sda.view().events == sda1.events,
                self.scl.view().events == scl1.events + nr,
                self.scl.view().reads == scl1.reads,
                self.scl.view().driven == scl1.driven,
                self.scl.view().writes == scl1.writes,
                self.scl.view().acqs == scl1.acqs,
            decreases 7 - nr,
        {
            if let Err(e) = self.scl.wait_edge() {
                proof {
                    assert(self.sda.view().driven == old(self).sda.view().driven
                        + drive_writes_upto(byte, nr as int + 1));
                }
                return Err(I2cGpioError::write_byte_error(byte).with_cause(e));
            }
            let next = bit_at(byte, nr + 1);
            if next != current {
                proof {
                    assert(drive_writes_upto(byte, nr as int + 2) == drive_writes_upto(
                        byte,
                        nr as int + 1,
                    ).push(next));
                    assert(old(self).sda.view().driven + drive_writes_upto(
                        byte,
                        nr as int + 1,
                    ).push(next) =~= (old(self).sda.view().driven + drive_writes_upto(
                        byte,
                        nr as int + 1,
                    )).push(next));
                }
                if let Err(e) = self.sda.set_value(next) {
                    proof {
                        assert(self.sda.view().driven == old(self).sda.view().driven
                            + drive_writes_upto(byte, nr as int + 1));
                    }
                    return Err(I2cGpioError::write_byte_error(byte).with_cause(e));
                }
                current = next;
            } else {
                proof {
                    assert(drive_writes_upto(byte, nr as int + 2) == drive_writes_upto(
                        byte,
                        nr as int + 1,
                    ));
                }
            }
            nr = nr + 1;
        }
        if let Err(e) = self.sda.input() {
            proof {
                assert(self.sda.view().driven == old(self).sda.view().driven
                    + drive_writes_upto(byte, 8));
            }
            return Err(I2cGpioError::write_byte_error(byte).with_cause(e));
        }
        Ok(())
    }

    /// Waits one whole clock cycle: the next rising edge of SCL, then the
    /// next falling edge. A stream that ends without its event fails with
    /// the missing polarity's name.
    fn wait_up_down_cycle(&mut self) -> (r: Result<(), I2cGpioError>)
        requires
            old(self).wf(),
        ensures
            final(self).wf(),
            final(self).sda == old(self).sda,
            final(self).scl.view().reads == old(self).scl.view().reads,
            final(self).scl.view().driven == old(self).scl.view().driven,
            final(self).scl.view().writes == old(self).scl.view().writes,
            r is Ok ==> ({
                &&& final(self).scl.view().mode is FallingWatch
                &&& final(self).scl.view().events == old(self).scl.view().events + 2
                &&& final(self).scl.view().acqs == enter_rising(old(self).scl.view()).acqs + 1
            }),
            r is Err ==> (r->Err_0.kind is WaitNextEdge || r->Err_0.kind is LineRequestError),
            r is Err && r->Err_0.kind is WaitNextEdge ==> ({
                let name = r->Err_0.kind->WaitNextEdge_0@;
                ||| (final(self).scl.view().mode is RisingWatch && name == "rising"@)
                ||| (final(self).scl.view().mode is FallingWatch && name == "falling"@)
            }),
    {
        if let Err(e) = self.scl.rising_edge() {
            return Err(e);
        }
        if let Err(e) = self.scl.wait_edge() {
            return Err(e);
        }
        if let Err(e) = self.scl.falling_edge() {
            return Err(e);
        }
        if let Err(e) = self.scl.wait_edge() {
            return Err(e);
        }
        Ok(())
    }

    /// Pulls SDA low for one clock cycle, acknowledging the preceding byte.
    ///
    /// On every path, success or failure, the engine does not walk away with
    /// SDA still driven: whatever step fails, the line is released before the
    /// error is returned, so a failed acknowledgement cannot jam the bus.
    pub fn ack(&mut self) -> (r: Result<(), I2cGpioError>)
        requires
            old(self).wf(),
            !(old(self).sda.view().mode is Output),
        ensures
            final(self).wf(),
            released(final(self).sda.view().mode),
            final(self).sda.view().reads == old(self).sda.view().reads,
            final(self).sda.view().events == old(self).sda.view().events,
            final(self).scl.view().reads == old(self).scl.view().reads,
            final(self).scl.view().driven == old(self).scl.view().driven,
            final(self).scl.view().writes == old(self).scl.view().writes,
            r is Ok ==> ({
                &&& final(self).sda.view().mode is Input
                &&& final(self).sda.view().driven == old(self).sda.view().driven + seq![0u8]
                &&& final(self).sda.view().acqs == old(self).sda.view().acqs + 2
                &&& final(self).scl.view().mode is FallingWatch
                &&& final(self).scl.view().events == old(self).scl.view().events + 2
                &&& final(self).scl.view().acqs == enter_rising(old(self).scl.view()).acqs + 1
            }),
            r is Err ==> (final(self).sda.view().mode is Input
                || final(self).sda.view().mode is Undefined),
            r is Err ==> ({
                let e = r->Err_0;
                let reason = e.kind->AckError_0@;
                &&& e.kind is AckError
                &&& e.cause is Some
                &&& (reason == "failed to switch sda to output"@ || reason
                    == "wait up down cycle failed"@ || reason
                    == "failed to switch sda back to input"@)
                &&& (reason == "failed to switch sda to output"@ ==> final(self).sda.view().driven
                    == old(self).sda.view().driven)
                &&& (reason == "wait up down cycle failed"@ ==> final(self).sda.view().driven
                    == old(self).sda.view().driven.push(0))
                &&& (reason == "failed to switch sda back to input"@
                    ==> final(self).sda.view().driven == old(self).sda.view().driven.push(0)
                        && final(self).scl.view().events == old(self).scl.view().events + 2
                        && final(self).sda.view().mode is Undefined)
            }),
    {
        proof {
            reveal_strlit("failed to switch sda to output");
            reveal_strlit("wait up down cycle failed");
            reveal_strlit("failed to switch sda back to input");
            // The three reason texts have pairwise different lengths, so each
            // implication in the contract singles out exactly one failure
            // path.
            assert("failed to switch sda to output"@.len() == 30);
            assert("wait up down cycle failed"@.len() == 25);
            assert("failed to switch sda back to input"@.len() == 34);
        }
        if let Err(e) = self.sda.output(0) {
            let _ = self.sda.input();
            return Err(
                I2cGpioError::ack_error("failed to switch sda to output".to_owned()).with_cause(
                    e,
                ),
            );
        }
        if let Err(e) = self.wait_up_down_cycle() {
            let _ = self.sda.input();
            return Err(
                I2cGpioError::ack_error("wait up down cycle failed".to_owned()).with_cause(e),
            );
        }
        if let Err(e) = self.sda.input() {
            return Err(
                I2cGpioError::ack_error("failed to switch sda back to input".to_owned()).with_cause(
                    e,
                ),
            );
        }
        Ok(())
    }

    /// Signals no-acknowledge: leaves SDA untouched — the pull-up keeps it
    /// high, so the line must already be released as an input — and waits one
    /// clock cycle.
    pub fn nack(&mut self) -> (r: Result<(), I2cGpioError>)
        requires
            old(self).wf(),
            old(self).sda.view().mode is Input,
        ensures
            final(self).wf(),
            final(self).sda == old(self).sda,
            released(final(self).sda.view().mode),
            final(self).scl.view().reads == old(self).scl.view().reads,
            final(self).scl.view().driven == old(self).scl.view().driven,
            final(self).scl.view().writes == old(self).scl.view().writes,
            r is Ok ==> ({
                &&& final(self).scl.view().mode is FallingWatch
                &&& final(self).scl.view().events == old(self).scl.view().events + 2
                &&& final(self).scl.view().acqs == enter_rising(old(self).scl.view()).acqs + 1
            }),
            r is Err ==> ({
                let e = r->Err_0;
                &&& e.kind is NackError
                &&& e.kind->NackError_0@ == "wait up down cycle failed"@
                &&& e.cause is Some
            }),
    {
        match self.wait_up_down_cycle() {
            Ok(()) => Ok(()),
            Err(e) => Err(
                I2cGpioError::nack_error("wait up down cycle failed".to_owned()).with_cause(e),
            ),
        }
    }

    /// After transmitting a byte, releases SDA and samples it on the next
    /// rising clock edge: 0 means the master acknowledged and wants more,
    /// 1 means end-of-read.
    pub fn read_master_ack(&mut self) -> (r: Result<u8, I2cGpioError>)
        requires
            old(self).wf(),
        ensures
            final(self).wf(),
            final(self).sda.view().driven == old(self).sda.view().driven,
            final(self).sda.view().writes == old(self).sda.view().writes,
            final(self).sda.view().events == old(self).sda.view().events,
            final(self).scl.view().reads == old(self).scl.view().reads,
            final(self).scl.view().driven == old(self).scl.view().driven,
            final(self).scl.view().writes == old(self).scl.view().writes,
            r is Ok ==> ({
                &&& r->Ok_0 <= 1
                &&& final(self).sda.view().mode is Input
                &&& final(self).scl.view().mode is RisingWatch
                &&& final(self).sda.view().reads == old(self).sda.view().reads.push(r->Ok_0)
                &&& final(self).scl.view().events == old(self).scl.view().events + 1
                &&& final(self).sda.view().acqs == enter_input(old(self).sda.view()).acqs
                &&& final(self).scl.view().acqs == enter_rising(old(self).scl.view()).acqs
            }),
            r is Err ==> (r->Err_0.kind is LineRequestError || r->Err_0.kind is WaitNextEdge),
    {
        if let Err(e) = self.sda.input() {
            return Err(e);
        }
        if let Err(e) = self.scl.rising_edge() {
            return Err(e);
        }
        if let Err(e) = self.scl.wait_edge() {
            return Err(e);
        }
        self.sda.get_value()
    }

    /// Blocks until the master issues a STOP: SDA rises while SCL is high.
    ///
    /// Only the first delivered rising edge is judged: SCL is sampled, and a
    /// low clock — a mid-bit data change, or the spurious first event of a
    /// freshly opened watch — means the wait was entered out of step with the
    /// bus, which is an error rather than a STOP. On success the rising-edge
    /// watch is surrendered and SDA ends in input mode; a high clock sample
    /// fails only if that final re-acquisition fails, which leaves SDA
    /// floating in an undefined mode.
    pub fn wait_stop(&mut self) -> (r: Result<(), I2cGpioError>)
        requires
            old(self).wf(),
        ensures
            final(self).wf(),
            released(old(self).sda.view().mode) ==> released(final(self).sda.view().mode),
            final(self).sda.view().reads == old(self).sda.view().reads,
            final(self).sda.view().driven == old(self).sda.view().driven,
            final(self).sda.view().writes == old(self).sda.view().writes,
            final(self).scl.view().driven == old(self).scl.view().driven,
            final(self).scl.view().writes == old(self).scl.view().writes,
            final(self).scl.view().events == old(self).scl.view().events,
            r is Ok ==> ({
                &&& final(self).scl.view().mode is Input
                &&& final(self).sda.view().mode is Input
                &&& final(self).scl.view().reads == old(self).scl.view().reads.push(1)
                &&& final(self).sda.view().events == old(self).sda.view().events + 1
                &&& final(self).sda.view().acqs == enter_rising(old(self).sda.view()).acqs + 1
                &&& final(self).scl.view().acqs == enter_input(old(self).scl.view()).acqs
            }),
            r is Err ==> r->Err_0.kind is WaitStopError,
            r is Err ==> ({
                let pre = old(self).scl.view().reads;
                let all = final(self).scl.view().reads;
                ||| all == pre
                ||| (all == pre.push(0) && final(self).sda.view().events == old(
                    self,
                ).sda.view().events + 1)
                ||| (all == pre.push(1) && final(self).sda.view().events == old(
                    self,
                ).sda.view().events + 1 && final(self).sda.view().mode is Undefined)
            }),
            r is Err ==> final(self).sda.view().events <= old(self).sda.view().events + 1,
    {
        if let Err(e) = self.scl.input() {
            return Err(I2cGpioError::wait_stop_error().with_cause(e));
        }
        if let Err(e) = self.sda.rising_edge() {
            return Err(I2cGpioError::wait_stop_error().with_cause(e));
        }
        if let Err(e) = self.sda.wait_edge() {
            return Err(I2cGpioError::wait_stop_error().with_cause(e));
        }
        match self.scl.get_value() {
            Ok(level) => {
                if level == 1 {
                    // STOP observed: surrender the watch and leave the data
                    // line released as an input.
                    if let Err(e) = self.sda.input() {
                        return Err(I2cGpioError::wait_stop_error().with_cause(e));
                    }
                    Ok(())
                } else {
                    Err(I2cGpioError::wait_stop_error())
                }
            },
            Err(e) => Err(I2cGpioError::wait_stop_error().with_cause(e)),
        }
    }
}

/// After one byte reception the data line is an input and the clock line
/// watches rising edges — exactly what the next reception asks for. So two
/// `read_byte` calls in direct succession pay for at most one acquisition
/// pair: the second re-acquires neither line.
pub proof fn lemma_second_read_byte_acquires_nothing(sda: LineView, scl: LineView)
    requires
        sda.mode is Input,
        scl.mode is RisingWatch,
    ensures
        enter_input(sda).acqs == sda.acqs,
        enter_rising(scl).acqs == scl.acqs,
{
}

} // verus!
