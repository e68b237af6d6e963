//! Serial interface: status decisions, DMA reception and transmission, and a
//! byte writer for formatted output.
//!
//! USART2 receives on DMA1 channel 5 and transmits on DMA1 channel 6.
use vstd::prelude::*;
use crate::dma::{self, Buffer, BufferState, Direction, Dma, Dma1Channel5, Dma1Channel6, Mode, Transfer};

verus! {

/// An error
#[derive(Clone, Copy, Debug, PartialEq, Eq, Structural)]
pub enum Error {
    /// De-synchronization, excessive noise or a break character detected
    Framing,
    /// Noise detected in the received frame
    Noise,
    /// RX buffer overrun
    Overrun,
}

/// Interrupt event
#[derive(Clone, Copy, Debug, PartialEq, Eq, Structural)]
pub enum Event {
    /// RX buffer Not Empty (new data available)
    Rxne,
    /// Transmission Complete
    Tc,
    /// TX buffer Empty (more data can be send)
    Txe,
}

/// The flags of the USART status register that the driver reads.
#[derive(Clone, Copy, Debug, PartialEq, Eq, Structural)]
pub struct Status {
    /// Overrun error
    pub overrun: bool,
    /// Noise detected
    pub noise: bool,
    /// Framing error
    pub framing: bool,
    /// A received byte is waiting in the data register
    pub rx_not_empty: bool,
    /// The data register can take a byte to send
    pub tx_empty: bool,
}

/// The error that the status reports, if any: overrun first, then noise, then framing.
pub open spec fn status_error(sr: Status) -> Option<Error> {
    if sr.overrun {
        Some(Error::Overrun)
    } else if sr.noise {
        Some(Error::Noise)
    } else if sr.framing {
        Some(Error::Framing)
    } else {
        None
    }
}

/// Whether a byte can be read now: the status error if there is one, else
/// `Ok(true)` when a received byte waits and `Ok(false)` when a read would block.
pub fn rx_ready(sr: Status) -> (r: Result<bool, Error>)
    ensures
        status_error(sr) matches Some(e) ==> r == Err::<bool, Error>(e),
        status_error(sr) is None ==> r == Ok::<bool, Error>(sr.rx_not_empty),
{
    if sr.overrun {
        Err(Error::Overrun)
    } else if sr.noise {
        Err(Error::Noise)
    } else if sr.framing {
        Err(Error::Framing)
    } else {
        Ok(sr.rx_not_empty)
    }
}

/// Whether a byte can be written now: the status error if there is one, else
/// `Ok(true)` when the data register is empty and `Ok(false)` when a write
/// would block.
pub fn tx_ready(sr: Status) -> (r: Result<bool, Error>)
    ensures
        status_error(sr) matches Some(e) ==> r == Err::<bool, Error>(e),
        status_error(sr) is None ==> r == Ok::<bool, Error>(sr.tx_empty),
{
    if sr.overrun {
        Err(Error::Overrun)
    } else if sr.noise {
        Err(Error::Noise)
    } else if sr.framing {
        Err(Error::Framing)
    } else {
        Ok(sr.tx_empty)
    }
}

/// Serial interface, known by the address of its data register.
pub struct Serial {
    data_register: u32,
}

impl Serial {
    /// Address of the data register.
    pub closed spec fn spec_data_register(&self) -> u32 {
        self.data_register
    }

    /// The serial interface whose data register is at `data_register`.
    pub fn new(data_register: u32) -> (r: Serial)
        ensures
            r.spec_data_register() == data_register,
    {
        Serial { data_register }
    }

    /// Address of the data register.
    pub fn data_register(&self) -> (r: u32)
        ensures
            r == self.spec_data_register(),
    {
        self.data_register
    }

    /// Starts a DMA transfer that receives `buffer.len()` bytes into `buffer`.
    ///
    /// The buffer is locked until the transfer is released. Fails, changing
    /// nothing, with `InUse` while the receive channel is enabled or the buffer
    /// is lent, else with `Size` when it holds more bytes than the count
    /// register can.
    pub fn read_exact(&self, dma: &mut Dma, channel: &Dma1Channel5, buffer: &mut Buffer<u8>) -> (r:
        Result<Transfer, dma::Error>)
        requires
            old(dma).wf(),
            old(dma).id() == 1,
            old(buffer).wf(),
        ensures
            final(dma).wf(),
            final(buffer).wf(),
            final(buffer).contents() == old(buffer).contents(),
            old(dma).regs(5).enabled || old(buffer).lock_state() != BufferState::Free ==> {
                &&& r matches Err(dma::Error::InUse)
                &&& *final(dma) == *old(dma)
                &&& final(buffer).lock_state() == old(buffer).lock_state()
            },
            !old(dma).regs(5).enabled && old(buffer).lock_state() == BufferState::Free
                && !dma::fits(old(buffer).contents().len(), Mode::OneShot) ==> {
                &&& r matches Err(dma::Error::Size)
                &&& *final(dma) == *old(dma)
                &&& final(buffer).lock_state() == old(buffer).lock_state()
            },
            !old(dma).regs(5).enabled && old(buffer).lock_state() == BufferState::Free
                && dma::fits(old(buffer).contents().len(), Mode::OneShot) ==> {
                &&& r is Ok
                &&& r->Ok_0.wf()
                &&& r->Ok_0.spec_channel() == 5
                &&& final(buffer).lock_state() == BufferState::LockedByDma(1, 5)
                &&& final(dma).regs(5) == dma::started_regs(
                    old(buffer).contents().len() as u16,
                    self.spec_data_register(),
                    Direction::PeripheralToMemory,
                    Mode::OneShot,
                )
                &&& final(dma).others_unchanged(old(dma), 5)
            },
    {
        let ch = dma::Channel::number(channel);
        dma.start(ch, buffer, self.data_register, Direction::PeripheralToMemory, Mode::OneShot)
    }

    /// Starts a DMA transfer that sends the whole `buffer`.
    ///
    /// The buffer is locked until the transfer is released. Fails, changing
    /// nothing, with `InUse` while the transmit channel is enabled or the buffer
    /// is lent, else with `Size` when it holds more bytes than the count
    /// register can.
    pub fn write_all(&self, dma: &mut Dma, channel: &Dma1Channel6, buffer: &mut Buffer<u8>) -> (r:
        Result<Transfer, dma::Error>)
        requires
            old(dma).wf(),
            old(dma).id() == 1,
            old(buffer).wf(),
        ensures
            final(dma).wf(),
            final(buffer).wf(),
            final(buffer).contents() == old(buffer).contents(),
            old(dma).regs(6).enabled || old(buffer).lock_state() != BufferState::Free ==> {
                &&& r matches Err(dma::Error::InUse)
                &&& *final(dma) == *old(dma)
                &&& final(buffer).lock_state() == old(buffer).lock_state()
            },
            !old(dma).regs(6).enabled && old(buffer).lock_state() == BufferState::Free
                && !dma::fits(old(buffer).contents().len(), Mode::OneShot) ==> {
                &&& r matches Err(dma::Error::Size)
                &&& *final(dma) == *old(dma)
                &&& final(buffer).lock_state() == old(buffer).lock_state()
            },
            !old(dma).regs(6).enabled && old(buffer).lock_state() == BufferState::Free
                && dma::fits(old(buffer).contents().len(), Mode::OneShot) ==> {
                &&& r is Ok
                &&& r->Ok_0.wf()
                &&& r->Ok_0.spec_channel() == 6
                &&& final(buffer).lock_state() == BufferState::LockedByDma(1, 6)
                &&& final(dma).regs(6) == dma::started_regs(
                    old(buffer).contents().len() as u16,
                    self.spec_data_register(),
                    Direction::MemoryToPeripheral,
                    Mode::OneShot,
                )
                &&& final(dma).others_unchanged(old(dma), 6)
            },
    {
        let ch = dma::Channel::number(channel);
        dma.start(ch, buffer, self.data_register, Direction::MemoryToPeripheral, Mode::OneShot)
    }
}

/// Writes bytes one after the other into a borrowed byte buffer.
pub struct Writer<'a> {
    buf: &'a mut [u8],
    offset: usize,
}

impl<'a> Writer<'a> {
    /// The buffer's current contents.
    pub closed spec fn contents(&self) -> Seq<u8> {
        self.buf@
    }

    /// Number of bytes written so far.
    pub closed spec fn written(&self) -> nat {
        self.offset as nat
    }

    /// The written bytes are within the buffer.
    pub open spec fn wf(&self) -> bool {
        self.written() <= self.contents().len()
    }

    /// A writer that starts at the beginning of `buf`.
    pub fn out(buf: &'a mut [u8]) -> (r: Writer<'a>)
        ensures
            r.wf(),
            r.written() == 0,
            r.contents() == old(buf)@,
    {
        Writer { buf, offset: 0 }
    }

    /// Room left after the bytes written so far.
    pub fn remaining(&self) -> (r: usize)
        requires
            self.wf(),
        ensures
            r == self.contents().len() - self.written(),
    {
        self.buf.len() - self.offset
    }

    /// Copies `bytes` right after the bytes written so far.
    pub fn write_bytes(&mut self, bytes: &[u8])
        requires
            old(self).wf(),
            old(self).written() + bytes@.len() <= old(self).contents().len(),
        ensures
            final(self).wf(),
            final(self).written() == old(self).written() + bytes@.len(),
            final(self).contents() == old(self).contents().subrange(0, old(self).written() as int)
                + bytes@ + old(self).contents().subrange(
                final(self).written() as int,
                old(self).contents().len() as int,
            ),
    {
        let start = self.offset;
        let cap = self.buf.len();
        let mut i: usize = 0;
        while i < bytes.len()
            invariant
                i <= bytes@.len(),
                start + bytes@.len() <= old(self).contents().len(),
                self.buf@.len() == old(self).contents().len(),
                cap == self.buf@.len(),
                self.offset == start,
                start == old(self).written(),
                self.buf@ == old(self).contents().subrange(0, start as int) + bytes@.subrange(0, i as int)
                    + old(self).contents().subrange(start + i, old(self).contents().len() as int),
            decreases bytes@.len() - i,
        {
            self.buf[start + i] = bytes[i];
            proof {
                assert(self.buf@ =~= old(self).contents().subrange(0, start as int) + bytes@.subrange(
                    0,
                    i + 1,
                ) + old(self).contents().subrange(start + i + 1, old(self).contents().len() as int));
            }
            i = i + 1;
        }
        proof {
            assert(bytes@.subrange(0, bytes@.len() as int) =~= bytes@);
        }
        self.offset = start + bytes.len();
    }
}

} // verus!
