//! Analog to digital converter sampling into a circular DMA buffer.
use vstd::prelude::*;
use crate::dma::{self, Buffer, BufferState, Direction, Dma, Dma2Stream0, Mode, Transfer};

verus! {

/// Input associated to ADC1
#[derive(Clone, Copy, Debug, PartialEq, Eq, Structural)]
pub enum AdcIn {
    /// ADC1_IN0
    _0,
    /// ADC1_IN1
    _1,
    /// ADC1_IN2
    _2,
    /// ADC1_IN3
    _3,
    /// ADC1_IN4
    _4,
    /// ADC1_IN5
    _5,
    /// ADC1_IN6
    _6,
    /// ADC1_IN7
    _7,
    /// ADC1_IN8
    _8,
    /// ADC1_IN9
    _9,
    /// ADC1_IN10
    _10,
    /// ADC1_IN11
    _11,
    /// ADC1_IN12
    _12,
    /// ADC1_IN13
    _13,
    /// ADC1_IN14
    _14,
    /// ADC1_IN15
    _15,
}

/// ADC1, known by the address of its data register.
pub struct Adc {
    data_register: u32,
}

impl Adc {
    /// Address of the data register.
    pub closed spec fn spec_data_register(&self) -> u32 {
        self.data_register
    }

    /// The converter whose data register is at `data_register`.
    pub fn new(data_register: u32) -> (r: Adc)
        ensures
            r.spec_data_register() == data_register,
    {
        Adc { data_register }
    }

    /// Starts continuous sampling into `buffer`, taken as two halves that DMA2
    /// stream 0 fills in turn, forever (circular mode).
    ///
    /// Fails, changing nothing, with `InUse` while the stream is enabled or the
    /// buffer is lent, else with `Size` unless the buffer is two equal
    /// non-empty halves that the count register can hold.
    pub fn start(&self, dma2: &mut Dma, stream: &Dma2Stream0, buffer: &mut Buffer<u16>) -> (r: Result<
        Transfer,
        dma::Error,
    >)
        requires
            old(dma2).wf(),
            old(dma2).id() == 2,
            old(buffer).wf(),
        ensures
            final(dma2).wf(),
            final(buffer).wf(),
            final(buffer).contents() == old(buffer).contents(),
            old(dma2).regs(0).enabled || old(buffer).lock_state() != BufferState::Free ==> {
                &&& r matches Err(dma::Error::InUse)
                &&& *final(dma2) == *old(dma2)
                &&& final(buffer).lock_state() == old(buffer).lock_state()
            },
            !old(dma2).regs(0).enabled && old(buffer).lock_state() == BufferState::Free
                && !dma::fits(old(buffer).contents().len(), Mode::Circular) ==> {
                &&& r matches Err(dma::Error::Size)
                &&& *final(dma2) == *old(dma2)
                &&& final(buffer).lock_state() == old(buffer).lock_state()
            },
            !old(dma2).regs(0).enabled && old(buffer).lock_state() == BufferState::Free
                && dma::fits(old(buffer).contents().len(), Mode::Circular) ==> {
                &&& r is Ok
                &&& r->Ok_0.wf()
                &&& r->Ok_0.spec_channel() == 0
                &&& r->Ok_0.next_slot() == 0
                &&& final(buffer).lock_state() == BufferState::LockedByDma(2, 0)
                &&& final(dma2).regs(0) == dma::started_regs(
                    old(buffer).contents().len() as u16,
                    self.spec_data_register(),
                    Direction::PeripheralToMemory,
                    Mode::Circular,
                )
                &&& final(dma2).others_unchanged(old(dma2), 0)
                &&& dma::circular_aligned(0, final(dma2).regs(0))
            },
    {
        let ch = dma::Channel::number(stream);
        dma2.start(ch, buffer, self.data_register, Direction::PeripheralToMemory, Mode::Circular)
    }
}

} // verus!
