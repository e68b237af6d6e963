//! DMA transfers between a peripheral data register and a [`Buffer`].
//!
//! The controller's per-channel registers are modelled by [`ChannelRegs`];
//! [`Dma`] holds them for every channel, with the controller's id. A buffer is
//! lent to the engine by [`Dma::start`] (its tag becomes `LockedByDma` with the
//! controller's id and the channel) and comes back to software only through
//! [`Buffer::release`] or [`Transfer::wait`] on that same controller, once the
//! channel's transfer-complete flag is set. [`Dma::request`] is what the engine does on
//! one request of the peripheral: it moves one element and updates the count
//! and the status flags.
use vstd::prelude::*;
use crate::checked::checked_u16;

verus! {

/// Number of channels of one DMA controller (numbered `0..CHANNELS`).
pub const CHANNELS: usize = 8;

/// Largest element count that the count register holds.
pub const MAX_COUNT: usize = 0xFFFF;

/// DMA error
#[derive(Clone, Copy, Debug, PartialEq, Eq, Structural)]
pub enum Error {
    /// The channel is enabled, or the buffer is already lent to the engine
    InUse,
    /// The engine has not signalled completion yet
    NotDone,
    /// The engine reported a transfer (bus) error
    Transfer,
    /// The buffer does not fit the transfer: more elements than the count
    /// register holds, or, in circular mode, not two equal non-empty halves
    Size,
    /// Circular mode: both halves were written since the last read
    Overrun,
}

/// Direction of a transfer
#[derive(Clone, Copy, Debug, PartialEq, Eq, Structural)]
pub enum Direction {
    /// From the peripheral's data register into the buffer
    PeripheralToMemory,
    /// From the buffer into the peripheral's data register
    MemoryToPeripheral,
}

/// One-shot or circular transfer
#[derive(Clone, Copy, Debug, PartialEq, Eq, Structural)]
pub enum Mode {
    /// Stops when the count reaches zero
    OneShot,
    /// Reloads the count and goes on; the buffer is two halves
    Circular,
}

/// Who may access a buffer
#[derive(Clone, Copy, Debug, PartialEq, Eq, Structural)]
pub enum BufferState {
    /// Software owns the contents
    Free,
    /// Lent to the engine: the controller's id and the channel
    LockedByDma(u8, usize),
}

/// The registers of one channel.
#[derive(Clone, Copy, Debug, PartialEq, Eq, Structural)]
pub struct ChannelRegs {
    /// Enable bit
    pub enabled: bool,
    /// Circular or one-shot
    pub mode: Mode,
    /// Transfer direction
    pub direction: Direction,
    /// Programmed number of elements (the count reload value)
    pub count: u16,
    /// Elements left in the current cycle (the count register)
    pub remaining: u16,
    /// Address of the peripheral's data register
    pub peripheral_address: u32,
    /// Half-transfer flag
    pub half: bool,
    /// Transfer-complete flag
    pub complete: bool,
    /// Transfer-error flag
    pub error: bool,
}

/// Registers of a channel at reset.
pub open spec fn idle_regs() -> ChannelRegs {
    ChannelRegs {
        enabled: false,
        mode: Mode::OneShot,
        direction: Direction::PeripheralToMemory,
        count: 0,
        remaining: 0,
        peripheral_address: 0,
        half: false,
        complete: false,
        error: false,
    }
}

/// Registers of a channel just enabled for `count` elements.
pub open spec fn started_regs(count: u16, peripheral_address: u32, direction: Direction, mode: Mode) -> ChannelRegs {
    ChannelRegs {
        enabled: true,
        mode,
        direction,
        count,
        remaining: count,
        peripheral_address,
        half: false,
        complete: count == 0,
        error: false,
    }
}

/// Registers of a channel after its completed transfer was acknowledged:
/// complete flag cleared, channel disabled.
pub open spec fn finished_regs(r: ChannelRegs) -> ChannelRegs {
    ChannelRegs { enabled: false, complete: false, ..r }
}

/// Registers of a channel after the engine reported a bus error.
pub open spec fn faulted_regs(r: ChannelRegs) -> ChannelRegs {
    ChannelRegs { enabled: false, error: true, ..r }
}

/// Whether the engine moves an element on the next request.
pub open spec fn moves(r: ChannelRegs) -> bool {
    r.enabled && r.remaining > 0
}

/// Elements moved in the current cycle.
pub open spec fn position(r: ChannelRegs) -> int {
    r.count - r.remaining
}

/// Elements in one half of a circular buffer.
pub open spec fn half_len(r: ChannelRegs) -> int {
    r.count as int / 2
}

/// Half of a circular buffer that the engine's next write goes to.
pub open spec fn writing_slot(r: ChannelRegs) -> int {
    if position(r) < half_len(r) {
        0
    } else {
        1
    }
}

/// Registers after one request of the peripheral.
pub open spec fn requested_regs(r: ChannelRegs) -> ChannelRegs {
    if !moves(r) {
        r
    } else {
        let rem = r.remaining - 1;
        let moved = r.count - rem;
        ChannelRegs {
            remaining: if rem == 0 && r.mode == Mode::Circular {
                r.count
            } else {
                rem as u16
            },
            half: r.half || moved == r.count / 2,
            complete: r.complete || rem == 0,
            ..r
        }
    }
}

/// Buffer contents after one request of the peripheral that delivered `incoming`.
pub open spec fn requested_contents<T>(c: Seq<T>, r: ChannelRegs, incoming: T) -> Seq<T> {
    if moves(r) && r.direction == Direction::PeripheralToMemory {
        c.update(position(r), incoming)
    } else {
        c
    }
}

/// Element handed to the peripheral on one request, if any.
pub open spec fn requested_output<T>(c: Seq<T>, r: ChannelRegs) -> Option<T> {
    if moves(r) && r.direction == Direction::MemoryToPeripheral {
        Some(c[position(r)])
    } else {
        None
    }
}

/// What the registers of a channel always satisfy.
pub open spec fn regs_wf(r: ChannelRegs) -> bool {
    &&& r.remaining <= r.count
    &&& (r.error ==> !r.enabled)
    &&& (r.enabled && r.mode == Mode::Circular ==> r.remaining > 0 && r.count % 2 == 0)
}

/// Alignment of a circular reader with the engine: which flags are set
/// follows from where the engine is, for the half the reader waits for.
pub open spec fn circular_aligned(next: int, r: ChannelRegs) -> bool {
    &&& next == 0 || next == 1
    &&& (next == 0 && !r.complete ==> (r.half <==> position(r) >= half_len(r)))
    &&& (next == 1 && !r.half ==> (r.complete <==> position(r) < half_len(r)))
}

/// Whether a buffer of `len` elements fits a transfer in `mode`.
pub open spec fn fits(len: nat, mode: Mode) -> bool {
    &&& len <= MAX_COUNT
    &&& (mode == Mode::Circular ==> len > 0 && len % 2 == 0)
}

/// The registers of one DMA controller, with the controller's id.
pub struct Dma {
    id: u8,
    handles_taken: bool,
    channels: Vec<ChannelRegs>,
}

impl Dma {
    /// The controller's id (1 for DMA1, 2 for DMA2).
    pub closed spec fn id(&self) -> u8 {
        self.id
    }

    /// Whether the channel handles have been handed out.
    pub closed spec fn handles_taken(&self) -> bool {
        self.handles_taken
    }

    /// Registers of channel `ch`.
    pub closed spec fn regs(&self, ch: int) -> ChannelRegs {
        self.channels@[ch]
    }

    /// Every channel's registers are well formed.
    pub closed spec fn wf(&self) -> bool {
        &&& self.channels@.len() == CHANNELS
        &&& forall|i: int| 0 <= i < CHANNELS ==> regs_wf(#[trigger] self.channels@[i])
    }

    /// `self` and `other` are the same controller, with the same channels but
    /// for `ch`.
    pub open spec fn others_unchanged(&self, other: &Dma, ch: int) -> bool {
        &&& self.id() == other.id()
        &&& self.handles_taken() == other.handles_taken()
        &&& forall|i: int| 0 <= i < CHANNELS && i != ch ==> #[trigger] self.regs(i) == other.regs(i)
    }

    /// Controller `id` out of reset: every channel disabled, no flag set, no
    /// handle handed out.
    pub fn new(id: u8) -> (r: Dma)
        ensures
            r.wf(),
            r.id() == id,
            !r.handles_taken(),
            forall|i: int| 0 <= i < CHANNELS ==> #[trigger] r.regs(i) == idle_regs(),
    {
        let mut channels: Vec<ChannelRegs> = Vec::new();
        let mut i: usize = 0;
        while i < CHANNELS
            invariant
                i <= CHANNELS,
                channels@.len() == i,
                forall|j: int| 0 <= j < i ==> #[trigger] channels@[j] == idle_regs(),
            decreases CHANNELS - i,
        {
            channels.push(
                ChannelRegs {
                    enabled: false,
                    mode: Mode::OneShot,
                    direction: Direction::PeripheralToMemory,
                    count: 0,
                    remaining: 0,
                    peripheral_address: 0,
                    half: false,
                    complete: false,
                    error: false,
                },
            );
            i = i + 1;
        }
        Dma { id, handles_taken: false, channels }
    }

    /// The controller's id.
    pub fn id_of(&self) -> (r: u8)
        ensures
            r == self.id(),
    {
        self.id
    }

    /// Registers of channel `ch`.
    pub fn channel(&self, ch: usize) -> (r: ChannelRegs)
        requires
            self.wf(),
            ch < CHANNELS,
        ensures
            r == self.regs(ch as int),
    {
        self.channels[ch]
    }

    /// Whether channel `ch` is enabled.
    pub fn is_enabled(&self, ch: usize) -> (r: bool)
        requires
            self.wf(),
            ch < CHANNELS,
        ensures
            r == self.regs(ch as int).enabled,
    {
        self.channels[ch].enabled
    }

    fn set_channel(&mut self, ch: usize, r: ChannelRegs)
        requires
            old(self).wf(),
            ch < CHANNELS,
            regs_wf(r),
        ensures
            final(self).wf(),
            final(self).id() == old(self).id(),
            final(self).regs(ch as int) == r,
            final(self).others_unchanged(old(self), ch as int),
    {
        self.channels.set(ch, r);
    }
}


/// A fixed-size array of elements with a lock tag saying whether software or
/// the DMA engine may access it.
pub struct Buffer<T> {
    data: Vec<T>,
    state: BufferState,
}

impl<T> Buffer<T> {
    /// The elements.
    pub closed spec fn contents(&self) -> Seq<T> {
        self.data@
    }

    /// The lock tag.
    pub closed spec fn lock_state(&self) -> BufferState {
        self.state
    }

    /// A locked buffer names a channel of the controller.
    pub open spec fn wf(&self) -> bool {
        self.lock_state() matches BufferState::LockedByDma(_, ch) ==> ch < CHANNELS
    }

    /// Creates a free buffer holding `initial`.
    pub fn new(initial: Vec<T>) -> (r: Buffer<T>)
        ensures
            r.contents() == initial@,
            r.lock_state() == BufferState::Free,
            r.wf(),
    {
        Buffer { data: initial, state: BufferState::Free }
    }

    /// Number of elements.
    pub fn len(&self) -> (r: usize)
        ensures
            r == self.contents().len(),
    {
        self.data.len()
    }

    /// The lock tag.
    pub fn state(&self) -> (r: BufferState)
        ensures
            r == self.lock_state(),
    {
        self.state
    }

    /// Read access for software: fails with `InUse` while the engine holds the buffer.
    pub fn lock(&self) -> (r: Result<&[T], Error>)
        ensures
            self.lock_state() == BufferState::Free ==> r is Ok && r->Ok_0@ == self.contents(),
            self.lock_state() != BufferState::Free ==> r matches Err(Error::InUse),
    {
        match self.state {
            BufferState::Free => Ok(self.data.as_slice()),
            BufferState::LockedByDma(_, _) => Err(Error::InUse),
        }
    }

    /// Write access for software: fails with `InUse` while the engine holds the
    /// buffer, and then leaves it untouched.
    pub fn lock_mut(&mut self) -> (r: Result<&mut [T], Error>)
        ensures
            old(self).lock_state() == BufferState::Free ==> {
                &&& r is Ok
                &&& r->Ok_0@ == old(self).contents()
                &&& final(self).contents() == final(r->Ok_0)@
                &&& final(self).lock_state() == BufferState::Free
            },
            old(self).lock_state() != BufferState::Free ==> {
                &&& r matches Err(Error::InUse)
                &&& *final(self) == *old(self)
            },
    {
        match self.state {
            BufferState::Free => Ok(self.data.as_mut_slice()),
            BufferState::LockedByDma(_, _) => Err(Error::InUse),
        }
    }
}


/// An on-going transfer: the channel that holds the buffer and, for a
/// circular transfer, the half that the reader waits for next.
pub struct Transfer {
    controller: u8,
    channel: usize,
    mode: Mode,
    next: usize,
}

impl Transfer {
    /// The id of the transfer's controller.
    pub closed spec fn spec_controller(&self) -> u8 {
        self.controller
    }

    /// The channel of the transfer.
    pub closed spec fn spec_channel(&self) -> int {
        self.channel as int
    }

    /// One-shot or circular.
    pub closed spec fn spec_mode(&self) -> Mode {
        self.mode
    }

    /// The half of a circular buffer that completes next (0 or 1).
    pub closed spec fn next_slot(&self) -> int {
        self.next as int
    }

    /// The channel is one of the controller's and the awaited half is 0 or 1.
    pub open spec fn wf(&self) -> bool {
        &&& 0 <= self.spec_channel() < CHANNELS
        &&& (self.next_slot() == 0 || self.next_slot() == 1)
    }

    /// The id of the transfer's controller.
    pub fn controller(&self) -> (r: u8)
        ensures
            r == self.spec_controller(),
    {
        self.controller
    }

    /// The channel of the transfer.
    pub fn channel(&self) -> (r: usize)
        ensures
            r == self.spec_channel(),
    {
        self.channel
    }

    /// One-shot or circular.
    pub fn mode(&self) -> (r: Mode)
        ensures
            r == self.spec_mode(),
    {
        self.mode
    }
}

impl Dma {
    /// The answer [`Dma::start`] would give on channel `ch` for `buffer` in
    /// `mode`, without starting anything: `InUse` while the channel is enabled
    /// or the buffer is lent, else `Size` when the buffer does not fit, else
    /// `Ok`.
    pub fn check_start<T>(&self, ch: usize, buffer: &Buffer<T>, mode: Mode) -> (r: Result<(), Error>)
        requires
            self.wf(),
            ch < CHANNELS,
        ensures
            self.regs(ch as int).enabled || buffer.lock_state() != BufferState::Free ==> (r matches Err(
                Error::InUse,
            )),
            !self.regs(ch as int).enabled && buffer.lock_state() == BufferState::Free ==> r == (if fits(
                buffer.contents().len(),
                mode,
            ) {
                Ok::<(), Error>(())
            } else {
                Err::<(), Error>(Error::Size)
            }),
    {
        if self.channels[ch].enabled {
            return Err(Error::InUse);
        }
        match buffer.state {
            BufferState::LockedByDma(_, _) => {
                return Err(Error::InUse);
            },
            BufferState::Free => {},
        }
        let len = buffer.data.len();
        if len > MAX_COUNT {
            return Err(Error::Size);
        }
        if mode == Mode::Circular && (len == 0 || len % 2 != 0) {
            return Err(Error::Size);
        }
        Ok(())
    }
}

impl Dma {
    /// Starts a transfer of the whole `buffer` on channel `ch`.
    ///
    /// Fails with `InUse`, changing nothing, when the channel is enabled or the
    /// buffer is already lent; else with `Size`, changing nothing, when the
    /// buffer does not fit the transfer. Otherwise programs the channel (count,
    /// peripheral address, direction, mode), sets its enable bit and tags the
    /// buffer as lent to this controller's channel `ch`.
    pub fn start<T>(
        &mut self,
        ch: usize,
        buffer: &mut Buffer<T>,
        peripheral_address: u32,
        direction: Direction,
        mode: Mode,
    ) -> (r: Result<Transfer, Error>)
        requires
            old(self).wf(),
            ch < CHANNELS,
            old(buffer).wf(),
        ensures
            final(self).wf(),
            final(buffer).wf(),
            final(buffer).contents() == old(buffer).contents(),
            old(self).regs(ch as int).enabled || old(buffer).lock_state() != BufferState::Free
                ==> {
                &&& r matches Err(Error::InUse)
                &&& *final(self) == *old(self)
                &&& final(buffer).lock_state() == old(buffer).lock_state()
            },
            !old(self).regs(ch as int).enabled && old(buffer).lock_state() == BufferState::Free
                && !fits(old(buffer).contents().len(), mode) ==> {
                &&& r matches Err(Error::Size)
                &&& *final(self) == *old(self)
                &&& final(buffer).lock_state() == old(buffer).lock_state()
            },
            !old(self).regs(ch as int).enabled && old(buffer).lock_state() == BufferState::Free
                && fits(old(buffer).contents().len(), mode) ==> {
                &&& r is Ok
                &&& r->Ok_0.wf()
                &&& r->Ok_0.spec_controller() == old(self).id()
                &&& r->Ok_0.spec_channel() == ch
                &&& r->Ok_0.spec_mode() == mode
                &&& r->Ok_0.next_slot() == 0
                &&& final(buffer).lock_state() == BufferState::LockedByDma(old(self).id(), ch)
                &&& final(self).regs(ch as int) == started_regs(
                    old(buffer).contents().len() as u16,
                    peripheral_address,
                    direction,
                    mode,
                )
                &&& final(self).others_unchanged(old(self), ch as int)
                &&& (mode == Mode::Circular ==> circular_aligned(0, final(self).regs(ch as int)))
            },
    {
        if self.channels[ch].enabled {
            return Err(Error::InUse);
        }
        match buffer.state {
            BufferState::LockedByDma(_, _) => {
                return Err(Error::InUse);
            },
            BufferState::Free => {},
        }
        let count = match checked_u16(buffer.data.len()) {
            Some(n) => n,
            None => {
                return Err(Error::Size);
            },
        };
        if mode == Mode::Circular && (count == 0 || count % 2 != 0) {
            return Err(Error::Size);
        }
        let regs = ChannelRegs {
            enabled: true,
            mode,
            direction,
            count,
            remaining: count,
            peripheral_address,
            half: false,
            complete: count == 0,
            error: false,
        };
        self.set_channel(ch, regs);
        buffer.state = BufferState::LockedByDma(self.id, ch);
        Ok(Transfer { controller: self.id, channel: ch, mode, next: 0 })
    }
}


impl Dma {
    /// What the engine does on one request of the peripheral on channel `ch`.
    ///
    /// When the channel is enabled with elements left, the element at the
    /// current position is written from `incoming` (peripheral to memory) or
    /// handed out (memory to peripheral); the count goes down, the half flag is
    /// set when half the elements have moved and the complete flag when the
    /// count reaches zero, where a circular channel reloads it. Otherwise the
    /// request moves nothing.
    pub fn request<T: Copy>(&mut self, ch: usize, buffer: &mut Buffer<T>, incoming: T) -> (out: Option<T>)
        requires
            old(self).wf(),
            ch < CHANNELS,
            old(buffer).lock_state() == BufferState::LockedByDma(old(self).id(), ch),
            old(buffer).contents().len() == old(self).regs(ch as int).count,
        ensures
            final(self).wf(),
            final(self).regs(ch as int) == requested_regs(old(self).regs(ch as int)),
            final(self).others_unchanged(old(self), ch as int),
            final(buffer).contents() == requested_contents(
                old(buffer).contents(),
                old(self).regs(ch as int),
                incoming,
            ),
            final(buffer).lock_state() == old(buffer).lock_state(),
            out == requested_output(old(buffer).contents(), old(self).regs(ch as int)),
    {
        let r = self.channels[ch];
        if !r.enabled || r.remaining == 0 {
            return None;
        }
        let pos = (r.count - r.remaining) as usize;
        let out = match r.direction {
            Direction::PeripheralToMemory => {
                buffer.data.set(pos, incoming);
                None
            },
            Direction::MemoryToPeripheral => Some(buffer.data[pos]),
        };
        let rem = r.remaining - 1;
        let moved = r.count - rem;
        let mut next = r;
        next.remaining = if rem == 0 && r.mode == Mode::Circular {
            r.count
        } else {
            rem
        };
        next.half = r.half || moved == r.count / 2;
        next.complete = r.complete || rem == 0;
        self.set_channel(ch, next);
        out
    }

    /// The engine reports a bus error on channel `ch`: the error flag is set
    /// and the channel disabled.
    pub fn fault(&mut self, ch: usize)
        requires
            old(self).wf(),
            ch < CHANNELS,
        ensures
            final(self).wf(),
            final(self).regs(ch as int) == faulted_regs(old(self).regs(ch as int)),
            final(self).others_unchanged(old(self), ch as int),
    {
        let mut r = self.channels[ch];
        r.enabled = false;
        r.error = true;
        self.set_channel(ch, r);
    }
}

impl<T> Buffer<T> {
    /// Takes the buffer back from the engine.
    ///
    /// A free buffer stays free. A buffer lent to another controller than
    /// `dma` fails with `InUse`, changing nothing. A buffer lent to channel `ch`
    /// of `dma` becomes free when that channel's complete flag is set; the flag
    /// is then cleared and the channel disabled. Before that it fails with
    /// `NotDone`, and after a bus error (the engine has then disabled the
    /// channel) with `Transfer`, changing nothing.
    pub fn release(&mut self, dma: &mut Dma) -> (r: Result<(), Error>)
        requires
            old(dma).wf(),
            old(self).wf(),
        ensures
            final(dma).wf(),
            final(self).wf(),
            final(self).contents() == old(self).contents(),
            old(self).lock_state() == BufferState::Free ==> {
                &&& r is Ok
                &&& *final(dma) == *old(dma)
                &&& final(self).lock_state() == BufferState::Free
            },
            old(self).lock_state() matches BufferState::LockedByDma(c, _) && c != old(dma).id() ==> {
                &&& (r matches Err(Error::InUse))
                &&& *final(dma) == *old(dma)
                &&& final(self).lock_state() == old(self).lock_state()
            },
            old(self).lock_state() matches BufferState::LockedByDma(c, ch) ==> c != old(dma).id() || {
                let regs = old(dma).regs(ch as int);
                &&& regs.error ==> (r matches Err(Error::Transfer)) && !regs.enabled
                &&& !regs.error && !regs.complete ==> (r matches Err(Error::NotDone))
                &&& r is Err ==> *final(dma) == *old(dma) && final(self).lock_state()
                    == old(self).lock_state()
                &&& !regs.error && regs.complete ==> {
                    &&& r is Ok
                    &&& final(self).lock_state() == BufferState::Free
                    &&& final(dma).regs(ch as int) == finished_regs(regs)
                    &&& final(dma).others_unchanged(old(dma), ch as int)
                }
            },
    {
        match self.state {
            BufferState::Free => Ok(()),
            BufferState::LockedByDma(c, ch) => {
                if c != dma.id {
                    return Err(Error::InUse);
                }
                let regs = dma.channels[ch];
                if regs.error {
                    Err(Error::Transfer)
                } else if !regs.complete {
                    Err(Error::NotDone)
                } else {
                    let mut done = regs;
                    done.complete = false;
                    done.enabled = false;
                    dma.set_channel(ch, done);
                    self.state = BufferState::Free;
                    Ok(())
                }
            },
        }
    }
}

impl<T> Buffer<T> {
    /// Takes back a buffer whose transfer ended in a bus error: the channel,
    /// already disabled by the engine, has its error flag cleared and the
    /// buffer becomes free. A buffer whose channel reports no error is still in
    /// the engine's hands, and one lent to another controller than `dma` is not
    /// this controller's to give back: both `InUse`, changing nothing. A free
    /// buffer stays free.
    pub fn recover(&mut self, dma: &mut Dma) -> (r: Result<(), Error>)
        requires
            old(dma).wf(),
            old(self).wf(),
        ensures
            final(dma).wf(),
            final(self).wf(),
            final(self).contents() == old(self).contents(),
            old(self).lock_state() == BufferState::Free ==> {
                &&& r is Ok
                &&& *final(dma) == *old(dma)
                &&& final(self).lock_state() == BufferState::Free
            },
            old(self).lock_state() matches BufferState::LockedByDma(c, _) && c != old(dma).id() ==> {
                &&& (r matches Err(Error::InUse))
                &&& *final(dma) == *old(dma)
                &&& final(self).lock_state() == old(self).lock_state()
            },
            old(self).lock_state() matches BufferState::LockedByDma(c, ch) ==> c != old(dma).id() || {
                let regs = old(dma).regs(ch as int);
                &&& !regs.error ==> {
                    &&& (r matches Err(Error::InUse))
                    &&& *final(dma) == *old(dma)
                    &&& final(self).lock_state() == old(self).lock_state()
                }
                &&& regs.error ==> {
                    &&& r is Ok
                    &&& final(self).lock_state() == BufferState::Free
                    &&& final(dma).regs(ch as int) == ChannelRegs { error: false, ..regs }
                    &&& final(dma).others_unchanged(old(dma), ch as int)
                }
            },
    {
        match self.state {
            BufferState::Free => Ok(()),
            BufferState::LockedByDma(c, ch) => {
                if c != dma.id {
                    return Err(Error::InUse);
                }
                let regs = dma.channels[ch];
                if !regs.error {
                    Err(Error::InUse)
                } else {
                    let mut cleared = regs;
                    cleared.error = false;
                    dma.set_channel(ch, cleared);
                    self.state = BufferState::Free;
                    Ok(())
                }
            },
        }
    }
}

impl Transfer {
    /// Polls the channel: `Err(Transfer)` after a bus error (the channel is
    /// then disabled), else whether the complete flag is set.
    pub fn is_done(&self, dma: &Dma) -> (r: Result<bool, Error>)
        requires
            dma.wf(),
            self.wf(),
            dma.id() == self.spec_controller(),
        ensures
            r is Err ==> !dma.regs(self.spec_channel()).enabled,
            r == (if dma.regs(self.spec_channel()).error {
                Err::<bool, Error>(Error::Transfer)
            } else {
                Ok::<bool, Error>(dma.regs(self.spec_channel()).complete)
            }),
    {
        let regs = dma.channels[self.channel];
        if regs.error {
            Err(Error::Transfer)
        } else {
            Ok(regs.complete)
        }
    }

    /// Ends a transfer whose channel has finished (`is_done` no longer answers
    /// `Ok(false)`): hands `buffer` back to software, free and holding what the
    /// engine left in it, clears the complete flag and disables the channel; or
    /// reports the bus error, after which the channel stays disabled.
    pub fn wait<T>(self, dma: &mut Dma, buffer: &mut Buffer<T>) -> (r: Result<(), Error>)
        requires
            old(dma).wf(),
            self.wf(),
            old(dma).id() == self.spec_controller(),
            old(buffer).lock_state() == BufferState::LockedByDma(
                self.spec_controller(),
                self.spec_channel() as usize,
            ),
            old(dma).regs(self.spec_channel()).complete || old(dma).regs(self.spec_channel()).error,
        ensures
            final(dma).wf(),
            final(buffer).wf(),
            final(buffer).contents() == old(buffer).contents(),
            old(dma).regs(self.spec_channel()).error ==> {
                &&& r matches Err(Error::Transfer)
                &&& !final(dma).regs(self.spec_channel()).enabled
                &&& *final(dma) == *old(dma)
                &&& final(buffer).lock_state() == old(buffer).lock_state()
            },
            !old(dma).regs(self.spec_channel()).error ==> {
                &&& r is Ok
                &&& final(buffer).lock_state() == BufferState::Free
                &&& final(dma).regs(self.spec_channel()) == finished_regs(
                    old(dma).regs(self.spec_channel()),
                )
                &&& final(dma).others_unchanged(old(dma), self.spec_channel())
            },
    {
        buffer.release(dma)
    }
}


/// The flag that signals the end of half `slot` of a circular buffer.
pub open spec fn slot_flag(slot: int, r: ChannelRegs) -> bool {
    if slot == 0 {
        r.half
    } else {
        r.complete
    }
}

/// Registers with the flag of half `slot` cleared.
pub open spec fn slot_acknowledged(slot: int, r: ChannelRegs) -> ChannelRegs {
    if slot == 0 {
        ChannelRegs { half: false, ..r }
    } else {
        ChannelRegs { complete: false, ..r }
    }
}

impl Transfer {
    /// Half of the circular buffer that the engine writes next.
    pub fn active_slot(&self, dma: &Dma) -> (r: usize)
        requires
            dma.wf(),
            self.wf(),
            dma.id() == self.spec_controller(),
        ensures
            r == writing_slot(dma.regs(self.spec_channel())),
    {
        let regs = dma.channels[self.channel];
        if regs.count - regs.remaining < regs.count / 2 {
            0
        } else {
            1
        }
    }

    /// Reads the half of a circular buffer that the engine has just filled.
    ///
    /// Returns the half's index and a copy of its elements once its flag is
    /// set (the half-transfer flag for half 0, the complete flag for half 1),
    /// clears that flag and waits for the other half next. The half handed out
    /// is never the one the engine writes next. Fails with `NotDone` before the
    /// flag is set and with `Transfer` after a bus error, changing nothing. When
    /// both flags are set the engine has overwritten data not yet read: both are
    /// cleared, the reader waits for the half the engine is writing, and the
    /// result is `Overrun`.
    pub fn read_half<T: Copy>(&mut self, dma: &mut Dma, buffer: &Buffer<T>) -> (r: Result<(usize, Vec<T>), Error>)
        requires
            old(dma).wf(),
            old(self).wf(),
            old(dma).id() == old(self).spec_controller(),
            buffer.lock_state() == BufferState::LockedByDma(
                old(self).spec_controller(),
                old(self).spec_channel() as usize,
            ),
            old(dma).regs(old(self).spec_channel()).mode == Mode::Circular,
            buffer.contents().len() == old(dma).regs(old(self).spec_channel()).count,
            circular_aligned(old(self).next_slot(), old(dma).regs(old(self).spec_channel())),
        ensures
            ({
                let ch = old(self).spec_channel();
                let regs = old(dma).regs(ch);
                let slot = old(self).next_slot();
                let h = half_len(regs);
                &&& final(dma).wf()
                &&& final(self).wf()
                &&& final(self).spec_channel() == ch
                &&& final(self).spec_controller() == old(self).spec_controller()
                &&& final(self).spec_mode() == old(self).spec_mode()
                &&& final(dma).others_unchanged(old(dma), ch)
                &&& regs.error ==> {
                    &&& (r matches Err(Error::Transfer))
                    &&& *final(dma) == *old(dma)
                    &&& *final(self) == *old(self)
                }
                &&& !regs.error ==> circular_aligned(final(self).next_slot(), final(dma).regs(ch))
                &&& !regs.error && !slot_flag(slot, regs) ==> {
                    &&& (r matches Err(Error::NotDone))
                    &&& *final(dma) == *old(dma)
                    &&& *final(self) == *old(self)
                }
                &&& !regs.error && slot_flag(slot, regs) && !slot_flag(1 - slot, regs) ==> {
                    &&& r is Ok
                    &&& r->Ok_0.0 == slot
                    &&& r->Ok_0.1@ == buffer.contents().subrange(slot * h, slot * h + h)
                    &&& final(self).next_slot() == 1 - slot
                    &&& final(dma).regs(ch) == slot_acknowledged(slot, regs)
                    &&& writing_slot(final(dma).regs(ch)) != slot
                }
                &&& !regs.error && slot_flag(slot, regs) && slot_flag(1 - slot, regs) ==> {
                    &&& (r matches Err(Error::Overrun))
                    &&& final(self).next_slot() == writing_slot(regs)
                    &&& final(dma).regs(ch) == ChannelRegs { half: false, complete: false, ..regs }
                }
            }),
    {
        let ch = self.channel;
        let regs = dma.channels[ch];
        if regs.error {
            return Err(Error::Transfer);
        }
        let (awaited, other) = if self.next == 0 {
            (regs.half, regs.complete)
        } else {
            (regs.complete, regs.half)
        };
        if !awaited {
            return Err(Error::NotDone);
        }
        if other {
            let mut cleared = regs;
            cleared.half = false;
            cleared.complete = false;
            dma.set_channel(ch, cleared);
            self.next = if regs.count - regs.remaining < regs.count / 2 {
                0
            } else {
                1
            };
            return Err(Error::Overrun);
        }
        let h = (regs.count / 2) as usize;
        let first = self.next * h;
        let mut out: Vec<T> = Vec::new();
        let mut i: usize = 0;
        while i < h
            invariant
                i <= h,
                first + h <= buffer.contents().len() <= MAX_COUNT,
                out@ == buffer.contents().subrange(first as int, first + i),
            decreases h - i,
        {
            out.push(buffer.data[first + i]);
            proof {
                assert(out@ =~= buffer.contents().subrange(first as int, first + i + 1));
            }
            i = i + 1;
        }
        let mut acknowledged = regs;
        if self.next == 0 {
            acknowledged.half = false;
        } else {
            acknowledged.complete = false;
        }
        dma.set_channel(ch, acknowledged);
        let slot = self.next;
        self.next = 1 - slot;
        Ok((slot, out))
    }
}


/// Contents and registers after the peripheral made one request per element
/// of `s`, in order, delivering that element.
pub open spec fn feed<T>(c: Seq<T>, r: ChannelRegs, s: Seq<T>) -> (Seq<T>, ChannelRegs)
    decreases s.len(),
{
    if s.len() == 0 {
        (c, r)
    } else {
        let (c1, r1) = feed(c, r, s.drop_last());
        (requested_contents(c1, r1, s.last()), requested_regs(r1))
    }
}

proof fn lemma_feed_prefix<T>(c: Seq<T>, s: Seq<T>, address: u32, direction: Direction)
    requires
        s.len() <= c.len() <= MAX_COUNT,
    ensures
        ({
            let n = c.len();
            let k = s.len();
            let (c2, r2) = feed(c, started_regs(n as u16, address, direction, Mode::OneShot), s);
            &&& r2.enabled
            &&& !r2.error
            &&& r2.count == n
            &&& r2.direction == direction
            &&& r2.mode == Mode::OneShot
            &&& r2.remaining == n - k
            &&& r2.complete == (k == n)
            &&& c2 == (if direction == Direction::PeripheralToMemory {
                s + c.subrange(k as int, n as int)
            } else {
                c
            })
        }),
    decreases s.len(),
{
    let n = c.len();
    let k = s.len();
    if k == 0 {
        if direction == Direction::PeripheralToMemory {
            assert(s + c.subrange(0, n as int) =~= c);
        }
    } else {
        let prev = s.drop_last();
        lemma_feed_prefix(c, prev, address, direction);
        if direction == Direction::PeripheralToMemory {
            let (c1, r1) = feed(c, started_regs(n as u16, address, direction, Mode::OneShot), prev);
            assert((prev + c.subrange(k - 1, n as int)).update(k - 1, s.last()) =~= s + c.subrange(
                k as int,
                n as int,
            ));
        }
    }
}

/// Round trip of a one-shot transfer: once the peripheral has made one request
/// per element, the complete flag is set (so `wait` and `release` hand the
/// buffer back, free), and the buffer holds exactly the elements received
/// (peripheral to memory) or the contents it was lent with (memory to
/// peripheral).
pub proof fn lemma_one_shot_round_trip<T>(c: Seq<T>, s: Seq<T>, address: u32, direction: Direction)
    requires
        s.len() == c.len() <= MAX_COUNT,
    ensures
        ({
            let (c2, r2) = feed(c, started_regs(c.len() as u16, address, direction, Mode::OneShot), s);
            &&& r2.complete
            &&& !r2.error
            &&& c2 == (if direction == Direction::PeripheralToMemory {
                s
            } else {
                c
            })
        }),
{
    lemma_feed_prefix(c, s, address, direction);
    if direction == Direction::PeripheralToMemory {
        assert(s + c.subrange(c.len() as int, c.len() as int) =~= s);
    }
}

/// A request of the peripheral keeps a circular reader aligned with the engine.
pub proof fn lemma_request_keeps_alignment(next: int, r: ChannelRegs)
    requires
        regs_wf(r),
        r.mode == Mode::Circular,
        circular_aligned(next, r),
    ensures
        circular_aligned(next, requested_regs(r)),
{
}

/// Registers after `k` requests of the peripheral.
pub open spec fn after_requests(r: ChannelRegs, k: nat) -> ChannelRegs
    decreases k,
{
    if k == 0 {
        r
    } else {
        requested_regs(after_requests(r, (k - 1) as nat))
    }
}

proof fn lemma_circular_position(r: ChannelRegs, k: nat)
    requires
        r.enabled,
        !r.error,
        r.mode == Mode::Circular,
        r.count > 0,
        r.remaining == r.count,
    ensures
        after_requests(r, k).enabled,
        after_requests(r, k).count == r.count,
        after_requests(r, k).mode == Mode::Circular,
        position(after_requests(r, k)) == k as int % r.count as int,
    decreases k,
{
    let m = r.count as int;
    if k == 0 {
        assert(0int % m == 0) by {
            vstd::arithmetic::div_mod::lemma_small_mod(0, m as nat);
        }
    } else {
        let j = (k - 1) as nat;
        lemma_circular_position(r, j);
        let p = j as int % m;
        vstd::arithmetic::div_mod::lemma_fundamental_div_mod(j as int, m);
        vstd::arithmetic::div_mod::lemma_mod_bound(j as int, m);
        let q = j as int / m;
        if p + 1 < m {
            vstd::arithmetic::div_mod::lemma_fundamental_div_mod_converse_mod(k as int, m, q, p + 1);
        } else {
            assert(k as int == (q + 1) * m + 0) by (nonlinear_arith)
                requires
                    j as int == m * q + p,
                    p + 1 == m,
                    k == j + 1,
            ;
            vstd::arithmetic::div_mod::lemma_fundamental_div_mod_converse_mod(k as int, m, q + 1, 0);
        }
    }
}

/// Double buffering over time: a circular transfer of two halves of `h`
/// elements, after `n` half-transfers, has its next write in half `n % 2`,
/// while the half it completed last, `(n + 1) % 2`, is the other one.
pub proof fn lemma_halves_alternate(h: nat, n: nat, address: u32)
    requires
        0 < h,
        2 * h <= MAX_COUNT,
    ensures
        ({
            let r0 = started_regs((2 * h) as u16, address, Direction::PeripheralToMemory, Mode::Circular);
            &&& writing_slot(after_requests(r0, n * h)) == n as int % 2
            &&& (n as int + 1) % 2 != n as int % 2
        }),
{
    let r0 = started_regs((2 * h) as u16, address, Direction::PeripheralToMemory, Mode::Circular);
    lemma_circular_position(r0, n * h);
    let m = 2 * h as int;
    let q = n as int / 2;
    let b = n as int % 2;
    vstd::arithmetic::div_mod::lemma_fundamental_div_mod(n as int, 2);
    assert((n * h) as int == q * m + b * h) by (nonlinear_arith)
        requires
            n as int == 2 * q + b,
            m == 2 * h,
    ;
    assert(0 <= b * h < m) by (nonlinear_arith)
        requires
            0 <= b < 2,
            m == 2 * h,
            h > 0,
    ;
    vstd::arithmetic::div_mod::lemma_fundamental_div_mod_converse_mod((n * h) as int, m, q, b * h);
    assert(half_len(after_requests(r0, n * h)) == h);
    if b == 0 {
        assert(b * h == 0) by (nonlinear_arith)
            requires
                b == 0,
        ;
    } else {
        assert(b * h == h) by (nonlinear_arith)
            requires
                b == 1,
        ;
    }
}

/// Double buffering: whenever the half a circular reader waits for is signalled
/// and the other is not, the engine's next write goes to the other half, so
/// the half handed to software is never the one being written.
pub proof fn lemma_readable_half_is_idle(next: int, r: ChannelRegs)
    requires
        circular_aligned(next, r),
        slot_flag(next, r),
        !slot_flag(1 - next, r),
    ensures
        writing_slot(r) != next,
{
}


/// A channel of a controller, identified by the controller's id and the
/// channel's number.
pub trait Channel {
    /// The id of the channel's controller.
    fn controller(&self) -> u8;

    /// The channel's number.
    fn number(&self) -> (r: usize)
        ensures
            r < CHANNELS,
    ;
}

/// Channel 4 of DMA1
pub struct Dma1Channel4 {
    _0: (),
}

/// Channel 5 of DMA1
pub struct Dma1Channel5 {
    _0: (),
}

/// Channel 6 of DMA1
pub struct Dma1Channel6 {
    _0: (),
}

/// Stream 0 of DMA2
pub struct Dma2Stream0 {
    _0: (),
}

impl Channel for Dma1Channel4 {
    fn controller(&self) -> (r: u8)
        ensures
            r == 1,
    {
        1
    }

    fn number(&self) -> (r: usize)
        ensures
            r == 4,
    {
        4
    }
}

impl Channel for Dma1Channel5 {
    fn controller(&self) -> (r: u8)
        ensures
            r == 1,
    {
        1
    }

    fn number(&self) -> (r: usize)
        ensures
            r == 5,
    {
        5
    }
}

impl Channel for Dma1Channel6 {
    fn controller(&self) -> (r: u8)
        ensures
            r == 1,
    {
        1
    }

    fn number(&self) -> (r: usize)
        ensures
            r == 6,
    {
        6
    }
}

impl Channel for Dma2Stream0 {
    fn controller(&self) -> (r: u8)
        ensures
            r == 2,
    {
        2
    }

    fn number(&self) -> (r: usize)
        ensures
            r == 0,
    {
        0
    }
}

/// Splits a controller into the handles of its channels.
pub trait DmaExt {
    /// The channel handles
    type Channels;

    /// Hands out the channel handles.
    fn split(self) -> Self::Channels;
}

/// The channel handles of DMA1
pub struct Dma1Channels(
    pub (),
    pub (),
    pub (),
    pub (),
    pub Dma1Channel4,
    pub Dma1Channel5,
    pub Dma1Channel6,
);

impl<'a> DmaExt for &'a mut Dma {
    type Channels = Option<Dma1Channels>;

    /// The handles of DMA1's channels, once: `None` on any later call, and on
    /// another controller.
    fn split(self) -> (r: Option<Dma1Channels>)
        ensures
            r is Some <==> old(self).id() == 1 && !old(self).handles_taken(),
            final(self).handles_taken() == (old(self).handles_taken() || r is Some),
            final(self).id() == old(self).id(),
            final(self).wf() == old(self).wf(),
            forall|i: int| #[trigger] final(self).regs(i) == old(self).regs(i),
    {
        if self.id != 1 || self.handles_taken {
            return None;
        }
        self.handles_taken = true;
        Some(
            Dma1Channels(
                (),
                (),
                (),
                (),
                Dma1Channel4 { _0: () },
                Dma1Channel5 { _0: () },
                Dma1Channel6 { _0: () },
            ),
        )
    }
}

impl Dma {
    /// The handle of DMA2's stream 0, once: `None` on any later call, and on
    /// another controller.
    pub fn take_stream0(&mut self) -> (r: Option<Dma2Stream0>)
        ensures
            r is Some <==> old(self).id() == 2 && !old(self).handles_taken(),
            final(self).handles_taken() == (old(self).handles_taken() || r is Some),
            final(self).id() == old(self).id(),
            final(self).wf() == old(self).wf(),
            forall|i: int| #[trigger] final(self).regs(i) == old(self).regs(i),
    {
        if self.id != 2 || self.handles_taken {
            return None;
        }
        self.handles_taken = true;
        Some(Dma2Stream0 { _0: () })
    }
}

} // verus!
