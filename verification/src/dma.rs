//! The DMA unit: sprite DMA ($4014 copies a page to object memory) and the sample
//! fetches of the delta modulation channel, both of which stall the CPU.
use vstd::prelude::*;

verus! {

/// Pending transfers and the cycles left before a sample fetch may run.
#[derive(Clone, Copy, PartialEq, Eq, Structural, Debug)]
pub struct State {
    pub ppu_dma_request: Option<u16>,
    pub dmc_dma_request: Option<u16>,
    pub dmc_dma_halt_cycle: u8,
}

impl State {
    pub fn new() -> (s: Self)
        ensures
            s == (State { ppu_dma_request: None, dmc_dma_request: None, dmc_dma_halt_cycle: 2 }),
    {
        State { ppu_dma_request: None, dmc_dma_request: None, dmc_dma_halt_cycle: 2 }
    }

    /// The state after a CPU cycle: a pending sample fetch counts its halt cycles down.
    pub open spec fn ticked(self) -> Self {
        if self.dmc_dma_request.is_some() && self.dmc_dma_halt_cycle > 0 {
            State { dmc_dma_halt_cycle: (self.dmc_dma_halt_cycle - 1) as u8, ..self }
        } else {
            self
        }
    }

    pub fn on_cpu_tick(&mut self)
        ensures
            *final(self) == old(self).ticked(),
    {
        if self.dmc_dma_request.is_some() && self.dmc_dma_halt_cycle > 0 {
            self.dmc_dma_halt_cycle = self.dmc_dma_halt_cycle - 1;
        }
    }

    /// A write to $4014: copy page `data` ($XX00-$XXFF) to object memory.
    pub fn activate_ppu_dma(&mut self, data: u8)
        ensures
            *final(self) == (State { ppu_dma_request: Some((data as u16 * 256) as u16), ..*old(self) }),
    {
        let addr: u16 = (data as u16) * 256;
        self.ppu_dma_request = Some(addr);
    }

    /// The delta modulation channel asks for the sample byte at `addr`.
    pub fn activate_dmc_dma(&mut self, addr: u16)
        ensures
            *final(self) == (State { dmc_dma_request: Some(addr), ..*old(self) }),
    {
        self.dmc_dma_request = Some(addr);
    }

    /// Whether a transfer is pending.
    pub open spec fn pending(self) -> bool {
        self.dmc_dma_request.is_some() || self.ppu_dma_request.is_some()
    }
}

} // verus!
