//! The SPI link state machine: not-wired-up versus clocked-and-ready, and
//! chip-select-gated transfers.
//!
//! The peripheral itself lives at the hardware boundary. This model keeps
//! every decision the firmware makes about it — when the link may transfer,
//! which frequency applies, how the chip-select line brackets an exchange —
//! and takes the one thing only hardware can produce, the bytes captured
//! during the full-duplex exchange, as an argument. The levels driven on
//! the chip-select output are recorded in a ghost history, so the contracts
//! pin down exactly when the line toggles.

use vstd::prelude::*;

verus! {

/// Failure modes of the SPI link.
#[derive(Clone, Copy, Debug, PartialEq, Eq, Structural)]
pub enum SpiError {
    /// A transfer was requested while the link is disabled.
    NotEnabled,
    /// The electrical exchange did not complete or returned a malformed
    /// capture.
    TransferFailed,
}

/// An electrical level driven on the chip-select output. The line idles
/// high and selects the device while low.
#[derive(Clone, Copy, Debug, PartialEq, Eq, Structural)]
pub enum CsLevel {
    Low,
    High,
}

/// Exactly one of the two link states is live at a time: either the pins
/// float and the peripheral is unclocked, or the peripheral is clocked at a
/// known frequency with chip-select available as an output.
#[derive(Clone, Copy, Debug, PartialEq, Eq, Structural)]
pub enum SpiState {
    Disabled,
    Enabled { freq: u32 },
}

/// The SPI link: its live state, the last applied clock frequency, and the
/// history of levels driven on the chip-select output.
pub struct SpiManager {
    /// Which state is live.
    pub state: SpiState,
    /// The last frequency a transition applied, so re-asserting pin drive
    /// can reuse it without the caller re-specifying it. Zero means no
    /// frequency has been applied yet.
    pub last_freq: u32,
    /// Every level ever driven on the chip-select output, in order.
    pub cs_levels: Ghost<Seq<CsLevel>>,
}

/// Whether the captured exchange is usable: present and exactly the
/// requested read length, as a completed full-duplex exchange fills its
/// whole capture buffer.
pub open spec fn exchange_ok(exchange: Option<Vec<u8>>, rlen: int) -> bool {
    match exchange {
        Option::Some(rx) => rx@.len() == rlen,
        Option::None => false,
    }
}

/// The bytes the exchange captured, when any.
pub open spec fn exchange_data(exchange: Option<Vec<u8>>) -> Seq<u8> {
    match exchange {
        Option::Some(rx) => rx@,
        Option::None => Seq::empty(),
    }
}

impl SpiManager {
    /// A fresh link: disabled, pins floating, no frequency applied yet,
    /// nothing driven on chip-select.
    pub fn new() -> (r: SpiManager)
        ensures
            r.state is Disabled,
            r.last_freq == 0,
            r.cs_levels@ == Seq::<CsLevel>::empty(),
    {
        SpiManager { state: SpiState::Disabled, last_freq: 0, cs_levels: Ghost(Seq::empty()) }
    }

    /// Disabled to Enabled at `freq`, remembering the frequency; a no-op
    /// when already enabled. Chip-select is not touched.
    pub fn enable(&mut self, freq: u32)
        ensures
            final(self).cs_levels == old(self).cs_levels,
            match old(self).state {
                SpiState::Enabled { .. } => *final(self) == *old(self),
                SpiState::Disabled => final(self).state == (SpiState::Enabled { freq })
                    && final(self).last_freq == freq,
            },
    {
        match self.state {
            SpiState::Enabled { .. } => (),
            SpiState::Disabled => {
                self.state = SpiState::Enabled { freq };
                self.last_freq = freq;
            },
        }
    }

    /// Enabled to Disabled, returning the pins to a passive state; a no-op
    /// when already disabled. The applied frequency stays remembered and
    /// chip-select is not touched.
    pub fn disable(&mut self)
        ensures
            final(self).state is Disabled,
            final(self).last_freq == old(self).last_freq,
            final(self).cs_levels == old(self).cs_levels,
    {
        match self.state {
            SpiState::Enabled { .. } => {
                self.state = SpiState::Disabled;
            },
            SpiState::Disabled => (),
        }
    }

    /// Unconditionally re-derives an Enabled state at `freq` by disabling
    /// first, so the new frequency takes effect even when one was already
    /// active.
    pub fn configure(&mut self, freq: u32)
        ensures
            final(self).state == (SpiState::Enabled { freq }),
            final(self).last_freq == freq,
            final(self).cs_levels == old(self).cs_levels,
    {
        self.disable();
        self.enable(freq);
    }

    /// The raw full-duplex step: valid only while enabled. The embedding
    /// performs the electrical exchange — shifting `tx` out, then capturing
    /// `rlen` bytes of the device's response — and hands the capture in as
    /// `exchange`; this function decides what the outcome means. The link
    /// state and the chip-select line are left as they were.
    pub fn read_write(&mut self, tx: &Vec<u8>, rlen: usize, exchange: Option<Vec<u8>>) -> (r:
        Result<Vec<u8>, SpiError>)
        ensures
            *final(self) == *old(self),
            old(self).state is Disabled ==> r == Err::<Vec<u8>, SpiError>(SpiError::NotEnabled),
            old(self).state is Enabled && exchange_ok(exchange, rlen as int) ==> match r {
                Ok(out) => out@ == exchange_data(exchange),
                Err(_) => false,
            },
            old(self).state is Enabled && !exchange_ok(exchange, rlen as int) ==> r == Err::<
                Vec<u8>,
                SpiError,
            >(SpiError::TransferFailed),
    {
        match self.state {
            SpiState::Disabled => Err(SpiError::NotEnabled),
            SpiState::Enabled { .. } => match exchange {
                Option::Some(rx) => if rx.len() == rlen {
                    Ok(rx)
                } else {
                    Err(SpiError::TransferFailed)
                },
                Option::None => Err(SpiError::TransferFailed),
            },
        }
    }

    /// One chip-select-bracketed transfer. While disabled it fails at once
    /// and the chip-select line is not touched. While enabled the line is
    /// asserted, the exchange outcome is judged, and the line is deasserted
    /// exactly once on the way out — also when the exchange failed.
    pub fn transfer_with_cs(&mut self, tx: &Vec<u8>, rlen: usize, exchange: Option<Vec<u8>>) -> (r:
        Result<Vec<u8>, SpiError>)
        ensures
            final(self).state == old(self).state,
            final(self).last_freq == old(self).last_freq,
            old(self).state is Disabled ==> r == Err::<Vec<u8>, SpiError>(SpiError::NotEnabled)
                && final(self).cs_levels == old(self).cs_levels,
            old(self).state is Enabled ==> final(self).cs_levels@ == old(self).cs_levels@ + seq![
                CsLevel::Low,
                CsLevel::High,
            ],
            old(self).state is Enabled && exchange_ok(exchange, rlen as int) ==> match r {
                Ok(out) => out@ == exchange_data(exchange),
                Err(_) => false,
            },
            old(self).state is Enabled && !exchange_ok(exchange, rlen as int) ==> r == Err::<
                Vec<u8>,
                SpiError,
            >(SpiError::TransferFailed),
    {
        match self.state {
            SpiState::Disabled => Err(SpiError::NotEnabled),
            SpiState::Enabled { .. } => {
                self.cs_levels = Ghost(self.cs_levels@ + seq![CsLevel::Low]);
                let r = self.read_write(tx, rlen, exchange);
                self.cs_levels = Ghost(self.cs_levels@ + seq![CsLevel::High]);
                proof {
                    assert(self.cs_levels@ =~= old(self).cs_levels@ + seq![
                        CsLevel::Low,
                        CsLevel::High,
                    ]);
                }
                r
            },
        }
    }
}

/// Builds the byte stream the embedding shifts out for one transfer: the
/// command's write data followed by one neutral 0xFF filler byte for each
/// byte to be read back.
pub fn mosi_frame(tx: &Vec<u8>, rlen: usize) -> (r: Vec<u8>)
    requires
        tx@.len() + rlen <= usize::MAX,
    ensures
        r@ == tx@ + Seq::new(rlen as nat, |i: int| 0xffu8),
{
    let mut out: Vec<u8> = Vec::new();
    crate::data_utils::push_all(&mut out, tx);
    let mut i: usize = 0;
    while i < rlen
        invariant
            i <= rlen,
            out@ == tx@ + Seq::new(i as nat, |j: int| 0xffu8),
        decreases rlen - i,
    {
        out.push(0xff);
        proof {
            assert(out@ =~= tx@ + Seq::new((i + 1) as nat, |j: int| 0xffu8));
        }
        i = i + 1;
    }
    proof {
        assert(out@ =~= tx@ + Seq::new(rlen as nat, |j: int| 0xffu8));
    }
    out
}

} // verus!
