//! Decisions of a bus master: when it may transmit, and when a reply is
//! complete. The caller performs the waits and the reads.

use vstd::prelude::*;

verus! {

/// Microseconds in a second.
pub const MICROS_PER_SECOND: u64 = 1_000_000;

/// Bit times in the silent interval: 3.5 characters of 10 bits (8N1).
pub const SILENT_INTERVAL_BITS: u64 = 35;

/// Bytes a reply may fill before it is taken as complete.
pub const RESPONSE_BUFFER_LEN: usize = 256;

/// The silent interval T3.5 at `baud` bits per second, in microseconds,
/// rounded up: 35 bit times.
pub open spec fn silent_interval(baud: nat) -> nat
    recommends
        baud > 0,
{
    let bit_micros = SILENT_INTERVAL_BITS * MICROS_PER_SECOND;
    ((bit_micros + baud - 1) / (baud as int)) as nat
}

/// Computes the silent interval T3.5 at `baud_rate` bits per second, in
/// microseconds, rounded up.
pub fn idle_time_us(baud_rate: u32) -> (r: u64)
    requires
        baud_rate > 0,
    ensures
        r == silent_interval(baud_rate as nat),
{
    let bit_micros: u64 = SILENT_INTERVAL_BITS * MICROS_PER_SECOND;
    (bit_micros + baud_rate as u64 - 1) / (baud_rate as u64)
}

/// When the link was last written to and how long it must then stay quiet.
#[derive(Debug, Clone, Copy, PartialEq, Eq, Structural)]
pub struct LinkTimer {
    last_tx_us: u64,
    idle_us: u64,
}

impl LinkTimer {
    /// Time of the last transmission, in microseconds.
    pub closed spec fn last_tx(&self) -> u64 {
        self.last_tx_us
    }

    /// The silent interval, in microseconds.
    pub closed spec fn idle(&self) -> u64 {
        self.idle_us
    }

    /// A timer for a link at `baud_rate`, set so that the first frame can go
    /// at once when `now_us` is at least one silent interval.
    pub fn new(baud_rate: u32, now_us: u64) -> (r: LinkTimer)
        requires
            baud_rate > 0,
        ensures
            r.idle() == silent_interval(baud_rate as nat),
            r.last_tx() == (if now_us >= r.idle() { now_us - r.idle() } else { 0 }),
    {
        let idle_us = idle_time_us(baud_rate);
        LinkTimer { last_tx_us: now_us.saturating_sub(idle_us), idle_us }
    }

    /// Changes the baud rate; the link counts as just written to.
    pub fn set_baud_rate(&mut self, baud_rate: u32, now_us: u64)
        requires
            baud_rate > 0,
        ensures
            final(self).idle() == silent_interval(baud_rate as nat),
            final(self).last_tx() == now_us,
    {
        self.idle_us = idle_time_us(baud_rate);
        self.last_tx_us = now_us;
    }

    /// The silent interval, in microseconds.
    pub fn idle_us(&self) -> (r: u64)
        ensures
            r == self.idle(),
    {
        self.idle_us
    }

    /// Whether a frame may start at `now_us`: more than one silent interval
    /// has passed since the last transmission.
    pub fn may_transmit(&self, now_us: u64) -> (r: bool)
        ensures
            r == (now_us as int - self.last_tx() as int > self.idle() as int),
    {
        now_us > self.last_tx_us && now_us - self.last_tx_us > self.idle_us
    }

    /// Records a transmission that ended at `now_us`.
    pub fn record_transmit(&mut self, now_us: u64)
        ensures
            final(self).last_tx() == now_us,
            final(self).idle() == old(self).idle(),
    {
        self.last_tx_us = now_us;
    }
}

/// What happened while waiting for a reply.
#[derive(Debug, Clone, Copy, PartialEq, Eq, Structural)]
pub enum ReadEvent {
    /// A read returned this many new bytes; `0` when the link stayed idle
    /// for the read's own timeout.
    Received(usize),
    /// The request's timeout has passed.
    DeadlinePassed,
}

/// What to do next while waiting for a reply.
#[derive(Debug, Clone, Copy, PartialEq, Eq, Structural)]
pub enum ReadAction {
    /// Read again.
    Continue,
    /// The reply is complete; decode what was received.
    Complete,
    /// Nothing arrived before the deadline.
    TimedOut,
}

/// The reply length and next action after `event`, given `len` bytes so far.
pub open spec fn read_step(len: nat, event: ReadEvent) -> (nat, ReadAction) {
    match event {
        ReadEvent::Received(n) => {
            let total = (len + n) as nat;
            if total >= RESPONSE_BUFFER_LEN {
                (total, ReadAction::Complete)
            } else if n == 0 && total > 0 {
                (total, ReadAction::Complete)
            } else {
                (total, ReadAction::Continue)
            }
        },
        ReadEvent::DeadlinePassed => {
            if len == 0 {
                (len, ReadAction::TimedOut)
            } else {
                (len, ReadAction::Complete)
            }
        },
    }
}

/// Accumulates the bytes of a reply until it is complete.
#[derive(Debug, Clone, Copy, PartialEq, Eq, Structural)]
pub struct ResponseReader {
    len: usize,
}

impl ResponseReader {
    /// Bytes received so far.
    pub closed spec fn received(&self) -> nat {
        self.len as nat
    }

    /// A reader with nothing received.
    pub fn new() -> (r: ResponseReader)
        ensures
            r.received() == 0,
    {
        ResponseReader { len: 0 }
    }

    /// Bytes received so far.
    pub fn len(&self) -> (r: usize)
        ensures
            r == self.received(),
    {
        self.len
    }

    /// Takes in one event and says what to do next.
    ///
    /// The reply is complete when the buffer is full, or when a read brings
    /// nothing after some bytes came; the deadline ends the wait, as a
    /// timeout if nothing came at all.
    pub fn step(&mut self, event: ReadEvent) -> (r: ReadAction)
        requires
            old(self).received() <= RESPONSE_BUFFER_LEN,
            event matches ReadEvent::Received(n) ==> old(self).received() + n
                <= RESPONSE_BUFFER_LEN,
        ensures
            (final(self).received(), r) == read_step(old(self).received(), event),
            final(self).received() <= RESPONSE_BUFFER_LEN,
    {
        match event {
            ReadEvent::Received(n) => {
                self.len = self.len + n;
                if self.len >= RESPONSE_BUFFER_LEN {
                    ReadAction::Complete
                } else if n == 0 && self.len > 0 {
                    ReadAction::Complete
                } else {
                    ReadAction::Continue
                }
            },
            ReadEvent::DeadlinePassed => {
                if self.len == 0 {
                    ReadAction::TimedOut
                } else {
                    ReadAction::Complete
                }
            },
        }
    }
}

} // verus!
