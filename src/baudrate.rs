//! The baud rates a link can run at, and the silent interval at each.

use vstd::prelude::*;
use crate::master::{idle_time_us, silent_interval};

verus! {

/// Supported baud rates; each has an id used to store or send it.
#[derive(Debug, PartialEq, Eq, PartialOrd, Ord, Clone, Copy, Structural)]
pub enum Baudrate {
    BR1200,
    BR2400,
    BR4800,
    BR9600,
    BR19200,
    BR38400,
    BR57600,
    BR115200,
}

impl Baudrate {
    /// The id of a baud rate: its position in the list, from `0`.
    pub open spec fn id(self) -> u16 {
        match self {
            Baudrate::BR1200 => 0,
            Baudrate::BR2400 => 1,
            Baudrate::BR4800 => 2,
            Baudrate::BR9600 => 3,
            Baudrate::BR19200 => 4,
            Baudrate::BR38400 => 5,
            Baudrate::BR57600 => 6,
            Baudrate::BR115200 => 7,
        }
    }

    /// Bits per second.
    pub open spec fn bps(self) -> u32 {
        match self {
            Baudrate::BR1200 => 1_200,
            Baudrate::BR2400 => 2_400,
            Baudrate::BR4800 => 4_800,
            Baudrate::BR9600 => 9_600,
            Baudrate::BR19200 => 19_200,
            Baudrate::BR38400 => 38_400,
            Baudrate::BR57600 => 57_600,
            Baudrate::BR115200 => 115_200,
        }
    }

    /// The baud rate with a given id, if any.
    pub fn from_id(id: u16) -> (r: Option<Baudrate>)
        ensures
            match r {
                Some(b) => b.id() == id,
                None => id > 7,
            },
    {
        match id {
            0 => Some(Baudrate::BR1200),
            1 => Some(Baudrate::BR2400),
            2 => Some(Baudrate::BR4800),
            3 => Some(Baudrate::BR9600),
            4 => Some(Baudrate::BR19200),
            5 => Some(Baudrate::BR38400),
            6 => Some(Baudrate::BR57600),
            7 => Some(Baudrate::BR115200),
            _ => None,
        }
    }

    /// The id of this baud rate.
    pub fn to_id(&self) -> (r: u16)
        ensures
            r == self.id(),
    {
        match self {
            Baudrate::BR1200 => 0,
            Baudrate::BR2400 => 1,
            Baudrate::BR4800 => 2,
            Baudrate::BR9600 => 3,
            Baudrate::BR19200 => 4,
            Baudrate::BR38400 => 5,
            Baudrate::BR57600 => 6,
            Baudrate::BR115200 => 7,
        }
    }

    /// The baud rate with a given speed in bits per second, if supported.
    pub fn from_u32(value: u32) -> (r: Option<Baudrate>)
        ensures
            match r {
                Some(b) => b.bps() == value,
                None => forall|b: Baudrate| b.bps() != value,
            },
    {
        match value {
            1_200 => Some(Baudrate::BR1200),
            2_400 => Some(Baudrate::BR2400),
            4_800 => Some(Baudrate::BR4800),
            9_600 => Some(Baudrate::BR9600),
            19_200 => Some(Baudrate::BR19200),
            38_400 => Some(Baudrate::BR38400),
            57_600 => Some(Baudrate::BR57600),
            115_200 => Some(Baudrate::BR115200),
            _ => None,
        }
    }

    /// The speed in bits per second.
    pub fn to_u32(&self) -> (r: u32)
        ensures
            r == self.bps(),
    {
        match self {
            Baudrate::BR1200 => 1_200,
            Baudrate::BR2400 => 2_400,
            Baudrate::BR4800 => 4_800,
            Baudrate::BR9600 => 9_600,
            Baudrate::BR19200 => 19_200,
            Baudrate::BR38400 => 38_400,
            Baudrate::BR57600 => 57_600,
            Baudrate::BR115200 => 115_200,
        }
    }

    /// The silent interval (3.5 characters of 10 bits) that ends a frame at
    /// this baud rate, in microseconds, rounded up.
    pub fn packet_end_us(&self) -> (r: u64)
        ensures
            r == silent_interval(self.bps() as nat),
    {
        idle_time_us(self.to_u32())
    }
}

} // verus!
