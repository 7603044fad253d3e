//! Properties of the device's ports.

use vstd::prelude::*;
use crate::bindings::{IBV_MTU_1024, IBV_MTU_2048, IBV_MTU_256, IBV_MTU_4096, IBV_MTU_512};

verus! {

/// The largest payload that a path carries in one packet.
#[derive(Debug, Clone, Copy, PartialEq, Eq, Structural)]
pub enum Mtu {
    Mtu256,
    Mtu512,
    Mtu1024,
    Mtu2048,
    Mtu4096,
}

impl Mtu {
    /// The driver's number for the unit.
    pub open spec fn code(self) -> u32 {
        match self {
            Mtu::Mtu256 => IBV_MTU_256,
            Mtu::Mtu512 => IBV_MTU_512,
            Mtu::Mtu1024 => IBV_MTU_1024,
            Mtu::Mtu2048 => IBV_MTU_2048,
            Mtu::Mtu4096 => IBV_MTU_4096,
        }
    }

    pub fn to_c_uint(self) -> (c: u32)
        ensures
            c == self.code(),
    {
        match self {
            Mtu::Mtu256 => IBV_MTU_256,
            Mtu::Mtu512 => IBV_MTU_512,
            Mtu::Mtu1024 => IBV_MTU_1024,
            Mtu::Mtu2048 => IBV_MTU_2048,
            Mtu::Mtu4096 => IBV_MTU_4096,
        }
    }

    /// The number of bytes of the unit.
    pub fn size(self) -> (n: usize)
        ensures
            n == match self {
                Mtu::Mtu256 => 256usize,
                Mtu::Mtu512 => 512usize,
                Mtu::Mtu1024 => 1024usize,
                Mtu::Mtu2048 => 2048usize,
                Mtu::Mtu4096 => 4096usize,
            },
    {
        match self {
            Mtu::Mtu256 => 256,
            Mtu::Mtu512 => 512,
            Mtu::Mtu1024 => 1024,
            Mtu::Mtu2048 => 2048,
            Mtu::Mtu4096 => 4096,
        }
    }
}

} // verus!
