//! Hotline user sessions and their flag words.

use vstd::prelude::*;
use std::sync::Arc;
use crate::accounts::HLAccount;

verus! {

/// User message flags.
#[derive(Clone, Copy, Debug, PartialEq, Eq, Structural, Hash)]
pub struct HLUserMsgFlags {
    pub bits: u16,
}

impl HLUserMsgFlags {
    pub const REFUSE_PRIVATE_MSGS: u16 = 1;

    pub const REFUSE_PRIVATE_CHAT: u16 = 2;

    pub const AUTO_REPLY: u16 = 4;

    /// The empty flag set.
    pub fn empty() -> (r: HLUserMsgFlags)
        ensures
            r.bits == 0,
    {
        HLUserMsgFlags { bits: 0 }
    }

    /// The flag set with exactly the given bits.
    pub fn from_bits(bits: u16) -> (r: HLUserMsgFlags)
        ensures
            r.bits == bits,
    {
        HLUserMsgFlags { bits }
    }

    /// Whether every given flag is set.
    pub fn contains(&self, flags: u16) -> (r: bool)
        ensures
            r == (self.bits & flags == flags),
    {
        self.bits & flags == flags
    }
}

/// User status flags.
#[derive(Clone, Copy, Debug, PartialEq, Eq, Structural, Hash)]
pub struct HLUserFlags {
    pub bits: u16,
}

impl HLUserFlags {
    pub const AWAY: u16 = 1;

    pub const ADMIN: u16 = 2;

    pub const REFUSE_PRIVATE_MSGS: u16 = 4;

    pub const REFUSE_PRIVATE_CHAT: u16 = 8;

    /// The empty flag set.
    pub fn empty() -> (r: HLUserFlags)
        ensures
            r.bits == 0,
    {
        HLUserFlags { bits: 0 }
    }

    /// The flag set with exactly the given bits.
    pub fn from_bits(bits: u16) -> (r: HLUserFlags)
        ensures
            r.bits == bits,
    {
        HLUserFlags { bits }
    }

    /// Whether every given flag is set.
    pub fn contains(&self, flags: u16) -> (r: bool)
        ensures
            r == (self.bits & flags == flags),
    {
        self.bits & flags == flags
    }
}

/// A live connection of one account to the server.
#[derive(Clone, Debug)]
pub struct HLSession {
    pub id: u16,
    pub icon: u16,
    pub msg_flags: HLUserMsgFlags,
    pub flags: HLUserFlags,
    pub version: u16,
    pub account: Arc<HLAccount>,
    pub alias: Vec<u8>,
}

} // verus!
