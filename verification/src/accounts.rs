//! Hotline user accounts and their privilege bits.

use vstd::prelude::*;

verus! {

/// User privileges, one bit per right, stored in a 64-bit word. This
/// includes the extra GLoarb extensions.
#[derive(Clone, Copy, Debug, PartialEq, Eq, Structural, Hash)]
pub struct HLUserAccess {
    pub bits: u64,
}

impl HLUserAccess {
    pub const DELETE_FILES: u64 = 1 << 1;

    pub const UPLOAD_FILES: u64 = 1 << 2;

    pub const DOWNLOAD_FILES: u64 = 1 << 3;

    pub const RENAME_FILES: u64 = 1 << 4;

    pub const MOVE_FILES: u64 = 1 << 5;

    pub const CREATE_FOLDERS: u64 = 1 << 6;

    pub const DELETE_FOLDERS: u64 = 1 << 7;

    pub const RENAME_FOLDERS: u64 = 1 << 8;

    pub const MOVE_FOLDERS: u64 = 1 << 9;

    pub const READ_CHAT: u64 = 1 << 10;

    pub const SEND_CHAT: u64 = 1 << 11;

    pub const CREATE_CHATS: u64 = 1 << 12;

    pub const CLOSE_CHATS: u64 = 1 << 13;

    pub const SHOW_IN_LIST: u64 = 1 << 14;

    pub const CREATE_USERS: u64 = 1 << 15;

    pub const DELETE_USERS: u64 = 1 << 16;

    pub const OPEN_USERS: u64 = 1 << 17;

    pub const EDIT_USERS: u64 = 1 << 18;

    pub const EDIT_OWN_PASSWORD: u64 = 1 << 19;

    pub const SEND_PRIVATE_MESSAGES: u64 = 1 << 20;

    pub const READ_NEWS: u64 = 1 << 21;

    pub const POST_NEWS: u64 = 1 << 22;

    pub const KICK_USERS: u64 = 1 << 23;

    pub const CANT_BE_KICKED: u64 = 1 << 24;

    pub const GET_USER_INFO: u64 = 1 << 25;

    pub const UPLOAD_ANYWHERE: u64 = 1 << 26;

    pub const ANY_NAME: u64 = 1 << 27;

    pub const NO_AGREEMENT: u64 = 1 << 28;

    pub const SET_FILE_COMMENTS: u64 = 1 << 29;

    pub const SET_FOLDER_COMMENTS: u64 = 1 << 30;

    pub const VIEW_DROP_BOXES: u64 = 1 << 31;

    pub const MAKE_ALIASES: u64 = 1 << 32;

    pub const BROADCAST: u64 = 1 << 33;

    pub const DELETE_NEWS_ARTICLES: u64 = 1 << 34;

    pub const CREATE_NEWS_CATEGORIES: u64 = 1 << 35;

    pub const DELETE_NEWS_CATEGORIES: u64 = 1 << 36;

    pub const CREATE_NEWS_FOLDERS: u64 = 1 << 37;

    pub const DELETE_NEWS_FOLDERS: u64 = 1 << 38;

    pub const UPLOAD_FOLDERS: u64 = 1 << 39;

    pub const DOWNLOAD_FOLDERS: u64 = 1 << 40;

    pub const SEND_MESSAGES: u64 = 1 << 41;

    pub const FAKE_RED: u64 = 1 << 42;

    pub const AWAY: u64 = 1 << 43;

    pub const EDIT_NAME: u64 = 1 << 44;

    pub const EDIT_ICON: u64 = 1 << 45;

    pub const SPEAK_BEFORE: u64 = 1 << 46;

    pub const REFUSE_CHAT_INVITES: u64 = 1 << 47;

    pub const BLOCK_DOWNLOADS: u64 = 1 << 48;

    pub const VISIBILITY: u64 = 1 << 49;

    pub const VIEW_INVISIBLE: u64 = 1 << 50;

    pub const FLOOD: u64 = 1 << 51;

    pub const VIEW_OWN_DROP_BOX: u64 = 1 << 52;

    pub const DONT_QUEUE: u64 = 1 << 53;

    pub const ADMIN_INSPECTOR: u64 = 1 << 54;

    pub const POST_BEFORE: u64 = 1 << 55;

    /// The privilege set with no right granted.
    pub fn empty() -> (r: HLUserAccess)
        ensures
            r.bits == 0,
    {
        HLUserAccess { bits: 0 }
    }

    /// The privilege set with exactly the given bits.
    pub fn from_bits(bits: u64) -> (r: HLUserAccess)
        ensures
            r.bits == bits,
    {
        HLUserAccess { bits }
    }

    /// Whether every right in `rights` is granted.
    pub fn contains(&self, rights: u64) -> (r: bool)
        ensures
            r == (self.bits & rights == rights),
    {
        self.bits & rights == rights
    }

    /// Grant the given rights.
    pub fn insert(&mut self, rights: u64)
        ensures
            final(self).bits == old(self).bits | rights,
    {
        self.bits = self.bits | rights;
    }

    /// Revoke the given rights.
    pub fn remove(&mut self, rights: u64)
        ensures
            final(self).bits == old(self).bits & !rights,
    {
        self.bits = self.bits & !rights;
    }
}

/// Hotline user account. This is included in the HOPE "derivitive".
#[derive(Clone, Debug)]
pub struct HLAccount {
    pub name: Vec<u8>,
    pub login: Vec<u8>,
    pub password: Vec<u8>,
    pub access: HLUserAccess,
}

} // verus!
