use std::sync::Arc;

use hope::accounts::{HLAccount, HLUserAccess};
use hope::api::haval_bytes;
use hope::datetime::HLDateTime;
use hope::files::{HLFile, HLFileForkInfo, HLFileForkType, FOLDER_TYPE_CODE};
use hope::hope::{HOPEFile, HOPEFileHashInfo};
use hope::news::HLNewsArticle;
use hope::sessions::{HLSession, HLUserFlags, HLUserMsgFlags};

#[test]
fn datetime_plain_year() {
    // 1999-01-02 01:01:01.500: one day, one hour, one minute, one second
    // past the start of the year.
    let dt = HLDateTime::from_civil(1999, 0, 1, 1, 1, 1, 500);
    assert_eq!(dt.year, 1999);
    assert_eq!(dt.msecs, 500);
    assert_eq!(dt.secs, 86400 + 3600 + 60 + 1);
}

#[test]
fn datetime_leap_year() {
    // 2000-03-01 00:00:00: the month offset of March plus the leap day.
    let dt = HLDateTime::from_civil(2000, 2, 0, 0, 0, 0, 0);
    assert_eq!(dt.secs, 5097600 + 86400);
    // 2000-02-01 00:00:00: no leap adjustment before March.
    let feb = HLDateTime::from_civil(2000, 1, 0, 0, 0, 0, 0);
    assert_eq!(feb.secs, 2678400);
}

#[test]
fn access_flag_operations() {
    let mut access = HLUserAccess::empty();
    assert_eq!(access.bits, 0);
    access.insert(HLUserAccess::DOWNLOAD_FILES | HLUserAccess::READ_CHAT);
    assert!(access.contains(HLUserAccess::DOWNLOAD_FILES));
    assert!(!access.contains(HLUserAccess::UPLOAD_FILES));
    access.remove(HLUserAccess::DOWNLOAD_FILES);
    assert!(!access.contains(HLUserAccess::DOWNLOAD_FILES));
    assert!(access.contains(HLUserAccess::READ_CHAT));
    let copy = HLUserAccess::from_bits(HLUserAccess::POST_BEFORE);
    assert_eq!(copy.bits, 1 << 55);
}

#[test]
fn session_flag_words() {
    let msg = HLUserMsgFlags::from_bits(HLUserMsgFlags::REFUSE_PRIVATE_CHAT | HLUserMsgFlags::AUTO_REPLY);
    assert!(msg.contains(HLUserMsgFlags::AUTO_REPLY));
    assert!(!msg.contains(HLUserMsgFlags::REFUSE_PRIVATE_MSGS));
    let flags = HLUserFlags::empty();
    assert!(!flags.contains(HLUserFlags::ADMIN));
    assert_eq!(HLUserFlags::from_bits(3).bits, HLUserFlags::AWAY | HLUserFlags::ADMIN);
}

#[test]
fn fork_codes_are_four_char_magics() {
    assert_eq!(HLFileForkType::Data.code(), u32::from_be_bytes(*b"DATA"));
    assert_eq!(HLFileForkType::MacResource.code(), u32::from_be_bytes(*b"MACR"));
    assert_eq!(FOLDER_TYPE_CODE, u32::from_be_bytes(*b"fldr"));
}

fn article(id: u32, parent_id: u32) -> HLNewsArticle {
    HLNewsArticle {
        id,
        timestamp: HLDateTime::from_civil(1998, 5, 10, 12, 0, 0, 0),
        parent_id,
        title: b"title".to_vec(),
        poster: b"poster".to_vec(),
        flavors: None,
    }
}

#[test]
fn resolve_parent_found() {
    let list = vec![article(1, 0), article(7, 1), article(9, 7)];
    assert_eq!(list[2].resolve_parent(&list), 7);
    assert_eq!(list[1].resolve_parent(&list), 1);
}

#[test]
fn resolve_parent_missing() {
    let list = vec![article(1, 0), article(9, 42)];
    assert_eq!(list[1].resolve_parent(&list), 0);
    assert_eq!(list[0].resolve_parent(&list), 0);
}

#[test]
fn session_and_hope_records() {
    let account = HLAccount {
        name: b"guest".to_vec(),
        login: b"guest".to_vec(),
        password: b"".to_vec(),
        access: HLUserAccess::from_bits(HLUserAccess::READ_CHAT | HLUserAccess::SEND_CHAT),
    };
    let session = HLSession {
        id: 17,
        icon: 128,
        msg_flags: HLUserMsgFlags::empty(),
        flags: HLUserFlags::from_bits(HLUserFlags::AWAY),
        version: 185,
        account: Arc::new(account),
        alias: b"guest".to_vec(),
    };
    assert_eq!(session.account.name, b"guest".to_vec());
    assert!(session.flags.contains(HLUserFlags::AWAY));

    let contents = b"file contents";
    let file = HLFile {
        mac_kind: u32::from_be_bytes(*b"TEXT"),
        mac_creator: u32::from_be_bytes(*b"ttxt"),
        comment: b"a file".to_vec(),
        fork_info: [
            HLFileForkInfo { fork: HLFileForkType::Data, size: contents.len() as u32 },
            HLFileForkInfo { fork: HLFileForkType::MacResource, size: 0 },
        ],
    };
    let record = HOPEFile {
        file,
        hash_info: HOPEFileHashInfo {
            md5: [0; 16],
            haval: haval_bytes(contents),
            sha1: [0; 20],
        },
    };
    assert_eq!(record.hash_info.haval.to_vec(), haval_bytes(contents).to_vec());
    assert_eq!(record.file.fork_info[0].size, 13);
}
