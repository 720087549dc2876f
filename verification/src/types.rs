//! Plain data model of the application-management wire structures.
//!
//! Each structure mirrors a fixed-size catalog/view record of the service's
//! wire format; reserved and unknown regions are kept as zero-filled byte
//! arrays so that a record is a plain value the merge engine can move whole.

use vstd::prelude::*;

verus! {

/// A 64-bit opaque key identifying an installed application.
#[derive(Copy, Clone, PartialEq, Eq, Structural, Debug)]
pub struct ApplicationId(pub u64);

/// A user account identifier, as two 64-bit halves.
#[derive(Copy, Clone, PartialEq, Eq, Structural, Debug)]
pub struct Uid {
    pub hi: u64,
    pub lo: u64,
}

/// Result/error code, as the service reports it on the wire.
#[derive(Copy, Clone, PartialEq, Eq, Structural, Debug)]
pub struct ResultCode(pub u32);

/// A view request asked the synthetic catalog about an identifier outside it.
pub const RESULT_NOT_EXTRA_APPLICATION: u32 = 0xBEEF1;

/// A control-data request asked the synthetic catalog about an identifier outside it.
pub const RESULT_CONTROL_DATA_NOT_EXTRA: u32 = 0xBEEF2;

/// The bundled control-data metadata blob does not have the expected size.
pub const RESULT_CONTROL_PROPERTY_SIZE_MISMATCH: u32 = 0xBEEF5;

/// The command is published by the real service but intentionally not served here.
pub const RESULT_UNIMPLEMENTED_COMMAND: u32 = 0xBEEF6;

/// Fixed-size catalog entry for one application.
#[derive(Copy, Clone, PartialEq, Eq, Debug)]
pub struct ApplicationRecord {
    pub app_id: ApplicationId,
    pub unk_type: u8,
    pub unk_2: u8,
    pub unk_3: [u8; 6],
    pub unk_4: u8,
    pub unk_reserved: [u8; 7],
}

/// Current wire version of the per-application summary structure.
#[derive(Copy, Clone, PartialEq, Eq, Debug)]
pub struct ApplicationView {
    pub app_id: ApplicationId,
    pub unk_1: u32,
    pub unk_flags: u32,
    pub unk_2: [u8; 16],
    pub unk_3: u32,
    pub unk_4: u16,
    pub unk_reserved: [u8; 2],
    pub unk_6: [u8; 8],
    pub unk_7: [u8; 16],
    pub unk_8: u32,
    pub unk_9: u8,
    pub unk_reserved_2: [u8; 11],
}

/// Older wire version of the summary structure; a lossless field-dropping
/// projection of [`ApplicationView`].
#[derive(Copy, Clone, PartialEq, Eq, Debug)]
pub struct ApplicationViewDeprecated {
    pub app_id: ApplicationId,
    pub unk_1: u32,
    pub unk_flags: u32,
    pub unk_2: [u8; 16],
    pub unk_3: u32,
    pub unk_4: u16,
    pub unk_reserved: [u8; 2],
    pub unk_7: [u8; 16],
    pub unk_8: u32,
    pub unk_9: u8,
    pub unk_reserved_3: [u8; 3],
}

/// Fixed-size promotion trailer appended to a view at the newest wire version.
#[derive(Copy, Clone, PartialEq, Eq, Debug)]
pub struct PromotionInfo {
    pub todo_data: [u8; 32],
}

/// Newest wire version of the summary structure: a view plus promotion info.
#[derive(Copy, Clone, PartialEq, Eq, Debug)]
pub struct ApplicationViewWithPromotionInfo {
    pub view: ApplicationView,
    pub info: PromotionInfo,
}

/// Per-user rights record for one application.
#[derive(Copy, Clone, PartialEq, Eq, Debug)]
pub struct ApplicationRightsOnClient {
    pub app_id: ApplicationId,
    pub uid: Uid,
    pub flags_1: u8,
    pub flags_2: u8,
    pub unk: [u8; 6],
}

/// Where a control-data request may be answered from.
#[derive(Copy, Clone, PartialEq, Eq, Structural, Debug)]
pub enum ApplicationControlSource {
    CacheOnly,
    Storage,
    StorageOnly,
}

/// Byte size of the fixed control-property (metadata) structure: sixteen
/// title entries of a 0x200-byte name and a 0x100-byte author, then
/// 0x1000 bytes of further fields.
pub const APPLICATION_CONTROL_PROPERTY_SIZE: usize = 16 * (0x200 + 0x100) + 0x1000;

/// Which published getter service the shim stands in front of.
#[derive(Copy, Clone, PartialEq, Eq, Structural, Debug)]
pub enum GetterServiceKind {
    AM2,
    EC,
    RID,
    RT,
    WEB,
    RO,
}

/// What the OS reports about a client process that opened a session.
#[derive(Copy, Clone, PartialEq, Eq, Structural, Debug)]
pub struct MitmProcessInfo {
    pub program_id: u64,
}

} // verus!
