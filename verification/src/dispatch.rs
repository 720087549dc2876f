//! Command dispatch tables of the service front.
//!
//! The shim publishes a byte-identical command surface to the real
//! service's: the same command numbers on the getter interface, the
//! read-only control-data interface and the application-manager interface.
//! Each incoming command number is classified as one of the handful of
//! intercepted (merged) commands, a verbatim passthrough, or unknown; the
//! caller performs the resulting action.

use vstd::prelude::*;
use crate::types::GetterServiceKind;
use crate::types::MitmProcessInfo;

verus! {

/// Dispatch decision for a command of the getter interface.
#[derive(Copy, Clone, PartialEq, Eq, Structural, Debug)]
pub enum GetterDispatch {
    GetReadOnlyApplicationControlDataInterface,
    GetApplicationManagerInterface,
}

/// Dispatch decision for a command of the read-only control-data interface.
#[derive(Copy, Clone, PartialEq, Eq, Structural, Debug)]
pub enum ControlDataDispatch {
    /// Intercepted: merged control data for the addressed identifier.
    GetApplicationControlData,
    /// Forwarded to the real backend verbatim.
    Passthrough,
    /// Published by the real service but intentionally not served here;
    /// answered with the documented unimplemented-command error.
    Unimplemented,
}

/// Dispatch decision for a command of the application-manager interface.
#[derive(Copy, Clone, PartialEq, Eq, Structural, Debug)]
pub enum ManagerDispatch {
    /// Intercepted: Shape B record-listing merge.
    ListApplicationRecord,
    /// Intercepted: combined record count.
    GenerateApplicationRecordCount,
    /// Intercepted: Shape A merge over deprecated-layout views.
    GetApplicationViewDeprecated,
    /// Intercepted: merged control data for the addressed identifier.
    GetApplicationControlData,
    /// Intercepted: Shape A merge over current-layout views.
    GetApplicationView,
    /// Intercepted: Shape A merge over promotion-extended views.
    GetApplicationViewWithPromotionInfo,
    /// Intercepted: locally fabricated rights record for a synthetic identifier.
    GetApplicationRightsOnClient,
    /// Forwarded to the real backend verbatim.
    Passthrough,
}

/// The command numbers of the getter interface.
pub open spec fn spec_classify_service_getter_command(cmd_id: u32) -> Option<GetterDispatch> {
    if cmd_id == 7989 {
        Some(GetterDispatch::GetReadOnlyApplicationControlDataInterface)
    } else if cmd_id == 7996 {
        Some(GetterDispatch::GetApplicationManagerInterface)
    } else {
        None
    }
}

/// Classifies a command number of the getter interface; `None` is a command
/// the service does not publish.
pub fn classify_service_getter_command(cmd_id: u32) -> (dispatch: Option<GetterDispatch>)
    ensures
        dispatch == spec_classify_service_getter_command(cmd_id),
{
    if cmd_id == 7989 {
        Some(GetterDispatch::GetReadOnlyApplicationControlDataInterface)
    } else if cmd_id == 7996 {
        Some(GetterDispatch::GetApplicationManagerInterface)
    } else {
        None
    }
}

/// The command numbers of the read-only control-data interface.
pub open spec fn spec_classify_control_data_command(cmd_id: u32) -> Option<ControlDataDispatch> {
    if cmd_id == 0 {
        Some(ControlDataDispatch::GetApplicationControlData)
    } else if 1 <= cmd_id && cmd_id <= 3 {
        Some(ControlDataDispatch::Passthrough)
    } else if cmd_id == 4 {
        Some(ControlDataDispatch::Unimplemented)
    } else {
        None
    }
}

/// Classifies a command number of the read-only control-data interface.
pub fn classify_control_data_command(cmd_id: u32) -> (dispatch: Option<ControlDataDispatch>)
    ensures
        dispatch == spec_classify_control_data_command(cmd_id),
{
    if cmd_id == 0 {
        Some(ControlDataDispatch::GetApplicationControlData)
    } else if 1 <= cmd_id && cmd_id <= 3 {
        Some(ControlDataDispatch::Passthrough)
    } else if cmd_id == 4 {
        Some(ControlDataDispatch::Unimplemented)
    } else {
        None
    }
}

/// Whether the application-manager interface publishes this command number
/// at all (intercepted or passthrough).
pub open spec fn spec_is_published_manager_command(cmd_id: u32) -> bool {
    cmd_id <= 9 || cmd_id == 11 || cmd_id == 16 || cmd_id == 17
    || cmd_id == 19 || (21 <= cmd_id && cmd_id <= 23) || cmd_id == 26 || cmd_id == 27
    || (30 <= cmd_id && cmd_id <= 33) || (35 <= cmd_id && cmd_id <= 49)
    || (52 <= cmd_id && cmd_id <= 71) || (80 <= cmd_id && cmd_id <= 87)
    || (90 <= cmd_id && cmd_id <= 106) || cmd_id == 200 || cmd_id == 201 || cmd_id == 210
    || cmd_id == 211 || cmd_id == 220 || cmd_id == 221 || (300 <= cmd_id && cmd_id <= 307)
    || (400 <= cmd_id && cmd_id <= 408) || (502 <= cmd_id && cmd_id <= 510)
    || (600 <= cmd_id && cmd_id <= 607) || cmd_id == 609 || (700 <= cmd_id && cmd_id <= 705)
    || (800 <= cmd_id && cmd_id <= 802) || (900 <= cmd_id && cmd_id <= 916)
    || (1000 <= cmd_id && cmd_id <= 1004) || cmd_id == 1200
    || (1300 <= cmd_id && cmd_id <= 1304) || (1308 <= cmd_id && cmd_id <= 1314)
    || cmd_id == 1400 || (1500 <= cmd_id && cmd_id <= 1502)
    || (1504 <= cmd_id && cmd_id <= 1506) || cmd_id == 1600 || cmd_id == 1601
    || (1700 <= cmd_id && cmd_id <= 1705) || (1800 <= cmd_id && cmd_id <= 1803)
    || (1900 <= cmd_id && cmd_id <= 1903) || (2000 <= cmd_id && cmd_id <= 2018)
    || cmd_id == 2050 || cmd_id == 2051 || cmd_id == 2100 || cmd_id == 2101
    || (2150 <= cmd_id && cmd_id <= 2156) || cmd_id == 2160 || cmd_id == 2161 || cmd_id == 2170
    || cmd_id == 2171 || (2180 <= cmd_id && cmd_id <= 2182) || cmd_id == 2190
    || (2199 <= cmd_id && cmd_id <= 2201) || cmd_id == 2250 || cmd_id == 2300
    || (2350 <= cmd_id && cmd_id <= 2356) || (2400 <= cmd_id && cmd_id <= 2404)
    || cmd_id == 2500 || cmd_id == 2510 || cmd_id == 2511 || (2513 <= cmd_id && cmd_id <= 2521)
    || cmd_id == 2800 || (3000 <= cmd_id && cmd_id <= 3014) || cmd_id == 9999
}

/// The intercepted command numbers of the application-manager interface.
pub open spec fn spec_classify_application_manager_command(cmd_id: u32) -> Option<ManagerDispatch> {
    if cmd_id == 0 {
        Some(ManagerDispatch::ListApplicationRecord)
    } else if cmd_id == 1 {
        Some(ManagerDispatch::GenerateApplicationRecordCount)
    } else if cmd_id == 3 {
        Some(ManagerDispatch::GetApplicationViewDeprecated)
    } else if cmd_id == 400 {
        Some(ManagerDispatch::GetApplicationControlData)
    } else if cmd_id == 1701 {
        Some(ManagerDispatch::GetApplicationView)
    } else if cmd_id == 1704 {
        Some(ManagerDispatch::GetApplicationViewWithPromotionInfo)
    } else if cmd_id == 2050 {
        Some(ManagerDispatch::GetApplicationRightsOnClient)
    } else if spec_is_published_manager_command(cmd_id) {
        Some(ManagerDispatch::Passthrough)
    } else {
        None
    }
}

/// Classifies a command number of the application-manager interface;
/// `None` is a command the service does not publish.
pub fn classify_application_manager_command(cmd_id: u32) -> (dispatch: Option<ManagerDispatch>)
    ensures
        dispatch == spec_classify_application_manager_command(cmd_id),
{
    if cmd_id == 0 {
        Some(ManagerDispatch::ListApplicationRecord)
    } else if cmd_id == 1 {
        Some(ManagerDispatch::GenerateApplicationRecordCount)
    } else if cmd_id == 3 {
        Some(ManagerDispatch::GetApplicationViewDeprecated)
    } else if cmd_id == 400 {
        Some(ManagerDispatch::GetApplicationControlData)
    } else if cmd_id == 1701 {
        Some(ManagerDispatch::GetApplicationView)
    } else if cmd_id == 1704 {
        Some(ManagerDispatch::GetApplicationViewWithPromotionInfo)
    } else if cmd_id == 2050 {
        Some(ManagerDispatch::GetApplicationRightsOnClient)
    } else {
        let published: bool =
            cmd_id <= 9 || cmd_id == 11 || cmd_id == 16 || cmd_id == 17
            || cmd_id == 19 || (21 <= cmd_id && cmd_id <= 23) || cmd_id == 26 || cmd_id == 27
            || (30 <= cmd_id && cmd_id <= 33) || (35 <= cmd_id && cmd_id <= 49)
            || (52 <= cmd_id && cmd_id <= 71) || (80 <= cmd_id && cmd_id <= 87)
            || (90 <= cmd_id && cmd_id <= 106) || cmd_id == 200 || cmd_id == 201 || cmd_id == 210
            || cmd_id == 211 || cmd_id == 220 || cmd_id == 221 || (300 <= cmd_id && cmd_id <= 307)
            || (400 <= cmd_id && cmd_id <= 408) || (502 <= cmd_id && cmd_id <= 510)
            || (600 <= cmd_id && cmd_id <= 607) || cmd_id == 609 || (700 <= cmd_id && cmd_id <= 705)
            || (800 <= cmd_id && cmd_id <= 802) || (900 <= cmd_id && cmd_id <= 916)
            || (1000 <= cmd_id && cmd_id <= 1004) || cmd_id == 1200
            || (1300 <= cmd_id && cmd_id <= 1304) || (1308 <= cmd_id && cmd_id <= 1314)
            || cmd_id == 1400 || (1500 <= cmd_id && cmd_id <= 1502)
            || (1504 <= cmd_id && cmd_id <= 1506) || cmd_id == 1600 || cmd_id == 1601
            || (1700 <= cmd_id && cmd_id <= 1705) || (1800 <= cmd_id && cmd_id <= 1803)
            || (1900 <= cmd_id && cmd_id <= 1903) || (2000 <= cmd_id && cmd_id <= 2018)
            || cmd_id == 2050 || cmd_id == 2051 || cmd_id == 2100 || cmd_id == 2101
            || (2150 <= cmd_id && cmd_id <= 2156) || cmd_id == 2160 || cmd_id == 2161 || cmd_id == 2170
            || cmd_id == 2171 || (2180 <= cmd_id && cmd_id <= 2182) || cmd_id == 2190
            || (2199 <= cmd_id && cmd_id <= 2201) || cmd_id == 2250 || cmd_id == 2300
            || (2350 <= cmd_id && cmd_id <= 2356) || (2400 <= cmd_id && cmd_id <= 2404)
            || cmd_id == 2500 || cmd_id == 2510 || cmd_id == 2511 || (2513 <= cmd_id && cmd_id <= 2521)
            || cmd_id == 2800 || (3000 <= cmd_id && cmd_id <= 3014) || cmd_id == 9999;
        if published {
            Some(ManagerDispatch::Passthrough)
        } else {
            None
        }
    }
}

/// The well-known service name each getter kind is published under,
/// NUL-terminated as the OS service-locator registration expects it.
pub fn get_getter_service_name(kind: GetterServiceKind) -> (name: &'static str)
    ensures
        kind == GetterServiceKind::AM2 ==> name@ == "ns:am2\0"@,
        kind == GetterServiceKind::EC ==> name@ == "ns:ec\0"@,
        kind == GetterServiceKind::RID ==> name@ == "ns:rid\0"@,
        kind == GetterServiceKind::RT ==> name@ == "ns:rt\0"@,
        kind == GetterServiceKind::WEB ==> name@ == "ns:web\0"@,
        kind == GetterServiceKind::RO ==> name@ == "ns:ro\0"@,
{
    match kind {
        GetterServiceKind::AM2 => "ns:am2\0",
        GetterServiceKind::EC => "ns:ec\0",
        GetterServiceKind::RID => "ns:rid\0",
        GetterServiceKind::RT => "ns:rt\0",
        GetterServiceKind::WEB => "ns:web\0",
        GetterServiceKind::RO => "ns:ro\0",
    }
}

/// The interception predicate: the shim intercepts sessions from every
/// client process, whatever the OS reports about it.
pub fn should_mitm(info: MitmProcessInfo) -> (intercept: bool)
    ensures
        intercept,
{
    let _info: MitmProcessInfo = info;
    true
}

} // verus!
