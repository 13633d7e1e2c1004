//! The enumerations of the native layer and the numbers it knows them by.

use vstd::prelude::*;

verus! {

/// A self-test that a device can be asked to run.
#[derive(Clone, Copy, Debug, PartialEq, Eq, Structural)]
pub enum SelfTestKind {
    /// The short self-test.
    Short,
    /// The extended self-test.
    Extended,
    /// The conveyance self-test.
    Conveyance,
    /// Not a test: aborts the test that is running.
    Abort,
}

impl SelfTestKind {
    /// The number by which the native layer knows this kind.
    pub open spec fn native(self) -> u32 {
        match self {
            SelfTestKind::Short => 1,
            SelfTestKind::Extended => 2,
            SelfTestKind::Conveyance => 3,
            SelfTestKind::Abort => 127,
        }
    }

    /// The kind that the native layer knows by a number, if there is one.
    pub open spec fn of_native(code: u32) -> Option<SelfTestKind> {
        if code == 1 {
            Some(SelfTestKind::Short)
        } else if code == 2 {
            Some(SelfTestKind::Extended)
        } else if code == 3 {
            Some(SelfTestKind::Conveyance)
        } else if code == 127 {
            Some(SelfTestKind::Abort)
        } else {
            None
        }
    }

    /// The number by which the native layer knows this kind.
    pub fn code(&self) -> (code: u32)
        ensures
            code == self.native(),
    {
        match self {
            SelfTestKind::Short => 1,
            SelfTestKind::Extended => 2,
            SelfTestKind::Conveyance => 3,
            SelfTestKind::Abort => 127,
        }
    }

    /// The kind that the native layer knows by `code`, or `None` where the
    /// number stands for no kind.
    pub fn from_code(code: u32) -> (kind: Option<SelfTestKind>)
        ensures
            kind == SelfTestKind::of_native(code),
    {
        match code {
            1 => Some(SelfTestKind::Short),
            2 => Some(SelfTestKind::Extended),
            3 => Some(SelfTestKind::Conveyance),
            127 => Some(SelfTestKind::Abort),
            _ => None,
        }
    }
}

/// The overall health of a device, as the native layer judges it from the
/// attribute data.
#[derive(Clone, Copy, Debug, PartialEq, Eq, Structural)]
pub enum OverallStatus {
    /// Nothing is wrong.
    Good,
    /// A pre-fail attribute exceeded its threshold in the past.
    BadAttributeInThePast,
    /// At least one sector is bad.
    BadSector,
    /// A pre-fail attribute exceeds its threshold now.
    BadAttributeNow,
    /// Many sectors are bad.
    BadSectorMany,
    /// The device's own assessment is negative.
    BadStatus,
    /// The bound of the native enumeration; no device is in this state.
    Max,
}

impl OverallStatus {
    /// The number by which the native layer knows this status.
    pub open spec fn native(self) -> u32 {
        match self {
            OverallStatus::Good => 0,
            OverallStatus::BadAttributeInThePast => 1,
            OverallStatus::BadSector => 2,
            OverallStatus::BadAttributeNow => 3,
            OverallStatus::BadSectorMany => 4,
            OverallStatus::BadStatus => 5,
            OverallStatus::Max => 6,
        }
    }

    /// The status that the native layer knows by a number, if there is one.
    pub open spec fn of_native(code: u32) -> Option<OverallStatus> {
        if code == 0 {
            Some(OverallStatus::Good)
        } else if code == 1 {
            Some(OverallStatus::BadAttributeInThePast)
        } else if code == 2 {
            Some(OverallStatus::BadSector)
        } else if code == 3 {
            Some(OverallStatus::BadAttributeNow)
        } else if code == 4 {
            Some(OverallStatus::BadSectorMany)
        } else if code == 5 {
            Some(OverallStatus::BadStatus)
        } else if code == 6 {
            Some(OverallStatus::Max)
        } else {
            None
        }
    }

    /// The number by which the native layer knows this status.
    pub fn code(&self) -> (code: u32)
        ensures
            code == self.native(),
    {
        match self {
            OverallStatus::Good => 0,
            OverallStatus::BadAttributeInThePast => 1,
            OverallStatus::BadSector => 2,
            OverallStatus::BadAttributeNow => 3,
            OverallStatus::BadSectorMany => 4,
            OverallStatus::BadStatus => 5,
            OverallStatus::Max => 6,
        }
    }

    /// The status that the native layer knows by `code`, or `None` where the
    /// number stands for no status.
    pub fn from_code(code: u32) -> (status: Option<OverallStatus>)
        ensures
            status == OverallStatus::of_native(code),
    {
        match code {
            0 => Some(OverallStatus::Good),
            1 => Some(OverallStatus::BadAttributeInThePast),
            2 => Some(OverallStatus::BadSector),
            3 => Some(OverallStatus::BadAttributeNow),
            4 => Some(OverallStatus::BadSectorMany),
            5 => Some(OverallStatus::BadStatus),
            6 => Some(OverallStatus::Max),
            _ => None,
        }
    }
}

/// Every self-test kind passes through its native number unchanged, and a
/// number stands for at most one kind.
pub proof fn lemma_self_test_kind_round_trip(kind: SelfTestKind, code: u32)
    ensures
        SelfTestKind::of_native(kind.native()) == Some(kind),
        SelfTestKind::of_native(code) == Some(kind) <==> code == kind.native(),
{
}

/// Every overall status passes through its native number unchanged, and a
/// number stands for at most one status.
pub proof fn lemma_overall_status_round_trip(status: OverallStatus, code: u32)
    ensures
        OverallStatus::of_native(status.native()) == Some(status),
        OverallStatus::of_native(code) == Some(status) <==> code == status.native(),
{
}

} // verus!
