//! The license record as reported by the license authority, and the
//! classification rule that decides when an expiration warning is due.

use vstd::prelude::*;

verus! {

/// The tier of the current license. `Community` is the free tier; the
/// other tiers are paid and are the only ones evaluated for expiration.
#[derive(Clone, Copy, Debug, PartialEq, Eq, Structural)]
pub enum LicenseType {
    Community,
    Team,
    Enterprise,
}

/// The license state read fresh from the license authority on every
/// check cycle: the tier, and the number of days until the license
/// expires (`None` when the license does not expire at all).
#[derive(Clone, Copy, Debug, PartialEq, Eq, Structural)]
pub struct LicenseRecord {
    pub license_type: LicenseType,
    pub expire_in_days: Option<i64>,
}

impl LicenseRecord {
    pub fn new(license_type: LicenseType, expire_in_days: Option<i64>) -> (r: LicenseRecord)
        ensures
            r == (LicenseRecord { license_type, expire_in_days }),
    {
        LicenseRecord { license_type, expire_in_days }
    }

    /// How many days remain until this license expires, if it expires.
    pub fn expire_in_days(&self) -> (r: Option<i64>)
        ensures
            r == self.expire_in_days,
    {
        self.expire_in_days
    }
}

/// The classification rule of the whole check: a warning is due exactly
/// for a paid (non-Community) license that expires in more than zero and
/// fewer than seven days.
pub open spec fn needs_warning(license: LicenseRecord) -> bool {
    &&& license.license_type != LicenseType::Community
    &&& match license.expire_in_days {
        Some(d) => 0 < d < 7,
        None => false,
    }
}

/// The day count a due warning speaks of; meaningful only when
/// `needs_warning(license)` holds.
pub open spec fn warning_days(license: LicenseRecord) -> int {
    match license.expire_in_days {
        Some(d) => d as int,
        None => 0,
    }
}

/// A Community (free tier) license never triggers a warning, whatever
/// expiration value it carries.
pub proof fn lemma_community_never_warned(license: LicenseRecord)
    requires
        license.license_type == LicenseType::Community,
    ensures
        !needs_warning(license),
{
}

/// A license with no expiration never triggers a warning, whatever its
/// tier.
pub proof fn lemma_no_expiration_never_warned(license: LicenseRecord)
    requires
        license.expire_in_days is None,
    ensures
        !needs_warning(license),
{
}

/// For a paid license that expires in `d` days, a warning is due if and
/// only if `0 < d < 7`: an already-expired or same-day-expiring license
/// is not warned about here, nor is one a week or more away.
pub proof fn lemma_warning_window(license: LicenseRecord, d: i64)
    requires
        license.license_type != LicenseType::Community,
        license.expire_in_days == Some(d),
    ensures
        needs_warning(license) <==> 0 < d < 7,
{
}

} // verus!
