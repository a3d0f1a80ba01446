//! Licensing tiers and what each of them allows.

use vstd::prelude::*;
use vstd::string::StringExecFns;

verus! {

/// `HeartOn` licensing tier
#[derive(Debug, Clone, Copy, PartialEq, Eq, Structural)]
pub enum Tier {
    /// Community Edition - MIT licensed, 10M voxel limit
    Community,
    /// Indie Edition - $99/year, 1B voxel limit, single developer
    Indie,
    /// Studio Edition - $299/year, unlimited voxels, team license
    Studio,
}

/// The lowercase equivalent of a text, as Unicode defines it.
pub uninterp spec fn lowercase_of(text: Seq<char>) -> Seq<char>;

/// The standard library's `str::to_lowercase`: the lowercase equivalent of
/// the text, as a new string. Nothing is claimed of the result but that it
/// depends on the text alone.
#[verifier::external_body]
fn to_lowercase(text: &str) -> (lower: String)
    ensures
        lower@ == lowercase_of(text@),
{
    text.to_lowercase()
}

impl Tier {
    /// The name of the tier.
    pub open spec fn name_spec(self) -> Seq<char> {
        match self {
            Tier::Community => "Community"@,
            Tier::Indie => "Indie"@,
            Tier::Studio => "Studio"@,
        }
    }

    /// Get the name of this tier
    pub fn name(self) -> (name: &'static str)
        ensures
            name@ == self.name_spec(),
    {
        match self {
            Tier::Community => "Community",
            Tier::Indie => "Indie",
            Tier::Studio => "Studio",
        }
    }

    /// The tier that a setting in lowercase selects: `indie` and `studio`
    /// select their tiers, and everything else the community tier.
    pub open spec fn of_lowercase(setting: Seq<char>) -> Tier {
        if setting == "indie"@ {
            Tier::Indie
        } else if setting == "studio"@ {
            Tier::Studio
        } else {
            Tier::Community
        }
    }

    /// The tier that a setting in lowercase selects: `indie` and `studio`
    /// select their tiers, and everything else the community tier.
    pub fn from_lowercase(setting: &str) -> (tier: Tier)
        ensures
            tier == Self::of_lowercase(setting@),
    {
        let setting = String::from_str(setting);
        if setting == String::from_str("indie") {
            Tier::Indie
        } else if setting == String::from_str("studio") {
            Tier::Studio
        } else {
            Tier::Community
        }
    }

    /// The tier that the tier setting of the environment selects, whatever
    /// its case. Without a setting it is the community tier.
    pub fn from_setting(setting: Option<&str>) -> (tier: Tier)
        ensures
            tier == match setting {
                Some(text) => Self::of_lowercase(lowercase_of(text@)),
                None => Tier::Community,
            },
    {
        match setting {
            Some(text) => {
                let lower = to_lowercase(text);
                Self::from_lowercase(lower.as_str())
            },
            None => Tier::Community,
        }
    }
}

/// The largest number of voxels a tier admits.
pub open spec fn max_voxels_spec(tier: Tier) -> usize {
    match tier {
        Tier::Community => 10_000_000,
        Tier::Indie => 1_000_000_000,
        Tier::Studio => usize::MAX,
    }
}

/// Get maximum voxel count for a tier
pub fn max_voxels(tier: Tier) -> (limit: usize)
    ensures
        limit == max_voxels_spec(tier),
{
    match tier {
        Tier::Community => 10_000_000,  // 10M voxels
        Tier::Indie => 1_000_000_000,  // 1B voxels
        Tier::Studio => usize::MAX,  // Unlimited
    }
}

/// Check if professional features are available
///
/// Returns true for Indie and Studio tiers.
pub fn requires_professional(tier: Tier) -> (professional: bool)
    ensures
        professional == (tier == Tier::Indie || tier == Tier::Studio),
{
    match tier {
        Tier::Indie | Tier::Studio => true,
        Tier::Community => false,
    }
}

/// Configuration for revenue reporting (Indie Tier only)
#[derive(Debug, Clone)]
pub struct RevenueReportingConfig {
    /// Whether revenue reporting is enabled (Opt-in)
    pub enabled: bool,
    /// API key or identifier for reporting (optional)
    pub reporting_id: Option<String>,
}

impl Default for RevenueReportingConfig {
    /// Reporting is off, and there is no identifier.
    fn default() -> (config: Self)
        ensures
            !config.enabled,
            config.reporting_id is None,
    {
        RevenueReportingConfig { enabled: false, reporting_id: None }
    }
}

/// Whether a tier reports revenue: the Indie tier does, and no other.
///
/// For any other tier the answer is the message that says so.
pub fn report_revenue_internal(tier: Tier) -> (r: Result<(), String>)
    ensures
        r.is_ok() == (tier == Tier::Indie),
        r matches Err(message) ==> message@
            == "Revenue reporting is only applicable to Indie tier."@,
{
    if tier != Tier::Indie {
        return Err(String::from_str("Revenue reporting is only applicable to Indie tier."));
    }
    Ok(())
}

} // verus!
