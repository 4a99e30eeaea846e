use vstd::prelude::*;

use crate::cache::PlatformSet;
use crate::models::{Platform, Region};
use crate::sort::{SortCriteria, SortDirection, SortState};
use crate::text::str_eq;

verus! {

/// The persisted user preferences, as read from and written to the per-user
/// configuration file. Reading and writing the file itself is not this
/// type's business; it only interprets and produces the record.
pub struct Config {
    pub default_platform: String,
    pub enabled_platforms: Vec<String>,
    pub region: String,
    /// Number of deals to load per page (pagination batch size).
    pub deals_page_size: usize,
    /// Debounce delay (ms) before loading game info after a selection change.
    pub game_info_delay_ms: u64,
    /// Credential for the remote API, when saved in the file.
    pub api_key: Option<String>,
    /// Default sort criteria name (Price, Cut, Hottest, Release, Expiring, Popular).
    pub default_sort_criteria: String,
    /// Default sort direction name (Ascending or Descending).
    pub default_sort_direction: String,
}

/// The region code written when the file has none.
pub fn default_region() -> (r: String)
    ensures
        r@ == "FR"@,
{
    Region::default().code().to_owned()
}

/// The page size used when the file has none.
pub fn default_page_size() -> (r: usize)
    ensures
        r == 50,
{
    50
}

/// The game-info debounce delay used when the file has none.
pub fn default_game_info_delay() -> (r: u64)
    ensures
        r == 200,
{
    200
}

/// The sort criteria name written when the file has none.
pub fn default_sort_criteria() -> (r: String)
    ensures
        r@ == "Price"@,
{
    String::from_str("Price")
}

/// The sort direction name written when the file has none.
pub fn default_sort_direction() -> (r: String)
    ensures
        r@ == "Ascending"@,
{
    String::from_str("Ascending")
}

/// The first platform whose display name matches the text, scanning the
/// platform list from position `i` on.
pub open spec fn spec_platform_from_name_at(s: Seq<char>, i: int) -> Option<Platform>
    decreases 32 - i,
{
    if i < 0 || i >= 32 {
        None
    } else if Platform::spec_all()[i].spec_name() == s {
        Some(Platform::spec_all()[i])
    } else {
        spec_platform_from_name_at(s, i + 1)
    }
}

/// The platform that a display name denotes, if any.
pub open spec fn spec_platform_from_name(s: Seq<char>) -> Option<Platform> {
    spec_platform_from_name_at(s, 0)
}

/// Looks a platform up by its display name.
pub fn platform_from_name(name: &str) -> (r: Option<Platform>)
    ensures
        r == spec_platform_from_name(name@),
{
    let all = Platform::all();
    let mut i: usize = 0;
    while i < 32
        invariant
            0 <= i <= 32,
            all@ == Platform::spec_all(),
            spec_platform_from_name(name@) == spec_platform_from_name_at(name@, i as int),
        decreases 32 - i,
    {
        let p = all[i];
        if str_eq(p.name(), name) {
            return Some(p);
        }
        i = i + 1;
    }
    None
}

impl Config {
    /// The platform that the saved default denotes, `All` when the name is
    /// unknown.
    pub open spec fn spec_default_platform(&self) -> Platform {
        match spec_platform_from_name(self.default_platform@) {
            Some(p) => p,
            None => Platform::All,
        }
    }

    /// Converts the saved default platform name to a platform.
    pub fn get_default_platform(&self) -> (r: Platform)
        ensures
            r == self.spec_default_platform(),
    {
        match platform_from_name(self.default_platform.as_str()) {
            Some(p) => p,
            None => Platform::All,
        }
    }

    /// Whether the saved enabled-platform names include the platform.
    pub open spec fn spec_enabled_contains(&self, p: Platform) -> bool {
        exists|i: int|
            0 <= i < self.enabled_platforms@.len() && spec_platform_from_name(
                #[trigger] self.enabled_platforms@[i]@,
            ) == Some(p)
    }

    /// Converts the saved enabled-platform names to a platform set; names
    /// that denote no platform are ignored.
    pub fn get_enabled_platforms(&self) -> (r: PlatformSet)
        ensures
            r.wf(),
            forall|p: Platform| r.spec_contains(p) == self.spec_enabled_contains(p),
    {
        let mut r = PlatformSet::new();
        let n = self.enabled_platforms.len();
        let mut i: usize = 0;
        while i < n
            invariant
                0 <= i <= n,
                n == self.enabled_platforms@.len(),
                r.wf(),
                forall|p: Platform|
                    r.spec_contains(p) == exists|j: int|
                        0 <= j < i && spec_platform_from_name(
                            #[trigger] self.enabled_platforms@[j]@,
                        ) == Some(p),
            decreases n - i,
        {
            match platform_from_name(self.enabled_platforms[i].as_str()) {
                Some(p) => {
                    r.insert(p);
                    proof {
                        assert forall|q: Platform| r.spec_contains(q) implies exists|j: int|
                            0 <= j < i + 1 && spec_platform_from_name(
                                #[trigger] self.enabled_platforms@[j]@,
                            ) == Some(q) by {
                            if q == p {
                                assert(spec_platform_from_name(self.enabled_platforms@[i as int]@)
                                    == Some(q));
                            }
                        }
                    }
                },
                None => {
                    proof {
                        assert forall|q: Platform| r.spec_contains(q) implies exists|j: int|
                            0 <= j < i + 1 && spec_platform_from_name(
                                #[trigger] self.enabled_platforms@[j]@,
                            ) == Some(q) by {}
                    }
                },
            }
            i = i + 1;
        }
        r
    }

    /// The region that the saved code denotes, falling back to the default.
    pub open spec fn spec_region(&self) -> Region {
        match Region::spec_from_code(self.region@) {
            Some(r) => r,
            None => Region::FR,
        }
    }

    /// Converts the saved region code to a region.
    pub fn get_region(&self) -> (r: Region)
        ensures
            r == self.spec_region(),
    {
        match Region::from_code(self.region.as_str()) {
            Some(r) => r,
            None => Region::FR,
        }
    }

    /// The sort criteria that the saved name denotes, price when unknown.
    pub open spec fn spec_sort_criteria(&self) -> SortCriteria {
        let s = self.default_sort_criteria@;
        if s == "Price"@ {
            SortCriteria::Price
        } else if s == "Cut"@ {
            SortCriteria::Cut
        } else if s == "Hottest"@ {
            SortCriteria::Hottest
        } else if s == "Release"@ {
            SortCriteria::ReleaseDate
        } else if s == "Expiring"@ {
            SortCriteria::Expiring
        } else if s == "Popular"@ {
            SortCriteria::Popular
        } else {
            SortCriteria::Price
        }
    }

    /// The sort direction that the saved name denotes, ascending unless the
    /// name is exactly `Descending`.
    pub open spec fn spec_sort_direction(&self) -> SortDirection {
        if self.default_sort_direction@ == "Descending"@ {
            SortDirection::Descending
        } else {
            SortDirection::Ascending
        }
    }

    /// Converts the saved sort names to a sort state.
    pub fn get_default_sort(&self) -> (r: SortState)
        ensures
            r.criteria == self.spec_sort_criteria(),
            r.direction == self.spec_sort_direction(),
    {
        let s = self.default_sort_criteria.as_str();
        let criteria = if str_eq(s, "Price") {
            SortCriteria::Price
        } else if str_eq(s, "Cut") {
            SortCriteria::Cut
        } else if str_eq(s, "Hottest") {
            SortCriteria::Hottest
        } else if str_eq(s, "Release") {
            SortCriteria::ReleaseDate
        } else if str_eq(s, "Expiring") {
            SortCriteria::Expiring
        } else if str_eq(s, "Popular") {
            SortCriteria::Popular
        } else {
            SortCriteria::Price
        };
        let direction = if str_eq(self.default_sort_direction.as_str(), "Descending") {
            SortDirection::Descending
        } else {
            SortDirection::Ascending
        };
        SortState { criteria, direction }
    }

    /// Records a credential in the record; persisting it is the caller's
    /// business.
    pub fn set_api_key(&mut self, key: String)
        ensures
            final(self).api_key == Some(key),
            final(self).default_platform == old(self).default_platform,
            final(self).enabled_platforms == old(self).enabled_platforms,
            final(self).region == old(self).region,
            final(self).deals_page_size == old(self).deals_page_size,
            final(self).game_info_delay_ms == old(self).game_info_delay_ms,
            final(self).default_sort_criteria == old(self).default_sort_criteria,
            final(self).default_sort_direction == old(self).default_sort_direction,
    {
        self.api_key = Some(key);
    }

    /// Overwrites the preference fields from the current options: the
    /// default platform name, the enabled-platform names in platform-list
    /// order, the region code, and the sort names.
    pub fn update_from_options(
        &mut self,
        default_platform: Platform,
        enabled_platforms: &PlatformSet,
        region: Region,
        default_sort: SortState,
    )
        ensures
            final(self).default_platform@ == default_platform.spec_name(),
            final(self).enabled_platforms@.map_values(|s: String| s@) == spec_enabled_names(
                *enabled_platforms,
                32,
            ),
            final(self).region@ == region.spec_code(),
            final(self).default_sort_criteria@ == default_sort.criteria.spec_name(),
            final(self).default_sort_direction@ == (if default_sort.direction
                is Descending {
                "Descending"@
            } else {
                "Ascending"@
            }),
            final(self).deals_page_size == old(self).deals_page_size,
            final(self).game_info_delay_ms == old(self).game_info_delay_ms,
            final(self).api_key == old(self).api_key,
    {
        self.default_platform = default_platform.name().to_owned();
        self.enabled_platforms = enabled_platform_names(enabled_platforms);
        self.region = region.code().to_owned();
        self.default_sort_criteria = default_sort.criteria.name().to_owned();
        self.default_sort_direction = if let SortDirection::Descending = default_sort.direction {
            String::from_str("Descending")
        } else {
            String::from_str("Ascending")
        };
    }
}

/// The display names of the platforms in the set among the first `i`
/// entries of the platform list, in list order.
pub open spec fn spec_enabled_names(set: PlatformSet, i: int) -> Seq<Seq<char>>
    decreases i,
{
    if i <= 0 {
        Seq::empty()
    } else {
        let prefix = spec_enabled_names(set, i - 1);
        let p = Platform::spec_all()[i - 1];
        if set.spec_contains(p) {
            prefix.push(p.spec_name())
        } else {
            prefix
        }
    }
}

/// Lists the display names of the enabled platforms, in platform-list order.
pub fn enabled_platform_names(set: &PlatformSet) -> (r: Vec<String>)
    ensures
        r@.map_values(|s: String| s@) == spec_enabled_names(*set, 32),
{
    let all = Platform::all();
    let mut r: Vec<String> = Vec::new();
    let mut i: usize = 0;
    while i < 32
        invariant
            0 <= i <= 32,
            all@ == Platform::spec_all(),
            r@.map_values(|s: String| s@) == spec_enabled_names(*set, i as int),
        decreases 32 - i,
    {
        let p = all[i];
        if set.contains(p) {
            r.push(p.name().to_owned());
        }
        proof {
            assert(r@.map_values(|s: String| s@) =~= spec_enabled_names(*set, i + 1));
        }
        i = i + 1;
    }
    r
}

impl Default for Config {
    /// All platforms enabled, the default platform name `All` (which resolves
    /// to the `All` sentinel through the unknown-name fallback), region `FR`,
    /// page size 50, delay 200 ms, no credential, sort `Price`/`Ascending`.
    fn default() -> (r: Self)
        ensures
            r.default_platform@ == "All"@,
            r.enabled_platforms@.len() == 32,
            forall|i: int|
                0 <= i < 32 ==> #[trigger] r.enabled_platforms@[i]@ == Platform::spec_all()[i].spec_name(),
            r.region@ == "FR"@,
            r.deals_page_size == 50,
            r.game_info_delay_ms == 200,
            r.api_key is None,
            r.default_sort_criteria@ == "Price"@,
            r.default_sort_direction@ == "Ascending"@,
    {
        let all = Platform::all();
        let mut names: Vec<String> = Vec::new();
        let mut i: usize = 0;
        while i < 32
            invariant
                0 <= i <= 32,
                all@ == Platform::spec_all(),
                names@.len() == i as int,
                forall|j: int|
                    0 <= j < i ==> #[trigger] names@[j]@ == Platform::spec_all()[j].spec_name(),
            decreases 32 - i,
        {
            names.push(all[i].name().to_owned());
            i = i + 1;
        }
        Config {
            default_platform: String::from_str("All"),
            enabled_platforms: names,
            region: default_region(),
            deals_page_size: default_page_size(),
            game_info_delay_ms: default_game_info_delay(),
            api_key: None,
            default_sort_criteria: default_sort_criteria(),
            default_sort_direction: default_sort_direction(),
        }
    }
}

} // verus!
