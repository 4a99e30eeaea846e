use vstd::prelude::*;

use crate::cache::PlatformSet;
use crate::config::Config;
use crate::models::{Platform, Region};
use crate::sort::SortState;

verus! {

/// The three tabs of the options popup.
#[derive(Debug, Clone, Copy, PartialEq, Eq, Structural)]
pub enum OptionsTab {
    Region,
    Platforms,
    Advanced,
}

impl OptionsTab {
    /// The tab shown at a position: region, platforms, then advanced.
    pub open spec fn spec_at(i: int) -> OptionsTab {
        if i == 0 {
            OptionsTab::Region
        } else if i == 1 {
            OptionsTab::Platforms
        } else {
            OptionsTab::Advanced
        }
    }

    /// The tab at a position in the tab bar.
    pub fn at(i: usize) -> (r: OptionsTab)
        requires
            i < 3,
        ensures
            r == OptionsTab::spec_at(i as int),
    {
        if i == 0 {
            OptionsTab::Region
        } else if i == 1 {
            OptionsTab::Platforms
        } else {
            OptionsTab::Advanced
        }
    }

    /// The display name of the tab.
    pub open spec fn spec_name(&self) -> Seq<char> {
        match self {
            OptionsTab::Region => "Region"@,
            OptionsTab::Platforms => "Platforms"@,
            OptionsTab::Advanced => "Advanced"@,
        }
    }

    pub fn name(&self) -> (r: &'static str)
        ensures
            r@ == self.spec_name(),
    {
        match self {
            OptionsTab::Region => "Region",
            OptionsTab::Platforms => "Platforms",
            OptionsTab::Advanced => "Advanced",
        }
    }
}

/// State of the options popup: cursor positions per tab and the preference
/// values being edited.
pub struct OptionsState {
    pub current_tab: usize,
    pub platform_list_index: usize,
    pub region_list_index: usize,
    pub advanced_list_index: usize,
    pub default_platform: Platform,
    pub enabled_platforms: PlatformSet,
    pub region: Region,
    pub deals_page_size: usize,
    pub game_info_delay_ms: u64,
    pub default_sort: SortState,
}

impl OptionsState {
    /// Cursors stay inside their lists: three tabs, the platform list plus
    /// one leading default-platform row, the region list, three advanced
    /// rows. The enabled set is well formed.
    pub open spec fn wf(&self) -> bool {
        &&& self.current_tab < 3
        &&& self.platform_list_index < 32
        &&& self.region_list_index < 50
        &&& self.advanced_list_index < 3
        &&& self.enabled_platforms.wf()
    }

    /// Builds the options from a loaded configuration record. A saved
    /// default platform that is not in the saved enabled set falls back to
    /// the `All` sentinel.
    pub fn from_config(config: &Config) -> (r: OptionsState)
        ensures
            r.wf(),
            r.current_tab == 0,
            r.platform_list_index == 0,
            r.region_list_index == 0,
            r.advanced_list_index == 0,
            forall|p: Platform|
                r.enabled_platforms.spec_contains(p) == config.spec_enabled_contains(p),
            r.default_platform == (if config.spec_enabled_contains(
                config.spec_default_platform(),
            ) {
                config.spec_default_platform()
            } else {
                Platform::All
            }),
            r.region == config.spec_region(),
            r.deals_page_size == config.deals_page_size,
            r.game_info_delay_ms == config.game_info_delay_ms,
            r.default_sort.criteria == config.spec_sort_criteria(),
            r.default_sort.direction == config.spec_sort_direction(),
    {
        let enabled_platforms = config.get_enabled_platforms();
        let default_platform = config.get_default_platform();
        let region = config.get_region();
        let default_sort = config.get_default_sort();

        let default_platform = if enabled_platforms.contains(default_platform) {
            default_platform
        } else {
            Platform::All
        };

        OptionsState {
            current_tab: 0,
            platform_list_index: 0,
            region_list_index: 0,
            advanced_list_index: 0,
            default_platform,
            enabled_platforms,
            region,
            deals_page_size: config.deals_page_size,
            game_info_delay_ms: config.game_info_delay_ms,
            default_sort,
        }
    }

    /// Writes the current options into a configuration record, which the
    /// caller then persists.
    pub fn save_to_config(&self, config: &mut Config)
        ensures
            final(config).default_platform@ == self.default_platform.spec_name(),
            final(config).enabled_platforms@.map_values(|s: String| s@)
                == crate::config::spec_enabled_names(self.enabled_platforms, 32),
            final(config).region@ == self.region.spec_code(),
            final(config).default_sort_criteria@ == self.default_sort.criteria.spec_name(),
            final(config).default_sort_direction@ == (if self.default_sort.direction
                is Descending {
                "Descending"@
            } else {
                "Ascending"@
            }),
            final(config).deals_page_size == self.deals_page_size,
            final(config).game_info_delay_ms == self.game_info_delay_ms,
            final(config).api_key == old(config).api_key,
    {
        config.update_from_options(
            self.default_platform,
            &self.enabled_platforms,
            self.region,
            self.default_sort,
        );
        config.deals_page_size = self.deals_page_size;
        config.game_info_delay_ms = self.game_info_delay_ms;
    }
}

impl Default for OptionsState {
    /// Every platform enabled, the `All` sentinel as default, region and
    /// sort at their defaults, page size 50 and delay 200 ms.
    fn default() -> (r: Self)
        ensures
            r.wf(),
            r.current_tab == 0,
            r.platform_list_index == 0,
            r.region_list_index == 0,
            r.advanced_list_index == 0,
            forall|p: Platform| Platform::spec_all().contains(p) ==> r.enabled_platforms.spec_contains(p),
            r.default_platform == Platform::All,
            r.region == Region::FR,
            r.deals_page_size == 50,
            r.game_info_delay_ms == 200,
            r.default_sort.criteria is Price,
            r.default_sort.direction is Ascending,
    {
        let all = Platform::all();
        let mut enabled = PlatformSet::new();
        let mut i: usize = 0;
        while i < 32
            invariant
                0 <= i <= 32,
                all@ == Platform::spec_all(),
                enabled.wf(),
                forall|j: int|
                    0 <= j < i ==> enabled.spec_contains(#[trigger] Platform::spec_all()[j]),
            decreases 32 - i,
        {
            enabled.insert(all[i]);
            i = i + 1;
        }
        proof {
            assert forall|p: Platform| Platform::spec_all().contains(p) implies
                enabled.spec_contains(p) by {
                let j = choose|j: int| 0 <= j < 32 && Platform::spec_all()[j] == p;
                assert(enabled.spec_contains(Platform::spec_all()[j]));
            }
        }
        OptionsState {
            current_tab: 0,
            platform_list_index: 0,
            region_list_index: 0,
            advanced_list_index: 0,
            default_platform: Platform::All,
            enabled_platforms: enabled,
            region: Region::FR,
            deals_page_size: 50,
            game_info_delay_ms: 200,
            default_sort: SortState::default(),
        }
    }
}

} // verus!
