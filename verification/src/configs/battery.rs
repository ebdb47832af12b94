//! The schema of the battery module.

use crate::config::{
    ConfigValue, RootModuleConfig, field_of, optional_segment_or, resolved_optional_segment,
    resolved_segment, segment_or, subtree_field,
};
use crate::segment::{SegmentConfig, SegmentConfigView, Style, segment_config_view};
use vstd::prelude::*;
use vstd::string::*;

verus! {

/// One entry of the display list, as plain values.
pub struct BatteryDisplayConfigView {
    pub threshold: i64,
    pub style: Seq<char>,
}

/// One entry of the display list: the style for a charge of at most
/// `threshold` percent.
#[derive(Debug, PartialEq, Eq)]
pub struct BatteryDisplayConfig {
    pub threshold: i64,
    pub style: Style,
}

impl View for BatteryDisplayConfig {
    type V = BatteryDisplayConfigView;

    open spec fn view(&self) -> BatteryDisplayConfigView {
        BatteryDisplayConfigView { threshold: self.threshold, style: self.style@ }
    }
}

/// The entries of a display list as plain values.
pub open spec fn display_views(display: Seq<BatteryDisplayConfig>) -> Seq<BatteryDisplayConfigView> {
    display.map_values(|entry: BatteryDisplayConfig| entry@)
}

/// What the configuration of the battery module is, as plain values.
pub struct BatteryConfigView {
    pub full_symbol: SegmentConfigView,
    pub charging_symbol: SegmentConfigView,
    pub discharging_symbol: SegmentConfigView,
    pub unknown_symbol: Option<SegmentConfigView>,
    pub empty_symbol: Option<SegmentConfigView>,
    pub display: Seq<BatteryDisplayConfigView>,
    pub percentage: SegmentConfigView,
}

/// The configuration of the battery module.
#[derive(Debug, PartialEq, Eq)]
pub struct BatteryConfig {
    /// The segment shown for full batteries.
    pub full_symbol: SegmentConfig,
    /// The segment shown for charging batteries.
    pub charging_symbol: SegmentConfig,
    /// The segment shown for discharging batteries.
    pub discharging_symbol: SegmentConfig,
    /// The segment shown for batteries in an unknown state, if any.
    pub unknown_symbol: Option<SegmentConfig>,
    /// The segment shown for empty batteries, if any.
    pub empty_symbol: Option<SegmentConfig>,
    /// The styles by charge: the first entry whose threshold the charge does
    /// not exceed gives the style.
    pub display: Vec<BatteryDisplayConfig>,
    /// The segment that holds the percentage.
    pub percentage: SegmentConfig,
}

impl View for BatteryConfig {
    type V = BatteryConfigView;

    open spec fn view(&self) -> BatteryConfigView {
        BatteryConfigView {
            full_symbol: self.full_symbol@,
            charging_symbol: self.charging_symbol@,
            discharging_symbol: self.discharging_symbol@,
            unknown_symbol: segment_config_view(self.unknown_symbol),
            empty_symbol: segment_config_view(self.empty_symbol),
            display: display_views(self.display@),
            percentage: self.percentage@,
        }
    }
}

/// The display entry that a node of the tree gives: a table with a whole
/// number under `threshold` and a text under `style`.
pub open spec fn display_entry(node: ConfigValue) -> Option<BatteryDisplayConfigView> {
    match (node.field("threshold"@), node.field("style"@)) {
        (Some(ConfigValue::Integer(threshold)), Some(ConfigValue::Text(style))) => Some(
            BatteryDisplayConfigView { threshold, style: style@ },
        ),
        _ => None,
    }
}

/// The display list: the entries of the list under `display` where every one
/// of them is an entry, else the default.
pub open spec fn resolved_display(
    config: Option<&ConfigValue>,
    default: Seq<BatteryDisplayConfigView>,
) -> Seq<BatteryDisplayConfigView> {
    match subtree_field(config, "display"@) {
        Some(ConfigValue::List(items)) => if forall|i: int|
            0 <= i < items@.len() ==> (#[trigger] display_entry(items@[i])) is Some {
            Seq::new(items@.len(), |i: int| display_entry(items@[i]).unwrap())
        } else {
            default
        },
        _ => default,
    }
}

/// Reads one display entry from a node of the tree.
pub fn load_display_entry(node: &ConfigValue) -> (entry: Option<BatteryDisplayConfig>)
    ensures
        match entry {
            Some(entry) => display_entry(*node) == Some(entry@),
            None => display_entry(*node) is None,
        },
{
    match (node.get("threshold"), node.get("style")) {
        (Some(ConfigValue::Integer(threshold)), Some(ConfigValue::Text(style))) => Some(
            BatteryDisplayConfig { threshold: *threshold, style: Style { descriptor: style.clone() } },
        ),
        _ => None,
    }
}

/// Resolves the display list.
pub fn display_or(config: Option<&ConfigValue>, default: Vec<BatteryDisplayConfig>) -> (display:
    Vec<BatteryDisplayConfig>)
    ensures
        display_views(display@) == resolved_display(config, display_views(default@)),
{
    match field_of(config, "display") {
        Some(ConfigValue::List(items)) => {
            let mut display: Vec<BatteryDisplayConfig> = Vec::new();
            let mut i: usize = 0;
            while i < items.len()
                invariant
                    i <= items.len(),
                    display.len() == i,
                    subtree_field(config, "display"@) == Some(ConfigValue::List(*items)),
                    forall|j: int|
                        0 <= j < i ==> (#[trigger] display_entry(items@[j])) == Some(display@[j]@),
                decreases items.len() - i,
            {
                match load_display_entry(&items[i]) {
                    Some(entry) => {
                        display.push(entry);
                    },
                    None => {
                        assert(display_entry(items@[i as int]) is None);
                        return default;
                    },
                }
                i += 1;
            }
            assert(display_views(display@) =~= Seq::new(
                items@.len(),
                |i: int| display_entry(items@[i]).unwrap(),
            ));
            display
        },
        _ => default,
    }
}

impl RootModuleConfig for BatteryConfig {
    open spec fn defaults() -> BatteryConfigView {
        BatteryConfigView {
            full_symbol: SegmentConfigView { value: "•"@, style: None },
            charging_symbol: SegmentConfigView { value: "⇡"@, style: None },
            discharging_symbol: SegmentConfigView { value: "⇣"@, style: None },
            unknown_symbol: None,
            empty_symbol: None,
            display: seq![BatteryDisplayConfigView { threshold: 10, style: "bold red"@ }],
            percentage: SegmentConfigView { value: ""@, style: None },
        }
    }

    open spec fn resolved(config: Option<&ConfigValue>) -> BatteryConfigView {
        let defaults = Self::defaults();
        BatteryConfigView {
            full_symbol: resolved_segment(config, "full_symbol"@, defaults.full_symbol),
            charging_symbol: resolved_segment(config, "charging_symbol"@, defaults.charging_symbol),
            discharging_symbol: resolved_segment(
                config,
                "discharging_symbol"@,
                defaults.discharging_symbol,
            ),
            unknown_symbol: resolved_optional_segment(
                config,
                "unknown_symbol"@,
                defaults.unknown_symbol,
            ),
            empty_symbol: resolved_optional_segment(config, "empty_symbol"@, defaults.empty_symbol),
            display: resolved_display(config, defaults.display),
            percentage: resolved_segment(config, "percentage"@, defaults.percentage),
        }
    }

    proof fn lemma_nothing_overridden(config: Option<&ConfigValue>) {
    }

    fn new() -> (config: BatteryConfig) {
        let mut display: Vec<BatteryDisplayConfig> = Vec::new();
        display.push(BatteryDisplayConfig { threshold: 10, style: Style::new("bold red") });
        let config = BatteryConfig {
            full_symbol: SegmentConfig::new("•"),
            charging_symbol: SegmentConfig::new("⇡"),
            discharging_symbol: SegmentConfig::new("⇣"),
            unknown_symbol: None,
            empty_symbol: None,
            display,
            percentage: SegmentConfig::new(""),
        };
        assert(config@.display =~= Self::defaults().display);
        config
    }

    fn try_load(config: Option<&ConfigValue>) -> (loaded: BatteryConfig) {
        let defaults = Self::new();
        BatteryConfig {
            full_symbol: segment_or(config, "full_symbol", defaults.full_symbol),
            charging_symbol: segment_or(config, "charging_symbol", defaults.charging_symbol),
            discharging_symbol: segment_or(
                config,
                "discharging_symbol",
                defaults.discharging_symbol,
            ),
            unknown_symbol: optional_segment_or(config, "unknown_symbol", defaults.unknown_symbol),
            empty_symbol: optional_segment_or(config, "empty_symbol", defaults.empty_symbol),
            display: display_or(config, defaults.display),
            percentage: segment_or(config, "percentage", defaults.percentage),
        }
    }
}

} // verus!
