//! The schema of the Python module.

use crate::config::{
    ConfigValue, RootModuleConfig, boolean_or, resolved_boolean, resolved_segment, resolved_text,
    segment_or, text_or,
};
use crate::segment::{SegmentConfig, SegmentConfigView, Style};
use vstd::prelude::*;
use vstd::string::*;

verus! {

/// What the configuration of the Python module is, as plain values.
pub struct PythonConfigView {
    pub symbol: SegmentConfigView,
    pub pyenv_prefix: SegmentConfigView,
    pub pyenv_version_name: bool,
    pub style: Seq<char>,
}

/// The configuration of the Python module.
#[derive(Debug, PartialEq, Eq)]
pub struct PythonConfig {
    /// The segment that stands before the version.
    pub symbol: SegmentConfig,
    /// The segment that stands before a version name that pyenv reported.
    pub pyenv_prefix: SegmentConfig,
    /// Whether to show the version name that pyenv reports in place of the
    /// interpreter's own version.
    pub pyenv_version_name: bool,
    /// The style of the module.
    pub style: Style,
}

impl View for PythonConfig {
    type V = PythonConfigView;

    open spec fn view(&self) -> PythonConfigView {
        PythonConfigView {
            symbol: self.symbol@,
            pyenv_prefix: self.pyenv_prefix@,
            pyenv_version_name: self.pyenv_version_name,
            style: self.style@,
        }
    }
}

impl RootModuleConfig for PythonConfig {
    open spec fn defaults() -> PythonConfigView {
        PythonConfigView {
            symbol: SegmentConfigView { value: "🐍 "@, style: None },
            pyenv_prefix: SegmentConfigView { value: "pyenv "@, style: None },
            pyenv_version_name: false,
            style: "bold yellow"@,
        }
    }

    open spec fn resolved(config: Option<&ConfigValue>) -> PythonConfigView {
        let defaults = Self::defaults();
        PythonConfigView {
            symbol: resolved_segment(config, "symbol"@, defaults.symbol),
            pyenv_prefix: resolved_segment(config, "pyenv_prefix"@, defaults.pyenv_prefix),
            pyenv_version_name: resolved_boolean(
                config,
                "pyenv_version_name"@,
                defaults.pyenv_version_name,
            ),
            style: resolved_text(config, "style"@, defaults.style),
        }
    }

    proof fn lemma_nothing_overridden(config: Option<&ConfigValue>) {
    }

    fn new() -> (config: PythonConfig) {
        PythonConfig {
            symbol: SegmentConfig::new("🐍 "),
            pyenv_prefix: SegmentConfig::new("pyenv "),
            pyenv_version_name: false,
            style: Style::new("bold yellow"),
        }
    }

    fn try_load(config: Option<&ConfigValue>) -> (loaded: PythonConfig) {
        let defaults = Self::new();
        PythonConfig {
            symbol: segment_or(config, "symbol", defaults.symbol),
            pyenv_prefix: segment_or(config, "pyenv_prefix", defaults.pyenv_prefix),
            pyenv_version_name: boolean_or(
                config,
                "pyenv_version_name",
                defaults.pyenv_version_name,
            ),
            style: Style { descriptor: text_or(config, "style", defaults.style.descriptor) },
        }
    }
}

} // verus!
