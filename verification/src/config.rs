//! The settings tree and how typed configurations are resolved from it.
//!
//! A schema names its fields and gives each a default. Resolving reads, field
//! by field, the key of that name from the tree: a value of the shape that the
//! field takes is used, anything else leaves the default. Keys that no field
//! asks for are never looked at.

use crate::segment::{SegmentConfig, SegmentConfigView, Style, segment_config_view, style_view};
use vstd::prelude::*;
use vstd::string::*;

verus! {

/// A node of the settings tree.
#[derive(Debug, PartialEq, Eq)]
pub enum ConfigValue {
    Text(String),
    Integer(i64),
    Boolean(bool),
    List(Vec<ConfigValue>),
    /// Keys with their values, in the order of the source.
    Table(Vec<(String, ConfigValue)>),
    /// A value of a kind that no schema reads.
    Other,
}

/// The value that the first entry with the given key holds.
pub open spec fn lookup<V>(entries: Seq<(String, V)>, key: Seq<char>) -> Option<V>
    decreases entries.len(),
{
    if entries.len() == 0 {
        None
    } else if entries.first().0@ == key {
        Some(entries.first().1)
    } else {
        lookup(entries.drop_first(), key)
    }
}

/// Finds the value that the first entry with the given key holds.
pub fn find_entry<'a, V>(entries: &'a Vec<(String, V)>, key: &str) -> (value: Option<&'a V>)
    ensures
        value == match lookup(entries@, key@) {
            Some(found) => Some(&found),
            None => None,
        },
{
    let wanted = key.to_owned();
    let mut i: usize = 0;
    assert(entries@.skip(0) == entries@);
    while i < entries.len()
        invariant
            i <= entries.len(),
            wanted@ == key@,
            lookup(entries@, key@) == lookup(entries@.skip(i as int), key@),
        decreases entries.len() - i,
    {
        assert(entries@.skip(i as int).first() == entries@[i as int]);
        assert(entries@.skip(i as int).drop_first() == entries@.skip(i + 1));
        if entries[i].0 == wanted {
            return Some(&entries[i].1);
        }
        i += 1;
    }
    None
}

impl ConfigValue {
    /// The value under `key`, where this node is a table that has the key.
    pub open spec fn field(self, key: Seq<char>) -> Option<ConfigValue> {
        match self {
            ConfigValue::Table(entries) => lookup(entries@, key),
            _ => None,
        }
    }

    /// The value under `key`, where this node is a table that has the key.
    pub fn get(&self, key: &str) -> (value: Option<&ConfigValue>)
        ensures
            value == match self.field(key@) {
                Some(found) => Some(&found),
                None => None,
            },
    {
        match self {
            ConfigValue::Table(entries) => find_entry(entries, key),
            _ => None,
        }
    }
}

/// The value under `key` in a subtree that may be absent.
pub open spec fn subtree_field(config: Option<&ConfigValue>, key: Seq<char>) -> Option<
    ConfigValue,
> {
    match config {
        Some(tree) => tree.field(key),
        None => None,
    }
}

/// The value under `key` in a subtree that may be absent.
pub fn field_of<'a>(config: Option<&'a ConfigValue>, key: &str) -> (value: Option<&'a ConfigValue>)
    ensures
        value == match subtree_field(config, key@) {
            Some(found) => Some(&found),
            None => None,
        },
{
    match config {
        Some(tree) => tree.get(key),
        None => None,
    }
}

/// The subtree overrides nothing: it is absent, or holds no key at all.
pub open spec fn overrides_nothing(config: Option<&ConfigValue>) -> bool {
    forall|key: Seq<char>| (#[trigger] subtree_field(config, key)) is None
}

/// An absent subtree, a table without entries and a node that is no table
/// override nothing.
pub proof fn lemma_empty_overrides_nothing(config: Option<&ConfigValue>)
    requires
        match config {
            Some(ConfigValue::Table(entries)) => entries@.len() == 0,
            _ => true,
        },
    ensures
        overrides_nothing(config),
{
}

/// A text field: the text under `key`, else the default.
pub open spec fn resolved_text(config: Option<&ConfigValue>, key: Seq<char>, default: Seq<char>) -> Seq<
    char,
> {
    match subtree_field(config, key) {
        Some(ConfigValue::Text(text)) => text@,
        _ => default,
    }
}

/// A truth-value field: the truth value under `key`, else the default.
pub open spec fn resolved_boolean(config: Option<&ConfigValue>, key: Seq<char>, default: bool) -> bool {
    match subtree_field(config, key) {
        Some(ConfigValue::Boolean(value)) => value,
        _ => default,
    }
}

/// A style field that may be absent: the style that the text under `key`
/// describes, else the default.
pub open spec fn resolved_style(
    config: Option<&ConfigValue>,
    key: Seq<char>,
    default: Option<Seq<char>>,
) -> Option<Seq<char>> {
    match subtree_field(config, key) {
        Some(ConfigValue::Text(text)) => Some(text@),
        _ => default,
    }
}

/// A segment that is given as a node of the tree. A text gives the segment's
/// text; a table gives its `value` and its `style`, each as far as it holds
/// them in the right shape; any other node changes nothing.
pub open spec fn segment_from(node: ConfigValue, default: SegmentConfigView) -> SegmentConfigView {
    match node {
        ConfigValue::Text(text) => SegmentConfigView { value: text@, style: default.style },
        ConfigValue::Table(_) => SegmentConfigView {
            value: resolved_text(Some(&node), "value"@, default.value),
            style: resolved_style(Some(&node), "style"@, default.style),
        },
        _ => default,
    }
}

/// A segment field: the segment that the node under `key` gives, else the
/// default.
pub open spec fn resolved_segment(
    config: Option<&ConfigValue>,
    key: Seq<char>,
    default: SegmentConfigView,
) -> SegmentConfigView {
    match subtree_field(config, key) {
        Some(node) => segment_from(node, default),
        None => default,
    }
}

/// Whether a node has a shape from which a segment can be read.
pub open spec fn gives_segment(node: ConfigValue) -> bool {
    node is Text || node is Table
}

/// A segment field that is absent by default: a text or a table under `key`
/// brings the segment into being, read over an empty segment where the
/// default has none; anything else leaves the default.
pub open spec fn resolved_optional_segment(
    config: Option<&ConfigValue>,
    key: Seq<char>,
    default: Option<SegmentConfigView>,
) -> Option<SegmentConfigView> {
    match subtree_field(config, key) {
        Some(node) => if gives_segment(node) {
            Some(
                segment_from(
                    node,
                    match default {
                        Some(segment) => segment,
                        None => SegmentConfigView { value: Seq::empty(), style: None },
                    },
                ),
            )
        } else {
            default
        },
        None => default,
    }
}

/// Resolves a text field.
pub fn text_or(config: Option<&ConfigValue>, key: &str, default: String) -> (text: String)
    ensures
        text@ == resolved_text(config, key@, default@),
{
    match field_of(config, key) {
        Some(ConfigValue::Text(text)) => text.clone(),
        _ => default,
    }
}

/// Resolves a truth-value field.
pub fn boolean_or(config: Option<&ConfigValue>, key: &str, default: bool) -> (value: bool)
    ensures
        value == resolved_boolean(config, key@, default),
{
    match field_of(config, key) {
        Some(ConfigValue::Boolean(value)) => *value,
        _ => default,
    }
}

/// Resolves a style field that may be absent.
pub fn style_or(config: Option<&ConfigValue>, key: &str, default: Option<Style>) -> (style: Option<
    Style,
>)
    ensures
        style_view(style) == resolved_style(config, key@, style_view(default)),
{
    match field_of(config, key) {
        Some(ConfigValue::Text(text)) => Some(Style { descriptor: text.clone() }),
        _ => default,
    }
}

/// Reads a segment from a node of the tree.
pub fn load_segment(node: &ConfigValue, default: SegmentConfig) -> (segment: SegmentConfig)
    ensures
        segment@ == segment_from(*node, default@),
{
    match node {
        ConfigValue::Text(text) => SegmentConfig { value: text.clone(), style: default.style },
        ConfigValue::Table(_) => {
            let value = text_or(Some(node), "value", default.value);
            let style = style_or(Some(node), "style", default.style);
            SegmentConfig { value, style }
        },
        _ => default,
    }
}

/// Resolves a segment field.
pub fn segment_or(config: Option<&ConfigValue>, key: &str, default: SegmentConfig) -> (segment:
    SegmentConfig)
    ensures
        segment@ == resolved_segment(config, key@, default@),
{
    match field_of(config, key) {
        Some(node) => load_segment(node, default),
        None => default,
    }
}

/// Resolves a segment field that is absent by default.
pub fn optional_segment_or(
    config: Option<&ConfigValue>,
    key: &str,
    default: Option<SegmentConfig>,
) -> (segment: Option<SegmentConfig>)
    ensures
        segment_config_view(segment) == resolved_optional_segment(
            config,
            key@,
            segment_config_view(default),
        ),
{
    match field_of(config, key) {
        Some(node) => {
            let readable = match node {
                ConfigValue::Text(_) => true,
                ConfigValue::Table(_) => true,
                _ => false,
            };
            if readable {
                let base = match default {
                    Some(segment) => segment,
                    None => SegmentConfig { value: String::new(), style: None },
                };
                Some(load_segment(node, base))
            } else {
                default
            }
        },
        None => default,
    }
}

/// A schema: a typed configuration with a default for every field.
pub trait RootModuleConfig: Sized + View {
    /// The declared defaults.
    spec fn defaults() -> Self::V;

    /// What resolving the schema against a subtree gives.
    spec fn resolved(config: Option<&ConfigValue>) -> Self::V;

    /// A subtree that overrides nothing resolves to the declared defaults.
    proof fn lemma_nothing_overridden(config: Option<&ConfigValue>)
        requires
            overrides_nothing(config),
        ensures
            Self::resolved(config) == Self::defaults(),
    ;

    /// The configuration that holds the declared defaults.
    fn new() -> (config: Self)
        ensures
            config@ == Self::defaults(),
    ;

    /// Resolves the schema against a subtree that may be absent. This never
    /// fails: what the subtree does not give in the right shape stays at its
    /// default.
    fn try_load(config: Option<&ConfigValue>) -> (loaded: Self)
        ensures
            loaded@ == Self::resolved(config),
    ;
}

/// Every schema resolves to its declared defaults against a subtree that is
/// absent, that is an empty table, or that is no table at all.
pub proof fn lemma_empty_subtree_gives_defaults<T: RootModuleConfig>(config: Option<&ConfigValue>)
    requires
        match config {
            Some(ConfigValue::Table(entries)) => entries@.len() == 0,
            _ => true,
        },
    ensures
        T::resolved(config) == T::defaults(),
{
    lemma_empty_overrides_nothing(config);
    T::lemma_nothing_overridden(config);
}

} // verus!
