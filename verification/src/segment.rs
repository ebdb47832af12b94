//! Segments: the styled pieces of text that a module is made of.

use vstd::prelude::*;
use vstd::string::*;

verus! {

/// A visual style, held as the words that describe it (`"bold yellow"`).
/// The empty description is the plain style. What the words mean is the
/// renderer's business.
#[derive(Debug, PartialEq, Eq)]
pub struct Style {
    pub descriptor: String,
}

impl View for Style {
    type V = Seq<char>;

    open spec fn view(&self) -> Seq<char> {
        self.descriptor@
    }
}

impl Style {
    /// The style that the given words describe.
    pub fn new(descriptor: &str) -> (style: Style)
        ensures
            style@ == descriptor@,
    {
        Style { descriptor: descriptor.to_owned() }
    }

    /// The plain style.
    pub fn plain() -> (style: Style)
        ensures
            style@ == Seq::<char>::empty(),
    {
        Style { descriptor: String::new() }
    }
}

impl Clone for Style {
    fn clone(&self) -> (copy: Style)
        ensures
            copy@ == self@,
    {
        Style { descriptor: self.descriptor.clone() }
    }
}

/// The description of a style that may be absent.
pub open spec fn style_view(style: Option<Style>) -> Option<Seq<char>> {
    match style {
        Some(style) => Some(style@),
        None => None,
    }
}

/// A copy of a style that may be absent.
pub fn clone_style(style: &Option<Style>) -> (copy: Option<Style>)
    ensures
        style_view(copy) == style_view(*style),
{
    match style {
        Some(style) => Some(style.clone()),
        None => None,
    }
}

/// What a segment is, as plain values.
pub struct SegmentView {
    pub key: Seq<char>,
    pub value: Seq<char>,
    pub style: Option<Seq<char>>,
}

/// One piece of a module's text. The value is plain text: the style is kept
/// beside it, never inside it.
#[derive(Debug, PartialEq, Eq)]
pub struct Segment {
    /// The role of the segment within its module (`"version"`, `"symbol"`).
    pub key: String,
    /// The text to show.
    pub value: String,
    /// A style of the segment's own, in place of the module's.
    pub style: Option<Style>,
}

impl View for Segment {
    type V = SegmentView;

    open spec fn view(&self) -> SegmentView {
        SegmentView { key: self.key@, value: self.value@, style: style_view(self.style) }
    }
}

impl Segment {
    /// An empty segment in the module's style.
    pub fn new(key: &str) -> (segment: Segment)
        ensures
            segment@ == (SegmentView { key: key@, value: Seq::empty(), style: None }),
    {
        Segment { key: key.to_owned(), value: String::new(), style: None }
    }

    /// Gives the segment a style of its own, or takes it away.
    pub fn set_style(&mut self, style: Option<Style>)
        ensures
            final(self)@ == (SegmentView { style: style_view(style), ..old(self)@ }),
    {
        self.style = style;
    }

    /// Sets the text of the segment.
    pub fn set_value(&mut self, value: &str)
        ensures
            final(self)@ == (SegmentView { value: value@, ..old(self)@ }),
    {
        self.value = value.to_owned();
    }
}

/// What the configuration of a segment is, as plain values.
pub struct SegmentConfigView {
    pub value: Seq<char>,
    pub style: Option<Seq<char>>,
}

/// What a configuration says of one segment: its text and, where it has one
/// of its own, its style.
#[derive(Debug, PartialEq, Eq)]
pub struct SegmentConfig {
    pub value: String,
    pub style: Option<Style>,
}

impl View for SegmentConfig {
    type V = SegmentConfigView;

    open spec fn view(&self) -> SegmentConfigView {
        SegmentConfigView { value: self.value@, style: style_view(self.style) }
    }
}

impl SegmentConfig {
    /// The configuration of a segment with the given text and no style of its
    /// own.
    pub fn new(value: &str) -> (config: SegmentConfig)
        ensures
            config@ == (SegmentConfigView { value: value@, style: None }),
    {
        SegmentConfig { value: value.to_owned(), style: None }
    }

    /// The same configuration with another text.
    pub fn with_value(&self, value: &str) -> (config: SegmentConfig)
        ensures
            config@ == (SegmentConfigView { value: value@, style: self@.style }),
    {
        SegmentConfig { value: value.to_owned(), style: clone_style(&self.style) }
    }

    /// The same configuration with a style of its own.
    pub fn with_style(&self, style: Style) -> (config: SegmentConfig)
        ensures
            config@ == (SegmentConfigView { value: self@.value, style: Some(style@) }),
    {
        SegmentConfig { value: self.value.clone(), style: Some(style) }
    }
}

impl Clone for SegmentConfig {
    fn clone(&self) -> (copy: SegmentConfig)
        ensures
            copy@ == self@,
    {
        SegmentConfig { value: self.value.clone(), style: clone_style(&self.style) }
    }
}

/// The configuration of a segment that may be absent, as plain values.
pub open spec fn segment_config_view(config: Option<SegmentConfig>) -> Option<SegmentConfigView> {
    match config {
        Some(config) => Some(config@),
        None => None,
    }
}

} // verus!
