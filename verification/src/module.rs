//! Modules: what one facet of the context contributes to the prompt.

use crate::segment::{Segment, SegmentConfig, SegmentView, Style, clone_style};
use vstd::prelude::*;
use vstd::string::*;

verus! {

/// What a module is, as plain values.
pub struct ModuleView {
    pub name: Seq<char>,
    pub style: Seq<char>,
    pub prefix: Seq<char>,
    pub segments: Seq<SegmentView>,
    pub suffix: Seq<char>,
}

/// One unit of the prompt: a name, a style and the segments to show, in the
/// order in which they are shown, between a prefix and a suffix.
#[derive(Debug, PartialEq, Eq)]
pub struct Module {
    /// The name by which the module is configured and told apart.
    pub name: String,
    /// The style of the segments that have none of their own.
    pub style: Style,
    /// The text shown before the segments.
    pub prefix: String,
    /// The segments, first shown first.
    pub segments: Vec<Segment>,
    /// The text shown after the segments.
    pub suffix: String,
}

/// The segments of a module as plain values.
pub open spec fn segment_views(segments: Seq<Segment>) -> Seq<SegmentView> {
    segments.map_values(|segment: Segment| segment@)
}

/// The text that stands before a module unless the module says otherwise.
pub open spec fn default_prefix() -> Seq<char> {
    seq!['v', 'i', 'a', ' ']
}

/// The text that stands behind a module unless the module says otherwise.
pub open spec fn default_suffix() -> Seq<char> {
    seq![' ']
}

/// The module of the given name before anything is put into it.
pub open spec fn empty_module(name: Seq<char>) -> ModuleView {
    ModuleView {
        name,
        style: Seq::empty(),
        prefix: default_prefix(),
        segments: Seq::empty(),
        suffix: default_suffix(),
    }
}

/// A module with one more segment at its end.
pub open spec fn with_segment(
    module: ModuleView,
    key: Seq<char>,
    value: Seq<char>,
    style: Option<Seq<char>>,
) -> ModuleView {
    ModuleView { segments: module.segments.push(SegmentView { key, value, style }), ..module }
}

impl View for Module {
    type V = ModuleView;

    open spec fn view(&self) -> ModuleView {
        ModuleView {
            name: self.name@,
            style: self.style@,
            prefix: self.prefix@,
            segments: segment_views(self.segments@),
            suffix: self.suffix@,
        }
    }
}

impl Module {
    /// A module of the given name in the plain style, without segments.
    pub fn new(name: &str) -> (module: Module)
        ensures
            module@ == empty_module(name@),
    {
        let module = Module {
            name: name.to_owned(),
            style: Style::plain(),
            prefix: "via ".to_owned(),
            segments: Vec::new(),
            suffix: " ".to_owned(),
        };
        proof {
            reveal_strlit("via ");
            reveal_strlit(" ");
            assert(module.prefix@ =~= default_prefix());
            assert(module.suffix@ =~= default_suffix());
            assert(segment_views(module.segments@) =~= Seq::empty());
        }
        module
    }

    /// Adds a segment with the text and the style that `config` gives it.
    pub fn create_segment(&mut self, key: &str, config: &SegmentConfig)
        ensures
            final(self)@ == with_segment(old(self)@, key@, config@.value, config@.style),
    {
        let segment = Segment {
            key: key.to_owned(),
            value: config.value.clone(),
            style: clone_style(&config.style),
        };
        proof {
            assert(segment_views(self.segments@.push(segment)) =~= segment_views(
                self.segments@,
            ).push(segment@));
        }
        self.segments.push(segment);
    }

    /// Whether the module has nothing to show: no segment, or none with text.
    pub fn is_empty(&self) -> (empty: bool)
        ensures
            empty == (forall|i: int|
                0 <= i < self@.segments.len() ==> (#[trigger] self@.segments[i]).value.len() == 0),
    {
        let mut i: usize = 0;
        while i < self.segments.len()
            invariant
                i <= self.segments.len(),
                forall|j: int|
                    0 <= j < i ==> (#[trigger] self@.segments[j]).value.len() == 0,
            decreases self.segments.len() - i,
        {
            assert(self@.segments[i as int] == self.segments[i as int]@);
            if !self.segments[i].value.as_str().is_empty() {
                return false;
            }
            i += 1;
        }
        true
    }

    /// The style in which the segment at `index` is shown: its own where it
    /// has one, else the module's.
    pub open spec fn shown_style(&self, index: int) -> Seq<char> {
        match self@.segments[index].style {
            Some(style) => style,
            None => self@.style,
        }
    }

    /// The style in which the segment at `index` is shown.
    pub fn style_of(&self, index: usize) -> (style: &Style)
        requires
            index < self@.segments.len(),
        ensures
            style@ == self.shown_style(index as int),
    {
        assert(self@.segments[index as int] == self.segments[index as int]@);
        match &self.segments[index].style {
            Some(style) => style,
            None => &self.style,
        }
    }

    /// Sets the style of the segments that have none of their own.
    pub fn set_style(&mut self, style: Style)
        ensures
            final(self)@ == (ModuleView { style: style@, ..old(self)@ }),
    {
        self.style = style;
    }

    /// Sets the text shown before the segments.
    pub fn set_prefix(&mut self, value: &str)
        ensures
            final(self)@ == (ModuleView { prefix: value@, ..old(self)@ }),
    {
        self.prefix = value.to_owned();
    }

    /// Sets the text shown after the segments.
    pub fn set_suffix(&mut self, value: &str)
        ensures
            final(self)@ == (ModuleView { suffix: value@, ..old(self)@ }),
    {
        self.suffix = value.to_owned();
    }
}

/// What a module function returned, as plain values.
pub open spec fn module_view(module: Option<Module>) -> Option<ModuleView> {
    match module {
        Some(module) => Some(module@),
        None => None,
    }
}

} // verus!
