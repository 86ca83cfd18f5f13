//! Owned metadata of the audio entities managed by a PulseAudio server.

use vstd::prelude::*;

use crate::util::text;

verus! {

/// The label of entities that do not have a name.
pub const UNKNOWN_ENTITY_LABEL: &'static str = "[unknown]";

// TYPE DEFINITIONS ************************************************************

/// Trait to help convert borrowed metadata into its owned counterpart.
pub trait IntoOwnedInfo {
    /// The owned version of the metadata.
    type Owned;

    /// Whether the given value is an owned version of this metadata.
    spec fn owned_as(&self, owned: Self::Owned) -> bool;

    /// Converts the metadata into its owned equivalent.
    fn into_owned(&self) -> (r: Self::Owned)
        ensures
            self.owned_as(r),
    ;
}

/// Borrowed metadata of an audio sink, as reported by the server.
#[derive(Debug, Clone, Copy)]
pub struct SinkInfo<'a> {
    pub name: Option<&'a str>,
    pub index: u32,
    pub owner_module: Option<u32>,
    pub monitor_source: u32,
    pub monitor_source_name: Option<&'a str>,
}

/// Borrowed metadata of an application audio stream, as reported by the server.
#[derive(Debug, Clone, Copy)]
pub struct SinkInputInfo<'a> {
    pub index: u32,
    pub name: Option<&'a str>,
    pub sink: u32,
    pub corked: bool,
    pub proplist: &'a Vec<Property>,
}

/// Borrowed metadata of an audio source, as reported by the server.
#[derive(Debug, Clone, Copy)]
pub struct SourceInfo<'a> {
    pub name: Option<&'a str>,
    pub index: u32,
}

/// A property of an audio entity. The value is absent if it is not text.
#[derive(Debug)]
pub struct Property {
    pub key: String,
    pub value: Option<String>,
}

/// Metadata of an audio sink.
#[derive(Debug)]
pub struct OwnedSinkInfo {
    pub name: Option<String>,
    pub index: u32,
    pub owner_module: Option<u32>,
    pub monitor_source: u32,
    pub monitor_source_name: Option<String>,
}

/// Metadata of an application audio stream that is attached to a sink.
#[derive(Debug)]
pub struct OwnedSinkInputInfo {
    pub index: u32,
    pub name: Option<String>,
    pub sink: u32,
    pub corked: bool,
    pub proplist: Vec<Property>,
}

/// Metadata of an audio source.
#[derive(Debug)]
pub struct OwnedSourceInfo {
    pub name: Option<String>,
    pub index: u32,
}

// MODELS **********************************************************************

/// The contents of a [`Property`].
pub struct PropertyView {
    pub key: Seq<char>,
    pub value: Option<Seq<char>>,
}

/// The contents of an [`OwnedSinkInfo`].
pub struct SinkView {
    pub name: Option<Seq<char>>,
    pub index: u32,
    pub owner_module: Option<u32>,
    pub monitor_source: u32,
    pub monitor_source_name: Option<Seq<char>>,
}

/// The contents of an [`OwnedSinkInputInfo`].
#[verifier::ext_equal]
pub struct SinkInputView {
    pub index: u32,
    pub name: Option<Seq<char>>,
    pub sink: u32,
    pub corked: bool,
    pub proplist: Seq<PropertyView>,
}

/// The contents of an [`OwnedSourceInfo`].
pub struct SourceView {
    pub name: Option<Seq<char>>,
    pub index: u32,
}

/// The contents of a list of properties.
pub open spec fn properties(proplist: Seq<Property>) -> Seq<PropertyView> {
    proplist.map_values(|property: Property| property@)
}

/// How an audio entity with the given name and index is shown to the user.
pub open spec fn entity_label(name: Option<Seq<char>>, index: u32) -> Seq<char> {
    let shown = match name {
        Some(name) => name,
        None => UNKNOWN_ENTITY_LABEL@,
    };
    shown + " (index "@ + text::decimal(index as nat) + ")"@
}

/// The contents of optional borrowed text.
pub open spec fn opt_str(s: Option<&str>) -> Option<Seq<char>> {
    match s {
        Some(s) => Some(s@),
        None => None,
    }
}

impl View for Property {
    type V = PropertyView;

    open spec fn view(&self) -> PropertyView {
        PropertyView { key: self.key@, value: text::opt_view(self.value) }
    }
}

impl View for OwnedSinkInfo {
    type V = SinkView;

    open spec fn view(&self) -> SinkView {
        SinkView {
            name: text::opt_view(self.name),
            index: self.index,
            owner_module: self.owner_module,
            monitor_source: self.monitor_source,
            monitor_source_name: text::opt_view(self.monitor_source_name),
        }
    }
}

impl View for OwnedSinkInputInfo {
    type V = SinkInputView;

    open spec fn view(&self) -> SinkInputView {
        SinkInputView {
            index: self.index,
            name: text::opt_view(self.name),
            sink: self.sink,
            corked: self.corked,
            proplist: properties(self.proplist@),
        }
    }
}

impl View for OwnedSourceInfo {
    type V = SourceView;

    open spec fn view(&self) -> SourceView {
        SourceView { name: text::opt_view(self.name), index: self.index }
    }
}

// TRAIT IMPLS *****************************************************************

impl Clone for Property {
    fn clone(&self) -> (r: Self)
        ensures
            r@ == self@,
    {
        Property { key: self.key.clone(), value: text::clone_opt(&self.value) }
    }
}

impl Clone for OwnedSinkInfo {
    fn clone(&self) -> (r: Self)
        ensures
            r@ == self@,
    {
        OwnedSinkInfo {
            name: text::clone_opt(&self.name),
            index: self.index,
            owner_module: self.owner_module,
            monitor_source: self.monitor_source,
            monitor_source_name: text::clone_opt(&self.monitor_source_name),
        }
    }
}

impl Clone for OwnedSinkInputInfo {
    fn clone(&self) -> (r: Self)
        ensures
            r@ == self@,
    {
        OwnedSinkInputInfo {
            index: self.index,
            name: text::clone_opt(&self.name),
            sink: self.sink,
            corked: self.corked,
            proplist: clone_proplist(&self.proplist),
        }
    }
}

impl Clone for OwnedSourceInfo {
    fn clone(&self) -> (r: Self)
        ensures
            r@ == self@,
    {
        OwnedSourceInfo { name: text::clone_opt(&self.name), index: self.index }
    }
}

impl<'a> IntoOwnedInfo for SinkInfo<'a> {
    type Owned = OwnedSinkInfo;

    open spec fn owned_as(&self, owned: OwnedSinkInfo) -> bool {
        owned@ == (SinkView {
            name: opt_str(self.name),
            index: self.index,
            owner_module: self.owner_module,
            monitor_source: self.monitor_source,
            monitor_source_name: opt_str(self.monitor_source_name),
        })
    }

    fn into_owned(&self) -> (r: OwnedSinkInfo) {
        OwnedSinkInfo {
            name: map_opt_str(self.name),
            index: self.index,
            owner_module: self.owner_module,
            monitor_source: self.monitor_source,
            monitor_source_name: map_opt_str(self.monitor_source_name),
        }
    }
}

impl<'a> IntoOwnedInfo for SinkInputInfo<'a> {
    type Owned = OwnedSinkInputInfo;

    open spec fn owned_as(&self, owned: OwnedSinkInputInfo) -> bool {
        owned@ == (SinkInputView {
            index: self.index,
            name: opt_str(self.name),
            sink: self.sink,
            corked: self.corked,
            proplist: properties(self.proplist@),
        })
    }

    fn into_owned(&self) -> (r: OwnedSinkInputInfo) {
        OwnedSinkInputInfo {
            index: self.index,
            name: map_opt_str(self.name),
            sink: self.sink,
            corked: self.corked,
            proplist: clone_proplist(self.proplist),
        }
    }
}

impl<'a> IntoOwnedInfo for SourceInfo<'a> {
    type Owned = OwnedSourceInfo;

    open spec fn owned_as(&self, owned: OwnedSourceInfo) -> bool {
        owned@ == (SourceView { name: opt_str(self.name), index: self.index })
    }

    fn into_owned(&self) -> (r: OwnedSourceInfo) {
        OwnedSourceInfo { name: map_opt_str(self.name), index: self.index }
    }
}

// TYPE IMPLS ******************************************************************

impl OwnedSinkInfo {
    /// Renders this sink for use in messages to the user.
    pub fn label(&self) -> (r: String)
        ensures
            r@ == entity_label(self@.name, self.index),
    {
        name_or_index(&self.name, self.index)
    }
}

impl OwnedSinkInputInfo {
    /// Renders this sink input for use in messages to the user.
    pub fn label(&self) -> (r: String)
        ensures
            r@ == entity_label(self@.name, self.index),
    {
        name_or_index(&self.name, self.index)
    }
}

impl OwnedSourceInfo {
    /// Renders this source for use in messages to the user.
    pub fn label(&self) -> (r: String)
        ensures
            r@ == entity_label(self@.name, self.index),
    {
        name_or_index(&self.name, self.index)
    }
}

// HELPER FUNCTIONS ************************************************************

/// Maps optional borrowed text into an optional owned `String`.
pub fn map_opt_str(orig: Option<&str>) -> (r: Option<String>)
    ensures
        text::opt_view(r) == opt_str(orig),
{
    match orig {
        Some(s) => Some(s.to_owned()),
        None => None,
    }
}

/// Copies a list of properties.
fn clone_proplist(orig: &Vec<Property>) -> (r: Vec<Property>)
    ensures
        properties(r@) == properties(orig@),
{
    let mut r: Vec<Property> = Vec::new();
    let mut i: usize = 0;
    while i < orig.len()
        invariant
            i <= orig.len(),
            r.len() == i,
            forall|j: int| 0 <= j < i ==> (#[trigger] r@[j])@ == orig@[j]@,
        decreases orig.len() - i,
    {
        r.push(orig[i].clone());
        i = i + 1;
    }
    assert(properties(r@) =~= properties(orig@));
    r
}

/// Renders the name of an audio entity followed by its index.
fn name_or_index(name: &Option<String>, index: u32) -> (r: String)
    ensures
        r@ == entity_label(text::opt_view(*name), index),
{
    let mut r = match name {
        Some(name) => name.clone(),
        None => UNKNOWN_ENTITY_LABEL.to_owned(),
    };
    r.append(" (index ");
    r.append(text::decimal_string(index as u64).as_str());
    r.append(")");
    r
}

} // verus!
