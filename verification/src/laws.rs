//! What the operations of this crate promise, stated of their results.
//!
//! A law speaks of what a function can return for its arguments, or of how the steps of a run
//! hang together. It says so over the values themselves.

use vstd::prelude::*;

use crate::quadlet::Section;
use crate::text;

pub mod arguments;
pub mod compose;
pub mod messages;
pub mod names;
pub mod places;
pub mod podman;
pub mod rendering;
pub mod runs;
pub mod services;
pub mod sources;
pub mod steps;

verus! {

/// The lines are the same, one by one.
pub open spec fn same_lines(a: Seq<String>, b: Seq<String>) -> bool {
    a.len() == b.len() && forall|i: int| 0 <= i < a.len() ==> (#[trigger] a[i])@ == b[i]@
}

/// Both sections are missing, or they have the same lines.
pub open spec fn same_section(a: Option<Section>, b: Option<Section>) -> bool {
    match (a, b) {
        (None, None) => true,
        (Some(a), Some(b)) => same_lines(a.lines@, b.lines@),
        _ => false,
    }
}

/// The section where it has lines.
pub open spec fn if_any(section: Section) -> Option<Section> {
    if section.lines@.len() == 0 {
        None
    } else {
        Some(section)
    }
}

/// Sections that look the same have the same lines.
pub(crate) proof fn lemma_same_lines(a: Seq<String>, b: Seq<String>)
    ensures
        text::texts(a) == text::texts(b) <==> same_lines(a, b),
{
    if text::texts(a) == text::texts(b) {
        assert(text::texts(a).len() == a.len());
        assert forall|i: int| 0 <= i < a.len() implies (#[trigger] a[i])@ == b[i]@ by {
            assert(text::texts(a)[i] == a[i]@);
            assert(text::texts(b)[i] == b[i]@);
        }
    }
    if same_lines(a, b) {
        assert(text::texts(a) =~= text::texts(b));
    }
}

/// Optional sections that look the same have the same lines.
pub(crate) proof fn lemma_same_section(a: Option<Section>, b: Option<Section>)
    ensures
        crate::quadlet::settings(a) == crate::quadlet::settings(b) <==> same_section(a, b),
{
    if let (Some(a), Some(b)) = (a, b) {
        lemma_same_lines(a.lines@, b.lines@);
    }
}

/// Law: sections are copied with all their lines, and a section is empty exactly where it has no
/// lines.
pub proof fn sections_are_copied(
    section: &Section,
    copy: Section,
    sections: &Option<Section>,
    copies: Option<Section>,
    empty: bool,
    fresh: Section,
)
    requires
        call_ensures(Section::copied, (section,), copy),
        call_ensures(crate::quadlet::copied_section, (sections,), copies),
        call_ensures(Section::is_empty, (section,), empty),
        call_ensures(<Section as Default>::default, (), fresh),
    ensures
        same_lines(copy.lines@, section.lines@),
        same_section(copies, *sections),
        empty <==> section.lines@.len() == 0,
        fresh.lines@.len() == 0,
{
    lemma_same_lines(copy.lines@, section.lines@);
    lemma_same_section(copies, *sections);
    assert(section@.len() == section.lines@.len());
    assert(fresh@.len() == fresh.lines@.len());
}

} // verus!
