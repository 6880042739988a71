//! Capturable sources and the caller's source selection.
//!
//! `SelectSources` hands the service a set of requested source types, a
//! cursor policy and a multiple-choice flag, all as they arrive on the
//! wire (bit masks).  The service validates them, matches them against
//! the sources the compositor can actually capture, and stores the
//! resulting ordered selection on the session.

use vstd::prelude::*;

verus! {

/// Bit for requesting monitor capture in the `types` mask.
pub const SOURCE_TYPE_MONITOR: u32 = 1;
/// Bit for requesting window capture in the `types` mask.
pub const SOURCE_TYPE_WINDOW: u32 = 2;
/// Bit for requesting virtual-surface capture in the `types` mask.
pub const SOURCE_TYPE_VIRTUAL: u32 = 4;

/// Cursor never appears in captured frames.
pub const CURSOR_MODE_HIDDEN: u32 = 1;
/// Cursor is painted into each frame.
pub const CURSOR_MODE_EMBEDDED: u32 = 2;
/// Cursor position is delivered as metadata beside the frames.
pub const CURSOR_MODE_METADATA: u32 = 4;

/// What kind of screen content a capturable source is.
#[derive(Clone, Copy, Debug, PartialEq, Eq, Structural)]
pub enum SourceKind {
    Monitor,
    Window,
    Virtual,
}

/// One capturable source as enumerated from the compositor:
/// its identity, its kind, and its pixel size.
#[derive(Clone, Copy, Debug, PartialEq, Eq, Structural)]
pub struct SourceDescriptor {
    pub id: u64,
    pub kind: SourceKind,
    pub width: u32,
    pub height: u32,
}

/// The options of one `SelectSources` call, as they arrive on the wire.
#[derive(Clone, Copy, Debug)]
pub struct SelectSourcesOptions {
    /// Requested source kinds, a mask of the `SOURCE_TYPE_*` bits.
    pub types: u32,
    /// Whether more than one matching source may be selected.
    pub multiple: bool,
    /// Requested cursor policy, one of the `CURSOR_MODE_*` values.
    pub cursor_mode: u32,
    /// Opaque token of a previously granted selection, if any.
    pub restore_token: Option<u64>,
    /// Whether the caller asked the grant to be persisted.
    pub persist: bool,
}

/// The stored selection: the chosen targets, in selection order,
/// and the validated cursor policy.
#[derive(Debug)]
pub struct SourceSelection {
    pub targets: Vec<SourceDescriptor>,
    pub cursor_mode: u32,
}

/// Mathematical model of a stored selection.
pub struct SelectionView {
    pub targets: Seq<SourceDescriptor>,
    pub cursor_mode: u32,
}

impl View for SourceSelection {
    type V = SelectionView;

    open spec fn view(&self) -> SelectionView {
        SelectionView { targets: self.targets@, cursor_mode: self.cursor_mode }
    }
}

impl SelectionView {
    /// A stored selection always holds at least one target and a
    /// validated cursor mode.
    pub open spec fn wf(self) -> bool {
        &&& self.targets.len() >= 1
        &&& cursor_mode_valid(self.cursor_mode)
    }
}

/// A cursor mode is valid when it is exactly one of the three policies.
pub open spec fn cursor_mode_valid(m: u32) -> bool {
    m == CURSOR_MODE_HIDDEN || m == CURSOR_MODE_EMBEDDED || m == CURSOR_MODE_METADATA
}

/// A types mask is valid when it is non-empty and holds no unknown bit.
pub open spec fn types_valid(t: u32) -> bool {
    t != 0 && t == t & (SOURCE_TYPE_MONITOR | SOURCE_TYPE_WINDOW | SOURCE_TYPE_VIRTUAL)
}

/// Whether a source of kind `k` is requested by the `types` mask.
pub open spec fn kind_matches(types: u32, k: SourceKind) -> bool {
    match k {
        SourceKind::Monitor => types & SOURCE_TYPE_MONITOR != 0,
        SourceKind::Window => types & SOURCE_TYPE_WINDOW != 0,
        SourceKind::Virtual => types & SOURCE_TYPE_VIRTUAL != 0,
    }
}

/// The sources of `avail` whose kind is requested by `types`,
/// in their original order.
pub open spec fn matching_sources(avail: Seq<SourceDescriptor>, types: u32) -> Seq<SourceDescriptor>
    decreases avail.len(),
{
    if avail.len() == 0 {
        Seq::empty()
    } else {
        let init = matching_sources(avail.drop_last(), types);
        if kind_matches(types, avail.last().kind) {
            init.push(avail.last())
        } else {
            init
        }
    }
}

pub fn cursor_mode_is_valid(m: u32) -> (b: bool)
    ensures
        b == cursor_mode_valid(m),
{
    m == CURSOR_MODE_HIDDEN || m == CURSOR_MODE_EMBEDDED || m == CURSOR_MODE_METADATA
}

pub fn types_are_valid(t: u32) -> (b: bool)
    ensures
        b == types_valid(t),
{
    t != 0 && t == t & (SOURCE_TYPE_MONITOR | SOURCE_TYPE_WINDOW | SOURCE_TYPE_VIRTUAL)
}

pub fn kind_is_requested(types: u32, k: SourceKind) -> (b: bool)
    ensures
        b == kind_matches(types, k),
{
    match k {
        SourceKind::Monitor => types & SOURCE_TYPE_MONITOR != 0,
        SourceKind::Window => types & SOURCE_TYPE_WINDOW != 0,
        SourceKind::Virtual => types & SOURCE_TYPE_VIRTUAL != 0,
    }
}

/// Collects, in order, every available source whose kind the caller requested.
pub fn collect_matching(available: &Vec<SourceDescriptor>, types: u32) -> (v: Vec<SourceDescriptor>)
    ensures
        v@ == matching_sources(available@, types),
{
    let mut v: Vec<SourceDescriptor> = Vec::new();
    let mut i: usize = 0;
    while i < available.len()
        invariant
            i <= available.len(),
            v@ == matching_sources(available@.subrange(0, i as int), types),
        decreases available.len() - i,
    {
        proof {
            let pre = available@.subrange(0, i + 1);
            assert(pre.drop_last() =~= available@.subrange(0, i as int));
            assert(pre.last() == available@[i as int]);
        }
        let src = available[i];
        if kind_is_requested(types, src.kind) {
            v.push(src);
        }
        i = i + 1;
    }
    proof {
        assert(available@.subrange(0, available@.len() as int) =~= available@);
    }
    v
}

} // verus!
