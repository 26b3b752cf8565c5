//! The merged output of UI passes: what one pass produced, and the pending
//! buffer that accumulates several passes until a backend consumes it.
//!
//! Meshes and texture updates are carried as opaque handles; commands name
//! the viewport they address. Merging appends, never replaces, so no pass's
//! output is lost when several passes run for one native redraw.

use vstd::prelude::*;

verus! {

/// Identifier of a logical viewport. The root viewport is
/// [`ViewportId::root`]; child viewports get other values.
#[derive(Clone, Copy, Debug, PartialEq, Eq, Structural)]
pub struct ViewportId(pub u64);

impl ViewportId {
    /// The primary window's viewport.
    pub fn root() -> (r: ViewportId)
        ensures
            r.is_root(),
    {
        ViewportId(0)
    }

    /// Whether this is the primary window's viewport.
    pub open spec fn is_root(self) -> bool {
        self.0 == 0
    }
}

/// One command a UI pass addressed to a viewport.
#[derive(Clone, Copy, Debug, PartialEq, Eq, Structural)]
pub enum CommandKind {
    /// Veto the close request the viewport received this pass.
    CancelClose,
    /// Ask the windowing layer to close the viewport.
    Close,
    /// Any other command, carried through opaquely.
    Other(u64),
}

/// A command together with the viewport it addresses.
#[derive(Clone, Copy, Debug, PartialEq, Eq, Structural)]
pub struct ViewportCommand {
    /// The addressed viewport.
    pub viewport: ViewportId,
    /// What is asked of it.
    pub kind: CommandKind,
}

/// The mathematical content of a pass output.
pub ghost struct OutputView {
    /// Handles of meshes to paint, in order.
    pub meshes: Seq<u64>,
    /// Handles of texture updates to upload before painting.
    pub textures: Seq<u64>,
    /// Commands, in the order the passes issued them.
    pub commands: Seq<ViewportCommand>,
}

/// Output of one UI pass, or several merged ones.
#[derive(Debug)]
pub struct FullOutput {
    /// Opaque handles of meshes to paint, in order.
    pub meshes: Vec<u64>,
    /// Opaque handles of texture updates to upload before painting.
    pub textures_delta: Vec<u64>,
    /// Commands per viewport, in the order the passes issued them.
    pub commands: Vec<ViewportCommand>,
}

impl View for FullOutput {
    type V = OutputView;

    open spec fn view(&self) -> OutputView {
        OutputView {
            meshes: self.meshes@,
            textures: self.textures_delta@,
            commands: self.commands@,
        }
    }
}

/// The empty output: nothing to paint, upload or execute.
pub open spec fn empty_output() -> OutputView {
    OutputView {
        meshes: Seq::<u64>::empty(),
        textures: Seq::<u64>::empty(),
        commands: Seq::<ViewportCommand>::empty(),
    }
}

/// Merging appends the newer output after the older one, part by part.
pub open spec fn merge_output(a: OutputView, b: OutputView) -> OutputView {
    OutputView {
        meshes: a.meshes + b.meshes,
        textures: a.textures + b.textures,
        commands: a.commands + b.commands,
    }
}

/// Whether the commands contain a close veto addressed to `vp`.
pub open spec fn spec_has_cancel_close(commands: Seq<ViewportCommand>, vp: ViewportId) -> bool {
    exists|i: int|
        0 <= i < commands.len() && commands[i] == (ViewportCommand {
            viewport: vp,
            kind: CommandKind::CancelClose,
        })
}

impl FullOutput {
    /// An empty output.
    pub fn new() -> (r: FullOutput)
        ensures
            r@ == empty_output(),
    {
        let r = FullOutput { meshes: Vec::new(), textures_delta: Vec::new(), commands: Vec::new() };
        proof {
            assert(r@.meshes =~= empty_output().meshes);
            assert(r@.textures =~= empty_output().textures);
            assert(r@.commands =~= empty_output().commands);
        }
        r
    }

    /// Merge a newer output into this one: every part of the newer output is
    /// appended after what is already here; nothing is replaced or dropped.
    pub fn append(&mut self, newer: FullOutput)
        ensures
            final(self)@ == merge_output(old(self)@, newer@),
    {
        let mut newer = newer;
        self.meshes.append(&mut newer.meshes);
        self.textures_delta.append(&mut newer.textures_delta);
        self.commands.append(&mut newer.commands);
    }

    /// Move the accumulated output out, leaving this one empty.
    pub fn take(&mut self) -> (r: FullOutput)
        ensures
            r@ == old(self)@,
            final(self)@ == empty_output(),
    {
        let mut out = FullOutput::new();
        core::mem::swap(self, &mut out);
        out
    }

    /// Whether the commands contain a close veto addressed to `vp`.
    pub fn has_cancel_close(&self, vp: ViewportId) -> (r: bool)
        ensures
            r == spec_has_cancel_close(self@.commands, vp),
    {
        let n = self.commands.len();
        let mut i: usize = 0;
        while i < n
            invariant
                i <= n == self.commands@.len(),
                forall|j: int| 0 <= j < i ==> self.commands@[j] != (ViewportCommand {
                    viewport: vp,
                    kind: CommandKind::CancelClose,
                }),
            decreases n - i,
        {
            let c = self.commands[i];
            if c.viewport == vp && matches!(c.kind, CommandKind::CancelClose) {
                return true;
            }
            i += 1;
        }
        false
    }
}

/// Merging accumulates: the merged buffer carries the meshes, texture
/// updates and commands of both outputs, the older ones first, so two passes
/// merged without an intervening consumption together yield all their
/// meshes.
pub proof fn lemma_merge_accumulates(a: OutputView, b: OutputView)
    ensures
        merge_output(a, b).meshes.len() == a.meshes.len() + b.meshes.len(),
        merge_output(a, b).textures.len() == a.textures.len() + b.textures.len(),
        merge_output(a, b).commands.len() == a.commands.len() + b.commands.len(),
        forall|i: int| 0 <= i < a.meshes.len() ==> merge_output(a, b).meshes[i] == a.meshes[i],
        forall|i: int| 0 <= i < b.meshes.len() ==> merge_output(a, b).meshes[a.meshes.len() + i]
            == b.meshes[i],
        merge_output(empty_output(), a) == a,
        merge_output(a, empty_output()) == a,
{
    assert(merge_output(empty_output(), a).meshes =~= a.meshes);
    assert(merge_output(empty_output(), a).textures =~= a.textures);
    assert(merge_output(empty_output(), a).commands =~= a.commands);
    assert(merge_output(a, empty_output()).meshes =~= a.meshes);
    assert(merge_output(a, empty_output()).textures =~= a.textures);
    assert(merge_output(a, empty_output()).commands =~= a.commands);
}

} // verus!
