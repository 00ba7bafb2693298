//! Bookkeeping of the process-wide termination hook across protected regions.
use vstd::prelude::*;

verus! {

/// The hooks that protected regions displaced, innermost last. Installing a
/// region's hook saves the one it replaces; restoring hands back the most
/// recently saved one, so that nested and sequential regions compose.
pub struct HookStack<H> {
    saved: Vec<H>,
}

impl<H> View for HookStack<H> {
    type V = Seq<H>;

    closed spec fn view(&self) -> Seq<H> {
        self.saved@
    }
}

/// The saved hooks after a region installs its own hook over `prior`.
pub open spec fn after_install<H>(saved: Seq<H>, prior: H) -> Seq<H> {
    saved.push(prior)
}

/// The saved hooks after the innermost region restores its prior hook.
pub open spec fn after_restore<H>(saved: Seq<H>) -> Seq<H> {
    if saved.len() == 0 {
        saved
    } else {
        saved.drop_last()
    }
}

/// The hook that a restore puts back in place, if any region is active.
pub open spec fn restored_hook<H>(saved: Seq<H>) -> Option<H> {
    if saved.len() == 0 {
        None
    } else {
        Some(saved.last())
    }
}

impl<H> HookStack<H> {
    /// No region active.
    pub fn new() -> (r: HookStack<H>)
        ensures
            r@ == Seq::<H>::empty(),
    {
        HookStack { saved: Vec::new() }
    }

    /// Records `prior`, the hook that a region's own hook replaces.
    pub fn install(&mut self, prior: H)
        ensures
            final(self)@ == after_install(old(self)@, prior),
    {
        self.saved.push(prior);
    }

    /// Ends the innermost region: returns the hook it replaced, which the
    /// caller puts back in place, or `None` when no region is active.
    pub fn restore(&mut self) -> (r: Option<H>)
        ensures
            final(self)@ == after_restore(old(self)@),
            r == restored_hook(old(self)@),
    {
        self.saved.pop()
    }

    /// The number of active regions.
    pub fn depth(&self) -> (r: usize)
        ensures
            r == self@.len(),
    {
        self.saved.len()
    }

    /// Whether some region is active.
    pub fn is_active(&self) -> (r: bool)
        ensures
            r == (self@.len() > 0),
    {
        self.saved.len() > 0
    }
}

/// A region that installs its hook and then restores it puts back exactly the
/// hook it replaced and leaves the saved hooks as it found them; a second
/// region that follows therefore starts from the same state as the first did
/// and is installed in the same way.
pub proof fn sequential_regions_compose<H>(saved: Seq<H>, first_prior: H, second_prior: H)
    ensures
        restored_hook(after_install(saved, first_prior)) == Some(first_prior),
        after_restore(after_install(saved, first_prior)) == saved,
        after_install(after_restore(after_install(saved, first_prior)), second_prior)
            == after_install(saved, second_prior),
        restored_hook(after_install(after_restore(after_install(saved, first_prior)), second_prior))
            == Some(second_prior),
{
    assert(saved.push(first_prior).drop_last() =~= saved);
}

/// A region nested inside another is restored first, and the outer region
/// then restores the hook that was in place before either began.
pub proof fn nested_regions_restore_in_order<H>(saved: Seq<H>, outer_prior: H, inner_prior: H)
    ensures
        restored_hook(after_install(after_install(saved, outer_prior), inner_prior))
            == Some(inner_prior),
        restored_hook(after_restore(after_install(after_install(saved, outer_prior), inner_prior)))
            == Some(outer_prior),
        after_restore(after_restore(after_install(after_install(saved, outer_prior), inner_prior)))
            == saved,
{
    assert(saved.push(outer_prior).push(inner_prior).drop_last() =~= saved.push(outer_prior));
    assert(saved.push(outer_prior).drop_last() =~= saved);
}

} // verus!
