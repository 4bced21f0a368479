//! Which WebViews are hosted by a composition controller.

use crate::error::DesktopCompositionError;
use vstd::hash_set::StringHashSet;
use vstd::prelude::*;

verus! {

/// The WebView ids that were opted into composition-controller hosting.
///
/// A registry that is shared behind a lock is poisoned when a thread panics while
/// it holds the lock; nothing is read from or written to a poisoned registry.
pub struct CompositionModeRegistry {
    ids: StringHashSet,
    poisoned: bool,
}

impl CompositionModeRegistry {
    /// The ids that were opted in.
    pub closed spec fn ids(&self) -> Set<Seq<char>> {
        self.ids@
    }

    /// A thread panicked while it held the registry.
    pub closed spec fn poisoned(&self) -> bool {
        self.poisoned
    }

    /// A registry without ids.
    pub fn new() -> (result: Self)
        ensures
            result.ids() == Set::<Seq<char>>::empty(),
            !result.poisoned(),
    {
        CompositionModeRegistry { ids: StringHashSet::new(), poisoned: false }
    }

    /// Records that a thread panicked while it held the registry.
    pub fn poison(&mut self)
        ensures
            final(self).ids() == old(self).ids(),
            final(self).poisoned(),
    {
        self.poisoned = true;
    }
}

/// The ids after an attempt to opt in `id`. A poisoned registry is not written to.
pub open spec fn ids_after_enabling(
    ids: Set<Seq<char>>,
    poisoned: bool,
    id: Seq<char>,
) -> Set<Seq<char>> {
    if poisoned {
        ids
    } else {
        ids.insert(id)
    }
}

/// What is answered to the question whether `id` was opted in.
pub open spec fn mode_answer(ids: Set<Seq<char>>, poisoned: bool, id: Seq<char>) -> Result<
    bool,
    DesktopCompositionError,
> {
    if poisoned {
        Err(DesktopCompositionError::RegistryUnavailable)
    } else {
        Ok(ids.contains(id))
    }
}

/// Opt a WebView id into composition-controller hosting.
///
/// This must run before the matching WebView is constructed. Every other WebView
/// continues to use the standard window controller.
pub fn enable_composition_mode_for_webview_id(
    registry: &mut CompositionModeRegistry,
    id: &str,
) -> (result: Result<(), DesktopCompositionError>)
    ensures
        final(registry).poisoned() == old(registry).poisoned(),
        final(registry).ids() == ids_after_enabling(
            old(registry).ids(),
            old(registry).poisoned(),
            id@,
        ),
        old(registry).poisoned() ==> {
            &&& result == Err::<(), _>(DesktopCompositionError::RegistryUnavailable)
            &&& final(registry).ids() == old(registry).ids()
        },
        !old(registry).poisoned() ==> {
            &&& result == Ok::<_, DesktopCompositionError>(())
            &&& final(registry).ids() == old(registry).ids().insert(id@)
        },
{
    if registry.poisoned {
        return Err(DesktopCompositionError::RegistryUnavailable);
    }
    registry.ids.insert(id.to_owned());
    Ok(())
}

/// Whether a WebView id was opted into composition-controller hosting.
pub fn composition_mode_enabled_for_webview_id(
    registry: &CompositionModeRegistry,
    id: &str,
) -> (result: Result<bool, DesktopCompositionError>)
    ensures
        result == if registry.poisoned() {
            Err(DesktopCompositionError::RegistryUnavailable)
        } else {
            Ok(registry.ids().contains(id@))
        },
        result == mode_answer(registry.ids(), registry.poisoned(), id@),
{
    if registry.poisoned {
        return Err(DesktopCompositionError::RegistryUnavailable);
    }
    Ok(registry.ids.contains(id))
}

/// Composition hosting is opt-in per id: nothing is enabled at first, enabling an
/// id enables that id and no other, and enabling it again changes nothing.
pub proof fn law_composition_mode_is_opt_in(
    ids: Set<Seq<char>>,
    id: Seq<char>,
    other: Seq<char>,
)
    ensures
        !Set::<Seq<char>>::empty().contains(id),
        ids.insert(id).contains(id),
        other != id ==> ids.insert(id).contains(other) == ids.contains(other),
        ids.insert(id).insert(id) == ids.insert(id),
{
    assert(ids.insert(id).insert(id) =~= ids.insert(id));
}

/// What is answered after an id was opted in: that id is enabled, and every other id
/// is answered as before. A poisoned registry answers nothing, and keeps its ids.
pub proof fn law_answers_follow_opting_in(
    ids: Set<Seq<char>>,
    id: Seq<char>,
    other: Seq<char>,
)
    ensures
        mode_answer(Set::empty(), false, other) == Ok::<bool, DesktopCompositionError>(false),
        mode_answer(ids_after_enabling(ids, false, id), false, id) == Ok::<
            bool,
            DesktopCompositionError,
        >(true),
        other != id ==> mode_answer(ids_after_enabling(ids, false, id), false, other)
            == mode_answer(ids, false, other),
        mode_answer(ids, false, other) == Ok::<bool, DesktopCompositionError>(ids.contains(other)),
        mode_answer(ids, true, other) == Err::<bool, _>(
            DesktopCompositionError::RegistryUnavailable,
        ),
        ids_after_enabling(ids, true, id) == ids,
{
}

} // verus!
