//! How a decorated window answers a configure event: which texture its decorations take and
//! whether its corners are squared or rounded, from the states the compositor reports.
use crate::cursor::WindowState;
use vstd::prelude::*;

verus! {

/// What the window remembers between configure events.
#[derive(Copy, Clone, Debug, PartialEq, Eq, Structural)]
pub struct WindowFlags {
    /// The window was reported active.
    pub activated: bool,
    /// The window was reported maximized, fullscreen or tiled.
    pub positioned: bool,
}

/// The texture the decorations take.
#[derive(Copy, Clone, Debug, PartialEq, Eq, Structural)]
pub enum DecorationTexture {
    /// Unchanged.
    Keep,
    /// The regular decoration texture.
    Decoration,
    /// The alternate texture shown while the window is not active.
    Alternate,
}

/// What becomes of the corner radii.
#[derive(Copy, Clone, Debug, PartialEq, Eq, Structural)]
pub enum Corners {
    /// Unchanged.
    Keep,
    /// Set to 0; the remembered radii are kept for later.
    Square,
    /// Set back to the remembered radii.
    Round,
}

/// A state that pins the window: maximized, fullscreen or tiled.
pub open spec fn is_positioning(state: WindowState) -> bool {
    match state {
        WindowState::TiledLeft | WindowState::TiledRight | WindowState::TiledBottom
        | WindowState::TiledTop | WindowState::Maximized | WindowState::Fullscreen => true,
        _ => false,
    }
}

/// The flags, texture and corners after a configure event reporting `states`.
///
/// The window is active when `Activated` is reported and positioned when a pinning state is.
/// An activation of a window that was not active restores the decoration texture, and an
/// inactive window shows the alternate texture, both only when an alternate texture is set.
/// A pinned window gets square corners; the radii come back when the window is inactive and
/// was inactive before, or when it stops being pinned.
pub open spec fn configure_outcome(states: Seq<WindowState>, old: WindowFlags, has_alternate: bool) -> (
    WindowFlags,
    DecorationTexture,
    Corners,
) {
    let activated = states.contains(WindowState::Activated);
    let positioned = exists|i: int| 0 <= i < states.len() && is_positioning(#[trigger] states[i]);
    let texture = if has_alternate && activated && !old.activated {
        DecorationTexture::Decoration
    } else if has_alternate && !activated {
        DecorationTexture::Alternate
    } else {
        DecorationTexture::Keep
    };
    let restore = (!old.activated && !activated) || (!positioned && old.positioned);
    let corners = if restore {
        Corners::Round
    } else if positioned {
        Corners::Square
    } else {
        Corners::Keep
    };
    (WindowFlags { activated, positioned }, texture, corners)
}

/// Runs through the reported states (last first) as the window does on a configure event.
pub fn configure(states: &[WindowState], old: WindowFlags, has_alternate: bool) -> (r: (
    WindowFlags,
    DecorationTexture,
    Corners,
))
    ensures
        r == configure_outcome(states@, old, has_alternate),
        r.0.activated <==> states@.contains(WindowState::Activated),
        r.0.positioned <==> exists|i: int| 0 <= i < states@.len() && is_positioning(#[trigger] states@[i]),
        old.positioned && !r.0.positioned ==> r.2 == Corners::Round,
        !old.activated && !r.0.activated ==> r.2 == Corners::Round,
{
    let mut activated = false;
    let mut positioned = false;
    let mut texture = DecorationTexture::Keep;
    let mut corners = Corners::Keep;
    let mut i = states.len();
    while i > 0
        invariant
            i <= states@.len(),
            activated <==> exists|j: int|
                i <= j < states@.len() && #[trigger] states@[j] == WindowState::Activated,
            positioned <==> exists|j: int| i <= j < states@.len() && is_positioning(#[trigger] states@[j]),
            texture == if has_alternate && activated && !old.activated {
                DecorationTexture::Decoration
            } else {
                DecorationTexture::Keep
            },
            corners == if positioned {
                Corners::Square
            } else {
                Corners::Keep
            },
        decreases i,
    {
        i = i - 1;
        match states[i] {
            WindowState::Activated => {
                activated = true;
                if has_alternate && !old.activated {
                    texture = DecorationTexture::Decoration;
                }
            },
            WindowState::TiledLeft | WindowState::TiledRight | WindowState::TiledBottom
            | WindowState::TiledTop | WindowState::Maximized | WindowState::Fullscreen => {
                positioned = true;
                corners = Corners::Square;
            },
            _ => {},
        }
    }
    proof {
        if activated {
            let j = choose|j: int| 0 <= j < states@.len() && #[trigger] states@[j] == WindowState::Activated;
            assert(states@.contains(WindowState::Activated));
        }
        if states@.contains(WindowState::Activated) {
            let j = choose|j: int| 0 <= j < states@.len() && states@[j] == WindowState::Activated;
            assert(states@[j] == WindowState::Activated);
        }
    }
    if !activated && has_alternate {
        texture = DecorationTexture::Alternate;
    }
    if !old.activated && !activated {
        corners = Corners::Round;
    }
    if !positioned && old.positioned {
        corners = Corners::Round;
    }
    (WindowFlags { activated, positioned }, texture, corners)
}

/// Reporting the same states twice in a row settles the window: the second report keeps the
/// texture, and keeps the corners unless the window is inactive (whose radii are restored
/// again).
pub proof fn lemma_configure_settles(states: Seq<WindowState>, old: WindowFlags, has_alternate: bool)
    ensures
        ({
            let (flags, _, _) = configure_outcome(states, old, has_alternate);
            let (again, texture, corners) = configure_outcome(states, flags, has_alternate);
            &&& again == flags
            &&& texture == if has_alternate && !flags.activated {
                DecorationTexture::Alternate
            } else {
                DecorationTexture::Keep
            }
            &&& corners == if !flags.activated {
                Corners::Round
            } else if flags.positioned {
                Corners::Square
            } else {
                Corners::Keep
            }
        }),
{
}

/// What a configure event does to the corners and the texture, for every report: a window
/// that stops being pinned gets its radii back whatever its activation, and so does one that
/// stays inactive; a pinned window that is or was active gets square corners; otherwise the
/// corners are left alone. An alternate texture replaces the decorations of an inactive window,
/// the regular one comes back when a window becomes active, and nothing changes without an
/// alternate texture.
pub proof fn lemma_configure_corners(states: Seq<WindowState>, old: WindowFlags, has_alternate: bool)
    ensures
        ({
            let (flags, texture, corners) = configure_outcome(states, old, has_alternate);
            &&& flags.activated <==> states.contains(WindowState::Activated)
            &&& flags.positioned <==> exists|i: int|
                0 <= i < states.len() && is_positioning(#[trigger] states[i])
            &&& old.positioned && !flags.positioned ==> corners == Corners::Round
            &&& !old.activated && !flags.activated ==> corners == Corners::Round
            &&& flags.positioned && (old.activated || flags.activated) ==> corners == Corners::Square
            &&& !flags.positioned && !old.positioned && (old.activated || flags.activated)
                ==> corners == Corners::Keep
            &&& !has_alternate ==> texture == DecorationTexture::Keep
            &&& has_alternate && !flags.activated ==> texture == DecorationTexture::Alternate
            &&& has_alternate && flags.activated && !old.activated ==> texture
                == DecorationTexture::Decoration
            &&& flags.activated && old.activated ==> texture == DecorationTexture::Keep
        }),
{
}

} // verus!
