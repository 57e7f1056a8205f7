//! The button widget. A button carries a translucent mask node over its
//! face; each frame the mask's tint follows the pointer's interaction with
//! the button, so the only decision here is which tint each interaction
//! state gets.

use vstd::prelude::*;

verus! {

/// The pointer's interaction with a button, as the engine reports it.
#[derive(Clone, Copy, Debug, PartialEq, Eq, Structural)]
pub enum Interaction {
    Clicked,
    Hovered,
    Idle,
}

/// The tint of the button's mask node. `Normal` is fully transparent,
/// `Hovered` a light veil, `Clicked` a dark one; which colors those are is
/// the renderer's business.
#[derive(Clone, Copy, Debug, PartialEq, Eq, Structural)]
pub enum MaskTint {
    Normal,
    Hovered,
    Clicked,
}

/// Marker for a button widget.
pub struct Button;

pub open spec fn spec_mask_tint(interaction: Interaction) -> MaskTint {
    match interaction {
        Interaction::Clicked => MaskTint::Clicked,
        Interaction::Hovered => MaskTint::Hovered,
        Interaction::Idle => MaskTint::Normal,
    }
}

impl Button {
    /// The mask tint that a change of interaction state brings: pressed
    /// buttons darken, hovered ones lighten, idle ones show no mask.
    pub fn mask_tint(interaction: Interaction) -> (t: MaskTint)
        ensures
            t == spec_mask_tint(interaction),
    {
        match interaction {
            Interaction::Clicked => MaskTint::Clicked,
            Interaction::Hovered => MaskTint::Hovered,
            Interaction::Idle => MaskTint::Normal,
        }
    }
}

} // verus!
