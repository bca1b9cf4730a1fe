//! Player skin providers: the interface a skin implementation offers the
//! renderer and the animation state it is driven with. Concrete skins
//! (sprite sheets, palettes) live with the presentation layer; the core
//! only steps their animation state each tick.

use vstd::prelude::*;

use crate::common::{Color, Direction, Rect};

verus! {

/// Represents a player animation state.
#[derive(Clone, Copy, PartialEq, Eq, Structural)]
pub enum PlayerAnimationState {
    Idle,
    Walking,
    WalkingUp,
    LookingUp,
    Examining,
    Sitting,
    Collapsed,
    Jumping,
    Falling,
    FallingLookingUp,
    FallingLookingDown,
    FallingUpsideDown,
}

/// Represents an alternative appearance of the player, e.g. wearing a
/// mask; custom appearances select an extra offset in the spritesheet.
#[derive(Clone, Copy, PartialEq, Eq, Structural)]
pub enum PlayerAppearanceState {
    Default,
    MimigaMask,
    Custom(u8),
}

/// An interface for implementations of player skin providers.
pub trait PlayerSkin {
    /// Returns animation frame bounds for the specified state.
    fn animation_frame_for(
        &self,
        state: PlayerAnimationState,
        direction: Direction,
        tick: u16,
    ) -> Rect<u16>;

    /// Returns animation frame bounds for the current state.
    fn animation_frame(&self) -> Rect<u16>;

    /// Updates internal animation counters, must be called every game
    /// tick.
    fn tick(&mut self);

    /// Sets the current animation state.
    fn set_state(&mut self, state: PlayerAnimationState);

    /// Returns the current animation state.
    fn get_state(&self) -> PlayerAnimationState;

    /// Sets the current appearance of the skin.
    fn set_appearance(&mut self, appearance: PlayerAppearanceState);

    /// Returns the current appearance of the skin.
    fn get_appearance(&mut self) -> PlayerAppearanceState;

    /// Sets the current color of the skin.
    fn set_color(&mut self, color: Color);

    /// Returns the current color of the skin.
    fn get_color(&self) -> Color;

    /// Sets the current direction.
    fn set_direction(&mut self, direction: Direction);

    /// Returns the current direction.
    fn get_direction(&self) -> Direction;

    /// Returns the name of the skin spritesheet texture.
    fn get_skin_texture_name(&self) -> String;

    /// Returns the name of the skin color mask texture.
    fn get_mask_texture_name(&self) -> String;

    /// Returns hit bounds of the skin.
    fn get_hit_bounds(&self) -> Rect<u32>;

    /// Returns display bounds of the skin.
    fn get_display_bounds(&self) -> Rect<u32>;

    fn get_gun_offset(&self) -> (i32, i32);
}

} // verus!
