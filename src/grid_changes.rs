//! Viewport resize: the stored event may publish new grid bounds.

use vstd::prelude::*;
use crate::grid::GridDimensions;
use crate::world::{Event, InputEvent, World};

verus! {

/// The grid after the event in `input`: a resize replaces the viewport size
/// and keeps the tile geometry; any other event leaves it as it is.
pub open spec fn resized(g: GridDimensions, input: InputEvent) -> GridDimensions {
    match input.0 {
        Some(Event::Resize(width, height)) => GridDimensions {
            window_width: width,
            window_height: height,
            ..g
        },
        _ => g,
    }
}

/// The resize system.
pub struct GridChangesSys;

impl GridChangesSys {
    pub fn run(&self, world: &mut World)
        ensures
            final(world).grid == resized(old(world).grid, old(world).input),
            final(world).entities == old(world).entities,
            final(world).input == old(world).input,
            final(world).game_info == old(world).game_info,
    {
        if let Some(Event::Resize(width, height)) = world.input.0 {
            world.grid.window_width = width;
            world.grid.window_height = height;
        }
    }
}

} // verus!
