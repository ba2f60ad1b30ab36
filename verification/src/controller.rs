//! The controller as a whole: its state, its configuration, and the steps of
//! one frame in their fixed order.
//!
//! A frame runs in three steps. [`PlayerController::begin_frame`] moves the
//! item selection and plans the player's motion. The host then turns and moves
//! the player and casts the pointer ray from the new position.
//! [`PlayerController::handle_pointer`] runs the drag controller and then the
//! edit debouncer against that one cast. Last,
//! [`PlayerController::draw_controls_gui`] says what the overlay shows.

use vstd::prelude::*;
use crate::drag::{DragCommand, ObjectCommands, ObjectDragController, SpawnCommand, SpawnRange};
use crate::edit::{EditCommand, EditDebouncer, EditTiming};
use crate::input::DigitalState;
use crate::motion::{
    lock_pointer,
    net_vertical_motion,
    spec_lock_pointer,
    spec_net_vertical_motion,
    MotionPlan,
    PointerLockPolicy,
};
use crate::selector::{net_change, ItemSelector, PaletteItem};
use crate::world::{RaycastHit, UNITS_PER_VOXEL};

verus! {

/// The farthest that the pointer ray reaches: 256 voxels.
pub const MAX_PLACEMENT_DISTANCE: u32 = 256 * UNITS_PER_VOXEL;

/// The tuning of a controller, fixed when it is made.
#[derive(Clone, Copy, Debug, PartialEq, Eq, Structural)]
pub struct ControllerConfig {
    /// The cooldowns of the edit debouncer.
    pub edit_timing: EditTiming,
    /// Where new bodies are placed along the pointer ray.
    pub spawn_range: SpawnRange,
    /// When the toggle action flips the pointer lock.
    pub pointer_lock: PointerLockPolicy,
}

impl ControllerConfig {
    /// The stock tuning; a press of the toggle always flips the lock.
    pub open spec fn standard() -> ControllerConfig {
        ControllerConfig {
            edit_timing: EditTiming::standard(),
            spawn_range: SpawnRange::standard(),
            pointer_lock: PointerLockPolicy::ToggleAlways,
        }
    }
}

impl Default for ControllerConfig {
    fn default() -> (config: ControllerConfig)
        ensures
            config == ControllerConfig::standard(),
    {
        ControllerConfig {
            edit_timing: EditTiming::default(),
            spawn_range: SpawnRange::default(),
            pointer_lock: PointerLockPolicy::ToggleAlways,
        }
    }
}

/// The input of one frame, decoded by the host.
#[derive(Clone, Copy, Debug, PartialEq, Eq, Structural)]
pub struct FrameInput {
    /// Ticks that the wheel has scrolled since the last frame.
    pub scroll_y: i32,
    pub toggle_item_left: DigitalState,
    pub toggle_item_right: DigitalState,
    pub toggle_pointer_lock: DigitalState,
    pub jump: DigitalState,
    pub sneak: DigitalState,
    pub drag_physics_entity: DigitalState,
    pub spawn_physics_entity: DigitalState,
    pub delete_voxels: DigitalState,
    pub place_voxels: DigitalState,
    /// Whether either analog look axis is away from zero.
    pub look_engaged: bool,
    /// Whether the pointer is locked at the start of the frame.
    pub pointer_locked: bool,
    /// Whether the window has the focus.
    pub focused: bool,
}

/// What the pointer did in a frame.
#[derive(Clone, Copy, Debug, PartialEq, Eq, Structural)]
pub enum PointerAim {
    /// The pointer has no direction, so no ray was cast.
    Absent,
    /// A ray was cast along the pointer; `hit` is what it struck, if anything.
    Ray { hit: Option<RaycastHit> },
}

/// What one frame asks of the host, in the order in which the host acts:
/// spawn, drag, edit.
#[derive(Clone, Copy, Debug, PartialEq, Eq, Structural)]
pub struct FrameCommands {
    pub spawn: Option<SpawnCommand>,
    pub drag: DragCommand,
    pub edit: Option<EditCommand>,
}

impl FrameCommands {
    /// The commands of a frame that asks for nothing.
    pub open spec fn nothing() -> FrameCommands {
        FrameCommands { spawn: None, drag: DragCommand::Nothing, edit: None }
    }
}

/// What the overlay shows.
#[derive(Clone, Copy, Debug)]
pub struct Overlay {
    /// Whether the crosshair is drawn.
    pub crosshair: bool,
    /// The text that names the selected item.
    pub label: &'static str,
}

/// A first-person character controller: the state that lasts from frame to
/// frame, and its tuning.
#[derive(Clone, Copy, Debug, PartialEq, Eq, Structural)]
pub struct PlayerController {
    /// The tuning.
    pub config: ControllerConfig,
    /// The item that the user has selected.
    pub items: ItemSelector,
    /// The dragged body, and the kind of body to spawn next.
    pub objects: ObjectDragController,
    /// When voxels may next be placed or destroyed.
    pub edits: EditDebouncer,
}

impl PlayerController {
    /// A controller at start with the given tuning.
    pub open spec fn spec_new(config: ControllerConfig) -> PlayerController {
        PlayerController {
            config,
            items: ItemSelector::new(),
            objects: ObjectDragController::new(),
            edits: EditDebouncer::new(),
        }
    }

    /// A controller at start: the first item selected, nothing dragged, no
    /// body spawned, no cooldown running.
    #[verifier::when_used_as_spec(spec_new)]
    pub fn new(config: ControllerConfig) -> (controller: PlayerController)
        ensures
            controller == PlayerController::spec_new(config),
    {
        PlayerController {
            config,
            items: ItemSelector::new(),
            objects: ObjectDragController::new(),
            edits: EditDebouncer::new(),
        }
    }

    /// Moves the item selection by this frame's scroll and toggles.
    pub fn update_selected_item(&mut self, input: &FrameInput)
        ensures
            final(self).items == old(self).items.moved_by(
                net_change(input.scroll_y, input.toggle_item_left, input.toggle_item_right),
            ),
            final(self).config == old(self).config,
            final(self).objects == old(self).objects,
            final(self).edits == old(self).edits,
    {
        self.items.update(input.scroll_y, input.toggle_item_left, input.toggle_item_right);
    }

    /// The motion plan of a frame.
    pub open spec fn spec_move_player(self, input: FrameInput) -> MotionPlan {
        MotionPlan {
            lock_pointer: spec_lock_pointer(
                self.config.pointer_lock,
                input.pointer_locked,
                input.toggle_pointer_lock,
                input.focused,
                input.look_engaged,
            ),
            vertical: spec_net_vertical_motion(input.jump, input.sneak) as i8,
        }
    }

    /// Plans the player's motion for this frame: whether the pointer gets
    /// locked, and the vertical intent. The host sets the lock, then turns and
    /// moves the player.
    pub fn move_player(&self, input: &FrameInput) -> (plan: MotionPlan)
        ensures
            plan == self.spec_move_player(*input),
            plan.vertical == spec_net_vertical_motion(input.jump, input.sneak),
    {
        MotionPlan {
            lock_pointer: lock_pointer(
                self.config.pointer_lock,
                input.pointer_locked,
                input.toggle_pointer_lock,
                input.focused,
                input.look_engaged,
            ),
            vertical: net_vertical_motion(input.jump, input.sneak),
        }
    }

    /// The first step of a frame: the item selection moves, then the motion is
    /// planned. Nothing else changes.
    pub fn begin_frame(&mut self, input: &FrameInput) -> (plan: MotionPlan)
        ensures
            plan == old(self).spec_move_player(*input),
            final(self).items == old(self).items.moved_by(
                net_change(input.scroll_y, input.toggle_item_left, input.toggle_item_right),
            ),
            final(self).config == old(self).config,
            final(self).objects == old(self).objects,
            final(self).edits == old(self).edits,
    {
        self.update_selected_item(input);
        self.move_player(input)
    }

    /// Handles spawning and dragging of physics bodies against what the
    /// pointer ray struck.
    pub fn handle_object_interaction(
        &mut self,
        hit: Option<RaycastHit>,
        input: &FrameInput,
    ) -> (commands: ObjectCommands)
        ensures
            final(self).objects == old(self).objects.after(
                hit,
                input.drag_physics_entity,
                input.spawn_physics_entity,
            ),
            commands.spawn == old(self).objects.spawn_command(
                old(self).config.spawn_range,
                hit,
                input.spawn_physics_entity,
            ),
            commands.drag == old(self).objects.drag_command(hit, input.drag_physics_entity),
            final(self).config == old(self).config,
            final(self).items == old(self).items,
            final(self).edits == old(self).edits,
    {
        self.objects.step(
            &self.config.spawn_range,
            hit,
            input.drag_physics_entity,
            input.spawn_physics_entity,
        )
    }

    /// Places or destroys voxels against what the pointer ray struck, as far
    /// as the debouncer lets it. A placement carries the selected item's
    /// counter as it is stored.
    pub fn handle_player_place_destroy(
        &mut self,
        hit: Option<RaycastHit>,
        input: &FrameInput,
        now: u64,
    ) -> (command: Option<EditCommand>)
        requires
            old(self).config.edit_timing.admits(now),
        ensures
            final(self).edits == old(self).edits.after(
                old(self).config.edit_timing,
                hit,
                input.delete_voxels,
                input.place_voxels,
                now,
            ),
            command == old(self).edits.command(
                hit,
                input.delete_voxels,
                input.place_voxels,
                old(self).items.counter,
                now,
            ),
            final(self).config == old(self).config,
            final(self).items == old(self).items,
            final(self).objects == old(self).objects,
    {
        self.edits.step(
            &self.config.edit_timing,
            hit,
            input.delete_voxels,
            input.place_voxels,
            self.items.counter,
            now,
        )
    }

    /// The controller after the pointer step of a frame.
    pub open spec fn after_pointer(
        self,
        input: FrameInput,
        aim: PointerAim,
        now: u64,
    ) -> PlayerController {
        match aim {
            PointerAim::Absent => self,
            PointerAim::Ray { hit } => PlayerController {
                config: self.config,
                items: self.items,
                objects: self.objects.after(
                    hit,
                    input.drag_physics_entity,
                    input.spawn_physics_entity,
                ),
                edits: self.edits.after(
                    self.config.edit_timing,
                    hit,
                    input.delete_voxels,
                    input.place_voxels,
                    now,
                ),
            },
        }
    }

    /// What the pointer step of a frame asks of the host.
    pub open spec fn pointer_commands(
        self,
        input: FrameInput,
        aim: PointerAim,
        now: u64,
    ) -> FrameCommands {
        match aim {
            PointerAim::Absent => FrameCommands::nothing(),
            PointerAim::Ray { hit } => FrameCommands {
                spawn: self.objects.spawn_command(
                    self.config.spawn_range,
                    hit,
                    input.spawn_physics_entity,
                ),
                drag: self.objects.drag_command(hit, input.drag_physics_entity),
                edit: self.edits.command(
                    hit,
                    input.delete_voxels,
                    input.place_voxels,
                    self.items.counter,
                    now,
                ),
            },
        }
    }

    /// The second step of a frame, after the host has moved the player and
    /// cast the pointer ray.
    ///
    /// Without a pointer direction nothing happens and nothing changes.
    /// Otherwise the drag controller runs, then the edit debouncer, both
    /// against the same `hit`. `now` is the frame's timestamp in nanoseconds.
    pub fn handle_pointer(
        &mut self,
        input: &FrameInput,
        aim: PointerAim,
        now: u64,
    ) -> (commands: FrameCommands)
        requires
            aim is Ray ==> old(self).config.edit_timing.admits(now),
        ensures
            *final(self) == old(self).after_pointer(*input, aim, now),
            commands == old(self).pointer_commands(*input, aim, now),
            aim is Absent ==> *final(self) == *old(self) && commands == FrameCommands::nothing(),
            final(self).edits.wait_until >= old(self).edits.wait_until,
    {
        match aim {
            PointerAim::Absent => FrameCommands {
                spawn: None,
                drag: DragCommand::Nothing,
                edit: None,
            },
            PointerAim::Ray { hit } => {
                let objects = self.handle_object_interaction(hit, input);
                let edit = self.handle_player_place_destroy(hit, input, now);
                FrameCommands { spawn: objects.spawn, drag: objects.drag, edit }
            },
        }
    }

    /// The last step of a frame: what the overlay shows. The crosshair is
    /// drawn while the pointer is locked; the label names the selected item.
    pub fn draw_controls_gui(&self, pointer_locked: bool) -> (overlay: Overlay)
        ensures
            overlay.crosshair == pointer_locked,
            overlay.label@ == PaletteItem::at(self.items.display()).spec_label(),
    {
        Overlay { crosshair: pointer_locked, label: self.items.label() }
    }
}

} // verus!
