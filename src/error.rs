use vstd::prelude::*;

verus! {

/// Why a plant refused to be watered or harvested.
#[derive(Clone, Copy, Debug, PartialEq, Eq, Structural)]
pub enum NotReadyReason {
    /// Every stage is grown and watered: the plant waits for harvest.
    FullyGrown,
    /// The plant missed a watering and no longer grows.
    Dead,
    /// Watering out of step with the stages (too early, or twice in a stage).
    OutOfStep,
    /// Harvest asked before every stage is grown and watered.
    NotGrown,
}

/// The errors of the farm.
#[derive(Clone, Debug, PartialEq, Eq)]
pub enum ContractError {
    /// No farm profile exists for the owner.
    NotFound { address: String },
    /// The owner already has a farm profile.
    AlreadyExists { address: String },
    /// Coordinates outside the grid.
    InvalidCoordinates { x: usize, y: usize },
    /// The slot's effective type or occupancy forbids tilling or planting.
    InvalidSlotState { x: usize, y: usize },
    /// Watering or harvesting an empty slot.
    PlantNotPresent { x: usize, y: usize },
    /// The plant cannot be watered or harvested now.
    PlantNotReady { x: usize, y: usize, reason: NotReadyReason },
    /// The caller is not the owner or the admin.
    Unauthorized,
    /// A mint target or another outside reference is not configured.
    ExternalDependencyMissing,
    /// A plant name that names no known species.
    UnknownPlant { name: String },
    /// A seed token whose metadata names no plant type.
    MissingMetadataType,
}

} // verus!
