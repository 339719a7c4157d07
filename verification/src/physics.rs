//! The parts of the `.physics3.json` rig that the simulator's decisions
//! read, and those decisions: which inputs and outputs drive model
//! parameters, which axis an input or output acts on, and which particle a
//! 1-based output vertex index names.

use vstd::prelude::*;

verus! {

/// A named physics setting (informational).
#[derive(Debug, Clone, PartialEq)]
pub struct PhysicsDictionaryEntry {
    pub id: String,
    pub name: String,
}

/// What an input reads or an output writes.
#[derive(Debug, Clone, PartialEq)]
pub struct PhysicsTarget {
    /// `"Parameter"` or `"PartOpacity"`. Only `"Parameter"` targets take
    /// part in the simulation.
    pub target: String,
    pub id: String,
}

/// The target kind that the simulator drives.
pub const PARAMETER_TARGET: &'static str = "Parameter";

/// The type an input or output has when the file names none.
pub const DEFAULT_IO_TYPE: &'static str = "Angle";

/// The axis an input or output acts on.
#[derive(Debug, Clone, Copy, PartialEq, Eq)]
pub enum IoType {
    /// Translation along X.
    X,
    /// Translation along Y.
    Y,
    /// Rotation of the chain (input) or angle to the parent particle
    /// (output).
    Angle,
}

/// The axis named by an input's or output's `Type`: `"X"`, `"Y"`, and
/// `Angle` for `"Angle"` and every other name.
pub open spec fn spec_io_type(name: Seq<char>) -> IoType {
    if name == "X"@ {
        IoType::X
    } else if name == "Y"@ {
        IoType::Y
    } else {
        IoType::Angle
    }
}

/// The `Type` an input or output has when the file names none.
pub fn default_io_type() -> (r: String)
    ensures
        r@ == DEFAULT_IO_TYPE@,
{
    DEFAULT_IO_TYPE.to_owned()
}

/// The axis named by an input's or output's `Type`.
pub fn io_type_of(name: &String) -> (r: IoType)
    ensures
        r == spec_io_type(name@),
{
    if *name == "X".to_owned() {
        IoType::X
    } else if *name == "Y".to_owned() {
        IoType::Y
    } else {
        IoType::Angle
    }
}

impl IoType {
    /// Whether values of this type are normalized with the setting's
    /// position range (X and Y) rather than its angle range.
    pub fn uses_position_range(&self) -> (r: bool)
        ensures
            r == (*self is X || *self is Y),
    {
        match self {
            IoType::X => true,
            IoType::Y => true,
            IoType::Angle => false,
        }
    }
}

impl PhysicsTarget {
    /// Whether this target is a model parameter, the only kind the
    /// simulator reads and writes.
    pub fn is_parameter(&self) -> (r: bool)
        ensures
            r == (self.target@ == PARAMETER_TARGET@),
    {
        self.target == PARAMETER_TARGET.to_owned()
    }
}

/// The particle an output reads, and its parent: the output's 1-based
/// `vertex_index` names particle `vertex_index` of the chain (the anchor,
/// particle 0, is never read); an index of 0 or past the chain names
/// none.
pub fn output_particles(vertex_index: usize, particle_count: usize) -> (r: Option<(usize, usize)>)
    ensures
        r is Some <==> 1 <= vertex_index < particle_count,
        r is Some ==> r->0 == (vertex_index, (vertex_index - 1) as usize),
{
    if vertex_index == 0 || vertex_index >= particle_count {
        None
    } else {
        Some((vertex_index, vertex_index - 1))
    }
}

} // verus!
