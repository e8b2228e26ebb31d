//! Bills of materials for building structures.

use crate::boiler::Boiler;
use crate::fission::FissionReactor;
use crate::setups::{BinarySetup, TrinarySetup};
use crate::turbine::Turbine;
use vstd::prelude::*;

verus! {

/// A count of blocks.
pub type Block = u16;

/// The blocks that building a turbine takes.
#[derive(Debug, Clone, Copy, PartialEq, Eq, Structural)]
pub struct TurbineRecipe {
    pub saturating_condenser: Block,
    pub turbine_vent: Block,
    pub electromagnetic_coil: Block,
    pub rotational_complex: Block,
    pub turbine_rotor: Block,
    pub turbine_blade: Block,
    pub structural_glass: Block,
    pub turbine_casing: Block,
}

/// The count of each kind of part block: the turbine's condensers, as a block count.
pub open spec fn part_blocks(t: Turbine) -> Block {
    t.condensers as Block
}

/// Glass around the blade section.
pub open spec fn glass_blocks(t: Turbine) -> int {
    part_blocks(t) * ((t.x_z - 2) as Block) * 4
}

/// Casing on the walls above the shaft.
pub open spec fn side_casing_blocks(t: Turbine) -> int {
    ((t.y - t.shaft_height) as Block) * (t.x_z as Block) * 4
}

/// Casing on the roof and the floor.
pub open spec fn top_bottom_blocks(t: Turbine) -> Block {
    ((t.x_z - 2) * (t.x_z - 2) * 2) as Block
}

/// The counts of a recipe fit in a block count, and the vents take no more
/// casing than there is.
pub open spec fn recipe_fits(t: Turbine) -> bool {
    &&& i32::MIN <= t.x_z - 2
    &&& i32::MIN <= t.y - t.shaft_height <= i32::MAX
    &&& (t.x_z - 2) * (t.x_z - 2) * 2 <= i32::MAX
    &&& glass_blocks(t) <= Block::MAX
    &&& side_casing_blocks(t) <= Block::MAX
    &&& part_blocks(t) <= top_bottom_blocks(t) + side_casing_blocks(t) <= Block::MAX
}

/// The blocks that building `turbine` takes.
pub fn turbine_recipe(turbine: &Turbine) -> (r: TurbineRecipe)
    requires
        recipe_fits(*turbine),
    ensures
        r.saturating_condenser == part_blocks(*turbine),
        r.turbine_vent == part_blocks(*turbine),
        r.electromagnetic_coil == part_blocks(*turbine),
        r.rotational_complex == part_blocks(*turbine),
        r.turbine_rotor == part_blocks(*turbine),
        r.turbine_blade == part_blocks(*turbine),
        r.structural_glass == glass_blocks(*turbine),
        r.turbine_casing == top_bottom_blocks(*turbine) + side_casing_blocks(*turbine) - part_blocks(
            *turbine,
        ),
{
    let parts: Block = #[verifier::truncate] (turbine.condensers as Block);
    let inner: Block = #[verifier::truncate] ((turbine.x_z - 2) as Block);
    assert(parts * inner <= Block::MAX) by (nonlinear_arith)
        requires
            parts * inner * 4 <= Block::MAX,
    ;
    let structural_glass = parts * inner * 4;
    let remaining_y: Block = #[verifier::truncate] ((turbine.y - turbine.shaft_height) as Block);
    let length: Block = #[verifier::truncate] (turbine.x_z as Block);
    assert(remaining_y * length <= Block::MAX) by (nonlinear_arith)
        requires
            remaining_y * length * 4 <= Block::MAX,
    ;
    let side_area = remaining_y * length * 4;
    assert((turbine.x_z - 2) * (turbine.x_z - 2) >= 0) by (nonlinear_arith);
    let top_bottom_area: Block = #[verifier::truncate] (((turbine.x_z - 2) * (turbine.x_z - 2)
        * 2) as Block);
    TurbineRecipe {
        saturating_condenser: parts,
        turbine_vent: parts,
        electromagnetic_coil: parts,
        rotational_complex: parts,
        turbine_rotor: parts,
        turbine_blade: parts,
        structural_glass,
        turbine_casing: top_bottom_area + side_area - parts,
    }
}

/// The blocks that building a reactor takes; reactors have no recipe yet.
pub fn fission_reactor_recipe(reactor: &FissionReactor) {
}

/// The blocks that building a boiler takes; boilers have no recipe yet.
pub fn boiler_recipe(boiler: &Boiler) {
}

/// The blocks that building a reactor and turbine pair takes; not derived yet.
pub fn handle_binary_type(binary_type: &BinarySetup) {
}

/// The blocks that building a reactor, boiler and turbine takes; not derived yet.
pub fn handle_trinary_type(trinary_type: &TrinarySetup) {
}

} // verus!
