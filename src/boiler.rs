//! Boiler multiblocks.

use crate::error::SizingError;
use crate::text::{decimal_text, push_decimal};
use vstd::prelude::*;
use vstd::string::StringExecFns;

verus! {

/// A boiler: its dimensions and heating blocks.
#[derive(Debug, Clone, Copy, PartialEq, Eq, Structural)]
pub struct Boiler {
    pub x: i32,
    pub z: i32,
    pub y: i32,
    pub heating_element: i32,
    pub dispersers: i32,
}

impl Default for Boiler {
    fn default() -> (r: Boiler)
        ensures
            r == (Boiler { x: 0, z: 0, y: 0, heating_element: 0, dispersers: 0 }),
    {
        Boiler { x: 0, z: 0, y: 0, heating_element: 0, dispersers: 0 }
    }
}

impl Boiler {
    /// The one-line summary: "A 5x5x7 Boiler".
    pub open spec fn summary(&self) -> Seq<char> {
        "A "@ + decimal_text(self.x as int) + "x"@ + decimal_text(self.z as int) + "x"@
            + decimal_text(self.y as int) + " Boiler"@
    }

    /// The one-line summary of this boiler's dimensions.
    pub fn summarize(&self) -> (r: String)
        ensures
            r@ == self.summary(),
    {
        let mut text = String::from_str("A ");
        push_decimal(&mut text, self.x);
        text.append("x");
        push_decimal(&mut text, self.z);
        text.append("x");
        push_decimal(&mut text, self.y);
        text.append(" Boiler");
        text
    }
}

/// The boiler for the given dimensions, which must lie within those of a
/// reactor: length and width 3 to 18, height 4 to 18. No block counts are
/// derived for boilers yet, so the boiler is an empty one.
pub fn optimal_boiler_with_dimensions(x: i32, z: i32, y: i32) -> (r: Result<Boiler, SizingError>)
    ensures
        r == if 3 <= x <= 18 && 3 <= z <= 18 && 4 <= y <= 18 {
            Ok(Boiler { x: 0, z: 0, y: 0, heating_element: 0, dispersers: 0 })
        } else {
            Err(SizingError::DimensionOutOfRange)
        },
{
    if x < 3 || 18 < x || z < 3 || 18 < z || y < 4 || 18 < y {
        return Err(SizingError::DimensionOutOfRange);
    }
    Ok(Boiler::default())
}

} // verus!
