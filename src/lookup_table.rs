//! The table of best turbines over a grid of footprints and heights.

use crate::error::SizingError;
use crate::turbine::{optimal_turbine_with_dimensions, turbine_for_dimensions, Turbine};
use vstd::prelude::*;

verus! {

/// Heights in each footprint's block of the table.
pub const TABLE_HEIGHTS: usize = 13;
/// Footprints in the table.
pub const TABLE_FOOTPRINTS: usize = 6;

/// The footprint of row `k` of the table.
pub open spec fn table_footprint(k: int) -> int {
    5 + 2 * (k / TABLE_HEIGHTS as int)
}

/// The height of row `k` of the table.
pub open spec fn table_height(k: int) -> int {
    5 + k % (TABLE_HEIGHTS as int)
}

/// The best turbine for each odd footprint from 5 to 15 and each height from
/// 5 to 17, by footprint and then by height.
pub fn turbine_lookup_rows() -> (r: Vec<Result<Turbine, SizingError>>)
    ensures
        r.len() == TABLE_FOOTPRINTS * TABLE_HEIGHTS,
        forall|k: int|
            0 <= k < r.len() ==> #[trigger] r[k] == turbine_for_dimensions(
                table_footprint(k),
                table_height(k),
            ),
{
    let mut rows: Vec<Result<Turbine, SizingError>> = Vec::new();
    let mut x: i32 = 5;
    while x < 17
        invariant
            5 <= x <= 17,
            x % 2 == 1,
            rows.len() == ((x - 5) / 2) * TABLE_HEIGHTS,
            forall|k: int|
                0 <= k < rows.len() ==> #[trigger] rows[k] == turbine_for_dimensions(
                    table_footprint(k),
                    table_height(k),
                ),
        decreases 17 - x,
    {
        let mut y: i32 = 5;
        while y < 18
            invariant
                5 <= x <= 15,
                x % 2 == 1,
                5 <= y <= 18,
                rows.len() == ((x - 5) / 2) * TABLE_HEIGHTS + (y - 5),
                forall|k: int|
                    0 <= k < rows.len() ==> #[trigger] rows[k] == turbine_for_dimensions(
                        table_footprint(k),
                        table_height(k),
                    ),
            decreases 18 - y,
        {
            let ghost k = rows.len() as int;
            assert(table_footprint(k) == x && table_height(k) == y) by (nonlinear_arith)
                requires
                    k == ((x - 5) / 2) * 13 + (y - 5),
                    5 <= y <= 17,
                    5 <= x <= 15,
                    x % 2 == 1,
                    table_footprint(k) == 5 + 2 * (k / 13),
                    table_height(k) == 5 + k % 13,
            ;
            rows.push(optimal_turbine_with_dimensions(x, y));
            y = y + 1;
        }
        x = x + 2;
    }
    rows
}

} // verus!
