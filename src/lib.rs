//! Sizing of turbine and fission reactor multiblocks: block counts, flow
//! rates, capacities and energy production, found by bounded searches over
//! the structures' dimensions.

pub mod boiler;
pub mod error;
pub mod fission;
pub mod lookup_table;
pub mod metric_prefix;
pub mod recipe;
pub mod setups;
pub mod text;
pub mod turbine;
