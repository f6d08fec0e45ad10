//! Verified core of a font-metrics callback bridge: value types, parent
//! rescaling, the metrics-provider interface with parent delegation, the
//! marshalling of callback results, and subsetting axis-pin planning.

pub mod metrics;
pub mod scale;
pub mod font;
pub mod marshal;
pub mod subset;
