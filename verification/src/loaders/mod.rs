//! Resources that are decoded from images before the first frame.
pub mod normal_map;
