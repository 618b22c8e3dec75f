//! Shrinks a decoded raster image under a sizing policy: a named size hint with
//! optional per-axis overrides, an aspect-ratio mode and a resampling filter.
mod modes;
mod raster;
mod reader;
mod shrink;
mod size;

pub use modes::{AspectMode, FilterMode, kernel_of};
pub use raster::{
    Raster, at_least_one, buffer_fits, cover_bound, decoded, exact_resized, fill_croppable,
    filled, fit_within, fitted, pnm_of, positive,
};
pub use reader::{BoundedBuffer, bounded_append, concat_all, fill, fill_keeps_prefix, room};
pub use shrink::{
    CodecError, ShrinkConfig, bytes2image, cover_in_range, img2wtr, policy_fits, policy_result,
};
pub use size::{
    ConfigError, ResizeConfig, hint_side, hint_table, no_override_gives_square, resolve, resolved,
    single_override_keeps_other_axis, square, unknown_hint_never_resolves,
};
