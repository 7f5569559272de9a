//! The configuration of one render pass, validated before the renderer may
//! run: raster dimensions, plane bounds, iteration cap, and palette.

use vstd::prelude::*;

use crate::fixed;
use crate::palette::Palette;
use crate::viewport::{Viewport, DIM_LIMIT};

verus! {

/// Why a configuration was rejected. A render pass never starts on a rejected
/// configuration.
#[derive(Clone, Copy, Debug, PartialEq, Eq, Structural)]
pub enum ConfigError {
    /// The raster width is zero or above the supported limit.
    InvalidWidth,
    /// The raster height is zero or above the supported limit.
    InvalidHeight,
    /// The iteration cap is zero.
    InvalidMaxIter,
    /// The palette holds no color.
    EmptyPalette,
    /// The plane rectangle is empty or leaves the coordinate range.
    InvalidBounds,
}

/// Everything one render pass depends on. Built only through [`Config::new`],
/// which rejects invalid values, so a held `Config` is well formed.
#[derive(Debug, PartialEq, Eq)]
pub struct Config {
    pub viewport: Viewport,
    pub palette: Palette,
    pub max_iter: usize,
}

/// The raster width or height `d` is accepted.
pub open spec fn dim_ok(d: usize) -> bool {
    0 < d <= DIM_LIMIT
}

/// The plane bounds are accepted: each rectangle side is nonempty and within
/// the coordinate range.
pub open spec fn bounds_ok(re_min: i64, re_max: i64, im_min: i64, im_max: i64) -> bool {
    &&& re_min < re_max
    &&& im_min < im_max
    &&& -fixed::COORD_MAX <= re_min
    &&& re_max <= fixed::COORD_MAX
    &&& -fixed::COORD_MAX <= im_min
    &&& im_max <= fixed::COORD_MAX
}

impl Config {
    /// A well-formed configuration, as every constructed `Config` is.
    pub open spec fn wf(self) -> bool {
        &&& self.viewport.wf()
        &&& self.palette.wf()
        &&& self.max_iter > 0
    }

    /// Validates a configuration and builds it, or says exactly why it is
    /// rejected. Width is checked first, then height, then the iteration cap,
    /// then the palette, then the plane bounds; the first failing check names
    /// the error.
    pub fn new(
        width: usize,
        height: usize,
        re_min: i64,
        re_max: i64,
        im_min: i64,
        im_max: i64,
        max_iter: usize,
        palette: Palette,
    ) -> (r: Result<Config, ConfigError>)
        ensures
            r is Ok <==> dim_ok(width) && dim_ok(height) && max_iter > 0 && palette.wf()
                && bounds_ok(re_min, re_max, im_min, im_max),
            r matches Ok(cfg) ==> cfg.wf() && cfg == (Config {
                viewport: Viewport { width, height, re_min, re_max, im_min, im_max },
                palette: palette,
                max_iter: max_iter,
            }),
            r == Err::<Config, ConfigError>(ConfigError::InvalidWidth) <==> !dim_ok(width),
            r == Err::<Config, ConfigError>(ConfigError::InvalidHeight) <==> dim_ok(width)
                && !dim_ok(height),
            r == Err::<Config, ConfigError>(ConfigError::InvalidMaxIter) <==> dim_ok(width)
                && dim_ok(height) && max_iter == 0,
            r == Err::<Config, ConfigError>(ConfigError::EmptyPalette) <==> dim_ok(width)
                && dim_ok(height) && max_iter > 0 && !palette.wf(),
            r == Err::<Config, ConfigError>(ConfigError::InvalidBounds) <==> dim_ok(width)
                && dim_ok(height) && max_iter > 0 && palette.wf() && !bounds_ok(
                re_min,
                re_max,
                im_min,
                im_max,
            ),
    {
        if width == 0 || width > DIM_LIMIT {
            return Err(ConfigError::InvalidWidth);
        }
        if height == 0 || height > DIM_LIMIT {
            return Err(ConfigError::InvalidHeight);
        }
        if max_iter == 0 {
            return Err(ConfigError::InvalidMaxIter);
        }
        if palette.colors.len() == 0 {
            return Err(ConfigError::EmptyPalette);
        }
        if re_min >= re_max || im_min >= im_max || re_min < -fixed::COORD_MAX || re_max
            > fixed::COORD_MAX || im_min < -fixed::COORD_MAX || im_max > fixed::COORD_MAX {
            return Err(ConfigError::InvalidBounds);
        }
        Ok(Config {
            viewport: Viewport { width, height, re_min, re_max, im_min, im_max },
            palette,
            max_iter,
        })
    }
}

} // verus!
