//! Reading the resolution argument of the commands that add or remove an extra
//! resolution of a media asset.
use vstd::prelude::*;

use crate::models::config::{
    parse_image_resolution_spec, parse_video_resolution_spec, ConfigImageResolution,
    ConfigVideoResolution,
};
use crate::models::tasks::TaskEncodeResolution;

verus! {

/// The resolution a text names: `{w}x{h}:{fps}`, else `{w}x{h}` with no frame rate
/// (0).
pub open spec fn resolution_param_spec(s: Seq<char>) -> Option<(i32, i32, i32)> {
    match parse_video_resolution_spec(s) {
        Some((w, h, f)) => Some((w, h, f)),
        None => match parse_image_resolution_spec(s) {
            Some((w, h)) => Some((w, h, 0i32)),
            None => None,
        },
    }
}

/// Reads a resolution argument (see `resolution_param_spec`); `Err` for any other text.
pub fn parse_resolution_param(param: &str) -> (r: Result<TaskEncodeResolution, ()>)
    ensures
        match r {
            Ok(t) => resolution_param_spec(param@) == Some((t.width, t.height, t.fps)),
            Err(_) => resolution_param_spec(param@) is None,
        },
{
    match ConfigVideoResolution::from_str(param) {
        Ok(r) => Ok(TaskEncodeResolution { width: r.width, height: r.height, fps: r.fps }),
        Err(_) => match ConfigImageResolution::from_str(param) {
            Ok(r) => Ok(TaskEncodeResolution { width: r.width, height: r.height, fps: 0 }),
            Err(_) => Err(()),
        },
    }
}

} // verus!
