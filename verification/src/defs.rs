//! The SVG `<defs>`: the arrow head and every clip path.

use vstd::prelude::*;
use crate::clip_path::{ClipPath, FREEFORM_CLIP_PATH_ID};
use crate::marker::Marker;
use crate::render_settings::str_eq;

verus! {

/// The `<defs>` of an SVG.
#[derive(Debug)]
pub struct Defs {
    pub marker: Marker,
    pub clip_paths: Vec<ClipPath>,
}

impl Defs {
    /// Definitions with the arrow head and no clip path yet, with room for the clip
    /// paths of every core and router and the freeform one.
    pub fn new(number_of_cores: &usize) -> (r: Self)
        ensures
            r.clip_paths@.len() == 0,
            r.marker.id == "arrowHead",
    {
        let capacity = if *number_of_cores <= (usize::MAX - 1) / 2 { *number_of_cores * 2 + 1 } else { usize::MAX };
        Defs { marker: Marker::default(), clip_paths: Vec::with_capacity(capacity) }
    }

    /// Appends the freeform clip path with the given polygon points.
    pub fn add_freeform_clip_path(&mut self, polygon_points: String)
        ensures
            final(self).clip_paths@.len() == old(self).clip_paths@.len() + 1,
            final(self).clip_paths@.drop_last() == old(self).clip_paths@,
            final(self).clip_paths@.last().id@ == FREEFORM_CLIP_PATH_ID@,
            final(self).clip_paths@.last().polygon.points == polygon_points,
            final(self).marker == old(self).marker,
    {
        self.clip_paths.push(ClipPath::new(polygon_points));
        proof {
            assert(self.clip_paths@.drop_last() =~= old(self).clip_paths@);
        }
    }

    /// Removes the freeform clip path (id `crop`) when it is the last clip path; leaves
    /// the clip paths as they are otherwise.
    pub fn clear_freeform_clip_path(&mut self)
        ensures
            final(self).clip_paths@ == if ends_with_freeform(old(self).clip_paths@) {
                old(self).clip_paths@.drop_last()
            } else {
                old(self).clip_paths@
            },
            final(self).marker == old(self).marker,
    {
        let n = self.clip_paths.len();
        if n > 0 && str_eq(self.clip_paths[n - 1].id.as_str(), FREEFORM_CLIP_PATH_ID) {
            let _ = self.clip_paths.pop();
        }
    }
}

/// The last of `clip_paths` is the freeform one (id `crop`).
pub open spec fn ends_with_freeform(clip_paths: Seq<ClipPath>) -> bool {
    clip_paths.len() > 0 && clip_paths.last().id@ == FREEFORM_CLIP_PATH_ID@
}

} // verus!
