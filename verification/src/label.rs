//! Label layout: where a slice's text label is anchored, and which outline
//! shade keeps it readable against its own fill color.

use vstd::prelude::*;

use crate::util::{calc_point, spec_calc_point, spec_calc_point_fits, PixelPoint, UnitDirection};

verus! {

/// Whether a label of the given color gets a dark outline: bright colors
/// (channel sum above half the channel range) are outlined in dark, dim
/// colors in light.
pub fn label_outline_is_dark(color: (u8, u8, u8)) -> (dark: bool)
    ensures
        dark <==> color.0 + color.1 + color.2 > 127,
{
    let color_total: u32 = color.0 as u32 + color.1 as u32 + color.2 as u32;
    color_total > (u8::MAX / 2) as u32
}

/// Lays out one label: the anchor pixel on the slice's bisector at the
/// label radius, and whether the outline is dark.  An out-of-range
/// intermediate is reported as `None`.
pub fn label_layout(
    circle_center: (u32, u32),
    color: (u8, u8, u8),
    label_position_radius: u32,
    center_angle_coord: UnitDirection,
) -> (r: Option<(PixelPoint, bool)>)
    requires
        center_angle_coord.wf(),
    ensures
        r matches Some(l) ==> {
            &&& l.0.wf()
            &&& (l.0.x@, l.0.y@) == spec_calc_point(
                center_angle_coord.x@,
                center_angle_coord.y@,
                circle_center.0 as int,
                circle_center.1 as int,
                label_position_radius as int,
            )
            &&& (l.1 <==> color.0 + color.1 + color.2 > 127)
        },
        r is Some <==> spec_calc_point_fits(
            center_angle_coord.x@,
            center_angle_coord.y@,
            circle_center.0 as int,
            circle_center.1 as int,
            label_position_radius as int,
        ),
{
    let anchor = match calc_point(
        center_angle_coord,
        circle_center.0,
        circle_center.1,
        label_position_radius,
    ) {
        Some(v) => v,
        None => return None,
    };
    let dark = label_outline_is_dark(color);
    Some((anchor, dark))
}

} // verus!
