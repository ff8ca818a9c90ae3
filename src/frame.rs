use vstd::prelude::*;

verus! {

/// Number of screen columns, one ray each.
pub const VIEW_COLUMNS: usize = 160;

/// Screen row around which every wall slice is centred.
pub const HORIZON_ROW: i32 = 80;

/// Palette selector for slices hit on a vertical grid line.
pub const SHADOW_COLOR: u16 = 2;

/// Palette selector for slices hit on a horizontal grid line.
pub const LIT_COLOR: u16 = 3;

/// Half of `h`, rounded toward zero.
pub open spec fn half_toward_zero(h: int) -> int {
    if h >= 0 {
        h / 2
    } else {
        -((-h) / 2)
    }
}

/// One vertical line to draw: the palette selector, the column, the top row
/// and the length in pixels.
#[derive(Clone, Copy, Debug, PartialEq, Eq, Structural)]
pub struct ColumnDraw {
    pub color: u16,
    pub column: i32,
    pub top: i32,
    pub length: u32,
}

/// The line that draws a wall slice of `height` pixels in `column`.
pub open spec fn spec_column_draw(column: i32, height: i32, shadow: bool) -> ColumnDraw {
    ColumnDraw {
        color: if shadow { SHADOW_COLOR } else { LIT_COLOR },
        column,
        top: (HORIZON_ROW - half_toward_zero(height as int)) as i32,
        length: height as u32,
    }
}

/// The line that draws a wall slice of `height` pixels in `column`: centred on
/// the horizon row, darker when the slice was hit on a vertical grid line.
pub fn column_draw(column: i32, height: i32, shadow: bool) -> (r: ColumnDraw)
    ensures
        r == spec_column_draw(column, height, shadow),
        HORIZON_ROW - half_toward_zero(height as int) == r.top as int,
{
    let color = if shadow {
        SHADOW_COLOR
    } else {
        LIT_COLOR
    };
    let half = height / 2;
    ColumnDraw { color, column, top: HORIZON_ROW - half, length: height as u32 }
}

/// The lines that draw a whole view, one per column from the left: entry `i`
/// of `view` is the height and shadow flag of column `i`.
pub fn frame_draws(view: &Vec<(i32, bool)>) -> (r: Vec<ColumnDraw>)
    requires
        view.len() <= i32::MAX,
    ensures
        r.len() == view.len(),
        forall|i: int|
            0 <= i < view.len() ==> #[trigger] r@[i] == spec_column_draw(
                i as i32,
                view@[i].0,
                view@[i].1,
            ),
{
    let mut r: Vec<ColumnDraw> = Vec::new();
    let mut i: usize = 0;
    while i < view.len()
        invariant
            i <= view.len(),
            view.len() <= i32::MAX,
            r.len() == i,
            forall|j: int|
                0 <= j < i ==> #[trigger] r@[j] == spec_column_draw(j as i32, view@[j].0, view@[j].1),
        decreases view.len() - i,
    {
        let (height, shadow) = view[i];
        r.push(column_draw(i as i32, height, shadow));
        i = i + 1;
    }
    r
}

} // verus!
