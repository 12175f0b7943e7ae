//! The picture drawn from the counter: a panel color and six points on a sine
//! path, with every coordinate that needs no trigonometry stated exactly.
//!
//! A point's place along the path is `pos`, a fraction in sixtieths. Its
//! horizontal center is `15 + 640 * pos`, held in thirds; its vertical center
//! is `85 + 50 * sin(6 * pos)`, which the host computes from `pos`.

use vstd::prelude::*;
use crate::model::Model;

verus! {

/// How many points are drawn.
pub const POINTS: usize = 6;

/// The color of the panel's border and text.
#[derive(Clone, Copy, Debug, PartialEq, Eq, Structural)]
pub enum Color {
    Purple,
    Gray,
}

/// One drawn point: a circle with a label.
#[derive(Clone, Copy, Debug, PartialEq, Eq, Structural)]
pub struct Point {
    /// The number shown in the label.
    pub key: usize,
    /// The place along the path, in sixtieths of the path's width.
    pub pos_sixtieths: usize,
    /// The horizontal center, in thirds of a pixel.
    pub x_thirds: usize,
}

/// Everything the picture shows for one state.
#[derive(Clone, Debug)]
pub struct Scene {
    pub color: Color,
    /// The counter, shown as a number above the points.
    pub count: usize,
    pub points: Vec<Point>,
}

/// The panel is purple once the counter has passed four, gray before.
pub open spec fn panel_color(count: usize) -> Color {
    if count > 4 {
        Color::Purple
    } else {
        Color::Gray
    }
}

/// The label of point `i`: `6 - i + count / 10`.
pub open spec fn point_key(count: usize, i: int) -> int {
    6 - i + count / 10
}

/// The place of point `i`, in sixtieths: `i / 6 + (count % 10) / 10 / 6`.
pub open spec fn point_pos(count: usize, i: int) -> int {
    10 * i + count % 10
}

/// The horizontal center, in thirds, of a point at `pos` sixtieths:
/// three times `15 + 640 * pos / 60`.
pub open spec fn x_thirds_of(pos: int) -> int {
    45 + 32 * pos
}

/// Point `i` of the picture for `count`.
pub open spec fn point_of(count: usize, i: int) -> Point {
    Point {
        key: point_key(count, i) as usize,
        pos_sixtieths: point_pos(count, i) as usize,
        x_thirds: x_thirds_of(point_pos(count, i)) as usize,
    }
}

/// The point with label `key` at `pos_sixtieths` along the path.
pub fn point(key: usize, pos_sixtieths: usize) -> (p: Point)
    requires
        x_thirds_of(pos_sixtieths as int) <= usize::MAX,
    ensures
        p.key == key,
        p.pos_sixtieths == pos_sixtieths,
        p.x_thirds == x_thirds_of(pos_sixtieths as int),
{
    Point { key, pos_sixtieths, x_thirds: 45 + 32 * pos_sixtieths }
}

/// The picture for a state: the panel color, the counter, and the six points.
pub fn view(model: &Model) -> (s: Scene)
    ensures
        s.color == panel_color(model.count),
        s.count == model.count,
        s.points@.len() == POINTS,
        forall|i: int| 0 <= i < POINTS ==> #[trigger] s.points@[i] == point_of(model.count, i),
{
    let count = model.count;
    let color = if count > 4 {
        Color::Purple
    } else {
        Color::Gray
    };
    let tens = count / 10;
    let step = count % 10;
    let mut points: Vec<Point> = Vec::new();
    let mut i: usize = 0;
    while i < POINTS
        invariant
            i <= POINTS,
            tens == count / 10,
            step == count % 10,
            points@.len() == i,
            forall|j: int| 0 <= j < i ==> #[trigger] points@[j] == point_of(count, j),
        decreases POINTS - i,
    {
        let p = point(POINTS - i + tens, 10 * i + step);
        points.push(p);
        i = i + 1;
    }
    Scene { color, count, points }
}

} // verus!
