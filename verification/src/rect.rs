//! A generic 2D axis-aligned rectangle: construction, bounding-box
//! computation, vertex enumeration, axis queries, directional growth and
//! intersection testing.

use vstd::prelude::*;

use crate::scalar::{fits, max_i, min_i, Scalar, ScalarCast};
use crate::vector::{Axis2, Vec2};

verus! {

/// Whether two axis-aligned rectangles overlap, given as origin and size
/// components. The inclusive mode counts rectangles that touch exactly at an
/// edge; the exclusive mode does not. Stated as the negation of the four
/// separating-axis checks, in the order the test performs them.
pub open spec fn rect_intersects(ax: int, ay: int, aw: int, ah: int, bx: int, by: int, bw: int, bh: int, including_borders: bool) -> bool {
    if including_borders {
        &&& !(ax > bx + bw)
        &&& !(ax + aw < bx)
        &&& !(ay > by + bh)
        &&& !(ay + ah < by)
    } else {
        &&& !(ax >= bx + bw)
        &&& !(ax + aw <= bx)
        &&& !(ay >= by + bh)
        &&& !(ay + ah <= by)
    }
}

/// Law: when rectangle B starts exactly where rectangle A ends on the x
/// axis and neither is reversed on that axis, the two touch: they intersect
/// when borders are included, exactly when their vertical spans meet, and
/// never when borders are excluded.
pub proof fn lemma_touching_edge(ax: int, ay: int, aw: int, ah: int, by: int, bw: int, bh: int)
    requires
        aw >= 0,
        bw >= 0,
    ensures
        !rect_intersects(ax, ay, aw, ah, ax + aw, by, bw, bh, false),
        rect_intersects(ax, ay, aw, ah, ax + aw, by, bw, bh, true) == (ay <= by + bh && by <= ay + ah),
{
}

/// Law: a rectangle built from edge offsets, as [`Rect2::from_offsets`]
/// guarantees it, reads back its left and top offsets as its origin and
/// reaches exactly to its right and bottom offsets.
pub proof fn lemma_from_offsets_round_trip<T: Scalar>(r: Rect2<T>, left: T, top: T, right: T, bottom: T)
    requires
        r.0.0 == left,
        r.0.1 == top,
        r.sx() == right.v() - left.v(),
        r.sy() == bottom.v() - top.v(),
    ensures
        r.px() == left.v(),
        r.py() == top.v(),
        r.px() + r.sx() == right.v(),
        r.py() + r.sy() == bottom.v(),
{
}

/// One edge of a rectangle, used for directional growth.
#[derive(Debug, Clone, Copy, PartialEq, Eq)]
pub enum Side2 {
    Top,
    Bottom,
    Left,
    Right,
}

/// A 2D rectangle of a position (the origin corner) and a size. The size's
/// components may be negative; the opposite corner is always
/// `position + size`.
#[derive(Debug, Clone, Copy, PartialEq, Eq)]
pub struct Rect2<T: Scalar>(pub Vec2<T>, pub Vec2<T>);

impl<T: Scalar> Rect2<T> {
    /// The mathematical value of the origin's x component.
    pub open spec fn px(self) -> int {
        self.0.xv()
    }

    /// The mathematical value of the origin's y component.
    pub open spec fn py(self) -> int {
        self.0.yv()
    }

    /// The mathematical value of the width.
    pub open spec fn sx(self) -> int {
        self.1.xv()
    }

    /// The mathematical value of the height.
    pub open spec fn sy(self) -> int {
        self.1.yv()
    }

    /// Creates a rectangle from its position and size.
    pub fn new(position: Vec2<T>, size: Vec2<T>) -> (r: Rect2<T>)
        ensures
            r.0 == position,
            r.1 == size,
    {
        Rect2(position, size)
    }

    /// This rectangle itself, for dispatch through abstract shape code.
    pub fn identity(&self) -> (r: &Rect2<T>)
        ensures
            r == self,
    {
        self
    }

    /// The origin corner.
    pub fn position(&self) -> (r: &Vec2<T>)
        ensures
            r == &self.0,
    {
        &self.0
    }

    /// The size vector.
    pub fn size(&self) -> (r: &Vec2<T>)
        ensures
            r == &self.1,
    {
        &self.1
    }

    /// A mutable borrow of the origin corner.
    pub fn position_mut(&mut self) -> (r: &mut Vec2<T>)
        ensures
            final(self).0 == *final(r),
            final(self).1 == old(self).1,
    {
        &mut self.0
    }

    /// A mutable borrow of the size vector.
    pub fn size_mut(&mut self) -> (r: &mut Vec2<T>)
        ensures
            final(self).0 == old(self).0,
            final(self).1 == *final(r),
    {
        &mut self.1
    }

    /// Replaces the origin corner.
    pub fn set_position(&mut self, position: Vec2<T>)
        ensures
            final(self).0 == position,
            final(self).1 == old(self).1,
    {
        self.0 = position;
    }

    /// Replaces the size vector.
    pub fn set_size(&mut self, size: Vec2<T>)
        ensures
            final(self).0 == old(self).0,
            final(self).1 == size,
    {
        self.1 = size;
    }

    /// Creates a rectangle whose sides lie at the given offsets from the
    /// origin of the plane: position `(left, top)`, size
    /// `(right - left, bottom - top)`.
    pub fn from_offsets(left: T, top: T, right: T, bottom: T) -> (r: Rect2<T>)
        requires
            fits::<T>(right.v() - left.v()),
            fits::<T>(bottom.v() - top.v()),
        ensures
            r.0.0 == left,
            r.0.1 == top,
            r.sx() == right.v() - left.v(),
            r.sy() == bottom.v() - top.v(),
    {
        Rect2(Vec2(left, top), Vec2(right.sub_v(left), bottom.sub_v(top)))
    }

    /// Creates a rectangle from the origin's components and the width and
    /// height.
    pub fn from_components(x: T, y: T, width: T, height: T) -> (r: Rect2<T>)
        ensures
            r.0.0 == x,
            r.0.1 == y,
            r.1.0 == width,
            r.1.1 == height,
    {
        Rect2(Vec2(x, y), Vec2(width, height))
    }

    /// Converts the rectangle to another scalar type; every component must
    /// be representable there.
    pub fn cast<U: Scalar>(&self) -> (r: Rect2<U>) where T: ScalarCast<U>
        requires
            U::min_v() <= self.px() <= U::max_v(),
            U::min_v() <= self.py() <= U::max_v(),
            U::min_v() <= self.sx() <= U::max_v(),
            U::min_v() <= self.sy() <= U::max_v(),
        ensures
            r.px() == self.px(),
            r.py() == self.py(),
            r.sx() == self.sx(),
            r.sy() == self.sy(),
    {
        Rect2(self.0.cast(), self.1.cast())
    }

    /// The x component of the origin.
    pub fn x(&self) -> (r: T)
        ensures
            r == self.0.0,
    {
        self.0.x()
    }

    /// The y component of the origin.
    pub fn y(&self) -> (r: T)
        ensures
            r == self.0.1,
    {
        self.0.y()
    }

    /// The width.
    pub fn width(&self) -> (r: T)
        ensures
            r == self.1.0,
    {
        self.1.x()
    }

    /// The height.
    pub fn height(&self) -> (r: T)
        ensures
            r == self.1.1,
    {
        self.1.y()
    }

    /// The corner opposite the origin: `position + size`.
    pub fn end(&self) -> (r: Vec2<T>)
        requires
            fits::<T>(self.px() + self.sx()),
            fits::<T>(self.py() + self.sy()),
        ensures
            r.xv() == self.px() + self.sx(),
            r.yv() == self.py() + self.sy(),
    {
        self.0.add_v(self.1)
    }

    /// The corner with the given index, counting from the origin: 0 is the
    /// origin, 1 adds the width, 2 is the opposite corner, 3 adds the
    /// height. Any other index is a contract violation.
    pub fn vertex(&self, idx: usize) -> (r: Vec2<T>)
        requires
            idx < 4,
            idx == 1 || idx == 2 ==> fits::<T>(self.px() + self.sx()),
            idx == 2 || idx == 3 ==> fits::<T>(self.py() + self.sy()),
        ensures
            idx == 0 ==> r == self.0,
            idx == 1 ==> r.xv() == self.px() + self.sx() && r.yv() == self.py(),
            idx == 2 ==> r.xv() == self.px() + self.sx() && r.yv() == self.py() + self.sy(),
            idx == 3 ==> r.xv() == self.px() && r.yv() == self.py() + self.sy(),
    {
        proof {
            self.0.0.in_range();
            self.0.1.in_range();
        }
        match idx {
            0 => self.0,
            1 => self.0.add_v(self.1.of_x()),
            2 => self.0.add_v(self.1),
            3 => self.0.add_v(self.1.of_y()),
            _ => vstd::pervasive::unreached(),
        }
    }

    /// The axis along which the rectangle is longest; on an exact tie the x
    /// axis wins.
    pub fn longest_axis(&self) -> (r: Axis2)
        ensures
            r == (if self.sy() > self.sx() {
                Axis2::Y
            } else {
                Axis2::X
            }),
    {
        if self.1.y().gt(self.1.x()) {
            return Axis2::Y;
        }
        Axis2::X
    }

    /// The axis along which the rectangle is shortest; on an exact tie the x
    /// axis wins.
    pub fn shortest_axis(&self) -> (r: Axis2)
        ensures
            r == (if self.sy() < self.sx() {
                Axis2::Y
            } else {
                Axis2::X
            }),
    {
        if self.1.y().lt(self.1.x()) {
            return Axis2::Y;
        }
        Axis2::X
    }

    /// The extent of the rectangle along the given axis. The `NoAxis`
    /// sentinel must never reach this call; it is a contract violation.
    pub fn axis_length(&self, axis: Axis2) -> (r: T)
        requires
            axis != Axis2::NoAxis,
        ensures
            axis == Axis2::X ==> r == self.1.0,
            axis == Axis2::Y ==> r == self.1.1,
    {
        match axis {
            Axis2::X => self.1.x(),
            Axis2::Y => self.1.y(),
            Axis2::NoAxis => vstd::pervasive::unreached(),
        }
    }

    /// Grows the rectangle outward (never inward) so that it covers
    /// `point`: each origin component moves down to the point where needed,
    /// each end component moves up, and the new size spans from the moved
    /// origin to the moved end.
    pub fn expand_to_include(&self, point: Vec2<T>) -> (r: Rect2<T>)
        requires
            fits::<T>(self.px() + self.sx()),
            fits::<T>(self.py() + self.sy()),
            fits::<T>(max_i(self.px() + self.sx(), point.xv()) - min_i(self.px(), point.xv())),
            fits::<T>(max_i(self.py() + self.sy(), point.yv()) - min_i(self.py(), point.yv())),
        ensures
            r.px() == min_i(self.px(), point.xv()),
            r.py() == min_i(self.py(), point.yv()),
            r.sx() == max_i(self.px() + self.sx(), point.xv()) - min_i(self.px(), point.xv()),
            r.sy() == max_i(self.py() + self.sy(), point.yv()) - min_i(self.py(), point.yv()),
    {
        let mut origin = *self.position();
        let mut end = self.end();
        if point.x().lt(origin.x()) {
            origin.set_x(point.x());
        }
        if point.y().lt(origin.y()) {
            origin.set_y(point.y());
        }
        if point.x().gt(end.x()) {
            end.set_x(point.x());
        }
        if point.y().gt(end.y()) {
            end.set_y(point.y());
        }
        Rect2(origin, end.sub_v(origin))
    }

    /// Grows exactly one edge of the rectangle outward by `amount`, keeping
    /// the opposite edge fixed: the top and left edges move the origin and
    /// grow the size, the bottom and right edges grow the size alone.
    pub fn grow_side(&self, side: Side2, amount: T) -> (r: Rect2<T>)
        requires
            side == Side2::Top ==> fits::<T>(self.py() - amount.v()) && fits::<T>(self.sy() + amount.v()),
            side == Side2::Bottom ==> fits::<T>(self.sy() + amount.v()),
            side == Side2::Left ==> fits::<T>(self.px() - amount.v()) && fits::<T>(self.sx() + amount.v()),
            side == Side2::Right ==> fits::<T>(self.sx() + amount.v()),
        ensures
            side == Side2::Top ==> r.px() == self.px() && r.py() == self.py() - amount.v()
                && r.sx() == self.sx() && r.sy() == self.sy() + amount.v(),
            side == Side2::Bottom ==> r.0 == self.0 && r.sx() == self.sx() && r.sy() == self.sy()
                + amount.v(),
            side == Side2::Left ==> r.px() == self.px() - amount.v() && r.py() == self.py()
                && r.sx() == self.sx() + amount.v() && r.sy() == self.sy(),
            side == Side2::Right ==> r.0 == self.0 && r.sx() == self.sx() + amount.v() && r.sy()
                == self.sy(),
    {
        proof {
            self.0.0.in_range();
            self.0.1.in_range();
            self.1.0.in_range();
            self.1.1.in_range();
        }
        match side {
            Side2::Top => Rect2(
                self.0.sub_v(Vec2::on_y(amount)),
                self.1.add_v(Vec2::on_y(amount)),
            ),
            Side2::Bottom => Rect2(self.0, self.1.add_v(Vec2::on_y(amount))),
            Side2::Left => Rect2(
                self.0.sub_v(Vec2::on_x(amount)),
                self.1.add_v(Vec2::on_x(amount)),
            ),
            Side2::Right => Rect2(self.0, self.1.add_v(Vec2::on_x(amount))),
        }
    }

    /// Whether this rectangle overlaps `other`, as four early-exit
    /// separating-axis checks. When `including_borders` is set, rectangles
    /// that touch exactly at an edge count as intersecting; otherwise they
    /// do not.
    pub fn intersects(&self, other: &Rect2<T>, including_borders: bool) -> (r: bool)
        requires
            fits::<T>(self.px() + self.sx()),
            fits::<T>(self.py() + self.sy()),
            fits::<T>(other.px() + other.sx()),
            fits::<T>(other.py() + other.sy()),
        ensures
            r == rect_intersects(
                self.px(),
                self.py(),
                self.sx(),
                self.sy(),
                other.px(),
                other.py(),
                other.sx(),
                other.sy(),
                including_borders,
            ),
    {
        if including_borders {
            if self.position().x().gt(other.position().x().add_v(other.size().x())) {
                return false;
            }
            if self.position().x().add_v(self.size().x()).lt(other.position().x()) {
                return false;
            }
            if self.position().y().gt(other.position().y().add_v(other.size().y())) {
                return false;
            }
            if self.position().y().add_v(self.size().y()).lt(other.position().y()) {
                return false;
            }
        } else {
            if !self.position().x().lt(other.position().x().add_v(other.size().x())) {
                return false;
            }
            if !other.position().x().lt(self.position().x().add_v(self.size().x())) {
                return false;
            }
            if !self.position().y().lt(other.position().y().add_v(other.size().y())) {
                return false;
            }
            if !other.position().y().lt(self.position().y().add_v(self.size().y())) {
                return false;
            }
        }
        true
    }

    /// The tight bounding box of a non-empty set of points: the least x and
    /// y of any point become the origin, and the size reaches to the
    /// greatest x and y. An empty set is a contract violation, and every
    /// pairwise coordinate difference must be representable.
    pub fn encompass_points(points: &Vec<Vec2<T>>) -> (r: Rect2<T>)
        requires
            points@.len() >= 1,
            forall|i: int, j: int|
                #![trigger points@[i], points@[j]]
                0 <= i < points@.len() && 0 <= j < points@.len() ==> fits::<T>(
                    points@[i].xv() - points@[j].xv(),
                ) && fits::<T>(points@[i].yv() - points@[j].yv()),
        ensures
            forall|i: int|
                #![trigger points@[i]]
                0 <= i < points@.len() ==> r.px() <= points@[i].xv() && r.py() <= points@[i].yv()
                    && points@[i].xv() <= r.px() + r.sx() && points@[i].yv() <= r.py() + r.sy(),
            exists|i: int| 0 <= i < points@.len() && points@[i].xv() == r.px(),
            exists|i: int| 0 <= i < points@.len() && points@[i].yv() == r.py(),
            exists|i: int| 0 <= i < points@.len() && points@[i].xv() == r.px() + r.sx(),
            exists|i: int| 0 <= i < points@.len() && points@[i].yv() == r.py() + r.sy(),
    {
        let mut top = points[0].y();
        let mut bottom = points[0].y();
        let mut left = points[0].x();
        let mut right = points[0].x();
        let mut i: usize = 1;
        while i < points.len()
            invariant
                1 <= i <= points@.len(),
                forall|i: int, j: int|
                    #![trigger points@[i], points@[j]]
                    0 <= i < points@.len() && 0 <= j < points@.len() ==> fits::<T>(
                        points@[i].xv() - points@[j].xv(),
                    ) && fits::<T>(points@[i].yv() - points@[j].yv()),
                forall|j: int|
                    #![trigger points@[j]]
                    0 <= j < i ==> left.v() <= points@[j].xv() && top.v() <= points@[j].yv()
                        && points@[j].xv() <= right.v() && points@[j].yv() <= bottom.v(),
                exists|j: int| 0 <= j < i && points@[j].xv() == left.v(),
                exists|j: int| 0 <= j < i && points@[j].yv() == top.v(),
                exists|j: int| 0 <= j < i && points@[j].xv() == right.v(),
                exists|j: int| 0 <= j < i && points@[j].yv() == bottom.v(),
            decreases points@.len() - i,
        {
            let p = points[i];
            top = top.min(p.y());
            bottom = bottom.max(p.y());
            left = left.min(p.x());
            right = right.max(p.x());
            i = i + 1;
        }
        proof {
            let jl = choose|j: int| 0 <= j < points@.len() && points@[j].xv() == left.v();
            let jr = choose|j: int| 0 <= j < points@.len() && points@[j].xv() == right.v();
            let jt = choose|j: int| 0 <= j < points@.len() && points@[j].yv() == top.v();
            let jb = choose|j: int| 0 <= j < points@.len() && points@[j].yv() == bottom.v();
            assert(fits::<T>(points@[jr].xv() - points@[jl].xv()));
            assert(fits::<T>(points@[jb].yv() - points@[jt].yv()));
        }
        Rect2::from_offsets(left, top, right, bottom)
    }
}

impl<T: Scalar> Default for Rect2<T> {
    /// The rectangle at the origin with zero size.
    fn default() -> (r: Self)
        ensures
            r.px() == 0,
            r.py() == 0,
            r.sx() == 0,
            r.sy() == 0,
    {
        Rect2(Vec2::default(), Vec2::default())
    }
}

} // verus!
