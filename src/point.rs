use vstd::prelude::*;

verus! {

/// A value of four signed 32-bit components.
///
/// It has no identity beyond its fields: two points with equal fields are
/// interchangeable. It is deliberately not `Copy`: passing a point by value
/// moves it, and the binding it came from is used up.
#[derive(Clone, Debug, PartialEq, Eq, Structural)]
pub struct Point {
    pub x: i32,
    pub y: i32,
    pub z: i32,
    pub w: i32,
}

/// The fixed, read-only sample point (1, 2, 3, 4) shared by the whole program.
pub fn shared_point() -> (r: Point)
    ensures
        r == (Point { x: 1, y: 2, z: 3, w: 4 }),
{
    Point { x: 1, y: 2, z: 3, w: 4 }
}

/// Whether every component of the exact sum of `a` and `b` is an `i32`.
pub open spec fn sum_fits(a: Point, b: Point) -> bool {
    &&& i32::MIN <= a.x + b.x <= i32::MAX
    &&& i32::MIN <= a.y + b.y <= i32::MAX
    &&& i32::MIN <= a.z + b.z <= i32::MAX
    &&& i32::MIN <= a.w + b.w <= i32::MAX
}

/// Whether `r` is the component-wise sum of `a` and `b`, each component
/// taken as a mathematical integer.
pub open spec fn is_sum(r: Point, a: Point, b: Point) -> bool {
    &&& r.x == a.x + b.x
    &&& r.y == a.y + b.y
    &&& r.z == a.z + b.z
    &&& r.w == a.w + b.w
}

/// Adds two borrowed points component by component; both stay usable.
///
/// Overflow is ruled out by the precondition: each component sum must be an
/// `i32`, and then the result is that exact sum.
pub fn addr(a: &Point, b: &Point) -> (r: Point)
    requires
        sum_fits(*a, *b),
    ensures
        is_sum(r, *a, *b),
{
    Point { x: a.x + b.x, y: a.y + b.y, z: a.z + b.z, w: a.w + b.w }
}

/// Adds two points component by component, taking ownership of both.
///
/// Both operands are moved in and dropped on return, so the caller's
/// bindings cannot be used afterwards.
///
/// The result is the same component-wise sum that `addr` gives on the same
/// operands, under the same precondition.
pub fn add(a: Point, b: Point) -> (r: Point)
    requires
        sum_fits(a, b),
    ensures
        is_sum(r, a, b),
{
    Point { x: a.x + b.x, y: a.y + b.y, z: a.z + b.z, w: a.w + b.w }
}

/// Points are plain values: two points built from the same four components
/// are equal.
pub proof fn lemma_equal_fields_equal_points(a: Point, b: Point)
    requires
        a.x == b.x,
        a.y == b.y,
        a.z == b.z,
        a.w == b.w,
    ensures
        a == b,
{
}

/// The component-wise sum determines its result: whatever `addr` and `add`
/// return on the same operands is one and the same point.
pub proof fn lemma_sum_is_unique(a: Point, b: Point, r1: Point, r2: Point)
    requires
        is_sum(r1, a, b),
        is_sum(r2, a, b),
    ensures
        r1 == r2,
{
}

/// Adding the sum of `p` and `q` to itself doubles each component of that
/// sum.
pub proof fn lemma_sum_of_sums_doubles(p: Point, q: Point, s: Point, d: Point)
    requires
        is_sum(s, p, q),
        is_sum(d, s, s),
    ensures
        d.x == 2 * (p.x + q.x),
        d.y == 2 * (p.y + q.y),
        d.z == 2 * (p.z + q.z),
        d.w == 2 * (p.w + q.w),
{
}

} // verus!
