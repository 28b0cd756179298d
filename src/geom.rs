use vstd::prelude::*;

verus! {

/// A point of the touch screen, in device pixels.
#[derive(Debug, Copy, Clone, PartialEq, Eq, Structural, Default)]
pub struct Point {
    pub x: i32,
    pub y: i32,
}

/// One of the four axis-aligned directions; `y` grows downwards.
#[derive(Debug, Copy, Clone, PartialEq, Eq, Structural)]
pub enum Dir {
    Up,
    Down,
    Left,
    Right,
}

/// One of the four diagonal directions; `y` grows downwards.
#[derive(Debug, Copy, Clone, PartialEq, Eq, Structural)]
pub enum DiagDir {
    UpLeft,
    UpRight,
    DownLeft,
    DownRight,
}

/// The axis along which a two-finger gesture happens.
#[derive(Debug, Copy, Clone, PartialEq, Eq, Structural)]
pub enum Axis {
    Horizontal,
    Vertical,
    Diagonal,
}

/// Direction along a line, as for page turn buttons.
#[derive(Debug, Copy, Clone, PartialEq, Eq, Structural)]
pub enum LinearDir {
    Backward,
    Forward,
}

impl Point {
    pub fn new(x: i32, y: i32) -> (r: Point)
        ensures
            r.x == x,
            r.y == y,
    {
        Point { x, y }
    }
}

pub open spec fn abs(v: int) -> int {
    if v < 0 {
        -v
    } else {
        v
    }
}

/// Division of `a` by a positive `b`, rounding towards zero as Rust's `/` does.
pub open spec fn trunc_div(a: int, b: int) -> int {
    if a >= 0 {
        a / b
    } else {
        -((-a) / b)
    }
}

/// Axis-aligned direction of the vector `(x, y)`: the dominant component decides,
/// a tie goes to the vertical axis.
pub open spec fn dir_of(x: int, y: int) -> Dir {
    if abs(x) > abs(y) {
        if x >= 0 {
            Dir::Right
        } else {
            Dir::Left
        }
    } else {
        if y >= 0 {
            Dir::Down
        } else {
            Dir::Up
        }
    }
}

/// Diagonal direction of the vector `(x, y)`, from the signs of its components.
pub open spec fn diag_dir_of(x: int, y: int) -> DiagDir {
    if x >= 0 {
        if y >= 0 {
            DiagDir::DownRight
        } else {
            DiagDir::UpRight
        }
    } else {
        if y >= 0 {
            DiagDir::DownLeft
        } else {
            DiagDir::UpLeft
        }
    }
}

/// The vector `(x, y)` is closer to an axis than to a diagonal:
/// the ratio `|x / y|` lies outside `[1/2, 2]`. The null vector is not.
pub open spec fn is_axis_aligned(x: int, y: int) -> bool {
    2 * abs(x) < abs(y) || abs(x) > 2 * abs(y)
}

pub const VEC_BOUND: i128 = 0x1_0000_0000_0000_0000_0000_0000_0000;

/// Both components of a vector handled by the direction helpers stay below `VEC_BOUND`.
pub open spec fn small_vec(x: int, y: int) -> bool {
    abs(x) < VEC_BOUND && abs(y) < VEC_BOUND
}

fn abs_i128(v: i128) -> (r: i128)
    requires
        abs(v as int) < VEC_BOUND,
    ensures
        r == abs(v as int),
{
    if v < 0 {
        -v
    } else {
        v
    }
}

/// Axis-aligned direction of a vector.
pub fn vec_dir(x: i128, y: i128) -> (r: Dir)
    requires
        small_vec(x as int, y as int),
    ensures
        r == dir_of(x as int, y as int),
{
    if abs_i128(x) > abs_i128(y) {
        if x >= 0 {
            Dir::Right
        } else {
            Dir::Left
        }
    } else {
        if y >= 0 {
            Dir::Down
        } else {
            Dir::Up
        }
    }
}

/// Diagonal direction of a vector.
pub fn vec_diag_dir(x: i128, y: i128) -> (r: DiagDir)
    ensures
        r == diag_dir_of(x as int, y as int),
{
    if x >= 0 {
        if y >= 0 {
            DiagDir::DownRight
        } else {
            DiagDir::UpRight
        }
    } else {
        if y >= 0 {
            DiagDir::DownLeft
        } else {
            DiagDir::UpLeft
        }
    }
}

/// Whether a vector is axis-aligned rather than diagonal.
pub fn vec_is_axis_aligned(x: i128, y: i128) -> (r: bool)
    requires
        small_vec(x as int, y as int),
    ensures
        r == is_axis_aligned(x as int, y as int),
{
    let ax = abs_i128(x);
    let ay = abs_i128(y);
    2 * ax < ay || ax > 2 * ay
}

impl Dir {
    pub open spec fn spec_opposite(self) -> Dir {
        match self {
            Dir::Up => Dir::Down,
            Dir::Down => Dir::Up,
            Dir::Left => Dir::Right,
            Dir::Right => Dir::Left,
        }
    }

    pub open spec fn spec_axis(self) -> Axis {
        match self {
            Dir::Up | Dir::Down => Axis::Vertical,
            Dir::Left | Dir::Right => Axis::Horizontal,
        }
    }

    pub fn opposite(self) -> (r: Dir)
        ensures
            r == self.spec_opposite(),
    {
        match self {
            Dir::Up => Dir::Down,
            Dir::Down => Dir::Up,
            Dir::Left => Dir::Right,
            Dir::Right => Dir::Left,
        }
    }

    pub fn axis(self) -> (r: Axis)
        ensures
            r == self.spec_axis(),
    {
        match self {
            Dir::Up | Dir::Down => Axis::Vertical,
            Dir::Left | Dir::Right => Axis::Horizontal,
        }
    }
}

impl DiagDir {
    pub open spec fn spec_opposite(self) -> DiagDir {
        match self {
            DiagDir::UpLeft => DiagDir::DownRight,
            DiagDir::UpRight => DiagDir::DownLeft,
            DiagDir::DownLeft => DiagDir::UpRight,
            DiagDir::DownRight => DiagDir::UpLeft,
        }
    }

    pub fn opposite(self) -> (r: DiagDir)
        ensures
            r == self.spec_opposite(),
    {
        match self {
            DiagDir::UpLeft => DiagDir::DownRight,
            DiagDir::UpRight => DiagDir::DownLeft,
            DiagDir::DownLeft => DiagDir::UpRight,
            DiagDir::DownRight => DiagDir::UpLeft,
        }
    }
}

impl LinearDir {
    pub open spec fn spec_opposite(self) -> LinearDir {
        match self {
            LinearDir::Backward => LinearDir::Forward,
            LinearDir::Forward => LinearDir::Backward,
        }
    }

    pub fn opposite(self) -> (r: LinearDir)
        ensures
            r == self.spec_opposite(),
    {
        match self {
            LinearDir::Backward => LinearDir::Forward,
            LinearDir::Forward => LinearDir::Backward,
        }
    }
}

/// Whole pixels spanned by `mm` millimetres on a screen of `dpi` dots per inch:
/// the largest count that does not exceed `mm * dpi / 25.4`.
pub open spec fn spec_mm_to_px(mm: int, dpi: int) -> int {
    (mm * dpi * 10) / 254
}

/// Converts a length in millimetres to device pixels, rounding down.
pub fn mm_to_px(mm: u16, dpi: u16) -> (r: u32)
    ensures
        r == spec_mm_to_px(mm as int, dpi as int),
{
    let m: u64 = mm as u64;
    let d: u64 = dpi as u64;
    assert(m * d * 10 <= 0xFFFF * 0xFFFF * 10) by (nonlinear_arith)
        requires
            m <= 0xFFFF,
            d <= 0xFFFF,
    ;
    let p: u64 = m * d;
    ((p * 10) / 254) as u32
}

} // verus!
