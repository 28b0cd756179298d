use vstd::prelude::*;

verus! {

/// A colour, either a grey level or red, green and blue levels.
#[derive(Debug, Copy, Clone, PartialEq, Eq, Structural)]
pub enum Colour {
    Grey(u8),
    Rgb(u8, u8, u8),
}

/// Luma of an RGB triple with the Rec. 709 weights, rounded down, computed
/// exactly. An evaluation of the same weights in `f32` can fall just below an
/// integer and then gives one less.
pub open spec fn luma(red: int, green: int, blue: int) -> int {
    (2126 * red + 7152 * green + 722 * blue) / 10000
}

pub open spec fn inverted(level: u8) -> u8 {
    (255 - level) as u8
}

pub open spec fn shifted(level: u8, drift: u8) -> u8 {
    if level > drift {
        (level - drift) as u8
    } else {
        0
    }
}

impl Colour {
    pub open spec fn spec_grey(self) -> int {
        match self {
            Colour::Grey(level) => level as int,
            Colour::Rgb(red, green, blue) => luma(red as int, green as int, blue as int),
        }
    }

    pub open spec fn spec_rgb(self) -> Seq<u8> {
        match self {
            Colour::Grey(level) => seq![level, level, level],
            Colour::Rgb(red, green, blue) => seq![red, green, blue],
        }
    }

    pub open spec fn spec_invert(self) -> Colour {
        match self {
            Colour::Grey(level) => Colour::Grey(inverted(level)),
            Colour::Rgb(red, green, blue) => Colour::Rgb(inverted(red), inverted(green), inverted(blue)),
        }
    }

    pub open spec fn spec_shift(self, drift: u8) -> Colour {
        match self {
            Colour::Grey(level) => Colour::Grey(shifted(level, drift)),
            Colour::Rgb(red, green, blue) => Colour::Rgb(
                shifted(red, drift),
                shifted(green, drift),
                shifted(blue, drift),
            ),
        }
    }

    /// The grey level of the colour.
    pub fn grey(&self) -> (r: u8)
        ensures
            r == self.spec_grey(),
    {
        match *self {
            Colour::Grey(level) => level,
            Colour::Rgb(red, green, blue) => {
                let w: u32 = 2126 * (red as u32) + 7152 * (green as u32) + 722 * (blue as u32);
                (w / 10000) as u8
            },
        }
    }

    /// The red, green and blue levels of the colour.
    pub fn rgb(&self) -> (r: [u8; 3])
        ensures
            r@ == self.spec_rgb(),
    {
        match *self {
            Colour::Grey(level) => {
                let r = [level, level, level];
                assert(r@ =~= seq![level, level, level]);
                r
            },
            Colour::Rgb(red, green, blue) => {
                let r = [red, green, blue];
                assert(r@ =~= seq![red, green, blue]);
                r
            },
        }
    }

    /// The colour whose red, green and blue levels are the first three bytes of `rgb`.
    pub fn from_rgb(rgb: &[u8]) -> (r: Colour)
        requires
            rgb@.len() >= 3,
        ensures
            r == Colour::Rgb(rgb@[0], rgb@[1], rgb@[2]),
    {
        Colour::Rgb(rgb[0], rgb[1], rgb[2])
    }

    /// The colour with `f` applied to each of its levels.
    pub fn apply<F>(&self, f: F) -> (r: Colour) where F: Fn(u8) -> u8
        requires
            forall|v: u8| f.requires((v,)),
        ensures
            match (*self, r) {
                (Colour::Grey(l), Colour::Grey(m)) => f.ensures((l,), m),
                (Colour::Rgb(a, b, c), Colour::Rgb(x, y, z)) => f.ensures((a,), x) && f.ensures(
                    (b,),
                    y,
                ) && f.ensures((c,), z),
                _ => false,
            },
    {
        match *self {
            Colour::Grey(level) => Colour::Grey(f(level)),
            Colour::Rgb(red, green, blue) => Colour::Rgb(f(red), f(green), f(blue)),
        }
    }

    /// Replaces each level by its complement to 255.
    pub fn invert(&mut self)
        ensures
            *final(self) == old(self).spec_invert(),
    {
        match *self {
            Colour::Grey(level) => {
                *self = Colour::Grey(255 - level);
            },
            Colour::Rgb(red, green, blue) => {
                *self = Colour::Rgb(255 - red, 255 - green, 255 - blue);
            },
        }
    }

    /// Darkens each level by `drift`, stopping at zero.
    pub fn shift(&mut self, drift: u8)
        ensures
            *final(self) == old(self).spec_shift(drift),
    {
        match *self {
            Colour::Grey(level) => {
                *self = Colour::Grey(level.saturating_sub(drift));
            },
            Colour::Rgb(red, green, blue) => {
                *self = Colour::Rgb(
                    red.saturating_sub(drift),
                    green.saturating_sub(drift),
                    blue.saturating_sub(drift),
                );
            },
        }
    }
}

} // verus!
