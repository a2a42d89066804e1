use vstd::prelude::*;
use vstd::std_specs::ops::MulSpec;

use crate::base::color::Color;
use crate::base::{mul3, mul3_req, mul_total};
use crate::ray::Ray;

verus! {

/// What the scene did with one traced ray.
pub enum Bounce<T> {
    /// The ray met a surface that sent light on along `scattered`, filtered
    /// by `attenuation`.
    Scattered { scattered: Ray<T>, attenuation: Color<T> },
    /// The ray met a surface that absorbed it.
    Absorbed,
    /// The ray met nothing; `background` is the light from its direction.
    Escaped { background: Color<T> },
}

/// The light an estimate arrives at: none at all, or a color.
pub enum Radiance<T> {
    Black,
    Light(Color<T>),
}

/// What an estimate asks for next: a ray to trace, or nothing more.
pub enum PathStep<T> {
    Trace(Ray<T>),
    Done(Radiance<T>),
}

/// A radiance estimate in progress along one light path: how many more rays
/// it may trace, and the attenuations of the surfaces met so far, nearest to
/// the eye first.
pub struct Path<T> {
    pub depth: u16,
    pub attenuations: Vec<Color<T>>,
}

/// The light that reaches the eye when `background` arrives through surfaces
/// with attenuations `atts`: `atts[0]·(atts[1]·(…·background))`.
pub open spec fn filtered<T: Copy + core::ops::Mul<T, Output = T>>(
    atts: Seq<Color<T>>,
    background: Color<T>,
) -> Color<T>
    decreases atts.len(),
{
    if atts.len() == 0 {
        background
    } else {
        Color(mul3(atts[0].0, filtered(atts.drop_first(), background).0))
    }
}

/// Every product of `filtered(atts, background)` is defined: on the values
/// that it goes through where the scalar's arithmetic is exact, and on all
/// values otherwise.
pub open spec fn filtered_req<T: Copy + core::ops::Mul<T, Output = T>>(
    atts: Seq<Color<T>>,
    background: Color<T>,
) -> bool {
    ||| T::obeys_mul_spec() && forall|i: int|
        0 <= i < atts.len() ==> #[trigger] mul3_req(
            atts[i].0,
            filtered(atts.subrange(i + 1, atts.len() as int), background).0,
        )
    ||| mul_total::<T>()
}

proof fn lemma_filtered_suffix<T: Copy + core::ops::Mul<T, Output = T>>(
    atts: Seq<Color<T>>,
    background: Color<T>,
    i: int,
)
    requires
        0 <= i < atts.len(),
    ensures
        filtered(atts.subrange(i, atts.len() as int), background) == Color(
            mul3(atts[i].0, filtered(atts.subrange(i + 1, atts.len() as int), background).0),
        ),
{
    assert(atts.subrange(i, atts.len() as int).drop_first() =~= atts.subrange(
        i + 1,
        atts.len() as int,
    ));
}

impl<T: Copy + core::ops::Mul<T, Output = T>> Path<T> {
    /// An estimate that may trace up to `depth` rays.
    pub fn new(depth: u16) -> (r: Path<T>)
        ensures
            r.depth == depth,
            r.attenuations@ == Seq::<Color<T>>::empty(),
    {
        Path { depth, attenuations: Vec::new() }
    }

    /// The first step of the estimate for `ray`: with no depth left the
    /// answer is black, whatever the scene holds; otherwise `ray` is traced.
    pub fn begin(&self, ray: Ray<T>) -> (r: PathStep<T>)
        ensures
            self.depth == 0 ==> r == PathStep::<T>::Done(Radiance::Black),
            self.depth > 0 ==> r == PathStep::Trace(ray),
    {
        if self.depth == 0 {
            PathStep::Done(Radiance::Black)
        } else {
            PathStep::Trace(ray)
        }
    }

    /// Takes what the scene did with the ray last traced. A scattered ray
    /// costs one unit of depth and is traced next, unless the depth is spent,
    /// which makes the answer black; an absorbed ray makes it black; an
    /// escaped one makes it the background filtered by every attenuation met.
    pub fn advance(&mut self, bounce: Bounce<T>) -> (r: PathStep<T>)
        requires
            old(self).depth > 0,
            bounce matches Bounce::Escaped { background } ==> filtered_req(
                old(self).attenuations@,
                background,
            ),
        ensures
            match bounce {
                Bounce::Scattered { scattered, attenuation } => {
                    &&& final(self).depth == old(self).depth - 1
                    &&& final(self).attenuations@ == old(self).attenuations@.push(attenuation)
                    &&& final(self).depth == 0 ==> r == PathStep::<T>::Done(Radiance::Black)
                    &&& final(self).depth > 0 ==> r == PathStep::Trace(scattered)
                },
                Bounce::Absorbed => {
                    &&& *final(self) == *old(self)
                    &&& r == PathStep::<T>::Done(Radiance::Black)
                },
                Bounce::Escaped { background } => {
                    &&& *final(self) == *old(self)
                    &&& r matches PathStep::Done(Radiance::Light(c))
                    &&& T::obeys_mul_spec() ==> r == PathStep::Done(
                        Radiance::Light(filtered(old(self).attenuations@, background)),
                    )
                },
            },
    {
        match bounce {
            Bounce::Scattered { scattered, attenuation } => {
                self.attenuations.push(attenuation);
                self.depth = self.depth - 1;
                if self.depth == 0 {
                    PathStep::Done(Radiance::Black)
                } else {
                    PathStep::Trace(scattered)
                }
            },
            Bounce::Absorbed => PathStep::Done(Radiance::Black),
            Bounce::Escaped { background } => {
                let atts = &self.attenuations;
                let n = atts.len();
                let mut c = background;
                let mut i: usize = n;
                while i > 0
                    invariant
                        0 <= i <= n == atts@.len(),
                        filtered_req(atts@, background),
                        T::obeys_mul_spec() ==> c == filtered(
                            atts@.subrange(i as int, n as int),
                            background,
                        ),
                    decreases i,
                {
                    proof {
                        lemma_filtered_suffix(atts@, background, i - 1);
                    }
                    c = atts[i - 1] * c;
                    i = i - 1;
                }
                proof {
                    assert(atts@.subrange(0, n as int) =~= atts@);
                }
                PathStep::Done(Radiance::Light(c))
            },
        }
    }
}

} // verus!
