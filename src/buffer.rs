//! The cube buffer and the fold of a stream of stars into it.
use vstd::prelude::*;
use crate::address::{address, address_spec, lemma_address_in_range, valid_resolution};
use crate::cube::{lemma_project_wf, project, project_spec, Direction};
use crate::pixel::{combine_spec, empty_pixel, PixelRecord};

verus! {

/// What the buffer needs of one star: its direction from the viewer, the
/// irradiance it delivers there (fixed-point units) and its temperature (kelvin).
#[derive(Debug, Clone, Copy, PartialEq, Eq, Structural)]
pub struct StarSample {
    pub direction: Direction,
    pub irradiance: u64,
    pub temperature: u32,
}

/// Number of pixels of a cube of edge `resolution`: six square faces.
pub open spec fn pixel_count(resolution: u32) -> nat {
    (6 * resolution * resolution) as nat
}

/// A buffer in which no star has landed yet.
pub open spec fn empty_buffer(resolution: u32) -> Seq<PixelRecord> {
    Seq::new(pixel_count(resolution), |i: int| empty_pixel())
}

/// The index of the pixel that a direction lands on.
pub open spec fn star_index(resolution: u32, direction: Direction) -> int {
    let (face, uv) = project_spec(resolution, direction);
    address_spec(resolution, face, uv)
}

/// The pixels after one more star.
pub open spec fn add_star_spec(resolution: u32, pixels: Seq<PixelRecord>, star: StarSample) -> Seq<
    PixelRecord,
> {
    let i = star_index(resolution, star.direction);
    pixels.update(i, combine_spec(pixels[i], star.irradiance, star.temperature))
}

/// The pixels after a sequence of stars, folded in one by one in order.
pub open spec fn render_spec(resolution: u32, stars: Seq<StarSample>) -> Seq<PixelRecord>
    decreases stars.len(),
{
    if stars.len() == 0 {
        empty_buffer(resolution)
    } else {
        add_star_spec(resolution, render_spec(resolution, stars.drop_last()), stars.last())
    }
}

/// Every direction lands on a pixel of the buffer.
pub proof fn lemma_star_index_in_range(resolution: u32, direction: Direction)
    requires
        valid_resolution(resolution),
    ensures
        0 <= star_index(resolution, direction) < pixel_count(resolution),
{
    let (face, uv) = project_spec(resolution, direction);
    lemma_project_wf(resolution, direction);
    lemma_address_in_range(resolution, face, uv);
}

/// The buffer keeps its size under any sequence of stars.
pub proof fn lemma_render_len(resolution: u32, stars: Seq<StarSample>)
    requires
        valid_resolution(resolution),
    ensures
        render_spec(resolution, stars).len() == pixel_count(resolution),
    decreases stars.len(),
{
    if stars.len() > 0 {
        lemma_render_len(resolution, stars.drop_last());
        lemma_star_index_in_range(resolution, stars.last().direction);
    }
}

/// The buffer is a function of the resolution and of the sequence of stars
/// alone: the same stars, in the same order, give the same pixels, bit for bit.
pub proof fn lemma_render_reproducible(resolution: u32, first: Seq<StarSample>, second: Seq<StarSample>)
    requires
        first == second,
    ensures
        render_spec(resolution, first) == render_spec(resolution, second),
{
}

/// The six faces of a cube map, stacked as bands of `resolution` rows of
/// `resolution` pixels each.
pub struct CubeBuffer {
    pub resolution: u32,
    pub pixels: Vec<PixelRecord>,
}

impl CubeBuffer {
    /// The buffer holds one record for each pixel of the six faces.
    pub open spec fn wf(&self) -> bool {
        &&& valid_resolution(self.resolution)
        &&& self.pixels@.len() == pixel_count(self.resolution)
    }

    /// A buffer of edge `resolution` in which no star has landed.
    pub fn new(resolution: u32) -> (r: CubeBuffer)
        requires
            valid_resolution(resolution),
        ensures
            r.wf(),
            r.resolution == resolution,
            r.pixels@ == empty_buffer(resolution),
    {
        assert(6 * resolution <= 6 * resolution * resolution) by (nonlinear_arith)
            requires
                resolution >= 1,
        ;
        let count: usize = 6 * (resolution as usize) * (resolution as usize);
        let mut pixels: Vec<PixelRecord> = Vec::with_capacity(count);
        let mut i: usize = 0;
        while i < count
            invariant
                count == pixel_count(resolution),
                i <= count,
                pixels@ == Seq::new(i as nat, |j: int| empty_pixel()),
            decreases count - i,
        {
            pixels.push(PixelRecord::empty());
            i = i + 1;
            assert(pixels@ =~= Seq::new(i as nat, |j: int| empty_pixel()));
        }
        assert(pixels@ =~= empty_buffer(resolution));
        CubeBuffer { resolution, pixels }
    }

    /// The index of the pixel that a direction lands on.
    pub fn index_of(&self, direction: Direction) -> (r: usize)
        requires
            self.wf(),
        ensures
            r == star_index(self.resolution, direction),
            r < self.pixels@.len(),
    {
        let (face, uv) = project(self.resolution, direction);
        address(self.resolution, face, uv)
    }

    /// Folds one star into the pixel its direction lands on.
    pub fn add_star(&mut self, star: StarSample)
        requires
            old(self).wf(),
        ensures
            final(self).wf(),
            final(self).resolution == old(self).resolution,
            final(self).pixels@ == add_star_spec(old(self).resolution, old(self).pixels@, star),
    {
        let index = self.index_of(star.direction);
        crate::pixel::accumulate(&mut self.pixels, index, star.irradiance, star.temperature);
    }

    /// The record of one pixel.
    pub fn pixel(&self, index: usize) -> (r: PixelRecord)
        requires
            index < self.pixels@.len(),
        ensures
            r == self.pixels@[index as int],
    {
        self.pixels[index]
    }
}

/// Folds a sequence of stars, in order, into a fresh buffer of edge `res`.
pub fn render(res: u32, stars: &Vec<StarSample>) -> (r: CubeBuffer)
    requires
        valid_resolution(res),
    ensures
        r.wf(),
        r.resolution == res,
        r.pixels@ == render_spec(res, stars@),
{
    let mut buffer = CubeBuffer::new(res);
    let mut i: usize = 0;
    while i < stars.len()
        invariant
            buffer.wf(),
            buffer.resolution == res,
            i <= stars@.len(),
            buffer.pixels@ == render_spec(res, stars@.take(i as int)),
        decreases stars@.len() - i,
    {
        buffer.add_star(stars[i]);
        assert(stars@.take(i + 1).drop_last() =~= stars@.take(i as int));
        i = i + 1;
    }
    assert(stars@.take(stars@.len() as int) =~= stars@);
    buffer
}

} // verus!
