//! The renderer's state: the full-size and the preview pixel buffer, the canvas with its
//! viewport, the configured fractal, and the render passes that fill the buffers.

use vstd::prelude::*;
use vstd::arithmetic::div_mod::{
    lemma_basic_div,
    lemma_div_by_multiple,
    lemma_div_denominator,
    lemma_div_is_ordered,
    lemma_div_pos_is_pos,
    lemma_fundamental_div_mod,
    lemma_fundamental_div_mod_converse_mod,
    lemma_mod_bound,
};
use crate::domain::{column_of, row_of, Domain};
use crate::fractals::{Colorization, Fractal, Options, Variant};
use crate::pixel::Pixel;

verus! {

/// The state of a renderer as contracts see it.
pub struct FrustalView<V, K> {
    /// The full-size buffer, row by row.
    pub data: Seq<Pixel>,
    /// The preview buffer.
    pub preview_data: Seq<Pixel>,
    pub domain: Domain<V>,
    pub fractal: Fractal,
    pub options: Options<K>,
    /// The factor by which the preview is coarser than the canvas.
    pub preview_resolution: nat,
}

/// The length of the preview buffer of a canvas of `pixels` pixels: one sample for every
/// full block of `resolution` by `resolution` pixels.
pub open spec fn preview_length(pixels: nat, resolution: nat) -> nat {
    pixels / (resolution * resolution)
}

/// A buffer of `len` pixels that have not been rendered.
pub open spec fn blank(len: nat) -> Seq<Pixel> {
    Seq::new(len, |i: int| Pixel { r: 0, g: 0, b: 0, a: 0 })
}

/// The number of preview samples in one row: every `resolution`-th column, from the first.
pub open spec fn sample_columns(width: nat, resolution: nat) -> nat {
    if width % resolution == 0 {
        width / resolution
    } else {
        width / resolution + 1
    }
}

/// Pixel `i` belongs to the stripe that a partial render with `skip` and `index` fills.
pub open spec fn in_stripe(i: int, skip: int, index: int) -> bool {
    (i + index) % skip == 0
}

impl<V, K> FrustalView<V, K> {
    /// The buffers have the lengths that the canvas and the preview resolution ask for, the
    /// options are valid, and the fractal is the one that the options select.
    pub open spec fn wf(self) -> bool {
        &&& self.preview_resolution > 0
        &&& self.data.len() == self.domain.width * self.domain.height
        &&& self.preview_data.len() == preview_length(self.data.len(), self.preview_resolution)
        &&& self.options.valid()
        &&& self.options.variant.selects(self.fractal)
    }

    /// `p` is a pixel that `shade` gives for the pixel at `(x, y)` in this state.
    pub open spec fn shades<F: Fn(&Domain<V>, &Fractal, &Options<K>, usize, usize) -> Pixel>(
        self,
        shade: F,
        x: int,
        y: int,
        p: Pixel,
    ) -> bool {
        call_ensures(shade, (&self.domain, &self.fractal, &self.options, x as usize, y as usize), p)
    }

    /// `shade` may be called for every pixel of the canvas in this state.
    pub open spec fn accepts<F: Fn(&Domain<V>, &Fractal, &Options<K>, usize, usize) -> Pixel>(
        self,
        shade: F,
    ) -> bool {
        forall|x: usize, y: usize|
            x < self.domain.width && y < self.domain.height ==> #[trigger] call_requires(
                shade,
                (&self.domain, &self.fractal, &self.options, x, y),
            )
    }

    /// The column of preview sample `j`.
    pub open spec fn sample_x(self, j: int) -> int {
        (j % sample_columns(self.domain.width as nat, self.preview_resolution) as int)
            * self.preview_resolution
    }

    /// The row of preview sample `j`.
    pub open spec fn sample_y(self, j: int) -> int {
        (j / sample_columns(self.domain.width as nat, self.preview_resolution) as int)
            * self.preview_resolution
    }
}

/// A renderer: two pixel buffers, the canvas with its viewport, and the configuration.
///
/// `V` is the caller's description of the viewport and `K` holds the caller's real-valued
/// settings. The renderer stores both and hands them to the function that shades a pixel.
pub struct Frustal<V, K> {
    data: Vec<Pixel>,
    preview_data: Vec<Pixel>,
    domain: Domain<V>,
    fractal: Fractal,
    options: Options<K>,
    preview_resolution: usize,
}

impl<V, K> View for Frustal<V, K> {
    type V = FrustalView<V, K>;

    closed spec fn view(&self) -> FrustalView<V, K> {
        FrustalView {
            data: self.data@,
            preview_data: self.preview_data@,
            domain: self.domain,
            fractal: self.fractal,
            options: self.options,
            preview_resolution: self.preview_resolution as nat,
        }
    }
}

/// A buffer of `len` pixels, none of them rendered.
fn blank_buffer(len: usize) -> (buffer: Vec<Pixel>)
    ensures
        buffer@ == blank(len as nat),
{
    let mut buffer: Vec<Pixel> = Vec::new();
    let mut i: usize = 0;
    while i < len
        invariant
            i <= len,
            buffer@ == blank(i as nat),
        decreases len - i,
    {
        buffer.push(Pixel::void());
        i += 1;
    }
    buffer
}

/// The length of the preview buffer for a canvas of `pixels` pixels.
fn preview_len(pixels: usize, resolution: usize) -> (len: usize)
    requires
        resolution > 0,
    ensures
        len == preview_length(pixels as nat, resolution as nat),
{
    proof {
        lemma_div_denominator(pixels as int, resolution as int, resolution as int);
    }
    pixels / resolution / resolution
}

/// The stripes of a partial render divide the canvas: with a given `skip`, every pixel
/// belongs to the stripe of exactly one `index` below `skip`. So calls with `index` running
/// through `0..skip` render every pixel once, and none twice.
pub proof fn lemma_stripes_partition(i: int, skip: int)
    requires
        0 <= i,
        0 < skip,
    ensures
        exists|index: int| 0 <= index < skip && #[trigger] in_stripe(i, skip, index),
        forall|a: int, b: int|
            0 <= a < skip && 0 <= b < skip && #[trigger] in_stripe(i, skip, a) && #[trigger] in_stripe(
                i,
                skip,
                b,
            ) ==> a == b,
{
    let rest = i % skip;
    lemma_mod_bound(i, skip);
    let index = if rest == 0 {
        0
    } else {
        skip - rest
    };
    assert(in_stripe(i, skip, index)) by {
        lemma_fundamental_div_mod(i, skip);
        if rest != 0 {
            let q = i / skip;
            assert(i + index == (q + 1) * skip + 0) by (nonlinear_arith)
                requires
                    i == skip * q + rest,
                    index == skip - rest,
            ;
            lemma_fundamental_div_mod_converse_mod(i + index, skip, q + 1, 0);
        }
    }
    assert forall|a: int, b: int|
        0 <= a < skip && 0 <= b < skip && #[trigger] in_stripe(i, skip, a) && #[trigger] in_stripe(
            i,
            skip,
            b,
        ) implies a == b by {
        lemma_fundamental_div_mod(i + a, skip);
        lemma_fundamental_div_mod(i + b, skip);
        let qa = (i + a) / skip;
        let qb = (i + b) / skip;
        assert(a - b == skip * (qa - qb)) by (nonlinear_arith)
            requires
                i + a == skip * qa,
                i + b == skip * qb,
        ;
        assert(qa == qb) by (nonlinear_arith)
            requires
                a - b == skip * (qa - qb),
                -skip < a - b < skip,
                skip > 0,
        ;
    }
}

/// Every preview sample lies on the canvas: sample `j` of a preview of
/// `preview_length(width * height, resolution)` samples has its column below `width` and
/// its row below `height`.
proof fn lemma_sample_on_canvas(j: int, width: nat, height: nat, resolution: nat)
    requires
        resolution > 0,
        0 <= j < preview_length(width * height, resolution),
    ensures
        sample_columns(width, resolution) > 0,
        0 <= (j % sample_columns(width, resolution) as int) * resolution < width,
        0 <= (j / sample_columns(width, resolution) as int) * resolution < height,
{
    let r = resolution as int;
    let w = width as int;
    let h = height as int;
    let columns = sample_columns(width, resolution) as int;
    let rows = sample_columns(height, resolution) as int;
    let block = r * r;
    assert(block > 0) by (nonlinear_arith)
        requires
            r > 0,
            block == r * r,
    ;
    // A preview with a sample has a canvas of at least one block.
    assert(w > 0 && h > 0) by {
        if w * h < block {
            lemma_basic_div(w * h, block);
        }
        assert(w * h >= block);
        assert(w > 0 && h > 0) by (nonlinear_arith)
            requires
                w * h > 0,
                w >= 0,
                h >= 0,
        ;
    }
    // The samples of one row reach the last column and no further, and so do the rows.
    lemma_fundamental_div_mod(w, r);
    lemma_fundamental_div_mod(h, r);
    lemma_mod_bound(w, r);
    lemma_mod_bound(h, r);
    assert(columns > 0 && (columns - 1) * r < w <= columns * r) by (nonlinear_arith)
        requires
            r > 0,
            w > 0,
            w == r * (w / r) + w % r,
            0 <= w % r < r,
            columns == (if w % r == 0 {
                w / r
            } else {
                w / r + 1
            }),
    ;
    assert(rows > 0 && (rows - 1) * r < h <= rows * r) by (nonlinear_arith)
        requires
            r > 0,
            h > 0,
            h == r * (h / r) + h % r,
            0 <= h % r < r,
            rows == (if h % r == 0 {
                h / r
            } else {
                h / r + 1
            }),
    ;
    // There are no more samples than columns times rows.
    assert(w * h <= (columns * rows) * block) by (nonlinear_arith)
        requires
            0 < w <= columns * r,
            0 < h <= rows * r,
            block == r * r,
    ;
    lemma_div_is_ordered(w * h, (columns * rows) * block, block);
    lemma_div_by_multiple(columns * rows, block);
    assert(j < columns * rows);
    lemma_fundamental_div_mod(j, columns);
    lemma_mod_bound(j, columns);
    lemma_div_pos_is_pos(j, columns);
    let q = j / columns;
    let m = j % columns;
    assert(q < rows) by (nonlinear_arith)
        requires
            j == columns * q + m,
            0 <= m < columns,
            j < columns * rows,
    ;
    assert(0 <= q * r < h) by (nonlinear_arith)
        requires
            0 <= q < rows,
            r > 0,
            (rows - 1) * r < h,
    ;
    assert(0 <= m * r < w) by (nonlinear_arith)
        requires
            0 <= m < columns,
            r > 0,
            (columns - 1) * r < w,
    ;
}

impl<V, K> Frustal<V, K> {
    /// The state is well formed. Every constructor establishes this and every method keeps
    /// it.
    pub open spec fn wf(&self) -> bool {
        self@.wf()
    }

    /// A renderer for a canvas of `width` by `height` pixels with blank buffers, set to the
    /// Mandelbrot set of order two with 25 steps, smoothing and the spectrum sweep.
    pub fn new(
        width: usize,
        height: usize,
        preview_resolution: usize,
        viewport: V,
        knobs: K,
    ) -> (frustal: Self)
        requires
            width * height <= usize::MAX,
            preview_resolution > 0,
        ensures
            frustal.wf(),
            frustal@.data == blank((width * height) as nat),
            frustal@.preview_data == blank(
                preview_length((width * height) as nat, preview_resolution as nat),
            ),
            frustal@.domain == (Domain { viewport, width, height }),
            frustal@.fractal is Mandelbrot,
            frustal@.options == (Options {
                precision: 25,
                smooth: true,
                variant: Variant::Mandelbrot,
                order: 2,
                colorization: Colorization::SpectrumSweep,
                knobs,
            }),
            frustal@.preview_resolution == preview_resolution,
    {
        let options = Options {
            precision: 25,
            smooth: true,
            variant: Variant::Mandelbrot,
            order: 2,
            colorization: Colorization::SpectrumSweep,
            knobs,
        };
        let pixels = width * height;
        Frustal {
            data: blank_buffer(pixels),
            preview_data: blank_buffer(preview_len(pixels, preview_resolution)),
            domain: Domain::new(width, height, viewport),
            fractal: options.variant.get_fractal(),
            options,
            preview_resolution,
        }
    }

    /// Changes the size of the canvas and replaces both buffers by blank ones of the new
    /// size. The viewport and the options stay as they are.
    pub fn resize(&mut self, width: usize, height: usize)
        requires
            old(self).wf(),
            width * height <= usize::MAX,
        ensures
            final(self).wf(),
            final(self)@.data == blank((width * height) as nat),
            final(self)@.preview_data == blank(
                preview_length((width * height) as nat, old(self)@.preview_resolution),
            ),
            final(self)@.domain == (Domain { viewport: old(self)@.domain.viewport, width, height }),
            final(self)@.fractal == old(self)@.fractal,
            final(self)@.options == old(self)@.options,
            final(self)@.preview_resolution == old(self)@.preview_resolution,
    {
        let pixels = width * height;
        self.domain.resize(width, height);
        self.data = blank_buffer(pixels);
        self.preview_data = blank_buffer(preview_len(pixels, self.preview_resolution));
    }

    /// Changes the preview resolution and replaces the preview buffer by a blank one of the
    /// new length. Everything else stays as it is.
    pub fn resize_preview(&mut self, preview_resolution: usize)
        requires
            old(self).wf(),
            preview_resolution > 0,
        ensures
            final(self).wf(),
            final(self)@.preview_data == blank(
                preview_length(old(self)@.data.len(), preview_resolution as nat),
            ),
            final(self)@.preview_resolution == preview_resolution,
            final(self)@.data == old(self)@.data,
            final(self)@.domain == old(self)@.domain,
            final(self)@.fractal == old(self)@.fractal,
            final(self)@.options == old(self)@.options,
    {
        self.preview_resolution = preview_resolution;
        self.preview_data = blank_buffer(preview_len(self.data.len(), preview_resolution));
    }

    /// Blanks the full-size buffer. Everything else stays as it is.
    pub fn reset_data(&mut self)
        requires
            old(self).wf(),
        ensures
            final(self).wf(),
            final(self)@.data == blank(old(self)@.data.len()),
            final(self)@.preview_data == old(self)@.preview_data,
            final(self)@.domain == old(self)@.domain,
            final(self)@.fractal == old(self)@.fractal,
            final(self)@.options == old(self)@.options,
            final(self)@.preview_resolution == old(self)@.preview_resolution,
    {
        self.data = blank_buffer(self.data.len());
    }

    /// Replaces the viewport. Everything else stays as it is.
    pub fn change_domain(&mut self, viewport: V)
        requires
            old(self).wf(),
        ensures
            final(self).wf(),
            final(self)@.domain == (Domain {
                viewport,
                width: old(self)@.domain.width,
                height: old(self)@.domain.height,
            }),
            final(self)@.data == old(self)@.data,
            final(self)@.preview_data == old(self)@.preview_data,
            final(self)@.fractal == old(self)@.fractal,
            final(self)@.options == old(self)@.options,
            final(self)@.preview_resolution == old(self)@.preview_resolution,
    {
        self.domain.change(viewport);
    }

    /// Takes over new options, which must be valid: `Options::validate` tells. The fractal
    /// is built anew where the variant has changed, and kept where it has not. Returns
    /// whether it was built anew.
    pub fn sync_options(&mut self, options: Options<K>) -> (rebuilt: bool)
        requires
            old(self).wf(),
            options.valid(),
        ensures
            final(self).wf(),
            rebuilt == (old(self)@.options.variant != options.variant),
            final(self)@.options == options,
            !rebuilt ==> final(self)@.fractal == old(self)@.fractal,
            final(self)@.data == old(self)@.data,
            final(self)@.preview_data == old(self)@.preview_data,
            final(self)@.domain == old(self)@.domain,
            final(self)@.preview_resolution == old(self)@.preview_resolution,
    {
        let rebuilt = self.options.variant != options.variant;
        if rebuilt {
            self.fractal = options.variant.get_fractal();
        }
        self.options = options;
        rebuilt
    }

    /// Renders the whole canvas: every pixel of the full-size buffer becomes what `shade`
    /// gives for its coordinates. Everything else stays as it is.
    pub fn render<F: Fn(&Domain<V>, &Fractal, &Options<K>, usize, usize) -> Pixel>(
        &mut self,
        shade: F,
    )
        requires
            old(self).wf(),
            old(self)@.accepts(shade),
        ensures
            final(self).wf(),
            final(self)@.data.len() == old(self)@.data.len(),
            forall|i: int|
                0 <= i < old(self)@.data.len() ==> old(self)@.shades(
                    shade,
                    column_of(i, old(self)@.domain.width as int),
                    row_of(i, old(self)@.domain.width as int),
                    #[trigger] final(self)@.data[i],
                ),
            final(self)@.preview_data == old(self)@.preview_data,
            final(self)@.domain == old(self)@.domain,
            final(self)@.fractal == old(self)@.fractal,
            final(self)@.options == old(self)@.options,
            final(self)@.preview_resolution == old(self)@.preview_resolution,
    {
        let ghost before = self@;
        let total = self.data.len();
        let mut pixels = self.domain.iter();
        let mut i: usize = 0;
        loop
            invariant
                before.wf(),
                before.accepts(shade),
                pixels.index() == i,
                pixels.width() == before.domain.width,
                pixels.height() == before.domain.height,
                i <= total == before.data.len(),
                self@.data.len() == before.data.len(),
                forall|j: int|
                    0 <= j < i ==> before.shades(
                        shade,
                        column_of(j, before.domain.width as int),
                        row_of(j, before.domain.width as int),
                        #[trigger] self@.data[j],
                    ),
                self@.preview_data == before.preview_data,
                self@.domain == before.domain,
                self@.fractal == before.fractal,
                self@.options == before.options,
                self@.preview_resolution == before.preview_resolution,
            ensures
                i == total,
            decreases total - i,
        {
            match pixels.next() {
                Some((x, y)) => {
                    let pixel = shade(&self.domain, &self.fractal, &self.options, x, y);
                    self.data.set(i, pixel);
                    i += 1;
                },
                None => {
                    break ;
                },
            }
        }
    }

    /// Renders one stripe of the canvas: the pixels whose index `i` has `(i + index) % skip
    /// == 0` become what `shade` gives for their coordinates, and all others stay as they
    /// are. Calls with `index` running through `0..skip` fill the whole canvas.
    pub fn partial_render<F: Fn(&Domain<V>, &Fractal, &Options<K>, usize, usize) -> Pixel>(
        &mut self,
        skip: usize,
        index: usize,
        shade: F,
    )
        requires
            old(self).wf(),
            old(self)@.accepts(shade),
            skip > 0,
        ensures
            final(self).wf(),
            final(self)@.data.len() == old(self)@.data.len(),
            forall|i: int|
                0 <= i < old(self)@.data.len() ==> if in_stripe(i, skip as int, index as int) {
                    old(self)@.shades(
                        shade,
                        column_of(i, old(self)@.domain.width as int),
                        row_of(i, old(self)@.domain.width as int),
                        #[trigger] final(self)@.data[i],
                    )
                } else {
                    final(self)@.data[i] == old(self)@.data[i]
                },
            final(self)@.preview_data == old(self)@.preview_data,
            final(self)@.domain == old(self)@.domain,
            final(self)@.fractal == old(self)@.fractal,
            final(self)@.options == old(self)@.options,
            final(self)@.preview_resolution == old(self)@.preview_resolution,
    {
        let ghost before = self@;
        let total = self.data.len();
        let mut pixels = self.domain.iter();
        let mut i: usize = 0;
        loop
            invariant
                before.wf(),
                before.accepts(shade),
                skip > 0,
                pixels.index() == i,
                pixels.width() == before.domain.width,
                pixels.height() == before.domain.height,
                i <= total == before.data.len(),
                self@.data.len() == before.data.len(),
                forall|j: int|
                    0 <= j < i ==> if in_stripe(j, skip as int, index as int) {
                        before.shades(
                            shade,
                            column_of(j, before.domain.width as int),
                            row_of(j, before.domain.width as int),
                            #[trigger] self@.data[j],
                        )
                    } else {
                        self@.data[j] == before.data[j]
                    },
                forall|j: int| i <= j < before.data.len() ==> self@.data[j] == before.data[j],
                self@.preview_data == before.preview_data,
                self@.domain == before.domain,
                self@.fractal == before.fractal,
                self@.options == before.options,
                self@.preview_resolution == before.preview_resolution,
            ensures
                i == total,
            decreases total - i,
        {
            match pixels.next() {
                Some((x, y)) => {
                    // The sum is taken in a wider type: it may exceed what an index holds.
                    if (i as u128 + index as u128) % (skip as u128) == 0 {
                        let pixel = shade(&self.domain, &self.fractal, &self.options, x, y);
                        self.data.set(i, pixel);
                    }
                    i += 1;
                },
                None => {
                    break ;
                },
            }
        }
    }

    /// Renders the preview: sample `j` of the preview buffer becomes what `shade` gives for
    /// the pixel in column `sample_x(j)` of row `sample_y(j)`. The samples are the pixels of
    /// every `preview_resolution`-th column in every `preview_resolution`-th row, from the
    /// top left, row by row, as far as the preview buffer reaches. Everything else stays
    /// as it is.
    pub fn preview_render<F: Fn(&Domain<V>, &Fractal, &Options<K>, usize, usize) -> Pixel>(
        &mut self,
        shade: F,
    )
        requires
            old(self).wf(),
            old(self)@.accepts(shade),
        ensures
            final(self).wf(),
            final(self)@.preview_data.len() == old(self)@.preview_data.len(),
            forall|j: int|
                0 <= j < old(self)@.preview_data.len() ==> old(self)@.shades(
                    shade,
                    old(self)@.sample_x(j),
                    old(self)@.sample_y(j),
                    #[trigger] final(self)@.preview_data[j],
                ),
            final(self)@.data == old(self)@.data,
            final(self)@.domain == old(self)@.domain,
            final(self)@.fractal == old(self)@.fractal,
            final(self)@.options == old(self)@.options,
            final(self)@.preview_resolution == old(self)@.preview_resolution,
    {
        let ghost before = self@;
        let total = self.preview_data.len();
        let width = self.domain.width;
        let resolution = self.preview_resolution;
        if total == 0 {
            return ;
        }
        proof {
            lemma_sample_on_canvas(
                0,
                width as nat,
                self.domain.height as nat,
                resolution as nat,
            );
            // A row that does not divide evenly has fewer full blocks than pixels.
            lemma_fundamental_div_mod(width as int, resolution as int);
            assert(width % resolution != 0 ==> width / resolution < width) by (nonlinear_arith)
                requires
                    resolution > 0,
                    width == resolution * (width / resolution) + width % resolution,
                    0 <= width / resolution,
            ;
        }
        let columns = if width % resolution == 0 {
            width / resolution
        } else {
            width / resolution + 1
        };
        let mut j: usize = 0;
        while j < total
            invariant
                before.wf(),
                before.accepts(shade),
                width == before.domain.width,
                resolution == before.preview_resolution,
                columns == sample_columns(width as nat, resolution as nat),
                columns > 0,
                j <= total == before.preview_data.len(),
                self@.preview_data.len() == before.preview_data.len(),
                forall|k: int|
                    0 <= k < j ==> before.shades(
                        shade,
                        before.sample_x(k),
                        before.sample_y(k),
                        #[trigger] self@.preview_data[k],
                    ),
                self@.data == before.data,
                self@.domain == before.domain,
                self@.fractal == before.fractal,
                self@.options == before.options,
                self@.preview_resolution == before.preview_resolution,
            decreases total - j,
        {
            proof {
                lemma_sample_on_canvas(
                    j as int,
                    width as nat,
                    before.domain.height as nat,
                    resolution as nat,
                );
            }
            let x = (j % columns) * resolution;
            let y = (j / columns) * resolution;
            let pixel = shade(&self.domain, &self.fractal, &self.options, x, y);
            self.preview_data.set(j, pixel);
            j += 1;
        }
    }

    /// The options in force.
    pub fn current_options(&self) -> (options: &Options<K>)
        ensures
            *options == self@.options,
    {
        &self.options
    }

    /// The canvas and its viewport.
    pub fn current_domain(&self) -> (domain: &Domain<V>)
        ensures
            *domain == self@.domain,
    {
        &self.domain
    }

    /// The fractal that the options select.
    pub fn fractal(&self) -> (fractal: &Fractal)
        ensures
            *fractal == self@.fractal,
    {
        &self.fractal
    }

    /// The preview resolution.
    pub fn preview_resolution(&self) -> (resolution: usize)
        ensures
            resolution == self@.preview_resolution,
    {
        self.preview_resolution
    }

    /// The full-size buffer: the pixel at `(x, y)` has index `y * width + x`, and `(0, 0)`
    /// is the top left corner.
    pub fn data(&self) -> (data: &Vec<Pixel>)
        ensures
            data@ == self@.data,
    {
        &self.data
    }

    /// The preview buffer.
    pub fn preview_data(&self) -> (data: &Vec<Pixel>)
        ensures
            data@ == self@.preview_data,
    {
        &self.preview_data
    }
}

} // verus!
