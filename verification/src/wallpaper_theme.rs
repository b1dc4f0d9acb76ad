//! The colour that a theme is made from, out of a wallpaper's pixels.

use vstd::prelude::*;

use crate::sourced_theme::{theme_from_source_color, SourcedTheme};
use crate::wallpaper::MAX_WALLPAPER_FILE_SIZE;

verus! {

/// Pictures are scaled to this many pixels on each side.
pub const SAMPLE_SIDE: u32 = 112;

/// At most this many colours are told apart.
pub const MAX_COLORS: usize = 128;

/// A colour.
#[derive(Debug, Clone, Copy, PartialEq, Eq, Structural)]
pub struct Argb {
    pub alpha: u8,
    pub red: u8,
    pub green: u8,
    pub blue: u8,
}

/// The colour for pictures that offer none.
pub open spec fn fallback_color() -> Argb {
    Argb { alpha: 255, red: 66, green: 133, blue: 244 }
}

/// Whether a file is small enough to be read.
pub fn wallpaper_size_allowed(file_size: u64) -> (r: bool)
    ensures
        r == (file_size <= MAX_WALLPAPER_FILE_SIZE),
{
    file_size <= MAX_WALLPAPER_FILE_SIZE
}

/// The samples of a picture: red, green, blue and alpha of each pixel, row by
/// row.
#[derive(Debug)]
pub enum Samples {
    /// With eight bits each.
    Eight(Vec<u8>),
    /// With sixteen bits each.
    Sixteen(Vec<u16>),
}

impl Samples {
    pub open spec fn bits(self) -> nat {
        match self {
            Samples::Eight(_) => 8,
            Samples::Sixteen(_) => 16,
        }
    }

    pub open spec fn values(self) -> Seq<u16> {
        match self {
            Samples::Eight(v) => Seq::new(v@.len(), |i: int| v@[i] as u16),
            Samples::Sixteen(v) => v@,
        }
    }
}

/// A picture that is decoded.
#[derive(Debug)]
pub struct Picture {
    pub width: u32,
    pub height: u32,
    pub samples: Samples,
}

impl Picture {
    /// There are samples for every pixel.
    pub open spec fn is_whole(self) -> bool {
        4 * self.width * self.height <= self.samples.values().len()
    }

    /// The rows of this picture that scaling to `height` passes through, with
    /// four numbers of four bytes to a pixel, are no more than a machine of this
    /// width can hold.
    pub open spec fn is_scalable(self, height: u32) -> bool {
        self.width * height * 16 <= isize::MAX
    }

    /// The pixels of this picture after scaling, as red, green, blue and alpha,
    /// row by row.
    pub open spec fn scaled(self, width: u32, height: u32) -> Seq<(u8, u8, u8, u8)> {
        scaled_pixels(
            self.samples.bits(),
            self.samples.values(),
            self.width,
            self.height,
            width,
            height,
        )
    }
}

/// The pixels of a picture of `from_width` by `from_height`, whose samples have
/// so many bits and these values, scaled to `width` by `height`.
pub uninterp spec fn scaled_pixels(
    bits: nat,
    samples: Seq<u16>,
    from_width: u32,
    from_height: u32,
    width: u32,
    height: u32,
) -> Seq<(u8, u8, u8, u8)>;

/// `image::DynamicImage::resize_exact` with the triangle filter, then
/// `DynamicImage::to_rgba8`: scales a picture without regard to its proportions.
/// There is one result for each pixel of the scaled picture, row by row, and
/// what it is depends on the picture and the two lengths alone.
/// `image::ImageBuffer::from_raw`, which makes a picture of the samples, fails
/// exactly where there are too few of them.
#[verifier::external_body]
fn scale(picture: Picture, width: u32, height: u32) -> (r: Option<Vec<(u8, u8, u8, u8)>>)
    requires
        0 < width <= 1024,
        0 < height <= 1024,
        picture.is_scalable(height),
    ensures
        match r {
            Some(v) => {
                &&& picture.is_whole()
                &&& v@ == scaled_pixels(
                    picture.samples.bits(),
                    picture.samples.values(),
                    picture.width,
                    picture.height,
                    width,
                    height,
                )
                &&& v@.len() == width * height
            },
            None => !picture.is_whole(),
        },
{
    let (w, h) = (picture.width, picture.height);
    let whole = match picture.samples {
        Samples::Eight(v) => {
            image::ImageBuffer::from_raw(w, h, v).map(image::DynamicImage::ImageRgba8)
        },
        Samples::Sixteen(v) => {
            image::ImageBuffer::from_raw(w, h, v).map(image::DynamicImage::ImageRgba16)
        },
    }?;
    let scaled = whole.resize_exact(width, height, image::imageops::FilterType::Triangle);
    Some(scaled.to_rgba8().pixels().map(|p| (p[0], p[1], p[2], p[3])).collect())
}

/// The opaque pixels in order.
pub open spec fn opaque(pixels: Seq<(u8, u8, u8, u8)>) -> Seq<Argb>
    decreases pixels.len(),
{
    if pixels.len() == 0 {
        Seq::empty()
    } else {
        let p = pixels.last();
        let before = opaque(pixels.drop_last());
        if p.3 == 255 {
            before.push(Argb { alpha: p.3, red: p.0, green: p.1, blue: p.2 })
        } else {
            before
        }
    }
}

/// Picks the opaque pixels.
pub fn opaque_pixels(pixels: &Vec<(u8, u8, u8, u8)>) -> (r: Vec<Argb>)
    ensures
        r@ == opaque(pixels@),
        r@.len() <= pixels@.len(),
{
    let mut r: Vec<Argb> = Vec::new();
    let mut i: usize = 0;
    while i < pixels.len()
        invariant
            i <= pixels.len(),
            r@ == opaque(pixels@.take(i as int)),
            r@.len() <= i,
        decreases pixels.len() - i,
    {
        assert(pixels@.take(i + 1).drop_last() =~= pixels@.take(i as int));
        let p = pixels[i];
        if p.3 == 255 {
            r.push(Argb { alpha: p.3, red: p.0, green: p.1, blue: p.2 });
        }
        i += 1;
    }
    assert(pixels@.take(i as int) =~= pixels@);
    r
}

/// How many pixels the counted colours stand for.
pub open spec fn population(counts: Seq<(Argb, u32)>) -> nat
    decreases counts.len(),
{
    if counts.len() == 0 {
        0
    } else {
        population(counts.drop_last()) + counts.last().1 as nat
    }
}

/// Every colour stands for at least one pixel.
pub open spec fn all_counted(counts: Seq<(Argb, u32)>) -> bool {
    forall|i: int| 0 <= i < counts.len() ==> (#[trigger] counts[i]).1 > 0
}

/// No colour is counted twice.
pub open spec fn all_distinct(counts: Seq<(Argb, u32)>) -> bool {
    forall|i: int, j: int|
        0 <= i < j < counts.len() ==> (#[trigger] counts[i]).0 != (#[trigger] counts[j]).0
}

/// Every colour is opaque.
pub open spec fn all_opaque(counts: Seq<(Argb, u32)>) -> bool {
    forall|i: int| 0 <= i < counts.len() ==> (#[trigger] counts[i]).0.alpha == 255
}

/// Whether a colour is among the counted ones.
pub open spec fn is_counted(counts: Seq<(Argb, u32)>, color: Argb) -> bool {
    exists|i: int| 0 <= i < counts.len() && (#[trigger] counts[i]).0 == color
}

/// Whether `counts` is an outcome of the quantizer for `pixels`, asked for at
/// most `max_colors`. There may be several, one for each way a machine rounds.
pub uninterp spec fn is_quantized(
    pixels: Seq<Argb>,
    max_colors: usize,
    counts: Seq<(Argb, u32)>,
) -> bool;

/// Whether `ranked` is an outcome of ranking `counts`. There may be several, one
/// for each way a machine rounds.
pub uninterp spec fn is_ranked(counts: Seq<(Argb, u32)>, ranked: Seq<Argb>) -> bool;

/// `material_colors::quantize::QuantizerCelebi::quantize`: the main colours and
/// how many pixels each stands for, in the order of the crate's map. There are
/// at most `max_colors`, and none exactly where there is no pixel; they are
/// opaque and differ from each other. Each stands for at least one pixel, and
/// together they stand for no more pixels than there are. Which colours come
/// out is computed with floating-point roots and powers, whose last bits depend
/// on the machine, and is left unsaid but for their being an outcome for these
/// pixels and this number. It draws starting points with a fixed seed; for as
/// many pixels as a sample holds it draws less than a thousand numbers, none of
/// which comes near the limit at which its arithmetic would overflow.
#[verifier::external_body]
fn quantize(pixels: &Vec<Argb>, max_colors: usize) -> (r: Vec<(Argb, u32)>)
    requires
        0 < max_colors <= 256,
        pixels@.len() <= SAMPLE_SIDE * SAMPLE_SIDE,
    ensures
        is_quantized(pixels@, max_colors, r@),
        r@.len() <= max_colors,
        all_counted(r@),
        all_distinct(r@),
        all_opaque(r@),
        population(r@) <= pixels@.len(),
        (r@.len() == 0) == (pixels@.len() == 0),
{
    let input: Vec<material_colors::color::Argb> = pixels.iter().map(|p| {
        material_colors::color::Argb::new(p.alpha, p.red, p.green, p.blue)
    }).collect();
    <material_colors::quantize::QuantizerCelebi as material_colors::quantize::Quantizer>::quantize(
        &input,
        max_colors,
    ).color_to_count.iter().map(|(c, n)| {
        (Argb { alpha: c.alpha, red: c.red, green: c.green, blue: c.blue }, *n)
    }).collect()
}

/// `material_colors::score::Score::score` with its defaults: the colours that
/// suit a theme, best first. There is always at least one and at most four.
/// All are among the given ones, or it is the fallback alone, as it is where no
/// colour is given. Which are chosen and how they are ranked is
/// computed in floating point, whose last bits depend on the machine, and is
/// left unsaid but for its being an outcome for these colours.
#[verifier::external_body]
fn rank(counts: &Vec<(Argb, u32)>) -> (r: Vec<Argb>)
    requires
        all_counted(counts@),
        population(counts@) <= u32::MAX,
    ensures
        is_ranked(counts@, r@),
        1 <= r@.len() <= 4,
        r@ == seq![fallback_color()] || forall|i: int|
            0 <= i < r@.len() ==> is_counted(counts@, #[trigger] r@[i]),
{
    material_colors::score::Score::score(
        &counts.iter().map(|(c, n)| {
            (material_colors::color::Argb::new(c.alpha, c.red, c.green, c.blue), *n)
        }).collect(),
        None,
        None,
        None,
    ).iter().map(|c| {
        Argb { alpha: c.alpha, red: c.red, green: c.green, blue: c.blue }
    }).collect()
}

/// What a picture has to offer.
#[derive(Debug)]
pub struct ImageColors {
    /// Its opaque pixels after scaling.
    pub pixels: Vec<Argb>,
    /// Its main colours and how many pixels each stands for.
    pub counts: Vec<(Argb, u32)>,
}

/// Finds the colours of a picture; `None` exactly where samples are missing or
/// the picture is too wide to be scaled on this machine. A picture without
/// colour, or without opaque pixels, is no failure.
pub fn image_colors(picture: Picture) -> (r: Option<ImageColors>)
    ensures
        match r {
            Some(c) => {
                &&& picture.is_whole()
                &&& picture.is_scalable(SAMPLE_SIDE)
                &&& c.pixels@ == opaque(picture.scaled(SAMPLE_SIDE, SAMPLE_SIDE))
                &&& is_quantized(c.pixels@, MAX_COLORS, c.counts@)
                &&& c.counts@.len() <= MAX_COLORS
                &&& all_counted(c.counts@)
                &&& all_distinct(c.counts@)
                &&& all_opaque(c.counts@)
                &&& (c.counts@.len() == 0) == (c.pixels@.len() == 0)
                &&& population(c.counts@) <= c.pixels@.len() <= SAMPLE_SIDE * SAMPLE_SIDE
            },
            None => !picture.is_whole() || !picture.is_scalable(SAMPLE_SIDE),
        },
{
    let side: u64 = SAMPLE_SIDE as u64;
    assert(picture.width * side <= u32::MAX * 112) by (nonlinear_arith)
        requires
            side == 112,
            picture.width <= u32::MAX,
    ;
    if picture.width as u64 * side * 16 > isize::MAX as u64 {
        return None;
    }
    match scale(picture, SAMPLE_SIDE, SAMPLE_SIDE) {
        Some(raw) => {
            let pixels = opaque_pixels(&raw);
            let counts = quantize(&pixels, MAX_COLORS);
            Some(ImageColors { pixels, counts })
        },
        None => None,
    }
}

/// The counted colours that are marked, in order. A colour without a mark is
/// dropped.
pub open spec fn marked(counts: Seq<(Argb, u32)>, marks: Seq<bool>) -> Seq<(Argb, u32)>
    decreases counts.len(),
{
    if counts.len() == 0 {
        Seq::empty()
    } else {
        let k = counts.len() - 1;
        let before = marked(counts.drop_last(), marks);
        if k < marks.len() && marks[k] {
            before.push(counts[k])
        } else {
            before
        }
    }
}

/// Keeps the colours that are vivid enough for a theme.
pub fn retain_vivid(counts: &Vec<(Argb, u32)>, vivid: &Vec<bool>) -> (r: Vec<(Argb, u32)>)
    requires
        all_counted(counts@),
    ensures
        r@ == marked(counts@, vivid@),
        all_counted(r@),
        population(r@) <= population(counts@),
{
    let mut r: Vec<(Argb, u32)> = Vec::new();
    let mut i: usize = 0;
    while i < counts.len()
        invariant
            i <= counts.len(),
            all_counted(counts@),
            r@ == marked(counts@.take(i as int), vivid@),
            all_counted(r@),
            population(r@) <= population(counts@.take(i as int)),
        decreases counts.len() - i,
    {
        proof {
            assert(counts@.take(i + 1).drop_last() =~= counts@.take(i as int));
            assert(counts@.take(i + 1).last() == counts@[i as int]);
        }
        if i < vivid.len() && vivid[i] {
            let ghost before = r@;
            r.push(counts[i]);
            assert(r@.drop_last() =~= before);
        }
        i += 1;
    }
    assert(counts@.take(i as int) =~= counts@);
    r
}

/// The best of some colours that are ranked best first.
pub fn best_of(ranked: &Vec<Argb>) -> (r: Option<Argb>)
    ensures
        r == if ranked@.len() > 0 {
            Some(ranked@[0])
        } else {
            None
        },
{
    if ranked.len() > 0 {
        Some(ranked[0])
    } else {
        None
    }
}

/// Whether a colour came out best when `counts` were ranked.
pub open spec fn is_best(counts: Seq<(Argb, u32)>, color: Argb) -> bool {
    exists|ranked: Seq<Argb>| #[trigger]
        is_ranked(counts, ranked) && ranked.len() > 0 && ranked[0] == color
}

/// The colour to make a theme from: the best of the vivid colours, or the
/// fallback where none of them suits, and none exactly where no colour is vivid.
pub fn source_color(counts: &Vec<(Argb, u32)>, vivid: &Vec<bool>) -> (r: Option<Argb>)
    requires
        all_counted(counts@),
        population(counts@) <= u32::MAX,
    ensures
        r is None == (marked(counts@, vivid@).len() == 0),
        r matches Some(c) ==> is_best(marked(counts@, vivid@), c),
        r matches Some(c) ==> c == fallback_color() || is_counted(marked(counts@, vivid@), c),
{
    let kept = retain_vivid(counts, vivid);
    if kept.len() == 0 {
        return None;
    }
    let ranked = rank(&kept);
    best_of(&ranked)
}

/// The theme of a picture's colours, made from the best of the vivid ones. A
/// picture without a vivid colour has none.
pub fn theme_of_colors(colors: &ImageColors, vivid: &Vec<bool>) -> (r: Option<SourcedTheme>)
    requires
        all_counted(colors.counts@),
        population(colors.counts@) <= u32::MAX,
    ensures
        r is None == (marked(colors.counts@, vivid@).len() == 0),
        r matches Some(t) ==> is_best(marked(colors.counts@, vivid@), t@),
        r matches Some(t) ==> t@ == fallback_color() || is_counted(
            marked(colors.counts@, vivid@),
            t@,
        ),
{
    match source_color(&colors.counts, vivid) {
        Some(source) => Some(theme_from_source_color(source)),
        None => None,
    }
}

/// Every pixel that is looked at is opaque.
pub proof fn law_sampled_pixels_are_opaque(pixels: Seq<(u8, u8, u8, u8)>, k: int)
    requires
        0 <= k < opaque(pixels).len(),
    ensures
        opaque(pixels)[k].alpha == 255,
    decreases pixels.len(),
{
    if k < opaque(pixels.drop_last()).len() {
        law_sampled_pixels_are_opaque(pixels.drop_last(), k);
    }
}

} // verus!
