//! The integer side of compositing: where the coverage of each layer of a
//! glyph falls on the pixel grid that all layers share.
//!
//! A glyph is painted from one or two coverage bitmaps, the stroked outline
//! (if any) first and the fill last. Each comes with its own bounding box.
//! The compositor lays every bitmap onto the grid of the union of the boxes,
//! row 0 at the top, and says for every pixel and every layer how the pixel
//! is to be painted. The blend itself is done on colour values by the caller.

use vstd::prelude::*;
use crate::bbox::{lemma_union_all_is_tight, BBox};
use crate::error::RasterError;

verus! {

/// One coverage bitmap: a byte per pixel, rows from top to bottom, as many
/// columns and rows as its bounding box has.
pub struct Layer {
    pub coverage: Vec<u8>,
    pub bbox: BBox,
}

impl Layer {
    /// The box is well formed and the bitmap has one byte for each of its pixels.
    pub open spec fn well_formed(&self) -> bool {
        self.bbox.well_formed() && self.coverage@.len() == self.bbox.width() * self.bbox.height()
    }
}

/// The boxes of a list of layers, in the order of the list.
pub open spec fn boxes_of(layers: Seq<Layer>) -> Seq<BBox> {
    Seq::new(layers.len(), |i: int| layers[i].bbox)
}

/// The grid that the layers share: the union of their boxes.
pub open spec fn frame_of(layers: Seq<Layer>) -> BBox {
    BBox::spec_union_all(boxes_of(layers))
}

/// The coverage that `layer` gives to the pixel in column `col` and row `row`
/// of the grid `frame` (row 0 is the top row): the byte of its bitmap that
/// falls there, and 0 where the bitmap does not reach.
pub open spec fn plane_value(layer: Layer, frame: BBox, col: int, row: int) -> u8 {
    let x = col - (layer.bbox.x_min - frame.x_min);
    let y = row - (frame.y_max - layer.bbox.y_max);
    if 0 <= x < layer.bbox.width() && 0 <= y < layer.bbox.height() {
        layer.coverage@[y * layer.bbox.width() + x]
    } else {
        0
    }
}

/// `plane` is the coverage of `layer` laid onto the grid `frame`, row by row.
pub open spec fn is_plane_of(plane: Seq<u8>, layer: Layer, frame: BBox) -> bool {
    &&& plane.len() == frame.width() * frame.height()
    &&& forall|col: int, row: int|
        0 <= col < frame.width() && 0 <= row < frame.height() ==> plane[row * frame.width() + col]
            == #[trigger] plane_value(layer, frame, col, row)
}

/// The layers can be composited: there is at least one, each is well formed,
/// and a four-channel image of the size of their union can be held.
pub open spec fn compositable(layers: Seq<Layer>) -> bool {
    &&& layers.len() > 0
    &&& forall|i: int| 0 <= i < layers.len() ==> (#[trigger] layers[i]).well_formed()
    &&& frame_of(layers).width() <= u32::MAX
    &&& frame_of(layers).height() <= u32::MAX
    &&& frame_of(layers).width() * frame_of(layers).height() * 4 <= usize::MAX
}

/// In a grid of `width` columns the pixels are numbered row by row: those of
/// an earlier row, and those further left in the same row, come first.
pub proof fn lemma_row_major(width: int, height: int, col: int, row: int)
    requires
        0 <= col < width,
        0 <= row < height,
    ensures
        0 <= row * width + col < width * height,
        row * width + col < (row + 1) * width,
        (row + 1) * width <= width * height,
        row * width >= 0,
{
    assert(row * width >= 0) by (nonlinear_arith)
        requires
            0 <= row,
            0 < width,
    ;
    assert((row + 1) * width == row * width + width) by (nonlinear_arith);
    assert((row + 1) * width <= height * width) by (nonlinear_arith)
        requires
            row + 1 <= height,
            0 < width,
    ;
    assert(height * width == width * height) by (nonlinear_arith);
}

/// Lays the coverage of one layer onto the shared grid.
fn register(layer: &Layer, frame: &BBox, width: usize, height: usize) -> (plane: Vec<u8>)
    requires
        layer.well_formed(),
        layer.bbox.within(*frame),
        width == frame.width(),
        height == frame.height(),
        width * height <= usize::MAX,
    ensures
        is_plane_of(plane@, *layer, *frame),
{
    let shift_x: usize = (layer.bbox.x_min as i128 - frame.x_min as i128) as usize;
    let shift_y: usize = (frame.y_max as i128 - layer.bbox.y_max as i128) as usize;
    let layer_width: usize = (layer.bbox.x_max as i128 - layer.bbox.x_min as i128) as usize;
    let layer_height: usize = (layer.bbox.y_max as i128 - layer.bbox.y_min as i128) as usize;
    let length: usize = layer.coverage.len();
    let mut plane: Vec<u8> = Vec::new();
    let mut row: usize = 0;
    while row < height
        invariant
            row <= height,
            width == frame.width(),
            height == frame.height(),
            width * height <= usize::MAX,
            layer.well_formed(),
            length == layer.coverage@.len(),
            shift_x == layer.bbox.x_min - frame.x_min,
            shift_y == frame.y_max - layer.bbox.y_max,
            layer_width == layer.bbox.width(),
            layer_height == layer.bbox.height(),
            plane@.len() == row * width,
            forall|c: int, r: int|
                0 <= c < width && 0 <= r < row ==> plane@[r * width + c] == #[trigger] plane_value(
                    *layer,
                    *frame,
                    c,
                    r,
                ),
        decreases height - row,
    {
        let mut col: usize = 0;
        while col < width
            invariant
                row < height,
                col <= width,
                width == frame.width(),
                height == frame.height(),
                width * height <= usize::MAX,
                layer.well_formed(),
                length == layer.coverage@.len(),
                shift_x == layer.bbox.x_min - frame.x_min,
                shift_y == frame.y_max - layer.bbox.y_max,
                layer_width == layer.bbox.width(),
                layer_height == layer.bbox.height(),
                plane@.len() == row * width + col,
                forall|c: int, r: int|
                    0 <= c < width && 0 <= r < row ==> plane@[r * width + c]
                        == #[trigger] plane_value(*layer, *frame, c, r),
                forall|c: int|
                    0 <= c < col ==> plane@[row * width + c] == #[trigger] plane_value(
                        *layer,
                        *frame,
                        c,
                        row as int,
                    ),
            decreases width - col,
        {
            let ghost before = plane@;
            let mut value: u8 = 0;
            if col >= shift_x && row >= shift_y {
                let x: usize = col - shift_x;
                let y: usize = row - shift_y;
                if x < layer_width && y < layer_height {
                    proof {
                        lemma_row_major(layer_width as int, layer_height as int, x as int, y as int);
                    }
                    let index: usize = y * layer_width + x;
                    value = layer.coverage[index];
                }
            }
            proof {
                lemma_row_major(width as int, height as int, col as int, row as int);
            }
            plane.push(value);
            proof {
                assert forall|c: int, r: int| 0 <= c < width && 0 <= r < row implies plane@[r
                    * width + c] == #[trigger] plane_value(*layer, *frame, c, r) by {
                    lemma_row_major(width as int, height as int, c, r);
                    assert((r + 1) * width <= row * width) by (nonlinear_arith)
                        requires
                            r + 1 <= row,
                            0 < width,
                    ;
                    assert(before[r * width + c] == plane_value(*layer, *frame, c, r));
                }
                assert forall|c: int| 0 <= c < col + 1 implies plane@[row * width + c]
                    == #[trigger] plane_value(*layer, *frame, c, row as int) by {
                    if c < col {
                        assert(before[row * width + c] == plane_value(*layer, *frame, c, row as int));
                    }
                }
            }
            col += 1;
        }
        proof {
            assert((row + 1) * width == row * width + width) by (nonlinear_arith);
        }
        row += 1;
    }
    proof {
        assert(width * height == height * width) by (nonlinear_arith);
    }
    plane
}

/// The layers of one glyph on their shared grid: one plane of coverage for
/// each layer, in painting order, each with `width * height` bytes.
pub struct CoverageImage {
    pub width: u32,
    pub height: u32,
    pub planes: Vec<Vec<u8>>,
}

impl CoverageImage {
    /// Every plane has one byte for each pixel of the grid.
    pub open spec fn well_formed(&self) -> bool {
        forall|i: int|
            0 <= i < self.planes@.len() ==> (#[trigger] self.planes@[i])@.len() == self.width
                * self.height
    }

    /// The image holds the layers of `layers`, in their order, laid onto the
    /// union of their boxes.
    pub open spec fn holds(&self, layers: Seq<Layer>) -> bool {
        &&& self.width == frame_of(layers).width()
        &&& self.height == frame_of(layers).height()
        &&& self.planes@.len() == layers.len()
        &&& forall|i: int|
            0 <= i < layers.len() ==> is_plane_of(
                (#[trigger] self.planes@[i])@,
                layers[i],
                frame_of(layers),
            )
    }
}

/// The boxes of the layers, in their order.
fn collect_boxes(layers: &Vec<Layer>) -> (boxes: Vec<BBox>)
    ensures
        boxes@ == boxes_of(layers@),
{
    let mut boxes: Vec<BBox> = Vec::new();
    let mut i: usize = 0;
    while i < layers.len()
        invariant
            i <= layers.len(),
            boxes@ == boxes_of(layers@.subrange(0, i as int)),
        decreases layers.len() - i,
    {
        boxes.push(layers[i].bbox);
        i += 1;
        assert(boxes@ =~= boxes_of(layers@.subrange(0, i as int)));
    }
    assert(layers@.subrange(0, i as int) =~= layers@);
    boxes
}

/// Whether each layer is well formed.
fn all_well_formed(layers: &Vec<Layer>) -> (ok: bool)
    ensures
        ok == (forall|i: int| 0 <= i < layers@.len() ==> (#[trigger] layers@[i]).well_formed()),
{
    let mut i: usize = 0;
    while i < layers.len()
        invariant
            i <= layers.len(),
            forall|k: int| 0 <= k < i ==> (#[trigger] layers@[k]).well_formed(),
        decreases layers.len() - i,
    {
        let layer = &layers[i];
        let b = layer.bbox;
        if b.x_min > b.x_max || b.y_min > b.y_max {
            assert(!layers@[i as int].well_formed());
            return false;
        }
        let w: u128 = (b.x_max as i128 - b.x_min as i128) as u128;
        let h: u128 = (b.y_max as i128 - b.y_min as i128) as u128;
        let length: u128 = layer.coverage.len() as u128;
        proof {
            assert(w * h <= 0xffff_ffff_ffff_ffff * 0xffff_ffff_ffff_ffff) by (nonlinear_arith)
                requires
                    w <= 0xffff_ffff_ffff_ffff,
                    h <= 0xffff_ffff_ffff_ffff,
            ;
        }
        if w * h != length {
            assert(!layers@[i as int].well_formed());
            return false;
        }
        assert(layers@[i as int].well_formed());
        i += 1;
    }
    true
}

/// Lays the layers of a glyph onto the grid of the union of their boxes.
///
/// Succeeds exactly when the layers are compositable. Plane `i` of the result
/// then holds the coverage of layer `i`, moved to its place in the union and
/// 0 around it; the order of the layers is kept, so that the outline, which
/// comes first, is painted below the fill.
pub fn composite(layers: &Vec<Layer>) -> (r: Result<CoverageImage, RasterError>)
    ensures
        match r {
            Ok(image) => compositable(layers@) && image.holds(layers@) && image.well_formed(),
            Err(e) => e == RasterError::CompositeFailed && !compositable(layers@),
        },
{
    if layers.len() == 0 {
        return Err(RasterError::CompositeFailed);
    }
    if !all_well_formed(layers) {
        return Err(RasterError::CompositeFailed);
    }
    let boxes = collect_boxes(layers);
    let frame = BBox::union_all(&boxes);
    proof {
        lemma_union_all_is_tight(boxes@);
        assert(boxes@[0].well_formed()) by {
            assert(layers@[0].well_formed());
        }
        assert(boxes@[0].within(frame));
    }
    let w: u128 = (frame.x_max as i128 - frame.x_min as i128) as u128;
    let h: u128 = (frame.y_max as i128 - frame.y_min as i128) as u128;
    if w > u32::MAX as u128 || h > u32::MAX as u128 {
        return Err(RasterError::CompositeFailed);
    }
    proof {
        assert(w * h * 4 <= 0x1_0000_0000 * 0x1_0000_0000 * 4) by (nonlinear_arith)
            requires
                w <= 0x1_0000_0000,
                h <= 0x1_0000_0000,
        ;
    }
    if w * h * 4 > usize::MAX as u128 {
        return Err(RasterError::CompositeFailed);
    }
    let width: usize = w as usize;
    let height: usize = h as usize;
    proof {
        assert(w * h <= w * h * 4) by (nonlinear_arith)
            requires
                w >= 0,
                h >= 0,
        ;
    }
    let mut planes: Vec<Vec<u8>> = Vec::new();
    let mut i: usize = 0;
    while i < layers.len()
        invariant
            i <= layers.len(),
            boxes@ == boxes_of(layers@),
            frame == frame_of(layers@),
            width == frame.width(),
            height == frame.height(),
            width * height <= usize::MAX,
            forall|k: int| 0 <= k < layers@.len() ==> (#[trigger] layers@[k]).well_formed(),
            forall|k: int| 0 <= k < boxes@.len() ==> (#[trigger] boxes@[k]).within(frame),
            planes@.len() == i,
            forall|k: int| 0 <= k < i ==> is_plane_of((#[trigger] planes@[k])@, layers@[k], frame),
        decreases layers.len() - i,
    {
        proof {
            assert(layers@[i as int].well_formed());
            assert(boxes@[i as int].within(frame));
        }
        let plane = register(&layers[i], &frame, width, height);
        planes.push(plane);
        i += 1;
    }
    Ok(CoverageImage { width: w as u32, height: h as u32, planes })
}

/// What a layer does to one pixel.
#[derive(Clone, Copy, Debug, PartialEq, Eq, Structural)]
pub enum Paint {
    /// The layer does not cover the pixel: it stays as it is.
    Keep,
    /// The layer is the first to cover the pixel: the pixel takes the layer's
    /// colour, with the coverage as its alpha.
    Replace,
    /// A layer below has covered the pixel: the layer's colour is blended
    /// over what is there.
    Blend,
}

/// The rule for one pixel: a layer with coverage 0 keeps it, the first layer
/// with coverage above 0 replaces it, every later one blends.
pub open spec fn spec_paint(coverage: u8, painted: bool) -> Paint {
    if coverage == 0 {
        Paint::Keep
    } else if painted {
        Paint::Blend
    } else {
        Paint::Replace
    }
}

/// Some plane below plane `layer` covers `pixel`.
pub open spec fn painted_below(planes: Seq<Vec<u8>>, layer: int, pixel: int) -> bool {
    exists|below: int| 0 <= below < layer && (#[trigger] planes[below])@[pixel] > 0
}

impl CoverageImage {
    /// What plane `layer` does to `pixel`, given the planes below it.
    pub open spec fn spec_paint_at(&self, layer: int, pixel: int) -> Paint {
        spec_paint(self.planes@[layer]@[pixel], painted_below(self.planes@, layer, pixel))
    }

    /// The number of pixels of the grid.
    pub fn pixel_count(&self) -> (n: usize)
        requires
            self.well_formed(),
            self.planes@.len() > 0,
        ensures
            n == self.width * self.height,
    {
        self.planes[0].len()
    }

    /// How plane `layer` paints `pixel`: whether it leaves the pixel alone,
    /// sets it, or blends over what the planes below have painted.
    pub fn paint_at(&self, layer: usize, pixel: usize) -> (paint: Paint)
        requires
            self.well_formed(),
            layer < self.planes@.len(),
            pixel < self.width * self.height,
        ensures
            paint == self.spec_paint_at(layer as int, pixel as int),
    {
        let coverage: u8 = self.planes[layer][pixel];
        if coverage == 0 {
            return Paint::Keep;
        }
        let mut below: usize = 0;
        while below < layer
            invariant
                below <= layer,
                layer < self.planes@.len(),
                pixel < self.width * self.height,
                self.well_formed(),
                self.planes@[layer as int]@[pixel as int] != 0,
                forall|k: int| 0 <= k < below ==> (#[trigger] self.planes@[k])@[pixel as int] == 0,
            decreases layer - below,
        {
            if self.planes[below][pixel] > 0 {
                assert(painted_below(self.planes@, layer as int, pixel as int)) by {
                    assert(self.planes@[below as int]@[pixel as int] > 0);
                }
                return Paint::Blend;
            }
            below += 1;
        }
        Paint::Replace
    }
}

/// A single layer is its own grid: its plane is its bitmap, byte for byte, so
/// that each pixel it covers is set to the layer's colour with the coverage as
/// alpha, full coverage giving full alpha, and every other pixel stays clear.
/// Nothing is ever blended.
pub proof fn lemma_single_layer(image: CoverageImage, layer: Layer)
    requires
        layer.well_formed(),
        image.holds(seq![layer]),
    ensures
        image.planes@.len() == 1,
        image.planes@[0]@ == layer.coverage@,
        forall|pixel: int|
            0 <= pixel < layer.coverage@.len() ==> #[trigger] image.spec_paint_at(0, pixel) == (if layer.coverage@[pixel]
                == 0 {
                Paint::Keep
            } else {
                Paint::Replace
            }),
{
    let layers = seq![layer];
    let boxes = boxes_of(layers);
    assert(boxes.drop_last().len() == 0);
    assert(BBox::spec_union_all(boxes.drop_last()) == BBox::spec_nothing());
    assert(boxes.last() == layer.bbox);
    let frame = frame_of(layers);
    assert(frame == layer.bbox);
    let plane = image.planes@[0]@;
    assert(is_plane_of(plane, layers[0], frame));
    let w = frame.width();
    let h = frame.height();
    assert(plane.len() == layer.coverage@.len());
    assert forall|i: int| 0 <= i < plane.len() implies plane[i] == layer.coverage@[i] by {
        if w > 0 {
            let row = i / w;
            let col = i % w;
            assert(i == row * w + col && 0 <= col < w && 0 <= row < h) by (nonlinear_arith)
                requires
                    row == i / w,
                    col == i % w,
                    w > 0,
                    0 <= i < w * h,
            ;
            assert(plane[row * w + col] == plane_value(layer, frame, col, row));
        } else {
            assert(w * h == 0) by (nonlinear_arith)
                requires
                    w == 0,
            ;
        }
    }
    assert(plane =~= layer.coverage@);
    assert forall|pixel: int| 0 <= pixel < layer.coverage@.len() implies #[trigger] image.spec_paint_at(0, pixel)
        == (if layer.coverage@[pixel] == 0 {
        Paint::Keep
    } else {
        Paint::Replace
    }) by {
        assert(!painted_below(image.planes@, 0, pixel));
    }
}

/// Where the outline and the fill both cover a pixel, the outline sets it and
/// the fill is blended over it; where only the fill covers it, the fill sets
/// it. The fill is never painted below the outline.
pub proof fn lemma_outline_then_fill(image: CoverageImage, pixel: int)
    requires
        image.planes@.len() == 2,
    ensures
        image.spec_paint_at(0, pixel) != Paint::Blend,
        image.planes@[0]@[pixel] > 0 && image.planes@[1]@[pixel] > 0 ==> image.spec_paint_at(0, pixel) == Paint::Replace
            && image.spec_paint_at(1, pixel) == Paint::Blend,
        image.planes@[0]@[pixel] == 0 && image.planes@[1]@[pixel] > 0 ==> image.spec_paint_at(0, pixel) == Paint::Keep
            && image.spec_paint_at(1, pixel) == Paint::Replace,
        image.planes@[1]@[pixel] == 0 ==> image.spec_paint_at(1, pixel) == Paint::Keep,
{
    assert(!painted_below(image.planes@, 0, pixel));
    if image.planes@[0]@[pixel] > 0 {
        assert(painted_below(image.planes@, 1, pixel));
    } else {
        assert(!painted_below(image.planes@, 1, pixel));
    }
}

/// Spreads tightly packed pixel rows of four bytes a pixel over rows of
/// `stride` bytes. The bytes of each row keep their order; the bytes that
/// follow them in the row are 0.
pub fn strided(pixels: &Vec<u8>, width: u32, height: u32, stride: u32) -> (out: Vec<u8>)
    requires
        pixels@.len() == width * 4 * height,
        stride >= width * 4,
        stride * height <= usize::MAX,
    ensures
        out@.len() == stride * height,
        forall|row: int, k: int|
            0 <= row < height && 0 <= k < stride ==> #[trigger] out@[row * stride + k] == (if k < width * 4 {
                pixels@[row * (width * 4) + k]
            } else {
                0u8
            }),
{
    let row_bytes: usize = (width as usize) * 4;
    let stride: usize = stride as usize;
    let height: usize = height as usize;
    let total: usize = pixels.len();
    let mut out: Vec<u8> = Vec::new();
    let mut row: usize = 0;
    while row < height
        invariant
            row <= height,
            row_bytes == width * 4,
            row_bytes <= stride,
            stride * height <= usize::MAX,
            pixels@.len() == row_bytes * height,
            total == pixels@.len(),
            out@.len() == row * stride,
            forall|r: int, k: int|
                0 <= r < row && 0 <= k < stride ==> #[trigger] out@[r * stride + k] == (if k < row_bytes {
                    pixels@[r * row_bytes + k]
                } else {
                    0u8
                }),
        decreases height - row,
    {
        let mut k: usize = 0;
        while k < stride
            invariant
                row < height,
                k <= stride,
                row_bytes == width * 4,
                row_bytes <= stride,
                stride * height <= usize::MAX,
                pixels@.len() == row_bytes * height,
                total == pixels@.len(),
                out@.len() == row * stride + k,
                forall|r: int, j: int|
                    0 <= r < row && 0 <= j < stride ==> #[trigger] out@[r * stride + j] == (if j < row_bytes {
                        pixels@[r * row_bytes + j]
                    } else {
                        0u8
                    }),
                forall|j: int|
                    0 <= j < k ==> #[trigger] out@[row * stride + j] == (if j < row_bytes {
                        pixels@[row * row_bytes + j]
                    } else {
                        0u8
                    }),
            decreases stride - k,
        {
            let ghost before = out@;
            let mut value: u8 = 0;
            if k < row_bytes {
                proof {
                    lemma_row_major(row_bytes as int, height as int, k as int, row as int);
                }
                value = pixels[row * row_bytes + k];
            }
            proof {
                lemma_row_major(stride as int, height as int, k as int, row as int);
            }
            out.push(value);
            proof {
                assert forall|r: int, j: int| 0 <= r < row && 0 <= j < stride implies #[trigger] out@[r
                    * stride + j] == (if j < row_bytes {
                    pixels@[r * row_bytes + j]
                } else {
                    0u8
                }) by {
                    lemma_row_major(stride as int, height as int, j, r);
                    assert((r + 1) * stride <= row * stride) by (nonlinear_arith)
                        requires
                            r + 1 <= row,
                            0 < stride,
                    ;
                    assert(out@[r * stride + j] == before[r * stride + j]);
                }
                assert forall|j: int| 0 <= j < k + 1 implies #[trigger] out@[row * stride + j] == (if j
                    < row_bytes {
                    pixels@[row * row_bytes + j]
                } else {
                    0u8
                }) by {
                    if j < k {
                        assert(out@[row * stride + j] == before[row * stride + j]);
                    }
                }
            }
            k += 1;
        }
        proof {
            assert((row + 1) * stride == row * stride + stride) by (nonlinear_arith);
        }
        row += 1;
    }
    proof {
        assert(stride * height == height * stride) by (nonlinear_arith);
        assert forall|r: int, j: int| 0 <= r < height && 0 <= j < stride implies #[trigger] out@[r
            * stride + j] == (if j < width * 4 {
            pixels@[r * (width * 4) + j]
        } else {
            0u8
        }) by {}
    }
    out
}

} // verus!
