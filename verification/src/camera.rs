//! The camera: what an image is made with, and the image as it fills.
//!
//! Rendering takes arithmetic and decisions in turn. The camera says which
//! pixel is next; the caller shoots the sample rays through it, averages what
//! they bring back and hands in the pixel's bytes; the camera stores them.
//! When no pixel is left the camera gives the image as a file.

use vstd::prelude::*;
use vstd::string::StringExecFns;
use crate::vector::Vec3;
use crate::output::Format;
use crate::output::rows_of;
use crate::output::rectangular;
use crate::output::tga_file;
use crate::output::bmp_file;
use crate::output::tga_bytes;
use crate::output::bmp_bytes;

verus! {

/// Why a camera cannot be set up.
#[derive(Clone, Copy, Debug, PartialEq, Eq, Structural)]
pub enum ConfigError {
    /// The image would have no columns.
    ZeroWidth,
    /// The image would have no rows.
    ZeroHeight,
    /// No ray would be shot through a pixel.
    ZeroSamples,
}

/// A camera with the image it takes.
pub struct Camera {
    image_width: u16,
    image_height: u16,
    center: Vec3,
    pixel_delta_u: Vec3,
    pixel_delta_v: Vec3,
    viewport_pixel_origin: Vec3,
    image_data: Vec<Vec<u8>>,
    filename: String,
    samples: u32,
    max_depth: u32,
    recorded: u32,
}

/// What a camera holds.
pub struct CameraView {
    /// The number of pixels in a row.
    pub image_width: u16,
    /// The number of rows.
    pub image_height: u16,
    /// The point that all rays start from.
    pub center: Vec3,
    /// The step from a pixel to its right neighbour.
    pub pixel_delta_u: Vec3,
    /// The step from a pixel to its upper neighbour.
    pub pixel_delta_v: Vec3,
    /// The centre of the pixel at the lower left.
    pub viewport_pixel_origin: Vec3,
    /// The rows of the image, bottom row first, three bytes per pixel in the
    /// order blue, green, red.
    pub image_data: Seq<Seq<u8>>,
    /// The name of the file without its extension.
    pub filename: Seq<char>,
    /// The number of rays shot through each pixel.
    pub samples: u32,
    /// The number of bounces after which a ray brings back no light.
    pub max_depth: u32,
    /// The number of pixels stored so far.
    pub recorded: nat,
}

/// The number of pixels of row `y` that are stored once `recorded` pixels
/// are, in an image `width` pixels wide that fills row by row.
pub open spec fn filled(recorded: nat, width: int, y: int) -> int {
    if recorded <= y * width {
        0
    } else if recorded >= (y + 1) * width {
        width
    } else {
        recorded - y * width
    }
}

impl CameraView {
    /// The image has at least one pixel, every pixel gets at least one
    /// sample, and the rows are filled from the bottom up and from left to
    /// right as far as pixels were stored.
    pub open spec fn wf(self) -> bool {
        &&& self.image_width >= 1
        &&& self.image_height >= 1
        &&& self.samples >= 1
        &&& self.image_data.len() == self.image_height
        &&& self.recorded <= self.image_width * self.image_height
        &&& forall|y: int|
            0 <= y < self.image_height ==> (#[trigger] self.image_data[y]).len() == 3 * filled(
                self.recorded,
                self.image_width as int,
                y,
            )
    }

    /// The pixel to shade next, as column and row; none when the image is
    /// complete. Rows come from the bottom up, the pixels of a row from left
    /// to right.
    pub open spec fn pending(self) -> Option<(u16, u16)> {
        if self.recorded < self.image_width * self.image_height {
            Some(
                (
                    (self.recorded as int % self.image_width as int) as u16,
                    (self.recorded as int / self.image_width as int) as u16,
                ),
            )
        } else {
            None
        }
    }

    /// The camera after one more pixel was stored: its bytes stand at the end
    /// of the pending row, blue first.
    pub open spec fn stored(self, bytes: (u8, u8, u8)) -> CameraView {
        match self.pending() {
            Some((x, y)) => CameraView {
                image_data: self.image_data.update(
                    y as int,
                    self.image_data[y as int] + seq![bytes.2, bytes.1, bytes.0],
                ),
                recorded: self.recorded + 1,
                ..self
            },
            None => self,
        }
    }

    /// The camera after pixels were stored one after the other.
    pub open spec fn stored_all(self, pixels: Seq<(u8, u8, u8)>) -> CameraView
        decreases pixels.len(),
    {
        if pixels.len() == 0 {
            self
        } else {
            self.stored_all(pixels.drop_last()).stored(pixels.last())
        }
    }

    /// Whether pixel `k` in the order of rendering stands in the image with
    /// the given bytes for red, green and blue: in row `k / width`, from
    /// place `3 * (k % width)` on, blue first.
    pub open spec fn shows(self, k: int, bytes: (u8, u8, u8)) -> bool {
        let x = k % (self.image_width as int);
        let y = k / (self.image_width as int);
        let row = self.image_data[y];
        &&& 0 <= y < self.image_height
        &&& 3 * x + 2 < row.len()
        &&& row[3 * x] == bytes.2
        &&& row[3 * x + 1] == bytes.1
        &&& row[3 * x + 2] == bytes.0
    }
}

/// The camera that `Camera::default` gives: 256 by 256 pixels, ten samples
/// per pixel, fifteen bounces, at the origin, looking down the negative z
/// axis at a viewport two units wide and high, one unit away.
pub open spec fn default_view() -> CameraView {
    CameraView {
        image_width: 256,
        image_height: 256,
        center: Vec3::zero(),
        pixel_delta_u: Vec3 {
            x: crate::scalar::Scalar { bits: 0x3c00_0000 },
            y: crate::scalar::Scalar { bits: 0 },
            z: crate::scalar::Scalar { bits: 0 },
        },
        pixel_delta_v: Vec3 {
            x: crate::scalar::Scalar { bits: 0 },
            y: crate::scalar::Scalar { bits: 0x3c00_0000 },
            z: crate::scalar::Scalar { bits: 0 },
        },
        viewport_pixel_origin: Vec3 {
            x: crate::scalar::Scalar { bits: 0xbf7f_0000 },
            y: crate::scalar::Scalar { bits: 0xbf7f_0000 },
            z: crate::scalar::Scalar { bits: 0xbf80_0000 },
        },
        image_data: Seq::new(256, |y: int| Seq::<u8>::empty()),
        filename: "output"@,
        samples: 10,
        max_depth: 15,
        recorded: 0,
    }
}

impl View for Camera {
    type V = CameraView;

    closed spec fn view(&self) -> CameraView {
        CameraView {
            image_width: self.image_width,
            image_height: self.image_height,
            center: self.center,
            pixel_delta_u: self.pixel_delta_u,
            pixel_delta_v: self.pixel_delta_v,
            viewport_pixel_origin: self.viewport_pixel_origin,
            image_data: rows_of(self.image_data@),
            filename: self.filename@,
            samples: self.samples,
            max_depth: self.max_depth,
            recorded: self.recorded as nat,
        }
    }
}

fn empty_rows(height: u16) -> (rows: Vec<Vec<u8>>)
    ensures
        rows_of(rows@) == Seq::new(height as nat, |y: int| Seq::<u8>::empty()),
{
    let mut rows: Vec<Vec<u8>> = Vec::new();
    let mut y: u16 = 0;
    while y < height
        invariant
            y <= height,
            rows@.len() == y,
            forall|k: int| 0 <= k < y ==> (#[trigger] rows@[k])@ == Seq::<u8>::empty(),
        decreases height - y,
    {
        rows.push(Vec::new());
        y += 1;
    }
    assert(rows_of(rows@) =~= Seq::new(height as nat, |y: int| Seq::<u8>::empty()));
    rows
}

impl Camera {
    /// Whether the camera is one that `new` or `default` made and the
    /// methods kept. Every camera outside this module is.
    pub open spec fn wf(&self) -> bool {
        self@.wf()
    }

    /// The camera for an image of `image_width` by `image_height` pixels,
    /// with nothing stored yet.
    ///
    /// The caller derives the viewport from the size of the image: the
    /// steps from pixel to pixel and the centre of the lower left pixel. A
    /// camera without pixels or without samples is refused: the width is
    /// looked at first, then the height, then the samples.
    pub fn new(
        image_width: u16,
        image_height: u16,
        samples: u32,
        max_depth: u32,
        center: Vec3,
        pixel_delta_u: Vec3,
        pixel_delta_v: Vec3,
        viewport_pixel_origin: Vec3,
        filename: String,
    ) -> (made: Result<Camera, ConfigError>)
        ensures
            image_width == 0 ==> made == Err::<Camera, ConfigError>(ConfigError::ZeroWidth),
            image_width != 0 && image_height == 0 ==> made == Err::<Camera, ConfigError>(
                ConfigError::ZeroHeight,
            ),
            image_width != 0 && image_height != 0 && samples == 0 ==> made == Err::<
                Camera,
                ConfigError,
            >(ConfigError::ZeroSamples),
            image_width != 0 && image_height != 0 && samples != 0 ==> made is Ok && made->Ok_0.wf()
                && made->Ok_0@ == (CameraView {
                image_width,
                image_height,
                center,
                pixel_delta_u,
                pixel_delta_v,
                viewport_pixel_origin,
                image_data: Seq::new(image_height as nat, |y: int| Seq::<u8>::empty()),
                filename: filename@,
                samples,
                max_depth,
                recorded: 0,
            }),
    {
        if image_width == 0 {
            return Err(ConfigError::ZeroWidth);
        }
        if image_height == 0 {
            return Err(ConfigError::ZeroHeight);
        }
        if samples == 0 {
            return Err(ConfigError::ZeroSamples);
        }
        let image_data = empty_rows(image_height);
        let camera = Camera {
            image_width,
            image_height,
            center,
            pixel_delta_u,
            pixel_delta_v,
            viewport_pixel_origin,
            image_data,
            filename,
            samples,
            max_depth,
            recorded: 0,
        };
        proof {
            lemma_nothing_filled(image_width as int, image_height as int);
        }
        Ok(camera)
    }

    /// The camera for a square image of 256 pixels a side, named `output`.
    pub fn default() -> (camera: Camera)
        ensures
            camera.wf(),
            camera@ == default_view(),
    {
        let delta = crate::scalar::Scalar::from_bits(0x3c00_0000);
        let zero = crate::scalar::Scalar::zero();
        let corner = crate::scalar::Scalar::from_bits(0xbf7f_0000);
        let image_data = empty_rows(256);
        let camera = Camera {
            image_width: 256,
            image_height: 256,
            center: Vec3::zero(),
            pixel_delta_u: Vec3::new(delta, zero, zero),
            pixel_delta_v: Vec3::new(zero, delta, zero),
            viewport_pixel_origin: Vec3::new(
                corner,
                corner,
                crate::scalar::Scalar::from_bits(0xbf80_0000),
            ),
            image_data,
            filename: String::from_str("output"),
            samples: 10,
            max_depth: 15,
            recorded: 0,
        };
        proof {
            lemma_nothing_filled(256, 256);
        }
        camera
    }

    fn pixels(&self) -> (total: u32)
        ensures
            total == self.image_width * self.image_height,
    {
        assert(self.image_width * self.image_height <= 0xffff * 0xffff) by (nonlinear_arith)
            requires
                self.image_width <= 0xffff,
                self.image_height <= 0xffff,
        ;
        self.image_width as u32 * self.image_height as u32
    }

    /// The number of pixels in a row.
    pub fn image_width(&self) -> (width: u16)
        ensures
            width == self@.image_width,
    {
        self.image_width
    }

    /// The number of rows.
    pub fn image_height(&self) -> (height: u16)
        ensures
            height == self@.image_height,
    {
        self.image_height
    }

    /// The point that all rays start from.
    pub fn center(&self) -> (center: Vec3)
        ensures
            center == self@.center,
    {
        self.center
    }

    /// The step from a pixel to its right neighbour.
    pub fn pixel_delta_u(&self) -> (delta: Vec3)
        ensures
            delta == self@.pixel_delta_u,
    {
        self.pixel_delta_u
    }

    /// The step from a pixel to its upper neighbour.
    pub fn pixel_delta_v(&self) -> (delta: Vec3)
        ensures
            delta == self@.pixel_delta_v,
    {
        self.pixel_delta_v
    }

    /// The centre of the pixel at the lower left.
    pub fn viewport_pixel_origin(&self) -> (origin: Vec3)
        ensures
            origin == self@.viewport_pixel_origin,
    {
        self.viewport_pixel_origin
    }

    /// The number of rays shot through each pixel.
    pub fn samples(&self) -> (samples: u32)
        ensures
            samples == self@.samples,
    {
        self.samples
    }

    /// The number of bounces after which a ray brings back no light.
    pub fn max_depth(&self) -> (depth: u32)
        ensures
            depth == self@.max_depth,
    {
        self.max_depth
    }

    /// The rows of the image as far as they are filled.
    pub fn image_data(&self) -> (rows: &Vec<Vec<u8>>)
        ensures
            rows_of(rows@) == self@.image_data,
    {
        &self.image_data
    }

    /// Sets the number of rays shot through each pixel. Zero is refused, and
    /// the camera stays as it was.
    pub fn set_samples(&mut self, samples: u32) -> (set: Result<(), ConfigError>)
        requires
            old(self).wf(),
        ensures
            final(self).wf(),
            samples == 0 ==> set == Err::<(), ConfigError>(ConfigError::ZeroSamples) && final(self)@
                == old(self)@,
            samples != 0 ==> set == Ok::<(), ConfigError>(()) && final(self)@ == (CameraView {
                samples,
                ..old(self)@
            }),
    {
        if samples == 0 {
            return Err(ConfigError::ZeroSamples);
        }
        self.samples = samples;
        Ok(())
    }

    /// The pixel to shade next, as column and row; none when the image is
    /// complete.
    pub fn next_pixel(&self) -> (next: Option<(u16, u16)>)
        requires
            self.wf(),
        ensures
            next == self@.pending(),
            next matches Some((x, y)) ==> x < self@.image_width && y < self@.image_height
                && self@.image_data[y as int].len() == 3 * x,
    {
        let total: u32 = self.pixels();
        if self.recorded >= total {
            return None;
        }
        let x: u32 = self.recorded % self.image_width as u32;
        let y: u32 = self.recorded / self.image_width as u32;
        proof {
            lemma_cursor(self.recorded as nat, self.image_width as int, self.image_height as int);
        }
        Some((x as u16, y as u16))
    }

    /// Stores the bytes of the pending pixel, given as red, green and blue:
    /// they go to the end of the pending row in the order blue, green, red.
    /// Gives `false`, and stores nothing, when the image is complete.
    pub fn record(&mut self, bytes: (u8, u8, u8)) -> (stored: bool)
        requires
            old(self).wf(),
        ensures
            final(self).wf(),
            stored == old(self)@.pending().is_some(),
            final(self)@ == old(self)@.stored(bytes),
    {
        let total: u32 = self.pixels();
        if self.recorded >= total {
            return false;
        }
        let y: usize = (self.recorded / self.image_width as u32) as usize;
        let ghost before = self@;
        proof {
            lemma_cursor(self.recorded as nat, self.image_width as int, self.image_height as int);
        }
        let ghost rows = self.image_data@;
        let row = &mut self.image_data[y];
        row.push(bytes.2);
        row.push(bytes.1);
        row.push(bytes.0);
        self.recorded = self.recorded + 1;
        proof {
            let after = self@;
            let width = self.image_width as int;
            assert(self.image_data@.len() == rows.len());
            assert(self.image_data@[y as int]@ =~= rows[y as int]@ + seq![bytes.2, bytes.1, bytes.0]);
            assert forall|k: int| 0 <= k < rows.len() && k != y implies self.image_data@[k]
                == rows[k] by {}
            assert(after.image_data =~= before.image_data.update(
                y as int,
                before.image_data[y as int] + seq![bytes.2, bytes.1, bytes.0],
            ));
            lemma_stored(before, bytes);
        }
        true
    }

    /// Whether every pixel is stored.
    pub fn is_complete(&self) -> (complete: bool)
        requires
            self.wf(),
        ensures
            complete == self@.pending().is_none(),
    {
        let total: u32 = self.pixels();
        self.recorded >= total
    }

    /// The bytes of the file that holds the image in the given container.
    pub fn encode(&self, format: Format) -> (file: Vec<u8>)
        requires
            self.wf(),
        ensures
            format == Format::BMP ==> file@ == bmp_file(self@.image_data),
            format == Format::TGA ==> file@ == tga_file(self@.image_data),
    {
        match format {
            Format::BMP => bmp_bytes(self.image_data.as_slice()),
            Format::TGA => tga_bytes(self.image_data.as_slice()),
        }
    }

    /// The name of the file for the given container: the camera's file name
    /// with the container's extension.
    pub fn file_name(&self, format: Format) -> (name: String)
        ensures
            name@ == self@.filename + format.spec_extension(),
    {
        self.filename.clone().concat(format.extension())
    }
}

/// In an image without stored pixels no row holds a pixel.
proof fn lemma_nothing_filled(width: int, height: int)
    requires
        width >= 1,
        height >= 1,
    ensures
        0 <= width * height,
        forall|y: int| 0 <= y < height ==> #[trigger] filled(0, width, y) == 0,
{
    assert(0 <= width * height) by (nonlinear_arith)
        requires
            width >= 1,
            height >= 1,
    ;
    assert forall|y: int| 0 <= y < height implies #[trigger] filled(0, width, y) == 0 by {
        assert(0 <= y * width) by (nonlinear_arith)
            requires
                0 <= y,
                width >= 1,
        ;
    }
}

/// Where the cursor of an incomplete image points.
proof fn lemma_cursor(recorded: nat, width: int, height: int)
    requires
        width >= 1,
        height >= 1,
        recorded < width * height,
    ensures
        0 <= recorded as int % width < width,
        0 <= recorded as int / width < height,
        filled(recorded, width, recorded as int / width) == recorded as int % width,
{
    let x = recorded as int % width;
    let y = recorded as int / width;
    assert(recorded == width * y + x) by {
        vstd::arithmetic::div_mod::lemma_fundamental_div_mod(recorded as int, width);
    }
    assert(0 <= y) by (nonlinear_arith)
        requires
            recorded == width * y + x,
            0 <= x < width,
            recorded >= 0,
    ;
    assert(y < height) by (nonlinear_arith)
        requires
            recorded == width * y + x,
            0 <= x < width,
            recorded < width * height,
            width >= 1,
    ;
    assert(y * width == width * y && (y + 1) * width == width * y + width) by (nonlinear_arith);
}

/// Storing one pixel more fills one place more in the row of the cursor and
/// leaves every other row as it was.
proof fn lemma_one_more(recorded: nat, width: int, y: int, k: int)
    requires
        width >= 1,
        y == recorded as int / width,
        0 <= k,
    ensures
        filled(recorded + 1, width, k) == filled(recorded, width, k) + if k == y {
            1int
        } else {
            0int
        },
{
    let x = recorded as int % width;
    assert(recorded == width * y + x) by {
        vstd::arithmetic::div_mod::lemma_fundamental_div_mod(recorded as int, width);
    }
    assert(y * width == width * y && (y + 1) * width == width * y + width) by (nonlinear_arith);
    assert((k + 1) * width == k * width + width) by (nonlinear_arith);
    if k < y {
        assert((k + 1) * width <= y * width) by (nonlinear_arith)
            requires
                k + 1 <= y,
                width >= 1,
        ;
    } else if k > y {
        assert(k * width >= (y + 1) * width) by (nonlinear_arith)
            requires
                k >= y + 1,
                width >= 1,
        ;
    }
}

/// Storing a pixel keeps a camera well formed, shows the pixel at its place
/// and moves no pixel stored before.
pub proof fn lemma_stored(camera: CameraView, bytes: (u8, u8, u8))
    requires
        camera.wf(),
        camera.pending().is_some(),
    ensures
        camera.stored(bytes).wf(),
        camera.stored(bytes).recorded == camera.recorded + 1,
        camera.stored(bytes).shows(camera.recorded as int, bytes),
        forall|k: int, other: (u8, u8, u8)|
            0 <= k < camera.recorded && #[trigger] camera.shows(k, other) ==> camera.stored(
                bytes,
            ).shows(k, other),
{
    let width = camera.image_width as int;
    let after = camera.stored(bytes);
    let x = camera.recorded as int % width;
    let y = camera.recorded as int / width;
    lemma_cursor(camera.recorded, width, camera.image_height as int);
    assert(camera.image_data[y].len() == 3 * x);
    assert forall|k: int| 0 <= k < after.image_height implies (#[trigger] after.image_data[k]).len()
        == 3 * filled(after.recorded, width, k) by {
        lemma_one_more(camera.recorded, width, y, k);
        assert(camera.image_data[k].len() == 3 * filled(camera.recorded, width, k));
    }
    assert forall|k: int, other: (u8, u8, u8)|
        0 <= k < camera.recorded && #[trigger] camera.shows(k, other) implies after.shows(
        k,
        other,
    ) by {
        let row = k / width;
        if row == y {
            assert(after.image_data[row] == camera.image_data[y] + seq![bytes.2, bytes.1, bytes.0]);
        } else {
            assert(after.image_data[row] == camera.image_data[row]);
        }
    }
}

/// The image is laid out as it was rendered: after the pixels of an image
/// were stored in the order in which the camera asks for them, each stands
/// in its row at its place, as blue, green and red, and where as many were
/// stored as the image has pixels, none is pending.
pub proof fn lemma_image_layout(fresh: CameraView, pixels: Seq<(u8, u8, u8)>)
    requires
        fresh.wf(),
        fresh.recorded == 0,
        pixels.len() <= fresh.image_width * fresh.image_height,
    ensures
        fresh.stored_all(pixels).wf(),
        fresh.stored_all(pixels).recorded == pixels.len(),
        fresh.stored_all(pixels).image_width == fresh.image_width,
        fresh.stored_all(pixels).image_height == fresh.image_height,
        forall|k: int|
            0 <= k < pixels.len() ==> fresh.stored_all(pixels).shows(k, #[trigger] pixels[k]),
        pixels.len() == fresh.image_width * fresh.image_height ==> fresh.stored_all(
            pixels,
        ).pending().is_none(),
    decreases pixels.len(),
{
    if pixels.len() > 0 {
        let front = pixels.drop_last();
        lemma_image_layout(fresh, front);
        let before = fresh.stored_all(front);
        lemma_stored(before, pixels.last());
        let after = fresh.stored_all(pixels);
        assert forall|k: int| 0 <= k < pixels.len() implies after.shows(k, #[trigger] pixels[k]) by {
            if k < front.len() {
                assert(front[k] == pixels[k]);
                assert(before.shows(k, front[k]));
            }
        }
    }
}

/// A complete image has as many rows as the camera's height says, each as
/// many pixels wide as its width says: what the two containers take.
pub proof fn lemma_complete_is_rectangular(camera: CameraView)
    requires
        camera.wf(),
        camera.pending().is_none(),
    ensures
        rectangular(camera.image_data, camera.image_width as int, camera.image_height as int),
{
    let width = camera.image_width as int;
    assert forall|y: int| 0 <= y < camera.image_height implies (#[trigger] camera.image_data[y]).len()
        == 3 * width by {
        assert((y + 1) * width <= camera.image_height * width) by (nonlinear_arith)
            requires
                y + 1 <= camera.image_height,
                width >= 1,
        ;
        assert(camera.image_height * width == camera.image_width * camera.image_height)
            by (nonlinear_arith)
            requires
                width == camera.image_width,
        ;
        assert((y + 1) * width == y * width + width) by (nonlinear_arith);
        assert(filled(camera.recorded, width, y) == width);
    }
}

} // verus!
