//! The values that every operation of the library works on: regions in
//! logical units and in device pixels, displays with their scale factor,
//! captured pixel buffers, and the errors that the operations report.
//!
//! Lengths of a [`LogicalParam`] are counted in logical units. The scale
//! factor of a [`Monitor`] says how many device pixels one logical unit
//! covers, as a ratio of two positive integers, so that no rounding happens
//! before the one rounding step of the transform. A caller that receives
//! fractional coordinates counts in a finer unit and folds that unit into
//! the denominator of the ratio.

use vstd::prelude::*;
use crate::transform::{
    clamped, lemma_to_physical_within, rounds_to_nearest, scale_length, scaled_region,
    to_physical, within,
};

verus! {

/// A positive rational number `numer / denom`.
pub struct Ratio {
    pub numer: int,
    pub denom: int,
}

impl Ratio {
    pub open spec fn positive(self) -> bool {
        self.numer > 0 && self.denom > 0
    }

    /// The ratio 1/1: one device pixel per logical unit.
    pub open spec fn unit() -> Ratio {
        Ratio { numer: 1, denom: 1 }
    }
}

/// The scale factor of a display: device pixels per logical unit.
#[derive(Clone, Copy, Debug)]
pub struct ScaleFactor {
    numer: u32,
    denom: u32,
}

impl View for ScaleFactor {
    type V = Ratio;

    closed spec fn view(&self) -> Ratio {
        Ratio { numer: self.numer as int, denom: self.denom as int }
    }
}

impl ScaleFactor {
    #[verifier::type_invariant]
    pub open spec fn inv(&self) -> bool {
        self@.positive()
    }

    /// The ratio `numer / denom`, or `None` when either part is zero.
    pub fn new(numer: u32, denom: u32) -> (r: Option<ScaleFactor>)
        ensures
            r is Some <==> numer > 0 && denom > 0,
            r matches Some(s) ==> s@ == (Ratio { numer: numer as int, denom: denom as int }),
    {
        if numer > 0 && denom > 0 {
            Some(ScaleFactor { numer, denom })
        } else {
            None
        }
    }

    /// The scale factor 1/1, used for a display that reports none.
    pub fn identity() -> (r: ScaleFactor)
        ensures
            r@ == Ratio::unit(),
    {
        ScaleFactor { numer: 1, denom: 1 }
    }

    pub fn numer(&self) -> (r: u32)
        ensures
            r == self@.numer,
            r > 0,
    {
        proof {
            use_type_invariant(self);
        }
        self.numer
    }

    pub fn denom(&self) -> (r: u32)
        ensures
            r == self@.denom,
            r > 0,
    {
        proof {
            use_type_invariant(self);
        }
        self.denom
    }
}

/// A rectangle with integer coordinates.
pub struct Region {
    pub left: int,
    pub top: int,
    pub width: int,
    pub height: int,
}

/// Mathematical value of a [`LogicalParam`].
pub struct LogicalRegion {
    pub left: int,
    pub top: int,
    pub width: int,
    pub height: int,
    pub origin_x: int,
    pub origin_y: int,
}

impl LogicalRegion {
    /// A region can be captured only if it starts at a non-negative offset
    /// and is not empty.
    pub open spec fn valid(self) -> bool {
        self.left >= 0 && self.top >= 0 && self.width > 0 && self.height > 0
    }
}

/// What kind of failure an [`Error`] reports.
#[derive(Clone, Copy, Debug, PartialEq, Eq, Structural)]
pub enum ErrorKind {
    /// A request was malformed or out of range.
    Validation,
    /// No attached display has the requested origin.
    MonitorNotFound,
    /// The platform could not enumerate or capture a display.
    CaptureFailure,
    /// An image could not be encoded.
    EncodingFailure,
    /// The encoder process could not be started.
    ProcessSpawnFailure,
    /// The encoder process could not be told to stop.
    ProcessSignalFailure,
    /// A pin or a recording session that was asked for does not exist.
    StateNotFound,
}

/// Mathematical value of an [`Error`].
pub struct Failure {
    pub kind: ErrorKind,
    pub text: Seq<char>,
}

/// A failure of one of the library's operations, with a readable message.
#[derive(Debug)]
pub struct Error {
    pub kind: ErrorKind,
    pub message: String,
}

impl View for Error {
    type V = Failure;

    open spec fn view(&self) -> Failure {
        Failure { kind: self.kind, text: self.message@ }
    }
}

impl Error {
    /// This error is of kind `kind` and carries the message `text`.
    pub open spec fn says(self, kind: ErrorKind, text: Seq<char>) -> bool {
        self@ == (Failure { kind, text })
    }

    pub fn new(kind: ErrorKind, message: &str) -> (r: Error)
        ensures
            r.says(kind, message@),
    {
        Error { kind, message: message.to_owned() }
    }
}

/// A region of a display in logical units, with the logical origin of the
/// display whose coordinate space it belongs to.
#[derive(Clone, Copy, Debug)]
pub struct LogicalParam {
    pub left: i32,
    pub top: i32,
    pub width: i32,
    pub height: i32,
    pub screen_x: i32,
    pub screen_y: i32,
}

impl View for LogicalParam {
    type V = LogicalRegion;

    open spec fn view(&self) -> LogicalRegion {
        LogicalRegion {
            left: self.left as int,
            top: self.top as int,
            width: self.width as int,
            height: self.height as int,
            origin_x: self.screen_x as int,
            origin_y: self.screen_y as int,
        }
    }
}

impl LogicalParam {
    /// Accepts exactly the valid regions.
    pub fn validate(&self) -> (r: Result<(), Error>)
        ensures
            r is Ok <==> self@.valid(),
            r matches Err(e) ==> e.says(ErrorKind::Validation, "invalid param"@),
    {
        if self.left < 0 || self.top < 0 || self.width <= 0 || self.height <= 0 {
            return Err(Error::new(ErrorKind::Validation, "invalid param"));
        }
        Ok(())
    }
}

/// Mathematical value of a [`Monitor`].
pub struct MonitorView {
    pub id: int,
    /// Logical origin, where the platform reports one.
    pub x: Option<int>,
    pub y: Option<int>,
    /// Extent in device pixels.
    pub width: int,
    pub height: int,
    /// Scale factor: the one that the platform reports, or 1/1.
    pub scale: Ratio,
}

impl MonitorView {
    /// A display has at least one pixel in each direction, and a positive
    /// scale factor.
    pub open spec fn wf(self) -> bool {
        &&& self.width >= 1
        &&& self.height >= 1
        &&& self.scale.positive()
    }

    /// The display's logical origin is exactly `(x, y)`.
    pub open spec fn at_origin(self, x: int, y: int) -> bool {
        self.x == Some(x) && self.y == Some(y)
    }
}

/// An attached display, as the platform described it when it was asked.
#[derive(Clone, Copy, Debug)]
pub struct Monitor {
    id: u32,
    x: Option<i32>,
    y: Option<i32>,
    width: u32,
    height: u32,
    scale_factor: ScaleFactor,
}

impl View for Monitor {
    type V = MonitorView;

    closed spec fn view(&self) -> MonitorView {
        MonitorView {
            id: self.id as int,
            x: match self.x {
                Some(v) => Some(v as int),
                None => None,
            },
            y: match self.y {
                Some(v) => Some(v as int),
                None => None,
            },
            width: self.width as int,
            height: self.height as int,
            scale: self.scale_factor@,
        }
    }
}

impl Monitor {
    #[verifier::type_invariant]
    pub open spec fn inv(&self) -> bool {
        self@.wf()
    }

    /// Describes a display. `x`, `y` and `scale_factor` are `None` where the
    /// platform could not report them; a display without a scale factor is
    /// given the factor 1/1. `width` and `height` are the extent in device
    /// pixels. Returns `None` for an empty extent.
    pub fn new(
        id: u32,
        x: Option<i32>,
        y: Option<i32>,
        width: u32,
        height: u32,
        scale_factor: Option<ScaleFactor>,
    ) -> (r: Option<Monitor>)
        ensures
            r is Some <==> width >= 1 && height >= 1,
            r matches Some(m) ==> {
                &&& m@.id == id
                &&& m@.x == match x {
                    Some(v) => Some(v as int),
                    None => None,
                }
                &&& m@.y == match y {
                    Some(v) => Some(v as int),
                    None => None,
                }
                &&& m@.width == width
                &&& m@.height == height
                &&& m@.scale == match scale_factor {
                    Some(s) => s@,
                    None => Ratio::unit(),
                }
            },
    {
        if width >= 1 && height >= 1 {
            let scale_factor = match scale_factor {
                Some(s) => s,
                None => ScaleFactor::identity(),
            };
            proof {
                use_type_invariant(scale_factor);
            }
            Some(Monitor { id, x, y, width, height, scale_factor })
        } else {
            None
        }
    }

    pub fn id(&self) -> (r: u32)
        ensures
            r == self@.id,
    {
        self.id
    }

    pub fn width(&self) -> (r: u32)
        ensures
            r == self@.width,
            r >= 1,
    {
        proof {
            use_type_invariant(self);
        }
        self.width
    }

    pub fn height(&self) -> (r: u32)
        ensures
            r == self@.height,
            r >= 1,
    {
        proof {
            use_type_invariant(self);
        }
        self.height
    }

    /// The scale factor to transform with: the reported one, or 1/1.
    pub fn scale_factor(&self) -> (r: ScaleFactor)
        ensures
            r@ == self@.scale,
            r@.positive(),
    {
        proof {
            use_type_invariant(self);
        }
        self.scale_factor
    }

    /// Whether the display reports exactly the logical origin `(x, y)`.
    pub fn is_at(&self, x: i32, y: i32) -> (r: bool)
        ensures
            r == self@.at_origin(x as int, y as int),
    {
        match (self.x, self.y) {
            (Some(mx), Some(my)) => mx == x && my == y,
            _ => false,
        }
    }
}

/// A rectangle of device pixels on a display.
#[derive(Clone, Copy, Debug, PartialEq, Eq, Structural)]
pub struct PhysicalParam {
    pub left: u32,
    pub top: u32,
    pub width: u32,
    pub height: u32,
}

impl View for PhysicalParam {
    type V = Region;

    open spec fn view(&self) -> Region {
        Region {
            left: self.left as int,
            top: self.top as int,
            width: self.width as int,
            height: self.height as int,
        }
    }
}

impl PhysicalParam {
    /// Transforms a logical region to the device pixels of `monitor`. The
    /// result is never empty and never leaves the display.
    pub fn new(monitor: &Monitor, param: &LogicalParam) -> (r: Self)
        ensures
            r@ == to_physical(monitor@, param@),
            within(r@, monitor@.width, monitor@.height),
            rounds_to_nearest(param@, monitor@.scale),
    {
        proof {
            use_type_invariant(monitor);
            lemma_to_physical_within(monitor@, param@);
        }
        Self::scaled(monitor.scale_factor(), param).clamp(monitor.width(), monitor.height())
    }

    /// Scales each length of a logical region on its own, without regard to
    /// any display's extent.
    pub fn scaled(scale: ScaleFactor, param: &LogicalParam) -> (r: Self)
        ensures
            r@ == scaled_region(param@, scale@),
            rounds_to_nearest(param@, scale@),
    {
        PhysicalParam {
            left: scale_length(param.left, scale),
            top: scale_length(param.top, scale),
            width: scale_length(param.width, scale),
            height: scale_length(param.height, scale),
        }
    }

    /// Moves and cuts the rectangle so that it lies on a display of `width`
    /// by `height` pixels and is at least one pixel wide and high.
    pub fn clamp(self, width: u32, height: u32) -> (r: Self)
        requires
            width >= 1,
            height >= 1,
        ensures
            r@ == clamped(self@, width as int, height as int),
            within(r@, width as int, height as int),
    {
        let left = if self.left < width { self.left } else { width - 1 };
        let top = if self.top < height { self.top } else { height - 1 };
        let wanted_width = if self.width >= 1 { self.width } else { 1 };
        let wanted_height = if self.height >= 1 { self.height } else { 1 };
        PhysicalParam {
            left,
            top,
            width: if wanted_width <= width - left { wanted_width } else { width - left },
            height: if wanted_height <= height - top { wanted_height } else { height - top },
        }
    }
}

/// Mathematical value of a [`PixelBuffer`].
pub struct PixelBufferView {
    pub width: int,
    pub height: int,
    /// The pixels row by row, four bytes each: red, green, blue, alpha.
    pub data: Seq<u8>,
}

impl PixelBufferView {
    /// There are exactly four bytes for each pixel.
    pub open spec fn wf(self) -> bool {
        &&& self.width >= 0
        &&& self.height >= 0
        &&& self.data.len() == 4 * self.width * self.height
    }
}

/// Captured pixels: `width` by `height` of them, in RGBA8.
#[derive(Debug)]
pub struct PixelBuffer {
    width: u32,
    height: u32,
    data: Vec<u8>,
}

impl View for PixelBuffer {
    type V = PixelBufferView;

    closed spec fn view(&self) -> PixelBufferView {
        PixelBufferView {
            width: self.width as int,
            height: self.height as int,
            data: self.data@,
        }
    }
}

impl PixelBuffer {
    #[verifier::type_invariant]
    pub open spec fn inv(&self) -> bool {
        self@.wf()
    }

    /// Takes what a capture returned, or `None` when the number of bytes is
    /// not four for each pixel.
    pub fn new(width: u32, height: u32, data: Vec<u8>) -> (r: Option<PixelBuffer>)
        ensures
            r is Some <==> data@.len() == 4 * width * height,
            r matches Some(buffer) ==> buffer@ == (PixelBufferView {
                width: width as int,
                height: height as int,
                data: data@,
            }),
    {
        assert(4 * width * height <= 4 * 0x1_0000_0000 * 0x1_0000_0000) by (nonlinear_arith)
            requires
                0 <= width <= 0x1_0000_0000,
                0 <= height <= 0x1_0000_0000,
        ;
        let expected: u128 = 4 * (width as u128) * (height as u128);
        if data.len() as u128 == expected {
            Some(PixelBuffer { width, height, data })
        } else {
            None
        }
    }

    pub fn width(&self) -> (r: u32)
        ensures
            r == self@.width,
    {
        self.width
    }

    pub fn height(&self) -> (r: u32)
        ensures
            r == self@.height,
    {
        self.height
    }

    /// The bytes of the pixels.
    pub fn data(&self) -> (r: &Vec<u8>)
        ensures
            r@ == self@.data,
            self@.wf(),
    {
        proof {
            use_type_invariant(self);
        }
        &self.data
    }
}

} // verus!
