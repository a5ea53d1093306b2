//! The wire vocabulary: every value that crosses the socket.
//!
//! These are plain data with invariants; the JSON text they travel as is the
//! business of [`crate::codec`].

use vstd::prelude::*;

use crate::geom::BoundingRectangle;
use crate::geom::Point;
use crate::keys::Key;
use crate::screen::Screen;
use crate::screen::ScreenV;

verus! {

/// The direction of a key or button.  `Click` is a press followed by a
/// release, performed driver-side.  When a token omits the direction on the
/// wire, it defaults to `Click`.
#[derive(Clone, Copy, Debug, PartialEq, Eq, Structural)]
pub enum Direction {
    Press,
    Release,
    Click,
}

impl Default for Direction {
    fn default() -> (r: Self)
        ensures
            r == Direction::Click,
    {
        Direction::Click
    }
}

/// A mouse button, or one of the scroll pseudo-buttons.
#[derive(Clone, Copy, Debug, PartialEq, Eq, Structural)]
pub enum Button {
    Left,
    Middle,
    Right,
    Back,
    Forward,
    ScrollUp,
    ScrollDown,
    ScrollLeft,
    ScrollRight,
}

impl Default for Button {
    fn default() -> (r: Self)
        ensures
            r == Button::Left,
    {
        Button::Left
    }
}

/// Whether a mouse move names an absolute position or an offset from the
/// current one.
#[derive(Clone, Copy, Debug, PartialEq, Eq, Structural)]
pub enum Coordinate {
    Abs,
    Rel,
}

impl Default for Coordinate {
    fn default() -> (r: Self)
        ensures
            r == Coordinate::Abs,
    {
        Coordinate::Abs
    }
}

/// The axis a scroll token moves along.
#[derive(Clone, Copy, Debug, PartialEq, Eq, Structural)]
pub enum Axis {
    Horizontal,
    Vertical,
}

impl Default for Axis {
    fn default() -> (r: Self)
        ensures
            r == Axis::Vertical,
    {
        Axis::Vertical
    }
}

/// One atomic input action sent to the driver.
///
/// `Location` and `MainDisplay` are assertions: the driver compares the real
/// mouse location or main-display size against the expected values they
/// carry.
#[derive(Clone, Debug, PartialEq, Eq)]
pub enum Token {
    Text(String),
    Key(Key, Direction),
    Raw(u16, Direction),
    Button(Button, Direction),
    MoveMouse(i32, i32, Coordinate),
    Scroll(i32, Axis),
    Location(i32, i32),
    MainDisplay(i32, i32),
}

/// The spec-level value of a [`Token`].
pub enum TokenV {
    Text(Seq<char>),
    Key(Key, Direction),
    Raw(u16, Direction),
    Button(Button, Direction),
    MoveMouse(i32, i32, Coordinate),
    Scroll(i32, Axis),
    Location(i32, i32),
    MainDisplay(i32, i32),
}

impl View for Token {
    type V = TokenV;

    open spec fn view(&self) -> TokenV {
        match self {
            Token::Text(s) => TokenV::Text(s@),
            Token::Key(k, d) => TokenV::Key(*k, *d),
            Token::Raw(c, d) => TokenV::Raw(*c, *d),
            Token::Button(b, d) => TokenV::Button(*b, *d),
            Token::MoveMouse(x, y, c) => TokenV::MoveMouse(*x, *y, *c),
            Token::Scroll(n, a) => TokenV::Scroll(*n, *a),
            Token::Location(x, y) => TokenV::Location(*x, *y),
            Token::MainDisplay(w, h) => TokenV::MainDisplay(*w, *h),
        }
    }
}

/// An image, RGB8: three bytes per pixel, rows top to bottom.
#[derive(Clone, Debug, PartialEq, Eq)]
pub struct ImageBuffer {
    pub width: u32,
    pub height: u32,
    pub buffer: Vec<u8>,
}

/// The spec-level value of an [`ImageBuffer`].
pub struct ImageBufferV {
    pub width: u32,
    pub height: u32,
    pub buffer: Seq<u8>,
}

impl View for ImageBuffer {
    type V = ImageBufferV;

    open spec fn view(&self) -> ImageBufferV {
        ImageBufferV { width: self.width, height: self.height, buffer: self.buffer@ }
    }
}

impl ImageBufferV {
    /// The buffer holds exactly three bytes for each pixel.
    pub open spec fn wf(self) -> bool {
        self.buffer.len() == self.width * self.height * 3
    }
}

impl ImageBuffer {
    /// Builds an image buffer, checking the three-bytes-per-pixel invariant.
    pub fn new(width: u32, height: u32, buffer: Vec<u8>) -> (r: Option<ImageBuffer>)
        ensures
            match r {
                Some(img) => img@ == (ImageBufferV { width, height, buffer: buffer@ })
                    && img@.wf(),
                None => buffer@.len() != width * height * 3,
            },
    {
        proof {
            assert((width as int) * (height as int) <= 0xffff_ffff * 0xffff_ffff)
                by (nonlinear_arith)
                requires
                    width as int <= 0xffff_ffff,
                    height as int <= 0xffff_ffff,
                    width as int >= 0,
                    height as int >= 0,
            ;
        }
        let pixels = (width as u64) * (height as u64);
        let len = buffer.len();
        if pixels <= u64::MAX / 3 && len as u64 == pixels * 3 {
            Some(ImageBuffer { width, height, buffer })
        } else {
            proof {
                if pixels > u64::MAX / 3 {
                    assert((width as int) * (height as int) * 3 > u64::MAX);
                }
            }
            None
        }
    }
}

/// Whether a driver-side server is running, and on which port.
#[derive(Clone, Debug)]
pub enum ServerStatus<T> {
    Off,
    On { handle: T, port: u32 },
}

impl<T> ServerStatus<T> {
    /// The port the server listens on, if it is running.
    pub fn port(&self) -> (r: Option<u32>)
        ensures
            match r {
                Some(p) => self matches ServerStatus::On { port, .. } && p == port,
                None => self is Off,
            },
    {
        match self {
            ServerStatus::On { port, .. } => Some(*port),
            ServerStatus::Off => None,
        }
    }

    /// Whether the server is running.
    pub fn is_on(&self) -> (r: bool)
        ensures
            r == (self matches ServerStatus::On { .. }),
    {
        self.port().is_some()
    }
}

/// The largest whole power of two at or below `n`.
pub open spec fn spec_floor_log2(n: nat) -> nat
    decreases n,
{
    if n < 2 {
        0
    } else {
        1 + spec_floor_log2(n / 2)
    }
}

/// `floor(log2(n))` for `n >= 1`.
pub fn floor_log2(n: u32) -> (r: u32)
    requires
        n >= 1,
    ensures
        r == spec_floor_log2(n as nat),
        r < 32,
{
    let mut v: u32 = n;
    let mut r: u32 = 0;
    proof {
        vstd::arithmetic::power2::lemma2_to64();
        lemma_floor_log2_bound(n as nat, 32);
    }
    while v >= 2
        invariant
            v >= 1,
            r + spec_floor_log2(v as nat) == spec_floor_log2(n as nat),
            spec_floor_log2(n as nat) < 32,
        decreases v,
    {
        v = v / 2;
        r = r + 1;
    }
    r
}

/// A value below a power of two has a logarithm below the exponent.
proof fn lemma_floor_log2_bound(n: nat, b: nat)
    requires
        b >= 1,
        n < vstd::arithmetic::power2::pow2(b),
    ensures
        spec_floor_log2(n) < b,
    decreases n,
{
    if n >= 2 {
        vstd::arithmetic::power2::lemma2_to64();
        vstd::arithmetic::power2::lemma_pow2_unfold(b);
        lemma_floor_log2_bound(n / 2, (b - 1) as nat);
    }
}

/// The deepest meaningful mip level for an image of the given size:
/// `floor(log2(min(width, height))) - 1`.  Pyramids deeper than this are
/// meaningless, so callers clamp or reject levels above it before sending.
///
/// Requires both sides to be at least 2 pixels, where the result is 0; on a
/// smaller image no level is meaningful.
pub fn max_level_for_size(width: u32, height: u32) -> (r: u8)
    requires
        width >= 2,
        height >= 2,
    ensures
        r == spec_floor_log2(vstd::math::min(width as int, height as int) as nat) - 1,
{
    let smaller = if width < height {
        width
    } else {
        height
    };
    proof {
        lemma_floor_log2_monotone(2, smaller as nat);
    }
    (floor_log2(smaller) - 1) as u8
}

/// `floor_log2` never shrinks as its argument grows.
proof fn lemma_floor_log2_monotone(a: nat, b: nat)
    requires
        a <= b,
    ensures
        spec_floor_log2(a) <= spec_floor_log2(b),
    decreases b,
{
    if a >= 2 && b >= 2 {
        lemma_floor_log2_monotone(a / 2, b / 2);
    }
}

/// The search tuning the driver applies when matching an image: how many
/// candidate probes (`2^level`) it spends.  Opaque to the client except that
/// levels above [`max_level_for_size`] are meaningless.
#[derive(Clone, Copy, Debug, PartialEq, Eq, Structural)]
pub enum FindImageQuality {
    Standard,
    Specific(u8),
    Highest,
}

impl Default for FindImageQuality {
    fn default() -> (r: Self)
        ensures
            r == FindImageQuality::Standard,
    {
        FindImageQuality::Standard
    }
}

impl FindImageQuality {
    /// See [`max_level_for_size`].
    pub fn max_level_for_size(width: u32, height: u32) -> (r: u8)
        requires
            width >= 2,
            height >= 2,
        ensures
            r == spec_floor_log2(vstd::math::min(width as int, height as int) as nat) - 1,
    {
        max_level_for_size(width, height)
    }
}

/// The filter the driver applies to match results: the merge level and the
/// least similarity a match may have.  The similarity is held in thousandths,
/// at most `1000` (a perfect match).
#[derive(Clone, Copy, Debug, PartialEq, Eq, Structural)]
pub enum FindImageFilter {
    Standard,
    Specific { level: u8, minimum_similarity: u16 },
    Highest,
}

impl Default for FindImageFilter {
    fn default() -> (r: Self)
        ensures
            r == FindImageFilter::Standard,
    {
        FindImageFilter::Standard
    }
}

impl FindImageFilter {
    /// A similarity is a fraction of one, so at most a thousand thousandths.
    pub open spec fn wf(self) -> bool {
        match self {
            FindImageFilter::Specific { minimum_similarity, .. } => minimum_similarity <= 1000,
            _ => true,
        }
    }

    /// See [`max_level_for_size`].
    pub fn max_level_for_size(width: u32, height: u32) -> (r: u8)
        requires
            width >= 2,
            height >= 2,
        ensures
            r == spec_floor_log2(vstd::math::min(width as int, height as int) as nat) - 1,
    {
        max_level_for_size(width, height)
    }
}

/// A request to the driver.  Every request has exactly one corresponding
/// response shape, or an `Error` response.
#[derive(Clone, Debug, PartialEq, Eq)]
pub enum InputMessage {
    GetScreens,
    GetMainScreen,
    CaptureScreen { name: String },
    GetMouseLocation,
    DoInput(Token),
    DoTypeText(String),
    FindText { text: String, screen_name: String, timeout_millis: u32 },
    FindImage { screen_name: String, image: ImageBuffer, quality: FindImageQuality, filter: FindImageFilter },
    GetClipboardText,
    SetClipboardText(String),
}

/// The spec-level value of an [`InputMessage`].
pub enum InputMessageV {
    GetScreens,
    GetMainScreen,
    CaptureScreen { name: Seq<char> },
    GetMouseLocation,
    DoInput(TokenV),
    DoTypeText(Seq<char>),
    FindText { text: Seq<char>, screen_name: Seq<char>, timeout_millis: u32 },
    FindImage { screen_name: Seq<char>, image: ImageBufferV, quality: FindImageQuality, filter: FindImageFilter },
    GetClipboardText,
    SetClipboardText(Seq<char>),
}

impl View for InputMessage {
    type V = InputMessageV;

    open spec fn view(&self) -> InputMessageV {
        match self {
            InputMessage::GetScreens => InputMessageV::GetScreens,
            InputMessage::GetMainScreen => InputMessageV::GetMainScreen,
            InputMessage::CaptureScreen { name } => InputMessageV::CaptureScreen { name: name@ },
            InputMessage::GetMouseLocation => InputMessageV::GetMouseLocation,
            InputMessage::DoInput(t) => InputMessageV::DoInput(t@),
            InputMessage::DoTypeText(s) => InputMessageV::DoTypeText(s@),
            InputMessage::FindText { text, screen_name, timeout_millis } => InputMessageV::FindText {
                text: text@,
                screen_name: screen_name@,
                timeout_millis: *timeout_millis,
            },
            InputMessage::FindImage { screen_name, image, quality, filter } => InputMessageV::FindImage {
                screen_name: screen_name@,
                image: image@,
                quality: *quality,
                filter: *filter,
            },
            InputMessage::GetClipboardText => InputMessageV::GetClipboardText,
            InputMessage::SetClipboardText(s) => InputMessageV::SetClipboardText(s@),
        }
    }
}

/// A response from the driver.  `Error` may answer any request, and carries
/// the driver's own diagnostic.
#[derive(Clone, Debug, PartialEq, Eq)]
pub enum OutputMessage {
    GotScreens(Vec<Screen>),
    GotMainScreen(Screen),
    CapturedScreen { image_buffer: ImageBuffer },
    GotMouseLocation(Point),
    DidInput,
    DidTypeText,
    FoundText { locations: Vec<BoundingRectangle> },
    FoundImage { locations: Vec<BoundingRectangle> },
    GotClipboardText(String),
    DidSetClipboardText,
    Error(String),
}

/// The spec-level value of an [`OutputMessage`].
pub enum OutputMessageV {
    GotScreens(Seq<ScreenV>),
    GotMainScreen(ScreenV),
    CapturedScreen { image_buffer: ImageBufferV },
    GotMouseLocation(Point),
    DidInput,
    DidTypeText,
    FoundText { locations: Seq<BoundingRectangle> },
    FoundImage { locations: Seq<BoundingRectangle> },
    GotClipboardText(Seq<char>),
    DidSetClipboardText,
    Error(Seq<char>),
}

impl View for OutputMessage {
    type V = OutputMessageV;

    open spec fn view(&self) -> OutputMessageV {
        match self {
            OutputMessage::GotScreens(screens) => OutputMessageV::GotScreens(
                Seq::new(screens@.len(), |i: int| screens@[i]@),
            ),
            OutputMessage::GotMainScreen(s) => OutputMessageV::GotMainScreen(s@),
            OutputMessage::CapturedScreen { image_buffer } => OutputMessageV::CapturedScreen {
                image_buffer: image_buffer@,
            },
            OutputMessage::GotMouseLocation(p) => OutputMessageV::GotMouseLocation(*p),
            OutputMessage::DidInput => OutputMessageV::DidInput,
            OutputMessage::DidTypeText => OutputMessageV::DidTypeText,
            OutputMessage::FoundText { locations } => OutputMessageV::FoundText {
                locations: locations@,
            },
            OutputMessage::FoundImage { locations } => OutputMessageV::FoundImage {
                locations: locations@,
            },
            OutputMessage::GotClipboardText(s) => OutputMessageV::GotClipboardText(s@),
            OutputMessage::DidSetClipboardText => OutputMessageV::DidSetClipboardText,
            OutputMessage::Error(s) => OutputMessageV::Error(s@),
        }
    }
}

} // verus!
