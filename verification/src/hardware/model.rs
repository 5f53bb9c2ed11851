//! The value types flowing between the controllers and the hardware
//! backend: encoder identities, display descriptions, button images,
//! input events and display commands.

use vstd::prelude::*;
use std::sync::Arc;

verus! {

/// One of the four fixed rotary-encoder identities.
#[derive(Debug, Clone, Copy, PartialEq, Eq, Hash, Structural)]
pub enum EncoderId {
    One,
    Two,
    Three,
    Four,
}

impl EncoderId {
    /// Ordinal of this encoder, used as an array index.
    pub open spec fn spec_index(self) -> int {
        match self {
            EncoderId::One => 0,
            EncoderId::Two => 1,
            EncoderId::Three => 2,
            EncoderId::Four => 3,
        }
    }

    pub fn from_index(index: usize) -> (r: Option<EncoderId>)
        ensures
            match r {
                Some(id) => index < 4 && id.spec_index() == index,
                None => index >= 4,
            },
    {
        match index {
            0 => Some(EncoderId::One),
            1 => Some(EncoderId::Two),
            2 => Some(EncoderId::Three),
            3 => Some(EncoderId::Four),
            _ => None,
        }
    }

    pub fn index(self) -> (r: usize)
        ensures
            r == self.spec_index(),
            r < 4,
    {
        match self {
            EncoderId::One => 0,
            EncoderId::Two => 1,
            EncoderId::Three => 2,
            EncoderId::Four => 3,
        }
    }

    /// Every encoder identity, in ordinal order.
    pub fn all() -> (r: [EncoderId; 4])
        ensures
            forall|i: int| 0 <= i < 4 ==> #[trigger] r@[i].spec_index() == i,
    {
        let r = [EncoderId::One, EncoderId::Two, EncoderId::Three, EncoderId::Four];
        proof {
            assert(r@[0].spec_index() == 0);
            assert(r@[1].spec_index() == 1);
            assert(r@[2].spec_index() == 2);
            assert(r@[3].spec_index() == 3);
        }
        r
    }
}

/// Mathematical image of an `EncoderDisplay`.
pub ghost struct DisplayView {
    pub title: Seq<char>,
    pub value: Seq<char>,
    pub status: Option<Seq<char>>,
    pub progress: Option<u16>,
    pub progress_color: Option<[u8; 3]>,
    pub value_color: Option<[u8; 3]>,
}

/// What one encoder's display region should show: a title, the primary
/// value string, an optional status line, an optional progress fraction
/// (in permille, `0..=1000`) and optional tints.
#[derive(Debug, Clone)]
pub struct EncoderDisplay {
    pub title: String,
    pub value: String,
    pub status: Option<String>,
    pub progress: Option<u16>,
    pub progress_color: Option<[u8; 3]>,
    pub value_color: Option<[u8; 3]>,
}

pub const PROGRESS_FULL: u16 = 1000;

impl View for EncoderDisplay {
    type V = DisplayView;

    open spec fn view(&self) -> DisplayView {
        DisplayView {
            title: self.title@,
            value: self.value@,
            status: match self.status {
                Some(s) => Some(s@),
                None => None,
            },
            progress: self.progress,
            progress_color: self.progress_color,
            value_color: self.value_color,
        }
    }
}

impl DeepView for EncoderDisplay {
    type V = DisplayView;

    open spec fn deep_view(&self) -> DisplayView {
        self.view()
    }
}

impl EncoderDisplay {
    /// Progress, where given, stays in the unit range.
    pub open spec fn wf(self) -> bool {
        match self.progress {
            Some(p) => p <= PROGRESS_FULL,
            None => true,
        }
    }

    pub fn new(title: String, value: String) -> (r: EncoderDisplay)
        ensures
            r@.title == title@,
            r@.value == value@,
            (r@.status is None),
            (r@.progress is None),
            (r@.progress_color is None),
            (r@.value_color is None),
            r.wf(),
    {
        EncoderDisplay {
            title,
            value,
            status: None,
            progress: None,
            progress_color: None,
            value_color: None,
        }
    }

    pub fn with_status(self, status: String) -> (r: EncoderDisplay)
        ensures
            r@ == (DisplayView { status: Some(status@), ..self@ }),
            self.wf() ==> r.wf(),
    {
        EncoderDisplay { status: Some(status), ..self }
    }

    /// Sets the progress fraction, clamped into the unit range.
    pub fn with_progress(self, permille: u16) -> (r: EncoderDisplay)
        ensures
            r@ == (DisplayView {
                progress: Some(if permille <= PROGRESS_FULL { permille } else { PROGRESS_FULL }),
                ..self@
            }),
            r.wf(),
    {
        let clamped = if permille <= PROGRESS_FULL {
            permille
        } else {
            PROGRESS_FULL
        };
        EncoderDisplay { progress: Some(clamped), ..self }
    }

    /// Field-wise equality of the two descriptions.
    pub fn same_as(&self, other: &EncoderDisplay) -> (r: bool)
        ensures
            r == (self@ == other@),
    {
        let strings_match = self.title.eq(&other.title) && self.value.eq(&other.value)
            && same_opt_string(&self.status, &other.status);
        let rest_match = same_opt_u16(&self.progress, &other.progress) && same_opt_color(
            &self.progress_color,
            &other.progress_color,
        ) && same_opt_color(&self.value_color, &other.value_color);
        r_of(self, other, strings_match && rest_match)
    }
}

/// Ties the boolean comparison outcome back to view equality.
fn r_of(a: &EncoderDisplay, b: &EncoderDisplay, fields_eq: bool) -> (r: bool)
    requires
        fields_eq == (a@.title == b@.title && a@.value == b@.value && a@.status == b@.status
            && a@.progress == b@.progress && a@.progress_color == b@.progress_color
            && a@.value_color == b@.value_color),
    ensures
        r == (a@ == b@),
{
    proof {
        if fields_eq {
            assert(a@ == b@);
        }
    }
    fields_eq
}

fn same_opt_string(a: &Option<String>, b: &Option<String>) -> (r: bool)
    ensures
        r == (match (a, b) {
            (Some(x), Some(y)) => Some(x@) == Some::<Seq<char>>(y@),
            (None, None) => true,
            _ => false,
        }),
{
    match (a, b) {
        (Option::None, Option::None) => true,
        (Option::Some(x), Option::Some(y)) => x.eq(y),
        _ => false,
    }
}

fn same_opt_u16(a: &Option<u16>, b: &Option<u16>) -> (r: bool)
    ensures
        r == (a == b),
{
    match (a, b) {
        (Option::None, Option::None) => true,
        (Option::Some(x), Option::Some(y)) => x == y,
        _ => false,
    }
}

fn same_opt_color(a: &Option<[u8; 3]>, b: &Option<[u8; 3]>) -> (r: bool)
    ensures
        r == (a == b),
{
    match (a, b) {
        (Option::None, Option::None) => true,
        (Option::Some(x), Option::Some(y)) => {
            let eq = x[0] == y[0] && x[1] == y[1] && x[2] == y[2];
            proof {
                if eq {
                    assert(x@ =~= y@);
                    assert(x == y);
                }
                if x == y {
                    assert(x@ == y@);
                    assert(x@[0] == y@[0] && x@[1] == y@[1] && x@[2] == y@[2]);
                }
            }
            eq
        },
        _ => false,
    }
}

/// Decoded pixel data shared across callers: a reference-counted RGBA
/// bitmap of the outside imaging crate. Verus refuses the pixel
/// container's own declaration (its generics are bound by an outside
/// trait), so the handle is held opaquely and only duplicated.
#[verifier::external_body]
pub struct SharedPixels {
    inner: Arc<image::RgbaImage>,
}

impl SharedPixels {
    /// Relies on `image::RgbaImage::from_raw`: wraps tightly packed RGBA
    /// rows as shared pixels; refused when the buffer holds fewer than
    /// `4 * width * height` bytes (extra bytes are tolerated by the
    /// imaging crate). Nothing is assumed of the pixels.
    #[verifier::external_body]
    pub fn from_rgba(width: u32, height: u32, bytes: Vec<u8>) -> Option<SharedPixels> {
        image::RgbaImage::from_raw(width, height, bytes).map(
            |img| SharedPixels { inner: Arc::new(img) },
        )
    }

    /// Relies on `Arc::clone`: another handle to the same allocation.
    #[verifier::external_body]
    pub fn duplicate(&self) -> (r: SharedPixels)
        ensures
            r == *self,
    {
        SharedPixels { inner: Arc::clone(&self.inner) }
    }

    /// Relies on `image::ImageBuffer::dimensions`: width and height of
    /// the shared bitmap.
    #[verifier::external_body]
    pub fn dimensions(&self) -> (u32, u32) {
        self.inner.dimensions()
    }

    /// Relies on `image::ImageBuffer::as_raw`: a copy of the tightly
    /// packed RGBA rows, for a renderer outside the library.
    #[verifier::external_body]
    pub fn rgba_bytes(&self) -> Vec<u8> {
        self.inner.as_raw().clone()
    }
}

/// Mathematical image of a `ButtonImage`: the identity string and tint.
/// The pixels themselves are opaque; the identity string de-duplicates.
pub ghost struct ButtonImageView {
    pub id: Seq<char>,
    pub tint: Option<[u8; 3]>,
}

/// A button's icon: an identity string (for de-duplication), shared
/// immutable pixel data, and an optional tint applied at render time
/// without touching the shared pixels.
pub struct ButtonImage {
    pub id: String,
    pub image: SharedPixels,
    pub tint: Option<[u8; 3]>,
}

impl View for ButtonImage {
    type V = ButtonImageView;

    open spec fn view(&self) -> ButtonImageView {
        ButtonImageView { id: self.id@, tint: self.tint }
    }
}

impl DeepView for ButtonImage {
    type V = ButtonImageView;

    open spec fn deep_view(&self) -> ButtonImageView {
        self.view()
    }
}

impl ButtonImage {
    /// A copy that shares the same pixel data.
    pub fn duplicate(&self) -> (r: ButtonImage)
        ensures
            r@ == self@,
            r.image == self.image,
    {
        ButtonImage { id: clone_string(&self.id), image: self.image.duplicate(), tint: self.tint }
    }

    /// Same identity and tint: the icon would render identically.
    pub fn same_as(&self, other: &ButtonImage) -> (r: bool)
        ensures
            r == (self@ == other@),
    {
        let eq = self.id.eq(&other.id) && same_opt_color(&self.tint, &other.tint);
        proof {
            if eq {
                assert(self@ == other@);
            }
        }
        eq
    }
}

/// A `String` clone keeps its characters (vstd states this of `clone`).
fn clone_string(s: &String) -> (r: String)
    ensures
        r@ == s@,
{
    s.clone()
}

/// Raw input translated into an event: a detent turned (signed delta), an
/// encoder or button edge, or a touch. Produced only by the hardware
/// backend, consumed only by the dispatch loop.
#[derive(Debug, Clone, Copy, PartialEq, Eq, Structural)]
pub enum HardwareEvent {
    EncoderTurned { encoder: EncoderId, delta: i32 },
    EncoderPressed { encoder: EncoderId },
    EncoderReleased { encoder: EncoderId },
    ButtonPressed(u8),
    ButtonReleased(u8),
    Touch,
}

/// A display change requested by a controller; the backend merges the
/// latest command per target into its in-memory state, last write wins.
pub enum HardwareCommand {
    UpdateEncoderDisplay { encoder: EncoderId, display: EncoderDisplay },
    UpdateButtonIcon { index: u8, icon: Option<ButtonImage> },
}

/// Failure to hand a command to the hardware backend: its channel closed.
#[derive(Debug, Clone, Copy, PartialEq, Eq, Structural)]
pub enum PipelineError {
    ChannelClosed,
}

/// The sink controllers write display state through. Implementations
/// forward to the hardware thread (or record, in tests); nothing is
/// assumed of them beyond the signature.
pub trait DisplayPipeline {
    fn update_encoder(&self, encoder: EncoderId, display: EncoderDisplay) -> Result<
        (),
        PipelineError,
    >;

    fn update_button_icon(&self, index: u8, icon: Option<ButtonImage>) -> Result<
        (),
        PipelineError,
    >;
}

/// How the hardware backend is configured: an optional serial filter and
/// the device brightness to set on connect.
#[derive(Debug, Clone)]
pub struct HardwareConfig {
    pub serial: Option<String>,
    pub device_brightness: u8,
}

impl Default for HardwareConfig {
    /// No serial filter, device brightness 40.
    fn default() -> (r: HardwareConfig)
        ensures
            r.serial is None,
            r.device_brightness == 40,
    {
        HardwareConfig { serial: None, device_brightness: 40 }
    }
}

} // verus!
