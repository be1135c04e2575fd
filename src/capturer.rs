//! Output resolution policy, capturer preconditions, and the capture engine:
//! its start/stop lifecycle and the normalisation of items taken from the
//! frame channel.

use vstd::prelude::*;
use crate::frame::{
    cropped, BGRAFrame, BGRFrame, BGRxFrame, Frame, RGBxFrame, XBGRFrame, get_cropped_data,
};

verus! {

/// A symbolic output size. `Captured` keeps the producer's own size.
#[derive(Debug, Clone, Copy, Default)]
pub enum Resolution {
    _480p,
    _720p,
    _1080p,
    _1440p,
    _2160p,
    _4320p,
    #[default]
    Captured,
}

/// The height for a tier of width `fixed` and the aspect ratio
/// `aspect_width / aspect_height`: `floor(fixed / ratio)`, saturated to `u32`.
pub open spec fn scaled_height(fixed: int, aspect_width: int, aspect_height: int) -> int {
    let h = fixed * aspect_height / aspect_width;
    if h > u32::MAX {
        u32::MAX as int
    } else {
        h
    }
}

impl Resolution {
    /// The fixed pixel width of each scaling tier.
    pub open spec fn fixed_width(self) -> int {
        match self {
            Resolution::_480p => 640,
            Resolution::_720p => 1280,
            Resolution::_1080p => 1920,
            Resolution::_1440p => 2560,
            Resolution::_2160p => 3840,
            Resolution::_4320p => 7680,
            Resolution::Captured => 0,
        }
    }

    /// `[width, height]` of a scaling tier for the aspect ratio
    /// `aspect_width / aspect_height`: the tier's fixed width, and that width
    /// divided by the ratio, rounded down.
    pub fn value(&self, aspect_width: u32, aspect_height: u32) -> (r: [u32; 2])
        requires
            !(*self is Captured),
            aspect_width > 0,
        ensures
            r@[0] == self.fixed_width(),
            r@[1] == scaled_height(self.fixed_width(), aspect_width as int, aspect_height as int),
    {
        let fixed: u32 = match *self {
            Resolution::_480p => 640,
            Resolution::_720p => 1280,
            Resolution::_1080p => 1920,
            Resolution::_1440p => 2560,
            Resolution::_2160p => 3840,
            Resolution::_4320p => 7680,
            Resolution::Captured => 0,
        };
        assert(fixed * aspect_height <= 7680 * u32::MAX) by (nonlinear_arith)
            requires
                fixed <= 7680,
                aspect_height <= u32::MAX,
        ;
        let h: u64 = (fixed as u64) * (aspect_height as u64) / (aspect_width as u64);
        let height: u32 = if h > u32::MAX as u64 {
            u32::MAX
        } else {
            h as u32
        };
        [fixed, height]
    }
}

/// The size frames are delivered at: the native size for `Captured`, else the
/// tier's size for the native aspect ratio.
pub open spec fn output_frame_size(
    resolution: Resolution,
    native_width: u32,
    native_height: u32,
) -> Seq<u32> {
    if resolution is Captured {
        seq![native_width, native_height]
    } else {
        seq![
            resolution.fixed_width() as u32,
            scaled_height(resolution.fixed_width(), native_width as int, native_height as int)
                as u32,
        ]
    }
}

/// Computes the size frames are delivered at for a producer of the given native size.
pub fn get_output_frame_size(resolution: Resolution, native_width: u32, native_height: u32) -> (r:
    [u32; 2])
    requires
        resolution is Captured || native_width > 0,
    ensures
        r@ == output_frame_size(resolution, native_width, native_height),
{
    let r = match resolution {
        Resolution::Captured => [native_width, native_height],
        _ => resolution.value(native_width, native_height),
    };
    assert(r@ =~= output_frame_size(resolution, native_width, native_height));
    r
}

/// Why a capturer could not be built.
#[derive(Debug, Clone, Copy, PartialEq, Eq, Structural)]
pub enum CapturerBuildError {
    NotSupported,
    PermissionNotGranted,
}

impl CapturerBuildError {
    /// A sentence describing the error.
    pub fn message(&self) -> (r: &'static str)
        ensures
            *self is NotSupported ==> r@ == "Screen capturing is not supported"@,
            *self is PermissionNotGranted ==> r@ == "Permission to capture the screen is not granted"@,
    {
        match self {
            CapturerBuildError::NotSupported => "Screen capturing is not supported",
            CapturerBuildError::PermissionNotGranted => "Permission to capture the screen is not granted",
        }
    }
}

/// Decides whether a capturer may be built: the platform must be supported,
/// then capture permission must be granted.
pub fn check_build(supported: bool, permission_granted: bool) -> (r: Result<(), CapturerBuildError>)
    ensures
        !supported ==> r == Err::<(), CapturerBuildError>(CapturerBuildError::NotSupported),
        supported && !permission_granted ==> r == Err::<(), CapturerBuildError>(
            CapturerBuildError::PermissionNotGranted,
        ),
        supported && permission_granted ==> r is Ok,
{
    if !supported {
        return Err(CapturerBuildError::NotSupported);
    }
    if !permission_granted {
        return Err(CapturerBuildError::PermissionNotGranted);
    }
    Ok(())
}

/// Whether the external capture session is running.
#[derive(Debug, Clone, Copy, PartialEq, Eq, Structural)]
pub enum CaptureState {
    Idle,
    Capturing,
}

/// A start or stop that does not fit the engine's current state.
#[derive(Debug, Clone, Copy, PartialEq, Eq, Structural)]
pub enum LifecycleError {
    AlreadyCapturing,
    NotCapturing,
}

/// What the frame channel carries: a delivered frame, or a transient error of the producer.
#[derive(Debug, Clone)]
pub enum ChannelItem {
    Frame(Frame),
    Error,
}

/// An item that normalisation turns into a frame: a frame that holds data.
pub open spec fn deliverable(item: ChannelItem) -> bool {
    match item {
        ChannelItem::Frame(f) => !(f is Empty),
        ChannelItem::Error => false,
    }
}

/// The index of the first deliverable item: where the retrying consumer stops.
pub open spec fn first_delivery(items: Seq<ChannelItem>) -> Option<int>
    decreases items.len(),
{
    if items.len() == 0 {
        None
    } else if deliverable(items[0]) {
        Some(0)
    } else {
        match first_delivery(items.drop_first()) {
            Some(i) => Some(i + 1),
            None => None,
        }
    }
}

/// A consumer that retries past every item that is not deliverable stops at the
/// first deliverable one: after `n` transient items, the item at `n` is the one
/// handed out, and none before it.
pub proof fn lemma_retry_delivers_first_frame(items: Seq<ChannelItem>, n: int)
    requires
        0 <= n < items.len(),
        forall|i: int| 0 <= i < n ==> !deliverable(#[trigger] items[i]),
        deliverable(items[n]),
    ensures
        first_delivery(items) == Some(n),
    decreases n,
{
    if n > 0 {
        let rest = items.drop_first();
        assert forall|i: int| 0 <= i < n - 1 implies !deliverable(#[trigger] rest[i]) by {
            assert(rest[i] == items[i + 1]);
        }
        assert(rest[n - 1] == items[n]);
        lemma_retry_delivers_first_frame(rest, n - 1);
    }
}

/// The width a packed 4-byte frame has after the configured crop.
pub open spec fn delivered_width(crop: Option<u32>, len: int, width: u32, height: u32) -> u32 {
    match crop {
        Some(w) => if len == height * width * 4 && w < width {
            w
        } else {
            width
        },
        None => width,
    }
}

/// The bytes a packed 4-byte frame has after the configured crop.
pub open spec fn delivered_bytes(crop: Option<u32>, data: Seq<u8>, width: u32, height: u32) -> Seq<
    u8,
> {
    match crop {
        Some(w) => cropped(data, width as int, height as int, w as int),
        None => data,
    }
}

/// The capture engine: the output size fixed at construction, the crop width
/// applied to packed frames, and the session state.
pub struct Engine {
    pub crop_width: Option<u32>,
    pub output_size: [u32; 2],
    pub state: CaptureState,
}

impl Engine {
    /// The same engine in another state.
    pub open spec fn with_state(self, state: CaptureState) -> Engine {
        Engine { crop_width: self.crop_width, output_size: self.output_size, state }
    }

    /// The engine and result after `start`.
    pub open spec fn start_spec(self) -> (Engine, Result<(), LifecycleError>) {
        match self.state {
            CaptureState::Idle => (self.with_state(CaptureState::Capturing), Ok(())),
            CaptureState::Capturing => (self, Err(LifecycleError::AlreadyCapturing)),
        }
    }

    /// The engine and result after `stop`.
    pub open spec fn stop_spec(self) -> (Engine, Result<(), LifecycleError>) {
        match self.state {
            CaptureState::Capturing => (self.with_state(CaptureState::Idle), Ok(())),
            CaptureState::Idle => (self, Err(LifecycleError::NotCapturing)),
        }
    }

    /// A capture session is restartable: whatever the engine's state, a stop
    /// followed by a start succeeds in starting and leaves the engine capturing,
    /// with its output size and crop unchanged.
    pub proof fn lemma_stop_then_start(self)
        ensures
            self.stop_spec().0.start_spec().1 is Ok,
            self.stop_spec().0.start_spec().0 == self.with_state(CaptureState::Capturing),
    {
    }

    /// A packed 4-byte frame `(t, w, h, d)` delivered as `(t2, w2, h2, d2)`.
    pub open spec fn packed_delivered(
        self,
        t: u64,
        w: u32,
        h: u32,
        d: Seq<u8>,
        t2: u64,
        w2: u32,
        h2: u32,
        d2: Seq<u8>,
    ) -> bool {
        &&& t2 == t
        &&& h2 == h
        &&& w2 == delivered_width(self.crop_width, d.len() as int, w, h)
        &&& d2 == delivered_bytes(self.crop_width, d, w, h)
    }

    /// `g` is what the engine delivers for the frame `f`: planar and RGB frames
    /// unchanged, packed 4-byte frames with the configured crop applied.
    pub open spec fn delivers(self, f: Frame, g: Frame) -> bool {
        match (f, g) {
            (Frame::YUVFrame(a), Frame::YUVFrame(b)) => a == b,
            (Frame::RGB(a), Frame::RGB(b)) => a == b,
            (Frame::RGBx(a), Frame::RGBx(b)) => self.packed_delivered(
                a.display_time, a.width, a.height, a.data@,
                b.display_time, b.width, b.height, b.data@,
            ),
            (Frame::XBGR(a), Frame::XBGR(b)) => self.packed_delivered(
                a.display_time, a.width, a.height, a.data@,
                b.display_time, b.width, b.height, b.data@,
            ),
            (Frame::BGRx(a), Frame::BGRx(b)) => self.packed_delivered(
                a.display_time, a.width, a.height, a.data@,
                b.display_time, b.width, b.height, b.data@,
            ),
            (Frame::BGR0(a), Frame::BGR0(b)) => self.packed_delivered(
                a.display_time, a.width, a.height, a.data@,
                b.display_time, b.width, b.height, b.data@,
            ),
            (Frame::BGRA(a), Frame::BGRA(b)) => self.packed_delivered(
                a.display_time, a.width, a.height, a.data@,
                b.display_time, b.width, b.height, b.data@,
            ),
            _ => false,
        }
    }

    /// An idle engine for a producer of the given native size, delivering at
    /// `output_resolution` and cropping packed frames to `crop_width` columns.
    pub fn new(
        output_resolution: Resolution,
        crop_width: Option<u32>,
        native_width: u32,
        native_height: u32,
    ) -> (e: Engine)
        requires
            output_resolution is Captured || native_width > 0,
        ensures
            e.output_size@ == output_frame_size(output_resolution, native_width, native_height),
            e.crop_width == crop_width,
            e.state == CaptureState::Idle,
    {
        Engine {
            crop_width,
            output_size: get_output_frame_size(output_resolution, native_width, native_height),
            state: CaptureState::Idle,
        }
    }

    /// Idle to capturing; a second start while capturing is refused and changes nothing.
    pub fn start(&mut self) -> (r: Result<(), LifecycleError>)
        ensures
            (*final(self), r) == old(self).start_spec(),
    {
        match self.state {
            CaptureState::Idle => {
                self.state = CaptureState::Capturing;
                Ok(())
            },
            CaptureState::Capturing => Err(LifecycleError::AlreadyCapturing),
        }
    }

    /// Capturing to idle; a stop while idle is refused and changes nothing.
    pub fn stop(&mut self) -> (r: Result<(), LifecycleError>)
        ensures
            (*final(self), r) == old(self).stop_spec(),
    {
        match self.state {
            CaptureState::Capturing => {
                self.state = CaptureState::Idle;
                Ok(())
            },
            CaptureState::Idle => Err(LifecycleError::NotCapturing),
        }
    }

    /// The size frames are delivered at, fixed at construction.
    pub fn get_output_frame_size(&self) -> (r: [u32; 2])
        ensures
            r == self.output_size,
    {
        self.output_size
    }

    fn crop_packed(&self, data: Vec<u8>, width: u32, height: u32) -> (r: (Vec<u8>, u32))
        ensures
            r.0@ == delivered_bytes(self.crop_width, data@, width, height),
            r.1 == delivered_width(self.crop_width, data@.len() as int, width, height),
    {
        match self.crop_width {
            Some(w) => {
                assert(height * width * 4 <= u128::MAX) by (nonlinear_arith)
                    requires
                        height <= u32::MAX,
                        width <= u32::MAX,
                ;
                let narrows = (data.len() as u128) == (height as u128) * (width as u128) * 4
                    && w < width;
                let out = get_cropped_data(data, width, height, w);
                if narrows {
                    (out, w)
                } else {
                    (out, width)
                }
            },
            None => (data, width),
        }
    }

    /// Turns a channel item into a frame to hand out: `None` for a producer
    /// error or the empty placeholder, so that the consumer waits for the next
    /// item; otherwise the frame, with the configured crop applied.
    pub fn process_channel_item(&self, item: ChannelItem) -> (r: Option<Frame>)
        ensures
            r is Some <==> deliverable(item),
            match item {
                ChannelItem::Frame(f) => match r {
                    Some(g) => self.delivers(f, g),
                    None => true,
                },
                ChannelItem::Error => true,
            },
    {
        match item {
            ChannelItem::Error => None,
            ChannelItem::Frame(frame) => match frame {
                Frame::Empty => None,
                Frame::YUVFrame(f) => Some(Frame::YUVFrame(f)),
                Frame::RGB(f) => Some(Frame::RGB(f)),
                Frame::RGBx(f) => {
                    let (data, width) = self.crop_packed(f.data, f.width, f.height);
                    Some(Frame::RGBx(RGBxFrame { display_time: f.display_time, width, height: f.height, data }))
                },
                Frame::XBGR(f) => {
                    let (data, width) = self.crop_packed(f.data, f.width, f.height);
                    Some(Frame::XBGR(XBGRFrame { display_time: f.display_time, width, height: f.height, data }))
                },
                Frame::BGRx(f) => {
                    let (data, width) = self.crop_packed(f.data, f.width, f.height);
                    Some(Frame::BGRx(BGRxFrame { display_time: f.display_time, width, height: f.height, data }))
                },
                Frame::BGR0(f) => {
                    let (data, width) = self.crop_packed(f.data, f.width, f.height);
                    Some(Frame::BGR0(BGRFrame { display_time: f.display_time, width, height: f.height, data }))
                },
                Frame::BGRA(f) => {
                    let (data, width) = self.crop_packed(f.data, f.width, f.height);
                    Some(Frame::BGRA(BGRAFrame { display_time: f.display_time, width, height: f.height, data }))
                },
            },
        }
    }
}

} // verus!
