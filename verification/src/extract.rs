//! The bitmap plane extractor.
//!
//! Given a valid icon handle, the extractor obtains the icon's color and mask
//! bitmap handles, the planes' size, a temporary off-screen device context,
//! and the raw bottom-up bytes of both planes.  Every native resource it
//! acquires on the way -- the icon itself, up to two bitmap handles and the
//! device context -- is released exactly once on every path, including every
//! early failure path.
//!
//! Like the resolver, the extractor is a stepped decision machine: it emits
//! one [`NativeRequest`] at a time and consumes the answering
//! [`NativeEvent`].  An answer of the wrong shape reads as the failure of
//! the step that was waiting for it, so the machine is total and every run
//! terminates.

use vstd::prelude::*;
use crate::error::{Error, InnerError, PlaneKind, is_error_of};
use crate::native::{
    BitmapDropper, DcDropper, EventV, IconDropper, NativeEvent, NativeRequest, event_view,
    events_view, lemma_events_view_skip,
};

verus! {

/// Largest plane dimension the extractor accepts.  Icons are tiny; a size
/// query reporting more than this reads as a failed query, which also keeps
/// every buffer size within machine bounds.
pub const MAX_PLANE_DIM: u32 = 16384;

/// Bytes per scanline of a plane `width` pixels wide at `bit_count` bits per
/// pixel, rounded up to a 4-byte boundary per native bitmap storage rules.
pub open spec fn stride_of(width: nat, bit_count: nat) -> nat {
    ((width * bit_count + 31) / 32) * 4
}

/// Width, height, bit depth and row stride of a bitmap plane.
#[derive(Clone, Copy, Debug, PartialEq, Eq, Structural)]
pub struct BitmapDescriptor {
    pub width: u32,
    pub height: u32,
    pub bit_count: u32,
    pub stride: u32,
}

/// Well-formedness of a descriptor: planes are read as 32-bit pixels, the
/// stride follows the native rounding rule, and both dimensions are within
/// the accepted bound.
pub open spec fn descriptor_wf(d: BitmapDescriptor) -> bool {
    &&& d.bit_count == 32
    &&& d.stride == stride_of(d.width as nat, 32)
    &&& d.width <= MAX_PLANE_DIM
    &&& d.height <= MAX_PLANE_DIM
}

/// Build the descriptor of a 32-bit plane.
pub fn descriptor_for(width: u32, height: u32) -> (d: BitmapDescriptor)
    requires
        width <= MAX_PLANE_DIM,
        height <= MAX_PLANE_DIM,
    ensures
        descriptor_wf(d),
        d.width == width,
        d.height == height,
        d.stride == 4 * width,
{
    let stride = ((width * 32 + 31) / 32) * 4;
    BitmapDescriptor { width, height, bit_count: 32, stride }
}

/// The steps of one extraction, in order; the four release steps run in
/// reverse acquisition order, each skipped when its resource was never
/// acquired.
#[derive(Clone, Copy, Debug, PartialEq, Eq, Structural)]
pub enum ExtractPhase {
    /// Query the icon's info structure for the two plane handles.
    QueryInfo,
    /// Query the color plane for its size.
    QuerySize,
    /// Create the temporary off-screen device context.
    CreateDc,
    /// Copy the color plane's scanlines out.
    ReadColor,
    /// Copy the mask plane's scanlines out.
    ReadMask,
    /// Release the device context.
    ReleaseDc,
    /// Release the mask bitmap handle.
    ReleaseMask,
    /// Release the color bitmap handle.
    ReleaseColor,
    /// Release the icon handle.
    ReleaseIcon,
    /// Everything is released; the outcome is available.
    Finished,
}

/// The extractor: which step is up next, which handles are currently held,
/// which were ever acquired and which were released, the plane size, and the
/// failure to report once every release is done.
#[derive(Clone, Copy, Debug)]
pub struct Extraction {
    pub phase: ExtractPhase,
    /// The icon handle under extraction; zero once released.
    pub icon: u64,
    /// The color plane handle; zero while not acquired and once released.
    pub color: u64,
    /// The mask plane handle; zero while not acquired and once released.
    pub mask: u64,
    /// The device context; zero while not acquired and once released.
    pub dc: u64,
    pub acquired_color: bool,
    pub acquired_mask: bool,
    pub acquired_dc: bool,
    pub released_icon: bool,
    pub released_color: bool,
    pub released_mask: bool,
    pub released_dc: bool,
    /// The plane size the color plane reported.
    pub width: u32,
    pub height: u32,
    /// The failure the run ends with, if any step failed.
    pub failure: Option<InnerError>,
}

/// Are the plane bytes of one read acceptable?  The native copy must report
/// at least the expected number of scanlines (and at least one), and the
/// buffer must hold exactly `stride * height` bytes.
pub open spec fn plane_read_ok(rows: u32, len: int, width: u32, height: u32) -> bool {
    &&& rows != 0
    &&& rows >= height
    &&& len == 4 * (width as int) * (height as int)
}

/// The first release step still owed, in reverse acquisition order, or
/// `Finished` when nothing is held any more.
pub open spec fn release_phase_of(e: Extraction) -> ExtractPhase {
    if e.dc != 0 {
        ExtractPhase::ReleaseDc
    } else if e.mask != 0 {
        ExtractPhase::ReleaseMask
    } else if e.color != 0 {
        ExtractPhase::ReleaseColor
    } else if e.icon != 0 {
        ExtractPhase::ReleaseIcon
    } else {
        ExtractPhase::Finished
    }
}

/// The extractor's starting state for a valid icon handle.
pub open spec fn extract_init(icon: u64) -> Extraction {
    Extraction {
        phase: ExtractPhase::QueryInfo,
        icon: icon,
        color: 0,
        mask: 0,
        dc: 0,
        acquired_color: false,
        acquired_mask: false,
        acquired_dc: false,
        released_icon: false,
        released_color: false,
        released_mask: false,
        released_dc: false,
        width: 0,
        height: 0,
        failure: None,
    }
}

/// One transition of the extractor on the answer to its pending request.
pub open spec fn extract_step(e: Extraction, ev: EventV) -> Extraction {
    match e.phase {
        ExtractPhase::QueryInfo => {
            let (c, m) = match ev {
                EventV::IconInfo { color, mask } => (color, mask),
                _ => (0u64, 0u64),
            };
            let e1 = Extraction {
                color: c,
                mask: m,
                acquired_color: c != 0,
                acquired_mask: m != 0,
                ..e
            };
            if c == 0 || m == 0 {
                let e2 = Extraction { failure: Some(InnerError::InvalidHandle), ..e1 };
                Extraction { phase: release_phase_of(e2), ..e2 }
            } else {
                Extraction { phase: ExtractPhase::QuerySize, ..e1 }
            }
        },
        ExtractPhase::QuerySize => {
            let (w, h) = match ev {
                EventV::PlaneSize { width, height } => (width, height),
                _ => (0u32, 0u32),
            };
            if w > MAX_PLANE_DIM || h > MAX_PLANE_DIM {
                let e2 = Extraction { failure: Some(InnerError::InvalidHandle), ..e };
                Extraction { phase: release_phase_of(e2), ..e2 }
            } else {
                Extraction { width: w, height: h, phase: ExtractPhase::CreateDc, ..e }
            }
        },
        ExtractPhase::CreateDc => {
            let d = match ev {
                EventV::DeviceContext { dc } => dc,
                _ => 0u64,
            };
            if d == 0 {
                let e2 = Extraction { failure: Some(InnerError::DeviceContextFailure), ..e };
                Extraction { phase: release_phase_of(e2), ..e2 }
            } else {
                Extraction { dc: d, acquired_dc: true, phase: ExtractPhase::ReadColor, ..e }
            }
        },
        ExtractPhase::ReadColor => {
            let ok = match ev {
                EventV::PlaneBits { rows, data } => plane_read_ok(
                    rows,
                    data.len() as int,
                    e.width,
                    e.height,
                ),
                _ => false,
            };
            if ok {
                Extraction { phase: ExtractPhase::ReadMask, ..e }
            } else {
                let e2 = Extraction {
                    failure: Some(InnerError::BitmapReadFailure(PlaneKind::Color)),
                    ..e
                };
                Extraction { phase: release_phase_of(e2), ..e2 }
            }
        },
        ExtractPhase::ReadMask => {
            let ok = match ev {
                EventV::PlaneBits { rows, data } => plane_read_ok(
                    rows,
                    data.len() as int,
                    e.width,
                    e.height,
                ),
                _ => false,
            };
            if ok {
                Extraction { phase: release_phase_of(e), ..e }
            } else {
                let e2 = Extraction {
                    failure: Some(InnerError::BitmapReadFailure(PlaneKind::Mask)),
                    ..e
                };
                Extraction { phase: release_phase_of(e2), ..e2 }
            }
        },
        ExtractPhase::ReleaseDc => {
            let e2 = Extraction { dc: 0, released_dc: true, ..e };
            Extraction { phase: release_phase_of(e2), ..e2 }
        },
        ExtractPhase::ReleaseMask => {
            let e2 = Extraction { mask: 0, released_mask: true, ..e };
            let p = if e2.color != 0 {
                ExtractPhase::ReleaseColor
            } else if e2.icon != 0 {
                ExtractPhase::ReleaseIcon
            } else {
                ExtractPhase::Finished
            };
            Extraction { phase: p, ..e2 }
        },
        ExtractPhase::ReleaseColor => {
            let e2 = Extraction { color: 0, released_color: true, ..e };
            let p = if e2.icon != 0 {
                ExtractPhase::ReleaseIcon
            } else {
                ExtractPhase::Finished
            };
            Extraction { phase: p, ..e2 }
        },
        ExtractPhase::ReleaseIcon => {
            let e2 = Extraction { icon: 0, released_icon: true, ..e };
            Extraction { phase: ExtractPhase::Finished, ..e2 }
        },
        ExtractPhase::Finished => e,
    }
}

/// The native call the pending step needs, or nothing once finished.
pub open spec fn extract_request(e: Extraction) -> Option<NativeRequest> {
    match e.phase {
        ExtractPhase::QueryInfo => Some(NativeRequest::QueryIconInfo { icon: e.icon }),
        ExtractPhase::QuerySize => Some(NativeRequest::QueryPlaneSize { bitmap: e.color }),
        ExtractPhase::CreateDc => Some(NativeRequest::CreateDeviceContext),
        ExtractPhase::ReadColor => Some(NativeRequest::ReadPlaneBits {
            dc: e.dc,
            bitmap: e.color,
            width: e.width,
            height: e.height,
        }),
        ExtractPhase::ReadMask => Some(NativeRequest::ReadPlaneBits {
            dc: e.dc,
            bitmap: e.mask,
            width: e.width,
            height: e.height,
        }),
        ExtractPhase::ReleaseDc => Some(NativeRequest::ReleaseDeviceContext { dc: e.dc }),
        ExtractPhase::ReleaseMask => Some(NativeRequest::ReleaseBitmap { bitmap: e.mask }),
        ExtractPhase::ReleaseColor => Some(NativeRequest::ReleaseBitmap { bitmap: e.color }),
        ExtractPhase::ReleaseIcon => Some(NativeRequest::ReleaseIcon { icon: e.icon }),
        ExtractPhase::Finished => None,
    }
}

/// How many steps the extractor can still take: strictly decreasing along
/// every transition out of a live state, so every run terminates.
pub open spec fn extract_rank(e: Extraction) -> nat {
    match e.phase {
        ExtractPhase::QueryInfo => 9,
        ExtractPhase::QuerySize => 8,
        ExtractPhase::CreateDc => 7,
        ExtractPhase::ReadColor => 6,
        ExtractPhase::ReadMask => 5,
        ExtractPhase::ReleaseDc => 4,
        ExtractPhase::ReleaseMask => 3,
        ExtractPhase::ReleaseColor => 2,
        ExtractPhase::ReleaseIcon => 1,
        ExtractPhase::Finished => 0,
    }
}

/// Well-formedness of an extractor state.
pub open spec fn extract_wf(e: Extraction) -> bool {
    &&& (e.released_icon ==> e.icon == 0)
    &&& (e.released_color ==> e.color == 0 && e.acquired_color)
    &&& (e.released_mask ==> e.mask == 0 && e.acquired_mask)
    &&& (e.released_dc ==> e.dc == 0 && e.acquired_dc)
    &&& (e.color != 0 ==> e.acquired_color)
    &&& (e.mask != 0 ==> e.acquired_mask)
    &&& (e.dc != 0 ==> e.acquired_dc)
    &&& (e.acquired_color && !e.released_color ==> e.color != 0)
    &&& (e.acquired_mask && !e.released_mask ==> e.mask != 0)
    &&& (e.acquired_dc && !e.released_dc ==> e.dc != 0)
    &&& match e.phase {
        ExtractPhase::QueryInfo => e.icon != 0 && e.color == 0 && e.mask == 0 && e.dc == 0
            && !e.acquired_color && !e.acquired_mask && !e.acquired_dc && !e.released_icon
            && !e.released_color && !e.released_mask && !e.released_dc && e.failure is None,
        ExtractPhase::QuerySize => e.icon != 0 && e.color != 0 && e.mask != 0 && e.dc == 0
            && !e.acquired_dc && !e.released_icon && !e.released_color && !e.released_mask
            && !e.released_dc && e.failure is None,
        ExtractPhase::CreateDc => e.icon != 0 && e.color != 0 && e.mask != 0 && e.dc == 0
            && !e.acquired_dc && !e.released_icon && !e.released_color && !e.released_mask
            && !e.released_dc && e.failure is None && e.width <= MAX_PLANE_DIM && e.height
            <= MAX_PLANE_DIM,
        ExtractPhase::ReadColor | ExtractPhase::ReadMask => e.icon != 0 && e.color != 0 && e.mask
            != 0 && e.dc != 0 && !e.released_icon && !e.released_color && !e.released_mask
            && !e.released_dc && e.failure is None && e.width <= MAX_PLANE_DIM && e.height
            <= MAX_PLANE_DIM,
        ExtractPhase::ReleaseDc => e.icon != 0 && e.dc != 0 && !e.released_dc && !e.released_icon
            && !e.released_color && !e.released_mask && (e.failure is None ==> e.width
            <= MAX_PLANE_DIM && e.height <= MAX_PLANE_DIM),
        ExtractPhase::ReleaseMask => e.icon != 0 && e.dc == 0 && e.mask != 0 && !e.released_mask
            && !e.released_icon && !e.released_color && (e.acquired_dc ==> e.released_dc) && (
        e.failure is None ==> e.width <= MAX_PLANE_DIM && e.height <= MAX_PLANE_DIM),
        ExtractPhase::ReleaseColor => e.icon != 0 && e.dc == 0 && e.mask == 0 && e.color != 0
            && !e.released_color && !e.released_icon && (e.acquired_dc ==> e.released_dc) && (
        e.acquired_mask ==> e.released_mask) && (e.failure is None ==> e.width <= MAX_PLANE_DIM
            && e.height <= MAX_PLANE_DIM),
        ExtractPhase::ReleaseIcon => e.icon != 0 && e.dc == 0 && e.mask == 0 && e.color == 0
            && !e.released_icon && (e.acquired_dc ==> e.released_dc) && (e.acquired_mask
            ==> e.released_mask) && (e.acquired_color ==> e.released_color) && (e.failure is None
            ==> e.width <= MAX_PLANE_DIM && e.height <= MAX_PLANE_DIM),
        ExtractPhase::Finished => e.icon == 0 && e.color == 0 && e.mask == 0 && e.dc == 0
            && e.released_icon && (e.acquired_dc ==> e.released_dc) && (e.acquired_mask
            ==> e.released_mask) && (e.acquired_color ==> e.released_color) && (e.failure is None
            ==> e.width <= MAX_PLANE_DIM && e.height <= MAX_PLANE_DIM),
    }
}

impl Extraction {
    /// Start extracting from a valid icon handle.
    pub fn new(icon: u64) -> (r: Extraction)
        requires
            icon != 0,
        ensures
            r == extract_init(icon),
            extract_wf(r),
    {
        Extraction {
            phase: ExtractPhase::QueryInfo,
            icon,
            color: 0,
            mask: 0,
            dc: 0,
            acquired_color: false,
            acquired_mask: false,
            acquired_dc: false,
            released_icon: false,
            released_color: false,
            released_mask: false,
            released_dc: false,
            width: 0,
            height: 0,
            failure: None,
        }
    }

    /// Is the run over?
    pub fn is_finished(&self) -> (r: bool)
        ensures
            r == (self.phase is Finished),
    {
        match self.phase {
            ExtractPhase::Finished => true,
            _ => false,
        }
    }

    /// The first release step still owed, in reverse acquisition order.
    fn release_phase(&self) -> (p: ExtractPhase)
        ensures
            p == release_phase_of(*self),
    {
        if self.dc != 0 {
            ExtractPhase::ReleaseDc
        } else if self.mask != 0 {
            ExtractPhase::ReleaseMask
        } else if self.color != 0 {
            ExtractPhase::ReleaseColor
        } else if self.icon != 0 {
            ExtractPhase::ReleaseIcon
        } else {
            ExtractPhase::Finished
        }
    }

    /// The native call the pending step needs, or nothing once finished.
    /// Release requests are computed by the matching resource guard, so a
    /// release is only ever asked for a handle that is actually held.
    pub fn next_request(&self) -> (r: Option<NativeRequest>)
        requires
            extract_wf(*self),
        ensures
            r == extract_request(*self),
    {
        match self.phase {
            ExtractPhase::QueryInfo => Some(NativeRequest::QueryIconInfo { icon: self.icon }),
            ExtractPhase::QuerySize => Some(NativeRequest::QueryPlaneSize { bitmap: self.color }),
            ExtractPhase::CreateDc => Some(NativeRequest::CreateDeviceContext),
            ExtractPhase::ReadColor => Some(NativeRequest::ReadPlaneBits {
                dc: self.dc,
                bitmap: self.color,
                width: self.width,
                height: self.height,
            }),
            ExtractPhase::ReadMask => Some(NativeRequest::ReadPlaneBits {
                dc: self.dc,
                bitmap: self.mask,
                width: self.width,
                height: self.height,
            }),
            ExtractPhase::ReleaseDc => DcDropper(self.dc).release_request(),
            ExtractPhase::ReleaseMask => BitmapDropper(self.mask).release_request(),
            ExtractPhase::ReleaseColor => BitmapDropper(self.color).release_request(),
            ExtractPhase::ReleaseIcon => IconDropper(self.icon).release_request(),
            ExtractPhase::Finished => None,
        }
    }

    /// Feed the answer to the pending request into the machine.
    #[verifier::rlimit(50)]
    pub fn on_event(&mut self, ev: &NativeEvent)
        ensures
            *final(self) == extract_step(*old(self), event_view(*ev)),
    {
        match self.phase {
            ExtractPhase::QueryInfo => {
                let (c, m) = match ev {
                    NativeEvent::IconInfo { color, mask } => (*color, *mask),
                    _ => (0u64, 0u64),
                };
                self.color = c;
                self.mask = m;
                self.acquired_color = c != 0;
                self.acquired_mask = m != 0;
                if c == 0 || m == 0 {
                    self.failure = Some(InnerError::InvalidHandle);
                    self.phase = self.release_phase();
                } else {
                    self.phase = ExtractPhase::QuerySize;
                }
            },
            ExtractPhase::QuerySize => {
                let (w, h) = match ev {
                    NativeEvent::PlaneSize { width, height } => (*width, *height),
                    _ => (0u32, 0u32),
                };
                if w > MAX_PLANE_DIM || h > MAX_PLANE_DIM {
                    self.failure = Some(InnerError::InvalidHandle);
                    self.phase = self.release_phase();
                } else {
                    self.width = w;
                    self.height = h;
                    self.phase = ExtractPhase::CreateDc;
                }
            },
            ExtractPhase::CreateDc => {
                let d = match ev {
                    NativeEvent::DeviceContext { dc } => *dc,
                    _ => 0u64,
                };
                if d == 0 {
                    self.failure = Some(InnerError::DeviceContextFailure);
                    self.phase = self.release_phase();
                } else {
                    self.dc = d;
                    self.acquired_dc = true;
                    self.phase = ExtractPhase::ReadColor;
                }
            },
            ExtractPhase::ReadColor => {
                let ok = match ev {
                    NativeEvent::PlaneBits { rows, data } => self.plane_read_accepted(
                        *rows,
                        data.len(),
                    ),
                    _ => false,
                };
                if ok {
                    self.phase = ExtractPhase::ReadMask;
                } else {
                    self.failure = Some(InnerError::BitmapReadFailure(PlaneKind::Color));
                    self.phase = self.release_phase();
                }
            },
            ExtractPhase::ReadMask => {
                let ok = match ev {
                    NativeEvent::PlaneBits { rows, data } => self.plane_read_accepted(
                        *rows,
                        data.len(),
                    ),
                    _ => false,
                };
                if ok {
                    self.phase = self.release_phase();
                } else {
                    self.failure = Some(InnerError::BitmapReadFailure(PlaneKind::Mask));
                    self.phase = self.release_phase();
                }
            },
            ExtractPhase::ReleaseDc => {
                self.dc = 0;
                self.released_dc = true;
                self.phase = self.release_phase();
            },
            ExtractPhase::ReleaseMask => {
                self.mask = 0;
                self.released_mask = true;
                self.phase = if self.color != 0 {
                    ExtractPhase::ReleaseColor
                } else if self.icon != 0 {
                    ExtractPhase::ReleaseIcon
                } else {
                    ExtractPhase::Finished
                };
            },
            ExtractPhase::ReleaseColor => {
                self.color = 0;
                self.released_color = true;
                self.phase = if self.icon != 0 {
                    ExtractPhase::ReleaseIcon
                } else {
                    ExtractPhase::Finished
                };
            },
            ExtractPhase::ReleaseIcon => {
                self.icon = 0;
                self.released_icon = true;
                self.phase = ExtractPhase::Finished;
            },
            ExtractPhase::Finished => {},
        }
    }

    /// Would plane bytes with this row count and length be accepted?
    fn plane_read_accepted(&self, rows: u32, len: usize) -> (r: bool)
        ensures
            r == plane_read_ok(rows, len as int, self.width, self.height),
    {
        proof {
            assert((self.width as int) * (self.height as int) <= 0xffff_ffff * 0xffff_ffff)
                by (nonlinear_arith)
                requires
                    self.width <= 0xffff_ffffu32,
                    self.height <= 0xffff_ffffu32,
            ;
        }
        let expected: u128 = 4 * ((self.width as u128) * (self.height as u128));
        proof {
            assert(4 * ((self.width as int) * (self.height as int)) == 4 * (self.width as int) * (
            self.height as int)) by (nonlinear_arith);
        }
        rows != 0 && rows >= self.height && (len as u128) == expected
    }
}

/// Every transition preserves well-formedness.
pub proof fn lemma_extract_step_wf(e: Extraction, ev: EventV)
    requires
        extract_wf(e),
    ensures
        extract_wf(extract_step(e, ev)),
{
    match e.phase {
        ExtractPhase::QueryInfo => {
            assert(extract_wf(extract_step(e, ev)));
        },
        ExtractPhase::QuerySize => {
            assert(extract_wf(extract_step(e, ev)));
        },
        ExtractPhase::CreateDc => {
            assert(extract_wf(extract_step(e, ev)));
        },
        ExtractPhase::ReadColor => {
            assert(extract_wf(extract_step(e, ev)));
        },
        ExtractPhase::ReadMask => {
            assert(extract_wf(extract_step(e, ev)));
        },
        ExtractPhase::ReleaseDc => {
            assert(extract_wf(extract_step(e, ev)));
        },
        ExtractPhase::ReleaseMask => {
            assert(extract_wf(extract_step(e, ev)));
        },
        ExtractPhase::ReleaseColor => {
            assert(extract_wf(extract_step(e, ev)));
        },
        ExtractPhase::ReleaseIcon => {
            assert(extract_wf(extract_step(e, ev)));
        },
        ExtractPhase::Finished => {
            assert(extract_wf(extract_step(e, ev)));
        },
    }
}

/// Every transition out of a live state strictly lowers the rank, so every
/// extraction run terminates.
pub proof fn lemma_extract_step_decreases(e: Extraction, ev: EventV)
    requires
        extract_wf(e),
        !(e.phase is Finished),
    ensures
        extract_rank(extract_step(e, ev)) < extract_rank(e),
{
}

/// A release is only ever requested for a handle that is held and has not
/// been released before: no release call is skipped and none is issued
/// twice.
pub proof fn lemma_release_only_while_owed(e: Extraction)
    requires
        extract_wf(e),
    ensures
        e.phase is ReleaseDc ==> e.dc != 0 && !e.released_dc,
        e.phase is ReleaseMask ==> e.mask != 0 && !e.released_mask,
        e.phase is ReleaseColor ==> e.color != 0 && !e.released_color,
        e.phase is ReleaseIcon ==> e.icon != 0 && !e.released_icon,
{
}

/// When a run has finished, every resource that was ever acquired has been
/// released, and nothing that was never acquired ever was.
pub proof fn lemma_finished_all_released(e: Extraction)
    requires
        extract_wf(e),
        e.phase is Finished,
    ensures
        e.released_icon,
        e.acquired_color <==> e.released_color,
        e.acquired_mask <==> e.released_mask,
        e.acquired_dc <==> e.released_dc,
{
}

/// Run the extractor over a transcript to its finished state.  An exhausted
/// transcript reads as failing answers, so the run always terminates.
pub open spec fn extract_run(e: Extraction, evs: Seq<EventV>) -> Extraction
    decreases extract_rank(e),
{
    if e.phase is Finished {
        e
    } else if evs.len() > 0 {
        extract_run(extract_step(e, evs[0]), evs.drop_first())
    } else {
        extract_run(extract_step(e, EventV::Released), evs)
    }
}

/// Every native request a run emits, one per step, in order.
pub open spec fn extract_requests(e: Extraction, evs: Seq<EventV>) -> Seq<NativeRequest>
    decreases extract_rank(e),
{
    if e.phase is Finished {
        Seq::empty()
    } else if evs.len() > 0 {
        seq![extract_request(e).unwrap()] + extract_requests(extract_step(e, evs[0]), evs.drop_first())
    } else {
        seq![extract_request(e).unwrap()] + extract_requests(
            extract_step(e, EventV::Released),
            evs,
        )
    }
}

/// The raw bytes the run reads for the color plane: the data of the event
/// answering the color read, or empty when the run fails before it.
pub open spec fn extract_color_data(e: Extraction, evs: Seq<EventV>) -> Seq<u8>
    decreases extract_rank(e),
{
    if e.phase is Finished {
        Seq::empty()
    } else {
        let ev = if evs.len() > 0 {
            evs[0]
        } else {
            EventV::Released
        };
        let rest = if evs.len() > 0 {
            evs.drop_first()
        } else {
            evs
        };
        if e.phase is ReadColor {
            match ev {
                EventV::PlaneBits { rows, data } => data,
                _ => Seq::empty(),
            }
        } else {
            extract_color_data(extract_step(e, ev), rest)
        }
    }
}

/// The raw bytes the run reads for the mask plane.
pub open spec fn extract_mask_data(e: Extraction, evs: Seq<EventV>) -> Seq<u8>
    decreases extract_rank(e),
{
    if e.phase is Finished {
        Seq::empty()
    } else {
        let ev = if evs.len() > 0 {
            evs[0]
        } else {
            EventV::Released
        };
        let rest = if evs.len() > 0 {
            evs.drop_first()
        } else {
            evs
        };
        if e.phase is ReadMask {
            match ev {
                EventV::PlaneBits { rows, data } => data,
                _ => Seq::empty(),
            }
        } else {
            extract_mask_data(extract_step(e, ev), rest)
        }
    }
}

/// How many icon release requests a request log holds.
pub open spec fn count_release_icon(rs: Seq<NativeRequest>) -> int
    decreases rs.len(),
{
    if rs.len() == 0 {
        0
    } else {
        (if rs[0] is ReleaseIcon {
            1int
        } else {
            0
        }) + count_release_icon(rs.drop_first())
    }
}

/// How many bitmap release requests a request log holds.
pub open spec fn count_release_bitmap(rs: Seq<NativeRequest>) -> int
    decreases rs.len(),
{
    if rs.len() == 0 {
        0
    } else {
        (if rs[0] is ReleaseBitmap {
            1int
        } else {
            0
        }) + count_release_bitmap(rs.drop_first())
    }
}

/// How many device context release requests a request log holds.
pub open spec fn count_release_dc(rs: Seq<NativeRequest>) -> int
    decreases rs.len(),
{
    if rs.len() == 0 {
        0
    } else {
        (if rs[0] is ReleaseDeviceContext {
            1int
        } else {
            0
        }) + count_release_dc(rs.drop_first())
    }
}

proof fn lemma_count_cons(q: NativeRequest, rest: Seq<NativeRequest>)
    ensures
        count_release_icon(seq![q] + rest) == (if q is ReleaseIcon {
            1int
        } else {
            0
        }) + count_release_icon(rest),
        count_release_bitmap(seq![q] + rest) == (if q is ReleaseBitmap {
            1int
        } else {
            0
        }) + count_release_bitmap(rest),
        count_release_dc(seq![q] + rest) == (if q is ReleaseDeviceContext {
            1int
        } else {
            0
        }) + count_release_dc(rest),
{
    assert((seq![q] + rest).drop_first() =~= rest);
    assert((seq![q] + rest)[0] == q);
}

/// Every run ends well-formed and finished.
pub proof fn lemma_extract_run_finished(e: Extraction, evs: Seq<EventV>)
    requires
        extract_wf(e),
    ensures
        extract_wf(extract_run(e, evs)),
        extract_run(e, evs).phase is Finished,
    decreases extract_rank(e),
{
    if !(e.phase is Finished) {
        if evs.len() > 0 {
            lemma_extract_step_wf(e, evs[0]);
            lemma_extract_run_finished(extract_step(e, evs[0]), evs.drop_first());
        } else {
            lemma_extract_step_wf(e, EventV::Released);
            lemma_extract_run_finished(extract_step(e, EventV::Released), evs);
        }
    }
}

/// Along any run, the release requests in the emitted log account exactly
/// for the release flags that flipped between the start and the end.
proof fn lemma_run_release_counts(e: Extraction, evs: Seq<EventV>)
    requires
        extract_wf(e),
    ensures
        ({
            let reqs = extract_requests(e, evs);
            let fin = extract_run(e, evs);
            &&& count_release_icon(reqs) == (if fin.released_icon {
                1int
            } else {
                0
            }) - (if e.released_icon {
                1int
            } else {
                0
            })
            &&& count_release_dc(reqs) == (if fin.released_dc {
                1int
            } else {
                0
            }) - (if e.released_dc {
                1int
            } else {
                0
            })
            &&& count_release_bitmap(reqs) == ((if fin.released_color {
                1int
            } else {
                0
            }) - (if e.released_color {
                1int
            } else {
                0
            })) + ((if fin.released_mask {
                1int
            } else {
                0
            }) - (if e.released_mask {
                1int
            } else {
                0
            }))
        }),
    decreases extract_rank(e),
{
    if !(e.phase is Finished) {
        let ev = if evs.len() > 0 {
            evs[0]
        } else {
            EventV::Released
        };
        let rest = if evs.len() > 0 {
            evs.drop_first()
        } else {
            evs
        };
        lemma_extract_step_wf(e, ev);
        lemma_run_release_counts(extract_step(e, ev), rest);
        lemma_count_cons(extract_request(e).unwrap(), extract_requests(extract_step(e, ev), rest));
    }
}

/// Resource safety over a whole run: starting from a fresh extraction, the
/// emitted request log asks to release the icon exactly once, the device
/// context exactly once if it was ever acquired, and exactly one bitmap
/// release per plane handle that was ever acquired -- no release is skipped
/// and none is issued twice, on every path, including every failure path.
pub proof fn lemma_extraction_releases_exactly_once(icon: u64, evs: Seq<EventV>)
    requires
        icon != 0,
    ensures
        ({
            let reqs = extract_requests(extract_init(icon), evs);
            let fin = extract_run(extract_init(icon), evs);
            &&& count_release_icon(reqs) == 1
            &&& count_release_dc(reqs) == (if fin.acquired_dc {
                1int
            } else {
                0
            })
            &&& count_release_bitmap(reqs) == (if fin.acquired_color {
                1int
            } else {
                0
            }) + (if fin.acquired_mask {
                1int
            } else {
                0
            })
        }),
{
    let e0 = extract_init(icon);
    lemma_extract_run_finished(e0, evs);
    lemma_finished_all_released(extract_run(e0, evs));
    lemma_run_release_counts(e0, evs);
}

/// Is the recorded failure one that extraction can actually produce?
pub open spec fn extract_failure_kind_ok(e: Extraction) -> bool {
    e.failure matches Some(k) ==> (k is InvalidHandle || k is DeviceContextFailure
        || k is BitmapReadFailure)
}

/// Extraction only ever fails with an invalid handle, a device context
/// failure or a bitmap read failure: it never reports `NotFound` (that is
/// the resolver's verdict) nor an encoding failure (that is the encoder's).
pub proof fn lemma_extract_run_failure_kinds(e: Extraction, evs: Seq<EventV>)
    requires
        extract_failure_kind_ok(e),
    ensures
        extract_failure_kind_ok(extract_run(e, evs)),
    decreases extract_rank(e),
{
    if !(e.phase is Finished) {
        let ev = if evs.len() > 0 {
            evs[0]
        } else {
            EventV::Released
        };
        let rest = if evs.len() > 0 {
            evs.drop_first()
        } else {
            evs
        };
        lemma_extract_run_failure_kinds(extract_step(e, ev), rest);
    }
}

/// Do the phases up to and including the color read still lie ahead?
pub open spec fn color_pending(p: ExtractPhase) -> bool {
    p is QueryInfo || p is QuerySize || p is CreateDc || p is ReadColor
}

/// Do the phases up to and including the mask read still lie ahead?
pub open spec fn mask_pending(p: ExtractPhase) -> bool {
    color_pending(p) || p is ReadMask
}

/// Once the color read lies behind, no color bytes are consumed any more.
proof fn lemma_color_data_after(e: Extraction, evs: Seq<EventV>)
    requires
        !color_pending(e.phase),
    ensures
        extract_color_data(e, evs) == Seq::<u8>::empty(),
    decreases extract_rank(e),
{
    if !(e.phase is Finished) {
        let ev = if evs.len() > 0 {
            evs[0]
        } else {
            EventV::Released
        };
        let rest = if evs.len() > 0 {
            evs.drop_first()
        } else {
            evs
        };
        lemma_color_data_after(extract_step(e, ev), rest);
    }
}

/// Once the mask read lies behind, no mask bytes are consumed any more.
proof fn lemma_mask_data_after(e: Extraction, evs: Seq<EventV>)
    requires
        !mask_pending(e.phase),
    ensures
        extract_mask_data(e, evs) == Seq::<u8>::empty(),
    decreases extract_rank(e),
{
    if !(e.phase is Finished) {
        let ev = if evs.len() > 0 {
            evs[0]
        } else {
            EventV::Released
        };
        let rest = if evs.len() > 0 {
            evs.drop_first()
        } else {
            evs
        };
        lemma_mask_data_after(extract_step(e, ev), rest);
    }
}

/// Copy a byte buffer.
fn copy_bytes(src: &Vec<u8>) -> (r: Vec<u8>)
    ensures
        r@ == src@,
{
    let mut out: Vec<u8> = Vec::new();
    let mut i: usize = 0;
    while i < src.len()
        invariant
            i <= src@.len(),
            out@.len() == i,
            forall|k: int| 0 <= k < i ==> out@[k] == src@[k],
        decreases src@.len() - i,
    {
        out.push(src[i]);
        i = i + 1;
    }
    proof {
        assert(out@ =~= src@);
    }
    out
}
/// Run one whole extraction over the transcript of events from position
/// `start` on, and hand back the full request log together with the
/// outcome: the descriptor and the two raw planes, or the error of the step
/// that failed.  The request log is exactly what
/// [`lemma_extraction_releases_exactly_once`] speaks about: no release in it
/// is skipped and none is issued twice.
pub fn run_extraction(icon: u64, events: &Vec<NativeEvent>, start: usize) -> (r: (
    Vec<NativeRequest>,
    Result<(BitmapDescriptor, Vec<u8>, Vec<u8>), Error>,
))
    requires
        icon != 0,
        start <= events@.len(),
    ensures
        ({
            let evs = events_view(events@).skip(start as int);
            let fin = extract_run(extract_init(icon), evs);
            &&& r.0@ == extract_requests(extract_init(icon), evs)
            &&& match r.1 {
                Ok(parts) => {
                    &&& fin.failure is None
                    &&& descriptor_wf(parts.0)
                    &&& parts.0.width == fin.width
                    &&& parts.0.height == fin.height
                    &&& parts.1@ == extract_color_data(extract_init(icon), evs)
                    &&& parts.2@ == extract_mask_data(extract_init(icon), evs)
                    &&& parts.1@.len() == 4 * (fin.width as int) * (fin.height as int)
                    &&& parts.2@.len() == 4 * (fin.width as int) * (fin.height as int)
                },
                Err(err) => fin.failure matches Some(kind) && is_error_of(err, kind),
            }
        }),
{
    let ghost evs0 = events_view(events@).skip(start as int);
    let ghost e0 = extract_init(icon);
    let mut m = Extraction::new(icon);
    let mut requests: Vec<NativeRequest> = Vec::new();
    let mut color_bits: Vec<u8> = Vec::new();
    let mut mask_bits: Vec<u8> = Vec::new();
    let mut i: usize = start;
    while !m.is_finished()
        invariant
            icon != 0,
            start <= i <= events@.len(),
            evs0 == events_view(events@).skip(start as int),
            e0 == extract_init(icon),
            extract_wf(m),
            extract_run(e0, evs0) == extract_run(m, events_view(events@).skip(i as int)),
            requests@ + extract_requests(m, events_view(events@).skip(i as int))
                == extract_requests(e0, evs0),
            color_pending(m.phase) ==> color_bits@ == Seq::<u8>::empty()
                && extract_color_data(e0, evs0) == extract_color_data(
                m,
                events_view(events@).skip(i as int),
            ),
            !color_pending(m.phase) ==> color_bits@ == extract_color_data(e0, evs0),
            mask_pending(m.phase) ==> mask_bits@ == Seq::<u8>::empty() && extract_mask_data(
                e0,
                evs0,
            ) == extract_mask_data(m, events_view(events@).skip(i as int)),
            !mask_pending(m.phase) ==> mask_bits@ == extract_mask_data(e0, evs0),
            !color_pending(m.phase) && m.failure is None ==> color_bits@.len() == 4 * (
            m.width as int) * (m.height as int),
            !mask_pending(m.phase) && m.failure is None ==> mask_bits@.len() == 4 * (
            m.width as int) * (m.height as int),
        decreases extract_rank(m),
    {
        let ghost pre = m;
        let ghost evs_i = events_view(events@).skip(i as int);
        let ghost ev_used = if evs_i.len() > 0 {
            evs_i[0]
        } else {
            EventV::Released
        };
        let ghost reqs_pre = requests@;
        let req = m.next_request();
        match req {
            Some(q) => {
                requests.push(q);
            },
            None => {
                proof {
                    assert(false);
                }
            },
        }
        if i < events.len() {
            let ev = &events[i];
            proof {
                lemma_events_view_skip(events@, i as int);
            }
            match m.phase {
                ExtractPhase::ReadColor => {
                    match ev {
                        NativeEvent::PlaneBits { rows, data } => {
                            color_bits = copy_bytes(data);
                        },
                        _ => {},
                    }
                },
                ExtractPhase::ReadMask => {
                    match ev {
                        NativeEvent::PlaneBits { rows, data } => {
                            mask_bits = copy_bytes(data);
                        },
                        _ => {},
                    }
                },
                _ => {},
            }
            m.on_event(ev);
            i = i + 1;
        } else {
            proof {
                assert(evs_i.len() == 0);
            }
            let pad = NativeEvent::Released;
            m.on_event(&pad);
        }
        proof {
            let rest = events_view(events@).skip(i as int);
            assert(m == extract_step(pre, ev_used));
            lemma_extract_step_wf(pre, ev_used);
            lemma_extract_step_decreases(pre, ev_used);
            // the run fold moves one step
            assert(extract_run(pre, evs_i) == extract_run(m, rest));
            // the request log fold moves one step
            let q = extract_request(pre).unwrap();
            assert(extract_requests(pre, evs_i) == seq![q] + extract_requests(m, rest));
            assert(requests@ =~= reqs_pre + seq![q]);
            assert((reqs_pre + seq![q]) + extract_requests(m, rest) =~= reqs_pre + (seq![q]
                + extract_requests(m, rest)));
            // the plane byte folds move one step
            if color_pending(pre.phase) {
                if pre.phase is ReadColor {
                    assert(!color_pending(m.phase));
                    assert(extract_color_data(pre, evs_i) == (match ev_used {
                        EventV::PlaneBits { rows, data } => data,
                        _ => Seq::<u8>::empty(),
                    }));
                } else {
                    if color_pending(m.phase) {
                        assert(extract_color_data(pre, evs_i) == extract_color_data(m, rest));
                    } else {
                        lemma_color_data_after(m, rest);
                        assert(extract_color_data(pre, evs_i) == extract_color_data(m, rest));
                    }
                }
            } else {
                assert(!color_pending(m.phase));
            }
            if mask_pending(pre.phase) {
                if pre.phase is ReadMask {
                    assert(!mask_pending(m.phase));
                    assert(extract_mask_data(pre, evs_i) == (match ev_used {
                        EventV::PlaneBits { rows, data } => data,
                        _ => Seq::<u8>::empty(),
                    }));
                } else {
                    if mask_pending(m.phase) {
                        assert(extract_mask_data(pre, evs_i) == extract_mask_data(m, rest));
                    } else {
                        lemma_mask_data_after(m, rest);
                        assert(extract_mask_data(pre, evs_i) == extract_mask_data(m, rest));
                    }
                }
            } else {
                assert(!mask_pending(m.phase));
            }
        }
    }
    proof {
        lemma_extract_run_finished(e0, evs0);
        assert(extract_run(m, events_view(events@).skip(i as int)) == m);
        assert(extract_requests(m, events_view(events@).skip(i as int)) =~= Seq::<
            NativeRequest,
        >::empty());
        assert(requests@ =~= extract_requests(e0, evs0));
    }
    match m.failure {
        Some(kind) => (requests, Err(Error::from_kind(kind))),
        None => {
            let desc = descriptor_for(m.width, m.height);
            (requests, Ok((desc, color_bits, mask_bits)))
        },
    }
}

} // verus!
