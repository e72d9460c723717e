//! The protocol between the library and the native icon subsystem.
//!
//! The library never calls the operating system itself.  It emits a
//! [`NativeRequest`] describing the one native call to perform next, and the
//! host loop answers with a [`NativeEvent`].  Handles are opaque nonnegative
//! words; the value [`INVALID_HANDLE`] is the native "no value" sentinel.

use vstd::prelude::*;
use crate::SizeClass;

verus! {

/// The native "no value" sentinel for every handle kind.
pub const INVALID_HANDLE: u64 = 0;

/// One native call the host loop is asked to perform.
#[derive(Debug, PartialEq)]
pub enum NativeRequest {
    /// Query the file-association subsystem for the icon of a file name with
    /// the given extension, small or large.  When `delay_millis` is not zero
    /// the host waits that long first: the subsystem can transiently report
    /// no icon right after system start, so retries are spaced out.
    LookupAssociation { name: String, size: SizeClass, delay_millis: u32 },
    /// Extract icon resource 0 from the executable or library at `path`.
    ExtractResource { path: String, size: SizeClass },
    /// Query the icon's info structure for its color and mask bitmap handles.
    QueryIconInfo { icon: u64 },
    /// Query a bitmap handle for its width and height.
    QueryPlaneSize { bitmap: u64 },
    /// Create a temporary off-screen device context.
    CreateDeviceContext,
    /// Select `bitmap` into `dc` and copy its scanlines out, bottom-up, as
    /// 32-bit pixels: `height` rows of `width` pixels each.
    ReadPlaneBits { dc: u64, bitmap: u64, width: u32, height: u32 },
    /// Release an icon handle.
    ReleaseIcon { icon: u64 },
    /// Release a bitmap handle.
    ReleaseBitmap { bitmap: u64 },
    /// Release a device context.
    ReleaseDeviceContext { dc: u64 },
}

/// The host loop's answer to one [`NativeRequest`].
#[derive(Debug, PartialEq)]
pub enum NativeEvent {
    /// Answer to a lookup or resource extraction: the icon handle produced,
    /// or [`INVALID_HANDLE`] if the call found nothing.
    Icon { handle: u64 },
    /// Answer to [`NativeRequest::QueryIconInfo`]: the two plane handles.
    /// A failed query hands back [`INVALID_HANDLE`] for both.
    IconInfo { color: u64, mask: u64 },
    /// Answer to [`NativeRequest::QueryPlaneSize`].  A failed query hands
    /// back a zeroed size, as the native bitmap query does.
    PlaneSize { width: u32, height: u32 },
    /// Answer to [`NativeRequest::CreateDeviceContext`]:
    /// [`INVALID_HANDLE`] if the graphics subsystem refused.
    DeviceContext { dc: u64 },
    /// Answer to [`NativeRequest::ReadPlaneBits`]: how many scanlines were
    /// copied and the raw bottom-up plane bytes.
    PlaneBits { rows: u32, data: Vec<u8> },
    /// Acknowledgement of a release request.
    Released,
}

/// The mathematical view of a [`NativeEvent`]: plane bytes become sequences.
pub enum EventV {
    Icon { handle: u64 },
    IconInfo { color: u64, mask: u64 },
    PlaneSize { width: u32, height: u32 },
    DeviceContext { dc: u64 },
    PlaneBits { rows: u32, data: Seq<u8> },
    Released,
}

/// The view of one event.
pub open spec fn event_view(e: NativeEvent) -> EventV {
    match e {
        NativeEvent::Icon { handle } => EventV::Icon { handle },
        NativeEvent::IconInfo { color, mask } => EventV::IconInfo { color, mask },
        NativeEvent::PlaneSize { width, height } => EventV::PlaneSize { width, height },
        NativeEvent::DeviceContext { dc } => EventV::DeviceContext { dc },
        NativeEvent::PlaneBits { rows, data } => EventV::PlaneBits { rows, data: data@ },
        NativeEvent::Released => EventV::Released,
    }
}

/// The view of a whole transcript of events.
pub open spec fn events_view(es: Seq<NativeEvent>) -> Seq<EventV> {
    es.map_values(|e: NativeEvent| event_view(e))
}

/// The icon handle an event carries, with anything else reading as the
/// invalid sentinel: what a resolver lookup learns from the event.
pub open spec fn handle_of(e: EventV) -> u64 {
    match e {
        EventV::Icon { handle } => handle,
        _ => 0,
    }
}

/// The icon handle an event carries, as the resolver reads it.
pub fn handle_of_event(e: &NativeEvent) -> (r: u64)
    ensures
        r == handle_of(event_view(*e)),
{
    match e {
        NativeEvent::Icon { handle } => *handle,
        _ => 0,
    }
}

/// The UTF-16 code units of one character: one unit below the supplementary
/// planes, a surrogate pair from there on.
pub open spec fn utf16_units(c: char) -> Seq<u16> {
    if (c as u32) < 0x10000 {
        seq![(c as u32) as u16]
    } else {
        seq![
            (0xD800 + ((c as u32) - 0x10000) / 0x400) as u16,
            (0xDC00 + ((c as u32) - 0x10000) % 0x400) as u16,
        ]
    }
}

/// The UTF-16 encoding of a character sequence.
pub open spec fn utf16_encode(s: Seq<char>) -> Seq<u16>
    decreases s.len(),
{
    if s.len() == 0 {
        Seq::empty()
    } else {
        utf16_units(s[0]) + utf16_encode(s.drop_first())
    }
}

/// Encoding distributes over appending one character.
proof fn lemma_utf16_encode_push(s: Seq<char>, c: char)
    ensures
        utf16_encode(s.push(c)) == utf16_encode(s) + utf16_units(c),
    decreases s.len(),
{
    if s.len() == 0 {
        assert(s.push(c)[0] == c);
        assert(s.push(c).drop_first() =~= Seq::<char>::empty());
        assert(utf16_encode(s.push(c)) == utf16_units(c) + utf16_encode(Seq::<char>::empty()));
        assert(utf16_encode(Seq::<char>::empty()) == Seq::<u16>::empty());
        assert(utf16_encode(s) == Seq::<u16>::empty());
        assert(utf16_units(c) + Seq::<u16>::empty() =~= Seq::<u16>::empty() + utf16_units(c));
    } else {
        assert(s.push(c)[0] == s[0]);
        assert(s.push(c).drop_first() =~= s.drop_first().push(c));
        lemma_utf16_encode_push(s.drop_first(), c);
        assert(utf16_encode(s.push(c)) == utf16_units(s[0]) + utf16_encode(
            s.drop_first().push(c),
        ));
        assert(utf16_units(s[0]) + (utf16_encode(s.drop_first()) + utf16_units(c)) =~= (
        utf16_units(s[0]) + utf16_encode(s.drop_first())) + utf16_units(c));
        assert(utf16_encode(s.push(c)) =~= utf16_encode(s) + utf16_units(c));
    }
}

/// The UTF-16 encoding of a string with a terminating zero unit, as the
/// native wide-string calls expect their text.
pub fn utf_16_null_terminated(x: &str) -> (r: Vec<u16>)
    ensures
        r@ == utf16_encode(x@).push(0u16),
{
    let n = x.unicode_len();
    let mut out: Vec<u16> = Vec::new();
    let mut i: usize = 0;
    while i < n
        invariant
            n == x@.len(),
            i <= n,
            out@ == utf16_encode(x@.take(i as int)),
        decreases n - i,
    {
        let c = x.get_char(i);
        let cp = c as u32;
        if cp < 0x10000 {
            out.push(cp as u16);
        } else {
            out.push((0xD800 + (cp - 0x10000) / 0x400) as u16);
            out.push((0xDC00 + (cp - 0x10000) % 0x400) as u16);
        }
        proof {
            assert(x@.take(i + 1) =~= x@.take(i as int).push(x@[i as int]));
            lemma_utf16_encode_push(x@.take(i as int), x@[i as int]);
        }
        i = i + 1;
    }
    proof {
        assert(x@.take(n as int) =~= x@);
    }
    out.push(0);
    out
}

/// Taking the view of a transcript commutes with indexing and slicing: the
/// element at `i` heads the suffix from `i`, and dropping it leaves the
/// suffix from `i + 1`.
pub proof fn lemma_events_view_skip(s: Seq<NativeEvent>, i: int)
    requires
        0 <= i < s.len(),
    ensures
        events_view(s).len() == s.len(),
        events_view(s).skip(i).len() == s.len() - i,
        events_view(s).skip(i)[0] == event_view(s[i]),
        events_view(s).skip(i).drop_first() == events_view(s).skip(i + 1),
{
    assert(events_view(s).skip(i).drop_first() =~= events_view(s).skip(i + 1));
}

/// Scoped ownership of a native icon handle: whoever holds the dropper owes
/// the native layer exactly one release, unless the handle is the invalid
/// sentinel.
#[derive(Debug)]
pub struct IconDropper(pub u64);

/// Scoped ownership of a native bitmap handle.
#[derive(Debug)]
pub struct BitmapDropper(pub u64);

/// Scoped ownership of a native device context.
#[derive(Debug)]
pub struct DcDropper(pub u64);

impl IconDropper {
    /// The release call this guard owes: none when the wrapped handle is the
    /// invalid sentinel, exactly the matching release otherwise.
    pub fn release_request(&self) -> (r: Option<NativeRequest>)
        ensures
            self.0 == INVALID_HANDLE ==> r is None,
            self.0 != INVALID_HANDLE ==> r == Some(NativeRequest::ReleaseIcon { icon: self.0 }),
    {
        if self.0 == INVALID_HANDLE {
            None
        } else {
            Some(NativeRequest::ReleaseIcon { icon: self.0 })
        }
    }
}

impl BitmapDropper {
    /// The release call this guard owes.
    pub fn release_request(&self) -> (r: Option<NativeRequest>)
        ensures
            self.0 == INVALID_HANDLE ==> r is None,
            self.0 != INVALID_HANDLE ==> r == Some(
                NativeRequest::ReleaseBitmap { bitmap: self.0 },
            ),
    {
        if self.0 == INVALID_HANDLE {
            None
        } else {
            Some(NativeRequest::ReleaseBitmap { bitmap: self.0 })
        }
    }
}

impl DcDropper {
    /// The release call this guard owes.
    pub fn release_request(&self) -> (r: Option<NativeRequest>)
        ensures
            self.0 == INVALID_HANDLE ==> r is None,
            self.0 != INVALID_HANDLE ==> r == Some(NativeRequest::ReleaseDeviceContext {
                dc: self.0,
            }),
    {
        if self.0 == INVALID_HANDLE {
            None
        } else {
            Some(NativeRequest::ReleaseDeviceContext { dc: self.0 })
        }
    }
}

} // verus!
