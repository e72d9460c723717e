//! Resolve the icon that the host operating system associates with a file
//! extension or an executable path, and deliver it as PNG bytes.
//!
//! The native icon subsystem is reached through a request/event protocol: the
//! library decides which native call comes next and what every possible answer
//! means, while a thin host loop performs the calls.  Everything the library
//! decides -- the ordered fallback chain of lookups, the extraction of the two
//! bitmap planes, the release of every native handle on every path, the alpha
//! compositing and the final encoding -- is verified.

use vstd::prelude::*;

pub mod error;
pub mod native;
pub mod composite;
pub mod encode;
pub mod extract;
pub mod resolve;

verus! {

use crate::composite::{composite, composite_spec};
use crate::encode::{encode_png, png_of};
use crate::error::{Error, InnerError, is_error_of};
use crate::extract::{
    extract_color_data, extract_init, extract_mask_data, extract_run, run_extraction,
};
use crate::native::{EventV, NativeEvent, events_view, handle_of, handle_of_event,
    lemma_events_view_skip};
use crate::resolve::{
    Resolver, ResolveState, analyze_identifier, lemma_resolve_step_decreases,
    lemma_resolve_step_wf, resolve_consumed, resolve_rank, resolve_run, resolve_wf, resolver_for,
};

/// Size classes the native icon subsystem distinguishes.
#[derive(Clone, Copy, Debug, PartialEq, Eq, Structural)]
pub enum SizeClass {
    Small,
    Large,
}

/// The size class a requested pixel size falls in: everything above 16
/// pixels asks for the large icon, everything else for the small one.
pub open spec fn size_class_of(size: i32) -> SizeClass {
    if size > 16 {
        SizeClass::Large
    } else {
        SizeClass::Small
    }
}

/// Map a requested pixel size to the size class handed to native lookups.
pub fn size_class(size: i32) -> (r: SizeClass)
    ensures
        r == size_class_of(size),
{
    if size > 16 {
        SizeClass::Large
    } else {
        SizeClass::Small
    }
}

/// What `get_icon` returns for an identifier, a size, and a transcript of
/// native answers: the whole pipeline -- resolution, extraction,
/// compositing, encoding -- as one function of its inputs.
pub open spec fn get_icon_spec(ident: Seq<char>, size: i32, evs: Seq<EventV>) -> Result<
    Seq<u8>,
    InnerError,
> {
    let r0 = resolver_for(ident, size);
    let rf = resolve_run(r0, evs);
    match rf.state {
        ResolveState::Done { handle } => {
            let rest = evs.skip(resolve_consumed(r0, evs));
            let e0 = extract_init(handle);
            let fin = extract_run(e0, rest);
            match fin.failure {
                Some(kind) => Err(kind),
                None => if fin.width == 0 || fin.height == 0 {
                    Err(InnerError::EncodingFailure)
                } else {
                    Ok(
                        png_of(
                            fin.width,
                            fin.height,
                            composite_spec(
                                fin.width as int,
                                fin.height as int,
                                extract_color_data(e0, rest),
                                extract_mask_data(e0, rest),
                            ),
                        ),
                    )
                },
            }
        },
        _ => Err(InnerError::NotFound),
    }
}

/// Retrieve the icon the native subsystem associates with a file extension
/// or executable path, PNG-encoded, for a desired pixel size such as 16, 32
/// or 64.  `events` is the transcript of native answers, one per request of
/// the resolution and extraction machines; an exhausted transcript reads as
/// failing answers.  The result is the one [`get_icon_spec`] gives: byte for
/// byte a function of the identifier, the size and the transcript.
pub fn get_icon(ext: &str, size: i32, events: &Vec<NativeEvent>) -> (r: Result<Vec<u8>, Error>)
    ensures
        match r {
            Ok(png) => get_icon_spec(ext@, size, events_view(events@)) matches Ok(s) && png@ == s
                && png@.len() > 0,
            Err(e) => get_icon_spec(ext@, size, events_view(events@)) matches Err(kind)
                && is_error_of(e, kind),
        },
{
    let ghost evs0 = events_view(events@);
    let (exe, fragment) = analyze_identifier(ext);
    let mut resolver = Resolver::new(exe, fragment.is_some(), size);
    let ghost r0 = resolver;
    proof {
        assert(r0 == resolver_for(ext@, size));
        assert(evs0.skip(0) =~= evs0);
    }
    let mut i: usize = 0;
    while !resolver.is_terminal()
        invariant
            evs0 == events_view(events@),
            i <= events@.len(),
            resolve_wf(resolver),
            resolve_run(r0, evs0) == resolve_run(resolver, evs0.skip(i as int)),
            resolve_consumed(r0, evs0) == i + resolve_consumed(resolver, evs0.skip(i as int)),
        decreases resolve_rank(resolver),
    {
        let ghost pre = resolver;
        let ghost evs_i = evs0.skip(i as int);
        let h = if i < events.len() {
            proof {
                lemma_events_view_skip(events@, i as int);
            }
            handle_of_event(&events[i])
        } else {
            proof {
                assert(evs_i.len() == 0);
            }
            0
        };
        resolver.on_result(h);
        proof {
            lemma_resolve_step_wf(pre, h);
            lemma_resolve_step_decreases(pre, h);
        }
        if i < events.len() {
            i = i + 1;
        }
    }
    match resolver.state {
        ResolveState::Done { handle } => {
            proof {
                assert(resolve_run(r0, evs0) == resolver);
                assert(resolve_consumed(r0, evs0) == i as int);
            }
            let (_requests, outcome) = run_extraction(handle, events, i);
            match outcome {
                Ok((desc, color_bits, mask_bits)) => {
                    let rgba = composite(&desc, &color_bits, &mask_bits);
                    proof {
                        assert(4 * (desc.width as int) * (desc.height as int) == 4 * ((
                        desc.width as int) * (desc.height as int))) by (nonlinear_arith);
                    }
                    match encode_png(desc.width, desc.height, &rgba) {
                        Ok(png) => Ok(png),
                        Err(e) => Err(e),
                    }
                },
                Err(e) => Err(e),
            }
        },
        _ => Err(Error::from_kind(InnerError::NotFound)),
    }
}

/// Idempotence of the pipeline: its outcome is one function of the
/// identifier, the requested size and the transcript of native answers, so
/// two calls whose arguments read the same produce byte-identical results --
/// the library keeps no state between calls.
pub proof fn lemma_get_icon_idempotent(
    ident: Seq<char>,
    size: i32,
    evs: Seq<EventV>,
    r1: Result<Seq<u8>, InnerError>,
    r2: Result<Seq<u8>, InnerError>,
)
    requires
        r1 == get_icon_spec(ident, size, evs),
        r2 == get_icon_spec(ident, size, evs),
    ensures
        r1 == r2,
{
}

/// The fallback chain always terminates in a resolution unless the whole
/// chain, the shell resource library included, answered with the invalid
/// sentinel: `NotFound` is reported exactly then, and never by a later
/// pipeline stage.
pub proof fn lemma_not_found_only_when_every_lookup_fails(
    ident: Seq<char>,
    size: i32,
    evs: Seq<EventV>,
)
    requires
        get_icon_spec(ident, size, evs) == Err::<Seq<u8>, InnerError>(InnerError::NotFound),
    ensures
        resolve_run(resolver_for(ident, size), evs).state is Failed,
        forall|k: int|
            0 <= k < resolve_consumed(resolver_for(ident, size), evs) ==> handle_of(
                #[trigger] evs[k],
            ) == 0,
{
    let r0 = resolver_for(ident, size);
    let rf = resolve_run(r0, evs);
    crate::resolve::lemma_resolve_run_terminal(r0, evs);
    match rf.state {
        ResolveState::Done { handle } => {
            let rest = evs.skip(resolve_consumed(r0, evs));
            crate::extract::lemma_extract_run_failure_kinds(extract_init(handle), rest);
            assert(false);
        },
        _ => {},
    }
    crate::resolve::lemma_resolve_failed_all_invalid(r0, evs);
}

/// The path of an icon file for the given extension and size.  This library
/// resolves icons to pixel data through the native request protocol; it
/// keeps no theme directory of its own to hand out files from, so the
/// lookup always reports that nothing was found.
pub fn get_icon_as_file(ext: &str, size: i32) -> (r: Result<String, Error>)
    ensures
        r matches Err(e) && is_error_of(e, InnerError::NotFound),
{
    Err(Error::from_kind(InnerError::NotFound))
}

/// Hosts whose toolkit needs global initialisation before icon lookups do
/// that in their own glue; the library itself keeps no state between calls,
/// so there is nothing to set up.
pub fn init() {
}

} // verus!
