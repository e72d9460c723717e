//! The icon resolver: an ordered fallback chain of native lookup strategies.
//!
//! Given an identifier (a bare extension such as ".mp4", or an absolute path
//! to an executable) and a size class, the resolver decides which native
//! lookup to try next.  The strategies fire strictly in this order, each one
//! only while no valid handle has been produced yet:
//!
//! 1. an executable path: extract its own embedded icon resource,
//! 2. the trailing extension fragment of an executable path, by association
//!    lookup,
//! 3. a plain extension: association lookup, up to three attempts with a
//!    short delay between them,
//! 4. the well-known shell resource library.
//!
//! The resolver never owns a handle: an invalid answer leaves nothing to
//! release, and the first valid answer is handed to the caller, who owns it
//! from then on.

use vstd::prelude::*;
use crate::SizeClass;
use crate::native::{EventV, NativeRequest, handle_of, INVALID_HANDLE};

verus! {

/// Milliseconds waited before an association lookup is retried.
pub const RETRY_DELAY_MILLIS: u32 = 30;

/// How many times one association lookup is attempted.
pub const LOOKUP_ATTEMPTS: u8 = 3;

/// The shell resource library that yields the final fallback icon.
pub open spec fn shell_resource_library() -> Seq<char> {
    "C:\\Windows\\system32\\SHELL32.dll"@
}

/// Does the identifier denote an executable?  True exactly when its last
/// four characters are ".exe" up to ASCII case.
pub open spec fn denotes_executable(s: Seq<char>) -> bool {
    &&& s.len() >= 4
    &&& s[s.len() - 4] == '.'
    &&& (s[s.len() - 3] == 'e' || s[s.len() - 3] == 'E')
    &&& (s[s.len() - 2] == 'x' || s[s.len() - 2] == 'X')
    &&& (s[s.len() - 1] == 'e' || s[s.len() - 1] == 'E')
}

/// Does the lower-case marker ".exe" stand at position `i`?
pub open spec fn exe_marker_at(s: Seq<char>, i: int) -> bool {
    &&& 0 <= i
    &&& i + 4 <= s.len()
    &&& s[i] == '.'
    &&& s[i + 1] == 'e'
    &&& s[i + 2] == 'x'
    &&& s[i + 3] == 'e'
}

/// The first position at or after `i` where the marker ".exe" stands.
pub open spec fn find_exe_marker_from(s: Seq<char>, i: int) -> Option<int>
    decreases s.len() - i,
    when 0 <= i
{
    if i + 4 > s.len() {
        None
    } else if exe_marker_at(s, i) {
        Some(i)
    } else {
        find_exe_marker_from(s, i + 1)
    }
}

/// The first position of the marker ".exe" in the identifier.
pub open spec fn find_exe_marker_spec(s: Seq<char>) -> Option<int> {
    find_exe_marker_from(s, 0)
}

/// Decide whether the identifier denotes an executable.
pub fn is_executable_path(s: &str) -> (r: bool)
    ensures
        r == denotes_executable(s@),
{
    let n = s.unicode_len();
    if n < 4 {
        return false;
    }
    let d = s.get_char(n - 4);
    let e1 = s.get_char(n - 3);
    let x = s.get_char(n - 2);
    let e2 = s.get_char(n - 1);
    d == '.' && (e1 == 'e' || e1 == 'E') && (x == 'x' || x == 'X') && (e2 == 'e' || e2 == 'E')
}

/// Find the first occurrence of the marker ".exe" in the identifier.
pub fn find_exe_marker(s: &str) -> (r: Option<usize>)
    ensures
        match r {
            Some(i) => find_exe_marker_spec(s@) == Some(i as int),
            None => find_exe_marker_spec(s@) is None,
        },
{
    let n = s.unicode_len();
    if n < 4 {
        return None;
    }
    let mut i: usize = 0;
    while i <= n - 4
        invariant
            n == s@.len(),
            n >= 4,
            0 <= i <= n - 3,
            find_exe_marker_from(s@, 0) == find_exe_marker_from(s@, i as int),
        decreases n - i,
    {
        if s.get_char(i) == '.' && s.get_char(i + 1) == 'e' && s.get_char(i + 2) == 'x'
            && s.get_char(i + 3) == 'e' {
            return Some(i);
        }
        i = i + 1;
    }
    None
}

/// The analysis of an identifier the resolver starts from: whether it
/// denotes an executable, and the trailing extension fragment from the first
/// ".exe" marker on, if the identifier is an executable path that has one.
pub fn analyze_identifier(s: &str) -> (r: (bool, Option<String>))
    ensures
        r.0 == denotes_executable(s@),
        !r.0 ==> r.1 is None,
        r.0 ==> match r.1 {
            Some(f) => {
                &&& find_exe_marker_spec(s@) matches Some(i)
                &&& f@ == s@.subrange(find_exe_marker_spec(s@).unwrap(), s@.len() as int)
            },
            None => find_exe_marker_spec(s@) is None,
        },
{
    if !is_executable_path(s) {
        return (false, None);
    }
    match find_exe_marker(s) {
        Some(i) => {
            let n = s.unicode_len();
            proof {
                lemma_find_exe_marker_in_range(s@, 0);
            }
            let fragment = s.substring_char(i, n).to_owned();
            (true, Some(fragment))
        },
        None => (true, None),
    }
}

/// A found marker position lies in range.
pub proof fn lemma_find_exe_marker_in_range(s: Seq<char>, i: int)
    requires
        0 <= i,
    ensures
        find_exe_marker_from(s, i) matches Some(j) ==> i <= j && j + 4 <= s.len()
            && exe_marker_at(s, j),
    decreases s.len() - i,
{
    if i + 4 <= s.len() && !exe_marker_at(s, i) {
        lemma_find_exe_marker_in_range(s, i + 1);
    }
}

/// The states of the resolver, in the order the strategies fire.
#[derive(Clone, Copy, Debug, PartialEq, Eq, Structural)]
pub enum ResolveState {
    /// Try to extract the executable's own embedded icon resource.
    TryExeExtraction,
    /// Look the trailing extension fragment of an executable path up.
    TryExtensionFallback { attempt: u8 },
    /// Look the plain extension up in the association subsystem.
    TryAssociationLookup { attempt: u8 },
    /// Extract the fallback icon from the shell resource library.
    TryShellFallback,
    /// A valid handle was produced; the caller owns it.
    Done { handle: u64 },
    /// Every strategy was exhausted without a valid handle.
    Failed,
}

/// The resolver: the decision state of the fallback chain, together with
/// what it learned about the identifier.
#[derive(Clone, Copy, Debug, PartialEq, Eq, Structural)]
pub struct Resolver {
    /// Which strategy is up next, or how the chain ended.
    pub state: ResolveState,
    /// The size class every lookup asks for.
    pub size: SizeClass,
    /// Whether the identifier denotes an executable.
    pub exe: bool,
    /// Whether the identifier holds a ".exe" marker to fall back on.
    pub has_fragment: bool,
}

/// Is the chain over?
pub open spec fn resolve_terminal(s: ResolveState) -> bool {
    s is Done || s is Failed
}

/// How many steps the chain can still take: strictly decreasing along every
/// transition, so every run terminates.
pub open spec fn resolve_rank(r: Resolver) -> nat {
    match r.state {
        ResolveState::TryExeExtraction => 6,
        ResolveState::TryExtensionFallback { attempt } => if attempt <= 3 {
            (2 + (3 - attempt)) as nat
        } else {
            2
        },
        ResolveState::TryAssociationLookup { attempt } => if attempt <= 3 {
            (2 + (3 - attempt)) as nat
        } else {
            2
        },
        ResolveState::TryShellFallback => 1,
        ResolveState::Done { .. } => 0,
        ResolveState::Failed => 0,
    }
}

/// Well-formedness of a resolver state.
pub open spec fn resolve_wf(r: Resolver) -> bool {
    &&& (r.state is TryExeExtraction ==> r.exe)
    &&& (r.state matches ResolveState::TryExtensionFallback { attempt } ==> r.exe
        && r.has_fragment && 1 <= attempt <= LOOKUP_ATTEMPTS)
    &&& (r.state matches ResolveState::TryAssociationLookup { attempt } ==> !r.exe && 1 <= attempt
        <= LOOKUP_ATTEMPTS)
    &&& (r.state matches ResolveState::Done { handle } ==> handle != 0)
}

/// The state the chain starts in.
pub open spec fn resolve_init(exe: bool, has_fragment: bool, size: SizeClass) -> Resolver {
    Resolver {
        state: if exe {
            ResolveState::TryExeExtraction
        } else {
            ResolveState::TryAssociationLookup { attempt: 1 }
        },
        size: size,
        exe: exe,
        has_fragment: has_fragment,
    }
}

/// One transition of the chain: `handle` is what the native call of the
/// current strategy produced.  A valid handle ends the chain at once; an
/// invalid one moves to the next strategy in order.
pub open spec fn resolve_step(r: Resolver, handle: u64) -> Resolver {
    if resolve_terminal(r.state) {
        r
    } else if handle != 0 {
        Resolver { state: ResolveState::Done { handle }, ..r }
    } else {
        let next = match r.state {
            ResolveState::TryExeExtraction => if r.has_fragment {
                ResolveState::TryExtensionFallback { attempt: 1 }
            } else {
                ResolveState::TryShellFallback
            },
            ResolveState::TryExtensionFallback { attempt } => if attempt < LOOKUP_ATTEMPTS {
                ResolveState::TryExtensionFallback { attempt: (attempt + 1) as u8 }
            } else {
                ResolveState::TryShellFallback
            },
            ResolveState::TryAssociationLookup { attempt } => if attempt < LOOKUP_ATTEMPTS {
                ResolveState::TryAssociationLookup { attempt: (attempt + 1) as u8 }
            } else {
                ResolveState::TryShellFallback
            },
            ResolveState::TryShellFallback => ResolveState::Failed,
            _ => r.state,
        };
        Resolver { state: next, ..r }
    }
}

impl Resolver {
    /// Start the chain for an identifier with the given analysis.
    pub fn new(exe: bool, has_fragment: bool, size: i32) -> (r: Resolver)
        ensures
            r == resolve_init(exe, has_fragment, crate::size_class_of(size)),
    {
        Resolver {
            state: if exe {
                ResolveState::TryExeExtraction
            } else {
                ResolveState::TryAssociationLookup { attempt: 1 }
            },
            size: crate::size_class(size),
            exe: exe,
            has_fragment: has_fragment,
        }
    }

    /// Is the chain over?
    pub fn is_terminal(&self) -> (r: bool)
        ensures
            r == resolve_terminal(self.state),
    {
        match self.state {
            ResolveState::Done { .. } => true,
            ResolveState::Failed => true,
            _ => false,
        }
    }

    /// The native call the current strategy needs, or nothing once the chain
    /// is over.  `identifier` and `fragment` must be the values this
    /// resolver was started from.
    pub fn next_request(&self, identifier: &str, fragment: &Option<String>) -> (r: Option<
        NativeRequest,
    >)
        requires
            resolve_wf(*self),
            self.has_fragment == (fragment is Some),
        ensures
            r is Some <==> !resolve_terminal(self.state),
            self.state is TryExeExtraction ==> (r matches Some(
                NativeRequest::ExtractResource { path, size },
            ) && path@ == identifier@ && size == self.size),
            (self.state matches ResolveState::TryExtensionFallback { attempt } ==> (r matches Some(
                NativeRequest::LookupAssociation { name, size, delay_millis },
            ) && name@ == fragment.unwrap()@ && size == self.size && delay_millis == (
            if attempt == 1 {
                0u32
            } else {
                RETRY_DELAY_MILLIS as u32
            }))),
            (self.state matches ResolveState::TryAssociationLookup { attempt } ==> (r matches Some(
                NativeRequest::LookupAssociation { name, size, delay_millis },
            ) && name@ == identifier@ && size == self.size && delay_millis == (
            if attempt == 1 {
                0u32
            } else {
                RETRY_DELAY_MILLIS as u32
            }))),
            self.state is TryShellFallback ==> (r matches Some(
                NativeRequest::ExtractResource { path, size },
            ) && path@ == shell_resource_library() && size == self.size),
    {
        match self.state {
            ResolveState::TryExeExtraction => Some(NativeRequest::ExtractResource {
                path: identifier.to_owned(),
                size: self.size,
            }),
            ResolveState::TryExtensionFallback { attempt } => {
                let name = match fragment {
                    Some(f) => f.clone(),
                    None => vstd::pervasive::unreached(),
                };
                Some(NativeRequest::LookupAssociation {
                    name,
                    size: self.size,
                    delay_millis: if attempt == 1 {
                        0
                    } else {
                        RETRY_DELAY_MILLIS
                    },
                })
            },
            ResolveState::TryAssociationLookup { attempt } => Some(
                NativeRequest::LookupAssociation {
                    name: identifier.to_owned(),
                    size: self.size,
                    delay_millis: if attempt == 1 {
                        0
                    } else {
                        RETRY_DELAY_MILLIS
                    },
                },
            ),
            ResolveState::TryShellFallback => Some(NativeRequest::ExtractResource {
                path: "C:\\Windows\\system32\\SHELL32.dll".to_owned(),
                size: self.size,
            }),
            ResolveState::Done { .. } => None,
            ResolveState::Failed => None,
        }
    }

    /// Feed the handle the native call produced back into the chain.
    pub fn on_result(&mut self, handle: u64)
        ensures
            *final(self) == resolve_step(*old(self), handle),
    {
        if self.is_terminal() {
            return;
        }
        if handle != INVALID_HANDLE {
            self.state = ResolveState::Done { handle };
            return;
        }
        let next = match self.state {
            ResolveState::TryExeExtraction => if self.has_fragment {
                ResolveState::TryExtensionFallback { attempt: 1 }
            } else {
                ResolveState::TryShellFallback
            },
            ResolveState::TryExtensionFallback { attempt } => if attempt < LOOKUP_ATTEMPTS {
                ResolveState::TryExtensionFallback { attempt: attempt + 1 }
            } else {
                ResolveState::TryShellFallback
            },
            ResolveState::TryAssociationLookup { attempt } => if attempt < LOOKUP_ATTEMPTS {
                ResolveState::TryAssociationLookup { attempt: attempt + 1 }
            } else {
                ResolveState::TryShellFallback
            },
            ResolveState::TryShellFallback => ResolveState::Failed,
            _ => self.state,
        };
        self.state = next;
    }
}

/// The resolver a given identifier and size start from.
pub open spec fn resolver_for(s: Seq<char>, size: i32) -> Resolver {
    resolve_init(
        denotes_executable(s),
        denotes_executable(s) && find_exe_marker_spec(s) is Some,
        crate::size_class_of(size),
    )
}

/// Run the chain over a transcript of events to its terminal state.  Each
/// live step consumes the handle of the next event; an exhausted transcript
/// reads as invalid answers, so the run always terminates.
pub open spec fn resolve_run(r: Resolver, evs: Seq<EventV>) -> Resolver
    decreases resolve_rank(r),
{
    if resolve_terminal(r.state) {
        r
    } else if evs.len() > 0 {
        resolve_run(resolve_step(r, handle_of(evs[0])), evs.drop_first())
    } else {
        resolve_run(resolve_step(r, 0), evs)
    }
}

/// How many events of the transcript the chain consumes before ending.
pub open spec fn resolve_consumed(r: Resolver, evs: Seq<EventV>) -> int
    decreases resolve_rank(r),
{
    if resolve_terminal(r.state) || evs.len() == 0 {
        0
    } else {
        1 + resolve_consumed(resolve_step(r, handle_of(evs[0])), evs.drop_first())
    }
}

/// A run consumes at most the whole transcript.
pub proof fn lemma_resolve_consumed_bound(r: Resolver, evs: Seq<EventV>)
    ensures
        0 <= resolve_consumed(r, evs) <= evs.len(),
    decreases resolve_rank(r),
{
    if !(resolve_terminal(r.state) || evs.len() == 0) {
        lemma_resolve_consumed_bound(resolve_step(r, handle_of(evs[0])), evs.drop_first());
    }
}

/// Every run ends in a terminal state: `Done` with a valid handle, or
/// `Failed`.
pub proof fn lemma_resolve_run_terminal(r: Resolver, evs: Seq<EventV>)
    requires
        resolve_wf(r),
    ensures
        resolve_terminal(resolve_run(r, evs).state),
        resolve_wf(resolve_run(r, evs)),
    decreases resolve_rank(r),
{
    if !resolve_terminal(r.state) {
        if evs.len() > 0 {
            lemma_resolve_run_terminal(resolve_step(r, handle_of(evs[0])), evs.drop_first());
        } else {
            lemma_resolve_run_terminal(resolve_step(r, 0), evs);
        }
    }
}

/// A run fails only when every event it consumed carried an invalid handle:
/// any valid answer anywhere in the chain resolves the identifier.
pub proof fn lemma_resolve_failed_all_invalid(r: Resolver, evs: Seq<EventV>)
    requires
        resolve_wf(r),
        resolve_run(r, evs).state is Failed,
    ensures
        forall|k: int|
            0 <= k < resolve_consumed(r, evs) ==> handle_of(#[trigger] evs[k]) == 0,
    decreases resolve_rank(r),
{
    if !resolve_terminal(r.state) && evs.len() > 0 {
        lemma_resolve_failed_all_invalid(resolve_step(r, handle_of(evs[0])), evs.drop_first());
        if handle_of(evs[0]) != 0 {
            lemma_resolve_run_terminal(resolve_step(r, handle_of(evs[0])), evs.drop_first());
            assert(false);
        }
        lemma_resolve_consumed_bound(resolve_step(r, handle_of(evs[0])), evs.drop_first());
        assert forall|k: int| 0 <= k < resolve_consumed(r, evs) implies handle_of(
            #[trigger] evs[k],
        ) == 0 by {
            if k > 0 {
                assert(evs.drop_first()[k - 1] == evs[k]);
            }
        }
    }
}

/// Every transition preserves well-formedness.
pub proof fn lemma_resolve_step_wf(r: Resolver, handle: u64)
    requires
        resolve_wf(r),
    ensures
        resolve_wf(resolve_step(r, handle)),
{
}

/// Every transition out of a live state strictly lowers the rank, so the
/// chain always terminates.
pub proof fn lemma_resolve_step_decreases(r: Resolver, handle: u64)
    requires
        resolve_wf(r),
        !resolve_terminal(r.state),
    ensures
        resolve_rank(resolve_step(r, handle)) < resolve_rank(r),
{
}

/// The first valid handle wins: whichever strategy produced it, the chain
/// ends at once in `Done` with exactly that handle.
pub proof fn lemma_resolve_valid_handle_wins(r: Resolver, handle: u64)
    requires
        !resolve_terminal(r.state),
        handle != 0,
    ensures
        resolve_step(r, handle).state == (ResolveState::Done { handle }),
{
}

/// The chain only fails out of the shell fallback: an invalid answer
/// anywhere earlier moves to a later strategy, never to `Failed`.
pub proof fn lemma_resolve_fails_only_after_shell(r: Resolver, handle: u64)
    requires
        !resolve_terminal(r.state),
        resolve_step(r, handle).state is Failed,
    ensures
        r.state is TryShellFallback,
        handle == 0,
{
}

} // verus!
