//! Interception of the control's URL navigation.
//!
//! The control asks its host to navigate whenever the user follows a link.
//! The hook joins the two string arguments into one URL, rewrites the one
//! link whose destination no longer exists to its archived copy, and opens
//! the result with the system's URL handler — but only for requests that
//! ask for a new window; in-place moves are not supported and are dropped.

use crate::encoder::{jmp_rel32_bytes, make_jmp_rel32};
use crate::plan::PatchWrite;
use crate::reloc::{adjust_spec, PatchContext};
use crate::utf16::{concat_units, encode_utf16, units_equal, utf16_of};
use vstd::prelude::*;

verus! {

/// Static address of the navigation routine rewritten into the hook.
pub const NAVIGATE_ENTRY: usize = 0x3721783C;

/// The chat team link the control still offers, long gone from the live
/// web.
pub open spec fn msn_team_url() -> Seq<u16> {
    utf16_of("http://communities.msn.com/MSNChatTeam/"@)
}

/// The archived copy that replaces it.
pub open spec fn archived_team_url() -> Seq<u16> {
    utf16_of(
        "https://web.archive.org/web/20050603210240if_/http://groups.msn.com/msnchatteam"@,
    )
}

/// What the hook does for one navigation request: the return code handed
/// back to the control, and the URL to open, if any.
#[derive(Debug)]
pub struct NavigateOutcome {
    pub return_code: i8,
    pub open_url: Option<Vec<u16>>,
}

/// The URL a request resolves to: both string arguments joined, with the
/// dead team link replaced by its archived copy.
pub open spec fn resolved_url(url: Seq<u16>, extra: Option<Seq<u16>>) -> Seq<u16> {
    let full = match extra {
        Some(e) => url + e,
        None => url,
    };
    if full == msn_team_url() {
        archived_team_url()
    } else {
        full
    }
}

/// The view of an optional wide-string argument.
pub open spec fn units_view(v: Option<&Vec<u16>>) -> Option<Seq<u16>> {
    match v {
        None => None,
        Some(u) => Some(u@),
    }
}

/// Handles one navigation request. A null URL is reported as not handled
/// with nothing opened; otherwise the request is reported handled, and the
/// resolved URL is opened exactly when a new window was asked for.
pub fn handle_navigate(
    url: Option<&Vec<u16>>,
    extra: Option<&Vec<u16>>,
    new_window: bool,
) -> (r: NavigateOutcome)
    ensures
        url is None ==> r.return_code == 0 && r.open_url is None,
        url matches Some(u) ==> r.return_code == 1,
        url matches Some(u) ==> (if new_window {
            r.open_url matches Some(o) && o@ == resolved_url(u@, units_view(extra))
        } else {
            r.open_url is None
        }),
{
    match url {
        None => NavigateOutcome { return_code: 0, open_url: None },
        Some(u) => {
            if !new_window {
                return NavigateOutcome { return_code: 1, open_url: None };
            }
            let full = match extra {
                Some(e) => concat_units(u, e),
                None => concat_units(u, &Vec::new()),
            };
            proof {
                assert(u@ + Seq::<u16>::empty() =~= u@);
            }
            let resolved = if units_equal(&full, &encode_utf16(
                "http://communities.msn.com/MSNChatTeam/",
            )) {
                encode_utf16(
                    "https://web.archive.org/web/20050603210240if_/http://groups.msn.com/msnchatteam",
                )
            } else {
                full
            };
            NavigateOutcome { return_code: 1, open_url: Some(resolved) }
        },
    }
}

/// Plan for this group: rewrite the navigation routine into a jump to the
/// hook at `handler`.
pub fn init(ctx: &PatchContext, handler: usize) -> (p: PatchWrite)
    ensures
        p.address == adjust_spec(NAVIGATE_ENTRY, ctx.spec_delta()),
        p.bytes@ == jmp_rel32_bytes(p.address, handler),
{
    let address = ctx.adjust(NAVIGATE_ENTRY);
    let bytes = make_jmp_rel32(address, handler);
    PatchWrite { address, bytes }
}

} // verus!
