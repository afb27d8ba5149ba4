//! The titles of monitor windows.

use vstd::prelude::*;

use crate::text;
use crate::text::append_decimal;

verus! {

/// What a monitor window shows.
#[derive(Debug, Clone, Copy, PartialEq, Eq, Structural)]
pub enum AttachState {
    /// Nothing yet.
    Connecting,
    /// A canvas. `ml` says whether the monitor's own surface is shown as well.
    Attached { canvas_id: u32, ml: bool },
    /// The connection was lost.
    Reconnecting,
}

/// The title of a window. All begin alike, so that the windows can be told from
/// others.
pub open spec fn title(state: AttachState) -> Seq<char> {
    match state {
        AttachState::Connecting => "Desktop Monitor - connecting..."@,
        AttachState::Attached { canvas_id, ml } => "Desktop Monitor - canvas "@ + text::decimal(
            canvas_id as nat,
        ) + (if ml {
            " (world + monitor_local)"@
        } else {
            " (world only)"@
        }),
        AttachState::Reconnecting => "Desktop Monitor - reconnecting..."@,
    }
}

/// The title of a window in the given state.
pub fn format_window_title(state: AttachState) -> (r: String)
    ensures
        r@ == title(state),
{
    match state {
        AttachState::Connecting => String::from_str("Desktop Monitor - connecting..."),
        AttachState::Attached { canvas_id, ml } => {
            let mut out = String::from_str("Desktop Monitor - canvas ");
            append_decimal(&mut out, canvas_id as u64);
            if ml {
                out.append(" (world + monitor_local)");
            } else {
                out.append(" (world only)");
            }
            out
        },
        AttachState::Reconnecting => String::from_str("Desktop Monitor - reconnecting..."),
    }
}

/// Every title begins with the same words.
pub proof fn titles_share_a_prefix(state: AttachState)
    ensures
        "Desktop Monitor - "@.is_prefix_of(title(state)),
{
    reveal_strlit("Desktop Monitor - ");
    reveal_strlit("Desktop Monitor - connecting...");
    reveal_strlit("Desktop Monitor - reconnecting...");
    reveal_strlit("Desktop Monitor - canvas ");
    assert("Desktop Monitor - "@ =~= title(state).subrange(0, "Desktop Monitor - "@.len() as int));
}

/// Whether `part` stands somewhere in `s`.
pub open spec fn holds(s: Seq<char>, part: Seq<char>) -> bool {
    exists|i: int| 0 <= i <= s.len() - part.len() && #[trigger] s.subrange(i, i + part.len()) == part
}

/// The title of a window that shows a canvas never says that the window is
/// connecting, for the first time or again.
pub proof fn attached_titles_claim_no_connecting(canvas_id: u32, ml: bool)
    ensures
        !holds(title(AttachState::Attached { canvas_id, ml }), "connecting..."@),
        !holds(title(AttachState::Attached { canvas_id, ml }), "reconnecting"@),
{
    reveal_strlit(" (world + monitor_local)");
    reveal_strlit(" (world only)");
    reveal_strlit("Desktop Monitor - canvas ");
    reveal_strlit("connecting...");
    reveal_strlit("reconnecting");
    let t = title(AttachState::Attached { canvas_id, ml });
    let prefix = "Desktop Monitor - canvas "@;
    let digits = text::decimal(canvas_id as nat);
    let suffix = if ml {
        " (world + monitor_local)"@
    } else {
        " (world only)"@
    };
    text::decimal_reads_back(canvas_id as nat);
    assert forall|i: int| 0 <= i < t.len() implies #[trigger] t[i] != 'g' by {
        if i < prefix.len() {
            assert(t[i] == prefix[i]);
        } else if i < prefix.len() + digits.len() {
            assert(t[i] == digits[i - prefix.len()]);
            assert(text::is_digit(digits[i - prefix.len()]));
        } else {
            assert(t[i] == suffix[i - prefix.len() - digits.len()]);
        }
    }
    assert("connecting..."@[9] == 'g');
    assert("reconnecting"@[11] == 'g');
    assert forall|i: int| 0 <= i <= t.len() - 13 implies #[trigger] t.subrange(i, i + 13)
        != "connecting..."@ by {
        assert(t.subrange(i, i + 13)[9] == t[i + 9]);
    }
    assert forall|i: int| 0 <= i <= t.len() - 12 implies #[trigger] t.subrange(i, i + 12)
        != "reconnecting"@ by {
        assert(t.subrange(i, i + 12)[11] == t[i + 11]);
    }
}

/// Windows that show different canvases have different titles, and so have windows
/// that show a canvas with and without the monitor's own surface.
pub proof fn titles_tell_canvases_apart(a: u32, a_ml: bool, b: u32, b_ml: bool)
    requires
        title(AttachState::Attached { canvas_id: a, ml: a_ml }) == title(
            AttachState::Attached { canvas_id: b, ml: b_ml },
        ),
    ensures
        a == b,
        a_ml == b_ml,
{
    reveal_strlit(" (world + monitor_local)");
    reveal_strlit(" (world only)");
    reveal_strlit("Desktop Monitor - canvas ");
    let prefix = "Desktop Monitor - canvas "@;
    let ta = title(AttachState::Attached { canvas_id: a, ml: a_ml });
    let da = text::decimal(a as nat);
    let db = text::decimal(b as nat);
    let ra = ta.skip(prefix.len() as int);
    let sa = if a_ml {
        " (world + monitor_local)"@
    } else {
        " (world only)"@
    };
    let sb = if b_ml {
        " (world + monitor_local)"@
    } else {
        " (world only)"@
    };
    assert(ra =~= da + sa);
    assert(ra =~= db + sb);
    text::decimal_reads_back(a as nat);
    text::decimal_reads_back(b as nat);
    assert(da.len() == db.len()) by {
        if da.len() < db.len() {
            assert(ra[da.len() as int] == sa[0]);
            assert(text::is_digit(db[da.len() as int]));
        } else if db.len() < da.len() {
            assert(ra[db.len() as int] == sb[0]);
            assert(text::is_digit(da[db.len() as int]));
        }
    }
    assert(da =~= ra.take(da.len() as int));
    assert(db =~= ra.take(da.len() as int));
    assert(sa.len() == sb.len());
}

} // verus!
