//! The status bar: where its parts go and the search summary it shows.
use vstd::prelude::*;
use crate::draw::sat_sub;
use crate::mode::InputMode;
use crate::text::{chars_to_string, decimal, push_decimal, push_str};

verus! {

/// Height of the status bar in pixels.
pub const STATUS_BAR_H: u32 = 22;

/// Horizontal padding inside a badge.
pub const BADGE_PAD_X: u32 = 8;

/// Byte length of the logging badge's label, `● REC`.
pub const REC_LABEL_BYTES: u32 = 7;

/// Where the parts of the status bar go, in pixels.
pub struct StatusLayout {
    /// Top row of the bar.
    pub bar_y: u32,
    /// The mode badge.
    pub badge_x: u32,
    pub badge_y: u32,
    pub badge_w: u32,
    pub badge_h: u32,
    /// Left edge of the search summary.
    pub search_x: u32,
    /// Top row of the texts on the bar.
    pub text_y: u32,
    /// Left edge and width of the logging badge, while logging.
    pub rec: Option<(u32, u32)>,
    /// Left edge of the bell dot, while a bell is recent.
    pub bell_x: Option<u32>,
    /// Left edge of the pane title, centred; none during a search or when
    /// the title is as wide as the window.
    pub title_x: Option<u32>,
    /// Left edge of the right-aligned status text, when it fits.
    pub right_x: Option<u32>,
}

/// Pixel width of `bytes` characters of width `char_w`, the byte count
/// taken modulo 2^32 as the renderer does.
pub open spec fn text_w(bytes: usize, char_w: u32) -> int {
    (bytes as u32) * char_w
}

/// The left edge of a title `tw` pixels wide centred in `width`.
pub open spec fn centred_x(tw: int, width: int) -> Option<u32> {
    if tw < width {
        Some(((width - tw) / 2) as u32)
    } else {
        None
    }
}

/// The left edge of a text `tw` pixels wide ending 10 pixels before the
/// right edge.
pub open spec fn right_aligned_x(tw: int, width: int) -> Option<u32> {
    if tw + 10 <= width {
        Some((width - (tw + 10)) as u32)
    } else {
        None
    }
}

/// Whether every coordinate the bar computes fits in 32 bits.
pub open spec fn status_fits(
    label_bytes: usize,
    char_w: u32,
    is_logging: bool,
    in_search: bool,
    title_bytes: Option<usize>,
    right_bytes: Option<usize>,
) -> bool {
    &&& text_w(label_bytes, char_w) + 2 * BADGE_PAD_X + 18 <= u32::MAX
    &&& is_logging ==> REC_LABEL_BYTES * char_w + 2 * BADGE_PAD_X <= u32::MAX
    &&& (!in_search && title_bytes is Some) ==> text_w(title_bytes->0, char_w) <= u32::MAX
    &&& right_bytes is Some ==> text_w(right_bytes->0, char_w) + 10 <= u32::MAX
}

/// The layout of the status bar of a `width` x `height` window: the mode
/// badge showing `label` at the left, the search summary after it, the
/// logging badge and bell dot when active, the pane title centred (not
/// during a search) and the right-hand text right-aligned.  Characters
/// are `char_w` pixels wide; texts are measured in bytes.
pub fn status_layout(
    width: u32,
    height: u32,
    label: &str,
    char_w: u32,
    is_logging: bool,
    bell_active: bool,
    mode: &InputMode,
    pane_title: Option<&str>,
    right_text: Option<&str>,
) -> (r: StatusLayout)
    requires
        status_fits(
            label.len(),
            char_w,
            is_logging,
            mode is Search,
            match pane_title { Some(t) => Some(t.len()), None => None },
            match right_text { Some(t) => Some(t.len()), None => None },
        ),
    ensures
        r.bar_y == sat_sub(height as int, STATUS_BAR_H as int),
        r.badge_x == 8,
        r.badge_y == r.bar_y + 2,
        r.badge_w == text_w(label.len(), char_w) + 2 * BADGE_PAD_X,
        r.badge_h == STATUS_BAR_H - 4,
        r.search_x == r.badge_x + r.badge_w + 10,
        r.text_y == r.badge_y + 2,
        r.rec == (if is_logging {
            Some(((r.badge_x + r.badge_w + 8) as u32, (REC_LABEL_BYTES * char_w + 2 * BADGE_PAD_X) as u32))
        } else {
            None::<(u32, u32)>
        }),
        r.bell_x == (if bell_active { Some((r.badge_x + r.badge_w + 4) as u32) } else { None::<u32> }),
        r.title_x == (match pane_title {
            Some(t) => if mode is Search {
                None
            } else {
                centred_x(text_w(t.len(), char_w), width as int)
            },
            None => None,
        }),
        r.right_x == (match right_text {
            Some(t) => right_aligned_x(text_w(t.len(), char_w), width as int),
            None => None,
        }),
{
    let bar_y = height.saturating_sub(STATUS_BAR_H);
    let label_bytes = label.len() as u32;
    let badge_w = label_bytes * char_w + BADGE_PAD_X * 2;
    let badge_h = STATUS_BAR_H - 4;
    let badge_x: u32 = 8;
    let badge_y = bar_y + 2;
    let search_x = badge_x + badge_w + 10;
    let text_y = badge_y + 2;
    let rec = if is_logging {
        Some((badge_x + badge_w + 8, REC_LABEL_BYTES * char_w + BADGE_PAD_X * 2))
    } else {
        None
    };
    let bell_x = if bell_active {
        Some(badge_x + badge_w + 4)
    } else {
        None
    };
    let in_search = match mode {
        InputMode::Search { .. } => true,
        _ => false,
    };
    let title_x = match pane_title {
        Some(t) => {
            if in_search {
                None
            } else {
                let tw = (t.len() as u32) * char_w;
                if tw < width {
                    Some((width - tw) / 2)
                } else {
                    None
                }
            }
        },
        None => None,
    };
    let right_x = match right_text {
        Some(t) => {
            let tw = (t.len() as u32) * char_w;
            width.checked_sub(tw + 10)
        },
        None => None,
    };
    StatusLayout {
        bar_y,
        badge_x,
        badge_y,
        badge_w,
        badge_h,
        search_x,
        text_y,
        rec,
        bell_x,
        title_x,
        right_x,
    }
}

/// `/<query>` followed by the match position, as the search summary reads
/// before any history note.
pub open spec fn search_base(query: Seq<char>, total: nat, current: nat) -> Seq<char> {
    if query.len() == 0 {
        "/"@
    } else if total == 0 {
        "/"@ + query + "  [no matches]"@
    } else {
        "/"@ + query + "  ["@ + decimal(current + 1) + "/"@ + decimal(total) + "]"@
    }
}

/// The search summary shown in search mode: `/` alone for an empty query,
/// the query with `[no matches]` or `[current/total]` (1-based) otherwise,
/// and `[hist pos/len]` (1-based) while the history is browsed.  Nothing
/// outside search mode.
pub open spec fn search_info_spec(mode: InputMode, total: nat, current: nat) -> Option<Seq<char>> {
    match mode {
        InputMode::Search { query, history_pos } => {
            let base = search_base(query@, total, current);
            Some(
                match history_pos {
                    Some((pos, len)) => base + "  [hist "@ + decimal((pos + 1) as nat) + "/"@ + decimal(len as nat) + "]"@,
                    None => base,
                },
            )
        },
        _ => None,
    }
}

/// Whether the 1-based positions the summary shows fit in a `usize`.
pub open spec fn search_info_fits(mode: InputMode, total: usize, current: usize) -> bool {
    match mode {
        InputMode::Search { query, history_pos } => {
            &&& (query@.len() > 0 && total > 0) ==> current < usize::MAX
            &&& history_pos matches Some((pos, _)) ==> pos < usize::MAX
        },
        _ => true,
    }
}

/// The search summary for the status bar; see [`search_info_spec`].
pub fn search_info(mode: &InputMode, search_total: usize, search_current: usize) -> (r: Option<String>)
    requires
        search_info_fits(*mode, search_total, search_current),
    ensures
        match r {
            Some(s) => search_info_spec(*mode, search_total as nat, search_current as nat) == Some(s@),
            None => search_info_spec(*mode, search_total as nat, search_current as nat) is None,
        },
{
    match mode {
        InputMode::Search { query, history_pos } => {
            let mut out: Vec<char> = Vec::new();
            push_str(&mut out, "/");
            if query.unicode_len() > 0 {
                push_str(&mut out, query.as_str());
                if search_total == 0 {
                    push_str(&mut out, "  [no matches]");
                } else {
                    push_str(&mut out, "  [");
                    push_decimal(&mut out, (search_current + 1) as u64);
                    push_str(&mut out, "/");
                    push_decimal(&mut out, search_total as u64);
                    push_str(&mut out, "]");
                }
            }
            let ghost base = out@;
            assert(base =~= search_base(query@, search_total as nat, search_current as nat));
            match history_pos {
                Some((pos, len)) => {
                    push_str(&mut out, "  [hist ");
                    push_decimal(&mut out, (*pos + 1) as u64);
                    push_str(&mut out, "/");
                    push_decimal(&mut out, *len as u64);
                    push_str(&mut out, "]");
                    assert(out@ =~= base + "  [hist "@ + decimal((*pos + 1) as nat) + "/"@ + decimal(*len as nat) + "]"@);
                },
                None => {},
            }
            Some(chars_to_string(out.as_slice()))
        },
        _ => None,
    }
}

} // verus!
