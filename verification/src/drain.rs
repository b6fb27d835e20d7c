//! Effects the parser of a pane reports, and what the main loop decides on
//! them: where the view of the pane goes, when the bell flashes, and what
//! a clipboard query is answered.
use vstd::prelude::*;
use crate::text::push_all;

verus! {

/// Side effects of a batch of parsed output, consumed on the main thread.
pub enum ParseEffect {
    /// Bytes the terminal answers the program with.
    PtyResponse(Vec<u8>),
    /// The program set the clipboard (OSC 52).
    ClipboardWrite(String),
    /// The program asked for the clipboard (OSC 52).
    ClipboardRead,
    Bell,
    /// The scrollback grew (or, entering the alternate screen, shrank).
    ScrollbackChanged { old: usize, new: usize },
    /// The grid was resized: `delta` lines moved into the scrollback
    /// (negative: out of it), which now holds `new_sb` lines.
    Resized { delta: isize, new_sb: usize },
    /// The program's end of the PTY closed.
    Disconnected,
}

/// A parser effect as a value: its bytes and text by their contents.
pub ghost enum EffectView {
    PtyResponse(Seq<u8>),
    ClipboardWrite(Seq<char>),
    ClipboardRead,
    Bell,
    ScrollbackChanged { old: usize, new: usize },
    Resized { delta: isize, new_sb: usize },
    Disconnected,
}

impl View for ParseEffect {
    type V = EffectView;

    open spec fn view(&self) -> EffectView {
        match self {
            ParseEffect::PtyResponse(b) => EffectView::PtyResponse(b@),
            ParseEffect::ClipboardWrite(t) => EffectView::ClipboardWrite(t@),
            ParseEffect::ClipboardRead => EffectView::ClipboardRead,
            ParseEffect::Bell => EffectView::Bell,
            ParseEffect::ScrollbackChanged { old, new } => EffectView::ScrollbackChanged { old: *old, new: *new },
            ParseEffect::Resized { delta, new_sb } => EffectView::Resized { delta: *delta, new_sb: *new_sb },
            ParseEffect::Disconnected => EffectView::Disconnected,
        }
    }
}

/// Most bytes the parser thread gathers into one batch before parsing.
pub const PARSE_BATCH_MAX: usize = 32 * 1024;

/// What the parser thread's wait for output ended with.
pub enum RecvOutcome {
    /// A chunk of output arrived.
    Data,
    /// Nothing arrived within the idle wait.
    Timeout,
    /// The reader's end of the channel closed.
    Disconnected,
}

/// What the parser thread does next.
pub enum ParserAction {
    /// Gather a batch starting with the chunk and parse it.
    Parse,
    /// Apply the pending resize and report it, then wait again.
    ApplyResize,
    /// Wait again.
    Wait,
    /// Report the disconnection and end the thread.
    Stop,
}

/// The parser thread's decision after a wait: parse what arrived, stop on
/// a closed channel, and while idle apply a pending resize, so that a
/// resize takes effect even when the program prints nothing.
pub fn parser_step(recv: RecvOutcome, resize_pending: bool) -> (r: ParserAction)
    ensures
        recv is Data ==> r is Parse,
        recv is Disconnected ==> r is Stop,
        recv is Timeout ==> (if resize_pending { r is ApplyResize } else { r is Wait }),
{
    match recv {
        RecvOutcome::Data => ParserAction::Parse,
        RecvOutcome::Disconnected => ParserAction::Stop,
        RecvOutcome::Timeout => if resize_pending {
            ParserAction::ApplyResize
        } else {
            ParserAction::Wait
        },
    }
}

/// Whether a batch of `len` bytes takes further chunks already waiting:
/// only while it holds fewer than [`PARSE_BATCH_MAX`] bytes.
pub fn batch_wants_more(len: usize) -> (r: bool)
    ensures
        r == (len < PARSE_BATCH_MAX),
{
    len < PARSE_BATCH_MAX
}

/// How long the parser thread sleeps after a batch, in milliseconds: four
/// while the render side has not yet taken the last wake-up, so that it
/// gets a turn at the grid, else none.
pub fn backoff_ms(wakeup_pending: bool) -> (r: u64)
    ensures
        r == (if wakeup_pending { 4u64 } else { 0u64 }),
{
    if wakeup_pending { 4 } else { 0 }
}

/// One effect when `b` holds, none otherwise.
pub open spec fn effect_if(b: bool, e: EffectView) -> Seq<EffectView> {
    if b {
        seq![e]
    } else {
        seq![]
    }
}

/// What one parsed batch reports, in the order the parser thread sends it:
/// the scrollback change when its length moved, the resize applied after
/// parsing, the replies to the program when there are any, the clipboard
/// write, the clipboard query, then the bell.
pub open spec fn batch_effects_spec(
    old_sb: usize,
    new_sb: usize,
    resized: Option<(isize, usize)>,
    resp: Seq<u8>,
    clip_write: Option<Seq<char>>,
    clip_read: bool,
    bell: bool,
) -> Seq<EffectView> {
    effect_if(new_sb != old_sb, EffectView::ScrollbackChanged { old: old_sb, new: new_sb })
        + match resized {
            Some((delta, sb)) => effect_if(true, EffectView::Resized { delta, new_sb: sb }),
            None => seq![],
        }
        + effect_if(resp.len() > 0, EffectView::PtyResponse(resp))
        + effect_if(clip_write is Some, EffectView::ClipboardWrite(clip_write->0))
        + effect_if(clip_read, EffectView::ClipboardRead)
        + effect_if(bell, EffectView::Bell)
}

/// Appends `e` to `out` when `b` holds.
fn push_if(out: &mut Vec<ParseEffect>, b: bool, e: ParseEffect)
    ensures
        final(out)@.map_values(|x: ParseEffect| x@) == old(out)@.map_values(|x: ParseEffect| x@) + effect_if(b, e@),
{
    let ghost before = out@;
    if b {
        out.push(e);
        assert(out@.map_values(|x: ParseEffect| x@) =~= before.map_values(|x: ParseEffect| x@) + effect_if(b, e@));
    } else {
        assert(out@.map_values(|x: ParseEffect| x@) =~= before.map_values(|x: ParseEffect| x@) + effect_if(b, e@));
    }
}

/// The effects of one parsed batch: scrollback length `old_sb` before and
/// `new_sb` after parsing, the resize applied after it (lines moved and
/// new scrollback length), the pending replies, clipboard write and query,
/// and whether a bell rang; see [`batch_effects_spec`].
pub fn batch_effects(
    old_sb: usize,
    new_sb: usize,
    resized: Option<(isize, usize)>,
    resp: Vec<u8>,
    clip_write: Option<String>,
    clip_read: bool,
    bell: bool,
) -> (r: Vec<ParseEffect>)
    ensures
        r@.map_values(|e: ParseEffect| e@) == batch_effects_spec(
            old_sb,
            new_sb,
            resized,
            resp@,
            match clip_write {
                Some(t) => Some(t@),
                None => None,
            },
            clip_read,
            bell,
        ),
{
    let ghost resp_v = resp@;
    let ghost clip_v = match &clip_write {
        Some(t) => Some(t@),
        None => None::<Seq<char>>,
    };
    let mut out: Vec<ParseEffect> = Vec::new();
    assert(out@.map_values(|e: ParseEffect| e@) =~= Seq::<EffectView>::empty());
    push_if(&mut out, new_sb != old_sb, ParseEffect::ScrollbackChanged { old: old_sb, new: new_sb });
    let (has_resize, delta, sb) = match resized {
        Some((d, n)) => (true, d, n),
        None => (false, 0, 0),
    };
    push_if(&mut out, has_resize, ParseEffect::Resized { delta, new_sb: sb });
    let has_resp = resp.len() > 0;
    push_if(&mut out, has_resp, ParseEffect::PtyResponse(resp));
    let (has_clip, text) = match clip_write {
        Some(t) => (true, t),
        None => (false, String::new()),
    };
    push_if(&mut out, has_clip, ParseEffect::ClipboardWrite(text));
    push_if(&mut out, clip_read, ParseEffect::ClipboardRead);
    push_if(&mut out, bell, ParseEffect::Bell);
    assert(out@.map_values(|e: ParseEffect| e@) =~= batch_effects_spec(old_sb, new_sb, resized, resp_v, clip_v, clip_read, bell));
    out
}

/// The view offset after an effect: a view on the live screen (offset 0)
/// stays there; a scrolled-back view moves up with the lines added to the
/// scrollback, capped by its current length `current_sb`, or follows a
/// resize, kept between 0 and the new scrollback length.
pub open spec fn scroll_after(scroll: int, effect: ParseEffect, current_sb: int) -> int {
    if scroll == 0 {
        0
    } else {
        match effect {
            ParseEffect::ScrollbackChanged { old, new } => {
                let added = if new > old { new - old } else { 0 };
                if scroll + added < current_sb { scroll + added } else { current_sb }
            },
            ParseEffect::Resized { delta, new_sb } => {
                let moved = if scroll + delta > 0 { scroll + delta } else { 0 };
                if moved < new_sb { moved } else { new_sb as int }
            },
            _ => scroll,
        }
    }
}

/// The pane's scroll offset after `effect`.
pub fn scroll_after_effect(scroll_offset: usize, effect: &ParseEffect, current_sb: usize) -> (r: usize)
    requires
        scroll_offset <= isize::MAX,
        effect matches ParseEffect::ScrollbackChanged { old, new } ==> scroll_offset + *new <= usize::MAX,
        effect matches ParseEffect::Resized { delta, new_sb } ==> isize::MIN <= scroll_offset + *delta <= isize::MAX,
    ensures
        r == scroll_after(scroll_offset as int, *effect, current_sb as int),
{
    if scroll_offset == 0 {
        return 0;
    }
    match effect {
        ParseEffect::ScrollbackChanged { old, new } => {
            let added = new.saturating_sub(*old);
            let moved = scroll_offset + added;
            if moved < current_sb { moved } else { current_sb }
        },
        ParseEffect::Resized { delta, new_sb } => {
            let sum = (scroll_offset as isize) + *delta;
            let moved: usize = if sum > 0 { sum as usize } else { 0 };
            if moved < *new_sb { moved } else { *new_sb }
        },
        _ => scroll_offset,
    }
}

/// A scrolled-back view never ends past the scrollback after an effect
/// that changes its length, and a view on the live screen stays there.
pub proof fn lemma_scroll_after_bounded(scroll: int, effect: ParseEffect, current_sb: int)
    requires
        scroll >= 0,
        current_sb >= 0,
    ensures
        scroll == 0 ==> scroll_after(scroll, effect, current_sb) == 0,
        effect is ScrollbackChanged ==> 0 <= scroll_after(scroll, effect, current_sb) <= current_sb,
        effect matches ParseEffect::Resized { delta, new_sb } ==> 0 <= scroll_after(scroll, effect, current_sb) <= new_sb,
{
}

/// A scrolled-back view keeps showing the same lines while the scrollback
/// grows by less than the room left above it.
pub proof fn lemma_scroll_tracks_growth(scroll: int, old: usize, new: usize, current_sb: int)
    requires
        scroll > 0,
        old <= new,
        scroll + (new - old) < current_sb,
    ensures
        scroll_after(scroll, ParseEffect::ScrollbackChanged { old, new }, current_sb) == scroll + (new - old),
{
}

/// Whether no further effect of the pane is read after `effect`.
pub fn ends_drain(effect: &ParseEffect) -> (r: bool)
    ensures
        r == (*effect is Disconnected),
{
    match effect {
        ParseEffect::Disconnected => true,
        _ => false,
    }
}

/// Work the drain leaves for after every pane has been read: clipboard
/// access and closing a disconnected pane.
pub enum Deferred {
    ClipboardWrite(String),
    ClipboardRead,
    Disconnected,
}

pub ghost enum DeferredView {
    ClipboardWrite(Seq<char>),
    ClipboardRead,
    Disconnected,
}

impl View for Deferred {
    type V = DeferredView;

    open spec fn view(&self) -> DeferredView {
        match self {
            Deferred::ClipboardWrite(t) => DeferredView::ClipboardWrite(t@),
            Deferred::ClipboardRead => DeferredView::ClipboardRead,
            Deferred::Disconnected => DeferredView::Disconnected,
        }
    }
}

/// What draining the effects of one pane produced.
pub struct PaneDrain {
    /// The pane's scroll offset afterwards.
    pub scroll_offset: usize,
    /// Answers to write to the pane's PTY, in order.
    pub pty_writes: Vec<Vec<u8>>,
    /// Whether the pane rang the bell.
    pub bell: bool,
    /// Deferred work, in order.
    pub deferred: Vec<Deferred>,
}

pub ghost struct DrainState {
    pub scroll: int,
    pub writes: Seq<Seq<u8>>,
    pub bell: bool,
    pub deferred: Seq<DeferredView>,
    pub stopped: bool,
}

/// One effect applied to the drain state of a pane whose scrollback now
/// holds `current_sb` lines.
pub open spec fn drain_step(st: DrainState, e: ParseEffect, current_sb: int) -> DrainState {
    match e {
        ParseEffect::PtyResponse(b) => DrainState { writes: st.writes.push(b@), ..st },
        ParseEffect::ClipboardWrite(t) => DrainState { deferred: st.deferred.push(DeferredView::ClipboardWrite(t@)), ..st },
        ParseEffect::ClipboardRead => DrainState { deferred: st.deferred.push(DeferredView::ClipboardRead), ..st },
        ParseEffect::Bell => DrainState { bell: true, ..st },
        ParseEffect::Disconnected => DrainState {
            deferred: st.deferred.push(DeferredView::Disconnected),
            stopped: true,
            ..st
        },
        _ => DrainState { scroll: scroll_after(st.scroll, e, current_sb), ..st },
    }
}

/// The drain state after the first `k` effects: each applied in order,
/// none after a disconnection.
pub open spec fn drain_upto(effects: Seq<ParseEffect>, scroll: int, current_sb: int, k: int) -> DrainState
    decreases k,
{
    if k <= 0 {
        DrainState { scroll, writes: seq![], bell: false, deferred: seq![], stopped: false }
    } else {
        let st = drain_upto(effects, scroll, current_sb, k - 1);
        if st.stopped { st } else { drain_step(st, effects[k - 1], current_sb) }
    }
}

/// Sizes in an effect stay small enough for the scroll arithmetic.
pub open spec fn effect_sizes_ok(e: ParseEffect) -> bool {
    match e {
        ParseEffect::ScrollbackChanged { old, new } => new <= isize::MAX / 2,
        ParseEffect::Resized { delta, new_sb } => new_sb <= isize::MAX / 2 && -(isize::MAX / 2) <= delta <= isize::MAX / 2,
        _ => true,
    }
}

fn copy_bytes(v: &Vec<u8>) -> (r: Vec<u8>)
    ensures
        r@ == v@,
{
    let mut out: Vec<u8> = Vec::new();
    push_all(&mut out, v.as_slice());
    out
}

/// Drains the effects one pane's parser reported, in order: answers are
/// queued for its PTY, the view offset follows scrollback changes and
/// resizes, a bell is noted, clipboard access and a disconnection are
/// deferred, and nothing after a disconnection is looked at.
pub fn drain_pane_effects(effects: &[ParseEffect], scroll_offset: usize, current_sb: usize) -> (r: PaneDrain)
    requires
        scroll_offset <= isize::MAX / 2,
        current_sb <= isize::MAX / 2,
        forall|i: int| 0 <= i < effects@.len() ==> effect_sizes_ok(#[trigger] effects@[i]),
    ensures
        ({
            let st = drain_upto(effects@, scroll_offset as int, current_sb as int, effects@.len() as int);
            &&& r.scroll_offset == st.scroll
            &&& r.pty_writes@.map_values(|b: Vec<u8>| b@) == st.writes
            &&& r.bell == st.bell
            &&& r.deferred@.map_values(|d: Deferred| d@) == st.deferred
        }),
{
    let mut scroll = scroll_offset;
    let mut writes: Vec<Vec<u8>> = Vec::new();
    let mut bell = false;
    let mut deferred: Vec<Deferred> = Vec::new();
    let mut i: usize = 0;
    let n = effects.len();
    while i < n
        invariant
            n == effects@.len(),
            i <= n,
            scroll <= isize::MAX / 2,
            current_sb <= isize::MAX / 2,
            forall|j: int| 0 <= j < effects@.len() ==> effect_sizes_ok(#[trigger] effects@[j]),
            ({
                let st = drain_upto(effects@, scroll_offset as int, current_sb as int, i as int);
                &&& !st.stopped
                &&& scroll == st.scroll
                &&& writes@.map_values(|b: Vec<u8>| b@) == st.writes
                &&& bell == st.bell
                &&& deferred@.map_values(|d: Deferred| d@) == st.deferred
            }),
        decreases n - i,
    {
        let ghost st = drain_upto(effects@, scroll_offset as int, current_sb as int, i as int);
        let ghost w0 = writes@;
        let ghost d0 = deferred@;
        assert(effect_sizes_ok(effects@[i as int]));
        match &effects[i] {
            ParseEffect::PtyResponse(b) => {
                writes.push(copy_bytes(b));
                assert(writes@.map_values(|b: Vec<u8>| b@) =~= w0.map_values(|b: Vec<u8>| b@).push(b@));
            },
            ParseEffect::ClipboardWrite(t) => {
                deferred.push(Deferred::ClipboardWrite(t.clone()));
                assert(deferred@.map_values(|d: Deferred| d@) =~= d0.map_values(|d: Deferred| d@).push(DeferredView::ClipboardWrite(t@)));
            },
            ParseEffect::ClipboardRead => {
                deferred.push(Deferred::ClipboardRead);
                assert(deferred@.map_values(|d: Deferred| d@) =~= d0.map_values(|d: Deferred| d@).push(DeferredView::ClipboardRead));
            },
            ParseEffect::Bell => {
                bell = true;
            },
            ParseEffect::Disconnected => {
                deferred.push(Deferred::Disconnected);
                assert(deferred@.map_values(|d: Deferred| d@) =~= d0.map_values(|d: Deferred| d@).push(DeferredView::Disconnected));
                proof {
                    let k = i + 1;
                    let rest = effects@.len() - k;
                    lemma_drain_stopped(effects@, scroll_offset as int, current_sb as int, k as int, effects@.len() as int);
                }
                return PaneDrain { scroll_offset: scroll, pty_writes: writes, bell, deferred };
            },
            _ => {
                scroll = scroll_after_effect(scroll, &effects[i], current_sb);
            },
        }
        i = i + 1;
    }
    PaneDrain { scroll_offset: scroll, pty_writes: writes, bell, deferred }
}

/// Once a disconnection stopped the drain, later effects change nothing.
proof fn lemma_drain_stopped(effects: Seq<ParseEffect>, scroll: int, current_sb: int, k: int, m: int)
    requires
        0 <= k <= m,
        drain_upto(effects, scroll, current_sb, k).stopped,
    ensures
        drain_upto(effects, scroll, current_sb, m) == drain_upto(effects, scroll, current_sb, k),
    decreases m - k,
{
    if k < m {
        lemma_drain_stopped(effects, scroll, current_sb, k, m - 1);
    }
}

/// Bell timing of a tab, in milliseconds on a monotonic clock.
pub struct BellState {
    pub bell_flash_start: Option<u64>,
    pub bell_flash_until: Option<u64>,
    pub bell_cooldown_until: Option<u64>,
}

/// How long a bell flash lasts.
pub const BELL_FLASH_MS: u64 = 150;
/// How long after a flash another bell is ignored.
pub const BELL_COOLDOWN_MS: u64 = 500;

/// Whether a bell at `now` flashes: no cooldown is running.
pub open spec fn bell_cooled(b: &BellState, now: u64) -> bool {
    match b.bell_cooldown_until {
        None => true,
        Some(until) => now >= until,
    }
}

/// Rings the bell of a tab at `now`: outside the cooldown the flash starts
/// now, lasts 150 ms, and a 500 ms cooldown begins; inside it nothing
/// changes.
pub fn trigger_bell(tab: &mut BellState, now: u64)
    requires
        now + BELL_COOLDOWN_MS <= u64::MAX,
    ensures
        bell_cooled(old(tab), now) ==> final(tab).bell_flash_start == Some(now)
            && final(tab).bell_flash_until == Some((now + BELL_FLASH_MS) as u64)
            && final(tab).bell_cooldown_until == Some((now + BELL_COOLDOWN_MS) as u64),
        !bell_cooled(old(tab), now) ==> *final(tab) == *old(tab),
{
    let cooled = match tab.bell_cooldown_until {
        None => true,
        Some(until) => now >= until,
    };
    if cooled {
        tab.bell_flash_start = Some(now);
        tab.bell_flash_until = Some(now + BELL_FLASH_MS);
        tab.bell_cooldown_until = Some(now + BELL_COOLDOWN_MS);
    }
}

/// A second bell within the cooldown of one that flashed changes nothing.
pub proof fn lemma_bell_cooldown(t0: u64, t1: u64)
    requires
        t0 + BELL_COOLDOWN_MS <= u64::MAX,
        t0 <= t1 < t0 + BELL_COOLDOWN_MS,
    ensures
        !bell_cooled(&BellState {
            bell_flash_start: Some(t0),
            bell_flash_until: Some((t0 + BELL_FLASH_MS) as u64),
            bell_cooldown_until: Some((t0 + BELL_COOLDOWN_MS) as u64),
        }, t1),
{
}

/// The character of the standard base64 alphabet for the 6-bit value `v`.
pub open spec fn b64_char(v: int) -> char {
    if v < 26 {
        ('A' as int + v) as char
    } else if v < 52 {
        ('a' as int + v - 26) as char
    } else if v < 62 {
        ('0' as int + v - 52) as char
    } else if v == 62 {
        '+'
    } else {
        '/'
    }
}

/// Standard base64 with `=` padding (RFC 4648, section 4): each group of
/// three bytes becomes four characters; a last group of one or two bytes
/// is padded.
pub open spec fn base64_of(b: Seq<u8>) -> Seq<char>
    decreases b.len(),
{
    if b.len() == 0 {
        seq![]
    } else {
        let b0 = b[0] as int;
        let b1 = if b.len() > 1 { b[1] as int } else { 0 };
        let b2 = if b.len() > 2 { b[2] as int } else { 0 };
        let c0 = b64_char(b0 / 4);
        let c1 = b64_char((b0 % 4) * 16 + b1 / 16);
        let c2 = if b.len() > 1 { b64_char((b1 % 16) * 4 + b2 / 64) } else { '=' };
        let c3 = if b.len() > 2 { b64_char(b2 % 64) } else { '=' };
        seq![c0, c1, c2, c3] + if b.len() > 3 { base64_of(b.skip(3)) } else { seq![] }
    }
}

/// The length of the padded base64 encoding of `n` bytes.
pub open spec fn base64_len(n: int) -> int {
    (n / 3) * 4 + if n % 3 > 0 { 4int } else { 0int }
}

/// Encodes bytes with base64's `STANDARD` engine (`Engine::encode`), which
/// the crate documents as the standard alphabet with padding.  The call
/// panics when the encoded length overflows or cannot be allocated, so
/// the input is bounded accordingly.
#[verifier::external_body]
fn base64_standard(bytes: &[u8]) -> (r: String)
    requires
        base64_len(bytes@.len() as int) <= isize::MAX,
    ensures
        r@ == base64_of(bytes@),
{
    base64::Engine::encode(&base64::engine::general_purpose::STANDARD, bytes)
}

/// The OSC 52 answer to a clipboard query: `ESC ] 52 ; c ; <base64> ESC \`.
pub open spec fn osc52_answer(text: Seq<char>) -> Seq<u8> {
    seq![0x1bu8, 0x5du8, 0x35u8, 0x32u8, 0x3bu8, 0x63u8, 0x3bu8]
        + vstd::utf8::encode_utf8(base64_of(vstd::utf8::encode_utf8(text)))
        + seq![0x1bu8, 0x5cu8]
}

/// The bytes sent back to the program that asked for the clipboard, whose
/// text is `text`.
pub fn osc52_response(text: &str) -> (r: Vec<u8>)
    requires
        base64_len(vstd::utf8::encode_utf8(text@).len() as int) + 9 <= isize::MAX,
    ensures
        r@ == osc52_answer(text@),
{
    let encoded = base64_standard(text.as_bytes());
    let mut out: Vec<u8> = Vec::new();
    let head = vec![0x1bu8, 0x5du8, 0x35u8, 0x32u8, 0x3bu8, 0x63u8, 0x3bu8];
    push_all(&mut out, head.as_slice());
    push_all(&mut out, encoded.as_str().as_bytes());
    let tail = vec![0x1bu8, 0x5cu8];
    push_all(&mut out, tail.as_slice());
    assert(out@ =~= osc52_answer(text@));
    out
}

} // verus!
