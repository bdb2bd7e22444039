//! Terminal rendering: the session block with its bordered, styled header
//! and labeled detail lines, and the aligned history table. Styling and
//! Unicode width come from outside crates behind trusted wrappers; every
//! piece of layout around them is exact.

use vstd::prelude::*;
use vstd::string::{StrSliceExecFns, StringExecFns};
use unicode_truncate::UnicodeTruncateStr;
use crate::model::{SessionType, PlexSession, SessionView, PlexpyActivityData, HistoryEntryView,
    PlexpyHistoryData, PlexpyData};
use crate::progress::{progress_seq, progress_bar, repeat_dash};
use crate::duration::{duration_seq, pretty_duration};

verus! {

/// The terminal width of a string, counting wide and combining characters
/// as the terminal shows them.
pub uninterp spec fn display_width(s: Seq<char>) -> nat;

/// A string padded (and truncated) to a display width, left- or
/// right-aligned.
pub uninterp spec fn unicode_pad_of(s: Seq<char>, width: nat, right: bool) -> Seq<char>;

/// The lowercase folding of a string.
pub uninterp spec fn lower_of(s: Seq<char>) -> Seq<char>;

/// A styled rendering carries the plain text itself, between possibly
/// empty runs of terminal escape codes.
pub open spec fn wraps_plain(styled: Seq<char>, plain: Seq<char>) -> bool {
    exists|pre: Seq<char>, post: Seq<char>| styled == pre + plain + post
}

/// Relies on unicode_width's `UnicodeWidthStr::width`: the display width
/// depends on the characters alone.
#[verifier::external_body]
fn str_width(s: &str) -> (r: usize)
    ensures
        r == display_width(s@),
{
    unicode_width::UnicodeWidthStr::width(s)
}

/// Relies on unicode_truncate's `UnicodeTruncateStr::unicode_pad`, with
/// truncation on: the result depends on the string, width and alignment
/// alone. The width cap keeps the call inside the crate's own length
/// arithmetic, which adds the pad count to a substring's byte length.
#[verifier::external_body]
fn unicode_pad(s: &str, width: usize, right: bool) -> (r: String)
    requires
        width <= 4096,
    ensures
        r@ == unicode_pad_of(s@, width as nat, right),
{
    let align = if right {
        unicode_truncate::Alignment::Right
    } else {
        unicode_truncate::Alignment::Left
    };
    s.unicode_pad(width, align, true).into_owned()
}

/// Relies on std's `str::to_lowercase`: the folding depends on the
/// characters alone.
#[verifier::external_body]
fn lowercase(s: &str) -> (r: String)
    ensures
        r@ == lower_of(s@),
{
    s.to_lowercase()
}

/// Relies on console's `style` with the bold and underlined attributes:
/// the rendering is the text between possibly empty runs of escape codes.
#[verifier::external_body]
fn style_title(s: &str) -> (r: String)
    ensures
        wraps_plain(r@, s@),
{
    format!("{}", console::style(s).bold().underlined())
}

/// Relies on console's `style` with the italic and dim attributes: the
/// rendering is the text between possibly empty runs of escape codes.
#[verifier::external_body]
fn style_label(s: &str) -> (r: String)
    ensures
        wraps_plain(r@, s@),
{
    format!("{}", console::style(s).italic().dim())
}

/// Relies on console's `style` with the green foreground color: the
/// rendering is the text between possibly empty runs of escape codes.
#[verifier::external_body]
fn style_green(s: &str) -> (r: String)
    ensures
        wraps_plain(r@, s@),
{
    format!("{}", console::style(s).green())
}

/// Relies on console's `style` with the red foreground color: the
/// rendering is the text between possibly empty runs of escape codes.
#[verifier::external_body]
fn style_red(s: &str) -> (r: String)
    ensures
        wraps_plain(r@, s@),
{
    format!("{}", console::style(s).red())
}

/// A run of box-drawing line glyphs.
pub open spec fn dashes(n: nat) -> Seq<char> {
    Seq::new(n, |i: int| '─')
}

/// A run of spaces.
pub open spec fn spaces(n: nat) -> Seq<char> {
    Seq::new(n, |i: int| ' ')
}

/// A sum clipped to what a usize can hold.
pub open spec fn cap_usize(n: nat) -> nat {
    if n > usize::MAX as nat {
        usize::MAX as nat
    } else {
        n
    }
}

fn repeat_spaces(n: usize) -> (r: String)
    ensures
        r@ == spaces(n as nat),
{
    let mut out = String::new();
    let mut i: usize = 0;
    while i < n
        invariant
            i <= n,
            out@ == spaces(i as nat),
        decreases n - i,
    {
        out.append(" ");
        i = i + 1;
        proof {
            reveal_strlit(" ");
            assert(out@ =~= spaces(i as nat));
        }
    }
    proof {
        assert(out@ =~= spaces(n as nat));
    }
    out
}

/// A string left-padded with spaces to a character count; a longer string
/// stays as it is.
pub open spec fn pad_left_seq(s: Seq<char>, w: nat) -> Seq<char> {
    if s.len() < w {
        spaces((w - s.len()) as nat) + s
    } else {
        s
    }
}

fn pad_left(s: &str, w: usize) -> (r: String)
    ensures
        r@ == pad_left_seq(s@, w as nat),
{
    let n = s.unicode_len();
    if n < w {
        let mut out = repeat_spaces(w - n);
        out.append(s);
        out
    } else {
        String::from_str(s)
    }
}

/// A string centered with spaces to a character count, the odd space on
/// the right; a longer string stays as it is.
pub open spec fn pad_center_seq(s: Seq<char>, w: nat) -> Seq<char> {
    if s.len() < w {
        let total = (w - s.len()) as nat;
        spaces(total / 2) + s + spaces((total - total / 2) as nat)
    } else {
        s
    }
}

fn pad_center(s: &str, w: usize) -> (r: String)
    ensures
        r@ == pad_center_seq(s@, w as nat),
{
    let n = s.unicode_len();
    if n < w {
        let total = w - n;
        let left = total / 2;
        let mut out = repeat_spaces(left);
        out.append(s);
        out.append(repeat_spaces(total - left).as_str());
        out
    } else {
        String::from_str(s)
    }
}

/// The media-type glyph, chosen from the lowercase folding of the type.
pub open spec fn glyph_seq(media_folded: Seq<char>) -> Seq<char> {
    if media_folded == "track"@ {
        "🎵"@
    } else if media_folded == "movie"@ {
        "🎞 "@
    } else if media_folded == "episode"@ {
        "📺"@
    } else {
        "? "@
    }
}

/// Maps an already-folded media type to its glyph.
pub fn glyph_for_folded(m: &str) -> (r: &'static str)
    ensures
        r@ == glyph_seq(m@),
{
    if crate::json::str_eq(m, "track") {
        "🎵"
    } else if crate::json::str_eq(m, "movie") {
        "🎞 "
    } else if crate::json::str_eq(m, "episode") {
        "📺"
    } else {
        "? "
    }
}

/// A digit character's numeric value, for the percent parser.
pub open spec fn digit_val(c: char) -> nat {
    (c as int - 48) as nat
}

/// The character is a decimal digit.
pub open spec fn is_digit_char(c: char) -> bool {
    48 <= c as int <= 57
}

/// Every character of the string is a decimal digit.
pub open spec fn all_digits(s: Seq<char>) -> bool {
    forall|i: int| 0 <= i < s.len() ==> is_digit_char(s[i])
}

/// The numeric value of an all-digit string, most significant first.
pub open spec fn digits_value(s: Seq<char>) -> nat
    decreases s.len(),
{
    if s.len() == 0 {
        0
    } else {
        digits_value(s.drop_last()) * 10 + digit_val(s.last())
    }
}

/// The digits of a percent string: what follows one optional leading
/// plus sign, as integer parsing accepts it.
pub open spec fn digits_part(s: Seq<char>) -> Seq<char> {
    if s.len() > 0 && s[0] == '+' {
        s.subrange(1, s.len() as int)
    } else {
        s
    }
}

/// The lenient reading of a percent string: its numeric value when it is
/// a digit string after one optional plus sign, within 0 to 100, and 0 on
/// anything else.
pub open spec fn spec_lenient_percent(s: Seq<char>) -> nat {
    let d = digits_part(s);
    if d.len() > 0 && all_digits(d) && digits_value(d) <= 100 {
        digits_value(d)
    } else {
        0
    }
}

proof fn lemma_digits_value_prefix(s: Seq<char>, i: int)
    requires
        0 <= i <= s.len(),
    ensures
        digits_value(s) >= digits_value(s.take(i)),
    decreases s.len() - i,
{
    if i < s.len() {
        lemma_digits_value_prefix(s.drop_last(), i);
        assert(s.drop_last().take(i) =~= s.take(i));
    } else {
        assert(s.take(i) =~= s);
    }
}

/// Reads a percent string leniently, as the wire demands: one optional
/// leading plus sign and digits give the value, as integer parsing
/// accepts them; a malformed or out-of-range string falls back to 0,
/// never an error.
#[verifier::loop_isolation(false)]
pub fn lenient_percent(s: &str) -> (p: u8)
    ensures
        p == spec_lenient_percent(s@),
        p <= 100,
{
    let n = s.unicode_len();
    if n == 0 {
        return 0;
    }
    let first = s.get_char(0);
    let start: usize = if first as u32 == 43 {
        1
    } else {
        0
    };
    proof {
        assert(digits_part(s@) =~= s@.subrange(start as int, n as int));
    }
    if n == start {
        return 0;
    }
    let mut acc: u32 = 0;
    let mut i: usize = start;
    while i < n
        invariant
            start <= i <= n,
            all_digits(s@.subrange(start as int, i as int)),
            acc == digits_value(s@.subrange(start as int, i as int)),
            acc <= 100,
        decreases n - i,
    {
        let c = s.get_char(i);
        let u = c as u32;
        if u < 48 || u > 57 {
            proof {
                assert(digits_part(s@)[i - start] == s@[i as int]);
                assert(!all_digits(digits_part(s@)));
            }
            return 0;
        }
        let d: u32 = u - 48;
        let acc2 = acc * 10 + d;
        proof {
            assert(s@.subrange(start as int, i as int + 1).drop_last() =~= s@.subrange(
                start as int,
                i as int,
            ));
            assert(s@.subrange(start as int, i as int + 1).last() == s@[i as int]);
        }
        if acc2 > 100 {
            proof {
                lemma_digits_value_prefix(digits_part(s@), i as int + 1 - start);
                assert(digits_part(s@).take(i as int + 1 - start) =~= s@.subrange(
                    start as int,
                    i as int + 1,
                ));
            }
            return 0;
        }
        acc = acc2;
        i = i + 1;
    }
    acc as u8
}

/// The styled fragments a session block is assembled from.
pub struct SessionStyling {
    pub title: Seq<char>,
    pub state_label: Seq<char>,
    pub user_label: Seq<char>,
    pub player_label: Seq<char>,
    pub quality_label: Seq<char>,
    pub container_label: Seq<char>,
    pub progress_label: Seq<char>,
    pub ip_label: Seq<char>,
    pub lock: Seq<char>,
}

/// The lock fragment matches the session type: a green closed lock when
/// secure, a red open lock when insecure, nothing when unknown.
pub open spec fn lock_ok(lock: Seq<char>, t: Option<SessionType>) -> bool {
    match t {
        Some(SessionType::Secure) => wraps_plain(lock, "🔒"@),
        Some(SessionType::Insecure) => wraps_plain(lock, "🔓"@),
        None => lock == Seq::<char>::empty(),
    }
}

/// Each styled fragment renders its plain text.
pub open spec fn session_styling_ok(st: SessionStyling, s: SessionView) -> bool {
    &&& wraps_plain(st.title, s.full_title)
    &&& wraps_plain(st.state_label, "State"@)
    &&& wraps_plain(st.user_label, "User"@)
    &&& wraps_plain(st.player_label, "Player"@)
    &&& wraps_plain(st.quality_label, "Quality"@)
    &&& wraps_plain(st.container_label, "Container"@)
    &&& wraps_plain(st.progress_label, "Progress"@)
    &&& wraps_plain(st.ip_label, "IP"@)
    &&& lock_ok(st.lock, s.session_type)
}

/// The width of the header box: the title's display width plus the
/// glyph's plus the fixed padding, clipped to a usize.
pub open spec fn box_len(s: SessionView) -> nat {
    cap_usize(display_width(s.full_title) + display_width(glyph_seq(lower_of(s.media_type))) + 3)
}

/// The top border of the header box.
pub open spec fn top_line_seq(n: nat) -> Seq<char> {
    "┌"@ + dashes(n) + "┐\n"@
}

/// The title line of the header box.
pub open spec fn title_line_seq(glyph: Seq<char>, styled_title: Seq<char>) -> Seq<char> {
    "│ "@ + glyph + " "@ + styled_title + " │\n"@
}

/// The bottom border of the header box.
pub open spec fn bottom_line_seq(n: nat) -> Seq<char> {
    "└"@ + dashes(n) + "┘\n"@
}

/// One indented, labeled detail line.
pub open spec fn detail_line_seq(label: Seq<char>, value: Seq<char>) -> Seq<char> {
    "    "@ + label + ": "@ + value + "\n"@
}

/// The container column: the transcode target after an arrow when one is
/// set, the container alone otherwise.
pub open spec fn container_value(s: SessionView) -> Seq<char> {
    if s.transcode_container.len() > 0 {
        s.container + " -> "@ + s.transcode_container
    } else {
        s.container
    }
}

/// The whole block for one session, given its styled fragments: the
/// bordered title box, the seven detail lines, and a blank separator.
pub open spec fn session_block(st: SessionStyling, s: SessionView) -> Seq<char> {
    top_line_seq(box_len(s)) + title_line_seq(glyph_seq(lower_of(s.media_type)), st.title)
        + bottom_line_seq(box_len(s)) + detail_line_seq(st.state_label, s.state) + detail_line_seq(
        st.user_label,
        s.user,
    ) + detail_line_seq(st.player_label, s.player + " ("@ + s.platform + ")"@) + detail_line_seq(
        st.quality_label,
        s.quality_profile,
    ) + detail_line_seq(st.container_label, container_value(s)) + detail_line_seq(
        st.progress_label,
        progress_seq(spec_lenient_percent(s.progress_percent)),
    ) + detail_line_seq(st.ip_label, st.lock + s.ip_address_public) + "\n\n"@
}

/// The output is a session block under some admissible styling.
pub open spec fn is_session_block(out: Seq<char>, s: SessionView) -> bool {
    exists|st: SessionStyling| session_styling_ok(st, s) && out == session_block(st, s)
}

fn top_line(n: usize) -> (r: String)
    ensures
        r@ == top_line_seq(n as nat),
{
    let mut out = String::from_str("┌");
    out.append(repeat_dash(n).as_str());
    out.append("┐\n");
    proof {
        assert(Seq::new(n as nat, |i: int| '─') =~= dashes(n as nat));
    }
    out
}

fn bottom_line(n: usize) -> (r: String)
    ensures
        r@ == bottom_line_seq(n as nat),
{
    let mut out = String::from_str("└");
    out.append(repeat_dash(n).as_str());
    out.append("┘\n");
    proof {
        assert(Seq::new(n as nat, |i: int| '─') =~= dashes(n as nat));
    }
    out
}

fn title_line(glyph: &str, styled_title: &str) -> (r: String)
    ensures
        r@ == title_line_seq(glyph@, styled_title@),
{
    let mut out = String::from_str("│ ");
    out.append(glyph);
    out.append(" ");
    out.append(styled_title);
    out.append(" │\n");
    out
}

fn detail_line(label: &str, value: &str) -> (r: String)
    ensures
        r@ == detail_line_seq(label@, value@),
{
    let mut out = String::from_str("    ");
    out.append(label);
    out.append(": ");
    out.append(value);
    out.append("\n");
    out
}

/// The lock fragment for a session type.
fn lock_glyph(t: &Option<SessionType>) -> (r: String)
    ensures
        lock_ok(r@, *t),
{
    match t {
        Some(SessionType::Secure) => style_green("🔒"),
        Some(SessionType::Insecure) => style_red("🔓"),
        None => String::new(),
    }
}

/// Renders one active session as its multi-line block.
pub fn format_session(s: &PlexSession) -> (r: String)
    ensures
        is_session_block(r@, s@),
{
    let folded = lowercase(s.media_type.as_str());
    let glyph = glyph_for_folded(folded.as_str());
    let tw = str_width(s.full_title.as_str());
    let gw = str_width(glyph);
    let len: usize = if gw <= usize::MAX - 3 && tw <= usize::MAX - 3 - gw {
        tw + gw + 3
    } else {
        usize::MAX
    };
    proof {
        assert(len as nat == box_len(s@));
    }
    let styled_title = style_title(s.full_title.as_str());
    let st_state = style_label("State");
    let st_user = style_label("User");
    let st_player = style_label("Player");
    let st_quality = style_label("Quality");
    let st_container = style_label("Container");
    let st_progress = style_label("Progress");
    let st_ip = style_label("IP");
    let lock = lock_glyph(&s.session_type);
    let mut out = top_line(len);
    out.append(title_line(glyph, styled_title.as_str()).as_str());
    out.append(bottom_line(len).as_str());
    out.append(detail_line(st_state.as_str(), s.state.as_str()).as_str());
    out.append(detail_line(st_user.as_str(), s.user.as_str()).as_str());
    let mut player_value = s.player.clone();
    player_value.append(" (");
    player_value.append(s.platform.as_str());
    player_value.append(")");
    out.append(detail_line(st_player.as_str(), player_value.as_str()).as_str());
    out.append(detail_line(st_quality.as_str(), s.quality_profile.as_str()).as_str());
    let container_val = if s.transcode_container.as_str().unicode_len() > 0 {
        let mut c = s.container.clone();
        c.append(" -> ");
        c.append(s.transcode_container.as_str());
        c
    } else {
        s.container.clone()
    };
    out.append(detail_line(st_container.as_str(), container_val.as_str()).as_str());
    let p = lenient_percent(s.progress_percent.as_str());
    let bar = progress_bar(p);
    out.append(detail_line(st_progress.as_str(), bar.as_str()).as_str());
    let mut ip_value = lock.clone();
    ip_value.append(s.ip_address_public.as_str());
    out.append(detail_line(st_ip.as_str(), ip_value.as_str()).as_str());
    out.append("\n\n");
    proof {
        let st = (SessionStyling {
            title: styled_title@,
            state_label: st_state@,
            user_label: st_user@,
            player_label: st_player@,
            quality_label: st_quality@,
            container_label: st_container@,
            progress_label: st_progress@,
            ip_label: st_ip@,
            lock: lock@,
        });
        assert(session_styling_ok(st, s@));
        assert(out@ == session_block(st, s@));
    }
    out
}

/// The output is one session block after another, in the sessions' own
/// order, each under some admissible styling.
pub open spec fn is_session_blocks(out: Seq<char>, ss: Seq<SessionView>) -> bool
    decreases ss.len(),
{
    if ss.len() == 0 {
        out == Seq::<char>::empty()
    } else {
        exists|rest: Seq<char>, blk: Seq<char>|
            is_session_blocks(rest, ss.drop_last()) && is_session_block(blk, ss.last()) && out
                == rest + blk
    }
}

/// Renders every active session, in order.
pub fn format_sessions(data: &PlexpyActivityData) -> (r: String)
    ensures
        is_session_blocks(r@, data@.sessions),
{
    let mut out = String::new();
    let n = data.sessions.len();
    let mut i: usize = 0;
    while i < n
        invariant
            i <= n,
            n == data.sessions@.len(),
            is_session_blocks(out@, data@.sessions.take(i as int)),
        decreases n - i,
    {
        let block = format_session(&data.sessions[i]);
        let ghost prev = out@;
        out.append(block.as_str());
        proof {
            let ss = data@.sessions;
            assert(ss.take(i as int + 1).drop_last() =~= ss.take(i as int));
            assert(ss.take(i as int + 1).last() == ss[i as int]);
            assert(ss[i as int] == data.sessions@[i as int]@);
            assert(is_session_blocks(prev, ss.take(i as int + 1).drop_last()) && is_session_block(
                block@,
                ss.take(i as int + 1).last(),
            ) && out@ == prev + block@);
            assert(is_session_blocks(out@, ss.take(i as int + 1)));
        }
        i = i + 1;
    }
    proof {
        assert(data@.sessions.take(n as int) =~= data@.sessions);
    }
    out
}

/// One rendered history row: the padded title, the padded user, and the
/// right-aligned duration.
pub open spec fn row_of(e: HistoryEntryView) -> Seq<char> {
    unicode_pad_of(e.full_title, 58, false) + " "@ + unicode_pad_of(e.user, 20, true) + " "@
        + pad_left_seq(duration_seq(e.duration as nat), 20) + "\n"@
}

/// The rendered history body: one row per record, in the records' own
/// order.
pub open spec fn history_rows(h: Seq<HistoryEntryView>) -> Seq<char>
    decreases h.len(),
{
    if h.len() == 0 {
        Seq::<char>::empty()
    } else {
        history_rows(h.drop_last()) + row_of(h.last())
    }
}

/// The output is the styled three-column header line followed by the
/// history body.
pub open spec fn is_history_output(out: Seq<char>, h: Seq<HistoryEntryView>) -> bool {
    exists|m: Seq<char>, u: Seq<char>, d: Seq<char>|
        {
            &&& wraps_plain(m, pad_center_seq("Media"@, 60))
            &&& wraps_plain(u, pad_left_seq("User"@, 20))
            &&& wraps_plain(d, pad_left_seq("Duration"@, 20))
            &&& out == m + u + d + "\n"@ + history_rows(h)
        }
}

fn history_row(e: &crate::model::HistoryEntry) -> (r: String)
    ensures
        r@ == row_of(e@),
{
    let mut out = unicode_pad(e.full_title.as_str(), 58, false);
    out.append(" ");
    out.append(unicode_pad(e.user.as_str(), 20, true).as_str());
    out.append(" ");
    out.append(pad_left(pretty_duration(e.duration).as_str(), 20).as_str());
    out.append("\n");
    out
}

/// Renders the history table: the header line and one row per record, in
/// the records' own order.
pub fn format_history(data: &PlexpyHistoryData) -> (r: String)
    ensures
        is_history_output(r@, data@.history),
{
    let m = style_title(pad_center("Media", 60).as_str());
    let u = style_title(pad_left("User", 20).as_str());
    let d = style_title(pad_left("Duration", 20).as_str());
    let ghost mv = m@;
    let ghost uv = u@;
    let ghost dv = d@;
    let mut out = m;
    out.append(u.as_str());
    out.append(d.as_str());
    out.append("\n");
    let ghost header = out@;
    let n = data.history.len();
    let mut i: usize = 0;
    while i < n
        invariant
            i <= n,
            n == data.history@.len(),
            out@ == header + history_rows(data@.history.take(i as int)),
        decreases n - i,
    {
        let row = history_row(&data.history[i]);
        let ghost prev_rows = history_rows(data@.history.take(i as int));
        out.append(row.as_str());
        proof {
            let h = data@.history;
            assert(h.take(i as int + 1).drop_last() =~= h.take(i as int));
            assert(h.take(i as int + 1).last() == h[i as int]);
            assert(h[i as int] == data.history@[i as int]@);
            assert((header + prev_rows) + row@ =~= header + (prev_rows + row@));
        }
        i = i + 1;
    }
    proof {
        assert(data@.history.take(n as int) =~= data@.history);
        assert(wraps_plain(mv, pad_center_seq("Media"@, 60)) && wraps_plain(
            uv,
            pad_left_seq("User"@, 20),
        ) && wraps_plain(dv, pad_left_seq("Duration"@, 20)) && out@ == mv + uv + dv + "\n"@
            + history_rows(data@.history));
        assert(is_history_output(out@, data@.history));
    }
    out
}

/// Renders a payload: the session blocks for activity, the table for
/// history.
pub fn print_data(data: &PlexpyData) -> (r: String)
    ensures
        data matches PlexpyData::Activity(a) ==> is_session_blocks(r@, a@.sessions),
        data matches PlexpyData::History(h) ==> is_history_output(r@, h@.history),
{
    match data {
        PlexpyData::Activity(a) => format_sessions(a),
        PlexpyData::History(h) => format_history(h),
    }
}

/// A joined sequence of rows, first to last.
pub open spec fn seq_join(rows: Seq<Seq<char>>) -> Seq<char>
    decreases rows.len(),
{
    if rows.len() == 0 {
        Seq::<char>::empty()
    } else {
        seq_join(rows.drop_last()) + rows.last()
    }
}

/// The history body keeps the input's count and order: it is exactly the
/// join of one row per record, the i-th row rendering the i-th record.
pub proof fn lemma_history_rows_shape(h: Seq<HistoryEntryView>)
    ensures
        history_rows(h) == seq_join(Seq::new(h.len(), |i: int| row_of(h[i]))),
    decreases h.len(),
{
    let rows = Seq::new(h.len(), |i: int| row_of(h[i]));
    if h.len() == 0 {
        assert(rows.len() == 0);
    } else {
        lemma_history_rows_shape(h.drop_last());
        assert(Seq::new(h.drop_last().len(), |i: int| row_of(h.drop_last()[i])) =~= rows.drop_last());
        assert(rows.last() == row_of(h.last()));
    }
}

} // verus!
