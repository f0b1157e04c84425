//! The boot status screen: hostname, then what the network is doing, as a
//! centred block of wrapped lines, with an optional footer pinned near the
//! bottom.
//!
//! Uses the whole frame rather than the player's text column: a full IPv6
//! address is 39 characters.

use vstd::prelude::*;
use crate::config::StatusText;
use crate::face::{small, sane};
use crate::net::{Address, HostInfo, NetState};
use crate::text::{chars_of, push_str, string_from};
use crate::ui::{Face, Layout, Palette, FIELD_GAP, FOOTER_MARGIN, LINE_GAP, cols_of, views, wrap, wrapped};

verus! {

broadcast use vstd::string::group_string_axioms;

/// Which palette colour a line is painted in.
#[derive(Debug, Clone, Copy, PartialEq, Eq, Structural)]
pub enum Tone {
    Title,
    Meta,
    Dim,
}

pub open spec fn tone_of(pal: Palette, t: Tone) -> u16 {
    match t {
        Tone::Title => pal.title,
        Tone::Meta => pal.meta,
        Tone::Dim => pal.dim,
    }
}

pub fn tone_colour(pal: Palette, t: Tone) -> (c: u16)
    ensures
        c == tone_of(pal, t),
{
    match t {
        Tone::Title => pal.title,
        Tone::Meta => pal.meta,
        Tone::Dim => pal.dim,
    }
}

/// One line of text, centred on the screen's middle column at `y`.
#[derive(Debug, Clone)]
pub struct Row {
    pub text: String,
    pub face: Face,
    pub tone: Tone,
    pub y: i32,
}

/// What the status screen paints, in the frame's coordinates.
#[derive(Debug, Clone)]
pub struct StatusPlan {
    /// The centre column every line is centred on.
    pub cx: i32,
    pub rows: Vec<Row>,
    pub footer: Option<Row>,
}

pub const WAITING: &'static str = "waiting for network";
pub const WIFI_SETUP: &'static str = "Wi-Fi setup";

pub open spec fn title_face(mode: StatusText) -> Face {
    match mode {
        StatusText::Normal => Face::Title,
        StatusText::Large => Face::Large,
    }
}

pub open spec fn fact_face(mode: StatusText) -> Face {
    match mode {
        StatusText::Normal => Face::Meta,
        StatusText::Large => Face::Large,
    }
}

/// Title and fact faces: 9 by 15 and 6 by 10 normally; the 10 by 20 face
/// for both when the text is large, so addresses wrap instead.
pub fn status_faces(mode: StatusText) -> (r: (Face, Face))
    ensures
        r.0 == title_face(mode),
        r.1 == fact_face(mode),
{
    match mode {
        StatusText::Normal => (Face::Title, Face::Meta),
        StatusText::Large => (Face::Large, Face::Large),
    }
}

/// A line of text with its face and tone, before placement.
pub type Line = (Seq<char>, Face, Tone);

pub open spec fn styled(texts: Seq<Seq<char>>, face: Face, tone: Tone) -> Seq<Line> {
    Seq::new(texts.len(), |i: int| (texts[i], face, tone))
}

/// An address line: interface, two spaces, address.
pub open spec fn addr_text(a: Address) -> Seq<char> {
    a.iface@ + seq![' ', ' '] + a.addr@
}

pub open spec fn addr_lines(addrs: Seq<Address>, cols: nat) -> Seq<Seq<char>>
    decreases addrs.len(),
{
    if addrs.len() == 0 {
        seq![]
    } else {
        addr_lines(addrs.drop_last(), cols) + wrapped(addr_text(addrs.last()), cols)
    }
}

/// The hostname, wrapped in the title face.
pub open spec fn head_lines(host: HostInfo, width: u32, mode: StatusText) -> Seq<Line> {
    styled(wrapped(host.hostname@, cols_of(width, title_face(mode))), title_face(mode), Tone::Title)
}

/// What the network is doing: "waiting for network" when there is nothing;
/// each address as `iface  addr`; and, when the access point is up, after
/// the addresses, "Wi-Fi setup" then the SSID and the address to open.
pub open spec fn body_lines(host: HostInfo, width: u32, mode: StatusText) -> Seq<Line> {
    let tf = title_face(mode);
    let ff = fact_face(mode);
    match host.state {
        NetState::Waiting => styled(wrapped(WAITING@, cols_of(width, tf)), tf, Tone::Dim),
        NetState::Connected(v) => styled(addr_lines(v@, cols_of(width, ff)), ff, Tone::Meta),
        NetState::Hotspot { ssid, addr, lan } => styled(addr_lines(lan@, cols_of(width, ff)), ff, Tone::Meta)
            + styled(wrapped(WIFI_SETUP@, cols_of(width, tf)), tf, Tone::Meta)
            + styled(wrapped(ssid@, cols_of(width, ff)), ff, Tone::Meta)
            + styled(wrapped(addr@, cols_of(width, ff)), ff, Tone::Meta),
    }
}

/// When addresses are listed above the access point block, the body line
/// where that block starts: a field gap goes before it, so it does not read
/// as another address.
pub open spec fn hotspot_gap(host: HostInfo, width: u32, mode: StatusText) -> Option<int> {
    match host.state {
        NetState::Hotspot { lan, .. } => if lan@.len() > 0 {
            Some(addr_lines(lan@, cols_of(width, fact_face(mode))).len() as int)
        } else {
            None
        },
        _ => None,
    }
}

/// Whether the field gap before the access point block adds to the block's
/// height: when it falls strictly inside the body.
pub open spec fn gap_counts(gap: Option<int>, body: Seq<Line>) -> bool {
    gap matches Some(g) && 0 < g < body.len()
}

/// Height of the first `n` lines stacked, each followed by a line gap.
pub open spec fn stack_before(ls: Seq<Line>, n: int) -> int
    decreases n,
{
    if n <= 0 || n > ls.len() {
        0
    } else {
        stack_before(ls, n - 1) + ls[n - 1].1.h() + LINE_GAP
    }
}

/// Height of a block of lines: the lines and the gaps between them.
pub open spec fn stacked(ls: Seq<Line>) -> int {
    if ls.len() == 0 {
        0
    } else {
        stack_before(ls, ls.len() as int) - LINE_GAP
    }
}

/// Top of the block: centred in what the footer leaves, never above the
/// top edge.
pub open spec fn block_top(height: u32, head: Seq<Line>, body: Seq<Line>, gap: Option<int>, footer: bool, tf: Face) -> int {
    let block = stacked(head) + FIELD_GAP + stacked(body) + if gap_counts(gap, body) {
        FIELD_GAP
    } else {
        0
    };
    let reserved = if footer {
        tf.h() + 2 * FOOTER_MARGIN
    } else {
        0
    };
    let d = height - reserved - block;
    if d > 0 {
        d / 2
    } else {
        0
    }
}

/// Where line `i` of head-then-body sits: stacked from the block top, with
/// a field gap after the head, and another before body line `gap` when
/// there is one.
pub open spec fn row_y(top: int, head: Seq<Line>, all: Seq<Line>, gap: Option<int>, i: int) -> int {
    top + stack_before(all, i) + (if i >= head.len() {
        FIELD_GAP - LINE_GAP
    } else {
        0
    }) + if gap matches Some(g) && i >= head.len() + g {
        FIELD_GAP
    } else {
        0
    }
}

/// Lay out the status screen for `layout`'s frame.
pub fn plan_status(layout: &Layout, host: &HostInfo, footer: Option<&str>) -> (p: StatusPlan)
    requires
        sane(*layout),
    ensures
        ({
            let width = layout.frame.size.width;
            let mode = layout.status_text;
            let head = head_lines(*host, width, mode);
            let body = body_lines(*host, width, mode);
            let all = head + body;
            let gap = hotspot_gap(*host, width, mode);
            let top = block_top(layout.frame.size.height, head, body, gap, footer is Some, title_face(mode));
            &&& p.cx == (width / 2) as int
            &&& p.rows@.len() == all.len()
            &&& forall|i: int|
                0 <= i < all.len() ==> {
                    &&& (#[trigger] p.rows@[i]).text@ == all[i].0
                    &&& p.rows@[i].face == all[i].1
                    &&& p.rows@[i].tone == all[i].2
                    &&& p.rows@[i].y == row_y(top, head, all, gap, i) as i32
                }
            &&& match footer {
                Some(f) => p.footer matches Some(r) && r.text@ == f@ && r.face == title_face(mode)
                    && r.tone == Tone::Dim && r.y == layout.frame.size.height - FOOTER_MARGIN
                    - title_face(mode).h(),
                None => p.footer is None,
            }
        }),
{
    let width = layout.frame.size.width;
    let height = layout.frame.size.height;
    let mode = layout.status_text;
    let (tf, ff) = status_faces(mode);
    let mut lines: Vec<(String, Face, Tone)> = Vec::new();
    push_lines(&mut lines, &host.hostname, width, tf, Tone::Title);
    let head_n = lines.len();
    let ghost head = head_lines(*host, width, mode);
    assert(line_views(lines@) =~= head);
    let mut gap: Option<usize> = None;
    match &host.state {
        NetState::Waiting => {
            let w = WAITING.to_string();
            push_lines(&mut lines, &w, width, tf, Tone::Dim);
        },
        NetState::Connected(addrs) => {
            push_addr_lines(&mut lines, addrs, width, ff);
        },
        NetState::Hotspot { ssid, addr, lan } => {
            push_addr_lines(&mut lines, lan, width, ff);
            if lan.len() > 0 {
                gap = Some(lines.len());
            }
            let w = WIFI_SETUP.to_string();
            push_lines(&mut lines, &w, width, tf, Tone::Meta);
            push_lines(&mut lines, ssid, width, ff, Tone::Meta);
            push_lines(&mut lines, addr, width, ff, Tone::Meta);
        },
    }
    let ghost all = line_views(lines@);
    let ghost body = body_lines(*host, width, mode);
    assert(all =~= head + body);
    assert(all.subrange(0, head_n as int) =~= head);
    assert(all.subrange(head_n as int, all.len() as int) =~= body);
    // Heights of the head and of the body.
    let head_h = stack_height(&lines, 0, head_n);
    let body_h = stack_height(&lines, head_n, lines.len());
    let ghost g = hotspot_gap(*host, width, mode);
    assert(match gap {
        Some(ga) => g == Some(ga - head_n),
        None => g is None,
    });
    let extra: i128 = match gap {
        Some(ga) => if head_n < ga && ga < lines.len() {
            FIELD_GAP as i128
        } else {
            0
        },
        None => 0,
    };
    let block: i128 = head_h + FIELD_GAP as i128 + body_h + extra;
    let reserved: i128 = match footer {
        Some(_) => tf.char_h() as i128 + 2 * FOOTER_MARGIN as i128,
        None => 0,
    };
    let d: i128 = height as i128 - reserved - block;
    let top: i128 = if d > 0 {
        d / 2
    } else {
        0
    };
    let mut rows: Vec<Row> = Vec::new();
    let mut y: i128 = top;
    let mut i: usize = 0;
    while i < lines.len()
        invariant
            i <= lines@.len(),
            all == line_views(lines@),
            head == all.subrange(0, head_n as int),
            head_n <= lines@.len(),
            top == block_top(height, head, body, g, footer is Some, tf),
            match gap {
                Some(ga) => head_n <= ga && g == Some(ga - head_n),
                None => g is None,
            },
            0 <= top <= 0x1_0000_0000,
            y == top + stack_before(all, i as int) + (if i > head_n {
                FIELD_GAP - LINE_GAP
            } else {
                0
            }) + if gap matches Some(ga) && i > ga {
                FIELD_GAP
            } else {
                0
            },
            0 <= stack_before(all, i as int) <= 22 * i,
            rows@.len() == i,
            forall|j: int|
                0 <= j < i ==> {
                    &&& (#[trigger] rows@[j]).text@ == all[j].0
                    &&& rows@[j].face == all[j].1
                    &&& rows@[j].tone == all[j].2
                    &&& rows@[j].y == row_y(top as int, head, all, g, j) as i32
                },
        decreases lines@.len() - i,
    {
        if i == head_n {
            y = y + (FIELD_GAP - LINE_GAP) as i128;
        }
        if let Some(ga) = gap {
            if ga == i {
                y = y + FIELD_GAP as i128;
            }
        }
        let (t, f, tn) = (&lines[i].0, lines[i].1, lines[i].2);
        rows.push(Row { text: t.clone(), face: f, tone: tn, y: y as i32 });
        y = y + f.char_h() as i128 + LINE_GAP as i128;
        i = i + 1;
    }
    let foot = match footer {
        Some(f) => Some(
            Row {
                text: f.to_string(),
                face: tf,
                tone: Tone::Dim,
                y: height as i32 - FOOTER_MARGIN - tf.char_h() as i32,
            },
        ),
        None => None,
    };
    StatusPlan { cx: (width / 2) as i32, rows, footer: foot }
}

pub open spec fn line_views(v: Seq<(String, Face, Tone)>) -> Seq<Line> {
    Seq::new(v.len(), |i: int| (v[i].0@, v[i].1, v[i].2))
}

/// Append each address as `iface  addr`, wrapped to `width` in `face`.
fn push_addr_lines(out: &mut Vec<(String, Face, Tone)>, addrs: &Vec<Address>, width: u32, face: Face)
    ensures
        line_views(final(out)@) == line_views(old(out)@) + styled(
            addr_lines(addrs@, cols_of(width, face)),
            face,
            Tone::Meta,
        ),
{
    let ghost start = line_views(out@);
    let ghost c = cols_of(width, face);
    let mut k: usize = 0;
    assert(addrs@.take(0) =~= Seq::<Address>::empty());
    assert(line_views(out@) =~= start + styled(addr_lines(addrs@.take(0), c), face, Tone::Meta));
    while k < addrs.len()
        invariant
            k <= addrs@.len(),
            c == cols_of(width, face),
            line_views(out@) == start + styled(addr_lines(addrs@.take(k as int), c), face, Tone::Meta),
        decreases addrs@.len() - k,
    {
        let mut t: Vec<char> = Vec::new();
        push_str(&mut t, addrs[k].iface.as_str());
        t.push(' ');
        t.push(' ');
        push_str(&mut t, addrs[k].addr.as_str());
        assert(t@ =~= addr_text(addrs@[k as int]));
        let s = string_from(&t);
        push_lines(out, &s, width, face, Tone::Meta);
        proof {
            assert(addrs@.take(k + 1).drop_last() =~= addrs@.take(k as int));
            assert(addrs@.take(k + 1).last() == addrs@[k as int]);
            assert(styled(addr_lines(addrs@.take(k + 1), c), face, Tone::Meta) =~= styled(
                addr_lines(addrs@.take(k as int), c),
                face,
                Tone::Meta,
            ) + styled(wrapped(s@, c), face, Tone::Meta));
            assert(line_views(out@) =~= start + styled(addr_lines(addrs@.take(k + 1), c), face, Tone::Meta));
        }
        k = k + 1;
    }
    assert(addrs@.take(addrs@.len() as int) =~= addrs@);
}

/// Append `text` wrapped to `width` in `face`, each line in `tone`.
fn push_lines(out: &mut Vec<(String, Face, Tone)>, text: &String, width: u32, face: Face, tone: Tone)
    ensures
        line_views(final(out)@) == line_views(old(out)@) + styled(
            wrapped(text@, cols_of(width, face)),
            face,
            tone,
        ),
{
    let parts = wrap(text.as_str(), width, face);
    let ghost start = line_views(out@);
    let mut i: usize = 0;
    while i < parts.len()
        invariant
            i <= parts@.len(),
            views(parts@) == wrapped(text@, cols_of(width, face)),
            line_views(out@) == start + styled(views(parts@).take(i as int), face, tone),
        decreases parts@.len() - i,
    {
        let ghost prev = out@;
        out.push((parts[i].clone(), face, tone));
        proof {
            assert(views(parts@)[i as int] == parts@[i as int]@);
            assert(line_views(out@) =~= line_views(prev).push((parts@[i as int]@, face, tone)));
            assert(views(parts@).take(i + 1) =~= views(parts@).take(i as int).push(views(parts@)[i as int]));
            assert(line_views(out@) =~= start + styled(views(parts@).take(i + 1), face, tone));
        }
        i = i + 1;
    }
    assert(views(parts@).take(parts@.len() as int) =~= views(parts@));
}

/// Height of lines `lo..hi` stacked, zero when there are none.
fn stack_height(lines: &Vec<(String, Face, Tone)>, lo: usize, hi: usize) -> (h: i128)
    requires
        lo <= hi <= lines@.len(),
    ensures
        h == stacked(line_views(lines@).subrange(lo as int, hi as int)),
        0 <= h <= 22 * (hi - lo),
{
    let ghost ls = line_views(lines@).subrange(lo as int, hi as int);
    if lo == hi {
        return 0;
    }
    let mut h: i128 = 0;
    let mut i: usize = lo;
    while i < hi
        invariant
            lo <= i <= hi <= lines@.len(),
            ls == line_views(lines@).subrange(lo as int, hi as int),
            h == stack_before(ls, i - lo),
            12 * (i - lo) <= h <= 22 * (i - lo),
        decreases hi - i,
    {
        proof {
            assert(ls[i - lo] == line_views(lines@)[i as int]);
        }
        h = h + lines[i].1.char_h() as i128 + LINE_GAP as i128;
        i = i + 1;
    }
    h - LINE_GAP as i128
}

} // verus!
