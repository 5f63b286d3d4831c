//! Plain-text renderers for the tool's reports.
//!
//! Each renderer asks for its styled pieces in a fixed order (see the
//! `*_requests` functions) and lays them out (see the `*_text` functions).
//! Without colors a piece is just its (padded) text, so the output is fully
//! determined; with colors each piece is whatever `colored` wrote for it.

use vstd::prelude::*;
use crate::ax::actions::ActionInfo;
use crate::ax::app::AppInfo;
use crate::ax::attributes::{display_bool, AttributeInfo, ElementInfo};
use crate::ax::catalog::{category_label, CatalogCategory, CatalogEntry};
use crate::ax::parameterized::{param_kind_for_attr, param_kind_spec, ParamKind};
use crate::ax::observer::NotificationEvent;
use crate::ax::tree::opt_view;
use crate::output::style::{piece, styled, Style};
use crate::text::{
    byte_len, i64_text, int_text, nat_text, pad_left, pad_left_str, pad_right, pad_right_str,
    push_str, str_eq, u64_text, utf8_len, views,
};

verus! {

/// A request for one styled piece of output.
pub struct Paint {
    pub style: Style,
    pub text: Seq<char>,
    pub width: nat,
}

/// A request for an unpadded piece.
pub open spec fn paint(style: Style, text: Seq<char>) -> Paint {
    Paint { style, text, width: 0 }
}

/// `ps` are the pieces written for the requests `reqs`, in order.
pub open spec fn pieces_ok(use_color: bool, reqs: Seq<Paint>, ps: Seq<Seq<char>>) -> bool {
    &&& ps.len() == reqs.len()
    &&& forall|k: int|
        0 <= k < ps.len() ==> piece(use_color, reqs[k].style, reqs[k].text, reqs[k].width, #[trigger] ps[k])
}

/// The pieces written for the requests when colors are off.
pub open spec fn plain_pieces(reqs: Seq<Paint>) -> Seq<Seq<char>> {
    reqs.map_values(|p: Paint| pad_left(p.text, p.width))
}

/// Without colors, the pieces are determined by the requests.
pub proof fn lemma_plain_pieces(reqs: Seq<Paint>, ps: Seq<Seq<char>>)
    requires
        pieces_ok(false, reqs, ps),
    ensures
        ps == plain_pieces(reqs),
{
    assert(ps =~= plain_pieces(reqs));
}

// ---------------------------------------------------------------------------
// Notifications
// ---------------------------------------------------------------------------

/// ` "title"` when the element has a title.
pub open spec fn title_suffix(title: Option<Seq<char>>) -> Seq<char> {
    match title {
        Some(t) => " \""@ + t + "\""@,
        None => Seq::empty(),
    }
}

/// The pieces of a notification line.
pub open spec fn notification_requests(e: NotificationEvent) -> Seq<Paint> {
    seq![
        paint(Style::Dimmed, ">>"@),
        paint(Style::Yellow, e.notification@),
        paint(Style::Cyan, e.element_role@),
        paint(Style::Green, title_suffix(opt_view(e.element_title))),
    ]
}

/// A notification line laid out from its pieces.
pub open spec fn notification_text(ps: Seq<Seq<char>>) -> Seq<char> {
    ps[0] + " "@ + ps[1] + " "@ + ps[2] + ps[3]
}

/// Format a notification event.
pub fn format_notification(event: &NotificationEvent, use_color: bool) -> (r: String)
    ensures
        exists|ps: Seq<Seq<char>>|
            pieces_ok(use_color, notification_requests(*event), ps) && r@ == notification_text(ps),
        !use_color ==> r@ == notification_text(plain_pieces(notification_requests(*event))),
{
    let mut title_str = String::new();
    if let Some(t) = &event.element_title {
        push_str(&mut title_str, " \"");
        push_str(&mut title_str, t.as_str());
        push_str(&mut title_str, "\"");
    }
    let p0 = styled(use_color, Style::Dimmed, ">>", 0);
    let p1 = styled(use_color, Style::Yellow, event.notification.as_str(), 0);
    let p2 = styled(use_color, Style::Cyan, event.element_role.as_str(), 0);
    let p3 = styled(use_color, Style::Green, title_str.as_str(), 0);
    let mut r = p0;
    push_str(&mut r, " ");
    push_str(&mut r, p1.as_str());
    push_str(&mut r, " ");
    push_str(&mut r, p2.as_str());
    push_str(&mut r, p3.as_str());
    let ghost ps = seq![p0@, p1@, p2@, p3@];
    proof {
        let reqs = notification_requests(*event);
        assert(title_str@ == title_suffix(opt_view(event.element_title)));
        assert(pieces_ok(use_color, reqs, ps));
        assert(r@ == notification_text(ps));
        if !use_color {
            lemma_plain_pieces(reqs, ps);
        }
    }
    r
}


// ---------------------------------------------------------------------------
// Shared pieces
// ---------------------------------------------------------------------------

/// A section header line.
pub open spec fn section_line(p: Seq<char>) -> Seq<char> {
    "── "@ + p + " ──\n"@
}

/// The width `str::len` gives a string: its UTF-8 byte count.
pub open spec fn byte_width(s: Seq<char>) -> nat {
    (utf8_len(s) as usize) as nat
}

/// The largest byte width among the strings, or `dflt` when there are none.
pub open spec fn max_width(ws: Seq<Seq<char>>, dflt: nat) -> nat
    decreases ws.len(),
{
    if ws.len() == 0 {
        dflt
    } else if ws.len() == 1 {
        byte_width(ws[0])
    } else {
        let m = max_width(ws.drop_last(), dflt);
        if byte_width(ws.last()) > m {
            byte_width(ws.last())
        } else {
            m
        }
    }
}

/// The largest byte width among the strings (20 when there are none).
fn max_byte_width(ws: &Vec<String>) -> (r: usize)
    ensures
        r as nat == max_width(views(ws@), 20),
{
    let mut m: usize = 20;
    let mut i: usize = 0;
    while i < ws.len()
        invariant
            i <= ws@.len(),
            (i == 0 ==> m == 20),
            i > 0 ==> m as nat == max_width(views(ws@.subrange(0, i as int)), 20),
        decreases ws.len() - i,
    {
        let w = byte_len(ws[i].as_str());
        let ghost pre = views(ws@.subrange(0, i as int));
        assert(views(ws@.subrange(0, i + 1)) =~= pre.push(ws@[i as int]@));
        assert(views(ws@.subrange(0, i + 1)).drop_last() =~= pre);
        if i == 0 || w > m {
            m = w;
        }
        i = i + 1;
    }
    assert(ws@.subrange(0, ws@.len() as int) =~= ws@);
    m
}

/// A field line of the `inspect` report, laid out from its two pieces.
pub open spec fn field_text(label_p: Seq<char>, value_p: Seq<char>) -> Seq<char> {
    "  "@ + label_p + "  "@ + value_p + "\n"@
}

/// The pieces of a field line.
pub open spec fn field_requests(label: Seq<char>, value: Seq<char>, width: nat) -> Seq<Paint> {
    seq![Paint { style: Style::Dimmed, text: label, width }, paint(Style::Bold, value)]
}

/// Append a labelled field line: the label right-aligned to `width`.
fn format_field(output: &mut String, label: &str, value: &str, width: usize, use_color: bool) -> (ps: Ghost<Seq<Seq<char>>>)
    ensures
        pieces_ok(use_color, field_requests(label@, value@, width as nat), ps@),
        final(output)@ == old(output)@ + field_text(ps@[0], ps@[1]),
{
    let a = styled(use_color, Style::Dimmed, label, width);
    let b = styled(use_color, Style::Bold, value, 0);
    push_str(output, "  ");
    push_str(output, a.as_str());
    push_str(output, "  ");
    push_str(output, b.as_str());
    push_str(output, "\n");
    let ghost ps = seq![a@, b@];
    assert(output@ =~= old(output)@ + field_text(ps[0], ps[1]));
    Ghost(ps)
}

// ---------------------------------------------------------------------------
// Element report (`inspect`, `element-at`)
// ---------------------------------------------------------------------------

/// `[(label, value)]` when the value is present.
pub open spec fn opt_field(label: Seq<char>, value: Option<Seq<char>>) -> Seq<(Seq<char>, Seq<char>)> {
    match value {
        Some(v) => seq![(label, v)],
        None => Seq::empty(),
    }
}

/// The text of a boolean.
pub open spec fn bool_text(b: bool) -> Seq<char> {
    if b {
        "true"@
    } else {
        "false"@
    }
}

/// The basic fields an element report shows, in order, with their values.
pub open spec fn info_fields(info: ElementInfo) -> Seq<(Seq<char>, Seq<char>)> {
    seq![("Role"@, info.role@)] + opt_field("Subrole"@, opt_view(info.subrole)) + opt_field(
        "Title"@,
        opt_view(info.title),
    ) + opt_field("Description"@, opt_view(info.description)) + opt_field(
        "Value"@,
        opt_view(info.value),
    ) + opt_field("Identifier"@, opt_view(info.identifier)) + opt_field(
        "Enabled"@,
        match info.enabled {
            Some(b) => Some(bool_text(b)),
            None => None,
        },
    ) + opt_field(
        "Focused"@,
        match info.focused {
            Some(b) => Some(bool_text(b)),
            None => None,
        },
    ) + opt_field("Position"@, opt_view(info.position)) + opt_field("Size"@, opt_view(info.size))
        + opt_field(
        "Children"@,
        match info.children_count {
            Some(c) => Some(nat_text(c as nat) + " items"@),
            None => None,
        },
    )
}

/// The report's first field is the role, and its `Enabled` and `Focused`
/// fields, when the element has those states, show text that denotes exactly
/// those states.
#[verifier::spinoff_prover]
pub proof fn lemma_report_states_denote_flags(info: ElementInfo)
    ensures
        info_fields(info)[0] == ("Role"@, info.role@),
        info.enabled matches Some(b) ==> exists|k: int|
            0 <= k < info_fields(info).len() && (#[trigger] info_fields(info)[k]).0 == "Enabled"@
                && display_bool(info_fields(info)[k].1) == Some(b),
        info.focused matches Some(b) ==> exists|k: int|
            0 <= k < info_fields(info).len() && (#[trigger] info_fields(info)[k]).0 == "Focused"@
                && display_bool(info_fields(info)[k].1) == Some(b),
{
    reveal_strlit("true");
    reveal_strlit("false");
    reveal_strlit("1");
    reveal_strlit("0");
    assert("true"@.len() == 4 && "false"@.len() == 5 && "1"@.len() == 1 && "0"@.len() == 1);
    lemma_report_split(info);
    let f = info_fields(info);
    let before = fields_before_states(info);
    let e = enabled_field(info);
    let g = focused_field(info);
    assert(f[0] == before[0]);
    if let Some(b) = info.enabled {
        let k = before.len() as int;
        assert(f[k] == e[0]);
    }
    if let Some(b) = info.focused {
        let k = (before.len() + e.len()) as int;
        assert(f[k] == g[0]);
    }
}

/// No field of `fs` carries the label `l`.
pub open spec fn lacks_label(fs: Seq<(Seq<char>, Seq<char>)>, l: Seq<char>) -> bool {
    forall|j: int| 0 <= j < fs.len() ==> (#[trigger] fs[j]).0 != l
}

/// Joining two runs of fields that both lack a label gives a run that lacks it.
proof fn lemma_lacks_label_concat(a: Seq<(Seq<char>, Seq<char>)>, b: Seq<(Seq<char>, Seq<char>)>, l: Seq<char>)
    requires
        lacks_label(a, l),
        lacks_label(b, l),
    ensures
        lacks_label(a + b, l),
{
    assert forall|j: int| 0 <= j < (a + b).len() implies (#[trigger] (a + b)[j]).0 != l by {
        if j < a.len() {
            assert((a + b)[j] == a[j]);
        } else {
            assert((a + b)[j] == b[j - a.len()]);
        }
    }
}

/// The labels of the report that are not `Focused` or `Enabled` differ from
/// both, and those two differ from each other.
proof fn lemma_state_labels_distinct()
    ensures
        "Role"@ != "Focused"@ && "Role"@ != "Enabled"@,
        "Subrole"@ != "Focused"@ && "Subrole"@ != "Enabled"@,
        "Title"@ != "Focused"@ && "Title"@ != "Enabled"@,
        "Description"@ != "Focused"@ && "Description"@ != "Enabled"@,
        "Value"@ != "Focused"@ && "Value"@ != "Enabled"@,
        "Identifier"@ != "Focused"@ && "Identifier"@ != "Enabled"@,
        "Enabled"@ != "Focused"@,
        "Position"@ != "Focused"@ && "Position"@ != "Enabled"@,
        "Size"@ != "Focused"@ && "Size"@ != "Enabled"@,
        "Children"@ != "Focused"@ && "Children"@ != "Enabled"@,
{
    reveal_strlit("Role");
    reveal_strlit("Subrole");
    reveal_strlit("Title");
    reveal_strlit("Description");
    reveal_strlit("Value");
    reveal_strlit("Identifier");
    reveal_strlit("Enabled");
    reveal_strlit("Focused");
    reveal_strlit("Position");
    reveal_strlit("Size");
    reveal_strlit("Children");
    assert("Subrole"@[0] != "Focused"@[0] && "Subrole"@[0] != "Enabled"@[0]);
    assert("Enabled"@[0] != "Focused"@[0]);
}

/// The fields before the `Enabled` one (role, subrole, title, description,
/// value, identifier).
spec fn fields_before_states(info: ElementInfo) -> Seq<(Seq<char>, Seq<char>)> {
    seq![("Role"@, info.role@)] + opt_field("Subrole"@, opt_view(info.subrole)) + opt_field(
        "Title"@,
        opt_view(info.title),
    ) + opt_field("Description"@, opt_view(info.description)) + opt_field(
        "Value"@,
        opt_view(info.value),
    ) + opt_field("Identifier"@, opt_view(info.identifier))
}

/// The fields after the `Focused` one (position, size, children).
spec fn fields_after_states(info: ElementInfo) -> Seq<(Seq<char>, Seq<char>)> {
    opt_field("Position"@, opt_view(info.position)) + opt_field("Size"@, opt_view(info.size))
        + opt_field(
        "Children"@,
        match info.children_count {
            Some(c) => Some(nat_text(c as nat) + " items"@),
            None => None,
        },
    )
}

/// The `Enabled` field, when there is one.
spec fn enabled_field(info: ElementInfo) -> Seq<(Seq<char>, Seq<char>)> {
    opt_field(
        "Enabled"@,
        match info.enabled {
            Some(b) => Some(bool_text(b)),
            None => None,
        },
    )
}

/// The `Focused` field, when there is one.
spec fn focused_field(info: ElementInfo) -> Seq<(Seq<char>, Seq<char>)> {
    opt_field(
        "Focused"@,
        match info.focused {
            Some(b) => Some(bool_text(b)),
            None => None,
        },
    )
}

/// The report's fields split around its two state fields; neither state
/// label occurs in the other parts.
#[verifier::spinoff_prover]
proof fn lemma_report_split(info: ElementInfo)
    ensures
        info_fields(info) == fields_before_states(info) + enabled_field(info) + focused_field(info)
            + fields_after_states(info),
        lacks_label(fields_before_states(info), "Focused"@),
        lacks_label(fields_before_states(info), "Enabled"@),
        lacks_label(fields_after_states(info), "Focused"@),
        lacks_label(fields_after_states(info), "Enabled"@),
        lacks_label(enabled_field(info), "Focused"@),
        lacks_label(focused_field(info), "Enabled"@),
{
    lemma_state_labels_distinct();
    assert(info_fields(info) =~= fields_before_states(info) + enabled_field(info) + focused_field(info)
        + fields_after_states(info));
    let a0 = seq![("Role"@, info.role@)];
    let a1 = opt_field("Subrole"@, opt_view(info.subrole));
    let a2 = opt_field("Title"@, opt_view(info.title));
    let a3 = opt_field("Description"@, opt_view(info.description));
    let a4 = opt_field("Value"@, opt_view(info.value));
    let a5 = opt_field("Identifier"@, opt_view(info.identifier));
    let c0 = opt_field("Position"@, opt_view(info.position));
    let c1 = opt_field("Size"@, opt_view(info.size));
    let c2 = opt_field(
        "Children"@,
        match info.children_count {
            Some(c) => Some(nat_text(c as nat) + " items"@),
            None => None,
        },
    );
    let fo = "Focused"@;
    let en = "Enabled"@;
    assert(lacks_label(a0, fo) && lacks_label(a0, en));
    assert(lacks_label(a1, fo) && lacks_label(a1, en));
    assert(lacks_label(a2, fo) && lacks_label(a2, en));
    assert(lacks_label(a3, fo) && lacks_label(a3, en));
    assert(lacks_label(a4, fo) && lacks_label(a4, en));
    assert(lacks_label(a5, fo) && lacks_label(a5, en));
    assert(lacks_label(c0, fo) && lacks_label(c0, en));
    assert(lacks_label(c1, fo) && lacks_label(c1, en));
    assert(lacks_label(c2, fo) && lacks_label(c2, en));
    assert(lacks_label(enabled_field(info), fo));
    assert(lacks_label(focused_field(info), en));
    lemma_lacks_label_concat(a0, a1, fo);
    lemma_lacks_label_concat(a0 + a1, a2, fo);
    lemma_lacks_label_concat(a0 + a1 + a2, a3, fo);
    lemma_lacks_label_concat(a0 + a1 + a2 + a3, a4, fo);
    lemma_lacks_label_concat(a0 + a1 + a2 + a3 + a4, a5, fo);
    lemma_lacks_label_concat(a0, a1, en);
    lemma_lacks_label_concat(a0 + a1, a2, en);
    lemma_lacks_label_concat(a0 + a1 + a2, a3, en);
    lemma_lacks_label_concat(a0 + a1 + a2 + a3, a4, en);
    lemma_lacks_label_concat(a0 + a1 + a2 + a3 + a4, a5, en);
    lemma_lacks_label_concat(c0, c1, fo);
    lemma_lacks_label_concat(c0 + c1, c2, fo);
    lemma_lacks_label_concat(c0, c1, en);
    lemma_lacks_label_concat(c0 + c1, c2, en);
}

/// Every field labelled `Focused` stands at one index, for an element that
/// has that state, with the text of the state.
#[verifier::spinoff_prover]
proof fn lemma_focused_line(info: ElementInfo) -> (m: int)
    ensures
        forall|k: int|
            0 <= k < info_fields(info).len() && (#[trigger] info_fields(info)[k]).0 == "Focused"@
                ==> k == m && info.focused is Some && info_fields(info)[k].1 == (if info.focused.unwrap() {
                "true"@
            } else {
                "false"@
            }),
{
    lemma_report_split(info);
    let f = info_fields(info);
    let before = fields_before_states(info) + enabled_field(info);
    let g = focused_field(info);
    let after = fields_after_states(info);
    lemma_lacks_label_concat(fields_before_states(info), enabled_field(info), "Focused"@);
    let m = before.len() as int;
    assert forall|k: int| 0 <= k < f.len() && (#[trigger] f[k]).0 == "Focused"@ implies k == m
        && info.focused is Some && f[k].1 == (if info.focused.unwrap() { "true"@ } else { "false"@ }) by {
        if k < m {
            assert(f[k] == before[k]);
        } else if k >= m + g.len() {
            assert(f[k] == after[k - m - g.len()]);
        } else {
            assert(f[k] == g[k - m]);
        }
    }
    m
}

/// Every field labelled `Enabled` stands at one index, for an element that
/// has that state, with the text of the state.
#[verifier::spinoff_prover]
proof fn lemma_enabled_line(info: ElementInfo) -> (m: int)
    ensures
        forall|k: int|
            0 <= k < info_fields(info).len() && (#[trigger] info_fields(info)[k]).0 == "Enabled"@
                ==> k == m && info.enabled is Some && info_fields(info)[k].1 == (if info.enabled.unwrap() {
                "true"@
            } else {
                "false"@
            }),
{
    lemma_report_split(info);
    let f = info_fields(info);
    let before = fields_before_states(info);
    let e = enabled_field(info);
    let after = focused_field(info) + fields_after_states(info);
    lemma_lacks_label_concat(focused_field(info), fields_after_states(info), "Enabled"@);
    let m = before.len() as int;
    assert(f =~= before + e + after);
    assert forall|k: int| 0 <= k < f.len() && (#[trigger] f[k]).0 == "Enabled"@ implies k == m
        && info.enabled is Some && f[k].1 == (if info.enabled.unwrap() { "true"@ } else { "false"@ }) by {
        if k < m {
            assert(f[k] == before[k]);
        } else if k >= m + e.len() {
            assert(f[k] == after[k - m - e.len()]);
        } else {
            assert(f[k] == e[k - m]);
        }
    }
    m
}

/// A field line of the report labelled `Enabled` or `Focused` stands only
/// for an element that has that state, and its text is exactly `true` or
/// `false` as the state is; the report has at most one such line each.
pub proof fn lemma_report_state_lines_exact(info: ElementInfo)
    ensures
        forall|k: int|
            0 <= k < info_fields(info).len() && (#[trigger] info_fields(info)[k]).0 == "Focused"@
                ==> info.focused is Some && info_fields(info)[k].1 == (if info.focused.unwrap() {
                "true"@
            } else {
                "false"@
            }),
        forall|k: int|
            0 <= k < info_fields(info).len() && (#[trigger] info_fields(info)[k]).0 == "Enabled"@
                ==> info.enabled is Some && info_fields(info)[k].1 == (if info.enabled.unwrap() {
                "true"@
            } else {
                "false"@
            }),
        forall|k1: int, k2: int|
            0 <= k1 < info_fields(info).len() && 0 <= k2 < info_fields(info).len()
                && (#[trigger] info_fields(info)[k1]).0 == "Focused"@
                && (#[trigger] info_fields(info)[k2]).0 == "Focused"@ ==> k1 == k2,
        forall|k1: int, k2: int|
            0 <= k1 < info_fields(info).len() && 0 <= k2 < info_fields(info).len()
                && (#[trigger] info_fields(info)[k1]).0 == "Enabled"@
                && (#[trigger] info_fields(info)[k2]).0 == "Enabled"@ ==> k1 == k2,
{
    let mf = lemma_focused_line(info);
    let me = lemma_enabled_line(info);
}

/// The report shows the element's subrole under `Subrole`.
proof fn lemma_report_shows_subrole(info: ElementInfo)
    ensures
        info.subrole matches Some(t) ==> info_fields(info).contains(("Subrole"@, t@)),
{
    if let Some(t) = info.subrole {
        let k = (1) as int;
        assert(info_fields(info)[k] == ("Subrole"@, t@));
    }
}

/// The report shows the element's title under `Title`.
proof fn lemma_report_shows_title(info: ElementInfo)
    ensures
        info.title matches Some(t) ==> info_fields(info).contains(("Title"@, t@)),
{
    if let Some(t) = info.title {
        let k = (1 + opt_field("Subrole"@, opt_view(info.subrole)).len()) as int;
        assert(info_fields(info)[k] == ("Title"@, t@));
    }
}

/// The report shows the element's description under `Description`.
proof fn lemma_report_shows_description(info: ElementInfo)
    ensures
        info.description matches Some(t) ==> info_fields(info).contains(("Description"@, t@)),
{
    if let Some(t) = info.description {
        let k = (1 + opt_field("Subrole"@, opt_view(info.subrole)).len() + opt_field("Title"@, opt_view(info.title)).len()) as int;
        assert(info_fields(info)[k] == ("Description"@, t@));
    }
}

/// The report shows the element's value under `Value`.
proof fn lemma_report_shows_value(info: ElementInfo)
    ensures
        info.value matches Some(t) ==> info_fields(info).contains(("Value"@, t@)),
{
    if let Some(t) = info.value {
        let k = (1 + opt_field("Subrole"@, opt_view(info.subrole)).len() + opt_field("Title"@, opt_view(info.title)).len() + opt_field("Description"@, opt_view(info.description)).len()) as int;
        assert(info_fields(info)[k] == ("Value"@, t@));
    }
}

/// The report shows the element's identifier under `Identifier`.
proof fn lemma_report_shows_identifier(info: ElementInfo)
    ensures
        info.identifier matches Some(t) ==> info_fields(info).contains(("Identifier"@, t@)),
{
    if let Some(t) = info.identifier {
        let k = (1 + opt_field("Subrole"@, opt_view(info.subrole)).len() + opt_field("Title"@, opt_view(info.title)).len() + opt_field("Description"@, opt_view(info.description)).len() + opt_field("Value"@, opt_view(info.value)).len()) as int;
        assert(info_fields(info)[k] == ("Identifier"@, t@));
    }
}

/// The report shows the element's position under `Position`.
proof fn lemma_report_shows_position(info: ElementInfo)
    ensures
        info.position matches Some(t) ==> info_fields(info).contains(("Position"@, t@)),
{
    if let Some(t) = info.position {
        let k = (1 + opt_field("Subrole"@, opt_view(info.subrole)).len() + opt_field("Title"@, opt_view(info.title)).len() + opt_field("Description"@, opt_view(info.description)).len() + opt_field("Value"@, opt_view(info.value)).len() + opt_field("Identifier"@, opt_view(info.identifier)).len() + opt_field("Enabled"@, match info.enabled { Some(b) => Some(bool_text(b)), None => None }).len() + opt_field("Focused"@, match info.focused { Some(b) => Some(bool_text(b)), None => None }).len()) as int;
        assert(info_fields(info)[k] == ("Position"@, t@));
    }
}

/// The report shows the element's size under `Size`.
proof fn lemma_report_shows_size(info: ElementInfo)
    ensures
        info.size matches Some(t) ==> info_fields(info).contains(("Size"@, t@)),
{
    if let Some(t) = info.size {
        let k = (1 + opt_field("Subrole"@, opt_view(info.subrole)).len() + opt_field("Title"@, opt_view(info.title)).len() + opt_field("Description"@, opt_view(info.description)).len() + opt_field("Value"@, opt_view(info.value)).len() + opt_field("Identifier"@, opt_view(info.identifier)).len() + opt_field("Enabled"@, match info.enabled { Some(b) => Some(bool_text(b)), None => None }).len() + opt_field("Focused"@, match info.focused { Some(b) => Some(bool_text(b)), None => None }).len() + opt_field("Position"@, opt_view(info.position)).len()) as int;
        assert(info_fields(info)[k] == ("Size"@, t@));
    }
}

/// Each text the element has (subrole, title, description, value,
/// identifier, position, size) is shown, unchanged, under its label.
pub proof fn lemma_report_shows_texts(info: ElementInfo)
    ensures
        info.subrole matches Some(t) ==> info_fields(info).contains(("Subrole"@, t@)),
        info.title matches Some(t) ==> info_fields(info).contains(("Title"@, t@)),
        info.description matches Some(t) ==> info_fields(info).contains(("Description"@, t@)),
        info.value matches Some(t) ==> info_fields(info).contains(("Value"@, t@)),
        info.identifier matches Some(t) ==> info_fields(info).contains(("Identifier"@, t@)),
        info.position matches Some(t) ==> info_fields(info).contains(("Position"@, t@)),
        info.size matches Some(t) ==> info_fields(info).contains(("Size"@, t@)),
{
    lemma_report_shows_subrole(info);
    lemma_report_shows_title(info);
    lemma_report_shows_description(info);
    lemma_report_shows_value(info);
    lemma_report_shows_identifier(info);
    lemma_report_shows_position(info);
    lemma_report_shows_size(info);
}

/// The pieces of the field lines, two per field.
pub open spec fn fields_requests(fs: Seq<(Seq<char>, Seq<char>)>) -> Seq<Paint>
    decreases fs.len(),
{
    if fs.len() == 0 {
        Seq::empty()
    } else {
        fields_requests(fs.drop_last()) + field_requests(fs.last().0, fs.last().1, 14)
    }
}

/// The field lines laid out from their pieces.
pub open spec fn fields_text(n: nat, ps: Seq<Seq<char>>) -> Seq<char>
    decreases n,
{
    if n == 0 {
        Seq::empty()
    } else {
        fields_text((n - 1) as nat, ps) + field_text(ps[2 * (n - 1)], ps[2 * (n - 1) + 1])
    }
}

/// The attributes `inspect` already shows among the basic fields.
pub open spec fn is_basic_attr(name: Seq<char>) -> bool {
    name == "AXRole"@ || name == "AXSubrole"@ || name == "AXTitle"@ || name == "AXDescription"@
        || name == "AXValue"@ || name == "AXIdentifier"@ || name == "AXEnabled"@ || name
        == "AXFocused"@ || name == "AXPosition"@ || name == "AXSize"@ || name == "AXChildren"@
}

/// The attributes that are not among the basic fields, in order.
pub open spec fn advanced_attrs(attrs: Seq<AttributeInfo>) -> Seq<AttributeInfo>
    decreases attrs.len(),
{
    if attrs.len() == 0 {
        Seq::empty()
    } else {
        let before = advanced_attrs(attrs.drop_last());
        if is_basic_attr(attrs.last().name@) {
            before
        } else {
            before.push(attrs.last())
        }
    }
}

/// The names of the attributes.
pub open spec fn attr_names(attrs: Seq<AttributeInfo>) -> Seq<Seq<char>> {
    attrs.map_values(|a: AttributeInfo| a.name@)
}

/// ` (settable)` for a settable attribute.
pub open spec fn settable_marker(settable: bool) -> Seq<char> {
    if settable {
        " (settable)"@
    } else {
        ""@
    }
}

/// The pieces of the attribute lines: the name right-aligned to `width`,
/// then the settable marker.
pub open spec fn attrs_requests(attrs: Seq<AttributeInfo>, width: nat) -> Seq<Paint>
    decreases attrs.len(),
{
    if attrs.len() == 0 {
        Seq::empty()
    } else {
        attrs_requests(attrs.drop_last(), width) + seq![
            Paint { style: Style::Cyan, text: attrs.last().name@, width },
            paint(Style::Dimmed, settable_marker(attrs.last().settable)),
        ]
    }
}

/// The attribute lines laid out from their pieces.
pub open spec fn attrs_text(attrs: Seq<AttributeInfo>, ps: Seq<Seq<char>>) -> Seq<char>
    decreases attrs.len(),
{
    if attrs.len() == 0 {
        Seq::empty()
    } else {
        let k = attrs.len() - 1;
        attrs_text(attrs.drop_last(), ps) + "  "@ + ps[2 * k] + "  "@ + attrs.last().value@ + ps[2
            * k + 1] + "\n"@
    }
}

/// The pieces of the action lines: one for each description.
pub open spec fn actions_requests(actions: Seq<ActionInfo>) -> Seq<Paint> {
    actions.map_values(|a: ActionInfo| paint(Style::Dimmed, a.description@))
}

/// One action line.
pub open spec fn action_line(use_color: bool, a: ActionInfo, p: Seq<char>) -> Seq<char> {
    if a.description@.len() == 0 {
        "  "@ + a.name@ + "\n"@
    } else if use_color {
        "  "@ + a.name@ + "  "@ + p + "\n"@
    } else {
        "  "@ + a.name@ + "  ("@ + p + ")\n"@
    }
}

/// The action lines laid out from their pieces.
pub open spec fn actions_text(use_color: bool, actions: Seq<ActionInfo>, ps: Seq<Seq<char>>) -> Seq<char>
    decreases actions.len(),
{
    if actions.len() == 0 {
        Seq::empty()
    } else {
        actions_text(use_color, actions.drop_last(), ps) + action_line(
            use_color,
            actions.last(),
            ps[actions.len() - 1],
        )
    }
}

/// The styled pieces of an element report, by part.
pub struct InfoPieces {
    pub sections: Seq<Seq<char>>,
    pub fields: Seq<Seq<char>>,
    pub attrs: Seq<Seq<char>>,
    pub actions: Seq<Seq<char>>,
}

/// The section headers an element report shows.
pub open spec fn info_sections(attrs: Seq<AttributeInfo>, actions: Seq<ActionInfo>) -> Seq<Paint> {
    seq![paint(Style::Bold, "Basic"@)] + (if advanced_attrs(attrs).len() > 0 {
        seq![paint(Style::Bold, "Attributes"@)]
    } else {
        Seq::empty()
    }) + (if actions.len() > 0 {
        seq![paint(Style::Bold, "Actions"@)]
    } else {
        Seq::empty()
    })
}

/// The pieces were written for the requests of an element report.
pub open spec fn info_pieces_ok(
    use_color: bool,
    info: ElementInfo,
    attrs: Seq<AttributeInfo>,
    actions: Seq<ActionInfo>,
    p: InfoPieces,
) -> bool {
    &&& pieces_ok(use_color, info_sections(attrs, actions), p.sections)
    &&& pieces_ok(use_color, fields_requests(info_fields(info)), p.fields)
    &&& pieces_ok(
        use_color,
        attrs_requests(
            advanced_attrs(attrs),
            max_width(attr_names(advanced_attrs(attrs)), 20),
        ),
        p.attrs,
    )
    &&& pieces_ok(use_color, actions_requests(actions), p.actions)
}

/// An element report laid out from its pieces.
pub open spec fn info_text(
    use_color: bool,
    info: ElementInfo,
    attrs: Seq<AttributeInfo>,
    actions: Seq<ActionInfo>,
    p: InfoPieces,
) -> Seq<char> {
    let adv = advanced_attrs(attrs);
    section_line(p.sections[0]) + fields_text(info_fields(info).len(), p.fields) + (if adv.len()
        > 0 {
        "\n"@ + section_line(p.sections[1]) + attrs_text(adv, p.attrs)
    } else {
        Seq::empty()
    }) + (if actions.len() > 0 {
        "\n"@ + section_line(p.sections[p.sections.len() - 1]) + actions_text(
            use_color,
            actions,
            p.actions,
        )
    } else {
        Seq::empty()
    })
}

proof fn lemma_fields_text_stable(n: nat, ps: Seq<Seq<char>>, qs: Seq<Seq<char>>)
    requires
        ps.len() >= 2 * n,
        qs.len() >= 2 * n,
        forall|k: int| 0 <= k < 2 * n ==> ps[k] == qs[k],
    ensures
        fields_text(n, ps) == fields_text(n, qs),
    decreases n,
{
    if n > 0 {
        lemma_fields_text_stable((n - 1) as nat, ps, qs);
    }
}

proof fn lemma_attrs_text_stable(attrs: Seq<AttributeInfo>, ps: Seq<Seq<char>>, qs: Seq<Seq<char>>)
    requires
        ps.len() >= 2 * attrs.len(),
        qs.len() >= 2 * attrs.len(),
        forall|k: int| 0 <= k < 2 * attrs.len() ==> ps[k] == qs[k],
    ensures
        attrs_text(attrs, ps) == attrs_text(attrs, qs),
    decreases attrs.len(),
{
    if attrs.len() > 0 {
        lemma_attrs_text_stable(attrs.drop_last(), ps, qs);
    }
}

proof fn lemma_actions_text_stable(use_color: bool, actions: Seq<ActionInfo>, ps: Seq<Seq<char>>, qs: Seq<Seq<char>>)
    requires
        ps.len() >= actions.len(),
        qs.len() >= actions.len(),
        forall|k: int| 0 <= k < actions.len() ==> ps[k] == qs[k],
    ensures
        actions_text(use_color, actions, ps) == actions_text(use_color, actions, qs),
    decreases actions.len(),
{
    if actions.len() > 0 {
        lemma_actions_text_stable(use_color, actions.drop_last(), ps, qs);
    }
}

/// The views of a list of label/value pairs.
pub open spec fn pair_views(v: Seq<(&'static str, String)>) -> Seq<(Seq<char>, Seq<char>)> {
    v.map_values(|p: (&'static str, String)| (p.0@, p.1@))
}

fn push_field(v: &mut Vec<(&'static str, String)>, label: &'static str, value: &Option<String>)
    ensures
        pair_views(final(v)@) == pair_views(old(v)@) + opt_field(label@, opt_view(*value)),
{
    let ghost before = v@;
    if let Some(x) = value {
        v.push((label, x.clone()));
        assert(pair_views(v@) =~= pair_views(before) + opt_field(label@, opt_view(*value)));
    } else {
        assert(pair_views(v@) =~= pair_views(before) + opt_field(label@, opt_view(*value)));
    }
}

fn bool_string(b: bool) -> (r: String)
    ensures
        r@ == bool_text(b),
{
    if b {
        "true".to_string()
    } else {
        "false".to_string()
    }
}

/// The basic fields an element report shows, with their values.
fn info_field_list(info: &ElementInfo) -> (r: Vec<(&'static str, String)>)
    ensures
        pair_views(r@) == info_fields(*info),
{
    let mut v: Vec<(&'static str, String)> = Vec::new();
    v.push(("Role", info.role.clone()));
    assert(pair_views(v@) =~= seq![("Role"@, info.role@)]);
    push_field(&mut v, "Subrole", &info.subrole);
    push_field(&mut v, "Title", &info.title);
    push_field(&mut v, "Description", &info.description);
    push_field(&mut v, "Value", &info.value);
    push_field(&mut v, "Identifier", &info.identifier);
    let enabled = match info.enabled {
        Some(b) => Some(bool_string(b)),
        None => None,
    };
    push_field(&mut v, "Enabled", &enabled);
    let focused = match info.focused {
        Some(b) => Some(bool_string(b)),
        None => None,
    };
    push_field(&mut v, "Focused", &focused);
    push_field(&mut v, "Position", &info.position);
    push_field(&mut v, "Size", &info.size);
    let children = match info.children_count {
        Some(c) => {
            let mut t = u64_text(c as u64);
            push_str(&mut t, " items");
            Some(t)
        },
        None => None,
    };
    push_field(&mut v, "Children", &children);
    v
}

/// Whether an attribute is among the basic fields.
fn is_basic_attr_name(name: &str) -> (r: bool)
    ensures
        r == is_basic_attr(name@),
{
    str_eq(name, "AXRole") || str_eq(name, "AXSubrole") || str_eq(name, "AXTitle") || str_eq(
        name,
        "AXDescription",
    ) || str_eq(name, "AXValue") || str_eq(name, "AXIdentifier") || str_eq(name, "AXEnabled")
        || str_eq(name, "AXFocused") || str_eq(name, "AXPosition") || str_eq(name, "AXSize")
        || str_eq(name, "AXChildren")
}

/// Append the basic field lines.
fn push_info_fields(output: &mut String, info: &ElementInfo, use_color: bool) -> (ps: Ghost<Seq<Seq<char>>>)
    ensures
        pieces_ok(use_color, fields_requests(info_fields(*info)), ps@),
        final(output)@ == old(output)@ + fields_text(info_fields(*info).len(), ps@),
{
    let ghost head = output@;
    let fields = info_field_list(info);
    let ghost fl = pair_views(fields@);
    let ghost mut fps: Seq<Seq<char>> = Seq::empty();
    let mut i: usize = 0;
    while i < fields.len()
        invariant
            fl == pair_views(fields@),
            i <= fields@.len(),
            fps.len() == 2 * i,
            pieces_ok(use_color, fields_requests(fl.take(i as int)), fps),
            output@ == head + fields_text(i as nat, fps),
        decreases fields.len() - i,
    {
        let ghost old_fps = fps;
        assert(fl.take(i + 1).drop_last() =~= fl.take(i as int));
        assert(fl.take(i + 1).last() == fl[i as int]);
        let ps = format_field(output, fields[i].0, fields[i].1.as_str(), 14, use_color);
        proof {
            fps = fps + ps@;
            lemma_fields_text_stable(i as nat, old_fps, fps);
            assert(fps[2 * i as int] == ps@[0]);
            assert(fps[2 * i + 1] == ps@[1]);
            let reqs = fields_requests(fl.take(i + 1));
            assert forall|k: int| 0 <= k < fps.len() implies piece(
                use_color,
                reqs[k].style,
                reqs[k].text,
                reqs[k].width,
                #[trigger] fps[k],
            ) by {
                if k < 2 * i {
                    assert(fps[k] == old_fps[k]);
                } else {
                    assert(fps[k] == ps@[k - 2 * i]);
                }
            }
        }
        i = i + 1;
    }
    assert(fl.take(fields@.len() as int) =~= fl);
    Ghost(fps)
}

/// The positions and names of the attributes not among the basic fields.
fn advanced_positions(attrs: &Vec<AttributeInfo>) -> (r: (Vec<usize>, Vec<String>))
    ensures
        r.0@.len() == advanced_attrs(attrs@).len(),
        forall|k: int| 0 <= k < r.0@.len() ==> (#[trigger] r.0@[k]) < attrs@.len() && attrs@[r.0@[k] as int] == advanced_attrs(attrs@)[k],
        views(r.1@) == attr_names(advanced_attrs(attrs@)),
{
    let mut adv: Vec<usize> = Vec::new();
    let mut adv_names: Vec<String> = Vec::new();
    let mut j: usize = 0;
    while j < attrs.len()
        invariant
            j <= attrs@.len(),
            adv@.len() == advanced_attrs(attrs@.take(j as int)).len(),
            adv_names@.len() == adv@.len(),
            forall|k: int| 0 <= k < adv@.len() ==> (#[trigger] adv@[k]) < attrs@.len() && attrs@[adv@[k] as int] == advanced_attrs(attrs@.take(j as int))[k],
            views(adv_names@) == attr_names(advanced_attrs(attrs@.take(j as int))),
        decreases attrs.len() - j,
    {
        let ghost pre = advanced_attrs(attrs@.take(j as int));
        assert(attrs@.take(j + 1).drop_last() =~= attrs@.take(j as int));
        assert(attrs@.take(j + 1).last() == attrs@[j as int]);
        if !is_basic_attr_name(attrs[j].name.as_str()) {
            let ghost names0 = adv_names@;
            adv.push(j);
            adv_names.push(attrs[j].name.clone());
            assert(views(adv_names@) =~= attr_names(advanced_attrs(attrs@.take(j + 1)))) by {
                assert forall|k: int| 0 <= k < names0.len() implies views(adv_names@)[k] == attr_names(pre.push(attrs@[j as int]))[k] by {
                    assert(views(names0)[k] == attr_names(pre)[k]);
                    assert(adv_names@[k] == names0[k]);
                }
            }
        }
        j = j + 1;
    }
    assert(attrs@.take(attrs@.len() as int) =~= attrs@);
    (adv, adv_names)
}

/// Append the lines of the given attributes, names right-aligned to `width`.
fn push_attr_lines(
    output: &mut String,
    attrs: &Vec<AttributeInfo>,
    adv: &Vec<usize>,
    sel: Ghost<Seq<AttributeInfo>>,
    width: usize,
    use_color: bool,
) -> (ps: Ghost<Seq<Seq<char>>>)
    requires
        adv@.len() == sel@.len(),
        forall|m: int| 0 <= m < adv@.len() ==> (#[trigger] adv@[m]) < attrs@.len() && attrs@[adv@[m] as int] == sel@[m],
    ensures
        pieces_ok(use_color, attrs_requests(sel@, width as nat), ps@),
        final(output)@ == old(output)@ + attrs_text(sel@, ps@),
{
    let ghost head = output@;
    let ghost mut aps: Seq<Seq<char>> = Seq::empty();
    let mut k: usize = 0;
    while k < adv.len()
        invariant
            k <= adv@.len(),
            adv@.len() == sel@.len(),
            forall|m: int| 0 <= m < adv@.len() ==> (#[trigger] adv@[m]) < attrs@.len() && attrs@[adv@[m] as int] == sel@[m],
            aps.len() == 2 * k,
            pieces_ok(use_color, attrs_requests(sel@.take(k as int), width as nat), aps),
            output@ == head + attrs_text(sel@.take(k as int), aps),
        decreases adv.len() - k,
    {
        let a = &attrs[adv[k]];
        let p0 = styled(use_color, Style::Cyan, a.name.as_str(), width);
        let marker = if a.settable {
            " (settable)"
        } else {
            ""
        };
        let p1 = styled(use_color, Style::Dimmed, marker, 0);
        push_str(output, "  ");
        push_str(output, p0.as_str());
        push_str(output, "  ");
        push_str(output, a.value.as_str());
        push_str(output, p1.as_str());
        push_str(output, "\n");
        let ghost old_aps = aps;
        proof {
            aps = aps.push(p0@).push(p1@);
            assert(sel@.take(k + 1).drop_last() =~= sel@.take(k as int));
            assert(sel@.take(k + 1).last() == sel@[k as int]);
            lemma_attrs_text_stable(sel@.take(k as int), old_aps, aps);
            assert(marker@ == settable_marker(a.settable));
            let reqs = attrs_requests(sel@.take(k + 1), width as nat);
            assert forall|m: int| 0 <= m < aps.len() implies piece(
                use_color,
                reqs[m].style,
                reqs[m].text,
                reqs[m].width,
                #[trigger] aps[m],
            ) by {
                if m < 2 * k {
                    assert(aps[m] == old_aps[m]);
                }
            }
        }
        k = k + 1;
    }
    assert(sel@.take(adv@.len() as int) =~= sel@);
    Ghost(aps)
}

/// Append the action lines.
#[verifier::spinoff_prover]
#[verifier::rlimit(30)]
fn push_action_lines(output: &mut String, actions: &Vec<ActionInfo>, use_color: bool) -> (ps: Ghost<Seq<Seq<char>>>)
    ensures
        pieces_ok(use_color, actions_requests(actions@), ps@),
        final(output)@ == old(output)@ + actions_text(use_color, actions@, ps@),
{
    let ghost head = output@;
    let ghost mut cps: Seq<Seq<char>> = Seq::empty();
    let mut k: usize = 0;
    while k < actions.len()
        invariant
            k <= actions@.len(),
            cps.len() == k,
            pieces_ok(use_color, actions_requests(actions@.take(k as int)), cps),
            output@ == head + actions_text(use_color, actions@.take(k as int), cps),
        decreases actions.len() - k,
    {
        let action = &actions[k];
        let p = styled(use_color, Style::Dimmed, action.description.as_str(), 0);
        let empty = action.description.unicode_len() == 0;
        if empty {
            push_str(output, "  ");
            push_str(output, action.name.as_str());
            push_str(output, "\n");
        } else if use_color {
            push_str(output, "  ");
            push_str(output, action.name.as_str());
            push_str(output, "  ");
            push_str(output, p.as_str());
            push_str(output, "\n");
        } else {
            push_str(output, "  ");
            push_str(output, action.name.as_str());
            push_str(output, "  (");
            push_str(output, p.as_str());
            push_str(output, ")\n");
        }
        let ghost old_cps = cps;
        proof {
            cps = cps.push(p@);
            assert(actions@.take(k + 1).drop_last() =~= actions@.take(k as int));
            assert(actions@.take(k + 1).last() == actions@[k as int]);
            lemma_actions_text_stable(use_color, actions@.take(k as int), old_cps, cps);
            let reqs = actions_requests(actions@.take(k + 1));
            assert forall|m: int| 0 <= m < cps.len() implies piece(
                use_color,
                reqs[m].style,
                reqs[m].text,
                reqs[m].width,
                #[trigger] cps[m],
            ) by {
                if m < k {
                    assert(cps[m] == old_cps[m]);
                }
            }
        }
        k = k + 1;
    }
    assert(actions@.take(actions@.len() as int) =~= actions@);
    Ghost(cps)
}

/// Append a section header line.
fn push_section(output: &mut String, title: &str, use_color: bool) -> (p: Ghost<Seq<char>>)
    ensures
        piece(use_color, Style::Bold, title@, 0, p@),
        final(output)@ == old(output)@ + section_line(p@),
{
    let sec = styled(use_color, Style::Bold, title, 0);
    push_str(output, "── ");
    push_str(output, sec.as_str());
    push_str(output, " ──\n");
    assert(output@ =~= old(output)@ + section_line(sec@));
    Ghost(sec@)
}

/// Format element info for inspect output.
#[verifier::spinoff_prover]
pub fn format_element_info(
    info: &ElementInfo,
    attrs: &Vec<AttributeInfo>,
    actions: &Vec<ActionInfo>,
    use_color: bool,
) -> (r: String)
    ensures
        exists|p: InfoPieces|
            info_pieces_ok(use_color, *info, attrs@, actions@, p) && r@ == info_text(
                use_color,
                *info,
                attrs@,
                actions@,
                p,
            ),
        !use_color ==> r@ == info_text(
            false,
            *info,
            attrs@,
            actions@,
            info_plain_pieces(*info, attrs@, actions@),
        ),
{
    let mut output = String::new();
    let s0 = push_section(&mut output, "Basic", use_color);
    let fps = push_info_fields(&mut output, info, use_color);
    let ghost t1 = output@;
    let (adv, adv_names) = advanced_positions(attrs);
    let ghost adv_spec = advanced_attrs(attrs@);
    let ghost width = max_width(attr_names(adv_spec), 20);
    let ghost mut secs: Seq<Seq<char>> = seq![s0@];
    let ghost mut aps: Seq<Seq<char>> = Seq::empty();
    if adv.len() > 0 {
        push_str(&mut output, "\n");
        let s1 = push_section(&mut output, "Attributes", use_color);
        let name_width = max_byte_width(&adv_names);
        let ps = push_attr_lines(&mut output, attrs, &adv, Ghost(adv_spec), name_width, use_color);
        proof {
            secs = secs.push(s1@);
            aps = ps@;
        }
    } else {
        assert(attrs_requests(adv_spec, width) =~= Seq::<Paint>::empty());
    }
    let ghost t2 = output@;
    let ghost mut cps: Seq<Seq<char>> = Seq::empty();
    if actions.len() > 0 {
        push_str(&mut output, "\n");
        let s2 = push_section(&mut output, "Actions", use_color);
        let ps = push_action_lines(&mut output, actions, use_color);
        proof {
            secs = secs.push(s2@);
            cps = ps@;
        }
    } else {
        assert(actions_requests(actions@) =~= Seq::<Paint>::empty());
    }
    let ghost p = InfoPieces { sections: secs, fields: fps@, attrs: aps, actions: cps };
    proof {
        let sreqs = info_sections(attrs@, actions@);
        assert(pieces_ok(use_color, sreqs, secs));
        assert(info_pieces_ok(use_color, *info, attrs@, actions@, p));
        assert(output@ =~= info_text(use_color, *info, attrs@, actions@, p));
        if !use_color {
            lemma_info_plain(*info, attrs@, actions@, p);
        }
    }
    output
}

/// The pieces of an element report when colors are off.
pub open spec fn info_plain_pieces(info: ElementInfo, attrs: Seq<AttributeInfo>, actions: Seq<ActionInfo>) -> InfoPieces {
    InfoPieces {
        sections: plain_pieces(info_sections(attrs, actions)),
        fields: plain_pieces(fields_requests(info_fields(info))),
        attrs: plain_pieces(
            attrs_requests(advanced_attrs(attrs), max_width(attr_names(advanced_attrs(attrs)), 20)),
        ),
        actions: plain_pieces(actions_requests(actions)),
    }
}

/// Without colors the element report is determined by its inputs.
pub proof fn lemma_info_plain(
    info: ElementInfo,
    attrs: Seq<AttributeInfo>,
    actions: Seq<ActionInfo>,
    p: InfoPieces,
)
    requires
        info_pieces_ok(false, info, attrs, actions, p),
    ensures
        p == info_plain_pieces(info, attrs, actions),
{
    lemma_plain_pieces(info_sections(attrs, actions), p.sections);
    lemma_plain_pieces(fields_requests(info_fields(info)), p.fields);
    lemma_plain_pieces(
        attrs_requests(advanced_attrs(attrs), max_width(attr_names(advanced_attrs(attrs)), 20)),
        p.attrs,
    );
    lemma_plain_pieces(actions_requests(actions), p.actions);
}

// ---------------------------------------------------------------------------
// Attribute list (`attrs`)
// ---------------------------------------------------------------------------

/// The attribute list laid out from its pieces.
pub open spec fn attributes_text(attrs: Seq<AttributeInfo>, ps: Seq<Seq<char>>) -> Seq<char> {
    if attrs.len() == 0 {
        "No attributes found.\n"@
    } else {
        attrs_text(attrs, ps)
    }
}

/// The pieces of the attribute list.
pub open spec fn attributes_requests(attrs: Seq<AttributeInfo>) -> Seq<Paint> {
    attrs_requests(attrs, max_width(attr_names(attrs), 20))
}

/// Format all attributes as a key-value list.
pub fn format_attributes(attrs: &Vec<AttributeInfo>, use_color: bool) -> (r: String)
    ensures
        exists|ps: Seq<Seq<char>>|
            pieces_ok(use_color, attributes_requests(attrs@), ps) && r@ == attributes_text(
                attrs@,
                ps,
            ),
        !use_color ==> r@ == attributes_text(attrs@, plain_pieces(attributes_requests(attrs@))),
{
    if attrs.len() == 0 {
        let r = "No attributes found.\n".to_string();
        proof {
            let ps = Seq::<Seq<char>>::empty();
            assert(attributes_requests(attrs@) =~= Seq::<Paint>::empty());
            assert(pieces_ok(use_color, attributes_requests(attrs@), ps));
            assert(r@ == attributes_text(attrs@, ps));
            assert(plain_pieces(attributes_requests(attrs@)) =~= ps);
        }
        return r;
    }
    let mut names: Vec<String> = Vec::new();
    let mut idx: Vec<usize> = Vec::new();
    let mut j: usize = 0;
    while j < attrs.len()
        invariant
            j <= attrs@.len(),
            names@.len() == j,
            idx@.len() == j,
            forall|k: int| 0 <= k < j ==> #[trigger] idx@[k] == k,
            views(names@) == attr_names(attrs@.take(j as int)),
        decreases attrs.len() - j,
    {
        let ghost names0 = names@;
        names.push(attrs[j].name.clone());
        idx.push(j);
        assert(views(names@) =~= attr_names(attrs@.take(j + 1))) by {
            assert forall|k: int| 0 <= k < j implies views(names@)[k] == attr_names(attrs@.take(j + 1))[k] by {
                assert(views(names0)[k] == attr_names(attrs@.take(j as int))[k]);
                assert(names@[k] == names0[k]);
            }
        }
        j = j + 1;
    }
    assert(attrs@.take(attrs@.len() as int) =~= attrs@);
    let width = max_byte_width(&names);
    let mut output = String::new();
    let ps = push_attr_lines(&mut output, attrs, &idx, Ghost(attrs@), width, use_color);
    proof {
        assert(output@ =~= attributes_text(attrs@, ps@));
        if !use_color {
            lemma_plain_pieces(attributes_requests(attrs@), ps@);
        }
    }
    output
}

// ---------------------------------------------------------------------------
// One-line results
// ---------------------------------------------------------------------------

/// The text shown for a missing value.
pub open spec fn or_default(v: Option<Seq<char>>, dflt: Seq<char>) -> Seq<char> {
    match v {
        Some(x) => x,
        None => dflt,
    }
}

fn or_default_str<'a>(v: Option<&'a str>, dflt: &'a str) -> (r: &'a str)
    ensures
        r@ == or_default(
            match v {
                Some(x) => Some(x@),
                None => None,
            },
            dflt@,
        ),
{
    match v {
        Some(x) => x,
        None => dflt,
    }
}

/// The view of an optional string slice.
pub open spec fn opt_str(v: Option<&str>) -> Option<Seq<char>> {
    match v {
        Some(x) => Some(x@),
        None => None,
    }
}

/// The pieces of the result of `ax set`.
pub open spec fn set_requests(attribute: Seq<char>, before: Option<Seq<char>>, after: Option<Seq<char>>) -> Seq<Paint> {
    seq![
        paint(Style::GreenBold, "Set"@),
        paint(Style::Cyan, attribute),
        paint(Style::Dimmed, or_default(before, "<no value>"@)),
        paint(Style::Bold, or_default(after, "<no value>"@)),
    ]
}

/// The result of `ax set` laid out from its pieces.
pub open spec fn set_text(use_color: bool, ps: Seq<Seq<char>>) -> Seq<char> {
    if use_color {
        ps[0] + " "@ + ps[1] + " "@ + ps[2] + " → "@ + ps[3]
    } else {
        ps[0] + " "@ + ps[1] + "  "@ + ps[2] + " → "@ + ps[3]
    }
}

/// Format the result of `ax set`.
pub fn format_set_result(attribute: &str, before: Option<&str>, after: Option<&str>, use_color: bool) -> (r: String)
    ensures
        exists|ps: Seq<Seq<char>>|
            pieces_ok(use_color, set_requests(attribute@, opt_str(before), opt_str(after)), ps)
                && r@ == set_text(use_color, ps),
        !use_color ==> r@ == set_text(
            false,
            plain_pieces(set_requests(attribute@, opt_str(before), opt_str(after))),
        ),
{
    let before_str = or_default_str(before, "<no value>");
    let after_str = or_default_str(after, "<no value>");
    let p0 = styled(use_color, Style::GreenBold, "Set", 0);
    let p1 = styled(use_color, Style::Cyan, attribute, 0);
    let p2 = styled(use_color, Style::Dimmed, before_str, 0);
    let p3 = styled(use_color, Style::Bold, after_str, 0);
    let mut r = p0;
    push_str(&mut r, " ");
    push_str(&mut r, p1.as_str());
    if use_color {
        push_str(&mut r, " ");
    } else {
        push_str(&mut r, "  ");
    }
    push_str(&mut r, p2.as_str());
    push_str(&mut r, " → ");
    push_str(&mut r, p3.as_str());
    let ghost ps = seq![p0@, p1@, p2@, p3@];
    proof {
        let reqs = set_requests(attribute@, opt_str(before), opt_str(after));
        assert(pieces_ok(use_color, reqs, ps));
        assert(r@ == set_text(use_color, ps));
        if !use_color {
            lemma_plain_pieces(reqs, ps);
        }
    }
    r
}

/// What an action or focus result names: the role, with the title when
/// there is a non-empty one.
pub open spec fn target_text(role: Seq<char>, title: Option<Seq<char>>) -> Seq<char> {
    match title {
        Some(t) => if t.len() > 0 {
            role + " \""@ + t + "\""@
        } else {
            role
        },
        None => role,
    }
}

fn target_string(role: &str, title: Option<&str>) -> (r: String)
    ensures
        r@ == target_text(role@, opt_str(title)),
{
    match title {
        Some(t) => {
            if t.unicode_len() > 0 {
                let mut r = role.to_string();
                push_str(&mut r, " \"");
                push_str(&mut r, t);
                push_str(&mut r, "\"");
                r
            } else {
                role.to_string()
            }
        },
        None => role.to_string(),
    }
}

/// The pieces of the result of `ax click`.
pub open spec fn action_requests(action: Seq<char>, role: Seq<char>, title: Option<Seq<char>>) -> Seq<Paint> {
    seq![
        paint(Style::GreenBold, "Performed"@),
        paint(Style::Cyan, action),
        paint(Style::Bold, target_text(role, title)),
    ]
}

/// The result of `ax click` laid out from its pieces.
pub open spec fn action_text(ps: Seq<Seq<char>>) -> Seq<char> {
    ps[0] + " "@ + ps[1] + " on "@ + ps[2]
}

/// Format the result of `ax click`.
pub fn format_action_result(action: &str, role: &str, title: Option<&str>, use_color: bool) -> (r: String)
    ensures
        exists|ps: Seq<Seq<char>>|
            pieces_ok(use_color, action_requests(action@, role@, opt_str(title)), ps) && r@
                == action_text(ps),
        !use_color ==> r@ == action_text(plain_pieces(action_requests(action@, role@, opt_str(title)))),
{
    let target = target_string(role, title);
    let p0 = styled(use_color, Style::GreenBold, "Performed", 0);
    let p1 = styled(use_color, Style::Cyan, action, 0);
    let p2 = styled(use_color, Style::Bold, target.as_str(), 0);
    let mut r = p0;
    push_str(&mut r, " ");
    push_str(&mut r, p1.as_str());
    push_str(&mut r, " on ");
    push_str(&mut r, p2.as_str());
    let ghost ps = seq![p0@, p1@, p2@];
    proof {
        let reqs = action_requests(action@, role@, opt_str(title));
        assert(pieces_ok(use_color, reqs, ps));
        assert(r@ == action_text(ps));
        if !use_color {
            lemma_plain_pieces(reqs, ps);
        }
    }
    r
}

/// The pieces of the result of `ax focus`.
pub open spec fn focus_requests(role: Seq<char>, title: Option<Seq<char>>, verified: bool) -> Seq<Paint> {
    seq![
        paint(
            Style::GreenBold,
            if verified {
                "Focused"@
            } else {
                "Focus sent (unverified)"@
            },
        ),
        paint(Style::Bold, target_text(role, title)),
    ]
}

/// The result of `ax focus` laid out from its pieces.
pub open spec fn focus_text(ps: Seq<Seq<char>>) -> Seq<char> {
    ps[0] + " "@ + ps[1]
}

/// Format the result of `ax focus`.
pub fn format_focus_result(role: &str, title: Option<&str>, verified: bool, use_color: bool) -> (r: String)
    ensures
        exists|ps: Seq<Seq<char>>|
            pieces_ok(use_color, focus_requests(role@, opt_str(title), verified), ps) && r@
                == focus_text(ps),
        !use_color ==> r@ == focus_text(plain_pieces(focus_requests(role@, opt_str(title), verified))),
{
    let target = target_string(role, title);
    let status = if verified {
        "Focused"
    } else {
        "Focus sent (unverified)"
    };
    let p0 = styled(use_color, Style::GreenBold, status, 0);
    let p1 = styled(use_color, Style::Bold, target.as_str(), 0);
    let mut r = p0;
    push_str(&mut r, " ");
    push_str(&mut r, p1.as_str());
    let ghost ps = seq![p0@, p1@];
    proof {
        let reqs = focus_requests(role@, opt_str(title), verified);
        assert(pieces_ok(use_color, reqs, ps));
        assert(r@ == focus_text(ps));
        if !use_color {
            lemma_plain_pieces(reqs, ps);
        }
    }
    r
}

/// The pieces of the result of `ax type`.
pub open spec fn type_requests(role: Seq<char>, before: Option<Seq<char>>, after: Option<Seq<char>>) -> Seq<Paint> {
    seq![
        paint(Style::GreenBold, "Typed"@),
        paint(Style::Cyan, role),
        paint(Style::Dimmed, or_default(before, "<empty>"@)),
        paint(Style::Bold, or_default(after, "<empty>"@)),
    ]
}

/// The result of `ax type` laid out from its pieces.
pub open spec fn type_text(use_color: bool, ps: Seq<Seq<char>>) -> Seq<char> {
    if use_color {
        ps[0] + " into "@ + ps[1] + " "@ + ps[2] + " → "@ + ps[3]
    } else {
        ps[0] + " into "@ + ps[1] + "  "@ + ps[2] + " → "@ + ps[3]
    }
}

/// Format the result of `ax type`.
pub fn format_type_result(role: &str, before: Option<&str>, after: Option<&str>, use_color: bool) -> (r: String)
    ensures
        exists|ps: Seq<Seq<char>>|
            pieces_ok(use_color, type_requests(role@, opt_str(before), opt_str(after)), ps) && r@
                == type_text(use_color, ps),
        !use_color ==> r@ == type_text(
            false,
            plain_pieces(type_requests(role@, opt_str(before), opt_str(after))),
        ),
{
    let before_str = or_default_str(before, "<empty>");
    let after_str = or_default_str(after, "<empty>");
    let p0 = styled(use_color, Style::GreenBold, "Typed", 0);
    let p1 = styled(use_color, Style::Cyan, role, 0);
    let p2 = styled(use_color, Style::Dimmed, before_str, 0);
    let p3 = styled(use_color, Style::Bold, after_str, 0);
    let mut r = p0;
    push_str(&mut r, " into ");
    push_str(&mut r, p1.as_str());
    if use_color {
        push_str(&mut r, " ");
    } else {
        push_str(&mut r, "  ");
    }
    push_str(&mut r, p2.as_str());
    push_str(&mut r, " → ");
    push_str(&mut r, p3.as_str());
    let ghost ps = seq![p0@, p1@, p2@, p3@];
    proof {
        let reqs = type_requests(role@, opt_str(before), opt_str(after));
        assert(pieces_ok(use_color, reqs, ps));
        assert(r@ == type_text(use_color, ps));
        if !use_color {
            lemma_plain_pieces(reqs, ps);
        }
    }
    r
}

// ---------------------------------------------------------------------------
// Application table (`list`)
// ---------------------------------------------------------------------------

/// The names of the applications.
pub open spec fn app_list_names(apps: Seq<AppInfo>) -> Seq<Seq<char>> {
    apps.map_values(|a: AppInfo| a.name@)
}

/// The width of the name column: the longest name in bytes, at least 4.
pub open spec fn name_column(apps: Seq<AppInfo>) -> nat {
    let m = max_width(app_list_names(apps), 20);
    if m > 4 {
        m
    } else {
        4
    }
}

/// The header line of the application table.
pub open spec fn app_header(width: nat) -> Seq<char> {
    pad_right("NAME"@, width) + "  "@ + pad_left("PID"@, 7) + "  "@ + "BUNDLE ID"@
}

/// The rows of the application table.
pub open spec fn app_rows(apps: Seq<AppInfo>, width: nat) -> Seq<char>
    decreases apps.len(),
{
    if apps.len() == 0 {
        Seq::empty()
    } else {
        let a = apps.last();
        app_rows(apps.drop_last(), width) + pad_right(a.name@, width) + "  "@ + pad_left(
            int_text(a.pid as int),
            7,
        ) + "  "@ + a.bundle_id@ + "\n"@
    }
}

/// The pieces of the application table.
pub open spec fn app_list_requests(apps: Seq<AppInfo>) -> Seq<Paint> {
    if apps.len() == 0 {
        Seq::empty()
    } else {
        seq![paint(Style::Bold, app_header(name_column(apps)))]
    }
}

/// The application table laid out from its pieces.
pub open spec fn app_list_text(apps: Seq<AppInfo>, ps: Seq<Seq<char>>) -> Seq<char> {
    if apps.len() == 0 {
        "No applications found."@
    } else {
        ps[0] + "\n"@ + app_rows(apps, name_column(apps))
    }
}

/// Format app list as a table.
#[verifier::spinoff_prover]
#[verifier::rlimit(30)]
pub fn format_app_list(apps: &Vec<AppInfo>, use_color: bool) -> (r: String)
    ensures
        exists|ps: Seq<Seq<char>>|
            pieces_ok(use_color, app_list_requests(apps@), ps) && r@ == app_list_text(apps@, ps),
        !use_color ==> r@ == app_list_text(apps@, plain_pieces(app_list_requests(apps@))),
{
    if apps.len() == 0 {
        let r = "No applications found.".to_string();
        proof {
            let ps = Seq::<Seq<char>>::empty();
            assert(pieces_ok(use_color, app_list_requests(apps@), ps));
            assert(r@ == app_list_text(apps@, ps));
            assert(plain_pieces(app_list_requests(apps@)) =~= ps);
        }
        return r;
    }
    let mut names: Vec<String> = Vec::new();
    let mut j: usize = 0;
    while j < apps.len()
        invariant
            j <= apps@.len(),
            names@.len() == j,
            views(names@) == app_list_names(apps@.take(j as int)),
        decreases apps.len() - j,
    {
        let ghost names0 = names@;
        names.push(apps[j].name.clone());
        assert(views(names@) =~= app_list_names(apps@.take(j + 1))) by {
            assert forall|k: int| 0 <= k < j implies views(names@)[k] == app_list_names(apps@.take(j + 1))[k] by {
                assert(views(names0)[k] == app_list_names(apps@.take(j as int))[k]);
                assert(names@[k] == names0[k]);
            }
        }
        j = j + 1;
    }
    assert(apps@.take(apps@.len() as int) =~= apps@);
    let m = max_byte_width(&names);
    let name_width = if m > 4 {
        m
    } else {
        4
    };
    let mut header = pad_right_str("NAME", name_width);
    push_str(&mut header, "  ");
    let pid_col = pad_left_str("PID", 7);
    push_str(&mut header, pid_col.as_str());
    push_str(&mut header, "  ");
    push_str(&mut header, "BUNDLE ID");
    let p0 = styled(use_color, Style::Bold, header.as_str(), 0);
    let mut output = p0;
    push_str(&mut output, "\n");
    let ghost head = output@;
    let mut i: usize = 0;
    while i < apps.len()
        invariant
            i <= apps@.len(),
            name_width as nat == name_column(apps@),
            output@ == head + app_rows(apps@.take(i as int), name_width as nat),
        decreases apps.len() - i,
    {
        let a = &apps[i];
        let name_col = pad_right_str(a.name.as_str(), name_width);
        let pid_text = i64_text(a.pid as i64);
        let pid_col = pad_left_str(pid_text.as_str(), 7);
        push_str(&mut output, name_col.as_str());
        push_str(&mut output, "  ");
        push_str(&mut output, pid_col.as_str());
        push_str(&mut output, "  ");
        push_str(&mut output, a.bundle_id.as_str());
        push_str(&mut output, "\n");
        assert(apps@.take(i + 1).drop_last() =~= apps@.take(i as int));
        assert(apps@.take(i + 1).last() == apps@[i as int]);
        i = i + 1;
    }
    assert(apps@.take(apps@.len() as int) =~= apps@);
    let ghost ps = seq![p0@];
    proof {
        assert(pieces_ok(use_color, app_list_requests(apps@), ps));
        assert(output@ == app_list_text(apps@, ps));
        if !use_color {
            lemma_plain_pieces(app_list_requests(apps@), ps);
        }
    }
    output
}
// ---------------------------------------------------------------------------
// Column lines shared by the discovery reports
// ---------------------------------------------------------------------------

/// Pieces written for two runs of requests, one after the other, are the
/// pieces of the joined runs.
pub proof fn lemma_pieces_concat(
    use_color: bool,
    r1: Seq<Paint>,
    p1: Seq<Seq<char>>,
    r2: Seq<Paint>,
    p2: Seq<Seq<char>>,
)
    requires
        pieces_ok(use_color, r1, p1),
        pieces_ok(use_color, r2, p2),
    ensures
        pieces_ok(use_color, r1 + r2, p1 + p2),
{
    let reqs = r1 + r2;
    let ps = p1 + p2;
    assert forall|k: int| 0 <= k < ps.len() implies piece(
        use_color,
        reqs[k].style,
        reqs[k].text,
        reqs[k].width,
        #[trigger] ps[k],
    ) by {
        if k < p1.len() {
            assert(ps[k] == p1[k]);
            assert(reqs[k] == r1[k]);
        } else {
            assert(ps[k] == p2[k - p1.len()]);
            assert(reqs[k] == r2[k - r1.len()]);
        }
    }
}

/// The pieces of two-column lines: each name right-aligned to `width` in
/// cyan, then its note dimmed.
pub open spec fn pair_requests(names: Seq<Seq<char>>, notes: Seq<Seq<char>>, width: nat) -> Seq<
    Paint,
>
    decreases names.len(),
{
    if names.len() == 0 {
        Seq::empty()
    } else {
        pair_requests(names.drop_last(), notes.drop_last(), width) + seq![
            Paint { style: Style::Cyan, text: names.last(), width },
            paint(Style::Dimmed, notes.last()),
        ]
    }
}

/// `n` two-column lines laid out from their pieces.
pub open spec fn pair_lines(n: nat, ps: Seq<Seq<char>>) -> Seq<char>
    decreases n,
{
    if n == 0 {
        Seq::empty()
    } else {
        pair_lines((n - 1) as nat, ps) + "  "@ + ps[2 * (n - 1)] + "  "@ + ps[2 * (n - 1) + 1]
            + "\n"@
    }
}

proof fn lemma_pair_lines_stable(n: nat, ps: Seq<Seq<char>>, qs: Seq<Seq<char>>)
    requires
        ps.len() >= 2 * n,
        qs.len() >= 2 * n,
        forall|k: int| 0 <= k < 2 * n ==> ps[k] == qs[k],
    ensures
        pair_lines(n, ps) == pair_lines(n, qs),
    decreases n,
{
    if n > 0 {
        lemma_pair_lines_stable((n - 1) as nat, ps, qs);
    }
}

/// Append two-column lines, names right-aligned to `width`.
fn push_pair_lines(
    output: &mut String,
    names: &Vec<String>,
    notes: &Vec<String>,
    width: usize,
    use_color: bool,
) -> (ps: Ghost<Seq<Seq<char>>>)
    requires
        names@.len() == notes@.len(),
    ensures
        pieces_ok(use_color, pair_requests(views(names@), views(notes@), width as nat), ps@),
        final(output)@ == old(output)@ + pair_lines(names@.len(), ps@),
{
    let ghost head = output@;
    let ghost nm = views(names@);
    let ghost nt = views(notes@);
    let ghost mut qs: Seq<Seq<char>> = Seq::empty();
    let mut k: usize = 0;
    while k < names.len()
        invariant
            nm == views(names@),
            nt == views(notes@),
            k <= names@.len(),
            names@.len() == notes@.len(),
            qs.len() == 2 * k,
            pieces_ok(use_color, pair_requests(nm.take(k as int), nt.take(k as int), width as nat), qs),
            output@ == head + pair_lines(k as nat, qs),
        decreases names.len() - k,
    {
        let p0 = styled(use_color, Style::Cyan, names[k].as_str(), width);
        let p1 = styled(use_color, Style::Dimmed, notes[k].as_str(), 0);
        push_str(output, "  ");
        push_str(output, p0.as_str());
        push_str(output, "  ");
        push_str(output, p1.as_str());
        push_str(output, "\n");
        let ghost old_qs = qs;
        proof {
            qs = qs.push(p0@).push(p1@);
            assert(nm.take(k + 1).drop_last() =~= nm.take(k as int));
            assert(nt.take(k + 1).drop_last() =~= nt.take(k as int));
            assert(nm.take(k + 1).last() == names@[k as int]@);
            assert(nt.take(k + 1).last() == notes@[k as int]@);
            lemma_pair_lines_stable(k as nat, old_qs, qs);
            let reqs = pair_requests(nm.take(k + 1), nt.take(k + 1), width as nat);
            assert forall|m: int| 0 <= m < qs.len() implies piece(
                use_color,
                reqs[m].style,
                reqs[m].text,
                reqs[m].width,
                #[trigger] qs[m],
            ) by {
                if m < 2 * k {
                    assert(qs[m] == old_qs[m]);
                }
            }
        }
        k = k + 1;
    }
    assert(nm.take(names@.len() as int) =~= nm);
    assert(nt.take(notes@.len() as int) =~= nt);
    Ghost(qs)
}

// ---------------------------------------------------------------------------
// Catalog listings (`discover`)
// ---------------------------------------------------------------------------

/// The names of catalog entries.
pub open spec fn entry_names(es: Seq<CatalogEntry>) -> Seq<Seq<char>> {
    es.map_values(|e: CatalogEntry| e.name@)
}

/// The descriptions of catalog entries.
pub open spec fn entry_descriptions(es: Seq<CatalogEntry>) -> Seq<Seq<char>> {
    es.map_values(|e: CatalogEntry| e.description@)
}

/// The pieces of a catalog listing: the header, then a name (right-aligned
/// to the longest name in bytes) and description per entry.
pub open spec fn catalog_list_requests(category: Seq<char>, entries: Seq<CatalogEntry>) -> Seq<
    Paint,
> {
    seq![paint(Style::Bold, category + " ("@ + nat_text(entries.len()) + " entries)"@)]
        + pair_requests(
        entry_names(entries),
        entry_descriptions(entries),
        max_width(entry_names(entries), 20),
    )
}

/// A catalog listing of `n` entries laid out from its pieces.
pub open spec fn catalog_list_text(n: nat, ps: Seq<Seq<char>>) -> Seq<char> {
    section_line(ps[0]) + pair_lines(n, ps.drop_first())
}

/// The names and descriptions of catalog entries, as strings.
fn entry_columns(entries: &Vec<CatalogEntry>) -> (r: (Vec<String>, Vec<String>))
    ensures
        views(r.0@) == entry_names(entries@),
        views(r.1@) == entry_descriptions(entries@),
{
    let mut names: Vec<String> = Vec::new();
    let mut descs: Vec<String> = Vec::new();
    let mut j: usize = 0;
    while j < entries.len()
        invariant
            j <= entries@.len(),
            views(names@) == entry_names(entries@.take(j as int)),
            views(descs@) == entry_descriptions(entries@.take(j as int)),
        decreases entries.len() - j,
    {
        let mut name = String::new();
        push_str(&mut name, entries[j].name);
        let mut desc = String::new();
        push_str(&mut desc, entries[j].description);
        let ghost n0 = names@;
        let ghost d0 = descs@;
        let ghost pre = entries@.take(j as int);
        assert(entries@.take(j + 1) =~= pre.push(entries@[j as int]));
        names.push(name);
        assert(names@ == n0.push(name));
        assert(views(names@) =~= views(n0).push(name@));
        descs.push(desc);
        assert(descs@ == d0.push(desc));
        assert(views(descs@) =~= views(d0).push(desc@));
        assert(entry_names(pre.push(entries@[j as int])) =~= entry_names(pre).push(entries@[j as int].name@));
        assert(entry_descriptions(pre.push(entries@[j as int])) =~= entry_descriptions(pre).push(entries@[j as int].description@));
        j = j + 1;
    }
    assert(entries@.take(entries@.len() as int) =~= entries@);
    (names, descs)
}

/// Format catalog entries as a plain list.
pub fn format_catalog_list(category: &str, entries: &Vec<CatalogEntry>, use_color: bool) -> (r: String)
    ensures
        exists|ps: Seq<Seq<char>>|
            pieces_ok(use_color, catalog_list_requests(category@, entries@), ps) && r@
                == catalog_list_text(entries@.len(), ps),
        !use_color ==> r@ == catalog_list_text(
            entries@.len(),
            plain_pieces(catalog_list_requests(category@, entries@)),
        ),
{
    let mut header = String::new();
    push_str(&mut header, category);
    push_str(&mut header, " (");
    let count = u64_text(entries.len() as u64);
    push_str(&mut header, count.as_str());
    push_str(&mut header, " entries)");
    let mut output = String::new();
    let h = push_section(&mut output, header.as_str(), use_color);
    let (names, descs) = entry_columns(entries);
    let width = max_byte_width(&names);
    let qs = push_pair_lines(&mut output, &names, &descs, width, use_color);
    proof {
        let reqs = catalog_list_requests(category@, entries@);
        let ps = seq![h@] + qs@;
        let head = seq![paint(Style::Bold, header@)];
        assert(pieces_ok(use_color, head, seq![h@]));
        lemma_pieces_concat(
            use_color,
            head,
            seq![h@],
            pair_requests(views(names@), views(descs@), width as nat),
            qs@,
        );
        assert(reqs =~= head + pair_requests(views(names@), views(descs@), width as nat));
        assert(ps.drop_first() =~= qs@);
        assert(output@ =~= catalog_list_text(entries@.len(), ps));
        if !use_color {
            lemma_plain_pieces(reqs, ps);
        }
    }
    output
}

/// The pieces of three-column lines: each name right-aligned to `width` in
/// cyan, then its tag and its note, both dimmed.
pub open spec fn triple_requests(
    names: Seq<Seq<char>>,
    tags: Seq<Seq<char>>,
    notes: Seq<Seq<char>>,
    width: nat,
) -> Seq<Paint>
    decreases names.len(),
{
    if names.len() == 0 {
        Seq::empty()
    } else {
        triple_requests(names.drop_last(), tags.drop_last(), notes.drop_last(), width) + seq![
            Paint { style: Style::Cyan, text: names.last(), width },
            paint(Style::Dimmed, tags.last()),
            paint(Style::Dimmed, notes.last()),
        ]
    }
}

/// `n` three-column lines laid out from their pieces.
pub open spec fn triple_lines(n: nat, ps: Seq<Seq<char>>) -> Seq<char>
    decreases n,
{
    if n == 0 {
        Seq::empty()
    } else {
        triple_lines((n - 1) as nat, ps) + "  "@ + ps[3 * (n - 1)] + "  "@ + ps[3 * (n - 1) + 1]
            + "  "@ + ps[3 * (n - 1) + 2] + "\n"@
    }
}

proof fn lemma_triple_lines_stable(n: nat, ps: Seq<Seq<char>>, qs: Seq<Seq<char>>)
    requires
        ps.len() >= 3 * n,
        qs.len() >= 3 * n,
        forall|k: int| 0 <= k < 3 * n ==> ps[k] == qs[k],
    ensures
        triple_lines(n, ps) == triple_lines(n, qs),
    decreases n,
{
    if n > 0 {
        lemma_triple_lines_stable((n - 1) as nat, ps, qs);
    }
}

/// Append three-column lines, names right-aligned to `width`.
fn push_triple_lines(
    output: &mut String,
    names: &Vec<String>,
    tags: &Vec<String>,
    notes: &Vec<String>,
    width: usize,
    use_color: bool,
) -> (ps: Ghost<Seq<Seq<char>>>)
    requires
        names@.len() == tags@.len(),
        names@.len() == notes@.len(),
    ensures
        pieces_ok(
            use_color,
            triple_requests(views(names@), views(tags@), views(notes@), width as nat),
            ps@,
        ),
        final(output)@ == old(output)@ + triple_lines(names@.len(), ps@),
{
    let ghost head = output@;
    let ghost nm = views(names@);
    let ghost tg = views(tags@);
    let ghost nt = views(notes@);
    let ghost mut qs: Seq<Seq<char>> = Seq::empty();
    let mut k: usize = 0;
    while k < names.len()
        invariant
            nm == views(names@),
            tg == views(tags@),
            nt == views(notes@),
            k <= names@.len(),
            names@.len() == tags@.len(),
            names@.len() == notes@.len(),
            qs.len() == 3 * k,
            pieces_ok(
                use_color,
                triple_requests(nm.take(k as int), tg.take(k as int), nt.take(k as int), width as nat),
                qs,
            ),
            output@ == head + triple_lines(k as nat, qs),
        decreases names.len() - k,
    {
        let p0 = styled(use_color, Style::Cyan, names[k].as_str(), width);
        let p1 = styled(use_color, Style::Dimmed, tags[k].as_str(), 0);
        let p2 = styled(use_color, Style::Dimmed, notes[k].as_str(), 0);
        push_str(output, "  ");
        push_str(output, p0.as_str());
        push_str(output, "  ");
        push_str(output, p1.as_str());
        push_str(output, "  ");
        push_str(output, p2.as_str());
        push_str(output, "\n");
        let ghost old_qs = qs;
        proof {
            qs = qs.push(p0@).push(p1@).push(p2@);
            assert(nm.take(k + 1).drop_last() =~= nm.take(k as int));
            assert(tg.take(k + 1).drop_last() =~= tg.take(k as int));
            assert(nt.take(k + 1).drop_last() =~= nt.take(k as int));
            assert(nm.take(k + 1).last() == names@[k as int]@);
            assert(tg.take(k + 1).last() == tags@[k as int]@);
            assert(nt.take(k + 1).last() == notes@[k as int]@);
            lemma_triple_lines_stable(k as nat, old_qs, qs);
            let reqs = triple_requests(nm.take(k + 1), tg.take(k + 1), nt.take(k + 1), width as nat);
            assert forall|m: int| 0 <= m < qs.len() implies piece(
                use_color,
                reqs[m].style,
                reqs[m].text,
                reqs[m].width,
                #[trigger] qs[m],
            ) by {
                if m < 3 * k {
                    assert(qs[m] == old_qs[m]);
                }
            }
        }
        k = k + 1;
    }
    assert(nm.take(names@.len() as int) =~= nm);
    assert(tg.take(tags@.len() as int) =~= tg);
    assert(nt.take(notes@.len() as int) =~= nt);
    Ghost(qs)
}

/// The entries of search results.
pub open spec fn result_entries(results: Seq<(CatalogCategory, CatalogEntry)>) -> Seq<CatalogEntry> {
    results.map_values(|r: (CatalogCategory, CatalogEntry)| r.1)
}

/// The bracketed category labels of search results.
pub open spec fn result_tags(results: Seq<(CatalogCategory, CatalogEntry)>) -> Seq<Seq<char>> {
    results.map_values(|r: (CatalogCategory, CatalogEntry)| "["@ + category_label(r.0) + "]"@)
}

/// The pieces of a search report: the header, then per result the name
/// (right-aligned to the longest name in bytes), the category and the
/// description.
pub open spec fn catalog_search_requests(results: Seq<(CatalogCategory, CatalogEntry)>) -> Seq<
    Paint,
> {
    if results.len() == 0 {
        Seq::empty()
    } else {
        seq![paint(Style::Bold, nat_text(results.len()) + " match(es)"@)] + triple_requests(
            entry_names(result_entries(results)),
            result_tags(results),
            entry_descriptions(result_entries(results)),
            max_width(entry_names(result_entries(results)), 20),
        )
    }
}

/// A search report of `n` results laid out from its pieces.
pub open spec fn catalog_search_text(n: nat, ps: Seq<Seq<char>>) -> Seq<char> {
    if n == 0 {
        "No matches found.\n"@
    } else {
        section_line(ps[0]) + triple_lines(n, ps.drop_first())
    }
}

/// The columns of search results, as strings.
fn result_columns(results: &Vec<(CatalogCategory, CatalogEntry)>) -> (r: (Vec<String>, Vec<String>, Vec<String>))
    ensures
        views(r.0@) == entry_names(result_entries(results@)),
        views(r.1@) == result_tags(results@),
        views(r.2@) == entry_descriptions(result_entries(results@)),
{
    let mut names: Vec<String> = Vec::new();
    let mut tags: Vec<String> = Vec::new();
    let mut descs: Vec<String> = Vec::new();
    let mut j: usize = 0;
    while j < results.len()
        invariant
            j <= results@.len(),
            views(names@) == entry_names(result_entries(results@.take(j as int))),
            views(tags@) == result_tags(results@.take(j as int)),
            views(descs@) == entry_descriptions(result_entries(results@.take(j as int))),
        decreases results.len() - j,
    {
        let (cat, entry) = results[j];
        let mut name = String::new();
        push_str(&mut name, entry.name);
        let mut tag = String::new();
        push_str(&mut tag, "[");
        push_str(&mut tag, cat.label());
        push_str(&mut tag, "]");
        let mut desc = String::new();
        push_str(&mut desc, entry.description);
        let ghost n0 = names@;
        let ghost t0 = tags@;
        let ghost d0 = descs@;
        let ghost pre = results@.take(j as int);
        let ghost x = results@[j as int];
        assert(results@.take(j + 1) =~= pre.push(x));
        names.push(name);
        assert(views(names@) =~= views(n0).push(name@));
        tags.push(tag);
        assert(views(tags@) =~= views(t0).push(tag@));
        descs.push(desc);
        assert(views(descs@) =~= views(d0).push(desc@));
        assert(result_entries(pre.push(x)) =~= result_entries(pre).push(x.1));
        assert(entry_names(result_entries(pre).push(x.1)) =~= entry_names(result_entries(pre)).push(x.1.name@));
        assert(entry_descriptions(result_entries(pre).push(x.1)) =~= entry_descriptions(result_entries(pre)).push(x.1.description@));
        assert(result_tags(pre.push(x)) =~= result_tags(pre).push("["@ + category_label(x.0) + "]"@));
        j = j + 1;
    }
    assert(results@.take(results@.len() as int) =~= results@);
    (names, tags, descs)
}

/// Format catalog search results.
pub fn format_catalog_search(results: &Vec<(CatalogCategory, CatalogEntry)>, use_color: bool) -> (r: String)
    ensures
        exists|ps: Seq<Seq<char>>|
            pieces_ok(use_color, catalog_search_requests(results@), ps) && r@ == catalog_search_text(
                results@.len(),
                ps,
            ),
        !use_color ==> r@ == catalog_search_text(
            results@.len(),
            plain_pieces(catalog_search_requests(results@)),
        ),
{
    if results.len() == 0 {
        let r = "No matches found.\n".to_string();
        proof {
            let ps = Seq::<Seq<char>>::empty();
            assert(pieces_ok(use_color, catalog_search_requests(results@), ps));
            assert(r@ == catalog_search_text(results@.len(), ps));
            assert(plain_pieces(catalog_search_requests(results@)) =~= ps);
        }
        return r;
    }
    let mut header = u64_text(results.len() as u64);
    push_str(&mut header, " match(es)");
    let mut output = String::new();
    let h = push_section(&mut output, header.as_str(), use_color);
    let (names, tags, descs) = result_columns(results);
    let width = max_byte_width(&names);
    assert(names@.len() == views(names@).len() && tags@.len() == views(tags@).len() && descs@.len() == views(descs@).len());
    let qs = push_triple_lines(&mut output, &names, &tags, &descs, width, use_color);
    proof {
        let reqs = catalog_search_requests(results@);
        let ps = seq![h@] + qs@;
        let head = seq![paint(Style::Bold, header@)];
        let body = triple_requests(views(names@), views(tags@), views(descs@), width as nat);
        assert(pieces_ok(use_color, head, seq![h@]));
        lemma_pieces_concat(use_color, head, seq![h@], body, qs@);
        assert(reqs =~= head + body);
        assert(ps.drop_first() =~= qs@);
        assert(output@ =~= catalog_search_text(results@.len(), ps));
        if !use_color {
            lemma_plain_pieces(reqs, ps);
        }
    }
    output
}

// ---------------------------------------------------------------------------
// What an element supports (`supported`)
// ---------------------------------------------------------------------------

/// The pieces of one titled list: the header with the item count, then one
/// piece per item.
pub open spec fn list_requests(title: Seq<char>, items: Seq<Seq<char>>) -> Seq<Paint> {
    seq![paint(Style::Bold, title + " ("@ + nat_text(items.len()) + ")"@)] + items.map_values(
        |i: Seq<char>| paint(Style::Cyan, i),
    )
}

/// `n` item lines laid out from their pieces.
pub open spec fn item_lines(n: nat, ps: Seq<Seq<char>>) -> Seq<char>
    decreases n,
{
    if n == 0 {
        Seq::empty()
    } else {
        item_lines((n - 1) as nat, ps) + "  "@ + ps[n - 1] + "\n"@
    }
}

/// A titled list of `n` items laid out from its pieces.
pub open spec fn list_text(n: nat, ps: Seq<Seq<char>>) -> Seq<char> {
    section_line(ps[0]) + if n == 0 {
        "  (none)\n"@
    } else {
        item_lines(n, ps.drop_first())
    }
}

/// The pieces of the `supported` report.
pub open spec fn supported_requests(
    attrs: Seq<Seq<char>>,
    pattrs: Seq<Seq<char>>,
    actions: Seq<Seq<char>>,
) -> Seq<Paint> {
    list_requests("Attributes"@, attrs) + list_requests("Parameterized Attributes"@, pattrs)
        + list_requests("Actions"@, actions)
}

/// The `supported` report for lists of `a`, `b` and `c` items, laid out from
/// its pieces.
pub open spec fn supported_text(a: nat, b: nat, c: nat, ps: Seq<Seq<char>>) -> Seq<char> {
    let (i, j, k) = (a as int, b as int, c as int);
    list_text(a, ps.subrange(0, i + 1)) + "\n"@ + list_text(b, ps.subrange(i + 1, i + j + 2))
        + "\n"@ + list_text(c, ps.subrange(i + j + 2, i + j + k + 3))
}

proof fn lemma_item_lines_stable(n: nat, ps: Seq<Seq<char>>, qs: Seq<Seq<char>>)
    requires
        ps.len() >= n,
        qs.len() >= n,
        forall|k: int| 0 <= k < n ==> ps[k] == qs[k],
    ensures
        item_lines(n, ps) == item_lines(n, qs),
    decreases n,
{
    if n > 0 {
        lemma_item_lines_stable((n - 1) as nat, ps, qs);
    }
}

/// Append a titled list.
fn push_list_section(output: &mut String, title: &str, items: &Vec<String>, use_color: bool) -> (ps: Ghost<Seq<Seq<char>>>)
    ensures
        pieces_ok(use_color, list_requests(title@, views(items@)), ps@),
        final(output)@ == old(output)@ + list_text(items@.len(), ps@),
{
    let mut header = String::new();
    push_str(&mut header, title);
    push_str(&mut header, " (");
    let count = u64_text(items.len() as u64);
    push_str(&mut header, count.as_str());
    push_str(&mut header, ")");
    let ghost start = output@;
    let h = push_section(output, header.as_str(), use_color);
    let ghost head = output@;
    let ghost its = views(items@);
    let ghost mut qs: Seq<Seq<char>> = Seq::empty();
    if items.len() == 0 {
        push_str(output, "  (none)\n");
    } else {
        let mut k: usize = 0;
        while k < items.len()
            invariant
                its == views(items@),
                k <= items@.len(),
                qs.len() == k,
                pieces_ok(use_color, its.take(k as int).map_values(|i: Seq<char>| paint(Style::Cyan, i)), qs),
                output@ == head + item_lines(k as nat, qs),
            decreases items.len() - k,
        {
            let p = styled(use_color, Style::Cyan, items[k].as_str(), 0);
            push_str(output, "  ");
            push_str(output, p.as_str());
            push_str(output, "\n");
            let ghost old_qs = qs;
            proof {
                qs = qs.push(p@);
                lemma_item_lines_stable(k as nat, old_qs, qs);
                let reqs = its.take(k + 1).map_values(|i: Seq<char>| paint(Style::Cyan, i));
                assert forall|m: int| 0 <= m < qs.len() implies piece(
                    use_color,
                    reqs[m].style,
                    reqs[m].text,
                    reqs[m].width,
                    #[trigger] qs[m],
                ) by {
                    if m < k {
                        assert(qs[m] == old_qs[m]);
                        assert(reqs[m] == its.take(k as int).map_values(|i: Seq<char>| paint(Style::Cyan, i))[m]);
                    }
                }
            }
            k = k + 1;
        }
        assert(its.take(items@.len() as int) =~= its);
    }
    let ghost ps = seq![h@] + qs;
    proof {
        let head_req = seq![paint(Style::Bold, header@)];
        assert(pieces_ok(use_color, head_req, seq![h@]));
        lemma_pieces_concat(use_color, head_req, seq![h@], its.map_values(|i: Seq<char>| paint(Style::Cyan, i)), qs);
        assert(list_requests(title@, its) =~= head_req + its.map_values(|i: Seq<char>| paint(Style::Cyan, i)));
        assert(ps.drop_first() =~= qs);
        assert(output@ =~= start + list_text(items@.len(), ps));
    }
    Ghost(ps)
}

/// Format the `supported` command output.
pub fn format_supported(
    attrs: &Vec<String>,
    pattrs: &Vec<String>,
    actions: &Vec<String>,
    use_color: bool,
) -> (r: String)
    ensures
        exists|ps: Seq<Seq<char>>|
            pieces_ok(
                use_color,
                supported_requests(views(attrs@), views(pattrs@), views(actions@)),
                ps,
            ) && r@ == supported_text(attrs@.len(), pattrs@.len(), actions@.len(), ps),
        !use_color ==> r@ == supported_text(
            attrs@.len(),
            pattrs@.len(),
            actions@.len(),
            plain_pieces(supported_requests(views(attrs@), views(pattrs@), views(actions@))),
        ),
{
    let mut output = String::new();
    let p1 = push_list_section(&mut output, "Attributes", attrs, use_color);
    push_str(&mut output, "\n");
    let p2 = push_list_section(&mut output, "Parameterized Attributes", pattrs, use_color);
    push_str(&mut output, "\n");
    let p3 = push_list_section(&mut output, "Actions", actions, use_color);
    proof {
        let a = attrs@.len() as int;
        let b = pattrs@.len() as int;
        let c = actions@.len() as int;
        let r1 = list_requests("Attributes"@, views(attrs@));
        let r2 = list_requests("Parameterized Attributes"@, views(pattrs@));
        let r3 = list_requests("Actions"@, views(actions@));
        lemma_pieces_concat(use_color, r1, p1@, r2, p2@);
        lemma_pieces_concat(use_color, r1 + r2, p1@ + p2@, r3, p3@);
        let ps = p1@ + p2@ + p3@;
        assert(p1@.len() == a + 1);
        assert(p2@.len() == b + 1);
        assert(p3@.len() == c + 1);
        assert(ps.subrange(0, a + 1) =~= p1@);
        assert(ps.subrange(a + 1, a + b + 2) =~= p2@);
        assert(ps.subrange(a + b + 2, a + b + c + 3) =~= p3@);
        assert(output@ =~= supported_text(attrs@.len(), pattrs@.len(), actions@.len(), ps));
        if !use_color {
            lemma_plain_pieces(r1 + r2 + r3, ps);
        }
    }
    output
}

// ---------------------------------------------------------------------------
// Parameterized attributes (`pattrs`)
// ---------------------------------------------------------------------------

/// The hint shown beside a parameterized attribute: the flag that supplies
/// its parameter, when the attribute is known.
pub open spec fn pattr_hint(kind: Option<ParamKind>) -> Seq<char> {
    match kind {
        Some(ParamKind::Index) => "param: --index <n>"@,
        Some(ParamKind::Range) => "param: --range <loc,len>"@,
        Some(ParamKind::Point) => "param: --param-point <x,y>"@,
        Some(ParamKind::ColumnAndRow) => "param: --col-row <col,row>"@,
        None => ""@,
    }
}

/// The hints of the named parameterized attributes.
pub open spec fn pattr_hints(names: Seq<Seq<char>>) -> Seq<Seq<char>> {
    names.map_values(|n: Seq<char>| pattr_hint(param_kind_spec(n)))
}

/// The pieces of the parameterized attribute list.
pub open spec fn pattrs_requests(names: Seq<Seq<char>>) -> Seq<Paint> {
    pair_requests(names, pattr_hints(names), max_width(names, 20))
}

/// The parameterized attribute list of `n` names laid out from its pieces.
pub open spec fn pattrs_text(n: nat, ps: Seq<Seq<char>>) -> Seq<char> {
    if n == 0 {
        "No parameterized attributes.\n"@
    } else {
        pair_lines(n, ps)
    }
}

fn pattr_hint_str(kind: Option<ParamKind>) -> (r: &'static str)
    ensures
        r@ == pattr_hint(kind),
{
    match kind {
        Some(ParamKind::Index) => "param: --index <n>",
        Some(ParamKind::Range) => "param: --range <loc,len>",
        Some(ParamKind::Point) => "param: --param-point <x,y>",
        Some(ParamKind::ColumnAndRow) => "param: --col-row <col,row>",
        None => "",
    }
}

/// Format parameterized attribute names.
pub fn format_parameterized_attrs(names: &Vec<String>, use_color: bool) -> (r: String)
    ensures
        exists|ps: Seq<Seq<char>>|
            pieces_ok(use_color, pattrs_requests(views(names@)), ps) && r@ == pattrs_text(
                names@.len(),
                ps,
            ),
        !use_color ==> r@ == pattrs_text(names@.len(), plain_pieces(pattrs_requests(views(names@)))),
{
    if names.len() == 0 {
        let r = "No parameterized attributes.\n".to_string();
        proof {
            let ps = Seq::<Seq<char>>::empty();
            assert(views(names@) =~= Seq::<Seq<char>>::empty());
            assert(pattrs_requests(views(names@)) =~= Seq::<Paint>::empty());
            assert(pieces_ok(use_color, pattrs_requests(views(names@)), ps));
            assert(r@ == pattrs_text(names@.len(), ps));
            assert(plain_pieces(pattrs_requests(views(names@))) =~= ps);
        }
        return r;
    }
    let mut hints: Vec<String> = Vec::new();
    let mut j: usize = 0;
    while j < names.len()
        invariant
            j <= names@.len(),
            views(hints@) == pattr_hints(views(names@).take(j as int)),
        decreases names.len() - j,
    {
        let mut h = String::new();
        push_str(&mut h, pattr_hint_str(param_kind_for_attr(names[j].as_str())));
        let ghost h0 = hints@;
        let ghost pre = views(names@).take(j as int);
        assert(views(names@).take(j + 1) =~= pre.push(names@[j as int]@));
        hints.push(h);
        assert(views(hints@) =~= views(h0).push(h@));
        assert(pattr_hints(pre.push(names@[j as int]@)) =~= pattr_hints(pre).push(h@));
        j = j + 1;
    }
    assert(views(names@).take(names@.len() as int) =~= views(names@));
    let width = max_byte_width(names);
    let mut output = String::new();
    assert(names@.len() == views(names@).len() && hints@.len() == views(hints@).len());
    let ps = push_pair_lines(&mut output, names, &hints, width, use_color);
    proof {
        assert(output@ =~= pattrs_text(names@.len(), ps@));
        if !use_color {
            lemma_plain_pieces(pattrs_requests(views(names@)), ps@);
        }
    }
    output
}

} // verus!
