//! The presentation feed: a pure function from a store snapshot plus the
//! selection cursor to the render model the terminal layer draws — one
//! coloured row per target and a latency panel for the selected target.
use vstd::prelude::*;

use crate::monitor::Website;
use crate::monitor::WebsiteModel;
use crate::text::contains_seq;
use crate::text::contains_substring;

verus! {

/// Colour class of one dashboard row.
#[derive(Debug, Clone, Copy, PartialEq, Eq, Structural)]
pub enum StatusColor {
    Success,
    Pending,
    Failure,
}

/// Colour classification is decided by the status text alone: a status
/// containing the success keyword is shown as success, otherwise one
/// containing the pending sentinel keyword as pending, and everything else
/// as failure.
pub open spec fn classify_spec(status: Seq<char>) -> StatusColor {
    if contains_seq(status, "SUCCESS"@) {
        StatusColor::Success
    } else if contains_seq(status, "pending"@) {
        StatusColor::Pending
    } else {
        StatusColor::Failure
    }
}

/// Classify a status line by substring, exactly as `classify_spec` says.
pub fn classify_color(status: &str) -> (c: StatusColor)
    ensures
        c == classify_spec(status@),
{
    if contains_substring(status, "SUCCESS") {
        StatusColor::Success
    } else if contains_substring(status, "pending") {
        StatusColor::Pending
    } else {
        StatusColor::Failure
    }
}

/// A successful probe's status message is always shown in the success
/// colour: the success keyword stands at its head.
pub proof fn lemma_success_message_is_success(code: u16, elapsed_ms: u64)
    ensures
        classify_spec(crate::monitor::success_message_spec(code, elapsed_ms))
            == StatusColor::Success,
{
    let m = crate::monitor::success_message_spec(code, elapsed_ms);
    reveal_strlit("SUCCESS : ");
    reveal_strlit("SUCCESS");
    assert(m.subrange(0, 0 + "SUCCESS"@.len() as int) =~= "SUCCESS"@);
}

/// The pending sentinel is always shown in the pending colour: it carries
/// the pending keyword and never the success keyword.
pub proof fn lemma_pending_status_is_pending()
    ensures
        classify_spec(crate::monitor::pending_status_spec()) == StatusColor::Pending,
{
    let m = crate::monitor::pending_status_spec();
    reveal_strlit("pending...");
    reveal_strlit("pending");
    reveal_strlit("SUCCESS");
    reveal_with_fuel(crate::text::no_char_from, 12);
    assert(crate::text::no_char_from(m, 'S', 0));
    crate::text::lemma_no_char_from(m, 'S', 0);
    crate::text::lemma_absent_head_blocks_match(m, "SUCCESS"@);
    assert(m.subrange(0, 0 + "pending"@.len() as int) =~= "pending"@);
}

/// A non-success HTTP response's status message is always shown in the
/// failure colour: neither the success keyword nor the pending keyword can
/// occur in it. (No such law holds of a transport-error message: its detail
/// text is arbitrary, and the substring classification deliberately reads
/// through it.)
pub proof fn lemma_warning_message_is_failure(code: u16)
    ensures
        classify_spec(crate::monitor::warning_message_spec(code)) == StatusColor::Failure,
{
    let m = crate::monitor::warning_message_spec(code);
    let prefix = "WARNING : code "@;
    let digits = crate::text::decimal_digits(code as nat);
    reveal_strlit("WARNING : code ");
    reveal_strlit("SUCCESS");
    reveal_strlit("pending");
    reveal_with_fuel(crate::text::no_char_from, 17);
    crate::text::lemma_decimal_digits_are_digits(code as nat);
    assert(crate::text::no_char_from(prefix, 'S', 0));
    assert(crate::text::no_char_from(prefix, 'p', 0));
    crate::text::lemma_no_char_from(prefix, 'S', 0);
    crate::text::lemma_no_char_from(prefix, 'p', 0);
    assert forall|j: int| 0 <= j < m.len() implies m[j] != 'S' && m[j] != 'p' by {
        if j < prefix.len() {
            assert(m[j] == prefix[j]);
        } else {
            assert(m[j] == digits[j - prefix.len()]);
        }
    }
    assert("SUCCESS"@[0] == 'S');
    assert("pending"@[0] == 'p');
    crate::text::lemma_absent_head_blocks_match(m, "SUCCESS"@);
    crate::text::lemma_absent_head_blocks_match(m, "pending"@);
}

/// One list row of the dashboard.
pub struct Row {
    pub selected: bool,
    pub text: String,
    pub color: StatusColor,
}

/// The latency panel shown for the selected target: its name, its history
/// verbatim, and the latest sample (zero when the history is still empty) as
/// the headline figure.
pub struct LatencyPanel {
    pub name: String,
    pub series: Vec<u64>,
    pub current: u64,
}

/// Everything the terminal layer needs to draw one frame.
pub struct RenderModel {
    pub rows: Vec<Row>,
    pub panel: Option<LatencyPanel>,
}

/// The text of one row: a marker prefix on the selected row, then the
/// target's name and its latest status.
pub open spec fn row_text_spec(selected: bool, name: Seq<char>, status: Seq<char>) -> Seq<char> {
    (if selected {
        ">> "@
    } else {
        "   "@
    }) + name + " -> "@ + status
}

/// `r` is the row that renders `m`, selected or not as `selected` says.
pub open spec fn row_matches(r: Row, m: WebsiteModel, selected: bool) -> bool {
    &&& r.selected == selected
    &&& r.text@ == row_text_spec(selected, m.name, m.last_status)
    &&& r.color == classify_spec(m.last_status)
}

/// `p` is the latency panel for `m`.
pub open spec fn panel_matches(p: LatencyPanel, m: WebsiteModel) -> bool {
    &&& p.name@ == m.name
    &&& p.series@ == m.history
    &&& p.current == (if m.history.len() == 0 {
        0u64
    } else {
        m.history.last()
    })
}

/// Build the render model for one frame from a snapshot and the selection
/// cursor: one row per target in snapshot order, the selected row marked,
/// and a latency panel if and only if the cursor points at a target.
pub fn draw(websites: &Vec<Website>, selected_index: usize) -> (m: RenderModel)
    ensures
        m.rows@.len() == websites@.len(),
        forall|i: int|
            0 <= i < websites@.len() ==> row_matches(
                #[trigger] m.rows@[i],
                websites@[i]@,
                i == selected_index,
            ),
        match m.panel {
            Some(p) => selected_index < websites@.len() && panel_matches(
                p,
                websites@[selected_index as int]@,
            ),
            None => selected_index >= websites@.len(),
        },
{
    let mut rows: Vec<Row> = Vec::new();
    let mut i: usize = 0;
    while i < websites.len()
        invariant
            i <= websites@.len(),
            rows@.len() == i,
            forall|j: int|
                0 <= j < i ==> row_matches(#[trigger] rows@[j], websites@[j]@, j == selected_index),
        decreases websites@.len() - i,
    {
        let site = &websites[i];
        let selected = i == selected_index;
        let prefix: &str = if selected {
            ">> "
        } else {
            "   "
        };
        let mut text = String::from_str(prefix);
        text.append(site.name.as_str());
        text.append(" -> ");
        text.append(site.last_status.as_str());
        proof {
            assert(text@ =~= row_text_spec(selected, site@.name, site@.last_status));
        }
        let color = classify_color(site.last_status.as_str());
        rows.push(Row { selected, text, color });
        i = i + 1;
    }
    let panel = if selected_index < websites.len() {
        let site = &websites[selected_index];
        let current = if site.history.len() == 0 {
            0
        } else {
            site.history[site.history.len() - 1]
        };
        Some(
            LatencyPanel {
                name: site.name.clone(),
                series: crate::monitor::copy_history(&site.history),
                current,
            },
        )
    } else {
        None
    };
    RenderModel { rows, panel }
}

} // verus!
