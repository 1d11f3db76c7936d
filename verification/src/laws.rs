//! The bridge's laws: what holds of every script session, stated over the
//! same spec functions the executable contracts use and proved once and for
//! all.

use vstd::prelude::*;

use crate::registry::apply_call;
use crate::registry::apply_calls;
use crate::registry::declared_widget;
use crate::registry::BindingCallView;
use crate::registry::RegistryView;
use crate::registry::WidgetView;
use crate::render::cells_after_widget;
use crate::render::lemma_pass_cells_frame;
use crate::render::pass_cells;
use crate::render::widget_command;
use crate::render::DrawCommandView;
use crate::render::WidgetInputView;

verus! {

/// Law: during one script execution, a sequence of N binding calls leaves
/// the registry with exactly its old widgets followed by N new ones, one per
/// call and in call order.  Render order is declaration order.
#[verifier::rlimit(50)]
pub proof fn lemma_declaration_order(r: RegistryView, cs: Seq<BindingCallView>)
    ensures
        apply_calls(r, cs).widgets.len() == r.widgets.len() + cs.len(),
        forall|k: int|
            0 <= k < r.widgets.len() ==> apply_calls(r, cs).widgets[k] == #[trigger] r.widgets[k],
        forall|k: int|
            0 <= k < cs.len() ==> apply_calls(r, cs).widgets[r.widgets.len() + k]
                == declared_widget(apply_calls(r, cs.take(k)), #[trigger] cs[k]),
    decreases cs.len(),
{
    if cs.len() > 0 {
        let pre = cs.drop_last();
        let base = apply_calls(r, pre);
        lemma_declaration_order(r, pre);
        let post = apply_calls(r, cs);
        assert(post == apply_call(base, cs.last()));
        assert(post.widgets == base.widgets.push(declared_widget(base, cs.last())));
        assert forall|k: int|
            0 <= k < cs.len() implies post.widgets[r.widgets.len() + k] == declared_widget(
            apply_calls(r, cs.take(k)),
            #[trigger] cs[k],
        ) by {
            if k < cs.len() - 1 {
                assert(cs.take(k) =~= pre.take(k));
                assert(post.widgets[r.widgets.len() + k] == base.widgets[r.widgets.len() + k]);
                assert(base.widgets[r.widgets.len() + k] == declared_widget(
                    apply_calls(r, pre.take(k)),
                    pre[k],
                ));
            } else {
                assert(cs.take(k) =~= pre);
                assert(post.widgets[r.widgets.len() + k] == declared_widget(base, cs.last()));
            }
        }
    }
}

/// Law: the registry stays well formed across any script execution: however
/// many binding calls the script makes, every widget's cell lies in its
/// store and no two widgets share a cell.
pub proof fn lemma_session_wf(r: RegistryView, cs: Seq<BindingCallView>)
    requires
        r.wf(),
    ensures
        apply_calls(r, cs).wf(),
    decreases cs.len(),
{
    if cs.len() > 0 {
        lemma_session_wf(r, cs.drop_last());
        crate::registry::lemma_apply_call_wf(apply_calls(r, cs.drop_last()), cs.last());
    }
}

/// Law: writing a value into a text input's shared cell through its rendered
/// interaction leaves exactly that value in the cell, and the field drawn
/// the same frame shows it.  Since `TextEditOutput::get_text` returns the
/// cell's content, the handle reads back exactly what was written: no
/// staleness within one frame boundary.
pub proof fn lemma_text_roundtrip(r: RegistryView, i: int, cell: int, v: Seq<char>)
    requires
        r.wf(),
        0 <= i < r.widgets.len(),
        r.widgets[i] == (WidgetView::TextInput { cell }),
    ensures
        cells_after_widget(r, r.widgets[i], WidgetInputView::EditText(v)).text_cells[cell] == v,
        widget_command(
            cells_after_widget(r, r.widgets[i], WidgetInputView::EditText(v)),
            r.widgets[i],
        ) == (DrawCommandView::TextField { text: v }),
{
    assert(r.widget_in_range(r.widgets[i]));
}

/// Law: a checkbox's shared cell keeps its value under any interaction but a
/// toggle, one toggle flips it, and a second toggle restores it.  With the
/// cell's documented initial value of false, `CheckBoxOutput::is_checked`
/// reads false until the checkbox is first toggled, true after one toggle,
/// and false again after a second.
pub proof fn lemma_checkbox_toggle(r: RegistryView, i: int, cell: int, label: Seq<char>)
    requires
        r.wf(),
        0 <= i < r.widgets.len(),
        r.widgets[i] == (WidgetView::Checkbox { label, cell }),
    ensures
        forall|input: WidgetInputView|
            !(input is Toggle) ==> #[trigger] cells_after_widget(
                r,
                r.widgets[i],
                input,
            ).bool_cells[cell] == r.bool_cells[cell],
        cells_after_widget(r, r.widgets[i], WidgetInputView::Toggle).bool_cells[cell]
            == !r.bool_cells[cell],
        cells_after_widget(
            cells_after_widget(r, r.widgets[i], WidgetInputView::Toggle),
            r.widgets[i],
            WidgetInputView::Toggle,
        ).bool_cells[cell] == r.bool_cells[cell],
{
    assert(r.widget_in_range(r.widgets[i]));
}

/// Law: across one whole render pass, the value typed into a text input is
/// what its handle reads when the frame completes.  No other widget owns the
/// cell, so no later step can overwrite it: nothing grows stale within the
/// frame boundary.
pub proof fn lemma_pass_text_roundtrip(
    r: RegistryView,
    inputs: Seq<WidgetInputView>,
    i: int,
    cell: int,
    v: Seq<char>,
    n: int,
)
    requires
        r.wf(),
        0 <= i < n <= r.widgets.len(),
        r.widgets[i] == (WidgetView::TextInput { cell }),
        inputs[i] == WidgetInputView::EditText(v),
    ensures
        pass_cells(r, inputs, n).text_cells[cell] == v,
    decreases n,
{
    lemma_pass_cells_frame(r, inputs, n - 1);
    let prev = pass_cells(r, inputs, n - 1);
    assert(r.widget_in_range(r.widgets[i]));
    if n - 1 == i {
        assert(prev.widget_in_range(prev.widgets[i]));
    } else {
        lemma_pass_text_roundtrip(r, inputs, i, cell, v, n - 1);
        let w = r.widgets[n - 1];
        assert(!RegistryView::claims_same_cell(r.widgets[i], w));
        assert(prev.widget_in_range(prev.widgets[n - 1]));
    }
}

/// A pass prefix that stops before a checkbox's own step leaves the
/// checkbox's cell exactly as it began: no other widget owns it.
proof fn lemma_prefix_preserves_bool_cell(
    r: RegistryView,
    inputs: Seq<WidgetInputView>,
    i: int,
    cell: int,
    label: Seq<char>,
    n: int,
)
    requires
        r.wf(),
        0 <= i < r.widgets.len(),
        r.widgets[i] == (WidgetView::Checkbox { label, cell }),
        0 <= n <= i,
    ensures
        pass_cells(r, inputs, n).bool_cells[cell] == r.bool_cells[cell],
    decreases n,
{
    if n > 0 {
        lemma_prefix_preserves_bool_cell(r, inputs, i, cell, label, n - 1);
        lemma_pass_cells_frame(r, inputs, n - 1);
        let prev = pass_cells(r, inputs, n - 1);
        assert(r.widget_in_range(r.widgets[i]));
        assert(!RegistryView::claims_same_cell(r.widgets[n - 1], r.widgets[i]));
        assert(prev.widget_in_range(prev.widgets[n - 1]));
    }
}

/// Law: across one whole render pass in which a checkbox is toggled, its
/// handle reads the negation of the value the frame began with; no other
/// step of the pass reaches the cell.
pub proof fn lemma_pass_checkbox_toggle(
    r: RegistryView,
    inputs: Seq<WidgetInputView>,
    i: int,
    cell: int,
    label: Seq<char>,
    n: int,
)
    requires
        r.wf(),
        0 <= i < n <= r.widgets.len(),
        r.widgets[i] == (WidgetView::Checkbox { label, cell }),
        inputs[i] == WidgetInputView::Toggle,
    ensures
        pass_cells(r, inputs, n).bool_cells[cell] == !r.bool_cells[cell],
    decreases n,
{
    lemma_pass_cells_frame(r, inputs, n - 1);
    let prev = pass_cells(r, inputs, n - 1);
    assert(r.widget_in_range(r.widgets[i]));
    if n - 1 == i {
        lemma_prefix_preserves_bool_cell(r, inputs, i, cell, label, n - 1);
        assert(prev.widget_in_range(prev.widgets[i]));
    } else {
        lemma_pass_checkbox_toggle(r, inputs, i, cell, label, n - 1);
        let w = r.widgets[n - 1];
        assert(!RegistryView::claims_same_cell(r.widgets[i], w));
        assert(prev.widget_in_range(prev.widgets[n - 1]));
    }
}

/// Law: a widget's interaction reaches no shared cell but its own.  Because
/// no two widgets own one cell, whatever input one widget absorbs, every
/// other widget's cell reads as before.
pub proof fn lemma_cell_ownership(r: RegistryView, i: int, j: int, input: WidgetInputView)
    requires
        r.wf(),
        0 <= i < r.widgets.len(),
        0 <= j < r.widgets.len(),
        i != j,
    ensures
        r.widgets[i] matches WidgetView::TextInput { cell } ==> cells_after_widget(
            r,
            r.widgets[j],
            input,
        ).text_cells[cell] == r.text_cells[cell],
        r.widgets[i] matches WidgetView::Checkbox { cell, .. } ==> cells_after_widget(
            r,
            r.widgets[j],
            input,
        ).bool_cells[cell] == r.bool_cells[cell],
{
    assert(r.widget_in_range(r.widgets[i]));
    assert(r.widget_in_range(r.widgets[j]));
    if i < j {
        assert(!RegistryView::claims_same_cell(r.widgets[i], r.widgets[j]));
    } else {
        assert(!RegistryView::claims_same_cell(r.widgets[j], r.widgets[i]));
    }
}

/// Law: a label or a separator renders from its static configuration alone.
/// Its draw command is the same whatever any shared cell holds, and it
/// changes no cell.
pub proof fn lemma_stateless_widget(
    r1: RegistryView,
    r2: RegistryView,
    w: WidgetView,
    input: WidgetInputView,
)
    requires
        w is Label || w is Separator,
    ensures
        widget_command(r1, w) == widget_command(r2, w),
        cells_after_widget(r1, w, input) == r1,
{
}

} // verus!
