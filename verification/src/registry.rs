//! The widget registry: the ordered record of everything a script has
//! declared, together with the shared cells that link script-side handles to
//! the widgets that render them.
//!
//! Every binding function appends exactly one widget; the render order of a
//! frame is the declaration order of the script.  A text input or a checkbox
//! owns one shared cell, held here in a store that only grows, so a handle
//! the script keeps stays readable even after the widget list is cleared for
//! a reload.

use vstd::prelude::*;

verus! {

/// One declared widget.  A `TextInput` or `Checkbox` names the shared cell it
/// owns by its index into the registry's cell store; a `Button` carries an
/// opaque identifier for the script callback the host invokes on a click.
pub enum Widget {
    Label { text: String },
    TextInput { cell: usize },
    Button { label: String, callback: u64 },
    Separator,
    Checkbox { label: String, cell: usize },
}

/// The mathematical shape of a [`Widget`]: strings as character sequences,
/// cell indices as unbounded integers.
pub enum WidgetView {
    Label { text: Seq<char> },
    TextInput { cell: int },
    Button { label: Seq<char>, callback: u64 },
    Separator,
    Checkbox { label: Seq<char>, cell: int },
}

impl View for Widget {
    type V = WidgetView;

    open spec fn view(&self) -> WidgetView {
        match self {
            Widget::Label { text } => WidgetView::Label { text: text@ },
            Widget::TextInput { cell } => WidgetView::TextInput { cell: *cell as int },
            Widget::Button { label, callback } => WidgetView::Button {
                label: label@,
                callback: *callback,
            },
            Widget::Separator => WidgetView::Separator,
            Widget::Checkbox { label, cell } => WidgetView::Checkbox {
                label: label@,
                cell: *cell as int,
            },
        }
    }
}

/// The mathematical state of a [`Registry`]: the declared widgets in order,
/// and the two cell stores.
#[verifier::ext_equal]
pub struct RegistryView {
    pub widgets: Seq<WidgetView>,
    pub text_cells: Seq<Seq<char>>,
    pub bool_cells: Seq<bool>,
}

impl RegistryView {
    /// The cell index a widget reads and writes lies inside the store that
    /// holds cells of its kind.
    pub open spec fn widget_in_range(self, w: WidgetView) -> bool {
        match w {
            WidgetView::TextInput { cell } => 0 <= cell < self.text_cells.len(),
            WidgetView::Checkbox { cell, .. } => 0 <= cell < self.bool_cells.len(),
            _ => true,
        }
    }

    /// Both widgets claim ownership of one cell.
    pub open spec fn claims_same_cell(a: WidgetView, b: WidgetView) -> bool {
        ||| (a matches WidgetView::TextInput { cell: ca } && b matches WidgetView::TextInput {
            cell: cb,
        } && ca == cb)
        ||| (a matches WidgetView::Checkbox { cell: ca, .. } && b matches WidgetView::Checkbox {
            cell: cb,
            ..
        } && ca == cb)
    }

    /// Well-formedness: every widget's cell lies in its store, and no cell is
    /// owned by more than one widget.
    pub open spec fn wf(self) -> bool {
        &&& forall|i: int|
            0 <= i < self.widgets.len() ==> self.widget_in_range(#[trigger] self.widgets[i])
        &&& forall|i: int, j: int|
            0 <= i < j < self.widgets.len() ==> !Self::claims_same_cell(
                #[trigger] self.widgets[i],
                #[trigger] self.widgets[j],
            )
    }
}

/// One call of a binding function, as the mathematics sees it: which of the
/// five binding functions the script called, with what arguments.
pub enum BindingCallView {
    Label { text: Seq<char> },
    TextInput,
    Button { label: Seq<char>, callback: u64 },
    Separator,
    Checkbox { label: Seq<char> },
}

/// The widget one binding call declares, against a given registry state: a
/// stateful widget is bound to the next free cell of its store.
pub open spec fn declared_widget(r: RegistryView, c: BindingCallView) -> WidgetView {
    match c {
        BindingCallView::Label { text } => WidgetView::Label { text },
        BindingCallView::TextInput => WidgetView::TextInput { cell: r.text_cells.len() as int },
        BindingCallView::Button { label, callback } => WidgetView::Button { label, callback },
        BindingCallView::Separator => WidgetView::Separator,
        BindingCallView::Checkbox { label } => WidgetView::Checkbox {
            label,
            cell: r.bool_cells.len() as int,
        },
    }
}

/// The registry after one binding call: exactly one widget appended, and at
/// most one fresh cell allocated with its documented initial value.
pub open spec fn apply_call(r: RegistryView, c: BindingCallView) -> RegistryView {
    RegistryView {
        widgets: r.widgets.push(declared_widget(r, c)),
        text_cells: if c is TextInput {
            r.text_cells.push(Seq::<char>::empty())
        } else {
            r.text_cells
        },
        bool_cells: if c is Checkbox {
            r.bool_cells.push(false)
        } else {
            r.bool_cells
        },
    }
}

/// The registry after a whole sequence of binding calls, first call first.
pub open spec fn apply_calls(r: RegistryView, cs: Seq<BindingCallView>) -> RegistryView
    decreases cs.len(),
{
    if cs.len() == 0 {
        r
    } else {
        apply_call(apply_calls(r, cs.drop_last()), cs.last())
    }
}

/// One binding call keeps the registry well formed: the fresh cell is its
/// store's next index, so it lies in range and no existing widget owns it.
pub proof fn lemma_apply_call_wf(r: RegistryView, c: BindingCallView)
    requires
        r.wf(),
    ensures
        apply_call(r, c).wf(),
{
    let w = declared_widget(r, c);
    let post = apply_call(r, c);
    assert forall|i: int|
        0 <= i < r.widgets.len() implies !RegistryView::claims_same_cell(
        #[trigger] r.widgets[i],
        w,
    ) by {
        assert(r.widget_in_range(r.widgets[i]));
    }
    lemma_push_preserves_wf(r, post, w);
}

/// Appending a widget that stays inside the (possibly grown) cell stores and
/// claims no cell an existing widget owns preserves well-formedness.
proof fn lemma_push_preserves_wf(pre: RegistryView, post: RegistryView, w: WidgetView)
    requires
        pre.wf(),
        post.widgets == pre.widgets.push(w),
        pre.text_cells.len() <= post.text_cells.len(),
        pre.bool_cells.len() <= post.bool_cells.len(),
        post.widget_in_range(w),
        forall|i: int|
            0 <= i < pre.widgets.len() ==> !RegistryView::claims_same_cell(
                #[trigger] pre.widgets[i],
                w,
            ),
    ensures
        post.wf(),
{
    assert forall|i: int|
        0 <= i < post.widgets.len() implies post.widget_in_range(#[trigger] post.widgets[i]) by {
        if i < pre.widgets.len() {
            assert(pre.widget_in_range(pre.widgets[i]));
        }
    }
    assert forall|i: int, j: int|
        0 <= i < j < post.widgets.len() implies !RegistryView::claims_same_cell(
        #[trigger] post.widgets[i],
        #[trigger] post.widgets[j],
    ) by {
        if j < pre.widgets.len() {
            assert(!RegistryView::claims_same_cell(pre.widgets[i], pre.widgets[j]));
        } else {
            assert(!RegistryView::claims_same_cell(pre.widgets[i], w));
        }
    }
}

/// The insertion-ordered sequence of declared widgets, together with the
/// shared cells they own.  Binding functions append; the render pass reads
/// and mutates cells; a script reload clears the widget list while the cell
/// stores only grow, so handles the script still holds keep reading.
pub struct Registry {
    pub widgets: Vec<Widget>,
    pub text_cells: Vec<String>,
    pub bool_cells: Vec<bool>,
}

impl View for Registry {
    type V = RegistryView;

    open spec fn view(&self) -> RegistryView {
        RegistryView {
            widgets: Seq::new(self.widgets@.len(), |i: int| self.widgets@[i]@),
            text_cells: Seq::new(self.text_cells@.len(), |i: int| self.text_cells@[i]@),
            bool_cells: self.bool_cells@,
        }
    }
}

/// A script-side handle over a text input's shared cell: a read-only view of
/// the text the user has typed into that one widget.
#[derive(Clone, Copy)]
pub struct TextEditOutput {
    pub cell: usize,
}

impl TextEditOutput {
    /// The handle names a cell that the registry's text store holds.
    pub open spec fn wf(self, r: RegistryView) -> bool {
        self.cell < r.text_cells.len()
    }

    /// The latest value the widget wrote into the shared cell.
    pub fn get_text(&self, reg: &Registry) -> (r: String)
        requires
            self.wf(reg@),
        ensures
            r@ == reg@.text_cells[self.cell as int],
    {
        reg.text_cells[self.cell].clone()
    }
}

/// A script-side handle over a checkbox's shared cell: a read-only view of
/// whether that one checkbox is currently checked.
#[derive(Clone, Copy)]
pub struct CheckBoxOutput {
    pub cell: usize,
}

impl CheckBoxOutput {
    /// The handle names a cell that the registry's boolean store holds.
    pub open spec fn wf(self, r: RegistryView) -> bool {
        self.cell < r.bool_cells.len()
    }

    /// The latest value the widget wrote into the shared cell.
    pub fn is_checked(&self, reg: &Registry) -> (r: bool)
        requires
            self.wf(reg@),
        ensures
            r == reg@.bool_cells[self.cell as int],
    {
        reg.bool_cells[self.cell]
    }
}

impl Registry {
    /// An empty registry: no widgets declared, no cells allocated.
    pub fn new() -> (r: Registry)
        ensures
            r@.wf(),
            r@.widgets =~= Seq::<WidgetView>::empty(),
            r@.text_cells =~= Seq::<Seq<char>>::empty(),
            r@.bool_cells =~= Seq::<bool>::empty(),
    {
        Registry { widgets: Vec::new(), text_cells: Vec::new(), bool_cells: Vec::new() }
    }

    /// How many widgets the script has declared.
    pub fn len(&self) -> (n: usize)
        ensures
            n == self@.widgets.len(),
    {
        self.widgets.len()
    }

    /// Binding function for a static text label: appends one widget and
    /// touches no cell.
    pub fn label(&mut self, text: String)
        requires
            old(self)@.wf(),
        ensures
            final(self)@.wf(),
            final(self)@.widgets =~= old(self)@.widgets.push(WidgetView::Label { text: text@ }),
            final(self)@.text_cells =~= old(self)@.text_cells,
            final(self)@.bool_cells =~= old(self)@.bool_cells,
            final(self)@ == apply_call(old(self)@, BindingCallView::Label { text: text@ }),
    {
        let ghost pre = self@;
        let ghost t = text@;
        self.widgets.push(Widget::Label { text });
        proof {
            assert(self@.widgets =~= pre.widgets.push(WidgetView::Label { text: t }));
            assert(self@.text_cells =~= pre.text_cells);
            lemma_push_preserves_wf(pre, self@, WidgetView::Label { text: t });
            assert(self@ =~= apply_call(pre, BindingCallView::Label { text: t }));
        }
    }

    /// Binding function for a single-line text input: allocates one fresh
    /// shared string cell, initially empty, appends the widget bound to it,
    /// and returns the script-side handle over the same cell.
    pub fn text_input(&mut self) -> (h: TextEditOutput)
        requires
            old(self)@.wf(),
        ensures
            final(self)@.wf(),
            h.cell == old(self)@.text_cells.len(),
            h.wf(final(self)@),
            final(self)@.widgets =~= old(self)@.widgets.push(
                WidgetView::TextInput { cell: h.cell as int },
            ),
            final(self)@.text_cells =~= old(self)@.text_cells.push(Seq::<char>::empty()),
            final(self)@.bool_cells =~= old(self)@.bool_cells,
            final(self)@ == apply_call(old(self)@, BindingCallView::TextInput),
    {
        let ghost pre = self@;
        let cell = self.text_cells.len();
        self.text_cells.push(String::new());
        self.widgets.push(Widget::TextInput { cell });
        proof {
            assert(self@.widgets =~= pre.widgets.push(WidgetView::TextInput { cell: cell as int }));
            assert(self@.text_cells =~= pre.text_cells.push(Seq::<char>::empty()));
            assert forall|i: int|
                0 <= i < pre.widgets.len() implies !RegistryView::claims_same_cell(
                #[trigger] pre.widgets[i],
                WidgetView::TextInput { cell: cell as int },
            ) by {
                assert(pre.widget_in_range(pre.widgets[i]));
            }
            lemma_push_preserves_wf(pre, self@, WidgetView::TextInput { cell: cell as int });
            assert(self@ =~= apply_call(pre, BindingCallView::TextInput));
        }
        TextEditOutput { cell }
    }

    /// Binding function for a clickable button: appends one widget carrying
    /// the label and the opaque callback identifier, and touches no cell.
    pub fn button(&mut self, label: String, callback: u64)
        requires
            old(self)@.wf(),
        ensures
            final(self)@.wf(),
            final(self)@.widgets =~= old(self)@.widgets.push(
                WidgetView::Button { label: label@, callback },
            ),
            final(self)@.text_cells =~= old(self)@.text_cells,
            final(self)@.bool_cells =~= old(self)@.bool_cells,
            final(self)@ == apply_call(
                old(self)@,
                BindingCallView::Button { label: label@, callback },
            ),
    {
        let ghost pre = self@;
        let ghost l = label@;
        self.widgets.push(Widget::Button { label, callback });
        proof {
            assert(self@.widgets =~= pre.widgets.push(WidgetView::Button { label: l, callback }));
            assert(self@.text_cells =~= pre.text_cells);
            lemma_push_preserves_wf(pre, self@, WidgetView::Button { label: l, callback });
            assert(self@ =~= apply_call(pre, BindingCallView::Button { label: l, callback }));
        }
    }

    /// Binding function for a purely visual divider: appends one stateless
    /// widget.
    pub fn separator(&mut self)
        requires
            old(self)@.wf(),
        ensures
            final(self)@.wf(),
            final(self)@.widgets =~= old(self)@.widgets.push(WidgetView::Separator),
            final(self)@.text_cells =~= old(self)@.text_cells,
            final(self)@.bool_cells =~= old(self)@.bool_cells,
            final(self)@ == apply_call(old(self)@, BindingCallView::Separator),
    {
        let ghost pre = self@;
        self.widgets.push(Widget::Separator);
        proof {
            assert(self@.widgets =~= pre.widgets.push(WidgetView::Separator));
            assert(self@.text_cells =~= pre.text_cells);
            lemma_push_preserves_wf(pre, self@, WidgetView::Separator);
            assert(self@ =~= apply_call(pre, BindingCallView::Separator));
        }
    }

    /// Binding function for a checkbox: allocates one fresh shared boolean
    /// cell, initially unchecked, appends the widget bound to it, and returns
    /// the script-side handle over the same cell.
    pub fn checkbox(&mut self, label: String) -> (h: CheckBoxOutput)
        requires
            old(self)@.wf(),
        ensures
            final(self)@.wf(),
            h.cell == old(self)@.bool_cells.len(),
            h.wf(final(self)@),
            final(self)@.widgets =~= old(self)@.widgets.push(
                WidgetView::Checkbox { label: label@, cell: h.cell as int },
            ),
            final(self)@.text_cells =~= old(self)@.text_cells,
            final(self)@.bool_cells =~= old(self)@.bool_cells.push(false),
            final(self)@ == apply_call(old(self)@, BindingCallView::Checkbox { label: label@ }),
    {
        let ghost pre = self@;
        let ghost l = label@;
        let cell = self.bool_cells.len();
        self.bool_cells.push(false);
        self.widgets.push(Widget::Checkbox { label, cell });
        proof {
            assert(self@.widgets =~= pre.widgets.push(
                WidgetView::Checkbox { label: l, cell: cell as int },
            ));
            assert(self@.text_cells =~= pre.text_cells);
            assert forall|i: int|
                0 <= i < pre.widgets.len() implies !RegistryView::claims_same_cell(
                #[trigger] pre.widgets[i],
                WidgetView::Checkbox { label: l, cell: cell as int },
            ) by {
                assert(pre.widget_in_range(pre.widgets[i]));
            }
            lemma_push_preserves_wf(pre, self@, WidgetView::Checkbox { label: l, cell: cell as int });
            assert(self@ =~= apply_call(pre, BindingCallView::Checkbox { label: l }));
        }
        CheckBoxOutput { cell }
    }

    /// Forgets every declared widget, so a reloaded script starts from an
    /// empty declaration order.  The cell stores are kept: a handle the
    /// script still holds goes on reading the cell it always read.
    pub fn clear(&mut self)
        requires
            old(self)@.wf(),
        ensures
            final(self)@.wf(),
            final(self)@.widgets =~= Seq::<WidgetView>::empty(),
            final(self)@.text_cells =~= old(self)@.text_cells,
            final(self)@.bool_cells =~= old(self)@.bool_cells,
    {
        self.widgets.clear();
        proof {
            assert(self@.widgets =~= Seq::<WidgetView>::empty());
            assert(self@.text_cells =~= old(self)@.text_cells);
        }
    }

    /// Overwrites one shared string cell with the text the user typed this
    /// frame.  Every other cell, and the widget list, is untouched.
    pub fn write_text_cell(&mut self, cell: usize, value: String)
        requires
            old(self)@.wf(),
            cell < old(self)@.text_cells.len(),
        ensures
            final(self)@.wf(),
            final(self)@.widgets =~= old(self)@.widgets,
            final(self)@.text_cells =~= old(self)@.text_cells.update(cell as int, value@),
            final(self)@.bool_cells =~= old(self)@.bool_cells,
    {
        let ghost pre = self@;
        let ghost v = value@;
        self.text_cells.set(cell, value);
        proof {
            assert(self@.widgets =~= pre.widgets);
            assert(self@.text_cells =~= pre.text_cells.update(cell as int, v));
            assert forall|i: int|
                0 <= i < self@.widgets.len() implies self@.widget_in_range(
                #[trigger] self@.widgets[i],
            ) by {
                assert(pre.widget_in_range(pre.widgets[i]));
            }
        }
    }

    /// Flips one shared boolean cell, as a user's toggle of its checkbox
    /// does.  Every other cell, and the widget list, is untouched.
    pub fn toggle_bool_cell(&mut self, cell: usize)
        requires
            old(self)@.wf(),
            cell < old(self)@.bool_cells.len(),
        ensures
            final(self)@.wf(),
            final(self)@.widgets =~= old(self)@.widgets,
            final(self)@.text_cells =~= old(self)@.text_cells,
            final(self)@.bool_cells =~= old(self)@.bool_cells.update(
                cell as int,
                !old(self)@.bool_cells[cell as int],
            ),
    {
        let ghost pre = self@;
        let current = self.bool_cells[cell];
        self.bool_cells.set(cell, !current);
        proof {
            assert(self@.widgets =~= pre.widgets);
            assert(self@.text_cells =~= pre.text_cells);
            assert forall|i: int|
                0 <= i < self@.widgets.len() implies self@.widget_in_range(
                #[trigger] self@.widgets[i],
            ) by {
                assert(pre.widget_in_range(pre.widgets[i]));
            }
        }
    }
}

} // verus!
