//! The render pass: one frame's walk over the registry.
//!
//! The frame driver observes what the user did to each widget this frame and
//! hands it in as a [`WidgetInput`].  For each widget, in declaration order,
//! the pass applies that input to the widget's shared cell and yields a
//! [`RenderStep`]: the drawing the host surface should perform and, for a
//! clicked button, the script callback to invoke before moving on.  Callback
//! outcomes are not inputs to the pass: a callback that fails is reported by
//! the driver, and every later widget still gets its step.

use vstd::prelude::*;

use crate::registry::Registry;
use crate::registry::RegistryView;
use crate::registry::Widget;
use crate::registry::WidgetView;

verus! {

/// What the frame driver observed the user do to one widget this frame.
pub enum WidgetInput {
    /// No interaction.
    Idle,
    /// The user left this text input holding this text.
    EditText(String),
    /// The user clicked this button.
    Click,
    /// The user toggled this checkbox.
    Toggle,
}

/// The mathematical shape of a [`WidgetInput`].
pub enum WidgetInputView {
    Idle,
    EditText(Seq<char>),
    Click,
    Toggle,
}

impl View for WidgetInput {
    type V = WidgetInputView;

    open spec fn view(&self) -> WidgetInputView {
        match self {
            WidgetInput::Idle => WidgetInputView::Idle,
            WidgetInput::EditText(s) => WidgetInputView::EditText(s@),
            WidgetInput::Click => WidgetInputView::Click,
            WidgetInput::Toggle => WidgetInputView::Toggle,
        }
    }
}

/// What one widget asks the host surface to draw this frame.  Stateful
/// widgets show their shared cell as it stands after this frame's input.
pub enum DrawCommand {
    Label { text: String },
    TextField { text: String },
    Button { label: String },
    Separator,
    Checkbox { label: String, checked: bool },
}

/// The mathematical shape of a [`DrawCommand`].
pub enum DrawCommandView {
    Label { text: Seq<char> },
    TextField { text: Seq<char> },
    Button { label: Seq<char> },
    Separator,
    Checkbox { label: Seq<char>, checked: bool },
}

impl View for DrawCommand {
    type V = DrawCommandView;

    open spec fn view(&self) -> DrawCommandView {
        match self {
            DrawCommand::Label { text } => DrawCommandView::Label { text: text@ },
            DrawCommand::TextField { text } => DrawCommandView::TextField { text: text@ },
            DrawCommand::Button { label } => DrawCommandView::Button { label: label@ },
            DrawCommand::Separator => DrawCommandView::Separator,
            DrawCommand::Checkbox { label, checked } => DrawCommandView::Checkbox {
                label: label@,
                checked: *checked,
            },
        }
    }
}

/// One widget's render result: what to draw, and which script callback (if
/// any) the driver must invoke synchronously before the next widget.
pub struct RenderStep {
    pub command: DrawCommand,
    pub callback: Option<u64>,
}

/// The mathematical shape of a [`RenderStep`].
pub struct RenderStepView {
    pub command: DrawCommandView,
    pub callback: Option<u64>,
}

impl View for RenderStep {
    type V = RenderStepView;

    open spec fn view(&self) -> RenderStepView {
        RenderStepView { command: self.command@, callback: self.callback }
    }
}

/// The registry's cells after one widget absorbs one frame's input: an edit
/// overwrites the text input's cell, a toggle flips the checkbox's cell, and
/// everything else changes nothing.  The widget list never changes during a
/// render pass.
pub open spec fn cells_after_widget(
    r: RegistryView,
    w: WidgetView,
    input: WidgetInputView,
) -> RegistryView {
    match (w, input) {
        (WidgetView::TextInput { cell }, WidgetInputView::EditText(s)) => RegistryView {
            text_cells: r.text_cells.update(cell, s),
            ..r
        },
        (WidgetView::Checkbox { cell, .. }, WidgetInputView::Toggle) => RegistryView {
            bool_cells: r.bool_cells.update(cell, !r.bool_cells[cell]),
            ..r
        },
        _ => r,
    }
}

/// What a widget draws, given the registry as it stands once this frame's
/// input has reached the widget's cell.  Labels, buttons and separators draw
/// their static configuration alone; a text field or checkbox shows its
/// shared cell.
pub open spec fn widget_command(r: RegistryView, w: WidgetView) -> DrawCommandView {
    match w {
        WidgetView::Label { text } => DrawCommandView::Label { text },
        WidgetView::TextInput { cell } => DrawCommandView::TextField { text: r.text_cells[cell] },
        WidgetView::Button { label, .. } => DrawCommandView::Button { label },
        WidgetView::Separator => DrawCommandView::Separator,
        WidgetView::Checkbox { label, cell } => DrawCommandView::Checkbox {
            label,
            checked: r.bool_cells[cell],
        },
    }
}

/// The script callback a widget's interaction demands: exactly a clicked
/// button's callback, nothing otherwise.
pub open spec fn widget_callback(w: WidgetView, input: WidgetInputView) -> Option<u64> {
    match (w, input) {
        (WidgetView::Button { callback, .. }, WidgetInputView::Click) => Some(callback),
        _ => None,
    }
}

/// The view of a sequence of frame inputs.
pub open spec fn inputs_view(inputs: Seq<WidgetInput>) -> Seq<WidgetInputView> {
    Seq::new(inputs.len(), |i: int| inputs[i]@)
}

/// The registry's cells after the first `n` widgets have absorbed their
/// inputs, in declaration order.
pub open spec fn pass_cells(r: RegistryView, inputs: Seq<WidgetInputView>, n: int) -> RegistryView
    decreases n,
{
    if n <= 0 {
        r
    } else {
        cells_after_widget(pass_cells(r, inputs, n - 1), r.widgets[n - 1], inputs[n - 1])
    }
}

/// The step the pass yields for widget `j`: its draw command over the cells
/// as they stand once inputs `0..=j` have been absorbed, and its demanded
/// callback.  Nothing about any callback's outcome occurs here: a failing
/// callback at an earlier widget cannot change a later widget's step.
pub open spec fn pass_step(
    r: RegistryView,
    inputs: Seq<WidgetInputView>,
    j: int,
) -> RenderStepView {
    RenderStepView {
        command: widget_command(pass_cells(r, inputs, j + 1), r.widgets[j]),
        callback: widget_callback(r.widgets[j], inputs[j]),
    }
}

/// Absorbing one widget's input never changes the widget list and never
/// changes how many cells each store holds, and it keeps the registry well
/// formed.
pub proof fn lemma_cells_after_widget_frame(r: RegistryView, w: WidgetView, input: WidgetInputView)
    requires
        r.widget_in_range(w),
    ensures
        cells_after_widget(r, w, input).widgets == r.widgets,
        cells_after_widget(r, w, input).text_cells.len() == r.text_cells.len(),
        cells_after_widget(r, w, input).bool_cells.len() == r.bool_cells.len(),
        r.wf() ==> cells_after_widget(r, w, input).wf(),
{
    let post = cells_after_widget(r, w, input);
    if r.wf() {
        assert forall|i: int|
            0 <= i < post.widgets.len() implies post.widget_in_range(#[trigger] post.widgets[i]) by {
            assert(r.widget_in_range(r.widgets[i]));
        }
    }
}

/// The same, over a whole prefix of the pass.
pub proof fn lemma_pass_cells_frame(r: RegistryView, inputs: Seq<WidgetInputView>, n: int)
    requires
        r.wf(),
        n <= r.widgets.len(),
    ensures
        pass_cells(r, inputs, n).widgets == r.widgets,
        pass_cells(r, inputs, n).text_cells.len() == r.text_cells.len(),
        pass_cells(r, inputs, n).bool_cells.len() == r.bool_cells.len(),
        pass_cells(r, inputs, n).wf(),
    decreases n,
{
    if n > 0 {
        lemma_pass_cells_frame(r, inputs, n - 1);
        let prev = pass_cells(r, inputs, n - 1);
        assert(prev.widget_in_range(prev.widgets[n - 1]));
        lemma_cells_after_widget_frame(prev, r.widgets[n - 1], inputs[n - 1]);
    }
}

/// Renders one widget: applies this frame's input to the widget's shared
/// cell and reports what to draw and which callback to invoke.
pub fn render_widget(reg: &mut Registry, i: usize, input: &WidgetInput) -> (step: RenderStep)
    requires
        old(reg)@.wf(),
        i < old(reg)@.widgets.len(),
    ensures
        final(reg)@.wf(),
        final(reg)@ == cells_after_widget(old(reg)@, old(reg)@.widgets[i as int], input@),
        step@.command == widget_command(final(reg)@, old(reg)@.widgets[i as int]),
        step@.callback == widget_callback(old(reg)@.widgets[i as int], input@),
{
    let ghost pre = reg@;
    let ghost w = reg@.widgets[i as int];
    proof {
        assert(pre.widget_in_range(w));
    }
    match &reg.widgets[i] {
        Widget::Label { text } => {
            let t = text.clone();
            proof {
                assert(reg@ =~= cells_after_widget(pre, w, input@));
            }
            RenderStep { command: DrawCommand::Label { text: t }, callback: None }
        },
        Widget::TextInput { cell } => {
            let c: usize = *cell;
            if let WidgetInput::EditText(s) = input {
                let edited = s.clone();
                reg.text_cells.set(c, edited);
            }
            let shown = reg.text_cells[c].clone();
            proof {
                assert(reg@.text_cells =~= cells_after_widget(pre, w, input@).text_cells);
                assert(reg@ =~= cells_after_widget(pre, w, input@));
            }
            RenderStep { command: DrawCommand::TextField { text: shown }, callback: None }
        },
        Widget::Button { label, callback } => {
            let l = label.clone();
            let cb: u64 = *callback;
            let invoked: Option<u64> = if let WidgetInput::Click = input {
                Some(cb)
            } else {
                None
            };
            proof {
                assert(reg@ =~= cells_after_widget(pre, w, input@));
            }
            RenderStep { command: DrawCommand::Button { label: l }, callback: invoked }
        },
        Widget::Separator => {
            proof {
                assert(reg@ =~= cells_after_widget(pre, w, input@));
            }
            RenderStep { command: DrawCommand::Separator, callback: None }
        },
        Widget::Checkbox { label, cell } => {
            let l = label.clone();
            let c: usize = *cell;
            if let WidgetInput::Toggle = input {
                let current = reg.bool_cells[c];
                reg.bool_cells.set(c, !current);
            }
            let checked = reg.bool_cells[c];
            proof {
                assert(reg@.bool_cells =~= cells_after_widget(pre, w, input@).bool_cells);
                assert(reg@ =~= cells_after_widget(pre, w, input@));
            }
            RenderStep { command: DrawCommand::Checkbox { label: l, checked }, callback: None }
        },
    }
}

/// One frame's walk over the registry, as the frame driver runs it: a cursor
/// over the declaration order, and the callback errors reported so far.
///
/// The driver alternates [`FrameWalk::step`], which renders the widget under
/// the cursor and advances, with its own work: drawing the returned command
/// and invoking the callback the step demands.  A failed callback goes into
/// [`FrameWalk::report_callback_error`], which moves neither the cursor nor
/// any cell: the widgets still to be rendered are exactly those of a frame in
/// which the callback had succeeded, so an error never prevents
/// subsequently declared widgets from rendering in the same frame.
pub struct FrameWalk {
    pub next: usize,
    pub errors: Vec<String>,
}

impl FrameWalk {
    /// A walk standing before the first declared widget, with no error
    /// reported.
    pub fn begin() -> (w: FrameWalk)
        ensures
            w.next == 0,
            w.errors@ =~= Seq::<String>::empty(),
    {
        FrameWalk { next: 0, errors: Vec::new() }
    }

    /// Whether every declared widget has been rendered.
    pub fn done(&self, reg: &Registry) -> (d: bool)
        ensures
            d == (self.next >= reg@.widgets.len()),
    {
        self.next >= reg.len()
    }

    /// Renders the widget under the cursor and advances past it.  What the
    /// step holds and what the cells become depend on the registry and the
    /// input alone; the errors reported so far play no part and stay as they
    /// are.
    pub fn step(&mut self, reg: &mut Registry, input: &WidgetInput) -> (step: RenderStep)
        requires
            old(reg)@.wf(),
            old(self).next < old(reg)@.widgets.len(),
        ensures
            final(self).next == old(self).next + 1,
            final(self).errors == old(self).errors,
            final(reg)@.wf(),
            final(reg)@ == cells_after_widget(
                old(reg)@,
                old(reg)@.widgets[old(self).next as int],
                input@,
            ),
            step@.command == widget_command(final(reg)@, old(reg)@.widgets[old(self).next as int]),
            step@.callback == widget_callback(old(reg)@.widgets[old(self).next as int], input@),
    {
        let n = reg.len();
        let step = render_widget(reg, self.next, input);
        proof {
            assert(self.next < n);
        }
        self.next = self.next + 1;
        step
    }

    /// Records that the callback the last step demanded raised an error.
    /// The cursor and the registry are untouched: rendering goes on with the
    /// next declared widget.
    pub fn report_callback_error(&mut self, message: String)
        ensures
            final(self).next == old(self).next,
            final(self).errors@ =~= old(self).errors@.push(message),
    {
        self.errors.push(message);
    }
}

/// One whole frame: walks the registry in declaration order, applies every
/// widget's input to its cell, and yields one step per widget.  Every
/// declared widget yields its step: callback outcomes are not inputs here,
/// so an earlier callback's failure cannot suppress a later widget.
pub fn render_pass(reg: &mut Registry, inputs: &Vec<WidgetInput>) -> (steps: Vec<RenderStep>)
    requires
        old(reg)@.wf(),
        inputs@.len() == old(reg)@.widgets.len(),
    ensures
        final(reg)@.wf(),
        final(reg)@ == pass_cells(
            old(reg)@,
            inputs_view(inputs@),
            old(reg)@.widgets.len() as int,
        ),
        final(reg)@.widgets == old(reg)@.widgets,
        steps@.len() == old(reg)@.widgets.len(),
        forall|j: int|
            0 <= j < steps@.len() ==> (#[trigger] steps@[j])@ == pass_step(
                old(reg)@,
                inputs_view(inputs@),
                j,
            ),
{
    let ghost orig = reg@;
    let ghost iv = inputs_view(inputs@);
    let n = reg.len();
    let mut steps: Vec<RenderStep> = Vec::new();
    let mut i: usize = 0;
    while i < n
        invariant
            orig.wf(),
            n == orig.widgets.len(),
            inputs@.len() == n,
            iv == inputs_view(inputs@),
            i <= n,
            reg@ == pass_cells(orig, iv, i as int),
            steps@.len() == i,
            forall|j: int|
                0 <= j < i ==> (#[trigger] steps@[j])@ == pass_step(orig, iv, j),
        decreases n - i,
    {
        proof {
            lemma_pass_cells_frame(orig, iv, i as int);
            assert(iv[i as int] == inputs@[i as int]@);
        }
        let step = render_widget(reg, i, &inputs[i]);
        proof {
            assert(reg@ == pass_cells(orig, iv, i as int + 1));
        }
        steps.push(step);
        i = i + 1;
    }
    proof {
        lemma_pass_cells_frame(orig, iv, n as int);
    }
    steps
}

} // verus!
