//! Containers and selectable lists.

use vstd::prelude::*;

use crate::config::{ConfigField, RuntimeConfig};
use crate::input::{PadButton, PadData};
use crate::ui::render::{Backend, DrawCall, Renderer};
use crate::ui::{
    draw_upto, handled_upto, heights, lands, prefix_sum, stackable, stacked, toggles_upto,
    widget_views, Color4f, Point, Rect, Widget, WidgetView,
};

verus! {

/// A coloured box of a fixed size whose children are stacked top to bottom.
#[derive(Debug)]
pub struct Container {
    dimensions: (u32, u32),
    color: Color4f,
    children: Vec<Widget>,
}

/// A stack of entries that can be walked through with up and down. The
/// selection counts from one; `None` means that nothing is selected.
#[derive(Debug)]
pub struct List {
    selectable: bool,
    selected: Option<usize>,
    handler: ListHandler,
    max_height: Option<u32>,
    children: Vec<Container>,
}

/// Who is told when the selection of a list moves.
#[derive(Clone, Copy, Debug, PartialEq, Eq, Structural)]
pub enum ListHandler {
    /// The list of modules, which has nothing to do about it.
    Modules,
}

/// What a [`Container`] is, with its children as a sequence.
pub struct ContainerView {
    pub dimensions: (u32, u32),
    pub color: Color4f,
    pub children: Seq<WidgetView>,
}

/// What a [`List`] is, with its children as a sequence.
pub struct ListView {
    pub selectable: bool,
    pub selected: Option<usize>,
    pub handler: ListHandler,
    pub max_height: Option<u32>,
    pub children: Seq<ContainerView>,
}

impl View for Container {
    type V = ContainerView;

    open spec fn view(&self) -> ContainerView {
        self.model()
    }
}

impl Container {
    /// The container with its children as a sequence.
    pub closed spec fn model(&self) -> ContainerView
        decreases self,
    {
        ContainerView {
            dimensions: self.dimensions,
            color: self.color,
            children: Seq::new(
                self.children@.len(),
                |i: int|
                    if 0 <= i < self.children@.len() {
                        self.children@[i].model()
                    } else {
                        arbitrary()
                    },
            ),
        }
    }
}

impl View for List {
    type V = ListView;

    open spec fn view(&self) -> ListView {
        self.model()
    }
}

impl List {
    /// The list with its entries as a sequence.
    pub closed spec fn model(&self) -> ListView
        decreases self,
    {
        ListView {
            selectable: self.selectable,
            selected: self.selected,
            handler: self.handler,
            max_height: self.max_height,
            children: Seq::new(
                self.children@.len(),
                |i: int|
                    if 0 <= i < self.children@.len() {
                        self.children@[i].model()
                    } else {
                        arbitrary()
                    },
            ),
        }
    }
}

/// The colour behind the selected entry of a list: red, four fifths opaque.
pub open spec fn highlight() -> Color4f {
    Color4f { r: 0x3f80_0000, g: 0, b: 0, alpha: 0x3f4c_cccd }
}

impl ContainerView {
    /// Whether every list in the container is well formed.
    pub open spec fn wf(self) -> bool
        decreases self,
    {
        forall|i: int| 0 <= i < self.children.len() ==> (#[trigger] self.children[i]).wf()
    }

    /// Whether the container reports `inputs` as handled: every child sees
    /// them, and one that handles them is enough.
    pub open spec fn handles(self, inputs: PadData) -> bool
        decreases self, 1int,
    {
        handled_upto(self.children, inputs, self.children.len() as int)
    }

    /// The settings that the container's children switch over on `inputs`.
    pub open spec fn toggles(self, inputs: PadData) -> Seq<ConfigField>
        decreases self, 1int,
    {
        toggles_upto(self.children, inputs, self.children.len() as int)
    }

    /// The container after each of its children has seen `inputs`.
    pub open spec fn after_input(self, inputs: PadData) -> ContainerView
        decreases self,
    {
        ContainerView {
            children: Seq::new(
                self.children.len(),
                |i: int|
                    if 0 <= i < self.children.len() {
                        self.children[i].after_input(inputs)
                    } else {
                        arbitrary()
                    },
            ),
            ..self
        }
    }

    /// Whether the container can be drawn at `base` without leaving the
    /// coordinate grid.
    pub open spec fn fits(self, base: Point) -> bool
        decreases self,
    {
        &&& stackable(heights(self.children), base)
        &&& forall|i: int|
            0 <= i < self.children.len() ==> (#[trigger] self.children[i]).fits(
                stacked(heights(self.children), base, i),
            )
    }

    /// The calls that draw the container at `base`: its background, then
    /// its children from top to bottom.
    pub open spec fn draw(self, base: Point, backend: Backend) -> Seq<DrawCall>
        decreases self, 1int,
    {
        backend.rect_calls(
            Rect { x: base.x, z: base.z, width: self.dimensions.0, height: self.dimensions.1 },
            self.color,
        ) + draw_upto(self.children, base, backend, self.children.len() as int)
    }
}

/// The heights of `entries`, in order.
pub open spec fn entry_heights(entries: Seq<ContainerView>) -> Seq<int> {
    Seq::new(entries.len(), |i: int| entries[i].dimensions.1 as int)
}

/// How many of the entries with the given heights are counted before the
/// walk stops: it stops in front of the first entry with which the sum
/// would exceed `cap`. No walk stops while `cap` is zero.
pub open spec fn counted(heights: Seq<int>, cap: int, k: int) -> int
    decreases heights.len() - k,
{
    if k < 0 || k >= heights.len() {
        heights.len() as int
    } else if cap > 0 && prefix_sum(heights, k + 1) > cap {
        k
    } else {
        counted(heights, cap, k + 1)
    }
}

/// The calls that draw the first `k` of the entries of a list, stacked from
/// `base` downwards, with the highlight behind the selected one.
pub open spec fn draw_entries(
    entries: Seq<ContainerView>,
    selected: int,
    base: Point,
    backend: Backend,
    k: int,
) -> Seq<DrawCall>
    decreases entries, k,
{
    if k <= 0 || k > entries.len() {
        Seq::empty()
    } else {
        let at = stacked(entry_heights(entries), base, k - 1);
        draw_entries(entries, selected, base, backend, k - 1) + (if selected == k {
            backend.rect_calls(
                Rect { x: at.x, z: at.z, width: List::WIDTH, height: entries[k - 1].dimensions.1 },
                highlight(),
            )
        } else {
            Seq::empty()
        }) + entries[k - 1].draw(at, backend)
    }
}

impl ListHandler {
    /// Told that the selection moved from `from` to `to`.
    pub fn on_select(&self, from: Option<usize>, to: usize) {
        match self {
            ListHandler::Modules => {},
        }
    }
}

impl ListView {
    /// The selection as a number: zero while nothing is selected.
    pub open spec fn index(self) -> int {
        match self.selected {
            Some(k) => k as int,
            None => 0,
        }
    }

    /// The greatest height that the list reports, zero for "no limit".
    pub open spec fn cap(self) -> int {
        match self.max_height {
            Some(c) => c as int,
            None => 0,
        }
    }

    /// The height that the list reports: the heights of its entries added
    /// up from the top, as far as the sum stays within the limit.
    pub open spec fn height(self) -> int {
        prefix_sum(
            entry_heights(self.children),
            counted(entry_heights(self.children), self.cap(), 0),
        )
    }

    /// Whether the list is well formed: a selection names one of the
    /// entries, the entries can be counted and the reported height is a
    /// 32-bit number, and every list further down is well formed too.
    pub open spec fn wf(self) -> bool
        decreases self,
    {
        &&& self.selected is Some ==> 1 <= self.index() <= self.children.len()
        &&& self.children.len() <= usize::MAX
        &&& self.height() <= u32::MAX
        &&& forall|i: int| 0 <= i < self.children.len() ==> (#[trigger] self.children[i]).wf()
    }

    /// The list after a step down: the selection moves on by one and stops
    /// at the last entry.
    pub open spec fn moved_down(self) -> ListView {
        if self.index() + 1 > self.children.len() {
            self
        } else {
            ListView { selected: Some((self.index() + 1) as usize), ..self }
        }
    }

    /// The list after a step up: the selection moves back by one and stops
    /// at the first entry.
    pub open spec fn moved_up(self) -> ListView {
        let target = if self.index() - 1 >= 1 {
            self.index() - 1
        } else {
            1
        };
        if target > self.children.len() {
            self
        } else {
            ListView { selected: Some(target as usize), ..self }
        }
    }

    /// Whether `inputs` reach the selected entry: the list is selectable,
    /// the inputs ask neither for down nor for up, and an entry is selected.
    pub open spec fn forwards(self, inputs: PadData) -> bool {
        &&& self.selectable
        &&& !inputs.is_down()
        &&& !inputs.is_up()
        &&& 1 <= self.index() <= self.children.len()
    }

    /// Whether the list reports `inputs` as handled.
    pub open spec fn handles(self, inputs: PadData) -> bool
        decreases self, 1int,
    {
        if !self.selectable {
            false
        } else if inputs.is_down() || inputs.is_up() {
            true
        } else if self.forwards(inputs) {
            self.children[self.index() - 1].handles(inputs)
        } else {
            false
        }
    }

    /// The settings that the selected entry switches over on `inputs`.
    pub open spec fn toggles(self, inputs: PadData) -> Seq<ConfigField>
        decreases self, 1int,
    {
        if self.forwards(inputs) {
            self.children[self.index() - 1].toggles(inputs)
        } else {
            Seq::empty()
        }
    }

    /// The list after it has seen `inputs`: down and up move the selection,
    /// anything else goes to the selected entry alone.
    pub open spec fn after_input(self, inputs: PadData) -> ListView
        decreases self,
    {
        if !self.selectable {
            self
        } else if inputs.is_down() {
            self.moved_down()
        } else if inputs.is_up() {
            self.moved_up()
        } else if self.forwards(inputs) {
            ListView {
                children: self.children.update(
                    self.index() - 1,
                    self.children[self.index() - 1].after_input(inputs),
                ),
                ..self
            }
        } else {
            self
        }
    }

    /// Whether the list can be drawn at `base` without leaving the
    /// coordinate grid.
    pub open spec fn fits(self, base: Point) -> bool
        decreases self,
    {
        &&& stackable(entry_heights(self.children), base)
        &&& forall|i: int|
            0 <= i < self.children.len() ==> (#[trigger] self.children[i]).fits(
                stacked(entry_heights(self.children), base, i),
            )
    }

    /// The calls that draw the list at `base`: every entry from top to
    /// bottom, whatever the limit on the reported height.
    pub open spec fn draw(self, base: Point, backend: Backend) -> Seq<DrawCall>
        decreases self, 1int,
    {
        draw_entries(self.children, self.index(), base, backend, self.children.len() as int)
    }
}

impl ListView {
    /// The entry that a list wraps around `widget`: a transparent container
    /// of the widget's size with the widget as its only child.
    pub open spec fn entry(widget: WidgetView) -> ContainerView {
        ContainerView {
            dimensions: (widget.width() as u32, widget.height() as u32),
            color: Color4f { r: 0, g: 0, b: 0, alpha: 0 },
            children: seq![widget],
        }
    }

    /// The list with `widget` as a further entry at the bottom.
    pub open spec fn pushed(self, widget: WidgetView) -> ListView {
        ListView { children: self.children.push(ListView::entry(widget)), ..self }
    }

    /// The list with the first `k` of `widgets` as further entries at the
    /// bottom.
    pub open spec fn appended(self, widgets: Seq<WidgetView>, k: int) -> ListView
        decreases k,
    {
        if k <= 0 || k > widgets.len() {
            self
        } else {
            self.appended(widgets, k - 1).pushed(widgets[k - 1])
        }
    }
}

impl Container {
    /// A container of the given colour and size that holds `items`.
    pub fn new(color: Color4f, dimensions: (u32, u32), items: Vec<Widget>) -> (container: Container)
        ensures
            container@ == (ContainerView { dimensions, color, children: widget_views(items@) }),
    {
        let container = Container { dimensions, color, children: items };
        assert(container@.children =~= widget_views(items@));
        container
    }

    /// The width of the container.
    pub fn get_width(&self) -> (width: u32)
        ensures
            width == self@.dimensions.0,
    {
        self.dimensions.0
    }

    /// The height of the container.
    pub fn get_height(&self) -> (height: u32)
        ensures
            height == self@.dimensions.1,
    {
        self.dimensions.1
    }

    /// The number of children.
    pub fn len(&self) -> (n: usize)
        ensures
            n == self@.children.len(),
    {
        self.children.len()
    }
}

/// Seeing an input changes no size and leaves well-formed widgets well
/// formed: a selection still names one of the entries afterwards.
pub proof fn lemma_widget_after_input(widget: WidgetView, inputs: PadData)
    requires
        widget.wf(),
    ensures
        widget.after_input(inputs).wf(),
        widget.after_input(inputs).width() == widget.width(),
        widget.after_input(inputs).height() == widget.height(),
    decreases widget,
{
    match widget {
        WidgetView::Container(c) => lemma_container_after_input(c, inputs),
        WidgetView::List(l) => lemma_list_after_input(l, inputs),
        _ => {},
    }
}

/// Seeing an input changes neither the size nor the colour of a container
/// nor the number of its children, and leaves a well-formed container well
/// formed.
pub proof fn lemma_container_after_input(container: ContainerView, inputs: PadData)
    requires
        container.wf(),
    ensures
        container.after_input(inputs).wf(),
        container.after_input(inputs).dimensions == container.dimensions,
        container.after_input(inputs).color == container.color,
        container.after_input(inputs).children.len() == container.children.len(),
    decreases container,
{
    assert forall|i: int| 0 <= i < container.children.len() implies (
    #[trigger] container.after_input(inputs).children[i]).wf() by {
        lemma_widget_after_input(container.children[i], inputs);
    }
}

/// Seeing an input changes neither the height of a list nor the number of
/// its entries, and leaves a well-formed list well formed: a selection
/// still names one of the entries afterwards.
pub proof fn lemma_list_after_input(list: ListView, inputs: PadData)
    requires
        list.wf(),
    ensures
        list.after_input(inputs).wf(),
        list.after_input(inputs).height() == list.height(),
        list.after_input(inputs).children.len() == list.children.len(),
        list.after_input(inputs).selectable == list.selectable,
        list.after_input(inputs).max_height == list.max_height,
        list.after_input(inputs).handler == list.handler,
    decreases list,
{
    let after = list.after_input(inputs);
    if list.forwards(inputs) {
        lemma_container_after_input(list.children[list.index() - 1], inputs);
        assert(entry_heights(after.children) =~= entry_heights(list.children));
    }
}

impl ListView {
    /// The list after it has seen each of `inputs`, first to last.
    pub open spec fn after_inputs(self, inputs: Seq<PadData>) -> ListView
        decreases inputs.len(),
    {
        if inputs.len() == 0 {
            self
        } else {
            self.after_inputs(inputs.drop_last()).after_input(inputs.last())
        }
    }
}

/// A selectable list on which nothing is selected, after any number of
/// inputs that all ask for down, has as many entries down selected as there
/// were inputs, but stops at its last entry.
pub proof fn lemma_down_selects(list: ListView, inputs: Seq<PadData>)
    requires
        list.wf(),
        list.selectable,
        list.selected is None,
        forall|i: int| 0 <= i < inputs.len() ==> (#[trigger] inputs[i]).is_down(),
    ensures
        list.after_inputs(inputs).index() == (if inputs.len() <= list.children.len() {
            inputs.len()
        } else {
            list.children.len()
        }),
        list.after_inputs(inputs).index() <= list.children.len(),
        list.after_inputs(inputs).children == list.children,
        list.after_inputs(inputs).selectable,
        list.after_inputs(inputs).wf(),
    decreases inputs.len(),
{
    if inputs.len() > 0 {
        lemma_down_selects(list, inputs.drop_last());
        lemma_list_after_input(list.after_inputs(inputs.drop_last()), inputs.last());
    }
}

/// Once an entry of a list is selected, an input that asks for up leaves an
/// entry selected: the selection never falls below one.
pub proof fn lemma_up_keeps_selection(list: ListView, inputs: PadData)
    requires
        list.wf(),
        list.selected is Some,
        inputs.is_up(),
    ensures
        list.after_input(inputs).selected is Some,
        1 <= list.after_input(inputs).index() <= list.children.len(),
        !inputs.is_down() && list.selectable ==> list.after_input(inputs).index() == (if list.index()
            > 1 {
            list.index() - 1
        } else {
            1
        }),
{
}

/// A container reports an input as handled exactly when one of its children
/// does.
pub proof fn lemma_handles_any(container: ContainerView, inputs: PadData)
    ensures
        container.handles(inputs) <==> exists|i: int|
            0 <= i < container.children.len() && (#[trigger] container.children[i]).handles(inputs),
{
    lemma_handled_upto(container.children, inputs, container.children.len() as int);
}

/// One of the first `k` children reports an input as handled exactly when
/// the walk over them says so.
pub proof fn lemma_handled_upto(children: Seq<WidgetView>, inputs: PadData, k: int)
    requires
        0 <= k <= children.len(),
    ensures
        handled_upto(children, inputs, k) <==> exists|i: int|
            0 <= i < k && (#[trigger] children[i]).handles(inputs),
    decreases k,
{
    if k > 0 {
        lemma_handled_upto(children, inputs, k - 1);
    }
}

/// A widget that can be drawn at `base` can still be drawn there after it
/// has seen an input.
pub proof fn lemma_widget_fits_after_input(widget: WidgetView, inputs: PadData, base: Point)
    requires
        widget.wf(),
        widget.fits(base),
    ensures
        widget.after_input(inputs).fits(base),
    decreases widget,
{
    match widget {
        WidgetView::Container(c) => lemma_container_fits_after_input(c, inputs, base),
        WidgetView::List(l) => lemma_list_fits_after_input(l, inputs, base),
        _ => {},
    }
}

/// A container that can be drawn at `base` can still be drawn there after
/// it has seen an input.
pub proof fn lemma_container_fits_after_input(
    container: ContainerView,
    inputs: PadData,
    base: Point,
)
    requires
        container.wf(),
        container.fits(base),
    ensures
        container.after_input(inputs).fits(base),
    decreases container,
{
    let after = container.after_input(inputs);
    assert forall|i: int| 0 <= i < container.children.len() implies heights(after.children)[i]
        == heights(container.children)[i] by {
        lemma_widget_after_input(container.children[i], inputs);
    }
    assert(heights(after.children) =~= heights(container.children));
    assert forall|i: int| 0 <= i < after.children.len() implies (#[trigger] after.children[i]).fits(
        stacked(heights(after.children), base, i),
    ) by {
        lemma_widget_fits_after_input(
            container.children[i],
            inputs,
            stacked(heights(container.children), base, i),
        );
    }
}

/// A list that can be drawn at `base` can still be drawn there after it has
/// seen an input.
pub proof fn lemma_list_fits_after_input(list: ListView, inputs: PadData, base: Point)
    requires
        list.wf(),
        list.fits(base),
    ensures
        list.after_input(inputs).fits(base),
    decreases list,
{
    let after = list.after_input(inputs);
    if list.forwards(inputs) {
        let k = list.index() - 1;
        lemma_container_after_input(list.children[k], inputs);
        assert(entry_heights(after.children) =~= entry_heights(list.children));
        assert forall|i: int| 0 <= i < after.children.len() implies (
        #[trigger] after.children[i]).fits(stacked(entry_heights(after.children), base, i)) by {
            if i == k {
                lemma_container_fits_after_input(
                    list.children[k],
                    inputs,
                    stacked(entry_heights(list.children), base, k),
                );
            }
        }
    }
}

impl Container {
    /// Shows `inputs` to every child, first to last, and reports whether
    /// one of them handled them. A child that handles them does not keep
    /// them from the children after it.
    pub fn handle_input(&mut self, inputs: PadData, config: &mut RuntimeConfig) -> (handled: bool)
        requires
            old(self)@.wf(),
        ensures
            final(self)@ == old(self)@.after_input(inputs),
            final(self)@.wf(),
            handled == old(self)@.handles(inputs),
            *final(config) == old(config).toggled_all(old(self)@.toggles(inputs)),
        decreases *old(self),
    {
        let ghost before = self@;
        let n = self.children.len();
        let mut handled = false;
        let mut i: usize = 0;
        while i < n
            invariant
                0 <= i <= n,
                n == self.children@.len(),
                n == old(self).children@.len(),
                before == old(self)@,
                before.wf(),
                self.dimensions == old(self).dimensions,
                self.color == old(self).color,
                forall|j: int|
                    0 <= j < i ==> (#[trigger] self.children@[j])@ == before.children[j].after_input(
                        inputs,
                    ),
                forall|j: int| i <= j < n ==> #[trigger] self.children@[j] == old(self).children@[j],
                handled == handled_upto(before.children, inputs, i as int),
                *config == old(config).toggled_all(toggles_upto(before.children, inputs, i as int)),
            decreases n - i,
        {
            proof {
                broadcast use vstd::std_specs::vec::axiom_vec_index_decreases;

                old(config).lemma_toggled_all_concat(
                    toggles_upto(before.children, inputs, i as int),
                    before.children[i as int].toggles(inputs),
                );
            }
            let child_handled = self.children[i].handle_input(inputs, config);
            if child_handled {
                handled = true;
            }
            i = i + 1;
        }
        proof {
            lemma_container_after_input(before, inputs);
            assert(self@.children =~= before.after_input(inputs).children);
        }
        handled
    }
}

impl List {
    /// Moves the selection on down and up; passes anything else to the
    /// selected entry, and to no other. A list that is not selectable
    /// ignores every input.
    pub fn handle_input(&mut self, inputs: PadData, config: &mut RuntimeConfig) -> (handled: bool)
        requires
            old(self)@.wf(),
        ensures
            final(self)@ == old(self)@.after_input(inputs),
            final(self)@.wf(),
            final(self)@.index() <= final(self)@.children.len(),
            old(self)@.selected is Some ==> final(self)@.index() >= 1,
            handled == old(self)@.handles(inputs),
            *final(config) == old(config).toggled_all(old(self)@.toggles(inputs)),
        decreases *old(self),
    {
        let ghost before = self@;
        proof {
            lemma_list_after_input(before, inputs);
        }
        if !self.selectable {
            return false;
        }
        let index: usize = match self.selected {
            Some(k) => k,
            None => 0,
        };
        if inputs.pressed(PadButton::LeftStickDown) || inputs.pressed(PadButton::DpadDown) {
            if index < self.children.len() {
                self.handler.on_select(self.selected, index + 1);
                self.selected = Some(index + 1);
            }
            true
        } else if inputs.pressed(PadButton::LeftStickUp) || inputs.pressed(PadButton::DpadUp) {
            let target: usize = if index > 1 {
                index - 1
            } else {
                1
            };
            if target <= self.children.len() {
                self.handler.on_select(self.selected, target);
                self.selected = Some(target);
            }
            true
        } else if index >= 1 {
            proof {
                broadcast use vstd::std_specs::vec::axiom_vec_index_decreases;

                assert(decreases_to!(old(self).children => old(self).children[index - 1]));
            }
            let handled = self.children[index - 1].handle_input(inputs, config);
            assert(self@.children =~= before.after_input(inputs).children);
            handled
        } else {
            false
        }
    }
}

impl Container {
    /// Queues the calls that draw the container at `base_pos`: its
    /// background, then each child below the one before.
    pub fn render(&self, base_pos: &Point, renderer: &mut Renderer)
        requires
            self@.wf(),
            self@.fits(*base_pos),
        ensures
            final(renderer).backend == old(renderer).backend,
            final(renderer).calls@ == old(renderer).calls@ + self@.draw(
                *base_pos,
                old(renderer).backend,
            ),
        decreases self,
    {
        let ghost backend = renderer.backend;
        let ghost hs = heights(self@.children);
        let ghost background = backend.rect_calls(
            Rect {
                x: base_pos.x,
                z: base_pos.z,
                width: self.dimensions.0,
                height: self.dimensions.1,
            },
            self.color,
        );
        renderer.rect(&Rect::from_point_dimensions(*base_pos, self.dimensions), &self.color);
        let mut pos = *base_pos;
        let n = self.children.len();
        let mut i: usize = 0;
        while i < n
            invariant
                0 <= i <= n,
                n == self.children@.len(),
                self@.wf(),
                self@.fits(*base_pos),
                hs == heights(self@.children),
                renderer.backend == backend,
                pos.x == base_pos.x,
                pos.z == base_pos.z + prefix_sum(hs, i as int),
                renderer.calls@ == old(renderer).calls@ + background + draw_upto(
                    self@.children,
                    *base_pos,
                    backend,
                    i as int,
                ),
            decreases n - i,
        {
            let child = &self.children[i];
            proof {
                broadcast use vstd::std_specs::vec::axiom_vec_index_decreases;

                assert(lands(hs, *base_pos, i as int));
            }
            child.render(&pos, renderer);
            let height = child.get_height();
            pos.add(0, height as i32);
            i = i + 1;
        }
    }

    /// Whether the container can be drawn at `base_pos` without leaving the
    /// coordinate grid.
    pub fn fits_at(&self, base_pos: &Point) -> (fits: bool)
        requires
            self@.wf(),
        ensures
            fits == self@.fits(*base_pos),
        decreases self,
    {
        let ghost hs = heights(self@.children);
        let mut pos = *base_pos;
        let n = self.children.len();
        let mut i: usize = 0;
        while i < n
            invariant
                0 <= i <= n,
                n == self.children@.len(),
                self@.wf(),
                hs == heights(self@.children),
                pos.x == base_pos.x,
                pos.z == base_pos.z + prefix_sum(hs, i as int),
                forall|j: int| 0 <= j < i ==> #[trigger] lands(hs, *base_pos, j),
                forall|j: int|
                    0 <= j < i ==> (#[trigger] self@.children[j]).fits(stacked(hs, *base_pos, j)),
            decreases n - i,
        {
            let child = &self.children[i];
            proof {
                broadcast use vstd::std_specs::vec::axiom_vec_index_decreases;

                assert(self@.children[i as int].wf());
            }
            if !child.fits_at(&pos) {
                return false;
            }
            let height = child.get_height();
            if height > 0x7fff_ffff {
                assert(!lands(hs, *base_pos, i as int));
                return false;
            }
            match pos.checked_add(0, height as i32) {
                Some(next) => {
                    pos = next;
                },
                None => {
                    assert(!lands(hs, *base_pos, i as int));
                    return false;
                },
            }
            i = i + 1;
        }
        true
    }
}

impl List {
    /// Queues the calls that draw the list at `base_pos`: each entry below
    /// the one before, the selected one on a highlight.
    pub fn render(&self, base_pos: &Point, renderer: &mut Renderer)
        requires
            self@.wf(),
            self@.fits(*base_pos),
        ensures
            final(renderer).backend == old(renderer).backend,
            final(renderer).calls@ == old(renderer).calls@ + self@.draw(
                *base_pos,
                old(renderer).backend,
            ),
        decreases self,
    {
        let ghost backend = renderer.backend;
        let ghost hs = entry_heights(self@.children);
        let selected: usize = match self.selected {
            Some(k) => k,
            None => 0,
        };
        let mut pos = *base_pos;
        let n = self.children.len();
        let mut i: usize = 0;
        while i < n
            invariant
                0 <= i <= n,
                n == self.children@.len(),
                self@.wf(),
                self@.fits(*base_pos),
                selected == self@.index(),
                hs == entry_heights(self@.children),
                renderer.backend == backend,
                pos.x == base_pos.x,
                pos.z == base_pos.z + prefix_sum(hs, i as int),
                renderer.calls@ == old(renderer).calls@ + draw_entries(
                    self@.children,
                    selected as int,
                    *base_pos,
                    backend,
                    i as int,
                ),
            decreases n - i,
        {
            let child = &self.children[i];
            proof {
                broadcast use vstd::std_specs::vec::axiom_vec_index_decreases;

                assert(lands(hs, *base_pos, i as int));
            }
            let height = child.get_height();
            if selected > 0 && i == selected - 1 {
                renderer.rect(
                    &Rect::from_point_dimensions(pos, (self.get_width(), height)),
                    &Color4f::from_rgba(0x3f80_0000, 0, 0, 0x3f4c_cccd),
                );
            }
            child.render(&pos, renderer);
            pos.add(0, height as i32);
            i = i + 1;
        }
    }

    /// Whether the list can be drawn at `base_pos` without leaving the
    /// coordinate grid.
    pub fn fits_at(&self, base_pos: &Point) -> (fits: bool)
        requires
            self@.wf(),
        ensures
            fits == self@.fits(*base_pos),
        decreases self,
    {
        let ghost hs = entry_heights(self@.children);
        let mut pos = *base_pos;
        let n = self.children.len();
        let mut i: usize = 0;
        while i < n
            invariant
                0 <= i <= n,
                n == self.children@.len(),
                self@.wf(),
                hs == entry_heights(self@.children),
                pos.x == base_pos.x,
                pos.z == base_pos.z + prefix_sum(hs, i as int),
                forall|j: int| 0 <= j < i ==> #[trigger] lands(hs, *base_pos, j),
                forall|j: int|
                    0 <= j < i ==> (#[trigger] self@.children[j]).fits(stacked(hs, *base_pos, j)),
            decreases n - i,
        {
            let child = &self.children[i];
            proof {
                broadcast use vstd::std_specs::vec::axiom_vec_index_decreases;

                assert(self@.children[i as int].wf());
            }
            if !child.fits_at(&pos) {
                return false;
            }
            let height = child.get_height();
            if height > 0x7fff_ffff {
                assert(!lands(hs, *base_pos, i as int));
                return false;
            }
            match pos.checked_add(0, height as i32) {
                Some(next) => {
                    pos = next;
                },
                None => {
                    assert(!lands(hs, *base_pos, i as int));
                    return false;
                },
            }
            i = i + 1;
        }
        true
    }
}

impl List {
    /// Width of every list.
    pub const WIDTH: u32 = 100;

    /// An empty list with nothing selected. `max_height` limits the height
    /// that the list reports; `None` and zero stand for "no limit".
    pub fn new(selectable: bool, max_height: Option<u32>, handler: ListHandler) -> (list: List)
        ensures
            list@ == (ListView {
                selectable,
                selected: None,
                handler,
                max_height,
                children: Seq::<ContainerView>::empty(),
            }),
            list@.wf(),
    {
        let list = List { selectable, selected: None, handler, max_height, children: Vec::new() };
        assert(list@.children =~= Seq::<ContainerView>::empty());
        list
    }

    /// Adds `widget` as a further entry at the bottom.
    pub fn push(&mut self, widget: Widget)
        requires
            old(self)@.wf(),
            widget@.wf(),
            old(self)@.pushed(widget@).height() <= u32::MAX,
        ensures
            final(self)@ == old(self)@.pushed(widget@),
            final(self)@.wf(),
    {
        let width = widget.get_width();
        let height = widget.get_height();
        let ghost inner = widget@;
        let wrapped = Container::new(Color4f::default(), (width, height), vec![widget]);
        assert(wrapped@.children =~= seq![inner]);
        self.children.push(wrapped);
        proof {
            vstd::std_specs::vec::axiom_spec_len(&self.children);
            assert(self@.children =~= old(self)@.children.push(ListView::entry(inner)));
        }
    }

    /// Adds each of `widgets` as a further entry at the bottom, in order.
    pub fn append(&mut self, widgets: Vec<Widget>)
        requires
            old(self)@.wf(),
            forall|i: int| 0 <= i < widgets@.len() ==> (#[trigger] widgets@[i])@.wf(),
            old(self)@.appended(widget_views(widgets@), widgets@.len() as int).height()
                <= u32::MAX,
        ensures
            final(self)@ == old(self)@.appended(widget_views(widgets@), widgets@.len() as int),
            final(self)@.wf(),
    {
        let ghost all = widget_views(widgets@);
        let count = widgets.len();
        let ghost total = count as int;
        let mut widgets = widgets;
        let mut rest: Vec<Widget> = Vec::new();
        // Entries are taken from the back of `widgets`, so turn it round first.
        while widgets.len() > 0
            invariant
                widgets@.len() + rest@.len() == total,
                all.len() == total,
                total <= usize::MAX,
                forall|i: int| 0 <= i < widgets@.len() ==> (#[trigger] widgets@[i])@ == all[i],
                forall|i: int|
                    0 <= i < rest@.len() ==> (#[trigger] rest@[i])@ == all[total - 1 - i],
            decreases widgets@.len(),
        {
            let widget = widgets.pop().unwrap();
            rest.push(widget);
        }
        let mut done: usize = 0;
        while rest.len() > 0
            invariant
                done + rest@.len() == total,
                all.len() == total,
                total <= usize::MAX,
                forall|i: int|
                    0 <= i < rest@.len() ==> (#[trigger] rest@[i])@ == all[total - 1 - i],
                forall|i: int| 0 <= i < all.len() ==> (#[trigger] all[i]).wf(),
                self@ == old(self)@.appended(all, done as int),
                self@.selected == old(self)@.selected,
                self@.children.len() >= old(self)@.children.len(),
                old(self)@.wf(),
                old(self)@.appended(all, total).height() <= u32::MAX,
                forall|i: int|
                    0 <= i < self@.children.len() ==> (#[trigger] self@.children[i]).wf(),
            decreases rest@.len(),
        {
            let widget = rest.pop().unwrap();
            let ghost inner = widget@;
            let width = widget.get_width();
            let height = widget.get_height();
            let wrapped = Container::new(Color4f::default(), (width, height), vec![widget]);
            assert(wrapped@.children =~= seq![inner]);
            let ghost before = self@;
            self.children.push(wrapped);
            assert(self@.children =~= before.children.push(ListView::entry(inner)));
            done = done + 1;
        }
        proof {
            vstd::std_specs::vec::axiom_spec_len(&self.children);
        }
    }

    /// The number of entries.
    pub fn len(&self) -> (n: usize)
        ensures
            n == self@.children.len(),
    {
        self.children.len()
    }

    /// The selection, counted from one; `None` while nothing is selected.
    pub fn selected(&self) -> (selected: Option<usize>)
        ensures
            selected == self@.selected,
    {
        self.selected
    }

    /// The width of the list.
    pub fn get_width(&self) -> (width: u32)
        ensures
            width == List::WIDTH,
    {
        List::WIDTH
    }

    /// The height of the list: the heights of its entries added up from the
    /// top, as far as the sum stays within the limit. Under a limit this is
    /// the largest sum of the heights of the first entries that does not
    /// exceed the limit; without one it is the sum of all heights.
    pub fn get_height(&self) -> (height: u32)
        requires
            self@.wf(),
        ensures
            height == self@.height(),
            self@.cap() > 0 ==> largest_prefix_sum_within(
                entry_heights(self@.children),
                self@.cap(),
                height as int,
            ),
            self@.cap() == 0 ==> height == prefix_sum(
                entry_heights(self@.children),
                self@.children.len() as int,
            ),
    {
        proof {
            if self@.cap() > 0 {
                lemma_height_is_largest_prefix_sum(self@);
            } else {
                lemma_counted_all(entry_heights(self@.children), 0);
            }
        }
        self.walk_height()
    }

    /// Adds up the heights of the entries from the top and stops in front
    /// of the first with which the sum would exceed the limit.
    fn walk_height(&self) -> (height: u32)
        requires
            self@.wf(),
        ensures
            height == self@.height(),
    {
        let ghost hs = entry_heights(self@.children);
        let cap: u32 = match self.max_height {
            Some(c) => c,
            None => 0,
        };
        let mut height: u32 = 0;
        let mut i: usize = 0;
        while i < self.children.len()
            invariant
                0 <= i <= self.children@.len(),
                hs == entry_heights(self@.children),
                hs.len() == self.children@.len(),
                cap == self@.cap(),
                height == prefix_sum(hs, i as int),
                counted(hs, cap as int, 0) == counted(hs, cap as int, i as int),
                cap > 0 ==> height <= cap,
                self@.height() <= u32::MAX,
            decreases self.children@.len() - i,
        {
            let child_height = self.children[i].get_height();
            if cap > 0 && child_height > cap - height {
                return height;
            }
            proof {
                if cap == 0 {
                    lemma_counted_all(hs, i as int);
                    lemma_prefix_sum_monotone(hs, i as int + 1, hs.len() as int);
                }
            }
            height = height + child_height;
            i = i + 1;
        }
        height
    }
}

/// Where a walk under a limit stops: at or after the place it was taken up
/// from, with a sum within the limit, and in front of an entry with which
/// the sum would exceed it.
pub proof fn lemma_counted_stops(heights: Seq<int>, cap: int, k: int)
    requires
        0 <= k <= heights.len(),
        cap > 0,
        prefix_sum(heights, k) <= cap,
    ensures
        k <= counted(heights, cap, k) <= heights.len(),
        prefix_sum(heights, counted(heights, cap, k)) <= cap,
        counted(heights, cap, k) < heights.len() ==> prefix_sum(
            heights,
            counted(heights, cap, k) + 1,
        ) > cap,
    decreases heights.len() - k,
{
    if k < heights.len() && prefix_sum(heights, k + 1) <= cap {
        lemma_counted_stops(heights, cap, k + 1);
    }
}

/// No entry has a negative height.
pub proof fn lemma_entry_heights_nonnegative(entries: Seq<ContainerView>)
    ensures
        forall|i: int|
            0 <= i < entry_heights(entries).len() ==> 0 <= #[trigger] entry_heights(entries)[i],
{
}

/// The height of a list never exceeds the sum of the heights of its
/// entries, nor its limit if it has one.
pub proof fn lemma_height_bounds(list: ListView)
    ensures
        0 <= list.height() <= prefix_sum(
            entry_heights(list.children),
            list.children.len() as int,
        ),
        list.cap() > 0 ==> list.height() <= list.cap(),
{
    let hs = entry_heights(list.children);
    lemma_entry_heights_nonnegative(list.children);
    if list.cap() > 0 {
        lemma_counted_stops(hs, list.cap(), 0);
    } else {
        lemma_counted_all(hs, 0);
    }
    lemma_prefix_sum_monotone(hs, counted(hs, list.cap(), 0), hs.len() as int);
}

/// Whether `height` is the largest sum of the first so many of `heights`
/// that does not exceed `cap`.
pub open spec fn largest_prefix_sum_within(heights: Seq<int>, cap: int, height: int) -> bool {
    &&& height <= cap
    &&& exists|k: int| 0 <= k <= heights.len() && height == #[trigger] prefix_sum(heights, k)
    &&& forall|j: int|
        0 <= j <= heights.len() && #[trigger] prefix_sum(heights, j) <= cap ==> prefix_sum(
            heights,
            j,
        ) <= height
}

/// Under a limit, the height of a list is the largest sum of the heights of
/// its first entries that does not exceed the limit.
pub proof fn lemma_height_is_largest_prefix_sum(list: ListView)
    requires
        list.cap() > 0,
    ensures
        largest_prefix_sum_within(entry_heights(list.children), list.cap(), list.height()),
{
    let hs = entry_heights(list.children);
    let stop = counted(hs, list.cap(), 0);
    lemma_entry_heights_nonnegative(list.children);
    lemma_counted_stops(hs, list.cap(), 0);
    assert forall|j: int| 0 <= j <= hs.len() && #[trigger] prefix_sum(hs, j) <= list.cap() implies prefix_sum(
        hs,
        j,
    ) <= list.height() by {
        if j <= stop {
            lemma_prefix_sum_monotone(hs, j, stop);
        } else {
            lemma_prefix_sum_monotone(hs, stop + 1, j);
        }
    }
}

/// Without a limit every entry is counted.
pub proof fn lemma_counted_all(heights: Seq<int>, k: int)
    requires
        0 <= k <= heights.len(),
    ensures
        counted(heights, 0, k) == heights.len(),
    decreases heights.len() - k,
{
    if k < heights.len() {
        lemma_counted_all(heights, k + 1);
    }
}

/// Prefix sums of heights grow with the length of the prefix.
pub proof fn lemma_prefix_sum_monotone(heights: Seq<int>, j: int, k: int)
    requires
        0 <= j <= k <= heights.len(),
        forall|i: int| 0 <= i < heights.len() ==> 0 <= #[trigger] heights[i],
    ensures
        0 <= prefix_sum(heights, j) <= prefix_sum(heights, k),
    decreases k,
{
    if k > 0 {
        if j < k {
            lemma_prefix_sum_monotone(heights, j, k - 1);
        } else {
            lemma_prefix_sum_monotone(heights, j - 1, k - 1);
        }
    }
}

} // verus!
