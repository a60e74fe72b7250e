//! The overlay: one tree of widgets, built on first use and kept.

use vstd::prelude::*;

use crate::config::{get_ui_widgets, ui_widgets, RuntimeConfig};
use crate::input::PadData;
use crate::ui::container::{
    counted, entry_heights, lemma_container_fits_after_input, lemma_height_bounds, Container,
    ContainerView, List, ListHandler, ListView,
};
use crate::ui::render::Renderer;
use crate::ui::text::{Text, TextWidget};
use crate::ui::{heights, lands, prefix_sum, stacked, Color4f, Line, Point, Widget, WidgetView};

verus! {

/// The tree of the overlay once it has been built.
#[derive(Debug)]
pub struct Overlay {
    root: Option<Container>,
}

/// The least screen height for which the overlay can be built.
pub const MIN_SCREEN_HEIGHT: u32 = 10;

/// The 32-bit number `value` read as a signed number.
pub open spec fn reinterpret(value: u32) -> i32 {
    if value <= i32::MAX {
        value as i32
    } else {
        (value - 0x1_0000_0000) as i32
    }
}

/// Where the overlay is drawn: at the top, halfway across the screen.
pub open spec fn anchor(screen: (u32, u32)) -> Point {
    Point { x: (screen.0 / 2) as i32, z: 0 }
}

/// The list of switches in the overlay.
pub open spec fn switches() -> ListView {
    ListView {
        selectable: true,
        selected: None,
        handler: ListHandler::Modules,
        max_height: None,
        children: Seq::<ContainerView>::empty(),
    }.appended(ui_widgets(), 2)
}

/// The overlay as it is first built for a screen of the given size: a dark
/// box over the right half of the screen with a title, the list of
/// switches, and a line down the side.
pub open spec fn initial(screen: (u32, u32)) -> ContainerView
    recommends
        screen.1 >= MIN_SCREEN_HEIGHT,
{
    ContainerView {
        dimensions: (screen.0 / 2, screen.1),
        color: Color4f { r: 0, g: 0, b: 0, alpha: 0x3f33_3333 },
        children: seq![
            WidgetView::Text(
                TextWidget {
                    text: Text {
                        text: "Mod Ardain",
                        color: None,
                        scale: 0x3fa6_6666,
                        shadow: true,
                    },
                    pos: Point { x: 10, z: 10 },
                },
            ),
            WidgetView::List(switches()),
            WidgetView::Line(
                Line {
                    start: Point { x: 100, z: 10 },
                    end: Point { x: 100, z: reinterpret((screen.1 - 10) as u32) },
                    color: Color4f {
                        r: 0x3f80_0000,
                        g: 0x3f80_0000,
                        b: 0x3f80_0000,
                        alpha: 0x3f80_0000,
                    },
                },
            ),
        ],
    }
}

/// The list of switches is well formed.
pub proof fn lemma_switches_wf()
    ensures
        switches().wf(),
        switches().height() <= u32::MAX,
{
    reveal_with_fuel(ListView::appended, 3);
    reveal_with_fuel(prefix_sum, 3);
    let list = switches();
    lemma_height_bounds(list);
    assert forall|i: int| 0 <= i < list.children.len() implies (#[trigger] list.children[i]).wf() by {
        let label = list.children[i].children[0]->ConfigEntry_0.inner;
        assert(label.wf());
    }
}

/// On a screen that is neither too low nor so large that the overlay would
/// leave the coordinate grid, the overlay as it is first built is well
/// formed and can be drawn at its anchor.
pub proof fn lemma_initial_fits(screen: (u32, u32))
    requires
        MIN_SCREEN_HEIGHT <= screen.1 <= i32::MAX - 30,
        screen.0 / 2 <= i32::MAX - 100,
    ensures
        initial(screen).wf(),
        initial(screen).fits(anchor(screen)),
{
    reveal_with_fuel(ListView::appended, 3);
    reveal_with_fuel(prefix_sum, 4);
    reveal_with_fuel(counted, 4);
    lemma_switches_wf();
    let root = initial(screen);
    let base = anchor(screen);
    let list = switches();
    let hs = heights(root.children);
    assert forall|i: int| 0 <= i < hs.len() implies #[trigger] lands(hs, base, i) by {}
    assert forall|i: int| 0 <= i < root.children.len() implies (#[trigger] root.children[i]).wf() by {}
    assert forall|i: int| 0 <= i < root.children.len() implies (#[trigger] root.children[i]).fits(
        stacked(hs, base, i),
    ) by {
        if i == 1 {
            let at = stacked(hs, base, 1);
            let ehs = entry_heights(list.children);
            assert forall|j: int| 0 <= j < ehs.len() implies #[trigger] lands(ehs, at, j) by {}
            assert forall|j: int| 0 <= j < list.children.len() implies (
            #[trigger] list.children[j]).fits(stacked(ehs, at, j)) by {
                let label = list.children[j].children[0]->ConfigEntry_0.inner;
                assert(label.fits(stacked(ehs, at, j)));
            }
        }
    }
}

/// The 32-bit number `value` read as a signed number.
pub fn reinterpret_signed(value: u32) -> (r: i32)
    ensures
        r == reinterpret(value),
{
    if value <= 0x7fff_ffff {
        value as i32
    } else {
        (value as i64 - 0x1_0000_0000) as i32
    }
}

impl Overlay {
    /// The tree, once it has been built.
    pub closed spec fn root(self) -> Option<ContainerView> {
        match self.root {
            Some(root) => Some(root@),
            None => None,
        }
    }

    /// Whether the tree, if it has been built, is well formed.
    pub open spec fn wf(self) -> bool {
        self.root() is Some ==> self.root()->0.wf()
    }

    /// The tree that a frame works on: the one that was built before, or
    /// the one that is built now for a screen of the given size.
    pub open spec fn tree(self, screen: (u32, u32)) -> ContainerView {
        match self.root() {
            Some(root) => root,
            None => initial(screen),
        }
    }

    /// Whether a frame can be rendered for a screen of the given size: the
    /// tree can be built if it has not been, and drawn at the anchor.
    pub open spec fn renderable(self, screen: (u32, u32)) -> bool {
        &&& self.root() is None ==> screen.1 >= MIN_SCREEN_HEIGHT
        &&& self.tree(screen).fits(anchor(screen))
    }

    /// An overlay whose tree has not been built.
    pub fn new() -> (ui: Overlay)
        ensures
            ui.root() is None,
    {
        Overlay { root: None }
    }

    /// Whether the tree has been built.
    pub fn is_built(&self) -> (built: bool)
        ensures
            built == self.root() is Some,
    {
        self.root.is_some()
    }

    /// Whether a frame can be rendered for a screen of the given size.
    pub fn can_render(&self, screen: (u32, u32)) -> (r: bool)
        requires
            self.wf(),
        ensures
            r == self.renderable(screen),
    {
        let half_width = screen.0 / 2;
        let base = Point::new(half_width as i32, 0);
        match &self.root {
            Some(root) => root.fits_at(&base),
            None => {
                if screen.1 < MIN_SCREEN_HEIGHT {
                    false
                } else {
                    let root = build(screen);
                    root.fits_at(&base)
                }
            },
        }
    }
}

/// Builds the tree of the overlay for a screen of the given size.
pub fn build(screen: (u32, u32)) -> (root: Container)
    requires
        screen.1 >= MIN_SCREEN_HEIGHT,
    ensures
        root@ == initial(screen),
        root@.wf(),
{
    let half_width = screen.0 / 2;
    let title = TextWidget::new(
        Text::new("Mod Ardain").scale(0x3fa6_6666).shadow(true),
        Point::new(10, 10),
    );
    let separator = Line::new(
        Point::new(100, 10),
        Point::new(100, reinterpret_signed(screen.1 - 10)),
        Color4f::from_rgba(0x3f80_0000, 0x3f80_0000, 0x3f80_0000, 0x3f80_0000),
    );
    let mut test_list = List::new(true, None, ListHandler::Modules);
    let widgets = get_ui_widgets();
    proof {
        lemma_switches_wf();
    }
    test_list.append(widgets);
    let root = Container::new(
        Color4f::from_rgba(0, 0, 0, 0x3f33_3333),
        (half_width, screen.1),
        vec![Widget::Text(title), Widget::List(test_list), Widget::Line(separator)],
    );
    assert(root@.children =~= initial(screen).children);
    root
}

/// Builds the tree of the overlay for a screen of the given size and keeps
/// it in `dest`, which must not hold one yet.
pub fn init(screen: (u32, u32), dest: &mut Overlay)
    requires
        screen.1 >= MIN_SCREEN_HEIGHT,
        old(dest).root() is None,
    ensures
        final(dest).root() == Some(initial(screen)),
        final(dest).wf(),
{
    dest.root = Some(build(screen));
}

/// Brings the tree up to date before a frame. The tree of a session never
/// changes shape, so there is nothing to do.
pub fn update(root: &mut Container)
    ensures
        *final(root) == *old(root),
{
}

/// Renders one frame of the overlay: builds the tree if need be, shows it
/// `inputs` unless there are none, and queues the calls that draw it at the
/// anchor. `width` and `height` are what the host answered when asked for
/// the size of the screen. Reports whether the tree handled the inputs.
pub fn render(
    ui: &mut Overlay,
    config: &mut RuntimeConfig,
    renderer: &mut Renderer,
    inputs: PadData,
    width: Option<u32>,
    height: Option<u32>,
) -> (handled: bool)
    requires
        old(ui).wf(),
        old(ui).renderable(old(renderer).backend.screen(width, height)),
    ensures
        final(ui).wf(),
        final(renderer).backend == old(renderer).backend,
        ({
            let screen = old(renderer).backend.screen(width, height);
            let tree = old(ui).tree(screen);
            let shown = if inputs.bits() == 0 {
                tree
            } else {
                tree.after_input(inputs)
            };
            &&& final(ui).root() == Some(shown)
            &&& handled == (inputs.bits() != 0 && tree.handles(inputs))
            &&& *final(config) == (if inputs.bits() == 0 {
                *old(config)
            } else {
                old(config).toggled_all(tree.toggles(inputs))
            })
            &&& final(renderer).calls@ == old(renderer).calls@ + shown.draw(
                anchor(screen),
                old(renderer).backend,
            )
        }),
{
    let screen = renderer.get_screen_dimensions(width, height);
    if ui.root.is_none() {
        init(screen, ui);
    }
    let ghost tree = ui.root()->0;
    let mut root = ui.root.take().unwrap();
    update(&mut root);
    let mut input_handled = false;
    if !inputs.is_empty() {
        proof {
            lemma_container_fits_after_input(tree, inputs, anchor(screen));
        }
        if root.handle_input(inputs, config) {
            input_handled = true;
        }
    }
    let half_width = screen.0 / 2;
    root.render(&Point::new(half_width as i32, 0), renderer);
    ui.root = Some(root);
    input_handled
}

} // verus!
