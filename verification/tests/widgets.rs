use mod_ardain::config::{get_ui_widgets, ConfigEntryWidget, ConfigField, RuntimeConfig};
use mod_ardain::ffi::Offset;
use mod_ardain::input::{PadButton, PadData};
use mod_ardain::ui::container::{Container, List, ListHandler};
use mod_ardain::ui::render::{Backend, DrawCall, RenderOffsets, Renderer};
use mod_ardain::ui::text::{narrow_coordinate, Text, TextRenderer, TextWidget};
use mod_ardain::ui::{distance, Color4f, Line, Point, Rect, Widget};

const RED: Color4f = Color4f { r: 0x3f80_0000, g: 0, b: 0, alpha: 0x3f4c_cccd };
const CLEAR: Color4f = Color4f { r: 0, g: 0, b: 0, alpha: 0 };

fn backend(foreign: u64) -> Backend {
    Backend {
        text_renderer: TextRenderer {
            draw_text_fn: Offset::from(0x100),
            draw_text_color_fn: Some(Offset::from(0x110)),
            draw_text_scale_fn: Some(Offset::from(0x120)),
        },
        draw_square_2d: Some(Offset::from(0x130)),
        draw_line_2d: Some(Offset::from(0x140)),
        foreign,
        offsets: RenderOffsets {
            deb_draw_get: Offset::from(0x200),
            set_color: Some(Offset::from(0x210)),
            render_rect_fill: Some(Offset::from(0x220)),
            render_rect_outline: Some(Offset::from(0x230)),
            get_screen_width: None,
            get_screen_height: None,
        },
    }
}

fn renderer(foreign: u64) -> Renderer {
    Renderer { backend: backend(foreign), calls: Vec::new() }
}

fn block(height: u32) -> Widget {
    Widget::Container(Container::new(CLEAR, (40, height), Vec::new()))
}

fn list_of(heights: &[u32], cap: Option<u32>) -> List {
    let mut list = List::new(true, cap, ListHandler::Modules);
    for height in heights {
        list.push(block(*height));
    }
    list
}

fn down() -> PadData {
    PadData::from(PadButton::DpadDown)
}

fn up() -> PadData {
    PadData::from(PadButton::DpadUp)
}

fn fill(rect: Rect, color: Color4f) -> Vec<DrawCall> {
    vec![
        DrawCall::SetColor { function: Offset::from(0x210), context: 0x5000, color },
        DrawCall::RectFill { function: Offset::from(0x220), context: 0x5000, rect },
    ]
}

fn label(x: i16, y: i16, text: &'static str) -> DrawCall {
    DrawCall::Text { function: Offset::from(0x100), x, y, text, shadow: false }
}

#[test]
fn colours_are_single_precision_bit_patterns() {
    assert_eq!(1.0f32.to_bits(), 0x3f80_0000);
    assert_eq!(0.8f32.to_bits(), 0x3f4c_cccd);
    assert_eq!(0.7f32.to_bits(), 0x3f33_3333);
    assert_eq!(1.3f32.to_bits(), 0x3fa6_6666);
    assert_eq!(Color4f::default(), CLEAR);
    assert_eq!(
        Color4f::from_rgba(1.0f32.to_bits(), 0.0f32.to_bits(), 0.0f32.to_bits(), 0.8f32.to_bits()),
        RED
    );
}

#[test]
fn points_add_up() {
    let mut point = Point::new(3, 4);
    point.add(10, -20);
    assert_eq!(point, Point { x: 13, z: -16 });
    assert_eq!(Point::default(), Point { x: 0, z: 0 });
    assert_eq!(Point::new(1, 2).checked_add(2, 3), Some(Point { x: 3, z: 5 }));
    assert_eq!(Point::new(i32::MAX, 0).checked_add(1, 0), None);
    assert_eq!(Point::new(0, i32::MIN).checked_add(0, -1), None);
}

#[test]
fn points_convert_and_add() {
    assert_eq!(Point::from((3, -4)), Point { x: 3, z: -4 });
    assert_eq!(Point::new(1, 2) + Point::new(10, 20), Point { x: 11, z: 22 });
    let point: Point = (100, 10).into();
    assert_eq!(point, Point::new(100, 10));
}

#[test]
fn handler_is_told_without_effect() {
    ListHandler::Modules.on_select(None, 1);
    ListHandler::Modules.on_select(Some(1), 2);
}

#[test]
fn rectangles_from_points() {
    let rect = Rect::from_points(Point::new(10, 20), Point::new(40, 5));
    assert_eq!(rect, Rect { x: 10, z: 20, width: 30, height: 15 });
    let rect = Rect::from_points(Point::new(i32::MIN, 0), Point::new(i32::MAX, 0));
    assert_eq!(rect.width, u32::MAX);
    let rect = Rect::from_point_dimensions(Point::new(-1, -2), (7, 9));
    assert_eq!(rect, Rect { x: -1, z: -2, width: 7, height: 9 });
    assert_eq!(distance(5, -5), 10);
    assert_eq!(distance(-5, 5), 10);
    assert_eq!(distance(3, 3), 0);
}

#[test]
fn line_asks_for_its_extent_and_one_at_least() {
    let line = Line::new(Point::new(100, 10), Point::new(100, 710), CLEAR);
    assert_eq!(line.get_width(), 1);
    assert_eq!(line.get_height(), 700);
    let backwards = Line::new(Point::new(50, 50), Point::new(10, 10), CLEAR);
    assert_eq!(backwards.get_width(), 1);
    assert_eq!(backwards.get_height(), 1);
    let wide = Line::new(Point::new(i32::MIN, 0), Point::new(i32::MAX, 0), CLEAR);
    assert_eq!(wide.get_width(), u32::MAX);
    assert!(!line.handle_input(down()));
}

#[test]
fn text_coordinates_keep_their_low_sixteen_bits() {
    assert_eq!(narrow_coordinate(0), 0);
    assert_eq!(narrow_coordinate(920), 920);
    assert_eq!(narrow_coordinate(-1), -1);
    assert_eq!(narrow_coordinate(32767), 32767);
    assert_eq!(narrow_coordinate(32768), -32768);
    assert_eq!(narrow_coordinate(65536), 0);
    assert_eq!(narrow_coordinate(65537), 1);
    assert_eq!(narrow_coordinate(-32769), 32767);
    assert_eq!(narrow_coordinate(i32::MAX), -1);
    assert_eq!(narrow_coordinate(i32::MIN), 0);
    for v in [-70000, -40000, -5, 5, 40000, 70000, 1 << 20] {
        assert_eq!(narrow_coordinate(v), v as i16);
    }
}

#[test]
fn text_builders_set_one_field_each() {
    let text = Text::new("hello");
    assert_eq!(text, Text { text: "hello", color: None, scale: 0, shadow: false });
    let text = text.color(1, 2, 3, 4).scale(0x3fa6_6666).shadow(true);
    assert_eq!(
        text,
        Text {
            text: "hello",
            color: Some(Color4f { r: 1, g: 2, b: 3, alpha: 4 }),
            scale: 0x3fa6_6666,
            shadow: true,
        }
    );
    let widget = TextWidget::at_root(Text::new("a"));
    assert_eq!(widget.pos, Point { x: 0, z: 0 });
    assert_eq!(widget.get_width(), 100);
    assert_eq!(widget.get_height(), 20);
    assert!(!widget.handle_input(down()));
}

#[test]
fn plain_text_is_one_call() {
    let mut renderer = renderer(0);
    renderer.text(Point::new(5, 6), &Text::new("plain"));
    assert_eq!(renderer.calls, vec![label(5, 6, "plain")]);
}

#[test]
fn styled_text_sets_colour_and_scale_and_sets_the_scale_back() {
    let mut renderer = renderer(0);
    let text = Text::new("styled").color(1, 2, 3, 4).scale(0x3fa6_6666).shadow(true);
    renderer.text(Point::new(70000, -2), &text);
    assert_eq!(
        renderer.calls,
        vec![
            DrawCall::TextColor {
                function: Offset::from(0x110),
                color: Color4f { r: 1, g: 2, b: 3, alpha: 4 },
            },
            DrawCall::TextScale { function: Offset::from(0x120), x: 0x3fa6_6666, y: 0x3fa6_6666 },
            DrawCall::Text {
                function: Offset::from(0x100),
                x: 4464,
                y: -2,
                text: "styled",
                shadow: true,
            },
            DrawCall::TextScale { function: Offset::from(0x120), x: 0x3f80_0000, y: 0x3f80_0000 },
        ]
    );
}

#[test]
fn styling_without_the_host_functions_is_dropped() {
    let mut renderer = renderer(0);
    renderer.backend.text_renderer.draw_text_color_fn = None;
    renderer.backend.text_renderer.draw_text_scale_fn = None;
    let text = Text::new("styled").color(1, 2, 3, 4).scale(0x3fa6_6666);
    renderer.text(Point::new(1, 2), &text);
    assert_eq!(renderer.calls, vec![label(1, 2, "styled")]);
}

#[test]
fn negative_zero_scale_counts_as_no_scale() {
    let mut renderer = renderer(0);
    renderer.text(Point::new(1, 2), &Text::new("t").scale((-0.0f32).to_bits()));
    assert_eq!(renderer.calls, vec![label(1, 2, "t")]);
}

#[test]
fn rectangles_need_the_drawing_context() {
    let rect = Rect { x: 1, z: 2, width: 3, height: 4 };
    let mut unresolved = renderer(0);
    unresolved.rect(&rect, &RED);
    unresolved.rect_outline(&rect, &RED);
    assert!(unresolved.calls.is_empty());
    let mut resolved = renderer(0x5000);
    resolved.rect(&rect, &RED);
    assert_eq!(resolved.calls, fill(rect, RED));
}

#[test]
fn outline_goes_through_its_own_function() {
    let rect = Rect { x: 1, z: 2, width: 3, height: 4 };
    let mut renderer = renderer(0x5000);
    renderer.rect_outline(&rect, &RED);
    assert_eq!(
        renderer.calls,
        vec![
            DrawCall::SetColor { function: Offset::from(0x210), context: 0x5000, color: RED },
            DrawCall::RectOutline { function: Offset::from(0x230), context: 0x5000, rect },
        ]
    );
}

#[test]
fn missing_draw_function_is_a_silent_no_op() {
    let rect = Rect { x: 1, z: 2, width: 3, height: 4 };
    let mut renderer = renderer(0x5000);
    renderer.backend.offsets.render_rect_fill = None;
    renderer.backend.offsets.render_rect_outline = None;
    renderer.backend.draw_square_2d = None;
    renderer.backend.draw_line_2d = None;
    renderer.rect(&rect, &RED);
    renderer.rect_outline(&rect, &RED);
    renderer.square(&rect, &RED);
    rect.render(&RED, &mut renderer);
    renderer.line(&Line::new(Point::new(0, 0), Point::new(1, 1), RED));
    assert!(renderer.calls.is_empty());
}

#[test]
fn rectangle_without_colour_function_is_still_drawn() {
    let rect = Rect { x: 1, z: 2, width: 3, height: 4 };
    let mut renderer = renderer(0x5000);
    renderer.backend.offsets.set_color = None;
    renderer.rect(&rect, &RED);
    assert_eq!(
        renderer.calls,
        vec![DrawCall::RectFill { function: Offset::from(0x220), context: 0x5000, rect }]
    );
}

#[test]
fn squares_and_lines_need_no_context() {
    let rect = Rect { x: 1, z: 2, width: 3, height: 4 };
    let mut renderer = renderer(0);
    rect.render(&RED, &mut renderer);
    Line::new(Point::new(1, 2), Point::new(3, 4), RED).render(&Point::new(10, 20), &mut renderer);
    assert_eq!(
        renderer.calls,
        vec![
            DrawCall::Square { function: Offset::from(0x130), rect, color: RED },
            DrawCall::Line {
                function: Offset::from(0x140),
                start: Point { x: 11, z: 22 },
                end: Point { x: 13, z: 24 },
                color: RED,
            },
        ]
    );
}

#[test]
fn screen_size_falls_back_to_the_default() {
    let mut renderer = renderer(0);
    assert_eq!(renderer.get_screen_dimensions(None, None), (1280, 720));
    assert_eq!(renderer.get_screen_dimensions(Some(1920), Some(1080)), (1280, 720));
    renderer.backend.offsets.get_screen_width = Some(Offset::from(0x300));
    assert_eq!(renderer.get_screen_dimensions(Some(1920), Some(1080)), (1920, 720));
    assert_eq!(renderer.get_screen_dimensions(None, Some(1080)), (1280, 720));
    renderer.backend.offsets.get_screen_height = Some(Offset::from(0x310));
    assert_eq!(renderer.get_screen_dimensions(Some(1920), Some(1080)), (1920, 1080));
}

#[test]
fn first_context_that_is_not_null_wins() {
    let mut renderer = renderer(0);
    assert_eq!(renderer.get_foreign(), None);
    assert_eq!(renderer.foreign_request(), Some((Offset::from(0x200), 0xffff_ffff)));
    assert_eq!(renderer.resolve_foreign(0), None);
    assert_eq!(renderer.foreign_request(), Some((Offset::from(0x200), 0xffff_ffff)));
    assert_eq!(renderer.resolve_foreign(0x5000), Some(0x5000));
    assert_eq!(renderer.get_foreign(), Some(0x5000));
    assert_eq!(renderer.foreign_request(), None);
    assert_eq!(renderer.resolve_foreign(0x6000), Some(0x5000));
    assert_eq!(renderer.resolve_foreign(0), Some(0x5000));
}

#[test]
fn queue_is_handed_out_oldest_first_and_emptied() {
    let mut renderer = renderer(0);
    renderer.text(Point::new(1, 1), &Text::new("a"));
    renderer.text(Point::new(2, 2), &Text::new("b"));
    assert_eq!(renderer.take_calls(), vec![label(1, 1, "a"), label(2, 2, "b")]);
    assert!(renderer.calls.is_empty());
    assert!(renderer.take_calls().is_empty());
}

#[test]
fn list_height_stops_before_exceeding_the_cap() {
    assert_eq!(list_of(&[10, 10, 10], Some(15)).get_height(), 10);
}

#[test]
fn list_height_is_the_largest_prefix_sum_within_the_cap() {
    assert_eq!(list_of(&[10, 10, 10], Some(9)).get_height(), 0);
    assert_eq!(list_of(&[10, 10, 10], Some(10)).get_height(), 10);
    assert_eq!(list_of(&[10, 10, 10], Some(20)).get_height(), 20);
    assert_eq!(list_of(&[10, 10, 10], Some(29)).get_height(), 20);
    assert_eq!(list_of(&[10, 10, 10], Some(30)).get_height(), 30);
    assert_eq!(list_of(&[10, 10, 10], Some(1000)).get_height(), 30);
    assert_eq!(list_of(&[5, 100, 1], Some(50)).get_height(), 5);
    assert_eq!(list_of(&[0, 0, 7], Some(3)).get_height(), 0);
}

#[test]
fn list_height_without_a_cap_is_the_sum() {
    assert_eq!(list_of(&[10, 10, 10], None).get_height(), 30);
    assert_eq!(list_of(&[10, 10, 10], Some(0)).get_height(), 30);
    assert_eq!(list_of(&[], None).get_height(), 0);
    assert_eq!(list_of(&[], Some(5)).get_height(), 0);
    assert_eq!(list_of(&[u32::MAX], None).get_height(), u32::MAX);
}

#[test]
fn list_width_is_fixed() {
    assert_eq!(list_of(&[10], None).get_width(), 100);
    assert_eq!(List::WIDTH, 100);
}

#[test]
fn list_wraps_each_widget_in_an_entry_of_its_size() {
    let mut list = List::new(true, None, ListHandler::Modules);
    list.push(Widget::Text(TextWidget::at_root(Text::new("a"))));
    list.push(Widget::Line(Line::new(Point::new(0, 0), Point::new(30, 7), CLEAR)));
    assert_eq!(list.len(), 2);
    assert_eq!(list.get_height(), 27);
    let mut more = List::new(true, None, ListHandler::Modules);
    more.append(vec![block(3), block(4), block(5)]);
    assert_eq!(more.len(), 3);
    assert_eq!(more.get_height(), 12);
}

#[test]
fn selection_starts_absent() {
    assert_eq!(list_of(&[10, 10], None).selected(), None);
}

#[test]
fn down_selects_min_of_presses_and_entries() {
    for entries in 0..5usize {
        let heights = vec![10u32; entries];
        for presses in 0..8usize {
            let mut list = list_of(&heights, None);
            let mut config = RuntimeConfig::default();
            for _ in 0..presses {
                assert!(list.handle_input(down(), &mut config));
            }
            let expected = presses.min(entries);
            assert_eq!(list.selected().unwrap_or(0), expected);
            assert!(list.selected().unwrap_or(0) <= entries);
        }
    }
}

#[test]
fn stick_down_counts_as_down() {
    let mut list = list_of(&[10, 10], None);
    let mut config = RuntimeConfig::default();
    assert!(list.handle_input(PadData::from(PadButton::LeftStickDown), &mut config));
    assert_eq!(list.selected(), Some(1));
}

#[test]
fn up_never_goes_below_one() {
    let mut list = list_of(&[10, 10, 10], None);
    let mut config = RuntimeConfig::default();
    list.handle_input(down(), &mut config);
    list.handle_input(down(), &mut config);
    list.handle_input(down(), &mut config);
    assert_eq!(list.selected(), Some(3));
    let mut seen = Vec::new();
    for _ in 0..5 {
        assert!(list.handle_input(up(), &mut config));
        seen.push(list.selected());
    }
    assert_eq!(seen, vec![Some(2), Some(1), Some(1), Some(1), Some(1)]);
    assert!(list.handle_input(PadData::from(PadButton::LeftStickUp), &mut config));
    assert_eq!(list.selected(), Some(1));
}

#[test]
fn up_from_no_selection_selects_the_first_entry() {
    let mut list = list_of(&[10, 10], None);
    let mut config = RuntimeConfig::default();
    assert!(list.handle_input(up(), &mut config));
    assert_eq!(list.selected(), Some(1));
    let mut empty = list_of(&[], None);
    assert!(empty.handle_input(up(), &mut config));
    assert_eq!(empty.selected(), None);
}

#[test]
fn down_wins_over_up() {
    let mut list = list_of(&[10, 10, 10], None);
    let mut config = RuntimeConfig::default();
    list.handle_input(down(), &mut config);
    assert!(list.handle_input(PadButton::DpadDown + PadButton::DpadUp, &mut config));
    assert_eq!(list.selected(), Some(2));
}

#[test]
fn list_that_is_not_selectable_ignores_input() {
    let mut list = List::new(false, None, ListHandler::Modules);
    list.push(block(10));
    let mut config = RuntimeConfig::default();
    assert!(!list.handle_input(down(), &mut config));
    assert!(!list.handle_input(up(), &mut config));
    assert!(!list.handle_input(PadData::from(PadButton::A), &mut config));
    assert_eq!(list.selected(), None);
}

#[test]
fn other_input_goes_to_the_selected_entry_alone() {
    let mut list = List::new(true, None, ListHandler::Modules);
    list.append(get_ui_widgets());
    let mut config = RuntimeConfig::default();
    let click = PadData::from(PadButton::A);
    assert!(!list.handle_input(click, &mut config));
    assert_eq!(config, RuntimeConfig::default());
    list.handle_input(down(), &mut config);
    assert!(list.handle_input(click, &mut config));
    assert!(!config.ui_visible);
    assert!(config.blade_create_enable_save);
    list.handle_input(down(), &mut config);
    assert!(list.handle_input(click, &mut config));
    assert!(!config.ui_visible);
    assert!(!config.blade_create_enable_save);
    assert!(!list.handle_input(PadData::from(PadButton::B), &mut config));
}

#[test]
fn container_shows_input_to_every_child() {
    let mut first = List::new(true, None, ListHandler::Modules);
    first.push(block(10));
    let mut second = List::new(true, None, ListHandler::Modules);
    second.push(block(10));
    second.push(block(10));
    let mut container = Container::new(
        CLEAR,
        (10, 10),
        vec![
            Widget::Text(TextWidget::at_root(Text::new("t"))),
            Widget::List(first),
            Widget::ConfigEntry(ConfigEntryWidget::new("a", ConfigField::UiVisible)),
            Widget::List(second),
            Widget::ConfigEntry(ConfigEntryWidget::new("b", ConfigField::BladeCreateEnableSave)),
        ],
    );
    let mut config = RuntimeConfig::default();
    assert!(container.handle_input(PadButton::DpadDown + PadButton::A, &mut config));
    assert!(!config.ui_visible);
    assert!(!config.blade_create_enable_save);
    assert!(container.handle_input(PadButton::DpadDown + PadButton::A, &mut config));
    assert!(config.ui_visible);
    assert!(config.blade_create_enable_save);
    assert_eq!(container.len(), 5);
}

#[test]
fn container_reports_unhandled_when_no_child_handles() {
    let mut container = Container::new(
        CLEAR,
        (10, 10),
        vec![
            Widget::Text(TextWidget::at_root(Text::new("t"))),
            Widget::Line(Line::new(Point::new(0, 0), Point::new(1, 1), CLEAR)),
            Widget::ConfigEntry(ConfigEntryWidget::new("a", ConfigField::UiVisible)),
        ],
    );
    let mut config = RuntimeConfig::default();
    assert!(!container.handle_input(down(), &mut config));
    assert_eq!(config, RuntimeConfig::default());
    let mut empty = Container::new(CLEAR, (1, 1), Vec::new());
    assert!(!empty.handle_input(PadData::from(PadButton::A), &mut config));
}

#[test]
fn toggling_twice_restores_the_setting() {
    let mut config = RuntimeConfig::default();
    config.toggle(ConfigField::UiVisible);
    assert!(!config.ui_visible);
    config.toggle(ConfigField::UiVisible);
    assert_eq!(config, RuntimeConfig::default());
    config.toggle(ConfigField::BladeCreateEnableSave);
    assert!(!config.blade_create_enable_save);
    assert!(config.ui_visible);
}

#[test]
fn container_draws_background_then_children_stacked() {
    let container = Container::new(
        RED,
        (50, 60),
        vec![
            Widget::Text(TextWidget::new(Text::new("one"), Point::new(1, 2))),
            block(30),
            Widget::Text(TextWidget::at_root(Text::new("two"))),
        ],
    );
    let mut renderer = renderer(0x5000);
    let base = Point::new(100, 200);
    assert!(container.fits_at(&base));
    container.render(&base, &mut renderer);
    let mut expected = fill(Rect { x: 100, z: 200, width: 50, height: 60 }, RED);
    expected.push(label(101, 202, "one"));
    expected.extend(fill(Rect { x: 100, z: 220, width: 40, height: 30 }, CLEAR));
    expected.push(label(100, 250, "two"));
    assert_eq!(renderer.calls, expected);
    assert_eq!(container.get_width(), 50);
    assert_eq!(container.get_height(), 60);
}

#[test]
fn list_draws_every_entry_and_highlights_the_selected_one() {
    let mut list = List::new(true, Some(25), ListHandler::Modules);
    list.push(Widget::Text(TextWidget::at_root(Text::new("a"))));
    list.push(Widget::Text(TextWidget::at_root(Text::new("b"))));
    list.push(Widget::Text(TextWidget::at_root(Text::new("c"))));
    let mut config = RuntimeConfig::default();
    list.handle_input(down(), &mut config);
    list.handle_input(down(), &mut config);
    assert_eq!(list.get_height(), 20);
    let mut renderer = renderer(0x5000);
    list.render(&Point::new(10, 0), &mut renderer);
    let mut expected = Vec::new();
    expected.extend(fill(Rect { x: 10, z: 0, width: 100, height: 20 }, CLEAR));
    expected.push(label(10, 0, "a"));
    expected.extend(fill(Rect { x: 10, z: 20, width: 100, height: 20 }, RED));
    expected.extend(fill(Rect { x: 10, z: 20, width: 100, height: 20 }, CLEAR));
    expected.push(label(10, 20, "b"));
    expected.extend(fill(Rect { x: 10, z: 40, width: 100, height: 20 }, CLEAR));
    expected.push(label(10, 40, "c"));
    assert_eq!(renderer.calls, expected);
}

#[test]
fn list_without_selection_has_no_highlight() {
    let list = list_of(&[10, 10], None);
    let mut renderer = renderer(0x5000);
    list.render(&Point::new(0, 0), &mut renderer);
    let mut expected = Vec::new();
    expected.extend(fill(Rect { x: 0, z: 0, width: 40, height: 10 }, CLEAR));
    expected.extend(fill(Rect { x: 0, z: 0, width: 40, height: 10 }, CLEAR));
    expected.extend(fill(Rect { x: 0, z: 10, width: 40, height: 10 }, CLEAR));
    expected.extend(fill(Rect { x: 0, z: 10, width: 40, height: 10 }, CLEAR));
    assert_eq!(renderer.calls, expected);
}

#[test]
fn rendering_keeps_what_was_queued_before() {
    let mut renderer = renderer(0x5000);
    renderer.text(Point::new(0, 0), &Text::new("earlier"));
    block(5).render(&Point::new(1, 1), &mut renderer);
    assert_eq!(renderer.calls[0], label(0, 0, "earlier"));
    assert_eq!(renderer.calls.len(), 3);
}

#[test]
fn layout_that_leaves_the_grid_does_not_fit() {
    let container = Container::new(CLEAR, (1, 1), vec![block(10), block(10)]);
    assert!(container.fits_at(&Point::new(0, i32::MAX - 20)));
    assert!(!container.fits_at(&Point::new(0, i32::MAX - 19)));
    let tall = Container::new(CLEAR, (1, 1), vec![block(0x8000_0000)]);
    assert!(!tall.fits_at(&Point::new(0, i32::MIN)));
    let text = Widget::Text(TextWidget::new(Text::new("t"), Point::new(10, 0)));
    assert!(text.fits_at(&Point::new(i32::MAX - 10, 0)));
    assert!(!text.fits_at(&Point::new(i32::MAX - 9, 0)));
    let line = Line::new(Point::new(0, 0), Point::new(5, 5), CLEAR);
    assert!(line.fits_at(&Point::new(i32::MAX - 5, 0)));
    assert!(!line.fits_at(&Point::new(i32::MAX - 4, 0)));
    let list = list_of(&[10, 10], None);
    assert!(list.fits_at(&Point::new(0, i32::MAX - 20)));
    assert!(!list.fits_at(&Point::new(0, i32::MAX - 19)));
}

#[test]
fn widget_sizes_by_kind() {
    assert_eq!(block(7).get_width(), 40);
    assert_eq!(block(7).get_height(), 7);
    let entry = Widget::ConfigEntry(ConfigEntryWidget::new("a", ConfigField::UiVisible));
    assert_eq!(entry.get_width(), 100);
    assert_eq!(entry.get_height(), 10);
    let list = Widget::List(list_of(&[1, 2, 3], None));
    assert_eq!(list.get_width(), 100);
    assert_eq!(list.get_height(), 6);
    let text = Widget::Text(TextWidget::at_root(Text::new("t")));
    assert_eq!((text.get_width(), text.get_height()), (100, 20));
    let line = Widget::Line(Line::new(Point::new(0, 0), Point::new(9, 4), CLEAR));
    assert_eq!((line.get_width(), line.get_height()), (9, 4));
}
