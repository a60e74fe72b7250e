//! Settings that can be changed while the host runs, and their widgets.

use vstd::prelude::*;

use crate::input::PadData;
use crate::ui::container::{Container, ContainerView};
use crate::ui::render::Renderer;
use crate::ui::text::{Text, TextWidget};
use crate::ui::{widget_views, Color4f, Point, Widget, WidgetView};

verus! {

/// Which kind of blade the "create blade" screen preselects.
#[derive(Clone, Copy, Debug, PartialEq, Eq, Structural)]
pub enum BladeCreateDefault {
    Common,
    Rare,
    Legendary,
    Worst,
    Best,
    Bravery,
    Truth,
    Compassion,
    Justice,
    NoRarity,
    NoIdea,
}

/// The settings.
#[derive(Clone, Copy, Debug, PartialEq, Eq, Structural)]
pub struct RuntimeConfig {
    pub ui_visible: bool,
    pub blade_create_enable_save: bool,
    pub return_title: bool,
    pub infinite_flutterheart: bool,
    pub chain_attack_rate_fix: bool,
    pub blade_create_default_sel: BladeCreateDefault,
}

/// A setting that a widget can switch on and off.
#[derive(Clone, Copy, Debug, PartialEq, Eq, Structural)]
pub enum ConfigField {
    UiVisible,
    BladeCreateEnableSave,
}

/// A labelled switch for a setting.
#[derive(Debug)]
pub struct ConfigEntryWidget {
    inner: Container,
    field: ConfigField,
}

/// What a [`ConfigEntryWidget`] is.
pub struct ConfigEntryView {
    pub inner: ContainerView,
    pub field: ConfigField,
}

impl View for ConfigEntryWidget {
    type V = ConfigEntryView;

    open spec fn view(&self) -> ConfigEntryView {
        self.model()
    }
}

impl ConfigEntryWidget {
    /// The widget with its children as sequences.
    pub closed spec fn model(&self) -> ConfigEntryView
        decreases self,
    {
        ConfigEntryView { inner: self.inner.model(), field: self.field }
    }
}

impl ConfigEntryView {
    /// Width of every switch.
    pub const WIDTH: u32 = 100;

    /// Height of every switch.
    pub const HEIGHT: u32 = 10;

    /// The switch for `field` with the label `name`: a transparent box
    /// that holds the label.
    pub open spec fn labelled(name: &'static str, field: ConfigField) -> ConfigEntryView {
        ConfigEntryView {
            inner: ContainerView {
                dimensions: (ConfigEntryView::WIDTH, ConfigEntryView::HEIGHT),
                color: Color4f { r: 0, g: 0, b: 0, alpha: 0 },
                children: seq![
                    WidgetView::Text(
                        TextWidget {
                            text: Text { text: name, color: None, scale: 0, shadow: false },
                            pos: Point { x: 0, z: 0 },
                        },
                    ),
                ],
            },
            field,
        }
    }
}

/// The switches that the overlay offers, top to bottom.
pub open spec fn ui_widgets() -> Seq<WidgetView> {
    seq![
        WidgetView::ConfigEntry(ConfigEntryView::labelled("Show UI", ConfigField::UiVisible)),
        WidgetView::ConfigEntry(
            ConfigEntryView::labelled(
                "Enable Save in Create Blade",
                ConfigField::BladeCreateEnableSave,
            ),
        ),
    ]
}

/// The switches that the overlay offers, top to bottom.
pub fn get_ui_widgets() -> (widgets: Vec<Widget>)
    ensures
        widget_views(widgets@) == ui_widgets(),
        forall|i: int| 0 <= i < widgets@.len() ==> (#[trigger] widgets@[i])@.wf(),
{
    let show = ConfigEntryWidget::new("Show UI", ConfigField::UiVisible);
    let save = ConfigEntryWidget::new(
        "Enable Save in Create Blade",
        ConfigField::BladeCreateEnableSave,
    );
    let widgets = vec![Widget::ConfigEntry(show), Widget::ConfigEntry(save)];
    widgets
}

impl ConfigEntryWidget {
    /// The switch for `field` with the label `name`.
    pub fn new(name: &'static str, field: ConfigField) -> (widget: ConfigEntryWidget)
        ensures
            widget@ == ConfigEntryView::labelled(name, field),
            widget@.inner.wf(),
    {
        let text = TextWidget::new(Text::new(name), Point::default());
        let inner = Container::new(
            Color4f::default(),
            (ConfigEntryView::WIDTH, ConfigEntryView::HEIGHT),
            vec![Widget::Text(text)],
        );
        assert(inner@.children =~= ConfigEntryView::labelled(name, field).inner.children);
        ConfigEntryWidget { inner, field }
    }

    /// Switches the setting over when `inputs` confirm, and reports whether
    /// they did.
    pub fn handle_input(&self, inputs: PadData, config: &mut RuntimeConfig) -> (handled: bool)
        ensures
            handled == inputs.clicks(),
            *final(config) == (if inputs.clicks() {
                old(config).toggled(self@.field)
            } else {
                *old(config)
            }),
    {
        if inputs.is_click() {
            config.toggle(self.field);
            true
        } else {
            false
        }
    }

    /// Queues the calls that draw the widget at `base_pos`.
    pub fn render(&self, base_pos: &Point, renderer: &mut Renderer)
        requires
            self@.inner.wf(),
            self@.inner.fits(*base_pos),
        ensures
            final(renderer).backend == old(renderer).backend,
            final(renderer).calls@ == old(renderer).calls@ + self@.inner.draw(
                *base_pos,
                old(renderer).backend,
            ),
        decreases self,
    {
        self.inner.render(base_pos, renderer);
    }

    /// Whether the widget can be drawn at `base_pos` without leaving the
    /// coordinate grid.
    pub fn fits_at(&self, base_pos: &Point) -> (fits: bool)
        requires
            self@.inner.wf(),
        ensures
            fits == self@.inner.fits(*base_pos),
        decreases self,
    {
        self.inner.fits_at(base_pos)
    }

    /// The width of the widget.
    pub fn get_width(&self) -> (width: u32)
        ensures
            width == self@.inner.dimensions.0,
    {
        self.inner.get_width()
    }

    /// The height of the widget.
    pub fn get_height(&self) -> (height: u32)
        ensures
            height == self@.inner.dimensions.1,
    {
        self.inner.get_height()
    }
}

impl BladeCreateDefault {
    /// Position of the flag that stands for this choice.
    pub open spec fn position(self) -> nat {
        match self {
            BladeCreateDefault::Common => 0,
            BladeCreateDefault::Rare => 1,
            BladeCreateDefault::Legendary => 2,
            BladeCreateDefault::Worst => 3,
            BladeCreateDefault::Best => 4,
            BladeCreateDefault::Bravery => 5,
            BladeCreateDefault::Truth => 6,
            BladeCreateDefault::Compassion => 7,
            BladeCreateDefault::Justice => 8,
            BladeCreateDefault::NoRarity => 9,
            BladeCreateDefault::NoIdea => 10,
        }
    }

    /// The flag that stands for this choice: two to the power of its position.
    pub fn bits(self) -> (r: u32)
        ensures
            r == vstd::arithmetic::power2::pow2(self.position()),
    {
        proof {
            vstd::arithmetic::power2::lemma2_to64();
        }
        match self {
            BladeCreateDefault::Common => 1,
            BladeCreateDefault::Rare => 2,
            BladeCreateDefault::Legendary => 4,
            BladeCreateDefault::Worst => 8,
            BladeCreateDefault::Best => 16,
            BladeCreateDefault::Bravery => 32,
            BladeCreateDefault::Truth => 64,
            BladeCreateDefault::Compassion => 128,
            BladeCreateDefault::Justice => 256,
            BladeCreateDefault::NoRarity => 512,
            BladeCreateDefault::NoIdea => 1024,
        }
    }
}

impl RuntimeConfig {
    /// These settings with `field` switched over.
    pub open spec fn toggled(self, field: ConfigField) -> RuntimeConfig {
        match field {
            ConfigField::UiVisible => RuntimeConfig { ui_visible: !self.ui_visible, ..self },
            ConfigField::BladeCreateEnableSave => RuntimeConfig {
                blade_create_enable_save: !self.blade_create_enable_save,
                ..self
            },
        }
    }

    /// These settings with each of `fields` switched over, first to last.
    pub open spec fn toggled_all(self, fields: Seq<ConfigField>) -> RuntimeConfig
        decreases fields.len(),
    {
        if fields.len() == 0 {
            self
        } else {
            self.toggled_all(fields.drop_last()).toggled(fields.last())
        }
    }

    /// Switching over `first` and then `second` is switching over their
    /// concatenation.
    pub proof fn lemma_toggled_all_concat(self, first: Seq<ConfigField>, second: Seq<ConfigField>)
        ensures
            self.toggled_all(first + second) == self.toggled_all(first).toggled_all(second),
        decreases second.len(),
    {
        if second.len() > 0 {
            assert((first + second).drop_last() =~= first + second.drop_last());
            self.lemma_toggled_all_concat(first, second.drop_last());
        }
    }

    /// Switching over a single field.
    pub proof fn lemma_toggled_all_single(self, field: ConfigField)
        ensures
            self.toggled_all(seq![field]) == self.toggled(field),
    {
        reveal_with_fuel(RuntimeConfig::toggled_all, 2);
    }

    /// Switches `field` over.
    pub fn toggle(&mut self, field: ConfigField)
        ensures
            *final(self) == old(self).toggled(field),
    {
        match field {
            ConfigField::UiVisible => {
                self.ui_visible = !self.ui_visible;
            },
            ConfigField::BladeCreateEnableSave => {
                self.blade_create_enable_save = !self.blade_create_enable_save;
            },
        }
    }
}

impl Default for RuntimeConfig {
    /// Everything switched on, and the best blade preselected.
    fn default() -> (config: RuntimeConfig)
        ensures
            config == (RuntimeConfig {
                ui_visible: true,
                blade_create_enable_save: true,
                return_title: true,
                infinite_flutterheart: true,
                chain_attack_rate_fix: true,
                blade_create_default_sel: BladeCreateDefault::Best,
            }),
    {
        RuntimeConfig {
            ui_visible: true,
            blade_create_enable_save: true,
            return_title: true,
            infinite_flutterheart: true,
            chain_attack_rate_fix: true,
            blade_create_default_sel: BladeCreateDefault::Best,
        }
    }
}

} // verus!
