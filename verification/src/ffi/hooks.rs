//! Which hooks to install, and what each of them does when it runs.

use vstd::prelude::*;

use crate::ffi::context::CaptureContext;
use crate::ffi::owned::FfiPointer;
use crate::ffi::ui::UiOffsets;
use crate::ffi::{ConfigError, FfiConfig, Offset, Register, RegisterValue};
use crate::input::{PadButton, PadData};
use crate::ui::overlay::{anchor, render, Overlay};
use crate::ui::render::Renderer;
use crate::PlatformData;

verus! {

/// The offsets and registers that the hooks work with.
#[derive(Clone, Copy, Debug, PartialEq, Eq)]
pub struct Offsets {
    pub return_title: Option<Offset>,
    pub input_register: Register,
    pub bdat_item_id: Option<Register>,
    pub bdat_item_type: Option<Register>,
    pub chain_attack_rate_branch: Option<Register>,
    pub title_root_register: Option<Register>,
    pub draw_square_2d: Option<Offset>,
    pub draw_line_2d: Option<Offset>,
    pub draw_compare_z: Option<Offset>,
    pub ui_offsets: Option<UiOffsets>,
}

impl Offsets {
    /// What `read_all` makes of a configuration.
    pub open spec fn resolved(config: FfiConfig) -> Result<Offsets, ConfigError> {
        match config.register("input-pad-data"@) {
            None => Err(ConfigError::MissingRegister("input-pad-data")),
            Some(input_register) => Ok(
                Offsets {
                    return_title: config.function("return-title"@),
                    input_register,
                    bdat_item_id: config.register("bdat-item-cond-id"@),
                    bdat_item_type: config.register("bdat-item-cond-type"@),
                    chain_attack_rate_branch: config.register("chain-attack-rate-branch"@),
                    title_root_register: config.register("title-root"@),
                    draw_square_2d: config.function("draw-square-2d"@),
                    draw_line_2d: config.function("draw-line-2d"@),
                    draw_compare_z: config.function("draw-compare-z"@),
                    ui_offsets: match UiOffsets::resolved(config) {
                        Ok(ui_offsets) => Some(ui_offsets),
                        Err(_) => None,
                    },
                },
            ),
        }
    }

    /// Reads everything the hooks need from `config`. Only the register that
    /// carries the input snapshot is required; whatever else is missing
    /// switches off the feature that depends on it.
    pub fn read_all(config: &FfiConfig) -> (r: Result<Offsets, ConfigError>)
        ensures
            r == Offsets::resolved(*config),
    {
        let ui_offsets = match UiOffsets::load(config) {
            Ok(o) => Some(o),
            Err(_) => None,
        };
        let input_register = match config.get_register("input-pad-data") {
            Some(register) => register,
            None => { return Err(ConfigError::MissingRegister("input-pad-data")); },
        };
        Ok(
            Offsets {
                return_title: config.get_function("return-title"),
                input_register,
                bdat_item_id: config.get_register("bdat-item-cond-id"),
                bdat_item_type: config.get_register("bdat-item-cond-type"),
                chain_attack_rate_branch: config.get_register("chain-attack-rate-branch"),
                title_root_register: config.get_register("title-root"),
                draw_square_2d: config.get_function("draw-square-2d"),
                draw_line_2d: config.get_function("draw-line-2d"),
                draw_compare_z: config.get_function("draw-compare-z"),
                ui_offsets,
            },
        )
    }
}

/// Frames that must pass after an input was acted on before the next
/// gesture is accepted.
pub const DEBOUNCE_FRAMES: u32 = 10;

/// The save slot that the host is told when it is sent back to its title
/// screen.
pub const TITLE_SAVE_SLOT: u32 = 0xffff_ffff;

/// A place in the host's code at which the framework steps in.
#[derive(Clone, Copy, Debug, PartialEq, Eq, Structural)]
pub enum HookTarget {
    /// Once per frame, where the input snapshot has just been loaded.
    Input,
    /// The function that saves after a blade was created.
    BladeCreateSave,
    /// Where an item condition is evaluated.
    BdatItemCondition,
    /// The function that gives the greatest quantity of a key item.
    KeyItemMaxQuantity,
    /// Where the damage rate of a chain attack is chosen.
    ChainAttackEnemyAtkRate,
    /// Where the title screen has been loaded.
    TitleScreenLoad,
}

/// How a hook steps in.
#[derive(Clone, Copy, Debug, PartialEq, Eq, Structural)]
pub enum HookMode {
    /// The function at the offset is replaced, and the function that was
    /// there is handed back so that it can still be called.
    Replace,
    /// A probe is put at the offset. It sees the registers, may change
    /// them, and the code goes on as before.
    Inline,
}

/// A hook to install: what for, and where.
#[derive(Clone, Copy, Debug, PartialEq, Eq)]
pub struct HookInstall {
    pub target: HookTarget,
    pub offset: Offset,
}

/// A hook that has been installed. A hook that replaced a function keeps
/// the address of the function that was there, for calls that are passed
/// on; a probe displaced nothing.
#[derive(Clone, Copy, Debug, PartialEq, Eq)]
pub struct HookHandle {
    target: HookTarget,
    original: Option<u64>,
}

/// What the host is to be asked to do after a frame.
#[derive(Clone, Copy, Debug, PartialEq, Eq)]
pub enum FrameAction {
    /// Nothing.
    Nothing,
    /// Call `function` with `save_slot` to go back to the title screen.
    ReturnToTitle { function: Offset, save_slot: u32 },
}

/// What the framework does about a key item's greatest quantity.
#[derive(Clone, Copy, Debug, PartialEq, Eq, Structural)]
pub enum KeyItemQuantity {
    /// The quantity is this number.
    Fixed(u64),
    /// The quantity is what the host's own function says.
    Host,
}

/// What to add to the title screen: a copy of the child `child_name` of the
/// object at `root`, moved to `pos`, to carry the framework's version text.
#[derive(Clone, Copy, Debug, PartialEq, Eq)]
pub struct TitleBanner {
    pub ui_offsets: UiOffsets,
    pub root: u64,
    pub child_name: &'static str,
    pub pos: (i16, i16),
}

/// The item condition that the framework overrides.
pub const FLUTTERHEART_CONDITION: u64 = 300;

/// The condition type that no case of the host's evaluation matches, so
/// that the condition counts as met.
pub const UNKNOWN_CONDITION_TYPE: u32 = 30;

/// The key item of which more than one may be held.
pub const FLUTTERHEART_GRASS: u32 = 25447;

/// The greatest quantity of that key item.
pub const FLUTTERHEART_MAX: u64 = 99;

impl HookTarget {
    /// The key under which the target's offset is configured.
    pub open spec fn name(self) -> &'static str {
        match self {
            HookTarget::Input => "input",
            HookTarget::BladeCreateSave => "blade-create-save",
            HookTarget::BdatItemCondition => "bdat-item-condition",
            HookTarget::KeyItemMaxQuantity => "key-item-max-quantity",
            HookTarget::ChainAttackEnemyAtkRate => "chain-attack-enemy-atk-rate",
            HookTarget::TitleScreenLoad => "title-screen-load",
        }
    }

    /// How the target is hooked.
    pub open spec fn hooked(self) -> HookMode {
        match self {
            HookTarget::BladeCreateSave => HookMode::Replace,
            HookTarget::KeyItemMaxQuantity => HookMode::Replace,
            _ => HookMode::Inline,
        }
    }

    /// The key under which the target's offset is configured.
    pub fn key(self) -> (key: &'static str)
        ensures
            key == self.name(),
    {
        match self {
            HookTarget::Input => "input",
            HookTarget::BladeCreateSave => "blade-create-save",
            HookTarget::BdatItemCondition => "bdat-item-condition",
            HookTarget::KeyItemMaxQuantity => "key-item-max-quantity",
            HookTarget::ChainAttackEnemyAtkRate => "chain-attack-enemy-atk-rate",
            HookTarget::TitleScreenLoad => "title-screen-load",
        }
    }

    /// How the target is hooked.
    pub fn mode(self) -> (mode: HookMode)
        ensures
            mode == self.hooked(),
    {
        match self {
            HookTarget::BladeCreateSave => HookMode::Replace,
            HookTarget::KeyItemMaxQuantity => HookMode::Replace,
            _ => HookMode::Inline,
        }
    }
}

impl HookHandle {
    /// What the hook is for.
    pub closed spec fn purpose(self) -> HookTarget {
        self.target
    }

    /// The address of the function that the hook displaced.
    pub closed spec fn displaced(self) -> Option<u64> {
        self.original
    }

    /// What the hook is for.
    pub fn target(&self) -> (target: HookTarget)
        ensures
            target == self.purpose(),
    {
        self.target
    }

    /// The address of the function that the hook displaced, for a hook
    /// that replaced one.
    pub fn original(&self) -> (original: Option<u64>)
        ensures
            original == self.displaced(),
    {
        self.original
    }
}

impl HookInstall {
    /// The handle of this hook once it has been installed. `displaced` is
    /// the address that the installation handed back; it is kept for a hook
    /// that replaces a function and dropped for a probe.
    pub fn installed(&self, displaced: u64) -> (handle: HookHandle)
        ensures
            handle.purpose() == self.target,
            handle.displaced() == (match self.target.hooked() {
                HookMode::Replace => Some(displaced),
                HookMode::Inline => None,
            }),
    {
        HookHandle {
            target: self.target,
            original: match self.target.mode() {
                HookMode::Replace => Some(displaced),
                HookMode::Inline => None,
            },
        }
    }
}

/// Every target, in the order in which hooks are installed.
pub open spec fn targets() -> Seq<HookTarget> {
    seq![
        HookTarget::Input,
        HookTarget::BladeCreateSave,
        HookTarget::BdatItemCondition,
        HookTarget::KeyItemMaxQuantity,
        HookTarget::ChainAttackEnemyAtkRate,
        HookTarget::TitleScreenLoad,
    ]
}

/// The hook to install for `target`, if its offset is configured.
pub open spec fn planned(config: FfiConfig, target: HookTarget) -> Seq<HookInstall> {
    match config.hook(target.name()@) {
        Some(offset) => seq![HookInstall { target, offset }],
        None => Seq::empty(),
    }
}

/// The hooks to install for the first `k` targets, in order.
pub open spec fn plan_upto(config: FfiConfig, k: int) -> Seq<HookInstall>
    decreases k,
{
    if k <= 0 || k > targets().len() {
        Seq::empty()
    } else {
        plan_upto(config, k - 1) + planned(config, targets()[k - 1])
    }
}

/// The hooks to install: one for each target whose offset is configured,
/// in the order of the targets.
pub open spec fn plan(config: FfiConfig) -> Seq<HookInstall> {
    plan_upto(config, targets().len() as int)
}

/// Whether `hooks` holds a hook for `target`.
pub open spec fn installs(hooks: Seq<HookInstall>, target: HookTarget) -> bool {
    exists|i: int| 0 <= i < hooks.len() && (#[trigger] hooks[i]).target == target
}

/// Lists the hooks to install: one for each target whose offset is
/// configured and is not zero. A target without an offset is left out and
/// keeps no other target from being hooked.
pub fn install_all(config: &FfiConfig) -> (hooks: Vec<HookInstall>)
    ensures
        hooks@ == plan(*config),
{
    let mut hooks: Vec<HookInstall> = Vec::new();
    proof {
        reveal_with_fuel(plan_upto, 7);
    }
    if let Some(offset) = config.get_hook(HookTarget::Input.key()) {
        hooks.push(HookInstall { target: HookTarget::Input, offset });
    }
    if let Some(offset) = config.get_hook(HookTarget::BladeCreateSave.key()) {
        hooks.push(HookInstall { target: HookTarget::BladeCreateSave, offset });
    }
    if let Some(offset) = config.get_hook(HookTarget::BdatItemCondition.key()) {
        hooks.push(HookInstall { target: HookTarget::BdatItemCondition, offset });
    }
    if let Some(offset) = config.get_hook(HookTarget::KeyItemMaxQuantity.key()) {
        hooks.push(HookInstall { target: HookTarget::KeyItemMaxQuantity, offset });
    }
    if let Some(offset) = config.get_hook(HookTarget::ChainAttackEnemyAtkRate.key()) {
        hooks.push(HookInstall { target: HookTarget::ChainAttackEnemyAtkRate, offset });
    }
    if let Some(offset) = config.get_hook(HookTarget::TitleScreenLoad.key()) {
        hooks.push(HookInstall { target: HookTarget::TitleScreenLoad, offset });
    }
    hooks
}

/// A target is hooked exactly when its own offset is configured and is not
/// zero, whatever holds of the other targets.
pub proof fn lemma_plan_installs(config: FfiConfig, target: HookTarget)
    ensures
        installs(plan(config), target) <==> config.hook(target.name()@) is Some,
{
    reveal_with_fuel(plan_upto, 7);
    let hooks = plan(config);
    let position: int = match target {
        HookTarget::Input => 0,
        HookTarget::BladeCreateSave => 1,
        HookTarget::BdatItemCondition => 2,
        HookTarget::KeyItemMaxQuantity => 3,
        HookTarget::ChainAttackEnemyAtkRate => 4,
        HookTarget::TitleScreenLoad => 5,
    };
    if config.hook(target.name()@) is Some {
        let at = plan_upto(config, position).len() as int;
        assert(hooks[at].target == target);
    } else {
        assert forall|i: int| 0 <= i < hooks.len() implies (#[trigger] hooks[i]).target
            != target by {
            lemma_plan_targets(config, 6, i);
        }
    }
}

/// Every hook among those for the first `k` targets is for one of these
/// targets, and its offset is the one configured for it.
pub proof fn lemma_plan_targets(config: FfiConfig, k: int, i: int)
    requires
        0 <= k <= targets().len(),
        0 <= i < plan_upto(config, k).len(),
    ensures
        exists|j: int|
            0 <= j < k && #[trigger] targets()[j] == plan_upto(config, k)[i].target,
        config.hook(plan_upto(config, k)[i].target.name()@) == Some(
            plan_upto(config, k)[i].offset,
        ),
    decreases k,
{
    if k > 0 && i < plan_upto(config, k - 1).len() {
        lemma_plan_targets(config, k - 1, i);
    }
}

/// The chord that shows and hides the overlay: L with a click of the left
/// stick.
pub open spec fn toggle_chord() -> PadData {
    PadData::of(PadButton::L.mask() | PadButton::LeftStickClick.mask())
}

/// The chord that sends the host back to its title screen: L, R, A and
/// plus together.
pub open spec fn title_chord() -> PadData {
    PadData::of(
        PadButton::L.mask() | PadButton::R.mask() | PadButton::A.mask() | PadButton::Plus.mask(),
    )
}

/// One more than `frames`, starting over at zero after the greatest number.
pub open spec fn next_count(frames: u32) -> u32 {
    if frames == u32::MAX {
        0
    } else {
        (frames + 1) as u32
    }
}

impl PlatformData {
    /// The input snapshot that a frame with the registers `values` sees.
    pub open spec fn frame_inputs(self, values: Seq<u64>) -> PadData {
        PadData::of(self.ffi_offsets.input_register.read(values))
    }

    /// Whether gestures are accepted: enough frames have passed since an
    /// input was last acted on.
    pub open spec fn eligible(self) -> bool {
        self.no_input_frames >= DEBOUNCE_FRAMES
    }

    /// Whether a frame that sees `inputs` shows or hides the overlay.
    pub open spec fn toggles(self, inputs: PadData) -> bool {
        self.eligible() && inputs.includes(toggle_chord())
    }

    /// What a frame that sees `inputs` asks the host to do.
    pub open spec fn action(self, inputs: PadData) -> FrameAction {
        if self.eligible() && !inputs.includes(toggle_chord()) && inputs.includes(title_chord()) {
            match self.ffi_offsets.return_title {
                Some(function) => FrameAction::ReturnToTitle {
                    function,
                    save_slot: TITLE_SAVE_SLOT,
                },
                None => FrameAction::Nothing,
            }
        } else {
            FrameAction::Nothing
        }
    }

    /// Whether the overlay is shown after a frame that sees `inputs`.
    pub open spec fn visible_after(self, inputs: PadData) -> bool {
        if self.toggles(inputs) {
            !self.ui_visible
        } else {
            self.ui_visible
        }
    }

    /// The state after a frame that sees `inputs` and in which the overlay
    /// handles nothing: the frame is counted, unless its gesture was acted
    /// on, which starts the count over.
    pub open spec fn after_frame(self, inputs: PadData) -> PlatformData {
        PlatformData {
            ui_visible: self.visible_after(inputs),
            no_input_frames: if self.toggles(inputs) || self.action(inputs)
                != FrameAction::Nothing {
                0
            } else {
                next_count(self.no_input_frames)
            },
            ..self
        }
    }

    /// The state after one such frame for each of `inputs`, first to last.
    pub open spec fn after_frames(self, inputs: Seq<PadData>) -> PlatformData
        decreases inputs.len(),
    {
        if inputs.len() == 0 {
            self
        } else {
            self.after_frames(inputs.drop_last()).after_frame(inputs.last())
        }
    }

    /// What the overlay gets to see of `inputs`: all of it once gestures
    /// are accepted, nothing before.
    pub open spec fn overlay_inputs(self, inputs: PadData) -> PadData {
        if self.eligible() {
            inputs
        } else {
            PadData::of(0)
        }
    }
}

/// Before ten frames have passed since an input was last acted on, no input
/// shows or hides the overlay or sends the host to its title screen, and
/// the overlay sees no input.
pub proof fn lemma_debounce(platform: PlatformData, inputs: PadData)
    requires
        platform.no_input_frames < DEBOUNCE_FRAMES,
    ensures
        !platform.toggles(inputs),
        platform.action(inputs) == FrameAction::Nothing,
        platform.visible_after(inputs) == platform.ui_visible,
        platform.overlay_inputs(inputs).bits() == 0,
{
}

/// In the first ten frames after an input was acted on, whatever is held,
/// the overlay is neither shown nor hidden and every frame is counted.
pub proof fn lemma_held_chord_is_ignored(platform: PlatformData, inputs: Seq<PadData>)
    requires
        platform.no_input_frames == 0,
        inputs.len() <= DEBOUNCE_FRAMES,
    ensures
        platform.after_frames(inputs).ui_visible == platform.ui_visible,
        platform.after_frames(inputs).no_input_frames == inputs.len(),
        platform.after_frames(inputs).ffi_offsets == platform.ffi_offsets,
    decreases inputs.len(),
{
    if inputs.len() > 0 {
        lemma_held_chord_is_ignored(platform, inputs.drop_last());
    }
}

/// The toggle chord held in the eleventh frame after an input was acted on
/// shows or hides the overlay, once, and starts the count over.
pub proof fn lemma_eleventh_frame_toggles(platform: PlatformData, inputs: Seq<PadData>)
    requires
        platform.no_input_frames == 0,
        inputs.len() == DEBOUNCE_FRAMES + 1,
        inputs.last().includes(toggle_chord()),
    ensures
        platform.after_frames(inputs.drop_last()).ui_visible == platform.ui_visible,
        platform.after_frames(inputs).ui_visible == !platform.ui_visible,
        platform.after_frames(inputs).no_input_frames == 0,
{
    lemma_held_chord_is_ignored(platform, inputs.drop_last());
}

/// Whether a frame that sees the registers `values` renders the overlay:
/// the overlay is shown after the frame's gesture, and there is a renderer.
pub open spec fn shows_overlay(
    platform: PlatformData,
    values: Seq<u64>,
    renderer: Option<Renderer>,
) -> bool {
    platform.visible_after(platform.frame_inputs(values)) && renderer is Some
}

/// Whether a frame that sees the registers of `inline_ctx` renders the
/// overlay.
pub fn frame_shows_overlay(
    platform: &PlatformData,
    inline_ctx: &CaptureContext,
    renderer: &Option<Renderer>,
) -> (shows: bool)
    ensures
        shows == shows_overlay(*platform, inline_ctx.values(), *renderer),
{
    let inputs = PadData::from_bits(platform.ffi_offsets.input_register.get(inline_ctx));
    let can_input = platform.no_input_frames >= DEBOUNCE_FRAMES;
    let toggles = can_input && inputs.contains(PadButton::L + PadButton::LeftStickClick);
    let visible = if toggles {
        !platform.ui_visible
    } else {
        platform.ui_visible
    };
    visible && renderer.is_some()
}

/// Runs once per frame, with the registers at the point where the host has
/// just loaded its input snapshot.
///
/// Counts the frame. Once ten frames have passed since an input was last
/// acted on, the toggle chord shows or hides the overlay, and otherwise the
/// title chord sends the host back to its title screen if it can be. While
/// the overlay is shown and there is a renderer, the overlay sees the
/// inputs (none before the ten frames have passed) and is drawn. Whenever
/// an input was acted on, the count starts over.
///
/// `width` and `height` are what the host answered when asked for the size
/// of the screen.
pub fn on_frame(
    platform: &mut PlatformData,
    inline_ctx: &CaptureContext,
    renderer: &mut Option<Renderer>,
    ui: &mut Overlay,
    width: Option<u32>,
    height: Option<u32>,
) -> (action: FrameAction)
    requires
        old(ui).wf(),
        shows_overlay(*old(platform), inline_ctx.values(), *old(renderer)) ==> old(ui).renderable(
            (*old(renderer))->0.backend.screen(width, height),
        ),
    ensures
        final(ui).wf(),
        ({
            let before = *old(platform);
            let inputs = before.frame_inputs(inline_ctx.values());
            let shown = shows_overlay(before, inline_ctx.values(), *old(renderer));
            let seen = before.overlay_inputs(inputs);
            let screen = (*old(renderer))->0.backend.screen(width, height);
            let tree = old(ui).tree(screen);
            let tree_handled = shown && seen.bits() != 0 && tree.handles(seen);
            let had_input = before.toggles(inputs) || action != FrameAction::Nothing
                || tree_handled;
            let tree_after = if seen.bits() == 0 {
                tree
            } else {
                tree.after_input(seen)
            };
            &&& action == before.action(inputs)
            &&& !tree_handled ==> final(platform).ui_visible == before.after_frame(
                inputs,
            ).ui_visible && final(platform).no_input_frames == before.after_frame(
                inputs,
            ).no_input_frames
            &&& final(platform).ui_visible == before.visible_after(inputs)
            &&& final(platform).no_input_frames == (if had_input {
                0
            } else {
                next_count(before.no_input_frames)
            })
            &&& final(platform).text_renderer == before.text_renderer
            &&& final(platform).text_ptr == before.text_ptr
            &&& final(platform).ffi_offsets == before.ffi_offsets
            &&& *final(renderer) is Some <==> *old(renderer) is Some
            &&& if shown {
                &&& final(ui).root() == Some(tree_after)
                &&& final(platform).config == (if seen.bits() == 0 {
                    before.config
                } else {
                    before.config.toggled_all(tree.toggles(seen))
                })
                &&& (*final(renderer))->0.backend == (*old(renderer))->0.backend
                &&& (*final(renderer))->0.calls@ == (*old(renderer))->0.calls@ + tree_after.draw(
                    anchor(screen),
                    (*old(renderer))->0.backend,
                )
            } else {
                &&& final(ui).root() == old(ui).root()
                &&& final(platform).config == before.config
                &&& *final(renderer) == *old(renderer)
            }
        }),
{
    let inputs = PadData::from_bits(platform.ffi_offsets.input_register.get(inline_ctx));
    let can_input = platform.no_input_frames >= DEBOUNCE_FRAMES;
    platform.no_input_frames = platform.no_input_frames.wrapping_add(1);
    let mut action = FrameAction::Nothing;
    let mut had_input = if can_input {
        if inputs.contains(PadButton::L + PadButton::LeftStickClick) {
            platform.ui_visible = !platform.ui_visible;
            true
        } else if inputs.contains(PadButton::L + PadButton::R + PadButton::A + PadButton::Plus) {
            match platform.ffi_offsets.return_title {
                Some(function) => {
                    action = FrameAction::ReturnToTitle { function, save_slot: TITLE_SAVE_SLOT };
                    true
                },
                None => false,
            }
        } else {
            false
        }
    } else {
        false
    };
    if platform.ui_visible {
        match renderer {
            Some(renderer) => {
                let seen = if can_input {
                    inputs
                } else {
                    PadData::default()
                };
                if render(ui, &mut platform.config, renderer, seen, width, height) {
                    had_input = true;
                }
            },
            None => {},
        }
    }
    if had_input {
        platform.no_input_frames = 0;
    }
    action
}

/// Replaces the function that saves after a blade was created: it saves
/// nothing and reports success.
pub fn blade_create_disable_save(_save_slot: i64) -> (r: i64)
    ensures
        r == 1,
{
    1
}

impl Offsets {
    /// Whether the item-condition probe has what it needs for the registers
    /// `values`: where the overridden condition is being evaluated, the
    /// register of the condition type is configured as a 32-bit location.
    pub open spec fn condition_ready(self, values: Seq<u64>) -> bool {
        self.overrides_condition(values) ==> self.bdat_item_type is Some && RegisterValue::RW(
            UNKNOWN_CONDITION_TYPE,
        ).fits(self.bdat_item_type->0.class())
    }

    /// Whether the registers `values` show the overridden condition being
    /// evaluated.
    pub open spec fn overrides_condition(self, values: Seq<u64>) -> bool {
        self.bdat_item_id is Some && self.bdat_item_id->0.read(values) == FLUTTERHEART_CONDITION
    }

    /// Whether the chain-attack probe has what it needs: the register of
    /// the branch is configured as a 32-bit location.
    pub open spec fn branch_ready(self) -> bool {
        self.chain_attack_rate_branch is Some && RegisterValue::RW(1).fits(
            self.chain_attack_rate_branch->0.class(),
        )
    }

    /// Whether the item-condition probe has what it needs in `inline_ctx`.
    pub fn is_condition_ready(&self, inline_ctx: &CaptureContext) -> (ready: bool)
        ensures
            ready == self.condition_ready(inline_ctx.values()),
    {
        match self.bdat_item_id {
            Some(id) => {
                if id.get(inline_ctx) == FLUTTERHEART_CONDITION {
                    match self.bdat_item_type {
                        Some(kind) => kind.accepts(&RegisterValue::RW(UNKNOWN_CONDITION_TYPE)),
                        None => false,
                    }
                } else {
                    true
                }
            },
            None => true,
        }
    }

    /// Whether the chain-attack probe has what it needs.
    pub fn is_branch_ready(&self) -> (ready: bool)
        ensures
            ready == self.branch_ready(),
    {
        match self.chain_attack_rate_branch {
            Some(branch) => branch.accepts(&RegisterValue::RW(1)),
            None => false,
        }
    }
}

/// The item-condition probe. Where the host evaluates the condition that
/// no flutterheart grass is held, the condition type is replaced by one
/// that the host does not know, which makes the condition count as met.
/// Every other evaluation is left alone.
pub fn bdat_item_condition(platform: &PlatformData, inline_ctx: &mut CaptureContext)
    requires
        platform.ffi_offsets.condition_ready(old(inline_ctx).values()),
    ensures
        final(inline_ctx).values() == (if platform.ffi_offsets.overrides_condition(
            old(inline_ctx).values(),
        ) {
            old(inline_ctx).values().update(
                platform.ffi_offsets.bdat_item_type->0.slot() as int,
                UNKNOWN_CONDITION_TYPE as u64,
            )
        } else {
            old(inline_ctx).values()
        }),
{
    if let Some(id) = platform.ffi_offsets.bdat_item_id {
        if id.get(inline_ctx) == FLUTTERHEART_CONDITION {
            match platform.ffi_offsets.bdat_item_type {
                Some(kind) => kind.set(inline_ctx, RegisterValue::RW(UNKNOWN_CONDITION_TYPE)),
                None => {},
            }
        }
    }
}

/// Replaces the function that gives the greatest quantity of a key item:
/// 99 for flutterheart grass, the host's own answer for everything else.
pub fn key_item_max_quantity(id: u32) -> (r: KeyItemQuantity)
    ensures
        r == (if id == FLUTTERHEART_GRASS {
            KeyItemQuantity::Fixed(FLUTTERHEART_MAX)
        } else {
            KeyItemQuantity::Host
        }),
{
    if id == FLUTTERHEART_GRASS {
        KeyItemQuantity::Fixed(FLUTTERHEART_MAX)
    } else {
        KeyItemQuantity::Host
    }
}

/// The chain-attack probe: sets the branch register to one, so that the
/// host always skips the check that breaks the damage rate.
pub fn chain_attack_rate_fix(platform: &PlatformData, inline_ctx: &mut CaptureContext)
    requires
        platform.ffi_offsets.branch_ready(),
    ensures
        final(inline_ctx).values() == old(inline_ctx).values().update(
            platform.ffi_offsets.chain_attack_rate_branch->0.slot() as int,
            1,
        ),
{
    match platform.ffi_offsets.chain_attack_rate_branch {
        Some(branch) => branch.set(inline_ctx, RegisterValue::RW(1)),
        None => {},
    }
}

/// What the title-screen probe makes of the offsets and the registers
/// `values`: a banner, if the host's UI functions and the register of the
/// title screen's root are configured and the root is not null.
pub open spec fn title_banner(offsets: Offsets, values: Seq<u64>) -> Option<TitleBanner> {
    if offsets.ui_offsets is Some && offsets.title_root_register is Some
        && offsets.title_root_register->0.read(values) != 0 {
        Some(
            TitleBanner {
                ui_offsets: offsets.ui_offsets->0,
                root: offsets.title_root_register->0.read(values),
                child_name: "TXT_copyright",
                pos: (920, 60),
            },
        )
    } else {
        None
    }
}

/// The title-screen probe: says what to add to the title screen, if
/// anything.
pub fn title_screen_load(platform: &PlatformData, inline_ctx: &CaptureContext) -> (banner: Option<
    TitleBanner,
>)
    ensures
        banner == title_banner(platform.ffi_offsets, inline_ctx.values()),
{
    match (platform.ffi_offsets.ui_offsets, platform.ffi_offsets.title_root_register) {
        (Some(ui_offsets), Some(root)) => {
            let address = root.get(inline_ctx);
            match FfiPointer::<[u8; 20], Offset>::from_ptr(address) {
                Some(pointer) => Some(
                    TitleBanner {
                        ui_offsets,
                        root: pointer.address(),
                        child_name: "TXT_copyright",
                        pos: (920, 60),
                    },
                ),
                None => None,
            }
        },
        _ => None,
    }
}

} // verus!
