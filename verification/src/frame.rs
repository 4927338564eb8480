//! One frame of the overlay: the host's input snapshot and measured
//! glyph boxes come in, draw primitives and a repaint request go out.
//! The per-toast step here is the heart of the render pass; the
//! collection folds it over the stack in `show`.

use vstd::prelude::*;

use crate::anchor::Anchor;
use crate::geometry::{
    lemma_mul_le, Pos2, PosView, Rect, RectView, Rgba, Vec2i, VecView, CURSOR_LIMIT, DIM_MAX,
    DIM_SUM_MAX, POS_LIMIT,
};
use crate::spec_ease_in_cubic;
use crate::toast::{MeasureView, Toast, ToastMeasure, ToastState, ToastView, ANIM_UNIT, TIME_MAX};

verus! {

/// A drop-shadow description, passed through to the host's painter.
#[derive(Debug, Clone, Copy, PartialEq, Eq, Structural)]
pub struct Shadow {
    /// Offset of the shadow from the box.
    pub offset: Vec2i,
    /// Blur radius.
    pub blur: i64,
    /// Spread distance.
    pub spread: i64,
    /// Shadow color.
    pub color: Rgba,
}

/// Mathematical model of a shadow description.
#[verifier::ext_equal]
pub struct ShadowView {
    /// Offset of the shadow from the box.
    pub offset: VecView,
    /// Blur radius.
    pub blur: int,
    /// Spread distance.
    pub spread: int,
    /// Shadow color.
    pub color: Rgba,
}

impl View for Shadow {
    type V = ShadowView;

    open spec fn view(&self) -> ShadowView {
        ShadowView {
            offset: self.offset@,
            blur: self.blur as int,
            spread: self.spread as int,
            color: self.color,
        }
    }
}

/// The view of an optional shadow description.
pub open spec fn shadow_view(s: Option<Shadow>) -> Option<ShadowView> {
    match s {
        Some(sh) => Some(sh@),
        None => None,
    }
}

/// The host's input snapshot for one frame, read-only for the overlay.
#[derive(Debug, Clone, Copy, PartialEq, Eq, Structural)]
pub struct FrameInput {
    /// Maximal coordinate of the screen rectangle.
    pub screen_max: Pos2,
    /// Where the pointer hovers, if anywhere.
    pub hover: Option<Pos2>,
    /// Where a primary-button press originated, if one is in progress.
    pub press: Option<Pos2>,
    /// Whether the primary button was released since the last frame.
    pub released: bool,
    /// Frame delta-time in milliseconds.
    pub dt: i64,
}

/// Mathematical model of an input snapshot.
#[verifier::ext_equal]
pub struct InputView {
    /// Maximal coordinate of the screen rectangle.
    pub screen_max: PosView,
    /// Where the pointer hovers, if anywhere.
    pub hover: Option<PosView>,
    /// Where a primary-button press originated, if one is in progress.
    pub press: Option<PosView>,
    /// Whether the primary button was released since the last frame.
    pub released: bool,
    /// Frame delta-time in milliseconds.
    pub dt: int,
}

impl View for FrameInput {
    type V = InputView;

    open spec fn view(&self) -> InputView {
        InputView {
            screen_max: self.screen_max@,
            hover: match self.hover {
                Some(p) => Some(p@),
                None => None,
            },
            press: match self.press {
                Some(p) => Some(p@),
                None => None,
            },
            released: self.released,
            dt: self.dt as int,
        }
    }
}

impl InputView {
    /// The screen rectangle is within the supported range and the frame
    /// delta-time is a sane number of milliseconds.
    pub open spec fn wf(self) -> bool {
        &&& 0 <= self.screen_max.x <= DIM_MAX
        &&& 0 <= self.screen_max.y <= DIM_MAX
        &&& 0 <= self.dt <= TIME_MAX
    }
}

/// One draw primitive the host's painter is asked to emit, in stacking
/// order. `index` names the toast (by its position in the stack this
/// frame) whose shaped glyphs the primitive blits.
#[derive(Debug, Clone, Copy, PartialEq, Eq, Structural)]
pub enum DrawCommand {
    /// Drop shadow under a toast's box.
    Shadow {
        /// The shadow description the collection was configured with.
        shadow: Shadow,
        /// The toast's box.
        rect: Rect,
    },
    /// The toast's filled background box.
    Background {
        /// The toast's box.
        rect: Rect,
    },
    /// The level icon glyph of toast `index`.
    Icon {
        /// Which toast's icon to blit.
        index: usize,
        /// Top-left corner to blit at.
        pos: Pos2,
    },
    /// The caption run of toast `index`.
    Caption {
        /// Which toast's caption to blit.
        index: usize,
        /// Top-left corner to blit at.
        pos: Pos2,
    },
    /// The dismiss-cross glyph of toast `index`.
    Cross {
        /// Which toast's cross to blit.
        index: usize,
        /// Top-left corner to blit at.
        pos: Pos2,
    },
    /// The remaining-time indicator line along the box's bottom edge.
    Progress {
        /// Left end of the line.
        from: Pos2,
        /// Right end of the line; it recedes as time runs out.
        to: Pos2,
    },
}

/// Mathematical model of a draw primitive.
#[verifier::ext_equal]
pub enum CommandView {
    /// Drop shadow under a toast's box.
    Shadow {
        /// The shadow description the collection was configured with.
        shadow: ShadowView,
        /// The toast's box.
        rect: RectView,
    },
    /// The toast's filled background box.
    Background {
        /// The toast's box.
        rect: RectView,
    },
    /// The level icon glyph of toast `index`.
    Icon {
        /// Which toast's icon to blit.
        index: int,
        /// Top-left corner to blit at.
        pos: PosView,
    },
    /// The caption run of toast `index`.
    Caption {
        /// Which toast's caption to blit.
        index: int,
        /// Top-left corner to blit at.
        pos: PosView,
    },
    /// The dismiss-cross glyph of toast `index`.
    Cross {
        /// Which toast's cross to blit.
        index: int,
        /// Top-left corner to blit at.
        pos: PosView,
    },
    /// The remaining-time indicator line along the box's bottom edge.
    Progress {
        /// Left end of the line.
        from: PosView,
        /// Right end of the line; it recedes as time runs out.
        to: PosView,
    },
}

impl View for DrawCommand {
    type V = CommandView;

    open spec fn view(&self) -> CommandView {
        match self {
            DrawCommand::Shadow { shadow, rect } => CommandView::Shadow { shadow: shadow@, rect: rect@ },
            DrawCommand::Background { rect } => CommandView::Background { rect: rect@ },
            DrawCommand::Icon { index, pos } => CommandView::Icon { index: *index as int, pos: pos@ },
            DrawCommand::Caption { index, pos } => CommandView::Caption { index: *index as int, pos: pos@ },
            DrawCommand::Cross { index, pos } => CommandView::Cross { index: *index as int, pos: pos@ },
            DrawCommand::Progress { from, to } => CommandView::Progress { from: from@, to: to@ },
        }
    }
}

/// The views of a frame's draw primitives.
pub open spec fn commands_view(cs: Seq<DrawCommand>) -> Seq<CommandView> {
    cs.map_values(|c: DrawCommand| c@)
}

/// What one frame hands back to the host: the primitives to paint, in
/// order, and whether animation or countdown work remains pending.
pub struct FrameOutput {
    /// Draw primitives, in stacking order.
    pub commands: Vec<DrawCommand>,
    /// Whether the host should schedule another repaint.
    pub repaint: bool,
}

/// The collection-level configuration a frame step reads.
#[verifier::ext_equal]
pub struct FrameCfg {
    /// Which screen corner or edge the stack hangs from.
    pub anchor: Anchor,
    /// Space between adjacent toasts.
    pub spacing: int,
    /// Space from a toast's box to its contents.
    pub padding: VecView,
    /// Animation speed in animation units per millisecond.
    pub speed: int,
    /// Drop-shadow description, if shadows are drawn.
    pub shadow: Option<ShadowView>,
}

impl FrameCfg {
    /// Configuration bounds under which all frame arithmetic stays exact.
    pub open spec fn wf(self) -> bool {
        &&& 0 <= self.spacing <= DIM_MAX
        &&& self.padding.in_range(DIM_MAX as int)
        &&& 0 <= self.speed <= crate::toast::SPEED_MAX
    }
}

/// The horizontal slide-in offset of a toast: its width scaled by how
/// far the eased animation value still is from fully settled.
pub open spec fn spec_anim_offset(t: ToastView) -> int {
    t.width * (ANIM_UNIT - spec_ease_in_cubic(t.value)) / (ANIM_UNIT as int)
}

/// The stack cursor shifted sideways by the slide-in offset, toward the
/// anchor's side. Only the current toast's rectangle sees the shift; the
/// cursor used for stacking is unaffected.
pub open spec fn shifted_cursor(t: ToastView, cursor: PosView, anchor: Anchor) -> PosView {
    PosView { x: cursor.x + spec_anim_offset(t) * anchor.spec_anim_side(), y: cursor.y }
}

/// The rectangle a toast occupies this frame: anchored at the cursor
/// shifted by the slide-in offset.
pub open spec fn frame_rect(t: ToastView, cursor: PosView, anchor: Anchor) -> RectView {
    t.anchored_rect(shifted_cursor(t, cursor, anchor), anchor)
}

/// Whether the pointer hovers inside `rect`.
pub open spec fn is_hovered(rect: RectView, hover: Option<PosView>) -> bool {
    match hover {
        Some(p) => rect.contains(p),
        None => false,
    }
}

/// The rectangle of the dismiss cross of a (resized) toast whose box
/// sits at `rect_min`: flush against the right inner padding, centered
/// vertically.
pub open spec fn spec_cross_rect(t: ToastView, m: MeasureView, rect_min: PosView, padding: VecView) -> RectView {
    let cw = t.cross_width(m);
    let ch = t.cross_height(m);
    let ox = t.width - cw - padding.x;
    let oy = t.height / 2 - ch / 2;
    let corner = PosView { x: rect_min.x + ox, y: rect_min.y + oy };
    RectView { min: corner, max: PosView { x: corner.x + cw, y: corner.y + ch } }
}

/// Whether this frame's press dismisses the (resized) toast: it is
/// closable, a press originated inside its cross, and no other toast
/// has already taken this press (the `held` debounce).
pub open spec fn spec_clicked(t: ToastView, m: MeasureView, rect: RectView, padding: VecView, press: Option<PosView>, held: bool) -> bool {
    t.closable && match press {
        Some(p) => spec_cross_rect(t, m, rect.min, padding).contains(p) && !held,
        None => false,
    }
}

/// One toast's full frame step: expiry, hover-gated countdown, content
/// resize, dismiss-click, stack-cursor advance and animation advance.
/// Returns the stepped toast, the `held` flag after it, whether it still
/// needs repaints, and the cursor for the next toast in the stack.
pub open spec fn step_toast(t0: ToastView, m: MeasureView, cursor: PosView, held: bool, cfg: FrameCfg, input: InputView) -> (ToastView, bool, bool, PosView) {
    let t1 = t0.expired();
    let rect = frame_rect(t1, cursor, cfg.anchor);
    let hov = is_hovered(rect, input.hover);
    let tick = if !hov { t1.ticked(input.dt) } else { (t1, false) };
    let t2 = tick.0;
    let ticked = tick.1;
    let t3 = t2.resized(m, cfg.padding);
    let cl = spec_clicked(t3, m, rect, cfg.padding, input.press, held);
    let t4 = if cl { t3.dismissed() } else { t3 };
    let cursor2 = t4.next_pos(cursor, cfg.anchor, cfg.spacing);
    let adv = t4.advanced(cfg.speed, input.dt);
    (adv.0, held || cl, ticked || adv.1, cursor2)
}

/// The shadow primitive of one toast, when shadows are configured.
pub open spec fn shadow_cmds(shadow: Option<ShadowView>, rect: RectView) -> Seq<CommandView> {
    match shadow {
        Some(sh) => seq![CommandView::Shadow { shadow: sh, rect: rect }],
        None => seq![],
    }
}

/// The icon primitive of one (resized) toast, when its level draws one:
/// behind the left padding, centered vertically.
pub open spec fn icon_cmds(t: ToastView, m: MeasureView, rect: RectView, padding: VecView, index: int) -> Seq<CommandView> {
    if t.level.has_icon() {
        let oy = t.height / 2 - t.action_height(m) / 2;
        seq![CommandView::Icon { index: index, pos: PosView { x: rect.min.x + padding.x, y: rect.min.y + oy } }]
    } else {
        seq![]
    }
}

/// The caption primitive of one (resized) toast: centered in the box,
/// nudged right of the icon slot and left of the cross slot.
pub open spec fn caption_cmds(t: ToastView, m: MeasureView, rect: RectView, padding: VecView, index: int) -> Seq<CommandView> {
    let aw = t.action_width(m);
    let from_icon = if aw == 0 { 0int } else { aw + padding.x };
    let cw = t.cross_width(m);
    let from_cross = if cw == 0 { 0int } else { cw + padding.x };
    let ox = t.width / 2 - m.caption_w / 2 + from_icon / 2 - from_cross / 2;
    let oy = t.height / 2 - m.caption_h / 2;
    seq![CommandView::Caption { index: index, pos: PosView { x: rect.min.x + ox, y: rect.min.y + oy } }]
}

/// The cross primitive of one (resized) toast, when it is closable.
pub open spec fn cross_cmds(t: ToastView, m: MeasureView, rect: RectView, padding: VecView, index: int) -> Seq<CommandView> {
    if t.closable {
        seq![CommandView::Cross { index: index, pos: spec_cross_rect(t, m, rect.min, padding).min }]
    } else {
        seq![]
    }
}

/// The remaining-time indicator of one toast (after this frame's
/// countdown and click): a line along the box's bottom edge whose right
/// end recedes by the elapsed share of the initial duration. Not drawn
/// while the toast is disappearing.
pub open spec fn progress_cmds(t: ToastView, rect: RectView) -> Seq<CommandView> {
    match t.duration {
        Some((initial, remaining)) => if t.show_progress_bar && !(t.state is Disappear) {
            let recede = t.width * (initial - remaining) / initial;
            seq![CommandView::Progress {
                from: PosView { x: rect.min.x, y: rect.min.y + t.height },
                to: PosView { x: rect.max.x - recede, y: rect.max.y },
            }]
        } else {
            seq![]
        },
        None => seq![],
    }
}

/// All primitives one toast emits this frame, in paint order: shadow,
/// background, icon, caption, cross, remaining-time indicator.
pub open spec fn step_commands(t0: ToastView, m: MeasureView, cursor: PosView, held: bool, cfg: FrameCfg, input: InputView, index: int) -> Seq<CommandView> {
    let t1 = t0.expired();
    let rect = frame_rect(t1, cursor, cfg.anchor);
    let hov = is_hovered(rect, input.hover);
    let tick = if !hov { t1.ticked(input.dt) } else { (t1, false) };
    let t3 = tick.0.resized(m, cfg.padding);
    let cl = spec_clicked(t3, m, rect, cfg.padding, input.press, held);
    let t4 = if cl { t3.dismissed() } else { t3 };
    shadow_cmds(cfg.shadow, rect) + seq![CommandView::Background { rect: rect }]
        + icon_cmds(t3, m, rect, cfg.padding, index) + caption_cmds(t3, m, rect, cfg.padding, index)
        + cross_cmds(t3, m, rect, cfg.padding, index) + progress_cmds(t4, rect)
}

/// The horizontal slide-in offset of the toast this frame, between zero
/// and its width.
fn anim_offset(t: &Toast) -> (r: i64)
    requires
        t@.wf(),
    ensures
        r == spec_anim_offset(t@),
        0 <= r <= t@.width,
{
    let e = crate::ease_in_cubic(t.animation_value());
    let k = ANIM_UNIT - e;
    proof {
        lemma_mul_le(t@.width, DIM_SUM_MAX as int, k as int, ANIM_UNIT as int);
        lemma_mul_le(k as int, ANIM_UNIT as int, t@.width, t@.width);
        vstd::arithmetic::div_mod::lemma_div_is_ordered(
            t@.width * (k as int),
            t@.width * (ANIM_UNIT as int),
            ANIM_UNIT as int,
        );
        vstd::arithmetic::div_mod::lemma_div_by_multiple(t@.width, ANIM_UNIT as int);
        vstd::arithmetic::div_mod::lemma_div_pos_is_pos(t@.width * (k as int), ANIM_UNIT as int);
    }
    t.width() * k / ANIM_UNIT
}

/// Emits the box-level primitives of one (already resized) toast in
/// paint order: shadow, background, icon, caption, cross.
#[verifier::rlimit(100)]
fn emit_box_commands(
    index: usize,
    rect: Rect,
    t: &Toast,
    m: &ToastMeasure,
    padding: Vec2i,
    shadow: Option<Shadow>,
) -> (cmds: Vec<DrawCommand>)
    requires
        t@.wf(),
        m@.wf(),
        padding@.in_range(DIM_MAX as int),
        rect@.min.in_range(POS_LIMIT as int + 2 * DIM_SUM_MAX),
    ensures
        commands_view(cmds@) == shadow_cmds(shadow_view(shadow), rect@)
            + seq![CommandView::Background { rect: rect@ }]
            + icon_cmds(t@, m@, rect@, padding@, index as int)
            + caption_cmds(t@, m@, rect@, padding@, index as int)
            + cross_cmds(t@, m@, rect@, padding@, index as int),
{
    let mut cmds: Vec<DrawCommand> = Vec::new();

    if let Some(sh) = shadow {
        cmds.push(DrawCommand::Shadow { shadow: sh, rect });
    }
    proof {
        assert(commands_view(cmds@) =~= shadow_cmds(shadow_view(shadow), rect@));
    }
    let ghost upto_shadow = commands_view(cmds@);

    cmds.push(DrawCommand::Background { rect });
    proof {
        assert(commands_view(cmds@) =~= upto_shadow + seq![CommandView::Background { rect: rect@ }]);
    }
    let ghost upto_bg = commands_view(cmds@);

    // Paint the level icon, when the level draws one.
    if t.level().has_icon() {
        let oy = t.height() / 2 - m.icon_h / 2;
        cmds.push(DrawCommand::Icon {
            index,
            pos: Pos2 { x: rect.min.x + padding.x, y: rect.min.y + oy },
        });
    }
    proof {
        assert(commands_view(cmds@) =~= upto_bg + icon_cmds(t@, m@, rect@, padding@, index as int));
    }
    let ghost upto_icon = commands_view(cmds@);

    // Paint the caption, centered between the icon and cross slots.
    let action_w = if t.level().has_icon() { m.icon_w } else { 0 };
    let from_icon = if action_w == 0 { 0 } else { action_w + padding.x };
    let cross_w = if t.is_closable() { m.cross_w } else { 0 };
    let from_cross = if cross_w == 0 { 0 } else { cross_w + padding.x };
    let ox = t.width() / 2 - m.caption_w / 2 + from_icon / 2 - from_cross / 2;
    let oy = t.height() / 2 - m.caption_h / 2;
    cmds.push(DrawCommand::Caption {
        index,
        pos: Pos2 { x: rect.min.x + ox, y: rect.min.y + oy },
    });
    proof {
        assert(commands_view(cmds@) =~= upto_icon + caption_cmds(t@, m@, rect@, padding@, index as int));
    }
    let ghost upto_caption = commands_view(cmds@);

    // Paint the dismiss cross.
    if t.is_closable() {
        let corner = cross_corner(rect, t, m, padding);
        cmds.push(DrawCommand::Cross { index, pos: corner });
    }
    proof {
        assert(commands_view(cmds@) =~= upto_caption + cross_cmds(t@, m@, rect@, padding@, index as int));
    }

    cmds
}

/// Top-left corner of the dismiss cross of a (resized) toast whose box
/// is `rect`.
fn cross_corner(rect: Rect, t: &Toast, m: &ToastMeasure, padding: Vec2i) -> (corner: Pos2)
    requires
        t@.wf(),
        m@.wf(),
        padding@.in_range(DIM_MAX as int),
        t@.closable,
        rect@.min.in_range(POS_LIMIT as int + 2 * DIM_SUM_MAX),
    ensures
        corner@ == spec_cross_rect(t@, m@, rect@.min, padding@).min,
{
    let cx = t.width() - m.cross_w - padding.x;
    let cy = t.height() / 2 - m.cross_h / 2;
    Pos2 { x: rect.min.x + cx, y: rect.min.y + cy }
}

impl Toast {
    /// One toast's full frame step, mirroring `step_toast` and
    /// `step_commands`: applies expiry, the hover-gated countdown, the
    /// content resize, the dismiss-click (debounced through `held`) and
    /// the animation advance, and advances the stack cursor past the
    /// toast. Returns the stepped toast, whether it still needs
    /// repaints, and its draw primitives in paint order.
    #[verifier::rlimit(100)]
    pub(crate) fn frame_step(
        self,
        index: usize,
        m: &ToastMeasure,
        cursor: &mut Pos2,
        held: &mut bool,
        anchor: Anchor,
        spacing: i64,
        padding: Vec2i,
        shadow: Option<Shadow>,
        speed: i64,
        input: &FrameInput,
    ) -> (r: (Toast, bool, Vec<DrawCommand>))
        requires
            self@.wf(),
            m@.wf(),
            input@.wf(),
            0 <= spacing <= DIM_MAX,
            padding@.in_range(DIM_MAX as int),
            0 <= speed <= crate::toast::SPEED_MAX,
            old(cursor)@.in_range(CURSOR_LIMIT as int),
        ensures
            ({
                let cfg = FrameCfg {
                    anchor,
                    spacing: spacing as int,
                    padding: padding@,
                    speed: speed as int,
                    shadow: shadow_view(shadow),
                };
                let s = step_toast(self@, m@, old(cursor)@, *old(held), cfg, input@);
                &&& r.0@ == s.0
                &&& *final(held) == s.1
                &&& r.1 == s.2
                &&& final(cursor)@ == s.3
                &&& commands_view(r.2@) == step_commands(
                    self@, m@, old(cursor)@, *old(held), cfg, input@, index as int)
                &&& r.0@.wf()
                &&& final(cursor)@.x == old(cursor)@.x
                &&& old(cursor)@.y - (DIM_SUM_MAX + DIM_MAX) <= final(cursor)@.y
                    <= old(cursor)@.y + (DIM_SUM_MAX + DIM_MAX)
            }),
    {
        let ghost cfg = FrameCfg {
            anchor,
            spacing: spacing as int,
            padding: padding@,
            speed: speed as int,
            shadow: shadow_view(shadow),
        };
        let ghost cursor0 = cursor@;
        let ghost held0 = *held;

        let mut t = self;

        // Start disappearing expired toasts.
        t.apply_expiry();
        let ghost t1 = t@;

        // The toast's rectangle this frame: the cursor shifted sideways
        // by the slide-in offset, with the box hung from it.
        let side = anchor.anim_side();
        let off = anim_offset(&t);
        let shifted = Pos2 { x: cursor.x + off * side, y: cursor.y };
        let rect = t.calc_anchored_rect(shifted, anchor);
        proof {
            assert(shifted@ == shifted_cursor(t1, cursor0, anchor));
            assert(rect@ == frame_rect(t1, cursor0, anchor));
        }

        // While hovered, the countdown is paused.
        let hovered = match input.hover {
            Some(p) => rect.contains(p),
            None => false,
        };
        let mut update = false;
        if !hovered {
            if t.tick_countdown(input.dt) {
                update = true;
            }
        }

        t.recompute_size(m, padding);
        let ghost t3 = t@;

        let mut cmds = emit_box_commands(index, rect, &t, m, padding, shadow);
        let ghost upto_cross = commands_view(cmds@);

        // Hit-test this frame's press against the dismiss cross; the
        // shared `held` flag lets one press dismiss at most one toast
        // until it is released.
        if t.is_closable() {
            let corner = cross_corner(rect, &t, m, padding);
            let cross_rect = Rect {
                min: corner,
                max: Pos2 { x: corner.x + m.cross_w, y: corner.y + m.cross_h },
            };
            proof {
                assert(cross_rect@ == spec_cross_rect(t3, m@, rect@.min, padding@));
            }
            if let Some(p) = input.press {
                if cross_rect.contains(p) && !*held {
                    t.dismiss();
                    *held = true;
                }
            }
        }
        let ghost t4 = t@;

        // Draw the remaining-time indicator.
        if t.shows_progress_bar() {
            if let Some((initial, remaining)) = t.duration() {
                if !t.state().disappearing() {
                    proof {
                        lemma_mul_le(t@.width, DIM_SUM_MAX as int, initial - remaining, TIME_MAX as int);
                        vstd::arithmetic::div_mod::lemma_div_pos_is_pos(
                            t@.width * (initial - remaining),
                            initial as int,
                        );
                    }
                    let recede = t.width() * (initial - remaining) / initial;
                    cmds.push(DrawCommand::Progress {
                        from: Pos2 { x: rect.min.x, y: rect.min.y + t.height() },
                        to: Pos2 { x: rect.max.x - recede, y: rect.max.y },
                    });
                }
            }
        }
        proof {
            assert(commands_view(cmds@) =~= upto_cross + progress_cmds(t4, rect@));
            assert(commands_view(cmds@) =~= step_commands(
                self@, m@, cursor0, held0, cfg, input@, index as int));
        }

        // Advance the stack cursor past this toast, then its animation.
        t.adjust_next_pos(cursor, anchor, spacing);
        if t.advance_animation(speed, input.dt) {
            update = true;
        }

        (t, update, cmds)
    }
}

} // verus!
