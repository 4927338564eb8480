//! A transient-notification ("toast") overlay for an immediate-mode GUI host.
//!
//! The host queues short-lived messages; every frame it hands the collection
//! a snapshot of its input and the measured text boxes, and gets back the
//! draw primitives to paint plus a repaint request while animations run.
//! The whole lifecycle — the per-toast appear/idle/disappear state machine,
//! the stacking layout relative to a screen anchor, countdown-based expiry
//! and dismiss-click debouncing — is carried out here, in plain integer
//! units, with contracts stating exactly what each frame does.
//!
//! Two policy choices are fixed: hovering the pointer over a toast
//! pauses its countdown, and a dismissed toast is not removed at once —
//! it plays its disappear animation and leaves only once that reaches
//! zero.

use vstd::prelude::*;

use crate::frame::{
    commands_view, shadow_view, step_commands, step_toast, CommandView, FrameCfg, InputView,
    ShadowView,
};
use crate::geometry::{PosView, VecView};
use crate::toast::{LevelView, MeasureView, ToastView};

pub mod anchor;
pub mod frame;
pub mod laws;
pub mod geometry;
pub mod toast;

pub use crate::anchor::Anchor;
pub use crate::frame::{DrawCommand, FrameInput, FrameOutput, Shadow};
pub use crate::geometry::{Pos2, Rect, Rgba, Vec2i, CURSOR_LIMIT, DIM_MAX, DIM_SUM_MAX, POS_LIMIT};
pub use crate::toast::{
    FontFamily, FontId, Toast, ToastLevel, ToastMeasure, ToastOptions, ToastState, ANIM_UNIT,
    DEFAULT_DURATION_MS, SPEED_MAX, TIME_MAX, TOAST_HEIGHT, TOAST_WIDTH,
};

verus! {

/// The cubic ease-in curve `1 - (1 - x)^3`, over the unit interval
/// scaled to `[0, ANIM_UNIT]`.
pub open spec fn spec_ease_in_cubic(v: int) -> int {
    ANIM_UNIT - (ANIM_UNIT - v) * (ANIM_UNIT - v) * (ANIM_UNIT - v) / ((ANIM_UNIT * ANIM_UNIT) as int)
}

/// The eased value stays in the unit interval.
pub proof fn lemma_ease_in_cubic_bounds(v: int)
    requires
        0 <= v <= ANIM_UNIT,
    ensures
        0 <= spec_ease_in_cubic(v) <= ANIM_UNIT,
{
    let c = ANIM_UNIT - v;
    crate::geometry::lemma_mul_le(c, ANIM_UNIT as int, c, ANIM_UNIT as int);
    crate::geometry::lemma_mul_le(c * c, (ANIM_UNIT * ANIM_UNIT) as int, c, ANIM_UNIT as int);
    vstd::arithmetic::div_mod::lemma_div_is_ordered(
        c * c * c,
        (ANIM_UNIT * ANIM_UNIT * ANIM_UNIT) as int,
        (ANIM_UNIT * ANIM_UNIT) as int,
    );
    vstd::arithmetic::div_mod::lemma_div_pos_is_pos(c * c * c, (ANIM_UNIT * ANIM_UNIT) as int);
}

/// Timing curve shaping the slide-in animation, on the animation value
/// scaled to `[0, ANIM_UNIT]`.
pub fn ease_in_cubic(v: i64) -> (r: i64)
    requires
        0 <= v <= ANIM_UNIT,
    ensures
        r == spec_ease_in_cubic(v as int),
        0 <= r <= ANIM_UNIT,
{
    proof {
        lemma_ease_in_cubic_bounds(v as int);
        let c = (ANIM_UNIT - v) as int;
        crate::geometry::lemma_mul_le(c, ANIM_UNIT as int, c, ANIM_UNIT as int);
        crate::geometry::lemma_mul_le(c * c, (ANIM_UNIT * ANIM_UNIT) as int, c, ANIM_UNIT as int);
    }
    let c = ANIM_UNIT - v;
    ANIM_UNIT - c * c * c / (ANIM_UNIT * ANIM_UNIT)
}

/// Most toasts a collection may hold while the layout arithmetic stays
/// exact; far beyond anything a screen could show.
pub const LEN_MAX: usize = 1_000_000_000;

/// Default animation speed, in animation units per millisecond: a toast
/// fully appears in a quarter second.
pub const DEFAULT_SPEED: i64 = 4;

/// The views of a sequence of toasts.
pub open spec fn toasts_views(s: Seq<Toast>) -> Seq<ToastView> {
    s.map_values(|t: Toast| t@)
}

/// The views of a sequence of measurements.
pub open spec fn measures_views(s: Seq<ToastMeasure>) -> Seq<MeasureView> {
    s.map_values(|m: ToastMeasure| m@)
}

/// Main notifications collector.
///
/// Create one [`Toasts`] instance, queue toasts on it, and drive it once
/// per frame: hand [`Toasts::show`] the host's input snapshot and the
/// measured glyph boxes of every toast, paint the draw primitives it
/// returns, and schedule a repaint while it asks for one.
pub struct Toasts {
    toasts: Vec<Toast>,
    anchor: Anchor,
    margin: Vec2i,
    spacing: i64,
    padding: Vec2i,
    reverse: bool,
    speed: i64,
    font: Option<FontId>,
    shadow: Option<Shadow>,
    held: bool,
    default_duration: Option<i64>,
}

/// Mathematical model of a collection: the stack of toast views in
/// stacking order plus the shared layout configuration and the
/// dismiss-debounce flag.
#[verifier::ext_equal]
pub struct ToastsView {
    /// The stack, in stacking order.
    pub toasts: Seq<ToastView>,
    /// Which screen corner or edge the stack hangs from.
    pub anchor: Anchor,
    /// Distance from the screen edges to the stack.
    pub margin: VecView,
    /// Space between adjacent toasts.
    pub spacing: int,
    /// Space from a toast's box to its contents.
    pub padding: VecView,
    /// Whether new toasts enter at the head instead of the tail.
    pub reverse: bool,
    /// Animation speed in animation units per millisecond.
    pub speed: int,
    /// Default caption font handed to the host's shaper.
    pub font: Option<FontId>,
    /// Drop-shadow description, if shadows are drawn.
    pub shadow: Option<ShadowView>,
    /// Whether a press already dismissed a toast and was not yet released.
    pub held: bool,
    /// Countdown given to toasts the shortcut factories queue; `None`
    /// queues toasts that never expire.
    pub default_duration: Option<int>,
}

impl View for Toasts {
    type V = ToastsView;

    closed spec fn view(&self) -> ToastsView {
        ToastsView {
            toasts: toasts_views(self.toasts@),
            anchor: self.anchor,
            margin: self.margin@,
            spacing: self.spacing as int,
            padding: self.padding@,
            reverse: self.reverse,
            speed: self.speed as int,
            font: self.font,
            shadow: shadow_view(self.shadow),
            held: self.held,
            default_duration: match self.default_duration {
                Some(d) => Some(d as int),
                None => None,
            },
        }
    }
}

impl ToastsView {
    /// Well-formedness: the configuration is within the supported
    /// ranges, the stack is not absurdly long, and every toast is
    /// well-formed.
    pub open spec fn wf(self) -> bool {
        &&& self.margin.in_range(DIM_MAX as int)
        &&& 0 <= self.spacing <= DIM_MAX
        &&& self.padding.in_range(DIM_MAX as int)
        &&& 0 <= self.speed <= SPEED_MAX
        &&& (self.default_duration matches Some(d) ==> 1 <= d <= TIME_MAX)
        &&& self.toasts.len() <= LEN_MAX
        &&& forall|i: int| 0 <= i < self.toasts.len() ==> (#[trigger] self.toasts[i]).wf()
    }

    /// The layout configuration a frame step reads.
    pub open spec fn cfg(self) -> FrameCfg {
        FrameCfg {
            anchor: self.anchor,
            spacing: self.spacing,
            padding: self.padding,
            speed: self.speed,
            shadow: self.shadow,
        }
    }

    /// Where the stack starts this frame: the anchor's screen corner
    /// pulled in by the margin.
    pub open spec fn start_cursor(self, input: InputView) -> PosView {
        self.anchor.spec_screen_corner(input.screen_max, self.margin)
    }

    /// The dismiss-debounce flag entering this frame: cleared when the
    /// primary button was released since the last frame.
    pub open spec fn held_start(self, input: InputView) -> bool {
        if input.released {
            false
        } else {
            self.held
        }
    }

    /// The stack cursor and debounce flag just before toast `i` is
    /// stepped this frame: the fold of the per-toast step over the first
    /// `i` toasts.
    pub open spec fn frame_state_at(self, ms: Seq<MeasureView>, input: InputView, i: int) -> (PosView, bool)
        decreases i,
    {
        if i <= 0 {
            (self.start_cursor(input), self.held_start(input))
        } else {
            let prev = self.frame_state_at(ms, input, i - 1);
            let s = step_toast(self.toasts[i - 1], ms[i - 1], prev.0, prev.1, self.cfg(), input);
            (s.3, s.1)
        }
    }

    /// The full step result of toast `i` this frame.
    pub open spec fn frame_step_of(self, ms: Seq<MeasureView>, input: InputView, i: int) -> (ToastView, bool, bool, PosView) {
        let prev = self.frame_state_at(ms, input, i);
        step_toast(self.toasts[i], ms[i], prev.0, prev.1, self.cfg(), input)
    }

    /// The toasts surviving among the first `i` after this frame, in
    /// order: every stepped toast that has not reached `Disappeared`.
    pub open spec fn frame_kept(self, ms: Seq<MeasureView>, input: InputView, i: int) -> Seq<ToastView>
        decreases i,
    {
        if i <= 0 {
            Seq::empty()
        } else {
            let pre = self.frame_kept(ms, input, i - 1);
            let t = self.frame_step_of(ms, input, i - 1).0;
            if t.state is Disappeared {
                pre
            } else {
                pre.push(t)
            }
        }
    }

    /// The draw primitives the first `i` toasts emit this frame, in
    /// stacking order.
    pub open spec fn frame_commands(self, ms: Seq<MeasureView>, input: InputView, i: int) -> Seq<CommandView>
        decreases i,
    {
        if i <= 0 {
            Seq::empty()
        } else {
            let prev = self.frame_state_at(ms, input, i - 1);
            self.frame_commands(ms, input, i - 1) + step_commands(
                self.toasts[i - 1], ms[i - 1], prev.0, prev.1, self.cfg(), input, i - 1)
        }
    }

    /// Whether any of the first `i` toasts still needs repaints after
    /// this frame: its countdown ran or an animation was in flight.
    pub open spec fn frame_repaint(self, ms: Seq<MeasureView>, input: InputView, i: int) -> bool
        decreases i,
    {
        if i <= 0 {
            false
        } else {
            self.frame_repaint(ms, input, i - 1) || self.frame_step_of(ms, input, i - 1).2
        }
    }
}

impl Toasts {
    /// Creates new [`Toasts`] instance.
    pub fn new() -> (r: Toasts)
        ensures
            r@ == (ToastsView {
                toasts: Seq::empty(),
                anchor: Anchor::TopRight,
                margin: VecView { x: 8, y: 8 },
                spacing: 8,
                padding: VecView { x: 10, y: 10 },
                reverse: false,
                speed: DEFAULT_SPEED as int,
                font: None,
                shadow: None,
                held: false,
                default_duration: Some(DEFAULT_DURATION_MS as int),
            }),
            r@.wf(),
    {
        let r = Toasts {
            anchor: Anchor::TopRight,
            margin: Vec2i { x: 8, y: 8 },
            toasts: Vec::new(),
            spacing: 8,
            padding: Vec2i { x: 10, y: 10 },
            held: false,
            speed: DEFAULT_SPEED,
            reverse: false,
            font: None,
            shadow: None,
            default_duration: Some(DEFAULT_DURATION_MS),
        };
        proof {
            assert(toasts_views(r.toasts@) =~= Seq::<ToastView>::empty());
        }
        r
    }

    /// Adds new toast to the collection.
    /// By default adds toast at the end of the list, can be changed with `self.reverse`.
    pub fn add(&mut self, toast: Toast) -> (r: &mut Toast)
        requires
            old(self)@.toasts.len() < LEN_MAX,
        ensures
            *r == toast,
            old(self)@.reverse ==> final(self)@ == (ToastsView {
                toasts: seq![(*final(r))@] + old(self)@.toasts,
                ..old(self)@
            }),
            !old(self)@.reverse ==> final(self)@ == (ToastsView {
                toasts: old(self)@.toasts.push((*final(r))@),
                ..old(self)@
            }),
    {
        if self.reverse {
            self.toasts.insert(0, toast);
            &mut self.toasts[0]
        } else {
            self.toasts.push(toast);
            let l = self.toasts.len() - 1;
            &mut self.toasts[l]
        }
    }

    /// Dismisses the oldest toast: the first in stack order, if any.
    /// A toast that has already disappeared is terminal and stays
    /// unchanged.
    pub fn dismiss_oldest_toast(&mut self)
        ensures
            old(self)@.toasts.len() == 0 ==> final(self)@ == old(self)@,
            old(self)@.toasts.len() > 0 ==> final(self)@ == (ToastsView {
                toasts: old(self)@.toasts.update(0, old(self)@.toasts[0].dismissed()),
                ..old(self)@
            }),
    {
        if self.toasts.len() > 0 {
            self.toasts[0].dismiss();
        }
    }

    /// Dismisses the most recent toast: the last in stack order, if any.
    /// A toast that has already disappeared is terminal and stays
    /// unchanged.
    pub fn dismiss_latest_toast(&mut self)
        ensures
            old(self)@.toasts.len() == 0 ==> final(self)@ == old(self)@,
            old(self)@.toasts.len() > 0 ==> final(self)@ == (ToastsView {
                toasts: old(self)@.toasts.update(
                    old(self)@.toasts.len() - 1,
                    old(self)@.toasts[old(self)@.toasts.len() - 1].dismissed(),
                ),
                ..old(self)@
            }),
    {
        let n = self.toasts.len();
        if n > 0 {
            self.toasts[n - 1].dismiss();
        }
    }

    /// Dismisses all toasts: every non-terminal one is forced to
    /// `Disappear` and will animate out.
    pub fn dismiss_all_toasts(&mut self)
        ensures
            final(self)@ == (ToastsView {
                toasts: Seq::new(
                    old(self)@.toasts.len(),
                    |i: int| old(self)@.toasts[i].dismissed(),
                ),
                ..old(self)@
            }),
    {
        let n = self.toasts.len();
        let mut i: usize = 0;
        while i < n
            invariant
                i <= n,
                n == old(self)@.toasts.len(),
                self@.toasts.len() == n,
                forall|j: int| 0 <= j < i ==> self@.toasts[j] == (#[trigger] old(self)@.toasts[j]).dismissed(),
                forall|j: int| i <= j < n ==> self@.toasts[j] == old(self)@.toasts[j],
                self@ == (ToastsView { toasts: self@.toasts, ..old(self)@ }),
            decreases n - i,
        {
            let ghost prevvec = self.toasts@;
            let ghost prev = self@.toasts;
            self.toasts[i].dismiss();
            proof {
                assert forall|j: int| 0 <= j < i + 1 implies self@.toasts[j]
                    == (#[trigger] old(self)@.toasts[j]).dismissed() by {
                    if j < i {
                        assert(self.toasts@[j] == prevvec[j]);
                        assert(prev[j] == old(self)@.toasts[j].dismissed());
                    } else {
                        assert(self@.toasts[j] == prev[j].dismissed());
                        assert(prev[j] == old(self)@.toasts[j]);
                    }
                }
                assert forall|j: int| i + 1 <= j < n implies self@.toasts[j] == old(self)@.toasts[j] by {
                    assert(self.toasts@[j] == prevvec[j]);
                }
            }
            i = i + 1;
        }
        proof {
            assert(self@.toasts =~= Seq::new(
                old(self)@.toasts.len(),
                |i: int| old(self)@.toasts[i].dismissed(),
            ));
        }
    }

    /// Returns the number of toast items.
    pub fn len(&self) -> (n: usize)
        ensures
            n == self@.toasts.len(),
    {
        self.toasts.len()
    }

    /// Returns `true` if there are no toast items.
    pub fn is_empty(&self) -> (r: bool)
        ensures
            r == (self@.toasts.len() == 0),
    {
        self.toasts.is_empty()
    }

    /// The toast at position `i` in stack order.
    pub fn toast_at(&self, i: usize) -> (r: &Toast)
        requires
            i < self@.toasts.len(),
        ensures
            r@ == self@.toasts[i as int],
    {
        &self.toasts[i]
    }

    /// Whether a press already dismissed a toast and was not yet released.
    pub fn is_held(&self) -> (r: bool)
        ensures
            r == self@.held,
    {
        self.held
    }

    /// The default caption font, if one was configured.
    pub fn default_font(&self) -> (r: Option<FontId>)
        ensures
            r == self@.font,
    {
        self.font
    }

    /// Shortcut for adding a toast with `success` level.
    pub fn success(&mut self, caption: &str) -> (r: &mut Toast)
        requires
            old(self)@.toasts.len() < LEN_MAX,
            old(self)@.default_duration matches Some(d) ==> 1 <= d <= TIME_MAX,
        ensures
            (*r)@ == ToastView::fresh(caption@, old(self)@.default_duration, LevelView::Success, true, true),
            old(self)@.reverse ==> final(self)@ == (ToastsView {
                toasts: seq![(*final(r))@] + old(self)@.toasts,
                ..old(self)@
            }),
            !old(self)@.reverse ==> final(self)@ == (ToastsView {
                toasts: old(self)@.toasts.push((*final(r))@),
                ..old(self)@
            }),
    {
        let mut t = Toast::success(caption);
        t.set_duration(self.default_duration);
        self.add(t)
    }

    /// Shortcut for adding a toast with `info` level.
    pub fn info(&mut self, caption: &str) -> (r: &mut Toast)
        requires
            old(self)@.toasts.len() < LEN_MAX,
            old(self)@.default_duration matches Some(d) ==> 1 <= d <= TIME_MAX,
        ensures
            (*r)@ == ToastView::fresh(caption@, old(self)@.default_duration, LevelView::Info, true, true),
            old(self)@.reverse ==> final(self)@ == (ToastsView {
                toasts: seq![(*final(r))@] + old(self)@.toasts,
                ..old(self)@
            }),
            !old(self)@.reverse ==> final(self)@ == (ToastsView {
                toasts: old(self)@.toasts.push((*final(r))@),
                ..old(self)@
            }),
    {
        let mut t = Toast::info(caption);
        t.set_duration(self.default_duration);
        self.add(t)
    }

    /// Shortcut for adding a toast with `warning` level.
    pub fn warning(&mut self, caption: &str) -> (r: &mut Toast)
        requires
            old(self)@.toasts.len() < LEN_MAX,
            old(self)@.default_duration matches Some(d) ==> 1 <= d <= TIME_MAX,
        ensures
            (*r)@ == ToastView::fresh(caption@, old(self)@.default_duration, LevelView::Warning, true, true),
            old(self)@.reverse ==> final(self)@ == (ToastsView {
                toasts: seq![(*final(r))@] + old(self)@.toasts,
                ..old(self)@
            }),
            !old(self)@.reverse ==> final(self)@ == (ToastsView {
                toasts: old(self)@.toasts.push((*final(r))@),
                ..old(self)@
            }),
    {
        let mut t = Toast::warning(caption);
        t.set_duration(self.default_duration);
        self.add(t)
    }

    /// Shortcut for adding a toast with `error` level; not closable by
    /// default.
    pub fn error(&mut self, caption: &str) -> (r: &mut Toast)
        requires
            old(self)@.toasts.len() < LEN_MAX,
            old(self)@.default_duration matches Some(d) ==> 1 <= d <= TIME_MAX,
        ensures
            (*r)@ == ToastView::fresh(caption@, old(self)@.default_duration, LevelView::Error, false, true),
            old(self)@.reverse ==> final(self)@ == (ToastsView {
                toasts: seq![(*final(r))@] + old(self)@.toasts,
                ..old(self)@
            }),
            !old(self)@.reverse ==> final(self)@ == (ToastsView {
                toasts: old(self)@.toasts.push((*final(r))@),
                ..old(self)@
            }),
    {
        let mut t = Toast::error(caption);
        t.set_duration(self.default_duration);
        self.add(t)
    }

    /// Shortcut for adding a toast with no level.
    pub fn basic(&mut self, caption: &str) -> (r: &mut Toast)
        requires
            old(self)@.toasts.len() < LEN_MAX,
            old(self)@.default_duration matches Some(d) ==> 1 <= d <= TIME_MAX,
        ensures
            (*r)@ == ToastView::fresh(caption@, old(self)@.default_duration, LevelView::NoLevel, true, true),
            old(self)@.reverse ==> final(self)@ == (ToastsView {
                toasts: seq![(*final(r))@] + old(self)@.toasts,
                ..old(self)@
            }),
            !old(self)@.reverse ==> final(self)@ == (ToastsView {
                toasts: old(self)@.toasts.push((*final(r))@),
                ..old(self)@
            }),
    {
        let mut t = Toast::basic(caption);
        t.set_duration(self.default_duration);
        self.add(t)
    }

    /// Shortcut for adding a toast with a custom level: its own icon
    /// text and color.
    pub fn custom(&mut self, caption: &str, level_string: String, level_color: Rgba) -> (r: &mut Toast)
        requires
            old(self)@.toasts.len() < LEN_MAX,
            old(self)@.default_duration matches Some(d) ==> 1 <= d <= TIME_MAX,
        ensures
            (*r)@ == ToastView::fresh(
                caption@,
                old(self)@.default_duration,
                LevelView::Custom(level_string@, level_color),
                true,
                true,
            ),
            old(self)@.reverse ==> final(self)@ == (ToastsView {
                toasts: seq![(*final(r))@] + old(self)@.toasts,
                ..old(self)@
            }),
            !old(self)@.reverse ==> final(self)@ == (ToastsView {
                toasts: old(self)@.toasts.push((*final(r))@),
                ..old(self)@
            }),
    {
        let mut t = Toast::custom(caption, ToastLevel::Custom(level_string, level_color));
        t.set_duration(self.default_duration);
        self.add(t)
    }

    /// Should toasts be added in reverse order?
    pub fn reverse(self, reverse: bool) -> (r: Self)
        ensures
            r@ == (ToastsView { reverse: reverse, ..self@ }),
    {
        let mut r = self;
        r.reverse = reverse;
        r
    }

    /// Where toasts should appear.
    pub fn with_anchor(self, anchor: Anchor) -> (r: Self)
        ensures
            r@ == (ToastsView { anchor: anchor, ..self@ }),
    {
        let mut r = self;
        r.anchor = anchor;
        r
    }

    /// Sets spacing between adjacent toasts.
    pub fn with_spacing(self, spacing: i64) -> (r: Self)
        requires
            0 <= spacing <= DIM_MAX,
        ensures
            r@ == (ToastsView { spacing: spacing as int, ..self@ }),
    {
        let mut r = self;
        r.spacing = spacing;
        r
    }

    /// Margin or distance from screen to toasts' bounding boxes.
    pub fn with_margin(self, margin: Vec2i) -> (r: Self)
        requires
            margin@.in_range(DIM_MAX as int),
        ensures
            r@ == (ToastsView { margin: margin@, ..self@ }),
    {
        let mut r = self;
        r.margin = margin;
        r
    }

    /// Enables the use of a shadow for toasts.
    pub fn with_shadow(self, shadow: Shadow) -> (r: Self)
        ensures
            r@ == (ToastsView { shadow: Some(shadow@), ..self@ }),
    {
        let mut r = self;
        r.shadow = Some(shadow);
        r
    }

    /// Padding or distance from toasts' bounding boxes to inner contents.
    pub fn with_padding(self, padding: Vec2i) -> (r: Self)
        requires
            padding@.in_range(DIM_MAX as int),
        ensures
            r@ == (ToastsView { padding: padding@, ..self@ }),
    {
        let mut r = self;
        r.padding = padding;
        r
    }

    /// Changes the default font used for all toasts.
    pub fn with_default_font(self, font: FontId) -> (r: Self)
        ensures
            r@ == (ToastsView { font: Some(font), ..self@ }),
    {
        let mut r = self;
        r.font = Some(font);
        r
    }

    /// Sets the animation speed, in animation units per millisecond.
    pub fn with_speed(self, speed: i64) -> (r: Self)
        requires
            0 <= speed <= SPEED_MAX,
        ensures
            r@ == (ToastsView { speed: speed as int, ..self@ }),
    {
        let mut r = self;
        r.speed = speed;
        r
    }

    /// Sets the countdown given to toasts queued through the shortcut
    /// factories, in milliseconds; `None` makes them never expire.
    pub fn with_default_duration(self, duration: Option<i64>) -> (r: Self)
        requires
            duration matches Some(d) ==> 1 <= d <= TIME_MAX,
        ensures
            r@ == (ToastsView {
                default_duration: match duration {
                    Some(d) => Some(d as int),
                    None => None,
                },
                ..self@
            }),
    {
        let mut r = self;
        r.default_duration = duration;
        r
    }

    /// Displays the toast queue: one full frame of the overlay.
    ///
    /// `input` is the host's input snapshot and `measures` the glyph
    /// boxes its shaper measured for each toast, in stack order. Every
    /// toast is stepped in stack order — expiry, hover-gated countdown,
    /// content resize, dismiss-click debounced through the shared `held`
    /// flag, stack-cursor advance and animation advance — toasts that
    /// reached `Disappeared` are dropped, and the surviving toasts keep
    /// their relative order. Returns the draw primitives for the frame
    /// and whether a repaint should be scheduled.
    #[verifier::rlimit(100)]
    pub fn show(&mut self, input: &FrameInput, measures: &Vec<ToastMeasure>) -> (out: FrameOutput)
        requires
            old(self)@.wf(),
            input@.wf(),
            measures@.len() == old(self)@.toasts.len(),
            forall|i: int| 0 <= i < measures@.len() ==> (#[trigger] measures@[i])@.wf(),
        ensures
            ({
                let mv = measures_views(measures@);
                let n = old(self)@.toasts.len() as int;
                &&& final(self)@ == (ToastsView {
                    toasts: old(self)@.frame_kept(mv, input@, n),
                    held: old(self)@.frame_state_at(mv, input@, n).1,
                    ..old(self)@
                })
                &&& commands_view(out.commands@) == old(self)@.frame_commands(mv, input@, n)
                &&& out.repaint == old(self)@.frame_repaint(mv, input@, n)
                &&& final(self)@.wf()
            }),
    {
        let ghost sv = self@;
        let ghost mv = measures_views(measures@);
        let ghost iv = input@;

        let anchor = self.anchor;
        let spacing = self.spacing;
        let padding = self.padding;
        let shadow = self.shadow;
        let speed = self.speed;
        let margin = self.margin;

        let mut cursor = anchor.screen_corner(input.screen_max, margin);

        // `held` is cleared on release only, so a held-down press cannot
        // dismiss several toasts in successive frames.
        if input.released {
            self.held = false;
        }
        let mut held = self.held;

        let mut work: Vec<Toast> = Vec::new();
        core::mem::swap(&mut work, &mut self.toasts);
        let n = work.len();
        let mut commands: Vec<DrawCommand> = Vec::new();
        let mut update = false;
        let mut i: usize = 0;

        proof {
            assert(toasts_views(work@) =~= sv.toasts.subrange(0, n as int));
            assert(toasts_views(self.toasts@) =~= Seq::<ToastView>::empty());
            assert(commands_view(commands@) =~= Seq::<CommandView>::empty());
        }

        while i < n
            invariant
                i <= n,
                n == sv.toasts.len(),
                n <= LEN_MAX,
                sv.wf(),
                iv.wf(),
                sv.cfg() == (FrameCfg {
                    anchor,
                    spacing: spacing as int,
                    padding: padding@,
                    speed: speed as int,
                    shadow: crate::frame::shadow_view(shadow),
                }),
                0 <= spacing <= DIM_MAX,
                padding@.in_range(DIM_MAX as int),
                0 <= speed <= SPEED_MAX,
                measures@.len() == n,
                forall|j: int| 0 <= j < n ==> (#[trigger] measures@[j])@.wf(),
                mv == measures_views(measures@),
                iv == input@,
                toasts_views(work@) == sv.toasts.subrange(i as int, n as int),
                toasts_views(self.toasts@) == sv.frame_kept(mv, iv, i as int),
                self@ == (ToastsView {
                    toasts: sv.frame_kept(mv, iv, i as int),
                    held: sv.held_start(iv),
                    ..sv
                }),
                self@.toasts.len() <= i,
                forall|j: int| 0 <= j < self@.toasts.len() ==> (#[trigger] self@.toasts[j]).wf(),
                cursor@ == sv.frame_state_at(mv, iv, i as int).0,
                held == sv.frame_state_at(mv, iv, i as int).1,
                commands_view(commands@) == sv.frame_commands(mv, iv, i as int),
                update == sv.frame_repaint(mv, iv, i as int),
                -2 * (DIM_MAX as int) <= cursor@.x <= 2 * (DIM_MAX as int),
                -(2 * (DIM_MAX as int) + i * ((DIM_SUM_MAX + DIM_MAX) as int)) <= cursor@.y
                    <= 2 * (DIM_MAX as int) + i * ((DIM_SUM_MAX + DIM_MAX) as int),
            decreases n - i,
        {
            proof {
                assert(toasts_views(work@).len() == work@.len());
                assert(work@.len() == n - i);
                assert(toasts_views(work@)[0] == work@[0]@);
                assert(work@[0]@ == sv.toasts[i as int]);
                assert(work@[0]@.wf());
                assert(measures@[i as int]@ == mv[i as int]);
                crate::geometry::lemma_mul_le(
                    i as int,
                    LEN_MAX as int,
                    (DIM_SUM_MAX + DIM_MAX) as int,
                    (DIM_SUM_MAX + DIM_MAX) as int,
                );
            }
            let ghost prev_kept = toasts_views(self.toasts@);
            let ghost prevwork = work@;
            let t = work.remove(0);
            let m = measures[i];
            let ghost cursor_before = cursor@;

            let (t2, upd, mut cmds) = t.frame_step(
                i, &m, &mut cursor, &mut held, anchor, spacing, padding, shadow, speed, input,
            );

            let ghost cmds_before = commands_view(commands@);
            let ghost step_cmds = commands_view(cmds@);
            commands.append(&mut cmds);
            if upd {
                update = true;
            }
            let keep = !t2.state().disappeared();
            if keep {
                self.toasts.push(t2);
            }
            proof {
                assert(toasts_views(work@) =~= sv.toasts.subrange(i + 1, n as int)) by {
                    assert(work@ =~= prevwork.subrange(1, prevwork.len() as int));
                    assert forall|j: int| 0 <= j < work@.len() implies toasts_views(work@)[j]
                        == sv.toasts.subrange(i + 1, n as int)[j] by {
                        assert(work@[j] == prevwork[j + 1]);
                        assert(toasts_views(prevwork)[j + 1] == prevwork[j + 1]@);
                    }
                }
                assert(sv.frame_state_at(mv, iv, i + 1) == (cursor@, held));
                assert(sv.frame_step_of(mv, iv, i as int).0 == t2@);
                if keep {
                    assert(toasts_views(self.toasts@) =~= prev_kept.push(t2@));
                }
                assert(toasts_views(self.toasts@) =~= sv.frame_kept(mv, iv, i + 1));
                assert(commands_view(commands@) =~= cmds_before + step_cmds);
                assert(commands_view(commands@) =~= sv.frame_commands(mv, iv, i + 1));
                assert(update == sv.frame_repaint(mv, iv, i + 1));
                assert(cursor_before.y - ((DIM_SUM_MAX + DIM_MAX) as int) <= cursor@.y
                    <= cursor_before.y + ((DIM_SUM_MAX + DIM_MAX) as int));
                assert((i + 1) * ((DIM_SUM_MAX + DIM_MAX) as int)
                    == i * ((DIM_SUM_MAX + DIM_MAX) as int) + ((DIM_SUM_MAX + DIM_MAX) as int))
                    by (nonlinear_arith);
                assert(-(2 * (DIM_MAX as int) + (i + 1) * ((DIM_SUM_MAX + DIM_MAX) as int))
                    <= cursor@.y
                    <= 2 * (DIM_MAX as int) + (i + 1) * ((DIM_SUM_MAX + DIM_MAX) as int));
            }
            i = i + 1;
        }

        self.held = held;
        proof {
            assert(sv.toasts.subrange(n as int, n as int) =~= Seq::<ToastView>::empty());
        }
        FrameOutput { commands, repaint: update }
    }
}

impl Default for Toasts {
    /// A collection with the default configuration and no toasts.
    fn default() -> (r: Self)
        ensures
            r@ == (ToastsView {
                toasts: Seq::empty(),
                anchor: Anchor::TopRight,
                margin: VecView { x: 8, y: 8 },
                spacing: 8,
                padding: VecView { x: 10, y: 10 },
                reverse: false,
                speed: DEFAULT_SPEED as int,
                font: None,
                shadow: None,
                held: false,
                default_duration: Some(DEFAULT_DURATION_MS as int),
            }),
            r@.wf(),
    {
        Toasts::new()
    }
}

} // verus!
