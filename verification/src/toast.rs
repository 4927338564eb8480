//! A single notification entity: its caption, level, timing countdown,
//! animation state machine and geometry helpers.

use vstd::prelude::*;
use vstd::string::{StrSliceExecFns, StringExecFns};

use crate::geometry::{Pos2, PosView, Rect, RectView, Rgba, Vec2i, VecView, DIM_MAX, DIM_SUM_MAX, POS_LIMIT};
use crate::anchor::Anchor;

verus! {

/// The animation value runs from `0` (fully hidden) to `ANIM_UNIT`
/// (fully settled); it stands for the unit interval in thousandths.
pub const ANIM_UNIT: i64 = 1000;

/// Largest duration or frame delta-time accepted, in milliseconds.
pub const TIME_MAX: i64 = 1_000_000_000_000;

/// Largest animation speed accepted, in animation units per millisecond.
pub const SPEED_MAX: i64 = 1_000_000;

/// Width a toast starts with before its first content measurement.
pub const TOAST_WIDTH: i64 = 180;

/// Height a toast starts with before its first content measurement.
pub const TOAST_HEIGHT: i64 = 34;

/// Default time a toast stays up, in milliseconds.
pub const DEFAULT_DURATION_MS: i64 = 3500;

/// Level of importance of a toast; drives which icon glyph is drawn and
/// in which color.
#[derive(Debug, Clone)]
pub enum ToastLevel {
    /// Informational message.
    Info,
    /// Warning message.
    Warning,
    /// Error message.
    Error,
    /// Success message.
    Success,
    /// No level: no icon is drawn.
    NoLevel,
    /// Caller-supplied icon text and color.
    Custom(String, Rgba),
}

/// Mathematical model of a level: the same variants with the icon text
/// as a sequence of characters.
#[verifier::ext_equal]
pub enum LevelView {
    /// Informational message.
    Info,
    /// Warning message.
    Warning,
    /// Error message.
    Error,
    /// Success message.
    Success,
    /// No level: no icon is drawn.
    NoLevel,
    /// Caller-supplied icon text and color.
    Custom(Seq<char>, Rgba),
}

impl View for ToastLevel {
    type V = LevelView;

    open spec fn view(&self) -> LevelView {
        match self {
            ToastLevel::Info => LevelView::Info,
            ToastLevel::Warning => LevelView::Warning,
            ToastLevel::Error => LevelView::Error,
            ToastLevel::Success => LevelView::Success,
            ToastLevel::NoLevel => LevelView::NoLevel,
            ToastLevel::Custom(s, c) => LevelView::Custom(s@, *c),
        }
    }
}

impl LevelView {
    /// Whether a toast of this level draws an icon.
    pub open spec fn has_icon(self) -> bool {
        !(self is NoLevel)
    }
}

impl ToastLevel {
    /// Returns `true` if the level is `Info`.
    pub fn is_info(&self) -> (r: bool)
        ensures
            r == (self@ is Info),
    {
        matches!(self, ToastLevel::Info)
    }

    /// Returns `true` if the level is `Warning`.
    pub fn is_warning(&self) -> (r: bool)
        ensures
            r == (self@ is Warning),
    {
        matches!(self, ToastLevel::Warning)
    }

    /// Returns `true` if the level is `Error`.
    pub fn is_error(&self) -> (r: bool)
        ensures
            r == (self@ is Error),
    {
        matches!(self, ToastLevel::Error)
    }

    /// Whether a toast of this level draws an icon: every level but
    /// `NoLevel` does.
    pub fn has_icon(&self) -> (r: bool)
        ensures
            r == self@.has_icon(),
    {
        !matches!(self, ToastLevel::NoLevel)
    }

    /// The icon text drawn for this level, or `None` when no icon is drawn.
    pub fn icon_glyph(&self) -> (r: Option<String>)
        ensures
            self@ is NoLevel <==> r is None,
            self@ is Info ==> (r matches Some(g) && g@ == "\u{2139}"@),
            self@ is Warning ==> (r matches Some(g) && g@ == "\u{26a0}"@),
            self@ is Error ==> (r matches Some(g) && g@ == "\u{ff01}"@),
            self@ is Success ==> (r matches Some(g) && g@ == "\u{2705}"@),
            self@ matches LevelView::Custom(s, _) ==> (r matches Some(g) && g@ == s),
    {
        match self {
            ToastLevel::Info => Some(String::from_str("\u{2139}")),
            ToastLevel::Warning => Some(String::from_str("\u{26a0}")),
            ToastLevel::Error => Some(String::from_str("\u{ff01}")),
            ToastLevel::Success => Some(String::from_str("\u{2705}")),
            ToastLevel::NoLevel => None,
            ToastLevel::Custom(s, _) => Some(s.clone()),
        }
    }

    /// The color the icon is laid out with, or `None` when no icon is drawn.
    pub fn icon_color(&self) -> (r: Option<Rgba>)
        ensures
            self@ is NoLevel <==> r is None,
            self@ is Info ==> r == Some(Rgba { r: 150u8, g: 200u8, b: 210u8, a: 255u8 }),
            self@ is Warning ==> r == Some(Rgba { r: 230u8, g: 220u8, b: 140u8, a: 255u8 }),
            self@ is Error ==> r == Some(Rgba { r: 200u8, g: 90u8, b: 90u8, a: 255u8 }),
            self@ is Success ==> r == Some(Rgba { r: 140u8, g: 230u8, b: 140u8, a: 255u8 }),
            self@ matches LevelView::Custom(_, c) ==> r == Some(c),
    {
        match self {
            ToastLevel::Info => Some(Rgba { r: 150, g: 200, b: 210, a: 255 }),
            ToastLevel::Warning => Some(Rgba { r: 230, g: 220, b: 140, a: 255 }),
            ToastLevel::Error => Some(Rgba { r: 200, g: 90, b: 90, a: 255 }),
            ToastLevel::Success => Some(Rgba { r: 140, g: 230, b: 140, a: 255 }),
            ToastLevel::NoLevel => None,
            ToastLevel::Custom(_, c) => Some(*c),
        }
    }
}

/// State of the toast's animation state machine. A toast starts in
/// `Appear`, settles into `Idle`, leaves through `Disappear` and is
/// removed from its collection once `Disappeared`.
#[derive(Debug, Clone, Copy, PartialEq, Eq, Structural)]
pub enum ToastState {
    /// Toast is appearing.
    Appear,
    /// Toast is disappearing.
    Disappear,
    /// Toast has disappeared.
    Disappeared,
    /// Toast is idling.
    Idle,
}

impl ToastState {
    /// Returns `true` if the toast is appearing.
    pub fn appearing(&self) -> (r: bool)
        ensures
            r == (self is Appear),
    {
        matches!(self, ToastState::Appear)
    }

    /// Returns `true` if the toast is disappearing.
    pub fn disappearing(&self) -> (r: bool)
        ensures
            r == (self is Disappear),
    {
        matches!(self, ToastState::Disappear)
    }

    /// Returns `true` if the toast has disappeared.
    pub fn disappeared(&self) -> (r: bool)
        ensures
            r == (self is Disappeared),
    {
        matches!(self, ToastState::Disappeared)
    }

    /// Returns `true` if the toast is idling.
    pub fn idling(&self) -> (r: bool)
        ensures
            r == (self is Idle),
    {
        matches!(self, ToastState::Idle)
    }
}

/// Font description a caption may carry; sizes are in the same whole
/// units as the geometry.
#[derive(Debug, Clone, Copy, PartialEq, Eq, Structural)]
pub struct FontId {
    /// Glyph size in whole units.
    pub size: i64,
    /// Which of the host's font families to shape with.
    pub family: FontFamily,
}

/// The host's two standard font families.
#[derive(Debug, Clone, Copy, PartialEq, Eq, Structural)]
pub enum FontFamily {
    /// A proportional typeface.
    Proportional,
    /// A monospace typeface.
    Monospace,
}

/// Container for options for initializing toasts.
pub struct ToastOptions {
    /// Countdown before expiry in milliseconds; `None` never expires.
    pub duration: Option<i64>,
    /// Level of importance.
    pub level: ToastLevel,
    /// Whether a dismiss control is drawn and interactive.
    pub closable: bool,
    /// Whether the remaining-time indicator is drawn.
    pub show_progress_bar: bool,
}

impl ToastOptions {
    /// Whether the options are acceptable: a duration, when present, is
    /// positive and within the supported range.
    pub open spec fn wf(self) -> bool {
        self.duration matches Some(d) ==> 1 <= d <= TIME_MAX
    }
}

impl Default for ToastOptions {
    /// The default options: expiry after the default duration, no level,
    /// closable, with a progress bar.
    fn default() -> (r: Self)
        ensures
            r.duration == Some(DEFAULT_DURATION_MS),
            r.level@ is NoLevel,
            r.closable,
            r.show_progress_bar,
            r.wf(),
    {
        ToastOptions {
            duration: Some(DEFAULT_DURATION_MS),
            level: ToastLevel::NoLevel,
            closable: true,
            show_progress_bar: true,
        }
    }
}

/// Single notification or *toast*.
///
/// The caption is plain text: the host's shaper lays it out with the
/// chosen font, and any richer per-span styling is the host's affair —
/// it never influences the layout logic here, which only consumes the
/// measured boxes.
#[derive(Debug)]
pub struct Toast {
    pub(crate) level: ToastLevel,
    pub(crate) caption: String,
    pub(crate) font: Option<FontId>,
    // (initial, remaining), in milliseconds
    pub(crate) duration: Option<(i64, i64)>,
    pub(crate) height: i64,
    pub(crate) width: i64,
    // explicit minimum box set by the caller; content sizing never
    // shrinks the box below these
    pub(crate) min_height: i64,
    pub(crate) min_width: i64,
    pub(crate) closable: bool,
    pub(crate) show_progress_bar: bool,

    pub(crate) state: ToastState,
    pub(crate) value: i64,
}

/// Mathematical model of a toast, over unbounded integers.
#[verifier::ext_equal]
pub struct ToastView {
    /// Level of importance.
    pub level: LevelView,
    /// Caption text.
    pub caption: Seq<char>,
    /// Font override for the caption, if any.
    pub font: Option<FontId>,
    /// `(initial, remaining)` countdown in milliseconds; `None` never expires.
    pub duration: Option<(int, int)>,
    /// Box height from the last content measurement.
    pub height: int,
    /// Box width from the last content measurement.
    pub width: int,
    /// Caller-set floor under the content-driven height.
    pub min_height: int,
    /// Caller-set floor under the content-driven width.
    pub min_width: int,
    /// Whether a dismiss control is drawn and interactive.
    pub closable: bool,
    /// Whether the remaining-time indicator is drawn.
    pub show_progress_bar: bool,
    /// Animation state machine state.
    pub state: ToastState,
    /// Animation value in `[0, ANIM_UNIT]`.
    pub value: int,
}

impl View for Toast {
    type V = ToastView;

    closed spec fn view(&self) -> ToastView {
        ToastView {
            level: self.level@,
            caption: self.caption@,
            font: self.font,
            duration: match self.duration {
                Some((i, r)) => Some((i as int, r as int)),
                None => None,
            },
            height: self.height as int,
            width: self.width as int,
            min_height: self.min_height as int,
            min_width: self.min_width as int,
            closable: self.closable,
            show_progress_bar: self.show_progress_bar,
            state: self.state,
            value: self.value as int,
        }
    }
}

impl ToastView {
    /// Well-formedness: the animation value sits in the unit interval
    /// and is fully run down once the toast has disappeared, the box and
    /// its floors fit the supported range, and a countdown never exceeds
    /// its positive initial time.
    pub open spec fn wf(self) -> bool {
        &&& 0 <= self.value <= ANIM_UNIT
        &&& (self.state is Disappeared ==> self.value == 0)
        &&& 0 <= self.width <= DIM_SUM_MAX
        &&& 0 <= self.height <= DIM_SUM_MAX
        &&& 0 <= self.min_width <= DIM_SUM_MAX
        &&& 0 <= self.min_height <= DIM_SUM_MAX
        &&& (self.duration matches Some((i, r)) ==> 1 <= i <= TIME_MAX && 0 <= r <= i)
    }

    /// A fresh toast as the factories make it: appearing from zero with
    /// the default box and the given caption and options.
    pub open spec fn fresh(caption: Seq<char>, duration: Option<int>, level: LevelView, closable: bool, show_progress_bar: bool) -> ToastView {
        ToastView {
            level: level,
            caption: caption,
            font: None,
            duration: match duration {
                Some(d) => Some((d, d)),
                None => None,
            },
            height: TOAST_HEIGHT as int,
            width: TOAST_WIDTH as int,
            min_height: 0,
            min_width: 0,
            closable: closable,
            show_progress_bar: show_progress_bar,
            state: ToastState::Appear,
            value: 0,
        }
    }

    /// The toast after the expiry rule: an idling toast whose countdown
    /// has run out starts disappearing; no other state is touched.
    pub open spec fn expired(self) -> ToastView {
        match self.duration {
            Some((_i, r)) => if r <= 0 && self.state is Idle {
                ToastView { state: ToastState::Disappear, ..self }
            } else {
                self
            },
            None => self,
        }
    }

    /// The toast after a dismissal request: any non-terminal state is
    /// forced to `Disappear`; a toast that has already disappeared is
    /// terminal and stays unchanged.
    pub open spec fn dismissed(self) -> ToastView {
        if self.state is Disappeared {
            self
        } else {
            ToastView { state: ToastState::Disappear, ..self }
        }
    }

    /// The toast after one countdown tick of `dt` milliseconds, together
    /// with whether the countdown was running: only an idling toast with
    /// a countdown counts down, and never below zero.
    pub open spec fn ticked(self, dt: int) -> (ToastView, bool) {
        match self.duration {
            Some((i, r)) => if self.state is Idle {
                let rest = if r >= dt { r - dt } else { 0 };
                (ToastView { duration: Some((i, rest)), ..self }, true)
            } else {
                (self, false)
            },
            None => (self, false),
        }
    }

    /// The toast after one animation advance by `speed * dt`, together
    /// with whether an animation was in flight. Appearing raises the value
    /// until it clamps at `ANIM_UNIT` and the toast idles; disappearing
    /// lowers it until it clamps at zero and the toast has disappeared.
    pub open spec fn advanced(self, speed: int, dt: int) -> (ToastView, bool) {
        if self.state is Appear {
            let v = self.value + speed * dt;
            if v >= ANIM_UNIT {
                (ToastView { value: ANIM_UNIT as int, state: ToastState::Idle, ..self }, true)
            } else {
                (ToastView { value: v, ..self }, true)
            }
        } else if self.state is Disappear {
            let v = self.value - speed * dt;
            if v <= 0 {
                (ToastView { value: 0, state: ToastState::Disappeared, ..self }, true)
            } else {
                (ToastView { value: v, ..self }, true)
            }
        } else {
            (self, false)
        }
    }

    /// Width of the measured icon glyph, zero when no icon is drawn.
    pub open spec fn action_width(self, m: MeasureView) -> int {
        if self.level.has_icon() { m.icon_w } else { 0 }
    }

    /// Height of the measured icon glyph, zero when no icon is drawn.
    pub open spec fn action_height(self, m: MeasureView) -> int {
        if self.level.has_icon() { m.icon_h } else { 0 }
    }

    /// Width of the measured dismiss cross, zero when the toast is not
    /// closable.
    pub open spec fn cross_width(self, m: MeasureView) -> int {
        if self.closable { m.cross_w } else { 0 }
    }

    /// Height of the measured dismiss cross, zero when the toast is not
    /// closable.
    pub open spec fn cross_height(self, m: MeasureView) -> int {
        if self.closable { m.cross_h } else { 0 }
    }

    /// Size at which the icon and cross glyphs are shaped: the caption's
    /// height spread over its line count. Space for it is reserved in the
    /// box width whether or not an icon is drawn.
    pub open spec fn icon_glyph_width(self, m: MeasureView) -> int {
        m.caption_h / spec_line_count(self.caption)
    }

    /// The box width the content requires: both horizontal paddings, the
    /// reserved icon slot and the cross slot (each padded on its inner
    /// side when present) around the caption run.
    pub open spec fn content_width(self, m: MeasureView, padding: VecView) -> int {
        let iw = self.icon_glyph_width(m);
        let iwp = if iw == 0 { 0int } else { iw + padding.x };
        let cw = self.cross_width(m);
        let cwp = if cw == 0 { 0int } else { cw + padding.x };
        2 * padding.x + iwp + m.caption_w + cwp
    }

    /// The box height the content requires: both vertical paddings around
    /// the tallest of the icon, caption and cross boxes.
    pub open spec fn content_height(self, m: MeasureView, padding: VecView) -> int {
        let ah = self.action_height(m);
        let ch = self.cross_height(m);
        let tallest = if ah >= m.caption_h && ah >= ch {
            ah
        } else if m.caption_h >= ch {
            m.caption_h
        } else {
            ch
        };
        2 * padding.y + tallest
    }

    /// The toast with its box recomputed from the measured content:
    /// content-driven, but never below an explicit floor the caller set.
    pub open spec fn resized(self, m: MeasureView, padding: VecView) -> ToastView {
        let cw = self.content_width(m, padding);
        let ch = self.content_height(m, padding);
        ToastView {
            width: if cw >= self.min_width { cw } else { self.min_width },
            height: if ch >= self.min_height { ch } else { self.min_height },
            ..self
        }
    }

    /// The toast's bounding rectangle hung from the stack cursor `pos`:
    /// right-anchored variants extend leftward, left-anchored ones
    /// rightward, middle ones are centered; top-anchored variants extend
    /// downward, bottom-anchored ones upward.
    pub open spec fn anchored_rect(self, pos: PosView, anchor: Anchor) -> RectView {
        let w = self.width;
        let h = self.height;
        match anchor {
            Anchor::TopRight => RectView {
                min: PosView { x: pos.x - w, y: pos.y },
                max: PosView { x: pos.x, y: pos.y + h },
            },
            Anchor::TopLeft => RectView {
                min: pos,
                max: PosView { x: pos.x + w, y: pos.y + h },
            },
            Anchor::TopMiddle => RectView {
                min: PosView { x: pos.x - w / 2, y: pos.y },
                max: PosView { x: pos.x - w / 2 + w, y: pos.y + h },
            },
            Anchor::BottomRight => RectView {
                min: PosView { x: pos.x - w, y: pos.y - h },
                max: pos,
            },
            Anchor::BottomLeft => RectView {
                min: PosView { x: pos.x, y: pos.y - h },
                max: PosView { x: pos.x + w, y: pos.y },
            },
            Anchor::BottomMiddle => RectView {
                min: PosView { x: pos.x - w / 2, y: pos.y - h },
                max: PosView { x: pos.x - w / 2 + w, y: pos.y },
            },
        }
    }

    /// The stack cursor moved past this toast: down by `height + spacing`
    /// for top anchors, up by the same amount for bottom anchors.
    pub open spec fn next_pos(self, pos: PosView, anchor: Anchor, spacing: int) -> PosView {
        if anchor.is_top() {
            PosView { x: pos.x, y: pos.y + self.height + spacing }
        } else {
            PosView { x: pos.x, y: pos.y - self.height - spacing }
        }
    }
}

/// The glyph boxes the host's text shaper measured for one toast, in
/// whole units: the caption run, the level icon and the dismiss cross.
/// Boxes of elements a toast does not show are ignored.
#[derive(Debug, Clone, Copy, PartialEq, Eq, Structural)]
pub struct ToastMeasure {
    /// Width of the shaped caption run.
    pub caption_w: i64,
    /// Height of the shaped caption run.
    pub caption_h: i64,
    /// Width of the shaped icon glyph.
    pub icon_w: i64,
    /// Height of the shaped icon glyph.
    pub icon_h: i64,
    /// Width of the shaped dismiss-cross glyph.
    pub cross_w: i64,
    /// Height of the shaped dismiss-cross glyph.
    pub cross_h: i64,
}

/// Mathematical model of a measurement.
#[verifier::ext_equal]
pub struct MeasureView {
    /// Width of the shaped caption run.
    pub caption_w: int,
    /// Height of the shaped caption run.
    pub caption_h: int,
    /// Width of the shaped icon glyph.
    pub icon_w: int,
    /// Height of the shaped icon glyph.
    pub icon_h: int,
    /// Width of the shaped dismiss-cross glyph.
    pub cross_w: int,
    /// Height of the shaped dismiss-cross glyph.
    pub cross_h: int,
}

impl View for ToastMeasure {
    type V = MeasureView;

    open spec fn view(&self) -> MeasureView {
        MeasureView {
            caption_w: self.caption_w as int,
            caption_h: self.caption_h as int,
            icon_w: self.icon_w as int,
            icon_h: self.icon_h as int,
            cross_w: self.cross_w as int,
            cross_h: self.cross_h as int,
        }
    }
}

impl MeasureView {
    /// All measured boxes are non-negative and within the supported range.
    pub open spec fn wf(self) -> bool {
        &&& 0 <= self.caption_w <= DIM_MAX
        &&& 0 <= self.caption_h <= DIM_MAX
        &&& 0 <= self.icon_w <= DIM_MAX
        &&& 0 <= self.icon_h <= DIM_MAX
        &&& 0 <= self.cross_w <= DIM_MAX
        &&& 0 <= self.cross_h <= DIM_MAX
    }
}

/// Number of line breaks in `s`.
pub open spec fn newline_count(s: Seq<char>) -> int
    decreases s.len(),
{
    if s.len() == 0 {
        0
    } else {
        newline_count(s.drop_last()) + if s.last() == '\n' { 1int } else { 0int }
    }
}

/// Number of lines the caption occupies: one more than its line breaks.
pub open spec fn spec_line_count(s: Seq<char>) -> int {
    newline_count(s) + 1
}

/// The number of line breaks in a text is between zero and its length.
pub proof fn newline_count_bounds(s: Seq<char>)
    ensures
        0 <= newline_count(s) <= s.len(),
    decreases s.len(),
{
    if s.len() > 0 {
        newline_count_bounds(s.drop_last());
    }
}

impl Toast {
    /// Creates a new toast from its caption and options.
    fn new(caption: &str, options: ToastOptions) -> (t: Toast)
        requires
            options.wf(),
        ensures
            t@ == ToastView::fresh(
                caption@,
                match options.duration {
                    Some(d) => Some(d as int),
                    None => None,
                },
                options.level@,
                options.closable,
                options.show_progress_bar,
            ),
            t@.wf(),
    {
        Toast {
            caption: String::from_str(caption),
            height: TOAST_HEIGHT,
            width: TOAST_WIDTH,
            min_height: 0,
            min_width: 0,
            duration: match options.duration {
                Some(d) => Some((d, d)),
                None => None,
            },
            closable: options.closable,
            show_progress_bar: options.show_progress_bar,
            level: options.level,
            value: 0,
            state: ToastState::Appear,
            font: None,
        }
    }

    /// Creates new basic toast, can be closed by default.
    pub fn basic(caption: &str) -> (t: Toast)
        ensures
            t@ == ToastView::fresh(caption@, Some(DEFAULT_DURATION_MS as int), LevelView::NoLevel, true, true),
            t@.wf(),
    {
        Toast::new(caption, ToastOptions::default())
    }

    /// Creates new success toast, can be closed by default.
    pub fn success(caption: &str) -> (t: Toast)
        ensures
            t@ == ToastView::fresh(caption@, Some(DEFAULT_DURATION_MS as int), LevelView::Success, true, true),
            t@.wf(),
    {
        let options = ToastOptions { level: ToastLevel::Success, ..ToastOptions::default() };
        Toast::new(caption, options)
    }

    /// Creates new info toast, can be closed by default.
    pub fn info(caption: &str) -> (t: Toast)
        ensures
            t@ == ToastView::fresh(caption@, Some(DEFAULT_DURATION_MS as int), LevelView::Info, true, true),
            t@.wf(),
    {
        let options = ToastOptions { level: ToastLevel::Info, ..ToastOptions::default() };
        Toast::new(caption, options)
    }

    /// Creates new warning toast, can be closed by default.
    pub fn warning(caption: &str) -> (t: Toast)
        ensures
            t@ == ToastView::fresh(caption@, Some(DEFAULT_DURATION_MS as int), LevelView::Warning, true, true),
            t@.wf(),
    {
        let options = ToastOptions { level: ToastLevel::Warning, ..ToastOptions::default() };
        Toast::new(caption, options)
    }

    /// Creates new error toast, can not be closed by default.
    pub fn error(caption: &str) -> (t: Toast)
        ensures
            t@ == ToastView::fresh(caption@, Some(DEFAULT_DURATION_MS as int), LevelView::Error, false, true),
            t@.wf(),
    {
        let options = ToastOptions { closable: false, level: ToastLevel::Error, ..ToastOptions::default() };
        Toast::new(caption, options)
    }

    /// Creates new custom toast, can be closed by default.
    pub fn custom(caption: &str, level: ToastLevel) -> (t: Toast)
        ensures
            t@ == ToastView::fresh(caption@, Some(DEFAULT_DURATION_MS as int), level@, true, true),
            t@.wf(),
    {
        let options = ToastOptions { level, ..ToastOptions::default() };
        Toast::new(caption, options)
    }

    /// Set the options with a [`ToastOptions`].
    pub fn set_options(&mut self, options: ToastOptions)
        requires
            old(self)@.wf(),
            options.wf(),
        ensures
            final(self)@ == (ToastView {
                closable: options.closable,
                duration: match options.duration {
                    Some(d) => Some((d as int, d as int)),
                    None => None,
                },
                level: options.level@,
                ..old(self)@
            }),
            final(self)@.wf(),
    {
        self.set_closable(options.closable);
        self.set_duration(options.duration);
        self.set_level(options.level);
    }

    /// Change the level of the toast.
    pub fn set_level(&mut self, level: ToastLevel)
        ensures
            final(self)@ == (ToastView { level: level@, ..old(self)@ }),
    {
        self.level = level;
    }

    /// Changes the font used to draw the caption; it takes precedence over
    /// the collection's default font.
    pub fn set_font(&mut self, font: FontId)
        ensures
            final(self)@ == (ToastView { font: Some(font), ..old(self)@ }),
    {
        self.font = Some(font);
    }

    /// Can the user close the toast?
    pub fn set_closable(&mut self, closable: bool)
        ensures
            final(self)@ == (ToastView { closable: closable, ..old(self)@ }),
    {
        self.closable = closable;
    }

    /// Should a progress bar be shown?
    pub fn set_show_progress_bar(&mut self, show_progress_bar: bool)
        ensures
            final(self)@ == (ToastView { show_progress_bar: show_progress_bar, ..old(self)@ }),
    {
        self.show_progress_bar = show_progress_bar;
    }

    /// In what time should the toast expire, in milliseconds? Set to
    /// `None` for no expiry. A duration must be positive.
    pub fn set_duration(&mut self, duration: Option<i64>)
        requires
            duration matches Some(d) ==> 1 <= d <= TIME_MAX,
        ensures
            final(self)@ == (ToastView {
                duration: match duration {
                    Some(d) => Some((d as int, d as int)),
                    None => None,
                },
                ..old(self)@
            }),
    {
        match duration {
            Some(d) => {
                self.duration = Some((d, d));
            }
            None => {
                self.duration = None;
            }
        }
    }

    /// Toast's box height; content-driven sizing keeps it as a floor,
    /// growing the box beyond it only to fit the content.
    pub fn set_height(&mut self, height: i64)
        requires
            0 <= height <= DIM_SUM_MAX,
        ensures
            final(self)@ == (ToastView {
                height: height as int,
                min_height: height as int,
                ..old(self)@
            }),
    {
        self.height = height;
        self.min_height = height;
    }

    /// Toast's box width; content-driven sizing keeps it as a floor,
    /// growing the box beyond it only to fit the content.
    pub fn set_width(&mut self, width: i64)
        requires
            0 <= width <= DIM_SUM_MAX,
        ensures
            final(self)@ == (ToastView {
                width: width as int,
                min_width: width as int,
                ..old(self)@
            }),
    {
        self.width = width;
        self.min_width = width;
    }

    /// Can the user close the toast? Consuming form for chaining at
    /// construction time.
    pub fn closable(self, closable: bool) -> (t: Toast)
        ensures
            t@ == (ToastView { closable: closable, ..self@ }),
    {
        let mut t = self;
        t.set_closable(closable);
        t
    }

    /// In what time should the toast expire, in milliseconds? Consuming
    /// form for chaining at construction time.
    pub fn with_duration(self, millis: i64) -> (t: Toast)
        requires
            1 <= millis <= TIME_MAX,
        ensures
            t@ == (ToastView { duration: Some((millis as int, millis as int)), ..self@ }),
    {
        let mut t = self;
        t.set_duration(Some(millis));
        t
    }

    /// Toast won't ever expire on its own.
    pub fn no_expire(self) -> (t: Toast)
        ensures
            t@ == (ToastView { duration: None, ..self@ }),
    {
        let mut t = self;
        t.set_duration(None);
        t
    }

    /// Toast's box height, kept as a floor under content-driven sizing.
    /// Consuming form for chaining.
    pub fn with_height(self, height: i64) -> (t: Toast)
        requires
            0 <= height <= DIM_SUM_MAX,
        ensures
            t@ == (ToastView { height: height as int, min_height: height as int, ..self@ }),
    {
        let mut t = self;
        t.set_height(height);
        t
    }

    /// Toast's box width, kept as a floor under content-driven sizing.
    /// Consuming form for chaining.
    pub fn with_width(self, width: i64) -> (t: Toast)
        requires
            0 <= width <= DIM_SUM_MAX,
        ensures
            t@ == (ToastView { width: width as int, min_width: width as int, ..self@ }),
    {
        let mut t = self;
        t.set_width(width);
        t
    }

    /// Dismiss this toast: any non-terminal state is forced to
    /// `Disappear`, after which the disappear animation still runs before
    /// removal. A toast that has already disappeared is terminal and
    /// stays unchanged.
    pub fn dismiss(&mut self)
        ensures
            final(self)@ == old(self)@.dismissed(),
    {
        if !matches!(self.state, ToastState::Disappeared) {
            self.state = ToastState::Disappear;
        }
    }

    /// The toast's caption text.
    pub fn caption(&self) -> (r: &String)
        ensures
            r@ == self@.caption,
    {
        &self.caption
    }

    /// The toast's level.
    pub fn level(&self) -> (r: &ToastLevel)
        ensures
            r@ == self@.level,
    {
        &self.level
    }

    /// The caption's font override, if one was set.
    pub fn font(&self) -> (r: Option<FontId>)
        ensures
            r == self@.font,
    {
        self.font
    }

    /// Whether a dismiss control is drawn and interactive.
    pub fn is_closable(&self) -> (r: bool)
        ensures
            r == self@.closable,
    {
        self.closable
    }

    /// Whether the remaining-time indicator is drawn.
    pub fn shows_progress_bar(&self) -> (r: bool)
        ensures
            r == self@.show_progress_bar,
    {
        self.show_progress_bar
    }

    /// The `(initial, remaining)` countdown in milliseconds, or `None`
    /// for a toast that never expires.
    pub fn duration(&self) -> (r: Option<(i64, i64)>)
        ensures
            match r {
                Some(p) => self@.duration == Some((p.0 as int, p.1 as int)),
                None => self@.duration is None,
            },
    {
        self.duration
    }

    /// The animation state machine state.
    pub fn state(&self) -> (r: ToastState)
        ensures
            r == self@.state,
    {
        self.state
    }

    /// The animation value, in `[0, ANIM_UNIT]`.
    pub fn animation_value(&self) -> (r: i64)
        ensures
            r == self@.value,
    {
        self.value
    }

    /// The toast's box width from the last measurement.
    pub fn width(&self) -> (r: i64)
        ensures
            r == self@.width,
    {
        self.width
    }

    /// The toast's box height from the last measurement.
    pub fn height(&self) -> (r: i64)
        ensures
            r == self@.height,
    {
        self.height
    }

    /// Number of lines the caption occupies: one more than its line
    /// breaks, saturating at the machine word (a caption of that many
    /// characters cannot exist in memory anyway).
    pub fn line_count(&self) -> (n: usize)
        ensures
            n as int == if spec_line_count(self@.caption) <= usize::MAX {
                spec_line_count(self@.caption)
            } else {
                usize::MAX as int
            },
            1 <= n,
    {
        let s: &str = self.caption.as_str();
        let len: usize = s.unicode_len();
        let mut breaks: usize = 0;
        let mut i: usize = 0;
        proof {
            assert(self@.caption.subrange(0, 0) =~= Seq::<char>::empty());
        }
        while i < len
            invariant
                0 <= i <= len,
                len == s@.len(),
                s@ == self@.caption,
                breaks == newline_count(s@.subrange(0, i as int)),
                breaks <= i,
            decreases len - i,
        {
            let c = s.get_char(i);
            proof {
                let pre = s@.subrange(0, i as int);
                let cur = s@.subrange(0, i + 1int);
                assert(cur.drop_last() =~= pre);
                assert(cur.last() == s@[i as int]);
            }
            if c == '\n' {
                breaks = breaks + 1;
            }
            i = i + 1;
        }
        proof {
            assert(s@.subrange(0, len as int) =~= s@);
            newline_count_bounds(s@);
        }
        if breaks < usize::MAX {
            breaks + 1
        } else {
            usize::MAX
        }
    }

    /// The toast's bounding rectangle hung from the stack cursor `pos`
    /// for the given anchor.
    pub fn calc_anchored_rect(&self, pos: Pos2, anchor: Anchor) -> (rect: Rect)
        requires
            self@.wf(),
            pos@.in_range(POS_LIMIT as int),
        ensures
            rect@ == self@.anchored_rect(pos@, anchor),
    {
        let w = self.width;
        let h = self.height;
        match anchor {
            Anchor::TopRight => Rect {
                min: Pos2 { x: pos.x - w, y: pos.y },
                max: Pos2 { x: pos.x, y: pos.y + h },
            },
            Anchor::TopLeft => Rect {
                min: pos,
                max: Pos2 { x: pos.x + w, y: pos.y + h },
            },
            Anchor::TopMiddle => Rect {
                min: Pos2 { x: pos.x - w / 2, y: pos.y },
                max: Pos2 { x: pos.x - w / 2 + w, y: pos.y + h },
            },
            Anchor::BottomRight => Rect {
                min: Pos2 { x: pos.x - w, y: pos.y - h },
                max: pos,
            },
            Anchor::BottomLeft => Rect {
                min: Pos2 { x: pos.x, y: pos.y - h },
                max: Pos2 { x: pos.x + w, y: pos.y },
            },
            Anchor::BottomMiddle => Rect {
                min: Pos2 { x: pos.x - w / 2, y: pos.y - h },
                max: Pos2 { x: pos.x - w / 2 + w, y: pos.y },
            },
        }
    }

    /// Moves the stack cursor past this toast so the next toast in the
    /// stack does not overlap: by `height + spacing` downward for top
    /// anchors, upward for bottom anchors.
    pub fn adjust_next_pos(&self, pos: &mut Pos2, anchor: Anchor, spacing: i64)
        requires
            self@.wf(),
            0 <= spacing <= DIM_MAX,
            old(pos)@.in_range(POS_LIMIT as int),
        ensures
            final(pos)@ == self@.next_pos(old(pos)@, anchor, spacing as int),
    {
        match anchor {
            Anchor::TopRight | Anchor::TopLeft | Anchor::TopMiddle => {
                pos.y = pos.y + self.height + spacing;
            }
            Anchor::BottomRight | Anchor::BottomLeft | Anchor::BottomMiddle => {
                pos.y = pos.y - self.height - spacing;
            }
        }
    }

    /// Recomputes the toast's box from the measured content: the width
    /// makes room for the paddings, the reserved icon slot, the caption
    /// and the cross slot; the height fits the tallest measured box
    /// between the vertical paddings.
    pub fn recompute_size(&mut self, m: &ToastMeasure, padding: Vec2i)
        requires
            old(self)@.wf(),
            m@.wf(),
            padding@.in_range(DIM_MAX as int),
        ensures
            final(self)@ == old(self)@.resized(m@, padding@),
            final(self)@.wf(),
    {
        let lc: usize = self.line_count();
        let icon_w: i64 = if lc >= 1_000_001 {
            proof {
                vstd::arithmetic::div_mod::lemma_basic_div(m@.caption_h, spec_line_count(self@.caption));
            }
            0
        } else {
            m.caption_h / (lc as i64)
        };
        let icon_w_padded: i64 = if icon_w == 0 { 0 } else { icon_w + padding.x };
        let cross_w: i64 = if self.closable { m.cross_w } else { 0 };
        let cross_w_padded: i64 = if cross_w == 0 { 0 } else { cross_w + padding.x };
        let content_w: i64 = 2 * padding.x + icon_w_padded + m.caption_w + cross_w_padded;
        self.width = if content_w >= self.min_width { content_w } else { self.min_width };

        let action_h: i64 = if self.level.has_icon() { m.icon_h } else { 0 };
        let cross_h: i64 = if self.closable { m.cross_h } else { 0 };
        let tallest: i64;
        if action_h >= m.caption_h && action_h >= cross_h {
            tallest = action_h;
        } else if m.caption_h >= cross_h {
            tallest = m.caption_h;
        } else {
            tallest = cross_h;
        }
        let content_h: i64 = 2 * padding.y + tallest;
        self.height = if content_h >= self.min_height { content_h } else { self.min_height };
    }

    /// Applies the expiry rule: an idling toast whose countdown has run
    /// out starts disappearing.
    pub fn apply_expiry(&mut self)
        ensures
            final(self)@ == old(self)@.expired(),
    {
        if let Some((_initial, remaining)) = self.duration {
            if remaining <= 0 && matches!(self.state, ToastState::Idle) {
                self.state = ToastState::Disappear;
            }
        }
    }

    /// Counts the idle countdown down by `dt` milliseconds, clamping at
    /// zero; returns whether the countdown was running. Only an idling
    /// toast with a countdown counts down.
    pub fn tick_countdown(&mut self, dt: i64) -> (ticked: bool)
        requires
            old(self)@.wf(),
            0 <= dt <= TIME_MAX,
        ensures
            final(self)@ == old(self)@.ticked(dt as int).0,
            ticked == old(self)@.ticked(dt as int).1,
            final(self)@.wf(),
    {
        if matches!(self.state, ToastState::Idle) {
            if let Some((initial, remaining)) = self.duration {
                let rest = if remaining >= dt { remaining - dt } else { 0 };
                self.duration = Some((initial, rest));
                return true;
            }
        }
        false
    }

    /// Advances the animation state machine by `speed * dt`; returns
    /// whether an animation was in flight.
    pub fn advance_animation(&mut self, speed: i64, dt: i64) -> (animating: bool)
        requires
            old(self)@.wf(),
            0 <= speed <= SPEED_MAX,
            0 <= dt <= TIME_MAX,
        ensures
            final(self)@ == old(self)@.advanced(speed as int, dt as int).0,
            animating == old(self)@.advanced(speed as int, dt as int).1,
            final(self)@.wf(),
    {
        proof {
            crate::geometry::lemma_mul_le(speed as int, SPEED_MAX as int, dt as int, TIME_MAX as int);
        }
        match self.state {
            ToastState::Appear => {
                let step = speed * dt;
                if step >= ANIM_UNIT || self.value >= ANIM_UNIT - step {
                    self.value = ANIM_UNIT;
                    self.state = ToastState::Idle;
                } else {
                    self.value = self.value + step;
                }
                true
            }
            ToastState::Disappear => {
                let step = speed * dt;
                if step >= self.value {
                    self.value = 0;
                    self.state = ToastState::Disappeared;
                } else {
                    self.value = self.value - step;
                }
                true
            }
            _ => false,
        }
    }
}

/// Content-driven resizing keeps a toast well-formed: the new box is
/// non-negative and within the supported range.
pub proof fn lemma_resized_wf(t: ToastView, m: MeasureView, padding: VecView)
    requires
        t.wf(),
        m.wf(),
        padding.in_range(DIM_MAX as int),
    ensures
        t.resized(m, padding).wf(),
{
    newline_count_bounds(t.caption);
    vstd::arithmetic::div_mod::lemma_div_pos_is_pos(m.caption_h, spec_line_count(t.caption));
    vstd::arithmetic::div_mod::lemma_div_is_ordered_by_denominator(
        m.caption_h,
        1,
        spec_line_count(t.caption),
    );
    vstd::arithmetic::div_mod::lemma_div_basics(m.caption_h);
}

} // verus!
