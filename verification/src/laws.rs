//! The laws the overlay obeys, stated and proved over the frame step.
//!
//! Each law here relates several operations or frames; laws about a
//! single call are part of that function's own contract.

use vstd::prelude::*;

use crate::anchor::Anchor;
use crate::frame::{step_toast, FrameCfg, InputView};
use crate::geometry::PosView;
use crate::toast::{MeasureView, ToastState, ToastView, ANIM_UNIT};

verus! {

/// How far along its lifecycle a state is: the lifecycle only ever
/// moves forward through `Appear`, `Idle`, `Disappear`, `Disappeared`.
pub open spec fn lifecycle_rank(s: ToastState) -> int {
    match s {
        ToastState::Appear => 0,
        ToastState::Idle => 1,
        ToastState::Disappear => 2,
        ToastState::Disappeared => 3,
    }
}

/// One atomic lifecycle transition: a state either stays, finishes
/// appearing into `Idle`, leaves any live state for `Disappear` (expiry
/// or dismissal), or completes `Disappear` into `Disappeared`. No
/// transition skips `Disappear`, and `Disappeared` is terminal.
pub open spec fn lifecycle_step_ok(pre: ToastState, post: ToastState) -> bool {
    ||| pre == post
    ||| (pre is Appear && post is Idle)
    ||| (pre is Appear && post is Disappear)
    ||| (pre is Idle && post is Disappear)
    ||| (pre is Disappear && post is Disappeared)
}

/// Law: within one frame, a toast's state machine takes only forward
/// transitions — the expiry rule and a dismiss-click may move a live
/// toast to `Disappear`, the animation advance may move `Appear` to
/// `Idle` or `Disappear` to `Disappeared`, and nothing ever moves
/// backward. `Disappeared` is terminal; `Idle` is entered only by
/// finishing `Appear`.
pub proof fn lemma_state_machine_step(
    t: ToastView,
    m: MeasureView,
    cursor: PosView,
    held: bool,
    cfg: FrameCfg,
    input: InputView,
)
    ensures
        ({
            let t2 = step_toast(t, m, cursor, held, cfg, input).0;
            &&& lifecycle_rank(t.state) <= lifecycle_rank(t2.state)
            &&& t2.state is Idle && !(t.state is Idle) ==> t.state is Appear
            &&& t2.state is Appear ==> t.state is Appear
            &&& t.state is Disappeared ==> t2.state is Disappeared
        }),
{
}

/// Law: `Disappeared` is terminal — whatever the frame brings, neither
/// expiry, countdown, dismissal nor animation touches a disappeared
/// toast; only its box still follows the content measurement, and the
/// frame pass then drops it from the collection.
pub proof fn lemma_terminal_is_terminal(
    t: ToastView,
    m: MeasureView,
    cursor: PosView,
    held: bool,
    cfg: FrameCfg,
    input: InputView,
)
    requires
        t.state is Disappeared,
    ensures
        ({
            let t2 = step_toast(t, m, cursor, held, cfg, input).0;
            t2 == (ToastView { width: t2.width, height: t2.height, ..t })
        }),
        step_toast(t, m, cursor, held, cfg, input).0.state is Disappeared,
{
}

/// Law: the expiry rule takes one atomic forward transition at most —
/// an idling toast whose countdown ran out moves to `Disappear`, all
/// others stay put.
pub proof fn lemma_expiry_lifecycle(t: ToastView)
    ensures
        lifecycle_step_ok(t.state, t.expired().state),
        !(t.state is Idle) ==> t.expired() == t,
{
}

/// Law: a dismissal request takes one atomic forward transition at
/// most — any live state moves to `Disappear`; a terminal toast stays
/// unchanged.
pub proof fn lemma_dismiss_lifecycle(t: ToastView)
    ensures
        lifecycle_step_ok(t.state, t.dismissed().state),
        t.state is Disappeared ==> t.dismissed() == t,
{
}

/// Law: the countdown tick never changes the state.
pub proof fn lemma_tick_keeps_state(t: ToastView, dt: int)
    ensures
        t.ticked(dt).0.state == t.state,
{
}

/// Law: the animation advance takes one atomic forward transition at
/// most; in particular `Disappeared` is reached only by completing
/// `Disappear`, and `Idle` is entered only by finishing `Appear`.
pub proof fn lemma_advance_lifecycle(t: ToastView, speed: int, dt: int)
    ensures
        lifecycle_step_ok(t.state, t.advanced(speed, dt).0.state),
        ({
            let post = t.advanced(speed, dt).0.state;
            &&& post is Disappeared && !(t.state is Disappeared) ==> t.state is Disappear
            &&& post is Idle && !(t.state is Idle) ==> t.state is Appear
        }),
{
}

/// Law: the animation value stays within `[0, ANIM_UNIT]` across a
/// frame; with positive speed and delta-time it strictly rises while
/// the toast appears (until it clamps at `ANIM_UNIT`) and strictly
/// falls while it disappears (until it clamps at zero).
pub proof fn lemma_animation_bounds(t: ToastView, speed: int, dt: int)
    requires
        t.wf(),
        0 <= speed,
        0 <= dt,
    ensures
        ({
            let t2 = t.advanced(speed, dt).0;
            &&& 0 <= t2.value <= ANIM_UNIT
            &&& t.state is Appear && speed > 0 && dt > 0 && t.value < ANIM_UNIT ==> t2.value > t.value
            &&& t.state is Disappear && speed > 0 && dt > 0 && t.value > 0 ==> t2.value < t.value
        }),
{
    if speed > 0 && dt > 0 {
        crate::geometry::lemma_mul_le(1, speed, 1, dt);
    }
}

/// Law: a toast without a countdown never starts disappearing on its
/// own — however much time passes, only an explicit dismissal (here, a
/// dismiss-click) can move it to `Disappear` — and it never acquires a
/// countdown.
pub proof fn lemma_no_expiry(
    t: ToastView,
    m: MeasureView,
    cursor: PosView,
    held: bool,
    cfg: FrameCfg,
    input: InputView,
)
    requires
        t.duration is None,
    ensures
        ({
            let t2 = step_toast(t, m, cursor, held, cfg, input).0;
            &&& t2.duration is None
            &&& input.press is None ==> (t2.state is Disappear ==> t.state is Disappear)
            &&& input.press is None ==> (t2.state is Disappeared <==> t.state is Disappeared
                || (t.state is Disappear && t.value <= cfg.speed * input.dt))
        }),
{
}

/// An input snapshot with no pointer activity: nothing hovers, nothing
/// is pressed, and `dt` milliseconds pass.
pub open spec fn quiet_input(dt: int) -> InputView {
    InputView {
        screen_max: PosView { x: 0, y: 0 },
        hover: None,
        press: None,
        released: false,
        dt: dt,
    }
}

/// The toast after being stepped through one frame per entry of `dts`,
/// with no pointer activity and the same measures every frame.
pub open spec fn run_quiet_frames(
    t: ToastView,
    m: MeasureView,
    cursor: PosView,
    cfg: FrameCfg,
    dts: Seq<int>,
) -> ToastView
    decreases dts.len(),
{
    if dts.len() == 0 {
        t
    } else {
        let t2 = step_toast(t, m, cursor, false, cfg, quiet_input(dts[0])).0;
        run_quiet_frames(t2, m, cursor, cfg, dts.subrange(1, dts.len() as int))
    }
}

/// Total time of a sequence of frame delta-times.
pub open spec fn time_sum(dts: Seq<int>) -> int
    decreases dts.len(),
{
    if dts.len() == 0 {
        0
    } else {
        dts[0] + time_sum(dts.subrange(1, dts.len() as int))
    }
}

proof fn lemma_time_sum_nonneg(dts: Seq<int>)
    requires
        forall|k: int| 0 <= k < dts.len() ==> dts[k] >= 0,
    ensures
        time_sum(dts) >= 0,
    decreases dts.len(),
{
    if dts.len() > 0 {
        lemma_time_sum_nonneg(dts.subrange(1, dts.len() as int));
    }
}

/// A toast that started disappearing never comes back: through any
/// quiet frames it stays in `Disappear` or `Disappeared`.
pub proof fn lemma_disappearing_stays_gone(
    t: ToastView,
    m: MeasureView,
    cursor: PosView,
    cfg: FrameCfg,
    dts: Seq<int>,
)
    requires
        t.state is Disappear || t.state is Disappeared,
    ensures
        ({
            let t2 = run_quiet_frames(t, m, cursor, cfg, dts);
            t2.state is Disappear || t2.state is Disappeared
        }),
    decreases dts.len(),
{
    if dts.len() > 0 {
        let t2 = step_toast(t, m, cursor, false, cfg, quiet_input(dts[0])).0;
        lemma_disappearing_stays_gone(t2, m, cursor, cfg, dts.subrange(1, dts.len() as int));
    }
}

/// One frame step keeps a toast well-formed.
pub proof fn lemma_step_preserves_wf(
    t: ToastView,
    m: MeasureView,
    cursor: PosView,
    held: bool,
    cfg: FrameCfg,
    input: InputView,
)
    requires
        t.wf(),
        m.wf(),
        0 <= cfg.speed,
        cfg.padding.in_range(crate::geometry::DIM_MAX as int),
        0 <= input.dt,
    ensures
        step_toast(t, m, cursor, held, cfg, input).0.wf(),
{
    let t1 = t.expired();
    let rect = crate::frame::frame_rect(t1, cursor, cfg.anchor);
    let hov = crate::frame::is_hovered(rect, input.hover);
    let t2 = if !hov { t1.ticked(input.dt).0 } else { t1 };
    crate::toast::lemma_resized_wf(t2, m, cfg.padding);
    vstd::arithmetic::mul::lemma_mul_nonnegative(cfg.speed, input.dt);
}

/// Law (expiry): an idling toast whose frames, none hovered, add up to
/// at least its remaining time ends up disappearing — or sits at a
/// spent countdown that the very next frame turns into `Disappear`.
pub proof fn lemma_expiry_countdown(
    t: ToastView,
    m: MeasureView,
    cursor: PosView,
    cfg: FrameCfg,
    dts: Seq<int>,
)
    requires
        t.wf(),
        m.wf(),
        0 <= cfg.speed,
        cfg.padding.in_range(crate::geometry::DIM_MAX as int),
        t.state is Idle,
        forall|k: int| 0 <= k < dts.len() ==> dts[k] >= 0,
        ({
            &&& t.duration matches Some((i0, r0))
            &&& time_sum(dts) >= r0
        }),
    ensures
        ({
            let t2 = run_quiet_frames(t, m, cursor, cfg, dts);
            ||| t2.state is Disappear
            ||| t2.state is Disappeared
            ||| (t2.state is Idle && (t2.duration matches Some((_i1, r1)) && r1 == 0))
        }),
    decreases dts.len(),
{
    if dts.len() > 0 {
        let rest = dts.subrange(1, dts.len() as int);
        let t2 = step_toast(t, m, cursor, false, cfg, quiet_input(dts[0])).0;
        if t.duration matches Some((i0, r0)) && r0 <= 0 {
            lemma_disappearing_stays_gone(t2, m, cursor, cfg, rest);
        } else {
            lemma_time_sum_nonneg(rest);
            lemma_step_preserves_wf(t, m, cursor, false, cfg, quiet_input(dts[0]));
            lemma_expiry_countdown(t2, m, cursor, cfg, rest);
        }
    }
}

/// Law (expiry, final step): an idling toast whose countdown is spent
/// starts disappearing on the very next frame, whatever the input.
pub proof fn lemma_spent_idle_starts_disappearing(
    t: ToastView,
    m: MeasureView,
    cursor: PosView,
    held: bool,
    cfg: FrameCfg,
    input: InputView,
)
    requires
        t.state is Idle,
        ({
            &&& t.duration matches Some((i0, r0))
            &&& r0 <= 0
        }),
    ensures
        ({
            let t2 = step_toast(t, m, cursor, held, cfg, input).0;
            t2.state is Disappear || t2.state is Disappeared
        }),
{
}

/// Law (expiry, completion): a disappearing toast whose remaining
/// animation is no more than this frame's advance reaches
/// `Disappeared`, and is thus removed from the collection this frame.
pub proof fn lemma_disappear_completes(
    t: ToastView,
    m: MeasureView,
    cursor: PosView,
    held: bool,
    cfg: FrameCfg,
    input: InputView,
)
    requires
        t.state is Disappear,
        t.value <= cfg.speed * input.dt,
    ensures
        step_toast(t, m, cursor, held, cfg, input).0.state is Disappeared,
{
}

/// How many quiet frames at most remain before this toast has fully
/// disappeared, when every frame advances time and animation by at
/// least one unit: the rest of the appear animation, then the
/// countdown, one frame for the expiry transition, then the disappear
/// animation.
pub open spec fn frames_to_disappear(t: ToastView) -> int {
    let rem = match t.duration {
        Some((_i, r)) => r,
        None => 0,
    };
    match t.state {
        ToastState::Appear => (ANIM_UNIT - t.value) + rem + ANIM_UNIT + 3,
        ToastState::Idle => rem + t.value + 2,
        ToastState::Disappear => t.value + 1,
        ToastState::Disappeared => 0,
    }
}

/// Every quiet frame that advances time and animation by at least one
/// unit brings a toast with a countdown strictly closer to
/// `Disappeared`.
proof fn lemma_quiet_step_progress(
    t: ToastView,
    m: MeasureView,
    cursor: PosView,
    cfg: FrameCfg,
    dt: int,
)
    requires
        t.wf(),
        !(t.state is Disappeared),
        t.duration matches Some(_),
        1 <= cfg.speed,
        1 <= dt,
    ensures
        ({
            let t2 = step_toast(t, m, cursor, false, cfg, quiet_input(dt)).0;
            frames_to_disappear(t2) <= frames_to_disappear(t) - 1
        }),
{
    crate::geometry::lemma_mul_le(1, cfg.speed, 1, dt);
}

/// Law (expiry, end to end): a toast with a countdown reaches
/// `Disappeared` after at most `frames_to_disappear` quiet frames of at
/// least a millisecond each, at any positive speed — it finishes
/// appearing, counts down, expires, and animates out; the frame pass
/// then drops it from the collection.
pub proof fn lemma_eventually_disappeared(
    t: ToastView,
    m: MeasureView,
    cursor: PosView,
    cfg: FrameCfg,
    dts: Seq<int>,
)
    requires
        t.wf(),
        m.wf(),
        t.duration matches Some(_),
        1 <= cfg.speed,
        cfg.padding.in_range(crate::geometry::DIM_MAX as int),
        forall|k: int| 0 <= k < dts.len() ==> 1 <= #[trigger] dts[k],
        dts.len() >= frames_to_disappear(t),
    ensures
        run_quiet_frames(t, m, cursor, cfg, dts).state is Disappeared,
    decreases dts.len(),
{
    if dts.len() == 0 {
        assert(t.state is Disappeared);
    } else {
        let t2 = step_toast(t, m, cursor, false, cfg, quiet_input(dts[0])).0;
        let rest = dts.subrange(1, dts.len() as int);
        lemma_step_preserves_wf(t, m, cursor, false, cfg, quiet_input(dts[0]));
        if !(t.state is Disappeared) {
            lemma_quiet_step_progress(t, m, cursor, cfg, dts[0]);
        }
        lemma_eventually_disappeared(t2, m, cursor, cfg, rest);
    }
}

/// Whether this frame's press dismissed toast `i` of the collection:
/// the shared `held` flag rose while stepping it.
pub open spec fn frame_clicked(
    sv: crate::ToastsView,
    ms: Seq<MeasureView>,
    input: InputView,
    i: int,
) -> bool {
    sv.frame_state_at(ms, input, i + 1).1 && !sv.frame_state_at(ms, input, i).1
}

/// The shared `held` flag never falls while a frame walks the stack.
pub proof fn lemma_held_monotone(
    sv: crate::ToastsView,
    ms: Seq<MeasureView>,
    input: InputView,
    i: int,
    j: int,
)
    requires
        0 <= i <= j,
        sv.frame_state_at(ms, input, i).1,
    ensures
        sv.frame_state_at(ms, input, j).1,
    decreases j - i,
{
    if j > i {
        lemma_held_monotone(sv, ms, input, i, j - 1);
    }
}

/// Law (single dismissal per frame): once a press dismissed toast `i`,
/// the `held` flag is up, so no later toast of the same frame can be
/// dismissed by that press.
pub proof fn lemma_single_dismissal_per_frame(
    sv: crate::ToastsView,
    ms: Seq<MeasureView>,
    input: InputView,
    i: int,
    j: int,
)
    requires
        0 <= i < j,
        frame_clicked(sv, ms, input, i),
    ensures
        !frame_clicked(sv, ms, input, j),
        sv.frame_state_at(ms, input, j).1,
{
    lemma_held_monotone(sv, ms, input, i + 1, j);
}

/// Every toast the frame keeps, while none has disappeared, in order.
proof fn lemma_kept_all(
    sv: crate::ToastsView,
    ms: Seq<MeasureView>,
    input: InputView,
    i: int,
)
    requires
        0 <= i,
        forall|p: int| 0 <= p < i ==> !((#[trigger] sv.frame_step_of(ms, input, p).0).state is Disappeared),
    ensures
        sv.frame_kept(ms, input, i) == Seq::new(i as nat, |p: int| sv.frame_step_of(ms, input, p).0),
    decreases i,
{
    if i > 0 {
        lemma_kept_all(sv, ms, input, i - 1);
        assert(sv.frame_kept(ms, input, i) =~= Seq::new(
            i as nat,
            |p: int| sv.frame_step_of(ms, input, p).0,
        ));
    } else {
        assert(sv.frame_kept(ms, input, 0) =~= Seq::new(
            0,
            |p: int| sv.frame_step_of(ms, input, p).0,
        ));
    }
}

/// Law (stacking order preserved under removal): when exactly one
/// toast reaches `Disappeared` this frame, the stack after the frame is
/// the stepped stack with just that toast taken out — the survivors
/// keep their relative order, with no gap left in the sequence.
pub proof fn lemma_stack_order_preserved(
    sv: crate::ToastsView,
    ms: Seq<MeasureView>,
    input: InputView,
    n: int,
    k: int,
)
    requires
        0 <= k < n,
        sv.frame_step_of(ms, input, k).0.state is Disappeared,
        forall|p: int| 0 <= p < n && p != k
            ==> !((#[trigger] sv.frame_step_of(ms, input, p).0).state is Disappeared),
    ensures
        sv.frame_kept(ms, input, n) == Seq::new(
            (n - 1) as nat,
            |p: int| if p < k {
                sv.frame_step_of(ms, input, p).0
            } else {
                sv.frame_step_of(ms, input, p + 1).0
            },
        ),
    decreases n,
{
    let target = Seq::new(
        (n - 1) as nat,
        |p: int| if p < k {
            sv.frame_step_of(ms, input, p).0
        } else {
            sv.frame_step_of(ms, input, p + 1).0
        },
    );
    if n == k + 1 {
        lemma_kept_all(sv, ms, input, k);
        assert(sv.frame_kept(ms, input, n) =~= target);
    } else {
        lemma_stack_order_preserved(sv, ms, input, n - 1, k);
        assert(sv.frame_kept(ms, input, n) =~= target);
    }
}

/// Law: `Disappeared` is terminal — the frame pass never keeps a toast
/// that reached it, so no collection ever holds one after `show`.
pub proof fn lemma_kept_toasts_live(
    sv: crate::ToastsView,
    ms: Seq<MeasureView>,
    input: InputView,
    i: int,
)
    ensures
        forall|p: int| 0 <= p < sv.frame_kept(ms, input, i).len()
            ==> !((#[trigger] sv.frame_kept(ms, input, i)[p]).state is Disappeared),
    decreases i,
{
    if i > 0 {
        lemma_kept_toasts_live(sv, ms, input, i - 1);
    }
}

/// The stack cursor after laying out `k` copies of the same toast.
pub open spec fn stacked_cursor(
    t: ToastView,
    start: PosView,
    anchor: Anchor,
    spacing: int,
    k: int,
) -> PosView
    decreases k,
{
    if k <= 0 {
        start
    } else {
        t.next_pos(stacked_cursor(t, start, anchor, spacing, k - 1), anchor, spacing)
    }
}

/// Law (anchor geometry round-trip): hanging equal toasts from the
/// cursor and advancing it, over and over, produces rectangles that do
/// not overlap along the stacking axis; consecutive ones sit exactly
/// `spacing` apart, later ones at least that far.
pub proof fn lemma_stacking_round_trip(
    t: ToastView,
    start: PosView,
    anchor: Anchor,
    spacing: int,
    i: int,
    j: int,
)
    requires
        0 <= i < j,
        spacing >= 0,
        t.height >= 0,
    ensures
        ({
            let ri = t.anchored_rect(stacked_cursor(t, start, anchor, spacing, i), anchor);
            let rj = t.anchored_rect(stacked_cursor(t, start, anchor, spacing, j), anchor);
            &&& anchor.is_top() ==> ri.max.y + spacing <= rj.min.y
            &&& !anchor.is_top() ==> rj.max.y + spacing <= ri.min.y
            &&& (j == i + 1 && anchor.is_top()) ==> rj.min.y == ri.max.y + spacing
            &&& (j == i + 1 && !anchor.is_top()) ==> rj.max.y == ri.min.y - spacing
        }),
    decreases j - i,
{
    if j > i + 1 {
        lemma_stacking_round_trip(t, start, anchor, spacing, i, j - 1);
        lemma_stacking_round_trip(t, start, anchor, spacing, j - 1, j);
    }
}

/// Law (reverse insertion): with reverse order, adding a toast puts it
/// at the head of the stack — as `add` ensures — so adding `x` and then
/// `y` leaves the stack starting `y`, `x`.
pub proof fn lemma_reverse_insertion(stack: Seq<ToastView>, x: ToastView, y: ToastView)
    ensures
        seq![y] + (seq![x] + stack) == seq![y, x] + stack,
{
    assert(seq![y] + (seq![x] + stack) =~= seq![y, x] + stack);
}

} // verus!
