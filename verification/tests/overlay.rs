//! End-to-end tests of the toast overlay: lifecycle, expiry, dismissal
//! debouncing, stacking order and the per-frame outputs.

use egui_notify::{
    Anchor, FrameInput, Pos2, Toast, ToastMeasure, Toasts, Vec2i, DEFAULT_DURATION_MS,
};

fn quiet(dt: i64) -> FrameInput {
    FrameInput {
        screen_max: Pos2 { x: 800, y: 600 },
        hover: None,
        press: None,
        released: false,
        dt,
    }
}

fn zero_measure() -> ToastMeasure {
    ToastMeasure {
        caption_w: 0,
        caption_h: 0,
        icon_w: 0,
        icon_h: 0,
        cross_w: 0,
        cross_h: 0,
    }
}

fn measures(toasts: &Toasts, m: ToastMeasure) -> Vec<ToastMeasure> {
    let mut v = Vec::new();
    for _ in 0..toasts.len() {
        v.push(m);
    }
    v
}

#[test]
fn new_collection_is_empty() {
    let t = Toasts::new();
    assert_eq!(t.len(), 0);
    assert!(t.is_empty());
    assert!(!t.is_held());
}

#[test]
fn fresh_toast_defaults() {
    let t = Toast::basic("hello");
    assert!(t.state().appearing());
    assert_eq!(t.animation_value(), 0);
    assert_eq!(t.duration(), Some((DEFAULT_DURATION_MS, DEFAULT_DURATION_MS)));
    assert_eq!(t.width(), 180);
    assert_eq!(t.height(), 34);
    assert!(t.is_closable());
    assert!(t.shows_progress_bar());
    assert_eq!(t.caption(), "hello");
}

#[test]
fn error_toast_not_closable() {
    let t = Toast::error("boom");
    assert!(!t.is_closable());
    assert!(t.level().is_error());
}

#[test]
fn lifecycle_appear_idle_disappear_disappeared() {
    let mut toasts = Toasts::new();
    toasts.add(Toast::basic("x").with_duration(100));
    let ms = measures(&toasts, zero_measure());

    // Appearing: value rises by speed * dt and clamps at the unit.
    toasts.show(&quiet(100), &ms);
    assert_eq!(toasts.toast_at(0).animation_value(), 400);
    assert!(toasts.toast_at(0).state().appearing());
    toasts.show(&quiet(100), &ms);
    assert_eq!(toasts.toast_at(0).animation_value(), 800);
    toasts.show(&quiet(100), &ms);
    assert_eq!(toasts.toast_at(0).animation_value(), 1000);
    assert!(toasts.toast_at(0).state().idling());

    // Idling: the countdown runs; no frame delta was counted before Idle.
    assert_eq!(toasts.toast_at(0).duration(), Some((100, 100)));
    toasts.show(&quiet(60), &ms);
    assert_eq!(toasts.toast_at(0).duration(), Some((100, 40)));
    toasts.show(&quiet(60), &ms);
    // The countdown clamps at zero rather than going negative.
    assert_eq!(toasts.toast_at(0).duration(), Some((100, 0)));
    assert!(toasts.toast_at(0).state().idling());

    // The next frame starts the disappearance.
    toasts.show(&quiet(0), &ms);
    assert!(toasts.toast_at(0).state().disappearing());

    // The disappear animation runs down, and the toast is removed.
    toasts.show(&quiet(100), &ms);
    assert_eq!(toasts.toast_at(0).animation_value(), 600);
    toasts.show(&quiet(200), &ms);
    assert_eq!(toasts.len(), 0);
}

#[test]
fn no_expiry_toast_never_disappears() {
    let mut toasts = Toasts::new();
    toasts.add(Toast::basic("stay").no_expire());
    let ms = measures(&toasts, zero_measure());
    toasts.show(&quiet(250), &ms);
    assert!(toasts.toast_at(0).state().idling());
    for _ in 0..20 {
        toasts.show(&quiet(1_000_000), &ms);
    }
    assert_eq!(toasts.len(), 1);
    assert!(toasts.toast_at(0).state().idling());
    assert_eq!(toasts.toast_at(0).duration(), None);
}

#[test]
fn hover_pauses_countdown() {
    let mut toasts = Toasts::new()
        .with_anchor(Anchor::TopLeft)
        .with_margin(Vec2i { x: 0, y: 0 })
        .with_padding(Vec2i { x: 0, y: 0 });
    toasts.add(Toast::basic("h").with_duration(500).closable(false));
    let m = ToastMeasure {
        caption_w: 40,
        caption_h: 10,
        icon_w: 0,
        icon_h: 0,
        cross_w: 0,
        cross_h: 0,
    };
    let ms = measures(&toasts, m);
    toasts.show(&quiet(250), &ms);
    assert!(toasts.toast_at(0).state().idling());

    // The box is now content-sized at the top-left corner; hover inside it.
    let w = toasts.toast_at(0).width();
    let h = toasts.toast_at(0).height();
    let mut hovered = quiet(100);
    hovered.hover = Some(Pos2 { x: w / 2, y: h / 2 });
    toasts.show(&hovered, &ms);
    assert_eq!(toasts.toast_at(0).duration(), Some((500, 500)));

    // Hovering elsewhere does not pause it.
    hovered.hover = Some(Pos2 { x: w + 1000, y: h + 1000 });
    toasts.show(&hovered, &ms);
    assert_eq!(toasts.toast_at(0).duration(), Some((500, 400)));
}

#[test]
fn single_dismissal_per_frame() {
    let mut toasts = Toasts::new()
        .with_anchor(Anchor::TopLeft)
        .with_margin(Vec2i { x: 0, y: 0 })
        .with_spacing(0)
        .with_padding(Vec2i { x: 0, y: 0 });
    toasts.add(Toast::basic("one").no_expire());
    toasts.add(Toast::basic("two").no_expire());
    // Zero-height boxes with a wide cross: both dismiss-cross rectangles
    // occupy the same strip of screen.
    let m = ToastMeasure {
        caption_w: 0,
        caption_h: 0,
        icon_w: 0,
        icon_h: 0,
        cross_w: 10,
        cross_h: 0,
    };
    let ms = measures(&toasts, m);
    toasts.show(&quiet(250), &ms);
    assert!(toasts.toast_at(0).state().idling());
    assert!(toasts.toast_at(1).state().idling());

    // One press lands inside both crosses; exactly one toast goes.
    let mut press = quiet(0);
    press.press = Some(Pos2 { x: 5, y: 0 });
    toasts.show(&press, &ms);
    assert!(toasts.toast_at(0).state().disappearing());
    assert!(toasts.toast_at(1).state().idling());
    assert!(toasts.is_held());

    // The press is still held next frame: no further dismissal.
    toasts.show(&press, &ms);
    assert!(toasts.toast_at(1).state().idling());
    assert!(toasts.is_held());

    // Releasing clears the debounce; once the first toast has animated
    // out, a fresh press dismisses the second one.
    let mut released = press;
    released.released = true;
    released.press = None;
    toasts.show(&released, &ms);
    assert!(!toasts.is_held());
    toasts.show(&quiet(250), &measures(&toasts, m));
    assert_eq!(toasts.len(), 1);
    toasts.show(&press, &measures(&toasts, m));
    assert!(toasts.toast_at(0).state().disappearing());
    assert!(toasts.is_held());
}

#[test]
fn stacking_order_preserved_under_removal() {
    let mut toasts = Toasts::new();
    toasts.add(Toast::basic("A").no_expire());
    toasts.add(Toast::basic("B").no_expire());
    toasts.add(Toast::basic("C").no_expire());
    let ms = measures(&toasts, zero_measure());
    toasts.show(&quiet(250), &ms);

    // Force A out; it animates away and is then removed.
    toasts.dismiss_oldest_toast();
    toasts.show(&quiet(250), &ms);
    assert_eq!(toasts.len(), 2);
    assert_eq!(toasts.toast_at(0).caption(), "B");
    assert_eq!(toasts.toast_at(1).caption(), "C");
}

#[test]
fn survivors_repositioned_without_gaps() {
    let mut toasts = Toasts::new()
        .with_anchor(Anchor::TopLeft)
        .with_margin(Vec2i { x: 0, y: 0 })
        .with_spacing(8)
        .with_padding(Vec2i { x: 0, y: 0 });
    toasts.add(Toast::basic("A").no_expire().closable(false));
    toasts.add(Toast::basic("B").no_expire().closable(false));
    toasts.add(Toast::basic("C").no_expire().closable(false));
    let m = ToastMeasure {
        caption_w: 50,
        caption_h: 20,
        icon_w: 0,
        icon_h: 0,
        cross_w: 0,
        cross_h: 0,
    };
    let ms = measures(&toasts, m);
    toasts.show(&quiet(250), &ms);
    toasts.dismiss_oldest_toast();
    toasts.show(&quiet(250), &ms);
    assert_eq!(toasts.len(), 2);

    // All boxes are 70x20 now (width reserves the icon slot of 20).
    let out = toasts.show(&quiet(0), &measures(&toasts, m));
    let mut bg_tops: Vec<i64> = Vec::new();
    for c in &out.commands {
        if let egui_notify::DrawCommand::Background { rect } = c {
            bg_tops.push(rect.min.y);
        }
    }
    // The survivors sit flush from the corner, spaced by exactly 8.
    assert_eq!(bg_tops, vec![0i64, 28]);
}

#[test]
fn reverse_insertion_order() {
    let mut toasts = Toasts::new().reverse(true);
    toasts.add(Toast::basic("X"));
    toasts.add(Toast::basic("Y"));
    assert_eq!(toasts.toast_at(0).caption(), "Y");
    assert_eq!(toasts.toast_at(1).caption(), "X");

    let mut forward = Toasts::new();
    forward.add(Toast::basic("X"));
    forward.add(Toast::basic("Y"));
    assert_eq!(forward.toast_at(0).caption(), "X");
    assert_eq!(forward.toast_at(1).caption(), "Y");
}

#[test]
fn dismiss_helpers() {
    let mut toasts = Toasts::new();
    toasts.add(Toast::basic("a").no_expire());
    toasts.add(Toast::basic("b").no_expire());
    toasts.add(Toast::basic("c").no_expire());

    toasts.dismiss_latest_toast();
    assert!(toasts.toast_at(2).state().disappearing());
    assert!(toasts.toast_at(0).state().appearing());

    toasts.dismiss_all_toasts();
    assert!(toasts.toast_at(0).state().disappearing());
    assert!(toasts.toast_at(1).state().disappearing());
    assert!(toasts.toast_at(2).state().disappearing());

    // Dismissing on an empty collection is a no-op.
    let mut empty = Toasts::new();
    empty.dismiss_oldest_toast();
    empty.dismiss_latest_toast();
    empty.dismiss_all_toasts();
    assert_eq!(empty.len(), 0);
}

#[test]
fn content_sizing_formula() {
    let mut toasts = Toasts::new().with_padding(Vec2i { x: 10, y: 10 });
    toasts.info("i");
    let m = ToastMeasure {
        caption_w: 50,
        caption_h: 20,
        icon_w: 18,
        icon_h: 18,
        cross_w: 10,
        cross_h: 8,
    };
    let ms = measures(&toasts, m);
    toasts.show(&quiet(0), &ms);
    // width = 2*10 + (20/1 + 10) + 50 + (10 + 10); height = 2*10 + max(18, 20, 8).
    assert_eq!(toasts.toast_at(0).width(), 120);
    assert_eq!(toasts.toast_at(0).height(), 40);
}

#[test]
fn zero_size_measures_tolerated() {
    let mut toasts = Toasts::new().with_padding(Vec2i { x: 0, y: 0 });
    toasts.basic("z");
    let ms = measures(&toasts, zero_measure());
    let out = toasts.show(&quiet(16), &ms);
    assert_eq!(toasts.toast_at(0).width(), 0);
    assert_eq!(toasts.toast_at(0).height(), 0);
    assert!(out.repaint);
}

#[test]
fn repaint_requested_only_while_work_remains() {
    let mut toasts = Toasts::new();
    toasts.add(Toast::basic("r").no_expire());
    let ms = measures(&toasts, zero_measure());
    let out = toasts.show(&quiet(250), &ms);
    assert!(out.repaint);
    // Settled, no countdown: the overlay may go idle.
    let out = toasts.show(&quiet(250), &ms);
    assert!(!out.repaint);
}

#[test]
fn progress_line_recedes() {
    let mut toasts = Toasts::new()
        .with_anchor(Anchor::TopLeft)
        .with_margin(Vec2i { x: 0, y: 0 })
        .with_padding(Vec2i { x: 0, y: 0 });
    toasts.add(Toast::basic("p").with_duration(100).closable(false));
    let m = ToastMeasure {
        caption_w: 40,
        caption_h: 10,
        icon_w: 0,
        icon_h: 0,
        cross_w: 0,
        cross_h: 0,
    };
    let ms = measures(&toasts, m);
    toasts.show(&quiet(250), &ms);
    // Box is 50x10; half the countdown has elapsed after this frame.
    let out = toasts.show(&quiet(50), &ms);
    let mut progress = None;
    for c in &out.commands {
        if let egui_notify::DrawCommand::Progress { from, to } = c {
            progress = Some((*from, *to));
        }
    }
    let (from, to) = progress.expect("progress line expected");
    // Left end at the box's bottom-left corner, right end receded by
    // width * (initial - remaining) / initial = 50 * 50 / 100.
    assert_eq!(from, Pos2 { x: 0, y: 10 });
    assert_eq!(to, Pos2 { x: 50 - 25, y: 10 });
}

#[test]
fn empty_collection_frame_is_idle() {
    let mut toasts = Toasts::new();
    let out = toasts.show(&quiet(16), &Vec::new());
    assert!(out.commands.is_empty());
    assert!(!out.repaint);
}

#[test]
fn icon_command_only_with_level() {
    let mut with_icon = Toasts::new();
    with_icon.info("i");
    let out = with_icon.show(&quiet(16), &measures(&with_icon, zero_measure()));
    assert!(out
        .commands
        .iter()
        .any(|c| matches!(c, egui_notify::DrawCommand::Icon { .. })));

    let mut without_icon = Toasts::new();
    without_icon.basic("b");
    let out = without_icon.show(&quiet(16), &measures(&without_icon, zero_measure()));
    assert!(!out
        .commands
        .iter()
        .any(|c| matches!(c, egui_notify::DrawCommand::Icon { .. })));
}

#[test]
fn cross_command_only_when_closable() {
    let mut toasts = Toasts::new();
    toasts.add(Toast::basic("no cross").closable(false));
    let out = toasts.show(&quiet(16), &measures(&toasts, zero_measure()));
    assert!(!out
        .commands
        .iter()
        .any(|c| matches!(c, egui_notify::DrawCommand::Cross { .. })));
}

#[test]
fn shadow_command_when_configured() {
    let shadow = egui_notify::Shadow {
        offset: Vec2i { x: 2, y: 2 },
        blur: 4,
        spread: 1,
        color: egui_notify::Rgba { r: 0, g: 0, b: 0, a: 96 },
    };
    let mut toasts = Toasts::new().with_shadow(shadow);
    toasts.basic("s");
    let out = toasts.show(&quiet(16), &measures(&toasts, zero_measure()));
    let mut found = None;
    for c in &out.commands {
        if let egui_notify::DrawCommand::Shadow { shadow, .. } = c {
            found = Some(*shadow);
        }
    }
    assert_eq!(found, Some(shadow));
}

#[test]
fn custom_level_shortcut() {
    let mut toasts = Toasts::new();
    toasts.custom(
        "c",
        "@".to_string(),
        egui_notify::Rgba { r: 9, g: 8, b: 7, a: 255 },
    );
    let level = toasts.toast_at(0).level().clone();
    assert_eq!(level.icon_glyph().unwrap(), "@");
    assert_eq!(
        level.icon_color(),
        Some(egui_notify::Rgba { r: 9, g: 8, b: 7, a: 255 })
    );
}

#[test]
fn disappeared_is_terminal() {
    // Drive a standalone toast to the terminal state.
    let mut t = Toast::basic("gone").no_expire();
    t.dismiss();
    assert!(t.state().disappearing());
    t.advance_animation(4, 1000);
    assert!(t.state().disappeared());
    assert_eq!(t.animation_value(), 0);

    // Dismissing a terminal toast leaves it unchanged.
    t.dismiss();
    assert!(t.state().disappeared());

    // A collection drops a terminal toast on the next frame without
    // reviving it: nothing survives and nothing animates.
    let mut toasts = Toasts::new();
    toasts.add(t);
    let out = toasts.show(&quiet(16), &measures(&toasts, zero_measure()));
    assert_eq!(toasts.len(), 0);
    assert!(!out.repaint);
}

#[test]
fn dismiss_helpers_leave_terminal_toasts() {
    let mut gone = Toast::basic("gone").no_expire();
    gone.dismiss();
    gone.advance_animation(4, 1000);
    let mut toasts = Toasts::new();
    toasts.add(gone);
    toasts.add(Toast::basic("live").no_expire());
    toasts.dismiss_all_toasts();
    assert!(toasts.toast_at(0).state().disappeared());
    assert!(toasts.toast_at(1).state().disappearing());
}

#[test]
fn explicit_size_is_a_floor() {
    let mut toasts = Toasts::new().with_padding(Vec2i { x: 0, y: 0 });
    toasts.add(Toast::basic("f").closable(false).with_width(300).with_height(80));
    let m = ToastMeasure {
        caption_w: 40,
        caption_h: 10,
        icon_w: 0,
        icon_h: 0,
        cross_w: 0,
        cross_h: 0,
    };
    // Content needs 50x10; the explicit floor keeps the box at 300x80.
    toasts.show(&quiet(16), &measures(&toasts, m));
    assert_eq!(toasts.toast_at(0).width(), 300);
    assert_eq!(toasts.toast_at(0).height(), 80);

    // Content larger than the floor grows the box to fit: the width
    // makes room for the reserved icon slot (100) plus the caption.
    let wide = ToastMeasure {
        caption_w: 400,
        caption_h: 100,
        icon_w: 0,
        icon_h: 0,
        cross_w: 0,
        cross_h: 0,
    };
    toasts.show(&quiet(16), &measures(&toasts, wide));
    assert_eq!(toasts.toast_at(0).width(), 500);
    assert_eq!(toasts.toast_at(0).height(), 100);
}
