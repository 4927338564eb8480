//! Unit tests of the overlay's building blocks: the easing curve, the
//! anchor geometry, per-toast geometry helpers and level dispatch.

use egui_notify::{
    ease_in_cubic, Anchor, FrameInput, Pos2, Rect, Rgba, Toast, ToastLevel, ToastMeasure, Toasts,
    Vec2i, ANIM_UNIT,
};

#[test]
fn ease_in_cubic_values() {
    assert_eq!(ease_in_cubic(0), 0);
    assert_eq!(ease_in_cubic(ANIM_UNIT), ANIM_UNIT);
    // 1000 - (1000 - 500)^3 / 1000^2 = 1000 - 125 = 875.
    assert_eq!(ease_in_cubic(500), 875);
    // 1000 - (1000 - 100)^3 / 1000^2 = 1000 - 729 = 271.
    assert_eq!(ease_in_cubic(100), 271);
}

#[test]
fn anim_side_per_anchor() {
    assert_eq!(Anchor::TopRight.anim_side(), 1);
    assert_eq!(Anchor::BottomRight.anim_side(), 1);
    assert_eq!(Anchor::TopMiddle.anim_side(), 1);
    assert_eq!(Anchor::BottomMiddle.anim_side(), 1);
    assert_eq!(Anchor::TopLeft.anim_side(), -1);
    assert_eq!(Anchor::BottomLeft.anim_side(), -1);
}

#[test]
fn screen_corner_per_anchor() {
    let sc = Pos2 { x: 800, y: 600 };
    let margin = Vec2i { x: 8, y: 10 };
    assert_eq!(Anchor::TopRight.screen_corner(sc, margin), Pos2 { x: 792, y: 10 });
    assert_eq!(Anchor::TopLeft.screen_corner(sc, margin), Pos2 { x: 8, y: 10 });
    assert_eq!(Anchor::TopMiddle.screen_corner(sc, margin), Pos2 { x: 400, y: 10 });
    assert_eq!(Anchor::BottomRight.screen_corner(sc, margin), Pos2 { x: 792, y: 590 });
    assert_eq!(Anchor::BottomLeft.screen_corner(sc, margin), Pos2 { x: 8, y: 590 });
    assert_eq!(Anchor::BottomMiddle.screen_corner(sc, margin), Pos2 { x: 400, y: 590 });
}

#[test]
fn anchored_rect_per_anchor() {
    let t = Toast::basic("r").with_width(100).with_height(30);
    let pos = Pos2 { x: 500, y: 200 };
    assert_eq!(
        t.calc_anchored_rect(pos, Anchor::TopRight),
        Rect { min: Pos2 { x: 400, y: 200 }, max: Pos2 { x: 500, y: 230 } },
    );
    assert_eq!(
        t.calc_anchored_rect(pos, Anchor::TopLeft),
        Rect { min: Pos2 { x: 500, y: 200 }, max: Pos2 { x: 600, y: 230 } },
    );
    assert_eq!(
        t.calc_anchored_rect(pos, Anchor::TopMiddle),
        Rect { min: Pos2 { x: 450, y: 200 }, max: Pos2 { x: 550, y: 230 } },
    );
    assert_eq!(
        t.calc_anchored_rect(pos, Anchor::BottomRight),
        Rect { min: Pos2 { x: 400, y: 170 }, max: Pos2 { x: 500, y: 200 } },
    );
    assert_eq!(
        t.calc_anchored_rect(pos, Anchor::BottomLeft),
        Rect { min: Pos2 { x: 500, y: 170 }, max: Pos2 { x: 600, y: 200 } },
    );
    assert_eq!(
        t.calc_anchored_rect(pos, Anchor::BottomMiddle),
        Rect { min: Pos2 { x: 450, y: 170 }, max: Pos2 { x: 550, y: 200 } },
    );
}

#[test]
fn stacking_round_trip_spacing() {
    // Laying out equal boxes and advancing the cursor gives rectangles
    // spaced by exactly the configured spacing, with no overlap.
    for anchor in [
        Anchor::TopRight,
        Anchor::TopLeft,
        Anchor::TopMiddle,
        Anchor::BottomRight,
        Anchor::BottomLeft,
        Anchor::BottomMiddle,
    ] {
        let t = Toast::basic("s").with_width(120).with_height(40);
        let spacing = 8;
        let mut cursor = Pos2 { x: 300, y: 300 };
        let mut rects = Vec::new();
        for _ in 0..5 {
            rects.push(t.calc_anchored_rect(cursor, anchor));
            t.adjust_next_pos(&mut cursor, anchor, spacing);
        }
        for k in 0..4 {
            let top_anchor = matches!(anchor, Anchor::TopRight | Anchor::TopLeft | Anchor::TopMiddle);
            if top_anchor {
                assert_eq!(rects[k + 1].min.y, rects[k].max.y + spacing);
            } else {
                assert_eq!(rects[k + 1].max.y, rects[k].min.y - spacing);
            }
            for j in (k + 1)..5 {
                // Disjoint along the stacking axis.
                assert!(rects[k].max.y <= rects[j].min.y || rects[j].max.y <= rects[k].min.y);
            }
        }
    }
}

#[test]
fn rect_contains_borders() {
    let r = Rect { min: Pos2 { x: 0, y: 0 }, max: Pos2 { x: 10, y: 5 } };
    assert!(r.contains(Pos2 { x: 0, y: 0 }));
    assert!(r.contains(Pos2 { x: 10, y: 5 }));
    assert!(r.contains(Pos2 { x: 5, y: 3 }));
    assert!(!r.contains(Pos2 { x: 11, y: 3 }));
    assert!(!r.contains(Pos2 { x: 5, y: -1 }));
}

#[test]
fn caption_line_count() {
    assert_eq!(Toast::basic("").line_count(), 1);
    assert_eq!(Toast::basic("one line").line_count(), 1);
    assert_eq!(Toast::basic("two\nlines").line_count(), 2);
    assert_eq!(Toast::basic("a\nb\nc").line_count(), 3);
    assert_eq!(Toast::basic("trailing\n").line_count(), 2);
}

#[test]
fn level_predicates_and_icons() {
    assert!(ToastLevel::Info.is_info());
    assert!(ToastLevel::Warning.is_warning());
    assert!(ToastLevel::Error.is_error());
    assert!(!ToastLevel::Success.is_info());

    assert!(ToastLevel::Info.has_icon());
    assert!(!ToastLevel::NoLevel.has_icon());
    assert_eq!(ToastLevel::NoLevel.icon_glyph(), None);
    assert_eq!(ToastLevel::Info.icon_glyph().unwrap(), "\u{2139}");
    assert_eq!(ToastLevel::Warning.icon_glyph().unwrap(), "\u{26a0}");
    assert_eq!(ToastLevel::Error.icon_glyph().unwrap(), "\u{ff01}");
    assert_eq!(ToastLevel::Success.icon_glyph().unwrap(), "\u{2705}");
    let custom = ToastLevel::Custom("*".to_string(), Rgba::from_rgb(1, 2, 3));
    assert_eq!(custom.icon_glyph().unwrap(), "*");
    assert_eq!(custom.icon_color(), Some(Rgba { r: 1, g: 2, b: 3, a: 255 }));
    assert_eq!(
        ToastLevel::Info.icon_color(),
        Some(Rgba { r: 150, g: 200, b: 210, a: 255 })
    );
    assert_eq!(ToastLevel::NoLevel.icon_color(), None);
}

#[test]
fn setters_and_builders() {
    let mut t = Toast::basic("s");
    t.set_level(ToastLevel::Warning);
    assert!(t.level().is_warning());
    t.set_closable(false);
    assert!(!t.is_closable());
    t.set_show_progress_bar(false);
    assert!(!t.shows_progress_bar());
    t.set_duration(Some(1200));
    assert_eq!(t.duration(), Some((1200, 1200)));
    t.set_duration(None);
    assert_eq!(t.duration(), None);
    t.set_width(250);
    t.set_height(60);
    assert_eq!(t.width(), 250);
    assert_eq!(t.height(), 60);
    t.dismiss();
    assert!(t.state().disappearing());

    let b = Toast::warning("w").with_duration(700).closable(false);
    assert_eq!(b.duration(), Some((700, 700)));
    assert!(!b.is_closable());
    assert!(b.level().is_warning());
}

#[test]
fn collection_default_duration_and_speed() {
    let mut toasts = Toasts::new().with_default_duration(Some(900)).with_speed(2);
    toasts.info("d");
    assert_eq!(toasts.toast_at(0).duration(), Some((900, 900)));

    let mut never = Toasts::new().with_default_duration(None);
    never.info("n");
    assert_eq!(never.toast_at(0).duration(), None);

    // Half speed: 2 units per millisecond instead of 4.
    let input = FrameInput {
        screen_max: Pos2 { x: 800, y: 600 },
        hover: None,
        press: None,
        released: false,
        dt: 100,
    };
    let ms = vec![ToastMeasure {
        caption_w: 0,
        caption_h: 0,
        icon_w: 0,
        icon_h: 0,
        cross_w: 0,
        cross_h: 0,
    }];
    toasts.show(&input, &ms);
    assert_eq!(toasts.toast_at(0).animation_value(), 200);
}
