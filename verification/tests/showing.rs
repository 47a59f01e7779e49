use plate::{Edge, Layer, Plate, Step, Tag};

fn welcome() -> Plate<&'static str, String> {
    Plate::new(
        "greeter",
        "Welcome".to_string(),
        Tag::Label("Hi".to_string()),
        vec![(Edge::Bottom, true)],
        vec![(Edge::Bottom, 20)],
        3,
    )
}

#[test]
fn welcome_on_a_plain_display() {
    let steps = welcome().build(false);
    assert_eq!(
        steps,
        vec![
            Step::Create {
                application: "greeter",
                title: "Welcome".to_string(),
                child: "Hi".to_string(),
            },
            Step::SetDecorated(false),
            Step::SetResizable(false),
            Step::Present,
            Step::ScheduleClose { seconds: 3 },
        ]
    );
}

#[test]
fn welcome_on_an_overlay_display() {
    let steps = welcome().build(true);
    assert_eq!(
        steps,
        vec![
            Step::Create {
                application: "greeter",
                title: "Welcome".to_string(),
                child: "Hi".to_string(),
            },
            Step::Attach {
                anchors: vec![(Edge::Bottom, true)],
                margins: vec![(Edge::Bottom, 20)],
                layer: Layer::Overlay,
            },
            Step::SetDecorated(false),
            Step::SetResizable(false),
            Step::Present,
            Step::ScheduleClose { seconds: 3 },
        ]
    );
}

#[test]
fn overlay_adds_one_step_and_changes_no_other() {
    let mut with = welcome().build(true);
    let without = welcome().build(false);
    assert_eq!(with.len(), without.len() + 1);
    let attach = with.remove(1);
    assert!(matches!(attach, Step::Attach { .. }));
    assert_eq!(with, without);
}

#[test]
fn zero_duration_still_goes_through_the_timer() {
    let plate = Plate::new(
        "greeter",
        "Now".to_string(),
        Tag::Label("gone at once".to_string()),
        Vec::new(),
        Vec::new(),
        0,
    );
    let steps = plate.build(false);
    assert_eq!(steps.len(), 5);
    assert_eq!(steps[3], Step::Present);
    assert_eq!(steps[4], Step::ScheduleClose { seconds: 0 });
}

#[test]
fn exactly_one_window_is_made_and_shown() {
    for overlay in [false, true] {
        let steps = welcome().build(overlay);
        let made = steps.iter().filter(|s| matches!(s, Step::Create { .. })).count();
        let shown = steps.iter().filter(|s| matches!(s, Step::Present)).count();
        assert_eq!(made, 1);
        assert_eq!(shown, 1);
        assert_eq!(
            steps[0],
            Step::Create {
                application: "greeter",
                title: "Welcome".to_string(),
                child: "Hi".to_string(),
            }
        );
        assert_eq!(steps[steps.len() - 2], Step::Present);
    }
}

#[test]
fn window_is_undecorated_and_fixed_on_both_paths() {
    for overlay in [false, true] {
        let steps = welcome().build(overlay);
        let adjustments: Vec<&Step<&str, String>> = steps
            .iter()
            .filter(|s| matches!(s, Step::SetDecorated(_) | Step::SetResizable(_)))
            .collect();
        assert_eq!(adjustments, vec![&Step::SetDecorated(false), &Step::SetResizable(false)]);
    }
}

#[test]
fn one_timer_is_armed_last_with_the_duration() {
    for overlay in [false, true] {
        for seconds in [0u64, 1, 3, 86_400, u64::MAX] {
            let plate = Plate::new(1u8, String::new(), Tag::Box(2u8), Vec::new(), Vec::new(), seconds);
            let steps = plate.build(overlay);
            let timers = steps.iter().filter(|s| matches!(s, Step::ScheduleClose { .. })).count();
            assert_eq!(timers, 1);
            assert_eq!(steps.last(), Some(&Step::ScheduleClose { seconds }));
        }
    }
}

#[test]
fn rules_are_ignored_without_overlay() {
    let bare = Plate::new("app", "t".to_string(), Tag::Label(1u32), Vec::new(), Vec::new(), 5);
    let ruled = Plate::new(
        "app",
        "t".to_string(),
        Tag::Label(1u32),
        vec![(Edge::Top, true), (Edge::Left, true)],
        vec![(Edge::Top, 40), (Edge::Left, -8)],
        5,
    );
    let bare_steps = bare.build(false);
    let ruled_steps = ruled.build(false);
    assert!(ruled_steps.iter().all(|s| !matches!(s, Step::Attach { .. })));
    assert_eq!(bare_steps, ruled_steps);
}

#[test]
fn rules_keep_their_order_and_values() {
    let anchors = vec![(Edge::Top, true), (Edge::Left, false), (Edge::Top, false), (Edge::Right, true)];
    let margins = vec![(Edge::Left, -5), (Edge::Right, i32::MAX), (Edge::Left, 7), (Edge::Bottom, i32::MIN)];
    let plate = Plate::new("app", "t".to_string(), Tag::Box(9u32), anchors.clone(), margins.clone(), 10);
    let steps = plate.build(true);
    let attached = steps.iter().filter(|s| matches!(s, Step::Attach { .. })).count();
    assert_eq!(attached, 1);
    assert_eq!(steps[1], Step::Attach { anchors, margins, layer: Layer::Overlay });
}

#[test]
fn empty_rules_still_attach_to_the_overlay_layer() {
    let plate = Plate::new("app", "t".to_string(), Tag::Label(0u8), Vec::new(), Vec::new(), 1);
    let steps = plate.build(true);
    assert_eq!(steps.len(), 6);
    assert_eq!(
        steps[1],
        Step::Attach { anchors: Vec::new(), margins: Vec::new(), layer: Layer::Overlay }
    );
}

#[test]
fn container_content_becomes_the_child() {
    let plate = Plate::new("app", "Tray".to_string(), Tag::Box("row of buttons"), Vec::new(), Vec::new(), 2);
    let steps = plate.build(false);
    assert_eq!(
        steps[0],
        Step::Create { application: "app", title: "Tray".to_string(), child: "row of buttons" }
    );
}

#[test]
fn tag_resolves_to_the_widget_it_holds() {
    assert_eq!(Tag::Label("text").into_widget(), "text");
    assert_eq!(Tag::Box("box").into_widget(), "box");
    assert_ne!(Tag::Label(1), Tag::Box(1));
}

#[test]
fn title_is_carried_as_given() {
    for title in ["", "Welcome", "Grüß Gott ☀", "  spaced  "] {
        let plate = Plate::new((), title.to_string(), Tag::Label(()), Vec::new(), Vec::new(), 1);
        let steps = plate.build(false);
        assert_eq!(steps[0], Step::Create { application: (), title: title.to_string(), child: () });
    }
}
