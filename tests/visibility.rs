use demo_app::clock::format_clock;
use demo_app::demo_windows::{DemoEnvironment, DemoWindows, Frame, WindowId};
use demo_app::menu_bar::{clock_label, handle_menu_event, MemoryAction, MenuEvent};
use demo_app::windows::{DemoLink, OpenWindows, WindowKey};

const ALL_KEYS: [WindowKey; 7] = [
    WindowKey::Demo,
    WindowKey::FractalClock,
    WindowKey::Settings,
    WindowKey::Inspection,
    WindowKey::Memory,
    WindowKey::Resize,
    WindowKey::ColorTest,
];

fn all_open() -> OpenWindows {
    OpenWindows {
        demo: true,
        fractal_clock: true,
        settings: true,
        inspection: true,
        memory: true,
        resize: true,
        color_test: true,
    }
}

fn env(link: Option<DemoLink>) -> DemoEnvironment {
    DemoEnvironment { centis_since_midnight: None, link }
}

fn frame(app: &mut DemoWindows, e: &DemoEnvironment, events: Vec<MenuEvent>, closes: Vec<WindowId>) -> Frame {
    app.ui(e, &events, &closes)
}

#[test]
fn default_state_opens_only_demo() {
    let d = OpenWindows::default();
    for k in ALL_KEYS {
        assert_eq!(d.get(k), k == WindowKey::Demo);
    }
    let n = OpenWindows::none();
    for k in ALL_KEYS {
        assert!(!n.get(k));
    }
}

#[test]
fn default_app_state() {
    let app = DemoWindows::default();
    assert_eq!(app.open_windows(), OpenWindows::default());
    assert_eq!(app.previous_link(), None);
}

#[test]
fn clock_formatting() {
    assert_eq!(format_clock(0), "00:00:00.00");
    assert_eq!(format_clock(366150), "01:01:01.50");
    assert_eq!(format_clock(8639999), "23:59:59.99");
    assert_eq!(format_clock(8640000), "00:00:00.00");
    assert_eq!(format_clock(8640000 + 4507), "00:00:45.07");
}

#[test]
fn clock_label_only_with_time() {
    assert_eq!(clock_label(None), None);
    assert_eq!(clock_label(Some(366150)), Some("01:01:01.50".to_string()));
}

#[test]
fn set_and_toggle_touch_one_flag() {
    let mut o = OpenWindows::none();
    o.set(WindowKey::Memory, true);
    assert!(o.memory);
    assert_eq!(o, OpenWindows::only(WindowKey::Memory));
    o.toggle(WindowKey::Memory);
    assert_eq!(o, OpenWindows::none());
}

#[test]
fn link_is_edge_triggered() {
    let mut app = DemoWindows::new(OpenWindows::default(), None);
    let clock = env(Some(DemoLink::Clock));
    frame(&mut app, &clock, vec![], vec![]);
    assert_eq!(app.open_windows(), OpenWindows::only(WindowKey::FractalClock));
    // the user closes the clock and opens the demo; the held link does not undo it
    frame(&mut app, &clock, vec![MenuEvent::ToggleWindow(WindowKey::Demo)], vec![WindowId::FractalClock]);
    assert_eq!(app.open_windows(), OpenWindows::only(WindowKey::Demo));
    frame(&mut app, &clock, vec![], vec![]);
    assert_eq!(app.open_windows(), OpenWindows::only(WindowKey::Demo));
    // the link goes away and comes back: it acts again
    frame(&mut app, &env(None), vec![], vec![]);
    assert_eq!(app.open_windows(), OpenWindows::only(WindowKey::Demo));
    assert_eq!(app.previous_link(), None);
    frame(&mut app, &clock, vec![], vec![]);
    assert_eq!(app.open_windows(), OpenWindows::only(WindowKey::FractalClock));
    assert_eq!(app.previous_link(), Some(DemoLink::Clock));
}

#[test]
fn link_isolates_its_window() {
    let mut app = DemoWindows::new(all_open(), None);
    app.follow_link(Some(DemoLink::Clock));
    for k in ALL_KEYS {
        assert_eq!(app.open_windows().get(k), k == WindowKey::FractalClock);
    }
}

#[test]
fn checkbox_double_toggle_restores() {
    let start = OpenWindows::default();
    for k in ALL_KEYS {
        let mut o = start;
        assert_eq!(handle_menu_event(&mut o, true, MenuEvent::ToggleWindow(k)), MemoryAction::Keep);
        assert_eq!(o.get(k), !start.get(k));
        handle_menu_event(&mut o, true, MenuEvent::ToggleWindow(k));
        assert_eq!(o, start);
    }
}

#[test]
fn menu_memory_actions() {
    let mut app = DemoWindows::new(OpenWindows::default(), None);
    let events = vec![MenuEvent::ReorganizeWindows, MenuEvent::ClearMemory, MenuEvent::ToggleWindow(WindowKey::Settings)];
    let actions = app.show_menu_bar(false, &events);
    assert_eq!(actions, vec![MemoryAction::ResetAreas, MemoryAction::Clear, MemoryAction::Keep]);
    assert!(app.open_windows().settings);
    assert!(app.open_windows().demo);
}

#[test]
fn clock_click_needs_a_time() {
    let mut o = OpenWindows::none();
    handle_menu_event(&mut o, false, MenuEvent::ClockClicked);
    assert_eq!(o, OpenWindows::none());
    handle_menu_event(&mut o, true, MenuEvent::ClockClicked);
    assert_eq!(o, OpenWindows::only(WindowKey::FractalClock));

    let mut app = DemoWindows::new(OpenWindows::none(), None);
    let timed = DemoEnvironment { centis_since_midnight: Some(0), link: None };
    let f = frame(&mut app, &timed, vec![MenuEvent::ClockClicked], vec![]);
    assert_eq!(f.clock_label, Some("00:00:00.00".to_string()));
    assert_eq!(f.shown, vec![WindowId::FractalClock]);
    let f = frame(&mut app, &env(None), vec![MenuEvent::ClockClicked], vec![]);
    assert_eq!(f.clock_label, None);
    assert_eq!(f.shown, vec![WindowId::FractalClock]);
}

#[test]
fn closing_one_window_keeps_the_others() {
    let own = [
        WindowId::Demo,
        WindowId::Settings,
        WindowId::Inspection,
        WindowId::Memory,
        WindowId::ColorTest,
        WindowId::FractalClock,
    ];
    for a in own {
        let mut app = DemoWindows::new(all_open(), None);
        let shown = app.windows(&vec![a]);
        assert_eq!(shown.len(), 10);
        for b in own {
            assert_eq!(app.open_windows().get(b.key()), a != b);
        }
        assert!(app.open_windows().resize);
    }
}

#[test]
fn show_window_renders_then_closes() {
    let mut app = DemoWindows::new(OpenWindows::default(), None);
    assert!(!app.show_window(WindowId::Settings, true));
    assert!(app.show_window(WindowId::Demo, false));
    assert!(app.open_windows().demo);
    assert!(app.show_window(WindowId::Demo, true));
    assert!(!app.open_windows().demo);
    app.close(WindowId::Memory);
    assert_eq!(app.open_windows(), OpenWindows::none());
}

#[test]
fn resize_group_closes_together() {
    let mut app = DemoWindows::new(OpenWindows::only(WindowKey::Resize), None);
    let mut shown = Vec::new();
    app.resize_windows(&vec![WindowId::ResizableEmbeddedScroll], &mut shown);
    // rendered up to the one closed, then the shared flag is off
    assert_eq!(shown, vec![WindowId::Resizable, WindowId::ResizableEmbeddedScroll]);
    assert!(!app.open_windows().resize);
    let mut next = Vec::new();
    app.resize_windows(&vec![], &mut next);
    assert!(next.is_empty());

    let mut app = DemoWindows::new(OpenWindows::only(WindowKey::Resize), None);
    let shown = app.windows(&vec![]);
    assert_eq!(
        shown,
        vec![WindowId::Resizable, WindowId::ResizableEmbeddedScroll, WindowId::ResizableScroll, WindowId::AutoSized]
    );
    let shown = app.windows(&vec![WindowId::AutoSized]);
    assert_eq!(shown.len(), 4);
    assert_eq!(app.open_windows(), OpenWindows::none());
    assert!(app.windows(&vec![]).is_empty());
}

#[test]
fn end_to_end_scenario() {
    let mut app = DemoWindows::new(OpenWindows::default(), None);
    let clock = env(Some(DemoLink::Clock));
    let f = frame(&mut app, &clock, vec![], vec![]);
    assert_eq!(app.open_windows(), OpenWindows::only(WindowKey::FractalClock));
    assert_eq!(f.shown, vec![WindowId::FractalClock]);
    for _ in 0..2 {
        frame(&mut app, &clock, vec![], vec![]);
        assert_eq!(app.open_windows(), OpenWindows::only(WindowKey::FractalClock));
    }
    frame(&mut app, &clock, vec![MenuEvent::ToggleWindow(WindowKey::Settings)], vec![]);
    assert!(app.open_windows().settings);
    assert!(app.open_windows().fractal_clock);
    let before = app.open_windows();
    frame(&mut app, &env(None), vec![], vec![]);
    assert_eq!(app.open_windows(), before);
    let f = frame(&mut app, &env(None), vec![], vec![WindowId::FractalClock]);
    assert_eq!(f.shown, vec![WindowId::Settings, WindowId::FractalClock]);
    assert_eq!(app.open_windows(), OpenWindows::only(WindowKey::Settings));
}
