use tray_menu::event::{WM_COMMAND, WM_DESTROY, WM_LBUTTONDBLCLK, WM_LBUTTONUP, WM_RBUTTONUP, WM_USER_TRAY_ICON};
use tray_menu::{
    decode_message, encode_wide, ClickType, CompiledMenu, EventHook, Menu, MenuItem, NativeEvent,
    Reaction, SharedTrayState, TrayEvent, TrayIconBuilder, LOWORD,
};

fn sample_menu() -> Menu<i32> {
    Menu::new(vec![
        MenuItem::button("A", 1),
        MenuItem::separator(),
        MenuItem::menu("B", vec![MenuItem::button("C", 2)]),
    ])
}

fn state_with(menu: Option<Menu<i32>>) -> SharedTrayState<i32> {
    let mut builder = TrayIconBuilder::new();
    if let Some(m) = menu {
        builder = builder.with_menu(m);
    }
    SharedTrayState::from_builder(builder).unwrap()
}

fn button_id(item: &MenuItem<u16>) -> Option<u16> {
    match item {
        MenuItem::Button { signal, .. } => Some(*signal),
        _ => None,
    }
}

#[test]
fn scenario_preorder_ids() {
    let c = CompiledMenu::compile(sample_menu()).unwrap();
    assert_eq!(c.layout.len(), 3);
    match &c.layout[0] {
        MenuItem::Button { name, signal, checked } => {
            assert_eq!(name, "A");
            assert_eq!(*signal, 1);
            assert!(!checked);
        }
        _ => panic!("expected a button"),
    }
    assert!(matches!(c.layout[1], MenuItem::Separator));
    match &c.layout[2] {
        MenuItem::Menu { name, children } => {
            assert_eq!(name, "B");
            assert_eq!(children.len(), 1);
            match &children[0] {
                MenuItem::Button { name, signal, .. } => {
                    assert_eq!(name, "C");
                    assert_eq!(*signal, 2);
                }
                _ => panic!("expected a button"),
            }
        }
        _ => panic!("expected a submenu"),
    }
    assert_eq!(c.signals, vec![1, 2]);
    assert_eq!(c.lookup(1), Some(&1));
    assert_eq!(c.lookup(2), Some(&2));
}

#[test]
fn scenario_selecting_buttons_invokes_callback() {
    let state = state_with(Some(sample_menu()));
    let mut hook = EventHook::new();
    match hook.handle(&state, NativeEvent::Command(1)) {
        Reaction::Invoke { event, popup } => {
            assert_eq!(event, TrayEvent::Menu(&1));
            assert!(!popup);
        }
        other => panic!("unexpected reaction {:?}", other),
    }
    match hook.handle(&state, NativeEvent::Command(2)) {
        Reaction::Invoke { event, popup } => {
            assert_eq!(event, TrayEvent::Menu(&2));
            assert!(!popup);
        }
        other => panic!("unexpected reaction {:?}", other),
    }
}

#[test]
fn round_trip_nested_signals() {
    let menu = Menu::new(vec![
        MenuItem::menu(
            "outer",
            vec![
                MenuItem::button("x", "sx".to_string()),
                MenuItem::menu("inner", vec![MenuItem::separator(), MenuItem::button("y", "sy".to_string())]),
            ],
        ),
        MenuItem::button("z", "sz".to_string()),
    ]);
    let c = CompiledMenu::compile(menu).unwrap();
    assert_eq!(c.lookup(1).map(|s| s.as_str()), Some("sx"));
    assert_eq!(c.lookup(2).map(|s| s.as_str()), Some("sy"));
    assert_eq!(c.lookup(3).map(|s| s.as_str()), Some("sz"));
    assert_eq!(c.lookup(4), None);
    assert_eq!(button_id(&c.layout[1]), Some(3));
}

#[test]
fn equal_menus_compile_alike() {
    let a = CompiledMenu::compile(sample_menu()).unwrap();
    let b = CompiledMenu::compile(sample_menu()).unwrap();
    assert_eq!(a.signals, b.signals);
    for id in 0..5u16 {
        assert_eq!(a.lookup(id), b.lookup(id));
    }
    assert_eq!(button_id(&a.layout[0]), button_id(&b.layout[0]));
}

#[test]
fn separators_and_submenus_take_no_id() {
    let menu = Menu::new(vec![
        MenuItem::separator(),
        MenuItem::menu("empty", vec![]),
        MenuItem::separator(),
        MenuItem::button("only", 7),
    ]);
    let c = CompiledMenu::compile(menu).unwrap();
    assert_eq!(c.signals, vec![7]);
    assert_eq!(button_id(&c.layout[3]), Some(1));
    assert_eq!(c.lookup(0), None);
    assert_eq!(c.lookup(1), Some(&7));
    assert_eq!(c.lookup(2), None);
}

#[test]
fn empty_menu_has_empty_table() {
    let c = CompiledMenu::compile(Menu::<i32>::new(vec![])).unwrap();
    assert!(c.layout.is_empty());
    assert!(c.signals.is_empty());
    assert_eq!(c.lookup(1), None);
}

fn wide_menu(groups: usize) -> Menu<u32> {
    let mut items = Vec::new();
    for g in 0..groups {
        let children = (0..256u32).map(|k| MenuItem::button("b", g as u32 * 256 + k)).collect();
        items.push(MenuItem::menu("g", children));
    }
    Menu::new(items)
}

#[test]
fn largest_menu_fits_and_one_more_does_not() {
    let mut menu = wide_menu(256);
    // 65536 buttons: one more than there are identifiers.
    assert!(CompiledMenu::compile(menu).is_none());
    menu = wide_menu(255);
    let mut last: Vec<MenuItem<u32>> = (0..255u32).map(|k| MenuItem::button("b", 255 * 256 + k)).collect();
    last.insert(0, MenuItem::separator());
    menu.items.push(MenuItem::menu("last", last));
    let c = CompiledMenu::compile(menu).unwrap();
    assert_eq!(c.signals.len(), 65535);
    assert_eq!(c.lookup(65535), Some(&(255 * 256 + 254)));
}

#[test]
fn set_tooltip_twice_and_clear() {
    let mut state = state_with(None);
    assert_eq!(state.tooltip_text(), "");
    state.set_tooltip(Some("x"));
    state.set_tooltip(Some("x"));
    assert_eq!(state.tooltip.as_deref(), Some("x"));
    assert_eq!(state.tooltip_text(), "x");
    state.set_tooltip(None);
    assert_eq!(state.tooltip, None);
    assert_eq!(state.tooltip_text(), "");
}

#[test]
fn builder_replaces_values() {
    let b = TrayIconBuilder::<i32>::new().with_tooltip("one").with_tooltip("two");
    assert_eq!(b.tooltip.as_deref(), Some("two"));
    assert!(b.menu.is_none());
    let b = b.with_menu(Menu::new(vec![MenuItem::button("a", 1)])).with_menu(sample_menu());
    assert_eq!(b.menu.as_ref().unwrap().items.len(), 3);
    let state = SharedTrayState::from_builder(b).unwrap();
    assert_eq!(state.tooltip_text(), "two");
    assert_eq!(state.menu.as_ref().unwrap().signals, vec![1, 2]);
}

#[test]
fn set_menu_replaces_table() {
    let mut state = state_with(Some(sample_menu()));
    assert!(state.set_menu(Some(Menu::new(vec![MenuItem::button("n", 9)]))));
    assert_eq!(state.menu.as_ref().unwrap().lookup(1), Some(&9));
    assert_eq!(state.menu.as_ref().unwrap().lookup(2), None);
    assert!(state.set_menu(None));
    assert!(state.menu.is_none());
}

#[test]
fn unknown_id_is_ignored() {
    let state = state_with(Some(sample_menu()));
    let mut hook = EventHook::new();
    assert!(matches!(hook.handle(&state, NativeEvent::Command(3)), Reaction::Nothing));
    assert!(matches!(hook.handle(&state, NativeEvent::Command(0)), Reaction::Nothing));
    let empty = state_with(None);
    assert!(matches!(hook.handle(&empty, NativeEvent::Command(1)), Reaction::Nothing));
    assert!(!hook.finished);
}

#[test]
fn click_routing() {
    let with_menu = state_with(Some(sample_menu()));
    let without = state_with(None);
    let mut hook = EventHook::new();
    match hook.handle(&with_menu, NativeEvent::Click(ClickType::Right)) {
        Reaction::Invoke { event, popup } => {
            assert_eq!(event, TrayEvent::Tray(ClickType::Right));
            assert!(popup);
        }
        other => panic!("unexpected reaction {:?}", other),
    }
    match hook.handle(&without, NativeEvent::Click(ClickType::Right)) {
        Reaction::Invoke { event, popup } => {
            assert_eq!(event, TrayEvent::Tray(ClickType::Right));
            assert!(!popup);
        }
        other => panic!("unexpected reaction {:?}", other),
    }
    for click in [ClickType::Left, ClickType::Double] {
        match hook.handle(&with_menu, NativeEvent::Click(click)) {
            Reaction::Invoke { event, popup } => {
                assert_eq!(event, TrayEvent::Tray(click));
                assert!(!popup);
            }
            other => panic!("unexpected reaction {:?}", other),
        }
    }
}

#[test]
fn teardown_releases_once() {
    let state = state_with(Some(sample_menu()));
    let mut hook = EventHook::new();
    assert!(matches!(hook.handle(&state, NativeEvent::Command(1)), Reaction::Invoke { .. }));
    assert!(matches!(hook.handle(&state, NativeEvent::Destroyed), Reaction::Release));
    assert!(hook.finished);
    assert!(matches!(hook.handle(&state, NativeEvent::Command(1)), Reaction::Nothing));
    assert!(matches!(hook.handle(&state, NativeEvent::Click(ClickType::Right)), Reaction::Nothing));
    assert!(matches!(hook.handle(&state, NativeEvent::Destroyed), Reaction::Nothing));
}

#[test]
fn decode_raw_messages() {
    assert_eq!(decode_message(WM_DESTROY, 0, 0), NativeEvent::Destroyed);
    assert_eq!(decode_message(WM_COMMAND, 0x0003_0002, 0), NativeEvent::Command(2));
    assert_eq!(decode_message(WM_USER_TRAY_ICON, 0, WM_LBUTTONUP as isize), NativeEvent::Click(ClickType::Left));
    assert_eq!(decode_message(WM_USER_TRAY_ICON, 0, WM_RBUTTONUP as isize), NativeEvent::Click(ClickType::Right));
    assert_eq!(decode_message(WM_USER_TRAY_ICON, 0, WM_LBUTTONDBLCLK as isize), NativeEvent::Click(ClickType::Double));
    assert_eq!(decode_message(WM_USER_TRAY_ICON, 0, 0x0200), NativeEvent::Other);
    assert_eq!(decode_message(0x0400, 0, 0), NativeEvent::Other);
}

#[test]
fn click_type_from_lparam() {
    assert_eq!(ClickType::from_lparam(0x0202), Some(ClickType::Left));
    assert_eq!(ClickType::from_lparam(0x0205), Some(ClickType::Right));
    assert_eq!(ClickType::from_lparam(0x0203), Some(ClickType::Double));
    assert_eq!(ClickType::from_lparam(0x0201), None);
}

#[test]
fn loword_takes_low_bits() {
    assert_eq!(LOWORD(0x1234_5678), 0x5678);
    assert_eq!(LOWORD(0xFFFF), 0xFFFF);
    assert_eq!(LOWORD(0x0001_0000), 0);
}

#[test]
fn encode_wide_appends_zero() {
    assert_eq!(encode_wide(""), vec![0]);
    assert_eq!(encode_wide("ab"), vec![0x61, 0x62, 0]);
    assert_eq!(encode_wide("a\u{e9}\u{1F600}"), vec![0x61, 0xE9, 0xD83D, 0xDE00, 0]);
}
