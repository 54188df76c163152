use oxideos::widgets::Window;
use oxideos::window_manager::{Hit, WindowManager, WindowState, MAX_WINDOWS};

fn two_windows() -> (WindowManager, usize, usize) {
    let mut wm = WindowManager::new();
    let a = wm.add_window(Window::new(100, 100, 300, 200, "A")).unwrap();
    let b = wm.add_window(Window::new(200, 150, 300, 200, "B")).unwrap();
    (wm, a, b)
}

#[test]
fn windows_stack_in_the_order_they_come() {
    let (mut wm, a, b) = two_windows();
    assert_eq!((a, b), (0, 1));
    assert_eq!(wm.stacking_order(), vec![0, 1]);
    assert_eq!(wm.get_focused(), Some(1));
    assert_eq!(wm.get_window(0).unwrap().title, "A");
    assert!(wm.get_window(2).is_none());
    assert!(wm.get_window(MAX_WINDOWS).is_none());
    assert_eq!(wm.window_state(1), Some(WindowState::Normal));
    assert_eq!(wm.window_state(16), None);
    wm.bring_to_front(0);
    assert_eq!(wm.stacking_order(), vec![1, 0]);
    assert_eq!(wm.get_focused(), Some(0));
    wm.bring_to_front(0);
    wm.bring_to_front(5);
    wm.bring_to_front(99);
    assert_eq!(wm.stacking_order(), vec![1, 0]);
}

#[test]
fn manager_holds_sixteen_windows() {
    let mut wm = WindowManager::new();
    for i in 0..MAX_WINDOWS {
        assert_eq!(wm.add_window(Window::new(10, 50, 100, 100, "w")), Some(i));
    }
    assert_eq!(wm.add_window(Window::new(10, 50, 100, 100, "w")), None);
    wm.remove_window(3);
    assert_eq!(wm.add_window(Window::new(10, 50, 100, 100, "again")), Some(3));
    assert_eq!(wm.stacking_order().last(), Some(&3));
    assert_eq!(wm.stacking_order().len(), 16);
}

#[test]
fn removing_a_window_passes_the_focus_on() {
    let (mut wm, a, b) = two_windows();
    wm.remove_window(b);
    assert!(wm.get_window(b).is_none());
    assert_eq!(wm.stacking_order(), vec![a]);
    assert_eq!(wm.get_focused(), Some(a));
    wm.remove_window(b);
    wm.remove_window(77);
    assert_eq!(wm.stacking_order(), vec![a]);
    wm.remove_window(a);
    assert_eq!(wm.stacking_order(), Vec::<usize>::new());
    assert_eq!(wm.get_focused(), None);
}

#[test]
fn minimize_and_restore() {
    let (mut wm, a, b) = two_windows();
    wm.minimize_window(b);
    assert_eq!(wm.window_state(b), Some(WindowState::Minimized));
    assert_eq!(wm.get_focused(), Some(a));
    wm.minimize_window(a);
    assert_eq!(wm.get_focused(), None);
    wm.restore_window(a);
    assert_eq!(wm.window_state(a), Some(WindowState::Normal));
    assert_eq!(wm.stacking_order(), vec![b, a]);
    assert_eq!(wm.get_focused(), Some(a));
    wm.restore_window(a);
    wm.restore_window(40);
    assert_eq!(wm.stacking_order(), vec![b, a]);
}

#[test]
fn maximize_toggles() {
    let (mut wm, a, _) = two_windows();
    wm.set_screen_dimensions(1024, 768);
    wm.maximize_window(a);
    let w = *wm.get_window(a).unwrap();
    assert_eq!((w.x, w.y, w.width, w.height), (0, 40, 1024, 728));
    assert_eq!(wm.window_state(a), Some(WindowState::Maximized));
    wm.maximize_window(a);
    let w = *wm.get_window(a).unwrap();
    assert_eq!((w.x, w.y, w.width, w.height), (100, 100, 300, 200));
    assert_eq!(wm.window_state(a), Some(WindowState::Normal));
    wm.maximize_window(a);
    wm.restore_window(a);
    assert_eq!(wm.get_window(a).unwrap().width, 300);
    wm.maximize_window(9);
    wm.maximize_window(99);
}

#[test]
fn hit_test_prefers_the_buttons() {
    let w = Window::new(100, 100, 300, 200, "A");
    assert_eq!(WindowManager::hit_test(&w, 380, 110), Some(Hit::Close));
    assert_eq!(WindowManager::hit_test(&w, 355, 110), Some(Hit::Maximize));
    assert_eq!(WindowManager::hit_test(&w, 330, 110), Some(Hit::Minimize));
    assert_eq!(WindowManager::hit_test(&w, 110, 110), Some(Hit::Titlebar));
    assert_eq!(WindowManager::hit_test(&w, 380, 102), Some(Hit::Titlebar));
    assert_eq!(WindowManager::hit_test(&w, 110, 130), Some(Hit::Body));
    assert_eq!(WindowManager::hit_test(&w, 399, 299), Some(Hit::Body));
    assert_eq!(WindowManager::hit_test(&w, 400, 299), None);
    assert_eq!(WindowManager::hit_test(&w, 99, 110), None);
    assert!(WindowManager::is_close_button_clicked(&w, 375, 105));
    assert!(!WindowManager::is_close_button_clicked(&w, 395, 105));
    assert!(WindowManager::is_maximize_button_clicked(&w, 350, 124));
    assert!(WindowManager::is_minimize_button_clicked(&w, 325, 105));
    assert!(!WindowManager::is_minimize_button_clicked(&w, 324, 105));
}

#[test]
fn clicks_go_to_the_topmost_window() {
    let (mut wm, a, b) = two_windows();
    assert!(!wm.handle_click(50, 500));
    assert!(wm.handle_click(250, 200));
    assert_eq!(wm.get_focused(), Some(b));
    assert_eq!(wm.stacking_order(), vec![a, b]);
    assert!(wm.handle_click(150, 200));
    assert_eq!(wm.stacking_order(), vec![b, a]);
    assert!(wm.handle_click(250, 200));
    assert_eq!(wm.stacking_order(), vec![b, a]);
    assert!(wm.handle_click(450, 300));
    assert_eq!(wm.stacking_order(), vec![a, b]);
    assert!(!wm.is_dragging());
}

#[test]
fn title_bar_click_starts_a_drag() {
    let (mut wm, _, b) = two_windows();
    assert!(wm.handle_click(230, 160));
    assert!(wm.is_dragging());
    wm.handle_drag(430, 260);
    let w = *wm.get_window(b).unwrap();
    assert_eq!((w.x, w.y), (400, 250));
    wm.handle_drag(10, 20);
    let w = *wm.get_window(b).unwrap();
    assert_eq!((w.x, w.y), (0, 40));
    wm.release_drag();
    assert!(!wm.is_dragging());
    wm.handle_drag(500, 500);
    assert_eq!(wm.get_window(b).unwrap().x, 0);
    wm.release_drag();
}

#[test]
fn control_buttons_act_on_their_window() {
    let (mut wm, a, b) = two_windows();
    assert!(wm.handle_click(430, 160));
    assert_eq!(wm.window_state(b), Some(WindowState::Minimized));
    assert_eq!(wm.get_focused(), Some(a));
    assert!(wm.handle_click(355, 110));
    assert_eq!(wm.window_state(a), Some(WindowState::Maximized));
    assert!(wm.handle_click(100, 50));
    assert!(!wm.is_dragging());
    assert!(wm.handle_click(1280 - 20, 50));
    assert!(wm.get_window(a).is_none());
    assert!(!wm.handle_click(300, 300));
    assert_eq!(wm.stacking_order(), vec![b]);
}

#[test]
fn hidden_windows_are_clicked_through() {
    let mut wm = WindowManager::new();
    let a = wm.add_window(Window::new(100, 100, 300, 200, "A")).unwrap();
    let mut hidden = Window::new(100, 100, 300, 200, "B");
    hidden.close();
    let b = wm.add_window(hidden).unwrap();
    assert!(wm.handle_click(380, 110));
    assert!(wm.get_window(a).is_none());
    assert!(wm.get_window(b).is_some());
    assert!(!wm.handle_click(380, 110));
}

#[test]
fn task_bar_items_toggle_their_windows() {
    let (mut wm, a, b) = two_windows();
    assert!(!wm.handle_click(50, 10));
    assert!(!wm.handle_click(252, 10));
    assert!(!wm.handle_click(410, 10));
    assert!(wm.handle_click(100, 10));
    assert_eq!(wm.stacking_order(), vec![b, a]);
    assert_eq!(wm.get_focused(), Some(a));
    assert!(wm.handle_click(404, 39));
    assert_eq!(wm.window_state(a), Some(WindowState::Minimized));
    assert_eq!(wm.get_focused(), Some(b));
    assert!(wm.handle_click(255, 0));
    assert_eq!(wm.window_state(a), Some(WindowState::Normal));
    assert_eq!(wm.get_focused(), Some(b));
    assert_eq!(wm.stacking_order(), vec![b, a]);
    assert!(wm.handle_click(249, 20));
    assert_eq!(wm.window_state(b), Some(WindowState::Minimized));
    assert_eq!(wm.get_focused(), Some(a));
    assert_eq!(wm.stacking_order(), vec![b, a]);
    assert!(wm.handle_click(100, 20));
    assert_eq!(wm.window_state(b), Some(WindowState::Normal));
    assert_eq!(wm.stacking_order(), vec![a, b]);
    assert_eq!(wm.get_focused(), Some(b));
}

#[test]
fn window_can_be_changed_in_its_slot() {
    let (mut wm, a, b) = two_windows();
    let before = *wm.get_window(b).unwrap();
    let window = wm.get_window_mut(a).unwrap();
    window.title = "renamed";
    window.x = 7;
    assert_eq!(wm.get_window(a).unwrap().title, "renamed");
    assert_eq!(wm.get_window(a).unwrap().x, 7);
    let after = *wm.get_window(b).unwrap();
    assert_eq!((after.x, after.y, after.width, after.height), (before.x, before.y, before.width, before.height));
    assert_eq!(after.title, before.title);
    assert!(wm.get_window_mut(5).is_none());
    assert!(wm.get_window_mut(16).is_none());
    assert!(wm.get_window(5).is_none());
}
