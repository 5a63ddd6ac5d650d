use druid_shell::application::Application;
use druid_shell::clipboard::{Clipboard, ClipboardFormat};
use druid_shell::idle::IdleQueue;
use druid_shell::menu::{HotKey, Menu};
use druid_shell::mouse::KeyModifiers;

#[test]
fn clipboard_is_always_empty() {
    Application::init();
    let mut c = Application::clipboard();
    c.put_string("hello");
    c.put_formats(&[ClipboardFormat { identifier: "text/plain", data: vec![1, 2] }]);
    assert_eq!(c.get_string(), None);
    assert_eq!(c.preferred_format(&["text/plain"]), None);
    assert_eq!(c.get_format("text/plain"), None);
    assert!(c.available_type_names().is_empty());
    assert_eq!(c, Clipboard);
    Application::quit();
}

#[test]
fn menu_accepts_everything() {
    let mut m = Menu::new();
    let key = HotKey { mods: KeyModifiers::none(), key: String::from("q") };
    m.add_item(1, "Quit", Some(&key), true, false);
    m.add_separator();
    m.add_dropdown(Menu::new_for_popup(), "Edit", true);
    assert_eq!(m, Menu);
}

#[test]
fn idle_queue_push_and_take() {
    let mut q: IdleQueue<u8> = IdleQueue::new();
    assert!(q.is_empty());
    assert!(q.push(1));
    assert!(!q.push(2));
    assert_eq!(q.len(), 2);
    assert_eq!(q.take_all(), vec![1, 2]);
    assert!(q.is_empty());
    assert!(q.push(3));
}
