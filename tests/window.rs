use druid_shell::error::Error;
use druid_shell::menu::Menu;
use druid_shell::mouse::{Cursor, KeyModifiers, MouseButton, Point, PointerEvent, Size};
use druid_shell::timer::TimerToken;
use druid_shell::window::{Effect, IdleHandle, Platform, WindowBuilder, WindowHandle, ACTION_DOWN, ACTION_UP};

struct Recorder;

fn attached() -> Platform<u32> {
    let mut p: Platform<u32> = Platform::new();
    p.attach();
    p
}

fn built(p: &mut Platform<u32>) -> WindowHandle {
    let mut b = WindowBuilder::new();
    b.set_handler(Recorder);
    let w = b.build(p).ok().expect("build");
    w.handle
}

fn pointer(count: u32) -> PointerEvent {
    PointerEvent { button: MouseButton::Left, count, mods: KeyModifiers { shift: false, alt: false, ctrl: false, meta: false } }
}

#[test]
fn build_without_size_connects_and_invalidates() {
    let mut p = attached();
    let mut b = WindowBuilder::new();
    b.set_handler(Recorder);
    b.set_size(Size { width: 10, height: 20 });
    b.set_title("title");
    b.set_menu(Menu::new());
    let w = b.build(&mut p).ok().expect("build");
    assert_eq!(w.handle, WindowHandle { id: 0 });
    assert_eq!(w.effects, vec![Effect::Connect(w.handle), Effect::Connected, Effect::Invalidate]);
    assert_eq!(p.current_window(), Some(w.handle));
}

#[test]
fn size_before_build_is_replayed_once() {
    let mut p = attached();
    assert!(p.on_size_changed(100, 200).is_empty());
    assert!(p.on_size_changed(300, 400).is_empty());
    let mut b = WindowBuilder::new();
    b.set_handler(Recorder);
    let w = b.build(&mut p).ok().expect("build");
    assert_eq!(
        w.effects,
        vec![Effect::Connect(w.handle), Effect::Connected, Effect::Size { width: 300, height: 400 }, Effect::Invalidate]
    );
    // A second window does not see the size again.
    let mut b2 = WindowBuilder::new();
    b2.set_handler(Recorder);
    let w2 = b2.build(&mut p).ok().expect("build");
    assert_eq!(w2.effects, vec![Effect::Connect(WindowHandle { id: 1 }), Effect::Connected, Effect::Invalidate]);
}

#[test]
fn size_after_build_goes_to_handler() {
    let mut p = attached();
    built(&mut p);
    assert_eq!(p.on_size_changed(640, 480), vec![Effect::Size { width: 640, height: 480 }]);
}

#[test]
fn build_fails_when_not_attached() {
    let mut p: Platform<u32> = Platform::new();
    let mut b = WindowBuilder::new();
    b.set_handler(Recorder);
    assert_eq!(b.build(&mut p).err(), Some(Error));
    assert_eq!(p.current_window(), None);
}

#[test]
fn build_fails_without_handler() {
    let mut p = attached();
    let b: WindowBuilder<Recorder> = WindowBuilder::new();
    assert_eq!(b.build(&mut p).err(), Some(Error));
    assert_eq!(p.current_window(), None);
}

#[test]
fn error_message() {
    assert_eq!(Error.message(), "Android Error");
}

#[test]
fn events_before_build_are_dropped() {
    let mut p = attached();
    assert!(p.on_draw().is_empty());
    assert!(p.on_timer(3).is_empty());
    assert!(p.on_idle().is_empty());
    let (calls, handled) = p.on_touch_event(ACTION_DOWN);
    assert!(calls.is_empty());
    assert!(handled);
}

#[test]
fn paint_and_timer_dispatch() {
    let mut p = attached();
    built(&mut p);
    assert_eq!(p.on_draw(), vec![Effect::Paint]);
    assert_eq!(p.on_timer(7), vec![Effect::Timer(TimerToken::new(7))]);
    assert!(p.on_key_pre_ime(4).is_empty());
}

#[test]
fn touch_down_other_up() {
    let mut p = attached();
    built(&mut p);
    let (down, h1) = p.on_touch_event(ACTION_DOWN);
    let (moved, h2) = p.on_touch_event(2);
    let (cancel, h3) = p.on_touch_event(3);
    let (up, h4) = p.on_touch_event(ACTION_UP);
    assert_eq!(down, vec![Effect::MouseDown(pointer(1))]);
    assert!(moved.is_empty());
    assert!(cancel.is_empty());
    assert_eq!(up, vec![Effect::MouseUp(pointer(0))]);
    assert!(h1 && h2 && h3 && h4);
}

#[test]
fn add_idle_coalesces_wake_requests() {
    let mut p = attached();
    let h = built(&mut p);
    let idle = h.get_idle_handle().expect("idle handle");
    assert_eq!(idle.add_idle(&mut p, 1), vec![Effect::RequestIdle]);
    assert!(idle.add_idle(&mut p, 2).is_empty());
    assert!(idle.add_idle(&mut p, 3).is_empty());
    assert_eq!(p.on_idle(), vec![Effect::RunIdle(1), Effect::RunIdle(2), Effect::RunIdle(3)]);
    // The queue is empty again: the next callback wakes once more.
    assert_eq!(idle.add_idle(&mut p, 4), vec![Effect::RequestIdle]);
    assert_eq!(p.on_idle(), vec![Effect::RunIdle(4)]);
    assert!(p.on_idle().is_empty());
}

#[test]
fn idle_enqueued_during_flush_waits_for_next_flush() {
    let mut p = attached();
    let h = built(&mut p);
    let idle = h.get_idle_handle().expect("idle handle");
    idle.add_idle(&mut p, 10);
    idle.add_idle(&mut p, 11);
    let flushed = p.on_idle();
    // A callback of this flush queues more work.
    assert_eq!(idle.add_idle(&mut p, 12), vec![Effect::RequestIdle]);
    assert_eq!(flushed, vec![Effect::RunIdle(10), Effect::RunIdle(11)]);
    assert_eq!(p.on_idle(), vec![Effect::RunIdle(12)]);
}

#[test]
fn add_idle_after_teardown_is_ignored() {
    let mut p = attached();
    let h = built(&mut p);
    let idle = h.get_idle_handle().expect("idle handle");
    p.teardown();
    assert!(idle.add_idle(&mut p, 1).is_empty());
    assert!(idle.add_idle(&mut p, 2).is_empty());
    assert!(p.on_idle().is_empty());
    assert_eq!(p.current_window(), None);
}

#[test]
fn add_idle_through_replaced_window_is_ignored() {
    let mut p = attached();
    let old = built(&mut p);
    let stale = old.get_idle_handle().expect("idle handle");
    let new = built(&mut p);
    assert_ne!(old, new);
    assert!(stale.add_idle(&mut p, 5).is_empty());
    assert!(p.on_idle().is_empty());
    let fresh = IdleHandle { window: new.id };
    assert_eq!(fresh.add_idle(&mut p, 6), vec![Effect::RequestIdle]);
}

#[test]
fn request_timer_tokens_and_delays() {
    let mut p = attached();
    built(&mut p);
    assert!(p.can_request_timer());
    let (t1, e1) = p.request_timer(1_500, 1_000);
    let (t2, e2) = p.request_timer(900, 1_000);
    let (t3, e3) = p.request_timer(1_000, 1_000);
    assert_eq!(t1.get_raw(), 1);
    assert_eq!(t2.get_raw(), 2);
    assert_eq!(t3.get_raw(), 3);
    assert_eq!(e1, Effect::PostTimer { token: 1, delay_ms: 500 });
    assert_eq!(e2, Effect::PostTimer { token: 2, delay_ms: 0 });
    assert_eq!(e3, Effect::PostTimer { token: 3, delay_ms: 0 });
}

#[test]
fn handle_operations_without_native_support_are_no_ops() {
    let mut p = attached();
    let h = built(&mut p);
    for _ in 0..3 {
        h.set_title("a title");
        h.set_menu(Menu::new());
        h.set_cursor(&Cursor::IBeam);
        h.show_context_menu(Menu::new_for_popup(), Point { x: 1, y: 2 });
        h.show();
        h.bring_to_front_and_focus();
        h.close();
    }
    // No request reached the platform: nothing is queued, nothing pending.
    assert!(p.on_idle().is_empty());
    assert_eq!(p.current_window(), Some(h));
    assert_eq!(h.invalidate::<u32>(), Effect::Invalidate);
}
