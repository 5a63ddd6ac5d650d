use vstd::prelude::*;
use crate::error::Error;
use crate::idle::{enqueue_step, IdleQueue};
use crate::menu::Menu;
use crate::mouse::{touch_pointer, Cursor, KeyModifiers, MouseButton, Point, PointerEvent, Size};
use crate::timer::{delay_spec, issued_ids, lemma_timer_ids_increase, timer_delay, TimerIds, TimerToken, FIRST_TIMER_ID};

verus! {

/// The native action code of a touch that starts.
pub const ACTION_DOWN: i32 = 0;

/// The native action code of a touch that ends.
pub const ACTION_UP: i32 = 1;

/// One step that the native layer carries out after an entry point returns,
/// in the order given: a call of the application handler, or a request to the
/// native platform.
#[derive(Clone, Debug, PartialEq, Eq)]
pub enum Effect<T> {
    /// The handler receives the handle of its new window.
    Connect(WindowHandle),
    /// The handler's "connected" notification.
    Connected,
    /// The handler's size hook.
    Size { width: u32, height: u32 },
    /// The handler's paint hook, with the native canvas wrapped for drawing.
    Paint,
    /// The handler's timer hook.
    Timer(TimerToken),
    /// The handler's button-down hook; the native layer adds the position.
    MouseDown(PointerEvent),
    /// The handler's button-up hook; the native layer adds the position.
    MouseUp(PointerEvent),
    /// Runs one idle callback against the handler.
    RunIdle(T),
    /// Asks the native scheduler for an idle notification.
    RequestIdle,
    /// Asks the native view for a full redraw.
    Invalidate,
    /// Asks the native scheduler to deliver a timer firing with `token`
    /// after `delay_ms` milliseconds.
    PostTimer { token: i32, delay_ms: u64 },
}

/// A cloneable reference to a window of a `Platform`.
#[derive(Clone, Copy, Debug, PartialEq, Eq, Structural)]
pub struct WindowHandle {
    pub id: u64,
}

/// A reference to the idle queue of one window, which may outlive it.
#[derive(Clone, Copy, Debug, PartialEq, Eq, Structural)]
pub struct IdleHandle {
    pub window: u64,
}

/// What the contracts of `Platform` speak of.
pub struct PlatformView<T> {
    /// The native resources were registered.
    pub attached: bool,
    /// The current window, if one is registered.
    pub window: Option<u64>,
    /// The idle queue of the current window, oldest first.
    pub idle: Seq<T>,
    /// A size reported while no window was registered.
    pub pending_size: Option<(i32, i32)>,
    /// The next timer identifier.
    pub next_timer: int,
    /// The identifier that the next window gets.
    pub next_window: u64,
}

/// The handler calls of an idle flush: one per callback, in queue order.
pub open spec fn flush_effects<T>(q: Seq<T>) -> Seq<Effect<T>> {
    q.map_values(|cb: T| Effect::RunIdle(cb))
}

/// The handler call that a native touch action gives, if any.
pub open spec fn touch_effects<T>(action: i32) -> Seq<Effect<T>> {
    if action == ACTION_DOWN {
        seq![Effect::MouseDown(touch_pointer(1))]
    } else if action == ACTION_UP {
        seq![Effect::MouseUp(touch_pointer(0))]
    } else {
        Seq::empty()
    }
}

/// The handler calls of a run of touch actions, in order.
pub open spec fn touch_effects_all<T>(actions: Seq<i32>) -> Seq<Effect<T>>
    decreases actions.len(),
{
    if actions.len() == 0 {
        Seq::empty()
    } else {
        touch_effects::<T>(actions[0]) + touch_effects_all::<T>(actions.drop_first())
    }
}

/// The size hook call for a native size.
pub open spec fn size_effect<T>(width: i32, height: i32) -> Effect<T> {
    Effect::Size { width: width as u32, height: height as u32 }
}

/// What a successful build hands over, in order: the handle, the connected
/// notification, the replay of a buffered size, and the first redraw request.
pub open spec fn build_effects<T>(handle: WindowHandle, pending: Option<(i32, i32)>) -> Seq<Effect<T>> {
    match pending {
        Some((w, h)) => seq![
            Effect::Connect(handle),
            Effect::Connected,
            size_effect(w, h),
            Effect::Invalidate,
        ],
        None => seq![Effect::Connect(handle), Effect::Connected, Effect::Invalidate],
    }
}

impl<T> PlatformView<T> {
    pub open spec fn add_idle(self, window: u64, callback: T) -> (PlatformView<T>, Seq<Effect<T>>) {
        if self.window == Some(window) {
            let (q, wake) = enqueue_step(self.idle, callback);
            (
                PlatformView { idle: q, ..self },
                if wake { seq![Effect::RequestIdle] } else { Seq::empty() },
            )
        } else {
            (self, Seq::empty())
        }
    }

    pub open spec fn flush(self) -> (PlatformView<T>, Seq<Effect<T>>) {
        if self.window.is_some() {
            (PlatformView { idle: Seq::empty(), ..self }, flush_effects(self.idle))
        } else {
            (self, Seq::empty())
        }
    }

    pub open spec fn timer_fired(self, token_id: i32) -> Seq<Effect<T>> {
        if self.window.is_some() {
            seq![Effect::Timer(TimerToken { id: token_id as u64 })]
        } else {
            Seq::empty()
        }
    }

    pub open spec fn paint(self) -> Seq<Effect<T>> {
        if self.window.is_some() {
            seq![Effect::Paint]
        } else {
            Seq::empty()
        }
    }

    pub open spec fn touch(self, action: i32) -> Seq<Effect<T>> {
        if self.window.is_some() {
            touch_effects(action)
        } else {
            Seq::empty()
        }
    }

    pub open spec fn size_changed(self, width: i32, height: i32) -> (PlatformView<T>, Seq<Effect<T>>) {
        if self.window.is_some() {
            (self, seq![size_effect(width, height)])
        } else {
            (PlatformView { pending_size: Some((width, height)), ..self }, Seq::empty())
        }
    }

    /// Whether `build` succeeds with a handler given.
    pub open spec fn can_build(self) -> bool {
        self.attached && self.next_window < u64::MAX
    }

    /// The state after a successful build, and what it hands over.
    pub open spec fn build(self) -> (PlatformView<T>, WindowHandle, Seq<Effect<T>>) {
        let handle = WindowHandle { id: self.next_window };
        (
            PlatformView {
                window: Some(self.next_window),
                idle: Seq::empty(),
                pending_size: None,
                next_window: (self.next_window + 1) as u64,
                ..self
            },
            handle,
            build_effects(handle, self.pending_size),
        )
    }

    pub open spec fn teardown(self) -> PlatformView<T> {
        PlatformView { window: None, idle: Seq::empty(), ..self }
    }

    /// The token and native request of a timer for `deadline_ms`.
    pub open spec fn request_timer(self, deadline_ms: u64, now_ms: u64) -> (PlatformView<T>, TimerToken, Effect<T>) {
        (
            PlatformView { next_timer: self.next_timer + 1, ..self },
            TimerToken { id: self.next_timer as u64 },
            Effect::PostTimer { token: self.next_timer as i32, delay_ms: delay_spec(deadline_ms, now_ms) },
        )
    }
}

struct WindowState<T> {
    id: u64,
    idle: IdleQueue<T>,
}

/// The windowing state of one native event-dispatch thread: the registered
/// native resources, the current window with its idle queue, a size buffered
/// before the window exists, and the timer identifiers. Each native entry
/// point is a method that returns the effects to carry out, in order.
pub struct Platform<T> {
    attached: bool,
    window: Option<WindowState<T>>,
    pending_size: Option<(i32, i32)>,
    timers: TimerIds,
    next_window: u64,
}

impl<T> View for Platform<T> {
    type V = PlatformView<T>;

    closed spec fn view(&self) -> PlatformView<T> {
        PlatformView {
            attached: self.attached,
            window: match self.window {
                Some(w) => Some(w.id),
                None => None,
            },
            idle: match self.window {
                Some(w) => w.idle.items_spec(),
                None => Seq::empty(),
            },
            pending_size: self.pending_size,
            next_timer: self.timers.next_spec(),
            next_window: self.next_window,
        }
    }
}

impl<T> Platform<T> {
    pub closed spec fn wf(&self) -> bool {
        &&& self.timers.wf()
        &&& match self.window {
            Some(w) => w.id < self.next_window,
            None => true,
        }
    }

    /// A platform with nothing registered yet.
    pub fn new() -> (r: Platform<T>)
        ensures
            r.wf(),
            r@.attached == false,
            r@.window.is_none(),
            r@.idle == Seq::<T>::empty(),
            r@.pending_size.is_none(),
            r@.next_timer == FIRST_TIMER_ID,
            r@.next_window == 0,
    {
        Platform {
            attached: false,
            window: None,
            pending_size: None,
            timers: TimerIds::new(),
            next_window: 0,
        }
    }

    /// Records that the native resources (context, view, scheduler) were
    /// registered, which windows need.
    pub fn attach(&mut self)
        requires
            old(self).wf(),
        ensures
            final(self).wf(),
            final(self)@ == (PlatformView { attached: true, ..old(self)@ }),
    {
        self.attached = true;
    }

    /// The current window, if one is registered.
    pub fn current_window(&self) -> (r: Option<WindowHandle>)
        ensures
            r == match self@.window {
                Some(id) => Some(WindowHandle { id }),
                None => None,
            },
    {
        match &self.window {
            Some(w) => Some(WindowHandle { id: w.id }),
            None => None,
        }
    }

    /// The native view went away: the current window and its idle queue are
    /// dropped.
    pub fn teardown(&mut self)
        requires
            old(self).wf(),
        ensures
            final(self).wf(),
            final(self)@ == old(self)@.teardown(),
    {
        self.window = None;
        assert(self@.idle =~= Seq::<T>::empty());
    }

    /// The native idle notification: runs every queued callback, oldest
    /// first, after swapping the queue out for an empty one.
    pub fn on_idle(&mut self) -> (r: Vec<Effect<T>>)
        requires
            old(self).wf(),
        ensures
            final(self).wf(),
            (final(self)@, r@) == old(self)@.flush(),
    {
        match &mut self.window {
            Some(w) => {
                let mut taken = w.idle.take_all();
                let ghost q = taken@;
                let mut out: Vec<Effect<T>> = Vec::new();
                while taken.len() > 0
                    invariant
                        out@ + taken@.map_values(|cb: T| Effect::RunIdle(cb)) =~= flush_effects(q),
                    decreases taken.len(),
                {
                    let ghost before = taken@;
                    let cb = taken.remove(0);
                    out.push(Effect::RunIdle(cb));
                    proof {
                        assert(before =~= seq![cb] + taken@);
                        assert(before.map_values(|cb: T| Effect::RunIdle(cb)) =~= seq![
                            Effect::RunIdle(cb),
                        ] + taken@.map_values(|cb: T| Effect::RunIdle(cb)));
                    }
                }
                assert(out@ =~= flush_effects(q));
                assert(self@ == old(self)@.flush().0);
                out
            },
            None => Vec::new(),
        }
    }

    /// The native timer notification for `token_id`.
    pub fn on_timer(&self, token_id: i32) -> (r: Vec<Effect<T>>)
        ensures
            r@ == self@.timer_fired(token_id),
    {
        if self.window.is_some() {
            let v = vec![Effect::Timer(TimerToken::new(token_id as u64))];
            assert(v@ =~= self@.timer_fired(token_id));
            v
        } else {
            Vec::new()
        }
    }

    /// The native draw notification.
    pub fn on_draw(&self) -> (r: Vec<Effect<T>>)
        ensures
            r@ == self@.paint(),
    {
        if self.window.is_some() {
            let v = vec![Effect::Paint];
            assert(v@ =~= self@.paint());
            v
        } else {
            Vec::new()
        }
    }

    /// The native touch notification with its action code. A touch that
    /// starts is a press of the primary button with count 1, one that ends a
    /// release with count 0; other actions call nothing. The touch counts as
    /// handled in every case.
    pub fn on_touch_event(&self, action: i32) -> (r: (Vec<Effect<T>>, bool))
        ensures
            r.0@ == self@.touch(action),
            r.1,
    {
        let mut v: Vec<Effect<T>> = Vec::new();
        if self.window.is_some() {
            let mods = KeyModifiers::none();
            if action == ACTION_DOWN {
                v.push(Effect::MouseDown(PointerEvent { button: MouseButton::Left, count: 1, mods }));
            } else if action == ACTION_UP {
                v.push(Effect::MouseUp(PointerEvent { button: MouseButton::Left, count: 0, mods }));
            }
        }
        assert(v@ =~= self@.touch(action));
        (v, true)
    }

    /// The native size notification: passed to the handler when a window is
    /// registered, else kept (the last one wins) for the next build.
    pub fn on_size_changed(&mut self, width: i32, height: i32) -> (r: Vec<Effect<T>>)
        requires
            old(self).wf(),
        ensures
            final(self).wf(),
            (final(self)@, r@) == old(self)@.size_changed(width, height),
    {
        if self.window.is_some() {
            let v = vec![Effect::Size { width: width as u32, height: height as u32 }];
            assert(v@ =~= old(self)@.size_changed(width, height).1);
            v
        } else {
            self.pending_size = Some((width, height));
            let v: Vec<Effect<T>> = Vec::new();
            assert(v@ =~= old(self)@.size_changed(width, height).1);
            v
        }
    }

    /// The native key notification before the input method sees it. Key
    /// input is not bridged: nothing is called.
    pub fn on_key_pre_ime(&self, keycode: i32) -> (r: Vec<Effect<T>>)
        ensures
            r@.len() == 0,
    {
        Vec::new()
    }

    /// Whether a further timer identifier fits the native encoding.
    pub fn can_request_timer(&self) -> (r: bool)
        requires
            self.wf(),
        ensures
            r == (self@.next_timer < i32::MAX),
    {
        self.timers.has_next()
    }

    /// Issues a timer token for `deadline_ms` and the request that has the
    /// native scheduler deliver it after `max(0, deadline_ms - now_ms)`
    /// milliseconds. A deadline in the past fires as soon as possible.
    pub fn request_timer(&mut self, deadline_ms: u64, now_ms: u64) -> (r: (TimerToken, Effect<T>))
        requires
            old(self).wf(),
            old(self)@.next_timer < i32::MAX,
        ensures
            final(self).wf(),
            (final(self)@, r.0, r.1) == old(self)@.request_timer(deadline_ms, now_ms),
    {
        let id = self.timers.next_timer_id();
        let delay_ms = timer_delay(deadline_ms, now_ms);
        (TimerToken::new(id as u64), Effect::PostTimer { token: id, delay_ms })
    }
}

impl WindowHandle {
    /// Windows are always shown on this backend.
    pub fn show(&self) {
    }

    /// The host platform closes the view.
    pub fn close(&self) {
    }

    /// The view is always in front.
    pub fn bring_to_front_and_focus(&self) {
    }

    /// A request for a full redraw of the window.
    pub fn invalidate<T>(&self) -> (r: Effect<T>)
        ensures
            r == Effect::<T>::Invalidate,
    {
        Effect::Invalidate
    }

    /// There is no title to set: accepted and ignored.
    pub fn set_title(&self, title: &str) {
    }

    /// There are no native menus: accepted and ignored.
    pub fn set_menu(&self, menu: Menu) {
    }

    /// There are no native menus: accepted and ignored.
    pub fn show_context_menu(&self, menu: Menu, pos: Point) {
    }

    /// There is no cursor to shape: accepted and ignored.
    pub fn set_cursor(&self, cursor: &Cursor) {
    }

    /// A handle on this window's idle queue.
    pub fn get_idle_handle(&self) -> (r: Option<IdleHandle>)
        ensures
            r == Some(IdleHandle { window: self.id }),
    {
        Some(IdleHandle { window: self.id })
    }
}

/// A window that `WindowBuilder::build` made: its handle, the handler, which
/// the native layer keeps to deliver effects to, and the effects to carry
/// out now.
pub struct NewWindow<H, T> {
    pub handle: WindowHandle,
    pub handler: H,
    pub effects: Vec<Effect<T>>,
}

/// Collects what a window is built from. Only the handler matters on this
/// backend; size, title and menu are accepted and ignored.
pub struct WindowBuilder<H> {
    handler: Option<H>,
}

impl<H> WindowBuilder<H> {
    /// The handler that `set_handler` installed last.
    pub closed spec fn handler_spec(&self) -> Option<H> {
        self.handler
    }

    pub fn new() -> (r: WindowBuilder<H>)
        ensures
            r.handler_spec().is_none(),
    {
        WindowBuilder { handler: None }
    }

    /// Sets the object that receives the callbacks of the window.
    pub fn set_handler(&mut self, handler: H)
        ensures
            final(self).handler_spec() == Some(handler),
    {
        self.handler = Some(handler);
    }

    /// The view always fills the screen: ignored.
    pub fn set_size(&mut self, size: Size)
        ensures
            final(self).handler_spec() == old(self).handler_spec(),
    {
    }

    /// A view has no title: ignored.
    pub fn set_title(&mut self, title: &str)
        ensures
            final(self).handler_spec() == old(self).handler_spec(),
    {
    }

    /// There are no native menus: ignored.
    pub fn set_menu(&mut self, menu: Menu)
        ensures
            final(self).handler_spec() == old(self).handler_spec(),
    {
    }

    /// Builds the window and registers it as the current one of `platform`,
    /// replacing any earlier window. The effects connect the handler, replay
    /// a size reported before the window existed (once; the buffer is then
    /// empty), and ask for the first redraw. Fails, changing nothing, when
    /// the native resources are not registered, when no handler was set, or
    /// when window identifiers are used up.
    pub fn build<T>(self, platform: &mut Platform<T>) -> (r: Result<NewWindow<H, T>, Error>)
        requires
            old(platform).wf(),
        ensures
            final(platform).wf(),
            r.is_ok() <==> (old(platform)@.can_build() && self.handler_spec().is_some()),
            r.is_err() ==> *final(platform) == *old(platform),
            r.is_ok() ==> ({
                let (v, handle, effects) = old(platform)@.build();
                &&& final(platform)@ == v
                &&& r.unwrap().handle == handle
                &&& r.unwrap().effects@ == effects
                &&& Some(r.unwrap().handler) == self.handler_spec()
            }),
    {
        if !platform.attached || platform.next_window == u64::MAX {
            return Err(Error);
        }
        match self.handler {
            None => Err(Error),
            Some(handler) => {
                let handle = WindowHandle { id: platform.next_window };
                let mut effects: Vec<Effect<T>> = Vec::new();
                effects.push(Effect::Connect(handle));
                effects.push(Effect::Connected);
                match platform.pending_size {
                    Some((w, h)) => {
                        effects.push(Effect::Size { width: w as u32, height: h as u32 });
                    },
                    None => {},
                }
                effects.push(handle.invalidate());
                let ghost before = platform@;
                platform.window = Some(WindowState { id: platform.next_window, idle: IdleQueue::new() });
                platform.pending_size = None;
                platform.next_window = platform.next_window + 1;
                assert(effects@ =~= before.build().2);
                assert(platform@.idle =~= before.build().0.idle);
                Ok(NewWindow { handle, handler, effects })
            },
        }
    }
}

impl IdleHandle {
    /// Queues `callback` on the window that this handle refers to. The first
    /// callback of an empty queue asks for an idle notification; later ones
    /// join it. Where that window is gone, nothing happens.
    pub fn add_idle<T>(&self, platform: &mut Platform<T>, callback: T) -> (r: Vec<Effect<T>>)
        requires
            old(platform).wf(),
        ensures
            final(platform).wf(),
            (final(platform)@, r@) == old(platform)@.add_idle(self.window, callback),
    {
        match &mut platform.window {
            Some(w) => {
                if w.id == self.window {
                    let wake = w.idle.push(callback);
                    if wake {
                        let v = vec![Effect::RequestIdle];
                        assert(v@ =~= old(platform)@.add_idle(self.window, callback).1);
                        v
                    } else {
                        let v: Vec<Effect<T>> = Vec::new();
                        assert(v@ =~= old(platform)@.add_idle(self.window, callback).1);
                        v
                    }
                } else {
                    Vec::new()
                }
            },
            None => Vec::new(),
        }
    }
}

/// The state and effects after `add_idle` of each of `callbacks` in turn,
/// through a handle on `window`.
pub open spec fn add_idle_all<T>(p: PlatformView<T>, window: u64, callbacks: Seq<T>) -> (PlatformView<T>, Seq<Effect<T>>)
    decreases callbacks.len(),
{
    if callbacks.len() == 0 {
        (p, Seq::empty())
    } else {
        let (p1, e1) = p.add_idle(window, callbacks[0]);
        let (p2, e2) = add_idle_all(p1, window, callbacks.drop_first());
        (p2, e1 + e2)
    }
}

/// A run of `add_idle` calls on a live window appends the callbacks in order
/// and asks for one idle notification if the queue was empty and the run is
/// not, for none otherwise: calls made while the queue is non-empty are
/// coalesced. On a window that is not current the run changes nothing.
pub proof fn lemma_add_idle_coalesces<T>(p: PlatformView<T>, window: u64, callbacks: Seq<T>)
    ensures
        p.window == Some(window) ==> {
            let (p2, e) = add_idle_all(p, window, callbacks);
            &&& p2 == (PlatformView { idle: p.idle + callbacks, ..p })
            &&& e == if p.idle.len() == 0 && callbacks.len() > 0 {
                seq![Effect::<T>::RequestIdle]
            } else {
                Seq::<Effect<T>>::empty()
            }
        },
        p.window != Some(window) ==> add_idle_all(p, window, callbacks) == (p, Seq::<Effect<T>>::empty()),
    decreases callbacks.len(),
{
    if callbacks.len() == 0 {
        assert(p.idle + callbacks =~= p.idle);
    } else {
        let (p1, e1) = p.add_idle(window, callbacks[0]);
        lemma_add_idle_coalesces(p1, window, callbacks.drop_first());
        if p.window == Some(window) {
            assert(p1.idle + callbacks.drop_first() =~= p.idle + callbacks);
            let (p2, e2) = add_idle_all(p1, window, callbacks.drop_first());
            assert(e2 =~= Seq::<Effect<T>>::empty());
            assert(e1 + e2 =~= e1);
        } else {
            assert(e1 + Seq::<Effect<T>>::empty() =~= e1);
        }
    }
}

/// A flush runs the queued callbacks in insertion order and leaves the queue
/// empty, so a callback queued while they run waits for the next flush and
/// asks for a fresh idle notification.
pub proof fn lemma_flush_in_order<T>(p: PlatformView<T>, window: u64, callback: T)
    requires
        p.window == Some(window),
    ensures
        ({
            let (p1, e1) = p.flush();
            let (p2, e2) = p1.add_idle(window, callback);
            &&& e1.len() == p.idle.len()
            &&& forall|i: int| 0 <= i < e1.len() ==> #[trigger] e1[i] == Effect::RunIdle(p.idle[i])
            &&& p1.idle.len() == 0
            &&& p2.idle == seq![callback]
            &&& e2 == seq![Effect::<T>::RequestIdle]
        }),
{
    let (p1, e1) = p.flush();
    assert(p1.idle.push(callback) =~= seq![callback]);
}

/// A size reported before the window exists is replayed once by the build,
/// right after the connected notification; reported after the build, it goes
/// to the handler at once and is not buffered.
pub proof fn lemma_size_replayed_once<T>(p: PlatformView<T>, width: i32, height: i32, width2: i32, height2: i32)
    requires
        p.window.is_none(),
        p.can_build(),
    ensures
        ({
            let (p1, e1) = p.size_changed(width, height);
            let (p2, handle, e2) = p1.build();
            let (p3, e3) = p2.size_changed(width2, height2);
            &&& e1.len() == 0
            &&& forall|i: int| 0 <= i < e2.len() ==> (#[trigger] e2[i] is Size <==> i == 2)
            &&& e2[2] == size_effect::<T>(width, height)
            &&& p2.pending_size.is_none()
            &&& e3 == seq![size_effect::<T>(width2, height2)]
            &&& p3 == p2
        }),
{
}

/// Without a size reported first, the build replays none.
pub proof fn lemma_no_size_no_replay<T>(p: PlatformView<T>)
    requires
        p.pending_size.is_none(),
    ensures
        ({
            let (p2, handle, e2) = p.build();
            forall|i: int| 0 <= i < e2.len() ==> !(#[trigger] e2[i] is Size)
        }),
{
}

proof fn lemma_touch_effects_append<T>(a: Seq<i32>, b: Seq<i32>)
    ensures
        touch_effects_all::<T>(a + b) == touch_effects_all::<T>(a) + touch_effects_all::<T>(b),
    decreases a.len(),
{
    if a.len() == 0 {
        assert(a + b =~= b);
        assert(touch_effects_all::<T>(a) + touch_effects_all::<T>(b) =~= touch_effects_all::<T>(b));
    } else {
        assert((a + b).drop_first() =~= a.drop_first() + b);
        lemma_touch_effects_append::<T>(a.drop_first(), b);
        assert(touch_effects_all::<T>(a + b) =~= touch_effects_all::<T>(a) + touch_effects_all::<T>(b));
    }
}

proof fn lemma_other_actions_call_nothing<T>(actions: Seq<i32>)
    requires
        forall|i: int| 0 <= i < actions.len() ==> #[trigger] actions[i] != ACTION_DOWN && actions[i] != ACTION_UP,
    ensures
        touch_effects_all::<T>(actions) == Seq::<Effect<T>>::empty(),
    decreases actions.len(),
{
    if actions.len() > 0 {
        assert(actions[0] != ACTION_DOWN && actions[0] != ACTION_UP);
        lemma_other_actions_call_nothing::<T>(actions.drop_first());
        assert(touch_effects_all::<T>(actions) =~= Seq::<Effect<T>>::empty());
    }
}

/// On a live window each touch goes to `touch_effects`; a touch that starts,
/// any actions of other codes, and a touch that ends call, in order, a
/// press with count 1 and a release with count 0, and nothing else.
pub proof fn lemma_touch_down_then_up<T>(p: PlatformView<T>, others: Seq<i32>)
    requires
        p.window.is_some(),
        forall|i: int| 0 <= i < others.len() ==> #[trigger] others[i] != ACTION_DOWN && others[i] != ACTION_UP,
    ensures
        forall|action: i32| #[trigger] p.touch(action) == touch_effects::<T>(action),
        touch_effects_all::<T>(seq![ACTION_DOWN] + others + seq![ACTION_UP]) == seq![
            Effect::<T>::MouseDown(touch_pointer(1)),
            Effect::<T>::MouseUp(touch_pointer(0)),
        ],
{
    lemma_other_actions_call_nothing::<T>(others);
    lemma_touch_effects_append::<T>(seq![ACTION_DOWN] + others, seq![ACTION_UP]);
    lemma_touch_effects_append::<T>(seq![ACTION_DOWN], others);
    assert(touch_effects_all::<T>(seq![ACTION_DOWN]) =~= seq![Effect::<T>::MouseDown(touch_pointer(1))]) by {
        let s = seq![ACTION_DOWN];
        assert(s.drop_first() =~= Seq::<i32>::empty());
        assert(touch_effects_all::<T>(Seq::<i32>::empty()) == Seq::<Effect<T>>::empty());
        assert(touch_effects_all::<T>(s) == touch_effects::<T>(s[0]) + touch_effects_all::<T>(s.drop_first()));
        assert(touch_effects::<T>(s[0]) + Seq::<Effect<T>>::empty() =~= touch_effects::<T>(s[0]));
    }
    assert(touch_effects_all::<T>(seq![ACTION_UP]) =~= seq![Effect::<T>::MouseUp(touch_pointer(0))]) by {
        let s = seq![ACTION_UP];
        assert(s.drop_first() =~= Seq::<i32>::empty());
        assert(touch_effects_all::<T>(Seq::<i32>::empty()) == Seq::<Effect<T>>::empty());
        assert(touch_effects_all::<T>(s) == touch_effects::<T>(s[0]) + touch_effects_all::<T>(s.drop_first()));
        assert(touch_effects::<T>(s[0]) + Seq::<Effect<T>>::empty() =~= touch_effects::<T>(s[0]));
    }
    assert(touch_effects_all::<T>(seq![ACTION_DOWN] + others + seq![ACTION_UP]) =~= seq![
        Effect::<T>::MouseDown(touch_pointer(1)),
        Effect::<T>::MouseUp(touch_pointer(0)),
    ]);
}

/// Once its window is torn down, or replaced by a newer build, `add_idle`
/// through an old handle changes nothing and asks for nothing.
pub proof fn lemma_add_idle_after_window_gone<T>(p: PlatformView<T>, window: u64, callback: T)
    ensures
        p.teardown().add_idle(window, callback) == (p.teardown(), Seq::<Effect<T>>::empty()),
        window < p.next_window ==> p.build().0.add_idle(window, callback) == (
            p.build().0,
            Seq::<Effect<T>>::empty(),
        ),
{
}

/// Timers requested one after the other get tokens with increasing
/// identifiers, as the counter behind them hands out (`issued_ids`).
pub proof fn lemma_request_timer_tokens_increase<T>(
    p: PlatformView<T>,
    deadline1: u64,
    now1: u64,
    deadline2: u64,
    now2: u64,
)
    requires
        FIRST_TIMER_ID <= p.next_timer,
        p.next_timer + 1 < i32::MAX,
    ensures
        ({
            let (p1, t1, e1) = p.request_timer(deadline1, now1);
            let (p2, t2, e2) = p1.request_timer(deadline2, now2);
            &&& t1.id < t2.id
            &&& t1.id == issued_ids(p.next_timer, 2)[0]
            &&& t2.id == issued_ids(p.next_timer, 2)[1]
            &&& e1 == Effect::<T>::PostTimer { token: t1.id as i32, delay_ms: delay_spec(deadline1, now1) }
        }),
{
    lemma_timer_ids_increase(p.next_timer, 2);
}

} // verus!
