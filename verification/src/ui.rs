//! The windowing context, the owned window, and the callback bridge that
//! routes the toolkit's window events into the user controller.

use vstd::prelude::*;

use crate::error::{pointer_init, UiError};
use crate::geom::{gfx_rect_rtranslate, new_gfx_rect, origin_rect, GfxRect};
use crate::native::{
    decor_ok, ui_wnd_params_init, DecorInsets, DefCall, KbdEvent, NativeLayer, WdecorCall,
    WDS_DECORATED, WDS_MAXIMIZE_BTN, WDS_RESIZABLE,
};
use crate::widget::{AnyWidget, Widget};
use crate::window_controller::{
    lemma_controller_fields, WidgetID, WindowController, WindowInner, WindowUserController,
};

verus! {

/// The owned windowing context: created once, borrowed by every window made
/// from it, destroyed once at shutdown by consuming it.
#[derive(Debug)]
pub struct Ui(u64);

/// A window's UI resource, as the toolkit hands it out for creating widgets.
#[derive(Debug)]
pub struct UiResource(pub(crate) u64);

impl UiResource {
    /// The native resource handle.
    pub closed spec fn val_spec(self) -> u64 {
        self.0
    }
}

/// A window lifecycle event, as the native event loop delivers it to the
/// callback bridge.
#[derive(Debug, Clone, Copy, PartialEq, Eq, Structural)]
pub enum UiEvent {
    Close,
    Resize,
    Maximize,
    Unmaximize,
    Kbd(KbdEvent),
}

/// How a dispatched event was handled.
#[derive(Debug, Clone, Copy, PartialEq, Eq, Structural)]
pub enum EventOutcome {
    /// Default behaviour ran (where the event has any) and the user
    /// controller's reaction was invoked.
    Delivered,
    /// The toolkit's default key handling claimed the event; the user
    /// controller was not invoked.
    ClaimedByDefault,
}

/// A dispatch that was rejected before any behaviour ran. Both signals are
/// wiring errors of the bridge: not recoverable, but detected and reported
/// rather than corrupting state.
#[derive(Debug, Clone, Copy, PartialEq, Eq, Structural)]
pub enum DispatchError {
    /// The native layer passed a window handle that does not match the
    /// controller's: a native-layer contract violation.
    HandleMismatch,
    /// A dispatch for this window was already in flight: re-entrant delivery
    /// would alias the window's state and is rejected instead.
    BorrowConflict,
}

/// The rectangle a window with decoration insets `d` occupies so that its
/// application area spans `width` by `height` at the origin.
pub open spec fn decorated_rect(d: DecorInsets, width: u32, height: u32) -> GfxRect {
    GfxRect {
        p0: crate::geom::GfxCoord2 { x: 0, y: 0 },
        p1: crate::geom::GfxCoord2 {
            x: (width + d.left + d.right) as i32,
            y: (height + d.top + d.bottom) as i32,
        },
    }
}

/// The destruction order a window's widgets impose: for each widget in
/// insertion order, first the bitmap its image owns (looked up in `n`), then
/// the image itself.
pub open spec fn widget_teardown(widgets: Seq<(WidgetID, AnyWidget)>, n: NativeLayer) -> Seq<
    u64,
> {
    Seq::new(
        2 * widgets.len(),
        |k: int|
            if k % 2 == 0 {
                n.image_bitmap(widgets[k / 2].1.ctl_spec())
            } else {
                widgets[k / 2].1.ctl_spec()
            },
    )
}

impl Ui {
    /// The native context handle this wrapper owns.
    pub closed spec fn handle_spec(self) -> u64 {
        self.0
    }

    /// Creates the windowing context. On the toolkit's success status the
    /// returned wrapper owns a fresh live handle; on any other status the
    /// error carries that status code and no context exists afterward.
    pub fn new(native: &mut NativeLayer) -> (r: Result<Ui, UiError>)
        requires
            old(native).wf(),
            old(native).next_handle < u64::MAX,
        ensures
            final(native).wf(),
            final(native).config == old(native).config,
            NativeLayer::same_logs(*old(native), *final(native)),
            old(native).config.ui_create_status == 0 ==> (r matches Ok(ui) && {
                &&& ui.handle_spec() == old(native).next_handle
                &&& !old(native).created@.contains(ui.handle_spec())
                &&& final(native).ui_live(ui.handle_spec())
                &&& final(native).live(ui.handle_spec())
                &&& final(native).created@ == old(native).created@.push(ui.handle_spec())
                &&& final(native).destroyed@ == old(native).destroyed@
                &&& NativeLayer::others_preserved(*old(native), *final(native), ui.handle_spec())
            }),
            old(native).config.ui_create_status != 0 ==> (r matches Err(e) && e == (UiError {
                code: old(native).config.ui_create_status,
            }) && NativeLayer::same_objects(*old(native), *final(native))),
    {
        match pointer_init(native.ui_create()) {
            Ok(h) => Ok(Ui(h)),
            Err(e) => Err(e),
        }
    }

    /// Creates a window of application area `width` by `height` with the
    /// given caption and a resizable, maximizable decorated style. The
    /// on-screen rectangle is computed first, by asking the toolkit how much
    /// decoration that style adds and translating the result back to the
    /// origin; that sizing call happens, and is recorded, whether or not
    /// creation then succeeds. On the toolkit's success status the returned
    /// window owns a fresh live window handle with its callback table
    /// registered; on any other status the error carries that status code and
    /// no window exists afterward.
    #[verifier::rlimit(50)]
    pub fn create_window<'a, T: WindowUserController>(
        &'a self,
        native: &mut NativeLayer,
        caption: &str,
        width: u32,
        height: u32,
        user_controller: T,
    ) -> (r: Result<Window<'a, T>, UiError>)
        requires
            old(native).wf(),
            old(native).next_handle < u64::MAX,
            old(native).ui_live(self.handle_spec()),
            decor_ok(old(native).config.decor),
            width <= 0x4000_0000,
            height <= 0x4000_0000,
        ensures
            final(native).wf(),
            final(native).config == old(native).config,
            final(native).wdecor_calls@ == old(native).wdecor_calls@.push(
                (WdecorCall {
                    style: WDS_DECORATED | WDS_RESIZABLE | WDS_MAXIMIZE_BTN,
                    rect: origin_rect(width, height),
                }),
            ),
            old(native).config.window_create_status == 0 ==> (r matches Ok(w) && {
                &&& w.window_handle_spec() == old(native).next_handle
                &&& !old(native).created@.contains(w.window_handle_spec())
                &&& final(native).window_live(w.window_handle_spec())
                &&& final(native).live(w.window_handle_spec())
                &&& final(native).created@ == old(native).created@.push(w.window_handle_spec())
                &&& final(native).destroyed@ == old(native).destroyed@
                &&& final(native).window_caption(w.window_handle_spec()) == caption@
                &&& final(native).window_style(w.window_handle_spec()) == (WDS_DECORATED
                    | WDS_RESIZABLE | WDS_MAXIMIZE_BTN)
                &&& final(native).window_rect(w.window_handle_spec()) == decorated_rect(
                    old(native).config.decor,
                    width,
                    height,
                )
                &&& final(native).cb_registrations@ == old(native).cb_registrations@.push(
                    w.window_handle_spec(),
                )
                &&& final(native).ui_live(self.handle_spec())
                &&& !w.dispatching()
                &&& w.controller_spec().wf()
                &&& w.controller_spec().ui_spec() == *self
                &&& w.controller_spec().window_spec() == w.window_handle_spec()
                &&& w.controller_spec().next_id_spec() == 10
                &&& w.controller_spec().widgets_spec() == Seq::<(WidgetID, AnyWidget)>::empty()
                &&& w.user_spec() == user_controller
                &&& NativeLayer::others_preserved(
                    *old(native),
                    *final(native),
                    w.window_handle_spec(),
                )
            }),
            old(native).config.window_create_status != 0 ==> (r matches Err(e) && e == (UiError {
                code: old(native).config.window_create_status,
            }) && NativeLayer::same_objects(*old(native), *final(native)) && final(native).cb_registrations@ == old(native).cb_registrations@),
    {
        let mut params = pointer_init(ui_wnd_params_init()).unwrap();
        params.style = params.style | WDS_RESIZABLE | WDS_MAXIMIZE_BTN;
        params.rect = get_window_rectangle_for_size(native, width, height, params.style);
        params.caption = caption.to_owned();
        let window = match pointer_init(native.ui_window_create(self.0, params)) {
            Ok(h) => h,
            Err(e) => {
                return Err(e);
            },
        };
        let ghost mid = *native;
        native.ui_window_set_cb(window);
        proof {
            crate::native::lemma_same_objects_same_queries(mid, *native);
            assert forall|g: u64|
                #![trigger native.has_obj(g)]
                #![trigger native.live(g)]
                g != old(native).next_handle implies {
                &&& native.has_obj(g) == old(native).has_obj(g)
                &&& (old(native).has_obj(g) ==> native.obj(g) == old(native).obj(g))
                &&& native.live(g) == old(native).live(g)
            } by {
                assert(mid.has_obj(g) == old(native).has_obj(g));
                assert(mid.live(g) == old(native).live(g));
            }
            assert(NativeLayer::others_preserved(*old(native), *native, old(native).next_handle));
            assert(native.has_obj(window) == mid.has_obj(window));
            assert(native.obj(window) == mid.obj(window));
            assert(native.has_obj(self.0) == mid.has_obj(self.0));
            assert(mid.has_obj(self.0) ==> native.obj(self.0) == mid.obj(self.0));
        }
        Ok(
            Window {
                in_dispatch: false,
                inner: WindowInner {
                    controller: WindowController::new(self, window),
                    user_controller,
                },
            },
        )
    }

    /// Enters the toolkit's event loop: the call that blocks the single
    /// thread of control and dispatches events until a quit is requested.
    pub fn run(&self, native: &mut NativeLayer)
        requires
            old(native).run_calls < u64::MAX,
        ensures
            NativeLayer::same_objects(*old(native), *final(native)),
            final(native).config == old(native).config,
            final(native).run_calls == old(native).run_calls + 1,
            final(native).quit_requested == old(native).quit_requested,
    {
        native.ui_run(self.0);
    }

    /// Requests that the event loop terminate.
    pub fn quit(&self, native: &mut NativeLayer)
        ensures
            NativeLayer::same_objects(*old(native), *final(native)),
            final(native).config == old(native).config,
            final(native).quit_requested,
    {
        native.ui_quit(self.0);
    }

    /// Releases the context's handle, exactly once, by consuming the wrapper.
    /// The borrow every window holds on the context keeps this call
    /// impossible while any of its windows is still alive.
    pub fn destroy(self, native: &mut NativeLayer)
        requires
            old(native).wf(),
            old(native).ui_live(self.handle_spec()),
        ensures
            final(native).wf(),
            final(native).config == old(native).config,
            NativeLayer::same_logs(*old(native), *final(native)),
            final(native).created@ == old(native).created@,
            final(native).destroyed@ == old(native).destroyed@.push(self.handle_spec()),
            !final(native).live(self.handle_spec()),
            NativeLayer::others_preserved(*old(native), *final(native), self.handle_spec()),
    {
        native.ui_destroy(self.0);
    }
}

/// Asks the toolkit how much decoration `style` adds around a `width` by
/// `height` application area and translates the decorated rectangle back so
/// the application can draw at the origin.
fn get_window_rectangle_for_size(
    native: &mut NativeLayer,
    width: u32,
    height: u32,
    style: u32,
) -> (r: GfxRect)
    requires
        decor_ok(old(native).config.decor),
        width <= 0x4000_0000,
        height <= 0x4000_0000,
    ensures
        r == decorated_rect(old(native).config.decor, width, height),
        NativeLayer::same_objects(*old(native), *final(native)),
        final(native).config == old(native).config,
        final(native).wdecor_calls@ == old(native).wdecor_calls@.push(
            (WdecorCall { style, rect: origin_rect(width, height) }),
        ),
        final(native).cb_registrations@ == old(native).cb_registrations@,
        final(native).def_calls@ == old(native).def_calls@,
        final(native).paint_calls@ == old(native).paint_calls@,
        final(native).quit_requested == old(native).quit_requested,
{
    let naive_rect = new_gfx_rect(width, height);
    let window_rect = native.ui_wdecor_rect_from_app(style, naive_rect);
    // The decorated rectangle starts at (-left, -top) so the application area
    // sits at the origin; reverse-translating by its own corner moves the
    // whole window back so it starts at the origin instead.
    let off = window_rect.p0;
    gfx_rect_rtranslate(off, window_rect)
}

/// An owned window: one native window handle plus the state cell the callback
/// bridge dispatches into — the engine-facing controller and the user
/// controller, with the cell's borrow state tracked so that a re-entrant
/// dispatch is rejected instead of aliasing the state. A window borrows the
/// context it was created from and thus can never outlive it.
pub struct Window<'a, T: WindowUserController> {
    pub(crate) in_dispatch: bool,
    pub(crate) inner: WindowInner<'a, T>,
}

impl<'a, T: WindowUserController> Window<'a, T> {
    /// Whether a dispatch into this window's state cell is in flight.
    pub closed spec fn dispatching(self) -> bool {
        self.in_dispatch
    }

    /// The engine-facing controller held in the state cell.
    pub closed spec fn controller_spec(self) -> WindowController<'a> {
        self.inner.controller
    }

    /// The user controller held in the state cell.
    pub closed spec fn user_spec(self) -> T {
        self.inner.user_controller
    }

    /// The native window handle.
    pub open spec fn window_handle_spec(self) -> u64 {
        self.controller_spec().window_spec()
    }

    /// Whether the window's state agrees with the toolkit model: the window
    /// handle is live, every stored widget's control is a live image widget,
    /// and no two widgets share a control.
    pub open spec fn wf_in(self, n: NativeLayer) -> bool {
        &&& n.window_live(self.window_handle_spec())
        &&& forall|k: int|
            0 <= k < self.controller_spec().widget_ctls().len() ==> n.image_live(
                #[trigger] self.controller_spec().widget_ctls()[k],
            )
        &&& forall|k1: int, k2: int|
            0 <= k1 < k2 < self.controller_spec().widget_ctls().len()
                ==> self.controller_spec().widget_ctls()[k1]
                != self.controller_spec().widget_ctls()[k2]
    }

    /// The window's drawing context.
    pub fn get_gc(&self, native: &NativeLayer) -> (r: u64)
        requires
            native.window_live(self.window_handle_spec()),
            !self.dispatching(),
        ensures
            r == self.window_handle_spec(),
    {
        proof {
            lemma_controller_fields(self.inner.controller);
        }
        native.ui_window_get_gc(self.inner.controller.window)
    }

    /// The window's UI resource, for creating widgets on it.
    pub fn get_resource(&self, native: &NativeLayer) -> (r: UiResource)
        requires
            native.window_live(self.window_handle_spec()),
            !self.dispatching(),
        ensures
            r.val_spec() == self.window_handle_spec(),
    {
        proof {
            lemma_controller_fields(self.inner.controller);
        }
        UiResource(native.ui_window_get_res(self.inner.controller.window))
    }

    /// The window's application rectangle, as the toolkit reports it. The
    /// query cannot fail.
    pub fn get_app_rect(&self, native: &NativeLayer) -> (r: GfxRect)
        requires
            native.window_live(self.window_handle_spec()),
            !self.dispatching(),
        ensures
            r == native.config.app_rect,
    {
        proof {
            lemma_controller_fields(self.inner.controller);
        }
        pointer_init(native.ui_window_get_app_rect(self.inner.controller.window)).unwrap()
    }

    /// Adds `widget` to the window: the controller stores it under a fresh
    /// id and informs the native window of its control handle.
    pub fn add_widget(&mut self, native: &mut NativeLayer, widget: AnyWidget) -> (id: WidgetID)
        requires
            !old(self).dispatching(),
            old(self).controller_spec().wf(),
            old(self).controller_spec().next_id_spec() < u32::MAX,
            old(native).window_live(old(self).window_handle_spec()),
        ensures
            !final(self).dispatching(),
            final(self).user_spec() == old(self).user_spec(),
            final(self).controller_spec().wf(),
            id.val() == old(self).controller_spec().next_id_spec(),
            final(self).controller_spec().next_id_spec() == old(self).controller_spec().next_id_spec() + 1,
            final(self).controller_spec().widgets_spec() == old(self).controller_spec().widgets_spec().push((id, widget)),
            final(self).controller_spec().widget_ctls() == old(self).controller_spec().widget_ctls().push(widget.ctl_spec()),
            final(self).window_handle_spec() == old(self).window_handle_spec(),
            final(self).controller_spec().ui_spec() == old(self).controller_spec().ui_spec(),
            forall|k: int|
                0 <= k < old(self).controller_spec().widget_ids().len() ==> #[trigger] old(self).controller_spec().widget_ids()[k] < id.val(),
            NativeLayer::same_objects(*old(native), *final(native)),
            final(native).config == old(native).config,
            final(native).window_adds@ == old(native).window_adds@.push(
                (old(self).window_handle_spec(), widget.ctl_spec()),
            ),
    {
        self.inner.controller.add_widget(native, widget)
    }

    /// The engine-facing controller, mutably. Mirrors taking the state
    /// cell's write borrow: it must not be taken while a dispatch is in
    /// flight.
    pub fn controller(&mut self) -> (c: &mut WindowController<'a>)
        requires
            !old(self).dispatching(),
        ensures
            *c == old(self).controller_spec(),
            final(self).controller_spec() == *final(c),
            final(self).user_spec() == old(self).user_spec(),
            !final(self).dispatching(),
    {
        &mut self.inner.controller
    }

    /// The user controller, mutably. Mirrors taking the state cell's write
    /// borrow.
    pub fn user_controller(&mut self) -> (u: &mut T)
        requires
            !old(self).dispatching(),
        ensures
            *u == old(self).user_spec(),
            final(self).user_spec() == *final(u),
            final(self).controller_spec() == old(self).controller_spec(),
            !final(self).dispatching(),
    {
        &mut self.inner.user_controller
    }

    /// Both halves of the state cell at once, as two disjoint mutable views —
    /// the same split the callback bridge performs for each dispatch.
    pub fn controllers(&mut self) -> ((c, u): (&mut WindowController<'a>, &mut T))
        requires
            !old(self).dispatching(),
        ensures
            *c == old(self).controller_spec(),
            *u == old(self).user_spec(),
            final(self).controller_spec() == *final(c),
            final(self).user_spec() == *final(u),
            !final(self).dispatching(),
    {
        (&mut self.inner.controller, &mut self.inner.user_controller)
    }

    /// Whether the state cell is borrowed. The one borrow the cell sees in
    /// this model is a dispatch in flight.
    pub fn is_borrowed(&self) -> (r: bool)
        ensures
            r == self.dispatching(),
    {
        self.in_dispatch
    }

    /// Whether the state cell is mutably borrowed; see [`Self::is_borrowed`].
    pub fn is_mut_borrowed(&self) -> (r: bool)
        ensures
            r == self.dispatching(),
    {
        self.in_dispatch
    }

    /// Marks the state cell as borrowed for a dispatch, as the bridge does on
    /// each callback's entry, and reports whether the borrow was available.
    /// Exposed so a re-entrant delivery — a second callback arriving while
    /// one is in flight — can be driven and observed from outside the bridge.
    pub fn begin_dispatch(&mut self) -> (acquired: bool)
        ensures
            acquired == !old(self).dispatching(),
            final(self).dispatching(),
            final(self).controller_spec() == old(self).controller_spec(),
            final(self).user_spec() == old(self).user_spec(),
    {
        let acquired = !self.in_dispatch;
        self.in_dispatch = true;
        acquired
    }

    /// Returns the state cell to idle after a dispatch.
    pub fn finish_dispatch(&mut self)
        ensures
            !final(self).dispatching(),
            final(self).controller_spec() == old(self).controller_spec(),
            final(self).user_spec() == old(self).user_spec(),
    {
        self.in_dispatch = false;
    }

    /// The callback bridge: dispatches one native event against this window's
    /// state cell.
    ///
    /// The bridge first checks that the handle the native layer passed is the
    /// controller's own — a mismatch is a native-layer contract violation and
    /// is rejected as [`DispatchError::HandleMismatch`] with nothing run. It
    /// then takes the cell's borrow; a dispatch already in flight is rejected
    /// as [`DispatchError::BorrowConflict`] with nothing run and nothing
    /// changed, never silently corrupted. Otherwise the cell is split into
    /// its two views, the toolkit's default behaviour runs first — layout
    /// recompute for resize, maximize and unmaximize; default key handling
    /// for key events, whose claim ends the dispatch with the user controller
    /// never invoked — and the user controller's reaction runs second. The
    /// borrow is released before the bridge returns.
    pub fn dispatch_event(&mut self, native: &mut NativeLayer, from: u64, event: UiEvent) -> (r:
        Result<EventOutcome, DispatchError>)
        ensures
            from != old(self).window_handle_spec() ==> r == Err::<EventOutcome, DispatchError>(
                DispatchError::HandleMismatch,
            ) && *final(self) == *old(self) && *final(native) == *old(native),
            from == old(self).window_handle_spec() && old(self).dispatching() ==> r == Err::<
                EventOutcome,
                DispatchError,
            >(DispatchError::BorrowConflict) && *final(self) == *old(self) && *final(native)
                == *old(native),
            from == old(self).window_handle_spec() && !old(self).dispatching() ==> (r matches Ok(
                _,
            )) && !final(self).dispatching(),
            from == old(self).window_handle_spec() && !old(self).dispatching() && event is Kbd
                && old(native).config.kbd_claim ==> ({
                &&& r == Ok::<EventOutcome, DispatchError>(EventOutcome::ClaimedByDefault)
                &&& *final(self) == *old(self)
                &&& NativeLayer::same_objects(*old(native), *final(native))
                &&& final(native).config == old(native).config
                &&& final(native).def_calls@ == old(native).def_calls@.push(DefCall::Kbd(from))
                &&& final(native).paint_calls@ == old(native).paint_calls@
                &&& final(native).quit_requested == old(native).quit_requested
            }),
            from == old(self).window_handle_spec() && !old(self).dispatching() && event is Kbd
                && !old(native).config.kbd_claim ==> r == Ok::<EventOutcome, DispatchError>(
                EventOutcome::Delivered,
            ),
            from == old(self).window_handle_spec() && !old(self).dispatching() && !(event is Kbd)
                ==> r == Ok::<EventOutcome, DispatchError>(EventOutcome::Delivered),
    {
        proof {
            lemma_controller_fields(self.inner.controller);
        }
        if from != self.inner.controller.window {
            return Err(DispatchError::HandleMismatch);
        }
        if self.in_dispatch {
            return Err(DispatchError::BorrowConflict);
        }
        self.in_dispatch = true;
        let controller = &mut self.inner.controller;
        let user = &mut self.inner.user_controller;
        match event {
            UiEvent::Close => {
                user.on_close(controller, native);
            },
            UiEvent::Resize => {
                native.ui_window_def_resize(from);
                user.on_resize(controller, native);
            },
            UiEvent::Maximize => {
                native.ui_window_def_maximize(from);
                user.on_maximize(controller, native);
            },
            UiEvent::Unmaximize => {
                native.ui_window_def_unmaximize(from);
                user.on_unmaximize(controller, native);
            },
            UiEvent::Kbd(kbd_event) => {
                let claim = native.ui_window_def_kbd(from, kbd_event);
                if claim {
                    self.in_dispatch = false;
                    return Ok(EventOutcome::ClaimedByDefault);
                }
                user.on_kbd(controller, native, kbd_event);
            },
        }
        self.in_dispatch = false;
        Ok(EventOutcome::Delivered)
    }

    /// Releases the window's native resources, exactly once, by consuming the
    /// wrapper: the window's teardown destroys each widget it owns — the
    /// bitmap an image owns first, then the image — in insertion order, and
    /// the window handle last.
    pub fn destroy(self, native: &mut NativeLayer)
        requires
            old(native).wf(),
            self.wf_in(*old(native)),
        ensures
            final(native).wf(),
            final(native).config == old(native).config,
            NativeLayer::same_logs(*old(native), *final(native)),
            final(native).created@ == old(native).created@,
            final(native).destroyed@ == old(native).destroyed@ + widget_teardown(
                self.controller_spec().widgets_spec(),
                *old(native),
            ).push(self.window_handle_spec()),
            !final(native).live(self.window_handle_spec()),
    {
        proof {
            lemma_controller_fields(self.inner.controller);
        }
        let ghost ws = self.controller_spec().widgets_spec();
        let ghost n0 = *old(native);
        let Window { in_dispatch: _, inner } = self;
        let WindowInner { controller, user_controller: _ } = inner;
        let WindowController { ui: _, window, next_widget_id: _, widgets } = controller;
        proof {
            assert(widgets@ == ws);
            assert(window == self.window_handle_spec());
            assert forall|k: int| 0 <= k < ws.len() implies n0.image_live(
                #[trigger] ws[k].1.ctl_spec(),
            ) by {
                assert(self.controller_spec().widget_ctls()[k] == ws[k].1.ctl_spec());
                assert(n0.image_live(self.controller_spec().widget_ctls()[k]));
            }
            assert forall|k1: int, k2: int| 0 <= k1 < k2 < ws.len() implies ws[k1].1.ctl_spec()
                != ws[k2].1.ctl_spec() by {
                assert(self.controller_spec().widget_ctls()[k1] == ws[k1].1.ctl_spec());
                assert(self.controller_spec().widget_ctls()[k2] == ws[k2].1.ctl_spec());
            }
        }
        let mut i: usize = 0;
        while i < widgets.len()
            invariant
                native.wf(),
                i <= ws.len(),
                widgets@ == ws,
                n0.wf(),
                native.window_live(window),
                native.created@ == n0.created@,
                native.config == n0.config,
                NativeLayer::same_logs(n0, *native),
                native.destroyed@ == n0.destroyed@ + widget_teardown(ws.take(i as int), n0),
                forall|k: int|
                    i <= k < ws.len() ==> native.image_live(#[trigger] ws[k].1.ctl_spec())
                        && native.image_bitmap(ws[k].1.ctl_spec()) == n0.image_bitmap(
                        ws[k].1.ctl_spec(),
                    ),
                forall|k1: int, k2: int|
                    0 <= k1 < k2 < ws.len() ==> ws[k1].1.ctl_spec() != ws[k2].1.ctl_spec(),
            decreases ws.len() - i,
        {
            let ctl = widgets[i].1.get_ctl();
            let ghost before = *native;
            native.ui_image_destroy(ctl);
            proof {
                let bmp = before.image_bitmap(ctl);
                assert(ctl == ws[i as int].1.ctl_spec());
                assert(before.image_live(ws[i as int].1.ctl_spec()));
                assert(before.image_bitmap(ctl) == n0.image_bitmap(ctl));
                crate::native::lemma_owned_bitmap_not_independent(before, ctl);
                // The window and every later widget stay untouched: neither
                // is the destroyed image, and neither is the bitmap it owned,
                // which was no object at all.
                assert(native.window_live(window)) by {
                    assert(before.has_obj(window) && before.has_obj(ctl));
                    assert(window != ctl);
                    assert(window != bmp);
                    assert(native.has_obj(window) == before.has_obj(window));
                    assert(native.obj(window) == before.obj(window));
                }
                assert forall|k: int| i + 1 <= k < ws.len() implies native.image_live(
                    #[trigger] ws[k].1.ctl_spec(),
                ) && native.image_bitmap(ws[k].1.ctl_spec()) == n0.image_bitmap(
                    ws[k].1.ctl_spec(),
                ) by {
                    let g = ws[k].1.ctl_spec();
                    assert(g != ctl);
                    assert(before.image_live(g));
                    assert(before.has_obj(g));
                    assert(g != bmp);
                    assert(native.has_obj(g) == before.has_obj(g));
                    assert(native.obj(g) == before.obj(g));
                }
                assert(native.destroyed@ == n0.destroyed@ + widget_teardown(
                    ws.take(i + 1 as int),
                    n0,
                )) by {
                    assert(widget_teardown(ws.take(i + 1 as int), n0) =~= widget_teardown(
                        ws.take(i as int),
                        n0,
                    ).push(bmp).push(ctl));
                    assert(native.destroyed@ =~= (n0.destroyed@ + widget_teardown(
                        ws.take(i as int),
                        n0,
                    )).push(bmp).push(ctl));
                    assert((n0.destroyed@ + widget_teardown(ws.take(i as int), n0)).push(
                        bmp,
                    ).push(ctl) =~= n0.destroyed@ + widget_teardown(ws.take(i as int), n0).push(
                        bmp,
                    ).push(ctl));
                }
            }
            i += 1;
        }
        proof {
            assert(ws.take(ws.len() as int) =~= ws);
        }
        native.ui_window_destroy(window);
        proof {
            assert(native.destroyed@ =~= n0.destroyed@ + widget_teardown(ws, n0).push(window));
        }
    }
}

} // verus!
