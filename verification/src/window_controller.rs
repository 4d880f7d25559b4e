//! The engine-facing window controller, the per-window state it shares with
//! the user controller, and the user-controller capability.

use vstd::prelude::*;

use crate::native::{KbdEvent, NativeLayer};
use crate::ui::Ui;
use crate::widget::{AnyWidget, Widget};

verus! {

/// An opaque identifier keying the per-window widget map. Identifiers are
/// allocated strictly increasingly over the lifetime of one window.
#[derive(Debug, Clone, Copy, PartialEq, Eq, PartialOrd, Ord, Hash, Structural)]
pub struct WidgetID(u32);

impl WidgetID {
    /// The numeric value behind the identifier.
    pub closed spec fn val(self) -> u32 {
        self.0
    }
}

/// The engine-facing half of a window's state: the borrowed windowing
/// context, the raw window handle, the widget-id counter, and the widget map
/// that makes the window the long-term owner of every widget added to it.
pub struct WindowController<'a> {
    pub(crate) ui: &'a Ui,
    pub(crate) window: u64,
    pub(crate) next_widget_id: u32,
    pub(crate) widgets: Vec<(WidgetID, AnyWidget)>,
}

impl<'a> WindowController<'a> {
    /// The windowing context this controller borrows.
    pub closed spec fn ui_spec(self) -> Ui {
        *self.ui
    }

    /// The native window handle.
    pub closed spec fn window_spec(self) -> u64 {
        self.window
    }

    /// The next widget id to allocate.
    pub closed spec fn next_id_spec(self) -> u32 {
        self.next_widget_id
    }

    /// The widget map: identifier and widget, in insertion order.
    pub closed spec fn widgets_spec(self) -> Seq<(WidgetID, AnyWidget)> {
        self.widgets@
    }

    /// The allocated widget ids, in allocation order.
    pub open spec fn widget_ids(self) -> Seq<u32> {
        self.widgets_spec().map_values(|p: (WidgetID, AnyWidget)| p.0.val())
    }

    /// The stored widgets' control handles, in insertion order.
    pub open spec fn widget_ctls(self) -> Seq<u64> {
        self.widgets_spec().map_values(|p: (WidgetID, AnyWidget)| p.1.ctl_spec())
    }

    /// The widget-id invariant: ids were allocated in strictly increasing
    /// order, all below the counter, so ids never repeat and the counter
    /// never hands out an id twice.
    pub open spec fn wf(self) -> bool {
        &&& forall|i: int, j: int|
            0 <= i < j < self.widget_ids().len() ==> self.widget_ids()[i] < self.widget_ids()[j]
        &&& forall|i: int|
            0 <= i < self.widget_ids().len() ==> #[trigger] self.widget_ids()[i]
                < self.next_id_spec()
    }

    /// A controller for window `window` on context `ui`, with no widgets yet.
    pub(crate) fn new(ui: &'a Ui, window: u64) -> (c: WindowController<'a>)
        ensures
            c.wf(),
            c.ui_spec() == *ui,
            c.window_spec() == window,
            c.next_id_spec() == 10,
            c.widgets_spec() == Seq::<(WidgetID, AnyWidget)>::empty(),
    {
        let c = WindowController { ui, window, next_widget_id: 10, widgets: Vec::new() };
        proof {
            assert(c.widget_ids() =~= Seq::<u32>::empty());
        }
        c
    }

    /// The windowing context, for requesting context-wide operations such as
    /// quitting the event loop.
    pub fn ui(&mut self) -> (r: &'a Ui)
        ensures
            *final(self) == *old(self),
            *r == old(self).ui_spec(),
    {
        self.ui
    }

    /// Requests a repaint of this controller's window.
    pub fn paint(&mut self, native: &mut NativeLayer)
        ensures
            *final(self) == *old(self),
            NativeLayer::same_objects(*old(native), *final(native)),
            final(native).config == old(native).config,
            final(native).paint_calls@ == old(native).paint_calls@.push(old(self).window_spec()),
            final(native).quit_requested == old(native).quit_requested,
            final(native).def_calls@ == old(native).def_calls@,
    {
        native.ui_window_paint(self.window);
    }

    /// Stores `widget` under a freshly allocated id — strictly greater than
    /// every id this window has handed out — and informs the native window of
    /// the widget's control handle. The window, through this controller, owns
    /// the widget from here on.
    pub fn add_widget(&mut self, native: &mut NativeLayer, widget: AnyWidget) -> (id: WidgetID)
        requires
            old(self).wf(),
            old(self).next_id_spec() < u32::MAX,
            old(native).window_live(old(self).window_spec()),
        ensures
            final(self).wf(),
            id.val() == old(self).next_id_spec(),
            final(self).next_id_spec() == old(self).next_id_spec() + 1,
            final(self).widgets_spec() == old(self).widgets_spec().push((id, widget)),
            final(self).widget_ids() == old(self).widget_ids().push(id.val()),
            final(self).widget_ctls() == old(self).widget_ctls().push(widget.ctl_spec()),
            forall|k: int|
                0 <= k < old(self).widget_ids().len() ==> #[trigger] old(self).widget_ids()[k]
                    < id.val(),
            final(self).window_spec() == old(self).window_spec(),
            final(self).ui_spec() == old(self).ui_spec(),
            NativeLayer::same_objects(*old(native), *final(native)),
            final(native).config == old(native).config,
            final(native).window_adds@ == old(native).window_adds@.push(
                (old(self).window_spec(), widget.ctl_spec()),
            ),
    {
        let id = WidgetID(self.next_widget_id);
        self.next_widget_id = self.next_widget_id + 1;
        native.ui_window_add(self.window, widget.get_ctl());
        let ghost prev = *self;
        self.widgets.push((id, widget));
        proof {
            assert(self.widget_ids() =~= prev.widget_ids().push(id.val()));
            assert(self.widget_ctls() =~= prev.widget_ctls().push(widget.ctl_spec()));
            assert(prev.widget_ids() == old(self).widget_ids());
        }
        id
    }
}

/// Links a controller's fields to its spec views, for the sibling modules
/// that build or take apart controllers directly.
pub(crate) proof fn lemma_controller_fields<'a>(c: WindowController<'a>)
    ensures
        c.window == c.window_spec(),
        c.next_widget_id == c.next_id_spec(),
        c.widgets@ == c.widgets_spec(),
        *c.ui == c.ui_spec(),
{
}

/// The per-window state cell's contents: the engine-facing controller and the
/// application-supplied user controller, split into two disjoint mutable
/// views for the duration of each dispatch.
pub struct WindowInner<'a, T: WindowUserController> {
    pub(crate) controller: WindowController<'a>,
    pub(crate) user_controller: T,
}

/// The user-controller capability: optional reactions to a window's lifecycle
/// events, each defaulting to no reaction. Every reaction receives the
/// engine-facing controller, so user code requests further native operations
/// (repaint, quit) through a safe surface, and the toolkit model, through
/// which those requests act. Implementers may hold arbitrary extra state.
#[allow(unused_variables)]
pub trait WindowUserController: Sized {
    /// Reaction to the window's close request.
    fn on_close(&mut self, controller: &mut WindowController<'_>, native: &mut NativeLayer) {
    }

    /// Reaction to a resize, after the toolkit's default layout recompute.
    fn on_resize(&mut self, controller: &mut WindowController<'_>, native: &mut NativeLayer) {
    }

    /// Reaction to maximizing, after the toolkit's default handling.
    fn on_maximize(&mut self, controller: &mut WindowController<'_>, native: &mut NativeLayer) {
    }

    /// Reaction to unmaximizing, after the toolkit's default handling.
    fn on_unmaximize(&mut self, controller: &mut WindowController<'_>, native: &mut NativeLayer) {
    }

    /// Reaction to a key event the toolkit's default handling left unclaimed.
    /// The event is passed through opaquely.
    fn on_kbd(
        &mut self,
        controller: &mut WindowController<'_>,
        native: &mut NativeLayer,
        event: KbdEvent,
    ) {
    }
}

/// The widget-id law: the ids a window's controller holds are strictly
/// increasing in allocation order — adding widgets yields distinct ids, each
/// greater than every earlier one.
pub proof fn lemma_widget_ids_strictly_increasing<'a>(
    c: WindowController<'a>,
    i: int,
    j: int,
)
    requires
        c.wf(),
        0 <= i < j < c.widget_ids().len(),
    ensures
        c.widget_ids()[i] < c.widget_ids()[j],
{
}

} // verus!
