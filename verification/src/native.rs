//! A call-recording model of the native toolkit's entry points.
//!
//! The toolkit itself lives behind a C-style ABI and is an opaque
//! collaborator: windows, bitmaps and image widgets are addressed by handles,
//! fallible calls report a status code, and requests such as painting or
//! default event handling have no observable result here. This module models
//! that ABI as an explicit value, [`NativeLayer`], which allocates fresh
//! handles, keeps a record of every object that is currently alive, and logs
//! every create, destroy and request call. Status codes and the values the
//! toolkit would compute (decoration sizes, the application area, whether the
//! default key handler claims an event) are configurable, so callers can
//! drive every success and failure path and observe exactly which calls the
//! wrapper made.
//!
//! The well-formedness invariant [`NativeLayer::wf`] carries the resource
//! discipline: handles are allocated fresh and never reused, only live
//! handles can be destroyed, and a handle is destroyed at most once.

use vstd::prelude::*;

use crate::geom::{GfxCoord2, GfxRect};

verus! {

/// Window-decoration style bit: a drawn frame.
pub const WDS_FRAME: u32 = 0x1;

/// Window-decoration style bit: a title bar.
pub const WDS_TITLEBAR: u32 = 0x2;

/// Window-decoration style bit: a close button.
pub const WDS_CLOSE_BTN: u32 = 0x4;

/// Window-decoration style bit: the window can be resized.
pub const WDS_RESIZABLE: u32 = 0x8;

/// Window-decoration style bit: a maximize button.
pub const WDS_MAXIMIZE_BTN: u32 = 0x10;

/// The default decoration of a new window: frame, title bar and close button.
pub const WDS_DECORATED: u32 = WDS_FRAME | WDS_TITLEBAR | WDS_CLOSE_BTN;

/// A key event as the toolkit delivers it. Its contents are passed through
/// opaquely; the wrapper never inspects them.
#[derive(Debug, Clone, Copy, PartialEq, Eq, Structural)]
pub struct KbdEvent {
    pub code: u32,
}

/// Window parameters, as the toolkit's window-parameter initialization call
/// fills them in and the window creation call consumes them.
#[derive(Debug)]
pub struct WndParams {
    pub rect: GfxRect,
    pub caption: String,
    pub style: u32,
}

/// Bitmap parameters, as the toolkit's bitmap-parameter initialization call
/// fills them in and the bitmap creation call consumes them.
#[derive(Debug, Clone, Copy, PartialEq, Eq, Structural)]
pub struct BitmapParams {
    pub rect: GfxRect,
}

/// The per-kind payload of a live native object.
#[derive(Debug)]
pub enum ObjKind {
    /// The windowing context itself.
    Ui,
    /// A window, with the parameters it was created from.
    Window { caption: String, rect: GfxRect, style: u32 },
    /// A bitmap of the given pixel dimensions.
    Bitmap { width: u32, height: u32 },
    /// An image widget on resource `res`, owning bitmap handle `bitmap`.
    Image { res: u64, bitmap: u64 },
}

/// One live native object: its handle and what it is.
#[derive(Debug)]
pub struct ObjectRec {
    pub handle: u64,
    pub kind: ObjKind,
}

/// The widths the toolkit adds around a window's application area for its
/// decoration, per side.
#[derive(Debug, Clone, Copy, PartialEq, Eq, Structural)]
pub struct DecorInsets {
    pub left: i32,
    pub top: i32,
    pub right: i32,
    pub bottom: i32,
}

/// The configurable behaviour of the modeled toolkit: the status code each
/// creation call reports, the decoration sizes, the application rectangle,
/// and whether the default key handler claims events.
#[derive(Debug, Clone, Copy, PartialEq, Eq, Structural)]
pub struct MockConfig {
    pub ui_create_status: i32,
    pub window_create_status: i32,
    pub bitmap_create_status: i32,
    pub image_create_status: i32,
    pub bitmap_alloc_status: i32,
    pub decor: DecorInsets,
    pub app_rect: GfxRect,
    pub kbd_claim: bool,
}

/// A recorded call of the decoration sizing entry point.
#[derive(Debug, Clone, Copy, PartialEq, Eq, Structural)]
pub struct WdecorCall {
    pub style: u32,
    pub rect: GfxRect,
}

/// A recorded call of a default event handler.
#[derive(Debug, Clone, Copy, PartialEq, Eq, Structural)]
pub enum DefCall {
    Kbd(u64),
    Resize(u64),
    Maximize(u64),
    Unmaximize(u64),
}

/// A recorded pixel write: which bitmap, which cell, which packed value.
#[derive(Debug, Clone, Copy, PartialEq, Eq, Structural)]
pub struct PixelWrite {
    pub bitmap: u64,
    pub x: usize,
    pub y: usize,
    pub pixel: u32,
}

/// The modeled native toolkit. See the module documentation.
#[derive(Debug)]
pub struct NativeLayer {
    /// The next handle to hand out; handles are never reused.
    pub next_handle: u64,
    /// Every handle a creation call has handed out, in creation order.
    pub created: Vec<u64>,
    /// Every handle a destroy call has released, in destruction order.
    pub destroyed: Vec<u64>,
    /// The objects currently alive.
    pub objects: Vec<ObjectRec>,
    /// The configured behaviour.
    pub config: MockConfig,
    /// Whether a quit was requested through the context.
    pub quit_requested: bool,
    /// How many times the event loop was entered.
    pub run_calls: u64,
    /// Calls of the decoration sizing entry point, in order.
    pub wdecor_calls: Vec<WdecorCall>,
    /// Calls of the default event handlers, in order.
    pub def_calls: Vec<DefCall>,
    /// Windows a repaint was requested for, in order.
    pub paint_calls: Vec<u64>,
    /// Controls added to windows: `(window, control)` pairs, in order.
    pub window_adds: Vec<(u64, u64)>,
    /// Windows a callback table was registered for, in order.
    pub cb_registrations: Vec<u64>,
    /// Pixel writes into bitmap allocations, in order.
    pub pixel_writes: Vec<PixelWrite>,
    /// Rectangles set on image widgets: `(image, rectangle)` pairs, in order.
    pub image_set_rects: Vec<(u64, GfxRect)>,
}

/// Whether the configured decoration insets are sane: nonnegative and at most
/// `4096` pixels per side.
pub open spec fn decor_ok(d: DecorInsets) -> bool {
    &&& 0 <= d.left <= 4096
    &&& 0 <= d.top <= 4096
    &&& 0 <= d.right <= 4096
    &&& 0 <= d.bottom <= 4096
}

/// Whether `rect` is far enough from the coordinate range's ends that adding
/// or subtracting any sane decoration inset cannot overflow.
pub open spec fn rect_decor_safe(rect: GfxRect) -> bool {
    &&& i32::MIN + 4096 <= rect.p0.x
    &&& i32::MIN + 4096 <= rect.p0.y
    &&& rect.p1.x <= i32::MAX - 4096
    &&& rect.p1.y <= i32::MAX - 4096
}

/// The packed pixel value for the four colour channels: `a` in the top byte,
/// then `r`, `g` and `b`.
pub open spec fn pix_of(r: u8, g: u8, b: u8, a: u8) -> u32 {
    ((a as u32) * 0x1000000 + (r as u32) * 0x10000 + (g as u32) * 0x100 + (b as u32)) as u32
}

/// Packs four colour channels into one pixel value, as the toolkit's pixel
/// packing entry point does.
pub fn rgba_to_pix(r: u8, g: u8, b: u8, a: u8) -> (p: u32)
    ensures
        p == pix_of(r, g, b, a),
{
    (a as u32) * 0x1000000 + (r as u32) * 0x10000 + (g as u32) * 0x100 + (b as u32)
}

/// The bitmap handle an image object owns, or `0` for any other object.
pub open spec fn rec_owned_bitmap(r: ObjectRec) -> u64 {
    match r.kind {
        ObjKind::Image { bitmap, .. } => bitmap,
        _ => 0,
    }
}

/// Whether the object is an image widget.
pub open spec fn rec_is_image(r: ObjectRec) -> bool {
    r.kind is Image
}

impl NativeLayer {
    /// Whether handle `h` was created and not yet destroyed.
    pub open spec fn live(self, h: u64) -> bool {
        self.created@.contains(h) && !self.destroyed@.contains(h)
    }

    /// Whether some live object carries handle `h`.
    pub open spec fn has_obj(self, h: u64) -> bool {
        exists|i: int| 0 <= i < self.objects@.len() && self.objects@[i].handle == h
    }

    /// The position of the live object with handle `h`; meaningful only when
    /// `has_obj(h)` holds (under `wf` the position is unique).
    pub open spec fn obj_idx(self, h: u64) -> int {
        choose|i: int| 0 <= i < self.objects@.len() && self.objects@[i].handle == h
    }

    /// The live object with handle `h`; meaningful only when `has_obj(h)`.
    pub open spec fn obj(self, h: u64) -> ObjectRec {
        self.objects@[self.obj_idx(h)]
    }

    /// Whether `h` is a live windowing-context handle.
    pub open spec fn ui_live(self, h: u64) -> bool {
        self.has_obj(h) && self.obj(h).kind is Ui
    }

    /// Whether `h` is a live window handle.
    pub open spec fn window_live(self, h: u64) -> bool {
        self.has_obj(h) && self.obj(h).kind is Window
    }

    /// Whether `h` is a live, independently owned bitmap handle. A bitmap
    /// whose ownership moved into an image widget is no longer independent.
    pub open spec fn bitmap_live(self, h: u64) -> bool {
        self.has_obj(h) && self.obj(h).kind is Bitmap
    }

    /// Whether `h` is a live image-widget handle.
    pub open spec fn image_live(self, h: u64) -> bool {
        self.has_obj(h) && self.obj(h).kind is Image
    }

    /// The bitmap handle owned by live image `h`.
    pub open spec fn image_bitmap(self, h: u64) -> u64 {
        rec_owned_bitmap(self.obj(h))
    }

    /// The caption of live window `h`.
    pub open spec fn window_caption(self, h: u64) -> Seq<char> {
        match self.obj(h).kind {
            ObjKind::Window { caption, .. } => caption@,
            _ => Seq::empty(),
        }
    }

    /// The on-screen rectangle of live window `h`.
    pub open spec fn window_rect(self, h: u64) -> GfxRect {
        match self.obj(h).kind {
            ObjKind::Window { rect, .. } => rect,
            _ => GfxRect { p0: GfxCoord2 { x: 0, y: 0 }, p1: GfxCoord2 { x: 0, y: 0 } },
        }
    }

    /// The decoration style of live window `h`.
    pub open spec fn window_style(self, h: u64) -> u32 {
        match self.obj(h).kind {
            ObjKind::Window { style, .. } => style,
            _ => 0,
        }
    }

    /// The pixel width of live bitmap `h`.
    pub open spec fn bitmap_width(self, h: u64) -> u32 {
        match self.obj(h).kind {
            ObjKind::Bitmap { width, .. } => width,
            _ => 0,
        }
    }

    /// The pixel height of live bitmap `h`.
    pub open spec fn bitmap_height(self, h: u64) -> u32 {
        match self.obj(h).kind {
            ObjKind::Bitmap { height, .. } => height,
            _ => 0,
        }
    }

    /// The resource discipline of the modeled toolkit: handles are handed out
    /// in strictly increasing order and never reused; a handle is destroyed
    /// at most once, and only after it was created; every live object's
    /// handle was created, is not destroyed, and is carried by exactly one
    /// object; a bitmap owned by an image widget was created, is not
    /// destroyed, is carried by no object of its own, and is owned by exactly
    /// one image.
    pub open spec fn wf(self) -> bool {
        &&& forall|i: int, j: int|
            0 <= i < j < self.created@.len() ==> self.created@[i] < self.created@[j]
        &&& forall|i: int| 0 <= i < self.created@.len() ==> #[trigger] self.created@[i]
            < self.next_handle
        &&& forall|i: int, j: int|
            0 <= i < j < self.destroyed@.len() ==> self.destroyed@[i] != self.destroyed@[j]
        &&& forall|i: int|
            0 <= i < self.destroyed@.len() ==> self.created@.contains(
                #[trigger] self.destroyed@[i],
            )
        &&& forall|i: int|
            0 <= i < self.objects@.len() ==> self.created@.contains(
                #[trigger] self.objects@[i].handle,
            )
        &&& forall|i: int|
            0 <= i < self.objects@.len() ==> !self.destroyed@.contains(
                #[trigger] self.objects@[i].handle,
            )
        &&& forall|i: int, j: int|
            0 <= i < j < self.objects@.len() ==> self.objects@[i].handle
                != self.objects@[j].handle
        &&& forall|i: int|
            0 <= i < self.objects@.len() && rec_is_image(#[trigger] self.objects@[i])
                ==> self.created@.contains(rec_owned_bitmap(self.objects@[i]))
        &&& forall|i: int|
            0 <= i < self.objects@.len() && rec_is_image(#[trigger] self.objects@[i])
                ==> !self.destroyed@.contains(rec_owned_bitmap(self.objects@[i]))
        &&& forall|i: int, j: int|
            0 <= i < self.objects@.len() && 0 <= j < self.objects@.len() && rec_is_image(
                self.objects@[i],
            ) ==> self.objects@[j].handle != rec_owned_bitmap(self.objects@[i])
        &&& forall|i: int, j: int|
            0 <= i < self.objects@.len() && 0 <= j < self.objects@.len() && i != j && rec_is_image(
                self.objects@[i],
            ) && rec_is_image(self.objects@[j]) ==> rec_owned_bitmap(self.objects@[i])
                != rec_owned_bitmap(self.objects@[j])
    }

    /// Whether `a` and `b` hold the same objects, handle counters and
    /// creation/destruction records.
    pub open spec fn same_objects(a: NativeLayer, b: NativeLayer) -> bool {
        &&& b.next_handle == a.next_handle
        &&& b.created@ == a.created@
        &&& b.destroyed@ == a.destroyed@
        &&& b.objects@ == a.objects@
    }

    /// Whether `a` and `b` hold the same request logs and loop state.
    pub open spec fn same_logs(a: NativeLayer, b: NativeLayer) -> bool {
        &&& b.quit_requested == a.quit_requested
        &&& b.run_calls == a.run_calls
        &&& b.wdecor_calls@ == a.wdecor_calls@
        &&& b.def_calls@ == a.def_calls@
        &&& b.paint_calls@ == a.paint_calls@
        &&& b.window_adds@ == a.window_adds@
        &&& b.cb_registrations@ == a.cb_registrations@
        &&& b.pixel_writes@ == a.pixel_writes@
        &&& b.image_set_rects@ == a.image_set_rects@
    }

    /// Whether every object other than `h` is untouched between `a` and `b`:
    /// same presence, same record, same liveness.
    pub open spec fn others_preserved(a: NativeLayer, b: NativeLayer, h: u64) -> bool {
        forall|g: u64|
            #![trigger b.has_obj(g)]
            #![trigger b.live(g)]
            g != h ==> {
                &&& b.has_obj(g) == a.has_obj(g)
                &&& (a.has_obj(g) ==> b.obj(g) == a.obj(g))
                &&& b.live(g) == a.live(g)
            }
    }

    /// Like [`Self::others_preserved`], with two exempt handles.
    pub open spec fn others_preserved2(a: NativeLayer, b: NativeLayer, h1: u64, h2: u64) -> bool {
        forall|g: u64|
            #![trigger b.has_obj(g)]
            #![trigger b.live(g)]
            g != h1 && g != h2 ==> {
                &&& b.has_obj(g) == a.has_obj(g)
                &&& (a.has_obj(g) ==> b.obj(g) == a.obj(g))
                &&& b.live(g) == a.live(g)
            }
    }

    /// A fresh toolkit model: no objects, empty logs, every creation call set
    /// to succeed, no decoration, an empty application rectangle, and key
    /// events left unclaimed. The first handle handed out is `1`.
    pub fn new() -> (n: NativeLayer)
        ensures
            n.wf(),
            n.next_handle == 1,
            n.created@ == Seq::<u64>::empty(),
            n.destroyed@ == Seq::<u64>::empty(),
            n.objects@ == Seq::<ObjectRec>::empty(),
            n.config == (MockConfig {
                ui_create_status: 0,
                window_create_status: 0,
                bitmap_create_status: 0,
                image_create_status: 0,
                bitmap_alloc_status: 0,
                decor: DecorInsets { left: 0, top: 0, right: 0, bottom: 0 },
                app_rect: GfxRect {
                    p0: GfxCoord2 { x: 0, y: 0 },
                    p1: GfxCoord2 { x: 0, y: 0 },
                },
                kbd_claim: false,
            }),
            !n.quit_requested,
            n.run_calls == 0,
            n.wdecor_calls@ == Seq::<WdecorCall>::empty(),
            n.def_calls@ == Seq::<DefCall>::empty(),
            n.paint_calls@ == Seq::<u64>::empty(),
            n.window_adds@ == Seq::<(u64, u64)>::empty(),
            n.cb_registrations@ == Seq::<u64>::empty(),
            n.pixel_writes@ == Seq::<PixelWrite>::empty(),
            n.image_set_rects@ == Seq::<(u64, GfxRect)>::empty(),
    {
        NativeLayer {
            next_handle: 1,
            created: Vec::new(),
            destroyed: Vec::new(),
            objects: Vec::new(),
            config: MockConfig {
                ui_create_status: 0,
                window_create_status: 0,
                bitmap_create_status: 0,
                image_create_status: 0,
                bitmap_alloc_status: 0,
                decor: DecorInsets { left: 0, top: 0, right: 0, bottom: 0 },
                app_rect: GfxRect {
                    p0: GfxCoord2 { x: 0, y: 0 },
                    p1: GfxCoord2 { x: 0, y: 0 },
                },
                kbd_claim: false,
            },
            quit_requested: false,
            run_calls: 0,
            wdecor_calls: Vec::new(),
            def_calls: Vec::new(),
            paint_calls: Vec::new(),
            window_adds: Vec::new(),
            cb_registrations: Vec::new(),
            pixel_writes: Vec::new(),
            image_set_rects: Vec::new(),
        }
    }
}

/// Under `wf`, the handle of every object is carried at exactly one position,
/// so any position holding `h` is `obj_idx(h)`.
proof fn lemma_obj_idx_unique(n: NativeLayer, h: u64, i: int)
    requires
        n.wf(),
        0 <= i < n.objects@.len(),
        n.objects@[i].handle == h,
    ensures
        n.has_obj(h),
        n.obj_idx(h) == i,
        n.obj(h) == n.objects@[i],
{
    assert(n.has_obj(h));
    let j = n.obj_idx(h);
    assert(0 <= j < n.objects@.len() && n.objects@[j].handle == h);
    if i != j {
        assert(n.objects@[i].handle != n.objects@[j].handle);
    }
}

/// The next handle is fresh: it was never created, never destroyed, and no
/// object carries or owns it.
proof fn lemma_fresh_handle(n: NativeLayer)
    requires
        n.wf(),
    ensures
        !n.created@.contains(n.next_handle),
        !n.destroyed@.contains(n.next_handle),
        forall|i: int|
            0 <= i < n.objects@.len() ==> (#[trigger] n.objects@[i]).handle != n.next_handle,
        forall|i: int|
            0 <= i < n.objects@.len() && rec_is_image(#[trigger] n.objects@[i])
                ==> rec_owned_bitmap(n.objects@[i]) != n.next_handle,
        !n.has_obj(n.next_handle),
{
    assert forall|i: int| 0 <= i < n.created@.len() implies #[trigger] n.created@[i]
        != n.next_handle by {
        assert(n.created@[i] < n.next_handle);
    }
    assert(!n.created@.contains(n.next_handle));
    assert forall|i: int| 0 <= i < n.destroyed@.len() implies #[trigger] n.destroyed@[i]
        != n.next_handle by {
        assert(n.created@.contains(n.destroyed@[i]));
    }
    assert(!n.destroyed@.contains(n.next_handle));
    assert forall|i: int| 0 <= i < n.objects@.len() implies (#[trigger] n.objects@[i]).handle
        != n.next_handle by {
        assert(n.created@.contains(n.objects@[i].handle));
    }
    assert forall|i: int|
        0 <= i < n.objects@.len() && rec_is_image(#[trigger] n.objects@[i])
            implies rec_owned_bitmap(n.objects@[i]) != n.next_handle by {
        assert(n.created@.contains(rec_owned_bitmap(n.objects@[i])));
    }
}

/// Appending a fresh, non-image object keeps the model well formed and
/// leaves every other object untouched.
proof fn lemma_create_wf(a: NativeLayer, b: NativeLayer, rec: ObjectRec)
    requires
        a.wf(),
        a.next_handle < u64::MAX,
        rec.handle == a.next_handle,
        !rec_is_image(rec),
        b.next_handle == a.next_handle + 1,
        b.created@ == a.created@.push(rec.handle),
        b.destroyed@ == a.destroyed@,
        b.objects@ == a.objects@.push(rec),
    ensures
        b.wf(),
        NativeLayer::others_preserved(a, b, rec.handle),
        b.has_obj(rec.handle),
        b.obj(rec.handle) == rec,
        b.live(rec.handle),
        !a.created@.contains(rec.handle),
        !a.has_obj(rec.handle),
{
    broadcast use vstd::seq_lib::lemma_seq_contains_after_push;

    lemma_fresh_handle(a);
    assert(b.created@.last() == rec.handle);
    assert(b.created@.contains(rec.handle));
    assert(b.wf());
    lemma_obj_idx_unique(b, rec.handle, a.objects@.len() as int);
    assert(b.live(rec.handle));
    assert forall|g: u64| g != rec.handle implies {
        &&& #[trigger] b.has_obj(g) == a.has_obj(g)
        &&& (a.has_obj(g) ==> b.obj(g) == a.obj(g))
        &&& b.live(g) == a.live(g)
    } by {
        if a.has_obj(g) {
            let i = a.obj_idx(g);
            assert(b.objects@[i].handle == g);
            lemma_obj_idx_unique(b, g, i);
            lemma_obj_idx_unique(a, g, i);
        }
        if b.has_obj(g) {
            let i = b.obj_idx(g);
            assert(b.objects@[i].handle == g);
            assert(i < a.objects@.len());
            assert(a.objects@[i].handle == g);
            assert(a.has_obj(g));
        }
        assert(a.created@.contains(g) == b.created@.contains(g)) by {
            if a.created@.contains(g) {
                let i = choose|i: int| 0 <= i < a.created@.len() && a.created@[i] == g;
                assert(b.created@[i] == g);
            }
            if b.created@.contains(g) {
                let i = choose|i: int| 0 <= i < b.created@.len() && b.created@[i] == g;
                assert(i < a.created@.len());
                assert(a.created@[i] == g);
            }
        }
    }
    if a.has_obj(rec.handle) {
        let i = a.obj_idx(rec.handle);
        assert(a.objects@[i].handle == rec.handle);
    }
}

/// Removing object `h` and recording its destruction keeps the model well
/// formed and leaves every other object untouched. Destroying an image also
/// records the destruction of the bitmap it owns, first.
proof fn lemma_destroy_wf(a: NativeLayer, b: NativeLayer, h: u64)
    requires
        a.wf(),
        a.has_obj(h),
        b.objects@ == a.objects@.remove(a.obj_idx(h)),
        b.created@ == a.created@,
        b.next_handle == a.next_handle,
        !rec_is_image(a.obj(h)) ==> b.destroyed@ == a.destroyed@.push(h),
        rec_is_image(a.obj(h)) ==> b.destroyed@ == a.destroyed@.push(
            rec_owned_bitmap(a.obj(h)),
        ).push(h),
    ensures
        b.wf(),
        rec_is_image(a.obj(h)) ==> NativeLayer::others_preserved2(
            a,
            b,
            h,
            rec_owned_bitmap(a.obj(h)),
        ),
        !rec_is_image(a.obj(h)) ==> NativeLayer::others_preserved(a, b, h),
        !b.has_obj(h),
        !b.live(h),
        rec_is_image(a.obj(h)) ==> !b.live(rec_owned_bitmap(a.obj(h))),
{
    let k = a.obj_idx(h);
    let bmp = rec_owned_bitmap(a.obj(h));
    let is_img = rec_is_image(a.obj(h));
    assert(0 <= k < a.objects@.len() && a.objects@[k].handle == h);

    // The destruction record stays duplicate-free and within created handles.
    assert(!a.destroyed@.contains(h)) by {
        if a.destroyed@.contains(h) {
            let i = choose|i: int| 0 <= i < a.destroyed@.len() && a.destroyed@[i] == h;
            assert(!a.destroyed@.contains(a.objects@[k].handle));
        }
    }
    if is_img {
        assert(!a.destroyed@.contains(bmp));
        assert(bmp != h) by {
            assert(a.objects@[k].handle != rec_owned_bitmap(a.objects@[k]));
        }
    }
    assert(a.created@.contains(h));
    if is_img {
        assert(a.created@.contains(bmp));
    }

    // Every object position in `b` maps back to a position in `a`.
    assert forall|i: int| 0 <= i < b.objects@.len() implies #[trigger] b.objects@[i]
        == a.objects@[if i < k { i } else { i + 1 }] by {}

    assert(b.wf()) by {
        assert forall|i: int, j: int| 0 <= i < j < b.destroyed@.len() implies b.destroyed@[i]
            != b.destroyed@[j] by {
            if j < a.destroyed@.len() {
            } else if i < a.destroyed@.len() {
                // The new entries are not among the old ones.
                assert(a.destroyed@.contains(a.destroyed@[i]));
            }
        }
        assert forall|i: int|
            0 <= i < b.destroyed@.len() implies a.created@.contains(
            #[trigger] b.destroyed@[i]) by {}
        assert forall|i: int|
            0 <= i < b.objects@.len() implies !b.destroyed@.contains(
            #[trigger] b.objects@[i].handle) by {
            let src = if i < k { i } else { i + 1 };
            assert(a.objects@[src] == b.objects@[i]);
            assert(!a.destroyed@.contains(a.objects@[src].handle));
            assert(b.objects@[i].handle != h) by {
                if src != k {
                    assert(a.objects@[src].handle != a.objects@[k].handle);
                }
            }
            if is_img {
                assert(b.objects@[i].handle != bmp) by {
                    assert(a.objects@[src].handle != rec_owned_bitmap(a.objects@[k]));
                }
            }
            if b.destroyed@.contains(b.objects@[i].handle) {
                let d = choose|d: int|
                    0 <= d < b.destroyed@.len() && b.destroyed@[d] == b.objects@[i].handle;
                assert(d < a.destroyed@.len());
                assert(a.destroyed@.contains(b.objects@[i].handle));
            }
        }
        assert forall|i: int|
            0 <= i < b.objects@.len() && rec_is_image(#[trigger] b.objects@[i])
                implies !b.destroyed@.contains(rec_owned_bitmap(b.objects@[i])) by {
            let src = if i < k { i } else { i + 1 };
            assert(a.objects@[src] == b.objects@[i]);
            assert(!a.destroyed@.contains(rec_owned_bitmap(a.objects@[src])));
            assert(rec_owned_bitmap(b.objects@[i]) != h) by {
                assert(a.objects@[k].handle != rec_owned_bitmap(a.objects@[src]));
            }
            if is_img {
                assert(rec_owned_bitmap(b.objects@[i]) != bmp) by {
                    assert(src != k);
                }
            }
            if b.destroyed@.contains(rec_owned_bitmap(b.objects@[i])) {
                let d = choose|d: int|
                    0 <= d < b.destroyed@.len() && b.destroyed@[d] == rec_owned_bitmap(
                        b.objects@[i],
                    );
                assert(d < a.destroyed@.len());
                assert(a.destroyed@.contains(rec_owned_bitmap(b.objects@[i])));
            }
        }
    }

    assert(!b.has_obj(h)) by {
        if b.has_obj(h) {
            let i = b.obj_idx(h);
            let src = if i < k { i } else { i + 1 };
            assert(a.objects@[src].handle == a.objects@[k].handle);
        }
    }
    if is_img {
        assert(!b.live(bmp)) by {
            assert(b.destroyed@.contains(bmp)) by {
                assert(b.destroyed@[a.destroyed@.len() as int] == bmp);
            }
        }
    }
    assert(!b.live(h)) by {
        assert(b.destroyed@.contains(h)) by {
            assert(b.destroyed@.last() == h);
        }
    }

    assert forall|g: u64| g != h && (is_img ==> g != bmp) implies {
        &&& #[trigger] b.has_obj(g) == a.has_obj(g)
        &&& (a.has_obj(g) ==> b.obj(g) == a.obj(g))
        &&& b.live(g) == a.live(g)
    } by {
        if a.has_obj(g) {
            let i = a.obj_idx(g);
            assert(a.objects@[i].handle == g);
            assert(i != k);
            let dst = if i < k { i } else { i - 1 };
            assert(b.objects@[dst] == a.objects@[i]);
            lemma_obj_idx_unique(b, g, dst);
        }
        if b.has_obj(g) {
            let i = b.obj_idx(g);
            let src = if i < k { i } else { i + 1 };
            assert(a.objects@[src] == b.objects@[i]);
            lemma_obj_idx_unique(a, g, src);
        }
        assert(b.destroyed@.contains(g) == a.destroyed@.contains(g)) by {
            if a.destroyed@.contains(g) {
                let i = choose|i: int| 0 <= i < a.destroyed@.len() && a.destroyed@[i] == g;
                assert(b.destroyed@[i] == g);
            }
            if b.destroyed@.contains(g) {
                let i = choose|i: int| 0 <= i < b.destroyed@.len() && b.destroyed@[i] == g;
                assert(i < a.destroyed@.len());
                assert(a.destroyed@[i] == g);
            }
        }
    }
}

impl NativeLayer {
    /// The position of the live object with handle `h`.
    fn find_obj_index(&self, h: u64) -> (r: usize)
        requires
            self.wf(),
            self.has_obj(h),
        ensures
            r < self.objects@.len(),
            self.objects@[r as int].handle == h,
            r == self.obj_idx(h),
    {
        let mut i: usize = 0;
        while i < self.objects.len()
            invariant
                self.wf(),
                self.has_obj(h),
                i <= self.objects@.len(),
                forall|k: int| 0 <= k < i ==> (#[trigger] self.objects@[k]).handle != h,
            decreases self.objects@.len() - i,
        {
            if self.objects[i].handle == h {
                proof {
                    lemma_obj_idx_unique(*self, h, i as int);
                }
                return i;
            }
            i += 1;
        }
        proof {
            let w = self.obj_idx(h);
            assert(0 <= w < self.objects@.len() && self.objects@[w].handle == h);
            assert(false);
        }
        0
    }

    /// Creates the windowing context, per the toolkit's context creation
    /// entry point: on the configured success status a fresh handle is
    /// allocated and recorded; on failure nothing changes.
    pub fn ui_create(&mut self) -> (r: (i32, Option<u64>))
        requires
            old(self).wf(),
            old(self).next_handle < u64::MAX,
        ensures
            final(self).wf(),
            final(self).config == old(self).config,
            Self::same_logs(*old(self), *final(self)),
            old(self).config.ui_create_status == 0 ==> ({
                &&& r == (0i32, Some(old(self).next_handle))
                &&& final(self).next_handle == old(self).next_handle + 1
                &&& final(self).created@ == old(self).created@.push(old(self).next_handle)
                &&& final(self).destroyed@ == old(self).destroyed@
                &&& final(self).objects@ == old(self).objects@.push(
                    (ObjectRec { handle: old(self).next_handle, kind: ObjKind::Ui }),
                )
                &&& !old(self).created@.contains(old(self).next_handle)
                &&& final(self).ui_live(old(self).next_handle)
                &&& final(self).live(old(self).next_handle)
                &&& Self::others_preserved(*old(self), *final(self), old(self).next_handle)
            }),
            old(self).config.ui_create_status != 0 ==> r == (
                old(self).config.ui_create_status,
                None::<u64>,
            ) && Self::same_objects(*old(self), *final(self)),
    {
        if self.config.ui_create_status == 0 {
            let h = self.next_handle;
            self.next_handle = self.next_handle + 1;
            self.created.push(h);
            self.objects.push(ObjectRec { handle: h, kind: ObjKind::Ui });
            proof {
                lemma_create_wf(
                    *old(self),
                    *self,
                    ObjectRec { handle: h, kind: ObjKind::Ui },
                );
            }
            (0, Some(h))
        } else {
            (self.config.ui_create_status, None)
        }
    }

    /// Destroys the windowing context, per the toolkit's context destruction
    /// entry point. The handle must be live; it is recorded as destroyed and
    /// its object removed.
    pub fn ui_destroy(&mut self, h: u64)
        requires
            old(self).wf(),
            old(self).ui_live(h),
        ensures
            final(self).wf(),
            final(self).config == old(self).config,
            Self::same_logs(*old(self), *final(self)),
            final(self).created@ == old(self).created@,
            final(self).next_handle == old(self).next_handle,
            final(self).destroyed@ == old(self).destroyed@.push(h),
            !final(self).has_obj(h),
            !final(self).live(h),
            Self::others_preserved(*old(self), *final(self), h),
    {
        let i = self.find_obj_index(h);
        let rec = self.objects.remove(i);
        self.destroyed.push(rec.handle);
        proof {
            lemma_destroy_wf(*old(self), *self, h);
            assert(rec_owned_bitmap(old(self).obj(h)) == 0);
        }
    }

    /// Creates a window on context `ui` from `params`, per the toolkit's
    /// window creation entry point: on the configured success status a fresh
    /// handle is allocated and the parameters are recorded with it; on
    /// failure nothing changes.
    pub fn ui_window_create(&mut self, ui: u64, params: WndParams) -> (r: (i32, Option<u64>))
        requires
            old(self).wf(),
            old(self).next_handle < u64::MAX,
            old(self).ui_live(ui),
        ensures
            final(self).wf(),
            final(self).config == old(self).config,
            Self::same_logs(*old(self), *final(self)),
            old(self).config.window_create_status == 0 ==> r == (
                0i32,
                Some(old(self).next_handle),
            ),
            old(self).config.window_create_status == 0 ==> final(self).next_handle == old(self).next_handle + 1,
            old(self).config.window_create_status == 0 ==> final(self).created@ == old(self).created@.push(old(self).next_handle),
            old(self).config.window_create_status == 0 ==> final(self).destroyed@ == old(self).destroyed@,
            old(self).config.window_create_status == 0 ==> !old(self).created@.contains(
                old(self).next_handle,
            ),
            old(self).config.window_create_status == 0 ==> final(self).window_live(
                old(self).next_handle,
            ) && final(self).live(old(self).next_handle),
            old(self).config.window_create_status == 0 ==> final(self).window_caption(
                old(self).next_handle,
            ) == params.caption@,
            old(self).config.window_create_status == 0 ==> final(self).window_rect(
                old(self).next_handle,
            ) == params.rect && final(self).window_style(old(self).next_handle) == params.style,
            old(self).config.window_create_status == 0 ==> final(self).ui_live(ui),
            old(self).config.window_create_status == 0 ==> Self::others_preserved(
                *old(self),
                *final(self),
                old(self).next_handle,
            ),
            old(self).config.window_create_status != 0 ==> r == (
                old(self).config.window_create_status,
                None::<u64>,
            ) && Self::same_objects(*old(self), *final(self)),
    {
        if self.config.window_create_status == 0 {
            let h = self.next_handle;
            self.next_handle = self.next_handle + 1;
            self.created.push(h);
            let ghost rec = ObjectRec {
                handle: h,
                kind: ObjKind::Window {
                    caption: params.caption,
                    rect: params.rect,
                    style: params.style,
                },
            };
            self.objects.push(
                ObjectRec {
                    handle: h,
                    kind: ObjKind::Window {
                        caption: params.caption,
                        rect: params.rect,
                        style: params.style,
                    },
                },
            );
            proof {
                lemma_create_wf(*old(self), *self, rec);
                lemma_obj_idx_unique(*self, h, old(self).objects@.len() as int);
                assert(old(self).has_obj(ui));
                assert(ui != h);
                assert(self.has_obj(ui) == old(self).has_obj(ui));
                assert(self.obj(ui) == old(self).obj(ui));
                assert(self.ui_live(ui));
            }
            (0, Some(h))
        } else {
            (self.config.window_create_status, None)
        }
    }

    /// Registers the callback table for window `w`, per the toolkit's
    /// callback registration entry point. The model records the registration.
    pub fn ui_window_set_cb(&mut self, w: u64)
        requires
            old(self).window_live(w),
        ensures
            Self::same_objects(*old(self), *final(self)),
            final(self).config == old(self).config,
            final(self).cb_registrations@ == old(self).cb_registrations@.push(w),
            final(self).quit_requested == old(self).quit_requested,
            final(self).run_calls == old(self).run_calls,
            final(self).wdecor_calls@ == old(self).wdecor_calls@,
            final(self).def_calls@ == old(self).def_calls@,
            final(self).paint_calls@ == old(self).paint_calls@,
            final(self).window_adds@ == old(self).window_adds@,
            final(self).pixel_writes@ == old(self).pixel_writes@,
            final(self).image_set_rects@ == old(self).image_set_rects@,
    {
        self.cb_registrations.push(w);
    }

    /// Destroys window `w`, per the toolkit's window destruction entry point.
    pub fn ui_window_destroy(&mut self, w: u64)
        requires
            old(self).wf(),
            old(self).window_live(w),
        ensures
            final(self).wf(),
            final(self).config == old(self).config,
            Self::same_logs(*old(self), *final(self)),
            final(self).created@ == old(self).created@,
            final(self).next_handle == old(self).next_handle,
            final(self).destroyed@ == old(self).destroyed@.push(w),
            !final(self).has_obj(w),
            !final(self).live(w),
            Self::others_preserved(*old(self), *final(self), w),
    {
        let i = self.find_obj_index(w);
        let rec = self.objects.remove(i);
        self.destroyed.push(rec.handle);
        proof {
            lemma_destroy_wf(*old(self), *self, w);
            assert(rec_owned_bitmap(old(self).obj(w)) == 0);
        }
    }

    /// Creates a bitmap from `params`, per the toolkit's bitmap creation
    /// entry point: on the configured success status a fresh handle is
    /// allocated for a bitmap of the rectangle's dimensions; on failure
    /// nothing changes. The drawing context is accepted and not recorded.
    pub fn gfx_bitmap_create(&mut self, _ctx: u64, params: BitmapParams) -> (r: (i32, Option<
        u64,
    >))
        requires
            old(self).wf(),
            old(self).next_handle < u64::MAX,
            params.rect.p0.x == 0,
            params.rect.p0.y == 0,
            0 <= params.rect.p1.x,
            0 <= params.rect.p1.y,
        ensures
            final(self).wf(),
            final(self).config == old(self).config,
            Self::same_logs(*old(self), *final(self)),
            old(self).config.bitmap_create_status == 0 ==> ({
                &&& r == (0i32, Some(old(self).next_handle))
                &&& final(self).next_handle == old(self).next_handle + 1
                &&& final(self).created@ == old(self).created@.push(old(self).next_handle)
                &&& final(self).destroyed@ == old(self).destroyed@
                &&& !old(self).created@.contains(old(self).next_handle)
                &&& final(self).bitmap_live(old(self).next_handle)
                &&& final(self).live(old(self).next_handle)
                &&& final(self).bitmap_width(old(self).next_handle) == params.rect.p1.x as u32
                &&& final(self).bitmap_height(old(self).next_handle) == params.rect.p1.y as u32
                &&& Self::others_preserved(*old(self), *final(self), old(self).next_handle)
            }),
            old(self).config.bitmap_create_status != 0 ==> r == (
                old(self).config.bitmap_create_status,
                None::<u64>,
            ) && Self::same_objects(*old(self), *final(self)),
    {
        if self.config.bitmap_create_status == 0 {
            let h = self.next_handle;
            self.next_handle = self.next_handle + 1;
            self.created.push(h);
            let width = params.rect.p1.x as u32;
            let height = params.rect.p1.y as u32;
            self.objects.push(ObjectRec { handle: h, kind: ObjKind::Bitmap { width, height } });
            proof {
                lemma_create_wf(
                    *old(self),
                    *self,
                    ObjectRec { handle: h, kind: ObjKind::Bitmap { width, height } },
                );
                lemma_obj_idx_unique(*self, h, old(self).objects@.len() as int);
            }
            (0, Some(h))
        } else {
            (self.config.bitmap_create_status, None)
        }
    }

    /// Re-derives access to the pixel allocation of live bitmap `bmp`, per
    /// the toolkit's bitmap allocation query: it reports the configured
    /// status and nothing else observable.
    pub fn gfx_bitmap_get_alloc(&self, bmp: u64) -> (r: (i32, Option<()>))
        requires
            self.bitmap_live(bmp),
        ensures
            r == if self.config.bitmap_alloc_status == 0 {
                (0i32, Some(()))
            } else {
                (self.config.bitmap_alloc_status, None::<()>)
            },
    {
        if self.config.bitmap_alloc_status == 0 {
            (0, Some(()))
        } else {
            (self.config.bitmap_alloc_status, None)
        }
    }

    /// Writes one packed pixel into live bitmap `bmp` at `(x, y)`, per the
    /// toolkit's pixel map writer. The cell must lie within the bitmap.
    pub fn pixelmap_put_pixel(&mut self, bmp: u64, x: usize, y: usize, pixel: u32)
        requires
            old(self).bitmap_live(bmp),
            x < old(self).bitmap_width(bmp),
            y < old(self).bitmap_height(bmp),
        ensures
            Self::same_objects(*old(self), *final(self)),
            final(self).config == old(self).config,
            final(self).pixel_writes@ == old(self).pixel_writes@.push(
                (PixelWrite { bitmap: bmp, x, y, pixel }),
            ),
            final(self).quit_requested == old(self).quit_requested,
            final(self).run_calls == old(self).run_calls,
            final(self).wdecor_calls@ == old(self).wdecor_calls@,
            final(self).def_calls@ == old(self).def_calls@,
            final(self).paint_calls@ == old(self).paint_calls@,
            final(self).window_adds@ == old(self).window_adds@,
            final(self).cb_registrations@ == old(self).cb_registrations@,
            final(self).image_set_rects@ == old(self).image_set_rects@,
    {
        self.pixel_writes.push(PixelWrite { bitmap: bmp, x, y, pixel });
    }

    /// Destroys the independently owned bitmap `bmp`, per the toolkit's
    /// bitmap destruction entry point. A bitmap whose ownership moved into an
    /// image widget is not independently owned and cannot be destroyed here.
    pub fn gfx_bitmap_destroy(&mut self, bmp: u64)
        requires
            old(self).wf(),
            old(self).bitmap_live(bmp),
        ensures
            final(self).wf(),
            final(self).config == old(self).config,
            Self::same_logs(*old(self), *final(self)),
            final(self).created@ == old(self).created@,
            final(self).next_handle == old(self).next_handle,
            final(self).destroyed@ == old(self).destroyed@.push(bmp),
            !final(self).has_obj(bmp),
            !final(self).live(bmp),
            Self::others_preserved(*old(self), *final(self), bmp),
    {
        let i = self.find_obj_index(bmp);
        let rec = self.objects.remove(i);
        self.destroyed.push(rec.handle);
        proof {
            lemma_destroy_wf(*old(self), *self, bmp);
            assert(rec_owned_bitmap(old(self).obj(bmp)) == 0);
        }
    }

    /// Creates an image widget on resource `res` showing bitmap `bmp`, per
    /// the toolkit's image creation entry point: on the configured success
    /// status a fresh handle is allocated and the ownership of `bmp` moves
    /// into the image — the bitmap stops being independently owned, stays
    /// alive, and is released only by the image's own teardown. On failure
    /// nothing changes.
    pub fn ui_image_create(&mut self, res: u64, bmp: u64, rect: GfxRect) -> (r: (i32, Option<
        u64,
    >))
        requires
            old(self).wf(),
            old(self).next_handle < u64::MAX,
            old(self).config.image_create_status == 0 ==> old(self).bitmap_live(bmp),
        ensures
            final(self).wf(),
            final(self).config == old(self).config,
            Self::same_logs(*old(self), *final(self)),
            old(self).config.image_create_status == 0 ==> ({
                &&& r == (0i32, Some(old(self).next_handle))
                &&& final(self).next_handle == old(self).next_handle + 1
                &&& final(self).created@ == old(self).created@.push(old(self).next_handle)
                &&& final(self).destroyed@ == old(self).destroyed@
                &&& !old(self).created@.contains(old(self).next_handle)
                &&& final(self).image_live(old(self).next_handle)
                &&& final(self).live(old(self).next_handle)
                &&& final(self).image_bitmap(old(self).next_handle) == bmp
                &&& !final(self).bitmap_live(bmp)
                &&& !final(self).has_obj(bmp)
                &&& final(self).live(bmp)
                &&& Self::others_preserved2(
                    *old(self),
                    *final(self),
                    bmp,
                    old(self).next_handle,
                )
            }),
            old(self).config.image_create_status != 0 ==> r == (
                old(self).config.image_create_status,
                None::<u64>,
            ) && Self::same_objects(*old(self), *final(self)),
    {
        if self.config.image_create_status == 0 {
            let i = self.find_obj_index(bmp);
            let _brec = self.objects.remove(i);
            let h = self.next_handle;
            self.next_handle = self.next_handle + 1;
            self.created.push(h);
            self.objects.push(
                ObjectRec { handle: h, kind: ObjKind::Image { res, bitmap: bmp } },
            );
            proof {
                lemma_image_create_wf(*old(self), *self, res, bmp);
            }
            (0, Some(h))
        } else {
            (self.config.image_create_status, None)
        }
    }

    /// Sets the on-screen rectangle of live image `img`, per the toolkit's
    /// image geometry entry point. The model records the request.
    pub fn ui_image_set_rect(&mut self, img: u64, rect: GfxRect)
        requires
            old(self).image_live(img),
        ensures
            Self::same_objects(*old(self), *final(self)),
            final(self).config == old(self).config,
            final(self).image_set_rects@ == old(self).image_set_rects@.push((img, rect)),
            final(self).quit_requested == old(self).quit_requested,
            final(self).run_calls == old(self).run_calls,
            final(self).wdecor_calls@ == old(self).wdecor_calls@,
            final(self).def_calls@ == old(self).def_calls@,
            final(self).paint_calls@ == old(self).paint_calls@,
            final(self).window_adds@ == old(self).window_adds@,
            final(self).cb_registrations@ == old(self).cb_registrations@,
            final(self).pixel_writes@ == old(self).pixel_writes@,
    {
        self.image_set_rects.push((img, rect));
    }

    /// Destroys live image `img`, per the toolkit's control teardown: the
    /// bitmap the image owns is released first, then the image itself.
    pub fn ui_image_destroy(&mut self, img: u64)
        requires
            old(self).wf(),
            old(self).image_live(img),
        ensures
            final(self).wf(),
            final(self).config == old(self).config,
            Self::same_logs(*old(self), *final(self)),
            final(self).created@ == old(self).created@,
            final(self).next_handle == old(self).next_handle,
            final(self).destroyed@ == old(self).destroyed@.push(
                old(self).image_bitmap(img),
            ).push(img),
            !final(self).has_obj(img),
            !final(self).live(img),
            !final(self).live(old(self).image_bitmap(img)),
            Self::others_preserved2(*old(self), *final(self), img, old(self).image_bitmap(img)),
    {
        let i = self.find_obj_index(img);
        let rec = self.objects.remove(i);
        match &rec.kind {
            ObjKind::Image { bitmap, .. } => {
                self.destroyed.push(*bitmap);
            },
            _ => {
                proof {
                    assert(false);
                }
            },
        }
        self.destroyed.push(rec.handle);
        proof {
            lemma_destroy_wf(*old(self), *self, img);
        }
    }

    /// The drawing context of live window `w`. The model addresses a
    /// window's drawing context by the window handle itself.
    pub fn ui_window_get_gc(&self, w: u64) -> (r: u64)
        requires
            self.window_live(w),
        ensures
            r == w,
    {
        w
    }

    /// The resource of live window `w`. The model addresses a window's
    /// resource by the window handle itself.
    pub fn ui_window_get_res(&self, w: u64) -> (r: u64)
        requires
            self.window_live(w),
        ensures
            r == w,
    {
        w
    }

    /// The application rectangle of live window `w`, per the toolkit's query:
    /// the call cannot fail and reports the configured application rectangle.
    pub fn ui_window_get_app_rect(&self, w: u64) -> (r: ((), Option<GfxRect>))
        requires
            self.window_live(w),
        ensures
            r == ((), Some(self.config.app_rect)),
    {
        ((), Some(self.config.app_rect))
    }

    /// Adds control `ctl` to live window `w`, per the toolkit's control
    /// attachment entry point. The model records the pair.
    pub fn ui_window_add(&mut self, w: u64, ctl: u64)
        requires
            old(self).window_live(w),
        ensures
            Self::same_objects(*old(self), *final(self)),
            final(self).config == old(self).config,
            final(self).window_adds@ == old(self).window_adds@.push((w, ctl)),
            final(self).quit_requested == old(self).quit_requested,
            final(self).run_calls == old(self).run_calls,
            final(self).wdecor_calls@ == old(self).wdecor_calls@,
            final(self).def_calls@ == old(self).def_calls@,
            final(self).paint_calls@ == old(self).paint_calls@,
            final(self).cb_registrations@ == old(self).cb_registrations@,
            final(self).pixel_writes@ == old(self).pixel_writes@,
            final(self).image_set_rects@ == old(self).image_set_rects@,
    {
        self.window_adds.push((w, ctl));
    }

    /// Requests a repaint of window `w`, per the toolkit's paint entry point.
    /// The model records the request without checking the handle.
    pub fn ui_window_paint(&mut self, w: u64)
        ensures
            Self::same_objects(*old(self), *final(self)),
            final(self).config == old(self).config,
            final(self).paint_calls@ == old(self).paint_calls@.push(w),
            final(self).quit_requested == old(self).quit_requested,
            final(self).run_calls == old(self).run_calls,
            final(self).wdecor_calls@ == old(self).wdecor_calls@,
            final(self).def_calls@ == old(self).def_calls@,
            final(self).window_adds@ == old(self).window_adds@,
            final(self).cb_registrations@ == old(self).cb_registrations@,
            final(self).pixel_writes@ == old(self).pixel_writes@,
            final(self).image_set_rects@ == old(self).image_set_rects@,
    {
        self.paint_calls.push(w);
    }

    /// Computes the window rectangle for application rectangle `rect` under
    /// decoration style `style`, per the toolkit's decoration sizing entry
    /// point: the configured insets are added around the rectangle. The call
    /// is recorded.
    pub fn ui_wdecor_rect_from_app(&mut self, style: u32, rect: GfxRect) -> (r: GfxRect)
        requires
            decor_ok(old(self).config.decor),
            rect_decor_safe(rect),
        ensures
            r.p0.x == rect.p0.x - old(self).config.decor.left,
            r.p0.y == rect.p0.y - old(self).config.decor.top,
            r.p1.x == rect.p1.x + old(self).config.decor.right,
            r.p1.y == rect.p1.y + old(self).config.decor.bottom,
            Self::same_objects(*old(self), *final(self)),
            final(self).config == old(self).config,
            final(self).wdecor_calls@ == old(self).wdecor_calls@.push(
                (WdecorCall { style, rect }),
            ),
            final(self).quit_requested == old(self).quit_requested,
            final(self).run_calls == old(self).run_calls,
            final(self).def_calls@ == old(self).def_calls@,
            final(self).paint_calls@ == old(self).paint_calls@,
            final(self).window_adds@ == old(self).window_adds@,
            final(self).cb_registrations@ == old(self).cb_registrations@,
            final(self).pixel_writes@ == old(self).pixel_writes@,
            final(self).image_set_rects@ == old(self).image_set_rects@,
    {
        self.wdecor_calls.push(WdecorCall { style, rect });
        GfxRect {
            p0: GfxCoord2 {
                x: rect.p0.x - self.config.decor.left,
                y: rect.p0.y - self.config.decor.top,
            },
            p1: GfxCoord2 {
                x: rect.p1.x + self.config.decor.right,
                y: rect.p1.y + self.config.decor.bottom,
            },
        }
    }

    /// Enters the toolkit's event loop on context `ui`. Events are delivered
    /// by the caller of the model, so the call only records that the loop was
    /// entered; it returns once a quit is requested.
    pub fn ui_run(&mut self, _ui: u64)
        requires
            old(self).run_calls < u64::MAX,
        ensures
            Self::same_objects(*old(self), *final(self)),
            final(self).config == old(self).config,
            final(self).run_calls == old(self).run_calls + 1,
            final(self).quit_requested == old(self).quit_requested,
            final(self).wdecor_calls@ == old(self).wdecor_calls@,
            final(self).def_calls@ == old(self).def_calls@,
            final(self).paint_calls@ == old(self).paint_calls@,
            final(self).window_adds@ == old(self).window_adds@,
            final(self).cb_registrations@ == old(self).cb_registrations@,
            final(self).pixel_writes@ == old(self).pixel_writes@,
            final(self).image_set_rects@ == old(self).image_set_rects@,
    {
        self.run_calls = self.run_calls + 1;
    }

    /// Requests that the event loop on context `ui` terminate, per the
    /// toolkit's quit entry point.
    pub fn ui_quit(&mut self, _ui: u64)
        ensures
            Self::same_objects(*old(self), *final(self)),
            final(self).config == old(self).config,
            final(self).quit_requested,
            final(self).run_calls == old(self).run_calls,
            final(self).wdecor_calls@ == old(self).wdecor_calls@,
            final(self).def_calls@ == old(self).def_calls@,
            final(self).paint_calls@ == old(self).paint_calls@,
            final(self).window_adds@ == old(self).window_adds@,
            final(self).cb_registrations@ == old(self).cb_registrations@,
            final(self).pixel_writes@ == old(self).pixel_writes@,
            final(self).image_set_rects@ == old(self).image_set_rects@,
    {
        self.quit_requested = true;
    }

    /// Runs the toolkit's default key handling for window `w` and reports
    /// whether the default handler claimed the event: the configured claim
    /// decision. The call is recorded.
    pub fn ui_window_def_kbd(&mut self, w: u64, _event: KbdEvent) -> (claim: bool)
        ensures
            claim == old(self).config.kbd_claim,
            Self::same_objects(*old(self), *final(self)),
            final(self).config == old(self).config,
            final(self).def_calls@ == old(self).def_calls@.push(DefCall::Kbd(w)),
            final(self).quit_requested == old(self).quit_requested,
            final(self).run_calls == old(self).run_calls,
            final(self).wdecor_calls@ == old(self).wdecor_calls@,
            final(self).paint_calls@ == old(self).paint_calls@,
            final(self).window_adds@ == old(self).window_adds@,
            final(self).cb_registrations@ == old(self).cb_registrations@,
            final(self).pixel_writes@ == old(self).pixel_writes@,
            final(self).image_set_rects@ == old(self).image_set_rects@,
    {
        self.def_calls.push(DefCall::Kbd(w));
        self.config.kbd_claim
    }

    /// Runs the toolkit's default resize handling for window `w`: a layout
    /// recompute with no observable result. The call is recorded.
    pub fn ui_window_def_resize(&mut self, w: u64)
        ensures
            Self::same_objects(*old(self), *final(self)),
            final(self).config == old(self).config,
            final(self).def_calls@ == old(self).def_calls@.push(DefCall::Resize(w)),
            final(self).quit_requested == old(self).quit_requested,
            final(self).run_calls == old(self).run_calls,
            final(self).wdecor_calls@ == old(self).wdecor_calls@,
            final(self).paint_calls@ == old(self).paint_calls@,
            final(self).window_adds@ == old(self).window_adds@,
            final(self).cb_registrations@ == old(self).cb_registrations@,
            final(self).pixel_writes@ == old(self).pixel_writes@,
            final(self).image_set_rects@ == old(self).image_set_rects@,
    {
        self.def_calls.push(DefCall::Resize(w));
    }

    /// Runs the toolkit's default maximize handling for window `w`. The call
    /// is recorded.
    pub fn ui_window_def_maximize(&mut self, w: u64)
        ensures
            Self::same_objects(*old(self), *final(self)),
            final(self).config == old(self).config,
            final(self).def_calls@ == old(self).def_calls@.push(DefCall::Maximize(w)),
            final(self).quit_requested == old(self).quit_requested,
            final(self).run_calls == old(self).run_calls,
            final(self).wdecor_calls@ == old(self).wdecor_calls@,
            final(self).paint_calls@ == old(self).paint_calls@,
            final(self).window_adds@ == old(self).window_adds@,
            final(self).cb_registrations@ == old(self).cb_registrations@,
            final(self).pixel_writes@ == old(self).pixel_writes@,
            final(self).image_set_rects@ == old(self).image_set_rects@,
    {
        self.def_calls.push(DefCall::Maximize(w));
    }

    /// Runs the toolkit's default unmaximize handling for window `w`. The
    /// call is recorded.
    pub fn ui_window_def_unmaximize(&mut self, w: u64)
        ensures
            Self::same_objects(*old(self), *final(self)),
            final(self).config == old(self).config,
            final(self).def_calls@ == old(self).def_calls@.push(DefCall::Unmaximize(w)),
            final(self).quit_requested == old(self).quit_requested,
            final(self).run_calls == old(self).run_calls,
            final(self).wdecor_calls@ == old(self).wdecor_calls@,
            final(self).paint_calls@ == old(self).paint_calls@,
            final(self).window_adds@ == old(self).window_adds@,
            final(self).cb_registrations@ == old(self).cb_registrations@,
            final(self).pixel_writes@ == old(self).pixel_writes@,
            final(self).image_set_rects@ == old(self).image_set_rects@,
    {
        self.def_calls.push(DefCall::Unmaximize(w));
    }
}

/// Initializes window parameters, per the toolkit's parameter initialization
/// entry point: an empty rectangle, an empty caption, and the default
/// decorated style. The call cannot fail.
pub fn ui_wnd_params_init() -> (r: ((), Option<WndParams>))
    ensures
        r.1 matches Some(p) && p.rect == origin_params_rect() && p.caption@
            == Seq::<char>::empty() && p.style == WDS_DECORATED,
{
    (
        (),
        Some(
            WndParams {
                rect: GfxRect { p0: GfxCoord2 { x: 0, y: 0 }, p1: GfxCoord2 { x: 0, y: 0 } },
                caption: String::new(),
                style: WDS_DECORATED,
            },
        ),
    )
}

/// Initializes bitmap parameters, per the toolkit's parameter initialization
/// entry point: an empty rectangle. The call cannot fail.
pub fn gfx_bitmap_params_init() -> (r: ((), Option<BitmapParams>))
    ensures
        r == ((), Some(BitmapParams { rect: origin_params_rect() })),
{
    ((), Some(BitmapParams { rect: GfxRect { p0: GfxCoord2 { x: 0, y: 0 }, p1: GfxCoord2 { x: 0, y: 0 } } }))
}

/// The empty rectangle the parameter initialization calls start from.
pub open spec fn origin_params_rect() -> GfxRect {
    GfxRect { p0: GfxCoord2 { x: 0, y: 0 }, p1: GfxCoord2 { x: 0, y: 0 } }
}

/// Removing one bitmap object and appending a fresh image that owns its
/// handle keeps the model well formed; the bitmap stops being an object of
/// its own but stays created and undestroyed.
proof fn lemma_image_create_wf(a: NativeLayer, b: NativeLayer, res: u64, bmp: u64)
    requires
        a.wf(),
        a.next_handle < u64::MAX,
        a.bitmap_live(bmp),
        b.created@ == a.created@.push(a.next_handle),
        b.destroyed@ == a.destroyed@,
        b.next_handle == a.next_handle + 1,
        b.objects@ == a.objects@.remove(a.obj_idx(bmp)).push(
            (ObjectRec {
                handle: a.next_handle,
                kind: ObjKind::Image { res, bitmap: bmp },
            }),
        ),
    ensures
        b.wf(),
        b.image_live(a.next_handle),
        b.live(a.next_handle),
        b.image_bitmap(a.next_handle) == bmp,
        !b.bitmap_live(bmp),
        !b.has_obj(bmp),
        b.live(bmp),
        !a.created@.contains(a.next_handle),
        NativeLayer::others_preserved2(a, b, bmp, a.next_handle),
{
    broadcast use vstd::seq_lib::lemma_seq_contains_after_push;

    lemma_fresh_handle(a);
    let k = a.obj_idx(bmp);
    let h = a.next_handle;
    let rec = ObjectRec { handle: h, kind: ObjKind::Image { res, bitmap: bmp } };
    assert(0 <= k < a.objects@.len() && a.objects@[k].handle == bmp);
    let last = (b.objects@.len() - 1) as int;

    // Every object position in `b` other than the appended image maps back
    // to a position in `a` other than `k`.
    assert forall|i: int| 0 <= i < last implies #[trigger] b.objects@[i]
        == a.objects@[if i < k { i } else { i + 1 }] by {}
    assert(b.objects@[last] == rec);

    assert(b.created@.last() == h);
    assert(b.created@.contains(h));
    assert(a.created@.contains(bmp));
    assert(!a.destroyed@.contains(bmp));

    assert(b.wf()) by {
        assert forall|i: int|
            0 <= i < b.objects@.len() implies b.created@.contains(
            #[trigger] b.objects@[i].handle) by {
            if i < last {
                let src = if i < k { i } else { i + 1 };
                assert(a.created@.contains(a.objects@[src].handle));
            }
        }
        assert forall|i: int|
            0 <= i < b.objects@.len() implies !b.destroyed@.contains(
            #[trigger] b.objects@[i].handle) by {
            if i < last {
                let src = if i < k { i } else { i + 1 };
                assert(!a.destroyed@.contains(a.objects@[src].handle));
            } else {
                assert(!a.destroyed@.contains(h));
            }
        }
        assert forall|i: int, j: int|
            0 <= i < j < b.objects@.len() implies b.objects@[i].handle
            != b.objects@[j].handle by {
            if j < last {
                let si = if i < k { i } else { i + 1 };
                let sj = if j < k { j } else { j + 1 };
                assert(a.objects@[si].handle != a.objects@[sj].handle);
            } else {
                let si = if i < k { i } else { i + 1 };
                assert(a.objects@[si].handle != h) by {
                    assert(a.created@.contains(a.objects@[si].handle));
                }
            }
        }
        assert forall|i: int|
            0 <= i < b.objects@.len() && rec_is_image(#[trigger] b.objects@[i])
                implies b.created@.contains(rec_owned_bitmap(b.objects@[i]))
                && !b.destroyed@.contains(rec_owned_bitmap(b.objects@[i])) by {
            if i < last {
                let src = if i < k { i } else { i + 1 };
                assert(a.created@.contains(rec_owned_bitmap(a.objects@[src])));
                assert(!a.destroyed@.contains(rec_owned_bitmap(a.objects@[src])));
            }
        }
        assert forall|i: int, j: int|
            0 <= i < b.objects@.len() && 0 <= j < b.objects@.len() && rec_is_image(
                b.objects@[i],
            ) implies b.objects@[j].handle != rec_owned_bitmap(b.objects@[i]) by {
            let oi = rec_owned_bitmap(b.objects@[i]);
            if i < last && j < last {
                let si = if i < k { i } else { i + 1 };
                let sj = if j < k { j } else { j + 1 };
                assert(a.objects@[sj].handle != rec_owned_bitmap(a.objects@[si]));
            } else if i < last && j == last {
                // The fresh image handle cannot be an owned bitmap of `a`.
                let si = if i < k { i } else { i + 1 };
                assert(rec_owned_bitmap(a.objects@[si]) != h);
            } else if i == last && j < last {
                // `bmp` was the handle of the removed object; the remaining
                // handles are distinct from it.
                let sj = if j < k { j } else { j + 1 };
                assert(sj != k);
                assert(a.objects@[sj].handle != a.objects@[k].handle);
            } else {
                // The fresh image handle differs from `bmp`, which was
                // already created.
                assert(a.created@.contains(bmp));
            }
        }
        assert forall|i: int, j: int|
            0 <= i < b.objects@.len() && 0 <= j < b.objects@.len() && i != j && rec_is_image(
                b.objects@[i],
            ) && rec_is_image(b.objects@[j]) implies rec_owned_bitmap(b.objects@[i])
            != rec_owned_bitmap(b.objects@[j]) by {
            if i < last && j < last {
                let si = if i < k { i } else { i + 1 };
                let sj = if j < k { j } else { j + 1 };
                assert(rec_owned_bitmap(a.objects@[si]) != rec_owned_bitmap(a.objects@[sj]));
            } else if i < last {
                // An owned bitmap of `a` is never an object handle of `a`,
                // in particular not `bmp`.
                let si = if i < k { i } else { i + 1 };
                assert(a.objects@[k].handle != rec_owned_bitmap(a.objects@[si]));
            } else if j < last {
                let sj = if j < k { j } else { j + 1 };
                assert(a.objects@[k].handle != rec_owned_bitmap(a.objects@[sj]));
            }
        }
    }

    lemma_obj_idx_unique(b, h, last);
    assert(b.image_live(h) && b.image_bitmap(h) == bmp);
    assert(b.live(h)) by {
        assert(!a.destroyed@.contains(h));
    }
    assert(!b.has_obj(bmp)) by {
        if b.has_obj(bmp) {
            let i = b.obj_idx(bmp);
            assert(0 <= i < b.objects@.len() && b.objects@[i].handle == bmp);
            if i < last {
                let src = if i < k { i } else { i + 1 };
                assert(src != k);
                assert(a.objects@[src].handle != a.objects@[k].handle);
            } else {
                assert(h != bmp);
            }
        }
    }
    assert(b.live(bmp)) by {
        assert(b.created@.contains(bmp));
    }

    assert forall|g: u64|
        #![trigger b.has_obj(g)]
        #![trigger b.live(g)]
        g != bmp && g != h implies {
        &&& b.has_obj(g) == a.has_obj(g)
        &&& (a.has_obj(g) ==> b.obj(g) == a.obj(g))
        &&& b.live(g) == a.live(g)
    } by {
        if a.has_obj(g) {
            let i = a.obj_idx(g);
            assert(a.objects@[i].handle == g);
            assert(i != k);
            let dst = if i < k { i } else { i - 1 };
            assert(b.objects@[dst] == a.objects@[i]);
            lemma_obj_idx_unique(b, g, dst);
        }
        if b.has_obj(g) {
            let i = b.obj_idx(g);
            assert(b.objects@[i].handle == g);
            assert(i < last);
            let src = if i < k { i } else { i + 1 };
            lemma_obj_idx_unique(a, g, src);
        }
        assert(b.created@.contains(g) == a.created@.contains(g)) by {
            if a.created@.contains(g) {
                let i = choose|i: int| 0 <= i < a.created@.len() && a.created@[i] == g;
                assert(b.created@[i] == g);
            }
            if b.created@.contains(g) {
                let i = choose|i: int| 0 <= i < b.created@.len() && b.created@[i] == g;
                assert(i < a.created@.len());
                assert(a.created@[i] == g);
            }
        }
    }
}

/// Two well-formed states holding the same objects and records agree on every
/// object query.
pub proof fn lemma_same_objects_same_queries(a: NativeLayer, b: NativeLayer)
    requires
        a.wf(),
        NativeLayer::same_objects(a, b),
    ensures
        b.wf(),
        forall|g: u64|
            #![trigger b.has_obj(g)]
            #![trigger b.live(g)]
            {
                &&& b.has_obj(g) == a.has_obj(g)
                &&& (a.has_obj(g) ==> b.obj(g) == a.obj(g))
                &&& b.live(g) == a.live(g)
            },
{
    assert(b.wf());
    assert forall|g: u64|
        #![trigger b.has_obj(g)]
        #![trigger b.live(g)]
        {
            &&& b.has_obj(g) == a.has_obj(g)
            &&& (a.has_obj(g) ==> b.obj(g) == a.obj(g))
            &&& b.live(g) == a.live(g)
        } by {
        if a.has_obj(g) {
            let i = a.obj_idx(g);
            assert(0 <= i < a.objects@.len() && a.objects@[i].handle == g);
            assert(b.objects@[i].handle == g);
            lemma_obj_idx_unique(b, g, i);
            lemma_obj_idx_unique(a, g, i);
        }
        if b.has_obj(g) {
            let i = b.obj_idx(g);
            assert(a.objects@[i].handle == g);
        }
    }
}

/// The handle-lifecycle law: positions in the destruction record never hold
/// the same handle twice, so each handle is destroyed at most once.
pub proof fn lemma_destroyed_at_most_once(n: NativeLayer, i: int, j: int)
    requires
        n.wf(),
        0 <= i < j < n.destroyed@.len(),
    ensures
        n.destroyed@[i] != n.destroyed@[j],
{
}

/// The handle-lifecycle law: only handles that a creation call handed out are
/// ever destroyed.
pub proof fn lemma_destroyed_was_created(n: NativeLayer, i: int)
    requires
        n.wf(),
        0 <= i < n.destroyed@.len(),
    ensures
        n.created@.contains(n.destroyed@[i]),
{
}

/// The ownership-transfer law: the bitmap a live image widget owns is alive
/// but not independently owned, so no bitmap destruction call can release it;
/// only the image's own teardown does.
pub proof fn lemma_owned_bitmap_not_independent(n: NativeLayer, img: u64)
    requires
        n.wf(),
        n.image_live(img),
    ensures
        !n.bitmap_live(n.image_bitmap(img)),
        !n.has_obj(n.image_bitmap(img)),
        !n.destroyed@.contains(n.image_bitmap(img)),
        n.live(n.image_bitmap(img)),
{
    let i = n.obj_idx(img);
    assert(0 <= i < n.objects@.len() && n.objects@[i].handle == img);
    assert(rec_is_image(n.objects@[i]));
    let bmp = rec_owned_bitmap(n.objects@[i]);
    assert(n.image_bitmap(img) == bmp);
    assert(n.created@.contains(bmp));
    assert(!n.destroyed@.contains(bmp));
    assert(!n.has_obj(bmp)) by {
        if n.has_obj(bmp) {
            let j = n.obj_idx(bmp);
            assert(n.objects@[j].handle != rec_owned_bitmap(n.objects@[i]));
        }
    }
}

} // verus!
