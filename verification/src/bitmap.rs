//! The owned bitmap wrapper and its borrowed pixel view.

use vstd::prelude::*;

use crate::error::{pointer_init, UiError};
use crate::geom::new_gfx_rect;
use crate::native::{gfx_bitmap_params_init, pix_of, rgba_to_pix, NativeLayer, PixelWrite};

verus! {

/// An owned native bitmap: the wrapper holds the handle together with the
/// pixel dimensions it was created with, and releases the handle exactly once
/// through [`Bitmap::destroy`] — unless ownership moves into an image widget,
/// which then releases it on its own teardown.
#[derive(Debug)]
pub struct Bitmap {
    w: u32,
    h: u32,
    bmp: u64,
}

/// A view over a bitmap's pixel allocation: writes go through a
/// coordinate-and-colour setter that packs the channels and checks bounds
/// against the bitmap's dimensions.
#[derive(Debug)]
pub struct PixelMap {
    bmp: u64,
    width: usize,
    height: usize,
}

impl Bitmap {
    /// The pixel width the bitmap was created with.
    pub closed spec fn w_spec(self) -> u32 {
        self.w
    }

    /// The pixel height the bitmap was created with.
    pub closed spec fn h_spec(self) -> u32 {
        self.h
    }

    /// The native bitmap handle this wrapper owns.
    pub closed spec fn handle_spec(self) -> u64 {
        self.bmp
    }

    /// The dimensions stay small enough for rectangle arithmetic.
    pub open spec fn wf(self) -> bool {
        self.w_spec() <= 0x4000_0000 && self.h_spec() <= 0x4000_0000
    }

    /// Creates a bitmap of `w` by `h` pixels on drawing context `ctx`. On the
    /// toolkit's success status the returned wrapper owns a fresh live
    /// handle; on any other status the error carries that status code and no
    /// object exists afterward.
    pub fn new(native: &mut NativeLayer, ctx: u64, w: u32, h: u32) -> (r: Result<Bitmap, UiError>)
        requires
            old(native).wf(),
            old(native).next_handle < u64::MAX,
            w <= 0x4000_0000,
            h <= 0x4000_0000,
        ensures
            final(native).wf(),
            final(native).config == old(native).config,
            NativeLayer::same_logs(*old(native), *final(native)),
            old(native).config.bitmap_create_status == 0 ==> (r matches Ok(b) && {
                &&& b.wf()
                &&& b.w_spec() == w
                &&& b.h_spec() == h
                &&& b.handle_spec() == old(native).next_handle
                &&& !old(native).created@.contains(b.handle_spec())
                &&& final(native).bitmap_live(b.handle_spec())
                &&& final(native).live(b.handle_spec())
                &&& final(native).bitmap_width(b.handle_spec()) == w
                &&& final(native).bitmap_height(b.handle_spec()) == h
                &&& final(native).created@ == old(native).created@.push(b.handle_spec())
                &&& final(native).destroyed@ == old(native).destroyed@
                &&& NativeLayer::others_preserved(*old(native), *final(native), b.handle_spec())
            }),
            old(native).config.bitmap_create_status != 0 ==> r == Err::<Bitmap, UiError>(
                UiError { code: old(native).config.bitmap_create_status },
            ) && NativeLayer::same_objects(*old(native), *final(native)),
    {
        let mut params = pointer_init(gfx_bitmap_params_init()).unwrap();
        params.rect = new_gfx_rect(w, h);
        match pointer_init(native.gfx_bitmap_create(ctx, params)) {
            Ok(bmp) => Ok(Bitmap { w, h, bmp }),
            Err(e) => Err(e),
        }
    }

    /// The bitmap's pixel width.
    pub fn w(&self) -> (r: u32)
        ensures
            r == self.w_spec(),
    {
        self.w
    }

    /// The bitmap's pixel height.
    pub fn h(&self) -> (r: u32)
        ensures
            r == self.h_spec(),
    {
        self.h
    }

    /// Re-derives access to the bitmap's pixel allocation and returns a view
    /// for writing pixels. The view is re-derived on every call rather than
    /// cached. On the toolkit's success status the view matches the bitmap's
    /// handle and dimensions; on any other status the error carries that
    /// status code.
    pub fn pixelmap(&mut self, native: &NativeLayer) -> (r: Result<PixelMap, UiError>)
        requires
            native.bitmap_live(old(self).handle_spec()),
        ensures
            *final(self) == *old(self),
            native.config.bitmap_alloc_status == 0 ==> (r matches Ok(pm) && {
                &&& pm.bmp_spec() == old(self).handle_spec()
                &&& pm.width_spec() == old(self).w_spec() as usize
                &&& pm.height_spec() == old(self).h_spec() as usize
            }),
            native.config.bitmap_alloc_status != 0 ==> r == Err::<PixelMap, UiError>(
                UiError { code: native.config.bitmap_alloc_status },
            ),
    {
        match pointer_init(native.gfx_bitmap_get_alloc(self.bmp)) {
            Ok(_) => Ok(
                PixelMap { bmp: self.bmp, width: self.w as usize, height: self.h as usize },
            ),
            Err(e) => Err(e),
        }
    }

    /// The raw handle, for the calls other wrappers make on this bitmap.
    pub(crate) fn raw_handle(&self) -> (r: u64)
        ensures
            r == self.handle_spec(),
    {
        self.bmp
    }

    /// Releases the bitmap's handle, exactly once, by consuming the wrapper.
    pub fn destroy(self, native: &mut NativeLayer)
        requires
            old(native).wf(),
            old(native).bitmap_live(self.handle_spec()),
        ensures
            final(native).wf(),
            final(native).config == old(native).config,
            NativeLayer::same_logs(*old(native), *final(native)),
            final(native).created@ == old(native).created@,
            final(native).destroyed@ == old(native).destroyed@.push(self.handle_spec()),
            !final(native).live(self.handle_spec()),
            NativeLayer::others_preserved(*old(native), *final(native), self.handle_spec()),
    {
        native.gfx_bitmap_destroy(self.bmp);
    }
}

impl PixelMap {
    /// The handle of the bitmap this view writes into.
    pub closed spec fn bmp_spec(self) -> u64 {
        self.bmp
    }

    /// The view's width in pixels.
    pub closed spec fn width_spec(self) -> usize {
        self.width
    }

    /// The view's height in pixels.
    pub closed spec fn height_spec(self) -> usize {
        self.height
    }

    /// Packs the four colour channels and writes the pixel at `xy` into the
    /// bitmap. The coordinates must lie within the view, which must match the
    /// live bitmap it was derived from.
    pub fn set_pixel_rgba(
        &mut self,
        native: &mut NativeLayer,
        xy: (usize, usize),
        rgba: (u8, u8, u8, u8),
    )
        requires
            old(native).bitmap_live(old(self).bmp_spec()),
            old(self).width_spec() == old(native).bitmap_width(old(self).bmp_spec()) as usize,
            old(self).height_spec() == old(native).bitmap_height(old(self).bmp_spec()) as usize,
            xy.0 < old(self).width_spec(),
            xy.1 < old(self).height_spec(),
        ensures
            *final(self) == *old(self),
            NativeLayer::same_objects(*old(native), *final(native)),
            final(native).config == old(native).config,
            final(native).pixel_writes@ == old(native).pixel_writes@.push(
                (PixelWrite {
                    bitmap: old(self).bmp_spec(),
                    x: xy.0,
                    y: xy.1,
                    pixel: pix_of(rgba.0, rgba.1, rgba.2, rgba.3),
                }),
            ),
    {
        let (x, y) = xy;
        let (r, g, b, a) = rgba;
        let pixel = rgba_to_pix(r, g, b, a);
        native.pixelmap_put_pixel(self.bmp, x, y, pixel);
    }
}

} // verus!
