//! The image widget wrapper, and the bitmap-to-image ownership transfer.

use vstd::prelude::*;

use crate::bitmap::Bitmap;
use crate::error::{pointer_init, UiError};
use crate::geom::{new_gfx_rect, GfxRect};
use crate::native::NativeLayer;
use crate::ui::UiResource;
use crate::widget::Widget;

verus! {

/// An owned native image widget. Constructing one takes ownership of a
/// [`Bitmap`] and transfers it into the native image object: from then on the
/// bitmap's handle is released only by the image's own teardown, never
/// independently.
#[derive(Debug)]
pub struct Image {
    handle: u64,
}

impl Image {
    /// The native image handle this wrapper owns.
    pub closed spec fn handle_spec(self) -> u64 {
        self.handle
    }

    /// Creates an image widget on `res` showing `bitmap`, sized to the
    /// bitmap, then places it at `rect`. On the toolkit's success status the
    /// bitmap's ownership has moved into the image: its handle is alive but no
    /// longer independently owned, and nothing was destroyed. On any other
    /// status the error carries that status code, no image exists, and the
    /// bitmap — dropped here with its wrapper — has been released.
    pub fn new(native: &mut NativeLayer, res: UiResource, bitmap: Bitmap, rect: &GfxRect) -> (r:
        Result<Image, UiError>)
        requires
            old(native).wf(),
            old(native).next_handle < u64::MAX,
            old(native).bitmap_live(bitmap.handle_spec()),
            bitmap.wf(),
        ensures
            final(native).wf(),
            final(native).config == old(native).config,
            old(native).config.image_create_status == 0 ==> (r matches Ok(img) && {
                &&& img.handle_spec() == old(native).next_handle
                &&& !old(native).created@.contains(img.handle_spec())
                &&& final(native).image_live(img.handle_spec())
                &&& final(native).live(img.handle_spec())
                &&& final(native).image_bitmap(img.handle_spec()) == bitmap.handle_spec()
                &&& !final(native).bitmap_live(bitmap.handle_spec())
                &&& final(native).live(bitmap.handle_spec())
                &&& final(native).created@ == old(native).created@.push(img.handle_spec())
                &&& final(native).destroyed@ == old(native).destroyed@
                &&& final(native).image_set_rects@ == old(native).image_set_rects@.push(
                    (img.handle_spec(), *rect),
                )
                &&& NativeLayer::others_preserved2(
                    *old(native),
                    *final(native),
                    bitmap.handle_spec(),
                    img.handle_spec(),
                )
            }),
            old(native).config.image_create_status != 0 ==> ({
                &&& r matches Err(e) && e == (UiError {
                    code: old(native).config.image_create_status,
                })
                &&& final(native).created@ == old(native).created@
                &&& final(native).destroyed@ == old(native).destroyed@.push(
                    bitmap.handle_spec(),
                )
                &&& !final(native).live(bitmap.handle_spec())
                &&& NativeLayer::others_preserved(
                    *old(native),
                    *final(native),
                    bitmap.handle_spec(),
                )
            }),
    {
        let create_rect = new_gfx_rect(bitmap.w(), bitmap.h());
        match pointer_init(native.ui_image_create(res.0, bitmap.raw_handle(), create_rect)) {
            Ok(image) => {
                // The native image now owns the bitmap; consuming the wrapper
                // here without a destroy call is the ownership transfer.
                let ghost mid = *native;
                native.ui_image_set_rect(image, *rect);
                proof {
                    crate::native::lemma_same_objects_same_queries(mid, *native);
                    assert forall|g: u64|
                        #![trigger native.has_obj(g)]
                        #![trigger native.live(g)]
                        g != bitmap.handle_spec() && g != old(native).next_handle implies {
                        &&& native.has_obj(g) == old(native).has_obj(g)
                        &&& (old(native).has_obj(g) ==> native.obj(g) == old(native).obj(g))
                        &&& native.live(g) == old(native).live(g)
                    } by {
                        assert(mid.has_obj(g) == old(native).has_obj(g));
                        assert(mid.live(g) == old(native).live(g));
                    }
                    assert(NativeLayer::others_preserved2(
                        *old(native),
                        *native,
                        bitmap.handle_spec(),
                        old(native).next_handle,
                    ));
                    assert(native.has_obj(image) == mid.has_obj(image));
                    assert(native.obj(image) == mid.obj(image));
                    assert(native.has_obj(bitmap.handle_spec()) == mid.has_obj(
                        bitmap.handle_spec(),
                    ));
                    assert(native.live(bitmap.handle_spec()) == mid.live(bitmap.handle_spec()));
                }
                Ok(Image { handle: image })
            },
            Err(e) => {
                // No image exists; the bitmap is still this function's to
                // release, as dropping its wrapper would.
                bitmap.destroy(native);
                Err(e)
            },
        }
    }
}

/// The model addresses an image widget's control by the image handle itself,
/// so the two spec views of an [`Image`] coincide.
pub proof fn lemma_image_ctl_is_handle(img: Image)
    ensures
        img.ctl_spec() == img.handle_spec(),
{
}

impl Widget for Image {
    closed spec fn ctl_spec(&self) -> u64 {
        self.handle
    }

    /// The underlying control of an image widget; the model addresses it by
    /// the image handle itself.
    fn get_ctl(&self) -> (r: u64) {
        self.handle
    }
}

} // verus!
