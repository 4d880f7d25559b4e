//! Rectangle computations, pixel writing, and the error adapter.

use safeui::bitmap::Bitmap;
use safeui::error::{pointer_init, IntoError, UiError};
use safeui::geom::{fit_within, gfx_rect_rtranslate, new_gfx_rect, GfxCoord2, GfxRect};
use safeui::native::{rgba_to_pix, NativeLayer, PixelWrite};
use safeui::ui::Ui;
use safeui::window_controller::WindowUserController;

struct Noop;

impl WindowUserController for Noop {}

#[test]
fn status_codes_convert_one_to_one() {
    assert_eq!(0i32.into_error(), Ok(()));
    assert_eq!(5i32.into_error(), Err(UiError { code: 5 }));
    assert_eq!((-7i32).into_error(), Err(UiError { code: -7 }));
    assert_eq!(().into_error(), Ok(()));
}

#[test]
fn pointer_init_returns_storage_on_success_and_error_on_failure() {
    assert_eq!(pointer_init((0i32, Some(41u32))), Ok(41));
    assert_eq!(pointer_init((8i32, None::<u32>)), Err(UiError { code: 8 }));
    assert_eq!(pointer_init(((), Some("x"))), Ok("x"));
}

#[test]
fn gfx_rect_construction_and_reverse_translation() {
    let r = new_gfx_rect(400, 500);
    assert_eq!(
        r,
        GfxRect { p0: GfxCoord2 { x: 0, y: 0 }, p1: GfxCoord2 { x: 400, y: 500 } }
    );
    let moved = gfx_rect_rtranslate(
        GfxCoord2 { x: -4, y: -25 },
        GfxRect { p0: GfxCoord2 { x: -4, y: -25 }, p1: GfxCoord2 { x: 404, y: 504 } },
    );
    assert_eq!(
        moved,
        GfxRect { p0: GfxCoord2 { x: 0, y: 0 }, p1: GfxCoord2 { x: 408, y: 529 } }
    );
}

#[test]
fn fit_within_keeps_a_fitting_box() {
    assert_eq!(fit_within(100, 50, 400, 500), (100, 50));
    assert_eq!(fit_within(400, 500, 400, 500), (400, 500));
}

#[test]
fn fit_within_scales_down_to_the_tighter_side() {
    // Wider than tall: the width binds.
    assert_eq!(fit_within(800, 600, 400, 500), (400, 300));
    // Taller than wide: the height binds.
    assert_eq!(fit_within(600, 800, 400, 500), (375, 500));
}

#[test]
fn pixel_packing_puts_alpha_in_the_top_byte() {
    assert_eq!(rgba_to_pix(1, 2, 3, 4), 0x04010203);
    assert_eq!(rgba_to_pix(0xff, 0xff, 0xff, 0xff), 0xffffffff);
    assert_eq!(rgba_to_pix(0, 0, 0, 0), 0);
}

#[test]
fn pixel_writes_reach_the_bitmap_allocation() {
    let mut native = NativeLayer::new();
    let ui = Ui::new(&mut native).expect("context creation");
    let window = ui
        .create_window(&mut native, "Viewer", 400, 500, Noop)
        .expect("window creation");
    let gc = window.get_gc(&native);
    let mut bitmap = Bitmap::new(&mut native, gc, 16, 8).expect("bitmap creation");
    assert_eq!(bitmap.w(), 16);
    assert_eq!(bitmap.h(), 8);

    let mut pm = bitmap.pixelmap(&native).expect("pixel map");
    pm.set_pixel_rgba(&mut native, (2, 3), (10, 20, 30, 0));
    pm.set_pixel_rgba(&mut native, (15, 7), (1, 1, 1, 1));
    assert_eq!(
        native.pixel_writes,
        vec![
            PixelWrite { bitmap: 3, x: 2, y: 3, pixel: rgba_to_pix(10, 20, 30, 0) },
            PixelWrite { bitmap: 3, x: 15, y: 7, pixel: rgba_to_pix(1, 1, 1, 1) },
        ]
    );
}

#[test]
fn pixelmap_access_reports_the_allocation_status() {
    let mut native = NativeLayer::new();
    let ui = Ui::new(&mut native).expect("context creation");
    let window = ui
        .create_window(&mut native, "Viewer", 400, 500, Noop)
        .expect("window creation");
    let gc = window.get_gc(&native);
    let mut bitmap = Bitmap::new(&mut native, gc, 4, 4).expect("bitmap creation");
    native.config.bitmap_alloc_status = 11;
    let r = bitmap.pixelmap(&native);
    assert_eq!(r.err(), Some(UiError { code: 11 }));
}
