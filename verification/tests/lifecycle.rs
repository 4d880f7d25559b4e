//! Handle lifecycle: every created handle is destroyed exactly once, in
//! dependency order, and failed constructions destroy nothing and map their
//! status code onto the returned error.

use safeui::bitmap::Bitmap;
use safeui::error::UiError;
use safeui::geom::{GfxCoord2, GfxRect};
use safeui::image::Image;
use safeui::native::NativeLayer;
use safeui::ui::Ui;
use safeui::widget::AnyWidget;
use safeui::window_controller::WindowUserController;

struct Noop;

impl WindowUserController for Noop {}

fn count(haystack: &[u64], needle: u64) -> usize {
    haystack.iter().filter(|&&h| h == needle).count()
}

#[test]
fn full_teardown_is_balanced_and_ordered() {
    let mut native = NativeLayer::new();
    let ui = Ui::new(&mut native).expect("context creation");
    let mut window = ui
        .create_window(&mut native, "Viewer", 400, 500, Noop)
        .expect("window creation");
    let gc = window.get_gc(&native);
    let bitmap = Bitmap::new(&mut native, gc, 100, 100).expect("bitmap creation");
    let rect = GfxRect {
        p0: GfxCoord2 { x: 0, y: 0 },
        p1: GfxCoord2 { x: 100, y: 100 },
    };
    let res = window.get_resource(&native);
    let image = Image::new(&mut native, res, bitmap, &rect).expect("image creation");
    window.add_widget(&mut native, AnyWidget::Image(image));

    // Nothing is destroyed while everything is alive.
    assert_eq!(native.created, vec![1u64, 2, 3, 4]);
    assert!(native.destroyed.is_empty());

    window.destroy(&mut native);
    ui.destroy(&mut native);

    // Exactly one destroy per created handle, in dependency order: the
    // bitmap through the image, the image before the window, the window
    // before the context.
    assert_eq!(native.destroyed, vec![3u64, 4, 2, 1]);
    for &h in &native.created {
        assert_eq!(count(&native.destroyed, h), 1);
    }
}

#[test]
fn failed_ui_creation_destroys_nothing() {
    let mut native = NativeLayer::new();
    native.config.ui_create_status = 17;
    let r = Ui::new(&mut native);
    assert_eq!(r.err(), Some(UiError { code: 17 }));
    assert!(native.created.is_empty());
    assert!(native.destroyed.is_empty());
}

#[test]
fn failed_window_creation_destroys_nothing() {
    let mut native = NativeLayer::new();
    let ui = Ui::new(&mut native).expect("context creation");
    native.config.window_create_status = 5;
    let r = ui.create_window(&mut native, "Viewer", 400, 500, Noop);
    assert_eq!(r.err().map(|e| e.code), Some(5));
    assert_eq!(native.created, vec![1u64]);
    assert!(native.destroyed.is_empty());
}

#[test]
fn failed_bitmap_creation_destroys_nothing() {
    let mut native = NativeLayer::new();
    let ui = Ui::new(&mut native).expect("context creation");
    let window = ui
        .create_window(&mut native, "Viewer", 400, 500, Noop)
        .expect("window creation");
    let gc = window.get_gc(&native);
    native.config.bitmap_create_status = -3;
    let r = Bitmap::new(&mut native, gc, 64, 64);
    assert_eq!(r.err(), Some(UiError { code: -3 }));
    assert_eq!(native.created, vec![1u64, 2]);
    assert!(native.destroyed.is_empty());
}

#[test]
fn failed_image_creation_releases_only_the_bitmap() {
    let mut native = NativeLayer::new();
    let ui = Ui::new(&mut native).expect("context creation");
    let window = ui
        .create_window(&mut native, "Viewer", 400, 500, Noop)
        .expect("window creation");
    let gc = window.get_gc(&native);
    let bitmap = Bitmap::new(&mut native, gc, 32, 32).expect("bitmap creation");
    let rect = GfxRect {
        p0: GfxCoord2 { x: 0, y: 0 },
        p1: GfxCoord2 { x: 32, y: 32 },
    };
    native.config.image_create_status = 9;
    let res = window.get_resource(&native);
    let r = Image::new(&mut native, res, bitmap, &rect);
    assert_eq!(r.err(), Some(UiError { code: 9 }));
    // No image handle was created, so none is destroyed; the bitmap, whose
    // ownership never transferred, is released with its wrapper.
    assert_eq!(native.created, vec![1u64, 2, 3]);
    assert_eq!(native.destroyed, vec![3u64]);
}

#[test]
fn bitmap_ownership_transfers_into_image() {
    let mut native = NativeLayer::new();
    let ui = Ui::new(&mut native).expect("context creation");
    let mut window = ui
        .create_window(&mut native, "Viewer", 400, 500, Noop)
        .expect("window creation");
    let gc = window.get_gc(&native);
    let bitmap = Bitmap::new(&mut native, gc, 100, 100).expect("bitmap creation");
    let rect = GfxRect {
        p0: GfxCoord2 { x: 0, y: 0 },
        p1: GfxCoord2 { x: 100, y: 100 },
    };
    let res = window.get_resource(&native);
    let image = Image::new(&mut native, res, bitmap, &rect).expect("image creation");

    // The transfer destroys nothing: the bitmap handle (3) lives on inside
    // the image.
    assert!(native.destroyed.is_empty());

    window.add_widget(&mut native, AnyWidget::Image(image));
    assert!(native.destroyed.is_empty());

    // The one destroy call for the bitmap handle comes from the window's
    // teardown, through the image, not from the bitmap wrapper.
    window.destroy(&mut native);
    assert_eq!(count(&native.destroyed, 3), 1);
    assert_eq!(native.destroyed, vec![3u64, 4, 2]);
}

#[test]
fn explicit_bitmap_destroy_is_counted_once() {
    let mut native = NativeLayer::new();
    let ui = Ui::new(&mut native).expect("context creation");
    let window = ui
        .create_window(&mut native, "Viewer", 400, 500, Noop)
        .expect("window creation");
    let gc = window.get_gc(&native);
    let bitmap = Bitmap::new(&mut native, gc, 8, 8).expect("bitmap creation");
    bitmap.destroy(&mut native);
    assert_eq!(native.destroyed, vec![3u64]);
}
