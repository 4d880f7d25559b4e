//! Window creation geometry, widget-id allocation, and the end-to-end
//! centering scenario.

use safeui::bitmap::Bitmap;
use safeui::geom::{center_rect, GfxCoord2, GfxRect};
use safeui::image::Image;
use safeui::native::{
    DecorInsets, NativeLayer, ObjKind, WDS_MAXIMIZE_BTN, WDS_RESIZABLE,
};
use safeui::ui::Ui;
use safeui::widget::AnyWidget;
use safeui::window_controller::{WidgetID, WindowUserController};

struct Noop;

impl WindowUserController for Noop {}

#[test]
fn window_rectangle_comes_from_the_decorator_response() {
    let mut native = NativeLayer::new();
    native.config.decor = DecorInsets { left: 4, top: 25, right: 4, bottom: 4 };
    let ui = Ui::new(&mut native).expect("context creation");
    assert_eq!(native.created, vec![1u64]);

    let _window = ui
        .create_window(&mut native, "Test", 400, 500, Noop)
        .expect("window creation");
    assert_eq!(native.created, vec![1u64, 2]);

    // The decoration sizing call received the naive 400 by 500 application
    // rectangle and a style including resizable and maximize.
    assert_eq!(native.wdecor_calls.len(), 1);
    let call = native.wdecor_calls[0];
    assert_eq!(
        call.rect,
        GfxRect { p0: GfxCoord2 { x: 0, y: 0 }, p1: GfxCoord2 { x: 400, y: 500 } }
    );
    assert_ne!(call.style & WDS_RESIZABLE, 0);
    assert_ne!(call.style & WDS_MAXIMIZE_BTN, 0);

    // The rectangle passed to window creation is the decorator-offset
    // response translated back to origin-relative coordinates.
    let rec = native
        .objects
        .iter()
        .find(|o| o.handle == 2)
        .expect("window record");
    match &rec.kind {
        ObjKind::Window { caption, rect, style } => {
            assert_eq!(caption.as_str(), "Test");
            assert_eq!(
                *rect,
                GfxRect { p0: GfxCoord2 { x: 0, y: 0 }, p1: GfxCoord2 { x: 408, y: 529 } }
            );
            assert_ne!(*style & WDS_RESIZABLE, 0);
            assert_ne!(*style & WDS_MAXIMIZE_BTN, 0);
        },
        other => panic!("expected a window record, got {:?}", other),
    }

    // The callback table was registered for the new window.
    assert_eq!(native.cb_registrations, vec![2u64]);
}

#[test]
fn widget_ids_are_strictly_increasing_and_unique() {
    let mut native = NativeLayer::new();
    let ui = Ui::new(&mut native).expect("context creation");
    let mut window = ui
        .create_window(&mut native, "Viewer", 400, 500, Noop)
        .expect("window creation");
    let gc = window.get_gc(&native);

    let mut ids: Vec<WidgetID> = Vec::new();
    let mut k = 0;
    while k < 5 {
        let bitmap = Bitmap::new(&mut native, gc, 10, 10).expect("bitmap creation");
        let rect = GfxRect {
            p0: GfxCoord2 { x: 0, y: 0 },
            p1: GfxCoord2 { x: 10, y: 10 },
        };
        let res = window.get_resource(&native);
        let image = Image::new(&mut native, res, bitmap, &rect).expect("image creation");
        ids.push(window.add_widget(&mut native, AnyWidget::Image(image)));
        k += 1;
    }

    assert_eq!(ids.len(), 5);
    let mut i = 1;
    while i < ids.len() {
        assert!(ids[i - 1] < ids[i]);
        i += 1;
    }
    for a in 0..ids.len() {
        for b in 0..ids.len() {
            if a != b {
                assert_ne!(ids[a], ids[b]);
            }
        }
    }
}

#[test]
fn two_widgets_then_centering_a_hundred_square() {
    let mut native = NativeLayer::new();
    let ui = Ui::new(&mut native).expect("context creation");
    let mut window = ui
        .create_window(&mut native, "Viewer", 400, 500, Noop)
        .expect("window creation");
    let gc = window.get_gc(&native);

    let mut k = 0;
    while k < 2 {
        let bitmap = Bitmap::new(&mut native, gc, 20, 20).expect("bitmap creation");
        let rect = GfxRect {
            p0: GfxCoord2 { x: 0, y: 0 },
            p1: GfxCoord2 { x: 20, y: 20 },
        };
        let res = window.get_resource(&native);
        let image = Image::new(&mut native, res, bitmap, &rect).expect("image creation");
        window.add_widget(&mut native, AnyWidget::Image(image));
        k += 1;
    }
    assert_eq!(native.window_adds.len(), 2);

    native.config.app_rect = GfxRect {
        p0: GfxCoord2 { x: 0, y: 0 },
        p1: GfxCoord2 { x: 400, y: 500 },
    };
    let app_rect = window.get_app_rect(&native);
    assert_eq!(app_rect, native.config.app_rect);

    let centered = center_rect(app_rect, 100, 100);
    assert_eq!(
        centered,
        GfxRect { p0: GfxCoord2 { x: 150, y: 200 }, p1: GfxCoord2 { x: 250, y: 300 } }
    );
}

#[test]
fn controllers_split_into_two_views() {
    let mut native = NativeLayer::new();
    let ui = Ui::new(&mut native).expect("context creation");
    let mut window = ui
        .create_window(&mut native, "Viewer", 400, 500, Noop)
        .expect("window creation");
    assert!(!window.is_borrowed());
    assert!(!window.is_mut_borrowed());
    {
        let (controller, _user) = window.controllers();
        controller.paint(&mut native);
    }
    {
        let controller = window.controller();
        controller.paint(&mut native);
    }
    assert_eq!(native.paint_calls, vec![2u64, 2]);
}

#[test]
fn get_resource_and_gc_address_the_window() {
    let mut native = NativeLayer::new();
    let ui = Ui::new(&mut native).expect("context creation");
    let window = ui
        .create_window(&mut native, "Viewer", 400, 500, Noop)
        .expect("window creation");
    // The model addresses a window's drawing context and resource by the
    // window handle itself, which is the second handle handed out.
    assert_eq!(window.get_gc(&native), 2);
    let _res = window.get_resource(&native);
}
