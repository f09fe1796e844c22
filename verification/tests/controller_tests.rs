use gi_ui_app::controller::{Outcome, WindowController, WindowEvent};
use gi_ui_app::drawable::{Drawable, SolidFill};
use gi_ui_app::pixel::PixelBuffer;

fn count_redraws(trace: &[Outcome]) -> usize {
    trace.iter().filter(|o| matches!(o, Outcome::Redraw(_))).count()
}

#[test]
fn new_controller_is_sized_and_untitled() {
    let c: WindowController<SolidFill> = WindowController::new(200, 200);
    assert_eq!(c.size(), (200, 200));
    assert_eq!(c.title(), "Untitled");
}

#[test]
fn set_title_updates_cache() {
    let mut c: WindowController<SolidFill> = WindowController::new(10, 10);
    c.set_title(String::from("hello"));
    assert_eq!(c.title(), "hello");
}

#[test]
fn scripted_run_stops_at_destroy() {
    let mut c: WindowController<SolidFill> = WindowController::new(8, 8);
    let events = vec![
        WindowEvent::Expose { count: 0 },
        WindowEvent::Other,
        WindowEvent::Destroy,
        WindowEvent::Expose { count: 0 },
        WindowEvent::Configure { width: 2, height: 2 },
    ];
    let trace = c.run_script(&events);
    // Exactly the prefix through the first destroy notification is handled.
    assert_eq!(trace.len(), 3);
    assert!(matches!(trace[0], Outcome::Redraw(_)));
    assert!(matches!(trace[1], Outcome::Ignored));
    assert!(matches!(trace[2], Outcome::Terminated));
    // The later configure event was never retrieved.
    assert_eq!(c.size(), (8, 8));
}

#[test]
fn exposure_burst_draws_once() {
    let mut c: WindowController<SolidFill> = WindowController::new(4, 4);
    let n = 5u32;
    let events: Vec<WindowEvent> =
        (0..n).map(|i| WindowEvent::Expose { count: n - 1 - i }).collect();
    let trace = c.run_script(&events);
    assert_eq!(trace.len(), n as usize);
    assert_eq!(count_redraws(&trace), 1);
    assert!(matches!(trace[n as usize - 1], Outcome::Redraw(_)));
}

#[test]
fn configure_event_resizes_buffer_and_surface() {
    let mut c: WindowController<SolidFill> = WindowController::new(3, 3);
    let outcome = c.handle_event(&WindowEvent::Configure { width: 11, height: 7 });
    match outcome {
        Outcome::Resized { width, height, notify } => {
            assert_eq!((width, height), (11, 7));
            assert!(!notify);
        }
        _ => panic!("expected a resize outcome"),
    }
    assert_eq!(c.size(), (11, 7));
}

#[test]
fn configure_requests_notification_when_callback_set() {
    let mut c: WindowController<SolidFill> = WindowController::new(3, 3);
    c.set_resize_callback();
    let outcome = c.handle_event(&WindowEvent::Configure { width: 5, height: 9 });
    match outcome {
        Outcome::Resized { width, height, notify } => {
            assert_eq!((width, height), (5, 9));
            assert!(notify);
        }
        _ => panic!("expected a resize outcome"),
    }
}

#[test]
fn each_configure_yields_one_resize_outcome() {
    let mut c: WindowController<SolidFill> = WindowController::new(2, 2);
    c.set_resize_callback();
    let events = vec![
        WindowEvent::Configure { width: 4, height: 4 },
        WindowEvent::Other,
        WindowEvent::Configure { width: 6, height: 2 },
    ];
    let trace = c.run_script(&events);
    let resizes: Vec<&Outcome> =
        trace.iter().filter(|o| matches!(o, Outcome::Resized { .. })).collect();
    assert_eq!(resizes.len(), 2);
    assert_eq!(c.size(), (6, 2));
}

#[test]
fn pending_exposures_are_ignored() {
    let mut c: WindowController<SolidFill> = WindowController::new(2, 2);
    let outcome = c.handle_event(&WindowEvent::Expose { count: 3 });
    assert!(matches!(outcome, Outcome::Ignored));
}

#[test]
fn solid_red_frame_is_transmitted_in_surface_order() {
    // Construct a 200 x 200 controller, attach a drawable painting solid
    // red 0xff_ff0000, and dispatch a final exposure event: the transmitted
    // frame holds 00 00 FF FF for each of the 200 * 200 pixels.
    let mut c: WindowController<SolidFill> = WindowController::new(200, 200);
    c.attach_main_drawable(SolidFill::new(0xff_ff0000));
    let outcome = c.handle_event(&WindowEvent::Expose { count: 0 });
    match outcome {
        Outcome::Redraw(frame) => {
            assert_eq!(frame.len(), 200 * 200 * 4);
            for pixel in frame.chunks(4) {
                assert_eq!(pixel, &[0x00, 0x00, 0xFF, 0xFF]);
            }
        }
        _ => panic!("expected a redraw outcome"),
    }
}

#[test]
fn solid_fill_paints_whole_buffer_in_argb_order() {
    let mut buf = PixelBuffer::create(3, 2);
    let mut d = SolidFill::new(0xAABBCCDD);
    d.paint(&mut buf, 0, 0);
    for pixel in buf.raw_bytes().chunks(4) {
        assert_eq!(pixel, &[0xAA, 0xBB, 0xCC, 0xDD]);
    }
}

#[test]
fn draw_without_drawable_transmits_buffer_as_is() {
    let mut c: WindowController<SolidFill> = WindowController::new(2, 2);
    let outcome = c.handle_event(&WindowEvent::Expose { count: 0 });
    match outcome {
        Outcome::Redraw(frame) => {
            assert_eq!(frame, vec![0u8; 2 * 2 * 4]);
        }
        _ => panic!("expected a redraw outcome"),
    }
}

#[test]
fn attach_replaces_previous_drawable() {
    let mut c: WindowController<SolidFill> = WindowController::new(2, 2);
    c.attach_main_drawable(SolidFill::new(0xff_00ff00));
    c.attach_main_drawable(SolidFill::new(0xff_0000ff));
    let outcome = c.handle_event(&WindowEvent::Expose { count: 0 });
    match outcome {
        Outcome::Redraw(frame) => {
            // (A,R,G,B) = FF 00 00 FF reversed to B,G,R,A = FF 00 00 FF.
            for pixel in frame.chunks(4) {
                assert_eq!(pixel, &[0xFF, 0x00, 0x00, 0xFF]);
            }
        }
        _ => panic!("expected a redraw outcome"),
    }
}
