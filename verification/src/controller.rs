//! The window/compositing controller: the state that mirrors the on-screen
//! window (declared geometry, off-screen buffer, compositing-surface
//! geometry, title, attached drawable), the draw pipeline, and the
//! event-driven state machine that reacts to exposure, resize and
//! destruction.
//!
//! The controller itself performs no display-server I/O: each event handed
//! in yields an [`Outcome`] telling the embedding program which server
//! requests to issue (transmit a frame, reallocate the compositing surface,
//! stop the loop).

use vstd::prelude::*;

use crate::convert::{argb_to_bgra, channel_reversed};
use crate::drawable::Drawable;
use crate::pixel::{PixelBuffer, all_bytes};

verus! {

/// A lifecycle event of the native window, as the controller sees it.
#[derive(Clone, Copy)]
pub enum WindowEvent {
    /// A region of the window needs repainting; `count` is the number of
    /// exposure events still pending in the same burst.
    Expose { count: u32 },
    /// The window's geometry changed to the declared dimensions.
    Configure { width: u32, height: u32 },
    /// The window was destroyed.
    Destroy,
    /// Any other event kind; ignored.
    Other,
}

/// What the embedding program must do after the controller has handled one
/// event.
pub enum Outcome {
    /// Transmit this frame, already in surface-native (B, G, R, A) order,
    /// to the compositing surface and copy it onto the window.
    Redraw(Vec<u8>),
    /// Release the old compositing surface and graphics context, allocate
    /// new ones of the given dimensions, and, when `notify` is set, invoke
    /// the resize callback once with these dimensions.
    Resized { width: u32, height: u32, notify: bool },
    /// Stop the event loop.
    Terminated,
    /// Nothing.
    Ignored,
}

/// Only the last exposure event of a burst, the one with no events still
/// pending, triggers a redraw.
pub open spec fn triggers_redraw(ev: WindowEvent) -> bool {
    match ev {
        WindowEvent::Expose { count } => count == 0,
        _ => false,
    }
}

/// Geometry the controller can adopt: nonzero in both dimensions, with a
/// sample array that fits in memory.
pub open spec fn valid_event(ev: WindowEvent) -> bool {
    match ev {
        WindowEvent::Configure { width, height } => 0 < width && 0 < height && width * height * 4
            <= usize::MAX,
        _ => true,
    }
}

/// How many events of a script the event loop retrieves: everything up to
/// and including the first destroy notification, or the whole script if
/// none occurs.
pub open spec fn processed_len(events: Seq<WindowEvent>) -> int
    decreases events.len(),
{
    if events.len() == 0 {
        0
    } else if events[0] is Destroy {
        1
    } else {
        1 + processed_len(events.skip(1))
    }
}

/// What one paint call by an optionally attached drawable leaves in the
/// buffer: with nothing attached the bytes stay as they are.
pub open spec fn painted_bytes<D: Drawable>(
    attached: Option<D>,
    bytes: Seq<u8>,
    width: u32,
    height: u32,
) -> Seq<u8> {
    match attached {
        Some(d) => d.spec_paint(bytes, width, height, 0, 0),
        None => bytes,
    }
}

/// The window/compositing controller. It owns the off-screen pixel buffer
/// and the declared geometry of both the window and the compositing
/// surface, and drives the draw pipeline and the event state machine.
pub struct WindowController<D: Drawable> {
    width: u32,
    height: u32,
    buffer: PixelBuffer,
    surface_width: u32,
    surface_height: u32,
    title: String,
    attached: Option<D>,
    notify_on_resize: bool,
}

impl<D: Drawable> WindowController<D> {
    /// The last-declared window dimensions.
    pub closed spec fn spec_size(&self) -> (u32, u32) {
        (self.width, self.height)
    }

    /// The dimensions the compositing surface was last allocated with.
    pub closed spec fn surface_size(&self) -> (u32, u32) {
        (self.surface_width, self.surface_height)
    }

    /// The off-screen buffer's packed (A, R, G, B) bytes.
    pub closed spec fn buffer_bytes(&self) -> Seq<u8> {
        self.buffer@
    }

    /// The cached window title.
    pub closed spec fn spec_title(&self) -> Seq<char> {
        self.title@
    }

    /// The attached drawable, if any.
    pub closed spec fn spec_attached(&self) -> Option<D> {
        self.attached
    }

    /// Whether a resize callback is attached, so that resize outcomes
    /// request its invocation.
    pub closed spec fn spec_notify(&self) -> bool {
        self.notify_on_resize
    }

    /// The controller's invariant: the geometry is nonzero and fits in
    /// memory, the buffer and the compositing surface are sized exactly to
    /// the declared dimensions.
    pub closed spec fn wf(&self) -> bool {
        &&& 0 < self.width
        &&& 0 < self.height
        &&& self.width * self.height * 4 <= usize::MAX
        &&& self.surface_width == self.width
        &&& self.surface_height == self.height
        &&& self.buffer.wf()
        &&& self.buffer.spec_width() == self.width
        &&& self.buffer.spec_height() == self.height
    }

    /// A fresh controller of the given window dimensions: a zero-cleared
    /// buffer, a matching compositing surface, the default title, no
    /// drawable and no resize callback.
    pub fn new(width: u32, height: u32) -> (c: WindowController<D>)
        requires
            0 < width,
            0 < height,
            width * height * 4 <= usize::MAX,
        ensures
            c.wf(),
            c.spec_size() == (width, height),
            c.surface_size() == (width, height),
            c.buffer_bytes() == all_bytes((width * height * 4) as nat, 0u8),
            c.spec_title() == "Untitled"@,
            c.spec_attached() is None,
            !c.spec_notify(),
    {
        WindowController {
            width,
            height,
            buffer: PixelBuffer::create(width, height),
            surface_width: width,
            surface_height: height,
            title: "Untitled".to_string(),
            attached: None,
            notify_on_resize: false,
        }
    }

    /// The last-declared window dimensions (not necessarily yet confirmed
    /// by the server).
    pub fn size(&self) -> (s: (u32, u32))
        ensures
            s == self.spec_size(),
    {
        (self.width, self.height)
    }

    /// The cached title: the last successfully applied native window-title
    /// property.
    pub fn title(&self) -> (t: String)
        ensures
            t@ == self.spec_title(),
    {
        self.title.clone()
    }

    /// Records a successfully applied window-title property. The embedding
    /// program calls this only after the server accepted the property
    /// write, so the cache never runs ahead of the window.
    pub fn set_title(&mut self, title: String)
        ensures
            final(self).spec_title() == title@,
            final(self).spec_size() == old(self).spec_size(),
            final(self).surface_size() == old(self).surface_size(),
            final(self).buffer_bytes() == old(self).buffer_bytes(),
            final(self).spec_attached() == old(self).spec_attached(),
            final(self).spec_notify() == old(self).spec_notify(),
            old(self).wf() ==> final(self).wf(),
    {
        self.title = title;
    }

    /// Attaches the one drawable the controller hosts, replacing any
    /// previous attachment.
    pub fn attach_main_drawable(&mut self, drawable: D)
        ensures
            final(self).spec_attached() == Some(drawable),
            final(self).spec_size() == old(self).spec_size(),
            final(self).surface_size() == old(self).surface_size(),
            final(self).buffer_bytes() == old(self).buffer_bytes(),
            final(self).spec_title() == old(self).spec_title(),
            final(self).spec_notify() == old(self).spec_notify(),
            old(self).wf() ==> final(self).wf(),
    {
        self.attached = Some(drawable);
    }

    /// Records that a resize callback is attached: every later resize
    /// outcome will request its invocation.
    pub fn set_resize_callback(&mut self)
        ensures
            final(self).spec_notify(),
            final(self).spec_size() == old(self).spec_size(),
            final(self).surface_size() == old(self).surface_size(),
            final(self).buffer_bytes() == old(self).buffer_bytes(),
            final(self).spec_title() == old(self).spec_title(),
            final(self).spec_attached() == old(self).spec_attached(),
            old(self).wf() ==> final(self).wf(),
    {
        self.notify_on_resize = true;
    }

    /// The draw pipeline: one full frame. The attached drawable, if
    /// any, paints into the buffer at origin (0, 0); the whole buffer is
    /// then converted from (A, R, G, B) to the surface-native (B, G, R, A)
    /// order, and the converted full frame is returned for transmission.
    pub fn draw(&mut self) -> (frame: Vec<u8>)
        requires
            old(self).wf(),
        ensures
            final(self).wf(),
            final(self).spec_size() == old(self).spec_size(),
            final(self).surface_size() == old(self).surface_size(),
            final(self).spec_title() == old(self).spec_title(),
            final(self).spec_notify() == old(self).spec_notify(),
            final(self).spec_attached() is Some <==> old(self).spec_attached() is Some,
            final(self).buffer_bytes() == painted_bytes(
                old(self).spec_attached(),
                old(self).buffer_bytes(),
                old(self).spec_size().0,
                old(self).spec_size().1,
            ),
            frame@ == channel_reversed(final(self).buffer_bytes()),
            frame@.len() == old(self).spec_size().0 * old(self).spec_size().1 * 4,
    {
        match &mut self.attached {
            Some(d) => {
                d.paint(&mut self.buffer, 0, 0);
            },
            None => {},
        }
        proof {
            let w = self.width;
            let h = self.height;
            assert(self.buffer@.len() == w * h * 4);
            assert(self.buffer@.len() % 4 == 0) by (nonlinear_arith)
                requires
                    self.buffer@.len() == w * h * 4,
            ;
        }
        argb_to_bgra(self.buffer.raw_bytes())
    }

    /// One step of the event state machine. Exposure events redraw only
    /// when no further exposures are pending; a structure change adopts the
    /// declared geometry, clears and reallocates the buffer, and asks for a
    /// fresh compositing surface; a destroy notification terminates; all
    /// other events are ignored and change nothing.
    pub fn handle_event(&mut self, event: &WindowEvent) -> (outcome: Outcome)
        requires
            old(self).wf(),
            valid_event(*event),
        ensures
            final(self).wf(),
            final(self).spec_title() == old(self).spec_title(),
            final(self).spec_notify() == old(self).spec_notify(),
            final(self).spec_attached() is Some <==> old(self).spec_attached() is Some,
            outcome is Redraw <==> triggers_redraw(*event),
            outcome is Resized <==> *event is Configure,
            outcome is Terminated <==> *event is Destroy,
            match *event {
                WindowEvent::Configure { width, height } => {
                    &&& final(self).spec_size() == (width, height)
                    &&& final(self).surface_size() == (width, height)
                    &&& final(self).buffer_bytes().len() == width * height * 4
                    &&& final(self).spec_attached() == old(self).spec_attached()
                    &&& outcome == (Outcome::Resized {
                        width,
                        height,
                        notify: old(self).spec_notify(),
                    })
                },
                _ => final(self).spec_size() == old(self).spec_size()
                    && final(self).surface_size() == old(self).surface_size(),
            },
            triggers_redraw(*event) ==> {
                &&& final(self).buffer_bytes() == painted_bytes(
                    old(self).spec_attached(),
                    old(self).buffer_bytes(),
                    old(self).spec_size().0,
                    old(self).spec_size().1,
                )
                &&& (outcome matches Outcome::Redraw(frame) ==> frame@ == channel_reversed(
                    final(self).buffer_bytes(),
                ))
            },
            !triggers_redraw(*event) && !(*event is Configure) ==> *final(self) == *old(self),
    {
        match event {
            WindowEvent::Expose { count } => {
                if *count == 0 {
                    let frame = self.draw();
                    Outcome::Redraw(frame)
                } else {
                    Outcome::Ignored
                }
            },
            WindowEvent::Configure { width, height } => {
                let w: u32 = *width;
                let h: u32 = *height;
                self.buffer.fill(0);
                self.buffer.resize(w, h);
                self.width = w;
                self.height = h;
                self.surface_width = w;
                self.surface_height = h;
                Outcome::Resized { width: w, height: h, notify: self.notify_on_resize }
            },
            WindowEvent::Destroy => Outcome::Terminated,
            WindowEvent::Other => Outcome::Ignored,
        }
    }

    /// Runs the event state machine over a scripted event sequence, as the
    /// blocking loop does over live events: events are handled in order up
    /// to and including the first destroy notification, and the outcomes
    /// are returned in order, one per handled event.
    pub fn run_script(&mut self, events: &Vec<WindowEvent>) -> (trace: Vec<Outcome>)
        requires
            old(self).wf(),
            forall|i: int| 0 <= i < events@.len() ==> valid_event(events@[i]),
        ensures
            final(self).wf(),
            final(self).spec_title() == old(self).spec_title(),
            final(self).spec_notify() == old(self).spec_notify(),
            trace@.len() == processed_len(events@),
            forall|i: int|
                0 <= i < trace@.len() ==> ((trace@[i] is Redraw) <==> triggers_redraw(events@[i])),
            forall|i: int|
                0 <= i < trace@.len() ==> ((trace@[i] is Resized) <==> events@[i] is Configure),
            forall|i: int|
                0 <= i < trace@.len() ==> ((trace@[i] is Terminated) <==> events@[i] is Destroy),
            forall|i: int|
                0 <= i < trace@.len() && (#[trigger] events@[i]) is Configure ==> trace@[i]
                    == (Outcome::Resized {
                    width: events@[i]->Configure_width,
                    height: events@[i]->Configure_height,
                    notify: old(self).spec_notify(),
                }),
    {
        let n: usize = events.len();
        let mut trace: Vec<Outcome> = Vec::new();
        let mut i: usize = 0;
        let mut done: bool = false;
        while i < n && !done
            invariant
                self.wf(),
                self.spec_title() == old(self).spec_title(),
                self.spec_notify() == old(self).spec_notify(),
                i <= n,
                n == events@.len(),
                forall|k: int| 0 <= k < events@.len() ==> valid_event(events@[k]),
                trace@.len() == i,
                forall|k: int|
                    0 <= k < i ==> ((trace@[k] is Redraw) <==> triggers_redraw(events@[k])),
                forall|k: int|
                    0 <= k < i ==> ((trace@[k] is Resized) <==> events@[k] is Configure),
                forall|k: int|
                    0 <= k < i ==> ((trace@[k] is Terminated) <==> events@[k] is Destroy),
                forall|k: int|
                    0 <= k < i && (#[trigger] events@[k]) is Configure ==> trace@[k]
                        == (Outcome::Resized {
                        width: events@[k]->Configure_width,
                        height: events@[k]->Configure_height,
                        notify: old(self).spec_notify(),
                    }),
                !done ==> forall|k: int| 0 <= k < i ==> !(events@[k] is Destroy),
                done ==> i >= 1 && events@[i - 1] is Destroy && (forall|k: int|
                    0 <= k < i - 1 ==> !(events@[k] is Destroy)),
            decreases n - i,
        {
            let ev = events[i];
            let stop = matches!(ev, WindowEvent::Destroy);
            let outcome = self.handle_event(&ev);
            trace.push(outcome);
            i = i + 1;
            done = stop;
        }
        proof {
            if done {
                lemma_processed_len_first_destroy(events@, i - 1);
            } else {
                lemma_processed_len_no_destroy(events@);
            }
        }
        trace
    }
}

/// The event loop never stops early: a script with no destroy notification
/// is retrieved and handled to its end.
pub proof fn lemma_processed_len_no_destroy(events: Seq<WindowEvent>)
    requires
        forall|i: int| 0 <= i < events.len() ==> !(events[i] is Destroy),
    ensures
        processed_len(events) == events.len(),
    decreases events.len(),
{
    if events.len() > 0 {
        assert(forall|i: int|
            0 <= i < events.skip(1).len() ==> events.skip(1)[i] == events[i + 1]);
        lemma_processed_len_no_destroy(events.skip(1));
    }
}

/// The event loop stops exactly at the first destroy notification: a
/// script whose first destroy stands at position `k` has its first `k + 1`
/// events retrieved and handled, and no more.
pub proof fn lemma_processed_len_first_destroy(events: Seq<WindowEvent>, k: int)
    requires
        0 <= k < events.len(),
        events[k] is Destroy,
        forall|j: int| 0 <= j < k ==> !(events[j] is Destroy),
    ensures
        processed_len(events) == k + 1,
    decreases k,
{
    if k > 0 {
        assert(forall|i: int|
            0 <= i < events.skip(1).len() ==> events.skip(1)[i] == events[i + 1]);
        lemma_processed_len_first_destroy(events.skip(1), k - 1);
    }
}

/// Exposure coalescing: in a burst of `n` exposure events whose pending
/// counts run down `n - 1`, `n - 2`, ..., `0`, the whole burst is handled
/// and only its last event, the one with count `0`, triggers a redraw.
pub proof fn lemma_exposure_burst_single_redraw(events: Seq<WindowEvent>, n: int)
    requires
        0 < n <= u32::MAX,
        events.len() == n,
        forall|i: int|
            0 <= i < n ==> events[i] == (WindowEvent::Expose { count: (n - 1 - i) as u32 }),
    ensures
        processed_len(events) == n,
        forall|i: int| 0 <= i < n ==> (triggers_redraw(events[i]) <==> i == n - 1),
{
    assert forall|i: int| 0 <= i < n implies (triggers_redraw(events[i]) <==> i == n - 1) by {
        assert(events[i] == (WindowEvent::Expose { count: (n - 1 - i) as u32 }));
        assert(0 <= n - 1 - i <= u32::MAX);
    }
    lemma_processed_len_no_destroy(events);
}

} // verus!
