//! Camera controller: turns pointer-drag and scroll-wheel input into a 2D
//! camera transform (pan offset plus zoom factor).
//!
//! The zoom factor and the pan offset are kept in integer fixed point: a zoom
//! of one is stored as `ZOOM_UNIT`. One scroll step multiplies the zoom by
//! 5/4 (zooming in) or by 4/5 (zooming out) and clamps it to
//! `[ZOOM_MIN, ZOOM_MAX]`. While the drag button is held, a pointer move of
//! `(dx, dy)` screen units pans by `(dx, dy)` divided by the zoom factor, so
//! the apparent drag speed on screen is independent of the zoom.

use vstd::prelude::*;

verus! {

/// Fixed-point scale: a zoom factor of one is stored as `ZOOM_UNIT`.
pub const ZOOM_UNIT: u32 = 1000;

/// Smallest zoom factor (1/8), in `ZOOM_UNIT` fixed point.
pub const ZOOM_MIN: u32 = 125;

/// Largest zoom factor (8), in `ZOOM_UNIT` fixed point.
pub const ZOOM_MAX: u32 = 8000;

/// One input event handled by the camera controller.
#[derive(Clone, Copy)]
pub enum CameraEvent {
    /// The drag button was pressed.
    ButtonDown,
    /// The drag button was released.
    ButtonUp,
    /// The pointer moved by `(dx, dy)` screen units.
    PointerMove { dx: i32, dy: i32 },
    /// One scroll-wheel step; `up` means zooming in.
    Scroll { up: bool },
}

/// Mathematical model of the camera state.
pub struct CameraModel {
    pub pan_x: int,
    pub pan_y: int,
    pub zoom: int,
    pub dragging: bool,
}

/// The zoom factor is within its configured bounds.
pub open spec fn camera_wf(m: CameraModel) -> bool {
    ZOOM_MIN as int <= m.zoom <= ZOOM_MAX as int
}

/// A zoom value clamped to `[ZOOM_MIN, ZOOM_MAX]`.
pub open spec fn clamp_zoom(z: int) -> int {
    if z < ZOOM_MIN as int {
        ZOOM_MIN as int
    } else if z > ZOOM_MAX as int {
        ZOOM_MAX as int
    } else {
        z
    }
}

/// The zoom factor after one scroll step from zoom `z`.
pub open spec fn scroll_zoom(z: int, up: bool) -> int {
    clamp_zoom(if up { z * 5 / 4 } else { z * 4 / 5 })
}

/// The pan change for a screen delta `d` at zoom `z`: `d / (z / ZOOM_UNIT)`,
/// rounded toward zero.
pub open spec fn pan_step(d: int, z: int) -> int {
    if d >= 0 {
        (d * (ZOOM_UNIT as int)) / z
    } else {
        -(((-d) * (ZOOM_UNIT as int)) / z)
    }
}

/// The camera state after handling one event.
pub open spec fn step_spec(m: CameraModel, e: CameraEvent) -> CameraModel {
    match e {
        CameraEvent::ButtonDown => CameraModel { dragging: true, ..m },
        CameraEvent::ButtonUp => CameraModel { dragging: false, ..m },
        CameraEvent::PointerMove { dx, dy } => {
            if m.dragging {
                CameraModel {
                    pan_x: m.pan_x + pan_step(dx as int, m.zoom),
                    pan_y: m.pan_y + pan_step(dy as int, m.zoom),
                    ..m
                }
            } else {
                m
            }
        },
        CameraEvent::Scroll { up } => CameraModel { zoom: scroll_zoom(m.zoom, up), ..m },
    }
}

/// The new pan offsets after event `e` fit in the machine integers that hold
/// them. This only restricts a dragged pointer move whose accumulated pan
/// would overflow.
pub open spec fn step_fits(m: CameraModel, e: CameraEvent) -> bool {
    match e {
        CameraEvent::PointerMove { dx, dy } => m.dragging ==> {
            &&& i64::MIN as int <= m.pan_x + pan_step(dx as int, m.zoom) <= i64::MAX as int
            &&& i64::MIN as int <= m.pan_y + pan_step(dy as int, m.zoom) <= i64::MAX as int
        },
        _ => true,
    }
}

/// Camera controller state: pan offset, zoom factor, and whether the drag
/// button is currently held.
pub struct CameraState {
    pan_x: i64,
    pan_y: i64,
    zoom: u32,
    dragging: bool,
}

impl View for CameraState {
    type V = CameraModel;

    closed spec fn view(&self) -> CameraModel {
        CameraModel {
            pan_x: self.pan_x as int,
            pan_y: self.pan_y as int,
            zoom: self.zoom as int,
            dragging: self.dragging,
        }
    }
}

/// The pan change for screen delta `d` at zoom `z`.
fn pan_step_exec(d: i32, z: u32) -> (r: i64)
    requires
        ZOOM_MIN <= z <= ZOOM_MAX,
    ensures
        r as int == pan_step(d as int, z as int),
{
    if d >= 0 {
        proof {
            assert((d as u64) * (ZOOM_UNIT as u64) <= 0x8000_0000u64 * 1000u64) by (nonlinear_arith)
                requires
                    d as u64 <= 0x8000_0000u64,
                    ZOOM_UNIT as u64 == 1000u64,
            ;
        }
        let q: u64 = ((d as u64) * (ZOOM_UNIT as u64)) / (z as u64);
        q as i64
    } else {
        let mag: u64 = (-(d as i64)) as u64;
        proof {
            assert(mag <= 0x8000_0000u64);
            assert(mag * (ZOOM_UNIT as u64) <= 0x8000_0000u64 * 1000u64) by (nonlinear_arith)
                requires
                    mag <= 0x8000_0000u64,
                    ZOOM_UNIT as u64 == 1000u64,
            ;
        }
        let q: u64 = (mag * (ZOOM_UNIT as u64)) / (z as u64);
        -(q as i64)
    }
}

impl CameraState {
    /// The zoom factor is within its configured bounds.
    pub open spec fn wf(&self) -> bool {
        camera_wf(self@)
    }

    /// A fresh camera: no pan, zoom one, not dragging.
    pub fn new() -> (s: Self)
        ensures
            s.wf(),
            s@.pan_x == 0,
            s@.pan_y == 0,
            s@.zoom == ZOOM_UNIT as int,
            !s@.dragging,
    {
        CameraState { pan_x: 0, pan_y: 0, zoom: ZOOM_UNIT, dragging: false }
    }

    /// The pan offset, in fixed-point world units.
    pub fn pan(&self) -> (r: (i64, i64))
        ensures
            r.0 as int == self@.pan_x,
            r.1 as int == self@.pan_y,
    {
        (self.pan_x, self.pan_y)
    }

    /// The zoom factor, in `ZOOM_UNIT` fixed point.
    pub fn zoom(&self) -> (r: u32)
        ensures
            r as int == self@.zoom,
    {
        self.zoom
    }

    /// Whether the drag button is currently held.
    pub fn dragging(&self) -> (r: bool)
        ensures
            r == self@.dragging,
    {
        self.dragging
    }

    /// Handle one input event: presses and releases toggle the drag flag, a
    /// pointer move pans while dragging, a scroll step rescales the zoom and
    /// clamps it.
    pub fn step(&mut self, e: CameraEvent)
        requires
            old(self).wf(),
            step_fits(old(self)@, e),
        ensures
            final(self).wf(),
            final(self)@ == step_spec(old(self)@, e),
    {
        match e {
            CameraEvent::ButtonDown => {
                self.dragging = true;
            },
            CameraEvent::ButtonUp => {
                self.dragging = false;
            },
            CameraEvent::PointerMove { dx, dy } => {
                if self.dragging {
                    let sx: i64 = pan_step_exec(dx, self.zoom);
                    let sy: i64 = pan_step_exec(dy, self.zoom);
                    self.pan_x = self.pan_x + sx;
                    self.pan_y = self.pan_y + sy;
                }
            },
            CameraEvent::Scroll { up } => {
                let raw: u32 = if up {
                    self.zoom * 5 / 4
                } else {
                    self.zoom * 4 / 5
                };
                self.zoom = if raw < ZOOM_MIN {
                    ZOOM_MIN
                } else if raw > ZOOM_MAX {
                    ZOOM_MAX
                } else {
                    raw
                };
            },
        }
    }

    /// Handle one input event if the resulting pan offset fits in the machine
    /// integers that hold it, and say whether it was handled. A dragged move
    /// that would overflow the pan offset is ignored; every other event is
    /// handled.
    pub fn try_step(&mut self, e: CameraEvent) -> (applied: bool)
        requires
            old(self).wf(),
        ensures
            final(self).wf(),
            applied == step_fits(old(self)@, e),
            applied ==> final(self)@ == step_spec(old(self)@, e),
            !applied ==> final(self)@ == old(self)@,
    {
        match e {
            CameraEvent::PointerMove { dx, dy } => {
                if self.dragging {
                    let sx: i64 = pan_step_exec(dx, self.zoom);
                    let sy: i64 = pan_step_exec(dy, self.zoom);
                    let x_fits = if sx >= 0 {
                        self.pan_x <= i64::MAX - sx
                    } else {
                        self.pan_x >= i64::MIN - sx
                    };
                    let y_fits = if sy >= 0 {
                        self.pan_y <= i64::MAX - sy
                    } else {
                        self.pan_y >= i64::MIN - sy
                    };
                    if x_fits && y_fits {
                        self.pan_x = self.pan_x + sx;
                        self.pan_y = self.pan_y + sy;
                        true
                    } else {
                        false
                    }
                } else {
                    true
                }
            },
            _ => {
                self.step(e);
                true
            },
        }
    }
}

/// The camera state after handling one event, ignoring a dragged move whose
/// pan offset would not fit in the machine integers that hold it.
pub open spec fn try_step_spec(m: CameraModel, e: CameraEvent) -> CameraModel {
    if step_fits(m, e) {
        step_spec(m, e)
    } else {
        m
    }
}

/// The camera state after handling a batch of events in order, each as
/// `try_step_spec` does.
pub open spec fn run_batch_spec(m: CameraModel, es: Seq<CameraEvent>) -> CameraModel
    decreases es.len(),
{
    if es.len() == 0 {
        m
    } else {
        try_step_spec(run_batch_spec(m, es.drop_last()), es.last())
    }
}

impl CameraState {
    /// Handle one frame's batch of input events in order. Each event acts as
    /// `try_step` does: a dragged move whose pan offset would overflow is
    /// ignored, every other event is applied.
    pub fn apply_batch(&mut self, events: &Vec<CameraEvent>)
        requires
            old(self).wf(),
        ensures
            final(self).wf(),
            final(self)@ == run_batch_spec(old(self)@, events@),
    {
        let mut k: usize = 0;
        while k < events.len()
            invariant
                self.wf(),
                k <= events@.len(),
                self@ == run_batch_spec(old(self)@, events@.take(k as int)),
            decreases events@.len() - k,
        {
            self.try_step(events[k]);
            k = k + 1;
            proof {
                assert(events@.take(k as int).drop_last() =~= events@.take(k as int - 1));
            }
        }
        proof {
            assert(events@.take(events@.len() as int) =~= events@);
        }
    }
}

/// The zoom factor after a sequence of scroll steps, each applied in order.
pub open spec fn scroll_seq(z: int, steps: Seq<bool>) -> int
    decreases steps.len(),
{
    if steps.len() == 0 {
        z
    } else {
        scroll_zoom(scroll_seq(z, steps.drop_last()), steps.last())
    }
}

/// Law: starting from any zoom within `[ZOOM_MIN, ZOOM_MAX]`, the zoom factor
/// stays within those bounds after any sequence of scroll steps.
pub proof fn lemma_scroll_stays_in_range(z: int, steps: Seq<bool>)
    requires
        ZOOM_MIN as int <= z <= ZOOM_MAX as int,
    ensures
        ZOOM_MIN as int <= scroll_seq(z, steps) <= ZOOM_MAX as int,
    decreases steps.len(),
{
    if steps.len() > 0 {
        lemma_scroll_stays_in_range(z, steps.drop_last());
    }
}

/// Law: every event preserves the zoom bounds.
pub proof fn lemma_step_preserves_wf(m: CameraModel, e: CameraEvent)
    requires
        camera_wf(m),
    ensures
        camera_wf(step_spec(m, e)),
{
}

/// Law: while the drag button is held, a pointer move of `(dx, dy)` changes
/// the pan offset by exactly the screen delta divided by the zoom factor, and
/// changes nothing else.
pub proof fn lemma_drag_pans(m: CameraModel, dx: i32, dy: i32)
    requires
        m.dragging,
    ensures
        step_spec(m, CameraEvent::PointerMove { dx, dy }).pan_x == m.pan_x + pan_step(
            dx as int,
            m.zoom,
        ),
        step_spec(m, CameraEvent::PointerMove { dx, dy }).pan_y == m.pan_y + pan_step(
            dy as int,
            m.zoom,
        ),
        step_spec(m, CameraEvent::PointerMove { dx, dy }).zoom == m.zoom,
        step_spec(m, CameraEvent::PointerMove { dx, dy }).dragging == m.dragging,
{
}

/// Law: movement between a release and the next press is not applied — after
/// releasing the drag button, moving the pointer, and pressing it again, the
/// pan offset and the zoom factor are unchanged.
pub proof fn lemma_no_drag_no_pan(m: CameraModel, dx: i32, dy: i32)
    ensures
        ({
            let after = step_spec(
                step_spec(step_spec(m, CameraEvent::ButtonUp), CameraEvent::PointerMove { dx, dy }),
                CameraEvent::ButtonDown,
            );
            after.pan_x == m.pan_x && after.pan_y == m.pan_y && after.zoom == m.zoom
        }),
{
}

} // verus!
