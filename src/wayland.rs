//! State of the compositor client: the registry of icon surfaces with their
//! configure bits, the numeric surface identities, the pointer, the queue of
//! translated input events, and the outputs the compositor advertised.
//!
//! The wire objects themselves live with the caller, which performs the
//! protocol requests that this state decides on and reports the compositor's
//! events back through the methods here.

use vstd::prelude::*;
use crate::input::{InputEvent, SurfaceId};
use crate::pixels::{argb8888_of, rgba_to_argb8888};

verus! {

/// Book-keeping for one layer-shell surface.
#[derive(Debug, Clone, Copy)]
pub struct SurfaceRecord {
    pub id: SurfaceId,
    /// Left margin from the anchor corner.
    pub x: i32,
    /// Top margin from the anchor corner.
    pub y: i32,
    pub width: u32,
    pub height: u32,
    /// Whether the compositor has configured the surface at least once.
    pub configured: bool,
}

/// What happened to the pointer in one event of a pointer frame.
#[derive(Debug, Clone, Copy)]
pub enum PointerKind {
    Enter,
    Leave,
    Motion,
    Press { button: u32 },
    Release { button: u32 },
    Axis,
}

/// One event of a pointer frame. `surface` is the icon surface that the
/// event's wire surface belongs to, if it is one of ours; `x` and `y` are in
/// 24.8 fixed point.
#[derive(Debug, Clone, Copy)]
pub struct PointerSample {
    pub kind: PointerKind,
    pub surface: Option<SurfaceId>,
    pub x: i32,
    pub y: i32,
}

/// Last known pointer position and the icon surface under it.
#[derive(Debug, Clone, Copy)]
pub struct PointerState {
    pub x: i32,
    pub y: i32,
    pub surface: Option<SurfaceId>,
}

/// A display mode that an output advertised.
#[derive(Debug, Clone, Copy)]
pub struct OutputMode {
    pub width: i32,
    pub height: i32,
    pub current: bool,
}

/// What the compositor told about one output.
#[derive(Debug, Clone)]
pub struct OutputInfo {
    /// Size in the compositor's logical coordinate space, if known.
    pub logical_size: Option<(i32, i32)>,
    pub modes: Vec<OutputMode>,
}

/// Why a surface could not be created.
#[derive(Debug, Clone, Copy, PartialEq, Eq)]
pub enum SurfaceError {
    /// Every surface identity has been handed out.
    IdsExhausted,
}

/// Why a buffer could not be attached.
#[derive(Debug, Clone, Copy, PartialEq, Eq)]
pub enum AttachError {
    /// No surface has this identity.
    UnknownSurface,
    /// The compositor has not configured the surface yet; try again later.
    NotConfigured,
    /// The pixel data does not hold `4 * width * height` bytes.
    SizeMismatch,
}

/// Mathematical picture of a `WaylandState`.
pub struct WaylandView {
    pub surfaces: Seq<SurfaceRecord>,
    pub next_surface_id: u64,
    pub outputs: Seq<OutputInfo>,
    pub pointer: PointerState,
    pub input_events: Seq<InputEvent>,
    pub exit: bool,
}

pub open spec fn has_surface(s: Seq<SurfaceRecord>, id: SurfaceId) -> bool {
    exists|i: int| 0 <= i < s.len() && s[i].id == id
}

/// Where the record of surface `id` stands, when `has_surface(s, id)`.
pub open spec fn surface_index(s: Seq<SurfaceRecord>, id: SurfaceId) -> int {
    choose|i: int| 0 <= i < s.len() && s[i].id == id
}

/// Identities are unique, start at 1 and stay below the next one to hand out.
pub open spec fn surfaces_wf(s: Seq<SurfaceRecord>, next: u64) -> bool {
    &&& next >= 1
    &&& forall|i: int| 0 <= i < s.len() ==> 1 <= #[trigger] s[i].id < next
    &&& forall|i: int, j: int| 0 <= i < j < s.len() ==> s[i].id != s[j].id
}

/// The first mode marked current.
pub open spec fn current_mode(modes: Seq<OutputMode>) -> Option<OutputMode>
    decreases modes.len(),
{
    if modes.len() == 0 {
        None
    } else if modes[0].current {
        Some(modes[0])
    } else {
        current_mode(modes.drop_first())
    }
}

/// Size of the primary (first) output: its logical size, else the size of
/// its current mode.
pub open spec fn output_dimensions(outputs: Seq<OutputInfo>) -> Option<(u32, u32)> {
    if outputs.len() == 0 {
        None
    } else {
        match outputs[0].logical_size {
            Some(size) => Some((size.0 as u32, size.1 as u32)),
            None => match current_mode(outputs[0].modes@) {
                Some(m) => Some((m.width as u32, m.height as u32)),
                None => None,
            },
        }
    }
}

/// Pointer state and translated events after one event of a frame.
pub open spec fn pointer_step(p: PointerState, e: PointerSample) -> (PointerState, Seq<InputEvent>) {
    match e.kind {
        PointerKind::Enter => match e.surface {
            Some(id) => (
                PointerState { x: e.x, y: e.y, surface: Some(id) },
                seq![InputEvent::PointerEnter { surface_id: id, x: e.x, y: e.y }],
            ),
            None => (PointerState { x: e.x, y: e.y, surface: p.surface }, Seq::empty()),
        },
        PointerKind::Leave => match e.surface {
            Some(id) => (
                PointerState { x: p.x, y: p.y, surface: None },
                seq![InputEvent::PointerLeave { surface_id: id }],
            ),
            None => (p, Seq::empty()),
        },
        PointerKind::Motion => match p.surface {
            Some(id) => (
                PointerState { x: e.x, y: e.y, surface: p.surface },
                seq![InputEvent::PointerMotion { surface_id: id, x: e.x, y: e.y }],
            ),
            None => (PointerState { x: e.x, y: e.y, surface: p.surface }, Seq::empty()),
        },
        PointerKind::Press { button } => match p.surface {
            Some(id) => (
                p,
                seq![InputEvent::PointerButton { surface_id: id, button, pressed: true, x: p.x, y: p.y }],
            ),
            None => (p, Seq::empty()),
        },
        PointerKind::Release { button } => match p.surface {
            Some(id) => (
                p,
                seq![InputEvent::PointerButton { surface_id: id, button, pressed: false, x: p.x, y: p.y }],
            ),
            None => (p, Seq::empty()),
        },
        PointerKind::Axis => (p, Seq::empty()),
    }
}

/// Pointer state and translated events after a whole frame, in order.
pub open spec fn pointer_frame_spec(p: PointerState, events: Seq<PointerSample>) -> (
    PointerState,
    Seq<InputEvent>,
)
    decreases events.len(),
{
    if events.len() == 0 {
        (p, Seq::empty())
    } else {
        let (q, out) = pointer_frame_spec(p, events.drop_last());
        let (r, more) = pointer_step(q, events.last());
        (r, out + more)
    }
}

/// Outcome of an attach request for surface `id` with `len` bytes of pixels.
pub open spec fn attach_check(
    s: Seq<SurfaceRecord>,
    id: SurfaceId,
    len: int,
    width: u32,
    height: u32,
) -> Result<(), AttachError> {
    if !has_surface(s, id) {
        Err(AttachError::UnknownSurface)
    } else if !s[surface_index(s, id)].configured {
        Err(AttachError::NotConfigured)
    } else if len != 4 * width * height {
        Err(AttachError::SizeMismatch)
    } else {
        Ok(())
    }
}

impl WaylandView {
    pub open spec fn wf(self) -> bool {
        surfaces_wf(self.surfaces, self.next_surface_id)
    }

    /// The state after a new surface got the next identity.
    pub open spec fn with_new_surface(self, x: i32, y: i32, width: u32, height: u32) -> WaylandView {
        WaylandView {
            surfaces: self.surfaces.push(
                SurfaceRecord { id: self.next_surface_id, x, y, width, height, configured: false },
            ),
            next_surface_id: (self.next_surface_id + 1) as u64,
            ..self
        }
    }

    /// The state after surface `id`, if there is one, was dropped.
    pub open spec fn without_surface(self, id: SurfaceId) -> WaylandView {
        if has_surface(self.surfaces, id) {
            WaylandView { surfaces: self.surfaces.remove(surface_index(self.surfaces, id)), ..self }
        } else {
            self
        }
    }

    /// The state after surface `id`, if there is one, moved to `(x, y)`.
    pub open spec fn with_position(self, id: SurfaceId, x: i32, y: i32) -> WaylandView {
        if has_surface(self.surfaces, id) {
            let i = surface_index(self.surfaces, id);
            WaylandView {
                surfaces: self.surfaces.update(i, SurfaceRecord { x, y, ..self.surfaces[i] }),
                ..self
            }
        } else {
            self
        }
    }

    /// The state after the compositor configured surface `id`: sizes above
    /// zero replace the stored ones.
    pub open spec fn with_configure(self, id: SurfaceId, width: u32, height: u32) -> WaylandView {
        if has_surface(self.surfaces, id) {
            let i = surface_index(self.surfaces, id);
            let r = self.surfaces[i];
            WaylandView {
                surfaces: self.surfaces.update(
                    i,
                    SurfaceRecord {
                        width: if width > 0 { width } else { r.width },
                        height: if height > 0 { height } else { r.height },
                        configured: true,
                        ..r
                    },
                ),
                ..self
            }
        } else {
            self
        }
    }
}

/// State of the compositor client.
pub struct WaylandState {
    surfaces: Vec<SurfaceRecord>,
    next_surface_id: SurfaceId,
    outputs: Vec<OutputInfo>,
    pointer: PointerState,
    input_events: Vec<InputEvent>,
    exit: bool,
}

impl View for WaylandState {
    type V = WaylandView;

    closed spec fn view(&self) -> WaylandView {
        WaylandView {
            surfaces: self.surfaces@,
            next_surface_id: self.next_surface_id,
            outputs: self.outputs@,
            pointer: self.pointer,
            input_events: self.input_events@,
            exit: self.exit,
        }
    }
}

impl WaylandState {
    pub open spec fn wf(&self) -> bool {
        self@.wf()
    }

    /// A client with no surfaces, no outputs and no pending input; the first
    /// surface gets identity 1.
    pub fn new() -> (s: Self)
        ensures
            s.wf(),
            s@.surfaces.len() == 0,
            s@.next_surface_id == 1,
            s@.outputs.len() == 0,
            s@.pointer == (PointerState { x: 0, y: 0, surface: None }),
            s@.input_events.len() == 0,
            !s@.exit,
    {
        WaylandState {
            surfaces: Vec::new(),
            next_surface_id: 1,
            outputs: Vec::new(),
            pointer: PointerState { x: 0, y: 0, surface: None },
            input_events: Vec::new(),
            exit: false,
        }
    }

    fn find(&self, id: SurfaceId) -> (r: Option<usize>)
        requires
            self.wf(),
        ensures
            r is None <==> !has_surface(self@.surfaces, id),
            r matches Some(i) ==> i < self@.surfaces.len() && i == surface_index(self@.surfaces, id),
    {
        let mut i: usize = 0;
        while i < self.surfaces.len()
            invariant
                self.wf(),
                i <= self.surfaces.len(),
                forall|j: int| 0 <= j < i ==> self.surfaces@[j].id != id,
            decreases self.surfaces.len() - i,
        {
            if self.surfaces[i].id == id {
                proof {
                    let k = surface_index(self@.surfaces, id);
                    assert(has_surface(self@.surfaces, id));
                    assert(self.surfaces@[k].id == id);
                    if k != i {
                        if k < i {
                            assert(self.surfaces@[k].id != self.surfaces@[i as int].id);
                        } else {
                            assert(self.surfaces@[i as int].id != self.surfaces@[k].id);
                        }
                    }
                }
                return Some(i);
            }
            i = i + 1;
        }
        None
    }

    /// Creates the record of a new background surface at margins `(x, y)`
    /// with the requested size. The surface starts unconfigured. Fails only
    /// when no identity is left to hand out.
    pub fn create_surface(&mut self, x: i32, y: i32, width: u32, height: u32) -> (r: Result<
        SurfaceId,
        SurfaceError,
    >)
        requires
            old(self).wf(),
        ensures
            final(self).wf(),
            old(self)@.next_surface_id < u64::MAX ==> r == Ok::<SurfaceId, SurfaceError>(
                old(self)@.next_surface_id,
            ) && final(self)@ == old(self)@.with_new_surface(x, y, width, height),
            old(self)@.next_surface_id == u64::MAX ==> r == Err::<SurfaceId, SurfaceError>(
                SurfaceError::IdsExhausted,
            ) && final(self)@ == old(self)@,
    {
        if self.next_surface_id == u64::MAX {
            return Err(SurfaceError::IdsExhausted);
        }
        let id = self.next_surface_id;
        self.surfaces.push(SurfaceRecord { id, x, y, width, height, configured: false });
        self.next_surface_id = id + 1;
        Ok(id)
    }

    /// Drops surface `surface_id`; nothing happens if there is none.
    pub fn destroy_surface(&mut self, surface_id: SurfaceId)
        requires
            old(self).wf(),
        ensures
            final(self).wf(),
            final(self)@ == old(self)@.without_surface(surface_id),
    {
        match self.find(surface_id) {
            Some(i) => {
                self.surfaces.remove(i);
            },
            None => {},
        }
    }

    /// The compositor closed surface `surface_id`: its record goes away.
    pub fn closed(&mut self, surface_id: SurfaceId)
        requires
            old(self).wf(),
        ensures
            final(self).wf(),
            final(self)@ == old(self)@.without_surface(surface_id),
    {
        self.destroy_surface(surface_id);
    }

    /// Moves surface `surface_id` to margins `(x, y)`.
    pub fn set_surface_position(&mut self, surface_id: SurfaceId, x: i32, y: i32)
        requires
            old(self).wf(),
        ensures
            final(self).wf(),
            final(self)@ == old(self)@.with_position(surface_id, x, y),
    {
        match self.find(surface_id) {
            Some(i) => {
                let r = self.surfaces[i];
                self.surfaces.set(i, SurfaceRecord { x, y, ..r });
            },
            None => {},
        }
    }

    /// The compositor configured surface `surface_id` with the given size.
    pub fn configure(&mut self, surface_id: SurfaceId, width: u32, height: u32)
        requires
            old(self).wf(),
        ensures
            final(self).wf(),
            final(self)@ == old(self)@.with_configure(surface_id, width, height),
    {
        match self.find(surface_id) {
            Some(i) => {
                let r = self.surfaces[i];
                let w = if width > 0 {
                    width
                } else {
                    r.width
                };
                let h = if height > 0 {
                    height
                } else {
                    r.height
                };
                self.surfaces.set(i, SurfaceRecord { width: w, height: h, configured: true, ..r });
            },
            None => {},
        }
    }

    /// Checks an attach request and converts the RGBA pixels into the
    /// ARGB8888 bytes to copy into the shared-memory buffer. Succeeds exactly
    /// when the surface exists, is configured, and `pixels` holds
    /// `4 * width * height` bytes.
    pub fn attach_buffer(&self, surface_id: SurfaceId, pixels: &[u8], width: u32, height: u32) -> (r:
        Result<Vec<u8>, AttachError>)
        requires
            self.wf(),
        ensures
            match attach_check(self@.surfaces, surface_id, pixels@.len() as int, width, height) {
                Ok(_) => r is Ok && r->Ok_0@ == argb8888_of(pixels@),
                Err(e) => r is Err && r->Err_0 == e,
            },
            r is Ok ==> has_surface(self@.surfaces, surface_id) && self@.surfaces[surface_index(
                self@.surfaces,
                surface_id,
            )].configured,
    {
        let i = match self.find(surface_id) {
            Some(i) => i,
            None => {
                return Err(AttachError::UnknownSurface);
            },
        };
        if !self.surfaces[i].configured {
            return Err(AttachError::NotConfigured);
        }
        assert(width as u64 * height as u64 <= 0xffff_fffe_0000_0001u64) by (nonlinear_arith)
            requires
                width <= u32::MAX,
                height <= u32::MAX,
        ;
        let area: u64 = width as u64 * height as u64;
        let len: usize = pixels.len();
        if area > (usize::MAX / 4) as u64 {
            assert(pixels@.len() != 4 * width * height) by (nonlinear_arith)
                requires
                    area == width * height,
                    area > usize::MAX / 4,
                    pixels@.len() == len,
                    len <= usize::MAX,
            ;
            return Err(AttachError::SizeMismatch);
        }
        assert(4 * area == 4 * width * height) by (nonlinear_arith)
            requires
                area == width * height,
        ;
        if len != 4 * (area as usize) {
            return Err(AttachError::SizeMismatch);
        }
        assert(pixels@.len() == 4 * width * height) by (nonlinear_arith)
            requires
                pixels@.len() == 4 * area,
                area == width * height,
        ;
        assert(pixels@.len() % 4 == 0);
        Ok(rgba_to_argb8888(pixels))
    }

    /// Translates one pointer frame into input events, appended in order to
    /// the queue.
    pub fn pointer_frame(&mut self, events: &Vec<PointerSample>)
        requires
            old(self).wf(),
        ensures
            final(self).wf(),
            ({
                let (p, out) = pointer_frame_spec(old(self)@.pointer, events@);
                final(self)@ == WaylandView {
                    pointer: p,
                    input_events: old(self)@.input_events + out,
                    ..old(self)@
                }
            }),
    {
        let ghost start = self@;
        let mut i: usize = 0;
        while i < events.len()
            invariant
                i <= events.len(),
                ({
                    let (p, out) = pointer_frame_spec(start.pointer, events@.subrange(0, i as int));
                    self@ == WaylandView {
                        pointer: p,
                        input_events: start.input_events + out,
                        ..start
                    }
                }),
            decreases events.len() - i,
        {
            let e = events[i];
            proof {
                assert(events@.subrange(0, i + 1).drop_last() =~= events@.subrange(0, i as int));
                assert(events@.subrange(0, i + 1).last() == e);
            }
            let p = self.pointer;
            let ghost queued = self.input_events@;
            match e.kind {
                PointerKind::Enter => {
                    self.pointer = PointerState { x: e.x, y: e.y, surface: p.surface };
                    match e.surface {
                        Some(id) => {
                            self.pointer = PointerState { x: e.x, y: e.y, surface: Some(id) };
                            self.input_events.push(InputEvent::PointerEnter { surface_id: id, x: e.x, y: e.y });
                        },
                        None => {},
                    }
                },
                PointerKind::Leave => {
                    match e.surface {
                        Some(id) => {
                            self.pointer = PointerState { x: p.x, y: p.y, surface: None };
                            self.input_events.push(InputEvent::PointerLeave { surface_id: id });
                        },
                        None => {},
                    }
                },
                PointerKind::Motion => {
                    self.pointer = PointerState { x: e.x, y: e.y, surface: p.surface };
                    match p.surface {
                        Some(id) => {
                            self.input_events.push(InputEvent::PointerMotion { surface_id: id, x: e.x, y: e.y });
                        },
                        None => {},
                    }
                },
                PointerKind::Press { button } => {
                    match p.surface {
                        Some(id) => {
                            self.input_events.push(
                                InputEvent::PointerButton { surface_id: id, button, pressed: true, x: p.x, y: p.y },
                            );
                        },
                        None => {},
                    }
                },
                PointerKind::Release { button } => {
                    match p.surface {
                        Some(id) => {
                            self.input_events.push(
                                InputEvent::PointerButton { surface_id: id, button, pressed: false, x: p.x, y: p.y },
                            );
                        },
                        None => {},
                    }
                },
                PointerKind::Axis => {},
            }
            proof {
                let (q, out) = pointer_frame_spec(start.pointer, events@.subrange(0, i as int));
                let (r, more) = pointer_step(q, e);
                assert(q == p);
                assert(self.input_events@ =~= queued + more);
                assert(self.pointer == r);
                assert(start.input_events + (out + more) =~= (start.input_events + out) + more);
            }
            i = i + 1;
        }
        proof {
            assert(events@.subrange(0, events@.len() as int) =~= events@);
        }
    }

    /// Hands out the queued input events, oldest first, and empties the queue.
    pub fn take_input_events(&mut self) -> (r: Vec<InputEvent>)
        requires
            old(self).wf(),
        ensures
            final(self).wf(),
            r@ == old(self)@.input_events,
            final(self)@ == (WaylandView { input_events: Seq::empty(), ..old(self)@ }),
    {
        let mut taken: Vec<InputEvent> = Vec::new();
        std::mem::swap(&mut taken, &mut self.input_events);
        taken
    }

    /// Whether the compositor asked the client to stop.
    pub fn should_exit(&self) -> (r: bool)
        ensures
            r == self@.exit,
    {
        self.exit
    }

    /// Asks the client to stop.
    pub fn request_exit(&mut self)
        requires
            old(self).wf(),
        ensures
            final(self).wf(),
            final(self)@ == (WaylandView { exit: true, ..old(self)@ }),
    {
        self.exit = true;
    }

    /// Identities of the live surfaces, in creation order.
    pub fn surface_ids(&self) -> (r: Vec<SurfaceId>)
        ensures
            r@ == self@.surfaces.map_values(|s: SurfaceRecord| s.id),
    {
        let mut ids: Vec<SurfaceId> = Vec::new();
        let mut i: usize = 0;
        while i < self.surfaces.len()
            invariant
                i <= self.surfaces.len(),
                ids@ == self@.surfaces.subrange(0, i as int).map_values(|s: SurfaceRecord| s.id),
            decreases self.surfaces.len() - i,
        {
            ids.push(self.surfaces[i].id);
            i = i + 1;
            proof {
                assert(ids@ =~= self@.surfaces.subrange(0, i as int).map_values(|s: SurfaceRecord| s.id));
            }
        }
        proof {
            assert(self@.surfaces.subrange(0, i as int) =~= self@.surfaces);
        }
        ids
    }

    /// The record of surface `surface_id`, if it exists.
    pub fn surface(&self, surface_id: SurfaceId) -> (r: Option<SurfaceRecord>)
        requires
            self.wf(),
        ensures
            has_surface(self@.surfaces, surface_id) ==> r == Some(
                self@.surfaces[surface_index(self@.surfaces, surface_id)],
            ),
            !has_surface(self@.surfaces, surface_id) ==> r is None,
    {
        match self.find(surface_id) {
            Some(i) => Some(self.surfaces[i]),
            None => None,
        }
    }

    /// Records the outputs the compositor advertises, primary first.
    pub fn set_outputs(&mut self, outputs: Vec<OutputInfo>)
        requires
            old(self).wf(),
        ensures
            final(self).wf(),
            final(self)@ == (WaylandView { outputs: outputs@, ..old(self)@ }),
    {
        self.outputs = outputs;
    }

    /// Size of the primary output, from its logical size or else its current
    /// mode; `None` without outputs or when neither is known.
    pub fn get_output_dimensions(&self) -> (r: Option<(u32, u32)>)
        ensures
            r == output_dimensions(self@.outputs),
    {
        if self.outputs.len() == 0 {
            return None;
        }
        let first = &self.outputs[0];
        assert(*first == self@.outputs[0]);
        match first.logical_size {
            Some(size) => {
                return Some((size.0 as u32, size.1 as u32));
            },
            None => {},
        }
        let mut i: usize = 0;
        assert(first.modes@.subrange(0, first.modes@.len() as int) =~= first.modes@);
        while i < first.modes.len()
            invariant
                self@.outputs.len() > 0,
                *first == self@.outputs[0],
                first.logical_size is None,
                i <= first.modes.len(),
                current_mode(first.modes@) == current_mode(first.modes@.subrange(i as int, first.modes@.len() as int)),
            decreases first.modes.len() - i,
        {
            proof {
                let rest = first.modes@.subrange(i as int, first.modes@.len() as int);
                assert(rest.drop_first() =~= first.modes@.subrange(i + 1, first.modes@.len() as int));
            }
            let m = first.modes[i];
            assert(first.modes@.subrange(i as int, first.modes@.len() as int)[0] == m);
            if m.current {
                assert(current_mode(first.modes@) == Some(m));
                return Some((m.width as u32, m.height as u32));
            }
            i = i + 1;
        }
        None
    }
}

} // verus!
