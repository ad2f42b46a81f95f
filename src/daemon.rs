//! The event-loop engine: one icon per visible entry of the watched
//! directory, each bound to at most one surface, a dirty flag for rendering,
//! and the decisions taken on filesystem changes, pointer input, output
//! geometry and the update tick.
//!
//! The engine does no I/O. What it decides that the outside world must carry
//! out (start or stop an icon's script, create, move or destroy a surface) is
//! queued as `DaemonCommand`s, which the caller drains with `take_commands`.

use vstd::prelude::*;
use crate::grid::{grid_position, grid_position_spec, Position, LABEL_HEIGHT, DEFAULT_SCREEN_WIDTH, DEFAULT_SCREEN_HEIGHT};
use crate::input::{button_number, normalize_button, InputEvent, SurfaceId};
use crate::paths::{is_visible_child, visible_child};
use crate::wayland::{WaylandState, WaylandView, has_surface, AttachError, OutputInfo, PointerSample};
use crate::pixels::argb8888_of;
use crate::canvas::pixmap_bytes;

verus! {

/// Classification of a directory entry.
#[derive(Debug, Clone, Copy, PartialEq, Eq)]
pub enum IconType {
    Folder,
    File,
    Symlink,
    Executable,
    Image,
    Document,
    Archive,
    Video,
    Audio,
    Unknown,
}

/// Settings of the daemon.
#[derive(Debug, Clone)]
pub struct Config {
    /// Width and height of an icon, in pixels.
    pub icon_size: u32,
    /// Size of label text, in pixels.
    pub font_size: u32,
    /// Space between grid cells, in pixels.
    pub grid_spacing: u32,
    /// Directories searched for icon scripts, in order.
    pub script_dirs: Vec<String>,
}

impl Config {
    /// The cell sizes derived from these settings fit in 32 bits.
    pub open spec fn wf(&self) -> bool {
        self.icon_size + LABEL_HEIGHT + self.grid_spacing <= u32::MAX
    }

    /// Whether the cell sizes derived from these settings fit in 32 bits.
    pub fn is_valid(&self) -> (r: bool)
        ensures
            r == self.wf(),
    {
        self.icon_size as u64 + LABEL_HEIGHT as u64 + self.grid_spacing as u64 <= u32::MAX as u64
    }

    /// Default settings: 64-pixel icons, 12-pixel labels, 16 pixels between
    /// cells, and no script directories.
    pub fn default_config() -> (c: Config)
        ensures
            c.icon_size == 64,
            c.font_size == 12,
            c.grid_spacing == 16,
            c.script_dirs@.len() == 0,
            c.wf(),
    {
        Config { icon_size: 64, font_size: 12, grid_spacing: 16, script_dirs: Vec::new() }
    }
}

/// One desktop icon.
#[derive(Debug)]
pub struct Icon {
    /// Path of the entry, its identity.
    pub path: String,
    pub kind: IconType,
    /// Whether the pointer is over the icon.
    pub hovered: bool,
    /// The surface that shows the icon, if it has one.
    pub surface: Option<SurfaceId>,
}

impl Icon {
    pub fn path(&self) -> (r: &String)
        ensures
            r == &self.path,
    {
        &self.path
    }

    pub fn icon_type(&self) -> (r: IconType)
        ensures
            r == self.kind,
    {
        self.kind
    }

    pub fn is_hovered(&self) -> (r: bool)
        ensures
            r == self.hovered,
    {
        self.hovered
    }

    pub fn surface_id(&self) -> (r: Option<SurfaceId>)
        ensures
            r == self.surface,
    {
        self.surface
    }
}

/// What changed in the watched directory.
#[derive(Debug, Clone, Copy, PartialEq, Eq)]
pub enum FsEventKind {
    Create,
    Remove,
    Modify,
    Other,
}

/// One path of a change record, with the classification of what it names.
#[derive(Debug)]
pub struct FsEntry {
    pub path: String,
    pub kind: IconType,
}

/// A change record from the directory watcher.
#[derive(Debug)]
pub struct FsEvent {
    pub kind: FsEventKind,
    pub entries: Vec<FsEntry>,
}

/// Work the engine hands to the outside world, in the order it decided it.
#[derive(Debug)]
pub enum DaemonCommand {
    /// Start the script that drives the icon of `path`, if one is found.
    SpawnScript { path: String, kind: IconType },
    /// Stop the script of the icon of `path`.
    KillScript { path: String },
    /// Create background surface `surface_id`, anchored top-left, at margins
    /// `(x, y)` with the given size.
    CreateSurface { surface_id: SurfaceId, x: i32, y: i32, width: u32, height: u32 },
    /// Destroy surface `surface_id`.
    DestroySurface { surface_id: SurfaceId },
    /// Move surface `surface_id` to margins `(x, y)`.
    MoveSurface { surface_id: SurfaceId, x: i32, y: i32 },
}

/// One icon to draw in a render pass.
#[derive(Debug)]
pub struct RenderJob {
    pub path: String,
    pub surface_id: SurfaceId,
    pub width: u32,
    pub height: u32,
}

/// A pressed button on an icon, with the button number its handler receives.
#[derive(Debug)]
pub struct Click {
    pub path: String,
    pub button: u32,
}

/// Mathematical picture of an `IconDaemon`.
pub struct DaemonView {
    pub dir: Seq<char>,
    pub icon_size: u32,
    pub grid_spacing: u32,
    pub icons: Seq<Icon>,
    pub wayland: Option<WaylandView>,
    pub screen_width: u32,
    pub screen_height: u32,
    pub needs_render: bool,
    pub commands: Seq<DaemonCommand>,
}

/// Some icon has path `p`.
pub open spec fn has_path(icons: Seq<Icon>, p: Seq<char>) -> bool {
    exists|i: int| 0 <= i < icons.len() && icons[i].path@ == p
}

/// Where the icon of path `p` stands, when `has_path(icons, p)`.
pub open spec fn path_index(icons: Seq<Icon>, p: Seq<char>) -> int {
    choose|i: int| 0 <= i < icons.len() && icons[i].path@ == p
}

/// Some icon is shown on surface `id`.
pub open spec fn has_surface_icon(icons: Seq<Icon>, id: SurfaceId) -> bool {
    exists|i: int| 0 <= i < icons.len() && icons[i].surface == Some(id)
}

/// Where the icon shown on surface `id` stands, when `has_surface_icon(icons, id)`.
pub open spec fn surface_icon_index(icons: Seq<Icon>, id: SurfaceId) -> int {
    choose|i: int| 0 <= i < icons.len() && icons[i].surface == Some(id)
}

/// The path-to-surface half of the bimap.
pub open spec fn surface_of(icons: Seq<Icon>, p: Seq<char>) -> Option<SurfaceId> {
    if has_path(icons, p) {
        icons[path_index(icons, p)].surface
    } else {
        None
    }
}

/// The surface-to-path half of the bimap.
pub open spec fn path_of(icons: Seq<Icon>, id: SurfaceId) -> Option<Seq<char>> {
    if has_surface_icon(icons, id) {
        Some(icons[surface_icon_index(icons, id)].path@)
    } else {
        None
    }
}

/// The set of paths that have an icon.
pub open spec fn path_set(icons: Seq<Icon>) -> Set<Seq<char>> {
    Set::new(|p: Seq<char>| has_path(icons, p))
}

/// Paths are unique, and so are the surfaces that icons are shown on.
pub open spec fn icons_unique(icons: Seq<Icon>) -> bool {
    &&& forall|i: int, j: int| 0 <= i < j < icons.len() ==> icons[i].path@ != icons[j].path@
    &&& forall|i: int, j: int|
        0 <= i < j < icons.len() && icons[i].surface is Some ==> icons[i].surface != icons[j].surface
}

impl DaemonView {
    pub open spec fn surface_height(self) -> int {
        self.icon_size + LABEL_HEIGHT
    }

    pub open spec fn cell_width(self) -> int {
        self.icon_size + self.grid_spacing
    }

    pub open spec fn cell_height(self) -> int {
        self.icon_size + LABEL_HEIGHT + self.grid_spacing
    }

    /// Well-formedness: the bimap is consistent, only visible children of the
    /// watched directory have icons, and every surface an icon was given was
    /// handed out by the compositor client.
    pub open spec fn wf(self) -> bool {
        &&& self.icon_size + LABEL_HEIGHT + self.grid_spacing <= u32::MAX
        &&& icons_unique(self.icons)
        &&& forall|i: int| 0 <= i < self.icons.len() ==> visible_child(self.dir, #[trigger] self.icons[i].path@)
        &&& match self.wayland {
            None => forall|i: int| 0 <= i < self.icons.len() ==> #[trigger] self.icons[i].surface is None,
            Some(w) => {
                &&& w.wf()
                &&& forall|i: int|
                    0 <= i < self.icons.len() && #[trigger] self.icons[i].surface is Some
                        ==> self.icons[i].surface->0 < w.next_surface_id
            },
        }
    }

    /// Where a new icon goes: the cell after the last icon.
    pub open spec fn next_cell(self) -> Position {
        grid_position_spec(
            (self.icons.len() as u32) as int,
            self.screen_width as int,
            self.cell_width(),
            self.cell_height(),
        )
    }

    /// The state after `add(path)`: a visible child without an icon gets
    /// one in the next cell, and a surface there when a compositor is
    /// connected and an identity is left; a render pass becomes due.
    pub open spec fn with_icon(self, path: String, kind: IconType) -> DaemonView {
        if !visible_child(self.dir, path@) || has_path(self.icons, path@) {
            self
        } else {
            let pos = self.next_cell();
            let spawn = seq![DaemonCommand::SpawnScript { path, kind }];
            match self.wayland {
                Some(w) => if w.next_surface_id < u64::MAX {
                    let id = w.next_surface_id;
                    DaemonView {
                        icons: self.icons.push(Icon { path, kind, hovered: false, surface: Some(id) }),
                        wayland: Some(
                            w.with_new_surface(pos.x, pos.y, self.icon_size, self.surface_height() as u32),
                        ),
                        commands: self.commands + spawn + seq![
                            DaemonCommand::CreateSurface {
                                surface_id: id,
                                x: pos.x,
                                y: pos.y,
                                width: self.icon_size,
                                height: self.surface_height() as u32,
                            },
                        ],
                        needs_render: true,
                        ..self
                    }
                } else {
                    DaemonView {
                        icons: self.icons.push(Icon { path, kind, hovered: false, surface: None }),
                        commands: self.commands + spawn,
                        needs_render: true,
                        ..self
                    }
                },
                None => DaemonView {
                    icons: self.icons.push(Icon { path, kind, hovered: false, surface: None }),
                    commands: self.commands + spawn,
                    needs_render: true,
                    ..self
                },
            }
        }
    }

    /// The state after `remove(path)`: the icon's script is stopped, its
    /// surface destroyed, both halves of the bimap forget it, and a render
    /// pass becomes due.
    pub open spec fn without_icon(self, p: Seq<char>) -> DaemonView {
        if !has_path(self.icons, p) {
            self
        } else {
            let i = path_index(self.icons, p);
            let icon = self.icons[i];
            let kill = seq![DaemonCommand::KillScript { path: icon.path }];
            match icon.surface {
                Some(id) => DaemonView {
                    icons: self.icons.remove(i),
                    wayland: match self.wayland {
                        Some(w) => Some(w.without_surface(id)),
                        None => None,
                    },
                    commands: self.commands + kill + seq![DaemonCommand::DestroySurface { surface_id: id }],
                    needs_render: true,
                    ..self
                },
                None => DaemonView {
                    icons: self.icons.remove(i),
                    commands: self.commands + kill,
                    needs_render: true,
                    ..self
                },
            }
        }
    }
}

impl DaemonView {
    /// The state after one path of a change record of kind `kind`: a created
    /// path is added, a removed one removed, and a modified path that has an
    /// icon is removed and added again; anything else changes nothing.
    pub open spec fn with_change(self, kind: FsEventKind, e: FsEntry) -> DaemonView {
        match kind {
            FsEventKind::Create => self.with_icon(e.path, e.kind),
            FsEventKind::Remove => self.without_icon(e.path@),
            FsEventKind::Modify => if has_path(self.icons, e.path@) {
                self.without_icon(e.path@).with_icon(e.path, e.kind)
            } else {
                self
            },
            FsEventKind::Other => self,
        }
    }

    /// The state after the paths of a change record, in order.
    pub open spec fn with_changes(self, kind: FsEventKind, entries: Seq<FsEntry>) -> DaemonView
        decreases entries.len(),
    {
        if entries.len() == 0 {
            self
        } else {
            self.with_changes(kind, entries.drop_last()).with_change(kind, entries.last())
        }
    }

    /// The state after a change record: its paths in order, and a render
    /// pass due unless the record is of a kind the engine ignores.
    pub open spec fn after_fs_event(self, e: FsEvent) -> DaemonView {
        let v = self.with_changes(e.kind, e.entries@);
        if e.kind == FsEventKind::Other {
            v
        } else {
            DaemonView { needs_render: true, ..v }
        }
    }

    /// The state after removing the icons of `paths`, in order.
    pub open spec fn without_icons(self, paths: Seq<String>) -> DaemonView
        decreases paths.len(),
    {
        if paths.len() == 0 {
            self
        } else {
            self.without_icons(paths.drop_last()).without_icon(paths.last()@)
        }
    }

    /// The state after one input event, with the click it produced: entering
    /// or leaving an icon's surface sets or clears its hover flag, a pressed
    /// button on an icon's surface is a click, and each of these makes a
    /// render pass due. Motion and events on unknown surfaces change nothing.
    pub open spec fn with_input(self, e: InputEvent) -> (DaemonView, Seq<Click>) {
        match e {
            InputEvent::PointerEnter { surface_id, .. } => if has_surface_icon(self.icons, surface_id) {
                let i = surface_icon_index(self.icons, surface_id);
                (
                    DaemonView {
                        icons: self.icons.update(i, Icon { hovered: true, ..self.icons[i] }),
                        needs_render: true,
                        ..self
                    },
                    Seq::empty(),
                )
            } else {
                (self, Seq::empty())
            },
            InputEvent::PointerLeave { surface_id } => if has_surface_icon(self.icons, surface_id) {
                let i = surface_icon_index(self.icons, surface_id);
                (
                    DaemonView {
                        icons: self.icons.update(i, Icon { hovered: false, ..self.icons[i] }),
                        needs_render: true,
                        ..self
                    },
                    Seq::empty(),
                )
            } else {
                (self, Seq::empty())
            },
            InputEvent::PointerMotion { .. } => (self, Seq::empty()),
            InputEvent::PointerButton { surface_id, button, pressed, .. } => if pressed
                && has_surface_icon(self.icons, surface_id) {
                let i = surface_icon_index(self.icons, surface_id);
                (
                    DaemonView { needs_render: true, ..self },
                    seq![Click { path: self.icons[i].path, button: button_number(button) }],
                )
            } else {
                (self, Seq::empty())
            },
        }
    }

    /// The state and clicks after a sequence of input events, in order.
    pub open spec fn with_inputs(self, events: Seq<InputEvent>) -> (DaemonView, Seq<Click>)
        decreases events.len(),
    {
        if events.len() == 0 {
            (self, Seq::empty())
        } else {
            let (v, clicks) = self.with_inputs(events.drop_last());
            let (w, more) = v.with_input(events.last());
            (w, clicks + more)
        }
    }

    /// The state after the first `n` icons were moved to the cells given by
    /// their rank among the icons that have a surface, with that count.
    pub open spec fn repositioned_upto(self, n: int) -> (DaemonView, int)
        decreases n,
    {
        if n <= 0 {
            (self, 0)
        } else {
            let (v, k) = self.repositioned_upto(n - 1);
            match self.icons[n - 1].surface {
                Some(id) => {
                    let pos = grid_position_spec(
                        (k as u32) as int,
                        self.screen_width as int,
                        self.cell_width(),
                        self.cell_height(),
                    );
                    (
                        DaemonView {
                            wayland: match v.wayland {
                                Some(w) => Some(w.with_position(id, pos.x, pos.y)),
                                None => None,
                            },
                            commands: v.commands.push(
                                DaemonCommand::MoveSurface { surface_id: id, x: pos.x, y: pos.y },
                            ),
                            ..v
                        },
                        k + 1,
                    )
                },
                None => (v, k),
            }
        }
    }

    /// The state after every icon with a surface was moved to its cell.
    pub open spec fn repositioned(self) -> DaemonView {
        self.repositioned_upto(self.icons.len() as int).0
    }

    /// The state after the geometry poll: when a compositor is connected and
    /// the primary output's size (or, without one, the stored size) differs
    /// from the stored size, it is stored, the icons are repositioned, and a
    /// render pass is due.
    pub open spec fn after_geometry_poll(self) -> DaemonView {
        match self.wayland {
            None => self,
            Some(w) => {
                let dims = match crate::wayland::output_dimensions(w.outputs) {
                    Some(d) => d,
                    None => (self.screen_width, self.screen_height),
                };
                if dims == (self.screen_width, self.screen_height) {
                    self
                } else {
                    DaemonView {
                        needs_render: true,
                        ..DaemonView { screen_width: dims.0, screen_height: dims.1, ..self }.repositioned()
                    }
                }
            },
        }
    }

    /// The state after the compositor closed surface `id`: the registry and
    /// the bimap forget it, and its icon stays without a surface.
    pub open spec fn after_close(self, id: SurfaceId) -> DaemonView {
        let icons = if has_surface_icon(self.icons, id) {
            let i = surface_icon_index(self.icons, id);
            self.icons.update(i, Icon { surface: None, ..self.icons[i] })
        } else {
            self.icons
        };
        DaemonView {
            icons,
            wayland: match self.wayland {
                Some(w) => Some(w.without_surface(id)),
                None => None,
            },
            ..self
        }
    }
}

/// The render jobs for the icons that have a surface, in order.
pub open spec fn jobs_of(icons: Seq<Icon>, width: u32, height: u32) -> Seq<RenderJob>
    decreases icons.len(),
{
    if icons.len() == 0 {
        Seq::empty()
    } else {
        let earlier = jobs_of(icons.drop_last(), width, height);
        match icons.last().surface {
            Some(id) => earlier.push(RenderJob { path: icons.last().path, surface_id: id, width, height }),
            None => earlier,
        }
    }
}

/// The icon daemon.
pub struct IconDaemon {
    config: Config,
    desktop_dir: String,
    icons: Vec<Icon>,
    wayland: Option<WaylandState>,
    screen_width: u32,
    screen_height: u32,
    needs_render: bool,
    commands: Vec<DaemonCommand>,
}

impl View for IconDaemon {
    type V = DaemonView;

    closed spec fn view(&self) -> DaemonView {
        DaemonView {
            dir: self.desktop_dir@,
            icon_size: self.config.icon_size,
            grid_spacing: self.config.grid_spacing,
            icons: self.icons@,
            wayland: match self.wayland {
                Some(w) => Some(w@),
                None => None,
            },
            screen_width: self.screen_width,
            screen_height: self.screen_height,
            needs_render: self.needs_render,
            commands: self.commands@,
        }
    }
}

impl IconDaemon {
    pub open spec fn wf(&self) -> bool {
        self@.wf()
    }

    /// A daemon for `desktop_dir` with no icons yet. `wayland` is the
    /// compositor client, or `None` when running without a display. The
    /// screen size is that of the primary output, else 1920x1080. The first
    /// render pass is due.
    pub fn new(config: Config, desktop_dir: String, wayland: Option<WaylandState>) -> (d: Self)
        requires
            config.wf(),
            wayland matches Some(w) ==> w.wf(),
        ensures
            d.wf(),
            d@.dir == desktop_dir@,
            d@.icon_size == config.icon_size,
            d@.grid_spacing == config.grid_spacing,
            d@.icons.len() == 0,
            d@.wayland == (match wayland {
                Some(w) => Some(w@),
                None => None::<WaylandView>,
            }),
            (d@.screen_width, d@.screen_height) == (match wayland {
                Some(w) => match crate::wayland::output_dimensions(w@.outputs) {
                    Some(dims) => dims,
                    None => (DEFAULT_SCREEN_WIDTH, DEFAULT_SCREEN_HEIGHT),
                },
                None => (DEFAULT_SCREEN_WIDTH, DEFAULT_SCREEN_HEIGHT),
            }),
            d@.needs_render,
            d@.commands.len() == 0,
    {
        let dims = match &wayland {
            Some(w) => match w.get_output_dimensions() {
                Some(dims) => dims,
                None => (DEFAULT_SCREEN_WIDTH, DEFAULT_SCREEN_HEIGHT),
            },
            None => (DEFAULT_SCREEN_WIDTH, DEFAULT_SCREEN_HEIGHT),
        };
        IconDaemon {
            config,
            desktop_dir,
            icons: Vec::new(),
            wayland,
            screen_width: dims.0,
            screen_height: dims.1,
            needs_render: true,
            commands: Vec::new(),
        }
    }

    fn find_path(&self, path: &String) -> (r: Option<usize>)
        requires
            self.wf(),
        ensures
            r is None <==> !has_path(self@.icons, path@),
            r matches Some(i) ==> i < self@.icons.len() && i == path_index(self@.icons, path@),
    {
        let mut i: usize = 0;
        while i < self.icons.len()
            invariant
                self.wf(),
                i <= self.icons.len(),
                forall|j: int| 0 <= j < i ==> self.icons@[j].path@ != path@,
            decreases self.icons.len() - i,
        {
            if self.icons[i].path == *path {
                proof {
                    let k = path_index(self@.icons, path@);
                    assert(has_path(self@.icons, path@));
                    assert(self.icons@[k].path@ == path@);
                    if k != i {
                        if k < i {
                            assert(self.icons@[k].path@ != self.icons@[i as int].path@);
                        } else {
                            assert(self.icons@[i as int].path@ != self.icons@[k].path@);
                        }
                    }
                }
                return Some(i);
            }
            i = i + 1;
        }
        None
    }

    /// Adds an icon for `path`, classified as `kind`. Nothing happens when
    /// `path` already has an icon, is hidden, or is not directly inside the
    /// watched directory. The new icon takes the cell after the last one and,
    /// with a compositor connected, a new surface of size
    /// `(icon_size, icon_size + 24)` there; if no surface can be had the icon
    /// stays without one.
    pub fn add_icon(&mut self, path: &String, kind: IconType)
        requires
            old(self).wf(),
        ensures
            final(self).wf(),
            final(self)@ == old(self)@.with_icon(*path, kind),
    {
        if !is_visible_child(&self.desktop_dir, path) {
            return;
        }
        if self.find_path(path).is_some() {
            return;
        }
        let ghost v = self@;
        let surface_height: u32 = self.config.icon_size + LABEL_HEIGHT;
        let cell_width: u32 = self.config.icon_size + self.config.grid_spacing;
        let cell_height: u32 = surface_height + self.config.grid_spacing;
        let index: u32 = self.icons.len() as u32;
        let pos = grid_position(self.screen_width, index, cell_width, cell_height);
        assert(pos == v.next_cell());
        self.commands.push(DaemonCommand::SpawnScript { path: path.clone(), kind });
        let mut surface: Option<SurfaceId> = None;
        match self.wayland.take() {
            Some(mut w) => {
                match w.create_surface(pos.x, pos.y, self.config.icon_size, surface_height) {
                    Ok(id) => {
                        surface = Some(id);
                        self.commands.push(
                            DaemonCommand::CreateSurface {
                                surface_id: id,
                                x: pos.x,
                                y: pos.y,
                                width: self.config.icon_size,
                                height: surface_height,
                            },
                        );
                    },
                    Err(_) => {},
                }
                self.wayland = Some(w);
            },
            None => {},
        }
        self.icons.push(Icon { path: path.clone(), kind, hovered: false, surface });
        self.needs_render = true;
        proof {
            let f = self@;
            let want = v.with_icon(*path, kind);
            assert(f.icons =~= want.icons);
            assert(f.commands =~= want.commands);
            assert(f.wayland == want.wayland);
            assert forall|i: int, j: int| 0 <= i < j < f.icons.len() implies f.icons[i].path@ != f.icons[j].path@ by {
                if j == f.icons.len() - 1 {
                    assert(v.icons[i].path@ != path@);
                }
            }
        }
    }

    /// Removes the icon of `path`: stops its script, destroys its surface and
    /// erases both bimap entries. Nothing happens when `path` has no icon.
    pub fn remove_icon(&mut self, path: &String)
        requires
            old(self).wf(),
        ensures
            final(self).wf(),
            final(self)@ == old(self)@.without_icon(path@),
    {
        let i = match self.find_path(path) {
            Some(i) => i,
            None => {
                return;
            },
        };
        let ghost v = self@;
        let icon = self.icons.remove(i);
        self.needs_render = true;
        self.commands.push(DaemonCommand::KillScript { path: icon.path });
        match icon.surface {
            Some(id) => {
                match self.wayland.take() {
                    Some(mut w) => {
                        w.destroy_surface(id);
                        self.wayland = Some(w);
                    },
                    None => {},
                }
                self.commands.push(DaemonCommand::DestroySurface { surface_id: id });
            },
            None => {},
        }
        proof {
            let f = self@;
            let want = v.without_icon(path@);
            assert(f.icons =~= want.icons);
            assert(f.commands =~= want.commands);
            assert(f.wayland == want.wayland);
            assert forall|a: int, b: int| 0 <= a < b < f.icons.len() implies f.icons[a].path@ != f.icons[b].path@ by {
                if a < i {
                    if b < i {
                    } else {
                        assert(f.icons[b] == v.icons[b + 1]);
                    }
                } else {
                    assert(f.icons[a] == v.icons[a + 1]);
                    assert(f.icons[b] == v.icons[b + 1]);
                }
            }
            assert forall|a: int, b: int|
                0 <= a < b < f.icons.len() && f.icons[a].surface is Some implies f.icons[a].surface != f.icons[b].surface by {
                if a < i {
                    if b < i {
                    } else {
                        assert(f.icons[b] == v.icons[b + 1]);
                    }
                } else {
                    assert(f.icons[a] == v.icons[a + 1]);
                    assert(f.icons[b] == v.icons[b + 1]);
                }
            }
        }
    }

    /// Applies the paths of `entries`, in order, as a change record of kind
    /// `kind`.
    fn apply_entries(&mut self, kind: FsEventKind, entries: &Vec<FsEntry>)
        requires
            old(self).wf(),
        ensures
            final(self).wf(),
            final(self)@ == old(self)@.with_changes(kind, entries@),
    {
        let ghost start = self@;
        let mut i: usize = 0;
        while i < entries.len()
            invariant
                self.wf(),
                i <= entries.len(),
                self@ == start.with_changes(kind, entries@.subrange(0, i as int)),
            decreases entries.len() - i,
        {
            let e = &entries[i];
            proof {
                assert(entries@.subrange(0, i + 1).drop_last() =~= entries@.subrange(0, i as int));
                assert(entries@.subrange(0, i + 1).last() == *e);
            }
            match kind {
                FsEventKind::Create => {
                    self.add_icon(&e.path, e.kind);
                },
                FsEventKind::Remove => {
                    self.remove_icon(&e.path);
                },
                FsEventKind::Modify => {
                    if self.find_path(&e.path).is_some() {
                        self.remove_icon(&e.path);
                        self.add_icon(&e.path, e.kind);
                    }
                },
                FsEventKind::Other => {},
            }
            i = i + 1;
        }
        proof {
            assert(entries@.subrange(0, entries@.len() as int) =~= entries@);
        }
    }

    /// Initial scan: adds an icon for each entry of the watched directory, in
    /// the order given. Hidden entries get none.
    pub fn scan_desktop(&mut self, entries: &Vec<FsEntry>)
        requires
            old(self).wf(),
        ensures
            final(self).wf(),
            final(self)@ == old(self)@.with_changes(FsEventKind::Create, entries@),
    {
        self.apply_entries(FsEventKind::Create, entries);
    }

    /// Handles a change record from the directory watcher: created paths are
    /// added, removed ones removed, modified ones that have an icon are
    /// removed and added again, and the render pass becomes due. Records of
    /// other kinds are ignored.
    pub fn handle_fs_event(&mut self, event: &FsEvent)
        requires
            old(self).wf(),
        ensures
            final(self).wf(),
            final(self)@ == old(self)@.after_fs_event(*event),
    {
        self.apply_entries(event.kind, &event.entries);
        match event.kind {
            FsEventKind::Other => {},
            _ => {
                self.needs_render = true;
            },
        }
    }

    /// Removes the icons whose update reported the entry gone, after the
    /// update of all icons.
    pub fn update_icons(&mut self, gone: &Vec<String>)
        requires
            old(self).wf(),
        ensures
            final(self).wf(),
            final(self)@ == old(self)@.without_icons(gone@),
    {
        let ghost start = self@;
        let mut i: usize = 0;
        while i < gone.len()
            invariant
                self.wf(),
                i <= gone.len(),
                self@ == start.without_icons(gone@.subrange(0, i as int)),
            decreases gone.len() - i,
        {
            proof {
                assert(gone@.subrange(0, i + 1).drop_last() =~= gone@.subrange(0, i as int));
            }
            self.remove_icon(&gone[i]);
            i = i + 1;
        }
        proof {
            assert(gone@.subrange(0, gone@.len() as int) =~= gone@);
        }
    }

    fn find_surface_icon(&self, id: SurfaceId) -> (r: Option<usize>)
        requires
            self.wf(),
        ensures
            r is None <==> !has_surface_icon(self@.icons, id),
            r matches Some(i) ==> i < self@.icons.len() && i == surface_icon_index(self@.icons, id),
    {
        let mut i: usize = 0;
        while i < self.icons.len()
            invariant
                self.wf(),
                i <= self.icons.len(),
                forall|j: int| 0 <= j < i ==> self.icons@[j].surface != Some(id),
            decreases self.icons.len() - i,
        {
            let hit = match self.icons[i].surface {
                Some(s) => s == id,
                None => false,
            };
            if hit {
                proof {
                    let k = surface_icon_index(self@.icons, id);
                    assert(has_surface_icon(self@.icons, id));
                    assert(self.icons@[k].surface == Some(id));
                    if k != i {
                        if k < i {
                            assert(self.icons@[k].surface != self.icons@[i as int].surface);
                        } else {
                            assert(self.icons@[i as int].surface != self.icons@[k].surface);
                        }
                    }
                }
                return Some(i);
            }
            i = i + 1;
        }
        None
    }

    fn apply_input(&mut self, e: InputEvent) -> (clicks: Vec<Click>)
        requires
            old(self).wf(),
        ensures
            final(self).wf(),
            (final(self)@, clicks@) == old(self)@.with_input(e),
    {
        let mut clicks: Vec<Click> = Vec::new();
        match e {
            InputEvent::PointerEnter { surface_id, .. } => {
                match self.find_surface_icon(surface_id) {
                    Some(i) => {
                        self.icons[i].hovered = true;
                        self.needs_render = true;
                    },
                    None => {},
                }
            },
            InputEvent::PointerLeave { surface_id } => {
                match self.find_surface_icon(surface_id) {
                    Some(i) => {
                        self.icons[i].hovered = false;
                        self.needs_render = true;
                    },
                    None => {},
                }
            },
            InputEvent::PointerMotion { .. } => {},
            InputEvent::PointerButton { surface_id, button, pressed, .. } => {
                if pressed {
                    match self.find_surface_icon(surface_id) {
                        Some(i) => {
                            clicks.push(Click { path: self.icons[i].path.clone(), button: normalize_button(button) });
                            self.needs_render = true;
                        },
                        None => {},
                    }
                }
            },
        }
        proof {
            let (w, more) = old(self)@.with_input(e);
            assert(self@.icons =~= w.icons);
            assert(clicks@ =~= more);
        }
        clicks
    }

    /// Drains the compositor client's input queue and handles each event in
    /// order. Returns the clicks, for the caller to hand to the icons'
    /// handlers. Without a compositor nothing happens.
    pub fn handle_wayland_input(&mut self) -> (clicks: Vec<Click>)
        requires
            old(self).wf(),
        ensures
            final(self).wf(),
            match old(self)@.wayland {
                None => final(self)@ == old(self)@ && clicks@.len() == 0,
                Some(w) => {
                    let drained = DaemonView {
                        wayland: Some(WaylandView { input_events: Seq::empty(), ..w }),
                        ..old(self)@
                    };
                    (final(self)@, clicks@) == drained.with_inputs(w.input_events)
                },
            },
    {
        let events = match self.wayland.take() {
            Some(mut w) => {
                let events = w.take_input_events();
                self.wayland = Some(w);
                events
            },
            None => {
                return Vec::new();
            },
        };
        let ghost start = self@;
        let mut clicks: Vec<Click> = Vec::new();
        let mut i: usize = 0;
        while i < events.len()
            invariant
                self.wf(),
                i <= events.len(),
                (self@, clicks@) == start.with_inputs(events@.subrange(0, i as int)),
            decreases events.len() - i,
        {
            proof {
                assert(events@.subrange(0, i + 1).drop_last() =~= events@.subrange(0, i as int));
            }
            let mut more = self.apply_input(events[i]);
            clicks.append(&mut more);
            i = i + 1;
        }
        proof {
            assert(events@.subrange(0, events@.len() as int) =~= events@);
        }
        clicks
    }

    /// The compositor configured surface `surface_id` with the given size.
    pub fn surface_configured(&mut self, surface_id: SurfaceId, width: u32, height: u32)
        requires
            old(self).wf(),
        ensures
            final(self).wf(),
            final(self)@ == (DaemonView {
                wayland: match old(self)@.wayland {
                    Some(w) => Some(w.with_configure(surface_id, width, height)),
                    None => None,
                },
                ..old(self)@
            }),
    {
        match self.wayland.take() {
            Some(mut w) => {
                w.configure(surface_id, width, height);
                self.wayland = Some(w);
            },
            None => {},
        }
    }

    /// The compositor closed surface `surface_id`.
    pub fn surface_closed(&mut self, surface_id: SurfaceId)
        requires
            old(self).wf(),
        ensures
            final(self).wf(),
            final(self)@ == old(self)@.after_close(surface_id),
    {
        match self.find_surface_icon(surface_id) {
            Some(i) => {
                self.icons[i].surface = None;
            },
            None => {},
        }
        match self.wayland.take() {
            Some(mut w) => {
                w.closed(surface_id);
                self.wayland = Some(w);
            },
            None => {},
        }
        proof {
            assert(self@.icons =~= old(self)@.after_close(surface_id).icons);
        }
    }

    /// Hands a pointer frame to the compositor client for translation.
    pub fn pointer_frame(&mut self, events: &Vec<PointerSample>)
        requires
            old(self).wf(),
        ensures
            final(self).wf(),
            final(self)@ == (DaemonView {
                wayland: match old(self)@.wayland {
                    Some(w) => Some({
                        let (p, out) = crate::wayland::pointer_frame_spec(w.pointer, events@);
                        WaylandView { pointer: p, input_events: w.input_events + out, ..w }
                    }),
                    None => None,
                },
                ..old(self)@
            }),
    {
        match self.wayland.take() {
            Some(mut w) => {
                w.pointer_frame(events);
                self.wayland = Some(w);
            },
            None => {},
        }
    }

    /// Records the outputs the compositor advertises, primary first.
    pub fn set_outputs(&mut self, outputs: Vec<OutputInfo>)
        requires
            old(self).wf(),
        ensures
            final(self).wf(),
            final(self)@ == (DaemonView {
                wayland: match old(self)@.wayland {
                    Some(w) => Some(WaylandView { outputs: outputs@, ..w }),
                    None => None,
                },
                ..old(self)@
            }),
    {
        match self.wayland.take() {
            Some(mut w) => {
                w.set_outputs(outputs);
                self.wayland = Some(w);
            },
            None => {},
        }
    }

    /// Moves every icon that has a surface to the cell given by its rank
    /// among those icons.
    fn reposition_all_icons(&mut self)
        requires
            old(self).wf(),
        ensures
            final(self).wf(),
            final(self)@ == old(self)@.repositioned(),
    {
        let ghost start = self@;
        let surface_height: u32 = self.config.icon_size + LABEL_HEIGHT;
        let cell_width: u32 = self.config.icon_size + self.config.grid_spacing;
        let cell_height: u32 = surface_height + self.config.grid_spacing;
        let mut rank: usize = 0;
        let mut i: usize = 0;
        while i < self.icons.len()
            invariant
                self.wf(),
                self@.icons == start.icons,
                self@.screen_width == start.screen_width,
                cell_width == start.cell_width(),
                cell_height == start.cell_height(),
                i <= self.icons.len(),
                rank <= i,
                (self@, rank as int) == start.repositioned_upto(i as int),
            decreases self.icons.len() - i,
        {
            match self.icons[i].surface {
                Some(id) => {
                    let pos = grid_position(self.screen_width, rank as u32, cell_width, cell_height);
                    match self.wayland.take() {
                        Some(mut w) => {
                            w.set_surface_position(id, pos.x, pos.y);
                            self.wayland = Some(w);
                        },
                        None => {},
                    }
                    self.commands.push(DaemonCommand::MoveSurface { surface_id: id, x: pos.x, y: pos.y });
                    rank = rank + 1;
                },
                None => {},
            }
            i = i + 1;
        }
    }

    /// Polls the primary output's size; when it differs from the stored one,
    /// stores it, repositions the icons and makes a render pass due.
    pub fn update_screen_dimensions(&mut self)
        requires
            old(self).wf(),
        ensures
            final(self).wf(),
            final(self)@ == old(self)@.after_geometry_poll(),
    {
        let dims = match &self.wayland {
            Some(w) => match w.get_output_dimensions() {
                Some(d) => d,
                None => (self.screen_width, self.screen_height),
            },
            None => {
                return;
            },
        };
        if dims.0 != self.screen_width || dims.1 != self.screen_height {
            self.screen_width = dims.0;
            self.screen_height = dims.1;
            self.reposition_all_icons();
            self.needs_render = true;
        }
    }

    /// The icons to draw in this render pass: when a compositor is connected
    /// and the dirty flag is set, every icon with a surface, in order, at
    /// size `(icon_size, icon_size + 24)`; otherwise none.
    pub fn render_jobs(&self) -> (jobs: Vec<RenderJob>)
        requires
            self.wf(),
        ensures
            self@.wayland is Some && self@.needs_render ==> jobs@ == jobs_of(
                self@.icons,
                self@.icon_size,
                self@.surface_height() as u32,
            ),
            !(self@.wayland is Some && self@.needs_render) ==> jobs@.len() == 0,
    {
        let mut jobs: Vec<RenderJob> = Vec::new();
        if self.wayland.is_none() || !self.needs_render {
            return jobs;
        }
        let width: u32 = self.config.icon_size;
        let height: u32 = self.config.icon_size + LABEL_HEIGHT;
        let mut i: usize = 0;
        while i < self.icons.len()
            invariant
                self.wf(),
                i <= self.icons.len(),
                width == self@.icon_size,
                height == self@.surface_height() as u32,
                jobs@ == jobs_of(self@.icons.subrange(0, i as int), width, height),
            decreases self.icons.len() - i,
        {
            proof {
                assert(self@.icons.subrange(0, i + 1).drop_last() =~= self@.icons.subrange(0, i as int));
            }
            match self.icons[i].surface {
                Some(id) => {
                    jobs.push(RenderJob { path: self.icons[i].path.clone(), surface_id: id, width, height });
                },
                None => {},
            }
            i = i + 1;
        }
        proof {
            assert(self@.icons.subrange(0, self@.icons.len() as int) =~= self@.icons);
        }
        jobs
    }

    /// Checks an attach to surface `surface_id` and converts the rendered
    /// RGBA pixels into the bytes of its ARGB8888 buffer; see
    /// `WaylandState::attach_buffer`. Without a compositor no surface exists.
    pub fn attach_buffer(&self, surface_id: SurfaceId, pixels: &[u8], width: u32, height: u32) -> (r:
        Result<Vec<u8>, AttachError>)
        requires
            self.wf(),
        ensures
            match self@.wayland {
                None => r is Err && r->Err_0 == AttachError::UnknownSurface,
                Some(w) => match crate::wayland::attach_check(w.surfaces, surface_id, pixels@.len() as int, width, height) {
                    Ok(_) => r is Ok && r->Ok_0@ == argb8888_of(pixels@),
                    Err(e) => r is Err && r->Err_0 == e,
                },
            },
            r is Ok ==> (self@.wayland matches Some(w) && has_surface(w.surfaces, surface_id)
                && w.surfaces[crate::wayland::surface_index(w.surfaces, surface_id)].configured),
    {
        match &self.wayland {
            Some(w) => w.attach_buffer(surface_id, pixels, width, height),
            None => Err(AttachError::UnknownSurface),
        }
    }

    /// Checks an attach of the canvas that the rasteriser drew for surface
    /// `surface_id` and converts its bytes; see `attach_buffer`.
    pub fn attach_canvas(&self, surface_id: SurfaceId, canvas: &tiny_skia::Pixmap, width: u32, height: u32) -> (r:
        Result<Vec<u8>, AttachError>)
        requires
            self.wf(),
        ensures
            match self@.wayland {
                None => r is Err && r->Err_0 == AttachError::UnknownSurface,
                Some(w) => match crate::wayland::attach_check(
                    w.surfaces,
                    surface_id,
                    pixmap_bytes(*canvas).len() as int,
                    width,
                    height,
                ) {
                    Ok(_) => r is Ok && r->Ok_0@ == argb8888_of(pixmap_bytes(*canvas)),
                    Err(e) => r is Err && r->Err_0 == e,
                },
            },
            r is Ok ==> (self@.wayland matches Some(w) && has_surface(w.surfaces, surface_id)
                && w.surfaces[crate::wayland::surface_index(w.surfaces, surface_id)].configured),
    {
        self.attach_buffer(surface_id, canvas.data(), width, height)
    }

    /// Ends a render pass in which `failures` icons could not be drawn or
    /// attached. A pass runs only with a compositor connected; after it the
    /// dirty flag is set exactly when some icon failed.
    pub fn finish_render_pass(&mut self, failures: usize)
        requires
            old(self).wf(),
        ensures
            final(self).wf(),
            final(self)@ == (DaemonView {
                needs_render: if old(self)@.wayland is Some {
                    old(self)@.needs_render && failures > 0
                } else {
                    old(self)@.needs_render
                },
                ..old(self)@
            }),
    {
        if self.wayland.is_some() {
            self.needs_render = self.needs_render && failures > 0;
        }
    }

    /// The cell of every icon, in order, on a screen `screen_width` wide;
    /// cell sizes not given are those of the settings.
    pub fn position_all_icons(
        &self,
        screen_width: u32,
        screen_height: u32,
        cell_width: Option<u32>,
        cell_height: Option<u32>,
    ) -> (r: Vec<(String, Position)>)
        requires
            self.wf(),
        ensures
            r@.len() == self@.icons.len(),
            forall|i: int|
                0 <= i < r@.len() ==> #[trigger] r@[i] == (
                    self@.icons[i].path,
                    grid_position_spec(
                        (i as u32) as int,
                        screen_width as int,
                        match cell_width {
                            Some(c) => c as int,
                            None => self@.cell_width(),
                        },
                        match cell_height {
                            Some(c) => c as int,
                            None => self@.cell_height(),
                        },
                    ),
                ),
    {
        let cw: u32 = match cell_width {
            Some(c) => c,
            None => self.config.icon_size + self.config.grid_spacing,
        };
        let ch: u32 = match cell_height {
            Some(c) => c,
            None => self.config.icon_size + LABEL_HEIGHT + self.config.grid_spacing,
        };
        let mut r: Vec<(String, Position)> = Vec::new();
        let mut i: usize = 0;
        while i < self.icons.len()
            invariant
                self.wf(),
                i <= self.icons.len(),
                cw == match cell_width {
                    Some(c) => c as int,
                    None => self@.cell_width(),
                },
                ch == match cell_height {
                    Some(c) => c as int,
                    None => self@.cell_height(),
                },
                r@.len() == i,
                forall|j: int|
                    0 <= j < i ==> #[trigger] r@[j] == (
                        self@.icons[j].path,
                        grid_position_spec((j as u32) as int, screen_width as int, cw as int, ch as int),
                    ),
            decreases self.icons.len() - i,
        {
            let pos = grid_position(screen_width, i as u32, cw, ch);
            r.push((self.icons[i].path.clone(), pos));
            i = i + 1;
        }
        r
    }

    /// The icon of `path`, if it has one.
    pub fn get_icon(&self, path: &String) -> (r: Option<&Icon>)
        requires
            self.wf(),
        ensures
            has_path(self@.icons, path@) ==> r == Some(&self@.icons[path_index(self@.icons, path@)]),
            !has_path(self@.icons, path@) ==> r is None,
    {
        match self.find_path(path) {
            Some(i) => Some(&self.icons[i]),
            None => None,
        }
    }

    /// Number of icons.
    pub fn icon_count(&self) -> (r: usize)
        ensures
            r == self@.icons.len(),
    {
        self.icons.len()
    }

    /// Whether `path` has an icon.
    pub fn has_icon(&self, path: &String) -> (r: bool)
        requires
            self.wf(),
        ensures
            r == has_path(self@.icons, path@),
    {
        self.find_path(path).is_some()
    }

    /// All icons, in the order they were added.
    pub fn icons(&self) -> (r: &Vec<Icon>)
        ensures
            r@ == self@.icons,
    {
        &self.icons
    }

    /// The surface that shows the icon of `path`, if any.
    pub fn surface_for_path(&self, path: &String) -> (r: Option<SurfaceId>)
        requires
            self.wf(),
        ensures
            r == surface_of(self@.icons, path@),
    {
        match self.find_path(path) {
            Some(i) => self.icons[i].surface,
            None => None,
        }
    }

    /// The path of the icon shown on surface `surface_id`, if any.
    pub fn path_for_surface(&self, surface_id: SurfaceId) -> (r: Option<String>)
        requires
            self.wf(),
        ensures
            r matches Some(p) ==> path_of(self@.icons, surface_id) == Some(p@),
            r is None ==> path_of(self@.icons, surface_id) is None,
    {
        match self.find_surface_icon(surface_id) {
            Some(i) => Some(self.icons[i].path.clone()),
            None => None,
        }
    }

    /// Hands out the queued commands, oldest first, and empties the queue.
    pub fn take_commands(&mut self) -> (r: Vec<DaemonCommand>)
        requires
            old(self).wf(),
        ensures
            final(self).wf(),
            r@ == old(self)@.commands,
            final(self)@ == (DaemonView { commands: Seq::empty(), ..old(self)@ }),
    {
        let mut taken: Vec<DaemonCommand> = Vec::new();
        std::mem::swap(&mut taken, &mut self.commands);
        taken
    }

    /// Whether a render pass is due.
    pub fn needs_render(&self) -> (r: bool)
        ensures
            r == self@.needs_render,
    {
        self.needs_render
    }

    /// The stored screen size.
    pub fn screen_dimensions(&self) -> (r: (u32, u32))
        ensures
            r == (self@.screen_width, self@.screen_height),
    {
        (self.screen_width, self.screen_height)
    }

    /// Whether a compositor client is connected.
    pub fn has_display(&self) -> (r: bool)
        ensures
            r == self@.wayland is Some,
    {
        self.wayland.is_some()
    }

    /// Whether the compositor asked the daemon to stop.
    pub fn wayland_should_exit(&self) -> (r: bool)
        ensures
            r == match self@.wayland {
                Some(w) => w.exit,
                None => false,
            },
    {
        match &self.wayland {
            Some(w) => w.should_exit(),
            None => false,
        }
    }
}

} // verus!
