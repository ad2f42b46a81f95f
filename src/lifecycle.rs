//! What the engine guarantees about the life of icons and surfaces, proved
//! over the transitions that its methods are specified by.

use vstd::prelude::*;
use crate::daemon::{
    DaemonView, FsEntry, FsEvent, FsEventKind, IconType, has_path, path_index, path_set,
    has_surface_icon, surface_icon_index, surface_of, path_of,
};
use crate::paths::{visible_child, hidden_child};
use crate::wayland::{WaylandView, has_surface, surface_index};

verus! {

proof fn lemma_new_surface_wf(w: WaylandView, x: i32, y: i32, width: u32, height: u32)
    requires
        w.wf(),
        w.next_surface_id < u64::MAX,
    ensures
        w.with_new_surface(x, y, width, height).wf(),
        !has_surface(w.surfaces, w.next_surface_id),
{
    let n = w.with_new_surface(x, y, width, height);
    assert forall|i: int| 0 <= i < n.surfaces.len() implies 1 <= #[trigger] n.surfaces[i].id < n.next_surface_id by {
        if i < w.surfaces.len() {
            assert(n.surfaces[i] == w.surfaces[i]);
        }
    }
    assert forall|i: int, j: int| 0 <= i < j < n.surfaces.len() implies n.surfaces[i].id != n.surfaces[j].id by {
        assert(n.surfaces[i] == w.surfaces[i]);
        if j < w.surfaces.len() {
            assert(n.surfaces[j] == w.surfaces[j]);
        } else {
            assert(w.surfaces[i].id < w.next_surface_id);
        }
    }
    if has_surface(w.surfaces, w.next_surface_id) {
        let k = choose|k: int| 0 <= k < w.surfaces.len() && w.surfaces[k].id == w.next_surface_id;
        assert(w.surfaces[k].id < w.next_surface_id);
    }
}

proof fn lemma_without_surface_wf(w: WaylandView, id: u64)
    requires
        w.wf(),
    ensures
        w.without_surface(id).wf(),
        !has_surface(w.without_surface(id).surfaces, id),
        w.without_surface(id).next_surface_id == w.next_surface_id,
{
    let n = w.without_surface(id);
    if has_surface(w.surfaces, id) {
        let k = surface_index(w.surfaces, id);
        assert forall|i: int| 0 <= i < n.surfaces.len() implies 1 <= #[trigger] n.surfaces[i].id < n.next_surface_id by {
            if i < k {
                assert(n.surfaces[i] == w.surfaces[i]);
            } else {
                assert(n.surfaces[i] == w.surfaces[i + 1]);
            }
        }
        assert forall|i: int, j: int| 0 <= i < j < n.surfaces.len() implies n.surfaces[i].id != n.surfaces[j].id by {
            let a = if i < k { i } else { i + 1 };
            let b = if j < k { j } else { j + 1 };
            assert(n.surfaces[i] == w.surfaces[a]);
            assert(n.surfaces[j] == w.surfaces[b]);
        }
        if has_surface(n.surfaces, id) {
            let j = choose|j: int| 0 <= j < n.surfaces.len() && n.surfaces[j].id == id;
            let b = if j < k { j } else { j + 1 };
            assert(n.surfaces[j] == w.surfaces[b]);
            assert(w.surfaces[k].id == id);
        }
    }
}

/// What `add(path)` does to the set of paths with an icon: a visible child
/// of the watched directory joins it, anything else leaves it as it was.
/// The engine stays well-formed.
pub proof fn lemma_add_icon(v: DaemonView, path: String, kind: IconType)
    requires
        v.wf(),
    ensures
        v.with_icon(path, kind).wf(),
        v.with_icon(path, kind).dir == v.dir,
        path_set(v.with_icon(path, kind).icons) == if visible_child(v.dir, path@) {
            path_set(v.icons).insert(path@)
        } else {
            path_set(v.icons)
        },
        visible_child(v.dir, path@) ==> has_path(v.with_icon(path, kind).icons, path@),
{
    let a = v.with_icon(path, kind);
    if !visible_child(v.dir, path@) {
        return;
    }
    if has_path(v.icons, path@) {
        assert(path_set(v.icons).insert(path@) =~= path_set(v.icons));
        return;
    }
    let n = v.icons.len();
    assert(a.icons.len() == n + 1);
    assert forall|i: int| 0 <= i < n implies a.icons[i] == v.icons[i] by {}
    assert(a.icons[n as int].path == path);
    assert(has_path(a.icons, path@));
    assert forall|q: Seq<char>| #[trigger] path_set(a.icons).contains(q) <==> path_set(v.icons).insert(path@).contains(q) by {
        if has_path(a.icons, q) {
            let i = choose|i: int| 0 <= i < a.icons.len() && a.icons[i].path@ == q;
            if i < n {
                assert(v.icons[i].path@ == q);
            }
        }
        if has_path(v.icons, q) {
            let i = choose|i: int| 0 <= i < v.icons.len() && v.icons[i].path@ == q;
            assert(a.icons[i].path@ == q);
        }
    }
    assert(path_set(a.icons) =~= path_set(v.icons).insert(path@));
    // well-formedness
    assert forall|i: int, j: int| 0 <= i < j < a.icons.len() implies a.icons[i].path@ != a.icons[j].path@ by {
        if j == n {
            assert(v.icons[i].path@ != path@);
        }
    }
    match v.wayland {
        Some(w) => {
            if w.next_surface_id < u64::MAX {
                lemma_new_surface_wf(w, v.next_cell().x, v.next_cell().y, v.icon_size, v.surface_height() as u32);
                assert forall|i: int, j: int|
                    0 <= i < j < a.icons.len() && a.icons[i].surface is Some implies a.icons[i].surface != a.icons[j].surface by {
                    if j == n {
                        assert(v.icons[i].surface->0 < w.next_surface_id);
                    }
                }
                assert forall|i: int|
                    0 <= i < a.icons.len() && #[trigger] a.icons[i].surface is Some implies a.icons[i].surface->0
                        < a.wayland->0.next_surface_id by {
                    if i < n {
                        assert(v.icons[i].surface->0 < w.next_surface_id);
                    }
                }
            }
        },
        None => {},
    }
    assert forall|i: int| 0 <= i < a.icons.len() implies visible_child(a.dir, #[trigger] a.icons[i].path@) by {
        if i < n {
            assert(visible_child(v.dir, v.icons[i].path@));
        }
    }
}

/// What `remove(path)` does: the path leaves the set of paths with an icon
/// and both halves of the bimap; the surface it had is destroyed, shows no
/// icon, and lies below every identity still to be handed out. The engine
/// stays well-formed.
pub proof fn lemma_remove_icon(v: DaemonView, p: Seq<char>)
    requires
        v.wf(),
    ensures
        v.without_icon(p).wf(),
        v.without_icon(p).dir == v.dir,
        path_set(v.without_icon(p).icons) == path_set(v.icons).remove(p),
        !has_path(v.without_icon(p).icons, p),
        surface_of(v.without_icon(p).icons, p) is None,
        surface_of(v.icons, p) matches Some(id) ==> {
            &&& path_of(v.without_icon(p).icons, id) is None
            &&& v.without_icon(p).wayland matches Some(w) && !has_surface(w.surfaces, id)
                && id < w.next_surface_id
        },
{
    let r = v.without_icon(p);
    if !has_path(v.icons, p) {
        assert(path_set(v.icons).remove(p) =~= path_set(v.icons));
        return;
    }
    let k = path_index(v.icons, p);
    let n = v.icons.len();
    assert(r.icons.len() == n - 1);
    assert forall|i: int| 0 <= i < r.icons.len() implies #[trigger] r.icons[i] == v.icons[if i < k { i } else { i + 1 }] by {}
    assert forall|i: int| 0 <= i < r.icons.len() implies #[trigger] r.icons[i].path@ != p by {
        let a = if i < k { i } else { i + 1 };
        assert(r.icons[i] == v.icons[a]);
        if a < k {
            assert(v.icons[a].path@ != v.icons[k].path@);
        } else {
            assert(v.icons[k].path@ != v.icons[a].path@);
        }
    }
    assert forall|q: Seq<char>| #[trigger] path_set(r.icons).contains(q) <==> path_set(v.icons).remove(p).contains(q) by {
        if has_path(r.icons, q) {
            let i = choose|i: int| 0 <= i < r.icons.len() && r.icons[i].path@ == q;
            let a = if i < k { i } else { i + 1 };
            assert(r.icons[i] == v.icons[a]);
        }
        if has_path(v.icons, q) && q != p {
            let i = choose|i: int| 0 <= i < v.icons.len() && v.icons[i].path@ == q;
            assert(i != k);
            let j = if i < k { i } else { i - 1 };
            assert(r.icons[j] == v.icons[i]);
        }
    }
    assert(path_set(r.icons) =~= path_set(v.icons).remove(p));
    // well-formedness
    assert forall|i: int, j: int| 0 <= i < j < r.icons.len() implies r.icons[i].path@ != r.icons[j].path@ by {
        let a = if i < k { i } else { i + 1 };
        let b = if j < k { j } else { j + 1 };
        assert(r.icons[i] == v.icons[a]);
        assert(r.icons[j] == v.icons[b]);
    }
    assert forall|i: int, j: int|
        0 <= i < j < r.icons.len() && r.icons[i].surface is Some implies r.icons[i].surface != r.icons[j].surface by {
        let a = if i < k { i } else { i + 1 };
        let b = if j < k { j } else { j + 1 };
        assert(r.icons[i] == v.icons[a]);
        assert(r.icons[j] == v.icons[b]);
    }
    assert forall|i: int| 0 <= i < r.icons.len() implies visible_child(r.dir, #[trigger] r.icons[i].path@) by {
        let a = if i < k { i } else { i + 1 };
        assert(r.icons[i] == v.icons[a]);
        assert(visible_child(v.dir, v.icons[a].path@));
    }
    match v.wayland {
        Some(w) => {
            match v.icons[k].surface {
                Some(id) => {
                    lemma_without_surface_wf(w, id);
                },
                None => {},
            }
            let rw = r.wayland->0;
            assert forall|i: int|
                0 <= i < r.icons.len() && #[trigger] r.icons[i].surface is Some implies r.icons[i].surface->0
                    < rw.next_surface_id by {
                let a = if i < k { i } else { i + 1 };
                assert(r.icons[i] == v.icons[a]);
                assert(v.icons[a].surface is Some);
            }
        },
        None => {
            assert forall|i: int| 0 <= i < r.icons.len() implies #[trigger] r.icons[i].surface is None by {
                let a = if i < k { i } else { i + 1 };
                assert(r.icons[i] == v.icons[a]);
                assert(v.icons[a].surface is None);
            }
        },
    }
    // the path and its surface are gone from the bimap
    assert(surface_of(v.icons, p) == v.icons[k].surface);
    match v.icons[k].surface {
        Some(id) => {
            if has_surface_icon(r.icons, id) {
                let i = choose|i: int| 0 <= i < r.icons.len() && r.icons[i].surface == Some(id);
                let a = if i < k { i } else { i + 1 };
                assert(r.icons[i] == v.icons[a]);
                if a < k {
                    assert(v.icons[a].surface != v.icons[k].surface);
                } else {
                    assert(v.icons[k].surface != v.icons[a].surface);
                }
            }
            assert(v.wayland is Some);
            assert(id < v.wayland->0.next_surface_id);
        },
        None => {},
    }
}

/// The set of paths named by the entries of a change record.
pub open spec fn entry_paths(entries: Seq<FsEntry>) -> Set<Seq<char>> {
    Set::new(|p: Seq<char>| exists|i: int| 0 <= i < entries.len() && entries[i].path@ == p)
}

/// The visible direct children among a directory's contents.
pub open spec fn visible_entries(dir: Seq<char>, contents: Set<Seq<char>>) -> Set<Seq<char>> {
    contents.filter(|p: Seq<char>| visible_child(dir, p))
}

/// The directory's contents after the change that record `e` reports:
/// created paths join, removed paths leave, and a modification changes no
/// membership.
pub open spec fn contents_after(contents: Set<Seq<char>>, e: FsEvent) -> Set<Seq<char>> {
    match e.kind {
        FsEventKind::Create => contents + entry_paths(e.entries@),
        FsEventKind::Remove => contents - entry_paths(e.entries@),
        _ => contents,
    }
}

/// The directory's contents after a sequence of changes, in order.
pub open spec fn contents_after_all(contents: Set<Seq<char>>, events: Seq<FsEvent>) -> Set<Seq<char>>
    decreases events.len(),
{
    if events.len() == 0 {
        contents
    } else {
        contents_after(contents_after_all(contents, events.drop_last()), events.last())
    }
}

/// The engine after handling a sequence of change records, in order.
pub open spec fn after_fs_events(v: DaemonView, events: Seq<FsEvent>) -> DaemonView
    decreases events.len(),
{
    if events.len() == 0 {
        v
    } else {
        after_fs_events(v, events.drop_last()).after_fs_event(events.last())
    }
}

/// The set of paths with an icon after the paths of one change record.
pub open spec fn paths_after_changes(
    dir: Seq<char>,
    paths: Set<Seq<char>>,
    kind: FsEventKind,
    entries: Seq<FsEntry>,
) -> Set<Seq<char>> {
    match kind {
        FsEventKind::Create => paths + visible_entries(dir, entry_paths(entries)),
        FsEventKind::Remove => paths - entry_paths(entries),
        _ => paths,
    }
}

/// Adding a path and then removing it leaves neither half of the bimap
/// with the path. The surface it was given shows no icon, is gone from the
/// compositor client, and lies below every identity still to be handed out,
/// so it is never used again.
pub proof fn lemma_add_then_remove(v: DaemonView, path: String, kind: IconType)
    requires
        v.wf(),
    ensures
        ({
            let a = v.with_icon(path, kind);
            let r = a.without_icon(path@);
            &&& !has_path(r.icons, path@)
            &&& surface_of(r.icons, path@) is None
            &&& surface_of(a.icons, path@) matches Some(id) ==> {
                &&& path_of(r.icons, id) is None
                &&& r.wayland matches Some(w) && !has_surface(w.surfaces, id) && id < w.next_surface_id
            }
        }),
{
    lemma_add_icon(v, path, kind);
    lemma_remove_icon(v.with_icon(path, kind), path@);
}

/// Adding a path a second time changes nothing, so the icon count stays.
pub proof fn lemma_add_twice(v: DaemonView, path: String, kind: IconType, again: IconType)
    requires
        v.wf(),
    ensures
        v.with_icon(path, kind).with_icon(path, again) == v.with_icon(path, kind),
        v.with_icon(path, kind).with_icon(path, again).icons.len() == v.with_icon(path, kind).icons.len(),
{
    lemma_add_icon(v, path, kind);
}

/// Removing a path that has no icon changes nothing.
pub proof fn lemma_remove_unmapped(v: DaemonView, p: Seq<char>)
    requires
        !has_path(v.icons, p),
    ensures
        v.without_icon(p) == v,
{
}

/// Hidden entries never get an icon: adding one changes nothing, and a
/// well-formed engine shows none.
pub proof fn lemma_hidden_never_added(v: DaemonView, path: String, kind: IconType)
    requires
        v.wf(),
        hidden_child(v.dir, path@),
    ensures
        v.with_icon(path, kind) == v,
        !has_path(v.icons, path@),
{
    if has_path(v.icons, path@) {
        let i = choose|i: int| 0 <= i < v.icons.len() && v.icons[i].path@ == path@;
        assert(visible_child(v.dir, v.icons[i].path@));
    }
}

proof fn lemma_entry_paths_step(entries: Seq<FsEntry>)
    requires
        entries.len() > 0,
    ensures
        entry_paths(entries) == entry_paths(entries.drop_last()).insert(entries.last().path@),
{
    let init = entries.drop_last();
    assert forall|q: Seq<char>| #[trigger] entry_paths(entries).contains(q) <==> entry_paths(init).insert(
        entries.last().path@,
    ).contains(q) by {
        if entry_paths(entries).contains(q) {
            let i = choose|i: int| 0 <= i < entries.len() && entries[i].path@ == q;
            if i < init.len() {
                assert(init[i] == entries[i]);
            }
        }
        if entry_paths(init).contains(q) {
            let i = choose|i: int| 0 <= i < init.len() && init[i].path@ == q;
            assert(entries[i] == init[i]);
        }
        if q == entries.last().path@ {
            assert(entries[entries.len() - 1].path@ == q);
        }
    }
    assert(entry_paths(entries) =~= entry_paths(init).insert(entries.last().path@));
}

/// The paths of one change record, applied in order, change the set of
/// paths with an icon as the record's kind says; the engine stays
/// well-formed.
pub proof fn lemma_changes(v: DaemonView, kind: FsEventKind, entries: Seq<FsEntry>)
    requires
        v.wf(),
    ensures
        v.with_changes(kind, entries).wf(),
        v.with_changes(kind, entries).dir == v.dir,
        path_set(v.with_changes(kind, entries).icons) == paths_after_changes(v.dir, path_set(v.icons), kind, entries),
    decreases entries.len(),
{
    if entries.len() == 0 {
        assert(entry_paths(entries) =~= Set::empty());
        assert(visible_entries(v.dir, entry_paths(entries)) =~= Set::empty());
        assert(path_set(v.icons) + Set::empty() =~= path_set(v.icons));
        assert(path_set(v.icons) - Set::empty() =~= path_set(v.icons));
        return;
    }
    let init = entries.drop_last();
    let e = entries.last();
    lemma_changes(v, kind, init);
    let u = v.with_changes(kind, init);
    lemma_entry_paths_step(entries);
    let before = paths_after_changes(v.dir, path_set(v.icons), kind, init);
    match kind {
        FsEventKind::Create => {
            lemma_add_icon(u, e.path, e.kind);
            assert(visible_entries(v.dir, entry_paths(entries)) =~= if visible_child(v.dir, e.path@) {
                visible_entries(v.dir, entry_paths(init)).insert(e.path@)
            } else {
                visible_entries(v.dir, entry_paths(init))
            });
            if visible_child(v.dir, e.path@) {
                assert(before.insert(e.path@) =~= path_set(v.icons) + visible_entries(v.dir, entry_paths(entries)));
            } else {
                assert(before =~= path_set(v.icons) + visible_entries(v.dir, entry_paths(entries)));
            }
        },
        FsEventKind::Remove => {
            lemma_remove_icon(u, e.path@);
            assert(before.remove(e.path@) =~= path_set(v.icons) - entry_paths(entries));
        },
        FsEventKind::Modify => {
            if has_path(u.icons, e.path@) {
                let i = choose|i: int| 0 <= i < u.icons.len() && u.icons[i].path@ == e.path@;
                assert(visible_child(u.dir, u.icons[i].path@));
                lemma_remove_icon(u, e.path@);
                lemma_add_icon(u.without_icon(e.path@), e.path, e.kind);
                assert(path_set(u.icons).remove(e.path@).insert(e.path@) =~= path_set(u.icons));
            }
        },
        FsEventKind::Other => {},
    }
}

/// The initial scan of an engine without icons leaves exactly the visible
/// direct children among the scanned entries with an icon; hidden entries
/// get none.
pub proof fn lemma_scan_matches_directory(v: DaemonView, entries: Seq<FsEntry>)
    requires
        v.wf(),
        v.icons.len() == 0,
    ensures
        v.with_changes(FsEventKind::Create, entries).wf(),
        path_set(v.with_changes(FsEventKind::Create, entries).icons) == visible_entries(v.dir, entry_paths(entries)),
        forall|p: Seq<char>|
            hidden_child(v.dir, p) ==> !#[trigger] has_path(v.with_changes(FsEventKind::Create, entries).icons, p),
{
    lemma_changes(v, FsEventKind::Create, entries);
    assert(path_set(v.icons) =~= Set::empty());
    assert(Set::empty() + visible_entries(v.dir, entry_paths(entries)) =~= visible_entries(v.dir, entry_paths(entries)));
    let u = v.with_changes(FsEventKind::Create, entries);
    assert forall|p: Seq<char>| hidden_child(v.dir, p) implies !#[trigger] has_path(u.icons, p) by {
        if has_path(u.icons, p) {
            let i = choose|i: int| 0 <= i < u.icons.len() && u.icons[i].path@ == p;
            assert(visible_child(u.dir, u.icons[i].path@));
        }
    }
}

/// Started from an engine whose icons are exactly the visible direct
/// children of the watched directory, a sequence of change records applied
/// in order keeps it so: after each record the set of paths with an icon is
/// the set of visible direct children of the directory as the records
/// report it.
pub proof fn lemma_icons_track_directory(v: DaemonView, contents: Set<Seq<char>>, events: Seq<FsEvent>)
    requires
        v.wf(),
        path_set(v.icons) == visible_entries(v.dir, contents),
    ensures
        after_fs_events(v, events).wf(),
        after_fs_events(v, events).dir == v.dir,
        path_set(after_fs_events(v, events).icons) == visible_entries(v.dir, contents_after_all(contents, events)),
    decreases events.len(),
{
    if events.len() == 0 {
        return;
    }
    let init = events.drop_last();
    let e = events.last();
    lemma_icons_track_directory(v, contents, init);
    let u = after_fs_events(v, init);
    let c = contents_after_all(contents, init);
    lemma_changes(u, e.kind, e.entries@);
    let after = contents_after(c, e);
    match e.kind {
        FsEventKind::Create => {
            assert(visible_entries(v.dir, c) + visible_entries(v.dir, entry_paths(e.entries@)) =~= visible_entries(
                v.dir,
                after,
            ));
        },
        FsEventKind::Remove => {
            assert(visible_entries(v.dir, c) - entry_paths(e.entries@) =~= visible_entries(v.dir, after));
        },
        _ => {},
    }
}

/// The two halves of the bimap agree: a path maps to a surface exactly when
/// that surface maps back to the path. An icon without a surface appears in
/// neither.
pub proof fn lemma_bimap_consistent(v: DaemonView, p: Seq<char>, id: u64)
    requires
        v.wf(),
    ensures
        surface_of(v.icons, p) == Some(id) <==> path_of(v.icons, id) == Some(p),
{
    if surface_of(v.icons, p) == Some(id) {
        let i = path_index(v.icons, p);
        assert(v.icons[i].surface == Some(id));
        assert(has_surface_icon(v.icons, id));
        let j = surface_icon_index(v.icons, id);
        if i < j {
            assert(v.icons[i].surface != v.icons[j].surface);
        } else if j < i {
            assert(v.icons[j].surface != v.icons[i].surface);
        }
    }
    if path_of(v.icons, id) == Some(p) {
        let j = surface_icon_index(v.icons, id);
        assert(v.icons[j].path@ == p);
        assert(has_path(v.icons, p));
        let i = path_index(v.icons, p);
        if i < j {
            assert(v.icons[i].path@ != v.icons[j].path@);
        } else if j < i {
            assert(v.icons[j].path@ != v.icons[i].path@);
        }
    }
}

} // verus!
