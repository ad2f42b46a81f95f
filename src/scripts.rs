//! Where an icon's script is looked for: a dispatcher `ipc_handler.lua` and a
//! widget script named after the icon's type, searched through the script
//! directories in order, the widget script both at a directory's root and in
//! its `widgets/` subdirectory.
//!
//! Whether a candidate file exists is for the caller to find out; the choice
//! among the candidates is made here.

use vstd::prelude::*;
use crate::daemon::IconType;
use crate::paths::SLASH;
use vstd::utf8::encode_utf8;

verus! {

/// File name of the dispatcher script.
pub const HANDLER_SCRIPT: &'static str = "ipc_handler.lua";

/// Name of the subdirectory that may hold widget scripts.
pub const WIDGETS_DIR: &'static str = "widgets";

/// File name of the widget script for an icon type; unknown entries use the
/// script for plain files.
pub open spec fn widget_script(kind: IconType) -> Seq<char> {
    match kind {
        IconType::Folder => "folder.lua"@,
        IconType::File => "file.lua"@,
        IconType::Symlink => "symlink.lua"@,
        IconType::Executable => "executable.lua"@,
        IconType::Image => "image.lua"@,
        IconType::Document => "document.lua"@,
        IconType::Archive => "archive.lua"@,
        IconType::Video => "video.lua"@,
        IconType::Audio => "audio.lua"@,
        IconType::Unknown => "file.lua"@,
    }
}

/// `name` inside directory `dir`: a separator goes between them unless `dir`
/// already ends with one.
pub open spec fn join_path(dir: Seq<char>, name: Seq<char>) -> Seq<char> {
    let b = encode_utf8(dir);
    if b.len() > 0 && b.last() == SLASH {
        dir + name
    } else {
        dir + "/"@ + name
    }
}

/// The widget script name for `kind`.
pub fn widget_script_name(kind: IconType) -> (r: &'static str)
    ensures
        r@ == widget_script(kind),
{
    match kind {
        IconType::Folder => "folder.lua",
        IconType::File => "file.lua",
        IconType::Symlink => "symlink.lua",
        IconType::Executable => "executable.lua",
        IconType::Image => "image.lua",
        IconType::Document => "document.lua",
        IconType::Archive => "archive.lua",
        IconType::Video => "video.lua",
        IconType::Audio => "audio.lua",
        IconType::Unknown => "file.lua",
    }
}

/// Joins `name` onto directory `dir`.
pub fn join(dir: &String, name: &str) -> (r: String)
    ensures
        r@ == join_path(dir@, name@),
{
    let b = dir.as_str().as_bytes();
    let ends: bool = b.len() > 0 && b[b.len() - 1] == SLASH;
    let mut r = dir.clone();
    if !ends {
        r.append("/");
    }
    r.append(name);
    r
}

/// The candidate dispatcher paths: one in each script directory, in order.
pub open spec fn handler_candidates(dirs: Seq<String>) -> Seq<Seq<char>> {
    Seq::new(dirs.len(), |i: int| join_path(dirs[i]@, HANDLER_SCRIPT@))
}

/// The candidate widget script paths: for each script directory in order,
/// first at its root, then in its `widgets/` subdirectory.
pub open spec fn widget_candidates(dirs: Seq<String>, kind: IconType) -> Seq<Seq<char>> {
    Seq::new(
        2 * dirs.len(),
        |i: int|
            if i % 2 == 0 {
                join_path(dirs[i / 2]@, widget_script(kind))
            } else {
                join_path(join_path(dirs[i / 2]@, WIDGETS_DIR@), widget_script(kind))
            },
    )
}

/// The paths of a sequence of strings.
pub open spec fn views_of(s: Seq<String>) -> Seq<Seq<char>> {
    s.map_values(|x: String| x@)
}

/// Candidate script paths for one icon, in search order.
#[derive(Debug)]
pub struct ScriptCandidates {
    pub handlers: Vec<String>,
    pub widgets: Vec<String>,
}

/// `i` is the first of the first `n` candidates found to exist.
pub open spec fn is_first_found(found: Seq<bool>, n: int, i: int) -> bool {
    &&& 0 <= i < n
    &&& i < found.len()
    &&& found[i]
    &&& forall|j: int| 0 <= j < i ==> !found[j]
}

/// The first of the first `n` candidates found to exist, if any; a
/// candidate without a flag counts as missing.
pub open spec fn first_found(found: Seq<bool>, n: int) -> Option<int> {
    if exists|i: int| is_first_found(found, n, i) {
        Some(choose|i: int| is_first_found(found, n, i))
    } else {
        None
    }
}

/// Lists where the scripts of an icon of type `kind` may be.
pub fn script_candidates(script_dirs: &Vec<String>, kind: IconType) -> (c: ScriptCandidates)
    requires
        script_dirs@.len() <= usize::MAX / 2,
    ensures
        views_of(c.handlers@) == handler_candidates(script_dirs@),
        views_of(c.widgets@) == widget_candidates(script_dirs@, kind),
{
    let name = widget_script_name(kind);
    let mut handlers: Vec<String> = Vec::new();
    let mut widgets: Vec<String> = Vec::new();
    let mut i: usize = 0;
    while i < script_dirs.len()
        invariant
            i <= script_dirs@.len(),
            script_dirs@.len() <= usize::MAX / 2,
            name@ == widget_script(kind),
            views_of(handlers@) =~= handler_candidates(script_dirs@).subrange(0, i as int),
            views_of(widgets@) =~= widget_candidates(script_dirs@, kind).subrange(0, 2 * i),
        decreases script_dirs.len() - i,
    {
        let dir = &script_dirs[i];
        let ghost h0 = handlers@;
        let ghost w0 = widgets@;
        let hp = join(dir, HANDLER_SCRIPT);
        let wp = join(dir, name);
        let sub = join(dir, WIDGETS_DIR);
        let sp = join(&sub, name);
        handlers.push(hp);
        widgets.push(wp);
        widgets.push(sp);
        proof {
            assert(views_of(handlers@) =~= views_of(h0).push(hp@));
            assert(views_of(widgets@) =~= views_of(w0).push(wp@).push(sp@));
            assert((2 * i) / 2 == i as int);
            assert((2 * i + 1) / 2 == i as int);
            assert((2 * i) % 2 == 0);
            assert((2 * i + 1) % 2 == 1);
            assert(views_of(handlers@) =~= handler_candidates(script_dirs@).subrange(0, i + 1));
            assert(views_of(widgets@) =~= widget_candidates(script_dirs@, kind).subrange(0, 2 * i + 2));
        }
        i = i + 1;
    }
    ScriptCandidates { handlers, widgets }
}

fn first_found_index(found: &Vec<bool>, n: usize) -> (r: Option<usize>)
    ensures
        r matches Some(i) ==> first_found(found@, n as int) == Some(i as int),
        r is None ==> first_found(found@, n as int) is None,
{
    let mut i: usize = 0;
    while i < n && i < found.len()
        invariant
            i <= n,
            i <= found.len(),
            forall|j: int| 0 <= j < i ==> !found@[j],
        decreases n - i,
    {
        if found[i] {
            proof {
                assert(is_first_found(found@, n as int, i as int));
                let k = choose|k: int| is_first_found(found@, n as int, k);
                if k < i {
                    assert(found@[k]);
                } else if k > i {
                    assert(!found@[i as int]);
                }
            }
            return Some(i);
        }
        i = i + 1;
    }
    proof {
        if exists|k: int| is_first_found(found@, n as int, k) {
            let k = choose|k: int| is_first_found(found@, n as int, k);
            assert(found@[k]);
        }
    }
    None
}

/// Picks the scripts of an icon from its candidates, given which of them
/// exist: the first dispatcher and the first widget script found. Without
/// both there is nothing to run.
pub fn select_scripts(c: &ScriptCandidates, handler_found: &Vec<bool>, widget_found: &Vec<bool>) -> (r:
    Option<(String, String)>)
    ensures
        match (
            first_found(handler_found@, c.handlers@.len() as int),
            first_found(widget_found@, c.widgets@.len() as int),
        ) {
            (Some(h), Some(w)) => r matches Some(pair) && pair.0@ == c.handlers@[h]@ && pair.1@
                == c.widgets@[w]@,
            _ => r is None,
        },
{
    let h = match first_found_index(handler_found, c.handlers.len()) {
        Some(h) => h,
        None => {
            return None;
        },
    };
    let w = match first_found_index(widget_found, c.widgets.len()) {
        Some(w) => w,
        None => {
            return None;
        },
    };
    Some((c.handlers[h].clone(), c.widgets[w].clone()))
}

} // verus!
