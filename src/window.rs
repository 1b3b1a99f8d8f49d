//! The window directory: entries as the operating system reports them, the
//! selectable windows offered to the user, and lookup by identifier.
use vstd::prelude::*;
use crate::decimal::{decimal, decimal_string};

verus! {

/// One entry of the operating system's window list. Each attribute is read
/// separately and may have failed, with the reason as a message.
pub struct RawWindow {
    pub id: Result<u32, String>,
    pub title: Result<String, String>,
    pub app_name: Result<String, String>,
}

/// A window the user can pick as a capture target.
pub struct WindowInfo {
    pub id: String,
    pub title: String,
    pub app_name: String,
}

/// What a `WindowInfo` holds: identifier, title and application name.
pub struct WindowView {
    pub id: Seq<char>,
    pub title: Seq<char>,
    pub app_name: Seq<char>,
}

impl View for WindowInfo {
    type V = WindowView;

    open spec fn view(&self) -> WindowView {
        WindowView { id: self.id@, title: self.title@, app_name: self.app_name@ }
    }
}

/// The identifier of a window in its string form.
pub open spec fn id_text(id: u32) -> Seq<char> {
    decimal(id as nat)
}

/// Whether the entry's identifier could be read and reads as `target`.
pub open spec fn id_matches(w: RawWindow, target: Seq<char>) -> bool {
    match w.id {
        Ok(id) => id_text(id) == target,
        Err(_) => false,
    }
}

/// An entry is offered to the user when all its attributes could be read and
/// its title is not empty.
pub open spec fn selectable(w: RawWindow) -> bool {
    match (w.id, w.title, w.app_name) {
        (Ok(_), Ok(title), Ok(_)) => title@.len() > 0,
        _ => false,
    }
}

/// The description of a selectable entry.
pub open spec fn describe(w: RawWindow) -> WindowView
    recommends
        selectable(w),
{
    WindowView {
        id: id_text(w.id->Ok_0),
        title: w.title->Ok_0@,
        app_name: w.app_name->Ok_0@,
    }
}

/// The selectable entries of a listing, described, in listing order.
pub open spec fn listed(ws: Seq<RawWindow>) -> Seq<WindowView>
    decreases ws.len(),
{
    if ws.len() == 0 {
        Seq::empty()
    } else {
        let rest = listed(ws.drop_last());
        if selectable(ws.last()) {
            rest.push(describe(ws.last()))
        } else {
            rest
        }
    }
}

/// The windows of a listing that the user can pick, in listing order.
pub fn window_infos(ws: &Vec<RawWindow>) -> (r: Vec<WindowInfo>)
    ensures
        r@.map_values(|i: WindowInfo| i@) == listed(ws@),
{
    let mut out: Vec<WindowInfo> = Vec::new();
    let mut i: usize = 0;
    while i < ws.len()
        invariant
            i <= ws.len(),
            out@.map_values(|v: WindowInfo| v@) == listed(ws@.subrange(0, i as int)),
        decreases ws.len() - i,
    {
        let w = &ws[i];
        proof {
            assert(ws@.subrange(0, i + 1).drop_last() == ws@.subrange(0, i as int));
            assert(ws@.subrange(0, i + 1).last() == ws@[i as int]);
        }
        match (&w.id, &w.title, &w.app_name) {
            (Ok(id), Ok(title), Ok(app_name)) => {
                if !title.as_str().is_empty() {
                    let info = WindowInfo {
                        id: decimal_string(*id as u128),
                        title: title.clone(),
                        app_name: app_name.clone(),
                    };
                    out.push(info);
                    proof {
                        assert(out@.map_values(|v: WindowInfo| v@) =~= listed(
                            ws@.subrange(0, i + 1),
                        ));
                    }
                }
            },
            _ => {},
        }
        i = i + 1;
    }
    proof {
        assert(ws@.subrange(0, ws@.len() as int) == ws@);
    }
    out
}

/// The position of the first entry whose identifier reads as `target`.
pub fn find_window(ws: &Vec<RawWindow>, target: &String) -> (r: Option<usize>)
    ensures
        match r {
            Some(i) => i < ws@.len() && id_matches(ws@[i as int], target@) && forall|j: int|
                0 <= j < i ==> !id_matches(#[trigger] ws@[j], target@),
            None => forall|j: int| 0 <= j < ws@.len() ==> !id_matches(#[trigger] ws@[j], target@),
        },
{
    let mut i: usize = 0;
    while i < ws.len()
        invariant
            i <= ws.len(),
            forall|j: int| 0 <= j < i ==> !id_matches(#[trigger] ws@[j], target@),
        decreases ws.len() - i,
    {
        match &ws[i].id {
            Ok(id) => {
                let text = decimal_string(*id as u128);
                if text.eq(target) {
                    return Some(i);
                }
            },
            Err(_) => {},
        }
        i = i + 1;
    }
    None
}

} // verus!
