//! Finding the player's window among the windows inside the shell's.

use crate::text::{ascii_lowered, has_prefix, same_text, starts_with, to_ascii_lower};
use vstd::prelude::*;

verus! {

/// A window inside another: its handle and the name of its class.
#[derive(Debug)]
pub struct ChildWindow {
    pub handle: usize,
    pub class: String,
}

/// The class is one of the web interface's.
pub open spec fn of_web_interface(class: Seq<char>) -> bool {
    has_prefix(class, "Chrome_"@) || class == "Intermediate D3D Window"@
}

pub fn is_webview_class(class: &str) -> (yes: bool)
    ensures
        yes == of_web_interface(class@),
{
    starts_with(class, "Chrome_") || same_text(class, "Intermediate D3D Window")
}

/// The class is the player's, in whatever case.
pub open spec fn of_player(class: Seq<char>) -> bool {
    ascii_lowered(class) == "mpv"@
}

fn is_player_class(class: &str) -> (yes: bool)
    ensures
        yes == of_player(class@),
{
    same_text(to_ascii_lower(class).as_str(), "mpv")
}

/// The first window of the player's class.
pub open spec fn player_window(children: Seq<ChildWindow>) -> Option<usize>
    decreases children.len(),
{
    if children.len() == 0 {
        None
    } else if of_player(children[0].class@) {
        Some(children[0].handle)
    } else {
        player_window(children.drop_first())
    }
}

/// The first window that is not the web interface's.
pub open spec fn other_window(children: Seq<ChildWindow>) -> Option<usize>
    decreases children.len(),
{
    if children.len() == 0 {
        None
    } else if !of_web_interface(children[0].class@) {
        Some(children[0].handle)
    } else {
        other_window(children.drop_first())
    }
}

/// The player's window, by its class.
pub fn find_exact_mpv_child_hwnd(children: &Vec<ChildWindow>) -> (found: Option<usize>)
    ensures
        found == player_window(children@),
{
    let ghost all = children@;
    assert(all.skip(0) =~= all);
    for i in 0..children.len()
        invariant
            children@ == all,
            player_window(all) == player_window(all.skip(i as int)),
    {
        assert(all.skip(i as int).drop_first() =~= all.skip(i + 1));
        if is_player_class(children[i].class.as_str()) {
            return Some(children[i].handle);
        }
    }
    assert(all.skip(all.len() as int) =~= Seq::empty());
    None
}

/// The player's window: by its class, or else the first that is not the web
/// interface's.
pub fn find_mpv_child_hwnd(children: &Vec<ChildWindow>) -> (found: Option<usize>)
    ensures
        found == if player_window(children@) is Some {
            player_window(children@)
        } else {
            other_window(children@)
        },
{
    let exact = find_exact_mpv_child_hwnd(children);
    if exact.is_some() {
        return exact;
    }
    let ghost all = children@;
    assert(all.skip(0) =~= all);
    for i in 0..children.len()
        invariant
            children@ == all,
            player_window(all) is None,
            other_window(all) == other_window(all.skip(i as int)),
    {
        assert(all.skip(i as int).drop_first() =~= all.skip(i + 1));
        if !is_webview_class(children[i].class.as_str()) {
            return Some(children[i].handle);
        }
    }
    assert(all.skip(all.len() as int) =~= Seq::empty());
    None
}

/// A window of the player's class is found wherever it stands, whatever stands
/// before it.
pub proof fn player_class_is_preferred(children: Seq<ChildWindow>, i: int)
    requires
        0 <= i < children.len(),
        of_player(children[i].class@),
    ensures
        player_window(children) is Some,
    decreases children.len(),
{
    if !of_player(children[0].class@) {
        assert(children.drop_first()[i - 1] == children[i]);
        player_class_is_preferred(children.drop_first(), i - 1);
    }
}

} // verus!
