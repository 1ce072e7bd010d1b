//! Small helpers on reference names, directory listings and screen areas.

use crate::text::{contains_name, texts};
use vstd::prelude::*;
use vstd::string::*;

pub mod stateful_list;

pub use stateful_list::StatefulList;

verus! {

/// A rectangle of the screen, in character cells.
#[derive(Debug, Clone, Copy, PartialEq, Eq, Structural)]
pub struct Rect {
    pub x: u16,
    pub y: u16,
    pub width: u16,
    pub height: u16,
}

/// The smaller of two lengths.
pub open spec fn shorter(a: u16, b: u16) -> u16 {
    if a <= b {
        a
    } else {
        b
    }
}

/// An area of at most `width` by `height` cells, no larger than `r`, with
/// equal margins left and right and above and below within the size of `r`.
pub fn centered_fix_rect(width: u16, height: u16, r: Rect) -> (area: Rect)
    ensures
        area.width == shorter(r.width, width),
        area.height == shorter(r.height, height),
        area.x == (r.width - area.width) / 2,
        area.y == (r.height - area.height) / 2,
{
    let width: u16 = if r.width <= width {
        r.width
    } else {
        width
    };
    let height: u16 = if r.height <= height {
        r.height
    } else {
        height
    };
    Rect { x: (r.width - width) / 2, y: (r.height - height) / 2, width, height }
}

/// The three parts, in percent, into which a length is cut to leave `percent`
/// of it in the middle with equal margins before and after.
pub fn centered_margins(percent: u16) -> (parts: (u16, u16, u16))
    requires
        percent <= 100,
    ensures
        parts == (((100 - percent) / 2) as u16, percent, ((100 - percent) / 2) as u16),
{
    let margin: u16 = (100 - percent) / 2;
    (margin, percent, margin)
}

/// The full reference name of the local branch `name`.
pub fn to_refs(name: &str) -> (full: String)
    ensures
        full@ == "refs/heads/"@ + name@,
{
    String::from_str("refs/heads/").concat(name)
}

/// The name of the entry that marks the root of a working tree.
pub open spec fn git_entry() -> Seq<char> {
    ".git"@
}

/// The directory listing `entries` holds the entry that marks a root.
pub open spec fn is_git_root(entries: Seq<String>) -> bool {
    texts(entries).contains(git_entry())
}

/// Finds the root of the working tree that a directory lies in. `listings`
/// holds the names of the entries of the directory itself, then of its
/// parent, and so on upwards. The result is the position of the nearest
/// directory that holds an entry named `.git`, if there is one.
pub fn find_git_root_dir(listings: &Vec<Vec<String>>) -> (root: Option<usize>)
    ensures
        match root {
            Some(found) => found < listings@.len() && is_git_root(listings@[found as int]@)
                && forall|k: int| 0 <= k < found ==> !is_git_root(#[trigger] listings@[k]@),
            None => forall|k: int| 0 <= k < listings@.len() ==> !is_git_root(#[trigger] listings@[k]@),
        },
{
    let mut i: usize = 0;
    while i < listings.len()
        invariant
            i <= listings@.len(),
            forall|k: int| 0 <= k < i ==> !is_git_root(#[trigger] listings@[k]@),
        decreases listings@.len() - i,
    {
        if contains_name(&listings[i], ".git") {
            return Some(i);
        }
        i += 1;
    }
    None
}

} // verus!
