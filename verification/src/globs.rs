//! What becomes of the entries a glob expands to.

use crate::notice::{Notice, NoticeView};
use vstd::prelude::*;

verus! {

/// One entry of an expanded glob.
#[derive(Debug, PartialEq, Eq)]
pub enum GlobEntry {
    /// A path that matches.
    Found(String),
    /// A place that could not be read, with the reason.
    Unreadable(String),
}

/// The mathematical content of a [`GlobEntry`].
pub enum GlobEntryView {
    Found(Seq<char>),
    Unreadable(Seq<char>),
}

impl View for GlobEntry {
    type V = GlobEntryView;

    open spec fn view(&self) -> GlobEntryView {
        match self {
            GlobEntry::Found(path) => GlobEntryView::Found(path@),
            GlobEntry::Unreadable(reason) => GlobEntryView::Unreadable(reason@),
        }
    }
}

impl DeepView for GlobEntry {
    type V = GlobEntryView;

    open spec fn deep_view(&self) -> GlobEntryView {
        self@
    }
}

/// The paths among the entries, in their order.
pub open spec fn found_paths(entries: Seq<GlobEntryView>) -> Seq<Seq<char>>
    decreases entries.len(),
{
    if entries.len() == 0 {
        Seq::empty()
    } else {
        match entries.last() {
            GlobEntryView::Found(path) => found_paths(entries.drop_last()).push(path),
            GlobEntryView::Unreadable(_) => found_paths(entries.drop_last()),
        }
    }
}

/// One warning for each entry that could not be read, in their order.
pub open spec fn entry_warnings(pattern: Seq<char>, entries: Seq<GlobEntryView>) -> Seq<
    NoticeView,
>
    decreases entries.len(),
{
    if entries.len() == 0 {
        Seq::empty()
    } else {
        match entries.last() {
            GlobEntryView::Found(_) => entry_warnings(pattern, entries.drop_last()),
            GlobEntryView::Unreadable(reason) => entry_warnings(pattern, entries.drop_last()).push(
                NoticeView::UnreadableEntry(pattern, reason),
            ),
        }
    }
}

/// Sorts the entries of one expanded glob: the paths are added to the paths
/// to watch, and each entry that could not be read becomes a warning that
/// names the glob. An unreadable entry never ends the run.
pub fn gather_paths(pattern: &str, entries: &Vec<GlobEntry>, paths: &mut Vec<String>) -> (notices:
    Vec<Notice>)
    ensures
        final(paths).deep_view() == old(paths).deep_view() + found_paths(entries.deep_view()),
        notices.deep_view() == entry_warnings(pattern@, entries.deep_view()),
{
    let mut notices: Vec<Notice> = Vec::new();
    let mut i: usize = 0;
    while i < entries.len()
        invariant
            i <= entries.len(),
            paths.deep_view() == old(paths).deep_view() + found_paths(
                entries.deep_view().take(i as int),
            ),
            notices.deep_view() == entry_warnings(pattern@, entries.deep_view().take(i as int)),
        decreases entries.len() - i,
    {
        let ghost seen = entries.deep_view().take(i as int);
        let ghost more = entries.deep_view().take(i + 1);
        let ghost paths_before = paths.deep_view();
        proof {
            assert(more.drop_last() =~= seen);
        }
        match &entries[i] {
            GlobEntry::Found(path) => {
                paths.push(path.clone());
                assert(paths.deep_view() =~= paths_before.push(path@));
            },
            GlobEntry::Unreadable(reason) => {
                let notice = Notice::UnreadableEntry(String::from_str(pattern), reason.clone());
                notices.push(notice);
            },
        }
        i += 1;
    }
    proof {
        assert(entries.deep_view().take(i as int) =~= entries.deep_view());
    }
    notices
}

} // verus!
