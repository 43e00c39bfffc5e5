//! What the screens show, apart from drawing: the titles and labels of the
//! lists, the total size of the picked ROMs, and which progress bars fit on
//! the download screen.

use vstd::prelude::*;
use crate::app_state::{AppState, AppStateView, RomDownloadView};
use crate::text::string_views;
use crate::transitions::total_size_sum;
use crate::utils::{bytes_to_human_readable, human_readable};

verus! {

/// Rows of the screen that one progress bar takes.
pub const BAR_HEIGHT: u16 = 3;

/// Which downloads the download screen shows: `visible` bars from the
/// download at `scroll` on, and a scrollbar when not all of them fit.
#[derive(Clone, Copy, Debug, PartialEq, Eq, Structural)]
pub struct DownloadLayout {
    pub scroll: usize,
    pub visible: usize,
    pub show_scrollbar: bool,
}

/// The layout of the download screen for a screen of `height` rows, and the
/// scroll position clamped so that the shown bars are downloads; nothing
/// when no ROM is picked.
pub open spec fn spec_download_layout(s: AppStateView, height: u16) -> Option<DownloadLayout> {
    let n = s.selected_roms.len();
    if n == 0 {
        None
    } else {
        let fit = (height / 3) as nat;
        let visible: nat = if fit < n { fit } else { n };
        let max_scroll: nat = (n - visible) as nat;
        let scroll: nat = if s.download_scroll < max_scroll { s.download_scroll as nat } else { max_scroll };
        Some(DownloadLayout { scroll: scroll as usize, visible: visible as usize, show_scrollbar: n > visible })
    }
}

/// The label of a picked ROM in the selection list: `console/title`.
pub open spec fn selection_label(r: RomDownloadView) -> Seq<char> {
    r.console + "/"@ + r.rom_title
}

/// The sum of the sizes of the first downloads grows to the whole sum, one
/// size at a time.
pub proof fn lemma_total_size_prefix(roms: Seq<RomDownloadView>, i: int)
    requires
        0 <= i < roms.len(),
    ensures
        total_size_sum(roms.take(i + 1)) == total_size_sum(roms.take(i)) + roms[i].total_size,
        total_size_sum(roms.take(i + 1)) <= total_size_sum(roms),
    decreases roms.len(),
{
    assert(roms.take(i + 1).drop_last() =~= roms.take(i));
    if i + 1 < roms.len() {
        lemma_total_size_prefix(roms.drop_last(), i);
        assert(roms.drop_last().take(i + 1) =~= roms.take(i + 1));
    } else {
        assert(roms.take(i + 1) =~= roms);
    }
}

impl AppState {
    /// Clamps the scroll position of the download screen to a screen of
    /// `area_height` rows and says which progress bars to draw.
    pub fn download_layout(&mut self, area_height: u16) -> (layout: Option<DownloadLayout>)
        ensures
            layout == spec_download_layout(old(self)@, area_height),
            final(self)@ == (match layout {
                Some(l) => AppStateView { download_scroll: l.scroll, ..old(self)@ },
                None => old(self)@,
            }),
    {
        let num_roms_selected = self.selected_roms.len();
        if num_roms_selected == 0 {
            return None;
        }
        let fit = (area_height / BAR_HEIGHT) as usize;
        let visible = if fit < num_roms_selected { fit } else { num_roms_selected };
        let max_scroll = num_roms_selected.saturating_sub(visible);
        self.download_scroll = if self.download_scroll < max_scroll { self.download_scroll } else { max_scroll };
        Some(DownloadLayout {
            scroll: self.download_scroll,
            visible,
            show_scrollbar: num_roms_selected > visible,
        })
    }

    /// The sum of the sizes of the picked ROMs.
    pub fn selected_total_size(&self) -> (total: u64)
        requires
            total_size_sum(self@.selected_roms) <= u64::MAX,
        ensures
            total == total_size_sum(self@.selected_roms),
    {
        let ghost roms = self@.selected_roms;
        let mut total: u64 = 0;
        let mut i: usize = 0;
        assert(roms.take(0) =~= Seq::<RomDownloadView>::empty());
        while i < self.selected_roms.len()
            invariant
                i <= self.selected_roms.len(),
                roms == self@.selected_roms,
                total_size_sum(roms) <= u64::MAX,
                total == total_size_sum(roms.take(i as int)),
            decreases self.selected_roms.len() - i,
        {
            proof {
                lemma_total_size_prefix(roms, i as int);
            }
            assert(roms[i as int] == self.selected_roms@[i as int]@);
            total = total + self.selected_roms[i].total_size;
            i = i + 1;
        }
        assert(roms.take(i as int) =~= roms);
        total
    }

    /// The sum of the sizes of the picked ROMs, or `None` when it does not
    /// fit in 64 bits.
    pub fn selected_total_size_checked(&self) -> (total: Option<u64>)
        ensures
            total matches Some(t) ==> t == total_size_sum(self@.selected_roms),
            total is None ==> total_size_sum(self@.selected_roms) > u64::MAX,
    {
        let ghost roms = self@.selected_roms;
        let mut total: u64 = 0;
        let mut i: usize = 0;
        assert(roms.take(0) =~= Seq::<RomDownloadView>::empty());
        while i < self.selected_roms.len()
            invariant
                i <= self.selected_roms.len(),
                roms == self@.selected_roms,
                total == total_size_sum(roms.take(i as int)),
            decreases self.selected_roms.len() - i,
        {
            proof {
                lemma_total_size_prefix(roms, i as int);
            }
            assert(roms[i as int] == self.selected_roms@[i as int]@);
            match total.checked_add(self.selected_roms[i].total_size) {
                Some(t) => total = t,
                None => return None,
            }
            i = i + 1;
        }
        assert(roms.take(i as int) =~= roms);
        Some(total)
    }

    /// The title of the selection list: ` SELECTED ROMS (size) `.
    pub fn selected_roms_title(&self) -> (title: String)
        requires
            total_size_sum(self@.selected_roms) <= u64::MAX,
        ensures
            title@ == " SELECTED ROMS ("@ + human_readable(total_size_sum(self@.selected_roms)) + ") "@,
    {
        let total = self.selected_total_size();
        let size = bytes_to_human_readable(total);
        let mut title = " SELECTED ROMS (".to_owned();
        title.append(size.as_str());
        title.append(") ");
        title
    }

    /// The entries of the selection list, `console/title` for each picked ROM.
    pub fn selected_rom_labels(&self) -> (labels: Vec<String>)
        ensures
            string_views(labels@) == self@.selected_roms.map_values(|r: RomDownloadView| selection_label(r)),
    {
        let mut labels: Vec<String> = Vec::new();
        let mut i: usize = 0;
        while i < self.selected_roms.len()
            invariant
                i <= self.selected_roms.len(),
                labels.len() == i,
                forall|j: int| 0 <= j < i ==> (#[trigger] labels@[j])@ == selection_label(self@.selected_roms[j]),
            decreases self.selected_roms.len() - i,
        {
            let r = &self.selected_roms[i];
            assert(self@.selected_roms[i as int] == r@);
            let mut label = r.console.clone();
            label.append("/");
            label.append(r.rom_title.as_str());
            labels.push(label);
            i = i + 1;
        }
        assert(string_views(labels@) =~= self@.selected_roms.map_values(|r: RomDownloadView| selection_label(r)));
        labels
    }

    /// The console part of the title of the ROM list: ` console `, or
    /// nothing when no console is open.
    pub fn roms_block_console_title(&self) -> (title: String)
        ensures
            title@ == (if self@.current_console.len() == 0 {
                Seq::<char>::empty()
            } else {
                " "@ + self@.current_console + " "@
            }),
    {
        if self.current_console.as_str().is_empty() {
            String::new()
        } else {
            let mut title = " ".to_owned();
            title.append(self.current_console.as_str());
            title.append(" ");
            title
        }
    }
}

} // verus!
