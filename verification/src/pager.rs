//! The mods tab's state: the live view, the kind index it is on, and the
//! pagination/selection cursor, with one operation per navigation key.
use vstd::prelude::*;
use vstd::math::{max, min};

use crate::entry::DiscoveryError;
use crate::views::{
    ModView, ScanData, is_empty_mods, is_empty_packages, is_empty_plugins, reload_post, scan_fits,
};

verus! {

/// Cells along one edge of the display grid.
pub const MOD_DISPLAY_SIZE: usize = 5;

/// Cells on one page of the grid: the page capacity, and the page stride.
pub const PAGE_CAPACITY: usize = 25;

/// How many view kinds there are; kind indices cycle below this.
pub const VIEW_KIND_COUNT: usize = 4;

/// The mods tab: the live view, the kind index it shows, and the
/// pagination/selection cursor.
pub struct Mods {
    pub mod_view: ModView,
    pub page_offset: usize,
    pub selected_mod: usize,
    pub selected_view: usize,
}

/// The navigation keys the tab reacts to, already decoded from raw input.
pub enum NavKey {
    Reload,
    NextPage,
    PrevPage,
    MoveLeft,
    MoveRight,
    MoveDown,
    MoveUp,
    SwitchView,
}

/// What a `switch` to `target` leaves live: a fresh empty collection of the
/// requested kind, the mods kind when the index is out of range.
pub open spec fn switch_post(target: int, v: ModView) -> bool {
    &&& (target == 0 || target >= VIEW_KIND_COUNT) ==> is_empty_mods(v)
    &&& target == 1 ==> is_empty_plugins(v)
    &&& target == 2 ==> is_empty_packages(v)
    &&& target == 3 ==> v is CTA
}

/// The view and the kind index are untouched.
pub open spec fn same_view(pre: Mods, post: Mods) -> bool {
    post.mod_view == pre.mod_view && post.selected_view == pre.selected_view
}

pub open spec fn page_forward_post(pre: Mods, post: Mods) -> bool {
    &&& same_view(pre, post)
    &&& post.selected_mod == pre.selected_mod
    &&& pre.mod_view.spec_len() == 0 ==> post.page_offset == pre.page_offset
    &&& pre.mod_view.spec_len() > 0 ==> post.page_offset as int == min(
        pre.page_offset + PAGE_CAPACITY,
        ((pre.mod_view.spec_len() - 1) / (PAGE_CAPACITY as int)) * (PAGE_CAPACITY as int),
    )
}

pub open spec fn page_back_post(pre: Mods, post: Mods) -> bool {
    &&& same_view(pre, post)
    &&& post.selected_mod == pre.selected_mod
    &&& post.page_offset as int == max(pre.page_offset - PAGE_CAPACITY, 0)
}

pub open spec fn move_left_post(pre: Mods, post: Mods) -> bool {
    &&& same_view(pre, post)
    &&& post.page_offset == pre.page_offset
    &&& post.selected_mod as int == max(pre.page_offset as int, pre.selected_mod - 1)
}

pub open spec fn move_up_post(pre: Mods, post: Mods) -> bool {
    &&& same_view(pre, post)
    &&& post.page_offset == pre.page_offset
    &&& post.selected_mod as int == max(
        pre.page_offset as int,
        pre.selected_mod - MOD_DISPLAY_SIZE,
    )
}

pub open spec fn move_right_post(pre: Mods, post: Mods) -> bool {
    &&& same_view(pre, post)
    &&& post.page_offset == pre.page_offset
    &&& post.selected_mod as int == min(
        min(pre.selected_mod + 1, pre.page_offset + PAGE_CAPACITY - 1),
        usize::MAX as int,
    )
}

pub open spec fn move_down_post(pre: Mods, post: Mods) -> bool {
    &&& same_view(pre, post)
    &&& post.page_offset == pre.page_offset
    &&& post.selected_mod as int == min(
        min(pre.selected_mod + MOD_DISPLAY_SIZE, pre.page_offset + PAGE_CAPACITY - 1),
        usize::MAX as int,
    )
}

pub open spec fn switch_to_post(pre: Mods, target: int, post: Mods) -> bool {
    &&& post.selected_view == target
    &&& post.page_offset == 0
    &&& post.selected_mod == 0
    &&& switch_post(target, post.mod_view)
}

impl Default for Mods {
    /// A fresh tab: empty mods view, cursor at the origin, kind index zero.
    fn default() -> (r: Self)
        ensures
            is_empty_mods(r.mod_view),
            r.page_offset == 0,
            r.selected_mod == 0,
            r.selected_view == 0,
    {
        Mods {
            mod_view: ModView::Mods(Vec::new()),
            page_offset: 0,
            selected_mod: 0,
            selected_view: 0,
        }
    }
}

impl Mods {
    /// Advance one page, but never past the start of the last page that
    /// still holds an entry; a no-op on an empty collection.
    pub fn page_forward(&mut self)
        ensures
            page_forward_post(*old(self), *final(self)),
    {
        let count = self.mod_view.len();
        if count == 0 {
            return ;
        }
        let last_start = ((count - 1) / PAGE_CAPACITY) * PAGE_CAPACITY;
        let stepped = self.page_offset.saturating_add(PAGE_CAPACITY);
        self.page_offset = if stepped < last_start {
            stepped
        } else {
            last_start
        };
    }

    /// Go back one page, stopping at the first.
    pub fn page_back(&mut self)
        ensures
            page_back_post(*old(self), *final(self)),
    {
        self.page_offset = self.page_offset.saturating_sub(PAGE_CAPACITY);
    }

    /// Move the selection one cell back; it cannot leave the current page.
    pub fn move_left(&mut self)
        ensures
            move_left_post(*old(self), *final(self)),
    {
        let s = self.selected_mod.saturating_sub(1);
        self.selected_mod = if s < self.page_offset {
            self.page_offset
        } else {
            s
        };
    }

    /// Move the selection one row back; it cannot leave the current page.
    pub fn move_up(&mut self)
        ensures
            move_up_post(*old(self), *final(self)),
    {
        let s = self.selected_mod.saturating_sub(MOD_DISPLAY_SIZE);
        self.selected_mod = if s < self.page_offset {
            self.page_offset
        } else {
            s
        };
    }

    /// Move the selection one cell forward; it cannot leave the current
    /// page, whatever the live collection's length.
    pub fn move_right(&mut self)
        ensures
            move_right_post(*old(self), *final(self)),
    {
        let cap = self.page_offset.saturating_add(PAGE_CAPACITY - 1);
        let stepped = self.selected_mod.saturating_add(1);
        self.selected_mod = if cap < stepped {
            cap
        } else {
            stepped
        };
    }

    /// Move the selection one row forward; it cannot leave the current page,
    /// whatever the live collection's length.
    pub fn move_down(&mut self)
        ensures
            move_down_post(*old(self), *final(self)),
    {
        let cap = self.page_offset.saturating_add(PAGE_CAPACITY - 1);
        let stepped = self.selected_mod.saturating_add(MOD_DISPLAY_SIZE);
        self.selected_mod = if cap < stepped {
            cap
        } else {
            stepped
        };
    }

    /// Switch to the kind at `target`: reset the cursor to the origin and
    /// make a fresh empty collection live. Never fails; an out-of-range
    /// index falls back to the mods kind. The caller reloads afterwards.
    pub fn switch_to(&mut self, target: usize)
        ensures
            switch_to_post(*old(self), target as int, *final(self)),
    {
        self.selected_view = target;
        self.page_offset = 0;
        self.selected_mod = 0;
        self.mod_view.switch(target);
    }

    /// Cycle to the next kind, wrapping after the last, and switch to it.
    pub fn next_view(&mut self)
        ensures
            switch_to_post(
                *old(self),
                if old(self).selected_view == VIEW_KIND_COUNT - 1 {
                    0
                } else {
                    min(old(self).selected_view + 1, usize::MAX as int)
                },
                *final(self),
            ),
    {
        let next = if self.selected_view == VIEW_KIND_COUNT - 1 {
            0
        } else {
            self.selected_view.saturating_add(1)
        };
        self.switch_to(next);
    }

    /// Replace the live collection from the given scan; the cursor and the
    /// kind index are untouched (a reload never resets them).
    pub fn reload(&mut self, data: ScanData) -> (r: Result<(), DiscoveryError>)
        requires
            scan_fits(old(self).mod_view, data),
        ensures
            reload_post(old(self).mod_view, data, final(self).mod_view, r),
            final(self).page_offset == old(self).page_offset,
            final(self).selected_mod == old(self).selected_mod,
            final(self).selected_view == old(self).selected_view,
    {
        self.mod_view.reload(data)
    }

    /// One key's worth of the update step: mutate the cursor or switch
    /// kinds, and say whether the caller must now scan the live kind's root
    /// and call `reload`. Keys are ignored while a text input has focus.
    pub fn handle_key(&mut self, key: NavKey, is_typing: bool) -> (needs_reload: bool)
        ensures
            is_typing ==> *final(self) == *old(self) && !needs_reload,
            !is_typing ==> match key {
                NavKey::Reload => *final(self) == *old(self) && needs_reload,
                NavKey::NextPage => page_forward_post(*old(self), *final(self)) && !needs_reload,
                NavKey::PrevPage => page_back_post(*old(self), *final(self)) && !needs_reload,
                NavKey::MoveLeft => move_left_post(*old(self), *final(self)) && !needs_reload,
                NavKey::MoveRight => move_right_post(*old(self), *final(self)) && !needs_reload,
                NavKey::MoveDown => move_down_post(*old(self), *final(self)) && !needs_reload,
                NavKey::MoveUp => move_up_post(*old(self), *final(self)) && !needs_reload,
                NavKey::SwitchView => switch_to_post(
                    *old(self),
                    if old(self).selected_view == VIEW_KIND_COUNT - 1 {
                        0
                    } else {
                        min(old(self).selected_view + 1, usize::MAX as int)
                    },
                    *final(self),
                ) && needs_reload,
            },
    {
        if is_typing {
            return false;
        }
        match key {
            NavKey::Reload => true,
            NavKey::NextPage => {
                self.page_forward();
                false
            },
            NavKey::PrevPage => {
                self.page_back();
                false
            },
            NavKey::MoveLeft => {
                self.move_left();
                false
            },
            NavKey::MoveRight => {
                self.move_right();
                false
            },
            NavKey::MoveDown => {
                self.move_down();
                false
            },
            NavKey::MoveUp => {
                self.move_up();
                false
            },
            NavKey::SwitchView => {
                self.next_view();
                true
            },
        }
    }
}

/// Law: paging forward never passes the start of the last page that still
/// holds an entry, and from that boundary a further page-forward changes
/// nothing.
pub proof fn lemma_page_forward_bounded(pre: Mods, post: Mods)
    requires
        page_forward_post(pre, post),
        pre.mod_view.spec_len() > 0,
    ensures
        post.page_offset <= ((pre.mod_view.spec_len() - 1) / (PAGE_CAPACITY as int)) * (
        PAGE_CAPACITY as int),
        pre.page_offset == ((pre.mod_view.spec_len() - 1) / (PAGE_CAPACITY as int)) * (
        PAGE_CAPACITY as int) ==> post.page_offset == pre.page_offset,
{
}

/// Law: at the last cell of the page — the only cell that lies in both the
/// last column and the last row — moving right or down changes nothing.
/// (From any other cell of the last column or last row the clamp slides the
/// selection toward that corner instead.)
pub proof fn lemma_moves_stop_at_page_corner(pre: Mods, post_r: Mods, post_d: Mods)
    requires
        pre.selected_mod == pre.page_offset + PAGE_CAPACITY - 1,
        move_right_post(pre, post_r),
        move_down_post(pre, post_d),
    ensures
        post_r == pre,
        post_d == pre,
{
}

/// Law: a switch resets the cursor to the origin and empties the live
/// collection, whatever kind was live before — also when the previous kind
/// equals the target.
pub proof fn lemma_switch_resets(pre: Mods, target: int, post: Mods)
    requires
        switch_to_post(pre, target, post),
    ensures
        post.page_offset == 0,
        post.selected_mod == 0,
        0 <= target < 3 ==> post.mod_view.spec_len() == 0,
        target >= VIEW_KIND_COUNT ==> is_empty_mods(post.mod_view),
{
}

} // verus!

