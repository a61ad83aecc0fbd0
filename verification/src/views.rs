//! The tagged view over the loaded collections: exactly one kind (mods,
//! plugins, packages, or the call-to-action placeholder) is live at a time,
//! and all queries, filtering, reloading and switching go through it.
use vstd::prelude::*;

use crate::entry::{
    DiscoveryError, InstalledModPartial, InstalledModV, InstalledPlugins, ModDirScan, ModDirScanV,
    extract_mod_info, parse_entry_spec,
};
use crate::text::{contains_keyword, dec_string, dll_file_name, has_substring, is_dll_name,
    priority_to_string};

verus! {

/// The live view state: a tagged union over the four kinds, each variant
/// owning its backing collection.
pub enum ModView {
    Mods(Vec<InstalledModPartial>),
    Plugins(Vec<InstalledPlugins>),
    Packages(Vec<()>),
    CTA,
}

/// What the scanner hands to `reload`: the raw scan of the live kind's root,
/// or the root-level failure; `Nothing` for the kinds that touch no files.
pub enum ScanData {
    Mods(Result<Vec<ModDirScan>, DiscoveryError>),
    Plugins(Result<Vec<String>, DiscoveryError>),
    Nothing,
}

/// One grid cell's descriptive text, in plain parts; the presentation layer
/// styles and stacks them.
pub enum CellText {
    ModCell { version: String, priority: String, description: String },
    PluginCell { name: String },
}

pub open spec fn mods_views(v: Seq<InstalledModPartial>) -> Seq<InstalledModV> {
    v.map_values(|e: InstalledModPartial| e@)
}

pub open spec fn plugin_views(v: Seq<InstalledPlugins>) -> Seq<Seq<char>> {
    v.map_values(|p: InstalledPlugins| p@)
}

pub open spec fn string_views(v: Seq<String>) -> Seq<Seq<char>> {
    v.map_values(|s: String| s@)
}

pub open spec fn scan_views(v: Seq<ModDirScan>) -> Seq<ModDirScanV> {
    v.map_values(|d: ModDirScan| d@)
}

/// The entries a scan of the mods root yields: each directory's parse result,
/// in scan order, with the failures silently dropped.
pub open spec fn mod_entries_of(ds: Seq<ModDirScanV>) -> Seq<InstalledModV>
    decreases ds.len(),
{
    if ds.len() == 0 {
        Seq::empty()
    } else {
        let prefix = mod_entries_of(ds.drop_last());
        match parse_entry_spec(ds.last()) {
            Option::Some(e) => prefix.push(e),
            Option::None => prefix,
        }
    }
}

pub open spec fn is_dll_pred() -> spec_fn(Seq<char>) -> bool {
    |n: Seq<char>| is_dll_name(n)
}

/// The plugin names a scan of the plugins root yields: the file names whose
/// extension marks a loadable binary, in scan order.
pub open spec fn plugin_names_of(names: Seq<Seq<char>>) -> Seq<Seq<char>> {
    names.filter(is_dll_pred())
}

pub open spec fn mod_name_has(k: Seq<char>) -> spec_fn(InstalledModPartial) -> bool {
    |e: InstalledModPartial| has_substring(e.mod_json.name@, k)
}

pub open spec fn plugin_name_has(k: Seq<char>) -> spec_fn(InstalledPlugins) -> bool {
    |p: InstalledPlugins| has_substring(p.name@, k)
}

proof fn lemma_filter_push<A>(s: Seq<A>, pred: spec_fn(A) -> bool, x: A)
    ensures
        s.push(x).filter(pred) == if pred(x) {
            s.filter(pred).push(x)
        } else {
            s.filter(pred)
        },
{
    reveal(Seq::filter);
    assert(s.push(x).drop_last() =~= s);
    assert(s.push(x).last() == x);
}

/// Build the mods collection from a scan of the mods root: parse each
/// directory, keeping scan order and silently dropping the directories whose
/// required metadata does not parse.
pub fn reload_mods(dirs: Vec<ModDirScan>) -> (r: Vec<InstalledModPartial>)
    ensures
        mods_views(r@) == mod_entries_of(scan_views(dirs@)),
{
    let ghost all: Seq<ModDirScanV> = scan_views(dirs@);
    let mut rest = dirs;
    let mut out: Vec<InstalledModPartial> = Vec::new();
    while rest.len() > 0
        invariant
            rest@.len() <= all.len(),
            forall|t: int|
                0 <= t < rest@.len() ==> #[trigger] rest@[t]@ == all[all.len() - rest@.len() + t],
            mods_views(out@) == mod_entries_of(all.take(all.len() - rest@.len())),
        decreases rest@.len(),
    {
        let ghost j = all.len() - rest@.len();
        let ghost prev_rest = rest@;
        let ghost prev_out = out@;
        let d = rest.remove(0);
        proof {
            assert(d@ == all[j]);
            assert forall|t: int| 0 <= t < rest@.len() implies #[trigger] rest@[t]@ == all[all.len()
                - rest@.len() + t] by {
                assert(rest@[t] == prev_rest[t + 1]);
            }
            assert(all.take(j + 1).drop_last() =~= all.take(j));
            assert(all.take(j + 1).last() == all[j]);
        }
        match extract_mod_info(d) {
            Result::Ok(e) => {
                out.push(e);
                proof {
                    assert(mods_views(out@) =~= mods_views(prev_out).push(e@));
                    assert(mods_views(out@) =~= mod_entries_of(all.take(j + 1)));
                }
            },
            Result::Err(_) => {
                proof {
                    assert(mod_entries_of(all.take(j + 1)) == mod_entries_of(all.take(j)));
                }
            },
        }
    }
    proof {
        assert(all.take(all.len() as int) =~= all);
    }
    out
}

/// Build the plugins collection from the file names found under the plugins
/// root: keep exactly the loadable binaries, in scan order.
pub fn reload_plugins(files: Vec<String>) -> (r: Vec<InstalledPlugins>)
    ensures
        plugin_views(r@) == plugin_names_of(string_views(files@)),
{
    let ghost all: Seq<Seq<char>> = string_views(files@);
    let mut rest = files;
    let mut out: Vec<InstalledPlugins> = Vec::new();
    while rest.len() > 0
        invariant
            rest@.len() <= all.len(),
            forall|t: int|
                0 <= t < rest@.len() ==> #[trigger] rest@[t]@ == all[all.len() - rest@.len() + t],
            plugin_views(out@) == plugin_names_of(all.take(all.len() - rest@.len())),
        decreases rest@.len(),
    {
        let ghost j = all.len() - rest@.len();
        let ghost prev_rest = rest@;
        let ghost prev_out = out@;
        let name = rest.remove(0);
        proof {
            assert(name@ == all[j]);
            assert forall|t: int| 0 <= t < rest@.len() implies #[trigger] rest@[t]@ == all[all.len()
                - rest@.len() + t] by {
                assert(rest@[t] == prev_rest[t + 1]);
            }
            assert(all.take(j + 1) =~= all.take(j).push(all[j]));
            lemma_filter_push(all.take(j), is_dll_pred(), all[j]);
        }
        if dll_file_name(name.as_str()) {
            out.push(InstalledPlugins { name });
            proof {
                assert(plugin_views(out@) =~= plugin_views(prev_out).push(all[j]));
            }
        }
    }
    proof {
        assert(all.take(all.len() as int) =~= all);
    }
    out
}

fn filter_mods(mods: Vec<InstalledModPartial>, keyword: &str) -> (r: Vec<InstalledModPartial>)
    ensures
        r@ == mods@.filter(mod_name_has(keyword@)),
{
    let ghost orig = mods@;
    let mut rest = mods;
    let mut kept: Vec<InstalledModPartial> = Vec::new();
    while rest.len() > 0
        invariant
            rest@.len() <= orig.len(),
            forall|t: int|
                0 <= t < rest@.len() ==> #[trigger] rest@[t] == orig[orig.len() - rest@.len() + t],
            kept@ == orig.take(orig.len() - rest@.len()).filter(mod_name_has(keyword@)),
        decreases rest@.len(),
    {
        let ghost j = orig.len() - rest@.len();
        let ghost prev_rest = rest@;
        let e = rest.remove(0);
        proof {
            assert(e == orig[j]);
            assert forall|t: int| 0 <= t < rest@.len() implies #[trigger] rest@[t] == orig[orig.len()
                - rest@.len() + t] by {
                assert(rest@[t] == prev_rest[t + 1]);
            }
            assert(orig.take(j + 1) =~= orig.take(j).push(orig[j]));
            lemma_filter_push(orig.take(j), mod_name_has(keyword@), orig[j]);
        }
        if contains_keyword(e.mod_json.name.as_str(), keyword) {
            kept.push(e);
        }
    }
    proof {
        assert(orig.take(orig.len() as int) =~= orig);
    }
    kept
}

fn filter_plugins(plugins: Vec<InstalledPlugins>, keyword: &str) -> (r: Vec<InstalledPlugins>)
    ensures
        r@ == plugins@.filter(plugin_name_has(keyword@)),
{
    let ghost orig = plugins@;
    let mut rest = plugins;
    let mut kept: Vec<InstalledPlugins> = Vec::new();
    while rest.len() > 0
        invariant
            rest@.len() <= orig.len(),
            forall|t: int|
                0 <= t < rest@.len() ==> #[trigger] rest@[t] == orig[orig.len() - rest@.len() + t],
            kept@ == orig.take(orig.len() - rest@.len()).filter(plugin_name_has(keyword@)),
        decreases rest@.len(),
    {
        let ghost j = orig.len() - rest@.len();
        let ghost prev_rest = rest@;
        let p = rest.remove(0);
        proof {
            assert(p == orig[j]);
            assert forall|t: int| 0 <= t < rest@.len() implies #[trigger] rest@[t] == orig[orig.len()
                - rest@.len() + t] by {
                assert(rest@[t] == prev_rest[t + 1]);
            }
            assert(orig.take(j + 1) =~= orig.take(j).push(orig[j]));
            lemma_filter_push(orig.take(j), plugin_name_has(keyword@), orig[j]);
        }
        if contains_keyword(p.name.as_str(), keyword) {
            kept.push(p);
        }
    }
    proof {
        assert(orig.take(orig.len() as int) =~= orig);
    }
    kept
}

pub open spec fn is_empty_mods(v: ModView) -> bool {
    v matches ModView::Mods(m) && m@.len() == 0
}

pub open spec fn is_empty_plugins(v: ModView) -> bool {
    v matches ModView::Plugins(p) && p@.len() == 0
}

pub open spec fn is_empty_packages(v: ModView) -> bool {
    v matches ModView::Packages(w) && w@.len() == 0
}

/// What `filter` leaves behind: the matching entries of the live collection,
/// in their old order; the entry-less kinds are untouched.
pub open spec fn filter_post(pre: ModView, k: Seq<char>, post: ModView) -> bool {
    match pre {
        ModView::Mods(m) => post matches ModView::Mods(m2) && m2@ == m@.filter(mod_name_has(k)),
        ModView::Plugins(p) => post matches ModView::Plugins(p2) && p2@ == p@.filter(
            plugin_name_has(k),
        ),
        ModView::Packages(_) => post == pre,
        ModView::CTA => post == pre,
    }
}

/// The scan variant fits the live kind.
pub open spec fn scan_fits(v: ModView, data: ScanData) -> bool {
    match v {
        ModView::Mods(_) => data is Mods,
        ModView::Plugins(_) => data is Plugins,
        ModView::Packages(_) => data is Nothing,
        ModView::CTA => data is Nothing,
    }
}

/// What `reload` does: a successful scan replaces the live collection
/// wholesale with the scan's parse; a root-level failure is returned and
/// leaves the previous collection untouched; the entry-less kinds do nothing.
pub open spec fn reload_post(
    pre: ModView,
    data: ScanData,
    post: ModView,
    r: Result<(), DiscoveryError>,
) -> bool {
    match data {
        ScanData::Mods(res) => match res {
            Result::Ok(dirs) => r is Ok && (post matches ModView::Mods(m) && mods_views(m@)
                == mod_entries_of(scan_views(dirs@))),
            Result::Err(e) => (r matches Result::Err(e2) && e2 == e) && post == pre,
        },
        ScanData::Plugins(res) => match res {
            Result::Ok(files) => r is Ok && (post matches ModView::Plugins(p) && plugin_views(p@)
                == plugin_names_of(string_views(files@))),
            Result::Err(e) => (r matches Result::Err(e2) && e2 == e) && post == pre,
        },
        ScanData::Nothing => r is Ok && post == pre,
    }
}

impl Default for ModView {
    /// A fresh view starts on the mods kind with nothing loaded.
    fn default() -> (r: Self)
        ensures
            is_empty_mods(r),
    {
        ModView::Mods(Vec::new())
    }
}

impl ModView {
    /// Entry count of the live collection; the call-to-action kind reports a
    /// fixed nominal count used only to drive layout.
    pub open spec fn spec_len(self) -> int {
        match self {
            ModView::Mods(m) => m@.len() as int,
            ModView::Plugins(p) => p@.len() as int,
            ModView::Packages(_) => 0,
            ModView::CTA => 5,
        }
    }

    /// The primary display name at `index`, or `None` when out of range; the
    /// packages kind always shows an empty title, the call-to-action kind a
    /// fixed one.
    pub open spec fn spec_title(self, index: int) -> Option<Seq<char>> {
        match self {
            ModView::Mods(m) => if 0 <= index < m@.len() {
                Option::Some(m@[index].mod_json.name@)
            } else {
                Option::None
            },
            ModView::Plugins(p) => if 0 <= index < p@.len() {
                Option::Some(p@[index]@)
            } else {
                Option::None
            },
            ModView::Packages(_) => Option::Some(Seq::empty()),
            ModView::CTA => Option::Some("CTA VIEW"@),
        }
    }

    /// Replace the live collection from the given scan of its root, or
    /// return the root-level error and keep the previous collection.
    pub fn reload(&mut self, data: ScanData) -> (r: Result<(), DiscoveryError>)
        requires
            scan_fits(*old(self), data),
        ensures
            reload_post(*old(self), data, *final(self), r),
    {
        match data {
            ScanData::Mods(res) => match res {
                Result::Ok(dirs) => {
                    *self = ModView::Mods(reload_mods(dirs));
                    Result::Ok(())
                },
                Result::Err(e) => Result::Err(e),
            },
            ScanData::Plugins(res) => match res {
                Result::Ok(files) => {
                    *self = ModView::Plugins(reload_plugins(files));
                    Result::Ok(())
                },
                Result::Err(e) => Result::Err(e),
            },
            ScanData::Nothing => Result::Ok(()),
        }
    }

    /// Retain only the entries whose display name contains `keyword` as a
    /// literal, case-sensitive substring; in place, order kept.
    pub fn filter(&mut self, keyword: &str)
        ensures
            filter_post(*old(self), keyword@, *final(self)),
    {
        let mut taken = ModView::CTA;
        core::mem::swap(self, &mut taken);
        let result = match taken {
            ModView::Mods(mods) => ModView::Mods(filter_mods(mods, keyword)),
            ModView::Plugins(plugins) => ModView::Plugins(filter_plugins(plugins, keyword)),
            other => other,
        };
        *self = result;
    }

    /// Make a fresh, empty collection of the requested kind live; an
    /// out-of-range index falls back to the mods kind. Discovery is not
    /// performed here: the caller reloads afterwards.
    pub fn switch(&mut self, view_index: usize)
        ensures
            view_index == 0 || view_index >= 4 ==> is_empty_mods(*final(self)),
            view_index == 1 ==> is_empty_plugins(*final(self)),
            view_index == 2 ==> is_empty_packages(*final(self)),
            view_index == 3 ==> *final(self) is CTA,
    {
        *self = if view_index == 0 {
            ModView::Mods(Vec::new())
        } else if view_index == 1 {
            ModView::Plugins(Vec::new())
        } else if view_index == 2 {
            ModView::Packages(Vec::new())
        } else if view_index == 3 {
            ModView::CTA
        } else {
            ModView::Mods(Vec::new())
        };
    }

    /// The multi-line cell text for the entry at `index`: version and
    /// priority-or-default plus description for a mod, the bare name for a
    /// plugin, nothing for the entry-less kinds (the caller renders a
    /// placeholder cell on `None`).
    pub fn get_as_paragraph(&self, index: usize) -> (r: Option<CellText>)
        ensures
            match *self {
                ModView::Mods(m) => if index < m@.len() {
                    r matches Option::Some(CellText::ModCell { version, priority, description })
                        && version@ == m@[index as int].mod_json.version@ && priority@
                        == dec_string(spec_priority(m@[index as int].mod_json.load_priority))
                        && description@ == m@[index as int].mod_json.description@
                } else {
                    r is None
                },
                ModView::Plugins(p) => if index < p@.len() {
                    r matches Option::Some(CellText::PluginCell { name }) && name@ == p@[index as int]@
                } else {
                    r is None
                },
                ModView::Packages(_) => r is None,
                ModView::CTA => r is None,
            },
    {
        match self {
            ModView::Mods(mods) => {
                if index < mods.len() {
                    let e = &mods[index];
                    let prio = match e.mod_json.load_priority {
                        Option::Some(p) => p,
                        Option::None => 999,
                    };
                    Option::Some(
                        CellText::ModCell {
                            version: e.mod_json.version.clone(),
                            priority: priority_to_string(prio),
                            description: e.mod_json.description.clone(),
                        },
                    )
                } else {
                    Option::None
                }
            },
            ModView::Plugins(plugins) => {
                if index < plugins.len() {
                    Option::Some(CellText::PluginCell { name: plugins[index].name.clone() })
                } else {
                    Option::None
                }
            },
            ModView::Packages(_) => Option::None,
            ModView::CTA => Option::None,
        }
    }

    /// The primary display name at `index`; see `spec_title`.
    pub fn get_title(&self, index: usize) -> (r: Option<&str>)
        ensures
            match r {
                Option::Some(t) => self.spec_title(index as int) == Option::Some(t@),
                Option::None => self.spec_title(index as int) is None,
            },
    {
        match self {
            ModView::Mods(mods) => {
                if index < mods.len() {
                    let e = &mods[index];
                    let t = e.mod_json.name.as_str();
                    proof {
                        assert(self.spec_title(index as int) == Option::Some(t@));
                    }
                    Option::Some(t)
                } else {
                    Option::None
                }
            },
            ModView::Plugins(plugins) => {
                if index < plugins.len() {
                    let e = &plugins[index];
                    let t = e.name.as_str();
                    proof {
                        assert(self.spec_title(index as int) == Option::Some(t@));
                    }
                    Option::Some(t)
                } else {
                    Option::None
                }
            },
            ModView::Packages(_) => {
                let t = "";
                proof {
                    reveal_strlit("");
                    assert(t@ =~= Seq::<char>::empty());
                }
                Option::Some(t)
            },
            ModView::CTA => Option::Some("CTA VIEW"),
        }
    }

    /// Entry count of the live collection; see `spec_len`.
    pub fn len(&self) -> (n: usize)
        ensures
            n == self.spec_len(),
    {
        match self {
            ModView::Mods(mods) => mods.len(),
            ModView::Plugins(plugins) => plugins.len(),
            ModView::Packages(_) => 0,
            ModView::CTA => 5,
        }
    }
}

/// The load priority the cell shows: the entry's own, or the fixed default
/// when it has none.
pub open spec fn spec_priority(p: Option<i32>) -> int {
    match p {
        Option::Some(v) => v as int,
        Option::None => 999,
    }
}

/// Law: filtering keeps exactly the matching entries — every entry of the
/// filtered mods collection contains the keyword, and every matching entry of
/// the old collection is still present.
pub proof fn lemma_filter_keeps_exactly_matching(pre: ModView, k: Seq<char>, post: ModView)
    requires
        pre is Mods,
        filter_post(pre, k, post),
    ensures
        post is Mods,
        forall|i: int|
            0 <= i < post->Mods_0@.len() ==> has_substring(
                #[trigger] post->Mods_0@[i].mod_json.name@,
                k,
            ),
        forall|i: int|
            0 <= i < pre->Mods_0@.len() && has_substring(pre->Mods_0@[i].mod_json.name@, k)
                ==> post->Mods_0@.contains(#[trigger] pre->Mods_0@[i]),
{
    broadcast use vstd::seq_lib::group_filter_ensures;

    let m = pre->Mods_0@;
    assert(m.filter(mod_name_has(k)).len() <= m.len());
}

/// Law: a reload that succeeds replaces the collection with the full parse of
/// the scan, so two views that differ only by an earlier `filter` end up with
/// the same collection.
pub proof fn lemma_reload_unaffected_by_filter(
    a: ModView,
    k: Seq<char>,
    b: ModView,
    data: ScanData,
    a2: ModView,
    b2: ModView,
    ra: Result<(), DiscoveryError>,
    rb: Result<(), DiscoveryError>,
)
    requires
        data matches ScanData::Mods(res) && res is Ok,
        filter_post(a, k, b),
        reload_post(a, data, a2, ra),
        reload_post(b, data, b2, rb),
    ensures
        a2 is Mods,
        b2 is Mods,
        mods_views(a2->Mods_0@) == mods_views(b2->Mods_0@),
{
}

/// Law: an entry in the collection a scan yields always stems from a scanned
/// directory whose required metadata parsed — a directory with malformed
/// metadata never appears.
pub proof fn lemma_entries_only_parsed(ds: Seq<ModDirScanV>)
    ensures
        forall|i: int|
            0 <= i < mod_entries_of(ds).len() ==> exists|j: int|
                0 <= j < ds.len() && parse_entry_spec(ds[j]) == Option::Some(
                    #[trigger] mod_entries_of(ds)[i],
                ),
    decreases ds.len(),
{
    if ds.len() > 0 {
        lemma_entries_only_parsed(ds.drop_last());
        let prefix = mod_entries_of(ds.drop_last());
        assert forall|i: int| 0 <= i < mod_entries_of(ds).len() implies exists|j: int|
            0 <= j < ds.len() && parse_entry_spec(ds[j]) == Option::Some(
                #[trigger] mod_entries_of(ds)[i],
            ) by {
            if i < prefix.len() {
                let j = choose|j: int|
                    0 <= j < ds.drop_last().len() && parse_entry_spec(ds.drop_last()[j])
                        == Option::Some(prefix[i]);
                assert(ds.drop_last()[j] == ds[j]);
                assert(parse_entry_spec(ds[j]) == Option::Some(mod_entries_of(ds)[i]));
            } else {
                let j = ds.len() - 1;
                assert(ds.last() == ds[j]);
                assert(parse_entry_spec(ds[j]) == Option::Some(mod_entries_of(ds)[i]));
            }
        }
    }
}

/// Law: a scanned directory that parses contributes exactly one entry.
pub proof fn lemma_single_dir_entry(d: ModDirScanV)
    requires
        parse_entry_spec(d) is Some,
    ensures
        mod_entries_of(seq![d]) =~= seq![parse_entry_spec(d)->0],
{
    let ds = seq![d];
    assert(ds.drop_last() =~= Seq::<ModDirScanV>::empty());
    assert(ds.last() == d);
    assert(mod_entries_of(Seq::<ModDirScanV>::empty()) == Seq::<InstalledModV>::empty());
}

} // verus!
