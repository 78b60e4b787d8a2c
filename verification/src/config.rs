//! Plugin configuration: a default section that applies to every window
//! plus per-window sections, merged at construction into one finished
//! label-to-configuration table that the rest of the plugin reads.

use vstd::prelude::*;
use crate::delegate::{contains_string, labels_contain};

verus! {

/// A flag that is either a plain boolean or a list of webview labels.
#[derive(Debug)]
pub enum BoolOrVec {
    Bool(bool),
    Items(Vec<String>),
}

/// Mathematical image of a `BoolOrVec`.
pub enum BoolOrVecView {
    Bool(bool),
    Items(Seq<Seq<char>>),
}

impl View for BoolOrVec {
    type V = BoolOrVecView;

    open spec fn view(&self) -> BoolOrVecView {
        match self {
            BoolOrVec::Bool(b) => BoolOrVecView::Bool(*b),
            BoolOrVec::Items(v) => BoolOrVecView::Items(v.deep_view()),
        }
    }
}

impl Clone for BoolOrVec {
    fn clone(&self) -> (r: Self)
        ensures
            r@ == self@,
    {
        match self {
            BoolOrVec::Bool(b) => BoolOrVec::Bool(*b),
            BoolOrVec::Items(v) => {
                let c = v.clone();
                proof {
                    assert forall|i: int| 0 <= i < c@.len() implies c@[i]@ == v@[i]@ by {
                        assert(cloned::<String>(v@[i], c@[i]));
                    }
                    assert(c.deep_view() =~= v.deep_view());
                }
                BoolOrVec::Items(c)
            },
        }
    }
}

impl Default for BoolOrVec {
    fn default() -> (r: Self)
        ensures
            r@ == BoolOrVecView::Bool(false),
    {
        BoolOrVec::Bool(false)
    }
}

pub open spec fn opt_bov_view(o: Option<BoolOrVec>) -> Option<BoolOrVecView> {
    match o {
        Option::Some(b) => Option::Some(b@),
        Option::None => Option::None,
    }
}

fn clone_opt_bov(o: &Option<BoolOrVec>) -> (r: Option<BoolOrVec>)
    ensures
        opt_bov_view(r) == opt_bov_view(*o),
{
    match o {
        Option::Some(b) => Option::Some(b.clone()),
        Option::None => Option::None,
    }
}

/// Which window controls to show and where to put them.
#[derive(Debug)]
pub struct WindowButtons {
    pub inset_x: Option<i64>,
    pub inset_y: Option<i64>,
    pub support_rtl: Option<bool>,
    pub hide: Option<BoolOrVec>,
}

/// Mathematical image of a `WindowButtons`.
pub struct WindowButtonsView {
    pub inset_x: Option<int>,
    pub inset_y: Option<int>,
    pub support_rtl: Option<bool>,
    pub hide: Option<BoolOrVecView>,
}

pub open spec fn opt_i64_view(o: Option<i64>) -> Option<int> {
    match o {
        Option::Some(v) => Option::Some(v as int),
        Option::None => Option::None,
    }
}

impl View for WindowButtons {
    type V = WindowButtonsView;

    open spec fn view(&self) -> WindowButtonsView {
        WindowButtonsView {
            inset_x: opt_i64_view(self.inset_x),
            inset_y: opt_i64_view(self.inset_y),
            support_rtl: self.support_rtl,
            hide: opt_bov_view(self.hide),
        }
    }
}

impl Clone for WindowButtons {
    fn clone(&self) -> (r: Self)
        ensures
            r@ == self@,
    {
        WindowButtons {
            inset_x: self.inset_x,
            inset_y: self.inset_y,
            support_rtl: self.support_rtl,
            hide: clone_opt_bov(&self.hide),
        }
    }
}

/// The built-in window-buttons settings: controls shown, at inset
/// (10, 15).
pub open spec fn default_window_buttons_view() -> WindowButtonsView {
    WindowButtonsView {
        inset_x: Option::Some(10int),
        inset_y: Option::Some(15int),
        support_rtl: Option::Some(false),
        hide: Option::Some(BoolOrVecView::Bool(false)),
    }
}

impl Default for WindowButtons {
    fn default() -> (r: Self)
        ensures
            r@ == default_window_buttons_view(),
    {
        WindowButtons {
            inset_x: Option::Some(10),
            inset_y: Option::Some(15),
            support_rtl: Option::Some(false),
            hide: Option::Some(BoolOrVec::Bool(false)),
        }
    }
}

/// Configuration for one window (or, as the `all` section, for every
/// window).
#[derive(Debug)]
pub struct WindowConfig {
    pub window_buttons: Option<WindowButtons>,
    pub create_overlay_titlebar: Option<BoolOrVec>,
    pub transparent_webviews: Option<BoolOrVec>,
}

/// Mathematical image of a `WindowConfig`.
pub struct WindowConfigView {
    pub window_buttons: Option<WindowButtonsView>,
    pub create_overlay_titlebar: Option<BoolOrVecView>,
    pub transparent_webviews: Option<BoolOrVecView>,
}

pub open spec fn opt_wb_view(o: Option<WindowButtons>) -> Option<WindowButtonsView> {
    match o {
        Option::Some(b) => Option::Some(b@),
        Option::None => Option::None,
    }
}

impl View for WindowConfig {
    type V = WindowConfigView;

    open spec fn view(&self) -> WindowConfigView {
        WindowConfigView {
            window_buttons: opt_wb_view(self.window_buttons),
            create_overlay_titlebar: opt_bov_view(self.create_overlay_titlebar),
            transparent_webviews: opt_bov_view(self.transparent_webviews),
        }
    }
}

impl Clone for WindowConfig {
    fn clone(&self) -> (r: Self)
        ensures
            r@ == self@,
    {
        WindowConfig {
            window_buttons: match &self.window_buttons {
                Option::Some(b) => Option::Some(b.clone()),
                Option::None => Option::None,
            },
            create_overlay_titlebar: clone_opt_bov(&self.create_overlay_titlebar),
            transparent_webviews: clone_opt_bov(&self.transparent_webviews),
        }
    }
}

/// The built-in per-window configuration used when nothing overrides it.
pub open spec fn default_window_config_view() -> WindowConfigView {
    WindowConfigView {
        window_buttons: Option::Some(default_window_buttons_view()),
        create_overlay_titlebar: Option::Some(BoolOrVecView::Bool(false)),
        transparent_webviews: Option::Some(BoolOrVecView::Bool(false)),
    }
}

impl Default for WindowConfig {
    fn default() -> (r: Self)
        ensures
            r@ == default_window_config_view(),
    {
        WindowConfig {
            window_buttons: Option::Some(WindowButtons::default()),
            create_overlay_titlebar: Option::Some(BoolOrVec::default()),
            transparent_webviews: Option::Some(BoolOrVec::default()),
        }
    }
}

/// A per-window configuration section together with the window label it
/// applies to.
#[derive(Debug)]
pub struct LabeledWindowConfig {
    pub label: String,
    pub config: WindowConfig,
}

/// Mathematical image of a `LabeledWindowConfig`.
pub struct LabeledWindowConfigView {
    pub label: Seq<char>,
    pub config: WindowConfigView,
}

impl View for LabeledWindowConfig {
    type V = LabeledWindowConfigView;

    open spec fn view(&self) -> LabeledWindowConfigView {
        LabeledWindowConfigView { label: self.label@, config: self.config@ }
    }
}

impl Clone for LabeledWindowConfig {
    fn clone(&self) -> (r: Self)
        ensures
            r@ == self@,
    {
        LabeledWindowConfig { label: self.label.clone(), config: self.config.clone() }
    }
}

/// How a window-specific flag and the `all` section's flag combine: an
/// explicit `true` or a non-empty list wins outright; an absent specific
/// flag falls back to the default; anything else (an explicit `false` or
/// an empty list) switches the flag off.
pub open spec fn spec_merge_bool_or_vec(
    specific: Option<BoolOrVecView>,
    default: Option<BoolOrVecView>,
) -> Option<BoolOrVecView> {
    match specific {
        Option::Some(BoolOrVecView::Bool(true)) => Option::Some(BoolOrVecView::Bool(true)),
        Option::Some(BoolOrVecView::Bool(false)) => Option::None,
        Option::Some(BoolOrVecView::Items(items)) => if items.len() > 0 {
            Option::Some(BoolOrVecView::Items(items))
        } else {
            Option::None
        },
        Option::None => match default {
            Option::Some(d) => Option::Some(d),
            Option::None => Option::None,
        },
    }
}

/// Merge one flag of a window-specific configuration with the same flag
/// of the default configuration; the window-specific value takes
/// priority.
pub fn merge_bool_or_vec(specific: &Option<BoolOrVec>, default: &Option<BoolOrVec>) -> (r: Option<
    BoolOrVec,
>)
    ensures
        opt_bov_view(r) == spec_merge_bool_or_vec(opt_bov_view(*specific), opt_bov_view(*default)),
{
    match specific {
        Option::Some(BoolOrVec::Bool(true)) => Option::Some(BoolOrVec::Bool(true)),
        Option::Some(BoolOrVec::Bool(false)) => Option::None,
        Option::Some(BoolOrVec::Items(items)) => {
            if items.len() > 0 {
                let c = items.clone();
                proof {
                    assert forall|i: int| 0 <= i < c@.len() implies c@[i]@ == items@[i]@ by {
                        assert(cloned::<String>(items@[i], c@[i]));
                    }
                    assert(c.deep_view() =~= items.deep_view());
                }
                Option::Some(BoolOrVec::Items(c))
            } else {
                Option::None
            }
        },
        Option::None => clone_opt_bov(default),
    }
}

/// A window-specific configuration merged over the `all` section: an
/// explicit window-buttons section wins, and each flag combines as
/// [`spec_merge_bool_or_vec`] says.
pub open spec fn merge_window_config(c: WindowConfigView, all: WindowConfigView) -> WindowConfigView {
    WindowConfigView {
        window_buttons: if c.window_buttons is Some {
            c.window_buttons
        } else {
            all.window_buttons
        },
        create_overlay_titlebar: spec_merge_bool_or_vec(
            c.create_overlay_titlebar,
            all.create_overlay_titlebar,
        ),
        transparent_webviews: spec_merge_bool_or_vec(
            c.transparent_webviews,
            all.transparent_webviews,
        ),
    }
}

/// The configuration the per-window list gives a label; a label listed
/// twice gets its last entry.
pub open spec fn lwc_lookup(ws: Seq<LabeledWindowConfigView>, l: Seq<char>) -> Option<
    WindowConfigView,
>
    decreases ws.len(),
{
    if ws.len() == 0 {
        Option::None
    } else if ws.last().label == l {
        Option::Some(ws.last().config)
    } else {
        lwc_lookup(ws.drop_last(), l)
    }
}

/// The labels the per-window list mentions.
pub open spec fn window_labels(ws: Seq<LabeledWindowConfigView>) -> Set<Seq<char>> {
    Set::new(|l: Seq<char>| lwc_lookup(ws, l) is Some)
}

/// The labels a flag of the `all` section lists.
pub open spec fn bov_labels(o: Option<BoolOrVecView>) -> Set<Seq<char>> {
    match o {
        Option::Some(BoolOrVecView::Items(items)) => items.to_set(),
        _ => Set::<Seq<char>>::empty(),
    }
}

/// Every label the `all` section mentions.
pub open spec fn all_section_labels(all: WindowConfigView) -> Set<Seq<char>> {
    bov_labels(all.create_overlay_titlebar).union(bov_labels(all.transparent_webviews))
}

/// The finished merged table: every label mentioned anywhere in the
/// configuration, mapped to its own sections merged over the `all`
/// section, or to the `all` section alone for a label without a
/// per-window entry.
pub open spec fn merged_spec(
    all: WindowConfigView,
    ws: Seq<LabeledWindowConfigView>,
) -> Map<Seq<char>, WindowConfigView> {
    Map::new(
        |l: Seq<char>| window_labels(ws).contains(l) || all_section_labels(all).contains(l),
        |l: Seq<char>|
            match lwc_lookup(ws, l) {
                Option::Some(c) => merge_window_config(c, all),
                Option::None => all,
            },
    )
}

/// The labels a vector of strings holds, as a set.
pub open spec fn strings_set(v: Seq<String>) -> Set<Seq<char>> {
    Set::new(|l: Seq<char>| contains_string(v, l))
}

/// First-match lookup in the merged table's backing list.
pub open spec fn cfg_lookup(s: Seq<LabeledWindowConfig>, l: Seq<char>) -> Option<WindowConfig>
    decreases s.len(),
{
    if s.len() == 0 {
        Option::None
    } else if s[0].label@ == l {
        Option::Some(s[0].config)
    } else {
        cfg_lookup(s.subrange(1, s.len() as int), l)
    }
}

pub open spec fn cfg_lookup_view(s: Seq<LabeledWindowConfig>, l: Seq<char>) -> Option<
    WindowConfigView,
> {
    match cfg_lookup(s, l) {
        Option::Some(c) => Option::Some(c@),
        Option::None => Option::None,
    }
}

/// The whole configuration: the `all` section, the per-window sections,
/// and the merged table built from them.
#[derive(Debug)]
pub struct DecorumConfig {
    pub all: WindowConfig,
    pub windows: Vec<LabeledWindowConfig>,
    merged: Vec<LabeledWindowConfig>,
}

/// Mathematical image of a `DecorumConfig`; `merged` is the finished
/// label-to-configuration map.
pub struct DecorumConfigView {
    pub all: WindowConfigView,
    pub windows: Seq<LabeledWindowConfigView>,
    pub merged: Map<Seq<char>, WindowConfigView>,
}

impl View for DecorumConfig {
    type V = DecorumConfigView;

    closed spec fn view(&self) -> DecorumConfigView {
        DecorumConfigView {
            all: self.all@,
            windows: self.windows@.map_values(|w: LabeledWindowConfig| w@),
            merged: Map::new(
                |l: Seq<char>| cfg_lookup(self.merged@, l) is Some,
                |l: Seq<char>| cfg_lookup(self.merged@, l).unwrap()@,
            ),
        }
    }
}

proof fn lemma_cfg_lookup_push(s: Seq<LabeledWindowConfig>, e: LabeledWindowConfig, l: Seq<char>)
    ensures
        cfg_lookup(s.push(e), l) == if cfg_lookup(s, l) is Some {
            cfg_lookup(s, l)
        } else if l == e.label@ {
            Option::Some(e.config)
        } else {
            Option::None::<WindowConfig>
        },
    decreases s.len(),
{
    reveal_with_fuel(cfg_lookup, 3);
    if s.len() == 0 {
        assert(s.push(e)[0] == e);
        assert(s.push(e).subrange(1, 1) =~= Seq::<LabeledWindowConfig>::empty());
    } else {
        assert(s.push(e)[0] == s[0]);
        assert(s.push(e).subrange(1, s.len() as int + 1) =~= s.subrange(
            1,
            s.len() as int,
        ).push(e));
        lemma_cfg_lookup_push(s.subrange(1, s.len() as int), e, l);
    }
}

proof fn lemma_cfg_lookup_update(
    s: Seq<LabeledWindowConfig>,
    i: int,
    e: LabeledWindowConfig,
    l: Seq<char>,
)
    requires
        0 <= i < s.len(),
        s[i].label@ == e.label@,
        forall|j: int| 0 <= j < i ==> s[j].label@ != e.label@,
    ensures
        cfg_lookup(s.update(i, e), l) == if l == e.label@ {
            Option::Some(e.config)
        } else {
            cfg_lookup(s, l)
        },
    decreases s.len(),
{
    if i == 0 {
        assert(s.update(0, e)[0] == e);
        if l != e.label@ {
            assert(s.update(0, e).subrange(1, s.len() as int) =~= s.subrange(1, s.len() as int));
        }
    } else {
        assert(s.update(i, e)[0] == s[0]);
        let tail = s.subrange(1, s.len() as int);
        assert(s.update(i, e).subrange(1, s.len() as int) =~= tail.update(i - 1, e));
        assert(forall|j: int| 0 <= j < i - 1 ==> tail[j] == s[j + 1]);
        lemma_cfg_lookup_update(tail, i - 1, e, l);
    }
}

proof fn lemma_cfg_lookup_absent(s: Seq<LabeledWindowConfig>, l: Seq<char>)
    requires
        forall|j: int| 0 <= j < s.len() ==> s[j].label@ != l,
    ensures
        cfg_lookup(s, l) is None,
    decreases s.len(),
{
    if s.len() > 0 {
        let tail = s.subrange(1, s.len() as int);
        assert(forall|j: int| 0 <= j < tail.len() ==> tail[j] == s[j + 1]);
        lemma_cfg_lookup_absent(tail, l);
    }
}

/// Replace the first entry for this label, or append one.
fn cfg_insert(v: &mut Vec<LabeledWindowConfig>, label: &String, config: WindowConfig)
    ensures
        forall|l: Seq<char>|
            cfg_lookup_view(final(v)@, l) == if l == label@ {
                Option::Some(config@)
            } else {
                cfg_lookup_view(old(v)@, l)
            },
{
    let mut i: usize = 0;
    while i < v.len()
        invariant
            i <= v@.len(),
            forall|j: int| 0 <= j < i ==> v@[j].label@ != label@,
            v@ == old(v)@,
        decreases v@.len() - i,
    {
        if v[i].label.eq(label) {
            let entry = LabeledWindowConfig { label: label.clone(), config };
            proof {
                assert forall|l: Seq<char>|
                    cfg_lookup(v@.update(i as int, entry), l) == (if l == label@ {
                        Option::Some(entry.config)
                    } else {
                        cfg_lookup(v@, l)
                    }) by {
                    lemma_cfg_lookup_update(v@, i as int, entry, l);
                }
            }
            v.set(i, entry);
            return ;
        }
        i = i + 1;
    }
    let entry = LabeledWindowConfig { label: label.clone(), config };
    proof {
        lemma_cfg_lookup_absent(v@, label@);
        assert forall|l: Seq<char>|
            cfg_lookup(v@.push(entry), l) == (if l == label@ {
                Option::Some(entry.config)
            } else {
                cfg_lookup(v@, l)
            }) by {
            lemma_cfg_lookup_push(v@, entry, l);
        }
    }
    v.push(entry);
}

proof fn lemma_cfg_lookup_found(s: Seq<LabeledWindowConfig>, i: int)
    requires
        0 <= i < s.len(),
        forall|j: int| 0 <= j < i ==> s[j].label@ != s[i].label@,
    ensures
        cfg_lookup(s, s[i].label@) == Option::Some(s[i].config),
    decreases s.len(),
{
    if i > 0 {
        let tail = s.subrange(1, s.len() as int);
        assert(forall|j: int| 0 <= j < tail.len() ==> tail[j] == s[j + 1]);
        lemma_cfg_lookup_found(tail, i - 1);
    }
}

/// Whether the merged table's backing list has an entry for this label.
fn cfg_contains(v: &Vec<LabeledWindowConfig>, label: &String) -> (b: bool)
    ensures
        b == (cfg_lookup(v@, label@) is Some),
{
    let mut i: usize = 0;
    while i < v.len()
        invariant
            i <= v@.len(),
            forall|j: int| 0 <= j < i ==> v@[j].label@ != label@,
        decreases v@.len() - i,
    {
        if v[i].label.eq(label) {
            proof {
                lemma_cfg_lookup_found(v@, i as int);
            }
            return true;
        }
        i = i + 1;
    }
    proof {
        lemma_cfg_lookup_absent(v@, label@);
    }
    false
}

/// A per-window list names a label exactly when looking the label up in
/// it finds a configuration.
proof fn lemma_lwc_lookup_some(ws: Seq<LabeledWindowConfigView>, l: Seq<char>)
    ensures
        (lwc_lookup(ws, l) is Some) == (exists|i: int| 0 <= i < ws.len() && ws[i].label == l),
    decreases ws.len(),
{
    if ws.len() > 0 {
        lemma_lwc_lookup_some(ws.drop_last(), l);
        if ws.last().label == l {
            assert(ws[ws.len() - 1].label == l);
        } else {
            if lwc_lookup(ws.drop_last(), l) is Some {
                let i = choose|i: int| 0 <= i < ws.len() - 1 && ws.drop_last()[i].label == l;
                assert(ws[i].label == l);
            }
            if exists|i: int| 0 <= i < ws.len() && ws[i].label == l {
                let i = choose|i: int| 0 <= i < ws.len() && ws[i].label == l;
                assert(ws.drop_last()[i].label == l);
            }
        }
    }
}

/// Append a label not yet in the list; distinctness is preserved.
fn push_unique(labels: &mut Vec<String>, s: &String)
    requires
        forall|i: int, j: int| 0 <= i < j < old(labels)@.len() ==> old(labels)@[i]@ != old(labels)@[j]@,
    ensures
        forall|i: int, j: int|
            0 <= i < j < final(labels)@.len() ==> final(labels)@[i]@ != final(labels)@[j]@,
        strings_set(final(labels)@) == strings_set(old(labels)@).insert(s@),
{
    if !labels_contain(labels, s) {
        labels.push(s.clone());
        proof {
            assert forall|l: Seq<char>|
                strings_set(labels@).contains(l) == strings_set(old(labels)@).insert(s@).contains(
                    l,
                ) by {
                if contains_string(labels@, l) {
                    let i = choose|i: int| 0 <= i < labels@.len() && labels@[i]@ == l;
                    if i < old(labels)@.len() {
                        assert(contains_string(old(labels)@, l));
                    }
                }
                if contains_string(old(labels)@, l) {
                    let i = choose|i: int| 0 <= i < old(labels)@.len() && old(labels)@[i]@ == l;
                    assert(labels@[i]@ == l);
                }
                if l == s@ {
                    assert(labels@[labels@.len() - 1]@ == l);
                }
            }
            assert(strings_set(labels@) =~= strings_set(old(labels)@).insert(s@));
        }
    } else {
        proof {
            assert(strings_set(labels@) =~= strings_set(old(labels)@).insert(s@));
        }
    }
}

/// The labels among the first `k` strings.
pub open spec fn prefix_set(items: Seq<String>, k: int) -> Set<Seq<char>> {
    Set::new(|l: Seq<char>| exists|i: int| 0 <= i < k && items[i]@ == l)
}

/// The labels among the first `k` per-window sections.
pub open spec fn wprefix_set(ws: Seq<LabeledWindowConfigView>, k: int) -> Set<Seq<char>> {
    Set::new(|l: Seq<char>| exists|i: int| 0 <= i < k && ws[i].label == l)
}

proof fn lemma_prefix_set_is_deep(items: Vec<String>)
    ensures
        prefix_set(items@, items@.len() as int) == items.deep_view().to_set(),
{
    assert forall|l: Seq<char>|
        prefix_set(items@, items@.len() as int).contains(l) == items.deep_view().to_set().contains(
            l,
        ) by {
        if prefix_set(items@, items@.len() as int).contains(l) {
            let i = choose|i: int| 0 <= i < items@.len() && items@[i]@ == l;
            assert(items.deep_view()[i] == l);
        }
        if items.deep_view().to_set().contains(l) {
            let i = choose|i: int| 0 <= i < items.deep_view().len() && items.deep_view()[i] == l;
            assert(items@[i]@ == l);
        }
    }
    assert(prefix_set(items@, items@.len() as int) =~= items.deep_view().to_set());
}

/// Gather every label of `items` into `labels`, skipping those already
/// there.
fn collect_labels(labels: &mut Vec<String>, items: &Vec<String>)
    requires
        forall|i: int, j: int| 0 <= i < j < old(labels)@.len() ==> old(labels)@[i]@ != old(labels)@[j]@,
    ensures
        forall|i: int, j: int|
            0 <= i < j < final(labels)@.len() ==> final(labels)@[i]@ != final(labels)@[j]@,
        strings_set(final(labels)@) == strings_set(old(labels)@).union(items.deep_view().to_set()),
{
    let mut k: usize = 0;
    while k < items.len()
        invariant
            k <= items@.len(),
            forall|i: int, j: int| 0 <= i < j < labels@.len() ==> labels@[i]@ != labels@[j]@,
            strings_set(labels@) == strings_set(old(labels)@).union(prefix_set(items@, k as int)),
        decreases items@.len() - k,
    {
        push_unique(labels, &items[k]);
        proof {
            assert(strings_set(labels@) =~= strings_set(old(labels)@).union(
                prefix_set(items@, k as int + 1),
            ));
        }
        k = k + 1;
    }
    proof {
        lemma_prefix_set_is_deep(*items);
        assert(prefix_set(items@, items@.len() as int) =~= prefix_set(items@, k as int));
    }
}

/// Gather every window label of `windows` into `labels`, skipping those
/// already there.
fn collect_window_labels(labels: &mut Vec<String>, windows: &Vec<LabeledWindowConfig>)
    requires
        forall|i: int, j: int| 0 <= i < j < old(labels)@.len() ==> old(labels)@[i]@ != old(labels)@[j]@,
    ensures
        forall|i: int, j: int|
            0 <= i < j < final(labels)@.len() ==> final(labels)@[i]@ != final(labels)@[j]@,
        strings_set(final(labels)@) == strings_set(old(labels)@).union(
            window_labels(windows@.map_values(|w: LabeledWindowConfig| w@)),
        ),
{
    let ghost wv = windows@.map_values(|w: LabeledWindowConfig| w@);
    let mut k: usize = 0;
    while k < windows.len()
        invariant
            k <= windows@.len(),
            wv == windows@.map_values(|w: LabeledWindowConfig| w@),
            forall|i: int, j: int| 0 <= i < j < labels@.len() ==> labels@[i]@ != labels@[j]@,
            strings_set(labels@) == strings_set(old(labels)@).union(wprefix_set(wv, k as int)),
        decreases windows@.len() - k,
    {
        push_unique(labels, &windows[k].label);
        proof {
            assert(wv[k as int].label == windows@[k as int].label@);
            assert(strings_set(labels@) =~= strings_set(old(labels)@).union(
                wprefix_set(wv, k as int + 1),
            ));
        }
        k = k + 1;
    }
    proof {
        assert forall|l: Seq<char>|
            wprefix_set(wv, k as int).contains(l) == window_labels(wv).contains(l) by {
            lemma_lwc_lookup_some(wv, l);
        }
        assert(wprefix_set(wv, k as int) =~= window_labels(wv));
    }
}

/// The merged entry a label should get after the first `k` per-window
/// sections have been folded in.
pub open spec fn lwc_partial(
    ws: Seq<LabeledWindowConfigView>,
    k: int,
    all: WindowConfigView,
    l: Seq<char>,
) -> Option<WindowConfigView> {
    match lwc_lookup(ws.take(k), l) {
        Option::Some(c) => Option::Some(merge_window_config(c, all)),
        Option::None => Option::None,
    }
}

impl DecorumConfig {
    /// Every unique window label the configuration mentions: those of the
    /// per-window sections and those listed by the `all` section's flags.
    pub fn get_all_window_labels(&self) -> (r: Vec<String>)
        ensures
            forall|i: int, j: int| 0 <= i < j < r@.len() ==> r@[i]@ != r@[j]@,
            strings_set(r@) == window_labels(self@.windows).union(all_section_labels(self@.all)),
    {
        let mut labels: Vec<String> = Vec::new();
        match &self.all.create_overlay_titlebar {
            Option::Some(BoolOrVec::Items(items)) => collect_labels(&mut labels, items),
            _ => {},
        }
        let ghost after_cot = strings_set(labels@);
        match &self.all.transparent_webviews {
            Option::Some(BoolOrVec::Items(items)) => collect_labels(&mut labels, items),
            _ => {},
        }
        let ghost after_tw = strings_set(labels@);
        collect_window_labels(&mut labels, &self.windows);
        proof {
            assert(after_cot =~= bov_labels(self@.all.create_overlay_titlebar));
            assert(after_tw =~= after_cot.union(bov_labels(self@.all.transparent_webviews)));
            assert(strings_set(labels@) =~= window_labels(self@.windows).union(
                all_section_labels(self@.all),
            ));
        }
        labels
    }

    /// Build the merged table: each per-window section merged over the
    /// `all` section (a label listed twice gets its last section), and the
    /// `all` section alone for every further label the configuration
    /// mentions.
    fn merge_configurations(&mut self)
        ensures
            final(self)@.all == old(self)@.all,
            final(self)@.windows == old(self)@.windows,
            final(self)@.merged == merged_spec(old(self)@.all, old(self)@.windows),
    {
        let ghost allv = self@.all;
        let ghost wv = self@.windows;
        let default_config = self.all.clone();
        let mut merged: Vec<LabeledWindowConfig> = Vec::new();
        let mut i: usize = 0;
        while i < self.windows.len()
            invariant
                i <= self.windows@.len(),
                allv == self@.all,
                wv == self@.windows,
                default_config@ == allv,
                forall|l: Seq<char>|
                    cfg_lookup_view(merged@, l) == lwc_partial(wv, i as int, allv, l),
            decreases self.windows@.len() - i,
        {
            let w = &self.windows[i];
            let merged_config = WindowConfig {
                window_buttons: match &w.config.window_buttons {
                    Option::Some(b) => Option::Some(b.clone()),
                    Option::None => match &default_config.window_buttons {
                        Option::Some(b) => Option::Some(b.clone()),
                        Option::None => Option::None,
                    },
                },
                create_overlay_titlebar: merge_bool_or_vec(
                    &w.config.create_overlay_titlebar,
                    &default_config.create_overlay_titlebar,
                ),
                transparent_webviews: merge_bool_or_vec(
                    &w.config.transparent_webviews,
                    &default_config.transparent_webviews,
                ),
            };
            proof {
                assert(wv[i as int] == self.windows@[i as int]@);
                assert(merged_config@ == merge_window_config(wv[i as int].config, allv));
            }
            cfg_insert(&mut merged, &w.label, merged_config);
            proof {
                assert(wv.take(i as int + 1).drop_last() =~= wv.take(i as int));
                assert(wv.take(i as int + 1).last() == wv[i as int]);
                assert(forall|l: Seq<char>|
                    cfg_lookup_view(merged@, l) == lwc_partial(wv, i as int + 1, allv, l));
            }
            i = i + 1;
        }
        proof {
            assert(wv.take(i as int) =~= wv);
        }
        let labels = self.get_all_window_labels();
        let mut j: usize = 0;
        while j < labels.len()
            invariant
                j <= labels@.len(),
                allv == self@.all,
                wv == self@.windows,
                default_config@ == allv,
                strings_set(labels@) == window_labels(wv).union(all_section_labels(allv)),
                forall|l: Seq<char>|
                    cfg_lookup_view(merged@, l) == (match lwc_lookup(wv, l) {
                        Option::Some(c) => Option::Some(merge_window_config(c, allv)),
                        Option::None => if prefix_set(labels@, j as int).contains(l) {
                            Option::Some(allv)
                        } else {
                            Option::None::<WindowConfigView>
                        },
                    }),
            decreases labels@.len() - j,
        {
            if !cfg_contains(&merged, &labels[j]) {
                cfg_insert(&mut merged, &labels[j], default_config.clone());
            }
            proof {
                assert forall|l: Seq<char>|
                    cfg_lookup_view(merged@, l) == (match lwc_lookup(wv, l) {
                        Option::Some(c) => Option::Some(merge_window_config(c, allv)),
                        Option::None => if prefix_set(labels@, j as int + 1).contains(l) {
                            Option::Some(allv)
                        } else {
                            Option::None::<WindowConfigView>
                        },
                    }) by {
                    if l != labels@[j as int]@ {
                        assert(prefix_set(labels@, j as int + 1).contains(l) == prefix_set(
                            labels@,
                            j as int,
                        ).contains(l));
                    } else {
                        assert(prefix_set(labels@, j as int + 1).contains(l));
                    }
                }
            }
            j = j + 1;
        }
        self.merged = merged;
        proof {
            let m1 = self@.merged;
            let m2 = merged_spec(allv, wv);
            assert forall|l: Seq<char>| m1.dom().contains(l) implies m2.dom().contains(l) by {
                let lv = cfg_lookup_view(self.merged@, l);
                assert(prefix_set(labels@, j as int).contains(l) == strings_set(
                    labels@,
                ).contains(l));
                if lwc_lookup(wv, l) is Some {
                    assert(window_labels(wv).contains(l));
                }
            }
            assert forall|l: Seq<char>| m2.dom().contains(l) implies m1.dom().contains(l) by {
                let lv = cfg_lookup_view(self.merged@, l);
                assert(prefix_set(labels@, j as int).contains(l) == strings_set(
                    labels@,
                ).contains(l));
                if lwc_lookup(wv, l) is None {
                    assert(strings_set(labels@).contains(l));
                }
            }
            assert forall|l: Seq<char>| m1.dom().contains(l) implies m1[l] == m2[l] by {
                let lv = cfg_lookup_view(self.merged@, l);
                assert(prefix_set(labels@, j as int).contains(l) == strings_set(
                    labels@,
                ).contains(l));
                if lwc_lookup(wv, l) is Some {
                    assert(window_labels(wv).contains(l));
                }
            }
            assert(m1.dom() =~= m2.dom());
            assert(m1 =~= m2);
        }
    }

    /// A configuration whose merged table is already built.
    pub fn new(all: WindowConfig, windows: Vec<LabeledWindowConfig>) -> (r: DecorumConfig)
        ensures
            r@.all == all@,
            r@.windows == windows@.map_values(|w: LabeledWindowConfig| w@),
            r@.merged == merged_spec(all@, windows@.map_values(|w: LabeledWindowConfig| w@)),
    {
        let mut config = DecorumConfig { all, windows, merged: Vec::new() };
        config.merge_configurations();
        config
    }

    /// The merged configuration for one window, if the configuration
    /// mentions its label at all.
    pub fn get_window_config(&self, label: &String) -> (r: Option<&WindowConfig>)
        ensures
            r matches Option::Some(c) ==> self@.merged.dom().contains(label@) && c@
                == self@.merged[label@],
            r is None ==> !self@.merged.dom().contains(label@),
    {
        let mut i: usize = 0;
        while i < self.merged.len()
            invariant
                i <= self.merged@.len(),
                forall|j: int| 0 <= j < i ==> self.merged@[j].label@ != label@,
            decreases self.merged@.len() - i,
        {
            if self.merged[i].label.eq(label) {
                proof {
                    lemma_cfg_lookup_found(self.merged@, i as int);
                }
                return Option::Some(&self.merged[i].config);
            }
            i = i + 1;
        }
        proof {
            lemma_cfg_lookup_absent(self.merged@, label@);
        }
        Option::None
    }
}

impl Default for DecorumConfig {
    fn default() -> (r: Self)
        ensures
            r@.all == default_window_config_view(),
            r@.windows == Seq::<LabeledWindowConfigView>::empty(),
            r@.merged == merged_spec(
                default_window_config_view(),
                Seq::<LabeledWindowConfigView>::empty(),
            ),
    {
        let windows: Vec<LabeledWindowConfig> = Vec::new();
        proof {
            assert(windows@.map_values(|w: LabeledWindowConfig| w@) =~= Seq::<
                LabeledWindowConfigView,
            >::empty());
        }
        DecorumConfig::new(WindowConfig::default(), windows)
    }
}

} // verus!
