//! The camera settings tree: a recursive, polymorphic value tree describing
//! the device's configuration and status, with conversion from the raw widget
//! tree the device reports and single-level lookup by name.
//!
//! A full tree is rebuilt from scratch on every read-back; the tree itself is
//! never mutated in place. Pending edits live out of band in a
//! [`crate::state::ModifiedSet`].

use vstd::prelude::*;

use crate::error::{ConfigError, FieldKind};

verus! {

// ------------------------------------------------------------------
// The raw widget tree, as handed over by the device backend
// ------------------------------------------------------------------

/// A node of the externally supplied widget tree, reduced to plain values.
/// Every attribute that the backend may fail to deliver is an `Option`;
/// conversion demands the required ones.
#[derive(Debug)]
pub struct RawWidget {
    pub id: Option<i32>,
    pub name: Option<String>,
    pub label: Option<String>,
    pub readonly: Option<bool>,
    pub kind: RawKind,
}

/// The type-specific part of a raw widget.
///
/// Range endpoints, the range step and the range value are fixed-point
/// numbers: the embedding of the device's floating-point values into integers
/// is the caller's concern and never interpreted here.
#[derive(Debug)]
pub enum RawKind {
    Group { children: Vec<RawWidget> },
    Text { value: Option<String> },
    Range { value: Option<i64>, min: Option<i64>, max: Option<i64>, step: Option<i64> },
    /// `None` means the device reports the toggle as indeterminate.
    Toggle { value: Option<bool> },
    Radio { choices: Vec<String>, current: Option<String> },
    Date { timestamp: Option<i32> },
    Button,
}

/// Mathematical image of a [`RawWidget`].
pub struct RawView {
    pub id: Option<int>,
    pub name: Option<Seq<char>>,
    pub label: Option<Seq<char>>,
    pub readonly: Option<bool>,
    pub kind: RawKindView,
}

/// Mathematical image of a [`RawKind`].
pub enum RawKindView {
    Group { children: Seq<RawView> },
    Text { value: Option<Seq<char>> },
    Range { value: Option<int>, min: Option<int>, max: Option<int>, step: Option<int> },
    Toggle { value: Option<bool> },
    Radio { choices: Seq<Seq<char>>, current: Option<Seq<char>> },
    Date { timestamp: Option<int> },
    Button,
}

pub open spec fn opt_str_view(o: Option<String>) -> Option<Seq<char>> {
    match o {
        Some(s) => Some(s@),
        None => None,
    }
}

pub open spec fn str_seq_view(v: Seq<String>) -> Seq<Seq<char>> {
    Seq::new(v.len(), |i: int| v[i]@)
}

/// The mathematical image of a raw widget.
pub open spec fn raw_view(r: RawWidget) -> RawView
    decreases r,
{
    RawView {
        id: match r.id {
            Some(i) => Some(i as int),
            None => None,
        },
        name: opt_str_view(r.name),
        label: opt_str_view(r.label),
        readonly: r.readonly,
        kind: match r.kind {
            RawKind::Group { children } => RawKindView::Group { children: raw_views(children@) },
            RawKind::Text { value } => RawKindView::Text { value: opt_str_view(value) },
            RawKind::Range { value, min, max, step } => RawKindView::Range {
                value: match value {
                    Some(v) => Some(v as int),
                    None => None,
                },
                min: match min {
                    Some(v) => Some(v as int),
                    None => None,
                },
                max: match max {
                    Some(v) => Some(v as int),
                    None => None,
                },
                step: match step {
                    Some(v) => Some(v as int),
                    None => None,
                },
            },
            RawKind::Toggle { value } => RawKindView::Toggle { value },
            RawKind::Radio { choices, current } => RawKindView::Radio {
                choices: str_seq_view(choices@),
                current: opt_str_view(current),
            },
            RawKind::Date { timestamp } => RawKindView::Date {
                timestamp: match timestamp {
                    Some(t) => Some(t as int),
                    None => None,
                },
            },
            RawKind::Button => RawKindView::Button,
        },
    }
}

/// The mathematical image of a sequence of raw widgets, in order.
pub open spec fn raw_views(s: Seq<RawWidget>) -> Seq<RawView>
    decreases s,
{
    if s.len() == 0 {
        Seq::empty()
    } else {
        raw_views(s.drop_last()).push(raw_view(s.last()))
    }
}

// ------------------------------------------------------------------
// The settings tree proper
// ------------------------------------------------------------------

/// The selection of a radio widget.
#[derive(Debug, Clone, PartialEq, Eq)]
pub enum RadioChoice {
    /// A choice that is inside the available choices.
    Indexed(usize),
    /// The camera decided to return something else than the allowed choices.
    Other(String),
}

/// The type-specific payload of a settings node. Only a `Group` has children.
#[derive(Debug, PartialEq)]
pub enum StaticWidget {
    Group {
        /// The children, in strictly increasing id order.
        children: Vec<CameraSettings>,
        /// Name-to-id index over `children`; when siblings share a name, the
        /// entry of the one with the largest id wins.
        id_by_names: Vec<(String, i32)>,
    },
    Text(String),
    Range { value: i64, min: i64, max: i64, step: i64 },
    Toggle { undefined: bool, value: bool },
    Radio { choices: Vec<String>, choice: RadioChoice },
    Date { timestamp: i32 },
    Button,
}

/// One node of the settings tree.
#[derive(Debug, PartialEq)]
pub struct CameraSettings {
    pub id: i32,
    pub name: String,
    pub label: String,
    pub widget: StaticWidget,
    pub readonly: bool,
}

/// Mathematical image of a [`RadioChoice`].
pub enum ChoiceView {
    Indexed(int),
    Other(Seq<char>),
}

/// Mathematical image of a [`StaticWidget`]. The name index is derived data
/// and has no image of its own.
pub enum WidgetView {
    Group { children: Seq<SettingView> },
    Text(Seq<char>),
    Range { value: int, min: int, max: int, step: int },
    Toggle { undefined: bool, value: bool },
    Radio { choices: Seq<Seq<char>>, choice: ChoiceView },
    Date { timestamp: int },
    Button,
}

/// Mathematical image of a [`CameraSettings`] node.
pub struct SettingView {
    pub id: int,
    pub name: Seq<char>,
    pub label: Seq<char>,
    pub widget: WidgetView,
    pub readonly: bool,
}

/// The mathematical image of a settings node.
pub open spec fn setting_view(s: CameraSettings) -> SettingView
    decreases s,
{
    SettingView {
        id: s.id as int,
        name: s.name@,
        label: s.label@,
        readonly: s.readonly,
        widget: match s.widget {
            StaticWidget::Group { children, .. } => WidgetView::Group {
                children: setting_views(children@),
            },
            StaticWidget::Text(t) => WidgetView::Text(t@),
            StaticWidget::Range { value, min, max, step } => WidgetView::Range {
                value: value as int,
                min: min as int,
                max: max as int,
                step: step as int,
            },
            StaticWidget::Toggle { undefined, value } => WidgetView::Toggle { undefined, value },
            StaticWidget::Radio { choices, choice } => WidgetView::Radio {
                choices: str_seq_view(choices@),
                choice: match choice {
                    RadioChoice::Indexed(i) => ChoiceView::Indexed(i as int),
                    RadioChoice::Other(s) => ChoiceView::Other(s@),
                },
            },
            StaticWidget::Date { timestamp } => WidgetView::Date { timestamp: timestamp as int },
            StaticWidget::Button => WidgetView::Button,
        },
    }
}

/// The mathematical image of a sequence of settings nodes, in order.
pub open spec fn setting_views(s: Seq<CameraSettings>) -> Seq<SettingView>
    decreases s,
{
    if s.len() == 0 {
        Seq::empty()
    } else {
        setting_views(s.drop_last()).push(setting_view(s.last()))
    }
}

// ------------------------------------------------------------------
// Well-formedness
// ------------------------------------------------------------------

/// Sibling ids are strictly increasing (hence unique among siblings).
pub open spec fn sorted_by_id(s: Seq<CameraSettings>) -> bool {
    forall|i: int, j: int| 0 <= i < j < s.len() ==> s[i].id < s[j].id
}

/// The last sibling carrying `name`, if any. "Last" in id order is the
/// sibling with the largest id; when the device repeats a name, that one wins.
pub open spec fn lookup_child(s: Seq<CameraSettings>, name: Seq<char>) -> Option<CameraSettings>
    decreases s,
{
    if s.len() == 0 {
        None
    } else if s.last().name@ == name {
        Some(s.last())
    } else {
        lookup_child(s.drop_last(), name)
    }
}

/// Every well-formedness obligation of every node in the sequence.
pub open spec fn wf_children(s: Seq<CameraSettings>) -> bool
    decreases s,
{
    if s.len() == 0 {
        true
    } else {
        wf_children(s.drop_last()) && s.last().wf()
    }
}

/// The name index holds exactly one entry per distinct sibling name and each
/// entry resolves to the last sibling carrying that name.
pub open spec fn index_wf(children: Seq<CameraSettings>, index: Seq<(String, i32)>) -> bool {
    &&& forall|k: int|
        0 <= k < index.len() ==> {
            &&& #[trigger] lookup_child(children, index[k].0@) matches Some(c)
            &&& lookup_child(children, index[k].0@)->Some_0.id == index[k].1
        }
    &&& forall|k1: int, k2: int| 0 <= k1 < k2 < index.len() ==> index[k1].0@ != index[k2].0@
    &&& forall|j: int|
        0 <= j < children.len() ==> name_in_index(index, #[trigger] children[j].name@)
}

/// Whether `name` occurs in the name index.
pub open spec fn name_in_index(index: Seq<(String, i32)>, name: Seq<char>) -> bool {
    exists|k: int| 0 <= k < index.len() && index[k].0@ == name
}

impl CameraSettings {
    /// The internal invariant of a settings node: sibling ids strictly
    /// increase, the name index mirrors the children, a range value sits
    /// inside its bounds with a positive step, and an indexed radio selection
    /// is inside its choices.
    pub open spec fn wf(self) -> bool
        decreases self,
    {
        match self.widget {
            StaticWidget::Group { children, id_by_names } => {
                &&& sorted_by_id(children@)
                &&& wf_children(children@)
                &&& index_wf(children@, id_by_names@)
            },
            StaticWidget::Range { value, min, max, step } => min <= value <= max && step > 0,
            StaticWidget::Radio { choices, choice } => match choice {
                RadioChoice::Indexed(i) => i < choices@.len(),
                RadioChoice::Other(_) => true,
            },
            _ => true,
        }
    }

    /// Single-level lookup among the immediate children; `None` on every
    /// payload but `Group`.
    pub open spec fn get_child_spec(self, name: Seq<char>) -> Option<CameraSettings> {
        match self.widget {
            StaticWidget::Group { children, .. } => lookup_child(children@, name),
            _ => None,
        }
    }
}

/// The looked-up child is an element of the sequence.
pub proof fn lemma_lookup_child_is_element(s: Seq<CameraSettings>, name: Seq<char>)
    requires
        lookup_child(s, name) matches Some(c),
    ensures
        exists|i: int|
            0 <= i < s.len() && s[i] == lookup_child(s, name)->Some_0 && s[i].name@ == name,
    decreases s.len(),
{
    if s.last().name@ == name {
        assert(s[s.len() - 1] == s.last());
    } else {
        lemma_lookup_child_is_element(s.drop_last(), name);
        let i = choose|i: int|
            0 <= i < s.drop_last().len() && s.drop_last()[i] == lookup_child(
                s.drop_last(),
                name,
            )->Some_0 && s.drop_last()[i].name@ == name;
        assert(s[i] == s.drop_last()[i]);
    }
}

impl CameraSettings {
    /// Single-level lookup by name: `Some` exactly when this node is a group
    /// with a child of that name, and then the last such child (ties among
    /// repeated names go to the largest id).
    pub fn get_child<'a>(&'a self, name: &str) -> (r: Option<&'a CameraSettings>)
        requires
            self.wf(),
        ensures
            match r {
                Some(c) => self.get_child_spec(name@) == Some(*c),
                None => self.get_child_spec(name@) is None,
            },
    {
        let owned: String = name.to_owned();
        if let StaticWidget::Group { children, id_by_names } = &self.widget {
            let ghost gchildren = children@;
            let mut k: usize = 0;
            let mut found: Option<i32> = None;
            while k < id_by_names.len()
                invariant
                    0 <= k <= id_by_names@.len(),
                    index_wf(gchildren, id_by_names@),
                    children@ == gchildren,
                    owned@ == name@,
                    match found {
                        Some(id) => {
                            &&& lookup_child(gchildren, name@) matches Some(c)
                            &&& lookup_child(gchildren, name@)->Some_0.id == id
                        },
                        None => forall|k2: int|
                            0 <= k2 < k ==> id_by_names@[k2].0@ != name@,
                    },
                decreases id_by_names@.len() - k,
            {
                if found.is_none() && id_by_names[k].0 == owned {
                    found = Some(id_by_names[k].1);
                }
                k += 1;
            }
            match found {
                None => {
                    proof {
                        if lookup_child(gchildren, name@) is Some {
                            lemma_lookup_child_is_element(gchildren, name@);
                            let i = choose|i: int|
                                0 <= i < gchildren.len() && gchildren[i] == lookup_child(
                                    gchildren,
                                    name@,
                                )->Some_0 && gchildren[i].name@ == name@;
                            assert(name_in_index(id_by_names@, gchildren[i].name@));
                        }
                    }
                    None
                },
                Some(id) => {
                    proof {
                        lemma_lookup_child_is_element(gchildren, name@);
                    }
                    let ghost target = lookup_child(gchildren, name@)->Some_0;
                    let mut j: usize = 0;
                    while j < children.len()
                        invariant
                            0 <= j <= children@.len(),
                            children@ == gchildren,
                            self.get_child_spec(name@) == lookup_child(gchildren, name@),
                            lookup_child(gchildren, name@) == Some(target),
                            target.id == id,
                            exists|i: int|
                                j <= i < gchildren.len() && gchildren[i] == target,
                            sorted_by_id(gchildren),
                        decreases children@.len() - j,
                    {
                        if children[j].id == id {
                            proof {
                                let i = choose|i: int|
                                    j <= i < gchildren.len() && gchildren[i] == target;
                                if i != j {
                                    assert(gchildren[j as int].id < gchildren[i].id);
                                    assert(false);
                                }
                                assert(gchildren[j as int] == target);
                            }
                            return Some(&children[j]);
                        }
                        proof {
                            let i = choose|i: int|
                                j <= i < gchildren.len() && gchildren[i] == target;
                            assert(i != j);
                        }
                        j += 1;
                    }
                    proof {
                        assert(false);
                    }
                    None
                },
            }
        } else {
            None
        }
    }
}

// ------------------------------------------------------------------
// Conversion helpers: ordered insertion by id
// ------------------------------------------------------------------

/// Whether some element of `s` carries `id`.
pub open spec fn id_present(s: Seq<CameraSettings>, id: i32) -> bool {
    exists|j: int| 0 <= j < s.len() && s[j].id == id
}

/// Insertion into an id-ordered sequence; an element with the same id is
/// replaced (the later write wins, mirroring rebuilding an id-keyed map).
pub open spec fn insert_by_id_spec(s: Seq<SettingView>, c: SettingView) -> Seq<SettingView>
    decreases s,
{
    if s.len() == 0 {
        seq![c]
    } else if s.last().id < c.id {
        s.push(c)
    } else if s.last().id == c.id {
        s.drop_last().push(c)
    } else {
        insert_by_id_spec(s.drop_last(), c).push(s.last())
    }
}

/// The image of a sequence has the same length.
pub proof fn lemma_setting_views_len(s: Seq<CameraSettings>)
    ensures
        setting_views(s).len() == s.len(),
    decreases s.len(),
{
    if s.len() > 0 {
        lemma_setting_views_len(s.drop_last());
    }
}

/// The image commutes with `push`.
pub proof fn lemma_setting_views_push(s: Seq<CameraSettings>, c: CameraSettings)
    ensures
        setting_views(s.push(c)) == setting_views(s).push(setting_view(c)),
{
    assert(s.push(c).drop_last() =~= s);
    assert(s.push(c).last() == c);
}

/// The image commutes with `drop_last`.
pub proof fn lemma_setting_views_drop_last(s: Seq<CameraSettings>)
    requires
        s.len() > 0,
    ensures
        setting_views(s).drop_last() == setting_views(s.drop_last()),
        setting_views(s).last() == setting_view(s.last()),
{
    lemma_setting_views_len(s.drop_last());
    assert(setting_views(s).drop_last() =~= setting_views(s.drop_last()));
}

/// `wf_children` is the conjunction of `wf` over the elements.
pub proof fn lemma_wf_children_iff(s: Seq<CameraSettings>)
    ensures
        wf_children(s) <==> (forall|i: int| 0 <= i < s.len() ==> s[i].wf()),
    decreases s.len(),
{
    if s.len() > 0 {
        lemma_wf_children_iff(s.drop_last());
        assert(forall|i: int| 0 <= i < s.len() - 1 ==> s.drop_last()[i] == s[i]);
        assert(s.last() == s[s.len() - 1]);
        if forall|i: int| 0 <= i < s.len() ==> s[i].wf() {
            assert(forall|i: int| 0 <= i < s.drop_last().len() ==> s.drop_last()[i].wf());
        }
    }
}

/// Lookup distributes over `push`.
pub proof fn lemma_lookup_child_push(s: Seq<CameraSettings>, c: CameraSettings, m: Seq<char>)
    ensures
        lookup_child(s.push(c), m) == if c.name@ == m {
            Some(c)
        } else {
            lookup_child(s, m)
        },
{
    assert(s.push(c).drop_last() =~= s);
    assert(s.push(c).last() == c);
}

/// Ordered insertion, replacing on an equal id. Keeps the sequence strictly
/// ordered, keeps every node's invariant, and introduces no id but the new
/// node's own.
fn insert_by_id(v: &mut Vec<CameraSettings>, c: CameraSettings)
    requires
        sorted_by_id(old(v)@),
        wf_children(old(v)@),
        c.wf(),
    ensures
        sorted_by_id(final(v)@),
        wf_children(final(v)@),
        setting_views(final(v)@) == insert_by_id_spec(setting_views(old(v)@), setting_view(c)),
        forall|i: int|
            0 <= i < final(v)@.len() ==> final(v)@[i].id == c.id || id_present(
                old(v)@,
                final(v)@[i].id,
            ),
    decreases old(v)@.len(),
{
    proof {
        lemma_wf_children_iff(v@);
        lemma_setting_views_len(v@);
    }
    if v.len() == 0 {
        let ghost cv = setting_view(c);
        let ghost s0 = v@;
        v.push(c);
        proof {
            lemma_setting_views_push(s0, c);
            assert(setting_views(s0) =~= Seq::<SettingView>::empty());
            assert(setting_views(v@) =~= seq![cv]);
            lemma_wf_children_iff(v@);
        }
        return ;
    }
    let last_id = v[v.len() - 1].id;
    proof {
        assert(v@[v@.len() - 1] == v@.last());
    }
    if last_id < c.id {
        let ghost s0 = v@;
        v.push(c);
        proof {
            lemma_setting_views_push(s0, c);
            lemma_setting_views_drop_last(s0);
            lemma_wf_children_iff(v@);
            assert(forall|i: int| 0 <= i < s0.len() ==> s0[i].id < c.id || s0[i].id == s0.last().id
                || s0[i].id < s0.last().id);
        }
    } else if last_id == c.id {
        let ghost s0 = v@;
        let _replaced = v.pop();
        let ghost s1 = v@;
        v.push(c);
        proof {
            assert(s1 =~= s0.drop_last());
            lemma_setting_views_push(s1, c);
            lemma_setting_views_drop_last(s0);
            lemma_wf_children_iff(s0);
            lemma_wf_children_iff(v@);
            assert(forall|i: int| 0 <= i < s1.len() ==> s1[i] == s0[i]);
        }
    } else {
        let ghost s0 = v@;
        let popped = v.pop();
        if popped.is_none() {
            proof {
                assert(false);
            }
            return ;
        }
        let x = popped.unwrap();
        proof {
            assert(v@ =~= s0.drop_last());
            assert(x == s0.last());
            lemma_wf_children_iff(s0);
            lemma_wf_children_iff(v@);
        }
        insert_by_id(v, c);
        let ghost s2 = v@;
        v.push(x);
        proof {
            lemma_setting_views_push(s2, x);
            lemma_setting_views_drop_last(s0);
            lemma_wf_children_iff(s2);
            lemma_wf_children_iff(v@);
            // every id in the recursion's result sits below the popped tail
            assert forall|i: int| 0 <= i < s2.len() implies s2[i].id < x.id by {
                if s2[i].id != c.id {
                    let j = choose|j: int|
                        0 <= j < s0.drop_last().len() && s0.drop_last()[j].id == s2[i].id;
                    assert(s0[j] == s0.drop_last()[j]);
                    assert(s0[j].id < s0.last().id);
                }
            }
            assert(sorted_by_id(v@));
            assert forall|i: int|
                0 <= i < v@.len() implies v@[i].id == c.id || id_present(s0, v@[i].id) by {
                if i < s2.len() {
                    if s2[i].id != c.id {
                        let j = choose|j: int|
                            0 <= j < s0.drop_last().len() && s0.drop_last()[j].id == s2[i].id;
                        assert(s0[j] == s0.drop_last()[j]);
                    }
                } else {
                    assert(v@[i] == x);
                    assert(s0[s0.len() - 1].id == x.id);
                }
            }
        }
    }
}

// ------------------------------------------------------------------
// Conversion from the raw tree, at the specification level
// ------------------------------------------------------------------

/// `i` is the position of the first choice equal to `cur`.
pub open spec fn is_first_choice(choices: Seq<Seq<char>>, cur: Seq<char>, i: int) -> bool {
    &&& 0 <= i < choices.len()
    &&& choices[i] == cur
    &&& forall|j: int| 0 <= j < i ==> choices[j] != cur
}

/// The selection recorded for a device-reported current value: the first
/// matching choice's index, or the stray value itself when no choice matches.
pub open spec fn choice_of_spec(choices: Seq<Seq<char>>, cur: Seq<char>) -> ChoiceView {
    if exists|i: int| is_first_choice(choices, cur, i) {
        ChoiceView::Indexed(choose|i: int| is_first_choice(choices, cur, i))
    } else {
        ChoiceView::Other(cur)
    }
}

/// What conversion makes of one raw widget: the node, or the first failure,
/// depth first. Demanded attributes: id, name, label, the read-only flag, and
/// the payload's own value; a range must also come with consistent bounds
/// (`min <= value <= max`, `step > 0`); an indeterminate toggle is not a
/// failure but an undefined toggle.
pub open spec fn parse_spec(r: RawView) -> Result<SettingView, ConfigError>
    decreases r,
{
    if r.id is None {
        Err(ConfigError::UnreadableField(FieldKind::Id))
    } else if r.name is None {
        Err(ConfigError::UnreadableField(FieldKind::Name))
    } else if r.label is None {
        Err(ConfigError::UnreadableField(FieldKind::Label))
    } else if r.readonly is None {
        Err(ConfigError::UnreadableField(FieldKind::Readonly))
    } else {
        match parse_kind_spec(r.kind) {
            Ok(w) => Ok(
                SettingView {
                    id: r.id->Some_0,
                    name: r.name->Some_0,
                    label: r.label->Some_0,
                    readonly: r.readonly->Some_0,
                    widget: w,
                },
            ),
            Err(e) => Err(e),
        }
    }
}

/// What conversion makes of the type-specific part of a raw widget.
pub open spec fn parse_kind_spec(k: RawKindView) -> Result<WidgetView, ConfigError>
    decreases k,
{
    match k {
        RawKindView::Group { children } => match parse_children_spec(children) {
            Ok(cs) => Ok(WidgetView::Group { children: cs }),
            Err(e) => Err(e),
        },
        RawKindView::Text { value } => match value {
            Some(v) => Ok(WidgetView::Text(v)),
            None => Err(ConfigError::UnreadableField(FieldKind::Value)),
        },
        RawKindView::Range { value, min, max, step } => {
            if value is None {
                Err(ConfigError::UnreadableField(FieldKind::Value))
            } else if min is None || max is None || step is None {
                Err(ConfigError::UnreadableField(FieldKind::Bounds))
            } else {
                let v = value->Some_0;
                let mn = min->Some_0;
                let mx = max->Some_0;
                let st = step->Some_0;
                if mn > mx || st <= 0 || v < mn || v > mx {
                    Err(ConfigError::UnreadableField(FieldKind::Bounds))
                } else {
                    Ok(WidgetView::Range { value: v, min: mn, max: mx, step: st })
                }
            }
        },
        RawKindView::Toggle { value } => match value {
            Some(b) => Ok(WidgetView::Toggle { undefined: false, value: b }),
            None => Ok(WidgetView::Toggle { undefined: true, value: false }),
        },
        RawKindView::Radio { choices, current } => match current {
            Some(cur) => Ok(
                WidgetView::Radio { choices, choice: choice_of_spec(choices, cur) },
            ),
            None => Err(ConfigError::UnreadableField(FieldKind::Choice)),
        },
        RawKindView::Date { timestamp } => match timestamp {
            Some(t) => Ok(WidgetView::Date { timestamp: t }),
            None => Err(ConfigError::UnreadableField(FieldKind::Timestamp)),
        },
        RawKindView::Button => Ok(WidgetView::Button),
    }
}

/// What conversion makes of a group's children: each raw child in source
/// order, inserted into the id-ordered sequence; the first child failure,
/// in source order, fails the whole group.
pub open spec fn parse_children_spec(s: Seq<RawView>) -> Result<Seq<SettingView>, ConfigError>
    decreases s,
{
    if s.len() == 0 {
        Ok(Seq::empty())
    } else {
        match parse_children_spec(s.drop_last()) {
            Err(e) => Err(e),
            Ok(acc) => match parse_spec(s.last()) {
                Err(e) => Err(e),
                Ok(c) => Ok(insert_by_id_spec(acc, c)),
            },
        }
    }
}

/// The image of a raw sequence has the same length and elementwise images.
pub proof fn lemma_raw_views_props(s: Seq<RawWidget>)
    ensures
        raw_views(s).len() == s.len(),
        forall|i: int| 0 <= i < s.len() ==> raw_views(s)[i] == raw_view(s[i]),
    decreases s.len(),
{
    if s.len() > 0 {
        lemma_raw_views_props(s.drop_last());
        assert(forall|i: int| 0 <= i < s.len() - 1 ==> s.drop_last()[i] == s[i]);
        assert(s.last() == s[s.len() - 1]);
    }
}

/// One step of [`parse_children_spec`], spelled out on a `push`.
pub proof fn lemma_parse_children_step(s: Seq<RawView>, x: RawView)
    ensures
        parse_children_spec(s.push(x)) == match parse_children_spec(s) {
            Err(e) => Err(e),
            Ok(acc) => match parse_spec(x) {
                Err(e) => Err(e),
                Ok(c) => Ok(insert_by_id_spec(acc, c)),
            },
        },
{
    assert(s.push(x).drop_last() =~= s);
    assert(s.push(x).last() == x);
}

/// A failing prefix decides the whole sequence.
pub proof fn lemma_parse_children_err_prefix(s: Seq<RawView>, k: int)
    requires
        0 <= k <= s.len(),
        parse_children_spec(s.take(k)) is Err,
    ensures
        parse_children_spec(s) == parse_children_spec(s.take(k)),
    decreases s.len(),
{
    if k == s.len() {
        assert(s.take(k) =~= s);
    } else {
        assert(s.drop_last().take(k) =~= s.take(k));
        lemma_parse_children_err_prefix(s.drop_last(), k);
    }
}

// ------------------------------------------------------------------
// Conversion from the raw tree, executable
// ------------------------------------------------------------------

/// Owned copy of a choice list.
fn clone_strings(v: &Vec<String>) -> (r: Vec<String>)
    ensures
        str_seq_view(r@) == str_seq_view(v@),
{
    let mut r: Vec<String> = Vec::new();
    let mut i: usize = 0;
    while i < v.len()
        invariant
            0 <= i <= v@.len(),
            r@.len() == i,
            forall|j: int| 0 <= j < i ==> r@[j]@ == v@[j]@,
        decreases v@.len() - i,
    {
        r.push(v[i].clone());
        i += 1;
    }
    proof {
        assert(str_seq_view(r@) =~= str_seq_view(v@));
    }
    r
}

/// The selection for a device-reported current value: the first matching
/// choice's index, or the stray value itself.
fn find_choice(choices: &Vec<String>, cur: &String) -> (r: RadioChoice)
    ensures
        view_choice(r) == choice_of_spec(str_seq_view(choices@), cur@),
        r matches RadioChoice::Indexed(i) ==> i < choices@.len(),
{
    let ghost cv = str_seq_view(choices@);
    let mut i: usize = 0;
    while i < choices.len()
        invariant
            0 <= i <= choices@.len(),
            cv == str_seq_view(choices@),
            forall|j: int| 0 <= j < i ==> cv[j] != cur@,
        decreases choices@.len() - i,
    {
        if choices[i] == *cur {
            proof {
                assert(cv[i as int] == cur@);
                assert(is_first_choice(cv, cur@, i as int));
                let w = choose|w: int| is_first_choice(cv, cur@, w);
                if w < i {
                    assert(cv[w] != cur@);
                    assert(false);
                }
                if w > i {
                    assert(cv[i as int] != cur@);
                    assert(false);
                }
            }
            return RadioChoice::Indexed(i);
        }
        i += 1;
    }
    proof {
        if exists|w: int| is_first_choice(cv, cur@, w) {
            let w = choose|w: int| is_first_choice(cv, cur@, w);
            assert(cv[w] != cur@);
            assert(false);
        }
    }
    RadioChoice::Other(cur.clone())
}

/// Rebuilds the name-to-id index over an id-ordered child sequence; among
/// siblings sharing a name, the one found by [`lookup_child`] wins.
#[verifier::loop_isolation(false)]
fn build_name_index(children: &Vec<CameraSettings>) -> (r: Vec<(String, i32)>)
    ensures
        index_wf(children@, r@),
{
    let mut index: Vec<(String, i32)> = Vec::new();
    let mut j: usize = 0;
    while j < children.len()
        invariant
            0 <= j <= children@.len(),
            index_wf(children@.take(j as int), index@),
        decreases children@.len() - j,
    {
        let name = children[j].name.clone();
        let id = children[j].id;
        let ghost pre = children@.take(j as int);
        let ghost post = children@.take(j as int + 1);
        let ghost c = children@[j as int];
        proof {
            assert(post =~= pre.push(c));
        }
        let mut k: usize = 0;
        let mut pos: Option<usize> = None;
        while k < index.len()
            invariant
                0 <= k <= index@.len(),
                match pos {
                    Some(p) => p < k && index@[p as int].0@ == name@,
                    None => forall|k2: int| 0 <= k2 < k ==> index@[k2].0@ != name@,
                },
            decreases index@.len() - k,
        {
            if pos.is_none() && index[k].0 == name {
                pos = Some(k);
            }
            k += 1;
        }
        let ghost i0 = index@;
        match pos {
            Some(p) => {
                index.remove(p);
                index.insert(p, (name, id));
                proof {
                    assert(index@ =~= i0.update(p as int, (name, id)));
                    assert forall|k2: int| 0 <= k2 < index@.len() implies index@[k2].0@
                        == i0[k2].0@ by {}
                    assert forall|k2: int| 0 <= k2 < index@.len() implies {
                        &&& #[trigger] lookup_child(post, index@[k2].0@) matches Some(cc)
                        &&& lookup_child(post, index@[k2].0@)->Some_0.id == index@[k2].1
                    } by {
                        lemma_lookup_child_push(pre, c, index@[k2].0@);
                        if k2 != p {
                            assert(i0[k2].0@ != i0[p as int].0@);
                        }
                    }
                    assert forall|i: int|
                        0 <= i < post.len() implies name_in_index(
                        index@,
                        #[trigger] post[i].name@,
                    ) by {
                        if i < j {
                            assert(post[i] == pre[i]);
                            assert(name_in_index(i0, pre[i].name@));
                            let w = choose|w: int|
                                0 <= w < i0.len() && i0[w].0@ == pre[i].name@;
                            assert(index@[w].0@ == pre[i].name@);
                        } else {
                            assert(post[i] == c);
                            assert(index@[p as int].0@ == c.name@);
                        }
                    }
                }
            },
            None => {
                index.push((name, id));
                proof {
                    assert forall|k2: int| 0 <= k2 < index@.len() implies {
                        &&& #[trigger] lookup_child(post, index@[k2].0@) matches Some(cc)
                        &&& lookup_child(post, index@[k2].0@)->Some_0.id == index@[k2].1
                    } by {
                        lemma_lookup_child_push(pre, c, index@[k2].0@);
                        if k2 < i0.len() {
                            assert(index@[k2] == i0[k2]);
                            assert(i0[k2].0@ != name@);
                        } else {
                            assert(index@[k2] == (name, id));
                        }
                    }
                    assert forall|k1: int, k2: int|
                        0 <= k1 < k2 < index@.len() implies index@[k1].0@ != index@[k2].0@ by {
                        if k2 < i0.len() {
                        } else {
                            assert(index@[k1] == i0[k1]);
                            assert(i0[k1].0@ != name@);
                        }
                    }
                    assert forall|i: int|
                        0 <= i < post.len() implies name_in_index(
                        index@,
                        #[trigger] post[i].name@,
                    ) by {
                        if i < j {
                            assert(post[i] == pre[i]);
                            assert(name_in_index(i0, pre[i].name@));
                            let w = choose|w: int|
                                0 <= w < i0.len() && i0[w].0@ == pre[i].name@;
                            assert(index@[w].0@ == pre[i].name@);
                        } else {
                            assert(post[i] == c);
                            assert(index@[i0.len() as int].0@ == c.name@);
                        }
                    }
                }
            },
        }
        j += 1;
    }
    proof {
        assert(children@.take(children@.len() as int) =~= children@);
    }
    index
}

impl CameraSettings {
    /// Recursively converts an externally supplied raw widget tree into the
    /// settings model. Fails with the first unreadable required attribute,
    /// depth first; group children are taken in source order and indexed by
    /// id and by name, later entries winning on a repeated id or name.
    #[verifier::loop_isolation(false)]
    pub fn parse(raw: &RawWidget) -> (r: Result<CameraSettings, ConfigError>)
        ensures
            match r {
                Ok(s) => s.wf() && parse_spec(raw_view(*raw)) == Ok::<SettingView, ConfigError>(
                    setting_view(s),
                ),
                Err(e) => parse_spec(raw_view(*raw)) == Err::<SettingView, ConfigError>(e),
            },
        decreases *raw,
    {
        let id = match &raw.id {
            Some(i) => *i,
            None => {
                return Err(ConfigError::UnreadableField(FieldKind::Id));
            },
        };
        let name = match &raw.name {
            Some(s) => s.clone(),
            None => {
                return Err(ConfigError::UnreadableField(FieldKind::Name));
            },
        };
        let label = match &raw.label {
            Some(s) => s.clone(),
            None => {
                return Err(ConfigError::UnreadableField(FieldKind::Label));
            },
        };
        let readonly = match &raw.readonly {
            Some(b) => *b,
            None => {
                return Err(ConfigError::UnreadableField(FieldKind::Readonly));
            },
        };
        let widget = match &raw.kind {
            RawKind::Group { children } => {
                let ghost rv = raw_views(children@);
                proof {
                    lemma_raw_views_props(children@);
                }
                let mut parsed: Vec<CameraSettings> = Vec::new();
                let mut k: usize = 0;
                while k < children.len()
                    invariant
                        0 <= k <= children@.len(),
                        sorted_by_id(parsed@),
                        wf_children(parsed@),
                        parse_children_spec(rv.take(k as int)) == Ok::<
                            Seq<SettingView>,
                            ConfigError,
                        >(setting_views(parsed@)),
                    decreases children@.len() - k,
                {
                    proof {
                        assert(decreases_to!(*raw => children@[k as int]));
                    }
                    match Self::parse(&children[k]) {
                        Ok(c) => {
                            let ghost prev = setting_views(parsed@);
                            insert_by_id(&mut parsed, c);
                            proof {
                                lemma_parse_children_step(rv.take(k as int), rv[k as int]);
                                assert(rv.take(k as int + 1) =~= rv.take(k as int).push(
                                    rv[k as int],
                                ));
                            }
                        },
                        Err(e) => {
                            proof {
                                lemma_parse_children_step(rv.take(k as int), rv[k as int]);
                                assert(rv.take(k as int + 1) =~= rv.take(k as int).push(
                                    rv[k as int],
                                ));
                                lemma_parse_children_err_prefix(rv, k as int + 1);
                            }
                            return Err(e);
                        },
                    }
                    k += 1;
                }
                proof {
                    assert(rv.take(children@.len() as int) =~= rv);
                }
                let id_by_names = build_name_index(&parsed);
                StaticWidget::Group { children: parsed, id_by_names }
            },
            RawKind::Text { value } => match value {
                Some(s) => StaticWidget::Text(s.clone()),
                None => {
                    return Err(ConfigError::UnreadableField(FieldKind::Value));
                },
            },
            RawKind::Range { value, min, max, step } => {
                let v = match value {
                    Some(v) => *v,
                    None => {
                        return Err(ConfigError::UnreadableField(FieldKind::Value));
                    },
                };
                let mn = match min {
                    Some(v) => *v,
                    None => {
                        return Err(ConfigError::UnreadableField(FieldKind::Bounds));
                    },
                };
                let mx = match max {
                    Some(v) => *v,
                    None => {
                        return Err(ConfigError::UnreadableField(FieldKind::Bounds));
                    },
                };
                let st = match step {
                    Some(v) => *v,
                    None => {
                        return Err(ConfigError::UnreadableField(FieldKind::Bounds));
                    },
                };
                if mn > mx || st <= 0 || v < mn || v > mx {
                    return Err(ConfigError::UnreadableField(FieldKind::Bounds));
                }
                StaticWidget::Range { value: v, min: mn, max: mx, step: st }
            },
            RawKind::Toggle { value } => match value {
                Some(b) => StaticWidget::Toggle { undefined: false, value: *b },
                None => StaticWidget::Toggle { undefined: true, value: false },
            },
            RawKind::Radio { choices, current } => {
                let cur = match current {
                    Some(s) => s,
                    None => {
                        return Err(ConfigError::UnreadableField(FieldKind::Choice));
                    },
                };
                let choice = find_choice(choices, cur);
                StaticWidget::Radio { choices: clone_strings(choices), choice }
            },
            RawKind::Date { timestamp } => match timestamp {
                Some(t) => StaticWidget::Date { timestamp: *t },
                None => {
                    return Err(ConfigError::UnreadableField(FieldKind::Timestamp));
                },
            },
            RawKind::Button => StaticWidget::Button,
        };
        Ok(CameraSettings { id, name, label, widget, readonly })
    }
}

/// Conversion is a function of the raw tree alone: two structurally equal raw
/// trees convert to the same result, so re-reading an unchanged tree yields a
/// structurally equal settings tree, whatever the object identities were.
pub proof fn lemma_parse_deterministic(a: RawView, b: RawView)
    requires
        a == b,
    ensures
        parse_spec(a) == parse_spec(b),
{
}

/// `v` forced into `[lo, hi]`.
pub open spec fn clamp_spec(v: i64, lo: i64, hi: i64) -> i64 {
    if v < lo {
        lo
    } else if v > hi {
        hi
    } else {
        v
    }
}

impl CameraSettings {
    /// A copy of a range node carrying `new_value` clamped into the node's
    /// bounds; `None` on every payload but `Range`. The copy keeps the
    /// node's invariant, so an edited value never leaves the bounds.
    pub fn edit_range_value(&self, new_value: i64) -> (r: Option<CameraSettings>)
        requires
            self.wf(),
        ensures
            match self.widget {
                StaticWidget::Range { value, min, max, step } => {
                    &&& r matches Some(c)
                    &&& (r matches Some(c) ==> {
                        &&& c.id == self.id
                        &&& c.name == self.name
                        &&& c.label == self.label
                        &&& c.readonly == self.readonly
                        &&& c.widget == (StaticWidget::Range {
                            value: clamp_spec(new_value, min, max),
                            min,
                            max,
                            step,
                        })
                        &&& c.wf()
                    })
                },
                _ => r is None,
            },
    {
        match &self.widget {
            StaticWidget::Range { value, min, max, step } => {
                let clamped = if new_value < *min {
                    *min
                } else if new_value > *max {
                    *max
                } else {
                    new_value
                };
                Some(
                    CameraSettings {
                        id: self.id,
                        name: self.name.clone(),
                        label: self.label.clone(),
                        widget: StaticWidget::Range {
                            value: clamped,
                            min: *min,
                            max: *max,
                            step: *step,
                        },
                        readonly: self.readonly,
                    },
                )
            },
            _ => None,
        }
    }
}

/// The text shown for a radio selection: the selected choice when it is
/// indexed, otherwise the device-reported stray value itself.
pub fn display_radio_choice<'widget>(
    choices: &'widget Vec<String>,
    choice: &'widget RadioChoice,
) -> (r: &'widget str)
    requires
        choice matches RadioChoice::Indexed(i) ==> i < choices@.len(),
    ensures
        r@ == display_radio_choice_spec(str_seq_view(choices@), view_choice(*choice)),
{
    match choice {
        RadioChoice::Indexed(idx) => choices[*idx].as_str(),
        RadioChoice::Other(text) => text.as_str(),
    }
}

/// Mathematical image of one radio selection.
pub open spec fn view_choice(c: RadioChoice) -> ChoiceView {
    match c {
        RadioChoice::Indexed(i) => ChoiceView::Indexed(i as int),
        RadioChoice::Other(s) => ChoiceView::Other(s@),
    }
}

/// What [`display_radio_choice`] shows.
pub open spec fn display_radio_choice_spec(choices: Seq<Seq<char>>, choice: ChoiceView) -> Seq<
    char,
> {
    match choice {
        ChoiceView::Indexed(i) => choices[i],
        ChoiceView::Other(text) => text,
    }
}

} // verus!
