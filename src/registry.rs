use vstd::prelude::*;
use vstd::hash_map::StringHashMap;
use crate::icon::icon_view;
use crate::item::{ItemModel, TrayItem, opt_str, tooltip_view};
use crate::menu::{EntryModel, MenuNode, MenuRealization, realization_of};
use crate::event::{ItemUpdate, TrayEvent, event_key};

verus! {

/// The registry as plain values: items, the item-id index, realized menus
/// and UI handles, each keyed by bus address (the index by item id).
pub struct RegistryModel<H> {
    pub items: Map<Seq<char>, ItemModel>,
    pub index: Map<Seq<char>, Seq<char>>,
    pub menus: Map<Seq<char>, Seq<EntryModel>>,
    pub handles: Map<Seq<char>, H>,
}

/// What holds of every registry: menus and handles belong to live items,
/// and every index entry names a live item that carries that id.
pub open spec fn model_wf<H>(m: RegistryModel<H>) -> bool {
    &&& forall|k: Seq<char>| #[trigger] m.menus.contains_key(k) ==> m.items.contains_key(k)
    &&& forall|k: Seq<char>| #[trigger] m.handles.contains_key(k) ==> m.items.contains_key(k)
    &&& forall|id: Seq<char>| #[trigger] m.index.contains_key(id) ==> {
        &&& m.items.contains_key(m.index[id])
        &&& m.items[m.index[id]].id == id
    }
}

/// The index with the entry that points at `k` taken out, if there is one.
pub open spec fn index_without<H>(m: RegistryModel<H>, k: Seq<char>) -> Map<Seq<char>, Seq<char>> {
    if m.items.contains_key(k) && m.index.contains_key(m.items[k].id) && m.index[m.items[k].id] == k {
        m.index.remove(m.items[k].id)
    } else {
        m.index
    }
}

/// Realizes the menu `tree` for `k` unless `k` is unknown or already has one.
pub open spec fn model_build<H>(m: RegistryModel<H>, k: Seq<char>, tree: Seq<MenuNode>) -> RegistryModel<H> {
    if m.items.contains_key(k) && !m.menus.contains_key(k) {
        RegistryModel { menus: m.menus.insert(k, realization_of(k, tree)), ..m }
    } else {
        m
    }
}

/// Stores `item` under `k`, overwriting what was there; the index maps the
/// item's id to `k`; a menu tree that came along is realized.
pub open spec fn model_add<H>(
    m: RegistryModel<H>,
    k: Seq<char>,
    item: ItemModel,
    tree: Option<Seq<MenuNode>>,
) -> RegistryModel<H> {
    let stored = RegistryModel {
        items: m.items.insert(k, item),
        index: index_without(m, k).insert(item.id, k),
        ..m
    };
    match tree {
        Some(t) => model_build(stored, k, t),
        None => stored,
    }
}

/// The item `i` with one update applied; a menu tree leaves it as it is.
pub open spec fn updated_item(i: ItemModel, u: ItemUpdate) -> ItemModel {
    match u {
        ItemUpdate::Icon(icon) => ItemModel { icon: icon_view(icon), ..i },
        ItemUpdate::Title(t) => ItemModel { title: opt_str(t), ..i },
        ItemUpdate::Tooltip(t) => ItemModel { tooltip: tooltip_view(t), ..i },
        _ => i,
    }
}

/// Applies an update to the item at `k`; nothing happens for an unknown key.
pub open spec fn model_update<H>(m: RegistryModel<H>, k: Seq<char>, u: ItemUpdate) -> RegistryModel<H> {
    if !m.items.contains_key(k) {
        m
    } else {
        match u {
            ItemUpdate::Menu(tree) => model_build(m, k, tree@),
            _ => RegistryModel { items: m.items.insert(k, updated_item(m.items[k], u)), ..m },
        }
    }
}

/// Purges `k` from the items, the index, the menus and the handles.
pub open spec fn model_remove<H>(m: RegistryModel<H>, k: Seq<char>) -> RegistryModel<H> {
    RegistryModel {
        items: m.items.remove(k),
        index: index_without(m, k),
        menus: m.menus.remove(k),
        handles: m.handles.remove(k),
    }
}

/// The view of an optional menu tree.
pub open spec fn tree_view(t: Option<Vec<MenuNode>>) -> Option<Seq<MenuNode>> {
    match t {
        Some(v) => Some(v@),
        None => None,
    }
}

/// The registry after one event.
pub open spec fn model_apply<H>(m: RegistryModel<H>, e: TrayEvent) -> RegistryModel<H> {
    match e {
        TrayEvent::Add(k, item, tree) => model_add(m, k@, item@, tree_view(tree)),
        TrayEvent::Update(k, u) => model_update(m, k@, u),
        TrayEvent::Remove(k) => model_remove(m, k@),
    }
}

/// The registry after a sequence of events, applied in order.
pub open spec fn model_replay<H>(m: RegistryModel<H>, events: Seq<TrayEvent>) -> RegistryModel<H>
    decreases events.len(),
{
    if events.len() == 0 {
        m
    } else {
        model_apply(model_replay(m, events.subrange(0, events.len() - 1)), events[events.len() - 1])
    }
}

/// The mirror of the tray: items keyed by bus address, the index from
/// item id to bus address, the realized menus and the UI handles.
#[verifier::reject_recursive_types(H)]
pub struct TrayRegistry<H> {
    items: StringHashMap<TrayItem>,
    index: StringHashMap<String>,
    menus: StringHashMap<MenuRealization>,
    handles: StringHashMap<H>,
}

impl<H> View for TrayRegistry<H> {
    type V = RegistryModel<H>;

    closed spec fn view(&self) -> RegistryModel<H> {
        RegistryModel {
            items: self.items@.map_values(|i: TrayItem| i@),
            index: self.index@.map_values(|s: String| s@),
            menus: self.menus@.map_values(|r: MenuRealization| r@),
            handles: self.handles@,
        }
    }
}

impl<H> TrayRegistry<H> {
    /// The registry's invariant: see `model_wf`.
    pub open spec fn wf(&self) -> bool {
        model_wf(self@)
    }

    /// An empty registry.
    pub fn new() -> (r: Self)
        ensures
            r.wf(),
            r@.items == Map::<Seq<char>, ItemModel>::empty(),
            r@.index == Map::<Seq<char>, Seq<char>>::empty(),
            r@.menus == Map::<Seq<char>, Seq<EntryModel>>::empty(),
            r@.handles == Map::<Seq<char>, H>::empty(),
    {
        let r = TrayRegistry {
            items: StringHashMap::new(),
            index: StringHashMap::new(),
            menus: StringHashMap::new(),
            handles: StringHashMap::new(),
        };
        assert(r@.items =~= Map::<Seq<char>, ItemModel>::empty());
        assert(r@.index =~= Map::<Seq<char>, Seq<char>>::empty());
        assert(r@.menus =~= Map::<Seq<char>, Seq<EntryModel>>::empty());
        r
    }

    /// The bus address that the item id `item_id` was last added under,
    /// while that item is live.
    pub fn get_service_key_for_item(&self, item_id: &str) -> (r: Option<String>)
        ensures
            opt_str(r) == (if self@.index.contains_key(item_id@) {
                Some(self@.index[item_id@])
            } else {
                None
            }),
    {
        match self.index.get(item_id) {
            Some(k) => Some(k.clone()),
            None => None,
        }
    }

    /// The item stored under `service_key`.
    pub fn get_item(&self, service_key: &str) -> (r: Option<&TrayItem>)
        ensures
            match r {
                Some(i) => self@.items.contains_key(service_key@) && i@ == self@.items[service_key@],
                None => !self@.items.contains_key(service_key@),
            },
    {
        self.items.get(service_key)
    }

    /// The realized menu of the item at `service_key`.
    pub fn get_menu_for_service_key(&self, service_key: &str) -> (r: Option<&MenuRealization>)
        ensures
            match r {
                Some(m) => self@.menus.contains_key(service_key@) && m@ == self@.menus[service_key@],
                None => !self@.menus.contains_key(service_key@),
            },
    {
        self.menus.get(service_key)
    }

    /// The UI handle attached to the item at `service_key`.
    pub fn get_handle(&self, service_key: &str) -> (r: Option<&H>)
        ensures
            match r {
                Some(h) => self@.handles.contains_key(service_key@) && *h == self@.handles[service_key@],
                None => !self@.handles.contains_key(service_key@),
            },
    {
        self.handles.get(service_key)
    }

    /// Builds the menu of the item at `service_key` from `tree`, unless the
    /// item is unknown or its menu was already built: the first tree wins.
    /// Returns whether a menu was built.
    pub fn ensure_built(&mut self, service_key: &String, tree: &Vec<MenuNode>) -> (r: bool)
        requires
            old(self).wf(),
        ensures
            final(self).wf(),
            final(self)@ == model_build(old(self)@, service_key@, tree@),
            r == (old(self)@.items.contains_key(service_key@) && !old(self)@.menus.contains_key(
                service_key@,
            )),
    {
        if !self.items.contains_key(service_key.as_str()) || self.menus.contains_key(service_key.as_str()) {
            return false;
        }
        let realization = MenuRealization::build(service_key, tree);
        self.menus.insert(service_key.clone(), realization);
        assert(self@.menus =~= old(self)@.menus.insert(service_key@, realization_of(service_key@, tree@)));
        assert(self@.items =~= old(self)@.items);
        assert(self@.index =~= old(self)@.index);
        assert(self@.handles == old(self)@.handles);
        true
    }

    /// Stores `item` under `service_key`, overwriting the item that was
    /// there, and maps the item's id to `service_key` (the last add of an id
    /// wins). A menu tree that came with the item is realized unless the
    /// key already has a menu. Returns whether the key was new, that is,
    /// whether a UI handle must be created for it.
    pub fn add(&mut self, service_key: String, item: TrayItem, tree: Option<Vec<MenuNode>>) -> (r: bool)
        requires
            old(self).wf(),
        ensures
            final(self).wf(),
            final(self)@ == model_add(old(self)@, service_key@, item@, tree_view(tree)),
            r == !old(self)@.items.contains_key(service_key@),
    {
        let ghost m = self@;
        let is_new = !self.items.contains_key(service_key.as_str());
        let mut drop_id: Option<String> = None;
        match self.items.get(service_key.as_str()) {
            Some(previous) => {
                match self.index.get(previous.id.as_str()) {
                    Some(k) => {
                        if *k == service_key {
                            drop_id = Some(previous.id.clone());
                        }
                    },
                    None => {},
                }
            },
            None => {},
        }
        match drop_id {
            Some(id) => {
                self.index.remove(id.as_str());
            },
            None => {},
        }
        assert(self@.index =~= index_without(m, service_key@));
        let id = item.id.clone();
        let ghost item_view = item@;
        self.items.insert(service_key.clone(), item);
        self.index.insert(id, service_key.clone());
        let ghost stored = RegistryModel {
            items: m.items.insert(service_key@, item_view),
            index: index_without(m, service_key@).insert(item_view.id, service_key@),
            ..m
        };
        assert(self@.items =~= stored.items);
        assert(self@.index =~= stored.index);
        assert(self@.menus =~= stored.menus);
        assert(self@ == stored);
        assert(model_wf(stored)) by {
            assert forall|i: Seq<char>| #[trigger] stored.index.contains_key(i) implies {
                &&& stored.items.contains_key(stored.index[i])
                &&& stored.items[stored.index[i]].id == i
            } by {
                if i != item_view.id {
                    assert(m.index.contains_key(i));
                    assert(m.index[i] != service_key@);
                }
            }
        }
        match tree {
            Some(t) => {
                self.ensure_built(&service_key, &t);
            },
            None => {},
        }
        is_new
    }

    /// Applies an update to the item at `service_key`: a new icon, title
    /// or tooltip replaces the old one, a menu tree is realized unless the
    /// item already has a menu, and other changes leave the item as it is.
    /// An unknown key changes nothing. Returns whether the key was known.
    pub fn update(&mut self, service_key: &String, update: ItemUpdate) -> (r: bool)
        requires
            old(self).wf(),
        ensures
            final(self).wf(),
            final(self)@ == model_update(old(self)@, service_key@, update),
            r == old(self)@.items.contains_key(service_key@),
    {
        let current: TrayItem = match self.items.get(service_key.as_str()) {
            Some(i) => i.clone(),
            None => {
                return false;
            },
        };
        match update {
            ItemUpdate::Menu(tree) => {
                self.ensure_built(service_key, &tree);
            },
            ItemUpdate::Icon(icon) => {
                let mut changed = current;
                changed.icon = icon;
                self.replace_item(service_key, changed);
            },
            ItemUpdate::Title(title) => {
                let mut changed = current;
                changed.title = title;
                self.replace_item(service_key, changed);
            },
            ItemUpdate::Tooltip(tooltip) => {
                let mut changed = current;
                changed.tooltip = tooltip;
                self.replace_item(service_key, changed);
            },
            ItemUpdate::Other => {
                self.replace_item(service_key, current);
            },
        }
        true
    }

    fn replace_item(&mut self, service_key: &String, item: TrayItem)
        requires
            old(self).wf(),
            old(self)@.items.contains_key(service_key@),
            old(self)@.items[service_key@].id == item@.id,
        ensures
            final(self).wf(),
            final(self)@ == (RegistryModel { items: old(self)@.items.insert(service_key@, item@), ..old(self)@ }),
    {
        let ghost v = item@;
        self.items.insert(service_key.clone(), item);
        assert(self@.items =~= old(self)@.items.insert(service_key@, v));
        assert(self@.index =~= old(self)@.index);
        assert(self@.menus =~= old(self)@.menus);
    }

    /// Attaches the UI handle of the item at `service_key`, returning false
    /// and changing nothing when the key is unknown.
    pub fn attach_handle(&mut self, service_key: String, handle: H) -> (r: bool)
        requires
            old(self).wf(),
        ensures
            final(self).wf(),
            r == old(self)@.items.contains_key(service_key@),
            final(self)@ == (if r {
                RegistryModel { handles: old(self)@.handles.insert(service_key@, handle), ..old(self)@ }
            } else {
                old(self)@
            }),
    {
        if !self.items.contains_key(service_key.as_str()) {
            return false;
        }
        self.handles.insert(service_key, handle);
        assert(self@.items =~= old(self)@.items);
        assert(self@.index =~= old(self)@.index);
        assert(self@.menus =~= old(self)@.menus);
        true
    }
}

/// The UI work that one event asks of the presentation layer.
pub enum UiEffect<H> {
    /// A new item: create its handle and attach it.
    Create(String),
    /// A known item changed or was added again: redraw its handle.
    Refresh(String),
    /// An item left: tear down its handle, if it had one.
    TearDown(String, Option<H>),
    /// The event named an unknown item and changed nothing.
    Ignored(String),
}

/// The bus address that an effect is about.
pub open spec fn effect_key<H>(e: UiEffect<H>) -> Seq<char> {
    match e {
        UiEffect::Create(k) => k@,
        UiEffect::Refresh(k) => k@,
        UiEffect::TearDown(k, _) => k@,
        UiEffect::Ignored(k) => k@,
    }
}

impl<H: Clone> TrayRegistry<H> {
    /// Applies one event of the bus stream, in the order of arrival, and
    /// says what the presentation layer has to do about it.
    pub fn apply(&mut self, event: TrayEvent) -> (r: UiEffect<H>)
        requires
            old(self).wf(),
        ensures
            final(self).wf(),
            final(self)@ == model_apply(old(self)@, event),
            effect_key(r) == event_key(event),
            match event {
                TrayEvent::Add(k, _, _) => if old(self)@.items.contains_key(k@) {
                    r is Refresh
                } else {
                    r is Create
                },
                TrayEvent::Update(k, _) => if old(self)@.items.contains_key(k@) {
                    r is Refresh
                } else {
                    r is Ignored
                },
                TrayEvent::Remove(k) => if old(self)@.items.contains_key(k@) {
                    &&& r is TearDown
                    &&& (r->1 is Some <==> old(self)@.handles.contains_key(k@))
                    &&& (r->1 is Some ==> cloned(old(self)@.handles[k@], r->1->0))
                } else {
                    r is Ignored
                },
            },
    {
        match event {
            TrayEvent::Add(k, item, tree) => {
                let key = k.clone();
                if self.add(k, item, tree) {
                    UiEffect::Create(key)
                } else {
                    UiEffect::Refresh(key)
                }
            },
            TrayEvent::Update(k, u) => {
                if self.update(&k, u) {
                    UiEffect::Refresh(k)
                } else {
                    UiEffect::Ignored(k)
                }
            },
            TrayEvent::Remove(k) => {
                if self.items.contains_key(k.as_str()) {
                    let handle = self.remove(&k);
                    UiEffect::TearDown(k, handle)
                } else {
                    let ghost m = self@;
                    assert(model_remove(m, k@) == m) by {
                        assert(m.items.remove(k@) =~= m.items);
                        assert(m.menus.remove(k@) =~= m.menus);
                        assert(m.handles.remove(k@) =~= m.handles);
                    }
                    UiEffect::Ignored(k)
                }
            },
        }
    }

    /// Removes the item at `service_key` with everything that refers to it:
    /// its index entry, its menu and its UI handle, which is handed back
    /// for teardown. Removing an unknown key changes nothing.
    pub fn remove(&mut self, service_key: &String) -> (r: Option<H>)
        requires
            old(self).wf(),
        ensures
            final(self).wf(),
            final(self)@ == model_remove(old(self)@, service_key@),
            r is Some <==> old(self)@.handles.contains_key(service_key@),
            r is Some ==> cloned(old(self)@.handles[service_key@], r->0),
    {
        let ghost m = self@;
        let handle: Option<H> = match self.handles.get(service_key.as_str()) {
            Some(h) => Some(h.clone()),
            None => None,
        };
        let mut drop_id: Option<String> = None;
        match self.items.get(service_key.as_str()) {
            Some(previous) => {
                match self.index.get(previous.id.as_str()) {
                    Some(k) => {
                        if *k == *service_key {
                            drop_id = Some(previous.id.clone());
                        }
                    },
                    None => {},
                }
            },
            None => {},
        }
        match drop_id {
            Some(id) => {
                self.index.remove(id.as_str());
            },
            None => {},
        }
        self.items.remove(service_key.as_str());
        self.menus.remove(service_key.as_str());
        self.handles.remove(service_key.as_str());
        assert(self@.index =~= index_without(m, service_key@));
        assert(self@.items =~= m.items.remove(service_key@));
        assert(self@.menus =~= m.menus.remove(service_key@));
        assert forall|i: Seq<char>| #[trigger] self@.index.contains_key(i) implies self@.index[i] != service_key@ by {
            assert(m.index.contains_key(i));
        }
        assert(self@.handles =~= m.handles.remove(service_key@));
        assert forall|k: Seq<char>| #[trigger] self@.menus.contains_key(k) implies self@.items.contains_key(k) by {
            assert(m.menus.contains_key(k));
        }
        assert forall|k: Seq<char>| #[trigger] self@.handles.contains_key(k) implies self@.items.contains_key(k) by {
            assert(m.handles.contains_key(k));
        }
        assert forall|i: Seq<char>| #[trigger] self@.index.contains_key(i) implies {
            &&& self@.items.contains_key(self@.index[i])
            &&& self@.items[self@.index[i]].id == i
        } by {
            assert(m.index.contains_key(i));
        }
        handle
    }
}

/// Every event keeps the registry's invariant.
pub proof fn lemma_apply_keeps_wf<H>(m: RegistryModel<H>, e: TrayEvent)
    requires
        model_wf(m),
    ensures
        model_wf(model_apply(m, e)),
{
    match e {
        TrayEvent::Add(k, item, tree) => {
            let i = item@;
            let stored = RegistryModel {
                items: m.items.insert(k@, i),
                index: index_without(m, k@).insert(i.id, k@),
                ..m
            };
            assert forall|j: Seq<char>| #[trigger] stored.index.contains_key(j) implies {
                &&& stored.items.contains_key(stored.index[j])
                &&& stored.items[stored.index[j]].id == j
            } by {
                if j != i.id {
                    assert(m.index.contains_key(j));
                    assert(m.index[j] != k@);
                }
            }
            assert(model_wf(stored));
            match tree {
                Some(t) => lemma_build_keeps_wf(stored, k@, t@),
                None => {},
            }
        },
        TrayEvent::Update(k, u) => {
            if m.items.contains_key(k@) {
                match u {
                    ItemUpdate::Menu(tree) => lemma_build_keeps_wf(m, k@, tree@),
                    _ => {
                        let n = RegistryModel { items: m.items.insert(k@, updated_item(m.items[k@], u)), ..m };
                        assert forall|j: Seq<char>| #[trigger] n.index.contains_key(j) implies {
                            &&& n.items.contains_key(n.index[j])
                            &&& n.items[n.index[j]].id == j
                        } by {
                            assert(m.index.contains_key(j));
                        }
                    },
                }
            }
        },
        TrayEvent::Remove(k) => {
            let n = model_remove(m, k@);
            assert forall|j: Seq<char>| #[trigger] n.index.contains_key(j) implies {
                &&& n.items.contains_key(n.index[j])
                &&& n.items[n.index[j]].id == j
            } by {
                assert(m.index.contains_key(j));
            }
            assert forall|j: Seq<char>| #[trigger] n.menus.contains_key(j) implies n.items.contains_key(j) by {
                assert(m.menus.contains_key(j));
            }
            assert forall|j: Seq<char>| #[trigger] n.handles.contains_key(j) implies n.items.contains_key(j) by {
                assert(m.handles.contains_key(j));
            }
        },
    }
}

/// Building a menu keeps the registry's invariant.
pub proof fn lemma_build_keeps_wf<H>(m: RegistryModel<H>, k: Seq<char>, tree: Seq<MenuNode>)
    requires
        model_wf(m),
    ensures
        model_wf(model_build(m, k, tree)),
{
}

/// Replaying events keeps the registry's invariant.
pub proof fn lemma_replay_keeps_wf<H>(m: RegistryModel<H>, events: Seq<TrayEvent>)
    requires
        model_wf(m),
    ensures
        model_wf(model_replay(m, events)),
    decreases events.len(),
{
    if events.len() > 0 {
        lemma_replay_keeps_wf(m, events.subrange(0, events.len() - 1));
        lemma_apply_keeps_wf(model_replay(m, events.subrange(0, events.len() - 1)), events[events.len() - 1]);
    }
}

/// Replaying `a` and then `b` is replaying `a` followed by `b`: the stream
/// may be consumed in pieces.
pub proof fn lemma_replay_split<H>(m: RegistryModel<H>, a: Seq<TrayEvent>, b: Seq<TrayEvent>)
    ensures
        model_replay(m, a + b) == model_replay(model_replay(m, a), b),
    decreases b.len(),
{
    if b.len() == 0 {
        assert(a + b =~= a);
    } else {
        let ab = a + b;
        let b0 = b.subrange(0, b.len() - 1);
        assert(ab.subrange(0, ab.len() - 1) =~= a + b0);
        assert(ab[ab.len() - 1] == b[b.len() - 1]);
        lemma_replay_split(m, a, b0);
    }
}

/// Whether no event of `events` is about `k`.
pub open spec fn untouched(events: Seq<TrayEvent>, k: Seq<char>) -> bool {
    forall|i: int| 0 <= i < events.len() ==> event_key(#[trigger] events[i]) != k
}

/// Whether no index entry points at `k`.
pub open spec fn unindexed<H>(m: RegistryModel<H>, k: Seq<char>) -> bool {
    forall|id: Seq<char>| #[trigger] m.index.contains_key(id) ==> m.index[id] != k
}

/// Events about other keys leave what the registry holds for `k` alone.
pub proof fn lemma_replay_untouched<H>(m: RegistryModel<H>, events: Seq<TrayEvent>, k: Seq<char>)
    requires
        untouched(events, k),
    ensures
        ({
            let n = model_replay(m, events);
            &&& n.items.contains_key(k) == m.items.contains_key(k)
            &&& m.items.contains_key(k) ==> n.items[k] == m.items[k]
            &&& n.menus.contains_key(k) == m.menus.contains_key(k)
            &&& m.menus.contains_key(k) ==> n.menus[k] == m.menus[k]
            &&& n.handles.contains_key(k) == m.handles.contains_key(k)
            &&& m.handles.contains_key(k) ==> n.handles[k] == m.handles[k]
            &&& unindexed(m, k) ==> unindexed(n, k)
        }),
    decreases events.len(),
{
    if events.len() > 0 {
        let init = events.subrange(0, events.len() - 1);
        assert(untouched(init, k)) by {
            assert forall|i: int| 0 <= i < init.len() implies event_key(#[trigger] init[i]) != k by {
                assert(init[i] == events[i]);
            }
        }
        lemma_replay_untouched(m, init, k);
        let p = model_replay(m, init);
        let e = events[events.len() - 1];
        assert(event_key(e) != k);
        let n = model_apply(p, e);
        if unindexed(p, k) {
            assert forall|id: Seq<char>| #[trigger] n.index.contains_key(id) implies n.index[id] != k by {
                match e {
                    TrayEvent::Add(k2, item, tree) => {
                        if id != item@.id {
                            assert(p.index.contains_key(id));
                        }
                    },
                    _ => {
                        assert(p.index.contains_key(id));
                    },
                }
            }
        }
    }
}

/// A Remove that no later event about the same key follows purges the key
/// from the items, the index, the menus and the handles for good.
pub proof fn lemma_replay_remove_purges<H>(
    m: RegistryModel<H>,
    before: Seq<TrayEvent>,
    k: String,
    after: Seq<TrayEvent>,
)
    requires
        model_wf(m),
        untouched(after, k@),
    ensures
        ({
            let n = model_replay(m, before.push(TrayEvent::Remove(k)) + after);
            &&& !n.items.contains_key(k@)
            &&& !n.menus.contains_key(k@)
            &&& !n.handles.contains_key(k@)
            &&& unindexed(n, k@)
        }),
{
    let first = before.push(TrayEvent::Remove(k));
    lemma_replay_split(m, first, after);
    lemma_replay_keeps_wf(m, before);
    let p = model_replay(m, before);
    assert(first.subrange(0, first.len() - 1) =~= before);
    let q = model_replay(m, first);
    assert(q == model_remove(p, k@));
    assert forall|id: Seq<char>| #[trigger] q.index.contains_key(id) implies q.index[id] != k@ by {
        assert(p.index.contains_key(id));
    }
    lemma_replay_untouched(q, after, k@);
}

/// An Add that no later event about the same key follows decides the item
/// stored under that key.
pub proof fn lemma_replay_add_wins<H>(
    m: RegistryModel<H>,
    before: Seq<TrayEvent>,
    k: String,
    item: TrayItem,
    tree: Option<Vec<MenuNode>>,
    after: Seq<TrayEvent>,
)
    requires
        untouched(after, k@),
    ensures
        ({
            let n = model_replay(m, before.push(TrayEvent::Add(k, item, tree)) + after);
            n.items.contains_key(k@) && n.items[k@] == item@
        }),
{
    let first = before.push(TrayEvent::Add(k, item, tree));
    lemma_replay_split(m, first, after);
    assert(first.subrange(0, first.len() - 1) =~= before);
    lemma_replay_untouched(model_replay(m, first), after, k@);
}

/// An Update of a live item that no later event about the same key follows
/// decides the item's fields: the update is applied to the item as it was.
pub proof fn lemma_replay_update_wins<H>(
    m: RegistryModel<H>,
    before: Seq<TrayEvent>,
    k: String,
    u: ItemUpdate,
    after: Seq<TrayEvent>,
)
    requires
        untouched(after, k@),
        model_replay(m, before).items.contains_key(k@),
    ensures
        ({
            let n = model_replay(m, before.push(TrayEvent::Update(k, u)) + after);
            n.items.contains_key(k@) && n.items[k@] == updated_item(model_replay(m, before).items[k@], u)
        }),
{
    let first = before.push(TrayEvent::Update(k, u));
    lemma_replay_split(m, first, after);
    assert(first.subrange(0, first.len() - 1) =~= before);
    lemma_replay_untouched(model_replay(m, first), after, k@);
}

/// Removing a key twice in a row is the same as removing it once.
pub proof fn lemma_remove_twice<H>(m: RegistryModel<H>, k: Seq<char>)
    ensures
        model_remove(model_remove(m, k), k) == model_remove(m, k),
{
    let once = model_remove(m, k);
    assert(once.items.remove(k) =~= once.items);
    assert(once.menus.remove(k) =~= once.menus);
    assert(once.handles.remove(k) =~= once.handles);
}

/// Adding the same item under the same key twice in a row is the same as
/// adding it once: nothing is duplicated.
pub proof fn lemma_add_twice<H>(m: RegistryModel<H>, k: Seq<char>, item: ItemModel, tree: Option<Seq<MenuNode>>)
    ensures
        model_add(model_add(m, k, item, tree), k, item, tree) == model_add(m, k, item, tree),
{
    let once = model_add(m, k, item, tree);
    assert(once.items.insert(k, item) =~= once.items);
    assert(index_without(once, k).insert(item.id, k) =~= once.index);
}

/// Once a key has a menu, adding under it again, with any item and any
/// tree, leaves the menus as they are.
pub proof fn lemma_add_again_keeps_menus<H>(
    m: RegistryModel<H>,
    k: Seq<char>,
    first: ItemModel,
    first_tree: Option<Seq<MenuNode>>,
    second: ItemModel,
    second_tree: Option<Seq<MenuNode>>,
)
    requires
        model_add(m, k, first, first_tree).menus.contains_key(k),
    ensures
        model_add(model_add(m, k, first, first_tree), k, second, second_tree).menus == model_add(
            m,
            k,
            first,
            first_tree,
        ).menus,
{
}

/// After two Adds whose items share an id, the id resolves to the bus
/// address of the second.
pub proof fn lemma_last_add_wins<H>(
    m: RegistryModel<H>,
    k1: Seq<char>,
    first: ItemModel,
    t1: Option<Seq<MenuNode>>,
    k2: Seq<char>,
    second: ItemModel,
    t2: Option<Seq<MenuNode>>,
)
    requires
        first.id == second.id,
    ensures
        ({
            let n = model_add(model_add(m, k1, first, t1), k2, second, t2);
            n.index.contains_key(second.id) && n.index[second.id] == k2
        }),
{
}

/// Building a menu twice for one key, with any two trees, is building it
/// once with the first; a key that is live and has no menu gets the
/// realization of the first tree.
pub proof fn lemma_build_first_wins<H>(m: RegistryModel<H>, k: Seq<char>, t1: Seq<MenuNode>, t2: Seq<MenuNode>)
    ensures
        model_build(model_build(m, k, t1), k, t2) == model_build(m, k, t1),
        m.items.contains_key(k) && !m.menus.contains_key(k) ==> model_build(model_build(m, k, t1), k, t2).menus[k]
            == realization_of(k, t1),
{
}

} // verus!
