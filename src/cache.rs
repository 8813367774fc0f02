//! Image sizes known to the GPU, and the per-image bind group cache.
use vstd::prelude::*;
use vstd::hash_map::HashMapWithView;
use crate::slices::Extent;
use bevy_platform::collections::HashMap as PlatformHashMap;

verus! {

broadcast use vstd::std_specs::hash::group_hash_axioms;

/// Images that the GPU holds, by asset identity, with their pixel size.
pub struct GpuImages {
    pub sizes: HashMapWithView<u64, Extent>,
}

impl View for GpuImages {
    type V = Map<u64, Extent>;

    open spec fn view(&self) -> Map<u64, Extent> {
        self.sizes@
    }
}

impl GpuImages {
    pub fn new() -> (r: Self)
        ensures
            r@ == Map::<u64, Extent>::empty(),
    {
        GpuImages { sizes: HashMapWithView::new() }
    }

    /// Records that `id` is resident with the given size.
    pub fn insert(&mut self, id: u64, size: Extent)
        ensures
            final(self)@ == old(self)@.insert(id, size),
    {
        self.sizes.insert(id, size);
    }

    pub fn get(&self, id: u64) -> (r: Option<Extent>)
        ensures
            r == (if self@.contains_key(id) { Some(self@[id]) } else { None::<Extent> }),
    {
        match self.sizes.get(&id) {
            Some(s) => Some(*s),
            None => None,
        }
    }
}

/// A change to an image asset.
#[derive(Clone, Copy, Debug, PartialEq, Eq, Structural)]
pub enum AssetEvent {
    Added(u64),
    Modified(u64),
    Removed(u64),
    Unused(u64),
    LoadedWithDependencies(u64),
}

/// The images whose GPU resources may have changed: those modified or removed.
pub open spec fn invalidated(events: Seq<AssetEvent>) -> Set<u64>
    decreases events.len(),
{
    if events.len() == 0 {
        Set::empty()
    } else {
        let rest = invalidated(events.drop_last());
        match events.last() {
            AssetEvent::Modified(id) | AssetEvent::Removed(id) => rest.insert(id),
            _ => rest,
        }
    }
}

#[verifier::external_type_specification]
#[verifier::external_body]
#[verifier::reject_recursive_types(K)]
#[verifier::reject_recursive_types(V)]
#[verifier::reject_recursive_types(S)]
pub struct ExPlatformHashMap<K, V, S>(PlatformHashMap<K, V, S>);

#[verifier::external_type_specification]
#[verifier::external_body]
pub struct ExFixedHasher(bevy_platform::hash::FixedHasher);

/// Bind groups by image identity, in bevy's deterministic hash map.
pub type BindGroupMap = PlatformHashMap<u64, u64>;

/// What a bind group map holds, key by key.
pub uninterp spec fn bind_group_entries(m: BindGroupMap) -> Map<u64, u64>;

pub open spec fn no_bind_groups() -> Map<u64, u64> {
    Map::empty()
}

/// Relies on bevy_platform's `HashMap::new`: the map starts empty.
#[verifier::external_body]
fn new_bind_group_map() -> (r: BindGroupMap)
    ensures
        bind_group_entries(r) == no_bind_groups(),
{
    PlatformHashMap::new()
}

/// Relies on bevy_platform's `HashMap::get`: the value stored under `k`, if any.
#[verifier::external_body]
fn bind_group_get(m: &BindGroupMap, k: u64) -> (r: Option<u64>)
    ensures
        r == (if bind_group_entries(*m).contains_key(k) {
            Some(bind_group_entries(*m)[k])
        } else {
            None::<u64>
        }),
{
    m.get(&k).copied()
}

/// Relies on bevy_platform's `HashMap::insert`: `k` maps to `v` afterwards,
/// every other key keeps its value.
#[verifier::external_body]
fn bind_group_insert(m: &mut BindGroupMap, k: u64, v: u64)
    ensures
        bind_group_entries(*final(m)) == bind_group_entries(*old(m)).insert(k, v),
{
    m.insert(k, v);
}

/// Relies on bevy_platform's `HashMap::remove`: `k` has no value afterwards,
/// every other key keeps its value.
#[verifier::external_body]
fn bind_group_remove(m: &mut BindGroupMap, k: u64)
    ensures
        bind_group_entries(*final(m)) == bind_group_entries(*old(m)).remove(k),
{
    m.remove(&k);
}

/// Bind groups by image, each named by the serial number of its creation.
pub struct UiTextureSliceImageBindGroups {
    pub values: BindGroupMap,
    /// How many bind groups were created so far.
    pub created: u64,
}

/// What the cache holds and how many creations it has counted.
pub struct BindGroupsModel {
    pub values: Map<u64, u64>,
    pub created: u64,
}

impl View for UiTextureSliceImageBindGroups {
    type V = BindGroupsModel;

    open spec fn view(&self) -> BindGroupsModel {
        BindGroupsModel { values: bind_group_entries(self.values), created: self.created }
    }
}

impl BindGroupsModel {
    /// Every cached bind group was created before the count was taken, so
    /// the next creation is numbered apart from all of them.
    pub open spec fn wf(self) -> bool {
        forall|k: u64| self.values.contains_key(k) ==> #[trigger] self.values[k] < self.created
    }

    /// Drops the entries of images that changed.
    pub open spec fn invalidate(self, events: Seq<AssetEvent>) -> BindGroupsModel {
        BindGroupsModel { values: self.values.remove_keys(invalidated(events)), created: self.created }
    }

    /// The bind group of `image` is reused when cached, else a new one is
    /// created and cached.
    pub open spec fn ensure(self, image: u64) -> BindGroupsModel {
        if self.values.contains_key(image) {
            self
        } else {
            BindGroupsModel {
                values: self.values.insert(image, self.created),
                created: (self.created + 1) as u64,
            }
        }
    }
}

impl UiTextureSliceImageBindGroups {
    pub fn new() -> (r: Self)
        ensures
            r@.values == Map::<u64, u64>::empty(),
            r@.created == 0,
            r@.wf(),
    {
        UiTextureSliceImageBindGroups { values: new_bind_group_map(), created: 0 }
    }

    /// The cached bind group of `image`, if any.
    pub fn get(&self, image: u64) -> (r: Option<u64>)
        ensures
            r == (if self@.values.contains_key(image) { Some(self@.values[image]) } else { None::<u64> }),
    {
        bind_group_get(&self.values, image)
    }

    /// Removes the bind group of every image that an event reports as
    /// modified or removed; other events leave the cache alone.
    pub fn apply_events(&mut self, events: &Vec<AssetEvent>)
        ensures
            final(self)@ == old(self)@.invalidate(events@),
            old(self)@.wf() ==> final(self)@.wf(),
    {
        let mut i: usize = 0;
        assert(old(self)@.values.remove_keys(invalidated(events@.subrange(0, 0))) =~= old(self)@.values);
        while i < events.len()
            invariant
                i <= events@.len(),
                self@ == old(self)@.invalidate(events@.subrange(0, i as int)),
            decreases events.len() - i,
        {
            let ghost before = self@;
            match events[i] {
                AssetEvent::Modified(id) | AssetEvent::Removed(id) => {
                    bind_group_remove(&mut self.values, id);
                },
                _ => {},
            }
            proof {
                let s = events@.subrange(0, i as int + 1);
                assert(s.drop_last() == events@.subrange(0, i as int));
                assert(s.last() == events@[i as int]);
                assert(self@.values =~= old(self)@.values.remove_keys(invalidated(s)));
            }
            i += 1;
        }
        assert(events@.subrange(0, events@.len() as int) == events@);
        proof {
            if old(self)@.wf() {
                lemma_invalidate_keeps_wf(old(self)@, events@);
            }
        }
    }

    /// The bind group of `image`, created and cached if it is missing.
    pub fn ensure(&mut self, image: u64) -> (r: u64)
        requires
            old(self)@.created < u64::MAX,
        ensures
            final(self)@ == old(self)@.ensure(image),
            r == final(self)@.values[image],
            old(self)@.wf() ==> final(self)@.wf(),
    {
        proof {
            if old(self)@.wf() {
                lemma_ensure_keeps_wf(old(self)@, image);
            }
        }
        match bind_group_get(&self.values, image) {
            Some(g) => g,
            None => {
                let g = self.created;
                bind_group_insert(&mut self.values, image, g);
                self.created = self.created + 1;
                g
            },
        }
    }
}

/// Dropping entries keeps every remaining one below the creation count.
pub proof fn lemma_invalidate_keeps_wf(cache: BindGroupsModel, events: Seq<AssetEvent>)
    requires
        cache.wf(),
    ensures
        cache.invalidate(events).wf(),
{
}

/// Creating a bind group, when the count has room, keeps every entry below
/// the count.
pub proof fn lemma_ensure_keeps_wf(cache: BindGroupsModel, image: u64)
    requires
        cache.wf(),
        cache.created < u64::MAX,
    ensures
        cache.ensure(image).wf(),
        cache.ensure(image).created <= cache.created + 1,
        cache.created <= cache.ensure(image).created,
{
}

/// After an image is reported modified or removed, no bind group of it
/// survives; the next request for it creates a fresh one, numbered by the
/// creation count, which then advances, and which differs from the bind
/// group it replaces.
pub proof fn lemma_modified_image_gets_fresh_bind_group(cache: BindGroupsModel, events: Seq<AssetEvent>, id: u64)
    requires
        cache.wf(),
        cache.created < u64::MAX,
        events.len() > 0,
        events.last() == AssetEvent::Modified(id) || events.last() == AssetEvent::Removed(id),
    ensures
        !cache.invalidate(events).values.contains_key(id),
        cache.invalidate(events).ensure(id).values[id] == cache.created,
        cache.invalidate(events).ensure(id).created == cache.created + 1,
        cache.values.contains_key(id) ==> cache.invalidate(events).ensure(id).values[id] != cache.values[id],
{
}

} // verus!
