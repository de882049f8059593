//! The conversions that wait for their source panorama.

use crate::cubemap::{conversion_error, convert, ConvertError, Image};
use crate::sample::SampleMap;
use std::collections::HashMap;
use vstd::prelude::*;

verus! {

/// A conversion that waits for its source: the panorama `src` is to become
/// the cubemap `dst`, with faces of `res` by `res` pixels.
#[derive(Copy, Clone, Debug, Eq, PartialEq, Structural)]
pub struct EquirectCubemap {
    pub src: u64,
    pub dst: u64,
    pub res: u32,
}

/// What an [`EquirectManager`] holds: the waiting conversions by the identity
/// of their source, and the identity that the next new conversion will get
/// for its cubemap.
pub struct Registry {
    pub pending: Map<u64, EquirectCubemap>,
    pub next: nat,
}

impl Registry {
    /// Every entry is kept under its own source, the cubemaps of two
    /// different sources are different, and no cubemap has the identity that
    /// is handed out next, or a later one.
    pub open spec fn wf(self) -> bool {
        &&& self.pending.dom().finite()
        &&& forall|s: u64| #[trigger]
            self.pending.contains_key(s) ==> self.pending[s].src == s && self.pending[s].dst
                < self.next
        &&& forall|s: u64, t: u64|
            self.pending.contains_key(s) && self.pending.contains_key(t) && s != t
                ==> #[trigger] self.pending[s].dst != #[trigger] self.pending[t].dst
    }

    /// Nothing waits, and no identity has been handed out.
    pub open spec fn empty() -> Registry {
        Registry { pending: Map::empty(), next: 0 }
    }

    /// Whether a conversion waits for `source`.
    pub open spec fn waits_for(self, source: u64) -> bool {
        self.pending.contains_key(source)
    }

    /// Whether a conversion of `source` can be asked for: one waits already,
    /// or an identity is left for a new cubemap.
    pub open spec fn admits(self, source: u64) -> bool {
        self.waits_for(source) || self.next < u64::MAX
    }

    /// The registry after a conversion of `source` at resolution `res` was
    /// asked for: unchanged where one waits already, and else with a new
    /// entry whose cubemap has the next identity.
    pub open spec fn register(self, source: u64, res: u32) -> Registry {
        if self.waits_for(source) {
            self
        } else {
            Registry {
                pending: self.pending.insert(
                    source,
                    EquirectCubemap { src: source, dst: self.next as u64, res },
                ),
                next: self.next + 1,
            }
        }
    }

    /// The registry without the conversion that waits for `source`, if any.
    pub open spec fn remove(self, source: u64) -> Registry {
        Registry { pending: self.pending.remove(source), next: self.next }
    }
}

/// The waiting conversions, and the source of fresh cubemap identities.
pub struct EquirectManager {
    handles: HashMap<u64, EquirectCubemap>,
    next_dst: u64,
}

impl View for EquirectManager {
    type V = Registry;

    closed spec fn view(&self) -> Registry {
        Registry { pending: self.handles@, next: self.next_dst as nat }
    }
}

/// What became of a conversion whose source arrived: the cubemap `dst`, and
/// its texture or the reason why there is none.
#[derive(Debug, Eq, PartialEq)]
pub struct Completed {
    pub dst: u64,
    pub result: Result<Image, ConvertError>,
}

impl EquirectManager {
    #[verifier::type_invariant]
    spec fn inv(self) -> bool {
        self@.wf()
    }

    /// A manager for which nothing waits.
    pub fn new() -> (manager: EquirectManager)
        ensures
            manager@ == Registry::empty(),
    {
        let manager = EquirectManager { handles: HashMap::new(), next_dst: 0 };
        assert(manager@.pending =~= Map::empty());
        manager
    }

    /// The conversion that waits for `source`, if any.
    pub fn pending(&self, source: u64) -> (entry: Option<EquirectCubemap>)
        ensures
            entry is Some == self@.waits_for(source),
            entry matches Some(e) ==> e == self@.pending[source],
    {
        match self.handles.get(&source) {
            Some(entry) => Some(*entry),
            None => None,
        }
    }

    /// Whether a conversion of `source` can be asked for: one waits already,
    /// or an identity is left for a new cubemap.
    pub fn can_load(&self, source: u64) -> (ok: bool)
        ensures
            ok == self@.admits(source),
    {
        self.handles.contains_key(&source) || self.next_dst < u64::MAX
    }

    /// Asks for the conversion of the panorama `source` to a cubemap with
    /// faces of `res` by `res` pixels, and returns the identity of that
    /// cubemap.
    ///
    /// Where a conversion of `source` waits already, nothing changes and its
    /// cubemap is returned, whatever `res` is: the first resolution stands.
    pub fn load_equirect_as_cubemap(&mut self, source: u64, res: u32) -> (dst: u64)
        requires
            old(self)@.admits(source),
        ensures
            final(self)@ == old(self)@.register(source, res),
            final(self)@.waits_for(source),
            dst == final(self)@.pending[source].dst,
    {
        proof {
            use_type_invariant(&*self);
        }
        match self.handles.get(&source) {
            Some(entry) => entry.dst,
            None => {
                let dst = self.next_dst;
                self.next_dst = dst + 1;
                let mut handles = HashMap::new();
                std::mem::swap(&mut self.handles, &mut handles);
                handles.insert(source, EquirectCubemap { src: source, dst, res });
                std::mem::swap(&mut self.handles, &mut handles);
                dst
            },
        }
    }

    /// Takes the conversion that waits for `source`, if any, out of the map.
    fn take(&mut self, source: u64) -> (entry: Option<EquirectCubemap>)
        ensures
            final(self)@ == old(self)@.remove(source),
            entry is Some == old(self)@.waits_for(source),
            entry matches Some(e) ==> e == old(self)@.pending[source],
    {
        proof {
            use_type_invariant(&*self);
        }
        let mut handles = HashMap::new();
        std::mem::swap(&mut self.handles, &mut handles);
        let entry = handles.remove(&source);
        std::mem::swap(&mut self.handles, &mut handles);
        entry
    }

    /// Forgets the conversion that waits for `source`, if any: nothing will
    /// be published for it.
    pub fn on_source_removed(&mut self, source: u64)
        ensures
            final(self)@ == old(self)@.remove(source),
    {
        proof {
            use_type_invariant(&*self);
        }
        self.take(source);
    }

    /// Converts the panorama `source`, which has arrived as `image`, where a
    /// conversion waits for it, and forgets that conversion: it is run once,
    /// whether it succeeds or not. Where none waits, nothing happens.
    pub fn on_source_available(&mut self, source: u64, image: &Image, samples: &SampleMap) -> (completed:
        Option<Completed>)
        ensures
            final(self)@ == old(self)@.remove(source),
            completed is Some == old(self)@.waits_for(source),
            completed matches Some(c) ==> {
                let entry = old(self)@.pending[source];
                &&& c.dst == entry.dst
                &&& match c.result {
                    Ok(cubemap) => conversion_error(image, entry.res, samples) is None
                        && image.converts_to(entry.res, samples, &cubemap),
                    Err(error) => conversion_error(image, entry.res, samples) == Some(error),
                }
            },
    {
        match self.take(source) {
            Some(entry) => Some(
                Completed { dst: entry.dst, result: convert(image, entry.res, samples) },
            ),
            None => None,
        }
    }
}

/// What the host says of an image, named by the image's identity.
#[derive(Copy, Clone, Debug, Eq, PartialEq, Structural)]
pub enum ImageEvent {
    Added { id: u64 },
    Modified { id: u64 },
    Removed { id: u64 },
    Unused { id: u64 },
    LoadedWithDependencies { id: u64 },
}

impl ImageEvent {
    /// The image that the event is about.
    pub open spec fn id(self) -> u64 {
        match self {
            ImageEvent::Added { id } => id,
            ImageEvent::Modified { id } => id,
            ImageEvent::Removed { id } => id,
            ImageEvent::Unused { id } => id,
            ImageEvent::LoadedWithDependencies { id } => id,
        }
    }

    /// Whether the event says that the image is gone or no longer wanted.
    pub open spec fn cancels(self) -> bool {
        self is Removed || self is Unused
    }
}

/// A panorama as it arrived, with the sample map made for it.
#[derive(Debug, Eq, PartialEq)]
pub struct Source {
    pub image: Image,
    pub samples: SampleMap,
}

/// Lets `manager` react to one event of the host.
///
/// An image that was added is converted where a conversion waits for it;
/// `source` then holds that image. An image that was removed, or that
/// nothing uses any more, has its waiting conversion forgotten. Every other
/// event leaves the manager as it is.
pub fn apply_equirect(manager: &mut EquirectManager, event: ImageEvent, source: Option<&Source>) -> (completed:
    Option<Completed>)
    requires
        event is Added && old(manager)@.waits_for(event.id()) ==> source is Some,
    ensures
        final(manager)@ == (if event is Added || event.cancels() {
            old(manager)@.remove(event.id())
        } else {
            old(manager)@
        }),
        completed is Some == (event is Added && old(manager)@.waits_for(event.id())),
        completed matches Some(c) ==> {
            let entry = old(manager)@.pending[event.id()];
            let image = &source->Some_0.image;
            let samples = &source->Some_0.samples;
            &&& c.dst == entry.dst
            &&& match c.result {
                Ok(cubemap) => conversion_error(image, entry.res, samples) is None
                    && image.converts_to(entry.res, samples, &cubemap),
                Err(error) => conversion_error(image, entry.res, samples) == Some(error),
            }
        },
{
    match event {
        ImageEvent::Added { id } => {
            match source {
                Some(arrived) => manager.on_source_available(id, &arrived.image, &arrived.samples),
                None => {
                    assert(manager@.remove(id).pending =~= manager@.pending);
                    None
                },
            }
        },
        ImageEvent::Removed { id } => {
            manager.on_source_removed(id);
            None
        },
        ImageEvent::Unused { id } => {
            manager.on_source_removed(id);
            None
        },
        ImageEvent::Modified { .. } => None,
        ImageEvent::LoadedWithDependencies { .. } => None,
    }
}

/// Asking twice for the conversion of one source, at whatever resolutions,
/// makes one entry and names one cubemap: the second request changes
/// nothing, and where the first one made the entry, its resolution stands.
pub proof fn lemma_registration_is_idempotent(
    registry: Registry,
    source: u64,
    first: u32,
    second: u32,
)
    ensures
        ({
            let once = registry.register(source, first);
            let twice = once.register(source, second);
            &&& once.waits_for(source)
            &&& twice == once
            &&& twice.pending[source].dst == once.pending[source].dst
            &&& !registry.waits_for(source) ==> twice.pending[source].res == first
            &&& registry.waits_for(source) ==> twice.pending[source] == registry.pending[source]
        }),
{
}

/// A source that was removed has nothing waiting for it: when it arrives
/// afterwards, nothing is converted and nothing is published.
pub proof fn lemma_removed_source_is_not_converted(registry: Registry, source: u64)
    ensures
        !registry.remove(source).waits_for(source),
        registry.remove(source).remove(source) == registry.remove(source),
{
    assert(registry.remove(source).pending.remove(source) =~= registry.remove(source).pending);
}

/// What happens to one source leaves the conversions of the others alone.
pub proof fn lemma_other_sources_are_kept(registry: Registry, source: u64, other: u64, res: u32)
    requires
        other != source,
    ensures
        registry.remove(source).waits_for(other) == registry.waits_for(other),
        registry.waits_for(other) ==> registry.remove(source).pending[other]
            == registry.pending[other],
        registry.register(source, res).waits_for(other) == registry.waits_for(other),
        registry.waits_for(other) ==> registry.register(source, res).pending[other]
            == registry.pending[other],
{
}

/// A well-formed registry stays so, and a new conversion gets a cubemap that
/// no waiting conversion has.
pub proof fn lemma_registry_stays_well_formed(registry: Registry, source: u64, res: u32)
    requires
        registry.wf(),
        registry.admits(source),
    ensures
        Registry::empty().wf(),
        registry.register(source, res).wf(),
        registry.remove(source).wf(),
        !registry.waits_for(source) ==> forall|other: u64| #[trigger]
            registry.waits_for(other) ==> registry.pending[other].dst != registry.register(
                source,
                res,
            ).pending[source].dst,
{
}

} // verus!
