//! Shader programs shared by all objects of one material family, kept for
//! as long as one such object lives.
//!
//! The cache has one slot for each combination of color source and lighting.
//! A slot is filled on first use. A counter tells how many consumers are
//! alive; when the last one is released, every slot is emptied, so that the
//! programs are built anew by the next consumer that needs them.

use vstd::prelude::*;
use crate::cache::{outcomes, slot_after_request};

verus! {

/// A combination of color source and lighting, with a program of its own.
#[derive(Clone, Copy, Debug, PartialEq, Eq, Structural)]
pub enum ProgramSlot {
    /// A plain color, lit by ambient light.
    ColorAmbient,
    /// A plain color, lit by ambient and directional light.
    ColorAmbientDirectional,
    /// A texture, lit by ambient light.
    TextureAmbient,
    /// A texture, lit by ambient and directional light.
    TextureAmbientDirectional,
}

/// What a population cache holds: the four slots and the number of consumers.
pub ghost struct Population<P> {
    pub color_ambient: Option<P>,
    pub color_ambient_directional: Option<P>,
    pub texture_ambient: Option<P>,
    pub texture_ambient_directional: Option<P>,
    pub consumers: nat,
}

impl<P> Population<P> {
    /// No program and no consumer.
    pub open spec fn empty() -> Self {
        Population {
            color_ambient: None,
            color_ambient_directional: None,
            texture_ambient: None,
            texture_ambient_directional: None,
            consumers: 0,
        }
    }

    /// What the given slot holds.
    pub open spec fn slot(self, slot: ProgramSlot) -> Option<P> {
        match slot {
            ProgramSlot::ColorAmbient => self.color_ambient,
            ProgramSlot::ColorAmbientDirectional => self.color_ambient_directional,
            ProgramSlot::TextureAmbient => self.texture_ambient,
            ProgramSlot::TextureAmbientDirectional => self.texture_ambient_directional,
        }
    }

    /// Every slot is empty.
    pub open spec fn torn_down(self) -> bool {
        forall|slot: ProgramSlot| (#[trigger] self.slot(slot)) is None
    }

    /// The same, with `content` in the given slot.
    pub open spec fn with_slot(self, slot: ProgramSlot, content: Option<P>) -> Self {
        match slot {
            ProgramSlot::ColorAmbient => Population { color_ambient: content, ..self },
            ProgramSlot::ColorAmbientDirectional => Population {
                color_ambient_directional: content,
                ..self
            },
            ProgramSlot::TextureAmbient => Population { texture_ambient: content, ..self },
            ProgramSlot::TextureAmbientDirectional => Population {
                texture_ambient_directional: content,
                ..self
            },
        }
    }

    /// The same, with one consumer more.
    pub open spec fn registered(self) -> Self {
        Population { consumers: self.consumers + 1, ..self }
    }

    /// The same, with one consumer less. The release of the last consumer
    /// empties every slot. Without a consumer nothing changes.
    pub open spec fn released(self) -> Self {
        if self.consumers == 0 {
            self
        } else if self.consumers == 1 {
            Self::empty()
        } else {
            Population { consumers: (self.consumers - 1) as nat, ..self }
        }
    }

    /// The same, after `n` registrations.
    pub open spec fn registered_times(self, n: nat) -> Self
        decreases n,
    {
        if n == 0 {
            self
        } else {
            self.registered().registered_times((n - 1) as nat)
        }
    }

    /// The same, after `n` releases.
    pub open spec fn released_times(self, n: nat) -> Self
        decreases n,
    {
        if n == 0 {
            self
        } else {
            self.released().released_times((n - 1) as nat)
        }
    }
}

/// The programs of one material family and the number of its consumers.
pub struct ProgramPopulationCache<P> {
    color_ambient: Option<P>,
    color_ambient_directional: Option<P>,
    texture_ambient: Option<P>,
    texture_ambient_directional: Option<P>,
    consumers: u32,
}

impl<P> View for ProgramPopulationCache<P> {
    type V = Population<P>;

    closed spec fn view(&self) -> Population<P> {
        Population {
            color_ambient: self.color_ambient,
            color_ambient_directional: self.color_ambient_directional,
            texture_ambient: self.texture_ambient,
            texture_ambient_directional: self.texture_ambient_directional,
            consumers: self.consumers as nat,
        }
    }
}

impl<P> ProgramPopulationCache<P> {
    /// A cache without programs and without consumers.
    pub fn new() -> (cache: Self)
        ensures
            cache@ == Population::<P>::empty(),
    {
        ProgramPopulationCache {
            color_ambient: None,
            color_ambient_directional: None,
            texture_ambient: None,
            texture_ambient_directional: None,
            consumers: 0,
        }
    }

    /// The number of consumers that are alive.
    pub fn population(&self) -> (n: u32)
        ensures
            n == self@.consumers,
    {
        self.consumers
    }

    /// The program in the given slot, if it has been built.
    pub fn get(&self, slot: ProgramSlot) -> (found: Option<&P>)
        ensures
            match found {
                Some(program) => self@.slot(slot) == Some(*program),
                None => self@.slot(slot) is None,
            },
    {
        match slot {
            ProgramSlot::ColorAmbient => self.color_ambient.as_ref(),
            ProgramSlot::ColorAmbientDirectional => self.color_ambient_directional.as_ref(),
            ProgramSlot::TextureAmbient => self.texture_ambient.as_ref(),
            ProgramSlot::TextureAmbientDirectional => self.texture_ambient_directional.as_ref(),
        }
    }

    /// Takes in what a builder returned for the given slot: a program fills
    /// the slot, a failure is handed on and leaves the slot as it was. Where
    /// the slot is filled already, its program stays and the new one is
    /// dropped. The other slots and the number of consumers stay.
    pub fn fill<E>(&mut self, slot: ProgramSlot, built: Result<P, E>) -> (res: Result<(), E>)
        ensures
            final(self)@ == old(self)@.with_slot(
                slot,
                slot_after_request(old(self)@.slot(slot), built),
            ),
            match built {
                Ok(_) => res is Ok,
                Err(e) => res == Err::<(), E>(e),
            },
    {
        match built {
            Ok(program) => {
                if self.get(slot).is_none() {
                    match slot {
                        ProgramSlot::ColorAmbient => {
                            self.color_ambient = Some(program);
                        },
                        ProgramSlot::ColorAmbientDirectional => {
                            self.color_ambient_directional = Some(program);
                        },
                        ProgramSlot::TextureAmbient => {
                            self.texture_ambient = Some(program);
                        },
                        ProgramSlot::TextureAmbientDirectional => {
                            self.texture_ambient_directional = Some(program);
                        },
                    }
                }
                Ok(())
            },
            Err(e) => Err(e),
        }
    }

    /// The program in the given slot. Where the slot is empty, `builder` is
    /// called first: the program that it returns fills the slot, its failure
    /// is returned and the slot stays empty. A filled slot is left as it is
    /// and the builder is not called. The other slots and the number of
    /// consumers stay.
    pub fn ensure<E, B>(&mut self, slot: ProgramSlot, builder: B) -> (res: Result<&P, E>) where
        B: FnOnce() -> Result<P, E>,

        requires
            old(self)@.slot(slot) is None ==> call_requires(builder, ()),
        ensures
            ensured(old(self)@, slot, outcomes(builder), final(self)@, res),
    {
        if self.get(slot).is_none() {
            let built = builder();
            assert(outcomes(builder)(built));
            match self.fill(slot, built) {
                Ok(()) => {},
                Err(e) => {
                    return Err(e);
                },
            }
        }
        match self.get(slot) {
            Some(program) => Ok(program),
            None => {
                proof {
                    assert(false);
                }
                vstd::pervasive::unreached()
            },
        }
    }

    /// Counts one consumer more. The slots stay as they are.
    pub fn register_consumer(&mut self)
        requires
            old(self)@.consumers < u32::MAX,
        ensures
            final(self)@ == old(self)@.registered(),
    {
        self.consumers = self.consumers + 1;
    }

    /// Counts one consumer less and, where it was the last, empties every
    /// slot. Returns whether there was a consumer to release: without one the
    /// cache stays as it is.
    pub fn release_consumer(&mut self) -> (released: bool)
        ensures
            released == (old(self)@.consumers > 0),
            final(self)@ == old(self)@.released(),
    {
        if self.consumers == 0 {
            return false;
        }
        self.consumers = self.consumers - 1;
        if self.consumers == 0 {
            self.color_ambient = None;
            self.color_ambient_directional = None;
            self.texture_ambient = None;
            self.texture_ambient_directional = None;
        }
        true
    }

    /// Releases `n` consumers, one after the other.
    pub fn release_consumers(&mut self, n: usize)
        ensures
            final(self)@ == old(self)@.released_times(n as nat),
    {
        let mut done: usize = 0;
        while done < n
            invariant
                done <= n,
                self@ == old(self)@.released_times(done as nat),
            decreases n - done,
        {
            proof {
                lemma_one_more_release(old(self)@, done as nat);
            }
            let _ = self.release_consumer();
            done += 1;
        }
    }
}

/// Whether a request for the program in `slot` on the cache `before` can
/// leave the cache `after` and return `res`, where `builds` holds of what the
/// builder can return: a filled slot gives its program and nothing changes;
/// an empty slot is filled with what the builder returns, which is the
/// result, and stays empty where the builder fails, with the failure as the
/// result.
pub open spec fn ensured<P, E>(
    before: Population<P>,
    slot: ProgramSlot,
    builds: spec_fn(Result<P, E>) -> bool,
    after: Population<P>,
    res: Result<&P, E>,
) -> bool {
    match before.slot(slot) {
        Some(program) => after == before && res == Ok::<&P, E>(&program),
        None => exists|built: Result<P, E>|
            {
                &&& #[trigger] builds(built)
                &&& after == before.with_slot(slot, slot_after_request(None, built))
                &&& match built {
                    Ok(program) => res == Ok::<&P, E>(&program),
                    Err(e) => res == Err::<&P, E>(e),
                }
            },
    }
}

/// Two requests in a row for the program of one slot, the first with a
/// builder that cannot fail, build at most once: the second request leaves
/// the cache as the first left it and gives the program that the first gave.
pub proof fn lemma_second_ensure_reuses<P, E>(
    before: Population<P>,
    slot: ProgramSlot,
    first_builds: spec_fn(Result<P, E>) -> bool,
    between: Population<P>,
    first_res: Result<&P, E>,
    second_builds: spec_fn(Result<P, E>) -> bool,
    after: Population<P>,
    second_res: Result<&P, E>,
)
    requires
        forall|built: Result<P, E>| #[trigger] first_builds(built) ==> built is Ok,
        ensured(before, slot, first_builds, between, first_res),
        ensured(between, slot, second_builds, after, second_res),
    ensures
        between.slot(slot) is Some,
        after == between,
        first_res == Ok::<&P, E>(&between.slot(slot)->Some_0),
        second_res == first_res,
{
}

/// One release after `n` releases makes `n + 1` releases.
pub proof fn lemma_one_more_release<P>(before: Population<P>, n: nat)
    ensures
        before.released_times(n).released() == before.released_times(n + 1),
    decreases n,
{
    if n > 0 {
        lemma_one_more_release(before.released(), (n - 1) as nat);
    } else {
        assert(before.released().released_times(0) == before.released());
    }
}

/// One registration after `n` registrations makes `n + 1` registrations.
pub proof fn lemma_one_more_registration<P>(before: Population<P>, n: nat)
    ensures
        before.registered_times(n).registered() == before.registered_times(n + 1),
    decreases n,
{
    if n > 0 {
        lemma_one_more_registration(before.registered(), (n - 1) as nat);
    } else {
        assert(before.registered().registered_times(0) == before.registered());
    }
}

/// Registrations only count: after `n` of them there are `n` consumers more
/// and every slot holds what it held.
pub proof fn lemma_registrations_count<P>(before: Population<P>, n: nat)
    ensures
        before.registered_times(n) == (Population { consumers: before.consumers + n, ..before }),
    decreases n,
{
    if n > 0 {
        lemma_registrations_count(before.registered(), (n - 1) as nat);
    }
}

/// As many releases as there are consumers empty every slot and leave no
/// consumer, whatever the slots held.
pub proof fn lemma_releases_tear_down<P>(before: Population<P>, n: nat)
    requires
        n > 0,
        before.consumers == n,
    ensures
        before.released_times(n) == Population::<P>::empty(),
        before.released_times(n).torn_down(),
    decreases n,
{
    if n > 1 {
        lemma_releases_tear_down(before.released(), (n - 1) as nat);
    } else {
        assert(before.released().released_times(0) == before.released());
    }
}

/// Registrations followed by as many releases, on a cache without consumers,
/// end with every slot empty and no consumer.
pub proof fn lemma_register_then_release<P>(before: Population<P>, n: nat)
    requires
        n > 0,
        before.consumers == 0,
    ensures
        before.registered_times(n).released_times(n) == Population::<P>::empty(),
        before.registered_times(n).released_times(n).torn_down(),
{
    lemma_registrations_count(before, n);
    lemma_releases_tear_down(before.registered_times(n), n);
}

/// A release without a consumer changes nothing: the count never falls below
/// zero.
pub proof fn lemma_release_without_consumer<P>(before: Population<P>, n: nat)
    requires
        before.consumers == 0,
    ensures
        before.released_times(n) == before,
    decreases n,
{
    if n > 0 {
        lemma_release_without_consumer(before, (n - 1) as nat);
    }
}

} // verus!
