use forward_render::population::{ProgramPopulationCache, ProgramSlot};
use std::cell::Cell;

const SLOTS: [ProgramSlot; 4] = [
    ProgramSlot::ColorAmbient,
    ProgramSlot::ColorAmbientDirectional,
    ProgramSlot::TextureAmbient,
    ProgramSlot::TextureAmbientDirectional,
];

#[test]
fn new_population_cache_is_empty() {
    let cache: ProgramPopulationCache<u32> = ProgramPopulationCache::new();
    assert_eq!(cache.population(), 0);
    for slot in SLOTS {
        assert!(cache.get(slot).is_none());
    }
}

#[test]
fn ensure_builds_only_into_an_empty_slot() {
    let built = Cell::new(0u32);
    let mut cache: ProgramPopulationCache<u32> = ProgramPopulationCache::new();
    cache.register_consumer();
    for _ in 0..3 {
        let r: Result<&u32, String> = cache.ensure(ProgramSlot::TextureAmbient, || {
            built.set(built.get() + 1);
            Ok(10 + built.get())
        });
        assert_eq!(r, Ok(&11));
    }
    assert_eq!(built.get(), 1);
    assert_eq!(cache.get(ProgramSlot::TextureAmbient), Some(&11));
    assert!(cache.get(ProgramSlot::ColorAmbient).is_none());
    assert!(cache.get(ProgramSlot::ColorAmbientDirectional).is_none());
    assert!(cache.get(ProgramSlot::TextureAmbientDirectional).is_none());
    assert_eq!(cache.population(), 1);
}

#[test]
fn ensure_failure_leaves_the_slot_empty() {
    let mut cache: ProgramPopulationCache<u32> = ProgramPopulationCache::new();
    let r: Result<&u32, String> =
        cache.ensure(ProgramSlot::ColorAmbient, || Err("link".to_string()));
    assert_eq!(r, Err("link".to_string()));
    assert!(cache.get(ProgramSlot::ColorAmbient).is_none());
    let r: Result<&u32, String> = cache.ensure(ProgramSlot::ColorAmbient, || Ok(2));
    assert_eq!(r, Ok(&2));
}

#[test]
fn slots_are_independent() {
    let mut cache: ProgramPopulationCache<u32> = ProgramPopulationCache::new();
    cache.register_consumer();
    for (n, slot) in SLOTS.iter().enumerate() {
        let r: Result<&u32, ()> = cache.ensure(*slot, || Ok(n as u32));
        assert_eq!(r, Ok(&(n as u32)));
    }
    for (n, slot) in SLOTS.iter().enumerate() {
        assert_eq!(cache.get(*slot), Some(&(n as u32)));
    }
}

#[test]
fn fill_takes_a_program_and_hands_on_a_failure() {
    let mut cache: ProgramPopulationCache<u32> = ProgramPopulationCache::new();
    let r: Result<(), String> = cache.fill(ProgramSlot::ColorAmbient, Err("bad".to_string()));
    assert_eq!(r, Err("bad".to_string()));
    assert!(cache.get(ProgramSlot::ColorAmbient).is_none());
    let r: Result<(), String> = cache.fill(ProgramSlot::ColorAmbient, Ok(8));
    assert_eq!(r, Ok(()));
    assert_eq!(cache.get(ProgramSlot::ColorAmbient), Some(&8));
    // A filled slot keeps its program.
    let r: Result<(), String> = cache.fill(ProgramSlot::ColorAmbient, Ok(9));
    assert_eq!(r, Ok(()));
    assert_eq!(cache.get(ProgramSlot::ColorAmbient), Some(&8));
    assert!(cache.get(ProgramSlot::TextureAmbient).is_none());
}

#[test]
fn registrations_followed_by_as_many_releases_clear_all_slots() {
    for n in 1..6u32 {
        let mut cache: ProgramPopulationCache<u32> = ProgramPopulationCache::new();
        for _ in 0..n {
            cache.register_consumer();
        }
        assert_eq!(cache.population(), n);
        for slot in SLOTS {
            let _: Result<&u32, ()> = cache.ensure(slot, || Ok(1));
        }
        for left in (0..n).rev() {
            // Until the last release every program stays.
            for slot in SLOTS {
                assert_eq!(cache.get(slot), Some(&1));
            }
            assert!(cache.release_consumer());
            assert_eq!(cache.population(), left);
        }
        for slot in SLOTS {
            assert!(cache.get(slot).is_none());
        }
    }
}

#[test]
fn release_without_consumer_does_nothing() {
    let mut cache: ProgramPopulationCache<u32> = ProgramPopulationCache::new();
    assert!(!cache.release_consumer());
    assert_eq!(cache.population(), 0);

    cache.register_consumer();
    assert!(cache.release_consumer());
    assert!(!cache.release_consumer());
    assert!(!cache.release_consumer());
    assert_eq!(cache.population(), 0);
}

#[test]
fn programs_are_rebuilt_after_teardown() {
    let built = Cell::new(0u32);
    let mut cache: ProgramPopulationCache<u32> = ProgramPopulationCache::new();
    for round in 1..4u32 {
        cache.register_consumer();
        let r: Result<&u32, ()> = cache.ensure(ProgramSlot::ColorAmbient, || {
            built.set(built.get() + 1);
            Ok(built.get())
        });
        assert_eq!(r, Ok(&round));
        assert!(cache.release_consumer());
    }
    assert_eq!(built.get(), 3);
}

#[test]
fn release_consumers_releases_one_after_the_other() {
    let mut cache: ProgramPopulationCache<u32> = ProgramPopulationCache::new();
    for _ in 0..3 {
        cache.register_consumer();
    }
    let _: Result<&u32, ()> = cache.ensure(ProgramSlot::ColorAmbient, || Ok(1));
    cache.release_consumers(2);
    assert_eq!(cache.population(), 1);
    assert_eq!(cache.get(ProgramSlot::ColorAmbient), Some(&1));
    cache.release_consumers(5);
    assert_eq!(cache.population(), 0);
    assert!(cache.get(ProgramSlot::ColorAmbient).is_none());
    cache.release_consumers(0);
    assert_eq!(cache.population(), 0);
}
