//! The decoded-prompt cache.
use siphon_rtp_engine::prompt_cache::{CachedPrompt, LoadStep, PromptCache, PromptError, PromptKey};
use std::sync::Arc;

fn key(path: &str, len: u64) -> PromptKey {
    PromptKey { path: path.to_string(), modified_nanos: Some(1_000), len }
}

fn prompt(samples: usize, value: i16) -> CachedPrompt {
    CachedPrompt { mono: Arc::new(vec![value; samples]), sample_rate_hz: 8000 }
}

/// What reading and decoding a file comes to.
fn read(samples: usize, value: i16) -> Result<Result<CachedPrompt, String>, String> {
    Ok(Ok(prompt(samples, value)))
}

/// Loads a prompt: from the cache, or else read and decoded afresh.
fn get_or_load(cache: &mut PromptCache, path: &str, samples: usize, value: i16) -> CachedPrompt {
    let at = Some(key(path, samples as u64 * 2 + 44));
    match cache.load_begun(&at) {
        LoadStep::Hit { prompt } => prompt,
        LoadStep::Read => cache.loaded(at, read(samples, value)).expect("a readable prompt"),
    }
}

#[test]
fn a_second_play_of_one_prompt_reuses_the_decoded_buffer() {
    let mut cache = PromptCache::new(1 << 20);
    let first = get_or_load(&mut cache, "hold.wav", 800, 1234);
    let second = get_or_load(&mut cache, "hold.wav", 800, 1234);
    assert!(Arc::ptr_eq(&first.mono, &second.mono));
    assert_eq!(cache.stats(), (1, 1), "one miss then one hit");
    assert_eq!(first.sample_rate_hz, 8000);
    assert_eq!(first.mono.len(), 800);
}

#[test]
fn re_recording_a_prompt_takes_effect_on_the_next_play() {
    let mut cache = PromptCache::new(1 << 20);
    let before = get_or_load(&mut cache, "greeting.wav", 400, 100);
    assert_eq!(before.mono.len(), 400);
    let after = get_or_load(&mut cache, "greeting.wav", 800, 200);
    assert_eq!(after.mono.len(), 800, "the new recording is served");
    assert!(!Arc::ptr_eq(&before.mono, &after.mono));
}

#[test]
fn the_cache_stays_inside_its_budget_and_evicts_the_least_recently_used() {
    let paths = ["prompt-0.wav", "prompt-1.wav", "prompt-2.wav"];
    let mut cache = PromptCache::new(1600);
    get_or_load(&mut cache, paths[0], 400, 1);
    get_or_load(&mut cache, paths[1], 400, 2);
    get_or_load(&mut cache, paths[0], 400, 1);
    get_or_load(&mut cache, paths[2], 400, 3);
    assert!(cache.used_bytes() <= 1600);
    let (hits_before, _) = cache.stats();
    get_or_load(&mut cache, paths[0], 400, 1);
    let (hits_after, _) = cache.stats();
    assert_eq!(hits_after, hits_before + 1, "the recently used entry stayed");
    let (_, misses_before) = cache.stats();
    get_or_load(&mut cache, paths[1], 400, 2);
    let (_, misses_after) = cache.stats();
    assert_eq!(misses_after, misses_before + 1, "the least recently used entry was the one evicted");
}

#[test]
fn a_prompt_larger_than_the_whole_budget_is_played_but_never_cached() {
    let mut cache = PromptCache::new(1000);
    let loaded = get_or_load(&mut cache, "huge.wav", 4000, 7);
    assert_eq!(loaded.mono.len(), 4000);
    assert_eq!(cache.used_bytes(), 0, "and nothing was cached");
}

#[test]
fn a_zero_budget_disables_caching_without_breaking_playback() {
    let mut cache = PromptCache::new(0);
    let first = get_or_load(&mut cache, "prompt.wav", 200, 5);
    let second = get_or_load(&mut cache, "prompt.wav", 200, 5);
    assert_eq!(first.mono.len(), 200);
    assert!(!Arc::ptr_eq(&first.mono, &second.mono));
    assert_eq!(cache.used_bytes(), 0);
}

#[test]
fn a_missing_or_malformed_prompt_reports_a_typed_error() {
    let mut cache = PromptCache::new(1 << 20);
    assert!(matches!(cache.load_begun(&None), LoadStep::Read));
    let missing = cache.loaded(None, Err("No such file".to_string()));
    let Err(PromptError::Read { error }) = &missing else {
        panic!("expected a read error");
    };
    assert_eq!(error, "No such file");
    let garbage_key = Some(key("garbage.wav", 16));
    assert!(matches!(cache.load_begun(&garbage_key), LoadStep::Read));
    let garbage = cache.loaded(garbage_key, Ok(Err("not a RIFF file".to_string())));
    let Err(PromptError::Parse { error }) = &garbage else {
        panic!("expected a parse error");
    };
    assert_eq!(error, "not a RIFF file");
    assert_eq!(cache.used_bytes(), 0, "nothing of a failed load is cached");
    assert!(cache.lookup(&key("garbage.wav", 16)).is_none());
    let messages: Vec<String> = [missing, garbage]
        .into_iter()
        .map(|load| load.err().expect("an error").message())
        .collect();
    assert!(messages[0].ends_with("No such file") && messages[1].ends_with("not a RIFF file"));
    assert_ne!(messages[0], messages[1]);
}

#[test]
fn a_prompt_without_a_key_is_played_but_never_cached() {
    let mut cache = PromptCache::new(1 << 20);
    assert!(matches!(cache.load_begun(&None), LoadStep::Read));
    let loaded = cache.loaded(None, read(80, 3)).expect("a readable prompt");
    assert_eq!((loaded.mono.len(), loaded.mono[0]), (80, 3));
    assert_eq!((cache.used_bytes(), cache.stats()), (0, (0, 0)));
}

#[test]
fn an_unchanged_file_is_read_once_and_a_changed_one_again() {
    let mut cache = PromptCache::new(1 << 20);
    let at = |modified: u128, len: u64| {
        Some(PromptKey { path: "a.wav".to_string(), modified_nanos: Some(modified), len })
    };
    assert!(matches!(cache.load_begun(&at(1, 100)), LoadStep::Read));
    let first = cache.loaded(at(1, 100), read(50, 1)).expect("a readable prompt");
    get_or_load(&mut cache, "other.wav", 10, 9);
    let LoadStep::Hit { prompt } = cache.load_begun(&at(1, 100)) else {
        panic!("an unchanged file is not read again");
    };
    assert!(Arc::ptr_eq(&first.mono, &prompt.mono));
    assert!(matches!(cache.load_begun(&at(2, 100)), LoadStep::Read), "written again");
    assert!(matches!(cache.load_begun(&at(1, 102)), LoadStep::Read), "another length");
    let second = cache.loaded(at(1, 100), read(50, 2)).expect("a readable prompt");
    let LoadStep::Hit { prompt } = cache.load_begun(&at(1, 100)) else {
        panic!("held");
    };
    assert!(Arc::ptr_eq(&second.mono, &prompt.mono), "the last load counts");
}

#[test]
fn no_more_prompts_go_than_must() {
    let mut cache = PromptCache::new(1000);
    for (path, samples) in [("a", 100), ("b", 150), ("c", 250)] {
        cache.insert(key(path, 1), prompt(samples, 1));
    }
    cache.insert(key("d", 1), prompt(200, 1));
    assert_eq!(cache.used_bytes(), 900, "a and b made room");
    assert!(cache.lookup(&key("a", 1)).is_none() && cache.lookup(&key("b", 1)).is_none());
    assert!(cache.lookup(&key("c", 1)).is_some() && cache.lookup(&key("d", 1)).is_some());
}

#[test]
fn an_oversized_prompt_leaves_the_one_under_its_key() {
    let mut cache = PromptCache::new(1000);
    cache.insert(key("a", 1), prompt(400, 1));
    cache.insert(key("a", 1), prompt(501, 2));
    assert_eq!(cache.used_bytes(), 800);
    assert_eq!(cache.lookup(&key("a", 1)).expect("held").mono[0], 1);
}

#[test]
fn replacing_a_prompt_frees_what_it_held() {
    let mut cache = PromptCache::new(4000);
    cache.insert(key("a", 1), prompt(400, 1));
    cache.insert(key("a", 1), prompt(500, 2));
    assert_eq!(cache.used_bytes(), 1000);
    let held = cache.lookup(&key("a", 1)).expect("held");
    assert_eq!((held.mono.len(), held.mono[0]), (500, 2));
    assert!(cache.lookup(&key("b", 1)).is_none());
    assert!(cache.lookup(&key("a", 2)).is_none());
    let other = PromptKey { path: "a".to_string(), modified_nanos: None, len: 1 };
    assert!(cache.lookup(&other).is_none());
    assert!(!other.same(&key("a", 1)) && other.same(&other));
}

#[test]
fn a_prompt_costs_two_bytes_a_sample() {
    let held = prompt(321, 1);
    assert_eq!(held.size_bytes(), 642);
    assert!(Arc::ptr_eq(&held.mono, &held.shared().mono), "shared, not copied");
}
