//! A bounded cache of decoded prompts: what is used least recently makes room.
use crate::text::joined;
use std::sync::Arc;
use vstd::prelude::*;

verus! {

/// A decoded prompt. Players share its samples.
#[derive(Clone, Debug)]
pub struct CachedPrompt {
    /// Mono samples.
    pub mono: Arc<Vec<i16>>,
    /// The rate of the samples.
    pub sample_rate_hz: u32,
}

/// The content of a [`CachedPrompt`].
pub struct CachedPromptView {
    pub mono: Seq<i16>,
    pub sample_rate_hz: u32,
}

impl View for CachedPrompt {
    type V = CachedPromptView;

    open spec fn view(&self) -> CachedPromptView {
        CachedPromptView { mono: (*self.mono)@, sample_rate_hz: self.sample_rate_hz }
    }
}

/// Bytes a prompt holds.
pub open spec fn prompt_bytes(prompt: CachedPromptView) -> nat {
    2 * prompt.mono.len()
}

/// `Arc::clone` makes another pointer to the same value.
#[verifier::external_body]
fn share(samples: &Arc<Vec<i16>>) -> (shared: Arc<Vec<i16>>)
    ensures
        shared == *samples,
{
    Arc::clone(samples)
}

impl CachedPrompt {
    /// Bytes the prompt holds.
    pub fn size_bytes(&self) -> (size: u128)
        ensures
            size == prompt_bytes(self@),
    {
        let samples: usize = self.mono.len();
        samples as u128 * 2
    }

    /// The same prompt, sharing its samples.
    pub fn shared(&self) -> (prompt: CachedPrompt)
        ensures
            prompt@ == self@,
    {
        CachedPrompt { mono: share(&self.mono), sample_rate_hz: self.sample_rate_hz }
    }
}

/// What identifies a prompt file: a file that was written again is another prompt.
#[derive(Clone, Debug, PartialEq, Eq, Hash)]
pub struct PromptKey {
    pub path: String,
    /// When it was last written, where the file system says so.
    pub modified_nanos: Option<u128>,
    pub len: u64,
}

/// The content of a [`PromptKey`].
pub struct PromptKeyView {
    pub path: Seq<char>,
    pub modified_nanos: Option<u128>,
    pub len: u64,
}

impl View for PromptKey {
    type V = PromptKeyView;

    open spec fn view(&self) -> PromptKeyView {
        PromptKeyView { path: self.path@, modified_nanos: self.modified_nanos, len: self.len }
    }
}

impl PromptKey {
    /// Whether two keys name the same prompt.
    pub fn same(&self, other: &PromptKey) -> (same: bool)
        ensures
            same == (self@ == other@),
    {
        self.len == other.len && self.modified_nanos == other.modified_nanos && self.path == other.path
    }
}

/// A cached prompt with the stamp of its last use.
#[derive(Debug)]
struct Entry {
    key: PromptKey,
    prompt: CachedPrompt,
    used: u64,
}

/// The content of a cache entry.
pub struct EntryView {
    pub key: PromptKeyView,
    pub prompt: CachedPromptView,
    /// The stamp of its last use. A larger one is more recent.
    pub used: u64,
}

/// Bytes a list of entries holds.
pub open spec fn total_bytes(entries: Seq<EntryView>) -> nat
    decreases entries.len(),
{
    if entries.len() == 0 {
        0
    } else {
        total_bytes(entries.drop_last()) + prompt_bytes(entries.last().prompt)
    }
}

/// The entries that were used at a stamp or later.
pub open spec fn since(entries: Seq<EntryView>, stamp: int) -> Seq<EntryView> {
    entries.filter(|entry: EntryView| entry.used >= stamp)
}

/// Whether an entry stays within a budget: it and everything used more recently fit.
pub open spec fn stays(entries: Seq<EntryView>, entry: EntryView, budget: nat) -> bool {
    total_bytes(since(entries, entry.used as int)) <= budget
}

/// The entries that stay within a budget.
pub open spec fn trimmed(entries: Seq<EntryView>, budget: nat) -> Seq<EntryView> {
    entries.filter(|entry: EntryView| stays(entries, entry, budget))
}

/// A list of entries with one more, in place of the one under the same key.
pub open spec fn placed(entries: Seq<EntryView>, entry: EntryView) -> Seq<EntryView> {
    entries.filter(|other: EntryView| other.key != entry.key).push(entry)
}

/// Whether a key is in a list of entries.
pub open spec fn holds_key(entries: Seq<EntryView>, key: PromptKeyView) -> bool {
    exists|i: int| 0 <= i < entries.len() && (#[trigger] entries[i]).key == key
}

/// No key and no stamp occurs twice, and no stamp lies ahead of the clock.
pub open spec fn tidy(entries: Seq<EntryView>, clock: u64) -> bool {
    &&& forall|i: int, j: int|
        0 <= i < j < entries.len() ==> (#[trigger] entries[i]).key != (#[trigger] entries[j]).key && entries[i].used
            != entries[j].used
    &&& forall|i: int| 0 <= i < entries.len() ==> (#[trigger] entries[i]).used <= clock
}

/// The cache of decoded prompts.
#[derive(Debug)]
pub struct PromptCache {
    entries: Vec<Entry>,
    capacity_bytes: usize,
    clock: u64,
    used: u128,
    hits: u64,
    misses: u64,
}

/// The state of a [`PromptCache`].
pub struct PromptCacheView {
    pub entries: Seq<EntryView>,
    pub capacity_bytes: nat,
    /// The stamp of the last use.
    pub clock: u64,
    pub hits: u64,
    pub misses: u64,
}

impl View for Entry {
    type V = EntryView;

    closed spec fn view(&self) -> EntryView {
        EntryView { key: self.key@, prompt: self.prompt@, used: self.used }
    }
}

/// The contents of a list of entries.
spec fn entry_views(entries: Seq<Entry>) -> Seq<EntryView> {
    Seq::new(entries.len(), |i: int| entries[i]@)
}

impl View for PromptCache {
    type V = PromptCacheView;

    closed spec fn view(&self) -> PromptCacheView {
        PromptCacheView {
            entries: entry_views(self.entries@),
            capacity_bytes: self.capacity_bytes as nat,
            clock: self.clock,
            hits: self.hits,
            misses: self.misses,
        }
    }
}

impl PromptCacheView {
    /// What always holds: the entries are tidy and within the budget, and every lookup was a hit or a
    /// miss.
    pub open spec fn wf(self) -> bool {
        &&& tidy(self.entries, self.clock)
        &&& total_bytes(self.entries) <= self.capacity_bytes
        &&& self.hits + self.misses <= self.clock
    }

    /// A cache that holds nothing.
    pub open spec fn empty(capacity_bytes: nat) -> PromptCacheView {
        PromptCacheView { entries: Seq::empty(), capacity_bytes, clock: 0, hits: 0, misses: 0 }
    }

    /// Whether a prompt is cached at all: there is a budget, and the prompt fits the whole of it.
    pub open spec fn admits(self, prompt: CachedPromptView) -> bool {
        self.capacity_bytes > 0 && prompt_bytes(prompt) <= self.capacity_bytes
    }

    /// The cache after a prompt was put in: nothing changes where the prompt does not fit the whole budget.
    /// Otherwise it takes the place of the one under its key, newest of all, and those used least recently
    /// make room.
    pub open spec fn inserted(self, key: PromptKeyView, prompt: CachedPromptView) -> PromptCacheView {
        if !self.admits(prompt) {
            self
        } else {
            let clock = (self.clock + 1) as u64;
            PromptCacheView {
                entries: trimmed(
                    placed(self.entries, EntryView { key, prompt, used: clock }),
                    self.capacity_bytes,
                ),
                clock,
                ..self
            }
        }
    }

    /// The cache after a prompt under a key that is not held was asked for.
    pub open spec fn missed(self) -> PromptCacheView {
        PromptCacheView { clock: (self.clock + 1) as u64, misses: (self.misses + 1) as u64, ..self }
    }

    /// The cache after the prompt at a place was taken out: it is the one used most recently.
    pub open spec fn hit(self, i: int) -> PromptCacheView {
        let clock = (self.clock + 1) as u64;
        PromptCacheView {
            entries: self.entries.update(i, EntryView { used: clock, ..self.entries[i] }),
            clock,
            hits: (self.hits + 1) as u64,
            ..self
        }
    }

    /// The place of a key, where it is held.
    pub open spec fn place(self, key: PromptKeyView, i: int) -> bool {
        0 <= i < self.entries.len() && self.entries[i].key == key
    }

    /// The prompt that is held under a key.
    pub open spec fn held(self, key: PromptKeyView) -> Option<CachedPromptView> {
        if holds_key(self.entries, key) {
            Some(self.entries[choose|i: int| self.place(key, i)].prompt)
        } else {
            None
        }
    }

    /// The cache after the prompt under a key was asked for.
    pub open spec fn asked(self, key: PromptKeyView) -> PromptCacheView {
        if holds_key(self.entries, key) {
            self.hit(choose|i: int| self.place(key, i))
        } else {
            self.missed()
        }
    }

    /// The cache after an event.
    pub open spec fn happened(self, event: CacheEvent) -> PromptCacheView {
        match event {
            CacheEvent::Begun { key: Some(key) } => self.asked(key),
            CacheEvent::Loaded { key: Some(key), prompt: Some(prompt) } => self.inserted(key, prompt),
            _ => self,
        }
    }

    /// The cache after a history of events.
    pub open spec fn after(self, history: Seq<CacheEvent>) -> PromptCacheView
        decreases history.len(),
    {
        if history.len() == 0 {
            self
        } else {
            self.after(history.drop_last()).happened(history.last())
        }
    }

    /// What a history put into the cache under a key last.
    pub open spec fn last_loaded(self, history: Seq<CacheEvent>, key: PromptKeyView) -> Option<CachedPromptView>
        decreases history.len(),
    {
        if history.len() == 0 {
            None
        } else {
            match history.last() {
                CacheEvent::Loaded { key: Some(at), prompt: Some(prompt) } if at == key && self.admits(prompt) => Some(
                    prompt,
                ),
                _ => self.last_loaded(history.drop_last(), key),
            }
        }
    }
}

/// What happens to a cache. Where the file system says nothing of a file there is no key, and where a file
/// could not be read or decoded there is no prompt.
pub enum CacheEvent {
    /// A prompt was asked for.
    Begun { key: Option<PromptKeyView> },
    /// A file was read and decoded.
    Loaded { key: Option<PromptKeyView>, prompt: Option<CachedPromptView> },
}

impl CacheEvent {
    /// Whether a file was read and decoded under a key.
    pub open spec fn loads(self, key: PromptKeyView) -> bool {
        self matches CacheEvent::Loaded { key: Some(at), prompt: Some(_) } && at == key
    }
}

/// A filter keeps everything where everything passes.
proof fn lemma_filter_all(entries: Seq<EntryView>, pred: spec_fn(EntryView) -> bool)
    requires
        forall|i: int| 0 <= i < entries.len() ==> pred(#[trigger] entries[i]),
    ensures
        entries.filter(pred) == entries,
    decreases entries.len(),
{
    reveal(Seq::filter);
    if entries.len() > 0 {
        let prior = entries.drop_last();
        assert forall|i: int| 0 <= i < prior.len() implies pred(#[trigger] prior[i]) by {
            assert(prior[i] == entries[i]);
        }
        lemma_filter_all(prior, pred);
        assert(pred(entries[entries.len() - 1]));
        assert(prior.push(entries.last()) =~= entries);
    }
}

/// Filtering by two conditions, one of which implies the other, is filtering by the stronger.
proof fn lemma_filter_twice(
    entries: Seq<EntryView>,
    weak: spec_fn(EntryView) -> bool,
    strong: spec_fn(EntryView) -> bool,
)
    requires
        forall|entry: EntryView| #[trigger] strong(entry) ==> weak(entry),
    ensures
        entries.filter(weak).filter(strong) == entries.filter(strong),
    decreases entries.len(),
{
    reveal(Seq::filter);
    if entries.len() > 0 {
        let prior = entries.drop_last();
        lemma_filter_twice(prior, weak, strong);
        if weak(entries.last()) {
            let kept = prior.filter(weak).push(entries.last());
            assert(kept.drop_last() =~= prior.filter(weak));
        }
    }
}

/// Two conditions that agree on every element filter alike.
proof fn lemma_filter_same(
    entries: Seq<EntryView>,
    first: spec_fn(EntryView) -> bool,
    second: spec_fn(EntryView) -> bool,
)
    requires
        forall|i: int| 0 <= i < entries.len() ==> first(#[trigger] entries[i]) == second(entries[i]),
    ensures
        entries.filter(first) == entries.filter(second),
    decreases entries.len(),
{
    reveal(Seq::filter);
    if entries.len() > 0 {
        let prior = entries.drop_last();
        assert forall|i: int| 0 <= i < prior.len() implies first(#[trigger] prior[i]) == second(prior[i]) by {
            assert(prior[i] == entries[i]);
        }
        lemma_filter_same(prior, first, second);
        assert(first(entries[entries.len() - 1]) == second(entries[entries.len() - 1]));
    }
}

/// What a filter leaves is no larger.
proof fn lemma_filter_bytes(entries: Seq<EntryView>, pred: spec_fn(EntryView) -> bool)
    ensures
        total_bytes(entries.filter(pred)) <= total_bytes(entries),
    decreases entries.len(),
{
    reveal(Seq::filter);
    if entries.len() > 0 {
        let prior = entries.drop_last();
        lemma_filter_bytes(prior, pred);
        if pred(entries.last()) {
            let kept = prior.filter(pred).push(entries.last());
            assert(kept.drop_last() =~= prior.filter(pred));
        }
    }
}

/// A filter keeps the order and makes nothing up.
proof fn lemma_filter_tidy(entries: Seq<EntryView>, clock: u64, pred: spec_fn(EntryView) -> bool)
    requires
        tidy(entries, clock),
    ensures
        tidy(entries.filter(pred), clock),
        forall|i: int|
            0 <= i < entries.filter(pred).len() ==> pred(#[trigger] entries.filter(pred)[i]) && exists|j: int|
                0 <= j < entries.len() && entries[j] == entries.filter(pred)[i],
    decreases entries.len(),
{
    reveal(Seq::filter);
    if entries.len() > 0 {
        let prior = entries.drop_last();
        assert(tidy(prior, clock)) by {
            assert forall|i: int, j: int| 0 <= i < j < prior.len() implies (#[trigger] prior[i]).key != (
            #[trigger] prior[j]).key && prior[i].used != prior[j].used by {
                assert(prior[i] == entries[i] && prior[j] == entries[j]);
            }
            assert forall|i: int| 0 <= i < prior.len() implies (#[trigger] prior[i]).used <= clock by {
                assert(prior[i] == entries[i]);
            }
        }
        lemma_filter_tidy(prior, clock, pred);
        let kept = entries.filter(pred);
        let before = prior.filter(pred);
        assert forall|i: int| 0 <= i < kept.len() implies pred(#[trigger] kept[i]) && exists|j: int|
            0 <= j < entries.len() && entries[j] == kept[i] by {
            if i < before.len() {
                assert(kept[i] == before[i]);
                let j = choose|j: int| 0 <= j < prior.len() && prior[j] == before[i];
                assert(entries[j] == kept[i]);
            } else {
                assert(entries[entries.len() - 1] == kept[i]);
            }
        }
        assert(tidy(kept, clock)) by {
            assert forall|i: int, j: int| 0 <= i < j < kept.len() implies (#[trigger] kept[i]).key != (
            #[trigger] kept[j]).key && kept[i].used != kept[j].used by {
                assert(kept[i] == before[i]);
                if j < before.len() {
                    assert(kept[j] == before[j]);
                } else {
                    let k = choose|k: int| 0 <= k < prior.len() && prior[k] == before[i];
                    assert(entries[k] == kept[i]);
                    assert(entries[entries.len() - 1] == kept[j]);
                }
            }
            assert forall|i: int| 0 <= i < kept.len() implies (#[trigger] kept[i]).used <= clock by {
                let j = choose|j: int| 0 <= j < entries.len() && entries[j] == kept[i];
                assert(entries[j].used <= clock);
            }
        }
    }
}

/// Taking one element out of a tidy list is keeping those with another stamp.
proof fn lemma_remove_is_filter(entries: Seq<EntryView>, clock: u64, i: int)
    requires
        tidy(entries, clock),
        0 <= i < entries.len(),
    ensures
        entries.remove(i) == entries.filter(|entry: EntryView| entry.used != entries[i].used),
        total_bytes(entries) == total_bytes(entries.remove(i)) + prompt_bytes(entries[i].prompt),
    decreases entries.len(),
{
    reveal(Seq::filter);
    let pred = |entry: EntryView| entry.used != entries[i].used;
    let prior = entries.drop_last();
    if i == entries.len() - 1 {
        assert forall|j: int| 0 <= j < prior.len() implies pred(#[trigger] prior[j]) by {
            assert(prior[j] == entries[j]);
            assert(entries[j].used != entries[i].used);
        }
        lemma_filter_all(prior, pred);
        assert(entries.remove(i) =~= prior);
    } else {
        assert(tidy(prior, clock)) by {
            assert forall|a: int, b: int| 0 <= a < b < prior.len() implies (#[trigger] prior[a]).key != (
            #[trigger] prior[b]).key && prior[a].used != prior[b].used by {
                assert(prior[a] == entries[a] && prior[b] == entries[b]);
            }
            assert forall|a: int| 0 <= a < prior.len() implies (#[trigger] prior[a]).used <= clock by {
                assert(prior[a] == entries[a]);
            }
        }
        lemma_remove_is_filter(prior, clock, i);
        assert(prior[i] == entries[i]);
        lemma_filter_same(prior, |entry: EntryView| entry.used != prior[i].used, pred);
        assert(entries[i].used != entries[entries.len() - 1].used);
        assert(entries.remove(i) =~= prior.remove(i).push(entries.last()));
        assert(entries.remove(i).drop_last() =~= prior.remove(i));
    }
}

impl PromptCache {
    /// What always holds, and the running total is right.
    pub closed spec fn wf(&self) -> bool {
        &&& self@.wf()
        &&& self.used == total_bytes(self@.entries)
    }

    /// The cache never holds more than its budget, nor a prompt twice, and every lookup was a hit or a
    /// miss.
    pub proof fn law_stays_inside_its_budget(&self)
        requires
            self.wf(),
        ensures
            total_bytes(self@.entries) <= self@.capacity_bytes,
            tidy(self@.entries, self@.clock),
            self@.hits + self@.misses <= self@.clock,
    {
    }

    /// An empty cache for at most `capacity_bytes` bytes of samples. Zero means that nothing is cached.
    pub fn new(capacity_bytes: usize) -> (cache: Self)
        ensures
            cache.wf(),
            cache@ == PromptCacheView::empty(capacity_bytes as nat),
    {
        let cache = PromptCache { entries: Vec::new(), capacity_bytes, clock: 0, used: 0, hits: 0, misses: 0 };
        proof {
            assert(cache@.entries =~= Seq::empty());
        }
        cache
    }

    /// Hits and misses so far.
    pub fn stats(&self) -> (counts: (u64, u64))
        ensures
            counts == (self@.hits, self@.misses),
    {
        (self.hits, self.misses)
    }

    /// The stamp of the last use.
    pub fn clock(&self) -> (stamp: u64)
        ensures
            stamp == self@.clock,
    {
        self.clock
    }

    /// Bytes of samples held.
    pub fn used_bytes(&self) -> (bytes: usize)
        requires
            self.wf(),
        ensures
            bytes == total_bytes(self@.entries),
    {
        self.used as usize
    }

    /// The place of a key.
    fn position(&self, key: &PromptKey) -> (found: Option<usize>)
        ensures
            found is Some == holds_key(self@.entries, key@),
            found matches Some(i) ==> self@.place(key@, i as int),
    {
        let mut i: usize = 0;
        while i < self.entries.len()
            invariant
                i <= self.entries@.len(),
                forall|j: int| 0 <= j < i ==> (#[trigger] self@.entries[j]).key != key@,
            decreases self.entries@.len() - i,
        {
            if self.entries[i].key.same(key) {
                proof {
                    assert(self@.entries[i as int].key == key@);
                }
                return Some(i);
            }
            i = i + 1;
        }
        None
    }

    /// Take a prompt out of the cache, and note that it was used.
    pub fn lookup(&mut self, key: &PromptKey) -> (found: Option<CachedPrompt>)
        requires
            old(self).wf(),
            old(self)@.clock < u64::MAX,
        ensures
            final(self).wf(),
            found is Some == holds_key(old(self)@.entries, key@),
            prompt_view(found) == old(self)@.held(key@),
            final(self)@ == old(self)@.asked(key@),
    {
        let ghost before = self@;
        let place = self.position(key);
        self.clock = self.clock + 1;
        match place {
            None => {
                self.misses = self.misses + 1;
                proof {
                    assert(self@.entries =~= before.entries);
                    assert(self@ == before.missed());
                }
                None
            },
            Some(i) => {
                let prompt = self.entries[i].prompt.shared();
                self.entries[i].used = self.clock;
                self.hits = self.hits + 1;
                proof {
                    let stamped = EntryView { used: self.clock, ..before.entries[i as int] };
                    assert(self@.entries =~= before.entries.update(i as int, stamped));
                    assert(self@ == before.hit(i as int));
                    lemma_one_place(before, key@, i as int);
                    lemma_hit(before, key@, i as int);
                }
                Some(prompt)
            },
        }
    }

    /// Put a prompt into the cache. Prompts that were used least recently make room for it. One that
    /// is larger than the whole budget is not cached.
    pub fn insert(&mut self, key: PromptKey, prompt: CachedPrompt)
        requires
            old(self).wf(),
            old(self)@.admits(prompt@) ==> old(self)@.clock < u64::MAX,
        ensures
            final(self).wf(),
            final(self)@ == old(self)@.inserted(key@, prompt@),
    {
        if self.capacity_bytes == 0 {
            return;
        }
        if prompt.size_bytes() > self.capacity_bytes as u128 {
            return;
        }
        self.place(key, prompt);
        self.make_room();
    }

    /// Begin to load a prompt. `key` is what the file system says of the file right now, where it says
    /// anything: a prompt that is held under it is played without reading the file.
    pub fn load_begun(&mut self, key: &Option<PromptKey>) -> (step: LoadStep)
        requires
            old(self).wf(),
            *key is Some ==> old(self)@.clock < u64::MAX,
        ensures
            final(self).wf(),
            final(self)@ == old(self)@.happened(CacheEvent::Begun { key: key_view(*key) }),
            *key is None ==> step is Read,
            *key matches Some(at) ==> {
                &&& step is Hit == holds_key(old(self)@.entries, at@)
                &&& step matches LoadStep::Hit { prompt } ==> Some(prompt@) == old(self)@.held(at@)
            },
    {
        match key {
            None => LoadStep::Read,
            Some(at) => match self.lookup(at) {
                Some(prompt) => LoadStep::Hit { prompt },
                None => LoadStep::Read,
            },
        }
    }

    /// Finish loading a prompt that had to be read. `read` is what reading the file came to, and inside it
    /// what decoding came to. Nothing is cached of a file that could not be read or decoded, nor of one
    /// that the file system says nothing of.
    pub fn loaded(&mut self, key: Option<PromptKey>, read: Result<Result<CachedPrompt, String>, String>) -> (result:
        Result<CachedPrompt, PromptError>)
        requires
            old(self).wf(),
            key is Some && (read matches Ok(Ok(prompt)) && old(self)@.admits(prompt@)) ==> old(self)@.clock < u64::MAX,
        ensures
            final(self).wf(),
            final(self)@ == old(self)@.happened(CacheEvent::Loaded { key: key_view(key), prompt: decoded(read) }),
            read matches Err(error) ==> result == Result::<CachedPrompt, PromptError>::Err(
                PromptError::Read { error },
            ) && final(self)@ == old(self)@,
            read matches Ok(Err(error)) ==> result == Result::<CachedPrompt, PromptError>::Err(
                PromptError::Parse { error },
            ) && final(self)@ == old(self)@,
            read matches Ok(Ok(prompt)) ==> {
                &&& result == Result::<CachedPrompt, PromptError>::Ok(prompt)
                &&& final(self)@ == (match key {
                    Some(at) => old(self)@.inserted(at@, prompt@),
                    None => old(self)@,
                })
            },
    {
        match read {
            Err(error) => Err(PromptError::Read { error }),
            Ok(Err(error)) => Err(PromptError::Parse { error }),
            Ok(Ok(prompt)) => {
                if let Some(at) = key {
                    self.insert(at, prompt.shared());
                }
                Ok(prompt)
            },
        }
    }

    /// Put a prompt in the place of the one under its key, or at the end, whatever the budget.
    fn place(&mut self, key: PromptKey, prompt: CachedPrompt)
        requires
            old(self).wf(),
            old(self)@.clock < u64::MAX,
            prompt_bytes(prompt@) <= old(self)@.capacity_bytes,
        ensures
            final(self)@.capacity_bytes == old(self)@.capacity_bytes,
            final(self)@.hits == old(self)@.hits,
            final(self)@.misses == old(self)@.misses,
            final(self)@.clock == old(self)@.clock + 1,
            final(self)@.entries == placed(
                old(self)@.entries,
                EntryView { key: key@, prompt: prompt@, used: final(self)@.clock },
            ),
            tidy(final(self)@.entries, final(self)@.clock),
            final(self).used == total_bytes(final(self)@.entries),
    {
        let size: u128 = prompt.size_bytes();
        let ghost before = self@;
        let ghost other_key = |other: EntryView| other.key != key@;
        let ghost others = before.entries.filter(other_key);
        let place = self.position(&key);
        self.clock = self.clock + 1;
        match place {
            Some(i) => {
                let old = self.entries.remove(i);
                let old_size: u128 = old.prompt.size_bytes();
                proof {
                    lemma_remove_is_filter(before.entries, before.clock, i as int);
                    lemma_filter_same(
                        before.entries,
                        |entry: EntryView| entry.used != before.entries[i as int].used,
                        other_key,
                    );
                    assert(entry_views(self.entries@) =~= before.entries.remove(i as int));
                    assert(old@ == before.entries[i as int]);
                }
                self.used = self.used - old_size;
            },
            None => {
                proof {
                    lemma_filter_all(before.entries, other_key);
                    assert(entry_views(self.entries@) =~= before.entries);
                }
            },
        }
        proof {
            lemma_filter_bytes(before.entries, other_key);
        }
        let entry = Entry { key, prompt, used: self.clock };
        let ghost new_entry = entry@;
        self.entries.push(entry);
        self.used = self.used + size;
        proof {
            assert(entry_views(self.entries@) =~= others.push(new_entry));
            assert(others.push(new_entry).drop_last() =~= others);
            lemma_placed_tidy(before.entries, before.clock, new_entry);
        }
    }

    /// Take out the prompts that were used least recently until the rest is within the budget.
    fn make_room(&mut self)
        requires
            tidy(old(self)@.entries, old(self)@.clock),
            old(self).used == total_bytes(old(self)@.entries),
            old(self)@.hits + old(self)@.misses <= old(self)@.clock,
        ensures
            final(self).wf(),
            final(self)@.capacity_bytes == old(self)@.capacity_bytes,
            final(self)@.hits == old(self)@.hits,
            final(self)@.misses == old(self)@.misses,
            final(self)@.clock == old(self)@.clock,
            final(self)@.entries == trimmed(old(self)@.entries, old(self)@.capacity_bytes),
    {
        let ghost before = self@;
        let ghost full = before.entries;
        let ghost mut stamp: int = 0;
        proof {
            lemma_filter_all(full, |entry: EntryView| entry.used >= 0);
        }
        while self.used > self.capacity_bytes as u128
            invariant
                full == before.entries,
                tidy(full, self.clock),
                self.clock == before.clock,
                self.capacity_bytes == before.capacity_bytes,
                self.hits == before.hits,
                self.misses == before.misses,
                self@.entries == since(full, stamp),
                self.used == total_bytes(self@.entries),
                none_stays(full, stamp, before.capacity_bytes),
            decreases self.entries@.len(),
        {
            let ghost current = self@.entries;
            proof {
                if self.entries@.len() == 0 {
                    assert(total_bytes(current) == 0);
                }
            }
            let victim: usize = self.oldest();
            let evicted = self.entries.remove(victim);
            let evicted_size: u128 = evicted.prompt.size_bytes();
            proof {
                lemma_evict(full, self.clock, stamp, before.capacity_bytes, victim as int);
                assert(entry_views(self.entries@) =~= current.remove(victim as int));
                assert(evicted@ == current[victim as int]);
                stamp = current[victim as int].used + 1;
            }
            self.used = self.used - evicted_size;
        }
        proof {
            lemma_kept(full, self.clock, stamp, before.capacity_bytes);
        }
    }

    /// The place of the entry used least recently.
    fn oldest(&self) -> (victim: usize)
        requires
            self.entries@.len() > 0,
        ensures
            victim < self.entries@.len(),
            forall|j: int| 0 <= j < self@.entries.len() ==> self@.entries[victim as int].used <= (
            #[trigger] self@.entries[j]).used,
    {
        let mut victim: usize = 0;
        let mut i: usize = 1;
        while i < self.entries.len()
            invariant
                victim < i <= self.entries@.len(),
                forall|j: int| 0 <= j < i ==> self@.entries[victim as int].used <= (#[trigger] self@.entries[j]).used,
            decreases self.entries@.len() - i,
        {
            proof {
                assert(self@.entries[i as int].used == self.entries@[i as int].used);
                assert(self@.entries[victim as int].used == self.entries@[victim as int].used);
            }
            if self.entries[i].used < self.entries[victim].used {
                victim = i;
            }
            i = i + 1;
        }
        victim
    }
}

/// No entry with an earlier stamp stays within the budget.
spec fn none_stays(entries: Seq<EntryView>, stamp: int, budget: nat) -> bool {
    forall|i: int| 0 <= i < entries.len() && (#[trigger] entries[i]).used < stamp ==> !stays(entries, entries[i], budget)
}

/// A prompt put at the end under a new stamp keeps the entries tidy.
proof fn lemma_placed_tidy(entries: Seq<EntryView>, clock: u64, entry: EntryView)
    requires
        tidy(entries, clock),
        entry.used == clock + 1,
    ensures
        tidy(placed(entries, entry), entry.used),
{
    let others = entries.filter(|other: EntryView| other.key != entry.key);
    let full = placed(entries, entry);
    lemma_filter_tidy(entries, clock, |other: EntryView| other.key != entry.key);
    assert forall|a: int, b: int| 0 <= a < b < full.len() implies (#[trigger] full[a]).key != (#[trigger] full[b]).key
        && full[a].used != full[b].used by {
        assert(full[a] == others[a]);
        if b < others.len() {
            assert(full[b] == others[b]);
        }
    }
    assert forall|a: int| 0 <= a < full.len() implies (#[trigger] full[a]).used <= entry.used by {
        if a < others.len() {
            assert(full[a] == others[a]);
        }
    }
}

/// Taking out the least recently used of what is left over budget leaves what has a later stamp, and
/// nothing that stays is lost.
proof fn lemma_evict(full: Seq<EntryView>, clock: u64, stamp: int, budget: nat, victim: int)
    requires
        tidy(full, clock),
        none_stays(full, stamp, budget),
        total_bytes(since(full, stamp)) > budget,
        0 <= victim < since(full, stamp).len(),
        forall|j: int|
            0 <= j < since(full, stamp).len() ==> since(full, stamp)[victim].used <= (#[trigger] since(
                full,
                stamp,
            )[j]).used,
    ensures
        since(full, stamp).remove(victim) == since(full, since(full, stamp)[victim].used + 1),
        total_bytes(since(full, stamp)) == total_bytes(since(full, stamp).remove(victim)) + prompt_bytes(
            since(full, stamp)[victim].prompt,
        ),
        none_stays(full, since(full, stamp)[victim].used + 1, budget),
{
    let weak = |entry: EntryView| entry.used >= stamp;
    let current = since(full, stamp);
    let least = current[victim];
    let at = |entry: EntryView| entry.used >= least.used as int;
    let after = |entry: EntryView| entry.used >= least.used + 1;
    lemma_filter_tidy(full, clock, weak);
    assert(weak(current[victim]));
    lemma_filter_twice(full, weak, at);
    lemma_filter_all(current, at);
    assert(since(full, least.used as int) == current);
    assert forall|i: int| 0 <= i < full.len() && (#[trigger] full[i]).used < least.used + 1 implies !stays(
        full,
        full[i],
        budget,
    ) by {
        if full[i].used >= stamp {
            lemma_filter_contains(full, i, weak);
            let j = choose|j: int| 0 <= j < current.len() && current[j] == full[i];
            assert(current[j].used >= least.used);
            assert(full[i].used == least.used);
        }
    }
    lemma_remove_is_filter(current, clock, victim);
    lemma_filter_twice(full, weak, after);
    let other = |entry: EntryView| entry.used != current[victim].used;
    assert forall|i: int| 0 <= i < current.len() implies other(#[trigger] current[i]) == after(current[i]) by {}
    lemma_filter_same(current, other, after);
}

/// Once what is left is within the budget, it is what stays.
proof fn lemma_kept(full: Seq<EntryView>, clock: u64, stamp: int, budget: nat)
    requires
        tidy(full, clock),
        none_stays(full, stamp, budget),
        total_bytes(since(full, stamp)) <= budget,
    ensures
        since(full, stamp) == trimmed(full, budget),
        tidy(since(full, stamp), clock),
{
    let kept = |entry: EntryView| entry.used >= stamp;
    let staying = |entry: EntryView| stays(full, entry, budget);
    assert forall|i: int| 0 <= i < full.len() implies kept(#[trigger] full[i]) == staying(full[i]) by {
        if full[i].used >= stamp {
            let tighter = |entry: EntryView| entry.used >= full[i].used as int;
            lemma_filter_twice(full, kept, tighter);
            lemma_filter_bytes(full.filter(kept), tighter);
        }
    }
    lemma_filter_same(full, kept, staying);
    lemma_filter_tidy(full, clock, kept);
}

/// An element that passes is kept by a filter.
proof fn lemma_filter_contains(entries: Seq<EntryView>, i: int, pred: spec_fn(EntryView) -> bool)
    requires
        0 <= i < entries.len(),
        pred(entries[i]),
    ensures
        exists|j: int| 0 <= j < entries.filter(pred).len() && entries.filter(pred)[j] == entries[i],
    decreases entries.len(),
{
    reveal(Seq::filter);
    let prior = entries.drop_last();
    let kept = entries.filter(pred);
    if i < prior.len() {
        assert(prior[i] == entries[i]);
        lemma_filter_contains(prior, i, pred);
        let j = choose|j: int| 0 <= j < prior.filter(pred).len() && prior.filter(pred)[j] == prior[i];
        assert(kept[j] == entries[i]);
    } else {
        assert(kept[kept.len() - 1] == entries[i]);
    }
}

/// A new stamp on an entry changes no size.
proof fn lemma_update_bytes(entries: Seq<EntryView>, i: int, entry: EntryView)
    requires
        0 <= i < entries.len(),
        entry.prompt == entries[i].prompt,
    ensures
        total_bytes(entries.update(i, entry)) == total_bytes(entries),
    decreases entries.len(),
{
    let updated = entries.update(i, entry);
    if i == entries.len() - 1 {
        assert(updated.drop_last() =~= entries.drop_last());
    } else {
        assert(updated.drop_last() =~= entries.drop_last().update(i, entry));
        lemma_update_bytes(entries.drop_last(), i, entry);
    }
}

/// The most recently used entry is never the one that makes room: a prompt that fits the budget is
/// held right after it was put in.
pub proof fn law_inserted_prompt_is_held(entries: Seq<EntryView>, clock: u64, entry: EntryView, budget: nat)
    requires
        tidy(entries, clock),
        entry.used > clock,
        prompt_bytes(entry.prompt) <= budget,
    ensures
        trimmed(placed(entries, entry), budget).len() > 0,
        trimmed(placed(entries, entry), budget).last() == entry,
{
    reveal(Seq::filter);
    let full = placed(entries, entry);
    let others = entries.filter(|other: EntryView| other.key != entry.key);
    lemma_filter_tidy(entries, clock, |other: EntryView| other.key != entry.key);
    assert(full.drop_last() =~= others);
    let recent = |other: EntryView| other.used >= entry.used as int;
    assert forall|i: int| 0 <= i < others.len() implies !recent(#[trigger] others[i]) by {
        assert(others[i].used <= clock);
    }
    others.lemma_all_neg_filter_empty(recent);
    assert(since(full, entry.used as int) =~= seq![entry]);
    let only = seq![entry];
    assert(only.drop_last() =~= Seq::empty());
    assert(total_bytes(only) == total_bytes(only.drop_last()) + prompt_bytes(only.last().prompt));
    assert(total_bytes(Seq::<EntryView>::empty()) == 0);
    assert(stays(full, entry, budget));
}

/// What makes room was used less recently than everything that stays.
pub proof fn law_least_recent_makes_room(entries: Seq<EntryView>, budget: nat, i: int, j: int)
    requires
        0 <= i < entries.len(),
        0 <= j < entries.len(),
        stays(entries, entries[i], budget),
        !stays(entries, entries[j], budget),
    ensures
        entries[j].used < entries[i].used,
{
    if entries[j].used >= entries[i].used {
        let weak = |entry: EntryView| entry.used >= entries[i].used as int;
        let strong = |entry: EntryView| entry.used >= entries[j].used as int;
        lemma_filter_twice(entries, weak, strong);
        lemma_filter_bytes(entries.filter(weak), strong);
    }
}

/// A prompt that is larger than the whole budget changes nothing, whatever happened before: it is not cached,
/// and nothing makes room for it. Without a budget nothing is ever cached.
pub proof fn law_oversized_prompt_changes_nothing(
    cache: PromptCacheView,
    history: Seq<CacheEvent>,
    key: PromptKeyView,
    prompt: CachedPromptView,
)
    requires
        cache.capacity_bytes == 0 || prompt_bytes(prompt) > cache.capacity_bytes,
    ensures
        cache.after(history).inserted(key, prompt) == cache.after(history),
{
    lemma_budget_is_kept(cache, history);
}

/// The budget of a cache never changes.
proof fn lemma_budget_is_kept(cache: PromptCacheView, history: Seq<CacheEvent>)
    ensures
        cache.after(history).capacity_bytes == cache.capacity_bytes,
    decreases history.len(),
{
    if history.len() > 0 {
        lemma_budget_is_kept(cache, history.drop_last());
    }
}

/// What stays when a prompt that fits is put in: the new prompt under its key, and of the others as many as
/// fit, beginning with the one used most recently. What goes was used before everything that stays, and
/// each of the prompts that go would, with everything used after it, exceed the budget.
pub proof fn law_least_recently_used_goes(cache: PromptCacheView, key: PromptKeyView, prompt: CachedPromptView)
    requires
        cache.wf(),
        cache.clock < u64::MAX,
        cache.capacity_bytes > 0,
        prompt_bytes(prompt) <= cache.capacity_bytes,
    ensures
        ({
            let after = cache.inserted(key, prompt);
            let entry = EntryView { key, prompt, used: after.clock };
            let full = placed(cache.entries, entry);
            &&& after.entries.len() > 0 && after.entries.last() == entry
            &&& total_bytes(after.entries) <= cache.capacity_bytes
            &&& forall|i: int| 0 <= i < full.len() ==> (after.entries.contains(#[trigger] full[i]) <==> total_bytes(
                since(full, full[i].used as int),
            ) <= cache.capacity_bytes)
            &&& forall|i: int| 0 <= i < after.entries.len() ==> full.contains(#[trigger] after.entries[i])
            &&& forall|i: int, j: int|
                0 <= i < full.len() && 0 <= j < full.len() && after.entries.contains(#[trigger] full[i])
                    && !after.entries.contains(#[trigger] full[j]) ==> full[j].used < full[i].used
            &&& forall|i: int|
                0 <= i < full.len() - 1 ==> cache.entries.contains(#[trigger] full[i]) && full[i].key != key
            &&& forall|i: int| 0 <= i < cache.entries.len() && (#[trigger] cache.entries[i]).key != key ==> full.contains(
                cache.entries[i],
            )
            &&& after.hits == cache.hits && after.misses == cache.misses && after.wf()
        }),
{
    let after = cache.inserted(key, prompt);
    let budget = cache.capacity_bytes;
    let entry = EntryView { key, prompt, used: after.clock };
    let full = placed(cache.entries, entry);
    let other = |held: EntryView| held.key != key;
    let others = cache.entries.filter(other);
    let staying = |held: EntryView| stays(full, held, budget);
    lemma_filter_tidy(cache.entries, cache.clock, other);
    lemma_placed_tidy(cache.entries, cache.clock, entry);
    law_inserted_prompt_is_held(cache.entries, cache.clock, entry, budget);
    lemma_filter_tidy(full, after.clock, staying);
    assert forall|i: int| 0 <= i < full.len() implies (after.entries.contains(#[trigger] full[i]) <==> stays(
        full,
        full[i],
        budget,
    )) by {
        if staying(full[i]) {
            lemma_filter_contains(full, i, staying);
        }
        if after.entries.contains(full[i]) {
            let j = choose|j: int| 0 <= j < after.entries.len() && after.entries[j] == full[i];
            assert(staying(after.entries[j]));
        }
    }
    assert forall|i: int, j: int|
        0 <= i < full.len() && 0 <= j < full.len() && after.entries.contains(#[trigger] full[i])
            && !after.entries.contains(#[trigger] full[j]) implies full[j].used < full[i].used by {
        law_least_recent_makes_room(full, budget, i, j);
    }
    assert forall|i: int| 0 <= i < full.len() - 1 implies cache.entries.contains(#[trigger] full[i]) && full[i].key
        != key by {
        assert(full[i] == others[i]);
        assert(other(others[i]));
        let j = choose|j: int| 0 <= j < cache.entries.len() && cache.entries[j] == others[i];
        assert(cache.entries[j] == full[i]);
    }
    assert forall|i: int| 0 <= i < cache.entries.len() && (#[trigger] cache.entries[i]).key != key implies full.contains(
        cache.entries[i],
    ) by {
        lemma_filter_contains(cache.entries, i, other);
        let j = choose|j: int| 0 <= j < others.len() && others[j] == cache.entries[i];
        assert(full[j] == cache.entries[i]);
    }
    lemma_trimmed_fits(full, after.clock, budget);
}

/// Asking for a prompt, in any state: which prompts are held and how many bytes they take stays as it is. One
/// that is held becomes the one used most recently, and a hit is counted; otherwise a miss is.
pub proof fn law_lookup_keeps_the_contents(cache: PromptCacheView, key: PromptKeyView)
    requires
        cache.wf(),
        cache.clock < u64::MAX,
    ensures
        ({
            let after = cache.asked(key);
            &&& after.wf()
            &&& total_bytes(after.entries) == total_bytes(cache.entries)
            &&& forall|other: PromptKeyView| #[trigger] after.held(other) == cache.held(other)
            &&& after.hits == cache.hits + (if cache.held(key) is Some {
                1int
            } else {
                0
            })
            &&& after.misses == cache.misses + (if cache.held(key) is Some {
                0int
            } else {
                1
            })
            &&& forall|i: int|
                0 <= i < after.entries.len() ==> (if (#[trigger] after.entries[i]).key == key {
                    after.entries[i].used == after.clock
                } else {
                    after.entries[i].used < after.clock
                })
        }),
{
    let after = cache.asked(key);
    if holds_key(cache.entries, key) {
        let known = choose|i: int| 0 <= i < cache.entries.len() && (#[trigger] cache.entries[i]).key == key;
        assert(cache.place(key, known));
        lemma_one_place(cache, key, known);
        lemma_hit(cache, key, known);
    }
    assert forall|i: int| 0 <= i < after.entries.len() implies (if (#[trigger] after.entries[i]).key == key {
        after.entries[i].used == after.clock
    } else {
        after.entries[i].used < after.clock
    }) by {
        assert(cache.entries[i].used <= cache.clock);
        assert(after.entries[i].key == cache.entries[i].key);
    }
    assert forall|other: PromptKeyView| #[trigger] after.held(other) == cache.held(other) by {
        if holds_key(cache.entries, other) {
            let i = choose|i: int| 0 <= i < cache.entries.len() && (#[trigger] cache.entries[i]).key == other;
            assert(after.entries[i].key == other);
            assert(cache.place(other, i));
            assert(after.place(other, i));
            lemma_one_place(cache, other, i);
            lemma_one_place(after, other, i);
        } else if holds_key(after.entries, other) {
            let i = choose|i: int| 0 <= i < after.entries.len() && (#[trigger] after.entries[i]).key == other;
            assert(cache.entries[i].key == other);
        }
    }
}

/// What taking out the prompt at a place changes.
proof fn lemma_hit(cache: PromptCacheView, key: PromptKeyView, i: int)
    requires
        cache.wf(),
        cache.clock < u64::MAX,
        cache.place(key, i),
    ensures
        ({
            let after = cache.hit(i);
            &&& total_bytes(after.entries) == total_bytes(cache.entries)
            &&& after.wf()
            &&& after.entries.len() == cache.entries.len()
            &&& forall|j: int|
                0 <= j < cache.entries.len() ==> (#[trigger] after.entries[j]).key == cache.entries[j].key
                    && after.entries[j].prompt == cache.entries[j].prompt
            &&& forall|j: int|
                0 <= j < cache.entries.len() && j != i ==> (#[trigger] after.entries[j]).used < after.entries[i].used
            &&& after.hits == cache.hits + 1 && after.misses == cache.misses
        }),
        cache.missed().wf(),
        cache.missed().entries == cache.entries,
        cache.missed().misses == cache.misses + 1 && cache.missed().hits == cache.hits,
{
    lemma_update_bytes(cache.entries, i, EntryView { used: (cache.clock + 1) as u64, ..cache.entries[i] });
    let after = cache.hit(i);
    assert forall|a: int, b: int| 0 <= a < b < after.entries.len() implies (#[trigger] after.entries[a]).key != (
    #[trigger] after.entries[b]).key && after.entries[a].used != after.entries[b].used by {
        assert(cache.entries[a].key != cache.entries[b].key);
        assert(cache.entries[a].used <= cache.clock);
        assert(cache.entries[b].used <= cache.clock);
    }
    assert forall|a: int| 0 <= a < after.entries.len() implies (#[trigger] after.entries[a]).used <= after.clock by {
        assert(cache.entries[a].used <= cache.clock);
    }
}

/// No more makes room for a prompt than has to: what goes is everything used before some moment, and going
/// on from any other moment would either keep less or exceed the budget.
pub proof fn law_no_more_goes_than_must(cache: PromptCacheView, key: PromptKeyView, prompt: CachedPromptView)
    requires
        cache.wf(),
        cache.clock < u64::MAX,
        cache.admits(prompt),
    ensures
        ({
            let after = cache.inserted(key, prompt);
            let full = placed(cache.entries, EntryView { key, prompt, used: after.clock });
            &&& exists|stamp: int| after.entries == #[trigger] since(full, stamp)
            &&& forall|stamp: int|
                total_bytes(#[trigger] since(full, stamp)) <= cache.capacity_bytes ==> since(full, stamp).len()
                    <= after.entries.len()
        }),
{
    let after = cache.inserted(key, prompt);
    let entry = EntryView { key, prompt, used: after.clock };
    let full = placed(cache.entries, entry);
    let budget = cache.capacity_bytes;
    lemma_placed_tidy(cache.entries, cache.clock, entry);
    law_inserted_prompt_is_held(cache.entries, cache.clock, entry, budget);
    let least = lemma_trimmed_since(full, after.clock, budget);
    let recent = |held: EntryView| held.used >= least;
    assert forall|stamp: int| total_bytes(#[trigger] since(full, stamp)) <= budget implies since(full, stamp).len()
        <= after.entries.len() by {
        let late = |held: EntryView| held.used >= stamp;
        if stamp >= least {
            lemma_filter_twice(full, recent, late);
            lemma_filter_len(full.filter(recent), late);
        } else {
            let staying = |held: EntryView| stays(full, held, budget);
            assert forall|i: int| 0 <= i < full.len() implies late(#[trigger] full[i]) == recent(full[i]) by {
                if late(full[i]) {
                    let tighter = |held: EntryView| held.used >= full[i].used as int;
                    lemma_filter_twice(full, late, tighter);
                    lemma_filter_bytes(full.filter(late), tighter);
                    assert(staying(full[i]));
                    lemma_filter_contains(full, i, staying);
                    let kept = trimmed(full, budget);
                    let j = choose|j: int| 0 <= j < kept.len() && kept[j] == full[i];
                    lemma_filter_tidy(full, after.clock, recent);
                    assert(recent(full.filter(recent)[j]));
                }
            }
            lemma_filter_same(full, late, recent);
        }
    }
}

/// A filter makes nothing longer.
proof fn lemma_filter_len(entries: Seq<EntryView>, pred: spec_fn(EntryView) -> bool)
    ensures
        entries.filter(pred).len() <= entries.len(),
    decreases entries.len(),
{
    reveal(Seq::filter);
    if entries.len() > 0 {
        lemma_filter_len(entries.drop_last(), pred);
    }
}

/// A key has one place at most.
proof fn lemma_one_place(cache: PromptCacheView, key: PromptKeyView, i: int)
    requires
        cache.wf(),
        cache.place(key, i),
    ensures
        cache.held(key) == Some(cache.entries[i].prompt),
        cache.asked(key) == cache.hit(i),
{
    assert(cache.entries[i].key == key);
    assert(holds_key(cache.entries, key));
    let chosen = choose|j: int| cache.place(key, j);
    assert(cache.place(key, chosen));
    assert(chosen == i) by {
        if chosen < i {
            assert(cache.entries[chosen].key != cache.entries[i].key);
        } else if i < chosen {
            assert(cache.entries[i].key != cache.entries[chosen].key);
        }
    }
}

/// What an event can change of what is held under a key: a prompt that is put in under it takes the place,
/// and anything else can at most make it go.
proof fn lemma_happened(cache: PromptCacheView, event: CacheEvent, key: PromptKeyView)
    requires
        cache.wf(),
        cache.clock < u64::MAX,
    ensures
        cache.happened(event).wf(),
        cache.happened(event).clock <= cache.clock + 1,
        cache.happened(event).capacity_bytes == cache.capacity_bytes,
        cache.happened(event).held(key) is Some ==> cache.happened(event).held(key) == (match event {
            CacheEvent::Loaded { key: Some(at), prompt: Some(prompt) } if at == key && cache.admits(prompt) => Some(
                prompt,
            ),
            _ => cache.held(key),
        }),
{
    let next = cache.happened(event);
    match event {
        CacheEvent::Begun { key: Some(at) } => {
            if holds_key(cache.entries, at) {
                let i = choose|i: int| cache.place(at, i);
                let known = choose|i: int| 0 <= i < cache.entries.len() && (#[trigger] cache.entries[i]).key == at;
                assert(cache.place(at, known));
                assert(cache.place(at, i));
                lemma_hit(cache, at, i);
            }
            if holds_key(next.entries, key) {
                let j = choose|j: int| 0 <= j < next.entries.len() && (#[trigger] next.entries[j]).key == key;
                assert(next.place(key, j));
                assert(cache.place(key, j));
                lemma_one_place(next, key, j);
                lemma_one_place(cache, key, j);
            }
        },
        CacheEvent::Loaded { key: Some(at), prompt: Some(prompt) } => {
            if cache.admits(prompt) {
                law_least_recently_used_goes(cache, at, prompt);
                let entry = EntryView { key: at, prompt, used: next.clock };
                let full = placed(cache.entries, entry);
                if holds_key(next.entries, key) {
                    let j = choose|j: int| 0 <= j < next.entries.len() && (#[trigger] next.entries[j]).key == key;
                    assert(next.place(key, j));
                    lemma_one_place(next, key, j);
                    assert(full.contains(next.entries[j]));
                    let k = choose|k: int| 0 <= k < full.len() && full[k] == next.entries[j];
                    if k < full.len() - 1 {
                        assert(cache.entries.contains(full[k]));
                        let m = choose|m: int| 0 <= m < cache.entries.len() && cache.entries[m] == full[k];
                        assert(cache.place(key, m));
                        lemma_one_place(cache, key, m);
                    } else {
                        assert(full[k] == entry);
                    }
                }
            }
        },
        _ => {},
    }
}

/// Whatever happens to a cache, what it holds under a key is the prompt that was loaded under it last, or the
/// one that was held before where none was loaded since.
pub proof fn law_held_prompt_is_the_last_loaded(cache: PromptCacheView, history: Seq<CacheEvent>, key: PromptKeyView)
    requires
        cache.wf(),
        cache.clock + history.len() <= u64::MAX,
    ensures
        cache.after(history).wf(),
        cache.after(history).clock <= cache.clock + history.len(),
        cache.after(history).capacity_bytes == cache.capacity_bytes,
        cache.after(history).held(key) is Some ==> cache.after(history).held(key) == (match cache.last_loaded(
            history,
            key,
        ) {
            Some(prompt) => Some(prompt),
            None => cache.held(key),
        }),
    decreases history.len(),
{
    if history.len() > 0 {
        law_held_prompt_is_the_last_loaded(cache, history.drop_last(), key);
        lemma_happened(cache.after(history.drop_last()), history.last(), key);
    }
}

/// A file that has not changed is not read again while its prompt is held: after a first load that was
/// cached, and whatever happened since but another load of the same file, beginning to load it gives the first
/// result.
pub proof fn law_unchanged_file_is_not_read_again(
    cache: PromptCacheView,
    key: PromptKeyView,
    first: CachedPromptView,
    since_then: Seq<CacheEvent>,
)
    requires
        cache.wf(),
        cache.clock + 1 + since_then.len() <= u64::MAX,
        cache.admits(first),
        cache.last_loaded(since_then, key) is None,
    ensures
        ({
            let loaded = cache.happened(CacheEvent::Loaded { key: Some(key), prompt: Some(first) });
            let later = loaded.after(since_then);
            &&& loaded.held(key) == Some(first)
            &&& holds_key(later.entries, key) ==> later.held(key) == Some(first)
        }),
{
    let event = CacheEvent::Loaded { key: Some(key), prompt: Some(first) };
    let loaded = cache.happened(event);
    lemma_happened(cache, event, key);
    law_least_recently_used_goes(cache, key, first);
    assert(loaded.entries[loaded.entries.len() - 1].key == key);
    law_held_prompt_is_the_last_loaded(loaded, since_then, key);
    lemma_last_loaded_same(cache, loaded, since_then, key);
}

/// What a history loads depends on the budget alone.
proof fn lemma_last_loaded_same(a: PromptCacheView, b: PromptCacheView, history: Seq<CacheEvent>, key: PromptKeyView)
    requires
        a.capacity_bytes == b.capacity_bytes,
    ensures
        a.last_loaded(history, key) == b.last_loaded(history, key),
    decreases history.len(),
{
    if history.len() > 0 {
        lemma_last_loaded_same(a, b, history.drop_last(), key);
    }
}

/// A file whose time or length changed is read again, whatever is held of it from before: a cache holds
/// nothing under a key that nothing was loaded under. Neither does a load that failed put anything in, nor any
/// load where there is no budget.
pub proof fn law_changed_file_is_read_again(
    capacity_bytes: nat,
    history: Seq<CacheEvent>,
    changed: PromptKeyView,
)
    requires
        history.len() <= u64::MAX,
        capacity_bytes == 0 || forall|i: int| 0 <= i < history.len() ==> !(#[trigger] history[i]).loads(changed),
    ensures
        !holds_key(PromptCacheView::empty(capacity_bytes).after(history).entries, changed),
{
    let cache = PromptCacheView::empty(capacity_bytes);
    law_held_prompt_is_the_last_loaded(cache, history, changed);
    lemma_nothing_loaded(cache, history, changed);
}

/// A history without a load under a key loads nothing under it.
proof fn lemma_nothing_loaded(cache: PromptCacheView, history: Seq<CacheEvent>, key: PromptKeyView)
    requires
        cache.capacity_bytes == 0 || forall|i: int| 0 <= i < history.len() ==> !(#[trigger] history[i]).loads(key),
    ensures
        cache.last_loaded(history, key) is None,
    decreases history.len(),
{
    if history.len() > 0 {
        let prior = history.drop_last();
        if cache.capacity_bytes != 0 {
            assert forall|i: int| 0 <= i < prior.len() implies !(#[trigger] prior[i]).loads(key) by {
                assert(prior[i] == history[i]);
            }
            assert(history[history.len() - 1] == history.last());
        }
        lemma_nothing_loaded(cache, prior, key);
    }
}

/// What stays fits the budget.
proof fn lemma_trimmed_fits(full: Seq<EntryView>, clock: u64, budget: nat)
    requires
        tidy(full, clock),
    ensures
        total_bytes(trimmed(full, budget)) <= budget,
{
    if trimmed(full, budget).len() > 0 {
        let least = lemma_trimmed_since(full, clock, budget);
    }
}

/// What stays is everything used since some moment, and fits.
proof fn lemma_trimmed_since(full: Seq<EntryView>, clock: u64, budget: nat) -> (moment: int)
    requires
        tidy(full, clock),
        trimmed(full, budget).len() > 0,
    ensures
        trimmed(full, budget) == since(full, moment),
        total_bytes(trimmed(full, budget)) <= budget,
{
    let staying = |entry: EntryView| stays(full, entry, budget);
    let kept = trimmed(full, budget);
    lemma_filter_tidy(full, clock, staying);
    let oldest = lemma_oldest(kept);
    let least = kept[oldest];
    assert(staying(least));
    let recent = |entry: EntryView| entry.used >= least.used as int;
    assert forall|i: int| 0 <= i < full.len() implies staying(#[trigger] full[i]) == recent(full[i]) by {
        if staying(full[i]) {
            lemma_filter_contains(full, i, staying);
            let j = choose|j: int| 0 <= j < kept.len() && kept[j] == full[i];
            assert(kept[j].used >= least.used);
        }
        if recent(full[i]) {
            let tighter = |entry: EntryView| entry.used >= full[i].used as int;
            lemma_filter_twice(full, recent, tighter);
            lemma_filter_bytes(full.filter(recent), tighter);
        }
    }
    lemma_filter_same(full, staying, recent);
    least.used as int
}

/// One of some entries was used least recently.
proof fn lemma_oldest(entries: Seq<EntryView>) -> (oldest: int)
    requires
        entries.len() > 0,
    ensures
        0 <= oldest < entries.len(),
        forall|j: int| 0 <= j < entries.len() ==> entries[oldest].used <= (#[trigger] entries[j]).used,
    decreases entries.len(),
{
    if entries.len() == 1 {
        0
    } else {
        let prior = entries.drop_last();
        let before = lemma_oldest(prior);
        assert forall|j: int| 0 <= j < prior.len() implies entries[before].used <= (#[trigger] entries[j]).used by {
            assert(prior[j] == entries[j]);
            assert(prior[before] == entries[before]);
        }
        if entries[before].used <= entries.last().used {
            before
        } else {
            entries.len() - 1
        }
    }
}

/// The content of a prompt that may be there.
pub open spec fn prompt_view(prompt: Option<CachedPrompt>) -> Option<CachedPromptView> {
    match prompt {
        Some(held) => Some(held@),
        None => None,
    }
}

/// The content of a key that may be there.
pub open spec fn key_view(key: Option<PromptKey>) -> Option<PromptKeyView> {
    match key {
        Some(at) => Some(at@),
        None => None,
    }
}

/// The prompt that reading and decoding a file came to, if they worked.
pub open spec fn decoded(read: Result<Result<CachedPrompt, String>, String>) -> Option<CachedPromptView> {
    match read {
        Ok(Ok(prompt)) => Some(prompt@),
        _ => None,
    }
}

/// How the loading of a prompt goes on.
#[derive(Clone, Debug)]
pub enum LoadStep {
    /// The prompt is held.
    Hit { prompt: CachedPrompt },
    /// The file has to be read and decoded.
    Read,
}

/// Why a prompt could not be loaded.
#[derive(Clone, Debug, PartialEq, Eq)]
pub enum PromptError {
    /// The file could not be read.
    Read { error: String },
    /// The file is no audio that can be decoded.
    Parse { error: String },
}

impl PromptError {
    /// The message of the error.
    pub fn message(&self) -> (message: String)
        ensures
            message@ == (match *self {
                PromptError::Read { error } => "read file: "@ + error@,
                PromptError::Parse { error } => "parse WAV: "@ + error@,
            }),
    {
        match self {
            PromptError::Read { error } => joined("read file: ", error.as_str()),
            PromptError::Parse { error } => joined("parse WAV: ", error.as_str()),
        }
    }
}

/// A prompt takes two bytes for each sample, whatever its rate: two prompts in a row take what both take.
pub proof fn law_prompts_take_two_bytes_a_sample(first: Seq<i16>, second: Seq<i16>, sample: i16, rate: u32, other: u32)
    ensures
        prompt_bytes(CachedPromptView { mono: seq![sample], sample_rate_hz: rate }) == 2,
        prompt_bytes(CachedPromptView { mono: first + second, sample_rate_hz: rate }) == prompt_bytes(
            CachedPromptView { mono: first, sample_rate_hz: other },
        ) + prompt_bytes(CachedPromptView { mono: second, sample_rate_hz: other }),
{
}

} // verus!
