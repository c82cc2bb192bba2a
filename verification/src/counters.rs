//! How many resources each provider has registered in each category.

use crate::bounded::bounded_as_vec;
use crate::types::{AccountId, CategoryView, CustomView, GpuView, ResourceCategory};
use vstd::prelude::*;

verus! {

/// A category written with plain values, kept as the key of a counter.
struct GpuKey {
    gpu_count: u32,
    gpu_memory_gb: Option<u32>,
    gpu_model: Vec<u8>,
}

enum CategoryKey {
    Nano(u8, u64),
    Micro(u8, u64),
    Small(u8, u64),
    Medium(u8, u64),
    Large(u8, u64),
    Custom { vcpu: u8, memory_gb: u32, storage_gb: u64, gpu: Option<GpuKey> },
}

struct CountEntry {
    provider: AccountId,
    category: CategoryKey,
    count: u32,
}

impl View for GpuKey {
    type V = GpuView;

    closed spec fn view(&self) -> GpuView {
        GpuView {
            gpu_count: self.gpu_count,
            gpu_memory_gb: self.gpu_memory_gb,
            gpu_model: self.gpu_model@,
        }
    }
}

impl View for CategoryKey {
    type V = CategoryView;

    closed spec fn view(&self) -> CategoryView {
        match *self {
            CategoryKey::Nano(v, s) => CategoryView::Nano(v, s),
            CategoryKey::Micro(v, s) => CategoryView::Micro(v, s),
            CategoryKey::Small(v, s) => CategoryView::Small(v, s),
            CategoryKey::Medium(v, s) => CategoryView::Medium(v, s),
            CategoryKey::Large(v, s) => CategoryView::Large(v, s),
            CategoryKey::Custom { vcpu, memory_gb, storage_gb, gpu } => CategoryView::Custom(
                CustomView {
                    vcpu,
                    memory_gb,
                    storage_gb,
                    gpu_specs: match gpu {
                        Some(g) => Some(g@),
                        None => None,
                    },
                },
            ),
        }
    }
}

impl CountEntry {
    spec fn key(self) -> (AccountId, CategoryView) {
        (self.provider, self.category@)
    }
}

fn key_of(category: &ResourceCategory) -> (key: CategoryKey)
    ensures
        key@ == category@,
{
    match category {
        ResourceCategory::Nano(v, s) => CategoryKey::Nano(*v, *s),
        ResourceCategory::Micro(v, s) => CategoryKey::Micro(*v, *s),
        ResourceCategory::Small(v, s) => CategoryKey::Small(*v, *s),
        ResourceCategory::Medium(v, s) => CategoryKey::Medium(*v, *s),
        ResourceCategory::Large(v, s) => CategoryKey::Large(*v, *s),
        ResourceCategory::Custom(custom) => {
            let gpu = match &custom.gpu_specs {
                Some(specs) => {
                    let inner: &Vec<u8> = bounded_as_vec(&specs.gpu_model);
                    let model: Vec<u8> = inner.clone();
                    assert(model@ =~= inner@);
                    Some(
                        GpuKey {
                            gpu_count: specs.gpu_count,
                            gpu_memory_gb: specs.gpu_memory_gb,
                            gpu_model: model,
                        },
                    )
                },
                None => None,
            };
            CategoryKey::Custom {
                vcpu: custom.vcpu,
                memory_gb: custom.memory_gb,
                storage_gb: custom.storage_gb,
                gpu,
            }
        },
    }
}

fn same_bytes(a: &Vec<u8>, b: &Vec<u8>) -> (same: bool)
    ensures
        same == (a@ == b@),
{
    if a.len() != b.len() {
        return false;
    }
    let mut i: usize = 0;
    while i < a.len()
        invariant
            a.len() == b.len(),
            i <= a.len(),
            forall|j: int| 0 <= j < i ==> a@[j] == b@[j],
        decreases a.len() - i,
    {
        if a[i] != b[i] {
            return false;
        }
        i += 1;
    }
    assert(a@ =~= b@);
    true
}

fn same_memory(a: &Option<u32>, b: &Option<u32>) -> (same: bool)
    ensures
        same == (*a == *b),
{
    match (a, b) {
        (Some(x), Some(y)) => *x == *y,
        (None, None) => true,
        _ => false,
    }
}

fn same_gpu(a: &Option<GpuKey>, b: &Option<GpuKey>) -> (same: bool)
    ensures
        same == (match (*a, *b) {
            (Some(x), Some(y)) => x@ == y@,
            (None, None) => true,
            _ => false,
        }),
{
    match (a, b) {
        (Some(x), Some(y)) => {
            x.gpu_count == y.gpu_count && same_memory(&x.gpu_memory_gb, &y.gpu_memory_gb)
                && same_bytes(&x.gpu_model, &y.gpu_model)
        },
        (None, None) => true,
        _ => false,
    }
}

fn same_key(a: &CategoryKey, b: &CategoryKey) -> (same: bool)
    ensures
        same == (a@ == b@),
{
    match (a, b) {
        (CategoryKey::Nano(v, s), CategoryKey::Nano(w, t)) => *v == *w && *s == *t,
        (CategoryKey::Micro(v, s), CategoryKey::Micro(w, t)) => *v == *w && *s == *t,
        (CategoryKey::Small(v, s), CategoryKey::Small(w, t)) => *v == *w && *s == *t,
        (CategoryKey::Medium(v, s), CategoryKey::Medium(w, t)) => *v == *w && *s == *t,
        (CategoryKey::Large(v, s), CategoryKey::Large(w, t)) => *v == *w && *s == *t,
        (
            CategoryKey::Custom { vcpu, memory_gb, storage_gb, gpu },
            CategoryKey::Custom { vcpu: vcpu2, memory_gb: memory_gb2, storage_gb: storage_gb2, gpu: gpu2 },
        ) => {
            *vcpu == *vcpu2 && *memory_gb == *memory_gb2 && *storage_gb == *storage_gb2
                && same_gpu(gpu, gpu2)
        },
        _ => false,
    }
}

/// The counters that a list of entries stands for: each entry sets the count
/// of its provider and category.
spec fn counts_of(entries: Seq<CountEntry>) -> Map<(AccountId, CategoryView), u32>
    decreases entries.len(),
{
    if entries.len() == 0 {
        Map::empty()
    } else {
        counts_of(entries.drop_last()).insert(entries.last().key(), entries.last().count)
    }
}

spec fn distinct_keys(entries: Seq<CountEntry>) -> bool {
    forall|i: int, j: int|
        0 <= i < entries.len() && 0 <= j < entries.len() && i != j ==> entries[i].key()
            != entries[j].key()
}

proof fn lemma_counts_absent(entries: Seq<CountEntry>, key: (AccountId, CategoryView))
    requires
        forall|i: int| 0 <= i < entries.len() ==> entries[i].key() != key,
    ensures
        !counts_of(entries).contains_key(key),
    decreases entries.len(),
{
    if entries.len() > 0 {
        lemma_counts_absent(entries.drop_last(), key);
    }
}

proof fn lemma_counts_at(entries: Seq<CountEntry>, i: int)
    requires
        distinct_keys(entries),
        0 <= i < entries.len(),
    ensures
        counts_of(entries).contains_key(entries[i].key()),
        counts_of(entries)[entries[i].key()] == entries[i].count,
    decreases entries.len(),
{
    if i < entries.len() - 1 {
        lemma_counts_at(entries.drop_last(), i);
    }
}

proof fn lemma_counts_update(entries: Seq<CountEntry>, i: int, entry: CountEntry)
    requires
        distinct_keys(entries),
        0 <= i < entries.len(),
        entry.key() == entries[i].key(),
    ensures
        distinct_keys(entries.update(i, entry)),
        counts_of(entries.update(i, entry)) == counts_of(entries).insert(entry.key(), entry.count),
    decreases entries.len(),
{
    let updated = entries.update(i, entry);
    if i == entries.len() - 1 {
        assert(updated.drop_last() =~= entries.drop_last());
        assert(counts_of(updated) =~= counts_of(entries).insert(entry.key(), entry.count));
    } else {
        assert(updated.drop_last() =~= entries.drop_last().update(i, entry));
        lemma_counts_update(entries.drop_last(), i, entry);
        assert(entries.last().key() != entry.key());
        assert(counts_of(updated) =~= counts_of(entries).insert(entry.key(), entry.count));
    }
}

/// The count under a provider and category; nothing where none was recorded.
pub open spec fn count_in(
    counts: Map<(AccountId, CategoryView), u32>,
    provider: AccountId,
    category: CategoryView,
) -> u32 {
    if counts.contains_key((provider, category)) {
        counts[(provider, category)]
    } else {
        0
    }
}

/// One more than a count, staying at the largest count once it is reached.
pub open spec fn next_count(count: u32) -> u32 {
    if count == u32::MAX {
        count
    } else {
        (count + 1) as u32
    }
}

/// The counters after one more resource of `provider` in `category`.
pub open spec fn counted(
    counts: Map<(AccountId, CategoryView), u32>,
    provider: AccountId,
    category: CategoryView,
) -> Map<(AccountId, CategoryView), u32> {
    counts.insert((provider, category), next_count(count_in(counts, provider, category)))
}

/// Resource counters by provider and category.
pub struct ResourceCounters {
    entries: Vec<CountEntry>,
}

impl View for ResourceCounters {
    type V = Map<(AccountId, CategoryView), u32>;

    closed spec fn view(&self) -> Map<(AccountId, CategoryView), u32> {
        counts_of(self.entries@)
    }
}

impl ResourceCounters {
    /// No provider and category is recorded twice.
    pub closed spec fn wf(&self) -> bool {
        distinct_keys(self.entries@)
    }

    pub fn new() -> (counters: ResourceCounters)
        ensures
            counters.wf(),
            counters@ == Map::<(AccountId, CategoryView), u32>::empty(),
    {
        ResourceCounters { entries: Vec::new() }
    }

    fn position(&self, provider: AccountId, key: &CategoryKey) -> (found: Option<usize>)
        ensures
            match found {
                Some(i) => i < self.entries@.len() && self.entries@[i as int].key() == (
                    provider,
                    key@,
                ),
                None => forall|i: int|
                    0 <= i < self.entries@.len() ==> self.entries@[i].key() != (provider, key@),
            },
    {
        let mut i: usize = 0;
        while i < self.entries.len()
            invariant
                i <= self.entries@.len(),
                forall|j: int| 0 <= j < i ==> self.entries@[j].key() != (provider, key@),
            decreases self.entries@.len() - i,
        {
            if self.entries[i].provider == provider && same_key(&self.entries[i].category, key) {
                return Some(i);
            }
            i += 1;
        }
        None
    }

    /// How many resources `provider` has registered in `category`.
    pub fn get(&self, provider: AccountId, category: &ResourceCategory) -> (count: u32)
        requires
            self.wf(),
        ensures
            count == count_in(self@, provider, category@),
    {
        let key = key_of(category);
        match self.position(provider, &key) {
            Some(i) => {
                proof {
                    lemma_counts_at(self.entries@, i as int);
                }
                self.entries[i].count
            },
            None => {
                proof {
                    lemma_counts_absent(self.entries@, (provider, key@));
                }
                0
            },
        }
    }

    /// Counts one more resource of `provider` in `category`.
    pub fn increment(&mut self, provider: AccountId, category: &ResourceCategory)
        requires
            old(self).wf(),
        ensures
            final(self).wf(),
            final(self)@ == counted(old(self)@, provider, category@),
    {
        let key = key_of(category);
        match self.position(provider, &key) {
            Some(i) => {
                let count: u32 = self.entries[i].count.saturating_add(1);
                proof {
                    lemma_counts_at(self.entries@, i as int);
                    lemma_counts_update(
                        self.entries@,
                        i as int,
                        CountEntry { provider, category: key, count },
                    );
                }
                self.entries[i] = CountEntry { provider, category: key, count };
            },
            None => {
                proof {
                    lemma_counts_absent(self.entries@, (provider, key@));
                }
                let ghost before = self.entries@;
                self.entries.push(CountEntry { provider, category: key, count: 1 });
                assert(self.entries@.drop_last() =~= before);
            },
        }
    }
}

} // verus!
