//! Capabilities that were issued and not yet used.

use vstd::prelude::*;

use crate::api::{BindingView, McpQualificationBinding, McpQualificationRequest};
use crate::text::same_text;
use crate::verdict::{verdict, QualificationError, QualificationErrorView};

verus! {

/// How many capabilities may be pending at a time.
pub const MAX_PENDING_CAPABILITIES: usize = 256;

/// What a pending capability allows, and to whom.
#[derive(Debug)]
pub struct PendingQualification {
    pub user_id: String,
    pub conversation_id: String,
    pub request: McpQualificationRequest,
    pub binding: McpQualificationBinding,
}

/// What a [`PendingQualification`] says.
pub struct PendingView {
    pub user_id: Seq<char>,
    pub conversation_id: Seq<char>,
    pub request: McpQualificationRequest,
    pub binding: BindingView,
}

impl View for PendingQualification {
    type V = PendingView;

    open spec fn view(&self) -> PendingView {
        PendingView {
            user_id: self.user_id@,
            conversation_id: self.conversation_id@,
            request: self.request,
            binding: self.binding@,
        }
    }
}

/// The pending capabilities. No capability occurs twice, and there are never too many.
#[derive(Debug)]
pub struct PendingStore {
    entries: Vec<(String, PendingQualification)>,
}

/// Whether no two entries are of the same capability.
spec fn distinct(entries: Seq<(String, PendingQualification)>) -> bool {
    forall|i: int, j: int|
        0 <= i < j < entries.len() ==> (#[trigger] entries[i]).0@ != (#[trigger] entries[j]).0@
}

/// Whether `capability` stands at `at`.
spec fn stands(
    entries: Seq<(String, PendingQualification)>,
    capability: Seq<char>,
    at: int,
) -> bool {
    0 <= at < entries.len() && entries[at].0@ == capability
}

/// What the entries say.
spec fn as_map(entries: Seq<(String, PendingQualification)>) -> Map<Seq<char>, PendingView> {
    Map::new(
        |capability: Seq<char>| exists|i: int| stands(entries, capability, i),
        |capability: Seq<char>| entries[choose|i: int| stands(entries, capability, i)].1@,
    )
}

/// The entries of `pending` that are valid beyond `now_ms`.
pub open spec fn unexpired(pending: Map<Seq<char>, PendingView>, now_ms: u64) -> Map<
    Seq<char>,
    PendingView,
> {
    Map::new(
        |capability: Seq<char>|
            pending.contains_key(capability) && pending[capability].binding.expires_at_ms > now_ms,
        |capability: Seq<char>| pending[capability],
    )
}

proof fn lemma_entry(entries: Seq<(String, PendingQualification)>, i: int)
    requires
        distinct(entries),
        0 <= i < entries.len(),
    ensures
        as_map(entries).contains_key(entries[i].0@),
        as_map(entries)[entries[i].0@] == entries[i].1@,
{
    let capability = entries[i].0@;
    assert(stands(entries, capability, i));
    let j = choose|j: int| stands(entries, capability, j);
    assert(stands(entries, capability, j));
    assert(i == j);
}

proof fn lemma_len(entries: Seq<(String, PendingQualification)>)
    requires
        distinct(entries),
    ensures
        as_map(entries).dom().finite(),
        as_map(entries).len() == entries.len(),
{
    let names = entries.map_values(|entry: (String, PendingQualification)| entry.0@);
    assert(names.no_duplicates());
    names.unique_seq_to_set();
    assert(as_map(entries).dom() =~= names.to_set()) by {
        assert forall|capability: Seq<char>| as_map(entries).dom().contains(capability) implies
            names.to_set().contains(capability) by {
            let i = choose|i: int| stands(entries, capability, i);
            assert(stands(entries, capability, i));
            assert(names[i] == capability);
        }
        assert forall|capability: Seq<char>| names.to_set().contains(capability) implies
            as_map(entries).dom().contains(capability) by {
            let i = choose|i: int| 0 <= i < names.len() && names[i] == capability;
            assert(stands(entries, capability, i));
        }
    }
    names.lemma_cardinality_of_set();
}

/// Whether an entry is valid beyond `now_ms`.
spec fn live(now_ms: u64) -> spec_fn((String, PendingQualification)) -> bool {
    |entry: (String, PendingQualification)| entry.1.binding.expires_at_ms > now_ms
}

proof fn lemma_filter_distinct(
    entries: Seq<(String, PendingQualification)>,
    keep: spec_fn((String, PendingQualification)) -> bool,
)
    requires
        distinct(entries),
    ensures
        distinct(entries.filter(keep)),
        forall|i: int|
            0 <= i < entries.filter(keep).len() ==> keep(#[trigger] entries.filter(keep)[i])
                && entries.contains(entries.filter(keep)[i]),
        forall|i: int|
            0 <= i < entries.len() && keep(#[trigger] entries[i]) ==> entries.filter(keep).contains(
                entries[i],
            ),
        entries.filter(keep).len() <= entries.len(),
    decreases entries.len(),
{
    reveal(Seq::filter);
    broadcast use vstd::seq_lib::group_filter_ensures;

    if entries.len() > 0 {
        let shorter = entries.drop_last();
        lemma_filter_distinct(shorter, keep);
        let kept = entries.filter(keep);
        if keep(entries.last()) {
            assert(kept =~= shorter.filter(keep).push(entries.last()));
            assert forall|i: int, j: int| 0 <= i < j < kept.len() implies (#[trigger] kept[i]).0@
                != (#[trigger] kept[j]).0@ by {
                if j == kept.len() - 1 {
                    assert(shorter.contains(shorter.filter(keep)[i]));
                    let k = choose|k: int| 0 <= k < shorter.len() && shorter[k] == kept[i];
                    assert(entries[k] == kept[i]);
                }
            }
        }
    }
}

proof fn lemma_purged(entries: Seq<(String, PendingQualification)>, now_ms: u64)
    requires
        distinct(entries),
    ensures
        as_map(entries.filter(live(now_ms))) == unexpired(as_map(entries), now_ms),
{
    let kept = entries.filter(live(now_ms));
    let after = as_map(kept);
    let expected = unexpired(as_map(entries), now_ms);
    lemma_filter_distinct(entries, live(now_ms));
    assert forall|capability: Seq<char>| #[trigger] after.dom().contains(capability) implies
        expected.dom().contains(capability) && after[capability] == expected[capability] by {
        let i = choose|i: int| stands(kept, capability, i);
        assert(stands(kept, capability, i));
        lemma_entry(kept, i);
        assert(live(now_ms)(kept[i]) && entries.contains(kept[i]));
        let j = choose|j: int| 0 <= j < entries.len() && entries[j] == kept[i];
        lemma_entry(entries, j);
    }
    assert forall|capability: Seq<char>| #[trigger] expected.dom().contains(capability) implies
        after.dom().contains(capability) by {
        let j = choose|j: int| stands(entries, capability, j);
        assert(stands(entries, capability, j));
        lemma_entry(entries, j);
        assert(live(now_ms)(entries[j]));
        assert(kept.contains(entries[j]));
        let i = choose|i: int| 0 <= i < kept.len() && kept[i] == entries[j];
        lemma_entry(kept, i);
    }
    assert(after.dom() =~= expected.dom());
    assert(after =~= expected);
}

impl View for PendingStore {
    type V = Map<Seq<char>, PendingView>;

    closed spec fn view(&self) -> Map<Seq<char>, PendingView> {
        as_map(self.entries@)
    }
}

impl PendingStore {
    #[verifier::type_invariant]
    spec fn well_formed(self) -> bool {
        &&& distinct(self.entries@)
        &&& self.entries@.len() <= MAX_PENDING_CAPABILITIES
    }

    /// No capabilities.
    pub fn new() -> (store: PendingStore)
        ensures
            store@ == Map::<Seq<char>, PendingView>::empty(),
    {
        let store = PendingStore { entries: Vec::new() };
        assert(store@ =~= Map::<Seq<char>, PendingView>::empty());
        store
    }

    /// How many capabilities are pending.
    pub fn len(&self) -> (n: usize)
        ensures
            self@.dom().finite(),
            n == self@.len(),
            n <= MAX_PENDING_CAPABILITIES,
    {
        proof {
            use_type_invariant(self);
            lemma_len(self.entries@);
        }
        self.entries.len()
    }

    /// Whether `capability` is pending.
    pub fn contains_key(&self, capability: &str) -> (r: bool)
        ensures
            r == self@.contains_key(capability@),
    {
        position(&self.entries, capability).is_some()
    }
}

/// Where `capability` stands.
fn position(entries: &Vec<(String, PendingQualification)>, capability: &str) -> (at: Option<usize>)
    ensures
        at is Some ==> stands(entries@, capability@, at->0 as int),
        at is None ==> !as_map(entries@).contains_key(capability@),
        at is Some ==> as_map(entries@).contains_key(capability@),
{
    let mut i: usize = 0;
    while i < entries.len()
        invariant
            i <= entries.len(),
            forall|k: int| 0 <= k < i ==> !stands(entries@, capability@, k),
        decreases entries.len() - i,
    {
        if same_text(entries[i].0.as_str(), capability) {
            assert(stands(entries@, capability@, i as int));
            return Some(i);
        }
        i = i + 1;
    }
    None
}

/// Drops the entries that are not valid beyond `now_ms`.
fn purge(entries: Vec<(String, PendingQualification)>, now_ms: u64) -> (kept: Vec<
    (String, PendingQualification),
>)
    ensures
        kept@ == entries@.filter(live(now_ms)),
{
    let ghost all = entries@;
    let mut kept = entries;
    let mut i: usize = 0;
    let ghost mut seen: int = 0;
    proof {
        reveal(Seq::filter);
        assert(all.take(0).filter(live(now_ms)) =~= Seq::empty());
        assert(kept@ =~= all.take(0).filter(live(now_ms)) + all.skip(0));
    }
    while i < kept.len()
        invariant
            0 <= seen <= all.len(),
            i <= kept.len(),
            i == all.take(seen).filter(live(now_ms)).len(),
            kept@ == all.take(seen).filter(live(now_ms)) + all.skip(seen),
        decreases kept.len() - i,
    {
        proof {
            reveal(Seq::filter);
            assert(kept@[i as int] == all.skip(seen)[0]);
            assert(all.take(seen + 1).drop_last() =~= all.take(seen));
            assert(all.take(seen + 1).last() == all[seen]);
        }
        let ghost before = kept@;
        if kept[i].1.binding.expires_at_ms > now_ms {
            i = i + 1;
        } else {
            kept.remove(i);
        }
        proof {
            seen = seen + 1;
            assert(kept@ =~= all.take(seen).filter(live(now_ms)) + all.skip(seen));
        }
    }
    proof {
        assert(all.take(seen) =~= all);
        assert(kept@ =~= all.filter(live(now_ms)));
    }
    kept
}

/// Drops expired capabilities and then adds one, unless too many are pending.
pub fn insert_pending(
    pending: &mut PendingStore,
    capability: String,
    item: PendingQualification,
    now_ms: u64,
) -> (r: Result<(), QualificationError>)
    ensures
        unexpired(old(pending)@, now_ms).len() >= MAX_PENDING_CAPABILITIES ==> verdict(r) == Err::<
            (),
            _,
        >(QualificationErrorView::Internal) && final(pending)@ == unexpired(old(pending)@, now_ms),
        unexpired(old(pending)@, now_ms).len() < MAX_PENDING_CAPABILITIES ==> verdict(r) == Ok::<
            _,
            QualificationErrorView,
        >(()) && final(pending)@ == unexpired(old(pending)@, now_ms).insert(capability@, item@),
{
    proof {
        use_type_invariant(&*pending);
        lemma_purged(pending.entries@, now_ms);
        lemma_filter_distinct(pending.entries@, live(now_ms));
        lemma_len(pending.entries@.filter(live(now_ms)));
    }
    let mut all: Vec<(String, PendingQualification)> = Vec::new();
    std::mem::swap(&mut all, &mut pending.entries);
    let mut entries = purge(all, now_ms);
    if entries.len() >= MAX_PENDING_CAPABILITIES {
        pending.entries = entries;
        return Err(QualificationError::Internal);
    }
    let ghost kept = entries@;
    if let Some(at) = position(&entries, capability.as_str()) {
        entries.remove(at);
        proof {
            lemma_removed(kept, at as int);
        }
    } else {
        assert(as_map(kept) =~= as_map(kept).remove(capability@));
    }
    proof {
        lemma_pushed(kept, entries@, (capability, item));
    }
    entries.push((capability, item));
    pending.entries = entries;
    Ok(())
}

/// Takes a capability out. It can be taken once.
pub fn take_pending(pending: &mut PendingStore, capability: &str) -> (r: Result<
    PendingQualification,
    QualificationError,
>)
    ensures
        old(pending)@.contains_key(capability@) ==> verdict(r) == Ok::<_, QualificationErrorView>(
            old(pending)@[capability@],
        ) && final(pending)@ == old(pending)@.remove(capability@),
        !old(pending)@.contains_key(capability@) ==> verdict(r) == Err::<PendingView, _>(
            QualificationErrorView::Unauthorized,
        ) && final(pending)@ == old(pending)@,
{
    proof {
        use_type_invariant(&*pending);
    }
    let ghost before = pending.entries@;
    match position(&pending.entries, capability) {
        None => Err(QualificationError::Unauthorized),
        Some(at) => {
            let mut entries: Vec<(String, PendingQualification)> = Vec::new();
            std::mem::swap(&mut entries, &mut pending.entries);
            let (_, item) = entries.remove(at);
            proof {
                lemma_entry(before, at as int);
                lemma_removed(before, at as int);
            }
            pending.entries = entries;
            Ok(item)
        },
    }
}

proof fn lemma_removed(entries: Seq<(String, PendingQualification)>, at: int)
    requires
        distinct(entries),
        0 <= at < entries.len(),
    ensures
        distinct(entries.remove(at)),
        as_map(entries.remove(at)) == as_map(entries).remove(entries[at].0@),
{
    let shorter = entries.remove(at);
    let after = as_map(shorter);
    let expected = as_map(entries).remove(entries[at].0@);
    assert forall|i: int, j: int| 0 <= i < j < shorter.len() implies (#[trigger] shorter[i]).0@ != (
    #[trigger] shorter[j]).0@ by {
        let a = if i < at { i } else { i + 1 };
        let b = if j < at { j } else { j + 1 };
        assert(entries[a].0@ != entries[b].0@);
    }
    assert forall|capability: Seq<char>| #[trigger] after.dom().contains(capability) implies
        expected.dom().contains(capability) && after[capability] == expected[capability] by {
        let i = choose|i: int| stands(shorter, capability, i);
        assert(stands(shorter, capability, i));
        let a = if i < at { i } else { i + 1 };
        assert(entries[a] == shorter[i]);
        lemma_entry(entries, a);
        lemma_entry(shorter, i);
        if a < at {
            assert(entries[a].0@ != entries[at].0@);
        } else {
            assert(entries[at].0@ != entries[a].0@);
        }
    }
    assert forall|capability: Seq<char>| #[trigger] expected.dom().contains(capability) implies
        after.dom().contains(capability) by {
        let a = choose|a: int| stands(entries, capability, a);
        assert(stands(entries, capability, a));
        let i = if a < at { a } else { a - 1 };
        assert(shorter[i] == entries[a]);
        assert(stands(shorter, capability, i));
    }
    assert(after.dom() =~= expected.dom());
    assert(after =~= expected);
}

/// Adding an entry whose capability does not stand in `base` yet.
proof fn lemma_pushed(
    kept: Seq<(String, PendingQualification)>,
    base: Seq<(String, PendingQualification)>,
    entry: (String, PendingQualification),
)
    requires
        distinct(kept),
        distinct(base),
        as_map(base) == as_map(kept).remove(entry.0@),
    ensures
        distinct(base.push(entry)),
        as_map(base.push(entry)) == as_map(kept).insert(entry.0@, entry.1@),
{
    let longer = base.push(entry);
    assert forall|i: int, j: int| 0 <= i < j < longer.len() implies (#[trigger] longer[i]).0@ != (
    #[trigger] longer[j]).0@ by {
        if j == base.len() {
            lemma_entry(base, i);
        }
    }
    let after = as_map(longer);
    let expected = as_map(kept).insert(entry.0@, entry.1@);
    lemma_entry(longer, base.len() as int);
    assert forall|capability: Seq<char>| #[trigger] after.dom().contains(capability) implies
        expected.dom().contains(capability) && after[capability] == expected[capability] by {
        let i = choose|i: int| stands(longer, capability, i);
        assert(stands(longer, capability, i));
        lemma_entry(longer, i);
        if i < base.len() {
            lemma_entry(base, i);
        }
    }
    assert forall|capability: Seq<char>| #[trigger] expected.dom().contains(capability) implies
        after.dom().contains(capability) by {
        if capability != entry.0@ {
            assert(as_map(base).contains_key(capability));
            let i = choose|i: int| stands(base, capability, i);
            assert(stands(base, capability, i));
            assert(stands(longer, capability, i));
        }
    }
    assert(after.dom() =~= expected.dom());
    assert(after =~= expected);
}

} // verus!
