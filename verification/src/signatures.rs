//! The signatures recorded on a step, keyed by participant.

use vstd::prelude::*;
use vstd::string::StringExecFns;

verus! {

/// One participant's attestation over a message, as the service recorded it.
#[derive(Debug)]
pub struct StepSignature {
    pub signature: String,
    /// Milliseconds since the epoch.
    pub timestamp: i64,
    pub message: String,
}

/// Mathematical model of a [`StepSignature`].
pub struct StepSignatureView {
    pub signature: Seq<char>,
    pub timestamp: i64,
    pub message: Seq<char>,
}

impl View for StepSignature {
    type V = StepSignatureView;

    open spec fn view(&self) -> StepSignatureView {
        StepSignatureView {
            signature: self.signature@,
            timestamp: self.timestamp,
            message: self.message@,
        }
    }
}

impl DeepView for StepSignature {
    type V = StepSignatureView;

    open spec fn deep_view(&self) -> StepSignatureView {
        self@
    }
}

impl Clone for StepSignature {
    fn clone(&self) -> (r: StepSignature)
        ensures
            r == *self,
    {
        StepSignature {
            signature: self.signature.clone(),
            timestamp: self.timestamp,
            message: self.message.clone(),
        }
    }
}

/// What is recorded for one participant: `None` where signing was noted but
/// no signature is held.
#[derive(Debug)]
pub struct SignatureEntry {
    pub participant: String,
    pub signature: Option<StepSignature>,
}

impl Clone for SignatureEntry {
    fn clone(&self) -> (r: SignatureEntry)
        ensures
            r == *self,
    {
        let signature = match &self.signature {
            Some(held) => Some(held.clone()),
            None => None,
        };
        SignatureEntry { participant: self.participant.clone(), signature }
    }
}

/// The map that a sequence of entries denotes, later entries winning.
pub open spec fn entries_map(entries: Seq<SignatureEntry>) -> Map<
    Seq<char>,
    Option<StepSignatureView>,
>
    decreases entries.len(),
{
    if entries.len() == 0 {
        Map::empty()
    } else {
        entries_map(entries.drop_last()).insert(
            entries.last().participant@,
            entries.last().signature.deep_view(),
        )
    }
}

/// No participant occurs in two entries.
pub open spec fn distinct_participants(entries: Seq<SignatureEntry>) -> bool {
    forall|i: int, j: int|
        0 <= i < j < entries.len() ==> entries[i].participant@ != entries[j].participant@
}

/// Whether some entry below `bound` is for `participant`.
pub open spec fn has_entry(entries: Seq<SignatureEntry>, bound: int, participant: Seq<char>) -> bool {
    exists|i: int| 0 <= i < bound && #[trigger] entries[i].participant@ == participant
}

proof fn lemma_entries_map_domain(entries: Seq<SignatureEntry>, participant: Seq<char>)
    ensures
        entries_map(entries).contains_key(participant) <==> has_entry(
            entries,
            entries.len() as int,
            participant,
        ),
    decreases entries.len(),
{
    if entries.len() > 0 {
        let init = entries.drop_last();
        lemma_entries_map_domain(init, participant);
        if has_entry(init, init.len() as int, participant) {
            let i = choose|i: int|
                0 <= i < init.len() && #[trigger] init[i].participant@ == participant;
            assert(entries[i].participant@ == participant);
        }
        if has_entry(entries, entries.len() as int, participant) {
            let i = choose|i: int|
                0 <= i < entries.len() && #[trigger] entries[i].participant@ == participant;
            if i < init.len() {
                assert(init[i].participant@ == participant);
            }
        }
    }
}

proof fn lemma_distinct_without_last(entries: Seq<SignatureEntry>)
    requires
        distinct_participants(entries),
        entries.len() > 0,
    ensures
        distinct_participants(entries.drop_last()),
{
    let init = entries.drop_last();
    assert forall|a: int, b: int| 0 <= a < b < init.len() implies init[a].participant@
        != init[b].participant@ by {
        assert(entries[a].participant@ != entries[b].participant@);
    }
}

proof fn lemma_entries_map_value(entries: Seq<SignatureEntry>, i: int)
    requires
        distinct_participants(entries),
        0 <= i < entries.len(),
    ensures
        entries_map(entries).contains_key(entries[i].participant@),
        entries_map(entries)[entries[i].participant@] == entries[i].signature.deep_view(),
    decreases entries.len(),
{
    if i < entries.len() - 1 {
        lemma_distinct_without_last(entries);
        lemma_entries_map_value(entries.drop_last(), i);
    }
}

proof fn lemma_entries_map_update(entries: Seq<SignatureEntry>, i: int, entry: SignatureEntry)
    requires
        distinct_participants(entries),
        0 <= i < entries.len(),
        entry.participant@ == entries[i].participant@,
    ensures
        distinct_participants(entries.update(i, entry)),
        entries_map(entries.update(i, entry)) == entries_map(entries).insert(
            entry.participant@,
            entry.signature.deep_view(),
        ),
    decreases entries.len(),
{
    let updated = entries.update(i, entry);
    let init = entries.drop_last();
    assert forall|a: int, b: int| 0 <= a < b < updated.len() implies updated[a].participant@
        != updated[b].participant@ by {
        assert(entries[a].participant@ != entries[b].participant@);
    }
    if i == entries.len() - 1 {
        assert(updated.drop_last() =~= init);
    } else {
        lemma_distinct_without_last(entries);
        lemma_entries_map_update(init, i, entry);
        assert(updated.drop_last() =~= init.update(i, entry));
    }
}

proof fn lemma_entries_map_push(entries: Seq<SignatureEntry>, entry: SignatureEntry)
    requires
        distinct_participants(entries),
        !has_entry(entries, entries.len() as int, entry.participant@),
    ensures
        distinct_participants(entries.push(entry)),
        entries_map(entries.push(entry)) == entries_map(entries).insert(
            entry.participant@,
            entry.signature.deep_view(),
        ),
{
    let pushed = entries.push(entry);
    assert(pushed.drop_last() =~= entries);
    assert forall|a: int, b: int| 0 <= a < b < pushed.len() implies pushed[a].participant@
        != pushed[b].participant@ by {
        if b == entries.len() {
            assert(entries[a].participant@ != entry.participant@);
        } else {
            assert(entries[a].participant@ != entries[b].participant@);
        }
    }
}

proof fn lemma_entries_map_len(entries: Seq<SignatureEntry>)
    requires
        distinct_participants(entries),
    ensures
        entries_map(entries).dom().finite(),
        entries_map(entries).len() == entries.len(),
    decreases entries.len(),
{
    if entries.len() > 0 {
        let init = entries.drop_last();
        lemma_distinct_without_last(entries);
        lemma_entries_map_len(init);
        lemma_entries_map_domain(init, entries.last().participant@);
        if has_entry(init, init.len() as int, entries.last().participant@) {
            let i = choose|i: int|
                0 <= i < init.len() && #[trigger] init[i].participant@
                    == entries.last().participant@;
            assert(entries[i].participant@ != entries[entries.len() - 1].participant@);
        }
    }
}

/// The signatures recorded on one step: at most one entry per participant.
#[derive(Debug)]
pub struct SignatureMap {
    entries: Vec<SignatureEntry>,
}

impl Clone for SignatureMap {
    fn clone(&self) -> (r: SignatureMap)
        ensures
            r@ == self@,
    {
        proof {
            use_type_invariant(self);
        }
        let mut entries: Vec<SignatureEntry> = Vec::new();
        let mut i: usize = 0;
        while i < self.entries.len()
            invariant
                i <= self.entries.len(),
                entries@ == self.entries@.take(i as int),
            decreases self.entries.len() - i,
        {
            entries.push(self.entries[i].clone());
            i = i + 1;
        }
        assert(entries@ =~= self.entries@);
        SignatureMap { entries }
    }
}

impl View for SignatureMap {
    type V = Map<Seq<char>, Option<StepSignatureView>>;

    closed spec fn view(&self) -> Map<Seq<char>, Option<StepSignatureView>> {
        entries_map(self.entries@)
    }
}

impl DeepView for SignatureMap {
    type V = Map<Seq<char>, Option<StepSignatureView>>;

    open spec fn deep_view(&self) -> Map<Seq<char>, Option<StepSignatureView>> {
        self@
    }
}

impl SignatureMap {
    #[verifier::type_invariant]
    spec fn well_formed(self) -> bool {
        distinct_participants(self.entries@)
    }

    /// A map without entries.
    pub fn new() -> (r: SignatureMap)
        ensures
            r@ == Map::<Seq<char>, Option<StepSignatureView>>::empty(),
    {
        SignatureMap { entries: Vec::new() }
    }

    fn position(&self, participant: &String) -> (r: Option<usize>)
        ensures
            match r {
                Some(i) => i < self.entries.len() && self.entries[i as int].participant@
                    == participant@,
                None => !has_entry(self.entries@, self.entries.len() as int, participant@),
            },
    {
        let mut i: usize = 0;
        while i < self.entries.len()
            invariant
                i <= self.entries.len(),
                !has_entry(self.entries@, i as int, participant@),
            decreases self.entries.len() - i,
        {
            if self.entries[i].participant == *participant {
                return Some(i);
            }
            i = i + 1;
        }
        None
    }

    /// Records `signature` for `participant`, in place of what was recorded
    /// for that participant before.
    pub fn insert(&mut self, participant: String, signature: Option<StepSignature>)
        ensures
            final(self)@ == old(self)@.insert(participant@, signature.deep_view()),
    {
        proof {
            use_type_invariant(&*self);
        }
        let found = self.position(&participant);
        let entry = SignatureEntry { participant, signature };
        let ghost before = self.entries@;
        let mut entries: Vec<SignatureEntry> = Vec::new();
        core::mem::swap(&mut entries, &mut self.entries);
        match found {
            Some(i) => {
                proof {
                    lemma_entries_map_update(before, i as int, entry);
                }
                entries.set(i, entry);
            },
            None => {
                proof {
                    lemma_entries_map_push(before, entry);
                }
                entries.push(entry);
            },
        }
        self.entries = entries;
    }

    /// What is recorded for `participant`, if anything.
    pub fn get(&self, participant: &str) -> (r: Option<&Option<StepSignature>>)
        ensures
            match r {
                Some(found) => self@.contains_key(participant@) && self@[participant@]
                    == found.deep_view(),
                None => !self@.contains_key(participant@),
            },
    {
        proof {
            use_type_invariant(self);
            lemma_entries_map_domain(self.entries@, participant@);
        }
        let key = String::from_str(participant);
        match self.position(&key) {
            Some(i) => {
                proof {
                    lemma_entries_map_value(self.entries@, i as int);
                }
                Some(&self.entries[i].signature)
            },
            None => None,
        }
    }

    /// The entries, one per participant.
    pub fn entries(&self) -> (r: &Vec<SignatureEntry>)
        ensures
            distinct_participants(r@),
            entries_map(r@) == self@,
    {
        proof {
            use_type_invariant(self);
        }
        &self.entries
    }

    /// The number of participants with an entry.
    pub fn len(&self) -> (r: usize)
        ensures
            r == self@.len(),
    {
        proof {
            use_type_invariant(self);
            lemma_entries_map_len(self.entries@);
        }
        self.entries.len()
    }
}

} // verus!
