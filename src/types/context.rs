//! The `@context` envelope: a namespace table added to every outgoing
//! document and taken off every incoming one.
use vstd::prelude::*;

use crate::types::properties::{keys_unique, Json, Properties, PropertyValue, entry_models, lemma_entry_models, str_eq};

verus! {

/// The vocabulary of the connector's management protocol.
pub const EDC_NAMESPACE: &'static str = "https://w3id.org/edc/v0.0.1/ns/";

/// The ODRL vocabulary, for usage policies.
pub const ODRL_NAMESPACE: &'static str = "http://www.w3.org/ns/odrl/2/";

/// The key under which a document holds its namespace table.
pub const CONTEXT_KEY: &'static str = "@context";

/// The key of the default vocabulary in a namespace table.
pub const VOCAB_KEY: &'static str = "@vocab";

/// The prefix of the ODRL vocabulary in a namespace table.
pub const ODRL_PREFIX: &'static str = "odrl";

/// The default namespace table: the protocol's vocabulary.
pub open spec fn default_table() -> Seq<(Seq<char>, Json)> {
    seq![(VOCAB_KEY@, Json::Str(EDC_NAMESPACE@))]
}

/// The policy namespace table: the protocol's vocabulary and the ODRL prefix.
pub open spec fn policy_table() -> Seq<(Seq<char>, Json)> {
    seq![(VOCAB_KEY@, Json::Str(EDC_NAMESPACE@)), (ODRL_PREFIX@, Json::Str(ODRL_NAMESPACE@))]
}

/// The fields of a document that carries the namespace table `context` and
/// the fields `payload`: the table first, then the payload's fields.
pub open spec fn wrapped(context: Seq<(Seq<char>, Json)>, payload: Seq<(Seq<char>, Json)>) -> Seq<
    (Seq<char>, Json),
> {
    seq![(CONTEXT_KEY@, Json::Object(context))] + payload
}

/// The fields of `doc` without its namespace table.
pub open spec fn stripped(doc: Seq<(Seq<char>, Json)>) -> Seq<(Seq<char>, Json)> {
    doc.filter(|e: (Seq<char>, Json)| e.0 != CONTEXT_KEY@)
}

/// No field of `payload` is named like the namespace table.
pub open spec fn free_of_context(payload: Seq<(Seq<char>, Json)>) -> bool {
    forall|i: int| 0 <= i < payload.len() ==> #[trigger] payload[i].0 != CONTEXT_KEY@
}

/// A fresh copy of the default namespace table.
pub fn default_context_table() -> (r: Properties)
    ensures
        r.model() == default_table(),
        r.wf(),
{
    let mut t = Properties::new();
    t.insert_value(VOCAB_KEY, PropertyValue::String(EDC_NAMESPACE.to_owned()));
    proof {
        reveal_strlit("@vocab");
        assert(t.model() =~= default_table());
    }
    t
}

/// A fresh copy of the policy namespace table.
pub fn policy_context_table() -> (r: Properties)
    ensures
        r.model() == policy_table(),
        r.wf(),
{
    let mut t = default_context_table();
    t.insert_value(ODRL_PREFIX, PropertyValue::String(ODRL_NAMESPACE.to_owned()));
    proof {
        reveal_strlit("@vocab");
        reveal_strlit("odrl");
        assert(VOCAB_KEY@ != ODRL_PREFIX@) by {
            assert(VOCAB_KEY@[0] != ODRL_PREFIX@[0]);
        }
        assert(t.model() =~= policy_table());
    }
    t
}


/// The fields of `doc` other than its namespace table, in order.
fn fields_without_context(doc: &Properties, out: &mut Vec<(String, PropertyValue)>)
    ensures
        entry_models(final(out)@) == entry_models(old(out)@) + stripped(doc.model()),
{
    proof {
        lemma_entry_models(doc.entries@);
        lemma_entry_models(out@);
    }
    let ghost start = entry_models(out@);
    let ghost m = doc.model();
    let mut i: usize = 0;
    while i < doc.entries.len()
        invariant
            i <= doc.entries@.len(),
            m == doc.model(),
            m.len() == doc.entries@.len(),
            forall|j: int| 0 <= j < m.len() ==> #[trigger] m[j] == (doc.entries@[j].0@, doc.entries@[j].1.model()),
            entry_models(out@) == start + stripped(m.subrange(0, i as int)),
        decreases doc.entries@.len() - i,
    {
        let ghost p = m.subrange(0, i as int);
        let ghost q = m.subrange(0, i + 1);
        proof {
            assert(q.drop_last() =~= p);
            assert(q.last() == m[i as int]);
            reveal(Seq::filter);
        }
        if !str_eq(doc.entries[i].0.as_str(), CONTEXT_KEY) {
            let ghost prev = out@;
            let value = doc.entries[i].1.clone();
            out.push((doc.entries[i].0.clone(), value));
            proof {
                lemma_entry_models(prev);
                lemma_entry_models(out@);
                assert forall|k: int| 0 <= k < prev.len() implies #[trigger] entry_models(out@)[k]
                    == entry_models(prev)[k] by {
                    assert(out@[k] == prev[k]);
                }
                assert(entry_models(out@)[prev.len() as int] == m[i as int]);
                assert(entry_models(out@) =~= entry_models(prev).push(m[i as int]));
                assert(stripped(q) == stripped(p).push(m[i as int]));
                assert(entry_models(out@) =~= start + stripped(q));
            }
        } else {
            proof {
                assert(stripped(q) == stripped(p));
            }
        }
        i = i + 1;
    }
    proof {
        assert(m.subrange(0, i as int) =~= m);
    }
}

/// The document that carries the namespace table `context` first and then
/// the fields of `payload`; a namespace table that `payload` held is replaced.
pub fn wrap_document(context: &Properties, payload: &Properties) -> (r: Properties)
    ensures
        r.model() == wrapped(context.model(), stripped(payload.model())),
        payload.wf() ==> r.wf(),
{
    proof {
        if payload.wf() {
            lemma_stripped_unique(payload.model());
            lemma_stripped_idempotent(payload.model());
        }
    }
    let mut entries: Vec<(String, PropertyValue)> = Vec::new();
    let table = PropertyValue::Object(context.clone());
    entries.push((CONTEXT_KEY.to_owned(), table));
    proof {
        lemma_entry_models(entries@);
        assert(entry_models(entries@) =~= seq![(CONTEXT_KEY@, Json::Object(context.model()))]);
    }
    fields_without_context(payload, &mut entries);
    Properties { entries }
}

/// The fields of `doc` without its namespace table.
pub fn strip_document(doc: &Properties) -> (r: Properties)
    ensures
        r.model() == stripped(doc.model()),
        doc.wf() ==> r.wf(),
{
    proof {
        if doc.wf() {
            lemma_stripped_unique(doc.model());
        }
    }
    let mut entries: Vec<(String, PropertyValue)> = Vec::new();
    proof {
        lemma_entry_models(entries@);
        assert(entry_models(entries@) =~= Seq::<(Seq<char>, Json)>::empty());
    }
    fields_without_context(doc, &mut entries);
    proof {
        assert(Seq::<(Seq<char>, Json)>::empty() + stripped(doc.model()) =~= stripped(doc.model()));
    }
    Properties { entries }
}


proof fn lemma_stripped_free(p: Seq<(Seq<char>, Json)>)
    requires
        free_of_context(p),
    ensures
        stripped(p) == p,
    decreases p.len(),
{
    reveal(Seq::filter);
    if p.len() > 0 {
        lemma_stripped_free(p.drop_last());
        assert(p.drop_last().push(p.last()) =~= p);
    } else {
        assert(stripped(p) =~= p);
    }
}

proof fn lemma_stripped_idempotent(p: Seq<(Seq<char>, Json)>)
    ensures
        free_of_context(stripped(p)),
{
    let pred = |e: (Seq<char>, Json)| e.0 != CONTEXT_KEY@;
    assert forall|i: int| 0 <= i < stripped(p).len() implies #[trigger] stripped(p)[i].0 != CONTEXT_KEY@ by {
        p.lemma_filter_pred(pred, i);
    }
}

proof fn lemma_stripped_from(m: Seq<(Seq<char>, Json)>)
    ensures
        forall|i: int|
            0 <= i < stripped(m).len() ==> exists|k: int|
                0 <= k < m.len() && m[k] == #[trigger] stripped(m)[i],
    decreases m.len(),
{
    reveal(Seq::filter);
    if m.len() > 0 {
        let f = m.drop_last();
        lemma_stripped_from(f);
        let sf = stripped(f);
        assert forall|i: int| 0 <= i < stripped(m).len() implies exists|k: int|
            0 <= k < m.len() && m[k] == #[trigger] stripped(m)[i] by {
            if i < sf.len() {
                assert(stripped(m)[i] == sf[i]);
                let k = choose|k: int| 0 <= k < f.len() && f[k] == sf[i];
                assert(m[k] == f[k]);
            } else {
                assert(stripped(m)[i] == m.last());
                assert(m[m.len() - 1] == m.last());
            }
        }
    }
}

proof fn lemma_stripped_unique(m: Seq<(Seq<char>, Json)>)
    requires
        keys_unique(m),
    ensures
        keys_unique(stripped(m)),
    decreases m.len(),
{
    reveal(Seq::filter);
    if m.len() > 0 {
        let f = m.drop_last();
        assert(keys_unique(f));
        lemma_stripped_unique(f);
        lemma_stripped_from(f);
        let sf = stripped(f);
        if m.last().0 != CONTEXT_KEY@ {
            assert(stripped(m) == sf.push(m.last()));
            assert forall|i: int, j: int| 0 <= i < j < stripped(m).len() implies stripped(m)[i].0
                != stripped(m)[j].0 by {
                if j == sf.len() {
                    assert(stripped(m)[i] == sf[i]);
                    let k = choose|k: int| 0 <= k < f.len() && f[k] == sf[i];
                    assert(m[k] == f[k]);
                    assert(m[m.len() - 1] == m.last());
                } else {
                    assert(stripped(m)[i] == sf[i]);
                    assert(stripped(m)[j] == sf[j]);
                }
            }
        } else {
            assert(stripped(m) == sf);
        }
    }
}

/// Taking the namespace table off a wrapped payload gives back the payload's
/// own fields, whatever the table; for a payload with no field named like the
/// table, exactly the payload.
pub proof fn law_envelope_round_trip(
    context: Seq<(Seq<char>, Json)>,
    payload: Seq<(Seq<char>, Json)>,
)
    ensures
        stripped(wrapped(context, stripped(payload))) == stripped(payload),
        free_of_context(payload) ==> stripped(wrapped(context, stripped(payload))) == payload,
{
    let head = seq![(CONTEXT_KEY@, Json::Object(context))];
    let pred = |e: (Seq<char>, Json)| e.0 != CONTEXT_KEY@;
    Seq::filter_distributes_over_add(head, stripped(payload), pred);
    assert(head.filter(pred) =~= Seq::<(Seq<char>, Json)>::empty()) by {
        reveal_with_fuel(Seq::filter, 2);
        assert(head.drop_last() =~= Seq::<(Seq<char>, Json)>::empty());
    }
    lemma_stripped_idempotent(payload);
    lemma_stripped_free(stripped(payload));
    assert(Seq::<(Seq<char>, Json)>::empty() + stripped(payload) =~= stripped(payload));
    if free_of_context(payload) {
        lemma_stripped_free(payload);
    }
}

/// A payload as it arrives: its namespace table, and the payload itself.
pub struct WithContext<T> {
    pub context: Properties,
    pub inner: T,
}

impl<T> WithContext<T> {
    pub fn new(context: Properties, inner: T) -> (r: Self)
        ensures
            r.context == context,
            r.inner == inner,
    {
        WithContext { context, inner }
    }

    /// The payload, with the namespace table dropped.
    pub fn into_inner(self) -> (r: T)
        ensures
            r == self.inner,
    {
        self.inner
    }
}

/// A payload as it leaves: a namespace table, and the payload it goes with.
pub struct WithContextRef<'a, T> {
    pub context: Properties,
    pub inner: &'a T,
}

impl<'a, T> WithContextRef<'a, T> {
    /// `inner` with the default namespace table.
    pub fn default_context(inner: &'a T) -> (r: Self)
        ensures
            r.context.model() == default_table(),
            r.inner == inner,
    {
        WithContextRef { context: default_context_table(), inner }
    }

    /// `inner` with the policy namespace table.
    pub fn policy_context(inner: &'a T) -> (r: Self)
        ensures
            r.context.model() == policy_table(),
            r.inner == inner,
    {
        WithContextRef { context: policy_context_table(), inner }
    }
}

} // verus!
