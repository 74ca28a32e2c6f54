//! The simulator's shared signal state: a mapping from
//! `(component id, output name)` to the current signal value.
//!
//! The exec store is an association vector; its model is the sequence
//! of entries, looked up by first match.  `upsert` is the model of a
//! write: it overwrites the first matching entry in place, or appends
//! a fresh one, so existing keys are never removed.

use vstd::prelude::*;
use crate::signal::SignalValue;
use crate::wiring::Input;

verus! {

/// Model of one state entry.
pub ghost struct SigEntry {
    pub id: Seq<char>,
    pub field: Seq<char>,
    pub value: SignalValue,
}

/// The model of the whole signal state.
pub type StateModel = Seq<SigEntry>;

/// First-match lookup of `(id, field)`.
pub open spec fn lookup(s: StateModel, id: Seq<char>, field: Seq<char>) -> Option<SignalValue>
    decreases s.len(),
{
    if s.len() == 0 {
        None
    } else if s[0].id == id && s[0].field == field {
        Some(s[0].value)
    } else {
        lookup(s.drop_first(), id, field)
    }
}

/// The value currently carried by a wire: the producer's entry, or
/// `Uninitialized` when the reference does not resolve.
pub open spec fn wire_value(st: StateModel, input: crate::wiring::Input) -> SignalValue {
    match lookup(st, input.id@, input.field@) {
        Some(v) => v,
        None => SignalValue::Uninitialized,
    }
}

/// True iff `(id, field)` is present in the state.
pub open spec fn resolves(s: StateModel, id: Seq<char>, field: Seq<char>) -> bool {
    lookup(s, id, field) is Some
}

/// The state after writing `value` to `(id, field)`: the first
/// matching entry is overwritten in place, or a fresh entry is
/// appended.
pub open spec fn upsert(
    s: StateModel,
    id: Seq<char>,
    field: Seq<char>,
    value: SignalValue,
) -> StateModel
    decreases s.len(),
{
    if s.len() == 0 {
        seq![SigEntry { id, field, value }]
    } else if s[0].id == id && s[0].field == field {
        s.update(0, SigEntry { id, field, value })
    } else {
        seq![s[0]] + upsert(s.drop_first(), id, field, value)
    }
}

/// Lookup steps over a non-matching head entry.
proof fn lemma_lookup_step(s: StateModel, id: Seq<char>, field: Seq<char>)
    requires
        s.len() > 0,
        !(s[0].id == id && s[0].field == field),
    ensures
        lookup(s, id, field) == lookup(s.drop_first(), id, field),
{
}

/// A write makes its own key resolve to the written value.
pub proof fn lemma_lookup_upsert_same(
    s: StateModel,
    id: Seq<char>,
    field: Seq<char>,
    value: SignalValue,
)
    ensures
        lookup(upsert(s, id, field, value), id, field) == Some(value),
    decreases s.len(),
{
    if s.len() == 0 {
    } else if s[0].id == id && s[0].field == field {
    } else {
        lemma_lookup_upsert_same(s.drop_first(), id, field, value);
        let u = upsert(s, id, field, value);
        assert(u.drop_first() =~= upsert(s.drop_first(), id, field, value));
    }
}

/// A write leaves every other key exactly as it was.
pub proof fn lemma_lookup_upsert_other(
    s: StateModel,
    id: Seq<char>,
    field: Seq<char>,
    value: SignalValue,
    id2: Seq<char>,
    field2: Seq<char>,
)
    requires
        !(id2 == id && field2 == field),
    ensures
        lookup(upsert(s, id, field, value), id2, field2) == lookup(s, id2, field2),
    decreases s.len(),
{
    if s.len() == 0 {
        let u = upsert(s, id, field, value);
        assert(!(u[0].id == id2 && u[0].field == field2));
        assert(lookup(u, id2, field2) == lookup(u.drop_first(), id2, field2));
        assert(lookup(u.drop_first(), id2, field2) is None);
    } else if s[0].id == id && s[0].field == field {
        let u = upsert(s, id, field, value);
        assert(!(u[0].id == id2 && u[0].field == field2));
        assert(u.drop_first() =~= s.drop_first());
        assert(u.len() == s.len());
        assert(u.len() != 0);
        lemma_lookup_step(u, id2, field2);
        lemma_lookup_step(s, id2, field2);
    } else {
        lemma_lookup_upsert_other(s.drop_first(), id, field, value, id2, field2);
        let u = upsert(s, id, field, value);
        assert(u.drop_first() =~= upsert(s.drop_first(), id, field, value));
        assert(u[0] == s[0]);
        if s[0].id == id2 && s[0].field == field2 {
            assert(lookup(u, id2, field2) == Some(u[0].value));
            assert(lookup(s, id2, field2) == Some(s[0].value));
        } else {
            lemma_lookup_step(u, id2, field2);
            lemma_lookup_step(s, id2, field2);
        }
    }
}

/// Writing back the value a key already carries leaves the state
/// exactly as it was.
pub proof fn lemma_upsert_noop(s: StateModel, id: Seq<char>, field: Seq<char>, value: SignalValue)
    requires
        lookup(s, id, field) == Some(value),
    ensures
        upsert(s, id, field, value) == s,
    decreases s.len(),
{
    if s.len() == 0 {
    } else if s[0].id == id && s[0].field == field {
        assert(s[0] == SigEntry { id, field, value });
        assert(upsert(s, id, field, value) =~= s);
    } else {
        lemma_lookup_step(s, id, field);
        lemma_upsert_noop(s.drop_first(), id, field, value);
        assert(upsert(s, id, field, value) =~= s);
    }
}

/// Writes never remove a key: everything that resolved before a
/// write still resolves after it.
pub proof fn lemma_upsert_preserves_resolution(
    s: StateModel,
    id: Seq<char>,
    field: Seq<char>,
    value: SignalValue,
    id2: Seq<char>,
    field2: Seq<char>,
)
    requires
        resolves(s, id2, field2),
    ensures
        resolves(upsert(s, id, field, value), id2, field2),
{
    if id2 == id && field2 == field {
        lemma_lookup_upsert_same(s, id, field, value);
    } else {
        lemma_lookup_upsert_other(s, id, field, value, id2, field2);
    }
}

/// If the first `i` entries do not match, lookup of the whole
/// sequence equals lookup of the rest.
proof fn lemma_lookup_skip(s: StateModel, id: Seq<char>, field: Seq<char>, i: int)
    requires
        0 <= i <= s.len(),
        forall|j: int| 0 <= j < i ==> !(s[j].id == id && s[j].field == field),
    ensures
        lookup(s, id, field) == lookup(s.skip(i), id, field),
    decreases i,
{
    if i > 0 {
        lemma_lookup_skip(s, id, field, i - 1);
        let t = s.skip(i - 1);
        assert(t[0] == s[i - 1]);
        assert(!(s[i - 1].id == id && s[i - 1].field == field));
        assert(t.drop_first() =~= s.skip(i));
    } else {
        assert(s.skip(0) =~= s);
    }
}

/// If the first matching entry stands at `i`, `upsert` is the
/// point update of that entry.
proof fn lemma_upsert_found(
    s: StateModel,
    id: Seq<char>,
    field: Seq<char>,
    value: SignalValue,
    i: int,
)
    requires
        0 <= i < s.len(),
        s[i].id == id && s[i].field == field,
        forall|j: int| 0 <= j < i ==> !(s[j].id == id && s[j].field == field),
    ensures
        upsert(s, id, field, value) == s.update(i, SigEntry { id, field, value }),
    decreases i,
{
    if i == 0 {
    } else {
        lemma_upsert_found(s.drop_first(), id, field, value, i - 1);
        assert(upsert(s, id, field, value) =~= s.update(i, SigEntry { id, field, value }));
    }
}

/// If no entry matches, `upsert` appends a fresh entry.
proof fn lemma_upsert_missing(s: StateModel, id: Seq<char>, field: Seq<char>, value: SignalValue)
    requires
        forall|j: int| 0 <= j < s.len() ==> !(s[j].id == id && s[j].field == field),
    ensures
        upsert(s, id, field, value) == s.push(SigEntry { id, field, value }),
    decreases s.len(),
{
    if s.len() == 0 {
        assert(upsert(s, id, field, value) =~= s.push(SigEntry { id, field, value }));
    } else {
        lemma_upsert_missing(s.drop_first(), id, field, value);
        assert(upsert(s, id, field, value) =~= s.push(SigEntry { id, field, value }));
    }
}

/// One exec entry of the signal state.
#[derive(Clone, Debug)]
pub struct OutEntry {
    pub id: String,
    pub field: String,
    pub value: SignalValue,
}

impl View for OutEntry {
    type V = SigEntry;

    open spec fn view(&self) -> SigEntry {
        SigEntry { id: self.id@, field: self.field@, value: self.value }
    }
}

/// The exec signal state: an association vector over
/// `(component id, output name)`.
#[derive(Debug)]
pub struct SimState {
    entries: Vec<OutEntry>,
}

impl View for SimState {
    type V = StateModel;

    closed spec fn view(&self) -> StateModel {
        self.entries@.map_values(|e: OutEntry| e@)
    }
}

impl SimState {
    /// Creates an empty signal state.
    pub fn new() -> (r: SimState)
        ensures
            r@ == Seq::<SigEntry>::empty(),
    {
        let r = SimState { entries: Vec::new() };
        proof {
            assert(r@ =~= Seq::<SigEntry>::empty());
        }
        r
    }

    /// Resolves a wire reference against the current state: the value
    /// of the referenced producer's named output, or `None` when the
    /// wiring does not resolve.
    pub fn get_input(&self, input: &Input) -> (r: Option<SignalValue>)
        ensures
            r == lookup(self@, input.id@, input.field@),
    {
        let ghost idv = input.id@;
        let ghost fieldv = input.field@;
        let n = self.entries.len();
        let mut i: usize = 0;
        while i < n
            invariant
                i <= n,
                n == self.entries.len(),
                idv == input.id@,
                fieldv == input.field@,
                self@.len() == self.entries@.len(),
                forall|j: int| 0 <= j < self@.len() ==> self@[j] == self.entries@[j]@,
                forall|j: int| 0 <= j < i ==> !(self@[j].id == idv && self@[j].field == fieldv),
            decreases n - i,
        {
            let e = &self.entries[i];
            let id_eq = e.id == input.id;
            let field_eq = e.field == input.field;
            proof {
                assert(self@[i as int] == self.entries@[i as int]@);
            }
            if id_eq && field_eq {
                proof {
                    assert(self@[i as int].id == idv && self@[i as int].field == fieldv);
                    lemma_lookup_skip(self@, idv, fieldv, i as int);
                    let t = self@.skip(i as int);
                    assert(t[0] == self@[i as int]);
                }
                return Some(e.value);
            }
            proof {
                assert(!(self@[i as int].id == idv && self@[i as int].field == fieldv));
            }
            i += 1;
        }
        proof {
            lemma_lookup_skip(self@, idv, fieldv, n as int);
            assert(self@.skip(n as int).len() == 0);
        }
        None
    }

    /// Writes `value` to `(id, field)`, overwriting the current entry
    /// or creating it.
    pub fn set_out(&mut self, id: &String, field: &String, value: SignalValue)
        ensures
            final(self)@ == upsert(old(self)@, id@, field@, value),
    {
        let ghost idv = id@;
        let ghost fieldv = field@;
        let n = self.entries.len();
        let mut i: usize = 0;
        while i < n
            invariant
                i <= n,
                n == self.entries.len(),
                idv == id@,
                fieldv == field@,
                self == old(self),
                self@.len() == self.entries@.len(),
                forall|j: int| 0 <= j < self@.len() ==> self@[j] == self.entries@[j]@,
                forall|j: int| 0 <= j < i ==> !(self@[j].id == idv && self@[j].field == fieldv),
            decreases n - i,
        {
            let id_eq = self.entries[i].id == *id;
            let field_eq = self.entries[i].field == *field;
            proof {
                assert(self@[i as int] == self.entries@[i as int]@);
            }
            if id_eq && field_eq {
                proof {
                    assert(self@[i as int].id == idv && self@[i as int].field == fieldv);
                }
                let e = &mut self.entries[i];
                e.value = value;
                proof {
                    lemma_upsert_found(old(self)@, idv, fieldv, value, i as int);
                    assert(self@ =~= upsert(old(self)@, idv, fieldv, value));
                }
                return;
            }
            proof {
                assert(!(self@[i as int].id == idv && self@[i as int].field == fieldv));
            }
            i += 1;
        }
        self.entries.push(OutEntry { id: id.clone(), field: field.clone(), value });
        proof {
            lemma_upsert_missing(old(self)@, idv, fieldv, value);
            assert(self@ =~= upsert(old(self)@, idv, fieldv, value));
        }
    }
}

} // verus!
