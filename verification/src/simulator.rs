//! The evaluation engine.  A simulator owns the ordered netlist and
//! the mapping from `(component id, output name)` to the current
//! signal value, and advances the whole graph by one evaluation
//! sweep per clock tick.
//!
//! One tick runs every component once, in store order; a component
//! reads the current state (so earlier components' writes of the
//! same sweep are visible to later ones, which makes store order a
//! load-bearing property of a netlist) and overwrites its own
//! outputs.  Conditions surfaced by components do not stop the
//! sweep: they are collected and handed back to the caller, which
//! decides how to act on them.

use vstd::prelude::*;
use crate::component::{
    comp_id, comp_outputs, comp_step_ok, comp_step_result, comp_step_state, Component,
};
use crate::signal::{Condition, SignalValue};
use crate::state::{lookup, resolves, upsert, SimState, StateModel};
use crate::wiring::{Id, Input};

verus! {

/// The ordered, heterogeneous netlist: the unit of construction.
/// Ordering is caller-determined; the engine evaluates components in
/// exactly this order every tick.
#[derive(Debug)]
pub struct ComponentStore {
    pub store: Vec<Component>,
}

/// The signal state after one full sweep over `cs`, starting from
/// `st`: each component's step is applied in store order.
pub open spec fn sweep_state(cs: Seq<Component>, st: StateModel) -> StateModel
    decreases cs.len(),
{
    if cs.len() == 0 {
        st
    } else {
        sweep_state(cs.drop_first(), comp_step_state(cs[0], st))
    }
}

/// The conditions one component contributes to a sweep: nothing on
/// success, its identity and condition otherwise.
pub open spec fn cond_entries(c: Component, st: StateModel) -> Seq<(Seq<char>, Condition)> {
    match comp_step_result(c, st) {
        Ok(_) => Seq::empty(),
        Err(e) => seq![(comp_id(c), e)],
    }
}

/// The conditions collected over one full sweep, in store order.
pub open spec fn sweep_conds(cs: Seq<Component>, st: StateModel) -> Seq<(Seq<char>, Condition)>
    decreases cs.len(),
{
    if cs.len() == 0 {
        Seq::empty()
    } else {
        cond_entries(cs[0], st) + sweep_conds(cs.drop_first(), comp_step_state(cs[0], st))
    }
}

/// How one full sweep relates the netlist and state before a tick
/// to the netlist and state after it: the state is the fold of the
/// per-component steps, and each component's private state advanced
/// against the state it saw at its turn.
pub open spec fn sweep_rel(
    pre: Seq<Component>,
    st0: StateModel,
    post: Seq<Component>,
    stn: StateModel,
) -> bool {
    &&& post.len() == pre.len()
    &&& stn == sweep_state(pre, st0)
    &&& forall|j: int|
        0 <= j < pre.len() ==> comp_step_ok(
            pre[j],
            sweep_state(pre.take(j), st0),
            #[trigger] post[j],
        )
}

/// The model of a collected condition list.
pub open spec fn conds_model(v: Seq<(Id, Condition)>) -> Seq<(Seq<char>, Condition)> {
    v.map_values(|p: (Id, Condition)| (p.0@, p.1))
}

/// The state after seeding every name in `names` (outputs of the
/// component named `id`) with `Uninitialized`.
pub open spec fn seed_outputs(id: Seq<char>, names: Seq<Seq<char>>, st: StateModel) -> StateModel
    decreases names.len(),
{
    if names.len() == 0 {
        st
    } else {
        seed_outputs(
            id,
            names.drop_first(),
            upsert(st, id, names[0], SignalValue::Uninitialized),
        )
    }
}

/// The initial signal state of a netlist: every declared output of
/// every component, seeded with `Uninitialized`, in store order.
pub open spec fn init_state(cs: Seq<Component>, st: StateModel) -> StateModel
    decreases cs.len(),
{
    if cs.len() == 0 {
        st
    } else {
        init_state(cs.drop_first(), seed_outputs(comp_id(cs[0]), comp_outputs(cs[0]), st))
    }
}

/// The state mapping only grows over a sweep: any signal that could
/// be read before a tick can still be read after it.
pub proof fn lemma_sweep_preserves_resolution(
    cs: Seq<Component>,
    st: StateModel,
    id: Seq<char>,
    field: Seq<char>,
)
    requires
        resolves(st, id, field),
    ensures
        resolves(sweep_state(cs, st), id, field),
    decreases cs.len(),
{
    if cs.len() > 0 {
        crate::component::lemma_comp_step_preserves_resolution(cs[0], st, id, field);
        lemma_sweep_preserves_resolution(cs.drop_first(), comp_step_state(cs[0], st), id, field);
    }
}

/// Unrolling a sweep from the back: sweeping one more component
/// applies its step to the swept state.
proof fn lemma_sweep_state_snoc(cs: Seq<Component>, c: Component, st: StateModel)
    ensures
        sweep_state(cs.push(c), st) == comp_step_state(c, sweep_state(cs, st)),
    decreases cs.len(),
{
    if cs.len() == 0 {
        assert(cs.push(c)[0] == c);
        assert(cs.push(c).drop_first() =~= Seq::<Component>::empty());
        assert(sweep_state(cs, st) == st);
        assert(sweep_state(cs.push(c), st) == sweep_state(
            cs.push(c).drop_first(),
            comp_step_state(c, st),
        ));
        assert(sweep_state(cs.push(c).drop_first(), comp_step_state(c, st)) == comp_step_state(
            c,
            st,
        ));
    } else {
        assert(cs.push(c)[0] == cs[0]);
        assert(cs.push(c).drop_first() =~= cs.drop_first().push(c));
        lemma_sweep_state_snoc(cs.drop_first(), c, comp_step_state(cs[0], st));
        assert(sweep_state(cs.push(c), st) == sweep_state(
            cs.drop_first().push(c),
            comp_step_state(cs[0], st),
        ));
        assert(sweep_state(cs, st) == sweep_state(cs.drop_first(), comp_step_state(cs[0], st)));
    }
}

/// Unrolling the collected conditions from the back.
proof fn lemma_sweep_conds_snoc(cs: Seq<Component>, c: Component, st: StateModel)
    ensures
        sweep_conds(cs.push(c), st) == sweep_conds(cs, st) + cond_entries(
            c,
            sweep_state(cs, st),
        ),
    decreases cs.len(),
{
    if cs.len() == 0 {
        assert(cs.push(c)[0] == c);
        assert(cs.push(c).drop_first() =~= Seq::<Component>::empty());
        assert(sweep_state(cs, st) == st);
        assert(sweep_conds(cs.push(c), st) == cond_entries(c, st) + sweep_conds(
            cs.push(c).drop_first(),
            comp_step_state(c, st),
        ));
        assert(sweep_conds(cs.push(c).drop_first(), comp_step_state(c, st))
            =~= Seq::<(Seq<char>, Condition)>::empty());
        assert(sweep_conds(cs, st) =~= Seq::<(Seq<char>, Condition)>::empty());
        assert(sweep_conds(cs.push(c), st) =~= sweep_conds(cs, st) + cond_entries(
            c,
            sweep_state(cs, st),
        ));
    } else {
        assert(cs.push(c)[0] == cs[0]);
        assert(cs.push(c).drop_first() =~= cs.drop_first().push(c));
        lemma_sweep_conds_snoc(cs.drop_first(), c, comp_step_state(cs[0], st));
        assert(sweep_conds(cs.push(c), st) == cond_entries(cs[0], st) + sweep_conds(
            cs.drop_first().push(c),
            comp_step_state(cs[0], st),
        ));
        assert(sweep_conds(cs, st) == cond_entries(cs[0], st) + sweep_conds(
            cs.drop_first(),
            comp_step_state(cs[0], st),
        ));
        assert(sweep_state(cs, st) == sweep_state(cs.drop_first(), comp_step_state(cs[0], st)));
        assert(sweep_conds(cs.push(c), st) =~= sweep_conds(cs, st) + cond_entries(
            c,
            sweep_state(cs, st),
        ));
    }
}

/// Unrolling output seeding from the back.
proof fn lemma_seed_outputs_snoc(id: Seq<char>, names: Seq<Seq<char>>, n: Seq<char>, st: StateModel)
    ensures
        seed_outputs(id, names.push(n), st) == upsert(
            seed_outputs(id, names, st),
            id,
            n,
            SignalValue::Uninitialized,
        ),
    decreases names.len(),
{
    if names.len() == 0 {
        assert(names.push(n)[0] == n);
        assert(names.push(n).drop_first() =~= Seq::<Seq<char>>::empty());
        assert(seed_outputs(id, names, st) == st);
        assert(seed_outputs(id, names.push(n), st) == seed_outputs(
            id,
            names.push(n).drop_first(),
            upsert(st, id, n, SignalValue::Uninitialized),
        ));
        assert(seed_outputs(
            id,
            names.push(n).drop_first(),
            upsert(st, id, n, SignalValue::Uninitialized),
        ) == upsert(st, id, n, SignalValue::Uninitialized));
    } else {
        assert(names.push(n)[0] == names[0]);
        assert(names.push(n).drop_first() =~= names.drop_first().push(n));
        lemma_seed_outputs_snoc(
            id,
            names.drop_first(),
            n,
            upsert(st, id, names[0], SignalValue::Uninitialized),
        );
        assert(seed_outputs(id, names.push(n), st) == seed_outputs(
            id,
            names.drop_first().push(n),
            upsert(st, id, names[0], SignalValue::Uninitialized),
        ));
        assert(seed_outputs(id, names, st) == seed_outputs(
            id,
            names.drop_first(),
            upsert(st, id, names[0], SignalValue::Uninitialized),
        ));
    }
}

/// Unrolling state initialization from the back.
proof fn lemma_init_state_snoc(cs: Seq<Component>, c: Component, st: StateModel)
    ensures
        init_state(cs.push(c), st) == seed_outputs(
            comp_id(c),
            comp_outputs(c),
            init_state(cs, st),
        ),
    decreases cs.len(),
{
    if cs.len() == 0 {
        assert(cs.push(c)[0] == c);
        assert(cs.push(c).drop_first() =~= Seq::<Component>::empty());
        assert(init_state(cs, st) == st);
        assert(init_state(cs.push(c), st) == init_state(
            cs.push(c).drop_first(),
            seed_outputs(comp_id(c), comp_outputs(c), st),
        ));
        assert(init_state(
            cs.push(c).drop_first(),
            seed_outputs(comp_id(c), comp_outputs(c), st),
        ) == seed_outputs(comp_id(c), comp_outputs(c), st));
    } else {
        assert(cs.push(c)[0] == cs[0]);
        assert(cs.push(c).drop_first() =~= cs.drop_first().push(c));
        lemma_init_state_snoc(
            cs.drop_first(),
            c,
            seed_outputs(comp_id(cs[0]), comp_outputs(cs[0]), st),
        );
        assert(init_state(cs.push(c), st) == init_state(
            cs.drop_first().push(c),
            seed_outputs(comp_id(cs[0]), comp_outputs(cs[0]), st),
        ));
        assert(init_state(cs, st) == init_state(
            cs.drop_first(),
            seed_outputs(comp_id(cs[0]), comp_outputs(cs[0]), st),
        ));
    }
}

/// The evaluation engine: the netlist, the current value of every
/// named output, and the monotonic clock counter (the number of
/// evaluation passes completed).
#[derive(Debug)]
pub struct Simulator {
    components: Vec<Component>,
    state: SimState,
    cycle: usize,
}

impl Simulator {
    /// The ordered netlist.
    pub closed spec fn components_seq(&self) -> Seq<Component> {
        self.components@
    }

    /// The current signal state.
    pub closed spec fn state_model(&self) -> StateModel {
        self.state@
    }

    /// The number of evaluation passes completed.
    pub closed spec fn spec_cycle(&self) -> usize {
        self.cycle
    }

    /// Builds the engine from a netlist: seeds every declared
    /// output with `Uninitialized`, runs one evaluation pass to
    /// settle combinational values, and sets the clock counter to 1.
    /// Conditions raised while settling are discarded, exactly as on
    /// a regular tick whose collected conditions the caller ignores.
    pub fn new(cs: ComponentStore) -> (r: Simulator)
        ensures
            r.spec_cycle() == 1,
            sweep_rel(
                cs.store@,
                init_state(cs.store@, Seq::<crate::state::SigEntry>::empty()),
                r.components_seq(),
                r.state_model(),
            ),
    {
        let mut sim = Simulator { components: cs.store, state: SimState::new(), cycle: 0 };
        let ghost cs0 = sim.components@;
        let n = sim.components.len();
        let mut i: usize = 0;
        while i < n
            invariant
                i <= n,
                n == sim.components.len(),
                sim.components@ == cs0,
                sim.state@ == init_state(
                    cs0.take(i as int),
                    Seq::<crate::state::SigEntry>::empty(),
                ),
            decreases n - i,
        {
            let (cid, ports) = sim.components[i].get_id_ports();
            let ghost outs = comp_outputs(cs0[i as int]);
            let ghost st_i = sim.state@;
            let m = ports.outputs.len();
            let mut k: usize = 0;
            while k < m
                invariant
                    k <= m,
                    m == ports.outputs.len(),
                    cid@ == comp_id(cs0[i as int]),
                    outs == comp_outputs(cs0[i as int]),
                    ports.outputs@.map_values(|s: Id| s@) == outs,
                    i < n,
                    n == sim.components.len(),
                    sim.components@ == cs0,
                    sim.state@ == seed_outputs(cid@, outs.take(k as int), st_i),
                decreases m - k,
            {
                let name = &ports.outputs[k];
                proof {
                    assert(name@ == outs[k as int]);
                }
                sim.state.set_out(&cid, name, SignalValue::Uninitialized);
                proof {
                    lemma_seed_outputs_snoc(cid@, outs.take(k as int), outs[k as int], st_i);
                    assert(outs.take(k as int + 1) =~= outs.take(k as int).push(outs[k as int]));
                }
                k += 1;
            }
            proof {
                assert(outs.take(m as int) =~= outs);
                lemma_init_state_snoc(
                    cs0.take(i as int),
                    cs0[i as int],
                    Seq::<crate::state::SigEntry>::empty(),
                );
                assert(cs0.take(i as int + 1) =~= cs0.take(i as int).push(cs0[i as int]));
            }
            i += 1;
        }
        proof {
            assert(cs0.take(n as int) =~= cs0);
        }
        let _settle = sim.sweep();
        sim.cycle = 1;
        sim
    }

    /// One full evaluation sweep in store order; collects the
    /// conditions the components surfaced.
    fn sweep(&mut self) -> (conds: Vec<(Id, Condition)>)
        ensures
            final(self).cycle == old(self).cycle,
            sweep_rel(
                old(self).components@,
                old(self).state@,
                final(self).components@,
                final(self).state@,
            ),
            conds_model(conds@) == sweep_conds(old(self).components@, old(self).state@),
    {
        let ghost cs0 = self.components@;
        let ghost st0 = self.state@;
        let mut conds: Vec<(Id, Condition)> = Vec::new();
        proof {
            assert(conds_model(conds@) =~= sweep_conds(cs0.take(0), st0));
            assert(cs0.take(0) =~= Seq::<Component>::empty());
        }
        let n = self.components.len();
        let mut i: usize = 0;
        while i < n
            invariant
                i <= n,
                n == cs0.len(),
                self.components@.len() == cs0.len(),
                cs0 == old(self).components@,
                st0 == old(self).state@,
                self.cycle == old(self).cycle,
                forall|j: int| i <= j < n ==> self.components@[j] == cs0[j],
                forall|j: int|
                    0 <= j < i ==> comp_step_ok(
                        cs0[j],
                        sweep_state(cs0.take(j), st0),
                        #[trigger] self.components@[j],
                    ),
                self.state@ == sweep_state(cs0.take(i as int), st0),
                conds_model(conds@) == sweep_conds(cs0.take(i as int), st0),
            decreases n - i,
        {
            let cid = self.components[i].id_string();
            let ghost st_i = self.state@;
            let ghost pre = self.components@[i as int];
            let c = &mut self.components[i];
            let r = c.clock(&mut self.state);
            match r {
                Ok(_) => {
                    proof {
                        assert(cond_entries(pre, st_i) =~= Seq::<(Seq<char>, Condition)>::empty());
                    }
                },
                Err(e) => {
                    let ghost before = conds@;
                    conds.push((cid, e));
                    proof {
                        assert(cond_entries(pre, st_i) =~= seq![(comp_id(pre), e)]);
                        assert(conds_model(conds@) =~= conds_model(before).push((cid@, e)));
                    }
                },
            }
            proof {
                assert(cs0.take(i as int + 1) =~= cs0.take(i as int).push(cs0[i as int]));
                lemma_sweep_state_snoc(cs0.take(i as int), cs0[i as int], st0);
                lemma_sweep_conds_snoc(cs0.take(i as int), cs0[i as int], st0);
                assert(conds_model(conds@) =~= sweep_conds(cs0.take(i as int + 1), st0));
            }
            i += 1;
        }
        proof {
            assert(cs0.take(n as int) =~= cs0);
        }
        conds
    }

    /// One tick: runs every component once, in store order, then
    /// increments the clock counter.  The conditions surfaced by
    /// components are collected and returned, never acted on by the
    /// engine itself; the sweep always runs to completion.
    pub fn clock(&mut self) -> (conds: Vec<(Id, Condition)>)
        requires
            old(self).spec_cycle() < usize::MAX,
        ensures
            final(self).spec_cycle() == old(self).spec_cycle() + 1,
            sweep_rel(
                old(self).components_seq(),
                old(self).state_model(),
                final(self).components_seq(),
                final(self).state_model(),
            ),
            conds_model(conds@) == sweep_conds(
                old(self).components_seq(),
                old(self).state_model(),
            ),
    {
        let conds = self.sweep();
        self.cycle = self.cycle + 1;
        conds
    }

    /// The number of evaluation passes completed so far.
    pub fn cycle(&self) -> (r: usize)
        ensures
            r == self.spec_cycle(),
    {
        self.cycle
    }

    /// Whether a wire reference resolves against the current state;
    /// lets callers test a reference before reading through it.
    pub fn has_value(&self, input: &Input) -> (r: bool)
        ensures
            r == resolves(self.state_model(), input.id@, input.field@),
    {
        match self.state.get_input(input) {
            Some(_) => true,
            None => false,
        }
    }

    /// Resolves a wire reference against the current state.  The
    /// reference must resolve: an unresolvable reference indicates a
    /// malformed graph and is excluded by contract.
    pub fn get_input_value(&self, input: &Input) -> (r: SignalValue)
        requires
            resolves(self.state_model(), input.id@, input.field@),
        ensures
            Some(r) == lookup(self.state_model(), input.id@, input.field@),
    {
        match self.state.get_input(input) {
            Some(v) => v,
            None => SignalValue::Uninitialized,
        }
    }

    /// Overwrites the state entry for `(id, field)`; lets external
    /// tooling poke named signals between ticks.
    pub fn set_out_value(&mut self, id: &str, field: &str, value: SignalValue)
        ensures
            final(self).state_model() == upsert(old(self).state_model(), id@, field@, value),
            final(self).components_seq() == old(self).components_seq(),
            final(self).spec_cycle() == old(self).spec_cycle(),
    {
        let id_s: String = id.to_owned();
        let field_s: String = field.to_owned();
        self.state.set_out(&id_s, &field_s, value);
    }
}

} // verus!
