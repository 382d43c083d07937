use vstd::prelude::*;
use crate::errors::BuildError;
use crate::media::{PortCap, PortCapModel, caps_compatible, check_caps_compatible};
use crate::stage::{
    PropValue, PropValueModel, StageKindModel, StageProp, StagePropModel, StageRegistry,
    StageSpec, StageSpecModel, kind_accepts, prop_accepted, props_accepted,
};

verus! {

/// A handle to a stage instance owned by a `StageGraph`.
#[derive(Clone, Copy, Debug, PartialEq, Eq, Structural)]
pub struct StageHandle {
    pub id: usize,
}

/// A directed edge from one stage's output port to another stage's input
/// port, both named by their position in the graph.
#[derive(Clone, Copy, Debug, PartialEq, Eq, Structural)]
pub struct Link {
    pub upstream: usize,
    pub downstream: usize,
}

/// A stage instantiated in a graph: the kind it was resolved to, its unique
/// instance-name, its ports and their current capabilities, and the
/// properties applied so far.
#[derive(Debug)]
pub struct StageInstance {
    pub kind_index: usize,
    pub instance_name: String,
    pub has_input: bool,
    pub has_output: bool,
    pub input_cap: PortCap,
    pub output_cap: PortCap,
    pub props: Vec<StageProp>,
}

/// Mathematical model of a `StageInstance`.
pub struct StageInstanceModel {
    pub kind_index: int,
    pub instance_name: Seq<char>,
    pub has_input: bool,
    pub has_output: bool,
    pub input_cap: PortCapModel,
    pub output_cap: PortCapModel,
    pub props: Seq<StagePropModel>,
}

impl View for StageInstance {
    type V = StageInstanceModel;

    open spec fn view(&self) -> StageInstanceModel {
        StageInstanceModel {
            kind_index: self.kind_index as int,
            instance_name: self.instance_name@,
            has_input: self.has_input,
            has_output: self.has_output,
            input_cap: self.input_cap@,
            output_cap: self.output_cap@,
            props: self.props@.map_values(|p: StageProp| p@),
        }
    }
}

/// An ordered chain of stage instances plus the directed links between them.
/// The graph owns its stages; callers hold `StageHandle`s into it.
#[derive(Debug)]
pub struct StageGraph {
    pub registry: StageRegistry,
    pub stages: Vec<StageInstance>,
    pub links: Vec<Link>,
}

/// Mathematical model of a `StageGraph`.
pub struct GraphModel {
    pub kinds: Seq<StageKindModel>,
    pub stages: Seq<StageInstanceModel>,
    pub links: Seq<Link>,
}

impl View for StageGraph {
    type V = GraphModel;

    open spec fn view(&self) -> GraphModel {
        GraphModel {
            kinds: self.registry@.kinds,
            stages: self.stages@.map_values(|s: StageInstance| s@),
            links: self.links@,
        }
    }
}

/// Whether some kind in the graph's registry carries this kind-name.
pub open spec fn g_kind_known(g: GraphModel, name: Seq<char>) -> bool {
    exists|i: int| 0 <= i < g.kinds.len() && g.kinds[i].kind_name == name
}

/// Whether `ki` is the first registry position whose kind carries this name.
pub open spec fn first_kind_match(g: GraphModel, name: Seq<char>, ki: int) -> bool {
    &&& 0 <= ki < g.kinds.len()
    &&& g.kinds[ki].kind_name == name
    &&& forall|j: int| 0 <= j < ki ==> g.kinds[j].kind_name != name
}

/// Whether some stage in the graph carries this instance-name.
pub open spec fn name_taken(g: GraphModel, name: Seq<char>) -> bool {
    exists|i: int| 0 <= i < g.stages.len() && g.stages[i].instance_name == name
}

/// Whether stage `i` has an outgoing link.
pub open spec fn has_out_link(g: GraphModel, i: int) -> bool {
    exists|k: int| 0 <= k < g.links.len() && g.links[k].upstream == i
}

/// Whether stage `i` has an incoming link.
pub open spec fn has_in_link(g: GraphModel, i: int) -> bool {
    exists|k: int| 0 <= k < g.links.len() && g.links[k].downstream == i
}

/// Whether the graph holds an edge from stage `u` to stage `d`.
pub open spec fn linked(g: GraphModel, u: int, d: int) -> bool {
    exists|k: int|
        0 <= k < g.links.len() && g.links[k].upstream == u && g.links[k].downstream == d
}

/// Well-formedness of a graph: instance-names are unique, every link joins
/// an existing output port to an existing input port, and no port carries
/// more than one link.
pub open spec fn graph_wf(g: GraphModel) -> bool {
    &&& forall|i: int, j: int|
        0 <= i < j < g.stages.len() ==> g.stages[i].instance_name != g.stages[j].instance_name
    &&& forall|i: int|
        0 <= i < g.stages.len() ==> 0 <= #[trigger] g.stages[i].kind_index < g.kinds.len()
    &&& forall|k: int|
        0 <= k < g.links.len() ==> g.links[k].upstream < g.stages.len()
            && g.links[k].downstream < g.stages.len()
    &&& forall|k: int|
        0 <= k < g.links.len() ==> g.stages[g.links[k].upstream as int].has_output
            && g.stages[g.links[k].downstream as int].has_input
    &&& forall|k: int, l: int|
        0 <= k < l < g.links.len() ==> g.links[k].upstream != g.links[l].upstream
            && g.links[k].downstream != g.links[l].downstream
}

/// Folds property assignments over a port capability: each capability-typed
/// value reconfigures a present port to that fixed format.
pub open spec fn cap_after(base: PortCapModel, present: bool, ps: Seq<StagePropModel>) -> PortCapModel
    decreases ps.len(),
{
    if ps.len() == 0 {
        base
    } else {
        let prev = cap_after(base, present, ps.drop_last());
        match ps.last().value {
            PropValueModel::Caps(f) => if present {
                PortCapModel::Fixed(f)
            } else {
                prev
            },
            _ => prev,
        }
    }
}

/// The stage instance that resolving `sp` against kind `k` (at registry
/// position `ki`) produces.
pub open spec fn instance_from(k: StageKindModel, ki: int, sp: StageSpecModel) -> StageInstanceModel {
    StageInstanceModel {
        kind_index: ki,
        instance_name: sp.instance_name,
        has_input: k.has_input,
        has_output: k.has_output,
        input_cap: cap_after(k.input_cap, k.has_input, sp.props),
        output_cap: cap_after(k.output_cap, k.has_output, sp.props),
        props: sp.props,
    }
}

/// The stage instance after one more property assignment.
pub open spec fn configured_instance(s: StageInstanceModel, p: StagePropModel) -> StageInstanceModel {
    StageInstanceModel {
        kind_index: s.kind_index,
        instance_name: s.instance_name,
        has_input: s.has_input,
        has_output: s.has_output,
        input_cap: match p.value {
            PropValueModel::Caps(f) => if s.has_input {
                PortCapModel::Fixed(f)
            } else {
                s.input_cap
            },
            _ => s.input_cap,
        },
        output_cap: match p.value {
            PropValueModel::Caps(f) => if s.has_output {
                PortCapModel::Fixed(f)
            } else {
                s.output_cap
            },
            _ => s.output_cap,
        },
        props: s.props.push(p),
    }
}

/// Whether stage `u` offers an output port and stage `d` an input port.
pub open spec fn ports_present(g: GraphModel, u: int, d: int) -> bool {
    g.stages[u].has_output && g.stages[d].has_input
}

/// Whether `u`'s output port and `d`'s input port are both still free.
pub open spec fn ports_free(g: GraphModel, u: int, d: int) -> bool {
    !has_out_link(g, u) && !has_in_link(g, d)
}

/// Whether `u`'s output capability and `d`'s input capability negotiate.
pub open spec fn link_caps_ok(g: GraphModel, u: int, d: int) -> bool {
    caps_compatible(g.stages[u].output_cap, g.stages[d].input_cap)
}

/// What `link(u, d)` decides on a graph in this state: `None` means the edge
/// is established.
pub open spec fn link_decision(g: GraphModel, u: int, d: int) -> Option<BuildError> {
    if !ports_present(g, u, d) {
        Some(BuildError::IncompatibleFormats)
    } else if !ports_free(g, u, d) {
        Some(BuildError::AlreadyLinked)
    } else if !link_caps_ok(g, u, d) {
        Some(BuildError::IncompatibleFormats)
    } else {
        None
    }
}

/// The graph with one more edge.
pub open spec fn with_link(g: GraphModel, u: usize, d: usize) -> GraphModel {
    GraphModel { kinds: g.kinds, stages: g.stages, links: g.links.push(Link { upstream: u, downstream: d }) }
}

/// No two stages of a well-formed graph ever share an instance-name: the
/// uniqueness that `add` enforces by failing with `DuplicateName`.
pub proof fn lemma_instance_names_unique(g: GraphModel, i: int, j: int)
    requires
        graph_wf(g),
        0 <= i < g.stages.len(),
        0 <= j < g.stages.len(),
        i != j,
    ensures
        g.stages[i].instance_name != g.stages[j].instance_name,
{
}

/// Outcome of linking a chain: the graph left behind and the first failure,
/// if any.
pub struct ChainOutcome {
    pub model: GraphModel,
    pub failure: Option<BuildError>,
}

/// The number of adjacent pairs in an ordered sequence of handles.
pub open spec fn chain_pairs(hs: Seq<StageHandle>) -> int {
    if hs.len() == 0 {
        0
    } else {
        hs.len() - 1
    }
}

/// The graph and outcome after linking the first `k` adjacent pairs of the
/// ordered handles in order, stopping at the first failure and rolling
/// nothing back.
pub open spec fn chain_outcome(g: GraphModel, hs: Seq<StageHandle>, k: int) -> ChainOutcome
    decreases k,
{
    if k <= 0 {
        ChainOutcome { model: g, failure: None }
    } else {
        let prev = chain_outcome(g, hs, k - 1);
        if prev.failure is Some {
            prev
        } else {
            match link_decision(prev.model, hs[k - 1].id as int, hs[k].id as int) {
                Some(e) => ChainOutcome { model: prev.model, failure: Some(e) },
                None => ChainOutcome {
                    model: with_link(prev.model, hs[k - 1].id, hs[k].id),
                    failure: None,
                },
            }
        }
    }
}

/// Once a chain attempt has failed, later steps change nothing.
pub proof fn lemma_chain_failure_stable(g: GraphModel, hs: Seq<StageHandle>, k: int, l: int)
    requires
        0 <= k <= l,
        chain_outcome(g, hs, k).failure is Some,
    ensures
        chain_outcome(g, hs, l) == chain_outcome(g, hs, k),
    decreases l - k,
{
    if l > k {
        lemma_chain_failure_stable(g, hs, k, l - 1);
    }
}

impl StageGraph {
    /// An empty graph over the given factory registry.
    pub fn new(registry: StageRegistry) -> (r: StageGraph)
        ensures
            r@.kinds == registry@.kinds,
            r@.stages == Seq::<StageInstanceModel>::empty(),
            r@.links == Seq::<Link>::empty(),
            graph_wf(r@),
    {
        let r = StageGraph { registry, stages: Vec::new(), links: Vec::new() };
        proof {
            assert(r@.stages =~= Seq::<StageInstanceModel>::empty());
            assert(r@.links =~= Seq::<Link>::empty());
        }
        r
    }

    /// The number of stages in the graph.
    pub fn stage_count(&self) -> (n: usize)
        ensures
            n == self@.stages.len(),
    {
        self.stages.len()
    }

    /// Whether some stage already carries this instance-name.
    #[verifier::loop_isolation(false)]
    pub fn contains_instance(&self, name: &String) -> (r: bool)
        ensures
            r == name_taken(self@, name@),
    {
        let n = self.stages.len();
        let mut i: usize = 0;
        while i < n
            invariant
                n == self.stages.len(),
                i <= n,
                forall|j: int| 0 <= j < i ==> self@.stages[j].instance_name != name@,
            decreases n - i,
        {
            if self.stages[i].instance_name == *name {
                proof {
                    assert(self@.stages[i as int].instance_name == name@);
                }
                return true;
            }
            i += 1;
        }
        false
    }

    /// Instantiates a stage from its spec via the factory registry.
    ///
    /// Fails closed with `UnknownStageKind` when no registered kind carries
    /// the spec's kind-name; with `DuplicateName` when another stage already
    /// carries the instance-name; and with `InvalidProperty` when the kind
    /// rejects one of the spec's property assignments.  On failure the graph
    /// is unchanged.
    #[verifier::loop_isolation(false)]
    pub fn add(&mut self, sp: &StageSpec) -> (r: Result<StageHandle, BuildError>)
        requires
            graph_wf(old(self)@),
        ensures
            graph_wf(final(self)@),
            final(self)@.kinds == old(self)@.kinds,
            final(self)@.links == old(self)@.links,
            r is Err ==> final(self)@ == old(self)@,
            (r == Err::<StageHandle, BuildError>(BuildError::UnknownStageKind)) <==> !g_kind_known(
                old(self)@,
                sp@.kind_name,
            ),
            (r == Err::<StageHandle, BuildError>(BuildError::DuplicateName)) <==> (g_kind_known(
                old(self)@,
                sp@.kind_name,
            ) && name_taken(old(self)@, sp@.instance_name)),
            r matches Ok(h) ==> h.id == old(self)@.stages.len(),
            forall|ki: int|
                first_kind_match(old(self)@, sp@.kind_name, ki) ==> {
                    &&& (r is Ok <==> !name_taken(old(self)@, sp@.instance_name) && props_accepted(
                        old(self)@.kinds[ki],
                        sp@.props,
                    ))
                    &&& (r is Ok ==> final(self)@.stages == old(self)@.stages.push(
                        instance_from(old(self)@.kinds[ki], ki, sp@),
                    ))
                },
    {
        let ki = match self.registry.find(&sp.kind_name) {
            Some(ki) => ki,
            None => {
                return Err(BuildError::UnknownStageKind);
            },
        };
        if self.contains_instance(&sp.instance_name) {
            return Err(BuildError::DuplicateName);
        }
        let kind = &self.registry.kinds[ki];
        let np = sp.props.len();
        let mut pi: usize = 0;
        while pi < np
            invariant
                np == sp.props.len(),
                pi <= np,
                ki < self.registry.kinds.len(),
                kind == &self.registry.kinds[ki as int],
                forall|j: int| 0 <= j < pi ==> prop_accepted(kind@, sp@.props[j]),
            decreases np - pi,
        {
            if !kind_accepts(kind, &sp.props[pi].name, &sp.props[pi].value) {
                proof {
                    assert(sp@.props[pi as int] == sp.props@[pi as int]@);
                    assert(!prop_accepted(kind@, sp@.props[pi as int]));
                    assert(!props_accepted(kind@, sp@.props));
                    assert(first_kind_match(self@, sp@.kind_name, ki as int));
                }
                return Err(BuildError::InvalidProperty);
            }
            proof {
                assert(sp@.props[pi as int] == sp.props[pi as int]@);
            }
            pi += 1;
        }
        let mut input_cap = kind.input_cap.duplicate();
        let mut output_cap = kind.output_cap.duplicate();
        let has_input = kind.has_input;
        let has_output = kind.has_output;
        let mut props: Vec<StageProp> = Vec::new();
        let mut pi: usize = 0;
        while pi < np
            invariant
                np == sp.props.len(),
                pi <= np,
                ki < self.registry.kinds.len(),
                kind == &self.registry.kinds[ki as int],
                has_input == kind@.has_input,
                has_output == kind@.has_output,
                props@.map_values(|p: StageProp| p@) =~= sp@.props.take(pi as int),
                input_cap@ == cap_after(kind@.input_cap, has_input, sp@.props.take(pi as int)),
                output_cap@ == cap_after(kind@.output_cap, has_output, sp@.props.take(pi as int)),
            decreases np - pi,
        {
            let p = sp.props[pi].duplicate();
            proof {
                assert(p@ == sp@.props[pi as int]);
                assert(sp@.props.take(pi as int + 1).drop_last() =~= sp@.props.take(pi as int));
                assert(sp@.props.take(pi as int + 1).last() == sp@.props[pi as int]);
            }
            match &p.value {
                PropValue::Caps(f) => {
                    if has_input {
                        input_cap = PortCap::Fixed(f.duplicate());
                    }
                    if has_output {
                        output_cap = PortCap::Fixed(f.duplicate());
                    }
                },
                _ => {},
            }
            props.push(p);
            pi += 1;
        }
        let inst = StageInstance {
            kind_index: ki,
            instance_name: sp.instance_name.clone(),
            has_input,
            has_output,
            input_cap,
            output_cap,
            props,
        };
        let id = self.stages.len();
        proof {
            assert(sp@.props.take(np as int) =~= sp@.props);
            assert(inst@ == instance_from(self.registry@.kinds[ki as int], ki as int, sp@));
        }
        let ghost before = self@;
        self.stages.push(inst);
        proof {
            assert(self@.stages =~= before.stages.push(
                instance_from(before.kinds[ki as int], ki as int, sp@),
            ));
            assert(first_kind_match(before, sp@.kind_name, ki as int));
            assert forall|i: int, j: int|
                0 <= i < j < self@.stages.len() implies self@.stages[i].instance_name
                != self@.stages[j].instance_name by {
                if j < before.stages.len() {
                    assert(before.stages[i].instance_name != before.stages[j].instance_name);
                } else {
                    assert(!name_taken(before, sp@.instance_name));
                    assert(before.stages[i].instance_name != sp@.instance_name);
                }
            }
        }
        Ok(StageHandle { id })
    }

    /// Applies one property to an instantiated stage.
    ///
    /// Fails with `InvalidProperty` when the stage's kind does not recognize
    /// the property name or the value's type differs from the declared type;
    /// the graph is then unchanged.  A capability-typed value reconfigures
    /// the stage's present ports to that fixed format.
    pub fn configure(&mut self, h: StageHandle, name: &String, value: PropValue) -> (r: Result<
        (),
        BuildError,
    >)
        requires
            graph_wf(old(self)@),
            h.id < old(self)@.stages.len(),
        ensures
            graph_wf(final(self)@),
            final(self)@.kinds == old(self)@.kinds,
            final(self)@.links == old(self)@.links,
            r is Ok <==> prop_accepted(
                old(self)@.kinds[old(self)@.stages[h.id as int].kind_index],
                StagePropModel { name: name@, value: value@ },
            ),
            r is Err ==> final(self)@ == old(self)@ && r == Err::<(), BuildError>(
                BuildError::InvalidProperty,
            ),
            r is Ok ==> final(self)@.stages == old(self)@.stages.update(
                h.id as int,
                configured_instance(
                    old(self)@.stages[h.id as int],
                    StagePropModel { name: name@, value: value@ },
                ),
            ),
    {
        let kind_index = self.stages[h.id].kind_index;
        let accepted = kind_accepts(&self.registry.kinds[kind_index], name, &value);
        if !accepted {
            return Err(BuildError::InvalidProperty);
        }
        let ghost before = self@;
        let st = &mut self.stages[h.id];
        match &value {
            PropValue::Caps(f) => {
                if st.has_input {
                    st.input_cap = PortCap::Fixed(f.duplicate());
                }
                if st.has_output {
                    st.output_cap = PortCap::Fixed(f.duplicate());
                }
            },
            _ => {},
        }
        st.props.push(StageProp { name: name.clone(), value });
        proof {
            let p = StagePropModel { name: name@, value: value@ };
            assert(self@.stages[h.id as int].props =~= before.stages[h.id as int].props.push(p));
            assert(self@.stages[h.id as int] == configured_instance(
                before.stages[h.id as int],
                p,
            ));
            assert(self@.stages =~= before.stages.update(
                h.id as int,
                configured_instance(before.stages[h.id as int], p),
            ));
        }
        Ok(())
    }

    /// Establishes a directed edge from `up`'s output port to `down`'s input
    /// port.
    ///
    /// Fails with `AlreadyLinked` when either port is already connected, and
    /// with `IncompatibleFormats` when a port is missing or the two
    /// capabilities have no common negotiated format.  On failure no edge is
    /// added and the graph is exactly as before the call.
    pub fn link(&mut self, up: StageHandle, down: StageHandle) -> (r: Result<(), BuildError>)
        requires
            graph_wf(old(self)@),
            up.id < old(self)@.stages.len(),
            down.id < old(self)@.stages.len(),
        ensures
            graph_wf(final(self)@),
            final(self)@.kinds == old(self)@.kinds,
            final(self)@.stages == old(self)@.stages,
            match r {
                Ok(_) => link_decision(old(self)@, up.id as int, down.id as int) is None
                    && final(self)@ == with_link(old(self)@, up.id, down.id),
                Err(e) => link_decision(old(self)@, up.id as int, down.id as int) == Some(e)
                    && final(self)@ == old(self)@,
            },
    {
        let upstream = &self.stages[up.id];
        let downstream = &self.stages[down.id];
        if !(upstream.has_output && downstream.has_input) {
            return Err(BuildError::IncompatibleFormats);
        }
        if self.port_in_use(up.id, down.id) {
            return Err(BuildError::AlreadyLinked);
        }
        if !check_caps_compatible(&self.stages[up.id].output_cap, &self.stages[down.id].input_cap) {
            return Err(BuildError::IncompatibleFormats);
        }
        let ghost before = self@;
        self.links.push(Link { upstream: up.id, downstream: down.id });
        proof {
            assert(self@.links =~= before.links.push(
                Link { upstream: up.id, downstream: down.id },
            ));
            assert(self@ == with_link(before, up.id, down.id));
        }
        Ok(())
    }

    /// Links each adjacent pair of the ordered handles in order, stopping at
    /// the first failure.
    ///
    /// Partial linkage is left visible: links established before a failing
    /// pair stay in the graph, and the caller is responsible for cleaning
    /// them up.
    #[verifier::loop_isolation(false)]
    pub fn link_chain(&mut self, handles: &Vec<StageHandle>) -> (r: Result<(), BuildError>)
        requires
            graph_wf(old(self)@),
            forall|i: int|
                0 <= i < handles@.len() ==> #[trigger] handles@[i].id < old(self)@.stages.len(),
        ensures
            graph_wf(final(self)@),
            final(self)@ == chain_outcome(old(self)@, handles@, chain_pairs(handles@)).model,
            final(self)@.stages == old(self)@.stages,
            final(self)@.kinds == old(self)@.kinds,
            match r {
                Ok(_) => chain_outcome(old(self)@, handles@, chain_pairs(handles@)).failure
                    is None,
                Err(e) => chain_outcome(old(self)@, handles@, chain_pairs(handles@)).failure
                    == Some(e),
            },
    {
        let n = handles.len();
        if n == 0 {
            return Ok(());
        }
        let mut i: usize = 1;
        while i < n
            invariant
                1 <= i <= n,
                self@ == chain_outcome(old(self)@, handles@, i - 1).model,
                chain_outcome(old(self)@, handles@, i - 1).failure is None,
                self@.stages == old(self)@.stages,
                self@.kinds == old(self)@.kinds,
                graph_wf(self@),
            decreases n - i,
        {
            let ghost pre = self@;
            match self.link(handles[i - 1], handles[i]) {
                Ok(_) => {
                    proof {
                        assert(chain_outcome(old(self)@, handles@, i as int).model == self@);
                    }
                },
                Err(e) => {
                    proof {
                        assert(chain_outcome(old(self)@, handles@, i as int).failure == Some(e));
                        lemma_chain_failure_stable(
                            old(self)@,
                            handles@,
                            i as int,
                            chain_pairs(handles@),
                        );
                    }
                    return Err(e);
                },
            }
            i += 1;
        }
        Ok(())
    }

    /// Whether `u`'s output port or `d`'s input port already carries a link.
    #[verifier::loop_isolation(false)]
    fn port_in_use(&self, u: usize, d: usize) -> (r: bool)
        ensures
            r == !ports_free(self@, u as int, d as int),
    {
        let n = self.links.len();
        let mut k: usize = 0;
        while k < n
            invariant
                n == self.links.len(),
                k <= n,
                forall|j: int|
                    0 <= j < k ==> self@.links[j].upstream != u && self@.links[j].downstream != d,
            decreases n - k,
        {
            if self.links[k].upstream == u || self.links[k].downstream == d {
                proof {
                    assert(self@.links[k as int].upstream == u || self@.links[k as int].downstream
                        == d);
                }
                return true;
            }
            k += 1;
        }
        false
    }
}

} // verus!
