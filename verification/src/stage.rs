use vstd::prelude::*;
use crate::media::{MediaFormat, MediaFormatModel, PortCap, PortCapModel};

verus! {

/// The declared type of a configuration property.
#[derive(Clone, Copy, Debug, PartialEq, Eq, Structural)]
pub enum PropType {
    TextType,
    UintType,
    FlagType,
    CapsType,
}

/// A typed configuration value.
#[derive(Clone, Debug)]
pub enum PropValue {
    Text(String),
    Uint(u64),
    Flag(bool),
    Caps(MediaFormat),
}

/// Mathematical model of a `PropValue`.
pub enum PropValueModel {
    Text(Seq<char>),
    Uint(u64),
    Flag(bool),
    Caps(MediaFormatModel),
}

impl View for PropValue {
    type V = PropValueModel;

    open spec fn view(&self) -> PropValueModel {
        match self {
            PropValue::Text(s) => PropValueModel::Text(s@),
            PropValue::Uint(n) => PropValueModel::Uint(*n),
            PropValue::Flag(b) => PropValueModel::Flag(*b),
            PropValue::Caps(f) => PropValueModel::Caps(f@),
        }
    }
}

/// The type tag of a configuration value.
pub open spec fn prop_type_of(v: PropValueModel) -> PropType {
    match v {
        PropValueModel::Text(_) => PropType::TextType,
        PropValueModel::Uint(_) => PropType::UintType,
        PropValueModel::Flag(_) => PropType::FlagType,
        PropValueModel::Caps(_) => PropType::CapsType,
    }
}

impl PropValue {
    /// The type tag of this value.
    pub fn prop_type(&self) -> (t: PropType)
        ensures
            t == prop_type_of(self@),
    {
        match self {
            PropValue::Text(_) => PropType::TextType,
            PropValue::Uint(_) => PropType::UintType,
            PropValue::Flag(_) => PropType::FlagType,
            PropValue::Caps(_) => PropType::CapsType,
        }
    }
}

impl PropValue {
    /// A copy of this value, equal under the model.
    pub fn duplicate(&self) -> (r: PropValue)
        ensures
            r@ == self@,
    {
        match self {
            PropValue::Text(s) => PropValue::Text(s.clone()),
            PropValue::Uint(n) => PropValue::Uint(*n),
            PropValue::Flag(b) => PropValue::Flag(*b),
            PropValue::Caps(f) => PropValue::Caps(f.duplicate()),
        }
    }
}

/// A property a stage kind declares: a name and the type it accepts.
#[derive(Clone, Debug)]
pub struct PropDecl {
    pub name: String,
    pub ty: PropType,
}

/// Mathematical model of a `PropDecl`.
pub struct PropDeclModel {
    pub name: Seq<char>,
    pub ty: PropType,
}

impl View for PropDecl {
    type V = PropDeclModel;

    open spec fn view(&self) -> PropDeclModel {
        PropDeclModel { name: self.name@, ty: self.ty }
    }
}

/// An externally implemented stage kind as the factory registry describes it:
/// its kind-name, which ports it offers, the capability of each port, and the
/// properties it recognizes.
#[derive(Clone, Debug)]
pub struct StageKind {
    pub kind_name: String,
    pub has_input: bool,
    pub has_output: bool,
    pub input_cap: PortCap,
    pub output_cap: PortCap,
    pub props: Vec<PropDecl>,
}

/// Mathematical model of a `StageKind`.
pub struct StageKindModel {
    pub kind_name: Seq<char>,
    pub has_input: bool,
    pub has_output: bool,
    pub input_cap: PortCapModel,
    pub output_cap: PortCapModel,
    pub props: Seq<PropDeclModel>,
}

impl View for StageKind {
    type V = StageKindModel;

    open spec fn view(&self) -> StageKindModel {
        StageKindModel {
            kind_name: self.kind_name@,
            has_input: self.has_input,
            has_output: self.has_output,
            input_cap: self.input_cap@,
            output_cap: self.output_cap@,
            props: self.props@.map_values(|d: PropDecl| d@),
        }
    }
}

/// One property assignment carried by a `StageSpec`.
#[derive(Clone, Debug)]
pub struct StageProp {
    pub name: String,
    pub value: PropValue,
}

/// Mathematical model of a `StageProp`.
pub struct StagePropModel {
    pub name: Seq<char>,
    pub value: PropValueModel,
}

impl View for StageProp {
    type V = StagePropModel;

    open spec fn view(&self) -> StagePropModel {
        StagePropModel { name: self.name@, value: self.value@ }
    }
}

impl StageProp {
    /// A copy of this assignment, equal under the model.
    pub fn duplicate(&self) -> (r: StageProp)
        ensures
            r@ == self@,
    {
        StageProp { name: self.name.clone(), value: self.value.duplicate() }
    }
}

/// An immutable description of a stage to instantiate: the kind to resolve
/// against the factory registry, the unique instance-name, and the initial
/// property assignments.
#[derive(Clone, Debug)]
pub struct StageSpec {
    pub kind_name: String,
    pub instance_name: String,
    pub props: Vec<StageProp>,
}

/// Mathematical model of a `StageSpec`.
pub struct StageSpecModel {
    pub kind_name: Seq<char>,
    pub instance_name: Seq<char>,
    pub props: Seq<StagePropModel>,
}

impl View for StageSpec {
    type V = StageSpecModel;

    open spec fn view(&self) -> StageSpecModel {
        StageSpecModel {
            kind_name: self.kind_name@,
            instance_name: self.instance_name@,
            props: self.props@.map_values(|p: StageProp| p@),
        }
    }
}

impl StageSpec {
    /// A spec for a stage with no initial property assignments.
    pub fn new(kind_name: &str, instance_name: &str) -> (r: StageSpec)
        ensures
            r@ == (StageSpecModel {
                kind_name: kind_name@,
                instance_name: instance_name@,
                props: Seq::<StagePropModel>::empty(),
            }),
    {
        let r = StageSpec {
            kind_name: kind_name.to_owned(),
            instance_name: instance_name.to_owned(),
            props: Vec::new(),
        };
        proof {
            assert(r@.props =~= Seq::<StagePropModel>::empty());
        }
        r
    }

    /// The same spec with one more property assignment.
    pub fn with_prop(self, name: &str, value: PropValue) -> (r: StageSpec)
        ensures
            r@.kind_name == self@.kind_name,
            r@.instance_name == self@.instance_name,
            r@.props == self@.props.push(StagePropModel { name: name@, value: value@ }),
    {
        let mut s = self;
        s.props.push(StageProp { name: name.to_owned(), value });
        proof {
            assert(s@.props =~= self@.props.push(StagePropModel { name: name@, value: value@ }));
        }
        s
    }
}

/// The factory capability: the set of stage kinds that external
/// implementations register, looked up by kind-name.
#[derive(Clone, Debug)]
pub struct StageRegistry {
    pub kinds: Vec<StageKind>,
}

/// Mathematical model of a `StageRegistry`.
pub struct StageRegistryModel {
    pub kinds: Seq<StageKindModel>,
}

impl View for StageRegistry {
    type V = StageRegistryModel;

    open spec fn view(&self) -> StageRegistryModel {
        StageRegistryModel { kinds: self.kinds@.map_values(|k: StageKind| k@) }
    }
}

/// Whether some registered kind carries this kind-name.
pub open spec fn kind_known(reg: StageRegistryModel, name: Seq<char>) -> bool {
    exists|i: int| 0 <= i < reg.kinds.len() && reg.kinds[i].kind_name == name
}

/// Whether the kind declares a property of this name accepting this type.
pub open spec fn kind_declares(k: StageKindModel, name: Seq<char>, t: PropType) -> bool {
    exists|i: int| 0 <= i < k.props.len() && k.props[i].name == name && k.props[i].ty == t
}

/// Whether the kind accepts this property assignment.
pub open spec fn prop_accepted(k: StageKindModel, p: StagePropModel) -> bool {
    kind_declares(k, p.name, prop_type_of(p.value))
}

/// Whether the kind accepts every assignment in the sequence.
pub open spec fn props_accepted(k: StageKindModel, ps: Seq<StagePropModel>) -> bool {
    forall|i: int| 0 <= i < ps.len() ==> prop_accepted(k, ps[i])
}

impl StageRegistry {
    /// An empty registry: construction fails closed until kinds register.
    pub fn new() -> (r: StageRegistry)
        ensures
            r@.kinds == Seq::<StageKindModel>::empty(),
    {
        let r = StageRegistry { kinds: Vec::new() };
        proof {
            assert(r@.kinds =~= Seq::<StageKindModel>::empty());
        }
        r
    }

    /// Registers one more kind.
    pub fn register(&mut self, kind: StageKind)
        ensures
            final(self)@.kinds == old(self)@.kinds.push(kind@),
    {
        let ghost before = self@.kinds;
        let ghost k = kind@;
        self.kinds.push(kind);
        proof {
            assert(self@.kinds =~= before.push(k));
        }
    }

    /// Resolves a kind-name, returning the index of the first registered kind
    /// with that name, and `None` exactly when the name is unknown.
    pub fn find(&self, name: &String) -> (r: Option<usize>)
        ensures
            match r {
                Some(i) => i < self.kinds.len() && self@.kinds[i as int].kind_name == name@
                    && forall|j: int| 0 <= j < i ==> self@.kinds[j].kind_name != name@,
                None => !kind_known(self@, name@),
            },
    {
        let n = self.kinds.len();
        let mut i: usize = 0;
        while i < n
            invariant
                n == self.kinds.len(),
                i <= n,
                forall|j: int| 0 <= j < i ==> self@.kinds[j].kind_name != name@,
            decreases n - i,
        {
            if self.kinds[i].kind_name == *name {
                return Some(i);
            }
            i += 1;
        }
        None
    }
}

/// Decides whether the kind accepts a property of this name carrying this
/// value.
pub fn kind_accepts(kind: &StageKind, name: &String, value: &PropValue) -> (r: bool)
    ensures
        r == prop_accepted(kind@, StagePropModel { name: name@, value: value@ }),
{
    let t = value.prop_type();
    let n = kind.props.len();
    let mut i: usize = 0;
    while i < n
        invariant
            n == kind.props.len(),
            i <= n,
            t == prop_type_of(value@),
            forall|j: int|
                0 <= j < i ==> !(kind@.props[j].name == name@ && kind@.props[j].ty == t),
        decreases n - i,
    {
        if kind.props[i].name == *name && kind.props[i].ty == t {
            proof {
                assert(kind@.props[i as int].name == name@ && kind@.props[i as int].ty == t);
            }
            return true;
        }
        i += 1;
    }
    false
}

} // verus!
