//! Machine-learning operators: their kinds, identities and parameters, and
//! the messages that describe them.

use vstd::prelude::*;
use crate::proto;
use crate::proto::{LiteralTypeView, LiteralView};
use crate::text::{owned, str_eq, strings_view};
use crate::dataframe::{DataFrame, strings_of};
use crate::types::Float64;
use crate::plan::{LogicalPlan, plan_rel};
use crate::relation::{RelType, RelTypeView, rel_type_view};
use std::rc::Rc;
use crate::catalog::ConnectError;
use crate::expression::copy_strings;
use crate::plan_ids::{PlanIdCounter, assign_rel, count_rel};
use crate::relation::Relation;

verus! {

/// The kind of an ML operator.
#[derive(Debug, Clone, Copy, PartialEq, Eq, Structural)]
pub enum OperatorType {
    Estimator,
    Transformer,
    Evaluator,
    Model,
}

/// The wire code of each operator kind.
pub open spec fn operator_type_code(t: OperatorType) -> i32 {
    match t {
        OperatorType::Estimator => 1,
        OperatorType::Transformer => 2,
        OperatorType::Evaluator => 3,
        OperatorType::Model => 4,
    }
}

/// ML operators go on the wire with the protocol's codes: estimator 1,
/// transformer 2, evaluator 3, model 4.
pub proof fn law_operator_type_wire_codes()
    ensures
        operator_type_code(OperatorType::Estimator) == 1,
        operator_type_code(OperatorType::Transformer) == 2,
        operator_type_code(OperatorType::Evaluator) == 3,
        operator_type_code(OperatorType::Model) == 4,
{
}

/// The operator kind of a wire code; an unknown code is a transformer.
pub open spec fn operator_type_of(code: i32) -> OperatorType {
    if code == 1 {
        OperatorType::Estimator
    } else if code == 3 {
        OperatorType::Evaluator
    } else if code == 4 {
        OperatorType::Model
    } else {
        OperatorType::Transformer
    }
}

/// Every operator kind survives a trip through its wire code.
pub proof fn law_operator_type_round_trip(t: OperatorType)
    ensures
        operator_type_of(operator_type_code(t)) == t,
{
}

impl OperatorType {
    /// The wire code of this kind.
    pub fn to_proto(&self) -> (code: i32)
        ensures
            code == operator_type_code(*self),
    {
        match self {
            OperatorType::Estimator => 1,
            OperatorType::Transformer => 2,
            OperatorType::Evaluator => 3,
            OperatorType::Model => 4,
        }
    }

    /// The kind of a wire code; an unknown code gives `Transformer`.
    pub fn from_proto(code: i32) -> (t: OperatorType)
        ensures
            t == operator_type_of(code),
    {
        if code == 1 {
            OperatorType::Estimator
        } else if code == 3 {
            OperatorType::Evaluator
        } else if code == 4 {
            OperatorType::Model
        } else {
            OperatorType::Transformer
        }
    }
}

/// `c` is a lower-case hexadecimal digit.
pub open spec fn is_lower_hex(c: char) -> bool {
    ('0' <= c && c <= '9') || ('a' <= c && c <= 'f')
}

/// `s` has the hyphenated lower-case form of a UUID:
/// `xxxxxxxx-xxxx-xxxx-xxxx-xxxxxxxxxxxx`.
pub open spec fn is_uuid_text(s: Seq<char>) -> bool {
    &&& s.len() == 36
    &&& forall|i: int| 0 <= i < 36 ==> if i == 8 || i == 13 || i == 18 || i == 23 {
        s[i] == '-'
    } else {
        is_lower_hex(#[trigger] s[i])
    }
}

/// `uuid::Uuid::new_v4().to_string()`: a fresh random UUID in its hyphenated
/// lower-case text form, of version 4 (`4` opens the third group) and of
/// the RFC 4122 variant (`8`, `9`, `a` or `b` opens the fourth). Which UUID
/// comes out is left unsaid: it is random.
#[verifier::external_body]
fn new_uuid_text() -> (s: String)
    ensures
        is_uuid_text(s@),
        s@[14] == '4',
        s@[19] == '8' || s@[19] == '9' || s@[19] == 'a' || s@[19] == 'b',
{
    uuid::Uuid::new_v4().to_string()
}

/// `spark.connect.MlOperator`.
#[derive(Debug)]
pub struct MlOperatorMsg {
    pub name: String,
    pub uid: String,
    pub operator_type: i32,
}

/// The view of an operator message: name, id and kind code.
pub open spec fn ml_operator_msg_view(m: MlOperatorMsg) -> (Seq<char>, Seq<char>, i32) {
    (m.name@, m.uid@, m.operator_type)
}

/// An ML operator: its class name, its instance id and its kind.
#[derive(Debug)]
pub struct MlOperator {
    pub name: String,
    pub uid: String,
    pub op_type: OperatorType,
}

impl MlOperator {
    /// An operator of class `name` with a fresh random UUID as its id.
    pub fn new(name: &str, op_type: OperatorType) -> (op: MlOperator)
        ensures
            op.name@ == name@,
            is_uuid_text(op.uid@),
            op.op_type == op_type,
    {
        MlOperator { name: owned(name), uid: new_uuid_text(), op_type }
    }

    /// An operator of class `name` with the id `uid`.
    pub fn with_uid(name: &str, uid: &str, op_type: OperatorType) -> (op: MlOperator)
        ensures
            op.name@ == name@,
            op.uid@ == uid@,
            op.op_type == op_type,
    {
        MlOperator { name: owned(name), uid: owned(uid), op_type }
    }

    /// The message of this operator.
    pub fn to_proto(&self) -> (m: MlOperatorMsg)
        ensures
            m.name@ == self.name@,
            m.uid@ == self.uid@,
            m.operator_type == operator_type_code(self.op_type),
    {
        MlOperatorMsg { name: self.name.clone(), uid: self.uid.clone(), operator_type: self.op_type.to_proto() }
    }

    /// The operator a message describes; an unknown kind is a transformer.
    pub fn from_proto(m: &MlOperatorMsg) -> (op: MlOperator)
        ensures
            op.name@ == m.name@,
            op.uid@ == m.uid@,
            op.op_type == operator_type_of(m.operator_type),
    {
        MlOperator { name: m.name.clone(), uid: m.uid.clone(), op_type: OperatorType::from_proto(m.operator_type) }
    }

    /// A copy of this operator.
    pub fn copy(&self) -> (r: MlOperator)
        ensures
            same_operator(r, *self),
    {
        MlOperator { name: self.name.clone(), uid: self.uid.clone(), op_type: self.op_type }
    }
}

/// Two operators with the same class name, id and kind.
pub open spec fn same_operator(a: MlOperator, b: MlOperator) -> bool {
    a.name@ == b.name@ && a.uid@ == b.uid@ && a.op_type == b.op_type
}

/// `new` is what `old` becomes before it is used as an operator of kind
/// `kind`: one without an id is replaced by an operator of the same class
/// and of kind `kind` with a fresh id; any other stays as it is.
pub open spec fn operator_ensured(old: MlOperator, new: MlOperator, kind: OperatorType) -> bool {
    if old.uid@.len() == 0 {
        new.name@ == old.name@ && is_uuid_text(new.uid@) && new.op_type == kind
    } else {
        new == old
    }
}

/// Gives `op` an id if it has none (see `operator_ensured`).
pub fn ensure_operator(op: &mut MlOperator, kind: OperatorType)
    ensures
        operator_ensured(*old(op), *final(op), kind),
{
    if op.uid.as_str().unicode_len() == 0 {
        let fresh = MlOperator::new(op.name.as_str(), kind);
        *op = fresh;
    }
}

/// The value of an ML parameter.
#[derive(Debug)]
pub enum ParamValue {
    Int(i64),
    Double(Float64),
    Text(String),
    Bool(bool),
    /// A literal as a message carried it.
    Literal(proto::Literal),
}

/// The literal a parameter value is sent as.
pub open spec fn param_literal(v: ParamValue) -> LiteralView {
    match v {
        ParamValue::Int(i) => LiteralView { literal_type: Some(LiteralTypeView::Long(i)) },
        ParamValue::Double(f) => LiteralView { literal_type: Some(LiteralTypeView::Double(f@)) },
        ParamValue::Text(s) => LiteralView { literal_type: Some(LiteralTypeView::String(s@)) },
        ParamValue::Bool(b) => LiteralView { literal_type: Some(LiteralTypeView::Boolean(b)) },
        ParamValue::Literal(l) => l@,
    }
}

impl ParamValue {
    /// The literal of this value (see `param_literal`).
    pub fn to_literal(&self) -> (l: proto::Literal)
        ensures
            l@ == param_literal(*self),
    {
        match self {
            ParamValue::Int(i) => proto::Literal { literal_type: Some(proto::LiteralType::Long(*i)) },
            ParamValue::Double(f) => proto::Literal { literal_type: Some(proto::LiteralType::Double(f.copy())) },
            ParamValue::Text(s) => proto::Literal { literal_type: Some(proto::LiteralType::String(s.clone())) },
            ParamValue::Bool(b) => proto::Literal { literal_type: Some(proto::LiteralType::Boolean(*b)) },
            ParamValue::Literal(l) => proto::copy_literal(l),
        }
    }

    /// A copy of this value: it is sent as the same literal.
    pub fn copy(&self) -> (r: ParamValue)
        ensures
            param_literal(r) == param_literal(*self),
    {
        match self {
            ParamValue::Int(i) => ParamValue::Int(*i),
            ParamValue::Double(f) => ParamValue::Double(f.copy()),
            ParamValue::Text(s) => ParamValue::Text(s.clone()),
            ParamValue::Bool(b) => ParamValue::Bool(*b),
            ParamValue::Literal(l) => ParamValue::Literal(proto::copy_literal(l)),
        }
    }
}

/// The parameters after setting `name` to `lit`: an existing parameter
/// keeps its place, a new one goes last.
pub open spec fn put_param(es: Seq<(Seq<char>, LiteralView)>, name: Seq<char>, lit: LiteralView) -> Seq<(Seq<char>, LiteralView)> {
    if exists|i: int| 0 <= i < es.len() && es[i].0 == name {
        es.update(choose|i: int| 0 <= i < es.len() && es[i].0 == name, (name, lit))
    } else {
        es.push((name, lit))
    }
}

/// The string literal `s`.
pub open spec fn string_lit(s: Seq<char>) -> LiteralView {
    LiteralView { literal_type: Some(LiteralTypeView::String(s)) }
}

/// The 64-bit integer literal `v`.
pub open spec fn long_lit(v: i64) -> LiteralView {
    LiteralView { literal_type: Some(LiteralTypeView::Long(v)) }
}

/// The `Debug` text of a list of strings (`["a", "b"]`, each string quoted
/// and escaped).
pub uninterp spec fn strings_debug(s: Seq<Seq<char>>) -> Seq<char>;

/// `format!("{:?}", v)` on a list of strings.
#[verifier::external_body]
fn strings_debug_text(v: &Vec<String>) -> (r: String)
    ensures
        r@ == strings_debug(strings_view(v@)),
{
    format!("{:?}", v)
}

/// The parameters a message's list gives: each name set in turn, a later
/// entry of a name replacing an earlier one in its place.
pub open spec fn params_from(s: Seq<(Seq<char>, LiteralView)>) -> Seq<(Seq<char>, LiteralView)>
    decreases s.len(),
{
    if s.len() == 0 {
        Seq::empty()
    } else {
        put_param(params_from(s.drop_last()), s.last().0, s.last().1)
    }
}

/// The names of `s` are pairwise distinct.
pub open spec fn param_names_distinct(s: Seq<(Seq<char>, LiteralView)>) -> bool {
    forall|i: int, j: int| 0 <= i < j < s.len() ==> #[trigger] s[i].0 != #[trigger] s[j].0
}

/// Parameters survive a trip through their message: reading back a list of
/// distinctly named parameters gives the same parameters in the same order.
pub proof fn law_params_round_trip(s: Seq<(Seq<char>, LiteralView)>)
    requires
        param_names_distinct(s),
    ensures
        params_from(s) == s,
    decreases s.len(),
{
    if s.len() > 0 {
        let init = s.drop_last();
        assert(param_names_distinct(init));
        law_params_round_trip(init);
        assert(!(exists|i: int| 0 <= i < init.len() && init[i].0 == s.last().0)) by {
            if exists|i: int| 0 <= i < init.len() && init[i].0 == s.last().0 {
                let i = choose|i: int| 0 <= i < init.len() && init[i].0 == s.last().0;
                assert(s[i].0 != s[s.len() - 1].0);
            }
        }
        assert(init.push(s.last()) =~= s);
    }
}

/// ML parameters: values by name, each name once, in the order first set.
#[derive(Debug)]
pub struct Params {
    params: Vec<(String, ParamValue)>,
}

/// `spark.connect.MlParams`: the parameters as literals by name.
#[derive(Debug)]
pub struct MlParams {
    pub params: Vec<(String, proto::Literal)>,
}

/// The view of a parameters message: name and literal, in order.
pub open spec fn ml_params_view(m: MlParams) -> Seq<(Seq<char>, LiteralView)> {
    m.params@.map_values(|p: (String, proto::Literal)| (p.0@, p.1@))
}

impl Params {
    /// Each name occurs once.
    #[verifier::type_invariant]
    pub closed spec fn wf(&self) -> bool {
        forall|i: int, j: int| 0 <= i < j < self.params@.len() ==> #[trigger] self.params@[i].0@ != #[trigger] self.params@[j].0@
    }

    /// The parameters in order: name and literal.
    pub closed spec fn entries(&self) -> Seq<(Seq<char>, LiteralView)> {
        self.params@.map_values(|p: (String, ParamValue)| (p.0@, param_literal(p.1)))
    }

    /// No parameters.
    pub fn new() -> (p: Params)
        ensures
            p.entries().len() == 0,
    {
        let p = Params { params: Vec::new() };
        assert(p.entries() =~= Seq::<(Seq<char>, LiteralView)>::empty());
        p
    }

    fn position(&self, name: &str) -> (r: Option<usize>)
        ensures
            match r {
                Some(i) => i < self.entries().len() && self.entries()[i as int].0 == name@,
                None => forall|j: int| 0 <= j < self.entries().len() ==> self.entries()[j].0 != name@,
            },
    {
        let mut i: usize = 0;
        while i < self.params.len()
            invariant
                i <= self.params@.len(),
                forall|j: int| 0 <= j < i ==> self.params@[j].0@ != name@,
            decreases self.params@.len() - i,
        {
            if str_eq(self.params[i].0.as_str(), name) {
                return Some(i);
            }
            i = i + 1;
        }
        None
    }

    /// Sets `name` to `value`: an existing parameter keeps its place.
    pub fn set_param(self, name: &str, value: ParamValue) -> (p: Params)
        ensures
            p.entries() == put_param(self.entries(), name@, param_literal(value)),
    {
        proof {
            use_type_invariant(&self);
        }
        let ghost old_entries = self.entries();
        let ghost lit = param_literal(value);
        let found = self.position(name);
        let mut params = self.params;
        match found {
            Some(i) => {
                params.set(i, (owned(name), value));
                proof {
                    let k = choose|k: int| 0 <= k < old_entries.len() && old_entries[k].0 == name@;
                    if k != i {
                        assert(params@[k].0@ == name@);
                    }
                    assert(params@.map_values(|p: (String, ParamValue)| (p.0@, param_literal(p.1))) =~= old_entries.update(i as int, (name@, lit)));
                }
            },
            None => {
                params.push((owned(name), value));
                proof {
                    assert(params@.map_values(|p: (String, ParamValue)| (p.0@, param_literal(p.1))) =~= old_entries.push((name@, lit)));
                    assert forall|a: int, b: int| 0 <= a < b < params@.len() implies #[trigger] params@[a].0@ != #[trigger] params@[b].0@ by {
                        if b == params@.len() - 1 {
                            assert(old_entries[a].0 != name@);
                        }
                    }
                }
            },
        }
        Params { params }
    }

    /// Sets `name` to the integer `value`.
    pub fn set_param_int(self, name: &str, value: i64) -> (p: Params)
        ensures
            p.entries() == put_param(self.entries(), name@, long_lit(value)),
    {
        self.set_param(name, ParamValue::Int(value))
    }

    /// Sets `name` to the double `value`.
    pub fn set_param_double(self, name: &str, value: Float64) -> (p: Params)
        ensures
            p.entries() == put_param(self.entries(), name@, LiteralView { literal_type: Some(LiteralTypeView::Double(value@)) }),
    {
        let ghost v = value@;
        self.set_param(name, ParamValue::Double(value))
    }

    /// Sets `name` to the string `value`.
    pub fn set_param_string(self, name: &str, value: &str) -> (p: Params)
        ensures
            p.entries() == put_param(self.entries(), name@, string_lit(value@)),
    {
        self.set_param(name, ParamValue::Text(owned(value)))
    }

    /// Sets `name` to the boolean `value`.
    pub fn set_param_bool(self, name: &str, value: bool) -> (p: Params)
        ensures
            p.entries() == put_param(self.entries(), name@, param_literal(ParamValue::Bool(value))),
    {
        self.set_param(name, ParamValue::Bool(value))
    }

    /// The literal of parameter `name`, if it is set.
    pub fn get_param(&self, name: &str) -> (r: Option<proto::Literal>)
        ensures
            match r {
                Some(l) => exists|i: int| 0 <= i < self.entries().len() && self.entries()[i] == (name@, l@),
                None => forall|j: int| 0 <= j < self.entries().len() ==> self.entries()[j].0 != name@,
            },
    {
        match self.position(name) {
            Some(i) => {
                let l = self.params[i].1.to_literal();
                assert(self.entries()[i as int] == (name@, l@));
                Some(l)
            },
            None => None,
        }
    }

    /// A copy of these parameters.
    pub fn copy(&self) -> (r: Params)
        ensures
            r.entries() == self.entries(),
    {
        proof {
            use_type_invariant(self);
        }
        let mut out: Vec<(String, ParamValue)> = Vec::new();
        let mut i: usize = 0;
        while i < self.params.len()
            invariant
                i <= self.params@.len(),
                out@.len() == i,
                forall|a: int, b: int| 0 <= a < b < self.params@.len() ==> #[trigger] self.params@[a].0@ != #[trigger] self.params@[b].0@,
                forall|j: int| 0 <= j < i ==> (#[trigger] out@[j]).0@ == self.params@[j].0@
                    && param_literal(out@[j].1) == param_literal(self.params@[j].1),
            decreases self.params@.len() - i,
        {
            out.push((self.params[i].0.clone(), self.params[i].1.copy()));
            i = i + 1;
        }
        assert forall|a: int, b: int| 0 <= a < b < out@.len() implies #[trigger] out@[a].0@ != #[trigger] out@[b].0@ by {
            assert(self.params@[a].0@ != self.params@[b].0@);
        }
        let r = Params { params: out };
        assert(r.entries() =~= self.entries());
        r
    }

    /// The parameters message: every parameter's literal by name, in order.
    pub fn to_proto(&self) -> (m: MlParams)
        ensures
            m.params@.map_values(|p: (String, proto::Literal)| (p.0@, p.1@)) == self.entries(),
            param_names_distinct(self.entries()),
    {
        proof {
            use_type_invariant(self);
            assert forall|i: int, j: int| 0 <= i < j < self.entries().len() implies
                #[trigger] self.entries()[i].0 != #[trigger] self.entries()[j].0 by {
                assert(self.params@[i].0@ != self.params@[j].0@);
            }
        }
        let mut out: Vec<(String, proto::Literal)> = Vec::new();
        let mut i: usize = 0;
        while i < self.params.len()
            invariant
                i <= self.params@.len(),
                out@.len() == i,
                forall|j: int| 0 <= j < i ==> (#[trigger] out@[j]).0@ == self.params@[j].0@
                    && out@[j].1@ == param_literal(self.params@[j].1),
            decreases self.params@.len() - i,
        {
            out.push((self.params[i].0.clone(), self.params[i].1.to_literal()));
            i = i + 1;
        }
        assert(out@.map_values(|p: (String, proto::Literal)| (p.0@, p.1@)) =~= self.entries());
        MlParams { params: out }
    }

    /// The parameters of a message: each entry set in turn.
    pub fn from_proto(m: &MlParams) -> (p: Params)
        ensures
            p.entries() == params_from(m.params@.map_values(|e: (String, proto::Literal)| (e.0@, e.1@))),
    {
        let ghost msg = m.params@.map_values(|e: (String, proto::Literal)| (e.0@, e.1@));
        let mut p = Params::new();
        let mut i: usize = 0;
        while i < m.params.len()
            invariant
                i <= m.params@.len(),
                msg == m.params@.map_values(|e: (String, proto::Literal)| (e.0@, e.1@)),
                p.entries() == params_from(msg.take(i as int)),
            decreases m.params@.len() - i,
        {
            let lit = proto::copy_literal(&m.params[i].1);
            p = p.set_param(m.params[i].0.as_str(), ParamValue::Literal(lit));
            proof {
                assert(msg.take(i as int + 1).drop_last() =~= msg.take(i as int));
            }
            i = i + 1;
        }
        assert(msg.take(m.params@.len() as int) =~= msg);
        p
    }
}

/// Scales features to mean 0 and standard deviation 1.
#[derive(Debug)]
pub struct StandardScaler {
    pub operator: MlOperator,
    pub params: Params,
    pub input_col: String,
    pub output_col: String,
}

impl StandardScaler {
    /// A new instance with the default settings and a fresh id.
    pub fn new() -> (r: StandardScaler)
        ensures
            r.operator.name@ == "org.apache.spark.ml.feature.StandardScaler"@,
            is_uuid_text(r.operator.uid@),
            r.operator.op_type == OperatorType::Estimator,
            r.params.entries().len() == 0,
            r.input_col@ == "features"@,
            r.output_col@ == "scaled_features"@,
    {
        StandardScaler { operator: MlOperator::new("org.apache.spark.ml.feature.StandardScaler", OperatorType::Estimator), params: Params::new(), input_col: owned("features"), output_col: owned("scaled_features") }
    }

    /// Sets `input_col`, and the parameter `inputCol` to match.
    pub fn set_input_col(self, col: &str) -> (r: StandardScaler)
        ensures
            r.input_col@ == col@,
            r.params.entries() == put_param(self.params.entries(), "inputCol"@, string_lit(col@)),
            r.operator == self.operator,
            r.output_col == self.output_col,
    {
        let params = self.params.set_param_string("inputCol", col);
        StandardScaler { input_col: owned(col), params, ..self }
    }

    /// Sets `output_col`, and the parameter `outputCol` to match.
    pub fn set_output_col(self, col: &str) -> (r: StandardScaler)
        ensures
            r.output_col@ == col@,
            r.params.entries() == put_param(self.params.entries(), "outputCol"@, string_lit(col@)),
            r.operator == self.operator,
            r.input_col == self.input_col,
    {
        let params = self.params.set_param_string("outputCol", col);
        StandardScaler { output_col: owned(col), params, ..self }
    }

    /// The `input_col` setting.
    pub fn input_col(&self) -> (r: &str)
        ensures
            r@ == self.input_col@,
    {
        self.input_col.as_str()
    }

    /// The `output_col` setting.
    pub fn output_col(&self) -> (r: &str)
        ensures
            r@ == self.output_col@,
    {
        self.output_col.as_str()
    }

    /// The operator this instance is sent as.
    pub fn operator(&self) -> (r: &MlOperator)
        ensures
            r == self.operator,
    {
        &self.operator
    }

    /// The parameters set so far.
    pub fn params(&self) -> (r: &Params)
        ensures
            r == self.params,
    {
        &self.params
    }
}

/// Combines several columns into one vector column.
#[derive(Debug)]
pub struct VectorAssembler {
    pub operator: MlOperator,
    pub params: Params,
    pub input_cols: Vec<String>,
    pub output_col: String,
}

impl VectorAssembler {
    /// A new instance with the default settings and a fresh id.
    pub fn new() -> (r: VectorAssembler)
        ensures
            r.operator.name@ == "org.apache.spark.ml.feature.VectorAssembler"@,
            is_uuid_text(r.operator.uid@),
            r.operator.op_type == OperatorType::Transformer,
            r.params.entries().len() == 0,
            r.input_cols@.len() == 0,
            r.output_col@ == "assembled"@,
    {
        VectorAssembler { operator: MlOperator::new("org.apache.spark.ml.feature.VectorAssembler", OperatorType::Transformer), params: Params::new(), input_cols: Vec::new(), output_col: owned("assembled") }
    }

    /// Sets `input_cols`, and the parameter `inputCols` to match.
    pub fn set_input_cols(self, cols: Vec<&str>) -> (r: VectorAssembler)
        ensures
            strings_view(r.input_cols@) == cols@.map_values(|s: &str| s@),
            r.params.entries() == put_param(self.params.entries(), "inputCols"@, string_lit(strings_debug(strings_view(r.input_cols@)))),
            r.operator == self.operator,
            r.output_col == self.output_col,
    {
        let names = strings_of(&cols);
        let text = strings_debug_text(&names);
        let params = self.params.set_param_string("inputCols", text.as_str());
        VectorAssembler { input_cols: names, params, ..self }
    }

    /// Sets `output_col`, and the parameter `outputCol` to match.
    pub fn set_output_col(self, col: &str) -> (r: VectorAssembler)
        ensures
            r.output_col@ == col@,
            r.params.entries() == put_param(self.params.entries(), "outputCol"@, string_lit(col@)),
            r.operator == self.operator,
            r.input_cols == self.input_cols,
    {
        let params = self.params.set_param_string("outputCol", col);
        VectorAssembler { output_col: owned(col), params, ..self }
    }

    /// The `input_cols` setting.
    pub fn input_cols(&self) -> (r: &[String])
        ensures
            r@ == self.input_cols@,
    {
        self.input_cols.as_slice()
    }

    /// The `output_col` setting.
    pub fn output_col(&self) -> (r: &str)
        ensures
            r@ == self.output_col@,
    {
        self.output_col.as_str()
    }

    /// The operator this instance is sent as.
    pub fn operator(&self) -> (r: &MlOperator)
        ensures
            r == self.operator,
    {
        &self.operator
    }

    /// The parameters set so far.
    pub fn params(&self) -> (r: &Params)
        ensures
            r == self.params,
    {
        &self.params
    }
}

/// Maps a column of labels to a column of label indices.
#[derive(Debug)]
pub struct StringIndexer {
    pub operator: MlOperator,
    pub params: Params,
    pub input_col: String,
    pub output_col: String,
}

impl StringIndexer {
    /// A new instance with the default settings and a fresh id.
    pub fn new() -> (r: StringIndexer)
        ensures
            r.operator.name@ == "org.apache.spark.ml.feature.StringIndexer"@,
            is_uuid_text(r.operator.uid@),
            r.operator.op_type == OperatorType::Estimator,
            r.params.entries().len() == 0,
            r.input_col@.len() == 0,
            r.output_col@ == "indexed"@,
    {
        StringIndexer { operator: MlOperator::new("org.apache.spark.ml.feature.StringIndexer", OperatorType::Estimator), params: Params::new(), input_col: String::new(), output_col: owned("indexed") }
    }

    /// Sets `input_col`, and the parameter `inputCol` to match.
    pub fn set_input_col(self, col: &str) -> (r: StringIndexer)
        ensures
            r.input_col@ == col@,
            r.params.entries() == put_param(self.params.entries(), "inputCol"@, string_lit(col@)),
            r.operator == self.operator,
            r.output_col == self.output_col,
    {
        let params = self.params.set_param_string("inputCol", col);
        StringIndexer { input_col: owned(col), params, ..self }
    }

    /// Sets `output_col`, and the parameter `outputCol` to match.
    pub fn set_output_col(self, col: &str) -> (r: StringIndexer)
        ensures
            r.output_col@ == col@,
            r.params.entries() == put_param(self.params.entries(), "outputCol"@, string_lit(col@)),
            r.operator == self.operator,
            r.input_col == self.input_col,
    {
        let params = self.params.set_param_string("outputCol", col);
        StringIndexer { output_col: owned(col), params, ..self }
    }

    /// The `input_col` setting.
    pub fn input_col(&self) -> (r: &str)
        ensures
            r@ == self.input_col@,
    {
        self.input_col.as_str()
    }

    /// The `output_col` setting.
    pub fn output_col(&self) -> (r: &str)
        ensures
            r@ == self.output_col@,
    {
        self.output_col.as_str()
    }

    /// The operator this instance is sent as.
    pub fn operator(&self) -> (r: &MlOperator)
        ensures
            r == self.operator,
    {
        &self.operator
    }

    /// The parameters set so far.
    pub fn params(&self) -> (r: &Params)
        ensures
            r == self.params,
    {
        &self.params
    }
}

/// Scales each feature by its maximum absolute value.
#[derive(Debug)]
pub struct MaxAbsScaler {
    pub operator: MlOperator,
    pub params: Params,
    pub input_col: String,
    pub output_col: String,
}

impl MaxAbsScaler {
    /// A new instance with the default settings and a fresh id.
    pub fn new() -> (r: MaxAbsScaler)
        ensures
            r.operator.name@ == "org.apache.spark.ml.feature.MaxAbsScaler"@,
            is_uuid_text(r.operator.uid@),
            r.operator.op_type == OperatorType::Estimator,
            r.params.entries().len() == 0,
            r.input_col@ == "features"@,
            r.output_col@ == "maxAbs_scaled"@,
    {
        MaxAbsScaler { operator: MlOperator::new("org.apache.spark.ml.feature.MaxAbsScaler", OperatorType::Estimator), params: Params::new(), input_col: owned("features"), output_col: owned("maxAbs_scaled") }
    }

    /// Sets `input_col`, and the parameter `inputCol` to match.
    pub fn set_input_col(self, col: &str) -> (r: MaxAbsScaler)
        ensures
            r.input_col@ == col@,
            r.params.entries() == put_param(self.params.entries(), "inputCol"@, string_lit(col@)),
            r.operator == self.operator,
            r.output_col == self.output_col,
    {
        let params = self.params.set_param_string("inputCol", col);
        MaxAbsScaler { input_col: owned(col), params, ..self }
    }

    /// Sets `output_col`, and the parameter `outputCol` to match.
    pub fn set_output_col(self, col: &str) -> (r: MaxAbsScaler)
        ensures
            r.output_col@ == col@,
            r.params.entries() == put_param(self.params.entries(), "outputCol"@, string_lit(col@)),
            r.operator == self.operator,
            r.input_col == self.input_col,
    {
        let params = self.params.set_param_string("outputCol", col);
        MaxAbsScaler { output_col: owned(col), params, ..self }
    }

    /// The `input_col` setting.
    pub fn input_col(&self) -> (r: &str)
        ensures
            r@ == self.input_col@,
    {
        self.input_col.as_str()
    }

    /// The `output_col` setting.
    pub fn output_col(&self) -> (r: &str)
        ensures
            r@ == self.output_col@,
    {
        self.output_col.as_str()
    }

    /// The operator this instance is sent as.
    pub fn operator(&self) -> (r: &MlOperator)
        ensures
            r == self.operator,
    {
        &self.operator
    }

    /// The parameters set so far.
    pub fn params(&self) -> (r: &Params)
        ensures
            r == self.params,
    {
        &self.params
    }
}

/// Logistic regression.
#[derive(Debug)]
pub struct LogisticRegression {
    pub operator: MlOperator,
    pub params: Params,
    pub feature_col: String,
    pub label_col: String,
    pub prediction_col: String,
    pub max_iter: i64,
}

impl LogisticRegression {
    /// A new instance with the default settings and a fresh id.
    pub fn new() -> (r: LogisticRegression)
        ensures
            r.operator.name@ == "org.apache.spark.ml.classification.LogisticRegression"@,
            is_uuid_text(r.operator.uid@),
            r.operator.op_type == OperatorType::Estimator,
            r.params.entries().len() == 0,
            r.feature_col@ == "features"@,
            r.label_col@ == "label"@,
            r.prediction_col@ == "prediction"@,
            r.max_iter == 100,
    {
        LogisticRegression { operator: MlOperator::new("org.apache.spark.ml.classification.LogisticRegression", OperatorType::Estimator), params: Params::new(), feature_col: owned("features"), label_col: owned("label"), prediction_col: owned("prediction"), max_iter: 100 }
    }

    /// Sets `feature_col`, and the parameter `featuresCol` to match.
    pub fn set_feature_col(self, col: &str) -> (r: LogisticRegression)
        ensures
            r.feature_col@ == col@,
            r.params.entries() == put_param(self.params.entries(), "featuresCol"@, string_lit(col@)),
            r.operator == self.operator,
            r.label_col == self.label_col,
            r.prediction_col == self.prediction_col,
            r.max_iter == self.max_iter,
    {
        let params = self.params.set_param_string("featuresCol", col);
        LogisticRegression { feature_col: owned(col), params, ..self }
    }

    /// Sets `label_col`, and the parameter `labelCol` to match.
    pub fn set_label_col(self, col: &str) -> (r: LogisticRegression)
        ensures
            r.label_col@ == col@,
            r.params.entries() == put_param(self.params.entries(), "labelCol"@, string_lit(col@)),
            r.operator == self.operator,
            r.feature_col == self.feature_col,
            r.prediction_col == self.prediction_col,
            r.max_iter == self.max_iter,
    {
        let params = self.params.set_param_string("labelCol", col);
        LogisticRegression { label_col: owned(col), params, ..self }
    }

    /// Sets `prediction_col`, and the parameter `predictionCol` to match.
    pub fn set_prediction_col(self, col: &str) -> (r: LogisticRegression)
        ensures
            r.prediction_col@ == col@,
            r.params.entries() == put_param(self.params.entries(), "predictionCol"@, string_lit(col@)),
            r.operator == self.operator,
            r.feature_col == self.feature_col,
            r.label_col == self.label_col,
            r.max_iter == self.max_iter,
    {
        let params = self.params.set_param_string("predictionCol", col);
        LogisticRegression { prediction_col: owned(col), params, ..self }
    }

    /// Sets `max_iter`, and the parameter `maxIter` to match.
    pub fn set_max_iter(self, max_iter: i64) -> (r: LogisticRegression)
        ensures
            r.max_iter == max_iter,
            r.params.entries() == put_param(self.params.entries(), "maxIter"@, long_lit(max_iter)),
            r.operator == self.operator,
            r.feature_col == self.feature_col,
            r.label_col == self.label_col,
            r.prediction_col == self.prediction_col,
    {
        let params = self.params.set_param_int("maxIter", max_iter);
        LogisticRegression { max_iter: max_iter, params, ..self }
    }

    /// The `feature_col` setting.
    pub fn feature_col(&self) -> (r: &str)
        ensures
            r@ == self.feature_col@,
    {
        self.feature_col.as_str()
    }

    /// The `label_col` setting.
    pub fn label_col(&self) -> (r: &str)
        ensures
            r@ == self.label_col@,
    {
        self.label_col.as_str()
    }

    /// The `prediction_col` setting.
    pub fn prediction_col(&self) -> (r: &str)
        ensures
            r@ == self.prediction_col@,
    {
        self.prediction_col.as_str()
    }

    /// The `max_iter` setting.
    pub fn max_iter(&self) -> (r: i64)
        ensures
            r == self.max_iter,
    {
        self.max_iter
    }

    /// The operator this instance is sent as.
    pub fn operator(&self) -> (r: &MlOperator)
        ensures
            r == self.operator,
    {
        &self.operator
    }

    /// The parameters set so far.
    pub fn params(&self) -> (r: &Params)
        ensures
            r == self.params,
    {
        &self.params
    }
}

/// Evaluates a regression by a metric (`rmse` unless set).
#[derive(Debug)]
pub struct RegressionEvaluator {
    pub operator: MlOperator,
    pub params: Params,
    pub label_col: String,
    pub prediction_col: String,
    pub metric_name: String,
}

impl RegressionEvaluator {
    /// A new instance with the default settings and a fresh id.
    pub fn new() -> (r: RegressionEvaluator)
        ensures
            r.operator.name@ == "org.apache.spark.ml.evaluation.RegressionEvaluator"@,
            is_uuid_text(r.operator.uid@),
            r.operator.op_type == OperatorType::Evaluator,
            r.params.entries().len() == 0,
            r.label_col@ == "label"@,
            r.prediction_col@ == "prediction"@,
            r.metric_name@ == "rmse"@,
    {
        RegressionEvaluator { operator: MlOperator::new("org.apache.spark.ml.evaluation.RegressionEvaluator", OperatorType::Evaluator), params: Params::new(), label_col: owned("label"), prediction_col: owned("prediction"), metric_name: owned("rmse") }
    }

    /// Sets `label_col`, and the parameter `labelCol` to match.
    pub fn set_label_col(self, col: &str) -> (r: RegressionEvaluator)
        ensures
            r.label_col@ == col@,
            r.params.entries() == put_param(self.params.entries(), "labelCol"@, string_lit(col@)),
            r.operator == self.operator,
            r.prediction_col == self.prediction_col,
            r.metric_name == self.metric_name,
    {
        let params = self.params.set_param_string("labelCol", col);
        RegressionEvaluator { label_col: owned(col), params, ..self }
    }

    /// Sets `prediction_col`, and the parameter `predictionCol` to match.
    pub fn set_prediction_col(self, col: &str) -> (r: RegressionEvaluator)
        ensures
            r.prediction_col@ == col@,
            r.params.entries() == put_param(self.params.entries(), "predictionCol"@, string_lit(col@)),
            r.operator == self.operator,
            r.label_col == self.label_col,
            r.metric_name == self.metric_name,
    {
        let params = self.params.set_param_string("predictionCol", col);
        RegressionEvaluator { prediction_col: owned(col), params, ..self }
    }

    /// Sets `metric_name`, and the parameter `metricName` to match.
    pub fn set_metric_name(self, metric: &str) -> (r: RegressionEvaluator)
        ensures
            r.metric_name@ == metric@,
            r.params.entries() == put_param(self.params.entries(), "metricName"@, string_lit(metric@)),
            r.operator == self.operator,
            r.label_col == self.label_col,
            r.prediction_col == self.prediction_col,
    {
        let params = self.params.set_param_string("metricName", metric);
        RegressionEvaluator { metric_name: owned(metric), params, ..self }
    }

    /// The `label_col` setting.
    pub fn label_col(&self) -> (r: &str)
        ensures
            r@ == self.label_col@,
    {
        self.label_col.as_str()
    }

    /// The `prediction_col` setting.
    pub fn prediction_col(&self) -> (r: &str)
        ensures
            r@ == self.prediction_col@,
    {
        self.prediction_col.as_str()
    }

    /// The `metric_name` setting.
    pub fn metric_name(&self) -> (r: &str)
        ensures
            r@ == self.metric_name@,
    {
        self.metric_name.as_str()
    }

    /// The operator this instance is sent as.
    pub fn operator(&self) -> (r: &MlOperator)
        ensures
            r == self.operator,
    {
        &self.operator
    }

    /// The parameters set so far.
    pub fn params(&self) -> (r: &Params)
        ensures
            r == self.params,
    {
        &self.params
    }
}

/// Evaluates a binary classifier by a metric (`areaUnderROC` unless set).
#[derive(Debug)]
pub struct BinaryClassificationEvaluator {
    pub operator: MlOperator,
    pub params: Params,
    pub label_col: String,
    pub score_col: String,
    pub metric_name: String,
}

impl BinaryClassificationEvaluator {
    /// A new instance with the default settings and a fresh id.
    pub fn new() -> (r: BinaryClassificationEvaluator)
        ensures
            r.operator.name@ == "org.apache.spark.ml.evaluation.BinaryClassificationEvaluator"@,
            is_uuid_text(r.operator.uid@),
            r.operator.op_type == OperatorType::Evaluator,
            r.params.entries().len() == 0,
            r.label_col@ == "label"@,
            r.score_col@ == "prediction"@,
            r.metric_name@ == "areaUnderROC"@,
    {
        BinaryClassificationEvaluator { operator: MlOperator::new("org.apache.spark.ml.evaluation.BinaryClassificationEvaluator", OperatorType::Evaluator), params: Params::new(), label_col: owned("label"), score_col: owned("prediction"), metric_name: owned("areaUnderROC") }
    }

    /// Sets `label_col`, and the parameter `labelCol` to match.
    pub fn set_label_col(self, col: &str) -> (r: BinaryClassificationEvaluator)
        ensures
            r.label_col@ == col@,
            r.params.entries() == put_param(self.params.entries(), "labelCol"@, string_lit(col@)),
            r.operator == self.operator,
            r.score_col == self.score_col,
            r.metric_name == self.metric_name,
    {
        let params = self.params.set_param_string("labelCol", col);
        BinaryClassificationEvaluator { label_col: owned(col), params, ..self }
    }

    /// Sets `score_col`, and the parameter `scoreCol` to match.
    pub fn set_score_col(self, col: &str) -> (r: BinaryClassificationEvaluator)
        ensures
            r.score_col@ == col@,
            r.params.entries() == put_param(self.params.entries(), "scoreCol"@, string_lit(col@)),
            r.operator == self.operator,
            r.label_col == self.label_col,
            r.metric_name == self.metric_name,
    {
        let params = self.params.set_param_string("scoreCol", col);
        BinaryClassificationEvaluator { score_col: owned(col), params, ..self }
    }

    /// Sets `metric_name`, and the parameter `metricName` to match.
    pub fn set_metric_name(self, metric: &str) -> (r: BinaryClassificationEvaluator)
        ensures
            r.metric_name@ == metric@,
            r.params.entries() == put_param(self.params.entries(), "metricName"@, string_lit(metric@)),
            r.operator == self.operator,
            r.label_col == self.label_col,
            r.score_col == self.score_col,
    {
        let params = self.params.set_param_string("metricName", metric);
        BinaryClassificationEvaluator { metric_name: owned(metric), params, ..self }
    }

    /// The `label_col` setting.
    pub fn label_col(&self) -> (r: &str)
        ensures
            r@ == self.label_col@,
    {
        self.label_col.as_str()
    }

    /// The `score_col` setting.
    pub fn score_col(&self) -> (r: &str)
        ensures
            r@ == self.score_col@,
    {
        self.score_col.as_str()
    }

    /// The `metric_name` setting.
    pub fn metric_name(&self) -> (r: &str)
        ensures
            r@ == self.metric_name@,
    {
        self.metric_name.as_str()
    }

    /// The operator this instance is sent as.
    pub fn operator(&self) -> (r: &MlOperator)
        ensures
            r == self.operator,
    {
        &self.operator
    }

    /// The parameters set so far.
    pub fn params(&self) -> (r: &Params)
        ensures
            r == self.params,
    {
        &self.params
    }
}

/// Chains stages, named in order.
#[derive(Debug)]
pub struct Pipeline {
    pub operator: MlOperator,
    pub params: Params,
    pub stages: Vec<String>,
}

impl Pipeline {
    /// A new instance with the default settings and a fresh id.
    pub fn new() -> (r: Pipeline)
        ensures
            r.operator.name@ == "org.apache.spark.ml.Pipeline"@,
            is_uuid_text(r.operator.uid@),
            r.operator.op_type == OperatorType::Estimator,
            r.params.entries().len() == 0,
            r.stages@.len() == 0,
    {
        Pipeline { operator: MlOperator::new("org.apache.spark.ml.Pipeline", OperatorType::Estimator), params: Params::new(), stages: Vec::new() }
    }

    /// Sets `stages`, and the parameter `stages` to match.
    pub fn set_stages(self, stage_names: Vec<&str>) -> (r: Pipeline)
        ensures
            strings_view(r.stages@) == stage_names@.map_values(|s: &str| s@),
            r.params.entries() == put_param(self.params.entries(), "stages"@, string_lit(strings_debug(strings_view(r.stages@)))),
            r.operator == self.operator,
    {
        let names = strings_of(&stage_names);
        let text = strings_debug_text(&names);
        let params = self.params.set_param_string("stages", text.as_str());
        Pipeline { stages: names, params, ..self }
    }

    /// The `stages` setting.
    pub fn stages(&self) -> (r: &[String])
        ensures
            r@ == self.stages@,
    {
        self.stages.as_slice()
    }

    /// The operator this instance is sent as.
    pub fn operator(&self) -> (r: &MlOperator)
        ensures
            r == self.operator,
    {
        &self.operator
    }

    /// The parameters set so far.
    pub fn params(&self) -> (r: &Params)
        ensures
            r == self.params,
    {
        &self.params
    }
}

/// Evaluates a multiclass classifier by a metric (`f1` unless set).
#[derive(Debug)]
pub struct MulticlassClassificationEvaluator {
    pub operator: MlOperator,
    pub params: Params,
    pub label_col: String,
    pub prediction_col: String,
    pub metric_name: String,
}

impl MulticlassClassificationEvaluator {
    /// A new instance with the default settings and a fresh id.
    pub fn new() -> (r: MulticlassClassificationEvaluator)
        ensures
            r.operator.name@ == "org.apache.spark.ml.evaluation.MulticlassClassificationEvaluator"@,
            is_uuid_text(r.operator.uid@),
            r.operator.op_type == OperatorType::Evaluator,
            r.params.entries().len() == 0,
            r.label_col@ == "label"@,
            r.prediction_col@ == "prediction"@,
            r.metric_name@ == "f1"@,
    {
        MulticlassClassificationEvaluator { operator: MlOperator::new("org.apache.spark.ml.evaluation.MulticlassClassificationEvaluator", OperatorType::Evaluator), params: Params::new(), label_col: owned("label"), prediction_col: owned("prediction"), metric_name: owned("f1") }
    }

    /// Sets `label_col`, and the parameter `labelCol` to match.
    pub fn set_label_col(self, col: &str) -> (r: MulticlassClassificationEvaluator)
        ensures
            r.label_col@ == col@,
            r.params.entries() == put_param(self.params.entries(), "labelCol"@, string_lit(col@)),
            r.operator == self.operator,
            r.prediction_col == self.prediction_col,
            r.metric_name == self.metric_name,
    {
        let params = self.params.set_param_string("labelCol", col);
        MulticlassClassificationEvaluator { label_col: owned(col), params, ..self }
    }

    /// Sets `prediction_col`, and the parameter `predictionCol` to match.
    pub fn set_prediction_col(self, col: &str) -> (r: MulticlassClassificationEvaluator)
        ensures
            r.prediction_col@ == col@,
            r.params.entries() == put_param(self.params.entries(), "predictionCol"@, string_lit(col@)),
            r.operator == self.operator,
            r.label_col == self.label_col,
            r.metric_name == self.metric_name,
    {
        let params = self.params.set_param_string("predictionCol", col);
        MulticlassClassificationEvaluator { prediction_col: owned(col), params, ..self }
    }

    /// Sets `metric_name`, and the parameter `metricName` to match.
    pub fn set_metric_name(self, metric: &str) -> (r: MulticlassClassificationEvaluator)
        ensures
            r.metric_name@ == metric@,
            r.params.entries() == put_param(self.params.entries(), "metricName"@, string_lit(metric@)),
            r.operator == self.operator,
            r.label_col == self.label_col,
            r.prediction_col == self.prediction_col,
    {
        let params = self.params.set_param_string("metricName", metric);
        MulticlassClassificationEvaluator { metric_name: owned(metric), params, ..self }
    }

    /// The `label_col` setting.
    pub fn label_col(&self) -> (r: &str)
        ensures
            r@ == self.label_col@,
    {
        self.label_col.as_str()
    }

    /// The `prediction_col` setting.
    pub fn prediction_col(&self) -> (r: &str)
        ensures
            r@ == self.prediction_col@,
    {
        self.prediction_col.as_str()
    }

    /// The `metric_name` setting.
    pub fn metric_name(&self) -> (r: &str)
        ensures
            r@ == self.metric_name@,
    {
        self.metric_name.as_str()
    }

    /// The operator this instance is sent as.
    pub fn operator(&self) -> (r: &MlOperator)
        ensures
            r == self.operator,
    {
        &self.operator
    }

    /// The parameters set so far.
    pub fn params(&self) -> (r: &Params)
        ensures
            r == self.params,
    {
        &self.params
    }
}

/// K-fold cross validation (3 folds, parallelism 1 unless set).
#[derive(Debug)]
pub struct CrossValidator {
    pub operator: MlOperator,
    pub params: Params,
    pub num_folds: i32,
    pub parallelism: i32,
    pub seed: Option<i64>,
}

impl CrossValidator {
    /// A new instance with the default settings and a fresh id.
    pub fn new() -> (r: CrossValidator)
        ensures
            r.operator.name@ == "org.apache.spark.ml.tuning.CrossValidator"@,
            is_uuid_text(r.operator.uid@),
            r.operator.op_type == OperatorType::Estimator,
            r.params.entries().len() == 0,
            r.num_folds == 3,
            r.parallelism == 1,
            r.seed is None,
    {
        CrossValidator { operator: MlOperator::new("org.apache.spark.ml.tuning.CrossValidator", OperatorType::Estimator), params: Params::new(), num_folds: 3, parallelism: 1, seed: None }
    }

    /// Sets `num_folds`, and the parameter `numFolds` to match.
    pub fn set_num_folds(self, num_folds: i32) -> (r: CrossValidator)
        ensures
            r.num_folds == num_folds,
            r.params.entries() == put_param(self.params.entries(), "numFolds"@, long_lit(num_folds as i64)),
            r.operator == self.operator,
            r.parallelism == self.parallelism,
            r.seed == self.seed,
    {
        let params = self.params.set_param_int("numFolds", num_folds as i64);
        CrossValidator { num_folds: num_folds, params, ..self }
    }

    /// Sets `parallelism`, and the parameter `parallelism` to match.
    pub fn set_parallelism(self, parallelism: i32) -> (r: CrossValidator)
        ensures
            r.parallelism == parallelism,
            r.params.entries() == put_param(self.params.entries(), "parallelism"@, long_lit(parallelism as i64)),
            r.operator == self.operator,
            r.num_folds == self.num_folds,
            r.seed == self.seed,
    {
        let params = self.params.set_param_int("parallelism", parallelism as i64);
        CrossValidator { parallelism: parallelism, params, ..self }
    }

    /// Sets `seed`, and the parameter `seed` to match.
    pub fn set_seed(self, seed: i64) -> (r: CrossValidator)
        ensures
            r.seed == Some(seed),
            r.params.entries() == put_param(self.params.entries(), "seed"@, long_lit(seed)),
            r.operator == self.operator,
            r.num_folds == self.num_folds,
            r.parallelism == self.parallelism,
    {
        let params = self.params.set_param_int("seed", seed);
        CrossValidator { seed: Some(seed), params, ..self }
    }

    /// The `num_folds` setting.
    pub fn num_folds(&self) -> (r: i32)
        ensures
            r == self.num_folds,
    {
        self.num_folds
    }

    /// The `parallelism` setting.
    pub fn parallelism(&self) -> (r: i32)
        ensures
            r == self.parallelism,
    {
        self.parallelism
    }

    /// The operator this instance is sent as.
    pub fn operator(&self) -> (r: &MlOperator)
        ensures
            r == self.operator,
    {
        &self.operator
    }

    /// The parameters set so far.
    pub fn params(&self) -> (r: &Params)
        ensures
            r == self.params,
    {
        &self.params
    }
}

impl Default for StandardScaler {
    /// The same as `new`.
    fn default() -> (r: StandardScaler)
        ensures
            r.operator.name@ == "org.apache.spark.ml.feature.StandardScaler"@,
            is_uuid_text(r.operator.uid@),
            r.operator.op_type == OperatorType::Estimator,
            r.params.entries().len() == 0,
            r.input_col@ == "features"@,
            r.output_col@ == "scaled_features"@,
    {
        StandardScaler::new()
    }
}

impl Default for VectorAssembler {
    /// The same as `new`.
    fn default() -> (r: VectorAssembler)
        ensures
            r.operator.name@ == "org.apache.spark.ml.feature.VectorAssembler"@,
            is_uuid_text(r.operator.uid@),
            r.operator.op_type == OperatorType::Transformer,
            r.params.entries().len() == 0,
            r.input_cols@.len() == 0,
            r.output_col@ == "assembled"@,
    {
        VectorAssembler::new()
    }
}

impl Default for StringIndexer {
    /// The same as `new`.
    fn default() -> (r: StringIndexer)
        ensures
            r.operator.name@ == "org.apache.spark.ml.feature.StringIndexer"@,
            is_uuid_text(r.operator.uid@),
            r.operator.op_type == OperatorType::Estimator,
            r.params.entries().len() == 0,
            r.input_col@.len() == 0,
            r.output_col@ == "indexed"@,
    {
        StringIndexer::new()
    }
}

impl Default for MaxAbsScaler {
    /// The same as `new`.
    fn default() -> (r: MaxAbsScaler)
        ensures
            r.operator.name@ == "org.apache.spark.ml.feature.MaxAbsScaler"@,
            is_uuid_text(r.operator.uid@),
            r.operator.op_type == OperatorType::Estimator,
            r.params.entries().len() == 0,
            r.input_col@ == "features"@,
            r.output_col@ == "maxAbs_scaled"@,
    {
        MaxAbsScaler::new()
    }
}

impl Default for LogisticRegression {
    /// The same as `new`.
    fn default() -> (r: LogisticRegression)
        ensures
            r.operator.name@ == "org.apache.spark.ml.classification.LogisticRegression"@,
            is_uuid_text(r.operator.uid@),
            r.operator.op_type == OperatorType::Estimator,
            r.params.entries().len() == 0,
            r.feature_col@ == "features"@,
            r.label_col@ == "label"@,
            r.prediction_col@ == "prediction"@,
            r.max_iter == 100,
    {
        LogisticRegression::new()
    }
}

impl Default for RegressionEvaluator {
    /// The same as `new`.
    fn default() -> (r: RegressionEvaluator)
        ensures
            r.operator.name@ == "org.apache.spark.ml.evaluation.RegressionEvaluator"@,
            is_uuid_text(r.operator.uid@),
            r.operator.op_type == OperatorType::Evaluator,
            r.params.entries().len() == 0,
            r.label_col@ == "label"@,
            r.prediction_col@ == "prediction"@,
            r.metric_name@ == "rmse"@,
    {
        RegressionEvaluator::new()
    }
}

impl Default for BinaryClassificationEvaluator {
    /// The same as `new`.
    fn default() -> (r: BinaryClassificationEvaluator)
        ensures
            r.operator.name@ == "org.apache.spark.ml.evaluation.BinaryClassificationEvaluator"@,
            is_uuid_text(r.operator.uid@),
            r.operator.op_type == OperatorType::Evaluator,
            r.params.entries().len() == 0,
            r.label_col@ == "label"@,
            r.score_col@ == "prediction"@,
            r.metric_name@ == "areaUnderROC"@,
    {
        BinaryClassificationEvaluator::new()
    }
}

impl Default for Pipeline {
    /// The same as `new`.
    fn default() -> (r: Pipeline)
        ensures
            r.operator.name@ == "org.apache.spark.ml.Pipeline"@,
            is_uuid_text(r.operator.uid@),
            r.operator.op_type == OperatorType::Estimator,
            r.params.entries().len() == 0,
            r.stages@.len() == 0,
    {
        Pipeline::new()
    }
}

impl Default for MulticlassClassificationEvaluator {
    /// The same as `new`.
    fn default() -> (r: MulticlassClassificationEvaluator)
        ensures
            r.operator.name@ == "org.apache.spark.ml.evaluation.MulticlassClassificationEvaluator"@,
            is_uuid_text(r.operator.uid@),
            r.operator.op_type == OperatorType::Evaluator,
            r.params.entries().len() == 0,
            r.label_col@ == "label"@,
            r.prediction_col@ == "prediction"@,
            r.metric_name@ == "f1"@,
    {
        MulticlassClassificationEvaluator::new()
    }
}

impl Default for CrossValidator {
    /// The same as `new`.
    fn default() -> (r: CrossValidator)
        ensures
            r.operator.name@ == "org.apache.spark.ml.tuning.CrossValidator"@,
            is_uuid_text(r.operator.uid@),
            r.operator.op_type == OperatorType::Estimator,
            r.params.entries().len() == 0,
            r.num_folds == 3,
            r.parallelism == 1,
            r.seed is None,
    {
        CrossValidator::new()
    }
}

/// `p` applies `transformer` with `params` to the plan `input`.
pub open spec fn is_ml_transform_of(p: LogicalPlan, transformer: MlOperator, params: Params, input: Rc<LogicalPlan>) -> bool {
    p matches LogicalPlan::MlTransform { transformer: t, input: i, params: ps }
        && same_operator(t, transformer) && i == input && ps.entries() == params.entries()
}

/// The DataFrame of `transformer` applied to `df` with `params`.
fn transform_plan(transformer: &MlOperator, params: &Params, df: &DataFrame) -> (out: DataFrame)
    ensures
        is_ml_transform_of(*out.plan, *transformer, *params, df.plan),
{
    DataFrame::new(LogicalPlan::MlTransform { transformer: transformer.copy(), input: df.plan.clone(), params: params.copy() })
}

/// The ML relation of `transformer` applied to `input_plan` with `params`.
pub fn build_ml_relation(transformer: &MlOperator, params: &Params, input_plan: &LogicalPlan) -> (r: RelType)
    ensures
        rel_type_view(r) == (RelTypeView::MlRelation {
            transformer: (transformer.name@, transformer.uid@, operator_type_code(transformer.op_type)),
            input: Some(Box::new(plan_rel(*input_plan))),
            params: params.entries(),
        }),
{
    let i = input_plan.to_proto();
    let m = params.to_proto();
    assert(ml_params_view(m) =~= params.entries());
    RelType::MlRelation { transformer: transformer.to_proto(), input: Some(Box::new(i)), params: m }
}

/// `spark.connect.MlCommand.Evaluate`: the evaluator, its parameters and the
/// dataset to evaluate.
#[derive(Debug)]
pub struct EvaluateCommand {
    pub evaluator: MlOperatorMsg,
    pub params: MlParams,
    pub dataset: Relation,
}

/// `c` evaluates `plan` with `evaluator` and `params`; the dataset's nodes
/// are numbered from `next` on, and `after` is the next number left.
pub open spec fn is_evaluate_command(c: EvaluateCommand, evaluator: MlOperator, params: Params, plan: LogicalPlan, next: int, after: int) -> bool {
    &&& ml_operator_msg_view(c.evaluator) == (evaluator.name@, evaluator.uid@, operator_type_code(evaluator.op_type))
    &&& ml_params_view(c.params) == params.entries()
    &&& assign_rel(plan_rel(plan), next) == (c.dataset@, after)
}

/// The command that asks the server to evaluate `df` with `evaluator` and
/// `params`, the dataset's plan nodes numbered from `counter`.
pub fn evaluate_command(evaluator: &MlOperator, params: &Params, df: &DataFrame, counter: &mut PlanIdCounter) -> (c: EvaluateCommand)
    requires
        old(counter).next + count_rel(plan_rel(*df.plan)) <= i64::MAX,
    ensures
        is_evaluate_command(c, *evaluator, *params, *df.plan, old(counter).next as int, final(counter).next as int),
{
    let dataset = df.build_relation(counter);
    let m = params.to_proto();
    assert(ml_params_view(m) =~= params.entries());
    EvaluateCommand { evaluator: evaluator.to_proto(), params: m, dataset }
}

/// An `MlCommandResult` as evaluation reads it: a parameter literal, or
/// anything else.
#[derive(Debug)]
pub enum MlCommandResult {
    Param(proto::Literal),
    Other,
}

/// The metric among an evaluation's results: the value of the first result
/// that is a double parameter.
pub open spec fn first_metric(results: Seq<MlCommandResult>) -> Option<(u64, Seq<char>)>
    decreases results.len(),
{
    if results.len() == 0 {
        None
    } else {
        match results[0] {
            MlCommandResult::Param(l) => match l@.literal_type {
                Some(LiteralTypeView::Double(d)) => Some(d),
                _ => first_metric(results.drop_first()),
            },
            MlCommandResult::Other => first_metric(results.drop_first()),
        }
    }
}

/// The metric the server answered an evaluation with (see `first_metric`).
pub fn metric_from_results(results: &Vec<MlCommandResult>) -> (r: Result<Float64, ConnectError>)
    ensures
        match r {
            Ok(f) => first_metric(results@) == Some(f@),
            Err(e) => first_metric(results@) is None && e.message@ == "evaluate: server returned no metric"@,
        },
{
    let mut i: usize = 0;
    assert(results@.skip(0) =~= results@);
    while i < results.len()
        invariant
            i <= results@.len(),
            first_metric(results@) == first_metric(results@.skip(i as int)),
        decreases results@.len() - i,
    {
        proof {
            assert(results@.skip(i as int).drop_first() =~= results@.skip(i as int + 1));
        }
        match &results[i] {
            MlCommandResult::Param(l) => match &l.literal_type {
                Some(proto::LiteralType::Double(f)) => {
                    return Ok(f.copy());
                },
                _ => {},
            },
            MlCommandResult::Other => {},
        }
        i = i + 1;
    }
    Err(ConnectError { message: owned("evaluate: server returned no metric") })
}

/// The model that fitting a `StandardScaler` gives.
#[derive(Debug)]
pub struct StandardScalerModel {
    pub operator: MlOperator,
    pub params: Params,
    pub input_col: String,
    pub output_col: String,
}

impl StandardScalerModel {
    /// The operator this model is sent as.
    pub fn operator(&self) -> (r: &MlOperator)
        ensures
            r == self.operator,
    {
        &self.operator
    }

    /// The parameters of this model.
    pub fn params(&self) -> (r: &Params)
        ensures
            r == self.params,
    {
        &self.params
    }

    /// Applies this model to `df`: the plan of its operator and
    /// parameters over `df`'s plan. An operator without an id gets one first.
    pub fn transform(&mut self, df: &DataFrame) -> (r: Result<DataFrame, ConnectError>)
        ensures
            operator_ensured(old(self).operator, final(self).operator, OperatorType::Transformer),
            final(self).params == old(self).params,
            final(self).input_col == old(self).input_col,
            final(self).output_col == old(self).output_col,
            r matches Ok(out) && is_ml_transform_of(*out.plan, final(self).operator, final(self).params, df.plan),
    {
        ensure_operator(&mut self.operator, OperatorType::Transformer);
        Ok(transform_plan(&self.operator, &self.params, df))
    }

    /// A copy of this model.
    pub fn clone_box(&self) -> (r: StandardScalerModel)
        ensures
            same_operator(r.operator, self.operator),
            r.params.entries() == self.params.entries(),
            r.input_col@ == self.input_col@,
            r.output_col@ == self.output_col@,
    {
        StandardScalerModel { operator: self.operator.copy(), params: self.params.copy(), input_col: self.input_col.clone(), output_col: self.output_col.clone() }
    }
}

impl StandardScaler {
    /// Fits this estimator; `_df` is not read. The model is sent as this
    /// operator's class and id, as a model, and carries this estimator's
    /// parameters and columns. An operator without an id gets one first.
    pub fn fit(&mut self, _df: &DataFrame) -> (r: Result<StandardScalerModel, ConnectError>)
        ensures
            operator_ensured(old(self).operator, final(self).operator, OperatorType::Estimator),
            final(self).params == old(self).params,
            final(self).input_col == old(self).input_col,
            final(self).output_col == old(self).output_col,
            r matches Ok(m) && m.operator.name@ == final(self).operator.name@
                && m.operator.uid@ == final(self).operator.uid@
                && m.operator.op_type == OperatorType::Model
                && m.params.entries() == final(self).params.entries()
                && m.input_col@ == final(self).input_col@
                && m.output_col@ == final(self).output_col@,
    {
        ensure_operator(&mut self.operator, OperatorType::Estimator);
        let operator = MlOperator::with_uid(self.operator.name.as_str(), self.operator.uid.as_str(), OperatorType::Model);
        Ok(StandardScalerModel { operator, params: self.params.copy(), input_col: self.input_col.clone(), output_col: self.output_col.clone() })
    }
}

/// The model that fitting a `StringIndexer` gives.
#[derive(Debug)]
pub struct StringIndexerModel {
    pub operator: MlOperator,
    pub params: Params,
    pub input_col: String,
    pub output_col: String,
}

impl StringIndexerModel {
    /// The operator this model is sent as.
    pub fn operator(&self) -> (r: &MlOperator)
        ensures
            r == self.operator,
    {
        &self.operator
    }

    /// The parameters of this model.
    pub fn params(&self) -> (r: &Params)
        ensures
            r == self.params,
    {
        &self.params
    }

    /// Applies this model to `df`: the plan of its operator and
    /// parameters over `df`'s plan. An operator without an id gets one first.
    pub fn transform(&mut self, df: &DataFrame) -> (r: Result<DataFrame, ConnectError>)
        ensures
            operator_ensured(old(self).operator, final(self).operator, OperatorType::Transformer),
            final(self).params == old(self).params,
            final(self).input_col == old(self).input_col,
            final(self).output_col == old(self).output_col,
            r matches Ok(out) && is_ml_transform_of(*out.plan, final(self).operator, final(self).params, df.plan),
    {
        ensure_operator(&mut self.operator, OperatorType::Transformer);
        Ok(transform_plan(&self.operator, &self.params, df))
    }

    /// A copy of this model.
    pub fn clone_box(&self) -> (r: StringIndexerModel)
        ensures
            same_operator(r.operator, self.operator),
            r.params.entries() == self.params.entries(),
            r.input_col@ == self.input_col@,
            r.output_col@ == self.output_col@,
    {
        StringIndexerModel { operator: self.operator.copy(), params: self.params.copy(), input_col: self.input_col.clone(), output_col: self.output_col.clone() }
    }
}

impl StringIndexer {
    /// Fits this estimator; `_df` is not read. The model is sent as this
    /// operator's class and id, as a model, and carries this estimator's
    /// parameters and columns. An operator without an id gets one first.
    pub fn fit(&mut self, _df: &DataFrame) -> (r: Result<StringIndexerModel, ConnectError>)
        ensures
            operator_ensured(old(self).operator, final(self).operator, OperatorType::Estimator),
            final(self).params == old(self).params,
            final(self).input_col == old(self).input_col,
            final(self).output_col == old(self).output_col,
            r matches Ok(m) && m.operator.name@ == final(self).operator.name@
                && m.operator.uid@ == final(self).operator.uid@
                && m.operator.op_type == OperatorType::Model
                && m.params.entries() == final(self).params.entries()
                && m.input_col@ == final(self).input_col@
                && m.output_col@ == final(self).output_col@,
    {
        ensure_operator(&mut self.operator, OperatorType::Estimator);
        let operator = MlOperator::with_uid(self.operator.name.as_str(), self.operator.uid.as_str(), OperatorType::Model);
        Ok(StringIndexerModel { operator, params: self.params.copy(), input_col: self.input_col.clone(), output_col: self.output_col.clone() })
    }
}

/// The model that fitting a `MaxAbsScaler` gives.
#[derive(Debug)]
pub struct MaxAbsScalerModel {
    pub operator: MlOperator,
    pub params: Params,
    pub input_col: String,
    pub output_col: String,
}

impl MaxAbsScalerModel {
    /// The operator this model is sent as.
    pub fn operator(&self) -> (r: &MlOperator)
        ensures
            r == self.operator,
    {
        &self.operator
    }

    /// The parameters of this model.
    pub fn params(&self) -> (r: &Params)
        ensures
            r == self.params,
    {
        &self.params
    }

    /// Applies this model to `df`: the plan of its operator and
    /// parameters over `df`'s plan. An operator without an id gets one first.
    pub fn transform(&mut self, df: &DataFrame) -> (r: Result<DataFrame, ConnectError>)
        ensures
            operator_ensured(old(self).operator, final(self).operator, OperatorType::Transformer),
            final(self).params == old(self).params,
            final(self).input_col == old(self).input_col,
            final(self).output_col == old(self).output_col,
            r matches Ok(out) && is_ml_transform_of(*out.plan, final(self).operator, final(self).params, df.plan),
    {
        ensure_operator(&mut self.operator, OperatorType::Transformer);
        Ok(transform_plan(&self.operator, &self.params, df))
    }

    /// A copy of this model.
    pub fn clone_box(&self) -> (r: MaxAbsScalerModel)
        ensures
            same_operator(r.operator, self.operator),
            r.params.entries() == self.params.entries(),
            r.input_col@ == self.input_col@,
            r.output_col@ == self.output_col@,
    {
        MaxAbsScalerModel { operator: self.operator.copy(), params: self.params.copy(), input_col: self.input_col.clone(), output_col: self.output_col.clone() }
    }
}

impl MaxAbsScaler {
    /// Fits this estimator; `_df` is not read. The model is sent as this
    /// operator's class and id, as a model, and carries this estimator's
    /// parameters and columns. An operator without an id gets one first.
    pub fn fit(&mut self, _df: &DataFrame) -> (r: Result<MaxAbsScalerModel, ConnectError>)
        ensures
            operator_ensured(old(self).operator, final(self).operator, OperatorType::Estimator),
            final(self).params == old(self).params,
            final(self).input_col == old(self).input_col,
            final(self).output_col == old(self).output_col,
            r matches Ok(m) && m.operator.name@ == final(self).operator.name@
                && m.operator.uid@ == final(self).operator.uid@
                && m.operator.op_type == OperatorType::Model
                && m.params.entries() == final(self).params.entries()
                && m.input_col@ == final(self).input_col@
                && m.output_col@ == final(self).output_col@,
    {
        ensure_operator(&mut self.operator, OperatorType::Estimator);
        let operator = MlOperator::with_uid(self.operator.name.as_str(), self.operator.uid.as_str(), OperatorType::Model);
        Ok(MaxAbsScalerModel { operator, params: self.params.copy(), input_col: self.input_col.clone(), output_col: self.output_col.clone() })
    }
}

/// The model that fitting a `LogisticRegression` gives.
#[derive(Debug)]
pub struct LogisticRegressionModel {
    pub operator: MlOperator,
    pub params: Params,
    pub feature_col: String,
    pub label_col: String,
    pub prediction_col: String,
}

impl LogisticRegressionModel {
    /// The operator this model is sent as.
    pub fn operator(&self) -> (r: &MlOperator)
        ensures
            r == self.operator,
    {
        &self.operator
    }

    /// The parameters of this model.
    pub fn params(&self) -> (r: &Params)
        ensures
            r == self.params,
    {
        &self.params
    }

    /// Applies this model to `df`: the plan of its operator and
    /// parameters over `df`'s plan. An operator without an id gets one first.
    pub fn transform(&mut self, df: &DataFrame) -> (r: Result<DataFrame, ConnectError>)
        ensures
            operator_ensured(old(self).operator, final(self).operator, OperatorType::Transformer),
            final(self).params == old(self).params,
            final(self).feature_col == old(self).feature_col,
            final(self).label_col == old(self).label_col,
            final(self).prediction_col == old(self).prediction_col,
            r matches Ok(out) && is_ml_transform_of(*out.plan, final(self).operator, final(self).params, df.plan),
    {
        ensure_operator(&mut self.operator, OperatorType::Transformer);
        Ok(transform_plan(&self.operator, &self.params, df))
    }

    /// A copy of this model.
    pub fn clone_box(&self) -> (r: LogisticRegressionModel)
        ensures
            same_operator(r.operator, self.operator),
            r.params.entries() == self.params.entries(),
            r.feature_col@ == self.feature_col@,
            r.label_col@ == self.label_col@,
            r.prediction_col@ == self.prediction_col@,
    {
        LogisticRegressionModel { operator: self.operator.copy(), params: self.params.copy(), feature_col: self.feature_col.clone(), label_col: self.label_col.clone(), prediction_col: self.prediction_col.clone() }
    }
}

impl LogisticRegression {
    /// Fits this estimator; `_df` is not read. The model is sent as this
    /// operator's class and id, as a model, and carries this estimator's
    /// parameters and columns. An operator without an id gets one first.
    pub fn fit(&mut self, _df: &DataFrame) -> (r: Result<LogisticRegressionModel, ConnectError>)
        ensures
            operator_ensured(old(self).operator, final(self).operator, OperatorType::Estimator),
            final(self).params == old(self).params,
            final(self).feature_col == old(self).feature_col,
            final(self).label_col == old(self).label_col,
            final(self).prediction_col == old(self).prediction_col,
            final(self).max_iter == old(self).max_iter,
            r matches Ok(m) && m.operator.name@ == final(self).operator.name@
                && m.operator.uid@ == final(self).operator.uid@
                && m.operator.op_type == OperatorType::Model
                && m.params.entries() == final(self).params.entries()
                && m.feature_col@ == final(self).feature_col@
                && m.label_col@ == final(self).label_col@
                && m.prediction_col@ == final(self).prediction_col@,
    {
        ensure_operator(&mut self.operator, OperatorType::Estimator);
        let operator = MlOperator::with_uid(self.operator.name.as_str(), self.operator.uid.as_str(), OperatorType::Model);
        Ok(LogisticRegressionModel { operator, params: self.params.copy(), feature_col: self.feature_col.clone(), label_col: self.label_col.clone(), prediction_col: self.prediction_col.clone() })
    }
}

/// The model that fitting a `Pipeline` gives.
#[derive(Debug)]
pub struct PipelineModel {
    pub operator: MlOperator,
    pub params: Params,
    pub stages: Vec<String>,
}

impl PipelineModel {
    /// The operator this model is sent as.
    pub fn operator(&self) -> (r: &MlOperator)
        ensures
            r == self.operator,
    {
        &self.operator
    }

    /// The parameters of this model.
    pub fn params(&self) -> (r: &Params)
        ensures
            r == self.params,
    {
        &self.params
    }

    /// Applies this model to `df`: the plan of its operator and
    /// parameters over `df`'s plan. An operator without an id gets one first.
    pub fn transform(&mut self, df: &DataFrame) -> (r: Result<DataFrame, ConnectError>)
        ensures
            operator_ensured(old(self).operator, final(self).operator, OperatorType::Transformer),
            final(self).params == old(self).params,
            final(self).stages == old(self).stages,
            r matches Ok(out) && is_ml_transform_of(*out.plan, final(self).operator, final(self).params, df.plan),
    {
        ensure_operator(&mut self.operator, OperatorType::Transformer);
        Ok(transform_plan(&self.operator, &self.params, df))
    }

    /// A copy of this model.
    pub fn clone_box(&self) -> (r: PipelineModel)
        ensures
            same_operator(r.operator, self.operator),
            r.params.entries() == self.params.entries(),
            strings_view(r.stages@) == strings_view(self.stages@),
    {
        PipelineModel { operator: self.operator.copy(), params: self.params.copy(), stages: copy_strings(&self.stages) }
    }
}

impl Pipeline {
    /// Fits this estimator; `_df` is not read. The model is sent as this
    /// operator's class and id, as a model, and carries this estimator's
    /// parameters and columns. An operator without an id gets one first.
    pub fn fit(&mut self, _df: &DataFrame) -> (r: Result<PipelineModel, ConnectError>)
        ensures
            operator_ensured(old(self).operator, final(self).operator, OperatorType::Estimator),
            final(self).params == old(self).params,
            final(self).stages == old(self).stages,
            r matches Ok(m) && m.operator.name@ == final(self).operator.name@
                && m.operator.uid@ == final(self).operator.uid@
                && m.operator.op_type == OperatorType::Model
                && m.params.entries() == final(self).params.entries()
                && strings_view(m.stages@) == strings_view(final(self).stages@),
    {
        ensure_operator(&mut self.operator, OperatorType::Estimator);
        let operator = MlOperator::with_uid(self.operator.name.as_str(), self.operator.uid.as_str(), OperatorType::Model);
        Ok(PipelineModel { operator, params: self.params.copy(), stages: copy_strings(&self.stages) })
    }
}

/// The model that fitting a `CrossValidator` gives.
#[derive(Debug)]
pub struct CrossValidatorModel {
    pub operator: MlOperator,
    pub params: Params,
}

impl CrossValidatorModel {
    /// The operator this model is sent as.
    pub fn operator(&self) -> (r: &MlOperator)
        ensures
            r == self.operator,
    {
        &self.operator
    }

    /// The parameters of this model.
    pub fn params(&self) -> (r: &Params)
        ensures
            r == self.params,
    {
        &self.params
    }

    /// Applies this model to `df`: the plan of its operator and
    /// parameters over `df`'s plan. An operator without an id gets one first.
    pub fn transform(&mut self, df: &DataFrame) -> (r: Result<DataFrame, ConnectError>)
        ensures
            operator_ensured(old(self).operator, final(self).operator, OperatorType::Transformer),
            final(self).params == old(self).params,
            r matches Ok(out) && is_ml_transform_of(*out.plan, final(self).operator, final(self).params, df.plan),
    {
        ensure_operator(&mut self.operator, OperatorType::Transformer);
        Ok(transform_plan(&self.operator, &self.params, df))
    }

    /// A copy of this model.
    pub fn clone_box(&self) -> (r: CrossValidatorModel)
        ensures
            same_operator(r.operator, self.operator),
            r.params.entries() == self.params.entries(),
    {
        CrossValidatorModel { operator: self.operator.copy(), params: self.params.copy() }
    }
}

impl CrossValidator {
    /// Fits this estimator; `_df` is not read. The model is sent as this
    /// operator's class and id, as a model, and carries this estimator's
    /// parameters and columns. An operator without an id gets one first.
    pub fn fit(&mut self, _df: &DataFrame) -> (r: Result<CrossValidatorModel, ConnectError>)
        ensures
            operator_ensured(old(self).operator, final(self).operator, OperatorType::Estimator),
            final(self).params == old(self).params,
            final(self).num_folds == old(self).num_folds,
            final(self).parallelism == old(self).parallelism,
            final(self).seed == old(self).seed,
            r matches Ok(m) && m.operator.name@ == final(self).operator.name@
                && m.operator.uid@ == final(self).operator.uid@
                && m.operator.op_type == OperatorType::Model
                && m.params.entries() == final(self).params.entries(),
    {
        ensure_operator(&mut self.operator, OperatorType::Estimator);
        let operator = MlOperator::with_uid(self.operator.name.as_str(), self.operator.uid.as_str(), OperatorType::Model);
        Ok(CrossValidatorModel { operator, params: self.params.copy() })
    }
}

impl VectorAssembler {
    /// Applies this transformer to `df`: the plan of its operator and
    /// parameters over `df`'s plan. An operator without an id gets one first.
    pub fn transform(&mut self, df: &DataFrame) -> (r: Result<DataFrame, ConnectError>)
        ensures
            operator_ensured(old(self).operator, final(self).operator, OperatorType::Transformer),
            final(self).params == old(self).params,
            final(self).input_cols == old(self).input_cols,
            final(self).output_col == old(self).output_col,
            r matches Ok(out) && is_ml_transform_of(*out.plan, final(self).operator, final(self).params, df.plan),
    {
        ensure_operator(&mut self.operator, OperatorType::Transformer);
        Ok(transform_plan(&self.operator, &self.params, df))
    }
}

impl RegressionEvaluator {
    /// The command that asks the server to evaluate `df` with this evaluator
    /// (see `evaluate_command`).
    pub fn evaluate_command(&self, df: &DataFrame, counter: &mut PlanIdCounter) -> (c: EvaluateCommand)
        requires
            old(counter).next + count_rel(plan_rel(*df.plan)) <= i64::MAX,
        ensures
            is_evaluate_command(c, self.operator, self.params, *df.plan, old(counter).next as int, final(counter).next as int),
    {
        evaluate_command(&self.operator, &self.params, df, counter)
    }
}

impl BinaryClassificationEvaluator {
    /// The command that asks the server to evaluate `df` with this evaluator
    /// (see `evaluate_command`).
    pub fn evaluate_command(&self, df: &DataFrame, counter: &mut PlanIdCounter) -> (c: EvaluateCommand)
        requires
            old(counter).next + count_rel(plan_rel(*df.plan)) <= i64::MAX,
        ensures
            is_evaluate_command(c, self.operator, self.params, *df.plan, old(counter).next as int, final(counter).next as int),
    {
        evaluate_command(&self.operator, &self.params, df, counter)
    }
}

impl MulticlassClassificationEvaluator {
    /// The command that asks the server to evaluate `df` with this evaluator
    /// (see `evaluate_command`).
    pub fn evaluate_command(&self, df: &DataFrame, counter: &mut PlanIdCounter) -> (c: EvaluateCommand)
        requires
            old(counter).next + count_rel(plan_rel(*df.plan)) <= i64::MAX,
        ensures
            is_evaluate_command(c, self.operator, self.params, *df.plan, old(counter).next as int, final(counter).next as int),
    {
        evaluate_command(&self.operator, &self.params, df, counter)
    }
}


} // verus!
