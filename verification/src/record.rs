//! The typed slots of an intercepted call: its arguments, one record per
//! call, and the slot that holds the value to return.

use vstd::prelude::*;

verus! {

/// The native type of one argument or of the return value.
#[derive(Clone, Copy, Debug, PartialEq, Eq, Structural)]
pub enum ValueKind {
    Unit,
    Bool,
    I32,
    U32,
    I64,
    U64,
    Pointer,
}

/// One argument or return value. The core does not look into it beyond its
/// kind.
#[derive(Clone, Copy, Debug, PartialEq, Eq, Structural)]
pub enum Value {
    Unit,
    Bool(bool),
    I32(i32),
    U32(u32),
    I64(i64),
    U64(u64),
    Pointer(usize),
}

impl Value {
    /// The kind of this value.
    pub open spec fn kind_of(self) -> ValueKind {
        match self {
            Value::Unit => ValueKind::Unit,
            Value::Bool(_) => ValueKind::Bool,
            Value::I32(_) => ValueKind::I32,
            Value::U32(_) => ValueKind::U32,
            Value::I64(_) => ValueKind::I64,
            Value::U64(_) => ValueKind::U64,
            Value::Pointer(_) => ValueKind::Pointer,
        }
    }

    /// The zero value of a kind: `false`, the number 0, the null pointer.
    pub open spec fn zero_of(kind: ValueKind) -> Value {
        match kind {
            ValueKind::Unit => Value::Unit,
            ValueKind::Bool => Value::Bool(false),
            ValueKind::I32 => Value::I32(0),
            ValueKind::U32 => Value::U32(0),
            ValueKind::I64 => Value::I64(0),
            ValueKind::U64 => Value::U64(0),
            ValueKind::Pointer => Value::Pointer(0),
        }
    }

    /// The kind of this value.
    pub fn kind(&self) -> (k: ValueKind)
        ensures
            k == self.kind_of(),
    {
        match self {
            Value::Unit => ValueKind::Unit,
            Value::Bool(_) => ValueKind::Bool,
            Value::I32(_) => ValueKind::I32,
            Value::U32(_) => ValueKind::U32,
            Value::I64(_) => ValueKind::I64,
            Value::U64(_) => ValueKind::U64,
            Value::Pointer(_) => ValueKind::Pointer,
        }
    }

    /// The zero value of a kind.
    pub fn zero(kind: ValueKind) -> (v: Value)
        ensures
            v == Value::zero_of(kind),
            v.kind_of() == kind,
    {
        match kind {
            ValueKind::Unit => Value::Unit,
            ValueKind::Bool => Value::Bool(false),
            ValueKind::I32 => Value::I32(0),
            ValueKind::U32 => Value::U32(0),
            ValueKind::I64 => Value::I64(0),
            ValueKind::U64 => Value::U64(0),
            ValueKind::Pointer => Value::Pointer(0),
        }
    }
}

/// The parameter kinds of a native function, one variant per arity.
#[derive(Clone, Copy, Debug, PartialEq, Eq, Structural)]
pub enum Params {
    Nullary,
    A(ValueKind),
    AB(ValueKind, ValueKind),
    ABC(ValueKind, ValueKind, ValueKind),
    ABCD(ValueKind, ValueKind, ValueKind, ValueKind),
    ABCDE(ValueKind, ValueKind, ValueKind, ValueKind, ValueKind),
    ABCDEF(ValueKind, ValueKind, ValueKind, ValueKind, ValueKind, ValueKind),
}

impl Params {
    /// The parameter kinds in call order.
    pub open spec fn kinds(self) -> Seq<ValueKind> {
        match self {
            Params::Nullary => seq![],
            Params::A(a) => seq![a],
            Params::AB(a, b) => seq![a, b],
            Params::ABC(a, b, c) => seq![a, b, c],
            Params::ABCD(a, b, c, d) => seq![a, b, c, d],
            Params::ABCDE(a, b, c, d, e) => seq![a, b, c, d, e],
            Params::ABCDEF(a, b, c, d, e, f) => seq![a, b, c, d, e, f],
        }
    }

    /// The number of parameters.
    pub fn arity(&self) -> (n: usize)
        ensures
            n == self.kinds().len(),
            n <= 6,
    {
        match self {
            Params::Nullary => 0,
            Params::A(..) => 1,
            Params::AB(..) => 2,
            Params::ABC(..) => 3,
            Params::ABCD(..) => 4,
            Params::ABCDE(..) => 5,
            Params::ABCDEF(..) => 6,
        }
    }
}

/// The call signature of a native function.
#[derive(Clone, Copy, Debug, PartialEq, Eq, Structural)]
pub struct Signature {
    pub params: Params,
    pub ret: ValueKind,
}

/// The argument values of one call, one variant per arity.
#[derive(Clone, Copy, Debug, PartialEq, Eq, Structural)]
pub enum Arguments {
    Nullary,
    A(Value),
    AB(Value, Value),
    ABC(Value, Value, Value),
    ABCD(Value, Value, Value, Value),
    ABCDE(Value, Value, Value, Value, Value),
    ABCDEF(Value, Value, Value, Value, Value, Value),
}

/// The kinds of a list of values, one for one.
pub open spec fn kinds_of(values: Seq<Value>) -> Seq<ValueKind> {
    Seq::new(values.len(), |i: int| values[i].kind_of())
}

impl Arguments {
    /// The argument values in call order.
    pub open spec fn values(self) -> Seq<Value> {
        match self {
            Arguments::Nullary => seq![],
            Arguments::A(a) => seq![a],
            Arguments::AB(a, b) => seq![a, b],
            Arguments::ABC(a, b, c) => seq![a, b, c],
            Arguments::ABCD(a, b, c, d) => seq![a, b, c, d],
            Arguments::ABCDE(a, b, c, d, e) => seq![a, b, c, d, e],
            Arguments::ABCDEF(a, b, c, d, e, f) => seq![a, b, c, d, e, f],
        }
    }

    /// The arguments have exactly the kinds that `params` lists.
    pub open spec fn conforms(self, params: Params) -> bool {
        kinds_of(self.values()) == params.kinds()
    }

    /// The number of arguments.
    pub fn arity(&self) -> (n: usize)
        ensures
            n == self.values().len(),
            n <= 6,
    {
        match self {
            Arguments::Nullary => 0,
            Arguments::A(..) => 1,
            Arguments::AB(..) => 2,
            Arguments::ABC(..) => 3,
            Arguments::ABCD(..) => 4,
            Arguments::ABCDE(..) => 5,
            Arguments::ABCDEF(..) => 6,
        }
    }

    /// The argument with index `i`, counted from 0, if the call has one.
    pub fn get(&self, i: usize) -> (v: Option<Value>)
        ensures
            v == (if i < self.values().len() {
                Some(self.values()[i as int])
            } else {
                None
            }),
    {
        match (self, i) {
            (Arguments::A(a), 0) => Some(*a),
            (Arguments::AB(a, _), 0) => Some(*a),
            (Arguments::AB(_, b), 1) => Some(*b),
            (Arguments::ABC(a, _, _), 0) => Some(*a),
            (Arguments::ABC(_, b, _), 1) => Some(*b),
            (Arguments::ABC(_, _, c), 2) => Some(*c),
            (Arguments::ABCD(a, _, _, _), 0) => Some(*a),
            (Arguments::ABCD(_, b, _, _), 1) => Some(*b),
            (Arguments::ABCD(_, _, c, _), 2) => Some(*c),
            (Arguments::ABCD(_, _, _, d), 3) => Some(*d),
            (Arguments::ABCDE(a, _, _, _, _), 0) => Some(*a),
            (Arguments::ABCDE(_, b, _, _, _), 1) => Some(*b),
            (Arguments::ABCDE(_, _, c, _, _), 2) => Some(*c),
            (Arguments::ABCDE(_, _, _, d, _), 3) => Some(*d),
            (Arguments::ABCDE(_, _, _, _, e), 4) => Some(*e),
            (Arguments::ABCDEF(a, _, _, _, _, _), 0) => Some(*a),
            (Arguments::ABCDEF(_, b, _, _, _, _), 1) => Some(*b),
            (Arguments::ABCDEF(_, _, c, _, _, _), 2) => Some(*c),
            (Arguments::ABCDEF(_, _, _, d, _, _), 3) => Some(*d),
            (Arguments::ABCDEF(_, _, _, _, e, _), 4) => Some(*e),
            (Arguments::ABCDEF(_, _, _, _, _, f), 5) => Some(*f),
            _ => None,
        }
    }

    /// The kinds of the arguments, as a parameter list.
    pub fn shape(&self) -> (p: Params)
        ensures
            p.kinds() == kinds_of(self.values()),
    {
        let p = match self {
            Arguments::Nullary => Params::Nullary,
            Arguments::A(a) => Params::A(a.kind()),
            Arguments::AB(a, b) => Params::AB(a.kind(), b.kind()),
            Arguments::ABC(a, b, c) => Params::ABC(a.kind(), b.kind(), c.kind()),
            Arguments::ABCD(a, b, c, d) => Params::ABCD(a.kind(), b.kind(), c.kind(), d.kind()),
            Arguments::ABCDE(a, b, c, d, e) => Params::ABCDE(
                a.kind(),
                b.kind(),
                c.kind(),
                d.kind(),
                e.kind(),
            ),
            Arguments::ABCDEF(a, b, c, d, e, f) => Params::ABCDEF(
                a.kind(),
                b.kind(),
                c.kind(),
                d.kind(),
                e.kind(),
                f.kind(),
            ),
        };
        assert(p.kinds() =~= kinds_of(self.values()));
        p
    }

    /// Whether the arguments have exactly the kinds that `params` lists.
    pub fn conforms_to(&self, params: &Params) -> (r: bool)
        ensures
            r == self.conforms(*params),
    {
        let shape = self.shape();
        proof {
            lemma_kinds_determine_params(shape, *params);
        }
        shape == *params
    }
}

/// Two parameter lists with the same kinds in the same order are the same
/// list.
pub proof fn lemma_kinds_determine_params(p: Params, q: Params)
    ensures
        p.kinds() == q.kinds() <==> p == q,
{
    if p.kinds() == q.kinds() {
        let a = p.kinds();
        let b = q.kinds();
        assert(a.len() == b.len());
        if a.len() > 0 {
            assert(a[0] == b[0]);
        }
        if a.len() > 1 {
            assert(a[1] == b[1]);
        }
        if a.len() > 2 {
            assert(a[2] == b[2]);
        }
        if a.len() > 3 {
            assert(a[3] == b[3]);
        }
        if a.len() > 4 {
            assert(a[4] == b[4]);
        }
        if a.len() > 5 {
            assert(a[5] == b[5]);
        }
    }
}

/// The record of one intercepted call: the hook that caught it and the
/// argument values as the native caller passed them. Stages read it; nothing
/// changes it after the call was caught.
#[derive(Clone, Copy, Debug, PartialEq, Eq, Structural)]
pub struct InvocationRecord {
    pub hook: u64,
    pub args: Arguments,
}

impl InvocationRecord {
    /// The record of a call to `hook` with `args`.
    pub fn new(hook: u64, args: Arguments) -> (r: InvocationRecord)
        ensures
            r.hook == hook,
            r.args == args,
    {
        InvocationRecord { hook, args }
    }

    /// The argument with index `i`, counted from 0, if the call has one.
    pub fn arg(&self, i: usize) -> (v: Option<Value>)
        ensures
            v == (if i < self.args.values().len() {
                Some(self.args.values()[i as int])
            } else {
                None
            }),
    {
        self.args.get(i)
    }
}

/// The slot that holds the value which an intercepted call will return.
/// Every call has its own; it starts at the zero value of the return kind.
#[derive(Clone, Copy, Debug, PartialEq, Eq, Structural)]
pub struct OutputSlot {
    pub hook: u64,
    pub ret: Value,
}

impl OutputSlot {
    /// The slot of a call to `hook` that returns a value of `kind`, holding
    /// the zero value.
    pub open spec fn zero_of(hook: u64, kind: ValueKind) -> OutputSlot {
        OutputSlot { hook, ret: Value::zero_of(kind) }
    }

    /// The slot of a call to `hook` that returns a value of `kind`, holding
    /// the zero value.
    pub fn zero(hook: u64, kind: ValueKind) -> (s: OutputSlot)
        ensures
            s == OutputSlot::zero_of(hook, kind),
            s.ret.kind_of() == kind,
    {
        OutputSlot { hook, ret: Value::zero(kind) }
    }

    /// Stores `value` if it has the kind that the slot holds, and says
    /// whether it did. A value of another kind leaves the slot as it was.
    pub fn set(&mut self, value: Value) -> (stored: bool)
        ensures
            stored == (value.kind_of() == old(self).ret.kind_of()),
            final(self).hook == old(self).hook,
            final(self).ret == (if stored {
                value
            } else {
                old(self).ret
            }),
    {
        if value.kind() == self.ret.kind() {
            self.ret = value;
            true
        } else {
            false
        }
    }
}

} // verus!
