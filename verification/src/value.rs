//! The runtime value type and its mathematical model.

use vstd::prelude::*;

verus! {

/// A JSON-shaped runtime value: the universal result type of evaluation and
/// the only shape context entries and function arguments may take.
///
/// A number is stored as the bit pattern of an IEEE-754 binary64 value, so
/// that NaN and the infinities can be held and reasoned about exactly.
/// An object is a sequence of key/value pairs with unique keys; lookup takes
/// the first matching key, so insertion order is irrelevant to semantics.
#[derive(Debug, PartialEq)]
pub enum Value {
    Null,
    Bool(bool),
    Number(u64),
    String(String),
    Array(Vec<Value>),
    Object(Vec<(String, Value)>),
}

/// The mathematical model of a `Value`.
pub enum Vm {
    Null,
    Bool(bool),
    Num(u64),
    Str(Seq<char>),
    Arr(Seq<Vm>),
    Obj(Seq<(Seq<char>, Vm)>),
}

/// The model of a `Value`, element by element.
pub open spec fn vm_of(v: Value) -> Vm
    decreases v,
    via vm_of_decreases
{
    match v {
        Value::Null => Vm::Null,
        Value::Bool(b) => Vm::Bool(b),
        Value::Number(bits) => Vm::Num(bits),
        Value::String(s) => Vm::Str(s@),
        Value::Array(items) => Vm::Arr(vms_of(items@)),
        Value::Object(pairs) => Vm::Obj(pair_vms_of(pairs@)),
    }
}

/// The models of a sequence of values, in order.
pub open spec fn vms_of(s: Seq<Value>) -> Seq<Vm>
    decreases s,
{
    if s.len() == 0 {
        Seq::empty()
    } else {
        seq![vm_of(s[0])] + vms_of(s.drop_first())
    }
}

/// The models of a sequence of key/value pairs, in order.
pub open spec fn pair_vms_of(s: Seq<(String, Value)>) -> Seq<(Seq<char>, Vm)>
    decreases s,
{
    if s.len() == 0 {
        Seq::empty()
    } else {
        seq![(s[0].0@, vm_of(s[0].1))] + pair_vms_of(s.drop_first())
    }
}

#[via_fn]
proof fn vm_of_decreases(v: Value) {
    match v {
        Value::Array(items) => {
            assert(decreases_to!(v => items));
            vstd::std_specs::vec::axiom_vec_decreases_to_view(items);
        },
        Value::Object(pairs) => {
            assert(decreases_to!(v => pairs));
            vstd::std_specs::vec::axiom_vec_decreases_to_view(pairs);
        },
        _ => {},
    }
}

impl View for Value {
    type V = Vm;

    open spec fn view(&self) -> Vm {
        vm_of(*self)
    }
}

pub broadcast proof fn lemma_vms_of_len(s: Seq<Value>)
    ensures
        #[trigger] vms_of(s).len() == s.len(),
    decreases s,
{
    broadcast use vstd::seq::axiom_seq_subrange_decreases;

    if s.len() != 0 {
        lemma_vms_of_len(s.drop_first());
    }
}

pub broadcast proof fn lemma_vms_of_index(s: Seq<Value>, i: int)
    requires
        0 <= i < s.len(),
    ensures
        #[trigger] vms_of(s)[i] == vm_of(s[i]),
    decreases s,
{
    broadcast use vstd::seq::axiom_seq_subrange_decreases;

    lemma_vms_of_len(s);
    if i > 0 {
        lemma_vms_of_index(s.drop_first(), i - 1);
    }
}

pub broadcast proof fn lemma_pair_vms_of_len(s: Seq<(String, Value)>)
    ensures
        #[trigger] pair_vms_of(s).len() == s.len(),
    decreases s,
{
    broadcast use vstd::seq::axiom_seq_subrange_decreases;

    if s.len() != 0 {
        lemma_pair_vms_of_len(s.drop_first());
    }
}

pub broadcast proof fn lemma_pair_vms_of_index(s: Seq<(String, Value)>, i: int)
    requires
        0 <= i < s.len(),
    ensures
        #[trigger] pair_vms_of(s)[i] == (s[i].0@, vm_of(s[i].1)),
    decreases s,
{
    broadcast use vstd::seq::axiom_seq_subrange_decreases;

    lemma_pair_vms_of_len(s);
    if i > 0 {
        lemma_pair_vms_of_index(s.drop_first(), i - 1);
    }
}

pub proof fn lemma_vms_of_push(s: Seq<Value>, v: Value)
    ensures
        vms_of(s.push(v)) == vms_of(s).push(vm_of(v)),
    decreases s.len(),
{
    if s.len() == 0 {
        let t = s.push(v).drop_first();
        assert(s.push(v).len() == 1);
        assert(s.push(v)[0] == v);
        assert(t =~= Seq::<Value>::empty());
        assert(vms_of(t) == Seq::<Vm>::empty());
        assert(vms_of(s.push(v)) == seq![vm_of(v)] + vms_of(t));
        assert(vms_of(s) == Seq::<Vm>::empty());
        assert(vms_of(s.push(v)) =~= vms_of(s).push(vm_of(v)));
    } else {
        let t = s.drop_first().push(v);
        assert(s.push(v).len() == s.len() + 1);
        assert(s.push(v)[0] == s[0]);
        assert(s.push(v).drop_first() =~= t);
        lemma_vms_of_push(s.drop_first(), v);
        assert(vms_of(s.push(v)) == seq![vm_of(s[0])] + vms_of(t));
        assert(vms_of(s) == seq![vm_of(s[0])] + vms_of(s.drop_first()));
        assert(vms_of(s.push(v)) =~= vms_of(s).push(vm_of(v)));
    }
}

/// A deep copy of a value; the copy has the same model.
pub fn value_clone(v: &Value) -> (r: Value)
    ensures
        r@ == v@,
    decreases v,
{
    broadcast use vstd::std_specs::vec::axiom_vec_index_decreases, vstd::std_specs::vec::group_vec_axioms;

    match v {
        Value::Null => Value::Null,
        Value::Bool(b) => Value::Bool(*b),
        Value::Number(bits) => Value::Number(*bits),
        Value::String(s) => Value::String(s.clone()),
        Value::Array(items) => {
            let mut out: Vec<Value> = Vec::new();
            let mut i: usize = 0;
            while i < items.len()
                invariant
                    decreases_to!(*v => *items),
                    i <= items.len(),
                    out@.len() == i,
                    forall|j: int| 0 <= j < i ==> out@[j]@ == items@[j]@,
                decreases items.len() - i,
            {
                proof {
                    assert(decreases_to!(*v => *items));
                    vstd::std_specs::vec::axiom_vec_index_decreases(*items, i as int);
                    assert(decreases_to!(*v => items@[i as int]));
                }
                let c = value_clone(&items[i]);
                out.push(c);
                i = i + 1;
            }
            proof {
                lemma_vms_of_len(out@);
                lemma_vms_of_len(items@);
                assert forall|j: int| 0 <= j < items@.len() implies vms_of(out@)[j] == vms_of(
                    items@,
                )[j] by {
                    lemma_vms_of_index(out@, j);
                    lemma_vms_of_index(items@, j);
                }
                assert(vms_of(out@) =~= vms_of(items@));
            }
            Value::Array(out)
        },
        Value::Object(pairs) => {
            let mut out: Vec<(String, Value)> = Vec::new();
            let mut i: usize = 0;
            while i < pairs.len()
                invariant
                    decreases_to!(*v => *pairs),
                    i <= pairs.len(),
                    out@.len() == i,
                    forall|j: int| 0 <= j < i ==> out@[j].0@ == pairs@[j].0@ && out@[j].1@
                        == pairs@[j].1@,
                decreases pairs.len() - i,
            {
                proof {
                    assert(decreases_to!(*v => *pairs));
                    vstd::std_specs::vec::axiom_vec_index_decreases(*pairs, i as int);
                    assert(decreases_to!(pairs@[i as int] => pairs@[i as int].1));
                    assert(decreases_to!(*v => pairs@[i as int].1));
                }
                let k = pairs[i].0.clone();
                let c = value_clone(&pairs[i].1);
                out.push((k, c));
                i = i + 1;
            }
            proof {
                lemma_pair_vms_of_len(out@);
                lemma_pair_vms_of_len(pairs@);
                assert forall|j: int| 0 <= j < pairs@.len() implies pair_vms_of(out@)[j]
                    == pair_vms_of(pairs@)[j] by {
                    lemma_pair_vms_of_index(out@, j);
                    lemma_pair_vms_of_index(pairs@, j);
                }
                assert(pair_vms_of(out@) =~= pair_vms_of(pairs@));
            }
            Value::Object(out)
        },
    }
}

} // verus!
