//! Values of the types that the derive is applied to, so that what the
//! generated functions return can be stated: integers, booleans, strings,
//! options, vectors, and structs or enum variants as a name with fields.

use vstd::prelude::*;

verus! {

/// A value of a field or of a whole type.
#[derive(Debug)]
pub enum Value {
    Int(i128),
    Bool(bool),
    Text(String),
    /// `None`.
    Absent,
    /// `Some(v)`.
    Present(Box<Value>),
    List(Vec<Value>),
    /// A struct or an enum variant: its name and its fields in order
    /// (none for a unit struct or unit variant).
    Record(String, Vec<Value>),
}

/// The mathematical picture of a [`Value`]; two values compare equal
/// (`PartialEq` of the types they stand for) exactly when their views are
/// equal.
pub enum ValueView {
    Int(int),
    Bool(bool),
    Text(Seq<char>),
    Absent,
    Present(Box<ValueView>),
    List(Seq<ValueView>),
    Record(Seq<char>, Seq<ValueView>),
}

/// The view of a value.
pub open spec fn view_value(v: Value) -> ValueView
    decreases v,
{
    match v {
        Value::Int(i) => ValueView::Int(i as int),
        Value::Bool(b) => ValueView::Bool(b),
        Value::Text(s) => ValueView::Text(s@),
        Value::Absent => ValueView::Absent,
        Value::Present(b) => ValueView::Present(Box::new(view_value(*b))),
        Value::List(vs) => ValueView::List(view_values(vs@)),
        Value::Record(n, fs) => ValueView::Record(n@, view_values(fs@)),
    }
}

/// The views of a sequence of values, one for one.
pub open spec fn view_values(vs: Seq<Value>) -> Seq<ValueView>
    decreases vs,
{
    if vs.len() == 0 {
        Seq::empty()
    } else {
        view_values(vs.drop_last()).push(view_value(vs.last()))
    }
}

impl View for Value {
    type V = ValueView;

    open spec fn view(&self) -> ValueView {
        view_value(*self)
    }
}

/// `view_values` is the element-wise view.
pub proof fn lemma_view_values(vs: Seq<Value>)
    ensures
        view_values(vs).len() == vs.len(),
        forall|k: int| 0 <= k < vs.len() ==> #[trigger] view_values(vs)[k] == view_value(vs[k]),
    decreases vs.len(),
{
    if vs.len() > 0 {
        lemma_view_values(vs.drop_last());
    }
}

impl Value {
    /// Field `i` of a struct value, if it has one.
    pub fn field(&self, i: usize) -> (r: Option<&Value>)
        ensures
            match r {
                Some(f) => field_of(self@, i as int) == Some(f@),
                None => field_of(self@, i as int) is None,
            },
    {
        match self {
            Value::Record(_, fs) => {
                proof {
                    lemma_view_values(fs@);
                }
                if i < fs.len() {
                    Some(&fs[i])
                } else {
                    None
                }
            },
            _ => None,
        }
    }
}

/// Field `i` of a struct value, if it has one.
pub open spec fn field_of(d: ValueView, i: int) -> Option<ValueView> {
    match d {
        ValueView::Record(_, fs) => if 0 <= i < fs.len() {
            Some(fs[i])
        } else {
            None
        },
        _ => None,
    }
}

/// Whether two values compare equal.
pub fn eq_value(a: &Value, b: &Value) -> (r: bool)
    ensures
        r == (a@ == b@),
    decreases a,
{
    match (a, b) {
        (Value::Int(x), Value::Int(y)) => *x == *y,
        (Value::Bool(x), Value::Bool(y)) => *x == *y,
        (Value::Text(x), Value::Text(y)) => x.eq(y),
        (Value::Absent, Value::Absent) => true,
        (Value::Present(x), Value::Present(y)) => eq_value(&**x, &**y),
        (Value::List(xs), Value::List(ys)) => eq_values(xs, ys),
        (Value::Record(m, xs), Value::Record(n, ys)) => m.eq(n) && eq_values(xs, ys),
        _ => false,
    }
}

/// Whether two sequences of values compare equal, element by element.
pub fn eq_values(xs: &Vec<Value>, ys: &Vec<Value>) -> (r: bool)
    ensures
        r == (view_values(xs@) == view_values(ys@)),
    decreases xs,
{
    proof {
        lemma_view_values(xs@);
        lemma_view_values(ys@);
    }
    if xs.len() != ys.len() {
        return false;
    }
    let mut i: usize = 0;
    while i < xs.len()
        invariant
            xs@.len() == ys@.len(),
            i <= xs@.len(),
            view_values(xs@).len() == xs@.len(),
            view_values(ys@).len() == ys@.len(),
            forall|k: int| 0 <= k < xs@.len() ==> #[trigger] view_values(xs@)[k] == view_value(xs@[k]),
            forall|k: int| 0 <= k < ys@.len() ==> #[trigger] view_values(ys@)[k] == view_value(ys@[k]),
            forall|k: int| 0 <= k < i ==> view_value(#[trigger] xs@[k]) == view_value(ys@[k]),
        decreases xs@.len() - i,
    {
        if !eq_value(&xs[i], &ys[i]) {
            assert(view_values(xs@)[i as int] != view_values(ys@)[i as int]);
            return false;
        }
        i = i + 1;
    }
    assert(view_values(xs@) =~= view_values(ys@));
    true
}

} // verus!
