//! What the generated functions return, on values: `Self::is_default__f(v)`
//! is `v == &Self::default().f`, `x.is_default()` is `x == Self::default()`,
//! and the generated `Serialize` impl writes the fields that differ from the
//! default (and those marked `skip`), in declared order.

use vstd::prelude::*;
use crate::expand::{Expansion, Helper, SerField, SerializeImpl};
use crate::value::{field_of, eq_value, lemma_view_values, view_value, view_values, Value, ValueView};

verus! {

/// The fields of a struct value.
pub open spec fn record_fields(x: ValueView) -> Option<Seq<ValueView>> {
    match x {
        ValueView::Record(_, fs) => Some(fs),
        _ => None,
    }
}

/// `k` is the first helper called `name`.
pub open spec fn first_named(hs: Seq<Helper>, name: Seq<char>, k: int) -> bool {
    &&& 0 <= k < hs.len()
    &&& hs[k].fn_name@ == name
    &&& forall|j: int| 0 <= j < k ==> (#[trigger] hs[j]).fn_name@ != name
}

/// What `Self::<name>(v)` returns for a type whose `Self::default()` is
/// `d`: `None` when no helper of that name is generated (or `d` has no such
/// field), else whether `v` equals that field of `d`.
pub open spec fn helper_result(e: Expansion, name: Seq<char>, d: ValueView, v: ValueView) -> Option<bool> {
    if exists|k: int| first_named(e.helpers@, name, k) {
        let k = choose|k: int| first_named(e.helpers@, name, k);
        match field_of(d, e.helpers@[k].index as int) {
            Some(f) => Some(v == f),
            None => None,
        }
    } else {
        None
    }
}

/// What `x.is_default()` returns for a type whose `Self::default()` is `d`:
/// `None` when it is not generated.
pub open spec fn is_default_result(e: Expansion, d: ValueView, x: ValueView) -> Option<bool> {
    if e.is_default_method {
        Some(x == d)
    } else {
        None
    }
}

/// The indices below `n` of the fields that the generated `Serialize` impl
/// writes: those without a helper (marked `skip`) and those that differ from
/// the default.
pub open spec fn written(sfs: Seq<SerField>, d: Seq<ValueView>, x: Seq<ValueView>, n: int) -> Seq<int>
    decreases n,
{
    if n <= 0 {
        Seq::empty()
    } else if sfs[n - 1].helper is None || x[n - 1] != d[n - 1] {
        written(sfs, d, x, n - 1).push(n - 1)
    } else {
        written(sfs, d, x, n - 1)
    }
}

/// The indices `0..n`.
pub open spec fn all_indices(n: nat) -> Seq<int> {
    Seq::new(n, |i: int| i)
}

/// The fields, by index and in order, that the generated `Serialize` impl
/// writes for `x` when `Self::default()` is `d`; `None` when no impl is
/// generated or `x` (or, for a struct with named fields, `d`) is not a
/// struct value with the type's number of fields.
pub open spec fn written_fields(e: Expansion, d: ValueView, x: ValueView) -> Option<Seq<int>> {
    match e.serialize {
        Some(SerializeImpl::Struct(sfs)) => match (record_fields(d), record_fields(x)) {
            (Some(df), Some(xf)) => if df.len() == sfs@.len() && xf.len() == sfs@.len() {
                Some(written(sfs@, df, xf, sfs@.len() as int))
            } else {
                None
            },
            _ => None,
        },
        Some(SerializeImpl::Tuple(tys)) => match record_fields(x) {
            Some(xf) => if xf.len() == tys@.len() {
                Some(all_indices(tys@.len()))
            } else {
                None
            },
            None => None,
        },
        Some(SerializeImpl::UnitStruct) => match record_fields(x) {
            Some(xf) => if xf.len() == 0 {
                Some(Seq::empty())
            } else {
                None
            },
            None => None,
        },
        None => None,
    }
}

/// The fields of a struct value, or `None`.
fn fields_of(x: &Value) -> (r: Option<&Vec<Value>>)
    ensures
        match r {
            Some(fs) => record_fields(x@) == Some(view_values(fs@)),
            None => record_fields(x@) is None,
        },
{
    match x {
        Value::Record(_, fs) => Some(fs),
        _ => None,
    }
}

impl Expansion {
    /// Calls the generated `Self::<name>(v)` for a type whose
    /// `Self::default()` is `default`.
    pub fn call_helper(&self, name: &str, default: &Value, v: &Value) -> (r: Option<bool>)
        ensures
            r == helper_result(*self, name@, default@, v@),
    {
        let wanted = String::from_str(name);
        let mut k: usize = 0;
        while k < self.helpers.len()
            invariant
                wanted@ == name@,
                k <= self.helpers@.len(),
                forall|j: int| 0 <= j < k ==> (#[trigger] self.helpers@[j]).fn_name@ != name@,
            decreases self.helpers@.len() - k,
        {
            if self.helpers[k].fn_name.eq(&wanted) {
                let idx = self.helpers[k].index;
                proof {
                    assert(first_named(self.helpers@, name@, k as int));
                    let c = choose|c: int| first_named(self.helpers@, name@, c);
                    assert(c == k as int) by {
                        if c < k as int {
                            assert(self.helpers@[c].fn_name@ != name@);
                        }
                        if (k as int) < c {
                            assert(self.helpers@[k as int].fn_name@ != name@);
                        }
                    }
                }
                return match fields_of(default) {
                    Some(fs) => {
                        proof {
                            lemma_view_values(fs@);
                        }
                        if idx < fs.len() {
                            Some(eq_value(v, &fs[idx]))
                        } else {
                            None
                        }
                    },
                    None => None,
                };
            }
            k = k + 1;
        }
        None
    }

    /// Calls the generated `x.is_default()` for a type whose
    /// `Self::default()` is `default`.
    pub fn call_is_default(&self, default: &Value, x: &Value) -> (r: Option<bool>)
        ensures
            r == is_default_result(*self, default@, x@),
    {
        if self.is_default_method {
            Some(eq_value(x, default))
        } else {
            None
        }
    }

    /// The fields, by index and in order, that the generated `Serialize`
    /// impl writes for `x` when `Self::default()` is `default`.
    pub fn fields_written(&self, default: &Value, x: &Value) -> (r: Option<Vec<usize>>)
        ensures
            match r {
                Some(ix) => written_fields(*self, default@, x@) == Some(
                    ix@.map_values(|i: usize| i as int),
                ),
                None => written_fields(*self, default@, x@) is None,
            },
    {
        match &self.serialize {
            None => None,
            Some(SerializeImpl::UnitStruct) => match fields_of(x) {
                Some(xf) => {
                    proof {
                        lemma_view_values(xf@);
                    }
                    if xf.len() == 0 {
                        let r: Vec<usize> = Vec::new();
                        assert(r@.map_values(|i: usize| i as int) =~= Seq::<int>::empty());
                        Some(r)
                    } else {
                        None
                    }
                },
                None => None,
            },
            Some(SerializeImpl::Tuple(tys)) => match fields_of(x) {
                Some(xf) => {
                    proof {
                        lemma_view_values(xf@);
                    }
                    if xf.len() == tys.len() {
                        let mut r: Vec<usize> = Vec::new();
                        let mut i: usize = 0;
                        while i < tys.len()
                            invariant
                                i <= tys@.len(),
                                r@.len() == i,
                                forall|k: int| 0 <= k < i ==> #[trigger] r@[k] == k,
                            decreases tys@.len() - i,
                        {
                            r.push(i);
                            i = i + 1;
                        }
                        assert(r@.map_values(|i: usize| i as int) =~= all_indices(tys@.len()));
                        Some(r)
                    } else {
                        None
                    }
                },
                None => None,
            },
            Some(SerializeImpl::Struct(sfs)) => match (fields_of(default), fields_of(x)) {
                (Some(df), Some(xf)) => {
                    proof {
                        lemma_view_values(df@);
                        lemma_view_values(xf@);
                    }
                    if df.len() == sfs.len() && xf.len() == sfs.len() {
                        let ghost dv = view_values(df@);
                        let ghost xv = view_values(xf@);
                        let mut r: Vec<usize> = Vec::new();
                        let mut i: usize = 0;
                        while i < sfs.len()
                            invariant
                                df@.len() == sfs@.len(),
                                xf@.len() == sfs@.len(),
                                dv == view_values(df@),
                                xv == view_values(xf@),
                                forall|k: int| 0 <= k < df@.len() ==> #[trigger] dv[k] == view_value(df@[k]),
                                forall|k: int| 0 <= k < xf@.len() ==> #[trigger] xv[k] == view_value(xf@[k]),
                                i <= sfs@.len(),
                                r@.map_values(|i: usize| i as int) == written(sfs@, dv, xv, i as int),
                            decreases sfs@.len() - i,
                        {
                            let write = match &sfs[i].helper {
                                None => true,
                                Some(_) => !eq_value(&xf[i], &df[i]),
                            };
                            if write {
                                r.push(i);
                            }
                            assert(r@.map_values(|i: usize| i as int) =~= written(sfs@, dv, xv, i as int + 1));
                            i = i + 1;
                        }
                        Some(r)
                    } else {
                        None
                    }
                },
                _ => None,
            },
        }
    }
}

} // verus!
