//! The functions of the editor's API, as its description lists them.

use crate::genapi::names::{type_of_name, value_to_type};
use crate::genapi::types::{Type, TypeView};
use crate::text::str_eq;
use crate::value::{entry_views, views, Value, ValueView};
use vstd::prelude::*;
use vstd::string::*;

verus! {

/// The name and type of a parameter of a function.
#[derive(Debug, PartialEq)]
pub struct Parameter {
    pub name: String,
    pub parameter_type: Type,
}

/// The mathematical content of a [`Parameter`].
pub struct ParameterView {
    pub name: Seq<char>,
    pub parameter_type: TypeView,
}

impl View for Parameter {
    type V = ParameterView;

    open spec fn view(&self) -> ParameterView {
        ParameterView { name: self.name@, parameter_type: self.parameter_type@ }
    }
}

impl Clone for Parameter {
    fn clone(&self) -> (r: Parameter)
        ensures
            r@ == self@,
    {
        Parameter { name: self.name.clone(), parameter_type: self.parameter_type.clone() }
    }
}

/// What is needed of a function of the API to write its method.
#[derive(Debug, PartialEq)]
pub struct Function {
    pub name: String,
    pub since: Option<u64>,
    pub deprecated_since: Option<u64>,
    pub parameters: Vec<Parameter>,
    pub return_type: Type,
    pub method: bool,
}

/// The mathematical content of a [`Function`].
#[verifier::ext_equal]
pub struct FunctionView {
    pub name: Seq<char>,
    pub since: Option<u64>,
    pub deprecated_since: Option<u64>,
    pub parameters: Seq<ParameterView>,
    pub return_type: TypeView,
    pub method: bool,
}

/// The contents of a sequence of parameters.
pub open spec fn parameter_views(parameters: Seq<Parameter>) -> Seq<ParameterView> {
    Seq::new(parameters.len(), |i: int| parameters[i]@)
}

/// The contents of a sequence of functions.
pub open spec fn function_views(functions: Seq<Function>) -> Seq<FunctionView> {
    Seq::new(functions.len(), |i: int| functions[i]@)
}

impl View for Function {
    type V = FunctionView;

    open spec fn view(&self) -> FunctionView {
        FunctionView {
            name: self.name@,
            since: self.since,
            deprecated_since: self.deprecated_since,
            parameters: parameter_views(self.parameters@),
            return_type: self.return_type@,
            method: self.method,
        }
    }
}

/// A copy of `parameters`, item by item.
pub fn clone_parameters(parameters: &Vec<Parameter>) -> (r: Vec<Parameter>)
    ensures
        parameter_views(r@) == parameter_views(parameters@),
{
    let mut out: Vec<Parameter> = Vec::new();
    let mut i: usize = 0;
    while i < parameters.len()
        invariant
            i <= parameters.len(),
            out@.len() == i,
            forall|j: int| 0 <= j < i ==> out@[j]@ == parameters@[j]@,
        decreases parameters.len() - i,
    {
        out.push(parameters[i].clone());
        i += 1;
    }
    assert(parameter_views(out@) =~= parameter_views(parameters@));
    out
}

impl Clone for Function {
    fn clone(&self) -> (r: Function)
        ensures
            r@ == self@,
    {
        Function {
            name: self.name.clone(),
            since: self.since,
            deprecated_since: self.deprecated_since,
            parameters: clone_parameters(&self.parameters),
            return_type: self.return_type.clone(),
            method: self.method,
        }
    }
}

impl FunctionView {
    /// The function of which nothing has been read yet.
    pub open spec fn blank() -> FunctionView {
        FunctionView {
            name: Seq::empty(),
            since: None,
            deprecated_since: None,
            parameters: Seq::empty(),
            return_type: TypeView::UNIT,
            method: false,
        }
    }

    /// The function after the entry `key`, `val` of its description was
    /// read; `None` where the entry is malformed.
    ///
    /// A key must be a string. Of the keys that matter, `name` and
    /// `return_type` want a string, `since` and `deprecated_since` a
    /// number that a `u64` holds, `parameters` an array of parameters and
    /// `method` a boolean. Any other key is passed over.
    pub open spec fn with_entry(self, key: ValueView, val: ValueView) -> Option<FunctionView> {
        match key.as_str() {
            None => None,
            Some(k) => if k == "name"@ {
                match val.as_str() {
                    Some(name) => Some(FunctionView { name, ..self }),
                    None => None,
                }
            } else if k == "since"@ {
                match val.as_u64() {
                    Some(n) => Some(FunctionView { since: Some(n), ..self }),
                    None => None,
                }
            } else if k == "deprecated_since"@ {
                match val.as_u64() {
                    Some(n) => Some(FunctionView { deprecated_since: Some(n), ..self }),
                    None => None,
                }
            } else if k == "parameters"@ {
                match val.as_array() {
                    Some(items) => match parameters_of(items) {
                        Some(more) => Some(
                            FunctionView { parameters: self.parameters + more, ..self },
                        ),
                        None => None,
                    },
                    None => None,
                }
            } else if k == "return_type"@ {
                match val.as_str() {
                    Some(name) => match type_of_name(name) {
                        Some(return_type) => Some(FunctionView { return_type, ..self }),
                        None => None,
                    },
                    None => None,
                }
            } else if k == "method"@ {
                match val.as_bool() {
                    Some(method) => Some(FunctionView { method, ..self }),
                    None => None,
                }
            } else {
                Some(self)
            },
        }
    }
}

/// The parameter that `item` describes: an array of the name of its type
/// and its own name, both strings.
pub open spec fn parameter_of(item: ValueView) -> Option<ParameterView> {
    match (item.at(1).as_str(), item.at(0).as_str()) {
        (Some(name), Some(kind)) => match type_of_name(kind) {
            Some(parameter_type) => Some(ParameterView { name, parameter_type }),
            None => None,
        },
        _ => None,
    }
}

/// The parameters that `items` describe, in their order; `None` where one
/// of them is malformed.
pub open spec fn parameters_of(items: Seq<ValueView>) -> Option<Seq<ParameterView>>
    decreases items.len(),
{
    if items.len() == 0 {
        Some(Seq::empty())
    } else {
        match (parameters_of(items.drop_last()), parameter_of(items.last())) {
            (Some(before), Some(last)) => Some(before.push(last)),
            _ => None,
        }
    }
}

/// `start` after the entries of a description were read in their order;
/// `None` where one of them is malformed.
pub open spec fn with_entries(
    start: FunctionView,
    entries: Seq<(ValueView, ValueView)>,
) -> Option<FunctionView>
    decreases entries.len(),
{
    if entries.len() == 0 {
        Some(start)
    } else {
        match with_entries(start, entries.drop_last()) {
            Some(before) => before.with_entry(entries.last().0, entries.last().1),
            None => None,
        }
    }
}

/// The function that `value` describes: a dictionary, read entry by
/// entry, where a later entry of the same key overrules an earlier one
/// and parameters add up.
pub open spec fn function_of(value: ValueView) -> Option<FunctionView> {
    match value {
        ValueView::Dictionary(entries) => with_entries(FunctionView::blank(), entries),
        _ => None,
    }
}

/// The functions that `items` describe, in their order; `None` where one
/// of them is malformed.
pub open spec fn functions_among(items: Seq<ValueView>) -> Option<Seq<FunctionView>>
    decreases items.len(),
{
    if items.len() == 0 {
        Some(Seq::empty())
    } else {
        match (functions_among(items.drop_last()), function_of(items.last())) {
            (Some(before), Some(last)) => Some(before.push(last)),
            _ => None,
        }
    }
}

/// The functions that `value` lists: an array of descriptions.
pub open spec fn functions_of(value: ValueView) -> Option<Seq<FunctionView>> {
    match value {
        ValueView::Array(items) => functions_among(items),
        _ => None,
    }
}

/// Where the beginning of `items` holds a malformed parameter, so does
/// `items`.
proof fn lemma_parameters_fail(items: Seq<ValueView>, k: int)
    requires
        0 <= k <= items.len(),
        parameters_of(items.take(k)) is None,
    ensures
        parameters_of(items) is None,
    decreases items.len(),
{
    if k == items.len() {
        assert(items.take(k) =~= items);
    } else {
        assert(items.drop_last().take(k) =~= items.take(k));
        lemma_parameters_fail(items.drop_last(), k);
    }
}

/// Where the beginning of `entries` holds a malformed entry, so does
/// `entries`.
proof fn lemma_entries_fail(start: FunctionView, entries: Seq<(ValueView, ValueView)>, k: int)
    requires
        0 <= k <= entries.len(),
        with_entries(start, entries.take(k)) is None,
    ensures
        with_entries(start, entries) is None,
    decreases entries.len(),
{
    if k == entries.len() {
        assert(entries.take(k) =~= entries);
    } else {
        assert(entries.drop_last().take(k) =~= entries.take(k));
        lemma_entries_fail(start, entries.drop_last(), k);
    }
}

/// Where the beginning of `items` holds a malformed function, so does
/// `items`.
proof fn lemma_functions_fail(items: Seq<ValueView>, k: int)
    requires
        0 <= k <= items.len(),
        functions_among(items.take(k)) is None,
    ensures
        functions_among(items) is None,
    decreases items.len(),
{
    if k == items.len() {
        assert(items.take(k) =~= items);
    } else {
        assert(items.drop_last().take(k) =~= items.take(k));
        lemma_functions_fail(items.drop_last(), k);
    }
}

/// The content of a parameter, if there is one.
pub open spec fn some_parameter_view(p: Option<Parameter>) -> Option<ParameterView> {
    match p {
        Some(p) => Some(p@),
        None => None,
    }
}

/// The content of a function, if there is one.
pub open spec fn some_function_view(f: Option<Function>) -> Option<FunctionView> {
    match f {
        Some(f) => Some(f@),
        None => None,
    }
}

/// The contents of a vector of functions, if there is one.
pub open spec fn some_function_views(fs: Option<Vec<Function>>) -> Option<Seq<FunctionView>> {
    match fs {
        Some(fs) => Some(function_views(fs@)),
        None => None,
    }
}

/// The string at position `index` of the array `item`, if there is one.
fn text_at(item: &Value, index: usize) -> (r: Option<&str>)
    ensures
        match r {
            Some(s) => item@.at(index as int).as_str() == Some(s@),
            None => item@.at(index as int).as_str() is None,
        },
{
    match item.as_array() {
        Some(items) => {
            if index < items.len() {
                items[index].as_str()
            } else {
                None
            }
        },
        None => None,
    }
}

/// Reads the description of one parameter.
fn parameter_from_value(item: &Value) -> (r: Option<Parameter>)
    ensures
        some_parameter_view(r) == parameter_of(item@),
{
    let name = match text_at(item, 1) {
        Some(name) => name,
        None => {
            return None;
        },
    };
    let kind = match text_at(item, 0) {
        Some(kind) => kind,
        None => {
            return None;
        },
    };
    match value_to_type(kind) {
        Some(parameter_type) => Some(Parameter { name: String::from_str(name), parameter_type }),
        None => None,
    }
}

/// Reads the descriptions of parameters and adds them to `parameters`.
/// Returns whether all of them were well-formed.
fn add_parameters(parameters: &mut Vec<Parameter>, items: &Vec<Value>) -> (r: bool)
    ensures
        match parameters_of(views(items@)) {
            Some(more) => r && parameter_views(final(parameters)@) == parameter_views(
                old(parameters)@,
            ) + more,
            None => !r,
        },
{
    let ghost before = parameter_views(parameters@);
    let mut i: usize = 0;
    while i < items.len()
        invariant
            i <= items.len(),
            parameters_of(views(items@).take(i as int)) is Some,
            parameter_views(parameters@) == before + parameters_of(views(items@).take(i as int))->0,
        decreases items.len() - i,
    {
        let ghost sofar = views(items@).take(i as int);
        let ghost next = views(items@).take(i + 1);
        assert(next.drop_last() =~= sofar);
        assert(next.last() == items@[i as int]@);
        match parameter_from_value(&items[i]) {
            Some(parameter) => {
                let ghost old_views = parameter_views(parameters@);
                parameters.push(parameter);
                assert(parameter_views(parameters@) =~= old_views.push(parameter@));
                assert(before + parameters_of(sofar)->0.push(parameter@) =~= (before
                    + parameters_of(sofar)->0).push(parameter@));
            },
            None => {
                proof {
                    lemma_parameters_fail(views(items@), i + 1);
                }
                return false;
            },
        }
        i += 1;
    }
    assert(views(items@).take(i as int) =~= views(items@));
    true
}

impl Function {
    /// Reads the description of one function; `None` where it is
    /// malformed.
    pub fn from_value(value: &Value) -> (r: Option<Function>)
        ensures
            some_function_view(r) == function_of(value@),
    {
        let entries = match value.as_map() {
            Some(entries) => entries,
            None => {
                return None;
            },
        };
        let mut f = Function {
            name: String::new(),
            since: None,
            deprecated_since: None,
            parameters: Vec::new(),
            return_type: Type::UNIT,
            method: false,
        };
        assert(f@ =~= FunctionView::blank());
        let ghost all = entry_views(entries@);
        let mut i: usize = 0;
        while i < entries.len()
            invariant
                i <= entries.len(),
                all == entry_views(entries@),
                value@ == ValueView::Dictionary(all),
                with_entries(FunctionView::blank(), all.take(i as int)) == Some(f@),
            decreases entries.len() - i,
        {
            let ghost sofar = all.take(i as int);
            let ghost next = all.take(i + 1);
            assert(next.drop_last() =~= sofar);
            assert(next.last() == (entries@[i as int].0@, entries@[i as int].1@));
            let ghost before = f@;
            proof {
                if before.with_entry(next.last().0, next.last().1) is None {
                    lemma_entries_fail(FunctionView::blank(), all, i + 1);
                }
            }
            let key = match entries[i].0.as_str() {
                Some(key) => key,
                None => {
                    return None;
                },
            };
            let val = &entries[i].1;
            if str_eq(key, "name") {
                match val.as_str() {
                    Some(name) => {
                        f.name = String::from_str(name);
                    },
                    None => {
                        return None;
                    },
                }
            } else if str_eq(key, "since") {
                match val.as_u64() {
                    Some(n) => {
                        f.since = Some(n);
                    },
                    None => {
                        return None;
                    },
                }
            } else if str_eq(key, "deprecated_since") {
                match val.as_u64() {
                    Some(n) => {
                        f.deprecated_since = Some(n);
                    },
                    None => {
                        return None;
                    },
                }
            } else if str_eq(key, "parameters") {
                match val.as_array() {
                    Some(items) => {
                        if !add_parameters(&mut f.parameters, items) {
                            return None;
                        }
                    },
                    None => {
                        return None;
                    },
                }
            } else if str_eq(key, "return_type") {
                match val.as_str() {
                    Some(name) => match value_to_type(name) {
                        Some(return_type) => {
                            f.return_type = return_type;
                        },
                        None => {
                            return None;
                        },
                    },
                    None => {
                        return None;
                    },
                }
            } else if str_eq(key, "method") {
                match val.as_bool() {
                    Some(method) => {
                        f.method = method;
                    },
                    None => {
                        return None;
                    },
                }
            }
            assert(Some(f@) =~= before.with_entry(next.last().0, next.last().1));
            i += 1;
        }
        assert(all.take(i as int) =~= all);
        Some(f)
    }
}

/// Reads the list of the functions of the API; `None` where it is no
/// array or one of its descriptions is malformed.
pub fn parse_functions(functions: &Value) -> (r: Option<Vec<Function>>)
    ensures
        some_function_views(r) == functions_of(functions@),
{
    let items = match functions.as_array() {
        Some(items) => items,
        None => {
            return None;
        },
    };
    let mut out: Vec<Function> = Vec::new();
    let mut i: usize = 0;
    while i < items.len()
        invariant
            i <= items.len(),
            functions@ == ValueView::Array(views(items@)),
            functions_among(views(items@).take(i as int)) == Some(function_views(out@)),
        decreases items.len() - i,
    {
        let ghost sofar = views(items@).take(i as int);
        let ghost next = views(items@).take(i + 1);
        assert(next.drop_last() =~= sofar);
        assert(next.last() == items@[i as int]@);
        match Function::from_value(&items[i]) {
            Some(f) => {
                let ghost old_views = function_views(out@);
                out.push(f);
                assert(function_views(out@) =~= old_views.push(f@));
            },
            None => {
                proof {
                    lemma_functions_fail(views(items@), i + 1);
                }
                return None;
            },
        }
        i += 1;
    }
    assert(views(items@).take(i as int) =~= views(items@));
    Some(out)
}

} // verus!
