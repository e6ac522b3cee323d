//! The types of the editor's API, and how generated code writes them.

use crate::text::{decimal, decimal_string, join, join_strings, string_views};
use vstd::prelude::*;
use vstd::string::*;

verus! {

/// A type of the editor's API, as the generated code sees it.
#[derive(Debug, PartialEq, Eq)]
pub enum Type {
    UNIT,
    I64,
    F64,
    BOOL,
    STRING,
    VALUE,
    VEC(Box<Type>),
    TUPLE(Vec<Type>),
    BUFFER,
    TABPAGE,
    WINDOW,
}

/// The mathematical content of a [`Type`].
#[verifier::ext_equal]
pub enum TypeView {
    UNIT,
    I64,
    F64,
    BOOL,
    STRING,
    VALUE,
    VEC(Box<TypeView>),
    TUPLE(Seq<TypeView>),
    BUFFER,
    TABPAGE,
    WINDOW,
}

/// The content of `t`.
pub open spec fn type_view(t: Type) -> TypeView
    decreases t,
{
    match t {
        Type::UNIT => TypeView::UNIT,
        Type::I64 => TypeView::I64,
        Type::F64 => TypeView::F64,
        Type::BOOL => TypeView::BOOL,
        Type::STRING => TypeView::STRING,
        Type::VALUE => TypeView::VALUE,
        Type::VEC(item) => TypeView::VEC(Box::new(type_view(*item))),
        Type::TUPLE(items) => TypeView::TUPLE(
            Seq::new(
                items@.len(),
                |i: int|
                    if 0 <= i < items@.len() {
                        type_view(items@[i])
                    } else {
                        TypeView::UNIT
                    },
            ),
        ),
        Type::BUFFER => TypeView::BUFFER,
        Type::TABPAGE => TypeView::TABPAGE,
        Type::WINDOW => TypeView::WINDOW,
    }
}

impl View for Type {
    type V = TypeView;

    open spec fn view(&self) -> TypeView {
        type_view(*self)
    }
}

/// The contents of a sequence of types.
pub open spec fn type_views(items: Seq<Type>) -> Seq<TypeView> {
    Seq::new(items.len(), |i: int| items[i]@)
}

/// A tuple's content is the contents of its items.
pub proof fn lemma_tuple_view(items: Vec<Type>)
    ensures
        Type::TUPLE(items)@ == TypeView::TUPLE(type_views(items@)),
{
    assert(Type::TUPLE(items)@->TUPLE_0 =~= type_views(items@));
}

/// An item of a tuple is smaller than the tuple.
proof fn lemma_item_decreases(t: &Type, i: int)
    requires
        t is TUPLE,
        0 <= i < t->TUPLE_0@.len(),
    ensures
        decreases_to!(t => t->TUPLE_0@[i]),
{
    assert(decreases_to!(t => t->TUPLE_0));
    assert(decreases_to!(t->TUPLE_0 => t->TUPLE_0@[i]));
}

/// How the generated code writes the type `t`.
pub open spec fn type_text(t: TypeView) -> Seq<char>
    decreases t,
{
    match t {
        TypeView::UNIT => "()"@,
        TypeView::I64 => "i64"@,
        TypeView::F64 => "f64"@,
        TypeView::BOOL => "bool"@,
        TypeView::STRING => "String"@,
        TypeView::VALUE => "Value"@,
        TypeView::VEC(item) => "Vec<"@ + type_text(*item) + ">"@,
        TypeView::TUPLE(items) => "("@ + join(type_texts(items), ", "@) + ")"@,
        TypeView::BUFFER => "Buffer"@,
        TypeView::TABPAGE => "Tabpage"@,
        TypeView::WINDOW => "Window"@,
    }
}

/// How the generated code writes each of `items`.
pub open spec fn type_texts(items: Seq<TypeView>) -> Seq<Seq<char>>
    decreases items,
{
    Seq::new(
        items.len(),
        |i: int|
            if 0 <= i < items.len() {
                type_text(items[i])
            } else {
                Seq::empty()
            },
    )
}

/// The name under which item `n` of the array `v` is read.
pub open spec fn item_name(n: nat) -> Seq<char> {
    "v["@ + decimal(n) + "]"@
}

/// The expression by which the generated code reads a value of type `t`
/// out of the variable `var`.
pub open spec fn return_text(var: Seq<char>, t: TypeView) -> Seq<char>
    decreases t,
{
    match t {
        TypeView::I64 => var + ".as_i64().unwrap()"@,
        TypeView::F64 => var + ".as_f64().unwrap()"@,
        TypeView::BOOL => var + ".as_bool().unwrap()"@,
        TypeView::STRING => var + ".as_str().unwrap().to_string()"@,
        TypeView::VALUE => var + ".to_owned()"@,
        TypeView::VEC(item) => var + ".as_array().unwrap().iter().map(|x| "@ + return_text(
            "x"@,
            *item,
        ) + ").collect()"@,
        TypeView::UNIT => "()"@,
        TypeView::BUFFER => "Buffer { data: "@ + var + ".clone(), session: self.session.clone() }"@,
        TypeView::TABPAGE => "Tabpage { data: "@ + var
            + ".clone(), session: self.session.clone() }"@,
        TypeView::WINDOW => "Window { data: "@ + var + ".clone(), session: self.session.clone() }"@,
        TypeView::TUPLE(items) => "{let v = "@ + var + ".as_array().unwrap();\n\t\t("@
            + item_texts(items) + ")}"@,
    }
}

/// The expressions that read the items of a tuple out of the array `v`,
/// with a comma between neighbours.
pub open spec fn item_texts(items: Seq<TypeView>) -> Seq<char>
    decreases items, 1nat,
{
    join(item_parts(items), ", "@)
}

/// The expression that reads each item of a tuple out of the array `v`.
pub open spec fn item_parts(items: Seq<TypeView>) -> Seq<Seq<char>>
    decreases items, 0nat,
{
    Seq::new(
        items.len(),
        |i: int|
            if 0 <= i < items.len() {
                return_text(item_name(i as nat), items[i])
            } else {
                Seq::empty()
            },
    )
}

/// The body of a generated method that returns a value of type `t` read
/// out of the variable `ret`.
pub open spec fn result_text(t: TypeView) -> Seq<char> {
    match t {
        TypeView::TUPLE(items) => "let v = ret.as_array().unwrap();\n\t\tOk(("@ + item_texts(items)
            + "))"@,
        other => "Ok("@ + return_text("ret"@, other) + ")"@,
    }
}

impl Clone for Type {
    fn clone(&self) -> (r: Type)
        ensures
            r@ == self@,
        decreases self,
    {
        match self {
            Type::UNIT => Type::UNIT,
            Type::I64 => Type::I64,
            Type::F64 => Type::F64,
            Type::BOOL => Type::BOOL,
            Type::STRING => Type::STRING,
            Type::VALUE => Type::VALUE,
            Type::VEC(item) => {
                let inner = (&**item).clone();
                Type::VEC(Box::new(inner))
            },
            Type::TUPLE(items) => {
                let mut out: Vec<Type> = Vec::new();
                let mut i: usize = 0;
                while i < items.len()
                    invariant
                        i <= items.len(),
                        out@.len() == i,
                        *self == Type::TUPLE(*items),
                        forall|j: int| 0 <= j < i ==> out@[j]@ == items@[j]@,
                    decreases items.len() - i,
                {
                    proof {
                        lemma_item_decreases(self, i as int);
                    }
                    out.push(items[i].clone());
                    i += 1;
                }
                proof {
                    lemma_tuple_view(out);
                    lemma_tuple_view(*items);
                    assert(type_views(out@) =~= type_views(items@));
                }
                Type::TUPLE(out)
            },
            Type::BUFFER => Type::BUFFER,
            Type::TABPAGE => Type::TABPAGE,
            Type::WINDOW => Type::WINDOW,
        }
    }
}

fn render(t: &Type) -> (r: String)
    ensures
        r@ == type_text(t@),
    decreases t,
{
    match t {
        Type::UNIT => String::from_str("()"),
        Type::I64 => String::from_str("i64"),
        Type::F64 => String::from_str("f64"),
        Type::BOOL => String::from_str("bool"),
        Type::STRING => String::from_str("String"),
        Type::VALUE => String::from_str("Value"),
        Type::VEC(item) => {
            let inner = render(&**item);
            let mut out = String::from_str("Vec<");
            out.append(inner.as_str());
            out.append(">");
            out
        },
        Type::TUPLE(items) => {
            let mut parts: Vec<String> = Vec::new();
            let mut i: usize = 0;
            while i < items.len()
                invariant
                    i <= items.len(),
                    parts@.len() == i,
                    *t == Type::TUPLE(*items),
                    forall|j: int| 0 <= j < i ==> parts@[j]@ == type_text(items@[j]@),
                decreases items.len() - i,
            {
                proof {
                    lemma_item_decreases(t, i as int);
                }
                parts.push(render(&items[i]));
                i += 1;
            }
            let joined = join_strings(&parts, ", ");
            let mut out = String::from_str("(");
            out.append(joined.as_str());
            out.append(")");
            proof {
                lemma_tuple_view(*items);
                assert(string_views(parts@) =~= type_texts(t@->TUPLE_0));
            }
            out
        },
        Type::BUFFER => String::from_str("Buffer"),
        Type::TABPAGE => String::from_str("Tabpage"),
        Type::WINDOW => String::from_str("Window"),
    }
}

/// `var`, then `tail`.
fn before(var: &str, tail: &str) -> (r: String)
    ensures
        r@ == var@ + tail@,
{
    let mut out = String::from_str(var);
    out.append(tail);
    out
}

/// `head`, then `var`, then `tail`.
fn around(head: &str, var: &str, tail: &str) -> (r: String)
    ensures
        r@ == head@ + var@ + tail@,
{
    let mut out = String::from_str(head);
    out.append(var);
    out.append(tail);
    out
}

fn read_expr(var: &str, t: &Type) -> (r: String)
    ensures
        r@ == return_text(var@, t@),
    decreases t, 1nat,
{
    match t {
        Type::I64 => before(var, ".as_i64().unwrap()"),
        Type::F64 => before(var, ".as_f64().unwrap()"),
        Type::BOOL => before(var, ".as_bool().unwrap()"),
        Type::STRING => before(var, ".as_str().unwrap().to_string()"),
        Type::VALUE => before(var, ".to_owned()"),
        Type::VEC(item) => {
            let inner = read_expr("x", &**item);
            let mut out = before(var, ".as_array().unwrap().iter().map(|x| ");
            out.append(inner.as_str());
            out.append(").collect()");
            out
        },
        Type::UNIT => String::from_str("()"),
        Type::BUFFER => around(
            "Buffer { data: ",
            var,
            ".clone(), session: self.session.clone() }",
        ),
        Type::TABPAGE => around(
            "Tabpage { data: ",
            var,
            ".clone(), session: self.session.clone() }",
        ),
        Type::WINDOW => around(
            "Window { data: ",
            var,
            ".clone(), session: self.session.clone() }",
        ),
        Type::TUPLE(items) => {
            let inner = read_items(t);
            let mut out = around("{let v = ", var, ".as_array().unwrap();\n\t\t(");
            out.append(inner.as_str());
            out.append(")}");
            out
        },
    }
}

fn read_items(t: &Type) -> (r: String)
    requires
        t is TUPLE,
    ensures
        r@ == item_texts(t@->TUPLE_0),
    decreases t, 0nat,
{
    let items = match t {
        Type::TUPLE(items) => items,
        _ => {
            return String::new();
        },
    };
    let mut parts: Vec<String> = Vec::new();
    let mut i: usize = 0;
    while i < items.len()
        invariant
            i <= items.len(),
            parts@.len() == i,
            *t == Type::TUPLE(*items),
            forall|j: int|
                0 <= j < i ==> parts@[j]@ == return_text(item_name(j as nat), items@[j]@),
        decreases items.len() - i,
    {
        proof {
            lemma_item_decreases(t, i as int);
        }
        let number = decimal_string(i);
        let name = around("v[", number.as_str(), "]");
        parts.push(read_expr(name.as_str(), &items[i]));
        i += 1;
    }
    proof {
        lemma_tuple_view(*items);
        assert(string_views(parts@) =~= item_parts(t@->TUPLE_0));
    }
    join_strings(&parts, ", ")
}

impl Type {
    /// Writes the type as the generated code names it.
    pub fn render_type(t: Type) -> (r: String)
        ensures
            r@ == type_text(t@),
    {
        render(&t)
    }

    /// Writes the expression that reads a value of type `t` out of the
    /// variable `var`.
    pub fn generate_return(var: &str, t: Type) -> (r: String)
        ensures
            r@ == return_text(var@, t@),
    {
        read_expr(var, &t)
    }
}

/// Writes the type as the generated code names it: what a template gets
/// for a parameter's or a result's type.
pub fn as_type(t: Type) -> (r: String)
    ensures
        r@ == type_text(t@),
{
    Type::render_type(t)
}

/// Writes the last lines of a generated method: the result, read out of
/// the variable `ret` as a value of type `t`, inside `Ok`.
pub fn generate_return(t: Type) -> (r: String)
    ensures
        r@ == result_text(t@),
{
    match t {
        Type::TUPLE(items) => {
            let t = Type::TUPLE(items);
            let inner = read_items(&t);
            around("let v = ret.as_array().unwrap();\n\t\tOk((", inner.as_str(), "))")
        },
        other => {
            let inner = read_expr("ret", &other);
            around("Ok(", inner.as_str(), ")")
        },
    }
}

/// Whether a method whose result has type `a` returns anything.
pub fn no_ret(a: Type) -> (r: bool)
    ensures
        r == !(a@ is UNIT),
{
    match a {
        Type::UNIT => false,
        _ => true,
    }
}

} // verus!
