//! From the names that the editor gives its types to the types of the
//! generated code.

use crate::genapi::types::{lemma_tuple_view, type_view, type_views, Type, TypeView};
use crate::text::{
    chars_of, count_of, digit_of, digit_value, read_count, starts_with, str_eq, Count,
};
use vstd::prelude::*;
use vstd::string::*;

verus! {

/// What the `regex` crate finds of the regular expression `pattern` in
/// `text`: the parts of `text` that groups 1 and 2 took in the leftmost
/// match. `None` where `pattern` is no regular expression, where nothing
/// in `text` matches, or where one of the two groups took no part.
pub uninterp spec fn regex_pair(pattern: Seq<char>, text: Seq<char>) -> Option<
    (Seq<char>, Seq<char>),
>;

/// The content of a pair of strings, if there is one.
pub open spec fn pair_view(pair: Option<(String, String)>) -> Option<(Seq<char>, Seq<char>)> {
    match pair {
        Some((first, second)) => Some((first@, second@)),
        None => None,
    }
}

/// Compiles `pattern` with `regex::Regex::new`, searches `text` with
/// `Regex::captures` and copies out what `Captures::get` gives for groups
/// 1 and 2. Nothing is claimed of the result but that it is the same for
/// the same pattern and text.
#[verifier::external_body]
fn captures_pair(pattern: &str, text: &str) -> (r: Option<(String, String)>)
    ensures
        pair_view(r) == regex_pair(pattern@, text@),
{
    let re = regex::Regex::new(pattern).ok()?;
    let found = re.captures(text)?;
    let first = found.get(1)?.as_str().to_string();
    let second = found.get(2)?.as_str().to_string();
    Some((first, second))
}

/// The regular expression that finds the item and the count of a tuple,
/// `T, N`, in a text without brackets.
pub open spec fn tuple_pattern() -> Seq<char> {
    "([a-zA-Z]+), ([0-9]+)"@
}

/// The type that a plain name stands for; the unit type for a name that
/// is not known.
pub open spec fn plain_type(name: Seq<char>) -> TypeView {
    if name == "Integer"@ {
        TypeView::I64
    } else if name == "Float"@ {
        TypeView::F64
    } else if name == "Boolean"@ {
        TypeView::BOOL
    } else if name == "void"@ {
        TypeView::UNIT
    } else if name == "Array"@ {
        TypeView::VEC(Box::new(TypeView::VALUE))
    } else if name == "Object"@ {
        TypeView::VALUE
    } else if name == "LuaRef"@ {
        TypeView::VALUE
    } else if name == "Dictionary"@ {
        TypeView::VEC(Box::new(TypeView::TUPLE(seq![TypeView::VALUE, TypeView::VALUE])))
    } else if name == "String"@ {
        TypeView::STRING
    } else if name == "Buffer"@ {
        TypeView::BUFFER
    } else if name == "Tabpage"@ {
        TypeView::TABPAGE
    } else if name == "Window"@ {
        TypeView::WINDOW
    } else {
        TypeView::UNIT
    }
}

/// Whether `c` opens or closes a bracket.
pub open spec fn is_bracket(c: char) -> bool {
    c == '(' || c == ')'
}

/// Whether no bracket stands in `s`.
pub open spec fn bracket_free(s: Seq<char>) -> bool {
    forall|i: int| 0 <= i < s.len() ==> !is_bracket(#[trigger] s[i])
}

/// How many brackets are open after `c`, where `depth` were open before
/// it.
pub open spec fn depth_after(depth: nat, c: char) -> nat {
    if c == '(' {
        depth + 1
    } else if c == ')' && depth > 0 {
        (depth - 1) as nat
    } else {
        depth
    }
}

/// The beginning of `s` up to the bracket that closes the one in which
/// `s` stands, where `depth` brackets have been opened within `s` before
/// and are still open; all of `s` where no bracket closes it.
pub open spec fn until_close(s: Seq<char>, depth: nat) -> Seq<char>
    decreases s.len(),
{
    if s.len() == 0 || (s[0] == ')' && depth == 0) {
        Seq::empty()
    } else {
        seq![s[0]] + until_close(s.drop_first(), depth_after(depth, s[0]))
    }
}

/// What stands in the brackets of a name that begins with `ArrayOf(`: the
/// text up to the bracket that closes the first one. What follows that
/// bracket is passed over.
pub open spec fn array_inner(name: Seq<char>) -> Seq<char> {
    until_close(name.skip("ArrayOf("@.len() as int), 0)
}

/// The text up to the closing bracket is no longer than the whole text.
pub proof fn lemma_until_close_len(s: Seq<char>, depth: nat)
    ensures
        until_close(s, depth).len() <= s.len(),
    decreases s.len(),
{
    if !(s.len() == 0 || (s[0] == ')' && depth == 0)) {
        lemma_until_close_len(s.drop_first(), depth_after(depth, s[0]));
    }
}

/// What stands in the brackets of a name is shorter than the name.
pub proof fn lemma_inner_shorter(name: Seq<char>)
    requires
        "ArrayOf("@.is_prefix_of(name),
    ensures
        array_inner(name).len() < name.len(),
{
    reveal_strlit("ArrayOf(");
    lemma_until_close_len(name.skip(8), 0);
}

/// How many decimal digits `s` ends with.
pub open spec fn digits_at_end(s: Seq<char>) -> nat
    decreases s.len(),
{
    if s.len() == 0 || digit_value(s.last()) is None {
        0
    } else {
        1 + digits_at_end(s.drop_last())
    }
}

/// The item and the count of a text of the form `T, N`: what stands
/// before the last comma and blank, and the digits behind them, where
/// the text ends with a comma, a blank and digits.
pub open spec fn counted(inner: Seq<char>) -> Option<(Seq<char>, Seq<char>)> {
    let digits = digits_at_end(inner);
    let cut = inner.len() - digits - 2;
    if digits > 0 && cut >= 0 && inner[cut] == ',' && inner[cut + 1] == ' ' {
        Some((inner.take(cut), inner.skip(cut + 2)))
    } else {
        None
    }
}

/// The item and the count that stand in the brackets of `ArrayOf(..)`,
/// if a count stands there. In a text without brackets the tuple pattern
/// finds them; in one with brackets, where the item is a list or a tuple
/// itself, the count is what stands behind the last comma.
pub open spec fn count_in(inner: Seq<char>) -> Option<(Seq<char>, Seq<char>)> {
    if bracket_free(inner) {
        regex_pair(tuple_pattern(), inner)
    } else {
        counted(inner)
    }
}

/// The list of items of the type `item`, if there is such a type.
pub open spec fn list_of(item: Option<TypeView>) -> Option<TypeView> {
    match item {
        Some(item) => Some(TypeView::VEC(Box::new(item))),
        None => None,
    }
}

/// The tuple of `count` items of the type `item`, and the unit type for
/// the count zero; no type where there is no item type or the count is
/// no number that a `usize` holds.
pub open spec fn tuple_of(item: Option<TypeView>, count: Count) -> Option<TypeView> {
    match (item, count) {
        (Some(item), Count::Exact(n)) => if n == 0 {
            Some(TypeView::UNIT)
        } else {
            Some(TypeView::TUPLE(Seq::new(n as nat, |i: int| item)))
        },
        _ => None,
    }
}

/// The type of `ArrayOf(..)` with `inner` in its brackets, where `pair`
/// is the item and the count found in `inner`, if a count was found.
///
/// With a pair it is the tuple of as many items as the count says, of
/// the type that the item's name stands for; an item that is longer than
/// `inner` was not found in it, and gives no type. Without a pair it is
/// the list of items of the type that the name `inner` stands for.
pub open spec fn array_type(inner: Seq<char>, pair: Option<(Seq<char>, Seq<char>)>) -> Option<
    TypeView,
>
    decreases inner.len(), 1nat,
{
    match pair {
        Some((item, count)) => if item.len() <= inner.len() {
            tuple_of(type_of_name(item), count_of(count))
        } else {
            None
        },
        None => list_of(type_of_name(inner)),
    }
}

/// The type that the name `name` of the editor's API stands for.
///
/// `ArrayOf(T)` is the list of items of the type that the name `T`
/// stands for, and `ArrayOf(T, N)` the tuple of `N` such items; `T` may
/// be a list or a tuple itself. Any other name is a plain one.
pub open spec fn type_of_name(name: Seq<char>) -> Option<TypeView>
    decreases name.len(), 0nat,
{
    if "ArrayOf("@.is_prefix_of(name) {
        let inner = array_inner(name);
        proof {
            lemma_inner_shorter(name);
        }
        array_type(inner, count_in(inner))
    } else {
        Some(plain_type(name))
    }
}

/// How many brackets are open at the end of `s`, where `depth` were open
/// at its beginning.
pub open spec fn depth_at_end(s: Seq<char>, depth: nat) -> nat
    decreases s.len(),
{
    if s.len() == 0 {
        depth
    } else {
        depth_at_end(s.drop_first(), depth_after(depth, s[0]))
    }
}

/// Whether every bracket that closes in `s` closes one that was opened in
/// `s` before it, or one of the `depth` that were open at its beginning.
pub open spec fn closes_its_own(s: Seq<char>, depth: nat) -> bool
    decreases s.len(),
{
    s.len() == 0 || (!(s[0] == ')' && depth == 0) && closes_its_own(
        s.drop_first(),
        depth_after(depth, s[0]),
    ))
}

/// Whether the brackets of `s` match: each one that closes was opened in
/// `s` before it, and none stays open.
pub open spec fn balanced(s: Seq<char>) -> bool {
    closes_its_own(s, 0) && depth_at_end(s, 0) == 0
}

/// A text whose closing brackets are all its own is passed whole on the
/// way to the bracket that closes around it.
proof fn lemma_until_close_passes(s: Seq<char>, rest: Seq<char>, depth: nat)
    requires
        closes_its_own(s, depth),
    ensures
        until_close(s + rest, depth) == s + until_close(rest, depth_at_end(s, depth)),
    decreases s.len(),
{
    if s.len() == 0 {
        assert(s + rest =~= rest);
        assert(s + until_close(rest, depth) =~= until_close(rest, depth));
    } else {
        let next = depth_after(depth, s[0]);
        lemma_until_close_passes(s.drop_first(), rest, next);
        assert((s + rest).drop_first() =~= s.drop_first() + rest);
        assert((s + rest)[0] == s[0]);
        assert(seq![s[0]] + (s.drop_first() + until_close(rest, depth_at_end(s, depth))) =~= s
            + until_close(rest, depth_at_end(s, depth)));
    }
}

/// A list may hold items of any type, lists and tuples among them.
///
/// Let `item` be a name with matching brackets that carries no count of
/// its own, such as `Integer`, `ArrayOf(Integer)` or
/// `ArrayOf(Integer, 2)`. Then `ArrayOf(item)` stands for the list of
/// items of the type that `item` stands for.
pub proof fn lemma_list_of_any_type(item: Seq<char>)
    requires
        balanced(item),
        count_in(item) is None,
    ensures
        type_of_name("ArrayOf("@ + item + ")"@) == list_of(type_of_name(item)),
{
    reveal_strlit("ArrayOf(");
    reveal_strlit(")");
    let name = "ArrayOf("@ + item + ")"@;
    assert("ArrayOf("@.is_prefix_of(name)) by {
        assert(name.subrange(0, 8) =~= "ArrayOf("@);
    }
    assert(name.skip(8) =~= item + ")"@);
    lemma_until_close_passes(item, ")"@, 0);
    assert(until_close(")"@, 0) =~= Seq::<char>::empty());
    assert(item + Seq::<char>::empty() =~= item);
    assert(array_inner(name) == item);
}

/// A text without brackets closes nothing and leaves open what was open.
proof fn lemma_bracket_free_passes(s: Seq<char>, depth: nat)
    requires
        bracket_free(s),
    ensures
        closes_its_own(s, depth),
        depth_at_end(s, depth) == depth,
    decreases s.len(),
{
    if s.len() > 0 {
        assert(!is_bracket(s[0]));
        assert forall|i: int| 0 <= i < s.drop_first().len() implies !is_bracket(
            #[trigger] s.drop_first()[i],
        ) by {
            assert(s.drop_first()[i] == s[i + 1]);
        }
        lemma_bracket_free_passes(s.drop_first(), depth);
    }
}

/// Text without brackets behind a text changes nothing about the
/// brackets of that text.
proof fn lemma_brackets_of_beginning(s: Seq<char>, rest: Seq<char>, depth: nat)
    requires
        closes_its_own(s, depth),
        bracket_free(rest),
    ensures
        closes_its_own(s + rest, depth),
        depth_at_end(s + rest, depth) == depth_at_end(s, depth),
    decreases s.len(),
{
    if s.len() == 0 {
        assert(s + rest =~= rest);
        lemma_bracket_free_passes(rest, depth);
    } else {
        assert((s + rest).drop_first() =~= s.drop_first() + rest);
        assert((s + rest)[0] == s[0]);
        lemma_brackets_of_beginning(s.drop_first(), rest, depth_after(depth, s[0]));
    }
}

/// A text that ends with digits ends with as many digits more as stand
/// before them.
proof fn lemma_digits_at_end(s: Seq<char>, digits: Seq<char>)
    requires
        forall|i: int| 0 <= i < digits.len() ==> digit_value(#[trigger] digits[i]) is Some,
    ensures
        digits_at_end(s + digits) == digits.len() + digits_at_end(s),
    decreases digits.len(),
{
    if digits.len() == 0 {
        assert(s + digits =~= s);
    } else {
        assert((s + digits).last() == digits.last());
        assert((s + digits).drop_last() =~= s + digits.drop_last());
        assert forall|i: int| 0 <= i < digits.drop_last().len() implies digit_value(
            #[trigger] digits.drop_last()[i],
        ) is Some by {
            assert(digits.drop_last()[i] == digits[i]);
        }
        lemma_digits_at_end(s, digits.drop_last());
    }
}

/// A tuple may hold lists and tuples.
///
/// Let `item` be a name with brackets, and these matching, such as
/// `ArrayOf(Integer)`, and let `count` be a numeral. Then
/// `ArrayOf(item, count)` stands for the tuple of as many items as
/// `count` says, of the type that `item` stands for.
pub proof fn lemma_tuple_of_any_type(item: Seq<char>, count: Seq<char>)
    requires
        balanced(item),
        !bracket_free(item),
        count.len() > 0,
        forall|i: int| 0 <= i < count.len() ==> digit_value(#[trigger] count[i]) is Some,
    ensures
        type_of_name("ArrayOf("@ + item + ", "@ + count + ")"@) == tuple_of(
            type_of_name(item),
            count_of(count),
        ),
{
    reveal_strlit("ArrayOf(");
    reveal_strlit(")");
    reveal_strlit(", ");
    let inner = item + ", "@ + count;
    let name = "ArrayOf("@ + item + ", "@ + count + ")"@;
    assert("ArrayOf("@.is_prefix_of(name)) by {
        assert(name.subrange(0, 8) =~= "ArrayOf("@);
    }
    assert(name.skip(8) =~= inner + ")"@);
    let tail = ", "@ + count;
    assert(inner =~= item + tail);
    assert(bracket_free(tail)) by {
        assert forall|i: int| 0 <= i < tail.len() implies !is_bracket(#[trigger] tail[i]) by {
            if i >= 2 {
                assert(tail[i] == count[i - 2]);
            }
        }
    }
    lemma_brackets_of_beginning(item, tail, 0);
    lemma_until_close_passes(inner, ")"@, 0);
    assert(until_close(")"@, 0) =~= Seq::<char>::empty());
    assert(inner + Seq::<char>::empty() =~= inner);
    assert(array_inner(name) == inner);
    let i = choose|i: int| 0 <= i < item.len() && is_bracket(#[trigger] item[i]);
    assert(inner[i] == item[i]);
    assert(!bracket_free(inner));
    lemma_digits_at_end(item + ", "@, count);
    assert((item + ", "@).last() == ' ');
    assert(digits_at_end(item + ", "@) == 0);
    assert(digits_at_end(inner) == count.len());
    let cut = item.len() as int;
    assert(inner[cut] == ',');
    assert(inner[cut + 1] == ' ');
    assert(inner.take(cut) =~= item);
    assert(inner.skip(cut + 2) =~= count);
    assert(counted(inner) == Some((item, count)));
}

/// The content of a type, if there is one.
pub open spec fn some_type_view(t: Option<Type>) -> Option<TypeView> {
    match t {
        Some(t) => Some(t@),
        None => None,
    }
}

/// The type that a plain name stands for.
pub fn plain_value_to_type(name: &str) -> (r: Type)
    ensures
        r@ == plain_type(name@),
{
    proof {
        reveal_with_fuel(type_view, 2);
    }
    if str_eq(name, "Integer") {
        Type::I64
    } else if str_eq(name, "Float") {
        Type::F64
    } else if str_eq(name, "Boolean") {
        Type::BOOL
    } else if str_eq(name, "void") {
        Type::UNIT
    } else if str_eq(name, "Array") {
        Type::VEC(Box::new(Type::VALUE))
    } else if str_eq(name, "Object") {
        Type::VALUE
    } else if str_eq(name, "LuaRef") {
        Type::VALUE
    } else if str_eq(name, "Dictionary") {
        let mut pair: Vec<Type> = Vec::new();
        pair.push(Type::VALUE);
        pair.push(Type::VALUE);
        proof {
            lemma_tuple_view(pair);
            assert(type_views(pair@) =~= seq![TypeView::VALUE, TypeView::VALUE]);
        }
        Type::VEC(Box::new(Type::TUPLE(pair)))
    } else if str_eq(name, "String") {
        Type::STRING
    } else if str_eq(name, "Buffer") {
        Type::BUFFER
    } else if str_eq(name, "Tabpage") {
        Type::TABPAGE
    } else if str_eq(name, "Window") {
        Type::WINDOW
    } else {
        Type::UNIT
    }
}

/// What stands in the brackets of `name`.
fn inner_of(name: &str) -> (r: String)
    requires
        "ArrayOf("@.is_prefix_of(name@),
    ensures
        r@ == array_inner(name@),
{
    proof {
        reveal_strlit("ArrayOf(");
    }
    let chars = chars_of(name);
    let start: usize = 8;
    let ghost rest = name@.skip(8);
    let mut end: usize = start;
    let mut depth: usize = 0;
    assert(rest.take(0) + until_close(rest.skip(0), 0) =~= until_close(rest, 0)) by {
        assert(rest.skip(0) =~= rest);
    }
    while end < chars.len() && !(chars[end] == ')' && depth == 0)
        invariant
            start <= end <= chars.len(),
            chars@ == name@,
            rest == name@.skip(8),
            start == 8,
            depth <= end - start,
            until_close(rest, 0) == rest.take(end - start) + until_close(
                rest.skip(end - start),
                depth as nat,
            ),
        decreases chars.len() - end,
    {
        let c = chars[end];
        proof {
            let i = end - start;
            let tail = rest.skip(i);
            assert(tail[0] == c);
            assert(tail.drop_first() =~= rest.skip(i + 1));
            assert(rest.take(i) + (seq![c] + until_close(
                rest.skip(i + 1),
                depth_after(depth as nat, c),
            )) =~= rest.take(i + 1) + until_close(rest.skip(i + 1), depth_after(depth as nat, c)));
        }
        if c == '(' {
            depth += 1;
        } else if c == ')' {
            depth -= 1;
        }
        end += 1;
    }
    proof {
        assert(until_close(rest.skip(end - start), depth as nat) =~= Seq::<char>::empty());
        assert(rest.take(end - start) =~= name@.subrange(start as int, end as int));
    }
    String::from_str(name.substring_char(start, end))
}

/// Whether a bracket stands in `s`.
fn has_bracket(s: &str) -> (r: bool)
    ensures
        r == !bracket_free(s@),
{
    let chars = chars_of(s);
    let mut i: usize = 0;
    while i < chars.len()
        invariant
            i <= chars.len(),
            chars@ == s@,
            forall|j: int| 0 <= j < i ==> !is_bracket(#[trigger] s@[j]),
        decreases chars.len() - i,
    {
        if chars[i] == '(' || chars[i] == ')' {
            assert(is_bracket(s@[i as int]));
            return true;
        }
        i += 1;
    }
    false
}

/// The item and the count of a text of the form `T, N`.
fn count_suffix(inner: &str) -> (r: Option<(String, String)>)
    ensures
        pair_view(r) == counted(inner@),
{
    let chars = chars_of(inner);
    let len = chars.len();
    let mut digits: usize = 0;
    let mut more = true;
    assert(inner@.take(len as int) =~= inner@);
    while more && digits < len
        invariant
            digits <= len,
            len == chars.len(),
            chars@ == inner@,
            digits_at_end(inner@) == digits + digits_at_end(inner@.take(len - digits)),
            !more ==> digits_at_end(inner@.take(len - digits)) == 0,
        decreases len - digits + if more { 1int } else { 0int },
    {
        let ghost seen = inner@.take(len - digits);
        assert(seen.last() == chars@[len - digits - 1]);
        assert(seen.drop_last() =~= inner@.take(len - digits - 1));
        match digit_of(chars[len - digits - 1]) {
            Some(_) => {
                digits += 1;
            },
            None => {
                more = false;
            },
        }
    }
    assert(digits_at_end(inner@) == digits);
    if digits > 0 && len - digits >= 2 && chars[len - digits - 2] == ','
        && chars[len - digits - 1] == ' ' {
        let cut = len - digits - 2;
        let item = String::from_str(inner.substring_char(0, cut));
        let count = String::from_str(inner.substring_char(cut + 2, len));
        assert(item@ =~= inner@.take(cut as int));
        assert(count@ =~= inner@.skip(cut + 2));
        Some((item, count))
    } else {
        None
    }
}

/// The tuple of `count` items of the type `item`.
fn tuple_from(item: Option<Type>, count: Count) -> (r: Option<Type>)
    ensures
        some_type_view(r) == tuple_of(some_type_view(item), count),
{
    match (item, count) {
        (Some(item), Count::Exact(n)) => {
            if n == 0 {
                return Some(Type::UNIT);
            }
            let mut items: Vec<Type> = Vec::new();
            let mut i: usize = 0;
            while i < n
                invariant
                    i <= n,
                    items@.len() == i,
                    forall|j: int| 0 <= j < i ==> items@[j]@ == item@,
                decreases n - i,
            {
                items.push(item.clone());
                i += 1;
            }
            proof {
                lemma_tuple_view(items);
                assert(type_views(items@) =~= Seq::new(n as nat, |i: int| item@));
            }
            Some(Type::TUPLE(items))
        },
        _ => None,
    }
}

/// The type of `ArrayOf(..)` with `inner` in its brackets, where `pair`
/// is the item and the count found in `inner`, if a count was found.
pub fn array_value_to_type(inner: &str, pair: Option<(String, String)>) -> (r: Option<Type>)
    ensures
        some_type_view(r) == array_type(inner@, pair_view(pair)),
    decreases inner@.len(), 1nat,
{
    match pair {
        Some((item, count)) => {
            if item.as_str().unicode_len() <= inner.unicode_len() {
                let item_type = value_to_type(item.as_str());
                tuple_from(item_type, read_count(count.as_str()))
            } else {
                None
            }
        },
        None => match value_to_type(inner) {
            Some(item) => Some(Type::VEC(Box::new(item))),
            None => None,
        },
    }
}

/// The type that the name `value` of the editor's API stands for; `None`
/// where it holds a tuple whose count no `usize` holds.
pub fn value_to_type(value: &str) -> (r: Option<Type>)
    ensures
        some_type_view(r) == type_of_name(value@),
    decreases value@.len(), 0nat,
{
    if starts_with(value, "ArrayOf(") {
        let inner = inner_of(value);
        proof {
            lemma_inner_shorter(value@);
        }
        let pair = if has_bracket(inner.as_str()) {
            count_suffix(inner.as_str())
        } else {
            captures_pair("([a-zA-Z]+), ([0-9]+)", inner.as_str())
        };
        array_value_to_type(inner.as_str(), pair)
    } else {
        Some(plain_value_to_type(value))
    }
}

} // verus!
