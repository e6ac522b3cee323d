//! From the functions of the API to the files of generated code: which
//! function becomes a method of which handle type, and under which name.

use crate::genapi::function::{
    clone_parameters, function_views, functions_of, parameter_views, parse_functions,
    some_function_views, Function, FunctionView, Parameter, ParameterView,
};
use crate::text::{starts_with, str_eq, strip_start};
use crate::value::{entry_views, Value, ValueView};
use crate::wire::{msgpack_value, read_value};
use vstd::prelude::*;
use vstd::string::*;

verus! {

/// The handle type that owns the methods of a file of generated code.
#[derive(Clone, Copy, Debug, PartialEq, Eq, Structural)]
pub enum Group {
    Buffer,
    Nvim,
    Tabpage,
    Window,
}

impl Group {
    /// The group of the function called `name`: that of the handle whose
    /// prefix the name begins with, and the global one for any other name.
    pub open spec fn of_name(name: Seq<char>) -> Group {
        if "nvim_buf_"@.is_prefix_of(name) {
            Group::Buffer
        } else if "nvim_tabpage_"@.is_prefix_of(name) {
            Group::Tabpage
        } else if "nvim_win_"@.is_prefix_of(name) {
            Group::Window
        } else {
            Group::Nvim
        }
    }

    /// The name of the handle type.
    pub open spec fn struct_name(self) -> Seq<char> {
        match self {
            Group::Buffer => "Buffer"@,
            Group::Nvim => "Nvim"@,
            Group::Tabpage => "Tabpage"@,
            Group::Window => "Window"@,
        }
    }

    /// What the names of the group's functions begin with.
    pub open spec fn prefix(self) -> Seq<char> {
        match self {
            Group::Buffer => "nvim_buf_"@,
            Group::Nvim => "nvim_"@,
            Group::Tabpage => "nvim_tabpage_"@,
            Group::Window => "nvim_win_"@,
        }
    }

    /// The name of the parameter that carries the handle; empty for the
    /// global group, whose functions have none.
    pub open spec fn param(self) -> Seq<char> {
        match self {
            Group::Buffer => "buffer"@,
            Group::Nvim => ""@,
            Group::Tabpage => "tabpage"@,
            Group::Window => "window"@,
        }
    }

    /// The name of the file of the group's methods, without its ending.
    pub open spec fn filename(self) -> Seq<char> {
        match self {
            Group::Buffer => "buffer"@,
            Group::Nvim => "nvim"@,
            Group::Tabpage => "tabpage"@,
            Group::Window => "window"@,
        }
    }

    /// The name of the template that the group's file is rendered with.
    pub open spec fn template(self) -> Seq<char> {
        match self {
            Group::Nvim => "nvim"@,
            _ => "object"@,
        }
    }
}

/// The words that the generated code cannot use as the name of a
/// parameter.
pub open spec fn reserved_words() -> Seq<Seq<char>> {
    seq![
        "as"@,
        "async"@,
        "await"@,
        "break"@,
        "const"@,
        "continue"@,
        "crate"@,
        "dyn"@,
        "else"@,
        "enum"@,
        "extern"@,
        "false"@,
        "fn"@,
        "for"@,
        "if"@,
        "impl"@,
        "in"@,
        "let"@,
        "loop"@,
        "match"@,
        "mod"@,
        "move"@,
        "mut"@,
        "pub"@,
        "ref"@,
        "return"@,
        "self"@,
        "Self"@,
        "static"@,
        "struct"@,
        "super"@,
        "trait"@,
        "true"@,
        "type"@,
        "unsafe"@,
        "use"@,
        "where"@,
        "while"@,
        "abstract"@,
        "become"@,
        "box"@,
        "do"@,
        "final"@,
        "macro"@,
        "override"@,
        "priv"@,
        "try"@,
        "typeof"@,
        "unsized"@,
        "virtual"@,
        "yield"@,
    ]
}

/// The name that the generated code gives a parameter called `name`: a
/// reserved word gets an underscore behind it, any other name stays.
pub open spec fn safe_name(name: Seq<char>) -> Seq<char> {
    if reserved_words().contains(name) {
        name + "_"@
    } else {
        name
    }
}

/// `parameters` without the handle parameter: the first one, where it is
/// called `param`. An empty `param` names no parameter.
pub open spec fn without_handle(
    parameters: Seq<ParameterView>,
    param: Seq<char>,
) -> Seq<ParameterView> {
    if param.len() > 0 && parameters.len() > 0 && parameters[0].name == param {
        parameters.drop_first()
    } else {
        parameters
    }
}

impl FunctionView {
    /// The function as a method of a handle type: its name lost `prefix`,
    /// where it began with it, and its parameters the handle parameter.
    pub open spec fn stripped(self, prefix: Seq<char>, param: Seq<char>) -> FunctionView {
        FunctionView {
            name: if prefix.is_prefix_of(self.name) {
                self.name.skip(prefix.len() as int)
            } else {
                self.name
            },
            parameters: without_handle(self.parameters, param),
            ..self
        }
    }

    /// The function with every parameter under its safe name.
    pub open spec fn renamed(self) -> FunctionView {
        FunctionView {
            parameters: self.parameters.map_values(
                |p: ParameterView| ParameterView { name: safe_name(p.name), ..p },
            ),
            ..self
        }
    }

    /// Whether the function is in use: the description gives no release
    /// since which it is deprecated.
    pub open spec fn current(self) -> bool {
        self.deprecated_since is None
    }
}

/// The name of a handle type and the methods that the generated code
/// gives it.
#[derive(Debug, PartialEq)]
pub struct Impl {
    pub name: String,
    pub prefix: String,
    pub functions: Vec<Function>,
}

/// The mathematical content of an [`Impl`].
pub struct ImplView {
    pub name: Seq<char>,
    pub prefix: Seq<char>,
    pub functions: Seq<FunctionView>,
}

impl View for Impl {
    type V = ImplView;

    open spec fn view(&self) -> ImplView {
        ImplView {
            name: self.name@,
            prefix: self.prefix@,
            functions: function_views(self.functions@),
        }
    }
}

/// One file of generated code: the template to render, what to render it
/// with, and the name to save it under.
#[derive(Debug, PartialEq)]
pub struct Output {
    pub template: String,
    pub filename: String,
    pub content: Impl,
}

/// The mathematical content of an [`Output`].
pub struct OutputView {
    pub template: Seq<char>,
    pub filename: Seq<char>,
    pub content: ImplView,
}

impl View for Output {
    type V = OutputView;

    open spec fn view(&self) -> OutputView {
        OutputView { template: self.template@, filename: self.filename@, content: self.content@ }
    }
}

/// The contents of a sequence of outputs.
pub open spec fn output_views(outputs: Seq<Output>) -> Seq<OutputView> {
    Seq::new(outputs.len(), |i: int| outputs[i]@)
}

/// The test that a function passes where it is in use and belongs to the
/// group `g`.
pub open spec fn belongs(g: Group) -> spec_fn(FunctionView) -> bool {
    |f: FunctionView| f.current() && Group::of_name(f.name) == g
}

/// The functions of `fs` that become methods of the group `g`, in their
/// order.
pub open spec fn members(fs: Seq<FunctionView>, g: Group) -> Seq<FunctionView> {
    fs.filter(belongs(g))
}

/// The functions of `fs` as methods: each without `prefix` and the handle
/// parameter `param`, and with safe names for its parameters.
pub open spec fn methods(
    fs: Seq<FunctionView>,
    prefix: Seq<char>,
    param: Seq<char>,
) -> Seq<FunctionView> {
    Seq::new(fs.len(), |i: int| fs[i].stripped(prefix, param).renamed())
}

/// The file of generated code of the group `g`, for the functions `fs`
/// of the API.
pub open spec fn output_of(g: Group, fs: Seq<FunctionView>) -> OutputView {
    OutputView {
        template: g.template(),
        filename: g.filename(),
        content: ImplView {
            name: g.struct_name(),
            prefix: g.prefix(),
            functions: methods(members(fs, g), g.prefix(), g.param()),
        },
    }
}

/// The four files of generated code for the functions `fs` of the API.
pub open spec fn outputs_of(fs: Seq<FunctionView>) -> Seq<OutputView> {
    seq![
        output_of(Group::Buffer, fs),
        output_of(Group::Nvim, fs),
        output_of(Group::Tabpage, fs),
        output_of(Group::Window, fs),
    ]
}

/// The functions of the API, where there is a list of them.
pub open spec fn listed(functions: Option<Vec<Function>>) -> Seq<FunctionView> {
    match functions {
        Some(fs) => function_views(fs@),
        None => Seq::empty(),
    }
}

/// The contents of a sequence of string slices.
pub open spec fn str_views(words: Seq<&'static str>) -> Seq<Seq<char>> {
    Seq::new(words.len(), |i: int| words[i]@)
}

fn reserved_table() -> (r: Vec<&'static str>)
    ensures
        str_views(r@) == reserved_words(),
{
    let mut words: Vec<&'static str> = Vec::new();
    words.push("as");
    words.push("async");
    words.push("await");
    words.push("break");
    words.push("const");
    words.push("continue");
    words.push("crate");
    words.push("dyn");
    words.push("else");
    words.push("enum");
    words.push("extern");
    words.push("false");
    words.push("fn");
    words.push("for");
    words.push("if");
    words.push("impl");
    words.push("in");
    words.push("let");
    words.push("loop");
    words.push("match");
    words.push("mod");
    words.push("move");
    words.push("mut");
    words.push("pub");
    words.push("ref");
    words.push("return");
    words.push("self");
    words.push("Self");
    words.push("static");
    words.push("struct");
    words.push("super");
    words.push("trait");
    words.push("true");
    words.push("type");
    words.push("unsafe");
    words.push("use");
    words.push("where");
    words.push("while");
    words.push("abstract");
    words.push("become");
    words.push("box");
    words.push("do");
    words.push("final");
    words.push("macro");
    words.push("override");
    words.push("priv");
    words.push("try");
    words.push("typeof");
    words.push("unsized");
    words.push("virtual");
    words.push("yield");
    assert(str_views(words@) =~= reserved_words());
    words
}

/// Whether the generated code cannot use `name` as the name of a
/// parameter.
pub fn is_reserved(name: &str) -> (r: bool)
    ensures
        r == reserved_words().contains(name@),
{
    let words = reserved_table();
    let mut i: usize = 0;
    while i < words.len()
        invariant
            i <= words.len(),
            str_views(words@) == reserved_words(),
            forall|j: int| 0 <= j < i ==> reserved_words()[j] != name@,
        decreases words.len() - i,
    {
        assert(str_views(words@)[i as int] == words@[i as int]@);
        if str_eq(name, words[i]) {
            return true;
        }
        i += 1;
    }
    false
}

/// The parameter under its safe name.
fn safe_parameter(p: &Parameter) -> (r: Parameter)
    ensures
        r@ == (ParameterView { name: safe_name(p@.name), ..p@ }),
{
    let mut name = p.name.clone();
    if is_reserved(p.name.as_str()) {
        name.append("_");
    }
    Parameter { name, parameter_type: p.parameter_type.clone() }
}

/// Strips `prefix` off the name of `f` and takes the handle parameter
/// `param` from its parameters, to make it a method of a handle type.
pub fn strip_prefix(f: &Function, prefix: &str, param: &str) -> (r: Function)
    ensures
        r@ == f@.stripped(prefix@, param@),
{
    let name = match strip_start(f.name.as_str(), prefix) {
        Some(name) => name,
        None => f.name.clone(),
    };
    let mut parameters = clone_parameters(&f.parameters);
    if param.unicode_len() > 0 && parameters.len() > 0 && str_eq(
        parameters[0].name.as_str(),
        param,
    ) {
        let ghost before = parameter_views(parameters@);
        parameters.remove(0);
        assert(parameter_views(parameters@) =~= before.drop_first());
    }
    Function {
        name,
        since: f.since,
        deprecated_since: f.deprecated_since,
        parameters,
        return_type: f.return_type.clone(),
        method: f.method,
    }
}

/// Gives every parameter of `f` a name that the generated code can use.
pub fn change_keywords(f: &Function) -> (r: Function)
    ensures
        r@ == f@.renamed(),
{
    let mut parameters: Vec<Parameter> = Vec::new();
    let mut i: usize = 0;
    while i < f.parameters.len()
        invariant
            i <= f.parameters.len(),
            parameters@.len() == i,
            forall|j: int|
                0 <= j < i ==> parameters@[j]@ == (ParameterView {
                    name: safe_name(f.parameters@[j]@.name),
                    ..f.parameters@[j]@
                }),
        decreases f.parameters.len() - i,
    {
        parameters.push(safe_parameter(&f.parameters[i]));
        i += 1;
    }
    assert(parameter_views(parameters@) =~= f@.renamed().parameters);
    Function {
        name: f.name.clone(),
        since: f.since,
        deprecated_since: f.deprecated_since,
        parameters,
        return_type: f.return_type.clone(),
        method: f.method,
    }
}

impl Group {
    /// The group of the function called `name`.
    pub fn containing(name: &str) -> (r: Group)
        ensures
            r == Group::of_name(name@),
    {
        if starts_with(name, "nvim_buf_") {
            Group::Buffer
        } else if starts_with(name, "nvim_tabpage_") {
            Group::Tabpage
        } else if starts_with(name, "nvim_win_") {
            Group::Window
        } else {
            Group::Nvim
        }
    }
}

impl Output {
    /// The file called `filename`, rendered with `template`, that gives
    /// the handle type `structname` the functions as methods: each
    /// without `prefix` and the handle parameter `param`, and with safe
    /// names for its parameters.
    pub fn prepare(
        template: &str,
        filename: &str,
        structname: &str,
        prefix: &str,
        param: &str,
        functions: &Vec<Function>,
    ) -> (r: Output)
        ensures
            r@ == (OutputView {
                template: template@,
                filename: filename@,
                content: ImplView {
                    name: structname@,
                    prefix: prefix@,
                    functions: methods(function_views(functions@), prefix@, param@),
                },
            }),
    {
        let mut prepared: Vec<Function> = Vec::new();
        let mut i: usize = 0;
        while i < functions.len()
            invariant
                i <= functions.len(),
                prepared@.len() == i,
                forall|j: int|
                    0 <= j < i ==> prepared@[j]@ == functions@[j]@.stripped(
                        prefix@,
                        param@,
                    ).renamed(),
            decreases functions.len() - i,
        {
            let stripped = strip_prefix(&functions[i], prefix, param);
            prepared.push(change_keywords(&stripped));
            i += 1;
        }
        assert(function_views(prepared@) =~= methods(
            function_views(functions@),
            prefix@,
            param@,
        ));
        Output {
            template: String::from_str(template),
            filename: String::from_str(filename),
            content: Impl {
                name: String::from_str(structname),
                prefix: String::from_str(prefix),
                functions: prepared,
            },
        }
    }

    /// Where the file is saved.
    pub fn path(&self) -> (r: String)
        ensures
            r@ == "build/"@ + self@.filename + ".rs"@,
    {
        let mut out = String::from_str("build/");
        out.append(self.filename.as_str());
        out.append(".rs");
        out
    }
}

/// Plans the files of generated code: one for each handle type, with the
/// functions in use that belong to it, in the order of the API. No list
/// of functions is as good as an empty one.
pub fn generate_api(functions: Option<Vec<Function>>) -> (r: Vec<Output>)
    ensures
        output_views(r@) == outputs_of(listed(functions)),
{
    let mut buffer_functions: Vec<Function> = Vec::new();
    let mut nvim_functions: Vec<Function> = Vec::new();
    let mut tabpage_functions: Vec<Function> = Vec::new();
    let mut window_functions: Vec<Function> = Vec::new();
    let ghost all = listed(functions);
    proof {
        reveal(Seq::filter);
        assert(function_views(buffer_functions@) =~= members(all.take(0), Group::Buffer));
        assert(function_views(nvim_functions@) =~= members(all.take(0), Group::Nvim));
        assert(function_views(tabpage_functions@) =~= members(all.take(0), Group::Tabpage));
        assert(function_views(window_functions@) =~= members(all.take(0), Group::Window));
    }
    if let Some(functions) = functions {
        let mut i: usize = 0;
        while i < functions.len()
            invariant
                i <= functions.len(),
                all == function_views(functions@),
                function_views(buffer_functions@) == members(all.take(i as int), Group::Buffer),
                function_views(nvim_functions@) == members(all.take(i as int), Group::Nvim),
                function_views(tabpage_functions@) == members(all.take(i as int), Group::Tabpage),
                function_views(window_functions@) == members(all.take(i as int), Group::Window),
            decreases functions.len() - i,
        {
            let f = &functions[i];
            proof {
                let sofar = all.take(i as int);
                assert(all.take(i + 1) =~= sofar.push(f@));
                sofar.lemma_filter_push(f@, belongs(Group::Buffer));
                sofar.lemma_filter_push(f@, belongs(Group::Nvim));
                sofar.lemma_filter_push(f@, belongs(Group::Tabpage));
                sofar.lemma_filter_push(f@, belongs(Group::Window));
            }
            if f.deprecated_since.is_none() {
                match Group::containing(f.name.as_str()) {
                    Group::Buffer => {
                        let ghost before = function_views(buffer_functions@);
                        buffer_functions.push(f.clone());
                        assert(function_views(buffer_functions@) =~= before.push(f@));
                    },
                    Group::Tabpage => {
                        let ghost before = function_views(tabpage_functions@);
                        tabpage_functions.push(f.clone());
                        assert(function_views(tabpage_functions@) =~= before.push(f@));
                    },
                    Group::Window => {
                        let ghost before = function_views(window_functions@);
                        window_functions.push(f.clone());
                        assert(function_views(window_functions@) =~= before.push(f@));
                    },
                    Group::Nvim => {
                        let ghost before = function_views(nvim_functions@);
                        nvim_functions.push(f.clone());
                        assert(function_views(nvim_functions@) =~= before.push(f@));
                    },
                }
            }
            i += 1;
        }
        assert(all.take(i as int) =~= all);
    } else {
        assert(all.take(0) =~= all);
    }
    let mut outputs: Vec<Output> = Vec::new();
    outputs.push(
        Output::prepare("object", "buffer", "Buffer", "nvim_buf_", "buffer", &buffer_functions),
    );
    outputs.push(Output::prepare("nvim", "nvim", "Nvim", "nvim_", "", &nvim_functions));
    outputs.push(
        Output::prepare(
            "object",
            "tabpage",
            "Tabpage",
            "nvim_tabpage_",
            "tabpage",
            &tabpage_functions,
        ),
    );
    outputs.push(
        Output::prepare("object", "window", "Window", "nvim_win_", "window", &window_functions),
    );
    assert(output_views(outputs@) =~= outputs_of(all));
    outputs
}

/// Every function in use becomes a method of the one handle type that its
/// name speaks of, and no other function becomes a method at all: a group
/// holds function `i` of the API where it is in use and its name belongs
/// to the group, and whatever a group holds is in use and belongs to it.
pub proof fn lemma_groups_part_the_functions(fs: Seq<FunctionView>, g: Group, i: int)
    requires
        0 <= i < fs.len(),
    ensures
        fs[i].current() && Group::of_name(fs[i].name) == g ==> members(fs, g).contains(fs[i]),
        forall|j: int|
            0 <= j < members(fs, g).len() ==> (#[trigger] members(fs, g)[j]).current()
                && Group::of_name(members(fs, g)[j].name) == g,
{
    if belongs(g)(fs[i]) {
        fs.lemma_filter_contains(belongs(g), i);
    }
    assert forall|j: int| 0 <= j < members(fs, g).len() implies (#[trigger] members(
        fs,
        g,
    )[j]).current() && Group::of_name(members(fs, g)[j].name) == g by {
        fs.lemma_filter_pred(belongs(g), j);
    }
}

/// The functions that the entries of the editor's description list: those
/// under the last key `functions`, none where there is no such key.
/// `None` where a key is no string or the list is malformed.
pub open spec fn listed_among(entries: Seq<(ValueView, ValueView)>) -> Option<Seq<FunctionView>>
    decreases entries.len(),
{
    if entries.len() == 0 {
        Some(Seq::empty())
    } else {
        match (listed_among(entries.drop_last()), entries.last().0.as_str()) {
            (Some(before), Some(key)) => if key == "functions"@ {
                functions_of(entries.last().1)
            } else {
                Some(before)
            },
            _ => None,
        }
    }
}

/// The functions that the editor's description of its API lists. A
/// description that is no dictionary lists none.
pub open spec fn manifest_listing(api: ValueView) -> Option<Seq<FunctionView>> {
    match api {
        ValueView::Dictionary(entries) => listed_among(entries),
        _ => Some(Seq::empty()),
    }
}

/// Where the beginning of `entries` is malformed, so is `entries`.
proof fn lemma_listing_fails(entries: Seq<(ValueView, ValueView)>, k: int)
    requires
        0 <= k <= entries.len(),
        listed_among(entries.take(k)) is None,
    ensures
        listed_among(entries) is None,
    decreases entries.len(),
{
    if k == entries.len() {
        assert(entries.take(k) =~= entries);
    } else {
        assert(entries.drop_last().take(k) =~= entries.take(k));
        lemma_listing_fails(entries.drop_last(), k);
    }
}

/// Reads the functions of the API out of the editor's description of it;
/// `None` where the description is malformed.
pub fn manifest_functions(api: &Value) -> (r: Option<Vec<Function>>)
    ensures
        some_function_views(r) == manifest_listing(api@),
{
    let entries = match api.as_map() {
        Some(entries) => entries,
        None => {
            let none: Vec<Function> = Vec::new();
            assert(function_views(none@) =~= Seq::empty());
            return Some(none);
        },
    };
    let mut functions: Vec<Function> = Vec::new();
    assert(function_views(functions@) =~= Seq::empty());
    let ghost all = entry_views(entries@);
    let mut i: usize = 0;
    while i < entries.len()
        invariant
            i <= entries.len(),
            all == entry_views(entries@),
            api@ == ValueView::Dictionary(all),
            listed_among(all.take(i as int)) == Some(function_views(functions@)),
        decreases entries.len() - i,
    {
        let ghost sofar = all.take(i as int);
        let ghost next = all.take(i + 1);
        assert(next.drop_last() =~= sofar);
        assert(next.last() == (entries@[i as int].0@, entries@[i as int].1@));
        proof {
            if listed_among(next) is None {
                lemma_listing_fails(all, i + 1);
            }
        }
        let key = match entries[i].0.as_str() {
            Some(key) => key,
            None => {
                return None;
            },
        };
        if str_eq(key, "functions") {
            match parse_functions(&entries[i].1) {
                Some(found) => {
                    functions = found;
                },
                None => {
                    return None;
                },
            }
        }
        i += 1;
    }
    assert(all.take(i as int) =~= all);
    Some(functions)
}

/// The functions that the bytes of the editor's description of its API
/// list; `None` where the bytes cannot be read or what they hold is
/// malformed.
pub open spec fn manifest_of_bytes(bytes: Seq<u8>) -> Option<Seq<FunctionView>> {
    match msgpack_value(bytes) {
        Ok(api) => manifest_listing(api),
        Err(_) => None,
    }
}

/// Reads the functions of the API out of the bytes that the editor prints
/// as the description of it.
pub fn read_manifest(bytes: &[u8]) -> (r: Option<Vec<Function>>)
    ensures
        some_function_views(r) == manifest_of_bytes(bytes@),
{
    match read_value(bytes) {
        Ok(api) => manifest_functions(&api),
        Err(_) => None,
    }
}

} // verus!
