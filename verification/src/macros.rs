//! What the attribute macros decide: a tool's or prompt's name, description,
//! schemas and arguments, which functions a router routes to, and which
//! methods a handler gains. Source items are read into plain values first:
//! types as [`TypeShape`], doc attributes as their text.
use vstd::prelude::*;

use crate::json::{
    empty_object, json_deep_wf, json_get, json_object, json_str, json_string, json_view, put, JsonSpec, JsonValue,
};
use crate::mcp_core::prompt::{Prompt, PromptArgument};
use crate::text::{chars_of, concat, push_char, push_str, string_from_chars};

verus! {

/// Unicode `White_Space` characters (what `char::is_whitespace` accepts).
pub open spec fn is_white_space(c: char) -> bool {
    ||| '\u{9}' <= c <= '\u{d}'
    ||| c == ' '
    ||| c == '\u{85}'
    ||| c == '\u{a0}'
    ||| c == '\u{1680}'
    ||| '\u{2000}' <= c <= '\u{200a}'
    ||| c == '\u{2028}'
    ||| c == '\u{2029}'
    ||| c == '\u{202f}'
    ||| c == '\u{205f}'
    ||| c == '\u{3000}'
}

fn white_space(c: char) -> (r: bool)
    ensures
        r == is_white_space(c),
{
    ('\u{9}' <= c && c <= '\u{d}') || c == ' ' || c == '\u{85}' || c == '\u{a0}' || c == '\u{1680}' || ('\u{2000}'
        <= c && c <= '\u{200a}') || c == '\u{2028}' || c == '\u{2029}' || c == '\u{202f}' || c == '\u{205f}' || c
        == '\u{3000}'
}

/// Text without its leading white space.
pub open spec fn trim_start(s: Seq<char>) -> Seq<char>
    decreases s.len(),
{
    if s.len() > 0 && is_white_space(s[0]) {
        trim_start(s.drop_first())
    } else {
        s
    }
}

/// Text without its trailing white space.
pub open spec fn trim_end(s: Seq<char>) -> Seq<char>
    decreases s.len(),
{
    if s.len() > 0 && is_white_space(s.last()) {
        trim_end(s.drop_last())
    } else {
        s
    }
}

/// Text without leading and trailing white space (what `str::trim` gives).
pub open spec fn trim(s: Seq<char>) -> Seq<char> {
    trim_end(trim_start(s))
}

/// Removes leading and trailing white space.
pub fn trim_text(s: &str) -> (r: String)
    ensures
        r@ == trim(s@),
{
    let v = chars_of(s);
    let mut start: usize = 0;
    assert(v@.skip(0) =~= v@);
    while start < v.len() && white_space(v[start])
        invariant
            start <= v@.len(),
            trim_start(v@) == trim_start(v@.skip(start as int)),
        decreases v@.len() - start,
    {
        assert(v@.skip(start as int).drop_first() =~= v@.skip(start + 1));
        start = start + 1;
    }
    let ghost t = v@.skip(start as int);
    assert(trim_start(v@) == t);
    let mut end: usize = v.len();
    assert(t.take(t.len() as int) =~= t);
    while end > start && white_space(v[end - 1])
        invariant
            start <= end <= v@.len(),
            t == v@.skip(start as int),
            trim_end(t) == trim_end(v@.subrange(start as int, end as int)),
        decreases end,
    {
        assert(v@.subrange(start as int, end as int).drop_last() =~= v@.subrange(start as int, end - 1));
        end = end - 1;
    }
    assert(trim_end(v@.subrange(start as int, end as int)) == v@.subrange(start as int, end as int));
    let mut out: Vec<char> = Vec::new();
    let mut i = start;
    while i < end
        invariant
            start <= i <= end <= v@.len(),
            out@ == v@.subrange(start as int, i as int),
        decreases end - i,
    {
        out.push(v[i]);
        assert(v@.subrange(start as int, i + 1) =~= v@.subrange(start as int, i as int).push(v@[i as int]));
        i = i + 1;
    }
    string_from_chars(out.as_slice())
}

/// Folds one doc attribute into the description so far: its trimmed text is
/// appended on a new line, or starts the description; empty lines add nothing.
pub open spec fn doc_step(existing: Option<Seq<char>>, doc: Option<Seq<char>>) -> Option<Seq<char>> {
    match doc {
        None => None,
        Some(text) => {
            let content = trim(text);
            match existing {
                Some(e) => if content.len() > 0 {
                    Some(e + seq!['\n'] + content)
                } else {
                    Some(e)
                },
                None => if content.len() > 0 {
                    Some(content)
                } else {
                    None
                },
            }
        },
    }
}

/// Reads one attribute: `doc` is the text of a doc attribute, or `None` for
/// any other attribute (which ends the description so far, as the fold does).
pub fn extract_doc_line(existing: Option<String>, doc: Option<&str>) -> (r: Option<String>)
    ensures
        match r {
            Some(s) => doc_step(
                match existing {
                    Some(e) => Some(e@),
                    None => None,
                },
                match doc {
                    Some(d) => Some(d@),
                    None => None,
                },
            ) == Some(s@),
            None => doc_step(
                match existing {
                    Some(e) => Some(e@),
                    None => None,
                },
                match doc {
                    Some(d) => Some(d@),
                    None => None,
                },
            ) is None,
        },
{
    let text = match doc {
        Some(d) => d,
        None => {
            return None;
        },
    };
    let content = trim_text(text);
    let empty = content.as_str().is_empty();
    match existing {
        Some(mut e) => {
            if !empty {
                push_char(&mut e, '\n');
                push_str(&mut e, content.as_str());
            }
            Some(e)
        },
        None => if !empty {
            Some(content)
        } else {
            None
        },
    }
}

/// The description doc attributes give: each attribute folded in turn.
pub open spec fn doc_description(attrs: Seq<Option<Seq<char>>>) -> Option<Seq<char>>
    decreases attrs.len(),
{
    if attrs.len() == 0 {
        None
    } else {
        doc_step(doc_description(attrs.drop_last()), attrs.last())
    }
}

/// The views of attribute texts.
pub open spec fn attr_views(attrs: Seq<Option<String>>) -> Seq<Option<Seq<char>>> {
    attrs.map_values(
        |a: Option<String>|
            match a {
                Some(s) => Some(s@),
                None => None,
            },
    )
}

/// Folds a function's attributes into its description.
pub fn description_from_attrs(attrs: &Vec<Option<String>>) -> (r: Option<String>)
    ensures
        match r {
            Some(s) => doc_description(attr_views(attrs@)) == Some(s@),
            None => doc_description(attr_views(attrs@)) is None,
        },
{
    let mut acc: Option<String> = None;
    let n = attrs.len();
    for i in 0..n
        invariant
            n == attrs@.len(),
            match acc {
                Some(s) => doc_description(attr_views(attrs@.take(i as int))) == Some(s@),
                None => doc_description(attr_views(attrs@.take(i as int))) is None,
            },
    {
        assert(attr_views(attrs@.take(i + 1)).drop_last() =~= attr_views(attrs@.take(i as int)));
        let doc = match &attrs[i] {
            Some(s) => Some(s.as_str()),
            None => None,
        };
        acc = extract_doc_line(acc, doc);
    }
    assert(attrs@.take(n as int) =~= attrs@);
    acc
}

/// The shape of a Rust type as the macros read it: a path of segments, each
/// with its generic arguments, or some other type.
#[derive(Debug, PartialEq)]
pub enum TypeShape {
    Path(Vec<PathSegment>),
    Other,
}

#[derive(Debug, PartialEq)]
pub struct PathSegment {
    pub ident: String,
    /// The angle-bracketed arguments; `None` where the segment has none.
    pub args: Option<Vec<GenericArg>>,
}

#[derive(Debug, PartialEq)]
pub enum GenericArg {
    Type(TypeShape),
    Other,
}

/// The type inside `Json<T>`: a path whose last segment is `Json` with a type as first argument.
pub open spec fn json_inner(ty: TypeShape) -> Option<TypeShape> {
    match ty {
        TypeShape::Path(segs) => if segs@.len() > 0 && segs@.last().ident@ == "Json"@ {
            match segs@.last().args {
                Some(args) => if args@.len() > 0 {
                    match args@[0] {
                        GenericArg::Type(t) => Some(t),
                        _ => None,
                    }
                } else {
                    None
                },
                None => None,
            }
        } else {
            None
        },
        _ => None,
    }
}

fn ident_is(s: &String, name: &str) -> (r: bool)
    ensures
        r == (s@ == name@),
{
    let n = name.to_owned();
    s.eq(&n)
}

/// The inner type of `Json<T>`.
pub fn extract_json_inner_type(ty: &TypeShape) -> (r: Option<&TypeShape>)
    ensures
        match json_inner(*ty) {
            Some(t) => r == Some(&t),
            None => r is None,
        },
{
    match ty {
        TypeShape::Path(segs) => {
            if segs.len() == 0 {
                return None;
            }
            let last = &segs[segs.len() - 1];
            if !ident_is(&last.ident, "Json") {
                return None;
            }
            match &last.args {
                Some(args) => {
                    if args.len() == 0 {
                        return None;
                    }
                    match &args[0] {
                        GenericArg::Type(t) => Some(t),
                        _ => None,
                    }
                },
                None => None,
            }
        },
        _ => None,
    }
}

/// The type whose schema describes a tool's output: `T` of a `Json<T>`
/// return type, or of `Result<Json<T>, E>`.
pub open spec fn output_schema_type(ret: TypeShape) -> Option<TypeShape> {
    match json_inner(ret) {
        Some(t) => Some(t),
        None => match ret {
            TypeShape::Path(segs) => if segs@.len() > 0 && segs@.last().ident@ == "Result"@ {
                match segs@.last().args {
                    Some(args) => if args@.len() > 0 {
                        match args@[0] {
                            GenericArg::Type(ok) => json_inner(ok),
                            _ => None,
                        }
                    } else {
                        None
                    },
                    None => None,
                }
            } else {
                None
            },
            _ => None,
        },
    }
}

/// The type whose schema describes a tool's output, from its return type.
pub fn extract_schema_from_return_type(ret: &TypeShape) -> (r: Option<&TypeShape>)
    ensures
        match output_schema_type(*ret) {
            Some(t) => r == Some(&t),
            None => r is None,
        },
{
    if let Some(t) = extract_json_inner_type(ret) {
        return Some(t);
    }
    match ret {
        TypeShape::Path(segs) => {
            if segs.len() == 0 {
                return None;
            }
            let last = &segs[segs.len() - 1];
            if !ident_is(&last.ident, "Result") {
                return None;
            }
            match &last.args {
                Some(args) => {
                    if args.len() == 0 {
                        return None;
                    }
                    match &args[0] {
                        GenericArg::Type(ok) => extract_json_inner_type(ok),
                        _ => None,
                    }
                },
                None => None,
            }
        },
        _ => None,
    }
}

/// A typed argument whose type is a path ending in `Parameters`.
pub open spec fn is_parameters_arg(input: Option<TypeShape>) -> bool {
    input matches Some(TypeShape::Path(segs)) && segs@.len() > 0 && segs@.last().ident@ == "Parameters"@
}

/// The position of the first `Parameters<T>` argument; `None` stands for the receiver.
pub fn find_parameters_type_in_sig(inputs: &Vec<Option<TypeShape>>) -> (r: Option<usize>)
    ensures
        match r {
            Some(i) => i < inputs@.len() && is_parameters_arg(inputs@[i as int]) && forall|j: int|
                0 <= j < i ==> !is_parameters_arg(#[trigger] inputs@[j]),
            None => forall|j: int| 0 <= j < inputs@.len() ==> !is_parameters_arg(#[trigger] inputs@[j]),
        },
{
    let n = inputs.len();
    for i in 0..n
        invariant
            n == inputs@.len(),
            forall|j: int| 0 <= j < i ==> !is_parameters_arg(#[trigger] inputs@[j]),
    {
        let hit = match &inputs[i] {
            Some(TypeShape::Path(segs)) => segs.len() > 0 && ident_is(&segs[segs.len() - 1].ident, "Parameters"),
            _ => false,
        };
        if hit {
            return Some(i);
        }
    }
    None
}

/// Hints a tool attribute gives about the tool's behaviour.
#[derive(Debug, Clone, PartialEq, Default)]
pub struct ToolAnnotationsAttribute {
    pub title: Option<String>,
    pub read_only_hint: Option<bool>,
    pub destructive_hint: Option<bool>,
    pub idempotent_hint: Option<bool>,
    pub open_world_hint: Option<bool>,
}

/// What a `#[tool(..)]` attribute states; expressions are kept as source text.
#[derive(Debug, PartialEq, Default)]
pub struct ToolAttribute {
    pub name: Option<String>,
    pub title: Option<String>,
    pub description: Option<String>,
    pub input_schema: Option<String>,
    pub output_schema: Option<String>,
    pub annotations: Option<ToolAnnotationsAttribute>,
    pub icons: Option<String>,
}

/// Where a tool's input schema comes from.
#[derive(Debug, PartialEq)]
pub enum InputSchema {
    /// The expression the attribute gives.
    Explicit(String),
    /// The schema of the `Parameters` argument at this position.
    FromParameters(usize),
    /// This schema, given in full: the schema of an object without properties
    /// when the tool takes no `Parameters` argument.
    Literal(JsonValue),
}

/// The input schema of a tool without parameters: `{"type":"object","properties":{}}`.
pub open spec fn empty_object_schema() -> JsonSpec {
    JsonSpec::Object(
        Map::<Seq<char>, JsonSpec>::empty().insert("type"@, JsonSpec::String("object"@)).insert(
            "properties"@,
            JsonSpec::Object(Map::empty()),
        ),
    )
}

/// `{"type":"object","properties":{}}`.
pub fn empty_object_schema_value() -> (r: JsonValue)
    ensures
        r@ == empty_object_schema(),
{
    let mut o = empty_object();
    let ty = json_string("object");
    let props = json_object(empty_object());
    let ghost tv = ty;
    let ghost pv = props;
    put(&mut o, "type", ty);
    put(&mut o, "properties", props);
    let ghost m = o.view();
    let r = json_object(o);
    proof {
        assert(JsonSpec::Object(Map::<Seq<char>, JsonValue>::empty().map_values(|v: JsonValue| json_view(v))) == JsonSpec::Object(Map::<Seq<char>, JsonSpec>::empty())) by {
            assert(Map::<Seq<char>, JsonValue>::empty().map_values(|v: JsonValue| json_view(v)) =~= Map::<Seq<char>, JsonSpec>::empty());
        }
        assert(m.map_values(|v: JsonValue| json_view(v)) =~= Map::<Seq<char>, JsonSpec>::empty().insert("type"@, JsonSpec::String("object"@)).insert(
            "properties"@,
            JsonSpec::Object(Map::empty()),
        ));
    }
    r
}

/// Where a tool's output schema comes from.
#[derive(Debug, PartialEq)]
pub enum OutputSchema {
    /// The expression the attribute gives.
    Explicit(String),
    /// The schema of this type, read from the return type.
    OfType(TypeShape),
}

/// A tool attribute with every default filled in.
#[derive(Debug, PartialEq)]
pub struct ResolvedToolAttribute {
    pub name: String,
    pub title: Option<String>,
    pub description: Option<String>,
    pub input_schema: InputSchema,
    pub output_schema: Option<OutputSchema>,
    pub annotations: Option<ToolAnnotationsAttribute>,
    pub icons: Option<String>,
}

/// The inner type of `Json<T>`, taken out of the type.
fn into_json_inner(ty: TypeShape) -> (r: Option<TypeShape>)
    ensures
        r == json_inner(ty),
{
    match ty {
        TypeShape::Path(mut segs) => {
            if segs.len() == 0 {
                return None;
            }
            let ghost before = segs@;
            let last = segs.pop().unwrap();
            assert(last == before.last());
            if !ident_is(&last.ident, "Json") {
                return None;
            }
            match last.args {
                Some(mut args) => {
                    if args.len() == 0 {
                        return None;
                    }
                    let first = args.remove(0);
                    match first {
                        GenericArg::Type(t) => Some(t),
                        _ => None,
                    }
                },
                None => None,
            }
        },
        _ => None,
    }
}

/// The type whose schema describes a tool's output, taken out of the return type.
fn into_output_schema_type(ret: TypeShape) -> (r: Option<TypeShape>)
    ensures
        r == output_schema_type(ret),
{
    let is_json = extract_json_inner_type(&ret).is_some();
    if is_json {
        return into_json_inner(ret);
    }
    match ret {
        TypeShape::Path(mut segs) => {
            if segs.len() == 0 {
                return None;
            }
            let ghost before = segs@;
            let last = segs.pop().unwrap();
            assert(last == before.last());
            if !ident_is(&last.ident, "Result") {
                return None;
            }
            match last.args {
                Some(mut args) => {
                    if args.len() == 0 {
                        return None;
                    }
                    let first = args.remove(0);
                    match first {
                        GenericArg::Type(ok) => into_json_inner(ok),
                        _ => None,
                    }
                },
                None => None,
            }
        },
        _ => None,
    }
}

/// Fills in a tool attribute: the name defaults to the function's, the
/// description to its doc comments, the input schema to that of its
/// `Parameters` argument (else an empty object), and the output schema to
/// that of `T` in a `Json<T>` or `Result<Json<T>, E>` return type.
pub fn resolve_tool_attribute(
    attr: ToolAttribute,
    fn_name: &str,
    attrs: &Vec<Option<String>>,
    inputs: &Vec<Option<TypeShape>>,
    output: Option<TypeShape>,
) -> (r: ResolvedToolAttribute)
    ensures
        r.name@ == match attr.name {
            Some(n) => n@,
            None => fn_name@,
        },
        r.title == attr.title,
        match attr.description {
            Some(d) => r.description == Some(d),
            None => match (r.description, doc_description(attr_views(attrs@))) {
                (Some(d), Some(t)) => d@ == t,
                (None, None) => true,
                _ => false,
            },
        },
        match attr.input_schema {
            Some(e) => r.input_schema == InputSchema::Explicit(e),
            None => match r.input_schema {
                InputSchema::FromParameters(i) => i < inputs@.len() && is_parameters_arg(inputs@[i as int])
                    && forall|j: int| 0 <= j < i ==> !is_parameters_arg(#[trigger] inputs@[j]),
                InputSchema::Literal(s) => s@ == empty_object_schema() && forall|j: int|
                    0 <= j < inputs@.len() ==> !is_parameters_arg(#[trigger] inputs@[j]),
                _ => false,
            },
        },
        match attr.output_schema {
            Some(e) => r.output_schema == Some(OutputSchema::Explicit(e)),
            None => match output {
                Some(t) => match output_schema_type(t) {
                    Some(x) => r.output_schema == Some(OutputSchema::OfType(x)),
                    None => r.output_schema is None,
                },
                None => r.output_schema is None,
            },
        },
        r.annotations == attr.annotations,
        r.icons == attr.icons,
{
    let name = match attr.name {
        Some(n) => n,
        None => fn_name.to_owned(),
    };
    let description = match attr.description {
        Some(d) => Some(d),
        None => description_from_attrs(attrs),
    };
    let input_schema = match attr.input_schema {
        Some(e) => InputSchema::Explicit(e),
        None => match find_parameters_type_in_sig(inputs) {
            Some(i) => InputSchema::FromParameters(i),
            None => InputSchema::Literal(empty_object_schema_value()),
        },
    };
    let output_schema = match attr.output_schema {
        Some(e) => Some(OutputSchema::Explicit(e)),
        None => match output {
            Some(t) => match into_output_schema_type(t) {
                Some(x) => Some(OutputSchema::OfType(x)),
                None => None,
            },
            None => None,
        },
    };
    ResolvedToolAttribute {
        name,
        title: attr.title,
        description,
        input_schema,
        output_schema,
        annotations: attr.annotations,
        icons: attr.icons,
    }
}

/// The name of the function a `#[tool]` or `#[prompt]` macro adds for a
/// function: its name followed by `_<kind>_attr`.
pub open spec fn attr_fn_name(fn_name: Seq<char>, kind: Seq<char>) -> Seq<char> {
    fn_name + "_"@ + kind + "_attr"@
}

/// The name of the attribute function for `fn_name`.
pub fn attr_fn_ident(fn_name: &str, kind: &str) -> (r: String)
    ensures
        r@ == attr_fn_name(fn_name@, kind@),
{
    let a = concat(fn_name, "_");
    let b = concat(a.as_str(), kind);
    concat(b.as_str(), "_attr")
}

/// What a `#[prompt]` attribute gives for a function: the prompt's name
/// (the function's when none is given), its description (the given one, else
/// the doc comments), and the arguments read from its parameters' schema.
pub fn resolve_prompt_attribute(
    fn_name: &str,
    name: Option<String>,
    description: Option<String>,
    attrs: &Vec<Option<String>>,
    arguments: Option<Vec<PromptArgument>>,
) -> (r: Prompt)
    ensures
        r.name@ == match name {
            Some(n) => n@,
            None => fn_name@,
        },
        match description {
            Some(d) => r.description == Some(d),
            None => match (r.description, doc_description(attr_views(attrs@))) {
                (Some(d), Some(t)) => d@ == t,
                (None, None) => true,
                _ => false,
            },
        },
        r.arguments == arguments,
{
    let name = match name {
        Some(n) => n,
        None => fn_name.to_owned(),
    };
    let description = match description {
        Some(d) => Some(d),
        None => description_from_attrs(attrs),
    };
    Prompt { name, description, arguments }
}

/// Whether `name` is among the strings of a JSON array.
pub open spec fn listed(required: Option<JsonValue>, name: Seq<char>) -> bool {
    required matches Some(JsonValue::Array(items)) && exists|i: int|
        0 <= i < items@.len() && json_str(#[trigger] items@[i]) == Some(name)
}

/// The argument a property of a parameters schema stands for.
pub open spec fn argument_of(name: Seq<char>, prop: JsonValue, required: Option<JsonValue>) -> (
    Seq<char>,
    Option<Seq<char>>,
    Option<bool>,
) {
    (
        name,
        match json_get(prop, "description"@) {
            Some(d) => json_str(d),
            None => None,
        },
        Some(listed(required, name)),
    )
}

/// The view of a prompt argument.
pub open spec fn argument_view(a: PromptArgument) -> (Seq<char>, Option<Seq<char>>, Option<bool>) {
    (
        a.name@,
        match a.description {
            Some(d) => Some(d@),
            None => None,
        },
        a.required,
    )
}

fn is_listed(required: Option<&JsonValue>, name: &String) -> (r: bool)
    ensures
        r == listed(
            match required {
                Some(v) => Some(*v),
                None => None,
            },
            name@,
        ),
{
    match required {
        Some(JsonValue::Array(items)) => {
            let n = items.len();
            for i in 0..n
                invariant
                    n == items@.len(),
                    match required {
                        Some(v) => *v == JsonValue::Array(*items),
                        None => false,
                    },
                    forall|j: int| 0 <= j < i ==> json_str(#[trigger] items@[j]) != Some(name@),
            {
                match &items[i] {
                    JsonValue::String(s) => {
                        assert(json_str(items@[i as int]) == Some(s@));
                        if s.eq(name) {
                            assert(json_str(items@[i as int]) == Some(name@));
                            assert(listed(Some(JsonValue::Array(*items)), name@));
                            return true;
                        }
                    },
                    _ => {},
                }
            }
            false
        },
        _ => false,
    }
}

/// The arguments of a prompt, read from the JSON schema of its parameters:
/// one per property, in order, with the property's description, required
/// when the schema lists it as required; none when there is no property.
pub fn arguments_from_schema(schema: &JsonValue) -> (r: Option<Vec<PromptArgument>>)
    requires
        json_deep_wf(*schema),
    ensures
        match json_get(*schema, "properties"@) {
            Some(JsonValue::Object(props)) => if props.entries@.len() == 0 {
                r is None
            } else {
                r matches Some(args) && args@.len() == props.entries@.len() && forall|i: int|
                    0 <= i < args@.len() ==> #[trigger] argument_view(args@[i]) == argument_of(
                        props.entries@[i].0@,
                        props.entries@[i].1,
                        json_get(*schema, "required"@),
                    )
            },
            _ => r is None,
        },
{
    let props = match schema.get("properties") {
        Some(JsonValue::Object(o)) => o,
        _ => {
            return None;
        },
    };
    proof {
        crate::json::lemma_member_deep_wf(*schema, "properties"@);
    }
    let required = schema.get("required");
    let mut args: Vec<PromptArgument> = Vec::new();
    let n = props.entries.len();
    for i in 0..n
        invariant
            n == props.entries@.len(),
            json_deep_wf(JsonValue::Object(*props)),
            args@.len() == i,
            forall|j: int|
                0 <= j < i ==> #[trigger] argument_view(args@[j]) == argument_of(
                    props.entries@[j].0@,
                    props.entries@[j].1,
                    match required {
                        Some(v) => Some(*v),
                        None => None,
                    },
                ),
    {
        let name = &props.entries[i].0;
        let prop = &props.entries[i].1;
        assert(json_deep_wf(*prop));
        let description = match prop.get("description") {
            Some(d) => match d.as_str() {
                Some(s) => Some(s.clone()),
                None => None,
            },
            None => None,
        };
        let req = is_listed(required, name);
        args.push(PromptArgument { name: name.clone(), description, required: Some(req) });
    }
    if n == 0 {
        None
    } else {
        Some(args)
    }
}

/// What a router macro reads of an item of an impl block: for a function,
/// its name and the last path segment of each of its attributes.
#[derive(Debug, PartialEq)]
pub enum ImplItemShape {
    Fn { name: String, attrs: Vec<String> },
    Other,
}

/// The item is a function carrying an attribute whose last segment is `kind`.
pub open spec fn is_marked(item: ImplItemShape, kind: Seq<char>) -> bool {
    item matches ImplItemShape::Fn { attrs, .. } && exists|k: int| 0 <= k < attrs@.len() && #[trigger] attrs@[k]@
        == kind
}

/// The functions marked with `kind`, in order.
pub open spec fn marked_fns(items: Seq<ImplItemShape>, kind: Seq<char>) -> Seq<Seq<char>>
    decreases items.len(),
{
    if items.len() == 0 {
        Seq::empty()
    } else {
        let rest = marked_fns(items.drop_last(), kind);
        if is_marked(items.last(), kind) {
            rest.push(items.last()->Fn_name@)
        } else {
            rest
        }
    }
}

/// The functions a `#[tool_router]` or `#[prompt_router]` routes to: those
/// marked with the `kind` attribute, in the order of the impl block.
pub fn routed_functions(items: &Vec<ImplItemShape>, kind: &str) -> (r: Vec<String>)
    ensures
        r@.map_values(|s: String| s@) == marked_fns(items@, kind@),
{
    let mut out: Vec<String> = Vec::new();
    let n = items.len();
    for i in 0..n
        invariant
            n == items@.len(),
            out@.map_values(|s: String| s@) == marked_fns(items@.take(i as int), kind@),
    {
        assert(items@.take(i + 1).drop_last() =~= items@.take(i as int));
        assert(items@.take(i + 1).last() == items@[i as int]);
        match &items[i] {
            ImplItemShape::Fn { name, attrs } => {
                let m = attrs.len();
                let mut marked = false;
                for k in 0..m
                    invariant
                        m == attrs@.len(),
                        marked == exists|j: int| 0 <= j < k && #[trigger] attrs@[j]@ == kind@,
                {
                    if ident_is(&attrs[k], kind) {
                        marked = true;
                    }
                }
                if marked {
                    let ghost before = out@;
                    out.push(name.clone());
                    assert(out@.map_values(|s: String| s@) =~= before.map_values(|s: String| s@).push(name@));
                }
            },
            ImplItemShape::Other => {},
        }
    }
    assert(items@.take(n as int) =~= items@);
    out
}

/// The name of the function a router macro adds: the given one, else `<kind>_router`.
pub fn router_fn_name(router: Option<String>, kind: &str) -> (r: String)
    ensures
        r@ == match router {
            Some(n) => n@,
            None => kind@ + "_router"@,
        },
{
    match router {
        Some(n) => n,
        None => concat(kind, "_router"),
    }
}

/// An item of the impl block a `#[prompt_handler]` produces.
#[derive(Debug, Clone, Copy, PartialEq, Eq, Structural)]
pub enum HandlerItem {
    /// The item at this position of the input, kept.
    Kept(usize),
    /// The generated `get_prompt`.
    GetPrompt,
    /// The generated `list_prompts`.
    ListPrompts,
}

/// The items of the impl block: each `get_prompt` or `list_prompts` function
/// is replaced in place by the generated one, every other item is kept, and
/// a generated method that replaced nothing is added at the end.
pub open spec fn handler_items(items: Seq<Option<Seq<char>>>) -> Seq<HandlerItem> {
    let with_get = if has_named(items, "get_prompt"@) {
        mapped_items(items)
    } else {
        mapped_items(items).push(HandlerItem::GetPrompt)
    };
    if has_named(items, "list_prompts"@) {
        with_get
    } else {
        with_get.push(HandlerItem::ListPrompts)
    }
}

/// Some item is a function called `name`.
pub open spec fn has_named(items: Seq<Option<Seq<char>>>, name: Seq<char>) -> bool {
    exists|i: int| 0 <= i < items.len() && items[i] == Some(name)
}

/// What becomes of each input item.
pub open spec fn mapped_item(item: Option<Seq<char>>, i: int) -> HandlerItem {
    if item == Some("get_prompt"@) {
        HandlerItem::GetPrompt
    } else if item == Some("list_prompts"@) {
        HandlerItem::ListPrompts
    } else {
        HandlerItem::Kept(i as usize)
    }
}

/// The input items, each replaced or kept.
pub open spec fn mapped_items(items: Seq<Option<Seq<char>>>) -> Seq<HandlerItem> {
    Seq::new(items.len(), |i: int| mapped_item(items[i], i))
}

/// The views of item names (`None` for an item that is not a function).
pub open spec fn item_views(items: Seq<Option<String>>) -> Seq<Option<Seq<char>>> {
    attr_views(items)
}

/// Plans the impl block a `#[prompt_handler]` produces from the names of
/// its items (`None` for an item that is not a function).
pub fn prompt_handler_items(items: &Vec<Option<String>>) -> (r: Vec<HandlerItem>)
    ensures
        r@ == handler_items(item_views(items@)),
{
    proof {
        reveal_strlit("get_prompt");
        reveal_strlit("list_prompts");
        assert("get_prompt"@[0] != "list_prompts"@[0]);
    }
    let ghost v = item_views(items@);
    let mut out: Vec<HandlerItem> = Vec::new();
    let mut has_get = false;
    let mut has_list = false;
    let n = items.len();
    for i in 0..n
        invariant
            n == items@.len(),
            v == item_views(items@),
            "get_prompt"@ != "list_prompts"@,
            out@.len() == i,
            forall|j: int| 0 <= j < i ==> out@[j] == mapped_item(v[j], j),
            has_get == exists|j: int| 0 <= j < i && v[j] == Some("get_prompt"@),
            has_list == exists|j: int| 0 <= j < i && v[j] == Some("list_prompts"@),
    {
        let item = match &items[i] {
            Some(name) => {
                assert(v[i as int] == Some(name@));
                if ident_is(name, "get_prompt") {
                    has_get = true;
                    HandlerItem::GetPrompt
                } else if ident_is(name, "list_prompts") {
                    has_list = true;
                    HandlerItem::ListPrompts
                } else {
                    HandlerItem::Kept(i)
                }
            },
            None => {
                assert(v[i as int] is None);
                HandlerItem::Kept(i)
            },
        };
        out.push(item);
    }
    assert(out@ =~= mapped_items(v));
    if !has_get {
        out.push(HandlerItem::GetPrompt);
    }
    if !has_list {
        out.push(HandlerItem::ListPrompts);
    }
    out
}

/// A handler produced by `#[prompt_handler]` has exactly one way to answer
/// each of the two methods: every input item named `get_prompt` or
/// `list_prompts` is replaced, every other item is kept in place, and each
/// generated method occurs in the result.
pub proof fn lemma_handler_items_complete(items: Seq<Option<Seq<char>>>)
    ensures
        exists|i: int| 0 <= i < handler_items(items).len() && handler_items(items)[i] == HandlerItem::GetPrompt,
        exists|i: int| 0 <= i < handler_items(items).len() && handler_items(items)[i] == HandlerItem::ListPrompts,
        forall|i: int|
            0 <= i < items.len() && items[i] != Some("get_prompt"@) && items[i] != Some("list_prompts"@)
                ==> #[trigger] handler_items(items)[i] == HandlerItem::Kept(i as usize),
{
    reveal_strlit("get_prompt");
    reveal_strlit("list_prompts");
    assert("get_prompt"@[0] != "list_prompts"@[0]);
    let r = handler_items(items);
    let m = mapped_items(items);
    assert(forall|i: int| 0 <= i < items.len() ==> r[i] == #[trigger] m[i]);
    if has_named(items, "get_prompt"@) {
        let i = choose|i: int| 0 <= i < items.len() && items[i] == Some("get_prompt"@);
        assert(m[i] == HandlerItem::GetPrompt);
        assert(r[i] == HandlerItem::GetPrompt);
    } else {
        assert(r[items.len() as int] == HandlerItem::GetPrompt);
    }
    if has_named(items, "list_prompts"@) {
        let i = choose|i: int| 0 <= i < items.len() && items[i] == Some("list_prompts"@);
        assert(m[i] == HandlerItem::ListPrompts);
        assert(r[i] == HandlerItem::ListPrompts);
    } else {
        assert(r[r.len() - 1] == HandlerItem::ListPrompts);
    }
}

/// The router a `#[tool_handler]` or `#[prompt_handler]` delegates to: the
/// given expression, else the `<kind>_router` field of `self`.
pub fn handler_router_expr(router: Option<String>, kind: &str) -> (r: String)
    ensures
        r@ == match router {
            Some(e) => e@,
            None => "self."@ + kind@ + "_router"@,
        },
{
    match router {
        Some(e) => e,
        None => {
            let a = concat("self.", kind);
            concat(a.as_str(), "_router")
        },
    }
}


/// The attributes of `item`, a function, include one whose last segment is `kind`.
pub open spec fn carries_attribute(item: ImplItemShape, kind: Seq<char>) -> bool {
    &&& item is Fn
    &&& exists|k: int| 0 <= k < item->Fn_attrs@.len() && #[trigger] item->Fn_attrs@[k]@ == kind
}

/// A router routes exactly the functions that carry its attribute, wherever it
/// stands among their attributes: the name of every function with an attribute
/// `kind` is routed, and every routed name is that of such a function.
pub proof fn lemma_routed_functions_are_the_marked_ones(items: Seq<ImplItemShape>, kind: Seq<char>)
    ensures
        forall|i: int|
            0 <= i < items.len() && carries_attribute(#[trigger] items[i], kind) ==> marked_fns(items, kind).contains(
                items[i]->Fn_name@,
            ),
        forall|j: int|
            0 <= j < marked_fns(items, kind).len() ==> exists|i: int|
                0 <= i < items.len() && carries_attribute(#[trigger] items[i], kind) && items[i]->Fn_name@
                    == #[trigger] marked_fns(items, kind)[j],
    decreases items.len(),
{
    if items.len() > 0 {
        let init = items.drop_last();
        let last = items.last();
        lemma_routed_functions_are_the_marked_ones(init, kind);
        let r0 = marked_fns(init, kind);
        let r = marked_fns(items, kind);
        assert(is_marked(last, kind) == carries_attribute(last, kind));
        assert forall|i: int|
            0 <= i < items.len() && carries_attribute(#[trigger] items[i], kind) implies r.contains(items[i]->Fn_name@) by {
            if i < items.len() - 1 {
                assert(init[i] == items[i]);
                let j = choose|j: int| 0 <= j < r0.len() && r0[j] == items[i]->Fn_name@;
                assert(r[j] == r0[j]);
            } else {
                assert(r[r.len() - 1] == items[i]->Fn_name@);
            }
        }
        assert forall|j: int| 0 <= j < r.len() implies exists|i: int|
            0 <= i < items.len() && carries_attribute(#[trigger] items[i], kind) && items[i]->Fn_name@ == #[trigger] r[j] by {
            if j < r0.len() {
                assert(r[j] == r0[j]);
                let i = choose|i: int|
                    0 <= i < init.len() && carries_attribute(#[trigger] init[i], kind) && init[i]->Fn_name@ == r0[j];
                assert(items[i] == init[i]);
            } else {
                assert(items[items.len() - 1] == last);
            }
        }
    } else {
        assert(marked_fns(items, kind).len() == 0);
    }
}

/// The functions routed from two runs of items are those of the first run,
/// then those of the second.
pub proof fn lemma_routed_functions_concat(a: Seq<ImplItemShape>, b: Seq<ImplItemShape>, kind: Seq<char>)
    ensures
        marked_fns(a + b, kind) == marked_fns(a, kind) + marked_fns(b, kind),
    decreases b.len(),
{
    if b.len() == 0 {
        assert(a + b =~= a);
        assert(marked_fns(a, kind) + marked_fns(b, kind) =~= marked_fns(a, kind));
    } else {
        lemma_routed_functions_concat(a, b.drop_last(), kind);
        assert((a + b).drop_last() =~= a + b.drop_last());
        assert((a + b).last() == b.last());
        let x = marked_fns(a, kind);
        let y = marked_fns(b.drop_last(), kind);
        if is_marked(b.last(), kind) {
            assert((x + y).push(b.last()->Fn_name@) =~= x + y.push(b.last()->Fn_name@));
        }
    }
}


/// One item is routed, under its name, exactly when it is a function carrying
/// an attribute `kind`; with the law for two runs of items this fixes the
/// routed functions of every impl block, in order.
pub proof fn lemma_routed_function_single(item: ImplItemShape, kind: Seq<char>)
    ensures
        marked_fns(seq![item], kind) == if carries_attribute(item, kind) {
            seq![item->Fn_name@]
        } else {
            Seq::<Seq<char>>::empty()
        },
{
    let s = seq![item];
    assert(s.drop_last() =~= Seq::<ImplItemShape>::empty());
    assert(s.last() == item);
    assert(marked_fns(Seq::<ImplItemShape>::empty(), kind).len() == 0);
    assert(marked_fns(s.drop_last(), kind) =~= Seq::<Seq<char>>::empty());
    assert(is_marked(item, kind) == carries_attribute(item, kind));
    assert(Seq::<Seq<char>>::empty().push(item->Fn_name@) =~= seq![item->Fn_name@]);
}

} // verus!
