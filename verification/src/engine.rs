//! The page renderer's side of the template engine: a render context is
//! made into the engine's own context value by value, and the outcome of
//! the engine's rendering is taken back. The rendering itself is the
//! caller's to run: a template may call functions that do not return.

use crate::context::{
    bound, entity_json, link_json, no_variables, slider_json, Binding, ContextValue, Json,
    RenderContext,
};
use crate::record::{GenericEntityRecord, LinkRecord, SliderRecord};
use crate::response::PageError;
use vstd::prelude::*;

verus! {

/// The engine's value type, `tera::Value`.
#[verifier::external_type_specification]
#[verifier::external_body]
pub struct ExValue(tera::Value);

/// The engine's object type, `tera::Map`.
#[verifier::external_type_specification]
#[verifier::external_body]
#[verifier::reject_recursive_types(K)]
#[verifier::reject_recursive_types(V)]
pub struct ExMap<K, V>(tera::Map<K, V>);

/// The engine's context type, `tera::Context`.
#[verifier::external_type_specification]
#[verifier::external_body]
pub struct ExContext(tera::Context);

/// The engine's error type, `tera::Error`.
#[verifier::external_type_specification]
#[verifier::external_body]
pub struct ExError(tera::Error);

/// What an engine value holds.
pub uninterp spec fn json_of(value: tera::Value) -> Json;

/// The members of an engine object, by name.
pub uninterp spec fn object_members(object: tera::Map<String, tera::Value>) -> Map<Seq<char>, Json>;

/// The variables of an engine context, by name.
pub uninterp spec fn context_variables(context: tera::Context) -> Map<Seq<char>, Json>;

/// What each of a sequence of engine values holds.
pub open spec fn jsons_of(values: Seq<tera::Value>) -> Seq<Json> {
    Seq::new(values.len(), |i: int| json_of(values[i]))
}

/// `tera::Value::from` on an `i64`: the value is the number `i`.
#[verifier::external_body]
fn value_integer(i: i64) -> (value: tera::Value)
    ensures
        json_of(value) == Json::Int(i as int),
{
    tera::Value::from(i)
}

/// `tera::Value::from` on a `&str`: the value is a string with the
/// characters of `s`.
#[verifier::external_body]
fn value_text(s: &str) -> (value: tera::Value)
    ensures
        json_of(value) == Json::Text(s@),
{
    tera::Value::from(s)
}

/// `tera::Value::Array`: the value is the list of the items, in order.
#[verifier::external_body]
fn value_list(items: Vec<tera::Value>) -> (value: tera::Value)
    ensures
        json_of(value) == Json::List(jsons_of(items@)),
{
    tera::Value::Array(items)
}

/// `tera::Value::Object`: the value is the object with the members of
/// `object`.
#[verifier::external_body]
fn value_object(object: tera::Map<String, tera::Value>) -> (value: tera::Value)
    ensures
        json_of(value) == Json::Object(object_members(object)),
{
    tera::Value::Object(object)
}

/// `tera::Map::new`: an object without members.
#[verifier::external_body]
fn object_new() -> (object: tera::Map<String, tera::Value>)
    ensures
        object_members(object) == no_variables(),
{
    tera::Map::new()
}

/// `tera::Map::insert`: the member `name` is set to `value`, replacing an
/// earlier member of that name; the other members stay.
#[verifier::external_body]
fn object_insert(object: &mut tera::Map<String, tera::Value>, name: &str, value: tera::Value)
    ensures
        object_members(*final(object)) == object_members(*old(object)).insert(
            name@,
            json_of(value),
        ),
{
    object.insert(name.to_owned(), value);
}

/// `tera::Context::new`: a context without variables.
#[verifier::external_body]
fn context_new() -> (context: tera::Context)
    ensures
        context_variables(context) == no_variables(),
{
    tera::Context::new()
}

/// `tera::Context::insert` with an engine value: the variable `name` is
/// set to a value that holds what `value` holds, replacing an earlier
/// variable of that name; the other variables stay.
#[verifier::external_body]
fn context_insert(context: &mut tera::Context, name: &str, value: &tera::Value)
    ensures
        context_variables(*final(context)) == context_variables(*old(context)).insert(
            name@,
            json_of(*value),
        ),
{
    context.insert(name, value);
}

/// The engine value of a link record.
pub fn link_value(record: &LinkRecord) -> (value: tera::Value)
    ensures
        json_of(value) == link_json(record@),
{
    let mut object = object_new();
    object_insert(&mut object, "id", value_integer(record.id as i64));
    object_insert(&mut object, "codice", value_text(record.codice.as_str()));
    object_insert(&mut object, "img", value_text(record.img.as_str()));
    object_insert(&mut object, "titolo", value_text(record.titolo.as_str()));
    object_insert(&mut object, "attivo", value_integer(record.attivo as i64));
    object_insert(&mut object, "descrizione", value_text(record.descrizione.as_str()));
    object_insert(&mut object, "link", value_text(record.link.as_str()));
    object_insert(&mut object, "height", value_text(record.height.as_str()));
    object_insert(&mut object, "width", value_text(record.width.as_str()));
    value_object(object)
}

/// The engine value of a slider record.
pub fn slider_value(record: &SliderRecord) -> (value: tera::Value)
    ensures
        json_of(value) == slider_json(record@),
{
    let mut object = object_new();
    object_insert(&mut object, "id", value_integer(record.id));
    object_insert(&mut object, "codice", value_text(record.codice.as_str()));
    object_insert(&mut object, "codice2", value_text(record.codice2.as_str()));
    object_insert(&mut object, "img", value_text(record.img.as_str()));
    object_insert(&mut object, "titolo", value_text(record.titolo.as_str()));
    object_insert(&mut object, "caption", value_text(record.caption.as_str()));
    object_insert(&mut object, "link", value_text(record.link.as_str()));
    object_insert(&mut object, "testo", value_text(record.testo.as_str()));
    value_object(object)
}

/// The engine value of a user record.
pub fn entity_value(record: &GenericEntityRecord) -> (value: tera::Value)
    ensures
        json_of(value) == entity_json(record@),
{
    let mut object = object_new();
    object_insert(&mut object, "id", value_integer(record.id));
    object_insert(&mut object, "nome", value_text(record.nome.as_str()));
    object_insert(&mut object, "email", value_text(record.email.as_str()));
    value_object(object)
}

/// The engine value of what a variable is bound to: a scalar as it is, a
/// sequence of records as the list of their objects, in order.
pub fn context_value(value: &ContextValue) -> (out: tera::Value)
    ensures
        json_of(out) == value@,
{
    match value {
        ContextValue::Text(s) => value_text(s.as_str()),
        ContextValue::Integer(i) => value_integer(*i),
        ContextValue::Links(records) => {
            let mut items: Vec<tera::Value> = Vec::new();
            let mut i: usize = 0;
            while i < records.len()
                invariant
                    i <= records.len(),
                    items.len() == i,
                    forall|k: int|
                        0 <= k < i ==> json_of(#[trigger] items[k]) == link_json(records[k]@),
                decreases records.len() - i,
            {
                items.push(link_value(&records[i]));
                i += 1;
            }
            assert(jsons_of(items@) =~= Seq::new(
                records.len() as nat,
                |k: int| link_json(records[k]@),
            ));
            value_list(items)
        },
        ContextValue::Sliders(records) => {
            let mut items: Vec<tera::Value> = Vec::new();
            let mut i: usize = 0;
            while i < records.len()
                invariant
                    i <= records.len(),
                    items.len() == i,
                    forall|k: int|
                        0 <= k < i ==> json_of(#[trigger] items[k]) == slider_json(records[k]@),
                decreases records.len() - i,
            {
                items.push(slider_value(&records[i]));
                i += 1;
            }
            assert(jsons_of(items@) =~= Seq::new(
                records.len() as nat,
                |k: int| slider_json(records[k]@),
            ));
            value_list(items)
        },
        ContextValue::Entities(records) => {
            let mut items: Vec<tera::Value> = Vec::new();
            let mut i: usize = 0;
            while i < records.len()
                invariant
                    i <= records.len(),
                    items.len() == i,
                    forall|k: int|
                        0 <= k < i ==> json_of(#[trigger] items[k]) == entity_json(records[k]@),
                decreases records.len() - i,
            {
                items.push(entity_value(&records[i]));
                i += 1;
            }
            assert(jsons_of(items@) =~= Seq::new(
                records.len() as nat,
                |k: int| entity_json(records[k]@),
            ));
            value_list(items)
        },
    }
}

/// The engine context with the variables of `context`, each with the value
/// it is bound to.
pub fn engine_context(context: &RenderContext) -> (out: tera::Context)
    ensures
        context_variables(out) == context@,
{
    let mut out = context_new();
    let n = context.len();
    let mut i: usize = 0;
    while i < n
        invariant
            n == context.history().len(),
            i <= n,
            context_variables(out) == bound(context.history().take(i as int)),
        decreases n - i,
    {
        let binding: &Binding = context.binding(i);
        let value = context_value(&binding.value);
        context_insert(&mut out, binding.name.as_str(), &value);
        proof {
            let next = context.history().take(i + 1);
            assert(next.drop_last() =~= context.history().take(i as int));
            assert(next.last() == context.history()[i as int]);
        }
        i += 1;
    }
    proof {
        assert(context.history().take(n as int) =~= context.history());
        context.lemma_view_is_bound();
    }
    out
}

/// The outcome of a rendering without the engine's detail: the text, or
/// [`PageError::Render`] for every failure.
pub open spec fn engine_outcome(outcome: Result<String, tera::Error>) -> Result<
    Seq<char>,
    PageError,
> {
    match outcome {
        Ok(html) => Ok(html@),
        Err(_) => Err(PageError::Render),
    }
}

/// The outcome of a rendering as this library reports it: the text that the
/// engine produced, or [`PageError::Render`] in place of the engine's error.
pub fn rendered(outcome: Result<String, tera::Error>) -> (r: Result<String, PageError>)
    ensures
        outcome is Ok ==> (r is Ok && r->Ok_0@ == outcome->Ok_0@),
        outcome is Err ==> (r is Err && r->Err_0 == PageError::Render),
{
    match outcome {
        Ok(html) => Ok(html),
        Err(_) => Err(PageError::Render),
    }
}

} // verus!
