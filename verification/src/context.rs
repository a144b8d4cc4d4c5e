//! The render context: the variables that a template sees, each bound to a
//! scalar or to an ordered sequence of records.

use crate::record::{
    GenericEntityRecord, GenericEntityRecordView, LinkRecord, LinkRecordView, SliderRecord,
    SliderRecordView,
};
use vstd::prelude::*;

verus! {

/// A value as a template sees it.
pub ghost enum Json {
    Int(int),
    Text(Seq<char>),
    List(Seq<Json>),
    Object(Map<Seq<char>, Json>),
}

/// A link record as a template sees it: an object with one member for each
/// field, under the field's name.
pub open spec fn link_json(record: LinkRecordView) -> Json {
    Json::Object(
        Map::empty().insert("id"@, Json::Int(record.id)).insert(
            "codice"@,
            Json::Text(record.codice),
        ).insert("img"@, Json::Text(record.img)).insert("titolo"@, Json::Text(record.titolo)).insert(
            "attivo"@,
            Json::Int(record.attivo),
        ).insert("descrizione"@, Json::Text(record.descrizione)).insert(
            "link"@,
            Json::Text(record.link),
        ).insert("height"@, Json::Text(record.height)).insert("width"@, Json::Text(record.width)),
    )
}

/// A slider record as a template sees it.
pub open spec fn slider_json(record: SliderRecordView) -> Json {
    Json::Object(
        Map::empty().insert("id"@, Json::Int(record.id)).insert(
            "codice"@,
            Json::Text(record.codice),
        ).insert("codice2"@, Json::Text(record.codice2)).insert(
            "img"@,
            Json::Text(record.img),
        ).insert("titolo"@, Json::Text(record.titolo)).insert(
            "caption"@,
            Json::Text(record.caption),
        ).insert("link"@, Json::Text(record.link)).insert("testo"@, Json::Text(record.testo)),
    )
}

/// A user record as a template sees it.
pub open spec fn entity_json(record: GenericEntityRecordView) -> Json {
    Json::Object(
        Map::empty().insert("id"@, Json::Int(record.id)).insert(
            "nome"@,
            Json::Text(record.nome),
        ).insert("email"@, Json::Text(record.email)),
    )
}

/// No variable at all.
pub open spec fn no_variables() -> Map<Seq<char>, Json> {
    Map::empty()
}

/// What a template variable is bound to.
#[derive(Debug)]
pub enum ContextValue {
    Text(String),
    Integer(i64),
    Links(Vec<LinkRecord>),
    Sliders(Vec<SliderRecord>),
    Entities(Vec<GenericEntityRecord>),
}

impl View for ContextValue {
    type V = Json;

    open spec fn view(&self) -> Json {
        match *self {
            ContextValue::Text(s) => Json::Text(s@),
            ContextValue::Integer(i) => Json::Int(i as int),
            ContextValue::Links(records) => Json::List(
                Seq::new(records.len() as nat, |i: int| link_json(records[i]@)),
            ),
            ContextValue::Sliders(records) => Json::List(
                Seq::new(records.len() as nat, |i: int| slider_json(records[i]@)),
            ),
            ContextValue::Entities(records) => Json::List(
                Seq::new(records.len() as nat, |i: int| entity_json(records[i]@)),
            ),
        }
    }
}

/// One variable with its value.
#[derive(Debug)]
pub struct Binding {
    pub name: String,
    pub value: ContextValue,
}

/// The variables that a sequence of bindings defines: a later binding of a
/// name replaces an earlier one.
pub open spec fn bound(bindings: Seq<Binding>) -> Map<Seq<char>, Json>
    decreases bindings.len(),
{
    if bindings.len() == 0 {
        Map::empty()
    } else {
        bound(bindings.drop_last()).insert(bindings.last().name@, bindings.last().value@)
    }
}

/// The variables of one rendering. It is made for one request and dropped
/// after it.
#[derive(Debug)]
pub struct RenderContext {
    bindings: Vec<Binding>,
}

impl View for RenderContext {
    type V = Map<Seq<char>, Json>;

    closed spec fn view(&self) -> Map<Seq<char>, Json> {
        bound(self.bindings@)
    }
}

impl RenderContext {
    /// The bindings in the order in which they were made.
    pub closed spec fn history(&self) -> Seq<Binding> {
        self.bindings@
    }

    /// A context without variables.
    pub fn new() -> (context: RenderContext)
        ensures
            context@ == no_variables(),
            context.history().len() == 0,
    {
        RenderContext { bindings: Vec::new() }
    }

    /// Binds `name` to `value`; an earlier binding of `name` is replaced.
    pub fn insert(&mut self, name: &str, value: ContextValue)
        ensures
            final(self)@ == old(self)@.insert(name@, value@),
            final(self).history().len() == old(self).history().len() + 1,
            final(self).history().drop_last() == old(self).history(),
            final(self).history().last().name@ == name@,
            final(self).history().last().value == value,
    {
        let ghost before = self.bindings@;
        self.bindings.push(Binding { name: name.to_owned(), value });
        assert(self.bindings@.drop_last() =~= before);
    }

    /// Number of bindings that were made.
    pub fn len(&self) -> (n: usize)
        ensures
            n == self.history().len(),
    {
        self.bindings.len()
    }

    /// The binding made as the `index`-th.
    pub fn binding(&self, index: usize) -> (b: &Binding)
        requires
            index < self.history().len(),
        ensures
            *b == self.history()[index as int],
    {
        &self.bindings[index]
    }

    /// The context is what its bindings define, taken in order.
    pub proof fn lemma_view_is_bound(&self)
        ensures
            self@ == bound(self.history()),
    {
    }
}

} // verus!
