//! The handler of a page: from the outcome of the page's query to what the
//! engine is asked to render, and from the outcome of the rendering to the
//! response. The caller runs the query and the rendering.

use crate::context::{
    link_json, no_variables, slider_json, ContextValue, Json, RenderContext,
};
use crate::engine::{context_variables, engine_context, engine_outcome, rendered};
use crate::record::{
    decode_rows, lemma_records_by_index, rows_fault, rows_sound, LinkRecord, Record, SliderRecord,
};
use crate::response::{respond, response_of, PageError, QueryError, Response};
use crate::route::{
    shape_of_page, template_of_page, Page, RecordShape, RECORDS_VARIABLE, SLIDER_KEY,
};
use crate::row::{rows_cells, RowDecodeError, SqlCell, SqlValue};
use vstd::prelude::*;

verus! {

/// Every row can become a record of the page's shape.
pub open spec fn page_rows_sound(page: Page, rows: Seq<Seq<SqlCell>>) -> bool {
    match shape_of_page(page) {
        RecordShape::Link => rows_sound::<LinkRecord>(rows),
        RecordShape::Slider => rows_sound::<SliderRecord>(rows),
    }
}

/// `e` is the fault of the first row that cannot become a record of the
/// page's shape.
pub open spec fn page_rows_fault(page: Page, rows: Seq<Seq<SqlCell>>, e: RowDecodeError) -> bool {
    match shape_of_page(page) {
        RecordShape::Link => rows_fault::<LinkRecord>(rows, e),
        RecordShape::Slider => rows_fault::<SliderRecord>(rows, e),
    }
}

/// The records of a page as its template sees them: one object for each
/// row, in the order of the rows.
pub open spec fn page_records(page: Page, rows: Seq<Seq<SqlCell>>) -> Json {
    match shape_of_page(page) {
        RecordShape::Link => Json::List(
            Seq::new(rows.len(), |i: int| link_json(LinkRecord::of_row(rows[i]))),
        ),
        RecordShape::Slider => Json::List(
            Seq::new(rows.len(), |i: int| slider_json(SliderRecord::of_row(rows[i]))),
        ),
    }
}

/// The variables of a page: its records, under the one name that every
/// template lists them by.
pub open spec fn page_variables(page: Page, rows: Seq<Seq<SqlCell>>) -> Map<Seq<char>, Json> {
    no_variables().insert(RECORDS_VARIABLE@, page_records(page, rows))
}

/// Converts the rows of a page's query into records and binds them into a
/// fresh context. Fails with the fault of the first row that cannot be
/// converted.
pub fn page_context(page: Page, rows: &Vec<Vec<SqlValue>>) -> (r: Result<RenderContext, PageError>)
    ensures
        r is Ok <==> page_rows_sound(page, rows_cells(rows@)),
        r is Ok ==> r->Ok_0@ == page_variables(page, rows_cells(rows@)),
        r is Err ==> (r->Err_0 is Decode && page_rows_fault(
            page,
            rows_cells(rows@),
            r->Err_0->Decode_0,
        )),
{
    let ghost cells = rows_cells(rows@);
    let mut context = RenderContext::new();
    match page {
        Page::Home | Page::About => {
            match decode_rows::<LinkRecord>(rows) {
                Ok(records) => {
                    proof {
                        lemma_records_by_index::<LinkRecord>(records@, cells);
                        assert(Seq::new(records.len() as nat, |i: int| link_json(records[i]@))
                            =~= Seq::new(
                            cells.len(),
                            |i: int| link_json(LinkRecord::of_row(cells[i])),
                        ));
                    }
                    context.insert(RECORDS_VARIABLE, ContextValue::Links(records));
                    Ok(context)
                },
                Err(fault) => Err(PageError::Decode(fault)),
            }
        },
        Page::Slider => {
            match decode_rows::<SliderRecord>(rows) {
                Ok(records) => {
                    proof {
                        lemma_records_by_index::<SliderRecord>(records@, cells);
                        assert(Seq::new(records.len() as nat, |i: int| slider_json(records[i]@))
                            =~= Seq::new(
                            cells.len(),
                            |i: int| slider_json(SliderRecord::of_row(cells[i])),
                        ));
                    }
                    context.insert(RECORDS_VARIABLE, ContextValue::Sliders(records));
                    Ok(context)
                },
                Err(fault) => Err(PageError::Decode(fault)),
            }
        },
    }
}

/// What the engine is asked to render: a template by its name, and the
/// variables that the template sees.
#[derive(Debug)]
pub struct RenderRequest {
    pub template: &'static str,
    pub variables: tera::Context,
}

/// The query gave rows, and each of them can become a record of the page.
pub open spec fn query_serves(page: Page, query: Result<Vec<Vec<SqlValue>>, QueryError>) -> bool {
    query is Ok && page_rows_sound(page, rows_cells(query->Ok_0@))
}

/// `e` is what failed before the engine was asked: the query, or the first
/// row that cannot be converted.
pub open spec fn query_fault(
    page: Page,
    query: Result<Vec<Vec<SqlValue>>, QueryError>,
    e: PageError,
) -> bool {
    match query {
        Err(_) => e == PageError::Query,
        Ok(rows) => e is Decode && page_rows_fault(page, rows_cells(rows@), e->Decode_0),
    }
}

/// The request names the page's template and holds the page's variables.
pub open spec fn is_request_of(request: RenderRequest, page: Page, rows: Seq<Seq<SqlCell>>) -> bool {
    request.template@ == template_of_page(page) && context_variables(request.variables)
        == page_variables(page, rows)
}

/// Handles the outcome of a page's query: a failed query and a row that
/// cannot be converted fail the request before the engine is asked;
/// otherwise the page's template is to be rendered with the records of the
/// rows.
pub fn handle(page: Page, query: Result<Vec<Vec<SqlValue>>, QueryError>) -> (r: Result<
    RenderRequest,
    PageError,
>)
    ensures
        r is Ok <==> query_serves(page, query),
        r is Ok ==> is_request_of(r->Ok_0, page, rows_cells(query->Ok_0@)),
        r is Err ==> query_fault(page, query, r->Err_0),
{
    let rows = match query {
        Ok(rows) => rows,
        Err(_) => {
            return Err(PageError::Query);
        },
    };
    let context = match page_context(page, &rows) {
        Ok(context) => context,
        Err(e) => {
            return Err(e);
        },
    };
    Ok(RenderRequest { template: page.plan().template, variables: engine_context(&context) })
}

/// The slides of the slider page are the rows that it is handed, one for
/// one and in their order, and a slide whose row holds the page's key as
/// `codice2` carries that key.
pub proof fn lemma_slides_follow_rows(rows: Seq<Seq<SqlCell>>, i: int)
    requires
        0 <= i < rows.len(),
    ensures
        page_records(Page::Slider, rows) is List,
        page_records(Page::Slider, rows)->List_0.len() == rows.len(),
        page_records(Page::Slider, rows)->List_0[i] == slider_json(SliderRecord::of_row(rows[i])),
        rows[i][2] == SqlCell::Text(SLIDER_KEY@) ==> SliderRecord::of_row(rows[i]).codice2
            == SLIDER_KEY@,
{
}

/// Ends a request with the outcome of the engine's rendering: the text with
/// status 200, or the generic response with status 500 for every failure.
pub fn finish(outcome: Result<String, tera::Error>) -> (response: Response)
    ensures
        response.parts() == response_of(engine_outcome(outcome)),
{
    respond(rendered(outcome))
}

} // verus!
