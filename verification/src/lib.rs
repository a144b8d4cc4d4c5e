//! Page-rendering pipeline of a small marketing site: a request path selects a
//! page, the page fixes one query and one template, the rows of the query
//! become typed records, the records are bound into a render context, and the
//! outcome of rendering becomes an HTTP response.

pub mod context;
pub mod dispatch;
pub mod engine;
pub mod handler;
pub mod record;
pub mod response;
pub mod route;
pub mod row;
pub mod text;
