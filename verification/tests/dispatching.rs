use site_pages::dispatch::{step, Action, Event, RequestState};
use site_pages::response::{QueryError, Response};
use site_pages::route::Page;
use site_pages::row::SqlValue;
use tera::Tera;

fn slide_row(id: i64, titolo: &str) -> Vec<SqlValue> {
    let text = |s: &str| SqlValue::Text(s.to_string());
    vec![
        SqlValue::Integer(id),
        text("s"),
        text("lasala"),
        text("i.jpg"),
        text(titolo),
        text("caption"),
        text("/l"),
        text("testo"),
    ]
}

fn slider_engine() -> Tera {
    let mut tera = Tera::default();
    tera.add_raw_template("slider.html", "{% for l in links %}<h2>{{ l.titolo }}</h2>{% endfor %}")
        .unwrap();
    tera
}

fn generic_failure() -> Response {
    Response { status: 500, body: "Internal Server Error".to_string() }
}

#[test]
fn a_request_for_a_page_asks_for_its_query() {
    let (state, action) =
        step(RequestState::Idle, Event::Received("/lacasailpaese".to_string()));
    assert_eq!(state, RequestState::Handling(Page::Slider));
    match action {
        Action::RunQuery(plan) => {
            assert_eq!(plan.sql, Page::Slider.plan().sql);
            assert_eq!(plan.template, "slider.html");
            assert_eq!(plan.parameters.len(), 1);
        }
        other => panic!("unexpected action {:?}", other),
    }
    let (state, _) = step(RequestState::Idle, Event::Received("/".to_string()));
    assert_eq!(state, RequestState::Handling(Page::Home));
}

#[test]
fn a_request_for_another_path_is_passed_on() {
    let (state, action) =
        step(RequestState::Idle, Event::Received("/static/a.png".to_string()));
    assert_eq!(state, RequestState::Idle);
    assert!(matches!(action, Action::Pass));
}

#[test]
fn the_rows_of_the_query_ask_for_the_rendering() {
    let (state, action) = step(
        RequestState::Handling(Page::Slider),
        Event::Queried(Ok(vec![slide_row(1, "Uno"), slide_row(2, "Due & tre")])),
    );
    assert_eq!(state, RequestState::Rendering(Page::Slider));
    let request = match action {
        Action::Render(request) => request,
        other => panic!("unexpected action {:?}", other),
    };
    assert_eq!(request.template, "slider.html");
    let slides = request.variables.get("links").unwrap().as_array().unwrap();
    assert_eq!(slides.len(), 2);
    assert_eq!(slides[1]["titolo"], tera::Value::from("Due & tre"));
    let outcome = slider_engine().render(request.template, &request.variables);
    let (state, action) = step(state, Event::Rendered(outcome));
    assert_eq!(state, RequestState::Responded(200));
    match action {
        Action::Reply(response) => assert_eq!(
            response,
            Response { status: 200, body: "<h2>Uno</h2><h2>Due &amp; tre</h2>".to_string() }
        ),
        other => panic!("unexpected action {:?}", other),
    }
}

#[test]
fn a_failed_query_ends_in_a_500() {
    let (state, action) = step(
        RequestState::Handling(Page::Slider),
        Event::Queried(Err(QueryError { message: "no such table: beb_slider".to_string() })),
    );
    assert_eq!(state, RequestState::Responded(500));
    match action {
        Action::Reply(response) => assert_eq!(response, generic_failure()),
        other => panic!("unexpected action {:?}", other),
    }
}

#[test]
fn rows_of_another_shape_end_in_a_500() {
    let (state, action) =
        step(RequestState::Handling(Page::Home), Event::Queried(Ok(vec![slide_row(1, "Uno")])));
    assert_eq!(state, RequestState::Responded(500));
    match action {
        Action::Reply(response) => assert_eq!(response, generic_failure()),
        other => panic!("unexpected action {:?}", other),
    }
}

#[test]
fn a_failed_rendering_ends_in_a_500() {
    let failure = Tera::default().render("slider.html", &tera::Context::new());
    assert!(failure.is_err());
    let (state, action) = step(RequestState::Rendering(Page::Slider), Event::Rendered(failure));
    assert_eq!(state, RequestState::Responded(500));
    match action {
        Action::Reply(response) => assert_eq!(response, generic_failure()),
        other => panic!("unexpected action {:?}", other),
    }
}

#[test]
fn a_rendered_text_ends_in_a_200() {
    let (state, action) = step(
        RequestState::Rendering(Page::About),
        Event::Rendered(Ok("<h1>Chi siamo</h1>".to_string())),
    );
    assert_eq!(state, RequestState::Responded(200));
    match action {
        Action::Reply(response) => assert_eq!(
            response,
            Response { status: 200, body: "<h1>Chi siamo</h1>".to_string() }
        ),
        other => panic!("unexpected action {:?}", other),
    }
}

#[test]
fn nothing_follows_a_response() {
    for status in [200u16, 500u16] {
        let (state, action) =
            step(RequestState::Responded(status), Event::Received("/".to_string()));
        assert_eq!(state, RequestState::Responded(status));
        assert!(matches!(action, Action::Pass));
        let (state, action) =
            step(RequestState::Responded(status), Event::Queried(Ok(Vec::new())));
        assert_eq!(state, RequestState::Responded(status));
        assert!(matches!(action, Action::Pass));
        let (state, action) =
            step(RequestState::Responded(status), Event::Rendered(Ok("x".to_string())));
        assert_eq!(state, RequestState::Responded(status));
        assert!(matches!(action, Action::Pass));
    }
}

#[test]
fn events_out_of_turn_change_nothing() {
    let (state, action) = step(RequestState::Idle, Event::Queried(Ok(Vec::new())));
    assert_eq!(state, RequestState::Idle);
    assert!(matches!(action, Action::Pass));
    let (state, action) =
        step(RequestState::Handling(Page::About), Event::Received("/".to_string()));
    assert_eq!(state, RequestState::Handling(Page::About));
    assert!(matches!(action, Action::Pass));
    let (state, action) =
        step(RequestState::Handling(Page::About), Event::Rendered(Ok("x".to_string())));
    assert_eq!(state, RequestState::Handling(Page::About));
    assert!(matches!(action, Action::Pass));
    let (state, action) =
        step(RequestState::Rendering(Page::Home), Event::Queried(Ok(Vec::new())));
    assert_eq!(state, RequestState::Rendering(Page::Home));
    assert!(matches!(action, Action::Pass));
}
