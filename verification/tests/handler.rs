use stockin_api::domain::item::{Item, ItemParams, ItemRange};
use stockin_api::handler::item::{
    create, delete, find, index, respond, step, Action, Event, Flow, Outcome, Reply,
};
use stockin_api::handler::not_found;
use stockin_api::handler::request::{ErrorRejection, Json, Path, Query};
use stockin_api::handler::response::{AppError, HandlerResult, JsonData, NoContent, NotFound};

fn params(title: &str) -> ItemParams {
    ItemParams {
        title: title.to_string(),
        url: format!("https://{}.com/", title),
        thumbnail: format!("https://{}.com/thumbnail.png", title),
    }
}

fn item(id: u128, title: &str) -> Item {
    Item {
        id,
        title: title.to_string(),
        url: format!("https://{}.com/", title),
        thumbnail: format!("https://{}.com/thumbnail.png", title),
        created_at: 1_000,
        updated_at: 1_000,
    }
}

#[test]
fn not_found_is_404() {
    let e = not_found();
    assert_eq!(e.response_parts(), (404, "NOT FOUND".to_string()));
    assert_eq!(AppError::from_not_found(NotFound), e);
}

#[test]
fn failure_is_500() {
    let e = AppError::from_failure();
    assert_eq!(e, AppError::ServerError);
    assert_eq!(e.response_parts(), (500, "INTERNAL SERVER ERROR".to_string()));
}

#[test]
fn client_error_parts_are_kept() {
    let e = AppError::ClientError {
        status: 422,
        message: "bad".to_string(),
    };
    assert_eq!(e.response_parts(), (422, "bad".to_string()));
}

#[test]
fn json_data_statuses() {
    assert_eq!(JsonData::ok(5u8), Ok(JsonData { status: 200, data: 5u8 }));
    assert_eq!(JsonData::created(5u8), Ok(JsonData { status: 201, data: 5u8 }));
    assert_eq!(
        JsonData::<Reply>::empty(),
        Ok(JsonData {
            status: 200,
            data: Reply::Empty
        })
    );
    let nc = NoContent::ok().unwrap();
    assert_eq!(nc.status(), 204);
}

#[test]
fn rejection_parts() {
    let r = ErrorRejection::new(400, "missing field".to_string());
    assert_eq!(r.response_parts(), (400, "missing field".to_string()));
}

#[test]
fn extractors_deref_to_their_value() {
    let j = Json(params("a"));
    assert_eq!(j.title, "a");
    let p = Path(3u128);
    assert_eq!(*p, 3);
    let q = Query(ItemRange {
        before: None,
        limit: Some(3),
    });
    assert_eq!(q.extract().1, 3);
}

#[test]
fn find_flow() {
    let (flow, action) = find(9);
    assert_eq!(action, Action::FindById { id: 9 });
    let (flow2, action) = step(flow.clone(), Event::Row { found: Some(item(9, "x")) });
    assert_eq!(flow2, Flow::Finished);
    assert_eq!(action, Action::Respond { outcome: Outcome::Found(item(9, "x")) });
    let (_, action) = step(flow.clone(), Event::Row { found: None });
    assert_eq!(action, Action::Respond { outcome: Outcome::Missing });
    let (_, action) = step(flow, Event::Failed);
    assert_eq!(action, Action::Respond { outcome: Outcome::Failed });
}

#[test]
fn index_flow_uses_the_page_bounds() {
    let (flow, action) = index(&ItemRange {
        before: None,
        limit: Some(500),
    });
    assert_eq!(
        action,
        Action::FindByRange {
            before: u128::MAX,
            limit: 50
        }
    );
    let rows = vec![item(2, "b"), item(1, "a")];
    let (_, action) = step(flow, Event::Rows { items: rows.clone() });
    assert_eq!(action, Action::Respond { outcome: Outcome::Listed(rows) });
}

#[test]
fn create_flow_commits_after_reading_back() {
    let (flow, action) = create(params("new"));
    assert_eq!(action, Action::Begin);
    let (flow, action) = step(flow, Event::Began);
    assert_eq!(action, Action::Insert { params: params("new") });
    let (flow, action) = step(flow, Event::Inserted { id: 77 });
    assert_eq!(action, Action::FindById { id: 77 });
    let (flow, action) = step(flow, Event::Row { found: Some(item(77, "new")) });
    assert_eq!(action, Action::Commit);
    let (flow, action) = step(flow, Event::Committed);
    assert_eq!(flow, Flow::Finished);
    assert_eq!(action, Action::Respond { outcome: Outcome::Created(item(77, "new")) });
}

#[test]
fn create_flow_missing_row_is_not_committed() {
    let (flow, _) = create(params("new"));
    let (flow, _) = step(flow, Event::Began);
    let (flow, _) = step(flow, Event::Inserted { id: 77 });
    let (flow, action) = step(flow, Event::Row { found: None });
    assert_eq!(flow, Flow::Finished);
    assert_eq!(action, Action::Respond { outcome: Outcome::Missing });
}

#[test]
fn update_flow() {
    let (flow, action) = stockin_api::handler::item::update(5, params("changed"));
    assert_eq!(action, Action::Begin);
    let (flow, action) = step(flow, Event::Began);
    assert_eq!(
        action,
        Action::Update {
            id: 5,
            params: params("changed")
        }
    );
    let (flow, action) = step(flow, Event::Updated);
    assert_eq!(action, Action::FindById { id: 5 });
    let (flow, action) = step(flow, Event::Row { found: Some(item(5, "changed")) });
    assert_eq!(action, Action::Commit);
    let (_, action) = step(flow, Event::Committed);
    assert_eq!(action, Action::Respond { outcome: Outcome::Found(item(5, "changed")) });
}

#[test]
fn update_flow_failure_at_commit() {
    let (flow, _) = stockin_api::handler::item::update(5, params("changed"));
    let (flow, _) = step(flow, Event::Began);
    let (flow, _) = step(flow, Event::Updated);
    let (flow, _) = step(flow, Event::Row { found: Some(item(5, "changed")) });
    let (flow, action) = step(flow, Event::Failed);
    assert_eq!(flow, Flow::Finished);
    assert_eq!(action, Action::Respond { outcome: Outcome::Failed });
}

#[test]
fn delete_flow() {
    let (flow, action) = delete(4);
    assert_eq!(action, Action::Delete { id: 4 });
    let (_, action) = step(flow, Event::Deleted);
    assert_eq!(action, Action::Respond { outcome: Outcome::Removed });
}

#[test]
fn out_of_turn_event_fails() {
    let (flow, _) = delete(4);
    let (_, action) = step(flow, Event::Committed);
    assert_eq!(action, Action::Respond { outcome: Outcome::Failed });
    let (_, action) = step(Flow::Finished, Event::Began);
    assert_eq!(action, Action::Respond { outcome: Outcome::Failed });
}

#[test]
fn outcomes_become_replies() {
    let ok: HandlerResult<JsonData<Reply>> = Ok(JsonData {
        status: 200,
        data: Reply::One(item(1, "a")),
    });
    assert_eq!(respond(Outcome::Found(item(1, "a"))), ok);
    assert_eq!(
        respond(Outcome::Created(item(1, "a"))),
        Ok(JsonData {
            status: 201,
            data: Reply::One(item(1, "a"))
        })
    );
    assert_eq!(
        respond(Outcome::Listed(vec![])),
        Ok(JsonData {
            status: 200,
            data: Reply::Many(vec![])
        })
    );
    assert_eq!(
        respond(Outcome::Removed),
        Ok(JsonData {
            status: 200,
            data: Reply::Empty
        })
    );
    let missing = respond(Outcome::Missing).unwrap_err();
    assert_eq!(missing.response_parts(), (404, "NOT FOUND".to_string()));
    assert_eq!(respond(Outcome::Failed), Err(AppError::ServerError));
}
