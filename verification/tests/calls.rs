use google_slides1::calls::batch_update::PresentationBatchUpdateCall;
use google_slides1::hub::Slides;
use google_slides1::plan::{HttpMethod, PlanError};
use google_slides1::scope::Scope;

#[test]
fn pages_get_plan_url_and_defaults() {
    let hub = Slides::new();
    let call = hub.presentations().pages_get("pres1", "page9");
    let plan = call.request_plan().unwrap();
    assert_eq!(plan.url, "https://slides.googleapis.com/v1/presentations/pres1/pages/page9?alt=json");
    assert_eq!(plan.method_id, "slides.presentations.pages.get");
    assert_eq!(plan.http_method, HttpMethod::Get);
    assert_eq!(plan.scopes, vec!["https://www.googleapis.com/auth/drive.readonly".to_string()]);
    assert_eq!(plan.user_agent, "google-api-rust-client/7.0.0");
    assert!(plan.content_type.is_none());
}

#[test]
fn pages_get_setters_replace_ids() {
    let hub = Slides::new();
    let plan = hub
        .presentations()
        .pages_get("a", "b")
        .presentation_id("pres2")
        .page_object_id("page3")
        .request_plan()
        .unwrap();
    assert_eq!(plan.url, "https://slides.googleapis.com/v1/presentations/pres2/pages/page3?alt=json");
}

#[test]
fn additional_params_come_before_alt_in_order_of_first_setting() {
    let hub = Slides::new();
    let plan = hub
        .presentations()
        .pages_get("p", "q")
        .param("fields", "slides")
        .param("quotaUser", "u1")
        .param("fields", "title")
        .request_plan()
        .unwrap();
    assert_eq!(
        plan.url,
        "https://slides.googleapis.com/v1/presentations/p/pages/q?fields=title&quotaUser=u1&alt=json"
    );
}

#[test]
fn reserved_parameter_names_clash() {
    let hub = Slides::new();
    let r = hub.presentations().pages_get("p", "q").param("pageObjectId", "x").request_plan();
    assert!(matches!(r, Err(PlanError::FieldClash("pageObjectId"))));
    let r = hub
        .presentations()
        .pages_get("p", "q")
        .param("presentationId", "x")
        .param("alt", "media")
        .request_plan();
    assert!(matches!(r, Err(PlanError::FieldClash("alt"))));
    let r = hub.presentations().get("p").param("presentationId", "x").try_request_plan();
    assert!(matches!(r, Err(PlanError::FieldClash("presentationId"))));
    let r = hub.presentations().create(0u8).param("alt", "x").request_plan();
    assert!(matches!(r, Err(PlanError::FieldClash("alt"))));
}

#[test]
fn thumbnail_plan_query_order() {
    let hub = Slides::new();
    let plan = hub
        .presentations()
        .pages_get_thumbnail("p", "q")
        .thumbnail_properties_mime_type("PNG")
        .thumbnail_properties_thumbnail_size("LARGE")
        .param("fields", "contentUrl")
        .request_plan()
        .unwrap();
    assert_eq!(
        plan.url,
        "https://slides.googleapis.com/v1/presentations/p/pages/q/thumbnail?thumbnailProperties.thumbnailSize=LARGE&thumbnailProperties.mimeType=PNG&fields=contentUrl&alt=json"
    );
    assert_eq!(plan.method_id, "slides.presentations.pages.getThumbnail");
    let r = hub
        .presentations()
        .pages_get_thumbnail("p", "q")
        .param("thumbnailProperties.mimeType", "PNG")
        .request_plan();
    assert!(matches!(r, Err(PlanError::FieldClash("thumbnailProperties.mimeType"))));
}

#[test]
fn batch_update_plan_posts_json() {
    let hub = Slides::new();
    let call: PresentationBatchUpdateCall<'_, &str> = hub.presentations().batch_update("{}", "pres1");
    assert_eq!(*call.request_value(), "{}");
    let call = call.request("{\"requests\":[]}");
    assert_eq!(*call.request_value(), "{\"requests\":[]}");
    let plan = call.request_plan().unwrap();
    assert_eq!(plan.url, "https://slides.googleapis.com/v1/presentations/pres1:batchUpdate?alt=json");
    assert_eq!(plan.http_method, HttpMethod::Post);
    assert_eq!(plan.content_type.as_deref(), Some("application/json"));
    assert_eq!(plan.method_id, "slides.presentations.batchUpdate");
    assert_eq!(plan.scopes, vec!["https://www.googleapis.com/auth/drive.readonly".to_string()]);
}

#[test]
fn create_plan_uses_drive_scope() {
    let hub = Slides::new();
    let call = hub.presentations().create(7u32);
    assert_eq!(*call.request_value(), 7);
    let plan = call.request_plan().unwrap();
    assert_eq!(plan.url, "https://slides.googleapis.com/v1/presentations?alt=json");
    assert_eq!(plan.http_method, HttpMethod::Post);
    assert_eq!(plan.method_id, "slides.presentations.create");
    assert_eq!(plan.scopes, vec!["https://www.googleapis.com/auth/drive".to_string()]);
}

#[test]
fn get_percent_encodes_the_presentation_id() {
    let hub = Slides::new();
    let plan = hub.presentations().get("abc-123_x").request_plan().unwrap();
    assert_eq!(plan.url, "https://slides.googleapis.com/v1/presentations/abc-123_x?alt=json");
    let plan = hub.presentations().get("a b{c}").request_plan().unwrap();
    assert_eq!(plan.url, "https://slides.googleapis.com/v1/presentations/a%20b%7Bc%7D?alt=json");
    assert_eq!(plan.method_id, "slides.presentations.get");
}

#[test]
fn pages_get_substitutes_ids_verbatim() {
    let hub = Slides::new();
    let plan = hub.presentations().pages_get("x/y", "z").request_plan().unwrap();
    assert_eq!(plan.url, "https://slides.googleapis.com/v1/presentations/x/y/pages/z?alt=json");
}

#[test]
fn scopes_are_sorted_and_unique() {
    let hub = Slides::new();
    let plan = hub
        .presentations()
        .get("p")
        .add_scope(Scope::Spreadsheet.as_ref())
        .add_scope(Scope::Drive.as_ref())
        .add_scopes(&[Scope::Presentation.as_ref(), Scope::Drive.as_ref()])
        .request_plan()
        .unwrap();
    assert_eq!(
        plan.scopes,
        vec![
            "https://www.googleapis.com/auth/drive".to_string(),
            "https://www.googleapis.com/auth/presentations".to_string(),
            "https://www.googleapis.com/auth/spreadsheets".to_string(),
        ]
    );
}

#[test]
fn cleared_scopes_ask_for_none() {
    let hub = Slides::new();
    let plan = hub.presentations().get("p").add_scope("s1").clear_scopes().request_plan().unwrap();
    assert!(plan.scopes.is_empty());
    let plan = hub
        .presentations()
        .get("p")
        .clear_scopes()
        .add_scope("b")
        .add_scope("a")
        .request_plan()
        .unwrap();
    assert_eq!(plan.scopes, vec!["a".to_string(), "b".to_string()]);
}

#[test]
fn hub_settings_return_previous_values() {
    let mut hub = Slides::new();
    assert_eq!(hub.user_agent("agent/2".to_string()), "google-api-rust-client/7.0.0");
    assert_eq!(hub.user_agent("agent/3".to_string()), "agent/2");
    assert_eq!(hub.base_url("https://example.com/".to_string()), "https://slides.googleapis.com/");
    assert_eq!(hub.root_url("https://root.example.com/".to_string()), "https://slides.googleapis.com/");
    assert_eq!(hub.root_url("x".to_string()), "https://root.example.com/");
    let plan = hub.presentations().get("p").request_plan().unwrap();
    assert_eq!(plan.url, "https://example.com/v1/presentations/p?alt=json");
    assert_eq!(plan.user_agent, "agent/3");
}

#[test]
fn invalid_base_url_is_reported_by_try_request_plan() {
    let mut hub = Slides::new();
    hub.base_url("not a url ".to_string());
    let r = hub.presentations().pages_get("p", "q").try_request_plan();
    assert!(matches!(r, Err(PlanError::InvalidUrl)));
    let r = hub.presentations().create(()).try_request_plan();
    assert!(matches!(r, Err(PlanError::InvalidUrl)));
    let r = hub.presentations().batch_update((), "p").param("alt", "x").try_request_plan();
    assert!(matches!(r, Err(PlanError::FieldClash("alt"))));
}

#[test]
fn try_request_plan_agrees_with_request_plan() {
    let hub = Slides::new();
    let a = hub.presentations().pages_get_thumbnail("p", "q").try_request_plan().unwrap();
    let b = hub.presentations().pages_get_thumbnail("p", "q").request_plan().unwrap();
    assert_eq!(a.url, b.url);
    assert_eq!(a.scopes, b.scopes);
}

#[test]
fn cloned_hub_keeps_its_settings() {
    let mut hub = Slides::new();
    hub.user_agent("agent/9".to_string());
    hub.base_url("https://copy.example.com/".to_string());
    let copy = hub.clone();
    let plan = copy.presentations().get("p").request_plan().unwrap();
    assert_eq!(plan.url, "https://copy.example.com/v1/presentations/p?alt=json");
    assert_eq!(plan.user_agent, "agent/9");
}

#[test]
fn adding_no_scopes_keeps_the_default() {
    let hub = Slides::new();
    let empty: [&str; 0] = [];
    let plan = hub.presentations().batch_update((), "p").add_scopes(&empty).request_plan().unwrap();
    assert_eq!(plan.scopes, vec!["https://www.googleapis.com/auth/drive.readonly".to_string()]);
}

#[test]
fn params_set_twice_or_in_either_order() {
    let hub = Slides::new();
    let once = hub.presentations().get("p").param("fields", "title").request_plan().unwrap();
    let twice = hub
        .presentations()
        .get("p")
        .param("fields", "title")
        .param("fields", "title")
        .request_plan()
        .unwrap();
    assert_eq!(once.url, twice.url);
    let ab = hub.presentations().create(()).param("a", "1").param("b", "2").request_plan().unwrap();
    let ba = hub.presentations().create(()).param("b", "2").param("a", "1").request_plan().unwrap();
    assert_eq!(ab.url, "https://slides.googleapis.com/v1/presentations?a=1&b=2&alt=json");
    assert_eq!(ba.url, "https://slides.googleapis.com/v1/presentations?b=2&a=1&alt=json");
}
