use google_slides1::exchange::{next_step, Attempt, Outcome, Step};
use google_slides1::plan::bearer_authorization;
use google_slides1::schema::{DuplicateObjectRequest, Thumbnail, WriteControl};
use google_slides1::scope::Scope;

#[test]
fn scope_urls() {
    assert_eq!(Scope::Drive.as_ref(), "https://www.googleapis.com/auth/drive");
    assert_eq!(Scope::DriveFile.as_ref(), "https://www.googleapis.com/auth/drive.file");
    assert_eq!(Scope::DriveReadonly.as_ref(), "https://www.googleapis.com/auth/drive.readonly");
    assert_eq!(Scope::Presentation.as_ref(), "https://www.googleapis.com/auth/presentations");
    assert_eq!(
        Scope::PresentationReadonly.as_ref(),
        "https://www.googleapis.com/auth/presentations.readonly"
    );
    assert_eq!(Scope::Spreadsheet.as_ref(), "https://www.googleapis.com/auth/spreadsheets");
    assert_eq!(
        Scope::SpreadsheetReadonly.as_ref(),
        "https://www.googleapis.com/auth/spreadsheets.readonly"
    );
}

#[test]
fn scope_default_is_drive_readonly() {
    assert_eq!(Scope::default(), Scope::DriveReadonly);
    assert!(Scope::Drive < Scope::SpreadsheetReadonly);
}

#[test]
fn exchange_steps() {
    assert_eq!(
        next_step(Attempt::NoToken),
        Step::Finish { outcome: Outcome::MissingToken, notify: Some(false) }
    );
    assert_eq!(next_step(Attempt::TransportError { retry: true }), Step::Retry);
    assert_eq!(
        next_step(Attempt::TransportError { retry: false }),
        Step::Finish { outcome: Outcome::HttpError, notify: Some(false) }
    );
    assert_eq!(next_step(Attempt::HttpFailure { error_json: true, retry: true }), Step::Retry);
    assert_eq!(
        next_step(Attempt::HttpFailure { error_json: true, retry: false }),
        Step::Finish { outcome: Outcome::BadRequest, notify: Some(false) }
    );
    assert_eq!(
        next_step(Attempt::HttpFailure { error_json: false, retry: false }),
        Step::Finish { outcome: Outcome::Failure, notify: Some(false) }
    );
    assert_eq!(
        next_step(Attempt::Success { decoded: true }),
        Step::Finish { outcome: Outcome::Done, notify: Some(true) }
    );
    assert_eq!(
        next_step(Attempt::Success { decoded: false }),
        Step::Finish { outcome: Outcome::JsonDecodeError, notify: None }
    );
}

#[test]
fn bearer_header() {
    assert_eq!(bearer_authorization("tok123"), "Bearer tok123");
    assert_eq!(bearer_authorization(""), "Bearer ");
}

#[test]
fn schema_defaults_are_empty() {
    let t = Thumbnail::default();
    assert!(t.content_url.is_none() && t.height.is_none() && t.width.is_none());
    let w = WriteControl { required_revision_id: Some("r1".to_string()) };
    assert_eq!(w.clone().required_revision_id.as_deref(), Some("r1"));
    let d = DuplicateObjectRequest::default();
    assert!(d.object_ids.is_none());
}
