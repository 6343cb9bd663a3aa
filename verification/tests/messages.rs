use wild_buzzard_engine::commit::{NavigationRequest, NavigationRequestError};
use wild_buzzard_engine::document_policy::{
    DocumentPolicyError, DocumentPolicyField, DocumentPolicyLimit,
};
use wild_buzzard_engine::dynamic::{DocumentUpdateError, DocumentUpdateRejection};
use wild_buzzard_engine::failure::PipelineStage;
use wild_buzzard_engine::identity::DocumentVersion;
use wild_buzzard_engine::limits::{EngineLimitsError, MAX_NAVIGATION_URL_BYTES};
use wild_buzzard_engine::pipeline_error::{PipelineError, RedirectLocationFailure};
use wild_buzzard_engine::style_fetch::{StyleFetchLimit, StyleFetchOwnerError};
use wild_buzzard_engine::csp_policy::{StylePolicyError, StylePolicyInput, StylePolicyLimit};

fn version(revision: u64) -> DocumentVersion {
    DocumentVersion {
        document_id: 7,
        revision,
    }
}

#[test]
fn request_errors_name_their_bound() {
    assert_eq!(
        NavigationRequestError::EmptyUrl.message(),
        "navigation URL must not be empty"
    );
    let long = "a".repeat(MAX_NAVIGATION_URL_BYTES + 1);
    assert_eq!(
        NavigationRequest::new(&long).unwrap_err().message(),
        "navigation URL has 16385 bytes; maximum is 16384"
    );
}

#[test]
fn limit_errors_name_their_field() {
    assert_eq!(
        EngineLimitsError::Zero {
            field: "max_contexts"
        }
        .message(),
        "max_contexts must be nonzero"
    );
    assert_eq!(
        EngineLimitsError::TooLarge {
            field: "max_contexts",
            actual: 1025,
            maximum: 1024,
        }
        .message(),
        "max_contexts is 1025; maximum is 1024"
    );
    assert_eq!(
        EngineLimitsError::TooSmall {
            field: "event_capacity",
            actual: 2,
            minimum: 3,
        }
        .message(),
        "event_capacity is 2; minimum is 3"
    );
}

#[test]
fn policy_errors_name_input_and_bound() {
    assert_eq!(
        DocumentPolicyError::LimitExceeded {
            field: DocumentPolicyField::SetCookie,
            limit: DocumentPolicyLimit::FieldCount,
            actual: 9,
            maximum: 8,
        }
        .message(),
        "document response metadata exceeded SetCookie FieldCount bound (9 > 8)"
    );
    assert_eq!(
        DocumentPolicyError::CounterOverflow {
            field: DocumentPolicyField::Aggregate
        }
        .message(),
        "document response metadata Aggregate counter overflowed"
    );
    assert_eq!(
        StylePolicyError::LimitExceeded {
            input: StylePolicyInput::Enforcing,
            limit: StylePolicyLimit::DirectiveCount,
            actual: 5,
            maximum: 4,
        }
        .message(),
        "style policy exceeded Enforcing DirectiveCount bound (5 > 4)"
    );
    assert_eq!(
        StyleFetchOwnerError::LimitWouldEnlarge(StyleFetchLimit::Responses).message(),
        "stylesheet fetch Responses limit would enlarge hard policy"
    );
}

#[test]
fn pipeline_errors_name_their_stage_and_cause() {
    assert_eq!(
        PipelineError::Cancelled {
            stage: PipelineStage::Parse
        }
        .message(),
        "cancelled during HTML parse"
    );
    assert_eq!(
        PipelineError::HttpStatus(404).message(),
        "HTTP returned status 404"
    );
    assert_eq!(
        PipelineError::TooManyRedirects { maximum: 10 }.message(),
        "HTTP redirect chain exceeded 10 hops"
    );
    assert_eq!(
        PipelineError::RedirectLocation(RedirectLocationFailure::NonUtf8).message(),
        "HTTP redirect target was rejected: NonUtf8"
    );
    assert_eq!(
        PipelineError::Layout("too deep".to_owned()).message(),
        "layout failed: too deep"
    );
}

#[test]
fn update_errors_name_the_revisions() {
    let reason = DocumentUpdateRejection::LiveVersionMismatch {
        expected: version(3),
        actual: version(0),
    };
    assert_eq!(
        reason.message(),
        "rerender expected document 7 revision 3, but live document is 7 revision 0"
    );
    let error = DocumentUpdateError::Rejected {
        live_version: Some(version(1)),
        last_returned_frame_version: Some(version(1)),
        reason,
    };
    assert_eq!(
        error.message(),
        "document update committed no DOM mutation: rerender expected document 7 revision 3, \
         but live document is 7 revision 0"
    );
}
