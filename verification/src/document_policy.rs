//! Bounded capture of the response fields that later policy decisions need.

use vstd::prelude::*;

use crate::bytes::{eq_ignore_ascii_case, find_in, same_bytes, trim, try_copy, ByteClass, COMMA};
use crate::commit::{CommitModel, NavigationCommitMetadata};
use crate::content_type::{
    parse_content_type, ContentTypeFailure, ContentTypeInput, ContentTypeModel,
    MAX_CONTENT_TYPE_CHARSETS,
};
use crate::headers::{FieldModel, Headers};
use crate::identity::DocumentVersion;
use crate::text::decimal_text;

verus! {

/// Maximum number of enforcing policy field lines retained from one response.
pub const MAX_ENFORCING_CSP_FIELDS: usize = 16;

/// Maximum number of report-only policy field lines retained from one response.
pub const MAX_REPORT_ONLY_CSP_FIELDS: usize = 16;

/// Maximum bytes retained from one policy field value.
pub const MAX_CSP_FIELD_BYTES: usize = 16 * 1024;

/// Maximum aggregate bytes retained across both policy field kinds.
pub const MAX_CSP_BYTES: usize = 32 * 1024;

/// Maximum number of `Referrer-Policy` field lines inspected per response.
pub const MAX_REFERRER_POLICY_FIELDS: usize = 16;

/// Maximum bytes inspected from one `Referrer-Policy` field value.
pub const MAX_REFERRER_POLICY_FIELD_BYTES: usize = 4 * 1024;

/// Maximum comma-delimited `Referrer-Policy` tokens inspected per response.
pub const MAX_REFERRER_POLICY_TOKENS: usize = 128;

/// Maximum number of recognized `Referrer-Policy` inputs retained per response.
pub const MAX_RECOGNIZED_REFERRER_POLICY_INPUTS: usize = 64;

/// Maximum number of `Content-Type` field lines classified per response.
pub const MAX_CONTENT_TYPE_FIELDS: usize = 8;

/// Maximum bytes inspected from one `Content-Type` field value.
pub const MAX_CONTENT_TYPE_FIELD_BYTES: usize = 4 * 1024;

/// Maximum number of `Set-Cookie` field lines counted per response.
pub const MAX_SET_COOKIE_FIELDS: usize = 128;

/// Maximum aggregate `Set-Cookie` value bytes counted per response.
pub const MAX_SET_COOKIE_BYTES: usize = 64 * 1024;

/// Maximum aggregate bytes inspected across all policy-relevant field values.
pub const MAX_DOCUMENT_POLICY_INPUT_BYTES: usize = 64 * 1024;

/// A response field family captured for later policy parsing.
#[derive(Clone, Copy, Debug, PartialEq, Eq, Structural)]
pub enum DocumentPolicyField {
    /// `Content-Security-Policy`.
    EnforcingContentSecurityPolicy,
    /// `Content-Security-Policy-Report-Only`.
    ReportOnlyContentSecurityPolicy,
    /// `Referrer-Policy`.
    ReferrerPolicy,
    /// `Content-Type`.
    ContentType,
    /// `Set-Cookie`; values are never retained by this layer.
    SetCookie,
    /// All policy-relevant response fields together.
    Aggregate,
}

/// Which bounded resource rejected response-policy capture.
#[derive(Clone, Copy, Debug, PartialEq, Eq, Structural)]
pub enum DocumentPolicyLimit {
    /// Number of duplicate field lines.
    FieldCount,
    /// Bytes in one field value.
    FieldBytes,
    /// Aggregate bytes in one field family or the whole capture.
    AggregateBytes,
    /// Comma-delimited tokens inspected.
    TokenCount,
    /// Recognized typed inputs retained.
    RetainedInputCount,
    /// Parsed charset parameters retained for one media type.
    CharsetCount,
}

/// Typed, value-redacting failure while capturing response-policy inputs.
#[derive(Clone, Copy, Debug, PartialEq, Eq, Structural)]
pub enum DocumentPolicyError {
    /// A fixed count, byte, or work bound was exceeded.
    LimitExceeded {
        /// Field family whose bound was exceeded.
        field: DocumentPolicyField,
        /// Kind of resource which reached its limit.
        limit: DocumentPolicyLimit,
        /// Observed count or byte size.
        actual: usize,
        /// Maximum admitted count or byte size.
        maximum: usize,
    },
    /// A checked counter could not represent the next value.
    CounterOverflow {
        /// Field family whose counter overflowed.
        field: DocumentPolicyField,
    },
    /// A bounded owned input could not be allocated.
    AllocationFailed {
        /// Field family whose allocation failed.
        field: DocumentPolicyField,
    },
    /// An internal owner attempted to pair metadata with another response or
    /// document.
    BindingMismatch,
}

impl DocumentPolicyError {
    /// Whether the error represents explicit input-count, input-byte, or work
    /// exhaustion.
    pub fn is_resource_limit(self) -> (limit: bool)
        ensures
            limit == !(self is BindingMismatch),
    {
        matches!(
            self,
            DocumentPolicyError::LimitExceeded { .. }
                | DocumentPolicyError::CounterOverflow { .. }
                | DocumentPolicyError::AllocationFailed { .. }
        )
    }

    /// Whether the error is an impossible internal response and document
    /// pairing failure.
    pub fn is_binding_mismatch(self) -> (mismatch: bool)
        ensures
            mismatch == (self is BindingMismatch),
    {
        matches!(self, DocumentPolicyError::BindingMismatch)
    }
}

/// A currently recognized referrer policy token.
#[derive(Clone, Copy, Debug, PartialEq, Eq, Structural)]
pub enum ReferrerPolicyInput {
    /// `no-referrer`.
    NoReferrer,
    /// `no-referrer-when-downgrade`.
    NoReferrerWhenDowngrade,
    /// `origin`.
    Origin,
    /// `origin-when-cross-origin`.
    OriginWhenCrossOrigin,
    /// `same-origin`.
    SameOrigin,
    /// `strict-origin`.
    StrictOrigin,
    /// `strict-origin-when-cross-origin`.
    StrictOriginWhenCrossOrigin,
    /// `unsafe-url`.
    UnsafeUrl,
}

/// What was captured so far, in specifications.
pub struct CaptureModel {
    /// Enforcing policy values.
    pub enforcing_csp: Seq<Seq<u8>>,
    /// Report-only policy values.
    pub report_only_csp: Seq<Seq<u8>>,
    /// Recognized referrer policies.
    pub recognized: Seq<ReferrerPolicyInput>,
    /// Ignored referrer policy tokens.
    pub ignored_tokens: nat,
    /// Inspected referrer policy fields.
    pub referrer_fields: nat,
    /// Inspected referrer policy tokens.
    pub referrer_tokens: nat,
    /// Classified media types.
    pub content_types: Seq<ContentTypeModel>,
    /// Counted cookie fields.
    pub cookie_fields: nat,
    /// Counted cookie bytes.
    pub cookie_bytes: nat,
    /// Retained policy bytes.
    pub csp_bytes: nat,
    /// Inspected bytes.
    pub inspected_bytes: nat,
}

/// A bound was exceeded.
pub open spec fn exceeded(
    field: DocumentPolicyField,
    limit: DocumentPolicyLimit,
    actual: nat,
    maximum: usize,
) -> DocumentPolicyError {
    DocumentPolicyError::LimitExceeded { field, limit, actual: actual as usize, maximum }
}

/// The field family that a name stands for.
pub open spec fn family_of(name: Seq<u8>) -> Option<DocumentPolicyField> {
    if name == crate::bytes::text("content-security-policy"@) {
        Some(DocumentPolicyField::EnforcingContentSecurityPolicy)
    } else if name == crate::bytes::text("content-security-policy-report-only"@) {
        Some(DocumentPolicyField::ReportOnlyContentSecurityPolicy)
    } else if name == crate::bytes::text("referrer-policy"@) {
        Some(DocumentPolicyField::ReferrerPolicy)
    } else if name == crate::bytes::text("content-type"@) {
        Some(DocumentPolicyField::ContentType)
    } else if name == crate::bytes::text("set-cookie"@) {
        Some(DocumentPolicyField::SetCookie)
    } else {
        None
    }
}

/// The referrer policy that a token stands for.
pub open spec fn referrer_policy_of(token: Seq<u8>) -> Option<ReferrerPolicyInput> {
    if crate::bytes::same_word(token, crate::bytes::text("no-referrer"@)) {
        Some(ReferrerPolicyInput::NoReferrer)
    } else if crate::bytes::same_word(token, crate::bytes::text("no-referrer-when-downgrade"@)) {
        Some(ReferrerPolicyInput::NoReferrerWhenDowngrade)
    } else if crate::bytes::same_word(token, crate::bytes::text("origin"@)) {
        Some(ReferrerPolicyInput::Origin)
    } else if crate::bytes::same_word(token, crate::bytes::text("origin-when-cross-origin"@)) {
        Some(ReferrerPolicyInput::OriginWhenCrossOrigin)
    } else if crate::bytes::same_word(token, crate::bytes::text("same-origin"@)) {
        Some(ReferrerPolicyInput::SameOrigin)
    } else if crate::bytes::same_word(token, crate::bytes::text("strict-origin"@)) {
        Some(ReferrerPolicyInput::StrictOrigin)
    } else if crate::bytes::same_word(
        token,
        crate::bytes::text("strict-origin-when-cross-origin"@),
    ) {
        Some(ReferrerPolicyInput::StrictOriginWhenCrossOrigin)
    } else if crate::bytes::same_word(token, crate::bytes::text("unsafe-url"@)) {
        Some(ReferrerPolicyInput::UnsafeUrl)
    } else {
        None
    }
}

/// Referrer policies read so far, in specifications.
pub struct ReferrerModel {
    /// Recognized policies.
    pub recognized: Seq<ReferrerPolicyInput>,
    /// Ignored tokens.
    pub ignored_tokens: nat,
    /// Inspected tokens.
    pub tokens: nat,
}

impl ReferrerModel {
    /// What was read after one more token.
    pub open spec fn after(self, token: Seq<u8>) -> Result<Self, DocumentPolicyError> {
        let field = DocumentPolicyField::ReferrerPolicy;
        let tokens = self.tokens + 1;
        if token.len() == 0 {
            Ok(self)
        } else if tokens > MAX_REFERRER_POLICY_TOKENS {
            Err(
                exceeded(
                    field,
                    DocumentPolicyLimit::TokenCount,
                    tokens,
                    MAX_REFERRER_POLICY_TOKENS,
                ),
            )
        } else {
            match referrer_policy_of(token) {
                Some(input) => if self.recognized.len() + 1
                    > MAX_RECOGNIZED_REFERRER_POLICY_INPUTS {
                    Err(
                        exceeded(
                            field,
                            DocumentPolicyLimit::RetainedInputCount,
                            self.recognized.len() + 1,
                            MAX_RECOGNIZED_REFERRER_POLICY_INPUTS,
                        ),
                    )
                } else {
                    Ok(ReferrerModel { recognized: self.recognized.push(input), tokens, ..self })
                },
                None => Ok(
                    ReferrerModel { ignored_tokens: self.ignored_tokens + 1, tokens, ..self },
                ),
            }
        }
    }

    /// What was read after the tokens of a value from `from` on.
    pub open spec fn after_all(self, value: Seq<u8>, from: int) -> Result<Self, DocumentPolicyError>
        decreases value.len() + 1 - from,
    {
        let end = crate::bytes::first_in(value, from, ByteClass::Exactly(COMMA));
        if from < 0 || from > value.len() {
            Ok(self)
        } else {
            proof {
                crate::bytes::first_in_is_first(value, from, ByteClass::Exactly(COMMA));
            }
            match self.after(
                crate::bytes::trimmed(value.subrange(from, end), ByteClass::AsciiWhitespace),
            ) {
                Err(error) => Err(error),
                Ok(next) => if end >= value.len() {
                    Ok(next)
                } else {
                    next.after_all(value, end + 1)
                },
            }
        }
    }
}

impl ReferrerModel {
    /// Whether a recognized policy is stored before the tokens of a value from
    /// `from` on come to an end or to an error.
    pub open spec fn stores(self, value: Seq<u8>, from: int) -> bool
        decreases value.len() + 1 - from,
    {
        let end = crate::bytes::first_in(value, from, ByteClass::Exactly(COMMA));
        if from < 0 || from > value.len() {
            false
        } else {
            proof {
                crate::bytes::first_in_is_first(value, from, ByteClass::Exactly(COMMA));
            }
            let token = crate::bytes::trimmed(
                value.subrange(from, end),
                ByteClass::AsciiWhitespace,
            );
            match self.after(token) {
                Err(_) => false,
                Ok(next) => (token.len() > 0 && referrer_policy_of(token) is Some) || (end
                    < value.len() && next.stores(value, end + 1)),
            }
        }
    }
}

/// Why a policy field behind `retained` others of `csp_bytes` bytes is refused.
pub open spec fn csp_error(
    csp_bytes: nat,
    field: DocumentPolicyField,
    retained: nat,
    maximum: usize,
    value: Seq<u8>,
) -> Option<DocumentPolicyError> {
    if retained + 1 > maximum {
        Some(exceeded(field, DocumentPolicyLimit::FieldCount, retained + 1, maximum))
    } else if value.len() > MAX_CSP_FIELD_BYTES {
        Some(
            exceeded(field, DocumentPolicyLimit::FieldBytes, value.len(), MAX_CSP_FIELD_BYTES),
        )
    } else if csp_bytes + value.len() > MAX_CSP_BYTES {
        Some(
            exceeded(
                field,
                DocumentPolicyLimit::AggregateBytes,
                csp_bytes + value.len(),
                MAX_CSP_BYTES,
            ),
        )
    } else {
        None
    }
}

impl CaptureModel {
    /// Nothing was captured yet.
    pub open spec fn empty() -> Self {
        CaptureModel {
            enforcing_csp: Seq::empty(),
            report_only_csp: Seq::empty(),
            recognized: Seq::empty(),
            ignored_tokens: 0,
            referrer_fields: 0,
            referrer_tokens: 0,
            content_types: Seq::empty(),
            cookie_fields: 0,
            cookie_bytes: 0,
            csp_bytes: 0,
            inspected_bytes: 0,
        }
    }

    /// Everything is inside its bound.
    pub open spec fn bounded(self) -> bool {
        &&& self.enforcing_csp.len() <= MAX_ENFORCING_CSP_FIELDS
        &&& self.report_only_csp.len() <= MAX_REPORT_ONLY_CSP_FIELDS
        &&& self.csp_bytes <= MAX_CSP_BYTES
        &&& self.recognized.len() <= MAX_RECOGNIZED_REFERRER_POLICY_INPUTS
        &&& self.ignored_tokens <= self.referrer_tokens
        &&& self.referrer_fields <= MAX_REFERRER_POLICY_FIELDS
        &&& self.referrer_tokens <= MAX_REFERRER_POLICY_TOKENS
        &&& self.content_types.len() <= MAX_CONTENT_TYPE_FIELDS
        &&& self.cookie_fields <= MAX_SET_COOKIE_FIELDS
        &&& self.cookie_bytes <= MAX_SET_COOKIE_BYTES
        &&& self.inspected_bytes <= MAX_DOCUMENT_POLICY_INPUT_BYTES
    }

    /// Why a cookie field is refused.
    pub open spec fn cookie_error(self, value: Seq<u8>) -> Option<DocumentPolicyError> {
        let field = DocumentPolicyField::SetCookie;
        if self.cookie_fields + 1 > MAX_SET_COOKIE_FIELDS {
            Some(
                exceeded(
                    field,
                    DocumentPolicyLimit::FieldCount,
                    self.cookie_fields + 1,
                    MAX_SET_COOKIE_FIELDS,
                ),
            )
        } else if self.cookie_bytes + value.len() > usize::MAX {
            Some(DocumentPolicyError::CounterOverflow { field })
        } else if self.cookie_bytes + value.len() > MAX_SET_COOKIE_BYTES {
            Some(
                exceeded(
                    field,
                    DocumentPolicyLimit::AggregateBytes,
                    self.cookie_bytes + value.len(),
                    MAX_SET_COOKIE_BYTES,
                ),
            )
        } else {
            None
        }
    }

    /// What was captured after one more referrer policy field.
    pub open spec fn after_referrer_policy(self, value: Seq<u8>) -> Result<
        Self,
        DocumentPolicyError,
    > {
        let field = DocumentPolicyField::ReferrerPolicy;
        let read = ReferrerModel {
            recognized: self.recognized,
            ignored_tokens: self.ignored_tokens,
            tokens: self.referrer_tokens,
        };
        if self.referrer_fields + 1 > MAX_REFERRER_POLICY_FIELDS {
            Err(
                exceeded(
                    field,
                    DocumentPolicyLimit::FieldCount,
                    self.referrer_fields + 1,
                    MAX_REFERRER_POLICY_FIELDS,
                ),
            )
        } else if value.len() > MAX_REFERRER_POLICY_FIELD_BYTES {
            Err(
                exceeded(
                    field,
                    DocumentPolicyLimit::FieldBytes,
                    value.len(),
                    MAX_REFERRER_POLICY_FIELD_BYTES,
                ),
            )
        } else {
            match read.after_all(value, 0) {
                Err(error) => Err(error),
                Ok(read) => Ok(
                    CaptureModel {
                        recognized: read.recognized,
                        ignored_tokens: read.ignored_tokens,
                        referrer_tokens: read.tokens,
                        referrer_fields: self.referrer_fields + 1,
                        ..self
                    },
                ),
            }
        }
    }

    /// What was captured after one more media type field.
    pub open spec fn after_content_type(self, value: Seq<u8>) -> Result<Self, DocumentPolicyError> {
        let field = DocumentPolicyField::ContentType;
        let count = self.content_types.len() + 1;
        if count > MAX_CONTENT_TYPE_FIELDS {
            Err(exceeded(field, DocumentPolicyLimit::FieldCount, count, MAX_CONTENT_TYPE_FIELDS))
        } else if value.len() > MAX_CONTENT_TYPE_FIELD_BYTES {
            Err(
                exceeded(
                    field,
                    DocumentPolicyLimit::FieldBytes,
                    value.len(),
                    MAX_CONTENT_TYPE_FIELD_BYTES,
                ),
            )
        } else {
            match crate::content_type::classified(value) {
                ContentTypeModel::TooManyCharsets => Err(
                    exceeded(
                        field,
                        DocumentPolicyLimit::CharsetCount,
                        MAX_CONTENT_TYPE_CHARSETS as nat + 1,
                        MAX_CONTENT_TYPE_CHARSETS,
                    ),
                ),
                model => Ok(
                    CaptureModel { content_types: self.content_types.push(model), ..self },
                ),
            }
        }
    }

    /// What was captured after one more field of a family.
    pub open spec fn after_family(self, field: DocumentPolicyField, value: Seq<u8>) -> Result<
        Self,
        DocumentPolicyError,
    > {
        match field {
            DocumentPolicyField::EnforcingContentSecurityPolicy => match csp_error(
                self.csp_bytes,
                field,
                self.enforcing_csp.len(),
                MAX_ENFORCING_CSP_FIELDS,
                value,
            ) {
                Some(error) => Err(error),
                None => Ok(
                    CaptureModel {
                        enforcing_csp: self.enforcing_csp.push(value),
                        csp_bytes: self.csp_bytes + value.len(),
                        ..self
                    },
                ),
            },
            DocumentPolicyField::ReportOnlyContentSecurityPolicy => match csp_error(
                self.csp_bytes,
                field,
                self.report_only_csp.len(),
                MAX_REPORT_ONLY_CSP_FIELDS,
                value,
            ) {
                Some(error) => Err(error),
                None => Ok(
                    CaptureModel {
                        report_only_csp: self.report_only_csp.push(value),
                        csp_bytes: self.csp_bytes + value.len(),
                        ..self
                    },
                ),
            },
            DocumentPolicyField::ReferrerPolicy => self.after_referrer_policy(value),
            DocumentPolicyField::ContentType => self.after_content_type(value),
            DocumentPolicyField::SetCookie => Ok(
                CaptureModel {
                    cookie_fields: self.cookie_fields + 1,
                    cookie_bytes: self.cookie_bytes + value.len(),
                    ..self
                },
            ),
            DocumentPolicyField::Aggregate => Ok(self),
        }
    }

    /// What was captured after one more field: a cookie's own bounds come
    /// first, then the bound of all fields, then the family's.
    pub open spec fn after(self, name: Seq<u8>, value: Seq<u8>) -> Result<
        Self,
        DocumentPolicyError,
    > {
        let inspected = self.inspected_bytes + value.len();
        match family_of(name) {
            None => Ok(self),
            Some(field) => if field is SetCookie && self.cookie_error(value) is Some {
                Err(self.cookie_error(value)->0)
            } else if inspected > usize::MAX {
                Err(DocumentPolicyError::CounterOverflow { field })
            } else if inspected > MAX_DOCUMENT_POLICY_INPUT_BYTES {
                Err(
                    exceeded(
                        DocumentPolicyField::Aggregate,
                        DocumentPolicyLimit::AggregateBytes,
                        inspected,
                        MAX_DOCUMENT_POLICY_INPUT_BYTES,
                    ),
                )
            } else {
                match self.after_family(field, value) {
                    Err(error) => Err(error),
                    Ok(next) => Ok(CaptureModel { inspected_bytes: inspected, ..next }),
                }
            },
        }
    }

    /// Why a family refuses a field by its count or its bytes alone.
    pub open spec fn family_refusal(self, field: DocumentPolicyField, value: Seq<u8>) -> Option<
        DocumentPolicyError,
    > {
        match field {
            DocumentPolicyField::EnforcingContentSecurityPolicy => csp_error(
                self.csp_bytes,
                field,
                self.enforcing_csp.len(),
                MAX_ENFORCING_CSP_FIELDS,
                value,
            ),
            DocumentPolicyField::ReportOnlyContentSecurityPolicy => csp_error(
                self.csp_bytes,
                field,
                self.report_only_csp.len(),
                MAX_REPORT_ONLY_CSP_FIELDS,
                value,
            ),
            DocumentPolicyField::ReferrerPolicy => if self.referrer_fields + 1
                > MAX_REFERRER_POLICY_FIELDS {
                Some(
                    exceeded(
                        field,
                        DocumentPolicyLimit::FieldCount,
                        self.referrer_fields + 1,
                        MAX_REFERRER_POLICY_FIELDS,
                    ),
                )
            } else if value.len() > MAX_REFERRER_POLICY_FIELD_BYTES {
                Some(
                    exceeded(
                        field,
                        DocumentPolicyLimit::FieldBytes,
                        value.len(),
                        MAX_REFERRER_POLICY_FIELD_BYTES,
                    ),
                )
            } else {
                None
            },
            DocumentPolicyField::ContentType => if self.content_types.len() + 1
                > MAX_CONTENT_TYPE_FIELDS {
                Some(
                    exceeded(
                        field,
                        DocumentPolicyLimit::FieldCount,
                        self.content_types.len() + 1,
                        MAX_CONTENT_TYPE_FIELDS,
                    ),
                )
            } else if value.len() > MAX_CONTENT_TYPE_FIELD_BYTES {
                Some(
                    exceeded(
                        field,
                        DocumentPolicyLimit::FieldBytes,
                        value.len(),
                        MAX_CONTENT_TYPE_FIELD_BYTES,
                    ),
                )
            } else {
                None
            },
            DocumentPolicyField::SetCookie => self.cookie_error(value),
            DocumentPolicyField::Aggregate => None,
        }
    }

    /// Why a field is refused before anything of it is looked at or copied.
    pub open spec fn refusal(self, name: Seq<u8>, value: Seq<u8>) -> Option<DocumentPolicyError> {
        let inspected = self.inspected_bytes + value.len();
        match family_of(name) {
            None => None,
            Some(field) => if field is SetCookie && self.cookie_error(value) is Some {
                self.cookie_error(value)
            } else if inspected > usize::MAX {
                Some(DocumentPolicyError::CounterOverflow { field })
            } else if inspected > MAX_DOCUMENT_POLICY_INPUT_BYTES {
                Some(
                    exceeded(
                        DocumentPolicyField::Aggregate,
                        DocumentPolicyLimit::AggregateBytes,
                        inspected,
                        MAX_DOCUMENT_POLICY_INPUT_BYTES,
                    ),
                )
            } else {
                self.family_refusal(field, value)
            },
        }
    }

    /// Whether memory is asked for while a field is captured.
    pub open spec fn stores(self, name: Seq<u8>, value: Seq<u8>) -> bool {
        &&& self.refusal(name, value) is None
        &&& family_of(name) matches Some(field)
        &&& match field {
            DocumentPolicyField::ReferrerPolicy => (ReferrerModel {
                recognized: self.recognized,
                ignored_tokens: self.ignored_tokens,
                tokens: self.referrer_tokens,
            }).stores(value, 0),
            DocumentPolicyField::SetCookie | DocumentPolicyField::Aggregate => false,
            _ => true,
        }
    }

    /// Whether memory is asked for before fields from `from` on come to an end
    /// or to an error.
    pub open spec fn stores_any(self, fields: Seq<FieldModel>, from: int) -> bool
        decreases fields.len() - from,
    {
        if from < 0 || from >= fields.len() {
            false
        } else {
            self.stores(fields[from].name, fields[from].value) || match self.after(
                fields[from].name,
                fields[from].value,
            ) {
                Err(_) => false,
                Ok(next) => next.stores_any(fields, from + 1),
            }
        }
    }

    /// What was captured after fields from `from` on.
    pub open spec fn after_all(self, fields: Seq<FieldModel>, from: int) -> Result<
        Self,
        DocumentPolicyError,
    >
        decreases fields.len() - from,
    {
        if from < 0 || from >= fields.len() {
            Ok(self)
        } else {
            match self.after(fields[from].name, fields[from].value) {
                Err(error) => Err(error),
                Ok(next) => next.after_all(fields, from + 1),
            }
        }
    }
}

/// Captures stay inside their bounds.
pub proof fn referrer_stays_bounded(read: ReferrerModel, value: Seq<u8>, from: int)
    requires
        read.recognized.len() <= MAX_RECOGNIZED_REFERRER_POLICY_INPUTS,
        read.ignored_tokens <= read.tokens <= MAX_REFERRER_POLICY_TOKENS,
        0 <= from,
    ensures
        read.after_all(value, from) matches Ok(next) ==> next.recognized.len()
            <= MAX_RECOGNIZED_REFERRER_POLICY_INPUTS && next.ignored_tokens <= next.tokens
            <= MAX_REFERRER_POLICY_TOKENS,
    decreases value.len() + 1 - from,
{
    if from <= value.len() {
        let end = crate::bytes::first_in(value, from, ByteClass::Exactly(COMMA));
        crate::bytes::first_in_is_first(value, from, ByteClass::Exactly(COMMA));
        let token = crate::bytes::trimmed(value.subrange(from, end), ByteClass::AsciiWhitespace);
        if let Ok(next) = read.after(token) {
            if end < value.len() {
                referrer_stays_bounded(next, value, end + 1);
            }
        }
    }
}

/// One more field keeps what was captured inside its bounds.
pub proof fn capture_stays_bounded(capture: CaptureModel, name: Seq<u8>, value: Seq<u8>)
    requires
        capture.bounded(),
    ensures
        capture.after(name, value) matches Ok(next) ==> next.bounded(),
{
    referrer_stays_bounded(
        ReferrerModel {
            recognized: capture.recognized,
            ignored_tokens: capture.ignored_tokens,
            tokens: capture.referrer_tokens,
        },
        value,
        0,
    );
}

/// One exact raw policy field value retained for a later dedicated parser.
#[derive(PartialEq, Eq)]
pub struct CspFieldValue {
    bytes: Vec<u8>,
}

impl View for CspFieldValue {
    type V = Seq<u8>;

    closed spec fn view(&self) -> Seq<u8> {
        self.bytes@
    }
}

/// Field values, in specifications.
pub open spec fn field_values(values: Seq<CspFieldValue>) -> Seq<Seq<u8>> {
    Seq::new(values.len(), |i: int| values[i]@)
}

/// What a redacted description of `bytes` bytes says.
pub open spec fn redacted_text(bytes: nat) -> Seq<char> {
    "CspFieldValue { bytes: "@ + crate::text::decimal_chars(bytes)
        + ", .. }"@
}

impl CspFieldValue {
    /// Exact validated HTTP field-value bytes.
    pub fn as_bytes(&self) -> (bytes: &[u8])
        ensures
            bytes@ == self@,
    {
        self.bytes.as_slice()
    }

    /// Description that tells the length and nothing else.
    pub fn redacted(&self) -> (description: String)
        ensures
            description@ == redacted_text(self@.len()),
    {
        let mut description: String = "CspFieldValue { bytes: ".to_owned();
        description.append(decimal_text(self.bytes.len() as u64).as_str());
        description.append(", .. }");
        description
    }
}

/// Bounded referrer policy inputs and ignored-token evidence.
#[derive(Debug, PartialEq, Eq)]
pub struct ReferrerPolicyMetadata {
    recognized: Vec<ReferrerPolicyInput>,
    ignored_tokens: usize,
}

impl ReferrerPolicyMetadata {
    /// Recognized inputs, in specifications.
    pub closed spec fn recognized_of(self) -> Seq<ReferrerPolicyInput> {
        self.recognized@
    }

    /// Ignored tokens, in specifications.
    pub closed spec fn ignored_of(self) -> usize {
        self.ignored_tokens
    }

    /// Recognized inputs in field-line and comma-token order.
    pub fn recognized_inputs(&self) -> (inputs: &[ReferrerPolicyInput])
        ensures
            inputs@ == self.recognized_of(),
    {
        self.recognized.as_slice()
    }

    /// Number of nonempty unknown or non-ASCII tokens ignored by capture.
    pub fn ignored_token_count(&self) -> (count: usize)
        ensures
            count == self.ignored_of(),
    {
        self.ignored_tokens
    }

    /// Last recognized input, without claiming that requests enforce it.
    pub fn last_recognized_input(&self) -> (input: Option<ReferrerPolicyInput>)
        ensures
            input == if self.recognized_of().len() == 0 {
                None
            } else {
                Some(self.recognized_of().last())
            },
    {
        if self.recognized.len() == 0 {
            None
        } else {
            Some(self.recognized[self.recognized.len() - 1])
        }
    }
}

/// Privacy-safe evidence that `Set-Cookie` occurred on the final response.
#[derive(Clone, Copy, Debug, PartialEq, Eq, Structural)]
pub struct SetCookieMetadata {
    /// Field lines.
    pub field_count: usize,
    /// Aggregate value bytes.
    pub value_bytes: usize,
}

impl SetCookieMetadata {
    /// Whether at least one `Set-Cookie` field line occurred.
    pub fn was_present(self) -> (present: bool)
        ensures
            present == (self.field_count != 0),
    {
        self.field_count != 0
    }

    /// Exact number of final-response `Set-Cookie` field lines.
    pub fn field_count(self) -> (count: usize)
        ensures
            count == self.field_count,
    {
        self.field_count
    }

    /// Exact aggregate bytes in their field values, without retaining values.
    pub fn value_bytes(self) -> (bytes: usize)
        ensures
            bytes == self.value_bytes,
    {
        self.value_bytes
    }
}

/// Retained response metadata, in specifications.
pub struct MetadataModel {
    /// Enforcing policy values.
    pub enforcing_csp: Seq<Seq<u8>>,
    /// Report-only policy values.
    pub report_only_csp: Seq<Seq<u8>>,
    /// Recognized referrer policies.
    pub recognized: Seq<ReferrerPolicyInput>,
    /// Ignored referrer policy tokens.
    pub ignored_tokens: nat,
    /// Classified media types.
    pub content_types: Seq<ContentTypeModel>,
    /// Cookie evidence.
    pub set_cookie: SetCookieMetadata,
}

impl CaptureModel {
    /// What is retained of the capture.
    pub open spec fn retained(self) -> MetadataModel {
        MetadataModel {
            enforcing_csp: self.enforcing_csp,
            report_only_csp: self.report_only_csp,
            recognized: self.recognized,
            ignored_tokens: self.ignored_tokens,
            content_types: self.content_types,
            set_cookie: SetCookieMetadata {
                field_count: self.cookie_fields as usize,
                value_bytes: self.cookie_bytes as usize,
            },
        }
    }
}

/// Classifications, in specifications.
pub open spec fn classifications(inputs: Seq<ContentTypeInput>) -> Seq<ContentTypeModel> {
    Seq::new(inputs.len(), |i: int| inputs[i]@)
}

/// Response metadata that is not bound to a document yet.
pub struct UnboundDocumentResponseMetadata {
    enforcing_csp: Vec<CspFieldValue>,
    report_only_csp: Vec<CspFieldValue>,
    referrer_policy: ReferrerPolicyMetadata,
    content_types: Vec<ContentTypeInput>,
    set_cookie: SetCookieMetadata,
}

impl View for UnboundDocumentResponseMetadata {
    type V = MetadataModel;

    closed spec fn view(&self) -> MetadataModel {
        MetadataModel {
            enforcing_csp: field_values(self.enforcing_csp@),
            report_only_csp: field_values(self.report_only_csp@),
            recognized: self.referrer_policy.recognized@,
            ignored_tokens: self.referrer_policy.ignored_tokens as nat,
            content_types: classifications(self.content_types@),
            set_cookie: self.set_cookie,
        }
    }
}

impl UnboundDocumentResponseMetadata {
    /// Binds the metadata to the document that its response was parsed into.
    pub fn bind(
        self,
        response_document_version: DocumentVersion,
        navigation_commit: NavigationCommitMetadata,
    ) -> (bound: CapturedDocumentResponseMetadata)
        ensures
            bound.metadata() == self@,
            bound.version_of() == response_document_version,
            bound.commit_of() == navigation_commit@,
    {
        CapturedDocumentResponseMetadata {
            response_document_version,
            navigation_commit,
            enforcing_csp: self.enforcing_csp,
            report_only_csp: self.report_only_csp,
            referrer_policy: self.referrer_policy,
            content_types: self.content_types,
            set_cookie: self.set_cookie,
        }
    }
}

/// Bounded final-response metadata retained with one live document: an
/// observation, not an enforcement result.
pub struct CapturedDocumentResponseMetadata {
    response_document_version: DocumentVersion,
    navigation_commit: NavigationCommitMetadata,
    enforcing_csp: Vec<CspFieldValue>,
    report_only_csp: Vec<CspFieldValue>,
    referrer_policy: ReferrerPolicyMetadata,
    content_types: Vec<ContentTypeInput>,
    set_cookie: SetCookieMetadata,
}

impl CapturedDocumentResponseMetadata {
    /// What was captured, in specifications.
    pub closed spec fn metadata(self) -> MetadataModel {
        MetadataModel {
            enforcing_csp: field_values(self.enforcing_csp@),
            report_only_csp: field_values(self.report_only_csp@),
            recognized: self.referrer_policy.recognized@,
            ignored_tokens: self.referrer_policy.ignored_tokens as nat,
            content_types: classifications(self.content_types@),
            set_cookie: self.set_cookie,
        }
    }

    /// Document revision, in specifications.
    pub closed spec fn version_of(self) -> DocumentVersion {
        self.response_document_version
    }

    /// Commitment, in specifications.
    pub closed spec fn commit_of(self) -> CommitModel {
        self.navigation_commit@
    }

    /// Initial immutable document revision parsed from this exact response.
    pub fn response_document_version(&self) -> (version: DocumentVersion)
        ensures
            version == self.version_of(),
    {
        self.response_document_version
    }

    /// Exact final navigation identity and transport commitment.
    pub fn navigation_commit(&self) -> (commit: &NavigationCommitMetadata)
        ensures
            commit@ == self.commit_of(),
    {
        &self.navigation_commit
    }

    /// Separate enforcing policy values in response order.
    pub fn enforcing_csp_fields(&self) -> (fields: &[CspFieldValue])
        ensures
            field_values(fields@) == self.metadata().enforcing_csp,
    {
        self.enforcing_csp.as_slice()
    }

    /// Separate report-only policy values in response order.
    pub fn report_only_csp_fields(&self) -> (fields: &[CspFieldValue])
        ensures
            field_values(fields@) == self.metadata().report_only_csp,
    {
        self.report_only_csp.as_slice()
    }

    /// Recognized and ignored referrer policy evidence.
    pub fn referrer_policy(&self) -> (policy: &ReferrerPolicyMetadata)
        ensures
            policy.recognized_of() == self.metadata().recognized,
            policy.ignored_of() == self.metadata().ignored_tokens,
    {
        &self.referrer_policy
    }

    /// Separate media type classifications in response order.
    pub fn content_type_fields(&self) -> (fields: &[ContentTypeInput])
        ensures
            classifications(fields@) == self.metadata().content_types,
    {
        self.content_types.as_slice()
    }

    /// Count and byte evidence only; no cookie value is retained.
    pub fn set_cookie(&self) -> (cookie: SetCookieMetadata)
        ensures
            cookie == self.metadata().set_cookie,
    {
        self.set_cookie
    }
}

/// Adds without overflow.
pub fn checked_add(current: usize, addition: usize, field: DocumentPolicyField) -> (result: Result<
    usize,
    DocumentPolicyError,
>)
    ensures
        result == if current + addition > usize::MAX {
            Err(DocumentPolicyError::CounterOverflow { field })
        } else {
            Ok((current + addition) as usize)
        },
{
    match current.checked_add(addition) {
        Some(sum) => Ok(sum),
        None => Err(DocumentPolicyError::CounterOverflow { field }),
    }
}

/// Refuses what exceeds its bound.
pub fn enforce_limit(
    field: DocumentPolicyField,
    limit: DocumentPolicyLimit,
    actual: usize,
    maximum: usize,
) -> (result: Result<(), DocumentPolicyError>)
    ensures
        result == if actual > maximum {
            Err(exceeded(field, limit, actual as nat, maximum))
        } else {
            Ok(())
        },
{
    if actual > maximum {
        Err(DocumentPolicyError::LimitExceeded { field, limit, actual, maximum })
    } else {
        Ok(())
    }
}

/// Finds the field family that a name stands for.
fn response_policy_field(name: &[u8]) -> (field: Option<DocumentPolicyField>)
    ensures
        field == family_of(name@),
{
    if same_bytes(name, "content-security-policy".as_bytes()) {
        Some(DocumentPolicyField::EnforcingContentSecurityPolicy)
    } else if same_bytes(name, "content-security-policy-report-only".as_bytes()) {
        Some(DocumentPolicyField::ReportOnlyContentSecurityPolicy)
    } else if same_bytes(name, "referrer-policy".as_bytes()) {
        Some(DocumentPolicyField::ReferrerPolicy)
    } else if same_bytes(name, "content-type".as_bytes()) {
        Some(DocumentPolicyField::ContentType)
    } else if same_bytes(name, "set-cookie".as_bytes()) {
        Some(DocumentPolicyField::SetCookie)
    } else {
        None
    }
}

/// Finds the referrer policy that a token stands for.
pub fn recognized_referrer_policy(token: &[u8]) -> (input: Option<ReferrerPolicyInput>)
    ensures
        input == referrer_policy_of(token@),
{
    if eq_ignore_ascii_case(token, "no-referrer".as_bytes()) {
        Some(ReferrerPolicyInput::NoReferrer)
    } else if eq_ignore_ascii_case(token, "no-referrer-when-downgrade".as_bytes()) {
        Some(ReferrerPolicyInput::NoReferrerWhenDowngrade)
    } else if eq_ignore_ascii_case(token, "origin".as_bytes()) {
        Some(ReferrerPolicyInput::Origin)
    } else if eq_ignore_ascii_case(token, "origin-when-cross-origin".as_bytes()) {
        Some(ReferrerPolicyInput::OriginWhenCrossOrigin)
    } else if eq_ignore_ascii_case(token, "same-origin".as_bytes()) {
        Some(ReferrerPolicyInput::SameOrigin)
    } else if eq_ignore_ascii_case(token, "strict-origin".as_bytes()) {
        Some(ReferrerPolicyInput::StrictOrigin)
    } else if eq_ignore_ascii_case(token, "strict-origin-when-cross-origin".as_bytes()) {
        Some(ReferrerPolicyInput::StrictOriginWhenCrossOrigin)
    } else if eq_ignore_ascii_case(token, "unsafe-url".as_bytes()) {
        Some(ReferrerPolicyInput::UnsafeUrl)
    } else {
        None
    }
}

/// Capture in progress.
pub struct MetadataCapture {
    enforcing_csp: Vec<CspFieldValue>,
    report_only_csp: Vec<CspFieldValue>,
    recognized_referrer_policy: Vec<ReferrerPolicyInput>,
    ignored_referrer_tokens: usize,
    referrer_fields: usize,
    referrer_tokens: usize,
    content_types: Vec<ContentTypeInput>,
    set_cookie_fields: usize,
    set_cookie_bytes: usize,
    csp_bytes: usize,
    inspected_bytes: usize,
}

impl View for MetadataCapture {
    type V = CaptureModel;

    closed spec fn view(&self) -> CaptureModel {
        CaptureModel {
            enforcing_csp: field_values(self.enforcing_csp@),
            report_only_csp: field_values(self.report_only_csp@),
            recognized: self.recognized_referrer_policy@,
            ignored_tokens: self.ignored_referrer_tokens as nat,
            referrer_fields: self.referrer_fields as nat,
            referrer_tokens: self.referrer_tokens as nat,
            content_types: classifications(self.content_types@),
            cookie_fields: self.set_cookie_fields as nat,
            cookie_bytes: self.set_cookie_bytes as nat,
            csp_bytes: self.csp_bytes as nat,
            inspected_bytes: self.inspected_bytes as nat,
        }
    }
}

/// Retains one more policy value behind others.
fn capture_csp(
    output: &mut Vec<CspFieldValue>,
    csp_bytes: usize,
    value: &[u8],
    field: DocumentPolicyField,
    maximum_fields: usize,
) -> (result: Result<usize, DocumentPolicyError>)
    requires
        old(output)@.len() <= maximum_fields < usize::MAX,
        csp_bytes <= MAX_CSP_BYTES,
    ensures
        match csp_error(csp_bytes as nat, field, old(output)@.len(), maximum_fields, value@) {
            Some(error) => result == Err::<usize, _>(error) && *final(output) == *old(output),
            None => match result {
                Ok(bytes) => bytes == csp_bytes + value@.len() && field_values(final(output)@)
                    == field_values(old(output)@).push(value@),
                Err(error) => error == (DocumentPolicyError::AllocationFailed { field }),
            },
        },
{
    match enforce_limit(
        field,
        DocumentPolicyLimit::FieldCount,
        output.len() + 1,
        maximum_fields,
    ) {
        Ok(()) => {},
        Err(error) => return Err(error),
    }
    match enforce_limit(field, DocumentPolicyLimit::FieldBytes, value.len(), MAX_CSP_FIELD_BYTES) {
        Ok(()) => {},
        Err(error) => return Err(error),
    }
    let prospective: usize = csp_bytes + value.len();
    match enforce_limit(field, DocumentPolicyLimit::AggregateBytes, prospective, MAX_CSP_BYTES) {
        Ok(()) => {},
        Err(error) => return Err(error),
    }
    let bytes: Vec<u8> = match try_copy(value) {
        Some(bytes) => bytes,
        None => return Err(DocumentPolicyError::AllocationFailed { field }),
    };
    if output.try_reserve(1).is_err() {
        return Err(DocumentPolicyError::AllocationFailed { field });
    }
    let ghost before = output@;
    output.push(CspFieldValue { bytes });
    assert(field_values(output@) =~= field_values(before).push(value@));
    Ok(prospective)
}

impl MetadataCapture {
    /// Nothing was captured yet.
    pub fn new() -> (capture: Self)
        ensures
            capture@ == CaptureModel::empty(),
    {
        let capture = MetadataCapture {
            enforcing_csp: Vec::new(),
            report_only_csp: Vec::new(),
            recognized_referrer_policy: Vec::new(),
            ignored_referrer_tokens: 0,
            referrer_fields: 0,
            referrer_tokens: 0,
            content_types: Vec::new(),
            set_cookie_fields: 0,
            set_cookie_bytes: 0,
            csp_bytes: 0,
            inspected_bytes: 0,
        };
        assert(field_values(capture.enforcing_csp@) =~= Seq::<Seq<u8>>::empty());
        assert(field_values(capture.report_only_csp@) =~= Seq::<Seq<u8>>::empty());
        assert(classifications(capture.content_types@) =~= Seq::<ContentTypeModel>::empty());
        capture
    }

    /// Checks the bounds of one more cookie field.
    fn preflight_set_cookie(&self, value: &[u8]) -> (result: Result<
        (usize, usize),
        DocumentPolicyError,
    >)
        requires
            self@.bounded(),
        ensures
            result == match self@.cookie_error(value@) {
                Some(error) => Err(error),
                None => Ok(
                    (
                        (self@.cookie_fields + 1) as usize,
                        (self@.cookie_bytes + value@.len()) as usize,
                    ),
                ),
            },
    {
        let field = DocumentPolicyField::SetCookie;
        let field_count: usize = self.set_cookie_fields + 1;
        match enforce_limit(
            field,
            DocumentPolicyLimit::FieldCount,
            field_count,
            MAX_SET_COOKIE_FIELDS,
        ) {
            Ok(()) => {},
            Err(error) => return Err(error),
        }
        let value_bytes: usize = match checked_add(self.set_cookie_bytes, value.len(), field) {
            Ok(value_bytes) => value_bytes,
            Err(error) => return Err(error),
        };
        match enforce_limit(
            field,
            DocumentPolicyLimit::AggregateBytes,
            value_bytes,
            MAX_SET_COOKIE_BYTES,
        ) {
            Ok(()) => {},
            Err(error) => return Err(error),
        }
        Ok((field_count, value_bytes))
    }

    /// Captures one token of a referrer policy field.
    fn capture_referrer_token(&mut self, token: &[u8]) -> (result: Result<(), DocumentPolicyError>)
        requires
            old(self)@.bounded(),
        ensures
            ({
                let before = ReferrerModel {
                    recognized: old(self)@.recognized,
                    ignored_tokens: old(self)@.ignored_tokens,
                    tokens: old(self)@.referrer_tokens,
                };
                match result {
                    Ok(_) => {
                        &&& before.after(token@) matches Ok(next)
                        &&& final(self)@ == (CaptureModel {
                            recognized: next.recognized,
                            ignored_tokens: next.ignored_tokens,
                            referrer_tokens: next.tokens,
                            ..old(self)@
                        })
                        &&& final(self)@.bounded()
                    },
                    Err(error) => {
                        ||| before.after(token@) == Err::<ReferrerModel, _>(error)
                        ||| error == (DocumentPolicyError::AllocationFailed {
                            field: DocumentPolicyField::ReferrerPolicy,
                        }) && before.after(token@) is Ok && token@.len() > 0 && referrer_policy_of(
                            token@,
                        ) is Some
                    },
                }
            }),
    {
        let field = DocumentPolicyField::ReferrerPolicy;
        if token.len() == 0 {
            return Ok(());
        }
        self.referrer_tokens = self.referrer_tokens + 1;
        match enforce_limit(
            field,
            DocumentPolicyLimit::TokenCount,
            self.referrer_tokens,
            MAX_REFERRER_POLICY_TOKENS,
        ) {
            Ok(()) => {},
            Err(error) => return Err(error),
        }
        match recognized_referrer_policy(token) {
            Some(input) => {
                match enforce_limit(
                    field,
                    DocumentPolicyLimit::RetainedInputCount,
                    self.recognized_referrer_policy.len() + 1,
                    MAX_RECOGNIZED_REFERRER_POLICY_INPUTS,
                ) {
                    Ok(()) => {},
                    Err(error) => return Err(error),
                }
                if self.recognized_referrer_policy.try_reserve(1).is_err() {
                    return Err(DocumentPolicyError::AllocationFailed { field });
                }
                self.recognized_referrer_policy.push(input);
            },
            None => {
                self.ignored_referrer_tokens = self.ignored_referrer_tokens + 1;
            },
        }
        Ok(())
    }

    /// Captures one referrer policy field.
    fn capture_referrer_policy(&mut self, value: &[u8]) -> (result: Result<
        (),
        DocumentPolicyError,
    >)
        requires
            old(self)@.bounded(),
        ensures
            match result {
                Ok(_) => old(self)@.after_referrer_policy(value@) == Ok::<_, DocumentPolicyError>(
                    final(self)@,
                ),
                Err(error) => {
                    ||| old(self)@.after_referrer_policy(value@) == Err::<CaptureModel, _>(error)
                    ||| error == (DocumentPolicyError::AllocationFailed {
                        field: DocumentPolicyField::ReferrerPolicy,
                    }) && (ReferrerModel {
                        recognized: old(self)@.recognized,
                        ignored_tokens: old(self)@.ignored_tokens,
                        tokens: old(self)@.referrer_tokens,
                    }).stores(value@, 0)
                },
            },
            old(self)@.family_refusal(DocumentPolicyField::ReferrerPolicy, value@) matches Some(
                error,
            ) ==> result == Err::<(), _>(error) && final(self)@ == old(self)@,
    {
        let field = DocumentPolicyField::ReferrerPolicy;
        match enforce_limit(
            field,
            DocumentPolicyLimit::FieldCount,
            self.referrer_fields + 1,
            MAX_REFERRER_POLICY_FIELDS,
        ) {
            Ok(()) => {},
            Err(error) => return Err(error),
        }
        match enforce_limit(
            field,
            DocumentPolicyLimit::FieldBytes,
            value.len(),
            MAX_REFERRER_POLICY_FIELD_BYTES,
        ) {
            Ok(()) => {},
            Err(error) => return Err(error),
        }
        let ghost start = ReferrerModel {
            recognized: self@.recognized,
            ignored_tokens: self@.ignored_tokens,
            tokens: self@.referrer_tokens,
        };
        let ghost read = start.after_all(value@, 0);
        let mut from: usize = 0;
        let mut done: bool = false;
        while !done
            invariant
                from <= value@.len(),
                self@.bounded(),
                value@.len() <= MAX_REFERRER_POLICY_FIELD_BYTES,
                old(self)@.referrer_fields + 1 <= MAX_REFERRER_POLICY_FIELDS,
                start == (ReferrerModel {
                    recognized: old(self)@.recognized,
                    ignored_tokens: old(self)@.ignored_tokens,
                    tokens: old(self)@.referrer_tokens,
                }),
                read == start.after_all(value@, 0),
                !done ==> (start.stores(value@, 0) <== (ReferrerModel {
                    recognized: self@.recognized,
                    ignored_tokens: self@.ignored_tokens,
                    tokens: self@.referrer_tokens,
                }).stores(value@, from as int)),
                self@ == (CaptureModel {
                    recognized: self@.recognized,
                    ignored_tokens: self@.ignored_tokens,
                    referrer_tokens: self@.referrer_tokens,
                    ..old(self)@
                }),
                !done ==> read == (ReferrerModel {
                    recognized: self@.recognized,
                    ignored_tokens: self@.ignored_tokens,
                    tokens: self@.referrer_tokens,
                }).after_all(value@, from as int),
                done ==> read == Ok::<_, DocumentPolicyError>(
                    ReferrerModel {
                        recognized: self@.recognized,
                        ignored_tokens: self@.ignored_tokens,
                        tokens: self@.referrer_tokens,
                    },
                ),
            decreases
                value@.len() - from,
                if done {
                    0int
                } else {
                    1int
                },
        {
            let end: usize = find_in(value, from, ByteClass::Exactly(COMMA));
            let token: &[u8] = trim(&value[from..end], ByteClass::AsciiWhitespace);
            match self.capture_referrer_token(token) {
                Ok(()) => {},
                Err(error) => return Err(error),
            }
            if end == value.len() {
                done = true;
            } else {
                from = end + 1;
            }
        }
        self.referrer_fields = self.referrer_fields + 1;
        Ok(())
    }

    /// Captures one media type field.
    fn capture_content_type(&mut self, value: &[u8]) -> (result: Result<(), DocumentPolicyError>)
        requires
            old(self)@.bounded(),
        ensures
            match result {
                Ok(_) => old(self)@.after_content_type(value@) == Ok::<_, DocumentPolicyError>(
                    final(self)@,
                ),
                Err(error) => {
                    ||| old(self)@.after_content_type(value@) == Err::<CaptureModel, _>(error)
                    ||| error == (DocumentPolicyError::AllocationFailed {
                        field: DocumentPolicyField::ContentType,
                    })
                },
            },
            old(self)@.family_refusal(DocumentPolicyField::ContentType, value@) matches Some(
                error,
            ) ==> result == Err::<(), _>(error) && final(self)@ == old(self)@,
    {
        let field = DocumentPolicyField::ContentType;
        match enforce_limit(
            field,
            DocumentPolicyLimit::FieldCount,
            self.content_types.len() + 1,
            MAX_CONTENT_TYPE_FIELDS,
        ) {
            Ok(()) => {},
            Err(error) => return Err(error),
        }
        match enforce_limit(
            field,
            DocumentPolicyLimit::FieldBytes,
            value.len(),
            MAX_CONTENT_TYPE_FIELD_BYTES,
        ) {
            Ok(()) => {},
            Err(error) => return Err(error),
        }
        let input = match parse_content_type(value) {
            Ok(input) => input,
            Err(ContentTypeFailure::TooManyCharsets) => return Err(
                DocumentPolicyError::LimitExceeded {
                    field,
                    limit: DocumentPolicyLimit::CharsetCount,
                    actual: MAX_CONTENT_TYPE_CHARSETS + 1,
                    maximum: MAX_CONTENT_TYPE_CHARSETS,
                },
            ),
            Err(ContentTypeFailure::AllocationFailed) => return Err(
                DocumentPolicyError::AllocationFailed { field },
            ),
        };
        if self.content_types.try_reserve(1).is_err() {
            return Err(DocumentPolicyError::AllocationFailed { field });
        }
        let ghost before = self.content_types@;
        self.content_types.push(input);
        assert(classifications(self.content_types@) =~= classifications(before).push(input@));
        Ok(())
    }

    /// Captures one field. Bounds come before anything is copied: a field that
    /// they refuse leaves the capture as it was. Memory may be missing only for
    /// what is stored.
    pub fn capture_field(&mut self, name: &[u8], value: &[u8]) -> (result: Result<
        (),
        DocumentPolicyError,
    >)
        requires
            old(self)@.bounded(),
        ensures
            match old(self)@.refusal(name@, value@) {
                Some(error) => {
                    &&& old(self)@.after(name@, value@) == Err::<CaptureModel, _>(error)
                    &&& result == Err::<(), _>(error)
                    &&& final(self)@ == old(self)@
                },
                None => match result {
                    Ok(_) => old(self)@.after(name@, value@) == Ok::<_, DocumentPolicyError>(
                        final(self)@,
                    ) && final(self)@.bounded(),
                    Err(error) => {
                        ||| old(self)@.after(name@, value@) == Err::<CaptureModel, _>(error)
                        ||| old(self)@.stores(name@, value@) && error == (
                        DocumentPolicyError::AllocationFailed { field: family_of(name@)->0 })
                    },
                },
            },
    {
        let field = match response_policy_field(name) {
            Some(field) => field,
            None => return Ok(()),
        };
        proof {
            capture_stays_bounded(self@, name@, value@);
        }
        let mut cookie: (usize, usize) = (0, 0);
        if let DocumentPolicyField::SetCookie = field {
            cookie = match self.preflight_set_cookie(value) {
                Ok(cookie) => cookie,
                Err(error) => return Err(error),
            };
        }
        let inspected: usize = match checked_add(self.inspected_bytes, value.len(), field) {
            Ok(inspected) => inspected,
            Err(error) => return Err(error),
        };
        match enforce_limit(
            DocumentPolicyField::Aggregate,
            DocumentPolicyLimit::AggregateBytes,
            inspected,
            MAX_DOCUMENT_POLICY_INPUT_BYTES,
        ) {
            Ok(()) => {},
            Err(error) => return Err(error),
        }
        match field {
            DocumentPolicyField::EnforcingContentSecurityPolicy => {
                match capture_csp(
                    &mut self.enforcing_csp,
                    self.csp_bytes,
                    value,
                    field,
                    MAX_ENFORCING_CSP_FIELDS,
                ) {
                    Ok(bytes) => {
                        self.csp_bytes = bytes;
                    },
                    Err(error) => return Err(error),
                }
            },
            DocumentPolicyField::ReportOnlyContentSecurityPolicy => {
                match capture_csp(
                    &mut self.report_only_csp,
                    self.csp_bytes,
                    value,
                    field,
                    MAX_REPORT_ONLY_CSP_FIELDS,
                ) {
                    Ok(bytes) => {
                        self.csp_bytes = bytes;
                    },
                    Err(error) => return Err(error),
                }
            },
            DocumentPolicyField::ReferrerPolicy => {
                match self.capture_referrer_policy(value) {
                    Ok(()) => {},
                    Err(error) => return Err(error),
                }
            },
            DocumentPolicyField::ContentType => {
                match self.capture_content_type(value) {
                    Ok(()) => {},
                    Err(error) => return Err(error),
                }
            },
            DocumentPolicyField::SetCookie => {
                self.set_cookie_fields = cookie.0;
                self.set_cookie_bytes = cookie.1;
            },
            DocumentPolicyField::Aggregate => {},
        }
        self.inspected_bytes = inspected;
        Ok(())
    }

    /// Ends the capture.
    pub fn finish(self) -> (metadata: UnboundDocumentResponseMetadata)
        ensures
            metadata@ == self@.retained(),
    {
        UnboundDocumentResponseMetadata {
            enforcing_csp: self.enforcing_csp,
            report_only_csp: self.report_only_csp,
            referrer_policy: ReferrerPolicyMetadata {
                recognized: self.recognized_referrer_policy,
                ignored_tokens: self.ignored_referrer_tokens,
            },
            content_types: self.content_types,
            set_cookie: SetCookieMetadata {
                field_count: self.set_cookie_fields,
                value_bytes: self.set_cookie_bytes,
            },
        }
    }
}

/// Captures the policy-relevant fields of a response. Memory may be missing only
/// where a field is stored before the fields come to an end or to an error.
pub fn capture_document_response_metadata(headers: &Headers) -> (result: Result<
    UnboundDocumentResponseMetadata,
    DocumentPolicyError,
>)
    ensures
        ({
            let captured = CaptureModel::empty().after_all(headers@, 0);
            match result {
                Ok(metadata) => captured matches Ok(capture) && metadata@ == capture.retained(),
                Err(error) => captured == Err::<CaptureModel, _>(error) || (
                error is AllocationFailed && CaptureModel::empty().stores_any(headers@, 0)),
            }
        }),
{
    let ghost captured = CaptureModel::empty().after_all(headers@, 0);
    let mut capture = MetadataCapture::new();
    let mut at: usize = 0;
    while at < headers.len()
        invariant
            at <= headers@.len(),
            capture@.bounded(),
            captured == CaptureModel::empty().after_all(headers@, 0),
            captured == capture@.after_all(headers@, at as int),
            capture@.stores_any(headers@, at as int) ==> CaptureModel::empty().stores_any(
                headers@,
                0,
            ),
        decreases headers@.len() - at,
    {
        let field = headers.field(at);
        match capture.capture_field(field.name(), field.value()) {
            Ok(()) => {},
            Err(error) => return Err(error),
        }
        at += 1;
    }
    Ok(capture.finish())
}

} // verus!
