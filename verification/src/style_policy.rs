//! Evaluation of author styles against the content security policies of one
//! document.

use vstd::prelude::*;

use crate::commit::{CommitModel, NavigationCommitMetadata};
use crate::csp_policy::{
    checked_add, ParsedPolicies, ParserModel, PolicyModel, ReadingModel, SourceList, StylePolicy,
    StylePolicyAllocation, StylePolicyError, StylePolicyInput, StylePolicyParser,
};
use crate::csp_source::{CanonicalHosts, SourceExpression, SourceModel, UnsupportedStyleSource};
use crate::describe::{optional_value_text, sources_text};
use crate::document_policy::{CapturedDocumentResponseMetadata, CspFieldValue};
use crate::identity::DocumentVersion;
use crate::text::decimal_text;
use crate::web::{OriginModel, ParsedNavigation, TargetModel, WebOrigin, WebTarget};

verus! {

/// Maximum candidate nonce bytes eligible for matching.
pub const MAX_STYLE_CSP_NONCE_BYTES: usize = 1024;

/// Style operation evaluated against the relevant directive fallback.
#[derive(Clone, Copy, Debug, PartialEq, Eq, Structural)]
pub enum StylePolicyResource {
    /// A candidate first `base[href]`, governed only by `base-uri`.
    BaseUri,
    /// An external stylesheet request, including a possible link nonce.
    ExternalStyle,
    /// An inline `style` element, including a possible element nonce.
    InlineStyleElement,
    /// An inline `style` attribute; nonces never apply.
    InlineStyleAttribute,
}

/// Intersection result for one style-policy operation.
#[derive(Clone, Copy, Debug, PartialEq, Eq, Structural)]
pub struct StylePolicyDecision {
    /// Operation which was evaluated.
    pub resource: StylePolicyResource,
    /// Enforcing policies which block the operation.
    pub enforcing_blocked_policies: usize,
    /// Report-only policies which would block the operation.
    pub report_only_would_block_policies: usize,
    /// Whether an over-limit candidate nonce was treated as absent.
    pub candidate_nonce_ignored_over_limit: bool,
}

impl StylePolicyDecision {
    /// Operation which was evaluated.
    pub fn resource(self) -> (resource: StylePolicyResource)
        ensures
            resource == self.resource,
    {
        self.resource
    }

    /// Whether every enforcing policy admitted the operation.
    pub fn is_allowed(self) -> (allowed: bool)
        ensures
            allowed == (self.enforcing_blocked_policies == 0),
    {
        self.enforcing_blocked_policies == 0
    }

    /// Number of enforcing policies which block the operation.
    pub fn enforcing_blocked_policy_count(self) -> (count: usize)
        ensures
            count == self.enforcing_blocked_policies,
    {
        self.enforcing_blocked_policies
    }

    /// Number of report-only policies which would block the operation.
    pub fn report_only_would_block_policy_count(self) -> (count: usize)
        ensures
            count == self.report_only_would_block_policies,
    {
        self.report_only_would_block_policies
    }

    /// Whether at least one report-only policy would diagnose a violation.
    pub fn report_only_would_block(self) -> (would_block: bool)
        ensures
            would_block == (self.report_only_would_block_policies != 0),
    {
        self.report_only_would_block_policies != 0
    }

    /// Whether an over-limit candidate nonce was treated as absent.
    pub fn candidate_nonce_ignored_over_limit(self) -> (ignored: bool)
        ensures
            ignored == self.candidate_nonce_ignored_over_limit,
    {
        self.candidate_nonce_ignored_over_limit
    }
}

/// Whether some expression admits an element with this nonce.
pub open spec fn nonce_admitted(sources: Seq<SourceModel>, nonce: Option<Seq<char>>) -> bool {
    nonce matches Some(nonce) && nonce.len() > 0 && exists|i: int|
        0 <= i < sources.len() && (#[trigger] sources[i]).admits_nonce(crate::bytes::text(nonce))
}

/// Whether some expression admits a target.
pub open spec fn url_admitted(
    sources: Seq<SourceModel>,
    document: OriginModel,
    candidate: OriginModel,
) -> bool {
    exists|i: int|
        0 <= i < sources.len() && (#[trigger] sources[i]).admits_url(document, candidate)
}

/// Whether all inline styles are admitted: `'unsafe-inline'` counts only where
/// no nonce or hash disables it.
pub open spec fn inline_admitted(sources: Seq<SourceModel>) -> bool {
    &&& exists|i: int| 0 <= i < sources.len() && #[trigger] sources[i] is UnsafeInline
    &&& forall|i: int| 0 <= i < sources.len() ==> !(#[trigger] sources[i]).disables_inline()
}

impl PolicyModel {
    /// The source list that governs an operation, with its fallbacks.
    pub open spec fn governing(self, resource: StylePolicyResource) -> Option<Seq<SourceModel>> {
        let specific = match resource {
            StylePolicyResource::BaseUri => self.base_uri,
            StylePolicyResource::InlineStyleAttribute => self.style_src_attr,
            _ => self.style_src_elem,
        };
        if specific is Some || resource is BaseUri {
            specific
        } else if self.style_src is Some {
            self.style_src
        } else {
            self.default_src
        }
    }

    /// Whether the policy admits an operation.
    pub open spec fn admits(
        self,
        resource: StylePolicyResource,
        document: OriginModel,
        candidate: Option<OriginModel>,
        nonce: Option<Seq<char>>,
    ) -> bool {
        match self.governing(resource) {
            None => true,
            Some(sources) => match resource {
                StylePolicyResource::BaseUri => candidate matches Some(candidate) && url_admitted(
                    sources,
                    document,
                    candidate,
                ),
                StylePolicyResource::ExternalStyle => candidate matches Some(candidate) && (
                nonce_admitted(sources, nonce) || url_admitted(sources, document, candidate)),
                StylePolicyResource::InlineStyleElement => inline_admitted(sources)
                    || nonce_admitted(sources, nonce),
                StylePolicyResource::InlineStyleAttribute => inline_admitted(sources),
            },
        }
    }
}

/// Number of policies that block an operation.
pub open spec fn blocking(
    policies: Seq<PolicyModel>,
    resource: StylePolicyResource,
    document: OriginModel,
    candidate: Option<OriginModel>,
    nonce: Option<Seq<char>>,
) -> nat
    decreases policies.len(),
{
    if policies.len() == 0 {
        0
    } else {
        blocking(policies.drop_last(), resource, document, candidate, nonce) + if policies.last().admits(
            resource,
            document,
            candidate,
            nonce,
        ) {
            0nat
        } else {
            1nat
        }
    }
}

/// There are no more blocking policies than policies.
proof fn blocking_is_bounded(
    policies: Seq<PolicyModel>,
    resource: StylePolicyResource,
    document: OriginModel,
    candidate: Option<OriginModel>,
    nonce: Option<Seq<char>>,
)
    ensures
        blocking(policies, resource, document, candidate, nonce) <= policies.len(),
    decreases policies.len(),
{
    if policies.len() > 0 {
        blocking_is_bounded(policies.drop_last(), resource, document, candidate, nonce);
    }
}

/// An operation is allowed exactly if every policy admits it.
pub proof fn allowed_by_all(
    policies: Seq<PolicyModel>,
    resource: StylePolicyResource,
    document: OriginModel,
    candidate: Option<OriginModel>,
    nonce: Option<Seq<char>>,
)
    ensures
        blocking(policies, resource, document, candidate, nonce) == 0 <==> forall|i: int|
            0 <= i < policies.len() ==> (#[trigger] policies[i]).admits(
                resource,
                document,
                candidate,
                nonce,
            ),
    decreases policies.len(),
{
    if policies.len() > 0 {
        let shorter = policies.drop_last();
        allowed_by_all(shorter, resource, document, candidate, nonce);
        if blocking(policies, resource, document, candidate, nonce) == 0 {
            assert forall|i: int| 0 <= i < policies.len() implies (#[trigger] policies[i]).admits(
                resource,
                document,
                candidate,
                nonce,
            ) by {
                if i < shorter.len() {
                    assert(shorter[i] == policies[i]);
                }
            }
        }
        if forall|i: int|
            0 <= i < policies.len() ==> (#[trigger] policies[i]).admits(
                resource,
                document,
                candidate,
                nonce,
            ) {
            assert forall|i: int| 0 <= i < shorter.len() implies (#[trigger] shorter[i]).admits(
                resource,
                document,
                candidate,
                nonce,
            ) by {
                assert(shorter[i] == policies[i]);
            }
            assert(policies[policies.len() - 1].admits(resource, document, candidate, nonce));
        }
    }
}

/// A further policy never allows what was blocked.
pub proof fn policies_only_restrict(
    policies: Seq<PolicyModel>,
    further: PolicyModel,
    resource: StylePolicyResource,
    document: OriginModel,
    candidate: Option<OriginModel>,
    nonce: Option<Seq<char>>,
)
    ensures
        blocking(policies, resource, document, candidate, nonce) <= blocking(
            policies.push(further),
            resource,
            document,
            candidate,
            nonce,
        ),
{
    assert(policies.push(further).drop_last() =~= policies);
}

impl SourceList {
    /// Whether some expression admits an element with this nonce.
    fn permits_nonce(&self, nonce: Option<&str>) -> (admits: bool)
        ensures
            admits == nonce_admitted(self@, optional_text(nonce)),
    {
        let value: &str = match nonce {
            Some(value) => value,
            None => return false,
        };
        if value.is_empty() {
            return false;
        }
        let mut at: usize = 0;
        while at < self.sources.len()
            invariant
                at <= self.sources@.len(),
                nonce == Some(value),
                value@.len() > 0,
                forall|i: int|
                    0 <= i < at ==> !(#[trigger] self@[i]).admits_nonce(
                        crate::bytes::text(value@),
                    ),
            decreases self.sources@.len() - at,
        {
            if self.sources[at].matches_nonce(value) {
                assert(self@[at as int].admits_nonce(crate::bytes::text(value@)));
                return true;
            }
            at += 1;
        }
        false
    }

    /// Whether a target is admitted.
    pub fn permits_url(
        &self,
        document: &WebOrigin,
        candidate: &WebOrigin,
        nonce: Option<&str>,
    ) -> (admits: bool)
        ensures
            admits == (nonce_admitted(self@, optional_text(nonce)) || url_admitted(
                self@,
                document@,
                candidate@,
            )),
    {
        if self.permits_nonce(nonce) {
            return true;
        }
        let mut at: usize = 0;
        while at < self.sources.len()
            invariant
                at <= self.sources@.len(),
                forall|i: int|
                    0 <= i < at ==> !(#[trigger] self@[i]).admits_url(document@, candidate@),
            decreases self.sources@.len() - at,
        {
            if self.sources[at].matches_url(document, candidate) {
                assert(self@[at as int].admits_url(document@, candidate@));
                return true;
            }
            at += 1;
        }
        false
    }

    /// Whether all inline styles are admitted.
    pub fn allows_all_inline(&self) -> (admits: bool)
        ensures
            admits == inline_admitted(self@),
    {
        let mut unsafe_inline: bool = false;
        let mut at: usize = 0;
        while at < self.sources.len()
            invariant
                at <= self.sources@.len(),
                unsafe_inline == exists|i: int| 0 <= i < at && #[trigger] self@[i] is UnsafeInline,
                forall|i: int| 0 <= i < at ==> !(#[trigger] self@[i]).disables_inline(),
            decreases self.sources@.len() - at,
        {
            let source = &self.sources[at];
            assert(self@[at as int] == source@);
            if source.invalidates_unsafe_inline() {
                assert(self@[at as int].disables_inline());
                return false;
            }
            if let SourceExpression::UnsafeInline = source {
                unsafe_inline = true;
            }
            at += 1;
        }
        unsafe_inline
    }

    /// Whether an inline style element is admitted.
    pub fn permits_inline_element(&self, nonce: Option<&str>) -> (admits: bool)
        ensures
            admits == (inline_admitted(self@) || nonce_admitted(self@, optional_text(nonce))),
    {
        self.allows_all_inline() || self.permits_nonce(nonce)
    }
}

/// A text that may be absent, in specifications.
pub open spec fn optional_text(text: Option<&str>) -> Option<Seq<char>> {
    match text {
        Some(text) => Some(text@),
        None => None,
    }
}

/// An origin that may be absent, in specifications.
pub open spec fn optional_origin(origin: Option<&WebOrigin>) -> Option<OriginModel> {
    match origin {
        Some(origin) => Some(origin@),
        None => None,
    }
}

impl StylePolicy {
    /// The source list that governs an operation.
    pub fn source_list(&self, resource: StylePolicyResource) -> (list: Option<&SourceList>)
        ensures
            match list {
                Some(list) => self@.governing(resource) == Some(list@),
                None => self@.governing(resource) is None,
            },
    {
        let specific = match resource {
            StylePolicyResource::BaseUri => {
                return self.base_uri.as_ref();
            },
            StylePolicyResource::InlineStyleAttribute => self.style_src_attr.as_ref(),
            _ => self.style_src_elem.as_ref(),
        };
        if specific.is_some() {
            return specific;
        }
        if self.style_src.is_some() {
            return self.style_src.as_ref();
        }
        self.default_src.as_ref()
    }

    /// Whether the policy admits an operation.
    pub fn allows(
        &self,
        resource: StylePolicyResource,
        document: &WebOrigin,
        candidate: Option<&WebOrigin>,
        nonce: Option<&str>,
    ) -> (admits: bool)
        ensures
            admits == self@.admits(
                resource,
                document@,
                optional_origin(candidate),
                optional_text(nonce),
            ),
    {
        let sources: &SourceList = match self.source_list(resource) {
            Some(sources) => sources,
            None => return true,
        };
        match resource {
            StylePolicyResource::BaseUri => match candidate {
                Some(candidate) => sources.permits_url(document, candidate, None),
                None => false,
            },
            StylePolicyResource::ExternalStyle => match candidate {
                Some(candidate) => sources.permits_url(document, candidate, nonce),
                None => false,
            },
            StylePolicyResource::InlineStyleElement => sources.permits_inline_element(nonce),
            StylePolicyResource::InlineStyleAttribute => sources.allows_all_inline(),
        }
    }
}

/// Counts the policies that block an operation.
fn count_blocking(
    policies: &Vec<StylePolicy>,
    resource: StylePolicyResource,
    document: &WebOrigin,
    candidate: Option<&WebOrigin>,
    nonce: Option<&str>,
) -> (count: usize)
    ensures
        count == blocking(
            crate::csp_policy::policy_models(policies@),
            resource,
            document@,
            optional_origin(candidate),
            optional_text(nonce),
        ),
{
    let ghost models = crate::csp_policy::policy_models(policies@);
    let mut count: usize = 0;
    let mut at: usize = 0;
    while at < policies.len()
        invariant
            at <= policies@.len(),
            models == crate::csp_policy::policy_models(policies@),
            count <= at,
            count == blocking(
                models.take(at as int),
                resource,
                document@,
                optional_origin(candidate),
                optional_text(nonce),
            ),
        decreases policies@.len() - at,
    {
        assert(models.take(at + 1).drop_last() =~= models.take(at as int));
        assert(models.take(at + 1).last() == policies@[at as int]@);
        if !policies[at].allows(resource, document, candidate, nonce) {
            count += 1;
        }
        at += 1;
    }
    assert(models.take(at as int) =~= models);
    count
}

/// Policies of one document, in specifications.
pub struct PolicySetModel {
    /// Document revision that the response was parsed into.
    pub response_document_version: DocumentVersion,
    /// Commitment of the response.
    pub navigation_commit: CommitModel,
    /// Target of the response.
    pub document: TargetModel,
    /// Enforcing policies.
    pub enforcing: Seq<PolicyModel>,
    /// Report-only policies.
    pub report_only: Seq<PolicyModel>,
    /// Inspected members.
    pub members: nat,
    /// Inspected source expressions.
    pub expressions: nat,
    /// Ignored duplicate directives.
    pub duplicates: nat,
    /// Evidence of expressions that cannot match.
    pub unsupported: Seq<UnsupportedStyleSource>,
    /// Why report-only policies were discarded.
    pub report_only_parse_failure: Option<StylePolicyError>,
}

impl PolicySetModel {
    /// The set with report-only policies.
    pub open spec fn with_report_only(self, report_only: ParserModel) -> Self {
        PolicySetModel {
            report_only: report_only.policies,
            members: report_only.members,
            expressions: report_only.expressions,
            duplicates: self.duplicates + report_only.duplicates,
            unsupported: self.unsupported + report_only.unsupported,
            ..self
        }
    }

    /// The set without report-only policies, and why.
    pub open spec fn without_report_only(self, failure: StylePolicyError) -> Self {
        PolicySetModel { report_only_parse_failure: Some(failure), ..self }
    }

    /// What a decision on an operation says.
    pub open spec fn decision(
        self,
        resource: StylePolicyResource,
        candidate: Option<OriginModel>,
        nonce: Option<Seq<char>>,
        candidate_nonce_ignored_over_limit: bool,
    ) -> StylePolicyDecision {
        StylePolicyDecision {
            resource,
            enforcing_blocked_policies: blocking(
                self.enforcing,
                resource,
                self.document.origin,
                candidate,
                nonce,
            ) as usize,
            report_only_would_block_policies: blocking(
                self.report_only,
                resource,
                self.document.origin,
                candidate,
                nonce,
            ) as usize,
            candidate_nonce_ignored_over_limit,
        }
    }
}

/// Immutable policies bound to one final response and initial document.
pub struct StylePolicySet {
    response_document_version: DocumentVersion,
    navigation_commit: NavigationCommitMetadata,
    document_target: WebTarget,
    enforcing: Vec<StylePolicy>,
    report_only: Vec<StylePolicy>,
    inspected_policy_members: usize,
    relevant_source_expressions: usize,
    ignored_duplicate_directives: usize,
    unsupported_sources: Vec<UnsupportedStyleSource>,
    report_only_parse_failure: Option<StylePolicyError>,
}

impl View for StylePolicySet {
    type V = PolicySetModel;

    closed spec fn view(&self) -> PolicySetModel {
        PolicySetModel {
            response_document_version: self.response_document_version,
            navigation_commit: self.navigation_commit@,
            document: self.document_target@,
            enforcing: crate::csp_policy::policy_models(self.enforcing@),
            report_only: crate::csp_policy::policy_models(self.report_only@),
            members: self.inspected_policy_members as nat,
            expressions: self.relevant_source_expressions as nat,
            duplicates: self.ignored_duplicate_directives as nat,
            unsupported: self.unsupported_sources@,
            report_only_parse_failure: self.report_only_parse_failure,
        }
    }
}

/// What a redacted description of a policy set says.
pub open spec fn redacted_set(set: PolicySetModel) -> Seq<char> {
    "StylePolicySet { response_document_version: "@ + set.response_document_version.debug_of()
        + ", enforcing_policies: "@ + crate::text::decimal_chars(set.enforcing.len())
        + ", report_only_policies: "@ + crate::text::decimal_chars(set.report_only.len())
        + ", inspected_policy_members: "@ + crate::text::decimal_chars(set.members)
        + ", relevant_source_expressions: "@ + crate::text::decimal_chars(set.expressions)
        + ", ignored_duplicate_directives: "@ + crate::text::decimal_chars(set.duplicates)
        + ", unsupported_sources: "@ + crate::describe::sources_debug(set.unsupported)
        + ", report_only_parse_failure: "@ + crate::describe::optional_debug(
        match set.report_only_parse_failure {
            Some(failure) => Some(failure.debug_of()),
            None => None,
        },
    ) + ", .. }"@
}

/// What was read before any field.
pub open spec fn fresh_parser(members: nat, expressions: nat) -> ParserModel {
    ParserModel {
        policies: Seq::empty(),
        members,
        expressions,
        duplicates: 0,
        unsupported: Seq::empty(),
    }
}

/// What the fields of a document are read with.
pub open spec fn reading_of(
    input: StylePolicyInput,
    document: TargetModel,
    hosts: CanonicalHosts,
) -> ReadingModel {
    ReadingModel { input, document_scheme: document.origin.scheme, hosts }
}

/// What enforcing fields say.
pub open spec fn enforcing_outcome(
    fields: Seq<Seq<u8>>,
    document: TargetModel,
    hosts: CanonicalHosts,
) -> Result<ParserModel, StylePolicyError> {
    fresh_parser(0, 0).after_fields(
        reading_of(StylePolicyInput::Enforcing, document, hosts),
        fields,
        0,
    )
}

/// What report-only fields say, after `enforcing` was read.
pub open spec fn report_only_outcome(
    fields: Seq<Seq<u8>>,
    document: TargetModel,
    hosts: CanonicalHosts,
    enforcing: ParserModel,
) -> Result<ParserModel, StylePolicyError> {
    fresh_parser(enforcing.members, enforcing.expressions).after_fields(
        reading_of(StylePolicyInput::ReportOnly, document, hosts),
        fields,
        0,
    )
}

/// The set that enforcing policies make up alone.
pub open spec fn enforcing_set(
    response_document_version: DocumentVersion,
    navigation_commit: CommitModel,
    document: TargetModel,
    enforcing: ParserModel,
) -> PolicySetModel {
    PolicySetModel {
        response_document_version,
        navigation_commit,
        document,
        enforcing: enforcing.policies,
        report_only: Seq::empty(),
        members: enforcing.members,
        expressions: enforcing.expressions,
        duplicates: enforcing.duplicates,
        unsupported: enforcing.unsupported,
        report_only_parse_failure: None,
    }
}

/// Whether `set` is what `alone` becomes by what report-only fields said: all of
/// it, or nothing and why. Memory for their evidence, if there is any, may be
/// missing.
pub open spec fn merges(
    set: PolicySetModel,
    alone: PolicySetModel,
    report_only: Result<ParserModel, StylePolicyError>,
) -> bool {
    match report_only {
        Err(failure) => set == alone.without_report_only(failure),
        Ok(report_only) => if alone.duplicates + report_only.duplicates > usize::MAX {
            set == alone.without_report_only(
                StylePolicyError::CounterOverflow { input: StylePolicyInput::Aggregate },
            )
        } else {
            ||| set == alone.with_report_only(report_only)
            ||| report_only.unsupported.len() > 0 && set == alone.without_report_only(
                StylePolicyError::AllocationFailed {
                    allocation: StylePolicyAllocation::UnsupportedSource,
                },
            )
        },
    }
}

/// What the URL parser answered, if it was asked.
pub open spec fn optional_answer(parsed: Option<&ParsedNavigation>) -> Option<ParsedNavigation> {
    match parsed {
        Some(parsed) => Some(*parsed),
        None => None,
    }
}

/// Whether `result` is what reading the fields of a response comes to. A failing
/// enforcing field refuses the response; a failing report-only field only loses
/// report-only policies. Memory may be missing only for what is stored before a
/// bound is exceeded.
pub open spec fn reads(
    result: Result<StylePolicySet, StylePolicyError>,
    response_document_version: DocumentVersion,
    navigation_commit: CommitModel,
    parsed: Option<ParsedNavigation>,
    enforcing_fields: Seq<Seq<u8>>,
    report_only_fields: Seq<Seq<u8>>,
    hosts: CanonicalHosts,
) -> bool {
    if navigation_commit.general_web_error(parsed) is Some {
        result matches Err(error) && error == StylePolicyError::InvalidDocumentCommit
    } else {
        let document = parsed->0.target@;
        let enforcing = enforcing_outcome(enforcing_fields, document, hosts);
        match result {
            Err(error) => enforcing == Err::<ParserModel, _>(error) || (error matches
                StylePolicyError::AllocationFailed { allocation } && fresh_parser(
                0,
                0,
            ).fields_store(
                reading_of(StylePolicyInput::Enforcing, document, hosts),
                enforcing_fields,
                0,
                allocation,
            )),
            Ok(set) => {
                &&& enforcing is Ok
                &&& {
                    let alone = enforcing_set(
                        response_document_version,
                        navigation_commit,
                        document,
                        enforcing->Ok_0,
                    );
                    ||| merges(
                        set@,
                        alone,
                        report_only_outcome(
                            report_only_fields,
                            document,
                            hosts,
                            enforcing->Ok_0,
                        ),
                    )
                    ||| {
                        &&& set@.report_only_parse_failure matches Some(failure)
                        &&& failure matches StylePolicyError::AllocationFailed { allocation }
                        &&& fresh_parser(
                            enforcing->Ok_0.members,
                            enforcing->Ok_0.expressions,
                        ).fields_store(
                            reading_of(StylePolicyInput::ReportOnly, document, hosts),
                            report_only_fields,
                            0,
                            allocation,
                        )
                        &&& set@ == alone.without_report_only(failure)
                    }
                }
            },
        }
    }
}

/// Borrows the bytes of field values.
fn borrow_values<'a>(fields: &'a [CspFieldValue]) -> (values: Vec<&'a [u8]>)
    ensures
        crate::headers::byte_strings(values@) == crate::document_policy::field_values(fields@),
{
    let mut values: Vec<&'a [u8]> = Vec::new();
    let mut at: usize = 0;
    while at < fields.len()
        invariant
            at <= fields@.len(),
            crate::headers::byte_strings(values@) == crate::document_policy::field_values(
                fields@,
            ).take(at as int),
            values@.len() == at,
        decreases fields@.len() - at,
    {
        let ghost before = values@;
        values.push(fields[at].as_bytes());
        at += 1;
        assert(crate::headers::byte_strings(values@)
            =~= crate::document_policy::field_values(fields@).take(at as int)) by {
            assert forall|i: int| 0 <= i < at - 1 implies values@[i]@ == #[trigger] fields@[i]@ by {
                assert(crate::headers::byte_strings(before)[i]
                    == crate::document_policy::field_values(fields@).take(at - 1)[i]);
            }
        }
    }
    assert(crate::document_policy::field_values(fields@).take(at as int)
        =~= crate::document_policy::field_values(fields@));
    values
}

impl StylePolicySet {
    /// Reads the separate fields captured from a final response, given what the
    /// URL parser made of its URL and of the hosts that the fields name.
    pub fn from_response_metadata(
        metadata: &CapturedDocumentResponseMetadata,
        parsed: Option<&ParsedNavigation>,
        hosts: &CanonicalHosts,
    ) -> (result: Result<Self, StylePolicyError>)
        ensures
            reads(
                result,
                metadata.version_of(),
                metadata.commit_of(),
                optional_answer(parsed),
                metadata.metadata().enforcing_csp,
                metadata.metadata().report_only_csp,
                *hosts,
            ),
    {
        let enforcing: Vec<&[u8]> = borrow_values(metadata.enforcing_csp_fields());
        let report_only: Vec<&[u8]> = borrow_values(metadata.report_only_csp_fields());
        StylePolicySet::from_field_bytes(
            metadata.response_document_version(),
            metadata.navigation_commit().clone(),
            parsed,
            &enforcing,
            &report_only,
            hosts,
        )
    }

    /// Puts enforcing policies and what report-only fields said together:
    /// report-only policies are taken whole or not at all.
    pub fn from_parsed_policy_sets(
        response_document_version: DocumentVersion,
        navigation_commit: NavigationCommitMetadata,
        document_target: WebTarget,
        parsed: ParsedPolicies,
        report_only_result: Result<ParsedPolicies, StylePolicyError>,
    ) -> (set: Self)
        ensures
            merges(
                set@,
                enforcing_set(
                    response_document_version,
                    navigation_commit@,
                    document_target@,
                    parsed@,
                ),
                match report_only_result {
                    Ok(report_only) => Ok(report_only@),
                    Err(failure) => Err(failure),
                },
            ),
    {
        let mut set = StylePolicySet {
            response_document_version,
            navigation_commit,
            document_target,
            enforcing: parsed.policies,
            report_only: Vec::new(),
            inspected_policy_members: parsed.inspected_policy_members,
            relevant_source_expressions: parsed.relevant_source_expressions,
            ignored_duplicate_directives: parsed.ignored_duplicate_directives,
            unsupported_sources: parsed.unsupported_sources,
            report_only_parse_failure: None,
        };
        assert(crate::csp_policy::policy_models(set.report_only@) =~= Seq::<PolicyModel>::empty());
        let report_only = match report_only_result {
            Ok(report_only) => report_only,
            Err(failure) => {
                set.report_only_parse_failure = Some(failure);
                return set;
            },
        };
        let duplicates: usize = match checked_add(
            set.ignored_duplicate_directives,
            report_only.ignored_duplicate_directives,
            StylePolicyInput::Aggregate,
        ) {
            Ok(duplicates) => duplicates,
            Err(failure) => {
                set.report_only_parse_failure = Some(failure);
                return set;
            },
        };
        if report_only.unsupported_sources.len() > 0 && set.unsupported_sources.try_reserve(
            report_only.unsupported_sources.len(),
        ).is_err() {
            set.report_only_parse_failure = Some(
                StylePolicyError::AllocationFailed {
                    allocation: StylePolicyAllocation::UnsupportedSource,
                },
            );
            return set;
        }
        let mut evidence = report_only.unsupported_sources;
        set.unsupported_sources.append(&mut evidence);
        set.report_only = report_only.policies;
        set.inspected_policy_members = report_only.inspected_policy_members;
        set.relevant_source_expressions = report_only.relevant_source_expressions;
        set.ignored_duplicate_directives = duplicates;
        set
    }

    /// Reads the separate fields of a final response, given what the URL parser
    /// made of its URL and of the hosts that the fields name. Failing
    /// report-only fields leave the enforcing policies as they are.
    pub fn from_field_bytes(
        response_document_version: DocumentVersion,
        navigation_commit: NavigationCommitMetadata,
        parsed: Option<&ParsedNavigation>,
        enforcing_fields: &Vec<&[u8]>,
        report_only_fields: &Vec<&[u8]>,
        hosts: &CanonicalHosts,
    ) -> (result: Result<Self, StylePolicyError>)
        ensures
            reads(
                result,
                response_document_version,
                navigation_commit@,
                optional_answer(parsed),
                crate::headers::byte_strings(enforcing_fields@),
                crate::headers::byte_strings(report_only_fields@),
                *hosts,
            ),
    {
        match navigation_commit.validate_general_web(parsed) {
            Ok(()) => {},
            Err(_) => return Err(StylePolicyError::InvalidDocumentCommit),
        }
        let parsed = match parsed {
            Some(parsed) => parsed,
            None => return Err(StylePolicyError::InvalidDocumentCommit),
        };
        let document_target: WebTarget = parsed.target.clone();
        let mut enforcing_parser = StylePolicyParser::new(
            StylePolicyInput::Enforcing,
            document_target.origin.scheme,
            hosts,
            0,
            0,
        );
        match enforcing_parser.parse_fields(enforcing_fields) {
            Ok(()) => {},
            Err(error) => return Err(error),
        }
        let enforcing = enforcing_parser.finish();
        let mut report_only_parser = StylePolicyParser::new(
            StylePolicyInput::ReportOnly,
            document_target.origin.scheme,
            hosts,
            enforcing.inspected_policy_members,
            enforcing.relevant_source_expressions,
        );
        let report_only_result = match report_only_parser.parse_fields(report_only_fields) {
            Ok(()) => Ok(report_only_parser.finish()),
            Err(failure) => Err(failure),
        };
        Ok(
            StylePolicySet::from_parsed_policy_sets(
                response_document_version,
                navigation_commit,
                document_target,
                enforcing,
                report_only_result,
            ),
        )
    }

    /// Initial immutable document revision bound to the response fields.
    pub fn response_document_version(&self) -> (version: DocumentVersion)
        ensures
            version == self@.response_document_version,
    {
        self.response_document_version
    }

    /// Exact final navigation commitment.
    pub fn navigation_commit(&self) -> (commit: &NavigationCommitMetadata)
        ensures
            commit@ == self@.navigation_commit,
    {
        &self.navigation_commit
    }

    /// Number of enforcing policies retained.
    pub fn enforcing_policy_count(&self) -> (count: usize)
        ensures
            count == self@.enforcing.len(),
    {
        self.enforcing.len()
    }

    /// Number of report-only policies retained.
    pub fn report_only_policy_count(&self) -> (count: usize)
        ensures
            count == self@.report_only.len(),
    {
        self.report_only.len()
    }

    /// Number of comma-delimited members inspected.
    pub fn inspected_policy_member_count(&self) -> (count: usize)
        ensures
            count == self@.members,
    {
        self.inspected_policy_members
    }

    /// Number of tokens inspected in relevant source lists.
    pub fn relevant_source_expression_count(&self) -> (count: usize)
        ensures
            count == self@.expressions,
    {
        self.relevant_source_expressions
    }

    /// Number of later duplicate relevant directives ignored.
    pub fn ignored_duplicate_directive_count(&self) -> (count: usize)
        ensures
            count == self@.duplicates,
    {
        self.ignored_duplicate_directives
    }

    /// Privacy-safe unsupported expression records in parse order.
    pub fn unsupported_sources(&self) -> (sources: &[UnsupportedStyleSource])
        ensures
            sources@ == self@.unsupported,
    {
        self.unsupported_sources.as_slice()
    }

    /// Redacted reason why report-only policies were discarded.
    pub fn report_only_parse_failure(&self) -> (failure: Option<StylePolicyError>)
        ensures
            failure == self@.report_only_parse_failure,
    {
        self.report_only_parse_failure
    }

    /// Description that tells the revision, counts, evidence and failure, and
    /// nothing of the policies or the document's address.
    pub fn redacted(&self) -> (description: String)
        ensures
            description@ == redacted_set(self@),
    {
        let failure: Option<String> = match self.report_only_parse_failure {
            Some(failure) => Some(failure.debug_text()),
            None => None,
        };
        let mut description: String =
            "StylePolicySet { response_document_version: ".to_owned();
        description.append(self.response_document_version.debug_text().as_str());
        description.append(", enforcing_policies: ");
        description.append(decimal_text(self.enforcing.len() as u64).as_str());
        description.append(", report_only_policies: ");
        description.append(decimal_text(self.report_only.len() as u64).as_str());
        description.append(", inspected_policy_members: ");
        description.append(decimal_text(self.inspected_policy_members as u64).as_str());
        description.append(", relevant_source_expressions: ");
        description.append(decimal_text(self.relevant_source_expressions as u64).as_str());
        description.append(", ignored_duplicate_directives: ");
        description.append(decimal_text(self.ignored_duplicate_directives as u64).as_str());
        description.append(", unsupported_sources: ");
        description.append(sources_text(self.unsupported_sources.as_slice()).as_str());
        description.append(", report_only_parse_failure: ");
        description.append(optional_value_text(failure).as_str());
        description.append(", .. }");
        description
    }

    /// Evaluates a canonical HTTP(S) base URL, given what the URL parser made
    /// of it. `default-src` never applies.
    pub fn evaluate_base_uri(&self, candidate_url: &str, parsed: Option<&ParsedNavigation>) -> (result:
        Result<StylePolicyDecision, StylePolicyError>)
        ensures
            result == match candidate_error(candidate_url@, parsed) {
                Some(error) => Err(error),
                None => Ok(
                    self@.decision(
                        StylePolicyResource::BaseUri,
                        Some(parsed->0.target.origin@),
                        None,
                        false,
                    ),
                ),
            },
    {
        match check_candidate(candidate_url, parsed) {
            Ok(candidate) => Ok(
                self.evaluate(StylePolicyResource::BaseUri, Some(candidate), None, false),
            ),
            Err(error) => Err(error),
        }
    }

    /// Evaluates an external stylesheet URL, given what the URL parser made of
    /// it, and an optional link nonce, which bypasses URL matching. An
    /// over-limit nonce is treated as absent.
    pub fn evaluate_external_style(
        &self,
        candidate_url: &str,
        parsed: Option<&ParsedNavigation>,
        nonce: Option<&str>,
    ) -> (result: Result<StylePolicyDecision, StylePolicyError>)
        ensures
            result == match candidate_error(candidate_url@, parsed) {
                Some(error) => Err(error),
                None => Ok(
                    self@.decision(
                        StylePolicyResource::ExternalStyle,
                        Some(parsed->0.target.origin@),
                        eligible_nonce(optional_text(nonce)),
                        nonce_is_over_limit(optional_text(nonce)),
                    ),
                ),
            },
    {
        let (nonce, ignored) = bounded_candidate_nonce(nonce);
        match check_candidate(candidate_url, parsed) {
            Ok(candidate) => Ok(
                self.evaluate(StylePolicyResource::ExternalStyle, Some(candidate), nonce, ignored),
            ),
            Err(error) => Err(error),
        }
    }

    /// Evaluates an inline `style` element and an optional element nonce. An
    /// over-limit nonce is treated as absent.
    pub fn evaluate_inline_style_element(&self, nonce: Option<&str>) -> (result: Result<
        StylePolicyDecision,
        StylePolicyError,
    >)
        ensures
            result == Ok::<_, StylePolicyError>(
                self@.decision(
                    StylePolicyResource::InlineStyleElement,
                    None,
                    eligible_nonce(optional_text(nonce)),
                    nonce_is_over_limit(optional_text(nonce)),
                ),
            ),
    {
        let (nonce, ignored) = bounded_candidate_nonce(nonce);
        Ok(self.evaluate(StylePolicyResource::InlineStyleElement, None, nonce, ignored))
    }

    /// Evaluates an inline style attribute. Element nonces never apply.
    pub fn evaluate_inline_style_attribute(&self) -> (result: Result<
        StylePolicyDecision,
        StylePolicyError,
    >)
        ensures
            result == Ok::<_, StylePolicyError>(
                self@.decision(StylePolicyResource::InlineStyleAttribute, None, None, false),
            ),
    {
        Ok(self.evaluate(StylePolicyResource::InlineStyleAttribute, None, None, false))
    }

    /// Evaluates an operation.
    fn evaluate(
        &self,
        resource: StylePolicyResource,
        candidate: Option<&WebOrigin>,
        nonce: Option<&str>,
        candidate_nonce_ignored_over_limit: bool,
    ) -> (decision: StylePolicyDecision)
        ensures
            decision == self@.decision(
                resource,
                optional_origin(candidate),
                optional_text(nonce),
                candidate_nonce_ignored_over_limit,
            ),
    {
        let document: &WebOrigin = &self.document_target.origin;
        StylePolicyDecision {
            resource,
            enforcing_blocked_policies: count_blocking(
                &self.enforcing,
                resource,
                document,
                candidate,
                nonce,
            ),
            report_only_would_block_policies: count_blocking(
                &self.report_only,
                resource,
                document,
                candidate,
                nonce,
            ),
            candidate_nonce_ignored_over_limit,
        }
    }
}

/// Whether a nonce is longer than what is eligible for matching.
pub open spec fn nonce_is_over_limit(nonce: Option<Seq<char>>) -> bool {
    nonce matches Some(nonce) && crate::bytes::text(nonce).len() > MAX_STYLE_CSP_NONCE_BYTES
}

/// The nonce that is eligible for matching.
pub open spec fn eligible_nonce(nonce: Option<Seq<char>>) -> Option<Seq<char>> {
    if nonce_is_over_limit(nonce) {
        None
    } else {
        nonce
    }
}

/// Treats an over-limit nonce as absent.
pub fn bounded_candidate_nonce<'a>(nonce: Option<&'a str>) -> (bounded: (Option<&'a str>, bool))
    ensures
        optional_text(bounded.0) == eligible_nonce(optional_text(nonce)),
        bounded.1 == nonce_is_over_limit(optional_text(nonce)),
{
    match nonce {
        Some(present) => {
            if present.as_bytes().len() > MAX_STYLE_CSP_NONCE_BYTES {
                (None, true)
            } else {
                (nonce, false)
            }
        },
        None => (None, false),
    }
}

/// Why a candidate URL is refused, given what the URL parser made of it.
pub open spec fn candidate_error(url: Seq<char>, parsed: Option<&ParsedNavigation>) -> Option<
    StylePolicyError,
> {
    match parsed {
        None => Some(StylePolicyError::InvalidCandidateUrl),
        Some(parsed) => if parsed.identity@ != url {
            Some(StylePolicyError::NonCanonicalCandidateUrl)
        } else {
            None
        },
    }
}

/// Accepts a candidate URL that is its own canonical serialization.
fn check_candidate<'a>(candidate_url: &str, parsed: Option<&'a ParsedNavigation>) -> (result: Result<
    &'a WebOrigin,
    StylePolicyError,
>)
    ensures
        match candidate_error(candidate_url@, parsed) {
            Some(error) => result == Err::<&WebOrigin, _>(error),
            None => result matches Ok(origin) && origin@ == parsed->0.target.origin@,
        },
{
    let parsed: &ParsedNavigation = match parsed {
        Some(parsed) => parsed,
        None => return Err(StylePolicyError::InvalidCandidateUrl),
    };
    if parsed.identity != candidate_url.to_owned() {
        return Err(StylePolicyError::NonCanonicalCandidateUrl);
    }
    Ok(&parsed.target.origin)
}

} // verus!
