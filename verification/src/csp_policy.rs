//! Bounded reading of the content security policies that govern styles.

use vstd::prelude::*;

use crate::bytes::{eq_ignore_ascii_case, find_in, find_outside, trim, ByteClass, COMMA, SEMICOLON};
use crate::csp_source::{
    parse_source_expression, CanonicalHosts, SourceExpression, SourceModel, UnsupportedStyleSource,
};
use crate::web::WebScheme;

verus! {

/// Maximum comma-delimited members inspected across both field kinds, leading
/// and interior empty ones among them.
pub const MAX_STYLE_CSP_POLICY_MEMBERS: usize = 16;

/// Maximum nonempty serialized directives inspected in one policy.
pub const MAX_STYLE_CSP_DIRECTIVES_PER_POLICY: usize = 128;

/// Maximum source expressions inspected across relevant directives.
pub const MAX_STYLE_CSP_SOURCE_EXPRESSIONS: usize = 512;

/// Maximum bytes in one serialized policy member.
pub const MAX_STYLE_CSP_POLICY_BYTES: usize = 16 * 1024;

/// Maximum bytes in one relevant source-expression token.
pub const MAX_STYLE_CSP_SOURCE_TOKEN_BYTES: usize = 1024;

/// Maximum parser work units charged to one serialized policy.
pub const MAX_STYLE_CSP_POLICY_WORK: usize = 17 * 1024;

/// Whether a bounded input came from an enforcing or report-only field.
#[derive(Clone, Copy, Debug, PartialEq, Eq, Structural)]
pub enum StylePolicyInput {
    /// `Content-Security-Policy`.
    Enforcing,
    /// `Content-Security-Policy-Report-Only`.
    ReportOnly,
    /// A limit shared by both field kinds.
    Aggregate,
}

/// Which bounded parser or matcher resource was exhausted.
#[derive(Clone, Copy, Debug, PartialEq, Eq, Structural)]
pub enum StylePolicyLimit {
    /// Comma-delimited members inspected across both field kinds.
    PolicyMemberCount,
    /// Bytes in one serialized policy member.
    PolicyBytes,
    /// Nonempty directives inspected in one policy.
    DirectiveCount,
    /// Source expressions inspected across relevant directives.
    SourceExpressionCount,
    /// Bytes in one relevant source-expression token.
    SourceTokenBytes,
    /// Work charged while parsing one policy.
    PolicyWork,
}

/// A bounded allocation owned by the style-policy layer.
#[derive(Clone, Copy, Debug, PartialEq, Eq, Structural)]
pub enum StylePolicyAllocation {
    /// Policy storage.
    Policy,
    /// A relevant directive's source list.
    SourceList,
    /// A normalized source host.
    Host,
    /// A redacted nonce value.
    Nonce,
    /// Privacy-safe unsupported-source evidence.
    UnsupportedSource,
    /// A temporary bounded URL used to normalize one host source.
    HostNormalization,
}

/// Value-redacting failure from style-policy parsing or matching.
#[derive(Clone, Copy, Debug, PartialEq, Eq, Structural)]
pub enum StylePolicyError {
    /// Final navigation metadata was not a coherent canonical HTTP(S) commit.
    InvalidDocumentCommit,
    /// A candidate was not a credential-free HTTP(S) browser URL.
    InvalidCandidateUrl,
    /// A candidate was valid but was not its exact serialization.
    NonCanonicalCandidateUrl,
    /// A fixed count, byte, or work limit was exceeded.
    LimitExceeded {
        /// Field family being parsed.
        input: StylePolicyInput,
        /// Exhausted resource.
        limit: StylePolicyLimit,
        /// Observed count, byte length, or work.
        actual: usize,
        /// Maximum admitted value.
        maximum: usize,
    },
    /// Checked count, byte, or work arithmetic overflowed.
    CounterOverflow {
        /// Field family being parsed or evaluated.
        input: StylePolicyInput,
    },
    /// A bounded owned value could not be allocated.
    AllocationFailed {
        /// Allocation which failed.
        allocation: StylePolicyAllocation,
    },
}

/// A directive that governs styles.
#[derive(Clone, Copy, Debug, PartialEq, Eq, Structural)]
pub enum RelevantDirective {
    /// `base-uri`.
    BaseUri,
    /// `style-src-elem`.
    StyleSrcElem,
    /// `style-src`.
    StyleSrc,
    /// `style-src-attr`.
    StyleSrcAttr,
    /// `default-src`.
    DefaultSrc,
}

/// The directive that a name stands for, if it governs styles.
pub open spec fn directive_of(name: Seq<u8>) -> Option<RelevantDirective> {
    if crate::bytes::same_word(name, crate::bytes::text("base-uri"@)) {
        Some(RelevantDirective::BaseUri)
    } else if crate::bytes::same_word(name, crate::bytes::text("style-src-elem"@)) {
        Some(RelevantDirective::StyleSrcElem)
    } else if crate::bytes::same_word(name, crate::bytes::text("style-src"@)) {
        Some(RelevantDirective::StyleSrc)
    } else if crate::bytes::same_word(name, crate::bytes::text("style-src-attr"@)) {
        Some(RelevantDirective::StyleSrcAttr)
    } else if crate::bytes::same_word(name, crate::bytes::text("default-src"@)) {
        Some(RelevantDirective::DefaultSrc)
    } else {
        None
    }
}

/// Whether a name stands for a recognized directive that does not govern
/// styles; `reflected-xss` is none of them.
pub open spec fn is_neutral(name: Seq<u8>) -> bool {
    ||| crate::bytes::same_word(name, crate::bytes::text("script-src"@))
    ||| crate::bytes::same_word(name, crate::bytes::text("object-src"@))
    ||| crate::bytes::same_word(name, crate::bytes::text("img-src"@))
    ||| crate::bytes::same_word(name, crate::bytes::text("media-src"@))
    ||| crate::bytes::same_word(name, crate::bytes::text("frame-src"@))
    ||| crate::bytes::same_word(name, crate::bytes::text("font-src"@))
    ||| crate::bytes::same_word(name, crate::bytes::text("connect-src"@))
    ||| crate::bytes::same_word(name, crate::bytes::text("report-uri"@))
    ||| crate::bytes::same_word(name, crate::bytes::text("frame-ancestors"@))
    ||| crate::bytes::same_word(name, crate::bytes::text("form-action"@))
    ||| crate::bytes::same_word(name, crate::bytes::text("manifest-src"@))
    ||| crate::bytes::same_word(name, crate::bytes::text("upgrade-insecure-requests"@))
    ||| crate::bytes::same_word(name, crate::bytes::text("child-src"@))
    ||| crate::bytes::same_word(name, crate::bytes::text("block-all-mixed-content"@))
    ||| crate::bytes::same_word(name, crate::bytes::text("sandbox"@))
    ||| crate::bytes::same_word(name, crate::bytes::text("worker-src"@))
    ||| crate::bytes::same_word(name, crate::bytes::text("script-src-elem"@))
    ||| crate::bytes::same_word(name, crate::bytes::text("script-src-attr"@))
    ||| crate::bytes::same_word(name, crate::bytes::text("require-trusted-types-for"@))
    ||| crate::bytes::same_word(name, crate::bytes::text("trusted-types"@))
    ||| crate::bytes::same_word(name, crate::bytes::text("report-to"@))
}

/// Source lists of one policy, in specifications.
pub struct PolicyModel {
    /// `base-uri`.
    pub base_uri: Option<Seq<SourceModel>>,
    /// `style-src-elem`.
    pub style_src_elem: Option<Seq<SourceModel>>,
    /// `style-src`.
    pub style_src: Option<Seq<SourceModel>>,
    /// `style-src-attr`.
    pub style_src_attr: Option<Seq<SourceModel>>,
    /// `default-src`.
    pub default_src: Option<Seq<SourceModel>>,
}

impl PolicyModel {
    /// A policy without source lists.
    pub open spec fn empty() -> Self {
        PolicyModel {
            base_uri: None,
            style_src_elem: None,
            style_src: None,
            style_src_attr: None,
            default_src: None,
        }
    }

    /// The source list of a directive.
    pub open spec fn list(self, directive: RelevantDirective) -> Option<Seq<SourceModel>> {
        match directive {
            RelevantDirective::BaseUri => self.base_uri,
            RelevantDirective::StyleSrcElem => self.style_src_elem,
            RelevantDirective::StyleSrc => self.style_src,
            RelevantDirective::StyleSrcAttr => self.style_src_attr,
            RelevantDirective::DefaultSrc => self.default_src,
        }
    }

    /// The policy with the source list of one directive.
    pub open spec fn with_list(self, directive: RelevantDirective, sources: Seq<SourceModel>) -> Self {
        match directive {
            RelevantDirective::BaseUri => PolicyModel { base_uri: Some(sources), ..self },
            RelevantDirective::StyleSrcElem => PolicyModel {
                style_src_elem: Some(sources),
                ..self
            },
            RelevantDirective::StyleSrc => PolicyModel { style_src: Some(sources), ..self },
            RelevantDirective::StyleSrcAttr => PolicyModel {
                style_src_attr: Some(sources),
                ..self
            },
            RelevantDirective::DefaultSrc => PolicyModel { default_src: Some(sources), ..self },
        }
    }
}

/// What policies are read with, in specifications.
pub struct ReadingModel {
    /// Field family.
    pub input: StylePolicyInput,
    /// Scheme of the document.
    pub document_scheme: WebScheme,
    /// What the URL parser makes of host spellings.
    pub hosts: CanonicalHosts,
}

/// What was read so far, in specifications.
pub struct ParserModel {
    /// Retained policies.
    pub policies: Seq<PolicyModel>,
    /// Inspected members.
    pub members: nat,
    /// Inspected source expressions.
    pub expressions: nat,
    /// Ignored duplicate directives.
    pub duplicates: nat,
    /// Evidence of expressions that cannot match.
    pub unsupported: Seq<UnsupportedStyleSource>,
}

/// A bound was exceeded.
pub open spec fn over(
    input: StylePolicyInput,
    limit: StylePolicyLimit,
    actual: nat,
    maximum: usize,
) -> StylePolicyError {
    StylePolicyError::LimitExceeded { input, limit, actual: actual as usize, maximum }
}

/// A source list that is being read, in specifications.
pub struct ListModel {
    /// Expressions so far.
    pub sources: Seq<SourceModel>,
    /// Inspected source expressions.
    pub expressions: nat,
    /// Evidence of expressions that cannot match.
    pub unsupported: Seq<UnsupportedStyleSource>,
    /// Work charged to the policy.
    pub work: nat,
}

impl ListModel {
    /// The list after one more token; `'none'` adds nothing.
    pub open spec fn after(self, reading: ReadingModel, token: Seq<u8>) -> Result<
        Self,
        StylePolicyError,
    > {
        let expressions = self.expressions + 1;
        let work = self.work + token.len() + 1;
        let source = crate::csp_source::source_of(token, reading.document_scheme, reading.hosts);
        if expressions > MAX_STYLE_CSP_SOURCE_EXPRESSIONS {
            Err(
                over(
                    StylePolicyInput::Aggregate,
                    StylePolicyLimit::SourceExpressionCount,
                    expressions,
                    MAX_STYLE_CSP_SOURCE_EXPRESSIONS,
                ),
            )
        } else if token.len() > MAX_STYLE_CSP_SOURCE_TOKEN_BYTES {
            Err(
                over(
                    reading.input,
                    StylePolicyLimit::SourceTokenBytes,
                    token.len(),
                    MAX_STYLE_CSP_SOURCE_TOKEN_BYTES,
                ),
            )
        } else if work > MAX_STYLE_CSP_POLICY_WORK {
            Err(
                over(
                    reading.input,
                    StylePolicyLimit::PolicyWork,
                    work,
                    MAX_STYLE_CSP_POLICY_WORK,
                ),
            )
        } else if crate::bytes::same_word(token, crate::bytes::text("'none'"@)) {
            Ok(ListModel { expressions, work, ..self })
        } else {
            Ok(
                ListModel {
                    sources: self.sources.push(source),
                    expressions,
                    work,
                    unsupported: match source {
                        SourceModel::Unsupported { evidence, .. } => self.unsupported.push(
                            evidence,
                        ),
                        _ => self.unsupported,
                    },
                },
            )
        }
    }

    /// The list after the tokens of a value from `from` on.
    pub open spec fn after_all(self, reading: ReadingModel, value: Seq<u8>, from: int) -> Result<
        Self,
        StylePolicyError,
    >
        decreases value.len() - from,
    {
        let start = crate::bytes::first_outside(value, from, ByteClass::AsciiWhitespace);
        let end = crate::bytes::first_in(value, start, ByteClass::AsciiWhitespace);
        if from < 0 || start >= value.len() {
            Ok(self)
        } else {
            proof {
                crate::bytes::first_outside_is_first(value, from, ByteClass::AsciiWhitespace);
                crate::bytes::first_in_is_first(value, start, ByteClass::AsciiWhitespace);
            }
            match self.after(reading, value.subrange(start, end)) {
                Err(error) => Err(error),
                Ok(next) => next.after_all(reading, value, end),
            }
        }
    }

    /// Whether memory for `allocation` is asked for by one more token: for its
    /// expression, and for the nonce or the evidence that it carries.
    pub open spec fn stores(
        self,
        reading: ReadingModel,
        token: Seq<u8>,
        allocation: StylePolicyAllocation,
    ) -> bool {
        let source = crate::csp_source::source_of(token, reading.document_scheme, reading.hosts);
        &&& self.after(reading, token) is Ok
        &&& !crate::bytes::same_word(token, crate::bytes::text("'none'"@))
        &&& match allocation {
            StylePolicyAllocation::SourceList => true,
            StylePolicyAllocation::Nonce => source is Nonce,
            StylePolicyAllocation::UnsupportedSource => source is Unsupported,
            _ => false,
        }
    }

    /// Whether memory for `allocation` is asked for by the tokens of a value from
    /// `from` on, or for the expression that stands for an empty list.
    pub open spec fn stores_any(
        self,
        reading: ReadingModel,
        value: Seq<u8>,
        from: int,
        allocation: StylePolicyAllocation,
    ) -> bool
        decreases value.len() - from,
    {
        let start = crate::bytes::first_outside(value, from, ByteClass::AsciiWhitespace);
        let end = crate::bytes::first_in(value, start, ByteClass::AsciiWhitespace);
        if from < 0 || start >= value.len() {
            allocation is SourceList && self.sources.len() == 0
        } else {
            proof {
                crate::bytes::first_outside_is_first(value, from, ByteClass::AsciiWhitespace);
                crate::bytes::first_in_is_first(value, start, ByteClass::AsciiWhitespace);
            }
            self.stores(reading, value.subrange(start, end), allocation) || match self.after(
                reading,
                value.subrange(start, end),
            ) {
                Err(_) => false,
                Ok(next) => next.stores_any(reading, value, end, allocation),
            }
        }
    }

    /// The expressions of a complete list; an empty one admits nothing.
    pub open spec fn complete(self) -> Seq<SourceModel> {
        if self.sources.len() == 0 {
            seq![SourceModel::DenyAll]
        } else {
            self.sources
        }
    }
}

/// A policy that is being read, in specifications.
pub struct PolicyReading {
    /// What was read before and with it.
    pub parser: ParserModel,
    /// Source lists so far.
    pub policy: PolicyModel,
    /// Directives so far.
    pub directives: nat,
    /// Whether a recognized directive was read.
    pub retained: bool,
    /// Work charged to the policy.
    pub work: nat,
}

impl PolicyReading {
    /// The policy after one more directive: the first one of a name counts.
    pub open spec fn after(self, reading: ReadingModel, serialized: Seq<u8>) -> Result<
        Self,
        StylePolicyError,
    > {
        let directives = self.directives + 1;
        let work = self.work + 1;
        let charged = PolicyReading { directives, work, ..self };
        let name_end = crate::bytes::first_in(serialized, 0, ByteClass::AsciiWhitespace);
        let name = serialized.subrange(0, name_end);
        let value = crate::bytes::trimmed(
            serialized.subrange(name_end, serialized.len() as int),
            ByteClass::AsciiWhitespace,
        );
        if serialized.len() == 0 {
            Ok(self)
        } else if directives > MAX_STYLE_CSP_DIRECTIVES_PER_POLICY {
            Err(
                over(
                    reading.input,
                    StylePolicyLimit::DirectiveCount,
                    directives,
                    MAX_STYLE_CSP_DIRECTIVES_PER_POLICY,
                ),
            )
        } else if work > MAX_STYLE_CSP_POLICY_WORK {
            Err(
                over(
                    reading.input,
                    StylePolicyLimit::PolicyWork,
                    work,
                    MAX_STYLE_CSP_POLICY_WORK,
                ),
            )
        } else if !ByteClass::Directive.has_all(serialized) {
            Ok(charged)
        } else {
            match directive_of(name) {
                None => Ok(
                    PolicyReading { retained: self.retained || is_neutral(name), ..charged },
                ),
                Some(directive) => if self.policy.list(directive) is Some {
                    if self.parser.duplicates >= usize::MAX {
                        Err(StylePolicyError::CounterOverflow { input: reading.input })
                    } else {
                        Ok(
                            PolicyReading {
                                parser: ParserModel {
                                    duplicates: self.parser.duplicates + 1,
                                    ..self.parser
                                },
                                retained: true,
                                ..charged
                            },
                        )
                    }
                } else {
                    let list = ListModel {
                        sources: Seq::empty(),
                        expressions: self.parser.expressions,
                        unsupported: self.parser.unsupported,
                        work,
                    };
                    match list.after_all(reading, value, 0) {
                        Err(error) => Err(error),
                        Ok(list) => Ok(
                            PolicyReading {
                                parser: ParserModel {
                                    expressions: list.expressions,
                                    unsupported: list.unsupported,
                                    ..self.parser
                                },
                                policy: self.policy.with_list(directive, list.complete()),
                                directives,
                                retained: true,
                                work: list.work,
                            },
                        ),
                    }
                },
            }
        }
    }

    /// Whether memory for `allocation` is asked for by one more directive: by the
    /// source list of the first one of a name.
    pub open spec fn stores(
        self,
        reading: ReadingModel,
        serialized: Seq<u8>,
        allocation: StylePolicyAllocation,
    ) -> bool {
        let name_end = crate::bytes::first_in(serialized, 0, ByteClass::AsciiWhitespace);
        let value = crate::bytes::trimmed(
            serialized.subrange(name_end, serialized.len() as int),
            ByteClass::AsciiWhitespace,
        );
        let list = ListModel {
            sources: Seq::empty(),
            expressions: self.parser.expressions,
            unsupported: self.parser.unsupported,
            work: self.work + 1,
        };
        &&& serialized.len() > 0 && ByteClass::Directive.has_all(serialized)
        &&& self.directives < MAX_STYLE_CSP_DIRECTIVES_PER_POLICY && self.work
            < MAX_STYLE_CSP_POLICY_WORK
        &&& directive_of(serialized.subrange(0, name_end)) matches Some(directive)
        &&& self.policy.list(directive) is None
        &&& list.stores_any(reading, value, 0, allocation)
    }

    /// Whether memory for `allocation` is asked for by the directives of a member
    /// from `from` on.
    pub open spec fn stores_any(
        self,
        reading: ReadingModel,
        member: Seq<u8>,
        from: int,
        allocation: StylePolicyAllocation,
    ) -> bool
        decreases member.len() + 1 - from,
    {
        let end = crate::bytes::first_in(member, from, ByteClass::Exactly(SEMICOLON));
        let serialized = crate::bytes::trimmed(
            member.subrange(from, end),
            ByteClass::AsciiWhitespace,
        );
        if from < 0 || from > member.len() {
            false
        } else {
            proof {
                crate::bytes::first_in_is_first(member, from, ByteClass::Exactly(SEMICOLON));
            }
            self.stores(reading, serialized, allocation) || match self.after(reading, serialized) {
                Err(_) => false,
                Ok(next) => end < member.len() && next.stores_any(
                    reading,
                    member,
                    end + 1,
                    allocation,
                ),
            }
        }
    }

    /// The policy after the directives of a member from `from` on.
    pub open spec fn after_all(self, reading: ReadingModel, member: Seq<u8>, from: int) -> Result<
        Self,
        StylePolicyError,
    >
        decreases member.len() + 1 - from,
    {
        let end = crate::bytes::first_in(member, from, ByteClass::Exactly(SEMICOLON));
        let serialized = crate::bytes::trimmed(
            member.subrange(from, end),
            ByteClass::AsciiWhitespace,
        );
        if from < 0 || from > member.len() {
            Ok(self)
        } else {
            proof {
                crate::bytes::first_in_is_first(member, from, ByteClass::Exactly(SEMICOLON));
            }
            match self.after(reading, serialized) {
                Err(error) => Err(error),
                Ok(next) => if end >= member.len() {
                    Ok(next)
                } else {
                    next.after_all(reading, member, end + 1)
                },
            }
        }
    }
}

impl ParserModel {
    /// Counts are inside their bounds.
    pub open spec fn bounded(self) -> bool {
        self.members <= MAX_STYLE_CSP_POLICY_MEMBERS && self.expressions
            <= MAX_STYLE_CSP_SOURCE_EXPRESSIONS && self.duplicates <= usize::MAX
    }

    /// The policy of one more member, before its directives are read.
    pub open spec fn started(self, member: Seq<u8>) -> PolicyReading {
        PolicyReading {
            parser: ParserModel { members: self.members + 1, ..self },
            policy: PolicyModel::empty(),
            directives: 0,
            retained: false,
            work: member.len(),
        }
    }

    /// What was read after one more member; one without a recognized directive
    /// leaves no policy.
    pub open spec fn after(self, reading: ReadingModel, member: Seq<u8>) -> Result<
        Self,
        StylePolicyError,
    > {
        let members = self.members + 1;
        if members > MAX_STYLE_CSP_POLICY_MEMBERS {
            Err(
                over(
                    StylePolicyInput::Aggregate,
                    StylePolicyLimit::PolicyMemberCount,
                    members,
                    MAX_STYLE_CSP_POLICY_MEMBERS,
                ),
            )
        } else if member.len() > MAX_STYLE_CSP_POLICY_BYTES {
            Err(
                over(
                    reading.input,
                    StylePolicyLimit::PolicyBytes,
                    member.len(),
                    MAX_STYLE_CSP_POLICY_BYTES,
                ),
            )
        } else {
            match self.started(member).after_all(reading, member, 0) {
                Err(error) => Err(error),
                Ok(read) => Ok(
                    ParserModel {
                        policies: if read.retained {
                            read.parser.policies.push(read.policy)
                        } else {
                            read.parser.policies
                        },
                        ..read.parser
                    },
                ),
            }
        }
    }

    /// Whether memory for `allocation` is asked for by one more member: by its
    /// directives, or for its policy.
    pub open spec fn stores(
        self,
        reading: ReadingModel,
        member: Seq<u8>,
        allocation: StylePolicyAllocation,
    ) -> bool {
        let start = self.started(member);
        &&& self.members < MAX_STYLE_CSP_POLICY_MEMBERS && member.len()
            <= MAX_STYLE_CSP_POLICY_BYTES
        &&& {
            ||| start.stores_any(reading, member, 0, allocation)
            ||| {
                &&& allocation is Policy
                &&& start.after_all(reading, member, 0) matches Ok(read)
                &&& read.retained
            }
        }
    }

    /// Whether memory for `allocation` is asked for by the members of a field
    /// from `from` on.
    pub open spec fn field_stores(
        self,
        reading: ReadingModel,
        field: Seq<u8>,
        from: int,
        allocation: StylePolicyAllocation,
    ) -> bool
        decreases field.len() + 1 - from,
    {
        let end = crate::bytes::first_in(field, from, ByteClass::Exactly(COMMA));
        let member = crate::bytes::trimmed(field.subrange(from, end), ByteClass::HttpWhitespace);
        if from < 0 || from > field.len() {
            false
        } else {
            proof {
                crate::bytes::first_in_is_first(field, from, ByteClass::Exactly(COMMA));
            }
            if end >= field.len() {
                member.len() > 0 && self.stores(reading, member, allocation)
            } else {
                self.stores(reading, member, allocation) || match self.after(reading, member) {
                    Err(_) => false,
                    Ok(next) => next.field_stores(reading, field, end + 1, allocation),
                }
            }
        }
    }

    /// Whether memory for `allocation` is asked for by fields from `from` on:
    /// for a policy, a source list, a nonce or evidence, before a bound is
    /// exceeded.
    pub open spec fn fields_store(
        self,
        reading: ReadingModel,
        fields: Seq<Seq<u8>>,
        from: int,
        allocation: StylePolicyAllocation,
    ) -> bool
        decreases fields.len() - from,
    {
        if from < 0 || from >= fields.len() {
            false
        } else {
            self.field_stores(reading, fields[from], 0, allocation) || match self.after_field(
                reading,
                fields[from],
                0,
            ) {
                Err(_) => false,
                Ok(next) => next.fields_store(reading, fields, from + 1, allocation),
            }
        }
    }

    /// What was read after the members of a field from `from` on; an empty last
    /// one is none.
    pub open spec fn after_field(self, reading: ReadingModel, field: Seq<u8>, from: int) -> Result<
        Self,
        StylePolicyError,
    >
        decreases field.len() + 1 - from,
    {
        let end = crate::bytes::first_in(field, from, ByteClass::Exactly(COMMA));
        let member = crate::bytes::trimmed(field.subrange(from, end), ByteClass::HttpWhitespace);
        if from < 0 || from > field.len() {
            Ok(self)
        } else {
            proof {
                crate::bytes::first_in_is_first(field, from, ByteClass::Exactly(COMMA));
            }
            if end >= field.len() {
                if member.len() == 0 {
                    Ok(self)
                } else {
                    self.after(reading, member)
                }
            } else {
                match self.after(reading, member) {
                    Err(error) => Err(error),
                    Ok(next) => next.after_field(reading, field, end + 1),
                }
            }
        }
    }

    /// What was read after fields from `from` on.
    pub open spec fn after_fields(
        self,
        reading: ReadingModel,
        fields: Seq<Seq<u8>>,
        from: int,
    ) -> Result<Self, StylePolicyError>
        decreases fields.len() - from,
    {
        if from < 0 || from >= fields.len() {
            Ok(self)
        } else {
            match self.after_field(reading, fields[from], 0) {
                Err(error) => Err(error),
                Ok(next) => next.after_fields(reading, fields, from + 1),
            }
        }
    }
}

/// Expressions of a list, in specifications.
pub open spec fn source_models(sources: Seq<SourceExpression>) -> Seq<SourceModel> {
    Seq::new(sources.len(), |i: int| sources[i]@)
}

/// Expressions of one directive.
pub struct SourceList {
    /// Expressions, in order.
    pub sources: Vec<SourceExpression>,
}

impl View for SourceList {
    type V = Seq<SourceModel>;

    open spec fn view(&self) -> Seq<SourceModel> {
        source_models(self.sources@)
    }
}

/// A list that may be absent, in specifications.
pub open spec fn optional_list(list: Option<SourceList>) -> Option<Seq<SourceModel>> {
    match list {
        Some(list) => Some(list@),
        None => None,
    }
}

/// Source lists of one policy.
pub struct StylePolicy {
    /// `base-uri`.
    pub base_uri: Option<SourceList>,
    /// `style-src-elem`.
    pub style_src_elem: Option<SourceList>,
    /// `style-src`.
    pub style_src: Option<SourceList>,
    /// `style-src-attr`.
    pub style_src_attr: Option<SourceList>,
    /// `default-src`.
    pub default_src: Option<SourceList>,
}

impl View for StylePolicy {
    type V = PolicyModel;

    open spec fn view(&self) -> PolicyModel {
        PolicyModel {
            base_uri: optional_list(self.base_uri),
            style_src_elem: optional_list(self.style_src_elem),
            style_src: optional_list(self.style_src),
            style_src_attr: optional_list(self.style_src_attr),
            default_src: optional_list(self.default_src),
        }
    }
}

/// Policies, in specifications.
pub open spec fn policy_models(policies: Seq<StylePolicy>) -> Seq<PolicyModel> {
    Seq::new(policies.len(), |i: int| policies[i]@)
}

impl StylePolicy {
    /// A policy without source lists.
    pub fn new() -> (policy: Self)
        ensures
            policy@ == PolicyModel::empty(),
    {
        StylePolicy {
            base_uri: None,
            style_src_elem: None,
            style_src: None,
            style_src_attr: None,
            default_src: None,
        }
    }

    /// Whether a directive has a source list.
    pub fn has(&self, directive: RelevantDirective) -> (has: bool)
        ensures
            has == (self@.list(directive) is Some),
    {
        match directive {
            RelevantDirective::BaseUri => self.base_uri.is_some(),
            RelevantDirective::StyleSrcElem => self.style_src_elem.is_some(),
            RelevantDirective::StyleSrc => self.style_src.is_some(),
            RelevantDirective::StyleSrcAttr => self.style_src_attr.is_some(),
            RelevantDirective::DefaultSrc => self.default_src.is_some(),
        }
    }

    /// Gives a directive its source list.
    pub fn set(&mut self, directive: RelevantDirective, sources: SourceList)
        ensures
            final(self)@ == old(self)@.with_list(directive, sources@),
    {
        match directive {
            RelevantDirective::BaseUri => {
                self.base_uri = Some(sources);
            },
            RelevantDirective::StyleSrcElem => {
                self.style_src_elem = Some(sources);
            },
            RelevantDirective::StyleSrc => {
                self.style_src = Some(sources);
            },
            RelevantDirective::StyleSrcAttr => {
                self.style_src_attr = Some(sources);
            },
            RelevantDirective::DefaultSrc => {
                self.default_src = Some(sources);
            },
        }
    }
}

/// Finds the directive that a name stands for, if it governs styles.
pub fn relevant_directive(name: &[u8]) -> (directive: Option<RelevantDirective>)
    ensures
        directive == directive_of(name@),
{
    if eq_ignore_ascii_case(name, "base-uri".as_bytes()) {
        Some(RelevantDirective::BaseUri)
    } else if eq_ignore_ascii_case(name, "style-src-elem".as_bytes()) {
        Some(RelevantDirective::StyleSrcElem)
    } else if eq_ignore_ascii_case(name, "style-src".as_bytes()) {
        Some(RelevantDirective::StyleSrc)
    } else if eq_ignore_ascii_case(name, "style-src-attr".as_bytes()) {
        Some(RelevantDirective::StyleSrcAttr)
    } else if eq_ignore_ascii_case(name, "default-src".as_bytes()) {
        Some(RelevantDirective::DefaultSrc)
    } else {
        None
    }
}

/// Whether a name stands for a recognized directive that does not govern
/// styles.
pub fn is_recognized_neutral_directive(name: &[u8]) -> (neutral: bool)
    ensures
        neutral == is_neutral(name@),
{
    eq_ignore_ascii_case(name, "script-src".as_bytes())
        || eq_ignore_ascii_case(name, "object-src".as_bytes())
        || eq_ignore_ascii_case(name, "img-src".as_bytes())
        || eq_ignore_ascii_case(name, "media-src".as_bytes())
        || eq_ignore_ascii_case(name, "frame-src".as_bytes())
        || eq_ignore_ascii_case(name, "font-src".as_bytes())
        || eq_ignore_ascii_case(name, "connect-src".as_bytes())
        || eq_ignore_ascii_case(name, "report-uri".as_bytes())
        || eq_ignore_ascii_case(name, "frame-ancestors".as_bytes())
        || eq_ignore_ascii_case(name, "form-action".as_bytes())
        || eq_ignore_ascii_case(name, "manifest-src".as_bytes())
        || eq_ignore_ascii_case(name, "upgrade-insecure-requests".as_bytes())
        || eq_ignore_ascii_case(name, "child-src".as_bytes())
        || eq_ignore_ascii_case(name, "block-all-mixed-content".as_bytes())
        || eq_ignore_ascii_case(name, "sandbox".as_bytes())
        || eq_ignore_ascii_case(name, "worker-src".as_bytes())
        || eq_ignore_ascii_case(name, "script-src-elem".as_bytes())
        || eq_ignore_ascii_case(name, "script-src-attr".as_bytes())
        || eq_ignore_ascii_case(name, "require-trusted-types-for".as_bytes())
        || eq_ignore_ascii_case(name, "trusted-types".as_bytes())
        || eq_ignore_ascii_case(name, "report-to".as_bytes())
}

/// Refuses what exceeds its bound.
pub fn enforce_limit(
    input: StylePolicyInput,
    limit: StylePolicyLimit,
    actual: usize,
    maximum: usize,
) -> (result: Result<(), StylePolicyError>)
    ensures
        result == if actual > maximum {
            Err(over(input, limit, actual as nat, maximum))
        } else {
            Ok(())
        },
{
    if actual > maximum {
        Err(StylePolicyError::LimitExceeded { input, limit, actual, maximum })
    } else {
        Ok(())
    }
}

/// Adds without overflow.
pub fn checked_add(current: usize, addition: usize, input: StylePolicyInput) -> (result: Result<
    usize,
    StylePolicyError,
>)
    ensures
        result == if current + addition > usize::MAX {
            Err(StylePolicyError::CounterOverflow { input })
        } else {
            Ok((current + addition) as usize)
        },
{
    match current.checked_add(addition) {
        Some(sum) => Ok(sum),
        None => Err(StylePolicyError::CounterOverflow { input }),
    }
}

/// Reads the policies of one field family.
pub struct StylePolicyParser<'a> {
    input: StylePolicyInput,
    document_scheme: WebScheme,
    hosts: &'a CanonicalHosts,
    policies: Vec<StylePolicy>,
    inspected_policy_members: usize,
    relevant_source_expressions: usize,
    ignored_duplicate_directives: usize,
    unsupported_sources: Vec<UnsupportedStyleSource>,
}

/// What was read.
pub struct ParsedPolicies {
    /// Retained policies.
    pub policies: Vec<StylePolicy>,
    /// Inspected members.
    pub inspected_policy_members: usize,
    /// Inspected source expressions.
    pub relevant_source_expressions: usize,
    /// Ignored duplicate directives.
    pub ignored_duplicate_directives: usize,
    /// Evidence of expressions that cannot match.
    pub unsupported_sources: Vec<UnsupportedStyleSource>,
}

impl View for ParsedPolicies {
    type V = ParserModel;

    open spec fn view(&self) -> ParserModel {
        ParserModel {
            policies: policy_models(self.policies@),
            members: self.inspected_policy_members as nat,
            expressions: self.relevant_source_expressions as nat,
            duplicates: self.ignored_duplicate_directives as nat,
            unsupported: self.unsupported_sources@,
        }
    }
}

/// A policy that is being read.
struct PolicyProgress {
    policy: StylePolicy,
    directives: usize,
    retained: bool,
    work: usize,
}

impl<'a> StylePolicyParser<'a> {
    /// What was read so far, in specifications.
    pub closed spec fn model(self) -> ParserModel {
        ParserModel {
            policies: policy_models(self.policies@),
            members: self.inspected_policy_members as nat,
            expressions: self.relevant_source_expressions as nat,
            duplicates: self.ignored_duplicate_directives as nat,
            unsupported: self.unsupported_sources@,
        }
    }

    /// What policies are read with, in specifications.
    pub closed spec fn reading(self) -> ReadingModel {
        ReadingModel {
            input: self.input,
            document_scheme: self.document_scheme,
            hosts: *self.hosts,
        }
    }

    spec fn progress(self, progress: PolicyProgress) -> PolicyReading {
        PolicyReading {
            parser: self.model(),
            policy: progress.policy@,
            directives: progress.directives as nat,
            retained: progress.retained,
            work: progress.work as nat,
        }
    }

    /// Starts to read, with what other families already used up.
    pub fn new(
        input: StylePolicyInput,
        document_scheme: WebScheme,
        hosts: &'a CanonicalHosts,
        inspected_policy_members: usize,
        relevant_source_expressions: usize,
    ) -> (parser: Self)
        ensures
            parser.reading() == (ReadingModel { input, document_scheme, hosts: *hosts }),
            parser.model() == (ParserModel {
                policies: Seq::empty(),
                members: inspected_policy_members as nat,
                expressions: relevant_source_expressions as nat,
                duplicates: 0,
                unsupported: Seq::empty(),
            }),
    {
        let parser = StylePolicyParser {
            input,
            document_scheme,
            hosts,
            policies: Vec::new(),
            inspected_policy_members,
            relevant_source_expressions,
            ignored_duplicate_directives: 0,
            unsupported_sources: Vec::new(),
        };
        assert(policy_models(parser.policies@) =~= Seq::<PolicyModel>::empty());
        parser
    }

    /// Ends reading.
    pub fn finish(self) -> (parsed: ParsedPolicies)
        ensures
            parsed@ == self.model(),
    {
        ParsedPolicies {
            policies: self.policies,
            inspected_policy_members: self.inspected_policy_members,
            relevant_source_expressions: self.relevant_source_expressions,
            ignored_duplicate_directives: self.ignored_duplicate_directives,
            unsupported_sources: self.unsupported_sources,
        }
    }

    /// Reads one token of a source list.
    fn parse_token(&mut self, token: &[u8], sources: &mut Vec<SourceExpression>, work: usize) -> (result:
        Result<usize, StylePolicyError>)
        requires
            old(self).model().bounded(),
            work <= MAX_STYLE_CSP_POLICY_WORK,
        ensures
            final(self).reading() == old(self).reading(),
            ({
                let before = ListModel {
                    sources: source_models(old(sources)@),
                    expressions: old(self).model().expressions,
                    unsupported: old(self).model().unsupported,
                    work: work as nat,
                };
                match result {
                    Ok(charged) => {
                        &&& before.after(old(self).reading(), token@) == Ok::<_, StylePolicyError>(
                            ListModel {
                                sources: source_models(final(sources)@),
                                expressions: final(self).model().expressions,
                                unsupported: final(self).model().unsupported,
                                work: charged as nat,
                            },
                        )
                        &&& final(self).model() == (ParserModel {
                            expressions: final(self).model().expressions,
                            unsupported: final(self).model().unsupported,
                            ..old(self).model()
                        })
                        &&& final(self).model().bounded()
                        &&& charged <= MAX_STYLE_CSP_POLICY_WORK
                    },
                    Err(error) => before.after(old(self).reading(), token@) == Err::<ListModel, _>(
                        error,
                    ) || (error matches StylePolicyError::AllocationFailed { allocation }
                        && before.stores(old(self).reading(), token@, allocation)),
                }
            }),
    {
        self.relevant_source_expressions = self.relevant_source_expressions + 1;
        match enforce_limit(
            StylePolicyInput::Aggregate,
            StylePolicyLimit::SourceExpressionCount,
            self.relevant_source_expressions,
            MAX_STYLE_CSP_SOURCE_EXPRESSIONS,
        ) {
            Ok(()) => {},
            Err(error) => return Err(error),
        }
        match enforce_limit(
            self.input,
            StylePolicyLimit::SourceTokenBytes,
            token.len(),
            MAX_STYLE_CSP_SOURCE_TOKEN_BYTES,
        ) {
            Ok(()) => {},
            Err(error) => return Err(error),
        }
        let charged: usize = work + token.len() + 1;
        match enforce_limit(
            self.input,
            StylePolicyLimit::PolicyWork,
            charged,
            MAX_STYLE_CSP_POLICY_WORK,
        ) {
            Ok(()) => {},
            Err(error) => return Err(error),
        }
        if eq_ignore_ascii_case(token, "'none'".as_bytes()) {
            return Ok(charged);
        }
        let source = match parse_source_expression(token, self.document_scheme, self.hosts) {
            Some(source) => source,
            None => return Err(
                StylePolicyError::AllocationFailed { allocation: StylePolicyAllocation::Nonce },
            ),
        };
        if let SourceExpression::Unsupported { evidence, .. } = &source {
            if self.unsupported_sources.try_reserve(1).is_err() {
                return Err(
                    StylePolicyError::AllocationFailed {
                        allocation: StylePolicyAllocation::UnsupportedSource,
                    },
                );
            }
            self.unsupported_sources.push(*evidence);
        }
        if sources.try_reserve(1).is_err() {
            return Err(
                StylePolicyError::AllocationFailed {
                    allocation: StylePolicyAllocation::SourceList,
                },
            );
        }
        let ghost before = sources@;
        sources.push(source);
        assert(source_models(sources@) =~= source_models(before).push(source@));
        Ok(charged)
    }

    /// Reads a source list.
    fn parse_source_list(&mut self, value: &[u8], work: usize) -> (result: Result<
        (SourceList, usize),
        StylePolicyError,
    >)
        requires
            old(self).model().bounded(),
            work <= MAX_STYLE_CSP_POLICY_WORK,
        ensures
            final(self).reading() == old(self).reading(),
            ({
                let start = ListModel {
                    sources: Seq::empty(),
                    expressions: old(self).model().expressions,
                    unsupported: old(self).model().unsupported,
                    work: work as nat,
                };
                let read = start.after_all(old(self).reading(), value@, 0);
                match result {
                    Ok((list, charged)) => {
                        &&& read matches Ok(model)
                        &&& list@ == model.complete()
                        &&& charged == model.work
                        &&& final(self).model() == (ParserModel {
                            expressions: model.expressions,
                            unsupported: model.unsupported,
                            ..old(self).model()
                        })
                        &&& final(self).model().bounded()
                        &&& charged <= MAX_STYLE_CSP_POLICY_WORK
                    },
                    Err(error) => read == Err::<ListModel, _>(error) || (error matches
                        StylePolicyError::AllocationFailed { allocation } && start.stores_any(
                        old(self).reading(),
                        value@,
                        0,
                        allocation,
                    )),
                }
            }),
    {
        let ghost reading = self.reading();
        let ghost start_model = ListModel {
            sources: Seq::empty(),
            expressions: self.model().expressions,
            unsupported: self.model().unsupported,
            work: work as nat,
        };
        let ghost read = start_model.after_all(reading, value@, 0);
        let mut sources: Vec<SourceExpression> = Vec::new();
        let mut charged: usize = work;
        let mut from: usize = 0;
        let mut done: bool = false;
        assert(source_models(sources@) =~= Seq::<SourceModel>::empty());
        while !done
            invariant
                from <= value@.len(),
                charged <= MAX_STYLE_CSP_POLICY_WORK,
                self.model().bounded(),
                self.reading() == reading,
                reading == old(self).reading(),
                start_model == (ListModel {
                    sources: Seq::empty(),
                    expressions: old(self).model().expressions,
                    unsupported: old(self).model().unsupported,
                    work: work as nat,
                }),
                read == start_model.after_all(reading, value@, 0),
                self.model() == (ParserModel {
                    expressions: self.model().expressions,
                    unsupported: self.model().unsupported,
                    ..old(self).model()
                }),
                !done ==> read == (ListModel {
                    sources: source_models(sources@),
                    expressions: self.model().expressions,
                    unsupported: self.model().unsupported,
                    work: charged as nat,
                }).after_all(reading, value@, from as int),
                done ==> read == Ok::<_, StylePolicyError>(
                    ListModel {
                        sources: source_models(sources@),
                        expressions: self.model().expressions,
                        unsupported: self.model().unsupported,
                        work: charged as nat,
                    },
                ),
                !done ==> forall|allocation: StylePolicyAllocation|
                    #![trigger start_model.stores_any(reading, value@, 0, allocation)]
                    (ListModel {
                        sources: source_models(sources@),
                        expressions: self.model().expressions,
                        unsupported: self.model().unsupported,
                        work: charged as nat,
                    }).stores_any(reading, value@, from as int, allocation)
                        ==> start_model.stores_any(reading, value@, 0, allocation),
                done && sources@.len() == 0 ==> start_model.stores_any(
                    reading,
                    value@,
                    0,
                    StylePolicyAllocation::SourceList,
                ),
            decreases
                value@.len() - from,
                if done {
                    0int
                } else {
                    1int
                },
        {
            let start: usize = find_outside(value, from, ByteClass::AsciiWhitespace);
            let end: usize = find_in(value, start, ByteClass::AsciiWhitespace);
            proof {
                crate::bytes::first_outside_is_first(
                    value@,
                    from as int,
                    ByteClass::AsciiWhitespace,
                );
                crate::bytes::first_in_is_first(value@, start as int, ByteClass::AsciiWhitespace);
            }
            if start == value.len() {
                done = true;
            } else {
                match self.parse_token(&value[start..end], &mut sources, charged) {
                    Ok(after) => {
                        charged = after;
                        from = end;
                    },
                    Err(error) => return Err(error),
                }
            }
        }
        if sources.len() == 0 {
            if sources.try_reserve(1).is_err() {
                return Err(
                    StylePolicyError::AllocationFailed {
                        allocation: StylePolicyAllocation::SourceList,
                    },
                );
            }
            sources.push(SourceExpression::DenyAll);
            assert(source_models(sources@) =~= seq![SourceModel::DenyAll]);
        }
        Ok((SourceList { sources }, charged))
    }

    /// Reads one directive.
    fn parse_directive(&mut self, serialized: &[u8], progress: PolicyProgress) -> (result: Result<
        PolicyProgress,
        StylePolicyError,
    >)
        requires
            old(self).model().bounded(),
            progress.directives <= MAX_STYLE_CSP_DIRECTIVES_PER_POLICY,
            progress.work <= MAX_STYLE_CSP_POLICY_WORK,
        ensures
            final(self).reading() == old(self).reading(),
            ({
                let read = old(self).progress(progress).after(old(self).reading(), serialized@);
                match result {
                    Ok(next) => {
                        &&& read == Ok::<_, StylePolicyError>(final(self).progress(next))
                        &&& final(self).model().bounded()
                        &&& next.directives <= MAX_STYLE_CSP_DIRECTIVES_PER_POLICY
                        &&& next.work <= MAX_STYLE_CSP_POLICY_WORK
                    },
                    Err(error) => read == Err::<PolicyReading, _>(error) || (error matches
                        StylePolicyError::AllocationFailed { allocation } && old(self).progress(
                        progress,
                    ).stores(old(self).reading(), serialized@, allocation)),
                }
            }),
    {
        if serialized.len() == 0 {
            return Ok(progress);
        }
        let mut progress = progress;
        progress.directives = progress.directives + 1;
        match enforce_limit(
            self.input,
            StylePolicyLimit::DirectiveCount,
            progress.directives,
            MAX_STYLE_CSP_DIRECTIVES_PER_POLICY,
        ) {
            Ok(()) => {},
            Err(error) => return Err(error),
        }
        progress.work = progress.work + 1;
        match enforce_limit(
            self.input,
            StylePolicyLimit::PolicyWork,
            progress.work,
            MAX_STYLE_CSP_POLICY_WORK,
        ) {
            Ok(()) => {},
            Err(error) => return Err(error),
        }
        if !ByteClass::Directive.contains_all(serialized) {
            return Ok(progress);
        }
        let name_end: usize = find_in(serialized, 0, ByteClass::AsciiWhitespace);
        let name: &[u8] = &serialized[0..name_end];
        match relevant_directive(name) {
            None => {
                progress.retained = progress.retained || is_recognized_neutral_directive(name);
            },
            Some(directive) => {
                progress.retained = true;
                if progress.policy.has(directive) {
                    self.ignored_duplicate_directives = match checked_add(
                        self.ignored_duplicate_directives,
                        1,
                        self.input,
                    ) {
                        Ok(count) => count,
                        Err(error) => return Err(error),
                    };
                } else {
                    let value: &[u8] = trim(
                        &serialized[name_end..serialized.len()],
                        ByteClass::AsciiWhitespace,
                    );
                    match self.parse_source_list(value, progress.work) {
                        Ok((list, charged)) => {
                            progress.policy.set(directive, list);
                            progress.work = charged;
                        },
                        Err(error) => return Err(error),
                    }
                }
            },
        }
        Ok(progress)
    }

    /// Reads one member.
    fn parse_policy_member(&mut self, member: &[u8]) -> (result: Result<(), StylePolicyError>)
        requires
            old(self).model().bounded(),
        ensures
            final(self).reading() == old(self).reading(),
            ({
                let read = old(self).model().after(old(self).reading(), member@);
                match result {
                    Ok(_) => read == Ok::<_, StylePolicyError>(final(self).model())
                        && final(self).model().bounded(),
                    Err(error) => read == Err::<ParserModel, _>(error) || (error matches
                        StylePolicyError::AllocationFailed { allocation } && old(
                        self,
                    ).model().stores(old(self).reading(), member@, allocation)),
                }
            }),
    {
        let ghost reading = self.reading();
        self.inspected_policy_members = self.inspected_policy_members + 1;
        match enforce_limit(
            StylePolicyInput::Aggregate,
            StylePolicyLimit::PolicyMemberCount,
            self.inspected_policy_members,
            MAX_STYLE_CSP_POLICY_MEMBERS,
        ) {
            Ok(()) => {},
            Err(error) => return Err(error),
        }
        match enforce_limit(
            self.input,
            StylePolicyLimit::PolicyBytes,
            member.len(),
            MAX_STYLE_CSP_POLICY_BYTES,
        ) {
            Ok(()) => {},
            Err(error) => return Err(error),
        }
        let mut progress = PolicyProgress {
            policy: StylePolicy::new(),
            directives: 0,
            retained: false,
            work: member.len(),
        };
        let ghost first = self.progress(progress);
        let ghost read = first.after_all(reading, member@, 0);
        assert(first == old(self).model().started(member@));
        let mut from: usize = 0;
        let mut done: bool = false;
        while !done
            invariant
                from <= member@.len(),
                self.model().bounded(),
                self.reading() == reading,
                reading == old(self).reading(),
                read is Err ==> old(self).model().after(reading, member@) == Err::<ParserModel, _>(
                    read->Err_0,
                ),
                progress.directives <= MAX_STYLE_CSP_DIRECTIVES_PER_POLICY,
                progress.work <= MAX_STYLE_CSP_POLICY_WORK,
                !done ==> read == self.progress(progress).after_all(reading, member@, from as int),
                done ==> read == Ok::<_, StylePolicyError>(self.progress(progress)),
                !done ==> forall|allocation: StylePolicyAllocation|
                    #![trigger first.stores_any(reading, member@, 0, allocation)]
                    self.progress(progress).stores_any(reading, member@, from as int, allocation)
                        ==> first.stores_any(reading, member@, 0, allocation),
                first == old(self).model().started(member@),
                old(self).model().members < MAX_STYLE_CSP_POLICY_MEMBERS,
                member@.len() <= MAX_STYLE_CSP_POLICY_BYTES,
            decreases
                member@.len() - from,
                if done {
                    0int
                } else {
                    1int
                },
        {
            let end: usize = find_in(member, from, ByteClass::Exactly(SEMICOLON));
            let serialized: &[u8] = trim(&member[from..end], ByteClass::AsciiWhitespace);
            match self.parse_directive(serialized, progress) {
                Ok(next) => {
                    progress = next;
                },
                Err(error) => return Err(error),
            }
            if end == member.len() {
                done = true;
            } else {
                from = end + 1;
            }
        }
        if progress.retained {
            if self.policies.try_reserve(1).is_err() {
                return Err(
                    StylePolicyError::AllocationFailed {
                        allocation: StylePolicyAllocation::Policy,
                    },
                );
            }
            let ghost before = self.policies@;
            self.policies.push(progress.policy);
            assert(policy_models(self.policies@) =~= policy_models(before).push(
                progress.policy@,
            ));
        }
        Ok(())
    }

    /// Reads one field.
    fn parse_field(&mut self, field: &[u8]) -> (result: Result<(), StylePolicyError>)
        requires
            old(self).model().bounded(),
        ensures
            final(self).reading() == old(self).reading(),
            ({
                let read = old(self).model().after_field(old(self).reading(), field@, 0);
                match result {
                    Ok(_) => read == Ok::<_, StylePolicyError>(final(self).model())
                        && final(self).model().bounded(),
                    Err(error) => read == Err::<ParserModel, _>(error) || (error matches
                        StylePolicyError::AllocationFailed { allocation } && old(
                        self,
                    ).model().field_stores(old(self).reading(), field@, 0, allocation)),
                }
            }),
    {
        let ghost reading = self.reading();
        let ghost read = self.model().after_field(reading, field@, 0);
        let mut from: usize = 0;
        let mut done: bool = false;
        while !done
            invariant
                from <= field@.len(),
                self.model().bounded(),
                self.reading() == reading,
                reading == old(self).reading(),
                read == old(self).model().after_field(reading, field@, 0),
                !done ==> read == self.model().after_field(reading, field@, from as int),
                done ==> read == Ok::<_, StylePolicyError>(self.model()),
                !done ==> forall|allocation: StylePolicyAllocation|
                    #![trigger old(self).model().field_stores(reading, field@, 0, allocation)]
                    self.model().field_stores(reading, field@, from as int, allocation) ==> old(
                        self,
                    ).model().field_stores(reading, field@, 0, allocation),
            decreases
                field@.len() - from,
                if done {
                    0int
                } else {
                    1int
                },
        {
            let end: usize = find_in(field, from, ByteClass::Exactly(COMMA));
            let member: &[u8] = trim(&field[from..end], ByteClass::HttpWhitespace);
            let last: bool = end == field.len();
            if !last || member.len() != 0 {
                match self.parse_policy_member(member) {
                    Ok(()) => {},
                    Err(error) => return Err(error),
                }
            }
            if last {
                done = true;
            } else {
                from = end + 1;
            }
        }
        Ok(())
    }

    /// Reads fields. Bounds hold whatever memory there is: it may be missing only
    /// for what is stored before a bound is exceeded.
    pub fn parse_fields(&mut self, fields: &Vec<&[u8]>) -> (result: Result<(), StylePolicyError>)
        requires
            old(self).model().bounded(),
        ensures
            final(self).reading() == old(self).reading(),
            ({
                let strings = crate::headers::byte_strings(fields@);
                let read = old(self).model().after_fields(old(self).reading(), strings, 0);
                match result {
                    Ok(_) => read == Ok::<_, StylePolicyError>(final(self).model())
                        && final(self).model().bounded(),
                    Err(error) => read == Err::<ParserModel, _>(error) || (error matches
                        StylePolicyError::AllocationFailed { allocation } && old(
                        self,
                    ).model().fields_store(old(self).reading(), strings, 0, allocation)),
                }
            }),
    {
        let ghost reading = self.reading();
        let ghost strings = crate::headers::byte_strings(fields@);
        let ghost read = self.model().after_fields(reading, strings, 0);
        let mut at: usize = 0;
        while at < fields.len()
            invariant
                at <= fields@.len(),
                strings == crate::headers::byte_strings(fields@),
                self.model().bounded(),
                self.reading() == reading,
                reading == old(self).reading(),
                read == old(self).model().after_fields(reading, strings, 0),
                read == self.model().after_fields(reading, strings, at as int),
                forall|allocation: StylePolicyAllocation|
                    #![trigger old(self).model().fields_store(reading, strings, 0, allocation)]
                    self.model().fields_store(reading, strings, at as int, allocation) ==> old(
                        self,
                    ).model().fields_store(reading, strings, 0, allocation),
            decreases fields@.len() - at,
        {
            assert(strings[at as int] == fields@[at as int]@);
            match self.parse_field(fields[at]) {
                Ok(()) => {},
                Err(error) => return Err(error),
            }
            at += 1;
        }
        Ok(())
    }
}

} // verus!
