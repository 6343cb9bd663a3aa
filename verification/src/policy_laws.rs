//! What style policies are for: which list governs an operation, what the
//! expressions of a list admit, and how fields are taken apart.

use vstd::prelude::*;

use crate::csp_policy::{PolicyModel, RelevantDirective};
use crate::csp_source::{HostPatternModel, PortPattern, SourceModel};
use crate::style_policy::{PolicySetModel, StylePolicyResource};
use crate::web::{HostModel, OriginModel, WebScheme};

verus! {

/// A policy with one list, under one directive.
pub open spec fn only(directive: RelevantDirective, sources: Seq<SourceModel>) -> PolicyModel {
    PolicyModel {
        base_uri: if directive is BaseUri {
            Some(sources)
        } else {
            None
        },
        style_src_elem: if directive is StyleSrcElem {
            Some(sources)
        } else {
            None
        },
        style_src: if directive is StyleSrc {
            Some(sources)
        } else {
            None
        },
        style_src_attr: if directive is StyleSrcAttr {
            Some(sources)
        } else {
            None
        },
        default_src: if directive is DefaultSrc {
            Some(sources)
        } else {
            None
        },
    }
}

/// Alone, `default-src` governs every style as `style-src` does; so does
/// `style-src-elem` for elements and `style-src-attr` for attributes. Only
/// `base-uri` governs base URLs, and governs nothing else. Where no list
/// governs, everything is admitted.
pub proof fn lists_stand_in_for_each_other(
    sources: Seq<SourceModel>,
    document: OriginModel,
    candidate: Option<OriginModel>,
    nonce: Option<Seq<char>>,
)
    ensures
        ({
            let under = |directive: RelevantDirective, resource: StylePolicyResource|
                only(directive, sources).admits(resource, document, candidate, nonce);
            let external = StylePolicyResource::ExternalStyle;
            let element = StylePolicyResource::InlineStyleElement;
            let attribute = StylePolicyResource::InlineStyleAttribute;
            let base = StylePolicyResource::BaseUri;
            &&& under(RelevantDirective::DefaultSrc, external) == under(
                RelevantDirective::StyleSrc,
                external,
            )
            &&& under(RelevantDirective::DefaultSrc, element) == under(
                RelevantDirective::StyleSrc,
                element,
            )
            &&& under(RelevantDirective::DefaultSrc, attribute) == under(
                RelevantDirective::StyleSrc,
                attribute,
            )
            &&& under(RelevantDirective::StyleSrcElem, external) == under(
                RelevantDirective::StyleSrc,
                external,
            )
            &&& under(RelevantDirective::StyleSrcElem, element) == under(
                RelevantDirective::StyleSrc,
                element,
            )
            &&& under(RelevantDirective::StyleSrcAttr, attribute) == under(
                RelevantDirective::StyleSrc,
                attribute,
            )
            &&& under(RelevantDirective::StyleSrcElem, attribute)
            &&& under(RelevantDirective::StyleSrcAttr, external)
            &&& under(RelevantDirective::StyleSrcAttr, element)
            &&& under(RelevantDirective::BaseUri, external)
            &&& under(RelevantDirective::BaseUri, element)
            &&& under(RelevantDirective::BaseUri, attribute)
            &&& under(RelevantDirective::StyleSrc, base)
            &&& under(RelevantDirective::StyleSrcElem, base)
            &&& under(RelevantDirective::StyleSrcAttr, base)
            &&& under(RelevantDirective::DefaultSrc, base)
        }),
{
}

/// The nearest list decides alone: the list of an element or an attribute makes
/// every other list irrelevant to it, `style-src` makes `default-src` irrelevant,
/// and `base-uri` alone decides on base URLs.
pub proof fn nearest_list_decides(
    policy: PolicyModel,
    document: OriginModel,
    candidate: Option<OriginModel>,
    nonce: Option<Seq<char>>,
)
    ensures
        policy.style_src_elem matches Some(sources) ==> policy.admits(
            StylePolicyResource::ExternalStyle,
            document,
            candidate,
            nonce,
        ) == only(RelevantDirective::StyleSrc, sources).admits(
            StylePolicyResource::ExternalStyle,
            document,
            candidate,
            nonce,
        ) && policy.admits(StylePolicyResource::InlineStyleElement, document, candidate, nonce)
            == only(RelevantDirective::StyleSrc, sources).admits(
            StylePolicyResource::InlineStyleElement,
            document,
            candidate,
            nonce,
        ),
        policy.style_src_attr matches Some(sources) ==> policy.admits(
            StylePolicyResource::InlineStyleAttribute,
            document,
            candidate,
            nonce,
        ) == only(RelevantDirective::StyleSrc, sources).admits(
            StylePolicyResource::InlineStyleAttribute,
            document,
            candidate,
            nonce,
        ),
        policy.style_src matches Some(sources) ==> {
            &&& policy.style_src_elem is None ==> policy.admits(
                StylePolicyResource::ExternalStyle,
                document,
                candidate,
                nonce,
            ) == only(RelevantDirective::DefaultSrc, sources).admits(
                StylePolicyResource::ExternalStyle,
                document,
                candidate,
                nonce,
            ) && policy.admits(
                StylePolicyResource::InlineStyleElement,
                document,
                candidate,
                nonce,
            ) == only(RelevantDirective::DefaultSrc, sources).admits(
                StylePolicyResource::InlineStyleElement,
                document,
                candidate,
                nonce,
            )
            &&& policy.style_src_attr is None ==> policy.admits(
                StylePolicyResource::InlineStyleAttribute,
                document,
                candidate,
                nonce,
            ) == only(RelevantDirective::DefaultSrc, sources).admits(
                StylePolicyResource::InlineStyleAttribute,
                document,
                candidate,
                nonce,
            )
        },
        policy.style_src is None && policy.style_src_elem is None && policy.style_src_attr is None
            ==> (policy.default_src matches Some(sources) ==> forall|
            resource: StylePolicyResource,
        |
            !(resource is BaseUri) ==> #[trigger] policy.admits(
                resource,
                document,
                candidate,
                nonce,
            ) == only(RelevantDirective::StyleSrc, sources).admits(
                resource,
                document,
                candidate,
                nonce,
            )),
        policy.base_uri matches Some(sources) ==> policy.admits(
            StylePolicyResource::BaseUri,
            document,
            candidate,
            nonce,
        ) == only(RelevantDirective::BaseUri, sources).admits(
            StylePolicyResource::BaseUri,
            document,
            candidate,
            nonce,
        ),
        policy.base_uri is None ==> policy.admits(
            StylePolicyResource::BaseUri,
            document,
            candidate,
            nonce,
        ),
{
}

/// What single expressions admit of an external style without a nonce: `'self'`
/// the document's host, on its own port or the upgrade of it and by its own
/// scheme or the upgrade of it; a scheme its targets and their upgrades; `*`
/// every target; a host source its hosts, by its scheme and port in the same
/// way; and everything else none.
pub proof fn expressions_admit_targets(
    source: SourceModel,
    document: OriginModel,
    candidate: OriginModel,
)
    ensures
        ({
            let admitted = only(RelevantDirective::StyleSrc, seq![source]).admits(
                StylePolicyResource::ExternalStyle,
                document,
                Some(candidate),
                None,
            );
            let same_or_upgraded = |scheme: WebScheme, port: u16|
                (candidate.scheme == scheme || candidate.scheme is Https) && (candidate.port == port
                    || (port == 80 && candidate.port == 443));
            match source {
                SourceModel::SelfOrigin => admitted == (document.host == candidate.host
                    && same_or_upgraded(document.scheme, document.port)),
                SourceModel::AnyNetwork => admitted,
                SourceModel::Scheme(WebScheme::Http) => admitted,
                SourceModel::Scheme(WebScheme::Https) => admitted == candidate.scheme is Https,
                SourceModel::Host { scheme, host, port } => {
                    let hosted = match host {
                        HostPatternModel::Any => true,
                        HostPatternModel::Exact(expected) => candidate.host == expected,
                        HostPatternModel::Subdomains(parent) => host.admits(candidate.host),
                    };
                    match port {
                        PortPattern::Any => admitted == (hosted && (candidate.scheme == scheme
                            || candidate.scheme is Https)),
                        PortPattern::Exact(port) => admitted == (hosted && same_or_upgraded(
                            scheme,
                            port,
                        )),
                        PortPattern::Default => admitted == (hosted && same_or_upgraded(
                            scheme,
                            if scheme is Http {
                                80
                            } else {
                                443
                            },
                        )),
                    }
                },
                _ => !admitted,
            }
        }),
{
    let sources = seq![source];
    assert(sources[0] == source);
    if crate::style_policy::url_admitted(sources, document, candidate) {
        let i = choose|i: int|
            0 <= i < sources.len() && (#[trigger] sources[i]).admits_url(document, candidate);
        assert(i == 0);
    } else {
        assert(!sources[0].admits_url(document, candidate));
    }
}

/// A wildcard host admits exactly the names that end in a full stop and its
/// parent with something in front, and no address; so never the parent itself.
pub proof fn wildcards_admit_subdomains(parent: Seq<char>, host: HostModel)
    ensures
        HostPatternModel::Subdomains(parent).admits(host) <==> exists|domain: Seq<char>, front: Seq<
            u8,
        >|
            #![trigger crate::bytes::text(domain), front.push('.' as u8)]
            host == HostModel::Domain(domain) && crate::bytes::text(domain) == front.push(
                '.' as u8,
            ) + crate::bytes::text(parent),
        host is Ip ==> !HostPatternModel::Subdomains(parent).admits(host),
        host == HostModel::Domain(parent) ==> !HostPatternModel::Subdomains(parent).admits(host),
{
    let suffix = crate::bytes::text(parent);
    if let HostModel::Domain(domain) = host {
        let bytes = crate::bytes::text(domain);
        if HostPatternModel::Subdomains(parent).admits(host) {
            let front = bytes.take(bytes.len() - suffix.len() - 1);
            assert(bytes =~= front.push('.' as u8) + suffix);
        }
        if exists|domain: Seq<char>, front: Seq<u8>|
            #![trigger crate::bytes::text(domain), front.push('.' as u8)]
            host == HostModel::Domain(domain) && crate::bytes::text(domain) == front.push(
                '.' as u8,
            ) + suffix {
            let (domain, front) = choose|domain: Seq<char>, front: Seq<u8>|
                #![trigger crate::bytes::text(domain), front.push('.' as u8)]
                host == HostModel::Domain(domain) && crate::bytes::text(domain) == front.push(
                    '.' as u8,
                ) + suffix;
            let start = bytes.len() - suffix.len();
            assert(start == front.len() + 1);
            assert(bytes.subrange(start, bytes.len() as int) =~= suffix);
            assert(bytes[start - 1] == '.' as u8);
        }
    }
}

/// With `default-src 'self'` alone, no style of another host is admitted.
pub proof fn own_origin_excludes_others(document: OriginModel, candidate: OriginModel)
    requires
        candidate.host != document.host,
    ensures
        !only(RelevantDirective::DefaultSrc, seq![SourceModel::SelfOrigin]).admits(
            StylePolicyResource::ExternalStyle,
            document,
            Some(candidate),
            None,
        ),
{
    expressions_admit_targets(SourceModel::SelfOrigin, document, candidate);
    lists_stand_in_for_each_other(
        seq![SourceModel::SelfOrigin],
        document,
        Some(candidate),
        None,
    );
}

/// A list admits a target exactly if one of its expressions does, whatever else
/// it holds and in whatever order; so an empty list admits none.
pub proof fn lists_admit_by_any(
    left: Seq<SourceModel>,
    right: Seq<SourceModel>,
    document: OriginModel,
    candidate: OriginModel,
)
    ensures
        ({
            let under = |sources: Seq<SourceModel>|
                only(RelevantDirective::StyleSrc, sources).admits(
                    StylePolicyResource::ExternalStyle,
                    document,
                    Some(candidate),
                    None,
                );
            &&& under(left + right) == (under(left) || under(right))
            &&& under(left + right) == under(right + left)
            &&& !under(Seq::empty())
        }),
{
    urls_by_any(left, right, document, candidate);
    urls_by_any(right, left, document, candidate);
}

proof fn urls_by_any(
    left: Seq<SourceModel>,
    right: Seq<SourceModel>,
    document: OriginModel,
    candidate: OriginModel,
)
    ensures
        crate::style_policy::url_admitted(left + right, document, candidate) == (
        crate::style_policy::url_admitted(left, document, candidate)
            || crate::style_policy::url_admitted(right, document, candidate)),
{
    let both = left + right;
    if crate::style_policy::url_admitted(both, document, candidate) {
        let i = choose|i: int|
            0 <= i < both.len() && (#[trigger] both[i]).admits_url(document, candidate);
        if i < left.len() {
            assert(left[i].admits_url(document, candidate));
        } else {
            assert(right[i - left.len()].admits_url(document, candidate));
        }
    }
    if crate::style_policy::url_admitted(left, document, candidate) {
        let i = choose|i: int|
            0 <= i < left.len() && (#[trigger] left[i]).admits_url(document, candidate);
        assert(both[i].admits_url(document, candidate));
    }
    if crate::style_policy::url_admitted(right, document, candidate) {
        let i = choose|i: int|
            0 <= i < right.len() && (#[trigger] right[i]).admits_url(document, candidate);
        assert(both[left.len() + i].admits_url(document, candidate));
    }
}

/// A nonce of a list admits elements that carry exactly it, whatever their
/// target, and nothing else: an element without a nonce or with an empty one is
/// not admitted by it, and an attribute or a base URL never is.
pub proof fn nonces_admit_elements(
    sources: Seq<SourceModel>,
    document: OriginModel,
    candidate: OriginModel,
    nonce: Seq<char>,
)
    ensures
        ({
            let policy = only(RelevantDirective::StyleSrc, sources);
            let carried = nonce.len() > 0 && sources.contains(
                SourceModel::Nonce(vstd::utf8::encode_utf8(nonce)),
            );
            let external = StylePolicyResource::ExternalStyle;
            let element = StylePolicyResource::InlineStyleElement;
            let attribute = StylePolicyResource::InlineStyleAttribute;
            &&& policy.admits(external, document, Some(candidate), Some(nonce)) == (carried
                || policy.admits(external, document, Some(candidate), None))
            &&& policy.admits(element, document, None, Some(nonce)) == (carried || policy.admits(
                element,
                document,
                None,
                None,
            ))
            &&& policy.admits(attribute, document, None, Some(nonce)) == policy.admits(
                attribute,
                document,
                None,
                None,
            )
            &&& only(RelevantDirective::BaseUri, sources).admits(
                StylePolicyResource::BaseUri,
                document,
                Some(candidate),
                Some(nonce),
            ) == policy.admits(external, document, Some(candidate), None)
        }),
{
    let wanted = SourceModel::Nonce(vstd::utf8::encode_utf8(nonce));
    if sources.contains(wanted) {
        let i = choose|i: int| 0 <= i < sources.len() && sources[i] == wanted;
        assert(sources[i].admits_nonce(crate::bytes::text(nonce)));
    }
    if crate::style_policy::nonce_admitted(sources, Some(nonce)) {
        let i = choose|i: int|
            0 <= i < sources.len() && (#[trigger] sources[i]).admits_nonce(
                crate::bytes::text(nonce),
            );
        assert(sources[i] == wanted);
    }
}

/// Inline styles are admitted without a nonce exactly if the list holds
/// `'unsafe-inline'` and neither a nonce nor a hash; elements and attributes
/// alike.
pub proof fn unsafe_inline_yields(sources: Seq<SourceModel>, document: OriginModel)
    ensures
        ({
            let policy = only(RelevantDirective::StyleSrc, sources);
            let element = policy.admits(
                StylePolicyResource::InlineStyleElement,
                document,
                None,
                None,
            );
            let attribute = policy.admits(
                StylePolicyResource::InlineStyleAttribute,
                document,
                None,
                None,
            );
            &&& element == attribute
            &&& element ==> sources.contains(SourceModel::UnsafeInline)
            &&& element ==> forall|i: int|
                0 <= i < sources.len() ==> !(#[trigger] sources[i] is Nonce)
            &&& element ==> forall|i: int|
                0 <= i < sources.len() ==> !((#[trigger] sources[i]) matches
                    SourceModel::Unsupported { invalidates_unsafe_inline: true, .. })
            &&& sources.contains(SourceModel::UnsafeInline) && !element ==> exists|i: int|
                0 <= i < sources.len() && ((#[trigger] sources[i]) is Nonce || (sources[i] matches
                    SourceModel::Unsupported { invalidates_unsafe_inline, .. }
                    && invalidates_unsafe_inline))
        }),
{
    if crate::style_policy::inline_admitted(sources) {
        let i = choose|i: int| 0 <= i < sources.len() && #[trigger] sources[i] is UnsafeInline;
        assert(sources[i] == SourceModel::UnsafeInline);
        assert forall|i: int| 0 <= i < sources.len() implies !(#[trigger] sources[i] is Nonce) by {
            assert(!sources[i].disables_inline());
        }
        assert forall|i: int| 0 <= i < sources.len() implies !((#[trigger] sources[i]) matches
            SourceModel::Unsupported { invalidates_unsafe_inline: true, .. }) by {
            assert(!sources[i].disables_inline());
        }
    } else if sources.contains(SourceModel::UnsafeInline) {
        let i = choose|i: int| 0 <= i < sources.len() && sources[i] == SourceModel::UnsafeInline;
        assert(sources[i] is UnsafeInline);
        let j = choose|j: int| 0 <= j < sources.len() && (#[trigger] sources[j]).disables_inline();
        assert(sources[j].disables_inline());
    }
}

/// An operation is allowed exactly if every enforcing policy admits it;
/// report-only policies are counted apart and block nothing.
pub proof fn report_only_blocks_nothing(
    set: PolicySetModel,
    other: Seq<PolicyModel>,
    resource: StylePolicyResource,
    candidate: Option<OriginModel>,
    nonce: Option<Seq<char>>,
    ignored: bool,
)
    requires
        set.enforcing.len() <= u32::MAX,
        set.report_only.len() <= u32::MAX,
    ensures
        ({
            let decision = set.decision(resource, candidate, nonce, ignored);
            &&& decision.resource == resource
            &&& decision.candidate_nonce_ignored_over_limit == ignored
            &&& decision.enforcing_blocked_policies == 0 <==> forall|i: int|
                0 <= i < set.enforcing.len() ==> (#[trigger] set.enforcing[i]).admits(
                    resource,
                    set.document.origin,
                    candidate,
                    nonce,
                )
            &&& decision.report_only_would_block_policies == 0 <==> forall|i: int|
                0 <= i < set.report_only.len() ==> (#[trigger] set.report_only[i]).admits(
                    resource,
                    set.document.origin,
                    candidate,
                    nonce,
                )
            &&& decision.enforcing_blocked_policies == (PolicySetModel {
                report_only: other,
                ..set
            }).decision(resource, candidate, nonce, ignored).enforcing_blocked_policies
        }),
{
    crate::style_policy::allowed_by_all(
        set.enforcing,
        resource,
        set.document.origin,
        candidate,
        nonce,
    );
    crate::style_policy::allowed_by_all(
        set.report_only,
        resource,
        set.document.origin,
        candidate,
        nonce,
    );
    blocking_within(set.enforcing, resource, set.document.origin, candidate, nonce);
    blocking_within(set.report_only, resource, set.document.origin, candidate, nonce);
}

proof fn blocking_within(
    policies: Seq<PolicyModel>,
    resource: StylePolicyResource,
    document: OriginModel,
    candidate: Option<OriginModel>,
    nonce: Option<Seq<char>>,
)
    ensures
        crate::style_policy::blocking(policies, resource, document, candidate, nonce)
            <= policies.len(),
    decreases policies.len(),
{
    if policies.len() > 0 {
        blocking_within(policies.drop_last(), resource, document, candidate, nonce);
    }
}

/// A nonce of more than 1024 bytes is as good as none, and is told.
pub proof fn long_nonces_are_ignored(nonce: Seq<char>)
    ensures
        crate::style_policy::eligible_nonce(Some(nonce)) == if vstd::utf8::encode_utf8(nonce).len()
            > 1024 {
            None
        } else {
            Some(nonce)
        },
        crate::style_policy::nonce_is_over_limit(Some(nonce)) == (vstd::utf8::encode_utf8(
            nonce,
        ).len() > 1024),
        crate::style_policy::eligible_nonce(None) is None,
        !crate::style_policy::nonce_is_over_limit(None),
{
}

} // verus!
