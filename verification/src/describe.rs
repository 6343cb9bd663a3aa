//! What values say of themselves when they are printed for a developer.

use vstd::prelude::*;

use crate::commit::{NavigationAlpn, NavigationConnectionSecurity, NavigationTlsVersion};
use crate::csp_policy::StylePolicyError;
use crate::csp_source::{UnsupportedStyleSource, UnsupportedStyleSourceKind};
use crate::frame::{FrameMetadata, FrameOutputMetadata, PixelSize, Rgba8Metadata};
use crate::identity::{DocumentVersion, NavigationId};
use crate::messages::append_number;
use crate::scene::PresentationSceneMetadata;
use crate::text::ascii_text;
use crate::web::IpAddressSpace;

verus! {

/// What a value that may be absent says.
pub open spec fn optional_debug(value: Option<Seq<char>>) -> Seq<char> {
    match value {
        Some(value) => "Some("@ + value + ")"@,
        None => "None"@,
    }
}

/// Tells a value that may be absent.
pub fn optional_value_text(value: Option<String>) -> (text: String)
    ensures
        text@ == optional_debug(
            match value {
                Some(value) => Some(value@),
                None => None,
            },
        ),
{
    match value {
        Some(value) => {
            let mut text: String = "Some(".to_owned();
            text.append(value.as_str());
            text.append(")");
            text
        },
        None => "None".to_owned(),
    }
}

/// Lower-case hexadecimal digit.
pub open spec fn hex_digit(digit: nat) -> u8 {
    if digit < 10 {
        (0x30 + digit) as u8
    } else {
        (0x57 + digit) as u8
    }
}

/// Lower-case hexadecimal digits of a code below 256, without leading zeros.
pub open spec fn hex_digits(code: nat) -> Seq<u8> {
    if code < 16 {
        seq![hex_digit(code)]
    } else {
        seq![hex_digit(code / 16), hex_digit(code % 16)]
    }
}

/// Whether a character is a control character.
pub open spec fn is_control(character: char) -> bool {
    character as u32 <= 0x1f || 0x7f <= character as u32 <= 0x9f
}

/// What a quoted text shows for a character: itself, unless it is a quote, a
/// backslash or a control character.
pub open spec fn escaped_char(character: char) -> Seq<char> {
    if character == '"' {
        "\\\""@
    } else if character == '\\' {
        "\\\\"@
    } else if character == '\0' {
        "\\0"@
    } else if character == '\t' {
        "\\t"@
    } else if character == '\r' {
        "\\r"@
    } else if character == '\n' {
        "\\n"@
    } else if is_control(character) {
        "\\u{"@ + crate::text::ascii_chars(hex_digits(character as u32 as nat)) + "}"@
    } else {
        seq![character]
    }
}

/// What a quoted text shows for its characters.
pub open spec fn escaped(text: Seq<char>) -> Seq<char>
    decreases text.len(),
{
    if text.len() == 0 {
        Seq::empty()
    } else {
        escaped(text.drop_last()) + escaped_char(text.last())
    }
}

/// A quoted text.
pub open spec fn quoted(text: Seq<char>) -> Seq<char> {
    "\""@ + escaped(text) + "\""@
}

/// Writes a code below 256 in hexadecimal.
fn hex_text(code: u32) -> (text: String)
    requires
        code < 256,
    ensures
        text@ == crate::text::ascii_chars(hex_digits(code as nat)),
{
    let high: u8 = (code / 16) as u8;
    let low: u8 = (code % 16) as u8;
    let mut digits: Vec<u8> = Vec::new();
    if high > 0 {
        digits.push(
            if high < 10 {
                0x30 + high
            } else {
                0x57 + high
            },
        );
    }
    digits.push(
        if low < 10 {
            0x30 + low
        } else {
            0x57 + low
        },
    );
    assert(digits@ =~= hex_digits(code as nat));
    ascii_text(digits.as_slice())
}

/// Tells what a quoted text shows for a character, where that is not the
/// character itself.
fn escape(character: char) -> (text: Option<String>)
    ensures
        match text {
            Some(text) => text@ == escaped_char(character),
            None => escaped_char(character) == seq![character],
        },
{
    let code: u32 = character as u32;
    if character == '"' {
        Some("\\\"".to_owned())
    } else if character == '\\' {
        Some("\\\\".to_owned())
    } else if character == '\0' {
        Some("\\0".to_owned())
    } else if character == '\t' {
        Some("\\t".to_owned())
    } else if character == '\r' {
        Some("\\r".to_owned())
    } else if character == '\n' {
        Some("\\n".to_owned())
    } else if code <= 0x1f || (0x7f <= code && code <= 0x9f) {
        let mut text: String = "\\u{".to_owned();
        text.append(hex_text(code).as_str());
        text.append("}");
        Some(text)
    } else {
        None
    }
}

/// Characters that stand for themselves are shown as they are.
proof fn plain_text_is_kept(text: Seq<char>, from: int, to: int)
    requires
        0 <= from <= to <= text.len(),
        forall|i: int| from <= i < to ==> escaped_char(#[trigger] text[i]) == seq![text[i]],
    ensures
        escaped(text.take(to)) == escaped(text.take(from)) + text.subrange(from, to),
    decreases to - from,
{
    if from < to {
        plain_text_is_kept(text, from, to - 1);
        assert(text.take(to).drop_last() =~= text.take(to - 1));
        assert(escaped_char(text[to - 1]) == seq![text[to - 1]]);
        assert(text.subrange(from, to) =~= text.subrange(from, to - 1) + seq![text[to - 1]]);
    }
    assert(escaped(text.take(to)) =~= escaped(text.take(from)) + text.subrange(from, to));
}

/// Quotes a text.
pub fn quoted_text(text: &str) -> (shown: String)
    ensures
        shown@ == quoted(text@),
{
    let len: usize = text.unicode_len();
    let mut shown: String = "\"".to_owned();
    let mut from: usize = 0;
    let mut at: usize = 0;
    assert(text@.take(0) =~= Seq::<char>::empty());
    assert(shown@ =~= "\""@ + escaped(text@.take(0)));
    for character in characters: text.chars()
        invariant
            characters.seq() == text@,
            at == characters.index(),
            len == text@.len(),
            from <= at <= len,
            shown@ == "\""@ + escaped(text@.take(from as int)),
            forall|i: int|
                from <= i < at ==> escaped_char(#[trigger] text@[i]) == seq![text@[i]],
    {
        assert(character == text@[at as int]);
        if let Some(escape) = escape(character) {
            proof {
                plain_text_is_kept(text@, from as int, at as int);
                assert(text@.take(at + 1).drop_last() =~= text@.take(at as int));
            }
            shown.append(text.substring_char(from, at));
            shown.append(escape.as_str());
            from = at + 1;
            assert(shown@ =~= "\""@ + escaped(text@.take(from as int)));
        }
        at += 1;
    }
    proof {
        plain_text_is_kept(text@, from as int, len as int);
        assert(text@.take(len as int) =~= text@);
    }
    shown.append(text.substring_char(from, len));
    assert(shown@ =~= "\""@ + escaped(text@));
    shown.append("\"");
    shown
}

impl DocumentVersion {
    /// What a document revision says.
    pub open spec fn debug_of(self) -> Seq<char> {
        "DocumentVersion { document_id: "@ + crate::text::decimal_chars(self.document_id as nat)
            + ", revision: "@ + crate::text::decimal_chars(self.revision as nat) + " }"@
    }

    /// Tells the document and its revision.
    pub fn debug_text(self) -> (text: String)
        ensures
            text@ == self.debug_of(),
    {
        let mut text: String = "DocumentVersion { document_id: ".to_owned();
        append_number(&mut text, self.document_id);
        text.append(", revision: ");
        append_number(&mut text, self.revision);
        text.append(" }");
        text
    }
}

/// What a document revision that may be absent says.
pub open spec fn optional_version(version: Option<DocumentVersion>) -> Seq<char> {
    optional_debug(
        match version {
            Some(version) => Some(version.debug_of()),
            None => None,
        },
    )
}

/// Tells a document revision that may be absent.
pub fn optional_version_text(version: Option<DocumentVersion>) -> (text: String)
    ensures
        text@ == optional_version(version),
{
    optional_value_text(
        match version {
            Some(version) => Some(version.debug_text()),
            None => None,
        },
    )
}

impl NavigationId {
    /// What a navigation identity says.
    pub open spec fn debug_of(self) -> Seq<char> {
        "NavigationId { context: TopLevelContextId("@ + crate::text::decimal_chars(
            self.context_of().value() as nat,
        ) + "), generation: NavigationGeneration("@ + crate::text::decimal_chars(
            self.generation_of().value() as nat,
        ) + ") }"@
    }

    /// Tells the context and the generation.
    pub fn debug_text(self) -> (text: String)
        ensures
            text@ == self.debug_of(),
    {
        let mut text: String = "NavigationId { context: TopLevelContextId(".to_owned();
        append_number(&mut text, self.context().get());
        text.append("), generation: NavigationGeneration(");
        append_number(&mut text, self.generation().get());
        text.append(") }");
        text
    }
}

/// What a navigation identity that may be absent says.
pub open spec fn optional_navigation(navigation: Option<NavigationId>) -> Seq<char> {
    optional_debug(
        match navigation {
            Some(navigation) => Some(navigation.debug_of()),
            None => None,
        },
    )
}

/// Tells a navigation identity that may be absent.
pub fn optional_navigation_text(navigation: Option<NavigationId>) -> (text: String)
    ensures
        text@ == optional_navigation(navigation),
{
    optional_value_text(
        match navigation {
            Some(navigation) => Some(navigation.debug_text()),
            None => None,
        },
    )
}

impl NavigationTlsVersion {
    /// Name of the version.
    pub open spec fn name_of(self) -> Seq<char> {
        match self {
            NavigationTlsVersion::Tls12 => "Tls12"@,
            NavigationTlsVersion::Tls13 => "Tls13"@,
        }
    }

    /// Name of the version.
    pub fn name(self) -> (name: &'static str)
        ensures
            name@ == self.name_of(),
    {
        match self {
            NavigationTlsVersion::Tls12 => "Tls12",
            NavigationTlsVersion::Tls13 => "Tls13",
        }
    }
}

impl NavigationAlpn {
    /// Name of the outcome.
    pub open spec fn name_of(self) -> Seq<char> {
        match self {
            NavigationAlpn::Http11 => "Http11"@,
            NavigationAlpn::NotNegotiated => "NotNegotiated"@,
        }
    }

    /// Name of the outcome.
    pub fn name(self) -> (name: &'static str)
        ensures
            name@ == self.name_of(),
    {
        match self {
            NavigationAlpn::Http11 => "Http11",
            NavigationAlpn::NotNegotiated => "NotNegotiated",
        }
    }
}

impl NavigationConnectionSecurity {
    /// What connection evidence says.
    pub open spec fn debug_of(self) -> Seq<char> {
        match self {
            NavigationConnectionSecurity::Unverified => "Unverified"@,
            NavigationConnectionSecurity::Cleartext => "Cleartext"@,
            NavigationConnectionSecurity::AuthenticatedTls { version, alpn } => {
                "AuthenticatedTls { version: "@ + version.name_of() + ", alpn: "@ + alpn.name_of()
                    + " }"@
            },
        }
    }

    /// Tells the connection evidence.
    pub fn debug_text(self) -> (text: String)
        ensures
            text@ == self.debug_of(),
    {
        match self {
            NavigationConnectionSecurity::Unverified => "Unverified".to_owned(),
            NavigationConnectionSecurity::Cleartext => "Cleartext".to_owned(),
            NavigationConnectionSecurity::AuthenticatedTls { version, alpn } => {
                let mut text: String = "AuthenticatedTls { version: ".to_owned();
                text.append(version.name());
                text.append(", alpn: ");
                text.append(alpn.name());
                text.append(" }");
                text
            },
        }
    }
}

impl IpAddressSpace {
    /// What an address space says.
    pub open spec fn debug_of(self) -> Seq<char> {
        "IpAddressSpace { code: "@ + crate::text::decimal_chars(self.code as nat) + " }"@
    }

    /// Tells the code of the address space.
    pub fn debug_text(self) -> (text: String)
        ensures
            text@ == self.debug_of(),
    {
        let mut text: String = "IpAddressSpace { code: ".to_owned();
        append_number(&mut text, self.code as u64);
        text.append(" }");
        text
    }
}

impl PixelSize {
    /// What dimensions say.
    pub open spec fn debug_of(self) -> Seq<char> {
        "PixelSize { width: "@ + crate::text::decimal_chars(self.width_of() as nat) + ", height: "@
            + crate::text::decimal_chars(self.height_of() as nat) + " }"@
    }

    /// Tells width and height.
    pub fn debug_text(self) -> (text: String)
        ensures
            text@ == self.debug_of(),
    {
        let mut text: String = "PixelSize { width: ".to_owned();
        append_number(&mut text, self.width() as u64);
        text.append(", height: ");
        append_number(&mut text, self.height() as u64);
        text.append(" }");
        text
    }
}

impl Rgba8Metadata {
    /// What the layout of pixels says.
    pub open spec fn debug_of(self) -> Seq<char> {
        "Rgba8Metadata { size: "@ + self.size_of().debug_of() + ", stride: "@
            + crate::text::decimal_chars(self.stride_of() as nat) + ", byte_len: "@
            + crate::text::decimal_chars(self.byte_len_of() as nat) + " }"@
    }

    /// Tells size, stride and length.
    pub fn debug_text(self) -> (text: String)
        ensures
            text@ == self.debug_of(),
    {
        let mut text: String = "Rgba8Metadata { size: ".to_owned();
        text.append(self.size().debug_text().as_str());
        text.append(", stride: ");
        append_number(&mut text, self.stride() as u64);
        text.append(", byte_len: ");
        append_number(&mut text, self.byte_len() as u64);
        text.append(" }");
        text
    }
}

impl PresentationSceneMetadata {
    /// What the metadata of a scene says.
    pub open spec fn debug_of(self) -> Seq<char> {
        "PresentationSceneMetadata { revision: PresentationSceneRevision("@
            + crate::text::decimal_chars(self.revision.value() as nat) + "), document_version: "@
            + self.document_version.debug_of() + ", pipeline: PipelineKey { namespace: "@
            + crate::text::decimal_chars(self.pipeline.namespace as nat) + ", index: "@
            + crate::text::decimal_chars(self.pipeline.index as nat) + " }, scene_items: "@
            + crate::text::decimal_chars(self.scene_items as nat) + ", shaped_runs: "@
            + crate::text::decimal_chars(self.shaped_runs as nat) + ", display_list_bytes: "@
            + crate::text::decimal_chars(self.display_list_bytes as nat)
            + ", retained_charge_bytes: "@ + crate::text::decimal_chars(
            self.retained_charge_bytes as nat,
        ) + " }"@
    }

    /// Tells identity, document, pipeline and counts.
    pub fn debug_text(self) -> (text: String)
        ensures
            text@ == self.debug_of(),
    {
        let mut text: String =
            "PresentationSceneMetadata { revision: PresentationSceneRevision(".to_owned();
        append_number(&mut text, self.revision.get());
        text.append("), document_version: ");
        text.append(self.document_version.debug_text().as_str());
        text.append(", pipeline: PipelineKey { namespace: ");
        append_number(&mut text, self.pipeline.namespace as u64);
        text.append(", index: ");
        append_number(&mut text, self.pipeline.index as u64);
        text.append(" }, scene_items: ");
        append_number(&mut text, self.scene_items as u64);
        text.append(", shaped_runs: ");
        append_number(&mut text, self.shaped_runs as u64);
        text.append(", display_list_bytes: ");
        append_number(&mut text, self.display_list_bytes as u64);
        text.append(", retained_charge_bytes: ");
        append_number(&mut text, self.retained_charge_bytes as u64);
        text.append(" }");
        text
    }
}

impl FrameOutputMetadata {
    /// What the metadata of an output says.
    pub open spec fn debug_of(self) -> Seq<char> {
        match self {
            FrameOutputMetadata::Rgba8(metadata) => "Rgba8("@ + metadata.debug_of() + ")"@,
            FrameOutputMetadata::Presentation(metadata) => "Presentation("@ + metadata.debug_of()
                + ")"@,
        }
    }

    /// Tells the kind of output and its metadata.
    pub fn debug_text(self) -> (text: String)
        ensures
            text@ == self.debug_of(),
    {
        match self {
            FrameOutputMetadata::Rgba8(metadata) => {
                let mut text: String = "Rgba8(".to_owned();
                text.append(metadata.debug_text().as_str());
                text.append(")");
                text
            },
            FrameOutputMetadata::Presentation(metadata) => {
                let mut text: String = "Presentation(".to_owned();
                text.append(metadata.debug_text().as_str());
                text.append(")");
                text
            },
        }
    }
}

impl FrameMetadata {
    /// What the metadata of a frame says.
    pub open spec fn debug_of(self) -> Seq<char> {
        "FrameMetadata { output: "@ + self.output.debug_of() + ", document_version: "@
            + optional_version(self.document_version) + " }"@
    }

    /// Tells the output and the document revision.
    pub fn debug_text(self) -> (text: String)
        ensures
            text@ == self.debug_of(),
    {
        let mut text: String = "FrameMetadata { output: ".to_owned();
        text.append(self.output.debug_text().as_str());
        text.append(", document_version: ");
        text.append(optional_version_text(self.document_version).as_str());
        text.append(" }");
        text
    }
}

impl UnsupportedStyleSourceKind {
    /// Name of the reason.
    pub open spec fn name_of(self) -> Seq<char> {
        match self {
            UnsupportedStyleSourceKind::Hash => "Hash"@,
            UnsupportedStyleSourceKind::HostPath => "HostPath"@,
            UnsupportedStyleSourceKind::NonHttpScheme => "NonHttpScheme"@,
            UnsupportedStyleSourceKind::Keyword => "Keyword"@,
            UnsupportedStyleSourceKind::Malformed => "Malformed"@,
        }
    }

    /// Name of the reason.
    pub fn name(self) -> (name: &'static str)
        ensures
            name@ == self.name_of(),
    {
        match self {
            UnsupportedStyleSourceKind::Hash => "Hash",
            UnsupportedStyleSourceKind::HostPath => "HostPath",
            UnsupportedStyleSourceKind::NonHttpScheme => "NonHttpScheme",
            UnsupportedStyleSourceKind::Keyword => "Keyword",
            UnsupportedStyleSourceKind::Malformed => "Malformed",
        }
    }
}

impl UnsupportedStyleSource {
    /// What evidence of an expression says: nothing of the expression.
    pub open spec fn debug_of(self) -> Seq<char> {
        "UnsupportedStyleSource { kind: "@ + self.kind.name_of() + ", byte_len: "@
            + crate::text::decimal_chars(self.byte_len as nat) + " }"@
    }

    /// Tells the reason and the length of the expression.
    pub fn debug_text(self) -> (text: String)
        ensures
            text@ == self.debug_of(),
    {
        let mut text: String = "UnsupportedStyleSource { kind: ".to_owned();
        text.append(self.kind.name());
        text.append(", byte_len: ");
        append_number(&mut text, self.byte_len as u64);
        text.append(" }");
        text
    }
}

/// What evidence says, each piece behind a comma but the first.
pub open spec fn listed_sources(sources: Seq<UnsupportedStyleSource>) -> Seq<char>
    decreases sources.len(),
{
    if sources.len() == 0 {
        Seq::empty()
    } else if sources.len() == 1 {
        sources[0].debug_of()
    } else {
        listed_sources(sources.drop_last()) + ", "@ + sources.last().debug_of()
    }
}

/// What a list of evidence says.
pub open spec fn sources_debug(sources: Seq<UnsupportedStyleSource>) -> Seq<char> {
    "["@ + listed_sources(sources) + "]"@
}

/// Tells a list of evidence.
pub fn sources_text(sources: &[UnsupportedStyleSource]) -> (text: String)
    ensures
        text@ == sources_debug(sources@),
{
    let mut text: String = "[".to_owned();
    let mut at: usize = 0;
    assert(sources@.take(0) =~= Seq::<UnsupportedStyleSource>::empty());
    assert(text@ =~= "["@ + listed_sources(sources@.take(0)));
    while at < sources.len()
        invariant
            at <= sources@.len(),
            text@ == "["@ + listed_sources(sources@.take(at as int)),
        decreases sources@.len() - at,
    {
        let ghost listed = sources@.take(at + 1);
        assert(listed.drop_last() =~= sources@.take(at as int));
        assert(listed.last() == sources@[at as int]);
        if at > 0 {
            text.append(", ");
        }
        text.append(sources[at].debug_text().as_str());
        assert(text@ =~= "["@ + listed_sources(listed));
        at += 1;
    }
    assert(sources@.take(at as int) =~= sources@);
    text.append("]");
    text
}

impl StylePolicyError {
    /// What a failure says to a developer.
    pub open spec fn debug_of(self) -> Seq<char> {
        match self {
            StylePolicyError::InvalidDocumentCommit => "InvalidDocumentCommit"@,
            StylePolicyError::InvalidCandidateUrl => "InvalidCandidateUrl"@,
            StylePolicyError::NonCanonicalCandidateUrl => "NonCanonicalCandidateUrl"@,
            StylePolicyError::LimitExceeded { input, limit, actual, maximum } => {
                "LimitExceeded { input: "@ + input.name_of() + ", limit: "@ + limit.name_of()
                    + ", actual: "@ + crate::text::decimal_chars(actual as nat) + ", maximum: "@
                    + crate::text::decimal_chars(maximum as nat) + " }"@
            },
            StylePolicyError::CounterOverflow { input } => "CounterOverflow { input: "@
                + input.name_of() + " }"@,
            StylePolicyError::AllocationFailed { allocation } => "AllocationFailed { allocation: "@
                + allocation.name_of() + " }"@,
        }
    }

    /// Tells the failure and its parts.
    pub fn debug_text(self) -> (text: String)
        ensures
            text@ == self.debug_of(),
    {
        match self {
            StylePolicyError::InvalidDocumentCommit => "InvalidDocumentCommit".to_owned(),
            StylePolicyError::InvalidCandidateUrl => "InvalidCandidateUrl".to_owned(),
            StylePolicyError::NonCanonicalCandidateUrl => "NonCanonicalCandidateUrl".to_owned(),
            StylePolicyError::LimitExceeded { input, limit, actual, maximum } => {
                let mut text: String = "LimitExceeded { input: ".to_owned();
                text.append(input.name());
                text.append(", limit: ");
                text.append(limit.name());
                text.append(", actual: ");
                append_number(&mut text, actual as u64);
                text.append(", maximum: ");
                append_number(&mut text, maximum as u64);
                text.append(" }");
                text
            },
            StylePolicyError::CounterOverflow { input } => {
                let mut text: String = "CounterOverflow { input: ".to_owned();
                text.append(input.name());
                text.append(" }");
                text
            },
            StylePolicyError::AllocationFailed { allocation } => {
                let mut text: String = "AllocationFailed { allocation: ".to_owned();
                text.append(allocation.name());
                text.append(" }");
                text
            },
        }
    }
}

} // verus!
