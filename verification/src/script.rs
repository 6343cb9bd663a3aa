//! Bounded, exact-version DOM mutation batches as the worker admits them.

use std::collections::BTreeSet;
use vstd::prelude::*;

use crate::collections::pair_set_insert;
use crate::identity::{DocumentVersion, NodeId};
use crate::text::byte_len;

verus! {

/// Dense batch-local name of a node that the batch creates.
#[derive(Clone, Copy, Debug, PartialEq, Eq, Structural)]
pub struct CreatedNodeToken {
    /// Position among the nodes that the batch creates.
    pub index: u32,
}

/// A node that a command refers to.
#[derive(Clone, Copy, Debug, PartialEq, Eq, Structural)]
pub enum ScriptNode {
    /// A node of the document before the batch.
    Existing(NodeId),
    /// A node that the batch creates.
    Created(CreatedNodeToken),
}

/// One command of a batch.
#[derive(Clone, Debug, PartialEq, Eq)]
pub enum ScriptMutationCommand {
    /// Creates an element.
    CreateHtmlElement {
        /// Name of the new node.
        token: CreatedNodeToken,
        /// Local name of the element.
        local_name: String,
    },
    /// Creates a text node.
    CreateText {
        /// Name of the new node.
        token: CreatedNodeToken,
        /// Text of the node.
        data: String,
    },
    /// Appends a child.
    AppendChild {
        /// Node that gains the child.
        parent: ScriptNode,
        /// Node that moves.
        child: ScriptNode,
    },
    /// Inserts a child before a reference, or last.
    InsertBefore {
        /// Node that gains the child.
        parent: ScriptNode,
        /// Node that moves.
        child: ScriptNode,
        /// Sibling that follows the child, if any.
        reference: Option<ScriptNode>,
    },
    /// Removes a child.
    RemoveChild {
        /// Node that loses the child.
        parent: ScriptNode,
        /// Node that is removed.
        child: ScriptNode,
    },
    /// Sets an attribute.
    SetHtmlAttribute {
        /// Element that owns the attribute.
        element: ScriptNode,
        /// Attribute name.
        local_name: String,
        /// Attribute value.
        value: String,
    },
    /// Removes an attribute.
    RemoveHtmlAttribute {
        /// Element that owns the attribute.
        element: ScriptNode,
        /// Attribute name.
        local_name: String,
    },
    /// Replaces the text of a node.
    SetCharacterData {
        /// Node whose text is replaced.
        node: ScriptNode,
        /// New text.
        data: String,
    },
}

impl ScriptMutationCommand {
    /// Whether the command creates a node.
    pub open spec fn creates(self) -> bool {
        self is CreateHtmlElement || self is CreateText
    }

    /// Byte lengths of the command's texts, in accounting order.
    pub open spec fn text_lengths(self) -> Seq<nat> {
        match self {
            ScriptMutationCommand::CreateHtmlElement { local_name, .. } => seq![
                crate::text::utf8_len(local_name@),
            ],
            ScriptMutationCommand::CreateText { data, .. } => seq![
                crate::text::utf8_len(data@),
            ],
            ScriptMutationCommand::SetHtmlAttribute { local_name, value, .. } => seq![
                crate::text::utf8_len(local_name@),
                crate::text::utf8_len(value@),
            ],
            ScriptMutationCommand::RemoveHtmlAttribute { local_name, .. } => seq![
                crate::text::utf8_len(local_name@),
            ],
            ScriptMutationCommand::SetCharacterData { data, .. } => seq![
                crate::text::utf8_len(data@),
            ],
            _ => seq![],
        }
    }

    /// Whether every node that the command refers to exists once `created`
    /// nodes of the batch were created, and a created node continues the dense
    /// numbering.
    pub open spec fn refers_to_available(self, document: u64, created: int) -> bool {
        match self {
            ScriptMutationCommand::CreateHtmlElement { token, .. } => token.index == created,
            ScriptMutationCommand::CreateText { token, .. } => token.index == created,
            ScriptMutationCommand::AppendChild { parent, child } => parent.available(
                document,
                created,
            ) && child.available(document, created),
            ScriptMutationCommand::RemoveChild { parent, child } => parent.available(
                document,
                created,
            ) && child.available(document, created),
            ScriptMutationCommand::InsertBefore { parent, child, reference } => {
                &&& parent.available(document, created)
                &&& child.available(document, created)
                &&& reference matches Some(node) ==> node.available(document, created)
            },
            ScriptMutationCommand::SetHtmlAttribute { element, .. } => element.available(
                document,
                created,
            ),
            ScriptMutationCommand::RemoveHtmlAttribute { element, .. } => element.available(
                document,
                created,
            ),
            ScriptMutationCommand::SetCharacterData { node, .. } => node.available(
                document,
                created,
            ),
        }
    }
}

impl ScriptNode {
    /// Whether the node exists once `created` nodes of the batch were created.
    pub open spec fn available(self, document: u64, created: int) -> bool {
        match self {
            ScriptNode::Existing(node) => node.document_id == document,
            ScriptNode::Created(token) => token.index < created,
        }
    }
}

/// An engine-neutral, exact-version mutation batch.
#[derive(Clone, Debug, PartialEq, Eq)]
pub struct ScriptMutationBatch {
    /// Live version that the batch applies to.
    pub expected_version: DocumentVersion,
    /// Commands in order.
    pub commands: Vec<ScriptMutationCommand>,
}

/// Number of nodes that the commands create.
pub open spec fn created_count(commands: Seq<ScriptMutationCommand>) -> nat
    decreases commands.len(),
{
    if commands.len() == 0 {
        0
    } else {
        created_count(commands.drop_last()) + if commands.last().creates() {
            1nat
        } else {
            0
        }
    }
}

/// Byte lengths of all texts of the commands, in accounting order.
pub open spec fn text_lengths(commands: Seq<ScriptMutationCommand>) -> Seq<nat>
    decreases commands.len(),
{
    if commands.len() == 0 {
        seq![]
    } else {
        text_lengths(commands.drop_last()) + commands.last().text_lengths()
    }
}

/// Sum of lengths.
pub open spec fn total(lengths: Seq<nat>) -> nat
    decreases lengths.len(),
{
    if lengths.len() == 0 {
        0
    } else {
        total(lengths.drop_last()) + lengths.last()
    }
}

/// Every command refers only to nodes that exist when it runs, and created
/// nodes are numbered densely, up to `maximum` of them.
pub open spec fn valid_topology(batch: ScriptMutationBatch, maximum: usize) -> bool {
    &&& forall|i: int|
        0 <= i < batch.commands@.len() ==> (#[trigger] batch.commands@[i]).refers_to_available(
            batch.expected_version.document_id,
            created_count(batch.commands@.take(i)) as int,
        )
    &&& created_count(batch.commands@) <= maximum
}

/// Resource dimension of a batch.
#[derive(Clone, Copy, Debug, PartialEq, Eq, Structural)]
pub enum ScriptMutationLimitKind {
    /// Number of commands.
    Commands,
    /// Number of created nodes.
    CreatedNodes,
    /// Bytes of one text.
    StringBytes,
    /// Bytes of all texts together.
    TotalStringBytes,
}

/// Process hard caps of the mutation owner.
#[derive(Clone, Copy, Debug, PartialEq, Eq, Structural)]
pub struct ScriptMutationLimits {
    /// Greatest number of commands.
    pub max_commands: usize,
    /// Greatest number of created nodes.
    pub max_created_nodes: usize,
    /// Greatest number of bytes in one text.
    pub max_string_bytes: usize,
    /// Greatest number of bytes in all texts together.
    pub max_total_string_bytes: usize,
}

/// One exceeded hard cap, or a payload whose size cannot be represented.
#[derive(Clone, Copy, Debug, PartialEq, Eq, Structural)]
pub enum PayloadError {
    /// A hard cap was exceeded.
    Limit {
        /// Rejected resource dimension.
        kind: ScriptMutationLimitKind,
        /// Fixed process maximum.
        maximum: usize,
        /// Supplied amount.
        actual: usize,
    },
    /// The payload size cannot be represented.
    Unrepresentable,
}

/// First text that breaks a cap on its own, or makes the running total
/// unrepresentable.
pub open spec fn text_error(lengths: Seq<nat>, limits: ScriptMutationLimits) -> Option<PayloadError>
    decreases lengths.len(),
{
    if lengths.len() == 0 {
        None
    } else if let Some(error) = text_error(lengths.drop_last(), limits) {
        Some(error)
    } else if lengths.last() > limits.max_string_bytes {
        Some(
            PayloadError::Limit {
                kind: ScriptMutationLimitKind::StringBytes,
                maximum: limits.max_string_bytes,
                actual: lengths.last() as usize,
            },
        )
    } else if total(lengths) > usize::MAX {
        Some(
            PayloadError::Limit {
                kind: ScriptMutationLimitKind::TotalStringBytes,
                maximum: limits.max_total_string_bytes,
                actual: usize::MAX,
            },
        )
    } else {
        None
    }
}

/// Why a batch whose commands occupy `command_bytes` bytes is refused.
pub open spec fn payload_error(
    commands: Seq<ScriptMutationCommand>,
    command_bytes: usize,
    limits: ScriptMutationLimits,
) -> Option<PayloadError> {
    let lengths = text_lengths(commands);
    if commands.len() > limits.max_commands {
        Some(
            PayloadError::Limit {
                kind: ScriptMutationLimitKind::Commands,
                maximum: limits.max_commands,
                actual: commands.len() as usize,
            },
        )
    } else if let Some(error) = text_error(lengths, limits) {
        Some(error)
    } else if created_count(commands) > limits.max_created_nodes {
        Some(
            PayloadError::Limit {
                kind: ScriptMutationLimitKind::CreatedNodes,
                maximum: limits.max_created_nodes,
                actual: created_count(commands) as usize,
            },
        )
    } else if total(lengths) > limits.max_total_string_bytes {
        Some(
            PayloadError::Limit {
                kind: ScriptMutationLimitKind::TotalStringBytes,
                maximum: limits.max_total_string_bytes,
                actual: total(lengths) as usize,
            },
        )
    } else if command_bytes + total(lengths) > usize::MAX {
        Some(PayloadError::Unrepresentable)
    } else {
        None
    }
}

/// What an admitted batch is charged with.
#[derive(Clone, Copy, Debug, PartialEq, Eq, Structural)]
pub struct MutationPayloadReservation {
    /// Nodes that the batch creates.
    pub created_nodes: usize,
    /// Bytes of its commands and texts.
    pub payload_bytes: usize,
}

/// A batch creates at most one node per command.
pub proof fn created_count_is_bounded(commands: Seq<ScriptMutationCommand>)
    ensures
        created_count(commands) <= commands.len(),
    decreases commands.len(),
{
    if commands.len() > 0 {
        created_count_is_bounded(commands.drop_last());
    }
}

proof fn text_error_of_prefix(prefix: Seq<nat>, rest: Seq<nat>, limits: ScriptMutationLimits)
    requires
        text_error(prefix, limits) is Some,
    ensures
        text_error(prefix + rest, limits) == text_error(prefix, limits),
    decreases rest.len(),
{
    if rest.len() == 0 {
        assert(prefix + rest =~= prefix);
    } else {
        text_error_of_prefix(prefix, rest.drop_last(), limits);
        assert((prefix + rest).drop_last() =~= prefix + rest.drop_last());
    }
}

proof fn accounting_step(accounted: Seq<nat>, length: nat, limits: ScriptMutationLimits)
    requires
        text_error(accounted, limits) is None,
    ensures
        total(accounted.push(length)) == total(accounted) + length,
        text_error(accounted.push(length), limits) == if length > limits.max_string_bytes {
            Some(
                PayloadError::Limit {
                    kind: ScriptMutationLimitKind::StringBytes,
                    maximum: limits.max_string_bytes,
                    actual: length as usize,
                },
            )
        } else if total(accounted) + length > usize::MAX {
            Some(
                PayloadError::Limit {
                    kind: ScriptMutationLimitKind::TotalStringBytes,
                    maximum: limits.max_total_string_bytes,
                    actual: usize::MAX,
                },
            )
        } else {
            None
        },
{
    assert(accounted.push(length).drop_last() =~= accounted);
}

proof fn lengths_of_prefix(commands: Seq<ScriptMutationCommand>, count: int)
    requires
        0 <= count <= commands.len(),
    ensures
        exists|rest: Seq<nat>|
            text_lengths(commands) == #[trigger] (text_lengths(commands.take(count)) + rest),
    decreases commands.len() - count,
{
    if count == commands.len() {
        assert(commands.take(count) =~= commands);
        assert(text_lengths(commands) =~= text_lengths(commands.take(count)) + Seq::<nat>::empty());
    } else {
        lengths_of_prefix(commands, count + 1);
        let rest = choose|rest: Seq<nat>|
            text_lengths(commands) == #[trigger] (text_lengths(commands.take(count + 1)) + rest);
        assert(commands.take(count + 1).drop_last() =~= commands.take(count));
        assert(text_lengths(commands) =~= text_lengths(commands.take(count)) + (
        commands[count].text_lengths() + rest));
    }
}

/// Adds one text to the running total.
pub fn account_mutation_string(
    value: &str,
    total_string_bytes: &mut usize,
    limits: &ScriptMutationLimits,
) -> (result: Result<(), PayloadError>)
    ensures
        if crate::text::utf8_len(value@) > limits.max_string_bytes {
            result == Err::<(), _>(
                PayloadError::Limit {
                    kind: ScriptMutationLimitKind::StringBytes,
                    maximum: limits.max_string_bytes,
                    actual: crate::text::utf8_len(value@) as usize,
                },
            ) && *final(total_string_bytes) == *old(total_string_bytes)
        } else if *old(total_string_bytes) + crate::text::utf8_len(value@) > usize::MAX {
            result == Err::<(), _>(
                PayloadError::Limit {
                    kind: ScriptMutationLimitKind::TotalStringBytes,
                    maximum: limits.max_total_string_bytes,
                    actual: usize::MAX,
                },
            ) && *final(total_string_bytes) == *old(total_string_bytes)
        } else {
            result == Ok::<(), PayloadError>(()) && *final(total_string_bytes) == *old(
                total_string_bytes,
            ) + crate::text::utf8_len(value@)
        },
{
    let len: usize = byte_len(value);
    if len > limits.max_string_bytes {
        return Err(
            PayloadError::Limit {
                kind: ScriptMutationLimitKind::StringBytes,
                maximum: limits.max_string_bytes,
                actual: len,
            },
        );
    }
    match total_string_bytes.checked_add(len) {
        Some(sum) => {
            *total_string_bytes = sum;
            Ok(())
        },
        None => Err(
            PayloadError::Limit {
                kind: ScriptMutationLimitKind::TotalStringBytes,
                maximum: limits.max_total_string_bytes,
                actual: usize::MAX,
            },
        ),
    }
}

/// Adds the texts of one command to the running total `accounted`.
fn account_command(
    command: &ScriptMutationCommand,
    total_string_bytes: &mut usize,
    limits: &ScriptMutationLimits,
    accounted: Ghost<Seq<nat>>,
) -> (result: Result<(), PayloadError>)
    requires
        text_error(accounted@, *limits) is None,
        *old(total_string_bytes) == total(accounted@),
    ensures
        result == match text_error(accounted@ + command.text_lengths(), *limits) {
            Some(error) => Err(error),
            None => Ok(()),
        },
        result is Ok ==> *final(total_string_bytes) == total(accounted@ + command.text_lengths()),
{
    let ghost lengths = command.text_lengths();
    match command {
        ScriptMutationCommand::SetHtmlAttribute { local_name, value, .. } => {
            let ghost first = accounted@.push(lengths[0]);
            proof {
                accounting_step(accounted@, lengths[0], *limits);
                assert(accounted@ + lengths =~= first.push(lengths[1]));
                if text_error(first, *limits) is Some {
                    text_error_of_prefix(first, seq![lengths[1]], *limits);
                    assert(first + seq![lengths[1]] =~= accounted@ + lengths);
                } else {
                    accounting_step(first, lengths[1], *limits);
                }
            }
            match account_mutation_string(local_name.as_str(), total_string_bytes, limits) {
                Ok(()) => {},
                Err(error) => return Err(error),
            }
            account_mutation_string(value.as_str(), total_string_bytes, limits)
        },
        ScriptMutationCommand::CreateHtmlElement { local_name, .. } => {
            proof {
                assert((accounted@ + lengths).drop_last() =~= accounted@);
            }
            account_mutation_string(local_name.as_str(), total_string_bytes, limits)
        },
        ScriptMutationCommand::CreateText { data, .. } => {
            proof {
                assert((accounted@ + lengths).drop_last() =~= accounted@);
            }
            account_mutation_string(data.as_str(), total_string_bytes, limits)
        },
        ScriptMutationCommand::RemoveHtmlAttribute { local_name, .. } => {
            proof {
                assert((accounted@ + lengths).drop_last() =~= accounted@);
            }
            account_mutation_string(local_name.as_str(), total_string_bytes, limits)
        },
        ScriptMutationCommand::SetCharacterData { data, .. } => {
            proof {
                assert((accounted@ + lengths).drop_last() =~= accounted@);
            }
            account_mutation_string(data.as_str(), total_string_bytes, limits)
        },
        ScriptMutationCommand::AppendChild { .. }
        | ScriptMutationCommand::InsertBefore { .. }
        | ScriptMutationCommand::RemoveChild { .. } => {
            proof {
                assert(accounted@ + lengths =~= accounted@);
            }
            Ok(())
        },
    }
}

/// Charges a batch against the process hard caps; `command_bytes` is what its
/// commands occupy without their texts.
pub fn validate_mutation_payload(
    batch: &ScriptMutationBatch,
    command_bytes: usize,
    limits: &ScriptMutationLimits,
) -> (result: Result<MutationPayloadReservation, PayloadError>)
    ensures
        result == match payload_error(batch.commands@, command_bytes, *limits) {
            Some(error) => Err(error),
            None => Ok(
                MutationPayloadReservation {
                    created_nodes: created_count(batch.commands@) as usize,
                    payload_bytes: (command_bytes + total(text_lengths(batch.commands@))) as usize,
                },
            ),
        },
{
    let ghost commands = batch.commands@;
    if batch.commands.len() > limits.max_commands {
        return Err(
            PayloadError::Limit {
                kind: ScriptMutationLimitKind::Commands,
                maximum: limits.max_commands,
                actual: batch.commands.len(),
            },
        );
    }
    let mut created_nodes: usize = 0;
    let mut total_string_bytes: usize = 0;
    let mut index: usize = 0;
    while index < batch.commands.len()
        invariant
            commands == batch.commands@,
            commands.len() <= limits.max_commands,
            index <= commands.len(),
            created_nodes == created_count(commands.take(index as int)),
            total_string_bytes == total(text_lengths(commands.take(index as int))),
            text_error(text_lengths(commands.take(index as int)), *limits) is None,
        decreases commands.len() - index,
    {
        let ghost before = commands.take(index as int);
        proof {
            created_count_is_bounded(before);
            assert(commands.take(index + 1).drop_last() =~= before);
        }
        let command = &batch.commands[index];
        match command {
            ScriptMutationCommand::CreateHtmlElement { .. }
            | ScriptMutationCommand::CreateText { .. } => {
                created_nodes = created_nodes + 1;
            },
            _ => {},
        }
        match account_command(
            command,
            &mut total_string_bytes,
            limits,
            Ghost(text_lengths(before)),
        ) {
            Ok(()) => {},
            Err(error) => {
                proof {
                    lengths_of_prefix(commands, index + 1);
                    let prefix = text_lengths(commands.take(index + 1));
                    let rest = choose|rest: Seq<nat>|
                        text_lengths(commands) == #[trigger] (prefix + rest);
                    text_error_of_prefix(prefix, rest, *limits);
                }
                return Err(error);
            },
        }
        index = index + 1;
    }
    proof {
        assert(commands.take(index as int) =~= commands);
    }
    if created_nodes > limits.max_created_nodes {
        return Err(
            PayloadError::Limit {
                kind: ScriptMutationLimitKind::CreatedNodes,
                maximum: limits.max_created_nodes,
                actual: created_nodes,
            },
        );
    }
    if total_string_bytes > limits.max_total_string_bytes {
        return Err(
            PayloadError::Limit {
                kind: ScriptMutationLimitKind::TotalStringBytes,
                maximum: limits.max_total_string_bytes,
                actual: total_string_bytes,
            },
        );
    }
    match command_bytes.checked_add(total_string_bytes) {
        Some(payload_bytes) => Ok(MutationPayloadReservation { created_nodes, payload_bytes }),
        None => Err(PayloadError::Unrepresentable),
    }
}

/// Whether a node exists once `created_nodes` nodes of the batch were created.
pub fn script_node_is_available(node: ScriptNode, document: u64, created_nodes: usize) -> (available:
    bool)
    ensures
        available == node.available(document, created_nodes as int),
{
    match node {
        ScriptNode::Existing(node) => node.document_id == document,
        ScriptNode::Created(token) => (token.index as usize) < created_nodes,
    }
}

/// Whether one command refers only to available nodes.
fn command_is_available(command: &ScriptMutationCommand, document: u64, created_nodes: usize) -> (valid:
    bool)
    ensures
        valid == command.refers_to_available(document, created_nodes as int),
{
    match command {
        ScriptMutationCommand::CreateHtmlElement { token, .. }
        | ScriptMutationCommand::CreateText { token, .. } => token.index as usize == created_nodes,
        ScriptMutationCommand::AppendChild { parent, child }
        | ScriptMutationCommand::RemoveChild { parent, child } => {
            script_node_is_available(*parent, document, created_nodes)
                && script_node_is_available(*child, document, created_nodes)
        },
        ScriptMutationCommand::InsertBefore { parent, child, reference } => {
            script_node_is_available(*parent, document, created_nodes) && script_node_is_available(
                *child,
                document,
                created_nodes,
            ) && match reference {
                Some(node) => script_node_is_available(*node, document, created_nodes),
                None => true,
            }
        },
        ScriptMutationCommand::SetHtmlAttribute { element, .. }
        | ScriptMutationCommand::RemoveHtmlAttribute { element, .. } => {
            script_node_is_available(*element, document, created_nodes)
        },
        ScriptMutationCommand::SetCharacterData { node, .. } => {
            script_node_is_available(*node, document, created_nodes)
        },
    }
}

/// Whether every command refers only to nodes that exist when it runs, and the
/// batch creates at most `maximum` densely numbered nodes.
#[verifier::spinoff_prover]
#[verifier::rlimit(60)]
pub fn mutation_batch_has_valid_node_topology(batch: &ScriptMutationBatch, maximum: usize) -> (valid:
    bool)
    ensures
        valid == valid_topology(*batch, maximum),
{
    let ghost commands = batch.commands@;
    let document: u64 = batch.expected_version.document_id;
    let mut created_nodes: usize = 0;
    let mut index: usize = 0;
    while index < batch.commands.len()
        invariant
            commands == batch.commands@,
            document == batch.expected_version.document_id,
            index <= commands.len(),
            created_nodes == created_count(commands.take(index as int)),
            forall|i: int|
                0 <= i < index ==> (#[trigger] commands[i]).refers_to_available(
                    document,
                    created_count(commands.take(i)) as int,
                ),
        decreases commands.len() - index,
    {
        proof {
            created_count_is_bounded(commands.take(index as int));
            assert(commands.take(index + 1).drop_last() =~= commands.take(index as int));
        }
        let command = &batch.commands[index];
        if !command_is_available(command, document, created_nodes) {
            assert(!commands[index as int].refers_to_available(
                document,
                created_count(commands.take(index as int)) as int,
            ));
            return false;
        }
        match command {
            ScriptMutationCommand::CreateHtmlElement { .. }
            | ScriptMutationCommand::CreateText { .. } => {
                created_nodes = created_nodes + 1;
            },
            _ => {},
        }
        index = index + 1;
    }
    proof {
        assert(commands.take(index as int) =~= commands);
    }
    created_nodes <= maximum
}

/// Whether no node occurs twice.
pub fn created_nodes_are_distinct(created_nodes: &[NodeId]) -> (distinct: bool)
    ensures
        distinct == created_nodes@.no_duplicates(),
{
    let mut unique: BTreeSet<(u64, u64)> = BTreeSet::new();
    let mut index: usize = 0;
    while index < created_nodes.len()
        invariant
            index <= created_nodes@.len(),
            created_nodes@.take(index as int).no_duplicates(),
            forall|document: u64, node: u64|
                unique@.contains((document, node)) <==> exists|i: int|
                    0 <= i < index && #[trigger] created_nodes@[i] == (NodeId {
                        document_id: document,
                        index: node,
                    }),
        decreases created_nodes@.len() - index,
    {
        let node = created_nodes[index];
        if !pair_set_insert(&mut unique, (node.document_id, node.index)) {
            proof {
                let earlier = choose|i: int|
                    0 <= i < index && #[trigger] created_nodes@[i] == (NodeId {
                        document_id: node.document_id,
                        index: node.index,
                    });
                assert(created_nodes@[earlier] == created_nodes@[index as int]);
            }
            return false;
        }
        proof {
            assert forall|document: u64, other: u64|
                unique@.contains((document, other)) <==> exists|i: int|
                    0 <= i < index + 1 && #[trigger] created_nodes@[i] == (NodeId {
                        document_id: document,
                        index: other,
                    }) by {
                if (document, other) == (node.document_id, node.index) {
                    assert(created_nodes@[index as int] == (NodeId {
                        document_id: document,
                        index: other,
                    }));
                }
            }
            let longer = created_nodes@.take(index + 1);
            assert forall|i: int, j: int|
                0 <= i < longer.len() && 0 <= j < longer.len() && i != j implies longer[i]
                != longer[j] by {
                if i < index && j < index {
                    let shorter = created_nodes@.take(index as int);
                    assert(shorter[i] != shorter[j]);
                }
            }
        }
        index = index + 1;
    }
    assert(created_nodes@.take(index as int) =~= created_nodes@);
    true
}

} // verus!
