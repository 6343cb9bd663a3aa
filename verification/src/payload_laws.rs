//! What batches and scenes are charged with, and which batches are well formed.

use vstd::prelude::*;

use crate::identity::NodeId;
use crate::scene_charge::{ChargeModel, SceneSizes, ShapedRunSizes, ShapedTextSizes};
use crate::script::{
    CreatedNodeToken, PayloadError, ScriptMutationBatch, ScriptMutationCommand,
    ScriptMutationLimitKind, ScriptMutationLimits, ScriptNode,
};

verus! {

/// Texts of commands follow one another in the order of the commands, and so do
/// the nodes that they create.
pub proof fn commands_are_charged_in_order(
    left: Seq<ScriptMutationCommand>,
    right: Seq<ScriptMutationCommand>,
)
    ensures
        crate::script::text_lengths(left + right) == crate::script::text_lengths(left)
            + crate::script::text_lengths(right),
        crate::script::created_count(left + right) == crate::script::created_count(left)
            + crate::script::created_count(right),
    decreases right.len(),
{
    if right.len() == 0 {
        assert(left + right =~= left);
        assert(crate::script::text_lengths(left) + crate::script::text_lengths(right)
            =~= crate::script::text_lengths(left));
    } else {
        commands_are_charged_in_order(left, right.drop_last());
        assert((left + right).drop_last() =~= left + right.drop_last());
        assert((left + right).last() == right.last());
        assert(crate::script::text_lengths(left + right) =~= crate::script::text_lengths(left)
            + crate::script::text_lengths(right));
    }
}

/// Each text that a command carries is charged once, and exactly the two commands
/// that create a node count as creating one.
pub proof fn commands_carry_their_texts(command: ScriptMutationCommand)
    ensures
        match command {
            ScriptMutationCommand::CreateHtmlElement { local_name, .. } => command.creates()
                && command.text_lengths() == seq![crate::text::utf8_len(local_name@)],
            ScriptMutationCommand::CreateText { data, .. } => command.creates()
                && command.text_lengths() == seq![crate::text::utf8_len(data@)],
            ScriptMutationCommand::SetHtmlAttribute { local_name, value, .. } => !command.creates()
                && command.text_lengths() == seq![
                crate::text::utf8_len(local_name@),
                crate::text::utf8_len(value@),
            ],
            ScriptMutationCommand::RemoveHtmlAttribute { local_name, .. } => !command.creates()
                && command.text_lengths() == seq![crate::text::utf8_len(local_name@)],
            ScriptMutationCommand::SetCharacterData { data, .. } => !command.creates()
                && command.text_lengths() == seq![crate::text::utf8_len(data@)],
            _ => !command.creates() && command.text_lengths().len() == 0,
        },
{
}

/// A sum grows by what is added.
pub proof fn totals_grow(lengths: Seq<nat>, length: nat)
    ensures
        crate::script::total(lengths.push(length)) == crate::script::total(lengths) + length,
        crate::script::total(Seq::<nat>::empty()) == 0,
{
    assert(lengths.push(length).drop_last() =~= lengths);
}

/// A part of a sum is not greater.
proof fn total_of_part(lengths: Seq<nat>, count: int)
    requires
        0 <= count <= lengths.len(),
    ensures
        crate::script::total(lengths.take(count)) <= crate::script::total(lengths),
    decreases lengths.len(),
{
    if count == lengths.len() {
        assert(lengths.take(count) =~= lengths);
    } else {
        total_of_part(lengths.drop_last(), count);
        assert(lengths.drop_last().take(count) =~= lengths.take(count));
    }
}

/// Texts that are short one by one and together have no error.
proof fn short_texts_pass(lengths: Seq<nat>, limits: ScriptMutationLimits)
    ensures
        crate::script::total(lengths) <= usize::MAX && (forall|i: int|
            0 <= i < lengths.len() ==> #[trigger] lengths[i] <= limits.max_string_bytes)
            <==> crate::script::text_error(lengths, limits) is None,
    decreases lengths.len(),
{
    if lengths.len() > 0 {
        let before = lengths.drop_last();
        short_texts_pass(before, limits);
        let last = lengths.len() - 1;
        assert(lengths[last] == lengths.last());
        if crate::script::text_error(lengths, limits) is None {
            assert forall|i: int| 0 <= i < lengths.len() implies #[trigger] lengths[i]
                <= limits.max_string_bytes by {
                if i < last {
                    assert(before[i] == lengths[i]);
                }
            }
        }
        if crate::script::total(lengths) <= usize::MAX && (forall|i: int|
            0 <= i < lengths.len() ==> #[trigger] lengths[i] <= limits.max_string_bytes) {
            assert forall|i: int| 0 <= i < before.len() implies #[trigger] before[i]
                <= limits.max_string_bytes by {
                assert(before[i] == lengths[i]);
            }
        }
    }
}

/// A batch is admitted exactly with at most so many commands, created nodes, and
/// bytes in each text and in all of them; the refusal names a cap that is
/// exceeded.
pub proof fn batches_are_bounded(
    commands: Seq<ScriptMutationCommand>,
    command_bytes: usize,
    limits: ScriptMutationLimits,
)
    ensures
        ({
            let lengths = crate::script::text_lengths(commands);
            let all = crate::script::total(lengths);
            let created = crate::script::created_count(commands);
            let answer = crate::script::payload_error(commands, command_bytes, limits);
            &&& answer is None <==> {
                &&& commands.len() <= limits.max_commands
                &&& created <= limits.max_created_nodes
                &&& all <= limits.max_total_string_bytes
                &&& command_bytes + all <= usize::MAX
                &&& forall|i: int|
                    0 <= i < lengths.len() ==> #[trigger] lengths[i] <= limits.max_string_bytes
            }
            &&& answer matches Some(
                PayloadError::Limit { kind: ScriptMutationLimitKind::Commands, maximum, actual },
            ) ==> maximum == limits.max_commands && commands.len() > maximum
            &&& answer matches Some(
                PayloadError::Limit { kind: ScriptMutationLimitKind::CreatedNodes, maximum, actual },
            ) ==> maximum == limits.max_created_nodes && created > maximum && actual
                == created as usize
            &&& answer matches Some(PayloadError::Unrepresentable) ==> command_bytes + all
                > usize::MAX
            &&& commands.len() > limits.max_commands ==> (answer matches Some(
                PayloadError::Limit { kind, .. },
            ) && kind is Commands)
        }),
{
    short_texts_pass(crate::script::text_lengths(commands), limits);
    errors_of_texts(crate::script::text_lengths(commands), limits);
}

/// A text error is one of texts.
proof fn errors_of_texts(lengths: Seq<nat>, limits: ScriptMutationLimits)
    ensures
        crate::script::text_error(lengths, limits) matches Some(error) ==> (error matches
            PayloadError::Limit { kind, .. } && (kind is StringBytes || kind is TotalStringBytes)),
    decreases lengths.len(),
{
    if lengths.len() > 0 {
        errors_of_texts(lengths.drop_last(), limits);
    }
}

/// The first text that is too long is told, with its length and the bound.
pub proof fn first_long_text_is_told(
    before: Seq<nat>,
    length: nat,
    after: Seq<nat>,
    limits: ScriptMutationLimits,
)
    requires
        crate::script::text_error(before, limits) is None,
        limits.max_string_bytes < length <= usize::MAX,
    ensures
        crate::script::text_error(before.push(length) + after, limits) == Some(
            PayloadError::Limit {
                kind: ScriptMutationLimitKind::StringBytes,
                maximum: limits.max_string_bytes,
                actual: length as usize,
            },
        ),
    decreases after.len(),
{
    let all = before.push(length) + after;
    if after.len() == 0 {
        assert(all.drop_last() =~= before);
        assert(all.last() == length);
    } else {
        first_long_text_is_told(before, length, after.drop_last(), limits);
        assert(all.drop_last() =~= before.push(length) + after.drop_last());
    }
}

/// A node is available exactly if it is one of the document or was created by an
/// earlier command; what is available stays so.
pub proof fn created_nodes_stay_available(
    node: NodeId,
    token: CreatedNodeToken,
    document: u64,
    created: int,
    later: int,
)
    requires
        created <= later,
    ensures
        ScriptNode::Existing(node).available(document, created) <==> node.document_id == document,
        ScriptNode::Created(token).available(document, created) <==> token.index < created,
        ScriptNode::Created(token).available(document, created) ==> ScriptNode::Created(
            token,
        ).available(document, later),
{
}

/// A command is well formed exactly if each node that it refers to is available,
/// and a node that it creates has the next number.
pub proof fn commands_refer_to_available_nodes(
    command: ScriptMutationCommand,
    document: u64,
    created: int,
)
    ensures
        ({
            let ok = command.refers_to_available(document, created);
            match command {
                ScriptMutationCommand::CreateHtmlElement { token, .. } => ok <==> token.index
                    == created,
                ScriptMutationCommand::CreateText { token, .. } => ok <==> token.index == created,
                ScriptMutationCommand::AppendChild { parent, child } => ok <==> parent.available(
                    document,
                    created,
                ) && child.available(document, created),
                ScriptMutationCommand::InsertBefore { parent, child, reference } => ok <==> {
                    &&& parent.available(document, created)
                    &&& child.available(document, created)
                    &&& match reference {
                        Some(sibling) => sibling.available(document, created),
                        None => true,
                    }
                },
                ScriptMutationCommand::RemoveChild { parent, child } => ok <==> parent.available(
                    document,
                    created,
                ) && child.available(document, created),
                ScriptMutationCommand::SetHtmlAttribute { element, .. } => ok
                    <==> element.available(document, created),
                ScriptMutationCommand::RemoveHtmlAttribute { element, .. } => ok
                    <==> element.available(document, created),
                ScriptMutationCommand::SetCharacterData { node, .. } => ok <==> node.available(
                    document,
                    created,
                ),
            }
        }),
{
}

/// A batch is well formed exactly if each of its commands is, behind those before
/// it: adding a command asks only that one.
pub proof fn batches_grow_by_commands(
    shorter: ScriptMutationBatch,
    longer: ScriptMutationBatch,
    command: ScriptMutationCommand,
    maximum: usize,
)
    requires
        longer.expected_version == shorter.expected_version,
        longer.commands@ == shorter.commands@.push(command),
    ensures
        crate::script::valid_topology(longer, maximum) <==> {
            &&& crate::script::valid_topology(shorter, maximum)
            &&& command.refers_to_available(
                shorter.expected_version.document_id,
                crate::script::created_count(shorter.commands@) as int,
            )
            &&& crate::script::created_count(longer.commands@) <= maximum
        },
{
    let (few, many) = (shorter.commands@, longer.commands@);
    let document = shorter.expected_version.document_id;
    assert(many.drop_last() =~= few);
    assert(many.take(few.len() as int) =~= few);
    assert forall|i: int| 0 <= i < few.len() implies many[i] == few[i] && #[trigger] many.take(i)
        == few.take(i) by {
        assert(many.take(i) =~= few.take(i));
    }
    if crate::script::valid_topology(longer, maximum) {
        assert(many[few.len() as int].refers_to_available(
            document,
            crate::script::created_count(many.take(few.len() as int)) as int,
        ));
        assert forall|i: int| 0 <= i < few.len() implies (#[trigger] few[i]).refers_to_available(
            document,
            crate::script::created_count(few.take(i)) as int,
        ) by {
            assert(many[i].refers_to_available(
                document,
                crate::script::created_count(many.take(i)) as int,
            ));
            assert(many.take(i) == few.take(i));
        }
    }
    if crate::script::valid_topology(shorter, maximum) && command.refers_to_available(
        document,
        crate::script::created_count(few) as int,
    ) {
        assert forall|i: int| 0 <= i < many.len() implies (#[trigger] many[i]).refers_to_available(
            document,
            crate::script::created_count(many.take(i)) as int,
        ) by {
            if i < few.len() {
                assert(few[i].refers_to_available(
                    document,
                    crate::script::created_count(few.take(i)) as int,
                ));
                assert(many.take(i) == few.take(i));
            }
        }
    }
}

/// Bytes charged so far, with the bookkeeping of the distinct texts and fonts.
pub open spec fn cost(charged: ChargeModel) -> int {
    charged.total + (charged.allocations.len() + charged.fonts.len()) * (usize::BITS as int / 2)
}

/// Four words are half as many bytes as a word has bits.
proof fn four_words()
    ensures
        crate::scene_charge::overhead() == usize::BITS as int / 2,
{
    assert(usize::BITS == 32 || usize::BITS == 64);
}

/// A run costs its arrays with the bookkeeping of three; a font that was not seen
/// before also costs its bytes with the bookkeeping of two.
pub proof fn runs_cost_their_arrays(charged: ChargeModel, run: ShapedRunSizes)
    requires
        charged.fonts.finite(),
    ensures
        ({
            let next = charged.after_run(run);
            let arrays = run.coordinate_bytes + run.glyph_bytes + run.cluster_bytes + 3 * (
            usize::BITS as int / 2);
            &&& charged.fonts.contains(run.font_blob) ==> cost(next) == cost(charged) + arrays
            &&& !charged.fonts.contains(run.font_blob) ==> cost(next) == cost(charged) + arrays
                + run.font_bytes + 2 * (usize::BITS as int / 2)
            &&& next.fonts == charged.fonts.insert(run.font_blob)
            &&& next.allocations == charged.allocations
        }),
{
    four_words();
    let half = usize::BITS as int / 2;
    let next = charged.after_run(run);
    let (before, after) = (
        (charged.allocations.len() + charged.fonts.len()) as int,
        (next.allocations.len() + next.fonts.len()) as int,
    );
    if charged.fonts.contains(run.font_blob) {
        assert(charged.fonts.insert(run.font_blob) =~= charged.fonts);
    } else {
        assert(after == before + 1);
        assert(after * half == before * half + half) by (nonlinear_arith)
            requires
                after == before + 1,
        ;
    }
}

/// A shaped text that was seen before costs nothing more; a new one without runs
/// costs its records and text with the bookkeeping of four.
pub proof fn shared_texts_cost_once(
    charged: ChargeModel,
    entry: ShapedTextSizes,
    shaped_text_bytes: usize,
)
    requires
        charged.allocations.finite(),
        charged.fonts.finite(),
    ensures
        ({
            let next = charged.after_entry(entry, shaped_text_bytes);
            &&& charged.allocations.contains(entry.allocation) ==> next == charged
            &&& !charged.allocations.contains(entry.allocation) && entry.runs@.len() == 0 ==> {
                &&& cost(next) == cost(charged) + shaped_text_bytes + entry.text_bytes
                    + entry.run_bytes + 4 * (usize::BITS as int / 2)
                &&& next.after_entry(entry, shaped_text_bytes) == next
            }
        }),
{
    four_words();
    let half = usize::BITS as int / 2;
    let next = charged.after_entry(entry, shaped_text_bytes);
    if !charged.allocations.contains(entry.allocation) && entry.runs@.len() == 0 {
        let (before, after) = (
            (charged.allocations.len() + charged.fonts.len()) as int,
            (next.allocations.len() + next.fonts.len()) as int,
        );
        assert(after == before + 1);
        assert(after * half == before * half + half) by (nonlinear_arith)
            requires
                after == before + 1,
        ;
    }
}

/// A scene without shaped texts costs its records and each waiting text with the
/// bookkeeping of one.
pub proof fn bare_scenes_cost_their_records(sizes: SceneSizes, texts: Seq<usize>, text: usize)
    requires
        sizes.entries@.len() == 0,
    ensures
        crate::scene_charge::scene_charge(sizes) == sizes.scene_bytes + sizes.display_list_bytes
            + sizes.item_bytes + sizes.pending_bytes + crate::scene_charge::text_charge(
            sizes.pending_texts@,
        ) + sizes.entry_bytes,
        crate::scene_charge::text_charge(Seq::empty()) == 0,
        crate::scene_charge::text_charge(texts.push(text)) == crate::scene_charge::text_charge(
            texts,
        ) + text + usize::BITS as int / 2,
{
    four_words();
    assert(texts.push(text).drop_last() =~= texts);
    assert(Set::<u64>::empty().len() == 0);
}

/// A scene costs its records, and then each of its entries in order.
pub proof fn scenes_cost_their_entries(sizes: SceneSizes)
    ensures
        crate::scene_charge::scene_charge(sizes) == cost(
            (ChargeModel {
                total: sizes.scene_bytes + sizes.display_list_bytes + sizes.item_bytes
                    + sizes.pending_bytes + sizes.entry_bytes + crate::scene_charge::text_charge(
                    sizes.pending_texts@,
                ),
                allocations: Set::empty(),
                fonts: Set::empty(),
            }).after_entries(sizes.entries@, sizes.shaped_text_bytes),
        ),
{
    four_words();
}

/// Entries and runs are charged in their order.
pub proof fn entries_are_charged_in_order(
    charged: ChargeModel,
    entries: Seq<ShapedTextSizes>,
    entry: ShapedTextSizes,
    shaped_text_bytes: usize,
    runs: Seq<ShapedRunSizes>,
    run: ShapedRunSizes,
)
    ensures
        charged.after_entries(entries.push(entry), shaped_text_bytes) == charged.after_entries(
            entries,
            shaped_text_bytes,
        ).after_entry(entry, shaped_text_bytes),
        charged.after_entries(Seq::empty(), shaped_text_bytes) == charged,
        charged.after_runs(runs.push(run)) == charged.after_runs(runs).after_run(run),
        charged.after_runs(Seq::empty()) == charged,
{
    assert(entries.push(entry).drop_last() =~= entries);
    assert(runs.push(run).drop_last() =~= runs);
}

/// The runs of a new shaped text are charged behind its records.
pub proof fn new_texts_are_charged_with_their_runs(
    charged: ChargeModel,
    entry: ShapedTextSizes,
    bare: ShapedTextSizes,
    shaped_text_bytes: usize,
)
    requires
        !charged.allocations.contains(entry.allocation),
        bare.allocation == entry.allocation,
        bare.text_bytes == entry.text_bytes,
        bare.run_bytes == entry.run_bytes,
        bare.runs@.len() == 0,
    ensures
        charged.after_entry(entry, shaped_text_bytes) == charged.after_entry(
            bare,
            shaped_text_bytes,
        ).after_runs(entry.runs@),
{
}

} // verus!
