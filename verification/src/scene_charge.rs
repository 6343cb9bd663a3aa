//! Conservative charge of a presentation scene against the retained bounds.

use std::collections::BTreeSet;
use vstd::prelude::*;

use crate::collections::{set_insert, set_len};
use crate::pipeline_error::PipelineError;

verus! {

/// Bytes that one shaped run holds.
#[derive(Clone, Copy, Debug, PartialEq, Eq, Structural)]
pub struct ShapedRunSizes {
    /// Bytes of the variation coordinates.
    pub coordinate_bytes: usize,
    /// Bytes of the glyphs.
    pub glyph_bytes: usize,
    /// Bytes of the clusters.
    pub cluster_bytes: usize,
    /// Identity of the font blob that the run uses.
    pub font_blob: u64,
    /// Bytes of that font blob.
    pub font_bytes: usize,
}

/// Bytes that one shaped text holds.
#[derive(Debug)]
pub struct ShapedTextSizes {
    /// Identity of the shared allocation of the shaped text.
    pub allocation: u64,
    /// Bytes of the text.
    pub text_bytes: usize,
    /// Bytes of the run records.
    pub run_bytes: usize,
    /// The runs.
    pub runs: Vec<ShapedRunSizes>,
}

/// Bytes that a compiled scene and its shaped text hold.
#[derive(Debug)]
pub struct SceneSizes {
    /// Bytes of the scene record.
    pub scene_bytes: usize,
    /// Bytes of the serialized display list.
    pub display_list_bytes: usize,
    /// Bytes of the scene items.
    pub item_bytes: usize,
    /// Bytes of the pending text records.
    pub pending_bytes: usize,
    /// Bytes of each pending text.
    pub pending_texts: Vec<usize>,
    /// Bytes of the entries of the shaped-text inventory.
    pub entry_bytes: usize,
    /// Bytes of one shaped-text record.
    pub shaped_text_bytes: usize,
    /// Shaped text of each entry.
    pub entries: Vec<ShapedTextSizes>,
}

/// Bytes charged for the bookkeeping of one allocation: four words.
pub open spec fn overhead() -> int {
    (usize::BITS / 8 * 4) as int
}

/// What was charged so far.
pub struct ChargeModel {
    /// Bytes charged.
    pub total: int,
    /// Shaped texts charged.
    pub allocations: Set<u64>,
    /// Font blobs charged.
    pub fonts: Set<u64>,
}

impl ChargeModel {
    /// After one run: a font blob is charged once.
    pub open spec fn after_run(self, run: ShapedRunSizes) -> Self {
        let arrays = self.total + run.coordinate_bytes + run.glyph_bytes + run.cluster_bytes + 3
            * overhead();
        if self.fonts.contains(run.font_blob) {
            ChargeModel { total: arrays, ..self }
        } else {
            ChargeModel {
                total: arrays + run.font_bytes + overhead(),
                fonts: self.fonts.insert(run.font_blob),
                ..self
            }
        }
    }

    /// After all runs.
    pub open spec fn after_runs(self, runs: Seq<ShapedRunSizes>) -> Self
        decreases runs.len(),
    {
        if runs.len() == 0 {
            self
        } else {
            self.after_runs(runs.drop_last()).after_run(runs.last())
        }
    }

    /// After one entry: a shared shaped text is charged once.
    pub open spec fn after_entry(self, entry: ShapedTextSizes, shaped_text_bytes: usize) -> Self {
        if self.allocations.contains(entry.allocation) {
            self
        } else {
            let begun = ChargeModel {
                total: self.total + shaped_text_bytes + entry.text_bytes + entry.run_bytes + 3
                    * overhead(),
                allocations: self.allocations.insert(entry.allocation),
                ..self
            };
            begun.after_runs(entry.runs@)
        }
    }

    /// After all entries.
    pub open spec fn after_entries(
        self,
        entries: Seq<ShapedTextSizes>,
        shaped_text_bytes: usize,
    ) -> Self
        decreases entries.len(),
    {
        if entries.len() == 0 {
            self
        } else {
            self.after_entries(entries.drop_last(), shaped_text_bytes).after_entry(
                entries.last(),
                shaped_text_bytes,
            )
        }
    }
}

/// Bytes of texts, with the bookkeeping of each.
pub open spec fn text_charge(texts: Seq<usize>) -> int
    decreases texts.len(),
{
    if texts.len() == 0 {
        0
    } else {
        text_charge(texts.drop_last()) + texts.last() + overhead()
    }
}

/// Exact charge of a scene: its records, each text, each distinct shaped text
/// and each distinct font blob, and four words for each of the latter two.
pub open spec fn scene_charge(sizes: SceneSizes) -> int {
    let records = ChargeModel {
        total: (sizes.scene_bytes + sizes.display_list_bytes + sizes.item_bytes
            + sizes.pending_bytes + text_charge(sizes.pending_texts@) + sizes.entry_bytes) as int,
        allocations: Set::empty(),
        fonts: Set::empty(),
    };
    let charged = records.after_entries(sizes.entries@, sizes.shaped_text_bytes);
    charged.total + (charged.allocations.len() + charged.fonts.len()) * overhead()
}

/// Bytes charged for the bookkeeping of one allocation.
fn allocation_overhead() -> (bytes: usize)
    ensures
        bytes == overhead(),
        bytes > 0,
{
    (usize::BITS / 8 * 4) as usize
}

/// A byte count, or its overflow.
struct Charge {
    total: usize,
    overflowed: bool,
}

impl Charge {
    /// Whether the count is exact, or overflowed where the exact count does.
    spec fn counts(self, exact: int) -> bool {
        if self.overflowed {
            exact > usize::MAX
        } else {
            self.total == exact
        }
    }

    /// Adds to the count.
    fn plus(&mut self, bytes: usize)
        ensures
            forall|exact: int| #[trigger]
                old(self).counts(exact) ==> final(self).counts(exact + bytes as int),
    {
        if !self.overflowed {
            match self.total.checked_add(bytes) {
                Some(total) => {
                    self.total = total;
                },
                None => {
                    self.overflowed = true;
                },
            }
        }
    }
}

/// Charges in progress.
struct Charging {
    charge: Charge,
    allocations: BTreeSet<u64>,
    fonts: BTreeSet<u64>,
}

impl Charging {
    /// Whether this is what was charged so far.
    spec fn is(self, model: ChargeModel) -> bool {
        &&& self.charge.counts(model.total)
        &&& self.allocations@ == model.allocations
        &&& self.fonts@ == model.fonts
    }

    /// Charges one run.
    fn charge_run(&mut self, run: &ShapedRunSizes, Ghost(model): Ghost<ChargeModel>)
        requires
            old(self).is(model),
        ensures
            final(self).is(model.after_run(*run)),
    {
        let overhead: usize = allocation_overhead();
        let ghost mut exact: int = model.total;
        assert(self.charge.counts(exact));
        self.charge.plus(run.coordinate_bytes);
        assert(self.charge.counts(exact + run.coordinate_bytes as int));
        proof {
            exact = exact + run.coordinate_bytes as int;
        }
        self.charge.plus(overhead);
        assert(self.charge.counts(exact + overhead as int));
        proof {
            exact = exact + overhead as int;
        }
        self.charge.plus(run.glyph_bytes);
        assert(self.charge.counts(exact + run.glyph_bytes as int));
        proof {
            exact = exact + run.glyph_bytes as int;
        }
        self.charge.plus(overhead);
        assert(self.charge.counts(exact + overhead as int));
        proof {
            exact = exact + overhead as int;
        }
        self.charge.plus(run.cluster_bytes);
        assert(self.charge.counts(exact + run.cluster_bytes as int));
        proof {
            exact = exact + run.cluster_bytes as int;
        }
        self.charge.plus(overhead);
        assert(self.charge.counts(exact + overhead as int));
        proof {
            exact = exact + overhead as int;
        }
        if set_insert(&mut self.fonts, run.font_blob) {
            self.charge.plus(run.font_bytes);
            assert(self.charge.counts(exact + run.font_bytes as int));
            proof {
                exact = exact + run.font_bytes as int;
            }
            self.charge.plus(overhead);
            assert(self.charge.counts(exact + overhead as int));
            proof {
                exact = exact + overhead as int;
            }
        } else {
            assert(self.fonts@ =~= model.fonts);
        }
        assert(exact == model.after_run(*run).total);
    }

    /// Charges one entry.
    fn charge_entry(
        &mut self,
        entry: &ShapedTextSizes,
        shaped_text_bytes: usize,
        Ghost(model): Ghost<ChargeModel>,
    )
        requires
            old(self).is(model),
        ensures
            final(self).is(model.after_entry(*entry, shaped_text_bytes)),
    {
        let overhead: usize = allocation_overhead();
        if !set_insert(&mut self.allocations, entry.allocation) {
            assert(self.allocations@ =~= model.allocations);
            return ;
        }
        let ghost mut exact: int = model.total;
        assert(self.charge.counts(exact));
        self.charge.plus(shaped_text_bytes);
        assert(self.charge.counts(exact + shaped_text_bytes as int));
        proof {
            exact = exact + shaped_text_bytes as int;
        }
        self.charge.plus(overhead);
        assert(self.charge.counts(exact + overhead as int));
        proof {
            exact = exact + overhead as int;
        }
        self.charge.plus(entry.text_bytes);
        assert(self.charge.counts(exact + entry.text_bytes as int));
        proof {
            exact = exact + entry.text_bytes as int;
        }
        self.charge.plus(overhead);
        assert(self.charge.counts(exact + overhead as int));
        proof {
            exact = exact + overhead as int;
        }
        self.charge.plus(entry.run_bytes);
        assert(self.charge.counts(exact + entry.run_bytes as int));
        proof {
            exact = exact + entry.run_bytes as int;
        }
        self.charge.plus(overhead);
        assert(self.charge.counts(exact + overhead as int));
        proof {
            exact = exact + overhead as int;
        }
        let ghost begun = ChargeModel {
            total: exact,
            allocations: model.allocations.insert(entry.allocation),
            fonts: model.fonts,
        };
        let mut at: usize = 0;
        assert(begun.after_runs(entry.runs@.take(0)) == begun);
        while at < entry.runs.len()
            invariant
                at <= entry.runs@.len(),
                self.is(begun.after_runs(entry.runs@.take(at as int))),
            decreases entry.runs@.len() - at,
        {
            let ghost before = begun.after_runs(entry.runs@.take(at as int));
            assert(entry.runs@.take(at + 1).drop_last() =~= entry.runs@.take(at as int));
            self.charge_run(&entry.runs[at], Ghost(before));
            at += 1;
        }
        assert(entry.runs@.take(at as int) =~= entry.runs@);
        assert(begun == (ChargeModel {
            total: model.total + shaped_text_bytes + entry.text_bytes + entry.run_bytes + 3
                * crate::scene_charge::overhead(),
            allocations: model.allocations.insert(entry.allocation),
            ..model
        }));
    }
}

/// Charges a scene; it counts as one byte at least.
pub fn presentation_retained_charge(sizes: &SceneSizes) -> (result: Result<usize, PipelineError>)
    ensures
        result == if scene_charge(*sizes) > usize::MAX {
            Err(PipelineError::EvidenceOverflow)
        } else if scene_charge(*sizes) == 0 {
            Ok(1)
        } else {
            Ok(scene_charge(*sizes) as usize)
        },
{
    let overhead: usize = allocation_overhead();
    let mut charge = Charge { total: sizes.scene_bytes, overflowed: false };
    let ghost mut exact: int = sizes.scene_bytes as int;
    assert(charge.counts(exact));
    charge.plus(sizes.display_list_bytes);
    assert(charge.counts(exact + sizes.display_list_bytes as int));
    proof {
        exact = exact + sizes.display_list_bytes as int;
    }
    charge.plus(sizes.item_bytes);
    assert(charge.counts(exact + sizes.item_bytes as int));
    proof {
        exact = exact + sizes.item_bytes as int;
    }
    charge.plus(sizes.pending_bytes);
    assert(charge.counts(exact + sizes.pending_bytes as int));
    proof {
        exact = exact + sizes.pending_bytes as int;
    }
    let mut at: usize = 0;
    assert(text_charge(sizes.pending_texts@.take(0)) == 0);
    while at < sizes.pending_texts.len()
        invariant
            at <= sizes.pending_texts@.len(),
            overhead == crate::scene_charge::overhead(),
            charge.counts(exact + text_charge(sizes.pending_texts@.take(at as int))),
        decreases sizes.pending_texts@.len() - at,
    {
        let ghost before = exact + text_charge(sizes.pending_texts@.take(at as int));
        assert(sizes.pending_texts@.take(at + 1).drop_last() =~= sizes.pending_texts@.take(
            at as int,
        ));
        charge.plus(sizes.pending_texts[at]);
        assert(charge.counts(before + sizes.pending_texts@[at as int] as int));
        charge.plus(overhead);
        assert(charge.counts(before + sizes.pending_texts@[at as int] as int + overhead as int));
        at += 1;
    }
    assert(sizes.pending_texts@.take(at as int) =~= sizes.pending_texts@);
    proof {
        exact = exact + text_charge(sizes.pending_texts@);
    }
    charge.plus(sizes.entry_bytes);
    assert(charge.counts(exact + sizes.entry_bytes as int));
    proof {
        exact = exact + sizes.entry_bytes as int;
    }
    let ghost records = ChargeModel {
        total: exact,
        allocations: Set::empty(),
        fonts: Set::empty(),
    };
    let mut charging = Charging { charge, allocations: BTreeSet::new(), fonts: BTreeSet::new() };
    let mut at: usize = 0;
    assert(records.after_entries(sizes.entries@.take(0), sizes.shaped_text_bytes) == records);
    while at < sizes.entries.len()
        invariant
            at <= sizes.entries@.len(),
            charging.is(
                records.after_entries(sizes.entries@.take(at as int), sizes.shaped_text_bytes),
            ),
        decreases sizes.entries@.len() - at,
    {
        let ghost before = records.after_entries(
            sizes.entries@.take(at as int),
            sizes.shaped_text_bytes,
        );
        assert(sizes.entries@.take(at + 1).drop_last() =~= sizes.entries@.take(at as int));
        charging.charge_entry(&sizes.entries[at], sizes.shaped_text_bytes, Ghost(before));
        at += 1;
    }
    assert(sizes.entries@.take(at as int) =~= sizes.entries@);
    let ghost charged = records.after_entries(sizes.entries@, sizes.shaped_text_bytes);
    let allocations: usize = set_len(&charging.allocations);
    let fonts: usize = set_len(&charging.fonts);
    let ghost shared: int = (charged.allocations.len() + charged.fonts.len()) * overhead as int;
    assert(scene_charge(*sizes) == charged.total + shared);
    let entries: usize = match allocations.checked_add(fonts) {
        Some(entries) => entries,
        None => {
            assert(shared > usize::MAX) by (nonlinear_arith)
                requires
                    allocations + fonts > usize::MAX,
                    overhead >= 1,
                    shared == (allocations + fonts) * overhead,
            ;
            return Err(PipelineError::EvidenceOverflow);
        },
    };
    let shared_bytes: usize = match entries.checked_mul(overhead) {
        Some(bytes) => bytes,
        None => return Err(PipelineError::EvidenceOverflow),
    };
    charging.charge.plus(shared_bytes);
    assert(charging.charge.counts(charged.total + shared_bytes as int));
    if charging.charge.overflowed {
        return Err(PipelineError::EvidenceOverflow);
    }
    if charging.charge.total == 0 {
        Ok(1)
    } else {
        Ok(charging.charge.total)
    }
}

} // verus!
