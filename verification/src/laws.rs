//! The library's stated laws: batch-wide properties proved once, over the
//! spec-level models that the pipeline's own contracts use.

use vstd::prelude::*;

use crate::error::AuthzError;
use crate::pipeline::ItemRecord;
use crate::pipeline::degrade;
use crate::pipeline::record_json;
use crate::response::error_record_json;

verus! {

/// Poisoning: when the shared loading stage recorded any fatal error,
/// every serialized batch item is the `NoDecision` record carrying
/// exactly those shared errors — however many items the batch holds and
/// however well-formed each single request is. The premises are what
/// `evaluate_items` and `records_to_json` guarantee.
pub proof fn lemma_poisoned_batch(
    records: Seq<ItemRecord>,
    outputs: Seq<String>,
    shared: Vec<AuthzError>,
)
    requires
        shared@.len() > 0,
        outputs.len() == records.len(),
        forall|i: int|
            0 <= i < records.len() ==> ((#[trigger] records[i]) matches ItemRecord::Failed(es)
                && es.deep_view() == shared.deep_view()),
        forall|i: int| 0 <= i < outputs.len() ==> (#[trigger] outputs[i])@ == record_json(records[i]),
    ensures
        forall|i: int|
            0 <= i < outputs.len() ==> (#[trigger] outputs[i])@ == error_record_json(
                shared.deep_view(),
            ),
{
    assert forall|i: int| 0 <= i < outputs.len() implies (#[trigger] outputs[i])@
        == error_record_json(shared.deep_view()) by {
        assert(records[i] matches ItemRecord::Failed(es) && es.deep_view() == shared.deep_view());
    }
}

/// Schema degradation: a schema source whose parse failed selects the
/// very same loaded value as an omitted schema — no schema at all. Every
/// stage after the loader receives the schema only through this value,
/// so a malformed schema and an absent schema give identical decisions.
pub proof fn lemma_schema_degradation(err: String)
    ensures
        degrade::<cedar_policy::Schema>(Some(Err(err))) == degrade::<cedar_policy::Schema>(None),
{
}

} // verus!
