//! Pipeline stage latency metrics.
use super::cache::record_in_row;
use super::labels::{PipelineStage, PIPELINE_STAGE_COUNT};
use super::latency::{hist_record, latency_bucket_spec, push_quantile_lines, quantile_lines};
use super::registry::{rows, Metrics, MetricsView};
use crate::text::push_str;
use vstd::prelude::*;

verus! {

/// Records the latency of one pipeline stage.
pub fn record_stage_latency(metrics: &mut Metrics, stage: PipelineStage, millis: u64)
    requires
        old(metrics)@.wf(),
    ensures
        final(metrics)@ == (MetricsView {
            stage_latency_hists: old(metrics)@.stage_latency_hists.update(
                stage.index_spec(),
                hist_record(
                    old(metrics)@.stage_latency_hists[stage.index_spec()],
                    latency_bucket_spec(millis as nat),
                ),
            ),
            ..old(metrics)@
        }),
{
    record_in_row(&mut metrics.stage_latency_hists, stage.as_index(), millis);
}

/// The head of a stage latency sample.
pub open spec fn stage_head(stage: PipelineStage) -> Seq<char> {
    "imagik_stage_latency_ms{stage=\""@ + stage.name_spec() + "\",quantile=\""@
}

/// The latency percentiles of the first `k` stages.
pub open spec fn stage_latency_text(m: MetricsView, k: int) -> Seq<char>
    decreases k,
{
    if k <= 0 {
        Seq::empty()
    } else {
        stage_latency_text(m, k - 1) + quantile_lines(
            stage_head(PipelineStage::at(k - 1)),
            m.stage_latency_hists[k - 1],
        )
    }
}

/// The stage at a position, in declaration order.
fn stage_at(i: usize) -> (s: PipelineStage)
    ensures
        s == PipelineStage::at(i as int),
{
    if i == 0 {
        PipelineStage::ObjectFetch
    } else if i == 1 {
        PipelineStage::Decode
    } else if i == 2 {
        PipelineStage::Transform
    } else {
        PipelineStage::Encode
    }
}

/// Appends the latency percentiles of every pipeline stage.
pub fn append_stage_latency_metrics(out: &mut String, metrics: &Metrics)
    requires
        metrics@.wf(),
        metrics@.hists_fit(),
    ensures
        final(out)@ == old(out)@ + stage_latency_text(metrics@, PIPELINE_STAGE_COUNT as int),
{
    let ghost start = out@;
    let mut i: usize = 0;
    while i < PIPELINE_STAGE_COUNT
        invariant
            i <= PIPELINE_STAGE_COUNT,
            metrics@.wf(),
            metrics@.hists_fit(),
            out@ == start + stage_latency_text(metrics@, i as int),
        decreases PIPELINE_STAGE_COUNT - i,
    {
        let stage = stage_at(i);
        let mut head = String::new();
        push_str(&mut head, "imagik_stage_latency_ms{stage=\"");
        push_str(&mut head, stage.as_name());
        push_str(&mut head, "\",quantile=\"");
        assert(head@ =~= stage_head(stage));
        assert(rows(metrics.stage_latency_hists@)[i as int] == metrics.stage_latency_hists@[i as int]@);
        push_quantile_lines(out, &head, &metrics.stage_latency_hists[i]);
        i = i + 1;
        assert(out@ =~= start + stage_latency_text(metrics@, i as int));
    }
}

} // verus!
