//! The sample-rate expansion of what a device supports.

use vstd::prelude::*;
use crate::config::{
    HZ_44100,
    OutputStreamConfig,
    SupportedStreamConfig,
    SupportedStreamConfigRange,
    SupportedStreamConfigRangeView,
    SupportedStreamConfigView,
};

verus! {

/// Whether 44 100 Hz lies strictly inside the range.
pub open spec fn cd_rate_inside(range: SupportedStreamConfigRangeView) -> bool {
    range.min_sample_rate < HZ_44100 && HZ_44100 < range.max_sample_rate
}

/// The candidates of one range, most preferred first: the highest sample rate, then
/// 44 100 Hz where it lies strictly inside the range, then the lowest sample rate.
pub open spec fn expansion(range: SupportedStreamConfigRangeView) -> Seq<SupportedStreamConfigView> {
    if cd_rate_inside(range) {
        seq![range.at(range.max_sample_rate), range.at(HZ_44100), range.at(range.min_sample_rate)]
    } else {
        seq![range.at(range.max_sample_rate), range.at(range.min_sample_rate)]
    }
}

/// The candidates of a list of ranges: the expansion of each range, in the order of the
/// list.
pub open spec fn expand_all(ranges: Seq<SupportedStreamConfigRange>) -> Seq<SupportedStreamConfigView>
    decreases ranges.len(),
{
    if ranges.len() == 0 {
        Seq::empty()
    } else {
        expand_all(ranges.drop_last()) + expansion(ranges.last()@)
    }
}

/// What each supported configuration of a list holds.
pub open spec fn views(configs: Seq<SupportedStreamConfig>) -> Seq<SupportedStreamConfigView> {
    configs.map_values(|config: SupportedStreamConfig| config@)
}

/// The stream configurations tried for a list of candidates, one for each.
pub open spec fn attempts(candidates: Seq<SupportedStreamConfigView>) -> Seq<OutputStreamConfig> {
    candidates.map_values(|candidate: SupportedStreamConfigView| OutputStreamConfig::of_supported(candidate))
}

/// The expansion of a range starts with its highest sample rate and ends with its lowest.
/// It has a third entry, in the middle and at 44 100 Hz, exactly when 44 100 Hz lies
/// strictly inside the range.
pub proof fn lemma_expansion_shape(range: SupportedStreamConfigRangeView)
    ensures
        expansion(range).first() == range.at(range.max_sample_rate),
        expansion(range).last() == range.at(range.min_sample_rate),
        expansion(range).len() == if cd_rate_inside(range) { 3nat } else { 2nat },
        cd_rate_inside(range) ==> expansion(range)[1] == range.at(HZ_44100),
        range.min_sample_rate != HZ_44100 && range.max_sample_rate != HZ_44100 ==> (expansion(
            range,
        ).contains(range.at(HZ_44100)) <==> cd_rate_inside(range)),
{
    let e = expansion(range);
    if cd_rate_inside(range) {
        assert(e[1] == range.at(HZ_44100));
    }
}

/// Every range of a list contributes its whole expansion, and the contributions stand in
/// the order of the list: the candidates of the first `k + 1` ranges are those of the
/// first `k` followed by the expansion of range `k`.
pub proof fn lemma_expand_all_in_order(ranges: Seq<SupportedStreamConfigRange>, k: int)
    requires
        0 <= k < ranges.len(),
    ensures
        expand_all(ranges.take(k + 1)) == expand_all(ranges.take(k)) + expansion(ranges[k]@),
        expand_all(ranges.take(ranges.len() as int)) == expand_all(ranges),
{
    assert(ranges.take(k + 1).drop_last() =~= ranges.take(k));
    assert(ranges.take(ranges.len() as int) =~= ranges);
}

/// Expands one range into its candidates.
pub fn expand_sample_rates(range: SupportedStreamConfigRange) -> (r: Vec<SupportedStreamConfig>)
    ensures
        views(r@) == expansion(range@),
{
    let max_rate = range.max_sample_rate();
    let min_rate = range.min_sample_rate();
    let mut formats: Vec<SupportedStreamConfig> = Vec::new();
    formats.push(range.with_max_sample_rate());
    if HZ_44100 < max_rate && HZ_44100 > min_rate {
        formats.push(range.with_sample_rate(HZ_44100));
    }
    formats.push(range.with_sample_rate(min_rate));
    assert(views(formats@) =~= expansion(range@));
    formats
}

/// All candidates of a device, given the ranges it supports from the most preferred to
/// the least.
pub fn supported_output_configs(ranges: &Vec<SupportedStreamConfigRange>) -> (r: Vec<SupportedStreamConfig>)
    ensures
        views(r@) == expand_all(ranges@),
{
    let mut configs: Vec<SupportedStreamConfig> = Vec::new();
    let mut i: usize = 0;
    while i < ranges.len()
        invariant
            i <= ranges.len(),
            views(configs@) == expand_all(ranges@.take(i as int)),
        decreases ranges.len() - i,
    {
        let mut formats = expand_sample_rates(ranges[i]);
        let ghost before = configs@;
        configs.append(&mut formats);
        proof {
            lemma_expand_all_in_order(ranges@, i as int);
            assert(views(configs@) =~= views(before) + expansion(ranges@[i as int]@));
        }
        i = i + 1;
    }
    proof {
        assert(ranges@.take(ranges.len() as int) =~= ranges@);
    }
    configs
}

/// The stream configurations to fall back on, in the order in which they are tried.
pub fn fallback_configs(ranges: &Vec<SupportedStreamConfigRange>) -> (r: Vec<OutputStreamConfig>)
    ensures
        r@ == attempts(expand_all(ranges@)),
{
    let supported = supported_output_configs(ranges);
    let mut configs: Vec<OutputStreamConfig> = Vec::new();
    let mut i: usize = 0;
    while i < supported.len()
        invariant
            i <= supported.len(),
            configs@ == attempts(views(supported@).take(i as int)),
        decreases supported.len() - i,
    {
        configs.push(OutputStreamConfig::from_supported(&supported[i]));
        proof {
            assert(configs@ =~= attempts(views(supported@).take(i as int + 1)));
        }
        i = i + 1;
    }
    proof {
        assert(views(supported@).take(supported.len() as int) =~= views(supported@));
    }
    configs
}

} // verus!
