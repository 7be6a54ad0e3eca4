//! One publishing cycle, planned as an ordered list of steps: for each asset
//! in turn, either a skip (its fetch failed) or a webhook post, a channel
//! rename and the pause between assets; then the pause before the next cycle.

use vstd::prelude::*;
use crate::assets::Asset;
use crate::fetch::{is_success, lemma_status_failure_is_network_failure, snapshot_of, FetchError};
use crate::message::{channel_name, channel_name_of, lower_of, price_message, price_message_of};

verus! {

/// The pauses of the loop, in seconds: after each published asset, and
/// after each cycle.
#[derive(Debug, Clone, Copy)]
pub struct Schedule {
    pub step_delay_secs: u64,
    pub cycle_delay_secs: u64,
}

/// One thing the runtime does, in plan order.
#[derive(Debug)]
pub enum Step {
    /// Post the message to the webhook.
    Post { webhook_url: String, message: String },
    /// Rename the chat channel.
    Rename { channel_id: u64, name: String },
    /// The asset's fetch failed: report it and publish nothing for it.
    Skip { symbol: String },
    /// Pause.
    Wait { secs: u64 },
}

/// What a step is, as text and numbers.
pub enum StepView {
    Post { webhook_url: Seq<char>, message: Seq<char> },
    Rename { channel_id: u64, name: Seq<char> },
    Skip { symbol: Seq<char> },
    Wait { secs: u64 },
}

impl View for Step {
    type V = StepView;

    open spec fn view(&self) -> StepView {
        match self {
            Step::Post { webhook_url, message } => StepView::Post {
                webhook_url: webhook_url@,
                message: message@,
            },
            Step::Rename { channel_id, name } => StepView::Rename {
                channel_id: *channel_id,
                name: name@,
            },
            Step::Skip { symbol } => StepView::Skip { symbol: symbol@ },
            Step::Wait { secs } => StepView::Wait { secs: *secs },
        }
    }
}

/// The views of a list of steps.
pub open spec fn views(steps: Seq<Step>) -> Seq<StepView> {
    steps.map_values(|s: Step| s@)
}

/// The pause between assets.
pub const STEP_DELAY_SECS: u64 = 5;

/// The pause between cycles.
pub const CYCLE_DELAY_SECS: u64 = 300;

impl Default for Schedule {
    fn default() -> (r: Schedule)
        ensures
            r.step_delay_secs == STEP_DELAY_SECS,
            r.cycle_delay_secs == CYCLE_DELAY_SECS,
    {
        Schedule { step_delay_secs: STEP_DELAY_SECS, cycle_delay_secs: CYCLE_DELAY_SECS }
    }
}

/// The steps for an asset whose price was fetched.
pub open spec fn published(a: Asset, price_text: Seq<char>, sched: Schedule) -> Seq<StepView> {
    seq![
        StepView::Post {
            webhook_url: a.webhook_url@,
            message: price_message_of(a.emoji@, a.symbol@, price_text),
        },
        StepView::Rename {
            channel_id: a.channel_id,
            name: channel_name_of(a.emoji@, lower_of(a.symbol@), price_text),
        },
        StepView::Wait { secs: sched.step_delay_secs },
    ]
}

/// The steps for one asset, given its snapshot entry.
pub open spec fn asset_steps(a: Asset, quote: Option<String>, sched: Schedule) -> Seq<StepView> {
    match quote {
        Some(p) => published(a, p@, sched),
        None => seq![StepView::Skip { symbol: a.symbol@ }],
    }
}

/// The steps for the assets at positions `lo` up to `hi`, in order.
pub open spec fn steps_between(
    assets: Seq<Asset>,
    quotes: Seq<Option<String>>,
    sched: Schedule,
    lo: int,
    hi: int,
) -> Seq<StepView>
    decreases hi - lo,
{
    if hi <= lo {
        seq![]
    } else {
        steps_between(assets, quotes, sched, lo, hi - 1) + asset_steps(
            assets[hi - 1],
            quotes[hi - 1],
            sched,
        )
    }
}

/// The whole cycle: every asset in order, then the pause before the next
/// cycle.
pub open spec fn cycle_steps(assets: Seq<Asset>, quotes: Seq<Option<String>>, sched: Schedule) -> Seq<
    StepView,
> {
    steps_between(assets, quotes, sched, 0, assets.len() as int) + seq![
        StepView::Wait { secs: sched.cycle_delay_secs },
    ]
}

/// The steps for one asset.
pub fn plan_asset(asset: &Asset, quote: &Option<String>, schedule: &Schedule) -> (r: Vec<Step>)
    ensures
        views(r@) == asset_steps(*asset, *quote, *schedule),
{
    let mut out: Vec<Step> = Vec::new();
    match quote {
        Some(p) => {
            let message = price_message(asset.emoji.as_str(), asset.symbol.as_str(), p.as_str());
            let name = channel_name(asset.emoji.as_str(), asset.symbol.as_str(), p.as_str());
            out.push(Step::Post { webhook_url: asset.webhook_url.clone(), message });
            out.push(Step::Rename { channel_id: asset.channel_id, name });
            out.push(Step::Wait { secs: schedule.step_delay_secs });
        },
        None => {
            out.push(Step::Skip { symbol: asset.symbol.clone() });
        },
    }
    assert(views(out@) =~= asset_steps(*asset, *quote, *schedule));
    out
}

/// Plans one cycle from the assets and the snapshot of their fetched prices
/// (the price in two-decimal form, or nothing where the fetch failed), the
/// two lists in the same order.
pub fn plan_cycle(assets: &Vec<Asset>, quotes: &Vec<Option<String>>, schedule: &Schedule) -> (r: Vec<
    Step,
>)
    requires
        assets@.len() == quotes@.len(),
    ensures
        views(r@) == cycle_steps(assets@, quotes@, *schedule),
{
    let mut out: Vec<Step> = Vec::new();
    let mut i: usize = 0;
    while i < assets.len()
        invariant
            assets@.len() == quotes@.len(),
            i <= assets@.len(),
            views(out@) == steps_between(assets@, quotes@, *schedule, 0, i as int),
        decreases assets@.len() - i,
    {
        let mut part = plan_asset(&assets[i], &quotes[i], schedule);
        let ghost before = out@;
        let ghost added = part@;
        out.append(&mut part);
        proof {
            assert(views(out@) =~= views(before) + views(added));
        }
        i = i + 1;
    }
    let ghost before = out@;
    out.push(Step::Wait { secs: schedule.cycle_delay_secs });
    assert(views(out@) =~= views(before).push(StepView::Wait { secs: schedule.cycle_delay_secs }));
    out
}

/// The steps of a range of assets are those of its two halves, one after the
/// other.
proof fn lemma_steps_split(
    assets: Seq<Asset>,
    quotes: Seq<Option<String>>,
    sched: Schedule,
    lo: int,
    mid: int,
    hi: int,
)
    requires
        lo <= mid <= hi,
    ensures
        steps_between(assets, quotes, sched, lo, hi) == steps_between(assets, quotes, sched, lo, mid)
            + steps_between(assets, quotes, sched, mid, hi),
    decreases hi - mid,
{
    if hi == mid {
        assert(steps_between(assets, quotes, sched, lo, mid) + steps_between(
            assets,
            quotes,
            sched,
            mid,
            hi,
        ) =~= steps_between(assets, quotes, sched, lo, mid));
    } else {
        lemma_steps_split(assets, quotes, sched, lo, mid, hi - 1);
        assert(steps_between(assets, quotes, sched, lo, hi) =~= steps_between(
            assets,
            quotes,
            sched,
            lo,
            mid,
        ) + steps_between(assets, quotes, sched, mid, hi));
    }
}

/// Where every asset of a range has a price, its steps are three per asset,
/// in the assets' order.
proof fn lemma_steps_all_published(
    assets: Seq<Asset>,
    quotes: Seq<Option<String>>,
    sched: Schedule,
    lo: int,
    hi: int,
)
    requires
        0 <= lo <= hi <= assets.len(),
        assets.len() == quotes.len(),
        forall|i: int| lo <= i < hi ==> (#[trigger] quotes[i]) is Some,
    ensures
        steps_between(assets, quotes, sched, lo, hi).len() == 3 * (hi - lo),
        forall|i: int|
            lo <= i < hi ==> steps_between(assets, quotes, sched, lo, hi).subrange(
                3 * (i - lo),
                3 * (i - lo) + 3,
            ) == #[trigger] asset_steps(assets[i], quotes[i], sched),
    decreases hi - lo,
{
    if hi > lo {
        lemma_steps_all_published(assets, quotes, sched, lo, hi - 1);
        let front = steps_between(assets, quotes, sched, lo, hi - 1);
        let last = asset_steps(assets[hi - 1], quotes[hi - 1], sched);
        let all = steps_between(assets, quotes, sched, lo, hi);
        assert(quotes[hi - 1] is Some);
        assert(all == front + last);
        assert forall|i: int| lo <= i < hi implies all.subrange(3 * (i - lo), 3 * (i - lo) + 3)
            == #[trigger] asset_steps(assets[i], quotes[i], sched) by {
            if i < hi - 1 {
                assert(front.subrange(3 * (i - lo), 3 * (i - lo) + 3) == asset_steps(
                    assets[i],
                    quotes[i],
                    sched,
                ));
                assert(all.subrange(3 * (i - lo), 3 * (i - lo) + 3) =~= front.subrange(
                    3 * (i - lo),
                    3 * (i - lo) + 3,
                ));
            } else {
                assert(all.subrange(3 * (i - lo), 3 * (i - lo) + 3) =~= last);
            }
        }
    }
}

/// When every fetch of a cycle succeeds, each asset in turn gets a webhook
/// post, a channel rename and the pause between assets, in the assets'
/// order, and the cycle ends with the pause before the next one.
pub proof fn lemma_all_fetched_publishes_in_order(
    assets: Seq<Asset>,
    quotes: Seq<Option<String>>,
    sched: Schedule,
)
    requires
        assets.len() == quotes.len(),
        forall|i: int| 0 <= i < quotes.len() ==> (#[trigger] quotes[i]) is Some,
    ensures
        cycle_steps(assets, quotes, sched).len() == 3 * assets.len() + 1,
        forall|i: int|
            0 <= i < assets.len() ==> cycle_steps(assets, quotes, sched).subrange(3 * i, 3 * i + 3)
                == #[trigger] published(assets[i], quotes[i]->0@, sched),
        cycle_steps(assets, quotes, sched)[3 * assets.len() as int] == (StepView::Wait {
            secs: sched.cycle_delay_secs,
        }),
{
    let n = assets.len() as int;
    lemma_steps_all_published(assets, quotes, sched, 0, n);
    let body = steps_between(assets, quotes, sched, 0, n);
    let all = cycle_steps(assets, quotes, sched);
    assert forall|i: int| 0 <= i < n implies all.subrange(3 * i, 3 * i + 3) == #[trigger] published(
        assets[i],
        quotes[i]->0@,
        sched,
    ) by {
        assert(quotes[i] is Some);
        assert(body.subrange(3 * i, 3 * i + 3) == asset_steps(assets[i], quotes[i], sched));
        assert(all.subrange(3 * i, 3 * i + 3) =~= body.subrange(3 * i, 3 * i + 3));
    }
}

/// When the fetch of one asset fails and the others succeed, that asset gets
/// a single skip and no post or rename, and every other asset gets its post,
/// rename and pause, in order.
pub proof fn lemma_failed_fetch_skips_only_that_asset(
    assets: Seq<Asset>,
    quotes: Seq<Option<String>>,
    sched: Schedule,
    k: int,
)
    requires
        assets.len() == quotes.len(),
        0 <= k < assets.len(),
        quotes[k] is None,
        forall|i: int| 0 <= i < quotes.len() && i != k ==> (#[trigger] quotes[i]) is Some,
    ensures
        cycle_steps(assets, quotes, sched).len() == 3 * assets.len() - 1,
        forall|i: int|
            0 <= i < k ==> cycle_steps(assets, quotes, sched).subrange(3 * i, 3 * i + 3)
                == #[trigger] published(assets[i], quotes[i]->0@, sched),
        cycle_steps(assets, quotes, sched)[3 * k] == (StepView::Skip { symbol: assets[k].symbol@ }),
        forall|i: int|
            k < i < assets.len() ==> cycle_steps(assets, quotes, sched).subrange(
                3 * i - 2,
                3 * i + 1,
            ) == #[trigger] published(assets[i], quotes[i]->0@, sched),
        cycle_steps(assets, quotes, sched)[3 * assets.len() - 2] == (StepView::Wait {
            secs: sched.cycle_delay_secs,
        }),
{
    let n = assets.len() as int;
    lemma_steps_split(assets, quotes, sched, 0, k, n);
    lemma_steps_split(assets, quotes, sched, k, k + 1, n);
    lemma_steps_all_published(assets, quotes, sched, 0, k);
    lemma_steps_all_published(assets, quotes, sched, k + 1, n);
    let before = steps_between(assets, quotes, sched, 0, k);
    let skip = steps_between(assets, quotes, sched, k, k + 1);
    let after = steps_between(assets, quotes, sched, k + 1, n);
    let tail = seq![StepView::Wait { secs: sched.cycle_delay_secs }];
    let all = cycle_steps(assets, quotes, sched);
    assert(steps_between(assets, quotes, sched, k, k) =~= Seq::<StepView>::empty());
    assert(skip == steps_between(assets, quotes, sched, k, k) + asset_steps(
        assets[k],
        quotes[k],
        sched,
    ));
    assert(skip =~= seq![StepView::Skip { symbol: assets[k].symbol@ }]);
    assert(all == before + skip + after + tail);
    assert forall|i: int| 0 <= i < k implies all.subrange(3 * i, 3 * i + 3) == #[trigger] published(
        assets[i],
        quotes[i]->0@,
        sched,
    ) by {
        assert(quotes[i] is Some);
        assert(before.subrange(3 * i, 3 * i + 3) == asset_steps(assets[i], quotes[i], sched));
        assert(all.subrange(3 * i, 3 * i + 3) =~= before.subrange(3 * i, 3 * i + 3));
    }
    assert forall|i: int| k < i < n implies all.subrange(3 * i - 2, 3 * i + 1) == #[trigger] published(
        assets[i],
        quotes[i]->0@,
        sched,
    ) by {
        assert(quotes[i] is Some);
        assert(after.subrange(3 * (i - (k + 1)), 3 * (i - (k + 1)) + 3) == asset_steps(
            assets[i],
            quotes[i],
            sched,
        ));
        assert(all.subrange(3 * i - 2, 3 * i + 1) =~= after.subrange(
            3 * (i - (k + 1)),
            3 * (i - (k + 1)) + 3,
        ));
    }
}

/// A fetch answered with a status that is not a success plans the same
/// cycle as a fetch that failed on the network: the asset is skipped alike.
pub proof fn lemma_status_failure_plans_as_network_failure(
    assets: Seq<Asset>,
    results: Seq<Result<String, FetchError>>,
    sched: Schedule,
    k: int,
    code: u16,
)
    requires
        0 <= k < results.len(),
        !is_success(code),
    ensures
        cycle_steps(assets, snapshot_of(results.update(k, Err(FetchError::Status(code)))), sched)
            == cycle_steps(assets, snapshot_of(results.update(k, Err(FetchError::Network))), sched),
{
    lemma_status_failure_is_network_failure(results, k, code);
}

} // verus!
