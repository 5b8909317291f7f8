//! Market book cache: the state of one market, folded from its market changes.
use vstd::prelude::*;

use crate::keyed::{
    RunnerKey, find_runner_key, has_key, key_pos, lemma_key_pos, lemma_push_unique,
    lemma_update_unique, lemma_upsert_other, lemma_upsert_unique, lemma_upsert_value,
    unique_keys, upsert, value_of,
};
use crate::ladder::Size;
use crate::messages::{
    MarketChange, MarketDefinition, MarketDefinitionView, MarketId, RunnerChange, RunnerDefinition,
    StreamMarketDefinitionStatus, Timestamp,
};
use crate::runner_book::{
    RunnerBookCache, RunnerBookView, runner_from_change, runner_from_definition,
    runner_with_change, saturating_sum,
};

verus! {

/// The cached state of one market.
#[derive(Clone, Debug, PartialEq, Eq)]
pub struct MarketBookCache {
    market_id: MarketId,
    publish_time: Timestamp,
    active: bool,
    total_matched: Size,
    market_definition: Option<MarketDefinition>,
    runners: Vec<(RunnerKey, RunnerBookCache)>,
}

/// The runners of a market, keyed by selection id and handicap.
pub type RunnersView = Seq<(RunnerKey, RunnerBookView)>;

/// What a market book holds, as a mathematical value.
#[verifier::ext_equal]
pub struct MarketBookView {
    pub market_id: Seq<char>,
    pub publish_time: Timestamp,
    pub active: bool,
    pub total_matched: Size,
    pub market_definition: Option<MarketDefinitionView>,
    pub runners: RunnersView,
}

/// The runners of a vector of keyed runner books, as mathematical values.
pub open spec fn runners_view(v: Seq<(RunnerKey, RunnerBookCache)>) -> RunnersView {
    v.map_values(|e: (RunnerKey, RunnerBookCache)| (e.0, e.1@))
}

/// The view of an optional market definition.
pub open spec fn opt_definition_view(d: Option<MarketDefinition>) -> Option<MarketDefinitionView> {
    match d {
        Some(x) => Some(x@),
        None => None,
    }
}

impl View for MarketBookCache {
    type V = MarketBookView;

    closed spec fn view(&self) -> MarketBookView {
        MarketBookView {
            market_id: self.market_id@,
            publish_time: self.publish_time,
            active: self.active,
            total_matched: self.total_matched,
            market_definition: opt_definition_view(self.market_definition),
            runners: runners_view(self.runners@),
        }
    }
}

impl MarketBookView {
    /// No runner key occurs twice and every runner book is well formed.
    pub open spec fn wf(self) -> bool {
        &&& unique_keys(self.runners)
        &&& forall|i: int| 0 <= i < self.runners.len() ==> (#[trigger] self.runners[i]).1.wf()
    }
}

/// The runners after one runner change: a change without selection id is
/// ignored; a change for a known runner is applied to it; a change for an
/// unknown runner adds the runner it describes. The flag tells whether a known
/// runner received a traded ladder.
pub open spec fn runners_with_change(rs: RunnersView, rc: RunnerChange) -> (RunnersView, bool) {
    match rc.id {
        None => (rs, false),
        Some(id) => {
            let k = (id, rc.handicap);
            if has_key(rs, k) {
                let i = key_pos(rs, k);
                (rs.update(i, (k, runner_with_change(rs[i].1, rc))), rc.traded.is_some())
            } else {
                (rs.push((k, runner_from_change(rc))), false)
            }
        },
    }
}

/// The runners after runner changes applied in order, and whether any of them
/// gave a known runner a traded ladder.
pub open spec fn runners_with_changes(rs: RunnersView, rcs: Seq<RunnerChange>) -> (
    RunnersView,
    bool,
)
    decreases rcs.len(),
{
    if rcs.len() == 0 {
        (rs, false)
    } else {
        let prev = runners_with_changes(rs, rcs.drop_last());
        let next = runners_with_change(prev.0, rcs.last());
        (next.0, prev.1 || next.1)
    }
}

/// The total matched of all runners (a runner without one counts as zero),
/// added up in order, each addition capped at the largest size.
pub open spec fn runners_total(rs: RunnersView) -> Size
    decreases rs.len(),
{
    if rs.len() == 0 {
        0
    } else {
        let t = match rs.last().1.total_matched {
            Some(x) => x,
            None => 0,
        };
        saturating_sum(runners_total(rs.drop_last()), t)
    }
}

/// A market book after a market change published at `publish_time`: a new
/// definition or total matched replaces the old one, the runner changes are
/// applied in order, and when one of them traded on a known runner the total
/// matched is recomputed from the runners.
pub open spec fn market_with_change(
    m: MarketBookView,
    mc: MarketChange,
    publish_time: Timestamp,
    active: bool,
) -> MarketBookView {
    let rcs = match mc.runner_change {
        Some(v) => v@,
        None => Seq::empty(),
    };
    let (runners, traded) = runners_with_changes(m.runners, rcs);
    MarketBookView {
        market_id: m.market_id,
        publish_time,
        active,
        total_matched: if traded {
            runners_total(runners)
        } else {
            match mc.total_value {
                Some(tv) => tv,
                None => m.total_matched,
            }
        },
        market_definition: match mc.market_definition {
            Some(d) => Some(d@),
            None => m.market_definition,
        },
        runners,
    }
}

/// The runners after the runner definitions of a market definition, in order:
/// a definition without selection id is ignored; a definition of a known runner
/// replaces its definition; a definition of an unknown runner adds it.
pub open spec fn runners_with_definitions(rs: RunnersView, defs: Seq<RunnerDefinition>) -> RunnersView
    decreases defs.len(),
{
    if defs.len() == 0 {
        rs
    } else {
        let prev = runners_with_definitions(rs, defs.drop_last());
        let d = defs.last();
        match d.id {
            None => prev,
            Some(id) => {
                let k = (id, d.handicap);
                if has_key(prev, k) {
                    let i = key_pos(prev, k);
                    prev.update(i, (k, RunnerBookView { definition: Some(d), ..prev[i].1 }))
                } else {
                    prev.push((k, runner_from_definition(d)))
                }
            },
        }
    }
}

/// Whether a market book counts as closed: it has no definition, or the status
/// of its definition is not open.
pub open spec fn market_closed(m: MarketBookView) -> bool {
    match m.market_definition {
        Some(d) => d.status != StreamMarketDefinitionStatus::Open,
        None => true,
    }
}

/// A market change replaces the book's market definition with the one it
/// carries, whatever definition the book held, and keeps the old one when it
/// carries none; the book then counts as closed exactly when that definition
/// is missing or not open. The book takes the change's publish time and
/// activity, and keeps its market id.
pub proof fn law_market_change_replaces_definition(
    m: MarketBookView,
    mc: MarketChange,
    publish_time: Timestamp,
    active: bool,
)
    ensures
        ({
            let n = market_with_change(m, mc, publish_time, active);
            &&& mc.market_definition matches Some(d) ==> n.market_definition == Some(d@)
                && market_closed(n) == (d.status != StreamMarketDefinitionStatus::Open)
            &&& mc.market_definition is None ==> n.market_definition == m.market_definition
                && market_closed(n) == market_closed(m)
            &&& n.publish_time == publish_time
            &&& n.active == active
            &&& n.market_id == m.market_id
        }),
{
}

/// A runner change that names a runner touches that runner alone: a known
/// runner gets the change folded into its book, an unknown one is added with
/// the book the change creates, and every other runner stays as it was.
pub proof fn law_runner_change_touches_only_its_runner(
    rs: RunnersView,
    rc: RunnerChange,
    other: RunnerKey,
)
    requires
        unique_keys(rs),
        rc.id.is_some(),
        other != (rc.id.unwrap(), rc.handicap),
    ensures
        ({
            let k = (rc.id.unwrap(), rc.handicap);
            let n = runners_with_change(rs, rc).0;
            &&& unique_keys(n)
            &&& has_key(n, k)
            &&& value_of(n, k) == (if has_key(rs, k) {
                runner_with_change(value_of(rs, k), rc)
            } else {
                runner_from_change(rc)
            })
            &&& has_key(n, other) == has_key(rs, other)
            &&& has_key(rs, other) ==> value_of(n, other) == value_of(rs, other)
        }),
{
    let k = (rc.id.unwrap(), rc.handicap);
    let v = if has_key(rs, k) {
        runner_with_change(value_of(rs, k), rc)
    } else {
        runner_from_change(rc)
    };
    assert(runners_with_change(rs, rc).0 == upsert(rs, k, v));
    lemma_upsert_unique(rs, k, v);
    lemma_upsert_value(rs, k, v);
    lemma_upsert_other(rs, k, v, other);
}

/// A market change without runner changes leaves the runners as they were,
/// and sets the total matched to the total value it carries, or keeps the old
/// total when it carries none.
pub proof fn law_market_change_without_runners_sets_total(
    m: MarketBookView,
    mc: MarketChange,
    publish_time: Timestamp,
    active: bool,
)
    requires
        mc.runner_change is None,
    ensures
        ({
            let n = market_with_change(m, mc, publish_time, active);
            &&& n.runners == m.runners
            &&& n.total_matched == (if mc.total_value.is_some() {
                mc.total_value.unwrap()
            } else {
                m.total_matched
            })
        }),
{
    assert(runners_with_changes(m.runners, Seq::<RunnerChange>::empty()) == (m.runners, false));
}

/// A runner definition that names a runner sets that runner's definition,
/// keeping the rest of its book, or adds the runner with the book the
/// definition creates; every other runner stays as it was.
pub proof fn law_runner_definition_sets_its_runner(
    rs: RunnersView,
    d: RunnerDefinition,
    other: RunnerKey,
)
    requires
        unique_keys(rs),
        d.id.is_some(),
        other != (d.id.unwrap(), d.handicap),
    ensures
        ({
            let k = (d.id.unwrap(), d.handicap);
            let n = runners_with_definitions(rs, seq![d]);
            &&& unique_keys(n)
            &&& has_key(n, k)
            &&& value_of(n, k) == (if has_key(rs, k) {
                RunnerBookView { definition: Some(d), ..value_of(rs, k) }
            } else {
                runner_from_definition(d)
            })
            &&& has_key(n, other) == has_key(rs, other)
            &&& has_key(rs, other) ==> value_of(n, other) == value_of(rs, other)
        }),
{
    let k = (d.id.unwrap(), d.handicap);
    let one = seq![d];
    assert(one.drop_last() =~= Seq::<RunnerDefinition>::empty());
    assert(one.last() == d);
    let v = if has_key(rs, k) {
        RunnerBookView { definition: Some(d), ..value_of(rs, k) }
    } else {
        runner_from_definition(d)
    };
    assert(runners_with_definitions(rs, one.drop_last()) == rs);
    assert(runners_with_definitions(rs, one) == upsert(rs, k, v));
    lemma_upsert_unique(rs, k, v);
    lemma_upsert_value(rs, k, v);
    lemma_upsert_other(rs, k, v, other);
}

impl MarketBookCache {
    /// No runner key occurs twice and every runner book is well formed.
    pub open spec fn wf(&self) -> bool {
        self@.wf()
    }

    /// Creates an empty, active market book.
    pub fn new(market_id: MarketId, publish_time: Timestamp) -> (r: Self)
        ensures
            r@ == (MarketBookView {
                market_id: market_id@,
                publish_time,
                active: true,
                total_matched: 0,
                market_definition: None,
                runners: Seq::empty(),
            }),
            r.wf(),
    {
        let r = MarketBookCache {
            market_id,
            active: true,
            publish_time,
            market_definition: None,
            total_matched: 0,
            runners: Vec::new(),
        };
        proof {
            assert(runners_view(r.runners@) =~= Seq::empty());
        }
        r
    }

    /// Whether the market counts as closed.
    pub fn is_closed(&self) -> (r: bool)
        ensures
            r == market_closed(self@),
    {
        match &self.market_definition {
            Some(d) => d.status != StreamMarketDefinitionStatus::Open,
            None => true,
        }
    }

    /// Applies a market change published at `publish_time`.
    pub fn update_cache(&mut self, market_change: MarketChange, publish_time: Timestamp, active: bool)
        requires
            old(self).wf(),
        ensures
            final(self)@ == market_with_change(old(self)@, market_change, publish_time, active),
            final(self).wf(),
    {
        let ghost mc = market_change;
        let ghost old_runners = self@.runners;
        self.active = active;
        self.publish_time = publish_time;
        let MarketChange { market_id: _, full_image: _, conflated: _, total_value, market_definition, runner_change } =
            market_change;
        if let Some(market_definition) = market_definition {
            self.market_definition = Some(market_definition);
        }
        if let Some(tv) = total_value {
            self.total_matched = tv;
        }
        let mut calculate_total_matched = false;
        let ghost md = self.market_definition;
        let ghost tm = self.total_matched;
        if let Some(rc) = runner_change {
            let mut i: usize = 0;
            while i < rc.len()
                invariant
                    0 <= i <= rc@.len(),
                    self.wf(),
                    self.market_definition == md,
                    self.total_matched == tm,
                    self.active == active,
                    self.publish_time == publish_time,
                    self.market_id == old(self).market_id,
                    (runners_view(self.runners@), calculate_total_matched) == runners_with_changes(
                        old_runners,
                        rc@.take(i as int),
                    ),
                decreases rc@.len() - i,
            {
                proof {
                    assert(rc@.take(i + 1).drop_last() == rc@.take(i as int));
                }
                let runner_change = &rc[i];
                self.apply_runner_change(runner_change, &mut calculate_total_matched);
                i = i + 1;
            }
            proof {
                assert(rc@.take(rc@.len() as int) == rc@);
            }
        } else {
            proof {
                assert(runners_with_changes(old_runners, Seq::empty()) == (old_runners, false));
            }
        }
        if calculate_total_matched {
            self.total_matched = self.sum_total_matched();
        }
        proof {
            assert(self@ =~= market_with_change(old(self)@, mc, publish_time, active));
        }
    }

    /// Applies one runner change to the runners; sets `traded` when a known
    /// runner received a traded ladder.
    fn apply_runner_change(&mut self, rc: &RunnerChange, traded: &mut bool)
        requires
            old(self).wf(),
        ensures
            final(self).wf(),
            (runners_view(final(self).runners@), *final(traded)) == ({
                let next = runners_with_change(runners_view(old(self).runners@), *rc);
                (next.0, *old(traded) || next.1)
            }),
            final(self).market_id == old(self).market_id,
            final(self).publish_time == old(self).publish_time,
            final(self).active == old(self).active,
            final(self).total_matched == old(self).total_matched,
            final(self).market_definition == old(self).market_definition,
    {
        let ghost rs = runners_view(self.runners@);
        let selection_id = match rc.id {
            Some(id) => id,
            None => {
                return ;
            },
        };
        let key: RunnerKey = (selection_id, rc.handicap);
        match find_runner_key(&self.runners, &key) {
            Some(i) => {
                proof {
                    assert(rs[i as int].0 == key);
                    lemma_key_pos(rs, key, i as int);
                }
                let entry = &mut self.runners[i];
                let t = entry.1.apply_change(rc);
                if t {
                    *traded = true;
                }
                proof {
                    lemma_update_unique(rs, i as int, runner_with_change(rs[i as int].1, *rc));
                    assert(runners_view(self.runners@) =~= rs.update(
                        i as int,
                        (key, runner_with_change(rs[i as int].1, *rc)),
                    ));
                }
            },
            None => {
                proof {
                    assert(!has_key(rs, key)) by {
                        if has_key(rs, key) {
                            let j = key_pos(rs, key);
                            assert(self.runners@[j].0 == key);
                        }
                    }
                    lemma_push_unique(rs, key, runner_from_change(*rc));
                }
                let runner = RunnerBookCache::from_change(rc);
                self.runners.push((key, runner));
                proof {
                    assert(runners_view(self.runners@) =~= rs.push((key, runner_from_change(*rc))));
                }
            },
        }
    }

    /// The total matched of all runners.
    fn sum_total_matched(&self) -> (r: Size)
        ensures
            r == runners_total(runners_view(self.runners@)),
    {
        let mut total: Size = 0;
        let mut i: usize = 0;
        while i < self.runners.len()
            invariant
                0 <= i <= self.runners@.len(),
                total == runners_total(runners_view(self.runners@).take(i as int)),
            decreases self.runners@.len() - i,
        {
            proof {
                assert(runners_view(self.runners@).take(i + 1).drop_last() == runners_view(
                    self.runners@,
                ).take(i as int));
            }
            let t = match self.runners[i].1.total_matched() {
                Some(x) => x,
                None => 0,
            };
            total = total.saturating_add(t);
            i = i + 1;
        }
        proof {
            assert(runners_view(self.runners@).take(self.runners@.len() as int) == runners_view(
                self.runners@,
            ));
        }
        total
    }

    /// Replaces the market definition and applies its runner definitions.
    pub fn update_market_definition(&mut self, market_definition: MarketDefinition)
        requires
            old(self).wf(),
        ensures
            final(self)@ == (MarketBookView {
                market_definition: Some(market_definition@),
                runners: runners_with_definitions(old(self)@.runners, market_definition@.runners),
                ..old(self)@
            }),
            final(self).wf(),
    {
        let ghost old_runners = self@.runners;
        let mut i: usize = 0;
        while i < market_definition.runners.len()
            invariant
                0 <= i <= market_definition.runners@.len(),
                self.wf(),
                runners_view(self.runners@) == runners_with_definitions(
                    old_runners,
                    market_definition.runners@.take(i as int),
                ),
                self.market_id == old(self).market_id,
                self.publish_time == old(self).publish_time,
                self.active == old(self).active,
                self.total_matched == old(self).total_matched,
                self.market_definition == old(self).market_definition,
            decreases market_definition.runners@.len() - i,
        {
            proof {
                assert(market_definition.runners@.take(i + 1).drop_last()
                    == market_definition.runners@.take(i as int));
            }
            let runner_definition = market_definition.runners[i];
            self.apply_runner_definition(runner_definition);
            i = i + 1;
        }
        proof {
            assert(market_definition.runners@.take(market_definition.runners@.len() as int)
                == market_definition.runners@);
        }
        self.market_definition = Some(market_definition);
    }

    /// Applies one runner definition to the runners.
    fn apply_runner_definition(&mut self, d: RunnerDefinition)
        requires
            old(self).wf(),
        ensures
            final(self).wf(),
            runners_view(final(self).runners@) == ({
                let rs = runners_view(old(self).runners@);
                match d.id {
                    None => rs,
                    Some(id) => {
                        let k = (id, d.handicap);
                        if has_key(rs, k) {
                            let i = key_pos(rs, k);
                            rs.update(i, (k, RunnerBookView { definition: Some(d), ..rs[i].1 }))
                        } else {
                            rs.push((k, runner_from_definition(d)))
                        }
                    },
                }
            }),
            final(self).market_id == old(self).market_id,
            final(self).publish_time == old(self).publish_time,
            final(self).active == old(self).active,
            final(self).total_matched == old(self).total_matched,
            final(self).market_definition == old(self).market_definition,
    {
        let ghost rs = runners_view(self.runners@);
        let selection_id = match d.id {
            Some(id) => id,
            None => {
                return ;
            },
        };
        let key: RunnerKey = (selection_id, d.handicap);
        match find_runner_key(&self.runners, &key) {
            Some(i) => {
                proof {
                    assert(rs[i as int].0 == key);
                    lemma_key_pos(rs, key, i as int);
                }
                let entry = &mut self.runners[i];
                entry.1.set_definition(d);
                proof {
                    let nv = RunnerBookView { definition: Some(d), ..rs[i as int].1 };
                    lemma_update_unique(rs, i as int, nv);
                    assert(runners_view(self.runners@) =~= rs.update(i as int, (key, nv)));
                }
            },
            None => {
                proof {
                    assert(!has_key(rs, key)) by {
                        if has_key(rs, key) {
                            let j = key_pos(rs, key);
                            assert(self.runners@[j].0 == key);
                        }
                    }
                    lemma_push_unique(rs, key, runner_from_definition(d));
                }
                let runner = match RunnerBookCache::new_from_runner_definition(d) {
                    Ok(r) => r,
                    Err(_) => {
                        return ;
                    },
                };
                self.runners.push((key, runner));
                proof {
                    assert(runners_view(self.runners@) =~= rs.push((key, runner_from_definition(d))));
                }
            },
        }
    }

    /// The publish time of the last change.
    pub fn publish_time(&self) -> (r: Timestamp)
        ensures
            r == self@.publish_time,
    {
        self.publish_time
    }

    /// The runners of the market, keyed by selection id and handicap.
    pub fn runners(&self) -> (r: &Vec<(RunnerKey, RunnerBookCache)>)
        ensures
            runners_view(r@) == self@.runners,
    {
        &self.runners
    }

    /// The market definition, once one has been seen.
    pub fn market_definition(&self) -> (r: Option<&MarketDefinition>)
        ensures
            match r {
                Some(d) => self@.market_definition == Some(d@),
                None => self@.market_definition.is_none(),
            },
    {
        self.market_definition.as_ref()
    }

    /// The id of the market.
    pub fn market_id(&self) -> (r: &MarketId)
        ensures
            r@ == self@.market_id,
    {
        &self.market_id
    }

    /// The total matched on the market.
    pub fn total_matched(&self) -> (r: Size)
        ensures
            r == self@.total_matched,
    {
        self.total_matched
    }

    /// Whether the market was active in the last change.
    pub fn active(&self) -> (r: bool)
        ensures
            r == self@.active,
    {
        self.active
    }

    /// A copy of the market book.
    pub fn copy(&self) -> (r: Self)
        ensures
            r@ == self@,
    {
        let mut runners: Vec<(RunnerKey, RunnerBookCache)> = Vec::new();
        let mut i: usize = 0;
        while i < self.runners.len()
            invariant
                0 <= i <= self.runners@.len(),
                runners@.len() == i,
                forall|j: int|
                    0 <= j < i ==> (#[trigger] runners@[j]).0 == self.runners@[j].0
                        && runners@[j].1@ == self.runners@[j].1@,
            decreases self.runners@.len() - i,
        {
            let e = &self.runners[i];
            runners.push((e.0, e.1.copy()));
            i = i + 1;
        }
        proof {
            assert(runners_view(runners@) =~= runners_view(self.runners@));
        }
        let market_definition = match &self.market_definition {
            Some(d) => Some(d.copy()),
            None => None,
        };
        MarketBookCache {
            market_id: self.market_id.clone(),
            publish_time: self.publish_time,
            active: self.active,
            total_matched: self.total_matched,
            market_definition,
            runners,
        }
    }
}

} // verus!
