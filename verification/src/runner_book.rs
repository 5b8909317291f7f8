//! Runner book cache (used for market book Stream API caching)
use vstd::prelude::*;

use crate::available::{
    Available, UpdateSet, all_live, apply_updates, keys_sorted, sorted_image,
};
use crate::ladder::{Position, Price, Size, UpdateSet2, UpdateSet3};
use crate::messages::{Handicap, RunnerChange, RunnerDefinition, SelectionId, copy_vec};

verus! {

/// Why a cache entry could not be built.
#[derive(Clone, Copy, Debug, PartialEq, Eq)]
pub enum CacheError {
    /// The change or definition names no selection id.
    InvalidSelectionId,
}

/// A price/size ladder as a mathematical value.
pub type Ladder2 = Seq<(Price, Size)>;

/// A level/(price, size) ladder as a mathematical value.
pub type Ladder3 = Seq<(Position, (Price, Size))>;

/// Runner book cache (used for market book Stream API caching)
#[derive(Clone, Debug, PartialEq, Eq)]
pub struct RunnerBookCache {
    selection_id: SelectionId,
    last_price_traded: Option<Price>,
    total_matched: Option<Size>,
    traded: Available<UpdateSet2>,
    available_to_back: Available<UpdateSet2>,
    best_available_to_back: Available<UpdateSet3>,
    best_display_available_to_back: Available<UpdateSet3>,
    available_to_lay: Available<UpdateSet2>,
    best_available_to_lay: Available<UpdateSet3>,
    best_display_available_to_lay: Available<UpdateSet3>,
    starting_price_back: Available<UpdateSet2>,
    starting_price_lay: Available<UpdateSet2>,
    starting_price_near: Option<Price>,
    starting_price_far: Option<Price>,
    handicap: Option<Handicap>,
    definition: Option<RunnerDefinition>,
}

/// What a runner book holds, as a mathematical value.
pub struct RunnerBookView {
    pub selection_id: SelectionId,
    pub last_price_traded: Option<Price>,
    pub total_matched: Option<Size>,
    pub traded: Ladder2,
    pub available_to_back: Ladder2,
    pub best_available_to_back: Ladder3,
    pub best_display_available_to_back: Ladder3,
    pub available_to_lay: Ladder2,
    pub best_available_to_lay: Ladder3,
    pub best_display_available_to_lay: Ladder3,
    pub starting_price_back: Ladder2,
    pub starting_price_lay: Ladder2,
    pub starting_price_near: Option<Price>,
    pub starting_price_far: Option<Price>,
    pub handicap: Option<Handicap>,
    pub definition: Option<RunnerDefinition>,
}

impl View for RunnerBookCache {
    type V = RunnerBookView;

    closed spec fn view(&self) -> RunnerBookView {
        RunnerBookView {
            selection_id: self.selection_id,
            last_price_traded: self.last_price_traded,
            total_matched: self.total_matched,
            traded: self.traded.book@,
            available_to_back: self.available_to_back.book@,
            best_available_to_back: self.best_available_to_back.book@,
            best_display_available_to_back: self.best_display_available_to_back.book@,
            available_to_lay: self.available_to_lay.book@,
            best_available_to_lay: self.best_available_to_lay.book@,
            best_display_available_to_lay: self.best_display_available_to_lay.book@,
            starting_price_back: self.starting_price_back.book@,
            starting_price_lay: self.starting_price_lay.book@,
            starting_price_near: self.starting_price_near,
            starting_price_far: self.starting_price_far,
            handicap: self.handicap,
            definition: self.definition,
        }
    }
}

/// A price/size ladder is sorted and holds no zero size.
pub open spec fn ladder2_wf(l: Ladder2) -> bool {
    keys_sorted(l) && all_live::<UpdateSet2>(l)
}

/// A level ladder is sorted and holds no zero size.
pub open spec fn ladder3_wf(l: Ladder3) -> bool {
    keys_sorted(l) && all_live::<UpdateSet3>(l)
}

impl RunnerBookView {
    /// Every ladder of the runner is sorted and holds no zero size.
    pub open spec fn wf(self) -> bool {
        &&& ladder2_wf(self.traded)
        &&& ladder2_wf(self.available_to_back)
        &&& ladder3_wf(self.best_available_to_back)
        &&& ladder3_wf(self.best_display_available_to_back)
        &&& ladder2_wf(self.available_to_lay)
        &&& ladder3_wf(self.best_available_to_lay)
        &&& ladder3_wf(self.best_display_available_to_lay)
        &&& ladder2_wf(self.starting_price_back)
        &&& ladder2_wf(self.starting_price_lay)
    }
}

/// A ladder built from an optional full image (empty when there is none).
pub open spec fn image2(v: Option<Vec<UpdateSet2>>) -> Ladder2 {
    match v {
        Some(x) => sorted_image(x@),
        None => Seq::empty(),
    }
}

/// A level ladder built from an optional full image (empty when there is none).
pub open spec fn image3(v: Option<Vec<UpdateSet3>>) -> Ladder3 {
    match v {
        Some(x) => sorted_image(x@),
        None => Seq::empty(),
    }
}

/// The runner book that a runner change with a selection id creates.
pub open spec fn runner_from_change(rc: RunnerChange) -> RunnerBookView {
    RunnerBookView {
        selection_id: rc.id.unwrap(),
        last_price_traded: rc.last_traded_price,
        total_matched: rc.total_value,
        traded: image2(rc.traded),
        available_to_back: image2(rc.available_to_back),
        best_available_to_back: image3(rc.best_available_to_back),
        best_display_available_to_back: image3(rc.best_display_available_to_back),
        available_to_lay: image2(rc.available_to_lay),
        best_available_to_lay: image3(rc.best_available_to_lay),
        best_display_available_to_lay: image3(rc.best_display_available_to_lay),
        starting_price_back: image2(rc.starting_price_back),
        starting_price_lay: image2(rc.starting_price_lay),
        starting_price_near: rc.starting_price_near,
        starting_price_far: rc.starting_price_far,
        handicap: rc.handicap,
        definition: None,
    }
}

/// The runner book that a runner definition with a selection id creates.
pub open spec fn runner_from_definition(def: RunnerDefinition) -> RunnerBookView {
    RunnerBookView {
        selection_id: def.id.unwrap(),
        last_price_traded: None,
        total_matched: None,
        traded: Seq::empty(),
        available_to_back: Seq::empty(),
        best_available_to_back: Seq::empty(),
        best_display_available_to_back: Seq::empty(),
        available_to_lay: Seq::empty(),
        best_available_to_lay: Seq::empty(),
        best_display_available_to_lay: Seq::empty(),
        starting_price_back: Seq::empty(),
        starting_price_lay: Seq::empty(),
        starting_price_near: None,
        starting_price_far: None,
        handicap: None,
        definition: Some(def),
    }
}

/// `a + b`, capped at the largest size.
pub open spec fn saturating_sum(a: Size, b: Size) -> Size {
    if a + b > u64::MAX {
        u64::MAX
    } else {
        (a + b) as Size
    }
}

/// The sizes of a traded ladder update added up from the left, each addition
/// capped at the largest size.
pub open spec fn traded_volume(t: Seq<UpdateSet2>) -> Size
    decreases t.len(),
{
    if t.len() == 0 {
        0
    } else {
        saturating_sum(traded_volume(t.drop_last()), t.last().1)
    }
}

/// A runner book after a traded ladder update: an empty update clears the
/// traded ladder and sets the total matched to zero; any other update sets the
/// total matched to the volume of the update and is applied to the ladder.
pub open spec fn with_traded(r: RunnerBookView, t: Seq<UpdateSet2>) -> RunnerBookView {
    if t.len() == 0 {
        RunnerBookView { traded: Seq::empty(), total_matched: Some(0), ..r }
    } else {
        RunnerBookView {
            traded: apply_updates(r.traded, t),
            total_matched: Some(traded_volume(t)),
            ..r
        }
    }
}

/// A price/size ladder after an optional update.
pub open spec fn upd2(l: Ladder2, o: Option<Vec<UpdateSet2>>) -> Ladder2 {
    match o {
        Some(v) => apply_updates(l, v@),
        None => l,
    }
}

/// A level ladder after an optional update.
pub open spec fn upd3(l: Ladder3, o: Option<Vec<UpdateSet3>>) -> Ladder3 {
    match o {
        Some(v) => apply_updates(l, v@),
        None => l,
    }
}

/// A runner book after a runner change that names it: the last price traded,
/// total matched and projected starting prices it carries replace the old
/// ones, its traded ladder goes through `with_traded`, and each ladder it
/// carries is applied to the runner's ladder of the same name.
pub open spec fn runner_with_change(r: RunnerBookView, rc: RunnerChange) -> RunnerBookView {
    let r1 = RunnerBookView {
        last_price_traded: match rc.last_traded_price {
            Some(p) => Some(p),
            None => r.last_price_traded,
        },
        total_matched: match rc.total_value {
            Some(v) => Some(v),
            None => r.total_matched,
        },
        starting_price_near: match rc.starting_price_near {
            Some(p) => Some(p),
            None => r.starting_price_near,
        },
        starting_price_far: match rc.starting_price_far {
            Some(p) => Some(p),
            None => r.starting_price_far,
        },
        ..r
    };
    let r2 = match rc.traded {
        Some(t) => with_traded(r1, t@),
        None => r1,
    };
    RunnerBookView {
        available_to_back: upd2(r2.available_to_back, rc.available_to_back),
        available_to_lay: upd2(r2.available_to_lay, rc.available_to_lay),
        best_available_to_back: upd3(r2.best_available_to_back, rc.best_available_to_back),
        best_available_to_lay: upd3(r2.best_available_to_lay, rc.best_available_to_lay),
        best_display_available_to_back: upd3(
            r2.best_display_available_to_back,
            rc.best_display_available_to_back,
        ),
        best_display_available_to_lay: upd3(
            r2.best_display_available_to_lay,
            rc.best_display_available_to_lay,
        ),
        starting_price_back: upd2(r2.starting_price_back, rc.starting_price_back),
        starting_price_lay: upd2(r2.starting_price_lay, rc.starting_price_lay),
        ..r2
    }
}

/// The ladder a change carries applied to the runner's ladder of the same
/// name, or that ladder unchanged when the change carries none.
pub open spec fn ladder2_after(before: Ladder2, carried: Option<Vec<UpdateSet2>>) -> Ladder2 {
    match carried {
        Some(v) => apply_updates(before, v@),
        None => before,
    }
}

/// Each level ladder of a runner after a change is its own ladder updated with
/// the change's ladder of the same name, or unchanged when the change carries
/// none.
pub open spec fn ladder3_after(before: Ladder3, carried: Option<Vec<UpdateSet3>>) -> Ladder3 {
    match carried {
        Some(v) => apply_updates(before, v@),
        None => before,
    }
}

/// A runner change updates each ladder of a known runner with the ladder of
/// the same name that it carries (back with back, lay with lay, best with
/// best, display with display, starting price with starting price) and leaves
/// a ladder it does not carry unchanged; the prices it carries replace the old
/// ones; a traded ladder it carries is applied to the traded ladder (an empty
/// one clears it) and sets the total matched to the volume it carries, which
/// otherwise is the total value it carries, if any; the selection, handicap and
/// definition stay.
pub proof fn law_runner_change_updates_ladders_by_name(r: RunnerBookView, rc: RunnerChange)
    ensures
        ({
            let n = runner_with_change(r, rc);
            &&& n.available_to_back == ladder2_after(r.available_to_back, rc.available_to_back)
            &&& n.available_to_lay == ladder2_after(r.available_to_lay, rc.available_to_lay)
            &&& n.best_available_to_back == ladder3_after(
                r.best_available_to_back,
                rc.best_available_to_back,
            )
            &&& n.best_available_to_lay == ladder3_after(
                r.best_available_to_lay,
                rc.best_available_to_lay,
            )
            &&& n.best_display_available_to_back == ladder3_after(
                r.best_display_available_to_back,
                rc.best_display_available_to_back,
            )
            &&& n.best_display_available_to_lay == ladder3_after(
                r.best_display_available_to_lay,
                rc.best_display_available_to_lay,
            )
            &&& n.starting_price_back == ladder2_after(r.starting_price_back, rc.starting_price_back)
            &&& n.starting_price_lay == ladder2_after(r.starting_price_lay, rc.starting_price_lay)
            &&& n.traded == match rc.traded {
                Some(t) => if t@.len() == 0 {
                    Seq::empty()
                } else {
                    apply_updates(r.traded, t@)
                },
                None => r.traded,
            }
            &&& n.total_matched == match rc.traded {
                Some(t) => Some(traded_volume(t@)),
                None => match rc.total_value {
                    Some(v) => Some(v),
                    None => r.total_matched,
                },
            }
            &&& n.last_price_traded == (if rc.last_traded_price.is_some() {
                rc.last_traded_price
            } else {
                r.last_price_traded
            })
            &&& n.starting_price_near == (if rc.starting_price_near.is_some() {
                rc.starting_price_near
            } else {
                r.starting_price_near
            })
            &&& n.starting_price_far == (if rc.starting_price_far.is_some() {
                rc.starting_price_far
            } else {
                r.starting_price_far
            })
            &&& n.selection_id == r.selection_id
            &&& n.handicap == r.handicap
            &&& n.definition == r.definition
        }),
{
}

/// The sorted image of a ladder a change carries, or an empty ladder when it
/// carries none.
pub open spec fn image2_of(carried: Option<Vec<UpdateSet2>>) -> Ladder2 {
    match carried {
        Some(v) => sorted_image(v@),
        None => Seq::empty(),
    }
}

/// The sorted image of a level ladder a change carries, or an empty ladder
/// when it carries none.
pub open spec fn image3_of(carried: Option<Vec<UpdateSet3>>) -> Ladder3 {
    match carried {
        Some(v) => sorted_image(v@),
        None => Seq::empty(),
    }
}

/// A runner book created from a runner change holds, for each ladder, the
/// sorted image of the change's ladder of the same name (empty when the change
/// carries none), the prices and total value the change carries, its selection
/// id and handicap, and no definition.
pub proof fn law_runner_from_change_builds_ladders_by_name(rc: RunnerChange)
    requires
        rc.id.is_some(),
    ensures
        ({
            let n = runner_from_change(rc);
            &&& n.traded == image2_of(rc.traded)
            &&& n.available_to_back == image2_of(rc.available_to_back)
            &&& n.available_to_lay == image2_of(rc.available_to_lay)
            &&& n.best_available_to_back == image3_of(rc.best_available_to_back)
            &&& n.best_available_to_lay == image3_of(rc.best_available_to_lay)
            &&& n.best_display_available_to_back == image3_of(rc.best_display_available_to_back)
            &&& n.best_display_available_to_lay == image3_of(rc.best_display_available_to_lay)
            &&& n.starting_price_back == image2_of(rc.starting_price_back)
            &&& n.starting_price_lay == image2_of(rc.starting_price_lay)
            &&& n.selection_id == rc.id.unwrap()
            &&& n.handicap == rc.handicap
            &&& n.last_price_traded == rc.last_traded_price
            &&& n.total_matched == rc.total_value
            &&& n.starting_price_near == rc.starting_price_near
            &&& n.starting_price_far == rc.starting_price_far
            &&& n.definition.is_none()
        }),
{
}

fn ladder2_from(v: &Option<Vec<UpdateSet2>>) -> (r: Available<UpdateSet2>)
    ensures
        r.book@ == image2(*v),
        r.wf(),
{
    match v {
        Some(x) => Available::new(x.as_slice()),
        None => Available::new(&[]),
    }
}

fn ladder3_from(v: &Option<Vec<UpdateSet3>>) -> (r: Available<UpdateSet3>)
    ensures
        r.book@ == image3(*v),
        r.wf(),
{
    match v {
        Some(x) => Available::new(x.as_slice()),
        None => Available::new(&[]),
    }
}

fn copy_available2(a: &Available<UpdateSet2>) -> (r: Available<UpdateSet2>)
    ensures
        r.book@ == a.book@,
{
    Available { book: copy_vec(&a.book) }
}

fn copy_available3(a: &Available<UpdateSet3>) -> (r: Available<UpdateSet3>)
    ensures
        r.book@ == a.book@,
{
    Available { book: copy_vec(&a.book) }
}

impl RunnerBookCache {
    /// Every ladder of the runner is sorted and holds no zero size.
    pub open spec fn wf(&self) -> bool {
        self@.wf()
    }

    /// Creates the runner book of a runner change; fails when the change names
    /// no selection id.
    pub fn new_from_runner_change(runner_change: RunnerChange) -> (r: Result<Self, CacheError>)
        ensures
            runner_change.id.is_none() ==> r == Err::<Self, CacheError>(CacheError::InvalidSelectionId),
            runner_change.id.is_some() ==> r.is_ok() && r.unwrap()@ == runner_from_change(runner_change)
                && r.unwrap().wf(),
    {
        match runner_change.id {
            Some(_) => Ok(Self::from_change(&runner_change)),
            None => Err(CacheError::InvalidSelectionId),
        }
    }

    /// The runner book of a runner change that names a selection id.
    pub fn from_change(runner_change: &RunnerChange) -> (r: Self)
        requires
            runner_change.id.is_some(),
        ensures
            r@ == runner_from_change(*runner_change),
            r.wf(),
    {
        RunnerBookCache {
            selection_id: runner_change.id.unwrap(),
            last_price_traded: runner_change.last_traded_price,
            total_matched: runner_change.total_value,
            traded: ladder2_from(&runner_change.traded),
            available_to_back: ladder2_from(&runner_change.available_to_back),
            best_available_to_back: ladder3_from(&runner_change.best_available_to_back),
            best_display_available_to_back: ladder3_from(
                &runner_change.best_display_available_to_back,
            ),
            available_to_lay: ladder2_from(&runner_change.available_to_lay),
            best_available_to_lay: ladder3_from(&runner_change.best_available_to_lay),
            best_display_available_to_lay: ladder3_from(&runner_change.best_display_available_to_lay),
            starting_price_back: ladder2_from(&runner_change.starting_price_back),
            starting_price_lay: ladder2_from(&runner_change.starting_price_lay),
            starting_price_near: runner_change.starting_price_near,
            starting_price_far: runner_change.starting_price_far,
            handicap: runner_change.handicap,
            definition: None,
        }
    }

    /// Applies a runner change that names this runner; tells whether the change
    /// carried a traded ladder.
    pub fn apply_change(&mut self, rc: &RunnerChange) -> (traded: bool)
        requires
            old(self).wf(),
        ensures
            final(self)@ == runner_with_change(old(self)@, *rc),
            final(self).wf(),
            traded == rc.traded.is_some(),
    {
        if let Some(ltp) = rc.last_traded_price {
            self.set_last_price_traded(ltp);
        }
        if let Some(tv) = rc.total_value {
            self.set_total_matched(tv);
        }
        if let Some(spn) = rc.starting_price_near {
            self.set_starting_price_near(spn);
        }
        if let Some(spf) = rc.starting_price_far {
            self.set_starting_price_far(spf);
        }
        let mut traded = false;
        if let Some(trd) = &rc.traded {
            self.update_traded(trd.as_slice());
            traded = true;
        }
        if let Some(atb) = &rc.available_to_back {
            self.update_available_to_back(atb.as_slice());
        }
        if let Some(atl) = &rc.available_to_lay {
            self.update_available_to_lay(atl.as_slice());
        }
        if let Some(batb) = &rc.best_available_to_back {
            self.update_best_available_to_back(batb.as_slice());
        }
        if let Some(batl) = &rc.best_available_to_lay {
            self.update_best_available_to_lay(batl.as_slice());
        }
        if let Some(bdatb) = &rc.best_display_available_to_back {
            self.update_best_display_available_to_back(bdatb.as_slice());
        }
        if let Some(bdatl) = &rc.best_display_available_to_lay {
            self.update_best_display_available_to_lay(bdatl.as_slice());
        }
        if let Some(spb) = &rc.starting_price_back {
            self.update_starting_price_back(spb.as_slice());
        }
        if let Some(spl) = &rc.starting_price_lay {
            self.update_starting_price_lay(spl.as_slice());
        }
        traded
    }

    /// Creates the runner book of a runner definition; fails when the
    /// definition names no selection id.
    pub fn new_from_runner_definition(runner_definition: RunnerDefinition) -> (r: Result<
        Self,
        CacheError,
    >)
        ensures
            runner_definition.id.is_none() ==> r == Err::<Self, CacheError>(CacheError::InvalidSelectionId),
            runner_definition.id.is_some() ==> r.is_ok() && r.unwrap()@ == runner_from_definition(
                runner_definition,
            ) && r.unwrap().wf(),
    {
        let selection_id = match runner_definition.id {
            Some(id) => id,
            None => {
                return Err(CacheError::InvalidSelectionId);
            },
        };
        Ok(
            RunnerBookCache {
                selection_id,
                last_price_traded: None,
                total_matched: None,
                traded: Available::new(&[]),
                available_to_back: Available::new(&[]),
                best_available_to_back: Available::new(&[]),
                best_display_available_to_back: Available::new(&[]),
                available_to_lay: Available::new(&[]),
                best_available_to_lay: Available::new(&[]),
                best_display_available_to_lay: Available::new(&[]),
                starting_price_back: Available::new(&[]),
                starting_price_lay: Available::new(&[]),
                starting_price_near: None,
                starting_price_far: None,
                handicap: None,
                definition: Some(runner_definition),
            },
        )
    }

    /// Applies a traded ladder update and sets the total matched from it.
    pub fn update_traded(&mut self, traded: &[UpdateSet2])
        requires
            old(self).wf(),
        ensures
            final(self)@ == with_traded(old(self)@, traded@),
            final(self).wf(),
    {
        if traded.len() == 0 {
            self.traded.clear();
            self.total_matched = Some(0);
            return ;
        }
        let mut total: Size = 0;
        let mut i: usize = 0;
        while i < traded.len()
            invariant
                0 <= i <= traded@.len(),
                total == traded_volume(traded@.take(i as int)),
            decreases traded@.len() - i,
        {
            proof {
                assert(traded@.take(i + 1).drop_last() == traded@.take(i as int));
            }
            total = total.saturating_add(traded[i].1);
            i = i + 1;
        }
        proof {
            assert(traded@.take(traded@.len() as int) == traded@);
        }
        self.total_matched = Some(total);
        self.traded.update(traded);
    }

    /// Sets the runner definition.
    pub fn set_definition(&mut self, new_def: RunnerDefinition)
        ensures
            final(self)@ == (RunnerBookView { definition: Some(new_def), ..old(self)@ }),
    {
        self.definition = Some(new_def);
    }

    /// The total matched on the runner.
    pub fn total_matched(&self) -> (r: Option<Size>)
        ensures
            r == self@.total_matched,
    {
        self.total_matched
    }

    /// The selection id of the runner.
    pub fn selection_id(&self) -> (r: &SelectionId)
        ensures
            *r == self@.selection_id,
    {
        &self.selection_id
    }

    /// Sets the last price traded.
    pub fn set_last_price_traded(&mut self, last_price_traded: Price)
        ensures
            final(self)@ == (RunnerBookView {
                last_price_traded: Some(last_price_traded),
                ..old(self)@
            }),
    {
        self.last_price_traded = Some(last_price_traded);
    }

    /// Sets the total matched.
    pub fn set_total_matched(&mut self, total_matched: Size)
        ensures
            final(self)@ == (RunnerBookView { total_matched: Some(total_matched), ..old(self)@ }),
    {
        self.total_matched = Some(total_matched);
    }

    /// Sets the projected starting price (near).
    pub fn set_starting_price_near(&mut self, spn: Price)
        ensures
            final(self)@ == (RunnerBookView { starting_price_near: Some(spn), ..old(self)@ }),
    {
        self.starting_price_near = Some(spn);
    }

    /// Sets the projected starting price (far).
    pub fn set_starting_price_far(&mut self, spf: Price)
        ensures
            final(self)@ == (RunnerBookView { starting_price_far: Some(spf), ..old(self)@ }),
    {
        self.starting_price_far = Some(spf);
    }

    /// Updates the available-to-back ladder.
    pub fn update_available_to_back(&mut self, atb: &[UpdateSet2])
        requires
            old(self).wf(),
        ensures
            final(self)@ == (RunnerBookView {
                available_to_back: apply_updates(old(self)@.available_to_back, atb@),
                ..old(self)@
            }),
            final(self).wf(),
    {
        self.available_to_back.update(atb);
    }

    /// Updates the available-to-lay ladder.
    pub fn update_available_to_lay(&mut self, atl: &[UpdateSet2])
        requires
            old(self).wf(),
        ensures
            final(self)@ == (RunnerBookView {
                available_to_lay: apply_updates(old(self)@.available_to_lay, atl@),
                ..old(self)@
            }),
            final(self).wf(),
    {
        self.available_to_lay.update(atl);
    }

    /// Updates the best-available-to-back ladder.
    pub fn update_best_available_to_back(&mut self, batb: &[UpdateSet3])
        requires
            old(self).wf(),
        ensures
            final(self)@ == (RunnerBookView {
                best_available_to_back: apply_updates(old(self)@.best_available_to_back, batb@),
                ..old(self)@
            }),
            final(self).wf(),
    {
        self.best_available_to_back.update(batb);
    }

    /// Updates the best-available-to-lay ladder.
    pub fn update_best_available_to_lay(&mut self, batl: &[UpdateSet3])
        requires
            old(self).wf(),
        ensures
            final(self)@ == (RunnerBookView {
                best_available_to_lay: apply_updates(old(self)@.best_available_to_lay, batl@),
                ..old(self)@
            }),
            final(self).wf(),
    {
        self.best_available_to_lay.update(batl);
    }

    /// Updates the best-display-available-to-back ladder.
    pub fn update_best_display_available_to_back(&mut self, bdatb: &[UpdateSet3])
        requires
            old(self).wf(),
        ensures
            final(self)@ == (RunnerBookView {
                best_display_available_to_back: apply_updates(
                    old(self)@.best_display_available_to_back,
                    bdatb@,
                ),
                ..old(self)@
            }),
            final(self).wf(),
    {
        self.best_display_available_to_back.update(bdatb);
    }

    /// Updates the best-display-available-to-lay ladder.
    pub fn update_best_display_available_to_lay(&mut self, bdatl: &[UpdateSet3])
        requires
            old(self).wf(),
        ensures
            final(self)@ == (RunnerBookView {
                best_display_available_to_lay: apply_updates(
                    old(self)@.best_display_available_to_lay,
                    bdatl@,
                ),
                ..old(self)@
            }),
            final(self).wf(),
    {
        self.best_display_available_to_lay.update(bdatl);
    }

    /// Updates the starting-price back ladder.
    pub fn update_starting_price_back(&mut self, spb: &[UpdateSet2])
        requires
            old(self).wf(),
        ensures
            final(self)@ == (RunnerBookView {
                starting_price_back: apply_updates(old(self)@.starting_price_back, spb@),
                ..old(self)@
            }),
            final(self).wf(),
    {
        self.starting_price_back.update(spb);
    }

    /// Updates the starting-price lay ladder.
    pub fn update_starting_price_lay(&mut self, spl: &[UpdateSet2])
        requires
            old(self).wf(),
        ensures
            final(self)@ == (RunnerBookView {
                starting_price_lay: apply_updates(old(self)@.starting_price_lay, spl@),
                ..old(self)@
            }),
            final(self).wf(),
    {
        self.starting_price_lay.update(spl);
    }

    /// The last price traded.
    pub fn last_price_traded(&self) -> (r: Option<&Price>)
        ensures
            r == match self@.last_price_traded {
                Some(p) => Some(&p),
                None => None::<&Price>,
            },
    {
        self.last_price_traded.as_ref()
    }

    /// The traded ladder.
    pub fn traded(&self) -> (r: &Available<UpdateSet2>)
        ensures
            r.book@ == self@.traded,
    {
        &self.traded
    }

    /// The available-to-back ladder.
    pub fn available_to_back(&self) -> (r: &Available<UpdateSet2>)
        ensures
            r.book@ == self@.available_to_back,
    {
        &self.available_to_back
    }

    /// The best-available-to-back ladder.
    pub fn best_available_to_back(&self) -> (r: &Available<UpdateSet3>)
        ensures
            r.book@ == self@.best_available_to_back,
    {
        &self.best_available_to_back
    }

    /// The best-display-available-to-back ladder.
    pub fn best_display_available_to_back(&self) -> (r: &Available<UpdateSet3>)
        ensures
            r.book@ == self@.best_display_available_to_back,
    {
        &self.best_display_available_to_back
    }

    /// The available-to-lay ladder.
    pub fn available_to_lay(&self) -> (r: &Available<UpdateSet2>)
        ensures
            r.book@ == self@.available_to_lay,
    {
        &self.available_to_lay
    }

    /// The best-available-to-lay ladder.
    pub fn best_available_to_lay(&self) -> (r: &Available<UpdateSet3>)
        ensures
            r.book@ == self@.best_available_to_lay,
    {
        &self.best_available_to_lay
    }

    /// The best-display-available-to-lay ladder.
    pub fn best_display_available_to_lay(&self) -> (r: &Available<UpdateSet3>)
        ensures
            r.book@ == self@.best_display_available_to_lay,
    {
        &self.best_display_available_to_lay
    }

    /// The starting-price back ladder.
    pub fn starting_price_back(&self) -> (r: &Available<UpdateSet2>)
        ensures
            r.book@ == self@.starting_price_back,
    {
        &self.starting_price_back
    }

    /// The starting-price lay ladder.
    pub fn starting_price_lay(&self) -> (r: &Available<UpdateSet2>)
        ensures
            r.book@ == self@.starting_price_lay,
    {
        &self.starting_price_lay
    }

    /// The projected starting price (near).
    pub fn starting_price_near(&self) -> (r: Option<&Price>)
        ensures
            r == match self@.starting_price_near {
                Some(p) => Some(&p),
                None => None::<&Price>,
            },
    {
        self.starting_price_near.as_ref()
    }

    /// The projected starting price (far).
    pub fn starting_price_far(&self) -> (r: Option<&Price>)
        ensures
            r == match self@.starting_price_far {
                Some(p) => Some(&p),
                None => None::<&Price>,
            },
    {
        self.starting_price_far.as_ref()
    }

    /// The handicap of the runner.
    pub fn handicap(&self) -> (r: Option<Handicap>)
        ensures
            r == self@.handicap,
    {
        self.handicap
    }

    /// The runner definition, once one has been seen.
    pub fn definition(&self) -> (r: Option<&RunnerDefinition>)
        ensures
            r == match self@.definition {
                Some(d) => Some(&d),
                None => None::<&RunnerDefinition>,
            },
    {
        self.definition.as_ref()
    }

    /// A copy of the runner book.
    pub fn copy(&self) -> (r: Self)
        ensures
            r@ == self@,
    {
        RunnerBookCache {
            selection_id: self.selection_id,
            last_price_traded: self.last_price_traded,
            total_matched: self.total_matched,
            traded: copy_available2(&self.traded),
            available_to_back: copy_available2(&self.available_to_back),
            best_available_to_back: copy_available3(&self.best_available_to_back),
            best_display_available_to_back: copy_available3(&self.best_display_available_to_back),
            available_to_lay: copy_available2(&self.available_to_lay),
            best_available_to_lay: copy_available3(&self.best_available_to_lay),
            best_display_available_to_lay: copy_available3(&self.best_display_available_to_lay),
            starting_price_back: copy_available2(&self.starting_price_back),
            starting_price_lay: copy_available2(&self.starting_price_lay),
            starting_price_near: self.starting_price_near,
            starting_price_far: self.starting_price_far,
            handicap: self.handicap,
            definition: self.definition,
        }
    }
}

} // verus!
