use vstd::prelude::*;

verus! {

/// What the scene and the hit material did with the current ray.
#[derive(Clone, Copy, Debug, PartialEq, Eq, Structural)]
pub enum Interaction {
    /// The ray hit nothing and escaped to the background.
    Missed,
    /// The ray hit a surface whose material absorbed it.
    Absorbed,
    /// The ray hit a surface whose material scattered it into a new ray.
    Scattered,
}

/// The colour a path ends on, before the attenuations along it are applied.
#[derive(Clone, Copy, Debug, PartialEq, Eq, Structural)]
pub enum PathEnd {
    /// No light: the path was absorbed or ran out of bounces.
    Black,
    /// The background gradient seen along the last ray.
    Background,
}

/// What the renderer does next with a path.
#[derive(Clone, Copy, Debug, PartialEq, Eq, Structural)]
pub enum PathAction {
    /// The path is over; its colour is the given end.
    Finish(PathEnd),
    /// Follow the scattered ray, multiplying its colour by the attenuation.
    Bounce,
}

/// The decision for one interaction, with `remaining` scene queries left in
/// the bounce budget (the current one included).
pub open spec fn step_action(remaining: nat, event: Interaction) -> PathAction {
    if remaining == 0 {
        PathAction::Finish(PathEnd::Black)
    } else {
        match event {
            Interaction::Missed => PathAction::Finish(PathEnd::Background),
            Interaction::Absorbed => PathAction::Finish(PathEnd::Black),
            Interaction::Scattered => PathAction::Bounce,
        }
    }
}

/// How a path with bounce budget `remaining` ends when it meets the
/// interactions `events` in turn, and after how many bounces; `None` when
/// `events` runs out first.
pub open spec fn path_end(remaining: nat, events: Seq<Interaction>) -> Option<(PathEnd, nat)>
    decreases events.len(),
{
    if remaining == 0 {
        Some((PathEnd::Black, 0))
    } else if events.len() == 0 {
        None
    } else {
        match step_action(remaining, events[0]) {
            PathAction::Finish(end) => Some((end, 0)),
            PathAction::Bounce => match path_end((remaining - 1) as nat, events.drop_first()) {
                Some((end, n)) => Some((end, n + 1)),
                None => None,
            },
        }
    }
}

/// A path whose bounce budget is spent is black, whatever the scene holds.
pub proof fn lemma_exhausted_path_is_black(events: Seq<Interaction>)
    ensures
        path_end(0, events) == Some((PathEnd::Black, 0nat)),
{
}

/// A ray that meets nothing ends on the background without a bounce, as
/// long as the budget is not spent.
pub proof fn lemma_missed_ray_is_background(remaining: nat)
    requires
        remaining > 0,
    ensures
        path_end(remaining, seq![Interaction::Missed]) == Some((PathEnd::Background, 0nat)),
{
}

/// A path never bounces more often than its budget allows, and one that
/// uses its whole budget ends black.
pub proof fn lemma_bounces_within_budget(remaining: nat, events: Seq<Interaction>)
    ensures
        path_end(remaining, events) matches Some((end, n)) ==> n <= remaining && (n == remaining
            ==> end == PathEnd::Black),
    decreases events.len(),
{
    if remaining > 0 && events.len() > 0 {
        lemma_bounces_within_budget((remaining - 1) as nat, events.drop_first());
    }
}

/// The bounce-budget state of one path being traced.
pub struct PathState {
    remaining: u64,
}

impl PathState {
    /// Scene queries left in the budget, the next one included.
    pub closed spec fn remaining_view(&self) -> nat {
        self.remaining as nat
    }

    /// A path with `budget` scene queries.
    pub fn with_budget(budget: u64) -> (r: Self)
        ensures
            r.remaining_view() == budget,
    {
        PathState { remaining: budget }
    }

    /// A path that may scatter up to `max_bounces` times after its first
    /// query: `max_bounces + 1` queries in all, saturating at the largest
    /// budget.
    pub fn for_max_bounces(max_bounces: u64) -> (r: Self)
        ensures
            r.remaining_view() == if max_bounces < u64::MAX {
                max_bounces + 1
            } else {
                max_bounces as int
            },
    {
        PathState { remaining: max_bounces.saturating_add(1) }
    }

    /// Scene queries left in the budget, the next one included.
    pub fn remaining(&self) -> (r: u64)
        ensures
            r == self.remaining_view(),
    {
        self.remaining
    }

    /// Whether the budget is spent: the path is black without querying the
    /// scene again.
    pub fn is_exhausted(&self) -> (r: bool)
        ensures
            r == (self.remaining_view() == 0),
    {
        self.remaining == 0
    }

    /// Decides what follows an interaction, and spends one query of the
    /// budget when the path bounces.
    pub fn advance(&mut self, event: Interaction) -> (r: PathAction)
        ensures
            r == step_action(old(self).remaining_view(), event),
            final(self).remaining_view() == if r == PathAction::Bounce {
                (old(self).remaining_view() - 1) as nat
            } else {
                old(self).remaining_view()
            },
    {
        if self.remaining == 0 {
            return PathAction::Finish(PathEnd::Black);
        }
        match event {
            Interaction::Missed => PathAction::Finish(PathEnd::Background),
            Interaction::Absorbed => PathAction::Finish(PathEnd::Black),
            Interaction::Scattered => {
                self.remaining = self.remaining - 1;
                PathAction::Bounce
            },
        }
    }
}

} // verus!
