use crate::room::{Decision, RoundResult, Settings};
use vstd::prelude::*;

verus! {

/// The number of rounds in `s` that satisfy `p`.
pub open spec fn count_rounds(s: Seq<RoundResult>, p: spec_fn(RoundResult) -> bool) -> nat
    decreases s.len(),
{
    if s.len() == 0 {
        0
    } else {
        count_rounds(s.drop_last(), p) + if p(s.last()) {
            1nat
        } else {
            0nat
        }
    }
}

/// A count never exceeds the number of rounds.
pub proof fn lemma_count_rounds_bounded(s: Seq<RoundResult>, p: spec_fn(RoundResult) -> bool)
    ensures
        count_rounds(s, p) <= s.len(),
    decreases s.len(),
{
    if s.len() > 0 {
        lemma_count_rounds_bounded(s.drop_last(), p);
    }
}

/// Rounds won.
pub open spec fn rounds_won(s: Seq<RoundResult>) -> nat {
    count_rounds(s, |x: RoundResult| x.win)
}

/// Rounds whose first choice hid the prize.
pub open spec fn rounds_chosen_right(s: Seq<RoundResult>) -> nat {
    count_rounds(s, |x: RoundResult| x.chosen == x.prize)
}

/// Rounds whose door left closed by the host hid the prize.
pub open spec fn rounds_left_right(s: Seq<RoundResult>) -> nat {
    count_rounds(s, |x: RoundResult| x.left == x.prize)
}

/// Rounds in which the contestant switched.
pub open spec fn rounds_switched(s: Seq<RoundResult>) -> nat {
    count_rounds(s, |x: RoundResult| x.decision == Decision::Switch)
}

/// Rounds in which the contestant stuck.
pub open spec fn rounds_stuck(s: Seq<RoundResult>) -> nat {
    count_rounds(s, |x: RoundResult| x.decision == Decision::Stick)
}

/// Rounds won by switching.
pub open spec fn rounds_switched_won(s: Seq<RoundResult>) -> nat {
    count_rounds(s, |x: RoundResult| x.decision == Decision::Switch && x.win)
}

/// Rounds won by sticking.
pub open spec fn rounds_stuck_won(s: Seq<RoundResult>) -> nat {
    count_rounds(s, |x: RoundResult| x.decision == Decision::Stick && x.win)
}

/// The counts of `calculate` over the rounds `s`.
pub open spec fn tallies(g: GameResultView, s: Seq<RoundResult>) -> bool {
    &&& g.win == rounds_won(s)
    &&& g.chosen_win == rounds_chosen_right(s)
    &&& g.left_win == rounds_left_right(s)
    &&& g.switch == rounds_switched(s)
    &&& g.stick == rounds_stuck(s)
    &&& g.switch_win == rounds_switched_won(s)
    &&& g.stick_win == rounds_stuck_won(s)
}

/// Over the rounds of a game, exactly one of the first choice and the door
/// left closed hides the prize in each round; every round is switched or
/// stuck; and every win is a win by switching or by sticking.
pub proof fn lemma_tallies_partition_rounds(s: Seq<RoundResult>, doors: u32)
    requires
        forall|i: int| 0 <= i < s.len() ==> #[trigger] s[i].wf(doors),
    ensures
        rounds_chosen_right(s) + rounds_left_right(s) == s.len(),
        rounds_switched(s) + rounds_stuck(s) == s.len(),
        rounds_switched_won(s) + rounds_stuck_won(s) == rounds_won(s),
    decreases s.len(),
{
    if s.len() > 0 {
        let t = s.drop_last();
        assert forall|i: int| 0 <= i < t.len() implies #[trigger] t[i].wf(doors) by {
            assert(t[i] == s[i]);
        }
        lemma_tallies_partition_rounds(t, doors);
        assert(s.last() == s[s.len() - 1]);
        assert(s.last().wf(doors));
    }
}

/// Summary statistics of a finished game.
#[derive(Debug, Clone, Copy, PartialEq, Eq)]
pub struct GameResult {
    settings: Settings,
    win: u32,
    chosen_win: u32,
    left_win: u32,
    switch: u32,
    stick: u32,
    switch_win: u32,
    stick_win: u32,
}

/// The mathematical value of a `GameResult`.
pub struct GameResultView {
    pub settings: Settings,
    pub win: u32,
    pub chosen_win: u32,
    pub left_win: u32,
    pub switch: u32,
    pub stick: u32,
    pub switch_win: u32,
    pub stick_win: u32,
}

impl View for GameResult {
    type V = GameResultView;

    closed spec fn view(&self) -> GameResultView {
        GameResultView {
            settings: self.settings,
            win: self.win,
            chosen_win: self.chosen_win,
            left_win: self.left_win,
            switch: self.switch,
            stick: self.stick,
            switch_win: self.switch_win,
            stick_win: self.stick_win,
        }
    }
}

impl GameResult {
    /// Tallies the rounds of a game played with `doors` doors: the rounds
    /// won, those whose first choice or whose door left closed hid the
    /// prize, and the rounds switched and stuck with the wins of each.
    pub fn calculate(doors: u32, results: &[RoundResult]) -> (r: Self)
        requires
            results@.len() <= u32::MAX,
        ensures
            r@.settings == (Settings { doors, rounds: results@.len() as u32 }),
            tallies(r@, results@),
    {
        let settings = Settings::new(doors, results.len() as u32);
        let mut g = GameResult {
            settings,
            win: 0,
            chosen_win: 0,
            left_win: 0,
            switch: 0,
            stick: 0,
            switch_win: 0,
            stick_win: 0,
        };
        let mut i: usize = 0;
        while i < results.len()
            invariant
                i <= results@.len(),
                results@.len() <= u32::MAX,
                g.settings == (Settings { doors, rounds: results@.len() as u32 }),
                tallies(g@, results@.take(i as int)),
            decreases results@.len() - i,
        {
            let result = results[i];
            proof {
                let s = results@.take(i as int);
                assert(results@.take(i + 1).drop_last() =~= s);
                assert(results@.take(i + 1).last() == result);
                lemma_count_rounds_bounded(s, |x: RoundResult| x.win);
                lemma_count_rounds_bounded(s, |x: RoundResult| x.chosen == x.prize);
                lemma_count_rounds_bounded(s, |x: RoundResult| x.left == x.prize);
                lemma_count_rounds_bounded(s, |x: RoundResult| x.decision == Decision::Switch);
                lemma_count_rounds_bounded(s, |x: RoundResult| x.decision == Decision::Stick);
                lemma_count_rounds_bounded(
                    s,
                    |x: RoundResult| x.decision == Decision::Switch && x.win,
                );
                lemma_count_rounds_bounded(
                    s,
                    |x: RoundResult| x.decision == Decision::Stick && x.win,
                );
            }
            if result.chosen == result.prize {
                g.chosen_win = g.chosen_win + 1;
            }
            if result.left == result.prize {
                g.left_win = g.left_win + 1;
            }
            match result.decision {
                Decision::Switch => {
                    g.switch = g.switch + 1;
                    if result.win {
                        g.win = g.win + 1;
                        g.switch_win = g.switch_win + 1;
                    }
                },
                Decision::Stick => {
                    g.stick = g.stick + 1;
                    if result.win {
                        g.win = g.win + 1;
                        g.stick_win = g.stick_win + 1;
                    }
                },
            }
            i = i + 1;
        }
        proof {
            assert(results@.take(results@.len() as int) =~= results@);
        }
        g
    }

    /// The settings: the doors and the number of rounds played.
    pub fn settings(&self) -> (r: Settings)
        ensures
            r == self@.settings,
    {
        self.settings
    }

    /// Rounds won.
    pub fn win(&self) -> (r: u32)
        ensures
            r == self@.win,
    {
        self.win
    }

    /// Rounds whose first choice hid the prize.
    pub fn chosen_win(&self) -> (r: u32)
        ensures
            r == self@.chosen_win,
    {
        self.chosen_win
    }

    /// Rounds whose door left closed by the host hid the prize.
    pub fn left_win(&self) -> (r: u32)
        ensures
            r == self@.left_win,
    {
        self.left_win
    }

    /// Rounds in which the contestant switched.
    pub fn switch(&self) -> (r: u32)
        ensures
            r == self@.switch,
    {
        self.switch
    }

    /// Rounds in which the contestant stuck.
    pub fn stick(&self) -> (r: u32)
        ensures
            r == self@.stick,
    {
        self.stick
    }

    /// Rounds won by switching.
    pub fn switch_win(&self) -> (r: u32)
        ensures
            r == self@.switch_win,
    {
        self.switch_win
    }

    /// Rounds won by sticking.
    pub fn stick_win(&self) -> (r: u32)
        ensures
            r == self@.stick_win,
    {
        self.stick_win
    }
}

} // verus!
