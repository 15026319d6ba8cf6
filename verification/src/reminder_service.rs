//! What the reminder poller records of a round.
//!
//! In each round the poller shows a notification for every reminder that is
//! due. Those whose notification went out are marked as sent, and the tasks
//! they belong to are made known to the windows.

use vstd::prelude::*;

verus! {

/// One attempt to notify.
#[derive(Debug, Clone, Copy, PartialEq, Eq, Structural)]
pub struct Delivery {
    pub reminder_id: i64,
    pub task_id: i64,
    /// Whether the notification went out.
    pub shown: bool,
}

/// What a round comes to.
#[derive(Debug, Clone, PartialEq, Eq)]
pub struct Round {
    /// The reminders to mark as sent, in the order of the attempts.
    pub sent_ids: Vec<i64>,
    /// The tasks they belong to, in the same order.
    pub task_ids: Vec<i64>,
}

/// The attempts that went out, in order.
pub open spec fn shown(attempts: Seq<Delivery>) -> Seq<Delivery> {
    attempts.filter(|d: Delivery| d.shown)
}

impl Round {
    /// Whether there is anything to mark.
    pub fn has_sent(&self) -> (some: bool)
        ensures
            some == (self.sent_ids@.len() > 0),
    {
        self.sent_ids.len() > 0
    }
}

/// What follows the marking of a round's reminders.
#[derive(Debug, Clone, Copy, PartialEq, Eq, Structural)]
pub enum Sequel {
    /// The reminders are marked: tell the windows which tasks they belong to.
    Announce,
    /// The marking failed: tell nobody, so that the next round tries again.
    Silence,
}

/// Decides what follows the marking: the windows are told only once the
/// reminders are marked as sent.
pub fn after_marking(marked: &Result<usize, rusqlite::Error>) -> (sequel: Sequel)
    ensures
        sequel == if marked is Ok {
            Sequel::Announce
        } else {
            Sequel::Silence
        },
{
    match marked {
        Ok(_) => Sequel::Announce,
        Err(_) => Sequel::Silence,
    }
}

/// Sums up a round: the reminders and tasks of the attempts that went out.
pub fn sum_up(attempts: &Vec<Delivery>) -> (round: Round)
    ensures
        round.sent_ids@ == shown(attempts@).map_values(|d: Delivery| d.reminder_id),
        round.task_ids@ == shown(attempts@).map_values(|d: Delivery| d.task_id),
{
    let ghost went = |d: Delivery| d.shown;
    let mut sent_ids: Vec<i64> = Vec::new();
    let mut task_ids: Vec<i64> = Vec::new();
    let mut i: usize = 0;
    proof {
        assert(attempts@.take(0) =~= Seq::<Delivery>::empty());
        reveal(Seq::filter);
        assert(attempts@.take(0).filter(went) =~= Seq::<Delivery>::empty());
    }
    while i < attempts.len()
        invariant
            i <= attempts.len(),
            went == |d: Delivery| d.shown,
            sent_ids@ == attempts@.take(i as int).filter(went).map_values(
                |d: Delivery| d.reminder_id,
            ),
            task_ids@ == attempts@.take(i as int).filter(went).map_values(
                |d: Delivery| d.task_id,
            ),
        decreases attempts.len() - i,
    {
        let attempt = attempts[i];
        proof {
            assert(attempts@.take(i + 1) =~= attempts@.take(i as int).push(attempt));
            attempts@.take(i as int).lemma_filter_push(attempt, went);
        }
        if attempt.shown {
            sent_ids.push(attempt.reminder_id);
            task_ids.push(attempt.task_id);
            assert(sent_ids@ =~= attempts@.take(i + 1).filter(went).map_values(
                |d: Delivery| d.reminder_id,
            ));
            assert(task_ids@ =~= attempts@.take(i + 1).filter(went).map_values(
                |d: Delivery| d.task_id,
            ));
        }
        i = i + 1;
    }
    assert(attempts@.take(i as int) =~= attempts@);
    Round { sent_ids, task_ids }
}

} // verus!
