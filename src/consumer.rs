//! What the consumer does with a delivery once its job has ended, and the
//! counters it keeps.
use vstd::prelude::*;
use crate::layout::{
    lemma_complete_tree_has_three_variants, lists, master_lists_all, master_name, texts, variant_playlist_of,
    variant_playlists_in,
};
use crate::job::{
    ending, is_permanent, rank, successor, Completion, Failure, Feedback, Job, Phase, StoreError,
};

verus! {

/// The answer given to the broker for a delivery.
#[derive(Clone, Copy, Debug, PartialEq, Eq, Structural)]
pub enum Disposition {
    /// Acknowledge: the job is done.
    Ack,
    /// Acknowledge and discard: retrying cannot help.
    Drop,
    /// Reject and requeue for another attempt.
    Requeue,
}

pub open spec fn disposition_of(o: Result<Completion, Failure>) -> Disposition {
    match o {
        Ok(_) => Disposition::Ack,
        Err(f) => if is_permanent(f) {
            Disposition::Drop
        } else {
            Disposition::Requeue
        },
    }
}

/// The answer for a job's outcome: success is acknowledged, a permanent
/// failure is discarded, any other failure is requeued.
pub fn disposition(outcome: &Result<Completion, Failure>) -> (r: Disposition)
    ensures
        r == disposition_of(*outcome),
{
    match outcome {
        Ok(_) => Disposition::Ack,
        Err(f) => if f.permanent() {
            Disposition::Drop
        } else {
            Disposition::Requeue
        },
    }
}

/// Counts of deliveries received and of jobs that succeeded or failed.
#[derive(Clone, Copy, Debug, PartialEq, Eq, Structural)]
pub struct Tally {
    pub received: u64,
    pub succeeded: u64,
    pub failed: u64,
}

/// One more, stopping at the largest count.
pub open spec fn bump(n: u64) -> u64 {
    if n == u64::MAX {
        n
    } else {
        (n + 1) as u64
    }
}

pub open spec fn tally_after(t: Tally, o: Result<Completion, Failure>) -> Tally {
    match o {
        Ok(_) => Tally { succeeded: bump(t.succeeded), ..t },
        Err(_) => Tally { failed: bump(t.failed), ..t },
    }
}

fn bump_exec(n: u64) -> (r: u64)
    ensures
        r == bump(n),
{
    if n == u64::MAX {
        n
    } else {
        n + 1
    }
}

impl Tally {
    pub fn new() -> (r: Tally)
        ensures
            r == (Tally { received: 0, succeeded: 0, failed: 0 }),
    {
        Tally { received: 0, succeeded: 0, failed: 0 }
    }

    pub fn record_received(&mut self)
        ensures
            *final(self) == (Tally { received: bump(old(self).received), ..*old(self) }),
    {
        self.received = bump_exec(self.received);
    }

    /// Counts a job's outcome as a success or a failure.
    pub fn record(&mut self, outcome: &Result<Completion, Failure>)
        ensures
            *final(self) == tally_after(*old(self), *outcome),
    {
        match outcome {
            Ok(_) => self.succeeded = bump_exec(self.succeeded),
            Err(_) => self.failed = bump_exec(self.failed),
        }
    }
}

/// A delivery whose marker is already stored ends at its first step, as
/// already done, without asking for any download, encoding, upload or
/// announcement; it is acknowledged and counted as a success.
pub proof fn lemma_duplicate_delivery_is_acked<D>(job: Job<D>, t: Tally)
    requires
        job.phase is CheckingMarker,
    ensures
        ending(job.phase, Feedback::<D>::Marker(true)) == Some(Ok::<Completion, Failure>(Completion::AlreadyDone)),
        disposition_of(Ok(Completion::AlreadyDone)) == Disposition::Ack,
        tally_after(t, Ok(Completion::AlreadyDone)).succeeded == bump(t.succeeded),
        tally_after(t, Ok(Completion::AlreadyDone)).failed == t.failed,
{
}

/// A job only moves forward: each step that does not end it leads to a
/// later one. The announcement is asked for only on entering the step after
/// the thumbnail upload, so a job announces its video at most once.
pub proof fn lemma_steps_move_forward<D>(p: Phase, fb: Feedback<D>)
    requires
        !(p is Finished),
        ending(p, fb) is None,
    ensures
        rank(successor(p)) == rank(p) + 1,
        successor(p) is Publishing <==> p is UploadingThumb,
        !(p is Publishing),
{
}

/// A source object that does not exist ends the job as a permanent
/// failure: the delivery is discarded, not requeued, and counted as failed.
pub proof fn lemma_missing_source_is_dropped<D>(t: Tally)
    ensures
        ending(Phase::Downloading, Feedback::<D>::StoreFailed(StoreError::NoSuchKey)) == Some(
            Err::<Completion, Failure>(Failure::MissingSource),
        ),
        disposition_of(Err(Failure::MissingSource)) == Disposition::Drop,
        tally_after(t, Err(Failure::MissingSource)).failed == bump(t.failed),
{
}

/// Any other object store failure, at any step, ends the job before its
/// announcement as a transient failure: the delivery is requeued and counted
/// as failed.
pub proof fn lemma_store_outage_is_requeued<D>(p: Phase, e: StoreError, t: Tally)
    requires
        !(p is Finished),
        !(p is Downloading && e is NoSuchKey),
    ensures
        ending(p, Feedback::<D>::StoreFailed(e)) == Some(Err::<Completion, Failure>(Failure::Store(e))),
        disposition_of(Err(Failure::Store(e))) == Disposition::Requeue,
        tally_after(t, Err(Failure::Store(e))).failed == bump(t.failed),
{
}

/// A job goes on past its inspection only when the encoder's output holds
/// the master playlist and exactly the three variant playlists
/// `out_0/prog.m3u8` to `out_2/prog.m3u8`, and the master playlist refers to
/// all three.
pub proof fn lemma_inspection_passes_only_full_ladder<D>(files: Vec<String>, master: String)
    requires
        ending(Phase::Inspecting, Feedback::<D>::Output { files, master }) is None,
    ensures
        lists(texts(files@), master_name()),
        variant_playlists_in(texts(files@)) == set![variant_playlist_of(0), variant_playlist_of(1), variant_playlist_of(2)],
        variant_playlists_in(texts(files@)).len() == 3,
        master_lists_all(master@),
{
    lemma_complete_tree_has_three_variants(texts(files@));
}

} // verus!
