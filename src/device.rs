//! The device facade: the mapped region, the number of copy participants, and
//! the job that they are told to carry out.
use vstd::prelude::*;
use crate::error::WriteError;
use crate::partition::{
    covered, in_segment, lemma_last_segment_end, lemma_segment_bounds, lemma_segment_order, segment, segment_end, segment_len, segment_start, tiles_region,
};

verus! {

/// The work that the copy participants are told to do after a rendezvous.
#[derive(Debug, Clone, Copy, PartialEq, Eq, Structural)]
pub enum Job {
    /// Nothing to do: wait for the next rendezvous.
    Release,
    /// Copy a source of `length` bytes over the region, each participant its segment.
    Copy { length: usize },
    /// Leave the worker loop for good.
    Exit,
}

/// What one participant does with a job.
#[derive(Debug, Clone, Copy, PartialEq, Eq, Structural)]
pub enum WorkerStep {
    /// Wait for the next rendezvous.
    Wait,
    /// Copy `len` bytes starting at `start`.
    Copy { start: usize, len: usize },
    /// Leave the worker loop.
    Exit,
}

/// One past the last byte that a bulk write over `length` bytes with `workers`
/// participants copies; the segments run back to back from zero up to it.
pub open spec fn copied_prefix(length: nat, workers: nat) -> nat {
    segment_end(length, (workers - 1) as nat, workers)
}

/// The region after the segments of a bulk write have copied `src` over `old`.
pub open spec fn written(old: Seq<u8>, src: Seq<u8>, workers: nat) -> Seq<u8> {
    Seq::new(
        old.len(),
        |k: int| if k < copied_prefix(old.len(), workers) { src[k] } else { old[k] },
    )
}

/// The region after a bulk write of `src` under `job`: untouched once the
/// workers have exited or when the lengths differ.
pub open spec fn after_write(job: Job, workers: nat, old: Seq<u8>, src: Seq<u8>) -> Seq<u8> {
    if job is Exit || src.len() != old.len() {
        old
    } else {
        written(old, src, workers)
    }
}

/// The outcome of a bulk write of a source of `src_len` bytes under `job`: a
/// source of the wrong length is a size mismatch whatever the job.
pub open spec fn write_result(job: Job, region_len: nat, src_len: nat) -> Result<(), WriteError> {
    if src_len != region_len {
        Err(WriteError::SizeMismatch)
    } else if job is Exit {
        Err(WriteError::WorkersExited)
    } else {
        Ok(())
    }
}

/// A region of `len` bytes that all hold `byte`.
pub open spec fn filled(len: nat, byte: u8) -> Seq<u8> {
    Seq::new(len, |k: int| byte)
}

/// What participant `thread_num` of `num_threads` does with `job`.
pub open spec fn worker_step(job: Job, thread_num: nat, num_threads: nat) -> WorkerStep {
    match job {
        Job::Release => WorkerStep::Wait,
        Job::Exit => WorkerStep::Exit,
        Job::Copy { length } => WorkerStep::Copy {
            start: segment_start(length as nat, thread_num, num_threads) as usize,
            len: segment_len(length as nat, thread_num, num_threads) as usize,
        },
    }
}

/// Copies `src[start..start + len]` over the same range of `dst`.
pub fn copy_range(dst: &mut [u8], src: &[u8], start: usize, len: usize)
    requires
        start + len <= old(dst)@.len(),
        start + len <= src@.len(),
    ensures
        final(dst)@ == Seq::new(
            old(dst)@.len(),
            |k: int| if start <= k < start + len { src@[k] } else { old(dst)@[k] },
        ),
{
    let size = dst.len();
    assert(start + len <= size);
    let end = start + len;
    let mut j: usize = start;
    while j < end
        invariant
            start <= j <= end,
            end == start + len,
            end <= dst@.len(),
            end <= src@.len(),
            dst@.len() == old(dst)@.len(),
            forall|k: int|
                0 <= k < dst@.len() ==> #[trigger] dst@[k] == if start <= k < j {
                    src@[k]
                } else {
                    old(dst)@[k]
                },
        decreases end - j,
    {
        dst[j] = src[j];
        j = j + 1;
    }
    assert(dst@ =~= Seq::new(
        old(dst)@.len(),
        |k: int| if start <= k < start + len { src@[k] } else { old(dst)@[k] },
    ));
}

/// Exclusive owner of a mapped region, with the participants of its bulk copies.
pub struct IvshmemDevice {
    memory: &'static mut [u8],
    thread_count: usize,
    job: Job,
}

impl IvshmemDevice {
    /// The bytes of the region.
    pub closed spec fn bytes(&self) -> Seq<u8> {
        self.memory@
    }

    /// The number of participants in a bulk copy, the caller included.
    pub closed spec fn workers(&self) -> nat {
        self.thread_count as nat
    }

    /// The job last published to the participants.
    pub closed spec fn job_state(&self) -> Job {
        self.job
    }

    /// A device has at least one participant.
    pub open spec fn wf(&self) -> bool {
        self.workers() > 0
    }

    /// Takes ownership of a region, with `num_threads` participants for bulk copies.
    pub fn with_memory(map: &'static mut [u8], num_threads: usize) -> (r: Self)
        requires
            num_threads > 0,
        ensures
            r.wf(),
            r.bytes() == old(map)@,
            r.workers() == num_threads,
            r.job_state() == Job::Release,
    {
        IvshmemDevice { memory: map, thread_count: num_threads, job: Job::Release }
    }

    /// Length of the region in bytes.
    pub fn len(&self) -> (r: usize)
        ensures
            r == self.bytes().len(),
    {
        self.memory.len()
    }

    /// Number of participants in a bulk copy, the caller included.
    pub fn thread_count(&self) -> (r: usize)
        ensures
            r == self.workers(),
    {
        self.thread_count
    }

    /// The job last published to the participants.
    pub fn job(&self) -> (r: Job)
        ensures
            r == self.job_state(),
    {
        self.job
    }

    /// Whether the workers have been told to exit.
    pub fn is_shut_down(&self) -> (r: bool)
        ensures
            r == (self.job_state() is Exit),
    {
        match self.job {
            Job::Exit => true,
            _ => false,
        }
    }

    /// Tells every worker to leave its loop. Calling it again changes nothing.
    pub fn exit_workers(&mut self)
        ensures
            final(self).job_state() == Job::Exit,
            final(self).bytes() == old(self).bytes(),
            final(self).workers() == old(self).workers(),
    {
        self.job = Job::Exit;
    }

    /// Tells the workers to exit and hands the region back.
    pub fn into_memory(self) -> (r: &'static mut [u8])
        ensures
            r@ == self.bytes(),
    {
        let mut zelf = self;
        zelf.exit_workers();
        zelf.memory
    }

    /// What participant `thread_num` of `num_threads` does with `job`.
    pub fn handle_worker_state(job: Job, thread_num: usize, num_threads: usize) -> (r: WorkerStep)
        requires
            thread_num < num_threads,
        ensures
            r == worker_step(job, thread_num as nat, num_threads as nat),
            r matches WorkerStep::Copy { start, len } ==> job matches Job::Copy { length }
                && start + len <= length,
    {
        match job {
            Job::Release => WorkerStep::Wait,
            Job::Exit => WorkerStep::Exit,
            Job::Copy { length } => {
                let (start, len) = segment(length, thread_num, num_threads);
                WorkerStep::Copy { start, len }
            },
        }
    }

    /// A live view of the whole region, bypassing the copy participants.
    pub fn direct_view(&mut self) -> (r: &mut [u8])
        ensures
            r@ == old(self).bytes(),
            final(self).bytes() == final(r)@,
            final(self).workers() == old(self).workers(),
            final(self).job_state() == old(self).job_state(),
    {
        self.memory
    }

    /// A read-only view of the whole region.
    pub fn as_slice(&self) -> (r: &[u8])
        ensures
            r@ == self.bytes(),
    {
        self.memory
    }

    /// Sets every byte of the region to `byte`.
    pub fn set_all_bytes(&mut self, byte: u8)
        ensures
            final(self).bytes() == filled(old(self).bytes().len(), byte),
            final(self).workers() == old(self).workers(),
            final(self).job_state() == old(self).job_state(),
    {
        let len = self.memory.len();
        let mut j: usize = 0;
        while j < len
            invariant
                j <= len,
                len == self.memory@.len(),
                self.memory@.len() == old(self).bytes().len(),
                self.thread_count == old(self).workers(),
                self.job == old(self).job_state(),
                forall|k: int| 0 <= k < j ==> #[trigger] self.memory@[k] == byte,
            decreases len - j,
        {
            self.memory[j] = byte;
            j = j + 1;
        }
        assert(self.memory@ =~= filled(old(self).bytes().len(), byte));
    }

    /// Publishes a copy of a source of `src_len` bytes to the participants.
    /// Refuses, publishing nothing, under the same conditions as `write_to_all`.
    pub fn begin_copy(&mut self, src_len: usize) -> (r: Result<Job, WriteError>)
        ensures
            r == match write_result(old(self).job_state(), old(self).bytes().len(), src_len as nat) {
                Ok(()) => Ok::<Job, WriteError>(Job::Copy { length: src_len }),
                Err(e) => Err(e),
            },
            final(self).job_state() == if r is Ok {
                Job::Copy { length: src_len }
            } else {
                old(self).job_state()
            },
            final(self).bytes() == old(self).bytes(),
            final(self).workers() == old(self).workers(),
    {
        if src_len != self.memory.len() {
            return Err(WriteError::SizeMismatch);
        }
        if self.is_shut_down() {
            return Err(WriteError::WorkersExited);
        }
        self.job = Job::Copy { length: src_len };
        Ok(self.job)
    }

    /// Marks the published copy as done: every participant has finished its segment.
    pub fn finish_copy(&mut self)
        ensures
            final(self).job_state() == if old(self).job_state() is Copy {
                Job::Release
            } else {
                old(self).job_state()
            },
            final(self).bytes() == old(self).bytes(),
            final(self).workers() == old(self).workers(),
    {
        if let Job::Copy { .. } = self.job {
            self.job = Job::Release;
        }
    }

    /// Overwrites the region with `buf`, each participant's segment in turn.
    ///
    /// Fails, leaving the region untouched, when `buf` is not exactly as long
    /// as the region, or else when the workers have exited.
    pub fn write_to_all(&mut self, buf: &[u8]) -> (r: Result<(), WriteError>)
        requires
            old(self).wf(),
        ensures
            r == write_result(old(self).job_state(), old(self).bytes().len(), buf@.len()),
            final(self).bytes() == after_write(
                old(self).job_state(),
                old(self).workers(),
                old(self).bytes(),
                buf@,
            ),
            final(self).workers() == old(self).workers(),
            final(self).job_state() == if r is Ok {
                Job::Release
            } else {
                old(self).job_state()
            },
    {
        let length = self.memory.len();
        if buf.len() != length {
            return Err(WriteError::SizeMismatch);
        }
        if self.is_shut_down() {
            return Err(WriteError::WorkersExited);
        }
        let n = self.thread_count;
        let ghost old_bytes = self.memory@;
        let ghost l = length as nat;
        self.job = Job::Copy { length };
        let mut i: usize = 0;
        while i < n
            invariant
                0 < n,
                i <= n,
                n == self.thread_count,
                self.thread_count == old(self).workers(),
                self.job == (Job::Copy { length }),
                length == l,
                buf@.len() == l,
                old_bytes == old(self).bytes(),
                self.memory@.len() == l,
                forall|k: int|
                    0 <= k < l ==> #[trigger] self.memory@[k] == if k < done_upto(l, n as nat, i as nat) {
                        buf@[k]
                    } else {
                        old_bytes[k]
                    },
            decreases n - i,
        {
            let step = Self::handle_worker_state(self.job, i, n);
            proof {
                lemma_segment_bounds(l, i as nat, n as nat);
            }
            match step {
                WorkerStep::Copy { start, len } => {
                    copy_range(self.memory, buf, start, len);
                },
                _ => {},
            }
            i = i + 1;
        }
        self.job = Job::Release;
        assert(self.memory@ =~= written(old_bytes, buf@, n as nat));
        Ok(())
    }
}

/// How far the segments of participants `0..i` reach: the start of segment `i`,
/// or the end of the last segment once all have copied.
pub open spec fn done_upto(length: nat, workers: nat, i: nat) -> nat {
    if i < workers {
        segment_start(length, i, workers)
    } else {
        copied_prefix(length, workers)
    }
}

/// A bulk write whose source is not exactly as long as the region always
/// signals a size mismatch, and writes nothing.
pub proof fn lemma_size_mismatch_writes_nothing(job: Job, workers: nat, old: Seq<u8>, src: Seq<u8>)
    requires
        src.len() != old.len(),
    ensures
        after_write(job, workers, old, src) == old,
        write_result(job, old.len(), src.len()) == Err::<(), WriteError>(WriteError::SizeMismatch),
{
}

/// After a fill with `byte`, every byte of the region, of any length, holds `byte`.
pub proof fn lemma_fill_then_view(len: nat, byte: u8)
    ensures
        filled(len, byte).len() == len,
        forall|k: int| 0 <= k < len ==> #[trigger] filled(len, byte)[k] == byte,
{
}

/// Once the workers have exited, no bulk write changes the region; one with a
/// source of the right length reports that the workers have exited.
pub proof fn lemma_no_write_after_exit(workers: nat, old: Seq<u8>, src: Seq<u8>)
    ensures
        after_write(Job::Exit, workers, old, src) == old,
        write_result(Job::Exit, old.len(), src.len()) is Err,
        src.len() == old.len() ==> write_result(Job::Exit, old.len(), src.len()) == Err::<
            (),
            WriteError,
        >(WriteError::WorkersExited),
{
}

/// A bulk write of a source as long as the region, before the workers exit,
/// leaves the region equal to the source wherever the segments tile the region.
pub proof fn lemma_write_round_trip(job: Job, workers: nat, old: Seq<u8>, src: Seq<u8>)
    requires
        workers > 0,
        !(job is Exit),
        src.len() == old.len(),
        tiles_region(old.len(), workers),
    ensures
        after_write(job, workers, old, src) == src,
        write_result(job, old.len(), src.len()) == Ok::<(), WriteError>(()),
{
    lemma_last_segment_end(old.len(), workers);
    assert(written(old, src, workers) =~= src);
}

/// The bytes that a bulk write copies are exactly those that lie in some
/// participant's segment, whatever the region length and the participant count.
pub proof fn lemma_written_is_covered(old: Seq<u8>, src: Seq<u8>, workers: nat)
    requires
        workers > 0,
        src.len() == old.len(),
    ensures
        forall|k: int|
            0 <= k < old.len() ==> #[trigger] written(old, src, workers)[k] == if covered(
                old.len(),
                workers,
                k,
            ) {
                src[k]
            } else {
                old[k]
            },
{
    let l = old.len();
    assert forall|k: int| 0 <= k < l implies (k < copied_prefix(l, workers) <==> #[trigger] covered(l, workers, k)) by {
        if k < copied_prefix(l, workers) {
            lemma_prefix_covered(l, workers, (workers - 1) as nat, k);
        }
        if covered(l, workers, k) {
            let i = choose|i: nat| i < workers && #[trigger] in_segment(l, i, workers, k);
            if i + 1 < workers {
                lemma_segment_order(l, workers, i, (workers - 1) as nat);
            }
        }
    }
}

/// A byte before the end of segment `i` lies in one of the segments `0..=i`.
proof fn lemma_prefix_covered(length: nat, workers: nat, i: nat, k: int)
    requires
        i < workers,
        0 <= k < segment_end(length, i, workers),
    ensures
        covered(length, workers, k),
    decreases i,
{
    if k >= segment_start(length, i, workers) {
        assert(in_segment(length, i, workers, k));
    } else {
        assert(i > 0) by (nonlinear_arith)
            requires
                k < segment_start(length, i, workers),
                segment_start(length, i, workers) == i * (length / workers),
                k >= 0;
        lemma_segment_bounds(length, (i - 1) as nat, workers);
        lemma_prefix_covered(length, workers, (i - 1) as nat, k);
    }
}

} // verus!
