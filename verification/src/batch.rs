use vstd::prelude::*;
use std::collections::VecDeque;
use crate::text::{decimal, owned, push_decimal};

verus! {

/// Remove clip `idx` from the list; an index past the end leaves it as is.
pub fn remove_clip<T>(clips: &mut Vec<T>, idx: usize)
    ensures
        idx < old(clips)@.len() ==> final(clips)@ == old(clips)@.remove(idx as int),
        idx >= old(clips)@.len() ==> final(clips)@ == old(clips)@,
{
    if idx < clips.len() {
        clips.remove(idx);
    }
}

/// The selection after clip `removed` was deleted: cleared if it was the
/// selected clip, moved down by one if it came after the removed clip.
pub open spec fn selection_after_removal_spec(selected: Option<usize>, removed: usize) -> Option<
    usize,
> {
    match selected {
        Some(s) => if s == removed {
            None
        } else if s > removed {
            Some((s - 1) as usize)
        } else {
            Some(s)
        },
        None => None,
    }
}

/// Keep the selection on the same clip after clip `removed` was deleted.
pub fn selection_after_removal(selected: Option<usize>, removed: usize) -> (r: Option<usize>)
    ensures
        r == selection_after_removal_spec(selected, removed),
        selected is None ==> r is None,
        r matches Some(t) ==> selected matches Some(s) && s != removed && (t == s || t + 1 == s),
        selected matches Some(s) && s != removed ==> r is Some,
{
    match selected {
        Some(s) => if s == removed {
            None
        } else if s > removed {
            Some(s - 1)
        } else {
            Some(s)
        },
        None => None,
    }
}

/// Deleting a clip never creates a selection: with nothing selected, nothing
/// is selected afterwards, whichever clip was deleted.
pub proof fn lemma_removal_keeps_no_selection(removed: usize)
    ensures
        selection_after_removal_spec(None, removed) is None,
{
}

/// Deleting a clip keeps the selection on the clip it pointed at, or clears
/// it when that clip was the one deleted.
pub proof fn lemma_selection_follows_clip<T>(clips: Seq<T>, selected: usize, removed: usize)
    requires
        selected < clips.len(),
        removed < clips.len(),
    ensures
        selected == removed ==> selection_after_removal_spec(Some(selected), removed) is None,
        selected != removed ==> ({
            let s = selection_after_removal_spec(Some(selected), removed)->Some_0;
            &&& selection_after_removal_spec(Some(selected), removed) is Some
            &&& s < clips.remove(removed as int).len()
            &&& clips.remove(removed as int)[s as int] == clips[selected as int]
        }),
{
}

/// Why a batch export was not started.
#[derive(Clone, Copy, Debug, PartialEq, Eq)]
pub enum BatchRefusal {
    /// No source video is loaded.
    NoSource,
    /// Some clip does not end after it starts.
    InvalidClip,
}

impl BatchRefusal {
    /// The notice shown to the user.
    pub fn message(&self) -> (s: String)
        ensures
            s@ == match self {
                BatchRefusal::NoSource => "Open a video first"@,
                BatchRefusal::InvalidClip => "Cannot start batch: every clip must have IN < OUT"@,
            },
    {
        match self {
            BatchRefusal::NoSource => owned("Open a video first"),
            BatchRefusal::InvalidClip => owned("Cannot start batch: every clip must have IN < OUT"),
        }
    }
}

/// What the batch asks the caller to do next.
#[derive(Clone, Copy, Debug, PartialEq, Eq)]
pub enum NextClip<T> {
    /// No batch is running: nothing to do.
    Idle,
    /// The batch is over after this many clips: report them as saved.
    Finished(usize),
    /// The source went away: the batch was dropped.
    SourceGone,
    /// Export this clip now.
    Spawn(T),
    /// A clip was taken from the batch while an export was still running,
    /// and is not exported.
    Skipped,
}

/// The outcome of asking for a batch export.
#[derive(Clone, Copy, Debug, PartialEq, Eq)]
pub enum StartBatch<T> {
    /// No clips, or a batch is already running: nothing happens.
    Ignored,
    /// The batch cannot start; show the refusal.
    Refused(BatchRefusal),
    /// An output directory must be chosen first; ask again once one is.
    NeedOutputDir,
    /// The batch started with a snapshot of the clips; act on its first step.
    Started(NextClip<T>),
}

/// The batch export state: the clips still to export (a snapshot taken when
/// the batch started), the one-based number of the next clip, the size of the
/// batch and whether an export is running.
pub struct ExportBatch<T> {
    pending: Option<VecDeque<T>>,
    export_index: usize,
    last_export_count: usize,
    in_progress: bool,
}

/// The mathematical state of an [`ExportBatch`].
pub struct BatchView<T> {
    pub pending: Option<Seq<T>>,
    pub export_index: nat,
    pub last_export_count: nat,
    pub in_progress: bool,
}

impl<T> View for ExportBatch<T> {
    type V = BatchView<T>;

    closed spec fn view(&self) -> BatchView<T> {
        BatchView {
            pending: match self.pending {
                Some(q) => Some(q@),
                None => None,
            },
            export_index: self.export_index as nat,
            last_export_count: self.last_export_count as nat,
            in_progress: self.in_progress,
        }
    }
}

impl<T> BatchView<T> {
    /// The counters stay in range: the next clip number plus the clips left
    /// never exceed the batch size plus one, and the batch size leaves room
    /// for that number.
    pub open spec fn wf(self) -> bool {
        &&& self.last_export_count < usize::MAX
        &&& self.export_index <= usize::MAX
        &&& self.pending matches Some(q) ==> self.export_index + q.len() <= self.last_export_count
            + 1
    }

    /// The state after asking for the next clip of the batch.
    pub open spec fn next(self, source_loaded: bool) -> (BatchView<T>, NextClip<T>) {
        match self.pending {
            None => (self, NextClip::Idle),
            Some(q) => if q.len() == 0 {
                (
                    BatchView { pending: None, export_index: 0, ..self },
                    NextClip::Finished(self.last_export_count as usize),
                )
            } else if !source_loaded {
                (BatchView { pending: None, export_index: 0, ..self }, NextClip::SourceGone)
            } else if !self.in_progress {
                (
                    BatchView {
                        pending: Some(q.drop_first()),
                        export_index: self.export_index + 1,
                        ..self
                    },
                    NextClip::Spawn(q[0]),
                )
            } else {
                (BatchView { pending: Some(q.drop_first()), ..self }, NextClip::Skipped)
            },
        }
    }

    /// The state after a request to export all of `clips`.
    pub open spec fn start(
        self,
        clips: Seq<T>,
        source_loaded: bool,
        clips_valid: bool,
        output_dir_set: bool,
    ) -> (BatchView<T>, StartBatch<T>) {
        if clips.len() == 0 || self.pending is Some {
            (self, StartBatch::Ignored)
        } else if !source_loaded {
            (self, StartBatch::Refused(BatchRefusal::NoSource))
        } else if !clips_valid {
            (self, StartBatch::Refused(BatchRefusal::InvalidClip))
        } else if !output_dir_set {
            (self, StartBatch::NeedOutputDir)
        } else {
            let begun = BatchView {
                pending: Some(clips),
                export_index: 1,
                last_export_count: clips.len(),
                ..self
            };
            let (after, step) = begun.next(true);
            (after, StartBatch::Started(step))
        }
    }

    /// The state after an export finished: nothing runs any more, and a
    /// running batch moves on to its next clip.
    pub open spec fn finish(self, source_loaded: bool) -> (BatchView<T>, NextClip<T>) {
        let stopped = BatchView { in_progress: false, ..self };
        if self.pending is Some {
            stopped.next(source_loaded)
        } else {
            (stopped, NextClip::Idle)
        }
    }

    /// The state after the user cancelled: no batch, nothing running.
    pub open spec fn cancelled(self) -> BatchView<T> {
        BatchView { pending: None, export_index: 0, in_progress: false, ..self }
    }

    /// The clip position shown while a batch runs: during an export the
    /// number of the clip being encoded, otherwise the next clip number,
    /// out of the batch size (at least one).
    pub open spec fn position(self) -> Option<(nat, nat)> {
        if self.pending is Some {
            let total = if self.last_export_count < 1 { 1 } else { self.last_export_count };
            if self.in_progress {
                let done = if self.export_index < 1 { 0 } else { (self.export_index - 1) as nat };
                Some((if done < total { done } else { total }, total))
            } else {
                Some((self.export_index, total))
            }
        } else {
            None
        }
    }

    /// A batch over `snapshot` is under way: the clips left are exactly the
    /// snapshot without the `export_index - 1` clips taken so far.
    pub open spec fn running_over(self, snapshot: Seq<T>) -> bool {
        &&& 1 <= self.export_index <= snapshot.len() + 1
        &&& self.last_export_count == snapshot.len()
        &&& self.pending == Some(snapshot.skip(self.export_index - 1))
    }
}

impl<T> ExportBatch<T> {
    /// The counters of every batch value stay in range.
    #[verifier::type_invariant]
    spec fn counters_in_range(self) -> bool {
        self@.wf()
    }
}

impl<T: Copy> ExportBatch<T> {
    /// No batch, nothing running.
    pub fn new() -> (b: Self)
        ensures
            b@.wf(),
            b@.pending is None,
            b@.export_index == 0,
            b@.last_export_count == 0,
            !b@.in_progress,
    {
        ExportBatch { pending: None, export_index: 0, last_export_count: 0, in_progress: false }
    }

    /// A batch is running.
    pub fn is_running(&self) -> (r: bool)
        ensures
            r == self@.pending is Some,
    {
        self.pending.is_some()
    }

    /// An export is running.
    pub fn in_progress(&self) -> (r: bool)
        ensures
            r == self@.in_progress,
    {
        self.in_progress
    }

    /// One-based number of the next clip of the batch.
    pub fn export_index(&self) -> (r: usize)
        ensures
            r == self@.export_index,
    {
        self.export_index
    }

    /// Number of clips in the last batch started.
    pub fn last_export_count(&self) -> (r: usize)
        ensures
            r == self@.last_export_count,
    {
        self.last_export_count
    }

    /// Take the next clip of the running batch.
    pub fn spawn_next(&mut self, source_loaded: bool) -> (r: NextClip<T>)
        ensures
            (final(self)@, r) == old(self)@.next(source_loaded),
    {
        proof {
            use_type_invariant(&*self);
        }
        let mut taken: Option<VecDeque<T>> = None;
        std::mem::swap(&mut taken, &mut self.pending);
        match taken {
            None => NextClip::Idle,
            Some(mut q) => {
                let ghost q0 = q@;
                match q.pop_front() {
                    None => {
                        self.export_index = 0;
                        NextClip::Finished(self.last_export_count)
                    },
                    Some(clip) => {
                        assert(q@ =~= q0.drop_first());
                        if !source_loaded {
                            self.export_index = 0;
                            NextClip::SourceGone
                        } else {
                            self.pending = Some(q);
                            if !self.in_progress {
                                self.export_index = self.export_index + 1;
                                NextClip::Spawn(clip)
                            } else {
                                NextClip::Skipped
                            }
                        }
                    },
                }
            },
        }
    }

    /// Ask to export all of `clips`, given whether a source is loaded, whether
    /// every clip ends after it starts and whether an output directory is set.
    pub fn start(
        &mut self,
        clips: &Vec<T>,
        source_loaded: bool,
        clips_valid: bool,
        output_dir_set: bool,
    ) -> (r: StartBatch<T>)
        requires
            clips@.len() < usize::MAX,
        ensures
            (final(self)@, r) == old(self)@.start(
                clips@,
                source_loaded,
                clips_valid,
                output_dir_set,
            ),
            r is Started ==> output_dir_set && source_loaded && clips_valid && clips@.len() > 0,
            !(r is Started) ==> final(self)@ == old(self)@,
            clips@.len() > 0 && old(self)@.pending is None && source_loaded && clips_valid
                && !output_dir_set ==> r == StartBatch::<T>::NeedOutputDir,
            clips@.len() > 0 && old(self)@.pending is None && !source_loaded ==> r
                == StartBatch::<T>::Refused(BatchRefusal::NoSource),
            clips@.len() > 0 && old(self)@.pending is None && source_loaded && !clips_valid ==> r
                == StartBatch::<T>::Refused(BatchRefusal::InvalidClip),
            clips@.len() == 0 || old(self)@.pending is Some ==> r == StartBatch::<T>::Ignored,
            clips@.len() > 0 && old(self)@.pending is None && source_loaded && clips_valid
                && output_dir_set && !old(self)@.in_progress ==> {
                &&& r == StartBatch::Started(NextClip::Spawn(clips@[0]))
                &&& final(self)@.running_over(clips@)
                &&& final(self)@.export_index == 2
            },
    {
        proof {
            if clips@.len() > 0 && old(self)@.pending is None && !old(self)@.in_progress {
                lemma_start_exports_first(old(self)@, clips@);
            }
        }
        proof {
            use_type_invariant(&*self);
        }
        if clips.len() == 0 || self.pending.is_some() {
            return StartBatch::Ignored;
        }
        if !source_loaded {
            return StartBatch::Refused(BatchRefusal::NoSource);
        }
        if !clips_valid {
            return StartBatch::Refused(BatchRefusal::InvalidClip);
        }
        if !output_dir_set {
            return StartBatch::NeedOutputDir;
        }
        let mut queue: VecDeque<T> = VecDeque::new();
        let mut i: usize = 0;
        while i < clips.len()
            invariant
                i <= clips@.len(),
                queue@ == clips@.take(i as int),
            decreases clips.len() - i,
        {
            queue.push_back(clips[i]);
            i = i + 1;
            assert(queue@ =~= clips@.take(i as int));
        }
        assert(clips@.take(i as int) =~= clips@);
        self.export_index = 1;
        self.last_export_count = clips.len();
        self.pending = Some(queue);
        StartBatch::Started(self.spawn_next(true))
    }

    /// An export process was started.
    pub fn export_started(&mut self)
        ensures
            final(self)@ == (BatchView { in_progress: true, ..old(self)@ }),
    {
        proof {
            use_type_invariant(&*self);
        }
        self.in_progress = true;
    }

    /// The running export reported completion; move a running batch on.
    pub fn export_finished(&mut self, source_loaded: bool) -> (r: NextClip<T>)
        ensures
            (final(self)@, r) == old(self)@.finish(source_loaded),
    {
        proof {
            use_type_invariant(&*self);
        }
        self.in_progress = false;
        if self.pending.is_some() {
            self.spawn_next(source_loaded)
        } else {
            NextClip::Idle
        }
    }

    /// The running export went away without reporting completion.
    pub fn export_lost(&mut self)
        ensures
            final(self)@ == (BatchView { in_progress: false, ..old(self)@ }),
    {
        proof {
            use_type_invariant(&*self);
        }
        self.in_progress = false;
    }

    /// The user cancelled: drop the rest of the batch and stop tracking the
    /// export. The clip list itself is not touched.
    pub fn cancel(&mut self)
        ensures
            final(self)@ == old(self)@.cancelled(),
    {
        proof {
            use_type_invariant(&*self);
        }
        self.pending = None;
        self.export_index = 0;
        self.in_progress = false;
    }

    /// The `(clip, total)` position to show while a batch runs.
    pub fn position(&self) -> (r: Option<(usize, usize)>)
        ensures
            match r {
                Some((a, b)) => self@.position() == Some((a as nat, b as nat)),
                None => self@.position() is None,
            },
    {
        if self.pending.is_some() {
            let total = if self.last_export_count < 1 { 1 } else { self.last_export_count };
            if self.in_progress {
                let done = if self.export_index < 1 { 0 } else { self.export_index - 1 };
                Some((if done < total { done } else { total }, total))
            } else {
                Some((self.export_index, total))
            }
        } else {
            None
        }
    }
}

/// The outcomes of `k` successive export completions with the source loaded.
pub open spec fn completions<T>(v: BatchView<T>, k: nat) -> Seq<NextClip<T>>
    decreases k,
{
    if k == 0 {
        Seq::empty()
    } else {
        let (after, step) = v.finish(true);
        seq![step] + completions(after, (k - 1) as nat)
    }
}

/// A batch never starts without an output directory: whenever the request
/// is neither ignored nor refused, a missing directory is asked for first and
/// the state is left as it was, whatever the number of clips.
pub proof fn lemma_start_needs_output_dir<T>(
    v: BatchView<T>,
    clips: Seq<T>,
    source_loaded: bool,
    clips_valid: bool,
)
    ensures
        v.start(clips, source_loaded, clips_valid, false).1 is Started == false,
        clips.len() > 0 && v.pending is None && source_loaded && clips_valid ==> v.start(
            clips,
            true,
            true,
            false,
        ) == (v, StartBatch::<T>::NeedOutputDir),
{
}

/// Starting a batch over a non-empty clip list with the source loaded, every
/// clip valid and an output directory set takes a snapshot of the clips and
/// exports the first one.
pub proof fn lemma_start_exports_first<T>(v: BatchView<T>, clips: Seq<T>)
    requires
        v.pending is None,
        !v.in_progress,
        clips.len() > 0,
    ensures
        v.start(clips, true, true, true).1 == StartBatch::Started(NextClip::Spawn(clips[0])),
        v.start(clips, true, true, true).0.running_over(clips),
        v.start(clips, true, true, true).0.export_index == 2,
        !v.start(clips, true, true, true).0.in_progress,
{
    assert(clips.drop_first() =~= clips.skip(1));
}

/// While a batch over `snapshot` runs, each completed export moves on to the
/// next clip of the snapshot in order; after the last one the batch reports
/// all of its clips as saved and stops.
pub proof fn lemma_completion_step<T>(v: BatchView<T>, snapshot: Seq<T>)
    requires
        v.running_over(snapshot),
    ensures
        v.export_index - 1 < snapshot.len() ==> {
            &&& v.finish(true).1 == NextClip::Spawn(snapshot[v.export_index - 1])
            &&& v.finish(true).0.running_over(snapshot)
            &&& v.finish(true).0.export_index == v.export_index + 1
            &&& !v.finish(true).0.in_progress
        },
        v.export_index - 1 == snapshot.len() ==> {
            &&& v.finish(true).1 == NextClip::<T>::Finished(snapshot.len() as usize)
            &&& v.finish(true).0.pending is None
        },
{
    let q = snapshot.skip(v.export_index - 1);
    if v.export_index - 1 < snapshot.len() {
        assert(q[0] == snapshot[v.export_index - 1]);
        assert(q.drop_first() =~= snapshot.skip(v.export_index as int));
    }
}

/// From any point of a running batch, the remaining completions export the
/// remaining clips of the snapshot in order and then report the whole batch.
pub proof fn lemma_completions_rest<T>(v: BatchView<T>, snapshot: Seq<T>)
    requires
        v.running_over(snapshot),
    ensures
        ({
            let done = (v.export_index - 1) as nat;
            let left = (snapshot.len() - done) as nat;
            completions(v, left + 1) == Seq::new(
                left,
                |j: int| NextClip::Spawn(snapshot[done + j]),
            ).push(NextClip::<T>::Finished(snapshot.len() as usize))
        }),
    decreases snapshot.len() - (v.export_index - 1),
{
    let done = (v.export_index - 1) as nat;
    let left = (snapshot.len() - done) as nat;
    lemma_completion_step(v, snapshot);
    let (after, step) = v.finish(true);
    if left == 0 {
        assert(completions(after, 0) == Seq::<NextClip<T>>::empty());
        assert(completions(v, 1) =~= seq![step]);
        assert(Seq::new(left, |j: int| NextClip::Spawn(snapshot[done + j])).push(
            NextClip::<T>::Finished(snapshot.len() as usize),
        ) =~= seq![step]);
    } else {
        lemma_completions_rest(after, snapshot);
        let rest = Seq::new(
            (left - 1) as nat,
            |j: int| NextClip::Spawn(snapshot[done + 1 + j]),
        ).push(NextClip::<T>::Finished(snapshot.len() as usize));
        assert(completions(after, left) == rest);
        assert(completions(v, left + 1) == seq![step] + completions(after, left));
        assert(seq![step] + rest =~= Seq::new(
            left,
            |j: int| NextClip::Spawn(snapshot[done + j]),
        ).push(NextClip::<T>::Finished(snapshot.len() as usize)));
    }
}

/// A batch started over `clips` exports every clip exactly once, in list
/// order, one per completed export, and then reports all of them as saved.
pub proof fn lemma_batch_exports_every_clip<T>(v: BatchView<T>, clips: Seq<T>)
    requires
        v.pending is None,
        !v.in_progress,
        clips.len() > 0,
    ensures
        ({
            let (started, first) = v.start(clips, true, true, true);
            &&& first == StartBatch::Started(NextClip::Spawn(clips[0]))
            &&& completions(started, clips.len()) == Seq::new(
                (clips.len() - 1) as nat,
                |j: int| NextClip::Spawn(clips[1 + j]),
            ).push(NextClip::<T>::Finished(clips.len() as usize))
        }),
{
    lemma_start_exports_first(v, clips);
    let started = v.start(clips, true, true, true).0;
    lemma_completions_rest(started, clips);
}

/// Cancelling leaves no batch and no export running, so asking again for the
/// same clips starts over from the first clip.
pub proof fn lemma_cancel_then_retry<T>(v: BatchView<T>, clips: Seq<T>)
    requires
        clips.len() > 0,
    ensures
        v.cancelled().pending is None,
        !v.cancelled().in_progress,
        v.cancelled().start(clips, true, true, true).1 == StartBatch::Started(
            NextClip::Spawn(clips[0]),
        ),
{
    lemma_start_exports_first(v.cancelled(), clips);
}

/// While the `k`-th clip (counting from one) of a batch is being encoded,
/// the position shown is `k` out of the batch size.
pub proof fn lemma_position_while_encoding<T>(v: BatchView<T>, snapshot: Seq<T>)
    requires
        v.running_over(snapshot),
        v.in_progress,
        v.export_index >= 2,
    ensures
        v.position() == Some(((v.export_index - 1) as nat, snapshot.len())),
{
}

/// The state once an export process runs.
pub open spec fn with_export_running<T>(v: BatchView<T>) -> BatchView<T> {
    BatchView { in_progress: true, ..v }
}

/// The state while clip `k` (counting from one) of a batch over `clips` is
/// being encoded: the batch was started from `v`, and each earlier clip's
/// export was started and completed in turn.
pub open spec fn encoding_clip<T>(v: BatchView<T>, clips: Seq<T>, k: nat) -> BatchView<T>
    decreases k,
{
    if k <= 1 {
        with_export_running(v.start(clips, true, true, true).0)
    } else {
        with_export_running(encoding_clip(v, clips, (k - 1) as nat).finish(true).0)
    }
}

/// Over a whole batch run: while clip `k` of `n` is being encoded, clip `k`
/// of the list is the one handed out for export, the batch is still running
/// (so no new batch can be started) and the position shown is `k / n`.
pub proof fn lemma_batch_shows_clip_being_encoded<T>(v: BatchView<T>, clips: Seq<T>, k: nat)
    requires
        v.pending is None,
        !v.in_progress,
        1 <= k <= clips.len(),
    ensures
        encoding_clip(v, clips, k).running_over(clips),
        encoding_clip(v, clips, k).export_index == k + 1,
        encoding_clip(v, clips, k).in_progress,
        encoding_clip(v, clips, k).position() == Some((k, clips.len())),
        k == 1 ==> v.start(clips, true, true, true).1 == StartBatch::Started(
            NextClip::Spawn(clips[0]),
        ),
        k >= 2 ==> encoding_clip(v, clips, (k - 1) as nat).finish(true).1 == NextClip::Spawn(
            clips[k - 1],
        ),
    decreases k,
{
    if k == 1 {
        lemma_start_exports_first(v, clips);
    } else {
        lemma_batch_shows_clip_being_encoded(v, clips, (k - 1) as nat);
        lemma_completion_step(encoding_clip(v, clips, (k - 1) as nat), clips);
    }
    lemma_position_while_encoding(encoding_clip(v, clips, k), clips);
}

/// `Saved N clips`.
pub open spec fn saved_text(n: nat) -> Seq<char> {
    "Saved "@ + decimal(n) + " clips"@
}

/// The message shown when a batch of `n` clips has been exported.
pub fn saved_message(n: usize) -> (s: String)
    ensures
        s@ == saved_text(n as nat),
{
    let mut s = owned("Saved ");
    push_decimal(&mut s, n as u64);
    s.append(" clips");
    s
}

/// `Exporting clip C / T`.
pub open spec fn position_text(clip: nat, total: nat) -> Seq<char> {
    "Exporting clip "@ + decimal(clip) + " / "@ + decimal(total)
}

/// The batch progress label for clip `clip` of `total`.
pub fn position_label(clip: usize, total: usize) -> (s: String)
    ensures
        s@ == position_text(clip as nat, total as nat),
{
    let mut s = owned("Exporting clip ");
    push_decimal(&mut s, clip as u64);
    s.append(" / ");
    push_decimal(&mut s, total as u64);
    s
}

} // verus!
