use vstd::prelude::*;

verus! {

/// The samples of frame `i` of interleaved audio with `channels` channels.
pub open spec fn frame_of<S>(data: Seq<S>, channels: nat, i: int) -> Seq<S> {
    data.subrange(i * channels, i * channels + channels)
}

/// `m` is what the averaging function gives for frame `i` of `data`.
pub open spec fn is_frame_mean<S, F: Fn(&[S]) -> S>(
    mean: F,
    data: Seq<S>,
    channels: nat,
    i: int,
    m: S,
) -> bool {
    exists|fr: &[S]| fr@ == frame_of(data, channels, i) && #[trigger] mean.ensures((fr,), m)
}

/// `out` is the mono downmix of `data`: the input itself for one channel, else
/// one averaged sample per whole frame.
pub open spec fn is_downmix<S, F: Fn(&[S]) -> S>(
    mean: F,
    data: Seq<S>,
    channels: nat,
    out: Seq<S>,
) -> bool {
    &&& out.len() == data.len() / channels
    &&& channels == 1 ==> out == data
    &&& channels > 1 ==> forall|i: int|
        0 <= i < out.len() ==> #[trigger] is_frame_mean(mean, data, channels, i, out[i])
}

/// The averaging function accepts every frame of `channels` samples.
pub open spec fn accepts_frames<S, F: Fn(&[S]) -> S>(mean: F, channels: nat) -> bool {
    forall|fr: &[S]| fr@.len() == channels ==> #[trigger] mean.requires((fr,))
}

proof fn lemma_frame_bounds(len: nat, channels: nat, i: nat)
    requires
        channels >= 1,
        i < len / channels,
    ensures
        i * channels + channels <= len,
{
    assert(i + 1 <= len / channels);
    assert((i + 1) * channels <= (len / channels) * channels) by (nonlinear_arith)
        requires
            i + 1 <= len / channels,
    ;
    assert((len / channels) * channels <= len) by (nonlinear_arith)
        requires
            channels >= 1,
    ;
    assert((i + 1) * channels == i * channels + channels) by (nonlinear_arith);
}

/// Mixes interleaved audio down to mono, appending the result to `out`.
///
/// With one channel the input is appended verbatim. With more, each whole
/// frame is replaced by what `mean` gives for it; a trailing partial frame is
/// dropped.
pub fn downmix_into<S: Copy, F: Fn(&[S]) -> S>(
    out: &mut Vec<S>,
    data: &[S],
    channels: usize,
    mean: &F,
)
    requires
        channels >= 1,
        accepts_frames(*mean, channels as nat),
    ensures
        final(out)@.len() == old(out)@.len() + data@.len() / (channels as nat),
        final(out)@.subrange(0, old(out)@.len() as int) == old(out)@,
        is_downmix(
            *mean,
            data@,
            channels as nat,
            final(out)@.subrange(old(out)@.len() as int, final(out)@.len() as int),
        ),
{
    let ghost start = out@.len();
    if channels == 1 {
        let mut k: usize = 0;
        while k < data.len()
            invariant
                k <= data@.len(),
                out@.len() == start + k,
                out@.subrange(0, start as int) == old(out)@,
                out@.subrange(start as int, out@.len() as int) == data@.subrange(0, k as int),
            decreases data@.len() - k,
        {
            out.push(data[k]);
            k = k + 1;
            proof {
                assert(out@.subrange(0, start as int) =~= old(out)@);
                assert(out@.subrange(start as int, out@.len() as int) =~= data@.subrange(
                    0,
                    k as int,
                ));
            }
        }
        proof {
            assert(data@.subrange(0, k as int) =~= data@);
        }
        return;
    }
    let n: usize = data.len();
    let frames: usize = n / channels;
    let mut i: usize = 0;
    while i < frames
        invariant
            channels > 1,
            n == data@.len(),
            frames == data@.len() / (channels as nat),
            i <= frames,
            accepts_frames(*mean, channels as nat),
            out@.len() == start + i,
            out@.subrange(0, start as int) == old(out)@,
            forall|j: int|
                0 <= j < i ==> #[trigger] is_frame_mean(
                    *mean,
                    data@,
                    channels as nat,
                    j,
                    out@[start + j],
                ),
        decreases frames - i,
    {
        proof {
            lemma_frame_bounds(data@.len(), channels as nat, i as nat);
            assert(i * channels + channels <= n);
        }
        let lo: usize = i * channels;
        let fr = &data[lo..lo + channels];
        assert(fr@ == frame_of(data@, channels as nat, i as int));
        let m = mean(fr);
        let ghost before = out@;
        out.push(m);
        proof {
            assert(is_frame_mean(*mean, data@, channels as nat, i as int, m));
            assert(out@.subrange(0, start as int) =~= old(out)@) by {
                assert(before.subrange(0, start as int) == old(out)@);
            }
            assert forall|j: int| 0 <= j < i + 1 implies #[trigger] is_frame_mean(
                *mean,
                data@,
                channels as nat,
                j,
                out@[start + j],
            ) by {
                if j < i {
                    assert(out@[start + j] == before[start + j]);
                }
            }
        }
        i = i + 1;
    }
    proof {
        let tail = out@.subrange(start as int, out@.len() as int);
        assert forall|j: int| 0 <= j < tail.len() implies #[trigger] is_frame_mean(
            *mean,
            data@,
            channels as nat,
            j,
            tail[j],
        ) by {
            assert(start + j < out@.len());
            assert(tail[j] == out@[start + j]);
        }
    }
}

} // verus!

verus! {

/// The mono sample buffer shared between the audio callback and the control
/// path, together with the flag that says whether a session is capturing.
///
/// Callers that share it between threads put the whole value under one lock,
/// so that the flag and the samples are always read and written together.
pub struct CaptureBuffer<S> {
    samples: Vec<S>,
    active: bool,
}

impl<S: Copy> CaptureBuffer<S> {
    /// Whether a capture session is open.
    pub closed spec fn is_capturing(&self) -> bool {
        self.active
    }

    /// The samples gathered since the session opened.
    pub closed spec fn contents(&self) -> Seq<S> {
        self.samples@
    }

    /// An empty buffer with no session open.
    pub fn new() -> (r: Self)
        ensures
            !r.is_capturing(),
            r.contents() == Seq::<S>::empty(),
    {
        CaptureBuffer { samples: Vec::new(), active: false }
    }

    /// Opens a session: clears the samples and starts accepting audio. While a
    /// session is already open this changes nothing.
    pub fn begin(&mut self)
        ensures
            begin_post(*old(self), *final(self)),
    {
        if !self.active {
            self.samples.clear();
            self.active = true;
        }
    }

    /// Whether a session is open.
    pub fn is_active(&self) -> (r: bool)
        ensures
            r == self.is_capturing(),
    {
        self.active
    }

    /// Takes one chunk of interleaved audio from the device. Outside a session
    /// the chunk is ignored; inside one its mono downmix is appended.
    pub fn push_chunk<F: Fn(&[S]) -> S>(&mut self, data: &[S], channels: usize, mean: &F)
        requires
            channels >= 1,
            accepts_frames(*mean, channels as nat),
        ensures
            final(self).is_capturing() == old(self).is_capturing(),
            !old(self).is_capturing() ==> final(self).contents() == old(self).contents(),
            old(self).is_capturing() ==> {
                let old_len = old(self).contents().len();
                let new_len = final(self).contents().len();
                &&& new_len == old_len + data@.len() / (channels as nat)
                &&& final(self).contents().subrange(0, old_len as int) == old(self).contents()
                &&& is_downmix(
                    *mean,
                    data@,
                    channels as nat,
                    final(self).contents().subrange(old_len as int, new_len as int),
                )
            },
    {
        if self.active {
            downmix_into(&mut self.samples, data, channels, mean);
        }
    }

    /// Closes the session and hands out every sample gathered in it. The
    /// samples stay in place until the next session opens. Without an open
    /// session nothing changes and `None` comes back.
    pub fn finish(&mut self) -> (r: Option<Vec<S>>)
        ensures
            !final(self).is_capturing(),
            final(self).contents() == old(self).contents(),
            old(self).is_capturing() <==> r is Some,
            r matches Some(v) ==> v@ == old(self).contents(),
    {
        if !self.active {
            return None;
        }
        self.active = false;
        let mut out: Vec<S> = Vec::new();
        let mut k: usize = 0;
        while k < self.samples.len()
            invariant
                k <= self.samples@.len(),
                out@ == self.samples@.subrange(0, k as int),
            decreases self.samples@.len() - k,
        {
            out.push(self.samples[k]);
            k = k + 1;
            assert(out@ =~= self.samples@.subrange(0, k as int));
        }
        assert(out@ =~= self.samples@);
        Some(out)
    }
}

/// What `begin` does: opens a session, clearing the samples only when none
/// was open.
pub open spec fn begin_post<S: Copy>(pre: CaptureBuffer<S>, post: CaptureBuffer<S>) -> bool {
    &&& post.is_capturing()
    &&& pre.is_capturing() ==> post.contents() == pre.contents()
    &&& !pre.is_capturing() ==> post.contents() == Seq::<S>::empty()
}

/// Opening a session twice in a row clears the samples at most once: after
/// the first call the buffer is open, and empty if it was closed before; the
/// second call leaves it as it is.
pub proof fn lemma_begin_twice_clears_once<S: Copy>(
    b0: CaptureBuffer<S>,
    b1: CaptureBuffer<S>,
    b2: CaptureBuffer<S>,
)
    requires
        begin_post(b0, b1),
        begin_post(b1, b2),
    ensures
        b1.is_capturing(),
        !b0.is_capturing() ==> b1.contents() == Seq::<S>::empty(),
        b2.is_capturing(),
        b2.contents() == b1.contents(),
{
}

/// Appends under one lock never lose data: along any run of buffer states in
/// which each state keeps the one before it as a prefix, as `push_chunk` does,
/// the last state still begins with every sample of the first. So a `finish`
/// that takes the lock after some appends hands out all that they appended.
pub proof fn lemma_appends_keep_earlier_samples<S>(states: Seq<Seq<S>>)
    requires
        states.len() >= 1,
        forall|i: int|
            0 <= i < states.len() - 1 ==> {
                &&& #[trigger] states[i].len() <= states[i + 1].len()
                &&& states[i + 1].subrange(0, states[i].len() as int) == states[i]
            },
    ensures
        states[0].len() <= states.last().len(),
        states.last().subrange(0, states[0].len() as int) == states[0],
    decreases states.len(),
{
    if states.len() > 1 {
        let init = states.drop_last();
        assert forall|i: int| 0 <= i < init.len() - 1 implies {
            &&& #[trigger] init[i].len() <= init[i + 1].len()
            &&& init[i + 1].subrange(0, init[i].len() as int) == init[i]
        } by {
            assert(init[i] == states[i]);
            assert(init[i + 1] == states[i + 1]);
        }
        lemma_appends_keep_earlier_samples(init);
        let a = states[0];
        let b = init.last();
        let c = states.last();
        assert(b == states[states.len() - 2]);
        assert(c.subrange(0, b.len() as int) == b);
        assert(c.subrange(0, a.len() as int) =~= b.subrange(0, a.len() as int));
    }
}

} // verus!
