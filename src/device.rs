use vstd::prelude::*;

verus! {

/// Encoder categories, in order of preference.
#[derive(Debug, Clone, Copy, PartialEq, Eq, Structural)]
pub enum VideoEncoderType {
    Hardware,
    Software,
}

/// One encoder backend found on the machine.
pub struct VideoEncoder {
    pub name: String,
    pub encoder_type: VideoEncoderType,
}

impl VideoEncoder {
    pub fn duplicate(&self) -> (r: VideoEncoder)
        ensures
            r == *self,
    {
        VideoEncoder { name: self.name.clone(), encoder_type: self.encoder_type }
    }
}

/// Preference rank of a category: lower is better.
pub open spec fn rank(k: VideoEncoderType) -> int {
    match k {
        VideoEncoderType::Hardware => 0,
        VideoEncoderType::Software => 1,
    }
}

pub open spec fn of_type(k: VideoEncoderType) -> spec_fn(VideoEncoder) -> bool {
    |e: VideoEncoder| e.encoder_type == k
}

/// The discovered encoders, hardware ones first, each category in discovery order.
pub open spec fn ranked(s: Seq<VideoEncoder>) -> Seq<VideoEncoder> {
    s.filter(of_type(VideoEncoderType::Hardware)) + s.filter(of_type(VideoEncoderType::Software))
}

proof fn lemma_partition_len(s: Seq<VideoEncoder>)
    ensures
        s.filter(of_type(VideoEncoderType::Hardware)).len() + s.filter(
            of_type(VideoEncoderType::Software),
        ).len() == s.len(),
    decreases s.len(),
{
    if s.len() > 0 {
        let t = s.drop_last();
        lemma_partition_len(t);
        assert(t.push(s.last()) =~= s);
        t.lemma_filter_push(s.last(), of_type(VideoEncoderType::Hardware));
        t.lemma_filter_push(s.last(), of_type(VideoEncoderType::Software));
    }
}

/// The ranked list is a preference-ordered rearrangement of the discovered one.
pub proof fn lemma_ranked_is_ordered_rearrangement(s: Seq<VideoEncoder>)
    ensures
        ranked(s).len() == s.len(),
        forall|i: int, j: int|
            0 <= i < j < s.len() ==> rank(#[trigger] ranked(s)[i].encoder_type) <= rank(
                #[trigger] ranked(s)[j].encoder_type,
            ),
        forall|e: VideoEncoder| ranked(s).contains(e) <==> s.contains(e),
{
    broadcast use Seq::lemma_filter_pred, Seq::lemma_filter_contains_rev, Seq::lemma_filter_contains;

    let hw = s.filter(of_type(VideoEncoderType::Hardware));
    let sw = s.filter(of_type(VideoEncoderType::Software));
    lemma_partition_len(s);
    assert forall|i: int| 0 <= i < ranked(s).len() implies #[trigger] ranked(s)[i].encoder_type
        == (if i < hw.len() {
        VideoEncoderType::Hardware
    } else {
        VideoEncoderType::Software
    }) by {
        if i < hw.len() {
            assert(ranked(s)[i] == hw[i]);
        } else {
            assert(ranked(s)[i] == sw[i - hw.len()]);
        }
    }
    assert forall|e: VideoEncoder| ranked(s).contains(e) <==> s.contains(e) by {
        if s.contains(e) {
            let k = choose|k: int| 0 <= k < s.len() && s[k] == e;
            s.lemma_filter_contains(of_type(e.encoder_type), k);
            if e.encoder_type == VideoEncoderType::Hardware {
                let m = choose|m: int| 0 <= m < hw.len() && hw[m] == e;
                assert(ranked(s)[m] == e);
            } else {
                let m = choose|m: int| 0 <= m < sw.len() && sw[m] == e;
                assert(ranked(s)[hw.len() + m] == e);
            }
        }
        if ranked(s).contains(e) {
            let k = choose|k: int| 0 <= k < ranked(s).len() && ranked(s)[k] == e;
            if k < hw.len() {
                assert(hw.contains(e));
            } else {
                assert(sw[k - hw.len()] == e);
                assert(sw.contains(e));
            }
        }
    }
}

/// Appends the encoders of one category, in order.
fn append_of_type(out: &mut Vec<VideoEncoder>, s: &Vec<VideoEncoder>, k: VideoEncoderType)
    ensures
        final(out)@ == old(out)@ + s@.filter(of_type(k)),
{
    let mut i: usize = 0;
    while i < s.len()
        invariant
            i <= s@.len(),
            out@ == old(out)@ + s@.take(i as int).filter(of_type(k)),
        decreases s@.len() - i,
    {
        let ghost prev = out@;
        proof {
            assert(s@.take(i + 1) =~= s@.take(i as int).push(s@[i as int]));
            s@.take(i as int).lemma_filter_push(s@[i as int], of_type(k));
        }
        if s[i].encoder_type == k {
            out.push(s[i].duplicate());
            proof {
                assert(out@ =~= old(out)@ + s@.take(i + 1).filter(of_type(k)));
            }
        }
        i = i + 1;
    }
    proof {
        assert(s@.take(s@.len() as int) =~= s@);
    }
}

/// Orders the discovered encoder backends by preference: hardware first,
/// then software, each category keeping its discovery order.
pub fn enumerate_video_encoders(discovered: &Vec<VideoEncoder>) -> (r: Vec<VideoEncoder>)
    ensures
        r@ == ranked(discovered@),
        r@.len() == discovered@.len(),
        forall|i: int, j: int|
            0 <= i < j < r@.len() ==> rank(#[trigger] r@[i].encoder_type) <= rank(
                #[trigger] r@[j].encoder_type,
            ),
        forall|e: VideoEncoder| r@.contains(e) <==> discovered@.contains(e),
{
    let mut r: Vec<VideoEncoder> = Vec::new();
    append_of_type(&mut r, discovered, VideoEncoderType::Hardware);
    append_of_type(&mut r, discovered, VideoEncoderType::Software);
    proof {
        assert(r@ =~= ranked(discovered@));
        lemma_ranked_is_ordered_rearrangement(discovered@);
    }
    r
}

/// The first encoder of the requested category in `encoders`, which is the
/// best one when `encoders` is ranked.
pub fn get_preferred_video_encoder_by_type(encoders: &Vec<VideoEncoder>, kind: VideoEncoderType) -> (r:
    Option<VideoEncoder>)
    ensures
        r is None <==> forall|i: int| 0 <= i < encoders@.len() ==> #[trigger] encoders@[i].encoder_type
            != kind,
        r matches Some(e) ==> {
            &&& e.encoder_type == kind
            &&& exists|i: int|
                0 <= i < encoders@.len() && encoders@[i] == e && forall|j: int|
                    0 <= j < i ==> #[trigger] encoders@[j].encoder_type != kind
        },
{
    let mut i: usize = 0;
    while i < encoders.len()
        invariant
            i <= encoders@.len(),
            forall|j: int| 0 <= j < i ==> #[trigger] encoders@[j].encoder_type != kind,
        decreases encoders@.len() - i,
    {
        if encoders[i].encoder_type == kind {
            return Some(encoders[i].duplicate());
        }
        i = i + 1;
    }
    None
}

} // verus!
