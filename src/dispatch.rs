use vstd::prelude::*;

verus! {

/// How many packets a stream's packet channel holds before the demuxer
/// has to wait.
pub const PACKET_CHANNEL_CAPACITY: usize = 128;

/// The decode worker a packet goes to.
#[derive(Clone, Copy, Debug, PartialEq, Eq, Structural)]
pub enum StreamKind {
    Audio,
    Video,
}

/// Where a packet of stream `stream_index` goes: the audio stream is
/// checked first, packets of any other stream are dropped.
pub open spec fn route(stream_index: usize, audio_index: usize, video_index: usize) -> Option<
    StreamKind,
> {
    if stream_index == audio_index {
        Some(StreamKind::Audio)
    } else if stream_index == video_index {
        Some(StreamKind::Video)
    } else {
        None
    }
}

pub fn route_packet(stream_index: usize, audio_index: usize, video_index: usize) -> (r: Option<
    StreamKind,
>)
    ensures
        r == route(stream_index, audio_index, video_index),
{
    if stream_index == audio_index {
        Some(StreamKind::Audio)
    } else if stream_index == video_index {
        Some(StreamKind::Video)
    } else {
        None
    }
}

/// The positions, in the demuxer's order, of the packets that go to
/// `kind` when the demuxer reads packets of the streams `stream_indices`.
pub open spec fn delivered(
    stream_indices: Seq<usize>,
    audio_index: usize,
    video_index: usize,
    kind: StreamKind,
) -> Seq<int>
    decreases stream_indices.len(),
{
    if stream_indices.len() == 0 {
        Seq::empty()
    } else {
        let before = delivered(stream_indices.drop_last(), audio_index, video_index, kind);
        if route(stream_indices.last(), audio_index, video_index) == Some(kind) {
            before.push(stream_indices.len() - 1)
        } else {
            before
        }
    }
}

/// Each worker receives the packets of its stream in the order the
/// demuxer read them, all of them, and no others.
pub proof fn lemma_dispatch_keeps_order(
    stream_indices: Seq<usize>,
    audio_index: usize,
    video_index: usize,
    kind: StreamKind,
)
    ensures
        ({
            let d = delivered(stream_indices, audio_index, video_index, kind);
            &&& forall|i: int, j: int| 0 <= i < j < d.len() ==> d[i] < d[j]
            &&& forall|i: int|
                0 <= i < d.len() ==> 0 <= d[i] < stream_indices.len() && route(
                    #[trigger] stream_indices[d[i]],
                    audio_index,
                    video_index,
                ) == Some(kind)
            &&& forall|p: int|
                0 <= p < stream_indices.len() && route(
                    #[trigger] stream_indices[p],
                    audio_index,
                    video_index,
                ) == Some(kind) ==> d.contains(p)
        }),
    decreases stream_indices.len(),
{
    if stream_indices.len() > 0 {
        let init = stream_indices.drop_last();
        lemma_dispatch_keeps_order(init, audio_index, video_index, kind);
        let before = delivered(init, audio_index, video_index, kind);
        let d = delivered(stream_indices, audio_index, video_index, kind);
        assert forall|i: int|
            0 <= i < before.len() implies stream_indices[before[i]] == init[before[i]] by {}
        assert forall|p: int|
            0 <= p < stream_indices.len() && route(
                #[trigger] stream_indices[p],
                audio_index,
                video_index,
            ) == Some(kind) implies d.contains(p) by {
            if p < stream_indices.len() - 1 {
                assert(init[p] == stream_indices[p]);
                let k = choose|k: int| 0 <= k < before.len() && before[k] == p;
                assert(d[k] == p);
            } else {
                assert(d[d.len() - 1] == p);
            }
        }
    }
}

} // verus!
