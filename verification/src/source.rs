//! The restartable streaming source.
//!
//! A source wraps one resolved track. Its fetch/decode pipeline is
//! built lazily, and the source can be restarted from an offset: the
//! previous pipeline is torn down completely before a new one is
//! spawned, so at most one pipeline is ever live. The library decides
//! the transitions and the exact process arguments; the surrounding
//! binary spawns and kills the processes.

use vstd::prelude::*;
use vstd::string::StringExecFns;

use crate::errors::PlaybackError;
use crate::text::contains_seq;
use crate::text::contains_str;
use crate::text::dec_str;
use crate::text::padded3_str;
use crate::text::u64_to_padded3;
use crate::text::u64_to_string;
use crate::track::descriptor_from_metadata;
use crate::track::is_descriptor_of;
use crate::track::metadata_complete;
use crate::track::ProviderKind;
use crate::track::RawTrackMetadata;
use crate::track::TrackDescriptor;

verus! {

/// The fixed output codec of the decode stage.
#[derive(Clone, Copy, Debug, PartialEq, Eq, Structural)]
pub enum Codec {
    FloatPcm,
}

/// The fixed output container of the decode stage.
#[derive(Clone, Copy, Debug, PartialEq, Eq, Structural)]
pub enum Container {
    Raw,
}

/// The single output format every pipeline produces: raw 32-bit
/// float PCM, stereo, 48 kHz.
#[derive(Clone, Copy, Debug, PartialEq, Eq, Structural)]
pub struct StreamFormat {
    pub codec: Codec,
    pub container: Container,
}

/// Where a source is in its life: not yet started, playing through
/// the pipeline with the given identifier, or finished.
#[derive(Clone, Copy, Debug, PartialEq, Eq, Structural)]
pub enum SourceState {
    Uninitialized,
    Active { pipeline: usize },
    Ended,
}

/// What the surrounding binary must spawn for one restart: a fetch
/// stage handed the stream locator, piped into a transcode stage with
/// exactly these arguments.
pub struct PipelineRequest {
    pub fetch_locator: String,
    pub transcode_args: Vec<String>,
}

/// How many entries of `ps` are live pipelines.
pub open spec fn live_count(ps: Seq<bool>) -> nat
    decreases ps.len(),
{
    if ps.len() == 0 {
        0
    } else {
        live_count(ps.drop_last()) + if ps.last() {
            1nat
        } else {
            0nat
        }
    }
}

/// A sequence with no live entry has a live count of zero.
pub proof fn lemma_live_count_zero(ps: Seq<bool>)
    requires
        forall|i: int| 0 <= i < ps.len() ==> !ps[i],
    ensures
        live_count(ps) == 0,
    decreases ps.len(),
{
    if ps.len() > 0 {
        lemma_live_count_zero(ps.drop_last());
    }
}

/// A sequence whose only live entry is at `j` has a live count of one.
pub proof fn lemma_live_count_single(ps: Seq<bool>, j: int)
    requires
        0 <= j < ps.len(),
        ps[j],
        forall|i: int| 0 <= i < ps.len() && i != j ==> !ps[i],
    ensures
        live_count(ps) == 1,
    decreases ps.len(),
{
    if j == ps.len() - 1 {
        lemma_live_count_zero(ps.drop_last());
    } else {
        lemma_live_count_single(ps.drop_last(), j);
    }
}

/// A track's restartable source. `pipelines` records every pipeline
/// ever spawned for it, by identifier; an entry is true while that
/// pipeline is live.
pub struct RestartableSource {
    /// The query this source resolves: a track link, or a search term.
    pub uri: String,
    /// Whether resolution goes through search rather than a direct link.
    pub by_search: bool,
    /// Filled by the lazy metadata-only resolution, immutable afterwards.
    pub descriptor: Option<TrackDescriptor>,
    pub state: SourceState,
    pub pipelines: Vec<bool>,
}

impl RestartableSource {
    /// At most one pipeline is live, and only while the source is
    /// active on exactly that pipeline.
    pub open spec fn wf(&self) -> bool {
        match self.state {
            SourceState::Active { pipeline } => {
                &&& pipeline < self.pipelines@.len()
                &&& self.pipelines@[pipeline as int]
                &&& forall|i: int|
                    0 <= i < self.pipelines@.len() && i != pipeline ==> !self.pipelines@[i]
            },
            _ => forall|i: int| 0 <= i < self.pipelines@.len() ==> !self.pipelines@[i],
        }
    }

    /// Wraps a query; nothing is resolved and nothing is spawned
    /// yet. A query that carries no `https://` scheme resolves via
    /// search, a link resolves directly.
    pub fn new(uri: String) -> (s: RestartableSource)
        ensures
            s.wf(),
            s.uri == uri,
            s.by_search == !contains_seq(uri@, "https://"@),
            s.descriptor is None,
            s.state == SourceState::Uninitialized,
            s.pipelines@.len() == 0,
    {
        let by_search = !contains_str(uri.as_str(), "https://");
        RestartableSource {
            uri,
            by_search,
            descriptor: None,
            state: SourceState::Uninitialized,
            pipelines: Vec::new(),
        }
    }

    /// Metadata-only resolution, performed once on first use. The
    /// provider's raw metadata is validated into the descriptor; no
    /// pipeline is spawned. Also reports the fixed stream format.
    pub fn lazy_init(&mut self, m: RawTrackMetadata, provider: ProviderKind) -> (r: Result<
        StreamFormat,
        PlaybackError,
    >)
        requires
            old(self).wf(),
            old(self).descriptor is None,
        ensures
            final(self).wf(),
            final(self).uri == old(self).uri,
            final(self).by_search == old(self).by_search,
            final(self).state == old(self).state,
            final(self).pipelines == old(self).pipelines,
            match r {
                Ok(f) => {
                    &&& metadata_complete(m)
                    &&& final(self).descriptor matches Some(d) && is_descriptor_of(
                        m,
                        provider,
                        d,
                    )
                    &&& f == (StreamFormat { codec: Codec::FloatPcm, container: Container::Raw })
                },
                Err(e) => {
                    &&& e == PlaybackError::MetadataError
                    &&& !metadata_complete(m)
                    &&& final(self).descriptor is None
                },
            },
    {
        match descriptor_from_metadata(m, provider) {
            Ok(d) => {
                self.descriptor = Some(d);
                Ok(StreamFormat { codec: Codec::FloatPcm, container: Container::Raw })
            },
            Err(e) => Err(e),
        }
    }

    /// Restarts playback: tears the previous pipeline down completely,
    /// then asks for a fresh one, seeking to `offset_millis` when one
    /// is given. The caller resolves `stream_url` (the best available
    /// audio stream) beforehand and spawns what the request says.
    ///
    /// Afterwards exactly one pipeline is live, however many preceded.
    pub fn restart(&mut self, stream_url: String, offset_millis: Option<u64>) -> (req:
        PipelineRequest)
        requires
            old(self).wf(),
            !(old(self).state is Ended),
        ensures
            final(self).wf(),
            final(self).uri == old(self).uri,
            final(self).by_search == old(self).by_search,
            final(self).descriptor == old(self).descriptor,
            final(self).pipelines@.len() == old(self).pipelines@.len() + 1,
            final(self).state == (SourceState::Active {
                pipeline: old(self).pipelines@.len() as usize,
            }),
            forall|i: int|
                0 <= i < old(self).pipelines@.len() ==> !final(self).pipelines@[i],
            live_count(final(self).pipelines@) == 1,
            req.fetch_locator == stream_url,
            req.transcode_args.deep_view() == transcode_args_spec(offset_millis),
    {
        match self.state {
            SourceState::Active { pipeline } => {
                self.pipelines[pipeline] = false;
            },
            _ => {},
        }
        let fresh: usize = self.pipelines.len();
        self.pipelines.push(true);
        self.state = SourceState::Active { pipeline: fresh };
        proof {
            lemma_live_count_single(self.pipelines@, fresh as int);
        }
        PipelineRequest { fetch_locator: stream_url, transcode_args: transcode_args(offset_millis) }
    }

    /// Ends the source: on natural completion, skip, stop, or a
    /// pipeline spawn failure (which is treated as track end for this
    /// track only). Tears down whatever pipeline is still live.
    pub fn end(&mut self)
        requires
            old(self).wf(),
        ensures
            final(self).wf(),
            final(self).uri == old(self).uri,
            final(self).by_search == old(self).by_search,
            final(self).descriptor == old(self).descriptor,
            final(self).state == SourceState::Ended,
            final(self).pipelines@.len() == old(self).pipelines@.len(),
            forall|i: int|
                0 <= i < final(self).pipelines@.len() ==> !final(self).pipelines@[i],
            live_count(final(self).pipelines@) == 0,
    {
        match self.state {
            SourceState::Active { pipeline } => {
                self.pipelines[pipeline] = false;
            },
            _ => {},
        }
        self.state = SourceState::Ended;
        proof {
            lemma_live_count_zero(self.pipelines@);
        }
    }

    /// Surfaces a failed pipeline construction: fatal for this track
    /// only, never for sibling queue entries. The source ends as if
    /// the track had completed, and the error to report is returned.
    pub fn spawn_failed(&mut self) -> (e: PlaybackError)
        requires
            old(self).wf(),
        ensures
            final(self).wf(),
            final(self).uri == old(self).uri,
            final(self).by_search == old(self).by_search,
            final(self).descriptor == old(self).descriptor,
            final(self).state == SourceState::Ended,
            live_count(final(self).pipelines@) == 0,
            e == PlaybackError::PipelineSpawnError,
    {
        self.end();
        PlaybackError::PipelineSpawnError
    }
}

/// The seek timestamp handed to the transcode stage: whole seconds, a
/// dot, and the remaining milliseconds zero-padded to three digits.
pub open spec fn seek_stamp_spec(ms: nat) -> Seq<char> {
    dec_str(ms / 1000) + seq!['.'] + padded3_str(ms % 1000)
}

/// Renders a seek offset in milliseconds as `s.mmm`.
pub fn seek_stamp(ms: u64) -> (s: String)
    ensures
        s@ == seek_stamp_spec(ms as nat),
{
    proof {
        reveal_strlit(".");
    }
    let s = u64_to_string(ms / 1000).concat(".").concat(u64_to_padded3(ms % 1000).as_str());
    proof {
        assert(s@ =~= seek_stamp_spec(ms as nat));
    }
    s
}

/// The fixed tail of every transcode invocation: read from the pipe
/// and emit raw 32-bit float PCM, stereo, 48 kHz.
pub open spec fn output_format_args_spec() -> Seq<Seq<char>> {
    seq![
        "-i"@,
        "-"@,
        "-f"@,
        "s16le"@,
        "-ac"@,
        "2"@,
        "-ar"@,
        "48000"@,
        "-acodec"@,
        "pcm_f32le"@,
        "-"@,
    ]
}

/// The whole transcode argument list: a seek instruction first when
/// an offset is requested, then the fixed output format.
pub open spec fn transcode_args_spec(offset_millis: Option<u64>) -> Seq<Seq<char>> {
    match offset_millis {
        Some(ms) => seq!["-ss"@, seek_stamp_spec(ms as nat)] + output_format_args_spec(),
        None => output_format_args_spec(),
    }
}

/// Builds the transcode argument list for one restart.
fn transcode_args(offset_millis: Option<u64>) -> (args: Vec<String>)
    ensures
        args.deep_view() == transcode_args_spec(offset_millis),
{
    let mut args: Vec<String> = Vec::new();
    if let Some(ms) = offset_millis {
        args.push(String::from_str("-ss"));
        args.push(seek_stamp(ms));
    }
    args.push(String::from_str("-i"));
    args.push(String::from_str("-"));
    args.push(String::from_str("-f"));
    args.push(String::from_str("s16le"));
    args.push(String::from_str("-ac"));
    args.push(String::from_str("2"));
    args.push(String::from_str("-ar"));
    args.push(String::from_str("48000"));
    args.push(String::from_str("-acodec"));
    args.push(String::from_str("pcm_f32le"));
    args.push(String::from_str("-"));
    proof {
        assert(args.deep_view() =~~= transcode_args_spec(offset_millis));
    }
    args
}

} // verus!
