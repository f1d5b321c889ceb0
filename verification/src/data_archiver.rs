//! The archival engine and its dispatcher.

use vstd::prelude::*;
use vstd::string::StrSliceExecFns;
use vstd::utf8::encode_utf8;
use crate::errors::ArchiveError;
use crate::naming::MAX_ARCHIVE_SECONDS;
use crate::naming::MAX_BUCKET_MINUTES;
use crate::naming::file_name;
use crate::naming::generate_file_name;
use crate::naming::time_bucket_complete;
use crate::naming::time_bucket_complete_spec;
use crate::segment_codec::ZSTD_COMPRESSION_LEVEL;
use crate::segment_codec::zstd_compress;
use crate::segment_codec::zstd_plain;

verus! {

/// Default cap on a segment's accumulated uncompressed bytes: one hundred
/// megabytes.
pub const MAX_VOLUME_SIZE: usize = 100_000_000;

/// One finished segment, ready to be published: the compressed bytes, the
/// name of the temporary file they must first be written to, and the final
/// name that file is then atomically renamed to. `plain` records the
/// segment's uncompressed content; `uncompressed_len` is its length, kept as
/// a plain value so callers can report sizes and compression ratios.
pub struct Artifact {
    pub temp_name: String,
    pub final_name: String,
    pub data: Vec<u8>,
    pub uncompressed_len: usize,
    pub plain: Ghost<Seq<u8>>,
}

impl Artifact {
    /// The compressed bytes decompress to exactly the recorded content, and
    /// the recorded length is that content's.
    pub open spec fn wf(self) -> bool {
        &&& zstd_plain(self.data@) == Some(self.plain@)
        &&& self.uncompressed_len == self.plain@.len()
    }

    /// Both names are the canonical ones for the given segment identity.
    pub open spec fn named_for(self, start: int, minutes_per_bucket: int, volume: int) -> bool {
        &&& self.temp_name@ == file_name(start, minutes_per_bucket, volume, true)
        &&& self.final_name@ == file_name(start, minutes_per_bucket, volume, false)
    }
}

/// The archival engine: owns exactly one open segment and decides, message by
/// message, when to close it by size or by time.
pub struct EncoderManager {
    pub bucket_start_time: i64,
    pub minutes_per_bucket: i64,
    pub max_volume_size: usize,
    pub volume: usize,
    pub segment: Vec<u8>,
    pub archived: Ghost<Seq<Seq<u8>>>,
}

impl EncoderManager {
    /// Well-formed engine state: a valid bucket clock and a volume index
    /// that counts from one.
    pub open spec fn wf(self) -> bool {
        &&& 1 <= self.minutes_per_bucket <= MAX_BUCKET_MINUTES
        &&& 0 <= self.bucket_start_time
        &&& self.bucket_start_time + 60 * self.minutes_per_bucket <= MAX_ARCHIVE_SECONDS
        &&& 1 <= self.volume
        &&& 1 <= self.max_volume_size
    }

    /// Every byte ever submitted to this engine, in arrival order: the
    /// archived segments' contents followed by the open segment.
    pub open spec fn stream(self) -> Seq<u8> {
        self.archived@.flatten() + self.segment@
    }

    /// The engine's configuration, which no submission ever changes.
    pub open spec fn same_config(pre: Self, post: Self) -> bool {
        &&& post.minutes_per_bucket == pre.minutes_per_bucket
        &&& post.max_volume_size == pre.max_volume_size
    }

    /// Creates an engine with the default segment size cap, opening bucket
    /// number one at `now` with volume 1 and an empty segment.
    pub fn new(minutes_per_bucket: i64, now: i64) -> (r: Result<Self, ArchiveError>)
        requires
            0 <= now,
            now + 60 * MAX_BUCKET_MINUTES <= MAX_ARCHIVE_SECONDS,
        ensures
            r is Ok <==> 1 <= minutes_per_bucket <= MAX_BUCKET_MINUTES,
            r matches Ok(m) ==> ({
                &&& m.wf()
                &&& m.bucket_start_time == now
                &&& m.minutes_per_bucket == minutes_per_bucket
                &&& m.max_volume_size == MAX_VOLUME_SIZE
                &&& m.volume == 1
                &&& m.segment@ == Seq::<u8>::empty()
                &&& m.archived@ == Seq::<Seq<u8>>::empty()
            }),
            r matches Err(e) ==> e is InvalidConfig,
    {
        Self::with_limits(minutes_per_bucket, MAX_VOLUME_SIZE, now)
    }

    /// Creates an engine with an explicit segment size cap. Rejects, before
    /// any message is accepted, a non-positive (or unrepresentably large)
    /// bucket period and a zero size cap.
    pub fn with_limits(minutes_per_bucket: i64, max_volume_size: usize, now: i64) -> (r: Result<
        Self,
        ArchiveError,
    >)
        requires
            0 <= now,
            now + 60 * MAX_BUCKET_MINUTES <= MAX_ARCHIVE_SECONDS,
        ensures
            r is Ok <==> (1 <= minutes_per_bucket <= MAX_BUCKET_MINUTES && max_volume_size >= 1),
            r matches Ok(m) ==> ({
                &&& m.wf()
                &&& m.bucket_start_time == now
                &&& m.minutes_per_bucket == minutes_per_bucket
                &&& m.max_volume_size == max_volume_size
                &&& m.volume == 1
                &&& m.segment@ == Seq::<u8>::empty()
                &&& m.archived@ == Seq::<Seq<u8>>::empty()
            }),
            r matches Err(e) ==> e is InvalidConfig,
    {
        if minutes_per_bucket < 1 || minutes_per_bucket > MAX_BUCKET_MINUTES || max_volume_size
            < 1 {
            return Err(ArchiveError::InvalidConfig);
        }
        Ok(
            EncoderManager {
                bucket_start_time: now,
                minutes_per_bucket,
                max_volume_size,
                volume: 1,
                segment: Vec::new(),
                archived: Ghost(Seq::empty()),
            },
        )
    }

    /// Appends one message's bytes to the open segment, increasing the
    /// accumulated size by the message's length; nothing else changes.
    pub fn write_message(&mut self, message: String)
        ensures
            final(self).segment@ == old(self).segment@ + encode_utf8(message@),
            final(self).bucket_start_time == old(self).bucket_start_time,
            final(self).minutes_per_bucket == old(self).minutes_per_bucket,
            final(self).max_volume_size == old(self).max_volume_size,
            final(self).volume == old(self).volume,
            final(self).archived@ == old(self).archived@,
    {
        let bytes = message.as_str().as_bytes_vec();
        self.segment.extend_from_slice(bytes.as_slice());
    }

    /// True when the open segment has reached the segment size cap, so that
    /// the next submission must first roll the volume over.
    pub fn nearing_max_volume(&self) -> (r: bool)
        ensures
            r == self.size_rollover_due(),
    {
        self.segment.len() >= self.max_volume_size
    }

    /// The open segment has reached the size cap: the next submission rolls
    /// the volume over before accepting its message.
    pub open spec fn size_rollover_due(self) -> bool {
        self.segment@.len() >= self.max_volume_size
    }

    /// The bucket has run out at `now` (and no size rollover takes
    /// precedence): the next submission closes the bucket first.
    pub open spec fn time_rollover_due(self, now: int) -> bool {
        &&& !self.size_rollover_due()
        &&& time_bucket_complete_spec(
            self.bucket_start_time as int,
            self.minutes_per_bucket as int,
            now,
        )
    }

    /// What finalizing the open segment does: the artifact holds the open
    /// segment's bytes under the canonical names of the engine's current
    /// (bucket, volume) identity, the content is appended to the archived
    /// history, and a fresh empty segment is opened. The bucket clock, the
    /// volume index and the configuration are untouched.
    pub open spec fn finalize_post(pre: Self, post: Self, art: Artifact) -> bool {
        &&& art.wf()
        &&& art.plain@ == pre.segment@
        &&& art.named_for(pre.bucket_start_time as int, pre.minutes_per_bucket as int, pre.volume as int)
        &&& post.segment@ == Seq::<u8>::empty()
        &&& post.archived@ == pre.archived@.push(pre.segment@)
        &&& post.bucket_start_time == pre.bucket_start_time
        &&& post.volume == pre.volume
        &&& Self::same_config(pre, post)
    }

    /// Flushes the open segment through the codec, names it for the current
    /// (bucket, volume), and opens a fresh segment. On a codec failure the
    /// engine is unchanged and the error is fatal to this instance.
    pub fn finish_and_create_new(&mut self) -> (r: Result<Artifact, ArchiveError>)
        requires
            old(self).wf(),
        ensures
            r matches Err(e) ==> *final(self) == *old(self) && e is CodecFailure,
            r matches Ok(art) ==> Self::finalize_post(*old(self), *final(self), art),
            r is Ok ==> final(self).wf() && final(self).stream() == old(self).stream(),
    {
        let compressed = match zstd_compress(self.segment.as_slice(), ZSTD_COMPRESSION_LEVEL) {
            Ok(c) => c,
            Err(e) => {
                return Err(ArchiveError::CodecFailure(e));
            },
        };
        let temp_name = generate_file_name(
            self.bucket_start_time,
            self.minutes_per_bucket,
            self.volume,
            true,
        );
        let final_name = generate_file_name(
            self.bucket_start_time,
            self.minutes_per_bucket,
            self.volume,
            false,
        );
        let art = Artifact {
            temp_name,
            final_name,
            data: compressed,
            uncompressed_len: self.segment.len(),
            plain: Ghost(self.segment@),
        };
        proof {
            self.archived@.lemma_flatten_push(self.segment@);
        }
        self.archived = Ghost(self.archived@.push(self.segment@));
        self.segment.clear();
        proof {
            assert(self.stream() =~= old(self).stream());
        }
        Ok(art)
    }

    /// What one submission does to the engine, besides appending the
    /// message's bytes: exactly one of the three cases below, decided in this
    /// order of precedence.
    ///
    /// With the open segment at or over the size cap, it is finalized and the
    /// next volume of the *same* bucket opens. Otherwise, with the bucket's
    /// period elapsed at `now`, the segment is finalized and a new bucket
    /// starting at `now` opens at volume 1. Otherwise nothing rolls over and
    /// no artifact is produced.
    pub open spec fn submit_post(
        pre: Self,
        post: Self,
        message: Seq<char>,
        now: int,
        out: Option<Artifact>,
    ) -> bool {
        let msg = encode_utf8(message);
        &&& Self::same_config(pre, post)
        &&& post.wf()
        &&& post.stream() == pre.stream() + msg
        &&& post.segment@ == (if pre.size_rollover_due() || pre.time_rollover_due(now) {
            msg
        } else {
            pre.segment@ + msg
        })
        &&& (pre.size_rollover_due() ==> ({
            &&& out matches Some(art)
            &&& art.wf()
            &&& art.plain@ == pre.segment@
            &&& art.named_for(pre.bucket_start_time as int, pre.minutes_per_bucket as int, pre.volume as int)
            &&& post.bucket_start_time == pre.bucket_start_time
            &&& post.volume == pre.volume + 1
            &&& post.archived@ == pre.archived@.push(pre.segment@)
        }))
        &&& (pre.time_rollover_due(now) ==> ({
            &&& out matches Some(art)
            &&& art.wf()
            &&& art.plain@ == pre.segment@
            &&& art.named_for(pre.bucket_start_time as int, pre.minutes_per_bucket as int, pre.volume as int)
            &&& post.bucket_start_time == now
            &&& post.volume == 1
            &&& post.archived@ == pre.archived@.push(pre.segment@)
        }))
        &&& (!pre.size_rollover_due() && !pre.time_rollover_due(now) ==> ({
            &&& out is None
            &&& post.bucket_start_time == pre.bucket_start_time
            &&& post.volume == pre.volume
            &&& post.archived@ == pre.archived@
        }))
    }

    /// Submits one message at time `now`: evaluates the rollover policy —
    /// size strictly before time — then appends the message's bytes to the
    /// open segment. Returns the finalized artifact if a rollover happened.
    /// On a codec failure the engine is unchanged and the error is fatal to
    /// this instance.
    pub fn process_message(&mut self, message: String, now: i64) -> (r: Result<
        Option<Artifact>,
        ArchiveError,
    >)
        requires
            old(self).wf(),
            0 <= now,
            now + 60 * old(self).minutes_per_bucket <= MAX_ARCHIVE_SECONDS,
            old(self).volume < usize::MAX,
        ensures
            r matches Err(e) ==> *final(self) == *old(self) && e is CodecFailure,
            r is Err ==> old(self).size_rollover_due() || old(self).time_rollover_due(now as int),
            r matches Ok(out) ==> Self::submit_post(*old(self), *final(self), message@, now as int, out),
    {
        let ghost msgv = encode_utf8(message@);
        let rolled: Option<Artifact> = if self.nearing_max_volume() {
            match self.finish_and_create_new() {
                Ok(art) => {
                    self.volume = self.volume + 1;
                    Some(art)
                },
                Err(e) => {
                    return Err(e);
                },
            }
        } else if time_bucket_complete(self.bucket_start_time, self.minutes_per_bucket, now) {
            match self.finish_and_create_new() {
                Ok(art) => {
                    self.bucket_start_time = now;
                    self.volume = 1;
                    Some(art)
                },
                Err(e) => {
                    return Err(e);
                },
            }
        } else {
            None
        };
        self.write_message(message);
        proof {
            assert(Seq::<u8>::empty() + msgv =~= msgv);
            assert(self.stream() =~= old(self).stream() + msgv);
        }
        Ok(rolled)
    }
}

/// Decompressing every published artifact of a run and concatenating the
/// results in publication order reproduces the submitted byte stream exactly,
/// up to the bytes of the still-open segment — at most one in-flight
/// segment's worth. `artifacts` are the engine's published artifacts, in
/// publication order.
pub proof fn lemma_artifacts_reconstruct_stream(m: EncoderManager, artifacts: Seq<Artifact>)
    requires
        artifacts.len() == m.archived@.len(),
        forall|i: int|
            0 <= i < artifacts.len() ==> (#[trigger] artifacts[i]).wf() && artifacts[i].plain@
                == m.archived@[i],
    ensures
        forall|i: int|
            0 <= i < artifacts.len() ==> zstd_plain(#[trigger] artifacts[i].data@) == Some(
                m.archived@[i],
            ),
        Seq::new(artifacts.len(), |i: int| artifacts[i].plain@).flatten() + m.segment@
            == m.stream(),
{
    assert(Seq::new(artifacts.len(), |i: int| artifacts[i].plain@) =~= m.archived@);
}

/// What the dispatcher owes its surrounding loop in response to one event:
/// keep running — publishing an artifact first if a rollover produced one —
/// or stop, after publishing the run's last artifact.
pub enum DispatcherStep {
    Running(Option<Artifact>),
    Stopped(Artifact),
}

/// Everything the dispatcher can be woken by: a message from the inbound
/// channel, the upstream connection asking to be rebuilt, the channel closing
/// for good, or a shutdown request.
pub enum FeedEvent {
    Message(String),
    ReconnectNeeded,
    ChannelClosed,
    Shutdown,
}

/// The sole owner of the archival engine: reacts to one event at a time, and
/// nothing else ever mutates the engine.
pub struct MessageDispatcher {
    pub encoder_manager: EncoderManager,
}

impl MessageDispatcher {
    /// Creates a dispatcher owning a fresh engine with the default segment
    /// size cap; fails before any message is accepted if the configuration
    /// is rejected.
    pub fn new(minutes_per_bucket: i64, now: i64) -> (r: Result<Self, ArchiveError>)
        requires
            0 <= now,
            now + 60 * MAX_BUCKET_MINUTES <= MAX_ARCHIVE_SECONDS,
        ensures
            r is Ok <==> 1 <= minutes_per_bucket <= MAX_BUCKET_MINUTES,
            r matches Ok(d) ==> ({
                &&& d.encoder_manager.wf()
                &&& d.encoder_manager.bucket_start_time == now
                &&& d.encoder_manager.minutes_per_bucket == minutes_per_bucket
                &&& d.encoder_manager.max_volume_size == MAX_VOLUME_SIZE
                &&& d.encoder_manager.volume == 1
                &&& d.encoder_manager.segment@ == Seq::<u8>::empty()
                &&& d.encoder_manager.archived@ == Seq::<Seq<u8>>::empty()
            }),
            r matches Err(e) ==> e is InvalidConfig,
    {
        match EncoderManager::new(minutes_per_bucket, now) {
            Ok(encoder_manager) => Ok(MessageDispatcher { encoder_manager }),
            Err(e) => Err(e),
        }
    }

    /// Creates a dispatcher with an explicit segment size cap.
    pub fn with_limits(minutes_per_bucket: i64, max_volume_size: usize, now: i64) -> (r: Result<
        Self,
        ArchiveError,
    >)
        requires
            0 <= now,
            now + 60 * MAX_BUCKET_MINUTES <= MAX_ARCHIVE_SECONDS,
        ensures
            r is Ok <==> (1 <= minutes_per_bucket <= MAX_BUCKET_MINUTES && max_volume_size >= 1),
            r matches Ok(d) ==> ({
                &&& d.encoder_manager.wf()
                &&& d.encoder_manager.bucket_start_time == now
                &&& d.encoder_manager.minutes_per_bucket == minutes_per_bucket
                &&& d.encoder_manager.max_volume_size == max_volume_size
                &&& d.encoder_manager.volume == 1
                &&& d.encoder_manager.segment@ == Seq::<u8>::empty()
                &&& d.encoder_manager.archived@ == Seq::<Seq<u8>>::empty()
            }),
            r matches Err(e) ==> e is InvalidConfig,
    {
        match EncoderManager::with_limits(minutes_per_bucket, max_volume_size, now) {
            Ok(encoder_manager) => Ok(MessageDispatcher { encoder_manager }),
            Err(e) => Err(e),
        }
    }

    /// Forwards one message to the engine at time `now`.
    pub fn process_message(&mut self, message: String, now: i64) -> (r: Result<
        Option<Artifact>,
        ArchiveError,
    >)
        requires
            old(self).encoder_manager.wf(),
            0 <= now,
            now + 60 * old(self).encoder_manager.minutes_per_bucket <= MAX_ARCHIVE_SECONDS,
            old(self).encoder_manager.volume < usize::MAX,
        ensures
            r matches Err(e) ==> *final(self) == *old(self) && e is CodecFailure,
            r is Err ==> old(self).encoder_manager.size_rollover_due() || old(
                self,
            ).encoder_manager.time_rollover_due(now as int),
            r matches Ok(out) ==> EncoderManager::submit_post(
                old(self).encoder_manager,
                final(self).encoder_manager,
                message@,
                now as int,
                out,
            ),
    {
        self.encoder_manager.process_message(message, now)
    }

    /// Finalizes the open segment once more, as the last act of a run.
    pub fn finish_and_create_new(&mut self) -> (r: Result<Artifact, ArchiveError>)
        requires
            old(self).encoder_manager.wf(),
        ensures
            r matches Err(e) ==> *final(self) == *old(self) && e is CodecFailure,
            r matches Ok(art) ==> EncoderManager::finalize_post(
                old(self).encoder_manager,
                final(self).encoder_manager,
                art,
            ),
    {
        self.encoder_manager.finish_and_create_new()
    }

    /// Reacts to one event. A message is submitted to the engine; a
    /// reconnect request leaves the engine untouched — engine state is
    /// independent of the connection's lifecycle; a closed channel and a
    /// shutdown request both finalize the open segment once and stop the
    /// run. Any engine error is fatal: the engine is unchanged and the run
    /// must end.
    pub fn handle_event(&mut self, event: FeedEvent, now: i64) -> (r: Result<
        DispatcherStep,
        ArchiveError,
    >)
        requires
            old(self).encoder_manager.wf(),
            0 <= now,
            now + 60 * old(self).encoder_manager.minutes_per_bucket <= MAX_ARCHIVE_SECONDS,
            old(self).encoder_manager.volume < usize::MAX,
        ensures
            r matches Err(e) ==> *final(self) == *old(self) && e is CodecFailure,
            final(self).encoder_manager.wf(),
            event is Message && !old(self).encoder_manager.size_rollover_due() && !old(
                self,
            ).encoder_manager.time_rollover_due(now as int) ==> r is Ok,
            event is Message && r is Ok ==> ({
                &&& r->Ok_0 is Running
                &&& EncoderManager::submit_post(
                    old(self).encoder_manager,
                    final(self).encoder_manager,
                    event->Message_0@,
                    now as int,
                    r->Ok_0->Running_0,
                )
            }),
            event is ReconnectNeeded ==> ({
                &&& r matches Ok(step)
                &&& step matches DispatcherStep::Running(out)
                &&& out is None
                &&& *final(self) == *old(self)
            }),
            event !is Message && event !is ReconnectNeeded && r is Ok ==> ({
                &&& r->Ok_0 is Stopped
                &&& EncoderManager::finalize_post(
                    old(self).encoder_manager,
                    final(self).encoder_manager,
                    r->Ok_0->Stopped_0,
                )
            }),
    {
        match event {
            FeedEvent::Message(message) => {
                match self.encoder_manager.process_message(message, now) {
                    Ok(out) => Ok(DispatcherStep::Running(out)),
                    Err(e) => Err(e),
                }
            },
            FeedEvent::ReconnectNeeded => Ok(DispatcherStep::Running(None)),
            FeedEvent::ChannelClosed | FeedEvent::Shutdown => {
                match self.encoder_manager.finish_and_create_new() {
                    Ok(art) => Ok(DispatcherStep::Stopped(art)),
                    Err(e) => Err(e),
                }
            },
        }
    }
}

} // verus!
