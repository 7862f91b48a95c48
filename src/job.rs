//! The work done for one delivery, as a state machine: each step names the
//! next piece of outside work, and the result of that work decides the step
//! after it.
use vstd::prelude::*;
use vstd::string::*;
use crate::ladder::{encode_args, encode_command, probe_args, probe_command, thumbnail_args, thumbnail_command};
use crate::layout::{
    input_file_name, input_name, marker_key, marker_key_of, master_lists_all, master_lists_variants,
    output_prefix, output_prefix_of, output_tree_complete, source_key, source_key_of, texts, thumb_file_name,
    thumb_key, thumb_key_of, thumb_name, tree_complete, variant_dir, variant_dir_of, TIER_COUNT,
};
use crate::upload::{mime_of, ContentType};

verus! {

/// A video was uploaded and waits for transcoding.
pub struct UploadEvent {
    pub video_id: String,
    pub input_key: String,
    pub owner_id: String,
}

/// A video's renditions are stored; `D` is the probed duration in seconds.
pub struct ReadyEvent<D> {
    pub video_id: String,
    pub output_prefix: String,
    pub thumb_key: String,
    pub duration_sec: D,
}

/// What a job needs to know of the worker's configuration.
pub struct JobSettings {
    pub exchange: String,
    pub ready_routing_key: String,
    pub uploads_bucket: String,
    pub vod_bucket: String,
    pub hls_prefix: String,
    pub seg_secs: u32,
}

/// An object store request that failed.
pub enum StoreError {
    /// The object does not exist.
    NoSuchKey,
    /// Anything else, with the store's message.
    Other(String),
}

/// Why a job failed.
pub enum Failure {
    /// The payload is not an upload event.
    Malformed,
    /// The source object does not exist.
    MissingSource,
    /// An object store request failed.
    Store(StoreError),
    /// The encoder or prober exited with a failure; its diagnostics.
    Engine(String),
    /// The encoder reported success without leaving a complete tree.
    IncompleteOutput,
    /// The local staging area could not be written.
    Staging(String),
    /// The broker refused the announcement.
    Broker(String),
    /// A result arrived that the job was not waiting for.
    OutOfOrder,
}

/// Whether retrying cannot help: the same delivery would fail the same way.
pub open spec fn is_permanent(f: Failure) -> bool {
    f is Malformed || f is MissingSource
}

impl Failure {
    pub fn permanent(&self) -> (r: bool)
        ensures
            r == is_permanent(*self),
    {
        match self {
            Failure::Malformed => true,
            Failure::MissingSource => true,
            _ => false,
        }
    }
}

/// How a job that succeeded ended.
#[derive(Clone, Copy, Debug, PartialEq, Eq, Structural)]
pub enum Completion {
    /// The renditions were stored and announced.
    Published,
    /// The marker was already there; nothing was done.
    AlreadyDone,
}

/// Where a job stands.
#[derive(Clone, Copy, Debug, PartialEq, Eq, Structural)]
pub enum Phase {
    CheckingMarker,
    Downloading,
    Probing,
    Encoding,
    Inspecting,
    Thumbnailing,
    UploadingTree,
    UploadingThumb,
    Publishing,
    Finished,
}

/// The result of the outside work that the last action asked for.
pub enum Feedback<D> {
    /// Whether the marker object exists.
    Marker(bool),
    /// The work succeeded.
    Done,
    /// The probed duration.
    Probed(D),
    /// The relative paths of the encoder's output directory, and the text of
    /// its master playlist (empty if there is none).
    Output { files: Vec<String>, master: String },
    StoreFailed(StoreError),
    EngineFailed(String),
    StagingFailed(String),
    BrokerFailed(String),
}

/// The next piece of outside work.
pub enum Action<D> {
    /// Ask whether the object exists.
    CheckMarker { bucket: String, key: String },
    /// Fetch an object into the staging file `to`.
    Download { bucket: String, key: String, to: String },
    /// Run the prober with these arguments and report the duration.
    Probe { args: Vec<String> },
    /// Create the output directory and `dirs` inside it, then run the encoder
    /// there with these arguments.
    Encode { dirs: Vec<String>, args: Vec<String> },
    /// List the output directory and read its master playlist.
    InspectOutput,
    /// Run the encoder with these arguments to write the thumbnail.
    Thumbnail { args: Vec<String> },
    /// Upload the output directory under the prefix.
    UploadTree { bucket: String, prefix: String },
    /// Upload the staged thumbnail.
    UploadThumb { bucket: String, key: String, content_type: ContentType },
    /// Announce the event.
    Publish { exchange: String, routing_key: String, event: ReadyEvent<D> },
    /// The job is over; `cleanup` asks to remove the staging directory.
    Finish { outcome: Result<Completion, Failure>, cleanup: bool },
}

/// One delivery's job.
pub struct Job<D> {
    pub settings: JobSettings,
    pub event: UploadEvent,
    /// The job's own staging directory.
    pub staging: String,
    pub phase: Phase,
    pub duration: Option<D>,
}

/// `{dir}/{name}`.
pub open spec fn staged(dir: Seq<char>, name: Seq<char>) -> Seq<char> {
    dir + "/"@ + name
}

/// The step that follows a successful one.
pub open spec fn successor(p: Phase) -> Phase {
    match p {
        Phase::CheckingMarker => Phase::Downloading,
        Phase::Downloading => Phase::Probing,
        Phase::Probing => Phase::Encoding,
        Phase::Encoding => Phase::Inspecting,
        Phase::Inspecting => Phase::Thumbnailing,
        Phase::Thumbnailing => Phase::UploadingTree,
        Phase::UploadingTree => Phase::UploadingThumb,
        Phase::UploadingThumb => Phase::Publishing,
        _ => Phase::Finished,
    }
}

/// Position of a step in the job's order.
pub open spec fn rank(p: Phase) -> nat {
    match p {
        Phase::CheckingMarker => 0,
        Phase::Downloading => 1,
        Phase::Probing => 2,
        Phase::Encoding => 3,
        Phase::Inspecting => 4,
        Phase::Thumbnailing => 5,
        Phase::UploadingTree => 6,
        Phase::UploadingThumb => 7,
        Phase::Publishing => 8,
        Phase::Finished => 9,
    }
}

/// Whether a step's work is a plain success-or-failure one.
pub open spec fn awaits_done(p: Phase) -> bool {
    p is Downloading || p is Encoding || p is Thumbnailing || p is UploadingTree || p is UploadingThumb
        || p is Publishing
}

/// How the job ends if this result comes in at this step, or `None` if it
/// goes on.
pub open spec fn ending<D>(p: Phase, fb: Feedback<D>) -> Option<Result<Completion, Failure>> {
    match fb {
        Feedback::Marker(present) => if !(p is CheckingMarker) {
            Some(Err(Failure::OutOfOrder))
        } else if present {
            Some(Ok(Completion::AlreadyDone))
        } else {
            None
        },
        Feedback::Done => if !awaits_done(p) {
            Some(Err(Failure::OutOfOrder))
        } else if p is Publishing {
            Some(Ok(Completion::Published))
        } else {
            None
        },
        Feedback::Probed(_) => if p is Probing {
            None
        } else {
            Some(Err(Failure::OutOfOrder))
        },
        Feedback::Output { files, master } => if !(p is Inspecting) {
            Some(Err(Failure::OutOfOrder))
        } else if tree_complete(texts(files@)) && master_lists_all(master@) {
            None
        } else {
            Some(Err(Failure::IncompleteOutput))
        },
        Feedback::StoreFailed(e) => if p is Downloading && e is NoSuchKey {
            Some(Err(Failure::MissingSource))
        } else {
            Some(Err(Failure::Store(e)))
        },
        Feedback::EngineFailed(m) => Some(Err(Failure::Engine(m))),
        Feedback::StagingFailed(m) => Some(Err(Failure::Staging(m))),
        Feedback::BrokerFailed(m) => Some(Err(Failure::Broker(m))),
    }
}

impl<D> Job<D> {
    /// The staged copy of the source.
    pub open spec fn input_path(&self) -> Seq<char> {
        staged(self.staging@, input_name())
    }

    /// The staged thumbnail.
    pub open spec fn thumb_path(&self) -> Seq<char> {
        staged(self.staging@, thumb_name())
    }

    /// The duration is known from encoding until it is announced.
    pub open spec fn wf(&self) -> bool {
        rank(self.phase) >= 3 && rank(self.phase) <= 7 ==> self.duration is Some
    }

    /// Whether `a` is the work of the job's current step; `dur` is the
    /// duration that an announcement carries.
    pub open spec fn asks(&self, a: Action<D>, dur: Option<D>) -> bool {
        let s = self.settings;
        let e = self.event;
        match self.phase {
            Phase::CheckingMarker => a matches Action::CheckMarker { bucket, key } && bucket@ == s.vod_bucket@
                && key@ == marker_key_of(s.hls_prefix@, e.video_id@),
            Phase::Downloading => a matches Action::Download { bucket, key, to } && bucket@ == s.uploads_bucket@
                && key@ == source_key_of(e.input_key@) && to@ == self.input_path(),
            Phase::Probing => a matches Action::Probe { args } && texts(args@) == probe_command(self.input_path()),
            Phase::Encoding => a matches Action::Encode { dirs, args } && texts(args@) == encode_command(
                self.input_path(),
                s.seg_secs as nat,
            ) && texts(dirs@) == Seq::new(TIER_COUNT as nat, |i: int| variant_dir_of(i as nat)),
            Phase::Inspecting => a is InspectOutput,
            Phase::Thumbnailing => a matches Action::Thumbnail { args } && texts(args@) == thumbnail_command(
                self.input_path(),
                self.thumb_path(),
            ),
            Phase::UploadingTree => a matches Action::UploadTree { bucket, prefix } && bucket@ == s.vod_bucket@
                && prefix@ == output_prefix_of(s.hls_prefix@, e.video_id@),
            Phase::UploadingThumb => a matches Action::UploadThumb { bucket, key, content_type }
                && bucket@ == s.vod_bucket@ && key@ == thumb_key_of(s.hls_prefix@, e.video_id@)
                && content_type == ContentType::Jpeg,
            Phase::Publishing => a matches Action::Publish { exchange, routing_key, event }
                && exchange@ == s.exchange@ && routing_key@ == s.ready_routing_key@ && event.video_id@
                == e.video_id@ && event.output_prefix@ == output_prefix_of(s.hls_prefix@, e.video_id@)
                && event.thumb_key@ == thumb_key_of(s.hls_prefix@, e.video_id@) && dur == Some(
                event.duration_sec,
            ),
            Phase::Finished => false,
        }
    }
}

/// The duration a job holds after this result.
pub open spec fn duration_after<D>(p: Phase, old: Option<D>, fb: Feedback<D>) -> Option<D> {
    match fb {
        Feedback::Probed(d) => if p is Probing {
            Some(d)
        } else {
            old
        },
        _ => old,
    }
}

fn copy_text(s: &String) -> (r: String)
    ensures
        r@ == s@,
{
    String::from_str(s.as_str())
}

/// `{dir}/{name}`.
pub fn staged_path(dir: &str, name: &str) -> (r: String)
    ensures
        r@ == staged(dir@, name@),
{
    String::from_str(dir).concat("/").concat(name)
}

fn successor_of(p: Phase) -> (r: Phase)
    ensures
        r == successor(p),
{
    match p {
        Phase::CheckingMarker => Phase::Downloading,
        Phase::Downloading => Phase::Probing,
        Phase::Probing => Phase::Encoding,
        Phase::Encoding => Phase::Inspecting,
        Phase::Inspecting => Phase::Thumbnailing,
        Phase::Thumbnailing => Phase::UploadingTree,
        Phase::UploadingTree => Phase::UploadingThumb,
        Phase::UploadingThumb => Phase::Publishing,
        _ => Phase::Finished,
    }
}

fn awaits_done_exec(p: Phase) -> (r: bool)
    ensures
        r == awaits_done(p),
{
    match p {
        Phase::Downloading | Phase::Encoding | Phase::Thumbnailing | Phase::UploadingTree
        | Phase::UploadingThumb | Phase::Publishing => true,
        _ => false,
    }
}

/// The variant directories, `out_0` to `out_2`.
fn variant_dirs() -> (r: Vec<String>)
    ensures
        texts(r@) == Seq::new(TIER_COUNT as nat, |i: int| variant_dir_of(i as nat)),
{
    let mut v: Vec<String> = Vec::new();
    let mut i: u64 = 0;
    while i < TIER_COUNT
        invariant
            i <= TIER_COUNT,
            texts(v@) == Seq::new(i as nat, |k: int| variant_dir_of(k as nat)),
        decreases TIER_COUNT - i,
    {
        let d = variant_dir(i);
        let ghost prev = v@;
        v.push(d);
        assert(v@ =~= prev.push(d));
        assert(texts(v@) =~= texts(prev).push(variant_dir_of(i as nat)));
        assert(texts(v@) =~= Seq::new((i + 1) as nat, |k: int| variant_dir_of(k as nat)));
        i = i + 1;
    }
    v
}

impl<D> Job<D> {
    /// Starts the job for a decoded payload; `None` stands for a payload that
    /// did not decode, which ends at once.
    pub fn start(settings: JobSettings, staging: String, decoded: Option<UploadEvent>) -> (r: (
        Option<Job<D>>,
        Action<D>,
    ))
        ensures
            decoded is None ==> r.0 is None && r.1 == (Action::<D>::Finish {
                outcome: Err(Failure::Malformed),
                cleanup: false,
            }),
            decoded matches Some(e) ==> (r.0 matches Some(j) && j.phase == Phase::CheckingMarker && j.event == e
                && j.settings == settings && j.staging == staging && j.duration is None && j.wf() && j.asks(
                r.1,
                None,
            )),
    {
        match decoded {
            None => (None, Action::Finish { outcome: Err(Failure::Malformed), cleanup: false }),
            Some(event) => {
                let mut job = Job { settings, event, staging, phase: Phase::CheckingMarker, duration: None };
                let a = job.next_action();
                (Some(job), a)
            },
        }
    }

    /// The work of the current step. Asking for the announcement hands the
    /// duration over to it.
    fn next_action(&mut self) -> (a: Action<D>)
        requires
            !(old(self).phase is Finished),
            old(self).phase is Publishing ==> old(self).duration is Some,
        ensures
            final(self).phase == old(self).phase,
            final(self).settings == old(self).settings,
            final(self).event == old(self).event,
            final(self).staging == old(self).staging,
            old(self).phase is Publishing ==> final(self).duration is None,
            !(old(self).phase is Publishing) ==> final(self).duration == old(self).duration,
            final(self).asks(a, old(self).duration),
    {
        let input = staged_path(self.staging.as_str(), input_file_name());
        match self.phase {
            Phase::CheckingMarker => Action::CheckMarker {
                bucket: copy_text(&self.settings.vod_bucket),
                key: marker_key(self.settings.hls_prefix.as_str(), self.event.video_id.as_str()),
            },
            Phase::Downloading => Action::Download {
                bucket: copy_text(&self.settings.uploads_bucket),
                key: source_key(self.event.input_key.as_str()),
                to: input,
            },
            Phase::Probing => Action::Probe { args: probe_args(input.as_str()) },
            Phase::Encoding => Action::Encode {
                dirs: variant_dirs(),
                args: encode_args(input.as_str(), self.settings.seg_secs),
            },
            Phase::Inspecting => Action::InspectOutput,
            Phase::Thumbnailing => {
                let thumb = staged_path(self.staging.as_str(), thumb_file_name());
                Action::Thumbnail { args: thumbnail_args(input.as_str(), thumb.as_str()) }
            },
            Phase::UploadingTree => Action::UploadTree {
                bucket: copy_text(&self.settings.vod_bucket),
                prefix: output_prefix(self.settings.hls_prefix.as_str(), self.event.video_id.as_str()),
            },
            Phase::UploadingThumb => Action::UploadThumb {
                bucket: copy_text(&self.settings.vod_bucket),
                key: thumb_key(self.settings.hls_prefix.as_str(), self.event.video_id.as_str()),
                content_type: ContentType::Jpeg,
            },
            Phase::Publishing => {
                let d = self.duration.take();
                match d {
                    Some(d) => Action::Publish {
                        exchange: copy_text(&self.settings.exchange),
                        routing_key: copy_text(&self.settings.ready_routing_key),
                        event: ReadyEvent {
                            video_id: copy_text(&self.event.video_id),
                            output_prefix: output_prefix(
                                self.settings.hls_prefix.as_str(),
                                self.event.video_id.as_str(),
                            ),
                            thumb_key: thumb_key(self.settings.hls_prefix.as_str(), self.event.video_id.as_str()),
                            duration_sec: d,
                        },
                    },
                    None => Action::InspectOutput,
                }
            },
            Phase::Finished => Action::InspectOutput,
        }
    }

    /// Takes the result of the work last asked for and returns the next
    /// work. A failure, a result out of order, or the last success ends the
    /// job; the staging directory is to be removed whenever the job got past
    /// its marker check.
    pub fn step(&mut self, fb: Feedback<D>) -> (a: Action<D>)
        requires
            old(self).wf(),
            !(old(self).phase is Finished),
        ensures
            final(self).wf(),
            final(self).settings == old(self).settings,
            final(self).event == old(self).event,
            final(self).staging == old(self).staging,
            ending(old(self).phase, fb) matches Some(o) ==> (final(self).phase == Phase::Finished && a == (
            Action::<D>::Finish { outcome: o, cleanup: !(old(self).phase is CheckingMarker) })),
            ending(old(self).phase, fb) is None ==> (final(self).phase == successor(old(self).phase)
                && final(self).asks(a, duration_after(old(self).phase, old(self).duration, fb))),
    {
        let p = self.phase;
        let end: Option<Result<Completion, Failure>> = match fb {
            Feedback::Marker(present) => match p {
                Phase::CheckingMarker => if present {
                    Some(Ok(Completion::AlreadyDone))
                } else {
                    None
                },
                _ => Some(Err(Failure::OutOfOrder)),
            },
            Feedback::Done => if !awaits_done_exec(p) {
                Some(Err(Failure::OutOfOrder))
            } else {
                match p {
                    Phase::Publishing => Some(Ok(Completion::Published)),
                    _ => None,
                }
            },
            Feedback::Probed(d) => match p {
                Phase::Probing => {
                    self.duration = Some(d);
                    None
                },
                _ => Some(Err(Failure::OutOfOrder)),
            },
            Feedback::Output { files, master } => match p {
                Phase::Inspecting => if output_tree_complete(&files) && master_lists_variants(master.as_str()) {
                    None
                } else {
                    Some(Err(Failure::IncompleteOutput))
                },
                _ => Some(Err(Failure::OutOfOrder)),
            },
            Feedback::StoreFailed(e) => match (p, &e) {
                (Phase::Downloading, StoreError::NoSuchKey) => Some(Err(Failure::MissingSource)),
                _ => Some(Err(Failure::Store(e))),
            },
            Feedback::EngineFailed(m) => Some(Err(Failure::Engine(m))),
            Feedback::StagingFailed(m) => Some(Err(Failure::Staging(m))),
            Feedback::BrokerFailed(m) => Some(Err(Failure::Broker(m))),
        };
        match end {
            Some(outcome) => {
                self.phase = Phase::Finished;
                let cleanup = match p {
                    Phase::CheckingMarker => false,
                    _ => true,
                };
                Action::Finish { outcome, cleanup }
            },
            None => {
                self.phase = successor_of(p);
                self.next_action()
            },
        }
    }

    /// Whether the job has ended.
    pub fn is_finished(&self) -> (r: bool)
        ensures
            r == (self.phase is Finished),
    {
        match self.phase {
            Phase::Finished => true,
            _ => false,
        }
    }
}

} // verus!
