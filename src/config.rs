//! The worker's settings and their defaults.
use vstd::prelude::*;
use vstd::string::*;
use crate::job::{staged, staged_path, JobSettings};

verus! {

/// Seconds per HLS segment unless configured.
pub const DEFAULT_SEGMENT_SECS: u32 = 6;

/// Port of the metrics endpoint unless configured.
pub const DEFAULT_METRICS_PORT: u16 = 9102;

/// Unacknowledged deliveries the broker may hand one worker: jobs run one at
/// a time per worker.
pub const PREFETCH: u16 = 1;

pub struct Config {
    pub amqp_url: String,
    pub amqp_exchange: String,
    pub amqp_uploaded_rk: String,
    pub amqp_ready_rk: String,
    pub amqp_queue: String,
    pub s3_endpoint: String,
    pub s3_bucket_uploads: String,
    pub s3_bucket_vod: String,
    pub region: String,
    pub hls_prefix: String,
    pub seg_secs: u32,
    pub workdir: String,
    pub metrics_port: u16,
}

impl Config {
    /// The two addresses that have no default, and the defaults for the rest.
    pub fn with_defaults(amqp_url: String, s3_endpoint: String) -> (r: Config)
        ensures
            r.amqp_url == amqp_url,
            r.s3_endpoint == s3_endpoint,
            r.amqp_exchange@ == "domain"@,
            r.amqp_uploaded_rk@ == "video.uploaded"@,
            r.amqp_ready_rk@ == "video.ready"@,
            r.amqp_queue@ == "q.transcoder.uploaded"@,
            r.s3_bucket_uploads@ == "uploads"@,
            r.s3_bucket_vod@ == "vod"@,
            r.region@ == "us-east-1"@,
            r.hls_prefix@ == "hls"@,
            r.seg_secs == DEFAULT_SEGMENT_SECS,
            r.workdir@ == "/work"@,
            r.metrics_port == DEFAULT_METRICS_PORT,
    {
        Config {
            amqp_url,
            amqp_exchange: String::from_str("domain"),
            amqp_uploaded_rk: String::from_str("video.uploaded"),
            amqp_ready_rk: String::from_str("video.ready"),
            amqp_queue: String::from_str("q.transcoder.uploaded"),
            s3_endpoint,
            s3_bucket_uploads: String::from_str("uploads"),
            s3_bucket_vod: String::from_str("vod"),
            region: String::from_str("us-east-1"),
            hls_prefix: String::from_str("hls"),
            seg_secs: DEFAULT_SEGMENT_SECS,
            workdir: String::from_str("/work"),
            metrics_port: DEFAULT_METRICS_PORT,
        }
    }

    /// What a job needs of the configuration.
    pub fn job_settings(&self) -> (r: JobSettings)
        ensures
            r.exchange@ == self.amqp_exchange@,
            r.ready_routing_key@ == self.amqp_ready_rk@,
            r.uploads_bucket@ == self.s3_bucket_uploads@,
            r.vod_bucket@ == self.s3_bucket_vod@,
            r.hls_prefix@ == self.hls_prefix@,
            r.seg_secs == self.seg_secs,
    {
        JobSettings {
            exchange: String::from_str(self.amqp_exchange.as_str()),
            ready_routing_key: String::from_str(self.amqp_ready_rk.as_str()),
            uploads_bucket: String::from_str(self.s3_bucket_uploads.as_str()),
            vod_bucket: String::from_str(self.s3_bucket_vod.as_str()),
            hls_prefix: String::from_str(self.hls_prefix.as_str()),
            seg_secs: self.seg_secs,
        }
    }

    /// The staging directory of one attempt at a video: the work directory,
    /// then the video id, then the attempt's own tag, so that two attempts
    /// at one video never share a directory.
    pub fn staging_dir(&self, video_id: &str, attempt: &str) -> (r: String)
        ensures
            r@ == staged(staged(self.workdir@, video_id@), attempt@),
    {
        let dir = staged_path(self.workdir.as_str(), video_id);
        staged_path(dir.as_str(), attempt)
    }
}

} // verus!
