//! Options shared by modules, and the screen recording arguments derived from them.

use crate::text::{append_decimal, append_replacing_newlines, decimal, spaced_lines, split_white_space, words};
use core::time::Duration;
use vstd::prelude::*;
use vstd::string::*;

verus! {

/// Options for connecting to the Redis server
#[derive(Debug, Clone, PartialEq, Eq)]
pub struct RedisOptions {
    /// Redis database server URL
    pub url: String,
}

/// Options relevant for message queueing
#[derive(Debug, Clone, PartialEq, Eq)]
pub struct QueueingOptions {
    /// Unique and stable identifier for this instance.
    pub id: String,
}

/// Options regarding the permanent storage backend
#[derive(Debug)]
pub struct MongoDBOptions {
    /// MongoDB connection URL
    pub mongodb: String,
    /// Name of the database to use
    pub database: String,
    /// Name of the capped collection where session metadata is archived
    pub collection: String,
    /// Name of the collection where session metadata is aggregated
    pub staging_collection: String,
    /// Maximum duration a session metadata object may spend in the staging area.
    pub staging_ttl: Duration,
    /// Uncompressed size limit for the database collection.
    pub size_limit: u64,
}

/// Screen recording related options
#[derive(Debug, Clone, PartialEq, Eq)]
pub struct ScreenRecordingOptions {
    /// Constant Rate Factor (0 is lossless, 51 worst quality)
    pub crf: u8,
    /// Upper bitrate bound in bytes
    pub max_bitrate: usize,
    /// ffmpeg input parameter specification
    pub input: String,
    /// Framerate with which the screen should be recorded
    pub framerate: usize,
    /// HLS segment duration in seconds
    pub segment_duration: usize,
}

/// The ffmpeg arguments for a recording: the screen is grabbed from `input` at `framerate`,
/// scaled to at most 1280x720, encoded with H.264 at the rate factor `crf` and a bitrate
/// capped at `max_bitrate` (buffer twice that, a key frame every two seconds of frames),
/// and streamed as HLS with segments of `segment_duration` seconds to the local storage
/// port. Line feeds in the input become spaces.
pub open spec fn recording_arguments(o: ScreenRecordingOptions, storage_port: u16) -> Seq<char> {
    "-y -framerate "@ + decimal(o.framerate as nat) + " "@ + spaced_lines(o.input@)
        + " -vf scale=w=1280:h=720:force_original_aspect_ratio=decrease         -c:v libx264 -preset ultrafast -crf "@
        + decimal(o.crf as nat) + " -maxrate "@ + decimal(o.max_bitrate as nat) + " -bufsize "@
        + decimal((o.max_bitrate * 2) as nat)
        + " -pix_fmt yuv420p -tune stillimage -x264-params keyint="@ + decimal((o.framerate * 2) as nat)
        + ":scenecut=0:keyint_min="@ + decimal((o.framerate * 2) as nat) + " -g "@ + decimal(o.framerate as nat)
        + "         -f hls -hls_playlist_type event -hls_time "@ + decimal(o.segment_duration as nat)
        + "         -hls_segment_type fmp4 -hls_flags program_date_time         -method PUT http://127.0.0.1:"@
        + decimal(storage_port as nat) + "/screen.m3u8"@
}

/// Server error code reported when a collection to be created exists already.
pub const NAMESPACE_EXISTS_CODE: i32 = 48;

impl MongoDBOptions {
    /// A failed collection creation is fine when the server reports that the collection
    /// exists already; any other failure (or one without a command error code) is an error.
    pub fn creation_failure_tolerated(command_error_code: Option<i32>) -> (r: bool)
        ensures
            r == (command_error_code == Some(48i32)),
    {
        match command_error_code {
            Some(code) => code == NAMESPACE_EXISTS_CODE,
            None => false,
        }
    }
}

impl ScreenRecordingOptions {
    /// Builds the ffmpeg command line for a recording streamed to the storage port.
    pub fn generate_arguments(&self, storage_port: u16) -> (r: String)
        requires
            self.framerate * 2 <= usize::MAX,
            self.max_bitrate * 2 <= usize::MAX,
        ensures
            r@ == recording_arguments(*self, storage_port),
    {
        let mut r = String::from_str("-y -framerate ");
        append_decimal(&mut r, self.framerate);
        r.append(" ");
        append_replacing_newlines(&mut r, self.input.as_str());
        r.append(" -vf scale=w=1280:h=720:force_original_aspect_ratio=decrease         -c:v libx264 -preset ultrafast -crf ");
        append_decimal(&mut r, self.crf as usize);
        r.append(" -maxrate ");
        append_decimal(&mut r, self.max_bitrate);
        r.append(" -bufsize ");
        append_decimal(&mut r, self.max_bitrate * 2);
        r.append(" -pix_fmt yuv420p -tune stillimage -x264-params keyint=");
        append_decimal(&mut r, self.framerate * 2);
        r.append(":scenecut=0:keyint_min=");
        append_decimal(&mut r, self.framerate * 2);
        r.append(" -g ");
        append_decimal(&mut r, self.framerate);
        r.append("         -f hls -hls_playlist_type event -hls_time ");
        append_decimal(&mut r, self.segment_duration);
        r.append("         -hls_segment_type fmp4 -hls_flags program_date_time         -method PUT http://127.0.0.1:");
        append_decimal(&mut r, storage_port as usize);
        r.append("/screen.m3u8");
        r
    }
}


/// Why a recording could not be made
#[derive(Debug, Clone, Copy, PartialEq, Eq, Structural)]
pub enum RecordingError {
    /// no pid found for ffmpeg process
    NoPIDFound,
    /// attempted to restart a previously started recording
    NotRestartable,
}

/// Arguments the recorder process is launched with: the argument text split at white
/// space. A recording that was started before is not started again, as that would
/// overwrite its footage.
pub fn recording_launch_arguments(started: bool, arguments: &str) -> (r: Result<Vec<String>, RecordingError>)
    ensures
        started ==> r == Err::<Vec<String>, RecordingError>(RecordingError::NotRestartable),
        !started ==> (r matches Ok(v) && v@.map_values(|w: String| w@) == words(arguments@)),
{
    if started {
        return Err(RecordingError::NotRestartable);
    }
    Ok(split_white_space(arguments))
}

} // verus!
