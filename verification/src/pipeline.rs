//! The acquisition pipeline's sequencing decisions.
//!
//! The pipeline owns no algorithm of its own: it classifies, resolves a
//! playlist destination, builds arguments, and hands the plan to the
//! supervisor. The one rule it enforces is the short-circuit: a request
//! classified as not actionable is refused here, before anything could be
//! spawned.

use vstd::prelude::*;
use crate::args::{generate_args, spec_generate_args};
use crate::metadata::ResourceKind;
use crate::outcome::FailureReason;
use crate::strutil::views_of;
use vstd::string::StringExecFns;

verus! {

/// A download request as the caller hands it over, immutable for the
/// duration of one supervised run.
pub struct DownloadRequest {
    /// The source URL.
    pub url: String,
    /// The output container or audio codec token.
    pub format: String,
    /// The quality token (a resolution class, or anything else for best).
    pub quality: String,
    /// What the URL was classified as.
    pub kind: ResourceKind,
    /// Whether a not-actionable classification reported an explicitly
    /// empty playlist — "nothing to do" — rather than uninterpretable
    /// metadata.
    pub empty_playlist: bool,
    /// The configured base download directory.
    pub base_dir: String,
    /// The resolved playlist folder name, for playlist downloads.
    pub playlist_folder: Option<String>,
}

/// Everything the supervisor needs to start the extraction tool.
pub struct DownloadPlan {
    /// The directory the tool writes into.
    pub dest_dir: String,
    /// The invocation arguments, destination and transcoder bound.
    pub args: Vec<String>,
}

/// A base directory joined with a child directory name.
pub open spec fn spec_join(base: Seq<char>, name: Seq<char>) -> Seq<char> {
    base + "/"@ + name
}

/// Join a base directory with a child directory name.
pub fn join_path(base: &str, name: &str) -> (r: String)
    ensures
        r@ == spec_join(base@, name@),
{
    let mut s = base.to_owned();
    s.append("/");
    s.append(name);
    s
}

/// The directory a request downloads into: the resolved playlist folder
/// under the base directory for a playlist, the base directory itself
/// otherwise.
pub open spec fn spec_dest_dir(req: DownloadRequest) -> Seq<char> {
    if req.kind is Playlist && req.playlist_folder is Some {
        spec_join(req.base_dir@, req.playlist_folder->0@)
    } else {
        req.base_dir@
    }
}

/// Plan one download for an already classified request. A request whose
/// classification found nothing actionable is refused before any process
/// could be spawned, with its cause kept apart: an explicitly empty
/// playlist is the nothing-to-do refusal, anything else was metadata that
/// could not be interpreted. Any other request gets a full plan with its
/// destination and argument list.
pub fn plan_download(req: &DownloadRequest, ffmpeg_path: &str) -> (r: Result<
    DownloadPlan,
    FailureReason,
>)
    ensures
        req.kind is NotActionable <==> r is Err,
        r is Err ==> r->Err_0 == (if req.empty_playlist {
            FailureReason::EmptyResource
        } else {
            FailureReason::ClassificationAmbiguous
        }),
        r is Ok ==> r->Ok_0.dest_dir@ == spec_dest_dir(*req),
        r is Ok ==> views_of(r->Ok_0.args@) == spec_generate_args(
            req.format@,
            req.quality@,
            req.kind,
            ffmpeg_path@,
            spec_dest_dir(*req),
        ),
{
    if let ResourceKind::NotActionable = req.kind {
        if req.empty_playlist {
            return Err(FailureReason::EmptyResource);
        }
        return Err(FailureReason::ClassificationAmbiguous);
    }
    let dest_dir = if let ResourceKind::Playlist = req.kind {
        match &req.playlist_folder {
            Some(folder) => join_path(req.base_dir.as_str(), folder.as_str()),
            None => req.base_dir.clone(),
        }
    } else {
        req.base_dir.clone()
    };
    let args = generate_args(
        req.format.as_str(),
        req.quality.as_str(),
        req.kind,
        ffmpeg_path,
        dest_dir.as_str(),
    );
    Ok(DownloadPlan { dest_dir, args })
}

} // verus!
