//! The platform lookup table for the two external tools.
//!
//! The host application reads its operating system and architecture names
//! once at startup and asks this table for the bundled binary paths. An
//! unsupported platform gets `None` back instead of stopping the host.

use vstd::prelude::*;
use vstd::string::StringExecFns;
use crate::strutil::str_eq;

verus! {

/// Paths of the two external tools, relative to the application directory.
pub struct BinaryPaths {
    /// The extraction tool.
    pub extractor: String,
    /// The transcoding tool.
    pub transcoder: String,
}

/// The lookup table: extractor and transcoder path per supported platform.
pub open spec fn spec_binary_paths(os: Seq<char>, arch: Seq<char>) -> Option<(Seq<char>, Seq<char>)> {
    if os == "windows"@ && arch == "x86_64"@ {
        Some(("bin/yt-dlp.exe"@, "bin/ffmpeg.exe"@))
    } else if os == "windows"@ && arch == "x86"@ {
        Some(("bin/yt-dlp_x86.exe"@, "bin/ffmpeg_x86.exe"@))
    } else if os == "macos"@ && arch == "aarch64"@ {
        Some(("bin/yt-dlp_macos"@, "bin/ffmpeg_macos_arm"@))
    } else if os == "macos"@ && arch == "x86_64"@ {
        Some(("bin/yt-dlp_macos"@, "bin/ffmpeg_macos_x86"@))
    } else {
        None
    }
}

/// Select the tool paths for a platform.
pub fn binary_paths(os: &str, arch: &str) -> (r: Option<BinaryPaths>)
    ensures
        r is Some <==> spec_binary_paths(os@, arch@) is Some,
        r is Some ==> ({
            let p = spec_binary_paths(os@, arch@)->0;
            (r->0).extractor@ == p.0 && (r->0).transcoder@ == p.1
        }),
{
    if str_eq(os, "windows") && str_eq(arch, "x86_64") {
        Some(
            BinaryPaths {
                extractor: "bin/yt-dlp.exe".to_owned(),
                transcoder: "bin/ffmpeg.exe".to_owned(),
            },
        )
    } else if str_eq(os, "windows") && str_eq(arch, "x86") {
        Some(
            BinaryPaths {
                extractor: "bin/yt-dlp_x86.exe".to_owned(),
                transcoder: "bin/ffmpeg_x86.exe".to_owned(),
            },
        )
    } else if str_eq(os, "macos") && str_eq(arch, "aarch64") {
        Some(
            BinaryPaths {
                extractor: "bin/yt-dlp_macos".to_owned(),
                transcoder: "bin/ffmpeg_macos_arm".to_owned(),
            },
        )
    } else if str_eq(os, "macos") && str_eq(arch, "x86_64") {
        Some(
            BinaryPaths {
                extractor: "bin/yt-dlp_macos".to_owned(),
                transcoder: "bin/ffmpeg_macos_x86".to_owned(),
            },
        )
    } else {
        None
    }
}

} // verus!
