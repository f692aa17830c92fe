//! Classification of a URL from the extraction tool's metadata output.
//!
//! The tool is asked for one consolidated JSON document; its exit status
//! and captured standard output are handed to [`classify_output`]. The
//! fields of interest are pulled out of the document into plain values
//! ([`ExtractionMetadata`]), and every classification decision is then a
//! function of those values alone. No field is guaranteed present; absent
//! or differently-typed fields read as absent.
//!
//! An explicitly empty playlist and uninterpretable metadata both surface
//! to the caller as the not-actionable kind, but the two causes stay
//! internally distinguishable: the classification carries an
//! empty-playlist flag, and the pipeline maps the two causes to different
//! refusals.

use vstd::prelude::*;
use crate::json::{
    array_len_field_of, json_doc_parses, json_doc_valid, read_array_len_field, read_string_field,
    read_u64_field, string_field_of, u64_field_of,
};
use crate::strutil::{opt_view, str_eq};

verus! {

/// Classification of what a URL points at.
#[derive(Clone, Copy, Debug, PartialEq, Eq, Structural)]
pub enum ResourceKind {
    /// A single playable item.
    Video,
    /// A collection of items with at least one entry.
    Playlist,
    /// Nothing actionable: absent, empty, or not interpretable.
    NotActionable,
}

/// The fields of interest of the extraction tool's metadata document.
pub struct ExtractionMetadata {
    /// The discriminator string (`"playlist"`, `"video"`, ...).
    pub discriminator: Option<String>,
    /// The unique identifier of a single item.
    pub id: Option<String>,
    /// The length of the entries list, when one is present.
    pub entries_len: Option<usize>,
    /// The declared entry count, when one is present.
    pub declared_count: Option<u64>,
    /// The declared title.
    pub title: Option<String>,
}

/// A discriminator field carries the playlist marker.
pub open spec fn playlist_marked_parts(discriminator: Option<Seq<char>>) -> bool {
    discriminator is Some && discriminator->0 == "playlist"@
}

/// The document carries the playlist discriminator.
pub open spec fn playlist_marked(m: ExtractionMetadata) -> bool {
    playlist_marked_parts(opt_view(m.discriminator))
}

/// The count and entries fields say, one way or the other, that the
/// playlist is empty.
pub open spec fn playlist_known_empty_parts(
    entries_len: Option<usize>,
    declared_count: Option<u64>,
) -> bool {
    declared_count == Some(0u64) || entries_len == Some(0usize)
}

/// The document says, one way or the other, that the playlist is empty.
pub open spec fn playlist_known_empty(m: ExtractionMetadata) -> bool {
    playlist_known_empty_parts(m.entries_len, m.declared_count)
}

/// The classification rule over the extracted fields, in order: a
/// playlist discriminator wins, and an explicitly empty playlist is not
/// actionable; otherwise a present unique identifier means a single
/// video; otherwise nothing actionable.
pub open spec fn spec_classify_parts(
    discriminator: Option<Seq<char>>,
    id: Option<Seq<char>>,
    entries_len: Option<usize>,
    declared_count: Option<u64>,
) -> ResourceKind {
    if playlist_marked_parts(discriminator) {
        if playlist_known_empty_parts(entries_len, declared_count) {
            ResourceKind::NotActionable
        } else {
            ResourceKind::Playlist
        }
    } else if id is Some {
        ResourceKind::Video
    } else {
        ResourceKind::NotActionable
    }
}

/// The classification rule on a metadata record.
pub open spec fn spec_classify(m: ExtractionMetadata) -> ResourceKind {
    spec_classify_parts(opt_view(m.discriminator), opt_view(m.id), m.entries_len, m.declared_count)
}

/// The record describes an explicitly empty playlist: the one
/// not-actionable cause that means "nothing to do" rather than a failure
/// to interpret.
pub open spec fn spec_empty_playlist(m: ExtractionMetadata) -> bool {
    playlist_marked(m) && playlist_known_empty(m)
}

/// Classify a metadata record.
pub fn classify_metadata(m: &ExtractionMetadata) -> (k: ResourceKind)
    ensures
        k == spec_classify(*m),
{
    let is_playlist = match &m.discriminator {
        Some(d) => str_eq(d.as_str(), "playlist"),
        None => false,
    };
    if is_playlist {
        let count_zero = match m.declared_count {
            Some(c) => c == 0,
            None => false,
        };
        let entries_empty = match m.entries_len {
            Some(l) => l == 0,
            None => false,
        };
        if count_zero || entries_empty {
            ResourceKind::NotActionable
        } else {
            ResourceKind::Playlist
        }
    } else if m.id.is_some() {
        ResourceKind::Video
    } else {
        ResourceKind::NotActionable
    }
}

/// Whether a record describes an explicitly empty playlist.
pub fn is_empty_playlist(m: &ExtractionMetadata) -> (r: bool)
    ensures
        r == spec_empty_playlist(*m),
{
    let marked = match &m.discriminator {
        Some(d) => str_eq(d.as_str(), "playlist"),
        None => false,
    };
    if !marked {
        return false;
    }
    let count_zero = match m.declared_count {
        Some(c) => c == 0,
        None => false,
    };
    let entries_empty = match m.entries_len {
        Some(l) => l == 0,
        None => false,
    };
    count_zero || entries_empty
}

/// Playlist metadata that is not marked empty classifies as a playlist;
/// one whose entries list is empty or whose declared count is zero
/// classifies as not actionable.
pub proof fn lemma_playlist_classification(m: ExtractionMetadata)
    requires
        playlist_marked(m),
    ensures
        !playlist_known_empty(m) ==> spec_classify(m) == ResourceKind::Playlist,
        m.entries_len == Some(0usize) || m.declared_count == Some(0u64) ==> spec_classify(m)
            == ResourceKind::NotActionable,
{
}

/// Metadata without a playlist discriminator but with a unique identifier
/// classifies as a single video.
pub proof fn lemma_identifier_classification(m: ExtractionMetadata)
    requires
        !playlist_marked(m),
        m.id is Some,
    ensures
        spec_classify(m) == ResourceKind::Video,
{
}

/// A failed tool run, or output in which no metadata record could be
/// read, always classifies as not actionable — never as anything else.
pub proof fn lemma_failure_classification(tool_succeeded: bool, parsed: Option<ExtractionMetadata>)
    requires
        !tool_succeeded || parsed is None,
    ensures
        spec_reported_kind(tool_succeeded, parsed) == ResourceKind::NotActionable,
        spec_reported_title(tool_succeeded, parsed) is None,
        !spec_reported_empty(tool_succeeded, parsed),
{
}

/// Read the fields of interest out of the tool's standard output: a
/// record exactly when the text is one valid JSON document, its fields
/// the document's fields.
pub fn parse_metadata(s: &str) -> (r: Option<ExtractionMetadata>)
    ensures
        r is Some <==> json_doc_valid(s@),
        r is Some ==> opt_view((r->0).discriminator) == string_field_of(s@, "_type"@),
        r is Some ==> opt_view((r->0).id) == string_field_of(s@, "id"@),
        r is Some ==> (r->0).entries_len == array_len_field_of(s@, "entries"@),
        r is Some ==> (r->0).declared_count == u64_field_of(s@, "playlist_count"@),
        r is Some ==> opt_view((r->0).title) == string_field_of(s@, "title"@),
{
    if !json_doc_parses(s) {
        return None;
    }
    let discriminator = read_string_field(s, "_type");
    let id = read_string_field(s, "id");
    let entries_len = read_array_len_field(s, "entries");
    let declared_count = read_u64_field(s, "playlist_count");
    let title = read_string_field(s, "title");
    Some(ExtractionMetadata { discriminator, id, entries_len, declared_count, title })
}

/// What one classification call reports to the caller.
pub struct UrlClassification {
    pub kind: ResourceKind,
    /// The playlist title, when a playlist with a title was recognized.
    pub playlist_title: Option<String>,
    /// Whether a not-actionable verdict came from an explicitly empty
    /// playlist rather than uninterpretable metadata.
    pub empty_playlist: bool,
}

/// The kind a classification call reports: not actionable when the tool
/// failed or its output was not interpretable, else the metadata rule.
pub open spec fn spec_reported_kind(
    tool_succeeded: bool,
    parsed: Option<ExtractionMetadata>,
) -> ResourceKind {
    if !tool_succeeded {
        ResourceKind::NotActionable
    } else {
        match parsed {
            Some(m) => spec_classify(m),
            None => ResourceKind::NotActionable,
        }
    }
}

/// The title a classification call reports: the metadata title, and only
/// for a recognized playlist.
pub open spec fn spec_reported_title(
    tool_succeeded: bool,
    parsed: Option<ExtractionMetadata>,
) -> Option<String> {
    if spec_reported_kind(tool_succeeded, parsed) is Playlist {
        parsed->0.title
    } else {
        Option::<String>::None
    }
}

/// Whether a classification call reports an explicitly empty playlist.
pub open spec fn spec_reported_empty(
    tool_succeeded: bool,
    parsed: Option<ExtractionMetadata>,
) -> bool {
    tool_succeeded && parsed is Some && spec_empty_playlist(parsed->0)
}

/// Classify an already-parsed metadata record together with the tool's
/// exit flag. Exposed so that the decision can be exercised on any record,
/// wherever it came from.
pub fn classify_parsed(tool_succeeded: bool, parsed: Option<ExtractionMetadata>) -> (r:
    UrlClassification)
    ensures
        r.kind == spec_reported_kind(tool_succeeded, parsed),
        r.playlist_title == spec_reported_title(tool_succeeded, parsed),
        r.empty_playlist == spec_reported_empty(tool_succeeded, parsed),
{
    if !tool_succeeded {
        return UrlClassification {
            kind: ResourceKind::NotActionable,
            playlist_title: None,
            empty_playlist: false,
        };
    }
    match parsed {
        None => UrlClassification {
            kind: ResourceKind::NotActionable,
            playlist_title: None,
            empty_playlist: false,
        },
        Some(m) => {
            let kind = classify_metadata(&m);
            let empty_playlist = is_empty_playlist(&m);
            let playlist_title = if kind == ResourceKind::Playlist {
                m.title
            } else {
                None
            };
            UrlClassification { kind, playlist_title, empty_playlist }
        },
    }
}

/// The classification the rule gives on the tool's raw output text.
pub open spec fn spec_kind_of_text(s: Seq<char>) -> ResourceKind {
    if json_doc_valid(s) {
        spec_classify_parts(
            string_field_of(s, "_type"@),
            string_field_of(s, "id"@),
            array_len_field_of(s, "entries"@),
            u64_field_of(s, "playlist_count"@),
        )
    } else {
        ResourceKind::NotActionable
    }
}

/// The title reported for the text: its title field, and only when the
/// text classifies as a playlist.
pub open spec fn spec_title_of_text(s: Seq<char>) -> Option<Seq<char>> {
    if spec_kind_of_text(s) is Playlist {
        string_field_of(s, "title"@)
    } else {
        Option::<Seq<char>>::None
    }
}

/// The text describes an explicitly empty playlist.
pub open spec fn spec_empty_playlist_text(s: Seq<char>) -> bool {
    json_doc_valid(s) && playlist_marked_parts(string_field_of(s, "_type"@))
        && playlist_known_empty_parts(
        array_len_field_of(s, "entries"@),
        u64_field_of(s, "playlist_count"@),
    )
}

/// Classify the extraction tool's metadata-mode run: its exit success
/// flag and its captured standard output. A failed run or unparsable
/// output degrades to not actionable; otherwise the verdict, the playlist
/// title and the empty-playlist cause are exactly what the document's
/// fields give.
pub fn classify_output(tool_succeeded: bool, stdout_text: &str) -> (r: UrlClassification)
    ensures
        r.kind == (if tool_succeeded {
            spec_kind_of_text(stdout_text@)
        } else {
            ResourceKind::NotActionable
        }),
        opt_view(r.playlist_title) == (if tool_succeeded {
            spec_title_of_text(stdout_text@)
        } else {
            Option::<Seq<char>>::None
        }),
        r.empty_playlist == (tool_succeeded && spec_empty_playlist_text(stdout_text@)),
{
    let parsed = if tool_succeeded {
        parse_metadata(stdout_text)
    } else {
        None
    };
    classify_parsed(tool_succeeded, parsed)
}

} // verus!
