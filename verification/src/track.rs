//! Tracks: where they come from, and how far they are on their way to being played.

use std::collections::hash_map::DefaultHasher;
use std::hash::{Hash, Hasher};
use vstd::prelude::*;
use vstd::std_specs::hash::DefaultHasherAdditionalSpecFns;
use vstd::string::*;
use vstd::utf8::is_ascii_chars;

use crate::text::{
    ascii_lower, ends_with, has_suffix, hexadecimal, hexadecimal_len, lowercase, numeral_digits,
    push_numeral, same_text, to_lowercase,
};

verus! {

/// What the bot reads of a web address: its normal form, its host, and the form in which a
/// debugger would show it.
#[derive(Debug)]
pub struct TrackUrl {
    pub text: String,
    pub host: Option<String>,
    pub debug: String,
}

impl Clone for TrackUrl {
    fn clone(&self) -> (r: Self)
        ensures
            r == *self,
    {
        TrackUrl { text: self.text.clone(), host: self.host.clone(), debug: self.debug.clone() }
    }
}

/// What `url::Url::parse` makes of a text: the normal form, the host and the debug form of
/// the address, or the text of the error.
pub uninterp spec fn url_reading(text: Seq<char>) -> Result<
    (Seq<char>, Option<Seq<char>>, Seq<char>),
    Seq<char>,
>;

/// Whether `r` holds what `reading` says.
pub open spec fn is_url_reading(
    reading: Result<(Seq<char>, Option<Seq<char>>, Seq<char>), Seq<char>>,
    r: Result<TrackUrl, String>,
) -> bool {
    match r {
        Ok(url) => reading == Ok::<_, Seq<char>>((url.text@, host_view(url), url.debug@)),
        Err(e) => reading == Err::<(Seq<char>, Option<Seq<char>>, Seq<char>), _>(e@),
    }
}

/// The host of an address, as a sequence of characters.
pub open spec fn host_view(url: TrackUrl) -> Option<Seq<char>> {
    match url.host {
        Some(host) => Some(host@),
        None => None,
    }
}

/// Calls `url::Url::parse`, and on success `Url::to_string`, `Url::host_str` and the
/// `Debug` form of the address.
///
/// All of it is named as a function of the text; nothing is said of which texts are
/// addresses.
#[verifier::external_body]
pub(crate) fn parse_url(text: &str) -> (r: Result<TrackUrl, String>)
    ensures
        is_url_reading(url_reading(text@), r),
{
    match url::Url::parse(text) {
        Ok(url) => Ok(
            TrackUrl {
                text: url.to_string(),
                host: url.host_str().map(|host| host.to_string()),
                debug: format!("{:?}", url),
            },
        ),
        Err(e) => Err(e.to_string()),
    }
}

/// The description of a track that an embed service gives.
#[derive(Debug)]
pub struct EmbedInfo {
    pub width: String,
    pub height: String,
    pub author_name: String,
    pub author_url: String,
    pub version: String,
    pub provider_url: String,
    pub provider_name: String,
    pub thumbnail_width: Option<usize>,
    pub thumbnail_height: Option<usize>,
    pub thumbnail_url: Option<String>,
    pub html: String,
    pub url: String,
    pub kind: String,
    pub title: String,
}

impl Clone for EmbedInfo {
    fn clone(&self) -> (r: Self)
        ensures
            r == *self,
    {
        EmbedInfo {
            width: self.width.clone(),
            height: self.height.clone(),
            author_name: self.author_name.clone(),
            author_url: self.author_url.clone(),
            version: self.version.clone(),
            provider_url: self.provider_url.clone(),
            provider_name: self.provider_name.clone(),
            thumbnail_width: self.thumbnail_width,
            thumbnail_height: self.thumbnail_height,
            thumbnail_url: self.thumbnail_url.clone(),
            html: self.html.clone(),
            url: self.url.clone(),
            kind: self.kind.clone(),
            title: self.title.clone(),
        }
    }
}

/// The site that a track comes from.
#[derive(Debug, Clone, Copy, PartialEq, Eq, Structural)]
pub enum Provider {
    YouTube,
    SoundCloud,
    Other,
}

/// Whose host it is.
pub open spec fn provider_of(host: Seq<char>) -> Provider {
    if host == "youtube"@ || host == "youtu.be"@ || host == "youtube.com"@ || host
        == "www.youtube.com"@ || host == "www.youtu.be"@ {
        Provider::YouTube
    } else if host == "soundcloud.com"@ || host == "www.soundcloud.com"@ {
        Provider::SoundCloud
    } else {
        Provider::Other
    }
}

/// Whose host it is.
pub fn provider(host: &str) -> (r: Provider)
    ensures
        r == provider_of(host@),
{
    if same_text(host, "youtube") || same_text(host, "youtu.be") || same_text(host, "youtube.com")
        || same_text(host, "www.youtube.com") || same_text(host, "www.youtu.be") {
        Provider::YouTube
    } else if same_text(host, "soundcloud.com") || same_text(host, "www.soundcloud.com") {
        Provider::SoundCloud
    } else {
        Provider::Other
    }
}

/// Whether tracks can be downloaded from a host, given in lower case.
pub open spec fn supported_host(lower: Seq<char>) -> bool {
    ||| lower == "youtube.com"@
    ||| lower == "youtu.be"@
    ||| lower == "soundcloud.com"@
    ||| lower == "www.soundcloud.com"@
    ||| lower == "www.youtube.com"@
    ||| lower == "www.youtu.be"@
    ||| ends_with(lower, "bandcamp.com"@)
}

/// Whether tracks can be downloaded from a host, given in lower case.
pub fn is_supported_host(lower: &str) -> (r: bool)
    ensures
        r == supported_host(lower@),
{
    same_text(lower, "youtube.com") || same_text(lower, "youtu.be") || same_text(
        lower,
        "soundcloud.com",
    ) || same_text(lower, "www.soundcloud.com") || same_text(lower, "www.youtube.com") || same_text(
        lower,
        "www.youtu.be",
    ) || has_suffix(lower, "bandcamp.com")
}

/// Whether tracks can be downloaded from a host, in whatever letter case it is written.
pub fn is_youtube_dl_capable_host(host: &str) -> (r: bool)
    ensures
        r == supported_host(lowercase(host@)),
        is_ascii_chars(host@) ==> lowercase(host@) == host@.map_values(|c: char| ascii_lower(c)),
{
    let lower = to_lowercase(host);
    is_supported_host(lower.as_str())
}

/// Where a track comes from.
#[derive(Debug)]
pub enum TrackSource {
    YouTube { url: TrackUrl, embed_info: Option<EmbedInfo> },
    SoundCloud { url: TrackUrl, embed_info: Option<EmbedInfo> },
    Unknown(TrackUrl),
}

impl Clone for TrackSource {
    fn clone(&self) -> (r: Self)
        ensures
            r == *self,
    {
        match self {
            TrackSource::YouTube { url, embed_info } => TrackSource::YouTube {
                url: url.clone(),
                embed_info: embed_info.clone(),
            },
            TrackSource::SoundCloud { url, embed_info } => TrackSource::SoundCloud {
                url: url.clone(),
                embed_info: embed_info.clone(),
            },
            TrackSource::Unknown(url) => TrackSource::Unknown(url.clone()),
        }
    }
}

/// The writes that hashing a text with `std::hash::Hash` makes to a hasher.
pub uninterp spec fn hashed_writes(text: Seq<char>) -> Seq<Seq<u8>>;

/// Calls `std::hash::Hash::hash` on a text: the hasher receives writes that depend on the
/// text alone, after what it has received before. Which writes these are is named, not
/// stated.
#[verifier::external_body]
pub(crate) fn feed_hash(text: &str, hasher: &mut DefaultHasher)
    ensures
        final(hasher)@ == old(hasher)@ + hashed_writes(text@),
{
    text.hash(hasher)
}

/// The hash of a text, by a hasher that has received nothing else.
pub open spec fn text_hash(text: Seq<char>) -> u64 {
    DefaultHasher::spec_finish(hashed_writes(text))
}

impl TrackSource {
    /// The address of the track.
    pub open spec fn address(self) -> TrackUrl {
        match self {
            TrackSource::YouTube { url, .. } => url,
            TrackSource::SoundCloud { url, .. } => url,
            TrackSource::Unknown(url) => url,
        }
    }

    /// What the embed service said of the track.
    pub open spec fn embed(self) -> Option<EmbedInfo> {
        match self {
            TrackSource::YouTube { embed_info, .. } => embed_info,
            TrackSource::SoundCloud { embed_info, .. } => embed_info,
            TrackSource::Unknown(_) => None,
        }
    }

    /// The text that tells this track from others: the address of its thumbnail where one
    /// is known, otherwise its own address.
    pub open spec fn key(self) -> Seq<char> {
        match self.embed() {
            Some(info) => match info.thumbnail_url {
                Some(thumbnail) => thumbnail@,
                None => self.address().text@,
            },
            None => self.address().text@,
        }
    }

    /// How the track shows itself: its title as a link, or its bare address, or, where the
    /// site is not known, the debug form.
    pub open spec fn shown(self) -> Seq<char> {
        match self {
            TrackSource::Unknown(url) => "Unknown("@ + url.debug@ + ")"@,
            _ => match self.embed() {
                Some(info) => "["@ + info.title@ + "]("@ + self.address().text@ + ")"@,
                None => self.address().text@,
            },
        }
    }

    /// The source of a track on a host, with what the embed service said of it. On a host
    /// of no known site that is not kept.
    pub open spec fn at(url: TrackUrl, host: Seq<char>, embed_info: Option<EmbedInfo>) -> Self {
        match provider_of(host) {
            Provider::YouTube => TrackSource::YouTube { url, embed_info },
            Provider::SoundCloud => TrackSource::SoundCloud { url, embed_info },
            Provider::Other => TrackSource::Unknown(url),
        }
    }

    /// Makes the source of a track from its address and from what the embed service said.
    pub fn from_url(url: TrackUrl, embed_info: Option<EmbedInfo>) -> (r: Self)
        requires
            url.host is Some,
        ensures
            r == Self::at(url, url.host->0@, embed_info),
    {
        let kind = match &url.host {
            Some(host) => provider(host.as_str()),
            None => Provider::Other,
        };
        match kind {
            Provider::YouTube => TrackSource::YouTube { url, embed_info },
            Provider::SoundCloud => TrackSource::SoundCloud { url, embed_info },
            Provider::Other => TrackSource::Unknown(url),
        }
    }

    /// The name under which the track is kept on disk.
    pub fn id(&self) -> (r: String)
        ensures
            r@ == hexadecimal(text_hash(self.key()) as nat),
    {
        let mut hasher = DefaultHasher::new();
        match self {
            TrackSource::SoundCloud {
                embed_info: Some(EmbedInfo { thumbnail_url: Some(url), .. }),
                ..
            } => feed_hash(url.as_str(), &mut hasher),
            TrackSource::YouTube {
                embed_info: Some(EmbedInfo { thumbnail_url: Some(url), .. }),
                ..
            } => feed_hash(url.as_str(), &mut hasher),
            _ => feed_hash(self.url().as_str(), &mut hasher),
        }
        assert(hasher@ =~= hashed_writes(self.key()));
        let mut out = String::new();
        push_numeral(&mut out, hasher.finish(), 16);
        assert(out@ =~= hexadecimal(text_hash(self.key()) as nat));
        out
    }

    /// The address of the track.
    pub fn url(&self) -> (r: String)
        ensures
            r@ == self.address().text@,
    {
        match self {
            TrackSource::SoundCloud { url, .. } => url.text.clone(),
            TrackSource::YouTube { url, .. } => url.text.clone(),
            TrackSource::Unknown(url) => url.text.clone(),
        }
    }

    /// How the track shows itself.
    pub fn to_string(&self) -> (r: String)
        ensures
            r@ == self.shown(),
    {
        match self {
            TrackSource::YouTube { embed_info, url }
            | TrackSource::SoundCloud { embed_info, url } => match embed_info {
                Some(info) => {
                    let mut out = "[".to_owned();
                    out.append(info.title.as_str());
                    out.append("](");
                    out.append(url.text.as_str());
                    out.append(")");
                    out
                },
                None => url.text.clone(),
            },
            TrackSource::Unknown(url) => {
                let mut out = "Unknown(".to_owned();
                out.append(url.debug.as_str());
                out.append(")");
                out
            },
        }
    }
}

/// How far a track is on its way to being played.
#[derive(Debug)]
pub enum TrackState {
    /// Waiting to be downloaded.
    Queueed(TrackSource),
    Downloading(TrackSource),
    /// On disk, at the given path.
    Ready { source: TrackSource, path: String },
    /// Something that the download needs did not work.
    Failed { source: TrackSource, error: String },
    /// The download itself reported a failure.
    SimpleFailed { source: TrackSource, error: String },
}

impl Clone for TrackState {
    fn clone(&self) -> (r: Self)
        ensures
            r == *self,
    {
        match self {
            TrackState::Queueed(source) => TrackState::Queueed(source.clone()),
            TrackState::Downloading(source) => TrackState::Downloading(source.clone()),
            TrackState::Ready { source, path } => TrackState::Ready {
                source: source.clone(),
                path: path.clone(),
            },
            TrackState::Failed { source, error } => TrackState::Failed {
                source: source.clone(),
                error: error.clone(),
            },
            TrackState::SimpleFailed { source, error } => TrackState::SimpleFailed {
                source: source.clone(),
                error: error.clone(),
            },
        }
    }
}

impl TrackState {
    /// Where the track comes from.
    pub open spec fn origin(self) -> TrackSource {
        match self {
            TrackState::Queueed(source) => source,
            TrackState::Downloading(source) => source,
            TrackState::Ready { source, .. } => source,
            TrackState::Failed { source, .. } => source,
            TrackState::SimpleFailed { source, .. } => source,
        }
    }

    /// How the track shows itself in a listing.
    pub open spec fn shown(self) -> Seq<char> {
        match self {
            TrackState::Failed { source, error } => "**Failed** "@ + source.shown() + ", "@
                + error@,
            TrackState::SimpleFailed { source, error } => "**Failed** "@ + source.shown() + ", "@
                + error@,
            TrackState::Ready { source, .. } => source.shown(),
            TrackState::Queueed(source) => "**Queued & Processing** "@ + source.shown(),
            TrackState::Downloading(source) => "**Downloading** "@ + source.shown(),
        }
    }

    /// Where the track comes from.
    pub fn source(&self) -> (r: TrackSource)
        ensures
            r == self.origin(),
    {
        match self {
            TrackState::Queueed(source) => source.clone(),
            TrackState::Downloading(source) => source.clone(),
            TrackState::Ready { source, .. } => source.clone(),
            TrackState::Failed { source, .. } => source.clone(),
            TrackState::SimpleFailed { source, .. } => source.clone(),
        }
    }

    /// The address of the track.
    pub fn url(&self) -> (r: String)
        ensures
            r@ == self.origin().address().text@,
    {
        self.source().url()
    }

    /// Where the track comes from, and its address.
    pub fn get_info(&self) -> (r: (TrackSource, String))
        ensures
            r.0 == self.origin(),
            r.1@ == self.origin().address().text@,
    {
        (self.source(), self.url())
    }

    /// The same track, on disk at `path`.
    pub fn ready(&self, path: String) -> (r: TrackState)
        ensures
            r == (TrackState::Ready { source: self.origin(), path }),
    {
        TrackState::Ready { source: self.source(), path }
    }

    /// The same track, given up because something that its download needs did not work.
    pub fn fail(&self, error: String) -> (r: TrackState)
        ensures
            r == (TrackState::Failed { source: self.origin(), error }),
    {
        TrackState::Failed { source: self.source(), error }
    }

    /// The same track, given up because its download reported a failure.
    pub fn fail_str(&self, error: String) -> (r: TrackState)
        ensures
            r == (TrackState::SimpleFailed { source: self.origin(), error }),
    {
        TrackState::SimpleFailed { source: self.source(), error }
    }

    /// How the track shows itself in a listing.
    pub fn to_string(&self) -> (r: String)
        ensures
            r@ == self.shown(),
    {
        match self {
            TrackState::Failed { source, error } | TrackState::SimpleFailed { source, error } => {
                let mut out = "**Failed** ".to_owned();
                out.append(source.to_string().as_str());
                out.append(", ");
                out.append(error.as_str());
                out
            },
            TrackState::Ready { source, .. } => source.to_string(),
            TrackState::Queueed(source) => {
                let mut out = "**Queued & Processing** ".to_owned();
                out.append(source.to_string().as_str());
                out
            },
            TrackState::Downloading(source) => {
                let mut out = "**Downloading** ".to_owned();
                out.append(source.to_string().as_str());
                out
            },
        }
    }
}

/// The directory that downloaded tracks are kept in.
pub const MUSIC_DIR: &'static str = "saved_tracks/";

/// The path at which a track is kept on disk.
pub open spec fn track_path(source: TrackSource) -> Seq<char> {
    MUSIC_DIR@ + hexadecimal(text_hash(source.key()) as nat)
}

/// The path at which a track is kept on disk.
pub fn saved_path(source: &TrackSource) -> (r: String)
    ensures
        r@ == track_path(*source),
{
    let mut out = MUSIC_DIR.to_owned();
    out.append(source.id().as_str());
    out
}

/// The request to the embed service that describes a track: only addresses on the hosts of
/// a known site are asked for.
pub open spec fn embed_query(url: TrackUrl) -> Option<Seq<char>> {
    match url.host {
        Some(host) if provider_of(host@) != Provider::Other => Some(
            "https://noembed.com/embed?url="@ + url.text@,
        ),
        _ => None,
    }
}

/// The request to the embed service that describes a track.
pub fn embed_request(url: &TrackUrl) -> (r: Option<String>)
    ensures
        match r {
            Some(text) => embed_query(*url) == Some(text@),
            None => embed_query(*url) is None,
        },
{
    let wanted = match &url.host {
        Some(host) => provider(host.as_str()) != Provider::Other,
        None => false,
    };
    if wanted {
        let mut out = "https://noembed.com/embed?url=".to_owned();
        out.append(url.text.as_str());
        Some(out)
    } else {
        None
    }
}

/// The path of a track is the directory of saved tracks followed by digits and capital
/// letters only, from one to sixteen of them: no address leads out of that directory.
pub proof fn saved_path_stays_in_dir(source: TrackSource)
    ensures
        MUSIC_DIR@.len() < track_path(source).len() <= MUSIC_DIR@.len() + 16,
        track_path(source).take(MUSIC_DIR@.len() as int) == MUSIC_DIR@,
        forall|i: int|
            MUSIC_DIR@.len() <= i < track_path(source).len() ==> {
                let c = #[trigger] track_path(source)[i];
                '0' <= c <= '9' || 'A' <= c <= 'F'
            },
{
    let name = hexadecimal(text_hash(source.key()) as nat);
    numeral_digits(text_hash(source.key()) as nat, 16);
    hexadecimal_len(text_hash(source.key()));
    let dir = MUSIC_DIR@;
    assert(track_path(source).take(dir.len() as int) =~= dir);
    assert forall|i: int| dir.len() <= i < track_path(source).len() implies {
        let c = #[trigger] track_path(source)[i];
        '0' <= c <= '9' || 'A' <= c <= 'F'
    } by {
        assert(track_path(source)[i] == name[i - dir.len()]);
    }
}

/// Tracks that share a key share their place on disk, whatever else is known of them.
pub proof fn same_key_same_path(a: TrackSource, b: TrackSource)
    requires
        a.key() == b.key(),
    ensures
        track_path(a) == track_path(b),
{
}

/// A host that tracks can be downloaded from belongs to a known site or ends in
/// `bandcamp.com`.
pub proof fn supported_hosts_are_known(host: Seq<char>)
    requires
        supported_host(host),
    ensures
        provider_of(host) != Provider::Other || ends_with(host, "bandcamp.com"@),
{
}

} // verus!
