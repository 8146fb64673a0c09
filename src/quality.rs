//! Quality tiers: which ones a source offers, and how each one is fetched or encoded.
use vstd::prelude::*;
use crate::text::same_text;

verus! {

/// A target quality, from the unconstrained best down to audio alone.
#[derive(Clone, Copy, Debug, PartialEq, Eq, Structural)]
pub enum QualityTier {
    Best,
    Uhd8K,
    Uhd4K,
    P1440,
    P1080,
    P720,
    P480,
    AudioOnly,
}

/// Height a source must reach for a tier to be offered; `None` for tiers offered always.
pub open spec fn threshold(t: QualityTier) -> Option<nat> {
    match t {
        QualityTier::Uhd8K => Some(4320),
        QualityTier::Uhd4K => Some(2160),
        QualityTier::P1440 => Some(1440),
        QualityTier::P1080 => Some(1080),
        QualityTier::P720 => Some(720),
        QualityTier::P480 => Some(480),
        _ => None,
    }
}

pub open spec fn if_reached(h: nat, t: QualityTier) -> Seq<QualityTier> {
    if h >= threshold(t)->0 {
        seq![t]
    } else {
        Seq::empty()
    }
}

/// The tiers offered for a source of height `h`, in the order they are shown.
pub open spec fn offered(h: nat) -> Seq<QualityTier> {
    seq![QualityTier::Best] + if_reached(h, QualityTier::Uhd8K) + if_reached(h, QualityTier::Uhd4K)
        + if_reached(h, QualityTier::P1440) + if_reached(h, QualityTier::P1080) + if_reached(
        h,
        QualityTier::P720,
    ) + if_reached(h, QualityTier::P480) + seq![QualityTier::AudioOnly]
}

/// Height assumed for a local file whose height could not be probed.
pub const DEFAULT_LOCAL_HEIGHT: u64 = 1080;

pub open spec fn local_height(h: nat) -> nat {
    if h == 0 {
        DEFAULT_LOCAL_HEIGHT as nat
    } else {
        h
    }
}

/// The tiers to offer for a source whose tallest stream is `height` pixels high.
pub fn resolve_qualities(height: u64) -> (r: Vec<QualityTier>)
    ensures
        r@ == offered(height as nat),
{
    let mut r: Vec<QualityTier> = Vec::new();
    r.push(QualityTier::Best);
    let ghost h = height as nat;
    assert(r@ =~= seq![QualityTier::Best]);
    if height >= 4320 {
        r.push(QualityTier::Uhd8K);
    }
    assert(r@ =~= seq![QualityTier::Best] + if_reached(h, QualityTier::Uhd8K));
    let ghost a = r@;
    if height >= 2160 {
        r.push(QualityTier::Uhd4K);
    }
    assert(r@ =~= a + if_reached(h, QualityTier::Uhd4K));
    let ghost a = r@;
    if height >= 1440 {
        r.push(QualityTier::P1440);
    }
    assert(r@ =~= a + if_reached(h, QualityTier::P1440));
    let ghost a = r@;
    if height >= 1080 {
        r.push(QualityTier::P1080);
    }
    assert(r@ =~= a + if_reached(h, QualityTier::P1080));
    let ghost a = r@;
    if height >= 720 {
        r.push(QualityTier::P720);
    }
    assert(r@ =~= a + if_reached(h, QualityTier::P720));
    let ghost a = r@;
    if height >= 480 {
        r.push(QualityTier::P480);
    }
    assert(r@ =~= a + if_reached(h, QualityTier::P480));
    let ghost a = r@;
    r.push(QualityTier::AudioOnly);
    assert(r@ =~= a + seq![QualityTier::AudioOnly]);
    r
}

/// The tiers to offer for a local file; an unknown height (0) counts as `DEFAULT_LOCAL_HEIGHT`.
pub fn resolve_local_qualities(height: u64) -> (r: Vec<QualityTier>)
    ensures
        r@ == offered(local_height(height as nat)),
{
    if height == 0 {
        resolve_qualities(DEFAULT_LOCAL_HEIGHT)
    } else {
        resolve_qualities(height)
    }
}

/// The offered list starts with `Best`, ends with `AudioOnly`, and holds a video tier
/// exactly when the source reaches that tier's height.
pub proof fn lemma_offered_tiers(h: nat)
    ensures
        offered(h)[0] == QualityTier::Best,
        offered(h).last() == QualityTier::AudioOnly,
        forall|t: QualityTier|
            #[trigger] threshold(t) is Some ==> (offered(h).contains(t) <==> h >= threshold(t)->0),
        offered(h).contains(QualityTier::Best),
        offered(h).contains(QualityTier::AudioOnly),
{
    let s = offered(h);
    assert(s[0] == QualityTier::Best);
    assert(s[s.len() - 1] == QualityTier::AudioOnly);
    assert forall|t: QualityTier| #[trigger] threshold(t) is Some implies (s.contains(t) <==> h
        >= threshold(t)->0) by {
        if h >= threshold(t)->0 {
            let i = 1 + (if t != QualityTier::Uhd8K && h >= 4320 { 1int } else { 0 }) + (if t
                != QualityTier::Uhd8K && t != QualityTier::Uhd4K && h >= 2160 {
                1int
            } else {
                0
            }) + (if t != QualityTier::Uhd8K && t != QualityTier::Uhd4K && t != QualityTier::P1440
                && h >= 1440 {
                1int
            } else {
                0
            }) + (if (t == QualityTier::P720 || t == QualityTier::P480) && h >= 1080 {
                1int
            } else {
                0
            }) + (if t == QualityTier::P480 && h >= 720 {
                1int
            } else {
                0
            });
            assert(s[i] == t);
        } else {
            assert forall|i: int| 0 <= i < s.len() implies s[i] != t by {}
        }
    }
}

/// Whether a fetched stream of this tier must be converted before delivery.
pub open spec fn reencode_required(t: QualityTier) -> bool {
    match t {
        QualityTier::Best | QualityTier::Uhd8K | QualityTier::Uhd4K | QualityTier::P1440 => true,
        _ => false,
    }
}

/// The stream-selection expression handed to the downloader for a tier.
pub open spec fn selector(t: QualityTier) -> Seq<char> {
    match t {
        QualityTier::Best => "bestvideo+bestaudio/best"@,
        QualityTier::Uhd8K => "bestvideo[height=4320]+bestaudio/bestvideo[height>2160]+bestaudio/best"@,
        QualityTier::Uhd4K => "bestvideo[height=2160]+bestaudio/bestvideo[height>1080]+bestaudio/best"@,
        QualityTier::P1440 => "bestvideo[height=1440]+bestaudio/bestvideo[height>1080]+bestaudio/best"@,
        QualityTier::P1080 => "bestvideo[height=1080][vcodec^=avc]+bestaudio[ext=m4a]/bestvideo[height=1080]+bestaudio/best[height<=1080]"@,
        QualityTier::P720 => "bestvideo[height=720][vcodec^=avc]+bestaudio[ext=m4a]/bestvideo[height=720]+bestaudio/best[height<=720]"@,
        QualityTier::P480 => "bestvideo[height=480][vcodec^=avc]+bestaudio[ext=m4a]/bestvideo[height=480]+bestaudio/best[height<=480]"@,
        QualityTier::AudioOnly => "bestaudio/best"@,
    }
}

/// The display name of a tier.
pub open spec fn label_of(t: QualityTier) -> Seq<char> {
    match t {
        QualityTier::Best => "Best"@,
        QualityTier::Uhd8K => "8K"@,
        QualityTier::Uhd4K => "4K"@,
        QualityTier::P1440 => "1440p"@,
        QualityTier::P1080 => "1080p"@,
        QualityTier::P720 => "720p"@,
        QualityTier::P480 => "480p"@,
        QualityTier::AudioOnly => "Audio Only"@,
    }
}

/// The tier whose display name is `s`, if any.
pub open spec fn tier_named(s: Seq<char>) -> Option<QualityTier> {
    if s == "Best"@ {
        Some(QualityTier::Best)
    } else if s == "8K"@ {
        Some(QualityTier::Uhd8K)
    } else if s == "4K"@ {
        Some(QualityTier::Uhd4K)
    } else if s == "1440p"@ {
        Some(QualityTier::P1440)
    } else if s == "1080p"@ {
        Some(QualityTier::P1080)
    } else if s == "720p"@ {
        Some(QualityTier::P720)
    } else if s == "480p"@ {
        Some(QualityTier::P480)
    } else if s == "Audio Only"@ {
        Some(QualityTier::AudioOnly)
    } else {
        None
    }
}

/// What the encoder does with the video stream of a local file.
#[derive(Clone, Copy, Debug, PartialEq, Eq, Structural)]
pub enum LocalVideo {
    Keep,
    ScaleTo(u32),
    Drop,
}

/// How a local file of tier `t` treats its video: scaled to the tier's height, kept as it
/// is (`Best`), or dropped (`AudioOnly`).
pub open spec fn local_video_of(t: QualityTier) -> LocalVideo {
    match t {
        QualityTier::Best => LocalVideo::Keep,
        QualityTier::AudioOnly => LocalVideo::Drop,
        _ => LocalVideo::ScaleTo(threshold(t)->0 as u32),
    }
}

impl QualityTier {
    pub fn needs_reencode(self) -> (r: bool)
        ensures
            r == reencode_required(self),
    {
        match self {
            QualityTier::Best | QualityTier::Uhd8K | QualityTier::Uhd4K | QualityTier::P1440 => true,
            _ => false,
        }
    }

    pub fn source_selector(self) -> (r: String)
        ensures
            r@ == selector(self),
    {
        match self {
            QualityTier::Best => "bestvideo+bestaudio/best".to_owned(),
            QualityTier::Uhd8K => "bestvideo[height=4320]+bestaudio/bestvideo[height>2160]+bestaudio/best".to_owned(),
            QualityTier::Uhd4K => "bestvideo[height=2160]+bestaudio/bestvideo[height>1080]+bestaudio/best".to_owned(),
            QualityTier::P1440 => "bestvideo[height=1440]+bestaudio/bestvideo[height>1080]+bestaudio/best".to_owned(),
            QualityTier::P1080 => "bestvideo[height=1080][vcodec^=avc]+bestaudio[ext=m4a]/bestvideo[height=1080]+bestaudio/best[height<=1080]".to_owned(),
            QualityTier::P720 => "bestvideo[height=720][vcodec^=avc]+bestaudio[ext=m4a]/bestvideo[height=720]+bestaudio/best[height<=720]".to_owned(),
            QualityTier::P480 => "bestvideo[height=480][vcodec^=avc]+bestaudio[ext=m4a]/bestvideo[height=480]+bestaudio/best[height<=480]".to_owned(),
            QualityTier::AudioOnly => "bestaudio/best".to_owned(),
        }
    }

    pub fn local_video(self) -> (r: LocalVideo)
        ensures
            r == local_video_of(self),
    {
        match self {
            QualityTier::Best => LocalVideo::Keep,
            QualityTier::Uhd8K => LocalVideo::ScaleTo(4320),
            QualityTier::Uhd4K => LocalVideo::ScaleTo(2160),
            QualityTier::P1440 => LocalVideo::ScaleTo(1440),
            QualityTier::P1080 => LocalVideo::ScaleTo(1080),
            QualityTier::P720 => LocalVideo::ScaleTo(720),
            QualityTier::P480 => LocalVideo::ScaleTo(480),
            QualityTier::AudioOnly => LocalVideo::Drop,
        }
    }

    pub fn label(self) -> (r: String)
        ensures
            r@ == label_of(self),
    {
        match self {
            QualityTier::Best => "Best".to_owned(),
            QualityTier::Uhd8K => "8K".to_owned(),
            QualityTier::Uhd4K => "4K".to_owned(),
            QualityTier::P1440 => "1440p".to_owned(),
            QualityTier::P1080 => "1080p".to_owned(),
            QualityTier::P720 => "720p".to_owned(),
            QualityTier::P480 => "480p".to_owned(),
            QualityTier::AudioOnly => "Audio Only".to_owned(),
        }
    }

    /// The tier with display name `s`.
    pub fn from_label(s: &str) -> (r: Option<QualityTier>)
        ensures
            r == tier_named(s@),
    {
        if same_text(s, "Best") {
            Some(QualityTier::Best)
        } else if same_text(s, "8K") {
            Some(QualityTier::Uhd8K)
        } else if same_text(s, "4K") {
            Some(QualityTier::Uhd4K)
        } else if same_text(s, "1440p") {
            Some(QualityTier::P1440)
        } else if same_text(s, "1080p") {
            Some(QualityTier::P1080)
        } else if same_text(s, "720p") {
            Some(QualityTier::P720)
        } else if same_text(s, "480p") {
            Some(QualityTier::P480)
        } else if same_text(s, "Audio Only") {
            Some(QualityTier::AudioOnly)
        } else {
            None
        }
    }
}

} // verus!
