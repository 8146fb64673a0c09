use yt_clipper::quality::{resolve_local_qualities, resolve_qualities, LocalVideo, QualityTier};

#[test]
fn offered_tiers_at_1080_include_1080p_but_not_1440p() {
    assert_eq!(
        resolve_qualities(1080),
        vec![
            QualityTier::Best,
            QualityTier::P1080,
            QualityTier::P720,
            QualityTier::P480,
            QualityTier::AudioOnly
        ]
    );
}

#[test]
fn offered_tiers_just_below_threshold() {
    assert_eq!(
        resolve_qualities(1079),
        vec![QualityTier::Best, QualityTier::P720, QualityTier::P480, QualityTier::AudioOnly]
    );
}

#[test]
fn offered_tiers_for_unknown_height() {
    assert_eq!(resolve_qualities(0), vec![QualityTier::Best, QualityTier::AudioOnly]);
}

#[test]
fn offered_tiers_at_8k_include_everything() {
    assert_eq!(
        resolve_qualities(4320),
        vec![
            QualityTier::Best,
            QualityTier::Uhd8K,
            QualityTier::Uhd4K,
            QualityTier::P1440,
            QualityTier::P1080,
            QualityTier::P720,
            QualityTier::P480,
            QualityTier::AudioOnly
        ]
    );
}

#[test]
fn offered_tiers_always_start_with_best_and_end_with_audio() {
    for h in [0u64, 1, 479, 480, 720, 1440, 2159, 2160, 4319, 10000] {
        let tiers = resolve_qualities(h);
        assert_eq!(tiers[0], QualityTier::Best);
        assert_eq!(*tiers.last().unwrap(), QualityTier::AudioOnly);
        let thresholds = [
            (QualityTier::Uhd8K, 4320u64),
            (QualityTier::Uhd4K, 2160),
            (QualityTier::P1440, 1440),
            (QualityTier::P1080, 1080),
            (QualityTier::P720, 720),
            (QualityTier::P480, 480),
        ];
        for (t, min) in thresholds {
            assert_eq!(tiers.contains(&t), h >= min);
        }
    }
}

#[test]
fn local_file_of_unknown_height_counts_as_1080() {
    assert_eq!(resolve_local_qualities(0), resolve_qualities(1080));
    assert_eq!(resolve_local_qualities(720), resolve_qualities(720));
}

#[test]
fn reencode_needed_only_for_high_tiers() {
    assert!(QualityTier::Best.needs_reencode());
    assert!(QualityTier::Uhd8K.needs_reencode());
    assert!(QualityTier::Uhd4K.needs_reencode());
    assert!(QualityTier::P1440.needs_reencode());
    assert!(!QualityTier::P1080.needs_reencode());
    assert!(!QualityTier::P720.needs_reencode());
    assert!(!QualityTier::P480.needs_reencode());
    assert!(!QualityTier::AudioOnly.needs_reencode());
}

#[test]
fn selectors_prefer_compatible_codec_for_mid_tiers_only() {
    assert_eq!(
        QualityTier::P720.source_selector(),
        "bestvideo[height=720][vcodec^=avc]+bestaudio[ext=m4a]/bestvideo[height=720]+bestaudio/best[height<=720]"
    );
    assert!(!QualityTier::Uhd4K.source_selector().contains("avc"));
    assert_eq!(QualityTier::AudioOnly.source_selector(), "bestaudio/best");
    assert_eq!(QualityTier::Best.source_selector(), "bestvideo+bestaudio/best");
}

#[test]
fn local_video_handling_per_tier() {
    assert_eq!(QualityTier::Best.local_video(), LocalVideo::Keep);
    assert_eq!(QualityTier::P720.local_video(), LocalVideo::ScaleTo(720));
    assert_eq!(QualityTier::Uhd4K.local_video(), LocalVideo::ScaleTo(2160));
    assert_eq!(QualityTier::AudioOnly.local_video(), LocalVideo::Drop);
}

#[test]
fn labels_round_trip() {
    for t in resolve_qualities(4320) {
        assert_eq!(QualityTier::from_label(&t.label()), Some(t));
    }
    assert_eq!(QualityTier::AudioOnly.label(), "Audio Only");
    assert_eq!(QualityTier::from_label("2K"), None);
    assert_eq!(QualityTier::from_label("best"), None);
}
