//! Organizer behavior: the target path templates, the placement plan
//! and the retry backoff.

use ayiah::organizer::{
    BookInfo, ComicInfo, MediaInfo, MusicInfo, OrganizeMethod, Organizer, PlacementAction,
    VideoInfo,
};

fn organizer() -> Organizer {
    Organizer::new("/library".to_string())
}

fn arrival() -> MediaInfo {
    MediaInfo::Video(VideoInfo {
        title: Some("Arrival".to_string()),
        release_date: Some("2016-11-11".to_string()),
        season_number: None,
    })
}

#[test]
fn movie_target_path() {
    let target = organizer()
        .derive_target_path("/media/movies/Arrival (2016).mkv", &arrival());
    assert_eq!(target, "/library/Videos/Arrival (2016)/Arrival (2016).mkv");
}

#[test]
fn season_and_unknowns_in_video_paths() {
    let org = organizer();
    let episode = MediaInfo::Video(VideoInfo {
        title: Some("Severance".to_string()),
        release_date: Some("2022-02-18".to_string()),
        season_number: Some(2),
    });
    assert_eq!(
        org.derive_target_path("/tv/s02e01.mkv", &episode),
        "/library/Videos/Severance (2022)/Season 2/s02e01.mkv"
    );
    let bare = MediaInfo::Video(VideoInfo { title: None, release_date: None, season_number: None });
    assert_eq!(
        org.derive_target_path("/tv/x.mkv", &bare),
        "/library/Videos/Unknown (Unknown)/x.mkv"
    );
}

#[test]
fn book_music_and_comic_templates() {
    let org = organizer();
    let book = MediaInfo::Book(BookInfo {
        authors: vec!["Ted Chiang".to_string()],
        series: Some("Stories".to_string()),
    });
    assert_eq!(
        org.derive_target_path("/in/stories.epub", &book),
        "/library/Books/Ted Chiang/Stories/stories.epub"
    );
    let authorless = MediaInfo::Book(BookInfo { authors: vec![], series: None });
    assert_eq!(
        org.derive_target_path("/in/anon.epub", &authorless),
        "/library/Books/Unknown Author/anon.epub"
    );
    let music = MediaInfo::Music(MusicInfo {
        artists: vec!["Max Richter".to_string()],
        album: Some("On The Nature Of Daylight".to_string()),
    });
    assert_eq!(
        org.derive_target_path("/in/track.mkv", &music),
        "/library/Music/Max Richter/On The Nature Of Daylight/track.mkv"
    );
    let comic = MediaInfo::Comic(ComicInfo {
        publisher: Some("Image".to_string()),
        series: Some("Saga".to_string()),
        volume: Some(3),
    });
    assert_eq!(
        org.derive_target_path("/in/saga3.cbz", &comic),
        "/library/Comics/Image/Saga/Volume 3/saga3.cbz"
    );
    let plain_comic = MediaInfo::Comic(ComicInfo { publisher: None, series: None, volume: None });
    assert_eq!(
        org.derive_target_path("/in/one.cbz", &plain_comic),
        "/library/Comics/one.cbz"
    );
}

#[test]
fn dry_run_never_touches_the_filesystem() {
    let mut org = organizer();
    org.dry_run = true;
    for target_exists in [false, true] {
        let plan = org.plan_placement(target_exists);
        assert!(!plan.create_parent);
        assert_eq!(plan.action, PlacementAction::LogOnly);
    }
}

#[test]
fn placement_respects_skip_existing() {
    let org = organizer();
    let plan = org.plan_placement(true);
    assert!(plan.create_parent);
    assert_eq!(plan.action, PlacementAction::SkipExisting);
    let plan = org.plan_placement(false);
    assert_eq!(plan.action, PlacementAction::Apply(OrganizeMethod::HardLink));

    let mut eager = organizer();
    eager.skip_existing = false;
    eager.method = OrganizeMethod::Copy;
    let plan = eager.plan_placement(true);
    assert_eq!(plan.action, PlacementAction::Apply(OrganizeMethod::Copy));
}

#[test]
fn linear_backoff_until_attempts_run_out() {
    let org = organizer();
    assert_eq!(org.next_retry_delay(0), Some(0));
    assert_eq!(org.next_retry_delay(1), Some(1000));
    assert_eq!(org.next_retry_delay(2), Some(2000));
    assert_eq!(org.next_retry_delay(3), None);
}

#[test]
fn parent_directory_of_target() {
    let org = organizer();
    assert_eq!(org.parent_of("/library/Videos/x.mkv"), Some("/library/Videos"));
    assert_eq!(org.parent_of("bare.mkv"), None);
}
