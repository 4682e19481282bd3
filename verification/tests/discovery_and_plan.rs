use mkv_renamer::dirs::EncodesDir;
use mkv_renamer::dirs::RipsSessionRenamesDir;
use mkv_renamer::discovery::WalkEntry;
use mkv_renamer::discovery::get_ripped_filenames;
use mkv_renamer::models::EpisodeDefinition;
use mkv_renamer::models::EpisodesDefinition;
use mkv_renamer::models::FileNameAndExt;
use mkv_renamer::models::MovieDefinition;
use mkv_renamer::models::RenamerError;
use mkv_renamer::models::SeriesMetaData;
use mkv_renamer::plan::build_movie_plan;
use mkv_renamer::plan::build_series_plan;
use mkv_renamer::plan::get_files_to_rename;
use mkv_renamer::sort::sort_files;

fn entry(path: &str, is_file: bool) -> WalkEntry {
    WalkEntry { path: path.to_string(), is_file }
}

fn ep(number: &str, name: &str) -> EpisodeDefinition {
    EpisodeDefinition { number: number.to_string(), name: name.to_string() }
}

fn thundercats() -> EpisodesDefinition {
    EpisodesDefinition {
        metadata: SeriesMetaData {
            name: "Thundercats".to_string(),
            tvdb_id: "70355".to_string(),
            season_number: "1".to_string(),
        },
        episodes: vec![
            ep("S01E01", "Exodus"),
            ep("S01E02", "The Unholy Alliance"),
            ep("S01E03", "Berbils"),
        ],
    }
}

#[test]
fn discovery_keeps_only_disc_files_with_extensions() {
    let entries = vec![
        entry("/pd/Rips/session3", false),
        entry("/pd/Rips/session3/disc1", false),
        entry("/pd/Rips/session3/disc1/DVD_TS_01.mkv", true),
        entry("/pd/Rips/session3/disc1/NOTES", true),
        entry("/pd/Rips/session3/disc1/.hidden", true),
        entry("/pd/Rips/session3/renames/old.mkv", true),
        entry("/pd/Rips/session3/disc2/DVD_TS_02.mkv", true),
    ];
    let files = get_ripped_filenames(&entries);
    assert_eq!(files.len(), 2);
    assert_eq!(files[0].path, "/pd/Rips/session3/disc1/DVD_TS_01.mkv");
    assert_eq!(files[0].file_name, "DVD_TS_01.mkv");
    assert_eq!(files[0].ext, "mkv");
    assert_eq!(files[1].path, "/pd/Rips/session3/disc2/DVD_TS_02.mkv");
}

#[test]
fn discovery_of_nothing_is_empty() {
    let files = get_ripped_filenames(&vec![]);
    assert!(files.is_empty());
}

#[test]
fn sort_orders_by_path() {
    let files = vec![
        FileNameAndExt::new("/s/disc3/c.mkv", "c.mkv", "mkv"),
        FileNameAndExt::new("/s/disc1/a.mkv", "a.mkv", "mkv"),
        FileNameAndExt::new("/s/disc2/b.mkv", "b.mkv", "mkv"),
    ];
    let sorted = sort_files(files);
    assert_eq!(sorted[0].path, "/s/disc1/a.mkv");
    assert_eq!(sorted[1].path, "/s/disc2/b.mkv");
    assert_eq!(sorted[2].path, "/s/disc3/c.mkv");
}

#[test]
fn pairing_is_positional() {
    let files = vec![
        FileNameAndExt::new("/s/disc1/a.mkv", "a.mkv", "mkv"),
        FileNameAndExt::new("/s/disc2/b.mkv", "b.mkv", "mkv"),
    ];
    let episodes = vec![ep("S01E01", "Exodus"), ep("S01E02", "The Unholy Alliance")];
    let renames_dir = RipsSessionRenamesDir("/pd/Rips/session3/renames".to_string());
    let renames = get_files_to_rename(&files, &episodes, &renames_dir);
    assert_eq!(renames.len(), 2);
    assert_eq!(renames[0].from_file_name, "/s/disc1/a.mkv");
    assert_eq!(renames[0].to_file_name, "/pd/Rips/session3/renames/S01E01 - Exodus.mkv");
    assert_eq!(renames[1].from_file_name, "/s/disc2/b.mkv");
    assert_eq!(
        renames[1].to_file_name,
        "/pd/Rips/session3/renames/S01E02 - The Unholy Alliance.mkv"
    );
}

#[test]
fn series_plan_is_discovery_order_independent() {
    let forward = vec![
        FileNameAndExt::new("/s/disc1/a.mkv", "a.mkv", "mkv"),
        FileNameAndExt::new("/s/disc2/b.mkv", "b.mkv", "mkv"),
        FileNameAndExt::new("/s/disc3/c.mkv", "c.mkv", "mkv"),
    ];
    let mut backward = forward.clone();
    backward.reverse();
    let renames_dir = RipsSessionRenamesDir("/r".to_string());
    let encodes_dir = EncodesDir("/e".to_string());
    let plan1 = build_series_plan(forward, &thundercats(), &renames_dir, &encodes_dir).unwrap();
    let plan2 = build_series_plan(backward, &thundercats(), &renames_dir, &encodes_dir).unwrap();
    assert_eq!(plan1.renames, plan2.renames);
    assert_eq!(plan1.encoded_dir, plan2.encoded_dir);
}

#[test]
fn series_plan_shape_matches_episode_format() {
    let files = vec![
        FileNameAndExt::new("/s/disc2/b.mkv", "b.mkv", "mkv"),
        FileNameAndExt::new("/s/disc1/a.mkv", "a.mkv", "mkv"),
        FileNameAndExt::new("/s/disc3/c.mkv", "c.mkv", "mkv"),
    ];
    let renames_dir = RipsSessionRenamesDir("/pd/Rips/session3/renames".to_string());
    let encodes_dir = EncodesDir("/pd/Encodes/tv".to_string());
    let plan = build_series_plan(files, &thundercats(), &renames_dir, &encodes_dir).unwrap();
    assert_eq!(plan.renames.len(), 3);
    assert_eq!(plan.renames[0].to_file_name, "/pd/Rips/session3/renames/S01E01 - Exodus.mkv");
    assert_eq!(
        plan.renames[1].to_file_name,
        "/pd/Rips/session3/renames/S01E02 - The Unholy Alliance.mkv"
    );
    assert_eq!(plan.renames[2].to_file_name, "/pd/Rips/session3/renames/S01E03 - Berbils.mkv");
    assert_eq!(
        plan.encoded_dir,
        "/pd/Encodes/tv/Thundercats {tvdb-70355} [tvdbid-70355]/Season 01"
    );
}

#[test]
fn too_many_files_fails_with_not_enough_metadata() {
    let files = vec![
        FileNameAndExt::new("/s/disc1/a.mkv", "a.mkv", "mkv"),
        FileNameAndExt::new("/s/disc2/b.mkv", "b.mkv", "mkv"),
        FileNameAndExt::new("/s/disc3/c.mkv", "c.mkv", "mkv"),
        FileNameAndExt::new("/s/disc4/d.mkv", "d.mkv", "mkv"),
    ];
    let renames_dir = RipsSessionRenamesDir("/r".to_string());
    let encodes_dir = EncodesDir("/e".to_string());
    let r = build_series_plan(files, &thundercats(), &renames_dir, &encodes_dir);
    match r {
        Err(RenamerError::NotEnoughMetadataForEpisodes(metadata, files_found)) => {
            assert_eq!(metadata, 3);
            assert_eq!(files_found, 4);
        },
        _ => panic!("expected NotEnoughMetadataForEpisodes"),
    }
}

#[test]
fn unused_trailing_metadata_is_allowed() {
    let files = vec![FileNameAndExt::new("/s/disc1/a.mkv", "a.mkv", "mkv")];
    let renames_dir = RipsSessionRenamesDir("/r".to_string());
    let encodes_dir = EncodesDir("/e".to_string());
    let plan = build_series_plan(files, &thundercats(), &renames_dir, &encodes_dir).unwrap();
    assert_eq!(plan.renames.len(), 1);
}

#[test]
fn movie_plan_names_every_file_after_the_movie() {
    let files = vec![FileNameAndExt::new("/s/disc1/DVD_TS_01.mkv", "DVD_TS_01.mkv", "mkv")];
    let movie = MovieDefinition::new("The Big Lebowski".to_string(), "659".to_string());
    let renames_dir = RipsSessionRenamesDir("/pd/Rips/session1/renames".to_string());
    let encodes_dir = EncodesDir("/pd/Encodes/movies".to_string());
    let plan = build_movie_plan(files, &movie, &renames_dir, &encodes_dir);
    assert_eq!(plan.renames.len(), 1);
    assert_eq!(plan.renames[0].from_file_name, "/s/disc1/DVD_TS_01.mkv");
    assert_eq!(
        plan.renames[0].to_file_name,
        "/pd/Rips/session1/renames/The Big Lebowski - {tvdb-659} [tvdbid-659].mkv"
    );
    assert_eq!(
        plan.encoded_dir,
        "/pd/Encodes/movies/The Big Lebowski - {tvdb-659} [tvdbid-659]"
    );
}
