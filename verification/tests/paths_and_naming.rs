use mkv_renamer::dirs::ProcessingDir;
use mkv_renamer::dirs::SessionNumberDir;
use mkv_renamer::models::EpisodeDefinition;
use mkv_renamer::models::MovieDefinition;
use mkv_renamer::models::SeriesMetaData;
use mkv_renamer::naming::episode_target_file_name;
use mkv_renamer::naming::get_movie_directory;
use mkv_renamer::naming::get_movie_folder_structure;
use mkv_renamer::naming::get_season_number;
use mkv_renamer::naming::get_series_directory;
use mkv_renamer::naming::get_series_folder_structure;
use mkv_renamer::naming::movie_target_file_name;
use mkv_renamer::naming::series_title_from_page_title;
use mkv_renamer::naming::tvdb_id_from_permission;
use mkv_renamer::strutil::pad2_str;
use mkv_renamer::strutil::parse_u8;
use mkv_renamer::strutil::str_contains;
use mkv_renamer::strutil::str_le;
use mkv_renamer::strutil::trim_ascii;
use mkv_renamer::strutil::u8_to_string;

fn ep(number: &str, name: &str) -> EpisodeDefinition {
    EpisodeDefinition { number: number.to_string(), name: name.to_string() }
}

#[test]
fn session_dir_name_is_session_n() {
    let s = SessionNumberDir::new(3);
    assert_eq!(s.0, "session3");
    let s = SessionNumberDir::new(42);
    assert_eq!(s.0, "session42");
    let s = SessionNumberDir::new(99);
    assert_eq!(s.0, "session99");
}

#[test]
fn processing_dir_layout() {
    let pd = ProcessingDir("/pd".to_string());
    let session = SessionNumberDir::new(3);
    assert_eq!(pd.rips_dir().0, "/pd/Rips");
    assert_eq!(pd.rips_session_number(&session).0, "/pd/Rips/session3");
    assert_eq!(pd.rips_session_renames_dir(&session).0, "/pd/Rips/session3/renames");
    assert_eq!(pd.encodes_dir().0, "/pd/Encodes");
    assert_eq!(pd.tv_encodes_dir().0, "/pd/Encodes/tv");
    assert_eq!(pd.movies_encodes_dir().0, "/pd/Encodes/movies");
}

#[test]
fn session_renames_dir_is_relative() {
    let session = SessionNumberDir::new(7);
    assert_eq!(session.renames_dir(), "session7/renames");
}

#[test]
fn u8_rendering() {
    assert_eq!(u8_to_string(0), "0");
    assert_eq!(u8_to_string(7), "7");
    assert_eq!(u8_to_string(10), "10");
    assert_eq!(u8_to_string(99), "99");
    assert_eq!(u8_to_string(255), "255");
}

#[test]
fn parse_u8_accepts_decimal_bytes() {
    assert_eq!(parse_u8("0"), Some(0));
    assert_eq!(parse_u8("01"), Some(1));
    assert_eq!(parse_u8("255"), Some(255));
    assert_eq!(parse_u8("256"), None);
    assert_eq!(parse_u8(""), None);
    assert_eq!(parse_u8("1a"), None);
    assert_eq!(parse_u8("-1"), None);
}

#[test]
fn pad2_pads_to_two() {
    assert_eq!(pad2_str("1"), "01");
    assert_eq!(pad2_str("12"), "12");
    assert_eq!(pad2_str("123"), "123");
    assert_eq!(pad2_str(""), "00");
}

#[test]
fn trim_strips_ascii_whitespace() {
    assert_eq!(trim_ascii("  Thundercats \t"), "Thundercats");
    assert_eq!(trim_ascii("x"), "x");
    assert_eq!(trim_ascii("   "), "");
}

#[test]
fn string_order_is_lexicographic() {
    assert!(str_le("a", "b"));
    assert!(!str_le("b", "a"));
    assert!(str_le("disc1", "disc2"));
    assert!(str_le("abc", "abc"));
    assert!(str_le("ab", "abc"));
    assert!(!str_le("abc", "ab"));
}

#[test]
fn substring_search() {
    assert!(str_contains("/pd/Rips/session1/disc1/a.mkv", "/disc"));
    assert!(!str_contains("/pd/Rips/session1/renames/a.mkv", "/disc"));
    assert!(str_contains("anything", ""));
}

#[test]
fn season_number_strips_leading_zeros() {
    let episodes = vec![ep("S01E01", "Exodus"), ep("S01E02", "The Unholy Alliance")];
    assert_eq!(get_season_number(&episodes), Some("1".to_string()));
    let episodes = vec![ep("S10E01", "Ten")];
    assert_eq!(get_season_number(&episodes), Some("10".to_string()));
}

#[test]
fn season_number_of_no_episodes_is_none() {
    let episodes: Vec<EpisodeDefinition> = vec![];
    assert_eq!(get_season_number(&episodes), None);
    let episodes = vec![ep("SxxEyy", "Bad")];
    assert_eq!(get_season_number(&episodes), None);
}

#[test]
fn series_folder_structure_format() {
    let metadata = SeriesMetaData {
        name: "Thundercats".to_string(),
        tvdb_id: "70355".to_string(),
        season_number: "1".to_string(),
    };
    assert_eq!(
        get_series_folder_structure(&metadata),
        "Thundercats {tvdb-70355} [tvdbid-70355]/Season 01"
    );
    let encodes = ProcessingDir("/pd".to_string()).tv_encodes_dir();
    assert_eq!(
        get_series_directory(&encodes, &metadata),
        "/pd/Encodes/tv/Thundercats {tvdb-70355} [tvdbid-70355]/Season 01"
    );
}

#[test]
fn movie_folder_structure_format() {
    let movie = MovieDefinition::new("The Big Lebowski".to_string(), "659".to_string());
    assert_eq!(
        get_movie_folder_structure(&movie),
        "The Big Lebowski - {tvdb-659} [tvdbid-659]"
    );
    let encodes = ProcessingDir("/pd".to_string()).movies_encodes_dir();
    assert_eq!(
        get_movie_directory(&encodes, &movie),
        "/pd/Encodes/movies/The Big Lebowski - {tvdb-659} [tvdbid-659]"
    );
}

#[test]
fn target_file_names() {
    let episode = ep("S01E01", "Exodus");
    assert_eq!(episode_target_file_name(&episode, "mkv"), "S01E01 - Exodus.mkv");
    let movie = MovieDefinition::new("The Big Lebowski".to_string(), "659".to_string());
    assert_eq!(
        movie_target_file_name(&movie, "mkv"),
        "The Big Lebowski - {tvdb-659} [tvdbid-659].mkv"
    );
}

#[test]
fn movie_accessors() {
    let movie = MovieDefinition::new("Heat".to_string(), "231".to_string());
    assert_eq!(movie.name(), "Heat");
    assert_eq!(movie.tvdb_id(), "231");
}

#[test]
fn scraped_title_and_id_post_processing() {
    assert_eq!(
        series_title_from_page_title("Thundercats - Season 1 - TheTVDB"),
        "Thundercats"
    );
    assert_eq!(series_title_from_page_title("NoDashTitle"), "NoDashTitle");
    assert_eq!(tvdb_id_from_permission("series-70355-artwork"), "70355");
    assert_eq!(tvdb_id_from_permission("nodash"), "");
}
