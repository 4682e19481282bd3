//! The naming convention for destination files and container directories,
//! and the string post-processing used on scraped metadata.

use vstd::prelude::*;
use vstd::string::StrSliceExecFns;
use vstd::string::StringExecFns;
use crate::dirs::EncodesDir;
use crate::dirs::path_join;
use crate::models::EpisodeDefinition;
use crate::models::MovieDefinition;
use crate::models::SeriesMetaData;
use crate::strutil::all_dec_digits;
use crate::strutil::dec_digits;
use crate::strutil::dec_val;
use crate::strutil::lemma_skip_alpha_at;
use crate::strutil::lemma_split_at_char;
use crate::strutil::pad2;
use crate::strutil::pad2_str;
use crate::strutil::parse_u8;
use crate::strutil::skip_alpha;
use crate::strutil::skip_past;
use crate::strutil::take_until;
use crate::strutil::trim_ascii;
use crate::strutil::trim_spaces;
use crate::strutil::u8_to_string;

verus! {

/// `<Series Title> {tvdb-<id>} [tvdbid-<id>]/Season <NN>`: the container
/// directory of a series season, relative to the encodes directory.
pub open spec fn series_folder_name(name: Seq<char>, tvdb_id: Seq<char>, season: Seq<char>) -> Seq<
    char,
> {
    name + " {tvdb-"@ + tvdb_id + "} [tvdbid-"@ + tvdb_id + "]/Season "@ + pad2(season)
}

/// `<Movie Title> - {tvdb-<id>} [tvdbid-<id>]`: the container directory of a
/// movie, relative to the encodes directory.
pub open spec fn movie_folder_name(name: Seq<char>, tvdb_id: Seq<char>) -> Seq<char> {
    name + " - {tvdb-"@ + tvdb_id + "} [tvdbid-"@ + tvdb_id + "]"@
}

/// `<number> - <episode name>.<ext>`: the destination file name of one
/// episode.
pub open spec fn episode_file_name(number: Seq<char>, name: Seq<char>, ext: Seq<char>) -> Seq<
    char,
> {
    number + " - "@ + name + "."@ + ext
}

/// `<Movie Title> - {tvdb-<id>} [tvdbid-<id>].<ext>`: the destination file
/// name of a movie.
pub open spec fn movie_file_name(name: Seq<char>, tvdb_id: Seq<char>, ext: Seq<char>) -> Seq<
    char,
> {
    movie_folder_name(name, tvdb_id) + "."@ + ext
}

/// Renders the series container directory name.
pub fn get_series_folder_structure(series_metadata: &SeriesMetaData) -> (r: String)
    ensures
        r@ == series_folder_name(
            series_metadata@.name,
            series_metadata@.tvdb_id,
            series_metadata@.season_number,
        ),
{
    proof {
        reveal_strlit(" {tvdb-");
        reveal_strlit("} [tvdbid-");
        reveal_strlit("]/Season ");
    }
    let mut s = series_metadata.name.as_str().to_owned();
    s.append(" {tvdb-");
    s.append(series_metadata.tvdb_id.as_str());
    s.append("} [tvdbid-");
    s.append(series_metadata.tvdb_id.as_str());
    s.append("]/Season ");
    let padded = pad2_str(series_metadata.season_number.as_str());
    s.append(padded.as_str());
    proof {
        assert(s@ =~= series_folder_name(
            series_metadata@.name,
            series_metadata@.tvdb_id,
            series_metadata@.season_number,
        ));
    }
    s
}

/// The absolute series container directory under the encodes directory.
pub fn get_series_directory(encodes_dir: &EncodesDir, series_metadata: &SeriesMetaData) -> (r:
    String)
    ensures
        r@ == path_join(
            encodes_dir@,
            series_folder_name(
                series_metadata@.name,
                series_metadata@.tvdb_id,
                series_metadata@.season_number,
            ),
        ),
{
    let folder = get_series_folder_structure(series_metadata);
    encodes_dir.join(folder.as_str())
}

/// Renders the movie container directory name.
pub fn get_movie_folder_structure(movie_definition: &MovieDefinition) -> (r: String)
    ensures
        r@ == movie_folder_name(movie_definition@.name, movie_definition@.tvdb_id),
{
    proof {
        reveal_strlit(" - {tvdb-");
        reveal_strlit("} [tvdbid-");
        reveal_strlit("]");
    }
    let mut s = movie_definition.name().to_owned();
    s.append(" - {tvdb-");
    s.append(movie_definition.tvdb_id());
    s.append("} [tvdbid-");
    s.append(movie_definition.tvdb_id());
    s.append("]");
    proof {
        assert(s@ =~= movie_folder_name(movie_definition@.name, movie_definition@.tvdb_id));
    }
    s
}

/// The absolute movie container directory under the encodes directory.
pub fn get_movie_directory(encodes_dir: &EncodesDir, movie_definition: &MovieDefinition) -> (r:
    String)
    ensures
        r@ == path_join(
            encodes_dir@,
            movie_folder_name(movie_definition@.name, movie_definition@.tvdb_id),
        ),
{
    let folder = get_movie_folder_structure(movie_definition);
    encodes_dir.join(folder.as_str())
}

/// Renders the destination file name of one episode.
pub fn episode_target_file_name(episode: &EpisodeDefinition, ext: &str) -> (r: String)
    ensures
        r@ == episode_file_name(episode@.number, episode@.name, ext@),
{
    proof {
        reveal_strlit(" - ");
        reveal_strlit(".");
    }
    let mut s = episode.number.as_str().to_owned();
    s.append(" - ");
    s.append(episode.name.as_str());
    s.append(".");
    s.append(ext);
    proof {
        assert(s@ =~= episode_file_name(episode@.number, episode@.name, ext@));
    }
    s
}

/// Renders the destination file name of a movie.
pub fn movie_target_file_name(movie_definition: &MovieDefinition, ext: &str) -> (r: String)
    ensures
        r@ == movie_file_name(movie_definition@.name, movie_definition@.tvdb_id, ext@),
{
    proof {
        reveal_strlit(".");
    }
    let mut s = get_movie_folder_structure(movie_definition);
    s.append(".");
    s.append(ext);
    proof {
        assert(s@ =~= movie_file_name(movie_definition@.name, movie_definition@.tvdb_id, ext@));
    }
    s
}

/// The digit run of an episode number: what is left of the part before the
/// first `E` after dropping leading letters (`S01E02` yields `01`).
pub open spec fn season_token(number: Seq<char>) -> Seq<char> {
    skip_alpha(take_until(number, 'E'))
}

/// Extracts the season number from the first episode's number string and
/// renders it without leading zeros (`S01E02` yields `1`).  Returns `None`
/// when there is no episode or the digit run does not parse as a byte-sized
/// decimal.
pub fn get_season_number(episodes: &Vec<EpisodeDefinition>) -> (r: Option<String>)
    ensures
        episodes@.len() == 0 ==> r is None,
        episodes@.len() > 0 ==> {
            let t = season_token(episodes@[0]@.number);
            &&& (r is Some <==> t.len() > 0 && all_dec_digits(t) && dec_val(t) < 256)
            &&& (r matches Some(v) ==> v@ == dec_digits(dec_val(t)))
        },
{
    if episodes.len() == 0 {
        return None;
    }
    let number: &str = episodes[0].number.as_str();
    let len = number.unicode_len();
    let mut e_idx: usize = 0;
    let mut scanning = true;
    while scanning
        invariant
            e_idx <= len,
            len == number@.len(),
            forall|k: int| 0 <= k < e_idx ==> number@[k] != 'E',
            !scanning ==> (e_idx == len || number@[e_idx as int] == 'E'),
        decreases len - e_idx + (if scanning { 1int } else { 0int }),
    {
        if e_idx >= len {
            scanning = false;
        } else {
            if number.get_char(e_idx) == 'E' {
                scanning = false;
            } else {
                e_idx = e_idx + 1;
            }
        }
    }
    proof {
        lemma_split_at_char(number@, 'E', e_idx as int);
    }
    let head = number.substring_char(0, e_idx);
    let mut j: usize = 0;
    scanning = true;
    while scanning
        invariant
            j <= e_idx,
            head@.len() == e_idx,
            forall|k: int| 0 <= k < j ==> crate::strutil::is_ascii_alpha(#[trigger] head@[k]),
            !scanning ==> (j == e_idx || !crate::strutil::is_ascii_alpha(head@[j as int])),
        decreases e_idx - j + (if scanning { 1int } else { 0int }),
    {
        if j >= e_idx {
            scanning = false;
        } else {
            let c = head.get_char(j);
            if ('a' <= c && c <= 'z') || ('A' <= c && c <= 'Z') {
                j = j + 1;
            } else {
                scanning = false;
            }
        }
    }
    proof {
        lemma_skip_alpha_at(head@, j as int);
    }
    let digits = head.substring_char(j, e_idx);
    proof {
        assert(head@.skip(j as int) =~= head@.subrange(j as int, e_idx as int));
        assert(digits@ == season_token(number@));
    }
    match parse_u8(digits) {
        Some(v) => Some(u8_to_string(v)),
        None => None,
    }
}

/// The page title up to the first dash, trimmed of surrounding whitespace:
/// how the series name is read off a scraped page title.
pub fn series_title_from_page_title(title: &str) -> (r: String)
    ensures
        r@ == trim_spaces(take_until(title@, '-')),
{
    let len = title.unicode_len();
    let mut i: usize = 0;
    let mut scanning = true;
    while scanning
        invariant
            i <= len,
            len == title@.len(),
            forall|k: int| 0 <= k < i ==> title@[k] != '-',
            !scanning ==> (i == len || title@[i as int] == '-'),
        decreases len - i + (if scanning { 1int } else { 0int }),
    {
        if i >= len {
            scanning = false;
        } else {
            if title.get_char(i) == '-' {
                scanning = false;
            } else {
                i = i + 1;
            }
        }
    }
    proof {
        lemma_split_at_char(title@, '-', i as int);
    }
    let head = title.substring_char(0, i);
    trim_ascii(head)
}

/// The second dash-separated field of a permission attribute shaped like
/// `series-<id>-artwork`: how the TVDB identifier is read off a scraped
/// page.  Empty when the attribute has no second field.
pub fn tvdb_id_from_permission(s: &str) -> (r: String)
    ensures
        r@ == take_until(skip_past(s@, '-'), '-'),
{
    let len = s.unicode_len();
    let mut i: usize = 0;
    let mut scanning = true;
    while scanning
        invariant
            i <= len,
            len == s@.len(),
            forall|k: int| 0 <= k < i ==> s@[k] != '-',
            !scanning ==> (i == len || s@[i as int] == '-'),
        decreases len - i + (if scanning { 1int } else { 0int }),
    {
        if i >= len {
            scanning = false;
        } else {
            if s.get_char(i) == '-' {
                scanning = false;
            } else {
                i = i + 1;
            }
        }
    }
    proof {
        lemma_split_at_char(s@, '-', i as int);
    }
    if i >= len {
        let r = String::new();
        proof {
            assert(take_until(skip_past(s@, '-'), '-') =~= Seq::<char>::empty());
        }
        return r;
    }
    let rest = s.substring_char(i + 1, len);
    proof {
        assert(rest@ =~= s@.skip(i + 1 as int));
    }
    let rest_len = rest.unicode_len();
    let mut k: usize = 0;
    scanning = true;
    while scanning
        invariant
            k <= rest_len,
            rest_len == rest@.len(),
            forall|t: int| 0 <= t < k ==> rest@[t] != '-',
            !scanning ==> (k == rest_len || rest@[k as int] == '-'),
        decreases rest_len - k + (if scanning { 1int } else { 0int }),
    {
        if k >= rest_len {
            scanning = false;
        } else {
            if rest.get_char(k) == '-' {
                scanning = false;
            } else {
                k = k + 1;
            }
        }
    }
    proof {
        lemma_split_at_char(rest@, '-', k as int);
    }
    rest.substring_char(0, k).to_owned()
}

} // verus!
