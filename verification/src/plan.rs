//! The rename plan builder: pairing sorted discovered files positionally
//! with the ordered metadata list and computing each destination path, plus
//! the destination container directory.

use vstd::prelude::*;
use vstd::string::StringExecFns;
use crate::dirs::EncodesDir;
use crate::dirs::RipsSessionRenamesDir;
use crate::dirs::path_join;
use crate::models::EpisodeDefinition;
use crate::models::EpisodeDefinitionModel;
use crate::models::EpisodesDefinition;
use crate::models::FileNameAndExt;
use crate::models::FileNameAndExtModel;
use crate::models::MovieDefinition;
use crate::models::MovieDefinitionModel;
use crate::models::Rename;
use crate::models::RenameModel;
use crate::models::RenamerError;
use crate::naming::episode_file_name;
use crate::naming::episode_target_file_name;
use crate::naming::get_movie_directory;
use crate::naming::get_series_directory;
use crate::naming::movie_file_name;
use crate::naming::movie_folder_name;
use crate::naming::movie_target_file_name;
use crate::naming::series_folder_name;
use crate::sort::lemma_fne_total_ordering;
use crate::sort::fne_leq;
use crate::sort::sort_files;
use crate::sort::sorted_files;

verus! {

/// The planned renames of a series run: the i-th sorted file goes to the
/// i-th episode's name, inside the renames directory.
pub open spec fn spec_series_renames(
    files: Seq<FileNameAndExtModel>,
    episodes: Seq<EpisodeDefinitionModel>,
    renames_dir: Seq<char>,
) -> Seq<RenameModel>
    recommends
        files.len() <= episodes.len(),
{
    Seq::new(
        files.len(),
        |i: int|
            RenameModel {
                from_file_name: files[i].path,
                to_file_name: path_join(
                    renames_dir,
                    episode_file_name(episodes[i].number, episodes[i].name, files[i].ext),
                ),
            },
    )
}

/// The planned renames of a movie run: every file goes to the movie's name,
/// inside the renames directory.
pub open spec fn spec_movie_renames(
    files: Seq<FileNameAndExtModel>,
    movie: MovieDefinitionModel,
    renames_dir: Seq<char>,
) -> Seq<RenameModel> {
    Seq::new(
        files.len(),
        |i: int|
            RenameModel {
                from_file_name: files[i].path,
                to_file_name: path_join(
                    renames_dir,
                    movie_file_name(movie.name, movie.tvdb_id, files[i].ext),
                ),
            },
    )
}

/// Pairs each sorted file positionally with its episode.  The caller has
/// already checked that there is an episode for every file; an index out of
/// range would be a logic defect, not an input problem.
pub fn get_files_to_rename(
    ripped_episode_filenames: &Vec<FileNameAndExt>,
    metadata_episodes: &Vec<EpisodeDefinition>,
    renames_dir: &RipsSessionRenamesDir,
) -> (r: Vec<Rename>)
    requires
        ripped_episode_filenames.deep_view().len() <= metadata_episodes.deep_view().len(),
    ensures
        r.deep_view() == spec_series_renames(
            ripped_episode_filenames.deep_view(),
            metadata_episodes.deep_view(),
            renames_dir@,
        ),
{
    let ghost fv = ripped_episode_filenames.deep_view();
    let ghost ev = metadata_episodes.deep_view();
    let mut r: Vec<Rename> = Vec::new();
    let mut i: usize = 0;
    proof {
        assert(r.deep_view() =~= spec_series_renames(fv.subrange(0, 0), ev, renames_dir@));
    }
    while i < ripped_episode_filenames.len()
        invariant
            i <= fv.len(),
            fv == ripped_episode_filenames.deep_view(),
            ev == metadata_episodes.deep_view(),
            fv.len() <= ev.len(),
            r.deep_view() == spec_series_renames(fv.subrange(0, i as int), ev, renames_dir@),
        decreases fv.len() - i,
    {
        let fne = &ripped_episode_filenames[i];
        let episode = &metadata_episodes[i];
        let file_name_with_ext = episode_target_file_name(episode, fne.ext.as_str());
        let output_file_path = renames_dir.0.as_str().to_owned();
        let to = crate::dirs::join_path(output_file_path.as_str(), file_name_with_ext.as_str());
        let from = fne.path.as_str().to_owned();
        let entry = Rename::new(from, to);
        let ghost entry_model = entry@;
        let ghost r_pre = r.deep_view();
        r.push(entry);
        proof {
            assert(fne@ == fv[i as int]);
            assert(episode@ == ev[i as int]);
            assert(r.deep_view() =~= r_pre.push(entry_model));
            assert(entry_model == spec_series_renames(
                fv.subrange(0, i + 1 as int),
                ev,
                renames_dir@,
            )[i as int]);
            assert(r.deep_view() =~= spec_series_renames(
                fv.subrange(0, i + 1 as int),
                ev,
                renames_dir@,
            ));
        }
        i = i + 1;
    }
    proof {
        assert(fv.subrange(0, fv.len() as int) =~= fv);
    }
    r
}

/// Pairs every file with the movie's destination name.
pub fn get_movie_files_to_rename(
    ripped_movie_names: &Vec<FileNameAndExt>,
    movie_definition: &MovieDefinition,
    renames_dir: &RipsSessionRenamesDir,
) -> (r: Vec<Rename>)
    ensures
        r.deep_view() == spec_movie_renames(
            ripped_movie_names.deep_view(),
            movie_definition@,
            renames_dir@,
        ),
{
    let ghost fv = ripped_movie_names.deep_view();
    let mut r: Vec<Rename> = Vec::new();
    let mut i: usize = 0;
    proof {
        assert(r.deep_view() =~= spec_movie_renames(fv.subrange(0, 0), movie_definition@,
            renames_dir@));
    }
    while i < ripped_movie_names.len()
        invariant
            i <= fv.len(),
            fv == ripped_movie_names.deep_view(),
            r.deep_view() == spec_movie_renames(fv.subrange(0, i as int), movie_definition@,
                renames_dir@),
        decreases fv.len() - i,
    {
        let fne = &ripped_movie_names[i];
        let file_name_with_ext = movie_target_file_name(movie_definition, fne.ext.as_str());
        let to = crate::dirs::join_path(renames_dir.0.as_str(), file_name_with_ext.as_str());
        let from = fne.path.as_str().to_owned();
        let entry = Rename::new(from, to);
        let ghost entry_model = entry@;
        let ghost r_pre = r.deep_view();
        r.push(entry);
        proof {
            assert(fne@ == fv[i as int]);
            assert(r.deep_view() =~= r_pre.push(entry_model));
            assert(entry_model == spec_movie_renames(
                fv.subrange(0, i + 1 as int),
                movie_definition@,
                renames_dir@,
            )[i as int]);
            assert(r.deep_view() =~= spec_movie_renames(
                fv.subrange(0, i + 1 as int),
                movie_definition@,
                renames_dir@,
            ));
        }
        i = i + 1;
    }
    proof {
        assert(fv.subrange(0, fv.len() as int) =~= fv);
    }
    r
}

/// A complete rename plan: the staged renames and the destination container
/// directory to create.
#[derive(Debug, PartialEq)]
pub struct RenamePlan {
    pub renames: Vec<Rename>,
    pub encoded_dir: String,
}

/// Builds the series plan from the discovered files (in any order) and the
/// metadata list.  Fails exactly when there are more files than episode
/// names; trailing unused episodes are allowed.
pub fn build_series_plan(
    files: Vec<FileNameAndExt>,
    episodes_definition: &EpisodesDefinition,
    renames_dir: &RipsSessionRenamesDir,
    encodes_dir: &EncodesDir,
) -> (r: Result<RenamePlan, RenamerError>)
    ensures
        r is Err <==> files.deep_view().len() > episodes_definition@.episodes.len(),
        r matches Err(e) ==> e matches RenamerError::NotEnoughMetadataForEpisodes(m, f)
            && m as int == episodes_definition@.episodes.len() && f as int
            == files.deep_view().len(),
        r matches Ok(p) ==> p.renames.deep_view() == spec_series_renames(
            sorted_files(files.deep_view()),
            episodes_definition@.episodes,
            renames_dir@,
        ) && p.encoded_dir@ == path_join(
            encodes_dir@,
            series_folder_name(
                episodes_definition@.metadata.name,
                episodes_definition@.metadata.tvdb_id,
                episodes_definition@.metadata.season_number,
            ),
        ),
{
    let ghost fv = files.deep_view();
    let file_count = files.len();
    let sorted = sort_files(files);
    proof {
        lemma_fne_total_ordering();
        fv.lemma_sort_by_ensures(fne_leq());
        sorted.deep_view().to_multiset_ensures();
        fv.to_multiset_ensures();
        assert(sorted.deep_view().len() == fv.len());
    }
    if sorted.len() > episodes_definition.episodes.len() {
        return Err(
            RenamerError::NotEnoughMetadataForEpisodes(
                episodes_definition.episodes.len(),
                sorted.len(),
            ),
        );
    }
    let renames = get_files_to_rename(&sorted, &episodes_definition.episodes, renames_dir);
    let encoded_dir = get_series_directory(encodes_dir, &episodes_definition.metadata);
    Ok(RenamePlan { renames, encoded_dir })
}

/// Builds the movie plan from the discovered files (in any order).
pub fn build_movie_plan(
    files: Vec<FileNameAndExt>,
    movie_definition: &MovieDefinition,
    renames_dir: &RipsSessionRenamesDir,
    encodes_dir: &EncodesDir,
) -> (r: RenamePlan)
    ensures
        r.renames.deep_view() == spec_movie_renames(
            sorted_files(files.deep_view()),
            movie_definition@,
            renames_dir@,
        ),
        r.encoded_dir@ == path_join(
            encodes_dir@,
            movie_folder_name(movie_definition@.name, movie_definition@.tvdb_id),
        ),
{
    let sorted = sort_files(files);
    let renames = get_movie_files_to_rename(&sorted, movie_definition, renames_dir);
    let encoded_dir = get_movie_directory(encodes_dir, movie_definition);
    RenamePlan { renames, encoded_dir }
}

/// The plan has exactly one entry per discovered file, each moving that
/// file to the renames directory under its episode's name.
pub proof fn lemma_series_plan_shape(
    files: Seq<FileNameAndExtModel>,
    episodes: Seq<EpisodeDefinitionModel>,
    renames_dir: Seq<char>,
)
    ensures
        spec_series_renames(files, episodes, renames_dir).len() == files.len(),
        forall|i: int|
            0 <= i < files.len() ==> #[trigger] spec_series_renames(
                files,
                episodes,
                renames_dir,
            )[i] == (RenameModel {
                from_file_name: files[i].path,
                to_file_name: path_join(
                    renames_dir,
                    episode_file_name(episodes[i].number, episodes[i].name, files[i].ext),
                ),
            }),
{
}

/// The movie plan has exactly one entry per discovered file, each moving
/// that file to the renames directory under the movie's name.
pub proof fn lemma_movie_plan_shape(
    files: Seq<FileNameAndExtModel>,
    movie: MovieDefinitionModel,
    renames_dir: Seq<char>,
)
    ensures
        spec_movie_renames(files, movie, renames_dir).len() == files.len(),
        forall|i: int|
            0 <= i < files.len() ==> #[trigger] spec_movie_renames(files, movie, renames_dir)[i]
                == (RenameModel {
                from_file_name: files[i].path,
                to_file_name: path_join(
                    renames_dir,
                    movie_file_name(movie.name, movie.tvdb_id, files[i].ext),
                ),
            }),
{
}

/// Pairing is strictly positional over the sorted files: two discovery
/// orders of the same files yield the same sorted arrangement, and so the
/// same plan.
pub proof fn lemma_pairing_order_independent(
    files1: Seq<FileNameAndExtModel>,
    files2: Seq<FileNameAndExtModel>,
    episodes: Seq<EpisodeDefinitionModel>,
    renames_dir: Seq<char>,
)
    requires
        files1.to_multiset() == files2.to_multiset(),
    ensures
        sorted_files(files1) == sorted_files(files2),
        spec_series_renames(sorted_files(files1), episodes, renames_dir) == spec_series_renames(
            sorted_files(files2),
            episodes,
            renames_dir,
        ),
{
    lemma_fne_total_ordering();
    files1.lemma_sort_by_ensures(fne_leq());
    files2.lemma_sort_by_ensures(fne_leq());
    vstd::seq_lib::lemma_sorted_unique(sorted_files(files1), sorted_files(files2), fne_leq());
}

} // verus!
