//! Path convention resolver: pure path arithmetic mapping a processing root
//! and a session number to the fixed directory layout
//! `root/Rips/session<N>/{disc*,renames}` and `root/Encodes/{tv,movies}`.

use vstd::prelude::*;
use vstd::string::StringExecFns;
use crate::strutil::dec_digits;
use crate::strutil::u8_to_string;

verus! {

/// The file inside the renames directory that records the destination
/// container path for the downstream encoding step.
pub const ENCODES_FILE: &'static str = "encode_dir.txt";

/// Joining two relative or absolute path fragments with a single separator.
pub open spec fn path_join(a: Seq<char>, b: Seq<char>) -> Seq<char> {
    a + seq!['/'] + b
}

/// Executable path join.
pub fn join_path(a: &str, b: &str) -> (r: String)
    ensures
        r@ == path_join(a@, b@),
{
    proof {
        reveal_strlit("/");
    }
    let mut r = a.to_owned();
    r.append("/");
    r.append(b);
    proof {
        assert(r@ =~= path_join(a@, b@));
    }
    r
}

/// `root/Rips`: where rip sessions live.
pub struct RipsDir(pub String);

impl View for RipsDir {
    type V = Seq<char>;

    open spec fn view(&self) -> Seq<char> {
        self.0@
    }
}

impl RipsDir {
    pub fn join(&self, path: &str) -> (r: String)
        ensures
            r@ == path_join(self@, path@),
    {
        join_path(self.0.as_str(), path)
    }
}

/// `root/Rips/session<N>`: one rip session.
pub struct RipsSessionNumberDir(pub String);

impl View for RipsSessionNumberDir {
    type V = Seq<char>;

    open spec fn view(&self) -> Seq<char> {
        self.0@
    }
}

impl RipsSessionNumberDir {
    pub fn join(&self, path: &str) -> (r: String)
        ensures
            r@ == path_join(self@, path@),
    {
        join_path(self.0.as_str(), path)
    }
}

/// `root/Rips/session<N>/renames`: where renamed files are staged.
pub struct RipsSessionRenamesDir(pub String);

impl View for RipsSessionRenamesDir {
    type V = Seq<char>;

    open spec fn view(&self) -> Seq<char> {
        self.0@
    }
}

/// `root/Encodes` (or a per-kind subdirectory of it): where destination
/// containers are created.
pub struct EncodesDir(pub String);

impl View for EncodesDir {
    type V = Seq<char>;

    open spec fn view(&self) -> Seq<char> {
        self.0@
    }
}

impl EncodesDir {
    pub fn join(&self, path: &str) -> (r: String)
        ensures
            r@ == path_join(self@, path@),
    {
        join_path(self.0.as_str(), path)
    }
}

/// The name of a session directory: `session<N>`.
pub open spec fn session_dir_name(session_id: int) -> Seq<char> {
    "session"@ + dec_digits(session_id)
}

/// The relative directory name `session<N>`.
pub struct SessionNumberDir(pub String);

impl View for SessionNumberDir {
    type V = Seq<char>;

    open spec fn view(&self) -> Seq<char> {
        self.0@
    }
}

impl SessionNumberDir {
    pub fn new(session_id: u8) -> (r: Self)
        ensures
            r@ == session_dir_name(session_id as int),
    {
        proof {
            reveal_strlit("session");
        }
        let mut s = "session".to_owned();
        let digits = u8_to_string(session_id);
        s.append(digits.as_str());
        Self(s)
    }

    /// `session<N>/renames`
    pub fn renames_dir(&self) -> (r: String)
        ensures
            r@ == path_join(self@, "renames"@),
    {
        join_path(self.0.as_str(), "renames")
    }
}

/// The processing root: the directory holding `Rips/` and `Encodes/`.
pub struct ProcessingDir(pub String);

impl View for ProcessingDir {
    type V = Seq<char>;

    open spec fn view(&self) -> Seq<char> {
        self.0@
    }
}

impl ProcessingDir {
    /// `root/Rips`
    pub fn rips_dir(&self) -> (r: RipsDir)
        ensures
            r@ == path_join(self@, "Rips"@),
    {
        RipsDir(join_path(self.0.as_str(), "Rips"))
    }

    /// `root/Rips/session<N>`
    pub fn rips_session_number(&self, session_dir: &SessionNumberDir) -> (r: RipsSessionNumberDir)
        ensures
            r@ == path_join(path_join(self@, "Rips"@), session_dir@),
    {
        let rips = self.rips_dir();
        RipsSessionNumberDir(rips.join(session_dir.0.as_str()))
    }

    /// `root/Rips/session<N>/renames`
    pub fn rips_session_renames_dir(
        &self,
        session_dir: &SessionNumberDir,
    ) -> (r: RipsSessionRenamesDir)
        ensures
            r@ == path_join(path_join(self@, "Rips"@), path_join(session_dir@, "renames"@)),
    {
        let rips = self.rips_dir();
        let relative = session_dir.renames_dir();
        RipsSessionRenamesDir(rips.join(relative.as_str()))
    }

    /// `root/Encodes`
    pub fn encodes_dir(&self) -> (r: EncodesDir)
        ensures
            r@ == path_join(self@, "Encodes"@),
    {
        EncodesDir(join_path(self.0.as_str(), "Encodes"))
    }

    /// `root/Encodes/tv`: destination area for series containers.
    pub fn tv_encodes_dir(&self) -> (r: EncodesDir)
        ensures
            r@ == path_join(path_join(self@, "Encodes"@), "tv"@),
    {
        let encodes = self.encodes_dir();
        EncodesDir(encodes.join("tv"))
    }

    /// `root/Encodes/movies`: destination area for movie containers.
    pub fn movies_encodes_dir(&self) -> (r: EncodesDir)
        ensures
            r@ == path_join(path_join(self@, "Encodes"@), "movies"@),
    {
        let encodes = self.encodes_dir();
        EncodesDir(encodes.join("movies"))
    }
}

} // verus!
