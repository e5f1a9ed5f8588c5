//! The wallpaper engine abstraction: a closed set of external backends,
//! normalized behind one interface that names the executable to look for and
//! builds the command that sets a wallpaper.

use vstd::prelude::*;

use crate::utils::{string_views, CyclerError};

verus! {

/// One backend variant: names the executable used for the pre-flight
/// existence check, the program actually invoked, and the fixed arguments
/// inserted before the target path.
pub trait Engine {
    /// The executable name used for the pre-flight existence check.
    spec fn spec_which(&self) -> Seq<char>;

    /// The program invoked to set a wallpaper.
    spec fn spec_prefix(&self) -> Seq<char>;

    /// The fixed arguments inserted before the target path.
    spec fn spec_args(&self) -> Seq<Seq<char>>;

    fn which(&self) -> (r: &String)
        ensures
            r@ == self.spec_which(),
    ;

    fn prefix(&self) -> (r: &String)
        ensures
            r@ == self.spec_prefix(),
    ;

    fn args(&self) -> (r: &Vec<String>)
        ensures
            string_views(r@) == self.spec_args(),
    ;
}

/// The direct image-setter backend: invokes `swww img <path>`.
pub struct Swww {
    pub which: String,
    pub prefix: String,
    pub args: Vec<String>,
}

impl Engine for Swww {
    open spec fn spec_which(&self) -> Seq<char> {
        self.which@
    }

    open spec fn spec_prefix(&self) -> Seq<char> {
        self.prefix@
    }

    open spec fn spec_args(&self) -> Seq<Seq<char>> {
        string_views(self.args@)
    }

    fn which(&self) -> (r: &String) {
        &self.which
    }

    fn prefix(&self) -> (r: &String) {
        &self.prefix
    }

    fn args(&self) -> (r: &Vec<String>) {
        &self.args
    }
}

/// The control-socket backend: invokes `hyprctl hyprpaper wallpaper <path>`.
pub struct Hyprpaper {
    pub which: String,
    pub prefix: String,
    pub args: Vec<String>,
}

impl Engine for Hyprpaper {
    open spec fn spec_which(&self) -> Seq<char> {
        self.which@
    }

    open spec fn spec_prefix(&self) -> Seq<char> {
        self.prefix@
    }

    open spec fn spec_args(&self) -> Seq<Seq<char>> {
        string_views(self.args@)
    }

    fn which(&self) -> (r: &String) {
        &self.which
    }

    fn prefix(&self) -> (r: &String) {
        &self.prefix
    }

    fn args(&self) -> (r: &Vec<String>) {
        &self.args
    }
}

/// The closed sum over the supported backends, so that the chosen engine can
/// be held and passed around as one value.
pub enum WallpaperEngine {
    Swww(Swww),
    Hyprpaper(Hyprpaper),
}

impl Engine for WallpaperEngine {
    open spec fn spec_which(&self) -> Seq<char> {
        match self {
            WallpaperEngine::Swww(e) => e.spec_which(),
            WallpaperEngine::Hyprpaper(e) => e.spec_which(),
        }
    }

    open spec fn spec_prefix(&self) -> Seq<char> {
        match self {
            WallpaperEngine::Swww(e) => e.spec_prefix(),
            WallpaperEngine::Hyprpaper(e) => e.spec_prefix(),
        }
    }

    open spec fn spec_args(&self) -> Seq<Seq<char>> {
        match self {
            WallpaperEngine::Swww(e) => e.spec_args(),
            WallpaperEngine::Hyprpaper(e) => e.spec_args(),
        }
    }

    fn which(&self) -> (r: &String) {
        match self {
            WallpaperEngine::Swww(e) => e.which(),
            WallpaperEngine::Hyprpaper(e) => e.which(),
        }
    }

    fn prefix(&self) -> (r: &String) {
        match self {
            WallpaperEngine::Swww(e) => e.prefix(),
            WallpaperEngine::Hyprpaper(e) => e.prefix(),
        }
    }

    fn args(&self) -> (r: &Vec<String>) {
        match self {
            WallpaperEngine::Swww(e) => e.args(),
            WallpaperEngine::Hyprpaper(e) => e.args(),
        }
    }
}

/// Builds the descriptor of the chosen backend, with its exact executable
/// name, program and fixed arguments.
pub fn get_engine(binary: crate::Application) -> (r: WallpaperEngine)
    ensures
        binary == crate::Application::Swww ==> r.spec_which() == "swww"@ && r.spec_prefix()
            == "swww"@ && r.spec_args() == seq!["img"@],
        binary == crate::Application::Hyprpaper ==> r.spec_which() == "hyprpaper"@
            && r.spec_prefix() == "hyprctl"@ && r.spec_args() == seq!["hyprpaper"@, "wallpaper"@],
{
    match binary {
        crate::Application::Swww => {
            let mut args: Vec<String> = Vec::new();
            args.push("img".to_owned());
            let e = Swww { which: "swww".to_owned(), prefix: "swww".to_owned(), args };
            proof {
                assert(string_views(e.args@) =~= seq!["img"@]);
            }
            WallpaperEngine::Swww(e)
        },
        crate::Application::Hyprpaper => {
            let mut args: Vec<String> = Vec::new();
            args.push("hyprpaper".to_owned());
            args.push("wallpaper".to_owned());
            let e = Hyprpaper { which: "hyprpaper".to_owned(), prefix: "hyprctl".to_owned(), args };
            proof {
                assert(string_views(e.args@) =~= seq!["hyprpaper"@, "wallpaper"@]);
            }
            WallpaperEngine::Hyprpaper(e)
        },
    }
}

/// The external command that sets one wallpaper: the program to execute and
/// its argument tokens, kept separate so that no shell quoting is involved.
pub struct Invocation {
    pub program: String,
    pub args: Vec<String>,
}

/// Builds the backend invocation for setting `wallpaper`: the engine's fixed
/// arguments followed by the target path, each as its own argument token.
pub fn build_invocation<E: Engine>(binary: &E, wallpaper: &String) -> (inv: Invocation)
    ensures
        inv.program@ == binary.spec_prefix(),
        inv.args@.len() == binary.spec_args().len() + 1,
        forall|k: int|
            0 <= k < binary.spec_args().len() ==> (#[trigger] inv.args@[k])@
                == binary.spec_args()[k],
        inv.args@[inv.args@.len() - 1]@ == wallpaper@,
{
    let fixed = binary.args();
    let mut args: Vec<String> = Vec::new();
    let mut i: usize = 0;
    while i < fixed.len()
        invariant
            i <= fixed@.len(),
            string_views(fixed@) == binary.spec_args(),
            args@.len() == i,
            forall|k: int| 0 <= k < i ==> (#[trigger] args@[k])@ == fixed@[k]@,
        decreases fixed@.len() - i,
    {
        args.push(fixed[i].clone());
        i = i + 1;
    }
    args.push(wallpaper.clone());
    Invocation { program: binary.prefix().clone(), args }
}

/// Relies on `which::which`: whether the executable name resolves on the
/// process's search path.
#[verifier::external_body]
fn binary_on_path(name: &String) -> (r: bool) {
    which::which(name.as_str()).is_ok()
}

/// The pre-flight existence check: resolves the engine's executable name on
/// the search path, to be run before any event is processed, and fails fast
/// with `BinaryNotFound` naming the missing binary.
pub fn preflight<E: Engine>(binary: &E) -> (r: Result<(), CyclerError>)
    ensures
        r matches Err(e) ==> e matches CyclerError::BinaryNotFound { which } && which@
            == binary.spec_which(),
{
    if binary_on_path(binary.which()) {
        Ok(())
    } else {
        Err(CyclerError::BinaryNotFound { which: binary.which().clone() })
    }
}

} // verus!
