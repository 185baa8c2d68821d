//! Where a game's files lie, and whether a game's folder is fit to load.
//! Nothing here touches the disk: the caller looks, and says what it found.

use vstd::prelude::*;
use vstd::string::*;

verus! {

/// One mod of a game: the folder's name and the path to it.
#[derive(Debug, Clone, PartialEq, Eq)]
pub struct ModDirectory {
    pub mod_name: String,
    pub mod_path: String,
}

/// A mod that lacks a file: the mod's name, and the name of the file.
#[derive(Debug, Clone, PartialEq, Eq)]
pub struct CheckGameError {
    pub mod_name: String,
    pub conf_or_main: String,
}

/// What the caller found of one mod.
#[derive(Debug, Clone, PartialEq, Eq)]
pub struct ModFiles {
    pub directory: ModDirectory,
    /// Whether the mod has a `main.lua`.
    pub has_main: bool,
    /// Whether the mod has a `mod.conf`.
    pub has_conf: bool,
}

/// What the caller found of one game.
#[derive(Debug, Clone, PartialEq, Eq)]
pub struct GameFolder {
    /// Whether the folder of all games exists.
    pub games_folder_exists: bool,
    /// Whether the game's own folder exists.
    pub game_exists: bool,
    /// Whether the game has a `mods` folder.
    pub mods_folder_exists: bool,
    /// Whether the game has a `game.conf`.
    pub has_conf_file: bool,
    /// The folders under `mods`, in the order they were listed.
    pub mods: Vec<ModFiles>,
}

/// Why a game cannot be loaded.
#[derive(Debug, Clone, PartialEq, Eq)]
pub enum GameFault {
    NoGamesFolder,
    NoGame,
    NoModsFolder,
    NoConfFile,
    NoMods,
    IncompleteMod(CheckGameError),
}

/// The kind of a [`GameFault`], and for an incomplete mod its place in the
/// listing.
pub enum FaultView {
    NoGamesFolder,
    NoGame,
    NoModsFolder,
    NoConfFile,
    NoMods,
    IncompleteMod(int),
}

/// The path of a game: the folder of all games, a slash, the game's name.
pub open spec fn game_path(games_dir: Seq<char>, game_name: Seq<char>) -> Seq<char> {
    games_dir + seq!['/'] + game_name
}

/// Whether a mod has both of its files.
pub open spec fn is_complete(found: ModFiles) -> bool {
    found.has_main && found.has_conf
}

/// The file that an incomplete mod is reported for: `main.lua` where that is
/// missing, else `mod.conf`.
pub open spec fn missing_file(found: ModFiles) -> Seq<char> {
    if !found.has_main {
        "main.lua"@
    } else {
        "mod.conf"@
    }
}

/// The place of the first mod in the listing that lacks a file, if any does.
pub open spec fn first_incomplete(mods: Seq<ModFiles>) -> Option<int>
    decreases mods.len(),
{
    if mods.len() == 0 {
        None
    } else {
        match first_incomplete(mods.drop_last()) {
            Some(place) => Some(place),
            None => if is_complete(mods.last()) {
                None
            } else {
                Some(mods.len() - 1)
            },
        }
    }
}

/// What is wrong with a game's folder, if anything. The tests run from the
/// outside in, and the first that fails is the fault.
pub open spec fn fault_of(folder: GameFolder) -> Option<FaultView> {
    if !folder.games_folder_exists {
        Some(FaultView::NoGamesFolder)
    } else if !folder.game_exists {
        Some(FaultView::NoGame)
    } else if !folder.mods_folder_exists {
        Some(FaultView::NoModsFolder)
    } else if !folder.has_conf_file {
        Some(FaultView::NoConfFile)
    } else if folder.mods@.len() == 0 {
        Some(FaultView::NoMods)
    } else {
        match first_incomplete(folder.mods@) {
            Some(place) => Some(FaultView::IncompleteMod(place)),
            None => None,
        }
    }
}

/// Whether `fault` is the report of `expected` for the mods listed.
pub open spec fn reports(fault: GameFault, expected: FaultView, mods: Seq<ModFiles>) -> bool {
    match (fault, expected) {
        (GameFault::NoGamesFolder, FaultView::NoGamesFolder) => true,
        (GameFault::NoGame, FaultView::NoGame) => true,
        (GameFault::NoModsFolder, FaultView::NoModsFolder) => true,
        (GameFault::NoConfFile, FaultView::NoConfFile) => true,
        (GameFault::NoMods, FaultView::NoMods) => true,
        (GameFault::IncompleteMod(error), FaultView::IncompleteMod(place)) => names(
            error,
            mods,
            place,
        ),
        _ => false,
    }
}

/// Whether `error` names the mod at `place` and the file it is reported for.
pub open spec fn names(error: CheckGameError, mods: Seq<ModFiles>, place: int) -> bool {
    &&& 0 <= place < mods.len()
    &&& error.mod_name@ == mods[place].directory.mod_name@
    &&& error.conf_or_main@ == missing_file(mods[place])
}

/// The first incomplete mod of a listing is a mod of the listing, lacks a
/// file, and has only complete mods before it; a listing without one is
/// complete throughout.
pub proof fn first_incomplete_is_first(mods: Seq<ModFiles>)
    ensures
        first_incomplete(mods) matches Some(place) ==> 0 <= place < mods.len() && !is_complete(
            mods[place],
        ) && forall|i: int| 0 <= i < place ==> is_complete(#[trigger] mods[i]),
        first_incomplete(mods) is None ==> forall|i: int|
            0 <= i < mods.len() ==> is_complete(#[trigger] mods[i]),
    decreases mods.len(),
{
    if mods.len() > 0 {
        first_incomplete_is_first(mods.drop_last());
        assert forall|i: int| 0 <= i < mods.len() - 1 implies mods.drop_last()[i] == mods[i] by {}
        if first_incomplete(mods.drop_last()) is None {
            assert forall|i: int| 0 <= i < mods.len() - 1 implies is_complete(
                #[trigger] mods[i],
            ) by {
                assert(is_complete(mods.drop_last()[i]));
            }
        }
    }
}

proof fn first_incomplete_of_prefix(mods: Seq<ModFiles>, length: int)
    requires
        0 <= length <= mods.len(),
        first_incomplete(mods.take(length)) is Some,
    ensures
        first_incomplete(mods) == first_incomplete(mods.take(length)),
    decreases mods.len() - length,
{
    if length < mods.len() {
        assert(mods.take(length + 1).drop_last() =~= mods.take(length));
        first_incomplete_of_prefix(mods, length + 1);
    } else {
        assert(mods.take(length) =~= mods);
    }
}

/// The path of a game: the folder of all games, a slash, the game's name.
pub fn get_game_path(games_dir: &str, game_name: &str) -> (path: String)
    ensures
        path@ == game_path(games_dir@, game_name@),
{
    proof {
        reveal_strlit("/");
        assert("/"@ =~= seq!['/']);
    }
    String::from_str(games_dir).concat("/").concat(game_name)
}

/// The path of a game's mods: the game's path and `/mods/`.
pub fn get_game_mod_path(games_dir: &str, game_name: &str) -> (path: String)
    ensures
        path@ == game_path(games_dir@, game_name@) + "/mods/"@,
{
    get_game_path(games_dir, game_name).concat("/mods/")
}

/// The path of a game's configuration: the game's path and `/game.conf`.
pub fn get_game_conf_path(games_dir: &str, game_name: &str) -> (path: String)
    ensures
        path@ == game_path(games_dir@, game_name@) + "/game.conf"@,
{
    get_game_path(games_dir, game_name).concat("/game.conf")
}

/// Looks for the first mod that lacks a file. `main.lua` is looked for
/// before `mod.conf`.
pub fn game_mods_have_main_and_conf(mods: &[ModFiles]) -> (checked: Result<(), CheckGameError>)
    ensures
        checked is Ok == first_incomplete(mods@) is None,
        checked matches Err(error) ==> first_incomplete(mods@) matches Some(place) && names(
            error,
            mods@,
            place,
        ),
{
    let mut i: usize = 0;
    while i < mods.len()
        invariant
            i <= mods.len(),
            first_incomplete(mods@.take(i as int)) is None,
        decreases mods.len() - i,
    {
        proof {
            assert(mods@.take(i + 1).drop_last() =~= mods@.take(i as int));
            assert(mods@.take(i + 1).last() == mods@[i as int]);
        }
        if !mods[i].has_main {
            proof {
                first_incomplete_of_prefix(mods@, i + 1);
            }
            return Err(
                CheckGameError {
                    mod_name: mods[i].directory.mod_name.clone(),
                    conf_or_main: String::from_str("main.lua"),
                },
            );
        }
        if !mods[i].has_conf {
            proof {
                first_incomplete_of_prefix(mods@, i + 1);
            }
            return Err(
                CheckGameError {
                    mod_name: mods[i].directory.mod_name.clone(),
                    conf_or_main: String::from_str("mod.conf"),
                },
            );
        }
        i += 1;
    }
    proof {
        assert(mods@.take(i as int) =~= mods@);
    }
    Ok(())
}

/// Runs every test on what was found of a game, from the outside in, and
/// reports the first that fails.
pub fn check_game(folder: &GameFolder) -> (checked: Result<(), GameFault>)
    ensures
        checked is Ok == fault_of(*folder) is None,
        checked matches Err(fault) ==> fault_of(*folder) matches Some(expected) && reports(
            fault,
            expected,
            folder.mods@,
        ),
{
    if !folder.games_folder_exists {
        return Err(GameFault::NoGamesFolder);
    }
    if !folder.game_exists {
        return Err(GameFault::NoGame);
    }
    if !folder.mods_folder_exists {
        return Err(GameFault::NoModsFolder);
    }
    if !folder.has_conf_file {
        return Err(GameFault::NoConfFile);
    }
    if folder.mods.len() == 0 {
        return Err(GameFault::NoMods);
    }
    match game_mods_have_main_and_conf(folder.mods.as_slice()) {
        Ok(()) => Ok(()),
        Err(error) => Err(GameFault::IncompleteMod(error)),
    }
}

} // verus!
